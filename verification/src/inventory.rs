//! Directory inventory: which entries of one directory level are regular
//! files, and how many bytes the level holds.

use crate::decimal::{decimal, to_decimal};
use vstd::multiset::Multiset;
use vstd::prelude::*;
use vstd::string::*;

verus! {

/// What a directory listing reports of one entry.
#[derive(Clone, Debug)]
pub struct DirEntryInfo {
    /// The entry's path.
    pub path: String,
    /// Whether the entry is a regular file.
    pub is_file: bool,
    /// The byte length that the entry's metadata reports.
    pub size: u64,
}

/// One entry as a mathematical value.
pub struct EntryView {
    pub path: Seq<char>,
    pub is_file: bool,
    pub size: nat,
}

impl View for DirEntryInfo {
    type V = EntryView;

    open spec fn view(&self) -> EntryView {
        EntryView { path: self.path@, is_file: self.is_file, size: self.size as nat }
    }
}

/// The inventory of one directory level.
#[derive(Clone, Debug)]
pub struct DirData {
    /// The paths of the regular files, in listing order.
    pub files: Vec<String>,
    /// The byte total of the level, as text.
    pub size: String,
}

/// An inventory as a mathematical value.
pub struct Snapshot {
    pub files: Seq<Seq<char>>,
    pub size: Seq<char>,
}

impl View for DirData {
    type V = Snapshot;

    open spec fn view(&self) -> Snapshot {
        Snapshot { files: paths(self.files@), size: self.size@ }
    }
}

/// The character sequences of a sequence of strings.
pub open spec fn paths(files: Seq<String>) -> Seq<Seq<char>> {
    files.map_values(|s: String| s@)
}

/// A listing as a sequence of mathematical entries.
pub open spec fn listing(entries: Seq<DirEntryInfo>) -> Seq<EntryView> {
    entries.map_values(|e: DirEntryInfo| e@)
}

/// The sum of the sizes of all entries, regular file or not.
pub open spec fn total_size(entries: Seq<EntryView>) -> nat
    decreases entries.len(),
{
    if entries.len() == 0 {
        0
    } else {
        total_size(entries.drop_last()) + entries.last().size
    }
}

/// The sum of the sizes of the regular files alone.
pub open spec fn files_size(entries: Seq<EntryView>) -> nat
    decreases entries.len(),
{
    if entries.len() == 0 {
        0
    } else if entries.last().is_file {
        files_size(entries.drop_last()) + entries.last().size
    } else {
        files_size(entries.drop_last())
    }
}

/// The paths of the regular files, in listing order.
pub open spec fn regular_files(entries: Seq<EntryView>) -> Seq<Seq<char>>
    decreases entries.len(),
{
    if entries.len() == 0 {
        Seq::empty()
    } else if entries.last().is_file {
        regular_files(entries.drop_last()).push(entries.last().path)
    } else {
        regular_files(entries.drop_last())
    }
}

/// A byte total as text.
pub open spec fn size_text(total: nat) -> Seq<char> {
    decimal(total) + " bytes"@
}

/// The inventory of a listing: every regular file's path, and the byte total
/// of every entry. An entry that is no regular file adds its size to the total
/// without being listed.
pub open spec fn inventory(entries: Seq<EntryView>) -> Snapshot {
    Snapshot { files: regular_files(entries), size: size_text(total_size(entries)) }
}

/// The paths of the regular files as a bag: what is listed, whatever the order.
pub open spec fn file_bag(entries: Seq<EntryView>) -> Multiset<Seq<char>> {
    regular_files(entries).to_multiset()
}

/// Taking one entry out of a listing takes its size out of the total and, if
/// it is a regular file, its size out of the files' total and its path out of
/// the listed files.
proof fn lemma_remove_entry(entries: Seq<EntryView>, at: int)
    requires
        0 <= at < entries.len(),
    ensures
        total_size(entries) == total_size(entries.remove(at)) + entries[at].size,
        entries[at].is_file ==> file_bag(entries) == file_bag(entries.remove(at)).insert(
            entries[at].path,
        ),
        !entries[at].is_file ==> file_bag(entries) == file_bag(entries.remove(at)),
    decreases entries.len(),
{
    broadcast use vstd::seq_lib::group_to_multiset_ensures;

    let shorter = entries.remove(at);
    if at == entries.len() - 1 {
        assert(shorter =~= entries.drop_last());
    } else {
        lemma_remove_entry(entries.drop_last(), at);
        assert(shorter.drop_last() =~= entries.drop_last().remove(at));
        assert(shorter.last() == entries.last());
        let rest = file_bag(shorter.drop_last());
        if entries.last().is_file && entries[at].is_file {
            assert(rest.insert(entries[at].path).insert(entries.last().path) =~= rest.insert(
                entries.last().path,
            ).insert(entries[at].path));
        }
    }
}

/// Two listings of the same entries give the same inventory, whatever the order
/// in which the entries were listed: the same byte total, hence the same size
/// text, and the same file paths up to order.
pub proof fn lemma_inventory_ignores_order(first: Seq<EntryView>, second: Seq<EntryView>)
    requires
        first.to_multiset() == second.to_multiset(),
    ensures
        total_size(first) == total_size(second),
        inventory(first).size == inventory(second).size,
        inventory(first).files.to_multiset() == inventory(second).files.to_multiset(),
    decreases first.len(),
{
    first.to_multiset_ensures();
    second.to_multiset_ensures();
    if first.len() > 0 {
        let last = first.last();
        assert(first.contains(last));
        assert(second.to_multiset().count(last) > 0);
        let at = choose|at: int| 0 <= at < second.len() && second[at] == last;
        assert(first.drop_last() =~= first.remove(first.len() - 1));
        lemma_inventory_ignores_order(first.drop_last(), second.remove(at));
        lemma_remove_entry(first, first.len() - 1);
        lemma_remove_entry(second, at);
    }
}

/// Whether every entry that is no regular file has size zero.
pub open spec fn only_files_count(entries: Seq<EntryView>) -> bool {
    forall|i: int| 0 <= i < entries.len() ==> entries[i].is_file || (#[trigger] entries[i]).size == 0
}

/// Where every entry that is no regular file has size zero, the byte total of
/// an inventory is the sum of the sizes of the files it lists.
pub proof fn lemma_total_is_files_total(entries: Seq<EntryView>)
    requires
        only_files_count(entries),
    ensures
        total_size(entries) == files_size(entries),
        inventory(entries).size == size_text(files_size(entries)),
    decreases entries.len(),
{
    if entries.len() > 0 {
        let rest = entries.drop_last();
        assert forall|i: int| 0 <= i < rest.len() implies rest[i].is_file || (#[trigger] rest[i]).size
            == 0 by {
            assert(rest[i] == entries[i]);
        }
        lemma_total_is_files_total(rest);
    }
}

/// An entry that is no regular file and has a size of its own makes the byte
/// total larger than the sum of the sizes of the listed files.
pub proof fn lemma_total_exceeds_files_total(entries: Seq<EntryView>)
    requires
        !only_files_count(entries),
    ensures
        total_size(entries) > files_size(entries),
    decreases entries.len(),
{
    lemma_files_total_within_total(entries);
    let at = choose|i: int| 0 <= i < entries.len() && !(entries[i].is_file || (#[trigger] entries[i]).size == 0);
    let rest = entries.drop_last();
    lemma_files_total_within_total(rest);
    if at < entries.len() - 1 {
        assert(rest[at] == entries[at]);
        lemma_total_exceeds_files_total(rest);
    }
}

/// The regular files never hold more bytes than the whole listing.
pub proof fn lemma_files_total_within_total(entries: Seq<EntryView>)
    ensures
        files_size(entries) <= total_size(entries),
    decreases entries.len(),
{
    if entries.len() > 0 {
        lemma_files_total_within_total(entries.drop_last());
    }
}

/// Takes the inventory of one directory level from its listing.
pub fn walk_efs(entries: &Vec<DirEntryInfo>) -> (d: DirData)
    ensures
        d@ == inventory(listing(entries@)),
{
    let ghost all = listing(entries@);
    let mut total: u128 = 0;
    let mut files: Vec<String> = Vec::new();
    let mut i: usize = 0;
    while i < entries.len()
        invariant
            i <= entries.len(),
            all == listing(entries@),
            total == total_size(all.take(i as int)),
            total <= i * u64::MAX,
            paths(files@) == regular_files(all.take(i as int)),
        decreases entries.len() - i,
    {
        let entry = &entries[i];
        proof {
            assert(all.take(i + 1).drop_last() =~= all.take(i as int));
            assert(all.take(i + 1).last() == entry@);
        }
        if entry.is_file {
            let ghost before = files@;
            files.push(entry.path.clone());
            assert(paths(files@) =~= paths(before).push(entry.path@));
        }
        total = total + entry.size as u128;
        i += 1;
    }
    assert(all.take(i as int) =~= all);
    let mut size = to_decimal(total);
    size.append(" bytes");
    DirData { files, size }
}

} // verus!
