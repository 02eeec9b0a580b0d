use img_comp::{walk_efs, DirEntryInfo};

fn entry(path: &str, is_file: bool, size: u64) -> DirEntryInfo {
    DirEntryInfo { path: path.to_string(), is_file, size }
}

#[test]
fn three_files_add_up() {
    let listing = vec![
        entry("/mnt/efs/photos/a.png", true, 100),
        entry("/mnt/efs/photos/b.png", true, 200),
        entry("/mnt/efs/photos/c.png", true, 300),
    ];
    let snapshot = walk_efs(&listing);
    assert_eq!(snapshot.size, "600 bytes");
    assert_eq!(
        snapshot.files,
        vec!["/mnt/efs/photos/a.png", "/mnt/efs/photos/b.png", "/mnt/efs/photos/c.png"]
    );
}

#[test]
fn an_empty_directory_holds_nothing() {
    let snapshot = walk_efs(&Vec::new());
    assert_eq!(snapshot.size, "0 bytes");
    assert!(snapshot.files.is_empty());
}

#[test]
fn a_subdirectory_counts_but_is_not_listed() {
    let listing = vec![
        entry("/data/a.jpg", true, 10),
        entry("/data/thumbs", false, 4096),
        entry("/data/b.jpg", true, 20),
    ];
    let snapshot = walk_efs(&listing);
    assert_eq!(snapshot.files, vec!["/data/a.jpg", "/data/b.jpg"]);
    assert_eq!(snapshot.size, "4126 bytes");
}

#[test]
fn files_keep_the_order_of_the_listing() {
    let listing = vec![entry("z", true, 1), entry("a", true, 2), entry("m", true, 3)];
    assert_eq!(walk_efs(&listing).files, vec!["z", "a", "m"]);
}

#[test]
fn the_same_listing_gives_the_same_inventory() {
    let listing = vec![entry("a", true, 5), entry("d", false, 7), entry("b", true, 11)];
    let first = walk_efs(&listing);
    let second = walk_efs(&listing);
    assert_eq!(first.files, second.files);
    assert_eq!(first.size, second.size);
}

#[test]
fn the_order_of_the_listing_changes_neither_total_nor_files() {
    let one = vec![entry("a", true, 5), entry("d", false, 7), entry("b", true, 11)];
    let other = vec![entry("b", true, 11), entry("a", true, 5), entry("d", false, 7)];
    let first = walk_efs(&one);
    let second = walk_efs(&other);
    assert_eq!(first.size, "23 bytes");
    assert_eq!(second.size, "23 bytes");
    let mut left = first.files.clone();
    let mut right = second.files.clone();
    left.sort();
    right.sort();
    assert_eq!(left, right);
    assert_eq!(left, vec!["a", "b"]);
}

#[test]
fn with_files_alone_the_total_is_the_sum_of_the_listed_files() {
    let listing = vec![entry("a", true, 1), entry("b", true, 20), entry("c", true, 300), entry("d", false, 0)];
    let snapshot = walk_efs(&listing);
    let sum: u64 = listing
        .iter()
        .filter(|e| snapshot.files.contains(&e.path))
        .map(|e| e.size)
        .sum();
    assert_eq!(sum, 321);
    assert_eq!(snapshot.size, format!("{} bytes", sum));
}

#[test]
fn a_total_beyond_sixty_four_bits_is_still_exact() {
    let listing = vec![entry("a", true, u64::MAX), entry("b", true, u64::MAX)];
    assert_eq!(walk_efs(&listing).size, "36893488147419103230 bytes");
}
