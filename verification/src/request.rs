//! What one job asks for: the direction and factor of the scaling and the
//! resampling filter, and the dimensions that follow from them.

use crate::text::same_text;
use vstd::arithmetic::div_mod::lemma_fundamental_div_mod;
use vstd::prelude::*;
use vstd::string::*;

verus! {

/// The direction of a scaling.
#[derive(Clone, Copy, Debug, PartialEq, Eq, Structural)]
pub enum ScaleOp {
    /// Enlarge: every side is multiplied by the factor.
    Up,
    /// Shrink: every side is divided by the factor, the remainder dropped.
    Down,
}

/// The resampling filter that maps source pixels to the target grid.
#[derive(Clone, Copy, Debug, PartialEq, Eq, Structural)]
pub enum FilterKind {
    Nearest,
    Triangle,
    CatmullRom,
    Gaussian,
    Lanczos3,
}

/// The direction that an operation code names: `up` or `down`, nothing else.
pub open spec fn scale_op_of(code: Seq<char>) -> Option<ScaleOp> {
    if code == "up"@ {
        Some(ScaleOp::Up)
    } else if code == "down"@ {
        Some(ScaleOp::Down)
    } else {
        None
    }
}

/// The filter that a lower-case short code names. A code that names none
/// stands for the Gaussian filter.
pub open spec fn filter_of_code(code: Seq<char>) -> FilterKind {
    if code == "gauss"@ {
        FilterKind::Gaussian
    } else if code == "near"@ {
        FilterKind::Nearest
    } else if code == "tri"@ {
        FilterKind::Triangle
    } else if code == "cmr"@ {
        FilterKind::CatmullRom
    } else if code == "lcz"@ {
        FilterKind::Lanczos3
    } else {
        FilterKind::Gaussian
    }
}

/// The lower-case form that `str::to_lowercase` gives a text.
pub uninterp spec fn lowercase_of(text: Seq<char>) -> Seq<char>;

/// `str::to_lowercase`: the text with every character replaced by its
/// lower-case form as Unicode defines it. The result depends on the text
/// alone; which characters it holds is left to std.
#[verifier::external_body]
fn lowercase(text: &str) -> (lower: String)
    ensures
        lower@ == lowercase_of(text@),
{
    text.to_lowercase()
}

impl ScaleOp {
    /// Reads an operation code. Only the exact codes `up` and `down` name an
    /// operation.
    pub fn from_code(code: &str) -> (op: Option<ScaleOp>)
        ensures
            op == scale_op_of(code@),
    {
        if same_text(code, "up") {
            Some(ScaleOp::Up)
        } else if same_text(code, "down") {
            Some(ScaleOp::Down)
        } else {
            None
        }
    }
}

impl FilterKind {
    /// Reads a lower-case filter code.
    pub fn from_code(code: &str) -> (filter: FilterKind)
        ensures
            filter == filter_of_code(code@),
    {
        if same_text(code, "gauss") {
            FilterKind::Gaussian
        } else if same_text(code, "near") {
            FilterKind::Nearest
        } else if same_text(code, "tri") {
            FilterKind::Triangle
        } else if same_text(code, "cmr") {
            FilterKind::CatmullRom
        } else if same_text(code, "lcz") {
            FilterKind::Lanczos3
        } else {
            FilterKind::Gaussian
        }
    }

    /// Reads a filter name in any letter case: the name is put in lower case
    /// and read as a code.
    pub fn from_name(name: &str) -> (filter: FilterKind)
        ensures
            filter == filter_of_code(lowercase_of(name@)),
    {
        let lower = lowercase(name);
        FilterKind::from_code(lower.as_str())
    }
}

/// The sides of an image of `width` by `height` pixels after scaling by
/// `factor` in the direction `op`. Shrinking divides and drops the remainder.
pub open spec fn target_dimensions(op: ScaleOp, factor: nat, width: nat, height: nat) -> (
    nat,
    nat,
) {
    match op {
        ScaleOp::Up => (width * factor, height * factor),
        ScaleOp::Down => (width / factor, height / factor),
    }
}

/// What one job asks for. The factor is at least one.
#[derive(Clone, Copy, Debug)]
pub struct ScaleRequest {
    op: ScaleOp,
    factor: u32,
    filter: FilterKind,
}

impl ScaleRequest {
    #[verifier::type_invariant]
    spec fn well_formed(self) -> bool {
        self.factor >= 1
    }

    /// The direction of the scaling.
    pub closed spec fn op(self) -> ScaleOp {
        self.op
    }

    /// The factor of the scaling.
    pub closed spec fn factor(self) -> nat {
        self.factor as nat
    }

    /// The resampling filter.
    pub closed spec fn filter(self) -> FilterKind {
        self.filter
    }

    /// A request to scale by `factor`. A factor of zero makes no request.
    pub fn new(op: ScaleOp, factor: u32, filter: FilterKind) -> (r: Option<ScaleRequest>)
        ensures
            r is Some <==> factor >= 1,
            r matches Some(q) ==> q.op() == op && q.factor() == factor && q.filter() == filter,
    {
        if factor >= 1 {
            Some(ScaleRequest { op, factor, filter })
        } else {
            None
        }
    }

    /// The direction of the scaling.
    pub fn get_op(&self) -> (op: ScaleOp)
        ensures
            op == self.op(),
    {
        self.op
    }

    /// The factor of the scaling, at least one.
    pub fn get_factor(&self) -> (factor: u32)
        ensures
            factor == self.factor(),
            factor >= 1,
    {
        proof {
            use_type_invariant(self);
        }
        self.factor
    }

    /// The resampling filter.
    pub fn get_filter(&self) -> (filter: FilterKind)
        ensures
            filter == self.filter(),
    {
        self.filter
    }

    /// The sides that an image of `width` by `height` pixels is scaled to, or
    /// nothing where a side would no longer fit 32 bits.
    pub fn target(&self, width: u32, height: u32) -> (r: Option<(u32, u32)>)
        ensures
            self.factor() >= 1,
            r is Some <==> {
                let (w, h) = target_dimensions(self.op(), self.factor(), width as nat, height as nat);
                w <= u32::MAX && h <= u32::MAX
            },
            r matches Some((w, h)) ==> (w as nat, h as nat) == target_dimensions(
                self.op(),
                self.factor(),
                width as nat,
                height as nat,
            ),
    {
        proof {
            use_type_invariant(self);
        }
        match self.op {
            ScaleOp::Down => Some((width / self.factor, height / self.factor)),
            ScaleOp::Up => {
                match (width.checked_mul(self.factor), height.checked_mul(self.factor)) {
                    (Some(w), Some(h)) => Some((w, h)),
                    _ => None,
                }
            },
        }
    }
}

/// The width and height of an image in pixels.
#[derive(Clone, Copy, Debug, PartialEq, Eq, Structural)]
pub struct Size {
    pub width: u32,
    pub height: u32,
}

/// Why an image was not scaled.
#[derive(Clone, Copy, Debug, PartialEq, Eq, Structural)]
pub enum TransformError {
    /// The scale factor is zero.
    ZeroFactor,
    /// The path's extension names no image format.
    UnknownFormat,
    /// The bytes do not decode in the format that the path names.
    Undecodable,
    /// The image has no pixels.
    EmptyImage,
    /// An enlarged side no longer fits 32 bits.
    SideOverflow,
    /// A side is longer than the resampler takes, or a buffer larger than any
    /// allocation.
    TooLarge,
    /// The scaled image does not encode in the format that the path names.
    Unencodable,
}

/// The longest side that is resampled. The resampler places pixels with
/// 32-bit floats, which hold 24 significant bits; up to this length every
/// position is still exact to an eighth of a pixel.
pub const MAX_SIDE: u32 = 1_048_576;

/// Whether a buffer of `width` by `height` pixels can be allocated at all: at
/// the sixteen bytes that the widest pixel takes, it stays within the largest
/// allocation.
pub open spec fn allocatable(width: nat, height: nat) -> bool {
    16 * width * height <= isize::MAX
}

/// A buffer of at most 8192 pixels a side stays within the largest allocation
/// of every machine.
pub proof fn lemma_allocatable(width: nat, height: nat)
    requires
        width <= 8192,
        height <= 8192,
    ensures
        allocatable(width, height),
{
    assert(16 * width * height <= 16 * 8192 * 8192) by (nonlinear_arith)
        requires
            width <= 8192,
            height <= 8192,
    ;
}

/// Whether an image of `width` by `height` pixels can be resampled to `w` by
/// `h`: no side is beyond the longest, and neither the buffer of the old width
/// by the new height nor that of the new size is beyond any allocation.
pub open spec fn resamplable(width: nat, height: nat, w: nat, h: nat) -> bool {
    &&& width <= MAX_SIDE
    &&& height <= MAX_SIDE
    &&& w <= MAX_SIDE
    &&& h <= MAX_SIDE
    &&& allocatable(width, h)
    &&& allocatable(w, h)
}

/// The sides of the scaled image: the target, or a single pixel where a side
/// of the target would vanish.
pub open spec fn scaled_sides(op: ScaleOp, factor: nat, width: nat, height: nat) -> (nat, nat) {
    let (w, h) = target_dimensions(op, factor, width, height);
    if w == 0 || h == 0 {
        (1, 1)
    } else {
        (w, h)
    }
}

/// The size that an image of `width` by `height` pixels has after scaling, or
/// the reason why it is not scaled.
pub open spec fn scaled_size(op: ScaleOp, factor: nat, width: nat, height: nat) -> Result<
    Size,
    TransformError,
> {
    let (tw, th) = target_dimensions(op, factor, width, height);
    let (w, h) = scaled_sides(op, factor, width, height);
    if width == 0 || height == 0 {
        Err(TransformError::EmptyImage)
    } else if tw > u32::MAX || th > u32::MAX {
        Err(TransformError::SideOverflow)
    } else if !resamplable(width, height, w, h) {
        Err(TransformError::TooLarge)
    } else {
        Ok(Size { width: w as u32, height: h as u32 })
    }
}

fn fits_allocation(width: u32, height: u32) -> (fits: bool)
    ensures
        fits == allocatable(width as nat, height as nat),
{
    assert(16 * width * height <= 16 * 0xffff_ffff * 0xffff_ffff) by (nonlinear_arith)
        requires
            width <= 0xffff_ffff,
            height <= 0xffff_ffff,
    ;
    let bytes: u128 = 16 * (width as u128) * (height as u128);
    bytes <= isize::MAX as u128
}

impl ScaleRequest {
    /// The size that an image of the size `native` has after scaling as the
    /// request says, or the reason why it is not scaled.
    pub fn scaled_size(&self, native: Size) -> (r: Result<Size, TransformError>)
        ensures
            r == scaled_size(
                self.op(),
                self.factor(),
                native.width as nat,
                native.height as nat,
            ),
    {
        if native.width == 0 || native.height == 0 {
            return Err(TransformError::EmptyImage);
        }
        match self.target(native.width, native.height) {
            None => Err(TransformError::SideOverflow),
            Some((tw, th)) => {
                let (w, h) = if tw == 0 || th == 0 {
                    (1, 1)
                } else {
                    (tw, th)
                };
                if native.width > MAX_SIDE || native.height > MAX_SIDE || w > MAX_SIDE || h
                    > MAX_SIDE || !fits_allocation(native.width, h) || !fits_allocation(w, h) {
                    Err(TransformError::TooLarge)
                } else {
                    Ok(Size { width: w, height: h })
                }
            },
        }
    }
}

/// Shrinking by a factor and then enlarging by the same factor gives each side
/// back as the largest multiple of the factor that is not above it. So the
/// round trip never grows a side, and it loses exactly the remainder: a side
/// that the factor does not divide does not come back.
pub proof fn lemma_shrink_then_enlarge(factor: nat, width: nat, height: nat)
    requires
        factor >= 1,
    ensures
        ({
            let (w, h) = target_dimensions(ScaleOp::Down, factor, width, height);
            let back = target_dimensions(ScaleOp::Up, factor, w, h);
            &&& back.0 == width - width % factor
            &&& back.1 == height - height % factor
            &&& back.0 <= width
            &&& back.1 <= height
            &&& width % factor != 0 ==> back.0 != width
            &&& height % factor != 0 ==> back.1 != height
            &&& back == (width, height) <==> width % factor == 0 && height % factor == 0
        }),
{
    lemma_fundamental_div_mod(width as int, factor as int);
    lemma_fundamental_div_mod(height as int, factor as int);
    assert((width / factor) * factor == factor * (width / factor)) by (nonlinear_arith);
    assert((height / factor) * factor == factor * (height / factor)) by (nonlinear_arith);
}


/// Shrinking an image whose sides are at least the factor gives it exactly the
/// quotients of its sides, the remainders dropped.
pub proof fn lemma_shrink_gives_quotients(factor: nat, width: nat, height: nat)
    requires
        factor >= 1,
        width >= factor,
        height >= factor,
    ensures
        scaled_size(ScaleOp::Down, factor, width, height) matches Ok(size) ==> size.width == width
            / factor && size.height == height / factor,
{
    assert(width / factor >= 1 && height / factor >= 1) by (nonlinear_arith)
        requires
            factor >= 1,
            width >= factor,
            height >= factor,
    ;
}

/// Enlarging an image gives it exactly the products of its sides and the
/// factor.
pub proof fn lemma_enlarge_gives_products(factor: nat, width: nat, height: nat)
    requires
        factor >= 1,
    ensures
        scaled_size(ScaleOp::Up, factor, width, height) matches Ok(size) ==> size.width == width
            * factor && size.height == height * factor,
{
    assert(width >= 1 && height >= 1 ==> width * factor >= 1 && height * factor >= 1)
        by (nonlinear_arith)
        requires
            factor >= 1,
    ;
}

/// A factor of one keeps the size, in either direction.
pub proof fn lemma_factor_one_keeps_size(op: ScaleOp, width: nat, height: nat)
    ensures
        scaled_size(op, 1, width, height) matches Ok(size) ==> size.width == width && size.height
            == height,
{
}

/// Enlarging and then shrinking by the same factor gives the size back: an
/// image that can be enlarged can be shrunk again, and loses nothing.
pub proof fn lemma_enlarge_then_shrink(factor: nat, width: nat, height: nat)
    requires
        factor >= 1,
    ensures
        scaled_size(ScaleOp::Up, factor, width, height) matches Ok(big) ==> scaled_size(
            ScaleOp::Down,
            factor,
            big.width as nat,
            big.height as nat,
        ) == Ok::<Size, TransformError>(Size { width: width as u32, height: height as u32 }),
{
    if scaled_size(ScaleOp::Up, factor, width, height) is Ok {
        let big_w = width * factor;
        let big_h = height * factor;
        assert(big_w >= width && big_h >= height && big_w >= 1 && big_h >= 1) by (nonlinear_arith)
            requires
                factor >= 1,
                width >= 1,
                height >= 1,
                big_w == width * factor,
                big_h == height * factor,
        ;
        assert(big_w / factor == width && big_h / factor == height) by (nonlinear_arith)
            requires
                factor >= 1,
                big_w == width * factor,
                big_h == height * factor,
        ;
        assert(16 * big_w * height <= 16 * big_w * big_h && 16 * width * height <= 16 * big_w
            * big_h) by (nonlinear_arith)
            requires
                big_w >= width,
                big_h >= height,
        ;
    }
}

/// Shrinking and then enlarging by the same factor gives each side back as the
/// largest multiple of the factor that is not above it: the size comes back
/// exactly where the factor divides both sides, and nowhere else.
pub proof fn lemma_shrunk_then_enlarged_size(factor: nat, width: nat, height: nat)
    requires
        factor >= 1,
        width >= factor,
        height >= factor,
    ensures
        scaled_size(ScaleOp::Down, factor, width, height) matches Ok(small) ==> (scaled_size(
            ScaleOp::Up,
            factor,
            small.width as nat,
            small.height as nat,
        ) matches Ok(back) ==> {
            &&& back.width == width - width % factor
            &&& back.height == height - height % factor
            &&& (back.width == width && back.height == height) <==> (width % factor == 0 && height
                % factor == 0)
        }),
{
    lemma_shrink_gives_quotients(factor, width, height);
    lemma_shrink_then_enlarge(factor, width, height);
    match scaled_size(ScaleOp::Down, factor, width, height) {
        Ok(small) => {
            lemma_enlarge_gives_products(factor, small.width as nat, small.height as nat);
        },
        Err(_) => {},
    }
}

} // verus!
