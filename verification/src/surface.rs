use vstd::prelude::*;

verus! {

/// The greatest width that a surface can have.
pub const MAX_WIDTH: u32 = 536_870_911;

/// `tiny_skia::Pixmap`: a surface that owns its pixels.
#[verifier::external_type_specification]
#[verifier::external_body]
pub struct ExPixmap(tiny_skia::Pixmap);

/// The bytes that a pixmap holds, row after row, four to a pixel: red, green,
/// blue and alpha.
pub uninterp spec fn pixmap_bytes(pixmap: tiny_skia::Pixmap) -> Seq<u8>;

/// The width and the height of a pixmap, in pixels.
pub uninterp spec fn pixmap_size(pixmap: tiny_skia::Pixmap) -> (u32, u32);

/// Whether a surface of this size can exist: neither side is zero, a row's
/// length in bytes fits in 31 bits, and the length of the whole in `isize`.
pub open spec fn valid_surface_size(width: u32, height: u32) -> bool {
    &&& 0 < width <= MAX_WIDTH
    &&& 0 < height
    &&& 4 * width * height <= isize::MAX
}

/// The number of bytes in a surface of this size.
pub open spec fn surface_len(width: u32, height: u32) -> int {
    4 * width * height
}

/// A pixmap that holds four bytes for each pixel of a size that a surface
/// can have.
pub open spec fn well_formed(pixmap: tiny_skia::Pixmap) -> bool {
    &&& valid_surface_size(pixmap_size(pixmap).0, pixmap_size(pixmap).1)
    &&& pixmap_bytes(pixmap).len() == surface_len(pixmap_size(pixmap).0, pixmap_size(pixmap).1)
}

/// `tiny_skia::Pixmap::new`: allocates a pixmap of the given size, every byte
/// zero. It gives none where a side is zero or the width is above a quarter
/// of `i32::MAX`. A length in bytes above `isize::MAX` cannot be allocated.
pub assume_specification[ tiny_skia::Pixmap::new ](width: u32, height: u32) -> (r: Option<
    tiny_skia::Pixmap,
>)
    requires
        surface_len(width, height) <= isize::MAX,
    ensures
        r is Some <==> valid_surface_size(width, height),
        r matches Some(pixmap) ==> pixmap_size(pixmap) == (width, height) && pixmap_bytes(pixmap)
            == Seq::new(surface_len(width, height) as nat, |i: int| 0u8),
;

/// `tiny_skia::Pixmap::width`: the width that the pixmap was made with.
pub assume_specification[ tiny_skia::Pixmap::width ](pixmap: &tiny_skia::Pixmap) -> (r: u32)
    ensures
        r == pixmap_size(*pixmap).0,
;

/// `tiny_skia::Pixmap::height`: the height that the pixmap was made with.
pub assume_specification[ tiny_skia::Pixmap::height ](pixmap: &tiny_skia::Pixmap) -> (r: u32)
    ensures
        r == pixmap_size(*pixmap).1,
;

/// `tiny_skia::Pixmap::data`: the pixmap's bytes.
pub assume_specification[ tiny_skia::Pixmap::data ](pixmap: &tiny_skia::Pixmap) -> (r: &[u8])
    ensures
        r@ == pixmap_bytes(*pixmap),
;

/// `tiny_skia::Pixmap::data_mut`: the pixmap's bytes, to be written in place.
/// What is written becomes what the pixmap holds; its size stays.
pub assume_specification[ tiny_skia::Pixmap::data_mut ](pixmap: &mut tiny_skia::Pixmap) -> (r:
    &mut [u8])
    ensures
        r@ == pixmap_bytes(*old(pixmap)),
        pixmap_bytes(*final(pixmap)) == final(r)@,
        pixmap_size(*final(pixmap)) == pixmap_size(*old(pixmap)),
;

/// `tiny_skia::Pixmap::take`: gives up the pixmap for its bytes.
pub assume_specification[ tiny_skia::Pixmap::take ](pixmap: tiny_skia::Pixmap) -> (r: Vec<u8>)
    ensures
        r@ == pixmap_bytes(pixmap),
;

/// `tiny_skia_path::IntSize::from_wh` and `tiny_skia::Pixmap::from_vec`: a pixmap
/// of the given size that takes over the bytes. The first gives none where a
/// side is zero, the second where the width is above a quarter of `i32::MAX`
/// or the number of bytes is not four for each pixel. No vector holds more
/// than `isize::MAX` bytes.
#[verifier::external_body]
pub(crate) fn pixmap_from_vec(data: Vec<u8>, width: u32, height: u32) -> (r: Option<
    tiny_skia::Pixmap,
>)
    ensures
        r is Some <==> (valid_surface_size(width, height) && data@.len() == surface_len(
            width,
            height,
        )),
        r matches Some(pixmap) ==> pixmap_size(pixmap) == (width, height) && pixmap_bytes(pixmap)
            == data@,
{
    tiny_skia::Pixmap::from_vec(data, tiny_skia_path::IntSize::from_wh(width, height)?)
}

/// The number of bytes in a surface of this size, where a surface can have
/// the size.
pub fn checked_surface_len(width: u32, height: u32) -> (r: Option<usize>)
    ensures
        r is Some <==> valid_surface_size(width, height),
        r matches Some(len) ==> len == surface_len(width, height),
{
    if width == 0 || width > MAX_WIDTH || height == 0 {
        return None;
    }
    assert(4 * width * height <= 4 * MAX_WIDTH * 0xffff_ffff) by (nonlinear_arith)
        requires
            0 < width <= MAX_WIDTH,
            0 < height <= 0xffff_ffff,
    ;
    let len: u64 = 4 * (width as u64) * (height as u64);
    if len <= isize::MAX as u64 {
        Some(len as usize)
    } else {
        None
    }
}

/// Whether a pixmap holds four bytes for each pixel of a size that a surface
/// can have.
pub fn is_well_formed(pixmap: &tiny_skia::Pixmap) -> (r: bool)
    ensures
        r == well_formed(*pixmap),
{
    match checked_surface_len(pixmap.width(), pixmap.height()) {
        Some(len) => pixmap.data().len() == len,
        None => false,
    }
}

/// Sets every byte of a surface to zero, which makes it transparent black.
pub fn clear(pixmap: &mut tiny_skia::Pixmap)
    ensures
        pixmap_size(*final(pixmap)) == pixmap_size(*old(pixmap)),
        pixmap_bytes(*final(pixmap)) == Seq::new(
            pixmap_bytes(*old(pixmap)).len(),
            |i: int| 0u8,
        ),
{
    let data = pixmap.data_mut();
    let n: usize = data.len();
    let mut i: usize = 0;
    while i < n
        invariant
            data@.len() == n,
            i <= n,
            forall|j: int| 0 <= j < i ==> data@[j] == 0,
        decreases n - i,
    {
        data[i] = 0;
        i += 1;
    }
    assert(data@ == Seq::new(n as nat, |i: int| 0u8));
}

/// Copies the bytes from `first` up to `end` out of `source` into the same
/// place of `target`, and leaves every other byte of `target` as it was.
pub fn copy_range(target: &mut [u8], source: &[u8], first: usize, end: usize)
    requires
        first <= end <= old(target)@.len(),
        end <= source@.len(),
    ensures
        final(target)@.len() == old(target)@.len(),
        forall|i: int|
            0 <= i < final(target)@.len() ==> final(target)@[i] == if first <= i < end {
                source@[i]
            } else {
                old(target)@[i]
            },
{
    let mut i: usize = first;
    while i < end
        invariant
            first <= i <= end,
            end <= target@.len(),
            end <= source@.len(),
            target@.len() == old(target)@.len(),
            forall|j: int|
                0 <= j < target@.len() ==> target@[j] == if first <= j < i {
                    source@[j]
                } else {
                    old(target)@[j]
                },
        decreases end - i,
    {
        target[i] = source[i];
        i += 1;
    }
}

} // verus!
