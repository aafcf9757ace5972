//! An RGBA raster of the `image` crate, as the library sees it: a width, a
//! height, and one four-byte pixel for every coordinate inside them.
use vstd::prelude::*;
use image::RgbaImage;
use crate::geometry::UPoint;

verus! {

/// An `image::RgbaImage` held by the library. Its contents are known to proofs
/// only through `rgba_dims` and `rgba_pixels`.
#[verifier::external_body]
pub struct Raster {
    img: RgbaImage,
}

/// The width and height of a raster.
pub uninterp spec fn rgba_dims(r: Raster) -> (u32, u32);

/// The pixels of a raster, keyed by `(x, y)`, for every `x` below its width and
/// `y` below its height.
pub uninterp spec fn rgba_pixels(r: Raster) -> Map<(u32, u32), [u8; 4]>;

/// `(x, y)` lies inside a raster of dimensions `dims`.
pub open spec fn in_dims(dims: (u32, u32), x: u32, y: u32) -> bool {
    x < dims.0 && y < dims.1
}

/// The offset of the first byte of pixel `(x, y)` in a packed, row-major RGBA
/// buffer of width `w`.
pub open spec fn byte_offset(w: u32, x: u32, y: u32) -> int {
    4 * (y * w + x)
}

/// The pixels of `r` are those stored in `bytes`, row by row, four bytes each.
pub open spec fn holds_bytes(r: Raster, bytes: Seq<u8>) -> bool {
    let (w, h) = rgba_dims(r);
    forall|x: u32, y: u32|
        #![trigger rgba_pixels(r)[(x, y)]]
        in_dims((w, h), x, y) ==> rgba_pixels(r)[(x, y)]@ == bytes.subrange(
            byte_offset(w, x, y),
            byte_offset(w, x, y) + 4,
        )
}

/// Every coordinate of `r` is a key of its pixels, and nothing else is.
pub open spec fn pixels_cover_dims(r: Raster) -> bool {
    forall|p: (u32, u32)| #[trigger]
        rgba_pixels(r).contains_key(p) <==> in_dims(rgba_dims(r), p.0, p.1)
}

/// Relies on `ImageBuffer::from_pixel`: an image of the given size with every
/// pixel set to `p`; it panics where the buffer would exceed the largest vector.
#[verifier::external_body]
fn image_from_pixel(width: u32, height: u32, p: [u8; 4]) -> (r: Raster)
    requires
        4 * width * height <= isize::MAX,
    ensures
        rgba_dims(r) == (width, height),
        forall|x: u32, y: u32| #[trigger]
            in_dims((width, height), x, y) ==> rgba_pixels(r)[(x, y)] == p,
{
    Raster { img: RgbaImage::from_pixel(width, height, image::Rgba(p)) }
}

/// Relies on `ImageBuffer::from_raw`: an image over `buf` when it holds at least
/// four bytes for each of the `width * height` pixels, packed row by row.
#[verifier::external_body]
fn image_from_raw(width: u32, height: u32, buf: Vec<u8>) -> (r: Option<Raster>)
    ensures
        r.is_some() <==> 4 * width * height <= buf@.len(),
        r matches Some(img) ==> rgba_dims(img) == (width, height) && holds_bytes(img, buf@),
{
    RgbaImage::from_raw(width, height, buf).map(|img| Raster { img })
}

impl Raster {
    /// Relies on `ImageBuffer::dimensions`: the width and height the image was made with.
    #[verifier::external_body]
    pub(crate) fn dimensions(&self) -> (r: (u32, u32))
        ensures
            r == rgba_dims(*self),
            forall|p: (u32, u32)| #[trigger]
                rgba_pixels(*self).contains_key(p) <==> in_dims(r, p.0, p.1),
    {
        self.img.dimensions()
    }

    /// Relies on `ImageBuffer::get_pixel_checked`: the pixel at `(x, y)` inside the
    /// bounds, and none at an `x` at or past the width.
    #[verifier::external_body]
    fn pixel_checked(&self, x: u32, y: u32) -> (r: Option<[u8; 4]>)
        ensures
            in_dims(rgba_dims(*self), x, y) ==> r == Some(rgba_pixels(*self)[(x, y)]),
            x >= rgba_dims(*self).0 ==> r.is_none(),
    {
        self.img.get_pixel_checked(x, y).map(|p| p.0)
    }

    /// Relies on `ImageBuffer::put_pixel`: it replaces the one pixel at `(x, y)`,
    /// which must lie inside the bounds.
    #[verifier::external_body]
    pub(crate) fn put_pixel(&mut self, x: u32, y: u32, p: [u8; 4])
        requires
            in_dims(rgba_dims(*old(self)), x, y),
        ensures
            rgba_dims(*final(self)) == rgba_dims(*old(self)),
            rgba_pixels(*final(self)) == rgba_pixels(*old(self)).insert((x, y), p),
    {
        self.img.put_pixel(x, y, image::Rgba(p))
    }

    /// A raster of `width` by `height` pixels, every one of them `color`.
    pub fn filled(width: u32, height: u32, color: [u8; 4]) -> (r: Raster)
        requires
            4 * width * height <= isize::MAX,
        ensures
            rgba_dims(r) == (width, height),
            pixels_cover_dims(r),
            forall|x: u32, y: u32| #[trigger]
                in_dims((width, height), x, y) ==> rgba_pixels(r)[(x, y)] == color,
    {
        let r = image_from_pixel(width, height, color);
        let _ = r.dimensions();
        r
    }

    /// A raster over packed, row-major RGBA bytes; `None` when `bytes` holds fewer
    /// than four bytes for each of the `width * height` pixels.
    pub fn from_bytes(width: u32, height: u32, bytes: Vec<u8>) -> (r: Option<Raster>)
        ensures
            r.is_some() <==> 4 * width * height <= bytes@.len(),
            r matches Some(img) ==> {
                &&& rgba_dims(img) == (width, height)
                &&& pixels_cover_dims(img)
                &&& holds_bytes(img, bytes@)
            },
    {
        let ghost b = bytes@;
        match image_from_raw(width, height, bytes) {
            Some(img) => {
                let _ = img.dimensions();
                Some(img)
            },
            None => None,
        }
    }

    /// The width and height of the raster.
    pub fn size(&self) -> (r: UPoint)
        ensures
            r == (UPoint { x: rgba_dims(*self).0, y: rgba_dims(*self).1 }),
            pixels_cover_dims(*self),
    {
        let (w, h) = self.dimensions();
        UPoint { x: w, y: h }
    }

    /// The pixel at `(x, y)`, or `None` outside the raster.
    pub fn pixel_at(&self, x: u32, y: u32) -> (r: Option<[u8; 4]>)
        ensures
            r == (if in_dims(rgba_dims(*self), x, y) {
                Some(rgba_pixels(*self)[(x, y)])
            } else {
                None::<[u8; 4]>
            }),
    {
        let (w, h) = self.dimensions();
        if x < w && y < h {
            self.pixel_checked(x, y)
        } else {
            None
        }
    }

    /// The pixels packed row by row, four bytes each.
    pub fn to_bytes(&self) -> (r: Vec<u8>)
        requires
            4 * rgba_dims(*self).0 * rgba_dims(*self).1 <= usize::MAX,
        ensures
            r@.len() == 4 * rgba_dims(*self).0 * rgba_dims(*self).1,
            holds_bytes(*self, r@),
    {
        let (w, h) = self.dimensions();
        let mut out: Vec<u8> = Vec::new();
        let mut y: u32 = 0;
        while y < h
            invariant
                (w, h) == rgba_dims(*self),
                4 * w * h <= usize::MAX,
                y <= h,
                out@.len() == 4 * w * y,
                forall|x: u32, yy: u32|
                    #![trigger rgba_pixels(*self)[(x, yy)]]
                    x < w && yy < y ==> rgba_pixels(*self)[(x, yy)]@ == out@.subrange(
                        byte_offset(w, x, yy),
                        byte_offset(w, x, yy) + 4,
                    ),
            decreases h - y,
        {
            let mut x: u32 = 0;
            while x < w
                invariant
                    (w, h) == rgba_dims(*self),
                    4 * w * h <= usize::MAX,
                    y < h,
                    x <= w,
                    out@.len() == 4 * w * y + 4 * x,
                    forall|xx: u32, yy: u32|
                        #![trigger rgba_pixels(*self)[(xx, yy)]]
                        ((xx < w && yy < y) || (xx < x && yy == y)) ==> rgba_pixels(
                            *self,
                        )[(xx, yy)]@ == out@.subrange(
                            byte_offset(w, xx, yy),
                            byte_offset(w, xx, yy) + 4,
                        ),
                decreases w - x,
            {
                assert(4 * w * y + 4 * x + 4 <= 4 * w * h) by (nonlinear_arith)
                    requires
                        x < w,
                        y < h,
                ;
                let p = self.pixel_checked(x, y).unwrap();
                let ghost before = out@;
                out.push(p[0]);
                out.push(p[1]);
                out.push(p[2]);
                out.push(p[3]);
                proof {
                    assert(byte_offset(w, x, y) == 4 * w * y + 4 * x) by (nonlinear_arith);
                    assert(out@.subrange(byte_offset(w, x, y), byte_offset(w, x, y) + 4) =~= p@);
                    assert forall|xx: u32, yy: u32|
                        ((xx < w && yy < y) || (xx < x && yy == y)) implies #[trigger] rgba_pixels(
                        *self,
                    )[(xx, yy)]@ == out@.subrange(
                        byte_offset(w, xx, yy),
                        byte_offset(w, xx, yy) + 4,
                    ) by {
                        assert(byte_offset(w, xx, yy) + 4 <= 4 * w * y + 4 * x) by (nonlinear_arith)
                            requires
                                (xx < w && yy < y) || (xx < x && yy == y),
                                x < w,
                        ;
                        assert(out@.subrange(byte_offset(w, xx, yy), byte_offset(w, xx, yy) + 4)
                            =~= before.subrange(byte_offset(w, xx, yy), byte_offset(w, xx, yy) + 4));
                    }
                }
                x = x + 1;
            }
            assert(4 * w * y + 4 * w == 4 * w * (y + 1)) by (nonlinear_arith);
            y = y + 1;
        }
        out
    }
}

} // verus!
