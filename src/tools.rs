//! The brush: it stamps a masked pattern onto a canvas around a draw location,
//! clipped to the canvas.
use vstd::prelude::*;
use crate::geometry::{span, span_end, span_start, StampPoint, UPoint};
use crate::mix_methods::{mix_spec, normal_takes_incoming, MixMethod};
use crate::patterns::{PatternFunction, PatternGeneratingFunc};
use crate::pressure_mask::{MaskFunction, MaskGeneratingFunc, OPACITY_ONE};
use crate::raster::{in_dims, pixels_cover_dims, rgba_dims, rgba_pixels, Raster};

verus! {

/// Channel `c` scaled by opacity `m`, rounded half up and saturated at 255.
pub open spec fn masked_channel(c: u8, m: u32) -> u8 {
    let v = (c * m + OPACITY_ONE / 2) / OPACITY_ONE as int;
    if v > 255 { 255u8 } else { v as u8 }
}

/// Color `c` with every channel, alpha included, scaled by opacity `m`.
pub open spec fn masked_color(c: [u8; 4], m: u32) -> Seq<u8> {
    Seq::new(4, |i: int| masked_channel(c@[i], m))
}

/// The pixel that results from blending the incoming pixel `incoming` onto
/// `origin` with `law`: on all four channels for width 4; on the color channels
/// for width 3, with an opaque alpha; and `origin` unchanged for any other width.
pub open spec fn mixed_pixel(law: MixMethod, width: u8, origin: [u8; 4], incoming: Seq<u8>) -> Seq<
    u8,
> {
    if width == 4 {
        mix_spec(law, origin@, incoming)
    } else if width == 3 {
        mix_spec(law, origin@.take(3), incoming.take(3)).push(255)
    } else {
        origin@
    }
}

fn masked_one(c: u8, m: u32) -> (r: u8)
    ensures
        r == masked_channel(c, m),
{
    let x: u64 = c as u64;
    let y: u64 = m as u64;
    assert(x * y <= 255 * 0xffff_ffff) by (nonlinear_arith)
        requires
            x <= 255,
            y <= 0xffff_ffff,
    ;
    let v: u64 = (x * y + OPACITY_ONE as u64 / 2) / OPACITY_ONE as u64;
    if v > 255 {
        255
    } else {
        v as u8
    }
}

fn mask_color(c: [u8; 4], m: u32) -> (r: [u8; 4])
    ensures
        r@ == masked_color(c, m),
{
    let r = [masked_one(c[0], m), masked_one(c[1], m), masked_one(c[2], m), masked_one(c[3], m)];
    assert(r@ =~= masked_color(c, m));
    r
}

/// The new value of canvas pixel `origin` at footprint cell `loc` of a footprint
/// of size `size`, blending on all four channels.
pub open spec fn brush_mix4_spec<M: MaskFunction, P: PatternFunction>(
    mask: M,
    pattern: P,
    origin: [u8; 4],
    law: MixMethod,
    loc: UPoint,
    size: UPoint,
) -> Seq<u8> {
    match pattern.color_spec(loc.x, loc.y, size) {
        Some(c) => mixed_pixel(law, 4, origin, masked_color(c, mask.opacity_spec(loc.x, loc.y, size))),
        None => origin@,
    }
}

/// As `brush_mix4_spec`, blending the color channels only.
pub open spec fn brush_mix3_spec<M: MaskFunction, P: PatternFunction>(
    mask: M,
    pattern: P,
    origin: [u8; 4],
    law: MixMethod,
    loc: UPoint,
    size: UPoint,
) -> Seq<u8> {
    match pattern.color_spec(loc.x, loc.y, size) {
        Some(c) => mixed_pixel(law, 3, origin, masked_color(c, mask.opacity_spec(loc.x, loc.y, size))),
        None => origin@,
    }
}

fn brush_mix4<M: MaskFunction, P: PatternFunction>(
    mask_generating_func: &M,
    pattern_generating_func: &P,
    origin: &[u8; 4],
    mix_method: &MixMethod,
    loc: &UPoint,
    size: &UPoint,
) -> (r: [u8; 4])
    ensures
        r@ == brush_mix4_spec(*mask_generating_func, *pattern_generating_func, *origin, *mix_method, *loc, *size),
{
    let mask = mask_generating_func.opacity(loc.x, loc.y, size);
    match pattern_generating_func.color_at(loc.x, loc.y, size) {
        Some(c) => {
            let masked_pattern = mask_color(c, mask);
            mix_method.perform_operation_4(origin, &masked_pattern)
        },
        None => *origin,
    }
}

fn brush_mix3<M: MaskFunction, P: PatternFunction>(
    mask_generating_func: &M,
    pattern_generating_func: &P,
    origin: &[u8; 4],
    mix_method: &MixMethod,
    loc: &UPoint,
    size: &UPoint,
) -> (r: [u8; 4])
    ensures
        r@ == brush_mix3_spec(*mask_generating_func, *pattern_generating_func, *origin, *mix_method, *loc, *size),
{
    let mask = mask_generating_func.opacity(loc.x, loc.y, size);
    match pattern_generating_func.color_at(loc.x, loc.y, size) {
        Some(c) => {
            let m = mask_color(c, mask);
            let a: [u8; 3] = [origin[0], origin[1], origin[2]];
            let b: [u8; 3] = [m[0], m[1], m[2]];
            assert(a@ =~= origin@.take(3));
            assert(b@ =~= m@.take(3));
            let rgb = mix_method.perform_operation_3(&a, &b);
            let r: [u8; 4] = [rgb[0], rgb[1], rgb[2], 255];
            assert(r@ =~= rgb@.push(255));
            r
        },
        None => *origin,
    }
}

/// A tool applied at one location of a canvas.
pub trait PointTool {
    /// `after` is what applying the tool at `loc` makes of `before`.
    spec fn applied(&self, before: Raster, loc: StampPoint, after: Raster) -> bool;

    fn apply(&self, image: &mut Raster, relative_loc: StampPoint)
        ensures
            self.applied(*old(image), relative_loc, *final(image)),
    ;
}

/// A brush: an opacity mask and a color pattern over a footprint of `size`,
/// blended onto the canvas with `mix_method` on `mix_width` channels (3 or 4;
/// any other width leaves the canvas as it is).
pub struct Brush<M, P> {
    pub mask_generating_func: MaskGeneratingFunc<M>,
    pub pattern_generating_func: PatternGeneratingFunc<P>,
    pub size: UPoint,
    pub mix_method: MixMethod,
    pub mix_width: u8,
}

impl<M: MaskFunction, P: PatternFunction> Brush<M, P> {
    /// Canvas pixel `(x, y)` lies in the footprint placed at `loc` on a canvas of
    /// dimensions `dims`.
    pub open spec fn in_footprint(&self, dims: (u32, u32), loc: StampPoint, x: u32, y: u32) -> bool {
        &&& span_start(loc.x, self.size.x / 2) <= x < span_end(loc.x, self.size.x / 2, dims.0)
        &&& span_start(loc.y, self.size.y / 2) <= y < span_end(loc.y, self.size.y / 2, dims.1)
    }

    /// The new value of canvas pixel `origin` at footprint cell `(lx, ly)`.
    pub open spec fn stamped_pixel(&self, origin: [u8; 4], lx: int, ly: int) -> Seq<u8> {
        let loc = UPoint { x: lx as u32, y: ly as u32 };
        if self.mix_width == 4 {
            brush_mix4_spec(
                self.mask_generating_func,
                self.pattern_generating_func,
                origin,
                self.mix_method,
                loc,
                self.size,
            )
        } else if self.mix_width == 3 {
            brush_mix3_spec(
                self.mask_generating_func,
                self.pattern_generating_func,
                origin,
                self.mix_method,
                loc,
                self.size,
            )
        } else {
            origin@
        }
    }

    /// `after` is `before` with the brush stamped at `loc`: each pixel in the
    /// footprint is blended with the pattern at its offset from the footprint's
    /// first covered pixel, and every other pixel is kept.
    pub open spec fn stamp_spec(&self, before: Raster, loc: StampPoint, after: Raster) -> bool {
        let dims = rgba_dims(before);
        &&& pixels_cover_dims(before)
        &&& rgba_dims(after) == dims
        &&& rgba_pixels(after).dom() == rgba_pixels(before).dom()
        &&& forall|x: u32, y: u32|
            #![trigger rgba_pixels(after)[(x, y)]]
            in_dims(dims, x, y) ==> rgba_pixels(after)[(x, y)]@ == if self.in_footprint(
                dims,
                loc,
                x,
                y,
            ) {
                self.stamped_pixel(
                    rgba_pixels(before)[(x, y)],
                    x - span_start(loc.x, self.size.x / 2),
                    y - span_start(loc.y, self.size.y / 2),
                )
            } else {
                rgba_pixels(before)[(x, y)]@
            }
    }
}

impl<M: MaskFunction, P: PatternFunction> PointTool for Brush<M, P> {
    open spec fn applied(&self, before: Raster, loc: StampPoint, after: Raster) -> bool {
        self.stamp_spec(before, loc, after)
    }

    fn apply(&self, image: &mut Raster, relative_loc: StampPoint) {
        let ghost before = *image;
        let image_size = image.size();
        let pattern_size = self.size;
        let half_x = pattern_size.x / 2;
        let half_y = pattern_size.y / 2;
        let (x0, x1) = span(relative_loc.x, half_x, image_size.x);
        let (y0, y1) = span(relative_loc.y, half_y, image_size.y);
        let ghost dims = rgba_dims(before);
        let mut i: u32 = x0;
        while i < x1
            invariant
                x0 <= i <= x1 <= dims.0,
                y0 <= y1 <= dims.1,
                dims == rgba_dims(before),
                half_x == self.size.x / 2,
                half_y == self.size.y / 2,
                pattern_size == self.size,
                x0 < x1 <==> span_start(relative_loc.x, half_x) < span_end(
                    relative_loc.x,
                    half_x,
                    dims.0,
                ),
                x0 < x1 ==> x0 == span_start(relative_loc.x, half_x) && x1 == span_end(
                    relative_loc.x,
                    half_x,
                    dims.0,
                ),
                y0 < y1 <==> span_start(relative_loc.y, half_y) < span_end(
                    relative_loc.y,
                    half_y,
                    dims.1,
                ),
                y0 < y1 ==> y0 == span_start(relative_loc.y, half_y) && y1 == span_end(
                    relative_loc.y,
                    half_y,
                    dims.1,
                ),
                rgba_dims(*image) == dims,
                rgba_pixels(*image).dom() == rgba_pixels(before).dom(),
                forall|p: (u32, u32)| #[trigger]
                    rgba_pixels(before).contains_key(p) <==> in_dims(dims, p.0, p.1),
                forall|x: u32, y: u32|
                    #![trigger rgba_pixels(*image)[(x, y)]]
                    in_dims(dims, x, y) && x0 <= x < i && y0 <= y < y1 ==> rgba_pixels(*image)[(
                        x,
                        y,
                    )]@ == self.stamped_pixel(rgba_pixels(before)[(x, y)], x - x0, y - y0),
                forall|x: u32, y: u32|
                    #![trigger rgba_pixels(*image)[(x, y)]]
                    in_dims(dims, x, y) && !(x0 <= x < i && y0 <= y < y1) ==> rgba_pixels(
                        *image,
                    )[(x, y)] == rgba_pixels(before)[(x, y)],
            decreases x1 - i,
        {
            let mut j: u32 = y0;
            while j < y1
                invariant
                    x0 <= i < x1 <= dims.0,
                    y0 <= j <= y1 <= dims.1,
                    dims == rgba_dims(before),
                    pattern_size == self.size,
                    rgba_dims(*image) == dims,
                    rgba_pixels(*image).dom() == rgba_pixels(before).dom(),
                    forall|p: (u32, u32)| #[trigger]
                        rgba_pixels(before).contains_key(p) <==> in_dims(dims, p.0, p.1),
                    forall|x: u32, y: u32|
                        #![trigger rgba_pixels(*image)[(x, y)]]
                        in_dims(dims, x, y) && ((x0 <= x < i && y0 <= y < y1) || (x == i && y0 <= y
                            < j)) ==> rgba_pixels(*image)[(x, y)]@ == self.stamped_pixel(
                            rgba_pixels(before)[(x, y)],
                            x - x0,
                            y - y0,
                        ),
                    forall|x: u32, y: u32|
                        #![trigger rgba_pixels(*image)[(x, y)]]
                        in_dims(dims, x, y) && !((x0 <= x < i && y0 <= y < y1) || (x == i && y0
                            <= y < j)) ==> rgba_pixels(*image)[(x, y)] == rgba_pixels(before)[(
                            x,
                            y,
                        )],
                decreases y1 - j,
            {
                let loc = UPoint { x: i - x0, y: j - y0 };
                match image.pixel_at(i, j) {
                    Some(pixel) => {
                        let ghost cur = *image;
                        assert(pixel == rgba_pixels(before)[(i, j)]);
                        let new_pixel = if self.mix_width == 4 {
                            brush_mix4(
                                &self.mask_generating_func,
                                &self.pattern_generating_func,
                                &pixel,
                                &self.mix_method,
                                &loc,
                                &pattern_size,
                            )
                        } else if self.mix_width == 3 {
                            brush_mix3(
                                &self.mask_generating_func,
                                &self.pattern_generating_func,
                                &pixel,
                                &self.mix_method,
                                &loc,
                                &pattern_size,
                            )
                        } else {
                            pixel
                        };
                        assert(new_pixel@ == self.stamped_pixel(pixel, i - x0, j - y0));
                        image.put_pixel(i, j, new_pixel);
                        proof {
                            assert forall|x: u32, y: u32|
                                in_dims(dims, x, y) && (x != i || y != j) implies #[trigger] rgba_pixels(
                                *image,
                            )[(x, y)] == rgba_pixels(cur)[(x, y)] by {
                                assert((x, y) != (i, j));
                            }
                        }
                    },
                    None => {},
                }
                j = j + 1;
            }
            i = i + 1;
        }
        proof {
            assert forall|x: u32, y: u32| in_dims(dims, x, y) implies #[trigger] rgba_pixels(
                *image,
            )[(x, y)]@ == if self.in_footprint(dims, relative_loc, x, y) {
                self.stamped_pixel(
                    rgba_pixels(before)[(x, y)],
                    x - span_start(relative_loc.x, self.size.x / 2),
                    y - span_start(relative_loc.y, self.size.y / 2),
                )
            } else {
                rgba_pixels(before)[(x, y)]@
            } by {
                if x0 <= x < x1 && y0 <= y < y1 {
                    assert(self.in_footprint(dims, relative_loc, x, y));
                } else {
                    assert(!self.in_footprint(dims, relative_loc, x, y));
                }
            }
        }
    }
}

proof fn same_bytes_same_pixel(a: [u8; 4], b: [u8; 4])
    requires
        a@ == b@,
    ensures
        a == b,
{
    assert(a =~= b);
}

proof fn full_opacity_keeps_color(c: [u8; 4])
    ensures
        masked_color(c, OPACITY_ONE) == c@,
{
    assert forall|i: int| 0 <= i < 4 implies masked_channel(c@[i], OPACITY_ONE) == c@[i] by {
        let v = c@[i] as int;
        assert((v * 65536 + 32768) / 65536 == v) by (nonlinear_arith)
            requires
                0 <= v <= 255,
        ;
    }
    assert(masked_color(c, OPACITY_ONE) =~= c@);
}

/// A stamp whose footprint lies wholly left of or wholly above the canvas leaves
/// the canvas as it was, pixel for pixel.
pub proof fn off_canvas_stamp_keeps_canvas<M: MaskFunction, P: PatternFunction>(
    b: Brush<M, P>,
    before: Raster,
    loc: StampPoint,
    after: Raster,
)
    requires
        loc.wf(),
        b.stamp_spec(before, loc, after),
        loc.x.ceil + b.size.x / 2 <= 0 || loc.y.ceil + b.size.y / 2 <= 0,
    ensures
        rgba_dims(after) == rgba_dims(before),
        rgba_pixels(after) == rgba_pixels(before),
{
    let dims = rgba_dims(before);
    assert forall|k: (u32, u32)| rgba_pixels(after).contains_key(k) implies rgba_pixels(after)[k]
        == rgba_pixels(before)[k] by {
        let (x, y) = k;
        assert(!b.in_footprint(dims, loc, x, y));
        assert(rgba_pixels(after)[(x, y)]@ == rgba_pixels(before)[(x, y)]@);
        same_bytes_same_pixel(rgba_pixels(after)[(x, y)], rgba_pixels(before)[(x, y)]);
    }
    assert(rgba_pixels(after) =~= rgba_pixels(before));
}

/// A `Normal` brush of one solid color at full opacity, whose footprint lies
/// wholly on the canvas, paints each pixel of that footprint in the color (its
/// alpha opaque where three channels are blended) and keeps every other pixel.
pub proof fn solid_stamp_paints_footprint<M: MaskFunction, P: PatternFunction>(
    b: Brush<M, P>,
    before: Raster,
    loc: StampPoint,
    after: Raster,
    color: [u8; 4],
)
    requires
        loc.wf(),
        b.stamp_spec(before, loc, after),
        b.mix_method == MixMethod::Normal,
        b.mix_width == 4 || (b.mix_width == 3 && color[3] == 255),
        forall|x: u32, y: u32, s: UPoint| #[trigger]
            b.pattern_generating_func.color_spec(x, y, s) == Some(color),
        forall|x: u32, y: u32, s: UPoint| #[trigger]
            b.mask_generating_func.opacity_spec(x, y, s) == OPACITY_ONE,
        loc.x.ceil >= b.size.x / 2,
        loc.y.ceil >= b.size.y / 2,
        loc.x.floor + b.size.x / 2 <= rgba_dims(before).0,
        loc.y.floor + b.size.y / 2 <= rgba_dims(before).1,
    ensures
        rgba_dims(after) == rgba_dims(before),
        forall|x: u32, y: u32|
            #![trigger rgba_pixels(after)[(x, y)]]
            in_dims(rgba_dims(before), x, y) ==> rgba_pixels(after)[(x, y)] == if loc.x.ceil - b.size.x
                / 2 <= x < loc.x.floor + b.size.x / 2 && loc.y.ceil - b.size.y / 2 <= y < loc.y.floor
                + b.size.y / 2 {
                color
            } else {
                rgba_pixels(before)[(x, y)]
            },
{
    let dims = rgba_dims(before);
    full_opacity_keeps_color(color);
    assert forall|x: u32, y: u32| in_dims(dims, x, y) implies #[trigger] rgba_pixels(after)[(x, y)]
        == if loc.x.ceil - b.size.x / 2 <= x < loc.x.floor + b.size.x / 2 && loc.y.ceil - b.size.y
        / 2 <= y < loc.y.floor + b.size.y / 2 {
        color
    } else {
        rgba_pixels(before)[(x, y)]
    } by {
        let o = rgba_pixels(before)[(x, y)];
        if b.in_footprint(dims, loc, x, y) {
            let lx = x - span_start(loc.x, b.size.x / 2);
            let ly = y - span_start(loc.y, b.size.y / 2);
            let cell = UPoint { x: lx as u32, y: ly as u32 };
            assert(b.pattern_generating_func.color_spec(cell.x, cell.y, b.size) == Some(color));
            assert(b.mask_generating_func.opacity_spec(cell.x, cell.y, b.size) == OPACITY_ONE);
            if b.mix_width == 4 {
                normal_takes_incoming(o@, color@);
            } else {
                normal_takes_incoming(o@.take(3), color@.take(3));
                assert(color@.take(3).push(255) =~= color@);
            }
            same_bytes_same_pixel(rgba_pixels(after)[(x, y)], color);
        } else {
            same_bytes_same_pixel(rgba_pixels(after)[(x, y)], o);
        }
    }
}

/// Stamping a `Normal` brush a second time at the same location changes nothing:
/// the canvas after two stamps is the canvas after one.
pub proof fn normal_stamp_idempotent<M: MaskFunction, P: PatternFunction>(
    b: Brush<M, P>,
    c0: Raster,
    loc: StampPoint,
    c1: Raster,
    c2: Raster,
)
    requires
        b.stamp_spec(c0, loc, c1),
        b.stamp_spec(c1, loc, c2),
        b.mix_method == MixMethod::Normal,
    ensures
        rgba_dims(c2) == rgba_dims(c1),
        rgba_pixels(c2) == rgba_pixels(c1),
{
    let dims = rgba_dims(c0);
    assert forall|k: (u32, u32)| rgba_pixels(c2).contains_key(k) implies rgba_pixels(c2)[k]
        == rgba_pixels(c1)[k] by {
        let (x, y) = k;
        let p0 = rgba_pixels(c0)[(x, y)];
        let p1 = rgba_pixels(c1)[(x, y)];
        if b.in_footprint(dims, loc, x, y) {
            let lx = x - span_start(loc.x, b.size.x / 2);
            let ly = y - span_start(loc.y, b.size.y / 2);
            let cell = UPoint { x: lx as u32, y: ly as u32 };
            match b.pattern_generating_func.color_spec(cell.x, cell.y, b.size) {
                Some(c) => {
                    let m = masked_color(c, b.mask_generating_func.opacity_spec(cell.x, cell.y, b.size));
                    if b.mix_width == 4 {
                        normal_takes_incoming(p0@, m);
                        normal_takes_incoming(p1@, m);
                    } else if b.mix_width == 3 {
                        normal_takes_incoming(p0@.take(3), m.take(3));
                        normal_takes_incoming(p1@.take(3), m.take(3));
                    }
                },
                None => {},
            }
        }
        assert(rgba_pixels(c2)[(x, y)]@ == p1@);
        same_bytes_same_pixel(rgba_pixels(c2)[(x, y)], p1);
    }
    assert(rgba_pixels(c2) =~= rgba_pixels(c1));
}

} // verus!
