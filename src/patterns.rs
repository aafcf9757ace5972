//! Stencil patterns: a grid of coverage flags over a bounding box, with the
//! color sources that covered cells draw from, and named color functions.
use vstd::prelude::*;
use std::collections::HashMap;
use crate::geometry::UPoint;
use crate::naming::{decimal, NameCounter};
use crate::raster::{in_dims, rgba_dims, rgba_pixels, Raster};

verus! {

broadcast use vstd::std_specs::hash::group_hash_axioms;

/// Opaque black.
pub const BLACK: [u8; 4] = [0, 0, 0, 255];

/// Where a covered cell of a pattern takes its color from.
pub enum ColorMap {
    /// The pixel of a raster at the same coordinate.
    Image(Raster),
    /// A table keyed by `coord_key` of the coordinate.
    CoordColor(HashMap<u64, [u8; 4]>),
    /// One color for every covered cell.
    Color([u8; 4]),
}

/// The key of coordinate `c` in a `ColorMap::CoordColor` table.
pub open spec fn spec_coord_key(c: UPoint) -> u64 {
    (c.x * 0x1_0000_0000 + c.y) as u64
}

/// The key of coordinate `c` in a `ColorMap::CoordColor` table.
pub fn coord_key(c: UPoint) -> (r: u64)
    ensures
        r == spec_coord_key(c),
{
    c.x as u64 * 0x1_0000_0000 + c.y as u64
}

/// The position of cell `c` in the coverage buffer of a pattern of the given
/// width: `x` is the outer stride.
pub open spec fn spec_coord_to_index(c: UPoint, width: u32) -> int {
    c.x * width + c.y
}

fn coord_to_index(c: UPoint, width: u32) -> (r: u64)
    ensures
        r == spec_coord_to_index(c, width),
{
    assert(c.x * width <= 0xffff_ffff * 0xffff_ffff) by (nonlinear_arith)
        requires
            c.x <= 0xffff_ffff,
            width <= 0xffff_ffff,
    ;
    c.x as u64 * width as u64 + c.y as u64
}

/// `c` lies inside a box of size `size`.
pub open spec fn spec_coord_in_size(c: UPoint, size: UPoint) -> bool {
    c.x < size.x && c.y < size.y
}

fn coord_in_size(c: &UPoint, size: &UPoint) -> (r: bool)
    ensures
        r == spec_coord_in_size(*c, *size),
{
    c.x < size.x && c.y < size.y
}

/// The color that source `m` gives the covered cell `c`.
pub open spec fn source_color(m: ColorMap, c: UPoint) -> Option<[u8; 4]> {
    match m {
        ColorMap::Image(img) => if in_dims(rgba_dims(img), c.x, c.y) {
            Some(rgba_pixels(img)[(c.x, c.y)])
        } else {
            None
        },
        ColorMap::CoordColor(t) => if t@.contains_key(spec_coord_key(c)) {
            Some(t@[spec_coord_key(c)])
        } else {
            None
        },
        ColorMap::Color(k) => Some(k),
    }
}

/// A stamp shape: a coverage flag per cell of a `size.x` by `size.y` box, the
/// color of uncovered cells, and the source of the color of covered ones.
pub struct ComplexColor {
    size: UPoint,
    pattern: Vec<u8>,
    default_color: [u8; 4],
    color_map: ColorMap,
}

impl ComplexColor {
    pub closed spec fn spec_size(&self) -> UPoint {
        self.size
    }

    /// The coverage flags, cell `c` at `spec_coord_to_index(c, size.x)`; zero is uncovered.
    pub closed spec fn coverage(&self) -> Seq<u8> {
        self.pattern@
    }

    pub closed spec fn spec_default_color(&self) -> [u8; 4] {
        self.default_color
    }

    pub closed spec fn spec_color_map(&self) -> ColorMap {
        self.color_map
    }

    /// One coverage flag per cell.
    pub open spec fn wf(&self) -> bool {
        self.coverage().len() == self.spec_size().x * self.spec_size().y
    }

    /// The color of cell `c`: none outside the box or past the coverage buffer,
    /// the default color where the cell is uncovered, else what the source gives.
    pub open spec fn color_spec(&self, c: UPoint) -> Option<[u8; 4]> {
        let i = spec_coord_to_index(c, self.spec_size().x);
        if !spec_coord_in_size(c, self.spec_size()) || i >= self.coverage().len() {
            None
        } else if self.coverage()[i] == 0 {
            Some(self.spec_default_color())
        } else {
            source_color(self.spec_color_map(), c)
        }
    }

    /// A pattern of the given size; `None` unless `pattern` holds exactly one
    /// coverage flag per cell.
    pub fn new(size: UPoint, pattern: Vec<u8>, default_color: [u8; 4], color_map: ColorMap) -> (r:
        Option<ComplexColor>)
        ensures
            r.is_some() <==> pattern@.len() == size.x * size.y,
            r matches Some(p) ==> {
                &&& p.wf()
                &&& p.spec_size() == size
                &&& p.coverage() == pattern@
                &&& p.spec_default_color() == default_color
                &&& p.spec_color_map() == color_map
            },
    {
        assert(size.x * size.y <= 0xffff_ffff * 0xffff_ffff) by (nonlinear_arith)
            requires
                size.x <= 0xffff_ffff,
                size.y <= 0xffff_ffff,
        ;
        if pattern.len() as u64 == size.x as u64 * size.y as u64 {
            Some(ComplexColor { size, pattern, default_color, color_map })
        } else {
            None
        }
    }

    /// The cell at the middle of the box, rounded toward the top-left.
    pub fn center(&self) -> (r: UPoint)
        ensures
            r.x == self.spec_size().x / 2,
            r.y == self.spec_size().y / 2,
    {
        UPoint { x: self.size.x / 2, y: self.size.y / 2 }
    }

    /// The color of cell `coord`, as `color_spec` states it.
    pub fn get_color_at(&self, coord: UPoint) -> (r: Option<[u8; 4]>)
        ensures
            r == self.color_spec(coord),
            !spec_coord_in_size(coord, self.spec_size()) ==> r.is_none(),
    {
        if !coord_in_size(&coord, &self.size) {
            return None;
        }
        let index = coord_to_index(coord, self.size.x);
        if index >= self.pattern.len() as u64 {
            return None;
        }
        let re = self.pattern[index as usize];
        if re == 0 {
            Some(self.default_color)
        } else {
            match &self.color_map {
                ColorMap::Image(img) => img.pixel_at(coord.x, coord.y),
                ColorMap::CoordColor(cc) => {
                    let key = coord_key(coord);
                    match cc.get(&key) {
                        Some(c) => Some(*c),
                        None => None,
                    }
                },
                ColorMap::Color(cl) => Some(*cl),
            }
        }
    }
}

impl Default for ComplexColor {
    /// One covered cell, black, over a black default.
    fn default() -> (r: ComplexColor)
        ensures
            r.wf(),
            r.spec_size() == (UPoint { x: 1, y: 1 }),
            r.coverage() == seq![1u8],
            r.spec_default_color() == BLACK,
            r.spec_color_map() == ColorMap::Color(BLACK),
    {
        let pattern: Vec<u8> = vec![1];
        assert(pattern@ =~= seq![1u8]);
        let r = ComplexColor {
            size: UPoint { x: 1, y: 1 },
            pattern,
            default_color: BLACK,
            color_map: ColorMap::Color(BLACK),
        };
        assert(r.spec_size().x == 1);
        assert(r.coverage().len() == 1);
        assert(r.coverage().len() == r.spec_size().x * r.spec_size().y);
        r
    }
}

/// A pattern gives no color at any coordinate outside its box.
pub proof fn no_color_outside_box(p: ComplexColor, c: UPoint)
    requires
        !spec_coord_in_size(c, p.spec_size()),
    ensures
        p.color_spec(c).is_none(),
{
}

/// A source of color for each cell of a brush footprint: cell `(x, y)` of a
/// footprint of size `size`. `None` leaves the canvas pixel as it is.
pub trait PatternFunction {
    spec fn color_spec(&self, x: u32, y: u32, size: UPoint) -> Option<[u8; 4]>;

    fn color_at(&self, x: u32, y: u32, size: &UPoint) -> (r: Option<[u8; 4]>)
        ensures
            r == self.color_spec(x, y, *size),
    ;
}

/// The same color at every cell.
#[derive(Clone, Copy, Debug)]
pub struct SolidColor {
    pub color: [u8; 4],
}

impl PatternFunction for SolidColor {
    open spec fn color_spec(&self, x: u32, y: u32, size: UPoint) -> Option<[u8; 4]> {
        Some(self.color)
    }

    fn color_at(&self, x: u32, y: u32, size: &UPoint) -> (r: Option<[u8; 4]>) {
        Some(self.color)
    }
}

impl PatternFunction for ComplexColor {
    open spec fn color_spec(&self, x: u32, y: u32, size: UPoint) -> Option<[u8; 4]> {
        ComplexColor::color_spec(self, UPoint { x, y })
    }

    fn color_at(&self, x: u32, y: u32, size: &UPoint) -> (r: Option<[u8; 4]>) {
        self.get_color_at(UPoint { x, y })
    }
}

/// A pattern function with a display name.
pub struct PatternGeneratingFunc<P> {
    pub name: String,
    pub fun: P,
}

impl<P: PatternFunction> PatternGeneratingFunc<P> {
    /// Wraps `f` under `name`, or, where there is none, under a name numbered by `counter`.
    pub fn new(name: Option<String>, f: P, counter: &mut NameCounter) -> (r: Self)
        requires
            old(counter).next < u32::MAX,
        ensures
            final(counter).next == old(counter).next + 1,
            r.fun == f,
            r.name@ == (match name {
                Some(n) => n@,
                None => "UnnamedPatternGeneratingFunc"@ + decimal(old(counter).next as nat),
            }),
    {
        let name = counter.name_or_numbered(name, "UnnamedPatternGeneratingFunc");
        PatternGeneratingFunc { name, fun: f }
    }
}

impl<P: PatternFunction> PatternFunction for PatternGeneratingFunc<P> {
    open spec fn color_spec(&self, x: u32, y: u32, size: UPoint) -> Option<[u8; 4]> {
        self.fun.color_spec(x, y, size)
    }

    fn color_at(&self, x: u32, y: u32, size: &UPoint) -> (r: Option<[u8; 4]>) {
        self.fun.color_at(x, y, size)
    }
}

} // verus!
