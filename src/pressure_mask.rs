//! Opacity masks: a named function from a footprint cell to an opacity.
use vstd::prelude::*;
use crate::geometry::UPoint;
use crate::naming::{decimal, NameCounter};

verus! {

/// The fixed-point opacity of a fully opaque mask cell: an opacity `m` stands for
/// `m / OPACITY_ONE`. Values above it are allowed and saturate when applied.
pub const OPACITY_ONE: u32 = 65536;

/// An opacity for each cell of a brush footprint: cell `(x, y)` of a footprint of
/// size `size`, in units of `1 / OPACITY_ONE`.
pub trait MaskFunction {
    spec fn opacity_spec(&self, x: u32, y: u32, size: UPoint) -> u32;

    fn opacity(&self, x: u32, y: u32, size: &UPoint) -> (r: u32)
        ensures
            r == self.opacity_spec(x, y, *size),
    ;
}

/// The same opacity at every cell; `UniformMask { opacity: OPACITY_ONE }` overwrites.
#[derive(Clone, Copy, Debug, PartialEq, Eq, Structural)]
pub struct UniformMask {
    pub opacity: u32,
}

impl MaskFunction for UniformMask {
    open spec fn opacity_spec(&self, x: u32, y: u32, size: UPoint) -> u32 {
        self.opacity
    }

    fn opacity(&self, x: u32, y: u32, size: &UPoint) -> (r: u32) {
        self.opacity
    }
}

/// A mask function with a display name.
pub struct MaskGeneratingFunc<M> {
    pub name: String,
    pub fun: M,
}

impl<M: MaskFunction> MaskGeneratingFunc<M> {
    /// Wraps `f` under `name`, or, where there is none, under a name numbered by `counter`.
    pub fn new(name: Option<String>, f: M, counter: &mut NameCounter) -> (r: Self)
        requires
            old(counter).next < u32::MAX,
        ensures
            final(counter).next == old(counter).next + 1,
            r.fun == f,
            r.name@ == (match name {
                Some(n) => n@,
                None => "UnnamedMaskGeneratingFunc"@ + decimal(old(counter).next as nat),
            }),
    {
        let name = counter.name_or_numbered(name, "UnnamedMaskGeneratingFunc");
        MaskGeneratingFunc { name, fun: f }
    }
}

impl<M: MaskFunction> MaskFunction for MaskGeneratingFunc<M> {
    open spec fn opacity_spec(&self, x: u32, y: u32, size: UPoint) -> u32 {
        self.fun.opacity_spec(x, y, size)
    }

    fn opacity(&self, x: u32, y: u32, size: &UPoint) -> (r: u32) {
        self.fun.opacity(x, y, size)
    }
}

} // verus!
