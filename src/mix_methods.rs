//! Blend laws that combine an existing pixel with an incoming one, channel by channel.
use vstd::prelude::*;

verus! {

/// The denominator of the fixed-point interpolation ratio of `MixMethod::RatioAdd`:
/// a stored ratio `n` stands for `n / RATIO_ONE`.
pub const RATIO_ONE: i64 = 65536;

/// How an incoming pixel `b` is combined with the existing pixel `a`.
///
/// Multiplicative laws are computed in exact rational arithmetic and truncated
/// toward zero. `Screen`, `Addition` and `Substraction` read the first channel of
/// both pixels for every output channel: this is the established behaviour of the
/// engine, kept for byte-for-byte compatibility of painted images.
#[derive(Clone, Copy, Debug, PartialEq, Eq, Structural)]
pub enum MixMethod {
    Normal,
    Average,
    Multiply,
    Lighten,
    Darken,
    Screen,
    Addition,
    Substraction,
    /// Linear interpolation from `a` (ratio 0) to `b` (ratio `RATIO_ONE`), rounded
    /// half away from zero and saturated to a byte; ratios outside that range extrapolate.
    RatioAdd(i32),
}

impl Default for MixMethod {
    fn default() -> (r: MixMethod)
        ensures
            r == MixMethod::Normal,
    {
        MixMethod::Normal
    }
}

/// `255 * (1 - (1 - a/255) * (1 - b/255))`, truncated toward zero.
pub open spec fn screen_value(a: u8, b: u8) -> u8 {
    (255 - ((255 - a) * (255 - b) + 254) / 255) as u8
}

/// `a + b`, saturated at 255.
pub open spec fn addition_value(a: u8, b: u8) -> u8 {
    if a + b > 255 { 255u8 } else { (a + b) as u8 }
}

/// `a - b`, saturated at 0.
pub open spec fn subtraction_value(a: u8, b: u8) -> u8 {
    if a < b { 0u8 } else { (a - b) as u8 }
}

/// `a * b / 255`, truncated toward zero.
pub open spec fn multiply_value(a: u8, b: u8) -> u8 {
    ((a * b) / 255) as u8
}

/// `round(a * (1 - r) + b * r)` with `r = ratio / RATIO_ONE`, rounded half away
/// from zero and then saturated to `[0, 255]`.
pub open spec fn ratio_value(a: u8, b: u8, ratio: i32) -> u8 {
    let one = RATIO_ONE as int;
    let v = a * (one - ratio) + b * ratio;
    if v < 0 {
        0u8
    } else if (v + one / 2) / one > 255 {
        255u8
    } else {
        ((v + one / 2) / one) as u8
    }
}

/// Channel `i` of the blend of existing pixel `a` with incoming pixel `b`.
pub open spec fn mix_channel(law: MixMethod, a: Seq<u8>, b: Seq<u8>, i: int) -> u8 {
    match law {
        MixMethod::Normal => b[i],
        MixMethod::Average => (a[i] / 2 + b[i] / 2) as u8,
        MixMethod::Multiply => multiply_value(a[i], b[i]),
        MixMethod::Lighten => if a[i] >= b[i] { a[i] } else { b[i] },
        MixMethod::Darken => if a[i] <= b[i] { a[i] } else { b[i] },
        MixMethod::Screen => screen_value(a[0], b[0]),
        MixMethod::Addition => addition_value(a[0], b[0]),
        MixMethod::Substraction => subtraction_value(a[0], b[0]),
        MixMethod::RatioAdd(ratio) => ratio_value(a[i], b[i], ratio),
    }
}

/// The blend of existing pixel `a` with incoming pixel `b`, one channel per index of `a`.
pub open spec fn mix_spec(law: MixMethod, a: Seq<u8>, b: Seq<u8>) -> Seq<u8> {
    Seq::new(a.len(), |i: int| mix_channel(law, a, b, i))
}

impl MixMethod {
    fn mix_one<const N: usize>(&self, a: &[u8; N], b: &[u8; N], i: usize) -> (r: u8)
        requires
            0 < N,
            i < N,
        ensures
            r == mix_channel(*self, a@, b@, i as int),
    {
        match self {
            MixMethod::Normal => b[i],
            MixMethod::Average => a[i] / 2 + b[i] / 2,
            MixMethod::Multiply => {
                let x: u32 = a[i] as u32;
                let y: u32 = b[i] as u32;
                assert(x * y <= 255 * 255) by (nonlinear_arith)
                    requires
                        x <= 255,
                        y <= 255,
                ;
                let p: u32 = x * y;
                (p / 255) as u8
            },
            MixMethod::Lighten => if a[i] >= b[i] { a[i] } else { b[i] },
            MixMethod::Darken => if a[i] <= b[i] { a[i] } else { b[i] },
            MixMethod::Screen => {
                let x: u32 = (255 - a[0]) as u32;
                let y: u32 = (255 - b[0]) as u32;
                assert(x * y <= 255 * 255) by (nonlinear_arith)
                    requires
                        x <= 255,
                        y <= 255,
                ;
                let q: u32 = x * y;
                (255 - (q + 254) / 255) as u8
            },
            MixMethod::Addition => {
                let s: u16 = a[0] as u16 + b[0] as u16;
                if s > 255 { 255 } else { s as u8 }
            },
            MixMethod::Substraction => if a[0] < b[0] { 0 } else { a[0] - b[0] },
            MixMethod::RatioAdd(ratio) => {
                let r: i64 = *ratio as i64;
                let x: i64 = a[i] as i64;
                let y: i64 = b[i] as i64;
                let w: i64 = RATIO_ONE - r;
                assert(-0x10000_0000_0000 <= x * w <= 0x10000_0000_0000
                    && -0x10000_0000_0000 <= y * r <= 0x10000_0000_0000) by (nonlinear_arith)
                    requires
                        0 <= x <= 255,
                        0 <= y <= 255,
                        -0x1_0000_0000 <= w <= 0x1_0000_0000,
                        -0x1_0000_0000 <= r <= 0x1_0000_0000,
                ;
                let v: i64 = x * w + y * r;
                if v < 0 {
                    0
                } else {
                    let q: i64 = (v + RATIO_ONE / 2) / RATIO_ONE;
                    if q > 255 { 255 } else { q as u8 }
                }
            },
        }
    }

    fn mix_all<const N: usize>(&self, a: &[u8; N], b: &[u8; N]) -> (r: [u8; N])
        requires
            0 < N,
        ensures
            r@ == mix_spec(*self, a@, b@),
    {
        let mut ret = [0u8; N];
        let mut i: usize = 0;
        while i < N
            invariant
                0 < N,
                i <= N,
                ret@.len() == N,
                forall|k: int| 0 <= k < i ==> ret@[k] == mix_channel(*self, a@, b@, k),
            decreases N - i,
        {
            ret[i] = self.mix_one(a, b, i);
            i = i + 1;
        }
        assert(ret@ =~= mix_spec(*self, a@, b@));
        ret
    }

    /// Blends the incoming RGBA pixel `b` onto the existing RGBA pixel `a`.
    pub fn perform_operation_4(&self, a: &[u8; 4], b: &[u8; 4]) -> (r: [u8; 4])
        ensures
            r@ == mix_spec(*self, a@, b@),
    {
        self.mix_all(a, b)
    }

    /// Blends the incoming RGB pixel `b` onto the existing RGB pixel `a`.
    pub fn perform_operation_3(&self, a: &[u8; 3], b: &[u8; 3]) -> (r: [u8; 3])
        ensures
            r@ == mix_spec(*self, a@, b@),
    {
        self.mix_all(a, b)
    }
}

/// Under `Normal` the incoming pixel replaces the existing one.
pub proof fn normal_takes_incoming(a: Seq<u8>, b: Seq<u8>)
    requires
        a.len() == b.len(),
    ensures
        mix_spec(MixMethod::Normal, a, b) == b,
{
    assert(mix_spec(MixMethod::Normal, a, b) =~= b);
}

/// Under `Average` every channel is the sum of the two halves, each rounded down.
pub proof fn average_halves_each_channel(a: Seq<u8>, b: Seq<u8>)
    requires
        a.len() == b.len(),
    ensures
        mix_spec(MixMethod::Average, a, b).len() == a.len(),
        forall|i: int|
            0 <= i < a.len() ==> #[trigger] mix_spec(MixMethod::Average, a, b)[i] as int == a[i]
                / 2 + b[i] / 2,
{
}

/// Under `Lighten` every channel is the larger of the two, under `Darken` the smaller.
pub proof fn lighten_darken_pick_extremes(a: Seq<u8>, b: Seq<u8>)
    requires
        a.len() == b.len(),
    ensures
        mix_spec(MixMethod::Lighten, a, b).len() == a.len(),
        mix_spec(MixMethod::Darken, a, b).len() == a.len(),
        forall|i: int|
            0 <= i < a.len() ==> {
                &&& #[trigger] mix_spec(MixMethod::Lighten, a, b)[i] >= a[i]
                &&& mix_spec(MixMethod::Lighten, a, b)[i] >= b[i]
                &&& (mix_spec(MixMethod::Lighten, a, b)[i] == a[i] || mix_spec(
                    MixMethod::Lighten,
                    a,
                    b,
                )[i] == b[i])
            },
        forall|i: int|
            0 <= i < a.len() ==> {
                &&& #[trigger] mix_spec(MixMethod::Darken, a, b)[i] <= a[i]
                &&& mix_spec(MixMethod::Darken, a, b)[i] <= b[i]
                &&& (mix_spec(MixMethod::Darken, a, b)[i] == a[i] || mix_spec(
                    MixMethod::Darken,
                    a,
                    b,
                )[i] == b[i])
            },
{
}

/// Interpolating with ratio 0 gives back the existing pixel, with ratio
/// `RATIO_ONE` the incoming one.
pub proof fn ratio_add_endpoints(a: Seq<u8>, b: Seq<u8>)
    requires
        a.len() == b.len(),
    ensures
        mix_spec(MixMethod::RatioAdd(0), a, b) == a,
        mix_spec(MixMethod::RatioAdd(RATIO_ONE as i32), a, b) == b,
{
    assert forall|i: int| 0 <= i < a.len() implies ratio_value(a[i], b[i], 0) == a[i] by {
        let x = a[i] as int;
        assert(x * 65536 + b[i] * 0 == x * 65536);
        assert((x * 65536 + 32768) / 65536 == x) by (nonlinear_arith)
            requires
                0 <= x <= 255,
        ;
    }
    assert forall|i: int| 0 <= i < a.len() implies ratio_value(a[i], b[i], 65536) == b[i] by {
        let y = b[i] as int;
        assert(a[i] * 0 + y * 65536 == y * 65536);
        assert((y * 65536 + 32768) / 65536 == y) by (nonlinear_arith)
            requires
                0 <= y <= 255,
        ;
    }
    assert(mix_spec(MixMethod::RatioAdd(0), a, b) =~= a);
    assert(mix_spec(MixMethod::RatioAdd(RATIO_ONE as i32), a, b) =~= b);
}

} // verus!
