//! Disk-shaped footprints: grids whose cells inside a quantized radius hold a
//! generated value and whose other cells hold a fill value.
use vstd::prelude::*;

verus! {

/// The denominator of a fixed-point radius: `DiskRadius { fixed }` stands for
/// `fixed / RADIUS_ONE` pixels.
pub const RADIUS_ONE: u32 = 65536;

/// A disk radius in pixels, in fixed point with `RADIUS_ONE` steps per pixel.
#[derive(Clone, Copy, Debug, PartialEq, Eq, Structural)]
pub struct DiskRadius {
    pub fixed: u32,
}

impl DiskRadius {
    /// A radius of a whole number of pixels.
    pub fn from_pixels(px: u16) -> (r: DiskRadius)
        ensures
            r.fixed == px * RADIUS_ONE,
    {
        DiskRadius { fixed: px as u32 * RADIUS_ONE }
    }
}

/// The radius is within `1e-5` of one pixel.
pub open spec fn is_unit(r: DiskRadius) -> bool {
    let d = r.fixed - RADIUS_ONE;
    (if d < 0 { -d } else { d }) * 100000 < RADIUS_ONE
}

/// The radius is within `1e-5` of zero.
pub open spec fn is_zero(r: DiskRadius) -> bool {
    r.fixed * 100000 < RADIUS_ONE
}

/// The side of a quarter grid: the radius rounded up to whole pixels.
pub open spec fn disk_width(r: DiskRadius) -> nat {
    ((r.fixed + RADIUS_ONE - 1) / RADIUS_ONE as int) as nat
}

/// `k` is the radius divided by the square root of two, rounded down:
/// `k * sqrt(2) <= radius < (k + 1) * sqrt(2)`.
pub open spec fn quantized(r: DiskRadius, k: nat) -> bool {
    let f = r.fixed as int;
    let o = RADIUS_ONE as int;
    2 * (k * k) * (o * o) <= f * f < 2 * ((k + 1) * (k + 1)) * (o * o)
}

/// The radius divided by the square root of two, rounded down.
pub open spec fn disk_steps(r: DiskRadius) -> nat {
    choose|k: nat| quantized(r, k)
}

/// The cell at offset `(dx, dy)` from the center lies strictly inside the disk of
/// the quantized radius `disk_steps(r) * sqrt(2)`.
pub open spec fn in_disk(r: DiskRadius, dx: int, dy: int) -> bool {
    dx * dx + dy * dy < 2 * (disk_steps(r) * disk_steps(r))
}

/// Cell `(i, j)` of a row-major grid of side `w`.
pub open spec fn grid_cell<T>(g: Seq<T>, w: int, i: int, j: int) -> T {
    g[i * w + j]
}

/// Cell `(i, j)` of a quarter grid of side `w`: generated inside the disk, the
/// fill value outside.
pub open spec fn quarter_cell_ok<T, F: Fn(usize, usize) -> T>(
    r: DiskRadius,
    fill: T,
    f: F,
    g: Seq<T>,
    w: int,
    i: int,
    j: int,
) -> bool {
    if in_disk(r, i, j) {
        f.ensures((i as usize, j as usize), grid_cell(g, w, i, j))
    } else {
        grid_cell(g, w, i, j) == fill
    }
}

/// `g` is the quarter disk of radius `r`, listed row by row.
pub open spec fn quarter_disk<T, F: Fn(usize, usize) -> T>(
    r: DiskRadius,
    fill: T,
    f: F,
    g: Seq<T>,
) -> bool {
    if is_unit(r) {
        g.len() == 1 && f.ensures((0usize, 0usize), g[0])
    } else if is_zero(r) {
        g.len() == 0
    } else {
        let w = disk_width(r) as int;
        &&& g.len() == w * w
        &&& forall|i: int, j: int|
            0 <= i < w && 0 <= j < w ==> #[trigger] quarter_cell_ok(r, fill, f, g, w, i, j)
    }
}

/// `g` is the full disk of radius `r`: a square of side twice `disk_width(r)`,
/// each cell generated from its signed offset to the center where that offset
/// lies in the disk, and the fill value elsewhere.
pub open spec fn full_disk<T, F: Fn(isize, isize) -> T>(
    r: DiskRadius,
    fill: T,
    f: F,
    g: Seq<Vec<T>>,
) -> bool {
    if is_unit(r) {
        g.len() == 1 && g[0]@.len() == 1 && f.ensures((0isize, 0isize), g[0]@[0])
    } else if is_zero(r) {
        g.len() == 0
    } else {
        let w = disk_width(r) as int;
        &&& g.len() == 2 * w
        &&& forall|i: int| 0 <= i < 2 * w ==> (#[trigger] g[i])@.len() == 2 * w
        &&& forall|i: int, j: int|
            0 <= i < 2 * w && 0 <= j < 2 * w ==> if in_disk(r, i - w, j - w) {
                f.ensures(((i - w) as isize, (j - w) as isize), #[trigger] g[i]@[j])
            } else {
                g[i]@[j] == fill
            }
    }
}

proof fn quantized_unique(r: DiskRadius, k1: nat, k2: nat)
    requires
        quantized(r, k1),
        quantized(r, k2),
    ensures
        k1 == k2,
{
    let o2 = (RADIUS_ONE as int) * (RADIUS_ONE as int);
    if k1 < k2 {
        assert((k1 + 1) * (k1 + 1) <= k2 * k2) by (nonlinear_arith)
            requires
                k1 < k2,
        ;
        assert(2 * ((k1 + 1) * (k1 + 1)) * o2 <= 2 * (k2 * k2) * o2) by (nonlinear_arith)
            requires
                (k1 + 1) * (k1 + 1) <= k2 * k2,
                o2 >= 0,
        ;
    } else if k2 < k1 {
        assert((k2 + 1) * (k2 + 1) <= k1 * k1) by (nonlinear_arith)
            requires
                k2 < k1,
        ;
        assert(2 * ((k2 + 1) * (k2 + 1)) * o2 <= 2 * (k1 * k1) * o2) by (nonlinear_arith)
            requires
                (k2 + 1) * (k2 + 1) <= k1 * k1,
                o2 >= 0,
        ;
    }
}

/// The quantized radius is the one `k` with `k * sqrt(2) <= radius < (k + 1) * sqrt(2)`.
pub proof fn disk_steps_is(r: DiskRadius, k: nat)
    requires
        quantized(r, k),
    ensures
        disk_steps(r) == k,
{
    quantized_unique(r, k, disk_steps(r));
}

fn unit_radius(r: DiskRadius) -> (b: bool)
    ensures
        b == is_unit(r),
{
    let d: u64 = if r.fixed >= RADIUS_ONE {
        (r.fixed - RADIUS_ONE) as u64
    } else {
        (RADIUS_ONE - r.fixed) as u64
    };
    d * 100000 < RADIUS_ONE as u64
}

fn zero_radius(r: DiskRadius) -> (b: bool)
    ensures
        b == is_zero(r),
{
    (r.fixed as u64) * 100000 < RADIUS_ONE as u64
}

fn width_of(r: DiskRadius) -> (w: u32)
    ensures
        w == disk_width(r),
        w <= 65536,
{
    ((r.fixed as u64 + RADIUS_ONE as u64 - 1) / RADIUS_ONE as u64) as u32
}

/// `k + 1` steps still fit in a radius whose fixed-point square is `f2`.
fn next_step_fits(k: u128, f2: u128) -> (b: bool)
    requires
        k < 0x10000,
    ensures
        b == (2 * ((k + 1) * (k + 1)) * 0x1_0000_0000 <= f2),
{
    let n: u128 = k + 1;
    assert(n * n <= 0x1_0000_0000) by (nonlinear_arith)
        requires
            n <= 0x10000,
    ;
    let sq: u128 = n * n;
    2 * sq * 0x1_0000_0000 <= f2
}

/// The quantized radius `disk_steps(r)`, found by counting up.
fn steps_of(r: DiskRadius) -> (k: u64)
    ensures
        k == disk_steps(r),
        k < 0x10000,
{
    let f: u128 = r.fixed as u128;
    assert(f * f < 0x1_0000_0000_0000_0000) by (nonlinear_arith)
        requires
            f < 0x1_0000_0000,
    ;
    let f2: u128 = f * f;
    let mut k: u128 = 0;
    while next_step_fits(k, f2)
        invariant
            f2 == f * f,
            f < 0x1_0000_0000,
            k < 0x10000,
            2 * (k * k) * 0x1_0000_0000 <= f2,
        decreases f2 - 2 * (k * k) * 0x1_0000_0000,
    {
        assert(k + 1 < 0x10000) by (nonlinear_arith)
            requires
                2 * ((k + 1) * (k + 1)) * 0x1_0000_0000 <= f * f,
                f < 0x1_0000_0000,
        ;
        assert(k * k < (k + 1) * (k + 1)) by (nonlinear_arith);
        k = k + 1;
    }
    proof {
        disk_steps_is(r, k as nat);
    }
    k as u64
}

proof fn cell_index_bounds(i: int, j: int, w: int)
    requires
        0 <= i < w,
        0 <= j < w,
    ensures
        0 <= i * w + j < w * w,
        i * w + j + 1 <= (i + 1) * w,
{
    assert(0 <= i * w + j < w * w) by (nonlinear_arith)
        requires
            0 <= i < w,
            0 <= j < w,
    ;
    assert(i * w + j + 1 <= (i + 1) * w) by (nonlinear_arith)
        requires
            0 <= j < w,
    ;
}

proof fn cell_index_distinct(i: int, j: int, i2: int, j2: int, w: int)
    requires
        0 <= i < w,
        0 <= j < w,
        0 <= i2 < w,
        0 <= j2 < w,
        i != i2 || j != j2,
    ensures
        i * w + j != i2 * w + j2,
{
    if i < i2 {
        assert(i * w + j < i2 * w + j2) by (nonlinear_arith)
            requires
                i < i2,
                0 <= j < w,
                0 <= j2,
        ;
    } else if i2 < i {
        assert(i2 * w + j2 < i * w + j) by (nonlinear_arith)
            requires
                i2 < i,
                0 <= j2 < w,
                0 <= j,
        ;
    }
}

/// One quarter of a disk of radius `radius`, as a `w` by `w` grid listed row by
/// row, `w` the radius rounded up: cell `(i, j)` is `f(i, j)` inside the disk and
/// `defau` outside. A radius near one pixel gives the single cell `f(0, 0)`; a
/// radius near zero gives no cell.
pub fn quartar_cake_generate<T: Copy, F: Fn(usize, usize) -> T>(
    radius: DiskRadius,
    defau: T,
    f: F,
) -> (r: Vec<T>)
    requires
        forall|i: usize, j: usize| f.requires((i, j)),
        disk_width(radius) * disk_width(radius) <= usize::MAX,
    ensures
        quarter_disk(radius, defau, f, r@),
        is_unit(radius) ==> r@.len() == 1 && f.ensures((0usize, 0usize), r@[0]),
        !is_unit(radius) && is_zero(radius) ==> r@.len() == 0,
{
    if unit_radius(radius) {
        let v = f(0, 0);
        let mut one: Vec<T> = Vec::new();
        one.push(v);
        return one;
    }
    if zero_radius(radius) {
        return Vec::new();
    }
    let k = steps_of(radius);
    assert(k * k < 0x1_0000_0000) by (nonlinear_arith)
        requires
            k < 0x10000,
    ;
    let two_k2: u64 = 2 * (k * k);
    let w = width_of(radius) as usize;
    let ghost wi = w as int;
    let mut ret: Vec<T> = Vec::new();
    let mut n: usize = 0;
    while n < w * w
        invariant
            w * w <= usize::MAX,
            n <= w * w,
            ret@.len() == n,
            forall|m: int| 0 <= m < n ==> ret@[m] == defau,
        decreases w * w - n,
    {
        ret.push(defau);
        n = n + 1;
    }
    proof {
        assert forall|ii: int, jj: int| 0 <= ii < w && 0 <= jj < w implies #[trigger] grid_cell(
            ret@,
            wi,
            ii,
            jj,
        ) == defau by {
            cell_index_bounds(ii, jj, wi);
        }
    }
    let mut i: usize = 0;
    while i < w
        invariant
            wi == w,
            w == disk_width(radius),
            w * w <= usize::MAX,
            k == disk_steps(radius),
            two_k2 == 2 * (k * k),
            !is_unit(radius),
            !is_zero(radius),
            i <= w,
            ret@.len() == w * w,
            forall|ii: int, jj: int|
                0 <= ii < i && 0 <= jj < w ==> #[trigger] quarter_cell_ok(
                    radius,
                    defau,
                    f,
                    ret@,
                    wi,
                    ii,
                    jj,
                ),
            forall|ii: int, jj: int|
                i <= ii < w && 0 <= jj < w ==> #[trigger] grid_cell(ret@, wi, ii, jj) == defau,
            forall|a: usize, b: usize| f.requires((a, b)),
        decreases w - i,
    {
        let mut j: usize = 0;
        while j < w
            invariant_except_break
                j <= w,
            invariant
                wi == w,
                w == disk_width(radius),
                w * w <= usize::MAX,
                k == disk_steps(radius),
                two_k2 == 2 * (k * k),
                i < w,
                ret@.len() == w * w,
                forall|ii: int, jj: int|
                    0 <= ii < i && 0 <= jj < w ==> #[trigger] quarter_cell_ok(
                        radius,
                        defau,
                        f,
                        ret@,
                        wi,
                        ii,
                        jj,
                    ),
                forall|jj: int|
                    0 <= jj < j ==> #[trigger] quarter_cell_ok(
                        radius,
                        defau,
                        f,
                        ret@,
                        wi,
                        i as int,
                        jj,
                    ),
                forall|ii: int, jj: int|
                    i < ii < w && 0 <= jj < w ==> #[trigger] grid_cell(ret@, wi, ii, jj) == defau,
                forall|jj: int| j <= jj < w ==> #[trigger] grid_cell(ret@, wi, i as int, jj) == defau,
                forall|a: usize, b: usize| f.requires((a, b)),
            ensures
                ret@.len() == w * w,
                forall|ii: int, jj: int|
                    0 <= ii <= i && 0 <= jj < w ==> #[trigger] quarter_cell_ok(
                        radius,
                        defau,
                        f,
                        ret@,
                        wi,
                        ii,
                        jj,
                    ),
                forall|ii: int, jj: int|
                    i < ii < w && 0 <= jj < w ==> #[trigger] grid_cell(ret@, wi, ii, jj) == defau,
            decreases w - j,
        {
            assert(i * i <= 0x1_0000_0000 && j * j <= 0x1_0000_0000) by (nonlinear_arith)
                requires
                    i < w,
                    j < w,
                    w <= 0x10000,
            ;
            let d2: u64 = (i as u64) * (i as u64) + (j as u64) * (j as u64);
            if d2 < two_k2 {
                let v = f(i, j);
                proof {
                    cell_index_bounds(i as int, j as int, wi);
                }
                let ghost before = ret@;
                ret.set(i * w + j, v);
                proof {
                    assert forall|ii: int, jj: int|
                        0 <= ii < w && 0 <= jj < w && (ii != i || jj != j) implies #[trigger] grid_cell(
                        ret@,
                        wi,
                        ii,
                        jj,
                    ) == grid_cell(before, wi, ii, jj) by {
                        cell_index_distinct(ii, jj, i as int, j as int, wi);
                        cell_index_bounds(ii, jj, wi);
                    }
                    assert(grid_cell(ret@, wi, i as int, j as int) == v);
                    assert forall|ii: int, jj: int|
                        0 <= ii < i && 0 <= jj < w implies #[trigger] quarter_cell_ok(
                        radius,
                        defau,
                        f,
                        ret@,
                        wi,
                        ii,
                        jj,
                    ) by {
                        assert(quarter_cell_ok(radius, defau, f, before, wi, ii, jj));
                        assert(grid_cell(ret@, wi, ii, jj) == grid_cell(before, wi, ii, jj));
                    }
                    assert forall|jj: int| 0 <= jj < j + 1 implies #[trigger] quarter_cell_ok(
                        radius,
                        defau,
                        f,
                        ret@,
                        wi,
                        i as int,
                        jj,
                    ) by {
                        if jj < j {
                            assert(quarter_cell_ok(radius, defau, f, before, wi, i as int, jj));
                            assert(grid_cell(ret@, wi, i as int, jj) == grid_cell(
                                before,
                                wi,
                                i as int,
                                jj,
                            ));
                        }
                    }
                    assert forall|ii: int, jj: int|
                        i < ii < w && 0 <= jj < w implies #[trigger] grid_cell(ret@, wi, ii, jj)
                        == defau by {
                        assert(grid_cell(ret@, wi, ii, jj) == grid_cell(before, wi, ii, jj));
                    }
                    assert forall|jj: int| j + 1 <= jj < w implies #[trigger] grid_cell(
                        ret@,
                        wi,
                        i as int,
                        jj,
                    ) == defau by {
                        assert(grid_cell(ret@, wi, i as int, jj) == grid_cell(
                            before,
                            wi,
                            i as int,
                            jj,
                        ));
                    }
                }
            } else {
                proof {
                    assert forall|jj: int| 0 <= jj < w implies #[trigger] quarter_cell_ok(
                        radius,
                        defau,
                        f,
                        ret@,
                        wi,
                        i as int,
                        jj,
                    ) by {
                        if jj >= j {
                            assert(i * i + jj * jj >= i * i + j * j) by (nonlinear_arith)
                                requires
                                    jj >= j,
                                    j >= 0,
                            ;
                            assert(grid_cell(ret@, wi, i as int, jj) == defau);
                        }
                    }
                }
                break;
            }
            j = j + 1;
        }
        i = i + 1;
    }
    ret
}

/// The signed offset of cell `(i, j)` from the center `(w, w)`.
fn sub_helper(i: usize, j: usize, w: usize) -> (r: (isize, isize))
    requires
        i <= 0x20000,
        j <= 0x20000,
        w <= 0x20000,
    ensures
        r.0 == i - w,
        r.1 == j - w,
{
    let i = i as isize;
    let j = j as isize;
    let w = w as isize;
    (i - w, j - w)
}

/// A full disk of radius `radius` as a square grid of side `2 * w`, `w` the
/// radius rounded up, centered at `(w, w)`: cell `(i, j)` is `f(i - w, j - w)`
/// inside the disk and `defau` outside. A radius near one pixel gives the single
/// cell `f(0, 0)`; a radius near zero gives no cell.
pub fn cake_generate<T: Copy, F: Fn(isize, isize) -> T>(radius: DiskRadius, defau: T, f: F) -> (r:
    Vec<Vec<T>>)
    requires
        forall|i: isize, j: isize| f.requires((i, j)),
    ensures
        full_disk(radius, defau, f, r@),
{
    if unit_radius(radius) {
        let v = f(0, 0);
        let mut row: Vec<T> = Vec::new();
        row.push(v);
        let mut one: Vec<Vec<T>> = Vec::new();
        one.push(row);
        return one;
    }
    if zero_radius(radius) {
        return Vec::new();
    }
    let k = steps_of(radius);
    assert(k * k < 0x1_0000_0000) by (nonlinear_arith)
        requires
            k < 0x10000,
    ;
    let two_k2: u64 = 2 * (k * k);
    let w = width_of(radius) as usize;
    let side = 2 * w;
    let ghost wi = w as int;
    let mut ret: Vec<Vec<T>> = Vec::new();
    let mut i: usize = 0;
    while i < side
        invariant
            wi == w,
            w == disk_width(radius),
            side == 2 * w,
            k == disk_steps(radius),
            two_k2 == 2 * (k * k),
            i <= side,
            ret@.len() == i,
            forall|ii: int| 0 <= ii < i ==> (#[trigger] ret@[ii])@.len() == 2 * wi,
            forall|ii: int, jj: int|
                0 <= ii < i && 0 <= jj < 2 * wi ==> if in_disk(radius, ii - wi, jj - wi) {
                    f.ensures(((ii - wi) as isize, (jj - wi) as isize), #[trigger] ret@[ii]@[jj])
                } else {
                    ret@[ii]@[jj] == defau
                },
            forall|a: isize, b: isize| f.requires((a, b)),
        decreases side - i,
    {
        let mut row: Vec<T> = Vec::new();
        let mut j: usize = 0;
        while j < side
            invariant
                wi == w,
                w == disk_width(radius),
                side == 2 * w,
                k == disk_steps(radius),
                two_k2 == 2 * (k * k),
                i < side,
                j <= side,
                row@.len() == j,
                forall|jj: int|
                    0 <= jj < j ==> if in_disk(radius, i - wi, jj - wi) {
                        f.ensures(((i - wi) as isize, (jj - wi) as isize), #[trigger] row@[jj])
                    } else {
                        row@[jj] == defau
                    },
                forall|a: isize, b: isize| f.requires((a, b)),
            decreases side - j,
        {
            let (cx, cy) = sub_helper(i, j, w);
            let ax: i64 = cx as i64;
            let ay: i64 = cy as i64;
            assert(0 <= ax * ax <= 0x1_0000_0000 && 0 <= ay * ay <= 0x1_0000_0000) by (nonlinear_arith)
                requires
                    -0x10000 <= ax <= 0x10000,
                    -0x10000 <= ay <= 0x10000,
            ;
            let d2: u64 = (ax * ax) as u64 + (ay * ay) as u64;
            if d2 < two_k2 {
                row.push(f(cx, cy));
            } else {
                row.push(defau);
            }
            j = j + 1;
        }
        ret.push(row);
        i = i + 1;
    }
    ret
}

/// `quartar_cake_generate` with the fill value `T::default()`.
pub fn quartar_cake_generate_use_default<T: Default + Copy, F: Fn(usize, usize) -> T>(
    radius: DiskRadius,
    f: F,
) -> (r: Vec<T>)
    requires
        forall|i: usize, j: usize| f.requires((i, j)),
        disk_width(radius) * disk_width(radius) <= usize::MAX,
    ensures
        exists|d: T| call_ensures(T::default, (), d) && quarter_disk(radius, d, f, r@),
{
    let d = T::default();
    quartar_cake_generate(radius, d, f)
}

} // verus!
