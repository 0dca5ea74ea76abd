//! Piecewise-linear interpolation over sorted breakpoints, in one and two
//! dimensions. Values outside the breakpoints take the value at the nearest
//! end; inside, the exact linear value is rounded toward negative infinity.

use vstd::prelude::*;
use vstd::arithmetic::div_mod::{lemma_div_is_ordered, lemma_div_multiples_vanish};
use crate::arith::{div_floor, wide_product};

verus! {

/// No breakpoint is smaller than one before it.
pub open spec fn ascending(xs: Seq<i32>) -> bool {
    forall|i: int, j: int| 0 <= i <= j < xs.len() ==> xs[i] <= xs[j]
}

/// Every breakpoint is greater than all before it.
pub open spec fn strictly_ascending(xs: Seq<i32>) -> bool {
    forall|i: int, j: int| 0 <= i < j < xs.len() ==> xs[i] < xs[j]
}

/// What the one-dimensional interpolation asks of its arrays: at least two
/// breakpoints in ascending order, and one value for each.
pub open spec fn is_curve(xs: Seq<i32>, ys: Seq<i32>) -> bool {
    &&& xs.len() >= 2
    &&& xs.len() == ys.len()
    &&& ascending(xs)
}

/// Segment `i` of the breakpoints holds `x`.
pub open spec fn brackets(xs: Seq<i32>, i: int, x: int) -> bool {
    0 <= i < xs.len() - 1 && xs[i] <= x < xs[i + 1]
}

/// The point at `x` of the line through `(x0, y0)` and `(x1, y1)`.
pub open spec fn lerp(x0: int, y0: int, x1: int, y1: int, x: int) -> int
    recommends
        x0 < x1,
{
    y0 + ((x - x0) * (y1 - y0)) / (x1 - x0)
}

/// The interpolated value of the curve at `x`.
pub open spec fn interp1(xs: Seq<i32>, ys: Seq<i32>, x: int) -> int
    recommends
        is_curve(xs, ys),
{
    if x <= xs[0] {
        ys[0] as int
    } else if x >= xs[xs.len() - 1] {
        ys[ys.len() - 1] as int
    } else {
        let i = choose|i: int| brackets(xs, i, x);
        lerp(xs[i] as int, ys[i] as int, xs[i + 1] as int, ys[i + 1] as int, x)
    }
}

/// A proportional part `t * dy / dx` with `0 <= t <= dx` lies between zero
/// and `dy`.
pub proof fn lemma_part_between(t: int, dy: int, dx: int)
    requires
        0 <= t <= dx,
        dx > 0,
    ensures
        dy >= 0 ==> 0 <= (t * dy) / dx <= dy,
        dy <= 0 ==> dy <= (t * dy) / dx <= 0,
{
    lemma_div_multiples_vanish(dy, dx);
    assert(dx * dy == dy * dx) by (nonlinear_arith);
    assert((0 * dy) / dx == 0);
    if dy >= 0 {
        assert(0 <= t * dy <= dx * dy) by (nonlinear_arith)
            requires
                0 <= t <= dx,
                dy >= 0,
        ;
        lemma_div_is_ordered(0, t * dy, dx);
        lemma_div_is_ordered(t * dy, dx * dy, dx);
    }
    if dy <= 0 {
        assert(dx * dy <= t * dy <= 0) by (nonlinear_arith)
            requires
                0 <= t <= dx,
                dy <= 0,
        ;
        lemma_div_is_ordered(t * dy, 0, dx);
        lemma_div_is_ordered(dx * dy, t * dy, dx);
    }
}

/// With a rising `dy`, a larger part of the segment gives no smaller value.
pub proof fn lemma_part_monotone(t1: int, t2: int, dy: int, dx: int)
    requires
        t1 <= t2,
        dy >= 0,
        dx > 0,
    ensures
        (t1 * dy) / dx <= (t2 * dy) / dx,
{
    assert(t1 * dy <= t2 * dy) by (nonlinear_arith)
        requires
            t1 <= t2,
            dy >= 0,
    ;
    lemma_div_is_ordered(t1 * dy, t2 * dy, dx);
}

/// At most one segment holds a given `x`.
pub proof fn lemma_bracket_unique(xs: Seq<i32>, i: int, j: int, x: int)
    requires
        ascending(xs),
        brackets(xs, i, x),
        brackets(xs, j, x),
    ensures
        i == j,
{
    if i < j {
        assert(xs[i + 1] <= xs[j]);
    }
    if j < i {
        assert(xs[j + 1] <= xs[i]);
    }
}

/// Strictly between the first and the last breakpoint, some segment at or
/// after `k` holds `x`.
pub proof fn lemma_bracket_exists(xs: Seq<i32>, x: int, k: int) -> (i: int)
    requires
        0 <= k < xs.len() - 1,
        xs[k] <= x < xs[xs.len() - 1],
    ensures
        brackets(xs, i, x),
        k <= i,
    decreases xs.len() - k,
{
    if x < xs[k + 1] {
        k
    } else {
        lemma_bracket_exists(xs, x, k + 1)
    }
}

/// Inside the breakpoints the curve's value is the line of the one segment
/// that holds `x`.
pub proof fn lemma_interp1_in_segment(xs: Seq<i32>, ys: Seq<i32>, i: int, x: int)
    requires
        is_curve(xs, ys),
        brackets(xs, i, x),
        xs[0] < x,
    ensures
        interp1(xs, ys, x) == lerp(
            xs[i] as int,
            ys[i] as int,
            xs[i + 1] as int,
            ys[i + 1] as int,
            x,
        ),
{
    assert(xs[i + 1] <= xs[xs.len() - 1]);
    let c = choose|c: int| brackets(xs, c, x);
    lemma_bracket_unique(xs, c, i, x);
}

/// The curve's value at `x`.
pub fn interpolation(xs: &[i32], ys: &[i32], x: i64) -> (y: i32)
    requires
        is_curve(xs@, ys@),
    ensures
        y == interp1(xs@, ys@, x as int),
{
    let n: usize = xs.len();
    if x <= xs[0] as i64 {
        return ys[0];
    }
    if x >= xs[n - 1] as i64 {
        return ys[n - 1];
    }
    let mut i: usize = 0;
    while xs[i + 1] as i64 <= x
        invariant
            is_curve(xs@, ys@),
            n == xs.len(),
            0 <= i < n - 1,
            xs[i as int] <= x < xs[n - 1],
        decreases n - i,
    {
        i = i + 1;
        assert(i < n - 1);
    }
    proof {
        lemma_interp1_in_segment(xs@, ys@, i as int, x as int);
        lemma_part_between(
            x - xs[i as int],
            ys[i + 1] - ys[i as int],
            xs[i + 1] - xs[i as int],
        );
    }
    let t: i128 = x as i128 - xs[i] as i128;
    let dy: i128 = ys[i + 1] as i128 - ys[i] as i128;
    let dx: i128 = xs[i + 1] as i128 - xs[i] as i128;
    let part: i128 = div_floor(wide_product(t, dy), dx);
    (ys[i] as i128 + part) as i32
}

/// Interpolation idempotence: at each breakpoint of a strictly ascending
/// curve the interpolated value is the value stored for that breakpoint.
pub proof fn lemma_interp1_at_breakpoint(xs: Seq<i32>, ys: Seq<i32>, i: int)
    requires
        is_curve(xs, ys),
        strictly_ascending(xs),
        0 <= i < xs.len(),
    ensures
        interp1(xs, ys, xs[i] as int) == ys[i],
{
    let x = xs[i] as int;
    if i == 0 {
    } else if i == xs.len() - 1 {
    } else {
        assert(xs[0] < xs[i]);
        assert(xs[i] < xs[i + 1]);
        assert(xs[i] < xs[xs.len() - 1]);
        lemma_interp1_in_segment(xs, ys, i, x);
        assert((0 * (ys[i + 1] - ys[i])) / (xs[i + 1] - xs[i]) == 0) by (nonlinear_arith)
            requires
                xs[i + 1] - xs[i] > 0,
        ;
    }
}

/// With values that never fall from one breakpoint to the next, the curve's
/// value stays between the first and the last of them.
pub proof fn lemma_interp1_within_values(xs: Seq<i32>, ys: Seq<i32>, x: int)
    requires
        is_curve(xs, ys),
        ascending(ys),
    ensures
        ys[0] <= interp1(xs, ys, x) <= ys[ys.len() - 1],
{
    if x <= xs[0] {
    } else if x >= xs[xs.len() - 1] {
    } else {
        let i = lemma_bracket_exists(xs, x, 0);
        lemma_interp1_in_segment(xs, ys, i, x);
        lemma_part_between(x - xs[i], ys[i + 1] - ys[i], xs[i + 1] - xs[i]);
        assert(ys[0] <= ys[i]);
        assert(ys[i + 1] <= ys[ys.len() - 1]);
    }
}

/// Interpolation monotone consistency: with values that never fall from one
/// breakpoint to the next, a larger `x` gives no smaller value.
pub proof fn lemma_interp1_monotone(xs: Seq<i32>, ys: Seq<i32>, x1: int, x2: int)
    requires
        is_curve(xs, ys),
        ascending(ys),
        x1 <= x2,
    ensures
        interp1(xs, ys, x1) <= interp1(xs, ys, x2),
{
    lemma_interp1_within_values(xs, ys, x1);
    lemma_interp1_within_values(xs, ys, x2);
    if x1 <= xs[0] {
    } else if x2 >= xs[xs.len() - 1] {
    } else {
        let i = lemma_bracket_exists(xs, x1, 0);
        let j = lemma_bracket_exists(xs, x2, 0);
        lemma_interp1_in_segment(xs, ys, i, x1);
        lemma_interp1_in_segment(xs, ys, j, x2);
        if j < i {
            assert(xs[j + 1] <= xs[i]);
        }
        let dxi = xs[i + 1] - xs[i];
        let dyi = ys[i + 1] - ys[i];
        if i == j {
            lemma_part_monotone(x1 - xs[i], x2 - xs[i], dyi, dxi);
        } else {
            lemma_part_between(x1 - xs[i], dyi, dxi);
            lemma_part_between(x2 - xs[j], ys[j + 1] - ys[j], xs[j + 1] - xs[j]);
            assert(ys[i + 1] <= ys[j]);
        }
    }
}

/// What happens to a coordinate outside the breakpoints of its axis.
#[derive(Clone, Copy, Debug)]
pub enum EdgePolicy {
    /// The coordinate saturates at the end breakpoint.
    Clamp,
    /// The nearest end breakpoint stands in for the coordinate.
    BinarySnap,
}

/// Why a two-dimensional table was refused.
#[derive(Clone, Copy, Debug)]
pub enum TableError {
    /// An axis has fewer than two breakpoints.
    AxisTooShort,
    /// The breakpoints of an axis do not strictly increase.
    AxisNotIncreasing,
    /// The data does not hold one value for each pair of breakpoints.
    DimensionMismatch,
}

/// A coordinate after the edge policy of its axis has been applied.
pub open spec fn at_edge(policy: EdgePolicy, x: int, lo: int, hi: int) -> int
    recommends
        lo <= hi,
{
    match policy {
        EdgePolicy::Clamp => crate::arith::clamp(x, lo, hi),
        EdgePolicy::BinarySnap => if x < lo {
            lo
        } else if x > hi {
            hi
        } else {
            x
        },
    }
}

/// The segment of an axis in which a coordinate within the breakpoints is
/// interpolated.
pub open spec fn cell(xs: Seq<i32>, x: int) -> int {
    if x <= xs[0] {
        0
    } else if x >= xs[xs.len() - 1] {
        xs.len() - 2
    } else {
        choose|i: int| brackets(xs, i, x)
    }
}

/// The bilinear blend of the four corner values of a cell.
pub open spec fn bilinear(
    x0: int,
    x1: int,
    y0: int,
    y1: int,
    f00: int,
    f01: int,
    f10: int,
    f11: int,
    x: int,
    y: int,
) -> int
    recommends
        x0 < x1,
        y0 < y1,
{
    (f00 * ((x1 - x) * (y1 - y)) + f10 * ((x - x0) * (y1 - y)) + f01 * ((x1 - x) * (y - y0)) + f11
        * ((x - x0) * (y - y0))) / ((x1 - x0) * (y1 - y0))
}

/// Axes and row-major data that make a table: strictly increasing
/// breakpoints, at least two per axis, and one value per pair.
pub open spec fn is_grid(xs: Seq<i32>, ys: Seq<i32>, data: Seq<i32>) -> bool {
    &&& xs.len() >= 2
    &&& ys.len() >= 2
    &&& strictly_ascending(xs)
    &&& strictly_ascending(ys)
    &&& data.len() == xs.len() * ys.len()
}

/// The interpolated value of a grid at `(x, y)`.
pub open spec fn interp2(
    xs: Seq<i32>,
    ys: Seq<i32>,
    data: Seq<i32>,
    x_edge: EdgePolicy,
    y_edge: EdgePolicy,
    x: int,
    y: int,
) -> int
    recommends
        is_grid(xs, ys, data),
{
    let xc = at_edge(x_edge, x, xs[0] as int, xs[xs.len() - 1] as int);
    let yc = at_edge(y_edge, y, ys[0] as int, ys[ys.len() - 1] as int);
    let i = cell(xs, xc);
    let j = cell(ys, yc);
    let n = ys.len() as int;
    bilinear(
        xs[i] as int,
        xs[i + 1] as int,
        ys[j] as int,
        ys[j + 1] as int,
        data[i * n + j] as int,
        data[i * n + j + 1] as int,
        data[(i + 1) * n + j] as int,
        data[(i + 1) * n + j + 1] as int,
        xc,
        yc,
    )
}

/// A value between two bounds, times a non-negative weight, lies between the
/// weighted bounds.
proof fn lemma_weight_between(f: int, w: int, lo: int, hi: int)
    by (nonlinear_arith)
    requires
        w >= 0,
        lo <= f <= hi,
    ensures
        lo * w <= f * w <= hi * w,
{
}

/// A blend of four values with non-negative weights lies between any lower
/// and upper bound of the values.
pub proof fn lemma_bilinear_between(
    x0: int,
    x1: int,
    y0: int,
    y1: int,
    f00: int,
    f01: int,
    f10: int,
    f11: int,
    x: int,
    y: int,
    lo: int,
    hi: int,
)
    requires
        x0 <= x <= x1,
        x0 < x1,
        y0 <= y <= y1,
        y0 < y1,
        lo <= f00 <= hi,
        lo <= f01 <= hi,
        lo <= f10 <= hi,
        lo <= f11 <= hi,
    ensures
        lo <= bilinear(x0, x1, y0, y1, f00, f01, f10, f11, x, y) <= hi,
{
    let w00 = (x1 - x) * (y1 - y);
    let w10 = (x - x0) * (y1 - y);
    let w01 = (x1 - x) * (y - y0);
    let w11 = (x - x0) * (y - y0);
    let w = (x1 - x0) * (y1 - y0);
    assert(w00 >= 0 && w10 >= 0 && w01 >= 0 && w11 >= 0 && w > 0 && w00 + w10 + w01 + w11 == w)
        by (nonlinear_arith)
        requires
            x0 <= x <= x1,
            x0 < x1,
            y0 <= y <= y1,
            y0 < y1,
            w00 == (x1 - x) * (y1 - y),
            w10 == (x - x0) * (y1 - y),
            w01 == (x1 - x) * (y - y0),
            w11 == (x - x0) * (y - y0),
            w == (x1 - x0) * (y1 - y0),
    ;
    let total = f00 * w00 + f10 * w10 + f01 * w01 + f11 * w11;
    lemma_weight_between(f00, w00, lo, hi);
    lemma_weight_between(f10, w10, lo, hi);
    lemma_weight_between(f01, w01, lo, hi);
    lemma_weight_between(f11, w11, lo, hi);
    assert(lo * w == lo * w00 + lo * w10 + lo * w01 + lo * w11) by (nonlinear_arith)
        requires
            w00 + w10 + w01 + w11 == w,
    ;
    assert(hi * w == hi * w00 + hi * w10 + hi * w01 + hi * w11) by (nonlinear_arith)
        requires
            w00 + w10 + w01 + w11 == w,
    ;
    lemma_div_multiples_vanish(lo, w);
    lemma_div_multiples_vanish(hi, w);
    assert(w * lo == lo * w && w * hi == hi * w) by (nonlinear_arith);
    lemma_div_is_ordered(lo * w, total, w);
    lemma_div_is_ordered(total, hi * w, w);
}

/// One corner value times its weight, the product of two distances that
/// each fit in 32 bits.
fn weighted(f: i32, u: i128, v: i128) -> (r: i128)
    requires
        0 <= u <= 0x1_0000_0000,
        0 <= v <= 0x1_0000_0000,
    ensures
        r == f * (u * v),
        -0x8000_0000_0000_0000_0000_0000 <= r <= 0x8000_0000_0000_0000_0000_0000,
{
    assert(0 <= u * v <= 0x1_0000_0000_0000_0000) by (nonlinear_arith)
        requires
            0 <= u <= 0x1_0000_0000,
            0 <= v <= 0x1_0000_0000,
    ;
    let w: i128 = u * v;
    assert(-0x8000_0000_0000_0000_0000_0000 <= f * w <= 0x8000_0000_0000_0000_0000_0000)
        by (nonlinear_arith)
        requires
            0 <= w <= 0x1_0000_0000_0000_0000,
            -0x8000_0000 <= f <= 0x8000_0000,
    ;
    f as i128 * w
}

/// The segment of an axis for a coordinate that lies within its breakpoints.
fn find_cell(xs: &[i32], x: i64) -> (i: usize)
    requires
        xs@.len() >= 2,
        strictly_ascending(xs@),
        xs@[0] <= x <= xs@[xs@.len() - 1],
    ensures
        i == cell(xs@, x as int),
        0 <= i < xs@.len() - 1,
        xs@[i as int] <= x <= xs@[i + 1],
{
    let n: usize = xs.len();
    if x <= xs[0] as i64 {
        return 0;
    }
    if x >= xs[n - 1] as i64 {
        assert(xs@[n - 2] < xs@[n - 1]);
        return n - 2;
    }
    let mut i: usize = 0;
    while xs[i + 1] as i64 <= x
        invariant
            strictly_ascending(xs@),
            n == xs.len(),
            0 <= i < n - 1,
            xs[i as int] <= x < xs[n - 1],
        decreases n - i,
    {
        i = i + 1;
        assert(i < n - 1);
    }
    proof {
        let c = choose|c: int| brackets(xs@, c, x as int);
        assert(brackets(xs@, i as int, x as int));
        lemma_bracket_unique(xs@, c, i as int, x as int);
    }
    i
}

fn check_axis(xs: &Vec<i32>) -> (r: Result<(), TableError>)
    ensures
        r is Ok <==> xs@.len() >= 2 && strictly_ascending(xs@),
        r is Err ==> (r->Err_0 is AxisTooShort <==> xs@.len() < 2),
        r is Err ==> (r->Err_0 is AxisNotIncreasing <==> xs@.len() >= 2),
{
    let n: usize = xs.len();
    if n < 2 {
        return Err(TableError::AxisTooShort);
    }
    let mut k: usize = 1;
    while k < n
        invariant
            n == xs@.len(),
            1 <= k <= n,
            forall|i: int, j: int| 0 <= i < j < k ==> xs@[i] < xs@[j],
        decreases n - k,
    {
        if xs[k - 1] >= xs[k] {
            assert(!strictly_ascending(xs@)) by {
                if strictly_ascending(xs@) {
                    assert(xs@[k - 1] < xs@[k as int]);
                }
            }
            return Err(TableError::AxisNotIncreasing);
        }
        assert forall|i: int, j: int| 0 <= i < j < k + 1 implies xs@[i] < xs@[j] by {
            if j == k {
                if i < k - 1 {
                    assert(xs@[i] < xs@[k - 1]);
                }
            }
        }
        k = k + 1;
    }
    Ok(())
}

/// A two-dimensional lookup table: one axis of breakpoints for each
/// coordinate and the values at their crossings, row by row along the first
/// axis.
pub struct Table2D {
    x_breakpoints: Vec<i32>,
    y_breakpoints: Vec<i32>,
    data: Vec<i32>,
    x_edge: EdgePolicy,
    y_edge: EdgePolicy,
}

impl Table2D {
    pub closed spec fn xs(&self) -> Seq<i32> {
        self.x_breakpoints@
    }

    pub closed spec fn ys(&self) -> Seq<i32> {
        self.y_breakpoints@
    }

    pub closed spec fn values(&self) -> Seq<i32> {
        self.data@
    }

    pub closed spec fn x_policy(&self) -> EdgePolicy {
        self.x_edge
    }

    pub closed spec fn y_policy(&self) -> EdgePolicy {
        self.y_edge
    }

    #[verifier::type_invariant]
    spec fn well_formed(&self) -> bool {
        is_grid(self.x_breakpoints@, self.y_breakpoints@, self.data@)
    }

    /// Builds a table, or says what is wrong with its parts. The first axis
    /// is judged first, and the dimensions last.
    pub fn new(
        x_breakpoints: Vec<i32>,
        x_edge: EdgePolicy,
        y_breakpoints: Vec<i32>,
        y_edge: EdgePolicy,
        data: Vec<i32>,
    ) -> (r: Result<Table2D, TableError>)
        ensures
            r is Ok <==> is_grid(x_breakpoints@, y_breakpoints@, data@),
            r matches Ok(t) ==> t.xs() == x_breakpoints@ && t.ys() == y_breakpoints@ && t.values()
                == data@ && t.x_policy() == x_edge && t.y_policy() == y_edge,
            r matches Err(e) ==> (e is AxisTooShort <==> x_breakpoints@.len() < 2 || (
            strictly_ascending(x_breakpoints@) && y_breakpoints@.len() < 2)),
            r matches Err(e) ==> (e is DimensionMismatch <==> x_breakpoints@.len() >= 2
                && y_breakpoints@.len() >= 2 && strictly_ascending(x_breakpoints@)
                && strictly_ascending(y_breakpoints@)),
    {
        match check_axis(&x_breakpoints) {
            Err(e) => {
                return Err(e);
            },
            Ok(_) => {},
        }
        match check_axis(&y_breakpoints) {
            Err(e) => {
                return Err(e);
            },
            Ok(_) => {},
        }
        let m: usize = x_breakpoints.len();
        let n: usize = y_breakpoints.len();
        let cells: usize = data.len();
        match m.checked_mul(n) {
            Some(product) => {
                if product != cells {
                    return Err(TableError::DimensionMismatch);
                }
            },
            None => {
                return Err(TableError::DimensionMismatch);
            },
        }
        Ok(Table2D { x_breakpoints, y_breakpoints, data, x_edge, y_edge })
    }

    /// The table's value at `(x, y)`.
    pub fn lookup(&self, x: i64, y: i64) -> (v: i32)
        ensures
            v == interp2(
                self.xs(),
                self.ys(),
                self.values(),
                self.x_policy(),
                self.y_policy(),
                x as int,
                y as int,
            ),
    {
        proof {
            use_type_invariant(self);
        }
        lookup_grid(
            self.x_breakpoints.as_slice(),
            self.y_breakpoints.as_slice(),
            self.data.as_slice(),
            self.x_edge,
            self.y_edge,
            x,
            y,
        )
    }
}

fn apply_edge(policy: EdgePolicy, x: i64, lo: i32, hi: i32) -> (r: i64)
    requires
        lo <= hi,
    ensures
        r == at_edge(policy, x as int, lo as int, hi as int),
        lo <= r <= hi,
{
    match policy {
        EdgePolicy::Clamp => crate::arith::clamp_i64(x, lo as i64, hi as i64),
        EdgePolicy::BinarySnap => {
            if x < lo as i64 {
                lo as i64
            } else if x > hi as i64 {
                hi as i64
            } else {
                x
            }
        },
    }
}

/// The value at `(x, y)` of a grid held in slices.
pub fn lookup_grid(
    xs: &[i32],
    ys: &[i32],
    data: &[i32],
    x_edge: EdgePolicy,
    y_edge: EdgePolicy,
    x: i64,
    y: i64,
) -> (v: i32)
    requires
        is_grid(xs@, ys@, data@),
    ensures
        v == interp2(xs@, ys@, data@, x_edge, y_edge, x as int, y as int),
{
    let m: usize = xs.len();
    let n: usize = ys.len();
    assert(xs@[0] < xs@[m - 1]);
    assert(ys@[0] < ys@[n - 1]);
    let xc: i64 = apply_edge(x_edge, x, xs[0], xs[m - 1]);
    let yc: i64 = apply_edge(y_edge, y, ys[0], ys[n - 1]);
    let i: usize = find_cell(xs, xc);
    let j: usize = find_cell(ys, yc);
    assert(xs@[i as int] < xs@[i + 1]);
    assert(ys@[j as int] < ys@[j + 1]);
    let cells: usize = data.len();
    assert(0 <= i * n && i * n + n + j + 1 < m * n && (i + 1) * n == i * n + n) by (nonlinear_arith)
        requires
            0 <= i < m - 1,
            0 <= j < n - 1,
    ;
    assert(m * n == cells);
    let base: usize = i * n + j;
    let f00: i32 = data[base];
    let f01: i32 = data[base + 1];
    let f10: i32 = data[base + n];
    let f11: i32 = data[base + n + 1];
    let a1: i128 = xs[i + 1] as i128 - xc as i128;
    let a0: i128 = xc as i128 - xs[i] as i128;
    let b1: i128 = ys[j + 1] as i128 - yc as i128;
    let b0: i128 = yc as i128 - ys[j] as i128;
    let dx: i128 = xs[i + 1] as i128 - xs[i] as i128;
    let dy: i128 = ys[j + 1] as i128 - ys[j] as i128;
    let total: i128 = weighted(f00, a1, b1) + weighted(f10, a0, b1) + weighted(f01, a1, b0)
        + weighted(f11, a0, b0);
    assert(0 < dx * dy <= 0x1_0000_0000_0000_0000) by (nonlinear_arith)
        requires
            0 < dx <= 0x1_0000_0000,
            0 < dy <= 0x1_0000_0000,
    ;
    let w: i128 = dx * dy;
    proof {
        lemma_bilinear_between(
            xs@[i as int] as int,
            xs@[i + 1] as int,
            ys@[j as int] as int,
            ys@[j + 1] as int,
            f00 as int,
            f01 as int,
            f10 as int,
            f11 as int,
            xc as int,
            yc as int,
            i32::MIN as int,
            i32::MAX as int,
        );
    }
    div_floor(total, w) as i32
}

} // verus!
