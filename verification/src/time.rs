//! Media-time values: a rational [`Timebase`], a [`MediaTimestamp`] counted in
//! it, and an ordered [`TimeRange`]. These carry the plain values that the
//! domain checks read (tick counts and the timebase fraction).
use vstd::prelude::*;

verus! {

/// A rational timebase `num / den` (seconds per tick): the numerator is
/// never negative and the denominator always positive. Two timebases are
/// equal when they are the same rational (`1/2 == 2/4`).
#[derive(Debug, Clone, Copy)]
pub struct Timebase {
    num: i32,
    den: i32,
}

impl Timebase {
    #[verifier::type_invariant]
    spec fn inv(self) -> bool {
        self.num >= 0 && self.den > 0
    }

    /// The numerator.
    pub closed spec fn spec_num(self) -> i32 {
        self.num
    }

    /// The (positive) denominator.
    pub closed spec fn spec_den(self) -> i32 {
        self.den
    }

    /// Timebase `num / den`.
    pub fn new(num: i32, den: i32) -> (r: Self)
        requires
            num >= 0,
            den > 0,
        ensures
            r.spec_num() == num,
            r.spec_den() == den,
    {
        Timebase { num, den }
    }

    /// `Some(num / den)`, or `None` when `num` is negative or `den` is not
    /// positive.
    pub fn try_new(num: i32, den: i32) -> (r: Option<Self>)
        ensures
            r is Some <==> num >= 0 && den > 0,
            r matches Some(t) ==> t.spec_num() == num && t.spec_den() == den,
    {
        if num >= 0 && den > 0 {
            Some(Timebase { num, den })
        } else {
            None
        }
    }

    /// The numerator (never negative).
    pub fn num(&self) -> (r: i32)
        ensures
            r == self.spec_num(),
            r >= 0,
    {
        proof {
            use_type_invariant(self);
        }
        self.num
    }

    /// The denominator (always positive).
    pub fn den(&self) -> (r: i32)
        ensures
            r == self.spec_den(),
            r > 0,
    {
        proof {
            use_type_invariant(self);
        }
        self.den
    }
}

impl Default for Timebase {
    /// One tick per second, `1/1`.
    fn default() -> (r: Self)
        ensures
            r.spec_num() == 1,
            r.spec_den() == 1,
    {
        Timebase { num: 1, den: 1 }
    }
}

/// A presentation timestamp: `pts` ticks of a [`Timebase`]. Two timestamps
/// are equal when they name the same instant, whatever their timebases
/// (`1 @ 1/2 == 2 @ 1/4`).
#[derive(Debug, Clone, Copy)]
pub struct MediaTimestamp {
    pts: i64,
    timebase: Timebase,
}

impl MediaTimestamp {
    /// The tick count.
    pub closed spec fn spec_pts(self) -> i64 {
        self.pts
    }

    /// The timebase.
    pub closed spec fn spec_timebase(self) -> Timebase {
        self.timebase
    }

    /// `pts` ticks of `timebase`.
    pub fn new(pts: i64, timebase: Timebase) -> (r: Self)
        ensures
            r.spec_pts() == pts,
            r.spec_timebase() == timebase,
    {
        MediaTimestamp { pts, timebase }
    }

    /// The tick count.
    pub fn pts(&self) -> (r: i64)
        ensures
            r == self.spec_pts(),
    {
        self.pts
    }

    /// The timebase.
    pub fn timebase(&self) -> (r: Timebase)
        ensures
            r == self.spec_timebase(),
    {
        self.timebase
    }
}

/// A half-open range `[start, end)` of ticks in one timebase; `start <= end`
/// always holds. Two ranges are equal when their tick counts are the same and
/// their timebases are the same rational.
#[derive(Debug, Clone, Copy)]
pub struct TimeRange {
    start: i64,
    end: i64,
    timebase: Timebase,
}

impl TimeRange {
    #[verifier::type_invariant]
    spec fn inv(self) -> bool {
        self.start <= self.end
    }

    /// Start tick.
    pub closed spec fn spec_start(self) -> i64 {
        self.start
    }

    /// End tick.
    pub closed spec fn spec_end(self) -> i64 {
        self.end
    }

    /// Shared timebase.
    pub closed spec fn spec_timebase(self) -> Timebase {
        self.timebase
    }

    /// The start as a timestamp.
    pub closed spec fn spec_start_ts(self) -> MediaTimestamp {
        MediaTimestamp { pts: self.start, timebase: self.timebase }
    }

    /// The end as a timestamp.
    pub closed spec fn spec_end_ts(self) -> MediaTimestamp {
        MediaTimestamp { pts: self.end, timebase: self.timebase }
    }

    /// `[start, end)` of `timebase`; the caller keeps `start <= end`.
    pub fn new(start: i64, end: i64, timebase: Timebase) -> (r: Self)
        requires
            start <= end,
        ensures
            r.spec_start() == start,
            r.spec_end() == end,
            r.spec_timebase() == timebase,
    {
        TimeRange { start, end, timebase }
    }

    /// `Some([start, end))`, or `None` when `end < start`.
    pub fn try_new(start: i64, end: i64, timebase: Timebase) -> (r: Option<Self>)
        ensures
            r is Some <==> start <= end,
            r matches Some(t) ==> t.spec_start() == start && t.spec_end() == end
                && t.spec_timebase() == timebase,
    {
        if start <= end {
            Some(TimeRange { start, end, timebase })
        } else {
            None
        }
    }

    /// Start tick.
    pub fn start_pts(&self) -> (r: i64)
        ensures
            r == self.spec_start(),
            r <= self.spec_end(),
    {
        proof {
            use_type_invariant(self);
        }
        self.start
    }

    /// End tick.
    pub fn end_pts(&self) -> (r: i64)
        ensures
            r == self.spec_end(),
    {
        self.end
    }

    /// Shared timebase.
    pub fn timebase(&self) -> (r: Timebase)
        ensures
            r == self.spec_timebase(),
    {
        self.timebase
    }

    /// The start as a [`MediaTimestamp`].
    pub fn start(&self) -> (r: MediaTimestamp)
        ensures
            r == self.spec_start_ts(),
            r.spec_pts() == self.spec_start(),
            r.spec_timebase() == self.spec_timebase(),
    {
        MediaTimestamp::new(self.start, self.timebase)
    }

    /// The end as a [`MediaTimestamp`].
    pub fn end(&self) -> (r: MediaTimestamp)
        ensures
            r == self.spec_end_ts(),
            r.spec_pts() == self.spec_end(),
            r.spec_timebase() == self.spec_timebase(),
    {
        MediaTimestamp::new(self.end, self.timebase)
    }
}

/// True iff an optional duration is present and negative (a `MediaTimestamp` is
/// negative iff its tick count is).
pub open spec fn spec_is_negative_duration(d: Option<MediaTimestamp>) -> bool {
    match d {
        Some(ts) => ts.spec_pts() < 0,
        None => false,
    }
}

/// True iff `d` is present and its tick count is negative.
pub fn is_negative_duration(d: Option<MediaTimestamp>) -> (r: bool)
    ensures
        r == spec_is_negative_duration(d),
{
    match d {
        Some(ts) => ts.pts() < 0,
        None => false,
    }
}

/// Timebases `a` and `b` are the same rational: `a.num * b.den == b.num * a.den`.
pub open spec fn same_rate(a: Timebase, b: Timebase) -> bool {
    a.spec_num() * b.spec_den() == b.spec_num() * a.spec_den()
}

/// `a`'s tick count scaled into `b`'s denominator: `a.pts * a.num * b.den`.
pub open spec fn instant_scaled(a: MediaTimestamp, b: MediaTimestamp) -> int {
    a.spec_pts() * a.spec_timebase().spec_num() * b.spec_timebase().spec_den()
}

/// `a` and `b` name the same instant: `a.pts * a.num / a.den ==
/// b.pts * b.num / b.den`, cross-multiplied.
pub open spec fn same_instant(a: MediaTimestamp, b: MediaTimestamp) -> bool {
    instant_scaled(a, b) == instant_scaled(b, a)
}

/// Bound on a cross-multiplied tick count.
pub(crate) proof fn lemma_cross_bound(p: int, n: int, d: int)
    by (nonlinear_arith)
    requires
        -0x8000_0000_0000_0000 <= p <= 0x7fff_ffff_ffff_ffff,
        0 <= n <= 0x7fff_ffff,
        0 < d <= 0x7fff_ffff,
    ensures
        -0x8000_0000_0000_0000_0000_0000 <= p * n <= 0x8000_0000_0000_0000_0000_0000,
        -0x2000_0000_0000_0000_0000_0000_0000_0000 <= p * n * d <= 0x2000_0000_0000_0000_0000_0000_0000_0000,
{
}

/// Bound on a product of two `i32`s.
proof fn lemma_i32_product_bound(a: int, b: int)
    by (nonlinear_arith)
    requires
        -0x8000_0000 <= a <= 0x7fff_ffff,
        -0x8000_0000 <= b <= 0x7fff_ffff,
    ensures
        -0x4000_0000_0000_0000 <= a * b <= 0x4000_0000_0000_0000,
{
}

/// `a.pts * a.num * b.den` in exact (`i128`) arithmetic.
fn instant_scaled_exec(a: &MediaTimestamp, b: &MediaTimestamp) -> (r: i128)
    ensures
        r == instant_scaled(*a, *b),
{
    let p: i128 = a.pts() as i128;
    let n: i128 = a.timebase().num() as i128;
    let d: i128 = b.timebase().den() as i128;
    proof {
        lemma_cross_bound(p as int, n as int, d as int);
    }
    let pn: i128 = p * n;
    pn * d
}

impl PartialEq for Timebase {
    fn eq(&self, other: &Self) -> (r: bool) {
        let a: i64 = self.num as i64;
        let b: i64 = other.den as i64;
        let c: i64 = other.num as i64;
        let d: i64 = self.den as i64;
        proof {
            lemma_i32_product_bound(a as int, b as int);
            lemma_i32_product_bound(c as int, d as int);
        }
        a * b == c * d
    }
}

impl vstd::std_specs::cmp::PartialEqSpecImpl for Timebase {
    open spec fn obeys_eq_spec() -> bool {
        true
    }

    open spec fn eq_spec(&self, other: &Self) -> bool {
        same_rate(*self, *other)
    }
}

impl Eq for Timebase {

}

impl PartialEq for MediaTimestamp {
    fn eq(&self, other: &Self) -> (r: bool) {
        instant_scaled_exec(self, other) == instant_scaled_exec(other, self)
    }
}

impl vstd::std_specs::cmp::PartialEqSpecImpl for MediaTimestamp {
    open spec fn obeys_eq_spec() -> bool {
        true
    }

    open spec fn eq_spec(&self, other: &Self) -> bool {
        same_instant(*self, *other)
    }
}

impl Eq for MediaTimestamp {

}

impl PartialEq for TimeRange {
    fn eq(&self, other: &Self) -> (r: bool) {
        self.start == other.start && self.end == other.end && self.timebase == other.timebase
    }
}

impl vstd::std_specs::cmp::PartialEqSpecImpl for TimeRange {
    open spec fn obeys_eq_spec() -> bool {
        true
    }

    open spec fn eq_spec(&self, other: &Self) -> bool {
        &&& self.spec_start() == other.spec_start()
        &&& self.spec_end() == other.spec_end()
        &&& same_rate(self.spec_timebase(), other.spec_timebase())
    }
}

impl Eq for TimeRange {

}

} // verus!
