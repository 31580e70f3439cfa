//! The benchmark harness: timed runs of frames, one benchmark after another.
use vstd::prelude::*;
use vstd::pervasive::VecAdditionalExecFns;

verus! {

/// A span of time, in nanoseconds.
#[derive(Clone, Copy, PartialEq, Eq, Structural, Debug)]
pub struct TimeSpan {
    pub nanos: u64,
}

pub const NANOS_PER_SEC: u64 = 1_000_000_000;

pub const NANOS_PER_MILLI: u64 = 1_000_000;

impl TimeSpan {
    pub fn zero() -> (r: Self)
        ensures
            r.nanos == 0,
    {
        TimeSpan { nanos: 0 }
    }

    pub fn from_secs(secs: u64) -> (r: Self)
        requires
            secs * NANOS_PER_SEC <= u64::MAX,
        ensures
            r.nanos == secs * NANOS_PER_SEC,
    {
        TimeSpan { nanos: secs * NANOS_PER_SEC }
    }

    pub fn from_millis(millis: u64) -> (r: Self)
        requires
            millis * NANOS_PER_MILLI <= u64::MAX,
        ensures
            r.nanos == millis * NANOS_PER_MILLI,
    {
        TimeSpan { nanos: millis * NANOS_PER_MILLI }
    }

    /// Whole milliseconds in the span.
    pub fn as_millis(&self) -> (r: u64)
        ensures
            r == self.nanos / NANOS_PER_MILLI,
    {
        self.nanos / NANOS_PER_MILLI
    }

    /// The sum of two spans, saturating at the largest span.
    pub fn saturating_add(&self, other: TimeSpan) -> (r: TimeSpan)
        ensures
            r.nanos == if self.nanos + other.nanos > u64::MAX {
                u64::MAX as int
            } else {
                self.nanos + other.nanos
            },
    {
        TimeSpan { nanos: self.nanos.saturating_add(other.nanos) }
    }
}

/// Whether a benchmark has run for its whole length.
#[derive(Clone, Copy, PartialEq, Eq, Structural, Debug)]
pub enum BenchmarkStatus {
    InProgress,
    Finished,
}

/// The bookkeeping that every benchmark keeps: time spent rendering so far,
/// the time to run for, and the frames rendered.
#[derive(Clone, Copy, PartialEq, Eq, Structural, Debug)]
pub struct BenchmarkCommon {
    pub current_duration: TimeSpan,
    pub target_duration: TimeSpan,
    pub frames_rendered: i32,
}

/// `a + b` in nanoseconds, saturating.
pub open spec fn span_sum(a: TimeSpan, b: TimeSpan) -> u64 {
    if a.nanos + b.nanos > u64::MAX {
        u64::MAX
    } else {
        (a.nanos + b.nanos) as u64
    }
}

/// The bookkeeping after one more frame that took `elapsed`.
pub open spec fn after_frame(c: BenchmarkCommon, elapsed: TimeSpan) -> BenchmarkCommon {
    BenchmarkCommon {
        current_duration: TimeSpan { nanos: span_sum(c.current_duration, elapsed) },
        target_duration: c.target_duration,
        frames_rendered: if c.frames_rendered < i32::MAX {
            (c.frames_rendered + 1) as i32
        } else {
            c.frames_rendered
        },
    }
}

/// A benchmark is finished once its time spent exceeds its length.
pub open spec fn status_of(c: BenchmarkCommon) -> BenchmarkStatus {
    if c.current_duration.nanos > c.target_duration.nanos {
        BenchmarkStatus::Finished
    } else {
        BenchmarkStatus::InProgress
    }
}

impl BenchmarkCommon {
    /// Bookkeeping for a run of the given length, with nothing spent yet.
    pub fn new(length: TimeSpan) -> (r: Self)
        ensures
            r.current_duration.nanos == 0,
            r.target_duration == length,
            r.frames_rendered == 0,
    {
        BenchmarkCommon { current_duration: TimeSpan::zero(), target_duration: length, frames_rendered: 0 }
    }

    /// Counts one rendered frame that took `elapsed`, and tells whether the
    /// run is over.
    pub fn record_frame(&mut self, elapsed: TimeSpan) -> (r: BenchmarkStatus)
        ensures
            *final(self) == after_frame(*old(self), elapsed),
            r == status_of(*final(self)),
    {
        self.current_duration = self.current_duration.saturating_add(elapsed);
        if self.frames_rendered < i32::MAX {
            self.frames_rendered = self.frames_rendered + 1;
        }
        if self.current_duration.nanos > self.target_duration.nanos {
            BenchmarkStatus::Finished
        } else {
            BenchmarkStatus::InProgress
        }
    }

    /// Starts the run again: nothing spent, no frame rendered.
    pub fn restart(&mut self)
        ensures
            final(self).current_duration.nanos == 0,
            final(self).target_duration == old(self).target_duration,
            final(self).frames_rendered == 0,
    {
        self.current_duration = TimeSpan::zero();
        self.frames_rendered = 0;
    }
}

/// The number of rows or columns of a grid asked for as `n`.
pub open spec fn grid_side(n: i32) -> nat {
    if n > 0 {
        n as nat
    } else {
        0
    }
}

/// The cells of a grid of `nx` by `ny`, column by column, each column from
/// its first row to its last.
pub open spec fn grid_cells(nx: nat, ny: nat) -> Seq<(i32, i32)> {
    Seq::new(nx * ny, |k: int| ((k / ny as int) as i32, (k % ny as int) as i32))
}

/// A benchmark that draws a grid of `triangles_x` by `triangles_y`
/// triangles every frame.
#[derive(Clone, Copy, PartialEq, Eq, Structural, Debug)]
pub struct TriangleBenchmark {
    pub benchmark_common: BenchmarkCommon,
    pub triangles_x: i32,
    pub triangles_y: i32,
}

impl TriangleBenchmark {
    pub fn new(length: TimeSpan, triangles_x: i32, triangles_y: i32) -> (r: Self)
        ensures
            r.benchmark_common.current_duration.nanos == 0,
            r.benchmark_common.target_duration == length,
            r.benchmark_common.frames_rendered == 0,
            r.triangles_x == triangles_x,
            r.triangles_y == triangles_y,
    {
        TriangleBenchmark { benchmark_common: BenchmarkCommon::new(length), triangles_x, triangles_y }
    }

    /// The triangles drawn per frame.
    pub fn triangle_count(&self) -> (r: u64)
        ensures
            r == grid_side(self.triangles_x) * grid_side(self.triangles_y),
    {
        let nx: u64 = if self.triangles_x > 0 { self.triangles_x as u64 } else { 0 };
        let ny: u64 = if self.triangles_y > 0 { self.triangles_y as u64 } else { 0 };
        assert(nx * ny <= 0x7fff_ffff * 0x7fff_ffff) by (nonlinear_arith)
            requires
                nx <= 0x7fff_ffff,
                ny <= 0x7fff_ffff,
        ;
        nx * ny
    }

    /// The grid cell of each triangle drawn in a frame, in drawing order.
    pub fn triangle_cells(&self) -> (r: Vec<(i32, i32)>)
        ensures
            r@ == grid_cells(grid_side(self.triangles_x), grid_side(self.triangles_y)),
    {
        let ghost nx = grid_side(self.triangles_x);
        let ghost ny = grid_side(self.triangles_y);
        let mut cells: Vec<(i32, i32)> = Vec::new();
        let mut x: i32 = 0;
        while x < self.triangles_x
            invariant
                0 <= x,
                self.triangles_x > 0 ==> x <= self.triangles_x,
                self.triangles_x <= 0 ==> x == 0,
                nx == grid_side(self.triangles_x),
                ny == grid_side(self.triangles_y),
                cells@ == grid_cells(x as nat, ny),
            decreases self.triangles_x - x,
        {
            let mut y: i32 = 0;
            while y < self.triangles_y
                invariant
                    0 <= x < self.triangles_x,
                    0 <= y,
                    self.triangles_y > 0 ==> y <= self.triangles_y,
                    self.triangles_y <= 0 ==> y == 0,
                    ny == grid_side(self.triangles_y),
                    cells@ == grid_cells(x as nat, ny) + Seq::new(y as nat, |j: int| (x, j as i32)),
                decreases self.triangles_y - y,
            {
                cells.push((x, y));
                y = y + 1;
                assert(cells@ =~= grid_cells(x as nat, ny) + Seq::new(y as nat, |j: int| (x, j as i32)));
            }
            proof {
                lemma_grid_next_column(x as nat, ny);
            }
            x = x + 1;
        }
        cells
    }

    /// Starts the benchmark afresh.
    pub fn begin_bench(&mut self)
        ensures
            final(self).benchmark_common.current_duration.nanos == 0,
            final(self).benchmark_common.target_duration == old(self).benchmark_common.target_duration,
            final(self).benchmark_common.frames_rendered == 0,
            final(self).triangles_x == old(self).triangles_x,
            final(self).triangles_y == old(self).triangles_y,
    {
        self.benchmark_common.restart();
    }
}

proof fn lemma_grid_next_column(x: nat, ny: nat)
    ensures
        grid_cells(x + 1, ny) == grid_cells(x, ny) + Seq::new(ny, |j: int| (x as i32, j as i32)),
{
    let lhs = grid_cells(x + 1, ny);
    let rhs = grid_cells(x, ny) + Seq::new(ny, |j: int| (x as i32, j as i32));
    assert((x + 1) * ny == x * ny + ny) by (nonlinear_arith);
    assert forall|k: int| 0 <= k < lhs.len() implies lhs[k] == rhs[k] by {
        if k >= x * ny {
            lemma_div_mod_last(k, x, ny);
        }
    }
    assert(lhs =~= rhs);
}

proof fn lemma_div_mod_last(k: int, x: nat, ny: nat)
    requires
        x * ny <= k < x * ny + ny,
    ensures
        k / ny as int == x,
        k % ny as int == k - x * ny,
{
    vstd::arithmetic::div_mod::lemma_fundamental_div_mod_converse(k, ny as int, x as int, k - x * ny);
}

/// Runs benchmarks in turn: when one finishes, the next starts afresh, and
/// after the last comes the first again.
pub struct Benchmarker {
    tests: Vec<TriangleBenchmark>,
    test_index: usize,
}

impl Benchmarker {
    pub closed spec fn tests(&self) -> Seq<TriangleBenchmark> {
        self.tests@
    }

    /// The benchmark being run.
    pub closed spec fn index(&self) -> nat {
        self.test_index as nat
    }

    pub closed spec fn wf(&self) -> bool {
        0 <= self.test_index < self.tests@.len()
    }

    /// Runs `tests` in order, starting with the first.
    pub fn new(tests: Vec<TriangleBenchmark>) -> (r: Self)
        requires
            tests@.len() > 0,
        ensures
            r.wf(),
            r.tests() == tests@,
            r.index() == 0,
    {
        Benchmarker { tests, test_index: 0 }
    }

    pub fn current_test(&self) -> (r: TriangleBenchmark)
        requires
            self.wf(),
        ensures
            r == self.tests()[self.index() as int],
    {
        self.tests[self.test_index]
    }

    pub fn current_index(&self) -> (r: usize)
        ensures
            r == self.index(),
    {
        self.test_index
    }

    /// Moves on to the next benchmark, wrapping around, and starts it.
    pub fn increment_test(&mut self)
        requires
            old(self).wf(),
        ensures
            final(self).wf(),
            final(self).index() == (old(self).index() + 1) % old(self).tests().len(),
            final(self).tests() == old(self).tests().update(
                final(self).index() as int,
                restarted(old(self).tests()[final(self).index() as int]),
            ),
    {
        let count = self.tests.len();
        self.test_index = (self.test_index + 1) % count;
        let mut next = self.tests[self.test_index];
        next.begin_bench();
        self.tests.set(self.test_index, next);
        assert(next == restarted(old(self).tests()[self.index() as int]));
    }

    /// Accounts for one tick of the current benchmark: `rendered` is the
    /// time the frame took, or `None` when no frame was rendered. When the
    /// benchmark finishes, the next one starts and the finished one is
    /// returned, with its final bookkeeping.
    pub fn tick_tests(&mut self, rendered: Option<TimeSpan>) -> (r: Option<TriangleBenchmark>)
        requires
            old(self).wf(),
        ensures
            final(self).wf(),
            ({
                let i = old(self).index() as int;
                let cur = old(self).tests()[i];
                match rendered {
                    None => r is None && *final(self) == *old(self),
                    Some(elapsed) => {
                        let done = TriangleBenchmark {
                            benchmark_common: after_frame(cur.benchmark_common, elapsed),
                            ..cur
                        };
                        let recorded = old(self).tests().update(i, done);
                        if status_of(done.benchmark_common) == BenchmarkStatus::Finished {
                            let j = (i + 1) % recorded.len() as int;
                            &&& r == Some(done)
                            &&& final(self).index() == j
                            &&& final(self).tests() == recorded.update(j, restarted(recorded[j]))
                        } else {
                            &&& r is None
                            &&& final(self).index() == i
                            &&& final(self).tests() == recorded
                        }
                    },
                }
            }),
    {
        let elapsed = match rendered {
            None => {
                return None;
            },
            Some(e) => e,
        };
        let mut test = self.tests[self.test_index];
        let status = test.benchmark_common.record_frame(elapsed);
        self.tests.set(self.test_index, test);
        match status {
            BenchmarkStatus::Finished => {
                self.increment_test();
                Some(test)
            },
            BenchmarkStatus::InProgress => None,
        }
    }
}

/// A benchmark started afresh.
pub open spec fn restarted(t: TriangleBenchmark) -> TriangleBenchmark {
    TriangleBenchmark {
        benchmark_common: BenchmarkCommon {
            current_duration: TimeSpan { nanos: 0 },
            frames_rendered: 0,
            ..t.benchmark_common
        },
        ..t
    }
}

} // verus!
