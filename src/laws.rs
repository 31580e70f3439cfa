//! Properties of the frame lifecycle that hold over several calls.
use vstd::prelude::*;
use crate::recorder::{Extent, draws_of};
use crate::sync::{PresentOutcome, retired};
use crate::lifecycle::{
    AcquireOutcome, BeginAction, FrameLifecycle, FrameState, Phase, RebuildOutcome, RenderError,
    acquire_next, begin_next, end_next, frame_draws, present_next, rebuild_next, total_pending,
};

verus! {

/// A recorder is open exactly while a frame is open, in every state that the
/// manager's operations reach.
pub proof fn recording_exactly_when_open<T>(m: &FrameLifecycle<T>)
    requires
        m.wf(),
    ensures
        m.recording() <==> m.state().phase is FrameOpen,
{
    m.lemma_recording();
}

/// A frame records exactly one draw per queued primitive, over all drawers.
pub proof fn frame_draw_count<T>(queues: Seq<Seq<T>>, viewport: Extent)
    ensures
        frame_draws(queues, viewport).len() == total_pending(queues),
    decreases queues.len(),
{
    if queues.len() > 0 {
        frame_draw_count(queues.drop_last(), viewport);
    }
}

/// The draws of drawer `i` come, in the order they were queued, after those
/// of every drawer registered before it and before those of every drawer
/// registered after it.
pub proof fn frame_draws_in_order<T>(queues: Seq<Seq<T>>, viewport: Extent, i: int)
    requires
        0 <= i < queues.len(),
    ensures
        total_pending(queues.take(i)) <= total_pending(queues.take(i + 1)) <= total_pending(queues),
        frame_draws(queues, viewport).subrange(
            total_pending(queues.take(i)) as int,
            total_pending(queues.take(i + 1)) as int,
        ) == draws_of(queues[i], viewport),
    decreases queues.len(),
{
    let n = queues.len() as int;
    let rest = queues.drop_last();
    frame_draw_count(queues, viewport);
    frame_draw_count(rest, viewport);
    assert(queues.take(n) =~= queues);
    if i == n - 1 {
        assert(queues.take(i) =~= rest);
        assert(queues.take(i + 1).drop_last() =~= rest);
        assert(frame_draws(queues, viewport).subrange(
            total_pending(rest) as int,
            total_pending(queues) as int,
        ) =~= draws_of(queues[i], viewport));
    } else {
        frame_draws_in_order(rest, viewport, i);
        assert(queues.take(i) =~= rest.take(i));
        assert(queues.take(i + 1) =~= rest.take(i + 1));
        assert(queues.drop_last() =~= rest);
        assert(rest.take(rest.len() as int) =~= rest);
        lemma_total_prefix(rest, i + 1);
        assert(frame_draws(queues, viewport).subrange(
            total_pending(rest.take(i)) as int,
            total_pending(rest.take(i + 1)) as int,
        ) =~= frame_draws(rest, viewport).subrange(
            total_pending(rest.take(i)) as int,
            total_pending(rest.take(i + 1)) as int,
        ));
    }
}

proof fn lemma_total_prefix<T>(queues: Seq<Seq<T>>, k: int)
    requires
        0 <= k <= queues.len(),
    ensures
        total_pending(queues.take(k)) <= total_pending(queues),
    decreases queues.len(),
{
    if k < queues.len() {
        assert(queues.drop_last().take(k) =~= queues.take(k));
        lemma_total_prefix(queues.drop_last(), k);
    } else {
        assert(queues.take(k) =~= queues);
    }
}

/// Reclaiming finished work twice, with nothing submitted in between, leaves
/// the manager as reclaiming once did.
pub proof fn retire_is_idempotent(s: FrameState, finished: bool)
    ensures
        ({
            let once = FrameState { previous: retired(s.previous, finished), ..s };
            FrameState { previous: retired(once.previous, finished), ..once } == once
        }),
{
}

/// One frame: begin on `surface`; rebuild when asked, with `rebuilt`;
/// acquire with `acquired`; if the frame opens, end it and present it with
/// `presented`. The state after it, and whether it asked for a rebuild.
pub open spec fn tick(
    s: FrameState,
    surface: Extent,
    rebuilt: RebuildOutcome,
    acquired: AcquireOutcome,
    presented: PresentOutcome,
) -> (FrameState, bool) {
    let (b, action) = begin_next(s, surface, false);
    let asked = action == Ok::<BeginAction, RenderError>(BeginAction::Rebuild { surface });
    let r = if asked {
        rebuild_next(b, rebuilt).0
    } else {
        b
    };
    let (a, opened) = acquire_next(r, acquired);
    if opened is Ok {
        (present_next(end_next(a).0, presented).0, asked)
    } else {
        (a, asked)
    }
}

/// Frames on the given surfaces and acquisitions, every rebuild giving
/// `image_count` images and every present succeeding: the final state and
/// the number of rebuilds asked for.
pub open spec fn run(
    s: FrameState,
    surfaces: Seq<Extent>,
    acquisitions: Seq<AcquireOutcome>,
    image_count: usize,
) -> (FrameState, nat)
    decreases surfaces.len(),
{
    if surfaces.len() == 0 || acquisitions.len() == 0 {
        (s, 0)
    } else {
        let (t, asked) = tick(
            s,
            surfaces[0],
            RebuildOutcome::Rebuilt { image_count },
            acquisitions[0],
            PresentOutcome::Presented,
        );
        let (u, n) = run(t, surfaces.drop_first(), acquisitions.drop_first(), image_count);
        (u, n + if asked { 1nat } else { 0nat })
    }
}

proof fn lemma_zero_area_ticks(
    s: FrameState,
    surfaces: Seq<Extent>,
    acquisitions: Seq<AcquireOutcome>,
    image_count: usize,
)
    requires
        s.phase == Phase::Idle,
        s.invalidated,
        surfaces.len() == acquisitions.len(),
        forall|j: int| 0 <= j < surfaces.len() ==> !(#[trigger] surfaces[j]).has_area(),
    ensures
        run(s, surfaces, acquisitions, image_count).1 == 0,
        run(s, surfaces, acquisitions, image_count).0.phase == Phase::Idle,
        run(s, surfaces, acquisitions, image_count).0.invalidated,
    decreases surfaces.len(),
{
    if surfaces.len() > 0 {
        let t = tick(s, surfaces[0], RebuildOutcome::Rebuilt { image_count }, acquisitions[0], PresentOutcome::Presented);
        assert(!surfaces[0].has_area());
        assert(t.0.phase == Phase::Idle && t.0.invalidated && !t.1);
        assert forall|j: int| 0 <= j < surfaces.drop_first().len() implies !(#[trigger] surfaces.drop_first()[j]).has_area() by {
            assert(surfaces.drop_first()[j] == surfaces[j + 1]);
        }
        lemma_zero_area_ticks(t.0, surfaces.drop_first(), acquisitions.drop_first(), image_count);
    }
}

proof fn lemma_steady_ticks(s: FrameState, surface: Extent, k: nat, image: usize, image_count: usize)
    requires
        s.phase == Phase::Idle,
        !s.invalidated,
        s.image_count == image_count,
        image < image_count,
    ensures
        run(
            s,
            Seq::new(k, |j: int| surface),
            Seq::new(k, |j: int| AcquireOutcome::Acquired { image, suboptimal: false }),
            image_count,
        ).1 == 0,
    decreases k,
{
    if k > 0 {
        let surfaces = Seq::new(k, |j: int| surface);
        let acquisitions = Seq::new(k, |j: int| AcquireOutcome::Acquired { image, suboptimal: false });
        let t = tick(s, surface, RebuildOutcome::Rebuilt { image_count }, acquisitions[0], PresentOutcome::Presented);
        assert(t.0.phase == Phase::Idle && !t.0.invalidated && !t.1 && t.0.image_count == image_count);
        assert(surfaces.drop_first() =~= Seq::new((k - 1) as nat, |j: int| surface));
        assert(acquisitions.drop_first() =~= Seq::new(
            (k - 1) as nat,
            |j: int| AcquireOutcome::Acquired { image, suboptimal: false },
        ));
        lemma_steady_ticks(t.0, surface, (k - 1) as nat, image, image_count);
    }
}

/// After the surface shrinks to no area and grows back: no rebuild is asked
/// for while it has no area, whatever the acquisitions give; and once it has
/// area again, exactly one rebuild is asked for over any number of frames,
/// when they acquire an image of the new set without staleness.
pub proof fn resize_rebuilds_once(
    s: FrameState,
    shrunk: Seq<Extent>,
    shrunk_acquisitions: Seq<AcquireOutcome>,
    surface: Extent,
    frames: nat,
    image: usize,
    image_count: usize,
)
    requires
        s.phase == Phase::Idle,
        s.invalidated,
        shrunk.len() == shrunk_acquisitions.len(),
        forall|j: int| 0 <= j < shrunk.len() ==> !(#[trigger] shrunk[j]).has_area(),
        surface.has_area(),
        frames >= 1,
        image < image_count,
    ensures
        run(s, shrunk, shrunk_acquisitions, image_count).1 == 0,
        run(
            s,
            shrunk + Seq::new(frames, |j: int| surface),
            shrunk_acquisitions + Seq::new(
                frames,
                |j: int| AcquireOutcome::Acquired { image, suboptimal: false },
            ),
            image_count,
        ).1 == 1,
{
    let grown = Seq::new(frames, |j: int| surface);
    let acquired = Seq::new(frames, |j: int| AcquireOutcome::Acquired { image, suboptimal: false });
    lemma_zero_area_ticks(s, shrunk, shrunk_acquisitions, image_count);
    lemma_run_append(s, shrunk, shrunk_acquisitions, grown, acquired, image_count);
    let m = run(s, shrunk, shrunk_acquisitions, image_count).0;
    let t = tick(m, surface, RebuildOutcome::Rebuilt { image_count }, acquired[0], PresentOutcome::Presented);
    assert(t.1 && t.0.phase == Phase::Idle && !t.0.invalidated && t.0.image_count == image_count);
    assert(grown.drop_first() =~= Seq::new((frames - 1) as nat, |j: int| surface));
    assert(acquired.drop_first() =~= Seq::new(
        (frames - 1) as nat,
        |j: int| AcquireOutcome::Acquired { image, suboptimal: false },
    ));
    lemma_steady_ticks(t.0, surface, (frames - 1) as nat, image, image_count);
}

proof fn lemma_run_append(
    s: FrameState,
    a: Seq<Extent>,
    aa: Seq<AcquireOutcome>,
    b: Seq<Extent>,
    ba: Seq<AcquireOutcome>,
    image_count: usize,
)
    requires
        a.len() == aa.len(),
        b.len() == ba.len(),
    ensures
        run(s, a + b, aa + ba, image_count).1 == run(s, a, aa, image_count).1 + run(
            run(s, a, aa, image_count).0,
            b,
            ba,
            image_count,
        ).1,
    decreases a.len(),
{
    if a.len() == 0 {
        assert(a + b =~= b);
        assert(aa + ba =~= ba);
    } else {
        let t = tick(s, a[0], RebuildOutcome::Rebuilt { image_count }, aa[0], PresentOutcome::Presented);
        assert((a + b).drop_first() =~= a.drop_first() + b);
        assert((aa + ba).drop_first() =~= aa.drop_first() + ba);
        lemma_run_append(t.0, a.drop_first(), aa.drop_first(), b, ba, image_count);
    }
}

/// Once set, the invalidation stays set through every step but a rebuild
/// that succeeded.
pub proof fn invalidation_cleared_only_by_rebuild(
    s: FrameState,
    surface: Extent,
    finished: bool,
    rebuilt: RebuildOutcome,
    acquired: AcquireOutcome,
    presented: PresentOutcome,
)
    requires
        s.invalidated,
    ensures
        begin_next(s, surface, finished).0.invalidated,
        acquire_next(s, acquired).0.invalidated,
        end_next(s).0.invalidated,
        present_next(s, presented).0.invalidated,
        !rebuild_next(s, rebuilt).0.invalidated ==> (s.phase is Rebuilding
            && rebuilt is Rebuilt),
{
}

/// A stale acquisition invalidates the targets, opens no frame and reports
/// the skip; the next frame on a surface with area rebuilds before it
/// acquires again.
pub proof fn stale_acquisition_recovers(s: FrameState, surface: Extent, finished: bool)
    requires
        s.phase == Phase::Acquiring,
        surface.has_area(),
    ensures
        ({
            let (t, r) = acquire_next(s, AcquireOutcome::OutOfDate);
            &&& r == Err::<usize, RenderError>(RenderError::SwapchainOutOfDate)
            &&& t.invalidated
            &&& t.phase == Phase::Idle
            &&& begin_next(t, surface, finished).1 == Ok::<BeginAction, RenderError>(
                BeginAction::Rebuild { surface },
            )
        }),
{
}

} // verus!
