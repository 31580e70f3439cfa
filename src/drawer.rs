//! Drawers: components that contribute draws to an open recorder.
use vstd::prelude::*;
use crate::recorder::{DrawCommand, DrawRecorder, Extent, draws_of};

verus! {

/// A contributor to a frame. `render` appends one draw per pending primitive,
/// in the order they were queued, and empties the queue. It never opens or
/// closes the recorder.
pub trait Drawer<T> {
    /// The primitives queued since the last `render`.
    spec fn pending(&self) -> Seq<T>;

    fn render(&mut self, dimensions: Extent, recorder: &mut DrawRecorder<T>)
        ensures
            final(self).pending() == Seq::<T>::empty(),
            final(recorder).target() == old(recorder).target(),
            final(recorder).clear_color() == old(recorder).clear_color(),
            final(recorder).draws() == old(recorder).draws() + draws_of(
                old(self).pending(),
                dimensions,
            ),
    ;
}

/// A drawer of triangles; `T` is the triangle's vertex data.
pub struct TriangleDrawer<T> {
    triangle_list: Vec<T>,
}

impl<T> TriangleDrawer<T> {
    pub fn new() -> (r: Self)
        ensures
            r.pending() == Seq::<T>::empty(),
    {
        TriangleDrawer { triangle_list: Vec::new() }
    }

    /// Queues a triangle for the next `render`.
    pub fn draw_triangle(&mut self, points: T)
        ensures
            final(self).pending() == old(self).pending().push(points),
    {
        self.triangle_list.push(points);
    }

    pub fn pending_len(&self) -> (r: usize)
        ensures
            r == self.pending().len(),
    {
        self.triangle_list.len()
    }
}

impl<T> Drawer<T> for TriangleDrawer<T> {
    closed spec fn pending(&self) -> Seq<T> {
        self.triangle_list@
    }

    fn render(&mut self, dimensions: Extent, recorder: &mut DrawRecorder<T>) {
        let mut queue: Vec<T> = Vec::new();
        std::mem::swap(&mut queue, &mut self.triangle_list);
        let ghost all = queue@;
        let ghost start = recorder.draws();
        while queue.len() > 0
            invariant
                self.triangle_list@ == Seq::<T>::empty(),
                all.len() >= queue@.len(),
                queue@ == all.subrange(all.len() - queue@.len(), all.len() as int),
                recorder.target() == old(recorder).target(),
                recorder.clear_color() == old(recorder).clear_color(),
                start == old(recorder).draws(),
                all == old(self).triangle_list@,
                recorder.draws() == start + draws_of(
                    all.subrange(0, all.len() - queue@.len()),
                    dimensions,
                ),
            decreases queue@.len(),
        {
            let ghost done = all.len() - queue@.len();
            let primitive = queue.remove(0);
            recorder.record(DrawCommand { primitive, viewport: dimensions });
            assert(draws_of(all.subrange(0, done + 1), dimensions) =~= draws_of(
                all.subrange(0, done),
                dimensions,
            ).push(DrawCommand { primitive, viewport: dimensions }));
            assert(queue@ =~= all.subrange(all.len() - queue@.len(), all.len() as int));
        }
        assert(all.subrange(0, all.len() as int) =~= all);
    }
}

} // verus!
