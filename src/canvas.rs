use vstd::prelude::*;

use crate::mesh::{
    assemble, indices_in_range, is_assembly_of, is_triangle_list, MeshError, Tessellate,
};

verus! {

/// The meshes drawn in one frame, in the order they were submitted.
///
/// The scene is immediate-mode: a frame builds a fresh canvas and drops it once
/// its meshes are uploaded.
pub struct Canvas<C, Q> {
    pub tessellates: Vec<Tessellate<C, Q>>,
}

impl<C, Q> Canvas<C, Q> {
    /// An empty canvas.
    pub fn new() -> (r: Canvas<C, Q>)
        ensures
            r.tessellates@ == Seq::<Tessellate<C, Q>>::empty(),
    {
        Canvas { tessellates: Vec::new() }
    }

    /// Appends a mesh after those already drawn.
    pub fn push(&mut self, mesh: Tessellate<C, Q>)
        ensures
            final(self).tessellates@ == old(self).tessellates@.push(mesh),
    {
        self.tessellates.push(mesh);
    }

    /// The meshes drawn so far, in submission order.
    pub fn meshes(&self) -> (r: &Vec<Tessellate<C, Q>>)
        ensures
            r@ == self.tessellates@,
    {
        &self.tessellates
    }
}

/// `s` with each mesh of `ms` pushed onto it, first to last.
pub open spec fn pushed_all<T>(s: Seq<T>, ms: Seq<T>) -> Seq<T>
    decreases ms.len(),
{
    if ms.len() == 0 {
        s
    } else {
        pushed_all(s, ms.drop_last()).push(ms.last())
    }
}

/// Pushing meshes one after another onto an empty canvas and reading back its
/// meshes yields the same meshes, unchanged and in the order they were pushed;
/// in particular a single mesh comes back as it went in.
pub proof fn lemma_push_round_trip<C, Q>(ms: Seq<Tessellate<C, Q>>)
    ensures
        pushed_all(Seq::<Tessellate<C, Q>>::empty(), ms) == ms,
        forall|m: Tessellate<C, Q>|
            #[trigger] Seq::<Tessellate<C, Q>>::empty().push(m) == seq![m],
    decreases ms.len(),
{
    if ms.len() > 0 {
        lemma_push_round_trip(ms.drop_last());
        assert(ms.drop_last().push(ms.last()) =~= ms);
    }
    assert forall|m: Tessellate<C, Q>|
        #[trigger] Seq::<Tessellate<C, Q>>::empty().push(m) == seq![m] by {
        assert(Seq::<Tessellate<C, Q>>::empty().push(m) =~= seq![m]);
    }
}

/// A polyline under construction: a start point, the points added after it,
/// and the colour of the stroke that will be drawn along it.
///
/// The path is closed when it is finished: the last point joins the first.
pub struct Line<P, C> {
    points: Vec<P>,
    color: C,
}

impl<P, C> View for Line<P, C> {
    type V = (Seq<P>, C);

    closed spec fn view(&self) -> (Seq<P>, C) {
        (self.points@, self.color)
    }
}

impl<P, C> Line<P, C> {
    /// A line holds at least its start point.
    pub open spec fn wf(&self) -> bool {
        self@.0.len() >= 1
    }

    /// Begins a path at `point`, to be stroked in `color`.
    pub fn start(point: P, color: C) -> (r: Line<P, C>)
        ensures
            r@ == (seq![point], color),
            r.wf(),
    {
        let mut points: Vec<P> = Vec::new();
        points.push(point);
        let r = Line { points, color };
        assert(r@.0 =~= seq![point]);
        r
    }

    /// Adds a segment from the last point to `point`.
    pub fn to(&mut self, point: P)
        requires
            old(self).wf(),
        ensures
            final(self)@ == (old(self)@.0.push(point), old(self)@.1),
            final(self).wf(),
    {
        self.points.push(point);
    }

    /// The points of the path, start point first.
    pub fn points(&self) -> (r: &Vec<P>)
        requires
            self.wf(),
        ensures
            r@ == self@.0,
            r@.len() >= 1,
    {
        &self.points
    }

    /// The colour of the stroke.
    pub fn color(&self) -> (r: &C)
        ensures
            *r == self@.1,
    {
        &self.color
    }

    /// Finishes the path with what the stroke tessellator emitted for its
    /// closed outline, and draws the resulting mesh onto `canvas`.
    ///
    /// On an error the canvas is left as it was.
    pub fn end<Q: Copy>(self, positions: Vec<Q>, indices: Vec<u16>, canvas: &mut Canvas<C, Q>) -> (r:
        Result<(), MeshError>) where C: Copy
        ensures
            r is Ok <==> is_triangle_list(indices@, positions@.len()),
            indices@.len() % 3 != 0 ==> r == Err::<(), MeshError>(MeshError::NotTriangleList),
            indices@.len() % 3 == 0 && !indices_in_range(indices@, positions@.len()) ==> r == Err::<
                (),
                MeshError,
            >(MeshError::IndexOutOfRange),
            r is Err ==> final(canvas).tessellates@ == old(canvas).tessellates@,
            r is Ok ==> {
                &&& final(canvas).tessellates@.len() == old(canvas).tessellates@.len() + 1
                &&& final(canvas).tessellates@.drop_last() == old(canvas).tessellates@
                &&& is_assembly_of(final(canvas).tessellates@.last(), self@.1, positions@, indices@)
                &&& final(canvas).tessellates@.last().wf()
            },
    {
        match assemble(self.color, positions, indices) {
            Ok(m) => {
                canvas.push(m);
                assert(canvas.tessellates@.drop_last() =~= old(canvas).tessellates@);
                Ok(())
            },
            Err(e) => Err(e),
        }
    }
}

} // verus!
