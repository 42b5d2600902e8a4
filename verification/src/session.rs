use vstd::prelude::*;

use crate::GridError;
use crate::grid::Color;
use crate::grid::Image;
use crate::grid::fill_color;
use crate::history::UndoQueue;

verus! {

/// One editor session for one document: a version history of grid snapshots.
/// The session owns the history; `apply_edit` is its single write path.
pub struct InternalState {
    undo_queue: UndoQueue<Image>,
}

impl InternalState {
    /// The ordered log of grid snapshots the session's history holds.
    pub closed spec fn snapshots(&self) -> Seq<Image> {
        self.undo_queue.entries()
    }

    /// The position of the current snapshot within the log.
    pub closed spec fn cursor(&self) -> int {
        self.undo_queue.cursor()
    }

    /// The snapshot the cursor points at.
    pub open spec fn current_grid(&self) -> Image {
        self.snapshots()[self.cursor()]
    }

    /// The session invariant: the cursor points at a valid entry, every
    /// recorded snapshot is a well-formed grid, and all snapshots share the
    /// dimensions the document was opened with.
    pub open spec fn wf(&self) -> bool {
        &&& 0 <= self.cursor() < self.snapshots().len()
        &&& forall|i: int|
            0 <= i < self.snapshots().len() ==> {
                &&& (#[trigger] self.snapshots()[i]).wf()
                &&& self.snapshots()[i].spec_width() == self.snapshots()[0].spec_width()
                &&& self.snapshots()[i].spec_height() == self.snapshots()[0].spec_height()
            }
    }

    /// Opens a document: creates a `width` by `height` grid filled with the
    /// default color and seeds the history with it. Rejects dimensions the
    /// grid constructor rejects.
    pub fn new(width: usize, height: usize) -> (r: Result<InternalState, GridError>)
        ensures
            r is Ok <==> 3 * (width * height) <= usize::MAX,
            r matches Ok(s) ==> {
                &&& s.wf()
                &&& s.snapshots().len() == 1
                &&& s.cursor() == 0
                &&& s.current_grid().spec_width() == width
                &&& s.current_grid().spec_height() == height
                &&& s.current_grid()@ == Seq::new((width * height) as nat, |i: int| fill_color())
            },
            r matches Err(e) ==> e == GridError::InvalidDimension,
    {
        let img = match Image::new(width, height) {
            Ok(i) => i,
            Err(e) => {
                return Err(e);
            },
        };
        Ok(InternalState { undo_queue: UndoQueue::new(img) })
    }

    /// A copy of the current grid, for rendering. The invariant guarantees
    /// the history is never empty, so this never fails.
    pub fn image(&self) -> (r: Image)
        requires
            self.wf(),
        ensures
            r.wf(),
            r@ == self.current_grid()@,
            r.spec_width() == self.current_grid().spec_width(),
            r.spec_height() == self.current_grid().spec_height(),
    {
        self.undo_queue.current()
    }

    /// The single write path: edits one cell of the current grid and records
    /// the resulting snapshot as the new current entry of the history,
    /// returning a copy of it for rendering. A rejected edit (coordinates out
    /// of bounds, or a color payload that is not exactly three channel
    /// values) leaves the session unchanged.
    pub fn apply_edit(&mut self, x: usize, y: usize, color: Vec<u8>) -> (r: Result<
        Image,
        GridError,
    >)
        requires
            old(self).wf(),
        ensures
            final(self).wf(),
            r is Ok <==> (x < old(self).current_grid().spec_width() && y < old(
                self,
            ).current_grid().spec_height() && color@.len() == 3),
            r matches Ok(img) ==> ({
                let index = y * old(self).current_grid().spec_width() + x;
                let c = (Color { r: color@[0], g: color@[1], b: color@[2] });
                &&& final(self).cursor() == old(self).cursor() + 1
                &&& final(self).snapshots().len() == old(self).cursor() + 2
                &&& forall|i: int|
                    0 <= i <= old(self).cursor() ==> final(self).snapshots()[i] == old(
                        self,
                    ).snapshots()[i]
                &&& final(self).current_grid()@ == old(self).current_grid()@.update(index, c)
                &&& final(self).current_grid().spec_width() == old(
                    self,
                ).current_grid().spec_width()
                &&& final(self).current_grid().spec_height() == old(
                    self,
                ).current_grid().spec_height()
                &&& img.wf()
                &&& img@ == final(self).current_grid()@
                &&& img.spec_width() == final(self).current_grid().spec_width()
                &&& img.spec_height() == final(self).current_grid().spec_height()
            }),
            r matches Err(e) ==> ({
                &&& *final(self) == *old(self)
                &&& e == (if x >= old(self).current_grid().spec_width() || y >= old(
                    self,
                ).current_grid().spec_height() {
                    GridError::OutOfBounds
                } else {
                    GridError::MalformedColor
                })
            }),
    {
        let cur = self.undo_queue.current();
        let edited = match cur.brush(x, y, color) {
            Ok(i) => i,
            Err(e) => {
                return Err(e);
            },
        };
        self.undo_queue.push(edited);
        let out = self.undo_queue.current();
        Ok(out)
    }
}

} // verus!
