use vstd::prelude::*;

use crate::GridError;

verus! {

/// One cell's color: three independent 8-bit channels.
#[derive(Clone, Copy, Debug, PartialEq, Eq, Structural)]
pub struct Color {
    pub r: u8,
    pub g: u8,
    pub b: u8,
}

/// The color every cell of a freshly created grid holds.
pub open spec fn fill_color() -> Color {
    Color { r: 200, g: 200, b: 255 }
}

#[verifier::external_type_specification]
#[verifier::external_body]
#[verifier::reject_recursive_types(A)]
pub struct ExVector<A>(im::Vector<A>);

/// The sequence of values an `im::Vector` holds, front to back.
pub uninterp spec fn pv_contents(v: im::Vector<Color>) -> Seq<Color>;

/// Relies on `im::Vector::new`: constructs an empty vector.
#[verifier::external_body]
fn pv_new() -> (v: im::Vector<Color>)
    ensures
        pv_contents(v) == Seq::<Color>::empty(),
{
    im::Vector::new()
}

/// Relies on `im::Vector::push_back`: appends one value at the back.
#[verifier::external_body]
fn pv_push(v: &mut im::Vector<Color>, c: Color)
    ensures
        pv_contents(*final(v)) == pv_contents(*old(v)).push(c),
{
    v.push_back(c)
}

/// Relies on `im::Vector::update`: returns a new vector equal to the receiver
/// except at one in-bounds index; the receiver itself is left untouched.
#[verifier::external_body]
fn pv_update(v: &im::Vector<Color>, index: usize, c: Color) -> (r: im::Vector<Color>)
    requires
        index < pv_contents(*v).len(),
    ensures
        pv_contents(r) == pv_contents(*v).update(index as int, c),
{
    v.update(index, c)
}

/// Relies on `im::Vector`'s `Index` impl: reads the value at an in-bounds index.
#[verifier::external_body]
fn pv_get(v: &im::Vector<Color>, index: usize) -> (c: Color)
    requires
        index < pv_contents(*v).len(),
    ensures
        c == pv_contents(*v)[index as int],
{
    v[index]
}

/// Relies on `im::Vector::clone`: an O(1) copy holding the same values.
#[verifier::external_body]
fn pv_clone(v: &im::Vector<Color>) -> (r: im::Vector<Color>)
    ensures
        pv_contents(r) == pv_contents(*v),
{
    v.clone()
}

/// The channel value at position `i` of the flattened byte form: byte `i`
/// belongs to cell `i / 3` and selects, in order, its r, g or b channel.
pub open spec fn channel_at(cells: Seq<Color>, i: int) -> u8 {
    if i % 3 == 0 {
        cells[i / 3].r
    } else if i % 3 == 1 {
        cells[i / 3].g
    } else {
        cells[i / 3].b
    }
}

/// The flattened byte form of a cell sequence: three bytes per cell, in
/// row-major cell order, channels in the order r, g, b.
pub open spec fn flatten_spec(cells: Seq<Color>) -> Seq<u8> {
    Seq::new((3 * cells.len()) as nat, |i: int| channel_at(cells, i))
}

/// An immutable fixed-dimension 2-D grid of colors, stored row-major in a
/// persistent vector. An edit returns a new grid value sharing unchanged
/// structure with the receiver; the receiver is never mutated.
pub struct Image {
    width: usize,
    height: usize,
    cells: im::Vector<Color>,
}

impl View for Image {
    type V = Seq<Color>;

    closed spec fn view(&self) -> Seq<Color> {
        pv_contents(self.cells)
    }
}

impl Image {
    pub closed spec fn spec_width(&self) -> usize {
        self.width
    }

    pub closed spec fn spec_height(&self) -> usize {
        self.height
    }

    /// Every grid value that ever exists satisfies this: the cell sequence has
    /// exactly `width * height` entries, and the flattened byte form
    /// (three bytes per cell) is addressable.
    pub open spec fn wf(&self) -> bool {
        &&& self@.len() == self.spec_width() * self.spec_height()
        &&& 3 * self@.len() <= usize::MAX
    }

    /// Constructs a `width` by `height` grid with every cell set to the
    /// default fill color. Rejects dimensions whose flattened byte count
    /// cannot be addressed.
    pub fn new(width: usize, height: usize) -> (r: Result<Image, GridError>)
        ensures
            r is Ok <==> 3 * (width * height) <= usize::MAX,
            r matches Ok(img) ==> {
                &&& img.wf()
                &&& img.spec_width() == width
                &&& img.spec_height() == height
                &&& img@ == Seq::new((width * height) as nat, |i: int| fill_color())
            },
            r matches Err(e) ==> e == GridError::InvalidDimension,
    {
        let count = match width.checked_mul(height) {
            Some(c) => c,
            None => {
                return Err(GridError::InvalidDimension);
            },
        };
        if count > usize::MAX / 3 {
            return Err(GridError::InvalidDimension);
        }
        let fill = Color { r: 200, g: 200, b: 255 };
        let mut cells = pv_new();
        let mut i: usize = 0;
        while i < count
            invariant
                i <= count,
                fill == fill_color(),
                pv_contents(cells) == Seq::new(i as nat, |k: int| fill_color()),
            decreases count - i,
        {
            pv_push(&mut cells, fill);
            proof {
                assert(pv_contents(cells) =~= Seq::new((i + 1) as nat, |k: int| fill_color()));
            }
            i = i + 1;
        }
        proof {
            assert(pv_contents(cells) =~= Seq::new((width * height) as nat, |k: int| fill_color()));
        }
        Ok(Image { width, height, cells })
    }

    /// The flattened byte form of the grid: in row-major cell order, the
    /// channel triple (r, g, b) of every cell, concatenated without padding.
    pub fn cells(&self) -> (r: Vec<u8>)
        requires
            self.wf(),
        ensures
            r@ == flatten_spec(self@),
            r@.len() == 3 * self@.len(),
    {
        let count = self.width * self.height;
        let mut out: Vec<u8> = Vec::new();
        let mut i: usize = 0;
        while i < count
            invariant
                self.wf(),
                count == self@.len(),
                i <= count,
                out@.len() == 3 * i,
                forall|k: int| 0 <= k < 3 * i ==> out@[k] == channel_at(self@, k),
            decreases count - i,
        {
            let c = pv_get(&self.cells, i);
            out.push(c.r);
            out.push(c.g);
            out.push(c.b);
            proof {
                assert(forall|k: int|
                    3 * i <= k < 3 * (i + 1) ==> out@[k] == channel_at(self@, k));
            }
            i = i + 1;
        }
        proof {
            assert(out@ =~= flatten_spec(self@));
        }
        out
    }

    /// Returns a new grid identical to the receiver except that the cell at
    /// in-bounds coordinates `(x, y)` is replaced by the given channel triple.
    /// The receiver is left observably unchanged. Coordinates outside the grid
    /// are rejected with `OutOfBounds`; a payload that is not exactly three
    /// channel values is rejected with `MalformedColor`.
    pub fn brush(&self, x: usize, y: usize, color: Vec<u8>) -> (r: Result<Image, GridError>)
        requires
            self.wf(),
        ensures
            r is Ok <==> (x < self.spec_width() && y < self.spec_height() && color@.len() == 3),
            r matches Ok(img) ==> ({
                let index = y * self.spec_width() + x;
                &&& img.wf()
                &&& img.spec_width() == self.spec_width()
                &&& img.spec_height() == self.spec_height()
                &&& img@ == self@.update(index, (Color { r: color@[0], g: color@[1], b: color@[2] }))
                &&& img@[index] == (Color { r: color@[0], g: color@[1], b: color@[2] })
                &&& forall|i: int| 0 <= i < self@.len() && i != index ==> img@[i] == self@[i]
            }),
            r matches Err(e) ==> e == (if x >= self.spec_width() || y >= self.spec_height() {
                GridError::OutOfBounds
            } else {
                GridError::MalformedColor
            }),
    {
        if x >= self.width || y >= self.height {
            return Err(GridError::OutOfBounds);
        }
        if color.len() != 3 {
            return Err(GridError::MalformedColor);
        }
        proof {
            assert(y * self.spec_width() + x < self.spec_width() * self.spec_height())
                by (nonlinear_arith)
                requires
                    x < self.spec_width(),
                    y < self.spec_height(),
            ;
        }
        let index = y * self.width + x;
        let c = Color { r: color[0], g: color[1], b: color[2] };
        let new_cells = pv_update(&self.cells, index, c);
        Ok(Image { width: self.width, height: self.height, cells: new_cells })
    }

    pub fn width(&self) -> (w: usize)
        ensures
            w == self.spec_width(),
    {
        self.width
    }

    pub fn height(&self) -> (h: usize)
        ensures
            h == self.spec_height(),
    {
        self.height
    }
}

impl Clone for Image {
    /// A clone reports the same dimensions and the same cells as the original.
    fn clone(&self) -> (r: Self)
        ensures
            r.spec_width() == self.spec_width(),
            r.spec_height() == self.spec_height(),
            r@ == self@,
            self.wf() ==> r.wf(),
    {
        Image { width: self.width, height: self.height, cells: pv_clone(&self.cells) }
    }
}

/// Law: flattening a well-formed grid yields exactly three bytes per cell,
/// that is `3 * width * height` channel values.
pub proof fn lemma_flatten_length(img: Image)
    requires
        img.wf(),
    ensures
        flatten_spec(img@).len() == 3 * (img.spec_width() * img.spec_height()),
{
}

} // verus!
