use vstd::prelude::*;

verus! {

/// Pixels in one row of the display.
pub const DISPLAY_WIDTH: usize = 160;

/// Rows of the display.
pub const DISPLAY_HEIGHT: usize = 144;

/// Pixels of the display: `DISPLAY_WIDTH * DISPLAY_HEIGHT`.
pub const DISPLAY_CELLS: usize = 23040;

/// Bytes of one presented frame: four colour channels for each pixel.
pub const FRAME_BYTES: usize = 92160;

/// The display with every pixel off.
pub open spec fn blank_screen() -> Seq<bool> {
    Seq::new(DISPLAY_CELLS as nat, |cell: int| false)
}

/// Where the pixel at column `x` and row `y` is kept. Rows are stored one
/// after the other; both coordinates wrap round the edges of the display.
pub open spec fn cell_of(x: int, y: int) -> int {
    (y % (DISPLAY_HEIGHT as int)) * (DISPLAY_WIDTH as int) + x % (DISPLAY_WIDTH as int)
}

/// The screen after the pixel at `(x, y)` has been flipped.
pub open spec fn toggled(screen: Seq<bool>, x: int, y: int) -> Seq<bool> {
    screen.update(cell_of(x, y), !screen[cell_of(x, y)])
}

/// The screen after each pixel of `pixels` has been flipped, in order.
pub open spec fn toggled_all(screen: Seq<bool>, pixels: Seq<(int, int)>) -> Seq<bool>
    decreases pixels.len(),
{
    if pixels.len() == 0 {
        screen
    } else {
        toggled(toggled_all(screen, pixels.drop_last()), pixels.last().0, pixels.last().1)
    }
}

/// The frame that shows a screen: each pixel becomes four bytes, red, green,
/// blue and alpha. A lit pixel is white, an unlit one black; both are opaque.
pub open spec fn frame_of(screen: Seq<bool>) -> Seq<u8> {
    Seq::new(FRAME_BYTES as nat, |j: int| frame_byte(screen, j))
}

/// One byte of the frame that shows a screen.
pub open spec fn frame_byte(screen: Seq<bool>, j: int) -> u8 {
    if j % 4 == 3 || screen[j / 4] {
        0xFFu8
    } else {
        0x00u8
    }
}

/// A wrapped coordinate pair always names a cell of the display.
pub proof fn lemma_cell_in_range(x: int, y: int)
    ensures
        0 <= cell_of(x, y) < DISPLAY_CELLS,
{
}

/// The logical display: one on/off pixel per cell.
pub struct Renderer {
    display: [bool; 23040],
}

impl View for Renderer {
    type V = Seq<bool>;

    closed spec fn view(&self) -> Seq<bool> {
        self.display@
    }
}

impl Renderer {
    /// A display with every pixel off.
    pub fn new() -> (renderer: Renderer)
        ensures
            renderer@ == blank_screen(),
    {
        let renderer = Renderer { display: [false; 23040] };
        assert(renderer.display@ =~= blank_screen());
        renderer
    }

    /// The screen always has `DISPLAY_CELLS` pixels.
    pub proof fn lemma_len(&self)
        ensures
            self@.len() == DISPLAY_CELLS,
    {
    }

    /// Flips the pixel at `(x, y)`, wrapping both coordinates, and reports
    /// whether the pixel is now off, that is, whether it was lit before.
    pub fn setPixel(&mut self, x: usize, y: usize) -> (off: bool)
        ensures
            final(self)@ == toggled(old(self)@, x as int, y as int),
            off == old(self)@[cell_of(x as int, y as int)],
    {
        let mut column: usize = x;
        let mut row: usize = y;
        if column > DISPLAY_WIDTH {
            column -= DISPLAY_WIDTH;
        }
        if row > DISPLAY_HEIGHT {
            row -= DISPLAY_HEIGHT;
        }
        let cell: usize = column % DISPLAY_WIDTH + (row % DISPLAY_HEIGHT) * DISPLAY_WIDTH;
        assert(cell == cell_of(x as int, y as int));
        let lit: bool = self.display[cell];
        self.display[cell] = !lit;
        lit
    }

    /// Turns every pixel off.
    pub fn clear(&mut self)
        ensures
            final(self)@ == blank_screen(),
    {
        self.display = [false; 23040];
        assert(self.display@ =~= blank_screen());
    }

    /// Whether the pixel at `(x, y)` is lit; both coordinates wrap.
    pub fn isLit(&self, x: usize, y: usize) -> (lit: bool)
        ensures
            lit == self@[cell_of(x as int, y as int)],
    {
        let cell: usize = x % DISPLAY_WIDTH + (y % DISPLAY_HEIGHT) * DISPLAY_WIDTH;
        self.display[cell]
    }

    /// The frame to present: four bytes for each pixel, in storage order.
    pub fn render(&self) -> (frame: Vec<u8>)
        ensures
            frame@ == frame_of(self@),
    {
        let mut frame: Vec<u8> = Vec::with_capacity(FRAME_BYTES);
        let mut cell: usize = 0;
        while cell < DISPLAY_CELLS
            invariant
                cell <= DISPLAY_CELLS,
                frame@.len() == 4 * cell,
                forall|j: int| 0 <= j < 4 * cell ==> frame@[j] == frame_byte(self@, j),
            decreases DISPLAY_CELLS - cell,
        {
            let shade: u8 = if self.display[cell] { 0xFF } else { 0x00 };
            frame.push(shade);
            frame.push(shade);
            frame.push(shade);
            frame.push(0xFF);
            cell += 1;
        }
        assert(frame@ =~= frame_of(self@));
        frame
    }
}

} // verus!
