use vstd::prelude::*;

verus! {

pub const VIDEO_WIDTH: usize = 64;

pub const VIDEO_HEIGHT: usize = 32;

/// Bytes per framebuffer row when each cell is presented as four bytes.
pub const PITCH: usize = 4 * VIDEO_WIDTH;

pub const VIDEO_SIZE: usize = VIDEO_HEIGHT * VIDEO_WIDTH;

/// Value of a cell that is off.
pub const PIXEL_OFF: u32 = 0;

/// Value of a cell that is on.
pub const PIXEL_ON: u32 = 0xFFFF_FFFF;

/// Every cell of `cells` is either off or on, never a partial value.
pub open spec fn is_canonical(cells: Seq<u32>) -> bool {
    forall|i: int| 0 <= i < cells.len() ==> #[trigger] cells[i] == PIXEL_OFF || cells[i] == PIXEL_ON
}

/// A framebuffer of the given size with every cell off.
pub open spec fn blank(len: nat) -> Seq<u32> {
    Seq::new(len, |i: int| PIXEL_OFF)
}

/// The 64x32 monochrome framebuffer, row-major.
pub struct Video {
    buf: [u32; VIDEO_SIZE],
}

impl View for Video {
    type V = Seq<u32>;

    closed spec fn view(&self) -> Seq<u32> {
        self.buf@
    }
}

impl Video {
    pub fn new() -> (r: Video)
        ensures
            r@ == blank(VIDEO_SIZE as nat),
    {
        let r = Video { buf: [PIXEL_OFF; VIDEO_SIZE] };
        assert(r@ =~= blank(VIDEO_SIZE as nat));
        r
    }

    /// Turns every cell off.
    pub fn clear(&mut self)
        ensures
            final(self)@ == blank(VIDEO_SIZE as nat),
    {
        let mut i: usize = 0;
        while i < VIDEO_SIZE
            invariant
                i <= VIDEO_SIZE,
                self@.len() == VIDEO_SIZE,
                forall|j: int| 0 <= j < i ==> self@[j] == PIXEL_OFF,
            decreases VIDEO_SIZE - i,
        {
            self.buf[i] = PIXEL_OFF;
            i += 1;
        }
        assert(self@ =~= blank(VIDEO_SIZE as nat));
    }

    /// All cells, row-major.
    pub fn buffer(&self) -> (r: &[u32])
        ensures
            r@ == self@,
    {
        self.buf.as_slice()
    }

    /// The cell at row `y`, column `x`.
    pub fn pixel(&mut self, y: usize, x: usize) -> (r: &mut u32)
        requires
            y < VIDEO_HEIGHT,
            x < VIDEO_WIDTH,
        ensures
            *r == old(self)@[y * VIDEO_WIDTH + x],
            final(self)@ == old(self)@.update(y * VIDEO_WIDTH + x, *final(r)),
    {
        &mut self.buf[y * VIDEO_WIDTH + x]
    }
}

} // verus!
