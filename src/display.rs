//! A double-buffered display presented through 2-D DMA transfers.
//!
//! Drawing goes to a back buffer in ordinary memory, packed row after row.
//! Swapping copies it to the front buffer, the GPU's framebuffer, whose rows
//! may be padded to a larger pitch. The control blocks for the engine live
//! in a scratchpad page next to a few fill words.
//!
//! Memory is handed in by the caller as word slices: the back buffer, the
//! fill words and the control block area, each viewed over its region.

use vstd::prelude::*;

use crate::bus::bus_alias;
use crate::channel::{Channel, DmaError, Phase, Sequence};
use crate::dma::{
    any_set, dest_byte_address, lemma_2d_length_fields, lemma_config_round_trip,
    row_bytes_of, rows_of, source_byte_address, ControlBlock, ControlBlockConfig, TransferLength,
    CONTROL_BLOCK_SIZE, CONTROL_BLOCK_WORDS,
};
use crate::mailbox_msg::PixelOrder;
use crate::pmem::{split_back, split_front, PMem, Region};

verus! {

/// Size of the scratchpad page.
pub const PAGE_SIZE_4K: usize = 4096;

/// Control blocks that fit the scratchpad page, leaving one block's worth of
/// room at its end for the fill words.
pub const NUM_CONTROL_BLOCKS: usize = 127;

/// Offset of the fill words in the scratchpad: right after the control blocks.
pub const SP_FILL_WORDS_OFFSET: usize = 4064;

/// Words the engine reads as a fill source; a 128-bit read takes four.
pub const NUM_FILL_WORDS: usize = 4;

/// Bytes per pixel, in both buffers.
pub const BYTES_PER_PIXEL: u32 = 4;

/// Most rows a 2-D transfer moves: its 14-bit row field holds rows - 1.
pub const MAX_ROWS: u32 = 0x4000;

/// Largest row padding the signed 16-bit destination stride can express.
pub const MAX_ROW_PADDING: u32 = 0x7FFF;

/// A 32-bit color: byte 0 red, byte 1 green, byte 2 blue, byte 3 unused.
#[derive(Debug, Copy, Clone, PartialEq, Eq, Structural)]
pub struct DisplayColor(pub u32);

/// The word with the red and blue bytes exchanged.
pub open spec fn swap_red_blue(w: u32) -> u32 {
    (w & 0xFF00_FF00) | ((w & 0xFF) << 16u32) | ((w >> 16u32) & 0xFF)
}

/// The word stored for color word `w` in a buffer of the given pixel order.
pub open spec fn pixel_word(order: PixelOrder, w: u32) -> u32 {
    match order {
        PixelOrder::RGB => w,
        PixelOrder::BGR => swap_red_blue(w),
    }
}

impl DisplayColor {
    /// The same color with red and blue exchanged, for BGR buffers.
    pub fn as_alt(&self) -> (r: u32)
        ensures
            r == swap_red_blue(self.0),
    {
        (self.0 & 0xFF00_FF00) | ((self.0 & 0xFF) << 16) | ((self.0 >> 16) & 0xFF)
    }
}

/// Why a display could not be set up.
#[derive(Debug, Copy, Clone, PartialEq, Eq, Structural)]
pub enum DisplayError {
    /// A lite DMA engine cannot do 2-D transfers.
    LiteChannel,
    /// Width, height or pitch is zero, the pitch is less than a row's bytes,
    /// the rows are too wide, too many or too padded for a 2-D transfer, or
    /// the front buffer is smaller than pitch x height bytes.
    InvalidGeometry,
    /// The back buffer is not exactly width x height pixels.
    BackBufferSize,
    /// The scratchpad is smaller than one 4K page.
    ScratchpadTooSmall,
}

/// Width, height and pitch that a 2-D transfer can present: rows of at most
/// 16 bits of bytes, at most 2^14 rows, and padding that a positive signed
/// 16-bit stride reaches.
pub open spec fn geometry_ok(width: u32, height: u32, pitch: u32) -> bool {
    &&& 1 <= width
    &&& width * 4 <= 0xFFFF
    &&& 1 <= height <= MAX_ROWS
    &&& width * 4 <= pitch
    &&& pitch - width * 4 <= MAX_ROW_PADDING
}

/// A geometry that a 2-D transfer can present, on a front buffer of
/// `front_size` bytes that holds `height` rows of `pitch` bytes.
pub open spec fn frame_ok(width: u32, height: u32, pitch: u32, front_size: nat) -> bool {
    geometry_ok(width, height, pitch) && front_size >= pitch * height
}

/// The mathematical content of a display.
pub ghost struct Surface {
    pub width: nat,
    pub height: nat,
    pub pitch: nat,
    pub pixel_order: PixelOrder,
    pub control_blocks: Region,
    pub fill_words: Region,
    pub framebuffer: Region,
    pub backbuffer: Region,
}

/// What a DMA transfer of the display does.
#[derive(Debug, Copy, Clone, PartialEq, Eq, Structural)]
enum TransferOp {
    /// Fill the front buffer with the fill words
    FillFront,
    /// Copy the back buffer to the front buffer
    CopyBackToFront,
}

#[derive(Debug)]
pub struct Display {
    width: u32,
    height: u32,
    pitch: u32,
    pixel_order: PixelOrder,
    /// Control blocks and fill words are split from the scratchpad
    control_blocks: PMem,
    fill_words: PMem,
    /// The front buffer
    framebuffer: PMem,
    backbuffer: PMem,
}

impl View for Display {
    type V = Surface;

    closed spec fn view(&self) -> Surface {
        Surface {
            width: self.width as nat,
            height: self.height as nat,
            pitch: self.pitch as nat,
            pixel_order: self.pixel_order,
            control_blocks: self.control_blocks@,
            fill_words: self.fill_words@,
            framebuffer: self.framebuffer@,
            backbuffer: self.backbuffer@,
        }
    }
}

/// The configuration of the 2-D transfer that presents or fills a frame:
/// rows of width x 4 bytes, `height` rows (stored as `height - 1`), incrementing 128-bit writes with
/// bursts of 4, waiting for write responses. Only a copy increments its source.
pub open spec fn frame_config(s: Surface, src_inc: bool) -> ControlBlockConfig {
    ControlBlockConfig {
        int_enable: false,
        transfer_length: TransferLength::Mode2D((s.width * 4) as u16, (s.height - 1) as u16),
        wait_for_resp: true,
        dest_inc: true,
        dest_width_128: true,
        dest_dreq: false,
        dest_ignore: false,
        src_inc,
        src_width_128: true,
        src_dreq: false,
        src_ignore: false,
        burst_length: 4,
        peripheral_map: 0,
        waits: 0,
        no_wide_bursts: false,
    }
}

/// The control block that copies the back buffer to the front buffer: the
/// source is packed, the destination skips each row's padding.
pub open spec fn swap_block(s: Surface) -> ControlBlock {
    ControlBlock::configured(
        frame_config(s, true),
        s.backbuffer.paddr as u32,
        s.framebuffer.paddr as u32,
        0,
        (s.pitch - s.width * 4) as u16,
        0,
    )
}

/// The control block that fills the front buffer with the fill words.
pub open spec fn fill_front_block(s: Surface) -> ControlBlock {
    ControlBlock::configured(
        frame_config(s, false),
        s.fill_words.paddr as u32,
        s.framebuffer.paddr as u32,
        0,
        (s.pitch - s.width * 4) as u16,
        0,
    )
}

/// The sequence that runs the block at the start of the control block area.
pub open spec fn transfer_sequence(s: Surface, max_polls: u64) -> Sequence {
    Sequence {
        phase: Phase::AwaitIdle,
        control_block: bus_alias(s.control_blocks.paddr as u32),
        polls_left: max_polls,
    }
}

/// Whether the control block area starts on a 32-byte boundary.
pub open spec fn blocks_aligned(s: Surface) -> bool {
    s.control_blocks.paddr % 32 == 0
}

/// The words after running a transfer set up at the start of the control
/// block area: the block's layout, then the other blocks untouched.
pub open spec fn with_block(old_words: Seq<u32>, cb: ControlBlock) -> Seq<u32> {
    cb.layout() + old_words.subrange(8, old_words.len() as int)
}

impl Display {
    pub open spec fn wf(&self) -> bool {
        &&& geometry_ok(self@.width as u32, self@.height as u32, self@.pitch as u32)
        &&& self@.width <= u32::MAX && self@.height <= u32::MAX && self@.pitch <= u32::MAX
        &&& self@.backbuffer.size == self@.width * self@.height * 4
        &&& self@.framebuffer.size >= self@.pitch * self@.height
        &&& self@.control_blocks.size == NUM_CONTROL_BLOCKS * CONTROL_BLOCK_SIZE
        &&& self@.fill_words.size == NUM_FILL_WORDS * 4
        &&& self@.control_blocks.fits()
        &&& self@.fill_words.fits()
        &&& self@.framebuffer.fits()
        &&& self@.backbuffer.fits()
    }

    /// Pixels in the back buffer.
    pub open spec fn pixel_count(&self) -> nat {
        self@.width * self@.height
    }
}

impl Display {
    /// Sets up a display over its buffers. The scratchpad must be at least
    /// one 4K page: its start holds the control blocks, whose words are
    /// `blocks`, and the fill words follow them. Every control block is
    /// zeroed, so that none can pass for part of a chain; on an error
    /// nothing is written.
    pub fn new(
        dma: &Channel,
        width: u32,
        height: u32,
        pitch: u32,
        pixel_order: PixelOrder,
        scratchpad: PMem,
        framebuffer: PMem,
        backbuffer: PMem,
        blocks: &mut [u32],
    ) -> (r: Result<Self, DisplayError>)
        requires
            scratchpad.wf(),
            framebuffer.wf(),
            backbuffer.wf(),
            old(blocks)@.len() == NUM_CONTROL_BLOCKS * CONTROL_BLOCK_WORDS,
        ensures
            dma.has_lite() ==> r == Err::<Self, DisplayError>(DisplayError::LiteChannel),
            !dma.has_lite() && !frame_ok(width, height, pitch, framebuffer@.size) ==> r == Err::<
                Self,
                DisplayError,
            >(DisplayError::InvalidGeometry),
            !dma.has_lite() && frame_ok(width, height, pitch, framebuffer@.size) && backbuffer@.size
                != width * height * 4 ==> r == Err::<Self, DisplayError>(DisplayError::BackBufferSize),
            !dma.has_lite() && frame_ok(width, height, pitch, framebuffer@.size) && backbuffer@.size
                == width * height * 4 && scratchpad@.size < PAGE_SIZE_4K ==> r == Err::<
                Self,
                DisplayError,
            >(DisplayError::ScratchpadTooSmall),
            r is Ok <==> !dma.has_lite() && frame_ok(width, height, pitch, framebuffer@.size)
                && backbuffer@.size == width * height * 4 && scratchpad@.size >= PAGE_SIZE_4K,
            r matches Ok(d) ==> {
                &&& d.wf()
                &&& d@ == Surface {
                    width: width as nat,
                    height: height as nat,
                    pitch: pitch as nat,
                    pixel_order,
                    control_blocks: split_front(scratchpad@, SP_FILL_WORDS_OFFSET as nat),
                    fill_words: Region {
                        size: (NUM_FILL_WORDS * 4) as nat,
                        ..split_back(scratchpad@, SP_FILL_WORDS_OFFSET as nat)
                    },
                    framebuffer: framebuffer@,
                    backbuffer: backbuffer@,
                }
            },
            r is Ok ==> final(blocks)@.len() == old(blocks)@.len() && all_words(final(blocks)@, 0),
            r is Err ==> final(blocks)@ == old(blocks)@,
    {
        if dma.is_lite() {
            return Err(DisplayError::LiteChannel);
        }
        if width == 0 || width > 0x3FFF || height == 0 || height > MAX_ROWS || pitch < width
            * BYTES_PER_PIXEL || pitch - width * BYTES_PER_PIXEL > MAX_ROW_PADDING {
            return Err(DisplayError::InvalidGeometry);
        }
        proof {
            assert(width * height <= 0x3FFF * 0x4000) by (nonlinear_arith)
                requires
                    width <= 0x3FFF,
                    height <= 0x4000,
            ;
            assert(pitch * height <= 0x1_8000 * 0x4000) by (nonlinear_arith)
                requires
                    pitch <= 0x1_8000,
                    height <= 0x4000,
            ;
        }
        if framebuffer.size() < pitch as usize * height as usize {
            return Err(DisplayError::InvalidGeometry);
        }
        let pixels = width as usize * height as usize;
        if backbuffer.size() / 4 != pixels || backbuffer.size() % 4 != 0 {
            return Err(DisplayError::BackBufferSize);
        }
        if scratchpad.size() < PAGE_SIZE_4K {
            return Err(DisplayError::ScratchpadTooSmall);
        }
        let mut fill_words = scratchpad;
        let control_blocks = fill_words.split(SP_FILL_WORDS_OFFSET);
        fill_words.reduce_to(NUM_FILL_WORDS * 4);
        zero_control_blocks(blocks);
        Ok(
            Display {
                width,
                height,
                pitch,
                pixel_order,
                control_blocks,
                fill_words,
                framebuffer,
                backbuffer,
            },
        )
    }
}

/// Zero is black in either pixel order.
proof fn lemma_black_either_order(order: PixelOrder)
    ensures
        pixel_word(order, 0) == 0,
{
    assert(swap_red_blue(0) == 0) by (bit_vector);
}

/// Every word of `words` is `w`.
pub open spec fn all_words(words: Seq<u32>, w: u32) -> bool {
    forall|i: int| 0 <= i < words.len() ==> words[i] == w
}

/// Zeroes every control block in the control block area, whose words are
/// `blocks`, so that none can pass for part of a chain.
fn zero_control_blocks(blocks: &mut [u32])
    requires
        old(blocks)@.len() == NUM_CONTROL_BLOCKS * CONTROL_BLOCK_WORDS,
    ensures
        final(blocks)@.len() == old(blocks)@.len(),
        all_words(final(blocks)@, 0),
{
    let n = blocks.len();
    let mut i: usize = 0;
    while i < n
        invariant
            n == blocks@.len(),
            n == NUM_CONTROL_BLOCKS * CONTROL_BLOCK_WORDS,
            i <= n,
            i % 8 == 0,
            forall|j: int| 0 <= j < i ==> blocks@[j] == 0,
        decreases n - i,
    {
        let mut k: usize = 0;
        while k < CONTROL_BLOCK_WORDS
            invariant
                n == blocks@.len(),
                i + 8 <= n,
                k <= 8,
                forall|j: int| 0 <= j < i + k ==> blocks@[j] == 0,
            decreases 8 - k,
        {
            blocks[i + k] = 0;
            k = k + 1;
        }
        i = i + CONTROL_BLOCK_WORDS;
    }
}


impl Display {
    pub fn width(&self) -> (r: u32)
        ensures
            r == self@.width,
    {
        self.width
    }

    pub fn height(&self) -> (r: u32)
        ensures
            r == self@.height,
    {
        self.height
    }

    /// The control block area.
    pub fn control_blocks(&self) -> (r: PMem)
        ensures
            r@ == self@.control_blocks,
    {
        self.control_blocks
    }

    /// The fill words.
    pub fn fill_words(&self) -> (r: PMem)
        ensures
            r@ == self@.fill_words,
    {
        self.fill_words
    }

    /// The front buffer.
    pub fn framebuffer(&self) -> (r: PMem)
        ensures
            r@ == self@.framebuffer,
    {
        self.framebuffer
    }

    /// The back buffer.
    pub fn backbuffer(&self) -> (r: PMem)
        ensures
            r@ == self@.backbuffer,
    {
        self.backbuffer
    }

    /// The color word stored for `value` in this display's pixel order.
    fn color_word(&self, value: u32) -> (r: u32)
        ensures
            r == pixel_word(self@.pixel_order, value),
    {
        match self.pixel_order {
            PixelOrder::RGB => value,
            PixelOrder::BGR => DisplayColor(value).as_alt(),
        }
    }

    /// Sets pixel (x, y) of the back buffer, whose words are `back`, to
    /// `value` (byte 0 red, 1 green, 2 blue), stored in the display's pixel
    /// order. A pixel off the surface is skipped.
    pub fn set_pixel(&self, back: &mut [u32], x: u32, y: u32, value: u32)
        requires
            self.wf(),
            old(back)@.len() == self.pixel_count(),
        ensures
            x < self@.width && y < self@.height ==> final(back)@ == old(back)@.update(
                y * self@.width + x,
                pixel_word(self@.pixel_order, value),
            ),
            !(x < self@.width && y < self@.height) ==> final(back)@ == old(back)@,
    {
        if x >= self.width || y >= self.height {
            return;
        }
        let word = self.color_word(value);
        proof {
            let (w, h) = (self.width as int, self.height as int);
            assert(y * w + x < w * h) by (nonlinear_arith)
                requires
                    0 <= x < w,
                    0 <= y < h,
            ;
        }
        // The back buffer is packed: no padding after a row.
        let offset = y as usize * self.width as usize + x as usize;
        back[offset] = word;
    }

    /// Fills the back buffer, word by word, with `color` in the display's
    /// pixel order.
    pub fn fill_pixels(&self, back: &mut [u32], color: DisplayColor)
        requires
            self.wf(),
            old(back)@.len() == self.pixel_count(),
        ensures
            final(back)@.len() == old(back)@.len(),
            all_words(final(back)@, pixel_word(self@.pixel_order, color.0)),
    {
        let word = self.color_word(color.0);
        let n = back.len();
        let mut i: usize = 0;
        while i < n
            invariant
                n == back@.len(),
                i <= n,
                forall|j: int| 0 <= j < i ==> back@[j] == word,
            decreases n - i,
        {
            back[i] = word;
            i = i + 1;
        }
    }

    /// Sets the scratchpad fill words, the source of DMA fills, to `color`.
    fn set_scratchpad_src_fill_words(&self, fill: &mut [u32], color: DisplayColor)
        requires
            old(fill)@.len() == NUM_FILL_WORDS,
        ensures
            final(fill)@.len() == NUM_FILL_WORDS,
            all_words(final(fill)@, color.0),
    {
        let mut i: usize = 0;
        while i < NUM_FILL_WORDS
            invariant
                fill@.len() == NUM_FILL_WORDS,
                i <= NUM_FILL_WORDS,
                forall|j: int| 0 <= j < i ==> fill@[j] == color.0,
            decreases NUM_FILL_WORDS - i,
        {
            fill[i] = color.0;
            i = i + 1;
        }
    }

    /// Fills the back buffer with `color`, and makes it the fill words'
    /// color too.
    pub fn fill_color(&self, back: &mut [u32], fill: &mut [u32], color: DisplayColor)
        requires
            self.wf(),
            old(back)@.len() == self.pixel_count(),
            old(fill)@.len() == NUM_FILL_WORDS,
        ensures
            final(back)@.len() == old(back)@.len(),
            all_words(final(back)@, pixel_word(self@.pixel_order, color.0)),
            final(fill)@.len() == NUM_FILL_WORDS,
            all_words(final(fill)@, color.0),
    {
        self.set_scratchpad_src_fill_words(fill, color);
        // The back buffer is filled by the CPU: a DMA fill of it is not reliable.
        self.fill_pixels(back, color);
    }

    /// Clears the back buffer and the fill words to black.
    pub fn clear_buffer(&self, back: &mut [u32], fill: &mut [u32])
        requires
            self.wf(),
            old(back)@.len() == self.pixel_count(),
            old(fill)@.len() == NUM_FILL_WORDS,
        ensures
            final(back)@.len() == old(back)@.len(),
            all_words(final(back)@, 0),
            final(fill)@.len() == NUM_FILL_WORDS,
            all_words(final(fill)@, 0),
    {
        proof {
            lemma_black_either_order(self@.pixel_order);
        }
        self.fill_color(back, fill, DisplayColor(0));
    }

    /// Sets up a transfer in the first control block of `blocks`, the words
    /// of the control block area, and returns the sequence that runs it.
    /// A misaligned control block area fails before anything is written.
    fn dma_transfer(&self, op: TransferOp, blocks: &mut [u32], max_polls: u64) -> (r: Result<
        Sequence,
        DmaError,
    >)
        requires
            self.wf(),
            old(blocks)@.len() == NUM_CONTROL_BLOCKS * CONTROL_BLOCK_WORDS,
        ensures
            blocks_aligned(self@) ==> r == Ok::<Sequence, DmaError>(
                transfer_sequence(self@, max_polls),
            ) && final(blocks)@ == with_block(
                old(blocks)@,
                match op {
                    TransferOp::FillFront => fill_front_block(self@),
                    TransferOp::CopyBackToFront => swap_block(self@),
                },
            ),
            !blocks_aligned(self@) ==> r == Err::<Sequence, DmaError>(
                DmaError::MisalignedControlBlock,
            ) && final(blocks)@ == old(blocks)@,
    {
        let cb_paddr = self.control_blocks.paddr();
        assert((cb_paddr & 0x1F != 0) == (cb_paddr % 32 != 0)) by (bit_vector);
        let seq = match Channel::start(cb_paddr, max_polls) {
            Ok(seq) => seq,
            Err(e) => return Err(e),
        };
        // Stride, in bytes, is a signed adjustment applied after each row.
        let row_bytes = self.width * BYTES_PER_PIXEL;
        let front_stride = self.pitch - row_bytes;
        let (src_inc, src_paddr) = match op {
            TransferOp::FillFront => (false, self.fill_words.paddr()),
            TransferOp::CopyBackToFront => (true, self.backbuffer.paddr()),
        };
        let config = ControlBlockConfig {
            int_enable: false,
            transfer_length: TransferLength::Mode2D(row_bytes as u16, (self.height - 1) as u16),
            wait_for_resp: true,
            dest_inc: true,
            dest_width_128: true,
            dest_dreq: false,
            dest_ignore: false,
            src_inc,
            src_width_128: true,
            src_dreq: false,
            src_ignore: false,
            burst_length: 4,
            peripheral_map: 0,
            waits: 0,
            no_wide_bursts: false,
        };
        let mut cb = ControlBlock::new();
        // Both the back buffer and the fill words are contiguous.
        cb.config(&config, src_paddr, self.framebuffer.paddr(), 0, front_stride as u16, 0);
        cb.store(blocks);
        assert(blocks@ =~= with_block(old(blocks)@, cb));
        Ok(seq)
    }

    /// Presents the back buffer: sets up the copy to the front buffer in the
    /// first control block and returns the sequence that runs it. The back
    /// buffer must be left alone until the sequence is over.
    pub fn swap_buffers(&self, blocks: &mut [u32], max_polls: u64) -> (r: Result<
        Sequence,
        DmaError,
    >)
        requires
            self.wf(),
            old(blocks)@.len() == NUM_CONTROL_BLOCKS * CONTROL_BLOCK_WORDS,
        ensures
            blocks_aligned(self@) ==> r == Ok::<Sequence, DmaError>(
                transfer_sequence(self@, max_polls),
            ) && final(blocks)@ == with_block(old(blocks)@, swap_block(self@)),
            !blocks_aligned(self@) ==> r == Err::<Sequence, DmaError>(
                DmaError::MisalignedControlBlock,
            ) && final(blocks)@ == old(blocks)@,
    {
        self.dma_transfer(TransferOp::CopyBackToFront, blocks, max_polls)
    }

    /// Fills the front buffer with `color` by DMA: sets the fill words and
    /// the fill in the first control block, and returns the sequence that
    /// runs it.
    pub fn fill_front_buffer(
        &self,
        fill: &mut [u32],
        blocks: &mut [u32],
        color: DisplayColor,
        max_polls: u64,
    ) -> (r: Result<Sequence, DmaError>)
        requires
            self.wf(),
            old(fill)@.len() == NUM_FILL_WORDS,
            old(blocks)@.len() == NUM_CONTROL_BLOCKS * CONTROL_BLOCK_WORDS,
        ensures
            final(fill)@.len() == NUM_FILL_WORDS,
            all_words(final(fill)@, color.0),
            blocks_aligned(self@) ==> r == Ok::<Sequence, DmaError>(
                transfer_sequence(self@, max_polls),
            ) && final(blocks)@ == with_block(old(blocks)@, fill_front_block(self@)),
            !blocks_aligned(self@) ==> r == Err::<Sequence, DmaError>(
                DmaError::MisalignedControlBlock,
            ) && final(blocks)@ == old(blocks)@,
    {
        self.set_scratchpad_src_fill_words(fill, color);
        self.dma_transfer(TransferOp::FillFront, blocks, max_polls)
    }

    /// Clears the back buffer to black and presents it.
    pub fn clear_screen(
        &self,
        back: &mut [u32],
        fill: &mut [u32],
        blocks: &mut [u32],
        max_polls: u64,
    ) -> (r: Result<Sequence, DmaError>)
        requires
            self.wf(),
            old(back)@.len() == self.pixel_count(),
            old(fill)@.len() == NUM_FILL_WORDS,
            old(blocks)@.len() == NUM_CONTROL_BLOCKS * CONTROL_BLOCK_WORDS,
        ensures
            final(back)@.len() == old(back)@.len(),
            all_words(final(back)@, 0),
            final(fill)@.len() == NUM_FILL_WORDS,
            all_words(final(fill)@, 0),
            blocks_aligned(self@) ==> r == Ok::<Sequence, DmaError>(
                transfer_sequence(self@, max_polls),
            ) && final(blocks)@ == with_block(old(blocks)@, swap_block(self@)),
            !blocks_aligned(self@) ==> r == Err::<Sequence, DmaError>(
                DmaError::MisalignedControlBlock,
            ) && final(blocks)@ == old(blocks)@,
    {
        self.clear_buffer(back, fill);
        self.swap_buffers(blocks, max_polls)
    }
}

/// The swap block puts every pixel in its place. It moves `height` rows of
/// `width * 4` bytes in 2-D mode, incrementing both sides, and pixel (x, y),
/// which is read from byte `4 * (y * width + x)` of the packed back buffer,
/// is written to byte `y * pitch + 4 * x` of the front buffer.
pub proof fn lemma_swap_places_pixels(d: Display, x: nat, y: nat)
    requires
        d.wf(),
        x < d@.width,
        y < d@.height,
    ensures
        ({
            let s = d@;
            let cb = swap_block(s);
            &&& any_set(cb.info, 0x2)
            &&& any_set(cb.info, 0x100)
            &&& any_set(cb.info, 0x10)
            &&& rows_of(cb) == s.height
            &&& row_bytes_of(cb) == s.width * 4
            &&& source_byte_address(cb, y as int, 4 * x as int) == bus_alias(s.backbuffer.paddr as u32) + 4
                * (y * s.width + x)
            &&& dest_byte_address(cb, y as int, 4 * x as int) == bus_alias(s.framebuffer.paddr as u32) + y
                * s.pitch + 4 * x
        }),
{
    let s = d@;
    let cb = swap_block(s);
    let config = frame_config(s, true);
    let padding = (s.pitch - s.width * 4) as u16;
    lemma_config_round_trip(config, s.backbuffer.paddr as u32, s.framebuffer.paddr as u32, 0, padding, 0);
    lemma_2d_length_fields((s.width * 4) as u16, (s.height - 1) as u16);
    let p = padding as u32;
    assert((0u32 | (p << 16u32)) & 0xFFFF == 0 && (0u32 | (p << 16u32)) >> 16u32 == p) by (bit_vector)
        requires
            p <= 0xFFFF,
    ;
    let (w, h, pitch) = (s.width as int, s.height as int, s.pitch as int);
    assert(y * (w * 4 + 0) + 4 * x == 4 * (y * w + x)) by (nonlinear_arith);
    assert(y * (w * 4 + (pitch - w * 4)) + 4 * x == y * pitch + 4 * x) by (nonlinear_arith);
}

/// Setting up a swap again, with nothing drawn in between, leaves the
/// control block area as one setup does: the second swap runs the same
/// block, and so copies the same bytes to the same places as the first.
pub proof fn lemma_swap_repeats(d: Display, blocks: Seq<u32>)
    requires
        d.wf(),
        blocks.len() == NUM_CONTROL_BLOCKS * CONTROL_BLOCK_WORDS,
    ensures
        with_block(with_block(blocks, swap_block(d@)), swap_block(d@)) == with_block(
            blocks,
            swap_block(d@),
        ),
{
    let once = with_block(blocks, swap_block(d@));
    assert(once.subrange(8, once.len() as int) =~= blocks.subrange(8, blocks.len() as int));
    assert(with_block(once, swap_block(d@)) =~= once);
}

/// The swap block stores the number of rows minus one in its row field:
/// `height - 1`, and 0 for a single row; the low half holds the row bytes.
pub proof fn lemma_swap_rows_stored_minus_one(d: Display)
    requires
        d.wf(),
    ensures
        (swap_block(d@).length >> 16u32) & 0x3FFF == d@.height - 1,
        d@.height == 1 ==> (swap_block(d@).length >> 16u32) & 0x3FFF == 0,
        swap_block(d@).length & 0xFFFF == d@.width * 4,
{
    lemma_2d_length_fields((d@.width * 4) as u16, (d@.height - 1) as u16);
}

} // verus!
