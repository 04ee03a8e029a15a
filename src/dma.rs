//! DMA control blocks: the hardware's transfer descriptors.
//!
//! A control block is eight 32-bit words that must start on a 32-byte
//! boundary: transfer information, source, destination, length, 2-D stride,
//! next control block, and two reserved words.

use vstd::prelude::*;

use crate::bus::{bus_address, bus_alias};

verus! {

/// Size in bytes of one control block.
pub const CONTROL_BLOCK_SIZE: usize = 8 * 4;

/// Number of 32-bit words in one control block.
pub const CONTROL_BLOCK_WORDS: usize = 8;

/// Largest linear transfer length plus one (the field has 30 bits).
pub const LINEAR_LENGTH_LIMIT: u32 = 0x4000_0000;

/// Largest value of the 14-bit row field of a 2-D transfer, which holds the
/// number of rows minus one.
pub const MAX_2D_ROW_FIELD: u16 = 0x3FFF;

/// How much a transfer moves.
#[derive(Debug, Copy, Clone, PartialEq, Eq, Structural)]
pub enum TransferLength {
    /// A linear transfer of this many bytes.
    ModeLinear(u32),
    /// A 2-D transfer: bytes per row, and the row field, which the hardware
    /// reads as the number of rows minus one (0 for a single row).
    Mode2D(u16, u16),
}

/// The settings of one transfer, as encoded into the transfer-information word.
#[derive(Debug, Copy, Clone, PartialEq, Eq, Structural)]
pub struct ControlBlockConfig {
    pub int_enable: bool,
    pub transfer_length: TransferLength,
    pub wait_for_resp: bool,
    pub dest_inc: bool,
    pub dest_width_128: bool,
    pub dest_dreq: bool,
    pub dest_ignore: bool,
    pub src_inc: bool,
    pub src_width_128: bool,
    pub src_dreq: bool,
    pub src_ignore: bool,
    pub burst_length: u8,
    pub peripheral_map: u8,
    pub waits: u8,
    pub no_wide_bursts: bool,
}

impl ControlBlockConfig {
    /// Every field fits the bits the hardware gives it.
    pub open spec fn valid(&self) -> bool {
        &&& self.burst_length <= 0xF
        &&& self.peripheral_map <= 0x1F
        &&& self.waits <= 0x1F
        &&& match self.transfer_length {
            TransferLength::ModeLinear(len) => len < LINEAR_LENGTH_LIMIT,
            TransferLength::Mode2D(_, y) => y <= MAX_2D_ROW_FIELD,
        }
    }

    pub open spec fn is_2d(&self) -> bool {
        self.transfer_length is Mode2D
    }
}

impl Default for ControlBlockConfig {
    /// All flags off, an empty linear transfer.
    fn default() -> (r: ControlBlockConfig)
        ensures
            r == (ControlBlockConfig {
                int_enable: false,
                transfer_length: TransferLength::ModeLinear(0),
                wait_for_resp: false,
                dest_inc: false,
                dest_width_128: false,
                dest_dreq: false,
                dest_ignore: false,
                src_inc: false,
                src_width_128: false,
                src_dreq: false,
                src_ignore: false,
                burst_length: 0,
                peripheral_map: 0,
                waits: 0,
                no_wide_bursts: false,
            }),
    {
        ControlBlockConfig {
            int_enable: false,
            transfer_length: TransferLength::ModeLinear(0),
            wait_for_resp: false,
            dest_inc: false,
            dest_width_128: false,
            dest_dreq: false,
            dest_ignore: false,
            src_inc: false,
            src_width_128: false,
            src_dreq: false,
            src_ignore: false,
            burst_length: 0,
            peripheral_map: 0,
            waits: 0,
            no_wide_bursts: false,
        }
    }
}

/// `mask` when `b` holds, else nothing.
pub open spec fn flag(b: bool, mask: u32) -> u32 {
    if b {
        mask
    } else {
        0
    }
}

/// The transfer-information word: bit 0 interrupt enable, bit 1 2-D mode,
/// bit 3 wait for response, bits 4-7 destination increment / 128-bit width /
/// DREQ / ignore, bits 8-11 the same for the source, bits 12-15 burst length,
/// bits 16-20 peripheral map, bits 21-25 wait states, bit 26 no wide bursts.
pub open spec fn info_word(c: ControlBlockConfig) -> u32 {
    flag(c.int_enable, 0x1) | flag(c.is_2d(), 0x2) | flag(c.wait_for_resp, 0x8) | flag(
        c.dest_inc,
        0x10,
    ) | flag(c.dest_width_128, 0x20) | flag(c.dest_dreq, 0x40) | flag(c.dest_ignore, 0x80) | flag(
        c.src_inc,
        0x100,
    ) | flag(c.src_width_128, 0x200) | flag(c.src_dreq, 0x400) | flag(c.src_ignore, 0x800) | (((
    c.burst_length as u32) & 0xF) << 12u32) | (((c.peripheral_map as u32) & 0x1F) << 16u32) | (((
    c.waits as u32) & 0x1F) << 21u32) | flag(c.no_wide_bursts, 0x400_0000)
}

/// The length word of a linear transfer: the low 30 bits of the byte count.
pub open spec fn linear_length_word(len: u32) -> u32 {
    len & 0x3FFF_FFFF
}

/// The length word of a 2-D transfer: row bytes in bits 0-15, and the row
/// field (rows minus one) in bits 16-29.
pub open spec fn length_2d_word(row_bytes: u16, y: u16) -> u32 {
    row_bytes as u32 | (((y as u32) & 0x3FFF) << 16u32)
}

/// The stride word: source adjustment in the low half, destination in the high half.
pub open spec fn stride_word(src_stride: u16, dst_stride: u16) -> u32 {
    src_stride as u32 | ((dst_stride as u32) << 16u32)
}

/// The length word for a transfer length.
pub open spec fn length_word(tl: TransferLength) -> u32 {
    match tl {
        TransferLength::ModeLinear(len) => linear_length_word(len),
        TransferLength::Mode2D(x, y) => length_2d_word(x, y),
    }
}

/// Whether `mask` has a bit set in `w`.
pub open spec fn any_set(w: u32, mask: u32) -> bool {
    w & mask != 0
}

/// The configuration that an information word and a length word describe.
pub open spec fn decode_config(info: u32, length: u32) -> ControlBlockConfig {
    ControlBlockConfig {
        int_enable: any_set(info, 0x1),
        transfer_length: if any_set(info, 0x2) {
            TransferLength::Mode2D(
                (length & 0xFFFF) as u16,
                ((length >> 16u32) & 0x3FFF) as u16,
            )
        } else {
            TransferLength::ModeLinear(length & 0x3FFF_FFFF)
        },
        wait_for_resp: any_set(info, 0x8),
        dest_inc: any_set(info, 0x10),
        dest_width_128: any_set(info, 0x20),
        dest_dreq: any_set(info, 0x40),
        dest_ignore: any_set(info, 0x80),
        src_inc: any_set(info, 0x100),
        src_width_128: any_set(info, 0x200),
        src_dreq: any_set(info, 0x400),
        src_ignore: any_set(info, 0x800),
        burst_length: ((info >> 12u32) & 0xF) as u8,
        peripheral_map: ((info >> 16u32) & 0x1F) as u8,
        waits: ((info >> 21u32) & 0x1F) as u8,
        no_wide_bursts: any_set(info, 0x400_0000),
    }
}

fn flag_exec(b: bool, mask: u32) -> (r: u32)
    ensures
        r == flag(b, mask),
{
    if b {
        mask
    } else {
        0
    }
}

impl From<&ControlBlockConfig> for u32 {
    /// Encodes the transfer-information word.
    fn from(c: &ControlBlockConfig) -> (r: u32)
        ensures
            r == info_word(*c),
    {
        let two_d = match c.transfer_length {
            TransferLength::Mode2D(_, _) => true,
            TransferLength::ModeLinear(_) => false,
        };
        flag_exec(c.int_enable, 0x1) | flag_exec(two_d, 0x2) | flag_exec(c.wait_for_resp, 0x8)
            | flag_exec(c.dest_inc, 0x10) | flag_exec(c.dest_width_128, 0x20) | flag_exec(
            c.dest_dreq,
            0x40,
        ) | flag_exec(c.dest_ignore, 0x80) | flag_exec(c.src_inc, 0x100) | flag_exec(
            c.src_width_128,
            0x200,
        ) | flag_exec(c.src_dreq, 0x400) | flag_exec(c.src_ignore, 0x800) | (((
        c.burst_length as u32) & 0xF) << 12u32) | (((c.peripheral_map as u32) & 0x1F) << 16u32)
            | (((c.waits as u32) & 0x1F) << 21u32) | flag_exec(c.no_wide_bursts, 0x400_0000)
    }
}

impl vstd::std_specs::convert::FromSpecImpl<&ControlBlockConfig> for u32 {
    open spec fn obeys_from_spec() -> bool {
        true
    }

    open spec fn from_spec(c: &ControlBlockConfig) -> u32 {
        info_word(*c)
    }
}

/// One transfer descriptor. Its binary layout, as `store` writes it, is the
/// eight words {info, src, dst, length, stride, next, 0, 0}.
#[derive(Debug, Copy, Clone, PartialEq, Eq, Structural)]
pub struct ControlBlock {
    /// Transfer information
    pub info: u32,
    /// Source bus address
    pub src: u32,
    /// Destination bus address
    pub dst: u32,
    /// Transfer length
    pub length: u32,
    /// 2-D mode stride
    pub stride: u32,
    /// Bus address of the next control block, 0 to end the chain
    pub next: u32,
}

impl ControlBlock {
    pub open spec fn is_zeroed(&self) -> bool {
        &&& self.info == 0
        &&& self.src == 0
        &&& self.dst == 0
        &&& self.length == 0
        &&& self.stride == 0
        &&& self.next == 0
    }

    /// The eight words the hardware reads.
    pub open spec fn layout(&self) -> Seq<u32> {
        seq![self.info, self.src, self.dst, self.length, self.stride, self.next, 0u32, 0u32]
    }

    /// What `config` leaves in a control block.
    pub open spec fn configured(
        c: ControlBlockConfig,
        src: u32,
        dst: u32,
        src_stride: u16,
        dst_stride: u16,
        next: u32,
    ) -> ControlBlock {
        ControlBlock {
            info: info_word(c),
            src: bus_alias(src),
            dst: bus_alias(dst),
            length: length_word(c.transfer_length),
            stride: if c.is_2d() {
                stride_word(src_stride, dst_stride)
            } else {
                0
            },
            next,
        }
    }

    /// A control block with every word zero.
    pub fn new() -> (r: ControlBlock)
        ensures
            r.is_zeroed(),
    {
        ControlBlock { info: 0, src: 0, dst: 0, length: 0, stride: 0, next: 0 }
    }

    /// Zeroes every word, the link to a next block included, so that a stale
    /// block cannot pass for part of a chain.
    pub fn init(&mut self)
        ensures
            final(self).is_zeroed(),
    {
        self.info = 0;
        self.src = 0;
        self.dst = 0;
        self.length = 0;
        self.stride = 0;
        self.next = 0;
    }

    /// Overwrites the block with a transfer from physical address `src` to
    /// physical address `dst`; both are turned into bus addresses. The
    /// strides are only used in 2-D mode.
    pub fn config(
        &mut self,
        config: &ControlBlockConfig,
        src: u32,
        dst: u32,
        src_stride: u16,
        dst_stride: u16,
        next: u32,
    )
        requires
            config.valid(),
        ensures
            *final(self) == ControlBlock::configured(*config, src, dst, src_stride, dst_stride, next),
    {
        self.info = u32::from(config);
        self.src = bus_address(src);
        self.dst = bus_address(dst);
        match config.transfer_length {
            TransferLength::ModeLinear(l) => {
                self.set_length(l);
                self.stride = 0;
            },
            TransferLength::Mode2D(x, y) => {
                self.set_2d_mode_length(x, y);
                self.set_stride(src_stride, dst_stride);
            },
        }
        self.next = next;
    }

    /// Sets a 2-D length of rows of `x_len` bytes. `y_len` is stored as it
    /// is: the hardware reads it as the number of rows minus one, so a
    /// transfer of `H` rows passes `H - 1`.
    pub fn set_2d_mode_length(&mut self, x_len: u16, y_len: u16)
        requires
            y_len <= MAX_2D_ROW_FIELD,
        ensures
            *final(self) == (ControlBlock { length: length_2d_word(x_len, y_len), ..*old(self) }),
    {
        self.length = x_len as u32 | ((y_len as u32) & 0x3FFF) << 16;
    }

    /// Sets a linear length, keeping the 30 bits the field has.
    pub fn set_length(&mut self, len: u32)
        ensures
            *final(self) == (ControlBlock { length: linear_length_word(len), ..*old(self) }),
    {
        self.length = len & 0x3FFF_FFFF;
    }

    /// Sets the 2-D strides: signed byte adjustments, in two's complement,
    /// applied after each row to the source and to the destination address.
    pub fn set_stride(&mut self, src_stride: u16, dst_stride: u16)
        ensures
            *final(self) == (ControlBlock { stride: stride_word(src_stride, dst_stride), ..*old(self) }),
    {
        self.stride = src_stride as u32 | (dst_stride as u32) << 16;
    }

    /// The configuration that the information and length words describe.
    pub fn decoded_config(&self) -> (r: ControlBlockConfig)
        ensures
            r == decode_config(self.info, self.length),
    {
        let info = self.info;
        let length = self.length;
        let x = length & 0xFFFF;
        let row_field = (length >> 16) & 0x3FFF;
        let burst = (info >> 12) & 0xF;
        let permap = (info >> 16) & 0x1F;
        let waits = (info >> 21) & 0x1F;
        assert(x <= 0xFFFF && row_field <= 0x3FFF) by (bit_vector)
            requires
                x == length & 0xFFFF,
                row_field == (length >> 16) & 0x3FFF,
        ;
        assert(burst <= 0xF && permap <= 0x1F && waits <= 0x1F) by (bit_vector)
            requires
                burst == (info >> 12) & 0xF,
                permap == (info >> 16) & 0x1F,
                waits == (info >> 21) & 0x1F,
        ;
        ControlBlockConfig {
            int_enable: info & 0x1 != 0,
            transfer_length: if info & 0x2 != 0 {
                TransferLength::Mode2D(x as u16, row_field as u16)
            } else {
                TransferLength::ModeLinear(length & 0x3FFF_FFFF)
            },
            wait_for_resp: info & 0x8 != 0,
            dest_inc: info & 0x10 != 0,
            dest_width_128: info & 0x20 != 0,
            dest_dreq: info & 0x40 != 0,
            dest_ignore: info & 0x80 != 0,
            src_inc: info & 0x100 != 0,
            src_width_128: info & 0x200 != 0,
            src_dreq: info & 0x400 != 0,
            src_ignore: info & 0x800 != 0,
            burst_length: burst as u8,
            peripheral_map: permap as u8,
            waits: waits as u8,
            no_wide_bursts: info & 0x400_0000 != 0,
        }
    }

    /// Writes the block's eight words to the start of `words`.
    pub fn store(&self, words: &mut [u32])
        requires
            old(words)@.len() >= CONTROL_BLOCK_WORDS,
        ensures
            final(words)@.len() == old(words)@.len(),
            final(words)@.subrange(0, 8) == self.layout(),
            final(words)@.subrange(8, final(words)@.len() as int) == old(words)@.subrange(
                8,
                old(words)@.len() as int,
            ),
    {
        words[0] = self.info;
        words[1] = self.src;
        words[2] = self.dst;
        words[3] = self.length;
        words[4] = self.stride;
        words[5] = self.next;
        words[6] = 0;
        words[7] = 0;
        assert(words@.subrange(0, 8) =~= self.layout());
        assert(words@.subrange(8, words@.len() as int) =~= old(words)@.subrange(
            8,
            old(words)@.len() as int,
        ));
    }
}

/// A 16-bit two's complement value.
pub open spec fn signed16(v: u32) -> int {
    if v < 0x8000 {
        v as int
    } else {
        v - 0x1_0000
    }
}

/// Rows that a 2-D transfer moves.
pub open spec fn rows_of(cb: ControlBlock) -> int {
    ((cb.length >> 16u32) & 0x3FFF) + 1
}

/// Bytes per row of a 2-D transfer.
pub open spec fn row_bytes_of(cb: ControlBlock) -> int {
    (cb.length & 0xFFFF) as int
}

/// In a 2-D transfer with an incrementing source, the bus address that byte
/// `b` of row `row` is read from: each row advances by its bytes and then
/// by the signed source stride.
pub open spec fn source_byte_address(cb: ControlBlock, row: int, b: int) -> int {
    cb.src + row * (row_bytes_of(cb) + signed16(cb.stride & 0xFFFF)) + b
}

/// In a 2-D transfer with an incrementing destination, the bus address that
/// byte `b` of row `row` is written to.
pub open spec fn dest_byte_address(cb: ControlBlock, row: int, b: int) -> int {
    cb.dst + row * (row_bytes_of(cb) + signed16(cb.stride >> 16u32)) + b
}

/// The 2-D length word keeps the row bytes in its low half and the row
/// field in bits 16-29, as given: a transfer of `H` rows, passed as `H - 1`,
/// has `H - 1` stored there, and a single row 0.
pub proof fn lemma_2d_length_fields(row_bytes: u16, y: u16)
    requires
        y <= MAX_2D_ROW_FIELD,
    ensures
        (length_2d_word(row_bytes, y) >> 16u32) & 0x3FFF == y,
        length_2d_word(row_bytes, y) & 0xFFFF == row_bytes,
{
    let x = row_bytes as u32;
    let r = y as u32;
    assert(((x | ((r & 0x3FFF) << 16u32)) >> 16u32) & 0x3FFF == r && (x | ((r & 0x3FFF)
        << 16u32)) & 0xFFFF == x) by (bit_vector)
        requires
            x <= 0xFFFF,
            r <= 0x3FFF,
    ;
}

/// Decoding the words that `config` writes gives back the configuration:
/// every flag and every field, bit for bit.
pub proof fn lemma_config_round_trip(
    c: ControlBlockConfig,
    src: u32,
    dst: u32,
    src_stride: u16,
    dst_stride: u16,
    next: u32,
)
    requires
        c.valid(),
    ensures
        ({
            let cb = ControlBlock::configured(c, src, dst, src_stride, dst_stride, next);
            decode_config(cb.info, cb.length) == c
        }),
{
    let f0 = flag(c.int_enable, 0x1);
    let f1 = flag(c.is_2d(), 0x2);
    let f3 = flag(c.wait_for_resp, 0x8);
    let f4 = flag(c.dest_inc, 0x10);
    let f5 = flag(c.dest_width_128, 0x20);
    let f6 = flag(c.dest_dreq, 0x40);
    let f7 = flag(c.dest_ignore, 0x80);
    let f8 = flag(c.src_inc, 0x100);
    let f9 = flag(c.src_width_128, 0x200);
    let f10 = flag(c.src_dreq, 0x400);
    let f11 = flag(c.src_ignore, 0x800);
    let f26 = flag(c.no_wide_bursts, 0x400_0000);
    let burst = c.burst_length as u32;
    let permap = c.peripheral_map as u32;
    let waits = c.waits as u32;
    let w = info_word(c);
    assert(w == f0 | f1 | f3 | f4 | f5 | f6 | f7 | f8 | f9 | f10 | f11 | ((burst & 0xF) << 12u32)
        | ((permap & 0x1F) << 16u32) | ((waits & 0x1F) << 21u32) | f26);
    assert({
        &&& (w & 0x1 != 0) == (f0 != 0)
        &&& (w & 0x2 != 0) == (f1 != 0)
        &&& (w & 0x8 != 0) == (f3 != 0)
        &&& (w & 0x10 != 0) == (f4 != 0)
        &&& (w & 0x20 != 0) == (f5 != 0)
        &&& (w & 0x40 != 0) == (f6 != 0)
        &&& (w & 0x80 != 0) == (f7 != 0)
        &&& (w & 0x100 != 0) == (f8 != 0)
        &&& (w & 0x200 != 0) == (f9 != 0)
        &&& (w & 0x400 != 0) == (f10 != 0)
        &&& (w & 0x800 != 0) == (f11 != 0)
        &&& (w & 0x400_0000 != 0) == (f26 != 0)
        &&& (w >> 12u32) & 0xF == burst
        &&& (w >> 16u32) & 0x1F == permap
        &&& (w >> 21u32) & 0x1F == waits
    }) by (bit_vector)
        requires
            f0 == 0 || f0 == 0x1,
            f1 == 0 || f1 == 0x2,
            f3 == 0 || f3 == 0x8,
            f4 == 0 || f4 == 0x10,
            f5 == 0 || f5 == 0x20,
            f6 == 0 || f6 == 0x40,
            f7 == 0 || f7 == 0x80,
            f8 == 0 || f8 == 0x100,
            f9 == 0 || f9 == 0x200,
            f10 == 0 || f10 == 0x400,
            f11 == 0 || f11 == 0x800,
            f26 == 0 || f26 == 0x400_0000,
            burst <= 0xF,
            permap <= 0x1F,
            waits <= 0x1F,
            w == f0 | f1 | f3 | f4 | f5 | f6 | f7 | f8 | f9 | f10 | f11 | ((burst & 0xF) << 12u32)
                | ((permap & 0x1F) << 16u32) | ((waits & 0x1F) << 21u32) | f26,
    ;
    match c.transfer_length {
        TransferLength::ModeLinear(len) => {
            assert((len & 0x3FFF_FFFF) & 0x3FFF_FFFF == len) by (bit_vector)
                requires
                    len < 0x4000_0000u32,
            ;
        },
        TransferLength::Mode2D(x, rows) => {
            lemma_2d_length_fields(x, rows);
        },
    }
    let cb = ControlBlock::configured(c, src, dst, src_stride, dst_stride, next);
    assert(decode_config(cb.info, cb.length) == c);
}

} // verus!
