//! Property-channel messages of the VideoCore mailbox.
//!
//! A message is a buffer of 32-bit words: the buffer size in bytes, a
//! request code, then tags (tag id, value buffer size, request size, value
//! words), closed by the end tag. The reply comes back in the same buffer.

use vstd::prelude::*;

use crate::bus::{bus_address, bus_alias, cpu_address, cpu_of};

verus! {

/// Request code of a message.
pub const REQUEST: u32 = 0;

/// Words in a message buffer.
pub const MAILBOX_BUFFER_LEN: usize = 36;

/// Depth, in bits per pixel, that a framebuffer is requested with.
pub const FRAMEBUFFER_DEPTH: u32 = 32;

/// Property tags.
#[derive(Debug, Copy, Clone, PartialEq, Eq, Structural)]
pub enum Tag {
    Last,
    SetCursorState,
    GetSerialNum,
    GetArmMem,
    GetVcMem,
    GetTemperature,
    AllocBuffer,
    BlankScreen,
    GetPitch,
    GetPhySize,
    SetPhySize,
    SetVirtSize,
    SetDepth,
    SetPixelOrder,
    SetVirtOffset,
}

/// The tag's identifier on the wire.
pub open spec fn tag_id(t: Tag) -> u32 {
    match t {
        Tag::Last => 0,
        Tag::SetCursorState => 0x8011,
        Tag::GetSerialNum => 0x10004,
        Tag::GetArmMem => 0x10005,
        Tag::GetVcMem => 0x10006,
        Tag::GetTemperature => 0x30006,
        Tag::AllocBuffer => 0x40001,
        Tag::BlankScreen => 0x40002,
        Tag::GetPhySize => 0x40003,
        Tag::GetPitch => 0x40008,
        Tag::SetPhySize => 0x48003,
        Tag::SetVirtSize => 0x48004,
        Tag::SetDepth => 0x48005,
        Tag::SetPixelOrder => 0x48006,
        Tag::SetVirtOffset => 0x48009,
    }
}

impl From<Tag> for u32 {
    fn from(tag: Tag) -> (r: u32)
        ensures
            r == tag_id(tag),
    {
        match tag {
            Tag::Last => 0,
            Tag::SetCursorState => 0x8011,
            Tag::GetSerialNum => 0x10004,
            Tag::GetArmMem => 0x10005,
            Tag::GetVcMem => 0x10006,
            Tag::GetTemperature => 0x30006,
            Tag::AllocBuffer => 0x40001,
            Tag::BlankScreen => 0x40002,
            Tag::GetPhySize => 0x40003,
            Tag::GetPitch => 0x40008,
            Tag::SetPhySize => 0x48003,
            Tag::SetVirtSize => 0x48004,
            Tag::SetDepth => 0x48005,
            Tag::SetPixelOrder => 0x48006,
            Tag::SetVirtOffset => 0x48009,
        }
    }
}

impl vstd::std_specs::convert::FromSpecImpl<Tag> for u32 {
    open spec fn obeys_from_spec() -> bool {
        true
    }

    open spec fn from_spec(t: Tag) -> u32 {
        tag_id(t)
    }
}

/// Something that can be sent as a property message.
pub trait MailboxMsgBufferConstructor {
    /// The words of the message.
    spec fn request_words(&self) -> Seq<u32>;

    /// Writes the message to the start of `buffer`; the words after it are
    /// left as they were.
    fn construct_buffer(&self, buffer: &mut [u32; MAILBOX_BUFFER_LEN])
        ensures
            self.request_words().len() <= MAILBOX_BUFFER_LEN,
            final(buffer)@ == self.request_words() + old(buffer)@.subrange(
                self.request_words().len() as int,
                MAILBOX_BUFFER_LEN as int,
            ),
    ;
}

/// Blank or unblank the screen.
#[derive(Debug, Copy, Clone)]
pub struct BlankScreenCmd {
    pub state: bool,
}

#[derive(Debug, Copy, Clone)]
pub struct BlankScreenResp {
    pub state: bool,
}

impl MailboxMsgBufferConstructor for BlankScreenCmd {
    open spec fn request_words(&self) -> Seq<u32> {
        seq![(8 * 4) as u32, REQUEST, tag_id(Tag::BlankScreen), 8, 8, if self.state { 1 } else { 0 }, 0, tag_id(Tag::Last)]
    }

    fn construct_buffer(&self, buffer: &mut [u32; MAILBOX_BUFFER_LEN]) {
        buffer[0] = 8 * 4;
        buffer[1] = REQUEST;
        buffer[2] = Tag::BlankScreen.into();
        buffer[3] = 8;
        buffer[4] = 8;
        buffer[5] = if self.state { 1 } else { 0 };
        buffer[6] = 0;
        buffer[7] = Tag::Last.into();
        assert(buffer@ =~= self.request_words() + old(buffer)@.subrange(8, MAILBOX_BUFFER_LEN as int));
    }
}


/// Order of the color components in a framebuffer pixel.
#[derive(Debug, Copy, Clone, PartialEq, Eq, Structural)]
pub enum PixelOrder {
    BGR,
    RGB,
}

pub open spec fn pixel_order_word(po: PixelOrder) -> u32 {
    match po {
        PixelOrder::BGR => 0,
        PixelOrder::RGB => 1,
    }
}

impl From<PixelOrder> for u32 {
    fn from(po: PixelOrder) -> (r: u32)
        ensures
            r == pixel_order_word(po),
    {
        match po {
            PixelOrder::BGR => 0,
            PixelOrder::RGB => 1,
        }
    }
}

impl vstd::std_specs::convert::FromSpecImpl<PixelOrder> for u32 {
    open spec fn obeys_from_spec() -> bool {
        true
    }

    open spec fn from_spec(po: PixelOrder) -> u32 {
        pixel_order_word(po)
    }
}

impl PixelOrder {
    /// The pixel order a word stands for: 0 BGR, 1 RGB, nothing else.
    pub fn from_word(val: u32) -> (r: Option<PixelOrder>)
        ensures
            val == 0 ==> r == Some(PixelOrder::BGR),
            val == 1 ==> r == Some(PixelOrder::RGB),
            val > 1 ==> r is None,
    {
        match val {
            0 => Some(PixelOrder::BGR),
            1 => Some(PixelOrder::RGB),
            _ => None,
        }
    }
}

/// Set up a 32-bit RGB framebuffer of the given size, allocate it, and ask
/// for its pitch.
#[derive(Debug, Copy, Clone)]
pub struct FramebufferCmd {
    pub phy_width: u32,
    pub phy_height: u32,
    pub virt_width: u32,
    pub virt_height: u32,
    pub x_offset: u32,
    pub y_offset: u32,
}

/// The framebuffer that the VideoCore allocated.
#[derive(Debug, Copy, Clone)]
pub struct FramebufferResp {
    pub phy_width: u32,
    pub phy_height: u32,
    pub pitch: u32,
    pub pixel_order: PixelOrder,
    /// Bus address, with the coherency alias bits
    pub bus_paddr: u32,
    /// CPU physical address
    pub paddr: u32,
}

impl MailboxMsgBufferConstructor for FramebufferCmd {
    open spec fn request_words(&self) -> Seq<u32> {
        seq![(35 * 4) as u32, REQUEST, tag_id(Tag::SetPhySize), 8, 8, self.phy_width, self.phy_height, tag_id(Tag::SetVirtSize), 8, 8, self.virt_width, self.virt_height, tag_id(Tag::SetVirtOffset), 8, 8, self.x_offset, self.y_offset, tag_id(Tag::SetDepth), 4, 4, FRAMEBUFFER_DEPTH, tag_id(Tag::SetPixelOrder), 4, 4, pixel_order_word(PixelOrder::RGB), tag_id(Tag::AllocBuffer), 8, 8, 4096, 0, tag_id(Tag::GetPitch), 4, 4, 0, tag_id(Tag::Last)]
    }

    fn construct_buffer(&self, buffer: &mut [u32; MAILBOX_BUFFER_LEN]) {
        buffer[0] = 35 * 4;
        buffer[1] = REQUEST;
        buffer[2] = Tag::SetPhySize.into();
        buffer[3] = 8;
        buffer[4] = 8;
        buffer[5] = self.phy_width;
        buffer[6] = self.phy_height;
        buffer[7] = Tag::SetVirtSize.into();
        buffer[8] = 8;
        buffer[9] = 8;
        buffer[10] = self.virt_width;
        buffer[11] = self.virt_height;
        buffer[12] = Tag::SetVirtOffset.into();
        buffer[13] = 8;
        buffer[14] = 8;
        buffer[15] = self.x_offset;
        buffer[16] = self.y_offset;
        buffer[17] = Tag::SetDepth.into();
        buffer[18] = 4;
        buffer[19] = 4;
        buffer[20] = FRAMEBUFFER_DEPTH;
        buffer[21] = Tag::SetPixelOrder.into();
        buffer[22] = 4;
        buffer[23] = 4;
        buffer[24] = PixelOrder::RGB.into();
        buffer[25] = Tag::AllocBuffer.into();
        buffer[26] = 8;
        buffer[27] = 8;
        buffer[28] = 4096;
        buffer[29] = 0;
        buffer[30] = Tag::GetPitch.into();
        buffer[31] = 4;
        buffer[32] = 4;
        buffer[33] = 0;
        buffer[34] = Tag::Last.into();
        assert(buffer@ =~= self.request_words() + old(buffer)@.subrange(35, MAILBOX_BUFFER_LEN as int));
    }
}

/// Whether a reply to a framebuffer message describes a framebuffer: the
/// depth is the one asked for, an address was allocated, and the pixel
/// order is known.
pub open spec fn framebuffer_reply_ok(buffer: Seq<u32>) -> bool {
    buffer[20] == FRAMEBUFFER_DEPTH && buffer[28] != 0 && buffer[24] <= 1
}

impl FramebufferResp {
    /// Reads the reply to a `FramebufferCmd`. The buffer address always gets
    /// the coherency alias bits, and the CPU address is that address with
    /// the alias bits masked out.
    pub fn from_buffer(buffer: &[u32; MAILBOX_BUFFER_LEN]) -> (r: Option<FramebufferResp>)
        ensures
            r is Some <==> framebuffer_reply_ok(buffer@),
            r matches Some(fb) ==> fb == framebuffer_of(buffer@),
    {
        if buffer[20] != FRAMEBUFFER_DEPTH || buffer[28] == 0 {
            return None;
        }
        let pixel_order = match PixelOrder::from_word(buffer[24]) {
            Some(po) => po,
            None => return None,
        };
        // The alias bits may be missing, on an emulator for one.
        let bus_paddr = bus_address(buffer[28]);
        Some(
            FramebufferResp {
                phy_width: buffer[5],
                phy_height: buffer[6],
                pitch: buffer[33],
                pixel_order,
                bus_paddr,
                paddr: cpu_address(bus_paddr),
            },
        )
    }
}

/// Size of a page of mapped memory.
pub const MAP_PAGE_SIZE: u64 = 4096;

impl FramebufferResp {
    /// Where the allocated framebuffer must be mapped, once the reply has
    /// the size that was asked for: its bytes, `phy_height * pitch`, and the
    /// 4K pages to map for them (one more than the whole pages they fill).
    pub fn frame_span(&self, width: u32, height: u32) -> (r: Option<(u64, u64)>)
        ensures
            r is Some <==> self.phy_width == width && self.phy_height == height,
            r matches Some((bytes, pages)) ==> bytes == self.phy_height * self.pitch && pages == 1
                + bytes / MAP_PAGE_SIZE,
    {
        if self.phy_width != width || self.phy_height != height {
            return None;
        }
        let (h, p) = (self.phy_height as u64, self.pitch as u64);
        proof {
            assert(h * p <= 0xFFFF_FFFF * 0xFFFF_FFFF) by (nonlinear_arith)
                requires
                    h <= 0xFFFF_FFFF,
                    p <= 0xFFFF_FFFF,
            ;
        }
        let bytes = h * p;
        Some((bytes, 1 + bytes / MAP_PAGE_SIZE))
    }
}

/// Ask for the ARM's memory range.
#[derive(Debug, Copy, Clone)]
pub struct GetArmMemCmd;

#[derive(Debug, Copy, Clone)]
pub struct GetArmMemResp {
    pub addr: u32,
    pub size: u32,
}

/// Ask for the physical size of the framebuffer.
#[derive(Debug, Copy, Clone)]
pub struct GetFbPhySizeCmd;

#[derive(Debug, Copy, Clone)]
pub struct GetFbPhySizeResp {
    pub width: u32,
    pub height: u32,
}

/// Ask for the board serial number.
#[derive(Debug, Copy, Clone)]
pub struct GetSerialNumCmd;

#[derive(Debug, Copy, Clone)]
pub struct GetSerialNumResp {
    pub serial_number: u64,
}

/// Ask for a temperature, in thousandths of a degree Celsius.
#[derive(Debug, Copy, Clone)]
pub struct GetTemperatureCmd {
    pub id: u32,
}

#[derive(Debug, Copy, Clone)]
pub struct GetTemperatureResp {
    pub id: u32,
    pub value: u32,
}

/// Ask for the VideoCore's memory range.
#[derive(Debug, Copy, Clone)]
pub struct GetVcMemCmd;

#[derive(Debug, Copy, Clone)]
pub struct GetVcMemResp {
    pub addr: u32,
    pub size: u32,
}

/// Coordinate space of a cursor position.
#[derive(Debug, Copy, Clone, PartialEq, Eq, Structural)]
pub enum CursorCoord {
    Display,
    Framebuffer,
}

pub open spec fn cursor_coord_word(c: CursorCoord) -> u32 {
    match c {
        CursorCoord::Display => 0,
        CursorCoord::Framebuffer => 1,
    }
}

impl From<CursorCoord> for u32 {
    fn from(c: CursorCoord) -> (r: u32)
        ensures
            r == cursor_coord_word(c),
    {
        match c {
            CursorCoord::Display => 0,
            CursorCoord::Framebuffer => 1,
        }
    }
}

impl vstd::std_specs::convert::FromSpecImpl<CursorCoord> for u32 {
    open spec fn obeys_from_spec() -> bool {
        true
    }

    open spec fn from_spec(c: CursorCoord) -> u32 {
        cursor_coord_word(c)
    }
}

/// Show or hide the hardware cursor, and place it.
#[derive(Debug, Copy, Clone)]
pub struct SetCursorStateCmd {
    pub enable: bool,
    pub x: u32,
    pub y: u32,
    pub coord: CursorCoord,
}

#[derive(Debug, Copy, Clone)]
pub struct SetCursorStateResp {
    pub is_valid: bool,
}

impl MailboxMsgBufferConstructor for GetArmMemCmd {
    open spec fn request_words(&self) -> Seq<u32> {
        seq![(8 * 4) as u32, REQUEST, tag_id(Tag::GetArmMem), 8, 8, 0, 0, tag_id(Tag::Last)]
    }

    fn construct_buffer(&self, buffer: &mut [u32; MAILBOX_BUFFER_LEN]) {
        buffer[0] = 8 * 4;
        buffer[1] = REQUEST;
        buffer[2] = Tag::GetArmMem.into();
        buffer[3] = 8;
        buffer[4] = 8;
        buffer[5] = 0;
        buffer[6] = 0;
        buffer[7] = Tag::Last.into();
        assert(buffer@ =~= self.request_words() + old(buffer)@.subrange(8, MAILBOX_BUFFER_LEN as int));
    }
}

impl MailboxMsgBufferConstructor for GetFbPhySizeCmd {
    open spec fn request_words(&self) -> Seq<u32> {
        seq![(8 * 4) as u32, REQUEST, tag_id(Tag::GetPhySize), 8, 8, 0, 0, tag_id(Tag::Last)]
    }

    fn construct_buffer(&self, buffer: &mut [u32; MAILBOX_BUFFER_LEN]) {
        buffer[0] = 8 * 4;
        buffer[1] = REQUEST;
        buffer[2] = Tag::GetPhySize.into();
        buffer[3] = 8;
        buffer[4] = 8;
        buffer[5] = 0;
        buffer[6] = 0;
        buffer[7] = Tag::Last.into();
        assert(buffer@ =~= self.request_words() + old(buffer)@.subrange(8, MAILBOX_BUFFER_LEN as int));
    }
}

impl MailboxMsgBufferConstructor for GetSerialNumCmd {
    open spec fn request_words(&self) -> Seq<u32> {
        seq![(6 * 4) as u32, REQUEST, tag_id(Tag::GetSerialNum), 0, 8, tag_id(Tag::Last)]
    }

    fn construct_buffer(&self, buffer: &mut [u32; MAILBOX_BUFFER_LEN]) {
        buffer[0] = 6 * 4;
        buffer[1] = REQUEST;
        buffer[2] = Tag::GetSerialNum.into();
        buffer[3] = 0;
        buffer[4] = 8;
        buffer[5] = Tag::Last.into();
        assert(buffer@ =~= self.request_words() + old(buffer)@.subrange(6, MAILBOX_BUFFER_LEN as int));
    }
}

impl MailboxMsgBufferConstructor for GetTemperatureCmd {
    open spec fn request_words(&self) -> Seq<u32> {
        seq![(7 * 4) as u32, REQUEST, tag_id(Tag::GetTemperature), 4, 8, self.id, tag_id(Tag::Last)]
    }

    fn construct_buffer(&self, buffer: &mut [u32; MAILBOX_BUFFER_LEN]) {
        buffer[0] = 7 * 4;
        buffer[1] = REQUEST;
        buffer[2] = Tag::GetTemperature.into();
        buffer[3] = 4;
        buffer[4] = 8;
        buffer[5] = self.id;
        buffer[6] = Tag::Last.into();
        assert(buffer@ =~= self.request_words() + old(buffer)@.subrange(7, MAILBOX_BUFFER_LEN as int));
    }
}

impl MailboxMsgBufferConstructor for GetVcMemCmd {
    open spec fn request_words(&self) -> Seq<u32> {
        seq![(8 * 4) as u32, REQUEST, tag_id(Tag::GetVcMem), 8, 8, 0, 0, tag_id(Tag::Last)]
    }

    fn construct_buffer(&self, buffer: &mut [u32; MAILBOX_BUFFER_LEN]) {
        buffer[0] = 8 * 4;
        buffer[1] = REQUEST;
        buffer[2] = Tag::GetVcMem.into();
        buffer[3] = 8;
        buffer[4] = 8;
        buffer[5] = 0;
        buffer[6] = 0;
        buffer[7] = Tag::Last.into();
        assert(buffer@ =~= self.request_words() + old(buffer)@.subrange(8, MAILBOX_BUFFER_LEN as int));
    }
}

impl MailboxMsgBufferConstructor for SetCursorStateCmd {
    open spec fn request_words(&self) -> Seq<u32> {
        seq![(10 * 4) as u32, REQUEST, tag_id(Tag::SetCursorState), 16, 4, if self.enable { 1 } else { 0 }, self.x, self.y, cursor_coord_word(self.coord), tag_id(Tag::Last)]
    }

    fn construct_buffer(&self, buffer: &mut [u32; MAILBOX_BUFFER_LEN]) {
        buffer[0] = 10 * 4;
        buffer[1] = REQUEST;
        buffer[2] = Tag::SetCursorState.into();
        buffer[3] = 16;
        buffer[4] = 4;
        buffer[5] = if self.enable { 1 } else { 0 };
        buffer[6] = self.x;
        buffer[7] = self.y;
        buffer[8] = self.coord.into();
        buffer[9] = Tag::Last.into();
        assert(buffer@ =~= self.request_words() + old(buffer)@.subrange(10, MAILBOX_BUFFER_LEN as int));
    }
}

impl BlankScreenResp {
    /// Reads the reply, whose first tag must be the request's.
    pub fn from_buffer(buffer: &[u32; MAILBOX_BUFFER_LEN]) -> (r: BlankScreenResp)
        requires
            buffer@[2] == tag_id(Tag::BlankScreen),
        ensures
            r.state == (buffer@[5] != 0),
    {
        BlankScreenResp { state: buffer[5] != 0 }
    }
}

impl GetArmMemResp {
    /// Reads the reply, whose first tag must be the request's.
    pub fn from_buffer(buffer: &[u32; MAILBOX_BUFFER_LEN]) -> (r: GetArmMemResp)
        requires
            buffer@[2] == tag_id(Tag::GetArmMem),
        ensures
            r.addr == buffer@[5],
            r.size == buffer@[6],
    {
        GetArmMemResp { addr: buffer[5], size: buffer[6] }
    }
}

impl GetFbPhySizeResp {
    /// Reads the reply, whose first tag must be the request's.
    pub fn from_buffer(buffer: &[u32; MAILBOX_BUFFER_LEN]) -> (r: GetFbPhySizeResp)
        requires
            buffer@[2] == tag_id(Tag::GetPhySize),
        ensures
            r.width == buffer@[5],
            r.height == buffer@[6],
    {
        GetFbPhySizeResp { width: buffer[5], height: buffer[6] }
    }
}

impl GetSerialNumResp {
    /// Reads the reply, whose first tag must be the request's.
    pub fn from_buffer(buffer: &[u32; MAILBOX_BUFFER_LEN]) -> (r: GetSerialNumResp)
        requires
            buffer@[2] == tag_id(Tag::GetSerialNum),
        ensures
            r.serial_number == buffer@[5] + buffer@[6] * 0x1_0000_0000,
    {
        let lo = buffer[5] as u64;
        let hi = buffer[6] as u64;
        let serial_number = lo | hi << 32;
        assert(serial_number == lo + hi * 0x1_0000_0000) by (bit_vector)
            requires
                lo <= 0xFFFF_FFFF,
                hi <= 0xFFFF_FFFF,
                serial_number == lo | hi << 32,
        ;
        GetSerialNumResp { serial_number }
    }
}

impl GetTemperatureResp {
    /// Reads the reply, whose first tag must be the request's.
    pub fn from_buffer(buffer: &[u32; MAILBOX_BUFFER_LEN]) -> (r: GetTemperatureResp)
        requires
            buffer@[2] == tag_id(Tag::GetTemperature),
        ensures
            r.id == buffer@[5],
            r.value == buffer@[6],
    {
        GetTemperatureResp { id: buffer[5], value: buffer[6] }
    }
}

impl GetVcMemResp {
    /// Reads the reply, whose first tag must be the request's.
    pub fn from_buffer(buffer: &[u32; MAILBOX_BUFFER_LEN]) -> (r: GetVcMemResp)
        requires
            buffer@[2] == tag_id(Tag::GetVcMem),
        ensures
            r.addr == buffer@[5],
            r.size == buffer@[6],
    {
        GetVcMemResp { addr: buffer[5], size: buffer[6] }
    }
}

impl SetCursorStateResp {
    /// Reads the reply, whose first tag must be the request's.
    pub fn from_buffer(buffer: &[u32; MAILBOX_BUFFER_LEN]) -> (r: SetCursorStateResp)
        requires
            buffer@[2] == tag_id(Tag::SetCursorState),
        ensures
            r.is_valid == (buffer@[5] == 0),
    {
        SetCursorStateResp { is_valid: buffer[5] == 0 }
    }
}

/// The framebuffer that a valid framebuffer reply describes.
pub open spec fn framebuffer_of(b: Seq<u32>) -> FramebufferResp {
    FramebufferResp {
        phy_width: b[5],
        phy_height: b[6],
        pitch: b[33],
        pixel_order: if b[24] == 0 {
            PixelOrder::BGR
        } else {
            PixelOrder::RGB
        },
        bus_paddr: bus_alias(b[28]),
        paddr: cpu_of(bus_alias(b[28])),
    }
}

/// What a reply buffer reads as, by its first tag.
pub open spec fn reply_of(b: Seq<u32>) -> Option<Resp> {
    let tag = b[2];
    if tag == tag_id(Tag::GetSerialNum) {
        Some(Resp::GetSerialNumResp(GetSerialNumResp { serial_number: (b[5] + b[6] * 0x1_0000_0000) as u64 }))
    } else if tag == tag_id(Tag::GetTemperature) {
        Some(Resp::GetTemperatureResp(GetTemperatureResp { id: b[5], value: b[6] }))
    } else if tag == tag_id(Tag::GetArmMem) {
        Some(Resp::GetArmMemResp(GetArmMemResp { addr: b[5], size: b[6] }))
    } else if tag == tag_id(Tag::GetVcMem) {
        Some(Resp::GetVcMemResp(GetVcMemResp { addr: b[5], size: b[6] }))
    } else if tag == tag_id(Tag::BlankScreen) {
        Some(Resp::BlankScreenResp(BlankScreenResp { state: b[5] != 0 }))
    } else if tag == tag_id(Tag::GetPhySize) {
        Some(Resp::GetFbPhySizeResp(GetFbPhySizeResp { width: b[5], height: b[6] }))
    } else if tag == tag_id(Tag::SetCursorState) {
        Some(Resp::SetCursorStateResp(SetCursorStateResp { is_valid: b[5] == 0 }))
    } else if tag == tag_id(Tag::SetPhySize) {
        if framebuffer_reply_ok(b) {
            Some(Resp::FramebufferResp(framebuffer_of(b)))
        } else {
            None
        }
    } else {
        Some(Resp::Ack)
    }
}

/// A reply, by the tag it carries first.
#[derive(Debug, Copy, Clone)]
pub enum Resp {
    Ack,
    GetSerialNumResp(GetSerialNumResp),
    GetTemperatureResp(GetTemperatureResp),
    FramebufferResp(FramebufferResp),
    GetArmMemResp(GetArmMemResp),
    GetVcMemResp(GetVcMemResp),
    BlankScreenResp(BlankScreenResp),
    GetFbPhySizeResp(GetFbPhySizeResp),
    SetCursorStateResp(SetCursorStateResp),
}

impl Resp {
    /// Reads a reply by its first tag. Tags with nothing to read back give
    /// `Ack`; `None` stands for a framebuffer reply that describes no
    /// usable framebuffer.
    pub fn from_buffer(buffer: &[u32; MAILBOX_BUFFER_LEN]) -> (r: Option<Resp>)
        ensures
            r == reply_of(buffer@),
    {
        let tag = buffer[2];
        if tag == u32::from(Tag::GetSerialNum) {
            Some(Resp::GetSerialNumResp(GetSerialNumResp::from_buffer(buffer)))
        } else if tag == u32::from(Tag::GetTemperature) {
            Some(Resp::GetTemperatureResp(GetTemperatureResp::from_buffer(buffer)))
        } else if tag == u32::from(Tag::GetArmMem) {
            Some(Resp::GetArmMemResp(GetArmMemResp::from_buffer(buffer)))
        } else if tag == u32::from(Tag::GetVcMem) {
            Some(Resp::GetVcMemResp(GetVcMemResp::from_buffer(buffer)))
        } else if tag == u32::from(Tag::BlankScreen) {
            Some(Resp::BlankScreenResp(BlankScreenResp::from_buffer(buffer)))
        } else if tag == u32::from(Tag::GetPhySize) {
            Some(Resp::GetFbPhySizeResp(GetFbPhySizeResp::from_buffer(buffer)))
        } else if tag == u32::from(Tag::SetCursorState) {
            Some(Resp::SetCursorStateResp(SetCursorStateResp::from_buffer(buffer)))
        } else if tag == u32::from(Tag::SetPhySize) {
            // A framebuffer message is known by its first tag.
            match FramebufferResp::from_buffer(buffer) {
                Some(fb) => Some(Resp::FramebufferResp(fb)),
                None => None,
            }
        } else {
            Some(Resp::Ack)
        }
    }
}

} // verus!
