use bcm2837_hal::clocks::{spi_clock_divider, Clocks, Delay, Hertz};
use bcm2837_hal::mailbox::{
    CallPhase, Channel, Error, Mailbox, MailboxAction, RESPONSE_ERROR, RESPONSE_SUCCESS,
};
use bcm2837_hal::mailbox_msg::{
    BlankScreenCmd, CursorCoord, FramebufferCmd, FramebufferResp, GetArmMemCmd, GetFbPhySizeCmd,
    GetSerialNumCmd, GetTemperatureCmd, GetVcMemCmd, MailboxMsgBufferConstructor, PixelOrder,
    Resp, SetCursorStateCmd, Tag, MAILBOX_BUFFER_LEN,
};

fn built<T: MailboxMsgBufferConstructor>(cmd: &T) -> [u32; MAILBOX_BUFFER_LEN] {
    let mut b = [0xEEEE_EEEE; MAILBOX_BUFFER_LEN];
    cmd.construct_buffer(&mut b);
    b
}

#[test]
fn framebuffer_request_words() {
    let b = built(&FramebufferCmd { phy_width: 800, phy_height: 480, virt_width: 800, virt_height: 480, x_offset: 0, y_offset: 0 });
    let expected: [u32; 35] = [
        140, 0, 0x48003, 8, 8, 800, 480, 0x48004, 8, 8, 800, 480, 0x48009, 8, 8, 0, 0, 0x48005, 4,
        4, 32, 0x48006, 4, 4, 1, 0x40001, 8, 8, 4096, 0, 0x40008, 4, 4, 0, 0,
    ];
    assert_eq!(&b[..35], &expected[..]);
    assert_eq!(b[35], 0xEEEE_EEEE);
}

#[test]
fn small_request_words() {
    assert_eq!(&built(&BlankScreenCmd { state: true })[..9], &[32, 0, 0x40002, 8, 8, 1, 0, 0, 0xEEEE_EEEE]);
    assert_eq!(&built(&GetArmMemCmd)[..8], &[32, 0, 0x10005, 8, 8, 0, 0, 0]);
    assert_eq!(&built(&GetVcMemCmd)[..8], &[32, 0, 0x10006, 8, 8, 0, 0, 0]);
    assert_eq!(&built(&GetFbPhySizeCmd)[..8], &[32, 0, 0x40003, 8, 8, 0, 0, 0]);
    assert_eq!(&built(&GetSerialNumCmd)[..7], &[24, 0, 0x10004, 0, 8, 0, 0xEEEE_EEEE]);
    assert_eq!(&built(&GetTemperatureCmd { id: 0 })[..7], &[28, 0, 0x30006, 4, 8, 0, 0]);
    assert_eq!(
        &built(&SetCursorStateCmd { enable: true, x: 10, y: 20, coord: CursorCoord::Framebuffer })[..10],
        &[40, 0, 0x8011, 16, 4, 1, 10, 20, 1, 0]
    );
    assert_eq!(u32::from(Tag::SetVirtOffset), 0x48009);
    assert_eq!(u32::from(PixelOrder::BGR), 0);
    assert_eq!(u32::from(CursorCoord::Display), 0);
}

fn framebuffer_reply(depth: u32, addr: u32, order: u32) -> [u32; MAILBOX_BUFFER_LEN] {
    let mut b = built(&FramebufferCmd { phy_width: 640, phy_height: 480, virt_width: 640, virt_height: 480, x_offset: 0, y_offset: 0 });
    b[1] = RESPONSE_SUCCESS;
    b[20] = depth;
    b[24] = order;
    b[28] = addr;
    b[33] = 2560;
    b
}

#[test]
fn framebuffer_reply_is_read() {
    let b = framebuffer_reply(32, 0x3C10_0000, 0);
    let fb: FramebufferResp = FramebufferResp::from_buffer(&b).unwrap();
    assert_eq!((fb.phy_width, fb.phy_height, fb.pitch), (640, 480, 2560));
    assert_eq!(fb.pixel_order, PixelOrder::BGR);
    assert_eq!(fb.bus_paddr, 0x7C10_0000);
    assert_eq!(fb.paddr, 0x3C10_0000);
    let b2 = framebuffer_reply(32, 0xFC10_0000, 1);
    let fb2 = FramebufferResp::from_buffer(&b2).unwrap();
    assert_eq!((fb2.bus_paddr, fb2.paddr, fb2.pixel_order), (0xFC10_0000, 0x3C10_0000, PixelOrder::RGB));
}

#[test]
fn malformed_framebuffer_replies() {
    assert!(FramebufferResp::from_buffer(&framebuffer_reply(16, 0x3C10_0000, 1)).is_none());
    assert!(FramebufferResp::from_buffer(&framebuffer_reply(32, 0, 1)).is_none());
    assert!(FramebufferResp::from_buffer(&framebuffer_reply(32, 0x3C10_0000, 2)).is_none());
    assert_eq!(PixelOrder::from_word(2), None);
    assert_eq!(
        Mailbox::reply(RESPONSE_SUCCESS, &framebuffer_reply(16, 0x3C10_0000, 1)).unwrap_err(),
        Error::BadResponse
    );
}

#[test]
fn replies_by_tag() {
    let mut b = [0u32; MAILBOX_BUFFER_LEN];
    b[2] = 0x10004;
    b[5] = 0x89AB_CDEF;
    b[6] = 0x0000_0012;
    match Resp::from_buffer(&b) {
        Some(Resp::GetSerialNumResp(r)) => assert_eq!(r.serial_number, 0x12_89AB_CDEF),
        other => panic!("{:?}", other),
    }
    b[2] = 0x30006;
    match Resp::from_buffer(&b) {
        Some(Resp::GetTemperatureResp(r)) => assert_eq!((r.id, r.value), (0x89AB_CDEF, 0x12)),
        other => panic!("{:?}", other),
    }
    b[2] = 0x40002;
    assert!(matches!(Resp::from_buffer(&b), Some(Resp::BlankScreenResp(r)) if r.state));
    b[2] = 0x8011;
    assert!(matches!(Resp::from_buffer(&b), Some(Resp::SetCursorStateResp(r)) if !r.is_valid));
    b[5] = 0;
    assert!(matches!(Resp::from_buffer(&b), Some(Resp::SetCursorStateResp(r)) if r.is_valid));
    b[2] = 0x40003;
    assert!(matches!(Resp::from_buffer(&b), Some(Resp::GetFbPhySizeResp(r)) if r.height == 0x12));
    b[2] = 0x10005;
    assert!(matches!(Resp::from_buffer(&b), Some(Resp::GetArmMemResp(r)) if r.size == 0x12));
    b[2] = 0x10006;
    assert!(matches!(Resp::from_buffer(&b), Some(Resp::GetVcMemResp(r)) if r.size == 0x12));
    b[2] = 0x48006;
    assert!(matches!(Resp::from_buffer(&b), Some(Resp::Ack)));
}

#[test]
fn mailbox_words_and_status() {
    let mb = Mailbox::new(0x0008_0010);
    assert_eq!(u32::from(Channel::Prop), 8);
    assert_eq!(mb.request_word(Channel::Prop), 0x0008_0018);
    assert!(mb.is_reply(Channel::Prop, 0x0008_0018));
    assert!(!mb.is_reply(Channel::Prop, 0x0008_0019));
    assert!(!mb.is_reply(Channel::Prop, 0x0009_0018));
    assert!(Mailbox::can_send(0x4000_0000));
    assert!(!Mailbox::can_send(0x8000_0000));
    assert!(Mailbox::has_reply(0x8000_0000));
    assert!(!Mailbox::has_reply(0x4000_0000));
    let b = [0u32; MAILBOX_BUFFER_LEN];
    assert_eq!(Mailbox::reply(RESPONSE_ERROR, &b).unwrap_err(), Error::BadRequest);
    assert_eq!(Mailbox::reply(0, &b).unwrap_err(), Error::BadStatusWord);
    assert!(matches!(Mailbox::reply(RESPONSE_SUCCESS, &b), Ok(Resp::Ack)));
}

#[test]
fn clocks_and_divider() {
    let clocks = Clocks::read();
    assert_eq!(clocks.apbclk(), Hertz(250_000_000));
    assert_eq!(spi_clock_divider(Hertz(200_000_000), &clocks), 2);
    assert_eq!(spi_clock_divider(Hertz(125_000_000), &clocks), 2);
    assert_eq!(spi_clock_divider(Hertz(1_000_000), &clocks), 250);
    assert_eq!(spi_clock_divider(Hertz(3_000), &clocks), 0);
    assert_eq!(spi_clock_divider(Hertz(0), &clocks), 0);
    let _ = Delay::new();
    assert_eq!(Delay::nop_count(1000), 1000);
}

#[test]
fn frame_span_of_reply() {
    let b = framebuffer_reply(32, 0x3C10_0000, 1);
    let fb = FramebufferResp::from_buffer(&b).unwrap();
    assert_eq!(fb.frame_span(640, 480), Some((480 * 2560, 1 + 480 * 2560 / 4096)));
    assert_eq!(fb.frame_span(640, 481), None);
    assert_eq!(fb.frame_span(800, 480), None);
}

#[test]
fn call_waits_for_room_then_for_its_own_reply() {
    let mb = Mailbox::new(0x0008_0010);
    let mut buffer = [0u32; MAILBOX_BUFFER_LEN];
    let mut call = mb.call(Channel::Prop, &GetVcMemCmd, &mut buffer);
    assert_eq!(&buffer[..8], &[32, 0, 0x10006, 8, 8, 0, 0, 0]);
    assert_eq!(call.phase, CallPhase::AwaitRoom);
    assert_eq!(call.step(0x8000_0000), MailboxAction::ReadStatus);
    assert_eq!(call.step(0), MailboxAction::Write(0x0008_0018));
    assert_eq!(call.step(0x4000_0000), MailboxAction::ReadStatus);
    assert_eq!(call.step(0), MailboxAction::ReadWord);
    // someone else's reply
    assert_eq!(call.step(0x0009_0018), MailboxAction::ReadStatus);
    assert_eq!(call.step(0), MailboxAction::ReadWord);
    assert_eq!(call.step(0x0008_0018), MailboxAction::ReadReply);
    assert_eq!(call.phase, CallPhase::Replied);
    buffer[1] = RESPONSE_SUCCESS;
    buffer[5] = 0x3C00_0000;
    buffer[6] = 0x0400_0000;
    match Mailbox::reply(buffer[1], &buffer) {
        Ok(Resp::GetVcMemResp(r)) => assert_eq!((r.addr, r.size), (0x3C00_0000, 0x0400_0000)),
        other => panic!("{:?}", other),
    }
}
