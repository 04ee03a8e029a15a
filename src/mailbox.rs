//! The VideoCore mailbox: how a message is posted and its reply recognised.
//!
//! The caller owns the mailbox registers and the message buffer. A call
//! writes the message into the buffer and hands back a `MailboxCall`, which
//! says, one register value at a time, what to read or write next: wait for
//! room, post the buffer, wait for words until one answers the message.
//! `Mailbox::reply` then reads the answer from the buffer.

use vstd::prelude::*;

use crate::mailbox_msg::{reply_of, MailboxMsgBufferConstructor, Resp, MAILBOX_BUFFER_LEN};

verus! {

/// STATUS: the write register is full.
pub const STATUS_FULL: u32 = 0x8000_0000;

/// STATUS: the read register is empty.
pub const STATUS_EMPTY: u32 = 0x4000_0000;

/// Reply status: the request was handled.
pub const RESPONSE_SUCCESS: u32 = 0x8000_0000;

/// Reply status: the request buffer could not be parsed (partial reply).
pub const RESPONSE_ERROR: u32 = 0x8000_0001;

/// Why a mailbox call failed.
#[derive(Debug, Copy, Clone, PartialEq, Eq, Structural)]
#[non_exhaustive]
pub enum Error {
    /// The response buffer has error bit(s) set
    BadRequest,
    /// Status word was not recognized
    BadStatusWord,
    /// The reply does not describe what was asked for
    BadResponse,
    /// Unknown error
    Unknown,
}

/// Mailbox channels.
#[derive(Debug, Copy, Clone, PartialEq, Eq, Structural)]
#[non_exhaustive]
pub enum Channel {
    /// Property channel
    Prop,
}

pub open spec fn channel_id(c: Channel) -> u32 {
    match c {
        Channel::Prop => 8,
    }
}

impl From<Channel> for u32 {
    fn from(c: Channel) -> (r: u32)
        ensures
            r == channel_id(c),
    {
        match c {
            Channel::Prop => 8,
        }
    }
}

impl vstd::std_specs::convert::FromSpecImpl<Channel> for u32 {
    open spec fn obeys_from_spec() -> bool {
        true
    }

    open spec fn from_spec(c: Channel) -> u32 {
        channel_id(c)
    }
}

/// Whether a reply with this status word and these words is an answer.
pub open spec fn reply_ok(status: u32, buffer: Seq<u32>) -> bool {
    status == RESPONSE_SUCCESS && reply_of(buffer) is Some
}

/// Mailbox calls through one message buffer.
#[derive(Debug, Copy, Clone)]
pub struct Mailbox {
    buffer_vc_paddr: u32,
}

impl Mailbox {
    pub closed spec fn buffer_address(&self) -> u32 {
        self.buffer_vc_paddr
    }

    /// Calls through the message buffer at VideoCore address `buffer_vc_paddr`.
    /// The low four bits of a mailbox word carry the channel, so the buffer
    /// must be 16-byte aligned.
    pub fn new(buffer_vc_paddr: u32) -> (r: Self)
        requires
            buffer_vc_paddr & 0xF == 0,
        ensures
            r.buffer_address() == buffer_vc_paddr,
    {
        Mailbox { buffer_vc_paddr }
    }

    /// Whether the write register has room, by the STATUS register.
    pub fn can_send(status: u32) -> (r: bool)
        ensures
            r == (status & STATUS_FULL == 0),
    {
        status & STATUS_FULL == 0
    }

    /// Whether the read register holds a word, by the STATUS register.
    pub fn has_reply(status: u32) -> (r: bool)
        ensures
            r == (status & STATUS_EMPTY == 0),
    {
        status & STATUS_EMPTY == 0
    }

    /// The word that posts the message buffer on `channel`.
    pub fn request_word(&self, channel: Channel) -> (r: u32)
        ensures
            r == (self.buffer_address() & !0xFu32) | (channel_id(channel) & 0xF),
    {
        (self.buffer_vc_paddr & !0xF) | (u32::from(channel) & 0xF)
    }

    /// Whether a word read from the mailbox answers this buffer's message
    /// on `channel`; other words are someone else's and are skipped.
    pub fn is_reply(&self, channel: Channel, word: u32) -> (r: bool)
        ensures
            r == ((word & 0xF) == channel_id(channel) && (word & !0xFu32) == self.buffer_address()),
    {
        (word & 0xF) == u32::from(channel) && (word & !0xF) == self.buffer_vc_paddr
    }

    /// Starts a call on `channel`: writes the message into `buffer`, the
    /// message buffer, and returns the call, which waits for room first.
    pub fn call<T: MailboxMsgBufferConstructor>(
        &self,
        channel: Channel,
        constructor: &T,
        buffer: &mut [u32; MAILBOX_BUFFER_LEN],
    ) -> (r: MailboxCall)
        ensures
            constructor.request_words().len() <= MAILBOX_BUFFER_LEN,
            final(buffer)@ == constructor.request_words() + old(buffer)@.subrange(
                constructor.request_words().len() as int,
                MAILBOX_BUFFER_LEN as int,
            ),
            r == (MailboxCall { phase: CallPhase::AwaitRoom, mailbox: *self, channel }),
    {
        constructor.construct_buffer(buffer);
        MailboxCall { phase: CallPhase::AwaitRoom, mailbox: *self, channel }
    }

    /// Reads the answer once the reply has come: `status` is the buffer's
    /// second word, `buffer` the whole buffer.
    pub fn reply(status: u32, buffer: &[u32; MAILBOX_BUFFER_LEN]) -> (r: Result<Resp, Error>)
        ensures
            r is Ok <==> reply_ok(status, buffer@),
            status == RESPONSE_ERROR ==> r == Err::<Resp, Error>(Error::BadRequest),
            status != RESPONSE_SUCCESS && status != RESPONSE_ERROR ==> r == Err::<Resp, Error>(
                Error::BadStatusWord,
            ),
            status == RESPONSE_SUCCESS && !reply_ok(status, buffer@) ==> r == Err::<Resp, Error>(
                Error::BadResponse,
            ),
            r matches Ok(resp) ==> reply_of(buffer@) == Some(resp),
    {
        if status == RESPONSE_SUCCESS {
            match Resp::from_buffer(buffer) {
                Some(resp) => Ok(resp),
                None => Err(Error::BadResponse),
            }
        } else if status == RESPONSE_ERROR {
            Err(Error::BadRequest)
        } else {
            Err(Error::BadStatusWord)
        }
    }
}

/// Where a mailbox call stands.
#[derive(Debug, Copy, Clone, PartialEq, Eq, Structural)]
pub enum CallPhase {
    /// Waiting for room in the write register
    AwaitRoom,
    /// Waiting for a word in the read register
    AwaitWord,
    /// A word was read and is to be checked
    CheckWord,
    /// The reply has come
    Replied,
}

/// What the caller does next for a mailbox call.
#[derive(Debug, Copy, Clone, PartialEq, Eq, Structural)]
pub enum MailboxAction {
    /// Read the STATUS register and hand its value to `step`.
    ReadStatus,
    /// Write this word to the WRITE register, then read STATUS and hand its
    /// value to `step`.
    Write(u32),
    /// Read the READ register and hand the word to `step`.
    ReadWord,
    /// The reply is in the buffer: issue a barrier, then read the buffer and
    /// its status word and hand them to `Mailbox::reply`.
    ReadReply,
}

/// One mailbox call in progress. The caller begins by reading STATUS.
#[derive(Debug, Copy, Clone)]
pub struct MailboxCall {
    pub phase: CallPhase,
    pub mailbox: Mailbox,
    pub channel: Channel,
}

impl MailboxCall {
    /// The next state and action, given the register value that the last
    /// action read: STATUS in the waiting phases, READ when checking a word.
    pub open spec fn transition(self, word: u32) -> (MailboxCall, MailboxAction) {
        match self.phase {
            CallPhase::AwaitRoom => if word & STATUS_FULL != 0 {
                (self, MailboxAction::ReadStatus)
            } else {
                (
                    MailboxCall { phase: CallPhase::AwaitWord, ..self },
                    MailboxAction::Write(
                        (self.mailbox.buffer_address() & !0xFu32) | (channel_id(self.channel) & 0xF),
                    ),
                )
            },
            CallPhase::AwaitWord => if word & STATUS_EMPTY != 0 {
                (self, MailboxAction::ReadStatus)
            } else {
                (MailboxCall { phase: CallPhase::CheckWord, ..self }, MailboxAction::ReadWord)
            },
            CallPhase::CheckWord => if (word & 0xF) == channel_id(self.channel) && (word & !0xFu32)
                == self.mailbox.buffer_address() {
                (MailboxCall { phase: CallPhase::Replied, ..self }, MailboxAction::ReadReply)
            } else {
                // A reply to someone else: wait for the next word.
                (MailboxCall { phase: CallPhase::AwaitWord, ..self }, MailboxAction::ReadStatus)
            },
            CallPhase::Replied => (self, MailboxAction::ReadReply),
        }
    }

    /// Advances the call, given the register value that the last action read.
    pub fn step(&mut self, word: u32) -> (action: MailboxAction)
        ensures
            (*final(self), action) == old(self).transition(word),
    {
        match self.phase {
            CallPhase::AwaitRoom => {
                if Mailbox::can_send(word) {
                    self.phase = CallPhase::AwaitWord;
                    MailboxAction::Write(self.mailbox.request_word(self.channel))
                } else {
                    MailboxAction::ReadStatus
                }
            },
            CallPhase::AwaitWord => {
                if Mailbox::has_reply(word) {
                    self.phase = CallPhase::CheckWord;
                    MailboxAction::ReadWord
                } else {
                    MailboxAction::ReadStatus
                }
            },
            CallPhase::CheckWord => {
                if self.mailbox.is_reply(self.channel, word) {
                    self.phase = CallPhase::Replied;
                    MailboxAction::ReadReply
                } else {
                    self.phase = CallPhase::AwaitWord;
                    MailboxAction::ReadStatus
                }
            },
            CallPhase::Replied => MailboxAction::ReadReply,
        }
    }
}

/// A call posts its buffer only once there is room, and only the word that
/// carries its own buffer address and channel counts as its reply.
pub proof fn lemma_call_protocol(c: MailboxCall, word: u32)
    ensures
        c.transition(word).1 is Write ==> c.phase == CallPhase::AwaitRoom && word & STATUS_FULL == 0,
        c.transition(word).1 is ReadReply && c.phase != CallPhase::Replied ==> {
            &&& c.phase == CallPhase::CheckWord
            &&& word & 0xF == channel_id(c.channel)
            &&& word & !0xFu32 == c.mailbox.buffer_address()
        },
{
}

} // verus!
