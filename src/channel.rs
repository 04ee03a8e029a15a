//! One DMA engine lane, and the busy-wait sequences that drive it.
//!
//! The lane's state lives in its registers and is never mirrored in memory:
//! a `Channel` is what its CS and DEBUG registers held when last read. The
//! waiting itself is a `Sequence`: it is handed each fresh reading and says
//! what to do next, so that every wait is bounded by a poll budget.

use vstd::prelude::*;

use crate::bus::{bus_address, bus_alias};
use crate::dma::any_set;

verus! {

/// CS: the lane is transferring.
pub const CS_ACTIVE: u32 = 0x1;

/// CS: the lane has an error flag set.
pub const CS_ERROR: u32 = 0x100;

/// CS: abort the current control block.
pub const CS_ABORT: u32 = 0x4000_0000;

/// CS: reset the lane.
pub const CS_RESET: u32 = 0x8000_0000;

/// DEBUG: the last AXI read did not have its "last" signal set.
pub const DEBUG_READ_LAST_NOT_SET_ERROR: u32 = 0x1;

/// DEBUG: the read FIFO had an error.
pub const DEBUG_FIFO_ERROR: u32 = 0x2;

/// DEBUG: a slave read response was an error.
pub const DEBUG_READ_ERROR: u32 = 0x4;

/// DEBUG: the writes still outstanding (bits 4-7).
pub const DEBUG_OUTSTANDING_WRITES: u32 = 0xF0;

/// DEBUG: the lane is a lite engine, without 2-D mode.
pub const DEBUG_LITE: u32 = 0x1000_0000;

/// Control blocks must start on a 32-byte boundary: these bits must be clear.
pub const CONTROL_BLOCK_ALIGN_MASK: u32 = 0x1F;

/// Which error conditions a lane reports after a transfer.
#[derive(Debug, Copy, Clone, PartialEq, Eq, Structural)]
pub struct TransferError {
    /// The CS error flag
    pub error: bool,
    /// Read-last-not-set error
    pub read_last_not_set: bool,
    /// FIFO error
    pub fifo: bool,
    /// Read error
    pub read: bool,
    /// Writes still outstanding
    pub outstanding_writes: u8,
}

/// Why a DMA operation did not succeed.
#[derive(Debug, Copy, Clone, PartialEq, Eq, Structural)]
pub enum DmaError {
    /// The control block address is not 32-byte aligned.
    MisalignedControlBlock,
    /// The hardware did not clear a bit within the poll budget.
    Timeout,
    /// The transfer completed with error conditions.
    Transfer(TransferError),
}

/// One lane's registers, as last read.
#[derive(Debug, Copy, Clone, PartialEq, Eq, Structural)]
pub struct Channel {
    /// Control and status register
    pub cs: u32,
    /// Debug register
    pub debug: u32,
}

impl Channel {
    pub open spec fn has_lite(&self) -> bool {
        any_set(self.debug, DEBUG_LITE)
    }

    pub open spec fn busy(&self) -> bool {
        any_set(self.cs, CS_ACTIVE)
    }

    /// The writes still outstanding, per DEBUG.
    pub open spec fn outstanding_writes(&self) -> u32 {
        (self.debug >> 4u32) & 0xF
    }

    /// Whether any error condition is set.
    pub open spec fn has_errors(&self) -> bool {
        ||| any_set(self.cs, CS_ERROR)
        ||| any_set(self.debug, DEBUG_READ_LAST_NOT_SET_ERROR)
        ||| any_set(self.debug, DEBUG_FIFO_ERROR)
        ||| any_set(self.debug, DEBUG_READ_ERROR)
        ||| self.outstanding_writes() != 0
    }

    /// The error conditions, if any is set.
    pub open spec fn error_report(&self) -> Option<TransferError> {
        if self.has_errors() {
            Some(
                TransferError {
                    error: any_set(self.cs, CS_ERROR),
                    read_last_not_set: any_set(self.debug, DEBUG_READ_LAST_NOT_SET_ERROR),
                    fifo: any_set(self.debug, DEBUG_FIFO_ERROR),
                    read: any_set(self.debug, DEBUG_READ_ERROR),
                    outstanding_writes: self.outstanding_writes() as u8,
                },
            )
        } else {
            None
        }
    }

    /// Whether the lane is a lite engine, which cannot do 2-D transfers.
    pub fn is_lite(&self) -> (r: bool)
        ensures
            r == self.has_lite(),
    {
        self.debug & DEBUG_LITE != 0
    }

    /// The engine's identifier, DEBUG bits 8-15.
    pub fn dma_id(&self) -> (r: u8)
        ensures
            r == (self.debug >> 8u32) & 0xFF,
    {
        let debug = self.debug;
        let id = (debug >> 8) & 0xFF;
        assert(id <= 0xFF) by (bit_vector)
            requires
                id == (debug >> 8u32) & 0xFF,
        ;
        id as u8
    }

    /// Whether a transfer is in progress.
    pub fn is_busy(&self) -> (r: bool)
        ensures
            r == self.busy(),
    {
        self.cs & CS_ACTIVE != 0
    }

    /// Whether any error condition is set: the error flag, a read-last-not-set,
    /// FIFO or read error, or writes still outstanding.
    pub fn errors(&self) -> (r: bool)
        ensures
            r == self.has_errors(),
    {
        self.cs & CS_ERROR != 0 || self.debug & DEBUG_READ_LAST_NOT_SET_ERROR != 0 || self.debug
            & DEBUG_FIFO_ERROR != 0 || self.debug & DEBUG_READ_ERROR != 0 || (self.debug >> 4) & 0xF
            != 0
    }

    /// Which error conditions are set, or `None` when there are none.
    pub fn transfer_error(&self) -> (r: Option<TransferError>)
        ensures
            r == self.error_report(),
    {
        if self.errors() {
            let debug = self.debug;
            let writes = (debug >> 4) & 0xF;
            assert(writes <= 0xF) by (bit_vector)
                requires
                    writes == (debug >> 4u32) & 0xF,
            ;
            Some(
                TransferError {
                    error: self.cs & CS_ERROR != 0,
                    read_last_not_set: self.debug & DEBUG_READ_LAST_NOT_SET_ERROR != 0,
                    fifo: self.debug & DEBUG_FIFO_ERROR != 0,
                    read: self.debug & DEBUG_READ_ERROR != 0,
                    outstanding_writes: writes as u8,
                },
            )
        } else {
            None
        }
    }

    /// Resets the lane: write the reset bit, then wait until the hardware
    /// clears it.
    pub fn reset(max_polls: u64) -> (r: Sequence)
        ensures
            r == (Sequence { phase: Phase::WriteReset, control_block: 0, polls_left: max_polls }),
    {
        Sequence { phase: Phase::WriteReset, control_block: 0, polls_left: max_polls }
    }

    /// Aborts the current transfer: write the abort bit, wait until the
    /// hardware clears it, then reset the lane.
    pub fn abort(max_polls: u64) -> (r: Sequence)
        ensures
            r == (Sequence { phase: Phase::WriteAbort, control_block: 0, polls_left: max_polls }),
    {
        Sequence { phase: Phase::WriteAbort, control_block: 0, polls_left: max_polls }
    }

    /// Runs the control block at physical address `cb_paddr`: wait until the
    /// lane is idle, start it on the block's bus address, wait until the
    /// transfer is over, and check for errors. A misaligned address is
    /// refused here, before anything is written to the hardware.
    pub fn start(cb_paddr: u32, max_polls: u64) -> (r: Result<Sequence, DmaError>)
        ensures
            any_set(cb_paddr, CONTROL_BLOCK_ALIGN_MASK) ==> r == Err::<Sequence, DmaError>(
                DmaError::MisalignedControlBlock,
            ),
            !any_set(cb_paddr, CONTROL_BLOCK_ALIGN_MASK) ==> r == Ok::<Sequence, DmaError>(
                Sequence {
                    phase: Phase::AwaitIdle,
                    control_block: bus_alias(cb_paddr),
                    polls_left: max_polls,
                },
            ),
    {
        if cb_paddr & CONTROL_BLOCK_ALIGN_MASK != 0 {
            Err(DmaError::MisalignedControlBlock)
        } else {
            Ok(
                Sequence {
                    phase: Phase::AwaitIdle,
                    control_block: bus_address(cb_paddr),
                    polls_left: max_polls,
                },
            )
        }
    }

    /// Waits until the current transfer is over, without checking for errors.
    pub fn wait(max_polls: u64) -> (r: Sequence)
        ensures
            r == (Sequence { phase: Phase::AwaitStop, control_block: 0, polls_left: max_polls }),
    {
        Sequence { phase: Phase::AwaitStop, control_block: 0, polls_left: max_polls }
    }
}

/// Where a sequence stands.
#[derive(Debug, Copy, Clone, PartialEq, Eq, Structural)]
pub enum Phase {
    /// About to write the abort bit
    WriteAbort,
    /// Waiting for the abort bit to clear
    AwaitAbort,
    /// About to write the reset bit
    WriteReset,
    /// Waiting for the reset bit to clear
    AwaitReset,
    /// Waiting for the lane to be idle before a start
    AwaitIdle,
    /// Waiting for a started transfer to end; errors are checked then
    AwaitDone,
    /// Waiting for the lane to stop, with no check afterwards
    AwaitStop,
    /// Over, successfully
    Succeeded,
    /// Over, with this error
    Failed(DmaError),
}

/// What the caller does next for a sequence.
#[derive(Debug, Copy, Clone)]
pub enum Command {
    /// Read CS and DEBUG again and hand them to `step`.
    Poll,
    /// Write this value to CS.
    WriteCs(u32),
    /// Issue a full data barrier, so that the control block and the buffers
    /// it names are visible to the engine; then write `conblk_ad` to
    /// CONBLK_AD and `cs` to CS.
    Start { conblk_ad: u32, cs: u32 },
    /// The sequence is over. After a transfer, the caller fences before it
    /// reads what the transfer wrote.
    Done(Result<(), DmaError>),
}

/// A busy-wait sequence on one lane, with a budget of polls.
#[derive(Debug, Copy, Clone, PartialEq, Eq, Structural)]
pub struct Sequence {
    pub phase: Phase,
    /// Bus address of the control block to start, for a transfer
    pub control_block: u32,
    /// How many more times the sequence may ask to poll
    pub polls_left: u64,
}

/// How far a phase is from the end.
pub open spec fn phase_rank(p: Phase) -> nat {
    match p {
        Phase::WriteAbort => 4,
        Phase::AwaitAbort => 3,
        Phase::WriteReset => 2,
        Phase::AwaitReset => 1,
        Phase::AwaitIdle => 2,
        Phase::AwaitDone => 1,
        Phase::AwaitStop => 1,
        Phase::Succeeded => 0,
        Phase::Failed(_) => 0,
    }
}

/// The outcome a finished phase stands for.
pub open spec fn outcome(p: Phase) -> Result<(), DmaError> {
    match p {
        Phase::Failed(e) => Err(e),
        _ => Ok(()),
    }
}

/// While the awaited bit is still set: poll again, or give up once the
/// budget is spent.
pub open spec fn keep_waiting(s: Sequence) -> (Sequence, Command) {
    if s.polls_left == 0 {
        (Sequence { phase: Phase::Failed(DmaError::Timeout), ..s }, Command::Done(Err(DmaError::Timeout)))
    } else {
        (Sequence { polls_left: (s.polls_left - 1) as u64, ..s }, Command::Poll)
    }
}

impl Sequence {
    pub open spec fn is_over(&self) -> bool {
        self.phase is Succeeded || self.phase is Failed
    }

    /// Decreases with every step until the sequence is over.
    pub open spec fn measure(&self) -> nat {
        (phase_rank(self.phase) * 0x1_0000_0000_0000_0000 + self.polls_left) as nat
    }

    /// The next state and command, given the lane's registers as just read.
    pub open spec fn transition(self, status: Channel) -> (Sequence, Command) {
        match self.phase {
            Phase::WriteAbort => (
                Sequence { phase: Phase::AwaitAbort, ..self },
                Command::WriteCs(CS_ABORT),
            ),
            Phase::AwaitAbort => if any_set(status.cs, CS_ABORT) {
                keep_waiting(self)
            } else {
                (Sequence { phase: Phase::AwaitReset, ..self }, Command::WriteCs(CS_RESET))
            },
            Phase::WriteReset => (
                Sequence { phase: Phase::AwaitReset, ..self },
                Command::WriteCs(CS_RESET),
            ),
            Phase::AwaitReset => if any_set(status.cs, CS_RESET) {
                keep_waiting(self)
            } else {
                (Sequence { phase: Phase::Succeeded, ..self }, Command::Done(Ok(())))
            },
            Phase::AwaitIdle => if status.busy() {
                keep_waiting(self)
            } else {
                (
                    Sequence { phase: Phase::AwaitDone, ..self },
                    Command::Start { conblk_ad: self.control_block, cs: CS_ACTIVE },
                )
            },
            Phase::AwaitDone => if status.busy() {
                keep_waiting(self)
            } else {
                match status.error_report() {
                    Some(e) => (
                        Sequence { phase: Phase::Failed(DmaError::Transfer(e)), ..self },
                        Command::Done(Err(DmaError::Transfer(e))),
                    ),
                    None => (Sequence { phase: Phase::Succeeded, ..self }, Command::Done(Ok(()))),
                }
            },
            Phase::AwaitStop => if status.busy() {
                keep_waiting(self)
            } else {
                (Sequence { phase: Phase::Succeeded, ..self }, Command::Done(Ok(())))
            },
            Phase::Succeeded => (self, Command::Done(Ok(()))),
            Phase::Failed(e) => (self, Command::Done(Err(e))),
        }
    }

    /// Whether the sequence is over.
    pub fn is_finished(&self) -> (r: bool)
        ensures
            r == self.is_over(),
    {
        match self.phase {
            Phase::Succeeded | Phase::Failed(_) => true,
            _ => false,
        }
    }

    fn poll_again(&mut self) -> (cmd: Command)
        ensures
            (*final(self), cmd) == keep_waiting(*old(self)),
    {
        if self.polls_left == 0 {
            self.phase = Phase::Failed(DmaError::Timeout);
            Command::Done(Err(DmaError::Timeout))
        } else {
            self.polls_left = self.polls_left - 1;
            Command::Poll
        }
    }

    /// Advances the sequence, given the lane's CS and DEBUG registers as
    /// just read, and says what to do next.
    pub fn step(&mut self, status: &Channel) -> (cmd: Command)
        ensures
            (*final(self), cmd) == old(self).transition(*status),
    {
        match self.phase {
            Phase::WriteAbort => {
                self.phase = Phase::AwaitAbort;
                Command::WriteCs(CS_ABORT)
            },
            Phase::AwaitAbort => {
                if status.cs & CS_ABORT != 0 {
                    self.poll_again()
                } else {
                    self.phase = Phase::AwaitReset;
                    Command::WriteCs(CS_RESET)
                }
            },
            Phase::WriteReset => {
                self.phase = Phase::AwaitReset;
                Command::WriteCs(CS_RESET)
            },
            Phase::AwaitReset => {
                if status.cs & CS_RESET != 0 {
                    self.poll_again()
                } else {
                    self.phase = Phase::Succeeded;
                    Command::Done(Ok(()))
                }
            },
            Phase::AwaitIdle => {
                if status.is_busy() {
                    self.poll_again()
                } else {
                    self.phase = Phase::AwaitDone;
                    Command::Start { conblk_ad: self.control_block, cs: CS_ACTIVE }
                }
            },
            Phase::AwaitDone => {
                if status.is_busy() {
                    self.poll_again()
                } else {
                    match status.transfer_error() {
                        Some(e) => {
                            self.phase = Phase::Failed(DmaError::Transfer(e));
                            Command::Done(Err(DmaError::Transfer(e)))
                        },
                        None => {
                            self.phase = Phase::Succeeded;
                            Command::Done(Ok(()))
                        },
                    }
                }
            },
            Phase::AwaitStop => {
                if status.is_busy() {
                    self.poll_again()
                } else {
                    self.phase = Phase::Succeeded;
                    Command::Done(Ok(()))
                }
            },
            Phase::Succeeded => Command::Done(Ok(())),
            Phase::Failed(e) => Command::Done(Err(e)),
        }
    }
}

/// Every step of a sequence that is not over lowers its measure, so every
/// sequence ends, by success, error or timeout, after finitely many steps;
/// a finished sequence stays as it is and keeps reporting its outcome.
pub proof fn lemma_sequence_terminates(s: Sequence, status: Channel)
    ensures
        !s.is_over() ==> s.transition(status).0.measure() < s.measure(),
        s.is_over() ==> s.transition(status) == (s, Command::Done(outcome(s.phase))),
        s.transition(status).1 is Done <==> s.transition(status).0.is_over(),
{
}

/// A transfer is started only from the idle-wait phase, only when the lane
/// reads idle, and always on the sequence's control block with only the
/// active bit written.
pub proof fn lemma_start_only_when_idle(s: Sequence, status: Channel)
    ensures
        s.transition(status).1 is Start ==> {
            &&& s.phase == Phase::AwaitIdle
            &&& !status.busy()
            &&& s.transition(status).1 == Command::Start {
                conblk_ad: s.control_block,
                cs: CS_ACTIVE,
            }
        },
{
}

/// A transfer that has started reports success exactly when the lane reads
/// idle with no error condition set, and otherwise the conditions it saw.
pub proof fn lemma_transfer_outcome(s: Sequence, status: Channel)
    requires
        s.phase == Phase::AwaitDone,
        !status.busy(),
    ensures
        s.transition(status).1 == Command::Done(Ok(())) <==> !status.has_errors(),
        status.has_errors() ==> s.transition(status).1 == Command::Done(
            Err(DmaError::Transfer(status.error_report().unwrap())),
        ),
{
}

} // verus!
