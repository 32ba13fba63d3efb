//! Register-level model of the MP3326 sixteen-channel LED driver.
//!
//! The crate computes register addresses, packs and unpacks the chip's
//! registers, and plans the bus transactions of every driver operation. It
//! performs no I/O itself: a caller issues each planned transaction on its bus
//! and reports the outcome back.

use vstd::prelude::*;

pub mod bus;
pub mod regs;
pub mod types;

use crate::bus::Transaction;
use crate::regs::Register;
use crate::regs::NUM_OFFSETS;
use crate::types::Channels;
use crate::types::Control;
use crate::types::Current;
use crate::types::DimmingFreq;
use crate::types::Error;
use crate::types::OtpAndRefreshFreq;
use crate::types::Pwm;
use crate::types::PwmLsb;
use crate::types::PwmMsb;
use crate::types::RefreshFreq;
use crate::types::RegisterError;

verus! {

/// One MP3326 on the bus, known by its bus address.
///
/// Every operation returns the exchange to make with the chip; none touches
/// the bus. The address is fixed when the value is made.
#[derive(Debug, PartialEq, Eq, Copy, Clone, Structural)]
pub struct Mp3326 {
    addr: u8,
}

impl Mp3326 {
    /// The bus address of the chip.
    pub closed spec fn bus_addr_spec(self) -> u8 {
        self.addr
    }

    /// The write of `data` to a single register.
    pub open spec fn write_spec(self, reg: Register, data: u8) -> Transaction {
        Transaction::Write { bus_addr: self.bus_addr_spec(), register: reg.base() as u8, data }
    }

    /// The read of a single register.
    pub open spec fn read_spec(self, reg: Register) -> Transaction {
        Transaction::WriteRead { bus_addr: self.bus_addr_spec(), register: reg.base() as u8 }
    }

    /// The write of `data` to one channel's register of a family, or why
    /// there is none.
    pub open spec fn channel_write_spec(self, family: Register, offset: u8, data: u8) -> Result<
        Transaction,
        RegisterError,
    > {
        if offset >= NUM_OFFSETS {
            Err(RegisterError::InvalidOffset)
        } else if !family.is_channel_family() {
            Err(RegisterError::InvalidConversion)
        } else {
            Ok(
                Transaction::Write {
                    bus_addr: self.bus_addr_spec(),
                    register: (family.base() + 3 * offset) as u8,
                    data,
                },
            )
        }
    }

    /// The read of one channel's register of a family, or why there is none.
    pub open spec fn channel_read_spec(self, family: Register, offset: u8) -> Result<
        Transaction,
        RegisterError,
    > {
        if offset >= NUM_OFFSETS {
            Err(RegisterError::InvalidOffset)
        } else if !family.is_channel_family() {
            Err(RegisterError::InvalidConversion)
        } else {
            Ok(
                Transaction::WriteRead {
                    bus_addr: self.bus_addr_spec(),
                    register: (family.base() + 3 * offset) as u8,
                },
            )
        }
    }

    /// The start of a PWM update with duty `value` of the channel at
    /// `offset`: the write of the low register, and the state that holds the
    /// write of the high register.
    pub open spec fn pwm_start_spec(self, offset: u8, value: u16) -> Result<
        (Transaction, PwmState),
        RegisterError,
    > {
        if offset >= NUM_OFFSETS {
            Err(RegisterError::InvalidOffset)
        } else {
            Ok(
                (
                    Transaction::Write {
                        bus_addr: self.bus_addr_spec(),
                        register: (0x0b + 3 * offset) as u8,
                        data: Pwm::lsb_raw(value),
                    },
                    PwmState::AwaitingLsb {
                        msb: Transaction::Write {
                            bus_addr: self.bus_addr_spec(),
                            register: (0x0c + 3 * offset) as u8,
                            data: Pwm::msb_raw(value),
                        },
                    },
                ),
            )
        }
    }

    /// A driver for the chip at bus address `addr`. Nothing is sent.
    pub fn new(addr: u8) -> (chip: Mp3326)
        ensures
            chip.bus_addr_spec() == addr,
    {
        Mp3326 { addr }
    }

    /// The bus address of the chip.
    pub fn bus_addr(&self) -> (addr: u8)
        ensures
            addr == self.bus_addr_spec(),
    {
        self.addr
    }

    /// The write that puts `input` into the dimming-frequency register, at `0x00`.
    pub fn set_dimming_freq(&self, input: DimmingFreq) -> (t: Transaction)
        ensures
            t == self.write_spec(Register::DimmingFreq, input.raw_spec()),
            t.payload_spec() == seq![0x00u8, input.raw_spec()],
    {
        self.write_to(Register::DimmingFreq, u8::from(input))
    }

    /// The write that puts `input` into the control register, at `0x01`.
    pub fn set_control(&self, input: Control) -> (t: Transaction)
        ensures
            t == self.write_spec(Register::Control, input.raw_spec()),
            t.payload_spec() == seq![0x01u8, input.raw_spec()],
    {
        self.write_to(Register::Control, u8::from(input))
    }

    /// The write that puts `input` into the over-temperature and
    /// refresh-frequency register, at `0x02`.
    pub fn set_opt_and_refresh_freq(&self, input: OtpAndRefreshFreq) -> (t: Transaction)
        ensures
            t == self.write_spec(Register::OtpAndRefreshFreq, input.raw_spec()),
            t.payload_spec() == seq![0x02u8, input.raw_spec()],
    {
        self.write_to(Register::OtpAndRefreshFreq, u8::from(input))
    }

    /// The write that puts `input` into the refresh-frequency register, at `0x03`.
    pub fn set_refresh_freq(&self, input: RefreshFreq) -> (t: Transaction)
        ensures
            t == self.write_spec(Register::RefreshFreq, input.raw_spec()),
            t.payload_spec() == seq![0x03u8, input.raw_spec()],
    {
        self.write_to(Register::RefreshFreq, u8::from(input))
    }

    /// The write that puts `input` into the enable bank of channels 9 to 16, at `0x04`.
    pub fn set_channel_enables_9_16(&self, input: Channels) -> (t: Transaction)
        ensures
            t == self.write_spec(Register::ChannelEnable0, input.raw_spec()),
            t.payload_spec() == seq![0x04u8, input.raw_spec()],
    {
        self.write_to(Register::ChannelEnable0, u8::from(input))
    }

    /// The write that puts `input` into the enable bank of channels 1 to 8, at `0x05`.
    pub fn set_channel_enables_1_8(&self, input: Channels) -> (t: Transaction)
        ensures
            t == self.write_spec(Register::ChannelEnable1, input.raw_spec()),
            t.payload_spec() == seq![0x05u8, input.raw_spec()],
    {
        self.write_to(Register::ChannelEnable1, u8::from(input))
    }

    /// The write that puts `value` into the current register of the channel at `offset`:
    /// register `0x0a` plus three times the offset. There is none for
    /// an offset of sixteen or more, which is refused with `InvalidOffset`.
    pub fn set_channel_current(&self, offset: u8, value: Current) -> (r: Result<
        Transaction,
        RegisterError,
    >)
        ensures
            r == self.channel_write_spec(Register::ChannelCurrentStart, offset, value.raw_spec()),
            offset >= 16 ==> r == Err::<Transaction, RegisterError>(
                RegisterError::InvalidOffset,
            ),
            offset < 16 ==> r is Ok && r->Ok_0.payload_spec() == seq![
                (0x0a + 3 * offset) as u8,
                value.raw_spec(),
            ],
    {
        self.channel_write_to(Register::ChannelCurrentStart, offset, u8::from(value))
    }

    /// The write that puts `value` into the high PWM register of the channel at `offset`:
    /// register `0x0c` plus three times the offset. There is none for
    /// an offset of sixteen or more, which is refused with `InvalidOffset`.
    pub fn set_channel_pwm_msb(&self, offset: u8, value: PwmMsb) -> (r: Result<
        Transaction,
        RegisterError,
    >)
        ensures
            r == self.channel_write_spec(
                Register::ChannelPwmDutyMsbStart,
                offset,
                value.raw_spec(),
            ),
            offset >= 16 ==> r == Err::<Transaction, RegisterError>(
                RegisterError::InvalidOffset,
            ),
            offset < 16 ==> r is Ok && r->Ok_0.payload_spec() == seq![
                (0x0c + 3 * offset) as u8,
                value.raw_spec(),
            ],
    {
        self.channel_write_to(Register::ChannelPwmDutyMsbStart, offset, u8::from(value))
    }

    /// The write that puts `value` into the low PWM register of the channel at `offset`:
    /// register `0x0b` plus three times the offset. There is none for
    /// an offset of sixteen or more, which is refused with `InvalidOffset`.
    pub fn set_channel_pwm_lsb(&self, offset: u8, value: PwmLsb) -> (r: Result<
        Transaction,
        RegisterError,
    >)
        ensures
            r == self.channel_write_spec(
                Register::ChannelPwmDutyLsbStart,
                offset,
                value.raw_spec(),
            ),
            offset >= 16 ==> r == Err::<Transaction, RegisterError>(
                RegisterError::InvalidOffset,
            ),
            offset < 16 ==> r is Ok && r->Ok_0.payload_spec() == seq![
                (0x0b + 3 * offset) as u8,
                value.raw_spec(),
            ],
    {
        self.channel_write_to(Register::ChannelPwmDutyLsbStart, offset, u8::from(value))
    }

    /// The read of the dimming-frequency register, at `0x00`. The byte that comes back is
    /// unpacked as `DimmingFreq`.
    pub fn get_dimming_freq(&self) -> (t: Transaction)
        ensures
            t == self.read_spec(Register::DimmingFreq),
            t.payload_spec() == seq![0x00u8],
            t.read_len_spec() == 1,
    {
        self.read_from(Register::DimmingFreq)
    }

    /// The read of the control register, at `0x01`. The byte that comes back is
    /// unpacked as `Control`.
    pub fn get_control(&self) -> (t: Transaction)
        ensures
            t == self.read_spec(Register::Control),
            t.payload_spec() == seq![0x01u8],
            t.read_len_spec() == 1,
    {
        self.read_from(Register::Control)
    }

    /// The read of the over-temperature and refresh-frequency register, at
    /// `0x02`. The byte that comes back is unpacked as `OtpAndRefreshFreq`.
    pub fn get_opt_and_refresh_freq(&self) -> (t: Transaction)
        ensures
            t == self.read_spec(Register::OtpAndRefreshFreq),
            t.payload_spec() == seq![0x02u8],
            t.read_len_spec() == 1,
    {
        self.read_from(Register::OtpAndRefreshFreq)
    }

    /// The read of the refresh-frequency register, at `0x03`. The byte that comes back is
    /// unpacked as `RefreshFreq`.
    pub fn get_refresh_freq(&self) -> (t: Transaction)
        ensures
            t == self.read_spec(Register::RefreshFreq),
            t.payload_spec() == seq![0x03u8],
            t.read_len_spec() == 1,
    {
        self.read_from(Register::RefreshFreq)
    }

    /// The read of the enable bank of channels 9 to 16, at `0x04`. The byte that comes back is
    /// unpacked as `Channels`.
    pub fn get_channel_enables_9_16(&self) -> (t: Transaction)
        ensures
            t == self.read_spec(Register::ChannelEnable0),
            t.payload_spec() == seq![0x04u8],
            t.read_len_spec() == 1,
    {
        self.read_from(Register::ChannelEnable0)
    }

    /// The read of the enable bank of channels 1 to 8, at `0x05`. The byte that comes back is
    /// unpacked as `Channels`.
    pub fn get_channel_enables_1_8(&self) -> (t: Transaction)
        ensures
            t == self.read_spec(Register::ChannelEnable1),
            t.payload_spec() == seq![0x05u8],
            t.read_len_spec() == 1,
    {
        self.read_from(Register::ChannelEnable1)
    }

    /// The read of the open-fault bank of channels 9 to 16, at `0x06`. The byte that comes back is
    /// unpacked as `Channels`.
    pub fn get_channel_open_fault_9_16(&self) -> (t: Transaction)
        ensures
            t == self.read_spec(Register::ChannelOpenFault0),
            t.payload_spec() == seq![0x06u8],
            t.read_len_spec() == 1,
    {
        self.read_from(Register::ChannelOpenFault0)
    }

    /// The read of the open-fault bank of channels 1 to 8, at `0x07`. The byte that comes back is
    /// unpacked as `Channels`.
    pub fn get_channel_open_fault_1_8(&self) -> (t: Transaction)
        ensures
            t == self.read_spec(Register::ChannelOpenFault1),
            t.payload_spec() == seq![0x07u8],
            t.read_len_spec() == 1,
    {
        self.read_from(Register::ChannelOpenFault1)
    }

    /// The read of the short-fault bank of channels 9 to 16, at `0x08`. The byte that comes back is
    /// unpacked as `Channels`.
    pub fn get_channel_short_fault_9_16(&self) -> (t: Transaction)
        ensures
            t == self.read_spec(Register::ChannelShortFault0),
            t.payload_spec() == seq![0x08u8],
            t.read_len_spec() == 1,
    {
        self.read_from(Register::ChannelShortFault0)
    }

    /// The read of the short-fault bank of channels 1 to 8, at `0x09`. The byte that comes back is
    /// unpacked as `Channels`.
    pub fn get_channel_short_fault_1_8(&self) -> (t: Transaction)
        ensures
            t == self.read_spec(Register::ChannelShortFault1),
            t.payload_spec() == seq![0x09u8],
            t.read_len_spec() == 1,
    {
        self.read_from(Register::ChannelShortFault1)
    }

    /// The read of the current register of the channel at `offset`: register `0x0a`
    /// plus three times the offset. There is none for an offset of sixteen
    /// or more, which is refused with `InvalidOffset`. The byte that comes
    /// back is unpacked as `Current`.
    pub fn get_channel_current(&self, offset: u8) -> (r: Result<
        Transaction,
        RegisterError,
    >)
        ensures
            r == self.channel_read_spec(Register::ChannelCurrentStart, offset),
            offset >= 16 ==> r == Err::<Transaction, RegisterError>(
                RegisterError::InvalidOffset,
            ),
            offset < 16 ==> r is Ok && r->Ok_0.payload_spec() == seq![
                (0x0a + 3 * offset) as u8,
            ] && r->Ok_0.read_len_spec() == 1,
    {
        self.channel_read_from(Register::ChannelCurrentStart, offset)
    }

    /// The read of the high PWM register of the channel at `offset`: register `0x0c`
    /// plus three times the offset. There is none for an offset of sixteen
    /// or more, which is refused with `InvalidOffset`. The byte that comes
    /// back is unpacked as `PwmMsb`.
    pub fn get_channel_pwm_msb(&self, offset: u8) -> (r: Result<
        Transaction,
        RegisterError,
    >)
        ensures
            r == self.channel_read_spec(Register::ChannelPwmDutyMsbStart, offset),
            offset >= 16 ==> r == Err::<Transaction, RegisterError>(
                RegisterError::InvalidOffset,
            ),
            offset < 16 ==> r is Ok && r->Ok_0.payload_spec() == seq![
                (0x0c + 3 * offset) as u8,
            ] && r->Ok_0.read_len_spec() == 1,
    {
        self.channel_read_from(Register::ChannelPwmDutyMsbStart, offset)
    }

    /// The read of the low PWM register of the channel at `offset`: register `0x0b`
    /// plus three times the offset. There is none for an offset of sixteen
    /// or more, which is refused with `InvalidOffset`. The byte that comes
    /// back is unpacked as `PwmLsb`.
    pub fn get_channel_pwm_lsb(&self, offset: u8) -> (r: Result<
        Transaction,
        RegisterError,
    >)
        ensures
            r == self.channel_read_spec(Register::ChannelPwmDutyLsbStart, offset),
            offset >= 16 ==> r == Err::<Transaction, RegisterError>(
                RegisterError::InvalidOffset,
            ),
            offset < 16 ==> r is Ok && r->Ok_0.payload_spec() == seq![
                (0x0b + 3 * offset) as u8,
            ] && r->Ok_0.read_len_spec() == 1,
    {
        self.channel_read_from(Register::ChannelPwmDutyLsbStart, offset)
    }

    /// The start of a PWM update of the channel at `offset`.
    ///
    /// The duty goes out as two writes, the low register first and the high
    /// register second: the chip takes a new duty over when the high
    /// register is written. The result is the first write and the state that
    /// waits for its outcome, which holds the second.
    /// There is no update for an offset of sixteen or more, which is refused
    /// with `InvalidOffset` before anything is written.
    pub fn set_channel_pwm(&self, offset: u8, value: Pwm) -> (r: Result<
        (Transaction, PwmState),
        RegisterError,
    >)
        ensures
            r == self.pwm_start_spec(offset, value.value_spec()),
            offset >= 16 ==> r == Err::<(Transaction, PwmState), RegisterError>(
                RegisterError::InvalidOffset,
            ),
            offset < 16 ==> r is Ok,
    {
        let msb: PwmMsb = PwmMsb::from(value);
        let lsb: PwmLsb = PwmLsb::from(value);
        let first = match self.set_channel_pwm_lsb(offset, lsb) {
            Ok(t) => t,
            Err(e) => {
                return Err(e);
            },
        };
        let second = match self.set_channel_pwm_msb(offset, msb) {
            Ok(t) => t,
            Err(e) => {
                return Err(e);
            },
        };
        Ok((first, PwmState::AwaitingLsb { msb: second }))
    }

    fn write_to(&self, reg: Register, data: u8) -> (t: Transaction)
        requires
            !reg.is_channel_family(),
        ensures
            t == self.write_spec(reg, data),
    {
        Transaction::Write { bus_addr: self.addr, register: reg.addr().unwrap(), data }
    }

    fn read_from(&self, reg: Register) -> (t: Transaction)
        requires
            !reg.is_channel_family(),
        ensures
            t == self.read_spec(reg),
    {
        Transaction::WriteRead { bus_addr: self.addr, register: reg.addr().unwrap() }
    }

    fn channel_write_to(&self, family: Register, offset: u8, data: u8) -> (r: Result<
        Transaction,
        RegisterError,
    >)
        ensures
            r == self.channel_write_spec(family, offset, data),
    {
        match family.offset_addr(offset) {
            Ok(register) => Ok(Transaction::Write { bus_addr: self.addr, register, data }),
            Err(e) => Err(e),
        }
    }

    fn channel_read_from(&self, family: Register, offset: u8) -> (r: Result<
        Transaction,
        RegisterError,
    >)
        ensures
            r == self.channel_read_spec(family, offset),
    {
        match family.offset_addr(offset) {
            Ok(register) => Ok(Transaction::WriteRead { bus_addr: self.addr, register }),
            Err(e) => Err(e),
        }
    }
}

/// Where a PWM update stands between two exchanges.
#[derive(Debug, PartialEq, Eq, Copy, Clone, Structural)]
pub enum PwmState {
    /// The write of the low register is on the bus; `msb` is the write of the
    /// high register that follows if it succeeds.
    AwaitingLsb { msb: Transaction },
    /// The write of the high register is on the bus.
    AwaitingMsb,
}

/// What a PWM update does after an exchange has ended.
#[derive(Debug, PartialEq, Eq)]
pub enum PwmNext<E> {
    /// Make this exchange next, and report its outcome to this state.
    Issue(Transaction, PwmState),
    /// The update has ended, with this result.
    Done(Result<(), Error<E>>),
}

impl PwmState {
    /// The step that follows the outcome `reply` of the exchange that this
    /// state waits for.
    pub open spec fn next_spec<E>(self, reply: Result<(), E>) -> PwmNext<E> {
        match reply {
            Err(e) => PwmNext::Done(Err(Error::Bus(e))),
            Ok(_) => match self {
                PwmState::AwaitingLsb { msb } => PwmNext::Issue(msb, PwmState::AwaitingMsb),
                PwmState::AwaitingMsb => PwmNext::Done(Ok(())),
            },
        }
    }

    /// Takes the outcome of the exchange that this state waits for, and says
    /// what follows.
    ///
    /// A failure ends the update at once with the bus's error: after a failed
    /// write of the low register the high register is not written. A
    /// success of the low register's write is followed by the write of the
    /// high register, and a success of that one ends the update.
    pub fn on_reply<E>(self, reply: Result<(), E>) -> (next: PwmNext<E>)
        ensures
            next == self.next_spec(reply),
    {
        match reply {
            Err(e) => PwmNext::Done(Err(Error::Bus(e))),
            Ok(_) => match self {
                PwmState::AwaitingLsb { msb } => PwmNext::Issue(msb, PwmState::AwaitingMsb),
                PwmState::AwaitingMsb => PwmNext::Done(Ok(())),
            },
        }
    }
}

/// The course of a PWM update on a bus that answers with `replies`, one
/// answer per exchange in order: the exchanges made, and the result once the
/// update has ended. `first` is the exchange to make and `state` the state
/// that waits for it.
pub open spec fn pwm_run<E>(
    first: Transaction,
    state: PwmState,
    replies: Seq<Result<(), E>>,
) -> (Seq<Transaction>, Option<Result<(), Error<E>>>)
    decreases replies.len(),
{
    if replies.len() == 0 {
        (seq![first], None)
    } else {
        match state.next_spec(replies[0]) {
            PwmNext::Done(result) => (seq![first], Some(result)),
            PwmNext::Issue(then, waiting) => {
                let rest = pwm_run(then, waiting, replies.drop_first());
                (seq![first] + rest.0, rest.1)
            },
        }
    }
}

/// On a bus that accepts both writes, a PWM update makes exactly two
/// exchanges and succeeds: first the write of the low register, then the
/// write of the high register, each with its share of the duty.
pub proof fn lemma_pwm_update_order<E>(chip: Mp3326, offset: u8, value: u16)
    requires
        offset < NUM_OFFSETS,
        value < 4096,
    ensures
        chip.pwm_start_spec(offset, value) is Ok,
        ({
            let start = chip.pwm_start_spec(offset, value)->Ok_0;
            pwm_run::<E>(start.0, start.1, seq![Ok(()), Ok(())]) == (
                seq![
                    Transaction::Write {
                        bus_addr: chip.bus_addr_spec(),
                        register: (0x0b + 3 * offset) as u8,
                        data: Pwm::lsb_raw(value),
                    },
                    Transaction::Write {
                        bus_addr: chip.bus_addr_spec(),
                        register: (0x0c + 3 * offset) as u8,
                        data: Pwm::msb_raw(value),
                    },
                ],
                Some(Ok::<(), Error<E>>(())),
            )
        }),
{
    let start = chip.pwm_start_spec(offset, value)->Ok_0;
    let replies = seq![Ok::<(), E>(()), Ok::<(), E>(())];
    let rest = replies.drop_first();
    assert(rest.len() == 1);
    assert(rest.drop_first().len() == 0);
    reveal_with_fuel(pwm_run, 3);
    let run = pwm_run::<E>(start.0, start.1, replies);
    assert(run.0 =~= seq![start.0, start.1->msb]);
}

/// On a bus that refuses the first write, a PWM update makes that one
/// exchange and no other, and ends with the bus's error.
pub proof fn lemma_pwm_update_abort<E>(
    chip: Mp3326,
    offset: u8,
    value: u16,
    replies: Seq<Result<(), E>>,
)
    requires
        offset < NUM_OFFSETS,
        value < 4096,
        replies.len() >= 1,
        replies[0] is Err,
    ensures
        chip.pwm_start_spec(offset, value) is Ok,
        ({
            let start = chip.pwm_start_spec(offset, value)->Ok_0;
            pwm_run::<E>(start.0, start.1, replies) == (
                seq![
                    Transaction::Write {
                        bus_addr: chip.bus_addr_spec(),
                        register: (0x0b + 3 * offset) as u8,
                        data: Pwm::lsb_raw(value),
                    },
                ],
                Some(Err::<(), Error<E>>(Error::Bus(replies[0]->Err_0))),
            )
        }),
{
}

/// Whatever the bus answers, a PWM update makes at most two exchanges, the
/// first of them the write of the low register, and it has ended once two
/// answers are in.
pub proof fn lemma_pwm_update_bounded<E>(
    chip: Mp3326,
    offset: u8,
    value: u16,
    replies: Seq<Result<(), E>>,
)
    requires
        offset < NUM_OFFSETS,
        value < 4096,
    ensures
        chip.pwm_start_spec(offset, value) is Ok,
        ({
            let start = chip.pwm_start_spec(offset, value)->Ok_0;
            let run = pwm_run::<E>(start.0, start.1, replies);
            &&& 1 <= run.0.len() <= 2
            &&& run.0[0] == start.0
            &&& run.0.len() == 2 ==> run.0[1] == start.1->msb && replies[0] is Ok
            &&& replies.len() >= 2 ==> run.1 is Some
        }),
{
    reveal_with_fuel(pwm_run, 3);
    if replies.len() >= 1 {
        let rest = replies.drop_first();
        if rest.len() >= 1 {
            assert(rest[0] == replies[1]);
        }
    }
}

} // verus!
