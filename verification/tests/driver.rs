use mp3326::bus::read_outcome;
use mp3326::bus::write_outcome;
use mp3326::bus::Transaction;
use mp3326::types::Channels;
use mp3326::types::Control;
use mp3326::types::Current;
use mp3326::types::DimmingFreq;
use mp3326::types::Error;
use mp3326::types::OtpAndRefreshFreq;
use mp3326::types::Pwm;
use mp3326::types::PwmLsb;
use mp3326::types::PwmMsb;
use mp3326::types::RefreshFreq;
use mp3326::types::RegisterError;
use mp3326::types::FPWM;
use mp3326::Mp3326;
use mp3326::PwmNext;
use mp3326::PwmState;

const CHIP: u8 = 0x30;

/// A bus that records what is sent and answers from a script.
struct SpyBus {
    sent: Vec<(u8, Vec<u8>, usize)>,
    replies: Vec<Result<(), u32>>,
}

impl SpyBus {
    fn new(replies: Vec<Result<(), u32>>) -> SpyBus {
        SpyBus { sent: Vec::new(), replies }
    }

    fn perform(&mut self, t: Transaction) -> Result<(), u32> {
        self.sent.push((t.bus_addr(), t.payload(), t.read_len()));
        self.replies.remove(0)
    }
}

fn run_pwm(bus: &mut SpyBus, offset: u8, value: u16) -> Result<(), Error<u32>> {
    let chip = Mp3326::new(CHIP);
    let pwm = Pwm::new().with_value(value);
    let (mut next, mut state) = match chip.set_channel_pwm(offset, pwm) {
        Ok(start) => start,
        Err(e) => return Err(Error::Register(e)),
    };
    loop {
        let reply = bus.perform(next);
        match state.on_reply(reply) {
            PwmNext::Issue(t, s) => {
                next = t;
                state = s;
            }
            PwmNext::Done(result) => return result,
        }
    }
}

#[test]
fn new_sends_nothing_and_keeps_the_address() {
    let chip = Mp3326::new(0x31);
    assert_eq!(chip.bus_addr(), 0x31);
    assert_eq!(chip.get_control().bus_addr(), 0x31);
}

#[test]
fn pwm_update_writes_lsb_then_msb() {
    let mut bus = SpyBus::new(vec![Ok(()), Ok(())]);
    assert_eq!(run_pwm(&mut bus, 5, 2048), Ok(()));
    assert_eq!(
        bus.sent,
        vec![(CHIP, vec![0x0b + 15, 0x00], 0), (CHIP, vec![0x0c + 15, 0x80], 0)]
    );
}

#[test]
fn pwm_update_order_for_every_channel() {
    for offset in 0u8..16 {
        let mut bus = SpyBus::new(vec![Ok(()), Ok(())]);
        assert_eq!(run_pwm(&mut bus, offset, 0x0abc), Ok(()));
        assert_eq!(bus.sent.len(), 2);
        assert_eq!(bus.sent[0], (CHIP, vec![0x0b + 3 * offset, 0xc0], 0));
        assert_eq!(bus.sent[1], (CHIP, vec![0x0c + 3 * offset, 0xab], 0));
    }
}

#[test]
fn pwm_update_stops_after_failed_lsb_write() {
    let mut bus = SpyBus::new(vec![Err(9), Ok(())]);
    assert_eq!(run_pwm(&mut bus, 5, 2048), Err(Error::Bus(9)));
    assert_eq!(bus.sent, vec![(CHIP, vec![0x1a, 0x00], 0)]);
    assert_eq!(bus.replies.len(), 1);
}

#[test]
fn pwm_update_reports_failed_msb_write() {
    let mut bus = SpyBus::new(vec![Ok(()), Err(4)]);
    assert_eq!(run_pwm(&mut bus, 0, 4095), Err(Error::Bus(4)));
    assert_eq!(bus.sent, vec![(CHIP, vec![0x0b, 0xf0], 0), (CHIP, vec![0x0c, 0xff], 0)]);
}

#[test]
fn pwm_update_refuses_offset_16_before_any_write() {
    let mut bus = SpyBus::new(vec![]);
    assert_eq!(
        run_pwm(&mut bus, 16, 100),
        Err(Error::Register(RegisterError::InvalidOffset))
    );
    assert!(bus.sent.is_empty());
}

#[test]
fn pwm_update_steps() {
    let chip = Mp3326::new(CHIP);
    let (first, state) = chip.set_channel_pwm(5, Pwm::new().with_value(2048)).unwrap();
    let msb = Transaction::Write { bus_addr: CHIP, register: 0x1b, data: 0x80 };
    assert_eq!(first, Transaction::Write { bus_addr: CHIP, register: 0x1a, data: 0x00 });
    assert_eq!(state, PwmState::AwaitingLsb { msb });
    assert_eq!(state.on_reply::<u32>(Ok(())), PwmNext::Issue(msb, PwmState::AwaitingMsb));
    assert_eq!(state.on_reply(Err(3u32)), PwmNext::Done(Err(Error::Bus(3))));
    assert_eq!(PwmState::AwaitingMsb.on_reply::<u32>(Ok(())), PwmNext::Done(Ok(())));
    assert_eq!(PwmState::AwaitingMsb.on_reply(Err(8u32)), PwmNext::Done(Err(Error::Bus(8))));
}

#[test]
fn reading_enable_bank_1_writes_0x05_and_reads_one_byte() {
    let chip = Mp3326::new(CHIP);
    let t = chip.get_channel_enables_1_8();
    assert_eq!(t, Transaction::WriteRead { bus_addr: CHIP, register: 0x05 });
    assert_eq!(t.payload(), vec![0x05]);
    assert_eq!(t.read_len(), 1);
    let got: Result<Channels, Error<u32>> = read_outcome(Ok(0b0000_0101));
    let c = got.unwrap();
    assert!(c.offset0 && c.offset2);
    assert!(!c.offset1 && !c.offset3 && !c.offset4 && !c.offset5 && !c.offset6 && !c.offset7);
}

#[test]
fn setters_write_address_then_data() {
    let chip = Mp3326::new(CHIP);
    let w = |register: u8, data: u8| Transaction::Write { bus_addr: CHIP, register, data };
    assert_eq!(chip.set_dimming_freq(DimmingFreq { fpwm: FPWM::Hz280 }), w(0x00, 0x02));
    assert_eq!(chip.set_control(Control::default()), w(0x01, 0x40));
    assert_eq!(chip.set_opt_and_refresh_freq(OtpAndRefreshFreq::default()), w(0x02, 0x01));
    assert_eq!(chip.set_refresh_freq(RefreshFreq::default()), w(0x03, 0x6a));
    assert_eq!(chip.set_channel_enables_9_16(Channels::from(0x81)), w(0x04, 0x81));
    assert_eq!(chip.set_channel_enables_1_8(Channels::from(0xff)), w(0x05, 0xff));
    let t = chip.set_control(Control::default());
    assert_eq!(t.payload(), vec![0x01, 0x40]);
    assert_eq!(t.read_len(), 0);
    assert_eq!(t.register(), 0x01);
}

#[test]
fn channel_setters_write_to_the_channel_register() {
    let chip = Mp3326::new(CHIP);
    let w = |register: u8, data: u8| Ok(Transaction::Write { bus_addr: CHIP, register, data });
    let current = Current::new().with_channel_current(0x20);
    assert_eq!(chip.set_channel_current(5, current), w(0x0a + 15, 0x20));
    assert_eq!(chip.set_channel_current(0, Current::default()), w(0x0a, 0x3f));
    assert_eq!(chip.set_channel_pwm_lsb(15, PwmLsb::from(0xa0)), w(0x0b + 45, 0xa0));
    assert_eq!(chip.set_channel_pwm_msb(15, PwmMsb::from(0x12)), w(0x0c + 45, 0x12));
}

#[test]
fn channel_operations_refuse_offset_16() {
    let chip = Mp3326::new(CHIP);
    let refused = Err(RegisterError::InvalidOffset);
    assert_eq!(chip.set_channel_current(16, Current::default()), refused);
    assert_eq!(chip.set_channel_pwm_lsb(16, PwmLsb::new()), refused);
    assert_eq!(chip.set_channel_pwm_msb(255, PwmMsb::new()), refused);
    assert_eq!(chip.get_channel_current(16), refused);
    assert_eq!(chip.get_channel_pwm_lsb(200), refused);
    assert_eq!(chip.get_channel_pwm_msb(16), refused);
    assert_eq!(chip.set_channel_pwm(16, Pwm::new()), Err(RegisterError::InvalidOffset));
}

#[test]
fn getters_read_their_register() {
    let chip = Mp3326::new(CHIP);
    let r = |register: u8| Transaction::WriteRead { bus_addr: CHIP, register };
    assert_eq!(chip.get_dimming_freq(), r(0x00));
    assert_eq!(chip.get_control(), r(0x01));
    assert_eq!(chip.get_opt_and_refresh_freq(), r(0x02));
    assert_eq!(chip.get_refresh_freq(), r(0x03));
    assert_eq!(chip.get_channel_enables_9_16(), r(0x04));
    assert_eq!(chip.get_channel_enables_1_8(), r(0x05));
    assert_eq!(chip.get_channel_open_fault_9_16(), r(0x06));
    assert_eq!(chip.get_channel_open_fault_1_8(), r(0x07));
    assert_eq!(chip.get_channel_short_fault_9_16(), r(0x08));
    assert_eq!(chip.get_channel_short_fault_1_8(), r(0x09));
    assert_eq!(chip.get_channel_current(3), Ok(r(0x0a + 9)));
    assert_eq!(chip.get_channel_pwm_lsb(3), Ok(r(0x0b + 9)));
    assert_eq!(chip.get_channel_pwm_msb(3), Ok(r(0x0c + 9)));
}

#[test]
fn write_outcome_marks_bus_failures() {
    assert_eq!(write_outcome::<u32>(Ok(())), Ok(()));
    assert_eq!(write_outcome(Err(5u32)), Err(Error::Bus(5)));
}

#[test]
fn read_outcome_unpacks_or_marks_bus_failures() {
    let control: Result<Control, Error<u32>> = read_outcome(Ok(0x40));
    assert_eq!(control, Ok(Control::default()));
    let current: Result<Current, Error<u32>> = read_outcome(Ok(0xff));
    assert_eq!(current.map(u8::from), Ok(0x3f));
    let failed: Result<Control, Error<u32>> = read_outcome(Err(6));
    assert_eq!(failed, Err(Error::Bus(6)));
}
