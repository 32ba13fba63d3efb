//! Typed register values and the error types of the driver.
//!
//! Every register value converts to and from the byte that travels on the
//! bus. Bits that the chip does not use are dropped when a byte is unpacked
//! and written as zero when a value is packed.

use vstd::prelude::*;

verus! {

/// Whether bit `pos` of `raw` is set.
pub open spec fn bit(raw: u8, pos: u8) -> bool {
    (raw >> pos) & 1 == 1
}

/// The byte that has bit `pos` set if `on`, and nothing else.
pub open spec fn flag(on: bool, pos: u8) -> u8 {
    if on {
        1u8 << pos
    } else {
        0u8
    }
}

/// The bits of `raw` from position `pos` upwards that `mask` keeps, moved
/// down to position 0.
pub open spec fn field(raw: u8, pos: u8, mask: u8) -> u8 {
    (raw >> pos) & mask
}

fn get_bit(raw: u8, pos: u8) -> (on: bool)
    requires
        pos < 8,
    ensures
        on == bit(raw, pos),
{
    (raw >> pos) & 1 == 1
}

fn put_bit(on: bool, pos: u8) -> (raw: u8)
    requires
        pos < 8,
    ensures
        raw == flag(on, pos),
{
    if on {
        1u8 << pos
    } else {
        0u8
    }
}

fn get_field(raw: u8, pos: u8, mask: u8) -> (bits: u8)
    requires
        pos < 8,
    ensures
        bits == field(raw, pos, mask),
{
    (raw >> pos) & mask
}

/// PWM dimming frequency, a two-bit selector.
#[derive(Debug, PartialEq, Eq, Copy, Clone, Structural)]
pub enum FPWM {
    Hz220,
    Hz250,
    Hz280,
    Hz330,
}

impl FPWM {
    /// The selector's two-bit code.
    pub open spec fn bits_spec(self) -> u8 {
        match self {
            FPWM::Hz220 => 0,
            FPWM::Hz250 => 1,
            FPWM::Hz280 => 2,
            FPWM::Hz330 => 3,
        }
    }

    /// The selector whose code is the two low bits of `bits`.
    pub open spec fn from_bits_spec(bits: u8) -> FPWM {
        if bits & 3 == 0 {
            FPWM::Hz220
        } else if bits & 3 == 1 {
            FPWM::Hz250
        } else if bits & 3 == 2 {
            FPWM::Hz280
        } else {
            FPWM::Hz330
        }
    }

    /// The selector's two-bit code.
    pub fn bits(self) -> (bits: u8)
        ensures
            bits == self.bits_spec(),
            bits < 4,
    {
        match self {
            FPWM::Hz220 => 0,
            FPWM::Hz250 => 1,
            FPWM::Hz280 => 2,
            FPWM::Hz330 => 3,
        }
    }

    /// The selector whose code is the two low bits of `bits`. All four codes
    /// are legal.
    pub fn from_bits(bits: u8) -> (s: FPWM)
        ensures
            s == FPWM::from_bits_spec(bits),
            s.bits_spec() == bits & 3,
    {
        let code: u8 = bits & 3;
        proof {
            lemma_fpwm_codes(bits, FPWM::Hz220);
        }
        if code == 0 {
            FPWM::Hz220
        } else if code == 1 {
            FPWM::Hz250
        } else if code == 2 {
            FPWM::Hz280
        } else {
            FPWM::Hz330
        }
    }
}

/// A selector and its two-bit code determine each other.
pub proof fn lemma_fpwm_codes(bits: u8, s: FPWM)
    ensures
        FPWM::from_bits_spec(bits).bits_spec() == bits & 3,
        FPWM::from_bits_spec(s.bits_spec()) == s,
        s.bits_spec() < 4,
{
    assert(bits & 3 < 4) by (bit_vector);
    assert(0u8 & 3 == 0 && 1u8 & 3 == 1 && 2u8 & 3 == 2 && 3u8 & 3 == 3) by (bit_vector);
}

/// Voltage above which an output counts as shorted, a two-bit selector.
#[derive(Debug, PartialEq, Eq, Copy, Clone, Structural)]
pub enum ShortThreshold {
    V2,
    V3,
    V4,
    V5,
}

impl ShortThreshold {
    /// The selector's two-bit code.
    pub open spec fn bits_spec(self) -> u8 {
        match self {
            ShortThreshold::V2 => 0,
            ShortThreshold::V3 => 1,
            ShortThreshold::V4 => 2,
            ShortThreshold::V5 => 3,
        }
    }

    /// The selector whose code is the two low bits of `bits`.
    pub open spec fn from_bits_spec(bits: u8) -> ShortThreshold {
        if bits & 3 == 0 {
            ShortThreshold::V2
        } else if bits & 3 == 1 {
            ShortThreshold::V3
        } else if bits & 3 == 2 {
            ShortThreshold::V4
        } else {
            ShortThreshold::V5
        }
    }

    /// The selector's two-bit code.
    pub fn bits(self) -> (bits: u8)
        ensures
            bits == self.bits_spec(),
            bits < 4,
    {
        match self {
            ShortThreshold::V2 => 0,
            ShortThreshold::V3 => 1,
            ShortThreshold::V4 => 2,
            ShortThreshold::V5 => 3,
        }
    }

    /// The selector whose code is the two low bits of `bits`. All four codes
    /// are legal.
    pub fn from_bits(bits: u8) -> (s: ShortThreshold)
        ensures
            s == ShortThreshold::from_bits_spec(bits),
            s.bits_spec() == bits & 3,
    {
        let code: u8 = bits & 3;
        proof {
            lemma_short_threshold_codes(bits, ShortThreshold::V2);
        }
        if code == 0 {
            ShortThreshold::V2
        } else if code == 1 {
            ShortThreshold::V3
        } else if code == 2 {
            ShortThreshold::V4
        } else {
            ShortThreshold::V5
        }
    }
}

/// A selector and its two-bit code determine each other.
pub proof fn lemma_short_threshold_codes(bits: u8, s: ShortThreshold)
    ensures
        ShortThreshold::from_bits_spec(bits).bits_spec() == bits & 3,
        ShortThreshold::from_bits_spec(s.bits_spec()) == s,
        s.bits_spec() < 4,
{
    assert(bits & 3 < 4) by (bit_vector);
    assert(0u8 & 3 == 0 && 1u8 & 3 == 1 && 2u8 & 3 == 2 && 3u8 & 3 == 3) by (bit_vector);
}

/// Slew rate of the output edges, a two-bit selector.
#[derive(Debug, PartialEq, Eq, Copy, Clone, Structural)]
pub enum Slew {
    NoSlew,
    Us5,
    Us10,
    Us20,
}

impl Slew {
    /// The selector's two-bit code.
    pub open spec fn bits_spec(self) -> u8 {
        match self {
            Slew::NoSlew => 0,
            Slew::Us5 => 1,
            Slew::Us10 => 2,
            Slew::Us20 => 3,
        }
    }

    /// The selector whose code is the two low bits of `bits`.
    pub open spec fn from_bits_spec(bits: u8) -> Slew {
        if bits & 3 == 0 {
            Slew::NoSlew
        } else if bits & 3 == 1 {
            Slew::Us5
        } else if bits & 3 == 2 {
            Slew::Us10
        } else {
            Slew::Us20
        }
    }

    /// The selector's two-bit code.
    pub fn bits(self) -> (bits: u8)
        ensures
            bits == self.bits_spec(),
            bits < 4,
    {
        match self {
            Slew::NoSlew => 0,
            Slew::Us5 => 1,
            Slew::Us10 => 2,
            Slew::Us20 => 3,
        }
    }

    /// The selector whose code is the two low bits of `bits`. All four codes
    /// are legal.
    pub fn from_bits(bits: u8) -> (s: Slew)
        ensures
            s == Slew::from_bits_spec(bits),
            s.bits_spec() == bits & 3,
    {
        let code: u8 = bits & 3;
        proof {
            lemma_slew_codes(bits, Slew::NoSlew);
        }
        if code == 0 {
            Slew::NoSlew
        } else if code == 1 {
            Slew::Us5
        } else if code == 2 {
            Slew::Us10
        } else {
            Slew::Us20
        }
    }
}

/// A selector and its two-bit code determine each other.
pub proof fn lemma_slew_codes(bits: u8, s: Slew)
    ensures
        Slew::from_bits_spec(bits).bits_spec() == bits & 3,
        Slew::from_bits_spec(s.bits_spec()) == s,
        s.bits_spec() < 4,
{
    assert(bits & 3 < 4) by (bit_vector);
    assert(0u8 & 3 == 0 && 1u8 & 3 == 1 && 2u8 & 3 == 2 && 3u8 & 3 == 3) by (bit_vector);
}

/// The dimming-frequency register: the PWM frequency in bits 0 and 1.
#[derive(Debug, PartialEq, Eq, Copy, Clone, Structural)]
pub struct DimmingFreq {
    pub fpwm: FPWM,
}

impl DimmingFreq {
    /// The bits of the register that the chip uses.
    pub open spec fn used_bits() -> u8 {
        0x03
    }

    /// The byte that holds this value.
    pub open spec fn raw_spec(self) -> u8 {
        self.fpwm.bits_spec()
    }

    /// The value that a byte holds.
    pub open spec fn from_raw_spec(raw: u8) -> DimmingFreq {
        DimmingFreq { fpwm: FPWM::from_bits_spec(field(raw, 0, 3)) }
    }

    /// The value whose byte is zero.
    pub fn new() -> (v: DimmingFreq)
        ensures
            v.fpwm == FPWM::Hz220,
            v.raw_spec() == 0,
    {
        DimmingFreq { fpwm: FPWM::Hz220 }
    }
}

impl From<u8> for DimmingFreq {
    /// Unpacks a register byte; bits 2 to 7 are ignored.
    fn from(raw: u8) -> (v: DimmingFreq)
        ensures
            v == DimmingFreq::from_raw_spec(raw),
    {
        DimmingFreq { fpwm: FPWM::from_bits(get_field(raw, 0, 3)) }
    }
}

impl vstd::std_specs::convert::FromSpecImpl<u8> for DimmingFreq {
    open spec fn obeys_from_spec() -> bool {
        true
    }

    open spec fn from_spec(raw: u8) -> DimmingFreq {
        DimmingFreq::from_raw_spec(raw)
    }
}

impl From<DimmingFreq> for u8 {
    /// Packs the value into its register byte; bits 2 to 7 are zero.
    fn from(v: DimmingFreq) -> (raw: u8)
        ensures
            raw == v.raw_spec(),
    {
        v.fpwm.bits()
    }
}

impl vstd::std_specs::convert::FromSpecImpl<DimmingFreq> for u8 {
    open spec fn obeys_from_spec() -> bool {
        true
    }

    open spec fn from_spec(v: DimmingFreq) -> u8 {
        v.raw_spec()
    }
}

/// Unpacking a byte and packing it again keeps bits 0 and 1 and clears the
/// rest.
pub proof fn lemma_dimming_freq_unpack_pack(raw: u8)
    ensures
        DimmingFreq::from_raw_spec(raw).raw_spec() == raw & DimmingFreq::used_bits(),
{
    lemma_fpwm_codes(field(raw, 0, 3), FPWM::Hz220);
    assert((raw >> 0) & 3 & 3 == raw & 0x03) by (bit_vector);
}

/// Packing a value and unpacking the byte gives the value back.
pub proof fn lemma_dimming_freq_pack_unpack(v: DimmingFreq)
    ensures
        DimmingFreq::from_raw_spec(v.raw_spec()) == v,
{
    lemma_fpwm_codes(0, v.fpwm);
    let c = v.fpwm.bits_spec();
    assert((c >> 0) & 3 & 3 == c) by (bit_vector)
        requires
            c < 4,
    ;
}

/// The master control register.
///
/// Bit 0 enables the device and bit 1 the phase shift between channels; bits
/// 2 and 3 select the slew rate, bits 4 and 5 the short threshold; bit 6
/// latches faults and bit 7 enables fault reporting.
#[derive(Debug, PartialEq, Eq, Copy, Clone, Structural)]
pub struct Control {
    pub device_enable: bool,
    pub phase_shift_enable: bool,
    pub slew: Slew,
    pub short_threshold: ShortThreshold,
    pub latch_enable: bool,
    pub fault_enable: bool,
}

impl Control {
    /// The bits of the register that the chip uses: all of them.
    pub open spec fn used_bits() -> u8 {
        0xff
    }

    /// The byte that holds this value.
    pub open spec fn raw_spec(self) -> u8 {
        flag(self.device_enable, 0) | flag(self.phase_shift_enable, 1) | (self.slew.bits_spec()
            << 2) | (self.short_threshold.bits_spec() << 4) | flag(self.latch_enable, 6) | flag(
            self.fault_enable,
            7,
        )
    }

    /// The value that a byte holds.
    pub open spec fn from_raw_spec(raw: u8) -> Control {
        Control {
            device_enable: bit(raw, 0),
            phase_shift_enable: bit(raw, 1),
            slew: Slew::from_bits_spec(field(raw, 2, 3)),
            short_threshold: ShortThreshold::from_bits_spec(field(raw, 4, 3)),
            latch_enable: bit(raw, 6),
            fault_enable: bit(raw, 7),
        }
    }

    /// The value at reset, as the data sheet gives it: only the fault latch
    /// is on.
    pub open spec fn reset_spec() -> Control {
        Control {
            device_enable: false,
            phase_shift_enable: false,
            slew: Slew::NoSlew,
            short_threshold: ShortThreshold::V2,
            latch_enable: true,
            fault_enable: false,
        }
    }

    /// The value whose byte is zero.
    pub fn new() -> (v: Control)
        ensures
            v == Control::from_raw_spec(0),
            v.raw_spec() == 0,
    {
        proof {
            lemma_control_unpack_pack(0);
        }
        Control::from(0)
    }
}

impl From<u8> for Control {
    /// Unpacks a register byte.
    fn from(raw: u8) -> (v: Control)
        ensures
            v == Control::from_raw_spec(raw),
    {
        Control {
            device_enable: get_bit(raw, 0),
            phase_shift_enable: get_bit(raw, 1),
            slew: Slew::from_bits(get_field(raw, 2, 3)),
            short_threshold: ShortThreshold::from_bits(get_field(raw, 4, 3)),
            latch_enable: get_bit(raw, 6),
            fault_enable: get_bit(raw, 7),
        }
    }
}

impl vstd::std_specs::convert::FromSpecImpl<u8> for Control {
    open spec fn obeys_from_spec() -> bool {
        true
    }

    open spec fn from_spec(raw: u8) -> Control {
        Control::from_raw_spec(raw)
    }
}

impl From<Control> for u8 {
    /// Packs the value into its register byte.
    fn from(v: Control) -> (raw: u8)
        ensures
            raw == v.raw_spec(),
    {
        put_bit(v.device_enable, 0) | put_bit(v.phase_shift_enable, 1) | (v.slew.bits() << 2) | (
        v.short_threshold.bits() << 4) | put_bit(v.latch_enable, 6) | put_bit(v.fault_enable, 7)
    }
}

impl vstd::std_specs::convert::FromSpecImpl<Control> for u8 {
    open spec fn obeys_from_spec() -> bool {
        true
    }

    open spec fn from_spec(v: Control) -> u8 {
        v.raw_spec()
    }
}

impl Default for Control {
    /// The value at reset, whose byte is `0x40`.
    fn default() -> (v: Control)
        ensures
            v == Control::reset_spec(),
            v.raw_spec() == 0x40,
    {
        proof {
            lemma_control_reset();
        }
        Control::from(0x40)
    }
}

/// The reset value of the control register is what the byte `0x40` holds.
pub proof fn lemma_control_reset()
    ensures
        Control::from_raw_spec(0x40) == Control::reset_spec(),
        Control::reset_spec().raw_spec() == 0x40,
{
    assert(!bit(0x40, 0) && !bit(0x40, 1) && bit(0x40, 6) && !bit(0x40, 7)) by (bit_vector);
    assert(field(0x40, 2, 3) & 3 == 0 && field(0x40, 4, 3) & 3 == 0) by (bit_vector);
    assert(0u8 | 0u8 | (0u8 << 2) | (0u8 << 4) | (1u8 << 6) | 0u8 == 0x40) by (bit_vector);
}

/// Unpacking a byte and packing it again gives the byte back: the control
/// register uses all its bits.
pub proof fn lemma_control_unpack_pack(raw: u8)
    ensures
        Control::from_raw_spec(raw).raw_spec() == raw & Control::used_bits(),
        Control::from_raw_spec(raw).raw_spec() == raw,
{
    lemma_slew_codes(field(raw, 2, 3), Slew::NoSlew);
    lemma_short_threshold_codes(field(raw, 4, 3), ShortThreshold::V2);
    let b0 = flag(bit(raw, 0), 0);
    let b1 = flag(bit(raw, 1), 1);
    let b6 = flag(bit(raw, 6), 6);
    let b7 = flag(bit(raw, 7), 7);
    assert(b0 == raw & 0x01 && b1 == raw & 0x02 && b6 == raw & 0x40 && b7 == raw & 0x80)
        by (bit_vector)
        requires
            b0 == flag(bit(raw, 0), 0),
            b1 == flag(bit(raw, 1), 1),
            b6 == flag(bit(raw, 6), 6),
            b7 == flag(bit(raw, 7), 7),
    ;
    assert((raw & 0x01) | (raw & 0x02) | ((field(raw, 2, 3) & 3) << 2) | ((field(raw, 4, 3) & 3)
        << 4) | (raw & 0x40) | (raw & 0x80) == raw & 0xff && raw & 0xff == raw) by (bit_vector);
}

/// Packing a value and unpacking the byte gives the value back.
pub proof fn lemma_control_pack_unpack(v: Control)
    ensures
        Control::from_raw_spec(v.raw_spec()) == v,
{
    lemma_slew_codes(0, v.slew);
    lemma_short_threshold_codes(0, v.short_threshold);
    let a0 = flag(v.device_enable, 0);
    let a1 = flag(v.phase_shift_enable, 1);
    let s = v.slew.bits_spec();
    let t = v.short_threshold.bits_spec();
    let a6 = flag(v.latch_enable, 6);
    let a7 = flag(v.fault_enable, 7);
    let w = a0 | a1 | (s << 2) | (t << 4) | a6 | a7;
    assert(bit(w, 0) == (a0 != 0) && bit(w, 1) == (a1 != 0) && field(w, 2, 3) & 3 == s && field(
        w,
        4,
        3,
    ) & 3 == t && bit(w, 6) == (a6 != 0) && bit(w, 7) == (a7 != 0) && 1u8 << 0 != 0 && 1u8 << 1
        != 0 && 1u8 << 6 != 0 && 1u8 << 7 != 0) by (bit_vector)
        requires
            w == a0 | a1 | (s << 2) | (t << 4) | a6 | a7,
            a0 == 0 || a0 == 1u8 << 0,
            a1 == 0 || a1 == 1u8 << 1,
            a6 == 0 || a6 == 1u8 << 6,
            a7 == 0 || a7 == 1u8 << 7,
            s < 4,
            t < 4,
    ;
}

/// The over-temperature and refresh-frequency register: the two low bits of
/// the refresh-frequency shift in bits 0 and 1, the over-temperature fault in
/// bit 2.
#[derive(Debug, PartialEq, Eq, Copy, Clone, Structural)]
pub struct OtpAndRefreshFreq {
    freq_shift_1_0: u8,
    over_temp_fault: bool,
}

impl OtpAndRefreshFreq {
    /// The bits of the register that the chip uses.
    pub open spec fn used_bits() -> u8 {
        0x07
    }

    /// The frequency shift fits in two bits.
    #[verifier::type_invariant]
    pub closed spec fn wf(self) -> bool {
        self.freq_shift_1_0 < 4
    }

    /// The two low bits of the refresh-frequency shift.
    pub closed spec fn freq_shift_1_0_spec(self) -> u8 {
        self.freq_shift_1_0
    }

    /// Whether the chip reports an over-temperature fault.
    pub closed spec fn over_temp_fault_spec(self) -> bool {
        self.over_temp_fault
    }

    /// The byte that holds this value.
    pub open spec fn raw_spec(self) -> u8 {
        self.freq_shift_1_0_spec() | flag(self.over_temp_fault_spec(), 2)
    }

    /// The value that a byte holds.
    pub closed spec fn from_raw_spec(raw: u8) -> OtpAndRefreshFreq {
        OtpAndRefreshFreq { freq_shift_1_0: field(raw, 0, 3), over_temp_fault: bit(raw, 2) }
    }

    /// The value whose byte is zero.
    pub fn new() -> (v: OtpAndRefreshFreq)
        ensures
            v.freq_shift_1_0_spec() == 0,
            !v.over_temp_fault_spec(),
            v.wf(),
    {
        OtpAndRefreshFreq { freq_shift_1_0: 0, over_temp_fault: false }
    }

    /// The two low bits of the refresh-frequency shift.
    pub fn freq_shift_1_0(&self) -> (shift: u8)
        ensures
            shift == self.freq_shift_1_0_spec(),
            shift < 4,
    {
        proof {
            use_type_invariant(self);
        }
        self.freq_shift_1_0
    }

    /// Whether the chip reports an over-temperature fault.
    pub fn over_temp_fault(&self) -> (fault: bool)
        ensures
            fault == self.over_temp_fault_spec(),
    {
        self.over_temp_fault
    }

    /// This value with the frequency shift replaced.
    pub fn with_freq_shift_1_0(self, shift: u8) -> (v: OtpAndRefreshFreq)
        requires
            shift < 4,
        ensures
            v.freq_shift_1_0_spec() == shift,
            v.over_temp_fault_spec() == self.over_temp_fault_spec(),
            v.wf(),
    {
        OtpAndRefreshFreq { freq_shift_1_0: shift, over_temp_fault: self.over_temp_fault }
    }

    /// This value with the frequency shift replaced, if the shift fits in two
    /// bits.
    pub fn with_freq_shift_1_0_checked(self, shift: u8) -> (r: Option<OtpAndRefreshFreq>)
        ensures
            r is Some <==> shift < 4,
            r is Some ==> r->Some_0.freq_shift_1_0_spec() == shift
                && r->Some_0.over_temp_fault_spec() == self.over_temp_fault_spec()
                && r->Some_0.wf(),
    {
        if shift < 4 {
            Some(self.with_freq_shift_1_0(shift))
        } else {
            None
        }
    }

    /// This value with the over-temperature fault replaced.
    pub fn with_over_temp_fault(self, fault: bool) -> (v: OtpAndRefreshFreq)
        ensures
            v.freq_shift_1_0_spec() == self.freq_shift_1_0_spec(),
            v.over_temp_fault_spec() == fault,
            v.wf(),
    {
        proof {
            use_type_invariant(self);
        }
        OtpAndRefreshFreq { freq_shift_1_0: self.freq_shift_1_0, over_temp_fault: fault }
    }
}

impl From<u8> for OtpAndRefreshFreq {
    /// Unpacks a register byte; bits 3 to 7 are ignored.
    fn from(raw: u8) -> (v: OtpAndRefreshFreq)
        ensures
            v == OtpAndRefreshFreq::from_raw_spec(raw),
            v.freq_shift_1_0_spec() == raw & 0x03,
            v.over_temp_fault_spec() == bit(raw, 2),
            v.wf(),
    {
        proof {
            lemma_otp_and_refresh_freq_unpack_pack(raw);
        }
        OtpAndRefreshFreq {
            freq_shift_1_0: get_field(raw, 0, 3),
            over_temp_fault: get_bit(raw, 2),
        }
    }
}

impl vstd::std_specs::convert::FromSpecImpl<u8> for OtpAndRefreshFreq {
    open spec fn obeys_from_spec() -> bool {
        true
    }

    open spec fn from_spec(raw: u8) -> OtpAndRefreshFreq {
        OtpAndRefreshFreq::from_raw_spec(raw)
    }
}

impl From<OtpAndRefreshFreq> for u8 {
    /// Packs the value into its register byte; bits 3 to 7 are zero.
    fn from(v: OtpAndRefreshFreq) -> (raw: u8)
        ensures
            raw == v.raw_spec(),
    {
        v.freq_shift_1_0() | put_bit(v.over_temp_fault(), 2)
    }
}

impl vstd::std_specs::convert::FromSpecImpl<OtpAndRefreshFreq> for u8 {
    open spec fn obeys_from_spec() -> bool {
        true
    }

    open spec fn from_spec(v: OtpAndRefreshFreq) -> u8 {
        v.raw_spec()
    }
}

impl Default for OtpAndRefreshFreq {
    /// The value at reset: a shift of one and no fault, byte `0x01`.
    fn default() -> (v: OtpAndRefreshFreq)
        ensures
            v.freq_shift_1_0_spec() == 1,
            !v.over_temp_fault_spec(),
            v.raw_spec() == 0x01,
            v == OtpAndRefreshFreq::from_raw_spec(0x01),
            v.wf(),
    {
        proof {
            lemma_otp_and_refresh_freq_unpack_pack(0x01);
            assert(0x01u8 & 0x03 == 1 && !bit(0x01, 2) && 0x01u8 & 0x07 == 0x01) by (bit_vector);
        }
        OtpAndRefreshFreq::from(0x01)
    }
}

/// What a byte holds is a valid value made of the byte's bits 0 to 2, so
/// unpacking a byte and packing it again clears bits 3 to 7 and keeps the
/// rest.
pub proof fn lemma_otp_and_refresh_freq_unpack_pack(raw: u8)
    ensures
        OtpAndRefreshFreq::from_raw_spec(raw).wf(),
        OtpAndRefreshFreq::from_raw_spec(raw).freq_shift_1_0_spec() == raw & 0x03,
        OtpAndRefreshFreq::from_raw_spec(raw).over_temp_fault_spec() == bit(raw, 2),
        OtpAndRefreshFreq::from_raw_spec(raw).raw_spec() == raw & OtpAndRefreshFreq::used_bits(),
{
    let b2 = flag(bit(raw, 2), 2);
    assert((raw >> 0) & 3 == raw & 0x03 && raw & 0x03 < 4 && (raw & 0x03) | b2 == raw & 0x07)
        by (bit_vector)
        requires
            b2 == flag(bit(raw, 2), 2),
    ;
}

/// Packing a valid value and unpacking the byte gives the value back.
pub proof fn lemma_otp_and_refresh_freq_pack_unpack(v: OtpAndRefreshFreq)
    requires
        v.wf(),
    ensures
        OtpAndRefreshFreq::from_raw_spec(v.raw_spec()) == v,
{
    let s = v.freq_shift_1_0;
    let f = flag(v.over_temp_fault, 2);
    let w = s | f;
    assert(field(w, 0, 3) == s && bit(w, 2) == (f != 0) && 1u8 << 2 != 0) by (bit_vector)
        requires
            w == s | f,
            s < 4,
            f == 0 || f == 1u8 << 2,
    ;
}

/// The refresh-frequency register: eight bits of the refresh-frequency
/// shift.
#[derive(Debug, PartialEq, Eq, Copy, Clone, Structural)]
pub struct RefreshFreq {
    pub freq_shift_1_0: u8,
}

impl RefreshFreq {
    /// The bits of the register that the chip uses: all of them.
    pub open spec fn used_bits() -> u8 {
        0xff
    }

    /// The byte that holds this value.
    pub open spec fn raw_spec(self) -> u8 {
        self.freq_shift_1_0
    }

    /// The value that a byte holds.
    pub open spec fn from_raw_spec(raw: u8) -> RefreshFreq {
        RefreshFreq { freq_shift_1_0: raw }
    }

    /// The value whose byte is zero.
    pub fn new() -> (v: RefreshFreq)
        ensures
            v.freq_shift_1_0 == 0,
    {
        RefreshFreq { freq_shift_1_0: 0 }
    }
}

impl From<u8> for RefreshFreq {
    /// Unpacks a register byte.
    fn from(raw: u8) -> (v: RefreshFreq)
        ensures
            v == RefreshFreq::from_raw_spec(raw),
    {
        RefreshFreq { freq_shift_1_0: raw }
    }
}

impl vstd::std_specs::convert::FromSpecImpl<u8> for RefreshFreq {
    open spec fn obeys_from_spec() -> bool {
        true
    }

    open spec fn from_spec(raw: u8) -> RefreshFreq {
        RefreshFreq::from_raw_spec(raw)
    }
}

impl From<RefreshFreq> for u8 {
    /// Packs the value into its register byte.
    fn from(v: RefreshFreq) -> (raw: u8)
        ensures
            raw == v.raw_spec(),
    {
        v.freq_shift_1_0
    }
}

impl vstd::std_specs::convert::FromSpecImpl<RefreshFreq> for u8 {
    open spec fn obeys_from_spec() -> bool {
        true
    }

    open spec fn from_spec(v: RefreshFreq) -> u8 {
        v.raw_spec()
    }
}

impl Default for RefreshFreq {
    /// The value at reset, byte `0x6a`.
    fn default() -> (v: RefreshFreq)
        ensures
            v.freq_shift_1_0 == 0x6a,
            v.raw_spec() == 0x6a,
    {
        RefreshFreq::from(0x6a)
    }
}

/// Unpacking a byte and packing it again gives the byte back, and packing a
/// value and unpacking the byte gives the value back: the register uses all
/// its bits.
pub proof fn lemma_refresh_freq_round_trip(raw: u8, v: RefreshFreq)
    ensures
        RefreshFreq::from_raw_spec(raw).raw_spec() == raw & RefreshFreq::used_bits(),
        RefreshFreq::from_raw_spec(raw).raw_spec() == raw,
        RefreshFreq::from_raw_spec(v.raw_spec()) == v,
{
    assert(raw & 0xff == raw) by (bit_vector);
}

/// A bank of eight channel flags, one bit per channel: bit 0 for the bank's
/// first channel up to bit 7 for its eighth. The enable banks and the
/// open-fault and short-fault banks all have this shape.
#[derive(Debug, PartialEq, Eq, Copy, Clone, Structural)]
pub struct Channels {
    pub offset0: bool,
    pub offset1: bool,
    pub offset2: bool,
    pub offset3: bool,
    pub offset4: bool,
    pub offset5: bool,
    pub offset6: bool,
    pub offset7: bool,
}

impl Channels {
    /// The bits of the register that the chip uses: all of them.
    pub open spec fn used_bits() -> u8 {
        0xff
    }

    /// The byte that holds this value.
    pub open spec fn raw_spec(self) -> u8 {
        flag(self.offset0, 0) | flag(self.offset1, 1) | flag(self.offset2, 2)
            | flag(self.offset3, 3) | flag(self.offset4, 4) | flag(self.offset5, 5)
            | flag(self.offset6, 6) | flag(self.offset7, 7)
    }

    /// The value that a byte holds.
    pub open spec fn from_raw_spec(raw: u8) -> Channels {
        Channels {
            offset0: bit(raw, 0),
            offset1: bit(raw, 1),
            offset2: bit(raw, 2),
            offset3: bit(raw, 3),
            offset4: bit(raw, 4),
            offset5: bit(raw, 5),
            offset6: bit(raw, 6),
            offset7: bit(raw, 7),
        }
    }

    /// The bank with no flag set.
    pub open spec fn cleared_spec() -> Channels {
        Channels {
            offset0: false,
            offset1: false,
            offset2: false,
            offset3: false,
            offset4: false,
            offset5: false,
            offset6: false,
            offset7: false,
        }
    }

    /// The bank with no flag set, whose byte is zero.
    pub fn new() -> (v: Channels)
        ensures
            v == Channels::cleared_spec(),
            v.raw_spec() == 0,
    {
        proof {
            lemma_channels_cleared();
        }
        Channels {
            offset0: false,
            offset1: false,
            offset2: false,
            offset3: false,
            offset4: false,
            offset5: false,
            offset6: false,
            offset7: false,
        }
    }
}

impl From<u8> for Channels {
    /// Unpacks a register byte.
    fn from(raw: u8) -> (v: Channels)
        ensures
            v == Channels::from_raw_spec(raw),
    {
        Channels {
            offset0: get_bit(raw, 0),
            offset1: get_bit(raw, 1),
            offset2: get_bit(raw, 2),
            offset3: get_bit(raw, 3),
            offset4: get_bit(raw, 4),
            offset5: get_bit(raw, 5),
            offset6: get_bit(raw, 6),
            offset7: get_bit(raw, 7),
        }
    }
}

impl vstd::std_specs::convert::FromSpecImpl<u8> for Channels {
    open spec fn obeys_from_spec() -> bool {
        true
    }

    open spec fn from_spec(raw: u8) -> Channels {
        Channels::from_raw_spec(raw)
    }
}

impl From<Channels> for u8 {
    /// Packs the value into its register byte.
    fn from(v: Channels) -> (raw: u8)
        ensures
            raw == v.raw_spec(),
    {
        put_bit(v.offset0, 0) | put_bit(v.offset1, 1) | put_bit(v.offset2, 2)
            | put_bit(v.offset3, 3) | put_bit(v.offset4, 4) | put_bit(v.offset5, 5)
            | put_bit(v.offset6, 6) | put_bit(v.offset7, 7)
    }
}

impl vstd::std_specs::convert::FromSpecImpl<Channels> for u8 {
    open spec fn obeys_from_spec() -> bool {
        true
    }

    open spec fn from_spec(v: Channels) -> u8 {
        v.raw_spec()
    }
}

impl Default for Channels {
    /// The value at reset: no flag set, byte `0x00`.
    fn default() -> (v: Channels)
        ensures
            v == Channels::cleared_spec(),
            v.raw_spec() == 0x00,
    {
        proof {
            lemma_channels_cleared();
        }
        Channels::from(0x00)
    }
}

/// The bank with no flag set is what the byte zero holds.
pub proof fn lemma_channels_cleared()
    ensures
        Channels::from_raw_spec(0x00) == Channels::cleared_spec(),
        Channels::cleared_spec().raw_spec() == 0x00,
{
    assert(!bit(0, 0) && !bit(0, 1) && !bit(0, 2) && !bit(0, 3) && !bit(0, 4) && !bit(0, 5)
        && !bit(0, 6) && !bit(0, 7)) by (bit_vector);
    assert(0u8 | 0u8 | 0u8 | 0u8 | 0u8 | 0u8 | 0u8 | 0u8 == 0) by (bit_vector);
}

/// Unpacking a byte and packing it again gives the byte back: a bank uses
/// all its bits.
pub proof fn lemma_channels_unpack_pack(raw: u8)
    ensures
        Channels::from_raw_spec(raw).raw_spec() == raw & Channels::used_bits(),
        Channels::from_raw_spec(raw).raw_spec() == raw,
{
    let b0 = flag(bit(raw, 0), 0);
    let b1 = flag(bit(raw, 1), 1);
    let b2 = flag(bit(raw, 2), 2);
    let b3 = flag(bit(raw, 3), 3);
    let b4 = flag(bit(raw, 4), 4);
    let b5 = flag(bit(raw, 5), 5);
    let b6 = flag(bit(raw, 6), 6);
    let b7 = flag(bit(raw, 7), 7);
    assert(b0 | b1 | b2 | b3 | b4 | b5 | b6 | b7 == raw && raw & 0xff == raw) by (bit_vector)
        requires
            b0 == flag(bit(raw, 0), 0),
            b1 == flag(bit(raw, 1), 1),
            b2 == flag(bit(raw, 2), 2),
            b3 == flag(bit(raw, 3), 3),
            b4 == flag(bit(raw, 4), 4),
            b5 == flag(bit(raw, 5), 5),
            b6 == flag(bit(raw, 6), 6),
            b7 == flag(bit(raw, 7), 7),
    ;
}

/// Packing a value and unpacking the byte gives the value back.
pub proof fn lemma_channels_pack_unpack(v: Channels)
    ensures
        Channels::from_raw_spec(v.raw_spec()) == v,
{
    let a0 = flag(v.offset0, 0);
    let a1 = flag(v.offset1, 1);
    let a2 = flag(v.offset2, 2);
    let a3 = flag(v.offset3, 3);
    let a4 = flag(v.offset4, 4);
    let a5 = flag(v.offset5, 5);
    let a6 = flag(v.offset6, 6);
    let a7 = flag(v.offset7, 7);
    let w = a0 | a1 | a2 | a3 | a4 | a5 | a6 | a7;
    assert(
        bit(w, 0) == (a0 != 0) && 1u8 << 0 != 0
        && bit(w, 1) == (a1 != 0) && 1u8 << 1 != 0
        && bit(w, 2) == (a2 != 0) && 1u8 << 2 != 0
        && bit(w, 3) == (a3 != 0) && 1u8 << 3 != 0
        && bit(w, 4) == (a4 != 0) && 1u8 << 4 != 0
        && bit(w, 5) == (a5 != 0) && 1u8 << 5 != 0
        && bit(w, 6) == (a6 != 0) && 1u8 << 6 != 0
        && bit(w, 7) == (a7 != 0) && 1u8 << 7 != 0
    ) by (bit_vector)
        requires
            w == a0 | a1 | a2 | a3 | a4 | a5 | a6 | a7,
            a0 == 0 || a0 == 1u8 << 0,
            a1 == 0 || a1 == 1u8 << 1,
            a2 == 0 || a2 == 1u8 << 2,
            a3 == 0 || a3 == 1u8 << 3,
            a4 == 0 || a4 == 1u8 << 4,
            a5 == 0 || a5 == 1u8 << 5,
            a6 == 0 || a6 == 1u8 << 6,
            a7 == 0 || a7 == 1u8 << 7,
    ;
}

/// The per-channel current register: a six-bit current code in bits 0 to 5.
#[derive(Debug, PartialEq, Eq, Copy, Clone, Structural)]
pub struct Current {
    channel_current: u8,
}

impl Current {
    /// The bits of the register that the chip uses.
    pub open spec fn used_bits() -> u8 {
        0x3f
    }

    /// The current code fits in six bits.
    #[verifier::type_invariant]
    pub closed spec fn wf(self) -> bool {
        self.channel_current < 64
    }

    /// The current code.
    pub closed spec fn channel_current_spec(self) -> u8 {
        self.channel_current
    }

    /// The byte that holds this value.
    pub open spec fn raw_spec(self) -> u8 {
        self.channel_current_spec()
    }

    /// The value that a byte holds.
    pub closed spec fn from_raw_spec(raw: u8) -> Current {
        Current { channel_current: field(raw, 0, 0x3f) }
    }

    /// The value whose byte is zero.
    pub fn new() -> (v: Current)
        ensures
            v.channel_current_spec() == 0,
            v.wf(),
    {
        Current { channel_current: 0 }
    }

    /// The current code.
    pub fn channel_current(&self) -> (code: u8)
        ensures
            code == self.channel_current_spec(),
            code < 64,
    {
        proof {
            use_type_invariant(self);
        }
        self.channel_current
    }

    /// This value with the current code replaced.
    pub fn with_channel_current(self, code: u8) -> (v: Current)
        requires
            code < 64,
        ensures
            v.channel_current_spec() == code,
            v.wf(),
    {
        Current { channel_current: code }
    }

    /// This value with the current code replaced, if the code fits in six
    /// bits.
    pub fn with_channel_current_checked(self, code: u8) -> (r: Option<Current>)
        ensures
            r is Some <==> code < 64,
            r is Some ==> r->Some_0.channel_current_spec() == code && r->Some_0.wf(),
    {
        if code < 64 {
            Some(self.with_channel_current(code))
        } else {
            None
        }
    }
}

impl From<u8> for Current {
    /// Unpacks a register byte; bits 6 and 7 are ignored.
    fn from(raw: u8) -> (v: Current)
        ensures
            v == Current::from_raw_spec(raw),
            v.channel_current_spec() == raw & 0x3f,
            v.wf(),
    {
        proof {
            lemma_current_unpack_pack(raw);
        }
        Current { channel_current: get_field(raw, 0, 0x3f) }
    }
}

impl vstd::std_specs::convert::FromSpecImpl<u8> for Current {
    open spec fn obeys_from_spec() -> bool {
        true
    }

    open spec fn from_spec(raw: u8) -> Current {
        Current::from_raw_spec(raw)
    }
}

impl From<Current> for u8 {
    /// Packs the value into its register byte; bits 6 and 7 are zero.
    fn from(v: Current) -> (raw: u8)
        ensures
            raw == v.raw_spec(),
            raw < 64,
    {
        v.channel_current()
    }
}

impl vstd::std_specs::convert::FromSpecImpl<Current> for u8 {
    open spec fn obeys_from_spec() -> bool {
        true
    }

    open spec fn from_spec(v: Current) -> u8 {
        v.raw_spec()
    }
}

impl Default for Current {
    /// The value at reset: the highest current code, byte `0x3f`.
    fn default() -> (v: Current)
        ensures
            v.channel_current_spec() == 0x3f,
            v.raw_spec() == 0x3f,
            v == Current::from_raw_spec(0x3f),
            v.wf(),
    {
        proof {
            lemma_current_unpack_pack(0x3f);
            assert(0x3fu8 & 0x3f == 0x3f) by (bit_vector);
        }
        Current::from(0x3f)
    }
}

/// What a byte holds is a valid current whose code is the byte's six low
/// bits, so unpacking a byte and packing it again clears bits 6 and 7 and
/// keeps the rest.
pub proof fn lemma_current_unpack_pack(raw: u8)
    ensures
        Current::from_raw_spec(raw).wf(),
        Current::from_raw_spec(raw).channel_current_spec() == raw & 0x3f,
        Current::from_raw_spec(raw).raw_spec() == raw & Current::used_bits(),
{
    assert((raw >> 0) & 0x3f == raw & 0x3f && raw & 0x3f < 64) by (bit_vector);
}

/// Packing a valid current and unpacking the byte gives the value back.
pub proof fn lemma_current_pack_unpack(v: Current)
    requires
        v.wf(),
    ensures
        v.raw_spec() < 64,
        Current::from_raw_spec(v.raw_spec()) == v,
{
    let c = v.channel_current;
    assert((c >> 0) & 0x3f == c) by (bit_vector)
        requires
            c < 64,
    ;
}

/// A twelve-bit PWM duty, from 0 to 4095.
///
/// The chip has no register for it: it is written as two bytes. On the bus
/// the duty is left-aligned in sixteen bits, so its four low bits fill the
/// upper half of the low byte and its eight high bits fill the high byte.
#[derive(Debug, PartialEq, Eq, Copy, Clone, Structural)]
pub struct Pwm {
    value: u16,
}

impl Pwm {
    /// The duty fits in twelve bits.
    #[verifier::type_invariant]
    pub closed spec fn wf(self) -> bool {
        self.value < 4096
    }

    /// The duty.
    pub closed spec fn value_spec(self) -> u16 {
        self.value
    }

    /// The sixteen bits that hold a duty on the bus: the duty moved up by
    /// four places.
    pub open spec fn aligned(value: u16) -> u16 {
        value << 4
    }

    /// The byte of the low register for a duty: byte 0 of the aligned duty.
    pub open spec fn lsb_raw(value: u16) -> u8 {
        (Pwm::aligned(value) & 0xff) as u8
    }

    /// The byte of the high register for a duty: byte 1 of the aligned duty.
    pub open spec fn msb_raw(value: u16) -> u8 {
        (Pwm::aligned(value) >> 8) as u8
    }

    /// The duty that the two register bytes hold together.
    pub open spec fn merged(lsb: u8, msb: u8) -> u16 {
        (((msb as u16) << 8) | (lsb as u16)) >> 4
    }

    /// The duty zero.
    pub fn new() -> (v: Pwm)
        ensures
            v.value_spec() == 0,
            v.wf(),
    {
        Pwm { value: 0 }
    }

    /// The duty.
    pub fn value(&self) -> (value: u16)
        ensures
            value == self.value_spec(),
            value < 4096,
    {
        proof {
            use_type_invariant(self);
        }
        self.value
    }

    /// This value with the duty replaced.
    pub fn with_value(self, value: u16) -> (v: Pwm)
        requires
            value < 4096,
        ensures
            v.value_spec() == value,
            v.wf(),
    {
        Pwm { value }
    }

    /// This value with the duty replaced, if the duty fits in twelve bits.
    /// A larger number is refused, never cut down.
    pub fn with_value_checked(self, value: u16) -> (r: Option<Pwm>)
        ensures
            r is Some <==> value < 4096,
            r is Some ==> r->Some_0.value_spec() == value && r->Some_0.wf(),
    {
        if value < 4096 {
            Some(self.with_value(value))
        } else {
            None
        }
    }

    /// The duty that the low and the high register hold together.
    pub fn from_parts(lsb: PwmLsb, msb: PwmMsb) -> (v: Pwm)
        ensures
            v.value_spec() == Pwm::merged(lsb.raw_spec(), msb.raw_spec()),
            v.wf(),
    {
        let low: u8 = u8::from(lsb);
        let high: u8 = u8::from(msb);
        let value: u16 = (((high as u16) << 8) | (low as u16)) >> 4;
        assert((((high as u16) << 8) | (low as u16)) >> 4 < 4096) by (bit_vector);
        Pwm { value }
    }
}

/// The high PWM register: the eight high bits of the duty.
#[derive(Debug, PartialEq, Eq, Copy, Clone, Structural)]
pub struct PwmMsb {
    pub value: u8,
}

impl PwmMsb {
    /// The bits of the register that the chip uses: all of them.
    pub open spec fn used_bits() -> u8 {
        0xff
    }

    /// The byte that holds this value.
    pub open spec fn raw_spec(self) -> u8 {
        self.value
    }

    /// The value that a byte holds.
    pub open spec fn from_raw_spec(raw: u8) -> PwmMsb {
        PwmMsb { value: raw }
    }

    /// The value whose byte is zero.
    pub fn new() -> (v: PwmMsb)
        ensures
            v.value == 0,
    {
        PwmMsb { value: 0 }
    }
}

impl From<u8> for PwmMsb {
    /// Unpacks a register byte.
    fn from(raw: u8) -> (v: PwmMsb)
        ensures
            v == PwmMsb::from_raw_spec(raw),
    {
        PwmMsb { value: raw }
    }
}

impl vstd::std_specs::convert::FromSpecImpl<u8> for PwmMsb {
    open spec fn obeys_from_spec() -> bool {
        true
    }

    open spec fn from_spec(raw: u8) -> PwmMsb {
        PwmMsb::from_raw_spec(raw)
    }
}

impl From<PwmMsb> for u8 {
    /// Packs the value into its register byte.
    fn from(v: PwmMsb) -> (raw: u8)
        ensures
            raw == v.raw_spec(),
    {
        v.value
    }
}

impl vstd::std_specs::convert::FromSpecImpl<PwmMsb> for u8 {
    open spec fn obeys_from_spec() -> bool {
        true
    }

    open spec fn from_spec(v: PwmMsb) -> u8 {
        v.raw_spec()
    }
}

impl From<Pwm> for PwmMsb {
    /// The high register's share of a duty: its bits 4 to 11.
    fn from(value: Pwm) -> (v: PwmMsb)
        ensures
            v.raw_spec() == Pwm::msb_raw(value.value_spec()),
            v.value == value.value_spec() / 16,
    {
        let duty: u16 = value.value();
        let aligned: u16 = duty << 4;
        assert((duty << 4) >> 8 < 256 && (duty << 4) >> 8 == duty / 16) by (bit_vector)
            requires
                duty < 4096,
        ;
        PwmMsb { value: (aligned >> 8) as u8 }
    }
}

impl vstd::std_specs::convert::FromSpecImpl<Pwm> for PwmMsb {
    open spec fn obeys_from_spec() -> bool {
        true
    }

    open spec fn from_spec(value: Pwm) -> PwmMsb {
        PwmMsb { value: Pwm::msb_raw(value.value_spec()) }
    }
}

/// Unpacking a byte and packing it again gives the byte back, and packing a
/// value and unpacking the byte gives the value back: the register uses all
/// its bits.
pub proof fn lemma_pwm_msb_round_trip(raw: u8, v: PwmMsb)
    ensures
        PwmMsb::from_raw_spec(raw).raw_spec() == raw & PwmMsb::used_bits(),
        PwmMsb::from_raw_spec(raw).raw_spec() == raw,
        PwmMsb::from_raw_spec(v.raw_spec()) == v,
{
    assert(raw & 0xff == raw) by (bit_vector);
}

/// The low PWM register: the four low bits of the duty, in bits 4 to 7.
/// Bits 0 to 3 are not used.
#[derive(Debug, PartialEq, Eq, Copy, Clone, Structural)]
pub struct PwmLsb {
    value: u8,
}

impl PwmLsb {
    /// The bits of the register that the chip uses.
    pub open spec fn used_bits() -> u8 {
        0xf0
    }

    /// The four bits fit in four bits.
    #[verifier::type_invariant]
    pub closed spec fn wf(self) -> bool {
        self.value < 16
    }

    /// The four low bits of the duty.
    pub closed spec fn value_spec(self) -> u8 {
        self.value
    }

    /// The byte that holds this value.
    pub open spec fn raw_spec(self) -> u8 {
        self.value_spec() << 4
    }

    /// The value that a byte holds.
    pub closed spec fn from_raw_spec(raw: u8) -> PwmLsb {
        PwmLsb { value: field(raw, 4, 0x0f) }
    }

    /// The value whose byte is zero.
    pub fn new() -> (v: PwmLsb)
        ensures
            v.value_spec() == 0,
            v.wf(),
    {
        PwmLsb { value: 0 }
    }

    /// The four low bits of the duty.
    pub fn value(&self) -> (value: u8)
        ensures
            value == self.value_spec(),
            value < 16,
    {
        proof {
            use_type_invariant(self);
        }
        self.value
    }

    /// This value with the four bits replaced.
    pub fn with_value(self, value: u8) -> (v: PwmLsb)
        requires
            value < 16,
        ensures
            v.value_spec() == value,
            v.wf(),
    {
        PwmLsb { value }
    }

    /// This value with the four bits replaced, if the number fits in four
    /// bits.
    pub fn with_value_checked(self, value: u8) -> (r: Option<PwmLsb>)
        ensures
            r is Some <==> value < 16,
            r is Some ==> r->Some_0.value_spec() == value && r->Some_0.wf(),
    {
        if value < 16 {
            Some(self.with_value(value))
        } else {
            None
        }
    }
}

impl From<u8> for PwmLsb {
    /// Unpacks a register byte; bits 0 to 3 are ignored.
    fn from(raw: u8) -> (v: PwmLsb)
        ensures
            v == PwmLsb::from_raw_spec(raw),
            v.value_spec() == raw >> 4,
            v.wf(),
    {
        proof {
            lemma_pwm_lsb_unpack_pack(raw);
        }
        PwmLsb { value: get_field(raw, 4, 0x0f) }
    }
}

impl vstd::std_specs::convert::FromSpecImpl<u8> for PwmLsb {
    open spec fn obeys_from_spec() -> bool {
        true
    }

    open spec fn from_spec(raw: u8) -> PwmLsb {
        PwmLsb::from_raw_spec(raw)
    }
}

impl From<PwmLsb> for u8 {
    /// Packs the value into its register byte; bits 0 to 3 are zero.
    fn from(v: PwmLsb) -> (raw: u8)
        ensures
            raw == v.raw_spec(),
    {
        v.value() << 4
    }
}

impl vstd::std_specs::convert::FromSpecImpl<PwmLsb> for u8 {
    open spec fn obeys_from_spec() -> bool {
        true
    }

    open spec fn from_spec(v: PwmLsb) -> u8 {
        v.raw_spec()
    }
}

impl From<Pwm> for PwmLsb {
    /// The low register's share of a duty: its bits 0 to 3.
    fn from(value: Pwm) -> (v: PwmLsb)
        ensures
            v.raw_spec() == Pwm::lsb_raw(value.value_spec()),
            v.value_spec() == value.value_spec() % 16,
            v.wf(),
    {
        let duty: u16 = value.value();
        let low: u16 = duty & 0x0f;
        assert(duty & 0x0f < 16 && duty & 0x0f == duty % 16 && ((duty & 0x0f) as u8) << 4 == ((duty
            << 4) & 0xff) as u8 && (((((duty << 4) & 0xff) as u8) >> 4) & 0x0f) == (duty
            & 0x0f) as u8) by (bit_vector);
        PwmLsb { value: low as u8 }
    }
}

impl vstd::std_specs::convert::FromSpecImpl<Pwm> for PwmLsb {
    open spec fn obeys_from_spec() -> bool {
        true
    }

    open spec fn from_spec(value: Pwm) -> PwmLsb {
        PwmLsb::from_raw_spec(Pwm::lsb_raw(value.value_spec()))
    }
}

/// What a byte holds is a valid value made of the byte's bits 4 to 7, so
/// unpacking a byte and packing it again clears bits 0 to 3 and keeps the
/// rest.
pub proof fn lemma_pwm_lsb_unpack_pack(raw: u8)
    ensures
        PwmLsb::from_raw_spec(raw).wf(),
        PwmLsb::from_raw_spec(raw).value_spec() == raw >> 4,
        PwmLsb::from_raw_spec(raw).raw_spec() == raw & PwmLsb::used_bits(),
{
    assert((raw >> 4) & 0x0f == raw >> 4 && raw >> 4 < 16 && (raw >> 4) << 4 == raw & 0xf0)
        by (bit_vector);
}

/// Packing a valid value and unpacking the byte gives the value back.
pub proof fn lemma_pwm_lsb_pack_unpack(v: PwmLsb)
    requires
        v.wf(),
    ensures
        PwmLsb::from_raw_spec(v.raw_spec()) == v,
{
    let c = v.value;
    assert(((c << 4) >> 4) & 0x0f == c) by (bit_vector)
        requires
            c < 16,
    ;
}

/// Splitting a duty into its two register bytes and putting the bytes
/// together again gives the duty back. The low byte holds the four low bits
/// in its upper half, the high byte the eight high bits.
pub proof fn lemma_pwm_split_merge(value: u16)
    requires
        value < 4096,
    ensures
        Pwm::merged(Pwm::lsb_raw(value), Pwm::msb_raw(value)) == value,
        Pwm::lsb_raw(value) == (value % 16) * 16,
        Pwm::msb_raw(value) == value / 16,
        Pwm::lsb_raw(value) & 0x0f == 0,
{
    assert((((((value << 4) >> 8) as u8) as u16) << 8 | ((((value << 4) & 0xff) as u8) as u16))
        >> 4 == value) by (bit_vector)
        requires
            value < 4096,
    ;
    assert(((value << 4) & 0xff) as u8 == (value % 16) * 16 && ((value << 4) >> 8) as u8 == value
        / 16 && (((value << 4) & 0xff) as u8) & 0x0f == 0) by (bit_vector)
        requires
            value < 4096,
    ;
}

/// Two register bytes whose unused bits are zero hold a duty that splits
/// into those same bytes.
pub proof fn lemma_pwm_merge_split(lsb: u8, msb: u8)
    requires
        lsb & 0x0f == 0,
    ensures
        Pwm::merged(lsb, msb) < 4096,
        Pwm::lsb_raw(Pwm::merged(lsb, msb)) == lsb,
        Pwm::msb_raw(Pwm::merged(lsb, msb)) == msb,
{
    let v = Pwm::merged(lsb, msb);
    assert(v < 4096 && ((v << 4) & 0xff) as u8 == lsb && ((v << 4) >> 8) as u8 == msb)
        by (bit_vector)
        requires
            v == (((msb as u16) << 8) | (lsb as u16)) >> 4,
            lsb & 0x0f == 0,
    ;
}

/// Why a register identity could not be turned into an address.
#[derive(Debug, PartialEq, Eq, Copy, Clone, Structural)]
pub enum RegisterError {
    /// A single register was asked for as a per-channel family, or a family
    /// as a single register.
    InvalidConversion,
    /// The channel offset is not one of the sixteen channels.
    InvalidOffset,
}

/// Why a driver operation failed.
#[derive(Debug, PartialEq, Eq, Copy)]
pub enum Error<E> {
    /// The bus reported a failure; the value is the bus's own, unchanged.
    Bus(E),
    /// The register address could not be computed.
    Register(RegisterError),
}

impl<E: Clone> Clone for Error<E> {
    fn clone(&self) -> (r: Error<E>)
        ensures
            self is Register ==> r == *self,
            self is Bus ==> r is Bus,
    {
        match self {
            Error::Bus(e) => Error::Bus(e.clone()),
            Error::Register(e) => Error::Register(*e),
        }
    }
}

impl<E> From<E> for Error<E> {
    /// Wraps a failure of the bus.
    fn from(error: E) -> (r: Error<E>)
        ensures
            r == Error::Bus(error),
    {
        Error::Bus(error)
    }
}

impl<E> vstd::std_specs::convert::FromSpecImpl<E> for Error<E> {
    open spec fn obeys_from_spec() -> bool {
        true
    }

    open spec fn from_spec(error: E) -> Error<E> {
        Error::Bus(error)
    }
}

} // verus!
