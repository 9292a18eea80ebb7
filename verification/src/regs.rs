//! The register map of the converter: where each field lies, how a field is
//! written with a read-modify-write, and what a read gives back of a write.

use vstd::prelude::*;

verus! {

/// The registers that the driver reads or writes.
#[derive(Copy, Clone, PartialEq, Eq, Debug, Structural)]
pub enum Register {
    /// `ADCx_CR`, the control register
    Cr,
    /// `ADCx_ISR`, the interrupt and status register
    Isr,
    /// `ADCx_CFGR`, the configuration register
    Cfgr,
    /// `ADCx_SMPR1`, sample times of channels 1 to 9
    Smpr1,
    /// `ADCx_SMPR2`, sample times of channels 10 to 18
    Smpr2,
    /// `ADCx_SQR1`, the first regular sequence register
    Sqr1,
    /// `ADCx_DR`, the regular data register
    Dr,
    /// `ADCxy_CCR`, the control register common to a pair of converters
    CommonCcr,
    /// `RCC_AHBENR`, the AHB peripheral clock enable register
    AhbEnr,
}

/// The pair of converters that share a clock and a common register block.
#[derive(Copy, Clone, PartialEq, Eq, Debug, Structural)]
pub enum AdcPair {
    /// ADC1 and ADC2
    Adc12,
    /// ADC3 and ADC4
    Adc34,
}

/// The fields of the converter's registers that the driver uses.
#[derive(Copy, Clone, PartialEq, Eq, Debug, Structural)]
pub enum Field {
    /// `CR.ADEN`, ADC enable
    Aden,
    /// `CR.ADDIS`, ADC disable
    Addis,
    /// `CR.ADSTART`, start of regular conversions
    Adstart,
    /// `CR.JADSTART`, start of injected conversions
    Jadstart,
    /// `CR.ADSTP`, stop of regular conversions
    Adstp,
    /// `CR.JADSTP`, stop of injected conversions
    Jadstp,
    /// `CR.ADVREGEN`, voltage regulator state
    Advregen,
    /// `CR.ADCALDIF`, differential mode of the calibration
    Adcaldif,
    /// `CR.ADCAL`, calibration
    Adcal,
    /// `ISR.ADRDY`, ADC ready
    Adrdy,
    /// `ISR.EOS`, end of regular sequence
    Eos,
    /// `ISR.OVR`, overrun
    Ovr,
    /// `CFGR.ALIGN`, data alignment
    Align,
    /// `CFGR.OVRMOD`, overrun mode
    Ovrmod,
    /// `CFGR.CONT`, continuous conversion
    Cont,
    /// `CFGR.JAUTO`, automatic injected group conversion
    Jauto,
    /// `SQR1.L`, regular sequence length minus one
    SeqLen,
    /// `SQR1.SQ1`, first conversion of the regular sequence
    Sq1,
    /// `SMPx`, the sampling time of channel `x` (1 to 18), in `SMPR1` or `SMPR2`
    Smp(u8),
    /// `CCR.CKMODE`, clock mode of a pair of converters
    Ckmode,
    /// `AHBENR.ADC12EN` or `AHBENR.ADC34EN`, clock enable of a pair of converters
    ClockEnable(AdcPair),
    /// `DR.RDATA`, the converted value
    Rdata,
}

impl Field {
    /// The field names something that exists: a sampling time field belongs
    /// to a channel from 1 to 18.
    pub open spec fn valid(self) -> bool {
        match self {
            Field::Smp(channel) => 1 <= channel <= 18,
            _ => true,
        }
    }

    /// The register that holds the field.
    pub open spec fn spec_register(self) -> Register {
        match self {
            Field::Aden | Field::Addis | Field::Adstart | Field::Jadstart | Field::Adstp
            | Field::Jadstp | Field::Advregen | Field::Adcaldif | Field::Adcal => Register::Cr,
            Field::Adrdy | Field::Eos | Field::Ovr => Register::Isr,
            Field::Align | Field::Ovrmod | Field::Cont | Field::Jauto => Register::Cfgr,
            Field::SeqLen | Field::Sq1 => Register::Sqr1,
            Field::Smp(channel) => if channel <= 9 { Register::Smpr1 } else { Register::Smpr2 },
            Field::Ckmode => Register::CommonCcr,
            Field::ClockEnable(_) => Register::AhbEnr,
            Field::Rdata => Register::Dr,
        }
    }

    /// The register that holds the field.
    #[verifier::when_used_as_spec(spec_register)]
    pub fn register(self) -> (r: Register)
        ensures
            r == self.spec_register(),
    {
        match self {
            Field::Aden | Field::Addis | Field::Adstart | Field::Jadstart | Field::Adstp
            | Field::Jadstp | Field::Advregen | Field::Adcaldif | Field::Adcal => Register::Cr,
            Field::Adrdy | Field::Eos | Field::Ovr => Register::Isr,
            Field::Align | Field::Ovrmod | Field::Cont | Field::Jauto => Register::Cfgr,
            Field::SeqLen | Field::Sq1 => Register::Sqr1,
            Field::Smp(channel) => if channel <= 9 { Register::Smpr1 } else { Register::Smpr2 },
            Field::Ckmode => Register::CommonCcr,
            Field::ClockEnable(_) => Register::AhbEnr,
            Field::Rdata => Register::Dr,
        }
    }

    /// Where the field lies in its register.
    pub open spec fn spec_bits(self) -> BitField {
        match self {
            Field::Aden => BitField { offset: 0, width: 1 },
            Field::Addis => BitField { offset: 1, width: 1 },
            Field::Adstart => BitField { offset: 2, width: 1 },
            Field::Jadstart => BitField { offset: 3, width: 1 },
            Field::Adstp => BitField { offset: 4, width: 1 },
            Field::Jadstp => BitField { offset: 5, width: 1 },
            Field::Advregen => BitField { offset: 28, width: 2 },
            Field::Adcaldif => BitField { offset: 30, width: 1 },
            Field::Adcal => BitField { offset: 31, width: 1 },
            Field::Adrdy => BitField { offset: 0, width: 1 },
            Field::Eos => BitField { offset: 3, width: 1 },
            Field::Ovr => BitField { offset: 4, width: 1 },
            Field::Align => BitField { offset: 5, width: 1 },
            Field::Ovrmod => BitField { offset: 12, width: 1 },
            Field::Cont => BitField { offset: 13, width: 1 },
            Field::Jauto => BitField { offset: 25, width: 1 },
            Field::SeqLen => BitField { offset: 0, width: 4 },
            Field::Sq1 => BitField { offset: 6, width: 5 },
            Field::Smp(channel) => if channel <= 9 {
                BitField { offset: (3 * channel) as u32, width: 3 }
            } else {
                BitField { offset: (3 * (channel - 10)) as u32, width: 3 }
            },
            Field::Ckmode => BitField { offset: 16, width: 2 },
            Field::ClockEnable(AdcPair::Adc12) => BitField { offset: 28, width: 1 },
            Field::ClockEnable(AdcPair::Adc34) => BitField { offset: 29, width: 1 },
            Field::Rdata => BitField { offset: 0, width: 16 },
        }
    }

    /// Where the field lies in its register.
    #[verifier::when_used_as_spec(spec_bits)]
    pub fn bits(self) -> (b: BitField)
        requires
            self.valid(),
        ensures
            b == self.spec_bits(),
            b.wf(),
    {
        match self {
            Field::Aden => BitField { offset: 0, width: 1 },
            Field::Addis => BitField { offset: 1, width: 1 },
            Field::Adstart => BitField { offset: 2, width: 1 },
            Field::Jadstart => BitField { offset: 3, width: 1 },
            Field::Adstp => BitField { offset: 4, width: 1 },
            Field::Jadstp => BitField { offset: 5, width: 1 },
            Field::Advregen => BitField { offset: 28, width: 2 },
            Field::Adcaldif => BitField { offset: 30, width: 1 },
            Field::Adcal => BitField { offset: 31, width: 1 },
            Field::Adrdy => BitField { offset: 0, width: 1 },
            Field::Eos => BitField { offset: 3, width: 1 },
            Field::Ovr => BitField { offset: 4, width: 1 },
            Field::Align => BitField { offset: 5, width: 1 },
            Field::Ovrmod => BitField { offset: 12, width: 1 },
            Field::Cont => BitField { offset: 13, width: 1 },
            Field::Jauto => BitField { offset: 25, width: 1 },
            Field::SeqLen => BitField { offset: 0, width: 4 },
            Field::Sq1 => BitField { offset: 6, width: 5 },
            Field::Smp(channel) => if channel <= 9 {
                BitField { offset: 3 * channel as u32, width: 3 }
            } else {
                BitField { offset: 3 * (channel - 10) as u32, width: 3 }
            },
            Field::Ckmode => BitField { offset: 16, width: 2 },
            Field::ClockEnable(AdcPair::Adc12) => BitField { offset: 28, width: 1 },
            Field::ClockEnable(AdcPair::Adc34) => BitField { offset: 29, width: 1 },
            Field::Rdata => BitField { offset: 0, width: 16 },
        }
    }

    /// The value of the field in the value `v` read from its register.
    pub open spec fn spec_get(self, v: u32) -> u32 {
        self.spec_bits().get(v)
    }

    /// The value of the field in the value `v` read from its register.
    #[verifier::when_used_as_spec(spec_get)]
    pub fn get(self, v: u32) -> (r: u32)
        requires
            self.valid(),
        ensures
            r == self.spec_get(v),
    {
        self.bits().read(v)
    }

    /// The update of the field's register that writes `value` into the field.
    pub open spec fn spec_write(self, value: u32) -> Update {
        Update::spec_field(self.spec_bits(), value)
    }

    /// The update of the field's register that writes `value` into the field.
    #[verifier::when_used_as_spec(spec_write)]
    pub fn write(self, value: u32) -> (u: Update)
        requires
            self.valid(),
        ensures
            u == self.spec_write(value),
    {
        Update::field(self.bits(), value)
    }
}

/// A field of `width` bits that starts at bit `offset` of a 32-bit register.
#[derive(Copy, Clone, PartialEq, Eq, Debug, Structural)]
pub struct BitField {
    pub offset: u32,
    pub width: u32,
}

impl BitField {
    /// The field lies inside the register and is narrower than it.
    pub open spec fn wf(self) -> bool {
        &&& 1 <= self.width < 32
        &&& self.offset + self.width <= 32
    }

    /// The `width` lowest bits.
    pub open spec fn low_mask(self) -> u32 {
        !(0xffff_ffffu32 << self.width)
    }

    /// The bits of the register that belong to the field.
    pub open spec fn mask(self) -> u32 {
        self.low_mask() << self.offset
    }

    /// The value of the field in the register value `v`.
    pub open spec fn get(self, v: u32) -> u32 {
        (v >> self.offset) & self.low_mask()
    }

    /// The two fields share no bit.
    pub open spec fn disjoint(self, other: BitField) -> bool {
        self.offset + self.width <= other.offset || other.offset + other.width <= self.offset
    }

    /// The value of the field in the register value `v`.
    pub fn read(self, v: u32) -> (r: u32)
        requires
            self.wf(),
        ensures
            r == self.get(v),
    {
        (v >> self.offset) & !(0xffff_ffffu32 << self.width)
    }
}

/// A read-modify-write of a register: the bits of `clear` are cleared in the
/// value read, then the bits of `set` are set, and the result is written back.
#[derive(Copy, Clone, PartialEq, Eq, Debug, Structural)]
pub struct Update {
    pub clear: u32,
    pub set: u32,
}

impl Update {
    /// The value written back when `v` was read.
    pub open spec fn spec_apply(self, v: u32) -> u32 {
        (v & !self.clear) | self.set
    }

    /// The value written back when `v` was read.
    #[verifier::when_used_as_spec(spec_apply)]
    pub fn apply(self, v: u32) -> (r: u32)
        ensures
            r == self.spec_apply(v),
    {
        (v & !self.clear) | self.set
    }

    /// The update that writes `value`, cut to the field's width, into `field`.
    pub open spec fn spec_field(field: BitField, value: u32) -> Update {
        Update { clear: field.mask(), set: (value & field.low_mask()) << field.offset }
    }

    /// The update that writes `value`, cut to the field's width, into `field`.
    pub fn field(field: BitField, value: u32) -> (u: Update)
        requires
            field.wf(),
        ensures
            u == Update::spec_field(field, value),
    {
        let low = !(0xffff_ffffu32 << field.width);
        Update { clear: low << field.offset, set: (value & low) << field.offset }
    }

    /// This update followed by `next`, as one read-modify-write.
    pub open spec fn spec_and_then(self, next: Update) -> Update {
        Update { clear: self.clear | next.clear, set: (self.set & !next.clear) | next.set }
    }

    /// This update followed by `next`, as one read-modify-write.
    #[verifier::when_used_as_spec(spec_and_then)]
    pub fn and_then(self, next: Update) -> (u: Update)
        ensures
            u == self.spec_and_then(next),
    {
        Update { clear: self.clear | next.clear, set: (self.set & !next.clear) | next.set }
    }
}

/// Two updates joined by `and_then` write what the second writes after the first.
pub proof fn lemma_and_then_apply(first: Update, next: Update, v: u32)
    ensures
        first.and_then(next).apply(v) == next.apply(first.apply(v)),
{
    let (c1, s1, c2, s2) = (first.clear, first.set, next.clear, next.set);
    assert(((v & !(c1 | c2)) | ((s1 & !c2) | s2)) == ((((v & !c1) | s1) & !c2) | s2))
        by (bit_vector);
}

/// A read of a field gives back what a write of it wrote, cut to its width.
pub proof fn lemma_field_read_back(field: BitField, value: u32, v: u32)
    requires
        field.wf(),
    ensures
        field.get(Update::spec_field(field, value).apply(v)) == value & field.low_mask(),
{
    let (o, w) = (field.offset, field.width);
    assert(((((v & !((!(0xffff_ffffu32 << w)) << o)) | ((value & !(0xffff_ffffu32 << w)) << o))
        >> o) & !(0xffff_ffffu32 << w)) == value & !(0xffff_ffffu32 << w)) by (bit_vector)
        requires
            1 <= w < 32,
            o + w <= 32,
    ;
}

/// The low masks of the field widths that the register map uses.
pub proof fn lemma_low_masks()
    ensures
        !(0xffff_ffffu32 << 1u32) == 1,
        !(0xffff_ffffu32 << 2u32) == 3,
        !(0xffff_ffffu32 << 3u32) == 7,
        !(0xffff_ffffu32 << 4u32) == 15,
        !(0xffff_ffffu32 << 5u32) == 31,
        !(0xffff_ffffu32 << 16u32) == 0xffff,
{
    assert(!(0xffff_ffffu32 << 1u32) == 1) by (bit_vector);
    assert(!(0xffff_ffffu32 << 2u32) == 3) by (bit_vector);
    assert(!(0xffff_ffffu32 << 3u32) == 7) by (bit_vector);
    assert(!(0xffff_ffffu32 << 4u32) == 15) by (bit_vector);
    assert(!(0xffff_ffffu32 << 5u32) == 31) by (bit_vector);
    assert(!(0xffff_ffffu32 << 16u32) == 0xffff) by (bit_vector);
}

/// The value of a field fits its width.
pub proof fn lemma_field_get_fits(field: BitField, v: u32)
    requires
        field.wf(),
    ensures
        field.get(v) <= field.low_mask(),
{
    let (o, w) = (field.offset, field.width);
    assert((v >> o) & !(0xffff_ffffu32 << w) <= !(0xffff_ffffu32 << w)) by (bit_vector);
}

/// A read of a field gives back a value that fits its width unchanged.
pub proof fn lemma_field_read_back_fits(field: BitField, value: u32, v: u32)
    requires
        field.wf(),
        value <= field.low_mask(),
    ensures
        field.get(Update::spec_field(field, value).apply(v)) == value,
{
    lemma_field_read_back(field, value, v);
    let m = field.low_mask();
    let w = field.width;
    assert(value & !(0xffff_ffffu32 << w) == value) by (bit_vector)
        requires
            value <= !(0xffff_ffffu32 << w),
    ;
}

/// A write of a field leaves every field that shares no bit with it unchanged.
pub proof fn lemma_field_frame(field: BitField, other: BitField, value: u32, v: u32)
    requires
        field.wf(),
        other.wf(),
        field.disjoint(other),
    ensures
        other.get(Update::spec_field(field, value).apply(v)) == other.get(v),
{
    let (o, w, p, x) = (field.offset, field.width, other.offset, other.width);
    assert(((((v & !((!(0xffff_ffffu32 << w)) << o)) | ((value & !(0xffff_ffffu32 << w)) << o))
        >> p) & !(0xffff_ffffu32 << x)) == (v >> p) & !(0xffff_ffffu32 << x)) by (bit_vector)
        requires
            1 <= w < 32,
            o + w <= 32,
            1 <= x < 32,
            p + x <= 32,
            o + w <= p || p + x <= o,
    ;
}

/// Writing the same value into a field twice writes what writing it once does.
pub proof fn lemma_field_write_idempotent(field: BitField, value: u32, v: u32)
    requires
        field.wf(),
    ensures
        Update::spec_field(field, value).apply(Update::spec_field(field, value).apply(v))
            == Update::spec_field(field, value).apply(v),
{
    let u = Update::spec_field(field, value);
    let (c, s) = (u.clear, u.set);
    assert(((((v & !c) | s) & !c) | s) == ((v & !c) | s)) by (bit_vector);
}

} // verus!
