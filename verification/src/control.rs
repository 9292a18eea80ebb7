//! The driver's procedures as a state machine.
//!
//! Every procedure of the driver (start-up, one-shot configuration, one
//! conversion, release) is a sequence of register accesses in which what is
//! written, and whether a wait goes on, depends on what was read. The
//! [`Controller`] makes all those decisions: [`next`] takes its state and the
//! value of the last register read, and gives the following state and the
//! next bus operation. Whoever owns the registers performs the operation and,
//! after a read, hands the value back.

use vstd::prelude::*;
use crate::config::{
    adc_clk_cycles, advregen_startup_cycles, spec_adc_clk_cycles, spec_advregen_startup_cycles,
    spec_clocks_welldefined, Align, ClockMode, Clocks, OperationMode, SampleTime,
};
use crate::regs::{
    lemma_and_then_apply, lemma_field_frame, lemma_field_read_back_fits, lemma_low_masks, AdcPair,
    Field, Register, Update,
};

verus! {

/// The value of `CR.ADVREGEN` when the voltage regulator is enabled.
pub const ADVREGEN_ENABLED: u32 = 1;

/// The value of `CR.ADVREGEN` that the regulator passes through between states.
pub const ADVREGEN_INTERMEDIATE: u32 = 0;

/// The value of `CR.ADDIS` that requests the converter to disable itself;
/// the hardware clears the bit, and ADEN, once the converter is disabled.
pub const ADDIS_DISABLE: u32 = 1;

/// The number of ADC clock cycles to wait after the calibration before ADEN
/// may be set.
pub const CYCLES_AFTER_CALIBRATION: u32 = 4;

/// One access of the bus, or the end of a procedure.
#[derive(Copy, Clone, PartialEq, Eq, Debug, Structural)]
pub enum BusOp {
    /// Read the register and hand the value to the next step.
    Read(Register),
    /// Read the register, apply the update to the value and write it back.
    Modify(Register, Update),
    /// Busy-wait for this many CPU cycles.
    Delay(u32),
    /// The procedure is over, with this outcome.
    Finished(Outcome),
}

/// How a procedure ended.
#[derive(Copy, Clone, PartialEq, Eq, Debug, Structural)]
pub enum Outcome {
    /// No procedure was running.
    Idle,
    /// The converter is clocked, calibrated and enabled.
    Ready,
    /// The clock of the converter pair was already enabled with another clock mode.
    ClockConflict,
    /// The converter is set up for one-shot conversions of a single channel.
    Configured,
    /// A conversion ended with this result.
    Converted(u16),
    /// The converter was disabled and can be released.
    Released,
}

/// The procedure that the controller carries out.
#[derive(Copy, Clone, PartialEq, Eq, Debug, Structural)]
pub enum Task {
    /// Clock enable, calibration and enable of a new converter
    Init,
    /// Set-up of one-shot mode for a single channel
    SetupOneShot,
    /// One conversion of one channel
    Convert,
    /// Disable before the peripheral is released
    Release,
}

/// Where the controller is in its procedure.
#[derive(Copy, Clone, PartialEq, Eq, Debug, Structural)]
pub enum Phase {
    /// No procedure is running.
    Idle,
    /// Start of the clock enable: read AHBENR.
    ClockStart,
    /// AHBENR was read: is the clock of the pair enabled?
    ClockEnabledRead,
    /// CCR was read: is its clock mode ours?
    ClockModeRead,
    /// The pair's clock was enabled: write the clock mode.
    ClockSetMode,
    /// Write the default data alignment.
    AlignSet,
    /// Start of the calibration: read CR.
    CalStart,
    /// CR was read: is the voltage regulator enabled?
    CalRegulatorRead,
    /// The regulator went through its intermediate state: enable it.
    CalRegulatorOn,
    /// Wait for the regulator to start up.
    CalRegulatorWait,
    /// Start of the disable procedure: read CR.
    DisStart,
    /// CR was read: is a disable pending?
    DisAddisRead,
    /// CR was read again: is a regular conversion running?
    DisAdstartRead,
    /// CR was read again: is an injected conversion running?
    DisJadstartRead,
    /// Conversions were stopped: read CFGR.
    DisJautoStart,
    /// CFGR was read: are injected conversions automatic?
    DisJautoRead,
    /// Start waiting for the stop to complete.
    DisStopWaitStart,
    /// CR was read: is the regular stop still pending?
    DisStopWaitAdstp,
    /// CR was read: is the injected stop still pending?
    DisStopWaitJadstp,
    /// CR was read: is the converter enabled?
    DisAdenRead,
    /// Start waiting for the disable to complete.
    DisAddisWaitStart,
    /// CR was read: is the disable still pending?
    DisAddisWait,
    /// The calibration was started: read CR.
    CalWaitStart,
    /// CR was read: is the calibration still running?
    CalWait,
    /// Start of the enable procedure: read CR.
    EnStart,
    /// CR was read: is the converter enabled already?
    EnAdenRead,
    /// ADEN was set: read ISR.
    EnReadyWaitStart,
    /// ISR was read: is the converter ready?
    EnReadyWait,
    /// Start of the one-shot set-up: stop regular conversions.
    OneShotStart,
    /// Clear the overrun flag.
    OneShotOvr,
    /// Select single conversions that preserve the data on overrun.
    OneShotCfgr,
    /// Set a sequence of one conversion.
    OneShotLen,
    /// The one-shot set-up is done.
    OneShotDone,
    /// Start of a conversion.
    ConvStart,
    /// Select the channel as the only one of the sequence.
    ConvSelect,
    /// Start the conversion.
    ConvTrigger,
    /// Start waiting for the end of the sequence.
    ConvWaitStart,
    /// ISR was read: has the sequence ended?
    ConvWaitEos,
    /// Read the data register.
    ConvReadData,
    /// DR was read: the result is there.
    ConvDataRead,
}

/// The state of the driver's procedures and the configuration they use.
#[derive(Copy, Clone, PartialEq, Eq, Debug, Structural)]
pub struct Controller {
    pub clock_mode: ClockMode,
    pub clocks: Clocks,
    pub pair: AdcPair,
    pub operation_mode: Option<OperationMode>,
    pub task: Task,
    pub phase: Phase,
    pub channel: u8,
}

/// The phase belongs to the procedure.
pub open spec fn phase_of_task(phase: Phase, task: Task) -> bool {
    match phase {
        Phase::Idle => true,
        Phase::ClockStart | Phase::ClockEnabledRead | Phase::ClockModeRead | Phase::ClockSetMode
        | Phase::AlignSet | Phase::CalStart | Phase::CalRegulatorRead | Phase::CalRegulatorOn
        | Phase::CalRegulatorWait | Phase::CalWaitStart | Phase::CalWait | Phase::EnStart
        | Phase::EnAdenRead | Phase::EnReadyWaitStart | Phase::EnReadyWait => task == Task::Init,
        Phase::DisStart | Phase::DisAddisRead | Phase::DisAdstartRead | Phase::DisJadstartRead
        | Phase::DisJautoStart | Phase::DisJautoRead | Phase::DisStopWaitStart
        | Phase::DisStopWaitAdstp | Phase::DisStopWaitJadstp | Phase::DisAdenRead
        | Phase::DisAddisWaitStart | Phase::DisAddisWait => task == Task::Init || task
            == Task::Release,
        Phase::OneShotStart | Phase::OneShotOvr | Phase::OneShotCfgr | Phase::OneShotLen
        | Phase::OneShotDone => task == Task::SetupOneShot || task == Task::Convert,
        Phase::ConvStart | Phase::ConvSelect | Phase::ConvTrigger | Phase::ConvWaitStart
        | Phase::ConvWaitEos | Phase::ConvReadData | Phase::ConvDataRead => task == Task::Convert,
    }
}

/// The phase comes after the one-shot mode was set up.
pub open spec fn phase_needs_one_shot(phase: Phase) -> bool {
    match phase {
        Phase::OneShotDone | Phase::ConvSelect | Phase::ConvTrigger | Phase::ConvWaitStart
        | Phase::ConvWaitEos | Phase::ConvReadData | Phase::ConvDataRead => true,
        _ => false,
    }
}

impl Controller {
    /// The controller is in a state that its procedures can reach.
    pub open spec fn wf(self) -> bool {
        &&& self.clocks.sysclk > 0
        &&& spec_clocks_welldefined(self.clock_mode, self.clocks)
        &&& phase_of_task(self.phase, self.task)
        &&& self.task == Task::Convert ==> 1 <= self.channel <= 18
        &&& phase_needs_one_shot(self.phase) ==> self.operation_mode == Some(OperationMode::OneShot)
    }
}

/// The state `c` moved to `phase`, and the operation to perform.
pub open spec fn go(c: Controller, phase: Phase, op: BusOp) -> (Controller, BusOp) {
    (Controller { phase, ..c }, op)
}

/// The operation that writes `value` into `field`.
pub open spec fn write_op(field: Field, value: u32) -> BusOp {
    BusOp::Modify(field.spec_register(), field.spec_write(value))
}

/// Single conversions that preserve the data register on overrun.
pub open spec fn spec_one_shot_cfgr() -> Update {
    Field::Cont.spec_write(0).spec_and_then(Field::Ovrmod.spec_write(0))
}

/// Start of a single-ended calibration.
pub open spec fn spec_calibration_start() -> Update {
    Field::Adcaldif.spec_write(0).spec_and_then(Field::Adcal.spec_write(1))
}

/// The update of `SQR1` that sets a regular sequence of `len` conversions.
pub open spec fn spec_sequence_len(len: u8) -> Update {
    Field::SeqLen.spec_write((len - 1) as u32)
}

/// The operation that sets the sampling time of `channel`.
pub open spec fn spec_sample_time_op(channel: u8, smp: SampleTime) -> BusOp {
    write_op(Field::Smp(channel), smp.spec_smp_bits() as u32)
}

/// The value of the `ALIGN` bit for `align`.
pub open spec fn spec_align_code(align: Align) -> u32 {
    if align.spec_align_bit() { 1 } else { 0 }
}

/// The operation that sets the data alignment.
pub open spec fn spec_align_op(align: Align) -> BusOp {
    write_op(Field::Align, spec_align_code(align))
}

/// The operation that makes `channel` the first conversion of the regular sequence.
pub open spec fn spec_channel_select_op(channel: u8) -> BusOp {
    write_op(Field::Sq1, channel as u32)
}

/// The updates of `CR` that the procedures make, bit by bit.
pub proof fn lemma_cr_updates()
    ensures
        Field::Aden.spec_write(1) == (Update { clear: 0x1, set: 0x1 }),
        Field::Addis.spec_write(ADDIS_DISABLE) == (Update { clear: 0x2, set: 0x2 }),
        Field::Adstart.spec_write(1) == (Update { clear: 0x4, set: 0x4 }),
        Field::Adstp.spec_write(1) == (Update { clear: 0x10, set: 0x10 }),
        Field::Jadstp.spec_write(1) == (Update { clear: 0x20, set: 0x20 }),
        Field::Advregen.spec_write(ADVREGEN_INTERMEDIATE) == (Update { clear: 0x3000_0000, set: 0 }),
        Field::Advregen.spec_write(ADVREGEN_ENABLED) == (Update {
            clear: 0x3000_0000,
            set: 0x1000_0000,
        }),
        spec_calibration_start() == (Update { clear: 0xc000_0000, set: 0x8000_0000 }),
{
    lemma_low_masks();
    assert(1u32 << 0u32 == 0x1 && (1u32 & 1u32) << 0u32 == 0x1 && 1u32 << 1u32 == 0x2 && (1u32
        & 1u32) << 1u32 == 0x2 && 1u32 << 2u32 == 0x4 && (1u32 & 1u32) << 2u32 == 0x4 && 1u32
        << 4u32 == 0x10 && (1u32 & 1u32) << 4u32 == 0x10 && 1u32 << 5u32 == 0x20 && (1u32 & 1u32)
        << 5u32 == 0x20 && 3u32 << 28u32 == 0x3000_0000 && (0u32 & 3u32) << 28u32 == 0 && (1u32
        & 3u32) << 28u32 == 0x1000_0000 && 1u32 << 30u32 == 0x4000_0000 && (0u32 & 1u32) << 30u32
        == 0 && 1u32 << 31u32 == 0x8000_0000 && (1u32 & 1u32) << 31u32 == 0x8000_0000 && (0x4000_0000u32
        | 0x8000_0000u32) == 0xc000_0000u32 && ((0u32 & !0x8000_0000u32) | 0x8000_0000u32)
        == 0x8000_0000u32) by (bit_vector);
}

/// The step after the disable procedure ended: calibrate during start-up,
/// report the release otherwise.
pub open spec fn after_disable(c: Controller) -> (Controller, BusOp) {
    if c.task == Task::Release {
        go(c, Phase::Idle, BusOp::Finished(Outcome::Released))
    } else {
        go(c, Phase::CalWaitStart, BusOp::Modify(Register::Cr, spec_calibration_start()))
    }
}

/// The controller's transition: from state `c`, with `input` the value of
/// the last register read, the next state and the next bus operation.
pub open spec fn next(c: Controller, input: u32) -> (Controller, BusOp) {
    match c.phase {
        Phase::Idle => (c, BusOp::Finished(Outcome::Idle)),
        // enable of the pair's clock
        Phase::ClockStart => go(c, Phase::ClockEnabledRead, BusOp::Read(Register::AhbEnr)),
        Phase::ClockEnabledRead => if Field::ClockEnable(c.pair).spec_get(input) == 1 {
            go(c, Phase::ClockModeRead, BusOp::Read(Register::CommonCcr))
        } else {
            go(c, Phase::ClockSetMode, write_op(Field::ClockEnable(c.pair), 1))
        },
        Phase::ClockModeRead => if Field::Ckmode.spec_get(input)
            == c.clock_mode.spec_ckmode_bits() as u32 {
            go(c, Phase::CalStart, spec_align_op(Align::Right))
        } else {
            go(c, Phase::Idle, BusOp::Finished(Outcome::ClockConflict))
        },
        Phase::ClockSetMode => go(
            c,
            Phase::AlignSet,
            write_op(Field::Ckmode, c.clock_mode.spec_ckmode_bits() as u32),
        ),
        // default data alignment
        Phase::AlignSet => go(
            c,
            Phase::CalStart,
            spec_align_op(Align::Right),
        ),
        // calibration: voltage regulator
        Phase::CalStart => go(c, Phase::CalRegulatorRead, BusOp::Read(Register::Cr)),
        Phase::CalRegulatorRead => if Field::Advregen.spec_get(input) != ADVREGEN_ENABLED {
            go(c, Phase::CalRegulatorOn, write_op(Field::Advregen, ADVREGEN_INTERMEDIATE))
        } else {
            go(c, Phase::DisAddisRead, BusOp::Read(Register::Cr))
        },
        Phase::CalRegulatorOn => go(
            c,
            Phase::CalRegulatorWait,
            write_op(Field::Advregen, ADVREGEN_ENABLED),
        ),
        Phase::CalRegulatorWait => go(
            c,
            Phase::DisStart,
            BusOp::Delay(spec_advregen_startup_cycles(c.clocks)),
        ),
        // disable
        Phase::DisStart => go(c, Phase::DisAddisRead, BusOp::Read(Register::Cr)),
        Phase::DisAddisRead => if Field::Addis.spec_get(input) == 0 {
            go(c, Phase::DisAdstartRead, BusOp::Read(Register::Cr))
        } else {
            go(c, Phase::DisAdenRead, BusOp::Read(Register::Cr))
        },
        Phase::DisAdstartRead => if Field::Adstart.spec_get(input) == 1 {
            go(c, Phase::DisJautoStart, write_op(Field::Adstp, 1))
        } else {
            go(c, Phase::DisJadstartRead, BusOp::Read(Register::Cr))
        },
        Phase::DisJadstartRead => if Field::Jadstart.spec_get(input) == 1 {
            go(c, Phase::DisJautoStart, write_op(Field::Adstp, 1))
        } else {
            go(c, Phase::DisAdenRead, BusOp::Read(Register::Cr))
        },
        Phase::DisJautoStart => go(c, Phase::DisJautoRead, BusOp::Read(Register::Cfgr)),
        Phase::DisJautoRead => if Field::Jauto.spec_get(input) == 1 {
            go(c, Phase::DisStopWaitAdstp, BusOp::Read(Register::Cr))
        } else {
            go(c, Phase::DisStopWaitStart, write_op(Field::Jadstp, 1))
        },
        Phase::DisStopWaitStart => go(c, Phase::DisStopWaitAdstp, BusOp::Read(Register::Cr)),
        Phase::DisStopWaitAdstp => if Field::Adstp.spec_get(input) == 1 {
            go(c, Phase::DisStopWaitAdstp, BusOp::Read(Register::Cr))
        } else {
            go(c, Phase::DisStopWaitJadstp, BusOp::Read(Register::Cr))
        },
        Phase::DisStopWaitJadstp => if Field::Jadstp.spec_get(input) == 1 {
            go(c, Phase::DisStopWaitAdstp, BusOp::Read(Register::Cr))
        } else {
            go(c, Phase::DisAdenRead, BusOp::Read(Register::Cr))
        },
        Phase::DisAdenRead => if Field::Aden.spec_get(input) == 1 {
            go(c, Phase::DisAddisWaitStart, write_op(Field::Addis, ADDIS_DISABLE))
        } else {
            after_disable(c)
        },
        Phase::DisAddisWaitStart => go(c, Phase::DisAddisWait, BusOp::Read(Register::Cr)),
        Phase::DisAddisWait => if Field::Addis.spec_get(input) == 1 {
            go(c, Phase::DisAddisWait, BusOp::Read(Register::Cr))
        } else {
            after_disable(c)
        },
        // calibration, then 4 ADC clock cycles before ADEN may be set
        Phase::CalWaitStart => go(c, Phase::CalWait, BusOp::Read(Register::Cr)),
        Phase::CalWait => if Field::Adcal.spec_get(input) == 1 {
            go(c, Phase::CalWait, BusOp::Read(Register::Cr))
        } else {
            go(
                c,
                Phase::EnStart,
                BusOp::Delay(spec_adc_clk_cycles(c.clock_mode, CYCLES_AFTER_CALIBRATION) as u32),
            )
        },
        // enable
        Phase::EnStart => go(c, Phase::EnAdenRead, BusOp::Read(Register::Cr)),
        Phase::EnAdenRead => if Field::Aden.spec_get(input) == 1 {
            go(c, Phase::Idle, BusOp::Finished(Outcome::Ready))
        } else {
            go(c, Phase::EnReadyWaitStart, write_op(Field::Aden, 1))
        },
        Phase::EnReadyWaitStart => go(c, Phase::EnReadyWait, BusOp::Read(Register::Isr)),
        Phase::EnReadyWait => if Field::Adrdy.spec_get(input) == 0 {
            go(c, Phase::EnReadyWait, BusOp::Read(Register::Isr))
        } else {
            go(c, Phase::Idle, BusOp::Finished(Outcome::Ready))
        },
        // one-shot set-up
        Phase::OneShotStart => go(c, Phase::OneShotOvr, write_op(Field::Adstp, 1)),
        Phase::OneShotOvr => go(c, Phase::OneShotCfgr, write_op(Field::Ovr, 1)),
        Phase::OneShotCfgr => go(
            c,
            Phase::OneShotLen,
            BusOp::Modify(Register::Cfgr, spec_one_shot_cfgr()),
        ),
        Phase::OneShotLen => (
            Controller {
                phase: Phase::OneShotDone,
                operation_mode: Some(OperationMode::OneShot),
                ..c
            },
            BusOp::Modify(Register::Sqr1, spec_sequence_len(1)),
        ),
        Phase::OneShotDone => if c.task == Task::Convert {
            go(c, Phase::ConvSelect, spec_sample_time_op(c.channel, SampleTime::Cycles1C5))
        } else {
            go(c, Phase::Idle, BusOp::Finished(Outcome::Configured))
        },
        // conversion
        Phase::ConvStart => if c.operation_mode != Some(OperationMode::OneShot) {
            go(c, Phase::OneShotOvr, write_op(Field::Adstp, 1))
        } else {
            go(c, Phase::ConvSelect, spec_sample_time_op(c.channel, SampleTime::Cycles1C5))
        },
        Phase::ConvSelect => go(c, Phase::ConvTrigger, spec_channel_select_op(c.channel)),
        Phase::ConvTrigger => go(c, Phase::ConvWaitStart, write_op(Field::Adstart, 1)),
        Phase::ConvWaitStart => go(c, Phase::ConvWaitEos, BusOp::Read(Register::Isr)),
        Phase::ConvWaitEos => if Field::Eos.spec_get(input) == 0 {
            go(c, Phase::ConvWaitEos, BusOp::Read(Register::Isr))
        } else {
            go(c, Phase::ConvReadData, write_op(Field::Eos, 1))
        },
        Phase::ConvReadData => go(c, Phase::ConvDataRead, BusOp::Read(Register::Dr)),
        Phase::ConvDataRead => go(
            c,
            Phase::Idle,
            BusOp::Finished(Outcome::Converted(Field::Rdata.spec_get(input) as u16)),
        ),
    }
}

/// The operation that writes `value` into `field`.
pub fn write_field(field: Field, value: u32) -> (op: BusOp)
    requires
        field.valid(),
    ensures
        op == write_op(field, value),
{
    BusOp::Modify(field.register(), field.write(value))
}

/// The update of `CFGR` that selects single conversions which preserve the
/// data register on overrun.
pub fn one_shot_cfgr() -> (u: Update)
    ensures
        u == spec_one_shot_cfgr(),
        forall|v: u32| #[trigger] Field::Cont.spec_get(u.spec_apply(v)) == 0,
        forall|v: u32| #[trigger] Field::Ovrmod.spec_get(u.spec_apply(v)) == 0,
{
    let u = Field::Cont.write(0).and_then(Field::Ovrmod.write(0));
    proof {
        assert forall|v: u32| #[trigger] Field::Cont.spec_get(u.spec_apply(v)) == 0 by {
            lemma_and_then_apply(Field::Cont.spec_write(0), Field::Ovrmod.spec_write(0), v);
            let w = Field::Cont.spec_write(0).spec_apply(v);
            lemma_field_frame(Field::Ovrmod.spec_bits(), Field::Cont.spec_bits(), 0, w);
            lemma_low_masks();
            lemma_field_read_back_fits(Field::Cont.spec_bits(), 0, v);
        }
        assert forall|v: u32| #[trigger] Field::Ovrmod.spec_get(u.spec_apply(v)) == 0 by {
            lemma_and_then_apply(Field::Cont.spec_write(0), Field::Ovrmod.spec_write(0), v);
            let w = Field::Cont.spec_write(0).spec_apply(v);
            lemma_low_masks();
            lemma_field_read_back_fits(Field::Ovrmod.spec_bits(), 0, w);
        }
    }
    u
}

/// The update of `CR` that starts a single-ended calibration.
pub fn calibration_start() -> (u: Update)
    ensures
        u == spec_calibration_start(),
        forall|v: u32| #[trigger] Field::Adcaldif.spec_get(u.spec_apply(v)) == 0,
        forall|v: u32| #[trigger] Field::Adcal.spec_get(u.spec_apply(v)) == 1,
{
    let u = Field::Adcaldif.write(0).and_then(Field::Adcal.write(1));
    proof {
        assert forall|v: u32| #[trigger] Field::Adcaldif.spec_get(u.spec_apply(v)) == 0 by {
            lemma_and_then_apply(Field::Adcaldif.spec_write(0), Field::Adcal.spec_write(1), v);
            let w = Field::Adcaldif.spec_write(0).spec_apply(v);
            lemma_field_frame(Field::Adcal.spec_bits(), Field::Adcaldif.spec_bits(), 1, w);
            lemma_low_masks();
            lemma_field_read_back_fits(Field::Adcaldif.spec_bits(), 0, v);
        }
        assert forall|v: u32| #[trigger] Field::Adcal.spec_get(u.spec_apply(v)) == 1 by {
            lemma_and_then_apply(Field::Adcaldif.spec_write(0), Field::Adcal.spec_write(1), v);
            let w = Field::Adcaldif.spec_write(0).spec_apply(v);
            lemma_low_masks();
            lemma_field_read_back_fits(Field::Adcal.spec_bits(), 1, w);
        }
    }
    u
}

/// The update of `SQR1` that sets a regular sequence of `len` conversions
/// (the `L` field holds `len - 1`). The sequence length must be in 1..=16.
pub fn sequence_len(len: u8) -> (u: Update)
    requires
        1 <= len <= 16,
    ensures
        u == spec_sequence_len(len),
        forall|v: u32| #[trigger] Field::SeqLen.spec_get(u.spec_apply(v)) == len - 1,
{
    let u = Field::SeqLen.write((len - 1) as u32);
    proof {
        assert forall|v: u32| #[trigger] Field::SeqLen.spec_get(u.spec_apply(v)) == len - 1 by {
            lemma_low_masks();
            lemma_field_read_back_fits(Field::SeqLen.spec_bits(), (len - 1) as u32, v);
        }
    }
    u
}

/// The operation that sets the data alignment.
pub fn align_op(align: Align) -> (op: BusOp)
    ensures
        op == spec_align_op(align),
{
    let code: u32 = if align.align_bit() { 1 } else { 0 };
    write_field(Field::Align, code)
}

/// The operation that sets the sampling time of `channel`, which must be one
/// of the channels 1 to 18.
pub fn sample_time_op(channel: u8, smp: SampleTime) -> (op: BusOp)
    requires
        1 <= channel <= 18,
    ensures
        op == spec_sample_time_op(channel, smp),
{
    write_field(Field::Smp(channel), smp.smp_bits() as u32)
}

/// The operation that makes `channel` the first conversion of the regular
/// sequence.
pub fn channel_select_op(channel: u8) -> (op: BusOp)
    ensures
        op == spec_channel_select_op(channel),
{
    write_field(Field::Sq1, channel as u32)
}

fn exec_go(c: Controller, phase: Phase, op: BusOp) -> (r: (Controller, BusOp))
    ensures
        r == go(c, phase, op),
{
    (Controller { phase, ..c }, op)
}

fn exec_after_disable(c: Controller) -> (r: (Controller, BusOp))
    ensures
        r == after_disable(c),
{
    if c.task == Task::Release {
        exec_go(c, Phase::Idle, BusOp::Finished(Outcome::Released))
    } else {
        exec_go(c, Phase::CalWaitStart, BusOp::Modify(Register::Cr, calibration_start()))
    }
}

fn is_one_shot(mode: Option<OperationMode>) -> (b: bool)
    ensures
        b == (mode == Some(OperationMode::OneShot)),
{
    match mode {
        Some(m) => match m {
            OperationMode::OneShot => {
                assert(m == OperationMode::OneShot);
                true
            },
        },
        None => false,
    }
}

/// One step of the controller: `input` is the value of the last register read.
pub fn advance(c: Controller, input: u32) -> (r: (Controller, BusOp))
    requires
        c.wf(),
    ensures
        r == next(c, input),
{
    match c.phase {
        Phase::Idle => (c, BusOp::Finished(Outcome::Idle)),
        Phase::ClockStart => exec_go(c, Phase::ClockEnabledRead, BusOp::Read(Register::AhbEnr)),
        Phase::ClockEnabledRead => if Field::ClockEnable(c.pair).get(input) == 1 {
            exec_go(c, Phase::ClockModeRead, BusOp::Read(Register::CommonCcr))
        } else {
            exec_go(c, Phase::ClockSetMode, write_field(Field::ClockEnable(c.pair), 1))
        },
        Phase::ClockModeRead => if Field::Ckmode.get(input) == c.clock_mode.ckmode_bits() as u32 {
            exec_go(c, Phase::CalStart, align_op(Align::Right))
        } else {
            exec_go(c, Phase::Idle, BusOp::Finished(Outcome::ClockConflict))
        },
        Phase::ClockSetMode => exec_go(
            c,
            Phase::AlignSet,
            write_field(Field::Ckmode, c.clock_mode.ckmode_bits() as u32),
        ),
        Phase::AlignSet => exec_go(c, Phase::CalStart, align_op(Align::Right)),
        Phase::CalStart => exec_go(c, Phase::CalRegulatorRead, BusOp::Read(Register::Cr)),
        Phase::CalRegulatorRead => if Field::Advregen.get(input) != ADVREGEN_ENABLED {
            exec_go(c, Phase::CalRegulatorOn, write_field(Field::Advregen, ADVREGEN_INTERMEDIATE))
        } else {
            exec_go(c, Phase::DisAddisRead, BusOp::Read(Register::Cr))
        },
        Phase::CalRegulatorOn => exec_go(
            c,
            Phase::CalRegulatorWait,
            write_field(Field::Advregen, ADVREGEN_ENABLED),
        ),
        Phase::CalRegulatorWait => exec_go(
            c,
            Phase::DisStart,
            BusOp::Delay(advregen_startup_cycles(c.clocks)),
        ),
        Phase::DisStart => exec_go(c, Phase::DisAddisRead, BusOp::Read(Register::Cr)),
        Phase::DisAddisRead => if Field::Addis.get(input) == 0 {
            exec_go(c, Phase::DisAdstartRead, BusOp::Read(Register::Cr))
        } else {
            exec_go(c, Phase::DisAdenRead, BusOp::Read(Register::Cr))
        },
        Phase::DisAdstartRead => if Field::Adstart.get(input) == 1 {
            exec_go(c, Phase::DisJautoStart, write_field(Field::Adstp, 1))
        } else {
            exec_go(c, Phase::DisJadstartRead, BusOp::Read(Register::Cr))
        },
        Phase::DisJadstartRead => if Field::Jadstart.get(input) == 1 {
            exec_go(c, Phase::DisJautoStart, write_field(Field::Adstp, 1))
        } else {
            exec_go(c, Phase::DisAdenRead, BusOp::Read(Register::Cr))
        },
        Phase::DisJautoStart => exec_go(c, Phase::DisJautoRead, BusOp::Read(Register::Cfgr)),
        Phase::DisJautoRead => if Field::Jauto.get(input) == 1 {
            exec_go(c, Phase::DisStopWaitAdstp, BusOp::Read(Register::Cr))
        } else {
            exec_go(c, Phase::DisStopWaitStart, write_field(Field::Jadstp, 1))
        },
        Phase::DisStopWaitStart => exec_go(c, Phase::DisStopWaitAdstp, BusOp::Read(Register::Cr)),
        Phase::DisStopWaitAdstp => if Field::Adstp.get(input) == 1 {
            exec_go(c, Phase::DisStopWaitAdstp, BusOp::Read(Register::Cr))
        } else {
            exec_go(c, Phase::DisStopWaitJadstp, BusOp::Read(Register::Cr))
        },
        Phase::DisStopWaitJadstp => if Field::Jadstp.get(input) == 1 {
            exec_go(c, Phase::DisStopWaitAdstp, BusOp::Read(Register::Cr))
        } else {
            exec_go(c, Phase::DisAdenRead, BusOp::Read(Register::Cr))
        },
        Phase::DisAdenRead => if Field::Aden.get(input) == 1 {
            exec_go(c, Phase::DisAddisWaitStart, write_field(Field::Addis, ADDIS_DISABLE))
        } else {
            exec_after_disable(c)
        },
        Phase::DisAddisWaitStart => exec_go(c, Phase::DisAddisWait, BusOp::Read(Register::Cr)),
        Phase::DisAddisWait => if Field::Addis.get(input) == 1 {
            exec_go(c, Phase::DisAddisWait, BusOp::Read(Register::Cr))
        } else {
            exec_after_disable(c)
        },
        Phase::CalWaitStart => exec_go(c, Phase::CalWait, BusOp::Read(Register::Cr)),
        Phase::CalWait => if Field::Adcal.get(input) == 1 {
            exec_go(c, Phase::CalWait, BusOp::Read(Register::Cr))
        } else {
            exec_go(
                c,
                Phase::EnStart,
                BusOp::Delay(adc_clk_cycles(c.clock_mode, CYCLES_AFTER_CALIBRATION)),
            )
        },
        Phase::EnStart => exec_go(c, Phase::EnAdenRead, BusOp::Read(Register::Cr)),
        Phase::EnAdenRead => if Field::Aden.get(input) == 1 {
            exec_go(c, Phase::Idle, BusOp::Finished(Outcome::Ready))
        } else {
            exec_go(c, Phase::EnReadyWaitStart, write_field(Field::Aden, 1))
        },
        Phase::EnReadyWaitStart => exec_go(c, Phase::EnReadyWait, BusOp::Read(Register::Isr)),
        Phase::EnReadyWait => if Field::Adrdy.get(input) == 0 {
            exec_go(c, Phase::EnReadyWait, BusOp::Read(Register::Isr))
        } else {
            exec_go(c, Phase::Idle, BusOp::Finished(Outcome::Ready))
        },
        Phase::OneShotStart => exec_go(c, Phase::OneShotOvr, write_field(Field::Adstp, 1)),
        Phase::OneShotOvr => exec_go(c, Phase::OneShotCfgr, write_field(Field::Ovr, 1)),
        Phase::OneShotCfgr => exec_go(
            c,
            Phase::OneShotLen,
            BusOp::Modify(Register::Cfgr, one_shot_cfgr()),
        ),
        Phase::OneShotLen => (
            Controller {
                phase: Phase::OneShotDone,
                operation_mode: Some(OperationMode::OneShot),
                ..c
            },
            BusOp::Modify(Register::Sqr1, sequence_len(1)),
        ),
        Phase::OneShotDone => if c.task == Task::Convert {
            exec_go(c, Phase::ConvSelect, sample_time_op(c.channel, SampleTime::default()))
        } else {
            exec_go(c, Phase::Idle, BusOp::Finished(Outcome::Configured))
        },
        Phase::ConvStart => if !is_one_shot(c.operation_mode) {
            exec_go(c, Phase::OneShotOvr, write_field(Field::Adstp, 1))
        } else {
            exec_go(c, Phase::ConvSelect, sample_time_op(c.channel, SampleTime::default()))
        },
        Phase::ConvSelect => exec_go(c, Phase::ConvTrigger, channel_select_op(c.channel)),
        Phase::ConvTrigger => exec_go(c, Phase::ConvWaitStart, write_field(Field::Adstart, 1)),
        Phase::ConvWaitStart => exec_go(c, Phase::ConvWaitEos, BusOp::Read(Register::Isr)),
        Phase::ConvWaitEos => if Field::Eos.get(input) == 0 {
            exec_go(c, Phase::ConvWaitEos, BusOp::Read(Register::Isr))
        } else {
            exec_go(c, Phase::ConvReadData, write_field(Field::Eos, 1))
        },
        Phase::ConvReadData => exec_go(c, Phase::ConvDataRead, BusOp::Read(Register::Dr)),
        Phase::ConvDataRead => {
            let data = Field::Rdata.get(input);
            proof {
                assert(data < 0x10000) by (bit_vector)
                    requires
                        data == (input >> 0u32) & !(0xffff_ffffu32 << 16u32),
                ;
            }
            exec_go(c, Phase::Idle, BusOp::Finished(Outcome::Converted(data as u16)))
        },
    }
}

} // verus!
