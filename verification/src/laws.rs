//! Properties of the controller that span several steps or hold of every step.

use vstd::prelude::*;
use crate::config::{spec_adc_clk_cycles, spec_advregen_startup_cycles, OperationMode, SampleTime};
use crate::control::{
    lemma_cr_updates, next, spec_calibration_start, write_op, BusOp, Controller, Outcome, Phase,
    Task, ADDIS_DISABLE, ADVREGEN_ENABLED, ADVREGEN_INTERMEDIATE, CYCLES_AFTER_CALIBRATION,
};
use crate::regs::{
    lemma_and_then_apply, lemma_field_frame, lemma_field_get_fits, lemma_field_read_back_fits,
    lemma_low_masks, Field, Register,
};

verus! {

/// Every step keeps the controller in a state that its procedures can reach.
pub proof fn lemma_next_preserves_wf(c: Controller, input: u32)
    requires
        c.wf(),
    ensures
        next(c, input).0.wf(),
{
}

/// A step never changes the configuration: clock mode, clocks, converter
/// pair, procedure and channel stay, and a converter set up for one-shot
/// conversions stays so.
pub proof fn lemma_next_keeps_configuration(c: Controller, input: u32)
    ensures
        next(c, input).0.clock_mode == c.clock_mode,
        next(c, input).0.clocks == c.clocks,
        next(c, input).0.pair == c.pair,
        next(c, input).0.task == c.task,
        next(c, input).0.channel == c.channel,
        c.operation_mode == Some(OperationMode::OneShot) ==> next(c, input).0.operation_mode
            == Some(OperationMode::OneShot),
{
}

/// The flag that a waiting phase polls, with the register that holds it and
/// the value for which the wait goes on.
pub open spec fn polled_flag(phase: Phase) -> Option<(Field, u32)> {
    match phase {
        Phase::DisStopWaitAdstp => Some((Field::Adstp, 1)),
        Phase::DisAddisWait => Some((Field::Addis, 1)),
        Phase::CalWait => Some((Field::Adcal, 1)),
        Phase::EnReadyWait => Some((Field::Adrdy, 0)),
        Phase::ConvWaitEos => Some((Field::Eos, 0)),
        _ => None,
    }
}

/// While a polled flag keeps the value it waits on, the controller stays
/// where it is and reads the flag's register again: a busy wait writes
/// nothing.
pub proof fn lemma_polling_only_reads(c: Controller, input: u32)
    ensures
        match polled_flag(c.phase) {
            Some((flag, waiting)) => flag.spec_get(input) == waiting ==> next(c, input) == (
                c,
                BusOp::Read(flag.spec_register()),
            ),
            None => true,
        },
{
    assert(Controller { phase: c.phase, ..c } == c);
}

/// A procedure ends exactly when the controller goes back to idle.
pub proof fn lemma_finished_exactly_when_idle(c: Controller, input: u32)
    ensures
        next(c, input).1 is Finished <==> next(c, input).0.phase == Phase::Idle,
{
}

/// A conversion result is the low half of the data register just read, and
/// it is obtained in one-shot mode, for the channel that was asked for.
pub proof fn lemma_conversion_result(c: Controller, input: u32, value: u16)
    requires
        c.wf(),
        next(c, input).1 == BusOp::Finished(Outcome::Converted(value)),
    ensures
        c.phase == Phase::ConvDataRead,
        c.task == Task::Convert,
        value == input & 0xffff,
        next(c, input).0.operation_mode == Some(OperationMode::OneShot),
{
    crate::regs::lemma_low_masks();
    assert((input >> 0u32) & 0xffff == input & 0xffff && input & 0xffff < 0x10000) by (bit_vector);
}

/// The one-shot set-up reports its end only once one-shot mode is recorded.
pub proof fn lemma_configured_in_one_shot_mode(c: Controller, input: u32)
    requires
        c.wf(),
        next(c, input).1 == BusOp::Finished(Outcome::Configured),
    ensures
        c.task == Task::SetupOneShot,
        next(c, input).0.operation_mode == Some(OperationMode::OneShot),
{
}

/// The operation reads or writes the register.
pub open spec fn accesses(op: BusOp, r: Register) -> bool {
    match op {
        BusOp::Read(reg) => reg == r,
        BusOp::Modify(reg, _) => reg == r,
        _ => false,
    }
}

/// Only the start-up procedure touches the registers shared with the other
/// converter of the pair and with the rest of the chip (the clock enable
/// register and the common control register).
pub proof fn lemma_shared_registers_only_at_start_up(c: Controller, input: u32, r: Register)
    requires
        c.wf(),
        c.task != Task::Init,
        accesses(next(c, input).1, r),
    ensures
        r != Register::AhbEnr,
        r != Register::CommonCcr,
{
}

/// The disable procedure requests a stop (ADSTP) only right after a read of
/// CR showed a regular or an injected conversion running.
pub proof fn lemma_stop_only_while_converting(c: Controller, input: u32)
    requires
        c.wf(),
        c.task == Task::Release || c.task == Task::Init,
        next(c, input).1 == write_op(Field::Adstp, 1),
    ensures
        (c.phase == Phase::DisAdstartRead && Field::Adstart.spec_get(input) == 1) || (c.phase
            == Phase::DisJadstartRead && Field::Jadstart.spec_get(input) == 1),
{
    lemma_cr_updates();
}

/// The disable procedure looks for running conversions only after a read of
/// CR showed no disable pending (ADDIS = 0).
pub proof fn lemma_conversions_checked_only_without_pending_disable(c: Controller, input: u32)
    requires
        c.wf(),
        next(c, input).0.phase == Phase::DisAdstartRead,
    ensures
        c.phase == Phase::DisAddisRead,
        Field::Addis.spec_get(input) == 0,
{
}

/// The disable procedure writes ADDIS only right after a read of CR showed
/// the converter enabled (ADEN = 1).
pub proof fn lemma_disable_only_when_enabled(c: Controller, input: u32)
    requires
        c.wf(),
        next(c, input).1 == write_op(Field::Addis, ADDIS_DISABLE),
    ensures
        c.phase == Phase::DisAdenRead,
        Field::Aden.spec_get(input) == 1,
{
    lemma_cr_updates();
}

/// ADEN is set only right after a read of CR showed it clear, and the enable
/// procedure starts only after a read of CR showed the calibration over
/// (ADCAL = 0): ADEN is never set during a calibration.
pub proof fn lemma_enable_only_after_calibration(c: Controller, input: u32)
    requires
        c.wf(),
    ensures
        next(c, input).1 == write_op(Field::Aden, 1) ==> c.phase == Phase::EnAdenRead
            && Field::Aden.spec_get(input) == 0,
        next(c, input).0.phase == Phase::EnStart ==> c.phase == Phase::CalWait
            && Field::Adcal.spec_get(input) == 0 && next(c, input).1 == BusOp::Delay(
            spec_adc_clk_cycles(c.clock_mode, CYCLES_AFTER_CALIBRATION) as u32,
        ),
{
    lemma_cr_updates();
    lemma_low_masks();
    lemma_field_get_fits(Field::Aden.spec_bits(), input);
    lemma_field_get_fits(Field::Adcal.spec_bits(), input);
}

/// The voltage regulator is enabled only right after it was put in its
/// intermediate state, and then the controller waits for its start-up.
pub proof fn lemma_regulator_through_intermediate(c: Controller, input: u32)
    requires
        c.wf(),
    ensures
        next(c, input).1 == write_op(Field::Advregen, ADVREGEN_ENABLED) ==> c.phase
            == Phase::CalRegulatorOn,
        next(c, input).0.phase == Phase::CalRegulatorOn ==> c.phase == Phase::CalRegulatorRead
            && next(c, input).1 == write_op(Field::Advregen, ADVREGEN_INTERMEDIATE),
        c.phase == Phase::CalRegulatorOn ==> next(c, input).0.phase == Phase::CalRegulatorWait
            && next(c, input).1 == write_op(Field::Advregen, ADVREGEN_ENABLED)
            && next(next(c, input).0, 0).1 == BusOp::Delay(
            spec_advregen_startup_cycles(c.clocks),
        ),
{
    lemma_cr_updates();
}

/// The registers after `op` was carried out, when nothing else changes them:
/// a modify writes its update of the value read, the other operations write
/// nothing.
pub open spec fn perform(regs: Map<Register, u32>, op: BusOp) -> Map<Register, u32> {
    match op {
        BusOp::Modify(r, u) => regs.insert(r, u.spec_apply(regs[r])),
        _ => regs,
    }
}

/// The value that `op` hands to the next step: what it read, or 0.
pub open spec fn reply(regs: Map<Register, u32>, op: BusOp) -> u32 {
    match op {
        BusOp::Read(r) => regs[r],
        _ => 0,
    }
}

/// `n` steps of the controller against registers that only its own
/// operations change: the state reached, the registers, and the operations
/// made, in order.
pub open spec fn run(c: Controller, regs: Map<Register, u32>, input: u32, n: nat) -> (
    Controller,
    Map<Register, u32>,
    Seq<BusOp>,
)
    decreases n,
{
    if n == 0 {
        (c, regs, Seq::empty())
    } else {
        let (c1, op) = next(c, input);
        let regs1 = perform(regs, op);
        let (c2, regs2, ops) = run(c1, regs1, reply(regs1, op), (n - 1) as nat);
        (c2, regs2, seq![op] + ops)
    }
}

/// The clock enable of the start-up procedure goes on
/// exactly when the clock of the pair can be enabled with the converter's
/// clock mode, or was already enabled with that mode: then the clock is
/// enabled with that mode, and no other bit of the clock enable register or
/// of the common control register is touched. Otherwise the procedure ends
/// with a clock conflict and writes nothing.
pub proof fn lemma_enable_clock(c: Controller, regs: Map<Register, u32>, input: u32)
    requires
        c.wf(),
        c.phase == Phase::ClockStart,
    ensures
        ({
            let (c3, regs3, ops) = run(c, regs, input, 3);
            let enabled = Field::ClockEnable(c.pair).spec_get(regs[Register::AhbEnr]) == 1;
            let same_mode = Field::Ckmode.spec_get(regs[Register::CommonCcr])
                == c.clock_mode.spec_ckmode_bits() as u32;
            &&& ops.len() == 3
            &&& ops[0] == BusOp::Read(Register::AhbEnr)
            &&& !enabled ==> {
                &&& c3.phase == Phase::AlignSet
                &&& regs3[Register::AhbEnr] == Field::ClockEnable(c.pair).spec_write(1).spec_apply(
                    regs[Register::AhbEnr],
                )
                &&& regs3[Register::CommonCcr] == Field::Ckmode.spec_write(
                    c.clock_mode.spec_ckmode_bits() as u32,
                ).spec_apply(regs[Register::CommonCcr])
                &&& Field::ClockEnable(c.pair).spec_get(regs3[Register::AhbEnr]) == 1
                &&& Field::Ckmode.spec_get(regs3[Register::CommonCcr])
                    == c.clock_mode.spec_ckmode_bits() as u32
            }
            &&& enabled && same_mode ==> {
                &&& c3.phase == Phase::CalStart
                &&& regs3[Register::AhbEnr] == regs[Register::AhbEnr]
                &&& regs3[Register::CommonCcr] == regs[Register::CommonCcr]
            }
            &&& enabled && !same_mode ==> {
                &&& c3.phase == Phase::Idle
                &&& ops[2] == BusOp::Finished(Outcome::ClockConflict)
                &&& regs3 == regs
            }
        }),
{
    reveal_with_fuel(run, 4);
    lemma_low_masks();
    let en = Field::ClockEnable(c.pair);
    lemma_field_read_back_fits(en.spec_bits(), 1, regs[Register::AhbEnr]);
    let mode = c.clock_mode.spec_ckmode_bits() as u32;
    lemma_field_read_back_fits(Field::Ckmode.spec_bits(), mode, regs[Register::CommonCcr]);
    let (c1, op1) = next(c, input);
    let regs1 = perform(regs, op1);
    let (c2, op2) = next(c1, reply(regs1, op1));
    let regs2 = perform(regs1, op2);
    assert(regs1 == regs);
    if Field::ClockEnable(c.pair).spec_get(regs[Register::AhbEnr]) == 1 {
        assert(regs2 == regs);
    }
}

/// The one-shot set-up (`Adc::setup_oneshot`) stops regular conversions, clears
/// the overrun flag, selects single conversions that preserve the data on
/// overrun, and sets a regular sequence of one conversion; it touches no
/// other register, records one-shot mode and reports its end.
pub proof fn lemma_setup_oneshot_effect(c: Controller, regs: Map<Register, u32>, input: u32)
    requires
        c.wf(),
        c.phase == Phase::OneShotStart,
        c.task == Task::SetupOneShot,
    ensures
        ({
            let (c5, regs5, ops) = run(c, regs, input, 5);
            &&& ops.len() == 5
            &&& ops[4] == BusOp::Finished(Outcome::Configured)
            &&& c5.phase == Phase::Idle
            &&& c5.operation_mode == Some(OperationMode::OneShot)
            &&& Field::Adstp.spec_get(regs5[Register::Cr]) == 1
            &&& Field::Ovr.spec_get(regs5[Register::Isr]) == 1
            &&& Field::Cont.spec_get(regs5[Register::Cfgr]) == 0
            &&& Field::Ovrmod.spec_get(regs5[Register::Cfgr]) == 0
            &&& Field::SeqLen.spec_get(regs5[Register::Sqr1]) == 0
            &&& forall|r: Register|
                r != Register::Cr && r != Register::Isr && r != Register::Cfgr && r
                    != Register::Sqr1 ==> #[trigger] regs5[r] == regs[r]
        }),
{
    reveal_with_fuel(run, 6);
    lemma_low_masks();
    lemma_field_read_back_fits(Field::Adstp.spec_bits(), 1, regs[Register::Cr]);
    lemma_field_read_back_fits(Field::Ovr.spec_bits(), 1, regs[Register::Isr]);
    let cfgr = regs[Register::Cfgr];
    lemma_and_then_apply(Field::Cont.spec_write(0), Field::Ovrmod.spec_write(0), cfgr);
    let cfgr1 = Field::Cont.spec_write(0).spec_apply(cfgr);
    lemma_field_read_back_fits(Field::Cont.spec_bits(), 0, cfgr);
    lemma_field_frame(Field::Ovrmod.spec_bits(), Field::Cont.spec_bits(), 0, cfgr1);
    lemma_field_read_back_fits(Field::Ovrmod.spec_bits(), 0, cfgr1);
    lemma_field_read_back_fits(Field::SeqLen.spec_bits(), 0, regs[Register::Sqr1]);
}

/// Where the sampling time of a channel lies.
pub open spec fn smp_register(channel: u8) -> Register {
    Field::Smp(channel).spec_register()
}

/// A conversion (`Adc::convert_one`), after the one-shot set-up when the converter
/// was not in one-shot mode, samples the channel with the default sampling
/// time, makes it the only conversion of the regular sequence, and starts
/// the conversion; then it waits for the end of the sequence.
pub proof fn lemma_conversion_start(c: Controller, regs: Map<Register, u32>, input: u32)
    requires
        c.wf(),
        c.phase == Phase::ConvStart,
    ensures
        ({
            let n: nat = if c.operation_mode == Some(OperationMode::OneShot) { 3 } else { 7 };
            let (cn, regsn, ops) = run(c, regs, input, n);
            &&& cn.phase == Phase::ConvWaitStart
            &&& cn.operation_mode == Some(OperationMode::OneShot)
            &&& Field::Smp(c.channel).spec_get(regsn[smp_register(c.channel)])
                == SampleTime::Cycles1C5.spec_smp_bits() as u32
            &&& Field::Sq1.spec_get(regsn[Register::Sqr1]) == c.channel as u32
            &&& Field::Adstart.spec_get(regsn[Register::Cr]) == 1
            &&& c.operation_mode != Some(OperationMode::OneShot) ==> {
                &&& Field::SeqLen.spec_get(regsn[Register::Sqr1]) == 0
                &&& Field::Cont.spec_get(regsn[Register::Cfgr]) == 0
            }
        }),
{
    reveal_with_fuel(run, 8);
    lemma_low_masks();
    let ch = c.channel;
    let smp = Field::Smp(ch);
    let code = SampleTime::Cycles1C5.spec_smp_bits() as u32;
    if c.operation_mode == Some(OperationMode::OneShot) {
        let sqr1 = regs[Register::Sqr1];
        lemma_field_read_back_fits(smp.spec_bits(), code, regs[smp_register(ch)]);
        lemma_field_read_back_fits(Field::Sq1.spec_bits(), ch as u32, sqr1);
        lemma_field_read_back_fits(Field::Adstart.spec_bits(), 1, regs[Register::Cr]);
    } else {
        let cr1 = Field::Adstp.spec_write(1).spec_apply(regs[Register::Cr]);
        let cfgr = regs[Register::Cfgr];
        let cfgr1 = Field::Cont.spec_write(0).spec_apply(cfgr);
        lemma_and_then_apply(Field::Cont.spec_write(0), Field::Ovrmod.spec_write(0), cfgr);
        lemma_field_read_back_fits(Field::Cont.spec_bits(), 0, cfgr);
        lemma_field_frame(Field::Ovrmod.spec_bits(), Field::Cont.spec_bits(), 0, cfgr1);
        let sqr1 = Field::SeqLen.spec_write(0).spec_apply(regs[Register::Sqr1]);
        lemma_field_read_back_fits(Field::SeqLen.spec_bits(), 0, regs[Register::Sqr1]);
        lemma_field_read_back_fits(smp.spec_bits(), code, regs[smp_register(ch)]);
        lemma_field_read_back_fits(Field::Sq1.spec_bits(), ch as u32, sqr1);
        lemma_field_frame(Field::Sq1.spec_bits(), Field::SeqLen.spec_bits(), ch as u32, sqr1);
        lemma_field_read_back_fits(Field::Adstart.spec_bits(), 1, cr1);
    }
}

/// Start-up reports the converter ready only right after a read of CR showed
/// ADEN set, or, once ADEN was set, after a read of ISR showed ADRDY set.
pub proof fn lemma_ready_only_when_enabled(c: Controller, input: u32)
    requires
        c.wf(),
        next(c, input).1 == BusOp::Finished(Outcome::Ready),
    ensures
        (c.phase == Phase::EnAdenRead && Field::Aden.spec_get(input) == 1) || (c.phase
            == Phase::EnReadyWait && Field::Adrdy.spec_get(input) == 1),
{
    lemma_low_masks();
    lemma_field_get_fits(Field::Adrdy.spec_bits(), input);
}

/// The release reports the converter disabled only right after a read of CR
/// showed it not enabled, or, once the disable was requested, showed no
/// disable pending.
pub proof fn lemma_released_only_when_disabled(c: Controller, input: u32)
    requires
        c.wf(),
        next(c, input).1 == BusOp::Finished(Outcome::Released),
    ensures
        c.task == Task::Release,
        (c.phase == Phase::DisAdenRead && Field::Aden.spec_get(input) == 0) || (c.phase
            == Phase::DisAddisWait && Field::Addis.spec_get(input) == 0),
{
    lemma_low_masks();
    lemma_field_get_fits(Field::Aden.spec_bits(), input);
    lemma_field_get_fits(Field::Addis.spec_bits(), input);
}

/// The steps of the controller with the given register values read back,
/// one per step, whatever the hardware made of them: the state reached and
/// the operations made, in order.
pub open spec fn trace(c: Controller, inputs: Seq<u32>) -> (Controller, Seq<BusOp>)
    decreases inputs.len(),
{
    if inputs.len() == 0 {
        (c, Seq::empty())
    } else {
        let (before, ops) = trace(c, inputs.drop_last());
        let (after, op) = next(before, inputs.last());
        (after, ops.push(op))
    }
}

/// The phases of the start-up that come after the calibration was started.
pub open spec fn calibration_started(phase: Phase) -> bool {
    match phase {
        Phase::CalWaitStart | Phase::CalWait | Phase::EnStart | Phase::EnAdenRead
        | Phase::EnReadyWaitStart | Phase::EnReadyWait => true,
        _ => false,
    }
}

/// The phases of the start-up that come after the calibration was seen over.
pub open spec fn calibration_over(phase: Phase) -> bool {
    match phase {
        Phase::EnStart | Phase::EnAdenRead | Phase::EnReadyWaitStart | Phase::EnReadyWait => true,
        _ => false,
    }
}

/// What the start-up has done by the time it reaches its state `c`.
pub open spec fn start_up_history(c: Controller, ops: Seq<BusOp>) -> bool {
    let calibration = BusOp::Modify(Register::Cr, spec_calibration_start());
    let settle = BusOp::Delay(spec_adc_clk_cycles(c.clock_mode, CYCLES_AFTER_CALIBRATION) as u32);
    &&& c.wf()
    &&& c.task == Task::Init
    &&& calibration_started(c.phase) ==> ops.contains(calibration)
    &&& calibration_over(c.phase) ==> ops.contains(settle)
    &&& ops.contains(BusOp::Finished(Outcome::Ready)) ==> ops.contains(calibration)
        && ops.contains(settle)
}

/// Membership in a sequence with one more element.
pub proof fn lemma_push_contains(ops: Seq<BusOp>, op: BusOp, x: BusOp)
    ensures
        ops.contains(x) ==> ops.push(op).contains(x),
        ops.push(op).contains(op),
        ops.push(op).contains(x) ==> ops.contains(x) || x == op,
{
    if ops.contains(x) {
        let i = choose|i: int| 0 <= i < ops.len() && ops[i] == x;
        assert(ops.push(op)[i] == x);
    }
    assert(ops.push(op)[ops.len() as int] == op);
    if ops.push(op).contains(x) {
        let i = choose|i: int| 0 <= i < ops.push(op).len() && ops.push(op)[i] == x;
        if i < ops.len() {
            assert(ops[i] == x);
        }
    }
}

proof fn lemma_start_up_history_step(c: Controller, ops: Seq<BusOp>, input: u32)
    requires
        start_up_history(c, ops),
    ensures
        start_up_history(next(c, input).0, ops.push(next(c, input).1)),
{
    let (after, op) = next(c, input);
    let calibration = BusOp::Modify(Register::Cr, spec_calibration_start());
    let settle = BusOp::Delay(spec_adc_clk_cycles(c.clock_mode, CYCLES_AFTER_CALIBRATION) as u32);
    lemma_next_preserves_wf(c, input);
    lemma_next_keeps_configuration(c, input);
    lemma_push_contains(ops, op, calibration);
    lemma_push_contains(ops, op, settle);
    lemma_push_contains(ops, op, BusOp::Finished(Outcome::Ready));
    lemma_cr_updates();
    lemma_low_masks();
    lemma_field_get_fits(Field::Adcal.spec_bits(), input);
}

/// Whatever the hardware answers, the start-up reports the converter ready
/// only after it started a calibration, saw it over and waited the 4 ADC
/// clock cycles after it (ADEN is not set during a calibration).
pub proof fn lemma_start_up_calibrates(c: Controller, inputs: Seq<u32>)
    requires
        c.wf(),
        c.task == Task::Init,
        c.phase == Phase::ClockStart,
    ensures
        ({
            let (after, ops) = trace(c, inputs);
            ops.contains(BusOp::Finished(Outcome::Ready)) ==> {
                &&& ops.contains(BusOp::Modify(Register::Cr, spec_calibration_start()))
                &&& ops.contains(
                    BusOp::Delay(
                        spec_adc_clk_cycles(c.clock_mode, CYCLES_AFTER_CALIBRATION) as u32,
                    ),
                )
            }
        }),
{
    lemma_start_up_history(c, inputs);
}

proof fn lemma_start_up_history(c: Controller, inputs: Seq<u32>)
    requires
        c.wf(),
        c.task == Task::Init,
        c.phase == Phase::ClockStart,
    ensures
        start_up_history(trace(c, inputs).0, trace(c, inputs).1),
        trace(c, inputs).0.clock_mode == c.clock_mode,
    decreases inputs.len(),
{
    if inputs.len() > 0 {
        lemma_start_up_history(c, inputs.drop_last());
        let (before, ops) = trace(c, inputs.drop_last());
        lemma_start_up_history_step(before, ops, inputs.last());
        lemma_next_keeps_configuration(before, inputs.last());
    }
}

/// What the release has done by the time it reaches its state `c`.
pub open spec fn release_history(c: Controller, ops: Seq<BusOp>) -> bool {
    &&& c.wf()
    &&& c.task == Task::Release
    &&& (c.phase == Phase::DisAddisWaitStart || c.phase == Phase::DisAddisWait) ==> ops.contains(
        write_op(Field::Addis, ADDIS_DISABLE),
    )
}

proof fn lemma_release_history_step(c: Controller, ops: Seq<BusOp>, input: u32)
    requires
        release_history(c, ops),
    ensures
        release_history(next(c, input).0, ops.push(next(c, input).1)),
{
    let (after, op) = next(c, input);
    lemma_next_preserves_wf(c, input);
    lemma_next_keeps_configuration(c, input);
    lemma_push_contains(ops, op, write_op(Field::Addis, ADDIS_DISABLE));
}

proof fn lemma_release_history(c: Controller, inputs: Seq<u32>)
    requires
        c.wf(),
        c.task == Task::Release,
        c.phase == Phase::DisStart,
    ensures
        release_history(trace(c, inputs).0, trace(c, inputs).1),
    decreases inputs.len(),
{
    if inputs.len() > 0 {
        lemma_release_history(c, inputs.drop_last());
        let (before, ops) = trace(c, inputs.drop_last());
        lemma_release_history_step(before, ops, inputs.last());
    }
}

/// Whatever the hardware answers, the release (`Adc::disable`) reports the
/// converter disabled only right after a read of CR, when that read showed it
/// not enabled
/// (ADEN = 0), or when it had requested the disable (ADDIS = 1) and the last
/// read of CR showed the request completed (ADDIS = 0).
pub proof fn lemma_release_disables(c: Controller, inputs: Seq<u32>)
    requires
        c.wf(),
        c.task == Task::Release,
        c.phase == Phase::DisStart,
        inputs.len() > 0,
    ensures
        ({
            let (after, ops) = trace(c, inputs);
            ops.last() == BusOp::Finished(Outcome::Released) ==> {
                &&& inputs.len() >= 2
                &&& ops[inputs.len() - 2] == BusOp::Read(Register::Cr)
            } && {
                ||| Field::Aden.spec_get(inputs.last()) == 0
                ||| Field::Addis.spec_get(inputs.last()) == 0 && ops.contains(
                    write_op(Field::Addis, ADDIS_DISABLE),
                )
            }
        }),
{
    lemma_release_history(c, inputs.drop_last());
    let (before, ops) = trace(c, inputs.drop_last());
    let (after, op) = next(before, inputs.last());
    assert(trace(c, inputs) == (after, ops.push(op)));
    lemma_push_contains(ops, op, write_op(Field::Addis, ADDIS_DISABLE));
    crate::procedures::lemma_trace_reads_match(c, inputs.drop_last());
    crate::procedures::lemma_trace_len(c, inputs.drop_last());
    if op == BusOp::Finished(Outcome::Released) {
        lemma_released_only_when_disabled(before, inputs.last());
        assert(ops.push(op)[inputs.len() - 2] == ops.last());
    }
}

} // verus!
