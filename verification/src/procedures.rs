//! Properties of whole procedures, whatever the hardware answers: which
//! reads a result rests on, and what a procedure leaves in the registers it
//! alone writes.

use vstd::prelude::*;
use crate::config::Align;
use crate::control::{next, BusOp, Controller, Outcome, Phase, Task};
use crate::laws::{
    lemma_next_keeps_configuration, lemma_next_preserves_wf, lemma_push_contains,
    lemma_ready_only_when_enabled, trace,
};
use crate::regs::{
    lemma_field_get_fits, lemma_field_read_back_fits, lemma_low_masks, Field, Register,
};

verus! {

/// The register whose value a phase consumes: the one that the operation
/// leading into the phase read.
pub open spec fn awaited(phase: Phase) -> Option<Register> {
    match phase {
        Phase::ClockEnabledRead => Some(Register::AhbEnr),
        Phase::ClockModeRead => Some(Register::CommonCcr),
        Phase::DisJautoRead => Some(Register::Cfgr),
        Phase::CalRegulatorRead | Phase::DisAddisRead | Phase::DisAdstartRead
        | Phase::DisJadstartRead | Phase::DisStopWaitAdstp | Phase::DisStopWaitJadstp
        | Phase::DisAdenRead | Phase::DisAddisWait | Phase::CalWait | Phase::EnAdenRead => Some(
            Register::Cr,
        ),
        Phase::EnReadyWait | Phase::ConvWaitEos => Some(Register::Isr),
        Phase::ConvDataRead => Some(Register::Dr),
        _ => None,
    }
}

/// The last operation made is the read whose value the phase consumes.
pub open spec fn reads_match(phase: Phase, ops: Seq<BusOp>) -> bool {
    match awaited(phase) {
        Some(r) => ops.len() > 0 && ops.last() == BusOp::Read(r),
        None => true,
    }
}

proof fn lemma_step_reads(c: Controller, input: u32)
    requires
        c.wf(),
    ensures
        match awaited(next(c, input).0.phase) {
            Some(r) => next(c, input).1 == BusOp::Read(r),
            None => true,
        },
{
}

/// The operations of a trace come one per value fed in.
pub proof fn lemma_trace_len(c: Controller, inputs: Seq<u32>)
    ensures
        trace(c, inputs).1.len() == inputs.len(),
    decreases inputs.len(),
{
    if inputs.len() > 0 {
        lemma_trace_len(c, inputs.drop_last());
    }
}

/// A phase that starts a procedure consumes no read.
pub open spec fn starts_procedure(phase: Phase) -> bool {
    phase == Phase::ClockStart || phase == Phase::OneShotStart || phase == Phase::ConvStart
        || phase == Phase::DisStart
}

/// Along any trace from the start of a procedure, every value a phase
/// consumes is the value of the register that was just read.
pub proof fn lemma_trace_reads_match(c: Controller, inputs: Seq<u32>)
    requires
        c.wf(),
        starts_procedure(c.phase),
    ensures
        trace(c, inputs).0.wf(),
        reads_match(trace(c, inputs).0.phase, trace(c, inputs).1),
        trace(c, inputs).0.task == c.task,
        trace(c, inputs).0.clock_mode == c.clock_mode,
        trace(c, inputs).0.channel == c.channel,
    decreases inputs.len(),
{
    if inputs.len() > 0 {
        lemma_trace_reads_match(c, inputs.drop_last());
        let (before, ops) = trace(c, inputs.drop_last());
        lemma_next_preserves_wf(before, inputs.last());
        lemma_next_keeps_configuration(before, inputs.last());
        lemma_step_reads(before, inputs.last());
    }
}

// ---- conversion ----

/// The write of `CR` that starts a regular conversion.
pub open spec fn adstart_write() -> BusOp {
    BusOp::Modify(Register::Cr, Field::Adstart.spec_write(1))
}

/// What a conversion has done by the time it reaches its state `c`.
pub open spec fn conversion_history(c: Controller, ops: Seq<BusOp>, inputs: Seq<u32>) -> bool {
    &&& ops.len() == inputs.len()
    &&& (c.phase == Phase::ConvWaitStart || c.phase == Phase::ConvWaitEos) ==> exists|i: int|
        0 <= i < ops.len() && #[trigger] ops[i] == adstart_write()
    &&& (c.phase == Phase::ConvReadData || c.phase == Phase::ConvDataRead) ==> exists|
        i: int,
        j: int,
    |
        #![trigger ops[i], ops[j]]
        0 <= i < j && j + 1 < ops.len() && ops[i] == adstart_write() && ops[j] == BusOp::Read(
            Register::Isr,
        ) && Field::Eos.spec_get(inputs[j + 1]) == 1
}

proof fn lemma_conversion_history(c: Controller, inputs: Seq<u32>)
    requires
        c.wf(),
        c.task == Task::Convert,
        c.phase == Phase::ConvStart,
    ensures
        conversion_history(trace(c, inputs).0, trace(c, inputs).1, inputs),
    decreases inputs.len(),
{
    lemma_trace_len(c, inputs);
    if inputs.len() > 0 {
        let prefix = inputs.drop_last();
        lemma_conversion_history(c, prefix);
        lemma_trace_reads_match(c, prefix);
        lemma_trace_len(c, prefix);
        let (before, ops) = trace(c, prefix);
        let x = inputs.last();
        let (after, op) = next(before, x);
        let ops2 = ops.push(op);
        assert(trace(c, inputs) == (after, ops2));
        assert(inputs == prefix.push(x));
        if before.phase == Phase::ConvTrigger {
            assert(ops2[ops.len() as int] == adstart_write());
        } else if before.phase == Phase::ConvWaitStart || before.phase == Phase::ConvWaitEos {
            let i = choose|i: int| 0 <= i < ops.len() && #[trigger] ops[i] == adstart_write();
            assert(ops2[i] == adstart_write());
            if after.phase == Phase::ConvReadData {
                lemma_low_masks();
                lemma_field_get_fits(Field::Eos.spec_bits(), x);
                let j = ops.len() - 1;
                assert(ops[j] == BusOp::Read(Register::Isr));
                assert(inputs[j + 1] == x);
                assert(ops2[j] == BusOp::Read(Register::Isr));
                assert(i < j);
            }
        } else if before.phase == Phase::ConvReadData || before.phase == Phase::ConvDataRead {
            let (i, j) = choose|i: int, j: int|
                #![trigger ops[i], ops[j]]
                0 <= i < j && j + 1 < ops.len() && ops[i] == adstart_write() && ops[j]
                    == BusOp::Read(Register::Isr) && Field::Eos.spec_get(prefix[j + 1]) == 1;
            assert(ops2[i] == ops[i] && ops2[j] == ops[j] && inputs[j + 1] == prefix[j + 1]);
        }
    }
}

/// Whatever the hardware answers, a conversion reports a result only once it
/// started the conversion (ADSTART), then read ISR and saw the end of the
/// sequence (EOS = 1), and then read DR: the result is the low half of that
/// last read of DR.
pub proof fn lemma_conversion_waits_for_end_of_sequence(
    c: Controller,
    inputs: Seq<u32>,
    value: u16,
)
    requires
        c.wf(),
        c.task == Task::Convert,
        c.phase == Phase::ConvStart,
    ensures
        ({
            let ops = trace(c, inputs).1;
            let n = inputs.len() as int;
            ops.len() > 0 && ops.last() == BusOp::Finished(Outcome::Converted(value)) ==> {
                &&& n >= 2
                &&& ops[n - 2] == BusOp::Read(Register::Dr)
                &&& value == inputs[n - 1] & 0xffff
                &&& exists|i: int, j: int|
                    #![trigger ops[i], ops[j]]
                    0 <= i < j < n - 2 && ops[i] == BusOp::Modify(
                        Register::Cr,
                        Field::Adstart.spec_write(1),
                    ) && ops[j] == BusOp::Read(Register::Isr) && Field::Eos.spec_get(
                        inputs[j + 1],
                    ) == 1
            }
        }),
{
    lemma_trace_len(c, inputs);
    let ops = trace(c, inputs).1;
    if ops.len() > 0 && ops.last() == BusOp::Finished(Outcome::Converted(value)) {
        let prefix = inputs.drop_last();
        lemma_conversion_history(c, prefix);
        lemma_trace_reads_match(c, prefix);
        lemma_trace_len(c, prefix);
        let (before, ops1) = trace(c, prefix);
        let x = inputs.last();
        assert(ops == ops1.push(next(before, x).1));
        crate::laws::lemma_conversion_result(before, x, value);
        let n = inputs.len() as int;
        assert(ops[n - 2] == ops1.last());
        let (i, j) = choose|i: int, j: int|
            #![trigger ops1[i], ops1[j]]
            0 <= i < j && j + 1 < ops1.len() && ops1[i] == adstart_write() && ops1[j]
                == BusOp::Read(Register::Isr) && Field::Eos.spec_get(prefix[j + 1]) == 1;
        assert(ops[i] == ops1[i] && ops[j] == ops1[j] && inputs[j + 1] == prefix[j + 1]);
    }
}

// ---- start-up ----

/// The write of `CR` that enables the converter.
pub open spec fn aden_write() -> BusOp {
    BusOp::Modify(Register::Cr, Field::Aden.spec_write(1))
}

/// What the start-up has done about ADEN by the time it reaches its state `c`.
pub open spec fn enable_history(c: Controller, ops: Seq<BusOp>) -> bool {
    &&& ops.contains(aden_write()) ==> (c.phase == Phase::EnReadyWaitStart || c.phase
        == Phase::EnReadyWait || c.phase == Phase::Idle)
    &&& (c.phase == Phase::EnReadyWaitStart || c.phase == Phase::EnReadyWait) ==> ops.contains(
        aden_write(),
    )
}

proof fn lemma_enable_history(c: Controller, inputs: Seq<u32>)
    requires
        c.wf(),
        c.task == Task::Init,
        c.phase == Phase::ClockStart,
    ensures
        enable_history(trace(c, inputs).0, trace(c, inputs).1),
    decreases inputs.len(),
{
    if inputs.len() > 0 {
        let prefix = inputs.drop_last();
        lemma_enable_history(c, prefix);
        lemma_trace_reads_match(c, prefix);
        let (before, ops) = trace(c, prefix);
        let x = inputs.last();
        let (after, op) = next(before, x);
        crate::laws::lemma_enable_only_after_calibration(before, x);
        lemma_push_contains(ops, op, aden_write());
    }
}

/// Whatever the hardware answers, the start-up reports the converter ready
/// only in one of two ways. Either it wrote ADEN = 1 itself, and afterwards
/// read ISR and saw the converter ready (ADRDY = 1); or it never wrote ADEN,
/// and its last operation read CR and found ADEN already set.
pub proof fn lemma_start_up_waits_until_ready(c: Controller, inputs: Seq<u32>)
    requires
        c.wf(),
        c.task == Task::Init,
        c.phase == Phase::ClockStart,
    ensures
        ({
            let ops = trace(c, inputs).1;
            let n = inputs.len() as int;
            let aden = BusOp::Modify(Register::Cr, Field::Aden.spec_write(1));
            ops.len() > 0 && ops.last() == BusOp::Finished(Outcome::Ready) ==> {
                ||| exists|i: int, j: int|
                    #![trigger ops[i], ops[j]]
                    0 <= i < j < n - 1 && ops[i] == aden && ops[j] == BusOp::Read(Register::Isr)
                        && Field::Adrdy.spec_get(inputs[j + 1]) == 1
                ||| {
                    &&& !ops.contains(aden)
                    &&& n >= 2
                    &&& ops[n - 2] == BusOp::Read(Register::Cr)
                    &&& Field::Aden.spec_get(inputs[n - 1]) == 1
                }
            }
        }),
{
    lemma_trace_len(c, inputs);
    let ops2 = trace(c, inputs).1;
    if ops2.len() > 0 && ops2.last() == BusOp::Finished(Outcome::Ready) {
        let prefix = inputs.drop_last();
        lemma_enable_history(c, prefix);
        lemma_trace_reads_match(c, prefix);
        lemma_trace_len(c, prefix);
        let (before, ops) = trace(c, prefix);
        let x = inputs.last();
        let (after, op) = next(before, x);
        assert(ops2 == ops.push(op));
        lemma_ready_only_when_enabled(before, x);
        lemma_push_contains(ops, op, aden_write());
        let n = inputs.len() as int;
        assert(ops2[n - 2] == ops.last());
        if before.phase == Phase::EnReadyWait {
            let i = choose|i: int| 0 <= i < ops.len() && ops[i] == aden_write();
            let j = n - 2;
            assert(ops2[i] == aden_write());
            assert(ops2[j] == BusOp::Read(Register::Isr));
            assert(inputs[j + 1] == x);
            assert(i < j);
        }
    }
}

// ---- data alignment ----

/// The value of register `r` after the operations `ops`, when it held `v`
/// before them and only those operations write it: each modify of `r`
/// writes its update of the value it read.
pub open spec fn written_value(r: Register, v: u32, ops: Seq<BusOp>) -> u32
    decreases ops.len(),
{
    if ops.len() == 0 {
        v
    } else {
        let before = written_value(r, v, ops.drop_last());
        match ops.last() {
            BusOp::Modify(reg, u) => if reg == r { u.spec_apply(before) } else { before },
            _ => before,
        }
    }
}

/// The phases of the start-up that come after the data alignment was set.
pub open spec fn alignment_set(phase: Phase) -> bool {
    match phase {
        Phase::Idle | Phase::ClockStart | Phase::ClockEnabledRead | Phase::ClockModeRead
        | Phase::ClockSetMode | Phase::AlignSet => false,
        _ => true,
    }
}

/// What the start-up has left in the `ALIGN` field by the time it reaches
/// its state `c`, from the value `cfgr` of `CFGR` before it.
pub open spec fn alignment_history(c: Controller, ops: Seq<BusOp>, cfgr: u32) -> bool {
    alignment_set(c.phase) || ops.contains(BusOp::Finished(Outcome::Ready)) ==> Field::Align.spec_get(
        written_value(Register::Cfgr, cfgr, ops),
    ) == 0
}

proof fn lemma_alignment_history(c: Controller, inputs: Seq<u32>, cfgr: u32)
    requires
        c.wf(),
        c.task == Task::Init,
        c.phase == Phase::ClockStart,
    ensures
        alignment_history(trace(c, inputs).0, trace(c, inputs).1, cfgr),
    decreases inputs.len(),
{
    if inputs.len() > 0 {
        let prefix = inputs.drop_last();
        lemma_alignment_history(c, prefix, cfgr);
        lemma_trace_reads_match(c, prefix);
        let (before, ops) = trace(c, prefix);
        let x = inputs.last();
        let (after, op) = next(before, x);
        let ops2 = ops.push(op);
        assert(ops2.drop_last() =~= ops);
        lemma_push_contains(ops, op, BusOp::Finished(Outcome::Ready));
        let w = written_value(Register::Cfgr, cfgr, ops);
        lemma_low_masks();
        lemma_field_read_back_fits(Field::Align.spec_bits(), 0, w);
    }
}

/// Whatever the hardware answers, once the start-up reports the converter
/// ready the data alignment of `CFGR` is the default one, right alignment:
/// `ALIGN` holds the code of `Align::default()`, whatever `CFGR` held before
/// (`CFGR` is written by the driver only).
pub proof fn lemma_start_up_aligns_right(c: Controller, inputs: Seq<u32>, cfgr: u32)
    requires
        c.wf(),
        c.task == Task::Init,
        c.phase == Phase::ClockStart,
    ensures
        ({
            let ops = trace(c, inputs).1;
            ops.len() > 0 && ops.last() == BusOp::Finished(Outcome::Ready) ==> Field::Align.spec_get(
                written_value(Register::Cfgr, cfgr, ops),
            ) == 0 && !Align::Right.spec_align_bit()
        }),
{
    lemma_alignment_history(c, inputs, cfgr);
    let ops = trace(c, inputs).1;
    if ops.len() > 0 && ops.last() == BusOp::Finished(Outcome::Ready) {
        assert(ops[ops.len() - 1] == BusOp::Finished(Outcome::Ready));
    }
}

} // verus!
