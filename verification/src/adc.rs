//! The converter: the peripheral it owns and the state of its procedures.

use vstd::prelude::*;
use crate::config::{spec_clocks_welldefined, ClockMode, Clocks, OperationMode};
use crate::control::{advance, next, BusOp, Controller, Phase, Task};
use crate::laws::lemma_next_preserves_wf;
use crate::regs::AdcPair;

verus! {

/// Analog Digital Converter Peripheral
///
/// It owns the peripheral `ADC` and decides every access of its registers;
/// see [`Adc::step`].
pub struct Adc<ADC> {
    /// ADC Register
    adc: ADC,
    control: Controller,
}

impl<ADC> Adc<ADC> {
    #[verifier::type_invariant]
    spec fn inv(self) -> bool {
        self.control.wf()
    }

    /// The state of the converter's procedures and its configuration.
    pub closed spec fn state(self) -> Controller {
        self.control
    }

    /// The peripheral that the converter owns.
    pub closed spec fn owned(self) -> ADC {
        self.adc
    }

    /// Init a new ADC
    ///
    /// The returned converter runs its start-up procedure through
    /// [`Adc::step`]: it enables the clock, performs a calibration and
    /// enables the ADC. The procedure ends with [`Outcome::Ready`], or with
    /// [`Outcome::ClockConflict`] if the clock was already enabled with a
    /// different setting.
    ///
    /// The clock settings must be well defined and the system clock running.
    ///
    /// [`Outcome::Ready`]: crate::control::Outcome::Ready
    /// [`Outcome::ClockConflict`]: crate::control::Outcome::ClockConflict
    pub fn new(adc: ADC, pair: AdcPair, clock_mode: ClockMode, clocks: Clocks) -> (s: Self)
        requires
            spec_clocks_welldefined(clock_mode, clocks),
            clocks.sysclk > 0,
        ensures
            s.owned() == adc,
            s.state() == (Controller {
                clock_mode,
                clocks,
                pair,
                operation_mode: None,
                task: Task::Init,
                phase: Phase::ClockStart,
                channel: 0,
            }),
    {
        Adc {
            adc,
            control: Controller {
                clock_mode,
                clocks,
                pair,
                operation_mode: None,
                task: Task::Init,
                phase: Phase::ClockStart,
                channel: 0,
            },
        }
    }

    /// No procedure is running.
    pub fn is_idle(&self) -> (idle: bool)
        ensures
            idle == (self.state().phase == Phase::Idle),
    {
        match self.control.phase {
            Phase::Idle => true,
            _ => false,
        }
    }

    /// The operation mode the converter was set up for, if any.
    pub fn operation_mode(&self) -> (mode: Option<OperationMode>)
        ensures
            mode == self.state().operation_mode,
    {
        self.control.operation_mode
    }

    /// The clock mode of the converter.
    pub fn clock_mode(&self) -> (mode: ClockMode)
        ensures
            mode == self.state().clock_mode,
    {
        self.control.clock_mode
    }

    /// sets up adc in one shot mode for a single channel
    ///
    /// Starts the set-up procedure, which ends with
    /// [`Outcome::Configured`](crate::control::Outcome::Configured).
    pub fn setup_oneshot(&mut self)
        requires
            old(self).state().phase == Phase::Idle,
        ensures
            final(self).owned() == old(self).owned(),
            final(self).state() == (Controller {
                task: Task::SetupOneShot,
                phase: Phase::OneShotStart,
                ..old(self).state()
            }),
    {
        proof {
            use_type_invariant(&*self);
        }
        self.control = Controller { task: Task::SetupOneShot, phase: Phase::OneShotStart, ..self.control };
    }

    /// busy ADC read
    ///
    /// Starts one conversion of `channel`, which must be one of the defined
    /// channels 1 to 18 of the device. The procedure sets the converter up
    /// for one-shot conversions if it is not, and ends with
    /// [`Outcome::Converted`](crate::control::Outcome::Converted).
    pub fn convert_one(&mut self, channel: u8)
        requires
            old(self).state().phase == Phase::Idle,
            1 <= channel <= 18,
        ensures
            final(self).owned() == old(self).owned(),
            final(self).state() == (Controller {
                task: Task::Convert,
                phase: Phase::ConvStart,
                channel,
                ..old(self).state()
            }),
    {
        proof {
            use_type_invariant(&*self);
        }
        self.control = Controller { task: Task::Convert, phase: Phase::ConvStart, channel, ..self.control };
    }

    /// Starts the procedure that disables the converter before it is
    /// released; it ends with [`Outcome::Released`](crate::control::Outcome::Released).
    pub fn disable(&mut self)
        requires
            old(self).state().phase == Phase::Idle,
        ensures
            final(self).owned() == old(self).owned(),
            final(self).state() == (Controller {
                task: Task::Release,
                phase: Phase::DisStart,
                ..old(self).state()
            }),
    {
        proof {
            use_type_invariant(&*self);
        }
        self.control = Controller { task: Task::Release, phase: Phase::DisStart, ..self.control };
    }

    /// Get access to the underlying register block, to carry out the bus
    /// operations that [`Adc::step`] hands out.
    ///
    /// Changing specific options through it can lead to un-expected behavior,
    /// and nothing is guaranteed of the procedures that run afterwards.
    pub fn registers(&self) -> (regs: &ADC)
        ensures
            *regs == self.owned(),
    {
        &self.adc
    }

    /// Releases the ADC peripheral and associated pins
    ///
    /// The converter must have been disabled first: [`Adc::disable`] was
    /// called and its procedure ran to its end.
    pub fn free(self) -> (adc: ADC)
        requires
            self.state().task == Task::Release,
            self.state().phase == Phase::Idle,
        ensures
            adc == self.owned(),
    {
        self.adc
    }

    /// One step of the running procedure: `input` is the value of the
    /// register that the previous operation read (any value after another
    /// operation). Returns the next bus operation to carry out.
    pub fn step(&mut self, input: u32) -> (op: BusOp)
        ensures
            final(self).owned() == old(self).owned(),
            (final(self).state(), op) == next(old(self).state(), input),
    {
        proof {
            use_type_invariant(&*self);
            lemma_next_preserves_wf(self.control, input);
        }
        let (control, op) = advance(self.control, input);
        self.control = control;
        op
    }
}

} // verus!
