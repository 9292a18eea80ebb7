//! Configuration values of the converter and their register encodings.

use vstd::prelude::*;

verus! {

/// ADC sampling time
///
/// Each channel can be sampled with a different sample time.
/// There is always an overhead of 13 ADC clock cycles.
/// E.g. For Sampletime T_19 the total conversion time (in ADC clock cycles) is
/// 13 + 19 = 32 ADC Clock Cycles
#[derive(Copy, Clone, PartialEq, Eq, Debug, Structural)]
pub enum SampleTime {
    /// 1.5 ADC clock cycles
    Cycles1C5,
    /// 2.5 ADC clock cycles
    Cycles2C5,
    /// 4.5 ADC clock cycles
    Cycles4C5,
    /// 7.5 ADC clock cycles
    Cycles7C5,
    /// 19.5 ADC clock cycles
    Cycles19C5,
    /// 61.5 ADC clock cycles
    Cycles61C5,
    /// 181.5 ADC clock cycles
    Cycles181C5,
    /// 601.5 ADC clock cycles
    Cycles601C5,
}

impl Default for SampleTime {
    /// [`SampleTime::Cycles1C5`] is also the reset value.
    fn default() -> (t: Self)
        ensures
            t == SampleTime::Cycles1C5,
    {
        SampleTime::Cycles1C5
    }
}

impl SampleTime {
    /// The code of this sampling time in an `SMPx` field of `SMPR1` or `SMPR2`.
    pub open spec fn spec_smp_bits(self) -> u8 {
        match self {
            SampleTime::Cycles1C5 => 0,
            SampleTime::Cycles2C5 => 1,
            SampleTime::Cycles4C5 => 2,
            SampleTime::Cycles7C5 => 3,
            SampleTime::Cycles19C5 => 4,
            SampleTime::Cycles61C5 => 5,
            SampleTime::Cycles181C5 => 6,
            SampleTime::Cycles601C5 => 7,
        }
    }

    /// The code written to the `SMPx` field of a channel (the same codes in
    /// `SMPR1` and `SMPR2`).
    #[verifier::when_used_as_spec(spec_smp_bits)]
    pub fn smp_bits(self) -> (bits: u8)
        ensures
            bits == self.spec_smp_bits(),
    {
        match self {
            SampleTime::Cycles1C5 => 0,
            SampleTime::Cycles2C5 => 1,
            SampleTime::Cycles4C5 => 2,
            SampleTime::Cycles7C5 => 3,
            SampleTime::Cycles19C5 => 4,
            SampleTime::Cycles61C5 => 5,
            SampleTime::Cycles181C5 => 6,
            SampleTime::Cycles601C5 => 7,
        }
    }
}

/// Every sampling time has its own code, and every code fits the three bits
/// of an `SMPx` field.
pub proof fn lemma_smp_bits_injective(a: SampleTime, b: SampleTime)
    ensures
        a.smp_bits() < 8,
        a.smp_bits() == b.smp_bits() <==> a == b,
{
}

/// ADC operation mode
#[derive(Copy, Clone, PartialEq, Eq, Debug, Structural)]
#[non_exhaustive]
pub enum OperationMode {
    /// OneShot Mode
    OneShot,
}

/// ADC Clock Mode
#[derive(Clone, Copy, PartialEq, Eq, Debug, Structural)]
#[non_exhaustive]
pub enum ClockMode {
    /// Use AHB clock rcc_hclk3. In this case rcc_hclk must equal sys_d1cpre_ck
    SyncDiv1,
    /// Use AHB clock rcc_hclk3 divided by 2
    SyncDiv2,
    /// Use AHB clock rcc_hclk3 divided by 4
    SyncDiv4,
}

impl Default for ClockMode {
    fn default() -> (m: Self)
        ensures
            m == ClockMode::SyncDiv2,
    {
        ClockMode::SyncDiv2
    }
}

impl ClockMode {
    /// The code of this mode in the `CKMODE` field of the common control register.
    pub open spec fn spec_ckmode_bits(self) -> u8 {
        match self {
            ClockMode::SyncDiv1 => 1,
            ClockMode::SyncDiv2 => 2,
            ClockMode::SyncDiv4 => 3,
        }
    }

    /// The value written to the `CKMODE` field for this mode.
    #[verifier::when_used_as_spec(spec_ckmode_bits)]
    pub fn ckmode_bits(self) -> (bits: u8)
        ensures
            bits == self.spec_ckmode_bits(),
    {
        match self {
            ClockMode::SyncDiv1 => 1,
            ClockMode::SyncDiv2 => 2,
            ClockMode::SyncDiv4 => 3,
        }
    }

    /// How many CPU cycles one ADC clock cycle lasts in this mode.
    pub open spec fn spec_cpu_cycles_per_adc_cycle(self) -> u32 {
        match self {
            ClockMode::SyncDiv1 => 1,
            ClockMode::SyncDiv2 => 2,
            ClockMode::SyncDiv4 => 4,
        }
    }

    /// How many CPU cycles one ADC clock cycle lasts in this mode.
    #[verifier::when_used_as_spec(spec_cpu_cycles_per_adc_cycle)]
    pub fn cpu_cycles_per_adc_cycle(self) -> (n: u32)
        ensures
            n == self.spec_cpu_cycles_per_adc_cycle(),
    {
        match self {
            ClockMode::SyncDiv1 => 1,
            ClockMode::SyncDiv2 => 2,
            ClockMode::SyncDiv4 => 4,
        }
    }
}

/// Every clock mode has its own `CKMODE` code, and none of them is the
/// asynchronous code 0.
pub proof fn lemma_ckmode_bits_injective(a: ClockMode, b: ClockMode)
    ensures
        1 <= a.ckmode_bits() <= 3,
        a.ckmode_bits() == b.ckmode_bits() <==> a == b,
{
}

/// ADC data register alignment
#[derive(Copy, Clone, PartialEq, Eq, Debug, Structural)]
pub enum Align {
    /// Right alignment of output data
    Right,
    /// Left alignment of output data
    Left,
}

impl Default for Align {
    fn default() -> (a: Self)
        ensures
            a == Align::Right,
    {
        Align::Right
    }
}

impl Align {
    /// The value of the `ALIGN` bit of `CFGR` for this alignment.
    pub open spec fn spec_align_bit(self) -> bool {
        match self {
            Align::Right => false,
            Align::Left => true,
        }
    }

    /// The value written to the `ALIGN` bit of `CFGR` for this alignment.
    #[verifier::when_used_as_spec(spec_align_bit)]
    pub fn align_bit(self) -> (bit: bool)
        ensures
            bit == self.spec_align_bit(),
    {
        match self {
            Align::Right => false,
            Align::Left => true,
        }
    }
}

/// The frequencies of the clocks that the converter depends on, in hertz.
#[derive(Copy, Clone, PartialEq, Eq, Debug, Structural)]
pub struct Clocks {
    /// AHB clock frequency
    pub hclk: u32,
    /// System clock frequency
    pub sysclk: u32,
}

/// Software can use ClockMode::SyncDiv1 only if
/// hclk and sysclk are the same. (see reference manual 15.3.3)
pub open spec fn spec_clocks_welldefined(clock_mode: ClockMode, clocks: Clocks) -> bool {
    clock_mode == ClockMode::SyncDiv1 ==> clocks.hclk == clocks.sysclk
}

/// Software can use ClockMode::SyncDiv1 only if
/// hclk and sysclk are the same. (see reference manual 15.3.3)
#[verifier::when_used_as_spec(spec_clocks_welldefined)]
pub fn clocks_welldefined(clock_mode: ClockMode, clocks: Clocks) -> (ok: bool)
    ensures
        ok == spec_clocks_welldefined(clock_mode, clocks),
        clock_mode != ClockMode::SyncDiv1 ==> ok,
        clock_mode == ClockMode::SyncDiv1 ==> (ok <==> clocks.hclk == clocks.sysclk),
{
    if clock_mode == ClockMode::SyncDiv1 {
        clocks.hclk == clocks.sysclk
    } else {
        true
    }
}

/// Only SyncDiv1 constrains the clocks: it needs hclk and sysclk equal, and
/// with SyncDiv2 or SyncDiv4 any clocks are well defined.
pub proof fn lemma_clocks_welldefined(clock_mode: ClockMode, clocks: Clocks)
    ensures
        clock_mode == ClockMode::SyncDiv2 ==> spec_clocks_welldefined(clock_mode, clocks),
        clock_mode == ClockMode::SyncDiv4 ==> spec_clocks_welldefined(clock_mode, clocks),
        clock_mode == ClockMode::SyncDiv1 ==> (spec_clocks_welldefined(clock_mode, clocks)
            <==> clocks.hclk == clocks.sysclk),
{
}

/// Maximal startup time of the ADC voltage regulator, in microseconds.
pub const MAX_ADVREGEN_STARTUP_US: u32 = 10;

/// The number of CPU cycles to wait for the voltage regulator to start up:
/// `MAX_ADVREGEN_STARTUP_US * 1_000_000 / sysclk`.
pub open spec fn spec_advregen_startup_cycles(clocks: Clocks) -> u32
    recommends
        clocks.sysclk > 0,
{
    (10_000_000u32 / clocks.sysclk)
}

/// The number of CPU cycles to wait for the voltage regulator to start up.
///
/// This is based on the MAX_ADVREGEN_STARTUP_US of the device.
#[verifier::when_used_as_spec(spec_advregen_startup_cycles)]
pub fn advregen_startup_cycles(clocks: Clocks) -> (cycles: u32)
    requires
        clocks.sysclk > 0,
    ensures
        cycles == spec_advregen_startup_cycles(clocks),
        cycles as int == (MAX_ADVREGEN_STARTUP_US as int * 1_000_000) / (clocks.sysclk as int),
{
    (MAX_ADVREGEN_STARTUP_US * 1_000_000) / clocks.sysclk
}

/// The number of CPU cycles that `cycles` ADC clock cycles last in `clock_mode`.
pub open spec fn spec_adc_clk_cycles(clock_mode: ClockMode, cycles: u32) -> int {
    clock_mode.cpu_cycles_per_adc_cycle() * cycles
}

/// The number of CPU cycles that `cycles` ADC clock cycles last in `clock_mode`.
pub fn adc_clk_cycles(clock_mode: ClockMode, cycles: u32) -> (n: u32)
    requires
        spec_adc_clk_cycles(clock_mode, cycles) <= u32::MAX,
    ensures
        n == spec_adc_clk_cycles(clock_mode, cycles),
{
    clock_mode.cpu_cycles_per_adc_cycle() * cycles
}

} // verus!
