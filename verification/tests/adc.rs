use stm32f3_adc::config::{
    adc_clk_cycles, advregen_startup_cycles, clocks_welldefined, Align, ClockMode, Clocks,
    OperationMode, SampleTime,
};
use stm32f3_adc::control::{
    align_op, calibration_start, channel_select_op, one_shot_cfgr, sample_time_op, sequence_len,
    BusOp, Outcome,
};
use stm32f3_adc::regs::{AdcPair, BitField, Field, Register, Update};
use stm32f3_adc::Adc;

/// The peripheral handed to the converter in these tests.
#[derive(Debug, PartialEq)]
struct Periph(u32);

const REGISTERS: [Register; 9] = [
    Register::Cr,
    Register::Isr,
    Register::Cfgr,
    Register::Smpr1,
    Register::Smpr2,
    Register::Sqr1,
    Register::Dr,
    Register::CommonCcr,
    Register::AhbEnr,
];

fn index(r: Register) -> usize {
    REGISTERS.iter().position(|x| *x == r).unwrap()
}

/// A converter that reacts at once: a calibration, a stop or a disable
/// completes as soon as it is requested (a disable clears ADDIS and ADEN), ADEN makes the converter ready, and
/// a start of conversion ends the sequence with a result in DR.
struct Device {
    regs: [u32; 9],
    writes: Vec<(Register, u32)>,
    reads: Vec<Register>,
    delays: Vec<u32>,
    /// How many more reads of CR still show a calibration running.
    calibration_reads: u32,
    /// The upper bits that the device leaves in DR beside the result.
    dr_noise: u32,
}

impl Device {
    fn reset() -> Device {
        let mut regs = [0u32; 9];
        // ADVREGEN resets to "disabled"
        regs[index(Register::Cr)] = 0x2000_0000;
        Device { regs, writes: Vec::new(), reads: Vec::new(), delays: Vec::new(), calibration_reads: 0, dr_noise: 0 }
    }

    fn get(&self, r: Register) -> u32 {
        self.regs[index(r)]
    }

    fn read(&mut self, r: Register) -> u32 {
        self.reads.push(r);
        let v = self.get(r);
        if r == Register::Cr && self.calibration_reads > 0 {
            self.calibration_reads -= 1;
            if self.calibration_reads == 0 {
                self.regs[index(Register::Cr)] &= !(1 << 31);
            }
        }
        v
    }

    fn write(&mut self, r: Register, v: u32) {
        self.writes.push((r, v));
        if r == Register::Isr {
            // write 1 to clear
            self.regs[index(r)] &= !v;
            return;
        }
        self.regs[index(r)] = v;
        if r == Register::Cr {
            let mut cr = v;
            if cr & (1 << 31) != 0 && self.calibration_reads == 0 {
                cr &= !(1 << 31);
            }
            if cr & (1 << 4) != 0 {
                cr &= !((1 << 4) | (1 << 2));
            }
            if cr & (1 << 5) != 0 {
                cr &= !((1 << 5) | (1 << 3));
            }
            if cr & (1 << 1) != 0 {
                cr &= !((1 << 1) | 1);
            }
            if cr & 1 != 0 {
                self.regs[index(Register::Isr)] |= 1;
            }
            if cr & (1 << 2) != 0 {
                let channel = (self.get(Register::Sqr1) >> 6) & 0x1f;
                self.regs[index(Register::Dr)] = self.dr_noise | (0x100 + channel);
                self.regs[index(Register::Isr)] |= 1 << 3;
                cr &= !(1 << 2);
            }
            self.regs[index(Register::Cr)] = cr;
        }
    }
}

fn run(adc: &mut Adc<Periph>, dev: &mut Device) -> Outcome {
    let mut input = 0u32;
    for _ in 0..10_000 {
        match adc.step(input) {
            BusOp::Read(r) => input = dev.read(r),
            BusOp::Modify(r, u) => {
                let v = dev.read(r);
                dev.write(r, u.apply(v));
                input = 0;
            }
            BusOp::Delay(n) => {
                dev.delays.push(n);
                input = 0;
            }
            BusOp::Finished(outcome) => return outcome,
        }
    }
    panic!("the procedure did not end");
}

fn clocks() -> Clocks {
    Clocks { hclk: 8_000_000, sysclk: 8_000_000 }
}

fn ready_adc(dev: &mut Device) -> Adc<Periph> {
    let mut adc = Adc::new(Periph(1), AdcPair::Adc12, ClockMode::default(), clocks());
    assert_eq!(run(&mut adc, dev), Outcome::Ready);
    adc
}

#[test]
fn defaults_are_the_reset_values() {
    assert_eq!(SampleTime::default(), SampleTime::Cycles1C5);
    assert_eq!(ClockMode::default(), ClockMode::SyncDiv2);
    assert_eq!(Align::default(), Align::Right);
}

#[test]
fn sample_time_codes() {
    let all = [
        SampleTime::Cycles1C5,
        SampleTime::Cycles2C5,
        SampleTime::Cycles4C5,
        SampleTime::Cycles7C5,
        SampleTime::Cycles19C5,
        SampleTime::Cycles61C5,
        SampleTime::Cycles181C5,
        SampleTime::Cycles601C5,
    ];
    for (i, t) in all.iter().enumerate() {
        assert_eq!(t.smp_bits() as usize, i);
    }
}

#[test]
fn clock_mode_and_align_codes() {
    assert_eq!(ClockMode::SyncDiv1.ckmode_bits(), 1);
    assert_eq!(ClockMode::SyncDiv2.ckmode_bits(), 2);
    assert_eq!(ClockMode::SyncDiv4.ckmode_bits(), 3);
    assert!(!Align::Right.align_bit());
    assert!(Align::Left.align_bit());
}

#[test]
fn sync_div1_needs_equal_clocks() {
    let same = Clocks { hclk: 72_000_000, sysclk: 72_000_000 };
    let different = Clocks { hclk: 36_000_000, sysclk: 72_000_000 };
    assert!(clocks_welldefined(ClockMode::SyncDiv1, same));
    assert!(!clocks_welldefined(ClockMode::SyncDiv1, different));
    assert!(clocks_welldefined(ClockMode::SyncDiv2, different));
    assert!(clocks_welldefined(ClockMode::SyncDiv4, different));
}

#[test]
fn wait_lengths() {
    assert_eq!(advregen_startup_cycles(Clocks { hclk: 8_000_000, sysclk: 8_000_000 }), 1);
    assert_eq!(advregen_startup_cycles(Clocks { hclk: 1_000_000, sysclk: 1_000_000 }), 10);
    assert_eq!(advregen_startup_cycles(Clocks { hclk: 72_000_000, sysclk: 72_000_000 }), 0);
    assert_eq!(adc_clk_cycles(ClockMode::SyncDiv1, 4), 4);
    assert_eq!(adc_clk_cycles(ClockMode::SyncDiv2, 4), 8);
    assert_eq!(adc_clk_cycles(ClockMode::SyncDiv4, 4), 16);
}

#[test]
fn field_layout() {
    assert_eq!(Field::Smp(1).bits(), BitField { offset: 3, width: 3 });
    assert_eq!(Field::Smp(9).bits(), BitField { offset: 27, width: 3 });
    assert_eq!(Field::Smp(10).bits(), BitField { offset: 0, width: 3 });
    assert_eq!(Field::Smp(18).bits(), BitField { offset: 24, width: 3 });
    assert_eq!(Field::Smp(9).register(), Register::Smpr1);
    assert_eq!(Field::Smp(10).register(), Register::Smpr2);
    assert_eq!(Field::Ckmode.bits(), BitField { offset: 16, width: 2 });
    assert_eq!(Field::ClockEnable(AdcPair::Adc12).bits().offset, 28);
    assert_eq!(Field::ClockEnable(AdcPair::Adc34).bits().offset, 29);
}

#[test]
fn field_write_reads_back_and_keeps_the_rest() {
    let v = 0xdead_beefu32;
    let u = Field::Sq1.write(17);
    let w = u.apply(v);
    assert_eq!(Field::Sq1.get(w), 17);
    assert_eq!(w & !(0x1f << 6), v & !(0x1f << 6));
    // a value wider than the field is cut to its width
    assert_eq!(Field::SeqLen.get(Field::SeqLen.write(0x13).apply(v)), 0x3);
    assert_eq!(u.apply(w), w);
}

#[test]
fn update_and_then_is_one_after_the_other() {
    let a = Update { clear: 0x0ff0, set: 0x0120 };
    let b = Update { clear: 0x00ff, set: 0x0003 };
    for v in [0u32, 0xffff_ffff, 0x1234_5678, 0x8000_0001] {
        assert_eq!(a.and_then(b).apply(v), b.apply(a.apply(v)));
    }
}

#[test]
fn register_updates_of_the_procedures() {
    let cfgr = one_shot_cfgr().apply(0xffff_ffff);
    assert_eq!(cfgr, 0xffff_ffff & !(0x3000));
    let cr = calibration_start().apply(0x4000_0001);
    assert_eq!(cr, 0x8000_0001);
    assert_eq!(Field::SeqLen.get(sequence_len(1).apply(0xffff)), 0);
    assert_eq!(Field::SeqLen.get(sequence_len(16).apply(0)), 15);
    assert_eq!(align_op(Align::Left), BusOp::Modify(Register::Cfgr, Update { clear: 0x20, set: 0x20 }));
    assert_eq!(align_op(Align::Right), BusOp::Modify(Register::Cfgr, Update { clear: 0x20, set: 0 }));
    assert_eq!(
        sample_time_op(12, SampleTime::Cycles601C5),
        BusOp::Modify(Register::Smpr2, Update { clear: 0x7 << 6, set: 0x7 << 6 })
    );
    assert_eq!(
        channel_select_op(5),
        BusOp::Modify(Register::Sqr1, Update { clear: 0x1f << 6, set: 5 << 6 })
    );
}

#[test]
fn start_up_from_reset() {
    let mut dev = Device::reset();
    let adc = ready_adc(&mut dev);
    assert!(adc.is_idle());
    assert_eq!(adc.operation_mode(), None);
    // the clock of ADC1/ADC2 is enabled with the clock mode
    assert_eq!(dev.get(Register::AhbEnr), 1 << 28);
    assert_eq!(dev.get(Register::CommonCcr), 2 << 16);
    // regulator enabled, calibration done, converter enabled and ready
    let cr = dev.get(Register::Cr);
    assert_eq!(Field::Advregen.get(cr), 1);
    assert_eq!(Field::Adcal.get(cr), 0);
    assert_eq!(Field::Aden.get(cr), 1);
    assert_eq!(Field::Adrdy.get(dev.get(Register::Isr)), 1);
    // regulator start-up wait, then 4 ADC clock cycles at SyncDiv2
    assert_eq!(dev.delays, vec![1, 8]);
    // the regulator went through its intermediate state
    let advregen_writes: Vec<u32> = dev
        .writes
        .iter()
        .filter(|(r, _)| *r == Register::Cr)
        .map(|(_, v)| Field::Advregen.get(*v))
        .collect();
    assert_eq!(&advregen_writes[..2], &[0, 1]);
}

#[test]
fn start_up_with_the_clock_already_enabled_the_same_way() {
    let mut dev = Device::reset();
    dev.regs[index(Register::AhbEnr)] = 1 << 28;
    dev.regs[index(Register::CommonCcr)] = 2 << 16;
    let _adc = ready_adc(&mut dev);
    assert!(dev.writes.iter().all(|(r, _)| *r != Register::AhbEnr && *r != Register::CommonCcr));
}

#[test]
fn start_up_with_the_clock_enabled_in_another_mode() {
    let mut dev = Device::reset();
    dev.regs[index(Register::AhbEnr)] = 1 << 28;
    dev.regs[index(Register::CommonCcr)] = 3 << 16;
    let mut adc = Adc::new(Periph(1), AdcPair::Adc12, ClockMode::SyncDiv2, clocks());
    assert_eq!(run(&mut adc, &mut dev), Outcome::ClockConflict);
    assert!(dev.writes.is_empty());
    assert!(adc.is_idle());
}

#[test]
fn start_up_of_adc3_uses_its_own_clock_enable() {
    let mut dev = Device::reset();
    dev.regs[index(Register::AhbEnr)] = 1 << 28;
    let mut adc = Adc::new(Periph(3), AdcPair::Adc34, ClockMode::SyncDiv4, clocks());
    assert_eq!(run(&mut adc, &mut dev), Outcome::Ready);
    assert_eq!(dev.get(Register::AhbEnr), (1 << 28) | (1 << 29));
    assert_eq!(dev.get(Register::CommonCcr), 3 << 16);
    assert_eq!(dev.delays, vec![1, 16]);
}

#[test]
fn start_up_with_the_regulator_on_skips_its_start() {
    let mut dev = Device::reset();
    dev.regs[index(Register::Cr)] = 0x1000_0000;
    let _adc = ready_adc(&mut dev);
    assert_eq!(dev.delays, vec![8]);
}

#[test]
fn calibration_wait_polls_cr() {
    let mut dev = Device::reset();
    dev.calibration_reads = 5;
    let mut adc = Adc::new(Periph(1), AdcPair::Adc12, ClockMode::SyncDiv2, clocks());
    // hold ADCAL set for a few reads
    let mut input = 0u32;
    let mut polls = 0;
    let mut calibrating = false;
    loop {
        let op = adc.step(input);
        match op {
            BusOp::Read(r) => {
                if calibrating && r == Register::Cr && Field::Adcal.get(dev.get(Register::Cr)) == 1 {
                    polls += 1;
                }
                input = dev.read(r);
            }
            BusOp::Modify(r, u) => {
                let v = dev.read(r);
                let w = u.apply(v);
                if r == Register::Cr && Field::Adcal.get(w) == 1 {
                    calibrating = true;
                    dev.calibration_reads = 4;
                    dev.writes.push((r, w));
                    dev.regs[index(r)] = w;
                } else {
                    dev.write(r, w);
                }
                input = 0;
            }
            BusOp::Delay(n) => {
                dev.delays.push(n);
                input = 0;
            }
            BusOp::Finished(o) => {
                assert_eq!(o, Outcome::Ready);
                break;
            }
        }
    }
    assert!(polls >= 3);
    assert_eq!(Field::Aden.get(dev.get(Register::Cr)), 1);
}

#[test]
fn one_conversion() {
    let mut dev = Device::reset();
    let mut adc = ready_adc(&mut dev);
    dev.dr_noise = 0xabcd_0000;
    adc.convert_one(3);
    assert_eq!(run(&mut adc, &mut dev), Outcome::Converted(0x103));
    assert_eq!(adc.operation_mode(), Some(OperationMode::OneShot));
    assert_eq!(Field::Smp(3).get(dev.get(Register::Smpr1)), 0);
    assert_eq!(Field::Sq1.get(dev.get(Register::Sqr1)), 3);
    assert_eq!(Field::SeqLen.get(dev.get(Register::Sqr1)), 0);
    assert_eq!(Field::Cont.get(dev.get(Register::Cfgr)), 0);
    assert_eq!(Field::Eos.get(dev.get(Register::Isr)), 0);
}

#[test]
fn conversion_of_a_channel_of_smpr2() {
    let mut dev = Device::reset();
    let mut adc = ready_adc(&mut dev);
    dev.regs[index(Register::Smpr2)] = 0xffff_ffff;
    adc.convert_one(12);
    assert_eq!(run(&mut adc, &mut dev), Outcome::Converted(0x10c));
    assert_eq!(dev.get(Register::Smpr2), 0xffff_ffff & !(0x7 << 6));
}

#[test]
fn second_conversion_skips_the_set_up() {
    let mut dev = Device::reset();
    let mut adc = ready_adc(&mut dev);
    adc.convert_one(1);
    assert_eq!(run(&mut adc, &mut dev), Outcome::Converted(0x101));
    let before = dev.writes.len();
    adc.convert_one(2);
    assert_eq!(run(&mut adc, &mut dev), Outcome::Converted(0x102));
    // sampling time, channel, start, end-of-sequence clear
    assert_eq!(dev.writes.len() - before, 4);
}

#[test]
fn setup_oneshot_configures() {
    let mut dev = Device::reset();
    let mut adc = ready_adc(&mut dev);
    dev.regs[index(Register::Cfgr)] = 0x3000;
    dev.regs[index(Register::Sqr1)] = 0xf;
    dev.regs[index(Register::Isr)] |= 1 << 4;
    adc.setup_oneshot();
    assert_eq!(run(&mut adc, &mut dev), Outcome::Configured);
    assert_eq!(adc.operation_mode(), Some(OperationMode::OneShot));
    assert_eq!(dev.get(Register::Cfgr), 0);
    assert_eq!(dev.get(Register::Sqr1), 0);
    assert_eq!(Field::Ovr.get(dev.get(Register::Isr)), 0);
}

#[test]
fn release_gives_back_the_peripheral() {
    let mut dev = Device::reset();
    let mut adc = ready_adc(&mut dev);
    adc.disable();
    assert_eq!(run(&mut adc, &mut dev), Outcome::Released);
    // the disable is requested with ADDIS = 1, and the converter is disabled
    let last_cr = dev.writes.iter().rev().find(|(r, _)| *r == Register::Cr).unwrap().1;
    assert_eq!(Field::Addis.get(last_cr), 1);
    assert_eq!(Field::Aden.get(dev.get(Register::Cr)), 0);
    assert_eq!(Field::Addis.get(dev.get(Register::Cr)), 0);
    assert_eq!(*adc.registers(), Periph(1));
    assert_eq!(adc.free(), Periph(1));
}

#[test]
fn disable_stops_a_running_conversion() {
    let mut dev = Device::reset();
    let mut adc = ready_adc(&mut dev);
    // a regular conversion is running
    dev.regs[index(Register::Cr)] |= 1 << 2;
    let before = dev.writes.len();
    adc.disable();
    assert_eq!(run(&mut adc, &mut dev), Outcome::Released);
    let cr_writes: Vec<u32> = dev.writes[before..]
        .iter()
        .filter(|(r, _)| *r == Register::Cr)
        .map(|(_, v)| *v)
        .collect();
    // ADSTP, then JADSTP (JAUTO is off)
    assert_eq!(Field::Adstp.get(cr_writes[0]), 1);
    assert_eq!(Field::Jadstp.get(cr_writes[1]), 1);
    // then the disable request
    assert_eq!(Field::Addis.get(cr_writes[2]), 1);
    assert_eq!(Field::Aden.get(dev.get(Register::Cr)), 0);
}

#[test]
fn idle_step_does_nothing() {
    let mut dev = Device::reset();
    let mut adc = ready_adc(&mut dev);
    assert_eq!(adc.step(0), BusOp::Finished(Outcome::Idle));
    assert!(adc.is_idle());
}

#[test]
fn start_up_with_the_converter_enabled() {
    let mut dev = Device::reset();
    // regulator on, converter enabled
    dev.regs[index(Register::Cr)] = 0x1000_0001;
    let _adc = ready_adc(&mut dev);
    // the calibration is preceded by a disable request, and the converter is
    // enabled again afterwards
    let cr_writes: Vec<u32> =
        dev.writes.iter().filter(|(r, _)| *r == Register::Cr).map(|(_, v)| *v).collect();
    assert_eq!(Field::Addis.get(cr_writes[0]), 1);
    assert_eq!(Field::Adcal.get(cr_writes[1]), 1);
    assert_eq!(Field::Aden.get(dev.get(Register::Cr)), 1);
}

#[test]
fn enable_finds_the_converter_enabled() {
    let mut dev = Device::reset();
    let mut adc = Adc::new(Periph(1), AdcPair::Adc12, ClockMode::SyncDiv2, clocks());
    // run until the calibration was started, then let ADEN appear set
    let mut input = 0u32;
    loop {
        match adc.step(input) {
            BusOp::Read(r) => input = dev.read(r),
            BusOp::Modify(r, u) => {
                let v = dev.read(r);
                dev.write(r, u.apply(v));
                input = 0;
            }
            BusOp::Delay(_) => {
                // the wait after the calibration
                if dev.delays.len() == 1 {
                    dev.regs[index(Register::Cr)] |= 1;
                }
                dev.delays.push(0);
                input = 0;
            }
            BusOp::Finished(o) => {
                assert_eq!(o, Outcome::Ready);
                break;
            }
        }
    }
    // no wait for ADRDY: the enable found ADEN set
    assert!(dev.reads.iter().all(|r| *r != Register::Isr));
}

#[test]
fn only_start_up_touches_shared_registers() {
    let mut dev = Device::reset();
    let mut adc = ready_adc(&mut dev);
    let (reads, writes) = (dev.reads.len(), dev.writes.len());
    adc.setup_oneshot();
    assert_eq!(run(&mut adc, &mut dev), Outcome::Configured);
    adc.convert_one(7);
    assert_eq!(run(&mut adc, &mut dev), Outcome::Converted(0x107));
    adc.disable();
    assert_eq!(run(&mut adc, &mut dev), Outcome::Released);
    let shared = |r: &Register| *r == Register::AhbEnr || *r == Register::CommonCcr;
    assert!(!dev.reads[reads..].iter().any(shared));
    assert!(!dev.writes[writes..].iter().map(|(r, _)| r).any(shared));
}

#[test]
fn configuration_stays_through_procedures() {
    let mut dev = Device::reset();
    let mut adc = ready_adc(&mut dev);
    assert_eq!(adc.clock_mode(), ClockMode::SyncDiv2);
    adc.convert_one(4);
    assert_eq!(run(&mut adc, &mut dev), Outcome::Converted(0x104));
    adc.disable();
    assert_eq!(run(&mut adc, &mut dev), Outcome::Released);
    assert_eq!(adc.clock_mode(), ClockMode::SyncDiv2);
    assert_eq!(adc.operation_mode(), Some(OperationMode::OneShot));
}
