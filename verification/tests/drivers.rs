use lpc55_gpio::gpio::{init, iocon_index, port_index, AnyPin, Bank, Flex, Input, Level, Output, Pin, Pull};
use lpc55_gpio::regs::{AhbClock, RegWrite};

/// Register contents, changed as the LPC55 user manual says each access does.
#[derive(Debug, Clone, PartialEq)]
struct Regs {
    dir: [u32; 2],
    out: [u32; 2],
    digital: [bool; 64],
    pull: [Option<Pull>; 64],
    clocks: Vec<AhbClock>,
}

impl Regs {
    fn new() -> Regs {
        Regs {
            dir: [0x0000_f0f0, 0x1234_5678],
            out: [0xdead_beef, 0x0f0f_0f0f],
            digital: [false; 64],
            pull: [None; 64],
            clocks: Vec::new(),
        }
    }

    fn apply(&mut self, op: RegWrite) {
        match op {
            RegWrite::OutSet { port, mask } => self.out[port] |= mask,
            RegWrite::OutClr { port, mask } => self.out[port] &= !mask,
            RegWrite::OutNot { port, mask } => self.out[port] ^= mask,
            RegWrite::DirSet { port, mask } => self.dir[port] |= mask,
            RegWrite::DirClr { port, mask } => self.dir[port] &= !mask,
            RegWrite::IoconDigital { pin } => self.digital[pin] = true,
            RegWrite::IoconPull { pin, pull } => self.pull[pin] = Some(pull),
            RegWrite::EnableClocks { gpio0, gpio1, mux, iocon } => {
                let flags = [
                    (gpio0, AhbClock::Gpio0),
                    (gpio1, AhbClock::Gpio1),
                    (mux, AhbClock::Mux),
                    (iocon, AhbClock::Iocon),
                ];
                for (on, clock) in flags {
                    if on && !self.clocks.contains(&clock) {
                        self.clocks.push(clock)
                    }
                }
            }
        }
    }

    fn apply_all(&mut self, ops: Vec<RegWrite>) {
        for op in ops {
            self.apply(op);
        }
    }
}

#[test]
fn flex_pin_bank_of_pio1_15() {
    let pin = Flex::new(AnyPin::steal(Bank::Bank1, 15));
    assert_eq!(pin.pin_bank(), Bank::Bank1);
}

#[test]
fn flex_pin_number_of_pio1_15() {
    let pin = Flex::new(AnyPin::steal(Bank::Bank1, 15));
    assert_eq!(pin.pin_number(), 15 as u8);
}

#[test]
fn flex_bit_of_pio1_3() {
    let pin = Flex::new(AnyPin::steal(Bank::Bank1, 3));
    assert_eq!(pin.bit(), 0b0000_1000);
}

#[test]
fn flex_bit_of_first_and_last_pin() {
    assert_eq!(Flex::new(AnyPin::steal(Bank::Bank0, 0)).bit(), 1);
    assert_eq!(Flex::new(AnyPin::steal(Bank::Bank0, 31)).bit(), 0x8000_0000);
}

#[test]
fn pin_trait_defaults() {
    let pin = AnyPin::steal(Bank::Bank0, 7);
    assert_eq!(pin.pin(), 7);
    assert_eq!(pin.bank(), Bank::Bank0);
}

#[test]
fn port_indexes() {
    assert_eq!(port_index(Bank::Bank0), 0);
    assert_eq!(port_index(Bank::Bank1), 1);
}

#[test]
fn iocon_register_of_pio1_6() {
    assert_eq!(iocon_index(Bank::Bank1, 6), 38);
    assert_eq!(iocon_index(Bank::Bank0, 0), 0);
    assert_eq!(iocon_index(Bank::Bank0, 31), 31);
    assert_eq!(iocon_index(Bank::Bank1, 31), 63);
}

#[test]
fn set_as_output_accesses() {
    let pin = Flex::new(AnyPin::steal(Bank::Bank0, 5));
    assert_eq!(
        pin.set_as_output(),
        vec![RegWrite::IoconDigital { pin: 5 }, RegWrite::DirSet { port: 0, mask: 1 << 5 }]
    );
}

#[test]
fn set_as_input_accesses() {
    let pin = Flex::new(AnyPin::steal(Bank::Bank1, 2));
    assert_eq!(
        pin.set_as_input(),
        vec![RegWrite::IoconDigital { pin: 34 }, RegWrite::DirClr { port: 1, mask: 1 << 2 }]
    );
}

#[test]
fn output_new_high_accesses() {
    let (out, ops) = Output::new(AnyPin::steal(Bank::Bank0, 5), Level::High);
    assert_eq!(
        ops,
        vec![
            RegWrite::IoconDigital { pin: 5 },
            RegWrite::DirSet { port: 0, mask: 32 },
            RegWrite::OutSet { port: 0, mask: 32 },
        ]
    );
    assert_eq!(out.pin_bank(), Bank::Bank0);
}

#[test]
fn output_new_low_accesses() {
    let (_, ops) = Output::new(AnyPin::steal(Bank::Bank1, 31), Level::Low);
    assert_eq!(
        ops,
        vec![
            RegWrite::IoconDigital { pin: 63 },
            RegWrite::DirSet { port: 1, mask: 0x8000_0000 },
            RegWrite::OutClr { port: 1, mask: 0x8000_0000 },
        ]
    );
}

#[test]
fn output_writes() {
    let (out, _) = Output::new(AnyPin::steal(Bank::Bank1, 4), Level::Low);
    assert_eq!(out.set_high(), RegWrite::OutSet { port: 1, mask: 16 });
    assert_eq!(out.set_low(), RegWrite::OutClr { port: 1, mask: 16 });
    assert_eq!(out.toggle(), RegWrite::OutNot { port: 1, mask: 16 });
}

#[test]
fn output_level_reads_its_bit() {
    let (out, _) = Output::new(AnyPin::steal(Bank::Bank0, 3), Level::Low);
    assert_eq!(out.level(0b1000), Level::High);
    assert_eq!(out.level(0xffff_fff7), Level::Low);
    assert_eq!(out.level(0), Level::Low);
}

#[test]
fn input_new_accesses() {
    let (inp, ops) = Input::new(AnyPin::steal(Bank::Bank1, 31), Pull::Up);
    assert_eq!(
        ops,
        vec![
            RegWrite::IoconDigital { pin: 63 },
            RegWrite::DirClr { port: 1, mask: 0x8000_0000 },
            RegWrite::IoconPull { pin: 63, pull: Pull::Up },
        ]
    );
    assert_eq!(inp.pin_bank(), Bank::Bank1);
}

#[test]
fn input_set_pull_and_read() {
    let (inp, _) = Input::new(AnyPin::steal(Bank::Bank0, 0), Pull::Disabled);
    assert_eq!(inp.set_pull(Pull::Down), RegWrite::IoconPull { pin: 0, pull: Pull::Down });
    assert_eq!(inp.read(1), Level::High);
    assert_eq!(inp.read(0xffff_fffe), Level::Low);
}

#[test]
fn init_access() {
    assert_eq!(init(), RegWrite::EnableClocks { gpio0: true, gpio1: true, mux: true, iocon: true });
}

#[test]
fn steal_keeps_bank_and_number() {
    let pin = AnyPin::steal(Bank::Bank1, 31);
    assert_eq!(pin.pin_bank(), Bank::Bank1);
    assert_eq!(pin.pin_number(), 31);
    let flex = Flex::new(AnyPin::steal(Bank::Bank0, 0));
    assert_eq!(flex.pin_bank(), Bank::Bank0);
    assert_eq!(flex.pin_number(), 0);
}

#[test]
fn last_pull_wins() {
    let mut regs = Regs::new();
    let (inp, _) = Input::new(AnyPin::steal(Bank::Bank0, 9), Pull::Up);
    regs.apply(inp.set_pull(Pull::Up));
    regs.apply(inp.set_pull(Pull::Down));
    let mut once = Regs::new();
    once.apply(inp.set_pull(Pull::Down));
    assert_eq!(regs, once);
}

#[test]
fn output_new_configures_only_its_pin() {
    let mut regs = Regs::new();
    let before = regs.clone();
    let (_, ops) = Output::new(AnyPin::steal(Bank::Bank0, 4), Level::High);
    regs.apply_all(ops);
    assert_eq!(regs.dir, [0x0000_f0f0 | 0x10, 0x1234_5678]);
    assert_eq!(regs.out, [0xdead_beef | 0x10, 0x0f0f_0f0f]);
    assert!(regs.digital[4]);
    assert_eq!(regs.digital.iter().filter(|d| **d).count(), 1);
    assert_eq!(regs.pull, before.pull);
}

#[test]
fn output_new_low_clears_its_bit() {
    let mut regs = Regs::new();
    let (_, ops) = Output::new(AnyPin::steal(Bank::Bank1, 0), Level::Low);
    regs.apply_all(ops);
    assert_eq!(regs.out, [0xdead_beef, 0x0f0f_0f0e]);
    assert_eq!(regs.dir, [0x0000_f0f0, 0x1234_5679]);
}

#[test]
fn input_new_configures_only_its_pin() {
    let mut regs = Regs::new();
    let (_, ops) = Input::new(AnyPin::steal(Bank::Bank0, 5), Pull::Down);
    regs.apply_all(ops);
    assert_eq!(regs.dir, [0x0000_f0d0, 0x1234_5678]);
    assert_eq!(regs.out, [0xdead_beef, 0x0f0f_0f0f]);
    assert!(regs.digital[5]);
    assert_eq!(regs.pull[5], Some(Pull::Down));
    assert_eq!(regs.pull.iter().filter(|p| p.is_some()).count(), 1);
}

#[test]
fn toggle_twice_restores() {
    let mut regs = Regs::new();
    let (out, _) = Output::new(AnyPin::steal(Bank::Bank1, 9), Level::High);
    let before = regs.clone();
    regs.apply(out.toggle());
    assert_eq!(regs.out, [0xdead_beef, 0x0f0f_0f0f ^ 0x200]);
    regs.apply(out.toggle());
    assert_eq!(regs, before);
}

#[test]
fn last_level_wins() {
    let mut regs = Regs::new();
    let (out, _) = Output::new(AnyPin::steal(Bank::Bank0, 1), Level::High);
    regs.apply(out.set_high());
    regs.apply(out.set_low());
    let mut once = Regs::new();
    once.apply(out.set_low());
    assert_eq!(regs, once);
}

#[test]
fn set_pull_changes_only_its_pin() {
    let mut regs = Regs::new();
    let (inp, _) = Input::new(AnyPin::steal(Bank::Bank1, 6), Pull::Up);
    regs.apply(inp.set_pull(Pull::Disabled));
    assert_eq!(regs.pull[38], Some(Pull::Disabled));
    assert_eq!(regs.pull.iter().filter(|p| p.is_some()).count(), 1);
    assert!(!regs.digital[38]);
}

#[test]
fn init_enables_the_four_clocks() {
    let mut regs = Regs::new();
    regs.apply(init());
    assert_eq!(regs.clocks, vec![AhbClock::Gpio0, AhbClock::Gpio1, AhbClock::Mux, AhbClock::Iocon]);
    assert_eq!(regs.out, Regs::new().out);
}
