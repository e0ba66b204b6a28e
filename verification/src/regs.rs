//! The register accesses that the drivers issue, and what each of them does.
//!
//! A driver never touches the memory-mapped registers itself: it returns the
//! accesses as `RegWrite` values, in the order in which they are to be made.
//! `GpioModel` is an abstract view of the state that these accesses change,
//! and `RegWrite::apply` says how each access changes it, following the LPC55
//! user manual: a one written to `SET`, `CLR` or `NOT` sets, clears or toggles
//! the output bit of that pin, a one written to `DIRSET` or `DIRCLR` makes the
//! pin an output or an input, and a zero bit leaves the pin as it was.
use vstd::prelude::*;

use crate::gpio::{Bank, Level, PinId, Pull};

verus! {

/// A clock gate of the `AHBCLKCTRL0` register that the GPIO drivers need.
#[derive(Debug, Clone, Copy, PartialEq, Eq, Structural)]
pub enum AhbClock {
    /// Clock of GPIO bank 0.
    Gpio0,
    /// Clock of GPIO bank 1.
    Gpio1,
    /// Clock of the input multiplexer.
    Mux,
    /// Clock of the I/O pin configuration block.
    Iocon,
}

/// One access to the GPIO, IOCON or SYSCON registers.
///
/// `port` selects the register of GPIO bank `port`; `pin` is the number of
/// the IOCON pin register, `32 * bank + number`.
#[derive(Debug, Clone, Copy, PartialEq, Eq, Structural)]
pub enum RegWrite {
    /// Write `mask` to `SET[port]`: drive the masked pins high.
    OutSet { port: usize, mask: u32 },
    /// Write `mask` to `CLR[port]`: drive the masked pins low.
    OutClr { port: usize, mask: u32 },
    /// Write `mask` to `NOT[port]`: invert the output of the masked pins.
    OutNot { port: usize, mask: u32 },
    /// Write `mask` to `DIRSET[port]`: make the masked pins outputs.
    DirSet { port: usize, mask: u32 },
    /// Write `mask` to `DIRCLR[port]`: make the masked pins inputs.
    DirClr { port: usize, mask: u32 },
    /// Set the `DIGIMODE` field of IOCON register `pin` to digital.
    IoconDigital { pin: usize },
    /// Set the `MODE` field of IOCON register `pin` to the given pull.
    IoconPull { pin: usize, pull: Pull },
    /// One read-modify-write of `AHBCLKCTRL0` that enables each clock gate
    /// whose flag is set and leaves every other bit as it was.
    EnableClocks { gpio0: bool, gpio1: bool, mux: bool, iocon: bool },
}

/// What the model keeps of one IOCON pin register.
pub struct IoconPin {
    /// The `DIGIMODE` field selects digital mode.
    pub digital: bool,
    /// The pull that the `MODE` field selects; `None` for the repeater mode.
    pub pull: Option<Pull>,
    /// Every other bit of the register (`FUNC`, `SLEW`, `INVERT`, `OD` and
    /// the reserved bits), as a word with the `MODE` and `DIGIMODE` bits clear.
    pub other: u32,
}

/// Abstract state of the registers that the GPIO drivers change.
pub struct GpioModel {
    /// Direction word of each bank (`DIR[port]`): a one bit is an output.
    pub dir: Seq<u32>,
    /// Output word of each bank (`SET[port]` as read): a one bit drives high.
    pub out: Seq<u32>,
    /// The IOCON register of each pin, indexed by `32 * bank + number`.
    pub iocon: Seq<IoconPin>,
    /// The clock gates of `AHBCLKCTRL0` that the drivers use and that are enabled.
    pub clocks: Set<AhbClock>,
    /// Every other bit of `AHBCLKCTRL0`, as a word with the bits of those
    /// gates clear.
    pub clock_others: u32,
}

/// What the model says of one pin.
pub struct PinState {
    /// The pin is an output.
    pub output: bool,
    /// The output latch of the pin drives high.
    pub high: bool,
    /// The pin's IOCON register.
    pub iocon: IoconPin,
}

/// Bit `n` of the word `w`.
pub open spec fn word_bit(w: u32, n: u8) -> bool {
    (w >> (n as u32)) & 1u32 == 1u32
}

/// The one-bit mask of pin number `n`: bit 0 for `PIOx_0`, bit 1 for `PIOx_1`, ...
pub open spec fn mask_of(n: u8) -> u32 {
    1u32 << (n as u32)
}

/// The GPIO register index of a bank.
pub open spec fn port_of(b: Bank) -> usize {
    match b {
        Bank::Bank0 => 0,
        Bank::Bank1 => 1,
    }
}

/// The IOCON register of a pin: `PIO0_0` .. `PIO0_31`, then `PIO1_0` .. `PIO1_31`.
pub open spec fn iocon_of(id: PinId) -> usize {
    (port_of(id.bank) * 32 + id.number) as usize
}

impl GpioModel {
    /// Two banks and 64 pin registers.
    pub open spec fn wf(self) -> bool {
        &&& self.dir.len() == 2
        &&& self.out.len() == 2
        &&& self.iocon.len() == 64
    }
}

impl RegWrite {
    /// The state after this access.
    pub open spec fn apply(self, s: GpioModel) -> GpioModel {
        match self {
            RegWrite::OutSet { port, mask } => GpioModel {
                out: s.out.update(port as int, s.out[port as int] | mask),
                ..s
            },
            RegWrite::OutClr { port, mask } => GpioModel {
                out: s.out.update(port as int, s.out[port as int] & !mask),
                ..s
            },
            RegWrite::OutNot { port, mask } => GpioModel {
                out: s.out.update(port as int, s.out[port as int] ^ mask),
                ..s
            },
            RegWrite::DirSet { port, mask } => GpioModel {
                dir: s.dir.update(port as int, s.dir[port as int] | mask),
                ..s
            },
            RegWrite::DirClr { port, mask } => GpioModel {
                dir: s.dir.update(port as int, s.dir[port as int] & !mask),
                ..s
            },
            RegWrite::IoconDigital { pin } => GpioModel {
                iocon: s.iocon.update(
                    pin as int,
                    IoconPin { digital: true, ..s.iocon[pin as int] },
                ),
                ..s
            },
            RegWrite::IoconPull { pin, pull } => GpioModel {
                iocon: s.iocon.update(
                    pin as int,
                    IoconPin { pull: Some(pull), ..s.iocon[pin as int] },
                ),
                ..s
            },
            RegWrite::EnableClocks { gpio0, gpio1, mux, iocon } => GpioModel {
                clocks: s.clocks.union(clock_set(gpio0, gpio1, mux, iocon)),
                ..s
            },
        }
    }
}

/// The state after the accesses `ops`, made in order.
pub open spec fn run(s: GpioModel, ops: Seq<RegWrite>) -> GpioModel
    decreases ops.len(),
{
    if ops.len() == 0 {
        s
    } else {
        run(ops[0].apply(s), ops.drop_first())
    }
}

/// What the state `s` says of the pin `id`.
pub open spec fn pin_state(s: GpioModel, id: PinId) -> PinState {
    PinState {
        output: word_bit(s.dir[port_of(id.bank) as int], id.number),
        high: word_bit(s.out[port_of(id.bank) as int], id.number),
        iocon: s.iocon[iocon_of(id) as int],
    }
}

/// `SET` write that drives pin `id` high.
pub open spec fn set_op(id: PinId) -> RegWrite {
    RegWrite::OutSet { port: port_of(id.bank), mask: mask_of(id.number) }
}

/// `CLR` write that drives pin `id` low.
pub open spec fn clr_op(id: PinId) -> RegWrite {
    RegWrite::OutClr { port: port_of(id.bank), mask: mask_of(id.number) }
}

/// `NOT` write that inverts the output of pin `id`.
pub open spec fn not_op(id: PinId) -> RegWrite {
    RegWrite::OutNot { port: port_of(id.bank), mask: mask_of(id.number) }
}

/// Write that drives pin `id` at `level`.
pub open spec fn level_op(id: PinId, level: Level) -> RegWrite {
    match level {
        Level::High => set_op(id),
        Level::Low => clr_op(id),
    }
}

/// IOCON access that puts pin `id` in digital mode.
pub open spec fn digital_op(id: PinId) -> RegWrite {
    RegWrite::IoconDigital { pin: iocon_of(id) }
}

/// IOCON access that selects `pull` for pin `id`.
pub open spec fn pull_op(id: PinId, pull: Pull) -> RegWrite {
    RegWrite::IoconPull { pin: iocon_of(id), pull }
}

/// Accesses that make pin `id` a digital output.
pub open spec fn output_ops(id: PinId) -> Seq<RegWrite> {
    seq![digital_op(id), RegWrite::DirSet { port: port_of(id.bank), mask: mask_of(id.number) }]
}

/// Accesses that make pin `id` a digital input.
pub open spec fn input_ops(id: PinId) -> Seq<RegWrite> {
    seq![digital_op(id), RegWrite::DirClr { port: port_of(id.bank), mask: mask_of(id.number) }]
}

/// Accesses that create an output driver for pin `id` at `level`.
pub open spec fn output_new_ops(id: PinId, level: Level) -> Seq<RegWrite> {
    output_ops(id).push(level_op(id, level))
}

/// Accesses that create an input driver for pin `id` with `pull`.
pub open spec fn input_new_ops(id: PinId, pull: Pull) -> Seq<RegWrite> {
    input_ops(id).push(pull_op(id, pull))
}

/// The clock gates whose flags are set.
pub open spec fn clock_set(gpio0: bool, gpio1: bool, mux: bool, iocon: bool) -> Set<AhbClock> {
    Set::new(
        |c: AhbClock|
            match c {
                AhbClock::Gpio0 => gpio0,
                AhbClock::Gpio1 => gpio1,
                AhbClock::Mux => mux,
                AhbClock::Iocon => iocon,
            },
    )
}

/// The one access that enables, together, the clocks of both GPIO banks, the
/// input multiplexer and IOCON.
pub open spec fn init_op() -> RegWrite {
    RegWrite::EnableClocks { gpio0: true, gpio1: true, mux: true, iocon: true }
}

/// From `s` to `t`, no pin but `id` changed, and no bit of `AHBCLKCTRL0` either.
pub open spec fn only_pin_changed(s: GpioModel, t: GpioModel, id: PinId) -> bool {
    &&& t.wf()
    &&& t.clocks == s.clocks
    &&& t.clock_others == s.clock_others
    &&& forall|q: PinId| q.valid() && q != id ==> #[trigger] pin_state(t, q) == pin_state(s, q)
}

} // verus!
