//! Pins, pin levels and the `Flex`, `Output` and `Input` drivers.
use vstd::prelude::*;
use vstd::arithmetic::power2::pow2;

use crate::laws::law_hardware_numbering;
use crate::sealed::SealedPin;

use crate::regs::{
    init_op, input_new_ops, input_ops, iocon_of, mask_of, not_op, output_new_ops, output_ops,
    port_of, pull_op, set_op, clr_op, digital_op, word_bit, RegWrite,
};

verus! {

/// The GPIO pin level for pins set on "Digital" mode.
#[derive(Debug, Clone, Copy, PartialEq, Eq, Structural)]
pub enum Level {
    /// Logical low. Corresponds to 0V.
    Low,
    /// Logical high. Corresponds to VDD.
    High,
}

/// Pull setting for a GPIO input set on "Digital" mode.
#[derive(Debug, Clone, Copy, PartialEq, Eq, Structural)]
pub enum Pull {
    /// No pull.
    Disabled,
    /// Internal pull-up resistor.
    Up,
    /// Internal pull-down resistor.
    Down,
}

/// The LPC55 boards have two GPIO banks, each with 32 pins.
#[derive(Debug, Clone, Copy, PartialEq, Eq, Structural)]
pub enum Bank {
    Bank0,
    Bank1,
}

/// The identity of a pin: its bank and its number within the bank.
#[derive(Debug, Clone, Copy, PartialEq, Eq, Structural)]
pub struct PinId {
    pub bank: Bank,
    pub number: u8,
}

impl PinId {
    /// A pin that exists: the number lies in `0..32`.
    pub open spec fn valid(self) -> bool {
        self.number < 32
    }
}

/// Type-erased GPIO pin.
pub struct AnyPin {
    pin_bank: Bank,
    pin_number: u8,
}

impl AnyPin {
    #[verifier::type_invariant]
    closed spec fn inv(self) -> bool {
        self.pin_number < 32
    }

    /// Creates the type-erased pin `pin_number` of `pin_bank`.
    ///
    /// The caller must make sure that only one driver uses the pin at a time.
    pub fn steal(pin_bank: Bank, pin_number: u8) -> (r: AnyPin)
        requires
            pin_number < 32,
        ensures
            r@ == (PinId { bank: pin_bank, number: pin_number }),
    {
        AnyPin { pin_bank, pin_number }
    }
}

impl View for AnyPin {
    type V = PinId;

    closed spec fn view(&self) -> PinId {
        PinId { bank: self.pin_bank, number: self.pin_number }
    }
}

impl AnyPin {
    /// Returns the bank of this pin.
    pub fn pin_bank(&self) -> (r: Bank)
        ensures
            r == self@.bank,
    {
        self.pin_bank
    }

    /// Returns the number of this pin within its bank.
    pub fn pin_number(&self) -> (r: u8)
        ensures
            r == self@.number,
            r < 32,
    {
        proof {
            use_type_invariant(self);
        }
        self.pin_number
    }
}

/// Interface for a pin that can be configured by an `Input` or `Output`
/// driver, or converted to an `AnyPin`. This trait is sealed and cannot be
/// implemented outside of this crate, due to the `SealedPin` trait.
pub trait Pin: SealedPin {
    /// Returns the pin number within a bank.
    fn pin(&self) -> (r: u8)
        ensures
            r == self.pin_id().number,
            r < 32,
    {
        self.pin_number()
    }

    /// Returns the bank of this pin.
    fn bank(&self) -> (r: Bank)
        ensures
            r == self.pin_id().bank,
    {
        self.pin_bank()
    }
}

impl Pin for AnyPin {}

impl SealedPin for AnyPin {
    open spec fn pin_id(&self) -> PinId {
        self@
    }

    fn pin_bank(&self) -> (r: Bank) {
        AnyPin::pin_bank(self)
    }

    fn pin_number(&self) -> (r: u8) {
        AnyPin::pin_number(self)
    }
}

/// The GPIO register index of a bank: 0 for `Bank0`, 1 for `Bank1`.
pub fn port_index(bank: Bank) -> (r: usize)
    ensures
        r == port_of(bank),
        r == (if bank == Bank::Bank0 { 0usize } else { 1usize }),
{
    match bank {
        Bank::Bank0 => 0,
        Bank::Bank1 => 1,
    }
}

/// The IOCON register of pin `pin_number` of `pin_bank`: `PIO0_0` is register 0,
/// `PIO0_31` register 31, `PIO1_0` register 32 and `PIO1_31` register 63.
pub fn iocon_index(pin_bank: Bank, pin_number: u8) -> (r: usize)
    requires
        pin_number < 32,
    ensures
        r == iocon_of(PinId { bank: pin_bank, number: pin_number }),
        r as int == (if pin_bank == Bank::Bank0 { 0int } else { 32int }) + pin_number,
        r < 64,
{
    port_index(pin_bank) * 32 + pin_number as usize
}

/// A flexible GPIO (digital mode) pin whose mode is not yet determined.
pub struct Flex {
    pin: AnyPin,
}

impl View for Flex {
    type V = PinId;

    closed spec fn view(&self) -> PinId {
        self.pin@
    }
}

impl Flex {
    /// Wrap the pin in a `Flex`.
    ///
    /// Note: you cannot assume that the pin will be in Digital mode after this call.
    pub fn new<P: Pin>(pin: P) -> (r: Flex)
        ensures
            r@ == pin.pin_id(),
            r@.valid(),
    {
        let pin_bank = pin.pin_bank();
        let pin_number = pin.pin_number();
        Flex { pin: AnyPin::steal(pin_bank, pin_number) }
    }

    /// Get the bank of this pin.
    pub fn pin_bank(&self) -> (r: Bank)
        ensures
            r == self@.bank,
    {
        self.pin.pin_bank()
    }

    /// Get the number of this pin within its bank.
    pub fn pin_number(&self) -> (r: u8)
        ensures
            r == self@.number,
            r < 32,
    {
        self.pin.pin_number()
    }

    /// Get the bit mask for this pin. Useful for setting or clearing bits in a
    /// register. Note: PIOx_0 is bit 0, PIOx_1 is bit 1, etc.
    pub fn bit(&self) -> (r: u32)
        ensures
            r == mask_of(self@.number),
            r as nat == pow2(self@.number as nat),
    {
        proof {
            use_type_invariant(&self.pin);
            law_hardware_numbering(self@, 0);
        }
        1u32 << (self.pin_number() as u32)
    }

    /// Set the pin to digital mode. This is required for using a pin as a GPIO
    /// pin. The default setting for pins is (usually) non-digital.
    fn set_as_digital(&self) -> (r: RegWrite)
        ensures
            r == digital_op(self@),
    {
        let number = self.pin_number();
        RegWrite::IoconDigital { pin: iocon_index(self.pin_bank(), number) }
    }

    /// Set the pin in output mode. This implies setting the pin to digital
    /// mode, which this function handles itself.
    pub fn set_as_output(&self) -> (r: Vec<RegWrite>)
        ensures
            r@ == output_ops(self@),
    {
        let mut ops: Vec<RegWrite> = Vec::new();
        ops.push(self.set_as_digital());
        ops.push(RegWrite::DirSet { port: port_index(self.pin_bank()), mask: self.bit() });
        ops
    }

    /// Set the pin in input mode. This implies setting the pin to digital
    /// mode, which this function handles itself.
    pub fn set_as_input(&self) -> (r: Vec<RegWrite>)
        ensures
            r@ == input_ops(self@),
    {
        let mut ops: Vec<RegWrite> = Vec::new();
        ops.push(self.set_as_digital());
        ops.push(RegWrite::DirClr { port: port_index(self.pin_bank()), mask: self.bit() });
        ops
    }

    /// The level of this pin in the word read from its bank's `PIN` register.
    fn level_in(&self, pin_word: u32) -> (r: Level)
        ensures
            (r == Level::High) == word_bit(pin_word, self@.number),
            (r == Level::High) == ((pin_word as nat / pow2(self@.number as nat)) % 2 == 1),
    {
        let n = self.pin_number();
        proof {
            law_hardware_numbering(self@, pin_word);
        }
        let bit = self.bit();
        assert((pin_word & (1u32 << (n as u32)) != 0) == ((pin_word >> (n as u32)) & 1u32 == 1u32))
            by (bit_vector)
            requires
                n < 32,
        ;
        if pin_word & bit != 0 {
            Level::High
        } else {
            Level::Low
        }
    }
}

/// Enables the clocks of the GPIO banks, the input multiplexer and IOCON,
/// which the drivers need: the one access that does so.
pub fn init() -> (r: RegWrite)
    ensures
        r == init_op(),
{
    RegWrite::EnableClocks { gpio0: true, gpio1: true, mux: true, iocon: true }
}

/// GPIO output driver. Internally, this is a specialized `Flex` pin.
pub struct Output {
    pin: Flex,
}

impl View for Output {
    type V = PinId;

    closed spec fn view(&self) -> PinId {
        self.pin@
    }
}

impl Output {
    /// Create GPIO output driver for a pin with the provided initial output.
    /// Returns the driver and the accesses that configure the pin, in order.
    pub fn new<P: Pin>(pin: P, initial_output: Level) -> (r: (Output, Vec<RegWrite>))
        ensures
            r.0@ == pin.pin_id(),
            r.0@.valid(),
            r.1@ == output_new_ops(pin.pin_id(), initial_output),
    {
        let pin = Flex::new(pin);
        let mut ops = pin.set_as_output();
        let result = Output { pin };
        let last = match initial_output {
            Level::High => result.set_high(),
            Level::Low => result.set_low(),
        };
        ops.push(last);
        (result, ops)
    }

    /// The access that drives the pin high.
    pub fn set_high(&self) -> (r: RegWrite)
        ensures
            r == set_op(self@),
            r matches RegWrite::OutSet { port, mask }
                && port == (if self@.bank == Bank::Bank0 { 0usize } else { 1usize })
                && mask as nat == pow2(self@.number as nat),
    {
        proof {
            use_type_invariant(&self.pin.pin);
            law_hardware_numbering(self@, 0);
        }
        RegWrite::OutSet { port: port_index(self.pin.pin_bank()), mask: self.pin.bit() }
    }

    /// The access that drives the pin low.
    pub fn set_low(&self) -> (r: RegWrite)
        ensures
            r == clr_op(self@),
            r matches RegWrite::OutClr { port, mask }
                && port == (if self@.bank == Bank::Bank0 { 0usize } else { 1usize })
                && mask as nat == pow2(self@.number as nat),
    {
        proof {
            use_type_invariant(&self.pin.pin);
            law_hardware_numbering(self@, 0);
        }
        RegWrite::OutClr { port: port_index(self.pin.pin_bank()), mask: self.pin.bit() }
    }

    /// The access that inverts the pin's output.
    pub fn toggle(&self) -> (r: RegWrite)
        ensures
            r == not_op(self@),
            r matches RegWrite::OutNot { port, mask }
                && port == (if self@.bank == Bank::Bank0 { 0usize } else { 1usize })
                && mask as nat == pow2(self@.number as nat),
    {
        proof {
            use_type_invariant(&self.pin.pin);
            law_hardware_numbering(self@, 0);
        }
        RegWrite::OutNot { port: port_index(self.pin.pin_bank()), mask: self.pin.bit() }
    }

    /// The current output level of the pin, given the word read from the
    /// `PIN` register of its bank. Note that this is the voltage level
    /// reported by the pin, not the value set by the output driver.
    pub fn level(&self, pin_word: u32) -> (r: Level)
        ensures
            (r == Level::High) == word_bit(pin_word, self@.number),
            (r == Level::High) == ((pin_word as nat / pow2(self@.number as nat)) % 2 == 1),
    {
        self.pin.level_in(pin_word)
    }

    /// The bank of the pin, whose `PIN` register `level` reads.
    pub fn pin_bank(&self) -> (r: Bank)
        ensures
            r == self@.bank,
    {
        self.pin.pin_bank()
    }
}

/// GPIO input driver. Internally, this is a specialized `Flex` pin.
pub struct Input {
    pin: Flex,
}

impl View for Input {
    type V = PinId;

    closed spec fn view(&self) -> PinId {
        self.pin@
    }
}

impl Input {
    /// Create GPIO input driver for a pin with the provided pull.
    /// Returns the driver and the accesses that configure the pin, in order.
    pub fn new<P: Pin>(pin: P, pull: Pull) -> (r: (Input, Vec<RegWrite>))
        ensures
            r.0@ == pin.pin_id(),
            r.0@.valid(),
            r.1@ == input_new_ops(pin.pin_id(), pull),
    {
        let pin = Flex::new(pin);
        let mut ops = pin.set_as_input();
        let result = Input { pin };
        ops.push(result.set_pull(pull));
        (result, ops)
    }

    /// The access that sets the pull configuration for the pin. To disable
    /// the pull, use `Pull::Disabled`.
    pub fn set_pull(&self, pull: Pull) -> (r: RegWrite)
        ensures
            r == pull_op(self@, pull),
            r matches RegWrite::IoconPull { pin, pull: p } && p == pull && pin as int == (if self@.bank
                == Bank::Bank0 { 0int } else { 32int }) + self@.number,
    {
        let number = self.pin.pin_number();
        RegWrite::IoconPull { pin: iocon_index(self.pin.pin_bank(), number), pull }
    }

    /// The current input level of the pin, given the word read from the `PIN`
    /// register of its bank.
    pub fn read(&self, pin_word: u32) -> (r: Level)
        ensures
            (r == Level::High) == word_bit(pin_word, self@.number),
            (r == Level::High) == ((pin_word as nat / pow2(self@.number as nat)) % 2 == 1),
    {
        self.pin.level_in(pin_word)
    }

    /// The bank of the pin, whose `PIN` register `read` reads.
    pub fn pin_bank(&self) -> (r: Bank)
        ensures
            r == self@.bank,
    {
        self.pin.pin_bank()
    }
}

} // verus!
