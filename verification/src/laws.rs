//! What the drivers' register accesses do to the pins, proved over the model.
use vstd::prelude::*;

use vstd::arithmetic::power2::pow2;
use vstd::bits::{lemma_u32_pow2_no_overflow, lemma_u32_shl_is_mul, lemma_u32_shr_is_div};

use crate::gpio::{Bank, Level, PinId, Pull};
use crate::regs::{
    clr_op, digital_op, init_op, input_new_ops, input_ops, iocon_of, level_op, mask_of, not_op,
    only_pin_changed, output_new_ops, output_ops, pin_state, port_of, pull_op, run, set_op,
    word_bit, AhbClock, GpioModel, IoconPin, PinState, RegWrite,
};

verus! {

/// Setting, clearing or toggling the bit of pin `n` changes bit `n` only.
proof fn lemma_word_bits(w: u32, n: u8, m: u8)
    by (bit_vector)
    requires
        n < 32,
        m < 32,
    ensures
        word_bit(w | mask_of(n), m) == (m == n || word_bit(w, m)),
        word_bit(w & !mask_of(n), m) == (m != n && word_bit(w, m)),
        word_bit(w ^ mask_of(n), m) == (if m == n { !word_bit(w, m) } else { word_bit(w, m) }),
{
}

/// Making the accesses `ops` and then `op` is making `ops.push(op)`.
proof fn lemma_run_push(s: GpioModel, ops: Seq<RegWrite>, op: RegWrite)
    ensures
        run(s, ops.push(op)) == op.apply(run(s, ops)),
    decreases ops.len(),
{
    let pushed = ops.push(op);
    if ops.len() == 0 {
        assert(pushed.drop_first() =~= ops);
        assert(pushed[0] == op);
        assert(run(op.apply(s), ops) == op.apply(s));
        assert(run(s, ops) == s);
    } else {
        assert(pushed.drop_first() =~= ops.drop_first().push(op));
        assert(pushed[0] == ops[0]);
        lemma_run_push(ops[0].apply(s), ops.drop_first(), op);
    }
}

/// Making two accesses in order.
proof fn lemma_run_two(s: GpioModel, a: RegWrite, b: RegWrite)
    ensures
        run(s, seq![a, b]) == b.apply(a.apply(s)),
{
    let none = Seq::<RegWrite>::empty();
    lemma_run_push(s, none, a);
    lemma_run_push(s, none.push(a), b);
    assert(run(s, none) == s);
    assert(seq![a, b] =~= none.push(a).push(b));
}

/// Pins are told apart by their IOCON registers.
pub proof fn law_iocon_index_distinct(p: PinId, q: PinId)
    requires
        p.valid(),
        q.valid(),
        p != q,
    ensures
        iocon_of(p) < 64,
        iocon_of(q) < 64,
        iocon_of(p) != iocon_of(q),
{
}

/// The mask of pin `n` has bit `n` set and no other bit.
pub proof fn law_bit_mask(n: u8, m: u8)
    requires
        n < 32,
        m < 32,
    ensures
        word_bit(mask_of(n), m) == (m == n),
{
    assert(word_bit(mask_of(n), m) == (m == n)) by (bit_vector)
        requires
            n < 32,
            m < 32,
    ;
}

/// An access to the output word of pin `id`'s bank changes `id`'s output bit
/// by setting, clearing or inverting it, and no other pin, direction or IOCON register.
proof fn lemma_out_op(s: GpioModel, id: PinId, op: RegWrite)
    requires
        s.wf(),
        id.valid(),
        op == set_op(id) || op == clr_op(id) || op == not_op(id),
    ensures
        only_pin_changed(s, op.apply(s), id),
        pin_state(op.apply(s), id).output == pin_state(s, id).output,
        pin_state(op.apply(s), id).iocon == pin_state(s, id).iocon,
        op == set_op(id) ==> pin_state(op.apply(s), id).high,
        op == clr_op(id) ==> !pin_state(op.apply(s), id).high,
        op == not_op(id) ==> pin_state(op.apply(s), id).high == !pin_state(s, id).high,
{
    let t = op.apply(s);
    let p = port_of(id.bank) as int;
    lemma_word_bits(s.out[p], id.number, id.number);
    assert forall|q: PinId| q.valid() && q != id implies #[trigger] pin_state(t, q) == pin_state(
        s,
        q,
    ) by {
        lemma_word_bits(s.out[p], id.number, q.number);
    }
}

/// An access to the direction word of pin `id`'s bank changes `id`'s
/// direction bit, and no other pin, output or IOCON register.
proof fn lemma_dir_op(s: GpioModel, id: PinId, op: RegWrite)
    requires
        s.wf(),
        id.valid(),
        op == (RegWrite::DirSet { port: port_of(id.bank), mask: mask_of(id.number) }) || op == (
        RegWrite::DirClr { port: port_of(id.bank), mask: mask_of(id.number) }),
    ensures
        only_pin_changed(s, op.apply(s), id),
        pin_state(op.apply(s), id).output == (op is DirSet),
        pin_state(op.apply(s), id).high == pin_state(s, id).high,
        pin_state(op.apply(s), id).iocon == pin_state(s, id).iocon,
{
    let t = op.apply(s);
    let p = port_of(id.bank) as int;
    lemma_word_bits(s.dir[p], id.number, id.number);
    assert forall|q: PinId| q.valid() && q != id implies #[trigger] pin_state(t, q) == pin_state(
        s,
        q,
    ) by {
        lemma_word_bits(s.dir[p], id.number, q.number);
    }
}

/// An access to the IOCON register of pin `id` changes that register only.
proof fn lemma_iocon_op(s: GpioModel, id: PinId, op: RegWrite)
    requires
        s.wf(),
        id.valid(),
        op == digital_op(id) || exists|pull: Pull| op == pull_op(id, pull),
    ensures
        only_pin_changed(s, op.apply(s), id),
        pin_state(op.apply(s), id).output == pin_state(s, id).output,
        pin_state(op.apply(s), id).high == pin_state(s, id).high,
        op == digital_op(id) ==> pin_state(op.apply(s), id).iocon == (IoconPin {
            digital: true,
            ..pin_state(s, id).iocon
        }),
        forall|pull: Pull|
            op == pull_op(id, pull) ==> pin_state(op.apply(s), id).iocon == (IoconPin {
                pull: Some(pull),
                ..pin_state(s, id).iocon
            }),
{
    let t = op.apply(s);
    assert forall|q: PinId| q.valid() && q != id implies #[trigger] pin_state(t, q) == pin_state(
        s,
        q,
    ) by {
        law_iocon_index_distinct(id, q);
    }
}

/// `set_high` drives its pin high and changes nothing else.
pub proof fn law_set_high(s: GpioModel, id: PinId)
    requires
        s.wf(),
        id.valid(),
    ensures
        only_pin_changed(s, set_op(id).apply(s), id),
        pin_state(set_op(id).apply(s), id) == (PinState { high: true, ..pin_state(s, id) }),
{
    lemma_out_op(s, id, set_op(id));
}

/// `set_low` drives its pin low and changes nothing else.
pub proof fn law_set_low(s: GpioModel, id: PinId)
    requires
        s.wf(),
        id.valid(),
    ensures
        only_pin_changed(s, clr_op(id).apply(s), id),
        pin_state(clr_op(id).apply(s), id) == (PinState { high: false, ..pin_state(s, id) }),
{
    lemma_out_op(s, id, clr_op(id));
}

/// `toggle` inverts its pin's output and changes nothing else.
pub proof fn law_toggle(s: GpioModel, id: PinId)
    requires
        s.wf(),
        id.valid(),
    ensures
        only_pin_changed(s, not_op(id).apply(s), id),
        pin_state(not_op(id).apply(s), id) == (PinState {
            high: !pin_state(s, id).high,
            ..pin_state(s, id)
        }),
{
    lemma_out_op(s, id, not_op(id));
}

/// Toggling a pin twice leaves every register as it was.
pub proof fn law_toggle_twice(s: GpioModel, id: PinId)
    requires
        s.wf(),
        id.valid(),
    ensures
        run(s, seq![not_op(id), not_op(id)]) == s,
{
    lemma_run_two(s, not_op(id), not_op(id));
    let p = port_of(id.bank) as int;
    let w = s.out[p];
    let m = mask_of(id.number);
    assert((w ^ m) ^ m == w) by (bit_vector);
    assert(not_op(id).apply(not_op(id).apply(s)).out =~= s.out);
}

/// Of two levels driven in a row, the second is what the pin keeps: the
/// registers end as if only the second had been driven.
pub proof fn law_last_level_wins(s: GpioModel, id: PinId, first: Level, second: Level)
    requires
        s.wf(),
        id.valid(),
    ensures
        run(s, seq![level_op(id, first), level_op(id, second)])
            == level_op(id, second).apply(s),
{
    let a = level_op(id, first);
    let b = level_op(id, second);
    lemma_run_two(s, a, b);
    let p = port_of(id.bank) as int;
    let w = s.out[p];
    let m = mask_of(id.number);
    assert((w | m) | m == w | m && (w & !m) | m == w | m && (w | m) & !m == w & !m && (w & !m) & !m
        == w & !m) by (bit_vector);
    assert(b.apply(a.apply(s)).out =~= b.apply(s).out);
}

/// `set_as_output` makes its pin a digital output and changes nothing else:
/// not its output latch, pull or other IOCON fields, nor any other pin.
pub proof fn law_set_as_output(s: GpioModel, id: PinId)
    requires
        s.wf(),
        id.valid(),
    ensures
        only_pin_changed(s, run(s, output_ops(id)), id),
        pin_state(run(s, output_ops(id)), id) == (PinState {
            output: true,
            high: pin_state(s, id).high,
            iocon: IoconPin { digital: true, ..pin_state(s, id).iocon },
        }),
{
    let a = digital_op(id);
    let b = RegWrite::DirSet { port: port_of(id.bank), mask: mask_of(id.number) };
    lemma_run_two(s, a, b);
    lemma_iocon_op(s, id, a);
    lemma_dir_op(a.apply(s), id, b);
}

/// `set_as_input` makes its pin a digital input and changes nothing else:
/// not its output latch, pull or other IOCON fields, nor any other pin.
pub proof fn law_set_as_input(s: GpioModel, id: PinId)
    requires
        s.wf(),
        id.valid(),
    ensures
        only_pin_changed(s, run(s, input_ops(id)), id),
        pin_state(run(s, input_ops(id)), id) == (PinState {
            output: false,
            high: pin_state(s, id).high,
            iocon: IoconPin { digital: true, ..pin_state(s, id).iocon },
        }),
{
    let a = digital_op(id);
    let b = RegWrite::DirClr { port: port_of(id.bank), mask: mask_of(id.number) };
    lemma_run_two(s, a, b);
    lemma_iocon_op(s, id, a);
    lemma_dir_op(a.apply(s), id, b);
}

/// `Output::new` makes its pin a digital output driven at the initial level,
/// keeps the pin's pull and other IOCON fields, and changes no other pin.
pub proof fn law_output_new(s: GpioModel, id: PinId, initial_output: Level)
    requires
        s.wf(),
        id.valid(),
    ensures
        only_pin_changed(s, run(s, output_new_ops(id, initial_output)), id),
        pin_state(run(s, output_new_ops(id, initial_output)), id) == (PinState {
            output: true,
            high: initial_output == Level::High,
            iocon: IoconPin { digital: true, ..pin_state(s, id).iocon },
        }),
{
    let last = level_op(id, initial_output);
    lemma_run_push(s, output_ops(id), last);
    law_set_as_output(s, id);
    lemma_out_op(run(s, output_ops(id)), id, last);
}

/// `Input::new` makes its pin a digital input with the given pull, keeps its
/// output latch and other IOCON fields, and changes no other pin.
pub proof fn law_input_new(s: GpioModel, id: PinId, pull: Pull)
    requires
        s.wf(),
        id.valid(),
    ensures
        only_pin_changed(s, run(s, input_new_ops(id, pull)), id),
        pin_state(run(s, input_new_ops(id, pull)), id) == (PinState {
            output: false,
            high: pin_state(s, id).high,
            iocon: IoconPin { digital: true, pull: Some(pull), ..pin_state(s, id).iocon },
        }),
{
    let last = pull_op(id, pull);
    lemma_run_push(s, input_ops(id), last);
    law_set_as_input(s, id);
    lemma_iocon_op(run(s, input_ops(id)), id, last);
}

/// `Input::set_pull` selects the pull of its pin and changes nothing else:
/// not its digital mode or other IOCON fields, nor any other pin.
pub proof fn law_set_pull(s: GpioModel, id: PinId, pull: Pull)
    requires
        s.wf(),
        id.valid(),
    ensures
        only_pin_changed(s, pull_op(id, pull).apply(s), id),
        pin_state(pull_op(id, pull).apply(s), id) == (PinState {
            iocon: IoconPin { pull: Some(pull), ..pin_state(s, id).iocon },
            ..pin_state(s, id)
        }),
{
    lemma_iocon_op(s, id, pull_op(id, pull));
}

/// `init` enables the clocks of both GPIO banks, the input multiplexer and
/// IOCON in one access, and changes no pin and no other bit of `AHBCLKCTRL0`.
pub proof fn law_init(s: GpioModel)
    ensures
        init_op().apply(s) == (GpioModel {
            clocks: s.clocks.union(
                set![AhbClock::Gpio0, AhbClock::Gpio1, AhbClock::Mux, AhbClock::Iocon],
            ),
            ..s
        }),
{
    assert(init_op().apply(s).clocks =~= s.clocks.union(
        set![AhbClock::Gpio0, AhbClock::Gpio1, AhbClock::Mux, AhbClock::Iocon],
    ));
}

/// Of two pulls selected in a row for a pin, the second is what the pin
/// keeps: the registers end as if only the second had been selected.
pub proof fn law_last_pull_wins(s: GpioModel, id: PinId, first: Pull, second: Pull)
    requires
        s.wf(),
        id.valid(),
    ensures
        run(s, seq![pull_op(id, first), pull_op(id, second)]) == pull_op(id, second).apply(s),
{
    lemma_run_two(s, pull_op(id, first), pull_op(id, second));
    assert(pull_op(id, second).apply(pull_op(id, first).apply(s)).iocon =~= pull_op(
        id,
        second,
    ).apply(s).iocon);
}

/// The hardware numbering of pins: pin `PIOb_n` is controlled through the GPIO
/// registers of index `b`, by the bit of value `2^n` of their word (bit 0 for
/// `PIOx_0`, bit 1 for `PIOx_1`, ...), and through IOCON register `32 * b + n`
/// (`PIO0_0` .. `PIO0_31` are registers 0 .. 31, `PIO1_0` .. `PIO1_31` are 32 .. 63).
pub proof fn law_hardware_numbering(id: PinId, w: u32)
    requires
        id.valid(),
    ensures
        port_of(id.bank) == (if id.bank == Bank::Bank0 { 0usize } else { 1usize }),
        iocon_of(id) as int == (if id.bank == Bank::Bank0 { 0int } else { 32int }) + id.number,
        mask_of(id.number) as nat == pow2(id.number as nat),
        word_bit(w, id.number) == ((w as nat / pow2(id.number as nat)) % 2 == 1),
{
    let n = id.number as u32;
    lemma_u32_pow2_no_overflow(n as nat);
    lemma_u32_shl_is_mul(1u32, n);
    lemma_u32_shr_is_div(w, n);
    assert((w >> n) & 1u32 == (w >> n) % 2) by (bit_vector);
}

/// Every access that a driver makes for pin `PIOb_n` names that pin: the GPIO
/// accesses write to the registers of index `b` the word with only the bit of
/// value `2^n` set, and the IOCON accesses go to register `32 * b + n`.
pub proof fn law_accesses_name_their_pin(id: PinId, level: Level, pull: Pull)
    requires
        id.valid(),
    ensures
        ({
            let b: usize = if id.bank == Bank::Bank0 { 0usize } else { 1usize };
            let bit: nat = pow2(id.number as nat);
            let reg: int = 32 * b + id.number;
            &&& set_op(id) matches RegWrite::OutSet { port, mask } && port == b && mask as nat == bit
            &&& clr_op(id) matches RegWrite::OutClr { port, mask } && port == b && mask as nat == bit
            &&& not_op(id) matches RegWrite::OutNot { port, mask } && port == b && mask as nat == bit
            &&& digital_op(id) matches RegWrite::IoconDigital { pin } && pin as int == reg
            &&& pull_op(id, pull) matches RegWrite::IoconPull { pin, pull: p } && pin as int == reg
                && p == pull
            &&& output_ops(id).len() == 2
            &&& output_ops(id)[0] == digital_op(id)
            &&& output_ops(id)[1] matches RegWrite::DirSet { port, mask } && port == b && mask as nat
                == bit
            &&& input_ops(id).len() == 2
            &&& input_ops(id)[0] == digital_op(id)
            &&& input_ops(id)[1] matches RegWrite::DirClr { port, mask } && port == b && mask as nat
                == bit
            &&& output_new_ops(id, level) == output_ops(id).push(
                if level == Level::High { set_op(id) } else { clr_op(id) },
            )
            &&& input_new_ops(id, pull) == input_ops(id).push(pull_op(id, pull))
        }),
{
    law_hardware_numbering(id, 0);
}

} // verus!
