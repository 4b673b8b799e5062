//! Register map and setup routine of the ARM-side timer, the interrupt
//! source the interrupt example image drives.
//!
//! Three memory-mapped registers serve the timer: the reload value, the
//! control word with its enable fields, and the write-only acknowledge
//! register whose store — of any value — clears the asserted line. The
//! setup routine performed once by the primary core loads the reload
//! value, enables the timer with interrupts in 32-bit free-running mode,
//! activates the timer's interrupt source and switches interrupts on
//! globally.

use vstd::prelude::*;
use crate::interrupt::InterruptManager;
use crate::interrupt::IrqSource;
use crate::register::Access;
use crate::register::MmioRegister;
use crate::register::RegWidth;
use crate::register::RegisterField;

verus! {

/// Physical address of the timer reload-value register.
pub const TIMER_LOAD_ADDR: u64 = 0x3F00_B400;

/// Physical address of the timer control register.
pub const TIMER_CTRL_ADDR: u64 = 0x3F00_B408;

/// Physical address of the timer interrupt-acknowledge register.
pub const TIMER_ACKN_ADDR: u64 = 0x3F00_B40C;

/// The reload value the interrupt example arms the timer with.
pub const TIMER_RELOAD: u64 = 0x30_000;

/// Counting width selector of the control word: one bit, set for 32-bit.
pub open spec fn ctrl_width_field() -> RegisterField {
    RegisterField { offset: 1, width: 1 }
}

/// Interrupt enable flag of the control word.
pub open spec fn ctrl_irq_field() -> RegisterField {
    RegisterField { offset: 5, width: 1 }
}

/// Timer enable flag of the control word.
pub open spec fn ctrl_timer_field() -> RegisterField {
    RegisterField { offset: 7, width: 1 }
}

/// Free-running counter enable flag of the control word.
pub open spec fn ctrl_freerun_field() -> RegisterField {
    RegisterField { offset: 9, width: 1 }
}

/// Symbolic value of a one-bit enable field: enabled.
pub const FLAG_ENABLED: u64 = 1;

/// Symbolic value of a one-bit enable field: disabled.
pub const FLAG_DISABLED: u64 = 0;

/// Symbolic value of the width field: the timer counts 32 bits wide.
pub const WIDTH_32BIT: u64 = 1;

/// The fields of the timer control register, in register order.
pub fn ctrl_fields() -> (r: Vec<RegisterField>)
    ensures
        r@ =~= seq![
            ctrl_width_field(),
            ctrl_irq_field(),
            ctrl_timer_field(),
            ctrl_freerun_field(),
        ],
{
    let mut fields: Vec<RegisterField> = Vec::new();
    fields.push(RegisterField::new(1, 1));
    fields.push(RegisterField::new(5, 1));
    fields.push(RegisterField::new(7, 1));
    fields.push(RegisterField::new(9, 1));
    fields
}

/// The timer reload-value register: read-write, no named fields.
pub fn timer_load_register() -> (r: MmioRegister)
    ensures
        r.wf(),
        r.address == TIMER_LOAD_ADDR,
        r.width == RegWidth::Word,
        r.access == Access::ReadWrite,
        r.value == 0,
{
    let fields: Vec<RegisterField> = Vec::new();
    let made = MmioRegister::new(TIMER_LOAD_ADDR, RegWidth::Word, Access::ReadWrite, fields);
    match made {
        Ok(reg) => reg,
        Err(_) => vstd::pervasive::unreached(),
    }
}

/// The timer control register with its four one-bit fields.
pub fn timer_ctrl_register() -> (r: MmioRegister)
    ensures
        r.wf(),
        r.address == TIMER_CTRL_ADDR,
        r.width == RegWidth::Word,
        r.access == Access::ReadWrite,
        r.value == 0,
        r.fields@ =~= seq![
            ctrl_width_field(),
            ctrl_irq_field(),
            ctrl_timer_field(),
            ctrl_freerun_field(),
        ],
{
    let fields = ctrl_fields();
    proof {
        assert(((((1u64 << 1u64) - 1) as u64) << 1u64) & ((((1u64 << 1u64) - 1) as u64) << 5u64)
            == 0 && ((((1u64 << 1u64) - 1) as u64) << 1u64) & ((((1u64 << 1u64) - 1) as u64)
            << 7u64) == 0 && ((((1u64 << 1u64) - 1) as u64) << 1u64) & ((((1u64 << 1u64)
            - 1) as u64) << 9u64) == 0 && ((((1u64 << 1u64) - 1) as u64) << 5u64) & ((((1u64
            << 1u64) - 1) as u64) << 7u64) == 0 && ((((1u64 << 1u64) - 1) as u64) << 5u64) & ((((
        1u64 << 1u64) - 1) as u64) << 9u64) == 0 && ((((1u64 << 1u64) - 1) as u64) << 7u64) & ((((
        1u64 << 1u64) - 1) as u64) << 9u64) == 0) by (bit_vector);
    }
    let made = MmioRegister::new(TIMER_CTRL_ADDR, RegWidth::Word, Access::ReadWrite, fields);
    match made {
        Ok(reg) => reg,
        Err(_) => vstd::pervasive::unreached(),
    }
}

/// The timer acknowledge register: write-only, a store of any value
/// clears the line.
pub fn timer_ackn_register() -> (r: MmioRegister)
    ensures
        r.wf(),
        r.address == TIMER_ACKN_ADDR,
        r.width == RegWidth::Word,
        r.access == Access::WriteOnly,
        r.value == 0,
{
    let fields: Vec<RegisterField> = Vec::new();
    let made = MmioRegister::new(TIMER_ACKN_ADDR, RegWidth::Word, Access::WriteOnly, fields);
    match made {
        Ok(reg) => reg,
        Err(_) => vstd::pervasive::unreached(),
    }
}

/// The control word arming the timer: 32-bit counting, interrupts on,
/// timer on, free-running counter on.
pub fn timer_enable_value() -> (r: u64)
    ensures
        ctrl_width_field().extract(r) == WIDTH_32BIT,
        ctrl_irq_field().extract(r) == FLAG_ENABLED,
        ctrl_timer_field().extract(r) == FLAG_ENABLED,
        ctrl_freerun_field().extract(r) == FLAG_ENABLED,
        r & RegWidth::Word.value_mask() == r,
{
    proof {
        assert(1u64 & (((1u64 << 1u64) - 1) as u64) == 1u64) by (bit_vector);
    }
    let width = RegisterField::new(1, 1);
    let irq = RegisterField::new(5, 1);
    let timer = RegisterField::new(7, 1);
    let freerun = RegisterField::new(9, 1);
    let composed = width.encode(WIDTH_32BIT) | irq.encode(FLAG_ENABLED) | timer.encode(
        FLAG_ENABLED,
    ) | freerun.encode(FLAG_ENABLED);
    proof {
        let c = (1u64 << 1u64) | (1u64 << 5u64) | (1u64 << 7u64) | (1u64 << 9u64);
        assert((c >> 1u64) & (((1u64 << 1u64) - 1) as u64) == 1 && (c >> 5u64) & (((1u64 << 1u64)
            - 1) as u64) == 1 && (c >> 7u64) & (((1u64 << 1u64) - 1) as u64) == 1 && (c >> 9u64) & (
        ((1u64 << 1u64) - 1) as u64) == 1 && c & 0xFFFF_FFFFu64 == c) by (bit_vector)
            requires
                c == (1u64 << 1u64) | (1u64 << 5u64) | (1u64 << 7u64) | (1u64 << 9u64),
        ;
    }
    composed
}

/// One-time timer setup, performed by the primary core during its
/// `on_alive`: arm the reload value, enable the timer with interrupts,
/// activate the timer's source in the interrupt manager, then switch
/// interrupts on globally — the activation table is published before the
/// global enable, as the initialization discipline demands.
pub fn setup_timer(
    load: &mut MmioRegister,
    ctrl: &mut MmioRegister,
    mgr: &mut InterruptManager,
)
    requires
        old(load).width == RegWidth::Word,
        old(ctrl).width == RegWidth::Word,
        old(mgr).wf(),
    ensures
        final(load).value == TIMER_RELOAD,
        ctrl_width_field().extract(final(ctrl).value) == WIDTH_32BIT,
        ctrl_irq_field().extract(final(ctrl).value) == FLAG_ENABLED,
        ctrl_timer_field().extract(final(ctrl).value) == FLAG_ENABLED,
        ctrl_freerun_field().extract(final(ctrl).value) == FLAG_ENABLED,
        final(mgr).wf(),
        final(mgr).is_active(IrqSource::ArmTimer),
        final(mgr).global_enabled,
        forall|t: IrqSource|
            t != IrqSource::ArmTimer ==> final(mgr).is_active(t) == old(mgr).is_active(t),
        final(load).address == old(load).address && final(load).width == old(load).width
            && final(load).access == old(load).access,
        final(ctrl).address == old(ctrl).address && final(ctrl).width == old(ctrl).width
            && final(ctrl).access == old(ctrl).access,
{
    proof {
        assert(0x30_000u64 & 0xFFFF_FFFFu64 == 0x30_000u64) by (bit_vector);
    }
    load.set(TIMER_RELOAD);
    let composed = timer_enable_value();
    ctrl.write_value(composed);
    mgr.activate(IrqSource::ArmTimer);
    mgr.enable_interrupts();
}

/// Acknowledges the timer interrupt: the handler's first duty, a store of
/// any value to the acknowledge register, clearing the line before the
/// handler returns so the interrupt does not re-fire immediately.
pub fn acknowledge_timer(ackn: &mut MmioRegister)
    requires
        old(ackn).width == RegWidth::Word,
    ensures
        final(ackn).value == 1,
        final(ackn).address == old(ackn).address && final(ackn).width == old(ackn).width
            && final(ackn).access == old(ackn).access && final(ackn).fields == old(ackn).fields,
{
    proof {
        assert(1u64 & 0xFFFF_FFFFu64 == 1u64) by (bit_vector);
    }
    ackn.set(1);
}

} // verus!
