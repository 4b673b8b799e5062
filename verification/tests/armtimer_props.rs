use firmware_core::armtimer;
use firmware_core::interrupt::dispatch;
use firmware_core::interrupt::HandlerTable;
use firmware_core::interrupt::InterruptManager;
use firmware_core::interrupt::IrqSource;
use firmware_core::register::Access;
use firmware_core::register::RegWidth;

#[test]
fn timer_register_map_matches_hardware() {
    let load = armtimer::timer_load_register();
    assert_eq!(load.address, 0x3F00_B400);
    assert_eq!(load.width, RegWidth::Word);
    assert_eq!(load.access, Access::ReadWrite);

    let ctrl = armtimer::timer_ctrl_register();
    assert_eq!(ctrl.address, 0x3F00_B408);
    assert_eq!(ctrl.fields.len(), 4);
    // On reset every enable flag still reads as disabled.
    let irq_field = ctrl.fields[1];
    assert_eq!(ctrl.read_field(&irq_field), armtimer::FLAG_DISABLED);

    let ackn = armtimer::timer_ackn_register();
    assert_eq!(ackn.address, 0x3F00_B40C);
    assert_eq!(ackn.access, Access::WriteOnly);
}

#[test]
fn timer_enable_value_sets_exactly_the_four_flags() {
    // WIDTH at bit 1, IRQ at bit 5, TIMER at bit 7, FREERUN at bit 9.
    assert_eq!(armtimer::timer_enable_value(), 0x2A2);
}

#[test]
fn timer_setup_arms_and_activates() {
    let mut load = armtimer::timer_load_register();
    let mut ctrl = armtimer::timer_ctrl_register();
    let mut mgr = InterruptManager::new();
    armtimer::setup_timer(&mut load, &mut ctrl, &mut mgr);

    assert_eq!(load.get(), 0x30_000);
    assert_eq!(ctrl.get(), 0x2A2);
    assert!(mgr.source_active(IrqSource::ArmTimer));
    assert!(mgr.global_enabled);
    assert!(!mgr.source_active(IrqSource::Aux));

    // With the source active and interrupts enabled, the timer line now
    // reaches its bound handler.
    let mut table = HandlerTable::new();
    table.bind(IrqSource::ArmTimer, 1).unwrap();
    assert_eq!(dispatch(&mgr, &table, IrqSource::ArmTimer), Some(1));
}

#[test]
fn acknowledge_writes_the_ack_register() {
    let mut ackn = armtimer::timer_ackn_register();
    armtimer::acknowledge_timer(&mut ackn);
    assert_eq!(ackn.value, 1);
}
