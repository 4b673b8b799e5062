use firmware_core::interrupt::dispatch;
use firmware_core::interrupt::dispatch_all;
use firmware_core::interrupt::BindError;
use firmware_core::interrupt::HandlerTable;
use firmware_core::interrupt::InterruptManager;
use firmware_core::interrupt::IrqSource;

#[test]
fn initial_state_dispatches_nothing() {
    let mgr = InterruptManager::new();
    let mut table = HandlerTable::new();
    table.bind(IrqSource::ArmTimer, 7).unwrap();
    assert!(!mgr.global_enabled);
    assert_eq!(dispatch(&mgr, &table, IrqSource::ArmTimer), None);
}

#[test]
fn activation_gating_requires_both_switches() {
    // A source reaches its handler only while Active and globally enabled.
    let mut mgr = InterruptManager::new();
    let mut table = HandlerTable::new();
    table.bind(IrqSource::ArmTimer, 7).unwrap();

    mgr.activate(IrqSource::ArmTimer);
    assert_eq!(dispatch(&mgr, &table, IrqSource::ArmTimer), None);

    mgr.enable_interrupts();
    assert_eq!(dispatch(&mgr, &table, IrqSource::ArmTimer), Some(7));

    mgr.disable_interrupts();
    assert_eq!(dispatch(&mgr, &table, IrqSource::ArmTimer), None);
}

#[test]
fn deactivation_stops_dispatch() {
    // Even a line the hardware still asserts is gated off after deactivate.
    let mut mgr = InterruptManager::new();
    let mut table = HandlerTable::new();
    table.bind(IrqSource::ArmTimer, 7).unwrap();
    mgr.activate(IrqSource::ArmTimer);
    mgr.enable_interrupts();
    assert_eq!(dispatch(&mgr, &table, IrqSource::ArmTimer), Some(7));
    mgr.deactivate(IrqSource::ArmTimer);
    assert_eq!(dispatch(&mgr, &table, IrqSource::ArmTimer), None);
    assert_eq!(dispatch(&mgr, &table, IrqSource::ArmTimer), None);
}

#[test]
fn spurious_sources_are_ignored() {
    let mut mgr = InterruptManager::new();
    let mut table = HandlerTable::new();
    table.bind(IrqSource::I2c, 3).unwrap();
    mgr.enable_interrupts();
    // Inactive source: ignored, not fatal.
    assert_eq!(dispatch(&mgr, &table, IrqSource::I2c), None);
    // Active source without a handler: ignored as well.
    mgr.activate(IrqSource::Aux);
    assert_eq!(dispatch(&mgr, &table, IrqSource::Aux), None);
}

#[test]
fn activation_is_per_source() {
    let mut mgr = InterruptManager::new();
    mgr.activate(IrqSource::ArmTimer);
    assert!(mgr.source_active(IrqSource::ArmTimer));
    assert!(!mgr.source_active(IrqSource::Aux));
    assert!(!mgr.source_active(IrqSource::GpioBank1));
    mgr.deactivate(IrqSource::ArmTimer);
    assert!(!mgr.source_active(IrqSource::ArmTimer));
}

#[test]
fn binding_is_fixed_once() {
    let mut table = HandlerTable::new();
    assert_eq!(table.bind(IrqSource::ArmTimer, 7), Ok(()));
    assert_eq!(table.bind(IrqSource::ArmTimer, 9), Err(BindError::AlreadyBound));
    assert_eq!(table.handler_for(IrqSource::ArmTimer), Some(7));
    assert_eq!(table.handler_for(IrqSource::ArmMailbox), None);
}

#[test]
fn timer_firing_twice_invokes_handler_twice() {
    // The timer fires twice before any acknowledge: the handler is invoked
    // exactly twice, sequentially, in firing order.
    let mut mgr = InterruptManager::new();
    let mut table = HandlerTable::new();
    table.bind(IrqSource::ArmTimer, 5).unwrap();
    mgr.activate(IrqSource::ArmTimer);
    mgr.enable_interrupts();
    let fired = vec![IrqSource::ArmTimer, IrqSource::ArmTimer];
    let invoked = dispatch_all(&mgr, &table, &fired);
    assert_eq!(invoked, vec![5, 5]);
}

#[test]
fn burst_dispatch_filters_gated_sources() {
    let mut mgr = InterruptManager::new();
    let mut table = HandlerTable::new();
    table.bind(IrqSource::ArmTimer, 5).unwrap();
    table.bind(IrqSource::I2c, 3).unwrap();
    mgr.activate(IrqSource::ArmTimer);
    mgr.enable_interrupts();
    let fired = vec![IrqSource::I2c, IrqSource::ArmTimer, IrqSource::Aux, IrqSource::ArmTimer];
    let invoked = dispatch_all(&mgr, &table, &fired);
    assert_eq!(invoked, vec![5, 5]);
}
