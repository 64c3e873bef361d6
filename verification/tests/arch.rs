use os_kernel_foundry::arch::{
    AddressTranslator, InterruptController, MockAddressTranslator, MockInterruptController,
    MockTimer, Timer,
};

#[test]
fn mock_timer_starts_at_zero_and_advances() {
    let mut timer = MockTimer::new();
    assert_eq!(timer.now(), 0);
    assert_eq!(timer.advance(5), 5);
    assert_eq!(timer.advance(10), 15);
    assert_eq!(timer.now(), 15);
}

#[test]
fn mock_timer_saturates() {
    let mut timer = MockTimer::new();
    assert_eq!(timer.advance(u64::MAX - 1), u64::MAX - 1);
    assert_eq!(timer.advance(5), u64::MAX);
    assert_eq!(timer.advance(1), u64::MAX);
    assert_eq!(timer.now(), u64::MAX);
}

#[test]
fn mock_timer_never_goes_back() {
    let mut timer = MockTimer::new();
    let mut last = timer.now();
    for delta in [0u64, 3, 0, 1 << 40, u64::MAX, 2] {
        let now = timer.advance(delta);
        assert!(now >= last);
        last = now;
    }
}

#[test]
fn mock_translator_reads_back_mappings() {
    let mut translator = MockAddressTranslator::new();
    assert_eq!(translator.translate(0x1000), None);
    translator.insert(0x1000, 0x8000);
    translator.insert(0x2000, 0x9000);
    assert_eq!(translator.translate(0x1000), Some(0x8000));
    assert_eq!(translator.translate(0x2000), Some(0x9000));
    assert_eq!(translator.translate(0x3000), None);
    translator.insert(0x1000, 0xa000);
    assert_eq!(translator.translate(0x1000), Some(0xa000));
    assert_eq!(translator.translate(0x2000), Some(0x9000));
}

#[test]
fn default_translator_maps_nothing() {
    let translator = MockAddressTranslator::default();
    assert_eq!(translator.translate(0), None);
}

#[test]
fn mock_interrupt_controller_remembers_last_lines() {
    let mut ic = MockInterruptController::default();
    assert_eq!(
        format!("{:?}", ic),
        "MockInterruptController { last_enabled: None, last_disabled: None, last_acknowledged: None }"
    );
    ic.enable(3);
    ic.enable(4);
    ic.disable(7);
    ic.acknowledge(4);
    assert_eq!(
        format!("{:?}", ic),
        "MockInterruptController { last_enabled: Some(4), last_disabled: Some(7), last_acknowledged: Some(4) }"
    );
}
