use vf2_core::array_vec::ArrayVec;
use vf2_core::input_signal::{
    combine_blocks, configure_signals, edge_callback, edge_clear_writes, pin_block_mask,
    signal_change_handler, timer_interrupt_handler, EdgeCallback, InputSignalState, LogicState,
    Signal, MONITORED_PIN, NUMBER_GPIO,
};

fn registry_with(pin: u8) -> ArrayVec<Signal, NUMBER_GPIO> {
    let mut signals = ArrayVec::new();
    signals.init();
    signals.try_push(Signal::new(pin, EdgeCallback::Debounce)).unwrap();
    signals
}

fn state(signals: &ArrayVec<Signal, NUMBER_GPIO>) -> (InputSignalState, u8) {
    let s = signals.get(0);
    (s.state, s.stabilization_counter)
}

/// Edge interrupt as the hardware reports it: the two masked-status blocks
/// and the two synchronized-value blocks.
fn edge(signals: &mut ArrayVec<Signal, NUMBER_GPIO>, pin: u8, high: bool) {
    let (block, mask) = pin_block_mask(pin);
    let (mis0, mis1) = if block == 0 { (mask, 0) } else { (0, mask) };
    let (sync0, sync1) = if high { (mis0, mis1) } else { (0, 0) };
    signal_change_handler(signals, combine_blocks(mis0, mis1), combine_blocks(sync0, sync1));
}

fn ticks(signals: &mut ArrayVec<Signal, NUMBER_GPIO>, n: usize) {
    for _ in 0..n {
        timer_interrupt_handler(signals);
    }
}

#[test]
fn unknown_signal_and_high_edge_starts_stabilizing_high() {
    let mut signals = registry_with(37);
    edge(&mut signals, 37, true);
    assert_eq!(state(&signals), (InputSignalState::StabilizingHigh, 0));
}

#[test]
fn unknown_signal_and_low_edge_starts_stabilizing_low() {
    let mut signals = registry_with(5);
    edge(&mut signals, 5, false);
    assert_eq!(state(&signals), (InputSignalState::StabilizingLow, 0));
}

#[test]
fn stabilizing_high_from_three_settles_after_two_more_ticks() {
    let mut signals = registry_with(37);
    edge(&mut signals, 37, true);
    ticks(&mut signals, 3);
    assert_eq!(state(&signals), (InputSignalState::StabilizingHigh, 3));
    ticks(&mut signals, 1);
    assert_eq!(state(&signals), (InputSignalState::StabilizingHigh, 4));
    ticks(&mut signals, 1);
    assert_eq!(state(&signals), (InputSignalState::StableHigh, 0));
    ticks(&mut signals, 1);
    assert_eq!(state(&signals), (InputSignalState::StableHigh, 0));
}

#[test]
fn three_ticks_from_counter_three_reach_stable_high() {
    let mut signals = registry_with(37);
    edge(&mut signals, 37, true);
    ticks(&mut signals, 3);
    assert_eq!(state(&signals), (InputSignalState::StabilizingHigh, 3));
    ticks(&mut signals, 3);
    assert_eq!(state(&signals), (InputSignalState::StableHigh, 0));
}

#[test]
fn edge_while_stabilizing_high_resets_counter_only() {
    let mut signals = registry_with(37);
    edge(&mut signals, 37, true);
    ticks(&mut signals, 4);
    assert_eq!(state(&signals), (InputSignalState::StabilizingHigh, 4));
    edge(&mut signals, 37, false);
    assert_eq!(state(&signals), (InputSignalState::StabilizingHigh, 0));
}

#[test]
fn pin_37_low_bounce_high_ends_stable_high() {
    let mut signals = registry_with(MONITORED_PIN);
    edge(&mut signals, 37, false);
    ticks(&mut signals, 6);
    assert_eq!(state(&signals), (InputSignalState::StableLow, 0));
    let bounces = [(true, 1), (false, 4), (true, 0), (false, 2), (true, 3), (true, 4)];
    for (high, gap) in bounces {
        edge(&mut signals, 37, high);
        ticks(&mut signals, gap);
        assert_eq!(state(&signals).0, InputSignalState::StabilizingHigh);
    }
    edge(&mut signals, 37, true);
    ticks(&mut signals, 5);
    assert_eq!(state(&signals), (InputSignalState::StableHigh, 0));
    ticks(&mut signals, 9);
    assert_eq!(state(&signals), (InputSignalState::StableHigh, 0));
}

#[test]
fn handler_counts_edges_at_unexpected_levels() {
    let mut signals: ArrayVec<Signal, NUMBER_GPIO> = ArrayVec::new();
    signals.try_push(Signal::new(37, EdgeCallback::Debounce)).unwrap();
    signals.try_push(Signal::new(4, EdgeCallback::Debounce)).unwrap();
    // both low and settled
    assert_eq!(signal_change_handler(&mut signals, (1 << 37) | (1 << 4), 0), 0);
    ticks(&mut signals, 5);
    assert_eq!(signals.get(0).state, InputSignalState::StableLow);
    assert_eq!(signals.get(1).state, InputSignalState::StableLow);
    // pin 37 reports low again (unexpected), pin 4 reports high (expected)
    assert_eq!(signal_change_handler(&mut signals, (1 << 37) | (1 << 4), 1 << 4), 1);
    assert_eq!(signals.get(0).state, InputSignalState::StabilizingHigh);
    assert_eq!(signals.get(1).state, InputSignalState::StabilizingHigh);
}

#[test]
fn edge_on_another_pin_leaves_signal_alone() {
    let mut signals = registry_with(37);
    edge(&mut signals, 36, true);
    edge(&mut signals, 5, true);
    assert_eq!(state(&signals), (InputSignalState::Unknown, 0));
}

#[test]
fn timer_tick_moves_unknown_to_stabilizing_high() {
    let mut signals = registry_with(37);
    ticks(&mut signals, 1);
    assert_eq!(state(&signals), (InputSignalState::StabilizingHigh, 0));
}

#[test]
fn stable_signal_edges_reverse_and_report_unexpected_levels() {
    let mut s = Signal::new(3, EdgeCallback::Debounce);
    s.update_state(InputSignalState::StableLow);
    assert!(!edge_callback(&mut s, LogicState::High));
    assert_eq!(s.state, InputSignalState::StabilizingHigh);
    s.update_state(InputSignalState::StableLow);
    assert!(edge_callback(&mut s, LogicState::Low));
    assert_eq!(s.state, InputSignalState::StabilizingHigh);
    s.update_state(InputSignalState::StableHigh);
    assert!(edge_callback(&mut s, LogicState::High));
    assert_eq!(s.state, InputSignalState::StabilizingLow);
    s.update_state(InputSignalState::StableHigh);
    assert!(!s.on_edge(LogicState::Low));
    assert_eq!(s.state, InputSignalState::StabilizingLow);
}

#[test]
fn unknown_level_on_unknown_signal_changes_nothing() {
    let mut s = Signal::new(3, EdgeCallback::Debounce);
    assert!(!edge_callback(&mut s, LogicState::Unknown));
    assert_eq!(s.state, InputSignalState::Unknown);
}

#[test]
fn stabilizing_low_settles_low() {
    let mut s = Signal::new(9, EdgeCallback::Debounce);
    s.on_edge(LogicState::Low);
    for _ in 0..4 {
        s.on_tick();
        assert_eq!(s.state, InputSignalState::StabilizingLow);
    }
    s.on_tick();
    assert_eq!((s.state, s.stabilization_counter), (InputSignalState::StableLow, 0));
}

#[test]
fn logic_state_from_sampled_bits() {
    assert_eq!(LogicState::from(0u64), LogicState::Low);
    assert_eq!(LogicState::from(1u64 << 37), LogicState::High);
    assert_eq!(LogicState::from(u64::MAX), LogicState::High);
}

#[test]
fn blocks_combine_with_block_one_high() {
    assert_eq!(combine_blocks(0x0000_0001, 0x0000_0020), 0x0000_0020_0000_0001);
    assert_eq!(combine_blocks(0, 0), 0);
    assert_eq!(combine_blocks(u32::MAX, u32::MAX), u64::MAX);
}

#[test]
fn pin_37_sits_in_block_one_bit_five() {
    assert_eq!(pin_block_mask(37), (1, 1 << 5));
    assert_eq!(pin_block_mask(0), (0, 1));
    assert_eq!(pin_block_mask(63), (1, 1 << 31));
}

#[test]
fn clear_writes_drop_then_set_pending_bits() {
    assert_eq!(edge_clear_writes(0b1111_0000, 0b0011_0000), (0b1100_0000, 0b1111_0000));
    assert_eq!(edge_clear_writes(0, 1 << 5), (0, 1 << 5));
}

#[test]
fn configure_registers_pin_37_only() {
    let mut signals: ArrayVec<Signal, NUMBER_GPIO> = ArrayVec::new();
    signals.try_push(Signal::new(1, EdgeCallback::Debounce)).unwrap();
    assert!(configure_signals(&mut signals).is_ok());
    assert_eq!(signals.len(), 1);
    let s = signals.get(0);
    assert_eq!(s.pin_number, 37);
    assert_eq!(s.state, InputSignalState::Unknown);
    assert_eq!(s.logic_state, LogicState::Unknown);
    assert_eq!(s.edge_callback, EdgeCallback::Debounce);
}

#[test]
fn configure_without_room_hands_the_signal_back() {
    let mut signals: ArrayVec<Signal, 0> = ArrayVec::new();
    match configure_signals(&mut signals) {
        Err(s) => assert_eq!(s.pin_number, 37),
        Ok(()) => panic!("no room, yet registered"),
    }
}
