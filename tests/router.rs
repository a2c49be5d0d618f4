use vf2_core::plic::{
    claim_complete_register, enable_location, enable_register_base, machine_external_isr,
    pending_location, priority_register, threshold_register, threshold_value, with_bit_set,
    ExecutionMode, ExternalDispatch, HartId, InterruptPriority,
};

#[test]
fn claim_of_zero_dispatches_nothing() {
    let table = vec![false, true, true];
    let d = machine_external_isr(0, &table);
    assert_eq!(d, ExternalDispatch::Spurious);
    assert_eq!(d.handler(), None);
    assert_eq!(d.completion(), None);
}

#[test]
fn assigned_source_is_handled_then_completed() {
    let table = vec![false, true, false, true];
    let d = machine_external_isr(3, &table);
    assert_eq!(d, ExternalDispatch::Handle(3));
    assert_eq!(d.handler(), Some(3));
    assert_eq!(d.completion(), Some(3));
}

#[test]
fn unassigned_source_is_still_completed() {
    let table = vec![false, true, false, true];
    let d = machine_external_isr(2, &table);
    assert_eq!(d, ExternalDispatch::Unassigned(2));
    assert_eq!(d.handler(), None);
    assert_eq!(d.completion(), Some(2));
    let d = machine_external_isr(40, &table);
    assert_eq!(d, ExternalDispatch::Unassigned(40));
    assert_eq!(d.completion(), Some(40));
}

#[test]
fn priority_registers_are_one_word_per_source() {
    assert_eq!(priority_register(0), 0x0C00_0000);
    assert_eq!(priority_register(5), 0x0C00_0014);
    assert_eq!(priority_register(136), 0x0C00_0220);
}

#[test]
fn enable_bitmaps_by_context() {
    assert_eq!(enable_register_base(HartId::Hart0, ExecutionMode::Machine), 0x0C00_2000);
    assert_eq!(enable_register_base(HartId::Hart0, ExecutionMode::Supervisor), 0x0C00_2000);
    assert_eq!(enable_register_base(HartId::Hart1, ExecutionMode::Machine), 0x0C00_2080);
    assert_eq!(enable_register_base(HartId::Hart1, ExecutionMode::Supervisor), 0x0C00_2100);
    assert_eq!(enable_register_base(HartId::Hart4, ExecutionMode::Supervisor), 0x0C00_2400);
    assert_eq!(enable_location(HartId::Hart1, ExecutionMode::Machine, 5), (0x0C00_2080, 5));
    assert_eq!(enable_location(HartId::Hart1, ExecutionMode::Machine, 86), (0x0C00_2088, 22));
    assert_eq!(enable_location(HartId::Hart2, ExecutionMode::Supervisor, 32), (0x0C00_2204, 0));
}

#[test]
fn threshold_and_claim_registers_by_context() {
    assert_eq!(threshold_register(HartId::Hart0, ExecutionMode::Machine), 0x0C20_0000);
    assert_eq!(claim_complete_register(HartId::Hart0, ExecutionMode::Machine), 0x0C20_0004);
    assert_eq!(threshold_register(HartId::Hart1, ExecutionMode::Machine), 0x0C20_1000);
    assert_eq!(claim_complete_register(HartId::Hart1, ExecutionMode::Machine), 0x0C20_1004);
    assert_eq!(claim_complete_register(HartId::Hart1, ExecutionMode::Supervisor), 0x0C20_2004);
    assert_eq!(threshold_register(HartId::Hart4, ExecutionMode::Supervisor), 0x0C20_8000);
}

#[test]
fn threshold_keeps_three_bits() {
    assert_eq!(threshold_value(1), 1);
    assert_eq!(threshold_value(7), 7);
    assert_eq!(threshold_value(9), 1);
}

#[test]
fn set_bit_keeps_other_bits() {
    assert_eq!(with_bit_set(0b1000, 0), 0b1001);
    assert_eq!(with_bit_set(0b1000, 3), 0b1000);
    assert_eq!(with_bit_set(0, 31), 0x8000_0000);
}

#[test]
fn pending_bit_location() {
    assert_eq!(pending_location(1), (0, 2));
    assert_eq!(pending_location(33), (4, 2));
    assert_eq!(pending_location(136), (16, 1 << 8));
}

#[test]
fn priority_levels() {
    assert_eq!(InterruptPriority::from(0), InterruptPriority::Disabled);
    assert_eq!(InterruptPriority::from(7), InterruptPriority::Priority7);
    assert_eq!(InterruptPriority::from(3), InterruptPriority::Priority3);
    assert_eq!(InterruptPriority::from(8), InterruptPriority::Disabled);
    assert_eq!(InterruptPriority::Priority7.level(), 7);
    assert_eq!(InterruptPriority::Disabled.level(), 0);
}

#[test]
fn hart_ids() {
    assert_eq!(HartId::from(1usize), HartId::Hart1);
    assert_eq!(HartId::from(4usize), HartId::Hart4);
    assert_eq!(HartId::from(9usize), HartId::Hart0);
}
