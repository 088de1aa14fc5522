use dory_pcs::compressed_trace::{
    CompressedRegisterState, CompressingTraceIterator, CompressionConfig, DeltaRegister,
    ExpandedRegisterState, RAMAccessData, RLESegment,
};

#[test]
fn test_delta_register_small() {
    let delta = DeltaRegister::new(100, 105);
    assert!(!delta.is_large);
    assert_eq!(delta.delta, 5);
    assert_eq!(delta.expand(100), 105);
}

#[test]
fn test_delta_register_large() {
    let delta = DeltaRegister::new(0, 0x1_0000_0000);
    assert!(delta.is_large);
    assert_eq!(delta.expand(0), 0x1_0000_0000);
}

#[test]
fn test_delta_register_negative() {
    let delta = DeltaRegister::new(100, 50);
    assert!(!delta.is_large);
    assert_eq!(delta.delta, -50);
    assert_eq!(delta.expand(100), 50);
}

#[test]
fn test_rle_segment() {
    let seg = RLESegment::new(42u32, 5);
    assert_eq!(seg.count(), 5);
    assert_eq!(seg.run_length, 4);
}

#[test]
fn test_delta_register_wraps_through_sign() {
    // u64::MAX reads as -1 and 0 as 0: delta -1, and expansion wraps back.
    let delta = DeltaRegister::new(0, u64::MAX);
    assert_eq!(delta.delta, -1);
    assert!(!delta.is_large);
    assert_eq!(delta.expand(0), u64::MAX);
}

#[test]
fn test_compressed_register_state_update_keeps_deltas() {
    let state = ExpandedRegisterState { rd_old: 10, rd_new: 20, rs1: 0x2_0000_0000, rs2: 7 };
    let c = CompressedRegisterState::new(&state);
    assert_eq!(c.rd_old.delta, 10);
    assert!(c.rs1.is_large);
    let prev = ExpandedRegisterState { rd_old: 1, rd_new: 2, rs1: 3, rs2: 4 };
    let u = c.update(&prev);
    assert_eq!(u, c);
}

#[test]
fn test_compress_cycle_delta_and_ram() {
    let mut it = CompressingTraceIterator::new((), CompressionConfig::default());
    let regs = ExpandedRegisterState { rd_old: 5, rd_new: 9, rs1: 1, rs2: 2 };
    let c1 = it.compress_cycle(regs, RAMAccessData::Write { address: 0x1000, pre_value: 0, post_value: 77 });
    assert_eq!(c1.registers.rd_new.delta, 9);
    assert!(c1.ram_was_accessed);
    assert_eq!(c1.ram_address_delta, 0x1000);
    assert_eq!(c1.ram_value_delta, 77);

    let regs2 = ExpandedRegisterState { rd_old: 9, rd_new: 4, rs1: 1, rs2: 2 };
    let c2 = it.compress_cycle(regs2, RAMAccessData::Read { address: 0x2000, pre_value: 5 });
    assert_eq!(c2.registers.rd_old.delta, 4);
    assert_eq!(c2.registers.rd_new.delta, -5);
    assert_eq!(c2.registers.rs1.delta, 0);
    assert!(!c2.ram_was_accessed);
    assert_eq!(c2.ram_value_delta, 0);

    let c3 = it.compress_cycle(regs2, RAMAccessData::Write { address: 0x0ff8, pre_value: 77, post_value: 70 });
    assert_eq!(c3.ram_address_delta, -8);
    assert_eq!(c3.ram_value_delta, -7);
    assert_eq!(c3.registers.rd_old.expand(9), 9);
}

#[test]
fn test_compress_cycle_without_delta_encoding() {
    let config = CompressionConfig { enable_delta_encoding: false, enable_rle: false, min_rle_length: 2, enable_small_addresses: false };
    let mut it = CompressingTraceIterator::new((), config);
    let regs = ExpandedRegisterState { rd_old: 5, rd_new: 9, rs1: 1, rs2: 2 };
    let _ = it.compress_cycle(regs, RAMAccessData::NoOp);
    let c = it.compress_cycle(regs, RAMAccessData::NoOp);
    assert_eq!(c.registers.rd_old.delta, 5);
    assert_eq!(c.registers.rs2.delta, 2);
}
