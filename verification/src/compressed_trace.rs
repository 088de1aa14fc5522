//! Compressed trace format: delta encoding of register values, run-length
//! segments, and the step that compresses one execution cycle.
use vstd::prelude::*;

verus! {

/// The value of a word read as a two's-complement signed integer.
pub open spec fn signed(x: u64) -> int {
    if x < 0x8000_0000_0000_0000 {
        x as int
    } else {
        x - 0x1_0000_0000_0000_0000
    }
}

/// Whether `current as i64 - previous as i64` fits in an `i64`.
pub open spec fn delta_fits(previous: u64, current: u64) -> bool {
    i64::MIN <= signed(current) - signed(previous) <= i64::MAX
}

/// Absolute value of an integer.
pub open spec fn abs(x: int) -> int {
    if x < 0 { -x } else { x }
}

/// `previous + delta` wrapped to 64 bits.
pub open spec fn add_delta(previous: u64, delta: i64) -> u64 {
    ((previous + delta) % 0x1_0000_0000_0000_0000) as u64
}

/// A register value stored as its difference from the previous value.
#[derive(Clone, Copy, PartialEq, Eq, Structural, Debug)]
pub struct DeltaRegister {
    /// `current - previous`, both read as signed words.
    pub delta: i64,
    /// Whether the difference needs more than 32 bits.
    pub is_large: bool,
}

/// `value as i64`, as a mathematical integer.
proof fn lemma_cast_signed(x: u64, y: i64)
    requires
        y == x as i64,
    ensures
        y == signed(x),
{
    if x >= 0x8000_0000_0000_0000u64 {
        assert(y == x - 0x1_0000_0000_0000_0000) by (bit_vector)
            requires
                y == x as i64,
                x >= 0x8000_0000_0000_0000u64,
        ;
    }
}

impl DeltaRegister {
    /// Encodes `current` relative to `previous`.
    pub fn new(previous: u64, current: u64) -> (r: Self)
        requires
            delta_fits(previous, current),
        ensures
            r.delta == signed(current) - signed(previous),
            r.is_large == (abs(r.delta as int) > u32::MAX),
    {
        let c = current as i64;
        let p = previous as i64;
        proof {
            lemma_cast_signed(current, c);
            lemma_cast_signed(previous, p);
        }
        let delta = c - p;
        let magnitude: u64 = if delta >= 0 {
            delta as u64
        } else {
            (0i128 - delta as i128) as u64
        };
        let is_large = magnitude > u32::MAX as u64;
        Self { delta, is_large }
    }

    /// The value this delta encodes, relative to `previous`.
    pub open spec fn spec_expand(&self, previous: u64) -> u64 {
        add_delta(previous, self.delta)
    }

    /// Decodes the value: `previous + delta`, wrapping.
    pub fn expand(&self, previous: u64) -> (r: u64)
        ensures
            r == self.spec_expand(previous),
    {
        previous.wrapping_add_signed(self.delta)
    }
}

impl Default for DeltaRegister {
    fn default() -> (r: Self)
        ensures
            r.delta == 0,
            !r.is_large,
    {
        Self { delta: 0, is_large: false }
    }
}

/// Expanding a fresh encoding recovers the encoded value.
pub proof fn lemma_delta_roundtrip(previous: u64, current: u64)
    requires
        delta_fits(previous, current),
    ensures
        add_delta(previous, (signed(current) - signed(previous)) as i64) == current,
{
}

/// Register values of one cycle, each delta-encoded.
#[derive(Clone, Copy, PartialEq, Eq, Structural, Debug)]
pub struct CompressedRegisterState {
    pub rd_old: DeltaRegister,
    pub rd_new: DeltaRegister,
    pub rs1: DeltaRegister,
    pub rs2: DeltaRegister,
}

/// Register values of one cycle in full.
#[derive(Clone, Copy, PartialEq, Eq, Structural, Debug)]
pub struct ExpandedRegisterState {
    pub rd_old: u64,
    pub rd_new: u64,
    pub rs1: u64,
    pub rs2: u64,
}

impl Default for ExpandedRegisterState {
    fn default() -> (r: Self)
        ensures
            r.rd_old == 0 && r.rd_new == 0 && r.rs1 == 0 && r.rs2 == 0,
    {
        Self { rd_old: 0, rd_new: 0, rs1: 0, rs2: 0 }
    }
}

impl Default for CompressedRegisterState {
    fn default() -> (r: Self)
        ensures
            r.rd_old.delta == 0 && r.rd_new.delta == 0 && r.rs1.delta == 0 && r.rs2.delta == 0,
            !r.rd_old.is_large && !r.rd_new.is_large && !r.rs1.is_large && !r.rs2.is_large,
    {
        Self {
            rd_old: DeltaRegister::default(),
            rd_new: DeltaRegister::default(),
            rs1: DeltaRegister::default(),
            rs2: DeltaRegister::default(),
        }
    }
}

/// Whether adding `delta` to `previous`, both read as signed, stays within `i64`.
pub open spec fn reencode_fits(previous: u64, delta: i64) -> bool {
    i64::MIN <= signed(previous) + delta <= i64::MAX
}

/// Re-encoding keeps the delta when the signed sum does not wrap.
proof fn lemma_reencode(previous: u64, delta: i64)
    requires
        reencode_fits(previous, delta),
    ensures
        delta_fits(previous, add_delta(previous, delta)),
        signed(add_delta(previous, delta)) - signed(previous) == delta,
{
}

impl CompressedRegisterState {
    /// Encodes every value of `previous` relative to zero.
    pub fn new(previous: &ExpandedRegisterState) -> (r: Self)
        ensures
            r.rd_old.delta == signed(previous.rd_old),
            r.rd_new.delta == signed(previous.rd_new),
            r.rs1.delta == signed(previous.rs1),
            r.rs2.delta == signed(previous.rs2),
            r.rd_old.is_large == (abs(r.rd_old.delta as int) > u32::MAX),
            r.rd_new.is_large == (abs(r.rd_new.delta as int) > u32::MAX),
            r.rs1.is_large == (abs(r.rs1.delta as int) > u32::MAX),
            r.rs2.is_large == (abs(r.rs2.delta as int) > u32::MAX),
    {
        Self {
            rd_old: DeltaRegister::new(0, previous.rd_old),
            rd_new: DeltaRegister::new(0, previous.rd_new),
            rs1: DeltaRegister::new(0, previous.rs1),
            rs2: DeltaRegister::new(0, previous.rs2),
        }
    }

    /// Decodes every register against `previous` and encodes it again.
    pub fn update(&self, previous: &ExpandedRegisterState) -> (r: Self)
        requires
            reencode_fits(previous.rd_old, self.rd_old.delta),
            reencode_fits(previous.rd_new, self.rd_new.delta),
            reencode_fits(previous.rs1, self.rs1.delta),
            reencode_fits(previous.rs2, self.rs2.delta),
        ensures
            r.rd_old.delta == self.rd_old.delta,
            r.rd_new.delta == self.rd_new.delta,
            r.rs1.delta == self.rs1.delta,
            r.rs2.delta == self.rs2.delta,
            r.rd_old.is_large == (abs(r.rd_old.delta as int) > u32::MAX),
            r.rd_new.is_large == (abs(r.rd_new.delta as int) > u32::MAX),
            r.rs1.is_large == (abs(r.rs1.delta as int) > u32::MAX),
            r.rs2.is_large == (abs(r.rs2.delta as int) > u32::MAX),
    {
        proof {
            lemma_reencode(previous.rd_old, self.rd_old.delta);
            lemma_reencode(previous.rd_new, self.rd_new.delta);
            lemma_reencode(previous.rs1, self.rs1.delta);
            lemma_reencode(previous.rs2, self.rs2.delta);
        }
        Self {
            rd_old: DeltaRegister::new(previous.rd_old, self.rd_old.expand(previous.rd_old)),
            rd_new: DeltaRegister::new(previous.rd_new, self.rd_new.expand(previous.rd_new)),
            rs1: DeltaRegister::new(previous.rs1, self.rs1.expand(previous.rs1)),
            rs2: DeltaRegister::new(previous.rs2, self.rs2.expand(previous.rs2)),
        }
    }
}

/// A value repeated `run_length + 1` times.
#[derive(Clone, Debug)]
pub struct RLESegment<T> {
    pub value: T,
    /// Number of repetitions minus one.
    pub run_length: u32,
}

impl<T> RLESegment<T> {
    /// A run of `count` copies of `value`; the stored length is `count - 1`
    /// truncated to 32 bits.
    pub fn new(value: T, count: usize) -> (r: Self)
        requires
            count >= 1,
        ensures
            r.value == value,
            r.run_length == (count - 1) % 0x1_0000_0000,
    {
        let len = (count - 1) as u32;
        assert(len == (count - 1) % 0x1_0000_0000) by (bit_vector)
            requires
                len == (count - 1) as u32,
                count >= 1,
        ;
        Self { value, run_length: len }
    }

    /// Number of repetitions.
    pub fn count(&self) -> (r: usize)
        requires
            self.run_length < u32::MAX,
        ensures
            r == self.run_length + 1,
    {
        (self.run_length + 1) as usize
    }
}

/// A run built from a count in range reports that count back.
pub proof fn lemma_rle_count_roundtrip(count: int)
    requires
        1 <= count <= 0x1_0000_0000,
    ensures
        (count - 1) % 0x1_0000_0000 + 1 == count,
        (count - 1) % 0x1_0000_0000 < u32::MAX || count == 0x1_0000_0000,
{
}

/// One compressed execution cycle.
#[derive(Clone, Copy, PartialEq, Eq, Structural, Debug)]
pub struct CompressedCycle {
    pub registers: CompressedRegisterState,
    /// Low 32 bits of the written address minus those of the previous one, wrapping.
    pub ram_address_delta: i32,
    /// Written value minus the previously written value, both read as signed.
    pub ram_value_delta: i64,
    pub ram_was_accessed: bool,
}

/// Which encodings the compressor applies.
#[derive(Clone, Copy, Debug)]
pub struct CompressionConfig {
    pub enable_delta_encoding: bool,
    pub enable_rle: bool,
    /// Shortest run that is run-length encoded.
    pub min_rle_length: usize,
    pub enable_small_addresses: bool,
}

impl Default for CompressionConfig {
    fn default() -> (r: Self)
        ensures
            r.enable_delta_encoding,
            r.enable_rle,
            r.min_rle_length == 2,
            r.enable_small_addresses,
    {
        Self { enable_delta_encoding: true, enable_rle: true, min_rle_length: 2, enable_small_addresses: true }
    }
}

/// The memory access of a cycle, as the compressor sees it.
#[derive(Clone, Copy, PartialEq, Eq, Structural, Debug)]
pub enum RAMAccessData {
    Read { address: u64, pre_value: u64 },
    Write { address: u64, pre_value: u64, post_value: u64 },
    NoOp,
}

impl RAMAccessData {
    /// Whether the access is a write.
    pub fn is_write(&self) -> (b: bool)
        ensures
            b == (*self is Write),
    {
        match self {
            RAMAccessData::Write { .. } => true,
            _ => false,
        }
    }

    /// The accessed address, zero for no access.
    pub fn address(&self) -> (r: u64)
        ensures
            r == match *self {
                RAMAccessData::Read { address, .. } => address,
                RAMAccessData::Write { address, .. } => address,
                RAMAccessData::NoOp => 0u64,
            },
    {
        match self {
            RAMAccessData::Read { address, .. } => *address,
            RAMAccessData::Write { address, .. } => *address,
            RAMAccessData::NoOp => 0,
        }
    }

    /// The value in memory after the access (the read value for reads), zero for no access.
    pub fn post_value(&self) -> (r: u64)
        ensures
            r == match *self {
                RAMAccessData::Read { pre_value, .. } => pre_value,
                RAMAccessData::Write { post_value, .. } => post_value,
                RAMAccessData::NoOp => 0u64,
            },
    {
        match self {
            RAMAccessData::Read { pre_value, .. } => *pre_value,
            RAMAccessData::Write { post_value, .. } => *post_value,
            RAMAccessData::NoOp => 0,
        }
    }
}

/// Compresses a trace cycle by cycle, remembering what it needs of the
/// previous cycle; `inner` is the source of cycles.
pub struct CompressingTraceIterator<I> {
    inner: I,
    previous_registers: ExpandedRegisterState,
    previous_ram_address: u64,
    previous_ram_value: u64,
    config: CompressionConfig,
}

/// Whether every delta the compressor may form for `cur` fits in an `i64`.
pub open spec fn registers_fit(previous: ExpandedRegisterState, cur: ExpandedRegisterState, delta_encoding: bool) -> bool {
    if delta_encoding {
        &&& delta_fits(previous.rd_old, cur.rd_old)
        &&& delta_fits(previous.rd_new, cur.rd_new)
        &&& delta_fits(previous.rs1, cur.rs1)
        &&& delta_fits(previous.rs2, cur.rs2)
    } else {
        true
    }
}

/// The register value a delta was formed against.
pub open spec fn base_of(previous: u64, delta_encoding: bool) -> u64 {
    if delta_encoding { previous } else { 0 }
}

impl<I> CompressingTraceIterator<I> {
    /// A compressor over `inner`, starting from an all-zero previous state.
    pub fn new(inner: I, config: CompressionConfig) -> (r: Self)
        ensures
            r.spec_previous_registers() == (ExpandedRegisterState { rd_old: 0, rd_new: 0, rs1: 0, rs2: 0 }),
            r.spec_previous_ram_address() == 0,
            r.spec_previous_ram_value() == 0,
            r.spec_config() == config,
    {
        Self {
            inner,
            previous_registers: ExpandedRegisterState::default(),
            previous_ram_address: 0,
            previous_ram_value: 0,
            config,
        }
    }

    pub closed spec fn spec_previous_registers(&self) -> ExpandedRegisterState {
        self.previous_registers
    }

    pub closed spec fn spec_previous_ram_address(&self) -> u64 {
        self.previous_ram_address
    }

    pub closed spec fn spec_previous_ram_value(&self) -> u64 {
        self.previous_ram_value
    }

    pub closed spec fn spec_config(&self) -> CompressionConfig {
        self.config
    }

    /// Compresses one cycle with register values `registers` and memory
    /// access `ram`, and remembers them for the next cycle.
    pub fn compress_cycle(&mut self, registers: ExpandedRegisterState, ram: RAMAccessData) -> (r: CompressedCycle)
        requires
            registers_fit(old(self).spec_previous_registers(), registers, old(self).spec_config().enable_delta_encoding),
            ram is Write ==> delta_fits(old(self).spec_previous_ram_value(), ram->Write_post_value),
        ensures
            ({
                let de = old(self).spec_config().enable_delta_encoding;
                let prev = old(self).spec_previous_registers();
                &&& r.registers.rd_old.spec_expand(base_of(prev.rd_old, de)) == registers.rd_old
                &&& r.registers.rd_new.spec_expand(base_of(prev.rd_new, de)) == registers.rd_new
                &&& r.registers.rs1.spec_expand(base_of(prev.rs1, de)) == registers.rs1
                &&& r.registers.rs2.spec_expand(base_of(prev.rs2, de)) == registers.rs2
                &&& r.registers.rd_old.delta == signed(registers.rd_old) - signed(base_of(prev.rd_old, de))
                &&& r.registers.rd_new.delta == signed(registers.rd_new) - signed(base_of(prev.rd_new, de))
                &&& r.registers.rs1.delta == signed(registers.rs1) - signed(base_of(prev.rs1, de))
                &&& r.registers.rs2.delta == signed(registers.rs2) - signed(base_of(prev.rs2, de))
                &&& r.registers.rd_old.is_large == (abs(r.registers.rd_old.delta as int) > u32::MAX)
                &&& r.registers.rd_new.is_large == (abs(r.registers.rd_new.delta as int) > u32::MAX)
                &&& r.registers.rs1.is_large == (abs(r.registers.rs1.delta as int) > u32::MAX)
                &&& r.registers.rs2.is_large == (abs(r.registers.rs2.delta as int) > u32::MAX)
            }),
            r.ram_was_accessed == (ram is Write),
            ram is Write ==> r.ram_address_delta == vstd::wrapping::i32_specs::wrapping_sub(
                ram->Write_address as i32,
                old(self).spec_previous_ram_address() as i32,
            ),
            ram is Write ==> r.ram_value_delta == signed(ram->Write_post_value) - signed(old(self).spec_previous_ram_value()),
            ram is Write ==> add_delta(old(self).spec_previous_ram_value(), r.ram_value_delta) == ram->Write_post_value,
            !(ram is Write) ==> r.ram_address_delta == 0 && r.ram_value_delta == 0,
            final(self).spec_previous_registers() == registers,
            final(self).spec_config() == old(self).spec_config(),
            ram is Write ==> final(self).spec_previous_ram_address() == ram->Write_address,
            ram is Write ==> final(self).spec_previous_ram_value() == ram->Write_post_value,
            !(ram is Write) ==> final(self).spec_previous_ram_address() == old(self).spec_previous_ram_address(),
            !(ram is Write) ==> final(self).spec_previous_ram_value() == old(self).spec_previous_ram_value(),
    {
        let prev = self.previous_registers;
        let regs = if self.config.enable_delta_encoding {
            CompressedRegisterState {
                rd_old: DeltaRegister::new(prev.rd_old, registers.rd_old),
                rd_new: DeltaRegister::new(prev.rd_new, registers.rd_new),
                rs1: DeltaRegister::new(prev.rs1, registers.rs1),
                rs2: DeltaRegister::new(prev.rs2, registers.rs2),
            }
        } else {
            CompressedRegisterState {
                rd_old: DeltaRegister::new(0, registers.rd_old),
                rd_new: DeltaRegister::new(0, registers.rd_new),
                rs1: DeltaRegister::new(0, registers.rs1),
                rs2: DeltaRegister::new(0, registers.rs2),
            }
        };
        let (ram_address_delta, ram_value_delta, ram_was_accessed) = if ram.is_write() {
            let addr = ram.address();
            let post_value = ram.post_value();
            let pv = post_value as i64;
            let prevv = self.previous_ram_value as i64;
            proof {
                lemma_cast_signed(post_value, pv);
                lemma_cast_signed(self.previous_ram_value, prevv);
            }
            ((addr as i32).wrapping_sub(self.previous_ram_address as i32), pv - prevv, true)
        } else {
            (0i32, 0i64, false)
        };
        self.previous_registers = registers;
        if ram_was_accessed {
            self.previous_ram_address = ram.address();
            self.previous_ram_value = ram.post_value();
        }
        CompressedCycle { registers: regs, ram_address_delta, ram_value_delta, ram_was_accessed }
    }
}

} // verus!
