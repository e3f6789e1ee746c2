//! Register addressing: the identifiers by which the host interface names a
//! piece of vCPU state.
//!
//! A register belongs to a group (configuration, core, timer). Each group has
//! a fixed layout of 64-bit fields, and a register is named by the index of
//! its field in that layout, tagged with the group, the architecture and the
//! register width.

use vstd::prelude::*;

verus! {

/// Architecture tag of every RISC-V register identifier.
pub const KVM_REG_RISCV: u64 = 0x8000_0000_0000_0000;

/// Width tag of a 64-bit register.
pub const KVM_REG_SIZE_U64: u64 = 0x0030_0000_0000_0000;

/// Group tag of the configuration registers.
pub const KVM_REG_RISCV_CONFIG: u64 = 0x0100_0000;

/// Group tag of the core registers.
pub const KVM_REG_RISCV_CORE: u64 = 0x0200_0000;

/// Group tag of the timer registers.
pub const KVM_REG_RISCV_TIMER: u64 = 0x0400_0000;

/// Size in bytes of one register of a group's layout.
pub const REG_SIZE: usize = 8;

/// The number of register indices that fit below the group tag.
pub const REG_INDEX_LIMIT: u64 = 0x0100_0000;

/// Storage for registers of different sizes.
#[derive(Debug, Clone, PartialEq, Eq)]
pub struct Riscv64RegisterVec {
    pub ids: Vec<u64>,
    pub data: Vec<u8>,
}

impl Default for Riscv64RegisterVec {
    fn default() -> (r: Self)
        ensures
            r.ids@.len() == 0,
            r.data@.len() == 0,
    {
        Riscv64RegisterVec { ids: Vec::new(), data: Vec::new() }
    }
}

/// A register group.
#[derive(Debug, Clone, Copy, PartialEq, Eq, Structural)]
pub enum RegGroup {
    Config,
    Core,
    Timer,
}

impl RegGroup {
    /// The tag that marks an identifier as belonging to this group.
    pub open spec fn spec_tag(self) -> u64 {
        match self {
            RegGroup::Config => KVM_REG_RISCV_CONFIG,
            RegGroup::Core => KVM_REG_RISCV_CORE,
            RegGroup::Timer => KVM_REG_RISCV_TIMER,
        }
    }

    /// The tag that marks an identifier as belonging to this group.
    #[verifier::when_used_as_spec(spec_tag)]
    pub fn tag(self) -> (t: u64)
        ensures
            t == self.spec_tag(),
    {
        match self {
            RegGroup::Config => KVM_REG_RISCV_CONFIG,
            RegGroup::Core => KVM_REG_RISCV_CORE,
            RegGroup::Timer => KVM_REG_RISCV_TIMER,
        }
    }
}

/// The fields of the configuration group, in layout order.
#[derive(Debug, Clone, Copy, PartialEq, Eq, Structural)]
pub enum ConfigField {
    Isa,
    ZicbomBlockSize,
    Mvendorid,
    Marchid,
    Mimpid,
    ZicbozBlockSize,
    SatpMode,
}

impl ConfigField {
    /// Position of the field in the group's layout.
    pub open spec fn spec_index(self) -> nat {
        match self {
            ConfigField::Isa => 0,
            ConfigField::ZicbomBlockSize => 1,
            ConfigField::Mvendorid => 2,
            ConfigField::Marchid => 3,
            ConfigField::Mimpid => 4,
            ConfigField::ZicbozBlockSize => 5,
            ConfigField::SatpMode => 6,
        }
    }

    /// Byte offset of the field in the group's layout.
    pub fn offset(self) -> (off: usize)
        ensures
            off == 8 * self.spec_index(),
    {
        match self {
            ConfigField::Isa => 0,
            ConfigField::ZicbomBlockSize => 8,
            ConfigField::Mvendorid => 16,
            ConfigField::Marchid => 24,
            ConfigField::Mimpid => 32,
            ConfigField::ZicbozBlockSize => 40,
            ConfigField::SatpMode => 48,
        }
    }
}

/// The fields of the timer group, in layout order.
#[derive(Debug, Clone, Copy, PartialEq, Eq, Structural)]
pub enum TimerField {
    Frequency,
    Time,
    Compare,
    State,
}

impl TimerField {
    /// Position of the field in the group's layout.
    pub open spec fn spec_index(self) -> nat {
        match self {
            TimerField::Frequency => 0,
            TimerField::Time => 1,
            TimerField::Compare => 2,
            TimerField::State => 3,
        }
    }

    /// Byte offset of the field in the group's layout.
    pub fn offset(self) -> (off: usize)
        ensures
            off == 8 * self.spec_index(),
    {
        match self {
            TimerField::Frequency => 0,
            TimerField::Time => 8,
            TimerField::Compare => 16,
            TimerField::State => 24,
        }
    }
}

/// The general-purpose register block, in layout order.
#[derive(Debug, Clone, Copy, PartialEq, Eq, Structural)]
pub enum UserReg {
    Pc,
    Ra,
    Sp,
    Gp,
    Tp,
    T0,
    T1,
    T2,
    S0,
    S1,
    A0,
    A1,
    A2,
    A3,
    A4,
    A5,
    A6,
    A7,
    S2,
    S3,
    S4,
    S5,
    S6,
    S7,
    S8,
    S9,
    S10,
    S11,
    T3,
    T4,
    T5,
    T6,
}

/// Number of registers in the general-purpose register block.
pub const USER_REG_COUNT: usize = 32;

impl UserReg {
    /// Position of the register in the block.
    pub open spec fn spec_index(self) -> nat {
        match self {
            UserReg::Pc => 0,
            UserReg::Ra => 1,
            UserReg::Sp => 2,
            UserReg::Gp => 3,
            UserReg::Tp => 4,
            UserReg::T0 => 5,
            UserReg::T1 => 6,
            UserReg::T2 => 7,
            UserReg::S0 => 8,
            UserReg::S1 => 9,
            UserReg::A0 => 10,
            UserReg::A1 => 11,
            UserReg::A2 => 12,
            UserReg::A3 => 13,
            UserReg::A4 => 14,
            UserReg::A5 => 15,
            UserReg::A6 => 16,
            UserReg::A7 => 17,
            UserReg::S2 => 18,
            UserReg::S3 => 19,
            UserReg::S4 => 20,
            UserReg::S5 => 21,
            UserReg::S6 => 22,
            UserReg::S7 => 23,
            UserReg::S8 => 24,
            UserReg::S9 => 25,
            UserReg::S10 => 26,
            UserReg::S11 => 27,
            UserReg::T3 => 28,
            UserReg::T4 => 29,
            UserReg::T5 => 30,
            UserReg::T6 => 31,
        }
    }

    /// Position of the register in the block.
    pub fn index(self) -> (i: usize)
        ensures
            i == self.spec_index(),
            i < USER_REG_COUNT,
    {
        match self {
            UserReg::Pc => 0,
            UserReg::Ra => 1,
            UserReg::Sp => 2,
            UserReg::Gp => 3,
            UserReg::Tp => 4,
            UserReg::T0 => 5,
            UserReg::T1 => 6,
            UserReg::T2 => 7,
            UserReg::S0 => 8,
            UserReg::S1 => 9,
            UserReg::A0 => 10,
            UserReg::A1 => 11,
            UserReg::A2 => 12,
            UserReg::A3 => 13,
            UserReg::A4 => 14,
            UserReg::A5 => 15,
            UserReg::A6 => 16,
            UserReg::A7 => 17,
            UserReg::S2 => 18,
            UserReg::S3 => 19,
            UserReg::S4 => 20,
            UserReg::S5 => 21,
            UserReg::S6 => 22,
            UserReg::S7 => 23,
            UserReg::S8 => 24,
            UserReg::S9 => 25,
            UserReg::S10 => 26,
            UserReg::S11 => 27,
            UserReg::T3 => 28,
            UserReg::T4 => 29,
            UserReg::T5 => 30,
            UserReg::T6 => 31,
        }
    }

    /// Byte offset of the register in the block.
    pub fn offset(self) -> (off: usize)
        ensures
            off == 8 * self.spec_index(),
    {
        REG_SIZE * self.index()
    }
}

/// The fields of the core group: the general-purpose register block, then the
/// privilege mode.
#[derive(Debug, Clone, Copy, PartialEq, Eq, Structural)]
pub enum CoreField {
    Regs,
    Mode,
}

impl CoreField {
    /// Byte offset of the field in the group's layout.
    pub open spec fn spec_offset(self) -> nat {
        match self {
            CoreField::Regs => 0,
            CoreField::Mode => 256,
        }
    }

    /// Byte offset of the field in the group's layout.
    pub fn offset(self) -> (off: usize)
        ensures
            off == self.spec_offset(),
    {
        match self {
            CoreField::Regs => 0,
            CoreField::Mode => REG_SIZE * USER_REG_COUNT,
        }
    }
}

/// Offset of a field that lies inside an embedded layout: the offset of the
/// embedding field plus the offset of the field inside it.
pub fn nested_offset(outer: usize, inner: usize) -> (off: Option<usize>)
    ensures
        off == if outer + inner <= usize::MAX {
            Some((outer + inner) as usize)
        } else {
            None
        },
{
    outer.checked_add(inner)
}

/// Byte offset, in the core group, of a general-purpose register.
pub fn core_reg_offset(reg: UserReg) -> (off: usize)
    ensures
        off == CoreField::Regs.spec_offset() + 8 * reg.spec_index(),
{
    CoreField::Regs.offset() + reg.offset()
}

/// The identifier of the 64-bit register at byte `offset` of the group tagged
/// `reg_type`.
pub open spec fn spec_reg_id(reg_type: u64, offset: nat) -> u64 {
    KVM_REG_RISCV | reg_type | KVM_REG_SIZE_U64 | ((offset / 8) as u64)
}

/// Computes the identifier of the 64-bit register at byte `offset` of the
/// group tagged `reg_type`.
pub fn riscv64_reg_id(reg_type: u64, offset: usize) -> (id: u64)
    ensures
        id == spec_reg_id(reg_type, offset as nat),
{
    KVM_REG_RISCV | reg_type | KVM_REG_SIZE_U64 | ((offset / REG_SIZE) as u64)
}

/// Identifier of the core register at byte `offset`.
pub fn riscv64_reg_core_id(offset: usize) -> (id: u64)
    ensures
        id == spec_reg_id(KVM_REG_RISCV_CORE, offset as nat),
{
    riscv64_reg_id(KVM_REG_RISCV_CORE, offset)
}

/// Identifier of the configuration register at byte `offset`.
pub fn riscv64_reg_config_id(offset: usize) -> (id: u64)
    ensures
        id == spec_reg_id(KVM_REG_RISCV_CONFIG, offset as nat),
{
    riscv64_reg_id(KVM_REG_RISCV_CONFIG, offset)
}

/// Identifier of the timer register at byte `offset`.
pub fn riscv64_reg_timer_id(offset: usize) -> (id: u64)
    ensures
        id == spec_reg_id(KVM_REG_RISCV_TIMER, offset as nat),
{
    riscv64_reg_id(KVM_REG_RISCV_TIMER, offset)
}

/// Identifier of the register at byte `offset` of `group`.
pub fn reg_id(group: RegGroup, offset: usize) -> (id: u64)
    ensures
        id == spec_reg_id(group.spec_tag(), offset as nat),
{
    riscv64_reg_id(group.tag(), offset)
}

/// An identifier is the four tags and the index joined: for an index below
/// the group tag, the index can be read back from the low bits and the group
/// from the bits above them.
pub proof fn lemma_reg_id_parts(group: RegGroup, offset: nat)
    requires
        offset / 8 < REG_INDEX_LIMIT,
    ensures
        spec_reg_id(group.spec_tag(), offset) & 0x00ff_ffff == offset / 8,
        spec_reg_id(group.spec_tag(), offset) & 0x0700_0000 == group.spec_tag(),
{
    let i: u64 = (offset / 8) as u64;
    assert((0x8000_0000_0000_0000u64 | 0x0100_0000u64 | 0x0030_0000_0000_0000u64 | i)
        & 0x00ff_ffff == i && (0x8000_0000_0000_0000u64 | 0x0100_0000u64
        | 0x0030_0000_0000_0000u64 | i) & 0x0700_0000 == 0x0100_0000u64) by (bit_vector)
        requires
            i < 0x0100_0000u64,
    ;
    assert((0x8000_0000_0000_0000u64 | 0x0200_0000u64 | 0x0030_0000_0000_0000u64 | i)
        & 0x00ff_ffff == i && (0x8000_0000_0000_0000u64 | 0x0200_0000u64
        | 0x0030_0000_0000_0000u64 | i) & 0x0700_0000 == 0x0200_0000u64) by (bit_vector)
        requires
            i < 0x0100_0000u64,
    ;
    assert((0x8000_0000_0000_0000u64 | 0x0400_0000u64 | 0x0030_0000_0000_0000u64 | i)
        & 0x00ff_ffff == i && (0x8000_0000_0000_0000u64 | 0x0400_0000u64
        | 0x0030_0000_0000_0000u64 | i) & 0x0700_0000 == 0x0400_0000u64) by (bit_vector)
        requires
            i < 0x0100_0000u64,
    ;
}

/// Two registers have the same identifier only if they belong to the same
/// group and lie at the same index of its layout.
pub proof fn lemma_reg_id_injective(g1: RegGroup, o1: nat, g2: RegGroup, o2: nat)
    requires
        o1 / 8 < REG_INDEX_LIMIT,
        o2 / 8 < REG_INDEX_LIMIT,
        spec_reg_id(g1.spec_tag(), o1) == spec_reg_id(g2.spec_tag(), o2),
    ensures
        g1 == g2,
        o1 / 8 == o2 / 8,
{
    lemma_reg_id_parts(g1, o1);
    lemma_reg_id_parts(g2, o2);
}

/// Registers at distinct aligned offsets, or in distinct groups, have distinct
/// identifiers.
pub proof fn lemma_reg_id_distinct(g1: RegGroup, o1: nat, g2: RegGroup, o2: nat)
    requires
        o1 % 8 == 0,
        o2 % 8 == 0,
        o1 / 8 < REG_INDEX_LIMIT,
        o2 / 8 < REG_INDEX_LIMIT,
        g1 != g2 || o1 != o2,
    ensures
        spec_reg_id(g1.spec_tag(), o1) != spec_reg_id(g2.spec_tag(), o2),
{
    if spec_reg_id(g1.spec_tag(), o1) == spec_reg_id(g2.spec_tag(), o2) {
        lemma_reg_id_injective(g1, o1, g2, o2);
    }
}

} // verus!
