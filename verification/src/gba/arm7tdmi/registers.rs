//! ARM7TDMI operating modes, status-register flag bits and banked registers.
use vstd::prelude::*;

verus! {

/// ARM7TDMI operating modes.
#[derive(Debug, Clone, Copy, PartialEq, Eq, Structural)]
pub enum CpuMode {
    System,
    User,
    Fiq,
    Irq,
    Supervisor,
    Abort,
    Undefined,
}

/// CPSR/SPSR flag bit positions
pub const N_FLAG: u32 = 0x8000_0000;
pub const Z_FLAG: u32 = 0x4000_0000;
pub const C_FLAG: u32 = 0x2000_0000;
pub const V_FLAG: u32 = 0x1000_0000;
pub const I_FLAG: u32 = 0x80;
pub const F_FLAG: u32 = 0x40;
pub const T_FLAG: u32 = 0x20;

/// The mode selected by the five low bits of a status register; reserved
/// encodings read as System.
pub open spec fn mode_of(bits: u32) -> CpuMode {
    let m = bits % 32;
    if m == 0x10 { CpuMode::User }
    else if m == 0x11 { CpuMode::Fiq }
    else if m == 0x12 { CpuMode::Irq }
    else if m == 0x13 { CpuMode::Supervisor }
    else if m == 0x17 { CpuMode::Abort }
    else if m == 0x1B { CpuMode::Undefined }
    else { CpuMode::System }
}

impl CpuMode {
    /// The five mode bits of this mode in a status register.
    pub open spec fn bits_spec(self) -> u32 {
        match self {
            CpuMode::System => 0x1F,
            CpuMode::User => 0x10,
            CpuMode::Fiq => 0x11,
            CpuMode::Irq => 0x12,
            CpuMode::Supervisor => 0x13,
            CpuMode::Abort => 0x17,
            CpuMode::Undefined => 0x1B,
        }
    }

    /// The register bank a mode uses: System and User share bank 0.
    pub open spec fn bank_spec(self) -> int {
        match self {
            CpuMode::System | CpuMode::User => 0,
            CpuMode::Fiq => 1,
            CpuMode::Irq => 2,
            CpuMode::Supervisor => 3,
            CpuMode::Abort => 4,
            CpuMode::Undefined => 5,
        }
    }

    #[verifier::when_used_as_spec(bits_spec)]
    pub fn bits(self) -> (r: u32)
        ensures r == self.bits_spec(),
    {
        match self {
            CpuMode::System => 0x1F,
            CpuMode::User => 0x10,
            CpuMode::Fiq => 0x11,
            CpuMode::Irq => 0x12,
            CpuMode::Supervisor => 0x13,
            CpuMode::Abort => 0x17,
            CpuMode::Undefined => 0x1B,
        }
    }

    pub fn from_bits(bits: u32) -> (r: Self)
        ensures r == mode_of(bits),
    {
        match bits % 32 {
            0x10 => CpuMode::User,
            0x11 => CpuMode::Fiq,
            0x12 => CpuMode::Irq,
            0x13 => CpuMode::Supervisor,
            0x17 => CpuMode::Abort,
            0x1B => CpuMode::Undefined,
            _ => CpuMode::System,
        }
    }

    pub fn bank_index(self) -> (r: usize)
        ensures r == self.bank_spec(),
    {
        match self {
            CpuMode::System | CpuMode::User => 0,
            CpuMode::Fiq => 1,
            CpuMode::Irq => 2,
            CpuMode::Supervisor => 3,
            CpuMode::Abort => 4,
            CpuMode::Undefined => 5,
        }
    }
}

/// A mode's bits decode back to the same mode.
pub proof fn lemma_mode_bits_roundtrip(m: CpuMode)
    ensures mode_of(m.bits_spec()) == m,
{
}

/// Banked registers for each mode.
#[derive(Clone, Copy)]
pub struct BankedRegisters {
    /// R13 (SP) banked per mode (6 banks: Sys/Usr, FIQ, IRQ, SVC, ABT, UND)
    pub r13: [u32; 6],
    /// R14 (LR) banked per mode
    pub r14: [u32; 6],
    /// SPSR banked per mode (index 0 unused — System/User have no SPSR)
    pub spsr: [u32; 6],
    /// R8-R12 FIQ-banked (only FIQ has separate copies)
    pub fiq_r8_r12: [u32; 5],
    /// R8-R12 non-FIQ (shared by all other modes)
    pub usr_r8_r12: [u32; 5],
}

impl BankedRegisters {
    /// The power-on banks: per-mode stack tops, everything else zero.
    pub open spec fn is_reset(self) -> bool {
        &&& self.r13@ == seq![0x03007F00u32, 0x03007F00, 0x03007FA0, 0x03007FE0, 0x03007F00, 0x03007F00]
        &&& self.r14@ == Seq::new(6, |i: int| 0u32)
        &&& self.spsr@ == Seq::new(6, |i: int| 0u32)
        &&& self.fiq_r8_r12@ == Seq::new(5, |i: int| 0u32)
        &&& self.usr_r8_r12@ == Seq::new(5, |i: int| 0u32)
    }

    pub fn new() -> (r: Self)
        ensures r.is_reset(),
    {
        let r = BankedRegisters {
            r13: [0x03007F00, 0x03007F00, 0x03007FA0, 0x03007FE0, 0x03007F00, 0x03007F00],
            r14: [0; 6],
            spsr: [0; 6],
            fiq_r8_r12: [0; 5],
            usr_r8_r12: [0; 5],
        };
        assert(r.r14@ =~= Seq::new(6, |i: int| 0u32));
        assert(r.spsr@ =~= Seq::new(6, |i: int| 0u32));
        assert(r.fiq_r8_r12@ =~= Seq::new(5, |i: int| 0u32));
        assert(r.usr_r8_r12@ =~= Seq::new(5, |i: int| 0u32));
        r
    }
}

} // verus!
