//! GBA cartridge backup detection and Flash/EEPROM/SRAM handling.
//!
//! Backup type is detected by scanning the ROM for identification strings:
//! - "SRAM_V" → 32 KB SRAM (byte-addressed at 0x0E000000)
//! - "FLASH_V" / "FLASH512_V" → 64 KB Flash
//! - "FLASH1M_V" → 128 KB Flash
//! - "EEPROM_V" → 512B or 8KB EEPROM (serial access)
use vstd::prelude::*;

verus! {

#[derive(Debug, Clone, Copy, PartialEq, Eq, Structural)]
pub enum BackupType {
    NoBackup,
    /// 32 KB, byte access
    Sram,
    /// 64 KB, command protocol
    Flash64,
    /// 128 KB, command protocol
    Flash128,
    /// 512 bytes, serial
    Eeprom512,
    /// 8 KB, serial
    Eeprom8K,
}

#[derive(Debug, Clone, Copy, PartialEq, Eq, Structural)]
pub enum EepromState {
    Idle,
    ReadingCommand,
    ReadReady,
    WritingData,
}

#[derive(Debug, Clone, Copy, PartialEq, Eq, Structural)]
pub enum FlashState {
    Ready,
    /// Received 0xAA at 0x5555
    Cmd1,
    /// Received 0x55 at 0x2AAA
    Cmd2,
    /// Chip identification mode
    IdMode,
    /// Waiting for erase command
    Erase,
    /// Single byte write mode
    Write,
    /// Bank select (128 KB only)
    BankSel,
}

pub struct Cartridge {
    pub backup_type: BackupType,
    pub sram: Vec<u8>,
    pub flash_state: FlashState,
    /// 0 or 1 (for 128 KB)
    pub flash_bank: usize,
    /// Set when save data is modified
    pub dirty: bool,
    /// EEPROM: shift register for incoming bits
    pub eeprom_bits_in: u64,
    /// EEPROM: how many bits received so far
    pub eeprom_bit_count: u8,
    pub eeprom_state: EepromState,
    /// EEPROM: data being clocked out on reads
    pub eeprom_read_data: u64,
    /// EEPROM: current read bit position (counts down from 68)
    pub eeprom_read_pos: u8,
}

/// The cartridge as the specifications see it: the backup memory as a sequence.
pub struct CartView {
    pub backup_type: BackupType,
    pub sram: Seq<u8>,
    pub flash_state: FlashState,
    pub flash_bank: usize,
    pub dirty: bool,
    pub eeprom_bits_in: u64,
    pub eeprom_bit_count: u8,
    pub eeprom_state: EepromState,
    pub eeprom_read_data: u64,
    pub eeprom_read_pos: u8,
}

impl View for Cartridge {
    type V = CartView;

    open spec fn view(&self) -> CartView {
        CartView {
            backup_type: self.backup_type,
            sram: self.sram@,
            flash_state: self.flash_state,
            flash_bank: self.flash_bank,
            dirty: self.dirty,
            eeprom_bits_in: self.eeprom_bits_in,
            eeprom_bit_count: self.eeprom_bit_count,
            eeprom_state: self.eeprom_state,
            eeprom_read_data: self.eeprom_read_data,
            eeprom_read_pos: self.eeprom_read_pos,
        }
    }
}

/// Backup memory size of each backup type.
pub open spec fn backup_size(bt: BackupType) -> int {
    match bt {
        BackupType::NoBackup => 0,
        BackupType::Sram => 0x8000,
        BackupType::Flash64 => 0x10000,
        BackupType::Flash128 => 0x20000,
        BackupType::Eeprom512 => 0x200,
        BackupType::Eeprom8K => 0x2000,
    }
}

/// Whether `needle` occurs as a contiguous run in `rom`.
pub open spec fn contains_spec(rom: Seq<u8>, needle: Seq<u8>) -> bool {
    exists|i: int| 0 <= i && i + needle.len() <= rom.len() && #[trigger] rom.subrange(i, i + needle.len()) == needle
}

/// "FLASH1M_V", "FLASH_V", "FLASH512_V", "SRAM_V", "SRAM_F_V", "EEPROM_V".
pub open spec fn id_flash1m() -> Seq<u8> { seq![0x46u8, 0x4C, 0x41, 0x53, 0x48, 0x31, 0x4D, 0x5F, 0x56] }
pub open spec fn id_flash() -> Seq<u8> { seq![0x46u8, 0x4C, 0x41, 0x53, 0x48, 0x5F, 0x56] }
pub open spec fn id_flash512() -> Seq<u8> { seq![0x46u8, 0x4C, 0x41, 0x53, 0x48, 0x35, 0x31, 0x32, 0x5F, 0x56] }
pub open spec fn id_sram() -> Seq<u8> { seq![0x53u8, 0x52, 0x41, 0x4D, 0x5F, 0x56] }
pub open spec fn id_sram_f() -> Seq<u8> { seq![0x53u8, 0x52, 0x41, 0x4D, 0x5F, 0x46, 0x5F, 0x56] }
pub open spec fn id_eeprom() -> Seq<u8> { seq![0x45u8, 0x45, 0x50, 0x52, 0x4F, 0x4D, 0x5F, 0x56] }

/// The backup type a ROM announces; an EEPROM in a ROM over 16 MB is the 8 KB part.
pub open spec fn detect_spec(rom: Seq<u8>) -> BackupType {
    if contains_spec(rom, id_flash1m()) {
        BackupType::Flash128
    } else if contains_spec(rom, id_flash()) || contains_spec(rom, id_flash512()) {
        BackupType::Flash64
    } else if contains_spec(rom, id_sram()) || contains_spec(rom, id_sram_f()) {
        BackupType::Sram
    } else if contains_spec(rom, id_eeprom()) {
        if rom.len() > 0x100_0000 { BackupType::Eeprom8K } else { BackupType::Eeprom512 }
    } else {
        BackupType::NoBackup
    }
}

/// Number of address bits in an EEPROM command.
pub open spec fn eeprom_addr_bits(bt: BackupType) -> u8 {
    if bt == BackupType::Eeprom8K { 14 } else { 6 }
}

/// The byte at `i`, or 0xFF past the end.
pub open spec fn byte_or_ff(s: Seq<u8>, i: int) -> u8 {
    if 0 <= i < s.len() { s[i] } else { 0xFF }
}

/// The 64-bit word stored big-endian in the first `n` bytes at `addr`.
pub open spec fn eeprom_word(s: Seq<u8>, addr: int, n: nat) -> u64
    decreases n,
{
    if n == 0 { 0 } else { ((eeprom_word(s, addr, (n - 1) as nat) << 8u64) | (byte_or_ff(s, addr + n - 1) as u64)) }
}

/// `s` with the 8 bytes of `data` stored big-endian at `addr`; bytes past
/// the end are dropped.
pub open spec fn store_word(s: Seq<u8>, addr: int, data: u64) -> Seq<u8> {
    Seq::new(s.len(), |k: int| if addr <= k < addr + 8 { ((data >> ((56 - (k - addr) * 8) as u64)) & 0xFF) as u8 } else { s[k] })
}

impl CartView {
    /// The byte a read at `addr` in the backup region returns.
    pub open spec fn read_spec(self, addr: u32) -> u8 {
        let offset = addr % 0x10000;
        match self.backup_type {
            BackupType::Sram => byte_or_ff(self.sram, (offset % 0x8000) as int),
            BackupType::Flash64 => {
                if self.flash_state == FlashState::IdMode {
                    if offset == 0 { 0xBF } else if offset == 1 { 0xD4 } else { 0 }
                } else {
                    byte_or_ff(self.sram, offset as int)
                }
            },
            BackupType::Flash128 => {
                if self.flash_state == FlashState::IdMode {
                    if offset == 0 { 0x62 } else if offset == 1 { 0x13 } else { 0 }
                } else {
                    byte_or_ff(self.sram, self.flash_bank * 0x10000 + offset)
                }
            },
            BackupType::Eeprom512 | BackupType::Eeprom8K => 1,
            BackupType::NoBackup => 0xFF,
        }
    }

    /// The Flash command state machine on a write of `val` at `offset`.
    pub open spec fn flash_write_spec(self, offset: int, val: u8) -> CartView {
        let s = self;
        match s.flash_state {
            FlashState::Ready => {
                if offset == 0x5555 && val == 0xAA { CartView { flash_state: FlashState::Cmd1, ..s } } else { s }
            },
            FlashState::Cmd1 => {
                if offset == 0x2AAA && val == 0x55 { CartView { flash_state: FlashState::Cmd2, ..s } }
                else { CartView { flash_state: FlashState::Ready, ..s } }
            },
            FlashState::Cmd2 => {
                let next = if offset != 0x5555 { FlashState::Ready }
                    else if val == 0x90 { FlashState::IdMode }
                    else if val == 0x80 { FlashState::Erase }
                    else if val == 0xA0 { FlashState::Write }
                    else if val == 0xB0 && s.backup_type == BackupType::Flash128 { FlashState::BankSel }
                    else { FlashState::Ready };
                CartView { flash_state: next, ..s }
            },
            FlashState::IdMode => {
                if offset == 0x5555 && val == 0xAA { CartView { flash_state: FlashState::Cmd1, ..s } }
                else if val == 0xF0 { CartView { flash_state: FlashState::Ready, ..s } }
                else { s }
            },
            FlashState::Erase => {
                if offset == 0x5555 && val == 0xAA {
                    CartView { flash_state: FlashState::Cmd1, ..s }
                } else if val == 0x30 {
                    // Sector erase (4 KB)
                    let sector = (offset / 0x1000) * 0x1000 + s.flash_bank * 0x10000;
                    if sector < s.sram.len() {
                        CartView {
                            sram: Seq::new(s.sram.len(), |k: int| if sector <= k < sector + 0x1000 { 0xFFu8 } else { s.sram[k] }),
                            dirty: true,
                            flash_state: FlashState::Ready,
                            ..s
                        }
                    } else {
                        CartView { flash_state: FlashState::Ready, ..s }
                    }
                } else if offset == 0x5555 && val == 0x10 {
                    // Full chip erase
                    CartView { sram: Seq::new(s.sram.len(), |k: int| 0xFFu8), dirty: true, flash_state: FlashState::Ready, ..s }
                } else {
                    CartView { flash_state: FlashState::Ready, ..s }
                }
            },
            FlashState::Write => {
                let pos = s.flash_bank * 0x10000 + offset;
                if pos < s.sram.len() {
                    CartView { sram: s.sram.update(pos, val), dirty: true, flash_state: FlashState::Ready, ..s }
                } else {
                    CartView { flash_state: FlashState::Ready, ..s }
                }
            },
            FlashState::BankSel => {
                if offset == 0 {
                    CartView { flash_bank: (val % 2) as usize, flash_state: FlashState::Ready, ..s }
                } else {
                    CartView { flash_state: FlashState::Ready, ..s }
                }
            },
        }
    }

    /// The cartridge after a byte write at `addr` in the backup region.
    pub open spec fn write_spec(self, addr: u32, val: u8) -> CartView {
        let offset = addr % 0x10000;
        match self.backup_type {
            BackupType::Sram => {
                let idx = offset % 0x8000;
                if idx < self.sram.len() { CartView { sram: self.sram.update(idx as int, val), dirty: true, ..self } } else { self }
            },
            BackupType::Flash64 | BackupType::Flash128 => self.flash_write_spec(offset as int, val),
            _ => self,
        }
    }

    /// The cartridge and the bit clocked out by one EEPROM read: 4 dummy
    /// zeros, then the 64 data bits MSB first, then the sequence ends.
    pub open spec fn eeprom_read_spec(self) -> (CartView, u8) {
        if self.eeprom_state != EepromState::ReadReady {
            (self, 1)
        } else if self.eeprom_read_pos > 64 {
            (CartView { eeprom_read_pos: (self.eeprom_read_pos - 1) as u8, ..self }, 0)
        } else if self.eeprom_read_pos > 0 {
            (CartView { eeprom_read_pos: (self.eeprom_read_pos - 1) as u8, ..self },
                ((self.eeprom_read_data >> ((self.eeprom_read_pos - 1) as u64)) & 1) as u8)
        } else {
            (CartView { eeprom_state: EepromState::Idle, eeprom_bit_count: 0, eeprom_bits_in: 0, ..self }, 1)
        }
    }

    /// The cartridge after one bit is clocked into the EEPROM: a start bit,
    /// a two-bit opcode and an address select a read (10) or a write (01);
    /// a write then takes 64 data bits, MSB first.
    pub open spec fn eeprom_write_spec(self, bit_in: u8) -> CartView {
        let bit = (bit_in % 2) as u64;
        let ab = eeprom_addr_bits(self.backup_type);
        let idle = CartView { eeprom_state: EepromState::Idle, eeprom_bit_count: 0, eeprom_bits_in: 0, ..self };
        match self.eeprom_state {
            EepromState::Idle => {
                if bit == 1 {
                    CartView { eeprom_bits_in: 1, eeprom_bit_count: 1, eeprom_state: EepromState::ReadingCommand, ..self }
                } else {
                    self
                }
            },
            EepromState::ReadingCommand => {
                let bits = (self.eeprom_bits_in << 1u64) | bit;
                let count = (self.eeprom_bit_count + 1) as u8;
                if count == 3 + ab {
                    let opcode = (bits >> (ab as u64)) & 3;
                    let byte_addr = ((bits as int) % pow2_64(ab as nat)) * 8;
                    if opcode == 2 {
                        CartView { eeprom_read_data: eeprom_word(self.sram, byte_addr as int, 8), eeprom_read_pos: 68,
                            eeprom_state: EepromState::ReadReady, eeprom_bit_count: 0, eeprom_bits_in: 0, ..self }
                    } else if opcode == 1 {
                        CartView { eeprom_bits_in: byte_addr as u64, eeprom_bit_count: 0, eeprom_state: EepromState::WritingData, ..self }
                    } else {
                        idle
                    }
                } else {
                    CartView { eeprom_bits_in: bits, eeprom_bit_count: count, ..self }
                }
            },
            EepromState::WritingData => {
                let data = (self.eeprom_read_data << 1u64) | bit;
                let count = (self.eeprom_bit_count + 1) as u8;
                if count == 64 {
                    CartView { sram: store_word(self.sram, self.eeprom_bits_in as int, data), dirty: true,
                        eeprom_read_data: 0, ..idle }
                } else {
                    CartView { eeprom_read_data: data, eeprom_bit_count: count, ..self }
                }
            },
            EepromState::ReadReady => idle,
        }
    }

    /// The invariant the cartridge keeps: the backup memory has its type's
    /// size, the Flash bank is 0 or 1, and the EEPROM counters stay in range.
    pub open spec fn wf(self) -> bool {
        &&& self.sram.len() == backup_size(self.backup_type)
        &&& self.flash_bank <= 1
        &&& self.eeprom_state == EepromState::ReadingCommand ==> 1 <= self.eeprom_bit_count < 3 + eeprom_addr_bits(self.backup_type)
        &&& self.eeprom_state == EepromState::ReadingCommand ==> self.eeprom_bits_in < pow2_64(self.eeprom_bit_count as nat)
        &&& self.eeprom_state == EepromState::WritingData ==> self.eeprom_bit_count < 64 && self.eeprom_bits_in < 0x20000
        &&& self.eeprom_read_pos <= 68
    }
}

pub open spec fn pow2_64(n: nat) -> int
    decreases n,
{
    if n == 0 { 1 } else { 2 * pow2_64((n - 1) as nat) }
}

/// Whether `needle` occurs in `rom`.
fn contains(rom: &[u8], needle: &[u8]) -> (r: bool)
    ensures r == contains_spec(rom@, needle@),
{
    let n = needle.len();
    if n > rom.len() {
        assert(!contains_spec(rom@, needle@));
        return false;
    }
    let mut i: usize = 0;
    while i <= rom.len() - n
        invariant
            n == needle.len(),
            n <= rom.len(),
            i <= rom.len() - n + 1,
            forall|j: int| 0 <= j < i ==> #[trigger] rom@.subrange(j, j + n) != needle@,
        decreases rom.len() - i,
    {
        let mut k: usize = 0;
        let mut same = true;
        while k < n
            invariant
                n == needle.len(),
                i + n <= rom.len(),
                k <= n,
                same == (forall|m: int| 0 <= m < k ==> rom@[i + m] == needle@[m]),
            decreases n - k,
        {
            if rom[i + k] != needle[k] {
                same = false;
            }
            k += 1;
        }
        if same {
            assert(rom@.subrange(i as int, i + n) =~= needle@);
            return true;
        }
        assert(rom@.subrange(i as int, i + n)[(choose|m: int| 0 <= m < n && rom@[i + m] != needle@[m])] != needle@[(choose|m: int| 0 <= m < n && rom@[i + m] != needle@[m])]);
        i += 1;
    }
    false
}

/// Detect backup type by scanning ROM for identification strings.
fn detect_backup_type(rom: &[u8]) -> (r: BackupType)
    ensures r == detect_spec(rom@),
{
    let flash1m: [u8; 9] = [0x46, 0x4C, 0x41, 0x53, 0x48, 0x31, 0x4D, 0x5F, 0x56];
    let flash: [u8; 7] = [0x46, 0x4C, 0x41, 0x53, 0x48, 0x5F, 0x56];
    let flash512: [u8; 10] = [0x46, 0x4C, 0x41, 0x53, 0x48, 0x35, 0x31, 0x32, 0x5F, 0x56];
    let sram: [u8; 6] = [0x53, 0x52, 0x41, 0x4D, 0x5F, 0x56];
    let sram_f: [u8; 8] = [0x53, 0x52, 0x41, 0x4D, 0x5F, 0x46, 0x5F, 0x56];
    let eeprom: [u8; 8] = [0x45, 0x45, 0x50, 0x52, 0x4F, 0x4D, 0x5F, 0x56];
    assert(flash1m@ =~= id_flash1m());
    assert(flash@ =~= id_flash());
    assert(flash512@ =~= id_flash512());
    assert(sram@ =~= id_sram());
    assert(sram_f@ =~= id_sram_f());
    assert(eeprom@ =~= id_eeprom());
    if contains(rom, flash1m.as_slice()) {
        BackupType::Flash128
    } else if contains(rom, flash.as_slice()) || contains(rom, flash512.as_slice()) {
        BackupType::Flash64
    } else if contains(rom, sram.as_slice()) || contains(rom, sram_f.as_slice()) {
        BackupType::Sram
    } else if contains(rom, eeprom.as_slice()) {
        if rom.len() > 0x100_0000 {
            BackupType::Eeprom8K
        } else {
            BackupType::Eeprom512
        }
    } else {
        BackupType::NoBackup
    }
}

/// A cartridge just made for `rom`: its detected backup type, erased
/// (0xFF) backup memory of that type's size, and idle Flash and EEPROM state.
pub open spec fn fresh_cart(c: CartView, rom: Seq<u8>) -> bool {
    &&& c.backup_type == detect_spec(rom)
    &&& c.sram == Seq::new(backup_size(c.backup_type) as nat, |i: int| 0xFFu8)
    &&& c.flash_state == FlashState::Ready
    &&& c.flash_bank == 0
    &&& !c.dirty
    &&& c.eeprom_bits_in == 0 && c.eeprom_bit_count == 0 && c.eeprom_read_data == 0 && c.eeprom_read_pos == 0
    &&& c.eeprom_state == EepromState::Idle
}

impl Cartridge {
    pub fn new(rom: &[u8]) -> (r: Self)
        ensures
            fresh_cart(r@, rom@),
            r@.backup_type == detect_spec(rom@),
            r@.sram == Seq::new(backup_size(r@.backup_type) as nat, |i: int| 0xFFu8),
            r@.flash_state == FlashState::Ready,
            r@.flash_bank == 0,
            !r@.dirty,
            r@.eeprom_bits_in == 0 && r@.eeprom_bit_count == 0 && r@.eeprom_read_data == 0 && r@.eeprom_read_pos == 0,
            r@.eeprom_state == EepromState::Idle,
            r@.wf(),
    {
        let backup_type = detect_backup_type(rom);
        let sram_size: usize = match backup_type {
            BackupType::NoBackup => 0,
            BackupType::Sram => 0x8000,
            BackupType::Flash64 => 0x10000,
            BackupType::Flash128 => 0x20000,
            BackupType::Eeprom512 => 0x200,
            BackupType::Eeprom8K => 0x2000,
        };
        let mut sram: Vec<u8> = Vec::new();
        while sram.len() < sram_size
            invariant
                sram.len() <= sram_size,
                sram@ == Seq::new(sram.len() as nat, |i: int| 0xFFu8),
            decreases sram_size - sram.len(),
        {
            sram.push(0xFF);
            assert(sram@ =~= Seq::new(sram.len() as nat, |i: int| 0xFFu8));
        }
        Cartridge {
            backup_type,
            sram,
            flash_state: FlashState::Ready,
            flash_bank: 0,
            dirty: false,
            eeprom_bits_in: 0,
            eeprom_bit_count: 0,
            eeprom_state: EepromState::Idle,
            eeprom_read_data: 0,
            eeprom_read_pos: 0,
        }
    }

    /// Read a byte from the backup memory region (0x0E000000).
    pub fn read(&self, addr: u32) -> (r: u8)
        requires self@.wf(),
        ensures r == self@.read_spec(addr),
    {
        let offset = (addr % 0x10000) as usize;
        match self.backup_type {
            BackupType::Sram => {
                let i = offset % 0x8000;
                if i < self.sram.len() { self.sram[i] } else { 0xFF }
            }
            BackupType::Flash64 => {
                if self.flash_state == FlashState::IdMode {
                    // Manufacturer ID (SST), device ID (64 KB)
                    return if offset == 0 { 0xBF } else if offset == 1 { 0xD4 } else { 0 };
                }
                if offset < self.sram.len() { self.sram[offset] } else { 0xFF }
            }
            BackupType::Flash128 => {
                if self.flash_state == FlashState::IdMode {
                    // Manufacturer ID (Sanyo), device ID (128 KB)
                    return if offset == 0 { 0x62 } else if offset == 1 { 0x13 } else { 0 };
                }
                let real_offset = self.flash_bank * 0x10000 + offset;
                if real_offset < self.sram.len() { self.sram[real_offset] } else { 0xFF }
            }
            // EEPROM is accessed serially at 0x0D000000; this path is not used for it.
            BackupType::Eeprom512 | BackupType::Eeprom8K => 1,
            BackupType::NoBackup => 0xFF,
        }
    }
    /// Read a bit from the EEPROM data shift register (called when clocking
    /// out data bits): 4 dummy zero bits, then 64 data bits MSB first, then
    /// the sequence completes and the chip returns to idle.
    pub fn eeprom_read_bit(&mut self) -> (r: u8)
        requires old(self)@.wf(),
        ensures
            (final(self)@, r) == old(self)@.eeprom_read_spec(),
            final(self)@.wf(),
    {
        if self.eeprom_state != EepromState::ReadReady {
            return 1;
        }
        if self.eeprom_read_pos > 64 {
            // Dummy bits (positions 68, 67, 66, 65)
            self.eeprom_read_pos -= 1;
            0
        } else if self.eeprom_read_pos > 0 {
            // Data bits: pos 64 → bit63, ..., pos 1 → bit0
            let bit = ((self.eeprom_read_data >> (self.eeprom_read_pos - 1) as u64) & 1) as u8;
            self.eeprom_read_pos -= 1;
            bit
        } else {
            // All bits clocked out — go back to idle
            self.eeprom_state = EepromState::Idle;
            self.eeprom_bit_count = 0;
            self.eeprom_bits_in = 0;
            1
        }
    }

    /// Write a bit to the EEPROM (the serial protocol at 0x0D000000).
    pub fn eeprom_write_bit(&mut self, bit: u8)
        requires old(self)@.wf(),
        ensures
            final(self)@ == old(self)@.eeprom_write_spec(bit),
            final(self)@.wf(),
    {
        let bit = (bit % 2) as u64;
        let addr_bits: u8 = if self.backup_type == BackupType::Eeprom8K { 14 } else { 6 };
        match self.eeprom_state {
            EepromState::Idle => {
                proof { reveal_with_fuel(pow2_64, 2); }
                // Wait for start bit (1)
                if bit == 1 {
                    self.eeprom_bits_in = 1;
                    self.eeprom_bit_count = 1;
                    self.eeprom_state = EepromState::ReadingCommand;
                }
            }
            EepromState::ReadingCommand => self.eeprom_command_bit(bit, addr_bits),
            EepromState::WritingData => self.eeprom_data_bit(bit),
            EepromState::ReadReady => {
                // Unexpected write while in read state; reset
                self.eeprom_state = EepromState::Idle;
                self.eeprom_bit_count = 0;
                self.eeprom_bits_in = 0;
            }
        }
    }

    /// One bit of an EEPROM command (start bit already seen).
    fn eeprom_command_bit(&mut self, bit: u64, addr_bits: u8)
        requires
            old(self)@.wf(),
            old(self).eeprom_state == EepromState::ReadingCommand,
            bit <= 1,
            addr_bits == eeprom_addr_bits(old(self).backup_type),
        ensures
            final(self)@ == old(self)@.eeprom_write_spec(bit as u8),
            final(self)@.wf(),
    {
            proof { lemma_shift_in(self.eeprom_bits_in, bit, self.eeprom_bit_count as nat); }
            self.eeprom_bits_in = (self.eeprom_bits_in << 1) | bit;
            self.eeprom_bit_count += 1;
            // After start(1) + opcode(2) + address(addr_bits) bits
            let cmd_bits = 1u8 + 2 + addr_bits;
            if self.eeprom_bit_count == cmd_bits {
                let opcode = (self.eeprom_bits_in >> addr_bits as u64) & 0x3;
                proof {
                    vstd::arithmetic::power2::lemma2_to64();
                    vstd::bits::lemma_u64_shl_is_mul(1u64, 6u64);
                    vstd::bits::lemma_u64_shl_is_mul(1u64, 14u64);
                }
                let addr_mask = (1u64 << addr_bits as u64) - 1;
                proof { lemma_addr_mask(self.eeprom_bits_in, addr_bits as u64, addr_mask); }
                let word_addr = (self.eeprom_bits_in & addr_mask) as usize;
                // Each word is 8 bytes (64 bits)
                let byte_addr = word_addr * 8;
                if opcode == 2 {
                    // Read command — load data and prepare to clock out
                    let mut data = 0u64;
                    let mut i: usize = 0;
                    while i < 8
                        invariant
                            i <= 8,
                            byte_addr < 0x20000,
                            data == eeprom_word(self.sram@, byte_addr as int, i as nat),
                        decreases 8 - i,
                    {
                        let b: u64 = if byte_addr + i < self.sram.len() { self.sram[byte_addr + i] as u64 } else { 0xFF };
                        data = (data << 8) | b;
                        i += 1;
                    }
                    self.eeprom_read_data = data;
                    // 4 dummy bits + 64 data bits = 68 total
                    self.eeprom_read_pos = 68;
                    self.eeprom_state = EepromState::ReadReady;
                    self.eeprom_bit_count = 0;
                    self.eeprom_bits_in = 0;
                } else if opcode == 1 {
                    // Write command — keep the target byte address and take 64 data bits
                    self.eeprom_bits_in = byte_addr as u64;
                    self.eeprom_bit_count = 0;
                    self.eeprom_state = EepromState::WritingData;
                } else {
                    // Special (EWEN/EWDS) or unknown — ignore, go idle
                    self.eeprom_state = EepromState::Idle;
                    self.eeprom_bit_count = 0;
                    self.eeprom_bits_in = 0;
                }
            }
    }

    /// One data bit of an EEPROM write; the 64th stores the word.
    fn eeprom_data_bit(&mut self, bit: u64)
        requires
            old(self)@.wf(),
            old(self).eeprom_state == EepromState::WritingData,
            bit <= 1,
        ensures
            final(self)@ == old(self)@.eeprom_write_spec(bit as u8),
            final(self)@.wf(),
    {
            // Collect 64 data bits (MSB first) in the read register
            self.eeprom_read_data = (self.eeprom_read_data << 1) | bit;
            self.eeprom_bit_count += 1;
            if self.eeprom_bit_count == 64 {
                let byte_addr = self.eeprom_bits_in as usize;
                let data = self.eeprom_read_data;
                let ghost pre = self.sram@;
                let ghost s0 = *self;
                let mut i: usize = 0;
                while i < 8
                    invariant
                        i <= 8,
                        byte_addr < 0x20000,
                        *self == (Cartridge { sram: self.sram, ..s0 }),
                        self.sram@.len() == pre.len(),
                        forall|k: int| 0 <= k < pre.len() ==> #[trigger] self.sram@[k] ==
                            (if byte_addr <= k < byte_addr + i { store_word(pre, byte_addr as int, data)[k] } else { pre[k] }),
                    decreases 8 - i,
                {
                    let b = ((data >> (56 - i * 8) as u64) & 0xFF) as u8;
                    let idx = byte_addr + i;
                    if idx < self.sram.len() {
                        self.sram.set(idx, b);
                    }
                    i += 1;
                }
                assert(self.sram@ =~= store_word(pre, byte_addr as int, data));
                self.dirty = true;
                self.eeprom_state = EepromState::Idle;
                self.eeprom_bit_count = 0;
                self.eeprom_bits_in = 0;
                self.eeprom_read_data = 0;
            }
    }

    /// Write a byte to the backup memory region (0x0E000000).
    pub fn write(&mut self, addr: u32, val: u8)
        requires old(self)@.wf(),
        ensures
            final(self)@ == old(self)@.write_spec(addr, val),
            final(self)@.wf(),
    {
        let offset = (addr % 0x10000) as usize;
        match self.backup_type {
            BackupType::Sram => {
                let idx = offset % 0x8000;
                if idx < self.sram.len() {
                    self.sram.set(idx, val);
                    self.dirty = true;
                }
            }
            BackupType::Flash64 | BackupType::Flash128 => {
                self.write_flash(offset, val);
            }
            _ => {}
        }
    }

    /// A write while the Flash waits for an erase command.
    fn flash_erase(&mut self, offset: usize, val: u8)
        requires
            old(self)@.wf(),
            old(self).flash_state == FlashState::Erase,
            offset < 0x10000,
        ensures
            final(self)@ == old(self)@.flash_write_spec(offset as int, val),
            final(self)@.wf(),
    {
            if offset == 0x5555 && val == 0xAA {
                self.flash_state = FlashState::Cmd1;
            } else if val == 0x30 {
                // Sector erase (4 KB)
                let sector = (offset / 0x1000) * 0x1000 + self.flash_bank * 0x10000;
                let end = if sector + 0x1000 < self.sram.len() { sector + 0x1000 } else { self.sram.len() };
                if sector < self.sram.len() {
                    let ghost pre = self.sram@;
                    let ghost s0 = *self;
                    let mut k = sector;
                    while k < end
                        invariant
                            sector <= k <= end,
                            *self == (Cartridge { sram: self.sram, ..s0 }),
                            end <= pre.len(),
                            end == (if sector + 0x1000 < pre.len() { sector + 0x1000 } else { pre.len() as int }),
                            self.sram@.len() == pre.len(),
                            forall|j: int| 0 <= j < pre.len() ==> #[trigger] self.sram@[j] ==
                                (if sector <= j < k { 0xFFu8 } else { pre[j] }),
                        decreases end - k,
                    {
                        self.sram.set(k, 0xFF);
                        k += 1;
                    }
                    assert(self.sram@ =~= Seq::new(pre.len(), |j: int| if sector <= j < sector + 0x1000 { 0xFFu8 } else { pre[j] }));
                    self.dirty = true;
                }
                self.flash_state = FlashState::Ready;
            } else if offset == 0x5555 && val == 0x10 {
                // Full chip erase
                let ghost pre = self.sram@;
                let ghost s0 = *self;
                let mut k: usize = 0;
                while k < self.sram.len()
                    invariant
                        k <= self.sram@.len(),
                        *self == (Cartridge { sram: self.sram, ..s0 }),
                        self.sram@.len() == pre.len(),
                        forall|j: int| 0 <= j < pre.len() ==> #[trigger] self.sram@[j] == (if j < k { 0xFFu8 } else { pre[j] }),
                    decreases self.sram@.len() - k,
                {
                    self.sram.set(k, 0xFF);
                    k += 1;
                }
                assert(self.sram@ =~= Seq::new(pre.len(), |j: int| 0xFFu8));
                self.dirty = true;
                self.flash_state = FlashState::Ready;
            } else {
                self.flash_state = FlashState::Ready;
            }
    }

    fn write_flash(&mut self, offset: usize, val: u8)
        requires
            old(self)@.wf(),
            offset < 0x10000,
        ensures
            final(self)@ == old(self)@.flash_write_spec(offset as int, val),
            final(self)@.wf(),
    {
        match self.flash_state {
            FlashState::Ready => {
                if offset == 0x5555 && val == 0xAA {
                    self.flash_state = FlashState::Cmd1;
                }
            }
            FlashState::Cmd1 => {
                if offset == 0x2AAA && val == 0x55 {
                    self.flash_state = FlashState::Cmd2;
                } else {
                    self.flash_state = FlashState::Ready;
                }
            }
            FlashState::Cmd2 => {
                if offset == 0x5555 {
                    match val {
                        0x90 => self.flash_state = FlashState::IdMode,
                        0xF0 => self.flash_state = FlashState::Ready,
                        0x80 => self.flash_state = FlashState::Erase,
                        0xA0 => self.flash_state = FlashState::Write,
                        0xB0 => {
                            if self.backup_type == BackupType::Flash128 {
                                self.flash_state = FlashState::BankSel;
                            } else {
                                self.flash_state = FlashState::Ready;
                            }
                        }
                        _ => self.flash_state = FlashState::Ready,
                    }
                } else {
                    self.flash_state = FlashState::Ready;
                }
            }
            FlashState::IdMode => {
                if offset == 0x5555 && val == 0xAA {
                    self.flash_state = FlashState::Cmd1;
                } else if val == 0xF0 {
                    self.flash_state = FlashState::Ready;
                }
            }
            FlashState::Erase => self.flash_erase(offset, val),
            FlashState::Write => {
                let real_offset = self.flash_bank * 0x10000 + offset;
                if real_offset < self.sram.len() {
                    self.sram.set(real_offset, val);
                    self.dirty = true;
                }
                self.flash_state = FlashState::Ready;
            }
            FlashState::BankSel => {
                if offset == 0 {
                    self.flash_bank = (val % 2) as usize;
                }
                self.flash_state = FlashState::Ready;
            }
        }
    }
}

/// Shifting one more bit into a command register keeps it below the next power of two.
proof fn lemma_shift_in(x: u64, bit: u64, n: nat)
    requires
        x < pow2_64(n),
        bit <= 1,
        n < 17,
    ensures
        (x << 1u64) | bit == 2 * x + bit,
        2 * x + bit < pow2_64(n + 1),
{
    assert(pow2_64(n) <= 0x10000) by {
        reveal_with_fuel(pow2_64, 18);
        lemma_pow2_64_mono(n, 16);
    }
    assert(x < 0x10000 && bit <= 1 ==> (x << 1u64) | bit == 2 * x + bit) by (bit_vector);
}

proof fn lemma_pow2_64_mono(a: nat, b: nat)
    requires a <= b,
    ensures 1 <= pow2_64(a) <= pow2_64(b),
    decreases b,
{
    if a < b {
        lemma_pow2_64_mono(a, (b - 1) as nat);
    } else if a > 0 {
        lemma_pow2_64_mono((a - 1) as nat, (a - 1) as nat);
    }
}

/// The address mask selects the low address bits as a remainder.
proof fn lemma_addr_mask(x: u64, ab: u64, mask: u64)
    requires
        ab == 6 || ab == 14,
        mask == (1u64 << ab) - 1,
    ensures
        x & mask == (x as int) % pow2_64(ab as nat),
        x & mask < 0x4000,
{
    reveal_with_fuel(pow2_64, 15);
    assert(1u64 << 6u64 == 64 && 1u64 << 14u64 == 16384 && x & 63u64 == x % 64 && x & 16383u64 == x % 16384) by (bit_vector);
}


/// A byte written to battery SRAM reads back unchanged.
pub proof fn lemma_sram_write_read(c: CartView, addr: u32, val: u8)
    requires c.wf(), c.backup_type == BackupType::Sram,
    ensures c.write_spec(addr, val).read_spec(addr) == val,
{
}

/// The Flash command prefix: 0xAA to 0x5555, then 0x55 to 0x2AAA.
pub open spec fn flash_unlock(c: CartView) -> CartView {
    c.write_spec(0x5555, 0xAA).write_spec(0x2AAA, 0x55)
}

/// Programming Flash: after the prefix and 0xA0 to 0x5555 (from the ready
/// state), the next write stores its byte, which then reads back at that
/// address while every other address reads as before, and the chip is
/// ready again.
pub proof fn lemma_flash_program(c: CartView, addr: u32, v: u8)
    requires
        c.wf(),
        c.flash_state == FlashState::Ready,
        (c.backup_type == BackupType::Flash64 && c.flash_bank == 0) || c.backup_type == BackupType::Flash128,
    ensures
        ({
            let c4 = flash_unlock(c).write_spec(0x5555, 0xA0).write_spec(addr, v);
            &&& c4.read_spec(addr) == v
            &&& c4.flash_state == FlashState::Ready
            &&& forall|a: u32| a % 0x10000 != addr % 0x10000 ==> #[trigger] c4.read_spec(a) == c.read_spec(a)
        }),
{
}

/// Erasing Flash: after the prefix and 0x80 to 0x5555, a write of 0x10 to
/// 0x5555 erases the whole chip (every address reads 0xFF), and a write of
/// 0x30 to an address erases only the 4 KB sector holding it.
pub proof fn lemma_flash_erase(c: CartView, addr: u32)
    requires
        c.wf(),
        c.flash_state == FlashState::Ready,
        (c.backup_type == BackupType::Flash64 && c.flash_bank == 0) || c.backup_type == BackupType::Flash128,
    ensures
        ({
            let e = flash_unlock(c).write_spec(0x5555, 0x80);
            let chip = e.write_spec(0x5555, 0x10);
            let sector = e.write_spec(addr, 0x30);
            &&& forall|a: u32| #[trigger] chip.read_spec(a) == 0xFF
            &&& forall|a: u32| (a % 0x10000) / 0x1000 == (addr % 0x10000) / 0x1000 ==> #[trigger] sector.read_spec(a) == 0xFF
            &&& forall|a: u32| (a % 0x10000) / 0x1000 != (addr % 0x10000) / 0x1000 ==> #[trigger] sector.read_spec(a) == c.read_spec(a)
        }),
{
}

} // verus!
