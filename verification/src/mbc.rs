//! The memory bus and bank controller: decodes every address into its
//! backing store and interprets writes into the reserved control ranges as
//! bank-switch commands.
//!
//! Accesses that the address map rules out — the permanently unusable range
//! 0xFEA0-0xFEFF, addresses past 0xFFFF, and banked accesses outside the
//! banks that exist — are fatal for emulation and surface as error values;
//! nothing here panics.

use vstd::prelude::*;

use crate::banked_memory::BankedMemory;
use crate::cartridge::Cartridge;
use crate::cartridge_header::RAM_BANK_SIZE;
use crate::utils::u8s_to_u16;

verus! {

/// A write whose low nibble equals this value enables external RAM.
pub const RAM_ENABLE_VALUE: u8 = 0xa;

#[derive(Clone, Copy, Debug, PartialEq, Eq, Structural)]
pub enum MemoryError {
    /// The permanently unusable range 0xFEA0-0xFEFF was accessed.
    Unusable { location: usize },
    /// The address lies past every known range.
    Unmapped { location: usize },
    /// A banked store was addressed outside the banks that exist.
    BankBounds { bank: usize, location: usize },
}

/// The mathematical state of the bus: every backing store as a sequence of
/// bytes, together with the bank-control state.
pub ghost struct MbcView {
    pub banking_mode: u8,
    pub ram_enabled: bool,
    pub ram_active: int,
    pub ram_banks: Seq<Seq<u8>>,
    pub rom_active: int,
    pub rom_banks: Seq<Seq<u8>>,
    pub video_ram: Seq<u8>,
    pub work_ram: Seq<u8>,
    pub oam: Seq<u8>,
    pub io_registers: Seq<u8>,
    pub high_ram: Seq<u8>,
    pub interrupt_enable: u8,
}

impl MbcView {
    /// The fixed sizes of the flat memory regions, and the uniform size of
    /// the RAM banks.
    pub open spec fn wf(self) -> bool {
        &&& self.video_ram.len() == 0x2000
        &&& self.work_ram.len() == 0x2000
        &&& self.oam.len() == 0xA0
        &&& self.io_registers.len() == 0x80
        &&& self.high_ram.len() == 0x7F
        &&& forall|i: int|
            0 <= i < self.ram_banks.len() ==> #[trigger] self.ram_banks[i].len() == RAM_BANK_SIZE
    }

    /// Whether a read of `location` succeeds: every mapped data region can
    /// be read, except that a banked window needs its bank to exist and the
    /// offset to lie inside it.
    pub open spec fn read_ok(self, location: int) -> bool {
        if location <= 0x3FFF {
            0 < self.rom_banks.len() && location < self.rom_banks[0].len()
        } else if location <= 0x7FFF {
            0 <= self.rom_active < self.rom_banks.len() && location - 0x4000
                < self.rom_banks[self.rom_active].len()
        } else if location <= 0x9FFF {
            true
        } else if location <= 0xBFFF {
            0 <= self.ram_active < self.ram_banks.len() && location - 0xA000
                < self.ram_banks[self.ram_active].len()
        } else if location <= 0xFE9F {
            true
        } else if location <= 0xFEFF {
            false
        } else {
            location <= 0xFFFF
        }
    }

    /// The byte a successful read of `location` returns.  The echo range
    /// 0xE000-0xFDFF reads work RAM; external RAM reads return the stored
    /// byte whether or not RAM is enabled (the documented policy for reads
    /// while RAM is disabled).
    pub open spec fn read_value(self, location: int) -> u8 {
        if location <= 0x3FFF {
            self.rom_banks[0][location]
        } else if location <= 0x7FFF {
            self.rom_banks[self.rom_active][location - 0x4000]
        } else if location <= 0x9FFF {
            self.video_ram[location - 0x8000]
        } else if location <= 0xBFFF {
            self.ram_banks[self.ram_active][location - 0xA000]
        } else if location <= 0xDFFF {
            self.work_ram[location - 0xC000]
        } else if location <= 0xFDFF {
            self.work_ram[location - 0xE000]
        } else if location <= 0xFE9F {
            self.oam[location - 0xFE00]
        } else if location <= 0xFEFF {
            0
        } else if location <= 0xFF7F {
            self.io_registers[location - 0xFF00]
        } else if location <= 0xFFFE {
            self.high_ram[location - 0xFF80]
        } else {
            self.interrupt_enable
        }
    }

    /// The error a failed read of `location` reports.
    pub open spec fn read_err(self, location: int) -> MemoryError {
        if 0xFEA0 <= location <= 0xFEFF {
            MemoryError::Unusable { location: location as usize }
        } else if location > 0xFFFF {
            MemoryError::Unmapped { location: location as usize }
        } else if location <= 0x3FFF {
            MemoryError::BankBounds { bank: 0, location: location as usize }
        } else if location <= 0x7FFF {
            MemoryError::BankBounds { bank: self.rom_active as usize, location: location as usize }
        } else {
            MemoryError::BankBounds { bank: self.ram_active as usize, location: location as usize }
        }
    }

    /// Whether a write to `location` succeeds.  The whole ROM area is a
    /// control area and always accepts writes; a write to external RAM
    /// while RAM is disabled is absorbed; one to an enabled RAM window
    /// needs the active bank to exist.
    pub open spec fn write_ok(self, location: int) -> bool {
        if location <= 0x9FFF {
            true
        } else if location <= 0xBFFF {
            self.ram_enabled ==> (0 <= self.ram_active < self.ram_banks.len() && location - 0xA000
                < self.ram_banks[self.ram_active].len())
        } else if location <= 0xFE9F {
            true
        } else if location <= 0xFEFF {
            false
        } else {
            location <= 0xFFFF
        }
    }

    /// The bus state after a successful write of `value` to `location`.
    /// Writes into 0x0000-0x7FFF are bank-control commands: they gate RAM
    /// on the low nibble, select the ROM bank from the low 5 bits, the RAM
    /// bank from the low 2 bits, or the banking mode from the low 2 bits.
    /// The ROM bank number is stored exactly as written: this bus does not
    /// remap a selected bank 0 to bank 1, so the fixed bank stays readable
    /// through the switchable window too.
    /// Writes into the data regions store the byte; the echo range writes
    /// work RAM, and a RAM write while RAM is disabled changes nothing.
    pub open spec fn write_effect(self, location: int, value: u8) -> MbcView {
        if location <= 0x1FFF {
            MbcView { ram_enabled: value % 16 == RAM_ENABLE_VALUE, ..self }
        } else if location <= 0x3FFF {
            MbcView { rom_active: (value % 32) as int, ..self }
        } else if location <= 0x5FFF {
            MbcView { ram_active: (value % 4) as int, ..self }
        } else if location <= 0x7FFF {
            MbcView { banking_mode: (value % 4) as u8, ..self }
        } else if location <= 0x9FFF {
            MbcView { video_ram: self.video_ram.update(location - 0x8000, value), ..self }
        } else if location <= 0xBFFF {
            if self.ram_enabled {
                MbcView {
                    ram_banks: self.ram_banks.update(
                        self.ram_active,
                        self.ram_banks[self.ram_active].update(location - 0xA000, value),
                    ),
                    ..self
                }
            } else {
                self
            }
        } else if location <= 0xDFFF {
            MbcView { work_ram: self.work_ram.update(location - 0xC000, value), ..self }
        } else if location <= 0xFDFF {
            MbcView { work_ram: self.work_ram.update(location - 0xE000, value), ..self }
        } else if location <= 0xFE9F {
            MbcView { oam: self.oam.update(location - 0xFE00, value), ..self }
        } else if location <= 0xFF7F {
            MbcView { io_registers: self.io_registers.update(location - 0xFF00, value), ..self }
        } else if location <= 0xFFFE {
            MbcView { high_ram: self.high_ram.update(location - 0xFF80, value), ..self }
        } else {
            MbcView { interrupt_enable: value, ..self }
        }
    }

    /// The error a failed write of `location` reports.
    pub open spec fn write_err(self, location: int) -> MemoryError {
        if 0xFEA0 <= location <= 0xFEFF {
            MemoryError::Unusable { location: location as usize }
        } else if location > 0xFFFF {
            MemoryError::Unmapped { location: location as usize }
        } else {
            MemoryError::BankBounds { bank: self.ram_active as usize, location: location as usize }
        }
    }
}

pub struct MBC {
    pub banking_mode: u8,
    pub ram_enabled: bool,
    pub ram: BankedMemory,
    pub rom: BankedMemory,
    pub video_ram: Vec<u8>,
    pub work_ram: Vec<u8>,
    pub sprite_attribute_table: Vec<u8>,
    pub io_registers: Vec<u8>,
    pub high_ram: Vec<u8>,
    pub interrupt_enable_register: u8,
}

impl View for MBC {
    type V = MbcView;

    open spec fn view(&self) -> MbcView {
        MbcView {
            banking_mode: self.banking_mode,
            ram_enabled: self.ram_enabled,
            ram_active: self.ram.active_bank as int,
            ram_banks: Seq::new(self.ram.banks@.len(), |i: int| self.ram.banks@[i]@),
            rom_active: self.rom.active_bank as int,
            rom_banks: Seq::new(self.rom.banks@.len(), |i: int| self.rom.banks@[i]@),
            video_ram: self.video_ram@,
            work_ram: self.work_ram@,
            oam: self.sprite_attribute_table@,
            io_registers: self.io_registers@,
            high_ram: self.high_ram@,
            interrupt_enable: self.interrupt_enable_register,
        }
    }
}

/// A zero-filled byte vector of the given length.
fn zeros(n: usize) -> (r: Vec<u8>)
    ensures
        r@ == Seq::new(n as nat, |i: int| 0u8),
{
    let mut out: Vec<u8> = Vec::new();
    let mut i: usize = 0;
    while i < n
        invariant
            i <= n,
            out@ == Seq::new(i as nat, |k: int| 0u8),
        decreases n - i,
    {
        out.push(0u8);
        proof {
            assert(out@ =~= Seq::new((i + 1) as nat, |k: int| 0u8));
        }
        i = i + 1;
    }
    out
}

impl MBC {
    /// A bus for a loaded cartridge: the cartridge bytes paged into ROM
    /// banks with bank 1 selected, zero-filled RAM banks as the header
    /// declares them, zero-filled fixed regions, RAM disabled and banking
    /// mode zero.
    pub fn new(cartridge: Cartridge) -> (r: Self)
        ensures
            r@.wf(),
            r@.banking_mode == 0,
            r@.ram_enabled == false,
            r@.interrupt_enable == 0,
            r@.rom_active == 1,
            r@.rom_banks.len() == crate::banked_memory::rom_bank_count(
                cartridge.data@.len() as int,
            ),
            forall|k: int|
                0 <= k < r@.rom_banks.len() ==> #[trigger] r@.rom_banks[k]
                    == crate::banked_memory::rom_bank_chunk(cartridge.data@, k),
            r@.ram_active == 0,
            r@.ram_banks.len() == (match cartridge.header.ram_size {
                Some(n) => n as int,
                None => 1,
            }),
            forall|k: int, j: int|
                0 <= k < r@.ram_banks.len() && 0 <= j < r@.ram_banks[k].len()
                    ==> #[trigger] r@.ram_banks[k][j] == 0,
            forall|j: int| 0 <= j < 0x2000 ==> #[trigger] r@.video_ram[j] == 0,
            forall|j: int| 0 <= j < 0x2000 ==> #[trigger] r@.work_ram[j] == 0,
            forall|j: int| 0 <= j < 0xA0 ==> #[trigger] r@.oam[j] == 0,
            forall|j: int| 0 <= j < 0x80 ==> #[trigger] r@.io_registers[j] == 0,
            forall|j: int| 0 <= j < 0x7F ==> #[trigger] r@.high_ram[j] == 0,
    {
        let ram_size = cartridge.header.ram_size;
        MBC {
            banking_mode: 0,
            ram_enabled: false,
            ram: BankedMemory::of_size(ram_size),
            rom: BankedMemory::from_rom_bytes(cartridge.data.as_slice()),
            video_ram: zeros(0x2000),
            work_ram: zeros(0x2000),
            sprite_attribute_table: zeros(0xA0),
            io_registers: zeros(0x80),
            high_ram: zeros(0x7F),
            interrupt_enable_register: 0,
        }
    }

    /// Reads the byte a given address decodes to.
    pub fn read(&self, location: usize) -> (r: Result<u8, MemoryError>)
        requires
            self@.wf(),
        ensures
            r is Ok <==> self@.read_ok(location as int),
            r matches Ok(v) ==> v == self@.read_value(location as int),
            r matches Err(e) ==> e == self@.read_err(location as int),
    {
        if location <= 0x3FFF {
            if self.rom.banks.len() > 0 && location < self.rom.banks[0].len() {
                Ok(self.rom.value_in_bank(0, location))
            } else {
                Err(MemoryError::BankBounds { bank: 0, location })
            }
        } else if location <= 0x7FFF {
            if self.rom.active_bank < self.rom.banks.len() && location - 0x4000
                < self.rom.banks[self.rom.active_bank].len() {
                Ok(self.rom.value_at(location - 0x4000))
            } else {
                Err(MemoryError::BankBounds { bank: self.rom.active_bank, location })
            }
        } else if location <= 0x9FFF {
            Ok(self.video_ram[location - 0x8000])
        } else if location <= 0xBFFF {
            if self.ram.active_bank < self.ram.banks.len() && location - 0xA000
                < self.ram.banks[self.ram.active_bank].len() {
                Ok(self.ram.value_at(location - 0xA000))
            } else {
                Err(MemoryError::BankBounds { bank: self.ram.active_bank, location })
            }
        } else if location <= 0xDFFF {
            Ok(self.work_ram[location - 0xC000])
        } else if location <= 0xFDFF {
            Ok(self.work_ram[location - 0xE000])
        } else if location <= 0xFE9F {
            Ok(self.sprite_attribute_table[location - 0xFE00])
        } else if location <= 0xFEFF {
            Err(MemoryError::Unusable { location })
        } else if location <= 0xFF7F {
            Ok(self.io_registers[location - 0xFF00])
        } else if location <= 0xFFFE {
            Ok(self.high_ram[location - 0xFF80])
        } else if location == 0xFFFF {
            Ok(self.interrupt_enable_register)
        } else {
            Err(MemoryError::Unmapped { location })
        }
    }

    /// Writes a byte to a given address: a bank-control command in the ROM
    /// area, a data store elsewhere.
    pub fn write(&mut self, location: usize, value: u8) -> (r: Result<(), MemoryError>)
        requires
            old(self)@.wf(),
        ensures
            r is Ok <==> old(self)@.write_ok(location as int),
            r is Ok ==> final(self)@ == old(self)@.write_effect(location as int, value),
            r is Err ==> final(self)@ == old(self)@,
            r matches Err(e) ==> e == old(self)@.write_err(location as int),
            final(self)@.wf(),
    {
        if location <= 0x1FFF {
            self.ram_enabled = value % 16 == RAM_ENABLE_VALUE;
            Ok(())
        } else if location <= 0x3FFF {
            self.rom.active_bank = (value % 32) as usize;
            Ok(())
        } else if location <= 0x5FFF {
            self.ram.active_bank = (value % 4) as usize;
            Ok(())
        } else if location <= 0x7FFF {
            self.banking_mode = value % 4;
            Ok(())
        } else if location <= 0x9FFF {
            self.video_ram.set(location - 0x8000, value);
            proof {
                assert(self@ =~~= old(self)@.write_effect(location as int, value));
            }
            Ok(())
        } else if location <= 0xBFFF {
            if !self.ram_enabled {
                Ok(())
            } else if self.ram.active_bank < self.ram.banks.len() && location - 0xA000
                < self.ram.banks[self.ram.active_bank].len() {
                self.ram.set_at(location - 0xA000, value);
                proof {
                    assert(self@.ram_banks =~= old(self)@.ram_banks.update(
                        old(self)@.ram_active,
                        old(self)@.ram_banks[old(self)@.ram_active].update(
                            location - 0xA000,
                            value,
                        ),
                    ));
                    assert(self@ =~~= old(self)@.write_effect(location as int, value));
                }
                Ok(())
            } else {
                Err(MemoryError::BankBounds { bank: self.ram.active_bank, location })
            }
        } else if location <= 0xDFFF {
            self.work_ram.set(location - 0xC000, value);
            proof {
                assert(self@ =~~= old(self)@.write_effect(location as int, value));
            }
            Ok(())
        } else if location <= 0xFDFF {
            self.work_ram.set(location - 0xE000, value);
            proof {
                assert(self@ =~~= old(self)@.write_effect(location as int, value));
            }
            Ok(())
        } else if location <= 0xFE9F {
            self.sprite_attribute_table.set(location - 0xFE00, value);
            proof {
                assert(self@ =~~= old(self)@.write_effect(location as int, value));
            }
            Ok(())
        } else if location <= 0xFEFF {
            Err(MemoryError::Unusable { location })
        } else if location <= 0xFF7F {
            self.io_registers.set(location - 0xFF00, value);
            proof {
                assert(self@ =~~= old(self)@.write_effect(location as int, value));
            }
            Ok(())
        } else if location <= 0xFFFE {
            self.high_ram.set(location - 0xFF80, value);
            proof {
                assert(self@ =~~= old(self)@.write_effect(location as int, value));
            }
            Ok(())
        } else if location == 0xFFFF {
            self.interrupt_enable_register = value;
            Ok(())
        } else {
            Err(MemoryError::Unmapped { location })
        }
    }

    /// Whether a write to `location` would succeed, without performing it.
    pub fn check_write(&self, location: usize) -> (r: Result<(), MemoryError>)
        requires
            self@.wf(),
        ensures
            r is Ok <==> self@.write_ok(location as int),
            r matches Err(e) ==> e == self@.write_err(location as int),
    {
        if location <= 0x9FFF {
            Ok(())
        } else if location <= 0xBFFF {
            if !self.ram_enabled {
                Ok(())
            } else if self.ram.active_bank < self.ram.banks.len() && location - 0xA000
                < self.ram.banks[self.ram.active_bank].len() {
                Ok(())
            } else {
                Err(MemoryError::BankBounds { bank: self.ram.active_bank, location })
            }
        } else if location <= 0xFE9F {
            Ok(())
        } else if location <= 0xFEFF {
            Err(MemoryError::Unusable { location })
        } else if location <= 0xFFFF {
            Ok(())
        } else {
            Err(MemoryError::Unmapped { location })
        }
    }

    /// Reads the byte immediately after `from_location`, where an
    /// instruction's immediate operand lives.
    pub fn get_next_u8(&self, from_location: usize) -> (r: Result<u8, MemoryError>)
        requires
            self@.wf(),
            from_location < usize::MAX,
        ensures
            r is Ok <==> self@.read_ok(from_location + 1),
            r matches Ok(v) ==> v == self@.read_value(from_location + 1),
            r matches Err(e) ==> e == self@.read_err(from_location + 1),
    {
        self.read(from_location + 1)
    }

    /// Reads the 16-bit little-endian value stored in the two bytes after
    /// `from_location`: low byte first.
    pub fn get_next_u16(&self, from_location: usize) -> (r: Result<u16, MemoryError>)
        requires
            self@.wf(),
            from_location + 2 <= usize::MAX,
        ensures
            r is Ok <==> self@.read_ok(from_location + 1) && self@.read_ok(from_location + 2),
            r matches Ok(v) ==> v == self@.read_value(from_location + 2) * 256 + self@.read_value(
                from_location + 1,
            ),
            r matches Err(e) ==> e == if !self@.read_ok(from_location + 1) {
                self@.read_err(from_location + 1)
            } else {
                self@.read_err(from_location + 2)
            },
    {
        let low = match self.read(from_location + 1) {
            Ok(v) => v,
            Err(e) => {
                return Err(e);
            }
        };
        let high = match self.read(from_location + 2) {
            Ok(v) => v,
            Err(e) => {
                return Err(e);
            }
        };
        Ok(u8s_to_u16(high, low))
    }

    /// Reads the inclusive address range `start..=end` into a vector, the
    /// bulk fetch used by the tile reader.
    pub fn read_slice(&self, start: usize, end: usize) -> (r: Result<Vec<u8>, MemoryError>)
        requires
            self@.wf(),
            end < usize::MAX,
        ensures
            r is Ok <==> (forall|l: int| start <= l <= end ==> self@.read_ok(l)),
            r matches Ok(v) ==> v@.len() == (if start <= end {
                end - start + 1
            } else {
                0
            }) && (forall|i: int| 0 <= i < v@.len() ==> v@[i] == self@.read_value(start + i)),
            r matches Err(e) ==> exists|l: int|
                start <= l <= end && !self@.read_ok(l) && e == self@.read_err(l),
    {
        let mut out: Vec<u8> = Vec::new();
        if start > end {
            return Ok(out);
        }
        let mut i: usize = start;
        while i <= end
            invariant
                self@.wf(),
                start <= i <= end + 1,
                end < usize::MAX,
                out@.len() == i - start,
                forall|l: int| start <= l < i ==> self@.read_ok(l),
                forall|k: int| 0 <= k < out@.len() ==> out@[k] == self@.read_value(start + k),
            decreases end + 1 - i,
        {
            match self.read(i) {
                Ok(v) => out.push(v),
                Err(e) => {
                    return Err(e);
                }
            }
            i = i + 1;
        }
        Ok(out)
    }
}

impl MbcView {
    /// Whether `location` is backed by plain storage, so that a write
    /// stores the byte and a read returns it: video RAM, enabled external
    /// RAM with its bank present, work RAM and its echo, OAM, the I/O
    /// block, high RAM and the interrupt-enable byte — not the ROM
    /// control area, the unusable range, or RAM while disabled.
    pub open spec fn data_cell(self, location: int) -> bool {
        ||| 0x8000 <= location <= 0x9FFF
        ||| (0xA000 <= location <= 0xBFFF && self.ram_enabled && 0 <= self.ram_active
            < self.ram_banks.len())
        ||| 0xC000 <= location <= 0xFDFF
        ||| 0xFE00 <= location <= 0xFE9F
        ||| 0xFF00 <= location <= 0xFFFF
    }
}

/// Law: a write to a plain data cell succeeds and a read of the same
/// address afterwards returns the byte written.
#[verifier::rlimit(60)]
#[verifier::spinoff_prover]
pub proof fn lemma_write_then_read(m: MbcView, location: int, value: u8)
    requires
        m.wf(),
        m.data_cell(location),
    ensures
        m.write_ok(location),
        m.write_effect(location, value).read_ok(location),
        m.write_effect(location, value).read_value(location) == value,
        m.write_effect(location, value).data_cell(location),
{
    if 0xA000 <= location <= 0xBFFF {
        assert(m.ram_banks[m.ram_active].len() == RAM_BANK_SIZE);
        let bank = m.ram_banks[m.ram_active];
        assert(m.write_effect(location, value).ram_banks[m.ram_active] == bank.update(
            location - 0xA000,
            value,
        ));
    }
}

/// Law: a write to one data cell leaves the read of an adjacent address
/// unchanged — adjacent addresses never share a backing cell, even
/// through the echo of work RAM.
#[verifier::rlimit(60)]
#[verifier::spinoff_prover]
pub proof fn lemma_adjacent_cells_independent(m: MbcView, at: int, value: u8, other: int)
    requires
        m.wf(),
        m.data_cell(at),
        m.data_cell(other),
        at == other + 1 || other == at + 1,
    ensures
        m.write_effect(at, value).read_ok(other) == m.read_ok(other),
        m.write_effect(at, value).read_value(other) == m.read_value(other),
{
}

/// Whether a write can still succeed after an unrelated write: only the
/// external RAM window depends on mutable bank state, and only control
/// writes below 0x6000 change that state.
#[verifier::rlimit(60)]
#[verifier::spinoff_prover]
pub proof fn lemma_write_effect_preserves_write_ok(m: MbcView, at: int, value: u8, other: int)
    requires
        m.wf(),
        m.write_ok(at),
        0xA000 <= other <= 0xBFFF ==> at > 0x5FFF,
    ensures
        m.write_effect(at, value).write_ok(other) == m.write_ok(other),
{
    let m2 = m.write_effect(at, value);
    if 0xA000 <= other <= 0xBFFF {
        assert(m2.ram_enabled == m.ram_enabled);
        assert(m2.ram_active == m.ram_active);
        assert(m2.ram_banks.len() == m.ram_banks.len());
        if 0 <= m.ram_active < m.ram_banks.len() {
            assert(m2.ram_banks[m.ram_active].len() == m.ram_banks[m.ram_active].len());
        }
    }
}

/// Law: reads of the fixed window 0x0000-0x3FFF return bytes of ROM bank 0
/// whatever bank is active — switching the active ROM bank changes neither
/// whether such a read succeeds nor its value — while a read of the
/// switchable window 0x4000-0x7FFF returns a byte of the active bank.
pub proof fn lemma_fixed_rom_window(m: MbcView, bank: int, location: int)
    requires
        0 <= location <= 0x3FFF,
    ensures
        (MbcView { rom_active: bank, ..m }).read_ok(location) == m.read_ok(location),
        (MbcView { rom_active: bank, ..m }).read_value(location) == m.read_value(location),
        m.read_ok(location) ==> m.read_value(location) == m.rom_banks[0][location],
        forall|off: int|
            0 <= off <= 0x3FFF && #[trigger] m.read_ok(0x4000 + off) ==> m.read_value(0x4000 + off)
                == m.rom_banks[m.rom_active][off],
{
}

} // verus!
