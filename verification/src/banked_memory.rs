//! A paged byte store: a fixed collection of equal-purpose banks plus the
//! index of the bank currently selected into the visible address window.

use vstd::prelude::*;

use crate::cartridge_header::RAM_BANK_SIZE;

verus! {

/// The size in bytes of one ROM bank, the unit in which cartridge data is
/// paged into the two ROM address windows.
pub const ROM_BANK_SIZE: usize = 0x4000;

/// How many ROM banks a cartridge image of `len` bytes fills, the last one
/// possibly only partly.
pub open spec fn rom_bank_count(len: int) -> int {
    (len + ROM_BANK_SIZE - 1) / (ROM_BANK_SIZE as int)
}

/// The bytes of the `k`-th ROM bank of a cartridge image.
pub open spec fn rom_bank_chunk(data: Seq<u8>, k: int) -> Seq<u8> {
    data.subrange(
        k * ROM_BANK_SIZE,
        if (k + 1) * ROM_BANK_SIZE <= data.len() {
            (k + 1) * (ROM_BANK_SIZE as int)
        } else {
            data.len() as int
        },
    )
}

pub struct BankedMemory {
    pub active_bank: usize,
    pub banks: Vec<Vec<u8>>,
}

impl BankedMemory {
    /// Whether `bank` and `location` address a byte of this store.
    pub open spec fn in_bounds(self, bank: int, location: int) -> bool {
        &&& 0 <= bank < self.banks@.len()
        &&& 0 <= location < self.banks@[bank]@.len()
    }

    /// A store of `bank_count` zero-filled banks of `bank_size` bytes each.
    pub fn new(active_bank: usize, bank_size: usize, bank_count: usize) -> (r: Self)
        ensures
            r.active_bank == active_bank,
            r.banks@.len() == bank_count,
            forall|i: int|
                0 <= i < bank_count ==> #[trigger] r.banks@[i]@ == Seq::new(
                    bank_size as nat,
                    |j: int| 0u8,
                ),
    {
        let mut banks: Vec<Vec<u8>> = Vec::new();
        let mut i: usize = 0;
        while i < bank_count
            invariant
                i <= bank_count,
                banks@.len() == i,
                forall|k: int|
                    0 <= k < i ==> #[trigger] banks@[k]@ == Seq::new(bank_size as nat, |j: int| 0u8),
            decreases bank_count - i,
        {
            let mut bank: Vec<u8> = Vec::new();
            let mut j: usize = 0;
            while j < bank_size
                invariant
                    j <= bank_size,
                    bank@ == Seq::new(j as nat, |k: int| 0u8),
                decreases bank_size - j,
            {
                bank.push(0u8);
                proof {
                    assert(bank@ =~= Seq::new((j + 1) as nat, |k: int| 0u8));
                }
                j = j + 1;
            }
            banks.push(bank);
            i = i + 1;
        }
        BankedMemory { active_bank, banks }
    }

    /// The RAM store for a cartridge: `size` banks of `RAM_BANK_SIZE` bytes
    /// when the header declares a RAM size, else a single bank.
    pub fn of_size(size: Option<u8>) -> (r: Self)
        ensures
            r.active_bank == 0,
            r.banks@.len() == (match size {
                Some(n) => n as int,
                None => 1,
            }),
            forall|i: int|
                0 <= i < r.banks@.len() ==> #[trigger] r.banks@[i]@ == Seq::new(
                    RAM_BANK_SIZE as nat,
                    |j: int| 0u8,
                ),
    {
        match size {
            Some(ram_size) => BankedMemory::new(0, RAM_BANK_SIZE, ram_size as usize),
            None => BankedMemory::new(0, RAM_BANK_SIZE, 1),
        }
    }

    /// The ROM store for a cartridge image: the bytes paged into banks of
    /// `ROM_BANK_SIZE` bytes, with bank 1 initially selected into the
    /// switchable window.
    pub fn from_rom_bytes(data: &[u8]) -> (r: Self)
        ensures
            r.active_bank == 1,
            r.banks@.len() == rom_bank_count(data@.len() as int),
            forall|k: int|
                0 <= k < r.banks@.len() ==> #[trigger] r.banks@[k]@ == rom_bank_chunk(data@, k),
    {
        let n = data.len();
        let mut banks: Vec<Vec<u8>> = Vec::new();
        let mut start: usize = 0;
        while start < n
            invariant
                n == data@.len(),
                start <= data@.len(),
                forall|k: int|
                    0 <= k < banks@.len() ==> #[trigger] banks@[k]@ == rom_bank_chunk(data@, k),
                start == banks@.len() * ROM_BANK_SIZE || (start == data@.len() && banks@.len()
                    * ROM_BANK_SIZE > data@.len() && (banks@.len() - 1) * ROM_BANK_SIZE
                    < data@.len()),
            decreases data@.len() - start,
        {
            let remaining = n - start;
            let size = if remaining >= ROM_BANK_SIZE {
                ROM_BANK_SIZE
            } else {
                remaining
            };
            let mut bank: Vec<u8> = Vec::new();
            let mut j: usize = 0;
            while j < size
                invariant
                    j <= size,
                    n == data@.len(),
                    start + size <= data@.len(),
                    bank@ == data@.subrange(start as int, start + j),
                decreases size - j,
            {
                bank.push(data[start + j]);
                proof {
                    assert(bank@ =~= data@.subrange(start as int, start + j + 1));
                }
                j = j + 1;
            }
            banks.push(bank);
            start = start + size;
        }
        BankedMemory { active_bank: 1, banks }
    }

    /// The byte at `location` in the active bank.
    pub fn value_at(&self, location: usize) -> (r: u8)
        requires
            self.in_bounds(self.active_bank as int, location as int),
        ensures
            r == self.banks@[self.active_bank as int]@[location as int],
    {
        self.banks[self.active_bank][location]
    }

    /// The byte at `location` in the given bank, regardless of which bank
    /// is active.
    pub fn value_in_bank(&self, bank: usize, location: usize) -> (r: u8)
        requires
            self.in_bounds(bank as int, location as int),
        ensures
            r == self.banks@[bank as int]@[location as int],
    {
        self.banks[bank][location]
    }

    /// Stores a byte at `location` in the active bank.
    pub fn set_at(&mut self, location: usize, value: u8)
        requires
            old(self).in_bounds(old(self).active_bank as int, location as int),
        ensures
            final(self).active_bank == old(self).active_bank,
            final(self).banks@.len() == old(self).banks@.len(),
            final(self).banks@[old(self).active_bank as int]@
                == old(self).banks@[old(self).active_bank as int]@.update(location as int, value),
            forall|k: int|
                0 <= k < old(self).banks@.len() && k != old(self).active_bank
                    ==> final(self).banks@[k] == old(self).banks@[k],
    {
        let bank = &mut self.banks[self.active_bank];
        bank.set(location, value);
    }
}

} // verus!
