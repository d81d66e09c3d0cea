//! Embedded flash memory: its sectors, and the register sequences that
//! erase and program it.

use vstd::prelude::*;

verus! {

/// STS: an operation is under way.
pub const OBF: u32 = 0x0001;
/// STS: programming error.
pub const PRGMERR: u32 = 0x0004;
/// STS: erase or program protection error.
pub const EPPERR: u32 = 0x0010;
/// CTRL: program.
pub const FPRGM: u32 = 0x0001;
/// CTRL: sector erase.
pub const SECERS: u32 = 0x0002;
/// CTRL: start erasing.
pub const ERSTR: u32 = 0x0040;
/// CTRL: operation lock.
pub const OPLK: u32 = 0x0080;
/// First key of the unlock sequence.
pub const UNLOCK_KEY1: u32 = 0x45670123;
/// Second key of the unlock sequence.
pub const UNLOCK_KEY2: u32 = 0xCDEF89AB;
/// Where the flash memory begins in the address space.
pub const BASE_ADDRESS: usize = 0x0800_0000;
/// Bytes of one programming row.
pub const ROW: usize = 16;
/// Largest flash size, in bytes, that sectors are worked out for.
pub const MAX_SIZE: usize = 0x100_0000;

/// Erase and program errors.
#[derive(Clone, Copy, Debug, PartialEq, Eq, Structural)]
pub enum Error {
    Programming,
    WriteProtection,
}

impl Error {
    /// The error that a status word reports: a programming error before a
    /// protection error.
    pub open spec fn spec_read(sts: u32) -> Option<Error> {
        if sts & PRGMERR != 0 {
            Some(Error::Programming)
        } else if sts & EPPERR != 0 {
            Some(Error::WriteProtection)
        } else {
            None
        }
    }

    /// The error that a status word reports, if any.
    #[verifier::when_used_as_spec(spec_read)]
    pub fn read(sts: u32) -> (e: Option<Error>)
        ensures
            e == Error::spec_read(sts),
    {
        if sts & PRGMERR != 0 {
            Some(Error::Programming)
        } else if sts & EPPERR != 0 {
            Some(Error::WriteProtection)
        } else {
            None
        }
    }
}

/// A sector of the flash memory.
#[derive(Clone, Copy, Debug, PartialEq, Eq, Structural)]
pub struct FlashSector {
    /// Number of the sector.
    pub number: u8,
    /// Where the sector begins, counted from the start of the memory.
    pub offset: usize,
    /// Size in bytes.
    pub size: usize,
}

impl FlashSector {
    pub open spec fn spec_contains(&self, offset: usize) -> bool {
        self.offset <= offset < self.offset + self.size
    }

    /// True when `offset` lies inside this sector.
    #[verifier::when_used_as_spec(spec_contains)]
    pub fn contains(&self, offset: usize) -> (inside: bool)
        requires
            self.offset + self.size <= usize::MAX,
        ensures
            inside == self.spec_contains(offset),
    {
        self.offset <= offset && offset < self.offset + self.size
    }
}

/// Size of the sector at place `index` of a bank: four of 16 KB, one of 64 KB,
/// then 128 KB each.
pub open spec fn sector_size(index: int) -> int {
    if index <= 3 {
        0x4000
    } else if index == 4 {
        0x1_0000
    } else {
        0x2_0000
    }
}

/// The sectors of a bank from place `index` on, the first of which begins at
/// `offset`, up to `end`.
pub open spec fn bank_from(start_sector: int, index: int, offset: int, end: int) -> Seq<
    FlashSector,
>
    decreases
        (if offset < end {
            end - offset
        } else {
            0
        }),
{
    if offset >= end || index < 0 {
        Seq::empty()
    } else {
        seq![
            FlashSector {
                number: (start_sector + index) as u8,
                offset: offset as usize,
                size: sector_size(index) as usize,
            },
        ] + bank_from(start_sector, index + 1, offset + sector_size(index), end)
    }
}

/// The sectors of a flash of `flash_size` bytes, in the order of their
/// addresses. A flash of two banks is split in the middle, and the sectors
/// of the second bank are numbered from 12.
pub open spec fn spec_flash_sectors(flash_size: usize, dual_bank: bool) -> Seq<FlashSector> {
    if dual_bank {
        bank_from(0, 0, 0, flash_size as int / 2) + bank_from(
            12,
            0,
            flash_size as int / 2,
            flash_size as int,
        )
    } else {
        bank_from(0, 0, 0, flash_size as int)
    }
}

/// Walks the sectors of one bank.
pub struct FlashSectorIterator {
    index: u8,
    start_sector: u8,
    start_offset: usize,
    end_offset: usize,
}

impl FlashSectorIterator {
    /// The sectors that are still to come.
    pub closed spec fn rest(&self) -> Seq<FlashSector> {
        bank_from(
            self.start_sector as int,
            self.index as int,
            self.start_offset as int,
            self.end_offset as int,
        )
    }

    /// The walk stays inside the sizes this module works with: the place
    /// reached lies at least as far into the memory as the sectors before it
    /// are long.
    pub closed spec fn wf(&self) -> bool {
        &&& self.end_offset <= MAX_SIZE
        &&& self.start_sector <= 12
        &&& self.start_offset <= MAX_SIZE + 0x2_0000
        &&& if self.index <= 4 {
            self.index * 0x4000 <= self.start_offset
        } else {
            (self.index - 4) * 0x2_0000 <= self.start_offset
        }
    }

    /// A walk over the bank from `start_offset` up to `end_offset`, whose
    /// first sector has number `start_sector`.
    pub fn new(start_sector: u8, start_offset: usize, end_offset: usize) -> (it: Self)
        requires
            end_offset <= MAX_SIZE,
            start_offset <= MAX_SIZE,
            start_sector <= 12,
        ensures
            it.wf(),
            it.rest() == bank_from(
                start_sector as int,
                0,
                start_offset as int,
                end_offset as int,
            ),
    {
        FlashSectorIterator { index: 0, start_sector, start_offset, end_offset }
    }

    /// The next sector, if the bank has one more.
    pub fn next(&mut self) -> (s: Option<FlashSector>)
        requires
            old(self).wf(),
        ensures
            final(self).wf(),
            old(self).rest().len() == 0 ==> s is None && final(self).rest() == old(self).rest(),
            old(self).rest().len() > 0 ==> s == Some(old(self).rest()[0]) && final(self).rest()
                == old(self).rest().drop_first(),
    {
        if self.start_offset >= self.end_offset {
            None
        } else {
            let size: usize = if self.index <= 3 {
                16 * 1024
            } else if self.index == 4 {
                64 * 1024
            } else {
                128 * 1024
            };
            let sector = FlashSector {
                number: self.start_sector + self.index,
                offset: self.start_offset,
                size,
            };
            proof {
                let tail = bank_from(
                    self.start_sector as int,
                    self.index as int + 1,
                    self.start_offset as int + sector_size(self.index as int),
                    self.end_offset as int,
                );
                assert(old(self).rest() == seq![sector] + tail);
                assert(old(self).rest().drop_first() =~= tail);
            }
            self.index = self.index + 1;
            self.start_offset = self.start_offset + size;
            Some(sector)
        }
    }
}

/// Collects the sectors of one bank.
fn bank(start_sector: u8, start_offset: usize, end_offset: usize, out: &mut Vec<FlashSector>)
    requires
        end_offset <= MAX_SIZE,
        start_offset <= MAX_SIZE,
        start_sector <= 12,
    ensures
        final(out)@ == old(out)@ + bank_from(
            start_sector as int,
            0,
            start_offset as int,
            end_offset as int,
        ),
{
    let mut it = FlashSectorIterator::new(start_sector, start_offset, end_offset);
    let ghost all = it.rest();
    let ghost before = out@;
    let mut left: usize = if start_offset < end_offset {
        end_offset - start_offset
    } else {
        0
    };
    proof {
        lemma_bank_len(start_sector as int, 0, start_offset as int, end_offset as int);
        assert(out@ + all =~= before + all);
    }
    loop
        invariant_except_break
            it.wf(),
            out@ + it.rest() == before + all,
            it.rest().len() <= left,
        ensures
            out@ == before + all,
        decreases left,
    {
        let ghost rest_before = it.rest();
        let ghost out_before = out@;
        match it.next() {
            None => {
                assert(out@ + Seq::<FlashSector>::empty() =~= out@);
                break ;
            },
            Some(sector) => {
                out.push(sector);
                assert(out@ + it.rest() =~= out_before + rest_before);
                left = left - 1;
            },
        }
    }
}

/// A bank has at most as many sectors as it has bytes.
proof fn lemma_bank_len(start_sector: int, index: int, offset: int, end: int)
    ensures
        bank_from(start_sector, index, offset, end).len() <= if offset < end {
            end - offset
        } else {
            0
        },
    decreases
        (if offset < end {
            end - offset
        } else {
            0
        }),
{
    if offset >= end || index < 0 {
    } else {
        lemma_bank_len(start_sector, index + 1, offset + sector_size(index), end);
    }
}

/// The sectors of a flash of `flash_size` bytes, in the order of their
/// addresses.
pub fn flash_sectors(flash_size: usize, dual_bank: bool) -> (sectors: Vec<FlashSector>)
    requires
        flash_size <= MAX_SIZE,
    ensures
        sectors@ == spec_flash_sectors(flash_size, dual_bank),
{
    let mut sectors: Vec<FlashSector> = Vec::new();
    if dual_bank {
        bank(0, 0, flash_size / 2, &mut sectors);
        bank(12, flash_size / 2, flash_size, &mut sectors);
    } else {
        bank(0, 0, flash_size, &mut sectors);
    }
    assert(Seq::<FlashSector>::empty() + spec_flash_sectors(flash_size, dual_bank)
        =~= spec_flash_sectors(flash_size, dual_bank));
    sectors
}

/// The sectors of a bank lie one behind the other without a gap: the first
/// begins where the bank begins, each next one where the one before it ends,
/// and the last one ends at or behind the end of the bank.
pub proof fn lemma_bank_is_contiguous(start_sector: int, index: int, offset: int, end: int)
    requires
        0 <= index,
        0 <= offset < end <= MAX_SIZE,
    ensures
        ({
            let b = bank_from(start_sector, index, offset, end);
            &&& b.len() > 0
            &&& b[0].offset == offset
            &&& forall|i: int|
                0 <= i < b.len() - 1 ==> (#[trigger] b[i + 1]).offset == b[i].offset + b[i].size
            &&& b.last().offset < end <= b.last().offset + b.last().size
        }),
    decreases
        (if offset < end {
            end - offset
        } else {
            0
        }),
{
    let b = bank_from(start_sector, index, offset, end);
    let next = offset + sector_size(index);
    let tail = bank_from(start_sector, index + 1, next, end);
    assert(b =~= seq![b[0]] + tail);
    if next < end {
        lemma_bank_is_contiguous(start_sector, index + 1, next, end);
        assert forall|i: int| 0 <= i < b.len() - 1 implies (#[trigger] b[i + 1]).offset
            == b[i].offset + b[i].size by {
            if i > 0 {
                assert(b[i + 1] == tail[i]);
                assert(b[i] == tail[i - 1]);
                assert(tail[(i - 1) + 1].offset == tail[i - 1].offset + tail[i - 1].size);
            } else {
                assert(b[1] == tail[0]);
            }
        }
        assert(b.last() == tail.last());
    } else {
        assert(tail.len() == 0);
    }
}

/// What the registers of the flash controller hold.
#[derive(Clone, Copy, Debug, PartialEq, Eq, Structural)]
pub struct Registers {
    pub sts: u32,
    pub ctrl: u32,
    pub addr: u32,
    pub unlock: u32,
}

/// Registers of the flash controller.
#[derive(Clone, Copy, Debug, PartialEq, Eq, Structural)]
pub enum Register {
    Sts,
    Ctrl,
    Addr,
    Unlock,
}

impl Registers {
    pub open spec fn get(self, r: Register) -> u32 {
        match r {
            Register::Sts => self.sts,
            Register::Ctrl => self.ctrl,
            Register::Addr => self.addr,
            Register::Unlock => self.unlock,
        }
    }

    pub open spec fn set(self, r: Register, word: u32) -> Registers {
        match r {
            Register::Sts => Registers { sts: word, ..self },
            Register::Ctrl => Registers { ctrl: word, ..self },
            Register::Addr => Registers { addr: word, ..self },
            Register::Unlock => Registers { unlock: word, ..self },
        }
    }
}

/// A flash controller and memory that are plain memory.
pub struct Flash {
    pub regs: Registers,
    pub memory: Vec<u8>,
}

/// Access to the flash controller and to the memory behind it. `image` is
/// what they hold when a call begins. The crate implements the trait for
/// [`Flash`], which is plain memory; an implementation for a peripheral
/// reads and writes the memory-mapped registers and the flash itself.
pub trait Instance {
    spec fn image(&self) -> Flash;

    /// Reads one register.
    fn read(&self, r: Register) -> (word: u32)
        ensures
            word == self.image().regs.get(r),
    ;

    /// Writes one register.
    fn write(&mut self, r: Register, word: u32)
        ensures
            final(self).image().regs == old(self).image().regs.set(r, word),
            final(self).image().memory@ == old(self).image().memory@,
    ;

    /// Size of the memory in bytes.
    fn len(&self) -> (n: usize)
        ensures
            n == self.image().memory@.len(),
    ;

    /// Reads one byte of the memory.
    fn read_byte(&self, offset: usize) -> (byte: u8)
        requires
            offset < self.image().memory@.len(),
        ensures
            byte == self.image().memory@[offset as int],
    ;

    /// Programs one byte of the memory. Programming can only clear bits: the
    /// byte then holds what it held and `byte` have in common.
    fn program_byte(&mut self, offset: usize, byte: u8)
        requires
            offset < old(self).image().memory@.len(),
        ensures
            final(self).image().regs == old(self).image().regs,
            final(self).image().memory@ == old(self).image().memory@.update(
                offset as int,
                old(self).image().memory@[offset as int] & byte,
            ),
    ;
}

impl Instance for Flash {
    open spec fn image(&self) -> Flash {
        *self
    }

    fn read(&self, r: Register) -> (word: u32) {
        match r {
            Register::Sts => self.regs.sts,
            Register::Ctrl => self.regs.ctrl,
            Register::Addr => self.regs.addr,
            Register::Unlock => self.regs.unlock,
        }
    }

    fn write(&mut self, r: Register, word: u32) {
        match r {
            Register::Sts => {
                self.regs.sts = word;
            },
            Register::Ctrl => {
                self.regs.ctrl = word;
            },
            Register::Addr => {
                self.regs.addr = word;
            },
            Register::Unlock => {
                self.regs.unlock = word;
            },
        }
    }

    fn len(&self) -> (n: usize) {
        self.memory.len()
    }

    fn read_byte(&self, offset: usize) -> (byte: u8) {
        self.memory[offset]
    }

    fn program_byte(&mut self, offset: usize, byte: u8) {
        let held: u8 = self.memory[offset];
        self.memory.set(offset, held & byte);
    }
}

/// True when a flash of `len` bytes is organised in two banks: one of 2 MB
/// is, smaller ones are not.
pub open spec fn spec_dual_bank(len: usize) -> bool {
    len / 1024 == 2048
}

#[verifier::when_used_as_spec(spec_dual_bank)]
pub fn dual_bank(len: usize) -> (dual: bool)
    ensures
        dual == spec_dual_bank(len),
{
    len / 1024 == 2048
}

/// The first sector of `sectors` that `offset` lies in.
pub open spec fn spec_find(sectors: Seq<FlashSector>, offset: usize) -> Option<FlashSector>
    decreases sectors.len(),
{
    if sectors.len() == 0 {
        None
    } else if sectors[0].spec_contains(offset) {
        Some(sectors[0])
    } else {
        spec_find(sectors.drop_first(), offset)
    }
}

/// The first sector of `sectors` that `offset` lies in.
pub fn find(sectors: &Vec<FlashSector>, offset: usize) -> (found: Option<FlashSector>)
    requires
        forall|i: int| 0 <= i < sectors@.len() ==> sectors@[i].offset + sectors@[i].size
            <= usize::MAX,
    ensures
        found == spec_find(sectors@, offset),
{
    let mut i: usize = 0;
    assert(sectors@.skip(0) =~= sectors@);
    while i < sectors.len()
        invariant
            i <= sectors@.len(),
            forall|k: int| 0 <= k < sectors@.len() ==> sectors@[k].offset + sectors@[k].size
                <= usize::MAX,
            spec_find(sectors@, offset) == spec_find(sectors@.skip(i as int), offset),
        decreases sectors@.len() - i,
    {
        let s: FlashSector = sectors[i];
        assert(sectors@.skip(i as int)[0] == sectors@[i as int]);
        assert(sectors@.skip(i as int).drop_first() =~= sectors@.skip(i as int + 1));
        if s.contains(offset) {
            return Some(s);
        }
        i = i + 1;
    }
    assert(sectors@.skip(i as int).len() == 0);
    None
}

/// Every sector of a bank up to [`MAX_SIZE`] ends inside the address space.
proof fn lemma_bank_bounded(start_sector: int, index: int, offset: int, end: int)
    requires
        0 <= offset,
        end <= MAX_SIZE,
    ensures
        forall|i: int|
            0 <= i < bank_from(start_sector, index, offset, end).len() ==> (#[trigger] bank_from(
                start_sector,
                index,
                offset,
                end,
            )[i]).offset + bank_from(start_sector, index, offset, end)[i].size <= MAX_SIZE + 128
                * 1024,
        forall|i: int|
            0 <= i < bank_from(start_sector, index, offset, end).len() ==> (#[trigger] bank_from(
                start_sector,
                index,
                offset,
                end,
            )[i]).size <= 128 * 1024 && bank_from(start_sector, index, offset, end)[i].offset
                <= MAX_SIZE,
        bank_from(start_sector, index, offset, end).len() <= if offset < end {
            (end - offset + 0x3FFF) / 0x4000
        } else {
            0
        },
    decreases
        (if offset < end {
            end - offset
        } else {
            0
        }),
{
    if offset >= end || index < 0 {
    } else {
        assert(sector_size(index) > 0);
        lemma_bank_bounded(start_sector, index + 1, offset + sector_size(index), end);
        let b = bank_from(start_sector, index, offset, end);
        let tail = bank_from(start_sector, index + 1, offset + sector_size(index), end);
        assert forall|i: int| 0 <= i < b.len() implies (#[trigger] b[i]).offset + b[i].size
            <= MAX_SIZE + 128 * 1024 && b[i].size <= 128 * 1024 && b[i].offset <= MAX_SIZE by {
            if i > 0 {
                assert(b[i] == tail[i - 1]);
            }
        }
    }
}

/// Flash features of a memory block.
pub trait FlashExt {
    /// Where the memory begins in the address space.
    fn address(&self) -> usize;

    /// Size in bytes.
    fn len(&self) -> usize;

    /// True when the memory is organised in two banks.
    fn dual_bank(&self) -> bool;

    /// The sector that `offset` lies in, if it lies in the memory.
    fn sector(&self, offset: usize) -> Option<FlashSector>;
}

/// Flash that can be read only.
pub struct LockedFlash<FLASH> {
    pub flash: FLASH,
}

/// Flash that can be erased and programmed.
pub struct UnlockedFlash<FLASH> {
    pub flash: FLASH,
}

impl<FLASH: Instance> LockedFlash<FLASH> {
    pub fn new(flash: FLASH) -> (l: Self)
        ensures
            l.flash == flash,
    {
        LockedFlash { flash }
    }

    /// Size in bytes.
    pub fn capacity(&self) -> (n: usize)
        ensures
            n == self.flash.image().memory@.len(),
    {
        self.flash.len()
    }

    /// The `len` bytes of the memory from `offset` on.
    pub fn read(&self, offset: usize, len: usize) -> (bytes: Vec<u8>)
        requires
            offset + len <= self.flash.image().memory@.len(),
        ensures
            bytes@ == self.flash.image().memory@.subrange(offset as int, offset + len),
    {
        read_bytes(&self.flash, offset, len)
    }

    /// Writes the two keys to the unlock register and looks whether the lock
    /// has opened. Gives the flash unlocked, or as it is when the lock has
    /// not opened.
    pub fn unlocked(self) -> (r: Result<UnlockedFlash<FLASH>, LockedFlash<FLASH>>)
        ensures
            match r {
                Ok(u) => self.flash.image().regs.ctrl & OPLK == 0 && u.flash.image().regs == self.flash.image().regs.set(
                    Register::Unlock,
                    UNLOCK_KEY2,
                ) && u.flash.image().memory@ == self.flash.image().memory@,
                Err(l) => self.flash.image().regs.ctrl & OPLK != 0 && l.flash.image().regs
                    == self.flash.image().regs.set(Register::Unlock, UNLOCK_KEY2) && l.flash.image().memory@
                    == self.flash.image().memory@,
            },
    {
        let mut flash = self.flash;
        if unlock(&mut flash) {
            Ok(UnlockedFlash { flash })
        } else {
            Err(LockedFlash { flash })
        }
    }
}

impl<FLASH: Instance> FlashExt for LockedFlash<FLASH> {
    fn address(&self) -> (a: usize)
        ensures
            a == BASE_ADDRESS,
    {
        BASE_ADDRESS
    }

    fn len(&self) -> (n: usize)
        ensures
            n == self.flash.image().memory@.len(),
    {
        self.flash.len()
    }

    fn dual_bank(&self) -> (dual: bool)
        ensures
            dual == spec_dual_bank(self.flash.image().memory@.len() as usize),
    {
        dual_bank(self.flash.len())
    }

    /// The sector that `offset` lies in. A memory above [`MAX_SIZE`] has no
    /// sectors worked out.
    fn sector(&self, offset: usize) -> (s: Option<FlashSector>)
        ensures
            s == if self.flash.image().memory@.len() <= MAX_SIZE {
                spec_find(
                    spec_flash_sectors(
                        self.flash.image().memory@.len() as usize,
                        spec_dual_bank(self.flash.image().memory@.len() as usize),
                    ),
                    offset,
                )
            } else {
                None
            },
    {
        let len: usize = self.flash.len();
        if len <= MAX_SIZE {
            sector_of(len, dual_bank(len), offset)
        } else {
            None
        }
    }
}

/// The sector of a flash of `flash_size` bytes that `offset` lies in.
pub fn sector_of(flash_size: usize, dual: bool, offset: usize) -> (s: Option<FlashSector>)
    requires
        flash_size <= MAX_SIZE,
    ensures
        s == spec_find(spec_flash_sectors(flash_size, dual), offset),
{
    let sectors: Vec<FlashSector> = flash_sectors(flash_size, dual);
    proof {
        lemma_bank_bounded(0, 0, 0, flash_size as int / 2);
        lemma_bank_bounded(12, 0, flash_size as int / 2, flash_size as int);
        lemma_bank_bounded(0, 0, 0, flash_size as int);
    }
    find(&sectors, offset)
}

/// The `len` bytes of the memory from `offset` on.
pub fn read_bytes<FLASH: Instance>(flash: &FLASH, offset: usize, len: usize) -> (bytes: Vec<u8>)
    requires
        offset + len <= flash.image().memory@.len(),
    ensures
        bytes@ == flash.image().memory@.subrange(offset as int, offset + len),
{
    let mut bytes: Vec<u8> = Vec::new();
    let total: usize = flash.len();
    let mut i: usize = 0;
    assert(bytes@ =~= flash.image().memory@.subrange(offset as int, offset as int));
    while i < len
        invariant
            i <= len,
            offset + len <= total,
            total == flash.image().memory@.len(),
            bytes@ == flash.image().memory@.subrange(offset as int, offset + i),
        decreases len - i,
    {
        bytes.push(flash.read_byte(offset + i));
        i = i + 1;
        assert(bytes@ =~= flash.image().memory@.subrange(offset as int, offset + i));
    }
    bytes
}

/// Writes the two keys to the unlock register. True when the lock is open
/// afterwards.
pub fn unlock<FLASH: Instance>(flash: &mut FLASH) -> (open: bool)
    ensures
        final(flash).image().regs == old(flash).image().regs.set(Register::Unlock, UNLOCK_KEY2),
        final(flash).image().memory@ == old(flash).image().memory@,
        open == (old(flash).image().regs.ctrl & OPLK == 0),
{
    flash.write(Register::Unlock, UNLOCK_KEY1);
    flash.write(Register::Unlock, UNLOCK_KEY2);
    flash.read(Register::Ctrl) & OPLK == 0
}

/// Closes the lock.
pub fn lock<FLASH: Instance>(flash: &mut FLASH)
    ensures
        final(flash).image().regs == old(flash).image().regs.set(
            Register::Ctrl,
            old(flash).image().regs.ctrl | OPLK,
        ),
        final(flash).image().memory@ == old(flash).image().memory@,
{
    let word: u32 = flash.read(Register::Ctrl);
    flash.write(Register::Ctrl, word | OPLK);
}

/// Number of bytes from `offset` to the end of its programming row.
pub open spec fn row_room(offset: usize) -> int {
    ROW - offset % ROW
}

/// The memory with `bytes[..n]` programmed from `offset` on.
pub open spec fn programmed(memory: Seq<u8>, offset: int, bytes: Seq<u8>, n: int) -> Seq<u8>
    decreases n,
{
    if n <= 0 {
        memory
    } else {
        let before = programmed(memory, offset, bytes, n - 1);
        before.update(offset + n - 1, before[offset + n - 1] & bytes[n - 1])
    }
}

/// The numbers of the first `n` sectors of `sectors` that are erased to clear
/// the memory from `current` up to `to`: a sector is erased when it holds the
/// place reached so far, which then moves on by the size of the sector; the
/// walk ends once that place has reached `to`.
pub open spec fn spec_erase_plan(sectors: Seq<FlashSector>, current: int, to: int) -> Seq<u8>
    decreases sectors.len(),
{
    if sectors.len() == 0 {
        Seq::empty()
    } else {
        let s = sectors[0];
        let hit = s.offset <= current < s.offset + s.size;
        let reached = if hit {
            current + s.size
        } else {
            current
        };
        let head = if hit {
            seq![s.number]
        } else {
            Seq::empty()
        };
        if reached >= to {
            head
        } else {
            head + spec_erase_plan(sectors.drop_first(), reached, to)
        }
    }
}

/// Walks `sectors` for the numbers of those to erase.
fn plan_over(sectors: &Vec<FlashSector>, from: u32, to: u32) -> (plan: Vec<u8>)
    requires
        forall|i: int|
            0 <= i < sectors@.len() ==> (#[trigger] sectors@[i]).size <= 0x2_0000
                && sectors@[i].offset <= MAX_SIZE,
        sectors@.len() <= 0x1000,
    ensures
        plan@ == spec_erase_plan(sectors@, from as int, to as int),
{
    let mut plan: Vec<u8> = Vec::new();
    let mut current: u64 = from as u64;
    let mut i: usize = 0;
    assert(sectors@.skip(0) =~= sectors@);
    assert(plan@ + spec_erase_plan(sectors@, from as int, to as int) =~= spec_erase_plan(
        sectors@,
        from as int,
        to as int,
    ));
    while i < sectors.len()
        invariant
            i <= sectors@.len(),
            sectors@.len() <= 0x1000,
            forall|k: int|
                0 <= k < sectors@.len() ==> (#[trigger] sectors@[k]).size <= 0x2_0000
                    && sectors@[k].offset <= MAX_SIZE,
            current <= from + i * 0x2_0000,
            spec_erase_plan(sectors@, from as int, to as int) == plan@ + spec_erase_plan(
                sectors@.skip(i as int),
                current as int,
                to as int,
            ),
        decreases sectors@.len() - i,
    {
        let s: FlashSector = sectors[i];
        let ghost rest = sectors@.skip(i as int);
        assert(rest[0] == s);
        assert(sectors@[i as int].size <= 0x2_0000 && sectors@[i as int].offset <= MAX_SIZE);
        assert(rest.drop_first() =~= sectors@.skip(i as int + 1));
        let ghost old_plan = plan@;
        let ghost old_current = current;
        if (s.offset as u64) <= current && current < (s.offset as u64) + (s.size as u64) {
            plan.push(s.number);
            current = current + s.size as u64;
        }
        if current >= to as u64 {
            assert(plan@ =~= old_plan + spec_erase_plan(rest, old_current as int, to as int));
            return plan;
        }
        assert(plan@ + spec_erase_plan(sectors@.skip(i as int + 1), current as int, to as int)
            =~= old_plan + spec_erase_plan(rest, old_current as int, to as int));
        i = i + 1;
    }
    assert(plan@ + Seq::<u8>::empty() =~= plan@);
    plan
}

/// The numbers of the sectors of a flash of `flash_size` bytes to erase, in
/// order, to clear the memory from `from` up to `to`.
pub fn erase_plan(flash_size: usize, dual: bool, from: u32, to: u32) -> (plan: Vec<u8>)
    requires
        flash_size <= MAX_SIZE,
    ensures
        plan@ == spec_erase_plan(spec_flash_sectors(flash_size, dual), from as int, to as int),
{
    let sectors: Vec<FlashSector> = flash_sectors(flash_size, dual);
    proof {
        lemma_bank_bounded(0, 0, 0, flash_size as int / 2);
        lemma_bank_bounded(12, 0, flash_size as int / 2, flash_size as int);
        lemma_bank_bounded(0, 0, 0, flash_size as int);
    }
    plan_over(&sectors, from, to)
}

impl<FLASH: Instance> UnlockedFlash<FLASH> {
    /// Starts the erasure of sector `page`: its number is written to the
    /// address register and the erase is started. The end is waited for with
    /// [`UnlockedFlash::wait_ready`], and [`UnlockedFlash::ok`] tells how it
    /// went.
    pub fn erase(&mut self, page: u8)
        ensures
            final(self).flash.image().memory@ == old(self).flash.image().memory@,
            final(self).flash.image().regs == old(self).flash.image().regs.set(Register::Addr, page as u32).set(
                Register::Ctrl,
                old(self).flash.image().regs.ctrl | SECERS | ERSTR,
            ),
    {
        self.flash.write(Register::Addr, page as u32);
        let word: u32 = self.flash.read(Register::Ctrl);
        self.flash.write(Register::Ctrl, word | SECERS | ERSTR);
    }

    /// Programs the bytes of `bytes` from `offset` on that fit the
    /// programming row of `offset`, and says how many these were. The end is
    /// waited for with [`UnlockedFlash::wait_ready`] before the next row.
    pub fn program(&mut self, offset: usize, bytes: &[u8]) -> (written: usize)
        requires
            offset + bytes@.len() <= old(self).flash.image().memory@.len(),
        ensures
            written == if bytes@.len() <= row_room(offset) {
                bytes@.len() as int
            } else {
                row_room(offset)
            },
            final(self).flash.image().regs == old(self).flash.image().regs.set(
                Register::Ctrl,
                old(self).flash.image().regs.ctrl | FPRGM,
            ),
            final(self).flash.image().memory@ == programmed(
                old(self).flash.image().memory@,
                offset as int,
                bytes@,
                written as int,
            ),
    {
        let total: usize = self.flash.len();
        let amount: usize = ROW - offset % ROW;
        let word: u32 = self.flash.read(Register::Ctrl);
        self.flash.write(Register::Ctrl, word | FPRGM);
        let n: usize = if bytes.len() <= amount {
            bytes.len()
        } else {
            amount
        };
        let ghost regs = self.flash.image().regs;
        let ghost before = old(self).flash.image().memory@;
        let mut i: usize = 0;
        while i < n
            invariant
                i <= n <= bytes@.len(),
                offset + bytes@.len() <= total,
                total == before.len(),
                self.flash.image().regs == regs,
                self.flash.image().memory@.len() == before.len(),
                self.flash.image().memory@ == programmed(before, offset as int, bytes@, i as int),
            decreases n - i,
        {
            self.flash.program_byte(offset + i, bytes[i]);
            i = i + 1;
        }
        n
    }

    /// The outcome of the last operation, by the status register.
    pub fn ok(&self) -> (r: Result<(), Error>)
        ensures
            r == match Error::spec_read(self.flash.image().regs.sts) {
                Some(e) => Err::<(), Error>(e),
                None => Ok::<(), Error>(()),
            },
    {
        match Error::read(self.flash.read(Register::Sts)) {
            Some(e) => Err(e),
            None => Ok(()),
        }
    }

    /// True when no operation is under way.
    pub fn wait_ready(&self) -> (ready: bool)
        ensures
            ready == (self.flash.image().regs.sts & OBF == 0),
    {
        self.flash.read(Register::Sts) & OBF == 0
    }

    /// Closes the lock and gives the flash back read-only.
    pub fn lock(self) -> (l: LockedFlash<FLASH>)
        ensures
            l.flash.image().memory@ == self.flash.image().memory@,
            l.flash.image().regs == self.flash.image().regs.set(
                Register::Ctrl,
                self.flash.image().regs.ctrl | OPLK,
            ),
    {
        let mut flash = self.flash;
        lock(&mut flash);
        LockedFlash { flash }
    }
}

} // verus!
