//! The addressable memory unit: 64 KiB of bytes with the echo window
//! 0xE000-0xFDFF redirected onto work RAM at 0xC000-0xDDFF.

use vstd::prelude::*;

verus! {

/// The number of cells: one per 16-bit address.
pub const MEM_BANK_SIZE: usize = 0x10000;

/// First address of the echo window.
pub const ECHO_START: u16 = 0xE000;

/// Last address of the echo window.
pub const ECHO_END: u16 = 0xFDFF;

/// Distance between an echo address and the work RAM cell behind it.
pub const ECHO_OFFSET: u16 = 0x2000;

/// First address of the title in the cartridge header.
pub const TITLE_START: u16 = 0x134;

/// Number of bytes of the title.
pub const TITLE_LEN: u16 = 15;

/// Address of the mode byte in the cartridge header.
pub const COLOR_MODE_ADDRESS: u16 = 0x143;

/// Value of the mode byte that marks the enhanced-color variant.
pub const COLOR_MODE_FLAG: u8 = 0x80;

/// Which variant of the console a program image was built for.
#[derive(Clone, Copy, Debug, PartialEq, Eq, Structural)]
pub enum ColorMode {
    Color,
    NoColor,
}

/// Why a program image could not be loaded.
#[derive(Clone, Copy, Debug, PartialEq, Eq, Structural)]
pub enum LoadError {
    /// The image holds more bytes than the memory has cells.
    ImageTooLarge { size: usize },
}

/// The cells of a fresh memory: all zero.
pub open spec fn zeroed() -> Seq<u8> {
    Seq::new(MEM_BANK_SIZE as nat, |i: int| 0u8)
}

/// The cell that an access to `address` reaches: an address inside the echo
/// window stands for the work RAM cell 0x2000 below it, any other address
/// for its own cell.
pub open spec fn resolve(address: u16) -> int {
    if ECHO_START <= address <= ECHO_END {
        address - ECHO_OFFSET
    } else {
        address as int
    }
}

/// What a read of `address` returns from the cells `mem`.
pub open spec fn read(mem: Seq<u8>, address: u16) -> u8 {
    mem[resolve(address)]
}

/// The cells `mem` after `value` was written to `address`.
pub open spec fn write(mem: Seq<u8>, address: u16, value: u8) -> Seq<u8> {
    mem.update(resolve(address), value)
}

/// The cells after the image `image` was copied in from address 0 on.
pub open spec fn load(mem: Seq<u8>, image: Seq<u8>) -> Seq<u8> {
    image + mem.subrange(image.len() as int, mem.len() as int)
}

/// The title that the header of `mem` holds: one character per byte.
pub open spec fn title(mem: Seq<u8>) -> Seq<char> {
    Seq::new(TITLE_LEN as nat, |i: int| read(mem, (TITLE_START + i) as u16) as char)
}

/// The variant that the mode byte of `mem` announces.
pub open spec fn color_mode(mem: Seq<u8>) -> ColorMode {
    if read(mem, COLOR_MODE_ADDRESS) == COLOR_MODE_FLAG {
        ColorMode::Color
    } else {
        ColorMode::NoColor
    }
}

/// `String::push` of the standard library, which appends one character to
/// the end of the string. Assumed, not proved: after the call the string
/// holds the characters it held, in their order, followed by `ch`.
pub assume_specification[ String::push ](s: &mut String, ch: char)
    ensures
        final(s)@ == old(s)@.push(ch),
;

/// Memory Management Unit (MMU)
pub struct Mmu {
    memory: [u8; MEM_BANK_SIZE],
}

impl View for Mmu {
    type V = Seq<u8>;

    /// The cells, by storage index. No access reaches the cells at the
    /// indices of the echo window: they hold what was loaded there.
    closed spec fn view(&self) -> Seq<u8> {
        self.memory@
    }
}

impl Mmu {
    /// A memory of `MEM_BANK_SIZE` zeroed cells.
    pub fn new() -> (mmu: Self)
        ensures
            mmu@ == zeroed(),
    {
        let mmu = Self { memory: [0; MEM_BANK_SIZE] };
        assert(mmu@ =~= zeroed());
        mmu
    }

    /// Every memory holds exactly `MEM_BANK_SIZE` cells.
    pub proof fn lemma_len(&self)
        ensures
            self@.len() == MEM_BANK_SIZE,
    {
    }

    /// Copy a program image into memory, starting at address 0. An image
    /// that does not fit is refused and the memory is left as it was.
    pub fn load_rom(&mut self, rom: &[u8]) -> (result: Result<(), LoadError>)
        ensures
            rom@.len() <= MEM_BANK_SIZE ==> result is Ok && final(self)@ == load(old(self)@, rom@),
            rom@.len() > MEM_BANK_SIZE ==> result == Err::<(), LoadError>(
                LoadError::ImageTooLarge { size: rom@.len() as usize },
            ) && final(self)@ == old(self)@,
    {
        let size = rom.len();
        if size > MEM_BANK_SIZE {
            return Err(LoadError::ImageTooLarge { size });
        }
        let mut i: usize = 0;
        while i < size
            invariant
                i <= size,
                size == rom@.len(),
                size <= MEM_BANK_SIZE,
                self.memory@.len() == MEM_BANK_SIZE,
                forall|j: int| 0 <= j < i ==> self.memory@[j] == rom@[j],
                forall|j: int| i <= j < MEM_BANK_SIZE ==> self.memory@[j] == old(self).memory@[j],
            decreases size - i,
        {
            self.memory[i] = rom[i];
            i += 1;
        }
        assert(self@ =~= load(old(self)@, rom@));
        Ok(())
    }

    /// The storage index of the cell that an access to `address` reaches.
    fn cell(address: u16) -> (index: usize)
        ensures
            index == resolve(address),
    {
        if ECHO_START <= address && address <= ECHO_END {
            (address - ECHO_OFFSET) as usize
        } else {
            address as usize
        }
    }

    /// Read the byte at `address`, through the echo window if it lies there.
    pub fn read_byte_at(&self, address: u16) -> (value: u8)
        ensures
            value == read(self@, address),
    {
        self.memory[Self::cell(address)]
    }

    /// Write `value` to `address`, through the echo window if it lies there.
    pub fn write_byte_at(&mut self, address: u16, value: u8)
        ensures
            final(self)@ == write(old(self)@, address, value),
    {
        self.memory[Self::cell(address)] = value;
    }

    /// Return the game title as specified in the ROM data
    pub fn game_title(&self) -> (result: String)
        ensures
            result@ == title(self@),
    {
        let mut result = String::new();
        let mut i: u16 = 0;
        while i < TITLE_LEN
            invariant
                i <= TITLE_LEN,
                result@.len() == i,
                forall|j: int| 0 <= j < i ==> result@[j] == title(self@)[j],
            decreases TITLE_LEN - i,
        {
            result.push(self.read_byte_at(TITLE_START + i) as char);
            i += 1;
        }
        assert(result@ =~= title(self@));
        result
    }

    /// Return whether the ROM is for Game Boy Color or normal Game Boy
    pub fn color_mode(&self) -> (mode: ColorMode)
        ensures
            mode == color_mode(self@),
    {
        if self.read_byte_at(COLOR_MODE_ADDRESS) == COLOR_MODE_FLAG {
            ColorMode::Color
        } else {
            ColorMode::NoColor
        }
    }
}

/// A byte written through the echo window is read back from the work RAM
/// address 0x2000 below it, and a byte written to that work RAM address is
/// read back through the echo window.
pub proof fn lemma_echo_mirror(mem: Seq<u8>, address: u16, value: u8)
    requires
        mem.len() == MEM_BANK_SIZE,
        ECHO_START <= address <= ECHO_END,
    ensures
        read(write(mem, address, value), (address - ECHO_OFFSET) as u16) == value,
        read(write(mem, (address - ECHO_OFFSET) as u16, value), address) == value,
{
}

/// A write is read back from the address it went to, and leaves every
/// address that reaches another cell as it was.
pub proof fn lemma_read_after_write(mem: Seq<u8>, address: u16, value: u8, other: u16)
    requires
        mem.len() == MEM_BANK_SIZE,
    ensures
        write(mem, address, value).len() == MEM_BANK_SIZE,
        read(write(mem, address, value), address) == value,
        resolve(other) != resolve(address) ==> read(write(mem, address, value), other) == read(mem, other),
{
}

} // verus!
