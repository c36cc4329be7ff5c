use vstd::prelude::*;

verus! {

/// Size of the physical address space: 1 MiB.
pub const MEMORY_SIZE: usize = 0x10_0000;

/// Size a BIOS ROM image must have.
pub const BIOS_SIZE: usize = 0x1_0000;

/// Where the BIOS ROM is mapped.
pub const BIOS_BASE: usize = 0xF_0000;

/// Where the optional video ROM is mapped.
pub const VIDEO_BASE: usize = 0xC_0000;

/// A physical address reduced to 20 bits.
pub open spec fn phys(addr: int) -> int {
    addr % (MEMORY_SIZE as int)
}

/// The memory image after writing a little-endian word at `addr`.
pub open spec fn write_word(ram: Seq<u8>, addr: int, v: u16) -> Seq<u8> {
    ram.update(phys(addr), (v % 256) as u8).update(phys(addr + 1), (v / 256) as u8)
}

/// The little-endian word stored at `addr`.
pub open spec fn read_word(ram: Seq<u8>, addr: int) -> int {
    ram[phys(addr)] + 256 * ram[phys(addr + 1)]
}

/// The little-endian value of the `n` bytes stored from `addr` on.
pub open spec fn read_le(ram: Seq<u8>, addr: int, n: nat) -> int
    decreases n,
{
    if n == 0 {
        0
    } else {
        ram[phys(addr)] + 256 * read_le(ram, addr + 1, (n - 1) as nat)
    }
}

/// Why a memory image could not be built from ROM images.
#[derive(Clone, Copy, Debug, PartialEq, Eq, Structural)]
pub enum RomError {
    /// The BIOS image does not hold exactly 64 KiB; the length found.
    BiosSize(usize),
    /// The video ROM would run into the BIOS area; the length found.
    VideoSize(usize),
}

/// A request to memory. A read answers with the value read.
#[derive(Clone, Copy, Debug, PartialEq, Eq, Structural)]
#[allow(inconsistent_fields)]
pub enum MemoryMsg {
    SetByte { addr: usize, value: u8 },
    SetWord { addr: usize, value: u16 },
    GetByte { addr: usize },
    GetWord { addr: usize },
    GetBytes8 { addr: usize },
}

/// The 1 MiB physical memory.
pub struct Memory {
    ram: Vec<u8>,
}

/// The initial content of memory: zeros, with the video ROM at 0xC0000 and the BIOS at 0xF0000.
pub open spec fn initial_image(bios: Seq<u8>, video: Seq<u8>) -> Seq<u8> {
    Seq::new(
        MEMORY_SIZE as nat,
        |i: int|
            if i >= BIOS_BASE as int {
                bios[i - BIOS_BASE as int]
            } else if VIDEO_BASE as int <= i < VIDEO_BASE as int + video.len() {
                video[i - VIDEO_BASE as int]
            } else {
                0u8
            },
    )
}

/// Builds memory from a BIOS image of exactly 64 KiB and a video ROM that fits below it.
pub fn start(bios_rom: &Vec<u8>, video_rom: &Vec<u8>) -> (r: Result<Memory, RomError>)
    ensures
        bios_rom@.len() != BIOS_SIZE ==> r == Err::<Memory, RomError>(
            RomError::BiosSize(bios_rom@.len() as usize),
        ),
        bios_rom@.len() == BIOS_SIZE && video_rom@.len() > BIOS_BASE - VIDEO_BASE ==> r == Err::<
            Memory,
            RomError,
        >(RomError::VideoSize(video_rom@.len() as usize)),
        bios_rom@.len() == BIOS_SIZE && video_rom@.len() <= BIOS_BASE - VIDEO_BASE ==> r is Ok,
        r matches Ok(m) ==> m.wf() && m@ == initial_image(bios_rom@, video_rom@),
{
    if bios_rom.len() != BIOS_SIZE {
        return Err(RomError::BiosSize(bios_rom.len()));
    }
    if video_rom.len() > BIOS_BASE - VIDEO_BASE {
        return Err(RomError::VideoSize(video_rom.len()));
    }
    let mut ram: Vec<u8> = Vec::with_capacity(MEMORY_SIZE);
    let mut i: usize = 0;
    while i < MEMORY_SIZE
        invariant
            i <= MEMORY_SIZE,
            ram@.len() == i,
            bios_rom@.len() == BIOS_SIZE,
            video_rom@.len() <= BIOS_BASE - VIDEO_BASE,
            forall|j: int| 0 <= j < i ==> ram@[j] == initial_image(bios_rom@, video_rom@)[j],
        decreases MEMORY_SIZE - i,
    {
        let b: u8 = if i >= BIOS_BASE {
            bios_rom[i - BIOS_BASE]
        } else if VIDEO_BASE <= i && i < VIDEO_BASE + video_rom.len() {
            video_rom[i - VIDEO_BASE]
        } else {
            0
        };
        ram.push(b);
        i = i + 1;
    }
    let m = Memory { ram };
    assert(m@ =~= initial_image(bios_rom@, video_rom@));
    Ok(m)
}

impl View for Memory {
    type V = Seq<u8>;

    closed spec fn view(&self) -> Seq<u8> {
        self.ram@
    }
}

impl Memory {
    /// The store always spans the whole 1 MiB.
    pub open spec fn wf(&self) -> bool {
        self@.len() == MEMORY_SIZE
    }

    /// Memory of all zeros.
    pub fn zeroed() -> (r: Memory)
        ensures
            r.wf(),
            forall|i: int| 0 <= i < MEMORY_SIZE ==> r@[i] == 0,
    {
        let mut ram: Vec<u8> = Vec::with_capacity(MEMORY_SIZE);
        let mut i: usize = 0;
        while i < MEMORY_SIZE
            invariant
                i <= MEMORY_SIZE,
                ram@.len() == i,
                forall|j: int| 0 <= j < i ==> ram@[j] == 0,
            decreases MEMORY_SIZE - i,
        {
            ram.push(0);
            i = i + 1;
        }
        Memory { ram }
    }

    pub fn get_byte(&self, addr: usize) -> (r: u8)
        requires
            self.wf(),
        ensures
            r == self@[phys(addr as int)],
    {
        self.ram[addr % MEMORY_SIZE]
    }

    pub fn get_word(&self, addr: usize) -> (r: u16)
        requires
            self.wf(),
        ensures
            r as int == read_word(self@, addr as int),
    {
        let lo = self.ram[addr % MEMORY_SIZE] as u16;
        let hi = self.ram[(addr % MEMORY_SIZE + 1) % MEMORY_SIZE] as u16;
        proof {
            lemma_phys_next(addr as int);
        }
        lo + 256 * hi
    }

    /// The eight bytes from `addr` on, little-endian, as the instruction fetch reads them.
    pub fn get_bytes8(&self, addr: usize) -> (r: u64)
        requires
            self.wf(),
        ensures
            r as int == read_le(self@, addr as int, 8),
    {
        let mut value: u64 = 0;
        let mut i: usize = 8;
        let base = addr % MEMORY_SIZE;
        proof {
            lemma_phys_shift(addr as int);
        }
        while i > 0
            invariant
                i <= 8,
                base == phys(addr as int),
                self.wf(),
                value as int == read_le(self@, base + i, (8 - i) as nat),
                (value as int) < pow256(8 - i),
            decreases i,
        {
            i = i - 1;
            let b = self.ram[(base + i) % MEMORY_SIZE];
            proof {
                lemma_phys_shift(base + i);
                lemma_pow256_step(8 - i - 1);
                lemma_pow256_le(8 - i - 1, 7);
                reveal_with_fuel(pow256, 8);
                assert(pow256(7) == 0x100_0000_0000_0000);
                assert(read_le(self@, base + i, (8 - i) as nat) == self@[phys(base + i)] + 256 * read_le(self@, base + i + 1, (8 - i - 1) as nat));
            }
            value = b as u64 + 256 * value;
        }
        proof {
            lemma_read_le_phys(self@, addr as int, 8);
        }
        value
    }

    pub fn set_byte(&mut self, addr: usize, value: u8)
        requires
            old(self).wf(),
        ensures
            final(self).wf(),
            final(self)@ == old(self)@.update(phys(addr as int), value),
    {
        self.ram.set(addr % MEMORY_SIZE, value);
    }

    pub fn set_word(&mut self, addr: usize, value: u16)
        requires
            old(self).wf(),
        ensures
            final(self).wf(),
            final(self)@ == write_word(old(self)@, addr as int, value),
    {
        proof {
            lemma_phys_next(addr as int);
        }
        self.ram.set(addr % MEMORY_SIZE, (value % 256) as u8);
        self.ram.set((addr % MEMORY_SIZE + 1) % MEMORY_SIZE, (value / 256) as u8);
    }
}

impl Memory {
    /// Serves one request: writes change memory and answer nothing; reads answer the value.
    pub fn process_msg(&mut self, msg: MemoryMsg) -> (r: Option<u64>)
        requires
            old(self).wf(),
        ensures
            final(self).wf(),
            match msg {
                MemoryMsg::SetByte { addr, value } => r is None && final(self)@ == old(self)@.update(
                    phys(addr as int),
                    value,
                ),
                MemoryMsg::SetWord { addr, value } => r is None && final(self)@ == write_word(
                    old(self)@,
                    addr as int,
                    value,
                ),
                MemoryMsg::GetByte { addr } => r == Some(old(self)@[phys(addr as int)] as u64)
                    && final(self)@ == old(self)@,
                MemoryMsg::GetWord { addr } => r == Some(read_word(old(self)@, addr as int) as u64)
                    && final(self)@ == old(self)@,
                MemoryMsg::GetBytes8 { addr } => r == Some(read_le(old(self)@, addr as int, 8) as u64)
                    && final(self)@ == old(self)@,
            },
    {
        match msg {
            MemoryMsg::SetByte { addr, value } => {
                self.set_byte(addr, value);
                None
            },
            MemoryMsg::SetWord { addr, value } => {
                self.set_word(addr, value);
                None
            },
            MemoryMsg::GetByte { addr } => Some(self.get_byte(addr) as u64),
            MemoryMsg::GetWord { addr } => Some(self.get_word(addr) as u64),
            MemoryMsg::GetBytes8 { addr } => Some(self.get_bytes8(addr)),
        }
    }
}

pub open spec fn pow256(n: int) -> int
    decreases n,
{
    if n <= 0 {
        1
    } else {
        256 * pow256(n - 1)
    }
}

proof fn lemma_pow256_step(n: int)
    requires
        0 <= n,
    ensures
        pow256(n + 1) == 256 * pow256(n),
        pow256(n) > 0,
    decreases n,
{
    if n > 0 {
        lemma_pow256_step(n - 1);
    }
}

proof fn lemma_pow256_le(a: int, b: int)
    requires
        0 <= a <= b,
    ensures
        pow256(a) <= pow256(b),
    decreases b - a,
{
    if a < b {
        lemma_pow256_le(a, b - 1);
        lemma_pow256_step(b - 1);
    }
}

proof fn lemma_phys_next(addr: int)
    requires
        addr >= 0,
    ensures
        phys(addr + 1) == (phys(addr) + 1) % (MEMORY_SIZE as int),
{
}

proof fn lemma_phys_shift(addr: int)
    requires
        addr >= 0,
    ensures
        phys(phys(addr)) == phys(addr),
        forall|k: int| 0 <= k ==> #[trigger] phys(phys(addr) + k) == phys(addr + k),
{
    assert forall|k: int| 0 <= k implies #[trigger] phys(phys(addr) + k) == phys(addr + k) by {
        vstd::arithmetic::div_mod::lemma_add_mod_noop(addr, k, MEMORY_SIZE as int);
        vstd::arithmetic::div_mod::lemma_mod_twice(addr, MEMORY_SIZE as int);
        vstd::arithmetic::div_mod::lemma_add_mod_noop(phys(addr), k, MEMORY_SIZE as int);
    }
}

proof fn lemma_read_le_phys(ram: Seq<u8>, addr: int, n: nat)
    requires
        addr >= 0,
    ensures
        read_le(ram, phys(addr), n) == read_le(ram, addr, n),
    decreases n,
{
    if n > 0 {
        lemma_phys_shift(addr);
        assert(phys(phys(addr) + 1) == phys(addr + 1));
        lemma_read_le_phys_shift(ram, addr, 1, (n - 1) as nat);
    }
}

proof fn lemma_read_le_phys_shift(ram: Seq<u8>, addr: int, k: int, n: nat)
    requires
        addr >= 0,
        k >= 0,
    ensures
        read_le(ram, phys(addr) + k, n) == read_le(ram, addr + k, n),
    decreases n,
{
    if n > 0 {
        lemma_phys_shift(addr);
        assert(phys(phys(addr) + k) == phys(addr + k));
        lemma_read_le_phys_shift(ram, addr, k + 1, (n - 1) as nat);
    }
}

/// A word written at `addr` reads back byte by byte: its low half at `addr`, its high half at
/// `addr + 1`, and as a whole word.
pub proof fn lemma_word_then_bytes(ram: Seq<u8>, addr: int, v: u16)
    requires
        ram.len() == MEMORY_SIZE,
        addr >= 0,
    ensures
        write_word(ram, addr, v)[phys(addr)] == v % 256,
        write_word(ram, addr, v)[phys(addr + 1)] == v / 256,
        read_word(write_word(ram, addr, v), addr) == v,
{
    lemma_phys_next(addr);
}

} // verus!
