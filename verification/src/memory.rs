use vstd::prelude::*;

verus! {

/// Size in bytes of one block of working or video memory.
pub const BLOCK_SIZE: usize = 8192;

/// Size in bytes of the flat address space held by [`Memory`].
pub const FLAT_SIZE: usize = 65535;

/// A bare memory image: one flat block and two 8 KiB blocks, all zeroed.
pub struct Memory {
    pub entire_memory: Vec<u8>,
    ram: Vec<u8>,
    v_ram: Vec<u8>,
}

impl Memory {
    /// All three blocks have their fixed sizes.
    pub closed spec fn wf(&self) -> bool {
        &&& self.entire_memory@.len() == FLAT_SIZE
        &&& self.ram@.len() == BLOCK_SIZE
        &&& self.v_ram@.len() == BLOCK_SIZE
    }

    /// The contents of the flat block.
    pub closed spec fn flat_view(&self) -> Seq<u8> {
        self.entire_memory@
    }

    /// The contents of the working-memory block.
    pub closed spec fn ram_view(&self) -> Seq<u8> {
        self.ram@
    }

    /// The contents of the video-memory block.
    pub closed spec fn v_ram_view(&self) -> Seq<u8> {
        self.v_ram@
    }

    /// A memory image in which every byte of every block is zero.
    pub fn new() -> (m: Memory)
        ensures
            m.wf(),
            m.flat_view() == Seq::new(FLAT_SIZE as nat, |i: int| 0u8),
            m.ram_view() == Seq::new(BLOCK_SIZE as nat, |i: int| 0u8),
            m.v_ram_view() == Seq::new(BLOCK_SIZE as nat, |i: int| 0u8),
    {
        let entire_memory: Vec<u8> = vec![0u8; FLAT_SIZE];
        let ram: Vec<u8> = vec![0u8; BLOCK_SIZE];
        let v_ram: Vec<u8> = vec![0u8; BLOCK_SIZE];
        assert(entire_memory@ =~= Seq::new(FLAT_SIZE as nat, |i: int| 0u8));
        assert(ram@ =~= Seq::new(BLOCK_SIZE as nat, |i: int| 0u8));
        assert(v_ram@ =~= Seq::new(BLOCK_SIZE as nat, |i: int| 0u8));
        Memory { entire_memory, ram, v_ram }
    }
}

} // verus!
