//! Observable behaviour of the DMA hardware over an explicit memory model.
//!
//! `MemoryModel` stands for a window of the address space; `dma_step` is
//! one arbitration round of the engine on one stream: an enabled,
//! unflagged stream either performs its transfer (memory-to-memory with
//! both endpoints incrementing — the only data movement the model
//! simulates) and raises the transfer-complete flag, or raises the
//! transfer-error flag for a configuration the model cannot honour, as the
//! bus would for a faulting access. Either way the enable bit falls.

use vstd::prelude::*;

use crate::dma::{Direction, IncrementMode, InterruptState, Stream, StreamControl};
use crate::dma_regs::{DmaRegisterBlock, StreamRegisters};

verus! {

/// A window of the address space, holding the bytes the engine may touch.
pub struct MemoryModel {
    /// Address of the first modeled byte.
    pub base: u32,
    /// The modeled bytes; `bytes[i]` stands for address `base + i`.
    pub bytes: Vec<u8>,
}

impl MemoryModel {
    /// The addresses `addr..addr + len` all lie inside the window.
    pub open spec fn spec_in_range(self, addr: u32, len: int) -> bool {
        &&& self.base <= addr
        &&& addr + len <= self.base + self.bytes@.len()
    }

    /// A zero-filled window of `size` bytes starting at `base`.
    pub fn new(base: u32, size: usize) -> (m: MemoryModel)
        ensures
            m.base == base,
            m.bytes@.len() == size,
            forall|i: int| 0 <= i < size ==> m.bytes@[i] == 0u8,
    {
        let mut bytes: Vec<u8> = Vec::new();
        let mut i: usize = 0;
        while i < size
            invariant
                i <= size,
                bytes@.len() == i,
                forall|j: int| 0 <= j < i ==> bytes@[j] == 0u8,
            decreases size - i,
        {
            bytes.push(0);
            i = i + 1;
        }
        MemoryModel { base, bytes }
    }

    /// Runtime check that `addr..addr + len` lies inside the window.
    pub fn in_range(&self, addr: u32, len: u32) -> (b: bool)
        ensures
            b == self.spec_in_range(addr, len as int),
    {
        self.base <= addr && (addr as u128) + (len as u128) <= (self.base as u128) + (
        self.bytes.len() as u128)
    }

    /// The byte at an address inside the window.
    pub fn read_byte(&self, addr: u32) -> (b: u8)
        requires
            self.spec_in_range(addr, 1),
        ensures
            b == self.bytes@[addr - self.base],
    {
        let off = (addr - self.base) as usize;
        self.bytes[off]
    }

    /// Replaces the byte at an address inside the window.
    pub fn write_byte(&mut self, addr: u32, b: u8)
        requires
            old(self).spec_in_range(addr, 1),
        ensures
            final(self).base == old(self).base,
            final(self).bytes@ == old(self).bytes@.update(addr - old(self).base, b),
    {
        let off = (addr - self.base) as usize;
        self.bytes[off] = b;
    }

    /// The little-endian 32-bit word at an address inside the window.
    pub fn read_word(&self, addr: u32) -> (w: u32)
        requires
            self.spec_in_range(addr, 4),
        ensures
            w == spec_le_word(
                self.bytes@[addr - self.base],
                self.bytes@[addr - self.base + 1],
                self.bytes@[addr - self.base + 2],
                self.bytes@[addr - self.base + 3],
            ),
    {
        let n = self.bytes.len();
        let off = (addr - self.base) as usize;
        assert(off + 4 <= n);
        let b0 = self.bytes[off];
        let b1 = self.bytes[off + 1];
        let b2 = self.bytes[off + 2];
        let b3 = self.bytes[off + 3];
        (b0 as u32) | ((b1 as u32) << 8u32) | ((b2 as u32) << 16u32) | ((b3 as u32) << 24u32)
    }

    /// Stores a 32-bit word little-endian at an address inside the window.
    pub fn write_word(&mut self, addr: u32, w: u32)
        requires
            old(self).spec_in_range(addr, 4),
        ensures
            final(self).base == old(self).base,
            final(self).bytes@ == old(self).bytes@.update(
                addr - old(self).base,
                spec_le_byte(w, 0),
            ).update(addr - old(self).base + 1, spec_le_byte(w, 1)).update(
                addr - old(self).base + 2,
                spec_le_byte(w, 2),
            ).update(addr - old(self).base + 3, spec_le_byte(w, 3)),
    {
        let n = self.bytes.len();
        let off = (addr - self.base) as usize;
        assert(off + 4 <= n);
        self.bytes[off] = #[verifier::truncate] ((w & 0xff) as u8);
        self.bytes[off + 1] = #[verifier::truncate] (((w >> 8u32) & 0xff) as u8);
        self.bytes[off + 2] = #[verifier::truncate] (((w >> 16u32) & 0xff) as u8);
        self.bytes[off + 3] = #[verifier::truncate] (((w >> 24u32) & 0xff) as u8);
    }
}

/// The little-endian word assembled from four bytes.
pub open spec fn spec_le_word(b0: u8, b1: u8, b2: u8, b3: u8) -> u32 {
    (b0 as u32) | ((b1 as u32) << 8u32) | ((b2 as u32) << 16u32) | ((b3 as u32) << 24u32)
}

/// Byte `i` (little-endian, 0 = least significant) of a 32-bit word.
pub open spec fn spec_le_byte(w: u32, i: int) -> u8 {
    if i == 0 {
        (w & 0xff) as u8
    } else if i == 1 {
        ((w >> 8u32) & 0xff) as u8
    } else if i == 2 {
        ((w >> 16u32) & 0xff) as u8
    } else {
        ((w >> 24u32) & 0xff) as u8
    }
}

/// Total bytes one transaction moves: peripheral beats times beat width.
pub open spec fn spec_total_bytes(r: StreamRegisters) -> int {
    r.ndtr as int * r.psize.spec_size() as int
}

/// The configurations whose data movement the model simulates:
/// memory-to-memory, both endpoints incrementing, both ranges inside the
/// modeled window.
pub open spec fn spec_modeled_copy(r: StreamRegisters, m: MemoryModel) -> bool {
    &&& r.dir is MemoryToMemory
    &&& r.pinc is Increment
    &&& r.minc is Increment
    &&& m.spec_in_range(r.par, spec_total_bytes(r))
    &&& m.spec_in_range(r.m0ar, spec_total_bytes(r))
}

/// The memory after the transfer of a modeled configuration: the
/// destination range holds the source range's old bytes and every other
/// byte is untouched.
pub open spec fn spec_copy_applied(r: StreamRegisters, m0: MemoryModel, m1: MemoryModel) -> bool {
    let n = spec_total_bytes(r);
    let src = r.par - m0.base;
    let dst = r.m0ar - m0.base;
    &&& m1.base == m0.base
    &&& m1.bytes@.len() == m0.bytes@.len()
    &&& (forall|k: int| dst <= k < dst + n ==> m1.bytes@[k] == m0.bytes@[src + (k - dst)])
    &&& (forall|k: int|
        0 <= k < m0.bytes@.len() && !(dst <= k < dst + n) ==> m1.bytes@[k] == m0.bytes@[k])
}

/// What one engine round on stream `s` does: nothing to an inactive
/// stream; a simulated transfer with the transfer-complete flag raised for
/// a modeled configuration; the transfer-error flag for any other enabled
/// configuration. The enable bit falls whenever the stream was active.
pub open spec fn spec_step_outcome(
    r0: DmaRegisterBlock,
    m0: MemoryModel,
    r1: DmaRegisterBlock,
    m1: MemoryModel,
    s: Stream,
) -> bool {
    let sr = r0.spec_stream(s);
    if !sr.spec_active() {
        r1 == r0 && m1 == m0
    } else if spec_modeled_copy(sr, m0) {
        &&& r1 == r0.spec_with_stream(
            s,
            (StreamRegisters {
                tcif: InterruptState::Raised,
                en: StreamControl::Disable,
                ..sr
            }),
        )
        &&& spec_copy_applied(sr, m0, m1)
    } else {
        &&& r1 == r0.spec_with_stream(
            s,
            (StreamRegisters {
                teif: InterruptState::Raised,
                en: StreamControl::Disable,
                ..sr
            }),
        )
        &&& m1 == m0
    }
}

/// One arbitration round of the engine on stream `s`.
pub fn dma_step(regs: &mut DmaRegisterBlock, mem: &mut MemoryModel, s: Stream)
    ensures
        spec_step_outcome(*old(regs), *old(mem), *final(regs), *final(mem), s),
{
    let r = regs.stream_regs(s);
    let active = r.en == StreamControl::Enable && r.tcif == InterruptState::NotRaised && r.teif
        == InterruptState::NotRaised && r.dmeif == InterruptState::NotRaised;
    if !active {
        return ;
    }
    let psize = r.psize.get_size();
    assert((r.ndtr as int) * (psize as int) <= 0x3fffc) by (nonlinear_arith)
        requires
            r.ndtr <= 0xffff,
            psize <= 4,
    ;
    let total: u32 = (r.ndtr as u32) * psize;
    let modeled = r.dir == Direction::MemoryToMemory && r.pinc == IncrementMode::Increment
        && r.minc == IncrementMode::Increment && mem.in_range(r.par, total) && mem.in_range(
        r.m0ar,
        total,
    );
    if modeled {
        // The transfer runs through the stream's FIFO, so the source bytes
        // are staged before any destination byte is written; overlapping
        // ranges therefore still see the source's old contents.
        let n = mem.bytes.len();
        let src_off = (r.par - mem.base) as usize;
        let dst_off = (r.m0ar - mem.base) as usize;
        let mut buf: Vec<u8> = Vec::new();
        let mut i: usize = 0;
        while i < total as usize
            invariant
                i <= total,
                n == mem.bytes@.len(),
                src_off == r.par - mem.base,
                src_off + total <= n,
                buf@.len() == i,
                forall|j: int| 0 <= j < i ==> buf@[j] == mem.bytes@[src_off + j],
            decreases total - i,
        {
            let b = mem.bytes[src_off + i];
            buf.push(b);
            i = i + 1;
        }
        let ghost mem0 = *mem;
        let mut i: usize = 0;
        while i < total as usize
            invariant
                i <= total,
                n == mem0.bytes@.len(),
                dst_off == r.m0ar - mem0.base,
                dst_off + total <= mem0.bytes@.len(),
                mem.base == mem0.base,
                mem.bytes@.len() == mem0.bytes@.len(),
                buf@.len() == total,
                forall|j: int| 0 <= j < total ==> buf@[j] == mem0.bytes@[r.par - mem0.base + j],
                forall|k: int|
                    dst_off <= k < dst_off + i ==> mem.bytes@[k] == buf@[k - dst_off],
                forall|k: int|
                    0 <= k < mem0.bytes@.len() && !(dst_off <= k < dst_off + i)
                        ==> mem.bytes@[k] == mem0.bytes@[k],
            decreases total - i,
        {
            let b = buf[i];
            mem.bytes[dst_off + i] = b;
            i = i + 1;
        }
        let mut updated = r;
        updated.tcif = InterruptState::Raised;
        updated.en = StreamControl::Disable;
        regs.set_stream_regs(s, updated);
    } else {
        let mut updated = r;
        updated.teif = InterruptState::Raised;
        updated.en = StreamControl::Disable;
        regs.set_stream_regs(s, updated);
    }
}

} // verus!
