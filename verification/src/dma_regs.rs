//! Model of the DMA controller's memory-mapped register block.
//!
//! Each register field is a named, typed record field instead of a raw bit
//! range; reads and writes go through whole-stream copies, which mirrors
//! the read/modify-write discipline of the hardware interface.

use vstd::prelude::*;

use crate::dma::{
    BurstMode, Channel, CircularMode, Direction, DirectMode, FifoStatus, FifoThreshold,
    FlowContoller, IncrementMode, InterruptControl, InterruptState, MemoryIndex,
    PeripheralIncrementOffsetSize, PriorityLevel, Stream, StreamControl, Width,
};

verus! {

/// The per-stream registers: configuration (control, counts, addresses,
/// FIFO control) and the stream's interrupt-status flags.
#[derive(Clone, Copy, Debug, PartialEq, Eq, Structural)]
pub struct StreamRegisters {
    /// Stream enable bit.
    pub en: StreamControl,
    /// Channel (request line) selector.
    pub channel: Channel,
    /// Memory-side burst mode.
    pub mburst: BurstMode,
    /// Peripheral-side burst mode.
    pub pburst: BurstMode,
    /// Current target buffer in double-buffering mode.
    pub ct: MemoryIndex,
    /// Double-buffering enable bit.
    pub dbm: bool,
    /// Arbitration priority.
    pub pl: PriorityLevel,
    /// Peripheral increment offset size override.
    pub pincos: PeripheralIncrementOffsetSize,
    /// Memory-side beat width.
    pub msize: Width,
    /// Peripheral-side beat width.
    pub psize: Width,
    /// Memory-side increment mode.
    pub minc: IncrementMode,
    /// Peripheral-side increment mode.
    pub pinc: IncrementMode,
    /// Circular mode.
    pub circ: CircularMode,
    /// Transfer direction.
    pub dir: Direction,
    /// Flow controller selector.
    pub pfctrl: FlowContoller,
    /// Transfer-complete interrupt enable.
    pub tcie: InterruptControl,
    /// Half-transfer interrupt enable.
    pub htie: InterruptControl,
    /// Transfer-error interrupt enable.
    pub teie: InterruptControl,
    /// Direct-mode-error interrupt enable.
    pub dmeie: InterruptControl,
    /// Number of peripheral-side beats left in the transaction.
    pub ndtr: u16,
    /// Peripheral address register.
    pub par: u32,
    /// Memory buffer 0 address register.
    pub m0ar: u32,
    /// Memory buffer 1 address register (double buffering).
    pub m1ar: u32,
    /// FIFO-error interrupt enable.
    pub feie: InterruptControl,
    /// FIFO fill status (read-only in hardware).
    pub fs: FifoStatus,
    /// Direct-mode control (inverted polarity: `Enable` bypasses the FIFO).
    pub dmdis: DirectMode,
    /// FIFO threshold.
    pub fth: FifoThreshold,
    /// Half-transfer interrupt-status flag.
    pub htif: InterruptState,
    /// Transfer-complete interrupt-status flag.
    pub tcif: InterruptState,
    /// Transfer-error interrupt-status flag.
    pub teif: InterruptState,
    /// FIFO-error interrupt-status flag.
    pub feif: InterruptState,
    /// Direct-mode-error interrupt-status flag.
    pub dmeif: InterruptState,
}

impl StreamRegisters {
    /// An enabled stream with no completion or error flag raised: the
    /// engine still owes it work.
    pub open spec fn spec_active(self) -> bool {
        &&& self.en is Enable
        &&& self.tcif is NotRaised
        &&& self.teif is NotRaised
        &&& self.dmeif is NotRaised
    }

    /// The register contents after a controller reset: every field at its
    /// zero-bit value.
    pub open spec fn spec_reset() -> StreamRegisters {
        StreamRegisters {
            en: StreamControl::Disable,
            channel: Channel::C0,
            mburst: BurstMode::SingleTransfer,
            pburst: BurstMode::SingleTransfer,
            ct: MemoryIndex::M0,
            dbm: false,
            pl: PriorityLevel::Low,
            pincos: PeripheralIncrementOffsetSize::UsePSize,
            msize: Width::Byte,
            psize: Width::Byte,
            minc: IncrementMode::Fixed,
            pinc: IncrementMode::Fixed,
            circ: CircularMode::Disable,
            dir: Direction::PeripheralToMemory,
            pfctrl: FlowContoller::DMA,
            tcie: InterruptControl::Disable,
            htie: InterruptControl::Disable,
            teie: InterruptControl::Disable,
            dmeie: InterruptControl::Disable,
            ndtr: 0,
            par: 0,
            m0ar: 0,
            m1ar: 0,
            feie: InterruptControl::Disable,
            fs: FifoStatus::FirstQuarter,
            dmdis: DirectMode::Enable,
            fth: FifoThreshold::Quarter,
            htif: InterruptState::NotRaised,
            tcif: InterruptState::NotRaised,
            teif: InterruptState::NotRaised,
            feif: InterruptState::NotRaised,
            dmeif: InterruptState::NotRaised,
        }
    }

    /// Builds the reset-state register contents.
    pub fn reset() -> (r: StreamRegisters)
        ensures
            r == StreamRegisters::spec_reset(),
    {
        StreamRegisters {
            en: StreamControl::Disable,
            channel: Channel::C0,
            mburst: BurstMode::SingleTransfer,
            pburst: BurstMode::SingleTransfer,
            ct: MemoryIndex::M0,
            dbm: false,
            pl: PriorityLevel::Low,
            pincos: PeripheralIncrementOffsetSize::UsePSize,
            msize: Width::Byte,
            psize: Width::Byte,
            minc: IncrementMode::Fixed,
            pinc: IncrementMode::Fixed,
            circ: CircularMode::Disable,
            dir: Direction::PeripheralToMemory,
            pfctrl: FlowContoller::DMA,
            tcie: InterruptControl::Disable,
            htie: InterruptControl::Disable,
            teie: InterruptControl::Disable,
            dmeie: InterruptControl::Disable,
            ndtr: 0,
            par: 0,
            m0ar: 0,
            m1ar: 0,
            feie: InterruptControl::Disable,
            fs: FifoStatus::FirstQuarter,
            dmdis: DirectMode::Enable,
            fth: FifoThreshold::Quarter,
            htif: InterruptState::NotRaised,
            tcif: InterruptState::NotRaised,
            teif: InterruptState::NotRaised,
            feif: InterruptState::NotRaised,
            dmeif: InterruptState::NotRaised,
        }
    }
}

/// The whole DMA controller: one register set per stream.
#[derive(Clone, Copy, Debug, PartialEq, Eq, Structural)]
pub struct DmaRegisterBlock {
    pub s0: StreamRegisters,
    pub s1: StreamRegisters,
    pub s2: StreamRegisters,
    pub s3: StreamRegisters,
    pub s4: StreamRegisters,
    pub s5: StreamRegisters,
    pub s6: StreamRegisters,
    pub s7: StreamRegisters,
}

impl DmaRegisterBlock {
    /// The registers of one stream.
    pub open spec fn spec_stream(self, s: Stream) -> StreamRegisters {
        match s {
            Stream::S0 => self.s0,
            Stream::S1 => self.s1,
            Stream::S2 => self.s2,
            Stream::S3 => self.s3,
            Stream::S4 => self.s4,
            Stream::S5 => self.s5,
            Stream::S6 => self.s6,
            Stream::S7 => self.s7,
        }
    }

    /// The block with one stream's registers replaced and all others kept.
    pub open spec fn spec_with_stream(self, s: Stream, r: StreamRegisters) -> DmaRegisterBlock {
        match s {
            Stream::S0 => DmaRegisterBlock { s0: r, ..self },
            Stream::S1 => DmaRegisterBlock { s1: r, ..self },
            Stream::S2 => DmaRegisterBlock { s2: r, ..self },
            Stream::S3 => DmaRegisterBlock { s3: r, ..self },
            Stream::S4 => DmaRegisterBlock { s4: r, ..self },
            Stream::S5 => DmaRegisterBlock { s5: r, ..self },
            Stream::S6 => DmaRegisterBlock { s6: r, ..self },
            Stream::S7 => DmaRegisterBlock { s7: r, ..self },
        }
    }

    /// The block after a controller reset: every stream at its reset state.
    pub open spec fn spec_reset() -> DmaRegisterBlock {
        DmaRegisterBlock {
            s0: StreamRegisters::spec_reset(),
            s1: StreamRegisters::spec_reset(),
            s2: StreamRegisters::spec_reset(),
            s3: StreamRegisters::spec_reset(),
            s4: StreamRegisters::spec_reset(),
            s5: StreamRegisters::spec_reset(),
            s6: StreamRegisters::spec_reset(),
            s7: StreamRegisters::spec_reset(),
        }
    }

    /// Builds the register block in its reset state, as controller bring-up
    /// leaves it.
    pub fn reset() -> (r: DmaRegisterBlock)
        ensures
            r == DmaRegisterBlock::spec_reset(),
    {
        DmaRegisterBlock {
            s0: StreamRegisters::reset(),
            s1: StreamRegisters::reset(),
            s2: StreamRegisters::reset(),
            s3: StreamRegisters::reset(),
            s4: StreamRegisters::reset(),
            s5: StreamRegisters::reset(),
            s6: StreamRegisters::reset(),
            s7: StreamRegisters::reset(),
        }
    }

    /// Reads one stream's registers as a copy.
    pub fn stream_regs(&self, s: Stream) -> (r: StreamRegisters)
        ensures
            r == self.spec_stream(s),
    {
        match s {
            Stream::S0 => self.s0,
            Stream::S1 => self.s1,
            Stream::S2 => self.s2,
            Stream::S3 => self.s3,
            Stream::S4 => self.s4,
            Stream::S5 => self.s5,
            Stream::S6 => self.s6,
            Stream::S7 => self.s7,
        }
    }

    /// Writes one stream's registers back, leaving the other streams alone.
    pub fn set_stream_regs(&mut self, s: Stream, r: StreamRegisters)
        ensures
            *final(self) == old(self).spec_with_stream(s, r),
    {
        match s {
            Stream::S0 => self.s0 = r,
            Stream::S1 => self.s1 = r,
            Stream::S2 => self.s2 = r,
            Stream::S3 => self.s3 = r,
            Stream::S4 => self.s4 = r,
            Stream::S5 => self.s5 = r,
            Stream::S6 => self.s6 = r,
            Stream::S7 => self.s7 = r,
        }
    }
}

} // verus!
