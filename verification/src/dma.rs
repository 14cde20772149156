//! DMA transfer descriptors and their validation rules.
//!
//! A `DmaTransfer` is the immutable configuration of one transfer on one
//! stream of the DMA controller. `is_valid` checks the hardware's
//! constraints (burst/width arithmetic, alignment, 1KB boundary rules,
//! FIFO threshold compatibility) in a fixed priority order and reports the
//! first violated constraint.

use vstd::prelude::*;

use crate::dma_engine::{dma_step, spec_step_outcome, MemoryModel};
use crate::dma_regs::{DmaRegisterBlock, StreamRegisters};

verus! {

/// One violated constraint of a transfer descriptor, or a stream that is
/// not ready to be configured. `prepare` reports exactly one of these.
#[derive(Clone, Copy, Debug, PartialEq, Eq, Structural)]
pub enum Error {
    StreamNotReady,
    StreamInUse,
    TransactionCountNotAMultipleOf(u16),
    UnalignedMemoryAddress,
    UnalignedPeripheralAddress,
    CannotUseMemoryToMemoryTransferWithCircularMode,
    CannotUseMemoryToMemoryTransferWithDirectMode,
    MemoryAccessWouldCrossOneKilobyteBoundary,
    PeripheralAccessWouldCrossOneKilobyteBoundary,
    InvalidFifoThresholdMemoryBurstCombination,
}

/// One of the eight independent data-movement lanes of the controller.
#[derive(Clone, Copy, Debug, PartialEq, Eq, Structural)]
pub enum Stream {
    S0,
    S1,
    S2,
    S3,
    S4,
    S5,
    S6,
    S7,
}

/// Request-line multiplexer selector of a stream.
#[derive(Clone, Copy, Debug, PartialEq, Eq, Structural)]
pub enum Channel {
    C0,
    C1,
    C2,
    C3,
    C4,
    C5,
    C6,
    C7,
}

/// Number of beats issued back-to-back before re-arbitration.
#[derive(Clone, Copy, Debug, PartialEq, Eq, Structural)]
pub enum BurstMode {
    SingleTransfer,
    Incremental4,
    Incremental8,
    Incremental16,
}

/// Which of the two memory buffers the stream currently targets.
#[derive(Clone, Copy, Debug, PartialEq, Eq, Structural)]
pub enum MemoryIndex {
    M0,
    M1,
}

/// Double buffering: disabled, or enabled with the second buffer's address.
#[derive(Clone, Copy, Debug, PartialEq, Eq, Structural)]
pub enum DoubleBufferingMode {
    Disable,
    UseSecondBuffer(u32),
}

/// Arbitration priority of a stream.
#[derive(Clone, Copy, Debug, PartialEq, Eq, Structural)]
pub enum PriorityLevel {
    Low,
    Medium,
    High,
    VeryHigh,
}

/// Offset applied per peripheral beat in increment mode: the configured
/// transaction width, or a forced 32-bit offset.
#[derive(Clone, Copy, Debug, PartialEq, Eq, Structural)]
pub enum PeripheralIncrementOffsetSize {
    UsePSize,
    Force32Bit,
}

/// Width of one beat.
#[derive(Clone, Copy, Debug, PartialEq, Eq, Structural)]
pub enum Width {
    Byte,
    HalfWord,
    Word,
}

/// Whether an endpoint's address advances after each beat.
#[derive(Clone, Copy, Debug, PartialEq, Eq, Structural)]
pub enum IncrementMode {
    Fixed,
    Increment,
}

/// Circular (auto-reloading) mode of a stream.
#[derive(Clone, Copy, Debug, PartialEq, Eq, Structural)]
pub enum CircularMode {
    Disable,
    Enable,
}

/// Direction of a transfer.
#[derive(Clone, Copy, Debug, PartialEq, Eq, Structural)]
pub enum Direction {
    PeripheralToMemory,
    MemoryToPeripheral,
    MemoryToMemory,
}

/// Who terminates the transfer: the DMA's beat counter or the peripheral.
#[derive(Clone, Copy, Debug, PartialEq, Eq, Structural)]
pub enum FlowContoller {
    DMA,
    Peripheral,
}

/// Per-condition interrupt enable.
#[derive(Clone, Copy, Debug, PartialEq, Eq, Structural)]
pub enum InterruptControl {
    Disable,
    Enable,
}

/// State of one interrupt-status flag.
#[derive(Clone, Copy, Debug, PartialEq, Eq, Structural)]
pub enum InterruptState {
    NotRaised,
    Raised,
}

/// State of a stream's enable bit.
#[derive(Clone, Copy, Debug, PartialEq, Eq, Structural)]
pub enum StreamControl {
    Disable,
    Enable,
}

/// Fill level of the stream's FIFO as reported by the hardware.
#[derive(Clone, Copy, Debug, PartialEq, Eq, Structural)]
pub enum FifoStatus {
    FirstQuarter,
    SecondQuarter,
    ThirdQuarter,
    FourthQuarter,
    Empty,
    Full,
}

/// FIFO bypass. The polarity is inverted in hardware: `Enable` means the
/// FIFO is bypassed (one beat at a time), `Disable` means the FIFO is used.
#[derive(Clone, Copy, Debug, PartialEq, Eq, Structural)]
pub enum DirectMode {
    Enable,
    Disable,
}

/// FIFO fill level that triggers a burst to the memory side.
#[derive(Clone, Copy, Debug, PartialEq, Eq, Structural)]
pub enum FifoThreshold {
    Quarter,
    Half,
    ThreeQuarter,
    Full,
}

/// Converts a flag to the 0/1 encoding used by single-bit register fields.
pub fn bool_to_u8(b: bool) -> (r: u8)
    ensures
        r == (if b { 1u8 } else { 0u8 }),
{
    if b {
        1
    } else {
        0
    }
}

impl BurstMode {
    /// Number of beats in one burst.
    pub open spec fn spec_size(self) -> u32 {
        match self {
            BurstMode::SingleTransfer => 1,
            BurstMode::Incremental4 => 4,
            BurstMode::Incremental8 => 8,
            BurstMode::Incremental16 => 16,
        }
    }

    /// Number of beats in one burst: 1, 4, 8 or 16.
    pub fn get_size(&self) -> (size: u32)
        ensures
            size == self.spec_size(),
    {
        match *self {
            BurstMode::SingleTransfer => 1,
            BurstMode::Incremental4 => 4,
            BurstMode::Incremental8 => 8,
            BurstMode::Incremental16 => 16,
        }
    }
}

impl Width {
    /// Number of bytes in one beat of this width.
    pub open spec fn spec_size(self) -> u32 {
        match self {
            Width::Byte => 1,
            Width::HalfWord => 2,
            Width::Word => 4,
        }
    }

    /// Number of bytes in one beat of this width: 1, 2 or 4.
    pub fn get_size(&self) -> (size: u32)
        ensures
            size == self.spec_size(),
    {
        match *self {
            Width::Byte => 1,
            Width::HalfWord => 2,
            Width::Word => 4,
        }
    }
}

impl FifoThreshold {
    /// Numerator of the threshold as a fraction of the FIFO depth.
    pub open spec fn spec_numerator(self) -> u32 {
        match self {
            FifoThreshold::Quarter => 1,
            FifoThreshold::Half => 2,
            FifoThreshold::ThreeQuarter => 3,
            FifoThreshold::Full => 4,
        }
    }

    /// Numerator of the threshold fraction: 1, 2, 3 or 4 quarters.
    pub fn get_numerator(&self) -> (n: u32)
        ensures
            n == self.spec_numerator(),
    {
        match *self {
            FifoThreshold::Quarter => 1,
            FifoThreshold::Half => 2,
            FifoThreshold::ThreeQuarter => 3,
            FifoThreshold::Full => 4,
        }
    }

    /// Denominator of the threshold fraction; the threshold is always
    /// expressed in quarters of the FIFO.
    pub fn get_denominator(&self) -> (d: u32)
        ensures
            d == 4,
    {
        4
    }
}

/// One endpoint (peripheral or memory side) of a transfer.
#[derive(Clone, Copy, Debug, PartialEq, Eq, Structural)]
pub struct DmaTransferNode {
    pub increment_mode: IncrementMode,
    pub burst_mode: BurstMode,
    pub address: u32,
    pub transaction_width: Width,
}

/// The validated, immutable configuration of one DMA transfer.
///
/// The descriptor does not touch hardware by itself; `prepare`, `start`,
/// `stop` and the status reads act on a register block handed in by the
/// caller.
#[derive(Clone, Copy, Debug, PartialEq, Eq, Structural)]
pub struct DmaTransfer {
    pub stream: Stream,
    pub channel: Channel,
    pub priority: PriorityLevel,
    pub direction: Direction,
    pub circular_mode: CircularMode,
    pub double_buffering_mode: DoubleBufferingMode,
    pub flow_controller: FlowContoller,
    pub peripheral_increment_offset_size: PeripheralIncrementOffsetSize,
    pub peripheral: DmaTransferNode,
    pub memory: DmaTransferNode,
    pub transaction_count: u16,
    pub direct_mode: DirectMode,
    pub fifo_threshold: FifoThreshold,
    pub interrupt_transfer_complete: InterruptControl,
    pub interrupt_half_transfer: InterruptControl,
    pub interrupt_transfer_error: InterruptControl,
    pub interrupt_direct_mode_error: InterruptControl,
    pub interrupt_fifo: InterruptControl,
}

/// Bytes of one memory-side beat.
pub open spec fn spec_mwidth(d: DmaTransfer) -> int {
    d.memory.transaction_width.spec_size() as int
}

/// Bytes of one peripheral-side beat, after the forced 32-bit override.
pub open spec fn spec_pwidth(d: DmaTransfer) -> int {
    match d.peripheral_increment_offset_size {
        PeripheralIncrementOffsetSize::Force32Bit => 4,
        PeripheralIncrementOffsetSize::UsePSize => d.peripheral.transaction_width.spec_size() as int,
    }
}

/// Bytes moved by one memory-side burst.
pub open spec fn spec_mburst_size(d: DmaTransfer) -> int {
    d.memory.burst_mode.spec_size() * spec_mwidth(d)
}

/// Bytes moved by one peripheral-side burst.
pub open spec fn spec_pburst_size(d: DmaTransfer) -> int {
    d.peripheral.burst_mode.spec_size() * spec_pwidth(d)
}

/// The transaction count must be a multiple of this memory-side factor.
pub open spec fn spec_mcount_factor(d: DmaTransfer) -> int {
    spec_mburst_size(d) / spec_pwidth(d)
}

/// The transaction count must be a multiple of this peripheral-side factor.
pub open spec fn spec_pcount_factor(d: DmaTransfer) -> int {
    spec_pburst_size(d)
}

/// Bytes left before the first 1KB boundary after the memory address.
pub open spec fn spec_mdata_before_kb(d: DmaTransfer) -> int {
    1024 - d.memory.address as int % 1024
}

/// Bytes left before the first 1KB boundary after the peripheral address.
pub open spec fn spec_pdata_before_kb(d: DmaTransfer) -> int {
    1024 - d.peripheral.address as int % 1024
}

/// Total bytes the memory side touches (one beat's worth in fixed mode).
pub open spec fn spec_mdata_size(d: DmaTransfer) -> int {
    spec_mwidth(d) * (match d.memory.increment_mode {
        IncrementMode::Increment => d.transaction_count as int,
        IncrementMode::Fixed => 1,
    })
}

/// Total bytes the peripheral side touches (one beat's worth in fixed mode).
pub open spec fn spec_pdata_size(d: DmaTransfer) -> int {
    spec_pwidth(d) * (match d.peripheral.increment_mode {
        IncrementMode::Increment => d.transaction_count as int,
        IncrementMode::Fixed => 1,
    })
}

/// The full validation rule: the first violated constraint, checked in the
/// fixed priority order, or `None` for a well-formed descriptor.
pub open spec fn spec_is_valid(d: DmaTransfer) -> Option<Error> {
    if spec_mcount_factor(d) == 0 || d.transaction_count as int % spec_mcount_factor(d) != 0 {
        Some(Error::TransactionCountNotAMultipleOf(spec_mcount_factor(d) as u16))
    } else if d.transaction_count as int % spec_pcount_factor(d) != 0 {
        Some(Error::TransactionCountNotAMultipleOf(spec_pcount_factor(d) as u16))
    } else if d.peripheral.address as int % spec_pwidth(d) != 0 {
        Some(Error::UnalignedPeripheralAddress)
    } else if d.memory.address as int % (d.memory.transaction_width.spec_size() as int) != 0 {
        Some(Error::UnalignedMemoryAddress)
    } else if (d.circular_mode is Enable || !(d.double_buffering_mode is Disable))
        && d.direction is MemoryToMemory {
        Some(Error::CannotUseMemoryToMemoryTransferWithCircularMode)
    } else if d.direct_mode is Enable && d.direction is MemoryToMemory {
        Some(Error::CannotUseMemoryToMemoryTransferWithDirectMode)
    } else if spec_mdata_before_kb(d) > spec_mdata_size(d) && spec_mdata_before_kb(d)
        % spec_mburst_size(d) != 0 {
        Some(Error::MemoryAccessWouldCrossOneKilobyteBoundary)
    } else if spec_pdata_before_kb(d) > spec_pdata_size(d) && spec_pdata_before_kb(d)
        % spec_pburst_size(d) != 0 {
        Some(Error::PeripheralAccessWouldCrossOneKilobyteBoundary)
    } else if (d.fifo_threshold.spec_numerator() * 16) % (4 * spec_mburst_size(d)) != 0 {
        Some(Error::InvalidFifoThresholdMemoryBurstCombination)
    } else {
        None
    }
}

impl DmaTransfer {
    /// Checks the descriptor against the hardware's configuration rules and
    /// returns the first violated constraint, or `None` when the transfer
    /// may be configured. Pure: the result is a function of the descriptor
    /// alone, so repeated calls agree.
    pub fn is_valid(&self) -> (r: Option<Error>)
        ensures
            r == spec_is_valid(*self),
    {
        let fifo_size: u32 = 16;
        let apply_circular_mode_limitations = self.circular_mode == CircularMode::Enable
            || self.double_buffering_mode != DoubleBufferingMode::Disable;
        let mwidth = self.memory.transaction_width.get_size();
        let pwidth = match self.peripheral_increment_offset_size {
            PeripheralIncrementOffsetSize::Force32Bit => 4,
            PeripheralIncrementOffsetSize::UsePSize => self.peripheral.transaction_width.get_size(),
        };
        let mburst = self.memory.burst_mode.get_size();
        let pburst = self.peripheral.burst_mode.get_size();
        assert(mburst * mwidth <= 64 && pburst * pwidth <= 64) by (nonlinear_arith)
            requires
                mburst <= 16,
                mwidth <= 4,
                pburst <= 16,
                pwidth <= 4,
        ;
        let mburst_size = mburst * mwidth;
        let pburst_size = pburst * pwidth;
        let mcount_factor = (mburst_size / pwidth) as u16;
        let pcount_factor = pburst_size as u16;
        let mdata_before_first_kb_boundary = 1024 - self.memory.address % 1024;
        let pdata_before_first_kb_boundary = 1024 - self.peripheral.address % 1024;
        let mcount = match self.memory.increment_mode {
            IncrementMode::Increment => self.transaction_count as u32,
            IncrementMode::Fixed => 1,
        };
        let pcount = match self.peripheral.increment_mode {
            IncrementMode::Increment => self.transaction_count as u32,
            IncrementMode::Fixed => 1,
        };
        assert(mwidth * mcount < 0x100000000 && pwidth * pcount < 0x100000000)
            by (nonlinear_arith)
            requires
                mwidth <= 4,
                pwidth <= 4,
                mcount <= 0xffff,
                pcount <= 0xffff,
        ;
        let mdata_size = mwidth * mcount;
        let pdata_size = pwidth * pcount;

        if mcount_factor == 0 || self.transaction_count % mcount_factor != 0 {
            Some(Error::TransactionCountNotAMultipleOf(mcount_factor))
        } else if self.transaction_count % pcount_factor != 0 {
            Some(Error::TransactionCountNotAMultipleOf(pcount_factor))
        } else if self.peripheral.address % pwidth != 0 {
            Some(Error::UnalignedPeripheralAddress)
        } else if self.memory.address % self.memory.transaction_width.get_size() != 0 {
            Some(Error::UnalignedMemoryAddress)
        } else if apply_circular_mode_limitations && self.direction == Direction::MemoryToMemory {
            Some(Error::CannotUseMemoryToMemoryTransferWithCircularMode)
        } else if self.direct_mode == DirectMode::Enable && self.direction
            == Direction::MemoryToMemory {
            Some(Error::CannotUseMemoryToMemoryTransferWithDirectMode)
        } else if mdata_before_first_kb_boundary > mdata_size && mdata_before_first_kb_boundary
            % mburst_size != 0 {
            Some(Error::MemoryAccessWouldCrossOneKilobyteBoundary)
        } else if pdata_before_first_kb_boundary > pdata_size && pdata_before_first_kb_boundary
            % pburst_size != 0 {
            Some(Error::PeripheralAccessWouldCrossOneKilobyteBoundary)
        } else if (self.fifo_threshold.get_numerator() * fifo_size) % (
        self.fifo_threshold.get_denominator() * mburst_size) != 0 {
            Some(Error::InvalidFifoThresholdMemoryBurstCombination)
        } else {
            None
        }
    }
}

impl DmaTransfer {
    /// The stream's registers after `prepare` configures it, starting from
    /// the current contents `r`: status flags cleared, the descriptor's
    /// configuration written, and the fields `prepare` does not touch (the
    /// enable bit, current target, interrupt enables, FIFO status) kept.
    pub open spec fn spec_configured(self, r: StreamRegisters) -> StreamRegisters {
        StreamRegisters {
            htif: InterruptState::NotRaised,
            tcif: InterruptState::NotRaised,
            teif: InterruptState::NotRaised,
            feif: InterruptState::NotRaised,
            dmeif: InterruptState::NotRaised,
            channel: self.channel,
            pl: self.priority,
            dir: self.direction,
            circ: self.circular_mode,
            dbm: !(self.double_buffering_mode is Disable),
            m1ar: match self.double_buffering_mode {
                DoubleBufferingMode::Disable => r.m1ar,
                DoubleBufferingMode::UseSecondBuffer(a) => a,
            },
            pfctrl: self.flow_controller,
            psize: self.peripheral.transaction_width,
            pinc: self.peripheral.increment_mode,
            pburst: self.peripheral.burst_mode,
            pincos: self.peripheral_increment_offset_size,
            par: self.peripheral.address,
            msize: self.memory.transaction_width,
            minc: self.memory.increment_mode,
            mburst: self.memory.burst_mode,
            m0ar: self.memory.address,
            ndtr: self.transaction_count,
            dmdis: self.direct_mode,
            fth: self.fifo_threshold,
            ..r
        }
    }

    /// The descriptor's stream is enabled with no completion or error flag
    /// raised: the engine still owes it work.
    pub open spec fn spec_is_active(self, regs: DmaRegisterBlock) -> bool {
        regs.spec_stream(self.stream).spec_active()
    }

    /// The stream's enable bit is clear: it can take a new configuration.
    pub fn is_ready(&self, regs: &DmaRegisterBlock) -> (r: bool)
        ensures
            r == (regs.spec_stream(self.stream).en is Disable),
    {
        regs.stream_regs(self.stream).en == StreamControl::Disable
    }

    /// The stream's enable bit is set.
    pub fn is_running(&self, regs: &DmaRegisterBlock) -> (r: bool)
        ensures
            r == (regs.spec_stream(self.stream).en is Enable),
    {
        regs.stream_regs(self.stream).en == StreamControl::Enable
    }

    /// The stream's transfer-complete flag is raised.
    pub fn is_finished(&self, regs: &DmaRegisterBlock) -> (r: bool)
        ensures
            r == (regs.spec_stream(self.stream).tcif is Raised),
    {
        regs.stream_regs(self.stream).tcif == InterruptState::Raised
    }

    /// A transfer-error or direct-mode-error flag is raised.
    pub fn is_error(&self, regs: &DmaRegisterBlock) -> (r: bool)
        ensures
            r == (regs.spec_stream(self.stream).teif is Raised || regs.spec_stream(
                self.stream,
            ).dmeif is Raised),
    {
        self.is_transfer_error(regs) || self.is_direct_mode_error(regs)
    }

    /// The stream's transfer-error flag is raised.
    pub fn is_transfer_error(&self, regs: &DmaRegisterBlock) -> (r: bool)
        ensures
            r == (regs.spec_stream(self.stream).teif is Raised),
    {
        regs.stream_regs(self.stream).teif == InterruptState::Raised
    }

    /// The stream's direct-mode-error flag is raised.
    pub fn is_direct_mode_error(&self, regs: &DmaRegisterBlock) -> (r: bool)
        ensures
            r == (regs.spec_stream(self.stream).dmeif is Raised),
    {
        regs.stream_regs(self.stream).dmeif == InterruptState::Raised
    }

    /// Running with neither the completion flag nor an error flag raised.
    pub fn is_active(&self, regs: &DmaRegisterBlock) -> (r: bool)
        ensures
            r == self.spec_is_active(*regs),
    {
        self.is_running(regs) && !self.is_finished(regs) && !self.is_error(regs)
    }

    /// Writes the descriptor's configuration to its stream: clears the four
    /// interrupt-status flag groups, then the channel, priority, direction,
    /// circular and double-buffering modes, flow controller, both
    /// endpoints' width/increment/burst/address, the transaction count, the
    /// direct-mode flag and the FIFO threshold.
    fn configure(&self, regs: &mut DmaRegisterBlock)
        ensures
            *final(regs) == old(regs).spec_with_stream(
                self.stream,
                self.spec_configured(old(regs).spec_stream(self.stream)),
            ),
    {
        let mut r = regs.stream_regs(self.stream);
        r.htif = InterruptState::NotRaised;
        r.tcif = InterruptState::NotRaised;
        r.teif = InterruptState::NotRaised;
        r.feif = InterruptState::NotRaised;
        r.dmeif = InterruptState::NotRaised;
        r.channel = self.channel;
        r.pl = self.priority;
        r.dir = self.direction;
        r.circ = self.circular_mode;
        match self.double_buffering_mode {
            DoubleBufferingMode::Disable => {
                r.dbm = false;
            },
            DoubleBufferingMode::UseSecondBuffer(a) => {
                r.dbm = true;
                r.m1ar = a;
            },
        }
        r.pfctrl = self.flow_controller;
        r.psize = self.peripheral.transaction_width;
        r.pinc = self.peripheral.increment_mode;
        r.pburst = self.peripheral.burst_mode;
        r.pincos = self.peripheral_increment_offset_size;
        r.par = self.peripheral.address;
        r.msize = self.memory.transaction_width;
        r.minc = self.memory.increment_mode;
        r.mburst = self.memory.burst_mode;
        r.m0ar = self.memory.address;
        r.ndtr = self.transaction_count;
        r.dmdis = self.direct_mode;
        r.fth = self.fifo_threshold;
        regs.set_stream_regs(self.stream, r);
    }

    /// Validates the descriptor and, if it is well formed and its stream is
    /// ready, configures the stream. A validation failure or a stream that
    /// is still enabled is reported without any register write.
    pub fn prepare(&self, regs: &mut DmaRegisterBlock) -> (r: Result<(), Error>)
        ensures
            spec_is_valid(*self) matches Some(e) ==> r == Err::<(), Error>(e) && *final(regs)
                == *old(regs),
            spec_is_valid(*self) is None && !(old(regs).spec_stream(self.stream).en is Disable)
                ==> r == Err::<(), Error>(Error::StreamNotReady) && *final(regs) == *old(regs),
            spec_is_valid(*self) is None && old(regs).spec_stream(self.stream).en is Disable ==> r
                == Ok::<(), Error>(()) && *final(regs) == old(regs).spec_with_stream(
                self.stream,
                self.spec_configured(old(regs).spec_stream(self.stream)),
            ),
    {
        match self.is_valid() {
            Some(e) => Err(e),
            None => {
                if self.is_ready(regs) {
                    self.configure(regs);
                    Ok(())
                } else {
                    Err(Error::StreamNotReady)
                }
            },
        }
    }

    /// Sets the stream's enable bit: the engine begins the transfer.
    pub fn start(&self, regs: &mut DmaRegisterBlock)
        ensures
            *final(regs) == old(regs).spec_with_stream(
                self.stream,
                (StreamRegisters {
                    en: StreamControl::Enable,
                    ..old(regs).spec_stream(self.stream)
                }),
            ),
    {
        let mut r = regs.stream_regs(self.stream);
        r.en = StreamControl::Enable;
        regs.set_stream_regs(self.stream, r);
    }

    /// Clears the stream's enable bit. Idempotent; an in-flight beat is not
    /// guaranteed to complete cleanly, only further transfer is disabled.
    pub fn stop(&self, regs: &mut DmaRegisterBlock)
        ensures
            *final(regs) == old(regs).spec_with_stream(
                self.stream,
                (StreamRegisters {
                    en: StreamControl::Disable,
                    ..old(regs).spec_stream(self.stream)
                }),
            ),
    {
        let mut r = regs.stream_regs(self.stream);
        r.en = StreamControl::Disable;
        regs.set_stream_regs(self.stream, r);
    }

    /// Busy-polls the stream until it is no longer active. Each poll grants
    /// the engine model one arbitration round, so the wait terminates: the
    /// round either completes the transfer or flags it.
    pub fn wait(&self, regs: &mut DmaRegisterBlock, mem: &mut MemoryModel)
        ensures
            spec_step_outcome(*old(regs), *old(mem), *final(regs), *final(mem), self.stream),
            !self.spec_is_active(*final(regs)),
    {
        let ghost regs0 = *regs;
        let ghost mem0 = *mem;
        while self.is_active(regs)
            invariant
                (*regs == regs0 && *mem == mem0) || (spec_step_outcome(
                    regs0,
                    mem0,
                    *regs,
                    *mem,
                    self.stream,
                ) && !self.spec_is_active(*regs)),
            decreases (if self.spec_is_active(*regs) {
                1int
            } else {
                0int
            }),
        {
            dma_step(regs, mem, self.stream);
        }
    }

    /// `start` followed by `wait`.
    pub fn run_and_wait(&self, regs: &mut DmaRegisterBlock, mem: &mut MemoryModel)
        ensures
            spec_step_outcome(
                old(regs).spec_with_stream(
                    self.stream,
                    (StreamRegisters {
                        en: StreamControl::Enable,
                        ..old(regs).spec_stream(self.stream)
                    }),
                ),
                *old(mem),
                *final(regs),
                *final(mem),
                self.stream,
            ),
            !self.spec_is_active(*final(regs)),
    {
        self.start(regs);
        self.wait(regs, mem);
    }
}

/// Position of a stream in the claim table.
pub open spec fn spec_stream_index(s: Stream) -> int {
    match s {
        Stream::S0 => 0,
        Stream::S1 => 1,
        Stream::S2 => 2,
        Stream::S3 => 3,
        Stream::S4 => 4,
        Stream::S5 => 5,
        Stream::S6 => 6,
        Stream::S7 => 7,
    }
}

/// Position of a stream in the claim table.
pub fn stream_index(s: Stream) -> (i: usize)
    ensures
        i == spec_stream_index(s),
        i < 8,
{
    match s {
        Stream::S0 => 0,
        Stream::S1 => 1,
        Stream::S2 => 2,
        Stream::S3 => 3,
        Stream::S4 => 4,
        Stream::S5 => 5,
        Stream::S6 => 6,
        Stream::S7 => 7,
    }
}

/// Owner of one DMA controller's register block, shared by the transfer
/// controllers that bind to its streams. The claim table arbitrates the
/// streams: two live transfers must never bind the same stream, and
/// `claim_stream` refuses a stream that is already taken instead of
/// relying on caller discipline.
pub struct DmaManager {
    /// The controller's register block.
    pub controller: DmaRegisterBlock,
    /// Which streams are bound to a live transfer.
    pub claimed: [bool; 8],
}

impl DmaManager {
    /// Whether a stream is bound to a live transfer.
    pub open spec fn spec_stream_claimed(self, s: Stream) -> bool {
        self.claimed@[spec_stream_index(s)]
    }

    /// Brings up the first DMA controller: every stream register at its
    /// reset value and every stream unclaimed. Enabling the controller's
    /// peripheral clock (and the busy-wait until the enable takes effect)
    /// happens outside this model, before the block is touched.
    pub fn init_dma1() -> (m: DmaManager)
        ensures
            m.controller == DmaRegisterBlock::spec_reset(),
            forall|i: int| 0 <= i < 8 ==> !m.claimed@[i],
    {
        DmaManager {
            controller: DmaRegisterBlock::reset(),
            claimed: [false, false, false, false, false, false, false, false],
        }
    }

    /// Brings up the second DMA controller; see `init_dma1`.
    pub fn init_dma2() -> (m: DmaManager)
        ensures
            m.controller == DmaRegisterBlock::spec_reset(),
            forall|i: int| 0 <= i < 8 ==> !m.claimed@[i],
    {
        DmaManager {
            controller: DmaRegisterBlock::reset(),
            claimed: [false, false, false, false, false, false, false, false],
        }
    }

    /// Binds a stream to a transfer. Refused (nothing changes) when the
    /// stream is already bound.
    pub fn claim_stream(&mut self, s: Stream) -> (granted: bool)
        ensures
            final(self).controller == old(self).controller,
            old(self).spec_stream_claimed(s) ==> !granted && *final(self) == *old(self),
            !old(self).spec_stream_claimed(s) ==> granted && final(self).claimed@ == old(
                self,
            ).claimed@.update(spec_stream_index(s), true),
    {
        let i = stream_index(s);
        if self.claimed[i] {
            false
        } else {
            self.claimed[i] = true;
            true
        }
    }

    /// The checked way to bring up a transfer: claims the descriptor's
    /// stream — refusing to bind two live transfers to one stream — and,
    /// on a fresh claim, validates and configures it. A refused claim or
    /// a failed `prepare` leaves the manager as it was.
    pub fn claim_and_prepare(&mut self, d: &DmaTransfer) -> (r: Result<(), Error>)
        ensures
            old(self).spec_stream_claimed(d.stream) ==> r == Err::<(), Error>(Error::StreamInUse)
                && *final(self) == *old(self),
            !old(self).spec_stream_claimed(d.stream) && spec_is_valid(*d) is Some
                ==> final(self).controller == old(self).controller
                && final(self).claimed@ =~= old(self).claimed@,
            !old(self).spec_stream_claimed(d.stream) ==> (spec_is_valid(*d) matches Some(e) ==> r
                == Err::<(), Error>(e)),
            !old(self).spec_stream_claimed(d.stream) && spec_is_valid(*d) is None
                && !(old(self).controller.spec_stream(d.stream).en is Disable)
                ==> r == Err::<(), Error>(Error::StreamNotReady)
                && final(self).controller == old(self).controller
                && final(self).claimed@ =~= old(self).claimed@,
            !old(self).spec_stream_claimed(d.stream) && spec_is_valid(*d) is None
                && old(self).controller.spec_stream(d.stream).en is Disable
                ==> r == Ok::<(), Error>(())
                && final(self).controller == old(self).controller.spec_with_stream(
                d.stream,
                d.spec_configured(old(self).controller.spec_stream(d.stream)),
            )
                && final(self).claimed@ == old(self).claimed@.update(
                spec_stream_index(d.stream),
                true,
            ),
    {
        if !self.claim_stream(d.stream) {
            return Err(Error::StreamInUse);
        }
        match d.prepare(&mut self.controller) {
            Ok(()) => Ok(()),
            Err(e) => {
                self.release_stream(d.stream);
                Err(e)
            },
        }
    }

    /// Releases a stream's binding.
    pub fn release_stream(&mut self, s: Stream)
        ensures
            final(self).controller == old(self).controller,
            final(self).claimed@ == old(self).claimed@.update(spec_stream_index(s), false),
    {
        let i = stream_index(s);
        self.claimed[i] = false;
    }
}

/// A memory-side count factor of zero (the memory burst moves fewer bytes
/// than one peripheral beat) is always rejected by the first check, before
/// any division by it could occur.
pub proof fn lemma_zero_mcount_factor_rejected(d: DmaTransfer)
    requires
        spec_mcount_factor(d) == 0,
    ensures
        spec_is_valid(d) == Some(Error::TransactionCountNotAMultipleOf(0u16)),
{
}

/// A memory-to-memory transfer combined with circular mode (or double
/// buffering) is rejected whatever the other fields hold: if none of the
/// earlier count and alignment checks fires first, the circular-mode check
/// itself does.
pub proof fn lemma_memory_to_memory_circular_rejected(d: DmaTransfer)
    requires
        d.direction is MemoryToMemory,
        d.circular_mode is Enable || !(d.double_buffering_mode is Disable),
    ensures
        spec_is_valid(d) is Some,
{
}

} // verus!
