//! SD/SDMMC handle: card metadata, lifecycle state and bus configuration.

use vstd::prelude::*;

use crate::dma::DmaTransfer;
use crate::low_level;
use crate::sd_command::Sdmmc;

verus! {

/// Outcome of a handle-level operation.
#[derive(Clone, Copy, Debug, PartialEq, Eq, Structural)]
pub enum Status {
    Success,
    Error,
    Busy,
    Timeout,
}

/// Advisory lock of the handle; cooperative, never enforced by blocking.
#[derive(Clone, Copy, Debug, PartialEq, Eq, Structural)]
pub enum LockType {
    Locked,
    Unlocked,
}

/// Which kind of data operation the handle is engaged in.
#[derive(Clone, Copy, Debug, PartialEq, Eq, Structural)]
pub enum Context {
    NoOperation,
    ReadSingleBlock,
    ReadMultipleBlocks,
    WriteSingleBlock,
    WriteMultipleBlocks,
    InterruptMode,
    DmaMode,
}

/// Lifecycle state of the handle.
#[derive(Clone, Copy, Debug, PartialEq, Eq, Structural)]
pub enum State {
    Reset,
    Ready,
    Timeout,
    Busy,
    Programming,
    Receiving,
    Transfer,
    Error,
}

impl State {
    /// The state's display name.
    pub open spec fn spec_name(self) -> Seq<char> {
        match self {
            State::Reset => "Reset"@,
            State::Ready => "Ready"@,
            State::Timeout => "Timeout"@,
            State::Busy => "Busy"@,
            State::Programming => "Programming"@,
            State::Receiving => "Receiving"@,
            State::Transfer => "Transfer"@,
            State::Error => "Error"@,
        }
    }

    /// The state's display name.
    pub fn to_str(&self) -> (s: &'static str)
        ensures
            s@ == self.spec_name(),
    {
        match *self {
            State::Reset => "Reset",
            State::Ready => "Ready",
            State::Timeout => "Timeout",
            State::Busy => "Busy",
            State::Programming => "Programming",
            State::Receiving => "Receiving",
            State::Transfer => "Transfer",
            State::Error => "Error",
        }
    }
}

/// The four 32-bit words of a long (R2-class) response, as read from the
/// response registers; `w0` is the most significant word.
#[derive(Clone, Copy, Debug, PartialEq, Eq, Structural)]
pub struct ResponseWords {
    pub w0: u32,
    pub w1: u32,
    pub w2: u32,
    pub w3: u32,
}

/// Capacity classes of a card.
#[derive(Clone, Copy, Debug, PartialEq, Eq, Structural)]
pub enum CardType {
    Sdsc,
    SdhcSdxc,
    Secured,
}

/// Capacity support requested in the operating-conditions negotiation.
#[derive(Clone, Copy, Debug, PartialEq, Eq, Structural)]
pub enum CardCapacity {
    High,
    Standard,
}

impl CardCapacity {
    /// The argument bit this capacity request contributes: the
    /// high-capacity-support bit for `High`, nothing for `Standard`.
    pub open spec fn spec_arg_bits(self) -> u32 {
        match self {
            CardCapacity::High => 0x4000_0000,
            CardCapacity::Standard => 0x0,
        }
    }

    /// The argument bit this capacity request contributes.
    pub fn arg_bits(&self) -> (b: u32)
        ensures
            b == self.spec_arg_bits(),
    {
        match *self {
            CardCapacity::High => 0x4000_0000,
            CardCapacity::Standard => 0x0,
        }
    }
}

/// Protocol version the card reported during power-up.
#[derive(Clone, Copy, Debug, PartialEq, Eq, Structural)]
pub enum CardVersion {
    V1x,
    V2x,
}

/// Bus widths selectable via the clock-control register.
#[derive(Clone, Copy, Debug, PartialEq, Eq, Structural)]
pub enum BusMode {
    Default,
    Wide4,
    Wide8,
}

/// Card power supply control.
#[derive(Clone, Copy, Debug, PartialEq, Eq, Structural)]
pub enum PowerSupply {
    Off,
    On,
}

/// Expected response length of a command.
#[derive(Clone, Copy, Debug, PartialEq, Eq, Structural)]
pub enum WaitResp {
    No,
    Short,
    Long,
}

/// States of the card's own state machine during identification.
#[derive(Clone, Copy, Debug, PartialEq, Eq, Structural)]
pub enum CardState {
    Idle,
    Ready,
    Ident,
}

/// Card metadata, populated progressively during initialization. A failed
/// initialization leaves whatever fields were already written.
#[derive(Clone, Copy, Debug, PartialEq, Eq, Structural)]
pub struct CardInfo {
    pub card_type: CardType,
    pub version: CardVersion,
    /// Card command class, from the card-specific data register.
    pub class: u16,
    /// Relative card address; the top 16 bits are significant.
    pub relative_card_address: u32,
    /// Card identification register.
    pub cid: ResponseWords,
    /// Card-specific data register.
    pub csd: ResponseWords,
    pub number_of_blocks: usize,
    pub block_size: usize,
    pub logical_number_of_blocks: usize,
    pub logical_block_size: usize,
}

impl CardInfo {
    /// The empty record a fresh handle starts with.
    pub open spec fn spec_new() -> CardInfo {
        CardInfo {
            card_type: CardType::Sdsc,
            version: CardVersion::V1x,
            class: 0,
            relative_card_address: 0,
            cid: ResponseWords { w0: 0, w1: 0, w2: 0, w3: 0 },
            csd: ResponseWords { w0: 0, w1: 0, w2: 0, w3: 0 },
            number_of_blocks: 0,
            block_size: 0,
            logical_number_of_blocks: 0,
            logical_block_size: 0,
        }
    }

    /// Builds the empty record a fresh handle starts with.
    pub fn new() -> (c: CardInfo)
        ensures
            c == CardInfo::spec_new(),
    {
        CardInfo {
            card_type: CardType::Sdsc,
            version: CardVersion::V1x,
            class: 0,
            relative_card_address: 0,
            cid: ResponseWords { w0: 0, w1: 0, w2: 0, w3: 0 },
            csd: ResponseWords { w0: 0, w1: 0, w2: 0, w3: 0 },
            number_of_blocks: 0,
            block_size: 0,
            logical_number_of_blocks: 0,
            logical_block_size: 0,
        }
    }
}

/// The SD handle: the SDMMC port, the lifecycle state, the accumulated
/// error code, the card's metadata, and the two DMA transfer descriptors
/// reserved for the data path.
pub struct SdHandle {
    /// The SDMMC peripheral: its register block and the timebase its poll
    /// deadlines are measured against.
    pub registers: Sdmmc,
    pub lock_type: LockType,
    pub rx_dma_transfer: DmaTransfer,
    pub tx_dma_transfer: DmaTransfer,
    pub context: Context,
    pub state: State,
    /// Accumulated error flags; only reset by initialization.
    pub error_code: low_level::SdmmcErrorCode,
    pub sd_card: CardInfo,
}

impl SdHandle {
    /// The advisory lock, the DMA descriptors, the operation context and
    /// the card record agree between the two handles: the fields a command
    /// exchange never touches.
    pub open spec fn spec_same_card_side(self, other: SdHandle) -> bool {
        &&& self.lock_type == other.lock_type
        &&& self.rx_dma_transfer == other.rx_dma_transfer
        &&& self.tx_dma_transfer == other.tx_dma_transfer
        &&& self.context == other.context
        &&& self.sd_card == other.sd_card
    }

    /// Everything but the SDMMC port agrees between the two handles.
    pub open spec fn spec_same_but_port(self, other: SdHandle) -> bool {
        &&& self.spec_same_card_side(other)
        &&& self.state == other.state
        &&& self.error_code == other.error_code
    }

    /// Selects the bus width. Secured cards do not support wide buses, and
    /// switching the width needs the card-side application-command
    /// exchange, which this layer does not implement yet (see
    /// `enable_wide_bus`); every request is therefore refused with an
    /// unsupported-feature code, accumulated into the handle.
    #[verifier::rlimit(100)]
    #[verifier::spinoff_prover]
    pub fn set_bus_operation_mode(&mut self, mode: BusMode) -> (r: Status)
        ensures
            r is Error,
            final(self).state is Ready,
            final(self).error_code == old(self).error_code | low_level::UNSUPPORTED_FEATURE,
            final(self).registers.regs == old(self).registers.regs.spec_with_static_flags_cleared(),
            final(self).registers.clock == old(self).registers.clock,
            final(self).spec_same_card_side(*old(self)),
    {
        self.state = State::Busy;
        let e: low_level::SdmmcErrorCode = if self.sd_card.card_type == CardType::Secured {
            // secured cards do not support the wide bus feature
            low_level::UNSUPPORTED_FEATURE
        } else {
            match mode {
                BusMode::Wide8 => low_level::UNSUPPORTED_FEATURE,
                BusMode::Wide4 => self.enable_wide_bus(),
                BusMode::Default => self.disable_wide_bus(),
            }
        };
        self.error_code = self.error_code | e;
        // The accumulated code is never clear after the OR above, so the
        // peripheral's bus width is left alone; were a switch to succeed,
        // the clock-control register would take the new width instead.
        self.clear_all_static_status_flags();
        self.state = State::Ready;
        Status::Error
    }

    /// Card-side switch to the 4-bit bus. The exchange (reading the SCR,
    /// then the bus-width application command) is an extension point not
    /// implemented at this layer; the request reports an unsupported
    /// feature and changes nothing.
    fn enable_wide_bus(&self) -> (e: low_level::SdmmcErrorCode)
        ensures
            e == low_level::UNSUPPORTED_FEATURE,
    {
        low_level::UNSUPPORTED_FEATURE
    }

    /// Card-side switch back to the 1-bit bus; the same extension point as
    /// `enable_wide_bus`.
    fn disable_wide_bus(&self) -> (e: low_level::SdmmcErrorCode)
        ensures
            e == low_level::UNSUPPORTED_FEATURE,
    {
        low_level::UNSUPPORTED_FEATURE
    }

    /// Clears all static status flags, as a write to the interrupt-clear
    /// register does.
    fn clear_all_static_status_flags(&mut self)
        ensures
            final(self).registers.regs == old(self).registers.regs.spec_with_static_flags_cleared(),
            final(self).registers.clock == old(self).registers.clock,
            final(self).spec_same_but_port(*old(self)),
    {
        self.registers.clear_static_flags();
    }
}

} // verus!
