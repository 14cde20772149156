//! Card power-up, voltage negotiation and identification.
//!
//! The negotiation loop is written against a small command-layer trait so
//! that it is verified for every implementation of the layer: the real
//! SDMMC port implements it, and a harness may stand in for the card. The
//! decision each negotiation round takes is a verified function of the
//! round's outcomes alone.

use vstd::prelude::*;

use crate::dma::{
    BurstMode, Channel, CircularMode, Direction, DirectMode, DmaTransfer, DmaTransferNode,
    FifoThreshold, FlowContoller, IncrementMode, InterruptControl, PeripheralIncrementOffsetSize,
    PriorityLevel, Stream, Width,
};
use crate::low_level;
use crate::sd::{
    CardCapacity, CardInfo, CardType, CardVersion, Context, LockType, PowerSupply, ResponseWords,
    SdHandle, State, Status, WaitResp,
};
use crate::sd_command::{
    spec_cmdsent_result, spec_r1_regs, spec_r1_result, spec_r2_regs, spec_r2_result, spec_r3_regs,
    spec_r6_regs, spec_r6_result, spec_r7_regs, spec_r7_result, Sdmmc,
};
use crate::sd_regs::SdmmcRegisters;

verus! {

/// Offset of the receive buffer in the handle's memory window.
pub const RX_BUFFER_PTR_OFFSET: u32 = 0;

/// Size of the receive buffer in bytes.
pub const RX_BUFFER_SIZE: u32 = 512;

/// Peripheral-side address of the receive stream.
pub const RX_PERIPHERAL_ADDRESS: u32 = 0;

/// Offset of the transmit buffer in the handle's memory window.
pub const TX_BUFFER_PTR_OFFSET: u32 = RX_BUFFER_SIZE;

/// Size of the transmit buffer in bytes.
pub const TX_BUFFER_SIZE: u32 = 512;

/// Peripheral-side address of the transmit stream.
pub const TX_PERIPHERAL_ADDRESS: u32 = 0;

/// Memory the handle reserves for its two buffers.
pub const SDMMC_SDRAM_SIZE: u32 = RX_BUFFER_SIZE + TX_BUFFER_SIZE;

/// The commands the voltage-negotiation loop issues. The real SDMMC port
/// implements it; a test harness may answer for the card instead.
pub trait CommandLayer {
    /// Announces that the next command is an application command: CMD55
    /// with the given relative card address.
    fn app_cmd(&mut self, rca: u32) -> low_level::SdmmcErrorCode;

    /// Requests the card's operating conditions: ACMD41 with the given
    /// capacity support.
    fn send_op_cond(&mut self, capacity: CardCapacity) -> low_level::SdmmcErrorCode;

    /// The operation-conditions response word of the last request.
    fn op_cond_response(&self) -> u32;
}

impl CommandLayer for Sdmmc {
    fn app_cmd(&mut self, rca: u32) -> low_level::SdmmcErrorCode {
        self.cmd_app_cmd(rca)
    }

    fn send_op_cond(&mut self, capacity: CardCapacity) -> low_level::SdmmcErrorCode {
        self.cmd_sd_send_op_cond(capacity)
    }

    fn op_cond_response(&self) -> u32 {
        self.regs.resp1
    }
}

/// What one negotiation round decides.
#[derive(Clone, Copy, Debug, PartialEq, Eq, Structural)]
pub enum VoltageStep {
    /// The busy bit is set: the card is ready; carries the captured
    /// operation-conditions response.
    Ready(u32),
    /// The card answered but is not ready yet: try again.
    Retry,
    /// A command failed: abort the negotiation with this error.
    Abort(u32),
}

/// The decision one negotiation round takes, as a function of the round's
/// outcomes: a failed announcement or request aborts as an unsupported
/// feature; a response with the busy bit (bit 31) set means the card is
/// ready; anything else asks for another round.
pub fn voltage_trial_step(
    app_cmd_error: low_level::SdmmcErrorCode,
    op_cond_error: low_level::SdmmcErrorCode,
    response: u32,
) -> (s: VoltageStep)
    ensures
        app_cmd_error != low_level::NONE ==> s == VoltageStep::Abort(
            low_level::UNSUPPORTED_FEATURE,
        ),
        app_cmd_error == low_level::NONE && op_cond_error != low_level::NONE ==> s
            == VoltageStep::Abort(low_level::UNSUPPORTED_FEATURE),
        app_cmd_error == low_level::NONE && op_cond_error == low_level::NONE && response >> 31u32
            == 1u32 ==> s == VoltageStep::Ready(response),
        app_cmd_error == low_level::NONE && op_cond_error == low_level::NONE && response >> 31u32
            != 1u32 ==> s == VoltageStep::Retry,
{
    if app_cmd_error != low_level::NONE {
        VoltageStep::Abort(low_level::UNSUPPORTED_FEATURE)
    } else if op_cond_error != low_level::NONE {
        VoltageStep::Abort(low_level::UNSUPPORTED_FEATURE)
    } else if response >> 31u32 == 1u32 {
        VoltageStep::Ready(response)
    } else {
        VoltageStep::Retry
    }
}

/// The bounded voltage negotiation: up to 65535 rounds of CMD55 (with a
/// zero address) followed by ACMD41 with the requested capacity support.
/// A round whose commands both succeed reads the operation-conditions
/// response; the loop exits as ready exactly when its busy bit (bit 31)
/// is set, aborts as an unsupported feature when a command fails, and
/// reports an invalid voltage range when every round leaves the card busy.
///
/// The trait's methods carry no contracts — a harness must be free to
/// answer anything — so this contract states only what holds whatever the
/// layer answered. The same rounds run against the port itself, with the
/// outcome pinned to the modeled registers, are `Sdmmc::run_voltage_trial`.
pub fn voltage_trial<C: CommandLayer>(cmds: &mut C, capacity: CardCapacity) -> (r: Result<
    u32,
    low_level::SdmmcErrorCode,
>)
    ensures
        r matches Ok(resp) ==> resp >> 31u32 == 1u32,
        r matches Err(e) ==> e == low_level::UNSUPPORTED_FEATURE || e
            == low_level::INVALID_VOLTRANGE,
{
    let max_voltage_trial: u32 = 0xFFFF;
    let mut count: u32 = 0;
    while count < max_voltage_trial
        decreases max_voltage_trial - count,
    {
        count = count + 1;
        let app_cmd_error = cmds.app_cmd(0x0);
        let mut op_cond_error = low_level::NONE;
        let mut response: u32 = 0;
        if app_cmd_error == low_level::NONE {
            op_cond_error = cmds.send_op_cond(capacity);
            if op_cond_error == low_level::NONE {
                response = cmds.op_cond_response();
            }
        }
        match voltage_trial_step(app_cmd_error, op_cond_error, response) {
            VoltageStep::Abort(e) => {
                return Err(e);
            },
            VoltageStep::Ready(resp) => {
                return Ok(resp);
            },
            VoltageStep::Retry => {},
        }
    }
    Err(low_level::INVALID_VOLTRANGE)
}

/// The registers after one negotiation round against the port itself,
/// starting from contents `r`: CMD55's response wait and, where that
/// succeeded, ACMD41's.
pub open spec fn spec_port_trial_regs(r: SdmmcRegisters, capacity: CardCapacity) -> SdmmcRegisters {
    let announced = r.spec_cmd_written(0, WaitResp::Short, 55);
    if spec_r1_result(announced, 55) != low_level::NONE {
        spec_r1_regs(announced, 55)
    } else {
        spec_r3_regs(
            spec_r1_regs(announced, 55).spec_cmd_written(
                0x8010_0000 | capacity.spec_arg_bits(),
                WaitResp::Short,
                41,
            ),
        )
    }
}

impl Sdmmc {
    /// The negotiation run on the port itself, with its outcome pinned to
    /// the modeled registers. The port is passive — a response exists only
    /// where the card has already raised the status flags — and accepting
    /// CMD55's response clears every static flag, so ACMD41 can never be
    /// answered in the same round and the negotiation always aborts in its
    /// first round as an unsupported feature. Each round takes the same
    /// decision as `voltage_trial`, through `voltage_trial_step`.
    pub fn run_voltage_trial(&mut self, capacity: CardCapacity) -> (r: Result<
        u32,
        low_level::SdmmcErrorCode,
    >)
        ensures
            r == Err::<u32, u32>(low_level::UNSUPPORTED_FEATURE),
            final(self).regs == spec_port_trial_regs(old(self).regs, capacity),
            final(self).clock.now >= old(self).clock.now,
    {
        let max_voltage_trial: u32 = 0xFFFF;
        let mut count: u32 = 0;
        #[verifier::loop_isolation(false)]
        while count < max_voltage_trial
            invariant
                count == 0,
                *self == *old(self),
            decreases max_voltage_trial - count,
        {
            count = count + 1;
            proof {
                assert(0u32 << 16u32 == 0u32) by (bit_vector);
            }
            let app_cmd_error = self.cmd_app_cmd(0x0);
            let mut op_cond_error = low_level::NONE;
            let mut response: u32 = 0;
            if app_cmd_error == low_level::NONE {
                op_cond_error = self.cmd_sd_send_op_cond(capacity);
                if op_cond_error == low_level::NONE {
                    response = self.regs.resp1;
                }
            }
            match voltage_trial_step(app_cmd_error, op_cond_error, response) {
                VoltageStep::Abort(e) => {
                    return Err(e);
                },
                VoltageStep::Ready(resp) => {
                    return Ok(resp);
                },
                VoltageStep::Retry => {},
            }
        }
        Err(low_level::INVALID_VOLTRANGE)
    }
}

/// The registers the power-up sequence leaves, as a function of those it
/// starts from: CMD0's write, then — where the command went out — CMD8's
/// write and response wait, then the negotiation round on the path CMD8's
/// outcome selects.
pub open spec fn spec_power_on_regs(r: SdmmcRegisters) -> SdmmcRegisters {
    let after_cmd0 = r.spec_cmd_written(0, WaitResp::No, 0);
    if spec_cmdsent_result(after_cmd0) != low_level::NONE {
        after_cmd0
    } else {
        let announced8 = after_cmd0.spec_cmd_written(0x1AA, WaitResp::Short, 8);
        let capacity = if spec_r7_result(announced8) == low_level::NONE {
            CardCapacity::High
        } else {
            CardCapacity::Standard
        };
        spec_port_trial_regs(spec_r7_regs(announced8), capacity)
    }
}

/// The error the power-up sequence reports: CMD0's outcome where the
/// command never went out; otherwise the negotiation's abort (the passive
/// port cannot complete it, see `Sdmmc::run_voltage_trial`). Never clear:
/// without a card side the power-up cannot succeed.
pub open spec fn spec_power_on_error(r: SdmmcRegisters) -> u32 {
    let after_cmd0 = r.spec_cmd_written(0, WaitResp::No, 0);
    if spec_cmdsent_result(after_cmd0) != low_level::NONE {
        spec_cmdsent_result(after_cmd0)
    } else {
        low_level::UNSUPPORTED_FEATURE
    }
}

/// The protocol version the power-up sequence records: untouched where
/// CMD0 never went out, else set by whether CMD8 was answered.
pub open spec fn spec_power_on_version(r: SdmmcRegisters, v: CardVersion) -> CardVersion {
    let after_cmd0 = r.spec_cmd_written(0, WaitResp::No, 0);
    if spec_cmdsent_result(after_cmd0) != low_level::NONE {
        v
    } else if spec_r7_result(after_cmd0.spec_cmd_written(0x1AA, WaitResp::Short, 8))
        == low_level::NONE {
        CardVersion::V2x
    } else {
        CardVersion::V1x
    }
}

/// The tail of the identification sequence, from the point where the card
/// record `card` holds whatever was captured so far: the command class is
/// derived from the card-specific data, the card is selected (CMD7), and
/// on success the default clock configuration is re-applied. The result is
/// the reported error, the final registers and the final card record.
pub open spec fn spec_selection(r: SdmmcRegisters, card: CardInfo) -> (u32, SdmmcRegisters, CardInfo) {
    let classed = CardInfo { class: (card.csd.w1 >> 20u32) as u16, ..card };
    let w7 = r.spec_cmd_written(classed.relative_card_address & 0xFFFF_0000, WaitResp::Short, 7);
    let e7 = spec_r1_result(w7, 7);
    if e7 != low_level::NONE {
        (e7, spec_r1_regs(w7, 7), classed)
    } else {
        (low_level::NONE, spec_r1_regs(w7, 7).spec_with_default_clock_config(), classed)
    }
}

/// The whole identification sequence as a function of the registers and
/// the card record it starts from: nothing happens with the power off;
/// a non-secured card is prompted for its identification register (CMD2),
/// asked to publish an address (CMD3) and read for its card-specific data
/// (CMD9), each capture kept even when a later step fails; then the
/// selection tail. The first failing command's error is the result.
pub open spec fn spec_identification(r: SdmmcRegisters, card: CardInfo) -> (
    u32,
    SdmmcRegisters,
    CardInfo,
) {
    if r.pwrctrl is Off {
        (low_level::REQUEST_NOT_APPLICABLE, r, card)
    } else if !(card.card_type is Secured) {
        let w2 = r.spec_cmd_written(0, WaitResp::Long, 2);
        let r2 = spec_r2_regs(w2);
        if spec_r2_result(w2) != low_level::NONE {
            (spec_r2_result(w2), r2, card)
        } else {
            let card_cid = CardInfo {
                cid: (ResponseWords { w0: r2.resp1, w1: r2.resp2, w2: r2.resp3, w3: r2.resp4 }),
                ..card
            };
            let w3 = r2.spec_cmd_written(0, WaitResp::Short, 3);
            let r3 = spec_r6_regs(w3);
            match spec_r6_result(w3) {
                Err(e3) => (e3, r3, card_cid),
                Ok(rca) => {
                    let card_rca = CardInfo { relative_card_address: rca, ..card_cid };
                    let w9 = r3.spec_cmd_written(rca & 0xFFFF_0000, WaitResp::Long, 9);
                    let r9 = spec_r2_regs(w9);
                    if spec_r2_result(w9) != low_level::NONE {
                        (spec_r2_result(w9), r9, card_rca)
                    } else {
                        let card_csd = CardInfo {
                            csd: (ResponseWords {
                                w0: r9.resp1,
                                w1: r9.resp2,
                                w2: r9.resp3,
                                w3: r9.resp4,
                            }),
                            ..card_rca
                        };
                        spec_selection(r9, card_csd)
                    }
                },
            }
        }
    } else {
        spec_selection(r, card)
    }
}

/// The registers the card sees first in `init_card`: the default clock
/// configuration applied, the SDMMC clock re-enabled and the card supply
/// switched on.
pub open spec fn spec_powered_up(r: SdmmcRegisters) -> SdmmcRegisters {
    SdmmcRegisters {
        clken: true,
        pwrctrl: PowerSupply::On,
        ..r.spec_with_default_clock_config()
    }
}

/// The receive-stream descriptor the handle is built with: peripheral to
/// memory, word beats in bursts of four, the peripheral side fixed and
/// the memory side incrementing through the given buffer.
pub open spec fn spec_rx_descriptor(buffer_address: u32) -> DmaTransfer {
    DmaTransfer {
        stream: Stream::S3,
        channel: Channel::C4,
        priority: PriorityLevel::VeryHigh,
        direction: Direction::PeripheralToMemory,
        circular_mode: CircularMode::Disable,
        double_buffering_mode: crate::dma::DoubleBufferingMode::Disable,
        flow_controller: FlowContoller::Peripheral,
        peripheral_increment_offset_size: PeripheralIncrementOffsetSize::UsePSize,
        peripheral: DmaTransferNode {
            address: RX_PERIPHERAL_ADDRESS,
            burst_mode: BurstMode::Incremental4,
            increment_mode: IncrementMode::Fixed,
            transaction_width: Width::Word,
        },
        memory: DmaTransferNode {
            address: buffer_address,
            burst_mode: BurstMode::Incremental4,
            increment_mode: IncrementMode::Increment,
            transaction_width: Width::Word,
        },
        transaction_count: (RX_BUFFER_SIZE / 4) as u16,
        direct_mode: DirectMode::Disable,
        fifo_threshold: FifoThreshold::Full,
        interrupt_transfer_complete: InterruptControl::Enable,
        interrupt_half_transfer: InterruptControl::Disable,
        interrupt_transfer_error: InterruptControl::Enable,
        interrupt_direct_mode_error: InterruptControl::Disable,
        interrupt_fifo: InterruptControl::Enable,
    }
}

/// The transmit-stream descriptor the handle is built with; the mirror of
/// `spec_rx_descriptor` in the memory-to-peripheral direction.
pub open spec fn spec_tx_descriptor(buffer_address: u32) -> DmaTransfer {
    DmaTransfer {
        stream: Stream::S6,
        channel: Channel::C4,
        priority: PriorityLevel::VeryHigh,
        direction: Direction::MemoryToPeripheral,
        circular_mode: CircularMode::Disable,
        double_buffering_mode: crate::dma::DoubleBufferingMode::Disable,
        flow_controller: FlowContoller::Peripheral,
        peripheral_increment_offset_size: PeripheralIncrementOffsetSize::UsePSize,
        peripheral: DmaTransferNode {
            address: TX_PERIPHERAL_ADDRESS,
            burst_mode: BurstMode::Incremental4,
            increment_mode: IncrementMode::Fixed,
            transaction_width: Width::Word,
        },
        memory: DmaTransferNode {
            address: buffer_address,
            burst_mode: BurstMode::Incremental4,
            increment_mode: IncrementMode::Increment,
            transaction_width: Width::Word,
        },
        transaction_count: (TX_BUFFER_SIZE / 4) as u16,
        direct_mode: DirectMode::Disable,
        fifo_threshold: FifoThreshold::Full,
        interrupt_transfer_complete: InterruptControl::Enable,
        interrupt_half_transfer: InterruptControl::Disable,
        interrupt_transfer_error: InterruptControl::Enable,
        interrupt_direct_mode_error: InterruptControl::Disable,
        interrupt_fifo: InterruptControl::Enable,
    }
}

impl SdHandle {
    /// Builds a fresh handle: the port in its reset state, the handle in
    /// the reset lifecycle state with a clear error code and an empty card
    /// record, and the two DMA descriptors aimed at buffers bump-allocated
    /// from the given memory cursor, which advances past them.
    pub fn new(sdram_addr: &mut u32) -> (h: SdHandle)
        requires
            *old(sdram_addr) + SDMMC_SDRAM_SIZE <= u32::MAX,
        ensures
            *final(sdram_addr) == *old(sdram_addr) + SDMMC_SDRAM_SIZE,
            h.registers.regs == SdmmcRegisters::spec_reset(),
            h.registers.clock.now == 0,
            h.lock_type is Unlocked,
            h.context is NoOperation,
            h.state is Reset,
            h.error_code == low_level::NONE,
            h.sd_card == CardInfo::spec_new(),
            h.rx_dma_transfer == spec_rx_descriptor((*old(sdram_addr) + RX_BUFFER_PTR_OFFSET) as u32),
            h.tx_dma_transfer == spec_tx_descriptor((*old(sdram_addr) + TX_BUFFER_PTR_OFFSET) as u32),
    {
        let rx_buffer_ptr = *sdram_addr + RX_BUFFER_PTR_OFFSET;
        let rx_transaction_count = (RX_BUFFER_SIZE / 4) as u16;
        let tx_buffer_ptr = *sdram_addr + TX_BUFFER_PTR_OFFSET;
        let tx_transaction_count = (TX_BUFFER_SIZE / 4) as u16;
        *sdram_addr = *sdram_addr + SDMMC_SDRAM_SIZE;
        SdHandle {
            registers: Sdmmc::new(),
            lock_type: LockType::Unlocked,
            rx_dma_transfer: DmaTransfer {
                stream: Stream::S3,
                channel: Channel::C4,
                priority: PriorityLevel::VeryHigh,
                direction: Direction::PeripheralToMemory,
                circular_mode: CircularMode::Disable,
                double_buffering_mode: crate::dma::DoubleBufferingMode::Disable,
                flow_controller: FlowContoller::Peripheral,
                peripheral_increment_offset_size: PeripheralIncrementOffsetSize::UsePSize,
                peripheral: DmaTransferNode {
                    address: RX_PERIPHERAL_ADDRESS,
                    burst_mode: BurstMode::Incremental4,
                    increment_mode: IncrementMode::Fixed,
                    transaction_width: Width::Word,
                },
                memory: DmaTransferNode {
                    address: rx_buffer_ptr,
                    burst_mode: BurstMode::Incremental4,
                    increment_mode: IncrementMode::Increment,
                    transaction_width: Width::Word,
                },
                transaction_count: rx_transaction_count,
                direct_mode: DirectMode::Disable,
                fifo_threshold: FifoThreshold::Full,
                interrupt_transfer_complete: InterruptControl::Enable,
                interrupt_half_transfer: InterruptControl::Disable,
                interrupt_transfer_error: InterruptControl::Enable,
                interrupt_direct_mode_error: InterruptControl::Disable,
                interrupt_fifo: InterruptControl::Enable,
            },
            tx_dma_transfer: DmaTransfer {
                stream: Stream::S6,
                channel: Channel::C4,
                priority: PriorityLevel::VeryHigh,
                direction: Direction::MemoryToPeripheral,
                circular_mode: CircularMode::Disable,
                double_buffering_mode: crate::dma::DoubleBufferingMode::Disable,
                flow_controller: FlowContoller::Peripheral,
                peripheral_increment_offset_size: PeripheralIncrementOffsetSize::UsePSize,
                peripheral: DmaTransferNode {
                    address: TX_PERIPHERAL_ADDRESS,
                    burst_mode: BurstMode::Incremental4,
                    increment_mode: IncrementMode::Fixed,
                    transaction_width: Width::Word,
                },
                memory: DmaTransferNode {
                    address: tx_buffer_ptr,
                    burst_mode: BurstMode::Incremental4,
                    increment_mode: IncrementMode::Increment,
                    transaction_width: Width::Word,
                },
                transaction_count: tx_transaction_count,
                direct_mode: DirectMode::Disable,
                fifo_threshold: FifoThreshold::Full,
                interrupt_transfer_complete: InterruptControl::Enable,
                interrupt_half_transfer: InterruptControl::Disable,
                interrupt_transfer_error: InterruptControl::Enable,
                interrupt_direct_mode_error: InterruptControl::Disable,
                interrupt_fifo: InterruptControl::Enable,
            },
            context: Context::NoOperation,
            state: State::Reset,
            error_code: low_level::NONE,
            sd_card: CardInfo::new(),
        }
    }

    /// Applies the default clock configuration: negative edge off, bypass
    /// off, power save off, 1-bit bus, no hardware flow control, the fixed
    /// clock divider.
    fn set_default_clock_configuration(&mut self)
        ensures
            final(self).registers.regs
                == old(self).registers.regs.spec_with_default_clock_config(),
            final(self).registers.clock == old(self).registers.clock,
            final(self).spec_same_but_port(*old(self)),
    {
        self.registers.regs = SdmmcRegisters {
            negedge: false,
            bypass: false,
            pwrsav: false,
            widbus: crate::sd::BusMode::Default,
            hwfc_en: false,
            clkdiv: 0x76,
            ..self.registers.regs
        };
    }

    /// Initializes the card: applies the default clock configuration,
    /// powers the card up with the required settle delays (500 + 500 + 2
    /// ticks), then negotiates the operating voltage. Against the passive
    /// port the power-up cannot complete (see `spec_power_on_error`), so
    /// the sequence always ends in the failure discipline: the handle is
    /// left ready (idle but operable) with the cause accumulated into the
    /// error code. Card identification would follow a successful power-up.
    #[verifier::rlimit(100)]
    pub fn init_card(&mut self) -> (r: Status)
        ensures
            final(self).lock_type == old(self).lock_type,
            final(self).rx_dma_transfer == old(self).rx_dma_transfer,
            final(self).tx_dma_transfer == old(self).tx_dma_transfer,
            final(self).context == old(self).context,
            r is Error,
            final(self).state is Ready,
            final(self).error_code == old(self).error_code | spec_power_on_error(
                spec_powered_up(old(self).registers.regs),
            ),
            final(self).registers.regs == spec_power_on_regs(
                spec_powered_up(old(self).registers.regs),
            ),
            final(self).registers.clock.now >= (if old(self).registers.clock.now + 1002
                <= u64::MAX {
                old(self).registers.clock.now + 1002
            } else {
                u64::MAX as int
            }),
            final(self).sd_card == (CardInfo {
                version: spec_power_on_version(
                    spec_powered_up(old(self).registers.regs),
                    old(self).sd_card.version,
                ),
                ..old(self).sd_card
            }),
    {
        // Default clock configuration
        self.set_default_clock_configuration();
        // Power up the SD card: disable the SDMMC clock, switch the supply
        // on, re-enable the clock, with the required settle delays, then
        // the power-up waiting time before the initialization sequence.
        self.registers.regs = SdmmcRegisters { clken: false, ..self.registers.regs };
        self.registers.clock.wait(500);
        self.registers.regs = SdmmcRegisters { pwrctrl: PowerSupply::On, ..self.registers.regs };
        self.registers.clock.wait(500);
        self.registers.regs = SdmmcRegisters { clken: true, ..self.registers.regs };
        self.registers.clock.wait(2);

        // Identify the card's operating voltage
        let errorstate = self.power_on();
        if errorstate != low_level::NONE {
            self.state = State::Ready;
            self.error_code = self.error_code | errorstate;
            return Status::Error;
        }

        // Card identification
        let errorstate = self.init_card_low_level();
        if errorstate != low_level::NONE {
            self.state = State::Ready;
            self.error_code = self.error_code | errorstate;
            return Status::Error;
        }

        Status::Success
    }

    /// Initializes the SD card and the handle around it. On the first run
    /// out of reset the advisory lock is released; the pin multiplexing
    /// and peripheral-clock bring-up belong to the board layer outside
    /// this model. Each initialization starts a fresh error accumulation
    /// and resets the operation context, whether or not the card comes up.
    /// Against the passive port no card can answer, so the attempt always
    /// ends in failure: the handle is left ready (idle but operable) with
    /// exactly this attempt's cause in the error code, readable before a
    /// retry.
    #[verifier::rlimit(100)]
    pub fn init(&mut self) -> (r: Status)
        ensures
            r is Error,
            final(self).state is Ready,
            final(self).context is NoOperation,
            final(self).rx_dma_transfer == old(self).rx_dma_transfer,
            final(self).tx_dma_transfer == old(self).tx_dma_transfer,
            final(self).lock_type == (if old(self).state is Reset {
                LockType::Unlocked
            } else {
                old(self).lock_type
            }),
            final(self).error_code == spec_power_on_error(
                spec_powered_up(old(self).registers.regs),
            ),
            final(self).registers.regs == spec_power_on_regs(
                spec_powered_up(old(self).registers.regs),
            ),
            final(self).sd_card == (CardInfo {
                version: spec_power_on_version(
                    spec_powered_up(old(self).registers.regs),
                    old(self).sd_card.version,
                ),
                ..old(self).sd_card
            }),
    {
        if self.state == State::Reset {
            self.lock_type = LockType::Unlocked;
            // pin multiplexing and peripheral-clock bring-up happen in the
            // board layer, outside this model
        }
        self.state = State::Busy;
        // a new initialization starts a fresh error accumulation
        self.error_code = low_level::NONE;
        let st = self.init_card();
        proof {
            // the fresh accumulation holds exactly this attempt's cause
            let cause = spec_power_on_error(spec_powered_up(old(self).registers.regs));
            assert(0u32 | cause == cause) by (bit_vector);
        }
        // the operation context is reset whether or not the card came up
        self.context = Context::NoOperation;
        if st == Status::Success {
            self.error_code = low_level::NONE;
            self.state = State::Ready;
            Status::Success
        } else {
            // The handle stays ready with this attempt's cause in the
            // error code, so a caller can read it and retry.
            Status::Error
        }
    }

    /// De-initializes the card: powers it off, runs the low-level
    /// de-initialization, clears the error code and returns the handle to
    /// its reset state.
    pub fn de_init(&mut self) -> (r: Status)
        ensures
            r is Success,
            final(self).state is Reset,
            final(self).error_code == low_level::NONE,
            final(self).registers.regs == old(self).registers.regs.spec_with_power(
                PowerSupply::Off,
            ),
            final(self).registers.clock == old(self).registers.clock,
            final(self).spec_same_card_side(*old(self)),
    {
        self.state = State::Busy;
        // power the card off
        self.registers.set_power(PowerSupply::Off);
        self.de_init_low_level();
        self.error_code = low_level::NONE;
        self.state = State::Reset;
        Status::Success
    }

    /// Powers the card up logically: CMD0 into the idle state, CMD8 to
    /// tell a version-2 card from a version-1 card, then the voltage
    /// negotiation on the matching path. A version-2 card's capacity class
    /// comes from the high-capacity bit of the captured response; a
    /// version-1 card is always standard capacity. The whole outcome is a
    /// function of the registers the sequence starts from.
    #[verifier::rlimit(100)]
    fn power_on(&mut self) -> (e: low_level::SdmmcErrorCode)
        ensures
            final(self).lock_type == old(self).lock_type,
            final(self).rx_dma_transfer == old(self).rx_dma_transfer,
            final(self).tx_dma_transfer == old(self).tx_dma_transfer,
            final(self).context == old(self).context,
            final(self).state == old(self).state,
            final(self).error_code == old(self).error_code,
            e == spec_power_on_error(old(self).registers.regs),
            final(self).registers.regs == spec_power_on_regs(old(self).registers.regs),
            final(self).registers.clock.now >= old(self).registers.clock.now,
            final(self).sd_card == (CardInfo {
                version: spec_power_on_version(
                    old(self).registers.regs,
                    old(self).sd_card.version,
                ),
                ..old(self).sd_card
            }),
    {
        // send CMD0 to go to the idle state
        let cmd0_error = self.registers.cmd_go_idle_state();
        if cmd0_error != low_level::NONE {
            return cmd0_error;
        }
        // Send CMD8 to get the operating conditions and distinguish between
        // version 1 and version 2 cards; only version-2 cards answer it.
        if self.registers.cmd_send_if_cond() == low_level::NONE {
            self.sd_card.version = CardVersion::V2x;
            match self.registers.run_voltage_trial(CardCapacity::High) {
                Ok(response) => {
                    if response & 0x4000_0000 == 0 {
                        self.sd_card.card_type = CardType::Sdsc;
                    } else {
                        self.sd_card.card_type = CardType::SdhcSdxc;
                    }
                },
                Err(v_err) => {
                    return v_err;
                },
            }
        } else {
            self.sd_card.version = CardVersion::V1x;
            match self.registers.run_voltage_trial(CardCapacity::Standard) {
                Ok(_) => {
                    self.sd_card.card_type = CardType::Sdsc;
                },
                Err(v_err) => {
                    return v_err;
                },
            }
        }
        low_level::NONE
    }

    /// Card identification: with the power on, prompts the cards for their
    /// identification register (CMD2), asks for a published relative
    /// address (CMD3) and reads the card-specific data (CMD9) — all
    /// skipped for a secured card — then derives the command class from
    /// the card-specific data, selects the card (CMD7) and re-applies the
    /// default clock configuration. The first failing step aborts with its
    /// error. Nothing in this layer refreshes the response registers
    /// between responses — only the card does — so whatever they hold when
    /// a response is accepted is what gets captured.
    #[verifier::rlimit(100)]
    fn init_card_low_level(&mut self) -> (e: low_level::SdmmcErrorCode)
        ensures
            final(self).lock_type == old(self).lock_type,
            final(self).rx_dma_transfer == old(self).rx_dma_transfer,
            final(self).tx_dma_transfer == old(self).tx_dma_transfer,
            final(self).context == old(self).context,
            final(self).state == old(self).state,
            final(self).error_code == old(self).error_code,
            e == spec_identification(old(self).registers.regs, old(self).sd_card).0,
            final(self).registers.regs == spec_identification(
                old(self).registers.regs,
                old(self).sd_card,
            ).1,
            final(self).sd_card == spec_identification(
                old(self).registers.regs,
                old(self).sd_card,
            ).2,
            final(self).registers.clock.now >= old(self).registers.clock.now,
    {
        // check that the power is on
        if self.registers.regs.pwrctrl == PowerSupply::Off {
            return low_level::REQUEST_NOT_APPLICABLE;
        }
        if self.sd_card.card_type != CardType::Secured {
            // prompt all cards to send their card identification number
            let cid_err = self.registers.cmd_all_send_cid();
            if cid_err != low_level::NONE {
                return cid_err;
            }
            self.sd_card.cid = self.registers.get_all_response_registers();

            // ask the card to publish a new relative address
            match self.registers.cmd_send_relative_addr() {
                Ok(rca) => {
                    self.sd_card.relative_card_address = rca;
                },
                Err(err) => {
                    return err;
                },
            }

            // get the card-specific data
            let rca = self.sd_card.relative_card_address;
            let csd_err = self.registers.cmd_send_csd(rca);
            if csd_err != low_level::NONE {
                return csd_err;
            }
            self.sd_card.csd = self.registers.get_all_response_registers();
        }
        // The card command class is the top twelve bits of the second
        // card-specific data word.
        let w1 = self.sd_card.csd.w1;
        proof {
            assert(w1 >> 20u32 < 0x10000) by (bit_vector);
        }
        self.sd_card.class = (w1 >> 20u32) as u16;

        // select the card
        let rca = self.sd_card.relative_card_address;
        let select_err = self.registers.cmd_select_deselect_card(rca);
        if select_err != low_level::NONE {
            return select_err;
        }

        // Default clock configuration
        self.set_default_clock_configuration();
        low_level::NONE
    }

    /// De-initializes the low-level hardware. The board layer's teardown
    /// (pins, peripheral clock) is an extension point outside this model;
    /// nothing is changed here yet.
    fn de_init_low_level(&self) -> (r: Status)
        ensures
            r is Success,
    {
        Status::Success
    }
}

} // verus!
