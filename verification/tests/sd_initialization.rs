use sdmmc_dma::dma::Stream;
use sdmmc_dma::low_level;
use sdmmc_dma::sd::{BusMode, CardCapacity, Context, LockType, PowerSupply, SdHandle, State, Status};
use sdmmc_dma::sd_command::Sdmmc;
use sdmmc_dma::sd_init::{voltage_trial, voltage_trial_step, CommandLayer, VoltageStep};

/// A command layer standing in for a card during the voltage negotiation.
struct MockCard {
    app_cmd_calls: u32,
    op_cond_calls: u32,
    /// The request (1-based) whose response carries the busy bit.
    ready_on: u32,
    app_cmd_error: u32,
    op_cond_error: u32,
}

impl MockCard {
    fn new(ready_on: u32) -> MockCard {
        MockCard {
            app_cmd_calls: 0,
            op_cond_calls: 0,
            ready_on,
            app_cmd_error: low_level::NONE,
            op_cond_error: low_level::NONE,
        }
    }
}

impl CommandLayer for MockCard {
    fn app_cmd(&mut self, _rca: u32) -> u32 {
        self.app_cmd_calls += 1;
        self.app_cmd_error
    }

    fn send_op_cond(&mut self, _capacity: CardCapacity) -> u32 {
        self.op_cond_calls += 1;
        self.op_cond_error
    }

    fn op_cond_response(&self) -> u32 {
        if self.ready_on != 0 && self.op_cond_calls == self.ready_on {
            0x8000_0000 | 0x4000_0000 | self.op_cond_calls
        } else {
            self.op_cond_calls
        }
    }
}

#[test]
fn voltage_trial_exits_on_the_third_attempt() {
    let mut card = MockCard::new(3);
    let r = voltage_trial(&mut card, CardCapacity::High);
    // exactly three rounds ran, and the third response was captured
    assert_eq!(card.op_cond_calls, 3);
    assert_eq!(card.app_cmd_calls, 3);
    assert_eq!(r, Ok(0x8000_0000 | 0x4000_0000 | 3));
}

#[test]
fn voltage_trial_exhausts_all_attempts_without_the_busy_bit() {
    let mut card = MockCard::new(0);
    let r = voltage_trial(&mut card, CardCapacity::High);
    assert_eq!(r, Err(low_level::INVALID_VOLTRANGE));
    assert_eq!(card.op_cond_calls, 0xFFFF);
}

#[test]
fn voltage_trial_aborts_on_a_failed_announcement() {
    let mut card = MockCard::new(3);
    card.app_cmd_error = low_level::CMD_RSP_TIMEOUT;
    let r = voltage_trial(&mut card, CardCapacity::High);
    assert_eq!(r, Err(low_level::UNSUPPORTED_FEATURE));
    assert_eq!(card.app_cmd_calls, 1);
    // the failed announcement stops the round before the request
    assert_eq!(card.op_cond_calls, 0);
}

#[test]
fn voltage_trial_aborts_on_a_failed_request() {
    let mut card = MockCard::new(3);
    card.op_cond_error = low_level::CMD_CRC_FAIL;
    let r = voltage_trial(&mut card, CardCapacity::High);
    assert_eq!(r, Err(low_level::UNSUPPORTED_FEATURE));
    assert_eq!(card.op_cond_calls, 1);
}

#[test]
fn voltage_trial_step_decisions() {
    assert_eq!(
        voltage_trial_step(low_level::CMD_RSP_TIMEOUT, low_level::NONE, 0),
        VoltageStep::Abort(low_level::UNSUPPORTED_FEATURE)
    );
    assert_eq!(
        voltage_trial_step(low_level::NONE, low_level::TIMEOUT, 0),
        VoltageStep::Abort(low_level::UNSUPPORTED_FEATURE)
    );
    assert_eq!(
        voltage_trial_step(low_level::NONE, low_level::NONE, 0x8000_0001),
        VoltageStep::Ready(0x8000_0001)
    );
    assert_eq!(
        voltage_trial_step(low_level::NONE, low_level::NONE, 0x7FFF_FFFF),
        VoltageStep::Retry
    );
}

#[test]
fn real_port_voltage_trial_aborts_on_silence() {
    // a port with no card never raises a flag: the announcement times out
    // and the negotiation reports an unsupported feature
    let mut port = Sdmmc::new();
    let r = voltage_trial(&mut port, CardCapacity::High);
    assert_eq!(r, Err(low_level::UNSUPPORTED_FEATURE));
}

#[test]
fn real_port_negotiation_run_matches_the_generic_trial() {
    let mut port = Sdmmc::new();
    assert_eq!(
        port.run_voltage_trial(CardCapacity::High),
        Err(low_level::UNSUPPORTED_FEATURE)
    );
    let mut port2 = Sdmmc::new();
    assert_eq!(
        voltage_trial(&mut port2, CardCapacity::High),
        port.run_voltage_trial(CardCapacity::High)
    );
}

#[test]
fn new_handle_starts_in_reset() {
    let mut cursor: u32 = 0xC010_0000;
    let h = SdHandle::new(&mut cursor);
    // the two buffers were bump-allocated from the cursor
    assert_eq!(cursor, 0xC010_0400);
    assert_eq!(h.state, State::Reset);
    assert_eq!(h.error_code, low_level::NONE);
    assert_eq!(h.lock_type, LockType::Unlocked);
    assert_eq!(h.context, Context::NoOperation);
    assert_eq!(h.registers.regs.pwrctrl, PowerSupply::Off);
    assert_eq!(h.rx_dma_transfer.stream, Stream::S3);
    assert_eq!(h.rx_dma_transfer.memory.address, 0xC010_0000);
    assert_eq!(h.rx_dma_transfer.transaction_count, 128);
    assert_eq!(h.tx_dma_transfer.stream, Stream::S6);
    assert_eq!(h.tx_dma_transfer.memory.address, 0xC010_0200);
    // the descriptors the handle is built with are themselves well formed
    assert_eq!(h.rx_dma_transfer.is_valid(), None);
    assert_eq!(h.tx_dma_transfer.is_valid(), None);
}

#[test]
fn init_without_a_card_fails_but_leaves_the_handle_ready() {
    let mut cursor: u32 = 0xC010_0000;
    let mut h = SdHandle::new(&mut cursor);
    let r = h.init();
    assert_eq!(r, Status::Error);
    // the failure leaves the handle idle but operable, with the cause
    // accumulated in the error code rather than an error state
    assert_eq!(h.state, State::Ready);
    assert_eq!(h.error_code, low_level::TIMEOUT);
    // the power-up sequence ran: the card supply is on
    assert_eq!(h.registers.regs.pwrctrl, PowerSupply::On);
}

#[test]
fn each_init_starts_a_fresh_error_accumulation() {
    let mut cursor: u32 = 0xC010_0000;
    let mut h = SdHandle::new(&mut cursor);
    // codes left over from earlier operations do not survive into the
    // next initialization's accumulator
    h.error_code = low_level::CMD_CRC_FAIL | low_level::RX_OVERRUN;
    h.context = Context::ReadSingleBlock;
    let r = h.init();
    assert_eq!(r, Status::Error);
    assert_eq!(h.error_code, low_level::TIMEOUT);
    // the operation context is reset whether or not the card came up
    assert_eq!(h.context, Context::NoOperation);
}

#[test]
fn de_init_returns_the_handle_to_reset() {
    let mut cursor: u32 = 0xC010_0000;
    let mut h = SdHandle::new(&mut cursor);
    let _ = h.init();
    let r = h.de_init();
    assert_eq!(r, Status::Success);
    assert_eq!(h.state, State::Reset);
    assert_eq!(h.error_code, low_level::NONE);
    assert_eq!(h.registers.regs.pwrctrl, PowerSupply::Off);
}

#[test]
fn bus_mode_switch_is_refused_and_accumulates_the_error() {
    let mut cursor: u32 = 0xC010_0000;
    let mut h = SdHandle::new(&mut cursor);
    let r = h.set_bus_operation_mode(BusMode::Wide4);
    assert_eq!(r, Status::Error);
    assert_eq!(h.state, State::Ready);
    assert_eq!(h.error_code, low_level::UNSUPPORTED_FEATURE);
    // the error accumulates over the existing code instead of replacing it
    let r2 = h.set_bus_operation_mode(BusMode::Wide8);
    assert_eq!(r2, Status::Error);
    assert_eq!(h.error_code, low_level::UNSUPPORTED_FEATURE);
}
