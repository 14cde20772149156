use sdmmc_dma::low_level;
use sdmmc_dma::sd::{CardCapacity, CardInfo, CardType, CardVersion, State, WaitResp};
use sdmmc_dma::sd_command::{check_ocr_error_bits, Sdmmc};

#[test]
fn ocr_decode_of_zero_is_no_error() {
    assert_eq!(check_ocr_error_bits(0), low_level::NONE);
}

#[test]
fn ocr_decode_bit31_is_address_out_of_range() {
    assert_eq!(check_ocr_error_bits(0x8000_0000), low_level::ADDR_OUT_OF_RANGE);
}

#[test]
fn ocr_decode_bit31_takes_priority_over_bit30() {
    // both the out-of-range and the misaligned bits are set; the higher
    // bit wins
    assert_eq!(check_ocr_error_bits(0xC000_0000), low_level::ADDR_OUT_OF_RANGE);
}

#[test]
fn ocr_decode_single_bits() {
    assert_eq!(check_ocr_error_bits(0x4000_0000), low_level::ADDR_MISALIGNED);
    assert_eq!(check_ocr_error_bits(0x2000_0000), low_level::BLOCK_LEN_ERR);
    assert_eq!(check_ocr_error_bits(0x1000_0000), low_level::ERASE_SEQ_ERR);
    assert_eq!(check_ocr_error_bits(0x0800_0000), low_level::BAD_ERASE_PARAM);
    assert_eq!(check_ocr_error_bits(0x0400_0000), low_level::WRITE_PROT_VIOLATION);
    assert_eq!(check_ocr_error_bits(0x0100_0000), low_level::LOCK_UNLOCK_FAILED);
    assert_eq!(check_ocr_error_bits(0x0080_0000), low_level::COM_CRC_FAILED);
    assert_eq!(check_ocr_error_bits(0x0040_0000), low_level::ILLEGAL_CMD);
    assert_eq!(check_ocr_error_bits(0x0020_0000), low_level::CARD_ECC_FAILED);
    assert_eq!(check_ocr_error_bits(0x0010_0000), low_level::CC_ERR);
    assert_eq!(check_ocr_error_bits(0x0004_0000), low_level::STREAM_READ_UNDERRUN);
    assert_eq!(check_ocr_error_bits(0x0002_0000), low_level::STREAM_WRITE_OVERRUN);
    assert_eq!(check_ocr_error_bits(0x0001_0000), low_level::CID_CSD_OVERWRITE);
    assert_eq!(check_ocr_error_bits(0x0000_8000), low_level::WP_ERASE_SKIP);
    assert_eq!(check_ocr_error_bits(0x0000_4000), low_level::CARD_ECC_DISABLED);
    assert_eq!(check_ocr_error_bits(0x0000_2000), low_level::ERASE_RESET);
    assert_eq!(check_ocr_error_bits(0x0000_0008), low_level::AKE_SEQ_ERR);
}

#[test]
fn ocr_decode_unlisted_masked_bit_is_a_general_error() {
    // bit 19 is inside the error mask but has no dedicated decode
    assert_eq!(check_ocr_error_bits(0x0008_0000), low_level::GENERAL_UNKNOWN_ERR);
}

#[test]
fn ocr_decode_ignores_bits_outside_the_mask() {
    // bits 12..9 and others are outside the error mask
    assert_eq!(check_ocr_error_bits(0x0000_1E00), low_level::NONE);
}

#[test]
fn go_idle_times_out_without_a_sent_flag() {
    let mut port = Sdmmc::new();
    let e = port.cmd_go_idle_state();
    assert_eq!(e, low_level::TIMEOUT);
    // the poll spent its full deadline, one tick per iteration
    assert_eq!(port.clock.ticks(), 5000);
    // the command register was written all the same
    assert_eq!(port.regs.cmdindex, 0);
    assert_eq!(port.regs.arg, 0);
    assert_eq!(port.regs.waitresp, WaitResp::No);
    assert!(port.regs.cpsmen);
}

#[test]
fn go_idle_succeeds_on_the_sent_flag() {
    let mut port = Sdmmc::new();
    port.regs.cmdsent = true;
    assert_eq!(port.cmd_go_idle_state(), low_level::NONE);
    // the flag is left standing for the next clear
    assert!(port.regs.cmdsent);
}

#[test]
fn send_if_cond_timeout_means_version_not_supported() {
    let mut port = Sdmmc::new();
    port.regs.ctimeout = true;
    assert_eq!(port.cmd_send_if_cond(), low_level::CMD_RSP_TIMEOUT);
    // the timeout flag was acknowledged
    assert!(!port.regs.ctimeout);
    assert_eq!(port.regs.cmdindex, 8);
    assert_eq!(port.regs.arg, 0x1AA);
    assert_eq!(port.regs.waitresp, WaitResp::Short);
}

#[test]
fn send_if_cond_crc_failure_still_counts_as_answered() {
    let mut port = Sdmmc::new();
    port.regs.ccrcfail = true;
    assert_eq!(port.cmd_send_if_cond(), low_level::NONE);
    assert!(!port.regs.ccrcfail);
}

#[test]
fn send_if_cond_received_response_is_success() {
    let mut port = Sdmmc::new();
    port.regs.cmdrend = true;
    assert_eq!(port.cmd_send_if_cond(), low_level::NONE);
    assert!(!port.regs.cmdrend);
}

#[test]
fn app_cmd_decodes_a_clean_status() {
    let mut port = Sdmmc::new();
    port.regs.cmdrend = true;
    port.regs.respcmd = 55;
    port.regs.resp1 = 0x0000_0100;
    assert_eq!(port.cmd_app_cmd(0), low_level::NONE);
    assert_eq!(port.regs.cmdindex, 55);
    assert_eq!(port.regs.arg, 0);
    // the static flags were cleared on the way out
    assert!(!port.regs.cmdrend);
}

#[test]
fn app_cmd_shifts_the_address_into_the_argument() {
    let mut port = Sdmmc::new();
    port.regs.ctimeout = true;
    assert_eq!(port.cmd_app_cmd(0x1234), low_level::CMD_RSP_TIMEOUT);
    assert_eq!(port.regs.arg, 0x1234_0000);
}

#[test]
fn app_cmd_with_wrong_echoed_index_is_a_crc_failure() {
    let mut port = Sdmmc::new();
    port.regs.cmdrend = true;
    port.regs.respcmd = 41;
    assert_eq!(port.cmd_app_cmd(0), low_level::CMD_CRC_FAIL);
}

#[test]
fn app_cmd_decodes_status_error_bits() {
    let mut port = Sdmmc::new();
    port.regs.cmdrend = true;
    port.regs.respcmd = 55;
    port.regs.resp1 = 0x8000_0000;
    assert_eq!(port.cmd_app_cmd(0), low_level::ADDR_OUT_OF_RANGE);
}

#[test]
fn send_op_cond_argument_requests_high_capacity() {
    let mut port = Sdmmc::new();
    port.regs.ccrcfail = true;
    assert_eq!(port.cmd_sd_send_op_cond(CardCapacity::High), low_level::NONE);
    assert_eq!(port.regs.arg, 0x8010_0000 | 0x4000_0000);
    assert_eq!(port.regs.cmdindex, 41);
    // a CRC failure counts as a response for the CRC-less reply
    assert!(!port.regs.ccrcfail);
}

#[test]
fn send_op_cond_standard_capacity_argument() {
    let mut port = Sdmmc::new();
    port.regs.cmdrend = true;
    assert_eq!(port.cmd_sd_send_op_cond(CardCapacity::Standard), low_level::NONE);
    assert_eq!(port.regs.arg, 0x8010_0000);
}

#[test]
fn send_op_cond_times_out_without_flags() {
    let mut port = Sdmmc::new();
    assert_eq!(port.cmd_sd_send_op_cond(CardCapacity::High), low_level::TIMEOUT);
}

#[test]
fn all_send_cid_reads_the_long_response() {
    let mut port = Sdmmc::new();
    port.regs.cmdrend = true;
    port.regs.resp1 = 0x11;
    port.regs.resp2 = 0x22;
    port.regs.resp3 = 0x33;
    port.regs.resp4 = 0x44;
    assert_eq!(port.cmd_all_send_cid(), low_level::NONE);
    let w = port.get_all_response_registers();
    assert_eq!(w.w0, 0x11);
    assert_eq!(w.w1, 0x22);
    assert_eq!(w.w2, 0x33);
    assert_eq!(w.w3, 0x44);
    assert_eq!(port.regs.cmdindex, 2);
    assert_eq!(port.regs.waitresp, WaitResp::Long);
}

#[test]
fn send_relative_addr_captures_the_published_address() {
    let mut port = Sdmmc::new();
    port.regs.cmdrend = true;
    port.regs.resp1 = 0x1234_0000;
    assert_eq!(port.cmd_send_relative_addr(), Ok(0x1234_0000));
    assert_eq!(port.regs.cmdindex, 3);
}

#[test]
fn send_relative_addr_reports_a_timeout() {
    let mut port = Sdmmc::new();
    port.regs.ctimeout = true;
    assert_eq!(port.cmd_send_relative_addr(), Err(low_level::CMD_RSP_TIMEOUT));
}

#[test]
fn send_csd_puts_the_address_bits_in_the_argument() {
    let mut port = Sdmmc::new();
    port.regs.cmdrend = true;
    assert_eq!(port.cmd_send_csd(0x5678_FFFF), low_level::NONE);
    assert_eq!(port.regs.arg, 0x5678_0000);
    assert_eq!(port.regs.cmdindex, 9);
    assert_eq!(port.regs.waitresp, WaitResp::Long);
}

#[test]
fn select_card_checks_the_echoed_index() {
    let mut port = Sdmmc::new();
    port.regs.cmdrend = true;
    port.regs.respcmd = 7;
    port.regs.resp1 = 0;
    assert_eq!(port.cmd_select_deselect_card(0xABCD_0000), low_level::NONE);
    assert_eq!(port.regs.arg, 0xABCD_0000);
    assert_eq!(port.regs.cmdindex, 7);
}

#[test]
fn state_names_match_the_states() {
    assert_eq!(State::Reset.to_str(), "Reset");
    assert_eq!(State::Ready.to_str(), "Ready");
    assert_eq!(State::Timeout.to_str(), "Timeout");
    assert_eq!(State::Busy.to_str(), "Busy");
    assert_eq!(State::Programming.to_str(), "Programming");
    assert_eq!(State::Receiving.to_str(), "Receiving");
    assert_eq!(State::Transfer.to_str(), "Transfer");
    assert_eq!(State::Error.to_str(), "Error");
}

#[test]
fn fresh_card_info_is_empty() {
    let c = CardInfo::new();
    assert_eq!(c.card_type, CardType::Sdsc);
    assert_eq!(c.version, CardVersion::V1x);
    assert_eq!(c.relative_card_address, 0);
    assert_eq!(c.class, 0);
    assert_eq!(c.number_of_blocks, 0);
    assert_eq!(c.block_size, 0);
}

#[test]
fn capacity_argument_bits() {
    assert_eq!(CardCapacity::High.arg_bits(), 0x4000_0000);
    assert_eq!(CardCapacity::Standard.arg_bits(), 0);
}
