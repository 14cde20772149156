//! SDMMC command issuance and response decoding.
//!
//! Each command sets the argument register, then the command register
//! (index, expected response length, command-path-state-machine enable)
//! with all unrelated bits at their reset values, and then polls the
//! status flags against a tick deadline. The response handlers check the
//! flags in a fixed priority order and clear exactly the flags the
//! hardware's interrupt-clear register would.

use vstd::prelude::*;

use crate::clock::SystemClock;
use crate::low_level;
use crate::sd::{CardCapacity, PowerSupply, ResponseWords, SdHandle, WaitResp};
use crate::sd_regs::SdmmcRegisters;

verus! {

/// How long (in ticks) a command waits for its status flag.
pub const CMD_TIMEOUT_TICKS: u64 = 5000;

/// The priority-ordered decode of a card-status (R1/OCR) word: the masked
/// word is tested bit by bit in strictly descending priority and the
/// first raised error bit wins.
pub open spec fn spec_check_ocr(resp1: u32) -> u32 {
    if (resp1 & 0xFDFFE008) == 0 {
        low_level::NONE
    } else if (resp1 & 0x8000_0000) == 0x8000_0000 {
        low_level::ADDR_OUT_OF_RANGE
    } else if (resp1 & 0x4000_0000) == 0x4000_0000 {
        low_level::ADDR_MISALIGNED
    } else if (resp1 & 0x2000_0000) == 0x2000_0000 {
        low_level::BLOCK_LEN_ERR
    } else if (resp1 & 0x1000_0000) == 0x1000_0000 {
        low_level::ERASE_SEQ_ERR
    } else if (resp1 & 0x0800_0000) == 0x0800_0000 {
        low_level::BAD_ERASE_PARAM
    } else if (resp1 & 0x0400_0000) == 0x0400_0000 {
        low_level::WRITE_PROT_VIOLATION
    } else if (resp1 & 0x0100_0000) == 0x0100_0000 {
        low_level::LOCK_UNLOCK_FAILED
    } else if (resp1 & 0x0080_0000) == 0x0080_0000 {
        low_level::COM_CRC_FAILED
    } else if (resp1 & 0x0040_0000) == 0x0040_0000 {
        low_level::ILLEGAL_CMD
    } else if (resp1 & 0x0020_0000) == 0x0020_0000 {
        low_level::CARD_ECC_FAILED
    } else if (resp1 & 0x0010_0000) == 0x0010_0000 {
        low_level::CC_ERR
    } else if (resp1 & 0x0004_0000) == 0x0004_0000 {
        low_level::STREAM_READ_UNDERRUN
    } else if (resp1 & 0x0002_0000) == 0x0002_0000 {
        low_level::STREAM_WRITE_OVERRUN
    } else if (resp1 & 0x0001_0000) == 0x0001_0000 {
        low_level::CID_CSD_OVERWRITE
    } else if (resp1 & 0x0000_8000) == 0x0000_8000 {
        low_level::WP_ERASE_SKIP
    } else if (resp1 & 0x0000_4000) == 0x0000_4000 {
        low_level::CARD_ECC_DISABLED
    } else if (resp1 & 0x0000_2000) == 0x0000_2000 {
        low_level::ERASE_RESET
    } else if (resp1 & 0x0000_0008) == 0x0000_0008 {
        low_level::AKE_SEQ_ERR
    } else {
        low_level::GENERAL_UNKNOWN_ERR
    }
}

/// Decodes a card-status word into the first raised error's code, testing
/// the bits in strictly descending priority.
pub fn check_ocr_error_bits(resp1: u32) -> (e: low_level::SdmmcErrorCode)
    ensures
        e == spec_check_ocr(resp1),
{
    if (resp1 & 0xFDFFE008) == 0 {
        low_level::NONE
    } else if (resp1 & 0x8000_0000) == 0x8000_0000 {
        low_level::ADDR_OUT_OF_RANGE
    } else if (resp1 & 0x4000_0000) == 0x4000_0000 {
        low_level::ADDR_MISALIGNED
    } else if (resp1 & 0x2000_0000) == 0x2000_0000 {
        low_level::BLOCK_LEN_ERR
    } else if (resp1 & 0x1000_0000) == 0x1000_0000 {
        low_level::ERASE_SEQ_ERR
    } else if (resp1 & 0x0800_0000) == 0x0800_0000 {
        low_level::BAD_ERASE_PARAM
    } else if (resp1 & 0x0400_0000) == 0x0400_0000 {
        low_level::WRITE_PROT_VIOLATION
    } else if (resp1 & 0x0100_0000) == 0x0100_0000 {
        low_level::LOCK_UNLOCK_FAILED
    } else if (resp1 & 0x0080_0000) == 0x0080_0000 {
        low_level::COM_CRC_FAILED
    } else if (resp1 & 0x0040_0000) == 0x0040_0000 {
        low_level::ILLEGAL_CMD
    } else if (resp1 & 0x0020_0000) == 0x0020_0000 {
        low_level::CARD_ECC_FAILED
    } else if (resp1 & 0x0010_0000) == 0x0010_0000 {
        low_level::CC_ERR
    } else if (resp1 & 0x0004_0000) == 0x0004_0000 {
        low_level::STREAM_READ_UNDERRUN
    } else if (resp1 & 0x0002_0000) == 0x0002_0000 {
        low_level::STREAM_WRITE_OVERRUN
    } else if (resp1 & 0x0001_0000) == 0x0001_0000 {
        low_level::CID_CSD_OVERWRITE
    } else if (resp1 & 0x0000_8000) == 0x0000_8000 {
        low_level::WP_ERASE_SKIP
    } else if (resp1 & 0x0000_4000) == 0x0000_4000 {
        low_level::CARD_ECC_DISABLED
    } else if (resp1 & 0x0000_2000) == 0x0000_2000 {
        low_level::ERASE_RESET
    } else if (resp1 & 0x0000_0008) == 0x0000_0008 {
        low_level::AKE_SEQ_ERR
    } else {
        low_level::GENERAL_UNKNOWN_ERR
    }
}

/// Outcome of waiting for a no-response command to be sent.
pub open spec fn spec_cmdsent_result(r: SdmmcRegisters) -> u32 {
    if r.cmdsent {
        low_level::NONE
    } else {
        low_level::TIMEOUT
    }
}

/// Outcome of an R1 (card status) response wait.
pub open spec fn spec_r1_result(r: SdmmcRegisters, cmd_index: u8) -> u32 {
    if r.ctimeout {
        low_level::CMD_RSP_TIMEOUT
    } else if r.ccrcfail {
        low_level::CMD_CRC_FAIL
    } else if r.cmdrend {
        if r.respcmd != cmd_index {
            low_level::CMD_CRC_FAIL
        } else {
            spec_check_ocr(r.resp1)
        }
    } else {
        low_level::TIMEOUT
    }
}

/// The registers after an R1 response wait.
pub open spec fn spec_r1_regs(r: SdmmcRegisters, cmd_index: u8) -> SdmmcRegisters {
    if r.ctimeout {
        SdmmcRegisters { ctimeout: false, ..r }
    } else if r.ccrcfail {
        SdmmcRegisters { ccrcfail: false, ..r }
    } else if r.cmdrend {
        if r.respcmd != cmd_index {
            r
        } else {
            r.spec_with_static_flags_cleared()
        }
    } else {
        r
    }
}

/// Outcome of an R2 (long response) wait.
pub open spec fn spec_r2_result(r: SdmmcRegisters) -> u32 {
    if r.ctimeout {
        low_level::CMD_RSP_TIMEOUT
    } else if r.ccrcfail {
        low_level::CMD_CRC_FAIL
    } else if r.cmdrend {
        low_level::NONE
    } else {
        low_level::TIMEOUT
    }
}

/// The registers after an R2 response wait.
pub open spec fn spec_r2_regs(r: SdmmcRegisters) -> SdmmcRegisters {
    if r.ctimeout {
        SdmmcRegisters { ctimeout: false, ..r }
    } else if r.ccrcfail {
        SdmmcRegisters { ccrcfail: false, ..r }
    } else if r.cmdrend {
        r.spec_with_static_flags_cleared()
    } else {
        r
    }
}

/// Outcome of an R3 (operation conditions) response wait. A CRC failure
/// counts as success: R3 responses carry no CRC.
pub open spec fn spec_r3_result(r: SdmmcRegisters) -> u32 {
    if r.ctimeout {
        low_level::CMD_RSP_TIMEOUT
    } else if r.ccrcfail || r.cmdrend {
        low_level::NONE
    } else {
        low_level::TIMEOUT
    }
}

/// The registers after an R3 response wait.
pub open spec fn spec_r3_regs(r: SdmmcRegisters) -> SdmmcRegisters {
    if r.ctimeout {
        SdmmcRegisters { ctimeout: false, ..r }
    } else if r.ccrcfail || r.cmdrend {
        r.spec_with_static_flags_cleared()
    } else {
        r
    }
}

/// Outcome of an R6 (published address) response wait: the response word
/// on success, the failure code otherwise.
pub open spec fn spec_r6_result(r: SdmmcRegisters) -> Result<u32, u32> {
    if r.ctimeout {
        Err(low_level::CMD_RSP_TIMEOUT)
    } else if r.ccrcfail {
        Err(low_level::CMD_CRC_FAIL)
    } else if r.cmdrend {
        Ok(r.resp1)
    } else {
        Err(low_level::TIMEOUT)
    }
}

/// The registers after an R6 response wait.
pub open spec fn spec_r6_regs(r: SdmmcRegisters) -> SdmmcRegisters {
    if r.ctimeout {
        SdmmcRegisters { ctimeout: false, ..r }
    } else if r.ccrcfail {
        SdmmcRegisters { ccrcfail: false, ..r }
    } else if r.cmdrend {
        r.spec_with_static_flags_cleared()
    } else {
        r
    }
}

/// Outcome of an R7 (interface condition) response wait. A command
/// timeout means the card does not support the command's version; a CRC
/// failure still counts as a response.
pub open spec fn spec_r7_result(r: SdmmcRegisters) -> u32 {
    if r.ctimeout {
        low_level::CMD_RSP_TIMEOUT
    } else if r.ccrcfail {
        low_level::NONE
    } else if r.cmdrend {
        low_level::NONE
    } else {
        low_level::TIMEOUT
    }
}

/// The registers after an R7 response wait.
pub open spec fn spec_r7_regs(r: SdmmcRegisters) -> SdmmcRegisters {
    if r.ctimeout {
        SdmmcRegisters { ctimeout: false, ..r }
    } else if r.ccrcfail {
        SdmmcRegisters { ccrcfail: false, ..r }
    } else if r.cmdrend {
        SdmmcRegisters { cmdrend: false, ..r }
    } else {
        r
    }
}

/// The SDMMC port: the peripheral's register block together with the
/// timebase its poll deadlines are measured against.
pub struct Sdmmc {
    pub regs: SdmmcRegisters,
    pub clock: SystemClock,
}

impl Sdmmc {
    /// A port whose registers are in their reset state and whose clock has
    /// just been started.
    pub fn new() -> (p: Sdmmc)
        ensures
            p.regs == SdmmcRegisters::spec_reset(),
            p.clock.now == 0,
    {
        Sdmmc { regs: SdmmcRegisters::reset(), clock: SystemClock::new() }
    }

    /// Clears all static status flags, as a write of all clear bits to the
    /// interrupt-clear register does.
    pub fn clear_static_flags(&mut self)
        ensures
            final(self).regs == old(self).regs.spec_with_static_flags_cleared(),
            final(self).clock == old(self).clock,
    {
        self.regs = SdmmcRegisters {
            dbckend: false,
            dataend: false,
            cmdsent: false,
            cmdrend: false,
            rxoverr: false,
            txunderr: false,
            dtimeout: false,
            ctimeout: false,
            dcrcfail: false,
            ccrcfail: false,
            ..self.regs
        };
    }

    /// Sets the card power control.
    pub fn set_power(&mut self, p: PowerSupply)
        ensures
            final(self).regs == old(self).regs.spec_with_power(p),
            final(self).clock == old(self).clock,
    {
        self.regs = SdmmcRegisters { pwrctrl: p, ..self.regs };
    }

    /// Writes the argument register, then the command register with the
    /// given index and expected response length, the command path state
    /// machine enabled, and all unrelated bits at their reset values.
    fn write_command(&mut self, arg: u32, waitresp: WaitResp, index: u8)
        ensures
            final(self).regs == old(self).regs.spec_cmd_written(arg, waitresp, index),
            final(self).clock == old(self).clock,
    {
        self.regs = SdmmcRegisters {
            arg: arg,
            sdiosuspend: false,
            waitpend: false,
            waitint: false,
            waitresp: waitresp,
            cpsmen: true,
            cmdindex: index,
            ..self.regs
        };
    }

    /// Waits for the command-sent flag of a no-response command, up to the
    /// command deadline. The flag is left for the next clear.
    #[verifier::rlimit(50)]
    fn get_cmd_error(&mut self) -> (e: low_level::SdmmcErrorCode)
        ensures
            e == spec_cmdsent_result(old(self).regs),
            final(self).regs == old(self).regs,
            final(self).clock.now >= old(self).clock.now,
            final(self).clock.now >= old(self).clock.now,
    {
        let deadline = self.clock.deadline_after(CMD_TIMEOUT_TICKS);
        #[verifier::loop_isolation(false)]
        loop
            invariant
                self.regs == old(self).regs,
                self.clock.now >= old(self).clock.now,
            decreases deadline - self.clock.now,
        {
            if self.regs.cmdsent {
                return low_level::NONE;
            }
            if self.clock.ticks() >= deadline {
                return low_level::TIMEOUT;
            }
            self.clock.tick();
        }
    }

    /// Waits for an R1 (card status) response up to the caller's deadline:
    /// command timeout, CRC failure, or a received response whose echoed
    /// command index must match the one just sent, in that priority. A
    /// matching response's status word goes through the error-bit decode.
    #[verifier::rlimit(50)]
    fn get_response1(&mut self, cmd_index: u8, deadline: u64) -> (e: low_level::SdmmcErrorCode)
        ensures
            e == spec_r1_result(old(self).regs, cmd_index),
            final(self).regs == spec_r1_regs(old(self).regs, cmd_index),
            final(self).clock.now >= old(self).clock.now,
    {
        #[verifier::loop_isolation(false)]
        loop
            invariant
                self.regs == old(self).regs,
                self.clock.now >= old(self).clock.now,
            decreases deadline - self.clock.now,
        {
            if self.regs.ctimeout {
                self.regs.ctimeout = false;
                return low_level::CMD_RSP_TIMEOUT;
            }
            if self.regs.ccrcfail {
                self.regs.ccrcfail = false;
                return low_level::CMD_CRC_FAIL;
            }
            if self.regs.cmdrend {
                // check whether the received response matches the command
                if self.regs.respcmd != cmd_index {
                    return low_level::CMD_CRC_FAIL;
                }
                self.clear_static_flags();
                let response = self.regs.resp1;
                return check_ocr_error_bits(response);
            }
            if self.clock.ticks() >= deadline {
                return low_level::TIMEOUT;
            }
            self.clock.tick();
        }
    }

    /// Waits for an R2 (long) response up to the command deadline.
    #[verifier::rlimit(50)]
    fn get_response2(&mut self) -> (e: low_level::SdmmcErrorCode)
        ensures
            e == spec_r2_result(old(self).regs),
            final(self).regs == spec_r2_regs(old(self).regs),
            final(self).clock.now >= old(self).clock.now,
            final(self).clock.now >= old(self).clock.now,
    {
        let deadline = self.clock.deadline_after(CMD_TIMEOUT_TICKS);
        #[verifier::loop_isolation(false)]
        loop
            invariant
                self.regs == old(self).regs,
                self.clock.now >= old(self).clock.now,
            decreases deadline - self.clock.now,
        {
            if self.regs.ctimeout {
                self.regs.ctimeout = false;
                return low_level::CMD_RSP_TIMEOUT;
            }
            if self.regs.ccrcfail {
                self.regs.ccrcfail = false;
                return low_level::CMD_CRC_FAIL;
            }
            if self.regs.cmdrend {
                self.clear_static_flags();
                return low_level::NONE;
            }
            if self.clock.ticks() >= deadline {
                return low_level::TIMEOUT;
            }
            self.clock.tick();
        }
    }

    /// Waits for an R3 (operation conditions) response up to the command
    /// deadline. A CRC failure counts as a response: R3 carries no CRC.
    #[verifier::rlimit(50)]
    fn get_response3(&mut self) -> (e: low_level::SdmmcErrorCode)
        ensures
            e == spec_r3_result(old(self).regs),
            final(self).regs == spec_r3_regs(old(self).regs),
            final(self).clock.now >= old(self).clock.now,
            final(self).clock.now >= old(self).clock.now,
    {
        let deadline = self.clock.deadline_after(CMD_TIMEOUT_TICKS);
        #[verifier::loop_isolation(false)]
        loop
            invariant
                self.regs == old(self).regs,
                self.clock.now >= old(self).clock.now,
            decreases deadline - self.clock.now,
        {
            if self.regs.ctimeout {
                self.regs.ctimeout = false;
                return low_level::CMD_RSP_TIMEOUT;
            }
            if self.regs.ccrcfail || self.regs.cmdrend {
                self.clear_static_flags();
                return low_level::NONE;
            }
            if self.clock.ticks() >= deadline {
                return low_level::TIMEOUT;
            }
            self.clock.tick();
        }
    }

    /// Waits for an R6 (published address) response up to the command
    /// deadline and hands back the response word on success.
    #[verifier::rlimit(50)]
    fn get_response6(&mut self) -> (r: Result<u32, low_level::SdmmcErrorCode>)
        ensures
            r == spec_r6_result(old(self).regs),
            final(self).regs == spec_r6_regs(old(self).regs),
            final(self).clock.now >= old(self).clock.now,
            final(self).clock.now >= old(self).clock.now,
    {
        let deadline = self.clock.deadline_after(CMD_TIMEOUT_TICKS);
        #[verifier::loop_isolation(false)]
        loop
            invariant
                self.regs == old(self).regs,
                self.clock.now >= old(self).clock.now,
            decreases deadline - self.clock.now,
        {
            if self.regs.ctimeout {
                self.regs.ctimeout = false;
                return Err(low_level::CMD_RSP_TIMEOUT);
            }
            if self.regs.ccrcfail {
                self.regs.ccrcfail = false;
                return Err(low_level::CMD_CRC_FAIL);
            }
            if self.regs.cmdrend {
                self.clear_static_flags();
                let response = self.regs.resp1;
                return Ok(response);
            }
            if self.clock.ticks() >= deadline {
                return Err(low_level::TIMEOUT);
            }
            self.clock.tick();
        }
    }

    /// Waits for an R7 (interface condition) response up to the command
    /// deadline. A timeout of the command itself means the queried version
    /// is not supported; a CRC failure still counts as a response.
    #[verifier::rlimit(50)]
    fn get_response7(&mut self) -> (e: low_level::SdmmcErrorCode)
        ensures
            e == spec_r7_result(old(self).regs),
            final(self).regs == spec_r7_regs(old(self).regs),
            final(self).clock.now >= old(self).clock.now,
            final(self).clock.now >= old(self).clock.now,
    {
        let deadline = self.clock.deadline_after(CMD_TIMEOUT_TICKS);
        #[verifier::loop_isolation(false)]
        loop
            invariant
                self.regs == old(self).regs,
                self.clock.now >= old(self).clock.now,
            decreases deadline - self.clock.now,
        {
            if self.regs.ctimeout {
                self.regs.ctimeout = false;
                return low_level::CMD_RSP_TIMEOUT;
            }
            if self.regs.ccrcfail {
                self.regs.ccrcfail = false;
                return low_level::NONE;
            }
            if self.regs.cmdrend {
                self.regs.cmdrend = false;
                return low_level::NONE;
            }
            if self.clock.ticks() >= deadline {
                return low_level::TIMEOUT;
            }
            self.clock.tick();
        }
    }

    /// Sends CMD0, which resets all cards into the idle state. Only stuff
    /// bits in the argument; no response is expected.
    pub fn cmd_go_idle_state(&mut self) -> (e: low_level::SdmmcErrorCode)
        ensures
            e == spec_cmdsent_result(old(self).regs),
            final(self).regs == old(self).regs.spec_cmd_written(0, WaitResp::No, 0),
            final(self).clock.now >= old(self).clock.now,
    {
        self.write_command(0, WaitResp::No, 0);
        self.get_cmd_error()
    }

    /// Sends CMD8, which queries the card's operating parameters: supply
    /// voltage 2.7-3.6 V and the recommended check pattern. Only cards
    /// supporting version 2 answer it.
    pub fn cmd_send_if_cond(&mut self) -> (e: low_level::SdmmcErrorCode)
        ensures
            e == spec_r7_result(old(self).regs.spec_cmd_written(0x1AA, WaitResp::Short, 8)),
            final(self).regs == spec_r7_regs(
                old(self).regs.spec_cmd_written(0x1AA, WaitResp::Short, 8),
            ),
            final(self).clock.now >= old(self).clock.now,
    {
        self.write_command(0x1AA, WaitResp::Short, 8);
        self.get_response7()
    }

    /// Sends CMD55 with the card's relative address, announcing that the
    /// next command is an application command.
    pub fn cmd_app_cmd(&mut self, rca: u32) -> (e: low_level::SdmmcErrorCode)
        ensures
            e == spec_r1_result(
                old(self).regs.spec_cmd_written(rca << 16u32, WaitResp::Short, 55),
                55,
            ),
            final(self).regs == spec_r1_regs(
                old(self).regs.spec_cmd_written(rca << 16u32, WaitResp::Short, 55),
                55,
            ),
            final(self).clock.now >= old(self).clock.now,
    {
        let deadline = self.clock.deadline_after(CMD_TIMEOUT_TICKS);
        self.write_command(rca << 16u32, WaitResp::Short, 55);
        self.get_response1(55, deadline)
    }

    /// Sends ACMD41 with the voltage window and the requested capacity
    /// support, and waits for the operation-conditions response.
    pub fn cmd_sd_send_op_cond(&mut self, capacity: CardCapacity) -> (e: low_level::SdmmcErrorCode)
        ensures
            e == spec_r3_result(
                old(self).regs.spec_cmd_written(
                    0x8010_0000 | capacity.spec_arg_bits(),
                    WaitResp::Short,
                    41,
                ),
            ),
            final(self).regs == spec_r3_regs(
                old(self).regs.spec_cmd_written(
                    0x8010_0000 | capacity.spec_arg_bits(),
                    WaitResp::Short,
                    41,
                ),
            ),
            final(self).clock.now >= old(self).clock.now,
    {
        let arg = 0x8010_0000 | capacity.arg_bits();
        self.write_command(arg, WaitResp::Short, 41);
        self.get_response3()
    }

    /// Sends CMD2, prompting all cards to send their identification
    /// register in a long response.
    pub fn cmd_all_send_cid(&mut self) -> (e: low_level::SdmmcErrorCode)
        ensures
            e == spec_r2_result(old(self).regs.spec_cmd_written(0, WaitResp::Long, 2)),
            final(self).regs == spec_r2_regs(old(self).regs.spec_cmd_written(0, WaitResp::Long, 2)),
            final(self).clock.now >= old(self).clock.now,
    {
        self.write_command(0, WaitResp::Long, 2);
        self.get_response2()
    }

    /// Sends CMD3, asking the card to publish a new relative address, and
    /// hands back the response word; its top 16 bits are the address.
    pub fn cmd_send_relative_addr(&mut self) -> (r: Result<u32, low_level::SdmmcErrorCode>)
        ensures
            r == spec_r6_result(old(self).regs.spec_cmd_written(0, WaitResp::Short, 3)),
            final(self).regs == spec_r6_regs(old(self).regs.spec_cmd_written(0, WaitResp::Short, 3)),
            final(self).clock.now >= old(self).clock.now,
    {
        self.write_command(0, WaitResp::Short, 3);
        self.get_response6()
    }

    /// Sends CMD9 with the card's relative address (the argument's top 16
    /// bits), prompting the card-specific data register in a long
    /// response.
    pub fn cmd_send_csd(&mut self, rca: u32) -> (e: low_level::SdmmcErrorCode)
        ensures
            e == spec_r2_result(
                old(self).regs.spec_cmd_written(rca & 0xFFFF_0000, WaitResp::Long, 9),
            ),
            final(self).regs == spec_r2_regs(
                old(self).regs.spec_cmd_written(rca & 0xFFFF_0000, WaitResp::Long, 9),
            ),
            final(self).clock.now >= old(self).clock.now,
    {
        self.write_command(rca & 0xFFFF_0000, WaitResp::Long, 9);
        self.get_response2()
    }

    /// Sends CMD7 with the card's relative address (the argument's top 16
    /// bits), selecting the card; the answer is an R1 status response.
    pub fn cmd_select_deselect_card(&mut self, rca: u32) -> (e: low_level::SdmmcErrorCode)
        ensures
            e == spec_r1_result(
                old(self).regs.spec_cmd_written(rca & 0xFFFF_0000, WaitResp::Short, 7),
                7,
            ),
            final(self).regs == spec_r1_regs(
                old(self).regs.spec_cmd_written(rca & 0xFFFF_0000, WaitResp::Short, 7),
                7,
            ),
            final(self).clock.now >= old(self).clock.now,
    {
        let deadline = self.clock.deadline_after(CMD_TIMEOUT_TICKS);
        self.write_command(rca & 0xFFFF_0000, WaitResp::Short, 7);
        self.get_response1(7, deadline)
    }

    /// Reads the four response registers of a long response.
    pub fn get_all_response_registers(&self) -> (w: ResponseWords)
        ensures
            w == (ResponseWords {
                w0: self.regs.resp1,
                w1: self.regs.resp2,
                w2: self.regs.resp3,
                w3: self.regs.resp4,
            }),
    {
        ResponseWords {
            w0: self.regs.resp1,
            w1: self.regs.resp2,
            w2: self.regs.resp3,
            w3: self.regs.resp4,
        }
    }
}

impl SdHandle {
    /// Sends CMD0 on the handle's port; see `Sdmmc::cmd_go_idle_state`.
    pub fn cmd_go_idle_state(&mut self) -> (e: low_level::SdmmcErrorCode)
        ensures
            e == spec_cmdsent_result(old(self).registers.regs),
            final(self).registers.regs == old(self).registers.regs.spec_cmd_written(
                0,
                WaitResp::No,
                0,
            ),
            final(self).spec_same_but_port(*old(self)),
    {
        self.registers.cmd_go_idle_state()
    }

    /// Sends CMD8 on the handle's port; see `Sdmmc::cmd_send_if_cond`.
    pub fn cmd_send_if_cond(&mut self) -> (e: low_level::SdmmcErrorCode)
        ensures
            e == spec_r7_result(old(self).registers.regs.spec_cmd_written(0x1AA, WaitResp::Short, 8)),
            final(self).registers.regs == spec_r7_regs(
                old(self).registers.regs.spec_cmd_written(0x1AA, WaitResp::Short, 8),
            ),
            final(self).spec_same_but_port(*old(self)),
    {
        self.registers.cmd_send_if_cond()
    }

    /// Sends CMD55 on the handle's port; see `Sdmmc::cmd_app_cmd`.
    pub fn cmd_app_cmd(&mut self, rca: u32) -> (e: low_level::SdmmcErrorCode)
        ensures
            e == spec_r1_result(
                old(self).registers.regs.spec_cmd_written(rca << 16u32, WaitResp::Short, 55),
                55,
            ),
            final(self).registers.regs == spec_r1_regs(
                old(self).registers.regs.spec_cmd_written(rca << 16u32, WaitResp::Short, 55),
                55,
            ),
            final(self).spec_same_but_port(*old(self)),
    {
        self.registers.cmd_app_cmd(rca)
    }

    /// Sends ACMD41 on the handle's port; see `Sdmmc::cmd_sd_send_op_cond`.
    pub fn cmd_sd_send_op_cond(&mut self, capacity: CardCapacity) -> (e: low_level::SdmmcErrorCode)
        ensures
            e == spec_r3_result(
                old(self).registers.regs.spec_cmd_written(
                    0x8010_0000 | capacity.spec_arg_bits(),
                    WaitResp::Short,
                    41,
                ),
            ),
            final(self).registers.regs == spec_r3_regs(
                old(self).registers.regs.spec_cmd_written(
                    0x8010_0000 | capacity.spec_arg_bits(),
                    WaitResp::Short,
                    41,
                ),
            ),
            final(self).spec_same_but_port(*old(self)),
    {
        self.registers.cmd_sd_send_op_cond(capacity)
    }
}

} // verus!
