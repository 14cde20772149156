//! Model of the SDMMC peripheral's memory-mapped registers.
//!
//! Each register field is a named, typed record field. Status flags are
//! set by the card/controller (in tests, by the scenario) and cleared by
//! the driver as writes to the interrupt-clear register would.

use vstd::prelude::*;

use crate::sd::{BusMode, PowerSupply, WaitResp};

verus! {

/// The SDMMC register block.
#[derive(Clone, Copy, Debug, PartialEq, Eq, Structural)]
pub struct SdmmcRegisters {
    /// Power control: whether the card is powered.
    pub pwrctrl: PowerSupply,
    /// Clock control: dephasing of the command/data output.
    pub negedge: bool,
    /// Clock control: bypass of the clock divider.
    pub bypass: bool,
    /// Clock control: power saving (clock only when the bus is active).
    pub pwrsav: bool,
    /// Clock control: bus width.
    pub widbus: BusMode,
    /// Clock control: hardware flow control.
    pub hwfc_en: bool,
    /// Clock control: clock divide factor.
    pub clkdiv: u8,
    /// Clock control: SDMMC clock enable.
    pub clken: bool,
    /// Command argument register.
    pub arg: u32,
    /// Command register: SDIO suspend command.
    pub sdiosuspend: bool,
    /// Command register: wait for data transfer end before sending.
    pub waitpend: bool,
    /// Command register: wait for interrupt request.
    pub waitint: bool,
    /// Command register: expected response length.
    pub waitresp: WaitResp,
    /// Command register: command path state machine enable.
    pub cpsmen: bool,
    /// Command register: command index.
    pub cmdindex: u8,
    /// Status: command sent (no response required).
    pub cmdsent: bool,
    /// Status: command response received, CRC check failed.
    pub ccrcfail: bool,
    /// Status: command response received, CRC check passed.
    pub cmdrend: bool,
    /// Status: command response timeout.
    pub ctimeout: bool,
    /// Status: data block sent/received, CRC check passed.
    pub dbckend: bool,
    /// Status: data end.
    pub dataend: bool,
    /// Status: received FIFO overrun.
    pub rxoverr: bool,
    /// Status: transmit FIFO underrun.
    pub txunderr: bool,
    /// Status: data timeout.
    pub dtimeout: bool,
    /// Status: data block sent/received, CRC check failed.
    pub dcrcfail: bool,
    /// Index of the command whose response was last received.
    pub respcmd: u8,
    /// Response register 1 (short responses; first word of long ones).
    pub resp1: u32,
    /// Response register 2.
    pub resp2: u32,
    /// Response register 3.
    pub resp3: u32,
    /// Response register 4.
    pub resp4: u32,
}

impl SdmmcRegisters {
    /// The register contents after a peripheral reset.
    pub open spec fn spec_reset() -> SdmmcRegisters {
        SdmmcRegisters {
            pwrctrl: PowerSupply::Off,
            negedge: false,
            bypass: false,
            pwrsav: false,
            widbus: BusMode::Default,
            hwfc_en: false,
            clkdiv: 0,
            clken: false,
            arg: 0,
            sdiosuspend: false,
            waitpend: false,
            waitint: false,
            waitresp: WaitResp::No,
            cpsmen: false,
            cmdindex: 0,
            cmdsent: false,
            ccrcfail: false,
            cmdrend: false,
            ctimeout: false,
            dbckend: false,
            dataend: false,
            rxoverr: false,
            txunderr: false,
            dtimeout: false,
            dcrcfail: false,
            respcmd: 0,
            resp1: 0,
            resp2: 0,
            resp3: 0,
            resp4: 0,
        }
    }

    /// Builds the register block in its reset state.
    pub fn reset() -> (r: SdmmcRegisters)
        ensures
            r == SdmmcRegisters::spec_reset(),
    {
        SdmmcRegisters {
            pwrctrl: PowerSupply::Off,
            negedge: false,
            bypass: false,
            pwrsav: false,
            widbus: BusMode::Default,
            hwfc_en: false,
            clkdiv: 0,
            clken: false,
            arg: 0,
            sdiosuspend: false,
            waitpend: false,
            waitint: false,
            waitresp: WaitResp::No,
            cpsmen: false,
            cmdindex: 0,
            cmdsent: false,
            ccrcfail: false,
            cmdrend: false,
            ctimeout: false,
            dbckend: false,
            dataend: false,
            rxoverr: false,
            txunderr: false,
            dtimeout: false,
            dcrcfail: false,
            respcmd: 0,
            resp1: 0,
            resp2: 0,
            resp3: 0,
            resp4: 0,
        }
    }

    /// The registers after the static status flags are cleared, as a write
    /// of all clear bits to the interrupt-clear register leaves them.
    pub open spec fn spec_with_static_flags_cleared(self) -> SdmmcRegisters {
        SdmmcRegisters {
            dbckend: false,
            dataend: false,
            cmdsent: false,
            cmdrend: false,
            rxoverr: false,
            txunderr: false,
            dtimeout: false,
            ctimeout: false,
            dcrcfail: false,
            ccrcfail: false,
            ..self
        }
    }

    /// The registers after a command is issued: the argument register
    /// written, then the command register with the command's index and
    /// expected response length, the command path state machine enabled,
    /// and every unrelated command-register bit at its reset value.
    pub open spec fn spec_cmd_written(self, arg: u32, waitresp: WaitResp, index: u8) -> SdmmcRegisters {
        SdmmcRegisters {
            arg: arg,
            sdiosuspend: false,
            waitpend: false,
            waitint: false,
            waitresp: waitresp,
            cpsmen: true,
            cmdindex: index,
            ..self
        }
    }

    /// The registers with the power control set.
    pub open spec fn spec_with_power(self, p: PowerSupply) -> SdmmcRegisters {
        SdmmcRegisters { pwrctrl: p, ..self }
    }

    /// The registers after the default clock configuration is applied:
    /// negative edge off, bypass off, power save off, 1-bit bus, no
    /// hardware flow control, and the fixed clock divider.
    pub open spec fn spec_with_default_clock_config(self) -> SdmmcRegisters {
        SdmmcRegisters {
            negedge: false,
            bypass: false,
            pwrsav: false,
            widbus: BusMode::Default,
            hwfc_en: false,
            clkdiv: 0x76,
            ..self
        }
    }
}

} // verus!
