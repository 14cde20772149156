//! SDMMC error codes.
//!
//! The code is a bit-flag accumulator, not an enum: distinct failures are
//! combined with bitwise OR across an operation and only reset by the
//! next initialization or an explicit clear.

use vstd::prelude::*;

verus! {

/// Accumulated SDMMC error flags.
pub type SdmmcErrorCode = u32;

/// No error.
pub const NONE: SdmmcErrorCode = 0x00;

/// Command response received, CRC check failed.
pub const CMD_CRC_FAIL: SdmmcErrorCode = 0x01;

/// Data block sent/received, CRC check failed.
pub const DATA_CRC_FAIL: SdmmcErrorCode = 0x02;

/// Command response timeout.
pub const CMD_RSP_TIMEOUT: SdmmcErrorCode = 0x04;

/// Data timeout.
pub const DATA_TIMEOUT: SdmmcErrorCode = 0x08;

/// Transmit FIFO underrun.
pub const TX_UNDERRUN: SdmmcErrorCode = 0x10;

/// Receive FIFO overrun.
pub const RX_OVERRUN: SdmmcErrorCode = 0x20;

/// Misaligned address.
pub const ADDR_MISALIGNED: SdmmcErrorCode = 0x40;

/// Transferred block length not allowed for the card, or the number of
/// transferred bytes does not match the block length.
pub const BLOCK_LEN_ERR: SdmmcErrorCode = 0x80;

/// Error in the sequence of erase commands.
pub const ERASE_SEQ_ERR: SdmmcErrorCode = 0x100;

/// Invalid selection for erase groups.
pub const BAD_ERASE_PARAM: SdmmcErrorCode = 0x200;

/// Attempt to program a write-protected block.
pub const WRITE_PROT_VIOLATION: SdmmcErrorCode = 0x400;

/// Sequence or password error in a lock/unlock command.
pub const LOCK_UNLOCK_FAILED: SdmmcErrorCode = 0x800;

/// CRC check of a previous command failed.
pub const COM_CRC_FAILED: SdmmcErrorCode = 0x001000;

/// Command not legal for the card's state.
pub const ILLEGAL_CMD: SdmmcErrorCode = 0x002000;

/// Card internal ECC failed to correct the data.
pub const CARD_ECC_FAILED: SdmmcErrorCode = 0x004000;

/// Internal card controller error.
pub const CC_ERR: SdmmcErrorCode = 0x008000;

/// A general or unknown error occurred.
pub const GENERAL_UNKNOWN_ERR: SdmmcErrorCode = 0x010000;

/// Stream read underrun.
pub const STREAM_READ_UNDERRUN: SdmmcErrorCode = 0x020000;

/// Stream write overrun.
pub const STREAM_WRITE_OVERRUN: SdmmcErrorCode = 0x040000;

/// CID/CSD overwrite error.
pub const CID_CSD_OVERWRITE: SdmmcErrorCode = 0x080000;

/// A write-protected erase was partially skipped.
pub const WP_ERASE_SKIP: SdmmcErrorCode = 0x100000;

/// The command was executed without the internal ECC.
pub const CARD_ECC_DISABLED: SdmmcErrorCode = 0x200000;

/// An erase sequence was cleared before executing.
pub const ERASE_RESET: SdmmcErrorCode = 0x400000;

/// Error in the sequence of the authentication process.
pub const AKE_SEQ_ERR: SdmmcErrorCode = 0x00800000;

/// Voltage range not supported by the card.
pub const INVALID_VOLTRANGE: SdmmcErrorCode = 0x01000000;

/// Command argument was out of the allowed range for the card.
pub const ADDR_OUT_OF_RANGE: SdmmcErrorCode = 0x02000000;

/// The request is not applicable in the current state.
pub const REQUEST_NOT_APPLICABLE: SdmmcErrorCode = 0x04000000;

/// An invalid parameter was passed.
pub const INVALID_PARAM: SdmmcErrorCode = 0x08000000;

/// The feature is not supported.
pub const UNSUPPORTED_FEATURE: SdmmcErrorCode = 0x10000000;

/// The card or controller is busy.
pub const BUSY: SdmmcErrorCode = 0x20000000;

/// No DMA error.
pub const DMA_NONE: SdmmcErrorCode = 0x40000000;

/// DMA transfer error.
pub const DMA_TRANSFER: SdmmcErrorCode = 0x40000001;

/// DMA FIFO error.
pub const DMA_FIFO: SdmmcErrorCode = 0x40000002;

/// DMA direct-mode error.
pub const DMA_DIRECT_MODE: SdmmcErrorCode = 0x40000004;

/// DMA timeout.
pub const DMA_TIMEOUT: SdmmcErrorCode = 0x40000020;

/// DMA parameter error.
pub const DMA_PARAMETER: SdmmcErrorCode = 0x40000040;

/// Abort requested with no transfer ongoing.
pub const DMA_NO_TRANSFER: SdmmcErrorCode = 0x40000080;

/// The DMA operation is not supported.
pub const DMA_NOT_SUPPORTED: SdmmcErrorCode = 0x40000100;

/// Software timeout while waiting for a status flag.
pub const TIMEOUT: SdmmcErrorCode = 0x80000000;

} // verus!
