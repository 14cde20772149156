//! Verified core of a bare-metal DMA engine driver and an SD/SDMMC card
//! initialization stack.
//!
//! The hardware register blocks are modeled as plain records with named,
//! typed fields (`dma_regs`, `sd_regs`); the drivers are verified against
//! that model. `dma_engine` gives the DMA hardware's observable behaviour
//! (flag updates and memory movement) over an explicit memory model, so
//! that transfers can be exercised end to end without a device.

pub mod clock;
pub mod dma;
pub mod dma_engine;
pub mod dma_regs;
pub mod low_level;
pub mod sd;
pub mod sd_command;
pub mod sd_init;
pub mod sd_regs;
