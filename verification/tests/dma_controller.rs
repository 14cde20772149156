use sdmmc_dma::dma::{
    BurstMode, Channel, CircularMode, Direction, DirectMode, DmaManager, DmaTransfer,
    DmaTransferNode, DoubleBufferingMode, Error, FifoThreshold, FlowContoller, IncrementMode,
    InterruptControl, PeripheralIncrementOffsetSize, PriorityLevel, Stream, Width,
};
use sdmmc_dma::dma_engine::MemoryModel;
use sdmmc_dma::dma::stream_index;
use sdmmc_dma::dma_regs::DmaRegisterBlock;
use sdmmc_dma::dma::InterruptState;
use sdmmc_dma::dma::StreamControl;

const BASE: u32 = 0xC000_0000;

fn mem_to_mem(src: u32, dst: u32, count: u16, stream: Stream) -> DmaTransfer {
    DmaTransfer {
        stream,
        channel: Channel::C3,
        priority: PriorityLevel::High,
        direction: Direction::MemoryToMemory,
        circular_mode: CircularMode::Disable,
        double_buffering_mode: DoubleBufferingMode::Disable,
        flow_controller: FlowContoller::DMA,
        peripheral_increment_offset_size: PeripheralIncrementOffsetSize::UsePSize,
        peripheral: DmaTransferNode {
            increment_mode: IncrementMode::Increment,
            burst_mode: BurstMode::SingleTransfer,
            address: src,
            transaction_width: Width::Word,
        },
        memory: DmaTransferNode {
            increment_mode: IncrementMode::Increment,
            burst_mode: BurstMode::SingleTransfer,
            address: dst,
            transaction_width: Width::Word,
        },
        transaction_count: count,
        direct_mode: DirectMode::Disable,
        fifo_threshold: FifoThreshold::Full,
        interrupt_transfer_complete: InterruptControl::Disable,
        interrupt_half_transfer: InterruptControl::Disable,
        interrupt_transfer_error: InterruptControl::Disable,
        interrupt_direct_mode_error: InterruptControl::Disable,
        interrupt_fifo: InterruptControl::Disable,
    }
}

#[test]
fn fresh_stream_reports_ready() {
    let mgr = DmaManager::init_dma2();
    let d = mem_to_mem(BASE, BASE + 0x20, 4, Stream::S0);
    assert!(d.is_ready(&mgr.controller));
    assert!(!d.is_running(&mgr.controller));
    assert!(!d.is_finished(&mgr.controller));
    assert!(!d.is_error(&mgr.controller));
}

#[test]
fn prepared_and_started_stream_reports_running() {
    let mut mgr = DmaManager::init_dma2();
    let d = mem_to_mem(BASE, BASE + 0x20, 4, Stream::S0);
    assert_eq!(d.prepare(&mut mgr.controller), Ok(()));
    d.start(&mut mgr.controller);
    assert!(d.is_running(&mgr.controller));
    assert!(!d.is_ready(&mgr.controller));
    assert!(d.is_active(&mgr.controller));
}

#[test]
fn forcing_transfer_complete_flag_finishes_the_stream() {
    let mut mgr = DmaManager::init_dma2();
    let d = mem_to_mem(BASE, BASE + 0x20, 4, Stream::S0);
    assert_eq!(d.prepare(&mut mgr.controller), Ok(()));
    d.start(&mut mgr.controller);
    let mut r = mgr.controller.stream_regs(Stream::S0);
    r.tcif = InterruptState::Raised;
    mgr.controller.set_stream_regs(Stream::S0, r);
    assert!(d.is_finished(&mgr.controller));
    assert!(!d.is_active(&mgr.controller));
    assert!(!d.is_error(&mgr.controller));
}

#[test]
fn end_to_end_word_transfer_copies_the_buffer() {
    let mut mgr = DmaManager::init_dma2();
    let mut mem = MemoryModel::new(BASE, 64);
    let src = BASE;
    let dst = BASE + 0x20;
    let values: [i32; 4] = [5, 100, 65535, -7];
    for (i, v) in values.iter().enumerate() {
        mem.write_word(src + 4 * (i as u32), *v as u32);
        mem.write_word(dst + 4 * (i as u32), 0);
    }

    let d = mem_to_mem(src, dst, 4, Stream::S0);
    assert_eq!(d.is_valid(), None);
    assert_eq!(d.prepare(&mut mgr.controller), Ok(()));
    d.run_and_wait(&mut mgr.controller, &mut mem);

    for (i, v) in values.iter().enumerate() {
        assert_eq!(mem.read_word(dst + 4 * (i as u32)) as i32, *v);
        // the source is untouched
        assert_eq!(mem.read_word(src + 4 * (i as u32)) as i32, *v);
    }
    assert!(!d.is_error(&mgr.controller));
    assert!(d.is_finished(&mgr.controller));
    assert!(!d.is_active(&mgr.controller));
}

#[test]
fn transfer_outside_the_window_flags_a_transfer_error() {
    let mut mgr = DmaManager::init_dma2();
    let mut mem = MemoryModel::new(BASE, 16);
    // the destination range runs past the modeled window
    let d = mem_to_mem(BASE, BASE + 8, 4, Stream::S1);
    assert_eq!(d.prepare(&mut mgr.controller), Ok(()));
    d.run_and_wait(&mut mgr.controller, &mut mem);
    assert!(d.is_transfer_error(&mgr.controller));
    assert!(d.is_error(&mgr.controller));
    assert!(!d.is_finished(&mgr.controller));
}

#[test]
fn prepare_refuses_a_busy_stream() {
    let mut mgr = DmaManager::init_dma2();
    let d = mem_to_mem(BASE, BASE + 0x20, 4, Stream::S2);
    assert_eq!(d.prepare(&mut mgr.controller), Ok(()));
    d.start(&mut mgr.controller);
    // the stream is enabled now, so a second configuration is refused
    assert_eq!(d.prepare(&mut mgr.controller), Err(Error::StreamNotReady));
}

#[test]
fn prepare_reports_the_validation_error_without_touching_registers() {
    let mut mgr = DmaManager::init_dma2();
    let mut d = mem_to_mem(BASE, BASE + 0x20, 4, Stream::S2);
    d.circular_mode = CircularMode::Enable;
    let before = mgr.controller;
    assert_eq!(
        d.prepare(&mut mgr.controller),
        Err(Error::CannotUseMemoryToMemoryTransferWithCircularMode)
    );
    assert_eq!(mgr.controller, before);
}

#[test]
fn prepare_writes_the_configuration() {
    let mut mgr = DmaManager::init_dma2();
    let d = mem_to_mem(BASE, BASE + 0x20, 4, Stream::S5);
    assert_eq!(d.prepare(&mut mgr.controller), Ok(()));
    let r = mgr.controller.stream_regs(Stream::S5);
    assert_eq!(r.channel, Channel::C3);
    assert_eq!(r.pl, PriorityLevel::High);
    assert_eq!(r.dir, Direction::MemoryToMemory);
    assert_eq!(r.par, BASE);
    assert_eq!(r.m0ar, BASE + 0x20);
    assert_eq!(r.ndtr, 4);
    assert_eq!(r.msize, Width::Word);
    assert_eq!(r.psize, Width::Word);
    assert_eq!(r.minc, IncrementMode::Increment);
    assert_eq!(r.fth, FifoThreshold::Full);
    assert_eq!(r.dmdis, DirectMode::Disable);
    // the enable bit is not touched by prepare
    assert_eq!(r.en, StreamControl::Disable);
}

#[test]
fn stop_clears_the_enable_bit_and_is_idempotent() {
    let mut mgr = DmaManager::init_dma2();
    let d = mem_to_mem(BASE, BASE + 0x20, 4, Stream::S4);
    assert_eq!(d.prepare(&mut mgr.controller), Ok(()));
    d.start(&mut mgr.controller);
    assert!(d.is_running(&mgr.controller));
    d.stop(&mut mgr.controller);
    assert!(d.is_ready(&mgr.controller));
    d.stop(&mut mgr.controller);
    assert!(d.is_ready(&mgr.controller));
}

#[test]
fn overlapping_transfer_reads_the_old_source_bytes() {
    let mut mgr = DmaManager::init_dma2();
    let mut mem = MemoryModel::new(BASE, 64);
    for i in 0..8u32 {
        mem.write_word(BASE + 4 * i, i + 1);
    }
    // destination overlaps the source shifted by one word
    let d = mem_to_mem(BASE, BASE + 4, 4, Stream::S0);
    assert_eq!(d.prepare(&mut mgr.controller), Ok(()));
    d.run_and_wait(&mut mgr.controller, &mut mem);
    // the staged copy sees the old source, not its own writes
    assert_eq!(mem.read_word(BASE + 4), 1);
    assert_eq!(mem.read_word(BASE + 8), 2);
    assert_eq!(mem.read_word(BASE + 12), 3);
    assert_eq!(mem.read_word(BASE + 16), 4);
}

#[test]
fn claim_and_prepare_refuses_a_bound_stream() {
    let mut mgr = DmaManager::init_dma1();
    let d = mem_to_mem(BASE, BASE + 0x20, 4, Stream::S2);
    assert_eq!(mgr.claim_and_prepare(&d), Ok(()));
    // the stream is bound to a live transfer now: a second binding is
    // refused without touching anything
    let d2 = mem_to_mem(BASE, BASE + 0x40, 4, Stream::S2);
    assert_eq!(mgr.claim_and_prepare(&d2), Err(Error::StreamInUse));
    // other streams are still free
    let d3 = mem_to_mem(BASE, BASE + 0x40, 4, Stream::S7);
    assert_eq!(mgr.claim_and_prepare(&d3), Ok(()));
}

#[test]
fn claim_and_prepare_rolls_back_the_claim_on_a_bad_descriptor() {
    let mut mgr = DmaManager::init_dma1();
    let mut d = mem_to_mem(BASE, BASE + 0x20, 4, Stream::S1);
    d.circular_mode = CircularMode::Enable;
    assert_eq!(
        mgr.claim_and_prepare(&d),
        Err(Error::CannotUseMemoryToMemoryTransferWithCircularMode)
    );
    // the failed attempt released the stream again
    d.circular_mode = CircularMode::Disable;
    assert_eq!(mgr.claim_and_prepare(&d), Ok(()));
}

#[test]
fn stream_claims_arbitrate_double_binding() {
    let mut mgr = DmaManager::init_dma1();
    assert!(mgr.claim_stream(Stream::S3));
    // a second claim of the same stream is refused
    assert!(!mgr.claim_stream(Stream::S3));
    // other streams are unaffected
    assert!(mgr.claim_stream(Stream::S6));
    mgr.release_stream(Stream::S3);
    assert!(mgr.claim_stream(Stream::S3));
}

#[test]
fn stream_indices_cover_the_eight_streams() {
    let streams = [
        Stream::S0,
        Stream::S1,
        Stream::S2,
        Stream::S3,
        Stream::S4,
        Stream::S5,
        Stream::S6,
        Stream::S7,
    ];
    for (i, s) in streams.iter().enumerate() {
        assert_eq!(stream_index(*s), i);
    }
}

#[test]
fn memory_model_words_round_trip() {
    let mut mem = MemoryModel::new(BASE, 16);
    mem.write_word(BASE + 4, 0xA1B2_C3D4);
    assert_eq!(mem.read_word(BASE + 4), 0xA1B2_C3D4);
    assert_eq!(mem.read_byte(BASE + 4), 0xD4);
    assert_eq!(mem.read_byte(BASE + 7), 0xA1);
    assert!(mem.in_range(BASE, 16));
    assert!(!mem.in_range(BASE, 17));
    assert!(!mem.in_range(BASE - 1, 1));
}

#[test]
fn reset_register_block_is_uniform() {
    let b = DmaRegisterBlock::reset();
    assert_eq!(b.s0, b.s7);
    assert_eq!(b.stream_regs(Stream::S2).en, StreamControl::Disable);
    assert_eq!(b.stream_regs(Stream::S2).ndtr, 0);
}
