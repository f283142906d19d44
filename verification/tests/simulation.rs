use multislope_adc::adc::{
    encode_read_request, encode_write_request, AbstractMultiSlopeAdc, InputMux, MeasResult,
    SlopeMode, SpiMultiSlopeAdc,
};
use multislope_adc::bits::reverse8;
use multislope_adc::channel::byte_channel;
use multislope_adc::kernel::{
    advance, next_action, step_continue, KernelAction, KernelState, TERMINATION_STATUS,
};
use multislope_adc::logic::{LogicError, LogicValue};
use multislope_adc::peripheral::peripheral_rxtx;
use multislope_adc::spi::{SimSpiMaster, SpiError, SpiTransfer};
use multislope_adc::vector::LogicVector;

#[test]
fn rtl_tests() {}

#[test]
fn bit_reversal_exact_values() {
    assert_eq!(reverse8(0x01), 0x80);
    assert_eq!(reverse8(0x80), 0x01);
    assert_eq!(reverse8(0x00), 0x00);
    assert_eq!(reverse8(0xff), 0xff);
    assert_eq!(reverse8(0x12), 0x48);
    assert_eq!(reverse8(0xa5), 0xa5);
    for b in 0..=255u8 {
        assert_eq!(reverse8(b), b.reverse_bits());
        assert_eq!(reverse8(reverse8(b)), b);
    }
}

#[test]
fn master_transfer_exchanges_every_byte() {
    let (mosi_tx, mosi_rx) = byte_channel();
    let (miso_tx, miso_rx) = byte_channel();
    let replies = [
        0xa0u8, 0xa1, 0xa2, 0xa3, 0xa4, 0xa5, 0xa6, 0xa7, 0xa8, 0xa9, 0xaa,
    ];
    for b in replies {
        assert_eq!(miso_tx.send(b), Ok(()));
    }
    let sent = [
        0x11u8, 0x02, 0x03, 0x04, 0x12, 0x34, 0x56, 0x78, 0x00, 0x00, 0x00,
    ];
    let mut buffer: Vec<u8> = sent.to_vec();
    let mut master = SimSpiMaster::new(mosi_tx, miso_rx);
    assert_eq!(master.transfer(&mut buffer), Ok(()));
    assert_eq!(buffer.len(), sent.len());
    assert_eq!(buffer, replies.to_vec());
    for b in sent {
        assert_eq!(mosi_rx.try_recv(), Ok(b));
    }
    assert!(mosi_rx.try_recv().is_err());
}

#[test]
fn master_transfer_reports_torn_down_reply_channel() {
    let (mosi_tx, _mosi_rx) = byte_channel();
    let (miso_tx, miso_rx) = byte_channel();
    for b in [0xe0u8, 0xe1, 0xe2, 0xe3] {
        assert_eq!(miso_tx.send(b), Ok(()));
    }
    drop(miso_tx);
    let sent = [
        0x11u8, 0x02, 0x03, 0x04, 0x12, 0x34, 0x56, 0x78, 0x00, 0x00, 0x00,
    ];
    let mut buffer: Vec<u8> = sent.to_vec();
    let mut master = SimSpiMaster::new(mosi_tx, miso_rx);
    assert_eq!(master.transfer(&mut buffer), Err(SpiError::ChannelClosed));
    assert_eq!(&buffer[..4], &[0xe0, 0xe1, 0xe2, 0xe3]);
    assert_eq!(&buffer[4..], &sent[4..]);
}

#[test]
fn master_transfer_of_an_empty_buffer_succeeds() {
    let (mosi_tx, mosi_rx) = byte_channel();
    let (miso_tx, miso_rx) = byte_channel();
    // Even with both peer ends gone: an empty buffer reaches no channel.
    drop(mosi_rx);
    drop(miso_tx);
    let mut buffer: Vec<u8> = Vec::new();
    let mut master = SimSpiMaster::new(mosi_tx, miso_rx);
    assert_eq!(master.transfer(&mut buffer), Ok(()));
    assert!(buffer.is_empty());
}

#[test]
fn master_transfer_reports_torn_down_send_channel() {
    let (mosi_tx, mosi_rx) = byte_channel();
    let (_miso_tx, miso_rx) = byte_channel();
    drop(mosi_rx);
    let sent = [0x11u8, 0x22, 0x33];
    let mut buffer: Vec<u8> = sent.to_vec();
    let mut master = SimSpiMaster::new(mosi_tx, miso_rx);
    assert_eq!(master.transfer(&mut buffer), Err(SpiError::ChannelClosed));
    assert_eq!(buffer, sent.to_vec());
}

#[test]
fn callback_exchanges_each_byte_exactly_once() {
    let (mosi_tx, mosi_rx) = byte_channel();
    let (miso_tx, miso_rx) = byte_channel();
    let mut data = LogicVector::new(8);
    data.set_unsigned(0x3a);
    let mut flags = LogicVector::from_cells(vec![LogicValue::Low; 4]);

    // One byte queued by the master: the exchange happens on this cycle.
    assert_eq!(mosi_tx.send(0x11), Ok(()));
    assert_eq!(peripheral_rxtx(&mosi_rx, &miso_tx, &mut data, &mut flags), Ok(()));
    assert_eq!(flags.get(3), Ok(LogicValue::High));
    assert_eq!(flags.get(0), Ok(LogicValue::Low));
    // The bus now carries the bit-order-reversed master byte.
    assert_eq!(data.get_unsigned(), Ok(reverse8(0x11) as u32));
    // The master's reply is the bit-order-reversed sampled byte.
    assert_eq!(miso_rx.try_recv(), Ok(reverse8(0x3a)));
    assert!(miso_rx.try_recv().is_err());

    // No byte queued: data valid is cleared, the bus is untouched.
    assert_eq!(peripheral_rxtx(&mosi_rx, &miso_tx, &mut data, &mut flags), Ok(()));
    assert_eq!(flags.get(3), Ok(LogicValue::Low));
    assert_eq!(flags.get(0), Ok(LogicValue::Low));
    assert_eq!(data.get_unsigned(), Ok(reverse8(0x11) as u32));
    assert!(miso_rx.try_recv().is_err());
}

#[test]
fn callback_reserved_flag_bits_stay_untouched() {
    let (mosi_tx, mosi_rx) = byte_channel();
    let (miso_tx, _miso_rx) = byte_channel();
    let mut data = LogicVector::new(8);
    data.set_unsigned(0x00);
    let mut flags = LogicVector::from_cells(vec![
        LogicValue::Low,
        LogicValue::WeakHigh,
        LogicValue::HiZ,
        LogicValue::Low,
    ]);
    assert_eq!(mosi_tx.send(0x55), Ok(()));
    assert_eq!(peripheral_rxtx(&mosi_rx, &miso_tx, &mut data, &mut flags), Ok(()));
    assert_eq!(flags.get(1), Ok(LogicValue::WeakHigh));
    assert_eq!(flags.get(2), Ok(LogicValue::HiZ));
}

#[test]
fn callback_reports_torn_down_master_channel() {
    let (mosi_tx, mosi_rx) = byte_channel();
    let (miso_tx, _miso_rx) = byte_channel();
    drop(mosi_tx);
    let mut data = LogicVector::new(8);
    data.set_unsigned(0x77);
    let mut flags = LogicVector::from_cells(vec![LogicValue::Low; 4]);
    assert_eq!(peripheral_rxtx(&mosi_rx, &miso_tx, &mut data, &mut flags), Ok(()));
    assert_eq!(flags.get(0), Ok(LogicValue::High));
    assert_eq!(flags.get(3), Ok(LogicValue::Low));
    assert_eq!(data.get_unsigned(), Ok(0x77));
}

#[test]
fn callback_reports_torn_down_reply_channel() {
    let (mosi_tx, mosi_rx) = byte_channel();
    let (miso_tx, miso_rx) = byte_channel();
    drop(miso_rx);
    let mut data = LogicVector::new(8);
    data.set_unsigned(0x0f);
    let mut flags = LogicVector::from_cells(vec![LogicValue::Low; 4]);
    assert_eq!(mosi_tx.send(0x21), Ok(()));
    assert_eq!(peripheral_rxtx(&mosi_rx, &miso_tx, &mut data, &mut flags), Ok(()));
    assert_eq!(flags.get(0), Ok(LogicValue::High));
    assert_eq!(flags.get(3), Ok(LogicValue::Low));
    assert_eq!(data.get_unsigned(), Ok(reverse8(0x21) as u32));
}

#[test]
fn callback_rejects_an_unresolved_bus() {
    let (mosi_tx, mosi_rx) = byte_channel();
    let (miso_tx, miso_rx) = byte_channel();
    let mut data = LogicVector::new(8);
    data.set_unsigned(0x55);
    data.set(3, LogicValue::HiZ).unwrap();
    let mut flags = LogicVector::from_cells(vec![LogicValue::Low; 4]);
    assert_eq!(mosi_tx.send(0x42), Ok(()));
    assert_eq!(
        peripheral_rxtx(&mosi_rx, &miso_tx, &mut data, &mut flags),
        Err(LogicError::UnresolvedState)
    );
    assert_eq!(flags.get(0), Ok(LogicValue::High));
    assert_eq!(data.get(3), Ok(LogicValue::HiZ));
    assert!(miso_rx.try_recv().is_err());
}

#[test]
fn step_loop_guard_and_transitions() {
    assert!(step_continue(0, false));
    assert!(step_continue(TERMINATION_STATUS - 1, false));
    assert!(!step_continue(TERMINATION_STATUS, false));
    assert!(!step_continue(0, true));

    assert_eq!(advance(KernelState::NotLoaded, 0, false), KernelState::Loaded);
    assert_eq!(advance(KernelState::Loaded, 0, false), KernelState::OptionsSet);
    assert_eq!(advance(KernelState::OptionsSet, 0, false), KernelState::Elaborated);
    assert_eq!(advance(KernelState::Elaborated, 0, false), KernelState::Initialized);
    assert_eq!(advance(KernelState::Initialized, 0, false), KernelState::Running);
    assert_eq!(advance(KernelState::Running, 0, false), KernelState::Running);
    assert_eq!(advance(KernelState::Running, 3, false), KernelState::Stopped);
    // A stop request observed between steps ends the loop at once.
    assert_eq!(advance(KernelState::Running, 0, true), KernelState::Stopped);
    assert_eq!(advance(KernelState::Stopped, 0, false), KernelState::Stopped);

    assert_eq!(next_action(KernelState::NotLoaded), KernelAction::LoadArtifact);
    assert_eq!(next_action(KernelState::Loaded), KernelAction::SetOptions);
    assert_eq!(next_action(KernelState::OptionsSet), KernelAction::Elaborate);
    assert_eq!(next_action(KernelState::Elaborated), KernelAction::InitSimulation);
    assert_eq!(next_action(KernelState::Initialized), KernelAction::Step);
    assert_eq!(next_action(KernelState::Running), KernelAction::Step);
    assert_eq!(next_action(KernelState::Stopped), KernelAction::Teardown);
}

#[test]
fn read_frame_layout() {
    let frame = encode_read_request(0x101);
    assert_eq!(frame, vec![0x10, 0x00, 0x01, 0x01, 0x00, 0x00, 0x00, 0x00, 0x00]);
    // The address is truncated below the opcode nibble.
    let wide = encode_read_request(0xffff_ffff);
    assert_eq!(wide[..4], [0x1f, 0xff, 0xff, 0xff]);
}

#[test]
fn write_frame_layout() {
    let frame = encode_write_request(0x101, 0xdead_beef);
    assert_eq!(
        frame,
        vec![0x20, 0x00, 0x01, 0x01, 0xde, 0xad, 0xbe, 0xef, 0x00]
    );
}

#[test]
fn read_word_returns_the_frame_tail() {
    let (mosi_tx, mosi_rx) = byte_channel();
    let (miso_tx, miso_rx) = byte_channel();
    for b in [0u8, 0, 0, 0, 0, 0x12, 0x34, 0x56, 0x78] {
        assert_eq!(miso_tx.send(b), Ok(()));
    }
    let master = SimSpiMaster::new(mosi_tx, miso_rx);
    let mut adc = SpiMultiSlopeAdc::new(master);
    assert!(matches!(adc.read_word(0x42), Ok(0x12345678)));
    let mut seen: Vec<u8> = Vec::new();
    while let Ok(b) = mosi_rx.try_recv() {
        seen.push(b);
    }
    assert_eq!(seen, vec![0x10, 0x00, 0x00, 0x42, 0x00, 0x00, 0x00, 0x00, 0x00]);
}

#[test]
fn set_integration_time_programs_whole_clock_cycles() {
    let (mosi_tx, mosi_rx) = byte_channel();
    let (miso_tx, miso_rx) = byte_channel();
    for _ in 0..9 {
        assert_eq!(miso_tx.send(0), Ok(()));
    }
    let master = SimSpiMaster::new(mosi_tx, miso_rx);
    let mut adc = SpiMultiSlopeAdc::new(master);
    // Three milliseconds of integration at a 20 ns clock.
    assert!(matches!(adc.set_integration_time(3_000_000), Ok(150_000)));
    let mut seen: Vec<u8> = Vec::new();
    while let Ok(b) = mosi_rx.try_recv() {
        seen.push(b);
    }
    assert_eq!(seen, encode_write_request(0x101, 150_000));
}

#[test]
fn integration_time_rounds_down() {
    let (mosi_tx, _mosi_rx) = byte_channel();
    let (miso_tx, miso_rx) = byte_channel();
    for _ in 0..9 {
        assert_eq!(miso_tx.send(0), Ok(()));
    }
    let master = SimSpiMaster::new(mosi_tx, miso_rx);
    let mut adc = SpiMultiSlopeAdc::new(master);
    assert!(matches!(adc.set_integration_time(59), Ok(2)));
}

#[test]
fn start_raises_the_control_bit() {
    let (mosi_tx, mosi_rx) = byte_channel();
    let (miso_tx, miso_rx) = byte_channel();
    for _ in 0..9 {
        assert_eq!(miso_tx.send(0), Ok(()));
    }
    let master = SimSpiMaster::new(mosi_tx, miso_rx);
    let mut adc = SpiMultiSlopeAdc::new(master);
    assert!(adc.start(InputMux::Vin, SlopeMode::DualSlope).is_ok());
    let mut seen: Vec<u8> = Vec::new();
    while let Ok(b) = mosi_rx.try_recv() {
        seen.push(b);
    }
    assert_eq!(seen, encode_write_request(0x100, 1));
}

#[test]
fn asymmetry_calibration_guard() {
    let clean = MeasResult {
        run_up: 100,
        run_up_add: 0,
        run_up_sub: 0,
        run_down: 50,
        remainder: 0,
    };
    assert!(clean.asymmetry_cal_valid());
    let tainted = MeasResult {
        run_up_add: 1,
        ..clean
    };
    assert!(!tainted.asymmetry_cal_valid());
    let tainted_sub = MeasResult {
        run_up_sub: 2,
        ..clean
    };
    assert!(!tainted_sub.asymmetry_cal_valid());
}

#[test]
fn mux_and_mode_codes() {
    assert_eq!(InputMux::Vin.code(), 0x01);
    assert_eq!(InputMux::Vref.code(), 0x02);
    assert_eq!(InputMux::Zero.code(), 0x03);
    assert_eq!(SlopeMode::DualSlope.code(), 0x0);
    assert_eq!(SlopeMode::Multislope.code(), 0x1);
}
