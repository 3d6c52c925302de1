use corgi_gpu::bios::BIOS;
use corgi_gpu::emu_window::{DSKey, EmuWindow, FrameBuffer};
use corgi_gpu::emuthread::{DsKeys, EmuThread, PauseEvent, RunStep};
use corgi_gpu::firmware::{Firmware, FirmwareCommand, FIRMWARE_SIZE};
use corgi_gpu::interrupts::{Interrupt, InterruptRegs};
use corgi_gpu::touchscreen::TouchScreen;

#[test]
fn bios_handles_the_known_interrupts() {
    let bios = BIOS::new();
    for n in 0..0x20 {
        assert_eq!(bios.swi7(n), Ok(0));
        assert_eq!(bios.swi9(n), Ok(0));
    }
}

#[test]
fn bios_names_an_unknown_interrupt_in_hexadecimal() {
    let bios = BIOS::new();
    assert_eq!(bios.swi7(0x20), Err("Unknown ARM7 SWI: 0x20".to_string()));
    assert_eq!(bios.swi9(0xAB), Err("Unknown ARM9 SWI: 0xAB".to_string()));
    assert_eq!(bios.swi9(0x1234), Err("Unknown ARM9 SWI: 0x1234".to_string()));
    assert_eq!(bios.swi7(u32::MAX), Err("Unknown ARM7 SWI: 0xFFFFFFFF".to_string()));
}

#[test]
fn bios_checksum_with_an_empty_table_is_zero() {
    assert_eq!(BIOS::crc16(&[]), 0);
    assert_eq!(BIOS::crc16(&[1, 2, 3, 0xFF]), 0);
    assert_eq!(BIOS::crc16_table(77), 0);
}

#[test]
fn interrupt_bits() {
    assert_eq!(u32::from(Interrupt::VBlank), 0);
    assert_eq!(u32::from(Interrupt::GBASlot), 13);
    assert_eq!(u32::from(Interrupt::IPCSync), 16);
    assert_eq!(u32::from(Interrupt::GeometryFifo), 21);
    assert_eq!(u32::from(Interrupt::WiFi), 24);
    let regs = InterruptRegs { ime: 1, ie: 0b0110, iflags: 0b0011 };
    assert!(regs.is_requesting_int(0b0010));
    assert!(!regs.is_requesting_int(0b0001));
    assert!(!regs.is_requesting_int(0b0100));
    assert!(regs.is_requesting_int(0b0111));
    let zero = InterruptRegs::default();
    assert!(!zero.is_requesting_int(0xFFFF_FFFF));
}

#[test]
fn touchscreen_conversions() {
    assert_eq!(TouchScreen::pixel_to_adc_x(0), 0);
    assert_eq!(TouchScreen::pixel_to_adc_x(128), 2048);
    assert_eq!(TouchScreen::pixel_to_adc_x(255), 4080);
    assert_eq!(TouchScreen::pixel_to_adc_y(96), 2048);
    assert_eq!(TouchScreen::pixel_to_adc_y(191), 4074);
    assert_eq!(TouchScreen::pixel_to_adc_x(4096), 0);
    assert_eq!(TouchScreen::adc_to_pixel_x(2048), 128);
    assert_eq!(TouchScreen::adc_to_pixel_x(4095), 255);
    assert_eq!(TouchScreen::adc_to_pixel_x(0xFFFF), 255);
    assert_eq!(TouchScreen::adc_to_pixel_y(2048), 96);
    assert_eq!(TouchScreen::adc_to_pixel_y(4095), 191);
    assert_eq!(TouchScreen::adc_to_pixel_y(0xFFFF), 191);
}

#[test]
fn touchscreen_transfers_a_sample_in_three_bytes() {
    let mut t = TouchScreen::new();
    assert_eq!(t.power_on(), Ok(()));
    t.press_event(128, 96);
    assert!(t.is_pen_down());
    assert_eq!((t.get_press_x(), t.get_press_y()), (2048, 2048));
    t.set_press_x(0xABC);
    t.set_press_y(0x123);
    // Channel 1: x.
    assert_eq!(t.transfer_data(0x90), 0xA0);
    assert_eq!(t.transfer_data(0), 0xC0);
    assert_eq!(t.transfer_data(0), 0);
    // Channel 0: y.
    assert_eq!(t.transfer_data(0x80), 0x10);
    assert_eq!(t.transfer_data(0), 0x30);
    t.deselect();
    // Channel 3 and 4: pressure.
    assert_eq!(t.transfer_data(0xB0), ((2000u16 >> 4) & 0xF0) as u8);
    t.deselect();
    assert_eq!(t.transfer_data(0xC0), ((1000u16 >> 4) & 0xF0) as u8);
    t.deselect();
    assert_eq!(t.transfer_data(0xD0), 0);
    t.deselect();
    t.release();
    assert_eq!(t.transfer_data(0x90), 0xF0);
    assert_eq!(t.transfer_data(0), 0xF0);
    t.deselect();
    t.set_pen_down(true);
    assert_eq!(t.transfer_data(0x90), 0xA0);
}

#[test]
fn firmware_commands() {
    assert_eq!(FirmwareCommand::from_value(0), FirmwareCommand::NoCommand);
    assert_eq!(FirmwareCommand::from_value(1), FirmwareCommand::ReadStatusReg);
    assert_eq!(FirmwareCommand::from_value(2), FirmwareCommand::ReadStream);
    assert_eq!(FirmwareCommand::from_value(3), FirmwareCommand::NoCommand);
}

#[test]
fn firmware_streams_its_bytes() {
    let mut f = Firmware::new();
    assert_eq!(f.get_firmware().len(), FIRMWARE_SIZE);
    assert_eq!(f.load_image(&[10, 20, 30]), 3);
    f.set_byte(3, 40);
    f.set_byte(FIRMWARE_SIZE, 1);
    assert_eq!(f.get_byte(3), 40);
    assert_eq!(f.get_byte(FIRMWARE_SIZE), 0);
    f.set_status(0x5A);
    assert_eq!(f.transfer_data(1), 0);
    assert_eq!(f.transfer_data(0), 0x5A);
    assert_eq!(f.transfer_data(2), 0);
    assert_eq!(f.transfer_data(0), 10);
    assert_eq!(f.transfer_data(0), 20);
    assert_eq!(f.transfer_data(0), 30);
    assert_eq!(f.transfer_data(0), 40);
    f.deselect();
    assert_eq!(f.transfer_data(9), 0);
    assert_eq!(f.transfer_data(2), 0);
    assert_eq!(f.transfer_data(0), 10);
    f.address = FIRMWARE_SIZE as u32;
    assert_eq!(f.transfer_data(0), 0);
    assert_eq!(f.address, FIRMWARE_SIZE as u32);
    assert_eq!(f.load_firmware("firmware.bin"), Ok(FIRMWARE_SIZE));
    assert_eq!((f.get_status(), f.address), (0, 0));
    assert_eq!(f.direct_boot(), Ok(()));
    f.set_user_data(-5);
    assert_eq!(f.get_user_data(), -5);
    f.get_firmware_mut()[7] = 77;
    assert_eq!(f.get_byte(7), 77);
    let big = vec![1u8; FIRMWARE_SIZE + 5];
    assert_eq!(f.load_image(&big), FIRMWARE_SIZE);
}

#[test]
fn firmware_checksums() {
    assert_eq!(Firmware::crc_update(0xFFFF, 0), 0x40BF);
    assert_eq!(Firmware::create_crc(&[], 4, 0), 0xFFFF);
    assert_eq!(Firmware::create_crc(&[0, 0], 1, 1), 0x40BF);
    assert_eq!(Firmware::create_crc(&[0, 0], usize::MAX, 1), 0x40BF);
    assert_eq!(Firmware::create_crc(&[0, 0], 1, 5), 0xFFFF);
    let two = Firmware::crc_update(Firmware::crc_update(0xFFFF, 0x31), 0x32);
    assert_eq!(Firmware::create_crc(&[0x30, 0x31, 0x32, 0x33], 2, 1), two);
    let mut f = Firmware::new();
    f.load_image(&[0x30, 0x31, 0x32, 0x33]);
    f.set_byte(0x100, (two & 0xFF) as u8);
    f.set_byte(0x101, (two >> 8) as u8);
    assert!(f.verify_crc(0, 1, 2, 0x100));
    assert!(!f.verify_crc(0, 1, 3, 0x100));
    assert!(!f.verify_crc(0, 1, 2, FIRMWARE_SIZE - 1));
    assert!(!f.verify_crc(0, 1, 2, usize::MAX));
}

#[test]
fn emulation_thread_pauses_and_stops() {
    let mut t = EmuThread::new();
    assert_eq!(t.next_step(), RunStep::Sleep);
    t.unpause(PauseEvent::GameNotStarted);
    assert_eq!(t.next_step(), RunStep::Frame);
    t.manual_pause();
    assert_eq!(t.pause_status, 8);
    t.pause(PauseEvent::OutOfFocus);
    t.pause(PauseEvent::LoadingRom);
    assert_eq!(t.pause_status, 14);
    t.manual_pause();
    assert_eq!(t.pause_status, 6);
    t.unpause(PauseEvent::OutOfFocus);
    t.unpause(PauseEvent::LoadingRom);
    t.unpause(PauseEvent::Manual);
    assert_eq!(t.next_step(), RunStep::Frame);
    t.shutdown();
    assert_eq!(t.next_step(), RunStep::Exit);
    t.start();
    assert_eq!(t.next_step(), RunStep::Frame);
}

#[test]
fn emulation_thread_keeps_keys_and_frames() {
    let mut t = EmuThread::new();
    t.press_key(DsKeys::A);
    t.press_key(DsKeys::Down);
    t.press_key(DsKeys::Debugging);
    assert!(t.is_key_down(DsKeys::A) && t.is_key_down(DsKeys::Down));
    assert!(!t.is_key_down(DsKeys::B));
    t.release_key(DsKeys::A);
    t.release_key(DsKeys::Debugging);
    assert!(!t.is_key_down(DsKeys::A));
    assert!(t.is_key_down(DsKeys::Debugging));
    assert_eq!(t.keys, 0x1800);
    t.touchscreen_event(255, 191);
    assert!(t.touchscreen.is_pen_down());
    assert_eq!(t.touchscreen.get_press_x(), 4080);
    t.touchscreen.release();
    t.touchscreen_event(-1, 5);
    assert!(!t.touchscreen.is_pen_down());
    t.store_frame(&[1, 2], &vec![3; 256 * 192 + 1]);
    assert_eq!(&t.upper_buffer[0..3], &[1, 2, 0]);
    assert_eq!(t.lower_buffer.len(), 256 * 192);
    assert!(t.lower_buffer.iter().all(|&p| p == 3));
    assert_eq!(t.take_fps(999_999), None);
    assert_eq!(t.take_fps(1_000_000), Some(1));
    assert_eq!(t.frames, 0);
    assert_eq!(EmuThread::frame_delay(6_666, true), Some(10_000));
    assert_eq!(EmuThread::frame_delay(16_666, true), None);
    assert_eq!(EmuThread::frame_delay(0, false), None);
}

#[test]
fn window_maps_keys_and_touches() {
    let mut w = EmuWindow::new();
    assert!(!w.is_running() && !w.is_emulating() && w.finished_frame());
    assert_eq!(w.handle_key_press(38), Some(DSKey::ButtonUp));
    assert_eq!(w.handle_key_press(40), Some(DSKey::ButtonDown));
    assert_eq!(w.handle_key_press(37), Some(DSKey::ButtonLeft));
    assert_eq!(w.handle_key_press(39), Some(DSKey::ButtonRight));
    assert_eq!(w.handle_key_press(81), Some(DSKey::ButtonL));
    assert_eq!(w.handle_key_press(87), Some(DSKey::ButtonR));
    assert_eq!(w.handle_key_press(65), Some(DSKey::ButtonY));
    assert_eq!(w.handle_key_press(83), Some(DSKey::ButtonX));
    assert_eq!(w.handle_key_press(88), Some(DSKey::ButtonA));
    assert_eq!(w.handle_key_press(90), Some(DSKey::ButtonB));
    assert_eq!(w.handle_key_press(13), Some(DSKey::ButtonStart));
    assert_eq!(w.handle_key_press(32), Some(DSKey::ButtonSelect));
    assert_eq!(w.handle_key_press(48), Some(DSKey::Debugging));
    for code in [9, 79, 80, 0, 1000] {
        assert_eq!(w.handle_key_press(code), None);
    }
    assert_eq!(w.handle_touchscreen(10, 192), None);
    assert_eq!(w.handle_touchscreen(10, 193), Some((10, 1)));
    assert_eq!(w.handle_touchscreen(10, 383), Some((10, 191)));
    assert_eq!(w.handle_touchscreen(10, 384), None);
    assert_eq!(w.load_rom("game.nds"), Ok(()));
    assert_eq!(w.rom_file_name, "game.nds");
    assert!(w.is_emulating());
    w.update_fps(60);
    assert_eq!(w.fps, 60);
    let frame = vec![5u32; 256 * 192];
    w.draw_frame(&frame, &[1, 2, 3]);
    assert_eq!(w.frame_buffer.upper, frame);
    assert!(w.frame_buffer.lower.iter().all(|&p| p == 0));
    let mut fb = FrameBuffer::new();
    fb.update_lower(&frame);
    fb.update_upper(&[]);
    assert_eq!(fb.lower, frame);
    assert_eq!(fb.upper.len(), 256 * 192);
}
