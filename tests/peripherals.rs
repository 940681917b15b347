use ironboy_core::apu::noise::NoiseChannel;
use ironboy_core::apu::frame_sequencer::{FrameClocks, FrameSequencer};
use ironboy_core::apu::volume_envelope::VolumeEnvelope;
use ironboy_core::bus::{IE_ADDRESS, IF_ADDRESS};
use ironboy_core::io::serial_transfer::SerialTransfer;
use ironboy_core::gb::{GameBoy, CYCLES_PER_FRAME};
use ironboy_core::ppu::object::{Object, Palette as ObjectPalette};
use ironboy_core::ppu::palette::{color_index, Color, Palette};
use ironboy_core::ppu::timing::Ppu;
use ironboy_core::scheduler::{Event, EventType, PpuEvent, Scheduler};

#[test]
fn envelope_register_round_trip() {
    let mut envelope = VolumeEnvelope::new();
    assert_eq!(envelope.read(), 0x08);
    envelope.write(0xA3);
    assert_eq!(envelope.volume, 0x0A);
    assert!(!envelope.direction);
    assert_eq!(envelope.pace, 3);
    assert!(envelope.enabled);
    assert_eq!(envelope.read(), 0xA3);
    envelope.reset();
    assert_eq!(envelope.read(), 0x08);
}

#[test]
fn envelope_steps_every_pace_ticks() {
    let mut envelope = VolumeEnvelope::new();
    envelope.write(0x2A); // volume 2, upward, pace 2
    envelope.cycle(&true);
    assert_eq!(envelope.volume, 2);
    envelope.cycle(&true);
    assert_eq!(envelope.volume, 3);
    envelope.cycle(&false);
    envelope.cycle(&false);
    assert_eq!(envelope.volume, 3);
    envelope.write(0x11); // volume 1, downward, pace 1
    envelope.cycle(&true);
    assert_eq!(envelope.volume, 0);
    assert!(!envelope.enabled);
    envelope.cycle(&true);
    assert_eq!(envelope.volume, 0);
}

#[test]
fn palette_maps_color_numbers() {
    let palette = Palette::new(0b1110_0100);
    assert_eq!(palette.pixel_color(0), Color::White);
    assert_eq!(palette.pixel_color(1), Color::LightGrey);
    assert_eq!(palette.pixel_color(2), Color::DarkGrey);
    assert_eq!(palette.pixel_color(3), Color::Black);
    assert_eq!(palette.read(), 0b1110_0100);
    let mut palette = Palette::new(0);
    palette.write(0b0001_1011);
    assert_eq!(palette.pixel_color(0), Color::Black);
    assert_eq!(palette.read(), 0b0001_1011);
    assert_eq!(Color::DarkGrey.rgb(), (96, 96, 96));
}

#[test]
fn tile_row_color_index() {
    assert_eq!(color_index(0b1000_0001, 0b0000_0001, 0), 3);
    assert_eq!(color_index(0b1000_0001, 0b0000_0001, 7), 1);
    assert_eq!(color_index(0b0000_0000, 0b0000_0100, 2), 2);
    assert_eq!(color_index(0, 0, 5), 0);
}

#[test]
fn object_attributes() {
    let mut object = Object::new();
    object.set_y_position(20);
    object.set_set_x_position(10);
    object.set_tile(0x42);
    assert_eq!(object.top_line(), 4);
    assert_eq!(object.left_column(), 2);
    assert_eq!(object.y_position(), 20);
    assert_eq!(object.set_x_position(), 10);
    assert_eq!(object.tile(), 0x42);
    object.write_oam(0b1011_0111);
    assert!(object.is_behind_background());
    assert!(!object.y_flip());
    assert!(object.x_flip());
    assert_eq!(object.palette(), ObjectPalette::Obp1);
    assert_eq!(object.read_oam(), 0b1011_0000);
    let mut fresh = Object::new();
    assert_eq!(fresh.top_line(), -16);
    assert_eq!(fresh.read_oam(), 0);
}

fn enabled_ppu(scheduler: &mut Scheduler) -> Ppu {
    let mut ppu = Ppu::new(scheduler);
    ppu.set_lcd_control(0x80, scheduler);
    ppu
}

#[test]
fn display_scan_cycle() {
    let mut scheduler = Scheduler::new();
    let mut ppu = enabled_ppu(&mut scheduler);
    assert_eq!(
        ppu.handle_event(PpuEvent::HBlank),
        Some((EventType::Ppu(PpuEvent::OamScan), 80))
    );
    assert_eq!(ppu.ly(), 1);
    assert_eq!(ppu.lcd_status() & 3, 2);
    assert_eq!(
        ppu.handle_event(PpuEvent::OamScan),
        Some((EventType::Ppu(PpuEvent::DrawingPixels), 172))
    );
    assert_eq!(
        ppu.handle_event(PpuEvent::DrawingPixels),
        Some((EventType::Ppu(PpuEvent::HBlank), 204))
    );
    assert_eq!(ppu.lcd_status() & 3, 0);
}

#[test]
fn display_enters_vertical_blank_after_last_line() {
    let mut scheduler = Scheduler::new();
    let mut ppu = enabled_ppu(&mut scheduler);
    for _ in 0..143 {
        ppu.handle_event(PpuEvent::HBlank);
    }
    assert_eq!(ppu.ly(), 143);
    assert_eq!(
        ppu.handle_event(PpuEvent::HBlank),
        Some((EventType::Ppu(PpuEvent::VBlank), 456))
    );
    assert_eq!(ppu.take_interrupts() & 1, 1);
    assert_eq!(ppu.take_interrupts(), 0);
    let mut last = None;
    for _ in 0..12 {
        last = ppu.handle_event(PpuEvent::VBlank);
    }
    assert_eq!(last, Some((EventType::Ppu(PpuEvent::OamScan), 80)));
    assert_eq!(ppu.ly(), 0);
}

#[test]
fn display_line_compare_raises_status_interrupt() {
    let mut scheduler = Scheduler::new();
    let mut ppu = enabled_ppu(&mut scheduler);
    ppu.take_interrupts();
    ppu.set_lyc(1);
    assert_eq!(ppu.lcd_status() & 4, 0);
    ppu.handle_event(PpuEvent::HBlank);
    assert_eq!(ppu.lcd_status() & 4, 4);
    assert_eq!(ppu.take_interrupts(), 0);
}

#[test]
fn display_off_drops_its_phases() {
    let mut scheduler = Scheduler::new();
    let mut ppu = Ppu::new(&mut scheduler);
    assert_eq!(scheduler.len(), 1);
    assert_eq!(ppu.handle_event(PpuEvent::HBlank), None);
    ppu.set_lcd_control(0x80, &mut scheduler);
    assert_eq!(scheduler.len(), 2);
    ppu.set_lcd_control(0x00, &mut scheduler);
    assert_eq!(scheduler.len(), 0);
    assert_eq!(ppu.ly(), 0);
}

#[test]
fn console_frame_runs_to_its_end() {
    // An endless loop: JR -2.
    let mut rom = vec![0u8; 0x8000];
    rom[0x100] = 0x18;
    rom[0x101] = 0xFE;
    let mut game_boy = GameBoy::new(&rom, true);
    let elapsed = game_boy.run(0).unwrap();
    assert!(elapsed >= CYCLES_PER_FRAME);
    assert!(elapsed < CYCLES_PER_FRAME + 12);
    assert_eq!(game_boy.timestamp(), elapsed);
    assert_eq!(game_boy.cpu.registers.pc, 0x100);
}

#[test]
fn console_step_advances_clock() {
    let mut rom = vec![0u8; 0x8000];
    rom[0x100] = 0x01;
    rom[0x101] = 0x34;
    rom[0x102] = 0x12;
    let mut game_boy = GameBoy::new(&rom, true);
    assert_eq!(game_boy.cycle().unwrap(), 12);
    assert_eq!(game_boy.timestamp(), 12);
    assert_eq!(game_boy.cpu.registers.bc(), 0x1234);
}

#[test]
fn console_moves_display_interrupts_into_flags() {
    let rom = vec![0u8; 0x8000];
    let mut game_boy = GameBoy::new(&rom, true);
    game_boy.ppu.set_lcd_control(0x80, &mut game_boy.scheduler);
    game_boy.ppu.set_lyc(1);
    assert!(!game_boy.dispatch(Event::new(EventType::Ppu(PpuEvent::HBlank), 0)));
    assert_eq!(game_boy.cpu.bus.mem_read(IF_ADDRESS), 0);
    for _ in 0..143 {
        game_boy.dispatch(Event::new(EventType::Ppu(PpuEvent::HBlank), 0));
    }
    assert_eq!(game_boy.cpu.bus.mem_read(IF_ADDRESS) & 1, 1);
    assert_eq!(game_boy.cpu.bus.mem_read(IE_ADDRESS), 0);
    assert!(game_boy.dispatch(Event::new(EventType::FrameComplete, 5)));
}

#[test]
fn serial_transfer_hands_out_and_takes_bytes() {
    let mut serial = SerialTransfer::new();
    assert_eq!(serial.mem_write(0xFF01, 0x41), None);
    assert_eq!(serial.mem_read(0xFF01), 0x41);
    assert_eq!(serial.mem_write(0xFF02, 0x01), None);
    assert_eq!(serial.mem_read(0xFF02), 0x7F);
    assert_eq!(serial.mem_write(0xFF02, 0x81), Some(0x41));
    assert_eq!(serial.mem_read(0xFF02), 0xFF);
    serial.complete_transfer(None);
    assert_eq!(serial.interrupt(), 0);
    assert_eq!(serial.mem_read(0xFF01), 0x41);
    serial.complete_transfer(Some(0x99));
    assert_eq!(serial.interrupt(), 0b1000);
    assert_eq!(serial.mem_read(0xFF01), 0x99);
}

#[test]
fn frame_sequencer_steps() {
    let none = FrameClocks { length_timer: false, sweep: false, envelope: false };
    let mut sequencer = FrameSequencer::new();
    assert_eq!(sequencer.cycle(8191), none);
    let first = sequencer.cycle(1);
    assert_eq!(first, FrameClocks { length_timer: true, sweep: false, envelope: false });
    assert_eq!(sequencer.step(), 1);
    assert_eq!(sequencer.cycle(8192), none);
    assert_eq!(sequencer.cycle(8192), FrameClocks { length_timer: true, sweep: true, envelope: false });
    for _ in 0..4 {
        sequencer.cycle(8192);
    }
    assert_eq!(sequencer.step(), 7);
    assert_eq!(sequencer.cycle(8192), FrameClocks { length_timer: false, sweep: false, envelope: true });
    assert_eq!(sequencer.step(), 0);
    sequencer.cycle(100);
    sequencer.reset();
    assert_eq!(sequencer.step(), 0);
    assert_eq!(sequencer.cycle(8191), none);
}

#[test]
fn noise_channel_registers() {
    let mut noise = NoiseChannel::new();
    noise.write_8(0xFF20, 0x3F);
    assert_eq!(noise.length_time, 1);
    noise.write_8(0xFF21, 0xF3);
    assert!(noise.dac_enabled);
    assert_eq!(noise.read_8(0xFF21), 0xF3);
    noise.write_8(0xFF22, 0x2D);
    assert_eq!(noise.clock_shift, 2);
    assert!(noise.lfsr_width);
    assert_eq!(noise.clock_divider, 5);
    assert_eq!(noise.read_8(0xFF22), 0x2D);
    noise.write_8(0xFF23, 0xC0);
    assert!(noise.enabled);
    assert!(noise.length_enabled);
    assert_eq!(noise.lfsr, 0x7FF1);
    assert_eq!(noise.timer, 80 << 2);
    assert_eq!(noise.read_8(0xFF23), 0x40);
    assert_eq!(noise.read_8(0xFF30), 0xFF);
    noise.write_8(0xFF21, 0x07);
    assert!(!noise.dac_enabled);
    assert!(!noise.enabled);
}

#[test]
fn noise_channel_shifts_when_timer_expires() {
    let mut noise = NoiseChannel::new();
    noise.write_8(0xFF21, 0xA0);
    noise.write_8(0xFF22, 0x00);
    noise.write_8(0xFF23, 0x80);
    assert_eq!(noise.timer, 8);
    noise.cycle(4);
    assert_eq!(noise.timer, 4);
    assert_eq!(noise.lfsr, 0x7FF1);
    noise.cycle(4);
    // 0x7FF1: bits 0 and 1 differ, so a one enters at bit 14.
    assert_eq!(noise.lfsr, 0x7FF8);
    assert_eq!(noise.output, 0x0A);
    assert_eq!(noise.timer, 8);
    noise.cycle(8);
    assert_eq!(noise.lfsr, 0x3FFC);
    assert_eq!(noise.output, 0);
}

#[test]
fn display_object_memory() {
    let mut scheduler = Scheduler::new();
    let mut ppu = Ppu::new(&mut scheduler);
    assert_eq!(ppu.read_oam(0), 0);
    ppu.write_oam(4, 0x30);
    ppu.write_oam(5, 0x18);
    ppu.write_oam(6, 0x02);
    ppu.write_oam(7, 0xFF);
    assert_eq!(ppu.read_oam(4), 0x30);
    assert_eq!(ppu.read_oam(5), 0x18);
    assert_eq!(ppu.read_oam(6), 0x02);
    assert_eq!(ppu.read_oam(7), 0xF0);
    assert_eq!(ppu.read_oam(0), 0);
    assert_eq!(ppu.read_oam(159), 0);
}

#[test]
fn display_control_write_keeps_compare_register() {
    let mut scheduler = Scheduler::new();
    let mut ppu = enabled_ppu(&mut scheduler);
    ppu.set_lyc(2);
    ppu.handle_event(PpuEvent::HBlank);
    ppu.handle_event(PpuEvent::HBlank);
    assert_eq!(ppu.ly(), 2);
    assert_eq!(ppu.lcd_status() & 4, 4);
    ppu.set_lcd_control(0x00, &mut scheduler);
    assert_eq!(ppu.ly(), 0);
    assert_eq!(ppu.lcd_status() & 4, 0);
    ppu.set_lcd_control(0x80, &mut scheduler);
    assert_eq!(ppu.ly(), 0);
    assert_eq!(ppu.lcd_status() & 3, 0);
    assert_eq!(scheduler.timestamp_of_next_event(), Some(0));
}

#[test]
fn console_serves_a_scheduled_timer_event_once() {
    let rom = vec![0u8; 0x8000];
    let mut game_boy = GameBoy::new(&rom, true);
    let kind = EventType::Timer(ironboy_core::scheduler::TimerEvent::TimaOverflow);
    game_boy.scheduler.schedule(kind, 100);
    game_boy.scheduler.advance(100);
    assert!(!game_boy.handle_events());
    assert_eq!(game_boy.scheduler.len(), 1);
    assert_eq!(game_boy.scheduler.timestamp_of_next_event(), Some(204));
}
