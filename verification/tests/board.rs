use space_invaders::allocator::{align_up, memory_size, Allocator, BumpAllocator, ImplAllocator};
use space_invaders::color::Color;
use space_invaders::coordinates::Coordinates;
use space_invaders::framebuffer::FrameBuffer;
use space_invaders::mailbox::{board_serial_from_response, board_serial_message,
    get_set_clock_rate_message, get_set_virtual_framebuffer_offset_message, lfb_message,
    mailbox_call_address, max_clock_rate_message, Channel, Message, ReqResp};
use space_invaders::time::{BcmGpuTimer, TimeManager, TimeManagerInterface};

#[test]
fn memory_size_is_one_gigabyte() {
    assert_eq!(memory_size(), 1 << 30);
}

#[test]
fn align_up_rounds_to_the_next_multiple() {
    assert_eq!(align_up(5, 4), 8);
    assert_eq!(align_up(8, 4), 8);
    assert_eq!(align_up(0, 16), 0);
    assert_eq!(align_up(17, 16), 32);
}

#[test]
fn bump_allocator_hands_out_aligned_chunks() {
    let mut b = <BumpAllocator as ImplAllocator>::new(0x1000, 0x10000);
    let first = b.allocate(10, 8);
    assert_eq!(first, 0x1000);
    assert_eq!(b.current, 0x100A);
    let second = b.allocate(16, 8);
    assert_eq!(second, 0x1010);
    assert_eq!(b.current, 0x1020);
    b.dealloc(first, 10, 8);
    assert_eq!(b.current, 0x1020);
}

#[test]
fn bump_allocator_refuses_after_its_request_budget() {
    let mut b = <BumpAllocator as ImplAllocator>::new(0x1000, usize::MAX);
    for _ in 0..30 {
        assert_ne!(b.allocate(8, 4), 0);
    }
    assert_eq!(b.allocate(8, 4), 0);
}

#[test]
fn bump_allocator_refuses_bad_alignment() {
    let mut b = <BumpAllocator as ImplAllocator>::new(0x1000, 0x10000);
    assert_eq!(b.allocate(8, 3), 0);
    assert_eq!(b.allocate(8, 0), 0);
    assert_eq!(b.current, 0x1000);
}

#[test]
fn allocator_front_end_initialises_once() {
    let mut front: Allocator<BumpAllocator> = Allocator::uninitialized();
    assert_eq!(front.allocate(8, 8), 0);
    front.initialize(0x2000, 0x20000);
    assert_eq!(front.allocate(8, 8), 0x2000);
}

#[test]
fn lfb_message_is_laid_out_for_the_videocore() {
    let m = lfb_message();
    assert_eq!(m.0.len(), 35);
    assert_eq!(m.0[0], 140);
    assert_eq!(m.0[1], 0);
    assert_eq!(m.0[2], 0x00048003);
    assert_eq!(m.0[5], 1280);
    assert_eq!(m.0[6], 720);
    assert_eq!(m.0[11], 1440);
    assert_eq!(m.0[20], 32);
    assert_eq!(m.0[28], 4096);
    assert_eq!(m.0[34], 0);
}

#[test]
fn clock_and_offset_messages_carry_their_arguments() {
    let m = get_set_clock_rate_message(700_000_000);
    assert_eq!(m.0[2], 0x00038002);
    assert_eq!(m.0[5], 700_000_000);
    let m = get_set_virtual_framebuffer_offset_message(720);
    assert_eq!(m.0[2], 0x00048009);
    assert_eq!(m.0[6], 720);
    let m = max_clock_rate_message();
    assert_eq!(m.0[2], 0x00030004);
}

#[test]
fn responses_decode_by_their_status_word() {
    let mut m = board_serial_message();
    assert!(matches!(m.response_status(), ReqResp::Request));
    assert!(!m.is_response_successfull());
    m.0[1] = 0x80000000;
    assert!(m.is_response_successfull());
    m.0[1] = 0x80000001;
    assert!(matches!(m.response_status(), ReqResp::ResponseError));
}

#[test]
fn board_serial_assembles_from_both_words() {
    let mut m = board_serial_message();
    m.0[4] = 0x11223344;
    m.0[5] = 0x55667788;
    assert_eq!(board_serial_from_response(&m), 0x55667788_11223344u64);
}

#[test]
fn mailbox_addresses_carry_the_channel() {
    assert_eq!(Channel::PROP.number(), 8);
    assert_eq!(Channel::POWER.number(), 0);
    assert_eq!(mailbox_call_address(0x12345670, Channel::PROP), 0x12345678);
    assert_eq!(mailbox_call_address(0x1234567F, Channel::FB), 0x12345671);
}

#[test]
fn message_words_survive_a_round_trip() {
    let m: Message<3> = Message([4, 0, 0]);
    assert_eq!(ReqResp::from_u32(m.0[1]).as_u32(), 0);
    assert_eq!(ReqResp::ResponseSuccessful.as_u32(), 0x80000000);
}

#[test]
fn colours_pack_their_channels() {
    assert_eq!(Color::new(255, 255, 255).rgb(), 0xF0FFFFFF);
    assert_eq!(Color::new(0, 0, 255).rgb(), 0xF00000FF);
    assert_eq!(Color::new(252, 186, 3).rgb(), 0xF0FCBA03);
}

fn test_framebuffer() -> FrameBuffer {
    FrameBuffer {
        framebuff: vec![7; 100],
        width: 10,
        height: 10,
        pitch: 40,
        is_rgb: true,
        is_brg: false,
        fb_virtual_width: 10,
        depth_bits: 32,
        current_index: 0,
    }
}

#[test]
fn framebuffer_geometry() {
    let fb = test_framebuffer();
    assert_eq!(fb.single_screen_len(), 100);
    assert_eq!(fb.current_height_offset(), 0);
    assert_eq!(fb.max_screen_size(), 3200);
    assert_eq!(FrameBuffer::inverse(0), 1);
    assert_eq!(FrameBuffer::inverse(1), 0);
}

#[test]
fn framebuffer_pixels_land_row_major() {
    let mut fb = test_framebuffer();
    let color = Color::new(1, 2, 3);
    fb.use_pixel(3, 2, color);
    assert_eq!(fb.framebuff[23], color.rgb());
    fb.clear_screen();
    assert!(fb.framebuff.iter().all(|p| *p == 0));
}

#[test]
fn board_timer_counter_combines_both_halves() {
    assert_eq!(BcmGpuTimer::counter_value(0x44332211, 0x1), 0x1_44332211u64);
    assert_eq!(BcmGpuTimer::counter_value(5, 0), 5);
    let _ = BcmGpuTimer::new();
}

#[test]
fn host_clock_reports_elapsed_time() {
    let tm = TimeManager::new();
    let t0 = tm.now();
    assert_eq!(tm.since(t0 + 10_000_000), 0);
    assert!(tm.since(0) > 0);
}

#[test]
fn buffer_write_appends_until_full() {
    let mut sink = space_invaders::score_count::BufferWrite::new(10);
    assert_eq!(sink.written_length(), 0);
    assert!(sink.write_str("High "));
    assert!(sink.write_str("Score"));
    assert_eq!(sink.written_length(), 10);
    assert_eq!(&sink.buffer, b"High Score");
    // No room left: the write is refused whole and nothing moves.
    assert!(!sink.write_str("!"));
    assert_eq!(sink.written_length(), 10);
    assert_eq!(&sink.buffer, b"High Score");
}

#[test]
fn coordinates_round_to_usize_views() {
    let c = Coordinates::new(12, 34);
    assert_eq!(c.x_usize(), 12);
    assert_eq!(c.y_usize(), 34);
}
