use vstd::prelude::*;

use crate::{SCREEN_HEIGHT, SCREEN_WIDTH};

verus! {

/// Words in the frame-buffer initialisation message.
pub const LFB_MESSAGE_SIZE: usize = 35;

/// Property tag: set the physical display width and height.
pub const FB_PHYSICAL_WH_TAG: u32 = 0x00048003;

/// Requested physical frame-buffer width.
pub const FB_PHYSICAL_WIDTH: u32 = SCREEN_WIDTH;

/// Requested physical frame-buffer height.
pub const FB_PHYSICAL_HEIGHT: u32 = SCREEN_HEIGHT;

/// Pixels in one physical screen.
#[verifier::nonlinear]
pub const FB_BUFFER_LEN: usize = (FB_PHYSICAL_HEIGHT * FB_PHYSICAL_WIDTH) as usize;

/// Property tag: set the virtual buffer width and height.
pub const FB_VIRTUAL_WH_TAG: u32 = 0x00048004;

/// Requested virtual buffer width.
pub const FB_VIRTUAL_WIDTH: u32 = SCREEN_WIDTH;

/// Requested virtual buffer height: two screens, for double buffering.
pub const FB_VIRTUAL_HEIGHT: u32 = SCREEN_HEIGHT * 2;

/// Pixels in the whole virtual buffer.
#[verifier::nonlinear]
pub const TOTAL_FB_BUFFER_LEN: usize = (FB_VIRTUAL_HEIGHT as usize) * (FB_VIRTUAL_WIDTH as usize);

/// Property tag: set the virtual buffer offset.
pub const FB_VIRTUAL_OFFSET_TAG: u32 = 0x48009;

/// A message that still carries a request.
pub const MBOX_REQUEST: u32 = 0;

/// Property tag: query the board serial number.
pub const BOARD_SERIAL_REQ: u32 = 0x00010004;

/// Property tag: query the maximum clock rate.
pub const GET_MAX_CLOCK_RATE: u32 = 0x00030004;

/// Property tag: set a clock rate.
pub const SET_CLOCK_RATE: u32 = 0x00038002;

/// Property tag: set the virtual buffer offset.
pub const SET_VIRTUAL_BUFFER_OFFSET_TAG: u32 = 0x00048009;

/// Property tag: test a virtual buffer offset without applying it.
pub const TEST_SET_VIRTUAL_BUFFER_OFFSET_TAG: u32 = 0x00044009;

/// Terminator tag closing every message.
pub const LAST_TAG: u32 = 0;

/// The mailbox channels the videocore understands.
#[derive(Debug, Copy, Clone, PartialEq, Eq, Structural)]
pub enum Channel {
    /// Power management.
    POWER,
    /// Frame buffer.
    FB,
    /// Virtual UART.
    VUART,
    /// VCHIQ interface.
    VCHIQ,
    /// LEDs.
    LEDS,
    /// Buttons.
    BTNS,
    /// Touch screen.
    TOUCH,
    /// Counter.
    COUNT,
    /// Property tags.
    PROP,
}

impl Channel {
    /// The channel's number in the mailbox protocol.
    pub fn number(&self) -> (r: u32)
        ensures
            r == spec_channel_number(*self),
    {
        match self {
            Channel::POWER => 0,
            Channel::FB => 1,
            Channel::VUART => 2,
            Channel::VCHIQ => 3,
            Channel::LEDS => 4,
            Channel::BTNS => 5,
            Channel::TOUCH => 6,
            Channel::COUNT => 7,
            Channel::PROP => 8,
        }
    }
}

/// The protocol number of each mailbox channel.
pub open spec fn spec_channel_number(c: Channel) -> u32 {
    match c {
        Channel::POWER => 0,
        Channel::FB => 1,
        Channel::VUART => 2,
        Channel::VCHIQ => 3,
        Channel::LEDS => 4,
        Channel::BTNS => 5,
        Channel::TOUCH => 6,
        Channel::COUNT => 7,
        Channel::PROP => 8,
    }
}

/// The request/response word of a mailbox message.
#[derive(Debug, Copy, Clone, PartialEq, Eq, Structural)]
pub enum ReqResp {
    /// The videocore answered and succeeded.
    ResponseSuccessful,
    /// The videocore answered with an error.
    ResponseError,
    /// The message still carries a request.
    Request,
}

/// How a response word decodes: zero is a pending request, the success code
/// is a success, and anything else is an error.
pub open spec fn spec_req_resp_from(val: u32) -> ReqResp {
    if val == 0 {
        ReqResp::Request
    } else if val == 0x80000000 {
        ReqResp::ResponseSuccessful
    } else {
        ReqResp::ResponseError
    }
}

impl ReqResp {
    /// Decode a response word.
    pub fn from_u32(val: u32) -> (r: ReqResp)
        ensures
            r == spec_req_resp_from(val),
    {
        if val == 0 {
            ReqResp::Request
        } else if val == 0x80000000 {
            ReqResp::ResponseSuccessful
        } else {
            ReqResp::ResponseError
        }
    }

    /// The word this state is written as.
    pub fn as_u32(&self) -> (r: u32)
        ensures
            r == match *self {
                ReqResp::Request => 0u32,
                ReqResp::ResponseSuccessful => 0x80000000u32,
                ReqResp::ResponseError => 0x80000001u32,
            },
    {
        match self {
            ReqResp::Request => 0,
            ReqResp::ResponseSuccessful => 0x80000000,
            ReqResp::ResponseError => 0x80000001,
        }
    }
}

/// One mailbox property message: `N` words, laid out as the protocol asks.
/// The transport that hands it to the hardware lives with the rest of the
/// board bring-up, outside this crate's verified core.
#[derive(Debug, Copy, Clone)]
pub struct Message<const N: usize>(pub [u32; N]);

impl<const N: usize> Message<N> {
    /// The decoded request/response word.
    pub fn response_status(&self) -> (r: ReqResp)
        requires
            N >= 2,
        ensures
            r == spec_req_resp_from(self.0@[1]),
    {
        ReqResp::from_u32(self.0[1])
    }

    /// Whether the videocore reported success.
    pub fn is_response_successfull(&self) -> (r: bool)
        requires
            N >= 2,
        ensures
            r == (spec_req_resp_from(self.0@[1]) == ReqResp::ResponseSuccessful),
    {
        let status = self.response_status();
        matches!(status, ReqResp::ResponseSuccessful)
    }
}

/// The frame-buffer initialisation message: physical and virtual sizes, a
/// zero offset, 32-bit depth, RGB order, a buffer allocation request and a
/// pitch query, each as a tag triple followed by its values.
pub fn lfb_message() -> (r: Message<LFB_MESSAGE_SIZE>)
    ensures
        r.0@ == spec_lfb_message_words(),
{
    let words: [u32; LFB_MESSAGE_SIZE] = [
        (LFB_MESSAGE_SIZE * 4) as u32,
        MBOX_REQUEST,
        FB_PHYSICAL_WH_TAG,
        8,
        8,
        FB_PHYSICAL_WIDTH,
        FB_PHYSICAL_HEIGHT,
        FB_VIRTUAL_WH_TAG,
        8,
        8,
        FB_VIRTUAL_WIDTH,
        FB_VIRTUAL_HEIGHT,
        FB_VIRTUAL_OFFSET_TAG,
        8,
        8,
        0,
        0,
        0x48005,
        4,
        4,
        32,
        0x48006,
        4,
        4,
        1,
        0x40001,
        8,
        8,
        4096,
        0,
        0x40008,
        4,
        4,
        0,
        LAST_TAG,
    ];
    let r = Message(words);
    proof {
        assert(r.0@ =~= spec_lfb_message_words());
    }
    r
}

/// The words of the frame-buffer initialisation message.
pub open spec fn spec_lfb_message_words() -> Seq<u32> {
    seq![
        140u32,
        MBOX_REQUEST,
        FB_PHYSICAL_WH_TAG,
        8u32,
        8u32,
        FB_PHYSICAL_WIDTH,
        FB_PHYSICAL_HEIGHT,
        FB_VIRTUAL_WH_TAG,
        8u32,
        8u32,
        FB_VIRTUAL_WIDTH,
        FB_VIRTUAL_HEIGHT,
        FB_VIRTUAL_OFFSET_TAG,
        8u32,
        8u32,
        0u32,
        0u32,
        0x48005u32,
        4u32,
        4u32,
        32u32,
        0x48006u32,
        4u32,
        4u32,
        1u32,
        0x40001u32,
        8u32,
        8u32,
        4096u32,
        0u32,
        0x40008u32,
        4u32,
        4u32,
        0u32,
        LAST_TAG,
    ]
}

/// Words in an offset-setting message.
pub const SET_VIRTUAL_FRAMEBUFFER_OFFSET_MESSAGE_SIZE: usize = 8;

/// The words of an offset message carrying the given tag and vertical
/// offset.
pub open spec fn spec_offset_message_words(tag: u32, offset_y: u32) -> Seq<u32> {
    seq![32u32, MBOX_REQUEST, tag, 8u32, 0u32, 0u32, offset_y, LAST_TAG]
}

/// The message that moves the virtual buffer window to vertical offset
/// `offset_y`, for double buffering.
pub fn get_set_virtual_framebuffer_offset_message(offset_y: u32)
    -> (r: Message<SET_VIRTUAL_FRAMEBUFFER_OFFSET_MESSAGE_SIZE>)
    ensures
        r.0@ == spec_offset_message_words(SET_VIRTUAL_BUFFER_OFFSET_TAG, offset_y),
{
    let words: [u32; SET_VIRTUAL_FRAMEBUFFER_OFFSET_MESSAGE_SIZE] = [
        (SET_VIRTUAL_FRAMEBUFFER_OFFSET_MESSAGE_SIZE * 4) as u32,
        MBOX_REQUEST,
        SET_VIRTUAL_BUFFER_OFFSET_TAG,
        8,
        0,
        0,
        offset_y,
        LAST_TAG,
    ];
    let r = Message(words);
    proof {
        assert(r.0@ =~= spec_offset_message_words(SET_VIRTUAL_BUFFER_OFFSET_TAG, offset_y));
    }
    r
}

/// The message that only tests a virtual buffer offset.
pub fn get_test_virtual_fb_offset_message(offset_y: u32)
    -> (r: Message<SET_VIRTUAL_FRAMEBUFFER_OFFSET_MESSAGE_SIZE>)
    ensures
        r.0@ == spec_offset_message_words(SET_VIRTUAL_BUFFER_OFFSET_TAG, offset_y),
{
    get_set_virtual_framebuffer_offset_message(offset_y)
}

/// Words in a clock-rate-setting message.
pub const GET_CLOCK_RATE_MESSAGE_SIZE: usize = 10;

/// The words of the message that sets the ARM clock to `new_clock_hz`,
/// leaving turbo alone.
pub open spec fn spec_set_clock_rate_words(new_clock_hz: u32) -> Seq<u32> {
    seq![40u32, MBOX_REQUEST, SET_CLOCK_RATE, 12u32, 0x1u32, new_clock_hz, 0u32, 0u32, LAST_TAG,
        0u32]
}

/// The message that sets the ARM clock rate.
pub fn get_set_clock_rate_message(new_clock_hz: u32) -> (r: Message<GET_CLOCK_RATE_MESSAGE_SIZE>)
    ensures
        r.0@ == spec_set_clock_rate_words(new_clock_hz),
{
    let words: [u32; GET_CLOCK_RATE_MESSAGE_SIZE] = [
        (GET_CLOCK_RATE_MESSAGE_SIZE * 4) as u32,
        MBOX_REQUEST,
        SET_CLOCK_RATE,
        12,
        0x1,
        new_clock_hz,
        0,
        0,
        LAST_TAG,
        0,
    ];
    let r = Message(words);
    proof {
        assert(r.0@ =~= spec_set_clock_rate_words(new_clock_hz));
    }
    r
}

/// Words in a maximum-clock-rate query.
pub const MAX_CLOCK_RATE_MESSAGE_SIZE: usize = 9;

/// The words of the query for the ARM core's maximum clock rate.
pub open spec fn spec_max_clock_rate_words() -> Seq<u32> {
    seq![36u32, MBOX_REQUEST, GET_MAX_CLOCK_RATE, 8u32, 8u32, 0x1u32, 0u32, LAST_TAG, 0u32]
}

/// The query for the ARM core's maximum clock rate.
pub fn max_clock_rate_message() -> (r: Message<MAX_CLOCK_RATE_MESSAGE_SIZE>)
    ensures
        r.0@ == spec_max_clock_rate_words(),
{
    let words: [u32; MAX_CLOCK_RATE_MESSAGE_SIZE] = [
        (MAX_CLOCK_RATE_MESSAGE_SIZE * 4) as u32,
        MBOX_REQUEST,
        GET_MAX_CLOCK_RATE,
        8,
        8,
        0x1,
        0,
        LAST_TAG,
        0,
    ];
    let r = Message(words);
    proof {
        assert(r.0@ =~= spec_max_clock_rate_words());
    }
    r
}

/// Words in a board-serial query.
pub const SERIAL_MESSAGE_SIZE: usize = 9;

/// The words of the board-serial query.
pub open spec fn spec_board_serial_words() -> Seq<u32> {
    seq![36u32, MBOX_REQUEST, BOARD_SERIAL_REQ, 8u32, 8u32, 8u32, 0u32, LAST_TAG, 0u32]
}

/// The query for the board's serial number.
pub fn board_serial_message() -> (r: Message<SERIAL_MESSAGE_SIZE>)
    ensures
        r.0@ == spec_board_serial_words(),
{
    let words: [u32; SERIAL_MESSAGE_SIZE] = [
        (SERIAL_MESSAGE_SIZE * 4) as u32,
        MBOX_REQUEST,
        BOARD_SERIAL_REQ,
        8,
        8,
        8,
        0,
        LAST_TAG,
        0,
    ];
    let r = Message(words);
    proof {
        assert(r.0@ =~= spec_board_serial_words());
    }
    r
}

/// The 64-bit serial number carried by a board-serial response: the low
/// word followed by the high word.
pub fn board_serial_from_response(message: &Message<SERIAL_MESSAGE_SIZE>) -> (r: u64)
    ensures
        r == message.0@[4] as u64 + (message.0@[5] as u64) * 0x1_0000_0000,
{
    let low = message.0[4] as u64;
    let high = message.0[5] as u64;
    proof {
        assert(high * 0x1_0000_0000 <= 0xFFFF_FFFF_0000_0000) by {
            vstd::arithmetic::mul::lemma_mul_inequality(
                high as int,
                0xFFFF_FFFFint,
                0x1_0000_0000int,
            );
        }
    }
    low + high * 0x1_0000_0000
}

/// The address word a message exchange uses: the message address with its
/// low four bits replaced by the channel number.
pub fn mailbox_call_address(message_addr: usize, channel: Channel) -> (r: usize)
    ensures
        r == (message_addr & !0x0Fusize) | (spec_channel_number(channel) as usize & 0x0Fusize),
{
    let addr_clear_last_4_bits = message_addr & !0x0F;
    let ch_clear_everything_but_last_4_bits = (channel.number() as usize) & 0xF;
    addr_clear_last_4_bits | ch_clear_everything_but_last_4_bits
}

} // verus!
