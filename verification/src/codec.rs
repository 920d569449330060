//! The checks and settings around the Opus codec. The codec itself is a C library that the
//! caller links and calls.
use vstd::prelude::*;

verus! {

/// Largest frame the decoder is asked for: 120 ms at 48 kHz.
pub const MAX_DECODE_SAMPLES: usize = 5760;

/// Opus application for restricted low delay, used for the shortest frames.
pub const APPLICATION_LOW_DELAY: i32 = 2051;

/// Opus application for voice.
pub const APPLICATION_VOIP: i32 = 2048;

/// Whether an output buffer of `n` samples may be handed to the decoder.
pub fn decode_size_ok(n: usize) -> (r: bool)
    ensures
        r == (1 <= n <= MAX_DECODE_SAMPLES),
{
    n >= 1 && n <= MAX_DECODE_SAMPLES
}

/// Whether `n` samples form a frame the encoder takes: 5, 10 or 20 ms at 48 kHz.
pub fn encode_frame_ok(n: usize) -> (r: bool)
    ensures
        r == (n == 240 || n == 480 || n == 960),
{
    n == 240 || n == 480 || n == 960
}

/// The Opus application for an encoder: restricted low delay when asked, else voice.
pub fn application(low_delay: bool) -> (r: i32)
    ensures
        r == (if low_delay {
            APPLICATION_LOW_DELAY
        } else {
            APPLICATION_VOIP
        }),
{
    if low_delay {
        APPLICATION_LOW_DELAY
    } else {
        APPLICATION_VOIP
    }
}

/// The in-band FEC switch (1 on, 0 off) and the expected packet loss in percent for a
/// reported loss: FEC is on for any loss, and the loss is clamped to 0..=100.
pub fn fec_settings(loss: i32) -> (r: (i32, i32))
    ensures
        r.0 == (if loss > 0 {
            1i32
        } else {
            0i32
        }),
        r.1 == (if loss < 0 {
            0
        } else if loss > 100 {
            100
        } else {
            loss
        }),
{
    let on: i32 = if loss > 0 {
        1
    } else {
        0
    };
    let percent: i32 = if loss < 0 {
        0
    } else if loss > 100 {
        100
    } else {
        loss
    };
    (on, percent)
}

/// The sample or byte count that a codec call returned, or `None` for its negative error
/// codes.
pub fn codec_count(n: i32) -> (r: Option<usize>)
    ensures
        n >= 0 ==> r == Some(n as usize),
        n < 0 ==> r is None,
{
    if n >= 0 {
        Some(n as usize)
    } else {
        None
    }
}

} // verus!
