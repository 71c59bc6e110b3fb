use vstd::prelude::*;

verus! {

/// Gain is held as a whole number of millionths: `GAIN_UNIT` stands for a gain of 1.0.
pub const GAIN_UNIT: u32 = 1000000;

/// Number of frames in the knob's sprite sheet.
pub const KNOB_FRAMES: u32 = 100;

/// Capacity of each direction of the channel pair.
pub const CHANNEL_CAPACITY: usize = 128;

/// `v` limited to the valid gain range `[0, GAIN_UNIT]`.
pub open spec fn clamp_spec(v: int) -> int {
    if v < 0 {
        0
    } else if v > GAIN_UNIT as int {
        GAIN_UNIT as int
    } else {
        v
    }
}

/// Division rounding toward zero, for a positive divisor.
pub open spec fn div_toward_zero(n: int, d: int) -> int {
    if n >= 0 {
        n / d
    } else {
        -((-n) / d)
    }
}

/// The gain change of a drag: the vertical distance travelled upward, over two
/// thirds of the window's height, in gain units.
pub open spec fn drag_offset_spec(start_y: int, cursor_y: int, window_height: int) -> int {
    div_toward_zero(3 * (start_y - cursor_y) * GAIN_UNIT as int, 2 * window_height)
}

/// The sprite frame that shows `gain`: the gain's share of the frames, rounded down,
/// kept below the frame count.
pub open spec fn frame_index_spec(frame_count: int, gain: int) -> int {
    let f = frame_count * gain / GAIN_UNIT as int;
    if f < 0 {
        0
    } else if f > frame_count - 1 {
        frame_count - 1
    } else {
        f
    }
}

/// Limits a gain to `[0, GAIN_UNIT]`.
pub fn clamp_gain(v: i64) -> (r: u32)
    ensures
        r as int == clamp_spec(v as int),
        r <= GAIN_UNIT,
{
    if v < 0 {
        0
    } else if v > GAIN_UNIT as i64 {
        GAIN_UNIT
    } else {
        v as u32
    }
}

/// The gain change of a drag from `start_y` to `cursor_y` in a window of the given height.
pub fn drag_offset(start_y: i32, cursor_y: i32, window_height: u32) -> (r: i64)
    requires
        window_height > 0,
    ensures
        r as int == drag_offset_spec(start_y as int, cursor_y as int, window_height as int),
{
    let delta: i64 = start_y as i64 - cursor_y as i64;
    let den: i64 = 2 * window_height as i64;
    assert(-0x1_0000_0000 <= delta <= 0x1_0000_0000);
    assert(-0x1_0000_0000 * 3000000 <= 3 * delta * 1000000 <= 0x1_0000_0000 * 3000000)
        by (nonlinear_arith)
        requires
            -0x1_0000_0000 <= delta <= 0x1_0000_0000,
    ;
    let num: i64 = 3 * delta * (GAIN_UNIT as i64);
    if num >= 0 {
        num / den
    } else {
        let q: i64 = (-num) / den;
        -q
    }
}

/// The sprite frame that shows `gain` on a knob of `frame_count` frames.
pub fn frame_index(frame_count: u32, gain: u32) -> (r: u32)
    requires
        frame_count > 0,
        gain <= GAIN_UNIT,
    ensures
        r as int == frame_index_spec(frame_count as int, gain as int),
        r < frame_count,
{
    assert(frame_count as int * gain as int <= 0xffff_ffff * 1000000) by (nonlinear_arith)
        requires
            frame_count <= 0xffff_ffff,
            gain <= 1000000,
    ;
    assert(frame_count as int * gain as int >= 0) by (nonlinear_arith)
        requires
            frame_count >= 0,
            gain >= 0,
    ;
    let f: u64 = (frame_count as u64 * gain as u64) / (GAIN_UNIT as u64);
    if f > (frame_count - 1) as u64 {
        frame_count - 1
    } else {
        f as u32
    }
}

/// A computed gain already in range, the bounds included, is kept as it is; one
/// above the range becomes the full gain, one below it becomes zero.
pub proof fn lemma_clamp_boundary(v: int)
    ensures
        0 <= v <= GAIN_UNIT ==> clamp_spec(v) == v,
        clamp_spec(0) == 0,
        clamp_spec(GAIN_UNIT as int) == GAIN_UNIT,
        v > GAIN_UNIT ==> clamp_spec(v) == GAIN_UNIT,
        v < 0 ==> clamp_spec(v) == 0,
{
}

} // verus!
