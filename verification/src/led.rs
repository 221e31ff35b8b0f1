//! The brightness curve of the status LED.

use vstd::prelude::*;

verus! {

/// Number of steps of the brightness curve.
pub const LED_STEPS: usize = 128;

/// The timer compare values of the brightness curve, darkest first.
pub const LED_BLINK_INTENSITY_LOOP: [u16; 128] = [
    0x0, 0x1, 0x1, 0x1, 0x1, 0x1, 0x2, 0x3,
    0x4, 0x5, 0x7, 0x9, 0xB, 0xE, 0x11, 0x14,
    0x18, 0x1C, 0x20, 0x24, 0x29, 0x2E, 0x34, 0x3A,
    0x40, 0x47, 0x4F, 0x56, 0x5F, 0x67, 0x70, 0x79,
    0x83, 0x8E, 0x99, 0xA5, 0xB1, 0xBD, 0xCA, 0xD7,
    0xE5, 0xF4, 0x103, 0x112, 0x123, 0x133, 0x144, 0x156,
    0x169, 0x17C, 0x18F, 0x1A3, 0x1B8, 0x1CD, 0x1E3, 0x1FA,
    0x211, 0x229, 0x242, 0x25B, 0x274, 0x28F, 0x2AA, 0x2C6,
    0x2E2, 0x2FF, 0x31D, 0x33B, 0x35B, 0x37A, 0x39B, 0x3BC,
    0x3DE, 0x400, 0x424, 0x448, 0x46D, 0x492, 0x4B8, 0x4DF,
    0x507, 0x530, 0x559, 0x583, 0x5AE, 0x5D9, 0x605, 0x632,
    0x660, 0x68F, 0x6BF, 0x6EF, 0x720, 0x751, 0x784, 0x7B8,
    0x7EC, 0x821, 0x857, 0x88E, 0x8C5, 0x8FE, 0x937, 0x971,
    0x9AC, 0x9E8, 0xA24, 0xA62, 0xAA0, 0xAE0, 0xB20, 0xB61,
    0xBA2, 0xBE5, 0xC29, 0xC6E, 0xCB3, 0xCF9, 0xD41, 0xD89,
    0xDD2, 0xE1C, 0xE67, 0xEB3, 0xF00, 0xF4D, 0xF9C, 0xFEC,
];

/// The compare value for a step of the curve; a step beyond the curve is
/// dark.
pub open spec fn intensity(tick: u8) -> u16 {
    if tick < LED_STEPS {
        LED_BLINK_INTENSITY_LOOP[tick as int]
    } else {
        0
    }
}

/// The step after `tick`, wrapping at the end of the curve.
pub open spec fn next_tick(tick: u8) -> u8 {
    (((tick + 1) % 256) % (LED_STEPS as int)) as u8
}

/// The compare value to load into the LED timer for `tick`.
pub fn tick_led_blink(tick: u8) -> (compare: u16)
    ensures
        compare == intensity(tick),
{
    if (tick as usize) < LED_STEPS {
        LED_BLINK_INTENSITY_LOOP[tick as usize]
    } else {
        0
    }
}

/// The step that follows `tick`, and the compare value to load for it.
pub fn led_advance_blink(tick: u8) -> (next: (u8, u16))
    ensures
        next.0 == next_tick(tick),
        next.1 == intensity(next.0),
{
    let step: u8 = tick.wrapping_add(1) % (LED_STEPS as u8);
    (step, tick_led_blink(step))
}

} // verus!
