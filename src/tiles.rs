//! Tile and screen images, as the display's pixel-data writes: each run
//! begins with the data control byte, then one byte per 8-pixel column.
use vstd::prelude::*;

verus! {

pub const FLOOR: [u8; 9] = [
    64, 0, 0, 0, 0, 0, 0, 0, 0,
];

pub const WALL: [u8; 9] = [
    64, 60, 60, 255, 255, 255, 255, 60, 60,
];

pub const STAIRS: [u8; 9] = [
    64, 0, 96, 96, 120, 120, 126, 126, 0,
];

pub const ENEMY: [u8; 9] = [
    64, 0, 56, 84, 84, 84, 24, 0, 0,
];

pub const PLAYER: [u8; 9] = [
    64, 0, 124, 130, 154, 186, 162, 156, 0,
];

pub const N0: [u8; 9] = [
    64, 0, 124, 162, 146, 138, 124, 0, 0,
];

pub const N1: [u8; 9] = [
    64, 0, 128, 132, 254, 128, 128, 0, 0,
];

pub const N2: [u8; 9] = [
    64, 0, 196, 162, 146, 146, 140, 0, 0,
];

pub const N3: [u8; 9] = [
    64, 0, 68, 130, 146, 146, 108, 0, 0,
];

pub const N4: [u8; 9] = [
    64, 0, 48, 40, 36, 34, 254, 0, 0,
];

pub const N5: [u8; 9] = [
    64, 0, 78, 138, 138, 138, 114, 0, 0,
];

pub const N6: [u8; 9] = [
    64, 0, 120, 148, 146, 146, 96, 0, 0,
];

pub const N7: [u8; 9] = [
    64, 0, 6, 2, 226, 18, 14, 0, 0,
];

pub const N8: [u8; 9] = [
    64, 0, 108, 146, 146, 146, 108, 0, 0,
];

pub const N9: [u8; 9] = [
    64, 0, 12, 146, 146, 82, 60, 0, 0,
];

pub const TITLE_SCREEN: [u8; 1058] = [
    64, 0, 0, 0, 0, 0, 0, 0, 0, 0, 0, 0, 0, 0, 0, 0,
    0, 0, 0, 0, 0, 0, 0, 0, 0, 0, 0, 0, 0, 0, 0, 0,
    64, 0, 0, 0, 0, 0, 0, 0, 0, 0, 0, 0, 0, 0, 0, 0,
    0, 0, 0, 0, 0, 0, 0, 0, 0, 0, 0, 0, 0, 0, 0, 0,
    64, 0, 0, 0, 0, 0, 0, 0, 0, 0, 0, 0, 0, 0, 0, 0,
    0, 0, 0, 0, 0, 0, 0, 0, 0, 0, 0, 0, 0, 0, 0, 0,
    64, 0, 0, 0, 0, 0, 0, 0, 0, 0, 0, 0, 0, 0, 0, 0,
    0, 0, 0, 0, 0, 0, 0, 0, 0, 0, 0, 0, 0, 0, 0, 0,
    64, 0, 0, 0, 0, 0, 0, 0, 0, 0, 0, 0, 0, 16, 16, 240,
    240, 240, 240, 208, 176, 16, 0, 16, 16, 240, 48, 208, 80, 32, 0, 0,
    64, 0, 0, 0, 0, 0, 16, 144, 240, 240, 240, 240, 240, 16, 0, 0,
    0, 0, 0, 0, 0, 0, 0, 16, 16, 240, 240, 240, 240, 208, 176, 16,
    64, 0, 16, 16, 240, 48, 208, 80, 32, 0, 0, 0, 192, 224, 96, 176,
    208, 80, 80, 80, 176, 96, 224, 224, 64, 128, 0, 0, 0, 64, 32, 224,
    64, 224, 240, 16, 208, 80, 80, 80, 80, 176, 96, 224, 192, 128, 0, 0,
    0, 16, 16, 240, 240, 240, 240, 48, 0, 0, 0, 0, 0, 0, 0, 0,
    64, 0, 0, 0, 0, 0, 0, 0, 0, 0, 0, 0, 0, 0, 0, 0,
    0, 0, 0, 255, 0, 255, 7, 31, 127, 254, 216, 224, 0, 255, 0, 255,
    64, 0, 0, 0, 0, 0, 0, 56, 180, 248, 252, 247, 78, 129, 135, 255,
    255, 251, 252, 184, 112, 120, 64, 0, 0, 0, 0, 0, 0, 255, 0, 255,
    64, 7, 31, 127, 254, 216, 224, 0, 255, 0, 255, 0, 0, 0, 252, 255,
    255, 1, 254, 3, 0, 0, 0, 0, 0, 0, 1, 255, 255, 255, 252, 0,
    64, 0, 192, 64, 255, 255, 255, 96, 127, 160, 160, 160, 240, 240, 56, 31,
    31, 7, 0, 0, 0, 0, 0, 255, 255, 255, 255, 0, 0, 0, 0, 0,
    64, 0, 0, 0, 0, 0, 0, 0, 0, 0, 0, 0, 0, 0, 0, 0,
    0, 0, 0, 0, 128, 192, 224, 255, 224, 223, 224, 128, 128, 1, 15, 63,
    64, 253, 255, 128, 255, 0, 0, 128, 192, 224, 240, 252, 255, 255, 193, 129,
    3, 14, 7, 3, 129, 199, 255, 255, 251, 252, 224, 192, 128, 128, 128, 192,
    64, 224, 255, 224, 223, 224, 128, 128, 1, 15, 63, 253, 255, 128, 255, 0,
    0, 0, 1, 7, 31, 92, 183, 120, 224, 192, 192, 192, 224, 112, 124, 63,
    64, 31, 15, 1, 0, 0, 129, 193, 255, 255, 255, 192, 255, 192, 128, 0,
    1, 15, 255, 252, 248, 224, 64, 192, 128, 128, 192, 255, 255, 255, 255, 192,
    64, 192, 192, 192, 224, 240, 252, 244, 216, 224, 0, 0, 0, 0, 0, 0,
    0, 0, 0, 0, 0, 0, 0, 0, 0, 0, 0, 0, 0, 0, 0, 0,
    64, 0, 0, 0, 0, 0, 0, 0, 0, 0, 0, 0, 0, 0, 0, 0,
    0, 0, 0, 0, 0, 0, 0, 0, 0, 0, 0, 0, 0, 0, 0, 0,
    64, 0, 0, 0, 0, 0, 0, 0, 0, 0, 0, 0, 0, 0, 0, 0,
    0, 0, 0, 0, 0, 0, 0, 0, 0, 0, 0, 0, 0, 0, 0, 0,
    64, 0, 0, 0, 0, 0, 0, 0, 0, 0, 0, 0, 0, 0, 0, 0,
    0, 0, 0, 1, 0, 0, 3, 3, 2, 1, 1, 0, 0, 0, 0, 0,
    64, 0, 0, 0, 0, 0, 0, 0, 0, 0, 0, 0, 0, 0, 0, 0,
    0, 0, 0, 0, 0, 0, 0, 0, 0, 0, 0, 0, 0, 0, 0, 0,
    64, 0, 0, 0, 0, 0, 0, 0, 0, 0, 0, 0, 0, 0, 0, 0,
    0, 0, 240, 80, 80, 80, 32, 0, 240, 80, 80, 80, 160, 0, 240, 80,
    64, 80, 16, 16, 0, 32, 80, 80, 80, 144, 0, 32, 80, 80, 80, 144,
    0, 0, 0, 224, 80, 80, 80, 224, 0, 240, 32, 64, 128, 240, 0, 16,
    64, 32, 192, 32, 16, 0, 0, 0, 240, 64, 64, 160, 16, 0, 240, 80,
    80, 16, 16, 0, 16, 32, 192, 32, 16, 0, 0, 0, 0, 0, 0, 0,
    64, 0, 0, 0, 0, 0, 0, 0, 0, 0, 0, 0, 0, 0, 0, 0,
    0, 0, 0, 0, 0, 0, 0, 0, 0, 0, 0, 0, 0, 0, 0, 0,
    64, 0, 0, 0, 0, 0, 0, 0, 0, 0, 0, 0, 0, 0, 0, 0,
    0, 0, 0, 0, 0, 0, 7, 0, 0, 0, 0, 0, 7, 0, 0, 0,
    64, 7, 0, 7, 4, 4, 4, 4, 0, 2, 4, 4, 4, 3, 0, 2,
    4, 4, 4, 3, 0, 0, 0, 7, 0, 0, 0, 7, 0, 7, 0, 0,
    64, 0, 7, 0, 0, 0, 7, 0, 0, 0, 0, 0, 7, 0, 0, 0,
    7, 0, 7, 4, 4, 4, 4, 0, 0, 0, 7, 0, 0, 0, 0, 0,
    64, 0, 0, 0, 0, 0, 0, 0, 0, 0, 0, 0, 0, 0, 0, 0,
    0, 0, 0, 0, 0, 0, 0, 0, 0, 0, 0, 0, 0, 0, 0, 0,
    64, 0, 0, 0, 0, 0, 0, 0, 0, 0, 0, 0, 0, 0, 0, 0,
    0, 0, 0, 0, 0, 0, 0, 0, 0, 0, 0, 0, 0, 0, 0, 0,
    64, 0, 0, 0, 0, 0, 0, 0, 0, 0, 0, 0, 0, 0, 0, 0,
    0, 0, 0, 0, 0, 0, 0, 0, 0, 0, 0, 0, 0, 0, 0, 0,
    64, 0, 0, 0, 0, 0, 0, 0, 0, 0, 0, 0, 0, 0, 0, 0,
    0, 0, 0, 0, 0, 0, 0, 0, 0, 0, 0, 0, 0, 0, 0, 0,
    64, 0, 0, 0, 0, 0, 0, 0, 0, 0, 0, 0, 0, 0, 0, 0,
    0, 0, 0, 0, 0, 0, 0, 0, 0, 0, 0, 0, 0, 0, 0, 0,
    64, 0,
];

pub const GAME_OVER: [u8; 1058] = [
    64, 0, 0, 0, 0, 0, 0, 0, 0, 0, 0, 0, 0, 0, 0, 0,
    0, 0, 0, 0, 0, 0, 0, 0, 0, 0, 0, 0, 0, 0, 0, 0,
    64, 0, 0, 0, 0, 0, 0, 0, 0, 0, 0, 0, 0, 0, 0, 0,
    0, 0, 0, 0, 0, 0, 0, 0, 0, 0, 0, 0, 0, 0, 0, 0,
    64, 0, 0, 0, 0, 0, 0, 0, 0, 0, 0, 0, 0, 0, 0, 0,
    0, 0, 0, 0, 0, 0, 0, 0, 0, 0, 0, 0, 0, 0, 0, 0,
    64, 0, 0, 0, 0, 0, 0, 0, 0, 0, 0, 0, 0, 0, 0, 0,
    0, 0, 0, 0, 0, 0, 0, 0, 0, 0, 0, 0, 0, 0, 0, 0,
    64, 0, 0, 0, 0, 0, 0, 0, 0, 0, 0, 0, 0, 0, 0, 0,
    0, 0, 32, 96, 224, 224, 224, 160, 0, 0, 0, 0, 0, 200, 248, 60,
    64, 20, 10, 6, 128, 192, 192, 224, 96, 96, 96, 192, 224, 192, 128, 0,
    0, 32, 32, 224, 224, 32, 224, 32, 0, 0, 32, 32, 224, 160, 96, 64,
    64, 0, 0, 0, 0, 0, 0, 0, 32, 224, 224, 32, 160, 160, 160, 224,
    96, 192, 192, 128, 0, 32, 32, 224, 224, 224, 32, 0, 32, 32, 224, 224,
    64, 32, 32, 160, 160, 160, 160, 224, 224, 96, 32, 0, 0, 32, 224, 224,
    32, 160, 160, 160, 224, 96, 192, 192, 128, 0, 0, 0, 0, 0, 0, 0,
    64, 0, 0, 0, 0, 0, 0, 0, 0, 0, 0, 0, 0, 0, 0, 0,
    0, 0, 0, 0, 0, 0, 0, 0, 0, 3, 7, 31, 254, 244, 248, 30,
    64, 7, 3, 0, 0, 0, 0, 254, 255, 255, 254, 1, 0, 0, 0, 0,
    255, 255, 255, 254, 0, 0, 0, 255, 255, 0, 255, 0, 0, 0, 0, 0,
    64, 255, 255, 0, 0, 0, 0, 0, 0, 0, 0, 0, 0, 255, 255, 0,
    255, 0, 0, 0, 0, 1, 255, 255, 254, 0, 0, 255, 255, 255, 0, 0,
    64, 112, 40, 255, 255, 8, 8, 239, 40, 40, 126, 0, 1, 0, 0, 0,
    0, 0, 255, 255, 0, 255, 0, 0, 0, 0, 1, 255, 255, 254, 0, 0,
    64, 0, 0, 0, 0, 0, 0, 0, 0, 0, 0, 0, 0, 0, 0, 0,
    0, 0, 0, 0, 0, 0, 0, 0, 0, 0, 0, 0, 0, 16, 16, 24,
    64, 31, 31, 31, 24, 16, 0, 0, 0, 0, 0, 0, 3, 7, 23, 30,
    24, 24, 28, 30, 15, 7, 3, 0, 0, 0, 0, 3, 23, 28, 27, 28,
    64, 24, 24, 24, 14, 15, 7, 0, 0, 0, 0, 0, 0, 0, 0, 16,
    24, 31, 31, 24, 31, 24, 24, 24, 12, 15, 7, 3, 0, 16, 24, 31,
    64, 31, 31, 24, 16, 16, 8, 31, 31, 24, 24, 31, 24, 24, 24, 28,
    31, 29, 30, 24, 16, 24, 31, 31, 24, 31, 24, 24, 24, 12, 15, 7,
    64, 3, 0, 0, 0, 0, 0, 0, 0, 0, 0, 0, 0, 0, 0, 0,
    0, 0, 0, 0, 0, 0, 0, 0, 0, 0, 0, 0, 0, 0, 0, 0,
    64, 0, 0, 0, 0, 0, 0, 0, 0, 0, 0, 0, 0, 0, 0, 0,
    0, 0, 0, 0, 0, 0, 0, 0, 0, 0, 0, 0, 0, 0, 0, 0,
    64, 0, 0, 0, 0, 0, 0, 0, 0, 0, 0, 0, 0, 0, 0, 0,
    0, 0, 0, 0, 0, 0, 0, 0, 0, 0, 0, 0, 0, 0, 0, 0,
    64, 0, 0, 0, 0, 0, 0, 0, 0, 0, 0, 0, 0, 0, 0, 0,
    0, 0, 0, 0, 0, 0, 0, 0, 0, 0, 0, 0, 0, 0, 0, 0,
    64, 0, 0, 0, 0, 0, 0, 0, 0, 0, 0, 0, 0, 0, 0, 0,
    0, 0, 0, 0, 0, 0, 0, 0, 0, 0, 0, 0, 0, 0, 0, 0,
    64, 0, 0, 0, 0, 0, 0, 0, 0, 0, 0, 0, 0, 0, 0, 0,
    0, 0, 124, 130, 130, 130, 124, 0, 254, 4, 8, 16, 254, 0, 0, 0,
    64, 254, 128, 128, 128, 128, 0, 254, 138, 138, 130, 130, 0, 30, 96, 128,
    96, 30, 0, 254, 138, 138, 130, 130, 0, 254, 128, 128, 128, 128, 0, 0,
    64, 0, 0, 0, 0, 0, 0, 0, 0, 0, 0, 0, 0, 0, 0, 0,
    0, 0, 0, 0, 0, 0, 0, 0, 0, 0, 0, 0, 0, 0, 0, 0,
    64, 0, 0, 0, 0, 0, 0, 0, 0, 0, 0, 0, 0, 0, 0, 0,
    0, 0, 0, 0, 0, 0, 0, 0, 0, 0, 0, 0, 0, 0, 0, 0,
    64, 0, 0, 0, 0, 0, 0, 0, 0, 0, 0, 0, 0, 0, 0, 0,
    0, 0, 0, 0, 0, 0, 0, 0, 0, 0, 0, 0, 0, 0, 0, 0,
    64, 0, 0, 0, 0, 0, 0, 0, 0, 0, 0, 0, 0, 0, 0, 0,
    0, 0, 0, 0, 0, 0, 0, 0, 0, 0, 0, 0, 0, 0, 0, 0,
    64, 0, 0, 0, 0, 0, 0, 0, 0, 0, 0, 0, 0, 0, 0, 0,
    0, 0, 0, 0, 0, 0, 0, 0, 0, 0, 0, 0, 0, 0, 0, 0,
    64, 0, 0, 0, 0, 0, 0, 0, 0, 0, 0, 0, 0, 0, 0, 0,
    0, 0, 0, 0, 0, 0, 0, 0, 0, 0, 0, 0, 0, 0, 0, 0,
    64, 0, 0, 0, 0, 0, 0, 0, 0, 0, 0, 0, 0, 0, 0, 0,
    0, 0, 0, 0, 0, 0, 0, 0, 0, 0, 0, 0, 0, 0, 0, 0,
    64, 0, 0, 0, 0, 0, 0, 0, 0, 0, 0, 0, 0, 0, 0, 0,
    0, 0, 0, 0, 0, 0, 0, 0, 0, 0, 0, 0, 0, 0, 0, 0,
    64, 0, 0, 0, 0, 0, 0, 0, 0, 0, 0, 0, 0, 0, 0, 0,
    0, 0, 0, 0, 0, 0, 0, 0, 0, 0, 0, 0, 0, 0, 0, 0,
    64, 0, 0, 0, 0, 0, 0, 0, 0, 0, 0, 0, 0, 0, 0, 0,
    0, 0, 0, 0, 0, 0, 0, 0, 0, 0, 0, 0, 0, 0, 0, 0,
    64, 0,
];

} // verus!
