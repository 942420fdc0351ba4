use vstd::prelude::*;
use crate::fixed::round_div;
use crate::rect::IRect;
use crate::surface::{ImageSurface, Pixel, SurfaceType};

verus! {

/// The sRGB transfer function undone, on 8-bit channel values: the linear-light value of an
/// sRGB-encoded value, `255 * ((c / 255 + 0.055) / 1.055)^2.4` (or `c / 12.92` near black),
/// rounded to the nearest integer.
pub open spec fn linearize_value(c: u8) -> u8 {
    match c {
        0 => 0,
        1 => 0,
        2 => 0,
        3 => 0,
        4 => 0,
        5 => 0,
        6 => 0,
        7 => 1,
        8 => 1,
        9 => 1,
        10 => 1,
        11 => 1,
        12 => 1,
        13 => 1,
        14 => 1,
        15 => 1,
        16 => 1,
        17 => 1,
        18 => 2,
        19 => 2,
        20 => 2,
        21 => 2,
        22 => 2,
        23 => 2,
        24 => 2,
        25 => 2,
        26 => 3,
        27 => 3,
        28 => 3,
        29 => 3,
        30 => 3,
        31 => 3,
        32 => 4,
        33 => 4,
        34 => 4,
        35 => 4,
        36 => 4,
        37 => 5,
        38 => 5,
        39 => 5,
        40 => 5,
        41 => 6,
        42 => 6,
        43 => 6,
        44 => 6,
        45 => 7,
        46 => 7,
        47 => 7,
        48 => 8,
        49 => 8,
        50 => 8,
        51 => 8,
        52 => 9,
        53 => 9,
        54 => 9,
        55 => 10,
        56 => 10,
        57 => 10,
        58 => 11,
        59 => 11,
        60 => 12,
        61 => 12,
        62 => 12,
        63 => 13,
        64 => 13,
        65 => 13,
        66 => 14,
        67 => 14,
        68 => 15,
        69 => 15,
        70 => 16,
        71 => 16,
        72 => 17,
        73 => 17,
        74 => 17,
        75 => 18,
        76 => 18,
        77 => 19,
        78 => 19,
        79 => 20,
        80 => 20,
        81 => 21,
        82 => 22,
        83 => 22,
        84 => 23,
        85 => 23,
        86 => 24,
        87 => 24,
        88 => 25,
        89 => 25,
        90 => 26,
        91 => 27,
        92 => 27,
        93 => 28,
        94 => 29,
        95 => 29,
        96 => 30,
        97 => 30,
        98 => 31,
        99 => 32,
        100 => 32,
        101 => 33,
        102 => 34,
        103 => 35,
        104 => 35,
        105 => 36,
        106 => 37,
        107 => 37,
        108 => 38,
        109 => 39,
        110 => 40,
        111 => 41,
        112 => 41,
        113 => 42,
        114 => 43,
        115 => 44,
        116 => 45,
        117 => 45,
        118 => 46,
        119 => 47,
        120 => 48,
        121 => 49,
        122 => 50,
        123 => 51,
        124 => 51,
        125 => 52,
        126 => 53,
        127 => 54,
        128 => 55,
        129 => 56,
        130 => 57,
        131 => 58,
        132 => 59,
        133 => 60,
        134 => 61,
        135 => 62,
        136 => 63,
        137 => 64,
        138 => 65,
        139 => 66,
        140 => 67,
        141 => 68,
        142 => 69,
        143 => 70,
        144 => 71,
        145 => 72,
        146 => 73,
        147 => 74,
        148 => 76,
        149 => 77,
        150 => 78,
        151 => 79,
        152 => 80,
        153 => 81,
        154 => 82,
        155 => 84,
        156 => 85,
        157 => 86,
        158 => 87,
        159 => 88,
        160 => 90,
        161 => 91,
        162 => 92,
        163 => 93,
        164 => 95,
        165 => 96,
        166 => 97,
        167 => 99,
        168 => 100,
        169 => 101,
        170 => 103,
        171 => 104,
        172 => 105,
        173 => 107,
        174 => 108,
        175 => 109,
        176 => 111,
        177 => 112,
        178 => 114,
        179 => 115,
        180 => 116,
        181 => 118,
        182 => 119,
        183 => 121,
        184 => 122,
        185 => 124,
        186 => 125,
        187 => 127,
        188 => 128,
        189 => 130,
        190 => 131,
        191 => 133,
        192 => 134,
        193 => 136,
        194 => 138,
        195 => 139,
        196 => 141,
        197 => 142,
        198 => 144,
        199 => 146,
        200 => 147,
        201 => 149,
        202 => 151,
        203 => 152,
        204 => 154,
        205 => 156,
        206 => 157,
        207 => 159,
        208 => 161,
        209 => 163,
        210 => 164,
        211 => 166,
        212 => 168,
        213 => 170,
        214 => 171,
        215 => 173,
        216 => 175,
        217 => 177,
        218 => 179,
        219 => 181,
        220 => 183,
        221 => 184,
        222 => 186,
        223 => 188,
        224 => 190,
        225 => 192,
        226 => 194,
        227 => 196,
        228 => 198,
        229 => 200,
        230 => 202,
        231 => 204,
        232 => 206,
        233 => 208,
        234 => 210,
        235 => 212,
        236 => 214,
        237 => 216,
        238 => 218,
        239 => 220,
        240 => 222,
        241 => 224,
        242 => 226,
        243 => 229,
        244 => 231,
        245 => 233,
        246 => 235,
        247 => 237,
        248 => 239,
        249 => 242,
        250 => 244,
        251 => 246,
        252 => 248,
        253 => 250,
        254 => 253,
        _ => 255,
    }
}

/// The sRGB transfer function on 8-bit channel values: the sRGB encoding of a linear-light
/// value, `255 * (1.055 * (c / 255)^(1 / 2.4) - 0.055)` (or `12.92 * c` near black), rounded to
/// the nearest integer.
pub open spec fn unlinearize_value(c: u8) -> u8 {
    match c {
        0 => 0,
        1 => 13,
        2 => 22,
        3 => 28,
        4 => 34,
        5 => 38,
        6 => 42,
        7 => 46,
        8 => 50,
        9 => 53,
        10 => 56,
        11 => 59,
        12 => 61,
        13 => 64,
        14 => 66,
        15 => 69,
        16 => 71,
        17 => 73,
        18 => 75,
        19 => 77,
        20 => 79,
        21 => 81,
        22 => 83,
        23 => 85,
        24 => 86,
        25 => 88,
        26 => 90,
        27 => 92,
        28 => 93,
        29 => 95,
        30 => 96,
        31 => 98,
        32 => 99,
        33 => 101,
        34 => 102,
        35 => 104,
        36 => 105,
        37 => 106,
        38 => 108,
        39 => 109,
        40 => 110,
        41 => 112,
        42 => 113,
        43 => 114,
        44 => 115,
        45 => 117,
        46 => 118,
        47 => 119,
        48 => 120,
        49 => 121,
        50 => 122,
        51 => 124,
        52 => 125,
        53 => 126,
        54 => 127,
        55 => 128,
        56 => 129,
        57 => 130,
        58 => 131,
        59 => 132,
        60 => 133,
        61 => 134,
        62 => 135,
        63 => 136,
        64 => 137,
        65 => 138,
        66 => 139,
        67 => 140,
        68 => 141,
        69 => 142,
        70 => 143,
        71 => 144,
        72 => 145,
        73 => 146,
        74 => 147,
        75 => 148,
        76 => 148,
        77 => 149,
        78 => 150,
        79 => 151,
        80 => 152,
        81 => 153,
        82 => 154,
        83 => 155,
        84 => 155,
        85 => 156,
        86 => 157,
        87 => 158,
        88 => 159,
        89 => 159,
        90 => 160,
        91 => 161,
        92 => 162,
        93 => 163,
        94 => 163,
        95 => 164,
        96 => 165,
        97 => 166,
        98 => 167,
        99 => 167,
        100 => 168,
        101 => 169,
        102 => 170,
        103 => 170,
        104 => 171,
        105 => 172,
        106 => 173,
        107 => 173,
        108 => 174,
        109 => 175,
        110 => 175,
        111 => 176,
        112 => 177,
        113 => 178,
        114 => 178,
        115 => 179,
        116 => 180,
        117 => 180,
        118 => 181,
        119 => 182,
        120 => 182,
        121 => 183,
        122 => 184,
        123 => 185,
        124 => 185,
        125 => 186,
        126 => 187,
        127 => 187,
        128 => 188,
        129 => 189,
        130 => 189,
        131 => 190,
        132 => 190,
        133 => 191,
        134 => 192,
        135 => 192,
        136 => 193,
        137 => 194,
        138 => 194,
        139 => 195,
        140 => 196,
        141 => 196,
        142 => 197,
        143 => 197,
        144 => 198,
        145 => 199,
        146 => 199,
        147 => 200,
        148 => 200,
        149 => 201,
        150 => 202,
        151 => 202,
        152 => 203,
        153 => 203,
        154 => 204,
        155 => 205,
        156 => 205,
        157 => 206,
        158 => 206,
        159 => 207,
        160 => 208,
        161 => 208,
        162 => 209,
        163 => 209,
        164 => 210,
        165 => 210,
        166 => 211,
        167 => 212,
        168 => 212,
        169 => 213,
        170 => 213,
        171 => 214,
        172 => 214,
        173 => 215,
        174 => 215,
        175 => 216,
        176 => 216,
        177 => 217,
        178 => 218,
        179 => 218,
        180 => 219,
        181 => 219,
        182 => 220,
        183 => 220,
        184 => 221,
        185 => 221,
        186 => 222,
        187 => 222,
        188 => 223,
        189 => 223,
        190 => 224,
        191 => 224,
        192 => 225,
        193 => 226,
        194 => 226,
        195 => 227,
        196 => 227,
        197 => 228,
        198 => 228,
        199 => 229,
        200 => 229,
        201 => 230,
        202 => 230,
        203 => 231,
        204 => 231,
        205 => 232,
        206 => 232,
        207 => 233,
        208 => 233,
        209 => 234,
        210 => 234,
        211 => 235,
        212 => 235,
        213 => 236,
        214 => 236,
        215 => 237,
        216 => 237,
        217 => 238,
        218 => 238,
        219 => 238,
        220 => 239,
        221 => 239,
        222 => 240,
        223 => 240,
        224 => 241,
        225 => 241,
        226 => 242,
        227 => 242,
        228 => 243,
        229 => 243,
        230 => 244,
        231 => 244,
        232 => 245,
        233 => 245,
        234 => 246,
        235 => 246,
        236 => 246,
        237 => 247,
        238 => 247,
        239 => 248,
        240 => 248,
        241 => 249,
        242 => 249,
        243 => 250,
        244 => 250,
        245 => 251,
        246 => 251,
        247 => 251,
        248 => 252,
        249 => 252,
        250 => 253,
        251 => 253,
        252 => 254,
        253 => 254,
        254 => 255,
        _ => 255,
    }
}

pub open spec fn pow5(x: int) -> int {
    x * x * x * x * x
}

pub open spec fn pow12(x: int) -> int {
    pow5(x) * pow5(x) * x * x
}

/// `l` is `255 * f(c / 255)` rounded, for the sRGB decoding `f(s) = s / 12.92` when
/// `s <= 0.04045` and `f(s) = ((s + 0.055) / 1.055)^2.4` otherwise. In integers: near black,
/// `l` is within a half of `c / 12.92`; elsewhere, with `x = (c + 14.025) / 269.025`, the value
/// `x^(12/5)` lies between `(l - 1/2) / 255` and `(l + 1/2) / 255`, raised to the fifth power
/// to clear the fractional exponent.
pub open spec fn is_linearized(c: int, l: int) -> bool {
    if c <= 10 {
        -646 <= 1292 * l - 100 * c <= 646
    } else {
        &&& pow5(2 * l - 1) * pow12(269025) <= pow12(1000 * c + 14025) * pow5(510)
        &&& pow12(1000 * c + 14025) * pow5(510) <= pow5(2 * l + 1) * pow12(269025)
    }
}

/// `u` is `255 * g(v / 255)` rounded, for the sRGB encoding `g(t) = 12.92 * t` when
/// `t <= 0.0031308` and `g(t) = 1.055 * t^(1/2.4) - 0.055` otherwise. In integers: black stays
/// black; elsewhere `(v / 255)^(5/12)` lies between `(u - 1/2 + 14.025) / 269.025` and
/// `(u + 1/2 + 14.025) / 269.025`, raised to the twelfth power.
pub open spec fn is_unlinearized(v: int, u: int) -> bool {
    if v == 0 {
        u == 0
    } else {
        &&& pow12(2000 * u + 27050) * pow5(255) <= pow5(v) * pow12(538050)
        &&& pow5(v) * pow12(538050) <= pow12(2000 * u + 29050) * pow5(255)
    }
}

/// The linearization table is the sRGB decoding curve, rounded to 8 bits.
pub proof fn lemma_linearize_table(c: u8)
    ensures
        is_linearized(c as int, linearize_value(c) as int),
{
    match c {
        0 => assert(is_linearized(0, 0)) by (nonlinear_arith),
        1 => assert(is_linearized(1, 0)) by (nonlinear_arith),
        2 => assert(is_linearized(2, 0)) by (nonlinear_arith),
        3 => assert(is_linearized(3, 0)) by (nonlinear_arith),
        4 => assert(is_linearized(4, 0)) by (nonlinear_arith),
        5 => assert(is_linearized(5, 0)) by (nonlinear_arith),
        6 => assert(is_linearized(6, 0)) by (nonlinear_arith),
        7 => assert(is_linearized(7, 1)) by (nonlinear_arith),
        8 => assert(is_linearized(8, 1)) by (nonlinear_arith),
        9 => assert(is_linearized(9, 1)) by (nonlinear_arith),
        10 => assert(is_linearized(10, 1)) by (nonlinear_arith),
        11 => assert(is_linearized(11, 1)) by (nonlinear_arith),
        12 => assert(is_linearized(12, 1)) by (nonlinear_arith),
        13 => assert(is_linearized(13, 1)) by (nonlinear_arith),
        14 => assert(is_linearized(14, 1)) by (nonlinear_arith),
        15 => assert(is_linearized(15, 1)) by (nonlinear_arith),
        16 => assert(is_linearized(16, 1)) by (nonlinear_arith),
        17 => assert(is_linearized(17, 1)) by (nonlinear_arith),
        18 => assert(is_linearized(18, 2)) by (nonlinear_arith),
        19 => assert(is_linearized(19, 2)) by (nonlinear_arith),
        20 => assert(is_linearized(20, 2)) by (nonlinear_arith),
        21 => assert(is_linearized(21, 2)) by (nonlinear_arith),
        22 => assert(is_linearized(22, 2)) by (nonlinear_arith),
        23 => assert(is_linearized(23, 2)) by (nonlinear_arith),
        24 => assert(is_linearized(24, 2)) by (nonlinear_arith),
        25 => assert(is_linearized(25, 2)) by (nonlinear_arith),
        26 => assert(is_linearized(26, 3)) by (nonlinear_arith),
        27 => assert(is_linearized(27, 3)) by (nonlinear_arith),
        28 => assert(is_linearized(28, 3)) by (nonlinear_arith),
        29 => assert(is_linearized(29, 3)) by (nonlinear_arith),
        30 => assert(is_linearized(30, 3)) by (nonlinear_arith),
        31 => assert(is_linearized(31, 3)) by (nonlinear_arith),
        32 => assert(is_linearized(32, 4)) by (nonlinear_arith),
        33 => assert(is_linearized(33, 4)) by (nonlinear_arith),
        34 => assert(is_linearized(34, 4)) by (nonlinear_arith),
        35 => assert(is_linearized(35, 4)) by (nonlinear_arith),
        36 => assert(is_linearized(36, 4)) by (nonlinear_arith),
        37 => assert(is_linearized(37, 5)) by (nonlinear_arith),
        38 => assert(is_linearized(38, 5)) by (nonlinear_arith),
        39 => assert(is_linearized(39, 5)) by (nonlinear_arith),
        40 => assert(is_linearized(40, 5)) by (nonlinear_arith),
        41 => assert(is_linearized(41, 6)) by (nonlinear_arith),
        42 => assert(is_linearized(42, 6)) by (nonlinear_arith),
        43 => assert(is_linearized(43, 6)) by (nonlinear_arith),
        44 => assert(is_linearized(44, 6)) by (nonlinear_arith),
        45 => assert(is_linearized(45, 7)) by (nonlinear_arith),
        46 => assert(is_linearized(46, 7)) by (nonlinear_arith),
        47 => assert(is_linearized(47, 7)) by (nonlinear_arith),
        48 => assert(is_linearized(48, 8)) by (nonlinear_arith),
        49 => assert(is_linearized(49, 8)) by (nonlinear_arith),
        50 => assert(is_linearized(50, 8)) by (nonlinear_arith),
        51 => assert(is_linearized(51, 8)) by (nonlinear_arith),
        52 => assert(is_linearized(52, 9)) by (nonlinear_arith),
        53 => assert(is_linearized(53, 9)) by (nonlinear_arith),
        54 => assert(is_linearized(54, 9)) by (nonlinear_arith),
        55 => assert(is_linearized(55, 10)) by (nonlinear_arith),
        56 => assert(is_linearized(56, 10)) by (nonlinear_arith),
        57 => assert(is_linearized(57, 10)) by (nonlinear_arith),
        58 => assert(is_linearized(58, 11)) by (nonlinear_arith),
        59 => assert(is_linearized(59, 11)) by (nonlinear_arith),
        60 => assert(is_linearized(60, 12)) by (nonlinear_arith),
        61 => assert(is_linearized(61, 12)) by (nonlinear_arith),
        62 => assert(is_linearized(62, 12)) by (nonlinear_arith),
        63 => assert(is_linearized(63, 13)) by (nonlinear_arith),
        64 => assert(is_linearized(64, 13)) by (nonlinear_arith),
        65 => assert(is_linearized(65, 13)) by (nonlinear_arith),
        66 => assert(is_linearized(66, 14)) by (nonlinear_arith),
        67 => assert(is_linearized(67, 14)) by (nonlinear_arith),
        68 => assert(is_linearized(68, 15)) by (nonlinear_arith),
        69 => assert(is_linearized(69, 15)) by (nonlinear_arith),
        70 => assert(is_linearized(70, 16)) by (nonlinear_arith),
        71 => assert(is_linearized(71, 16)) by (nonlinear_arith),
        72 => assert(is_linearized(72, 17)) by (nonlinear_arith),
        73 => assert(is_linearized(73, 17)) by (nonlinear_arith),
        74 => assert(is_linearized(74, 17)) by (nonlinear_arith),
        75 => assert(is_linearized(75, 18)) by (nonlinear_arith),
        76 => assert(is_linearized(76, 18)) by (nonlinear_arith),
        77 => assert(is_linearized(77, 19)) by (nonlinear_arith),
        78 => assert(is_linearized(78, 19)) by (nonlinear_arith),
        79 => assert(is_linearized(79, 20)) by (nonlinear_arith),
        80 => assert(is_linearized(80, 20)) by (nonlinear_arith),
        81 => assert(is_linearized(81, 21)) by (nonlinear_arith),
        82 => assert(is_linearized(82, 22)) by (nonlinear_arith),
        83 => assert(is_linearized(83, 22)) by (nonlinear_arith),
        84 => assert(is_linearized(84, 23)) by (nonlinear_arith),
        85 => assert(is_linearized(85, 23)) by (nonlinear_arith),
        86 => assert(is_linearized(86, 24)) by (nonlinear_arith),
        87 => assert(is_linearized(87, 24)) by (nonlinear_arith),
        88 => assert(is_linearized(88, 25)) by (nonlinear_arith),
        89 => assert(is_linearized(89, 25)) by (nonlinear_arith),
        90 => assert(is_linearized(90, 26)) by (nonlinear_arith),
        91 => assert(is_linearized(91, 27)) by (nonlinear_arith),
        92 => assert(is_linearized(92, 27)) by (nonlinear_arith),
        93 => assert(is_linearized(93, 28)) by (nonlinear_arith),
        94 => assert(is_linearized(94, 29)) by (nonlinear_arith),
        95 => assert(is_linearized(95, 29)) by (nonlinear_arith),
        96 => assert(is_linearized(96, 30)) by (nonlinear_arith),
        97 => assert(is_linearized(97, 30)) by (nonlinear_arith),
        98 => assert(is_linearized(98, 31)) by (nonlinear_arith),
        99 => assert(is_linearized(99, 32)) by (nonlinear_arith),
        100 => assert(is_linearized(100, 32)) by (nonlinear_arith),
        101 => assert(is_linearized(101, 33)) by (nonlinear_arith),
        102 => assert(is_linearized(102, 34)) by (nonlinear_arith),
        103 => assert(is_linearized(103, 35)) by (nonlinear_arith),
        104 => assert(is_linearized(104, 35)) by (nonlinear_arith),
        105 => assert(is_linearized(105, 36)) by (nonlinear_arith),
        106 => assert(is_linearized(106, 37)) by (nonlinear_arith),
        107 => assert(is_linearized(107, 37)) by (nonlinear_arith),
        108 => assert(is_linearized(108, 38)) by (nonlinear_arith),
        109 => assert(is_linearized(109, 39)) by (nonlinear_arith),
        110 => assert(is_linearized(110, 40)) by (nonlinear_arith),
        111 => assert(is_linearized(111, 41)) by (nonlinear_arith),
        112 => assert(is_linearized(112, 41)) by (nonlinear_arith),
        113 => assert(is_linearized(113, 42)) by (nonlinear_arith),
        114 => assert(is_linearized(114, 43)) by (nonlinear_arith),
        115 => assert(is_linearized(115, 44)) by (nonlinear_arith),
        116 => assert(is_linearized(116, 45)) by (nonlinear_arith),
        117 => assert(is_linearized(117, 45)) by (nonlinear_arith),
        118 => assert(is_linearized(118, 46)) by (nonlinear_arith),
        119 => assert(is_linearized(119, 47)) by (nonlinear_arith),
        120 => assert(is_linearized(120, 48)) by (nonlinear_arith),
        121 => assert(is_linearized(121, 49)) by (nonlinear_arith),
        122 => assert(is_linearized(122, 50)) by (nonlinear_arith),
        123 => assert(is_linearized(123, 51)) by (nonlinear_arith),
        124 => assert(is_linearized(124, 51)) by (nonlinear_arith),
        125 => assert(is_linearized(125, 52)) by (nonlinear_arith),
        126 => assert(is_linearized(126, 53)) by (nonlinear_arith),
        127 => assert(is_linearized(127, 54)) by (nonlinear_arith),
        128 => assert(is_linearized(128, 55)) by (nonlinear_arith),
        129 => assert(is_linearized(129, 56)) by (nonlinear_arith),
        130 => assert(is_linearized(130, 57)) by (nonlinear_arith),
        131 => assert(is_linearized(131, 58)) by (nonlinear_arith),
        132 => assert(is_linearized(132, 59)) by (nonlinear_arith),
        133 => assert(is_linearized(133, 60)) by (nonlinear_arith),
        134 => assert(is_linearized(134, 61)) by (nonlinear_arith),
        135 => assert(is_linearized(135, 62)) by (nonlinear_arith),
        136 => assert(is_linearized(136, 63)) by (nonlinear_arith),
        137 => assert(is_linearized(137, 64)) by (nonlinear_arith),
        138 => assert(is_linearized(138, 65)) by (nonlinear_arith),
        139 => assert(is_linearized(139, 66)) by (nonlinear_arith),
        140 => assert(is_linearized(140, 67)) by (nonlinear_arith),
        141 => assert(is_linearized(141, 68)) by (nonlinear_arith),
        142 => assert(is_linearized(142, 69)) by (nonlinear_arith),
        143 => assert(is_linearized(143, 70)) by (nonlinear_arith),
        144 => assert(is_linearized(144, 71)) by (nonlinear_arith),
        145 => assert(is_linearized(145, 72)) by (nonlinear_arith),
        146 => assert(is_linearized(146, 73)) by (nonlinear_arith),
        147 => assert(is_linearized(147, 74)) by (nonlinear_arith),
        148 => assert(is_linearized(148, 76)) by (nonlinear_arith),
        149 => assert(is_linearized(149, 77)) by (nonlinear_arith),
        150 => assert(is_linearized(150, 78)) by (nonlinear_arith),
        151 => assert(is_linearized(151, 79)) by (nonlinear_arith),
        152 => assert(is_linearized(152, 80)) by (nonlinear_arith),
        153 => assert(is_linearized(153, 81)) by (nonlinear_arith),
        154 => assert(is_linearized(154, 82)) by (nonlinear_arith),
        155 => assert(is_linearized(155, 84)) by (nonlinear_arith),
        156 => assert(is_linearized(156, 85)) by (nonlinear_arith),
        157 => assert(is_linearized(157, 86)) by (nonlinear_arith),
        158 => assert(is_linearized(158, 87)) by (nonlinear_arith),
        159 => assert(is_linearized(159, 88)) by (nonlinear_arith),
        160 => assert(is_linearized(160, 90)) by (nonlinear_arith),
        161 => assert(is_linearized(161, 91)) by (nonlinear_arith),
        162 => assert(is_linearized(162, 92)) by (nonlinear_arith),
        163 => assert(is_linearized(163, 93)) by (nonlinear_arith),
        164 => assert(is_linearized(164, 95)) by (nonlinear_arith),
        165 => assert(is_linearized(165, 96)) by (nonlinear_arith),
        166 => assert(is_linearized(166, 97)) by (nonlinear_arith),
        167 => assert(is_linearized(167, 99)) by (nonlinear_arith),
        168 => assert(is_linearized(168, 100)) by (nonlinear_arith),
        169 => assert(is_linearized(169, 101)) by (nonlinear_arith),
        170 => assert(is_linearized(170, 103)) by (nonlinear_arith),
        171 => assert(is_linearized(171, 104)) by (nonlinear_arith),
        172 => assert(is_linearized(172, 105)) by (nonlinear_arith),
        173 => assert(is_linearized(173, 107)) by (nonlinear_arith),
        174 => assert(is_linearized(174, 108)) by (nonlinear_arith),
        175 => assert(is_linearized(175, 109)) by (nonlinear_arith),
        176 => assert(is_linearized(176, 111)) by (nonlinear_arith),
        177 => assert(is_linearized(177, 112)) by (nonlinear_arith),
        178 => assert(is_linearized(178, 114)) by (nonlinear_arith),
        179 => assert(is_linearized(179, 115)) by (nonlinear_arith),
        180 => assert(is_linearized(180, 116)) by (nonlinear_arith),
        181 => assert(is_linearized(181, 118)) by (nonlinear_arith),
        182 => assert(is_linearized(182, 119)) by (nonlinear_arith),
        183 => assert(is_linearized(183, 121)) by (nonlinear_arith),
        184 => assert(is_linearized(184, 122)) by (nonlinear_arith),
        185 => assert(is_linearized(185, 124)) by (nonlinear_arith),
        186 => assert(is_linearized(186, 125)) by (nonlinear_arith),
        187 => assert(is_linearized(187, 127)) by (nonlinear_arith),
        188 => assert(is_linearized(188, 128)) by (nonlinear_arith),
        189 => assert(is_linearized(189, 130)) by (nonlinear_arith),
        190 => assert(is_linearized(190, 131)) by (nonlinear_arith),
        191 => assert(is_linearized(191, 133)) by (nonlinear_arith),
        192 => assert(is_linearized(192, 134)) by (nonlinear_arith),
        193 => assert(is_linearized(193, 136)) by (nonlinear_arith),
        194 => assert(is_linearized(194, 138)) by (nonlinear_arith),
        195 => assert(is_linearized(195, 139)) by (nonlinear_arith),
        196 => assert(is_linearized(196, 141)) by (nonlinear_arith),
        197 => assert(is_linearized(197, 142)) by (nonlinear_arith),
        198 => assert(is_linearized(198, 144)) by (nonlinear_arith),
        199 => assert(is_linearized(199, 146)) by (nonlinear_arith),
        200 => assert(is_linearized(200, 147)) by (nonlinear_arith),
        201 => assert(is_linearized(201, 149)) by (nonlinear_arith),
        202 => assert(is_linearized(202, 151)) by (nonlinear_arith),
        203 => assert(is_linearized(203, 152)) by (nonlinear_arith),
        204 => assert(is_linearized(204, 154)) by (nonlinear_arith),
        205 => assert(is_linearized(205, 156)) by (nonlinear_arith),
        206 => assert(is_linearized(206, 157)) by (nonlinear_arith),
        207 => assert(is_linearized(207, 159)) by (nonlinear_arith),
        208 => assert(is_linearized(208, 161)) by (nonlinear_arith),
        209 => assert(is_linearized(209, 163)) by (nonlinear_arith),
        210 => assert(is_linearized(210, 164)) by (nonlinear_arith),
        211 => assert(is_linearized(211, 166)) by (nonlinear_arith),
        212 => assert(is_linearized(212, 168)) by (nonlinear_arith),
        213 => assert(is_linearized(213, 170)) by (nonlinear_arith),
        214 => assert(is_linearized(214, 171)) by (nonlinear_arith),
        215 => assert(is_linearized(215, 173)) by (nonlinear_arith),
        216 => assert(is_linearized(216, 175)) by (nonlinear_arith),
        217 => assert(is_linearized(217, 177)) by (nonlinear_arith),
        218 => assert(is_linearized(218, 179)) by (nonlinear_arith),
        219 => assert(is_linearized(219, 181)) by (nonlinear_arith),
        220 => assert(is_linearized(220, 183)) by (nonlinear_arith),
        221 => assert(is_linearized(221, 184)) by (nonlinear_arith),
        222 => assert(is_linearized(222, 186)) by (nonlinear_arith),
        223 => assert(is_linearized(223, 188)) by (nonlinear_arith),
        224 => assert(is_linearized(224, 190)) by (nonlinear_arith),
        225 => assert(is_linearized(225, 192)) by (nonlinear_arith),
        226 => assert(is_linearized(226, 194)) by (nonlinear_arith),
        227 => assert(is_linearized(227, 196)) by (nonlinear_arith),
        228 => assert(is_linearized(228, 198)) by (nonlinear_arith),
        229 => assert(is_linearized(229, 200)) by (nonlinear_arith),
        230 => assert(is_linearized(230, 202)) by (nonlinear_arith),
        231 => assert(is_linearized(231, 204)) by (nonlinear_arith),
        232 => assert(is_linearized(232, 206)) by (nonlinear_arith),
        233 => assert(is_linearized(233, 208)) by (nonlinear_arith),
        234 => assert(is_linearized(234, 210)) by (nonlinear_arith),
        235 => assert(is_linearized(235, 212)) by (nonlinear_arith),
        236 => assert(is_linearized(236, 214)) by (nonlinear_arith),
        237 => assert(is_linearized(237, 216)) by (nonlinear_arith),
        238 => assert(is_linearized(238, 218)) by (nonlinear_arith),
        239 => assert(is_linearized(239, 220)) by (nonlinear_arith),
        240 => assert(is_linearized(240, 222)) by (nonlinear_arith),
        241 => assert(is_linearized(241, 224)) by (nonlinear_arith),
        242 => assert(is_linearized(242, 226)) by (nonlinear_arith),
        243 => assert(is_linearized(243, 229)) by (nonlinear_arith),
        244 => assert(is_linearized(244, 231)) by (nonlinear_arith),
        245 => assert(is_linearized(245, 233)) by (nonlinear_arith),
        246 => assert(is_linearized(246, 235)) by (nonlinear_arith),
        247 => assert(is_linearized(247, 237)) by (nonlinear_arith),
        248 => assert(is_linearized(248, 239)) by (nonlinear_arith),
        249 => assert(is_linearized(249, 242)) by (nonlinear_arith),
        250 => assert(is_linearized(250, 244)) by (nonlinear_arith),
        251 => assert(is_linearized(251, 246)) by (nonlinear_arith),
        252 => assert(is_linearized(252, 248)) by (nonlinear_arith),
        253 => assert(is_linearized(253, 250)) by (nonlinear_arith),
        254 => assert(is_linearized(254, 253)) by (nonlinear_arith),
        _ => assert(is_linearized(255, 255)) by (nonlinear_arith),
    }
}

/// The unlinearization table is the sRGB encoding curve, rounded to 8 bits.
pub proof fn lemma_unlinearize_table(v: u8)
    ensures
        is_unlinearized(v as int, unlinearize_value(v) as int),
{
    match v {
        0 => assert(is_unlinearized(0, 0)) by (nonlinear_arith),
        1 => assert(is_unlinearized(1, 13)) by (nonlinear_arith),
        2 => assert(is_unlinearized(2, 22)) by (nonlinear_arith),
        3 => assert(is_unlinearized(3, 28)) by (nonlinear_arith),
        4 => assert(is_unlinearized(4, 34)) by (nonlinear_arith),
        5 => assert(is_unlinearized(5, 38)) by (nonlinear_arith),
        6 => assert(is_unlinearized(6, 42)) by (nonlinear_arith),
        7 => assert(is_unlinearized(7, 46)) by (nonlinear_arith),
        8 => assert(is_unlinearized(8, 50)) by (nonlinear_arith),
        9 => assert(is_unlinearized(9, 53)) by (nonlinear_arith),
        10 => assert(is_unlinearized(10, 56)) by (nonlinear_arith),
        11 => assert(is_unlinearized(11, 59)) by (nonlinear_arith),
        12 => assert(is_unlinearized(12, 61)) by (nonlinear_arith),
        13 => assert(is_unlinearized(13, 64)) by (nonlinear_arith),
        14 => assert(is_unlinearized(14, 66)) by (nonlinear_arith),
        15 => assert(is_unlinearized(15, 69)) by (nonlinear_arith),
        16 => assert(is_unlinearized(16, 71)) by (nonlinear_arith),
        17 => assert(is_unlinearized(17, 73)) by (nonlinear_arith),
        18 => assert(is_unlinearized(18, 75)) by (nonlinear_arith),
        19 => assert(is_unlinearized(19, 77)) by (nonlinear_arith),
        20 => assert(is_unlinearized(20, 79)) by (nonlinear_arith),
        21 => assert(is_unlinearized(21, 81)) by (nonlinear_arith),
        22 => assert(is_unlinearized(22, 83)) by (nonlinear_arith),
        23 => assert(is_unlinearized(23, 85)) by (nonlinear_arith),
        24 => assert(is_unlinearized(24, 86)) by (nonlinear_arith),
        25 => assert(is_unlinearized(25, 88)) by (nonlinear_arith),
        26 => assert(is_unlinearized(26, 90)) by (nonlinear_arith),
        27 => assert(is_unlinearized(27, 92)) by (nonlinear_arith),
        28 => assert(is_unlinearized(28, 93)) by (nonlinear_arith),
        29 => assert(is_unlinearized(29, 95)) by (nonlinear_arith),
        30 => assert(is_unlinearized(30, 96)) by (nonlinear_arith),
        31 => assert(is_unlinearized(31, 98)) by (nonlinear_arith),
        32 => assert(is_unlinearized(32, 99)) by (nonlinear_arith),
        33 => assert(is_unlinearized(33, 101)) by (nonlinear_arith),
        34 => assert(is_unlinearized(34, 102)) by (nonlinear_arith),
        35 => assert(is_unlinearized(35, 104)) by (nonlinear_arith),
        36 => assert(is_unlinearized(36, 105)) by (nonlinear_arith),
        37 => assert(is_unlinearized(37, 106)) by (nonlinear_arith),
        38 => assert(is_unlinearized(38, 108)) by (nonlinear_arith),
        39 => assert(is_unlinearized(39, 109)) by (nonlinear_arith),
        40 => assert(is_unlinearized(40, 110)) by (nonlinear_arith),
        41 => assert(is_unlinearized(41, 112)) by (nonlinear_arith),
        42 => assert(is_unlinearized(42, 113)) by (nonlinear_arith),
        43 => assert(is_unlinearized(43, 114)) by (nonlinear_arith),
        44 => assert(is_unlinearized(44, 115)) by (nonlinear_arith),
        45 => assert(is_unlinearized(45, 117)) by (nonlinear_arith),
        46 => assert(is_unlinearized(46, 118)) by (nonlinear_arith),
        47 => assert(is_unlinearized(47, 119)) by (nonlinear_arith),
        48 => assert(is_unlinearized(48, 120)) by (nonlinear_arith),
        49 => assert(is_unlinearized(49, 121)) by (nonlinear_arith),
        50 => assert(is_unlinearized(50, 122)) by (nonlinear_arith),
        51 => assert(is_unlinearized(51, 124)) by (nonlinear_arith),
        52 => assert(is_unlinearized(52, 125)) by (nonlinear_arith),
        53 => assert(is_unlinearized(53, 126)) by (nonlinear_arith),
        54 => assert(is_unlinearized(54, 127)) by (nonlinear_arith),
        55 => assert(is_unlinearized(55, 128)) by (nonlinear_arith),
        56 => assert(is_unlinearized(56, 129)) by (nonlinear_arith),
        57 => assert(is_unlinearized(57, 130)) by (nonlinear_arith),
        58 => assert(is_unlinearized(58, 131)) by (nonlinear_arith),
        59 => assert(is_unlinearized(59, 132)) by (nonlinear_arith),
        60 => assert(is_unlinearized(60, 133)) by (nonlinear_arith),
        61 => assert(is_unlinearized(61, 134)) by (nonlinear_arith),
        62 => assert(is_unlinearized(62, 135)) by (nonlinear_arith),
        63 => assert(is_unlinearized(63, 136)) by (nonlinear_arith),
        64 => assert(is_unlinearized(64, 137)) by (nonlinear_arith),
        65 => assert(is_unlinearized(65, 138)) by (nonlinear_arith),
        66 => assert(is_unlinearized(66, 139)) by (nonlinear_arith),
        67 => assert(is_unlinearized(67, 140)) by (nonlinear_arith),
        68 => assert(is_unlinearized(68, 141)) by (nonlinear_arith),
        69 => assert(is_unlinearized(69, 142)) by (nonlinear_arith),
        70 => assert(is_unlinearized(70, 143)) by (nonlinear_arith),
        71 => assert(is_unlinearized(71, 144)) by (nonlinear_arith),
        72 => assert(is_unlinearized(72, 145)) by (nonlinear_arith),
        73 => assert(is_unlinearized(73, 146)) by (nonlinear_arith),
        74 => assert(is_unlinearized(74, 147)) by (nonlinear_arith),
        75 => assert(is_unlinearized(75, 148)) by (nonlinear_arith),
        76 => assert(is_unlinearized(76, 148)) by (nonlinear_arith),
        77 => assert(is_unlinearized(77, 149)) by (nonlinear_arith),
        78 => assert(is_unlinearized(78, 150)) by (nonlinear_arith),
        79 => assert(is_unlinearized(79, 151)) by (nonlinear_arith),
        80 => assert(is_unlinearized(80, 152)) by (nonlinear_arith),
        81 => assert(is_unlinearized(81, 153)) by (nonlinear_arith),
        82 => assert(is_unlinearized(82, 154)) by (nonlinear_arith),
        83 => assert(is_unlinearized(83, 155)) by (nonlinear_arith),
        84 => assert(is_unlinearized(84, 155)) by (nonlinear_arith),
        85 => assert(is_unlinearized(85, 156)) by (nonlinear_arith),
        86 => assert(is_unlinearized(86, 157)) by (nonlinear_arith),
        87 => assert(is_unlinearized(87, 158)) by (nonlinear_arith),
        88 => assert(is_unlinearized(88, 159)) by (nonlinear_arith),
        89 => assert(is_unlinearized(89, 159)) by (nonlinear_arith),
        90 => assert(is_unlinearized(90, 160)) by (nonlinear_arith),
        91 => assert(is_unlinearized(91, 161)) by (nonlinear_arith),
        92 => assert(is_unlinearized(92, 162)) by (nonlinear_arith),
        93 => assert(is_unlinearized(93, 163)) by (nonlinear_arith),
        94 => assert(is_unlinearized(94, 163)) by (nonlinear_arith),
        95 => assert(is_unlinearized(95, 164)) by (nonlinear_arith),
        96 => assert(is_unlinearized(96, 165)) by (nonlinear_arith),
        97 => assert(is_unlinearized(97, 166)) by (nonlinear_arith),
        98 => assert(is_unlinearized(98, 167)) by (nonlinear_arith),
        99 => assert(is_unlinearized(99, 167)) by (nonlinear_arith),
        100 => assert(is_unlinearized(100, 168)) by (nonlinear_arith),
        101 => assert(is_unlinearized(101, 169)) by (nonlinear_arith),
        102 => assert(is_unlinearized(102, 170)) by (nonlinear_arith),
        103 => assert(is_unlinearized(103, 170)) by (nonlinear_arith),
        104 => assert(is_unlinearized(104, 171)) by (nonlinear_arith),
        105 => assert(is_unlinearized(105, 172)) by (nonlinear_arith),
        106 => assert(is_unlinearized(106, 173)) by (nonlinear_arith),
        107 => assert(is_unlinearized(107, 173)) by (nonlinear_arith),
        108 => assert(is_unlinearized(108, 174)) by (nonlinear_arith),
        109 => assert(is_unlinearized(109, 175)) by (nonlinear_arith),
        110 => assert(is_unlinearized(110, 175)) by (nonlinear_arith),
        111 => assert(is_unlinearized(111, 176)) by (nonlinear_arith),
        112 => assert(is_unlinearized(112, 177)) by (nonlinear_arith),
        113 => assert(is_unlinearized(113, 178)) by (nonlinear_arith),
        114 => assert(is_unlinearized(114, 178)) by (nonlinear_arith),
        115 => assert(is_unlinearized(115, 179)) by (nonlinear_arith),
        116 => assert(is_unlinearized(116, 180)) by (nonlinear_arith),
        117 => assert(is_unlinearized(117, 180)) by (nonlinear_arith),
        118 => assert(is_unlinearized(118, 181)) by (nonlinear_arith),
        119 => assert(is_unlinearized(119, 182)) by (nonlinear_arith),
        120 => assert(is_unlinearized(120, 182)) by (nonlinear_arith),
        121 => assert(is_unlinearized(121, 183)) by (nonlinear_arith),
        122 => assert(is_unlinearized(122, 184)) by (nonlinear_arith),
        123 => assert(is_unlinearized(123, 185)) by (nonlinear_arith),
        124 => assert(is_unlinearized(124, 185)) by (nonlinear_arith),
        125 => assert(is_unlinearized(125, 186)) by (nonlinear_arith),
        126 => assert(is_unlinearized(126, 187)) by (nonlinear_arith),
        127 => assert(is_unlinearized(127, 187)) by (nonlinear_arith),
        128 => assert(is_unlinearized(128, 188)) by (nonlinear_arith),
        129 => assert(is_unlinearized(129, 189)) by (nonlinear_arith),
        130 => assert(is_unlinearized(130, 189)) by (nonlinear_arith),
        131 => assert(is_unlinearized(131, 190)) by (nonlinear_arith),
        132 => assert(is_unlinearized(132, 190)) by (nonlinear_arith),
        133 => assert(is_unlinearized(133, 191)) by (nonlinear_arith),
        134 => assert(is_unlinearized(134, 192)) by (nonlinear_arith),
        135 => assert(is_unlinearized(135, 192)) by (nonlinear_arith),
        136 => assert(is_unlinearized(136, 193)) by (nonlinear_arith),
        137 => assert(is_unlinearized(137, 194)) by (nonlinear_arith),
        138 => assert(is_unlinearized(138, 194)) by (nonlinear_arith),
        139 => assert(is_unlinearized(139, 195)) by (nonlinear_arith),
        140 => assert(is_unlinearized(140, 196)) by (nonlinear_arith),
        141 => assert(is_unlinearized(141, 196)) by (nonlinear_arith),
        142 => assert(is_unlinearized(142, 197)) by (nonlinear_arith),
        143 => assert(is_unlinearized(143, 197)) by (nonlinear_arith),
        144 => assert(is_unlinearized(144, 198)) by (nonlinear_arith),
        145 => assert(is_unlinearized(145, 199)) by (nonlinear_arith),
        146 => assert(is_unlinearized(146, 199)) by (nonlinear_arith),
        147 => assert(is_unlinearized(147, 200)) by (nonlinear_arith),
        148 => assert(is_unlinearized(148, 200)) by (nonlinear_arith),
        149 => assert(is_unlinearized(149, 201)) by (nonlinear_arith),
        150 => assert(is_unlinearized(150, 202)) by (nonlinear_arith),
        151 => assert(is_unlinearized(151, 202)) by (nonlinear_arith),
        152 => assert(is_unlinearized(152, 203)) by (nonlinear_arith),
        153 => assert(is_unlinearized(153, 203)) by (nonlinear_arith),
        154 => assert(is_unlinearized(154, 204)) by (nonlinear_arith),
        155 => assert(is_unlinearized(155, 205)) by (nonlinear_arith),
        156 => assert(is_unlinearized(156, 205)) by (nonlinear_arith),
        157 => assert(is_unlinearized(157, 206)) by (nonlinear_arith),
        158 => assert(is_unlinearized(158, 206)) by (nonlinear_arith),
        159 => assert(is_unlinearized(159, 207)) by (nonlinear_arith),
        160 => assert(is_unlinearized(160, 208)) by (nonlinear_arith),
        161 => assert(is_unlinearized(161, 208)) by (nonlinear_arith),
        162 => assert(is_unlinearized(162, 209)) by (nonlinear_arith),
        163 => assert(is_unlinearized(163, 209)) by (nonlinear_arith),
        164 => assert(is_unlinearized(164, 210)) by (nonlinear_arith),
        165 => assert(is_unlinearized(165, 210)) by (nonlinear_arith),
        166 => assert(is_unlinearized(166, 211)) by (nonlinear_arith),
        167 => assert(is_unlinearized(167, 212)) by (nonlinear_arith),
        168 => assert(is_unlinearized(168, 212)) by (nonlinear_arith),
        169 => assert(is_unlinearized(169, 213)) by (nonlinear_arith),
        170 => assert(is_unlinearized(170, 213)) by (nonlinear_arith),
        171 => assert(is_unlinearized(171, 214)) by (nonlinear_arith),
        172 => assert(is_unlinearized(172, 214)) by (nonlinear_arith),
        173 => assert(is_unlinearized(173, 215)) by (nonlinear_arith),
        174 => assert(is_unlinearized(174, 215)) by (nonlinear_arith),
        175 => assert(is_unlinearized(175, 216)) by (nonlinear_arith),
        176 => assert(is_unlinearized(176, 216)) by (nonlinear_arith),
        177 => assert(is_unlinearized(177, 217)) by (nonlinear_arith),
        178 => assert(is_unlinearized(178, 218)) by (nonlinear_arith),
        179 => assert(is_unlinearized(179, 218)) by (nonlinear_arith),
        180 => assert(is_unlinearized(180, 219)) by (nonlinear_arith),
        181 => assert(is_unlinearized(181, 219)) by (nonlinear_arith),
        182 => assert(is_unlinearized(182, 220)) by (nonlinear_arith),
        183 => assert(is_unlinearized(183, 220)) by (nonlinear_arith),
        184 => assert(is_unlinearized(184, 221)) by (nonlinear_arith),
        185 => assert(is_unlinearized(185, 221)) by (nonlinear_arith),
        186 => assert(is_unlinearized(186, 222)) by (nonlinear_arith),
        187 => assert(is_unlinearized(187, 222)) by (nonlinear_arith),
        188 => assert(is_unlinearized(188, 223)) by (nonlinear_arith),
        189 => assert(is_unlinearized(189, 223)) by (nonlinear_arith),
        190 => assert(is_unlinearized(190, 224)) by (nonlinear_arith),
        191 => assert(is_unlinearized(191, 224)) by (nonlinear_arith),
        192 => assert(is_unlinearized(192, 225)) by (nonlinear_arith),
        193 => assert(is_unlinearized(193, 226)) by (nonlinear_arith),
        194 => assert(is_unlinearized(194, 226)) by (nonlinear_arith),
        195 => assert(is_unlinearized(195, 227)) by (nonlinear_arith),
        196 => assert(is_unlinearized(196, 227)) by (nonlinear_arith),
        197 => assert(is_unlinearized(197, 228)) by (nonlinear_arith),
        198 => assert(is_unlinearized(198, 228)) by (nonlinear_arith),
        199 => assert(is_unlinearized(199, 229)) by (nonlinear_arith),
        200 => assert(is_unlinearized(200, 229)) by (nonlinear_arith),
        201 => assert(is_unlinearized(201, 230)) by (nonlinear_arith),
        202 => assert(is_unlinearized(202, 230)) by (nonlinear_arith),
        203 => assert(is_unlinearized(203, 231)) by (nonlinear_arith),
        204 => assert(is_unlinearized(204, 231)) by (nonlinear_arith),
        205 => assert(is_unlinearized(205, 232)) by (nonlinear_arith),
        206 => assert(is_unlinearized(206, 232)) by (nonlinear_arith),
        207 => assert(is_unlinearized(207, 233)) by (nonlinear_arith),
        208 => assert(is_unlinearized(208, 233)) by (nonlinear_arith),
        209 => assert(is_unlinearized(209, 234)) by (nonlinear_arith),
        210 => assert(is_unlinearized(210, 234)) by (nonlinear_arith),
        211 => assert(is_unlinearized(211, 235)) by (nonlinear_arith),
        212 => assert(is_unlinearized(212, 235)) by (nonlinear_arith),
        213 => assert(is_unlinearized(213, 236)) by (nonlinear_arith),
        214 => assert(is_unlinearized(214, 236)) by (nonlinear_arith),
        215 => assert(is_unlinearized(215, 237)) by (nonlinear_arith),
        216 => assert(is_unlinearized(216, 237)) by (nonlinear_arith),
        217 => assert(is_unlinearized(217, 238)) by (nonlinear_arith),
        218 => assert(is_unlinearized(218, 238)) by (nonlinear_arith),
        219 => assert(is_unlinearized(219, 238)) by (nonlinear_arith),
        220 => assert(is_unlinearized(220, 239)) by (nonlinear_arith),
        221 => assert(is_unlinearized(221, 239)) by (nonlinear_arith),
        222 => assert(is_unlinearized(222, 240)) by (nonlinear_arith),
        223 => assert(is_unlinearized(223, 240)) by (nonlinear_arith),
        224 => assert(is_unlinearized(224, 241)) by (nonlinear_arith),
        225 => assert(is_unlinearized(225, 241)) by (nonlinear_arith),
        226 => assert(is_unlinearized(226, 242)) by (nonlinear_arith),
        227 => assert(is_unlinearized(227, 242)) by (nonlinear_arith),
        228 => assert(is_unlinearized(228, 243)) by (nonlinear_arith),
        229 => assert(is_unlinearized(229, 243)) by (nonlinear_arith),
        230 => assert(is_unlinearized(230, 244)) by (nonlinear_arith),
        231 => assert(is_unlinearized(231, 244)) by (nonlinear_arith),
        232 => assert(is_unlinearized(232, 245)) by (nonlinear_arith),
        233 => assert(is_unlinearized(233, 245)) by (nonlinear_arith),
        234 => assert(is_unlinearized(234, 246)) by (nonlinear_arith),
        235 => assert(is_unlinearized(235, 246)) by (nonlinear_arith),
        236 => assert(is_unlinearized(236, 246)) by (nonlinear_arith),
        237 => assert(is_unlinearized(237, 247)) by (nonlinear_arith),
        238 => assert(is_unlinearized(238, 247)) by (nonlinear_arith),
        239 => assert(is_unlinearized(239, 248)) by (nonlinear_arith),
        240 => assert(is_unlinearized(240, 248)) by (nonlinear_arith),
        241 => assert(is_unlinearized(241, 249)) by (nonlinear_arith),
        242 => assert(is_unlinearized(242, 249)) by (nonlinear_arith),
        243 => assert(is_unlinearized(243, 250)) by (nonlinear_arith),
        244 => assert(is_unlinearized(244, 250)) by (nonlinear_arith),
        245 => assert(is_unlinearized(245, 251)) by (nonlinear_arith),
        246 => assert(is_unlinearized(246, 251)) by (nonlinear_arith),
        247 => assert(is_unlinearized(247, 251)) by (nonlinear_arith),
        248 => assert(is_unlinearized(248, 252)) by (nonlinear_arith),
        249 => assert(is_unlinearized(249, 252)) by (nonlinear_arith),
        250 => assert(is_unlinearized(250, 253)) by (nonlinear_arith),
        251 => assert(is_unlinearized(251, 253)) by (nonlinear_arith),
        252 => assert(is_unlinearized(252, 254)) by (nonlinear_arith),
        253 => assert(is_unlinearized(253, 254)) by (nonlinear_arith),
        254 => assert(is_unlinearized(254, 255)) by (nonlinear_arith),
        _ => assert(is_unlinearized(255, 255)) by (nonlinear_arith),
    }
}

/// The linear-light value of an sRGB-encoded channel value.
pub fn linearize(c: u8) -> (r: u8)
    ensures
        r == linearize_value(c),
        is_linearized(c as int, r as int),
{
    proof {
        lemma_linearize_table(c);
    }
    match c {
        0 => 0,
        1 => 0,
        2 => 0,
        3 => 0,
        4 => 0,
        5 => 0,
        6 => 0,
        7 => 1,
        8 => 1,
        9 => 1,
        10 => 1,
        11 => 1,
        12 => 1,
        13 => 1,
        14 => 1,
        15 => 1,
        16 => 1,
        17 => 1,
        18 => 2,
        19 => 2,
        20 => 2,
        21 => 2,
        22 => 2,
        23 => 2,
        24 => 2,
        25 => 2,
        26 => 3,
        27 => 3,
        28 => 3,
        29 => 3,
        30 => 3,
        31 => 3,
        32 => 4,
        33 => 4,
        34 => 4,
        35 => 4,
        36 => 4,
        37 => 5,
        38 => 5,
        39 => 5,
        40 => 5,
        41 => 6,
        42 => 6,
        43 => 6,
        44 => 6,
        45 => 7,
        46 => 7,
        47 => 7,
        48 => 8,
        49 => 8,
        50 => 8,
        51 => 8,
        52 => 9,
        53 => 9,
        54 => 9,
        55 => 10,
        56 => 10,
        57 => 10,
        58 => 11,
        59 => 11,
        60 => 12,
        61 => 12,
        62 => 12,
        63 => 13,
        64 => 13,
        65 => 13,
        66 => 14,
        67 => 14,
        68 => 15,
        69 => 15,
        70 => 16,
        71 => 16,
        72 => 17,
        73 => 17,
        74 => 17,
        75 => 18,
        76 => 18,
        77 => 19,
        78 => 19,
        79 => 20,
        80 => 20,
        81 => 21,
        82 => 22,
        83 => 22,
        84 => 23,
        85 => 23,
        86 => 24,
        87 => 24,
        88 => 25,
        89 => 25,
        90 => 26,
        91 => 27,
        92 => 27,
        93 => 28,
        94 => 29,
        95 => 29,
        96 => 30,
        97 => 30,
        98 => 31,
        99 => 32,
        100 => 32,
        101 => 33,
        102 => 34,
        103 => 35,
        104 => 35,
        105 => 36,
        106 => 37,
        107 => 37,
        108 => 38,
        109 => 39,
        110 => 40,
        111 => 41,
        112 => 41,
        113 => 42,
        114 => 43,
        115 => 44,
        116 => 45,
        117 => 45,
        118 => 46,
        119 => 47,
        120 => 48,
        121 => 49,
        122 => 50,
        123 => 51,
        124 => 51,
        125 => 52,
        126 => 53,
        127 => 54,
        128 => 55,
        129 => 56,
        130 => 57,
        131 => 58,
        132 => 59,
        133 => 60,
        134 => 61,
        135 => 62,
        136 => 63,
        137 => 64,
        138 => 65,
        139 => 66,
        140 => 67,
        141 => 68,
        142 => 69,
        143 => 70,
        144 => 71,
        145 => 72,
        146 => 73,
        147 => 74,
        148 => 76,
        149 => 77,
        150 => 78,
        151 => 79,
        152 => 80,
        153 => 81,
        154 => 82,
        155 => 84,
        156 => 85,
        157 => 86,
        158 => 87,
        159 => 88,
        160 => 90,
        161 => 91,
        162 => 92,
        163 => 93,
        164 => 95,
        165 => 96,
        166 => 97,
        167 => 99,
        168 => 100,
        169 => 101,
        170 => 103,
        171 => 104,
        172 => 105,
        173 => 107,
        174 => 108,
        175 => 109,
        176 => 111,
        177 => 112,
        178 => 114,
        179 => 115,
        180 => 116,
        181 => 118,
        182 => 119,
        183 => 121,
        184 => 122,
        185 => 124,
        186 => 125,
        187 => 127,
        188 => 128,
        189 => 130,
        190 => 131,
        191 => 133,
        192 => 134,
        193 => 136,
        194 => 138,
        195 => 139,
        196 => 141,
        197 => 142,
        198 => 144,
        199 => 146,
        200 => 147,
        201 => 149,
        202 => 151,
        203 => 152,
        204 => 154,
        205 => 156,
        206 => 157,
        207 => 159,
        208 => 161,
        209 => 163,
        210 => 164,
        211 => 166,
        212 => 168,
        213 => 170,
        214 => 171,
        215 => 173,
        216 => 175,
        217 => 177,
        218 => 179,
        219 => 181,
        220 => 183,
        221 => 184,
        222 => 186,
        223 => 188,
        224 => 190,
        225 => 192,
        226 => 194,
        227 => 196,
        228 => 198,
        229 => 200,
        230 => 202,
        231 => 204,
        232 => 206,
        233 => 208,
        234 => 210,
        235 => 212,
        236 => 214,
        237 => 216,
        238 => 218,
        239 => 220,
        240 => 222,
        241 => 224,
        242 => 226,
        243 => 229,
        244 => 231,
        245 => 233,
        246 => 235,
        247 => 237,
        248 => 239,
        249 => 242,
        250 => 244,
        251 => 246,
        252 => 248,
        253 => 250,
        254 => 253,
        _ => 255,
    }
}

/// The sRGB encoding of a linear-light channel value.
pub fn unlinearize(c: u8) -> (r: u8)
    ensures
        r == unlinearize_value(c),
        is_unlinearized(c as int, r as int),
{
    proof {
        lemma_unlinearize_table(c);
    }
    match c {
        0 => 0,
        1 => 13,
        2 => 22,
        3 => 28,
        4 => 34,
        5 => 38,
        6 => 42,
        7 => 46,
        8 => 50,
        9 => 53,
        10 => 56,
        11 => 59,
        12 => 61,
        13 => 64,
        14 => 66,
        15 => 69,
        16 => 71,
        17 => 73,
        18 => 75,
        19 => 77,
        20 => 79,
        21 => 81,
        22 => 83,
        23 => 85,
        24 => 86,
        25 => 88,
        26 => 90,
        27 => 92,
        28 => 93,
        29 => 95,
        30 => 96,
        31 => 98,
        32 => 99,
        33 => 101,
        34 => 102,
        35 => 104,
        36 => 105,
        37 => 106,
        38 => 108,
        39 => 109,
        40 => 110,
        41 => 112,
        42 => 113,
        43 => 114,
        44 => 115,
        45 => 117,
        46 => 118,
        47 => 119,
        48 => 120,
        49 => 121,
        50 => 122,
        51 => 124,
        52 => 125,
        53 => 126,
        54 => 127,
        55 => 128,
        56 => 129,
        57 => 130,
        58 => 131,
        59 => 132,
        60 => 133,
        61 => 134,
        62 => 135,
        63 => 136,
        64 => 137,
        65 => 138,
        66 => 139,
        67 => 140,
        68 => 141,
        69 => 142,
        70 => 143,
        71 => 144,
        72 => 145,
        73 => 146,
        74 => 147,
        75 => 148,
        76 => 148,
        77 => 149,
        78 => 150,
        79 => 151,
        80 => 152,
        81 => 153,
        82 => 154,
        83 => 155,
        84 => 155,
        85 => 156,
        86 => 157,
        87 => 158,
        88 => 159,
        89 => 159,
        90 => 160,
        91 => 161,
        92 => 162,
        93 => 163,
        94 => 163,
        95 => 164,
        96 => 165,
        97 => 166,
        98 => 167,
        99 => 167,
        100 => 168,
        101 => 169,
        102 => 170,
        103 => 170,
        104 => 171,
        105 => 172,
        106 => 173,
        107 => 173,
        108 => 174,
        109 => 175,
        110 => 175,
        111 => 176,
        112 => 177,
        113 => 178,
        114 => 178,
        115 => 179,
        116 => 180,
        117 => 180,
        118 => 181,
        119 => 182,
        120 => 182,
        121 => 183,
        122 => 184,
        123 => 185,
        124 => 185,
        125 => 186,
        126 => 187,
        127 => 187,
        128 => 188,
        129 => 189,
        130 => 189,
        131 => 190,
        132 => 190,
        133 => 191,
        134 => 192,
        135 => 192,
        136 => 193,
        137 => 194,
        138 => 194,
        139 => 195,
        140 => 196,
        141 => 196,
        142 => 197,
        143 => 197,
        144 => 198,
        145 => 199,
        146 => 199,
        147 => 200,
        148 => 200,
        149 => 201,
        150 => 202,
        151 => 202,
        152 => 203,
        153 => 203,
        154 => 204,
        155 => 205,
        156 => 205,
        157 => 206,
        158 => 206,
        159 => 207,
        160 => 208,
        161 => 208,
        162 => 209,
        163 => 209,
        164 => 210,
        165 => 210,
        166 => 211,
        167 => 212,
        168 => 212,
        169 => 213,
        170 => 213,
        171 => 214,
        172 => 214,
        173 => 215,
        174 => 215,
        175 => 216,
        176 => 216,
        177 => 217,
        178 => 218,
        179 => 218,
        180 => 219,
        181 => 219,
        182 => 220,
        183 => 220,
        184 => 221,
        185 => 221,
        186 => 222,
        187 => 222,
        188 => 223,
        189 => 223,
        190 => 224,
        191 => 224,
        192 => 225,
        193 => 226,
        194 => 226,
        195 => 227,
        196 => 227,
        197 => 228,
        198 => 228,
        199 => 229,
        200 => 229,
        201 => 230,
        202 => 230,
        203 => 231,
        204 => 231,
        205 => 232,
        206 => 232,
        207 => 233,
        208 => 233,
        209 => 234,
        210 => 234,
        211 => 235,
        212 => 235,
        213 => 236,
        214 => 236,
        215 => 237,
        216 => 237,
        217 => 238,
        218 => 238,
        219 => 238,
        220 => 239,
        221 => 239,
        222 => 240,
        223 => 240,
        224 => 241,
        225 => 241,
        226 => 242,
        227 => 242,
        228 => 243,
        229 => 243,
        230 => 244,
        231 => 244,
        232 => 245,
        233 => 245,
        234 => 246,
        235 => 246,
        236 => 246,
        237 => 247,
        238 => 247,
        239 => 248,
        240 => 248,
        241 => 249,
        242 => 249,
        243 => 250,
        244 => 250,
        245 => 251,
        246 => 251,
        247 => 251,
        248 => 252,
        249 => 252,
        250 => 253,
        251 => 253,
        252 => 254,
        253 => 254,
        254 => 255,
        _ => 255,
    }
}


/// Which way colour channels are converted.
#[derive(Debug, Clone, Copy, PartialEq, Eq, Structural)]
pub enum Conversion {
    Linearize,
    Unlinearize,
}

pub open spec fn convert_value(conv: Conversion, c: u8) -> u8 {
    match conv {
        Conversion::Linearize => linearize_value(c),
        Conversion::Unlinearize => unlinearize_value(c),
    }
}

/// The colour value of a premultiplied channel `c` under alpha `a > 0`, saturated at 255.
pub open spec fn unpremultiply(c: int, a: int) -> int {
    let v = round_div(c * 255, a);
    if v > 255 {
        255
    } else {
        v
    }
}

/// The premultiplied channel of colour value `v` under alpha `a`.
pub open spec fn premultiply(v: int, a: int) -> int {
    round_div(v * a, 255)
}

/// One premultiplied channel converted: unpremultiplied, mapped, premultiplied again.
pub open spec fn convert_channel(conv: Conversion, c: u8, a: u8) -> u8 {
    premultiply(convert_value(conv, unpremultiply(c as int, a as int) as u8) as int, a as int) as u8
}

/// A pixel converted channel by channel; alpha is kept, and a transparent pixel becomes all
/// zero.
pub open spec fn convert_pixel(conv: Conversion, p: Pixel) -> Pixel {
    if p.a == 0 {
        Pixel { r: 0, g: 0, b: 0, a: 0 }
    } else {
        Pixel {
            r: convert_channel(conv, p.r, p.a),
            g: convert_channel(conv, p.g, p.a),
            b: convert_channel(conv, p.b, p.a),
            a: p.a,
        }
    }
}

fn convert_channel_exec(conv: Conversion, c: u8, a: u8) -> (r: u8)
    requires
        a > 0,
    ensures
        r == convert_channel(conv, c, a),
        r <= a,
{
    let n: u32 = 2 * (c as u32 * 255) + a as u32;
    let mut u: u32 = n / (2 * a as u32);
    if u > 255 {
        u = 255;
    }
    let v: u8 = match conv {
        Conversion::Linearize => linearize(u as u8),
        Conversion::Unlinearize => unlinearize(u as u8),
    };
    assert(v * a <= 65025) by (nonlinear_arith)
        requires
            v <= 255,
            a <= 255,
    ;
    let m: u32 = 2 * (v as u32 * a as u32) + 255;
    let r = m / 510;
    assert(r <= a) by (nonlinear_arith)
        requires
            v <= 255,
            m == 2 * (v * a) + 255,
            r == m / 510,
    ;
    r as u8
}

fn convert_pixel_exec(conv: Conversion, p: Pixel) -> (r: Pixel)
    ensures
        r == convert_pixel(conv, p),
{
    if p.a == 0 {
        Pixel { r: 0, g: 0, b: 0, a: 0 }
    } else {
        Pixel {
            r: convert_channel_exec(conv, p.r, p.a),
            g: convert_channel_exec(conv, p.g, p.a),
            b: convert_channel_exec(conv, p.b, p.a),
            a: p.a,
        }
    }
}

/// The image of converting the pixels of `s` within `bounds`; every other pixel is
/// transparent.
pub open spec fn converted_image(
    s: &ImageSurface,
    out: &ImageSurface,
    bounds: IRect,
    conv: Conversion,
) -> bool {
    &&& out.wf()
    &&& out.same_size(s)
    &&& forall|x: int, y: int| #[trigger]
        out.in_bounds(x, y) ==> out.pixel(x, y) == if bounds.contains(x, y) {
            convert_pixel(conv, s.pixel(x, y))
        } else {
            Pixel { r: 0, g: 0, b: 0, a: 0 }
        }
}

/// Converts the pixels of `s` within `bounds` and tags the result with `new_type`.
pub fn map_unpremultiplied_components(
    s: &ImageSurface,
    bounds: IRect,
    conv: Conversion,
    new_type: SurfaceType,
) -> (out: ImageSurface)
    requires
        s.wf(),
        bounds.within(s.spec_width(), s.spec_height()),
    ensures
        converted_image(s, &out, bounds, conv),
        out.spec_type() == new_type,
{
    let mut out = ImageSurface::new_transparent(s.width(), s.height(), new_type);
    let mut y = bounds.y0;
    while y < bounds.y1
        invariant
            s.wf(),
            bounds.within(s.spec_width(), s.spec_height()),
            bounds.y0 <= y <= bounds.y1,
            out.wf(),
            out.same_size(s),
            out.spec_type() == new_type,
            forall|px: int, py: int| #[trigger]
                out.in_bounds(px, py) ==> out.pixel(px, py) == if bounds.contains(px, py) && py < y {
                    convert_pixel(conv, s.pixel(px, py))
                } else {
                    Pixel { r: 0, g: 0, b: 0, a: 0 }
                },
        decreases bounds.y1 - y,
    {
        let mut x = bounds.x0;
        while x < bounds.x1
            invariant
                s.wf(),
                bounds.within(s.spec_width(), s.spec_height()),
                bounds.y0 <= y < bounds.y1,
                bounds.x0 <= x <= bounds.x1,
                out.wf(),
                out.same_size(s),
                out.spec_type() == new_type,
                forall|px: int, py: int| #[trigger]
                    out.in_bounds(px, py) ==> out.pixel(px, py) == if bounds.contains(px, py) && (py
                        < y || (py == y && px < x)) {
                        convert_pixel(conv, s.pixel(px, py))
                    } else {
                        Pixel { r: 0, g: 0, b: 0, a: 0 }
                    },
            decreases bounds.x1 - x,
        {
            let p = s.get_pixel(x as u32, y as u32);
            let ghost before = out;
            out.set_pixel(x as u32, y as u32, convert_pixel_exec(conv, p));
            assert forall|px: int, py: int| #[trigger]
                out.in_bounds(px, py) implies out.pixel(px, py) == if bounds.contains(px, py) && (py
                    < y || (py == y && px < x + 1)) {
                    convert_pixel(conv, s.pixel(px, py))
                } else {
                    Pixel { r: 0, g: 0, b: 0, a: 0 }
                } by {
                if px != x || py != y {
                    assert(out.pixel(px, py) == before.pixel(px, py));
                    assert(before.in_bounds(px, py));
                }
            }
            x = x + 1;
        }
        y = y + 1;
    }
    out
}

/// Converts the sRGB-encoded pixels of `s` within `bounds` to linear light.
pub fn linearize_surface(s: &ImageSurface, bounds: IRect) -> (out: ImageSurface)
    requires
        s.wf(),
        bounds.within(s.spec_width(), s.spec_height()),
    ensures
        converted_image(s, &out, bounds, Conversion::Linearize),
        out.spec_type() == SurfaceType::LinearRgb,
{
    map_unpremultiplied_components(s, bounds, Conversion::Linearize, SurfaceType::LinearRgb)
}

/// Converts the linear-light pixels of `s` within `bounds` to sRGB encoding.
pub fn unlinearize_surface(s: &ImageSurface, bounds: IRect) -> (out: ImageSurface)
    requires
        s.wf(),
        bounds.within(s.spec_width(), s.spec_height()),
    ensures
        converted_image(s, &out, bounds, Conversion::Unlinearize),
        out.spec_type() == SurfaceType::SRgb,
{
    map_unpremultiplied_components(s, bounds, Conversion::Unlinearize, SurfaceType::SRgb)
}

/// Converting an opaque pixel to linear light and back changes no channel by more than 6,
/// and leaves every channel of 124 or more exactly as it was: the 8-bit linear image in
/// between cannot tell apart some dark values.
pub proof fn lemma_round_trip(p: Pixel)
    requires
        p.a == 255,
    ensures
        convert_pixel(Conversion::Unlinearize, convert_pixel(Conversion::Linearize, p)).a == 255,
        close_channel(
            convert_pixel(Conversion::Unlinearize, convert_pixel(Conversion::Linearize, p)).r,
            p.r,
        ),
        close_channel(
            convert_pixel(Conversion::Unlinearize, convert_pixel(Conversion::Linearize, p)).g,
            p.g,
        ),
        close_channel(
            convert_pixel(Conversion::Unlinearize, convert_pixel(Conversion::Linearize, p)).b,
            p.b,
        ),
{
    lemma_opaque_channel(Conversion::Linearize, p.r);
    lemma_opaque_channel(Conversion::Linearize, p.g);
    lemma_opaque_channel(Conversion::Linearize, p.b);
    let q = convert_pixel(Conversion::Linearize, p);
    lemma_opaque_channel(Conversion::Unlinearize, q.r);
    lemma_opaque_channel(Conversion::Unlinearize, q.g);
    lemma_opaque_channel(Conversion::Unlinearize, q.b);
    lemma_round_trip_value(p.r);
    lemma_round_trip_value(p.g);
    lemma_round_trip_value(p.b);
}

/// A channel that came back from the round trip is within 6 of the value it started from,
/// and equal to it from 124 up.
pub open spec fn close_channel(back: u8, c: u8) -> bool {
    &&& -6 <= back - c <= 6
    &&& c >= 124 ==> back == c
}

proof fn lemma_opaque_channel(conv: Conversion, c: u8)
    ensures
        convert_channel(conv, c, 255) == convert_value(conv, c),
{
    vstd::arithmetic::div_mod::lemma_fundamental_div_mod_converse(
        2 * (c * 255) + 255,
        510,
        c as int,
        255,
    );
    assert(unpremultiply(c as int, 255) == c as int);
    let v = convert_value(conv, c) as int;
    vstd::arithmetic::div_mod::lemma_fundamental_div_mod_converse(2 * (v * 255) + 255, 510, v, 255);
    assert(premultiply(v, 255) == v);
}

proof fn lemma_round_trip_value(c: u8)
    ensures
        close_channel(unlinearize_value(linearize_value(c)), c),
{
}

proof fn lemma_unlinearize_step(v: u8)
    requires
        v < 255,
    ensures
        0 <= unlinearize_value((v + 1) as u8) - unlinearize_value(v) <= 13,
{
}

proof fn lemma_unlinearize_lipschitz(x: int, y: int)
    requires
        0 <= x <= y <= 255,
    ensures
        0 <= unlinearize_value(y as u8) - unlinearize_value(x as u8) <= 13 * (y - x),
    decreases y - x,
{
    if x < y {
        lemma_unlinearize_lipschitz(x, y - 1);
        lemma_unlinearize_step((y - 1) as u8);
    }
}

/// Converting a premultiplied pixel of any alpha to linear light and back changes no colour
/// channel by more than 20 and keeps its alpha. The 8-bit linear values lose precision,
/// which the unpremultiplying by a small alpha magnifies.
pub proof fn lemma_round_trip_translucent(p: Pixel)
    requires
        p.is_premultiplied(),
    ensures
        convert_pixel(Conversion::Unlinearize, convert_pixel(Conversion::Linearize, p)).a == p.a,
        -20 <= convert_pixel(Conversion::Unlinearize, convert_pixel(Conversion::Linearize, p)).r
            - p.r <= 20,
        -20 <= convert_pixel(Conversion::Unlinearize, convert_pixel(Conversion::Linearize, p)).g
            - p.g <= 20,
        -20 <= convert_pixel(Conversion::Unlinearize, convert_pixel(Conversion::Linearize, p)).b
            - p.b <= 20,
{
    if p.a != 0 {
        lemma_channel_round_trip(p.r, p.a);
        lemma_channel_round_trip(p.g, p.a);
        lemma_channel_round_trip(p.b, p.a);
    }
}

proof fn lemma_unpremultiply_bounds(c: int, a: int)
    requires
        0 < a <= 255,
        0 <= c <= a,
    ensures
        0 <= unpremultiply(c, a) <= 255,
        2 * a * unpremultiply(c, a) <= 510 * c + a,
        510 * c - a < 2 * a * unpremultiply(c, a),
{
    let n = 2 * (c * 255) + a;
    let d = 2 * a;
    let q = n / d;
    vstd::arithmetic::div_mod::lemma_fundamental_div_mod(n, d);
    assert(0 <= q <= 255 && d * q <= n && n < d * q + d) by (nonlinear_arith)
        requires
            n == d * q + n % d,
            0 <= n % d < d,
            n == 2 * (c * 255) + a,
            d == 2 * a,
            0 < a <= 255,
            0 <= c <= a,
    ;
}

proof fn lemma_premultiply_bounds(v: int, a: int)
    requires
        0 < a <= 255,
        0 <= v <= 255,
    ensures
        0 <= premultiply(v, a) <= a,
        510 * premultiply(v, a) <= 2 * v * a + 255,
        2 * v * a + 255 < 510 * premultiply(v, a) + 510,
{
    let n = 2 * (v * a) + 255;
    let q = n / 510;
    assert(2 * v * a == 2 * (v * a)) by (nonlinear_arith);
    vstd::arithmetic::div_mod::lemma_fundamental_div_mod(n, 510);
    assert(0 <= q <= a && 510 * q <= n && n < 510 * q + 510) by (nonlinear_arith)
        requires
            n == 510 * q + n % 510,
            0 <= n % 510 < 510,
            n == 2 * (v * a) + 255,
            0 < a <= 255,
            0 <= v <= 255,
    ;
}

proof fn lemma_channel_round_trip(c: u8, a: u8)
    requires
        0 < a,
        c <= a,
    ensures
        -20 <= convert_channel(
            Conversion::Unlinearize,
            convert_channel(Conversion::Linearize, c, a),
            a,
        ) - c <= 20,
{
    let ai = a as int;
    let ci = c as int;
    let u = unpremultiply(ci, ai);
    lemma_unpremultiply_bounds(ci, ai);
    let l = linearize_value(u as u8) as int;
    let c1 = premultiply(l, ai);
    lemma_premultiply_bounds(l, ai);
    let u1 = unpremultiply(c1, ai);
    lemma_unpremultiply_bounds(c1, ai);
    let w = unlinearize_value(u1 as u8) as int;
    let c2 = premultiply(w, ai);
    lemma_premultiply_bounds(w, ai);
    let m = unlinearize_value(l as u8) as int;
    lemma_round_trip_value(u as u8);
    assert(-6 <= m - u <= 6);
    // |u1 - l| is small: 2a|u1 - l| <= a + 255.
    assert(-(ai + 255) <= 2 * ai * (u1 - l) <= ai + 255) by (nonlinear_arith)
        requires
            2 * ai * u1 <= 510 * c1 + ai,
            510 * c1 - ai < 2 * ai * u1,
            510 * c1 <= 2 * l * ai + 255,
            2 * l * ai + 255 < 510 * c1 + 510,
    ;
    if u1 <= l {
        lemma_unlinearize_lipschitz(u1, l);
    } else {
        lemma_unlinearize_lipschitz(l, u1);
    }
    assert(-13 * (ai + 255) <= 2 * ai * (w - m) <= 13 * (ai + 255)) by (nonlinear_arith)
        requires
            -(ai + 255) <= 2 * ai * (u1 - l) <= ai + 255,
            u1 <= l ==> 0 <= m - w <= 13 * (l - u1),
            l < u1 ==> 0 <= w - m <= 13 * (u1 - l),
            0 < ai,
    ;
    assert(-10200 <= 510 * (c2 - ci) <= 10200) by (nonlinear_arith)
        requires
            510 * c2 <= 2 * w * ai + 255,
            2 * w * ai + 255 < 510 * c2 + 510,
            -13 * (ai + 255) <= 2 * ai * (w - m) <= 13 * (ai + 255),
            -6 <= m - u <= 6,
            2 * ai * u <= 510 * ci + ai,
            510 * ci - ai < 2 * ai * u,
            0 < ai <= 255,
    ;
}

} // verus!
