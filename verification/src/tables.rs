//! The per-subband constant tables of the codec: quantization interval
//! thresholds, dither factors, factor-select offsets and the 32-entry
//! quantization-factor curve, in a standard and an HD variant.
//!
//! `AptxTables` is a small descriptor selecting one variant/subband pair;
//! its accessors expose the table entries with exact contracts.

use vstd::prelude::*;

verus! {

pub const QUANTIZE_INTERVALS_LF: [i32; 65] = [
    -9948, 9948, 29860, 49808, 69822, 89926, 110144, 130502,
    151026, 171738, 192666, 213832, 235264, 256982, 279014, 301384,
    324118, 347244, 370790, 394782, 419250, 444226, 469742, 495832,
    522536, 549890, 577936, 606720, 636290, 666700, 698006, 730270,
    763562, 797958, 833538, 870398, 908640, 948376, 989740, 1032874,
    1077948, 1125150, 1174700, 1226850, 1281900, 1340196, 1402156, 1468282,
    1539182, 1615610, 1698514, 1789098, 1888944, 2000168, 2125700, 2269750,
    2438670, 2642660, 2899462, 3243240, 3746078, 4535138, 5664098, 7102424,
    8897462,
];

pub const INVERT_QUANTIZE_DITHER_FACTORS_LF: [i32; 65] = [
    9948, 9948, 9962, 9988, 10026, 10078, 10142, 10218,
    10306, 10408, 10522, 10650, 10791, 10946, 11116, 11300,
    11502, 11722, 11961, 12222, 12506, 12816, 13153, 13520,
    13920, 14356, 14832, 15352, 15922, 16545, 17227, 17974,
    18795, 19698, 20691, 21786, 22993, 24327, 25801, 27433,
    29242, 31249, 33481, 35968, 38745, 41846, 45316, 49203,
    53560, 58457, 63969, 70192, 77233, 85219, 94302, 104655,
    116485, 130039, 145608, 163542, 184257, 208252, 236132, 268631,
    306637,
];

pub const QUANTIZE_DITHER_FACTORS_LF: [i32; 65] = [
    0, 4, 7, 10, 13, 16, 19, 22,
    26, 29, 32, 35, 39, 43, 46, 51,
    55, 60, 65, 71, 78, 84, 92, 100,
    109, 119, 130, 143, 156, 171, 187, 205,
    226, 248, 274, 302, 334, 369, 408, 452,
    502, 558, 622, 694, 775, 868, 972, 1089,
    1224, 1378, 1556, 1760, 1997, 2271, 2588, 2958,
    3389, 3892, 4484, 5179, 5999, 6970, 8125, 9502,
    0,
];

pub const QUANTIZE_FACTOR_SELECT_OFFSET_LF: [i16; 65] = [
    0, -21, -19, -17, -15, -12, -10, -8,
    -6, -4, -1, 1, 3, 6, 8, 10,
    13, 15, 18, 20, 23, 26, 29, 31,
    34, 37, 40, 43, 47, 50, 53, 57,
    60, 64, 68, 72, 76, 80, 85, 89,
    94, 99, 105, 110, 116, 123, 129, 136,
    144, 152, 161, 171, 182, 194, 207, 223,
    241, 263, 291, 328, 382, 467, 522, 522,
    522,
];

pub const HD_QUANTIZE_INTERVALS_LF: [i32; 257] = [
    -9948, -4974, 0, 4974, 9948, 14926, 19904, 24882,
    29860, 34847, 39834, 44821, 49808, 54812, 59815, 64819,
    69822, 74848, 79874, 84900, 89926, 94981, 100035, 105090,
    110144, 115234, 120323, 125413, 130502, 135633, 140764, 145895,
    151026, 156204, 161382, 166560, 171738, 176970, 182202, 187434,
    192666, 197958, 203249, 208541, 213832, 219190, 224548, 229906,
    235264, 240694, 246123, 251553, 256982, 262490, 267998, 273506,
    279014, 284607, 290199, 295792, 301384, 307068, 312751, 318435,
    324118, 329900, 335681, 341463, 347244, 353131, 359017, 364904,
    370790, 376788, 382786, 388784, 394782, 400899, 407016, 413133,
    419250, 425494, 431738, 437982, 444226, 450605, 456984, 463363,
    469742, 476265, 482787, 489310, 495832, 502508, 509184, 515860,
    522536, 529375, 536213, 543052, 549890, 556902, 563913, 570925,
    577936, 585132, 592328, 599524, 606720, 614113, 621505, 628898,
    636290, 643893, 651495, 659098, 666700, 674527, 682353, 690180,
    698006, 706072, 714138, 722204, 730270, 738593, 746916, 755239,
    763562, 772161, 780760, 789359, 797958, 806853, 815748, 824643,
    833538, 842753, 851968, 861183, 870398, 879959, 889519, 899080,
    908640, 918574, 928508, 938442, 948376, 958717, 969058, 979399,
    989740, 1000524, 1011307, 1022091, 1032874, 1044143, 1055411, 1066680,
    1077948, 1089749, 1101549, 1113350, 1125150, 1137538, 1149925, 1162313,
    1174700, 1187738, 1200775, 1213813, 1226850, 1240613, 1254375, 1268138,
    1281900, 1296474, 1311048, 1325622, 1340196, 1355686, 1371176, 1386666,
    1402156, 1418688, 1435219, 1451751, 1468282, 1486007, 1503732, 1521457,
    1539182, 1558289, 1577396, 1596503, 1615610, 1636336, 1657062, 1677788,
    1698514, 1721160, 1743806, 1766452, 1789098, 1814060, 1839021, 1863983,
    1888944, 1916750, 1944556, 1972362, 2000168, 2031551, 2062934, 2094317,
    2125700, 2161713, 2197725, 2233738, 2269750, 2311980, 2354210, 2396440,
    2438670, 2489668, 2540665, 2591663, 2642660, 2706861, 2771061, 2835262,
    2899462, 2985407, 3071351, 3157296, 3243240, 3368950, 3494659, 3620369,
    3746078, 3943343, 4140608, 4337873, 4535138, 4817378, 5099618, 5381858,
    5664098, 6023680, 6383261, 6742843, 7102424, 7551184, 7999943, 8448703,
    8897462,
];

pub const HD_INVERT_QUANTIZE_DITHER_FACTORS_LF: [i32; 257] = [
    9948, 9948, 9948, 9948, 9948, 9952, 9955, 9959,
    9962, 9969, 9975, 9982, 9988, 9998, 10007, 10017,
    10026, 10039, 10052, 10065, 10078, 10094, 10110, 10126,
    10142, 10161, 10180, 10199, 10218, 10240, 10262, 10284,
    10306, 10332, 10357, 10383, 10408, 10437, 10465, 10494,
    10522, 10554, 10586, 10618, 10650, 10685, 10721, 10756,
    10791, 10830, 10869, 10907, 10946, 10989, 11031, 11074,
    11116, 11162, 11208, 11254, 11300, 11351, 11401, 11452,
    11502, 11557, 11612, 11667, 11722, 11782, 11842, 11901,
    11961, 12026, 12092, 12157, 12222, 12293, 12364, 12435,
    12506, 12584, 12661, 12739, 12816, 12900, 12985, 13069,
    13153, 13245, 13337, 13428, 13520, 13620, 13720, 13820,
    13920, 14029, 14138, 14247, 14356, 14475, 14594, 14713,
    14832, 14962, 15092, 15222, 15352, 15495, 15637, 15780,
    15922, 16078, 16234, 16389, 16545, 16716, 16886, 17057,
    17227, 17414, 17601, 17787, 17974, 18179, 18385, 18590,
    18795, 19021, 19247, 19472, 19698, 19946, 20195, 20443,
    20691, 20965, 21239, 21512, 21786, 22088, 22390, 22691,
    22993, 23327, 23660, 23994, 24327, 24696, 25064, 25433,
    25801, 26209, 26617, 27025, 27433, 27885, 28338, 28790,
    29242, 29744, 30246, 30747, 31249, 31807, 32365, 32923,
    33481, 34103, 34725, 35346, 35968, 36662, 37357, 38051,
    38745, 39520, 40296, 41071, 41846, 42714, 43581, 44449,
    45316, 46288, 47260, 48231, 49203, 50292, 51382, 52471,
    53560, 54784, 56009, 57233, 58457, 59835, 61213, 62591,
    63969, 65525, 67081, 68636, 70192, 71952, 73713, 75473,
    77233, 79230, 81226, 83223, 85219, 87490, 89761, 92031,
    94302, 96890, 99479, 102067, 104655, 107613, 110570, 113528,
    116485, 119874, 123262, 126651, 130039, 133931, 137824, 141716,
    145608, 150092, 154575, 159059, 163542, 168721, 173900, 179078,
    184257, 190256, 196255, 202253, 208252, 215222, 222192, 229162,
    236132, 244257, 252382, 260506, 268631, 278133, 287634, 297136,
    306637,
];

pub const HD_QUANTIZE_DITHER_FACTORS_LF: [i32; 257] = [
    0, 0, 0, 0, 1, 1, 1, 1,
    2, 2, 2, 2, 3, 2, 3, 2,
    3, 3, 3, 3, 4, 4, 4, 4,
    5, 5, 5, 5, 6, 6, 6, 6,
    7, 6, 7, 6, 7, 7, 7, 7,
    8, 8, 8, 8, 9, 9, 9, 9,
    10, 10, 10, 10, 11, 11, 11, 11,
    12, 12, 12, 12, 13, 13, 13, 13,
    14, 14, 14, 14, 15, 15, 15, 15,
    16, 17, 16, 16, 18, 18, 18, 18,
    20, 19, 20, 19, 21, 21, 21, 21,
    23, 23, 23, 23, 25, 25, 25, 25,
    27, 27, 27, 27, 30, 30, 30, 30,
    33, 33, 33, 33, 36, 36, 36, 36,
    39, 39, 39, 39, 43, 43, 43, 43,
    47, 47, 47, 47, 51, 52, 51, 51,
    57, 57, 56, 57, 62, 62, 62, 62,
    69, 69, 68, 69, 76, 76, 75, 76,
    84, 83, 84, 83, 92, 92, 92, 92,
    102, 102, 102, 102, 113, 113, 113, 113,
    126, 126, 125, 126, 140, 140, 140, 140,
    156, 156, 155, 156, 174, 174, 174, 174,
    194, 194, 194, 194, 217, 217, 217, 217,
    243, 243, 243, 243, 272, 273, 272, 272,
    306, 306, 306, 306, 345, 345, 345, 345,
    389, 389, 389, 389, 440, 440, 440, 440,
    499, 499, 499, 499, 568, 568, 568, 568,
    647, 647, 647, 647, 740, 739, 740, 739,
    847, 847, 847, 847, 973, 973, 973, 973,
    1121, 1121, 1121, 1121, 1295, 1295, 1295, 1295,
    1500, 1500, 1500, 1500, 1743, 1743, 1743, 1743,
    2031, 2031, 2031, 2031, 2376, 2375, 2376, 2375,
    0,
];

pub const HD_QUANTIZE_FACTOR_SELECT_OFFSET_LF: [i16; 257] = [
    0, -5, -10, -16, -21, -20, -20, -19,
    -19, -18, -18, -17, -17, -16, -16, -15,
    -15, -14, -13, -13, -12, -11, -11, -10,
    -10, -9, -9, -8, -8, -7, -7, -6,
    -6, -5, -5, -4, -4, -3, -2, -2,
    -1, 0, 0, 1, 1, 2, 2, 3,
    3, 4, 5, 5, 6, 7, 7, 8,
    8, 9, 9, 10, 10, 11, 12, 12,
    13, 14, 14, 15, 15, 16, 17, 17,
    18, 19, 19, 20, 20, 21, 22, 22,
    23, 24, 25, 25, 26, 27, 28, 28,
    29, 30, 30, 31, 31, 32, 33, 33,
    34, 35, 36, 36, 37, 38, 39, 39,
    40, 41, 42, 42, 43, 44, 45, 46,
    47, 48, 49, 49, 50, 51, 52, 52,
    53, 54, 55, 56, 57, 58, 59, 59,
    60, 61, 62, 63, 64, 65, 66, 67,
    68, 69, 70, 71, 72, 73, 74, 75,
    76, 77, 78, 79, 80, 81, 83, 84,
    85, 86, 87, 88, 89, 90, 92, 93,
    94, 95, 97, 98, 99, 101, 102, 104,
    105, 106, 108, 109, 110, 112, 113, 115,
    116, 118, 120, 121, 123, 125, 126, 128,
    129, 131, 133, 134, 136, 138, 140, 142,
    144, 146, 148, 150, 152, 154, 157, 159,
    161, 164, 166, 169, 171, 174, 177, 179,
    182, 185, 188, 191, 194, 197, 201, 204,
    207, 211, 215, 219, 223, 228, 232, 237,
    241, 247, 252, 258, 263, 270, 277, 284,
    291, 300, 310, 319, 328, 342, 355, 369,
    382, 403, 425, 446, 467, 481, 495, 508,
    522, 522, 522, 522, 522, 522, 522, 522,
    522,
];

pub const QUANTIZE_INTERVALS_MLF: [i32; 9] = [
    -89806, 89806, 278502, 494338, 759442, 1113112, 1621961, 2476337,
    4194304,
];

pub const INVERT_QUANTIZE_DITHER_FACTORS_MLF: [i32; 9] = [
    89806, 89806, 98890, 116946, 148158, 205512, 333698, 734236,
    1735696,
];

pub const QUANTIZE_DITHER_FACTORS_MLF: [i32; 9] = [
    0, 2271, 4514, 7803, 14339, 32047, 100135, 250365,
    0,
];

pub const QUANTIZE_FACTOR_SELECT_OFFSET_MLF: [i16; 9] = [
    0, -14, 6, 29, 58, 96, 154, 270,
    521,
];

pub const HD_QUANTIZE_INTERVALS_MLF: [i32; 33] = [
    -89806, -44903, 0, 44903, 89806, 136980, 184154, 231328,
    278502, 332461, 386420, 440379, 494338, 560614, 626890, 693166,
    759442, 847860, 936277, 1024695, 1113112, 1240324, 1367537, 1494749,
    1621961, 1835555, 2049149, 2262743, 2476337, 2905829, 3335321, 3764812,
    4194304,
];

pub const HD_INVERT_QUANTIZE_DITHER_FACTORS_MLF: [i32; 33] = [
    89806, 89806, 89806, 89806, 89806, 92077, 94348, 96619,
    98890, 103404, 107918, 112432, 116946, 124749, 132552, 140355,
    148158, 162497, 176835, 191174, 205512, 237559, 269605, 301652,
    333698, 433833, 533967, 634102, 734236, 984601, 1234966, 1485331,
    1735696,
];

pub const HD_QUANTIZE_DITHER_FACTORS_MLF: [i32; 33] = [
    0, 0, 0, 0, 568, 568, 568, 568,
    1129, 1129, 1129, 1129, 1951, 1951, 1951, 1951,
    3585, 3585, 3585, 3585, 8012, 8012, 8012, 8012,
    25034, 25034, 25034, 25034, 62591, 62591, 62591, 62591,
    0,
];

pub const HD_QUANTIZE_FACTOR_SELECT_OFFSET_MLF: [i16; 33] = [
    0, -3, -7, -10, -14, -9, -4, 1,
    6, 12, 18, 23, 29, 36, 44, 51,
    58, 68, 77, 87, 96, 111, 125, 140,
    154, 183, 212, 241, 270, 333, 396, 458,
    521,
];

pub const QUANTIZE_INTERVALS_MHF: [i32; 3] = [
    -194080, 194080, 890562,
];

pub const INVERT_QUANTIZE_DITHER_FACTORS_MHF: [i32; 3] = [
    194080, 194080, 502402,
];

pub const QUANTIZE_DITHER_FACTORS_MHF: [i32; 3] = [
    0, 77081, 0,
];

pub const QUANTIZE_FACTOR_SELECT_OFFSET_MHF: [i16; 3] = [
    0, -33, 136,
];

pub const HD_QUANTIZE_INTERVALS_MHF: [i32; 9] = [
    -194080, -97040, 0, 97040, 194080, 368201, 542321, 716442,
    890562,
];

pub const HD_INVERT_QUANTIZE_DITHER_FACTORS_MHF: [i32; 9] = [
    194080, 194080, 194080, 194080, 194080, 271161, 348241, 425322,
    502402,
];

pub const HD_QUANTIZE_DITHER_FACTORS_MHF: [i32; 9] = [
    0, 0, 0, 0, 19270, 19270, 19270, 19270,
    0,
];

pub const HD_QUANTIZE_FACTOR_SELECT_OFFSET_MHF: [i16; 9] = [
    0, -8, -16, -25, -33, 9, 52, 94,
    136,
];

pub const QUANTIZE_INTERVALS_HF: [i32; 5] = [
    -163006, 163006, 542708, 1120554, 2669238,
];

pub const INVERT_QUANTIZE_DITHER_FACTORS_HF: [i32; 5] = [
    163006, 163006, 216698, 361148, 795299,
];

pub const QUANTIZE_DITHER_FACTORS_HF: [i32; 5] = [
    0, 13423, 36113, 108538, 0,
];

pub const QUANTIZE_FACTOR_SELECT_OFFSET_HF: [i16; 5] = [
    0, -8, 33, 95, 262,
];

pub const HD_QUANTIZE_INTERVALS_HF: [i32; 17] = [
    -163006, -81503, 0, 81503, 163006, 257932, 352857, 447783,
    542708, 687170, 831631, 976093, 1120554, 1507725, 1894896, 2282067,
    2669238,
];

pub const HD_INVERT_QUANTIZE_DITHER_FACTORS_HF: [i32; 17] = [
    163006, 163006, 163006, 163006, 163006, 176429, 189852, 203275,
    216698, 252811, 288923, 325036, 361148, 469686, 578224, 686761,
    795299,
];

pub const HD_QUANTIZE_DITHER_FACTORS_HF: [i32; 17] = [
    0, 0, 0, 0, 3356, 3356, 3356, 3356,
    9028, 9028, 9028, 9028, 27135, 27135, 27134, 27135,
    0,
];

pub const HD_QUANTIZE_FACTOR_SELECT_OFFSET_HF: [i16; 17] = [
    0, -2, -4, -6, -8, 2, 13, 23,
    33, 49, 64, 80, 95, 137, 179, 220,
    262,
];

pub const QUANTIZATION_FACTORS: [i16; 32] = [
    2048, 2093, 2139, 2186, 2233, 2282, 2332, 2383,
    2435, 2489, 2543, 2599, 2656, 2714, 2774, 2834,
    2896, 2960, 3025, 3091, 3158, 3228, 3298, 3371,
    3444, 3520, 3597, 3676, 3756, 3838, 3922, 4008,
];


/// Number of subbands per channel.
pub const NB_SUBBANDS: usize = 4;

/// Selector for the constant-table set of one subband in one codec
/// variant (standard or HD).
#[derive(Clone, Copy)]
pub struct AptxTables {
    pub hd: bool,
    pub subband: usize,
}

/// Length of the quantization tables of the selected set.
pub open spec fn tables_len_spec(hd: bool, sb: int) -> int {
    if hd {
        if sb == 0 { 257 } else if sb == 1 { 33 } else if sb == 2 { 9 } else { 17 }
    } else {
        if sb == 0 { 65 } else if sb == 1 { 9 } else if sb == 2 { 3 } else { 5 }
    }
}

/// The whole interval-threshold table of the selected set.
pub open spec fn intervals_seq(hd: bool, sb: int) -> Seq<i32> {
    if hd {
        if sb == 0 { HD_QUANTIZE_INTERVALS_LF@ }
        else if sb == 1 { HD_QUANTIZE_INTERVALS_MLF@ }
        else if sb == 2 { HD_QUANTIZE_INTERVALS_MHF@ }
        else { HD_QUANTIZE_INTERVALS_HF@ }
    } else {
        if sb == 0 { QUANTIZE_INTERVALS_LF@ }
        else if sb == 1 { QUANTIZE_INTERVALS_MLF@ }
        else if sb == 2 { QUANTIZE_INTERVALS_MHF@ }
        else { QUANTIZE_INTERVALS_HF@ }
    }
}

/// Quantization interval threshold `i` of the selected set.
pub open spec fn interval_spec(hd: bool, sb: int, i: int) -> i32 {
    intervals_seq(hd, sb)[i]
}

/// Inverse-quantization dither factor `i` of the selected set.
pub open spec fn invert_dither_factor_spec(hd: bool, sb: int, i: int) -> i32 {
    if hd {
        if sb == 0 { HD_INVERT_QUANTIZE_DITHER_FACTORS_LF@[i] }
        else if sb == 1 { HD_INVERT_QUANTIZE_DITHER_FACTORS_MLF@[i] }
        else if sb == 2 { HD_INVERT_QUANTIZE_DITHER_FACTORS_MHF@[i] }
        else { HD_INVERT_QUANTIZE_DITHER_FACTORS_HF@[i] }
    } else {
        if sb == 0 { INVERT_QUANTIZE_DITHER_FACTORS_LF@[i] }
        else if sb == 1 { INVERT_QUANTIZE_DITHER_FACTORS_MLF@[i] }
        else if sb == 2 { INVERT_QUANTIZE_DITHER_FACTORS_MHF@[i] }
        else { INVERT_QUANTIZE_DITHER_FACTORS_HF@[i] }
    }
}

/// Quantization dither factor `i` of the selected set.
pub open spec fn dither_factor_spec(hd: bool, sb: int, i: int) -> i32 {
    if hd {
        if sb == 0 { HD_QUANTIZE_DITHER_FACTORS_LF@[i] }
        else if sb == 1 { HD_QUANTIZE_DITHER_FACTORS_MLF@[i] }
        else if sb == 2 { HD_QUANTIZE_DITHER_FACTORS_MHF@[i] }
        else { HD_QUANTIZE_DITHER_FACTORS_HF@[i] }
    } else {
        if sb == 0 { QUANTIZE_DITHER_FACTORS_LF@[i] }
        else if sb == 1 { QUANTIZE_DITHER_FACTORS_MLF@[i] }
        else if sb == 2 { QUANTIZE_DITHER_FACTORS_MHF@[i] }
        else { QUANTIZE_DITHER_FACTORS_HF@[i] }
    }
}

/// Factor-select offset `i` of the selected set.
pub open spec fn factor_select_offset_spec(hd: bool, sb: int, i: int) -> i16 {
    if hd {
        if sb == 0 { HD_QUANTIZE_FACTOR_SELECT_OFFSET_LF@[i] }
        else if sb == 1 { HD_QUANTIZE_FACTOR_SELECT_OFFSET_MLF@[i] }
        else if sb == 2 { HD_QUANTIZE_FACTOR_SELECT_OFFSET_MHF@[i] }
        else { HD_QUANTIZE_FACTOR_SELECT_OFFSET_HF@[i] }
    } else {
        if sb == 0 { QUANTIZE_FACTOR_SELECT_OFFSET_LF@[i] }
        else if sb == 1 { QUANTIZE_FACTOR_SELECT_OFFSET_MLF@[i] }
        else if sb == 2 { QUANTIZE_FACTOR_SELECT_OFFSET_MHF@[i] }
        else { QUANTIZE_FACTOR_SELECT_OFFSET_HF@[i] }
    }
}

/// Upper clamp of the factor-select accumulator per subband.
pub open spec fn factor_max_spec(sb: int) -> i32 {
    if sb == 0 { 0x11FF } else if sb == 1 { 0x14FF } else if sb == 2 { 0x16FF } else { 0x15FF }
}

/// Backward-adaptive prediction order per subband.
pub open spec fn prediction_order_spec(sb: int) -> int {
    if sb == 0 { 24 } else if sb == 1 { 12 } else if sb == 2 { 6 } else { 12 }
}

impl AptxTables {
    /// A valid descriptor names one of the four subbands.
    pub open spec fn wf(&self) -> bool {
        self.subband < 4
    }

    /// Length of this set's quantization tables.
    pub open spec fn len_spec(&self) -> int {
        tables_len_spec(self.hd, self.subband as int)
    }

    pub fn new(hd: bool, subband: usize) -> (r: AptxTables)
        requires
            subband < 4,
        ensures
            r.wf(),
            r.hd == hd,
            r.subband == subband,
    {
        AptxTables { hd, subband }
    }

    pub fn intervals_len(&self) -> (r: usize)
        requires
            self.wf(),
        ensures
            r == self.len_spec(),
    {
        if self.hd {
            if self.subband == 0 { 257 } else if self.subband == 1 { 33 }
            else if self.subband == 2 { 9 } else { 17 }
        } else {
            if self.subband == 0 { 65 } else if self.subband == 1 { 9 }
            else if self.subband == 2 { 3 } else { 5 }
        }
    }

    /// The interval table as a slice, for the power-of-two-step search.
    pub fn intervals(&self) -> (r: &[i32])
        requires
            self.wf(),
        ensures
            r@ == intervals_seq(self.hd, self.subband as int),
            r@.len() == self.len_spec(),
    {
        if self.hd {
            if self.subband == 0 { HD_QUANTIZE_INTERVALS_LF.as_slice() }
            else if self.subband == 1 { HD_QUANTIZE_INTERVALS_MLF.as_slice() }
            else if self.subband == 2 { HD_QUANTIZE_INTERVALS_MHF.as_slice() }
            else { HD_QUANTIZE_INTERVALS_HF.as_slice() }
        } else {
            if self.subband == 0 { QUANTIZE_INTERVALS_LF.as_slice() }
            else if self.subband == 1 { QUANTIZE_INTERVALS_MLF.as_slice() }
            else if self.subband == 2 { QUANTIZE_INTERVALS_MHF.as_slice() }
            else { QUANTIZE_INTERVALS_HF.as_slice() }
        }
    }

    pub fn interval(&self, i: usize) -> (r: i32)
        requires
            self.wf(),
            i < self.len_spec(),
        ensures
            r == interval_spec(self.hd, self.subband as int, i as int),
    {
        if self.hd {
            if self.subband == 0 { HD_QUANTIZE_INTERVALS_LF[i] }
            else if self.subband == 1 { HD_QUANTIZE_INTERVALS_MLF[i] }
            else if self.subband == 2 { HD_QUANTIZE_INTERVALS_MHF[i] }
            else { HD_QUANTIZE_INTERVALS_HF[i] }
        } else {
            if self.subband == 0 { QUANTIZE_INTERVALS_LF[i] }
            else if self.subband == 1 { QUANTIZE_INTERVALS_MLF[i] }
            else if self.subband == 2 { QUANTIZE_INTERVALS_MHF[i] }
            else { QUANTIZE_INTERVALS_HF[i] }
        }
    }

    pub fn invert_dither_factor(&self, i: usize) -> (r: i32)
        requires
            self.wf(),
            i < self.len_spec(),
        ensures
            r == invert_dither_factor_spec(self.hd, self.subband as int, i as int),
    {
        if self.hd {
            if self.subband == 0 { HD_INVERT_QUANTIZE_DITHER_FACTORS_LF[i] }
            else if self.subband == 1 { HD_INVERT_QUANTIZE_DITHER_FACTORS_MLF[i] }
            else if self.subband == 2 { HD_INVERT_QUANTIZE_DITHER_FACTORS_MHF[i] }
            else { HD_INVERT_QUANTIZE_DITHER_FACTORS_HF[i] }
        } else {
            if self.subband == 0 { INVERT_QUANTIZE_DITHER_FACTORS_LF[i] }
            else if self.subband == 1 { INVERT_QUANTIZE_DITHER_FACTORS_MLF[i] }
            else if self.subband == 2 { INVERT_QUANTIZE_DITHER_FACTORS_MHF[i] }
            else { INVERT_QUANTIZE_DITHER_FACTORS_HF[i] }
        }
    }

    pub fn dither_factor(&self, i: usize) -> (r: i32)
        requires
            self.wf(),
            i < self.len_spec(),
        ensures
            r == dither_factor_spec(self.hd, self.subband as int, i as int),
    {
        if self.hd {
            if self.subband == 0 { HD_QUANTIZE_DITHER_FACTORS_LF[i] }
            else if self.subband == 1 { HD_QUANTIZE_DITHER_FACTORS_MLF[i] }
            else if self.subband == 2 { HD_QUANTIZE_DITHER_FACTORS_MHF[i] }
            else { HD_QUANTIZE_DITHER_FACTORS_HF[i] }
        } else {
            if self.subband == 0 { QUANTIZE_DITHER_FACTORS_LF[i] }
            else if self.subband == 1 { QUANTIZE_DITHER_FACTORS_MLF[i] }
            else if self.subband == 2 { QUANTIZE_DITHER_FACTORS_MHF[i] }
            else { QUANTIZE_DITHER_FACTORS_HF[i] }
        }
    }

    pub fn factor_select_offset(&self, i: usize) -> (r: i16)
        requires
            self.wf(),
            i < self.len_spec(),
        ensures
            r == factor_select_offset_spec(self.hd, self.subband as int, i as int),
    {
        if self.hd {
            if self.subband == 0 { HD_QUANTIZE_FACTOR_SELECT_OFFSET_LF[i] }
            else if self.subband == 1 { HD_QUANTIZE_FACTOR_SELECT_OFFSET_MLF[i] }
            else if self.subband == 2 { HD_QUANTIZE_FACTOR_SELECT_OFFSET_MHF[i] }
            else { HD_QUANTIZE_FACTOR_SELECT_OFFSET_HF[i] }
        } else {
            if self.subband == 0 { QUANTIZE_FACTOR_SELECT_OFFSET_LF[i] }
            else if self.subband == 1 { QUANTIZE_FACTOR_SELECT_OFFSET_MLF[i] }
            else if self.subband == 2 { QUANTIZE_FACTOR_SELECT_OFFSET_MHF[i] }
            else { QUANTIZE_FACTOR_SELECT_OFFSET_HF[i] }
        }
    }

    pub fn factor_max(&self) -> (r: i32)
        requires
            self.wf(),
        ensures
            r == factor_max_spec(self.subband as int),
            0x11FF <= r <= 0x16FF,
    {
        if self.subband == 0 { 0x11FF } else if self.subband == 1 { 0x14FF }
        else if self.subband == 2 { 0x16FF } else { 0x15FF }
    }

    pub fn prediction_order(&self) -> (r: usize)
        requires
            self.wf(),
        ensures
            r == prediction_order_spec(self.subband as int),
            1 <= r <= 24,
    {
        if self.subband == 0 { 24 } else if self.subband == 1 { 12 }
        else if self.subband == 2 { 6 } else { 12 }
    }
}

/// Entry `i` of the quantization-factor curve; always in `[2048, 4008]`.
pub open spec fn quantization_factor_spec(i: int) -> i16 {
    QUANTIZATION_FACTORS@[i]
}

/// Reads the quantization-factor curve, with its range made explicit for
/// the step-size computation.
pub fn quantization_factor_at(i: usize) -> (r: i16)
    requires
        i < 32,
    ensures
        r == quantization_factor_spec(i as int),
        2048 <= r <= 4008,
{
    let v: i16 = QUANTIZATION_FACTORS[i];
    proof {
        lemma_quantization_factor_range(i as int);
    }
    v
}

/// Every entry of the quantization-factor curve lies in `[2048, 4008]`.
pub proof fn lemma_quantization_factor_range(i: int)
    requires
        0 <= i < 32,
    ensures
        2048 <= QUANTIZATION_FACTORS@[i] <= 4008,
{
    if i < 16 {
        if i < 8 {
            if i == 0 { } else if i == 1 { } else if i == 2 { } else if i == 3 { }
            else if i == 4 { } else if i == 5 { } else if i == 6 { } else { }
        } else {
            if i == 8 { } else if i == 9 { } else if i == 10 { } else if i == 11 { }
            else if i == 12 { } else if i == 13 { } else if i == 14 { } else { }
        }
    } else {
        if i == 16 { } else if i == 17 { } else if i == 18 { } else if i == 19 { }
        else if i == 20 { } else if i == 21 { } else if i == 22 { } else if i == 23 { }
        else if i == 24 { } else if i == 25 { } else if i == 26 { } else if i == 27 { }
        else if i == 28 { } else if i == 29 { } else if i == 30 { } else { }
    }
}

} // verus!
