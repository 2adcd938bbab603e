//! The displacements of the perfect hash over products of rank primes.

use vstd::prelude::*;

verus! {

/// Per-bucket displacement of the perfect hash over products of rank primes
/// (row `b / 256`, column `b % 256`).
pub const HASH_ADJUST: [[u16; 256]; 2] = [
    [
        12, 2424, 4099, 2878, 13, 2226, 3815, 629, 581, 528, 3644, 1595, 2558, 43, 2654, 730,
        2321, 10, 3287, 1025, 1747, 3, 7, 3277, 3970, 16, 78, 4133, 2730, 3215, 28, 1183,
        2642, 3482, 2922, 37, 3927, 1014, 2679, 563, 4200, 3146, 1463, 2115, 2799, 2589, 596, 483,
        541, 85, 2292, 4097, 1587, 4130, 7, 307, 4071, 110, 4096, 541, 322, 458, 863, 618,
        513, 4113, 870, 4104, 0, 2315, 619, 1114, 151, 42, 319, 4197, 843, 1391, 101, 4099,
        565, 786, 907, 2883, 74, 827, 1104, 4402, 2857, 1821, 1055, 2203, 1421, 1487, 2086, 2279,
        3839, 7, 80, 3135, 2050, 1323, 232, 41, 1, 2051, 927, 262, 2199, 3709, 4101, 2908,
        3106, 3303, 4156, 2254, 620, 2783, 1770, 1496, 670, 1352, 2413, 2771, 3, 4109, 5136, 3146,
        76, 2299, 287, 321, 2310, 3338, 1783, 570, 2685, 2371, 271, 533, 120, 2607, 386, 2706,
        2969, 6, 21, 0, 8, 610, 66, 4104, 94, 2696, 275, 2126, 3237, 1333, 27, 2306,
        1133, 2714, 2089, 11, 4101, 3082, 4107, 4102, 2563, 3736, 4120, 4096, 4631, 2108, 75, 3526,
        667, 512, 6, 426, 520, 4121, 523, 2124, 2788, 1117, 35, 3355, 3179, 4110, 4, 100,
        81, 4347, 4132, 2979, 528, 2051, 2221, 2433, 2319, 31, 3659, 591, 2053, 4168, 1008, 1305,
        604, 71, 536, 4156, 528, 2122, 88, 568, 2182, 4135, 3809, 548, 735, 2149, 2631, 209,
        46, 4113, 3341, 238, 3775, 4225, 2036, 2536, 4126, 143, 525, 1043, 160, 412, 78, 4119,
        288, 2055, 4113, 768, 5158, 38, 0, 4155, 74, 4103, 4126, 1312, 209, 769, 2068, 3584,
    ],
    [
        2037, 3, 949, 2735, 438, 2903, 2573, 2885, 639, 17, 18, 884, 2324, 2114, 105, 1071,
        3908, 515, 2155, 4128, 1286, 2092, 81, 3110, 3694, 2055, 430, 1483, 3582, 153, 112, 947,
        1028, 488, 66, 4132, 602, 662, 2172, 517, 4139, 1294, 4097, 4390, 4107, 3179, 23, 3153,
        47, 2883, 84, 2228, 11, 134, 1737, 2613, 1470, 2444, 3121, 635, 663, 728, 344, 2603,
        80, 2031, 3240, 2175, 3276, 517, 1156, 114, 2594, 4119, 14, 2356, 665, 2816, 212, 4188,
        268, 4131, 2397, 1076, 563, 513, 4097, 1716, 2091, 1886, 622, 60, 2443, 301, 5189, 523,
        439, 16, 29, 3433, 3205, 2347, 2083, 165, 1061, 2291, 3290, 24, 2216, 2644, 43, 4107,
        140, 108, 732, 1580, 102, 4109, 669, 2524, 2593, 1238, 496, 71, 217, 1200, 4101, 32,
        3061, 97, 4105, 2602, 2123, 3296, 1348, 187, 4126, 4437, 36, 2327, 2553, 2628, 69, 2127,
        63, 2187, 608, 2155, 879, 3315, 605, 519, 2279, 576, 4116, 4125, 3569, 530, 3014, 1197,
        2023, 2062, 538, 1067, 2102, 2070, 611, 582, 3901, 1396, 2314, 4607, 4353, 2201, 608, 2081,
        2063, 734, 2286, 2081, 3190, 3256, 4108, 669, 1168, 122, 2284, 2834, 68, 1275, 113, 515,
        4168, 463, 2237, 3232, 73, 27, 570, 1444, 3541, 3823, 839, 70, 2056, 513, 4100, 2508,
        2371, 4129, 117, 1171, 3357, 4222, 2149, 628, 2654, 3861, 4111, 523, 2061, 1734, 679, 3305,
        156, 1123, 2121, 4600, 1924, 32, 27, 13, 4107, 1153, 1034, 3, 3600, 4183, 1470, 2186,
        11, 46, 2114, 2181, 2224, 507, 665, 1202, 3648, 4161, 2118, 2775, 2388, 1690, 2524, 1187,
    ],
];

/// Entry `i` of the hash displacement table.
pub closed spec fn hash_adjust(i: int) -> u16 {
    HASH_ADJUST[i / 256][i % 256]
}

/// Every displacement keeps a slot inside the hash-value table.
pub fn hash_adjust_at(i: usize) -> (r: u16)
    requires
        i < 512,
    ensures
        r == hash_adjust(i as int),
        r < 8192,
{
    HASH_ADJUST[i / 256][i % 256]
}

} // verus!
