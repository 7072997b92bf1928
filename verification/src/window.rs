use vstd::prelude::*;

verus! {

/// Fixed-size analysis frame: the ring of most recent samples.
pub const FFT_SIZE: usize = 2048;

/// Symmetric raised-cosine (Hann) analysis window in Q15 fixed point:
/// entry `i` is `0.5 * (1 - cos(2 * pi * i / FFT_SIZE))` scaled by `1 << 15`.
pub const HANN_WINDOW_Q15: [u16; 2048] = [
    0, 0, 0, 1, 1, 2, 3, 4, 5, 6, 8, 9, 11, 13, 15, 17,
    20, 22, 25, 28, 31, 34, 37, 41, 44, 48, 52, 56, 60, 65, 69, 74,
    79, 84, 89, 94, 100, 105, 111, 117, 123, 129, 136, 142, 149, 156, 163, 170,
    177, 185, 192, 200, 208, 216, 224, 233, 241, 250, 259, 268, 277, 286, 296, 305,
    315, 325, 335, 345, 355, 366, 376, 387, 398, 409, 420, 432, 443, 455, 467, 479,
    491, 503, 516, 528, 541, 554, 567, 580, 593, 607, 621, 634, 648, 662, 677, 691,
    705, 720, 735, 750, 765, 780, 796, 811, 827, 843, 859, 875, 891, 908, 924, 941,
    958, 975, 992, 1009, 1027, 1044, 1062, 1080, 1098, 1116, 1134, 1153, 1171, 1190, 1209, 1228,
    1247, 1266, 1286, 1306, 1325, 1345, 1365, 1385, 1406, 1426, 1447, 1467, 1488, 1509, 1530, 1552,
    1573, 1595, 1616, 1638, 1660, 1682, 1704, 1727, 1749, 1772, 1795, 1818, 1841, 1864, 1887, 1911,
    1935, 1958, 1982, 2006, 2030, 2055, 2079, 2104, 2128, 2153, 2178, 2203, 2229, 2254, 2280, 2305,
    2331, 2357, 2383, 2409, 2435, 2462, 2488, 2515, 2542, 2569, 2596, 2623, 2651, 2678, 2706, 2733,
    2761, 2789, 2817, 2846, 2874, 2902, 2931, 2960, 2989, 3018, 3047, 3076, 3105, 3135, 3165, 3194,
    3224, 3254, 3284, 3315, 3345, 3376, 3406, 3437, 3468, 3499, 3530, 3561, 3592, 3624, 3655, 3687,
    3719, 3751, 3783, 3815, 3847, 3880, 3912, 3945, 3978, 4011, 4044, 4077, 4110, 4144, 4177, 4211,
    4244, 4278, 4312, 4346, 4380, 4414, 4449, 4483, 4518, 4553, 4587, 4622, 4657, 4693, 4728, 4763,
    4799, 4834, 4870, 4906, 4942, 4978, 5014, 5050, 5087, 5123, 5160, 5196, 5233, 5270, 5307, 5344,
    5381, 5418, 5456, 5493, 5531, 5569, 5606, 5644, 5682, 5721, 5759, 5797, 5835, 5874, 5913, 5951,
    5990, 6029, 6068, 6107, 6146, 6186, 6225, 6264, 6304, 6344, 6383, 6423, 6463, 6503, 6543, 6584,
    6624, 6664, 6705, 6746, 6786, 6827, 6868, 6909, 6950, 6991, 7032, 7074, 7115, 7157, 7198, 7240,
    7282, 7323, 7365, 7407, 7449, 7492, 7534, 7576, 7619, 7661, 7704, 7746, 7789, 7832, 7875, 7918,
    7961, 8004, 8047, 8091, 8134, 8177, 8221, 8265, 8308, 8352, 8396, 8440, 8484, 8528, 8572, 8616,
    8661, 8705, 8749, 8794, 8839, 8883, 8928, 8973, 9018, 9063, 9108, 9153, 9198, 9243, 9288, 9334,
    9379, 9424, 9470, 9516, 9561, 9607, 9653, 9699, 9745, 9791, 9837, 9883, 9929, 9975, 10021, 10068,
    10114, 10161, 10207, 10254, 10300, 10347, 10394, 10441, 10487, 10534, 10581, 10628, 10676, 10723, 10770, 10817,
    10864, 10912, 10959, 11007, 11054, 11102, 11149, 11197, 11245, 11292, 11340, 11388, 11436, 11484, 11532, 11580,
    11628, 11676, 11724, 11772, 11821, 11869, 11917, 11966, 12014, 12063, 12111, 12160, 12208, 12257, 12306, 12354,
    12403, 12452, 12501, 12549, 12598, 12647, 12696, 12745, 12794, 12843, 12892, 12942, 12991, 13040, 13089, 13138,
    13188, 13237, 13286, 13336, 13385, 13435, 13484, 13533, 13583, 13632, 13682, 13732, 13781, 13831, 13881, 13930,
    13980, 14030, 14079, 14129, 14179, 14229, 14279, 14329, 14378, 14428, 14478, 14528, 14578, 14628, 14678, 14728,
    14778, 14828, 14878, 14928, 14978, 15028, 15078, 15129, 15179, 15229, 15279, 15329, 15379, 15429, 15480, 15530,
    15580, 15630, 15680, 15731, 15781, 15831, 15881, 15932, 15982, 16032, 16082, 16133, 16183, 16233, 16283, 16334,
    16384, 16434, 16485, 16535, 16585, 16635, 16686, 16736, 16786, 16836, 16887, 16937, 16987, 17037, 17088, 17138,
    17188, 17238, 17288, 17339, 17389, 17439, 17489, 17539, 17589, 17639, 17690, 17740, 17790, 17840, 17890, 17940,
    17990, 18040, 18090, 18140, 18190, 18240, 18290, 18340, 18390, 18439, 18489, 18539, 18589, 18639, 18689, 18738,
    18788, 18838, 18887, 18937, 18987, 19036, 19086, 19136, 19185, 19235, 19284, 19333, 19383, 19432, 19482, 19531,
    19580, 19630, 19679, 19728, 19777, 19826, 19876, 19925, 19974, 20023, 20072, 20121, 20170, 20219, 20267, 20316,
    20365, 20414, 20462, 20511, 20560, 20608, 20657, 20705, 20754, 20802, 20851, 20899, 20947, 20996, 21044, 21092,
    21140, 21188, 21236, 21284, 21332, 21380, 21428, 21476, 21523, 21571, 21619, 21666, 21714, 21761, 21809, 21856,
    21904, 21951, 21998, 22045, 22092, 22140, 22187, 22234, 22281, 22327, 22374, 22421, 22468, 22514, 22561, 22607,
    22654, 22700, 22747, 22793, 22839, 22885, 22931, 22977, 23023, 23069, 23115, 23161, 23207, 23252, 23298, 23344,
    23389, 23434, 23480, 23525, 23570, 23615, 23660, 23705, 23750, 23795, 23840, 23885, 23929, 23974, 24019, 24063,
    24107, 24152, 24196, 24240, 24284, 24328, 24372, 24416, 24460, 24503, 24547, 24591, 24634, 24677, 24721, 24764,
    24807, 24850, 24893, 24936, 24979, 25022, 25064, 25107, 25149, 25192, 25234, 25276, 25319, 25361, 25403, 25445,
    25486, 25528, 25570, 25611, 25653, 25694, 25736, 25777, 25818, 25859, 25900, 25941, 25982, 26022, 26063, 26104,
    26144, 26184, 26225, 26265, 26305, 26345, 26385, 26424, 26464, 26504, 26543, 26582, 26622, 26661, 26700, 26739,
    26778, 26817, 26855, 26894, 26933, 26971, 27009, 27047, 27086, 27124, 27162, 27199, 27237, 27275, 27312, 27350,
    27387, 27424, 27461, 27498, 27535, 27572, 27608, 27645, 27681, 27718, 27754, 27790, 27826, 27862, 27898, 27934,
    27969, 28005, 28040, 28075, 28111, 28146, 28181, 28215, 28250, 28285, 28319, 28354, 28388, 28422, 28456, 28490,
    28524, 28557, 28591, 28624, 28658, 28691, 28724, 28757, 28790, 28823, 28856, 28888, 28921, 28953, 28985, 29017,
    29049, 29081, 29113, 29144, 29176, 29207, 29238, 29269, 29300, 29331, 29362, 29392, 29423, 29453, 29484, 29514,
    29544, 29574, 29603, 29633, 29663, 29692, 29721, 29750, 29779, 29808, 29837, 29866, 29894, 29922, 29951, 29979,
    30007, 30035, 30062, 30090, 30117, 30145, 30172, 30199, 30226, 30253, 30280, 30306, 30333, 30359, 30385, 30411,
    30437, 30463, 30488, 30514, 30539, 30565, 30590, 30615, 30640, 30664, 30689, 30713, 30738, 30762, 30786, 30810,
    30833, 30857, 30881, 30904, 30927, 30950, 30973, 30996, 31019, 31041, 31064, 31086, 31108, 31130, 31152, 31173,
    31195, 31216, 31238, 31259, 31280, 31301, 31321, 31342, 31362, 31383, 31403, 31423, 31443, 31462, 31482, 31502,
    31521, 31540, 31559, 31578, 31597, 31615, 31634, 31652, 31670, 31688, 31706, 31724, 31741, 31759, 31776, 31793,
    31810, 31827, 31844, 31860, 31877, 31893, 31909, 31925, 31941, 31957, 31972, 31988, 32003, 32018, 32033, 32048,
    32063, 32077, 32091, 32106, 32120, 32134, 32147, 32161, 32175, 32188, 32201, 32214, 32227, 32240, 32252, 32265,
    32277, 32289, 32301, 32313, 32325, 32336, 32348, 32359, 32370, 32381, 32392, 32402, 32413, 32423, 32433, 32443,
    32453, 32463, 32472, 32482, 32491, 32500, 32509, 32518, 32527, 32535, 32544, 32552, 32560, 32568, 32576, 32583,
    32591, 32598, 32605, 32612, 32619, 32626, 32632, 32639, 32645, 32651, 32657, 32663, 32668, 32674, 32679, 32684,
    32689, 32694, 32699, 32703, 32708, 32712, 32716, 32720, 32724, 32727, 32731, 32734, 32737, 32740, 32743, 32746,
    32748, 32751, 32753, 32755, 32757, 32759, 32760, 32762, 32763, 32764, 32765, 32766, 32767, 32767, 32768, 32768,
    32768, 32768, 32768, 32767, 32767, 32766, 32765, 32764, 32763, 32762, 32760, 32759, 32757, 32755, 32753, 32751,
    32748, 32746, 32743, 32740, 32737, 32734, 32731, 32727, 32724, 32720, 32716, 32712, 32708, 32703, 32699, 32694,
    32689, 32684, 32679, 32674, 32668, 32663, 32657, 32651, 32645, 32639, 32632, 32626, 32619, 32612, 32605, 32598,
    32591, 32583, 32576, 32568, 32560, 32552, 32544, 32535, 32527, 32518, 32509, 32500, 32491, 32482, 32472, 32463,
    32453, 32443, 32433, 32423, 32413, 32402, 32392, 32381, 32370, 32359, 32348, 32336, 32325, 32313, 32301, 32289,
    32277, 32265, 32252, 32240, 32227, 32214, 32201, 32188, 32175, 32161, 32147, 32134, 32120, 32106, 32091, 32077,
    32063, 32048, 32033, 32018, 32003, 31988, 31972, 31957, 31941, 31925, 31909, 31893, 31877, 31860, 31844, 31827,
    31810, 31793, 31776, 31759, 31741, 31724, 31706, 31688, 31670, 31652, 31634, 31615, 31597, 31578, 31559, 31540,
    31521, 31502, 31482, 31462, 31443, 31423, 31403, 31383, 31362, 31342, 31321, 31301, 31280, 31259, 31238, 31216,
    31195, 31173, 31152, 31130, 31108, 31086, 31064, 31041, 31019, 30996, 30973, 30950, 30927, 30904, 30881, 30857,
    30833, 30810, 30786, 30762, 30738, 30713, 30689, 30664, 30640, 30615, 30590, 30565, 30539, 30514, 30488, 30463,
    30437, 30411, 30385, 30359, 30333, 30306, 30280, 30253, 30226, 30199, 30172, 30145, 30117, 30090, 30062, 30035,
    30007, 29979, 29951, 29922, 29894, 29866, 29837, 29808, 29779, 29750, 29721, 29692, 29663, 29633, 29603, 29574,
    29544, 29514, 29484, 29453, 29423, 29392, 29362, 29331, 29300, 29269, 29238, 29207, 29176, 29144, 29113, 29081,
    29049, 29017, 28985, 28953, 28921, 28888, 28856, 28823, 28790, 28757, 28724, 28691, 28658, 28624, 28591, 28557,
    28524, 28490, 28456, 28422, 28388, 28354, 28319, 28285, 28250, 28215, 28181, 28146, 28111, 28075, 28040, 28005,
    27969, 27934, 27898, 27862, 27826, 27790, 27754, 27718, 27681, 27645, 27608, 27572, 27535, 27498, 27461, 27424,
    27387, 27350, 27312, 27275, 27237, 27199, 27162, 27124, 27086, 27047, 27009, 26971, 26933, 26894, 26855, 26817,
    26778, 26739, 26700, 26661, 26622, 26582, 26543, 26504, 26464, 26424, 26385, 26345, 26305, 26265, 26225, 26184,
    26144, 26104, 26063, 26022, 25982, 25941, 25900, 25859, 25818, 25777, 25736, 25694, 25653, 25611, 25570, 25528,
    25486, 25445, 25403, 25361, 25319, 25276, 25234, 25192, 25149, 25107, 25064, 25022, 24979, 24936, 24893, 24850,
    24807, 24764, 24721, 24677, 24634, 24591, 24547, 24503, 24460, 24416, 24372, 24328, 24284, 24240, 24196, 24152,
    24107, 24063, 24019, 23974, 23929, 23885, 23840, 23795, 23750, 23705, 23660, 23615, 23570, 23525, 23480, 23434,
    23389, 23344, 23298, 23252, 23207, 23161, 23115, 23069, 23023, 22977, 22931, 22885, 22839, 22793, 22747, 22700,
    22654, 22607, 22561, 22514, 22468, 22421, 22374, 22327, 22281, 22234, 22187, 22140, 22092, 22045, 21998, 21951,
    21904, 21856, 21809, 21761, 21714, 21666, 21619, 21571, 21523, 21476, 21428, 21380, 21332, 21284, 21236, 21188,
    21140, 21092, 21044, 20996, 20947, 20899, 20851, 20802, 20754, 20705, 20657, 20608, 20560, 20511, 20462, 20414,
    20365, 20316, 20267, 20219, 20170, 20121, 20072, 20023, 19974, 19925, 19876, 19826, 19777, 19728, 19679, 19630,
    19580, 19531, 19482, 19432, 19383, 19333, 19284, 19235, 19185, 19136, 19086, 19036, 18987, 18937, 18887, 18838,
    18788, 18738, 18689, 18639, 18589, 18539, 18489, 18439, 18390, 18340, 18290, 18240, 18190, 18140, 18090, 18040,
    17990, 17940, 17890, 17840, 17790, 17740, 17690, 17639, 17589, 17539, 17489, 17439, 17389, 17339, 17288, 17238,
    17188, 17138, 17088, 17037, 16987, 16937, 16887, 16836, 16786, 16736, 16686, 16635, 16585, 16535, 16485, 16434,
    16384, 16334, 16283, 16233, 16183, 16133, 16082, 16032, 15982, 15932, 15881, 15831, 15781, 15731, 15680, 15630,
    15580, 15530, 15480, 15429, 15379, 15329, 15279, 15229, 15179, 15129, 15078, 15028, 14978, 14928, 14878, 14828,
    14778, 14728, 14678, 14628, 14578, 14528, 14478, 14428, 14378, 14329, 14279, 14229, 14179, 14129, 14079, 14030,
    13980, 13930, 13881, 13831, 13781, 13732, 13682, 13632, 13583, 13533, 13484, 13435, 13385, 13336, 13286, 13237,
    13188, 13138, 13089, 13040, 12991, 12942, 12892, 12843, 12794, 12745, 12696, 12647, 12598, 12549, 12501, 12452,
    12403, 12354, 12306, 12257, 12208, 12160, 12111, 12063, 12014, 11966, 11917, 11869, 11821, 11772, 11724, 11676,
    11628, 11580, 11532, 11484, 11436, 11388, 11340, 11292, 11245, 11197, 11149, 11102, 11054, 11007, 10959, 10912,
    10864, 10817, 10770, 10723, 10676, 10628, 10581, 10534, 10487, 10441, 10394, 10347, 10300, 10254, 10207, 10161,
    10114, 10068, 10021, 9975, 9929, 9883, 9837, 9791, 9745, 9699, 9653, 9607, 9561, 9516, 9470, 9424,
    9379, 9334, 9288, 9243, 9198, 9153, 9108, 9063, 9018, 8973, 8928, 8883, 8839, 8794, 8749, 8705,
    8661, 8616, 8572, 8528, 8484, 8440, 8396, 8352, 8308, 8265, 8221, 8177, 8134, 8091, 8047, 8004,
    7961, 7918, 7875, 7832, 7789, 7746, 7704, 7661, 7619, 7576, 7534, 7492, 7449, 7407, 7365, 7323,
    7282, 7240, 7198, 7157, 7115, 7074, 7032, 6991, 6950, 6909, 6868, 6827, 6786, 6746, 6705, 6664,
    6624, 6584, 6543, 6503, 6463, 6423, 6383, 6344, 6304, 6264, 6225, 6186, 6146, 6107, 6068, 6029,
    5990, 5951, 5913, 5874, 5835, 5797, 5759, 5721, 5682, 5644, 5606, 5569, 5531, 5493, 5456, 5418,
    5381, 5344, 5307, 5270, 5233, 5196, 5160, 5123, 5087, 5050, 5014, 4978, 4942, 4906, 4870, 4834,
    4799, 4763, 4728, 4693, 4657, 4622, 4587, 4553, 4518, 4483, 4449, 4414, 4380, 4346, 4312, 4278,
    4244, 4211, 4177, 4144, 4110, 4077, 4044, 4011, 3978, 3945, 3912, 3880, 3847, 3815, 3783, 3751,
    3719, 3687, 3655, 3624, 3592, 3561, 3530, 3499, 3468, 3437, 3406, 3376, 3345, 3315, 3284, 3254,
    3224, 3194, 3165, 3135, 3105, 3076, 3047, 3018, 2989, 2960, 2931, 2902, 2874, 2846, 2817, 2789,
    2761, 2733, 2706, 2678, 2651, 2623, 2596, 2569, 2542, 2515, 2488, 2462, 2435, 2409, 2383, 2357,
    2331, 2305, 2280, 2254, 2229, 2203, 2178, 2153, 2128, 2104, 2079, 2055, 2030, 2006, 1982, 1958,
    1935, 1911, 1887, 1864, 1841, 1818, 1795, 1772, 1749, 1727, 1704, 1682, 1660, 1638, 1616, 1595,
    1573, 1552, 1530, 1509, 1488, 1467, 1447, 1426, 1406, 1385, 1365, 1345, 1325, 1306, 1286, 1266,
    1247, 1228, 1209, 1190, 1171, 1153, 1134, 1116, 1098, 1080, 1062, 1044, 1027, 1009, 992, 975,
    958, 941, 924, 908, 891, 875, 859, 843, 827, 811, 796, 780, 765, 750, 735, 720,
    705, 691, 677, 662, 648, 634, 621, 607, 593, 580, 567, 554, 541, 528, 516, 503,
    491, 479, 467, 455, 443, 432, 420, 409, 398, 387, 376, 366, 355, 345, 335, 325,
    315, 305, 296, 286, 277, 268, 259, 250, 241, 233, 224, 216, 208, 200, 192, 185,
    177, 170, 163, 156, 149, 142, 136, 129, 123, 117, 111, 105, 100, 94, 89, 84,
    79, 74, 69, 65, 60, 56, 52, 48, 44, 41, 37, 34, 31, 28, 25, 22,
    20, 17, 15, 13, 11, 9, 8, 6, 5, 4, 3, 2, 1, 1, 0, 0,
];

/// Multiplies each sample of a chronological frame by the Hann window, in
/// place of the floating-point product: the result keeps the full Q15
/// product, so it carries a constant extra factor of `1 << 15` that cancels
/// in the scale-invariant normalization downstream.
pub fn apply_window(samples: &Vec<i16>) -> (out: Vec<i32>)
    requires
        samples@.len() == FFT_SIZE,
    ensures
        out@.len() == FFT_SIZE,
        forall|i: int|
            0 <= i < FFT_SIZE ==> out@[i] == (samples@[i] as int) * (HANN_WINDOW_Q15@[i] as int),
{
    let mut out: Vec<i32> = Vec::new();
    let mut i: usize = 0;
    while i < FFT_SIZE
        invariant
            samples@.len() == FFT_SIZE,
            i <= FFT_SIZE,
            out@.len() == i,
            forall|j: int| 0 <= j < i ==> out@[j] == (samples@[j] as int) * (HANN_WINDOW_Q15@[j] as int),
        decreases FFT_SIZE - i,
    {
        let s = samples[i];
        let w = HANN_WINDOW_Q15[i];
        proof {
            assert(-0x8000_0000 <= (s as int) * (w as int) <= 0x7fff_ffff) by (nonlinear_arith)
                requires
                    -0x8000 <= s <= 0x7fff,
                    0 <= w <= 0xffff,
            ;
        }
        out.push((s as i32) * (w as i32));
        i += 1;
    }
    out
}

} // verus!
