//! The strengths of hands with a repeated rank, by perfect-hash slot.

use vstd::prelude::*;

verus! {

/// Strength of each hand with a repeated rank, at the slot that the perfect hash of its
/// prime product selects (row `i / 256`, column `i % 256`).
pub const HASH_VALUES: [[u16; 256]; 32] = [
    [
        6176, 5955, 5743, 5994, 3965, 4473, 200, 249, 3305, 2315, 2286, 3308, 2267, 3306, 2175, 0,
        0, 150, 5252, 5964, 3257, 5535, 5660, 3259, 4378, 4912, 2426, 5217, 0, 297, 3233, 5359,
        5079, 3092, 3293, 152, 320, 0, 3319, 2387, 0, 6145, 2399, 3385, 2463, 225, 5719, 2445,
        6077, 2137, 5965, 5974, 4033, 5857, 90, 1910, 6129, 4561, 0, 6015, 5754, 1649, 6138, 2462,
        163, 3220, 0, 4956, 5350, 2036, 2418, 312, 3181, 5513, 5520, 2450, 5953, 0, 2446, 6052,
        136, 2195, 3242, 3693, 2200, 5929, 5089, 3977, 135, 6123, 2159, 6029, 5269, 3931, 5938, 2407,
        309, 2397, 5417, 3059, 162, 2554, 0, 5261, 4023, 6174, 2574, 0, 2363, 3315, 5903, 3436,
        2502, 4173, 2428, 0, 0, 6061, 6178, 2265, 2371, 3535, 5576, 2270, 1917, 4166, 89, 2439,
        4642, 2950, 3273, 5714, 5847, 5632, 5464, 5305, 3962, 2515, 5049, 5890, 1728, 2763, 315, 1672,
        5980, 274, 5251, 5684, 5884, 2656, 2019, 5345, 3675, 4962, 12, 5337, 2072, 2983, 1681, 5353,
        6081, 2838, 3881, 0, 5463, 4219, 6023, 2304, 6002, 0, 3451, 2161, 0, 4084, 2918, 5482,
        5149, 4417, 5064, 3764, 3241, 126, 5871, 5233, 5620, 3067, 5183, 2824, 3314, 0, 6181, 2291,
        4858, 5435, 2296, 3425, 0, 5245, 3715, 2127, 116, 286, 2294, 3153, 2917, 5862, 5525, 2122,
        5155, 4551, 6162, 5073, 6046, 2253, 5267, 2595, 6070, 3544, 4887, 0, 4235, 1895, 3698, 5648,
        5588, 4846, 4381, 2054, 133, 3245, 5395, 2625, 5219, 2588, 5327, 277, 4441, 247, 5645, 5869,
        5041, 1777, 5248, 3226, 48, 6039, 5505, 3002, 5608, 6154, 3126, 1984, 6007, 2461, 2222, 1727,
    ],
    [
        3983, 3821, 5667, 5761, 2920, 2717, 0, 3263, 4964, 2396, 3432, 0, 6075, 6088, 2922, 5542,
        5836, 1849, 3222, 2303, 0, 2826, 5849, 3013, 5507, 0, 5349, 5000, 139, 3586, 3500, 4310,
        3303, 6103, 5972, 5913, 5075, 0, 294, 3295, 3191, 5397, 5447, 2477, 5653, 4265, 2001, 72,
        4205, 5242, 5855, 4959, 313, 5751, 4329, 2569, 270, 5010, 4422, 3186, 2796, 5638, 6001, 2317,
        6094, 148, 5602, 2977, 3244, 4403, 2321, 5050, 5921, 3852, 2300, 5713, 0, 6016, 2348, 2305,
        5699, 6009, 1739, 3005, 2136, 5617, 5574, 4244, 4705, 5976, 3611, 5791, 4252, 2146, 5204, 228,
        3727, 3182, 4644, 5752, 4347, 5469, 6117, 0, 4879, 5709, 5500, 2627, 5165, 3502, 290, 259,
        284, 5455, 4300, 3807, 3704, 3091, 3205, 5459, 4491, 5324, 3559, 5218, 3115, 1945, 3974, 2389,
        2851, 3973, 295, 6003, 4386, 4728, 256, 3207, 6131, 5639, 4610, 2344, 1729, 5014, 2848, 261,
        4632, 6000, 281, 2695, 6166, 4588, 2357, 4079, 6012, 2131, 3089, 5062, 0, 5914, 3472, 4259,
        5255, 5616, 6116, 1724, 4425, 5637, 2121, 4201, 5796, 2258, 4402, 4806, 2351, 0, 6004, 2323,
        3147, 5404, 6104, 2233, 3447, 0, 2590, 2892, 3603, 5441, 5579, 2732, 3156, 0, 3628, 2815,
        2287, 4986, 6137, 6049, 2715, 1927, 6136, 5080, 5570, 5070, 3462, 2201, 2360, 4046, 6053, 3137,
        5276, 6112, 5977, 0, 5779, 5344, 6050, 2467, 216, 5696, 2120, 5659, 4401, 5830, 3401, 5686,
        6132, 5876, 5809, 5998, 2845, 4477, 5956, 3602, 5332, 3090, 5984, 3525, 5861, 2273, 2203, 2655,
        2326, 5468, 2829, 6124, 3282, 6106, 4305, 5467, 2358, 5968, 4863, 4937, 6134, 5902, 3221, 6151,
    ],
    [
        3288, 2530, 5800, 6125, 5962, 6184, 6149, 2355, 5735, 5930, 2393, 5908, 2345, 154, 64, 2330,
        3316, 6095, 5928, 6163, 2432, 3320, 3403, 2328, 3275, 2372, 5352, 2280, 5081, 2438, 5880, 5939,
        6060, 157, 5708, 6114, 5489, 5085, 6059, 2314, 5707, 6058, 5954, 5923, 2356, 6054, 0, 128,
        307, 0, 4864, 6017, 6101, 129, 6165, 158, 4062, 161, 5888, 3192, 5932, 166, 3292, 3211,
        5952, 6164, 141, 5405, 3366, 2379, 6140, 5633, 140, 6135, 6169, 3297, 2764, 5823, 5069, 3254,
        4460, 6146, 2459, 5214, 2373, 5524, 3287, 6073, 4583, 5515, 2449, 5076, 2388, 6019, 2423, 2587,
        5424, 273, 6057, 6119, 0, 5832, 159, 6055, 3284, 3307, 4849, 2343, 156, 5739, 2277, 2352,
        2814, 5794, 0, 2327, 6143, 4003, 2067, 4197, 5737, 6086, 5879, 2442, 4977, 3016, 5302, 4017,
        5924, 3138, 4842, 3578, 5990, 5740, 2420, 3289, 3435, 5483, 6047, 5842, 3049, 5654, 2132, 271,
        5727, 2135, 5996, 6032, 4482, 3235, 6040, 5650, 3776, 2919, 4829, 2907, 5502, 6011, 3012, 4701,
        296, 4103, 106, 3232, 5973, 5501, 5220, 5821, 1939, 1991, 5266, 4835, 5852, 6068, 2134, 5453,
        6066, 123, 5693, 1767, 5297, 4807, 5283, 5048, 4609, 5826, 5398, 5589, 4700, 5981, 4204, 5499,
        6147, 3849, 4830, 0, 5782, 5044, 5979, 149, 5596, 3007, 5831, 4525, 4998, 5438, 5846, 4625,
        237, 3151, 4919, 0, 4503, 5872, 2252, 3086, 5097, 2906, 5988, 4845, 2698, 4808, 5677, 5717,
        5829, 4576, 103, 3009, 3196, 6071, 2925, 5916, 2311, 4853, 5495, 6031, 5603, 4271, 3125, 5766,
        2298, 3238, 292, 2337, 4361, 5275, 5851, 3083, 5892, 4421, 5720, 5534, 5678, 5788, 2133, 6033,
    ],
    [
        4286, 2808, 5657, 5702, 5911, 5497, 4781, 1999, 3144, 4549, 4619, 3985, 4560, 6107, 5710, 2309,
        2444, 2188, 5356, 5818, 6102, 5277, 4641, 5942, 2308, 5140, 3260, 5047, 5182, 5569, 5246, 5078,
        5454, 3178, 2307, 5840, 3761, 6172, 4824, 3310, 5377, 3104, 3150, 2405, 5484, 2465, 2404, 5294,
        5399, 2460, 1751, 2198, 3073, 5992, 4367, 4865, 5790, 0, 2260, 2435, 2912, 4015, 2101, 6021,
        127, 5901, 3197, 1808, 5679, 3146, 5292, 2249, 3955, 5870, 3862, 2916, 4405, 1951, 5511, 4826,
        4844, 260, 3081, 3765, 2999, 5703, 5764, 2261, 5691, 2680, 2148, 5279, 4198, 5175, 2214, 5685,
        238, 4524, 3997, 165, 3228, 3762, 3760, 83, 5673, 5437, 5552, 2821, 2097, 5694, 4601, 3745,
        5775, 2126, 3255, 2289, 5704, 2349, 5263, 1757, 248, 1666, 2194, 3143, 5315, 5856, 3250, 5136,
        5987, 0, 5519, 2227, 5772, 5473, 5780, 6028, 3336, 3412, 304, 3543, 2714, 5883, 5934, 5854,
        4847, 5905, 6045, 3236, 2436, 0, 2867, 5885, 2196, 5273, 2274, 2002, 5970, 5915, 2713, 3060,
        3396, 4884, 3883, 5058, 5462, 1775, 2469, 4841, 4839, 5550, 5369, 5894, 5265, 5697, 5792, 5728,
        4995, 4799, 2251, 5806, 5907, 190, 4600, 3179, 2283, 5239, 5206, 4366, 4186, 4778, 4409, 2429,
        5835, 2602, 2716, 2179, 3271, 2597, 2240, 2338, 0, 6109, 5941, 4523, 191, 18, 4958, 5658,
        4777, 5820, 5402, 1963, 3050, 2594, 2223, 5382, 4071, 5488, 3000, 3170, 2914, 5860, 2100, 3755,
        3158, 3004, 6056, 5193, 5390, 5975, 4182, 3758, 5383, 4861, 5518, 4353, 5839, 2243, 5522, 5285,
        267, 2219, 5475, 3048, 2293, 2823, 3982, 4040, 5142, 4636, 6079, 2453, 250, 4634, 2004, 2425,
    ],
    [
        4623, 5753, 4480, 3229, 2292, 3234, 2797, 0, 0, 2081, 5850, 5298, 4820, 2816, 2993, 5811,
        4963, 3321, 4191, 2855, 5575, 5445, 2172, 5595, 6093, 5592, 5598, 2228, 4991, 1993, 4996, 0,
        3510, 4805, 0, 224, 3219, 2310, 4587, 3729, 2537, 5587, 0, 4994, 205, 5670, 4837, 3065,
        4579, 3082, 3522, 2091, 282, 5571, 4321, 1924, 201, 4685, 2443, 1955, 210, 305, 4455, 209,
        0, 3176, 4803, 2605, 5388, 5512, 1958, 4748, 5690, 4985, 5138, 3540, 2813, 2998, 4608, 3335,
        2926, 5557, 5919, 0, 2901, 5767, 3709, 2108, 0, 4815, 5776, 5451, 0, 5665, 3339, 3507,
        0, 4990, 4693, 4694, 3694, 5253, 56, 3968, 0, 2080, 3113, 4154, 5286, 3134, 4391, 3754,
        4280, 5207, 1940, 3345, 4169, 0, 4148, 1717, 5418, 5529, 2991, 5567, 3969, 5238, 4307, 3353,
        2566, 0, 5067, 3177, 0, 2810, 0, 2063, 0, 2115, 4606, 2055, 4687, 4521, 6022, 5613,
        5683, 3216, 4983, 4689, 1907, 2702, 4333, 4164, 4818, 4595, 1839, 4338, 2066, 5336, 3495, 2020,
        3376, 5317, 4478, 1645, 3840, 0, 17, 5605, 0, 0, 5750, 0, 0, 32, 2209, 2381,
        3928, 5180, 2382, 4410, 0, 3538, 3338, 2060, 4568, 4168, 0, 5163, 4007, 3944, 5744, 15,
        4330, 3751, 0, 5200, 4980, 2989, 4088, 2899, 0, 3120, 1646, 2034, 5472, 167, 2579, 2960,
        6084, 5133, 0, 0, 2259, 4776, 113, 4446, 2216, 4081, 2359, 4493, 2786, 5641, 2218, 3847,
        3747, 0, 5197, 4556, 2909, 4475, 2191, 4505, 0, 4222, 2234, 2743, 3923, 4952, 4295, 5878,
        2313, 4802, 177, 5254, 2202, 2795, 5444, 2975, 2545, 4558, 2064, 5607, 54, 4817, 4741, 1841,
    ],
    [
        0, 1877, 2123, 5630, 4773, 0, 2130, 4369, 2737, 0, 5586, 5531, 2347, 4487, 0, 1856,
        2106, 4973, 5471, 4812, 5380, 3571, 0, 4196, 5256, 279, 4500, 2663, 2908, 2281, 4053, 0,
        4464, 3956, 0, 5101, 5748, 5662, 0, 5147, 2749, 4257, 2189, 4225, 1796, 1859, 5179, 4279,
        4598, 5457, 5368, 4097, 2951, 4124, 2600, 5169, 5559, 235, 3047, 4519, 5054, 4695, 3457, 4348,
        1990, 3384, 5411, 4163, 1797, 3736, 4582, 5959, 2835, 1996, 2775, 6010, 3942, 3395, 5436, 4090,
        3069, 4398, 4899, 5258, 3797, 5328, 2341, 0, 4630, 5546, 6142, 4904, 3926, 199, 2215, 1935,
        0, 3777, 4957, 4407, 102, 5311, 0, 5651, 236, 0, 5329, 0, 5132, 3045, 4364, 4039,
        2173, 0, 1977, 2525, 1735, 0, 2575, 3294, 5731, 1866, 4020, 6038, 5104, 1741, 4195, 3272,
        5065, 4766, 289, 4032, 0, 4194, 5127, 0, 5797, 5330, 3488, 1787, 5560, 2995, 5549, 3588,
        2609, 4822, 4554, 1988, 4176, 0, 0, 5642, 1912, 3582, 4368, 4258, 2712, 5927, 3121, 0,
        2248, 3945, 3166, 0, 3167, 2676, 197, 1697, 3998, 5606, 5300, 5950, 1901, 3927, 4934, 3372,
        4190, 5092, 231, 5192, 0, 2180, 5052, 4814, 0, 2264, 3455, 5623, 5439, 2217, 4375, 4928,
        2376, 4827, 5801, 1870, 4754, 4390, 3057, 5406, 0, 2518, 5016, 4383, 6048, 5262, 5573, 4660,
        2221, 2487, 2819, 2089, 4581, 0, 3963, 151, 3976, 2614, 1864, 2660, 1789, 3438, 1806, 107,
        4270, 5366, 0, 4118, 5491, 0, 4626, 3280, 4605, 2367, 169, 3268, 4175, 3684, 5933, 0,
        229, 5774, 5033, 4559, 3537, 29, 1846, 4339, 5335, 3213, 3529, 2700, 246, 3448, 2010, 2990,
    ],
    [
        2891, 5413, 5314, 0, 1647, 5948, 5949, 3243, 5543, 3490, 5492, 5741, 5540, 1807, 2208, 1893,
        4677, 5643, 2417, 3560, 1691, 4751, 5426, 0, 100, 5176, 5983, 2874, 5084, 5967, 2237, 3149,
        0, 4892, 4394, 4851, 5170, 5612, 5614, 4264, 5627, 2466, 4999, 5812, 2758, 3248, 81, 3346,
        4840, 5031, 4972, 2174, 4074, 3076, 3970, 1798, 3400, 0, 3749, 4359, 0, 5810, 5427, 3918,
        2504, 5553, 3785, 2262, 0, 142, 4592, 4604, 3657, 2875, 5018, 3079, 6085, 5391, 240, 2526,
        2454, 2285, 0, 4987, 5900, 3614, 2970, 5386, 3088, 6074, 114, 4578, 3901, 0, 0, 2699,
        2177, 5618, 3753, 2090, 2893, 3674, 0, 4143, 2903, 1994, 5030, 5647, 0, 0, 3218, 4992,
        5226, 2694, 5225, 3190, 268, 2458, 93, 4299, 2058, 2621, 3523, 0, 5742, 3819, 4331, 3058,
        5675, 3716, 5755, 2802, 5601, 2143, 1821, 3873, 130, 3855, 1928, 5007, 2665, 0, 5039, 3157,
        0, 3864, 3133, 0, 5389, 1944, 4801, 0, 6115, 5121, 276, 1983, 4254, 0, 5494, 5729,
        4949, 2166, 2482, 2944, 1636, 3576, 3820, 146, 4738, 6030, 4362, 2794, 4875, 3152, 4909, 4898,
        0, 5376, 3707, 2961, 4637, 1989, 4613, 4343, 2346, 112, 4631, 4616, 3680, 5381, 3183, 0,
        2005, 4739, 3261, 1740, 5827, 2902, 4256, 5037, 2580, 4526, 0, 4481, 0, 5393, 300, 5582,
        1644, 5760, 2204, 0, 2820, 0, 2182, 5566, 5012, 4614, 5765, 2210, 4913, 5260, 5227, 5476,
        0, 4627, 2683, 4289, 4083, 1869, 3632, 2724, 2640, 3739, 3756, 5538, 4550, 0, 2113, 3492,
        3867, 2790, 3486, 5452, 4354, 3184, 208, 3247, 4651, 4374, 4914, 5103, 3853, 4944, 5533, 6051,
    ],
    [
        5756, 2452, 4767, 301, 0, 3885, 2230, 0, 3038, 94, 2675, 1805, 5162, 3378, 2689, 4832,
        3215, 2447, 2437, 3832, 5431, 4793, 4683, 4911, 3387, 2129, 2576, 5234, 2652, 4852, 4067, 5011,
        0, 5724, 2876, 3300, 2422, 2946, 2884, 5841, 2924, 2164, 0, 3527, 2862, 1774, 4765, 3964,
        4794, 5808, 2255, 0, 5899, 0, 2564, 2408, 3875, 5746, 6006, 5514, 1873, 2978, 4954, 4465,
        5768, 1830, 4179, 2065, 3327, 1867, 5237, 1814, 2828, 3118, 4001, 4906, 5236, 3981, 3597, 1633,
        1667, 3509, 2778, 2235, 2800, 4862, 0, 2806, 2708, 4562, 4890, 5347, 2168, 0, 2424, 0,
        5118, 3155, 2016, 3743, 0, 3430, 2318, 5561, 3925, 4804, 5346, 3961, 4113, 6098, 111, 5196,
        0, 2153, 4679, 3877, 2972, 5167, 1715, 6099, 6062, 4411, 4334, 0, 131, 302, 5326, 3164,
        4188, 1885, 2049, 5931, 3691, 3117, 3443, 3064, 5124, 3123, 4923, 0, 4389, 2226, 5211, 1845,
        3093, 5957, 4170, 5555, 3508, 278, 4785, 4250, 3034, 0, 3075, 5634, 2544, 5997, 2900, 2400,
        2229, 6141, 2116, 2701, 5781, 0, 5028, 6161, 5995, 2584, 2807, 3960, 3930, 3398, 3074, 4929,
        3744, 5813, 0, 3599, 2184, 3919, 5881, 4788, 0, 5493, 2765, 1953, 4336, 4218, 0, 3085,
        0, 4757, 213, 4187, 0, 215, 3258, 6159, 5385, 1678, 2158, 0, 3240, 0, 275, 0,
        4224, 6020, 2128, 3666, 2696, 4488, 5626, 0, 3333, 132, 143, 2165, 5216, 6087, 3958, 3999,
        4787, 3555, 3145, 3959, 4115, 3023, 0, 5055, 5477, 4174, 0, 1698, 0, 1835, 4993, 4729,
        0, 78, 4580, 4908, 4978, 5198, 0, 3678, 283, 5443, 4539, 2257, 2768, 212, 0, 4412,
    ],
    [
        0, 4709, 5723, 5828, 2374, 4290, 2690, 3194, 101, 5045, 5498, 2362, 5604, 5508, 0, 5117,
        0, 2573, 5624, 0, 3720, 1960, 4696, 2703, 1776, 0, 3025, 0, 4719, 0, 3681, 2015,
        2618, 3536, 4129, 82, 3910, 2692, 2519, 2250, 5296, 0, 4813, 5367, 1923, 4414, 4674, 3148,
        4883, 3705, 303, 1642, 4639, 5301, 0, 1930, 4245, 0, 2124, 0, 3318, 2421, 1753, 0,
        226, 0, 257, 5778, 255, 0, 4123, 2220, 1968, 4988, 5858, 6063, 2411, 5164, 3362, 2852,
        2024, 0, 0, 4712, 2410, 5458, 0, 6034, 5442, 0, 0, 3489, 4935, 0, 0, 3024,
        0, 1884, 155, 6153, 2144, 1769, 0, 285, 3978, 2322, 0, 4373, 4555, 0, 1750, 3504,
        0, 1780, 0, 0, 2169, 5307, 2154, 2931, 0, 3616, 3905, 5873, 1693, 0, 0, 4779,
        3227, 3391, 0, 5122, 2402, 3880, 3052, 3897, 2398, 2949, 3141, 2799, 0, 3298, 4497, 6156,
        5280, 0, 2471, 0, 1801, 2306, 0, 1863, 4117, 0, 0, 2170, 3994, 3598, 2088, 4620,
        3416, 2780, 0, 3189, 3869, 5387, 0, 5291, 3703, 2082, 5631, 0, 2599, 3591, 0, 3770,
        298, 6111, 3102, 0, 0, 5379, 0, 2485, 5088, 2633, 5701, 5105, 2111, 0, 5845, 4946,
        4702, 0, 5098, 5920, 0, 3187, 2923, 0, 0, 0, 0, 0, 3631, 92, 5734, 4710,
        5528, 4114, 5784, 0, 0, 4341, 2578, 3011, 5668, 2448, 3209, 0, 0, 0, 2630, 4253,
        70, 4825, 2997, 0, 2241, 1732, 2543, 4130, 3990, 2125, 2105, 2117, 0, 4920, 3557, 4704,
        0, 2803, 180, 5139, 5874, 3607, 5895, 4667, 5026, 3967, 2395, 3239, 1762, 0, 3193, 0,
    ],
    [
        4528, 0, 0, 3530, 0, 5040, 2479, 4089, 0, 4133, 2483, 0, 3898, 2548, 1903, 5583,
        4304, 6152, 5700, 0, 4459, 6089, 4796, 30, 6069, 0, 2742, 2057, 0, 0, 3015, 5824,
        3217, 4138, 2611, 0, 2167, 2224, 3894, 3741, 5322, 3886, 3562, 5128, 5615, 0, 0, 0,
        2755, 0, 2336, 1634, 3379, 3188, 4517, 0, 2383, 0, 2302, 5036, 2430, 2539, 0, 3938,
        0, 3790, 3423, 0, 2934, 3563, 0, 2974, 0, 5460, 4658, 5715, 2494, 4444, 0, 2484,
        4617, 5609, 0, 0, 0, 4924, 3474, 3267, 1738, 5937, 5161, 4239, 11, 5312, 4665, 3542,
        3309, 2516, 4034, 4855, 3266, 4294, 4199, 1640, 4316, 2278, 3891, 4249, 5951, 1954, 3643, 5674,
        3689, 6122, 2225, 5597, 5577, 4597, 4162, 2041, 4678, 0, 3887, 0, 0, 2071, 2985, 0,
        4357, 5656, 153, 1623, 4419, 2624, 2553, 1802, 4577, 4752, 0, 1793, 6083, 2263, 5423, 3311,
        3711, 5184, 4241, 3154, 1881, 3783, 2514, 4831, 117, 3390, 5157, 1684, 5882, 4420, 5853, 4546,
        6078, 5027, 2898, 3503, 3332, 4470, 0, 3996, 51, 3053, 0, 1982, 4110, 2062, 5545, 2598,
        5925, 4688, 0, 2654, 3806, 3534, 3054, 4233, 1829, 3449, 3169, 0, 3922, 311, 5293, 2784,
        118, 0, 0, 3422, 3991, 5833, 0, 5102, 0, 5334, 5947, 0, 2301, 0, 4415, 3605,
        2866, 2480, 5922, 95, 121, 2894, 1961, 0, 5407, 2890, 0, 0, 3262, 0, 0, 2205,
        1781, 2406, 5568, 5051, 4392, 0, 5838, 5506, 4430, 3110, 2948, 2729, 5695, 3771, 4228, 3723,
        2650, 6120, 4897, 5270, 5029, 0, 3452, 220, 0, 1686, 4128, 3251, 5917, 0, 0, 3173,
    ],
    [
        3824, 3768, 2431, 2464, 5944, 4809, 1611, 5676, 5982, 0, 5154, 3270, 0, 3485, 4065, 3483,
        5474, 3286, 5544, 308, 3581, 6150, 1748, 3304, 2726, 6180, 5523, 4178, 2079, 5400, 3322, 0,
        5072, 5320, 0, 3823, 3323, 3281, 3740, 5906, 316, 3256, 1894, 5798, 2499, 2929, 3519, 3590,
        1755, 0, 2192, 2380, 3358, 5429, 5202, 2783, 1815, 3269, 4298, 0, 3285, 0, 0, 5015,
        4320, 3278, 0, 2687, 20, 5688, 3274, 3470, 0, 4467, 5340, 3935, 6005, 5059, 5281, 4160,
        0, 3734, 5769, 5793, 4418, 1703, 3989, 0, 0, 4753, 6126, 4315, 2369, 2440, 2032, 4030,
        2316, 3203, 4860, 160, 6157, 2141, 3646, 6097, 3735, 4116, 164, 6185, 0, 0, 5536, 3636,
        1628, 2409, 3662, 4533, 5886, 3198, 4319, 5722, 3950, 3826, 0, 3622, 36, 6171, 0, 4545,
        4377, 4792, 0, 5425, 3028, 3518, 4918, 2059, 4010, 5290, 3725, 0, 3036, 3377, 0, 2269,
        5625, 5017, 4854, 5912, 4038, 2419, 5095, 6121, 2706, 2798, 0, 6148, 306, 2915, 3984, 3750,
        3100, 2589, 4848, 5466, 0, 0, 115, 4185, 5837, 5408, 2433, 0, 2332, 5866, 5910, 4387,
        2119, 172, 1868, 2659, 5926, 4483, 2833, 6092, 0, 2098, 4672, 4965, 6065, 5935, 2414, 5480,
        0, 5224, 1626, 4005, 2577, 2812, 3001, 2801, 3710, 2053, 5558, 3350, 2245, 4870, 3679, 1630,
        2368, 3140, 5918, 4624, 4134, 2753, 4745, 122, 2197, 2897, 3814, 5247, 5692, 6067, 4733, 5610,
        3084, 5770, 3861, 4479, 6128, 6177, 6173, 3249, 2324, 0, 5619, 4891, 3139, 0, 2213, 4971,
        5111, 3116, 3008, 6013, 3364, 1937, 1911, 3061, 3506, 5564, 5640, 3902, 3109, 5510, 3026, 3413,
    ],
    [
        4534, 138, 3810, 4036, 3731, 4723, 4874, 2061, 0, 0, 4878, 39, 3953, 1722, 6127, 0,
        2674, 0, 5726, 3094, 3677, 3003, 1702, 245, 4515, 3210, 214, 265, 0, 4438, 6025, 0,
        2003, 2000, 2412, 5672, 3296, 5259, 2279, 1712, 5943, 4586, 4529, 2415, 74, 2455, 2457, 0,
        4399, 5834, 5319, 3334, 5035, 5887, 5274, 6014, 6160, 4947, 2295, 2152, 4907, 6175, 4142, 2935,
        5414, 5071, 3312, 3071, 104, 3567, 5333, 2968, 0, 5401, 4567, 3068, 2268, 5803, 2238, 5646,
        5730, 4476, 4856, 0, 5299, 3212, 69, 4903, 5989, 5403, 5355, 0, 2921, 2842, 3017, 3131,
        2969, 5304, 3206, 3168, 3161, 3493, 1676, 2882, 3565, 4504, 2489, 2162, 0, 4260, 2992, 6158,
        0, 3301, 2984, 6167, 2434, 4942, 3929, 5985, 4344, 3127, 4736, 79, 2401, 3077, 234, 5680,
        1950, 5527, 4172, 5644, 1938, 2976, 2187, 0, 198, 4871, 4229, 1840, 2596, 3388, 4629, 3924,
        3769, 2572, 4966, 2593, 2276, 2364, 4272, 5963, 0, 3458, 3214, 3406, 5652, 0, 4022, 0,
        3520, 4078, 96, 3185, 4210, 5875, 5590, 3200, 0, 4111, 2212, 4075, 4744, 5221, 0, 5268,
        4638, 202, 3759, 3671, 5629, 5478, 2896, 5814, 0, 4699, 3111, 73, 5762, 2025, 2628, 1959,
        4640, 6090, 6113, 1639, 0, 0, 1820, 1922, 5415, 1852, 3708, 4226, 0, 269, 2073, 3859,
        5074, 5357, 4006, 4797, 3290, 0, 5043, 4144, 1673, 4516, 3317, 80, 5795, 2994, 4424, 1737,
        4713, 4220, 5904, 5960, 0, 5898, 5321, 3368, 5082, 0, 4622, 2456, 0, 3726, 3078, 0,
        5421, 5867, 5738, 1690, 5116, 5805, 145, 5373, 1931, 1784, 0, 3774, 0, 125, 3020, 0,
    ],
    [
        3539, 4734, 0, 0, 1619, 5486, 3437, 5669, 4873, 5461, 175, 4838, 3865, 4200, 4413, 3618,
        3132, 5371, 5228, 4882, 3781, 0, 5022, 4538, 0, 0, 0, 2040, 4105, 4283, 0, 2534,
        242, 2988, 6183, 4735, 4955, 2392, 258, 2078, 0, 5068, 288, 0, 2930, 4513, 4759, 4585,
        2958, 5362, 1995, 2549, 2385, 4927, 0, 0, 1731, 5804, 0, 0, 0, 0, 3558, 0,
        5257, 5083, 2746, 4080, 0, 2181, 2881, 0, 5580, 299, 1975, 5181, 4380, 0, 5712, 0,
        2266, 4192, 4960, 0, 2940, 4708, 5141, 2657, 5146, 1969, 0, 4544, 2325, 4284, 4313, 5554,
        5807, 6044, 1809, 3386, 2927, 5240, 4048, 0, 2871, 5024, 1936, 5287, 2282, 2889, 1822, 4468,
        4722, 5572, 0, 5422, 4786, 0, 3360, 6035, 4532, 0, 2785, 204, 2048, 0, 0, 3056,
        5212, 2682, 4905, 4349, 2653, 5209, 0, 0, 2043, 3580, 3971, 4372, 3514, 4795, 4656, 4763,
        3683, 0, 5339, 4297, 0, 2581, 5825, 5126, 0, 5449, 25, 2109, 2772, 2391, 4064, 1816,
        0, 1761, 4486, 0, 0, 0, 2883, 2739, 5789, 4941, 5021, 3728, 0, 2103, 4155, 0,
        3006, 109, 5241, 0, 2028, 2377, 4047, 2620, 0, 3972, 5428, 5394, 2962, 4451, 4326, 2570,
        4146, 0, 2565, 4732, 5419, 4522, 2759, 5490, 3419, 0, 0, 3237, 2056, 2254, 0, 0,
        1916, 0, 5199, 0, 0, 4764, 0, 1898, 0, 0, 0, 1704, 0, 4269, 5213, 0,
        24, 4061, 0, 4615, 0, 317, 2718, 2585, 0, 0, 1871, 4690, 5271, 272, 5448, 211,
        3225, 4997, 0, 5961, 4557, 4025, 5785, 0, 4951, 0, 0, 5375, 2517, 2583, 5384, 3645,
    ],
    [
        4057, 4277, 5503, 0, 0, 4936, 5578, 0, 0, 2114, 1625, 3027, 0, 4599, 5897, 3619,
        2825, 3524, 4474, 3476, 2092, 4896, 0, 4968, 5877, 3434, 0, 3051, 4303, 2634, 287, 2390,
        137, 4943, 2095, 2668, 4360, 0, 2155, 4213, 0, 0, 0, 0, 0, 0, 0, 4400,
        3201, 6008, 3337, 1934, 0, 1998, 2247, 5008, 5622, 4698, 4573, 0, 4059, 0, 3106, 0,
        0, 2705, 3556, 3230, 0, 4337, 4628, 4772, 5470, 0, 1641, 13, 1770, 0, 3299, 0,
        0, 3505, 5156, 4834, 0, 1904, 2643, 3895, 4458, 2776, 3803, 0, 0, 0, 0, 4666,
        2830, 4655, 0, 3129, 5191, 2571, 5993, 0, 4150, 0, 2312, 2791, 0, 5706, 1621, 0,
        0, 1804, 5053, 0, 3763, 5541, 1643, 4312, 0, 0, 5032, 0, 3831, 1671, 4819, 0,
        0, 5166, 3574, 4165, 5986, 4261, 3175, 0, 5038, 0, 3909, 6072, 5600, 1792, 4029, 0,
        2789, 2284, 0, 4740, 4760, 5817, 5456, 0, 4285, 0, 4437, 4823, 0, 0, 0, 5303,
        5628, 6041, 0, 5341, 3596, 5819, 1926, 2562, 3642, 5547, 5594, 0, 3547, 0, 1653, 5174,
        4976, 3608, 2271, 3062, 3748, 3669, 2804, 3374, 0, 5125, 0, 2872, 1997, 0, 3415, 5351,
        3842, 4774, 0, 0, 0, 3533, 0, 0, 0, 3479, 2099, 195, 3600, 2928, 0, 5593,
        5056, 0, 0, 3738, 0, 2777, 4979, 3900, 0, 4716, 4727, 1842, 5481, 5112, 1971, 3742,
        0, 4663, 2156, 5066, 0, 0, 3813, 6042, 5223, 5370, 0, 5325, 4543, 0, 3172, 144,
        3107, 5020, 4859, 4102, 2582, 0, 0, 6064, 0, 0, 4866, 0, 3331, 5548, 0, 2837,
    ],
    [
        0, 0, 6100, 322, 0, 4668, 6036, 2178, 2193, 1675, 0, 4026, 4471, 1872, 6026, 2981,
        3441, 293, 3165, 4432, 5123, 5232, 2185, 4612, 1716, 0, 4930, 0, 41, 3128, 0, 2239,
        0, 3043, 0, 3915, 4594, 5272, 5844, 0, 4989, 4119, 3934, 120, 223, 3846, 1659, 5945,
        3087, 4085, 4087, 3142, 5168, 2246, 2888, 1921, 3845, 0, 5250, 1759, 4183, 0, 4423, 2026,
        5802, 2986, 2413, 3482, 0, 4566, 3896, 6037, 0, 3531, 3871, 5450, 2568, 0, 4510, 4926,
        4352, 2183, 2027, 3055, 5591, 4177, 5865, 2006, 1987, 2206, 5396, 0, 3223, 0, 4301, 0,
        0, 0, 3037, 0, 5360, 0, 4395, 3685, 3816, 5999, 0, 0, 0, 6091, 6024, 1932,
        3180, 5208, 2150, 5689, 2147, 0, 4571, 0, 0, 1857, 4901, 4646, 3044, 3511, 0, 3499,
        2586, 4798, 3921, 2773, 2211, 2693, 4643, 5077, 0, 97, 3159, 4208, 4050, 4572, 4137, 4635,
        2403, 0, 2697, 2967, 4869, 4189, 4697, 3917, 0, 3080, 0, 5331, 5786, 0, 4758, 0,
        2533, 0, 5323, 5940, 1617, 5487, 3890, 0, 2524, 5725, 2555, 4093, 0, 6080, 0, 0,
        4603, 2331, 4161, 0, 3988, 3835, 5635, 0, 5264, 0, 6144, 0, 0, 3714, 1933, 2104,
        182, 0, 3802, 1862, 1865, 0, 0, 2394, 5822, 0, 5409, 0, 233, 4469, 3246, 5517,
        4121, 3613, 2171, 3224, 0, 3382, 0, 6076, 5416, 4518, 0, 4379, 5310, 0, 0, 0,
        5372, 0, 0, 2427, 0, 0, 3860, 5551, 3975, 2774, 2051, 2256, 0, 2096, 5173, 3114,
        3907, 0, 0, 0, 0, 4514, 5745, 0, 147, 2725, 2523, 2342, 0, 3583, 5843, 3042,
    ],
    [
        4325, 3615, 266, 2378, 3966, 2151, 4376, 4836, 1783, 2050, 1888, 98, 0, 2142, 0, 4158,
        2707, 0, 0, 5172, 5034, 0, 0, 5636, 0, 5365, 0, 0, 2288, 4593, 4184, 4970,
        5532, 0, 0, 2481, 4984, 4346, 2297, 0, 5757, 5215, 2505, 5203, 0, 3099, 1692, 3706,
        5205, 4145, 2847, 0, 5732, 5581, 4393, 0, 0, 0, 2488, 0, 5160, 2822, 4512, 0,
        2290, 5229, 5042, 1899, 1694, 4240, 2163, 2532, 5758, 3521, 0, 0, 5432, 0, 5109, 0,
        3805, 4982, 0, 0, 0, 0, 5131, 4654, 0, 0, 0, 0, 110, 3265, 2522, 3908,
        5664, 4035, 0, 2720, 2046, 3545, 0, 1902, 5135, 4857, 3786, 3461, 4953, 0, 0, 1779,
        0, 0, 3863, 3757, 5711, 3954, 2840, 5342, 0, 3724, 2980, 2632, 2885, 5663, 5661, 2386,
        5130, 0, 38, 5521, 251, 4302, 0, 0, 4769, 0, 0, 4584, 0, 3119, 2272, 3946,
        0, 1800, 0, 3411, 0, 5771, 5599, 4886, 4263, 5585, 3046, 3208, 34, 4821, 0, 5244,
        1746, 5896, 5392, 5046, 5284, 5023, 2817, 3746, 0, 119, 65, 2068, 5061, 4770, 3818, 3487,
        5230, 0, 6110, 5777, 0, 2669, 5177, 0, 4141, 4127, 3264, 310, 0, 1949, 1896, 0,
        2939, 3466, 4520, 0, 3352, 2841, 5526, 5889, 4385, 3408, 0, 0, 4452, 0, 4948, 0,
        0, 0, 2451, 0, 5338, 4730, 3171, 0, 105, 4358, 3658, 1986, 5565, 0, 3914, 189,
        0, 3850, 5759, 3815, 91, 0, 0, 2952, 203, 2157, 5358, 0, 4340, 3101, 4045, 5516,
        5721, 0, 0, 3943, 1967, 2709, 321, 2339, 0, 192, 4397, 4153, 35, 4775, 5119, 3070,
    ],
    [
        0, 0, 1664, 1723, 0, 1685, 2086, 0, 0, 0, 0, 0, 0, 0, 0, 0,
        0, 0, 0, 0, 0, 0, 4721, 0, 0, 0, 2870, 1851, 0, 0, 0, 0,
        0, 3624, 1974, 0, 0, 0, 0, 0, 0, 0, 0, 0, 0, 0, 3854, 3676,
        0, 4211, 0, 0, 0, 0, 0, 1980, 0, 0, 0, 0, 0, 0, 0, 0,
        0, 3827, 0, 0, 0, 0, 3471, 1657, 0, 1635, 3629, 3032, 0, 4746, 0, 4000,
        0, 0, 0, 0, 0, 0, 0, 3648, 1861, 0, 0, 0, 0, 0, 0, 0,
        0, 1705, 0, 0, 0, 0, 0, 3526, 0, 0, 57, 0, 0, 0, 0, 0,
        0, 1854, 0, 0, 0, 0, 1742, 0, 1970, 2038, 0, 0, 0, 1754, 0, 0,
        0, 0, 4069, 0, 0, 0, 0, 3733, 1658, 0, 0, 0, 0, 88, 0, 0,
        0, 46, 0, 0, 0, 0, 4016, 0, 0, 1651, 0, 2094, 196, 0, 5194, 0,
        3839, 0, 0, 0, 0, 5222, 207, 5249, 0, 0, 3799, 0, 0, 0, 4008, 3465,
        0, 0, 0, 0, 0, 0, 0, 0, 0, 3517, 0, 5009, 3621, 3936, 0, 0,
        0, 0, 0, 6108, 0, 0, 0, 0, 2818, 0, 3097, 4073, 0, 4140, 0, 0,
        4450, 0, 3383, 0, 0, 0, 0, 0, 0, 0, 1844, 1734, 2018, 4915, 0, 0,
        0, 4894, 0, 0, 4296, 0, 0, 3604, 0, 0, 0, 0, 1966, 0, 3022, 0,
        0, 3800, 0, 2340, 0, 2782, 0, 4328, 0, 0, 244, 1943, 0, 4345, 0, 0,
    ],
    [
        0, 3920, 0, 0, 0, 2512, 0, 0, 0, 5115, 3609, 0, 0, 0, 0, 0,
        0, 0, 0, 3475, 0, 0, 0, 0, 0, 0, 0, 0, 0, 4051, 0, 0,
        0, 4652, 0, 3941, 1749, 0, 171, 0, 0, 0, 0, 0, 0, 0, 0, 3812,
        0, 0, 0, 0, 0, 0, 0, 2557, 1669, 4485, 2474, 0, 0, 0, 0, 0,
        2943, 0, 4783, 0, 0, 222, 0, 0, 4215, 0, 0, 0, 0, 0, 0, 0,
        0, 0, 1632, 0, 0, 0, 0, 1925, 1771, 0, 0, 0, 0, 0, 0, 6105,
        63, 0, 0, 0, 3625, 2887, 3564, 0, 0, 0, 0, 0, 0, 241, 0, 0,
        0, 4092, 2843, 0, 0, 0, 0, 0, 0, 0, 0, 0, 0, 0, 1683, 0,
        0, 0, 0, 0, 0, 4981, 4207, 0, 0, 0, 2350, 0, 0, 0, 2860, 4750,
        0, 4099, 0, 4662, 2953, 0, 5099, 0, 1880, 6043, 0, 0, 2771, 4227, 0, 0,
        3663, 0, 4494, 3841, 5666, 0, 4276, 3794, 0, 2649, 5946, 4535, 2498, 0, 0, 0,
        1747, 0, 0, 0, 0, 3512, 0, 0, 5108, 4108, 0, 3627, 0, 0, 0, 3276,
        134, 0, 0, 1726, 0, 1695, 1654, 0, 0, 0, 0, 0, 4686, 1760, 0, 0,
        1837, 0, 0, 4527, 2139, 1610, 0, 5655, 0, 0, 0, 3892, 0, 4318, 4811, 5308,
        0, 2529, 2370, 5718, 3933, 2299, 0, 2626, 2366, 77, 3252, 3766, 5733, 6139, 61, 262,
        5509, 0, 0, 0, 4243, 4221, 0, 0, 0, 0, 0, 0, 4063, 3410, 3072, 0,
    ],
    [
        0, 3302, 0, 3838, 0, 319, 2932, 2320, 3277, 3160, 6170, 3404, 4810, 3202, 5909, 3204,
        318, 2333, 3279, 0, 3313, 2361, 2375, 2839, 5134, 6155, 3634, 5120, 0, 4645, 0, 5087,
        0, 0, 2354, 14, 0, 6018, 0, 0, 2966, 3456, 0, 2416, 0, 0, 5295, 0,
        0, 6118, 0, 52, 0, 0, 0, 2335, 6133, 0, 1915, 3695, 2844, 2353, 4042, 0,
        5958, 2635, 0, 0, 5799, 0, 1906, 0, 0, 1853, 3291, 0, 0, 0, 0, 2719,
        0, 2329, 2384, 0, 0, 4024, 0, 2334, 1719, 0, 0, 2642, 0, 3325, 3606, 0,
        0, 6096, 0, 3809, 0, 5864, 0, 0, 0, 0, 0, 1985, 0, 3394, 0, 6182,
        0, 0, 2244, 3568, 0, 2441, 0, 0, 1765, 0, 5278, 0, 4670, 0, 4356, 314,
        0, 0, 0, 0, 0, 0, 5716, 4633, 5288, 4531, 0, 0, 0, 2734, 6027, 0,
        5698, 3195, 2809, 0, 0, 4507, 3370, 3463, 184, 0, 5420, 4843, 4293, 5137, 5681, 3870,
        1613, 0, 1709, 2045, 291, 1883, 0, 5430, 0, 2118, 5763, 0, 0, 4669, 0, 3468,
        0, 0, 5787, 0, 2478, 0, 0, 4718, 3579, 4351, 0, 0, 0, 0, 5815, 0,
        0, 0, 0, 2232, 2470, 0, 1882, 0, 0, 1615, 5736, 0, 0, 0, 6082, 2275,
        0, 0, 0, 0, 0, 3889, 5621, 0, 3554, 5705, 3041, 2827, 0, 0, 1670, 0,
        0, 124, 0, 5282, 0, 0, 0, 5936, 254, 5001, 0, 0, 3328, 4309, 5893, 2069,
        0, 2365, 4203, 0, 0, 2996, 2511, 4833, 0, 5859, 179, 3135, 0, 3713, 5863, 3010,
    ],
    [
        1834, 5063, 2913, 0, 4308, 5465, 0, 0, 4590, 5783, 0, 0, 5485, 2070, 0, 4782,
        5496, 4109, 5563, 2538, 0, 0, 4589, 3478, 2905, 3136, 0, 5891, 0, 5354, 2231, 0,
        0, 2242, 0, 4388, 0, 0, 0, 0, 0, 0, 0, 0, 5434, 0, 0, 2319,
        0, 0, 0, 5848, 0, 0, 5868, 4850, 0, 3779, 4961, 3496, 0, 232, 3833, 4448,
        2199, 4621, 0, 3828, 6130, 0, 0, 0, 5412, 0, 0, 3253, 5289, 0, 2850, 0,
        0, 0, 3014, 0, 3593, 0, 0, 0, 0, 0, 5816, 3199, 5991, 2637, 6179, 5682,
        5433, 0, 4916, 0, 2500, 5671, 0, 0, 3911, 4563, 4742, 2603, 2982, 0, 0, 5185,
        0, 2770, 58, 4066, 0, 3980, 0, 0, 3541, 0, 3660, 0, 0, 0, 3701, 3343,
        0, 0, 2084, 0, 0, 0, 0, 0, 0, 2973, 3903, 1874, 0, 4404, 0, 4917,
        4149, 0, 5978, 5025, 0, 0, 4287, 4214, 0, 0, 0, 0, 1909, 0, 0, 2087,
        3561, 0, 3039, 2613, 0, 0, 0, 0, 2186, 3344, 2857, 0, 0, 0, 0, 0,
        280, 3105, 0, 0, 3552, 4607, 3359, 0, 5060, 0, 5969, 0, 0, 2736, 0, 2895,
        0, 3066, 0, 0, 4780, 4720, 0, 2591, 5562, 0, 4828, 3442, 59, 0, 2727, 4939,
        5966, 5611, 0, 2686, 1736, 2677, 5504, 0, 0, 0, 4292, 4416, 5243, 3324, 4086, 4618,
        0, 0, 0, 0, 3767, 2754, 2008, 4206, 0, 0, 3876, 0, 0, 3516, 4055, 0,
        0, 4790, 3937, 4291, 0, 0, 4462, 0, 0, 22, 2031, 5687, 4002, 0, 0, 2704,
    ],
    [
        0, 4202, 0, 2781, 1756, 0, 0, 0, 0, 4049, 1811, 0, 0, 1744, 0, 3577,
        0, 0, 2911, 1710, 0, 5019, 0, 3916, 0, 2645, 0, 5773, 2877, 1948, 0, 3668,
        0, 0, 0, 0, 4749, 0, 0, 0, 5348, 5446, 0, 0, 0, 0, 4426, 0,
        0, 0, 5178, 0, 0, 0, 27, 2236, 0, 3595, 0, 0, 5057, 4495, 0, 0,
        55, 0, 0, 5343, 0, 0, 0, 0, 0, 0, 0, 3822, 3825, 0, 0, 0,
        0, 0, 0, 0, 0, 4306, 0, 0, 0, 2745, 3949, 5210, 0, 0, 3473, 0,
        0, 0, 0, 0, 0, 0, 1706, 0, 0, 0, 0, 0, 2805, 1665, 0, 1941,
        0, 178, 0, 0, 1648, 0, 0, 0, 0, 4120, 0, 5129, 0, 4171, 3796, 0,
        3795, 3948, 0, 4974, 0, 0, 1946, 0, 0, 0, 4743, 0, 5152, 0, 0, 0,
        0, 2853, 4384, 2093, 0, 0, 4931, 0, 0, 0, 0, 0, 0, 4502, 0, 0,
        193, 0, 2904, 0, 2636, 2592, 0, 3732, 1947, 1818, 0, 0, 0, 3730, 0, 4408,
        0, 3428, 0, 0, 0, 5188, 4676, 0, 4223, 2910, 0, 0, 3122, 0, 0, 3904,
        2140, 0, 4893, 3721, 1886, 4756, 0, 2190, 2138, 0, 0, 4910, 0, 4569, 0, 5306,
        2846, 2076, 3454, 4112, 4945, 4950, 0, 0, 0, 3804, 0, 0, 0, 2964, 2811, 1714,
        3752, 0, 5749, 3361, 0, 0, 3414, 0, 0, 3652, 253, 0, 3426, 0, 2510, 3103,
        3947, 3587, 0, 0, 0, 3548, 0, 0, 0, 0, 0, 3174, 1812, 0, 194, 5556,
    ],
    [
        0, 0, 0, 0, 0, 3546, 0, 45, 2886, 0, 0, 1890, 0, 3692, 2647, 2936,
        5316, 4682, 3532, 2733, 2506, 2550, 0, 0, 0, 1680, 0, 0, 0, 0, 3664, 0,
        5003, 0, 2035, 0, 0, 0, 2107, 0, 0, 0, 0, 2207, 1720, 0, 0, 4789,
        0, 0, 0, 3638, 2560, 0, 1772, 3610, 0, 0, 0, 0, 0, 0, 0, 0,
        0, 0, 3130, 1766, 0, 0, 0, 0, 0, 0, 0, 0, 4193, 0, 0, 0,
        0, 4311, 0, 181, 0, 3952, 0, 0, 0, 2710, 4711, 0, 3673, 0, 0, 0,
        0, 0, 0, 0, 0, 0, 4167, 0, 0, 0, 0, 0, 0, 0, 0, 1929,
        1819, 0, 2685, 0, 227, 0, 0, 1620, 0, 0, 0, 0, 0, 0, 0, 3585,
        0, 2723, 0, 0, 3979, 3951, 0, 1624, 3640, 0, 0, 0, 4365, 0, 0, 0,
        0, 0, 0, 0, 0, 0, 0, 3633, 0, 0, 0, 0, 4771, 4363, 0, 0,
        5013, 0, 0, 0, 3375, 3063, 0, 2149, 0, 0, 4371, 0, 0, 3829, 4755, 0,
        2022, 0, 0, 0, 3620, 0, 0, 0, 0, 0, 0, 0, 0, 0, 2145, 0,
        0, 0, 0, 0, 0, 0, 0, 0, 0, 0, 4324, 5440, 0, 4731, 4335, 0,
        0, 0, 0, 0, 0, 2711, 0, 4967, 0, 0, 0, 0, 2606, 4653, 0, 3380,
        0, 4011, 0, 0, 0, 0, 0, 4273, 0, 4872, 0, 0, 5313, 4282, 0, 4492,
        4267, 5106, 4147, 3124, 5649, 0, 2541, 0, 0, 0, 0, 0, 2608, 0, 3347, 1682,
    ],
    [
        0, 0, 1730, 0, 0, 2987, 0, 0, 6168, 0, 0, 0, 0, 1942, 1764, 3793,
        0, 0, 0, 2629, 3019, 0, 0, 2679, 0, 0, 0, 3665, 0, 0, 2075, 0,
        0, 2558, 1799, 0, 0, 0, 2493, 4570, 0, 0, 4933, 2767, 16, 0, 0, 0,
        3851, 0, 0, 0, 3884, 2030, 0, 0, 0, 0, 2648, 0, 4511, 0, 5747, 0,
        0, 2670, 0, 0, 4082, 0, 0, 0, 0, 0, 0, 0, 0, 0, 3349, 4434,
        0, 0, 2880, 4442, 4537, 2979, 0, 0, 0, 0, 0, 0, 0, 0, 0, 0,
        0, 0, 0, 0, 0, 0, 1650, 0, 2042, 0, 4247, 3283, 3644, 0, 3112, 0,
        0, 3340, 0, 0, 0, 0, 0, 0, 3407, 0, 0, 0, 239, 0, 0, 2873,
        0, 0, 0, 3690, 0, 5479, 3329, 0, 0, 2831, 0, 0, 0, 0, 0, 1973,
        3940, 0, 1699, 0, 3424, 2666, 0, 0, 0, 0, 3326, 0, 0, 0, 0, 3589,
        0, 4461, 4131, 0, 0, 0, 0, 0, 0, 1892, 0, 0, 0, 4574, 0, 4058,
        4602, 0, 2644, 0, 0, 0, 2832, 0, 4673, 0, 0, 0, 3231, 0, 0, 0,
        0, 0, 3356, 0, 5231, 0, 0, 4530, 0, 2741, 1978, 5971, 0, 0, 0, 0,
        0, 0, 1918, 0, 2638, 4095, 0, 0, 174, 3868, 1833, 0, 0, 0, 3653, 4649,
        0, 0, 0, 4096, 5107, 0, 0, 0, 3601, 0, 5100, 0, 0, 0, 0, 0,
        0, 0, 0, 0, 0, 0, 0, 0, 0, 0, 0, 0, 4156, 0, 0, 0,
    ],
    [
        108, 0, 0, 0, 0, 1707, 4262, 0, 0, 0, 0, 0, 3498, 0, 3656, 3367,
        2971, 2641, 0, 4724, 4139, 4242, 0, 1828, 0, 5539, 0, 0, 0, 0, 0, 0,
        0, 0, 0, 0, 0, 0, 5114, 1957, 0, 3906, 0, 252, 0, 4536, 3899, 0,
        0, 0, 0, 0, 0, 0, 0, 0, 4180, 1700, 0, 3717, 0, 0, 0, 0,
        2878, 0, 0, 0, 2547, 0, 0, 62, 0, 84, 0, 1743, 0, 0, 0, 0,
        0, 3030, 3550, 0, 0, 0, 5148, 0, 0, 0, 0, 4181, 0, 3784, 0, 0,
        3811, 0, 0, 0, 4540, 1905, 0, 0, 0, 3513, 3696, 0, 4406, 3405, 0, 0,
        0, 0, 1725, 0, 0, 0, 0, 0, 0, 0, 0, 4013, 87, 0, 0, 0,
        0, 0, 4714, 2112, 0, 4327, 3365, 0, 0, 0, 2490, 0, 1721, 0, 0, 173,
        0, 0, 0, 0, 0, 2631, 0, 0, 4938, 2561, 0, 2513, 0, 0, 0, 0,
        3357, 0, 1668, 0, 0, 0, 0, 5144, 0, 4107, 2834, 0, 0, 0, 0, 4498,
        2646, 0, 0, 0, 0, 0, 1627, 1823, 0, 0, 2176, 0, 0, 0, 0, 0,
        3801, 0, 0, 53, 0, 0, 0, 0, 0, 4867, 5186, 0, 0, 0, 0, 0,
        0, 0, 0, 1976, 0, 5374, 0, 0, 0, 0, 0, 71, 3592, 0, 2546, 0,
        0, 2678, 3584, 0, 5006, 0, 3782, 0, 1791, 0, 5410, 4737, 4880, 0, 0, 0,
        0, 1687, 0, 0, 1965, 0, 0, 0, 3932, 0, 0, 0, 0, 0, 3857, 4209,
    ],
    [
        3834, 0, 0, 3623, 0, 3018, 0, 2957, 0, 4159, 0, 2009, 0, 3460, 0, 0,
        0, 0, 0, 0, 0, 2011, 0, 0, 0, 2672, 0, 4037, 0, 0, 0, 0,
        0, 0, 0, 0, 0, 0, 3787, 0, 3939, 0, 0, 0, 0, 0, 4661, 0,
        0, 0, 0, 0, 0, 0, 1785, 2863, 0, 1992, 3686, 4439, 2612, 0, 0, 0,
        2567, 4692, 0, 0, 49, 0, 0, 3163, 0, 0, 0, 5113, 1662, 0, 0, 0,
        0, 0, 0, 0, 2664, 0, 0, 0, 0, 4056, 0, 4800, 0, 0, 0, 0,
        0, 0, 0, 0, 0, 0, 0, 0, 0, 0, 4266, 2531, 0, 1900, 0, 3866,
        0, 0, 0, 4900, 1914, 0, 4028, 0, 0, 0, 0, 0, 0, 0, 5530, 44,
        0, 99, 4440, 2762, 0, 2012, 0, 0, 0, 0, 1674, 0, 0, 4684, 0, 2472,
        0, 0, 1836, 0, 2044, 0, 0, 0, 0, 3817, 0, 0, 0, 0, 0, 4370,
        2735, 263, 4443, 1897, 1701, 3549, 0, 0, 3670, 0, 1768, 0, 0, 0, 4355, 0,
        0, 0, 3035, 4104, 5094, 0, 0, 2102, 0, 230, 0, 0, 0, 0, 0, 1614,
        0, 0, 3467, 0, 0, 0, 0, 0, 3882, 0, 4396, 0, 0, 2750, 0, 1689,
        4895, 0, 0, 0, 0, 0, 0, 0, 0, 0, 1952, 0, 0, 0, 0, 3477,
        0, 0, 4072, 0, 4506, 0, 0, 0, 0, 0, 0, 0, 2854, 0, 2021, 0,
        0, 0, 4706, 3341, 0, 0, 0, 0, 4322, 0, 4888, 0, 0, 0, 0, 0,
    ],
    [
        3501, 0, 0, 2793, 0, 0, 0, 0, 0, 0, 0, 5309, 4717, 0, 0, 0,
        5110, 0, 0, 0, 0, 2947, 3494, 4012, 0, 0, 0, 3528, 0, 3888, 0, 60,
        0, 0, 3551, 0, 0, 0, 0, 0, 0, 0, 0, 0, 2731, 0, 0, 3459,
        0, 3808, 0, 0, 0, 0, 1679, 0, 2684, 0, 0, 0, 2661, 0, 4664, 0,
        1612, 2475, 4553, 0, 0, 2473, 1803, 0, 0, 0, 0, 0, 0, 0, 0, 0,
        0, 0, 3995, 0, 1878, 0, 0, 68, 0, 2039, 3858, 0, 4314, 0, 0, 0,
        3351, 4255, 4457, 4382, 0, 0, 0, 21, 0, 4288, 0, 0, 0, 0, 0, 0,
        2495, 0, 2788, 0, 3033, 0, 0, 0, 0, 1631, 3393, 0, 4726, 0, 2476, 0,
        2074, 0, 0, 0, 0, 0, 5190, 0, 0, 0, 0, 185, 0, 0, 3481, 0,
        2033, 0, 3418, 2047, 0, 0, 0, 0, 0, 3453, 2017, 0, 243, 0, 0, 0,
        0, 0, 0, 0, 5005, 4216, 4436, 5235, 0, 0, 0, 0, 0, 4076, 4490, 0,
        0, 3773, 0, 0, 4021, 5537, 1663, 0, 0, 0, 0, 0, 0, 0, 0, 0,
        0, 0, 2536, 219, 3651, 0, 0, 0, 4135, 0, 1855, 2956, 0, 5378, 2491, 0,
        0, 0, 0, 0, 0, 0, 0, 0, 0, 0, 0, 0, 0, 0, 4509, 0,
        2730, 0, 0, 0, 0, 2691, 2779, 0, 0, 0, 0, 0, 4281, 2792, 0, 0,
        4921, 4009, 0, 0, 3655, 4077, 1824, 0, 0, 0, 0, 0, 0, 0, 0, 1956,
    ],
    [
        0, 0, 3440, 0, 0, 4768, 1778, 0, 0, 0, 0, 0, 0, 1979, 3369, 3363,
        2509, 2023, 0, 4575, 0, 0, 0, 0, 0, 0, 0, 0, 0, 4761, 0, 4681,
        0, 3837, 2738, 2535, 0, 0, 0, 0, 4431, 0, 0, 0, 0, 264, 2856, 0,
        0, 0, 0, 0, 2601, 3639, 4472, 4691, 0, 0, 0, 0, 0, 0, 0, 0,
        0, 0, 3872, 0, 0, 0, 2662, 0, 0, 5159, 0, 0, 3647, 4230, 5093, 0,
        0, 0, 3830, 0, 3700, 0, 5150, 1847, 4591, 0, 0, 0, 4132, 5096, 0, 0,
        0, 3957, 3682, 0, 3772, 0, 0, 4902, 0, 4922, 0, 3330, 0, 0, 5187, 0,
        0, 0, 4004, 0, 0, 0, 0, 0, 0, 0, 4648, 0, 0, 4453, 0, 2563,
        0, 4101, 0, 3654, 0, 0, 0, 0, 0, 0, 0, 0, 2527, 0, 0, 0,
        0, 0, 0, 3446, 0, 0, 0, 168, 0, 0, 2681, 0, 2651, 0, 0, 0,
        1713, 1908, 0, 0, 0, 0, 0, 0, 0, 0, 0, 1850, 2468, 0, 0, 0,
        0, 0, 0, 0, 0, 0, 3515, 0, 2077, 0, 2744, 4094, 0, 0, 0, 4925,
        3718, 0, 2520, 0, 3029, 0, 0, 0, 4041, 0, 0, 0, 0, 3021, 0, 2849,
        1758, 3445, 0, 0, 0, 0, 0, 0, 0, 0, 0, 0, 0, 3792, 0, 0,
        76, 0, 0, 0, 0, 0, 0, 0, 0, 0, 1638, 0, 0, 2521, 0, 0,
        4499, 3433, 0, 0, 0, 0, 0, 1860, 4552, 0, 0, 0, 0, 0, 3162, 0,
    ],
    [
        0, 0, 0, 0, 0, 4126, 0, 4274, 0, 1656, 4014, 0, 3699, 0, 0, 0,
        0, 0, 0, 0, 0, 0, 0, 0, 0, 4541, 0, 1661, 31, 0, 0, 0,
        0, 0, 0, 0, 0, 0, 0, 0, 3397, 0, 1825, 187, 0, 0, 0, 0,
        0, 5143, 0, 0, 5361, 1858, 0, 0, 0, 0, 0, 0, 0, 2751, 0, 0,
        0, 0, 0, 0, 0, 4650, 0, 5091, 0, 3612, 0, 0, 0, 0, 0, 0,
        0, 0, 0, 0, 0, 4433, 0, 1696, 0, 0, 0, 4715, 1962, 0, 0, 3098,
        0, 3836, 4152, 0, 0, 0, 0, 0, 217, 0, 0, 2616, 170, 0, 4070, 0,
        2658, 0, 0, 0, 0, 0, 4275, 0, 0, 0, 5364, 4098, 0, 0, 0, 0,
        3444, 0, 5363, 0, 4484, 4547, 0, 0, 0, 1832, 0, 0, 2604, 221, 2756, 0,
        0, 0, 1752, 0, 0, 0, 0, 0, 0, 0, 2688, 206, 0, 0, 0, 0,
        0, 0, 4611, 0, 0, 0, 0, 0, 4445, 0, 0, 3719, 0, 0, 0, 3778,
        2963, 2752, 0, 0, 3893, 0, 0, 0, 183, 4671, 0, 4657, 0, 0, 0, 0,
        0, 2933, 0, 4212, 0, 0, 0, 0, 0, 0, 0, 0, 0, 1763, 0, 0,
        0, 0, 0, 0, 0, 0, 0, 33, 0, 0, 4456, 0, 4969, 4885, 2052, 0,
        0, 0, 0, 4251, 0, 3702, 0, 3775, 0, 0, 0, 4106, 0, 0, 3399, 0,
        0, 3431, 3661, 3469, 0, 0, 4427, 2671, 0, 1875, 3464, 2622, 0, 0, 0, 0,
    ],
    [
        0, 2507, 2955, 0, 0, 0, 0, 0, 0, 0, 0, 0, 0, 0, 0, 0,
        0, 0, 0, 3096, 0, 3553, 0, 0, 1616, 0, 0, 1919, 0, 0, 0, 0,
        1848, 0, 0, 0, 0, 0, 0, 0, 0, 0, 2673, 0, 4236, 0, 85, 0,
        1838, 0, 0, 0, 4100, 4877, 2556, 0, 0, 0, 0, 0, 0, 0, 0, 0,
        1794, 0, 3373, 5584, 1891, 0, 0, 0, 0, 0, 0, 0, 0, 0, 0, 2879,
        0, 0, 3635, 0, 0, 0, 4816, 0, 0, 0, 0, 0, 0, 2492, 0, 0,
        0, 2110, 0, 2787, 0, 3843, 2160, 0, 1843, 0, 2722, 0, 3798, 0, 42, 0,
        0, 3697, 0, 2938, 0, 0, 0, 0, 0, 3687, 1879, 0, 0, 0, 0, 0,
        0, 2497, 4501, 0, 0, 0, 0, 0, 0, 0, 0, 0, 0, 3712, 0, 3986,
        0, 0, 0, 0, 0, 4466, 0, 5318, 4975, 2508, 0, 4596, 1655, 0, 0, 0,
        0, 0, 0, 3355, 3031, 0, 0, 3649, 0, 0, 0, 0, 0, 0, 0, 0,
        0, 0, 4268, 0, 0, 0, 0, 0, 0, 0, 0, 0, 0, 3688, 1637, 1733,
        0, 0, 0, 2501, 0, 0, 2859, 0, 0, 0, 0, 0, 0, 4231, 0, 75,
        0, 0, 3569, 0, 2769, 4151, 0, 4881, 3421, 0, 0, 1782, 0, 1773, 0, 0,
        0, 0, 0, 0, 0, 0, 0, 0, 0, 0, 0, 0, 0, 0, 0, 4940,
        0, 0, 0, 0, 2486, 0, 0, 0, 0, 0, 0, 0, 0, 0, 1652, 0,
    ],
    [
        3575, 2559, 0, 0, 0, 0, 0, 0, 0, 4659, 4680, 0, 0, 4496, 0, 0,
        0, 0, 0, 0, 0, 0, 2868, 0, 3409, 0, 0, 5171, 0, 1827, 0, 0,
        1786, 0, 0, 0, 0, 0, 0, 4044, 0, 4428, 0, 0, 0, 3626, 4136, 0,
        0, 1831, 0, 4125, 0, 0, 0, 0, 1964, 26, 0, 0, 0, 0, 0, 0,
        3108, 0, 1817, 0, 0, 0, 0, 2942, 3371, 0, 0, 0, 0, 0, 2014, 0,
        0, 2617, 4508, 0, 0, 0, 0, 0, 3913, 5195, 0, 0, 1972, 0, 0, 4791,
        0, 0, 5145, 0, 0, 0, 0, 0, 0, 2959, 0, 0, 0, 0, 0, 0,
        0, 0, 2083, 0, 0, 0, 0, 1790, 0, 0, 0, 3354, 0, 0, 0, 0,
        0, 1745, 5002, 0, 0, 176, 0, 4052, 0, 86, 0, 0, 0, 0, 43, 0,
        0, 2865, 0, 0, 3912, 0, 0, 0, 3450, 0, 0, 0, 0, 3650, 0, 0,
        0, 3992, 4784, 0, 0, 4091, 1876, 0, 0, 0, 1981, 0, 0, 0, 0, 2528,
        0, 0, 0, 0, 4762, 3348, 4548, 0, 0, 2864, 4435, 5189, 0, 0, 0, 0,
        0, 0, 4031, 0, 4019, 0, 0, 0, 0, 0, 0, 0, 3667, 0, 0, 2954,
        0, 0, 0, 2503, 0, 0, 2740, 0, 0, 0, 0, 0, 0, 4342, 0, 0,
        0, 5153, 0, 3993, 0, 0, 0, 0, 1795, 0, 5151, 0, 0, 0, 0, 0,
        0, 3402, 4054, 0, 0, 0, 0, 3672, 0, 0, 0, 0, 0, 0, 3878, 0,
    ],
    [
        0, 0, 0, 3789, 0, 4234, 0, 0, 0, 2941, 0, 0, 0, 4018, 2761, 1813,
        3566, 0, 0, 0, 0, 0, 0, 0, 0, 0, 0, 2861, 0, 0, 0, 0,
        0, 0, 0, 5004, 3874, 0, 0, 3879, 0, 4932, 3791, 0, 0, 0, 0, 0,
        4237, 0, 0, 2610, 0, 0, 5090, 2869, 0, 0, 0, 0, 0, 0, 0, 0,
        2965, 0, 4248, 0, 188, 0, 4463, 0, 0, 3417, 0, 0, 0, 0, 0, 0,
        0, 4027, 0, 0, 0, 0, 4323, 0, 0, 0, 0, 0, 0, 0, 0, 0,
        0, 0, 0, 0, 0, 0, 2858, 0, 0, 0, 0, 0, 0, 0, 4647, 0,
        0, 2540, 0, 4232, 0, 2757, 1629, 0, 0, 0, 0, 3480, 0, 0, 0, 0,
        0, 4122, 0, 0, 0, 0, 0, 3617, 0, 23, 0, 0, 2728, 0, 0, 0,
        0, 3641, 0, 0, 0, 0, 186, 0, 1718, 0, 0, 0, 0, 0, 0, 0,
        4447, 3427, 0, 0, 0, 0, 0, 4707, 0, 0, 0, 3570, 0, 1677, 0, 0,
        0, 0, 0, 0, 0, 0, 3788, 0, 5201, 0, 2542, 0, 0, 4747, 0, 0,
        0, 0, 2496, 0, 0, 0, 0, 0, 0, 2945, 0, 0, 0, 0, 0, 0,
        3439, 4542, 0, 0, 0, 0, 0, 4868, 0, 0, 0, 0, 0, 0, 0, 0,
        3420, 3572, 0, 0, 0, 2766, 4246, 0, 4332, 0, 3392, 2007, 0, 0, 0, 3095,
        0, 37, 0, 0, 4238, 0, 0, 0, 0, 0, 67, 0, 0, 0, 3594, 0,
    ],
    [
        0, 0, 0, 1618, 0, 0, 0, 0, 0, 2639, 2552, 0, 1688, 0, 0, 0,
        0, 0, 0, 0, 4043, 0, 0, 0, 0, 0, 4564, 0, 0, 0, 0, 0,
        0, 0, 0, 3780, 0, 3429, 0, 4350, 1711, 0, 0, 0, 0, 0, 3342, 2037,
        0, 1913, 0, 0, 19, 3497, 4217, 50, 5158, 4876, 3856, 0, 66, 0, 1660, 0,
        0, 4565, 0, 0, 0, 1788, 0, 0, 0, 0, 2013, 0, 0, 0, 0, 0,
        0, 3573, 3381, 2760, 0, 0, 0, 0, 1708, 4489, 0, 2615, 0, 0, 0, 0,
        0, 5086, 0, 0, 3040, 0, 1622, 0, 4889, 2721, 0, 0, 0, 3659, 0, 0,
        0, 28, 3637, 0, 0, 0, 2623, 0, 4317, 2937, 0, 0, 0, 3722, 0, 0,
        0, 0, 0, 0, 0, 0, 0, 0, 0, 0, 3630, 0, 4703, 0, 4060, 0,
        1889, 0, 4725, 0, 4157, 0, 0, 3389, 0, 4068, 0, 0, 3491, 47, 0, 0,
        1826, 40, 0, 1810, 0, 0, 2836, 0, 0, 0, 0, 0, 0, 0, 0, 0,
        2619, 0, 0, 0, 0, 0, 4429, 0, 0, 0, 218, 0, 0, 4449, 2747, 1887,
        2029, 2748, 0, 0, 2607, 0, 0, 0, 0, 0, 2085, 0, 0, 0, 0, 0,
        0, 0, 0, 0, 0, 0, 3844, 4675, 0, 0, 3987, 0, 0, 0, 0, 2667,
        0, 0, 0, 0, 0, 0, 3848, 3737, 0, 0, 0, 0, 0, 0, 0, 4454,
        0, 0, 0, 0, 0, 0, 2551, 4278, 0, 0, 0, 1920, 0, 3484, 0, 0,
    ],
];

/// Entry `i` of the hash-value table.
pub closed spec fn hash_value(i: int) -> u16 {
    HASH_VALUES[i / 256][i % 256]
}

pub fn hash_value_at(i: usize) -> (r: u16)
    requires
        i < 8192,
    ensures
        r == hash_value(i as int),
{
    HASH_VALUES[i / 256][i % 256]
}

} // verus!
