//! Colours: eight-bit linear channels and their display encoding.
//!
//! The display encoding of a channel `c` is the sRGB transfer function of
//! `c / 255`: `12.92 · v` where `v` is at most 0.0031308, and
//! `1.055 · v^(1/2.4) − 0.055` above. It is tabulated here for the 256 channel
//! values in billionths, rounded to the nearest, and every entry of the table
//! is proved to be that value.

use vstd::prelude::*;

verus! {

/// A colour with linear eight-bit channels.
#[derive(Clone, Copy, Debug, PartialEq, Eq)]
pub struct Color {
    pub r: u8,
    pub g: u8,
    pub b: u8,
    pub a: u8,
}

/// A display colour; each channel is in billionths, from 0 to [`SRGB_ONE`].
#[derive(Clone, Copy, Debug, PartialEq, Eq)]
pub struct Color3 {
    pub r: u32,
    pub g: u32,
    pub b: u32,
}

/// The full intensity of a display channel.
pub const SRGB_ONE: u32 = 1_000_000_000;

/// The display encoding of each linear channel value, in billionths.
pub const SRGB_TABLE: [u32; 256] = [
    0, 49840090, 84944730, 110702060, 131803803, 150005204,
    166185713, 180858519, 194353162, 206895737, 218649117, 229735098,
    240247505, 250260385, 259833352, 269015219, 277846538, 286361419,
    294588868, 302553789, 310277747, 317779559, 325075756, 332180952,
    339108137, 345868922, 352473728, 358931953, 365252105, 371441914,
    377508427, 383458093, 389296824, 395030062, 400662827, 406199757,
    411645154, 417003011, 422277048, 427470729, 432587295, 437629776,
    442601013, 447503673, 452340267, 457113155, 461824565, 466476600,
    471071248, 475610392, 480095813, 484529204, 488912172, 493246242,
    497532868, 501773434, 505969259, 510121601, 514231662, 518300591,
    522329486, 526319399, 530271336, 534186264, 538065108, 541908756,
    545718063, 549493848, 553236901, 556947980, 560627816, 564277113,
    567896549, 571486778, 575048431, 578582117, 582088425, 585567922,
    589021158, 592448664, 595850954, 599228525, 602581858, 605911420,
    609217663, 612501025, 615761930, 619000791, 622218008, 625413968,
    628589049, 631743617, 634878027, 637992625, 641087749, 644163724,
    647220868, 650259493, 653279898, 656282377, 659267217, 662234696,
    665185085, 668118648, 671035644, 673936324, 676820934, 679689712,
    682542893, 685380705, 688203369, 691011105, 693804123, 696582632,
    699346835, 702096929, 704833108, 707555563, 710264477, 712960033,
    715642407, 718311773, 720968301, 723612158, 726243505, 728862503,
    731469307, 734064070, 736646942, 739218070, 741777597, 744325665,
    746862412, 749387972, 751902480, 754406066, 756898856, 759380978,
    761852552, 764313702, 766764544, 769205196, 771635771, 774056382,
    776467138, 778868149, 781259519, 783641354, 786013756, 788376825,
    790730661, 793075361, 795411020, 797737733, 800055592, 802364687,
    804665109, 806956944, 809240280, 811515202, 813781792, 816040134,
    818290308, 820532395, 822766471, 824992616, 827210904, 829421410,
    831624209, 833819372, 836006971, 838187076, 840359757, 842525082,
    844683118, 846833931, 848977587, 851114149, 853243682, 855366247,
    857481906, 859590720, 861692749, 863788051, 865876685, 867958707,
    870034175, 872103144, 874165669, 876221804, 878271603, 880315118,
    882352402, 884383505, 886408478, 888427372, 890440236, 892447117,
    894448065, 896443126, 898432348, 900415776, 902393457, 904365434,
    906331753, 908292458, 910247591, 912197195, 914141313, 916079987,
    918013257, 919941164, 921863748, 923781050, 925693108, 927599961,
    929501648, 931398206, 933289672, 935176084, 937057477, 938933889,
    940805354, 942671909, 944533587, 946390423, 948242452, 950089706,
    951932219, 953770025, 955603154, 957431641, 959255516, 961074810,
    962889556, 964699783, 966505523, 968306804, 970103658, 971896113,
    973684198, 975467942, 977247375, 979022523, 980793414, 982560078,
    984322539, 986080827, 987834967, 989584985, 991330909, 993072764,
    994810575, 996544368, 998274168, 1000000000,
];

/// The display encoding of the linear channel value `channel`, in billionths.
pub open spec fn srgb(channel: int) -> int {
    SRGB_TABLE[channel] as int
}

/// The display encoding of a linear channel value, in billionths.
pub fn linear_to_srgb(channel: u8) -> (encoded: u32)
    ensures
        encoded == srgb(channel as int),
        rounds_transfer(channel as int, encoded as int),
        encoded <= SRGB_ONE,
{
    proof {
        lemma_srgb_bounds(channel as int);
        lemma_table_rounds_transfer(channel as int);
    }
    SRGB_TABLE[channel as usize]
}

impl Color {
    /// The colour with the given channels.
    pub fn new(r: u8, g: u8, b: u8, a: u8) -> (color: Color)
        ensures
            color == (Color { r, g, b, a }),
    {
        Color { r, g, b, a }
    }

    /// Opaque white.
    pub open spec fn white() -> Color {
        Color { r: 255, g: 255, b: 255, a: 255 }
    }

    /// The display colour of this colour; the alpha channel plays no part.
    pub open spec fn encoded(self) -> Color3 {
        Color3 {
            r: srgb(self.r as int) as u32,
            g: srgb(self.g as int) as u32,
            b: srgb(self.b as int) as u32,
        }
    }

    /// The display colour of this colour.
    pub fn to_srgb(&self) -> (display: Color3)
        ensures
            display == self.encoded(),
    {
        Color3 { r: linear_to_srgb(self.r), g: linear_to_srgb(self.g), b: linear_to_srgb(self.b) }
    }
}

/// The fifth power.
pub open spec fn pow5(x: int) -> int {
    x * x * x * x * x
}

/// The twelfth power.
pub open spec fn pow12(x: int) -> int {
    let cube = x * x * x;
    let sixth = cube * cube;
    sixth * sixth
}

/// `encoded` is, in billionths and rounded to the nearest, the transfer
/// function of `channel / 255`: with `v = channel / 255`, the value
/// `12.92 · v` where `v` is at most 0.0031308, and
/// `1.055 · v^(1/2.4) − 0.055` above.
///
/// Both cases are stated over whole numbers. The first says that
/// `encoded` is within a half of `12.92 · 10^9 · channel / 255`. The second
/// says that `1.055 · v^(5/12)` lies between `encoded − 1/2` and
/// `encoded + 1/2` billionths, each plus 0.055: all of it doubled, scaled by
/// `10^9`, raised to the twelfth power and cleared of the denominator
/// `255^5`.
pub open spec fn rounds_transfer(channel: int, encoded: int) -> bool {
    if channel * 10_000_000 <= 31_308 * 255 {
        -255 <= 2 * (255 * encoded - 12_920_000_000 * channel) <= 255
    } else {
        &&& pow12(2 * encoded + 109_999_999) * pow5(255) <= pow12(2_110_000_000) * pow5(channel)
        &&& pow12(2_110_000_000) * pow5(channel) <= pow12(2 * encoded + 110_000_001) * pow5(255)
    }
}

/// Every entry of the table is the transfer function of its channel,
/// rounded to the nearest billionth.
pub proof fn lemma_table_rounds_transfer(channel: int)
    requires
        0 <= channel <= 255,
    ensures
        rounds_transfer(channel, srgb(channel)),
{
    if channel < 32 {
        lemma_rounds_first(channel);
    } else if channel < 64 {
        lemma_rounds_second(channel);
    } else if channel < 96 {
        lemma_rounds_third(channel);
    } else if channel < 128 {
        lemma_rounds_fourth(channel);
    } else if channel < 160 {
        lemma_rounds_fifth(channel);
    } else if channel < 192 {
        lemma_rounds_sixth(channel);
    } else if channel < 224 {
        lemma_rounds_seventh(channel);
    } else {
        lemma_rounds_last(channel);
    }
}

/// The entries for the channels from 0 to 31.
proof fn lemma_rounds_first(channel: int)
    requires
        0 <= channel < 32,
    ensures
        rounds_transfer(channel, srgb(channel)),
{
    if channel == 0 {
        assert(rounds_transfer(0, srgb(0))) by (nonlinear_arith);
    } else if channel == 1 {
        assert(rounds_transfer(1, srgb(1))) by (nonlinear_arith);
    } else if channel == 2 {
        assert(rounds_transfer(2, srgb(2))) by (nonlinear_arith);
    } else if channel == 3 {
        assert(rounds_transfer(3, srgb(3))) by (nonlinear_arith);
    } else if channel == 4 {
        assert(rounds_transfer(4, srgb(4))) by (nonlinear_arith);
    } else if channel == 5 {
        assert(rounds_transfer(5, srgb(5))) by (nonlinear_arith);
    } else if channel == 6 {
        assert(rounds_transfer(6, srgb(6))) by (nonlinear_arith);
    } else if channel == 7 {
        assert(rounds_transfer(7, srgb(7))) by (nonlinear_arith);
    } else if channel == 8 {
        assert(rounds_transfer(8, srgb(8))) by (nonlinear_arith);
    } else if channel == 9 {
        assert(rounds_transfer(9, srgb(9))) by (nonlinear_arith);
    } else if channel == 10 {
        assert(rounds_transfer(10, srgb(10))) by (nonlinear_arith);
    } else if channel == 11 {
        assert(rounds_transfer(11, srgb(11))) by (nonlinear_arith);
    } else if channel == 12 {
        assert(rounds_transfer(12, srgb(12))) by (nonlinear_arith);
    } else if channel == 13 {
        assert(rounds_transfer(13, srgb(13))) by (nonlinear_arith);
    } else if channel == 14 {
        assert(rounds_transfer(14, srgb(14))) by (nonlinear_arith);
    } else if channel == 15 {
        assert(rounds_transfer(15, srgb(15))) by (nonlinear_arith);
    } else if channel == 16 {
        assert(rounds_transfer(16, srgb(16))) by (nonlinear_arith);
    } else if channel == 17 {
        assert(rounds_transfer(17, srgb(17))) by (nonlinear_arith);
    } else if channel == 18 {
        assert(rounds_transfer(18, srgb(18))) by (nonlinear_arith);
    } else if channel == 19 {
        assert(rounds_transfer(19, srgb(19))) by (nonlinear_arith);
    } else if channel == 20 {
        assert(rounds_transfer(20, srgb(20))) by (nonlinear_arith);
    } else if channel == 21 {
        assert(rounds_transfer(21, srgb(21))) by (nonlinear_arith);
    } else if channel == 22 {
        assert(rounds_transfer(22, srgb(22))) by (nonlinear_arith);
    } else if channel == 23 {
        assert(rounds_transfer(23, srgb(23))) by (nonlinear_arith);
    } else if channel == 24 {
        assert(rounds_transfer(24, srgb(24))) by (nonlinear_arith);
    } else if channel == 25 {
        assert(rounds_transfer(25, srgb(25))) by (nonlinear_arith);
    } else if channel == 26 {
        assert(rounds_transfer(26, srgb(26))) by (nonlinear_arith);
    } else if channel == 27 {
        assert(rounds_transfer(27, srgb(27))) by (nonlinear_arith);
    } else if channel == 28 {
        assert(rounds_transfer(28, srgb(28))) by (nonlinear_arith);
    } else if channel == 29 {
        assert(rounds_transfer(29, srgb(29))) by (nonlinear_arith);
    } else if channel == 30 {
        assert(rounds_transfer(30, srgb(30))) by (nonlinear_arith);
    } else {
        assert(rounds_transfer(31, srgb(31))) by (nonlinear_arith);
    }
}

/// The entries for the channels from 32 to 63.
proof fn lemma_rounds_second(channel: int)
    requires
        32 <= channel < 64,
    ensures
        rounds_transfer(channel, srgb(channel)),
{
    if channel == 32 {
        assert(rounds_transfer(32, srgb(32))) by (nonlinear_arith);
    } else if channel == 33 {
        assert(rounds_transfer(33, srgb(33))) by (nonlinear_arith);
    } else if channel == 34 {
        assert(rounds_transfer(34, srgb(34))) by (nonlinear_arith);
    } else if channel == 35 {
        assert(rounds_transfer(35, srgb(35))) by (nonlinear_arith);
    } else if channel == 36 {
        assert(rounds_transfer(36, srgb(36))) by (nonlinear_arith);
    } else if channel == 37 {
        assert(rounds_transfer(37, srgb(37))) by (nonlinear_arith);
    } else if channel == 38 {
        assert(rounds_transfer(38, srgb(38))) by (nonlinear_arith);
    } else if channel == 39 {
        assert(rounds_transfer(39, srgb(39))) by (nonlinear_arith);
    } else if channel == 40 {
        assert(rounds_transfer(40, srgb(40))) by (nonlinear_arith);
    } else if channel == 41 {
        assert(rounds_transfer(41, srgb(41))) by (nonlinear_arith);
    } else if channel == 42 {
        assert(rounds_transfer(42, srgb(42))) by (nonlinear_arith);
    } else if channel == 43 {
        assert(rounds_transfer(43, srgb(43))) by (nonlinear_arith);
    } else if channel == 44 {
        assert(rounds_transfer(44, srgb(44))) by (nonlinear_arith);
    } else if channel == 45 {
        assert(rounds_transfer(45, srgb(45))) by (nonlinear_arith);
    } else if channel == 46 {
        assert(rounds_transfer(46, srgb(46))) by (nonlinear_arith);
    } else if channel == 47 {
        assert(rounds_transfer(47, srgb(47))) by (nonlinear_arith);
    } else if channel == 48 {
        assert(rounds_transfer(48, srgb(48))) by (nonlinear_arith);
    } else if channel == 49 {
        assert(rounds_transfer(49, srgb(49))) by (nonlinear_arith);
    } else if channel == 50 {
        assert(rounds_transfer(50, srgb(50))) by (nonlinear_arith);
    } else if channel == 51 {
        assert(rounds_transfer(51, srgb(51))) by (nonlinear_arith);
    } else if channel == 52 {
        assert(rounds_transfer(52, srgb(52))) by (nonlinear_arith);
    } else if channel == 53 {
        assert(rounds_transfer(53, srgb(53))) by (nonlinear_arith);
    } else if channel == 54 {
        assert(rounds_transfer(54, srgb(54))) by (nonlinear_arith);
    } else if channel == 55 {
        assert(rounds_transfer(55, srgb(55))) by (nonlinear_arith);
    } else if channel == 56 {
        assert(rounds_transfer(56, srgb(56))) by (nonlinear_arith);
    } else if channel == 57 {
        assert(rounds_transfer(57, srgb(57))) by (nonlinear_arith);
    } else if channel == 58 {
        assert(rounds_transfer(58, srgb(58))) by (nonlinear_arith);
    } else if channel == 59 {
        assert(rounds_transfer(59, srgb(59))) by (nonlinear_arith);
    } else if channel == 60 {
        assert(rounds_transfer(60, srgb(60))) by (nonlinear_arith);
    } else if channel == 61 {
        assert(rounds_transfer(61, srgb(61))) by (nonlinear_arith);
    } else if channel == 62 {
        assert(rounds_transfer(62, srgb(62))) by (nonlinear_arith);
    } else {
        assert(rounds_transfer(63, srgb(63))) by (nonlinear_arith);
    }
}

/// The entries for the channels from 64 to 95.
proof fn lemma_rounds_third(channel: int)
    requires
        64 <= channel < 96,
    ensures
        rounds_transfer(channel, srgb(channel)),
{
    if channel == 64 {
        assert(rounds_transfer(64, srgb(64))) by (nonlinear_arith);
    } else if channel == 65 {
        assert(rounds_transfer(65, srgb(65))) by (nonlinear_arith);
    } else if channel == 66 {
        assert(rounds_transfer(66, srgb(66))) by (nonlinear_arith);
    } else if channel == 67 {
        assert(rounds_transfer(67, srgb(67))) by (nonlinear_arith);
    } else if channel == 68 {
        assert(rounds_transfer(68, srgb(68))) by (nonlinear_arith);
    } else if channel == 69 {
        assert(rounds_transfer(69, srgb(69))) by (nonlinear_arith);
    } else if channel == 70 {
        assert(rounds_transfer(70, srgb(70))) by (nonlinear_arith);
    } else if channel == 71 {
        assert(rounds_transfer(71, srgb(71))) by (nonlinear_arith);
    } else if channel == 72 {
        assert(rounds_transfer(72, srgb(72))) by (nonlinear_arith);
    } else if channel == 73 {
        assert(rounds_transfer(73, srgb(73))) by (nonlinear_arith);
    } else if channel == 74 {
        assert(rounds_transfer(74, srgb(74))) by (nonlinear_arith);
    } else if channel == 75 {
        assert(rounds_transfer(75, srgb(75))) by (nonlinear_arith);
    } else if channel == 76 {
        assert(rounds_transfer(76, srgb(76))) by (nonlinear_arith);
    } else if channel == 77 {
        assert(rounds_transfer(77, srgb(77))) by (nonlinear_arith);
    } else if channel == 78 {
        assert(rounds_transfer(78, srgb(78))) by (nonlinear_arith);
    } else if channel == 79 {
        assert(rounds_transfer(79, srgb(79))) by (nonlinear_arith);
    } else if channel == 80 {
        assert(rounds_transfer(80, srgb(80))) by (nonlinear_arith);
    } else if channel == 81 {
        assert(rounds_transfer(81, srgb(81))) by (nonlinear_arith);
    } else if channel == 82 {
        assert(rounds_transfer(82, srgb(82))) by (nonlinear_arith);
    } else if channel == 83 {
        assert(rounds_transfer(83, srgb(83))) by (nonlinear_arith);
    } else if channel == 84 {
        assert(rounds_transfer(84, srgb(84))) by (nonlinear_arith);
    } else if channel == 85 {
        assert(rounds_transfer(85, srgb(85))) by (nonlinear_arith);
    } else if channel == 86 {
        assert(rounds_transfer(86, srgb(86))) by (nonlinear_arith);
    } else if channel == 87 {
        assert(rounds_transfer(87, srgb(87))) by (nonlinear_arith);
    } else if channel == 88 {
        assert(rounds_transfer(88, srgb(88))) by (nonlinear_arith);
    } else if channel == 89 {
        assert(rounds_transfer(89, srgb(89))) by (nonlinear_arith);
    } else if channel == 90 {
        assert(rounds_transfer(90, srgb(90))) by (nonlinear_arith);
    } else if channel == 91 {
        assert(rounds_transfer(91, srgb(91))) by (nonlinear_arith);
    } else if channel == 92 {
        assert(rounds_transfer(92, srgb(92))) by (nonlinear_arith);
    } else if channel == 93 {
        assert(rounds_transfer(93, srgb(93))) by (nonlinear_arith);
    } else if channel == 94 {
        assert(rounds_transfer(94, srgb(94))) by (nonlinear_arith);
    } else {
        assert(rounds_transfer(95, srgb(95))) by (nonlinear_arith);
    }
}

/// The entries for the channels from 96 to 127.
proof fn lemma_rounds_fourth(channel: int)
    requires
        96 <= channel < 128,
    ensures
        rounds_transfer(channel, srgb(channel)),
{
    if channel == 96 {
        assert(rounds_transfer(96, srgb(96))) by (nonlinear_arith);
    } else if channel == 97 {
        assert(rounds_transfer(97, srgb(97))) by (nonlinear_arith);
    } else if channel == 98 {
        assert(rounds_transfer(98, srgb(98))) by (nonlinear_arith);
    } else if channel == 99 {
        assert(rounds_transfer(99, srgb(99))) by (nonlinear_arith);
    } else if channel == 100 {
        assert(rounds_transfer(100, srgb(100))) by (nonlinear_arith);
    } else if channel == 101 {
        assert(rounds_transfer(101, srgb(101))) by (nonlinear_arith);
    } else if channel == 102 {
        assert(rounds_transfer(102, srgb(102))) by (nonlinear_arith);
    } else if channel == 103 {
        assert(rounds_transfer(103, srgb(103))) by (nonlinear_arith);
    } else if channel == 104 {
        assert(rounds_transfer(104, srgb(104))) by (nonlinear_arith);
    } else if channel == 105 {
        assert(rounds_transfer(105, srgb(105))) by (nonlinear_arith);
    } else if channel == 106 {
        assert(rounds_transfer(106, srgb(106))) by (nonlinear_arith);
    } else if channel == 107 {
        assert(rounds_transfer(107, srgb(107))) by (nonlinear_arith);
    } else if channel == 108 {
        assert(rounds_transfer(108, srgb(108))) by (nonlinear_arith);
    } else if channel == 109 {
        assert(rounds_transfer(109, srgb(109))) by (nonlinear_arith);
    } else if channel == 110 {
        assert(rounds_transfer(110, srgb(110))) by (nonlinear_arith);
    } else if channel == 111 {
        assert(rounds_transfer(111, srgb(111))) by (nonlinear_arith);
    } else if channel == 112 {
        assert(rounds_transfer(112, srgb(112))) by (nonlinear_arith);
    } else if channel == 113 {
        assert(rounds_transfer(113, srgb(113))) by (nonlinear_arith);
    } else if channel == 114 {
        assert(rounds_transfer(114, srgb(114))) by (nonlinear_arith);
    } else if channel == 115 {
        assert(rounds_transfer(115, srgb(115))) by (nonlinear_arith);
    } else if channel == 116 {
        assert(rounds_transfer(116, srgb(116))) by (nonlinear_arith);
    } else if channel == 117 {
        assert(rounds_transfer(117, srgb(117))) by (nonlinear_arith);
    } else if channel == 118 {
        assert(rounds_transfer(118, srgb(118))) by (nonlinear_arith);
    } else if channel == 119 {
        assert(rounds_transfer(119, srgb(119))) by (nonlinear_arith);
    } else if channel == 120 {
        assert(rounds_transfer(120, srgb(120))) by (nonlinear_arith);
    } else if channel == 121 {
        assert(rounds_transfer(121, srgb(121))) by (nonlinear_arith);
    } else if channel == 122 {
        assert(rounds_transfer(122, srgb(122))) by (nonlinear_arith);
    } else if channel == 123 {
        assert(rounds_transfer(123, srgb(123))) by (nonlinear_arith);
    } else if channel == 124 {
        assert(rounds_transfer(124, srgb(124))) by (nonlinear_arith);
    } else if channel == 125 {
        assert(rounds_transfer(125, srgb(125))) by (nonlinear_arith);
    } else if channel == 126 {
        assert(rounds_transfer(126, srgb(126))) by (nonlinear_arith);
    } else {
        assert(rounds_transfer(127, srgb(127))) by (nonlinear_arith);
    }
}

/// The entries for the channels from 128 to 159.
proof fn lemma_rounds_fifth(channel: int)
    requires
        128 <= channel < 160,
    ensures
        rounds_transfer(channel, srgb(channel)),
{
    if channel == 128 {
        assert(rounds_transfer(128, srgb(128))) by (nonlinear_arith);
    } else if channel == 129 {
        assert(rounds_transfer(129, srgb(129))) by (nonlinear_arith);
    } else if channel == 130 {
        assert(rounds_transfer(130, srgb(130))) by (nonlinear_arith);
    } else if channel == 131 {
        assert(rounds_transfer(131, srgb(131))) by (nonlinear_arith);
    } else if channel == 132 {
        assert(rounds_transfer(132, srgb(132))) by (nonlinear_arith);
    } else if channel == 133 {
        assert(rounds_transfer(133, srgb(133))) by (nonlinear_arith);
    } else if channel == 134 {
        assert(rounds_transfer(134, srgb(134))) by (nonlinear_arith);
    } else if channel == 135 {
        assert(rounds_transfer(135, srgb(135))) by (nonlinear_arith);
    } else if channel == 136 {
        assert(rounds_transfer(136, srgb(136))) by (nonlinear_arith);
    } else if channel == 137 {
        assert(rounds_transfer(137, srgb(137))) by (nonlinear_arith);
    } else if channel == 138 {
        assert(rounds_transfer(138, srgb(138))) by (nonlinear_arith);
    } else if channel == 139 {
        assert(rounds_transfer(139, srgb(139))) by (nonlinear_arith);
    } else if channel == 140 {
        assert(rounds_transfer(140, srgb(140))) by (nonlinear_arith);
    } else if channel == 141 {
        assert(rounds_transfer(141, srgb(141))) by (nonlinear_arith);
    } else if channel == 142 {
        assert(rounds_transfer(142, srgb(142))) by (nonlinear_arith);
    } else if channel == 143 {
        assert(rounds_transfer(143, srgb(143))) by (nonlinear_arith);
    } else if channel == 144 {
        assert(rounds_transfer(144, srgb(144))) by (nonlinear_arith);
    } else if channel == 145 {
        assert(rounds_transfer(145, srgb(145))) by (nonlinear_arith);
    } else if channel == 146 {
        assert(rounds_transfer(146, srgb(146))) by (nonlinear_arith);
    } else if channel == 147 {
        assert(rounds_transfer(147, srgb(147))) by (nonlinear_arith);
    } else if channel == 148 {
        assert(rounds_transfer(148, srgb(148))) by (nonlinear_arith);
    } else if channel == 149 {
        assert(rounds_transfer(149, srgb(149))) by (nonlinear_arith);
    } else if channel == 150 {
        assert(rounds_transfer(150, srgb(150))) by (nonlinear_arith);
    } else if channel == 151 {
        assert(rounds_transfer(151, srgb(151))) by (nonlinear_arith);
    } else if channel == 152 {
        assert(rounds_transfer(152, srgb(152))) by (nonlinear_arith);
    } else if channel == 153 {
        assert(rounds_transfer(153, srgb(153))) by (nonlinear_arith);
    } else if channel == 154 {
        assert(rounds_transfer(154, srgb(154))) by (nonlinear_arith);
    } else if channel == 155 {
        assert(rounds_transfer(155, srgb(155))) by (nonlinear_arith);
    } else if channel == 156 {
        assert(rounds_transfer(156, srgb(156))) by (nonlinear_arith);
    } else if channel == 157 {
        assert(rounds_transfer(157, srgb(157))) by (nonlinear_arith);
    } else if channel == 158 {
        assert(rounds_transfer(158, srgb(158))) by (nonlinear_arith);
    } else {
        assert(rounds_transfer(159, srgb(159))) by (nonlinear_arith);
    }
}

/// The entries for the channels from 160 to 191.
proof fn lemma_rounds_sixth(channel: int)
    requires
        160 <= channel < 192,
    ensures
        rounds_transfer(channel, srgb(channel)),
{
    if channel == 160 {
        assert(rounds_transfer(160, srgb(160))) by (nonlinear_arith);
    } else if channel == 161 {
        assert(rounds_transfer(161, srgb(161))) by (nonlinear_arith);
    } else if channel == 162 {
        assert(rounds_transfer(162, srgb(162))) by (nonlinear_arith);
    } else if channel == 163 {
        assert(rounds_transfer(163, srgb(163))) by (nonlinear_arith);
    } else if channel == 164 {
        assert(rounds_transfer(164, srgb(164))) by (nonlinear_arith);
    } else if channel == 165 {
        assert(rounds_transfer(165, srgb(165))) by (nonlinear_arith);
    } else if channel == 166 {
        assert(rounds_transfer(166, srgb(166))) by (nonlinear_arith);
    } else if channel == 167 {
        assert(rounds_transfer(167, srgb(167))) by (nonlinear_arith);
    } else if channel == 168 {
        assert(rounds_transfer(168, srgb(168))) by (nonlinear_arith);
    } else if channel == 169 {
        assert(rounds_transfer(169, srgb(169))) by (nonlinear_arith);
    } else if channel == 170 {
        assert(rounds_transfer(170, srgb(170))) by (nonlinear_arith);
    } else if channel == 171 {
        assert(rounds_transfer(171, srgb(171))) by (nonlinear_arith);
    } else if channel == 172 {
        assert(rounds_transfer(172, srgb(172))) by (nonlinear_arith);
    } else if channel == 173 {
        assert(rounds_transfer(173, srgb(173))) by (nonlinear_arith);
    } else if channel == 174 {
        assert(rounds_transfer(174, srgb(174))) by (nonlinear_arith);
    } else if channel == 175 {
        assert(rounds_transfer(175, srgb(175))) by (nonlinear_arith);
    } else if channel == 176 {
        assert(rounds_transfer(176, srgb(176))) by (nonlinear_arith);
    } else if channel == 177 {
        assert(rounds_transfer(177, srgb(177))) by (nonlinear_arith);
    } else if channel == 178 {
        assert(rounds_transfer(178, srgb(178))) by (nonlinear_arith);
    } else if channel == 179 {
        assert(rounds_transfer(179, srgb(179))) by (nonlinear_arith);
    } else if channel == 180 {
        assert(rounds_transfer(180, srgb(180))) by (nonlinear_arith);
    } else if channel == 181 {
        assert(rounds_transfer(181, srgb(181))) by (nonlinear_arith);
    } else if channel == 182 {
        assert(rounds_transfer(182, srgb(182))) by (nonlinear_arith);
    } else if channel == 183 {
        assert(rounds_transfer(183, srgb(183))) by (nonlinear_arith);
    } else if channel == 184 {
        assert(rounds_transfer(184, srgb(184))) by (nonlinear_arith);
    } else if channel == 185 {
        assert(rounds_transfer(185, srgb(185))) by (nonlinear_arith);
    } else if channel == 186 {
        assert(rounds_transfer(186, srgb(186))) by (nonlinear_arith);
    } else if channel == 187 {
        assert(rounds_transfer(187, srgb(187))) by (nonlinear_arith);
    } else if channel == 188 {
        assert(rounds_transfer(188, srgb(188))) by (nonlinear_arith);
    } else if channel == 189 {
        assert(rounds_transfer(189, srgb(189))) by (nonlinear_arith);
    } else if channel == 190 {
        assert(rounds_transfer(190, srgb(190))) by (nonlinear_arith);
    } else {
        assert(rounds_transfer(191, srgb(191))) by (nonlinear_arith);
    }
}

/// The entries for the channels from 192 to 223.
proof fn lemma_rounds_seventh(channel: int)
    requires
        192 <= channel < 224,
    ensures
        rounds_transfer(channel, srgb(channel)),
{
    if channel == 192 {
        assert(rounds_transfer(192, srgb(192))) by (nonlinear_arith);
    } else if channel == 193 {
        assert(rounds_transfer(193, srgb(193))) by (nonlinear_arith);
    } else if channel == 194 {
        assert(rounds_transfer(194, srgb(194))) by (nonlinear_arith);
    } else if channel == 195 {
        assert(rounds_transfer(195, srgb(195))) by (nonlinear_arith);
    } else if channel == 196 {
        assert(rounds_transfer(196, srgb(196))) by (nonlinear_arith);
    } else if channel == 197 {
        assert(rounds_transfer(197, srgb(197))) by (nonlinear_arith);
    } else if channel == 198 {
        assert(rounds_transfer(198, srgb(198))) by (nonlinear_arith);
    } else if channel == 199 {
        assert(rounds_transfer(199, srgb(199))) by (nonlinear_arith);
    } else if channel == 200 {
        assert(rounds_transfer(200, srgb(200))) by (nonlinear_arith);
    } else if channel == 201 {
        assert(rounds_transfer(201, srgb(201))) by (nonlinear_arith);
    } else if channel == 202 {
        assert(rounds_transfer(202, srgb(202))) by (nonlinear_arith);
    } else if channel == 203 {
        assert(rounds_transfer(203, srgb(203))) by (nonlinear_arith);
    } else if channel == 204 {
        assert(rounds_transfer(204, srgb(204))) by (nonlinear_arith);
    } else if channel == 205 {
        assert(rounds_transfer(205, srgb(205))) by (nonlinear_arith);
    } else if channel == 206 {
        assert(rounds_transfer(206, srgb(206))) by (nonlinear_arith);
    } else if channel == 207 {
        assert(rounds_transfer(207, srgb(207))) by (nonlinear_arith);
    } else if channel == 208 {
        assert(rounds_transfer(208, srgb(208))) by (nonlinear_arith);
    } else if channel == 209 {
        assert(rounds_transfer(209, srgb(209))) by (nonlinear_arith);
    } else if channel == 210 {
        assert(rounds_transfer(210, srgb(210))) by (nonlinear_arith);
    } else if channel == 211 {
        assert(rounds_transfer(211, srgb(211))) by (nonlinear_arith);
    } else if channel == 212 {
        assert(rounds_transfer(212, srgb(212))) by (nonlinear_arith);
    } else if channel == 213 {
        assert(rounds_transfer(213, srgb(213))) by (nonlinear_arith);
    } else if channel == 214 {
        assert(rounds_transfer(214, srgb(214))) by (nonlinear_arith);
    } else if channel == 215 {
        assert(rounds_transfer(215, srgb(215))) by (nonlinear_arith);
    } else if channel == 216 {
        assert(rounds_transfer(216, srgb(216))) by (nonlinear_arith);
    } else if channel == 217 {
        assert(rounds_transfer(217, srgb(217))) by (nonlinear_arith);
    } else if channel == 218 {
        assert(rounds_transfer(218, srgb(218))) by (nonlinear_arith);
    } else if channel == 219 {
        assert(rounds_transfer(219, srgb(219))) by (nonlinear_arith);
    } else if channel == 220 {
        assert(rounds_transfer(220, srgb(220))) by (nonlinear_arith);
    } else if channel == 221 {
        assert(rounds_transfer(221, srgb(221))) by (nonlinear_arith);
    } else if channel == 222 {
        assert(rounds_transfer(222, srgb(222))) by (nonlinear_arith);
    } else {
        assert(rounds_transfer(223, srgb(223))) by (nonlinear_arith);
    }
}

/// The entries for the channels from 224 to 255.
proof fn lemma_rounds_last(channel: int)
    requires
        224 <= channel < 256,
    ensures
        rounds_transfer(channel, srgb(channel)),
{
    if channel == 224 {
        assert(rounds_transfer(224, srgb(224))) by (nonlinear_arith);
    } else if channel == 225 {
        assert(rounds_transfer(225, srgb(225))) by (nonlinear_arith);
    } else if channel == 226 {
        assert(rounds_transfer(226, srgb(226))) by (nonlinear_arith);
    } else if channel == 227 {
        assert(rounds_transfer(227, srgb(227))) by (nonlinear_arith);
    } else if channel == 228 {
        assert(rounds_transfer(228, srgb(228))) by (nonlinear_arith);
    } else if channel == 229 {
        assert(rounds_transfer(229, srgb(229))) by (nonlinear_arith);
    } else if channel == 230 {
        assert(rounds_transfer(230, srgb(230))) by (nonlinear_arith);
    } else if channel == 231 {
        assert(rounds_transfer(231, srgb(231))) by (nonlinear_arith);
    } else if channel == 232 {
        assert(rounds_transfer(232, srgb(232))) by (nonlinear_arith);
    } else if channel == 233 {
        assert(rounds_transfer(233, srgb(233))) by (nonlinear_arith);
    } else if channel == 234 {
        assert(rounds_transfer(234, srgb(234))) by (nonlinear_arith);
    } else if channel == 235 {
        assert(rounds_transfer(235, srgb(235))) by (nonlinear_arith);
    } else if channel == 236 {
        assert(rounds_transfer(236, srgb(236))) by (nonlinear_arith);
    } else if channel == 237 {
        assert(rounds_transfer(237, srgb(237))) by (nonlinear_arith);
    } else if channel == 238 {
        assert(rounds_transfer(238, srgb(238))) by (nonlinear_arith);
    } else if channel == 239 {
        assert(rounds_transfer(239, srgb(239))) by (nonlinear_arith);
    } else if channel == 240 {
        assert(rounds_transfer(240, srgb(240))) by (nonlinear_arith);
    } else if channel == 241 {
        assert(rounds_transfer(241, srgb(241))) by (nonlinear_arith);
    } else if channel == 242 {
        assert(rounds_transfer(242, srgb(242))) by (nonlinear_arith);
    } else if channel == 243 {
        assert(rounds_transfer(243, srgb(243))) by (nonlinear_arith);
    } else if channel == 244 {
        assert(rounds_transfer(244, srgb(244))) by (nonlinear_arith);
    } else if channel == 245 {
        assert(rounds_transfer(245, srgb(245))) by (nonlinear_arith);
    } else if channel == 246 {
        assert(rounds_transfer(246, srgb(246))) by (nonlinear_arith);
    } else if channel == 247 {
        assert(rounds_transfer(247, srgb(247))) by (nonlinear_arith);
    } else if channel == 248 {
        assert(rounds_transfer(248, srgb(248))) by (nonlinear_arith);
    } else if channel == 249 {
        assert(rounds_transfer(249, srgb(249))) by (nonlinear_arith);
    } else if channel == 250 {
        assert(rounds_transfer(250, srgb(250))) by (nonlinear_arith);
    } else if channel == 251 {
        assert(rounds_transfer(251, srgb(251))) by (nonlinear_arith);
    } else if channel == 252 {
        assert(rounds_transfer(252, srgb(252))) by (nonlinear_arith);
    } else if channel == 253 {
        assert(rounds_transfer(253, srgb(253))) by (nonlinear_arith);
    } else if channel == 254 {
        assert(rounds_transfer(254, srgb(254))) by (nonlinear_arith);
    } else {
        assert(rounds_transfer(255, srgb(255))) by (nonlinear_arith);
    }
}

/// Each step of the table goes upwards.
proof fn lemma_srgb_step(channel: int)
    requires
        0 <= channel < 255,
    ensures
        srgb(channel) < srgb(channel + 1),
{
}

/// The encoding runs from 0 at channel 0 to full intensity at channel 255.
pub proof fn lemma_srgb_bounds(channel: int)
    requires
        0 <= channel <= 255,
    ensures
        0 <= srgb(channel) <= SRGB_ONE,
        srgb(0) == 0,
        srgb(255) == SRGB_ONE,
{
    lemma_srgb_monotonic(0, channel);
    lemma_srgb_monotonic(channel, 255);
}

/// The encoding never decreases as the channel value grows.
pub proof fn lemma_srgb_monotonic(low: int, high: int)
    requires
        0 <= low <= high <= 255,
    ensures
        srgb(low) <= srgb(high),
    decreases high - low,
{
    if low < high {
        lemma_srgb_monotonic(low, high - 1);
        lemma_srgb_step(high - 1);
    }
}

} // verus!
