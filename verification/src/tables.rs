//! Format tables: the sizes and capacities that the symbol version and the
//! error correction level determine.

use vstd::prelude::*;

verus! {

/// The error correction level of a symbol, from the least to the most
/// redundant.
#[derive(Clone, Copy, Debug, PartialEq, Eq, Structural)]
pub enum EccLevel {
    L,
    M,
    Q,
    H,
}

impl EccLevel {
    /// The place of the level in the order L, M, Q, H, counted from 0.
    pub open spec fn rank(self) -> int {
        match self {
            EccLevel::L => 0,
            EccLevel::M => 1,
            EccLevel::Q => 2,
            EccLevel::H => 3,
        }
    }

    /// The place of the level in the order L, M, Q, H, counted from 0.
    pub fn index(self) -> (i: usize)
        ensures
            i == self.rank(),
    {
        match self {
            EccLevel::L => 0,
            EccLevel::M => 1,
            EccLevel::Q => 2,
            EccLevel::H => 3,
        }
    }
}

/// The largest symbol version.
pub const MAX_VERSION: u8 = 40;

/// The number of data codewords of each version (rows, from version 1) at
/// each level (columns, in the order L, M, Q, H).
pub const DATA_CODEWORDS: [[u16; 4]; 40] = [
    [19, 16, 13, 9],
    [34, 28, 22, 16],
    [55, 44, 34, 26],
    [80, 64, 48, 36],
    [108, 86, 62, 46],
    [136, 108, 76, 60],
    [156, 124, 88, 66],
    [194, 154, 110, 86],
    [232, 182, 132, 100],
    [274, 216, 154, 122],
    [324, 254, 180, 140],
    [370, 290, 206, 158],
    [428, 334, 244, 180],
    [461, 365, 261, 197],
    [523, 415, 295, 223],
    [589, 453, 325, 253],
    [647, 507, 367, 283],
    [721, 563, 397, 313],
    [795, 627, 445, 341],
    [861, 669, 485, 385],
    [932, 714, 512, 406],
    [1006, 782, 568, 442],
    [1094, 860, 614, 464],
    [1174, 914, 664, 514],
    [1276, 1000, 718, 538],
    [1370, 1062, 754, 596],
    [1468, 1128, 808, 628],
    [1531, 1193, 871, 661],
    [1631, 1267, 911, 701],
    [1735, 1373, 985, 745],
    [1843, 1455, 1033, 793],
    [1955, 1541, 1115, 845],
    [2071, 1631, 1171, 901],
    [2191, 1725, 1231, 961],
    [2306, 1812, 1286, 986],
    [2434, 1914, 1354, 1054],
    [2566, 1992, 1426, 1096],
    [2702, 2102, 1502, 1142],
    [2812, 2216, 1582, 1222],
    [2956, 2334, 1666, 1276],
];

/// Whether `version` is one of the versions 1 to 40.
pub open spec fn is_version(version: int) -> bool {
    1 <= version <= 40
}

/// The number of modules along one side of a symbol of the given version.
pub open spec fn side_of(version: int) -> int {
    17 + 4 * version
}

/// The number of data codewords in a symbol of the given version and level.
pub open spec fn data_codeword_count(version: int, level: EccLevel) -> int
    recommends
        is_version(version),
{
    DATA_CODEWORDS@[version - 1]@[level.rank()] as int
}

/// The width in bits of the length field of a byte segment.
pub open spec fn length_field_width(version: int) -> int {
    if version <= 9 {
        8
    } else {
        16
    }
}

/// The number of payload bytes that fit into a symbol of the given version
/// and level: what the data codewords leave after the four bits of the mode
/// indicator and the length field.
pub open spec fn capacity_of(version: int, level: EccLevel) -> int
    recommends
        is_version(version),
{
    (8 * data_codeword_count(version, level) - 4 - length_field_width(version)) / 8
}

/// The number of modules along one side of a symbol of the given version.
pub fn symbol_side(version: u8) -> (side: usize)
    requires
        is_version(version as int),
    ensures
        side == side_of(version as int),
{
    17 + 4 * (version as usize)
}

/// The number of data codewords in a symbol of the given version and level.
pub fn data_codewords(version: u8, level: EccLevel) -> (count: usize)
    requires
        is_version(version as int),
    ensures
        count == data_codeword_count(version as int, level),
{
    DATA_CODEWORDS[(version - 1) as usize][level.index()] as usize
}

/// The width in bits of the length field of a byte segment.
pub fn length_field_bits(version: u8) -> (width: usize)
    ensures
        width == length_field_width(version as int),
{
    if version <= 9 {
        8
    } else {
        16
    }
}

/// The number of payload bytes that fit into a symbol of the given version
/// and level.
pub fn byte_capacity(version: u8, level: EccLevel) -> (capacity: usize)
    requires
        is_version(version as int),
    ensures
        capacity == capacity_of(version as int, level),
{
    proof {
        lemma_data_codeword_bounds(version as int, level);
    }
    (8 * data_codewords(version, level) - 4 - length_field_bits(version)) / 8
}

/// Every entry of the table lies between the smallest and the largest one.
pub proof fn lemma_data_codeword_bounds(version: int, level: EccLevel)
    requires
        is_version(version),
    ensures
        9 <= data_codeword_count(version, level) <= 2956,
{
}

/// A larger version holds more data codewords at the same level.
pub proof fn lemma_data_codewords_grow_with_version(version: int, level: EccLevel)
    requires
        1 <= version < 40,
    ensures
        data_codeword_count(version, level) < data_codeword_count(version + 1, level),
{
}

} // verus!
