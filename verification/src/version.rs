//! Version selection: the smallest symbol that holds a payload.

use vstd::prelude::*;
use crate::tables::{
    byte_capacity, capacity_of, is_version, lemma_data_codewords_grow_with_version, EccLevel,
    MAX_VERSION,
};

verus! {

/// Whether a payload of `len` bytes fits into a symbol of the given version
/// and level.
pub open spec fn fits(len: int, version: int, level: EccLevel) -> bool {
    is_version(version) && len <= capacity_of(version, level)
}

/// Whether `version` holds `len` payload bytes at `level` and no smaller
/// version does.
pub open spec fn is_smallest_fit(len: int, level: EccLevel, version: int) -> bool {
    &&& fits(len, version, level)
    &&& forall|smaller: int| 1 <= smaller < version ==> !fits(len, smaller, level)
}

/// The version that is chosen for a payload of `len` bytes at `level`: the
/// smallest one that holds it. It means something only where one does.
pub open spec fn smallest_version(len: int, level: EccLevel) -> int {
    choose|version: int| is_smallest_fit(len, level, version)
}

/// A larger version holds more payload bytes at the same level.
pub proof fn lemma_capacity_grows_with_version(smaller: int, larger: int, level: EccLevel)
    requires
        1 <= smaller < larger <= 40,
    ensures
        capacity_of(smaller, level) < capacity_of(larger, level),
    decreases larger - smaller,
{
    lemma_data_codewords_grow_with_version(larger - 1, level);
    if smaller < larger - 1 {
        lemma_capacity_grows_with_version(smaller, larger - 1, level);
    }
}

/// A more redundant level holds fewer payload bytes at the same version.
pub proof fn lemma_capacity_shrinks_with_level(version: int, low: EccLevel, high: EccLevel)
    requires
        is_version(version),
        low.rank() < high.rank(),
    ensures
        capacity_of(version, low) > capacity_of(version, high),
{
}

/// The longest payload, in bytes, that can be encoded at `level`: what
/// version 40 holds.
pub open spec fn largest_capacity(level: EccLevel) -> int {
    match level {
        EccLevel::L => 2953,
        EccLevel::M => 2331,
        EccLevel::Q => 1663,
        EccLevel::H => 1273,
    }
}

/// The longest payload at a level is what the table gives for version 40.
pub proof fn lemma_largest_capacity(level: EccLevel)
    ensures
        capacity_of(40, level) == largest_capacity(level),
{
}

/// At most one version is the smallest fit.
pub proof fn lemma_smallest_fit_is_unique(len: int, level: EccLevel, a: int, b: int)
    requires
        is_smallest_fit(len, level, a),
        is_smallest_fit(len, level, b),
    ensures
        a == b,
        smallest_version(len, level) == a,
{
    let chosen = smallest_version(len, level);
    assert(is_smallest_fit(len, level, chosen));
    if chosen < a {
        assert(!fits(len, chosen, level));
    }
    if a < chosen {
        assert(!fits(len, a, level));
    }
    if a < b {
        assert(!fits(len, a, level));
    }
    if b < a {
        assert(!fits(len, b, level));
    }
}

/// A payload that fits into some version fits into the largest, and is
/// no longer than the longest payload of the level.
pub proof fn lemma_fit_reaches_largest(len: int, level: EccLevel, version: int)
    requires
        fits(len, version, level),
    ensures
        fits(len, 40, level),
        len <= largest_capacity(level),
{
    lemma_largest_capacity(level);
    if version < 40 {
        lemma_capacity_grows_with_version(version, 40, level);
    }
}

/// Version selection is monotonic: at one level, a shorter payload never
/// gets a larger version than a longer one.
pub proof fn lemma_version_selection_is_monotonic(
    shorter: int,
    longer: int,
    level: EccLevel,
    version_of_shorter: int,
    version_of_longer: int,
)
    requires
        shorter <= longer,
        is_smallest_fit(shorter, level, version_of_shorter),
        is_smallest_fit(longer, level, version_of_longer),
    ensures
        version_of_shorter <= version_of_longer,
{
    if version_of_longer < version_of_shorter {
        assert(fits(shorter, version_of_longer, level));
    }
}

/// Chooses the smallest version whose byte capacity at `level` holds a
/// payload of `len` bytes. There is none exactly when the payload is longer
/// than version 40 holds at that level.
pub fn select_version(len: usize, level: EccLevel) -> (chosen: Option<u8>)
    ensures
        chosen is Some <==> len <= largest_capacity(level),
        chosen matches Some(version) ==> is_smallest_fit(len as int, level, version as int),
        chosen matches Some(version) ==> version == smallest_version(len as int, level),
        chosen matches Some(version) ==> version == 1 || capacity_of(version - 1, level) < len,
{
    let mut version: u8 = 1;
    while version <= MAX_VERSION
        invariant
            1 <= version <= 41,
            forall|smaller: int| 1 <= smaller < version ==> !fits(len as int, smaller, level),
        decreases 41 - version,
    {
        if len <= byte_capacity(version, level) {
            proof {
                if version > 1 {
                    assert(!fits(len as int, version - 1, level));
                }
                lemma_smallest_fit_is_unique(len as int, level, version as int, version as int);
                lemma_fit_reaches_largest(len as int, level, version as int);
            }
            return Some(version);
        }
        version += 1;
    }
    assert(!fits(len as int, 40, level));
    proof {
        lemma_largest_capacity(level);
    }
    None
}

} // verus!
