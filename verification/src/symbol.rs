//! The symbol: a square grid of modules with the version, level and mask
//! that it was made with.

use vstd::prelude::*;
use crate::tables::{is_version, side_of, symbol_side, EccLevel};

verus! {

/// What a symbol is, as plain values.
pub struct SymbolView {
    pub version: int,
    pub level: EccLevel,
    pub mask: int,
    /// The modules row by row from the top, each row from the left; `true`
    /// is dark.
    pub modules: Seq<bool>,
}

impl SymbolView {
    /// The invariant of a symbol: a version from 1 to 40, a mask from 0 to
    /// 7, and as many modules as the square of that version has.
    pub open spec fn is_symbol(self) -> bool {
        &&& is_version(self.version)
        &&& 0 <= self.mask < 8
        &&& self.modules.len() == side_of(self.version) * side_of(self.version)
    }

    /// Whether the module in column `x` of row `y` is dark.
    pub open spec fn dark_at(self, x: int, y: int) -> bool
        recommends
            0 <= x < side_of(self.version),
            0 <= y < side_of(self.version),
    {
        self.modules[y * side_of(self.version) + x]
    }
}

/// An encoded symbol. It is made once and never changed.
pub struct Symbol {
    version: u8,
    level: EccLevel,
    mask: u8,
    modules: Vec<bool>,
}

impl View for Symbol {
    type V = SymbolView;

    closed spec fn view(&self) -> SymbolView {
        SymbolView {
            version: self.version as int,
            level: self.level,
            mask: self.mask as int,
            modules: self.modules@,
        }
    }
}

impl Symbol {
    #[verifier::type_invariant]
    spec fn well_formed(&self) -> bool {
        self@.is_symbol()
    }

    /// Puts a symbol together from its parts.
    pub(crate) fn from_parts(
        version: u8,
        level: EccLevel,
        mask: u8,
        modules: Vec<bool>,
    ) -> (symbol: Symbol)
        requires
            is_version(version as int),
            mask < 8,
            modules.len() == side_of(version as int) * side_of(version as int),
        ensures
            symbol@ == (SymbolView {
                version: version as int,
                level,
                mask: mask as int,
                modules: modules@,
            }),
    {
        Symbol { version, level, mask, modules }
    }

    /// The version, from 1 to 40.
    pub fn version(&self) -> (version: u8)
        ensures
            version == self@.version,
            is_version(version as int),
    {
        proof {
            use_type_invariant(self);
        }
        self.version
    }

    /// The error correction level.
    pub fn level(&self) -> (level: EccLevel)
        ensures
            level == self@.level,
    {
        self.level
    }

    /// The number of the mask pattern, from 0 to 7.
    pub fn mask(&self) -> (mask: u8)
        ensures
            mask == self@.mask,
            mask < 8,
    {
        proof {
            use_type_invariant(self);
        }
        self.mask
    }

    /// The number of modules along one side.
    pub fn side(&self) -> (side: usize)
        ensures
            side == side_of(self@.version),
            21 <= side <= 177,
    {
        proof {
            use_type_invariant(self);
        }
        symbol_side(self.version)
    }

    /// The modules row by row from the top, each row from the left.
    pub fn modules(&self) -> (modules: &Vec<bool>)
        ensures
            modules@ == self@.modules,
            modules.len() == side_of(self@.version) * side_of(self@.version),
    {
        proof {
            use_type_invariant(self);
        }
        &self.modules
    }

    /// Whether the module in column `x` of row `y` is dark; `None` outside
    /// the symbol.
    pub fn is_dark(&self, x: usize, y: usize) -> (dark: Option<bool>)
        ensures
            dark is Some <==> x < side_of(self@.version) && y < side_of(self@.version),
            dark matches Some(d) ==> d == self@.dark_at(x as int, y as int),
    {
        proof {
            use_type_invariant(self);
        }
        let side = symbol_side(self.version);
        if x < side && y < side {
            assert(y * side + x < side * side && y * side <= 177 * 177) by (nonlinear_arith)
                requires
                    x < side,
                    y < side,
                    side <= 177,
            ;
            Some(self.modules[y * side + x])
        } else {
            None
        }
    }
}

} // verus!
