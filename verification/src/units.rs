//! The units in which a chunk size is given and progress is shown.

use vstd::arithmetic::power::pow;
use vstd::prelude::*;

verus! {

/// A unit of size: bytes, or a decimal or binary multiple of them.
#[derive(Clone, Copy, Debug, PartialEq, Eq, Structural)]
pub enum Unit {
    B,
    Kb,
    Kib,
    Mb,
    Mib,
    Gb,
    Gib,
    Tb,
    Tib,
}

/// Why a chunk size was refused.
#[derive(Clone, Copy, Debug, PartialEq, Eq, Structural)]
pub enum SizeError {
    /// The chunk would hold no byte.
    Zero,
    /// The chunk's length in bytes is more than `usize` can hold.
    TooLarge,
}

impl Unit {
    /// 1000 for the decimal family, 1024 for the binary one.
    pub open spec fn base(self) -> int {
        match self {
            Unit::B | Unit::Kib | Unit::Mib | Unit::Gib | Unit::Tib => 1024,
            Unit::Kb | Unit::Mb | Unit::Gb | Unit::Tb => 1000,
        }
    }

    /// The power of the base that makes one unit.
    pub open spec fn exponent(self) -> nat {
        match self {
            Unit::B => 0,
            Unit::Kb | Unit::Kib => 1,
            Unit::Mb | Unit::Mib => 2,
            Unit::Gb | Unit::Gib => 3,
            Unit::Tb | Unit::Tib => 4,
        }
    }

    /// The number of bytes in one unit.
    pub open spec fn bytes(self) -> int {
        pow(self.base(), self.exponent())
    }

    /// The number of bytes in one unit.
    pub fn multiplier(self) -> (m: u64)
        ensures
            m == self.bytes(),
            1 <= m <= 1_099_511_627_776,
    {
        proof {
            reveal_with_fuel(pow, 5);
        }
        match self {
            Unit::B => 1,
            Unit::Kb => 1_000,
            Unit::Kib => 1_024,
            Unit::Mb => 1_000_000,
            Unit::Mib => 1_048_576,
            Unit::Gb => 1_000_000_000,
            Unit::Gib => 1_073_741_824,
            Unit::Tb => 1_000_000_000_000,
            Unit::Tib => 1_099_511_627_776,
        }
    }
}

/// The length in bytes of a chunk of `chunksize` units.
pub open spec fn chunk_bytes(chunksize: usize, unit: Unit) -> int {
    chunksize * unit.bytes()
}

/// The length in bytes of a chunk of `chunksize` units, where there is one:
/// an empty chunk is refused, and so is one whose length `usize` cannot hold.
pub fn chunk_length(chunksize: usize, unit: Unit) -> (r: Result<usize, SizeError>)
    ensures
        r == (if chunksize == 0 {
            Err(SizeError::Zero)
        } else if chunk_bytes(chunksize, unit) > usize::MAX {
            Err(SizeError::TooLarge)
        } else {
            Ok(chunk_bytes(chunksize, unit) as usize)
        }),
{
    if chunksize == 0 {
        return Err(SizeError::Zero);
    }
    let m: u64 = unit.multiplier();
    assert(chunksize * m <= u128::MAX) by (nonlinear_arith)
        requires
            chunksize <= u64::MAX,
            m <= 1_099_511_627_776,
    ;
    let wide: u128 = chunksize as u128 * m as u128;
    if wide > usize::MAX as u128 {
        Err(SizeError::TooLarge)
    } else {
        Ok(wide as usize)
    }
}

} // verus!
