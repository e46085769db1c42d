//! The total of bytes written, as it is shown: in bytes, in the four binary
//! units and in the four decimal ones.

use crate::units::Unit;
use vstd::prelude::*;

verus! {

/// A count of bytes in a unit: so many whole units, and the bytes left over.
#[derive(Clone, Copy, Debug, PartialEq, Eq, Structural)]
pub struct Amount {
    pub unit: Unit,
    /// Whole units in the count.
    pub whole: u64,
    /// Bytes of the count beyond the whole units: fewer than one unit holds.
    pub rest: u64,
}

/// One line of the status block.
#[derive(Clone, Copy, Debug, PartialEq, Eq, Structural)]
pub enum StatusLine {
    /// An empty line, between the families of units.
    Blank,
    Value(Amount),
}

/// The number of lines in the status block.
pub const STATUS_LINES: usize = 11;

/// `bytes` in a unit.
pub open spec fn amount(bytes: usize, unit: Unit) -> Amount {
    Amount {
        unit,
        whole: (bytes as int / unit.bytes()) as u64,
        rest: (bytes as int % unit.bytes()) as u64,
    }
}

/// The status block for a total: the bytes, then the binary units from the
/// smallest up, then the decimal ones, the three groups parted by empty lines.
pub open spec fn block(bytes: usize) -> Seq<StatusLine> {
    seq![
        StatusLine::Value(amount(bytes, Unit::B)),
        StatusLine::Blank,
        StatusLine::Value(amount(bytes, Unit::Kib)),
        StatusLine::Value(amount(bytes, Unit::Mib)),
        StatusLine::Value(amount(bytes, Unit::Gib)),
        StatusLine::Value(amount(bytes, Unit::Tib)),
        StatusLine::Blank,
        StatusLine::Value(amount(bytes, Unit::Kb)),
        StatusLine::Value(amount(bytes, Unit::Mb)),
        StatusLine::Value(amount(bytes, Unit::Gb)),
        StatusLine::Value(amount(bytes, Unit::Tb)),
    ]
}

impl Unit {
    /// The unit's name as the status block shows it.
    pub open spec fn name(self) -> Seq<char> {
        match self {
            Unit::B => "B"@,
            Unit::Kb => "KB"@,
            Unit::Kib => "KiB"@,
            Unit::Mb => "MB"@,
            Unit::Mib => "MiB"@,
            Unit::Gb => "GB"@,
            Unit::Gib => "GiB"@,
            Unit::Tb => "TB"@,
            Unit::Tib => "TiB"@,
        }
    }

    /// The unit's name as the status block shows it.
    pub fn label(self) -> (label: &'static str)
        ensures
            label@ == self.name(),
    {
        match self {
            Unit::B => "B",
            Unit::Kb => "KB",
            Unit::Kib => "KiB",
            Unit::Mb => "MB",
            Unit::Mib => "MiB",
            Unit::Gb => "GB",
            Unit::Gib => "GiB",
            Unit::Tb => "TB",
            Unit::Tib => "TiB",
        }
    }
}

/// `bytes` in a unit: the whole units in it and the bytes left over, so that
/// nothing of the count is lost.
pub fn in_unit(bytes: usize, unit: Unit) -> (a: Amount)
    ensures
        a == amount(bytes, unit),
        a.whole * unit.bytes() + a.rest == bytes,
        a.rest < unit.bytes(),
{
    let m: u64 = unit.multiplier();
    let b: u64 = bytes as u64;
    proof {
        vstd::arithmetic::div_mod::lemma_fundamental_div_mod(b as int, m as int);
        vstd::arithmetic::div_mod::lemma_mod_bound(b as int, m as int);
        assert((b as int / m as int) * m == m * (b as int / m as int)) by (nonlinear_arith);
    }
    Amount { unit, whole: b / m, rest: b % m }
}

/// The status block for a total of `bytes`.
pub fn status_block(bytes: usize) -> (lines: Vec<StatusLine>)
    ensures
        lines@ == block(bytes),
        lines@.len() == STATUS_LINES,
{
    let mut lines: Vec<StatusLine> = Vec::with_capacity(STATUS_LINES);
    lines.push(StatusLine::Value(in_unit(bytes, Unit::B)));
    lines.push(StatusLine::Blank);
    lines.push(StatusLine::Value(in_unit(bytes, Unit::Kib)));
    lines.push(StatusLine::Value(in_unit(bytes, Unit::Mib)));
    lines.push(StatusLine::Value(in_unit(bytes, Unit::Gib)));
    lines.push(StatusLine::Value(in_unit(bytes, Unit::Tib)));
    lines.push(StatusLine::Blank);
    lines.push(StatusLine::Value(in_unit(bytes, Unit::Kb)));
    lines.push(StatusLine::Value(in_unit(bytes, Unit::Mb)));
    lines.push(StatusLine::Value(in_unit(bytes, Unit::Gb)));
    lines.push(StatusLine::Value(in_unit(bytes, Unit::Tb)));
    assert(lines@ =~= block(bytes));
    lines
}

} // verus!
