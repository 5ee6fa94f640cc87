//! Byte counts for people: a count of bytes as a whole number of the largest
//! binary unit that it reaches.

use vstd::prelude::*;
use vstd::string::StringExecFns;
use crate::string::{decimal, push_decimal};

verus! {

/// The units a byte count is shown in, smallest first. Each is 1024 times
/// the one before.
#[derive(Clone, Copy, Debug, PartialEq, Eq, Structural)]
pub enum ByteUnit {
    Byte,
    Kilo,
    Mega,
    Giga,
    Tera,
}

impl ByteUnit {
    /// The place of the unit among the units: the power of 1024 it stands for.
    pub open spec fn rank(self) -> nat {
        match self {
            ByteUnit::Byte => 0,
            ByteUnit::Kilo => 1,
            ByteUnit::Mega => 2,
            ByteUnit::Giga => 3,
            ByteUnit::Tera => 4,
        }
    }

    /// The number of bytes in one unit.
    pub open spec fn size(self) -> nat {
        match self {
            ByteUnit::Byte => 1,
            ByteUnit::Kilo => 1024,
            ByteUnit::Mega => 1024 * 1024,
            ByteUnit::Giga => 1024 * 1024 * 1024,
            ByteUnit::Tera => 1024 * 1024 * 1024 * 1024,
        }
    }

    /// The suffix that names the unit.
    pub open spec fn suffix(self) -> Seq<char> {
        match self {
            ByteUnit::Byte => "b"@,
            ByteUnit::Kilo => "kb"@,
            ByteUnit::Mega => "mb"@,
            ByteUnit::Giga => "gb"@,
            ByteUnit::Tera => "tb"@,
        }
    }

    /// The largest unit that `bytes` reaches; bytes for a count below 1024.
    pub open spec fn of(bytes: nat) -> ByteUnit {
        if bytes >= ByteUnit::Tera.size() {
            ByteUnit::Tera
        } else if bytes >= ByteUnit::Giga.size() {
            ByteUnit::Giga
        } else if bytes >= ByteUnit::Mega.size() {
            ByteUnit::Mega
        } else if bytes >= ByteUnit::Kilo.size() {
            ByteUnit::Kilo
        } else {
            ByteUnit::Byte
        }
    }

    /// The largest unit that `bytes` reaches.
    pub fn for_count(bytes: u64) -> (unit: ByteUnit)
        ensures
            unit == ByteUnit::of(bytes as nat),
    {
        if bytes >= 1024 * 1024 * 1024 * 1024 {
            ByteUnit::Tera
        } else if bytes >= 1024 * 1024 * 1024 {
            ByteUnit::Giga
        } else if bytes >= 1024 * 1024 {
            ByteUnit::Mega
        } else if bytes >= 1024 {
            ByteUnit::Kilo
        } else {
            ByteUnit::Byte
        }
    }

    /// The number of bytes in one unit.
    pub fn bytes(self) -> (size: u64)
        ensures
            size == self.size(),
            size > 0,
    {
        match self {
            ByteUnit::Byte => 1,
            ByteUnit::Kilo => 1024,
            ByteUnit::Mega => 1024 * 1024,
            ByteUnit::Giga => 1024 * 1024 * 1024,
            ByteUnit::Tera => 1024 * 1024 * 1024 * 1024,
        }
    }

    /// The suffix that names the unit.
    pub fn label(self) -> (suffix: &'static str)
        ensures
            suffix@ == self.suffix(),
    {
        match self {
            ByteUnit::Byte => "b",
            ByteUnit::Kilo => "kb",
            ByteUnit::Mega => "mb",
            ByteUnit::Giga => "gb",
            ByteUnit::Tera => "tb",
        }
    }
}

/// A byte count as text: the count in whole units of the largest unit it
/// reaches, cut off and not rounded, with the unit's suffix right behind it.
pub open spec fn formatted(bytes: nat) -> Seq<char> {
    decimal(bytes / ByteUnit::of(bytes).size()) + ByteUnit::of(bytes).suffix()
}

/// Turns byte counts into text.
pub struct ByteFormatter;

impl ByteFormatter {
    /// The byte count as text, such as `0b`, `1023b`, `1kb` or `2tb`.
    pub fn format(bytes: u64) -> (text: String)
        ensures
            text@ == formatted(bytes as nat),
    {
        let unit = ByteUnit::for_count(bytes);
        let mut text = String::new();
        push_decimal(&mut text, bytes / unit.bytes());
        text.append(unit.label());
        text
    }
}

/// The unit never gets smaller as the count grows.
pub proof fn lemma_unit_monotonic(smaller: nat, larger: nat)
    requires
        smaller <= larger,
    ensures
        ByteUnit::of(smaller).rank() <= ByteUnit::of(larger).rank(),
{
}

/// The unit chosen is the largest one that the count reaches: the count is at
/// least one such unit, unless it is below one byte, and it is less than one
/// of any larger unit.
pub proof fn lemma_unit_is_largest_reached(bytes: nat, other: ByteUnit)
    ensures
        bytes >= 1 ==> ByteUnit::of(bytes).size() <= bytes,
        other.rank() > ByteUnit::of(bytes).rank() ==> bytes < other.size(),
        other.size() <= bytes ==> other.rank() <= ByteUnit::of(bytes).rank(),
{
}

} // verus!
