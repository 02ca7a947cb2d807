//! Size units in which byte quantities are reported.

use vstd::prelude::*;

use crate::text::{same_text, to_upper, upper_of};

verus! {

/// A unit for reporting byte quantities.
#[derive(Clone, Copy, Debug, PartialEq, Eq, Structural)]
pub enum SizeUnit {
    Bytes,
    KB,
    KiB,
    MB,
    MiB,
    GB,
    GiB,
    TB,
    TiB,
}

/// How many bytes make one of `u`.
pub open spec fn unit_divisor(u: SizeUnit) -> nat {
    match u {
        SizeUnit::Bytes => 1,
        SizeUnit::KB => 1000,
        SizeUnit::KiB => 1024,
        SizeUnit::MB => 1000 * 1000,
        SizeUnit::MiB => 1024 * 1024,
        SizeUnit::GB => 1000 * 1000 * 1000,
        SizeUnit::GiB => 1024 * 1024 * 1024,
        SizeUnit::TB => 1000 * 1000 * 1000 * 1000,
        SizeUnit::TiB => 1024 * 1024 * 1024 * 1024,
    }
}

/// The label under which quantities in `u` are reported.
pub open spec fn unit_label(u: SizeUnit) -> Seq<char> {
    match u {
        SizeUnit::Bytes => "bytes"@,
        SizeUnit::KB => "KB"@,
        SizeUnit::KiB => "KiB"@,
        SizeUnit::MB => "MB"@,
        SizeUnit::MiB => "MiB"@,
        SizeUnit::GB => "GB"@,
        SizeUnit::GiB => "GiB"@,
        SizeUnit::TB => "TB"@,
        SizeUnit::TiB => "TiB"@,
    }
}

/// The unit that upper-case text `s` names, if any.
pub open spec fn unit_named(s: Seq<char>) -> Option<SizeUnit> {
    if s == "BYTES"@ || s == "B"@ || s.len() == 0 {
        Some(SizeUnit::Bytes)
    } else if s == "KB"@ {
        Some(SizeUnit::KB)
    } else if s == "KIB"@ {
        Some(SizeUnit::KiB)
    } else if s == "MB"@ {
        Some(SizeUnit::MB)
    } else if s == "MIB"@ {
        Some(SizeUnit::MiB)
    } else if s == "GB"@ {
        Some(SizeUnit::GB)
    } else if s == "GIB"@ {
        Some(SizeUnit::GiB)
    } else if s == "TB"@ {
        Some(SizeUnit::TB)
    } else if s == "TIB"@ {
        Some(SizeUnit::TiB)
    } else {
        None
    }
}

/// The unit that configuration text `s` asks for: `s` is read without regard
/// to case, and text that names no unit asks for bytes.
pub open spec fn unit_setting(s: Seq<char>) -> SizeUnit {
    match unit_named(upper_of(s)) {
        Some(u) => u,
        None => SizeUnit::Bytes,
    }
}

/// A byte count expressed in some unit: the real number `amount / per_unit`.
#[derive(Clone, Copy, Debug, PartialEq, Eq, Structural)]
pub struct Quantity {
    pub amount: u64,
    pub per_unit: u64,
}

/// `b` bytes expressed in `u`.
pub open spec fn converted(u: SizeUnit, b: u64) -> Quantity {
    Quantity { amount: b, per_unit: unit_divisor(u) as u64 }
}

impl SizeUnit {
    /// The unit named by upper-case text `s`: `BYTES`, `B` or nothing for
    /// bytes, else one of `KB`, `KIB`, `MB`, `MIB`, `GB`, `GIB`, `TB`, `TIB`.
    pub fn from_upper(s: &str) -> (r: Option<SizeUnit>)
        ensures
            r == unit_named(s@),
    {
        if same_text(s, "BYTES") || same_text(s, "B") || s.unicode_len() == 0 {
            Some(SizeUnit::Bytes)
        } else if same_text(s, "KB") {
            Some(SizeUnit::KB)
        } else if same_text(s, "KIB") {
            Some(SizeUnit::KiB)
        } else if same_text(s, "MB") {
            Some(SizeUnit::MB)
        } else if same_text(s, "MIB") {
            Some(SizeUnit::MiB)
        } else if same_text(s, "GB") {
            Some(SizeUnit::GB)
        } else if same_text(s, "GIB") {
            Some(SizeUnit::GiB)
        } else if same_text(s, "TB") {
            Some(SizeUnit::TB)
        } else if same_text(s, "TIB") {
            Some(SizeUnit::TiB)
        } else {
            None
        }
    }

    /// The unit named by `s`, read without regard to case.
    pub fn from_str(s: &str) -> (r: Option<SizeUnit>)
        ensures
            r == unit_named(upper_of(s@)),
            s@.len() == 0 ==> r == Some(SizeUnit::Bytes),
    {
        let upper = to_upper(s);
        SizeUnit::from_upper(upper.as_str())
    }

    /// The unit that configuration text `s` asks for; never fails, and falls
    /// back to bytes on text that names no unit.
    pub fn parse(s: &str) -> (r: SizeUnit)
        ensures
            r == unit_setting(s@),
            s@.len() == 0 ==> r == SizeUnit::Bytes,
    {
        match SizeUnit::from_str(s) {
            Some(u) => u,
            None => SizeUnit::Bytes,
        }
    }

    /// How many bytes make one of this unit.
    pub fn divisor(&self) -> (r: u64)
        ensures
            r == unit_divisor(*self),
    {
        match self {
            SizeUnit::Bytes => 1,
            SizeUnit::KB => 1_000,
            SizeUnit::KiB => 1_024,
            SizeUnit::MB => 1_000_000,
            SizeUnit::MiB => 1_048_576,
            SizeUnit::GB => 1_000_000_000,
            SizeUnit::GiB => 1_073_741_824,
            SizeUnit::TB => 1_000_000_000_000,
            SizeUnit::TiB => 1_099_511_627_776,
        }
    }

    /// `bytes` expressed in this unit.
    pub fn convert(&self, bytes: u64) -> (r: Quantity)
        ensures
            r == converted(*self, bytes),
    {
        Quantity { amount: bytes, per_unit: self.divisor() }
    }

    /// The label under which quantities in this unit are reported.
    pub fn name(&self) -> (r: &'static str)
        ensures
            r@ == unit_label(*self),
    {
        match self {
            SizeUnit::Bytes => "bytes",
            SizeUnit::KB => "KB",
            SizeUnit::KiB => "KiB",
            SizeUnit::MB => "MB",
            SizeUnit::MiB => "MiB",
            SizeUnit::GB => "GB",
            SizeUnit::GiB => "GiB",
            SizeUnit::TB => "TB",
            SizeUnit::TiB => "TiB",
        }
    }
}

/// Every unit has a positive divisor, so a converted byte count is never
/// negative; and a byte count converted to bytes is the count itself.
pub proof fn lemma_convert_nonnegative(u: SizeUnit, b: u64)
    ensures
        converted(u, b).per_unit > 0,
        converted(u, b).per_unit as nat == unit_divisor(u),
        converted(SizeUnit::Bytes, b) == (Quantity { amount: b, per_unit: 1 }),
{
}

/// Parsing configuration text always yields one of the units, and text that
/// names no unit yields bytes.
pub proof fn lemma_parse_total(s: Seq<char>)
    ensures
        unit_named(upper_of(s)) is None ==> unit_setting(s) == SizeUnit::Bytes,
        unit_named(upper_of(s)) matches Some(u) ==> unit_setting(s) == u,
{
}

} // verus!
