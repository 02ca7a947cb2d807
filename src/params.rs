//! Arguments that a provider reads once, when its relation is negotiated.
//! Malformed or absent arguments never fail: each falls back to a default.

use vstd::prelude::*;

use crate::text::{parse_u32, to_upper, trim_char, trim_matches, u32_of, upper_of};
use crate::units::{unit_setting, SizeUnit};

verus! {

/// The unit that a named `unit` argument asks for: bytes where it is absent.
pub fn unit_argument(arg: Option<&str>) -> (r: SizeUnit)
    ensures
        r == match arg {
            Some(s) => unit_setting(s@),
            None => SizeUnit::Bytes,
        },
{
    match arg {
        Some(s) => SizeUnit::parse(s),
        None => SizeUnit::Bytes,
    }
}

/// The unit that a positional argument asks for, read without the quotes
/// around it: bytes where it is absent.
pub fn quoted_unit_argument(arg: Option<&str>) -> (r: SizeUnit)
    ensures
        r == match arg {
            Some(s) => unit_setting(trim_char(s@, '"')),
            None => SizeUnit::Bytes,
        },
{
    match arg {
        Some(s) => {
            let bare = trim_matches(s, '"');
            SizeUnit::parse(bare.as_str())
        },
        None => SizeUnit::Bytes,
    }
}

/// The text filter that a positional argument gives: the argument without
/// the quotes around it, or no filter where that leaves nothing.
pub fn text_filter(arg: Option<&str>) -> (r: Option<String>)
    ensures
        match arg {
            Some(s) => if trim_char(s@, '"').len() == 0 {
                r is None
            } else {
                r matches Some(f) && f@ == trim_char(s@, '"')
            },
            None => r is None,
        },
{
    match arg {
        Some(s) => {
            let bare = trim_matches(s, '"');
            if bare.unicode_len() == 0 {
                None
            } else {
                Some(bare)
            }
        },
        None => None,
    }
}

/// The protocol filter that a positional argument gives: the argument
/// without the quotes around it, in upper case, or no filter where that
/// leaves nothing.
pub fn protocol_filter(arg: Option<&str>) -> (r: Option<String>)
    ensures
        match arg {
            Some(s) => if upper_of(trim_char(s@, '"')).len() == 0 {
                r is None
            } else {
                r matches Some(f) && f@ == upper_of(trim_char(s@, '"'))
            },
            None => r is None,
        },
{
    match arg {
        Some(s) => {
            let bare = trim_matches(s, '"');
            let upper = to_upper(bare.as_str());
            if upper.unicode_len() == 0 {
                None
            } else {
                Some(upper)
            }
        },
        None => None,
    }
}

/// The process-id filter that a positional argument gives: the argument
/// without the quotes around it, read as a decimal `u32`; no filter where
/// it is absent or is no such number.
pub fn pid_filter(arg: Option<&str>) -> (r: Option<u32>)
    ensures
        r == match arg {
            Some(s) => u32_of(trim_char(s@, '"')),
            None => None,
        },
{
    match arg {
        Some(s) => {
            let bare = trim_matches(s, '"');
            parse_u32(bare.as_str())
        },
        None => None,
    }
}

} // verus!
