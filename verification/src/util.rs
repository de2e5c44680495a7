//! Marshaling between the host's 32-bit length domain and native sizes, and
//! the text of a host error.
use vstd::prelude::*;
use vstd::string::*;

verus! {

/// A native length limited to the host's 32-bit length domain: lengths past
/// `u32::MAX` become `u32::MAX`.
pub open spec fn spec_clamp_to_u32(value: int) -> int {
    if value > u32::MAX as int {
        u32::MAX as int
    } else {
        value
    }
}

/// A host length limited to the native size domain: lengths past
/// `usize::MAX` become `usize::MAX`.
pub open spec fn spec_clamp_to_usize(value: int) -> int {
    if value > usize::MAX as int {
        usize::MAX as int
    } else {
        value
    }
}

/// The text shown for a host error that has none of its own.
pub open spec fn unknown_error_text() -> Seq<char> {
    "Unknown error"@
}

/// The text of a host error: its own string value where it is a string,
/// else the text the host renders for it as an object, else a fixed
/// placeholder. The conversion is lossy: nothing but the text survives.
pub open spec fn spec_error_message(direct: Option<Seq<char>>, rendered: Option<Seq<char>>) -> Seq<
    char,
> {
    match direct {
        Some(text) => text,
        None => match rendered {
            Some(text) => text,
            None => unknown_error_text(),
        },
    }
}

/// Converts a native length to a host length, saturating at `u32::MAX`.
/// Meant for sizing hints, where a shorter request is acceptable.
pub fn clamp_to_u32(value: usize) -> (clamped: u32)
    ensures
        clamped as int == spec_clamp_to_u32(value as int),
{
    if value > u32::MAX as usize {
        u32::MAX
    } else {
        value as u32
    }
}

/// Converts a host length to a native length, saturating at `usize::MAX`.
pub fn clamp_to_usize(value: u32) -> (clamped: usize)
    ensures
        clamped as int == spec_clamp_to_usize(value as int),
{
    value as usize
}

/// Converts a native length that is known to fit the host's 32-bit domain.
pub fn checked_cast_to_u32(value: usize) -> (cast: u32)
    requires
        value <= u32::MAX,
    ensures
        cast == value,
{
    value as u32
}

/// Converts a host length that is known to fit the native size domain.
pub fn checked_cast_to_usize(value: u32) -> (cast: usize)
    requires
        value <= usize::MAX,
    ensures
        cast == value,
{
    value as usize
}

/// The message carried by the native error that stands for a host error.
/// `direct` is the error's own string value, `rendered` the text of its
/// object form; each is `None` where the host error has no such form.
pub fn error_message(direct: Option<String>, rendered: Option<String>) -> (message: String)
    ensures
        message@ == spec_error_message(
            match direct {
                Some(text) => Some(text@),
                None => None,
            },
            match rendered {
                Some(text) => Some(text@),
                None => None,
            },
        ),
{
    match direct {
        Some(text) => text,
        None => match rendered {
            Some(text) => text,
            None => String::from_str("Unknown error"),
        },
    }
}

} // verus!
