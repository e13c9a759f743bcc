//! The version string of a context, read strictly.

use vstd::prelude::*;
use vstd::string::*;
use crate::api::gl::GlFamilyProfile;
use crate::text;
use crate::text::{chars_of, has_prefix, lead_end, parse_byte, trim, CharClass};

verus! {

/// Why a version string is not accepted.
#[derive(Clone, Debug, PartialEq, Eq)]
pub enum NativeProfileError {
    Empty,
    Malformed(String),
    BelowDesktopFloor { major: u8, minor: u8 },
    BelowEmbeddedFloor { major: u8, minor: u8 },
}

/// The first word of a text.
pub open spec fn first_word(s: Seq<char>) -> Seq<char> {
    let rest = text::trimmed_start(s);
    rest.take(text::lead(rest, CharClass::Word) as int)
}

/// What stands before the first dot.
pub open spec fn first_part(s: Seq<char>) -> Seq<char> {
    s.take(text::lead(s, CharClass::Part) as int)
}

/// What stands between the first dot and the second, if there is a dot.
pub open spec fn second_part(s: Seq<char>) -> Option<Seq<char>> {
    let n = text::lead(s, CharClass::Part);
    if n < s.len() {
        Some(first_part(s.skip(n as int + 1)))
    } else {
        None
    }
}

/// The two numbers that a version starts with.
pub open spec fn version_numbers(s: Seq<char>) -> Option<(u8, u8)> {
    match (text::parsed_byte(first_part(s)), second_part(s)) {
        (Some(major), Some(part)) => match text::parsed_byte(part) {
            Some(minor) => Some((major, minor)),
            None => None,
        },
        _ => None,
    }
}

/// Whether a trimmed version string is that of an embedded context.
pub open spec fn is_embedded(value: Seq<char>) -> bool {
    text::starts_with(value, "OpenGL ES "@)
}

/// The version of a trimmed version string.
pub open spec fn numbers_of(value: Seq<char>) -> Option<(u8, u8)> {
    version_numbers(
        first_word(
            if is_embedded(value) {
                value.skip("OpenGL ES "@.len() as int)
            } else {
                value
            },
        ),
    )
}

/// Whether this is what a version string stands for.
pub open spec fn reads_as(
    version: Seq<char>,
    result: Result<GlFamilyProfile, NativeProfileError>,
) -> bool {
    let value = text::trimmed(version);
    if value.len() == 0 {
        result == Err::<GlFamilyProfile, _>(NativeProfileError::Empty)
    } else {
        match numbers_of(value) {
            None => {
                &&& result is Err
                &&& result->Err_0 is Malformed
                &&& result->Err_0->Malformed_0@ == value
            },
            Some((major, minor)) => result == if is_embedded(value) {
                if major < 3 {
                    Err(NativeProfileError::BelowEmbeddedFloor { major, minor })
                } else {
                    Ok(GlFamilyProfile::Embedded { major, minor })
                }
            } else {
                if major < 4 {
                    Err(NativeProfileError::BelowDesktopFloor { major, minor })
                } else {
                    Ok(GlFamilyProfile::Desktop { major, minor })
                }
            },
        }
    }
}

/// What is accepted is at its real version, and at or above the floor of its
/// family; nothing is lowered to the floor.
pub proof fn accepted_versions_are_kept(
    version: Seq<char>,
    result: Result<GlFamilyProfile, NativeProfileError>,
)
    requires
        reads_as(version, result),
        result is Ok,
    ensures
        match result->Ok_0 {
            GlFamilyProfile::Desktop { major, minor } => {
                &&& major >= 4
                &&& numbers_of(text::trimmed(version)) == Some((major, minor))
                &&& !is_embedded(text::trimmed(version))
            },
            GlFamilyProfile::Embedded { major, minor } => {
                &&& major >= 3
                &&& numbers_of(text::trimmed(version)) == Some((major, minor))
                &&& is_embedded(text::trimmed(version))
            },
            GlFamilyProfile::WebGl2 => false,
        },
{
}

/// The two numbers that a stretch of characters starts with.
pub fn read_numbers(chars: &Vec<char>, from: usize, to: usize) -> (result: Option<(u8, u8)>)
    requires
        from <= to <= chars@.len(),
    ensures
        result == version_numbers(chars@.subrange(from as int, to as int)),
{
    let ghost s = chars@.subrange(from as int, to as int);
    let dot = lead_end(chars, from, to, CharClass::Part);
    assert(first_part(s) =~= chars@.subrange(from as int, dot as int));
    let major = match parse_byte(chars, from, dot) {
        Some(major) => major,
        None => {
            return None;
        },
    };
    if dot == to {
        return None;
    }
    let end = lead_end(chars, dot + 1, to, CharClass::Part);
    proof {
        let rest = s.skip(dot - from + 1);
        assert(rest =~= chars@.subrange(dot + 1, to as int));
        assert(first_part(rest) =~= chars@.subrange(dot + 1, end as int));
    }
    match parse_byte(chars, dot + 1, end) {
        Some(minor) => Some((major, minor)),
        None => None,
    }
}

/// Reads a version string. An embedded context says so at the start; a vendor
/// name that holds the letters is no such thing.
pub fn parse_native_profile(version: &str) -> (result: Result<GlFamilyProfile, NativeProfileError>)
    ensures
        reads_as(version@, result),
{
    let value = trim(version);
    let chars = chars_of(value.as_str());
    let n = chars.len();
    if n == 0 {
        return Err(NativeProfileError::Empty);
    }
    let embedded = has_prefix(&chars, "OpenGL ES ");
    let from: usize = if embedded {
        "OpenGL ES ".unicode_len()
    } else {
        0
    };
    let ghost tail = if embedded {
        chars@.skip("OpenGL ES "@.len() as int)
    } else {
        chars@
    };
    assert(tail =~= chars@.subrange(from as int, n as int));
    let start = lead_end(&chars, from, n, CharClass::Space);
    let end = lead_end(&chars, start, n, CharClass::Word);
    proof {
        let rest = text::trimmed_start(tail);
        assert(rest =~= chars@.subrange(start as int, n as int));
        assert(first_word(tail) =~= chars@.subrange(start as int, end as int));
    }
    match read_numbers(&chars, start, end) {
        None => Err(NativeProfileError::Malformed(value)),
        Some((major, minor)) => if embedded {
            if major < 3 {
                Err(NativeProfileError::BelowEmbeddedFloor { major, minor })
            } else {
                Ok(GlFamilyProfile::Embedded { major, minor })
            }
        } else {
            if major < 4 {
                Err(NativeProfileError::BelowDesktopFloor { major, minor })
            } else {
                Ok(GlFamilyProfile::Desktop { major, minor })
            }
        },
    }
}

} // verus!
