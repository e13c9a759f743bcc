//! The size of a drawable, and texts about it.

use vstd::prelude::*;
use vstd::string::*;
use crate::api::discovery::GlDiscoveryError;
use crate::native::discovery::{NativeDiscoveryError, ReasonModel};
use crate::text;
use crate::text::{push_decimal, trim};

verus! {

/// Whether one of the two sides is zero.
pub open spec fn spec_has_zero(extent: (u32, u32)) -> bool {
    extent.0 == 0 || extent.1 == 0
}

pub fn has_zero(extent: (u32, u32)) -> (result: bool)
    ensures
        result == spec_has_zero(extent),
{
    extent.0 == 0 || extent.1 == 0
}

/// Whether a drawable of this size can be a viewport. A drawable without area
/// is suspended, not refused; a limit of zero was never reported and bounds
/// nothing.
pub open spec fn within(limit: (u32, u32), extent: (u32, u32)) -> bool {
    spec_has_zero(extent) || spec_has_zero(limit) || (extent.0 <= limit.0 && extent.1 <= limit.1)
}

pub fn within_viewport_limit(limit: (u32, u32), extent: (u32, u32)) -> (result: bool)
    ensures
        result == within(limit, extent),
{
    if has_zero(extent) || has_zero(limit) {
        return true;
    }
    extent.0 <= limit.0 && extent.1 <= limit.1
}

/// A smaller drawable is never refused where a larger one is accepted.
pub proof fn smaller_drawables_fit(limit: (u32, u32), small: (u32, u32), large: (u32, u32))
    requires
        within(limit, large),
        !spec_has_zero(large),
        small.0 <= large.0,
        small.1 <= large.1,
    ensures
        within(limit, small),
{
}

/// Two numbers in brackets.
pub open spec fn pair_text(pair: (u32, u32)) -> Seq<char> {
    "["@ + text::decimal(pair.0 as nat) + ", "@ + text::decimal(pair.1 as nat) + "]"@
}

/// Writes two numbers in brackets.
pub fn push_pair(line: &mut String, pair: (u32, u32))
    ensures
        final(line)@ == old(line)@ + pair_text(pair),
{
    let ghost before = line@;
    line.append("[");
    push_decimal(line, pair.0 as u64);
    line.append(", ");
    push_decimal(line, pair.1 as u64);
    line.append("]");
    assert(line@ =~= before + pair_text(pair));
}

/// What is said of a drawable that is too large.
pub open spec fn extent_text(requested: (u32, u32), limit: (u32, u32)) -> Seq<char> {
    "drawable extent "@ + pair_text(requested) + " exceeds the maximum viewport dimensions "@
        + pair_text(limit)
}

/// Says that a drawable is too large.
pub fn describe_extent(requested: (u32, u32), limit: (u32, u32)) -> (result: String)
    ensures
        result@ == extent_text(requested, limit),
{
    let mut line = "drawable extent ".to_owned();
    push_pair(&mut line, requested);
    line.append(" exceeds the maximum viewport dimensions ");
    push_pair(&mut line, limit);
    line
}

/// A text in quotation marks after a word, in brackets.
pub open spec fn quoted(word: Seq<char>, inner: Seq<char>) -> Seq<char> {
    word + "(\""@ + inner + "\")"@
}

/// Writes a word, and a text in quotation marks in brackets.
pub fn push_quoted(line: &mut String, word: &str, inner: &str)
    ensures
        final(line)@ == old(line)@ + quoted(word@, inner@),
{
    let ghost before = line@;
    line.append(word);
    line.append("(\"");
    line.append(inner);
    line.append("\")");
    assert(line@ =~= before + quoted(word@, inner@));
}

/// What is said of a record that did not come about.
pub open spec fn reason_text(reason: ReasonModel) -> Seq<char> {
    match reason {
        ReasonModel::PreExistingGlError => "PreExistingGlError"@,
        ReasonModel::InvalidContextString(name) => quoted("InvalidContextString"@, name@),
        ReasonModel::UnsupportedProfile(version) => quoted("UnsupportedProfile"@, version),
        ReasonModel::QueryFailed(name) => quoted("QueryFailed"@, name@),
        ReasonModel::Snapshot(GlDiscoveryError::InvalidFormats(_)) => "Snapshot(InvalidFormats)"@,
        ReasonModel::Snapshot(GlDiscoveryError::MissingFormat(_)) => "Snapshot(MissingFormat)"@,
    }
}

/// Says why a record did not come about.
pub fn push_reason(line: &mut String, reason: &NativeDiscoveryError)
    ensures
        final(line)@ == old(line)@ + reason_text(reason@),
{
    match reason {
        NativeDiscoveryError::PreExistingGlError => {
            line.append("PreExistingGlError");
        },
        NativeDiscoveryError::InvalidContextString(name) => {
            push_quoted(line, "InvalidContextString", name);
        },
        NativeDiscoveryError::UnsupportedProfile(version) => {
            push_quoted(line, "UnsupportedProfile", version.as_str());
        },
        NativeDiscoveryError::QueryFailed(name) => {
            push_quoted(line, "QueryFailed", name);
        },
        NativeDiscoveryError::Snapshot(GlDiscoveryError::InvalidFormats(_)) => {
            line.append("Snapshot(InvalidFormats)");
        },
        NativeDiscoveryError::Snapshot(GlDiscoveryError::MissingFormat(_)) => {
            line.append("Snapshot(MissingFormat)");
        },
    }
}

/// Two texts about a driver as one, with a text between them if both say
/// something.
pub open spec fn joined(first: Seq<char>, between: Seq<char>, second: Seq<char>) -> Seq<char> {
    let a = text::trimmed(first);
    let b = text::trimmed(second);
    if a.len() == 0 {
        b
    } else if b.len() == 0 {
        a
    } else {
        a + between + b
    }
}

/// Joins two texts about a driver.
pub fn join(first: &str, between: &str, second: &str) -> (result: String)
    ensures
        result@ == joined(first@, between@, second@),
{
    let mut a = trim(first);
    let b = trim(second);
    if a.as_str().unicode_len() == 0 {
        b
    } else if b.as_str().unicode_len() == 0 {
        a
    } else {
        a.append(between);
        a.append(b.as_str());
        a
    }
}

} // verus!
