//! Loosely typed values as a host call hands them over.

use vstd::prelude::*;

verus! {

/// One positional argument of a host call, reduced to what the
/// configuration builders read from it.
#[derive(Clone, Debug, PartialEq, Eq)]
pub enum HostValue {
    /// A host string.
    Text(String),
    /// Any other host value: a number, a map, `null`, `undefined`.
    Other,
}

/// The text that a host value carries, if it is a string.
pub open spec fn text_of(value: HostValue) -> Option<Seq<char>> {
    match value {
        HostValue::Text(s) => Some(s@),
        HostValue::Other => None,
    }
}

/// The text found at position `i` of an argument list: nothing when the
/// position lies outside the list or holds a value that is no string.
pub open spec fn argument_text(args: Seq<HostValue>, i: int) -> Option<Seq<char>> {
    if 0 <= i < args.len() {
        text_of(args[i])
    } else {
        None
    }
}

/// Reads the optional string argument at position `i`.
///
/// Values of another type are skipped as if they had not been passed.
pub fn argument_opt_text(args: &[HostValue], i: i32) -> (text: Option<String>)
    ensures
        text.deep_view() == argument_text(args@, i as int),
{
    if i < 0 {
        return None;
    }
    let at = i as usize;
    if at >= args.len() {
        return None;
    }
    match &args[at] {
        HostValue::Text(s) => Some(s.clone()),
        HostValue::Other => None,
    }
}

} // verus!
