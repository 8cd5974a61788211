//! Table-creation modes and their host spelling.

use vstd::prelude::*;
use crate::error::{BridgeError, invalid_mode_error};

verus! {

/// What to do when the table to create already exists.
#[derive(Clone, Copy, Debug, PartialEq, Eq, Structural)]
pub enum CreateMode {
    /// Fail if a table of that name exists.
    Create,
    /// Replace any existing table.
    Overwrite,
    /// Succeed either way, handing back the existing table when present.
    ExistOk,
}

/// The mode that a host spelling names, if any.
pub open spec fn mode_of(text: Seq<char>) -> Option<CreateMode> {
    if text == "create"@ {
        Some(CreateMode::Create)
    } else if text == "overwrite"@ {
        Some(CreateMode::Overwrite)
    } else if text == "exist_ok"@ {
        Some(CreateMode::ExistOk)
    } else {
        None
    }
}

/// The three spellings are distinct, so each names its own mode.
pub proof fn known_modes()
    ensures
        mode_of("create"@) == Some(CreateMode::Create),
        mode_of("overwrite"@) == Some(CreateMode::Overwrite),
        mode_of("exist_ok"@) == Some(CreateMode::ExistOk),
{
    reveal_strlit("create");
    reveal_strlit("overwrite");
    reveal_strlit("exist_ok");
    assert("exist_ok"@[0] != "overwrite"@[0]);
}

/// A text that is none of the three spellings names no mode.
pub proof fn unknown_mode_is_none(text: Seq<char>)
    requires
        text != "create"@,
        text != "overwrite"@,
        text != "exist_ok"@,
    ensures
        mode_of(text) is None,
{
}

fn text_eq(a: &str, b: &str) -> (same: bool)
    ensures
        same == (a@ == b@),
{
    a.to_owned() == b.to_owned()
}

/// Translates the host spelling of a creation mode.
pub fn parse_create_mode_str(mode: &str) -> (res: Result<CreateMode, BridgeError>)
    ensures
        match mode_of(mode@) {
            Some(m) => res == Ok::<CreateMode, BridgeError>(m),
            None => res matches Err(e) && e@ == invalid_mode_error(mode@),
        },
{
    if text_eq(mode, "create") {
        Ok(CreateMode::Create)
    } else if text_eq(mode, "overwrite") {
        Ok(CreateMode::Overwrite)
    } else if text_eq(mode, "exist_ok") {
        Ok(CreateMode::ExistOk)
    } else {
        Err(BridgeError::invalid_mode(mode))
    }
}

} // verus!
