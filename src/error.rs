use vstd::prelude::*;

use crate::hotkey::HotKey;

verus! {

#[verifier::external_type_specification]
#[verifier::external_body]
pub struct ExIoError(std::io::Error);

/// The errors of this library.
#[derive(Debug)]
pub enum Error {
    /// The platform refused a resource.
    OsError(std::io::Error),
    HotKeyParseError(String),
    /// A hotkey string named a key that is not known; holds that token.
    UnrecognizedHotKeyCode(String),
    /// A hotkey string held an empty token; holds the whole string.
    EmptyHotKeyToken(String),
    /// A hotkey string did not list its modifiers first and exactly one key
    /// last; holds the whole string.
    UnexpectedHotKeyFormat(String),
    /// The key has no native counterpart on this platform.
    FailedToRegister(String),
    FailedToUnRegister(HotKey),
    /// The combination is taken already.
    AlreadyRegistered(HotKey),
}

} // verus!
