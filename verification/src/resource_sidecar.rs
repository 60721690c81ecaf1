//! The resource sidecar: it waits for the resource pod and then does what its
//! mode asks for.

use vstd::prelude::*;

verus! {

/// What the resource sidecar is asked to do.
pub enum Mode {
    Version,
    Load,
    Push,
}

/// Why a step of the resource sidecar failed.
pub enum SidecarError {
    /// The mode string is none of `Version`, `Load` and `Push`; the message names it.
    UnknownMode(String),
}

/// The message that refuses the mode string `value`.
pub open spec fn unknown_mode_message(value: Seq<char>) -> Seq<char> {
    "Mode string "@ + value + " not recognised"@
}

impl Mode {
    /// The mode that the string `value` (the value of the mode variable) names.
    pub fn from_value(value: &str) -> (r: Result<Mode, String>)
        ensures
            value@ == "Version"@ ==> r matches Ok(Mode::Version),
            value@ == "Load"@ ==> r matches Ok(Mode::Load),
            value@ == "Push"@ ==> r matches Ok(Mode::Push),
            value@ != "Version"@ && value@ != "Load"@ && value@ != "Push"@ ==> (r matches Err(m) && m@ == unknown_mode_message(value@)),
    {
        proof {
            reveal_strlit("Version");
            reveal_strlit("Load");
            reveal_strlit("Push");
            assert("Version"@.len() == 7 && "Load"@.len() == 4 && "Push"@.len() == 4);
            assert("Load"@[0] == 'L' && "Push"@[0] == 'P');
        }
        let v = String::from_str(value);
        if v == String::from_str("Version") {
            Ok(Mode::Version)
        } else if v == String::from_str("Load") {
            Ok(Mode::Load)
        } else if v == String::from_str("Push") {
            Ok(Mode::Push)
        } else {
            let mut m = String::from_str("Mode string ");
            m.append(value);
            m.append(" not recognised");
            Err(m)
        }
    }
}

/// Records the resource's version; there is nothing to do yet.
#[allow(non_snake_case)]
pub fn addVersion() -> (r: Result<(), SidecarError>)
    ensures
        r is Ok,
{
    Ok(())
}

/// Does what the mode asks for: `Version` records the version, `Load` and `Push` do nothing.
pub fn run_mode(mode: &Mode) -> (r: Result<(), SidecarError>)
    ensures
        r is Ok,
{
    match mode {
        Mode::Version => addVersion(),
        Mode::Load => Ok(()),
        Mode::Push => Ok(()),
    }
}

} // verus!
