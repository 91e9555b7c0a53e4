//! Where the browser emulation script is found.
//!
//! The script is one fixed text that is injected into every hosted page before
//! any login. Unlike a missing login form, a missing script is a hard failure.

use vstd::prelude::*;
use vstd::string::*;

verus! {

/// Path of the script when the shell runs from its own directory.
pub const EMULATION_SCRIPT_PATH: &'static str = "browser_emulation.js";

/// Path of the script when the shell runs from the directory above.
pub const EMULATION_SCRIPT_FALLBACK_PATH: &'static str = "src-tauri/browser_emulation.js";

/// What precedes the path in the message of a missing script.
pub const EMULATION_SCRIPT_MISSING: &'static str = "找不到浏览器模拟脚本文件: ";

/// The message of the failure to find the script: it names the last path that
/// was tried.
pub open spec fn missing_script_message() -> Seq<char> {
    EMULATION_SCRIPT_MISSING@ + EMULATION_SCRIPT_FALLBACK_PATH@
}

/// The file that the script is read from, or the message of the failure to
/// find it. `primary_exists` and `fallback_exists` say whether a file exists at
/// [`EMULATION_SCRIPT_PATH`] and at [`EMULATION_SCRIPT_FALLBACK_PATH`]. The
/// first is preferred, and the second only counts where the first is absent.
pub open spec fn emulation_script_choice(primary_exists: bool, fallback_exists: bool) -> Result<
    Seq<char>,
    Seq<char>,
> {
    if primary_exists {
        Ok(EMULATION_SCRIPT_PATH@)
    } else if fallback_exists {
        Ok(EMULATION_SCRIPT_FALLBACK_PATH@)
    } else {
        Err(missing_script_message())
    }
}

/// Picks the file to read the script from, or fails with the message that
/// names the path that was tried last. See [`emulation_script_choice`].
pub fn resolve_emulation_script(primary_exists: bool, fallback_exists: bool) -> (path: Result<
    &'static str,
    String,
>)
    ensures
        match path {
            Ok(found) => emulation_script_choice(primary_exists, fallback_exists) == Ok::<
                Seq<char>,
                Seq<char>,
            >(found@),
            Err(message) => emulation_script_choice(primary_exists, fallback_exists) == Err::<
                Seq<char>,
                Seq<char>,
            >(message@),
        },
{
    if primary_exists {
        Ok(EMULATION_SCRIPT_PATH)
    } else if fallback_exists {
        Ok(EMULATION_SCRIPT_FALLBACK_PATH)
    } else {
        let mut message = String::from_str(EMULATION_SCRIPT_MISSING);
        message.append(EMULATION_SCRIPT_FALLBACK_PATH);
        Err(message)
    }
}

} // verus!
