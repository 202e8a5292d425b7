//! Telling whether the program runs inside the Windows Subsystem for
//! Linux, where no native folder picker is available.
use vstd::prelude::*;
use crate::text::{contains_text, has_infix, lowercase, lowercase_of};

verus! {

/// Whether the program runs inside WSL: only on Linux, and there when one
/// of the WSL environment variables is set or the kernel's version text
/// mentions Microsoft (in any case).
pub open spec fn wsl_detected(on_linux: bool, wsl_env_set: bool, proc_version: Option<Seq<char>>) -> bool {
    on_linux && (wsl_env_set || match proc_version {
        Some(v) => has_infix(lowercase_of(v), "microsoft"@),
        None => false,
    })
}

/// Decides whether the program runs inside WSL, from whether it runs on
/// Linux, whether `WSL_DISTRO_NAME` or `WSLENV` is set, and the text of
/// `/proc/version` where it could be read.
pub fn detect_wsl(on_linux: bool, wsl_env_set: bool, proc_version: Option<&str>) -> (b: bool)
    ensures
        b == wsl_detected(on_linux, wsl_env_set, match proc_version {
            Some(v) => Some(v@),
            None => None,
        }),
{
    if !on_linux {
        return false;
    }
    if wsl_env_set {
        return true;
    }
    match proc_version {
        Some(v) => {
            let lower = lowercase(v);
            contains_text(lower.as_str(), "microsoft")
        },
        None => false,
    }
}

} // verus!
