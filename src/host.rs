//! Small answers about the host build and system.

use vstd::prelude::*;
use crate::text::joined;

verus! {

/// The message that refuses the developer tools outside a debug build.
pub open spec fn devtools_refusal() -> Seq<char> {
    "開發者工具僅在調試模式下可用"@
}

/// Whether the developer tools may be opened: only in a debug build; any other
/// build is answered with a fixed message.
pub fn devtools_access(debug_build: bool) -> (r: Result<(), String>)
    ensures
        r is Ok <==> debug_build,
        match r {
            Ok(_) => true,
            Err(m) => m@ == devtools_refusal(),
        },
{
    if debug_build {
        Ok(())
    } else {
        Err(String::from_str("開發者工具僅在調試模式下可用"))
    }
}

/// The line that describes the host system named `os`.
pub fn system_info(os: &str) -> (r: String)
    ensures
        r@ == "System: "@ + os@,
{
    joined("System: ", os)
}

} // verus!
