//! Every generated file.
use vstd::prelude::*;
use crate::headers::{callnr_h, com_h, errno_h, ipc_h, selftest};

verus! {

/// One generated file: where it goes under the output directory, and its text.
pub struct Artifact {
    /// Path relative to the output directory, with `/` separators.
    pub path: &'static str,
    /// The complete file contents.
    pub text: String,
}

/// Path and text of generated file `k`.
pub open spec fn artifact(k: int) -> (Seq<char>, Seq<char>) {
    if k == 0 {
        ("include/minix/ipc.h"@, ipc_h::ipc_text())
    } else if k == 1 {
        ("include/minix/com.h"@, com_h::com_text())
    } else if k == 2 {
        ("include/minix/callnr.h"@, callnr_h::callnr_text())
    } else if k == 3 {
        ("include/minix/errno.h"@, errno_h::errno_text())
    } else if k == 4 {
        ("abi-check/errno.h"@, errno_h::standin_text())
    } else {
        ("abi-selftest.c"@, selftest::selftest_text())
    }
}

/// Render every artifact. The texts depend on nothing but the ABI constants, so
/// every call renders the same bytes.
pub fn artifacts() -> (v: Vec<Artifact>)
    ensures
        v@.len() == 6,
        forall|k: int|
            0 <= k < 6 ==> (#[trigger] v@[k]).path@ == artifact(k).0 && v@[k].text@ == artifact(
                k,
            ).1,
{
    let mut v: Vec<Artifact> = Vec::new();
    v.push(Artifact { path: "include/minix/ipc.h", text: ipc_h::render() });
    v.push(Artifact { path: "include/minix/com.h", text: com_h::render() });
    v.push(Artifact { path: "include/minix/callnr.h", text: callnr_h::render() });
    v.push(Artifact { path: "include/minix/errno.h", text: errno_h::render() });
    v.push(Artifact { path: "abi-check/errno.h", text: errno_h::render_standin() });
    v.push(Artifact { path: "abi-selftest.c", text: selftest::render() });
    v
}

/// Every file lies under its own path, and each path names one text: the header whose
/// name it ends in, the stand-in apart from the header it stands in for.
pub proof fn law_paths_name_their_texts(k: int, j: int)
    requires
        0 <= k < 6,
        0 <= j < 6,
    ensures
        artifact(k).0 == artifact(j).0 ==> k == j,
        artifact(k).0 == "include/minix/ipc.h"@ ==> artifact(k).1 == ipc_h::ipc_text(),
        artifact(k).0 == "include/minix/com.h"@ ==> artifact(k).1 == com_h::com_text(),
        artifact(k).0 == "include/minix/callnr.h"@ ==> artifact(k).1 == callnr_h::callnr_text(),
        artifact(k).0 == "include/minix/errno.h"@ ==> artifact(k).1 == errno_h::errno_text(),
        artifact(k).0 == "abi-check/errno.h"@ ==> artifact(k).1 == errno_h::standin_text(),
        artifact(k).0 == "abi-selftest.c"@ ==> artifact(k).1 == selftest::selftest_text(),
{
    lemma_paths_differ();
}

/// The paths, told apart by their lengths, and where those agree by one letter.
proof fn lemma_paths_differ()
    ensures
        "include/minix/ipc.h"@.len() == 19,
        "include/minix/com.h"@.len() == 19,
        "include/minix/ipc.h"@[14] != "include/minix/com.h"@[14],
        "include/minix/callnr.h"@.len() == 22,
        "include/minix/errno.h"@.len() == 21,
        "abi-check/errno.h"@.len() == 17,
        "abi-selftest.c"@.len() == 14,
{
    reveal_strlit("include/minix/ipc.h");
    reveal_strlit("include/minix/com.h");
    reveal_strlit("include/minix/callnr.h");
    reveal_strlit("include/minix/errno.h");
    reveal_strlit("abi-check/errno.h");
    reveal_strlit("abi-selftest.c");
}

} // verus!
