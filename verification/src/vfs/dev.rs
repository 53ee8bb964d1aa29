//! The device paths the file server answers itself, ahead of the mount. Only an
//! exact match counts; anything else is the filesystem's to answer.
use vstd::prelude::*;
use vstd::string::*;
use crate::abi::callnr::{
    CDEV_MINOR_CONSOLE, CDEV_MINOR_NULL, CDEV_MINOR_ZERO, DEV_CONSOLE_PATH, DEV_NULL_PATH,
    DEV_ZERO_PATH,
};
use crate::text::bytes_eq;
use crate::vfs::fd::{CharDriver, Fd};

verus! {

/// Rows in the table.
pub const NR_DEV_NODES: usize = 3;

/// Path, driver and minor of each device.
pub const DEV_NODES: [(&'static str, CharDriver, i32); 3] = [
    (DEV_CONSOLE_PATH, CharDriver::Tty, CDEV_MINOR_CONSOLE),
    (DEV_NULL_PATH, CharDriver::Memory, CDEV_MINOR_NULL),
    (DEV_ZERO_PATH, CharDriver::Memory, CDEV_MINOR_ZERO),
];

/// The device a path names.
pub open spec fn node(path: Seq<u8>) -> Option<Fd> {
    if path == DEV_CONSOLE_PATH.spec_bytes() {
        Some(Fd::CharDev { dev: CharDriver::Tty, minor: CDEV_MINOR_CONSOLE })
    } else if path == DEV_NULL_PATH.spec_bytes() {
        Some(Fd::CharDev { dev: CharDriver::Memory, minor: CDEV_MINOR_NULL })
    } else if path == DEV_ZERO_PATH.spec_bytes() {
        Some(Fd::CharDev { dev: CharDriver::Memory, minor: CDEV_MINOR_ZERO })
    } else {
        None
    }
}

/// Resolve `path`, the exact bytes without any terminator.
pub fn lookup(path: &[u8]) -> (r: Option<Fd>)
    ensures
        r == node(path@),
{
    let mut i: usize = 0;
    while i < NR_DEV_NODES
        invariant
            i <= 3,
            forall|k: int|
                0 <= k < i ==> (#[trigger] DEV_NODES@[k]).0.spec_bytes() != path@,
        decreases 3 - i,
    {
        let (p, dev, minor) = DEV_NODES[i];
        if bytes_eq(p.as_bytes(), path) {
            proof {
                if i > 0 {
                    assert(DEV_NODES@[0].0.spec_bytes() != path@);
                }
                if i > 1 {
                    assert(DEV_NODES@[1].0.spec_bytes() != path@);
                }
            }
            return Some(Fd::CharDev { dev, minor });
        }
        i = i + 1;
    }
    proof {
        assert(DEV_NODES@[0].0.spec_bytes() != path@);
        assert(DEV_NODES@[1].0.spec_bytes() != path@);
        assert(DEV_NODES@[2].0.spec_bytes() != path@);
    }
    None
}

/// Every row of the table is found under its own path, and no two rows share one.
pub proof fn law_every_node_is_found(i: int)
    requires
        0 <= i < 3,
    ensures
        node(DEV_NODES@[i].0.spec_bytes()) == Some(
            (Fd::CharDev { dev: DEV_NODES@[i].1, minor: DEV_NODES@[i].2 }),
        ),
{
    reveal_strlit("/dev/console");
    reveal_strlit("/dev/null");
    reveal_strlit("/dev/zero");
    is_ascii_spec_bytes(DEV_CONSOLE_PATH);
    is_ascii_spec_bytes(DEV_NULL_PATH);
    is_ascii_spec_bytes(DEV_ZERO_PATH);
    assert(vstd::utf8::is_ascii_chars(DEV_CONSOLE_PATH@));
    assert(vstd::utf8::is_ascii_chars(DEV_NULL_PATH@));
    assert(vstd::utf8::is_ascii_chars(DEV_ZERO_PATH@));
    assert(DEV_CONSOLE_PATH.spec_bytes().len() == 12);
    assert(DEV_NULL_PATH.spec_bytes()[5] == 110);
    assert(DEV_ZERO_PATH.spec_bytes()[5] == 122);
}

} // verus!
