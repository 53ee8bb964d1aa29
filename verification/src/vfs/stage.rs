//! Staging an executable: the path it is asked for by, and whether a file of its
//! size can be staged.
use vstd::prelude::*;
use vstd::slice::slice_subrange;
use vstd::string::*;
use crate::abi::callnr::{FS_PATH_MAX, VFS_EXEC_MAX, VFS_EXEC_PATH_OFF};
use crate::abi::errno::{EINVAL, ENAMETOOLONG, ENOEXEC, ENOMEM};
use crate::abi::message::Message;
use crate::text;

verus! {

/// The path in a payload, or what is wrong with it: no NUL at all, then text that
/// is not UTF-8, then a path that is empty or not absolute.
pub open spec fn path_of(p: Seq<u8>) -> Result<Seq<u8>, i32> {
    let field = p.subrange(VFS_EXEC_PATH_OFF as int, VFS_EXEC_PATH_OFF + FS_PATH_MAX);
    let path = text::until_nul(field);
    if path.len() == FS_PATH_MAX {
        Err(ENAMETOOLONG)
    } else if !vstd::utf8::valid_utf8(path) || path.len() == 0 || path[0] != 47 {
        Err(EINVAL)
    } else {
        Ok(path)
    }
}

/// Read the path out of a staging request. It is never cut short.
pub fn parse_path(msg: &Message) -> (r: Result<&str, i32>)
    ensures
        match r {
            Ok(s) => path_of(msg.payload@) == Ok::<Seq<u8>, i32>(s.spec_bytes()),
            Err(e) => path_of(msg.payload@) == Err::<Seq<u8>, i32>(e),
        },
{
    let field = slice_subrange(
        msg.payload.as_slice(),
        VFS_EXEC_PATH_OFF,
        VFS_EXEC_PATH_OFF + FS_PATH_MAX,
    );
    let end: usize = text::nul_len(field);
    if end == field.len() {
        return Err(ENAMETOOLONG);
    }
    let raw = slice_subrange(field, 0, end);
    assert(raw@ =~= field@.take(end as int));
    match text::from_utf8(raw) {
        Some(path) => {
            let b = path.as_bytes();
            if b.len() == 0 || b[0] != 47 {
                return Err(EINVAL);
            }
            Ok(path)
        },
        None => Err(EINVAL),
    }
}

/// How many bytes to stage of a file of this size, or why it cannot be: an
/// impossible size, an empty file, one past the staging buffer.
pub open spec fn staged(size: i32) -> Result<usize, i32> {
    if size < 0 {
        Err(EINVAL)
    } else if size == 0 {
        Err(ENOEXEC)
    } else if size > VFS_EXEC_MAX {
        Err(ENOMEM)
    } else {
        Ok(size as usize)
    }
}

/// Decide how many bytes to stage: all of the file, or none.
pub fn stage_len(size: i32) -> (r: Result<usize, i32>)
    ensures
        r == staged(size),
{
    if size < 0 {
        return Err(EINVAL);
    }
    let n: usize = size as usize;
    if n == 0 {
        return Err(ENOEXEC);
    }
    if n > VFS_EXEC_MAX {
        return Err(ENOMEM);
    }
    Ok(n)
}

/// A path that is staged is the one the request carries, whole: an absolute path without
/// a NUL, followed by one, in the 64 bytes of its field. What is refused has no
/// terminator, is no text, is empty, or does not start with a slash.
pub proof fn law_path_is_taken_whole(p: Seq<u8>)
    requires
        p.len() >= VFS_EXEC_PATH_OFF + 64,
    ensures
        path_of(p) matches Ok(path) ==> {
            &&& 0 < path.len() < 64
            &&& path[0] == 0x2f
            &&& vstd::utf8::valid_utf8(path)
            &&& path == p.subrange(VFS_EXEC_PATH_OFF as int, VFS_EXEC_PATH_OFF + path.len())
            &&& p[VFS_EXEC_PATH_OFF + path.len()] == 0
            &&& forall|i: int| 0 <= i < path.len() ==> #[trigger] path[i] != 0
        },
        path_of(p) == Err::<Seq<u8>, i32>(ENAMETOOLONG) <==> forall|i: int|
            VFS_EXEC_PATH_OFF <= i < VFS_EXEC_PATH_OFF + 64 ==> #[trigger] p[i] != 0,
        path_of(p) matches Err(e) ==> e == ENAMETOOLONG || e == EINVAL,
        p[VFS_EXEC_PATH_OFF as int] != 0x2f && path_of(p) != Err::<Seq<u8>, i32>(ENAMETOOLONG)
            ==> path_of(p) == Err::<Seq<u8>, i32>(EINVAL),
{
    let o = VFS_EXEC_PATH_OFF as int;
    let field = p.subrange(o, o + 64);
    let path = text::until_nul(field);
    text::law_until_nul_stops_at_the_first(field);
    assert forall|i: int| 0 <= i < path.len() implies path[i] == p[o + i] && path[i] != 0 by {
        assert(text::until_nul(field)[i] == field[i]);
    }
    assert(path =~= p.subrange(o, o + path.len()));
    if path.len() < 64 {
        assert(p[o + path.len()] == 0);
    } else {
        assert forall|i: int| o <= i < o + 64 implies #[trigger] p[i] != 0 by {
            assert(path[i - o] == p[i]);
        }
    }
}

/// A file is staged whole or not at all: from one byte up to the staging buffer. An empty
/// file is no executable, one that is too long has no room, and a negative size is no
/// size.
pub proof fn law_file_is_staged_whole(size: i32)
    ensures
        staged(size) is Ok <==> 0 < size <= VFS_EXEC_MAX,
        staged(size) matches Ok(n) ==> n == size,
        staged(size) == Err::<usize, i32>(EINVAL) <==> size < 0,
        staged(size) == Err::<usize, i32>(ENOEXEC) <==> size == 0,
        staged(size) == Err::<usize, i32>(ENOMEM) <==> size > VFS_EXEC_MAX,
{
}

} // verus!
