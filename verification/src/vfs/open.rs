//! Open requests: the fields, whether the path is worth fetching, and what a
//! file's mode makes of the answer.
use vstd::prelude::*;
use crate::abi::callnr::{FS_PATH_MAX, VFS_PATH_LEN_OFF, VFS_PATH_OFF};
use crate::abi::errno::{EFAULT, EINVAL, EISDIR, ENAMETOOLONG};
use crate::abi::message;
use crate::abi::message::{user_range_ok, Message};
use crate::rt::payload;
use crate::rt::payload::{rd_i32, rd_u64};
use crate::vfs::fd::Fd;

verus! {

/// A parsed open request.
#[derive(Copy, Clone, PartialEq, Eq, Debug, Structural)]
pub struct OpenRequest {
    /// The path's address in the caller's own memory.
    pub path: u64,
    /// Its length in bytes.
    pub len: i32,
}

/// The open request a payload carries.
pub open spec fn request_of(p: Seq<u8>) -> OpenRequest {
    OpenRequest {
        path: payload::u64_field(p, VFS_PATH_OFF as int),
        len: payload::i32_field(p, VFS_PATH_LEN_OFF as int),
    }
}

/// The payload that carries an open request.
pub open spec fn request_payload(r: OpenRequest) -> Seq<u8> {
    payload::with_i32(
        payload::with_u64(payload::zero_payload(), VFS_PATH_OFF as int, r.path),
        VFS_PATH_LEN_OFF as int,
        r.len,
    )
}

/// Read an open request.
pub fn parse(msg: &Message) -> (r: OpenRequest)
    ensures
        r == request_of(msg.payload@),
{
    OpenRequest { path: rd_u64(msg, VFS_PATH_OFF), len: rd_i32(msg, VFS_PATH_LEN_OFF) }
}

/// How many bytes of path to fetch, or what is wrong: first a length that is not
/// positive, then one that leaves no room for a terminator, then the buffer.
pub open spec fn valid(len: i32, path: u64) -> Result<usize, i32> {
    if len <= 0 {
        Err(EINVAL)
    } else if len >= FS_PATH_MAX {
        Err(ENAMETOOLONG)
    } else if !message::user_range(path, len as u64) {
        Err(EFAULT)
    } else {
        Ok(len as usize)
    }
}

/// Decide how many bytes of path to fetch.
pub fn validate(len: i32, path: u64) -> (r: Result<usize, i32>)
    ensures
        r == valid(len, path),
{
    if len <= 0 {
        return Err(EINVAL);
    }
    let n: usize = len as usize;
    if n >= FS_PATH_MAX {
        return Err(ENAMETOOLONG);
    }
    if !user_range_ok(path, n as u64) {
        return Err(EFAULT);
    }
    Ok(n)
}

/// The type bits of a mode: only its low half counts.
pub open spec fn mode_type(mode: i32) -> int {
    (mode as int) % 0x1_0000 / 0x1000
}

/// A regular file can be opened, at its beginning; a directory cannot, nor can
/// anything else.
pub open spec fn class_of(mode: i32) -> Result<Fd, i32> {
    if mode_type(mode) == 8 {
        Ok(Fd::File { ino: 0, pos: 0 })
    } else if mode_type(mode) == 4 {
        Err(EISDIR)
    } else {
        Err(EINVAL)
    }
}

/// Turn a mode into the descriptor to install, its inode still to be filled in.
pub fn classify(mode: i32) -> (r: Result<Fd, i32>)
    ensures
        r == class_of(mode),
{
    let kind: i32 = mode & 0xF000;
    assert(kind == (mode as int) % 0x1_0000 / 0x1000 * 0x1000) by (bit_vector)
        requires
            kind == mode & 0xF000,
    ;
    if kind == 0x8000 {
        Ok(Fd::File { ino: 0, pos: 0 })
    } else if kind == 0x4000 {
        Err(EISDIR)
    } else {
        Err(EINVAL)
    }
}

/// What a client writes is what the server reads.
pub proof fn law_parse_reads_back(r: OpenRequest)
    ensures
        request_of(request_payload(r)) == r,
{
    let p = payload::with_u64(payload::zero_payload(), VFS_PATH_OFF as int, r.path);
    payload::law_u64_round_trip(payload::zero_payload(), VFS_PATH_OFF as int, r.path);
    payload::law_i32_round_trip(p, VFS_PATH_LEN_OFF as int, r.len);
    payload::law_writes_do_not_disturb(
        p,
        VFS_PATH_LEN_OFF as int,
        r.len,
        0,
        VFS_PATH_OFF as int,
    );
}

/// The permission bits, and anything above the low half, do not change what a
/// mode is.
pub proof fn law_only_type_bits_decide(mode: i32, perm: int, high: int)
    requires
        mode == high * 0x1_0000 + mode_type(mode) * 0x1000 + perm,
        0 <= perm < 0x1000,
    ensures
        class_of(mode) == class_of((mode_type(mode) * 0x1000) as i32),
{
}

/// A path is fetched exactly when it leaves room for its terminator in 64 bytes and lies
/// in the user half of the address space, and then with the length it was given.
pub proof fn law_path_is_fetched_whole(len: i32, path: u64)
    ensures
        valid(len, path) is Ok <==> 0 < len < 64 && path != 0 && path + len <= 0x8000_0000_0000,
        valid(len, path) matches Ok(n) ==> n == len,
        len <= 0 ==> valid(len, path) == Err::<usize, i32>(EINVAL),
        len >= 64 ==> valid(len, path) == Err::<usize, i32>(ENAMETOOLONG),
        0 < len < 64 && valid(len, path) is Err ==> valid(len, path) == Err::<usize, i32>(EFAULT),
{
}

/// What a mode opens as: regular files at their beginning, directories not, and nothing
/// else either.
pub proof fn law_modes_by_range(mode: i32)
    requires
        0 <= mode < 0x1_0000,
    ensures
        class_of(mode) is Ok <==> 0o100000 <= mode < 0o110000,
        class_of(mode) matches Ok(fd) ==> fd == (Fd::File { ino: 0, pos: 0 }),
        class_of(mode) == Err::<Fd, i32>(EISDIR) <==> 0o040000 <= mode < 0o050000,
        class_of(mode) is Err && !(0o040000 <= mode < 0o050000) ==> class_of(mode) == Err::<
            Fd,
            i32,
        >(EINVAL),
{
}

} // verus!
