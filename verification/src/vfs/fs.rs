//! Requests to the filesystem server, and what their replies mean.
use vstd::prelude::*;
use crate::abi::callnr::{
    FS_GRANT_OFF, FS_INO_OFF, FS_LEN_OFF, FS_LOOKUP, FS_MODE_OFF, FS_PATH_MAX, FS_PATH_OFF,
    FS_POS_OFF, FS_READ, FS_READSUPER, FS_SUPER_BLOCKS_OFF, FS_SUPER_BLOCK_SIZE_OFF,
    FS_SUPER_MINOR_OFF, FS_SUPER_ROOT_OFF,
};
use crate::abi::errno::{EINVAL, ENAMETOOLONG, OK};
use crate::abi::message::Message;
use crate::rt::payload;
use crate::rt::payload::{rd_i32, wr_bytes, wr_i32, wr_u64};

verus! {

/// What is known of a mounted filesystem: its geometry, and no file's size.
#[derive(Copy, Clone, Debug, PartialEq, Eq, Structural)]
pub struct Mount {
    pub root: i32,
    pub block_size: i32,
    pub blocks: i32,
}

/// Build the request that mounts device `minor`.
pub fn fs_readsuper(minor: i32) -> (m: Message)
    ensures
        m.carries(
            FS_READSUPER,
            payload::with_i32(payload::zero_payload(), FS_SUPER_MINOR_OFF as int, minor),
        ),
{
    let mut m = Message::request(FS_READSUPER);
    wr_i32(&mut m, FS_SUPER_MINOR_OFF, minor);
    m
}

/// The geometry a reply reports, or the error of the exchange or the server.
pub open spec fn mounted(trap_rc: i32, m_type: i32, p: Seq<u8>) -> Result<Mount, i32> {
    if trap_rc != OK {
        Err(trap_rc)
    } else if m_type != OK {
        Err(m_type)
    } else {
        Ok(
            Mount {
                root: payload::i32_field(p, FS_SUPER_ROOT_OFF as int),
                block_size: payload::i32_field(p, FS_SUPER_BLOCK_SIZE_OFF as int),
                blocks: payload::i32_field(p, FS_SUPER_BLOCKS_OFF as int),
            },
        )
    }
}

/// Decode a mount reply.
pub fn readsuper_result(trap_rc: i32, reply: &Message) -> (r: Result<Mount, i32>)
    ensures
        r == mounted(trap_rc, reply.m_type, reply.payload@),
{
    if trap_rc != OK {
        return Err(trap_rc);
    }
    if reply.m_type != OK {
        return Err(reply.m_type);
    }
    Ok(
        Mount {
            root: rd_i32(reply, FS_SUPER_ROOT_OFF),
            block_size: rd_i32(reply, FS_SUPER_BLOCK_SIZE_OFF),
            blocks: rd_i32(reply, FS_SUPER_BLOCKS_OFF),
        },
    )
}

/// The payload that looks a path up: the path, NUL-padded.
pub open spec fn lookup_payload(path: Seq<u8>) -> Seq<u8> {
    payload::with_bytes(payload::zero_payload(), FS_PATH_OFF as int, path)
}

/// The payload of the request that looks `path` up, when it can be sent.
pub open spec fn lookup_sent(path: Seq<u8>) -> Result<Seq<u8>, i32> {
    if 0 < path.len() < FS_PATH_MAX {
        Ok(lookup_payload(path))
    } else {
        Err(ENAMETOOLONG)
    }
}

/// Build the request that looks `path` up. A path with no room for its terminator
/// is refused here rather than sent.
pub fn fs_lookup(path: &[u8]) -> (r: Result<Message, i32>)
    ensures
        match r {
            Ok(m) => lookup_sent(path@) matches Ok(p) && m.carries(FS_LOOKUP, p),
            Err(e) => lookup_sent(path@) == Err::<Seq<u8>, i32>(e),
        },
{
    if path.len() == 0 || path.len() >= FS_PATH_MAX {
        return Err(ENAMETOOLONG);
    }
    let mut m = Message::request(FS_LOOKUP);
    wr_bytes(&mut m, FS_PATH_OFF, path);
    Ok(m)
}

/// Build a lookup whose path field is written as it stands, terminated or not.
pub fn fs_lookup_raw(field: &[u8; 64]) -> (m: Message)
    ensures
        m.carries(FS_LOOKUP, lookup_payload(field@)),
{
    let mut m = Message::request(FS_LOOKUP);
    wr_bytes(&mut m, FS_PATH_OFF, field.as_slice());
    m
}

/// The inode and mode a reply reports, or the error; an inode below zero is no
/// inode.
pub open spec fn found(trap_rc: i32, m_type: i32, p: Seq<u8>) -> Result<(u32, i32), i32> {
    let ino = payload::i32_field(p, FS_INO_OFF as int);
    if trap_rc != OK {
        Err(trap_rc)
    } else if m_type != OK {
        Err(m_type)
    } else if ino < 0 {
        Err(EINVAL)
    } else {
        Ok((ino as u32, payload::i32_field(p, FS_MODE_OFF as int)))
    }
}

/// Decode a lookup reply.
pub fn lookup_result(trap_rc: i32, reply: &Message) -> (r: Result<(u32, i32), i32>)
    ensures
        r == found(trap_rc, reply.m_type, reply.payload@),
{
    if trap_rc != OK {
        return Err(trap_rc);
    }
    if reply.m_type != OK {
        return Err(reply.m_type);
    }
    let ino: i32 = rd_i32(reply, FS_INO_OFF);
    if ino < 0 {
        return Err(EINVAL);
    }
    Ok((ino as u32, rd_i32(reply, FS_MODE_OFF)))
}

/// The payload of a read: the grant covers exactly the bytes of this read, so
/// there is no offset into it.
pub open spec fn read_payload(ino: i32, gid: i32, len: i32, pos: u64) -> Seq<u8> {
    let p = payload::with_i32(payload::zero_payload(), FS_INO_OFF as int, ino);
    let p = payload::with_i32(p, FS_GRANT_OFF as int, gid);
    payload::with_u64(payload::with_i32(p, FS_LEN_OFF as int, len), FS_POS_OFF as int, pos)
}

/// Build a read of `len` bytes at `pos` through grant `gid`.
pub fn fs_read(ino: i32, gid: i32, len: i32, pos: u64) -> (m: Message)
    ensures
        m.carries(FS_READ, read_payload(ino, gid, len, pos)),
{
    let mut m = Message::request(FS_READ);
    wr_i32(&mut m, FS_INO_OFF, ino);
    wr_i32(&mut m, FS_GRANT_OFF, gid);
    wr_i32(&mut m, FS_LEN_OFF, len);
    wr_u64(&mut m, FS_POS_OFF, pos);
    m
}

/// A path is sent whole and with its terminator, or not at all: it has from 1 to 63 bytes.
pub proof fn law_lookup_is_sent_whole(path: Seq<u8>)
    ensures
        lookup_sent(path) is Ok <==> 1 <= path.len() <= 63,
        lookup_sent(path) matches Ok(p) ==> p.subrange(24, 24int + path.len()) == path && p[24int
            + path.len()] == 0,
        lookup_sent(path) matches Err(e) ==> e == ENAMETOOLONG,
{
    if 1 <= path.len() <= 63 {
        payload::law_bytes_are_placed_whole(payload::zero_payload(), 24, path);
    }
}

/// A lookup tells the inode and the mode the filesystem answered with, in that order. A
/// failed trap goes before a failed answer, and an inode below zero is no inode.
pub proof fn law_lookup_reads_the_reply(trap_rc: i32, m_type: i32, p: Seq<u8>)
    ensures
        found(trap_rc, m_type, p) is Ok <==> trap_rc == OK && m_type == OK && payload::i32_field(p, 0)
            >= 0,
        found(trap_rc, m_type, p) matches Ok((ino, mode)) ==> ino == payload::i32_field(p, 0)
            && mode == payload::i32_field(p, FS_MODE_OFF as int),
        trap_rc != OK ==> found(trap_rc, m_type, p) == Err::<(u32, i32), i32>(trap_rc),
        trap_rc == OK && m_type != OK ==> found(trap_rc, m_type, p) == Err::<(u32, i32), i32>(
            m_type,
        ),
        trap_rc == OK && m_type == OK && payload::i32_field(p, 0) < 0 ==> found(trap_rc, m_type, p)
            == Err::<(u32, i32), i32>(EINVAL),
{
}

} // verus!
