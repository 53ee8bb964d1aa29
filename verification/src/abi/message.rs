//! The IPC message and the user address range check.
use vstd::prelude::*;

verus! {

/// Bytes of payload a message carries.
pub const PAYLOAD_LEN: usize = 96;

/// Bytes in one user page.
pub const USER_PAGE_SIZE: u64 = 4096;

/// First address past the user half of the address space.
pub const USER_VA_TOP: u64 = 0x0000_8000_0000_0000;

/// One IPC message: the sender the kernel stamped, a request number (or the
/// result of one), and the raw payload.
#[derive(Copy, Clone, Debug, PartialEq, Eq)]
pub struct Message {
    pub m_source: i32,
    pub m_type: i32,
    pub payload: [u8; 96],
}

impl Message {
    /// The message is unstamped, of type `m_type`, and carries `p`: what a client
    /// or a server hands the kernel to send.
    pub open spec fn carries(self, m_type: i32, p: Seq<u8>) -> bool {
        self.m_source == 0 && self.m_type == m_type && self.payload@ == p
    }

    /// A message of type `m_type` with an all-zero payload, as a client builds
    /// it before marshalling: the kernel stamps `m_source` on delivery.
    pub fn request(m_type: i32) -> (m: Message)
        ensures
            m.m_source == 0,
            m.m_type == m_type,
            m.payload@ == Seq::new(96, |i: int| 0u8),
    {
        let m = Message { m_source: 0, m_type, payload: [0u8; 96] };
        assert(m.payload@ =~= Seq::new(96, |i: int| 0u8));
        m
    }
}

/// `[addr, addr + len)` is a non-empty-based user range: it does not start at
/// address zero, does not wrap, and ends inside the user half.
pub open spec fn user_range(addr: u64, len: u64) -> bool {
    addr != 0 && addr + len <= USER_VA_TOP && addr < USER_VA_TOP
}

/// Decide [`user_range`].
pub fn user_range_ok(addr: u64, len: u64) -> (ok: bool)
    ensures
        ok == user_range(addr, len),
{
    if addr == 0 || addr >= USER_VA_TOP {
        return false;
    }
    len <= USER_VA_TOP - addr
}

/// A range that is let through lies in the user half from end to end, and does not
/// start at zero; every part of it that does not start at zero is let through too.
pub proof fn law_user_range_is_inside(addr: u64, len: u64, skip: u64, part: u64)
    ensures
        user_range(addr, len) ==> addr > 0 && addr + len <= 0x8000_0000_0000,
        addr > 0 && len > 0 && addr + len <= 0x8000_0000_0000 ==> user_range(addr, len),
        addr >= 0x8000_0000_0000 ==> !user_range(addr, len),
        user_range(addr, len) && skip + part <= len && part > 0 ==> user_range(
            (addr + skip) as u64,
            part,
        ),
{
}

} // verus!
