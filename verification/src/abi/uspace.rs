//! The map of a process's address space.
use vstd::prelude::*;

verus! {

/// First address past the initial stack.
pub const USER_STACK_TOP: u64 = 0x7000_0000;

/// Lowest address of the initial stack.
pub const USER_STACK_BASE: u64 = 0x6FFF_0000;

/// First address no growing region may reach: the guard page below the stack.
pub const USER_REGION_LIMIT: u64 = 0x6FFE_F000;

/// Lowest address of the windows the kernel maps devices in.
pub const USER_DEVICE_WINDOW_BASE: u64 = 0x7000_0000;

/// One guard page lies between the growing regions and the stack, and the device
/// windows lie above both.
pub proof fn law_guard_page()
    ensures
        USER_STACK_BASE - USER_REGION_LIMIT == 4096,
        USER_STACK_BASE < USER_STACK_TOP <= USER_DEVICE_WINDOW_BASE,
{
}

} // verus!
