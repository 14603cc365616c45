//! Result codes and the fixed geometry constants of the flash interface.

use vstd::prelude::*;

verus! {

/// Driver number under which the platform routes syscalls to this driver.
pub const DRIVER_NUM: usize = 0x50004;

/// Size in bytes of one machine word, the unit of flash write addressing.
pub const WORD_SIZE: usize = 4;

/// Size in bytes of one flash page, the erase granularity.
pub const PAGE_SIZE: usize = 2048;

/// Maximum number of times a word may be written between two erases of its
/// page; a policy constant reported by `query`, not enforced here.
pub const MAX_WRITE_COUNT: usize = 2;

/// Maximum number of erase cycles a page supports; a policy constant
/// reported by `query`, not enforced here.
pub const MAX_ERASE_COUNT: usize = 10000;

/// Maximum length of a single write, in words.
pub const MAX_WRITE_LENGTH: usize = 32;

/// Code returned synchronously by every entry point of the driver, and
/// carried by a completion notification as the device-reported status.
#[derive(Clone, Copy, Debug, PartialEq, Eq, Structural)]
pub enum ReturnCode {
    /// The request was accepted.
    Success,
    /// The request was accepted and the answer is `value`.
    SuccessWithValue { value: usize },
    /// A misaligned offset, a wrong-sized buffer, an oversized write, or an
    /// unknown query selector.
    InvalidArgument,
    /// Another operation is already pending; retry later.
    Busy,
    /// The command selector is not part of the interface.
    Unsupported,
}

} // verus!
