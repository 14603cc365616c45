//! A verified mediator that lets untrusted clients perform raw flash writes
//! and page erases through a narrow, validated, single-outstanding-operation
//! interface.
//!
//! The driver validates each request, marshals the caller's byte buffer into
//! machine words, and enforces that at most one erase or write is outstanding
//! system-wide.  The flash device itself is an external collaborator: an
//! accepted request is returned to the caller as a [`driver::FlashRequest`]
//! to hand to the device, and the device's asynchronous completion is fed
//! back through [`driver::OpenskSyscall::write_done`] and
//! [`driver::OpenskSyscall::erase_done`].

pub mod codes;
pub mod driver;
pub mod marshal;
pub mod mock_alarm;
