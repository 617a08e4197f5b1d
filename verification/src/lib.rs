//! A disk manager for fixed-size pages kept in one heap file.
//!
//! Page `p` occupies the bytes from `PAGE_SIZE * p` up to, and not including,
//! `PAGE_SIZE * (p + 1)`. The manager hands out page identifiers in ascending
//! order and moves whole pages between the file and the caller's buffers.
//!
//! The file is any `HeapFile`. A `MemoryFile` keeps its bytes in memory and
//! makes its state known to proofs, so that what the manager does to it is
//! stated byte for byte. A file on a device is wrapped by the program that
//! owns it; of such a file the manager's contracts state which error follows
//! which failure, and that a failure leaves the page counter alone.

pub mod disk;
pub mod file;
pub mod memory;
pub mod page;
