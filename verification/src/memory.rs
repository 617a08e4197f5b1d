//! A heap file held in memory.

use vstd::prelude::*;
use crate::file::{overlay, FileState, HeapFile};

verus! {

/// Why an operation on a `MemoryFile` failed.
#[derive(Clone, Copy, Debug, PartialEq, Eq)]
pub enum MemoryFault {
    /// The file ends before the bytes asked for.
    EndOfFile,
    /// The write would end past the file's capacity.
    NoSpace,
}

/// A heap file that keeps its bytes in memory and takes writes up to a fixed
/// capacity. It fails no request that it can meet.
pub struct MemoryFile {
    bytes: Vec<u8>,
    cursor: u64,
    capacity: usize,
}

impl MemoryFile {
    /// The file's bytes, cursor and capacity.
    pub closed spec fn view(&self) -> FileState {
        FileState {
            contents: self.bytes@,
            position: self.cursor as nat,
            capacity: self.capacity as nat,
        }
    }

    /// An empty file that takes writes up to `capacity` bytes.
    pub fn new(capacity: usize) -> (file: MemoryFile)
        ensures
            file@ == (FileState { contents: Seq::empty(), position: 0, capacity: capacity as nat }),
    {
        MemoryFile { bytes: Vec::new(), cursor: 0, capacity }
    }

    /// A file that holds `bytes` and takes writes up to `capacity` bytes. Bytes
    /// past the capacity stay as they are and can be read.
    pub fn with_contents(bytes: Vec<u8>, capacity: usize) -> (file: MemoryFile)
        ensures
            file@ == (FileState { contents: bytes@, position: 0, capacity: capacity as nat }),
    {
        MemoryFile { bytes, cursor: 0, capacity }
    }

    /// Ends the file's life and hands out its bytes.
    pub fn into_bytes(self) -> (bytes: Vec<u8>)
        ensures
            bytes@ == self@.contents,
    {
        self.bytes
    }
}

impl HeapFile for MemoryFile {
    type Fault = MemoryFault;

    open spec fn state(&self) -> Option<FileState> {
        Some(self@)
    }

    fn len(&self) -> (r: Result<u64, MemoryFault>) {
        Ok(self.bytes.len() as u64)
    }

    fn seek(&mut self, offset: u64) -> (r: Result<(), MemoryFault>) {
        self.cursor = offset;
        Ok(())
    }

    fn read_exact(&mut self, data: &mut [u8]) -> (r: Result<(), MemoryFault>) {
        let len: usize = data.len();
        let held: usize = self.bytes.len();
        if self.cursor > held as u64 || held as u64 - self.cursor < len as u64 {
            return Err(MemoryFault::EndOfFile);
        }
        let start: usize = self.cursor as usize;
        let mut i: usize = 0;
        while i < len
            invariant
                i <= len,
                len == data@.len(),
                start + len <= self.bytes@.len(),
                self.bytes@.len() <= usize::MAX,
                forall|k: int| 0 <= k < i ==> data@[k] == self.bytes@[start + k],
            decreases len - i,
        {
            data[i] = self.bytes[start + i];
            i = i + 1;
        }
        assert(data@ =~= old(self)@.next_bytes(len as nat));
        self.cursor = self.cursor + len as u64;
        Ok(())
    }

    fn write_all(&mut self, data: &[u8]) -> (r: Result<(), MemoryFault>) {
        let len: usize = data.len();
        if self.cursor > self.capacity as u64 || self.capacity as u64 - self.cursor < len as u64 {
            return Err(MemoryFault::NoSpace);
        }
        if len == 0 {
            return Ok(());
        }
        let start: usize = self.cursor as usize;
        while self.bytes.len() < start
            invariant
                self.bytes@.len() <= start || self.bytes@ == old(self).bytes@,
                old(self).bytes@.len() <= self.bytes@.len(),
                forall|k: int| 0 <= k < old(self).bytes@.len() ==> self.bytes@[k] == old(self).bytes@[k],
                forall|k: int| old(self).bytes@.len() <= k < self.bytes@.len() ==> self.bytes@[k] == 0u8,
                self.cursor == old(self).cursor,
                self.capacity == old(self).capacity,
            decreases start - self.bytes@.len(),
        {
            self.bytes.push(0u8);
        }
        let mut i: usize = 0;
        while i < len
            invariant
                i <= len,
                len == data@.len(),
                start + len <= usize::MAX,
                start <= self.bytes@.len(),
                start + i <= self.bytes@.len(),
                old(self).bytes@.len() <= self.bytes@.len(),
                self.bytes@.len() <= old(self).bytes@.len() || self.bytes@.len() <= start + len,
                old(self).bytes@.len() <= start ==> self.bytes@.len() == start + i,
                forall|k: int| 0 <= k < i ==> self.bytes@[start + k] == data@[k],
                forall|k: int|
                    0 <= k < old(self).bytes@.len() && !(start <= k < start + i)
                        ==> self.bytes@[k] == old(self).bytes@[k],
                forall|k: int|
                    old(self).bytes@.len() <= k < self.bytes@.len() && !(start <= k < start + i)
                        ==> self.bytes@[k] == 0u8,
                self.cursor == old(self).cursor,
                self.capacity == old(self).capacity,
            decreases len - i,
        {
            if start + i < self.bytes.len() {
                self.bytes[start + i] = data[i];
            } else {
                self.bytes.push(data[i]);
            }
            i = i + 1;
        }
        assert(self.bytes@ =~= overlay(old(self).bytes@, start as nat, data@));
        self.cursor = self.cursor + len as u64;
        Ok(())
    }
}

} // verus!
