//! The disk manager: page allocation, and whole-page reads and writes.

use vstd::prelude::*;
use crate::file::{FileState, HeapFile};
use crate::page::{PageId, PAGE_SIZE};

verus! {

/// Why an operation of the disk manager failed. Each failure of the heap file
/// is handed on with what the file reported.
#[derive(Debug, PartialEq, Eq)]
pub enum DiskError<E> {
    /// The length of the heap file could not be learned.
    Metadata(E),
    /// The cursor could not be moved to the page.
    Seek(E),
    /// The file holds less than a whole page at the page's offset.
    ShortRead(E),
    /// The page could not be written in full.
    Write(E),
    /// The page's offset cannot be written in 64 bits, so the identifier names
    /// no page. The invalid identifier is rejected with this error.
    InvalidPageId,
}

/// The identifiers that `n` calls of `allocate_page` in a row hand out, in the
/// order of the calls, on a manager whose next identifier is `next`: what the
/// first call returns, then what the others return on the manager that the
/// first call leaves.
pub open spec fn allocation_run(next: u64, n: nat) -> Seq<PageId>
    decreases n,
{
    if n == 0 {
        Seq::empty()
    } else {
        seq![PageId(next)] + allocation_run((next + 1) as u64, (n - 1) as nat)
    }
}

/// Allocations in a row hand out consecutive identifiers: the call numbered
/// `i`, counting from zero, returns `next + i`. So no identifier comes twice,
/// none is left out, and none is the invalid one. On a new manager of an empty
/// file `next` is zero and the calls return 0, 1, 2 and so on; on a manager of
/// a file of `len` bytes the first call returns `len / PAGE_SIZE`.
pub proof fn lemma_allocation_run(next: u64, n: nat)
    requires
        next + n <= u64::MAX,
    ensures
        allocation_run(next, n).len() == n,
        forall|i: int| 0 <= i < n ==> (#[trigger] allocation_run(next, n)[i]).0 == next + i,
        forall|i: int|
            0 <= i < n ==> (#[trigger] allocation_run(next, n)[i]).0 != PageId::INVALID_PAGE_ID,
        forall|i: int, j: int|
            0 <= i < j < n ==> allocation_run(next, n)[i] != allocation_run(next, n)[j],
    decreases n,
{
    if n > 0 {
        lemma_allocation_run((next + 1) as u64, (n - 1) as nat);
        let rest = allocation_run((next + 1) as u64, (n - 1) as nat);
        assert forall|i: int| 0 <= i < n implies (#[trigger] allocation_run(next, n)[i]).0 == next
            + i by {
            if i > 0 {
                assert(allocation_run(next, n)[i] == rest[i - 1]);
            }
        }
    }
}

/// Owner of one heap file and of the counter that numbers its pages.
pub struct DiskManager<F: HeapFile> {
    heap_file: F,
    next_page_id: u64,
}

impl<F: HeapFile> DiskManager<F> {
    /// The heap file that the manager owns.
    pub closed spec fn heap_file(&self) -> F {
        self.heap_file
    }

    /// The identifier that the next allocation hands out.
    pub closed spec fn next_page_id(&self) -> u64 {
        self.next_page_id
    }

    /// The state of the heap file, where the file makes it known.
    pub open spec fn file_state(&self) -> Option<FileState> {
        self.heap_file().state()
    }

    /// A manager of `heap_file`, whose length is `heap_file_size` bytes. The
    /// pages that the file holds in full count as allocated; bytes after the
    /// last whole page are left where they are and not counted.
    pub fn with_file_size(heap_file: F, heap_file_size: u64) -> (manager: Self)
        ensures
            manager.heap_file() == heap_file,
            manager.next_page_id() == heap_file_size as nat / PAGE_SIZE as nat,
            PageId(manager.next_page_id()).addressable(),
    {
        DiskManager { heap_file, next_page_id: heap_file_size / PAGE_SIZE as u64 }
    }

    /// A manager of `heap_file`, which asks the file for its length. Fails
    /// where the file cannot tell it.
    pub fn new(heap_file: F) -> (r: Result<Self, DiskError<F::Fault>>)
        ensures
            r matches Ok(manager) ==> {
                &&& manager.heap_file() == heap_file
                &&& PageId(manager.next_page_id()).addressable()
            },
            r matches Err(e) ==> e is Metadata,
            heap_file.state() matches Some(s) ==> (r matches Ok(manager)
                && manager.next_page_id() == s.contents.len() / PAGE_SIZE as nat),
    {
        match heap_file.len() {
            Ok(heap_file_size) => Ok(Self::with_file_size(heap_file, heap_file_size)),
            Err(fault) => Err(DiskError::Metadata(fault)),
        }
    }

    /// Hands out the next page identifier. The file is not touched: the page
    /// comes to be when it is first written.
    pub fn allocate_page(&mut self) -> (page_id: PageId)
        requires
            old(self).next_page_id() < u64::MAX,
        ensures
            page_id == PageId(old(self).next_page_id()),
            page_id.0 != PageId::INVALID_PAGE_ID,
            final(self).next_page_id() == old(self).next_page_id() + 1,
            final(self).heap_file() == old(self).heap_file(),
    {
        let page_id = self.next_page_id;
        self.next_page_id += 1;
        PageId(page_id)
    }

    /// Reads page `page_id` into `data`.
    pub fn read_page_data(&mut self, page_id: PageId, data: &mut [u8]) -> (r: Result<
        (),
        DiskError<F::Fault>,
    >)
        requires
            old(data)@.len() == PAGE_SIZE,
        ensures
            final(self).next_page_id() == old(self).next_page_id(),
            final(data)@.len() == PAGE_SIZE,
            r matches Err(e) ==> e is InvalidPageId || e is Seek || e is ShortRead,
            r matches Err(DiskError::InvalidPageId) <==> !page_id.addressable(),
            !page_id.addressable() ==> {
                &&& final(self).heap_file() == old(self).heap_file()
                &&& final(data)@ == old(data)@
            },
            old(self).file_state() matches Some(s) ==> page_id.addressable() ==> {
                if s.holds_page(page_id) {
                    &&& r is Ok
                    &&& final(data)@ == s.page(page_id)
                    &&& final(self).file_state() == Some(s.read_page(page_id))
                } else {
                    &&& r matches Err(DiskError::ShortRead(_))
                    &&& final(data)@ == old(data)@
                    &&& final(self).file_state() == Some(s.seek(page_id.offset()))
                }
            },
    {
        match self.seek(page_id) {
            Ok(()) => {},
            Err(e) => {
                return Err(e);
            },
        }
        match self.heap_file.read_exact(data) {
            Ok(()) => Ok(()),
            Err(fault) => Err(DiskError::ShortRead(fault)),
        }
    }

    /// Writes `data` as page `page_id`. A page past the end of the file makes
    /// the file grow, with zeros in every byte between.
    pub fn write_page_data(&mut self, page_id: PageId, data: &[u8]) -> (r: Result<
        (),
        DiskError<F::Fault>,
    >)
        requires
            data@.len() == PAGE_SIZE,
        ensures
            final(self).next_page_id() == old(self).next_page_id(),
            r matches Err(e) ==> e is InvalidPageId || e is Seek || e is Write,
            r matches Err(DiskError::InvalidPageId) <==> !page_id.addressable(),
            !page_id.addressable() ==> final(self).heap_file() == old(self).heap_file(),
            old(self).file_state() matches Some(s) ==> page_id.addressable() ==> {
                if s.takes_page(page_id) {
                    &&& r is Ok
                    &&& final(self).file_state() == Some(s.write_page(page_id, data@))
                } else {
                    &&& r matches Err(DiskError::Write(_))
                    &&& final(self).file_state() == Some(s.seek(page_id.offset()))
                }
            },
    {
        match self.seek(page_id) {
            Ok(()) => {},
            Err(e) => {
                return Err(e);
            },
        }
        match self.heap_file.write_all(data) {
            Ok(()) => Ok(()),
            Err(fault) => Err(DiskError::Write(fault)),
        }
    }

    /// Ends the manager's life and hands back the heap file.
    pub fn close(self) -> (heap_file: F)
        ensures
            heap_file == self.heap_file(),
    {
        self.heap_file
    }

    /// Offset of page `page_id` in the file, where 64 bits can hold it.
    pub fn offset(&self, page_id: PageId) -> (offset: Option<u64>)
        ensures
            page_id.addressable() ==> offset == Some(page_id.offset() as u64),
            !page_id.addressable() ==> offset is None,
    {
        (PAGE_SIZE as u64).checked_mul(page_id.to_u64())
    }

    /// Moves the file's cursor to the start of page `page_id`.
    fn seek(&mut self, page_id: PageId) -> (r: Result<(), DiskError<F::Fault>>)
        ensures
            final(self).next_page_id() == old(self).next_page_id(),
            r matches Err(e) ==> e is InvalidPageId || e is Seek,
            r matches Err(DiskError::InvalidPageId) <==> !page_id.addressable(),
            !page_id.addressable() ==> final(self).heap_file() == old(self).heap_file(),
            old(self).file_state() matches Some(s) ==> page_id.addressable() ==> {
                &&& r is Ok
                &&& final(self).file_state() == Some(s.seek(page_id.offset()))
            },
    {
        match self.offset(page_id) {
            None => Err(DiskError::InvalidPageId),
            Some(offset) => match self.heap_file.seek(offset) {
                Ok(()) => Ok(()),
                Err(fault) => Err(DiskError::Seek(fault)),
            },
        }
    }
}

} // verus!
