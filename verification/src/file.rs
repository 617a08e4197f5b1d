//! The heap file as the disk manager sees it: a run of bytes with a cursor.

use vstd::prelude::*;
use crate::page::{PageId, PAGE_SIZE};

verus! {

/// The bytes of `contents` after `data` has been written over them from
/// offset `at` on. A write that starts past the end leaves zeros in the gap;
/// a write of nothing changes nothing.
pub open spec fn overlay(contents: Seq<u8>, at: nat, data: Seq<u8>) -> Seq<u8> {
    if data.len() == 0 {
        contents
    } else {
        Seq::new(
            if contents.len() < at + data.len() {
                at + data.len()
            } else {
                contents.len()
            },
            |i: int|
                if at <= i < at + data.len() {
                    data[i - at]
                } else if i < contents.len() {
                    contents[i]
                } else {
                    0u8
                },
        )
    }
}

/// What a proof knows of a heap file.
pub struct FileState {
    /// The bytes of the file, from its start.
    pub contents: Seq<u8>,
    /// Where the next read or write begins.
    pub position: nat,
    /// The greatest length up to which the file takes writes.
    pub capacity: nat,
}

impl FileState {
    /// The file with its cursor at `offset`. The offset may lie past the end.
    pub open spec fn seek(self, offset: nat) -> FileState {
        FileState { position: offset, ..self }
    }

    /// Whether `len` bytes are there to be read at the cursor.
    pub open spec fn can_read(self, len: nat) -> bool {
        self.position + len <= self.contents.len()
    }

    /// The `len` bytes at the cursor.
    pub open spec fn next_bytes(self, len: nat) -> Seq<u8> {
        self.contents.subrange(self.position as int, (self.position + len) as int)
    }

    /// The file after `len` bytes have been read at the cursor.
    pub open spec fn read(self, len: nat) -> FileState {
        FileState { position: self.position + len, ..self }
    }

    /// Whether the file takes `len` bytes at the cursor.
    pub open spec fn can_write(self, len: nat) -> bool {
        self.position + len <= self.capacity
    }

    /// The file after `data` has been written at the cursor.
    pub open spec fn write(self, data: Seq<u8>) -> FileState {
        FileState {
            contents: overlay(self.contents, self.position, data),
            position: self.position + data.len(),
            ..self
        }
    }

    /// Whether the file ends where a page ends.
    pub open spec fn whole_pages(self) -> bool {
        self.contents.len() % (PAGE_SIZE as nat) == 0
    }

    /// Whether the file holds all of page `page_id`.
    pub open spec fn holds_page(self, page_id: PageId) -> bool {
        page_id.offset() + PAGE_SIZE <= self.contents.len()
    }

    /// The bytes of page `page_id`.
    pub open spec fn page(self, page_id: PageId) -> Seq<u8> {
        self.contents.subrange(page_id.offset() as int, page_id.offset() + PAGE_SIZE)
    }

    /// Whether the file has room for page `page_id`.
    pub open spec fn takes_page(self, page_id: PageId) -> bool {
        page_id.offset() + PAGE_SIZE <= self.capacity
    }

    /// The file after page `page_id` has been read.
    pub open spec fn read_page(self, page_id: PageId) -> FileState {
        self.seek(page_id.offset()).read(PAGE_SIZE as nat)
    }

    /// The file after `data` has been written as page `page_id`.
    pub open spec fn write_page(self, page_id: PageId, data: Seq<u8>) -> FileState {
        self.seek(page_id.offset()).write(data)
    }
}

/// A page that has been written is read back as it was written: at once, after
/// any movement of the cursor, and from any file that holds the same bytes,
/// such as the same file opened anew.
pub proof fn lemma_write_then_read(s: FileState, page_id: PageId, data: Seq<u8>, later: FileState)
    requires
        data.len() == PAGE_SIZE,
        later.contents == s.write_page(page_id, data).contents,
    ensures
        later.holds_page(page_id),
        later.page(page_id) == data,
{
    assert(later.page(page_id) =~= data);
}

/// Writing one page leaves every other page of the file as it was.
pub proof fn lemma_write_keeps_other_pages(
    s: FileState,
    page_id: PageId,
    data: Seq<u8>,
    other: PageId,
)
    requires
        data.len() == PAGE_SIZE,
        other != page_id,
        s.holds_page(other),
    ensures
        s.write_page(page_id, data).holds_page(other),
        s.write_page(page_id, data).page(other) == s.page(other),
{
    assert(other.0 < page_id.0 ==> other.offset() + PAGE_SIZE <= page_id.offset())
        by (nonlinear_arith)
        requires
            PAGE_SIZE == 4096,
    ;
    assert(page_id.0 < other.0 ==> page_id.offset() + PAGE_SIZE <= other.offset())
        by (nonlinear_arith)
        requires
            PAGE_SIZE == 4096,
    ;
    assert(s.write_page(page_id, data).page(other) =~= s.page(other));
}

/// Writing a page that starts at or past the end of the file makes the file
/// end with that page. The bytes that were there stay, and every byte between
/// the old end and the page is zero, so a page that was skipped reads as zeros.
pub proof fn lemma_write_past_end(s: FileState, page_id: PageId, data: Seq<u8>)
    requires
        data.len() == PAGE_SIZE,
        s.contents.len() <= page_id.offset(),
    ensures
        s.write_page(page_id, data).contents.len() == page_id.offset() + PAGE_SIZE,
        forall|i: int|
            0 <= i < s.contents.len() ==> s.write_page(page_id, data).contents[i] == s.contents[i],
        forall|i: int|
            s.contents.len() <= i < page_id.offset() ==> s.write_page(page_id, data).contents[i]
                == 0u8,
        forall|skipped: PageId|
            s.contents.len() <= skipped.offset() && skipped.0 < page_id.0 ==> {
                &&& (#[trigger] s.write_page(page_id, data).holds_page(skipped))
                &&& s.write_page(page_id, data).page(skipped) == Seq::new(
                    PAGE_SIZE as nat,
                    |i: int| 0u8,
                )
            },
{
    let t = s.write_page(page_id, data);
    assert forall|skipped: PageId|
        s.contents.len() <= skipped.offset() && skipped.0 < page_id.0 implies {
        &&& (#[trigger] t.holds_page(skipped))
        &&& t.page(skipped) == Seq::new(PAGE_SIZE as nat, |i: int| 0u8)
    } by {
        assert(skipped.offset() + PAGE_SIZE <= page_id.offset()) by (nonlinear_arith)
            requires
                skipped.0 < page_id.0,
                PAGE_SIZE == 4096,
        ;
        assert(t.page(skipped) =~= Seq::new(PAGE_SIZE as nat, |i: int| 0u8));
    }
}

/// A file that is made of whole pages is still made of whole pages after a
/// page has been written.
pub proof fn lemma_write_keeps_whole_pages(s: FileState, page_id: PageId, data: Seq<u8>)
    requires
        data.len() == PAGE_SIZE,
        s.whole_pages(),
    ensures
        s.write_page(page_id, data).whole_pages(),
{
    assert((page_id.offset() + PAGE_SIZE) % 4096 == 0) by (nonlinear_arith)
        requires
            page_id.offset() == PAGE_SIZE * page_id.0,
            PAGE_SIZE == 4096,
    ;
}

/// Reading a page leaves the file's bytes as they were, so a second read of
/// the same page finds the same bytes.
pub proof fn lemma_read_twice(s: FileState, page_id: PageId)
    ensures
        s.read_page(page_id).contents == s.contents,
        s.read_page(page_id).holds_page(page_id) == s.holds_page(page_id),
        s.read_page(page_id).page(page_id) == s.page(page_id),
{
}

/// A file that a disk manager can keep its pages in.
///
/// A store whose `state` is `Some` is described in full by that state, and its
/// operations do to it what the contracts below say, failing only where they
/// say so. A store that answers for a device can fail at any time and leaves
/// `state` at `None`: nothing is assumed of it but that a read keeps the
/// buffer's length.
pub trait HeapFile {
    /// What the store reports when an operation fails.
    type Fault;

    /// The store's bytes, cursor and capacity, where it makes them known.
    open spec fn state(&self) -> Option<FileState> {
        None
    }

    /// Length of the file in bytes.
    fn len(&self) -> (r: Result<u64, Self::Fault>)
        ensures
            self.state() matches Some(s) ==> (r matches Ok(n) && n == s.contents.len()),
    ;

    /// Moves the cursor to `offset` bytes from the start of the file.
    fn seek(&mut self, offset: u64) -> (r: Result<(), Self::Fault>)
        ensures
            old(self).state() matches Some(s) ==> r is Ok && final(self).state() == Some(
                s.seek(offset as nat),
            ),
    ;

    /// Fills `data` with the bytes at the cursor and moves the cursor past
    /// them. Fails where the file ends before `data` is full.
    fn read_exact(&mut self, data: &mut [u8]) -> (r: Result<(), Self::Fault>)
        ensures
            final(data)@.len() == old(data)@.len(),
            old(self).state() matches Some(s) ==> {
                let len = old(data)@.len();
                if s.can_read(len) {
                    &&& r is Ok
                    &&& final(data)@ == s.next_bytes(len)
                    &&& final(self).state() == Some(s.read(len))
                } else {
                    &&& r is Err
                    &&& final(data)@ == old(data)@
                    &&& final(self).state() == Some(s)
                }
            },
    ;

    /// Writes all of `data` at the cursor and moves the cursor past it. The
    /// file grows where the write ends past its end.
    fn write_all(&mut self, data: &[u8]) -> (r: Result<(), Self::Fault>)
        ensures
            old(self).state() matches Some(s) ==> {
                if s.can_write(data@.len()) {
                    &&& r is Ok
                    &&& final(self).state() == Some(s.write(data@))
                } else {
                    &&& r is Err
                    &&& final(self).state() == Some(s)
                }
            },
    ;
}

} // verus!
