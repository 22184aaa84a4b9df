//! Models of the memory the client works with: slices of the game's module
//! memory and pages of executable memory, described by their addresses.
//! The operating-system calls that allocate, protect and write this memory are
//! made by the application around the library.
use vstd::prelude::*;

verus! {

/// The I/O failures of memory operations.
#[derive(Debug, Clone, Copy, PartialEq, Eq)]
pub enum IoError {
    /// A request that does not fit the memory it is made on.
    Other,
    /// An executable page has no room left.
    OutOfMemory,
    /// An error code reported by the operating system.
    Os(i32),
}

/// A slice of process memory: its first address and its length.
#[derive(Debug, Clone, Copy, PartialEq, Eq)]
pub struct ProcessMemorySlice {
    pub ptr: usize,
    pub len: usize,
}

impl ProcessMemorySlice {
    /// The slice's addresses do not wrap around.
    pub open spec fn wf(&self) -> bool {
        self.ptr + self.len <= usize::MAX
    }

    /// The sub-slice `range` of this slice; `Err(Other)` when it ends past this slice.
    pub fn slice(&self, range: std::ops::Range<usize>) -> (r: Result<Self, IoError>)
        requires
            self.wf(),
            range.start <= range.end,
        ensures
            range.end > self.len ==> r == Err::<Self, IoError>(IoError::Other),
            range.end <= self.len ==> r == Ok::<Self, IoError>(
                ProcessMemorySlice {
                    ptr: (self.ptr + range.start) as usize,
                    len: (range.end - range.start) as usize,
                },
            ),
            r matches Ok(s) ==> s.wf(),
    {
        if range.end > self.len {
            return Err(IoError::Other);
        }
        Ok(ProcessMemorySlice { ptr: self.ptr + range.start, len: range.end - range.start })
    }

    /// Whether `bytes` may be written over this slice: only bytes of exactly
    /// the slice's length are written; others are refused with `Err(Other)`.
    pub fn write_check(&self, bytes: &[u8]) -> (r: Result<(), IoError>)
        ensures
            r == if bytes@.len() == self.len {
                Ok::<(), IoError>(())
            } else {
                Err(IoError::Other)
            },
    {
        if bytes.len() != self.len {
            return Err(IoError::Other);
        }
        Ok(())
    }
}

/// A page containing executable memory, handed out front to back.
#[derive(Debug)]
pub struct ExecutablePage {
    /// Address of the start of the executable page.
    pub ptr: usize,
    /// Number of bytes that have been allocated in this page.
    pub allocated: usize,
    /// Size of the page.
    pub size: usize,
}

/// The result of an allocation of `size` bytes in a page in state `page`:
/// the page afterwards and the allocation's address, if there was room.
pub open spec fn alloc_spec(page: ExecutablePage, size: nat) -> (ExecutablePage, Option<usize>) {
    if page.allocated + size > page.size {
        (page, None)
    } else {
        (
            ExecutablePage {
                ptr: page.ptr,
                allocated: (page.allocated + size) as usize,
                size: page.size,
            },
            Some((page.ptr + page.allocated) as usize),
        )
    }
}

impl ExecutablePage {
    /// The allocated part lies within the page, and the page's addresses do
    /// not wrap around.
    pub open spec fn wf(&self) -> bool {
        &&& self.allocated <= self.size
        &&& self.ptr + self.size <= usize::MAX
    }

    /// A fresh page at address `ptr` of `size` bytes; `Err` when the
    /// allocation failed (a null address).
    pub fn from_allocation(ptr: usize, size: usize) -> (r: Result<Self, ()>)
        requires
            ptr + size <= usize::MAX,
        ensures
            ptr == 0 ==> r is Err,
            ptr != 0 ==> (r matches Ok(p) && p.ptr == ptr && p.size == size && p.allocated == 0
                && p.wf()),
    {
        if ptr == 0 {
            Err(())
        } else {
            Ok(ExecutablePage { ptr, allocated: 0, size })
        }
    }

    /// Try to allocate a slice with the given `size` in this executable page.
    ///
    /// Returns the slice's address, or `Err(OutOfMemory)` (leaving the page
    /// unchanged) when fewer than `size` bytes are left.
    pub fn allocate(&mut self, size: usize) -> (r: Result<usize, IoError>)
        requires
            old(self).wf(),
            old(self).allocated + size <= usize::MAX,
        ensures
            final(self).wf(),
            (*final(self), r.ok()) == alloc_spec(*old(self), size as nat),
            r is Err ==> r == Err::<usize, IoError>(IoError::OutOfMemory),
    {
        if self.allocated + size > self.size {
            return Err(IoError::OutOfMemory);
        }
        let addr = self.ptr + self.allocated;
        self.allocated = self.allocated + size;
        Ok(addr)
    }
}

/// Two successive allocations in a page never overlap, and both lie within
/// the page.
pub proof fn lemma_allocations_disjoint(page: ExecutablePage, s1: nat, s2: nat)
    requires
        page.wf(),
    ensures
        ({
            let (p1, a1) = alloc_spec(page, s1);
            let (p2, a2) = alloc_spec(p1, s2);
            &&& p1.wf() && p2.wf()
            &&& a1 matches Some(x) ==> page.ptr <= x && x + s1 <= page.ptr + page.size
            &&& a2 matches Some(y) ==> page.ptr <= y && y + s2 <= page.ptr + page.size
            &&& (a1 is Some && a2 is Some) ==> a1.unwrap() + s1 <= a2.unwrap()
        }),
{
}

/// A refused allocation leaves the page as it was, and the allocated part of a
/// page never shrinks.
pub proof fn lemma_alloc_monotone(page: ExecutablePage, size: nat)
    requires
        page.wf(),
    ensures
        ({
            let (p, a) = alloc_spec(page, size);
            &&& a is None ==> p == page
            &&& p.allocated >= page.allocated
            &&& p.ptr == page.ptr && p.size == page.size
        }),
{
}

/// A slice of executable memory, by its address.
#[derive(Debug)]
pub struct ExecutableMemory {
    ptr: usize,
}

impl ExecutableMemory {
    /// The memory at `ptr`; `None` when the allocation failed (a null address).
    pub fn from_allocation(ptr: usize) -> (r: Option<Self>)
        ensures
            ptr == 0 ==> r is None,
            ptr != 0 ==> (r matches Some(m) && m.addr() == ptr),
    {
        if ptr == 0 {
            None
        } else {
            Some(ExecutableMemory { ptr })
        }
    }

    /// The address of the memory.
    pub closed spec fn addr(&self) -> usize {
        self.ptr
    }

    /// The address of the memory.
    pub fn as_ptr(&self) -> (r: usize)
        ensures
            r == self.addr(),
    {
        self.ptr
    }
}

/// A buffer of executable memory: its address and length.
#[derive(Debug)]
pub struct ExecutableBuf {
    ptr: usize,
    len: usize,
}

impl ExecutableBuf {
    /// The buffer of `len` bytes at `ptr`; `Err` when the allocation failed
    /// (a null address).
    pub fn from_allocation(ptr: usize, len: usize) -> (r: Result<Self, ()>)
        ensures
            ptr == 0 ==> r is Err,
            ptr != 0 ==> (r matches Ok(b) && b.addr() == ptr && b.length() == len),
    {
        if ptr == 0 {
            Err(())
        } else {
            Ok(ExecutableBuf { ptr, len })
        }
    }

    /// The address of the buffer.
    pub closed spec fn addr(&self) -> usize {
        self.ptr
    }

    /// The length of the buffer.
    pub closed spec fn length(&self) -> usize {
        self.len
    }

    /// The address of the buffer.
    pub fn as_ptr(&self) -> (r: usize)
        ensures
            r == self.addr(),
    {
        self.ptr
    }

    /// The length of the buffer.
    pub fn len(&self) -> (r: usize)
        ensures
            r == self.length(),
    {
        self.len
    }
}

/// An open handle to a process.
#[derive(Debug)]
pub struct Process {
    handle: isize,
}

impl Process {
    /// The process behind `handle`, as the operating system returned it;
    /// `None` when opening failed (a null handle).
    pub fn from_handle(handle: isize) -> (r: Option<Self>)
        ensures
            handle == 0 ==> r is None,
            handle != 0 ==> (r matches Some(p) && p.handle_spec() == handle),
    {
        if handle == 0 {
            None
        } else {
            Some(Process { handle })
        }
    }

    pub closed spec fn handle_spec(&self) -> isize {
        self.handle
    }

    #[verifier::type_invariant]
    spec fn handle_not_null(&self) -> bool {
        self.handle != 0
    }

    /// The handle, never null.
    pub fn handle(&self) -> (r: isize)
        ensures
            r == self.handle_spec(),
            r != 0,
    {
        proof {
            use_type_invariant(self);
        }
        self.handle
    }
}

} // verus!
