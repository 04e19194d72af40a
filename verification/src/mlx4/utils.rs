//! Memory helpers of the driver: page counts, bounds-checked access to mapped
//! pages, and batches of deferred fill and copy operations on a buffer.
use vstd::prelude::*;

verus! {

pub const PAGE_SIZE: usize = 4096;

/// The pages needed for `bytes` bytes.
pub fn pages_required(bytes: usize) -> (r: usize)
    requires
        bytes + PAGE_SIZE <= usize::MAX,
    ensures
        r == (bytes + 4095) / 4096,
{
    (bytes + PAGE_SIZE - 1) / PAGE_SIZE
}

/// Why an object cannot be accessed in mapped pages.
#[derive(Clone, Copy, Debug, PartialEq, Eq)]
pub enum AccessError {
    /// The offset is not aligned for the object type.
    NotAligned,
    /// The object reaches past the last page.
    DoesNotFit,
    /// The size of a slice overflows.
    Overflow,
}

/// A range of mapped pages, by the virtual addresses of its first byte and
/// of the byte after its last page.
#[derive(Clone, Copy, Debug, PartialEq, Eq)]
pub struct MappedPages {
    pub start: u64,
    pub end: u64,
}

impl MappedPages {
    /// Whether the range holds at least one page.
    pub fn non_zero(&self) -> (r: bool)
        ensures
            r == (self.start < self.end),
    {
        self.start < self.end
    }

    /// The address of an object of `size` bytes and alignment `align` at
    /// `byte_offset`, if it is aligned and fits.
    pub fn object_address(&self, byte_offset: usize, size: usize, align: usize) -> (r: Result<u64, AccessError>)
        requires
            align > 0,
            self.start + byte_offset + size <= u64::MAX,
        ensures
            byte_offset % align != 0 ==> r == Err::<u64, AccessError>(AccessError::NotAligned),
            byte_offset % align == 0 && self.end < self.start + byte_offset + size
                ==> r == Err::<u64, AccessError>(AccessError::DoesNotFit),
            byte_offset % align == 0 && self.start + byte_offset + size <= self.end
                ==> r == Ok::<u64, AccessError>((self.start + byte_offset) as u64),
    {
        if byte_offset % align != 0 {
            return Err(AccessError::NotAligned);
        }
        let end_bound = self.start + byte_offset as u64 + size as u64;
        if self.end < end_bound {
            return Err(AccessError::DoesNotFit);
        }
        Ok(self.start + byte_offset as u64)
    }

    /// The address of a slice of `length` elements of `elem_size` bytes and
    /// alignment `align` at `byte_offset`, if its size does not overflow and
    /// it is aligned and fits.
    pub fn slice_address(&self, byte_offset: usize, length: usize, elem_size: usize, align: usize) -> (r: Result<u64, AccessError>)
        requires
            align > 0,
            self.start + byte_offset <= u64::MAX,
        ensures
            length * elem_size > usize::MAX ==> r == Err::<u64, AccessError>(AccessError::Overflow),
            length * elem_size <= usize::MAX && byte_offset % align != 0 ==> r == Err::<u64, AccessError>(AccessError::NotAligned),
            length * elem_size <= usize::MAX && byte_offset % align == 0 && self.end < self.start + byte_offset + length * elem_size
                ==> r == Err::<u64, AccessError>(AccessError::DoesNotFit),
            length * elem_size <= usize::MAX && byte_offset % align == 0 && self.start + byte_offset + length * elem_size <= self.end
                ==> r == Ok::<u64, AccessError>((self.start + byte_offset) as u64),
    {
        let size = match length.checked_mul(elem_size) {
            Some(s) => s,
            None => return Err(AccessError::Overflow),
        };
        if byte_offset % align != 0 {
            return Err(AccessError::NotAligned);
        }
        let base: u64 = self.start + byte_offset as u64;
        if (size as u64) > u64::MAX - base || self.end < base + size as u64 {
            return Err(AccessError::DoesNotFit);
        }
        Ok(base)
    }

    /// The offset of `addr` from the start of the range, if it lies before
    /// the end and not before the start.
    pub fn offset_of_address(&self, addr: u64) -> (r: Option<u64>)
        ensures
            r == (if addr >= self.end || addr < self.start { None } else { Some((addr - self.start) as u64) }),
    {
        if addr >= self.end {
            return None;
        }
        if addr < self.start {
            return None;
        }
        Some(addr - self.start)
    }
}

/// Pages together with the physical frame they map.
#[derive(Clone, Copy, Debug, PartialEq, Eq)]
pub struct PageToFrameRange {
    pub mapped_pages: MappedPages,
    pub start_frame: u64,
}

impl PageToFrameRange {
    /// Pairs `pages` with `start_frame`, where `translated` is the physical
    /// address that the first page maps to. If that is null, differs from
    /// the frame, or the frame is not page aligned, the pair is the empty
    /// range at address zero.
    pub fn from_frame(pages: MappedPages, start_frame: u64, translated: u64) -> (r: Self)
        ensures
            (translated == 0 || start_frame != translated || start_frame % 4096 != 0)
                ==> r == (PageToFrameRange { mapped_pages: MappedPages { start: 0, end: 0 }, start_frame: 0 }),
            !(translated == 0 || start_frame != translated || start_frame % 4096 != 0)
                ==> r == (PageToFrameRange { mapped_pages: pages, start_frame }),
    {
        if translated == 0 || start_frame != translated || start_frame % 4096 != 0 {
            return PageToFrameRange { mapped_pages: MappedPages { start: 0, end: 0 }, start_frame: 0 };
        }
        PageToFrameRange { mapped_pages: pages, start_frame }
    }

    /// A pair of non-empty pages and a non-null frame.
    pub fn is_valid(&self) -> (r: bool)
        ensures
            r == (self.mapped_pages.start < self.mapped_pages.end && self.start_frame != 0),
    {
        self.mapped_pages.non_zero() && self.start_frame != 0
    }

    /// The pages and the frame address of a valid pair.
    pub fn fetch_in_addr(&self) -> (r: Option<(MappedPages, u64)>)
        ensures
            r == (if self.mapped_pages.start < self.mapped_pages.end && self.start_frame != 0 {
                Some((self.mapped_pages, self.start_frame))
            } else {
                None
            }),
    {
        if !self.is_valid() {
            return None;
        }
        Some((self.mapped_pages, self.start_frame))
    }
}

/// A deferred operation on a buffer.
#[derive(Debug)]
pub enum OperationArgs {
    /// Set `len` bytes from `target` to `value`.
    Fill(u8, usize, usize),
    /// Copy the bytes to `target`; `len` is their number.
    Copy(Vec<u8>, usize, usize),
}

/// The buffer after one operation.
pub open spec fn applied(mem: Seq<u8>, op: OperationArgs) -> Seq<u8> {
    match op {
        OperationArgs::Fill(value, target, len) => Seq::new(mem.len(), |i: int|
            if target <= i < target + len { value } else { mem[i] }),
        OperationArgs::Copy(src, target, len) => Seq::new(mem.len(), |i: int|
            if target <= i < target + len { src@[i - target] } else { mem[i] }),
    }
}

/// The buffer after the operations, in order.
pub open spec fn applied_all(mem: Seq<u8>, ops: Seq<OperationArgs>) -> Seq<u8>
    decreases ops.len(),
{
    if ops.len() == 0 {
        mem
    } else {
        applied(applied_all(mem, ops.drop_last()), ops.last())
    }
}

/// An operation stays inside a buffer of `len` bytes (a copy also has as
/// many bytes as it says).
pub open spec fn op_fits(op: OperationArgs, len: nat) -> bool {
    match op {
        OperationArgs::Fill(_, target, n) => target + n <= len,
        OperationArgs::Copy(src, target, n) => target + n <= len && src@.len() == n,
    }
}

/// A batch of operations that are carried out together.
pub struct Operations {
    pub operation_container: Vec<OperationArgs>,
}

impl Operations {
    pub fn new() -> (r: Self)
        ensures
            r.operation_container@ == Seq::<OperationArgs>::empty(),
    {
        Operations { operation_container: Vec::new() }
    }

    pub fn add_operation(&mut self, operation_value: OperationArgs)
        ensures
            final(self).operation_container@ == old(self).operation_container@.push(operation_value),
    {
        self.operation_container.push(operation_value);
    }

    /// Carries out the operations on `mem` in the order they were added,
    /// and forgets them.
    pub fn perform_and_flush(&mut self, mem: &mut Vec<u8>)
        requires
            forall|i: int| 0 <= i < old(self).operation_container@.len()
                ==> op_fits(#[trigger] old(self).operation_container@[i], old(mem)@.len()),
        ensures
            final(mem)@ == applied_all(old(mem)@, old(self).operation_container@),
            final(self).operation_container@ == Seq::<OperationArgs>::empty(),
    {
        run_all(&self.operation_container, mem);
        self.operation_container.clear();
    }

    /// Carries out the operations on `mem` in the order they were added.
    pub fn perform(self, mem: &mut Vec<u8>)
        requires
            forall|i: int| 0 <= i < self.operation_container@.len()
                ==> op_fits(#[trigger] self.operation_container@[i], old(mem)@.len()),
        ensures
            final(mem)@ == applied_all(old(mem)@, self.operation_container@),
    {
        run_all(&self.operation_container, mem);
    }
}

fn run_one(op: &OperationArgs, mem: &mut Vec<u8>)
    requires
        op_fits(*op, old(mem)@.len()),
    ensures
        final(mem)@ == applied(old(mem)@, *op),
{
    match op {
        OperationArgs::Fill(value, target, len) => {
            let mut i: usize = *target;
            let n = mem.len();
            assert(*target + *len <= n);
            let end = *target + *len;
            while i < end
                invariant
                    *target <= i <= *target + *len,
                    end == *target + *len,
                    *target + *len <= mem@.len(),
                    mem@.len() == old(mem)@.len(),
                    forall|k: int| 0 <= k < mem@.len() ==> #[trigger] mem@[k] == (
                        if *target <= k < i { *value } else { old(mem)@[k] }),
                decreases end - i,
            {
                mem.set(i, *value);
                i = i + 1;
            }
            assert(mem@ =~= applied(old(mem)@, *op));
        },
        OperationArgs::Copy(src, target, len) => {
            let mut i: usize = 0;
            let n = mem.len();
            assert(*target + *len <= n);
            while i < *len
                invariant
                    i <= *len,
                    *target + *len <= n,
                    n == mem@.len(),
                    src@.len() == *len,
                    mem@.len() == old(mem)@.len(),
                    forall|k: int| 0 <= k < mem@.len() ==> #[trigger] mem@[k] == (
                        if *target <= k < *target + i { src@[k - *target] } else { old(mem)@[k] }),
                decreases *len - i,
            {
                mem.set(*target + i, src[i]);
                i = i + 1;
            }
            assert(mem@ =~= applied(old(mem)@, *op));
        },
    }
}

fn run_all(ops: &Vec<OperationArgs>, mem: &mut Vec<u8>)
    requires
        forall|i: int| 0 <= i < ops@.len() ==> op_fits(#[trigger] ops@[i], old(mem)@.len()),
    ensures
        final(mem)@ == applied_all(old(mem)@, ops@),
{
    let mut j: usize = 0;
    while j < ops.len()
        invariant
            j <= ops@.len(),
            mem@.len() == old(mem)@.len(),
            forall|i: int| 0 <= i < ops@.len() ==> op_fits(#[trigger] ops@[i], old(mem)@.len()),
            mem@ == applied_all(old(mem)@, ops@.take(j as int)),
        decreases ops.len() - j,
    {
        assert(ops@.take(j + 1).drop_last() == ops@.take(j as int));
        assert(op_fits(ops@[j as int], old(mem)@.len()));
        run_one(&ops[j], mem);
        j = j + 1;
    }
    assert(ops@.take(ops.len() as int) == ops@);
}

} // verus!
