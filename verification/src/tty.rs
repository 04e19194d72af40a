//! The TTY line buffers between the terminal and the applications.
use vstd::prelude::*;
use std::collections::VecDeque;

verus! {

/// The state of a pending read from the TTY input.
#[derive(Debug, PartialEq, Eq, Clone, Copy)]
pub enum TtyInputState {
    Idle,
    Waiting,
    Ready,
}

impl TtyInputState {
    /// The state for a stored number; unknown numbers give `Idle`.
    pub fn from_usize(value: usize) -> (r: Self)
        ensures
            r == (if value == 1 {
                TtyInputState::Waiting
            } else if value == 2 {
                TtyInputState::Ready
            } else {
                TtyInputState::Idle
            }),
    {
        if value == 1 {
            TtyInputState::Waiting
        } else if value == 2 {
            TtyInputState::Ready
        } else {
            TtyInputState::Idle
        }
    }

    /// The number that stores the state.
    pub fn to_usize(&self) -> (r: usize)
        ensures
            r == (match *self {
                TtyInputState::Idle => 0usize,
                TtyInputState::Waiting => 1usize,
                TtyInputState::Ready => 2usize,
            }),
    {
        match self {
            TtyInputState::Idle => 0,
            TtyInputState::Waiting => 1,
            TtyInputState::Ready => 2,
        }
    }
}

/// The number of the canonical terminal mode.
pub const TERMINAL_MODE_CANONICAL: usize = 0;

/// The input side of a TTY: a reader announces that it waits in a mode, a
/// writer in the same mode fills the buffer and marks it ready, and the
/// reader takes the bytes.
pub struct TtyInput {
    pub buffer: VecDeque<u8>,
    pub state: TtyInputState,
    pub mode: usize,
}

/// The bytes that a read into a buffer of `len` bytes takes from `queue`.
pub open spec fn taken(queue: Seq<u8>, len: nat) -> Seq<u8> {
    if queue.len() <= len {
        queue
    } else {
        queue.take(len as int)
    }
}

impl TtyInput {
    pub fn new() -> (r: Self)
        ensures
            r.buffer@ == Seq::<u8>::empty(),
            r.state == TtyInputState::Idle,
            r.mode == TERMINAL_MODE_CANONICAL,
    {
        TtyInput { buffer: VecDeque::new(), state: TtyInputState::Idle, mode: TERMINAL_MODE_CANONICAL }
    }

    /// A reader announces that it waits for input in `mode`.
    pub fn begin_read(&mut self, mode: usize)
        ensures
            final(self).state == TtyInputState::Waiting,
            final(self).mode == mode,
            final(self).buffer@ == old(self).buffer@,
    {
        self.state = TtyInputState::Waiting;
        self.mode = mode;
    }

    /// Whether a writer has delivered input.
    pub fn is_ready(&self) -> (r: bool)
        ensures
            r == (self.state == TtyInputState::Ready),
    {
        match self.state {
            TtyInputState::Ready => true,
            _ => false,
        }
    }

    /// The reader takes as many buffered bytes as fit in `buffer` and the
    /// input becomes idle; returns the number of bytes taken.
    pub fn finish_read(&mut self, buffer: &mut Vec<u8>) -> (count: usize)
        ensures
            count == taken(old(self).buffer@, old(buffer).len() as nat).len(),
            final(buffer).len() == old(buffer).len(),
            final(buffer)@.take(count as int) == taken(old(self).buffer@, old(buffer).len() as nat),
            final(buffer)@.skip(count as int) == old(buffer)@.skip(count as int),
            final(self).buffer@ == old(self).buffer@.skip(count as int),
            final(self).state == TtyInputState::Idle,
            final(self).mode == old(self).mode,
    {
        let mut count: usize = 0;
        while count < buffer.len()
            invariant_except_break
                count <= buffer.len(),
                count <= old(self).buffer@.len(),
                buffer.len() == old(buffer).len(),
                buffer@.take(count as int) == old(self).buffer@.take(count as int),
                buffer@.skip(count as int) == old(buffer)@.skip(count as int),
                self.buffer@ == old(self).buffer@.skip(count as int),
                self.mode == old(self).mode,
            ensures
                count <= buffer.len(),
                count <= old(self).buffer@.len(),
                count == buffer.len() || count == old(self).buffer@.len(),
                buffer.len() == old(buffer).len(),
                buffer@.take(count as int) == old(self).buffer@.take(count as int),
                buffer@.skip(count as int) == old(buffer)@.skip(count as int),
                self.buffer@ == old(self).buffer@.skip(count as int),
                self.mode == old(self).mode,
            decreases buffer.len() - count,
        {
            match self.buffer.pop_front() {
                Some(byte) => {
                    let ghost before = buffer@;
                    buffer.set(count, byte);
                    assert(buffer@.take(count as int + 1) =~= before.take(count as int).push(byte));
                    assert(old(self).buffer@.take(count as int + 1) =~= old(self).buffer@.take(count as int).push(byte));
                    assert(buffer@.skip(count as int + 1) =~= before.skip(count as int + 1));
                    assert(before.skip(count as int + 1) =~= before.skip(count as int).skip(1));
                    assert(old(buffer)@.skip(count as int + 1) =~= old(buffer)@.skip(count as int).skip(1));
                    assert(self.buffer@ =~= old(self).buffer@.skip(count as int + 1));
                    count = count + 1;
                },
                None => {
                    break;
                },
            }
        }
        self.state = TtyInputState::Idle;
        proof {
            if old(self).buffer@.len() <= old(buffer).len() {
                assert(old(self).buffer@.take(count as int) =~= old(self).buffer@);
            }
        }
        count
    }

    /// A writer delivers `bytes` in `mode`: only to a waiting reader in the
    /// same mode. Returns the number of bytes delivered.
    pub fn write(&mut self, bytes: &[u8], mode: usize) -> (count: usize)
        ensures
            (old(self).state != TtyInputState::Waiting || old(self).mode != mode) ==> count == 0
                && final(self).buffer@ == old(self).buffer@ && final(self).state == old(self).state,
            (old(self).state == TtyInputState::Waiting && old(self).mode == mode) ==> count
                == bytes.len() && final(self).buffer@ == old(self).buffer@ + bytes@ && final(self).state
                == TtyInputState::Ready,
            final(self).mode == old(self).mode,
    {
        match self.state {
            TtyInputState::Waiting => {},
            _ => return 0,  // Abort, no more readers
        }
        if self.mode != mode {
            return 0;  // Abort, mismatched mode
        }
        let mut count: usize = 0;
        while count < bytes.len()
            invariant
                count <= bytes.len(),
                self.buffer@ == old(self).buffer@ + bytes@.take(count as int),
                self.mode == old(self).mode,
                self.state == old(self).state,
            decreases bytes.len() - count,
        {
            self.buffer.push_back(bytes[count]);
            assert(bytes@.take(count as int + 1) =~= bytes@.take(count as int).push(bytes@[count as int]));
            assert(old(self).buffer@ + bytes@.take(count as int + 1) =~= (old(self).buffer@ + bytes@.take(count as int)).push(bytes@[count as int]));
            count = count + 1;
        }
        assert(bytes@.take(count as int) =~= bytes@);
        self.state = TtyInputState::Ready;
        count
    }

    pub fn state(&self) -> (r: TtyInputState)
        ensures
            r == self.state,
    {
        self.state
    }

    pub fn mode(&self) -> (r: usize)
        ensures
            r == self.mode,
    {
        self.mode
    }
}

/// The output side of a TTY: a FIFO of bytes.
pub struct TtyOutput {
    pub buffer: VecDeque<u8>,
}

impl TtyOutput {
    pub fn new() -> (r: Self)
        ensures
            r.buffer@ == Seq::<u8>::empty(),
    {
        Self { buffer: VecDeque::new() }
    }

    /// Appends the bytes; returns their number.
    pub fn write(&mut self, bytes: &[u8]) -> (count: usize)
        ensures
            count == bytes.len(),
            final(self).buffer@ == old(self).buffer@ + bytes@,
    {
        let mut count: usize = 0;
        while count < bytes.len()
            invariant
                count <= bytes.len(),
                self.buffer@ == old(self).buffer@ + bytes@.take(count as int),
            decreases bytes.len() - count,
        {
            self.buffer.push_back(bytes[count]);
            assert(bytes@.take(count as int + 1) =~= bytes@.take(count as int).push(bytes@[count as int]));
            assert(old(self).buffer@ + bytes@.take(count as int + 1) =~= (old(self).buffer@ + bytes@.take(count as int)).push(bytes@[count as int]));
            count = count + 1;
        }
        assert(bytes@.take(count as int) =~= bytes@);
        count
    }

    /// Takes as many bytes as fit in `buffer`, oldest first; returns their
    /// number.
    pub fn read(&mut self, buffer: &mut Vec<u8>) -> (count: usize)
        ensures
            count == taken(old(self).buffer@, old(buffer).len() as nat).len(),
            final(buffer).len() == old(buffer).len(),
            final(buffer)@.take(count as int) == taken(old(self).buffer@, old(buffer).len() as nat),
            final(buffer)@.skip(count as int) == old(buffer)@.skip(count as int),
            final(self).buffer@ == old(self).buffer@.skip(count as int),
    {
        let mut count: usize = 0;
        while count < buffer.len()
            invariant_except_break
                count <= buffer.len(),
                count <= old(self).buffer@.len(),
                buffer.len() == old(buffer).len(),
                buffer@.take(count as int) == old(self).buffer@.take(count as int),
                buffer@.skip(count as int) == old(buffer)@.skip(count as int),
                self.buffer@ == old(self).buffer@.skip(count as int),
            ensures
                count <= buffer.len(),
                count <= old(self).buffer@.len(),
                count == buffer.len() || count == old(self).buffer@.len(),
                buffer.len() == old(buffer).len(),
                buffer@.take(count as int) == old(self).buffer@.take(count as int),
                buffer@.skip(count as int) == old(buffer)@.skip(count as int),
                self.buffer@ == old(self).buffer@.skip(count as int),
            decreases buffer.len() - count,
        {
            match self.buffer.pop_front() {
                Some(byte) => {
                    let ghost before = buffer@;
                    buffer.set(count, byte);
                    assert(buffer@.take(count as int + 1) =~= before.take(count as int).push(byte));
                    assert(old(self).buffer@.take(count as int + 1) =~= old(self).buffer@.take(count as int).push(byte));
                    assert(buffer@.skip(count as int + 1) =~= before.skip(count as int + 1));
                    assert(before.skip(count as int + 1) =~= before.skip(count as int).skip(1));
                    assert(old(buffer)@.skip(count as int + 1) =~= old(buffer)@.skip(count as int).skip(1));
                    assert(self.buffer@ =~= old(self).buffer@.skip(count as int + 1));
                    count = count + 1;
                },
                None => {
                    break;
                },
            }
        }
        proof {
            if old(self).buffer@.len() <= old(buffer).len() {
                assert(old(self).buffer@.take(count as int) =~= old(self).buffer@);
            }
        }
        count
    }
}

/// What the output gives back of a write: bytes written to an empty FIFO
/// are read back unchanged by a read with room for them, and the FIFO is
/// empty again.
pub proof fn lemma_write_then_read(written: Seq<u8>, len: nat)
    requires
        written.len() <= len,
    ensures
        taken(Seq::<u8>::empty() + written, len) == written,
        (Seq::<u8>::empty() + written).skip(written.len() as int) == Seq::<u8>::empty(),
{
    assert(Seq::<u8>::empty() + written =~= written);
    assert(written.skip(written.len() as int) =~= Seq::<u8>::empty());
}

} // verus!
