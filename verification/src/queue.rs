//! Bytes on their way to the pty, held in `bytes::Bytes` buffers.
use vstd::prelude::*;

verus! {

/// An immutable byte buffer.
#[verifier::external_type_specification]
#[verifier::external_body]
pub struct ExBytes(bytes::Bytes);

/// The bytes that a buffer holds.
pub uninterp spec fn bytes_of(b: bytes::Bytes) -> Seq<u8>;

/// `Bytes::from(Vec<u8>)` takes the vector over without changing its contents.
#[verifier::external_body]
pub(crate) fn bytes_from(v: Vec<u8>) -> (b: bytes::Bytes)
    ensures
        bytes_of(b) == v@,
{
    bytes::Bytes::from(v)
}

/// `Bytes::len` is the number of bytes in the buffer.
#[verifier::external_body]
pub(crate) fn bytes_len(b: &bytes::Bytes) -> (n: usize)
    ensures
        n == bytes_of(*b).len(),
{
    b.len()
}

/// `Bytes::slice` over `from..` holds what follows the first `from` bytes.
#[verifier::external_body]
pub(crate) fn bytes_from_index(b: &bytes::Bytes, from: usize) -> (rest: bytes::Bytes)
    requires
        from <= bytes_of(*b).len(),
    ensures
        bytes_of(rest) == bytes_of(*b).skip(from as int),
{
    b.slice(from..)
}

/// Keystrokes that still have to be written to the pty: a buffer and how much
/// of it has been written.
pub struct StdinQueue {
    buf: Option<(bytes::Bytes, usize)>,
}

impl View for StdinQueue {
    type V = Seq<u8>;

    /// The bytes that have not been written yet.
    closed spec fn view(&self) -> Seq<u8> {
        match self.buf {
            Some((b, n)) => bytes_of(b).skip(n as int),
            None => Seq::empty(),
        }
    }
}

impl StdinQueue {
    /// A buffer is held only while some of it is unwritten.
    pub closed spec fn wf(&self) -> bool {
        match self.buf {
            Some((b, n)) => n < bytes_of(b).len(),
            None => true,
        }
    }

    /// The queue with nothing to write.
    pub fn empty() -> (q: Self)
        ensures
            q.wf(),
            q@.len() == 0,
    {
        StdinQueue { buf: None }
    }

    /// Whether nothing waits to be written.
    pub fn is_empty(&self) -> (yes: bool)
        requires
            self.wf(),
        ensures
            yes == (self@.len() == 0),
    {
        self.buf.is_none()
    }

    /// Queues `bytes` in place of whatever waited; an empty run changes
    /// nothing.
    pub fn put(&mut self, bytes: Vec<u8>)
        requires
            old(self).wf(),
        ensures
            final(self).wf(),
            final(self)@ == (if bytes@.len() > 0 {
                bytes@
            } else {
                old(self)@
            }),
    {
        if bytes.len() > 0 {
            let ghost all = bytes@;
            self.buf = Some((bytes_from(bytes), 0));
            assert(all.skip(0) =~= all);
        }
    }

    /// What has to be written next.
    pub fn unwritten(&self) -> (rest: Option<bytes::Bytes>)
        requires
            self.wf(),
        ensures
            rest is None <==> self@.len() == 0,
            rest is Some ==> bytes_of(rest->0) == self@,
    {
        match &self.buf {
            Some(pair) => Some(bytes_from_index(&pair.0, pair.1)),
            None => None,
        }
    }

    /// Notes that the first `n` unwritten bytes have reached the pty.
    pub fn wrote(&mut self, n: usize)
        requires
            old(self).wf(),
            n <= old(self)@.len(),
        ensures
            final(self).wf(),
            final(self)@ == old(self)@.skip(n as int),
    {
        let mut buf: Option<(bytes::Bytes, usize)> = None;
        std::mem::swap(&mut buf, &mut self.buf);
        match buf {
            Some((b, done)) => {
                let len = bytes_len(&b);
                if n == len - done {
                    assert(bytes_of(b).skip(done as int).skip(n as int) =~= Seq::<u8>::empty());
                } else {
                    assert(bytes_of(b).skip(done as int).skip(n as int) =~= bytes_of(b).skip(
                        done + n,
                    ));
                    self.buf = Some((b, done + n));
                }
            },
            None => {
                assert(Seq::<u8>::empty().skip(n as int) =~= Seq::<u8>::empty());
            },
        }
    }
}

/// What is queued waits until it is written, from its front, and is handed out
/// as it waits. An empty run of bytes takes nothing's place.
pub proof fn law_bytes_wait_until_they_are_written(
    q: &StdinQueue,
    bytes: Vec<u8>,
    n: usize,
    rest: Option<bytes::Bytes>,
    idle: bool,
    fresh: StdinQueue,
)
    requires
        q.wf(),
        call_ensures(StdinQueue::unwritten, (q,), rest),
        call_ensures(StdinQueue::is_empty, (q,), idle),
        call_ensures(StdinQueue::empty, (), fresh),
    ensures
        fresh@.len() == 0,
        idle <==> q@.len() == 0,
        rest is None <==> q@.len() == 0,
        rest is Some ==> bytes_of(rest->0) == q@,
        forall|m: &mut StdinQueue| #[trigger]
            call_ensures(StdinQueue::put, (m, bytes), ()) ==> {
                &&& bytes@.len() > 0 ==> final(m)@ == bytes@
                &&& bytes@.len() == 0 ==> final(m)@ == m@
            },
        forall|m: &mut StdinQueue| #[trigger]
            call_ensures(StdinQueue::wrote, (m, n), ()) && n <= m@.len() ==> m@ == m@.take(
                n as int,
            ) + final(m)@,
{
    assert forall|m: &mut StdinQueue| #[trigger]
        call_ensures(StdinQueue::wrote, (m, n), ()) && n <= m@.len() implies m@ == m@.take(
        n as int,
    ) + final(m)@ by {
        assert(m@ =~= m@.take(n as int) + m@.skip(n as int));
    }
}

} // verus!
