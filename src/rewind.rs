use vstd::prelude::*;

verus! {

#[verifier::external_type_specification]
#[verifier::external_body]
pub struct ExBytes(bytes::Bytes);

/// The bytes a `bytes::Bytes` holds.
pub uninterp spec fn bytes_view(b: bytes::Bytes) -> Seq<u8>;

/// Relies on `impl From<Vec<u8>> for Bytes`: the vector's bytes, taken over.
#[verifier::external_body]
fn bytes_from_vec(v: Vec<u8>) -> (r: bytes::Bytes)
    ensures
        bytes_view(r) == v@,
{
    bytes::Bytes::from(v)
}

/// Relies on `Bytes::len`: the number of bytes held.
#[verifier::external_body]
fn bytes_len(b: &bytes::Bytes) -> (r: usize)
    ensures
        r == bytes_view(*b).len(),
{
    b.len()
}

/// Relies on `Bytes` dereferencing to its bytes: a copy of the first `n`.
#[verifier::external_body]
fn bytes_copy_prefix(b: &bytes::Bytes, n: usize) -> (r: Vec<u8>)
    requires
        n <= bytes_view(*b).len(),
    ensures
        r@ == bytes_view(*b).take(n as int),
{
    b[..n].to_vec()
}

/// Relies on `Buf::advance` for `Bytes`: drops the first `n` bytes; it
/// panics past the end.
#[verifier::external_body]
fn bytes_advance(b: &mut bytes::Bytes, n: usize)
    requires
        n <= bytes_view(*old(b)).len(),
    ensures
        bytes_view(*final(b)) == bytes_view(*old(b)).skip(n as int),
{
    bytes::Buf::advance(b, n)
}

/// Bytes already taken off a transport, kept to be read again before
/// anything new is read from it.
pub struct Rewind {
    pre: Option<bytes::Bytes>,
}

impl View for Rewind {
    type V = Seq<u8>;

    /// The bytes still waiting to be replayed.
    closed spec fn view(&self) -> Seq<u8> {
        match self.pre {
            Some(b) => bytes_view(b),
            None => Seq::empty(),
        }
    }
}

/// What one read through a rewind buffer holding `pending` serves from it, and
/// what stays pending; `None` when the read goes to the transport.
pub open spec fn buffered_read(pending: Seq<u8>, capacity: nat) -> Option<(Seq<u8>, Seq<u8>)> {
    if pending.len() == 0 {
        None
    } else {
        let n = if capacity < pending.len() { capacity as int } else { pending.len() as int };
        Some((pending.take(n), pending.skip(n)))
    }
}

impl Rewind {
    /// Nothing to replay: every read goes to the transport.
    pub fn new() -> (r: Rewind)
        ensures
            r@ == Seq::<u8>::empty(),
    {
        Rewind { pre: None }
    }

    /// Replays `buf` before the transport's own bytes.
    pub fn new_buffered(buf: Vec<u8>) -> (r: Rewind)
        ensures
            r@ == buf@,
    {
        Rewind { pre: Some(bytes_from_vec(buf)) }
    }

    /// Serves a read of at most `capacity` bytes from the pending bytes.
    /// `None` once they are gone: the read goes to the transport, and so does
    /// every later one.
    pub fn read_buffered(&mut self, capacity: usize) -> (r: Option<Vec<u8>>)
        ensures
            match buffered_read(old(self)@, capacity as nat) {
                None => r is None && final(self)@ == Seq::<u8>::empty(),
                Some((served, rest)) => r matches Some(v) && v@ == served && final(self)@ == rest,
            },
    {
        match self.pre.take() {
            Some(mut prefix) => {
                let len = bytes_len(&prefix);
                if len == 0 {
                    return None;
                }
                let n = if capacity < len { capacity } else { len };
                let out = bytes_copy_prefix(&prefix, n);
                bytes_advance(&mut prefix, n);
                if bytes_len(&prefix) != 0 {
                    self.pre = Some(prefix);
                }
                Some(out)
            },
            None => None,
        }
    }
}

/// Reads of the given capacities through a rewind buffer holding `pending`:
/// the bytes served from it, in order, and those still pending after.
pub open spec fn drain(pending: Seq<u8>, caps: Seq<nat>) -> (Seq<u8>, Seq<u8>)
    decreases caps.len(),
{
    if caps.len() == 0 {
        (Seq::empty(), pending)
    } else {
        match buffered_read(pending, caps[0]) {
            None => (Seq::empty(), pending),
            Some((served, rest)) => {
                let (more, left) = drain(rest, caps.drop_first());
                (served + more, left)
            },
        }
    }
}

/// At least as many reads as bytes pending, each asking for at least one.
pub open spec fn reads_use_up(pending: Seq<u8>, caps: Seq<nat>) -> bool {
    &&& caps.len() >= pending.len()
    &&& forall|i: int| 0 <= i < caps.len() ==> caps[i] > 0
}

/// Reads through a rewind buffer primed with what sniffing took from a stream
/// see that stream unchanged: the replayed bytes, then the bytes still
/// pending, then the rest of the stream from the transport. Reads that each
/// ask for at least one byte, as many as there were bytes to replay, use up
/// the buffer.
pub proof fn lemma_rewind_round_trip(stream: Seq<u8>, pending: Seq<u8>, caps: Seq<nat>)
    requires
        pending.len() <= stream.len(),
        pending == stream.take(pending.len() as int),
    ensures
        ({
            let (served, left) = drain(pending, caps);
            &&& served + left == pending
            &&& served + left + stream.skip(pending.len() as int) == stream
            &&& reads_use_up(pending, caps) ==> left.len() == 0
        }),
{
    lemma_drain(pending, caps);
    let (served, left) = drain(pending, caps);
    assert(served + left + stream.skip(pending.len() as int) =~= stream);
}

proof fn lemma_drain(pending: Seq<u8>, caps: Seq<nat>)
    ensures
        ({
            let (served, left) = drain(pending, caps);
            &&& served + left == pending
            &&& reads_use_up(pending, caps) ==> left.len() == 0
        }),
    decreases caps.len(),
{
    if caps.len() == 0 {
        assert(Seq::<u8>::empty() + pending =~= pending);
    } else {
        match buffered_read(pending, caps[0]) {
            None => {
                assert(Seq::<u8>::empty() + pending =~= pending);
            },
            Some((served, rest)) => {
                let tail = caps.drop_first();
                lemma_drain(rest, tail);
                let (more, left) = drain(rest, tail);
                assert(served + more + left =~= served + (more + left));
                assert(served + rest =~= pending);
                if reads_use_up(pending, caps) {
                    assert(caps[0] > 0);
                    assert forall|i: int| 0 <= i < tail.len() implies tail[i] > 0 by {
                        assert(tail[i] == caps[i + 1]);
                    }
                }
            },
        }
    }
}

} // verus!
