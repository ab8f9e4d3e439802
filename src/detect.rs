use vstd::prelude::*;
use crate::version::Version;

verus! {

/// Number of leading bytes compared against the preface.
pub const PREFACE_LEN: usize = 14;

/// Capacity of the detection buffer; one read may fill it past the preface.
pub const BUF_CAP: usize = 24;

/// The leading bytes of the HTTP/2 connection preface, `PRI * HTTP/2.0`.
pub open spec fn preface() -> Seq<u8> {
    seq![80u8, 82, 73, 32, 42, 32, 72, 84, 84, 80, 47, 50, 46, 48]
}

/// `s` matches the preface on every position both cover.
pub open spec fn agrees(s: Seq<u8>) -> bool {
    forall|i: int| 0 <= i < s.len() && i < PREFACE_LEN ==> s[i] == preface()[i]
}

/// `s` begins with the whole preface.
pub open spec fn is_modern(s: Seq<u8>) -> bool {
    s.len() >= PREFACE_LEN && agrees(s)
}

/// Classification after one read returned `data` on top of the bytes `prev`
/// already held: `None` while more bytes are needed.
pub open spec fn step(prev: Seq<u8>, data: Seq<u8>) -> Option<Version> {
    if data.len() == 0 {
        Some(Version::H1)
    } else if !agrees(prev + data) {
        Some(Version::H1)
    } else if (prev + data).len() >= PREFACE_LEN {
        Some(Version::H2)
    } else {
        None
    }
}

fn preface_bytes() -> (r: Vec<u8>)
    ensures
        r@ == preface(),
{
    let r: Vec<u8> = vec![80u8, 82, 73, 32, 42, 32, 72, 84, 84, 80, 47, 50, 46, 48];
    assert(r@ =~= preface());
    r
}

/// The in-flight sniffing of a connection: a fixed scratch buffer and how
/// much of it the reads so far have filled.
pub struct ReadVersion {
    buf: Vec<u8>,
    filled: usize,
}

impl View for ReadVersion {
    type V = Seq<u8>;

    /// The bytes read so far.
    closed spec fn view(&self) -> Seq<u8> {
        self.buf@.take(self.filled as int)
    }
}

impl ReadVersion {
    pub closed spec fn inv(&self) -> bool {
        &&& self.buf.len() == BUF_CAP
        &&& self.filled <= BUF_CAP
    }

    /// Still sniffing: fewer bytes than the preface, all of them matching it.
    pub open spec fn pending(&self) -> bool {
        &&& self.inv()
        &&& self@.len() < PREFACE_LEN
        &&& agrees(self@)
    }

    /// A detector that has read nothing yet.
    pub fn new() -> (r: ReadVersion)
        ensures
            r.pending(),
            r@ == Seq::<u8>::empty(),
    {
        let r = ReadVersion { buf: vec![0u8; BUF_CAP], filled: 0 };
        assert(r@ =~= Seq::<u8>::empty());
        r
    }

    /// How many bytes the next read may hand over.
    pub fn remaining(&self) -> (r: usize)
        requires
            self.inv(),
        ensures
            r == BUF_CAP - self@.len(),
    {
        BUF_CAP - self.filled
    }

    /// Takes the bytes of one completed read (empty at end of stream) and
    /// says whether the connection is now classified.
    pub fn on_read(&mut self, data: &[u8]) -> (r: Option<Version>)
        requires
            old(self).pending(),
            data@.len() <= BUF_CAP - old(self)@.len(),
        ensures
            final(self).inv(),
            final(self)@ == old(self)@ + data@,
            r == step(old(self)@, data@),
    {
        let len = self.filled;
        let ghost prev = self@;
        let mut i: usize = 0;
        while i < data.len()
            invariant
                self.buf.len() == BUF_CAP,
                self.filled == len,
                len + data@.len() <= BUF_CAP,
                i <= data@.len(),
                prev == self.buf@.take(len as int),
                prev == old(self)@,
                agrees(prev),
                prev.len() == len,
                forall|k: int| 0 <= k < i ==> self.buf@[len + k] == data@[k],
            decreases data@.len() - i,
        {
            self.buf.set(len + i, data[i]);
            i = i + 1;
        }
        self.filled = len + data.len();
        assert(self@ =~= prev + data@);
        if data.len() == 0 {
            return Some(Version::H1);
        }
        let pre = preface_bytes();
        let end: usize = if self.filled < PREFACE_LEN { self.filled } else { PREFACE_LEN };
        let mut j: usize = len;
        while j < end
            invariant
                self.inv(),
                self@ == prev + data@,
                len <= j <= end,
                end <= self.filled,
                end <= PREFACE_LEN,
                end == self.filled || end == PREFACE_LEN,
                pre@ == preface(),
                agrees(prev),
                prev.len() == len,
                prev == old(self)@,
                forall|k: int| 0 <= k < j ==> self@[k] == preface()[k],
            decreases end - j,
        {
            if self.buf[j] != pre[j] {
                assert(self@[j as int] != preface()[j as int]);
                return Some(Version::H1);
            }
            j = j + 1;
        }
        assert(agrees(self@));
        if self.filled >= PREFACE_LEN {
            Some(Version::H2)
        } else {
            None
        }
    }

    /// The bytes read while sniffing, as an owned sequence.
    pub fn into_bytes(self) -> (r: Vec<u8>)
        requires
            self.inv(),
        ensures
            r@ == self@,
    {
        let mut out: Vec<u8> = Vec::new();
        let mut i: usize = 0;
        while i < self.filled
            invariant
                self.inv(),
                i <= self.filled,
                out@ == self.buf@.take(i as int),
            decreases self.filled - i,
        {
            out.push(self.buf[i]);
            i = i + 1;
            assert(out@ =~= self.buf@.take(i as int));
        }
        out
    }
}

/// The bytes of `chunks`, in order.
pub open spec fn concat(chunks: Seq<Seq<u8>>) -> Seq<u8>
    decreases chunks.len(),
{
    if chunks.len() == 0 {
        Seq::empty()
    } else {
        chunks[0] + concat(chunks.drop_first())
    }
}

/// Sniffing driven by successive reads that return `chunks`, starting from
/// the bytes `prev`: the bytes held when it stops, and the classification,
/// `None` if the reads ran out first.
pub open spec fn detect(prev: Seq<u8>, chunks: Seq<Seq<u8>>) -> (Seq<u8>, Option<Version>)
    decreases chunks.len(),
{
    if chunks.len() == 0 {
        (prev, None)
    } else {
        match step(prev, chunks[0]) {
            Some(v) => (prev + chunks[0], Some(v)),
            None => detect(prev + chunks[0], chunks.drop_first()),
        }
    }
}

pub open spec fn all_nonempty(chunks: Seq<Seq<u8>>) -> bool {
    forall|i: int| 0 <= i < chunks.len() ==> chunks[i].len() > 0
}

pub open spec fn is_prefix(a: Seq<u8>, b: Seq<u8>) -> bool {
    a.len() <= b.len() && a == b.take(a.len() as int)
}

proof fn lemma_agrees_prefix(a: Seq<u8>, b: Seq<u8>)
    requires
        is_prefix(a, b),
        agrees(b),
    ensures
        agrees(a),
{
    assert forall|i: int| 0 <= i < a.len() && i < PREFACE_LEN implies a[i] == preface()[i] by {
        assert(a[i] == b[i]);
    }
}

/// What sniffing over reads that each return at least one byte yields, stated
/// over all the bytes those reads deliver.
proof fn lemma_detect(prev: Seq<u8>, chunks: Seq<Seq<u8>>)
    requires
        prev.len() < PREFACE_LEN,
        agrees(prev),
        all_nonempty(chunks),
    ensures
        ({
            let (r, o) = detect(prev, chunks);
            let all = prev + concat(chunks);
            &&& is_prefix(r, all)
            &&& prev.len() <= r.len()
            &&& o is None ==> r == all && all.len() < PREFACE_LEN && agrees(all)
            &&& o == Some(Version::H2) ==> is_modern(r)
            &&& o == Some(Version::H1) ==> !agrees(r)
        }),
    decreases chunks.len(),
{
    if chunks.len() == 0 {
        assert(prev + concat(chunks) =~= prev);
        assert(prev =~= prev.take(prev.len() as int));
    } else {
        let c = chunks[0];
        let rest = chunks.drop_first();
        let next = prev + c;
        let all = prev + concat(chunks);
        assert(all =~= next + concat(rest));
        assert(next =~= all.take(next.len() as int));
        assert(c.len() > 0);
        match step(prev, c) {
            Some(v) => {},
            None => {
                assert forall|i: int| 0 <= i < rest.len() implies rest[i].len() > 0 by {
                    assert(rest[i] == chunks[i + 1]);
                }
                lemma_detect(next, rest);
                let r = detect(next, rest).0;
                assert(r =~= all.take(r.len() as int));
            },
        }
    }
}

/// Bytes that begin with the preface are classified as HTTP/2 however the
/// reads split them, one byte at a time or all at once.
pub proof fn lemma_preface_detected_as_h2(stream: Seq<u8>, chunks: Seq<Seq<u8>>)
    requires
        is_modern(stream),
        all_nonempty(chunks),
        is_prefix(concat(chunks), stream),
        concat(chunks).len() >= PREFACE_LEN,
    ensures
        detect(Seq::empty(), chunks).1 == Some(Version::H2),
        is_prefix(detect(Seq::empty(), chunks).0, stream),
{
    let e = Seq::<u8>::empty();
    lemma_detect(e, chunks);
    let all = e + concat(chunks);
    assert(all =~= concat(chunks));
    lemma_agrees_prefix(all, stream);
    let r = detect(e, chunks).0;
    assert(r =~= stream.take(r.len() as int));
    lemma_agrees_prefix(r, all);
}

/// Bytes that leave the preface at position `k` are classified as HTTP/1,
/// and what sniffing read, the first `k + 1` bytes included, is the start of
/// the stream unchanged.
pub proof fn lemma_divergence_detected_as_h1(stream: Seq<u8>, k: int, chunks: Seq<Seq<u8>>)
    requires
        0 <= k < PREFACE_LEN,
        k < stream.len(),
        forall|i: int| 0 <= i < k ==> stream[i] == preface()[i],
        stream[k] != preface()[k],
        all_nonempty(chunks),
        is_prefix(concat(chunks), stream),
        concat(chunks).len() > k,
    ensures
        detect(Seq::empty(), chunks).1 == Some(Version::H1),
        is_prefix(detect(Seq::empty(), chunks).0, stream),
        detect(Seq::empty(), chunks).0.len() > k,
        detect(Seq::empty(), chunks).0.take(k + 1) == stream.take(k + 1),
{
    let e = Seq::<u8>::empty();
    lemma_detect(e, chunks);
    let all = e + concat(chunks);
    assert(all =~= concat(chunks));
    let (r, o) = detect(e, chunks);
    assert(r =~= stream.take(r.len() as int));
    assert(all[k] == stream[k]);
    assert(!agrees(all));
    if r.len() <= k {
        assert forall|i: int| 0 <= i < r.len() && i < PREFACE_LEN implies r[i] == preface()[i] by {
            assert(r[i] == stream[i]);
        }
        assert(agrees(r));
        assert(o != Some(Version::H1));
        assert(o is None ==> agrees(all));
        assert(o != Some(Version::H2));
        match o {
            Some(Version::H1) => {},
            Some(Version::H2) => {},
            None => {},
        }
    }
    assert(r.len() > k);
    assert(r[k] == stream[k]);
    assert(r.take(k + 1) =~= stream.take(k + 1));
}

/// A peer that sends part of the preface and then closes is classified as
/// HTTP/1, with every byte it sent kept.
pub proof fn lemma_short_close_detected_as_h1(sent: Seq<u8>, chunks: Seq<Seq<u8>>)
    requires
        sent.len() < PREFACE_LEN,
        agrees(sent),
        all_nonempty(chunks),
        concat(chunks) == sent,
    ensures
        detect(Seq::empty(), chunks.push(Seq::empty())) == (sent, Some(Version::H1)),
{
    lemma_short_close_from(Seq::empty(), chunks);
    assert(Seq::<u8>::empty() + sent =~= sent);
}

proof fn lemma_short_close_from(prev: Seq<u8>, chunks: Seq<Seq<u8>>)
    requires
        (prev + concat(chunks)).len() < PREFACE_LEN,
        agrees(prev + concat(chunks)),
        all_nonempty(chunks),
    ensures
        detect(prev, chunks.push(Seq::empty())) == (prev + concat(chunks), Some(Version::H1)),
    decreases chunks.len(),
{
    let all = prev + concat(chunks);
    let cs = chunks.push(Seq::empty());
    if chunks.len() == 0 {
        assert(all =~= prev);
        assert(cs[0] =~= Seq::<u8>::empty());
        assert(prev + cs[0] =~= prev);
    } else {
        let c = chunks[0];
        let rest = chunks.drop_first();
        assert(all =~= (prev + c) + concat(rest));
        assert(cs[0] == c);
        assert(cs.drop_first() =~= rest.push(Seq::empty()));
        assert(prev + c =~= all.take((prev + c).len() as int));
        lemma_agrees_prefix(prev + c, all);
        assert forall|i: int| 0 <= i < rest.len() implies rest[i].len() > 0 by {
            assert(rest[i] == chunks[i + 1]);
        }
        lemma_short_close_from(prev + c, rest);
    }
}

/// Reads that deliver `stream`: each returns at least one byte and together
/// they return the start of it; or, where the peer closed, they return all of
/// it and then end of stream.
pub open spec fn reads_of(stream: Seq<u8>, chunks: Seq<Seq<u8>>) -> bool {
    ||| all_nonempty(chunks) && is_prefix(concat(chunks), stream)
    ||| {
        &&& chunks.len() > 0
        &&& chunks.last().len() == 0
        &&& all_nonempty(chunks.drop_last())
        &&& concat(chunks.drop_last()) == stream
    }
}

/// The generation that the bytes of a connection show.
pub open spec fn classify(stream: Seq<u8>) -> Version {
    if is_modern(stream) {
        Version::H2
    } else {
        Version::H1
    }
}

proof fn lemma_detect_push(prev: Seq<u8>, chunks: Seq<Seq<u8>>, x: Seq<u8>)
    ensures
        detect(prev, chunks.push(x)) == (if detect(prev, chunks).1 is Some {
            detect(prev, chunks)
        } else {
            detect(detect(prev, chunks).0, seq![x])
        }),
    decreases chunks.len(),
{
    let cs = chunks.push(x);
    if chunks.len() == 0 {
        assert(cs =~= seq![x]);
    } else {
        assert(cs[0] == chunks[0]);
        assert(cs.drop_first() =~= chunks.drop_first().push(x));
        lemma_detect_push(prev + chunks[0], chunks.drop_first(), x);
    }
}

proof fn lemma_nonempty_reads(stream: Seq<u8>, chunks: Seq<Seq<u8>>)
    requires
        all_nonempty(chunks),
        is_prefix(concat(chunks), stream),
        detect(Seq::empty(), chunks).1 is Some,
    ensures
        detect(Seq::empty(), chunks).1 == Some(classify(stream)),
        is_prefix(detect(Seq::empty(), chunks).0, stream),
{
    let e = Seq::<u8>::empty();
    lemma_detect(e, chunks);
    let all = e + concat(chunks);
    assert(all =~= concat(chunks));
    let (r, o) = detect(e, chunks);
    assert(r =~= stream.take(r.len() as int));
    match o {
        Some(Version::H2) => {
            assert forall|i: int| 0 <= i < stream.len() && i < PREFACE_LEN implies stream[i]
                == preface()[i] by {
                assert(stream[i] == r[i]);
            }
        },
        Some(Version::H1) => {
            assert(!agrees(r));
            let i = choose|i: int| 0 <= i < r.len() && i < PREFACE_LEN && r[i] != preface()[i];
            assert(stream[i] == r[i]);
        },
        None => {},
    }
}

/// Sniffing that completes over any reads of a stream keeps the start of the
/// stream, and classifies it by its bytes alone.
pub proof fn lemma_class_depends_on_bytes_only(stream: Seq<u8>, chunks: Seq<Seq<u8>>)
    requires
        reads_of(stream, chunks),
        detect(Seq::empty(), chunks).1 is Some,
    ensures
        detect(Seq::empty(), chunks).1 == Some(classify(stream)),
        is_prefix(detect(Seq::empty(), chunks).0, stream),
{
    if all_nonempty(chunks) && is_prefix(concat(chunks), stream) {
        lemma_nonempty_reads(stream, chunks);
    } else {
        let e = Seq::<u8>::empty();
        let c = chunks.drop_last();
        assert(chunks =~= c.push(chunks.last()));
        lemma_detect_push(e, c, chunks.last());
        assert(concat(c) =~= stream.take(concat(c).len() as int));
        if detect(e, c).1 is Some {
            lemma_nonempty_reads(stream, c);
        } else {
            lemma_detect(e, c);
            let r = detect(e, c).0;
            assert(e + concat(c) =~= concat(c));
            assert(r + chunks.last() =~= r);
            assert(r =~= stream.take(r.len() as int));
        }
    }
}

/// However two sequences of reads split the same stream, one byte at a time
/// or all at once, sniffing classifies it the same.
pub proof fn lemma_chunking_does_not_matter(
    stream: Seq<u8>,
    chunks1: Seq<Seq<u8>>,
    chunks2: Seq<Seq<u8>>,
)
    requires
        reads_of(stream, chunks1),
        reads_of(stream, chunks2),
        detect(Seq::empty(), chunks1).1 is Some,
        detect(Seq::empty(), chunks2).1 is Some,
    ensures
        detect(Seq::empty(), chunks1).1 == detect(Seq::empty(), chunks2).1,
{
    lemma_class_depends_on_bytes_only(stream, chunks1);
    lemma_class_depends_on_bytes_only(stream, chunks2);
}

} // verus!
