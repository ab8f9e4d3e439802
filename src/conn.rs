use vstd::prelude::*;
use crate::detect::{
    agrees, detect, lemma_class_depends_on_bytes_only, reads_of, step, ReadVersion, BUF_CAP,
    PREFACE_LEN,
};
use crate::rewind::{drain, lemma_rewind_round_trip, reads_use_up, Rewind};
use crate::version::{Unsupported, Version, Versions};

verus! {

/// Where a connection is in its life.
#[derive(Clone, Copy, Debug, PartialEq, Eq, Structural)]
pub enum Phase {
    /// Reading the first bytes to classify the protocol generation.
    Detecting,
    /// An engine for this generation owns the transport.
    Running(Version),
    /// The connection has completed.
    Done,
}

/// What the caller does after handing a read to a connection.
pub enum Step {
    /// Not classified yet: read again.
    Pending,
    /// Classified: build the engine for `version` over the transport, reading
    /// it through `io`, which first replays the bytes read so far.
    Serve { version: Version, io: Rewind },
    /// Classified as a generation without an engine: the connection has
    /// completed with this error.
    Failed(Unsupported),
}

/// The engine, if any, that a graceful shutdown in `phase` is forwarded to.
pub open spec fn shutdown_target(phase: Phase) -> Option<Version> {
    match phase {
        Phase::Running(v) => Some(v),
        _ => None,
    }
}

/// What a read of `data` on top of `prev` makes of a connection whose build
/// has engines for `versions`: the next phase, and the generation of the
/// engine to build or of the error to end with.
pub open spec fn transition(versions: Versions, prev: Seq<u8>, data: Seq<u8>) -> Phase {
    match step(prev, data) {
        None => Phase::Detecting,
        Some(v) => if versions.supports(v) {
            Phase::Running(v)
        } else {
            Phase::Done
        },
    }
}

/// `r` is the step that the caller is handed for a read of `data` on top of
/// `prev`.
pub open spec fn step_matches(r: Step, versions: Versions, prev: Seq<u8>, data: Seq<u8>) -> bool {
    match step(prev, data) {
        None => r is Pending,
        Some(v) => if versions.supports(v) {
            r matches Step::Serve { version, io } && version == v && io@ == prev + data
        } else {
            r == Step::Failed(Unsupported { version: v })
        },
    }
}

enum ConnState {
    ReadVersion { read_version: ReadVersion },
    H1,
    H2,
    Done,
}

impl ConnState {
    closed spec fn phase(&self) -> Phase {
        match self {
            ConnState::ReadVersion { .. } => Phase::Detecting,
            ConnState::H1 => Phase::Running(Version::H1),
            ConnState::H2 => Phase::Running(Version::H2),
            ConnState::Done => Phase::Done,
        }
    }

    closed spec fn received(&self) -> Seq<u8> {
        match self {
            ConnState::ReadVersion { read_version } => read_version@,
            _ => Seq::empty(),
        }
    }

    closed spec fn inv(&self) -> bool {
        match self {
            ConnState::ReadVersion { read_version } => read_version.pending(),
            _ => true,
        }
    }

    fn phase_exec(&self) -> (r: Phase)
        ensures
            r == self.phase(),
    {
        match self {
            ConnState::ReadVersion { .. } => Phase::Detecting,
            ConnState::H1 => Phase::Running(Version::H1),
            ConnState::H2 => Phase::Running(Version::H2),
            ConnState::Done => Phase::Done,
        }
    }

    fn read_capacity(&self) -> (r: usize)
        requires
            self.inv(),
            self.phase() == Phase::Detecting,
        ensures
            r == BUF_CAP - self.received().len(),
            r > BUF_CAP - PREFACE_LEN,
    {
        match self {
            ConnState::ReadVersion { read_version } => read_version.remaining(),
            _ => 0,
        }
    }

    fn on_read(&mut self, versions: Versions, data: &[u8]) -> (r: Step)
        requires
            old(self).inv(),
            old(self).phase() == Phase::Detecting,
            data@.len() <= BUF_CAP - old(self).received().len(),
        ensures
            final(self).inv(),
            final(self).phase() == transition(versions, old(self).received(), data@),
            final(self).phase() == Phase::Detecting
                ==> final(self).received() == old(self).received() + data@,
            step_matches(r, versions, old(self).received(), data@),
    {
        let ghost prev = self.received();
        let mut state = ConnState::Done;
        core::mem::swap(self, &mut state);
        match state {
            ConnState::ReadVersion { mut read_version } => {
                match read_version.on_read(data) {
                    None => {
                        proof {
                            assert(agrees(read_version@));
                        }
                        *self = ConnState::ReadVersion { read_version };
                        Step::Pending
                    },
                    Some(version) => {
                        let io = Rewind::new_buffered(read_version.into_bytes());
                        if versions.contains(version) {
                            *self = match version {
                                Version::H1 => ConnState::H1,
                                Version::H2 => ConnState::H2,
                            };
                            Step::Serve { version, io }
                        } else {
                            Step::Failed(version.unsupported())
                        }
                    },
                }
            },
            _ => Step::Pending,
        }
    }
}

/// Shutdown is asked of the engine running in `phase`; the connection itself is
/// left as it was.
pub open spec fn shutdown_effect<C>(c: C, phase: Phase) -> (C, Option<Version>) {
    (c, shutdown_target(phase))
}

/// A connection that serves HTTP/1 or HTTP/2, whichever its first bytes show.
pub struct Connection {
    state: ConnState,
    versions: Versions,
}

impl Connection {
    pub closed spec fn phase(&self) -> Phase {
        self.state.phase()
    }

    /// The bytes read while detecting.
    pub closed spec fn received(&self) -> Seq<u8> {
        self.state.received()
    }

    pub closed spec fn versions(&self) -> Versions {
        self.versions
    }

    pub closed spec fn inv(&self) -> bool {
        self.state.inv()
    }

    /// A connection about to read its first bytes, in a build with engines
    /// for `versions`.
    pub fn new(versions: Versions) -> (r: Connection)
        ensures
            r.inv(),
            r.phase() == Phase::Detecting,
            r.received() == Seq::<u8>::empty(),
            r.versions() == versions,
    {
        Connection { state: ConnState::ReadVersion { read_version: ReadVersion::new() }, versions }
    }

    pub fn state(&self) -> (r: Phase)
        ensures
            r == self.phase(),
    {
        self.state.phase_exec()
    }

    /// The most bytes the next read may hand over while detecting.
    pub fn read_capacity(&self) -> (r: usize)
        requires
            self.inv(),
            self.phase() == Phase::Detecting,
        ensures
            r == BUF_CAP - self.received().len(),
            r > BUF_CAP - PREFACE_LEN,
    {
        self.state.read_capacity()
    }

    /// Takes the bytes of one completed read of the transport (empty at end
    /// of stream) and moves on: keeps detecting, hands over the transport to
    /// an engine, or completes with an error.
    pub fn on_read(&mut self, data: &[u8]) -> (r: Step)
        requires
            old(self).inv(),
            old(self).phase() == Phase::Detecting,
            data@.len() <= BUF_CAP - old(self).received().len(),
        ensures
            final(self).inv(),
            final(self).versions() == old(self).versions(),
            final(self).phase() == transition(old(self).versions(), old(self).received(), data@),
            final(self).phase() == Phase::Detecting
                ==> final(self).received() == old(self).received() + data@,
            step_matches(r, old(self).versions(), old(self).received(), data@),
    {
        self.state.on_read(self.versions, data)
    }

    /// Start a graceful shutdown: says which running engine to forward it
    /// to; none while detecting or once completed.
    pub fn graceful_shutdown(&mut self) -> (r: Option<Version>)
        ensures
            (*final(self), r) == shutdown_effect(*old(self), old(self).phase()),
    {
        match self.state {
            ConnState::H1 => Some(Version::H1),
            ConnState::H2 => Some(Version::H2),
            _ => None,
        }
    }

    /// Marks the connection completed: its engine finished, or reading failed.
    pub fn complete(&mut self)
        ensures
            final(self).inv(),
            final(self).phase() == Phase::Done,
            final(self).versions() == old(self).versions(),
    {
        self.state = ConnState::Done;
    }
}

/// A connection that serves HTTP/1 or HTTP/2, whichever its first bytes show,
/// where the HTTP/1 engine may hand the transport on through an upgrade.
pub struct UpgradeableConnection {
    state: ConnState,
    versions: Versions,
}

impl UpgradeableConnection {
    pub closed spec fn phase(&self) -> Phase {
        self.state.phase()
    }

    /// The bytes read while detecting.
    pub closed spec fn received(&self) -> Seq<u8> {
        self.state.received()
    }

    pub closed spec fn versions(&self) -> Versions {
        self.versions
    }

    pub closed spec fn inv(&self) -> bool {
        self.state.inv()
    }

    /// A connection about to read its first bytes, in a build with engines
    /// for `versions`.
    pub fn new(versions: Versions) -> (r: UpgradeableConnection)
        ensures
            r.inv(),
            r.phase() == Phase::Detecting,
            r.received() == Seq::<u8>::empty(),
            r.versions() == versions,
    {
        UpgradeableConnection {
            state: ConnState::ReadVersion { read_version: ReadVersion::new() },
            versions,
        }
    }

    pub fn state(&self) -> (r: Phase)
        ensures
            r == self.phase(),
    {
        self.state.phase_exec()
    }

    /// The most bytes the next read may hand over while detecting.
    pub fn read_capacity(&self) -> (r: usize)
        requires
            self.inv(),
            self.phase() == Phase::Detecting,
        ensures
            r == BUF_CAP - self.received().len(),
            r > BUF_CAP - PREFACE_LEN,
    {
        self.state.read_capacity()
    }

    /// Takes the bytes of one completed read of the transport (empty at end
    /// of stream) and moves on: keeps detecting, hands over the transport to
    /// an engine, HTTP/1 with upgrades, or completes with an error.
    pub fn on_read(&mut self, data: &[u8]) -> (r: Step)
        requires
            old(self).inv(),
            old(self).phase() == Phase::Detecting,
            data@.len() <= BUF_CAP - old(self).received().len(),
        ensures
            final(self).inv(),
            final(self).versions() == old(self).versions(),
            final(self).phase() == transition(old(self).versions(), old(self).received(), data@),
            final(self).phase() == Phase::Detecting
                ==> final(self).received() == old(self).received() + data@,
            step_matches(r, old(self).versions(), old(self).received(), data@),
    {
        self.state.on_read(self.versions, data)
    }

    /// Start a graceful shutdown: says which running engine to forward it
    /// to; none while detecting or once completed.
    pub fn graceful_shutdown(&mut self) -> (r: Option<Version>)
        ensures
            (*final(self), r) == shutdown_effect(*old(self), old(self).phase()),
    {
        match self.state {
            ConnState::H1 => Some(Version::H1),
            ConnState::H2 => Some(Version::H2),
            _ => None,
        }
    }

    /// Marks the connection completed: its engine finished, or reading failed.
    pub fn complete(&mut self)
        ensures
            final(self).inv(),
            final(self).phase() == Phase::Done,
            final(self).versions() == old(self).versions(),
    {
        self.state = ConnState::Done;
    }
}

/// Asking a connection for a graceful shutdown twice has the effect of asking
/// once: the connection is left as it was, and the same engine is asked.
pub proof fn lemma_graceful_shutdown_idempotent(c: Connection)
    ensures
        ({
            let (once, first) = shutdown_effect(c, c.phase());
            let (twice, second) = shutdown_effect(once, once.phase());
            &&& twice == once
            &&& second == first
        }),
{
}

/// The same holds of a connection that supports upgrades.
pub proof fn lemma_upgradeable_graceful_shutdown_idempotent(c: UpgradeableConnection)
    ensures
        ({
            let (once, first) = shutdown_effect(c, c.phase());
            let (twice, second) = shutdown_effect(once, once.phase());
            &&& twice == once
            &&& second == first
        }),
{
}

/// Every byte that sniffing takes off a stream, over any reads of it, is
/// replayed exactly once and in order before the transport is read again:
/// whatever the engine's reads ask for, the bytes replayed, those still
/// pending, and then the rest of the transport make up the stream unchanged.
/// Once reads have used up the replay, the engine has seen the start of the
/// stream and goes on from the transport where sniffing stopped.
pub proof fn lemma_sniffed_stream_round_trip(
    stream: Seq<u8>,
    chunks: Seq<Seq<u8>>,
    caps: Seq<nat>,
)
    requires
        reads_of(stream, chunks),
        detect(Seq::empty(), chunks).1 is Some,
    ensures
        ({
            let sniffed = detect(Seq::empty(), chunks).0;
            let (served, left) = drain(sniffed, caps);
            &&& served + left + stream.skip(sniffed.len() as int) == stream
            &&& reads_use_up(sniffed, caps) ==> served + stream.skip(sniffed.len() as int) == stream
        }),
{
    lemma_class_depends_on_bytes_only(stream, chunks);
    let sniffed = detect(Seq::empty(), chunks).0;
    lemma_rewind_round_trip(stream, sniffed, caps);
    let (served, left) = drain(sniffed, caps);
    if reads_use_up(sniffed, caps) {
        assert(left =~= Seq::<u8>::empty());
        assert(served + left =~= served);
    }
}

} // verus!
