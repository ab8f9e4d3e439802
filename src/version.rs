use vstd::prelude::*;

verus! {

/// The protocol generation that a connection speaks.
#[derive(Clone, Copy, Debug, PartialEq, Eq, Structural)]
pub enum Version {
    /// HTTP/1.x, the legacy generation.
    H1,
    /// HTTP/2, the modern, multiplexed generation.
    H2,
}

/// The generations for which this build can construct an engine.
#[derive(Clone, Copy, Debug, PartialEq, Eq, Structural)]
pub struct Versions {
    pub http1: bool,
    pub http2: bool,
}

impl Versions {
    pub open spec fn supports(self, v: Version) -> bool {
        match v {
            Version::H1 => self.http1,
            Version::H2 => self.http2,
        }
    }

    /// Both generations available.
    pub fn all() -> (r: Versions)
        ensures
            r.http1,
            r.http2,
    {
        Versions { http1: true, http2: true }
    }

    /// Whether an engine for `v` is available.
    pub fn contains(&self, v: Version) -> (r: bool)
        ensures
            r == self.supports(v),
    {
        match v {
            Version::H1 => self.http1,
            Version::H2 => self.http2,
        }
    }
}

/// The error with which a connection ends when it was classified as a
/// generation that this build has no engine for.
#[derive(Clone, Copy, Debug, PartialEq, Eq, Structural)]
pub struct Unsupported {
    pub version: Version,
}

pub open spec fn unsupported_message(v: Version) -> Seq<char> {
    match v {
        Version::H1 => "HTTP/1 is not supported"@,
        Version::H2 => "HTTP/2 is not supported"@,
    }
}

impl Unsupported {
    /// A description naming the generation that was required.
    pub fn message(&self) -> (r: &'static str)
        ensures
            r@ == unsupported_message(self.version),
    {
        match self.version {
            Version::H1 => {
                proof {
                    reveal_strlit("HTTP/1 is not supported");
                }
                "HTTP/1 is not supported"
            },
            Version::H2 => {
                proof {
                    reveal_strlit("HTTP/2 is not supported");
                }
                "HTTP/2 is not supported"
            },
        }
    }
}

impl Version {
    /// The error for a connection of this generation when no engine for it
    /// is available.
    #[must_use]
    pub fn unsupported(self) -> (r: Unsupported)
        ensures
            r.version == self,
    {
        Unsupported { version: self }
    }
}

} // verus!
