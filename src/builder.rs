use vstd::prelude::*;

verus! {

/// The smallest maximum buffer size an HTTP/1 connection accepts.
pub const MINIMUM_MAX_BUF_SIZE: usize = 8192;

/// The initial flow-control window that HTTP/2 itself specifies; turning
/// adaptive flow control on starts both windows from it.
pub const SPEC_WINDOW_SIZE: u32 = 65_535;

/// Options for HTTP/1 connections. Each is `None` until it is set, and the
/// engine's default applies.
#[derive(Clone, Debug)]
pub struct Http1Config {
    pub half_close: Option<bool>,
    pub keep_alive: Option<bool>,
    pub title_case_headers: Option<bool>,
    pub preserve_header_case: Option<bool>,
    pub header_read_timeout: Option<std::time::Duration>,
    pub writev: Option<bool>,
    pub max_buf_size: Option<usize>,
    pub pipeline_flush: Option<bool>,
}

/// Options for HTTP/2 connections. Each is `None` until it is set, and the
/// engine's default applies.
#[derive(Clone, Debug)]
pub struct Http2Config {
    pub initial_stream_window_size: Option<u32>,
    pub initial_connection_window_size: Option<u32>,
    pub adaptive_window: Option<bool>,
    pub max_frame_size: Option<u32>,
    pub max_concurrent_streams: Option<Option<u32>>,
    pub keep_alive_interval: Option<Option<std::time::Duration>>,
    pub keep_alive_timeout: Option<std::time::Duration>,
    pub max_send_buf_size: Option<usize>,
    pub enable_connect_protocol: bool,
    pub max_header_list_size: Option<u32>,
}

impl Http1Config {
    /// Nothing set.
    pub open spec fn unset() -> Http1Config {
        Http1Config {
            half_close: None,
            keep_alive: None,
            title_case_headers: None,
            preserve_header_case: None,
            header_read_timeout: None,
            writev: None,
            max_buf_size: None,
            pipeline_flush: None,
        }
    }

    /// Nothing set.
    pub fn new() -> (r: Http1Config)
        ensures
            r == Http1Config::unset(),
    {
        Http1Config {
            half_close: None,
            keep_alive: None,
            title_case_headers: None,
            preserve_header_case: None,
            header_read_timeout: None,
            writev: None,
            max_buf_size: None,
            pipeline_flush: None,
        }
    }
}

impl Http2Config {
    /// Nothing set.
    pub open spec fn unset() -> Http2Config {
        Http2Config {
            initial_stream_window_size: None,
            initial_connection_window_size: None,
            adaptive_window: None,
            max_frame_size: None,
            max_concurrent_streams: None,
            keep_alive_interval: None,
            keep_alive_timeout: None,
            max_send_buf_size: None,
            enable_connect_protocol: false,
            max_header_list_size: None,
        }
    }

    /// Nothing set.
    pub fn new() -> (r: Http2Config)
        ensures
            r == Http2Config::unset(),
    {
        Http2Config {
            initial_stream_window_size: None,
            initial_connection_window_size: None,
            adaptive_window: None,
            max_frame_size: None,
            max_concurrent_streams: None,
            keep_alive_interval: None,
            keep_alive_timeout: None,
            max_send_buf_size: None,
            enable_connect_protocol: false,
            max_header_list_size: None,
        }
    }
}

/// Configuration of the engines that connections are served with, one set of
/// options for each protocol generation, and the executor that HTTP/2 runs
/// its background work on.
#[derive(Clone, Debug)]
pub struct Builder<E> {
    pub http1: Http1Config,
    pub http2: Http2Config,
    pub executor: E,
}

impl<E> Builder<E> {
    /// A builder with every option left to the engines' defaults.
    pub fn new(executor: E) -> (r: Builder<E>)
        ensures
            r.http1 == Http1Config::unset(),
            r.http2 == Http2Config::unset(),
            r.executor == executor,
    {
        Builder { http1: Http1Config::new(), http2: Http2Config::new(), executor }
    }

    /// HTTP/1 configuration.
    pub fn http1(&mut self) -> (r: Http1Builder<'_, E>)
        ensures
            *r.inner == *old(self),
            *final(self) == *final(r.inner),
    {
        Http1Builder { inner: self }
    }

    /// HTTP/2 configuration.
    pub fn http2(&mut self) -> (r: Http2Builder<'_, E>)
        ensures
            *r.inner == *old(self),
            *final(self) == *final(r.inner),
    {
        Http2Builder { inner: self }
    }
}

/// The HTTP/1 part of a builder.
pub struct Http1Builder<'a, E> {
    pub inner: &'a mut Builder<E>,
}

impl<E> Http1Builder<'_, E> {
    /// HTTP/2 configuration of the same builder.
    pub fn http2(&mut self) -> (r: Http2Builder<'_, E>)
        ensures
            *r.inner == *old(self).inner,
            *final(self).inner == *final(r.inner),
    {
        Http2Builder { inner: self.inner }
    }

    /// Set whether HTTP/1 connections should support half-closures: with `true`
    /// an end of stream in the middle of a request does not close the connection
    /// at once. Default is `false`.
    pub fn half_close(&mut self, val: bool) -> (r: &mut Self)
        ensures
            r.inner.http1 == (Http1Config { half_close: Some(val), ..old(self).inner.http1 }),
            r.inner.http2 == old(self).inner.http2,
            r.inner.executor == old(self).inner.executor,
            *final(self) == *final(r),
    {
        self.inner.http1.half_close = Some(val);
        self
    }

    /// Enables or disables HTTP/1 keep-alive. Default is `true`.
    pub fn keep_alive(&mut self, val: bool) -> (r: &mut Self)
        ensures
            r.inner.http1 == (Http1Config { keep_alive: Some(val), ..old(self).inner.http1 }),
            r.inner.http2 == old(self).inner.http2,
            r.inner.executor == old(self).inner.executor,
            *final(self) == *final(r),
    {
        self.inner.http1.keep_alive = Some(val);
        self
    }

    /// Set whether HTTP/1 connections write header names in title case.
    /// Default is `false`.
    pub fn title_case_headers(&mut self, enabled: bool) -> (r: &mut Self)
        ensures
            r.inner.http1 == (Http1Config {
                title_case_headers: Some(enabled),
                ..old(self).inner.http1
            }),
            r.inner.http2 == old(self).inner.http2,
            r.inner.executor == old(self).inner.executor,
            *final(self) == *final(r),
    {
        self.inner.http1.title_case_headers = Some(enabled);
        self
    }

    /// Set whether the original case of header names is recorded and forwarded.
    /// Default is `false`.
    pub fn preserve_header_case(&mut self, enabled: bool) -> (r: &mut Self)
        ensures
            r.inner.http1 == (Http1Config {
                preserve_header_case: Some(enabled),
                ..old(self).inner.http1
            }),
            r.inner.http2 == old(self).inner.http2,
            r.inner.executor == old(self).inner.executor,
            *final(self) == *final(r),
    {
        self.inner.http1.preserve_header_case = Some(enabled);
        self
    }

    /// Set a timeout for reading request headers; a client that has not sent
    /// them all in time has its connection closed.
    pub fn header_read_timeout(&mut self, read_timeout: std::time::Duration) -> (r: &mut Self)
        ensures
            r.inner.http1 == (Http1Config {
                header_read_timeout: Some(read_timeout),
                ..old(self).inner.http1
            }),
            r.inner.http2 == old(self).inner.http2,
            r.inner.executor == old(self).inner.executor,
            *final(self) == *final(r),
    {
        self.inner.http1.header_read_timeout = Some(read_timeout);
        self
    }

    /// Set whether HTTP/1 connections use vectored writes or flatten into one
    /// buffer. By default the engine guesses.
    pub fn writev(&mut self, val: bool) -> (r: &mut Self)
        ensures
            r.inner.http1 == (Http1Config { writev: Some(val), ..old(self).inner.http1 }),
            r.inner.http2 == old(self).inner.http2,
            r.inner.executor == old(self).inner.executor,
            *final(self) == *final(r),
    {
        self.inner.http1.writev = Some(val);
        self
    }

    /// Set the maximum buffer size for the connection, at least
    /// `MINIMUM_MAX_BUF_SIZE`.
    pub fn max_buf_size(&mut self, max: usize) -> (r: &mut Self)
        requires
            max >= MINIMUM_MAX_BUF_SIZE,
        ensures
            r.inner.http1 == (Http1Config { max_buf_size: Some(max), ..old(self).inner.http1 }),
            r.inner.http2 == old(self).inner.http2,
            r.inner.executor == old(self).inner.executor,
            *final(self) == *final(r),
    {
        self.inner.http1.max_buf_size = Some(max);
        self
    }

    /// Aggregates flushes to better support pipelined responses. Default is
    /// `false`.
    pub fn pipeline_flush(&mut self, enabled: bool) -> (r: &mut Self)
        ensures
            r.inner.http1 == (Http1Config {
                pipeline_flush: Some(enabled),
                ..old(self).inner.http1
            }),
            r.inner.http2 == old(self).inner.http2,
            r.inner.executor == old(self).inner.executor,
            *final(self) == *final(r),
    {
        self.inner.http1.pipeline_flush = Some(enabled);
        self
    }
}

/// The HTTP/2 part of a builder.
pub struct Http2Builder<'a, E> {
    pub inner: &'a mut Builder<E>,
}

impl<E> Http2Builder<'_, E> {
    /// HTTP/1 configuration of the same builder.
    pub fn http1(&mut self) -> (r: Http1Builder<'_, E>)
        ensures
            *r.inner == *old(self).inner,
            *final(self).inner == *final(r.inner),
    {
        Http1Builder { inner: self.inner }
    }

    /// Sets the initial window size for stream-level flow control. Setting
    /// one turns adaptive flow control off; `None` does nothing.
    pub fn initial_stream_window_size(&mut self, sz: Option<u32>) -> (r: &mut Self)
        ensures
            r.inner.http2 == (match sz {
                Some(n) => Http2Config {
                    initial_stream_window_size: Some(n),
                    adaptive_window: Some(false),
                    ..old(self).inner.http2
                },
                None => old(self).inner.http2,
            }),
            r.inner.http1 == old(self).inner.http1,
            r.inner.executor == old(self).inner.executor,
            *final(self) == *final(r),
    {
        if let Some(n) = sz {
            self.inner.http2.initial_stream_window_size = Some(n);
            self.inner.http2.adaptive_window = Some(false);
        }
        self
    }

    /// Sets the initial window size for connection-level flow control.
    /// Setting one turns adaptive flow control off; `None` does nothing.
    pub fn initial_connection_window_size(&mut self, sz: Option<u32>) -> (r: &mut Self)
        ensures
            r.inner.http2 == (match sz {
                Some(n) => Http2Config {
                    initial_connection_window_size: Some(n),
                    adaptive_window: Some(false),
                    ..old(self).inner.http2
                },
                None => old(self).inner.http2,
            }),
            r.inner.http1 == old(self).inner.http1,
            r.inner.executor == old(self).inner.executor,
            *final(self) == *final(r),
    {
        if let Some(n) = sz {
            self.inner.http2.initial_connection_window_size = Some(n);
            self.inner.http2.adaptive_window = Some(false);
        }
        self
    }

    /// Sets whether flow control adapts its windows. Enabling it overrides
    /// the window sizes set before: both start from `SPEC_WINDOW_SIZE`, and
    /// stay there if it is disabled again.
    pub fn adaptive_window(&mut self, enabled: bool) -> (r: &mut Self)
        ensures
            r.inner.http2 == (if enabled {
                Http2Config {
                    adaptive_window: Some(true),
                    initial_stream_window_size: Some(SPEC_WINDOW_SIZE),
                    initial_connection_window_size: Some(SPEC_WINDOW_SIZE),
                    ..old(self).inner.http2
                }
            } else {
                Http2Config { adaptive_window: Some(false), ..old(self).inner.http2 }
            }),
            r.inner.http1 == old(self).inner.http1,
            r.inner.executor == old(self).inner.executor,
            *final(self) == *final(r),
    {
        self.inner.http2.adaptive_window = Some(enabled);
        if enabled {
            self.inner.http2.initial_stream_window_size = Some(SPEC_WINDOW_SIZE);
            self.inner.http2.initial_connection_window_size = Some(SPEC_WINDOW_SIZE);
        }
        self
    }

    /// Sets the maximum frame size; `None` does nothing.
    pub fn max_frame_size(&mut self, sz: Option<u32>) -> (r: &mut Self)
        ensures
            r.inner.http2 == (match sz {
                Some(n) => Http2Config { max_frame_size: Some(n), ..old(self).inner.http2 },
                None => old(self).inner.http2,
            }),
            r.inner.http1 == old(self).inner.http1,
            r.inner.executor == old(self).inner.executor,
            *final(self) == *final(r),
    {
        if let Some(n) = sz {
            self.inner.http2.max_frame_size = Some(n);
        }
        self
    }

    /// Sets the most streams a peer may open at once; `None` removes the
    /// limit.
    pub fn max_concurrent_streams(&mut self, max: Option<u32>) -> (r: &mut Self)
        ensures
            r.inner.http2 == (Http2Config {
                max_concurrent_streams: Some(max),
                ..old(self).inner.http2
            }),
            r.inner.http1 == old(self).inner.http1,
            r.inner.executor == old(self).inner.executor,
            *final(self) == *final(r),
    {
        self.inner.http2.max_concurrent_streams = Some(max);
        self
    }

    /// Sets the interval between keep-alive pings; `None` disables them.
    pub fn keep_alive_interval(&mut self, interval: Option<std::time::Duration>) -> (r: &mut Self)
        ensures
            r.inner.http2 == (Http2Config {
                keep_alive_interval: Some(interval),
                ..old(self).inner.http2
            }),
            r.inner.http1 == old(self).inner.http1,
            r.inner.executor == old(self).inner.executor,
            *final(self) == *final(r),
    {
        self.inner.http2.keep_alive_interval = Some(interval);
        self
    }

    /// Sets how long to wait for a keep-alive ping to be acknowledged before
    /// the connection is closed.
    pub fn keep_alive_timeout(&mut self, timeout: std::time::Duration) -> (r: &mut Self)
        ensures
            r.inner.http2 == (Http2Config {
                keep_alive_timeout: Some(timeout),
                ..old(self).inner.http2
            }),
            r.inner.http1 == old(self).inner.http1,
            r.inner.executor == old(self).inner.executor,
            *final(self) == *final(r),
    {
        self.inner.http2.keep_alive_timeout = Some(timeout);
        self
    }

    /// Sets the maximum write buffer size of each stream, at most `u32::MAX`.
    pub fn max_send_buf_size(&mut self, max: usize) -> (r: &mut Self)
        requires
            max <= u32::MAX,
        ensures
            r.inner.http2 == (Http2Config {
                max_send_buf_size: Some(max),
                ..old(self).inner.http2
            }),
            r.inner.http1 == old(self).inner.http1,
            r.inner.executor == old(self).inner.executor,
            *final(self) == *final(r),
    {
        self.inner.http2.max_send_buf_size = Some(max);
        self
    }

    /// Enables the extended CONNECT protocol.
    pub fn enable_connect_protocol(&mut self) -> (r: &mut Self)
        ensures
            r.inner.http2 == (Http2Config {
                enable_connect_protocol: true,
                ..old(self).inner.http2
            }),
            r.inner.http1 == old(self).inner.http1,
            r.inner.executor == old(self).inner.executor,
            *final(self) == *final(r),
    {
        self.inner.http2.enable_connect_protocol = true;
        self
    }

    /// Sets the maximum size of received header lists.
    pub fn max_header_list_size(&mut self, max: u32) -> (r: &mut Self)
        ensures
            r.inner.http2 == (Http2Config {
                max_header_list_size: Some(max),
                ..old(self).inner.http2
            }),
            r.inner.http1 == old(self).inner.http1,
            r.inner.executor == old(self).inner.executor,
            *final(self) == *final(r),
    {
        self.inner.http2.max_header_list_size = Some(max);
        self
    }
}

} // verus!
