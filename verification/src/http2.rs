//! HTTP/2 connection settings and the client side of a connection.

use vstd::prelude::*;
use std::sync::Arc;

verus! {

/// One of the four request pseudo-headers.
#[derive(Clone, Copy, Debug, PartialEq, Eq, Structural)]
pub enum PseudoOrder {
    Method,
    Scheme,
    Authority,
    Path,
}

/// One parameter of a `SETTINGS` frame.
#[derive(Clone, Copy, Debug, PartialEq, Eq, Structural)]
pub enum SettingsOrder {
    HeaderTableSize,
    EnablePush,
    MaxConcurrentStreams,
    InitialWindowSize,
    MaxFrameSize,
    MaxHeaderListSize,
    UnknownSetting8,
    UnknownSetting9,
}

/// The priority that a `HEADERS` frame declares.
#[derive(Clone, Copy, Debug, PartialEq, Eq, Structural)]
pub struct StreamDependency {
    /// The stream this one depends on.
    pub dependency_id: u32,
    /// The weight.
    pub weight: u8,
    /// Whether the dependency is exclusive.
    pub is_exclusive: bool,
}

/// The HTTP/2 knobs of a profile.
#[derive(Clone, Copy, Debug)]
pub struct Http2Config {
    pub initial_stream_window_size: Option<u32>,
    pub initial_connection_window_size: Option<u32>,
    pub max_concurrent_streams: Option<u32>,
    pub max_header_list_size: Option<u32>,
    pub header_table_size: Option<u32>,
    pub max_frame_size: Option<u32>,
    pub enable_push: Option<bool>,
    pub unknown_setting8: Option<bool>,
    pub unknown_setting9: Option<bool>,
    pub headers_priority: Option<StreamDependency>,
    pub headers_pseudo_order: Option<[PseudoOrder; 4]>,
    pub settings_order: Option<[SettingsOrder; 8]>,
}

impl Default for Http2Config {
    /// Nothing declared: the protocol's own defaults apply.
    fn default() -> (config: Http2Config)
        ensures
            config == Http2Config::unset(),
    {
        Http2Config {
            initial_stream_window_size: None,
            initial_connection_window_size: None,
            max_concurrent_streams: None,
            max_header_list_size: None,
            header_table_size: None,
            max_frame_size: None,
            enable_push: None,
            unknown_setting8: None,
            unknown_setting9: None,
            headers_priority: None,
            headers_pseudo_order: None,
            settings_order: None,
        }
    }
}

impl Http2Config {
    /// The configuration that declares nothing.
    pub open spec fn unset() -> Http2Config {
        Http2Config {
            initial_stream_window_size: None,
            initial_connection_window_size: None,
            max_concurrent_streams: None,
            max_header_list_size: None,
            header_table_size: None,
            max_frame_size: None,
            enable_push: None,
            unknown_setting8: None,
            unknown_setting9: None,
            headers_priority: None,
            headers_pseudo_order: None,
            settings_order: None,
        }
    }
}

/// A source of timers for keep-alive and deadlines.
pub trait Timer: Send + Sync {
}

/// The timers a connection uses.
pub struct Time {
    /// The source of timers; without one the connection uses none.
    pub source: Option<Arc<dyn Timer>>,
}

impl Time {
    /// No timers.
    pub fn empty() -> (time: Time)
        ensures
            time.source is None,
    {
        Time { source: None }
    }
}

/// Configures HTTP/2 connections before they are opened.
pub struct Builder<Ex> {
    pub executor: Ex,
    pub timer: Time,
    pub h2_builder: Http2Config,
}

impl<Ex> Builder<Ex> where Ex: Clone {
    /// A builder whose connections run their tasks on `executor`, use no
    /// timers and declare no settings.
    pub fn new(executor: Ex) -> (builder: Builder<Ex>)
        ensures
            builder.executor == executor,
            builder.timer.source is None,
            builder.h2_builder == Http2Config::unset(),
    {
        Builder { executor, timer: Time::empty(), h2_builder: Http2Config::default() }
    }

    /// Makes the connections use the timers of `timer`. The rest of the
    /// builder stays as it is.
    pub fn timer(&mut self, timer: Time) -> (builder: &mut Builder<Ex>)
        ensures
            builder.timer == timer,
            builder.executor == old(self).executor,
            builder.h2_builder == old(self).h2_builder,
            *final(self) == *final(builder),
    {
        self.timer = timer;
        self
    }

    /// Makes the connections declare the settings of `config`. The rest of
    /// the builder stays as it is.
    pub fn config(&mut self, config: Http2Config) -> (builder: &mut Builder<Ex>)
        ensures
            builder.h2_builder == config,
            builder.executor == old(self).executor,
            builder.timer == old(self).timer,
            *final(self) == *final(builder),
    {
        self.h2_builder = config;
        self
    }

    /// What a handshake on this builder opens: the sending half and the
    /// connection, which declares the builder's settings. `peer_extended`
    /// says whether the peer's settings enable the extended CONNECT
    /// protocol.
    pub fn handshake(&self, peer_extended: bool) -> (opened: (SendRequest, Connection))
        ensures
            opened.0.state() == DispatchState::Ready,
            opened.1.settings() == self.h2_builder,
            opened.1.extended_connect() == peer_extended,
    {
        (
            SendRequest { dispatch: DispatchState::Ready },
            Connection { settings: self.h2_builder, extended_connect: peer_extended },
        )
    }
}

/// The state of the channel between a sending half and its connection.
#[derive(Clone, Copy, Debug, PartialEq, Eq, Structural)]
pub enum DispatchState {
    /// The connection takes a request.
    Ready,
    /// The connection has not asked for the next request yet.
    Busy,
    /// The connection is gone.
    Closed,
}

/// Why a request was not sent.
#[derive(Clone, Copy, Debug, PartialEq, Eq, Structural)]
pub enum SendError {
    /// The connection is gone.
    Closed,
    /// The connection was not ready; the request was not sent.
    Canceled,
}

/// A request that was not sent, with the reason.
#[derive(Debug)]
pub struct TrySendError<R> {
    pub error: SendError,
    pub message: Option<R>,
}

/// The sending half of a connection.
#[derive(Clone, Copy, Debug)]
pub struct SendRequest {
    dispatch: DispatchState,
}

impl SendRequest {
    /// The state of the channel to the connection.
    pub closed spec fn state(&self) -> DispatchState {
        self.dispatch
    }

    /// A sending half whose channel is in the given state.
    pub fn new(state: DispatchState) -> (sender: SendRequest)
        ensures
            sender.state() == state,
    {
        SendRequest { dispatch: state }
    }

    /// Records the state of the channel as the connection reports it.
    pub fn set_state(&mut self, state: DispatchState)
        ensures
            final(self).state() == state,
    {
        self.dispatch = state;
    }

    /// Whether the connection can be used at all: fails once it is gone.
    pub fn poll_ready(&mut self) -> (ready: Result<(), SendError>)
        ensures
            final(self).state() == old(self).state(),
            old(self).state() == DispatchState::Closed ==> ready == Err::<(), SendError>(
                SendError::Closed,
            ),
            old(self).state() != DispatchState::Closed ==> ready is Ok,
    {
        if self.is_closed() {
            Err(SendError::Closed)
        } else {
            Ok(())
        }
    }

    /// Whether the connection can be used at all.
    pub fn ready(&mut self) -> (ready: Result<(), SendError>)
        ensures
            final(self).state() == old(self).state(),
            old(self).state() == DispatchState::Closed ==> ready == Err::<(), SendError>(
                SendError::Closed,
            ),
            old(self).state() != DispatchState::Closed ==> ready is Ok,
    {
        self.poll_ready()
    }

    /// Whether the connection takes a request now.
    pub fn is_ready(&self) -> (b: bool)
        ensures
            b == (self.state() == DispatchState::Ready),
    {
        self.dispatch == DispatchState::Ready
    }

    /// Whether the connection is gone.
    pub fn is_closed(&self) -> (b: bool)
        ensures
            b == (self.state() == DispatchState::Closed),
    {
        self.dispatch == DispatchState::Closed
    }

    /// Hands a request to the connection. It is taken only when the
    /// connection is ready, which it then no longer is until it asks for the
    /// next request; otherwise the request is dropped and the send is
    /// reported as cancelled.
    pub fn send_request(&mut self) -> (sent: Result<(), SendError>)
        ensures
            old(self).state() == DispatchState::Ready ==> sent is Ok && final(self).state()
                == DispatchState::Busy,
            old(self).state() != DispatchState::Ready ==> sent == Err::<(), SendError>(
                SendError::Canceled,
            ) && final(self).state() == old(self).state(),
    {
        if self.is_ready() {
            self.dispatch = DispatchState::Busy;
            Ok(())
        } else {
            Err(SendError::Canceled)
        }
    }

    /// Hands a request to the connection, and gives it back where the
    /// connection is not ready.
    pub fn try_send_request<R>(&mut self, req: R) -> (sent: Result<(), TrySendError<R>>)
        ensures
            old(self).state() == DispatchState::Ready ==> sent is Ok && final(self).state()
                == DispatchState::Busy,
            old(self).state() != DispatchState::Ready ==> final(self).state() == old(self).state(),
            old(self).state() != DispatchState::Ready ==> (sent matches Err(e) && e.error
                == SendError::Canceled && e.message == Some(req)),
    {
        if self.is_ready() {
            self.dispatch = DispatchState::Busy;
            Ok(())
        } else {
            Err(TrySendError { error: SendError::Canceled, message: Some(req) })
        }
    }
}

/// How a connection's task ended.
#[derive(Clone, Copy, Debug, PartialEq, Eq, Structural)]
pub enum Dispatched {
    /// The connection was shut down.
    Shutdown,
    /// The connection was handed over for another protocol.
    Upgrade,
}

/// The client side of an open HTTP/2 connection.
#[derive(Clone, Copy, Debug)]
pub struct Connection {
    settings: Http2Config,
    extended_connect: bool,
}

impl Connection {
    /// The settings the connection declared.
    pub closed spec fn settings(&self) -> Http2Config {
        self.settings
    }

    /// Whether the peer enabled the extended CONNECT protocol.
    pub closed spec fn extended_connect(&self) -> bool {
        self.extended_connect
    }

    /// Whether the peer enabled the extended CONNECT protocol.
    pub fn is_extended_connect_protocol_enabled(&self) -> (b: bool)
        ensures
            b == self.extended_connect(),
    {
        self.extended_connect
    }

    /// Whether the way the connection's task ended is a clean end. An HTTP/2
    /// connection cannot be handed over for another protocol.
    pub fn poll(&self, ended: Dispatched) -> (done: bool)
        ensures
            done == (ended == Dispatched::Shutdown),
    {
        match ended {
            Dispatched::Shutdown => true,
            Dispatched::Upgrade => false,
        }
    }
}

} // verus!
