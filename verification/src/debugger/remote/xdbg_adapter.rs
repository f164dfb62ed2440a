//! The client side of the x64dbg remote protocol: connecting, and
//! dispatching debugger commands.
use vstd::prelude::*;

use crate::text::{
    ascii_lower_seq, concat, decimal_seq, decimal_string, eq_ignore_ascii_case, starts_with,
    starts_with_seq, trim, trim_seq,
};
use crate::types::{RemoteCommand, RemoteCommandResult, RemoteConfig, RemoteErrorKind, method_name_of};

verus! {

/// A failed remote operation: its kind and a message for the user.
#[derive(Debug, Clone, PartialEq, Eq)]
pub struct RemoteAdapterError {
    pub kind: RemoteErrorKind,
    pub message: String,
}

impl RemoteAdapterError {
    /// An error of `kind` with `message`.
    pub fn new(kind: RemoteErrorKind, message: String) -> (r: Self)
        ensures
            r.kind == kind,
            r.message == message,
    {
        RemoteAdapterError { kind, message }
    }
}

/// What the network gave when the endpoint was tried.
#[derive(Debug, Clone, PartialEq, Eq)]
pub enum NetworkOutcome {
    /// The endpoint did not resolve to a socket address; the resolver's message.
    Unresolvable(String),
    /// The connection attempt ran into its timeout.
    TimedOut,
    /// The connection attempt failed otherwise; the system's message.
    Unreachable(String),
    /// A connection was made.
    Reachable,
}

/// What the host reports for one connection attempt: the clock, and what the
/// network gave if the endpoint had to be tried (see
/// `XdbgRemoteAdapter::network_target`; otherwise it is not read).
#[derive(Debug, Clone, PartialEq, Eq)]
pub struct RemoteProbe {
    /// Milliseconds since the Unix epoch.
    pub now_millis: u128,
    pub network: NetworkOutcome,
}

/// The session id given to a session at `endpoint` opened at `millis`.
pub open spec fn session_id_text(endpoint: Seq<char>, millis: u128) -> Seq<char> {
    "xdbg-"@ + decimal_seq(millis as nat) + "-"@ + endpoint
}

/// Builds the session id `xdbg-<millis>-<endpoint>`.
pub fn build_session_id(endpoint: &str, now_millis: u128) -> (s: String)
    ensures
        s@ == session_id_text(endpoint@, now_millis),
{
    let mut s = concat("xdbg-", decimal_string(now_millis).as_str());
    s.append("-");
    s.append(endpoint);
    s
}

/// Whether a connection with `token` is refused as unauthenticated.
pub open spec fn token_refused(token: Option<String>) -> bool {
    token matches Some(t) && ascii_lower_seq(t@) == ascii_lower_seq("bad-token"@)
}

/// Whether an endpoint names the built-in simulated remote.
pub open spec fn is_mock_endpoint(endpoint: Seq<char>) -> bool {
    starts_with_seq(endpoint, "mock://"@)
}

/// Whether connecting with `config` needs the network: the endpoint is not
/// blank, the token is not refused, and the endpoint is not simulated.
pub open spec fn needs_network(config: RemoteConfig) -> bool {
    let endpoint = trim_seq(config.endpoint@);
    endpoint.len() > 0 && !token_refused(config.token) && !is_mock_endpoint(endpoint)
}

/// What connecting with `config` gives: the (trimmed) endpoint of the new
/// session, or the kind and message of the failure. `forced_timeout` makes
/// every attempt on the network time out.
pub open spec fn connect_result(config: RemoteConfig, forced_timeout: bool, network: NetworkOutcome) -> Result<
    Seq<char>,
    (RemoteErrorKind, Seq<char>),
> {
    let endpoint = trim_seq(config.endpoint@);
    if endpoint.len() == 0 {
        Err((RemoteErrorKind::ProtocolError, "Remote endpoint is empty"@))
    } else if token_refused(config.token) {
        Err((RemoteErrorKind::AuthFailed, "Remote authentication failed"@))
    } else if is_mock_endpoint(endpoint) {
        Ok(endpoint)
    } else {
        match network {
            NetworkOutcome::Unresolvable(e) => Err(
                (RemoteErrorKind::ProtocolError, "Invalid endpoint: "@ + e@),
            ),
            _ => {
                if forced_timeout {
                    Err((RemoteErrorKind::Timeout, "Remote handshake timed out"@))
                } else {
                    match network {
                        NetworkOutcome::TimedOut => Err(
                            (RemoteErrorKind::Timeout, "Remote handshake timed out"@),
                        ),
                        NetworkOutcome::Unreachable(e) => Err(
                            (
                                RemoteErrorKind::ConnectionFailed,
                                "Failed to reach remote endpoint: "@ + e@,
                            ),
                        ),
                        _ => Ok(endpoint),
                    }
                }
            },
        }
    }
}

/// What dispatching `command` gives on an adapter that is (or is not)
/// `connected`: the acknowledgement's message, or the kind and message of the
/// failure.
pub open spec fn dispatch_result(connected: bool, forced_timeout: bool, command: RemoteCommand) -> Result<
    Seq<char>,
    (RemoteErrorKind, Seq<char>),
> {
    if !connected {
        Err((RemoteErrorKind::ConnectionFailed, "Remote session is not connected"@))
    } else if forced_timeout {
        Err((RemoteErrorKind::Timeout, "Remote command timed out"@))
    } else if command matches RemoteCommand::ReadMemory { size, .. } && size == 0 {
        Err((RemoteErrorKind::ProtocolError, "Read-memory size must be greater than zero"@))
    } else {
        Ok("remote method "@ + method_name_of(command) + " acknowledged"@)
    }
}

/// A connection to an x64dbg remote endpoint.
#[derive(Debug)]
pub struct XdbgRemoteAdapter {
    endpoint: Option<String>,
    session_id: Option<String>,
    forced_timeout: bool,
}

impl Clone for XdbgRemoteAdapter {
    fn clone(&self) -> (r: Self)
        ensures
            r == *self,
    {
        proof {
            use_type_invariant(self);
        }
        XdbgRemoteAdapter {
            endpoint: match &self.endpoint {
                Some(e) => Some(e.clone()),
                None => None,
            },
            session_id: match &self.session_id {
                Some(id) => Some(id.clone()),
                None => None,
            },
            forced_timeout: self.forced_timeout,
        }
    }
}

impl XdbgRemoteAdapter {
    /// An adapter holds an endpoint exactly when it holds a session id.
    #[verifier::type_invariant]
    spec fn paired(self) -> bool {
        self.endpoint is Some <==> self.session_id is Some
    }

    /// The endpoint of the open session.
    pub closed spec fn current_endpoint(self) -> Option<String> {
        self.endpoint
    }

    /// The id of the open session.
    pub closed spec fn current_session(self) -> Option<String> {
        self.session_id
    }

    /// Whether every network operation is made to time out (a test setting).
    pub closed spec fn times_out(self) -> bool {
        self.forced_timeout
    }

    /// An adapter with no session.
    pub fn new() -> (a: Self)
        ensures
            a.current_endpoint() is None,
            a.current_session() is None,
            !a.times_out(),
    {
        XdbgRemoteAdapter { endpoint: None, session_id: None, forced_timeout: false }
    }

    /// Makes every network operation time out, or stops doing so.
    pub fn set_forced_timeout(&mut self, forced: bool)
        ensures
            final(self).times_out() == forced,
            final(self).current_endpoint() == old(self).current_endpoint(),
            final(self).current_session() == old(self).current_session(),
    {
        proof {
            use_type_invariant(&*self);
        }
        self.forced_timeout = forced;
    }

    /// Whether a session is open: the adapter then holds both an endpoint
    /// and a session id, and otherwise neither.
    pub fn is_connected(&self) -> (b: bool)
        ensures
            b == self.current_session() is Some,
            b == self.current_endpoint() is Some,
    {
        proof {
            use_type_invariant(self);
        }
        self.session_id.is_some()
    }

    /// The endpoint of the open session.
    pub fn endpoint(&self) -> (e: Option<&str>)
        ensures
            e matches Some(x) ==> (self.current_endpoint() matches Some(y) && x@ == y@),
            e is None ==> self.current_endpoint() is None,
    {
        match &self.endpoint {
            Some(e) => Some(e.as_str()),
            None => None,
        }
    }

    /// The id of the open session.
    pub fn session_id(&self) -> (s: Option<&str>)
        ensures
            s matches Some(x) ==> (self.current_session() matches Some(y) && x@ == y@),
            s is None ==> self.current_session() is None,
    {
        match &self.session_id {
            Some(s) => Some(s.as_str()),
            None => None,
        }
    }

    /// Where the network must be tried to connect with `config`: the trimmed
    /// endpoint and the timeout in milliseconds (at least 20), or nothing
    /// when the outcome does not depend on the network.
    pub fn network_target(config: &RemoteConfig) -> (r: Option<(String, u64)>)
        ensures
            needs_network(*config) <==> r is Some,
            r matches Some((endpoint, timeout)) ==> endpoint@ == trim_seq(config.endpoint@)
                && timeout == (if config.timeout_ms < 20 {
                20
            } else {
                config.timeout_ms
            }),
    {
        let endpoint = trim(config.endpoint.as_str());
        if endpoint.as_str().is_empty() {
            return None;
        }
        if token_is_refused(&config.token) {
            return None;
        }
        if starts_with(endpoint.as_str(), "mock://") {
            return None;
        }
        let timeout = if config.timeout_ms < 20 {
            20
        } else {
            config.timeout_ms
        };
        Some((endpoint, timeout))
    }

    /// Opens a session with `config`. On success the adapter holds the
    /// trimmed endpoint and a session id made from it and the probe's clock;
    /// on failure it is unchanged.
    pub fn connect(&mut self, config: &RemoteConfig, probe: &RemoteProbe) -> (r: Result<
        String,
        RemoteAdapterError,
    >)
        ensures
            final(self).times_out() == old(self).times_out(),
            match connect_result(*config, old(self).times_out(), probe.network) {
                Ok(endpoint) => {
                    &&& r is Ok
                    &&& r->Ok_0@ == session_id_text(endpoint, probe.now_millis)
                    &&& final(self).current_endpoint() is Some
                    &&& final(self).current_endpoint()->0@ == endpoint
                    &&& final(self).current_session() == Some(r->Ok_0)
                },
                Err((kind, message)) => {
                    &&& r is Err
                    &&& r->Err_0.kind == kind
                    &&& r->Err_0.message@ == message
                    &&& final(self).current_endpoint() == old(self).current_endpoint()
                    &&& final(self).current_session() == old(self).current_session()
                },
            },
    {
        let endpoint = trim(config.endpoint.as_str());
        if endpoint.as_str().is_empty() {
            return Err(
                RemoteAdapterError::new(
                    RemoteErrorKind::ProtocolError,
                    String::from_str("Remote endpoint is empty"),
                ),
            );
        }
        if token_is_refused(&config.token) {
            return Err(
                RemoteAdapterError::new(
                    RemoteErrorKind::AuthFailed,
                    String::from_str("Remote authentication failed"),
                ),
            );
        }
        if !starts_with(endpoint.as_str(), "mock://") {
            match &probe.network {
                NetworkOutcome::Unresolvable(e) => {
                    return Err(
                        RemoteAdapterError::new(
                            RemoteErrorKind::ProtocolError,
                            concat("Invalid endpoint: ", e.as_str()),
                        ),
                    );
                },
                _ => {},
            }
            if self.forced_timeout {
                return Err(
                    RemoteAdapterError::new(
                        RemoteErrorKind::Timeout,
                        String::from_str("Remote handshake timed out"),
                    ),
                );
            }
            match &probe.network {
                NetworkOutcome::TimedOut => {
                    return Err(
                        RemoteAdapterError::new(
                            RemoteErrorKind::Timeout,
                            String::from_str("Remote handshake timed out"),
                        ),
                    );
                },
                NetworkOutcome::Unreachable(e) => {
                    return Err(
                        RemoteAdapterError::new(
                            RemoteErrorKind::ConnectionFailed,
                            concat("Failed to reach remote endpoint: ", e.as_str()),
                        ),
                    );
                },
                _ => {},
            }
        }
        let session_id = build_session_id(endpoint.as_str(), probe.now_millis);
        *self = XdbgRemoteAdapter {
            endpoint: Some(endpoint),
            session_id: Some(session_id.clone()),
            forced_timeout: self.forced_timeout,
        };
        Ok(session_id)
    }

    /// Closes the session.
    pub fn disconnect(&mut self)
        ensures
            final(self).current_endpoint() is None,
            final(self).current_session() is None,
            final(self).times_out() == old(self).times_out(),
    {
        *self = XdbgRemoteAdapter {
            endpoint: None,
            session_id: None,
            forced_timeout: self.forced_timeout,
        };
    }

    /// Sends `command` over the open session.
    pub fn dispatch(&self, command: RemoteCommand) -> (r: Result<
        RemoteCommandResult,
        RemoteAdapterError,
    >)
        ensures
            match dispatch_result(self.current_session() is Some, self.times_out(), command) {
                Ok(message) => {
                    &&& r is Ok
                    &&& r->Ok_0.command == command
                    &&& r->Ok_0.success
                    &&& r->Ok_0.error is None
                    &&& r->Ok_0.message@ == message
                },
                Err((kind, message)) => {
                    &&& r is Err
                    &&& r->Err_0.kind == kind
                    &&& r->Err_0.message@ == message
                },
            },
    {
        if !self.is_connected() {
            return Err(
                RemoteAdapterError::new(
                    RemoteErrorKind::ConnectionFailed,
                    String::from_str("Remote session is not connected"),
                ),
            );
        }
        if self.forced_timeout {
            return Err(
                RemoteAdapterError::new(
                    RemoteErrorKind::Timeout,
                    String::from_str("Remote command timed out"),
                ),
            );
        }
        if let RemoteCommand::ReadMemory { size, .. } = command {
            if size == 0 {
                return Err(
                    RemoteAdapterError::new(
                        RemoteErrorKind::ProtocolError,
                        String::from_str("Read-memory size must be greater than zero"),
                    ),
                );
            }
        }
        let mut message = concat("remote method ", command.method_name().as_str());
        message.append(" acknowledged");
        Ok(RemoteCommandResult { command, success: true, error: None, message })
    }
}

fn token_is_refused(token: &Option<String>) -> (b: bool)
    ensures
        b == token_refused(*token),
{
    match token {
        Some(t) => eq_ignore_ascii_case(t.as_str(), "bad-token"),
        None => false,
    }
}

} // verus!
