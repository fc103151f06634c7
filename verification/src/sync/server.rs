use vstd::prelude::*;

verus! {

/// Lifecycle states of the listening server.
#[derive(Debug, Clone, Copy, PartialEq, Eq, Structural)]
pub enum ServerState {
    Stopped,
    Starting,
    Running,
    ShuttingDown,
}

/// Owns the lifecycle of the listening endpoint.  The transitions are
/// `Stopped -> Starting -> Running -> ShuttingDown -> Stopped`; the caller
/// drives them around the actual bind/serve/signal steps, which happen
/// outside this crate.  Only a stopped server may be started, so at most
/// one instance is ever live.
#[derive(Debug)]
pub struct ServerHandler {
    state: ServerState,
    port: Option<u16>,
}

impl ServerHandler {
    /// The current lifecycle state.
    pub closed spec fn spec_state(self) -> ServerState {
        self.state
    }

    /// The port the server is (being) bound to, while it is not stopped.
    pub closed spec fn spec_port(self) -> Option<u16> {
        self.port
    }

    /// A handler for a server that is not yet running.
    pub fn new() -> (r: Self)
        ensures
            r.spec_state() == ServerState::Stopped,
            r.spec_port() is None,
    {
        ServerHandler { state: ServerState::Stopped, port: None }
    }

    /// The current lifecycle state.
    pub fn state(&self) -> (r: ServerState)
        ensures
            r == self.spec_state(),
    {
        self.state
    }

    /// The port the server is bound to, when it is not stopped.
    pub fn port(&self) -> (r: Option<u16>)
        ensures
            r == self.spec_port(),
    {
        self.port
    }

    /// Begin starting the server on `port`.  Starting while not stopped is
    /// a caller error, so it is ruled out here.
    pub fn begin_start(&mut self, port: u16)
        requires
            old(self).spec_state() == ServerState::Stopped,
        ensures
            final(self).spec_state() == ServerState::Starting,
            final(self).spec_port() == Some(port),
    {
        self.state = ServerState::Starting;
        self.port = Some(port);
    }

    /// The endpoint is bound and serving.
    pub fn mark_running(&mut self)
        requires
            old(self).spec_state() == ServerState::Starting,
        ensures
            final(self).spec_state() == ServerState::Running,
            final(self).spec_port() == old(self).spec_port(),
    {
        self.state = ServerState::Running;
    }

    /// Request a graceful shutdown.  Succeeds exactly when the server is
    /// running — otherwise there is nobody to signal and nothing changes.
    pub fn shutdown(&mut self) -> (r: Result<(), String>)
        ensures
            old(self).spec_state() == ServerState::Running ==> (r is Ok
                && final(self).spec_state() == ServerState::ShuttingDown
                && final(self).spec_port() == old(self).spec_port()),
            old(self).spec_state() != ServerState::Running ==> (r is Err
                && *final(self) == *old(self)),
    {
        if self.state == ServerState::Running {
            self.state = ServerState::ShuttingDown;
            Ok(())
        } else {
            Err("Error sending shutdown signal to server: no server is running".to_owned())
        }
    }

    /// The serve loop has returned and the port is released; a new start
    /// may follow (a restart waits a grace period first).
    pub fn mark_stopped(&mut self)
        requires
            old(self).spec_state() == ServerState::ShuttingDown,
        ensures
            final(self).spec_state() == ServerState::Stopped,
            final(self).spec_port() is None,
    {
        self.state = ServerState::Stopped;
        self.port = None;
    }
}

} // verus!
