use vstd::prelude::*;
use crate::payload::{activity_payload, Payload};

verus! {

/// A command queued for the worker. Each one is consumed exactly once.
pub enum Command {
    Connect { client_id: String },
    SetActivity { state: String, details: String },
    Clear,
}

/// An external call that the worker makes against the presence client.
pub enum Call {
    /// Create a client for this application id and open its session.
    Connect(Seq<char>),
    /// Publish the activity composed from these state and details texts.
    Publish(Seq<char>, Seq<char>),
    /// Remove the published activity.
    Clear,
}

/// Why a command led to no external call.
#[derive(PartialEq, Eq, Structural, Clone, Copy, Debug)]
pub enum Notice {
    AlreadyConnected,
    ActivityIgnored,
    ClearIgnored,
}

/// The worker's slot for the external client: either no session, or one
/// session believed healthy, owned here and nowhere else.
pub enum Connection<C> {
    Disconnected,
    Connected(C),
}

/// What the worker must do for one command.
pub enum Step<C> {
    /// No external call; the connection slot goes on as it is.
    Idle { conn: Connection<C>, notice: Notice },
    /// Create a client with this id and connect it; report the outcome to
    /// `Connection::after_connect`.
    Open { client_id: String },
    /// Publish this payload through the client; report the outcome to
    /// `Connection::after_call`.
    Publish { client: C, payload: Payload },
    /// Clear the activity through the client; report the outcome to
    /// `Connection::after_call`.
    Wipe { client: C },
}

/// The external call that `cmd` leads to, given whether a session is open.
pub open spec fn call_for(connected: bool, cmd: Command) -> Option<Call> {
    match cmd {
        Command::Connect { client_id } => if connected {
            None
        } else {
            Some(Call::Connect(client_id@))
        },
        Command::SetActivity { state, details } => if connected {
            Some(Call::Publish(state@, details@))
        } else {
            None
        },
        Command::Clear => if connected {
            Some(Call::Clear)
        } else {
            None
        },
    }
}

/// Whether a session is open after `cmd`, where `ok` is the outcome of its
/// external call, if it makes one: a call that succeeds leaves a session
/// open, one that fails leaves none.
pub open spec fn connected_after(connected: bool, cmd: Command, ok: bool) -> bool {
    match call_for(connected, cmd) {
        Some(_) => ok,
        None => connected,
    }
}

/// Applies `cmds` in order, the i-th external call having outcome `oks[i]`
/// for the i-th command: whether a session is open at the end, and the
/// external calls made, in order.
pub open spec fn run(connected: bool, cmds: Seq<Command>, oks: Seq<bool>) -> (bool, Seq<Call>)
    decreases cmds.len(),
{
    if cmds.len() == 0 {
        (connected, Seq::empty())
    } else {
        let next = connected_after(connected, cmds[0], oks[0]);
        let rest = run(next, cmds.drop_first(), oks.drop_first());
        match call_for(connected, cmds[0]) {
            Some(c) => (rest.0, seq![c] + rest.1),
            None => rest,
        }
    }
}

impl<C> Step<C> {
    /// The external call this step asks for.
    pub open spec fn call(&self) -> Option<Call> {
        match self {
            Step::Idle { .. } => None,
            Step::Open { client_id } => Some(Call::Connect(client_id@)),
            Step::Publish { payload, .. } => Some(Call::Publish(payload.state@, payload.details@)),
            Step::Wipe { .. } => Some(Call::Clear),
        }
    }
}

impl<C> Connection<C> {
    pub open spec fn is_connected(&self) -> bool {
        self is Connected
    }

    /// The worker's initial slot: no session.
    pub fn new() -> (r: Connection<C>)
        ensures
            r is Disconnected,
    {
        Connection::Disconnected
    }

    pub fn connected(&self) -> (r: bool)
        ensures
            r == self.is_connected(),
    {
        match self {
            Connection::Disconnected => false,
            Connection::Connected(_) => true,
        }
    }

    /// Decides what the worker does with `cmd`. The client, where one is
    /// open, passes into the step and comes back through
    /// `after_call`.
    pub fn plan(self, cmd: Command) -> (step: Step<C>)
        ensures
            step.call() == call_for(self.is_connected(), cmd),
            step matches Step::Idle { conn, .. } ==> conn == self,
            step matches Step::Publish { client, payload } ==> {
                &&& self == Connection::Connected(client)
                &&& payload.describes(cmd->SetActivity_state@, cmd->SetActivity_details@)
            },
            step matches Step::Wipe { client } ==> self == Connection::Connected(client),
            step matches Step::Idle { notice, .. } ==> notice == match cmd {
                Command::Connect { .. } => Notice::AlreadyConnected,
                Command::SetActivity { .. } => Notice::ActivityIgnored,
                Command::Clear => Notice::ClearIgnored,
            },
    {
        match (self, cmd) {
            (Connection::Disconnected, Command::Connect { client_id }) => Step::Open { client_id },
            (Connection::Connected(c), Command::Connect { .. }) => Step::Idle {
                conn: Connection::Connected(c),
                notice: Notice::AlreadyConnected,
            },
            (Connection::Disconnected, Command::SetActivity { .. }) => Step::Idle {
                conn: Connection::Disconnected,
                notice: Notice::ActivityIgnored,
            },
            (Connection::Connected(c), Command::SetActivity { state, details }) => Step::Publish {
                client: c,
                payload: activity_payload(state, details),
            },
            (Connection::Disconnected, Command::Clear) => Step::Idle {
                conn: Connection::Disconnected,
                notice: Notice::ClearIgnored,
            },
            (Connection::Connected(c), Command::Clear) => Step::Wipe { client: c },
        }
    }

    /// The slot after a connect attempt: the new client where it succeeded,
    /// no session where creating or connecting the client failed.
    pub fn after_connect(attempt: Option<C>) -> (r: Connection<C>)
        ensures
            r == match attempt {
                Some(c) => Connection::Connected(c),
                None => Connection::<C>::Disconnected,
            },
            r.is_connected() == attempt is Some,
    {
        match attempt {
            Some(c) => Connection::Connected(c),
            None => Connection::Disconnected,
        }
    }

    /// The slot after a publish or clear call through `client`: the client
    /// is kept where the call succeeded and dropped where it failed.
    pub fn after_call(client: C, ok: bool) -> (r: Connection<C>)
        ensures
            ok ==> r == Connection::Connected(client),
            !ok ==> r is Disconnected,
            r.is_connected() == ok,
    {
        if ok {
            Connection::Connected(client)
        } else {
            Connection::Disconnected
        }
    }
}

} // verus!
