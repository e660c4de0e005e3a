//! The handle of the virtual channel: which state it is in, which
//! operations that state admits, and what the host's events make of it.
//!
//! The channel itself belongs to the host. A handle decides: `open`,
//! `write` and `close` say whether the operation may be made, `handle`
//! takes what the host reported. Whoever owns the handle makes the calls
//! into the host.

use crate::api::{
    decode, encode, Chunk, ChunkControl, ControlView, CHUNK_LENGTH, MAX_PAYLOAD_LENGTH,
};
use crate::text::{decimal, with_number};
use vstd::prelude::*;
use vstd::string::*;

verus! {

/// Where a handle stands.
#[derive(Clone, Debug, PartialEq, Eq)]
pub enum State {
    /// Never opened.
    Initialized,
    /// Open; with what the host says of the other end, if anything.
    Connected(Option<String>),
    /// Closed, or lost; it may be opened again.
    Disconnected,
    /// The host can no longer be used. This state is never left.
    Terminated,
}

/// What is asked of a handle.
#[derive(Clone, Debug, PartialEq, Eq)]
pub enum Command {
    Open,
    SendChunk(Chunk),
    Close,
}

/// What the host reports.
#[derive(Clone, Debug, PartialEq, Eq)]
pub enum Response {
    /// The channel has come to this state.
    ChangeState(State),
    /// These bytes arrived: one frame.
    ReceivedData(Vec<u8>),
    /// A write was given up, for nothing is attached to the other end.
    WriteCancelled,
}

/// Why an operation on a handle is refused.
#[derive(Clone, Copy, Debug, PartialEq, Eq, Structural)]
pub enum Fault {
    /// The host can no longer be used.
    Terminated,
    /// The channel is open: it cannot be opened twice.
    AlreadyOpen,
    /// The channel is not open.
    NotOpen,
    /// Nothing is attached to the other end: the write is not made.
    WriteCancelled,
    /// The bytes, this many, do not fit in one frame.
    FrameTooLong(usize),
    /// The host failed, with this code.
    Host(u32),
}

/// A fault, and the technology of the handle that met it.
#[derive(Clone, Copy, Debug, PartialEq, Eq, Structural)]
pub enum Error {
    Citrix(Fault),
    Rdp(Fault),
}

/// The text of a fault.
pub open spec fn fault_text(fault: Fault) -> Seq<char> {
    match fault {
        Fault::Terminated => "channel terminated"@,
        Fault::AlreadyOpen => "channel already open"@,
        Fault::NotOpen => "channel not open"@,
        Fault::WriteCancelled => "write cancelled"@,
        Fault::FrameTooLong(len) => "frame too long: "@ + decimal(len as nat),
        Fault::Host(code) => "host failure "@ + decimal(code as nat),
    }
}

/// The text of an error.
pub open spec fn error_text(e: Error) -> Seq<char> {
    match e {
        Error::Citrix(fault) => "Citrix error: "@ + fault_text(fault),
        Error::Rdp(fault) => "RDP error: "@ + fault_text(fault),
    }
}

impl Fault {
    /// The text of this fault.
    pub fn message(&self) -> (text: String)
        ensures
            text@ == fault_text(*self),
    {
        match self {
            Fault::Terminated => String::from_str("channel terminated"),
            Fault::AlreadyOpen => String::from_str("channel already open"),
            Fault::NotOpen => String::from_str("channel not open"),
            Fault::WriteCancelled => String::from_str("write cancelled"),
            Fault::FrameTooLong(len) => with_number("frame too long: ", *len as u64),
            Fault::Host(code) => with_number("host failure ", *code as u64),
        }
    }
}

impl Error {
    /// The text of this error.
    pub fn message(&self) -> (text: String)
        ensures
            text@ == error_text(*self),
    {
        match self {
            Error::Citrix(fault) => {
                let mut text = String::from_str("Citrix error: ");
                text.append(fault.message().as_str());
                text
            },
            Error::Rdp(fault) => {
                let mut text = String::from_str("RDP error: ");
                text.append(fault.message().as_str());
                text
            },
        }
    }
}

/// Whether a write may be made in `state`, and of `len` bytes.
pub open spec fn write_verdict(state: State, len: nat) -> Result<(), Fault> {
    if !(state is Connected) {
        Err(Fault::WriteCancelled)
    } else if len > CHUNK_LENGTH {
        Err(Fault::FrameTooLong(len as usize))
    } else {
        Ok(())
    }
}

/// The connection is lost by `response` in `state`: the handle was
/// connected, and the host reports the end of the channel, the failure of
/// a write, or bytes that are no frame.
pub open spec fn loses(state: State, response: Response) -> bool {
    state is Connected && match response {
        Response::ChangeState(to) => to is Disconnected || to is Terminated,
        Response::ReceivedData(data) => decode(data@) is Err,
        Response::WriteCancelled => true,
    }
}

/// The state that `response` brings a handle to from `state`.
pub open spec fn state_after(state: State, response: Response) -> State {
    if state is Terminated {
        state
    } else {
        match response {
            Response::ChangeState(to) => if to is Initialized {
                state
            } else {
                to
            },
            _ => if loses(state, response) {
                State::Disconnected
            } else {
                state
            },
        }
    }
}

/// What the services are handed for `response` in `state`: the chunk that
/// arrived on a connected handle, one `Shutdown` when the connection is
/// lost, and nothing otherwise.
pub open spec fn control_after(state: State, response: Response) -> Option<ControlView> {
    if loses(state, response) {
        Some(ControlView::Shutdown)
    } else if state is Connected && response is ReceivedData {
        Some(ControlView::Chunk(decode(response->ReceivedData_0@)->Ok_0))
    } else {
        None
    }
}

/// What the services are handed, in order, for the responses that reach a
/// handle one after the other, from `state` on.
pub open spec fn controls_after(state: State, responses: Seq<Response>) -> Seq<ControlView>
    decreases responses.len(),
{
    if responses.len() == 0 {
        Seq::empty()
    } else {
        let rest = controls_after(state_after(state, responses[0]), responses.skip(1));
        match control_after(state, responses[0]) {
            Some(control) => seq![control] + rest,
            None => rest,
        }
    }
}

/// The state of one channel, whatever the technology that carries it.
#[derive(Clone, Debug, PartialEq, Eq)]
pub struct Link {
    pub state: State,
}

impl Link {
    fn open(&mut self) -> (opened: Result<(), Fault>)
        ensures
            match old(self).state {
                State::Initialized | State::Disconnected => opened is Ok && final(self).state
                    == State::Connected(None),
                State::Connected(_) => opened == Err::<(), Fault>(Fault::AlreadyOpen) && final(self).state == old(self).state,
                State::Terminated => opened == Err::<(), Fault>(Fault::Terminated) && final(self).state == old(self).state,
            },
    {
        match &self.state {
            State::Initialized | State::Disconnected => {
                self.state = State::Connected(None);
                Ok(())
            },
            State::Connected(_) => Err(Fault::AlreadyOpen),
            State::Terminated => Err(Fault::Terminated),
        }
    }

    fn write(&self, len: usize) -> (written: Result<(), Fault>)
        ensures
            written == write_verdict(self.state, len as nat),
    {
        match &self.state {
            State::Connected(_) => {
                if len > CHUNK_LENGTH {
                    Err(Fault::FrameTooLong(len))
                } else {
                    Ok(())
                }
            },
            _ => Err(Fault::WriteCancelled),
        }
    }

    fn close(&mut self) -> (closed: Result<(), Fault>)
        ensures
            match old(self).state {
                State::Connected(_) => closed is Ok && final(self).state == State::Disconnected,
                State::Terminated => closed == Err::<(), Fault>(Fault::Terminated) && final(self).state == old(self).state,
                _ => closed == Err::<(), Fault>(Fault::NotOpen) && final(self).state == old(self).state,
            },
    {
        match &self.state {
            State::Connected(_) => {
                self.state = State::Disconnected;
                Ok(())
            },
            State::Terminated => Err(Fault::Terminated),
            _ => Err(Fault::NotOpen),
        }
    }

    fn handle(&mut self, response: Response) -> (control: Option<ChunkControl>)
        ensures
            final(self).state == state_after(old(self).state, response),
            match control_after(old(self).state, response) {
                Some(c) => control is Some && control->0@ == c,
                None => control is None,
            },
    {
        let connected = match &self.state {
            State::Connected(_) => true,
            _ => false,
        };
        let terminated = match &self.state {
            State::Terminated => true,
            _ => false,
        };
        match response {
            Response::ChangeState(to) => {
                let ends = match &to {
                    State::Disconnected | State::Terminated => true,
                    _ => false,
                };
                let initial = match &to {
                    State::Initialized => true,
                    _ => false,
                };
                if !terminated && !initial {
                    self.state = to;
                }
                if connected && ends {
                    Some(ChunkControl::Shutdown)
                } else {
                    None
                }
            },
            Response::ReceivedData(data) => {
                if connected {
                    match Chunk::deserialize(data.as_slice()) {
                        Ok(chunk) => Some(ChunkControl::Chunk(chunk)),
                        Err(_) => {
                            self.state = State::Disconnected;
                            Some(ChunkControl::Shutdown)
                        },
                    }
                } else {
                    None
                }
            },
            Response::WriteCancelled => {
                if connected {
                    self.state = State::Disconnected;
                    Some(ChunkControl::Shutdown)
                } else {
                    None
                }
            },
        }
    }
}

/// A handle of the virtual channel, on one of the two technologies that
/// can carry it.
#[derive(Clone, Debug, PartialEq, Eq)]
pub enum Svc {
    Citrix(Link),
    Rdp(Link),
}

/// What the host is to do for a command that a handle admitted.
#[derive(Clone, Debug, PartialEq, Eq)]
pub enum Request {
    /// Open the channel.
    Open,
    /// Write these bytes, one frame, to the channel.
    Write(Vec<u8>),
    /// Close the channel.
    Close,
}

impl Svc {
    /// The state of this handle.
    pub open spec fn spec_state(self) -> State {
        match self {
            Svc::Citrix(link) => link.state,
            Svc::Rdp(link) => link.state,
        }
    }

    /// The error of this handle's technology for `fault`.
    pub open spec fn error_of(self, fault: Fault) -> Error {
        match self {
            Svc::Citrix(_) => Error::Citrix(fault),
            Svc::Rdp(_) => Error::Rdp(fault),
        }
    }

    /// The same handle in another state.
    pub open spec fn with_state(self, state: State) -> Svc {
        match self {
            Svc::Citrix(_) => Svc::Citrix(Link { state }),
            Svc::Rdp(_) => Svc::Rdp(Link { state }),
        }
    }

    /// Picks the technology of the host: Citrix where its client library
    /// can be loaded, else RDP where that one can, else none.
    pub fn load(citrix: bool, rdp: bool) -> (svc: Option<Svc>)
        ensures
            citrix ==> svc == Some(Svc::Citrix(Link { state: State::Initialized })),
            !citrix && rdp ==> svc == Some(Svc::Rdp(Link { state: State::Initialized })),
            !citrix && !rdp ==> svc is None,
    {
        if citrix {
            Some(Svc::Citrix(Link { state: State::Initialized }))
        } else if rdp {
            Some(Svc::Rdp(Link { state: State::Initialized }))
        } else {
            None
        }
    }

    /// The state of this handle.
    pub fn state(&self) -> (state: &State)
        ensures
            *state == self.spec_state(),
    {
        match self {
            Svc::Citrix(link) => &link.state,
            Svc::Rdp(link) => &link.state,
        }
    }

    /// Whether the channel is open.
    pub fn is_connected(&self) -> (connected: bool)
        ensures
            connected == (self.spec_state() is Connected),
    {
        match self.state() {
            State::Connected(_) => true,
            _ => false,
        }
    }

    /// Admits the opening of the channel: a handle that was never opened,
    /// or that is disconnected, becomes connected. A connected handle is
    /// not opened twice, and a terminated one never again.
    pub fn open(&mut self) -> (opened: Result<(), Error>)
        ensures
            match old(self).spec_state() {
                State::Initialized | State::Disconnected => opened is Ok && *final(self) == old(self).with_state(State::Connected(None)),
                State::Connected(_) => opened == Err::<(), Error>(
                    old(self).error_of(Fault::AlreadyOpen),
                ) && *final(self) == *old(self),
                State::Terminated => opened == Err::<(), Error>(
                    old(self).error_of(Fault::Terminated),
                ) && *final(self) == *old(self),
            },
    {
        match self {
            Svc::Citrix(link) => match link.open() {
                Ok(()) => Ok(()),
                Err(fault) => Err(Error::Citrix(fault)),
            },
            Svc::Rdp(link) => match link.open() {
                Ok(()) => Ok(()),
                Err(fault) => Err(Error::Rdp(fault)),
            },
        }
    }

    /// Admits the writing of `data`, one frame, to the channel. Where the
    /// handle is not connected the write is cancelled at once.
    pub fn write(&self, data: Vec<u8>) -> (written: Result<(), Error>)
        ensures
            match write_verdict(self.spec_state(), data@.len()) {
                Ok(()) => written is Ok,
                Err(fault) => written == Err::<(), Error>(self.error_of(fault)),
            },
            !(self.spec_state() is Connected) ==> written == Err::<(), Error>(
                self.error_of(Fault::WriteCancelled),
            ),
    {
        match self {
            Svc::Citrix(link) => match link.write(data.len()) {
                Ok(()) => Ok(()),
                Err(fault) => Err(Error::Citrix(fault)),
            },
            Svc::Rdp(link) => match link.write(data.len()) {
                Ok(()) => Ok(()),
                Err(fault) => Err(Error::Rdp(fault)),
            },
        }
    }

    /// Admits the closing of the channel: a connected handle becomes
    /// disconnected. Any other handle stays as it is.
    pub fn close(&mut self) -> (closed: Result<(), Error>)
        ensures
            match old(self).spec_state() {
                State::Connected(_) => closed is Ok && *final(self) == old(self).with_state(
                    State::Disconnected,
                ),
                State::Terminated => closed == Err::<(), Error>(
                    old(self).error_of(Fault::Terminated),
                ) && *final(self) == *old(self),
                _ => closed == Err::<(), Error>(old(self).error_of(Fault::NotOpen)) && *final(self) == *old(self),
            },
    {
        match self {
            Svc::Citrix(link) => match link.close() {
                Ok(()) => Ok(()),
                Err(fault) => Err(Error::Citrix(fault)),
            },
            Svc::Rdp(link) => match link.close() {
                Ok(()) => Ok(()),
                Err(fault) => Err(Error::Rdp(fault)),
            },
        }
    }

    /// Carries out a command as far as the handle goes, and says what the
    /// host is to do. A chunk is written as its frame.
    pub fn execute(&mut self, command: Command) -> (request: Result<Request, Error>)
        ensures
            match command {
                Command::Open => match old(self).spec_state() {
                    State::Initialized | State::Disconnected => request == Ok::<Request, Error>(
                        Request::Open,
                    ) && *final(self) == old(self).with_state(State::Connected(None)),
                    State::Connected(_) => request == Err::<Request, Error>(
                        old(self).error_of(Fault::AlreadyOpen),
                    ) && *final(self) == *old(self),
                    State::Terminated => request == Err::<Request, Error>(
                        old(self).error_of(Fault::Terminated),
                    ) && *final(self) == *old(self),
                },
                Command::SendChunk(chunk) => *final(self) == *old(self) && (if !(old(self).spec_state() is Connected) {
                    request == Err::<Request, Error>(old(self).error_of(Fault::WriteCancelled))
                } else if chunk.payload@.len() > MAX_PAYLOAD_LENGTH {
                    request == Err::<Request, Error>(
                        old(self).error_of(Fault::FrameTooLong(chunk.payload@.len() as usize)),
                    )
                } else {
                    request matches Ok(Request::Write(bytes)) && bytes@ == encode(chunk@)
                }),
                Command::Close => match old(self).spec_state() {
                    State::Connected(_) => request == Ok::<Request, Error>(Request::Close)
                        && *final(self) == old(self).with_state(State::Disconnected),
                    State::Terminated => request == Err::<Request, Error>(
                        old(self).error_of(Fault::Terminated),
                    ) && *final(self) == *old(self),
                    _ => request == Err::<Request, Error>(old(self).error_of(Fault::NotOpen))
                        && *final(self) == *old(self),
                },
            },
    {
        match command {
            Command::Open => match self.open() {
                Ok(()) => Ok(Request::Open),
                Err(e) => Err(e),
            },
            Command::SendChunk(chunk) => {
                if !self.is_connected() {
                    return Err(self.fail(Fault::WriteCancelled));
                }
                match chunk.serialize() {
                    Ok(bytes) => Ok(Request::Write(bytes)),
                    Err(_) => Err(self.fail(Fault::FrameTooLong(chunk.payload.len()))),
                }
            },
            Command::Close => match self.close() {
                Ok(()) => Ok(Request::Close),
                Err(e) => Err(e),
            },
        }
    }

    /// The error of this handle's technology for `fault`.
    pub fn fail(&self, fault: Fault) -> (e: Error)
        ensures
            e == self.error_of(fault),
    {
        match self {
            Svc::Citrix(_) => Error::Citrix(fault),
            Svc::Rdp(_) => Error::Rdp(fault),
        }
    }

    /// Takes a report of the host. The state follows it, but for a
    /// terminated handle, which stays terminated. The result is what the
    /// services are to be handed: the chunk that arrived on a connected
    /// handle, or one `Shutdown` when the connection is lost; bytes that
    /// reach a handle that is not connected are dropped.
    pub fn handle(&mut self, response: Response) -> (control: Option<ChunkControl>)
        ensures
            *final(self) == old(self).with_state(state_after(old(self).spec_state(), response)),
            match control_after(old(self).spec_state(), response) {
                Some(c) => control is Some && control->0@ == c,
                None => control is None,
            },
    {
        match self {
            Svc::Citrix(link) => link.handle(response),
            Svc::Rdp(link) => link.handle(response),
        }
    }
}

/// A terminated handle stays terminated, whatever the host reports.
pub proof fn lemma_terminated_is_final(state: State, response: Response)
    requires
        state is Terminated,
    ensures
        state_after(state, response) is Terminated,
        control_after(state, response) is None,
{
}

/// A handle that is not connected hands the services nothing, and only the
/// host's report of a connection connects it.
pub proof fn lemma_silent_until_connected(state: State, response: Response)
    requires
        !(state is Connected),
    ensures
        control_after(state, response) is None,
        state_after(state, response) is Connected ==> response is ChangeState
            && response->ChangeState_0 is Connected,
{
}

/// While the host reports no new connection, a handle that is not
/// connected hands the services nothing at all.
pub proof fn lemma_silence(state: State, responses: Seq<Response>)
    requires
        !(state is Connected),
        forall|i: int|
            0 <= i < responses.len() ==> !(#[trigger] responses[i] is ChangeState
                && responses[i]->ChangeState_0 is Connected),
    ensures
        controls_after(state, responses) == Seq::<ControlView>::empty(),
    decreases responses.len(),
{
    if responses.len() > 0 {
        lemma_silent_until_connected(state, responses[0]);
        lemma_silence(state_after(state, responses[0]), responses.skip(1));
    }
}

/// When a connected handle loses its connection, the services are handed
/// exactly one `Shutdown`, and nothing after it for as long as the host
/// reports no new connection: no chunk is taken for the handle that was
/// lost.
pub proof fn lemma_one_shutdown(state: State, lost: Response, later: Seq<Response>)
    requires
        loses(state, lost),
        forall|i: int|
            0 <= i < later.len() ==> !(#[trigger] later[i] is ChangeState
                && later[i]->ChangeState_0 is Connected),
    ensures
        controls_after(state, seq![lost] + later) == seq![ControlView::Shutdown],
{
    assert((seq![lost] + later).skip(1) =~= later);
    lemma_silence(state_after(state, lost), later);
}

} // verus!
