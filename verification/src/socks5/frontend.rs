//! The near side of the proxy: what one client connection is told, and
//! when its bytes start to flow through the tunnel.
//!
//! A `Client` reads nothing and sends nothing. It is handed the bytes that
//! the client has sent and the responses of the far side, and says what is
//! to be done next.

use super::protocol::{
    encode_command, encode_response, failure_reply, parse_command, Command, Parse, Response,
    AUTHENTICATION_NONE, NO_ACCEPTABLE_METHOD, REPLY_ADDRESS_TYPE_NOT_SUPPORTED,
    REPLY_COMMAND_NOT_SUPPORTED, VERSION,
};
use crate::api::Service;
use crate::text::{decimal, with_number};
use vstd::prelude::*;
use vstd::std_specs::convert::FromSpecImpl;
use vstd::string::*;

verus! {

/// The service whose chunks carry the proxy's streams.
pub const SERVICE: Service = Service::Socks5;

/// Why a client connection is not served.
#[derive(Clone, Debug, PartialEq, Eq)]
pub enum Error {
    /// The client speaks this version.
    UnsupportedVersion(u8),
    /// The client does not propose this method, the only one that is served.
    UnsupportedAuthentication(u8),
    /// Reading from or writing to the client failed; what the system said.
    Io(String),
    /// The client asks for this command.
    UnsupportedCommand(u8),
    /// The client names an address of this type.
    AddressTypeNotSupported(u8),
}

impl From<super::protocol::Error> for Error {
    fn from(e: super::protocol::Error) -> (error: Error) {
        match e {
            super::protocol::Error::UnsupportedVersion(v) => Error::UnsupportedVersion(v),
            super::protocol::Error::UnsupportedCommand(c) => Error::UnsupportedCommand(c),
            super::protocol::Error::AddressTypeNotSupported(t) => Error::AddressTypeNotSupported(t),
        }
    }
}

impl FromSpecImpl<super::protocol::Error> for Error {
    open spec fn obeys_from_spec() -> bool {
        true
    }

    open spec fn from_spec(e: super::protocol::Error) -> Error {
        refusal_of(e)
    }
}

/// The error of a connection whose request was refused with `e`.
pub open spec fn refusal_of(e: super::protocol::Error) -> Error {
    match e {
        super::protocol::Error::UnsupportedVersion(v) => Error::UnsupportedVersion(v),
        super::protocol::Error::UnsupportedCommand(c) => Error::UnsupportedCommand(c),
        super::protocol::Error::AddressTypeNotSupported(t) => Error::AddressTypeNotSupported(t),
    }
}

/// The text of an error.
pub open spec fn message_of(e: Error) -> Seq<char> {
    match e {
        Error::UnsupportedVersion(v) => "unsupported version "@ + decimal(v as nat),
        Error::UnsupportedAuthentication(v) => "unsupported authentication "@ + decimal(v as nat),
        Error::UnsupportedCommand(v) => "unsupported command "@ + decimal(v as nat),
        Error::AddressTypeNotSupported(v) => "address type not supported "@ + decimal(v as nat),
        Error::Io(e) => "I/O error: "@ + e@,
    }
}

/// What a client is sent before a connection that failed with `e` is
/// closed; `None` where nothing is sent.
pub open spec fn rejection_of(e: Error) -> Option<Seq<u8>> {
    match e {
        Error::UnsupportedVersion(_) => Some(seq![VERSION, NO_ACCEPTABLE_METHOD]),
        Error::UnsupportedAuthentication(_) => Some(seq![VERSION, NO_ACCEPTABLE_METHOD]),
        Error::UnsupportedCommand(_) => Some(failure_reply(REPLY_COMMAND_NOT_SUPPORTED)),
        Error::AddressTypeNotSupported(_) => Some(failure_reply(REPLY_ADDRESS_TYPE_NOT_SUPPORTED)),
        Error::Io(_) => None,
    }
}

/// Builds the reply that tells a failure and names no address.
fn failure_frame(code: u8) -> (bytes: Vec<u8>)
    ensures
        bytes@ == failure_reply(code),
{
    let response = Response::failure(code);
    let bytes = response.encode();
    proof {
        super::protocol::lemma_failure_reply(code);
    }
    bytes
}

fn refusal_frame() -> (bytes: Vec<u8>)
    ensures
        bytes@ == seq![VERSION, NO_ACCEPTABLE_METHOD],
{
    let mut bytes: Vec<u8> = Vec::new();
    bytes.push(VERSION);
    bytes.push(NO_ACCEPTABLE_METHOD);
    bytes
}

impl Error {
    /// The text of this error.
    pub fn message(&self) -> (text: String)
        ensures
            text@ == message_of(*self),
    {
        match self {
            Error::UnsupportedVersion(v) => with_number("unsupported version ", *v as u64),
            Error::UnsupportedAuthentication(v) => with_number(
                "unsupported authentication ",
                *v as u64,
            ),
            Error::UnsupportedCommand(v) => with_number("unsupported command ", *v as u64),
            Error::AddressTypeNotSupported(v) => with_number(
                "address type not supported ",
                *v as u64,
            ),
            Error::Io(e) => {
                let mut text = String::from_str("I/O error: ");
                text.append(e.as_str());
                text
            },
        }
    }

    /// The bytes that the client is sent before the connection is closed.
    /// After a failed read or write nothing is sent.
    pub fn rejection(&self) -> (reply: Option<Vec<u8>>)
        ensures
            match rejection_of(*self) {
                Some(bytes) => reply is Some && reply->0@ == bytes,
                None => reply is None,
            },
    {
        match self {
            Error::UnsupportedVersion(_) => Some(refusal_frame()),
            Error::UnsupportedAuthentication(_) => Some(refusal_frame()),
            Error::UnsupportedCommand(_) => Some(failure_frame(REPLY_COMMAND_NOT_SUPPORTED)),
            Error::AddressTypeNotSupported(_) => Some(
                failure_frame(REPLY_ADDRESS_TYPE_NOT_SUPPORTED),
            ),
            Error::Io(_) => None,
        }
    }
}

/// Reads a greeting: the version, the number of methods and the methods.
/// The version is judged as soon as two bytes are there; the methods must
/// hold `AUTHENTICATION_NONE`.
pub open spec fn parse_greeting(bytes: Seq<u8>) -> Parse<(), Error> {
    if bytes.len() < 2 {
        Parse::More(2)
    } else if bytes[0] != VERSION {
        Parse::Bad(Error::UnsupportedVersion(bytes[0]))
    } else if bytes.len() < 2 + bytes[1] {
        Parse::More((2 + bytes[1]) as usize)
    } else if !bytes.subrange(2, 2 + bytes[1]).contains(AUTHENTICATION_NONE) {
        Parse::Bad(Error::UnsupportedAuthentication(AUTHENTICATION_NONE))
    } else {
        Parse::Done((), (2 + bytes[1]) as usize)
    }
}

/// Reads the greeting at the start of `bytes`.
pub fn read_greeting(bytes: &[u8]) -> (parsed: Parse<(), Error>)
    ensures
        parsed == parse_greeting(bytes@),
        parsed matches Parse::More(needed) ==> bytes@.len() < needed,
        parsed matches Parse::Done(_, taken) ==> taken <= bytes@.len(),
{
    if bytes.len() < 2 {
        return Parse::More(2);
    }
    let version: u8 = bytes[0];
    if version != VERSION {
        return Parse::Bad(Error::UnsupportedVersion(version));
    }
    let count: usize = bytes[1] as usize;
    let end: usize = 2 + count;
    if bytes.len() < end {
        return Parse::More(end);
    }
    let ghost methods = bytes@.subrange(2, end as int);
    let mut i: usize = 2;
    while i < end
        invariant
            2 <= i <= end,
            end <= bytes@.len(),
            bytes@[0] == VERSION,
            end == 2 + bytes@[1],
            methods == bytes@.subrange(2, end as int),
            forall|j: int| 0 <= j < i - 2 ==> methods[j] != AUTHENTICATION_NONE,
        decreases end - i,
    {
        if bytes[i] == AUTHENTICATION_NONE {
            assert(methods[i - 2] == AUTHENTICATION_NONE);
            return Parse::Done((), end);
        }
        i = i + 1;
    }
    Parse::Bad(Error::UnsupportedAuthentication(AUTHENTICATION_NONE))
}

/// Where a client connection stands.
#[derive(Clone, Copy, Debug, PartialEq, Eq, Structural)]
pub enum Phase {
    /// The greeting is awaited.
    Greeting,
    /// The method was chosen; the request is awaited.
    Request,
    /// A connect request was forwarded; its response is awaited.
    Connect,
    /// A bind request was forwarded; the far side has yet to acknowledge it.
    BindAcknowledgement,
    /// The far side listens; a connection to its port is awaited.
    BindArrival,
    /// Bytes flow both ways between the client and the tunnel.
    Relay,
    /// The connection is over.
    Closed,
}

/// What `Client::handshake` found.
#[derive(Clone, Debug, PartialEq, Eq)]
pub enum Handshake {
    /// The message is incomplete: at least this many bytes are needed.
    More(usize),
    /// The greeting, which took this many bytes, was accepted.
    Greeted(usize),
    /// The request, which took this many bytes, asks for the command.
    Requested(Command, usize),
    /// The client is not served.
    Failed(Error),
}

/// What is to be done for a client next.
#[derive(Clone, Debug, PartialEq, Eq)]
pub enum Step {
    /// Await the client until it has sent at least this many bytes, and
    /// hand them in again.
    Read(usize),
    /// Send the reply to the client, drop this many bytes of what it sent
    /// and hand in what follows.
    Reply(Vec<u8>, usize),
    /// Send the reply to the client and close the connection. Nothing
    /// crosses the tunnel.
    Reject(Vec<u8>),
    /// Open a stream of `SERVICE` and send the request on it, drop this
    /// many bytes of what the client sent, and await the far side.
    Forward(Vec<u8>, usize),
}

/// What a `Step` is.
pub enum StepView {
    Read(usize),
    Reply(Seq<u8>, usize),
    Reject(Seq<u8>),
    Forward(Seq<u8>, usize),
}

impl View for Step {
    type V = StepView;

    open spec fn view(&self) -> StepView {
        match *self {
            Step::Read(needed) => StepView::Read(needed),
            Step::Reply(reply, taken) => StepView::Reply(reply@, taken),
            Step::Reject(reply) => StepView::Reject(reply@),
            Step::Forward(request, taken) => StepView::Forward(request@, taken),
        }
    }
}

/// What follows a response of the far side.
#[derive(Clone, Copy, Debug, PartialEq, Eq, Structural)]
pub enum Next {
    /// Close the connection to the client.
    Close,
    /// Await one more response.
    Await,
    /// Copy bytes both ways until either side ends.
    Relay,
}

/// The reply that a response of the far side brings the client, and what
/// follows it.
#[derive(Clone, Debug, PartialEq, Eq)]
pub struct Answer {
    pub reply: Vec<u8>,
    pub next: Next,
}

/// The step that `bytes` lead to in the given phase of the handshake.
pub open spec fn handshake_step(phase: Phase, bytes: Seq<u8>) -> StepView {
    if phase == Phase::Greeting {
        match parse_greeting(bytes) {
            Parse::More(needed) => StepView::Read(needed),
            Parse::Done(_, taken) => StepView::Reply(seq![VERSION, AUTHENTICATION_NONE], taken),
            Parse::Bad(e) => StepView::Reject(rejection_of(e)->0),
        }
    } else {
        match parse_command(bytes) {
            Parse::More(needed) => StepView::Read(needed),
            Parse::Done(command, taken) => StepView::Forward(encode_command(command), taken),
            Parse::Bad(e) => StepView::Reject(rejection_of(refusal_of(e))->0),
        }
    }
}

/// The phase that `bytes` lead to in the given phase of the handshake.
pub open spec fn handshake_phase(phase: Phase, bytes: Seq<u8>) -> Phase {
    if phase == Phase::Greeting {
        match parse_greeting(bytes) {
            Parse::More(_) => Phase::Greeting,
            Parse::Done(_, _) => Phase::Request,
            Parse::Bad(_) => Phase::Closed,
        }
    } else {
        match parse_command(bytes) {
            Parse::More(_) => Phase::Request,
            Parse::Done(command, _) => match command {
                super::protocol::CommandView::Connect(_) => Phase::Connect,
                super::protocol::CommandView::Bind => Phase::BindAcknowledgement,
            },
            Parse::Bad(_) => Phase::Closed,
        }
    }
}

/// One client connection.
#[derive(Clone, Copy, Debug, PartialEq, Eq, Structural)]
pub struct Client {
    pub phase: Phase,
}

impl Client {
    /// A connection that was just accepted.
    pub fn new() -> (client: Client)
        ensures
            client.phase == Phase::Greeting,
    {
        Client { phase: Phase::Greeting }
    }

    /// Reads the message that is due: the greeting, then the request.
    pub fn handshake(&mut self, input: &[u8]) -> (found: Handshake)
        requires
            old(self).phase == Phase::Greeting || old(self).phase == Phase::Request,
        ensures
            final(self).phase == handshake_phase(old(self).phase, input@),
            old(self).phase == Phase::Greeting ==> match parse_greeting(input@) {
                Parse::More(needed) => found == Handshake::More(needed),
                Parse::Done(_, taken) => found == Handshake::Greeted(taken),
                Parse::Bad(e) => found == Handshake::Failed(e),
            },
            old(self).phase == Phase::Request ==> match parse_command(input@) {
                Parse::More(needed) => found == Handshake::More(needed),
                Parse::Done(command, taken) => found matches Handshake::Requested(c, n) && c@
                    == command && n == taken && command.wf(),
                Parse::Bad(e) => found == Handshake::Failed(refusal_of(e)),
            },
            found matches Handshake::Failed(e) ==> !(e is Io),
            found matches Handshake::More(needed) ==> input@.len() < needed,
            found matches Handshake::Greeted(taken) ==> taken <= input@.len(),
            found matches Handshake::Requested(_, taken) ==> taken <= input@.len(),
    {
        if self.phase == Phase::Greeting {
            match read_greeting(input) {
                Parse::More(needed) => Handshake::More(needed),
                Parse::Done(_, taken) => {
                    self.phase = Phase::Request;
                    Handshake::Greeted(taken)
                },
                Parse::Bad(e) => {
                    self.phase = Phase::Closed;
                    Handshake::Failed(e)
                },
            }
        } else {
            match Command::parse(input) {
                Parse::More(needed) => Handshake::More(needed),
                Parse::Done(command, taken) => {
                    self.phase = match command {
                        Command::Connect(_) => Phase::Connect,
                        Command::Bind => Phase::BindAcknowledgement,
                    };
                    Handshake::Requested(command, taken)
                },
                Parse::Bad(e) => {
                    self.phase = Phase::Closed;
                    Handshake::Failed(Error::from(e))
                },
            }
        }
    }

    /// Serves a client up to the point where its request crosses the
    /// tunnel: says what to send for the bytes that it sent so far. A
    /// client that is not served gets the reply that tells it why, and
    /// nothing is forwarded.
    pub fn start(&mut self, input: &[u8]) -> (step: Step)
        requires
            old(self).phase == Phase::Greeting || old(self).phase == Phase::Request,
        ensures
            step@ == handshake_step(old(self).phase, input@),
            final(self).phase == handshake_phase(old(self).phase, input@),
            step matches Step::Read(needed) ==> input@.len() < needed,
            step matches Step::Reply(_, taken) ==> taken <= input@.len(),
            step matches Step::Forward(_, taken) ==> taken <= input@.len(),
    {
        match self.handshake(input) {
            Handshake::More(needed) => Step::Read(needed),
            Handshake::Greeted(taken) => {
                let mut reply: Vec<u8> = Vec::new();
                reply.push(VERSION);
                reply.push(AUTHENTICATION_NONE);
                assert(reply@ =~= seq![VERSION, AUTHENTICATION_NONE]);
                Step::Reply(reply, taken)
            },
            Handshake::Requested(command, taken) => Step::Forward(command.encode(), taken),
            Handshake::Failed(e) => match e.rejection() {
                Some(reply) => Step::Reject(reply),
                None => Step::Reject(Vec::new()),
            },
        }
    }

    /// Answers a connect request with the response of the far side. After
    /// a failure the connection is closed; after a success the bytes flow.
    pub fn command_connect(&mut self, response: &Response) -> (answer: Answer)
        requires
            old(self).phase == Phase::Connect,
            response@.wf(),
        ensures
            answer.reply@ == encode_response(response@),
            response@.is_ok() ==> answer.next == Next::Relay && final(self).phase == Phase::Relay,
            !response@.is_ok() ==> answer.next == Next::Close && final(self).phase
                == Phase::Closed,
    {
        let reply = response.encode();
        if response.is_ok() {
            self.phase = Phase::Relay;
            Answer { reply, next: Next::Relay }
        } else {
            self.phase = Phase::Closed;
            Answer { reply, next: Next::Close }
        }
    }

    /// Answers a bind request with one response of the far side: first the
    /// acknowledgement of the bind, then the arrival of a connection. Each
    /// brings the client one reply. The bytes flow after the second; a
    /// failure closes the connection, and nothing more is awaited.
    pub fn command_bind(&mut self, response: &Response) -> (answer: Answer)
        requires
            old(self).phase == Phase::BindAcknowledgement || old(self).phase
                == Phase::BindArrival,
            response@.wf(),
        ensures
            answer.reply@ == encode_response(response@),
            !response@.is_ok() ==> answer.next == Next::Close && final(self).phase
                == Phase::Closed,
            response@.is_ok() && old(self).phase == Phase::BindAcknowledgement ==> answer.next
                == Next::Await && final(self).phase == Phase::BindArrival,
            response@.is_ok() && old(self).phase == Phase::BindArrival ==> answer.next
                == Next::Relay && final(self).phase == Phase::Relay,
    {
        let reply = response.encode();
        if !response.is_ok() {
            self.phase = Phase::Closed;
            Answer { reply, next: Next::Close }
        } else if self.phase == Phase::BindAcknowledgement {
            self.phase = Phase::BindArrival;
            Answer { reply, next: Next::Await }
        } else {
            self.phase = Phase::Relay;
            Answer { reply, next: Next::Relay }
        }
    }
}

/// A client that is not served is sent a reply and closed, and nothing of
/// it crosses the tunnel: a step rejects exactly when the connection ends
/// closed, and a request is forwarded only where the connection goes on to
/// await the far side.
pub proof fn lemma_refused_client_is_closed(phase: Phase, bytes: Seq<u8>)
    requires
        phase == Phase::Greeting || phase == Phase::Request,
    ensures
        handshake_step(phase, bytes) is Reject <==> handshake_phase(phase, bytes) == Phase::Closed,
        handshake_step(phase, bytes) is Forward <==> (handshake_phase(phase, bytes)
            == Phase::Connect || handshake_phase(phase, bytes) == Phase::BindAcknowledgement),
        phase == Phase::Greeting ==> !(handshake_step(phase, bytes) is Forward),
        phase == Phase::Greeting && bytes.len() >= 2 && bytes[0] != VERSION ==> handshake_step(
            phase,
            bytes,
        ) == StepView::Reject(seq![VERSION, NO_ACCEPTABLE_METHOD]),
{
}

/// A request that is forwarded is read on the far side as the command
/// that the client asked for.
pub proof fn lemma_forwarded_request_is_read_back(bytes: Seq<u8>)
    requires
        parse_command(bytes) is Done,
    ensures
        handshake_step(Phase::Request, bytes) is Forward,
        parse_command(handshake_step(Phase::Request, bytes)->Forward_0) == Parse::<
            super::protocol::CommandView,
            super::protocol::Error,
        >::Done(
            parse_command(bytes)->Done_0,
            handshake_step(Phase::Request, bytes)->Forward_0.len() as usize,
        ),
{
    let command = parse_command(bytes)->Done_0;
    super::protocol::lemma_parsed_command_is_wf(bytes);
    super::protocol::lemma_parse_encoded_command(command, Seq::empty());
}

} // verus!
