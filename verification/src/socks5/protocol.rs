//! The SOCKS5 messages that follow the greeting: the request of a client
//! and the reply to it.
//!
//! Both are `[version][code][reserved][address type][address][port]`, the
//! port in network byte order. The same two messages cross the tunnel: the
//! frontend forwards the request that it parsed, and the far side answers
//! with the reply that the client is to get.

use vstd::prelude::*;

verus! {

/// The protocol version that is spoken.
pub const VERSION: u8 = 5;

/// The method "no authentication required".
pub const AUTHENTICATION_NONE: u8 = 0;

/// The method byte that refuses every proposed method.
pub const NO_ACCEPTABLE_METHOD: u8 = 0xFF;

pub const COMMAND_CONNECT: u8 = 1;

pub const COMMAND_BIND: u8 = 2;

pub const ADDRESS_IPV4: u8 = 1;

pub const ADDRESS_DOMAIN: u8 = 3;

pub const ADDRESS_IPV6: u8 = 4;

/// The reply code of a request that was carried out.
pub const REPLY_SUCCEEDED: u8 = 0;

/// The reply code "general SOCKS server failure".
pub const REPLY_GENERAL_FAILURE: u8 = 1;

/// The reply code "command not supported".
pub const REPLY_COMMAND_NOT_SUPPORTED: u8 = 7;

/// The reply code "address type not supported".
pub const REPLY_ADDRESS_TYPE_NOT_SUPPORTED: u8 = 8;

/// Why a message is no SOCKS5 message that this proxy serves.
#[derive(Clone, Copy, Debug, PartialEq, Eq, Structural)]
pub enum Error {
    /// The message starts with this version, which is not `VERSION`.
    UnsupportedVersion(u8),
    /// The request carries this command, which is neither connect nor bind.
    UnsupportedCommand(u8),
    /// The message carries an address of this type, which is none of IPv4,
    /// domain name and IPv6.
    AddressTypeNotSupported(u8),
}

/// How far a buffer got a parser.
#[derive(Clone, Debug, PartialEq, Eq)]
pub enum Parse<T, E> {
    /// The buffer starts with a whole message, which takes this many bytes.
    Done(T, usize),
    /// The message is incomplete: the buffer must hold at least this many
    /// bytes before more can be said.
    More(usize),
    /// The buffer starts with no message of the kind.
    Bad(E),
}

impl<T: View, E> View for Parse<T, E> {
    type V = Parse<T::V, E>;

    open spec fn view(&self) -> Parse<T::V, E> {
        match *self {
            Parse::Done(value, taken) => Parse::Done(value@, taken),
            Parse::More(needed) => Parse::More(needed),
            Parse::Bad(e) => Parse::Bad(e),
        }
    }
}

/// The kinds of address that a message may carry.
#[derive(Clone, Copy, Debug, PartialEq, Eq, Structural)]
pub enum AddressType {
    V4,
    Domain,
    V6,
}

/// The byte that announces an address of the given type.
pub open spec fn address_type_id(kind: AddressType) -> u8 {
    match kind {
        AddressType::V4 => ADDRESS_IPV4,
        AddressType::Domain => ADDRESS_DOMAIN,
        AddressType::V6 => ADDRESS_IPV6,
    }
}

/// An address and a port, as a message carries them.
#[derive(Clone, Debug, PartialEq, Eq)]
pub struct Destination {
    pub kind: AddressType,
    /// Four bytes for IPv4, sixteen for IPv6, the name for a domain.
    pub host: Vec<u8>,
    pub port: u16,
}

/// What a `Destination` is.
pub struct DestinationView {
    pub kind: AddressType,
    pub host: Seq<u8>,
    pub port: u16,
}

impl View for Destination {
    type V = DestinationView;

    open spec fn view(&self) -> DestinationView {
        DestinationView { kind: self.kind, host: self.host@, port: self.port }
    }
}

impl DestinationView {
    /// The host has the length that its type asks for.
    pub open spec fn wf(self) -> bool {
        match self.kind {
            AddressType::V4 => self.host.len() == 4,
            AddressType::Domain => self.host.len() <= 255,
            AddressType::V6 => self.host.len() == 16,
        }
    }

    /// The address `0.0.0.0:0`, which stands where no address is known.
    pub open spec fn unspecified() -> DestinationView {
        DestinationView { kind: AddressType::V4, host: seq![0u8, 0u8, 0u8, 0u8], port: 0 }
    }
}

/// The two bytes of a port, most significant first.
pub open spec fn port_field(port: u16) -> Seq<u8> {
    seq![(port / 256) as u8, (port % 256) as u8]
}

/// Address type, address and port as they stand in a message.
pub open spec fn address_field(dest: DestinationView) -> Seq<u8> {
    match dest.kind {
        AddressType::Domain => seq![ADDRESS_DOMAIN, dest.host.len() as u8] + dest.host
            + port_field(dest.port),
        _ => seq![address_type_id(dest.kind)] + dest.host + port_field(dest.port),
    }
}

/// Reads the address field whose type byte stands at `at`; `Done` carries
/// the index just behind the port.
pub open spec fn parse_address(bytes: Seq<u8>, at: nat) -> Parse<DestinationView, Error> {
    if bytes.len() <= at {
        Parse::More((at + 1) as usize)
    } else if bytes[at as int] != ADDRESS_IPV4 && bytes[at as int] != ADDRESS_DOMAIN && bytes[at as int]
        != ADDRESS_IPV6 {
        Parse::Bad(Error::AddressTypeNotSupported(bytes[at as int]))
    } else if bytes[at as int] == ADDRESS_DOMAIN && bytes.len() <= at + 1 {
        Parse::More((at + 2) as usize)
    } else {
        let kind = if bytes[at as int] == ADDRESS_IPV4 {
            AddressType::V4
        } else if bytes[at as int] == ADDRESS_DOMAIN {
            AddressType::Domain
        } else {
            AddressType::V6
        };
        let start: nat = if kind == AddressType::Domain {
            at + 2
        } else {
            at + 1
        };
        let len: nat = match kind {
            AddressType::V4 => 4,
            AddressType::Domain => bytes[(at + 1) as int] as nat,
            AddressType::V6 => 16,
        };
        let end: nat = start + len + 2;
        if bytes.len() < end {
            Parse::More(end as usize)
        } else {
            Parse::Done(
                DestinationView {
                    kind,
                    host: bytes.subrange(start as int, (start + len) as int),
                    port: (bytes[end - 2] as nat * 256 + bytes[end - 1] as nat) as u16,
                },
                end as usize,
            )
        }
    }
}

impl Destination {
    /// The address `0.0.0.0:0`.
    pub fn unspecified() -> (dest: Destination)
        ensures
            dest@ == DestinationView::unspecified(),
    {
        let mut host: Vec<u8> = Vec::new();
        host.push(0);
        host.push(0);
        host.push(0);
        host.push(0);
        assert(host@ =~= seq![0u8, 0u8, 0u8, 0u8]);
        Destination { kind: AddressType::V4, host, port: 0 }
    }

    /// Whether the host has the length that its type asks for.
    pub fn is_wf(&self) -> (ok: bool)
        ensures
            ok == self@.wf(),
    {
        match self.kind {
            AddressType::V4 => self.host.len() == 4,
            AddressType::Domain => self.host.len() <= 255,
            AddressType::V6 => self.host.len() == 16,
        }
    }

    /// Appends the address field of this destination to `out`.
    fn write(&self, out: &mut Vec<u8>)
        requires
            self@.wf(),
        ensures
            final(out)@ == old(out)@ + address_field(self@),
    {
        match self.kind {
            AddressType::V4 => {
                out.push(ADDRESS_IPV4);
            },
            AddressType::Domain => {
                out.push(ADDRESS_DOMAIN);
                out.push(self.host.len() as u8);
            },
            AddressType::V6 => {
                out.push(ADDRESS_IPV6);
            },
        }
        out.extend_from_slice(self.host.as_slice());
        out.push((self.port / 256) as u8);
        out.push((self.port % 256) as u8);
    }
}

/// Reads the address field whose type byte stands at `at`.
fn read_address(bytes: &[u8], at: usize) -> (parsed: Parse<Destination, Error>)
    requires
        at <= 3,
    ensures
        parsed@ == parse_address(bytes@, at as nat),
        parsed matches Parse::Done(dest, _) ==> dest@.wf(),
{
    let total: usize = bytes.len();
    if total <= at {
        return Parse::More(at + 1);
    }
    let id: u8 = bytes[at];
    if id != ADDRESS_IPV4 && id != ADDRESS_DOMAIN && id != ADDRESS_IPV6 {
        return Parse::Bad(Error::AddressTypeNotSupported(id));
    }
    if id == ADDRESS_DOMAIN && total <= at + 1 {
        return Parse::More(at + 2);
    }
    let kind = if id == ADDRESS_IPV4 {
        AddressType::V4
    } else if id == ADDRESS_DOMAIN {
        AddressType::Domain
    } else {
        AddressType::V6
    };
    let start: usize = match kind {
        AddressType::Domain => at + 2,
        _ => at + 1,
    };
    let len: usize = match kind {
        AddressType::V4 => 4,
        AddressType::Domain => bytes[at + 1] as usize,
        AddressType::V6 => 16,
    };
    let end: usize = start + len + 2;
    if total < end {
        return Parse::More(end);
    }
    let mut host: Vec<u8> = Vec::with_capacity(len);
    host.extend_from_slice(vstd::slice::slice_subrange(bytes, start, start + len));
    assert(host@ =~= bytes@.subrange(start as int, (start + len) as int));
    let port: u16 = (bytes[end - 2] as u16) * 256 + (bytes[end - 1] as u16);
    Parse::Done(Destination { kind, host, port }, end)
}

/// What a client asks for.
#[derive(Clone, Debug, PartialEq, Eq)]
pub enum Command {
    /// A connection to the destination.
    Connect(Destination),
    /// A port on the far side on which to await one connection.
    Bind,
}

/// What a `Command` is.
pub enum CommandView {
    Connect(DestinationView),
    Bind,
}

impl View for Command {
    type V = CommandView;

    open spec fn view(&self) -> CommandView {
        match *self {
            Command::Connect(dest) => CommandView::Connect(dest@),
            Command::Bind => CommandView::Bind,
        }
    }
}

impl CommandView {
    pub open spec fn wf(self) -> bool {
        match self {
            CommandView::Connect(dest) => dest.wf(),
            CommandView::Bind => true,
        }
    }
}

/// The request that asks for `command`. A bind request names no
/// destination: its address field is `0.0.0.0:0`.
pub open spec fn encode_command(command: CommandView) -> Seq<u8> {
    match command {
        CommandView::Connect(dest) => seq![VERSION, COMMAND_CONNECT, 0u8] + address_field(dest),
        CommandView::Bind => seq![VERSION, COMMAND_BIND, 0u8] + address_field(
            DestinationView::unspecified(),
        ),
    }
}

/// Reads a request. The version is judged first, then the command, then
/// the address type; the address of a bind request is read and dropped.
pub open spec fn parse_command(bytes: Seq<u8>) -> Parse<CommandView, Error> {
    if bytes.len() < 4 {
        Parse::More(4)
    } else if bytes[0] != VERSION {
        Parse::Bad(Error::UnsupportedVersion(bytes[0]))
    } else if bytes[1] != COMMAND_CONNECT && bytes[1] != COMMAND_BIND {
        Parse::Bad(Error::UnsupportedCommand(bytes[1]))
    } else {
        match parse_address(bytes, 3) {
            Parse::Done(dest, end) => if bytes[1] == COMMAND_CONNECT {
                Parse::Done(CommandView::Connect(dest), end)
            } else {
                Parse::Done(CommandView::Bind, end)
            },
            Parse::More(needed) => Parse::More(needed),
            Parse::Bad(e) => Parse::Bad(e),
        }
    }
}

impl Command {
    /// Reads the request at the start of `bytes`.
    pub fn parse(bytes: &[u8]) -> (parsed: Parse<Command, Error>)
        ensures
            parsed@ == parse_command(bytes@),
            parsed matches Parse::Done(command, taken) ==> command@.wf() && taken <= bytes@.len(),
            parsed matches Parse::More(needed) ==> bytes@.len() < needed,
    {
        if bytes.len() < 4 {
            return Parse::More(4);
        }
        let version: u8 = bytes[0];
        if version != VERSION {
            return Parse::Bad(Error::UnsupportedVersion(version));
        }
        let code: u8 = bytes[1];
        if code != COMMAND_CONNECT && code != COMMAND_BIND {
            return Parse::Bad(Error::UnsupportedCommand(code));
        }
        match read_address(bytes, 3) {
            Parse::Done(dest, end) => {
                if code == COMMAND_CONNECT {
                    Parse::Done(Command::Connect(dest), end)
                } else {
                    Parse::Done(Command::Bind, end)
                }
            },
            Parse::More(needed) => Parse::More(needed),
            Parse::Bad(e) => Parse::Bad(e),
        }
    }

    /// The request that asks for this command, as it is forwarded to the
    /// far side.
    pub fn encode(&self) -> (bytes: Vec<u8>)
        requires
            self@.wf(),
        ensures
            bytes@ == encode_command(self@),
    {
        let mut bytes: Vec<u8> = Vec::new();
        bytes.push(VERSION);
        match self {
            Command::Connect(dest) => {
                bytes.push(COMMAND_CONNECT);
                bytes.push(0);
                dest.write(&mut bytes);
            },
            Command::Bind => {
                bytes.push(COMMAND_BIND);
                bytes.push(0);
                let dest = Destination::unspecified();
                dest.write(&mut bytes);
            },
        }
        bytes
    }
}

/// What the far side answers: a reply code and the address that it bound.
#[derive(Clone, Debug, PartialEq, Eq)]
pub struct Response {
    /// `REPLY_SUCCEEDED`, or the code of a failure.
    pub code: u8,
    /// The bound address; `0.0.0.0:0` where there is none.
    pub bound: Destination,
}

/// What a `Response` is.
pub struct ResponseView {
    pub code: u8,
    pub bound: DestinationView,
}

impl View for Response {
    type V = ResponseView;

    open spec fn view(&self) -> ResponseView {
        ResponseView { code: self.code, bound: self.bound@ }
    }
}

impl ResponseView {
    pub open spec fn wf(self) -> bool {
        self.bound.wf()
    }

    /// The request was carried out.
    pub open spec fn is_ok(self) -> bool {
        self.code == REPLY_SUCCEEDED
    }
}

/// The reply frame of a response.
pub open spec fn encode_response(response: ResponseView) -> Seq<u8> {
    seq![VERSION, response.code, 0u8] + address_field(response.bound)
}

/// The reply frame that tells a failure and names no address.
pub open spec fn failure_reply(code: u8) -> Seq<u8> {
    seq![VERSION, code, 0u8, ADDRESS_IPV4, 0u8, 0u8, 0u8, 0u8, 0u8, 0u8]
}

/// Reads a reply frame.
pub open spec fn parse_response(bytes: Seq<u8>) -> Parse<ResponseView, Error> {
    if bytes.len() < 4 {
        Parse::More(4)
    } else if bytes[0] != VERSION {
        Parse::Bad(Error::UnsupportedVersion(bytes[0]))
    } else {
        match parse_address(bytes, 3) {
            Parse::Done(bound, end) => Parse::Done(ResponseView { code: bytes[1], bound }, end),
            Parse::More(needed) => Parse::More(needed),
            Parse::Bad(e) => Parse::Bad(e),
        }
    }
}

impl Response {
    /// A response with the given code and no bound address.
    pub fn failure(code: u8) -> (response: Response)
        ensures
            response@ == (ResponseView { code, bound: DestinationView::unspecified() }),
            response@.wf(),
    {
        Response { code, bound: Destination::unspecified() }
    }

    /// Whether the far side carried the request out.
    pub fn is_ok(&self) -> (ok: bool)
        ensures
            ok == self@.is_ok(),
    {
        self.code == REPLY_SUCCEEDED
    }

    /// Reads the reply frame at the start of `bytes`.
    pub fn parse(bytes: &[u8]) -> (parsed: Parse<Response, Error>)
        ensures
            parsed@ == parse_response(bytes@),
            parsed matches Parse::Done(response, taken) ==> response@.wf() && taken
                <= bytes@.len(),
            parsed matches Parse::More(needed) ==> bytes@.len() < needed,
    {
        if bytes.len() < 4 {
            return Parse::More(4);
        }
        let version: u8 = bytes[0];
        if version != VERSION {
            return Parse::Bad(Error::UnsupportedVersion(version));
        }
        let code: u8 = bytes[1];
        match read_address(bytes, 3) {
            Parse::Done(bound, end) => Parse::Done(Response { code, bound }, end),
            Parse::More(needed) => Parse::More(needed),
            Parse::Bad(e) => Parse::Bad(e),
        }
    }

    /// The reply frame of this response, byte for byte what the client is
    /// sent.
    pub fn encode(&self) -> (bytes: Vec<u8>)
        requires
            self@.wf(),
        ensures
            bytes@ == encode_response(self@),
    {
        let mut bytes: Vec<u8> = Vec::new();
        bytes.push(VERSION);
        bytes.push(self.code);
        bytes.push(0);
        self.bound.write(&mut bytes);
        bytes
    }
}

/// An address field is read back as the destination that it was written
/// from, wherever in a buffer it stands and whatever follows it.
pub proof fn lemma_parse_address_field(
    head: Seq<u8>,
    dest: DestinationView,
    tail: Seq<u8>,
)
    requires
        dest.wf(),
        head.len() <= 3,
    ensures
        parse_address(head + address_field(dest) + tail, head.len()) == Parse::<
            DestinationView,
            Error,
        >::Done(dest, (head.len() + address_field(dest).len()) as usize),
{
    let bytes = head + address_field(dest) + tail;
    let start: nat = if dest.kind == AddressType::Domain {
        head.len() + 2
    } else {
        head.len() + 1
    };
    assert(bytes.subrange(start as int, (start + dest.host.len()) as int) =~= dest.host);
}

/// An address that was read has the length that its type asks for.
pub proof fn lemma_parsed_address_is_wf(bytes: Seq<u8>, at: nat)
    requires
        parse_address(bytes, at) is Done,
    ensures
        parse_address(bytes, at)->Done_0.wf(),
{
}

/// A command that was read is well formed.
pub proof fn lemma_parsed_command_is_wf(bytes: Seq<u8>)
    requires
        parse_command(bytes) is Done,
    ensures
        parse_command(bytes)->Done_0.wf(),
{
    lemma_parsed_address_is_wf(bytes, 3);
}

/// A request is read back as the command that it was written for, whatever
/// follows it in the buffer.
pub proof fn lemma_parse_encoded_command(command: CommandView, tail: Seq<u8>)
    requires
        command.wf(),
    ensures
        parse_command(encode_command(command) + tail) == Parse::<CommandView, Error>::Done(
            command,
            encode_command(command).len() as usize,
        ),
{
    let dest = match command {
        CommandView::Connect(dest) => dest,
        CommandView::Bind => DestinationView::unspecified(),
    };
    let code = match command {
        CommandView::Connect(_) => COMMAND_CONNECT,
        CommandView::Bind => COMMAND_BIND,
    };
    lemma_parse_address_field(seq![VERSION, code, 0u8], dest, tail);
}

/// A reply frame is read back as the response that it was written for,
/// whatever follows it in the buffer.
pub proof fn lemma_parse_encoded_response(response: ResponseView, tail: Seq<u8>)
    requires
        response.wf(),
    ensures
        parse_response(encode_response(response) + tail) == Parse::<ResponseView, Error>::Done(
            response,
            encode_response(response).len() as usize,
        ),
{
    lemma_parse_address_field(seq![VERSION, response.code, 0u8], response.bound, tail);
}

/// A response without an address is written as the fixed failure frame.
pub proof fn lemma_failure_reply(code: u8)
    ensures
        encode_response(ResponseView { code, bound: DestinationView::unspecified() })
            == failure_reply(code),
{
}

} // verus!
