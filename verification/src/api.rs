//! Chunks: the framed units that carry every service's traffic over the
//! one virtual channel, and their wire format.
//!
//! A frame is `[service id][payload length, 2 bytes little endian][payload]`.

use crate::text::{decimal, with_number};
use vstd::prelude::*;
use vstd::string::*;

verus! {

/// Largest number of bytes that one frame may occupy on the channel.
pub const CHUNK_LENGTH: usize = 1600;

/// Bytes of a frame that are not payload: the service id and the length.
pub const SERIALIZE_OVERHEAD: usize = 3;

/// Largest payload that one chunk may carry.
pub const MAX_PAYLOAD_LENGTH: usize = 1597;

/// The services that share the channel.
#[derive(Clone, Copy, Debug, PartialEq, Eq, Structural)]
pub enum Service {
    Clipboard,
    Command,
    Ftp,
    Socks5,
    Stage0,
}

/// The identifier that stands for `service` on the wire.
pub open spec fn service_id(service: Service) -> u8 {
    match service {
        Service::Clipboard => 0u8,
        Service::Command => 1u8,
        Service::Ftp => 2u8,
        Service::Socks5 => 3u8,
        Service::Stage0 => 4u8,
    }
}

/// The service that `id` stands for, if any.
pub open spec fn service_of(id: u8) -> Option<Service> {
    if id == 0 {
        Some(Service::Clipboard)
    } else if id == 1 {
        Some(Service::Command)
    } else if id == 2 {
        Some(Service::Ftp)
    } else if id == 3 {
        Some(Service::Socks5)
    } else if id == 4 {
        Some(Service::Stage0)
    } else {
        None
    }
}

/// The name of a service.
pub open spec fn service_name(service: Service) -> Seq<char> {
    match service {
        Service::Clipboard => "clipboard"@,
        Service::Command => "command"@,
        Service::Ftp => "ftp"@,
        Service::Socks5 => "socks5"@,
        Service::Stage0 => "stage0"@,
    }
}

impl Service {
    /// The name of this service.
    pub fn name(&self) -> (name: String)
        ensures
            name@ == service_name(*self),
    {
        match self {
            Service::Clipboard => String::from_str("clipboard"),
            Service::Command => String::from_str("command"),
            Service::Ftp => String::from_str("ftp"),
            Service::Socks5 => String::from_str("socks5"),
            Service::Stage0 => String::from_str("stage0"),
        }
    }

    /// The identifier of this service on the wire.
    pub fn id(&self) -> (id: u8)
        ensures
            id == service_id(*self),
    {
        match self {
            Service::Clipboard => 0,
            Service::Command => 1,
            Service::Ftp => 2,
            Service::Socks5 => 3,
            Service::Stage0 => 4,
        }
    }

    /// The service with the given identifier; `None` for an identifier
    /// that no service has.
    pub fn from_id(id: u8) -> (service: Option<Service>)
        ensures
            service == service_of(id),
    {
        if id == 0 {
            Some(Service::Clipboard)
        } else if id == 1 {
            Some(Service::Command)
        } else if id == 2 {
            Some(Service::Ftp)
        } else if id == 3 {
            Some(Service::Socks5)
        } else if id == 4 {
            Some(Service::Stage0)
        } else {
            None
        }
    }
}

/// Why a chunk could not be written to, or read from, its wire format.
#[derive(Clone, Copy, Debug, PartialEq, Eq, Structural)]
pub enum Error {
    /// The buffer holds fewer bytes than a frame's header; its length.
    Truncated(usize),
    /// The first byte is the identifier of no service.
    UnknownService(u8),
    /// The payload, or the length that the header declares, is above
    /// `MAX_PAYLOAD_LENGTH`; that length.
    PayloadTooLong(usize),
    /// The header declares the first length, the buffer holds a payload of
    /// the second.
    LengthMismatch(usize, usize),
}

/// The text of an error.
pub open spec fn error_text(e: Error) -> Seq<char> {
    match e {
        Error::Truncated(len) => "truncated frame of length "@ + decimal(len as nat),
        Error::UnknownService(id) => "unknown service "@ + decimal(id as nat),
        Error::PayloadTooLong(len) => "payload too long: "@ + decimal(len as nat),
        Error::LengthMismatch(declared, held) => "length mismatch: declared "@ + decimal(
            declared as nat,
        ) + ", found "@ + decimal(held as nat),
    }
}

impl Error {
    /// The text of this error.
    pub fn message(&self) -> (text: String)
        ensures
            text@ == error_text(*self),
    {
        match self {
            Error::Truncated(len) => with_number("truncated frame of length ", *len as u64),
            Error::UnknownService(id) => with_number("unknown service ", *id as u64),
            Error::PayloadTooLong(len) => with_number("payload too long: ", *len as u64),
            Error::LengthMismatch(declared, held) => {
                let mut text = with_number("length mismatch: declared ", *declared as u64);
                text.append(", found ");
                text.append(crate::text::decimal_string(*held as u64).as_str());
                text
            },
        }
    }
}

/// What a chunk is: a service and the bytes sent to or from it.
pub struct ChunkView {
    pub service: Service,
    pub payload: Seq<u8>,
}

/// One framed unit of service traffic.
#[derive(Clone, Debug, PartialEq, Eq)]
pub struct Chunk {
    pub service: Service,
    pub payload: Vec<u8>,
}

impl View for Chunk {
    type V = ChunkView;

    open spec fn view(&self) -> ChunkView {
        ChunkView { service: self.service, payload: self.payload@ }
    }
}

/// The two bytes that declare a payload of `len` bytes.
pub open spec fn length_field(len: nat) -> Seq<u8> {
    seq![(len % 256) as u8, (len / 256) as u8]
}

/// The payload length that the header of `bytes` declares.
pub open spec fn declared_length(bytes: Seq<u8>) -> nat
    recommends
        bytes.len() >= SERIALIZE_OVERHEAD,
{
    (bytes[1] as nat) + 256 * (bytes[2] as nat)
}

/// The frame of a chunk whose payload is no longer than
/// `MAX_PAYLOAD_LENGTH`.
pub open spec fn encode(chunk: ChunkView) -> Seq<u8> {
    seq![service_id(chunk.service)] + length_field(chunk.payload.len()) + chunk.payload
}

/// The chunk whose frame `bytes` are, or the first reason why they are
/// no frame.
pub open spec fn decode(bytes: Seq<u8>) -> Result<ChunkView, Error> {
    if bytes.len() < SERIALIZE_OVERHEAD {
        Err(Error::Truncated(bytes.len() as usize))
    } else if service_of(bytes[0]) is None {
        Err(Error::UnknownService(bytes[0]))
    } else if declared_length(bytes) > MAX_PAYLOAD_LENGTH {
        Err(Error::PayloadTooLong(declared_length(bytes) as usize))
    } else if declared_length(bytes) != bytes.len() - SERIALIZE_OVERHEAD {
        Err(Error::LengthMismatch(
            declared_length(bytes) as usize,
            (bytes.len() - SERIALIZE_OVERHEAD) as usize,
        ))
    } else {
        Ok(ChunkView { service: service_of(bytes[0])->0, payload: bytes.skip(SERIALIZE_OVERHEAD as int) })
    }
}

impl Chunk {
    /// Bytes that a frame takes besides its payload.
    pub fn serialized_overhead() -> (n: usize)
        ensures
            n == SERIALIZE_OVERHEAD,
    {
        SERIALIZE_OVERHEAD
    }

    /// Largest payload of one chunk.
    pub fn max_payload_length() -> (n: usize)
        ensures
            n == MAX_PAYLOAD_LENGTH,
            n + SERIALIZE_OVERHEAD == CHUNK_LENGTH,
    {
        MAX_PAYLOAD_LENGTH
    }

    /// A chunk of `payload` for `service`; refused when the payload is
    /// longer than one chunk may carry.
    pub fn new(service: Service, payload: &[u8]) -> (chunk: Result<Chunk, Error>)
        ensures
            payload@.len() <= MAX_PAYLOAD_LENGTH ==> chunk is Ok && chunk->Ok_0@ == (ChunkView {
                service,
                payload: payload@,
            }),
            payload@.len() > MAX_PAYLOAD_LENGTH ==> chunk == Err::<Chunk, Error>(
                Error::PayloadTooLong(payload@.len() as usize),
            ),
    {
        if payload.len() > MAX_PAYLOAD_LENGTH {
            return Err(Error::PayloadTooLong(payload.len()));
        }
        let mut bytes: Vec<u8> = Vec::new();
        bytes.extend_from_slice(payload);
        assert(bytes@ =~= payload@);
        Ok(Chunk { service, payload: bytes })
    }

    /// Number of bytes of this chunk's frame.
    pub fn serialized_size(&self) -> (n: usize)
        requires
            SERIALIZE_OVERHEAD + self.payload@.len() <= usize::MAX,
        ensures
            n == SERIALIZE_OVERHEAD + self.payload@.len(),
            n == encode(self@).len(),
    {
        SERIALIZE_OVERHEAD + self.payload.len()
    }

    /// The frame of this chunk. Fails only for a payload above
    /// `MAX_PAYLOAD_LENGTH`.
    pub fn serialize(&self) -> (bytes: Result<Vec<u8>, Error>)
        ensures
            self.payload@.len() <= MAX_PAYLOAD_LENGTH ==> bytes is Ok && bytes->Ok_0@ == encode(
                self@,
            ) && bytes->Ok_0@.len() == SERIALIZE_OVERHEAD + self.payload@.len(),
            self.payload@.len() > MAX_PAYLOAD_LENGTH ==> bytes == Err::<Vec<u8>, Error>(
                Error::PayloadTooLong(self.payload@.len() as usize),
            ),
    {
        let len: usize = self.payload.len();
        if len > MAX_PAYLOAD_LENGTH {
            return Err(Error::PayloadTooLong(len));
        }
        let mut bytes: Vec<u8> = Vec::with_capacity(SERIALIZE_OVERHEAD + len);
        bytes.push(self.service.id());
        bytes.push((len % 256) as u8);
        bytes.push((len / 256) as u8);
        bytes.extend_from_slice(self.payload.as_slice());
        Ok(bytes)
    }

    /// Reads one frame, which must fill `data` exactly. The buffer is only
    /// read; on failure nothing has been built.
    pub fn deserialize(data: &[u8]) -> (chunk: Result<Chunk, Error>)
        ensures
            match decode(data@) {
                Ok(read) => chunk is Ok && chunk->Ok_0@ == read,
                Err(e) => chunk == Err::<Chunk, Error>(e),
            },
            data@.len() < SERIALIZE_OVERHEAD ==> chunk is Err,
            data@.len() >= SERIALIZE_OVERHEAD && declared_length(data@) > data@.len()
                - SERIALIZE_OVERHEAD ==> chunk is Err,
    {
        let total: usize = data.len();
        if total < SERIALIZE_OVERHEAD {
            return Err(Error::Truncated(total));
        }
        let id: u8 = data[0];
        let service = match Service::from_id(id) {
            Some(service) => service,
            None => {
                return Err(Error::UnknownService(id));
            },
        };
        let declared: usize = (data[1] as usize) + 256 * (data[2] as usize);
        if declared > MAX_PAYLOAD_LENGTH {
            return Err(Error::PayloadTooLong(declared));
        }
        let held: usize = total - SERIALIZE_OVERHEAD;
        if declared != held {
            return Err(Error::LengthMismatch(declared, held));
        }
        let mut payload: Vec<u8> = Vec::with_capacity(held);
        payload.extend_from_slice(vstd::slice::slice_subrange(data, SERIALIZE_OVERHEAD, total));
        assert(payload@ =~= data@.skip(SERIALIZE_OVERHEAD as int));
        Ok(Chunk { service, payload })
    }
}

/// What travels on the queues between the services and the transport.
#[derive(Clone, Debug, PartialEq, Eq)]
pub enum ChunkControl {
    /// A chunk to relay.
    Chunk(Chunk),
    /// The transport-facing half of the pipeline is to be torn down.
    Shutdown,
}

/// What a `ChunkControl` is.
pub enum ControlView {
    Chunk(ChunkView),
    Shutdown,
}

impl View for ChunkControl {
    type V = ControlView;

    open spec fn view(&self) -> ControlView {
        match *self {
            ChunkControl::Chunk(chunk) => ControlView::Chunk(chunk@),
            ChunkControl::Shutdown => ControlView::Shutdown,
        }
    }
}

/// Every service is found again from its identifier.
pub proof fn lemma_service_roundtrip(service: Service)
    ensures
        service_of(service_id(service)) == Some(service),
{
}

/// An identifier that names a service is that service's identifier.
pub proof fn lemma_service_id_roundtrip(id: u8)
    requires
        service_of(id) is Some,
    ensures
        service_id(service_of(id)->0) == id,
{
}

/// Reading what was written gives the chunk back: for every chunk whose
/// payload is no longer than `MAX_PAYLOAD_LENGTH`, `decode(encode(chunk))`
/// is that chunk.
pub proof fn lemma_decode_encode(chunk: ChunkView)
    requires
        chunk.payload.len() <= MAX_PAYLOAD_LENGTH,
    ensures
        decode(encode(chunk)) == Ok::<ChunkView, Error>(chunk),
        encode(chunk).len() == SERIALIZE_OVERHEAD + chunk.payload.len(),
{
    assert(encode(chunk).skip(SERIALIZE_OVERHEAD as int) =~= chunk.payload);
    lemma_service_roundtrip(chunk.service);
}

/// Writing what was read gives the bytes back: bytes that are a frame are
/// the frame of the chunk that is read from them, so no two buffers hold
/// the same chunk.
pub proof fn lemma_encode_decode(bytes: Seq<u8>)
    requires
        decode(bytes) is Ok,
    ensures
        encode(decode(bytes)->Ok_0) == bytes,
        decode(bytes)->Ok_0.payload.len() <= MAX_PAYLOAD_LENGTH,
{
    lemma_service_id_roundtrip(bytes[0]);
}

/// A buffer shorter than a header, or one whose header declares more
/// payload than the buffer holds, is no frame.
pub proof fn lemma_decode_rejects(bytes: Seq<u8>)
    requires
        bytes.len() < SERIALIZE_OVERHEAD || declared_length(bytes) > bytes.len()
            - SERIALIZE_OVERHEAD,
    ensures
        decode(bytes) is Err,
{
}

} // verus!
