//! The multiplexer: many byte streams of the services on the one channel.
//!
//! Towards the channel, the bytes of a service are cut into chunks that
//! bear its identifier. From the channel, a chunk goes to the stream that
//! is connected for its service, and is dropped where none is.

use crate::api::{Chunk, ChunkControl, Service, MAX_PAYLOAD_LENGTH};
use crate::backend::{put, Error};
use crossbeam_channel::Sender;
use vstd::prelude::*;

verus! {

/// The payloads of `chunks`, one after the other.
pub open spec fn payloads(chunks: Seq<Chunk>) -> Seq<u8>
    decreases chunks.len(),
{
    if chunks.len() == 0 {
        Seq::empty()
    } else {
        payloads(chunks.drop_last()) + chunks.last().payload@
    }
}

/// The number of chunks that `len` bytes are cut into.
pub open spec fn chunks_for(len: nat) -> nat {
    (len + MAX_PAYLOAD_LENGTH - 1) as nat / (MAX_PAYLOAD_LENGTH as nat)
}

/// Cuts the bytes of a service into chunks: as few as hold them, each but
/// the last as large as a chunk may be, none empty, in the order of the
/// bytes.
pub fn wrap(service: Service, data: &[u8]) -> (chunks: Vec<Chunk>)
    ensures
        payloads(chunks@) == data@,
        chunks@.len() == chunks_for(data@.len()),
        forall|i: int|
            0 <= i < chunks@.len() ==> (#[trigger] chunks@[i]).service == service && 0
                < chunks@[i].payload@.len() <= MAX_PAYLOAD_LENGTH,
        forall|i: int|
            0 <= i < chunks@.len() - 1 ==> (#[trigger] chunks@[i]).payload@.len()
                == MAX_PAYLOAD_LENGTH,
{
    let total: usize = data.len();
    let mut chunks: Vec<Chunk> = Vec::new();
    let mut done: usize = 0;
    while done < total
        invariant
            done <= total,
            total == data@.len(),
            payloads(chunks@) == data@.subrange(0, done as int),
            done == chunks@.len() * MAX_PAYLOAD_LENGTH || done == total,
            chunks@.len() == chunks_for(done as nat),
            forall|i: int|
                0 <= i < chunks@.len() ==> (#[trigger] chunks@[i]).service == service && 0
                    < chunks@[i].payload@.len() <= MAX_PAYLOAD_LENGTH,
            forall|i: int|
                0 <= i < chunks@.len() && (i < chunks@.len() - 1 || done < total) ==> (
                #[trigger] chunks@[i]).payload@.len() == MAX_PAYLOAD_LENGTH,
        decreases total - done,
    {
        let left: usize = total - done;
        let take: usize = if left > MAX_PAYLOAD_LENGTH {
            MAX_PAYLOAD_LENGTH
        } else {
            left
        };
        let mut payload: Vec<u8> = Vec::with_capacity(take);
        payload.extend_from_slice(vstd::slice::slice_subrange(data, done, done + take));
        let ghost before = chunks@;
        let chunk = Chunk { service, payload };
        chunks.push(chunk);
        proof {
            assert(chunks@.drop_last() =~= before);
        }
        done = done + take;
    }
    chunks
}

/// Cuts the bytes of a service into chunks and puts them on the queue
/// towards the channel, in order, waiting while the queue is full. It
/// fails only where the queue has lost its other end, and then puts
/// nothing more.
pub fn send(to_svc: &Sender<ChunkControl>, service: Service, data: &[u8]) -> (result: Result<
    (),
    Error,
>)
    ensures
        result is Err ==> result == Err::<(), Error>(Error::PipelineBroken),
        data@.len() == 0 ==> result is Ok,
{
    let mut chunks = wrap(service, data);
    while chunks.len() > 0
        invariant
            data@.len() == 0 ==> chunks@.len() == 0,
        decreases chunks@.len(),
    {
        let chunk = chunks.remove(0);
        match put(to_svc, ChunkControl::Chunk(chunk)) {
            Ok(()) => {},
            Err(e) => {
                return Err(e);
            },
        }
    }
    Ok(())
}

/// For each service the stream that is connected for it, if any. A stream
/// is known by a number that its owner chose.
#[derive(Clone, Copy, Debug, PartialEq, Eq, Structural)]
pub struct Channel {
    pub clipboard: Option<usize>,
    pub command: Option<usize>,
    pub ftp: Option<usize>,
    pub socks5: Option<usize>,
    pub stage0: Option<usize>,
}

impl Channel {
    /// The stream that is connected for `service`.
    pub open spec fn stream_of(self, service: Service) -> Option<usize> {
        match service {
            Service::Clipboard => self.clipboard,
            Service::Command => self.command,
            Service::Ftp => self.ftp,
            Service::Socks5 => self.socks5,
            Service::Stage0 => self.stage0,
        }
    }

    /// A channel on which nothing is connected.
    pub fn new() -> (channel: Channel)
        ensures
            forall|service: Service| channel.stream_of(service) is None,
    {
        Channel { clipboard: None, command: None, ftp: None, socks5: None, stage0: None }
    }

    fn set(&mut self, service: Service, stream: Option<usize>) -> (stale: Option<usize>)
        ensures
            stale == old(self).stream_of(service),
            final(self).stream_of(service) == stream,
            forall|other: Service|
                other != service ==> final(self).stream_of(other) == old(self).stream_of(other),
    {
        let stale = self.dispatch_to(service);
        match service {
            Service::Clipboard => {
                self.clipboard = stream;
            },
            Service::Command => {
                self.command = stream;
            },
            Service::Ftp => {
                self.ftp = stream;
            },
            Service::Socks5 => {
                self.socks5 = stream;
            },
            Service::Stage0 => {
                self.stage0 = stream;
            },
        }
        stale
    }

    fn dispatch_to(&self, service: Service) -> (stream: Option<usize>)
        ensures
            stream == self.stream_of(service),
    {
        match service {
            Service::Clipboard => self.clipboard,
            Service::Command => self.command,
            Service::Ftp => self.ftp,
            Service::Socks5 => self.socks5,
            Service::Stage0 => self.stage0,
        }
    }

    /// Connects `stream` for `service`, in place of the one that was
    /// connected for it, which is returned. The other services keep theirs.
    pub fn connect(&mut self, service: Service, stream: usize) -> (stale: Option<usize>)
        ensures
            stale == old(self).stream_of(service),
            final(self).stream_of(service) == Some(stream),
            forall|other: Service|
                other != service ==> final(self).stream_of(other) == old(self).stream_of(other),
    {
        self.set(service, Some(stream))
    }

    /// Releases the identifier of `service`: no stream is connected for it
    /// any more. The stream that was is returned.
    pub fn release(&mut self, service: Service) -> (stale: Option<usize>)
        ensures
            stale == old(self).stream_of(service),
            final(self).stream_of(service) is None,
            forall|other: Service|
                other != service ==> final(self).stream_of(other) == old(self).stream_of(other),
    {
        self.set(service, None)
    }

    /// The stream that a chunk from the channel is for; `None` where no
    /// stream is connected for its service, and the chunk is to be dropped.
    pub fn dispatch(&self, chunk: &Chunk) -> (stream: Option<usize>)
        ensures
            stream == self.stream_of(chunk.service),
    {
        self.dispatch_to(chunk.service)
    }
}

} // verus!
