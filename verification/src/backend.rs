//! The pipeline between the services and the channel: two directions, each
//! with its queue, and one handle that both share.
//!
//! Chunks of the services wait in a bounded queue for the channel, so that
//! a slow channel holds the services back; what the channel brings waits in
//! an unbounded queue, so that reading never stalls. The loops that call
//! the host live with the caller: this module says what each turn of them
//! decides.

use crate::api::{decode, encode, ChunkControl, ControlView, CHUNK_LENGTH, MAX_PAYLOAD_LENGTH};
use crate::svc::{control_after, controls_after, lemma_one_shutdown, state_after, Response, State, Svc};
use crossbeam_channel::{Receiver, RecvError, SendError, Sender};
use vstd::prelude::*;
use vstd::std_specs::convert::FromSpecImpl;
use vstd::string::*;

verus! {

/// Number of controls that may wait for the channel.
pub const TO_SVC_CHANNEL_SIZE: usize = 256;

/// Seconds to wait after an opening that failed, before the next.
pub const REOPEN_DELAY_SECONDS: u64 = 1;

/// `crossbeam_channel::Sender`: the end of a queue that values are put in.
/// Nothing of what is inside is known here.
#[verifier::external_type_specification]
#[verifier::external_body]
#[verifier::reject_recursive_types(T)]
pub struct ExSender<T>(Sender<T>);

/// `crossbeam_channel::Receiver`: the end of a queue that values are taken
/// from. Nothing of what is inside is known here.
#[verifier::external_type_specification]
#[verifier::external_body]
#[verifier::reject_recursive_types(T)]
pub struct ExReceiver<T>(Receiver<T>);

/// `crossbeam_channel::SendError`: a queue has no receiver left. It holds
/// the value that could not be put.
#[verifier::external_type_specification]
#[verifier::external_body]
#[verifier::reject_recursive_types(T)]
pub struct ExSendError<T>(SendError<T>);

/// `crossbeam_channel::RecvError`: a queue is empty and has no sender left.
#[verifier::external_type_specification]
#[verifier::external_body]
pub struct ExRecvError(RecvError);

/// What `Sender::capacity` returns for `tx`: the number of controls that
/// the queue holds at most, which is the limit that it was made with;
/// `None` for a queue without a limit.
pub uninterp spec fn queue_limit(tx: Sender<ChunkControl>) -> Option<usize>;

/// `crossbeam_channel::bounded`: a queue that holds at most `cap` values.
/// The limit of its sender is `cap`.
#[verifier::external_body]
fn bounded(cap: usize) -> (ends: (Sender<ChunkControl>, Receiver<ChunkControl>))
    requires
        0 < cap <= TO_SVC_CHANNEL_SIZE,
    ensures
        queue_limit(ends.0) == Some(cap),
{
    crossbeam_channel::bounded(cap)
}

/// `crossbeam_channel::unbounded`: a queue that grows as needed. Its
/// sender has no limit.
#[verifier::external_body]
fn unbounded() -> (ends: (Sender<ChunkControl>, Receiver<ChunkControl>))
    ensures
        queue_limit(ends.0) is None,
{
    crossbeam_channel::unbounded()
}

/// `Sender::capacity`: the limit that the queue was made with.
#[verifier::external_body]
fn capacity(tx: &Sender<ChunkControl>) -> (limit: Option<usize>)
    ensures
        limit == queue_limit(*tx),
{
    tx.capacity()
}

/// `Sender::send`: waits while the queue is full; fails when no receiver
/// is left. Nothing is claimed of which of the two happens.
#[verifier::external_body]
fn send(tx: &Sender<ChunkControl>, control: ChunkControl) -> Result<(), SendError<ChunkControl>> {
    tx.send(control)
}

/// `Receiver::recv`: waits while the queue is empty; fails when it is
/// empty and no sender is left. Nothing is claimed of what is received.
#[verifier::external_body]
fn recv(rx: &Receiver<ChunkControl>) -> Result<ChunkControl, RecvError> {
    rx.recv()
}

/// Why the pipeline stops.
#[derive(Clone, Copy, Debug, PartialEq, Eq, Structural)]
pub enum Error {
    /// The channel failed.
    Svc(crate::svc::Error),
    /// A queue has lost its other end.
    PipelineBroken,
}

impl From<crate::svc::Error> for Error {
    fn from(e: crate::svc::Error) -> (error: Error) {
        Error::Svc(e)
    }
}

impl FromSpecImpl<crate::svc::Error> for Error {
    open spec fn obeys_from_spec() -> bool {
        true
    }

    open spec fn from_spec(e: crate::svc::Error) -> Error {
        Error::Svc(e)
    }
}

impl From<RecvError> for Error {
    fn from(e: RecvError) -> (error: Error) {
        Error::PipelineBroken
    }
}

impl FromSpecImpl<RecvError> for Error {
    open spec fn obeys_from_spec() -> bool {
        true
    }

    open spec fn from_spec(e: RecvError) -> Error {
        Error::PipelineBroken
    }
}

impl<T> From<SendError<T>> for Error {
    fn from(e: SendError<T>) -> (error: Error) {
        Error::PipelineBroken
    }
}

impl<T> FromSpecImpl<SendError<T>> for Error {
    open spec fn obeys_from_spec() -> bool {
        true
    }

    open spec fn from_spec(e: SendError<T>) -> Error {
        Error::PipelineBroken
    }
}

/// The text of an error.
pub open spec fn error_text(e: Error) -> Seq<char> {
    match e {
        Error::Svc(e) => "virtual channel error: "@ + crate::svc::error_text(e),
        Error::PipelineBroken => "broken pipeline"@,
    }
}

impl Error {
    /// The text of this error.
    pub fn message(&self) -> (text: String)
        ensures
            text@ == error_text(*self),
    {
        match self {
            Error::Svc(e) => {
                let mut text = String::from_str("virtual channel error: ");
                text.append(e.message().as_str());
                text
            },
            Error::PipelineBroken => String::from_str("broken pipeline"),
        }
    }
}

/// The two queues of a pipeline.
pub struct Queues {
    /// Where the services put what is to go to the channel.
    pub to_svc: Sender<ChunkControl>,
    /// Where the direction to the channel takes it from.
    pub to_svc_receiver: Receiver<ChunkControl>,
    /// Where the direction from the channel puts what arrived.
    pub from_svc: Sender<ChunkControl>,
    /// Where the services take it from.
    pub from_svc_receiver: Receiver<ChunkControl>,
}

/// Makes the queues: the one towards the channel holds at most
/// `TO_SVC_CHANNEL_SIZE` controls, the one from the channel has no limit.
pub fn queues() -> (queues: Queues)
    ensures
        queue_limit(queues.to_svc) == Some(TO_SVC_CHANNEL_SIZE),
        queue_limit(queues.from_svc) is None,
{
    let (to_svc, to_svc_receiver) = bounded(TO_SVC_CHANNEL_SIZE);
    let (from_svc, from_svc_receiver) = unbounded();
    Queues { to_svc, to_svc_receiver, from_svc, from_svc_receiver }
}

/// The limit of the queue behind `tx`.
pub fn limit(tx: &Sender<ChunkControl>) -> (limit: Option<usize>)
    ensures
        limit == queue_limit(*tx),
{
    capacity(tx)
}

/// What a sending came to: a queue without its other end breaks the
/// pipeline.
pub fn sent(outcome: Result<(), SendError<ChunkControl>>) -> (result: Result<(), Error>)
    ensures
        outcome is Ok ==> result is Ok,
        outcome is Err ==> result == Err::<(), Error>(Error::PipelineBroken),
{
    match outcome {
        Ok(()) => Ok(()),
        Err(e) => Err(Error::from(e)),
    }
}

/// What a receiving came to: the control that was taken, or the end of the
/// pipeline where the queue has lost its other end.
pub fn received(outcome: Result<ChunkControl, RecvError>) -> (result: Result<ChunkControl, Error>)
    ensures
        outcome matches Ok(control) ==> result == Ok::<ChunkControl, Error>(control),
        outcome is Err ==> result == Err::<ChunkControl, Error>(Error::PipelineBroken),
{
    match outcome {
        Ok(control) => Ok(control),
        Err(e) => Err(Error::from(e)),
    }
}

/// Puts a control on a queue, waiting while the queue is full. It fails
/// only where the queue has lost its other end.
pub fn put(tx: &Sender<ChunkControl>, control: ChunkControl) -> (result: Result<(), Error>)
    ensures
        result is Err ==> result == Err::<(), Error>(Error::PipelineBroken),
{
    sent(send(tx, control))
}

/// Takes the next control from a queue, waiting while the queue is empty.
/// It fails only where the queue has lost its other end.
pub fn take(rx: &Receiver<ChunkControl>) -> (result: Result<ChunkControl, Error>)
    ensures
        result is Err ==> result == Err::<ChunkControl, Error>(Error::PipelineBroken),
{
    received(recv(rx))
}

/// What the direction towards the channel does with one control.
#[derive(Clone, Debug, PartialEq, Eq)]
pub enum Outbound {
    /// Write these bytes, the frame of the chunk, to the channel; if that
    /// fails, disconnect.
    Write(Vec<u8>),
    /// Drop the chunk: there is no channel to write it to, or it is no
    /// chunk that can be framed.
    Drop,
    /// Disconnect the handle.
    Disconnect,
}

/// What an `Outbound` is.
pub enum OutboundView {
    Write(Seq<u8>),
    Drop,
    Disconnect,
}

impl View for Outbound {
    type V = OutboundView;

    open spec fn view(&self) -> OutboundView {
        match *self {
            Outbound::Write(bytes) => OutboundView::Write(bytes@),
            Outbound::Drop => OutboundView::Drop,
            Outbound::Disconnect => OutboundView::Disconnect,
        }
    }
}

/// What becomes of a control on its way to the channel, by whether the
/// handle is connected.
pub open spec fn outbound_of(connected: bool, control: ControlView) -> OutboundView {
    match control {
        ControlView::Shutdown => OutboundView::Disconnect,
        ControlView::Chunk(chunk) => if connected && chunk.payload.len() <= MAX_PAYLOAD_LENGTH {
            OutboundView::Write(encode(chunk))
        } else {
            OutboundView::Drop
        },
    }
}

/// One turn of the direction from the services to the channel: decides
/// what to do with the control that was taken from the queue. A shutdown
/// disconnects; a chunk is written where the handle is connected, and
/// dropped where it is not. Nothing is kept for later.
pub fn backend_to_frontend(svc: &Svc, control: ChunkControl) -> (outbound: Outbound)
    ensures
        outbound@ == outbound_of(svc.spec_state() is Connected, control@),
        outbound matches Outbound::Write(bytes) ==> bytes@.len() <= CHUNK_LENGTH,
{
    match control {
        ChunkControl::Shutdown => Outbound::Disconnect,
        ChunkControl::Chunk(chunk) => {
            if !svc.is_connected() {
                return Outbound::Drop;
            }
            match chunk.serialize() {
                Ok(bytes) => Outbound::Write(bytes),
                Err(_) => Outbound::Drop,
            }
        },
    }
}

/// What a write to the channel came to: a write that failed disconnects
/// the handle, and the services are told so.
pub fn written(svc: &mut Svc, outcome: Result<(), crate::svc::Error>) -> (control: Option<
    ChunkControl,
>)
    ensures
        outcome is Ok ==> control is None && *final(svc) == *old(svc),
        outcome is Err ==> *final(svc) == old(svc).with_state(
            state_after(old(svc).spec_state(), Response::WriteCancelled),
        ) && (old(svc).spec_state() is Connected ==> control == Some(ChunkControl::Shutdown))
            && (!(old(svc).spec_state() is Connected) ==> control is None),
{
    match outcome {
        Ok(()) => None,
        Err(_) => svc.handle(Response::WriteCancelled),
    }
}

/// What the direction from the channel does next.
#[derive(Clone, Copy, Debug, PartialEq, Eq, Structural)]
pub enum Inbound {
    /// Open the channel; if that fails, wait `REOPEN_DELAY_SECONDS`.
    Open,
    /// Read one frame into a buffer of this many bytes.
    Read(usize),
    /// Stop: the channel will never open again.
    Stop,
}

/// Says what the direction from the channel is to do, by the state of the
/// handle.
pub fn next_inbound(svc: &Svc) -> (inbound: Inbound)
    ensures
        inbound == match svc.spec_state() {
            State::Connected(_) => Inbound::Read(CHUNK_LENGTH),
            State::Terminated => Inbound::Stop,
            _ => Inbound::Open,
        },
{
    match svc.state() {
        State::Connected(_) => Inbound::Read(CHUNK_LENGTH),
        State::Terminated => Inbound::Stop,
        _ => Inbound::Open,
    }
}

/// What the host's attempt to open the channel came to. The handle was
/// connected when the opening was admitted; after a failure it is closed
/// again, and the next attempt is due after the delay that is returned.
/// The services are told nothing: they had nothing on this connection.
pub fn opened(svc: &mut Svc, outcome: Result<(), crate::svc::Error>) -> (delay: Option<u64>)
    ensures
        outcome is Ok ==> delay is None && *final(svc) == *old(svc),
        outcome is Err ==> delay == Some(REOPEN_DELAY_SECONDS),
        outcome is Err && old(svc).spec_state() is Connected ==> *final(svc) == old(
            svc,
        ).with_state(State::Disconnected),
        outcome is Err && !(old(svc).spec_state() is Connected) ==> *final(svc) == *old(svc),
{
    match outcome {
        Ok(()) => None,
        Err(_) => {
            let _ = svc.close();
            Some(REOPEN_DELAY_SECONDS)
        },
    }
}

/// The report that a read from the channel amounts to: the bytes that
/// arrived, or the loss of the channel.
pub open spec fn report_of(read: Result<Vec<u8>, crate::svc::Error>) -> Response {
    match read {
        Ok(bytes) => Response::ReceivedData(bytes),
        Err(_) => Response::ChangeState(State::Disconnected),
    }
}

/// One turn of the direction from the channel to the services: decides
/// what a read came to. A frame that arrived on a connected handle is
/// handed on as its chunk. A read that failed, or bytes that are no frame,
/// disconnect the handle, and the services are handed one `Shutdown`.
pub fn incoming(svc: &mut Svc, read: Result<Vec<u8>, crate::svc::Error>) -> (control: Option<
    ChunkControl,
>)
    ensures
        *final(svc) == old(svc).with_state(state_after(old(svc).spec_state(), report_of(read))),
        match control_after(old(svc).spec_state(), report_of(read)) {
            Some(c) => control is Some && control->0@ == c,
            None => control is None,
        },
{
    match read {
        Ok(bytes) => svc.handle(Response::ReceivedData(bytes)),
        Err(_) => svc.handle(Response::ChangeState(State::Disconnected)),
    }
}

/// One turn of the direction from the channel to the services, with the
/// queue: what `incoming` decides is put on the queue of the services.
/// The handle ends as `incoming` leaves it, whatever the queue does; the
/// turn fails only where the queue has lost its other end.
pub fn frontend_to_backend(
    svc: &mut Svc,
    read: Result<Vec<u8>, crate::svc::Error>,
    to_backend: &Sender<ChunkControl>,
) -> (result: Result<(), Error>)
    ensures
        *final(svc) == old(svc).with_state(state_after(old(svc).spec_state(), report_of(read))),
        result is Err ==> result == Err::<(), Error>(Error::PipelineBroken),
        control_after(old(svc).spec_state(), report_of(read)) is None ==> result is Ok,
{
    match incoming(svc, read) {
        Some(control) => put(to_backend, control),
        None => Ok(()),
    }
}

/// The reports that reads from the channel amount to, in order.
pub open spec fn reports_of(reads: Seq<Result<Vec<u8>, crate::svc::Error>>) -> Seq<Response> {
    Seq::new(reads.len(), |i: int| report_of(reads[i]))
}

/// When a read from a connected handle fails, or brings bytes that are no
/// frame, the services are handed exactly one `Shutdown`, and nothing of
/// what later reads of that handle bring: until the channel is opened
/// again no chunk is taken.
pub proof fn lemma_failed_read_one_shutdown(
    state: State,
    failed: Result<Vec<u8>, crate::svc::Error>,
    later: Seq<Result<Vec<u8>, crate::svc::Error>>,
)
    requires
        state is Connected,
        failed is Err || decode(failed->Ok_0@) is Err,
    ensures
        controls_after(state, seq![report_of(failed)] + reports_of(later)) == seq![
            ControlView::Shutdown,
        ],
{
    lemma_one_shutdown(state, report_of(failed), reports_of(later));
}

} // verus!
