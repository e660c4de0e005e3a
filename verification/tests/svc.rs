use soxy::api::{Chunk, ChunkControl, Service};
use soxy::svc::{Command, Error, Fault, Link, Request, Response, State, Svc};

fn rdp(state: State) -> Svc {
    Svc::Rdp(Link { state })
}

#[test]
fn technology_is_picked_at_start() {
    assert_eq!(Svc::load(true, true), Some(Svc::Citrix(Link { state: State::Initialized })));
    assert_eq!(Svc::load(true, false), Some(Svc::Citrix(Link { state: State::Initialized })));
    assert_eq!(Svc::load(false, true), Some(rdp(State::Initialized)));
    assert_eq!(Svc::load(false, false), None);
}

#[test]
fn open_connects_once() {
    let mut svc = Svc::load(false, true).unwrap();
    assert!(!svc.is_connected());
    assert_eq!(svc.open(), Ok(()));
    assert_eq!(svc.state(), &State::Connected(None));
    assert!(svc.is_connected());
    assert_eq!(svc.open(), Err(Error::Rdp(Fault::AlreadyOpen)));
    assert_eq!(svc.state(), &State::Connected(None));
}

#[test]
fn close_disconnects_and_open_reconnects() {
    let mut svc = Svc::load(true, false).unwrap();
    assert_eq!(svc.close(), Err(Error::Citrix(Fault::NotOpen)));
    assert_eq!(svc.open(), Ok(()));
    assert_eq!(svc.close(), Ok(()));
    assert_eq!(svc.state(), &State::Disconnected);
    assert_eq!(svc.close(), Err(Error::Citrix(Fault::NotOpen)));
    assert_eq!(svc.open(), Ok(()));
    assert!(svc.is_connected());
}

#[test]
fn terminated_is_final() {
    let mut svc = rdp(State::Connected(None));
    assert_eq!(
        svc.handle(Response::ChangeState(State::Terminated)),
        Some(ChunkControl::Shutdown)
    );
    assert_eq!(svc.state(), &State::Terminated);
    assert_eq!(svc.open(), Err(Error::Rdp(Fault::Terminated)));
    assert_eq!(svc.close(), Err(Error::Rdp(Fault::Terminated)));
    assert_eq!(svc.write(vec![1]), Err(Error::Rdp(Fault::WriteCancelled)));
    for response in [
        Response::ChangeState(State::Connected(Some("peer".to_string()))),
        Response::ChangeState(State::Disconnected),
        Response::ChangeState(State::Initialized),
        Response::ReceivedData(vec![3, 0, 0]),
        Response::WriteCancelled,
    ] {
        assert_eq!(svc.handle(response), None);
        assert_eq!(svc.state(), &State::Terminated);
    }
}

#[test]
fn write_without_a_peer_is_cancelled() {
    for state in [State::Initialized, State::Disconnected, State::Terminated] {
        assert_eq!(rdp(state.clone()).write(vec![3, 0, 0]), Err(Error::Rdp(Fault::WriteCancelled)));
        assert_eq!(
            Svc::Citrix(Link { state }).write(vec![]),
            Err(Error::Citrix(Fault::WriteCancelled))
        );
    }
}

#[test]
fn write_admits_one_frame() {
    let svc = rdp(State::Connected(Some("client".to_string())));
    assert_eq!(svc.write(vec![]), Ok(()));
    assert_eq!(svc.write(vec![0; 1600]), Ok(()));
    assert_eq!(svc.write(vec![0; 1601]), Err(Error::Rdp(Fault::FrameTooLong(1601))));
}

#[test]
fn read_failure_gives_one_shutdown_then_nothing() {
    let mut svc = rdp(State::Connected(None));
    let frame = Chunk::new(Service::Socks5, &[1, 2]).unwrap().serialize().unwrap();
    assert_eq!(
        svc.handle(Response::ReceivedData(frame.clone())),
        Some(ChunkControl::Chunk(Chunk { service: Service::Socks5, payload: vec![1, 2] }))
    );
    assert_eq!(svc.handle(Response::ChangeState(State::Disconnected)), Some(ChunkControl::Shutdown));
    assert_eq!(svc.state(), &State::Disconnected);
    assert_eq!(svc.handle(Response::ReceivedData(frame.clone())), None);
    assert_eq!(svc.handle(Response::ChangeState(State::Disconnected)), None);
    assert_eq!(svc.handle(Response::WriteCancelled), None);
    assert_eq!(svc.handle(Response::ReceivedData(vec![9])), None);
    assert_eq!(svc.state(), &State::Disconnected);
    assert_eq!(svc.open(), Ok(()));
    assert!(matches!(svc.handle(Response::ReceivedData(frame)), Some(ChunkControl::Chunk(_))));
}

#[test]
fn malformed_frame_disconnects() {
    let mut svc = rdp(State::Connected(None));
    assert_eq!(svc.handle(Response::ReceivedData(vec![3, 5, 0, 1])), Some(ChunkControl::Shutdown));
    assert_eq!(svc.state(), &State::Disconnected);
}

#[test]
fn cancelled_write_disconnects() {
    let mut svc = Svc::Citrix(Link { state: State::Connected(None) });
    assert_eq!(svc.handle(Response::WriteCancelled), Some(ChunkControl::Shutdown));
    assert_eq!(svc.state(), &State::Disconnected);
}

#[test]
fn host_reports_change_the_state() {
    let mut svc = rdp(State::Initialized);
    let connected = State::Connected(Some("peer".to_string()));
    assert_eq!(svc.handle(Response::ChangeState(connected.clone())), None);
    assert_eq!(svc.state(), &connected);
    assert_eq!(svc.handle(Response::ChangeState(State::Initialized)), None);
    assert_eq!(svc.state(), &connected);
    let mut idle = rdp(State::Initialized);
    assert_eq!(idle.handle(Response::ChangeState(State::Disconnected)), None);
    assert_eq!(idle.state(), &State::Disconnected);
}

#[test]
fn commands_become_requests() {
    let mut svc = rdp(State::Initialized);
    let chunk = Chunk::new(Service::Command, &[7]).unwrap();
    assert_eq!(
        svc.execute(Command::SendChunk(chunk.clone())),
        Err(Error::Rdp(Fault::WriteCancelled))
    );
    assert_eq!(svc.execute(Command::Close), Err(Error::Rdp(Fault::NotOpen)));
    assert_eq!(svc.execute(Command::Open), Ok(Request::Open));
    assert_eq!(svc.execute(Command::Open), Err(Error::Rdp(Fault::AlreadyOpen)));
    assert_eq!(svc.execute(Command::SendChunk(chunk)), Ok(Request::Write(vec![1, 1, 0, 7])));
    let long = Chunk { service: Service::Ftp, payload: vec![0; 1598] };
    assert_eq!(
        svc.execute(Command::SendChunk(long)),
        Err(Error::Rdp(Fault::FrameTooLong(1598)))
    );
    assert!(svc.is_connected());
    assert_eq!(svc.execute(Command::Close), Ok(Request::Close));
    assert_eq!(svc.state(), &State::Disconnected);
}

#[test]
fn svc_error_messages() {
    assert_eq!(Error::Citrix(Fault::Terminated).message(), "Citrix error: channel terminated");
    assert_eq!(Error::Rdp(Fault::AlreadyOpen).message(), "RDP error: channel already open");
    assert_eq!(Error::Rdp(Fault::NotOpen).message(), "RDP error: channel not open");
    assert_eq!(Error::Citrix(Fault::WriteCancelled).message(), "Citrix error: write cancelled");
    assert_eq!(Error::Rdp(Fault::FrameTooLong(1601)).message(), "RDP error: frame too long: 1601");
    assert_eq!(Error::Rdp(Fault::Host(5)).message(), "RDP error: host failure 5");
    assert_eq!(svc_fail(), Error::Citrix(Fault::Host(31)));
}

fn svc_fail() -> Error {
    Svc::Citrix(Link { state: State::Initialized }).fail(Fault::Host(31))
}
