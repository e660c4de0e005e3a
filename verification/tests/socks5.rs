use soxy::api::Service;
use soxy::socks5::frontend::{
    read_greeting, Answer, Client, Error, Handshake, Next, Phase, Step, SERVICE,
};
use soxy::socks5::protocol;
use soxy::socks5::protocol::{AddressType, Command, Destination, Parse, Response};

fn v4(a: u8, b: u8, c: u8, d: u8, port: u16) -> Destination {
    Destination { kind: AddressType::V4, host: vec![a, b, c, d], port }
}

const GENERAL_FAILURE: [u8; 10] = [0x05, 0x01, 0x00, 0x01, 0, 0, 0, 0, 0, 0];

#[test]
fn handshake_then_connect_failure() {
    let mut client = Client::new();
    assert_eq!(client.phase, Phase::Greeting);
    assert_eq!(client.start(&[0x05, 0x01, 0x00]), Step::Reply(vec![0x05, 0x00], 3));
    assert_eq!(client.phase, Phase::Request);

    let request = [0x05, 0x01, 0x00, 0x01, 1, 2, 3, 4, 0, 80];
    assert_eq!(client.start(&request), Step::Forward(request.to_vec(), 10));
    assert_eq!(client.phase, Phase::Connect);

    let answer = client.command_connect(&Response::failure(protocol::REPLY_GENERAL_FAILURE));
    assert_eq!(answer, Answer { reply: GENERAL_FAILURE.to_vec(), next: Next::Close });
    assert_eq!(client.phase, Phase::Closed);
}

#[test]
fn unsupported_version_is_refused_without_forwarding() {
    let mut client = Client::new();
    assert_eq!(client.start(&[0x04, 0x01, 0x00]), Step::Reject(vec![0x05, 0xFF]));
    assert_eq!(client.phase, Phase::Closed);
}

#[test]
fn bind_brings_two_replies_in_order() {
    let mut client = Client::new();
    assert_eq!(client.start(&[5, 2, 0, 2]), Step::Reply(vec![5, 0], 4));
    let request = [5, 2, 0, 1, 0, 0, 0, 0, 0, 0];
    assert_eq!(client.start(&request), Step::Forward(request.to_vec(), 10));
    assert_eq!(client.phase, Phase::BindAcknowledgement);

    let bound = Response { code: 0, bound: v4(10, 0, 0, 1, 4000) };
    let first = client.command_bind(&bound);
    assert_eq!(first.reply, vec![5, 0, 0, 1, 10, 0, 0, 1, 0x0F, 0xA0]);
    assert_eq!(first.next, Next::Await);
    assert_eq!(client.phase, Phase::BindArrival);

    let arrived = Response { code: 0, bound: v4(192, 168, 1, 9, 51000) };
    let second = client.command_bind(&arrived);
    assert_eq!(second.reply, vec![5, 0, 0, 1, 192, 168, 1, 9, 0xC7, 0x38]);
    assert_eq!(second.next, Next::Relay);
    assert_eq!(client.phase, Phase::Relay);
}

#[test]
fn bind_failure_at_first_response_closes() {
    let mut client = Client { phase: Phase::BindAcknowledgement };
    let answer = client.command_bind(&Response::failure(5));
    assert_eq!(answer.reply, vec![5, 5, 0, 1, 0, 0, 0, 0, 0, 0]);
    assert_eq!(answer.next, Next::Close);
    assert_eq!(client.phase, Phase::Closed);
}

#[test]
fn bind_failure_at_second_response_closes() {
    let mut client = Client { phase: Phase::BindArrival };
    let answer = client.command_bind(&Response::failure(1));
    assert_eq!(answer.reply, GENERAL_FAILURE.to_vec());
    assert_eq!(answer.next, Next::Close);
    assert_eq!(client.phase, Phase::Closed);
}

#[test]
fn connect_success_starts_the_relay() {
    let mut client = Client { phase: Phase::Connect };
    let answer = client.command_connect(&Response { code: 0, bound: v4(1, 2, 3, 4, 80) });
    assert_eq!(answer.reply, vec![5, 0, 0, 1, 1, 2, 3, 4, 0, 80]);
    assert_eq!(answer.next, Next::Relay);
    assert_eq!(client.phase, Phase::Relay);
}

#[test]
fn greeting_needs_its_bytes() {
    assert_eq!(read_greeting(&[]), Parse::More(2));
    assert_eq!(read_greeting(&[5]), Parse::More(2));
    assert_eq!(read_greeting(&[5, 3]), Parse::More(5));
    assert_eq!(read_greeting(&[5, 3, 1, 2]), Parse::More(5));
    assert_eq!(read_greeting(&[5, 3, 1, 2, 0]), Parse::Done((), 5));
    assert_eq!(read_greeting(&[5, 1, 0, 9, 9]), Parse::Done((), 3));
}

#[test]
fn greeting_version_is_judged_first() {
    assert_eq!(read_greeting(&[4, 200]), Parse::Bad(Error::UnsupportedVersion(4)));
    assert_eq!(read_greeting(&[0, 0]), Parse::Bad(Error::UnsupportedVersion(0)));
}

#[test]
fn greeting_without_no_authentication_is_refused() {
    assert_eq!(read_greeting(&[5, 0]), Parse::Bad(Error::UnsupportedAuthentication(0)));
    assert_eq!(read_greeting(&[5, 2, 1, 2]), Parse::Bad(Error::UnsupportedAuthentication(0)));
    let mut client = Client::new();
    assert_eq!(client.start(&[5, 2, 1, 2]), Step::Reject(vec![5, 0xFF]));
    assert_eq!(client.phase, Phase::Closed);
}

#[test]
fn incomplete_messages_ask_for_more() {
    let mut client = Client::new();
    assert_eq!(client.start(&[5]), Step::Read(2));
    assert_eq!(client.phase, Phase::Greeting);
    assert_eq!(client.start(&[5, 1, 0]), Step::Reply(vec![5, 0], 3));
    assert_eq!(client.start(&[5, 1, 0]), Step::Read(4));
    assert_eq!(client.start(&[5, 1, 0, 3]), Step::Read(5));
    assert_eq!(client.start(&[5, 1, 0, 3, 2, b'a']), Step::Read(9));
    assert_eq!(client.phase, Phase::Request);
    let request = [5, 1, 0, 3, 2, b'a', b'b', 1, 187];
    assert_eq!(client.start(&request), Step::Forward(request.to_vec(), 9));
}

#[test]
fn unsupported_command_gets_the_failure_frame() {
    let mut client = Client { phase: Phase::Request };
    assert_eq!(
        client.start(&[5, 3, 0, 1, 1, 2, 3, 4, 0, 80]),
        Step::Reject(vec![5, 7, 0, 1, 0, 0, 0, 0, 0, 0])
    );
    assert_eq!(client.phase, Phase::Closed);
}

#[test]
fn unsupported_address_type_gets_the_failure_frame() {
    let mut client = Client { phase: Phase::Request };
    assert_eq!(
        client.start(&[5, 1, 0, 2, 1, 2, 3, 4, 0, 80]),
        Step::Reject(vec![5, 8, 0, 1, 0, 0, 0, 0, 0, 0])
    );
    assert_eq!(client.phase, Phase::Closed);
}

#[test]
fn request_with_another_version_is_refused() {
    let mut client = Client { phase: Phase::Request };
    assert_eq!(client.start(&[4, 1, 0, 1]), Step::Reject(vec![5, 0xFF]));
}

#[test]
fn handshake_names_what_it_found() {
    let mut client = Client::new();
    assert_eq!(client.handshake(&[5, 1, 0]), Handshake::Greeted(3));
    assert_eq!(client.handshake(&[5, 9, 0, 1]), Handshake::Failed(Error::UnsupportedCommand(9)));
    let mut client = Client { phase: Phase::Request };
    assert_eq!(
        client.handshake(&[5, 1, 0, 4, 0, 1, 2, 3, 4, 5, 6, 7, 8, 9, 10, 11, 12, 13, 14, 15, 31, 144]),
        Handshake::Requested(
            Command::Connect(Destination {
                kind: AddressType::V6,
                host: (0u8..16).collect(),
                port: 8080
            }),
            22
        )
    );
    assert_eq!(client.phase, Phase::Connect);
}

#[test]
fn request_parse_and_encode() {
    let bytes = [5, 1, 0, 3, 11, b'e', b'x', b'a', b'm', b'p', b'l', b'e', b'.', b'o', b'r', b'g', 0x01, 0xBB, 77];
    let parsed = Command::parse(&bytes);
    let dest = Destination { kind: AddressType::Domain, host: b"example.org".to_vec(), port: 443 };
    assert_eq!(parsed, Parse::Done(Command::Connect(dest.clone()), 18));
    assert_eq!(Command::Connect(dest).encode(), bytes[..18].to_vec());
    assert_eq!(Command::Bind.encode(), vec![5, 2, 0, 1, 0, 0, 0, 0, 0, 0]);
    assert_eq!(Command::parse(&[5, 2, 0, 1, 9, 9, 9, 9, 1, 1]), Parse::Done(Command::Bind, 10));
}

#[test]
fn request_round_trip() {
    let commands = vec![
        Command::Bind,
        Command::Connect(v4(127, 0, 0, 1, 65535)),
        Command::Connect(Destination { kind: AddressType::Domain, host: vec![], port: 0 }),
        Command::Connect(Destination { kind: AddressType::Domain, host: vec![b'x'; 255], port: 256 }),
        Command::Connect(Destination { kind: AddressType::V6, host: vec![0xFE; 16], port: 1 }),
    ];
    for command in commands {
        let mut bytes = command.encode();
        let len = bytes.len();
        bytes.extend_from_slice(&[1, 2, 3]);
        assert_eq!(Command::parse(&bytes), Parse::Done(command, len));
    }
}

#[test]
fn response_round_trip() {
    let responses = vec![
        Response::failure(1),
        Response { code: 0, bound: v4(8, 8, 8, 8, 53) },
        Response { code: 4, bound: Destination { kind: AddressType::V6, host: vec![1; 16], port: 99 } },
        Response { code: 0, bound: Destination { kind: AddressType::Domain, host: b"h".to_vec(), port: 7 } },
    ];
    for response in responses {
        let bytes = response.encode();
        assert_eq!(Response::parse(&bytes), Parse::Done(response, bytes.len()));
    }
}

#[test]
fn response_parse_errors() {
    assert_eq!(Response::parse(&[5, 0, 0]), Parse::More(4));
    assert_eq!(Response::parse(&[5, 0, 0, 1, 1, 2]), Parse::More(10));
    assert_eq!(Response::parse(&[6, 0, 0, 1]), Parse::Bad(protocol::Error::UnsupportedVersion(6)));
    assert_eq!(
        Response::parse(&[5, 0, 0, 9]),
        Parse::Bad(protocol::Error::AddressTypeNotSupported(9))
    );
    assert!(Response::failure(0).is_ok());
    assert!(!Response::failure(1).is_ok());
}

#[test]
fn destination_shape() {
    assert!(Destination::unspecified().is_wf());
    assert_eq!(Destination::unspecified(), v4(0, 0, 0, 0, 0));
    assert!(!Destination { kind: AddressType::V4, host: vec![1, 2, 3], port: 1 }.is_wf());
    assert!(!Destination { kind: AddressType::V6, host: vec![1; 4], port: 1 }.is_wf());
    assert!(!Destination { kind: AddressType::Domain, host: vec![1; 256], port: 1 }.is_wf());
}

#[test]
fn error_messages() {
    assert_eq!(Error::UnsupportedVersion(4).message(), "unsupported version 4");
    assert_eq!(Error::UnsupportedAuthentication(0).message(), "unsupported authentication 0");
    assert_eq!(Error::UnsupportedCommand(255).message(), "unsupported command 255");
    assert_eq!(Error::AddressTypeNotSupported(10).message(), "address type not supported 10");
    assert_eq!(Error::Io("reset".to_string()).message(), "I/O error: reset");
}

#[test]
fn error_rejections() {
    assert_eq!(Error::UnsupportedVersion(4).rejection(), Some(vec![5, 0xFF]));
    assert_eq!(Error::UnsupportedAuthentication(0).rejection(), Some(vec![5, 0xFF]));
    assert_eq!(Error::UnsupportedCommand(3).rejection(), Some(vec![5, 7, 0, 1, 0, 0, 0, 0, 0, 0]));
    assert_eq!(
        Error::AddressTypeNotSupported(2).rejection(),
        Some(vec![5, 8, 0, 1, 0, 0, 0, 0, 0, 0])
    );
    assert_eq!(Error::Io("x".to_string()).rejection(), None);
}

#[test]
fn protocol_errors_convert() {
    assert_eq!(Error::from(protocol::Error::UnsupportedVersion(1)), Error::UnsupportedVersion(1));
    assert_eq!(Error::from(protocol::Error::UnsupportedCommand(2)), Error::UnsupportedCommand(2));
    assert_eq!(
        Error::from(protocol::Error::AddressTypeNotSupported(3)),
        Error::AddressTypeNotSupported(3)
    );
}

#[test]
fn proxy_service_is_socks5() {
    assert_eq!(SERVICE, Service::Socks5);
}

#[test]
fn forwarded_request_is_read_back() {
    let requests: Vec<Vec<u8>> = vec![
        vec![5, 1, 0, 1, 1, 2, 3, 4, 0, 80],
        vec![5, 2, 0, 3, 3, b'a', b'b', b'c', 0, 22],
        vec![5, 1, 0, 3, 1, b'h', 31, 144, 99, 98],
    ];
    for request in requests {
        let mut client = Client { phase: Phase::Request };
        let asked = match Command::parse(&request) {
            Parse::Done(command, _) => command,
            other => panic!("no request: {other:?}"),
        };
        match client.start(&request) {
            Step::Forward(forwarded, _) => {
                assert_eq!(Command::parse(&forwarded), Parse::Done(asked, forwarded.len()));
            }
            other => panic!("not forwarded: {other:?}"),
        }
    }
    let mut client = Client { phase: Phase::Request };
    assert_eq!(
        client.start(&[5, 2, 0, 3, 3, b'a', b'b', b'c', 0, 22]),
        Step::Forward(vec![5, 2, 0, 1, 0, 0, 0, 0, 0, 0], 10)
    );
}
