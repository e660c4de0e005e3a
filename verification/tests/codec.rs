use soxy::api::{Chunk, Error, Service, CHUNK_LENGTH, MAX_PAYLOAD_LENGTH, SERIALIZE_OVERHEAD};

#[test]
fn frame_layout_is_exact() {
    let chunk = Chunk::new(Service::Socks5, &[0xAA, 0xBB, 0xCC]).unwrap();
    assert_eq!(chunk.serialize(), Ok(vec![3, 3, 0, 0xAA, 0xBB, 0xCC]));
}

#[test]
fn length_is_little_endian() {
    let payload = vec![7u8; 300];
    let bytes = Chunk::new(Service::Ftp, &payload).unwrap().serialize().unwrap();
    assert_eq!(&bytes[..3], &[2, 44, 1]);
    assert_eq!(bytes.len(), SERIALIZE_OVERHEAD + 300);
}

#[test]
fn round_trip_gives_the_chunk_back() {
    for len in [0usize, 1, 255, 256, 1000, MAX_PAYLOAD_LENGTH] {
        let payload: Vec<u8> = (0..len).map(|i| (i % 251) as u8).collect();
        for service in [
            Service::Clipboard,
            Service::Command,
            Service::Ftp,
            Service::Socks5,
            Service::Stage0,
        ] {
            let chunk = Chunk { service, payload: payload.clone() };
            let bytes = chunk.serialize().unwrap();
            assert_eq!(bytes.len(), SERIALIZE_OVERHEAD + len);
            assert_eq!(Chunk::deserialize(&bytes), Ok(chunk));
        }
    }
}

#[test]
fn largest_frame_fills_the_channel_chunk() {
    let chunk = Chunk::new(Service::Command, &vec![1u8; MAX_PAYLOAD_LENGTH]).unwrap();
    assert_eq!(chunk.serialized_size(), CHUNK_LENGTH);
    assert_eq!(chunk.serialize().unwrap().len(), CHUNK_LENGTH);
    assert_eq!(Chunk::serialized_overhead() + Chunk::max_payload_length(), CHUNK_LENGTH);
}

#[test]
fn payload_above_the_maximum_is_refused() {
    let payload = vec![0u8; MAX_PAYLOAD_LENGTH + 1];
    assert_eq!(
        Chunk::new(Service::Socks5, &payload),
        Err(Error::PayloadTooLong(MAX_PAYLOAD_LENGTH + 1))
    );
    let chunk = Chunk { service: Service::Socks5, payload };
    assert_eq!(chunk.serialize(), Err(Error::PayloadTooLong(MAX_PAYLOAD_LENGTH + 1)));
}

#[test]
fn short_buffer_is_truncated() {
    assert_eq!(Chunk::deserialize(&[]), Err(Error::Truncated(0)));
    assert_eq!(Chunk::deserialize(&[3]), Err(Error::Truncated(1)));
    assert_eq!(Chunk::deserialize(&[3, 0]), Err(Error::Truncated(2)));
}

#[test]
fn empty_payload_is_a_frame() {
    assert_eq!(
        Chunk::deserialize(&[0, 0, 0]),
        Ok(Chunk { service: Service::Clipboard, payload: vec![] })
    );
}

#[test]
fn declared_length_must_match() {
    assert_eq!(Chunk::deserialize(&[3, 2, 0, 9]), Err(Error::LengthMismatch(2, 1)));
    assert_eq!(Chunk::deserialize(&[3, 1, 0, 9, 9]), Err(Error::LengthMismatch(1, 2)));
    assert_eq!(Chunk::deserialize(&[3, 0, 1]), Err(Error::LengthMismatch(256, 0)));
}

#[test]
fn declared_length_above_the_maximum_is_refused() {
    let mut bytes = vec![3u8, 0x3E, 0x06];
    bytes.extend(vec![0u8; 1598]);
    assert_eq!(Chunk::deserialize(&bytes), Err(Error::PayloadTooLong(1598)));
}

#[test]
fn unknown_service_is_refused() {
    assert_eq!(Chunk::deserialize(&[5, 0, 0]), Err(Error::UnknownService(5)));
    assert_eq!(Chunk::deserialize(&[255, 1, 0, 7]), Err(Error::UnknownService(255)));
}

#[test]
fn service_identifiers() {
    assert_eq!(Service::Clipboard.id(), 0);
    assert_eq!(Service::Command.id(), 1);
    assert_eq!(Service::Ftp.id(), 2);
    assert_eq!(Service::Socks5.id(), 3);
    assert_eq!(Service::Stage0.id(), 4);
    for id in 0u8..=255 {
        match Service::from_id(id) {
            Some(service) => assert_eq!(service.id(), id),
            None => assert!(id > 4),
        }
    }
}

#[test]
fn failed_read_leaves_the_buffer_alone() {
    let bytes = vec![3u8, 9, 0, 1, 2];
    let before = bytes.clone();
    assert!(Chunk::deserialize(&bytes).is_err());
    assert_eq!(bytes, before);
}
