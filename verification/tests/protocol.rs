use socks4_relay::protocol::{Command, Error, Reply, Request, Response};

#[test]
fn command_byte_values() {
    assert_eq!(Command::Connect.to_bytes(), 1);
    assert_eq!(Command::Bind.to_bytes(), 2);
}

#[test]
fn command_round_trip() {
    assert_eq!(Command::from_bytes(&[Command::Connect.to_bytes()]), Ok(Command::Connect));
    assert_eq!(Command::from_bytes(&[Command::Bind.to_bytes()]), Ok(Command::Bind));
}

#[test]
fn command_unknown_bytes_rejected() {
    assert_eq!(Command::from_bytes(&[]), Err(Error::UnrecognizedCommand));
    assert_eq!(Command::from_bytes(&[0]), Err(Error::UnrecognizedCommand));
    assert_eq!(Command::from_bytes(&[3]), Err(Error::UnrecognizedCommand));
    assert_eq!(Command::from_bytes(&[0xFF]), Err(Error::UnrecognizedCommand));
}

#[test]
fn reply_byte_values() {
    assert_eq!(Reply::RequestGranted.to_bytes(), 0x5A);
    assert_eq!(Reply::RequestRejected.to_bytes(), 0x5B);
    assert_eq!(Reply::NotRunningIdentd.to_bytes(), 0x5C);
    assert_eq!(Reply::CouldNotConfirmId.to_bytes(), 0x5D);
}

#[test]
fn reply_round_trip() {
    for r in [
        Reply::RequestGranted,
        Reply::RequestRejected,
        Reply::NotRunningIdentd,
        Reply::CouldNotConfirmId,
    ] {
        assert_eq!(Reply::from_bytes(&[r.to_bytes()]), Ok(r));
    }
}

#[test]
fn reply_unknown_bytes_rejected() {
    assert_eq!(Reply::from_bytes(&[]), Err(Error::UnrecognizedReply));
    assert_eq!(Reply::from_bytes(&[0x00]), Err(Error::UnrecognizedReply));
    assert_eq!(Reply::from_bytes(&[0x59]), Err(Error::UnrecognizedReply));
    assert_eq!(Reply::from_bytes(&[0x5E]), Err(Error::UnrecognizedReply));
    assert_eq!(Reply::from_bytes(&[0xFF, 0x5A]), Err(Error::UnrecognizedReply));
}

#[test]
fn request_encode_exact_bytes() {
    let req = Request {
        version: 4,
        command: Command::Connect,
        dest_port: 8080,
        dest_ip: 0x7F000001,
        id: vec![b'a', b'b'],
    };
    assert_eq!(
        req.to_bytes(),
        vec![0x04, 0x01, 0x1F, 0x90, 0x7F, 0x00, 0x00, 0x01, b'a', b'b']
    );
}

#[test]
fn request_round_trip_empty_id() {
    let req = Request {
        version: 4,
        command: Command::Bind,
        dest_port: 65535,
        dest_ip: 0xFFFFFFFF,
        id: vec![],
    };
    let decoded = Request::from_bytes(&req.to_bytes()).unwrap();
    assert_eq!(decoded.version, 4);
    assert_eq!(decoded.command, Command::Bind);
    assert_eq!(decoded.dest_port, 65535);
    assert_eq!(decoded.dest_ip, 0xFFFFFFFF);
    assert_eq!(decoded.id, Vec::<u8>::new());
}

#[test]
fn request_round_trip_with_id() {
    let req = Request {
        version: 0,
        command: Command::Connect,
        dest_port: 1,
        dest_ip: 0x0A000001,
        id: b"someone".to_vec(),
    };
    let decoded = Request::from_bytes(&req.to_bytes()).unwrap();
    assert_eq!(decoded.version, 0);
    assert_eq!(decoded.command, Command::Connect);
    assert_eq!(decoded.dest_port, 1);
    assert_eq!(decoded.dest_ip, 0x0A000001);
    assert_eq!(decoded.id, b"someone".to_vec());
}

#[test]
fn request_decode_fields() {
    let decoded =
        Request::from_bytes(&[0x04, 0x01, 0x1F, 0x90, 0x7F, 0x00, 0x00, 0x01]).unwrap();
    assert_eq!(decoded.version, 4);
    assert_eq!(decoded.command, Command::Connect);
    assert_eq!(decoded.dest_port, 8080);
    assert_eq!(decoded.dest_ip, 0x7F000001);
    assert!(decoded.id.is_empty());
}

#[test]
fn request_shorter_than_header_rejected() {
    let frame = [0x04u8, 0x01, 0x1F, 0x90, 0x7F, 0x00, 0x00];
    for n in 0..=7 {
        assert_eq!(
            Request::from_bytes(&frame[..n]).unwrap_err(),
            Error::InvalidRequest,
            "length {n}"
        );
    }
}

#[test]
fn request_unknown_command_rejected() {
    for bad in [0u8, 3, 4, 0x5A, 0xFF] {
        assert_eq!(
            Request::from_bytes(&[0x04, bad, 0x1F, 0x90, 0x7F, 0x00, 0x00, 0x01]).unwrap_err(),
            Error::UnrecognizedCommand,
            "command byte {bad}"
        );
    }
}

#[test]
fn ip_bytes_are_network_order_octets() {
    let req = Request {
        version: 4,
        command: Command::Connect,
        dest_port: 80,
        dest_ip: 0x7F000001,
        id: vec![],
    };
    assert_eq!(req.ip_bytes(), (0x7F, 0x00, 0x00, 0x01));
}

#[test]
fn response_encode_exact_bytes() {
    assert_eq!(
        Response::default().to_bytes(),
        vec![0x00, 0x5A, 0x00, 0x00, 0x00, 0x00, 0x00, 0x00]
    );
    assert_eq!(
        Response::reject_response().to_bytes(),
        vec![0x00, 0x5B, 0x00, 0x00, 0x00, 0x00, 0x00, 0x00]
    );
}

#[test]
fn response_round_trip() {
    for reply in [
        Reply::RequestGranted,
        Reply::RequestRejected,
        Reply::NotRunningIdentd,
        Reply::CouldNotConfirmId,
    ] {
        let resp = Response { version: 4, reply, dest_port: 1080, dest_ip: 0xC0A80001 };
        assert_eq!(Response::from_bytes(&resp.to_bytes()), Ok(resp));
    }
}

#[test]
fn response_shorter_than_frame_rejected() {
    let frame = [0x00u8, 0x5A, 0x00, 0x00, 0x00, 0x00, 0x00];
    for n in 0..=7 {
        assert_eq!(
            Response::from_bytes(&frame[..n]),
            Err(Error::InvalidRequest),
            "length {n}"
        );
    }
}

#[test]
fn response_unknown_reply_rejected() {
    for bad in [0u8, 1, 0x59, 0x5E, 0xFF] {
        assert_eq!(
            Response::from_bytes(&[0x00, bad, 0x00, 0x00, 0x00, 0x00, 0x00, 0x00]),
            Err(Error::UnrecognizedReply),
            "reply byte {bad}"
        );
    }
}
