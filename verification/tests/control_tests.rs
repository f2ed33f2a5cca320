use asi::uds_proto::{decode_response, encode_frame, magic_bytes, ClientRequest, Error};
use asi::uds_server::{
    control_step, encode_response, run_response, ClientRequest as ServerRequest, FrameError,
    FrameReader, HostDirective, MAX_PAYLOAD,
};

/// Drive a reader over a full byte stream, handing it exactly what it asks
/// for, as the connection thread would.
fn run_reader(stream: &[u8]) -> Result<ServerRequest, FrameError> {
    let mut reader = FrameReader::new();
    let mut pos: usize = 0;
    while !reader.is_finished() {
        let need = reader.next_need() as usize;
        assert!(pos + need <= stream.len(), "reader asked past the stream");
        reader.feed(stream[pos..pos + need].to_vec());
        pos += need;
    }
    assert_eq!(pos, stream.len(), "stream not fully consumed");
    reader.finish()
}

#[test]
fn payload_ceiling_is_the_fixed_constant() {
    assert_eq!(MAX_PAYLOAD, 1024 * 2024 * 50);
}

#[test]
fn version_frame_has_exact_bytes() {
    let frame = encode_frame(&ClientRequest::ServerVersion);
    assert_eq!(frame, b"aSiCLI\x00\x00".to_vec());
    assert_eq!(magic_bytes(), b"aSiCLI".to_vec());
}

#[test]
fn shutdown_frame_has_exact_bytes() {
    let frame = encode_frame(&ClientRequest::Shutdown);
    assert_eq!(frame, b"aSiCLI\x01\x00".to_vec());
}

#[test]
fn run_frame_carries_one_length_prefixed_payload() {
    let binary = vec![9u8, 8, 7];
    let frame = encode_frame(&ClientRequest::Run { binary_data: &binary });
    let mut want = b"aSiCLI\x02\x01".to_vec();
    want.extend_from_slice(&3u64.to_le_bytes());
    want.extend_from_slice(&binary);
    assert_eq!(frame, want);
}

#[test]
fn request_ops_and_payloads() {
    let binary = vec![1u8, 2];
    assert_eq!(ClientRequest::ServerVersion.op(), 0);
    assert_eq!(ClientRequest::Shutdown.op(), 1);
    let run = ClientRequest::Run { binary_data: &binary };
    assert_eq!(run.op(), 2);
    assert_eq!(ClientRequest::ServerVersion.payloads().len(), 0);
    assert_eq!(ClientRequest::Shutdown.payloads().len(), 0);
    let ps = run.payloads();
    assert_eq!(ps.len(), 1);
    assert_eq!(ps[0], &binary[..]);
}

#[test]
fn version_scenario_end_to_end() {
    // Client encodes a Version frame; the server reads it, the host answers
    // with "1.0"; the client decodes the success payload.
    let frame = encode_frame(&ClientRequest::ServerVersion);
    let request = run_reader(&frame).expect("frame accepted");
    let response = match control_step(request) {
        HostDirective::Respond { payload, stop } => {
            assert!(!stop);
            assert_eq!(payload, b"1.0".to_vec());
            Ok(payload)
        },
        other => panic!("wrong directive: {:?}", other),
    };
    let wire = encode_response(&response);
    assert_eq!(wire, vec![0, b'1', b'.', b'0']);
    match decode_response(wire[0], wire[1..].to_vec()) {
        Ok(payload) => assert_eq!(payload, b"1.0".to_vec()),
        other => panic!("wrong decode: {:?}", other),
    }
}

#[test]
fn shutdown_scenario_returns_empty_success_and_stops() {
    let frame = encode_frame(&ClientRequest::Shutdown);
    let request = run_reader(&frame).expect("frame accepted");
    match control_step(request) {
        HostDirective::Respond { payload, stop } => {
            assert!(stop);
            assert!(payload.is_empty());
            let wire = encode_response(&Ok(payload));
            assert_eq!(wire, vec![0]);
        },
        other => panic!("wrong directive: {:?}", other),
    }
}

#[test]
fn run_scenario_hands_the_binary_to_the_host() {
    let binary = vec![0u8, 97, 115, 109];
    let frame = encode_frame(&ClientRequest::Run { binary_data: &binary });
    let request = run_reader(&frame).expect("frame accepted");
    match control_step(request) {
        HostDirective::Spawn { binary: got } => assert_eq!(got, binary),
        other => panic!("wrong directive: {:?}", other),
    }
    // The launch outcome decides the response.
    assert_eq!(encode_response(&run_response(true)), vec![0]);
    let failed = encode_response(&run_response(false));
    assert_eq!(failed[0], 1);
    assert_eq!(&failed[1..], b"failed to start process");
}

#[test]
fn wrong_magic_fails_without_a_request() {
    let mut reader = FrameReader::new();
    assert_eq!(reader.next_need(), 6);
    reader.feed(b"nonsen".to_vec());
    assert!(reader.is_finished());
    assert_eq!(reader.next_need(), 0);
    match reader.finish() {
        Err(FrameError::BadMagic) => {},
        other => panic!("wrong outcome: {:?}", other),
    }
}

#[test]
fn oversized_payload_fails_before_the_body_is_requested() {
    let mut reader = FrameReader::new();
    reader.feed(b"aSiCLI".to_vec());
    reader.feed(vec![2]); // Run
    reader.feed(vec![1]); // one payload
    assert_eq!(reader.next_need(), 8);
    // An attacker-declared length above the ceiling.
    reader.feed((MAX_PAYLOAD + 1).to_le_bytes().to_vec());
    // The frame failed at once; the reader never asked for the body.
    assert!(reader.is_finished());
    assert_eq!(reader.next_need(), 0);
    match reader.finish() {
        Err(FrameError::PayloadTooBig) => {},
        other => panic!("wrong outcome: {:?}", other),
    }
}

#[test]
fn declared_lengths_at_the_ceiling_are_requested_as_declared() {
    let mut reader = FrameReader::new();
    reader.feed(b"aSiCLI".to_vec());
    reader.feed(vec![2]);
    reader.feed(vec![1]);
    reader.feed(10u64.to_le_bytes().to_vec());
    // The reader asks for exactly the declared body, never more than the
    // ceiling.
    assert_eq!(reader.next_need(), 10);
    assert!(reader.next_need() <= MAX_PAYLOAD);
    reader.feed(vec![7; 10]);
    match reader.finish() {
        Ok(ServerRequest::Run { binary }) => assert_eq!(binary, vec![7; 10]),
        other => panic!("wrong outcome: {:?}", other),
    }
}

#[test]
fn run_with_wrong_arity_is_rejected() {
    // Zero payloads.
    let mut reader = FrameReader::new();
    reader.feed(b"aSiCLI".to_vec());
    reader.feed(vec![2]);
    reader.feed(vec![0]);
    match reader.finish() {
        Err(FrameError::RunArity) => {},
        other => panic!("wrong outcome: {:?}", other),
    }
    // Two payloads.
    let mut reader = FrameReader::new();
    reader.feed(b"aSiCLI".to_vec());
    reader.feed(vec![2]);
    reader.feed(vec![2]);
    reader.feed(1u64.to_le_bytes().to_vec());
    reader.feed(vec![1]);
    reader.feed(1u64.to_le_bytes().to_vec());
    reader.feed(vec![2]);
    match reader.finish() {
        Err(FrameError::RunArity) => {},
        other => panic!("wrong outcome: {:?}", other),
    }
}

#[test]
fn unknown_op_is_rejected() {
    let mut reader = FrameReader::new();
    reader.feed(b"aSiCLI".to_vec());
    reader.feed(vec![9]);
    reader.feed(vec![0]);
    match reader.finish() {
        Err(FrameError::BadOp) => {},
        other => panic!("wrong outcome: {:?}", other),
    }
}

#[test]
fn version_and_shutdown_ignore_extra_payloads() {
    // The reader collects declared payloads even for ops that take none,
    // then finalizes by the op; Version still comes out.
    let mut reader = FrameReader::new();
    reader.feed(b"aSiCLI".to_vec());
    reader.feed(vec![0]);
    reader.feed(vec![1]);
    reader.feed(2u64.to_le_bytes().to_vec());
    reader.feed(vec![5, 6]);
    match reader.finish() {
        Ok(ServerRequest::Version) => {},
        other => panic!("wrong outcome: {:?}", other),
    }
}

#[test]
fn response_status_bytes_decode() {
    match decode_response(0, b"abc".to_vec()) {
        Ok(p) => assert_eq!(p, b"abc".to_vec()),
        other => panic!("wrong decode: {:?}", other),
    }
    match decode_response(1, b"boom".to_vec()) {
        Err(Error::ServerError(m)) => assert_eq!(m, b"boom".to_vec()),
        other => panic!("wrong decode: {:?}", other),
    }
    match decode_response(7, Vec::new()) {
        Err(Error::ProtocolError(_)) => {},
        other => panic!("wrong decode: {:?}", other),
    }
}
