use asi::codec::{bytes_eq, copy_range, push_u16_le, push_u32_le, push_u64_le, read_u16_le, read_u32_le, read_u64_le};
use asi::diagnostics::{log_level_of, LogLevel, LogRpcRequest};
use asi::interop::AsiRpcError;
use asi::net::{ConnectAddrs, ConnectRpcRequest, LookupRpcRequest, NetAddr, NetError};
use asi::wire::{
    decode_sysreq_request, decode_sysreq_response, encode_err, encode_sysreq_request,
    encode_u64_result, encode_unit_result, SysreqRequest, SysreqResponse,
};
use asi::diagnostics::HelloRpcRequest;
use asi::diagnostics::PokeRpcRequest;

#[test]
fn u64_le_exact_bytes() {
    let mut out: Vec<u8> = Vec::new();
    push_u64_le(&mut out, 0x0102030405060708);
    assert_eq!(out, vec![8, 7, 6, 5, 4, 3, 2, 1]);
    assert_eq!(read_u64_le(&out, 0), 0x0102030405060708);
}

#[test]
fn u32_and_u16_round() {
    let mut out: Vec<u8> = Vec::new();
    push_u32_le(&mut out, 0xDEADBEEF);
    push_u16_le(&mut out, 0xCAFE);
    assert_eq!(out, vec![0xEF, 0xBE, 0xAD, 0xDE, 0xFE, 0xCA]);
    assert_eq!(read_u32_le(&out, 0), 0xDEADBEEF);
    assert_eq!(read_u16_le(&out, 4), 0xCAFE);
}

#[test]
fn copy_range_and_eq() {
    let v: Vec<u8> = vec![1, 2, 3, 4, 5];
    let c = copy_range(&v, 1, 3);
    assert_eq!(c, vec![2, 3, 4]);
    assert!(bytes_eq(&c, &vec![2, 3, 4]));
    assert!(!bytes_eq(&c, &vec![2, 3]));
}

#[test]
fn hello_request_round_trip() {
    let req = SysreqRequest::Hello(HelloRpcRequest { who: b"sysreq".to_vec() });
    let frame = encode_sysreq_request(&req);
    // 4-byte little-endian opcode 10010, then the raw identifier.
    assert_eq!(&frame[0..4], &10010u32.to_le_bytes());
    assert_eq!(&frame[4..], b"sysreq");
    match decode_sysreq_request(&frame) {
        Ok(SysreqRequest::Hello(h)) => assert_eq!(h.who, b"sysreq".to_vec()),
        other => panic!("wrong decode: {:?}", other),
    }
}

#[test]
fn poke_request_round_trip() {
    let req = SysreqRequest::Poke(PokeRpcRequest);
    let frame = encode_sysreq_request(&req);
    assert_eq!(frame, 10011u32.to_le_bytes().to_vec());
    assert!(matches!(decode_sysreq_request(&frame), Ok(SysreqRequest::Poke(_))));
}

#[test]
fn poke_request_with_trailing_bytes_is_rejected() {
    let mut frame = 10011u32.to_le_bytes().to_vec();
    frame.push(0);
    assert!(matches!(decode_sysreq_request(&frame), Err(AsiRpcError::BadRequest)));
}

#[test]
fn log_request_round_trip_full() {
    let req = SysreqRequest::Log(LogRpcRequest {
        target: b"guest".to_vec(),
        level: 3,
        body: b"hello from the sandbox".to_vec(),
        module: Some(b"m".to_vec()),
        file: Some(b"main.rs".to_vec()),
        line: Some(42),
    });
    let frame = encode_sysreq_request(&req);
    match decode_sysreq_request(&frame) {
        Ok(SysreqRequest::Log(l)) => {
            assert_eq!(l.target, b"guest".to_vec());
            assert_eq!(l.level, 3);
            assert_eq!(l.body, b"hello from the sandbox".to_vec());
            assert_eq!(l.module, Some(b"m".to_vec()));
            assert_eq!(l.file, Some(b"main.rs".to_vec()));
            assert_eq!(l.line, Some(42));
        },
        other => panic!("wrong decode: {:?}", other),
    }
}

#[test]
fn log_request_round_trip_empty_options() {
    let req = SysreqRequest::Log(LogRpcRequest {
        target: Vec::new(),
        level: 0,
        body: Vec::new(),
        module: None,
        file: None,
        line: None,
    });
    let frame = encode_sysreq_request(&req);
    match decode_sysreq_request(&frame) {
        Ok(SysreqRequest::Log(l)) => {
            assert_eq!(l.target, Vec::<u8>::new());
            assert_eq!(l.level, 0);
            assert_eq!(l.module, None);
            assert_eq!(l.file, None);
            assert_eq!(l.line, None);
        },
        other => panic!("wrong decode: {:?}", other),
    }
}

#[test]
fn connect_request_round_trip() {
    let addrs = vec![
        NetAddr::V4 { a: 127, b: 0, c: 0, d: 1, port: 8080 },
        NetAddr::V6 { s0: 0, s1: 0, s2: 0, s3: 0, s4: 0, s5: 0, s6: 0, s7: 1, port: 443 },
    ];
    let req = SysreqRequest::Connect(ConnectRpcRequest {
        target: ConnectAddrs::Tcp { addrs: addrs.clone() },
    });
    let frame = encode_sysreq_request(&req);
    match decode_sysreq_request(&frame) {
        Ok(SysreqRequest::Connect(c)) => {
            let ConnectAddrs::Tcp { addrs: got } = c.target;
            assert_eq!(got, addrs);
        },
        other => panic!("wrong decode: {:?}", other),
    }
}

#[test]
fn lookup_request_round_trip() {
    let req = SysreqRequest::Lookup(LookupRpcRequest { query: b"miats.com:80".to_vec() });
    let frame = encode_sysreq_request(&req);
    assert_eq!(&frame[0..4], &4003u32.to_le_bytes());
    match decode_sysreq_request(&frame) {
        Ok(SysreqRequest::Lookup(l)) => assert_eq!(l.query, b"miats.com:80".to_vec()),
        other => panic!("wrong decode: {:?}", other),
    }
}

#[test]
fn unknown_opcode_is_bad_request() {
    let frame = 9999u32.to_le_bytes().to_vec();
    assert!(matches!(decode_sysreq_request(&frame), Err(AsiRpcError::BadRequest)));
}

#[test]
fn short_frame_is_bad_request() {
    assert!(matches!(decode_sysreq_request(&vec![1, 2, 3]), Err(AsiRpcError::BadRequest)));
}

#[test]
fn error_encodings_are_one_tag_and_one_code() {
    assert_eq!(encode_err(AsiRpcError::BadDescriptor), vec![1, 0]);
    assert_eq!(encode_err(AsiRpcError::BadRequest), vec![1, 1]);
    assert_eq!(encode_err(AsiRpcError::BadResponse), vec![1, 2]);
}

#[test]
fn unit_result_round_trip() {
    let ok = encode_unit_result(&Ok(()));
    assert_eq!(ok, vec![0]);
    assert!(matches!(decode_sysreq_response(10010, &ok), Ok(SysreqResponse::Unit)));
    let err = encode_unit_result(&Err(AsiRpcError::BadRequest));
    assert!(matches!(decode_sysreq_response(10010, &err), Err(AsiRpcError::BadRequest)));
}

#[test]
fn counter_result_round_trip() {
    let ok = encode_u64_result(&Ok(7));
    match decode_sysreq_response(10011, &ok) {
        Ok(SysreqResponse::Count(x)) => assert_eq!(x, 7),
        other => panic!("wrong decode: {:?}", other),
    }
}

#[test]
fn malformed_response_is_bad_response() {
    assert!(matches!(
        decode_sysreq_response(10011, &Vec::new()),
        Err(AsiRpcError::BadResponse)
    ));
    assert!(matches!(
        decode_sysreq_response(10011, &vec![9, 9]),
        Err(AsiRpcError::BadResponse)
    ));
    // an error frame with an unknown code byte
    assert!(matches!(
        decode_sysreq_response(10011, &vec![1, 7]),
        Err(AsiRpcError::BadResponse)
    ));
    // a counter response with the wrong payload width
    assert!(matches!(
        decode_sysreq_response(10011, &vec![0, 1, 2]),
        Err(AsiRpcError::BadResponse)
    ));
}

#[test]
fn net_error_codes_round_trip() {
    // Lookup response carrying each domain error variant.
    for (code, want) in [
        (0u8, NetError::AccessDenied),
        (1u8, NetError::NotFound),
        (2u8, NetError::Failed),
    ] {
        let buf = vec![0, 1, code];
        match decode_sysreq_response(4003, &buf) {
            Ok(SysreqResponse::Addrs(Err(e))) => assert_eq!(e, want),
            other => panic!("wrong decode: {:?}", other),
        }
    }
}

#[test]
fn log_levels_map_like_the_host_sink() {
    assert_eq!(log_level_of(1), LogLevel::Error);
    assert_eq!(log_level_of(2), LogLevel::Warn);
    assert_eq!(log_level_of(3), LogLevel::Info);
    assert_eq!(log_level_of(4), LogLevel::Debug);
    assert_eq!(log_level_of(5), LogLevel::Trace);
    assert_eq!(log_level_of(0), LogLevel::Trace);
    assert_eq!(log_level_of(999), LogLevel::Trace);
}

#[test]
fn opcodes_sit_in_their_bands_without_collision() {
    let all = [
        asi::HELLO_OP_CODE,
        asi::POKE_OP_CODE,
        asi::LOG_OP_CODE,
        asi::BIND_OP_CODE,
        asi::CONNECT_OP_CODE,
        asi::LOOKUP_OP_CODE,
    ];
    for (i, a) in all.iter().enumerate() {
        for b in all.iter().skip(i + 1) {
            assert_ne!(a, b);
        }
    }
    assert_eq!(asi::HELLO_OP_CODE, asi::DIAGNOSTICS_BASE + 10);
    assert_eq!(asi::POKE_OP_CODE, asi::DIAGNOSTICS_BASE + 11);
    assert_eq!(asi::LOG_OP_CODE, asi::DIAGNOSTICS_BASE + 200);
    assert_eq!(asi::BIND_OP_CODE, asi::NET_BASE + 1);
    assert_eq!(asi::CONNECT_OP_CODE, asi::NET_BASE + 2);
    assert_eq!(asi::LOOKUP_OP_CODE, asi::NET_BASE + 3);
}
