use asi::asi_sysreq::{AsiSysreqDevice, DeviceErrno, HostEvent, WriteEffect};
use asi::diagnostics::{HelloRpcRequest, LogRpcRequest, PokeRpcRequest};
use asi::guest::{hello, lookup, poke};
use asi::interop::AsiRpcError;
use asi::net::{LookupRpcRequest, NetAddr, NetError};
use asi::rpc::AsiRpcGuestDevice;
use asi::wire::{encode_sysreq_request, SysreqRequest};

fn hello_frame() -> Vec<u8> {
    encode_sysreq_request(&SysreqRequest::Hello(HelloRpcRequest { who: b"t".to_vec() }))
}

fn drain(dev: &mut AsiSysreqDevice) -> Vec<u8> {
    let mut all = Vec::new();
    loop {
        let chunk = dev.read_vectored(&vec![16usize]).expect("single buffer read");
        if chunk.is_empty() {
            break;
        }
        all.extend_from_slice(&chunk);
    }
    all
}

#[test]
fn write_while_undrained_fails_in_progress() {
    let mut dev = AsiSysreqDevice::new();
    let frame = hello_frame();
    assert!(matches!(
        dev.write_vectored(&vec![frame.clone()]),
        Ok(WriteEffect::Complete { .. })
    ));
    // The response is pending and undrained: every write now fails, whatever
    // the opcode.
    assert!(matches!(
        dev.write_vectored(&vec![frame.clone()]),
        Err(DeviceErrno::Inprogress)
    ));
    let poke_frame = encode_sysreq_request(&SysreqRequest::Poke(PokeRpcRequest));
    assert!(matches!(
        dev.write_vectored(&vec![poke_frame.clone()]),
        Err(DeviceErrno::Inprogress)
    ));
    // Drain it fully, deliver a Poke (9-byte response), drain only part of
    // that: the response is still pending and writes still fail.
    let _ = dev.read_vectored(&vec![16usize]).expect("read");
    assert!(matches!(dev.write_vectored(&vec![poke_frame]), Ok(WriteEffect::Complete { .. })));
    let part = dev.read_vectored(&vec![1usize]).expect("read");
    assert_eq!(part.len(), 1);
    assert!(matches!(dev.write_vectored(&vec![frame]), Err(DeviceErrno::Inprogress)));
}

#[test]
fn vectored_writes_beyond_one_buffer_are_invalid() {
    let mut dev = AsiSysreqDevice::new();
    assert!(matches!(dev.write_vectored(&Vec::new()), Err(DeviceErrno::Inval)));
    let frame = hello_frame();
    assert!(matches!(
        dev.write_vectored(&vec![frame.clone(), frame.clone()]),
        Err(DeviceErrno::Inval)
    ));
    // A buffer shorter than the opcode width is invalid too.
    assert!(matches!(dev.write_vectored(&vec![vec![1, 2, 3]]), Err(DeviceErrno::Inval)));
    // And reads must use exactly one destination buffer.
    assert!(matches!(dev.read_vectored(&Vec::new()), Err(DeviceErrno::Inval)));
    assert!(matches!(dev.read_vectored(&vec![4usize, 4usize]), Err(DeviceErrno::Inval)));
}

#[test]
fn write_reports_whole_buffer_consumed() {
    let mut dev = AsiSysreqDevice::new();
    let frame = hello_frame();
    match dev.write_vectored(&vec![frame.clone()]) {
        Ok(WriteEffect::Complete { consumed, event }) => {
            assert_eq!(consumed, frame.len() as u64);
            match event {
                Some(HostEvent::Hello { who }) => assert_eq!(who, b"t".to_vec()),
                other => panic!("wrong event: {:?}", other),
            }
        },
        other => panic!("wrong effect: {:?}", other),
    }
    assert_eq!(drain(&mut dev), vec![0]);
}

#[test]
fn unknown_opcode_write_encodes_bad_request() {
    let mut dev = AsiSysreqDevice::new();
    let frame = 4001u32.to_le_bytes().to_vec();
    assert!(matches!(dev.write_vectored(&vec![frame]), Ok(WriteEffect::Complete { .. })));
    assert_eq!(drain(&mut dev), vec![1, 1]);
}

#[test]
fn undecodable_body_encodes_bad_request() {
    let mut dev = AsiSysreqDevice::new();
    // Poke with trailing junk does not decode.
    let mut frame = 10011u32.to_le_bytes().to_vec();
    frame.push(0xFF);
    assert!(matches!(dev.write_vectored(&vec![frame]), Ok(WriteEffect::Complete { .. })));
    assert_eq!(drain(&mut dev), vec![1, 1]);
}

#[test]
fn log_write_hands_the_record_to_the_host() {
    let mut dev = AsiSysreqDevice::new();
    let frame = encode_sysreq_request(&SysreqRequest::Log(LogRpcRequest {
        target: b"t".to_vec(),
        level: 2,
        body: b"b".to_vec(),
        module: None,
        file: None,
        line: Some(7),
    }));
    match dev.write_vectored(&vec![frame]) {
        Ok(WriteEffect::Complete { event: Some(HostEvent::Log { record }), .. }) => {
            assert_eq!(record.target, b"t".to_vec());
            assert_eq!(record.level, 2);
            assert_eq!(record.body, b"b".to_vec());
            assert_eq!(record.line, Some(7));
        },
        other => panic!("wrong effect: {:?}", other),
    }
    assert_eq!(drain(&mut dev), vec![0]);
}

#[test]
fn poke_counts_up_from_one_per_instance() {
    let mut chan = AsiRpcGuestDevice::new();
    let mut dev_a = AsiSysreqDevice::new();
    let mut dev_b = AsiSysreqDevice::new();
    assert_eq!(poke(&mut chan, &mut dev_a), Ok(1));
    assert_eq!(poke(&mut chan, &mut dev_a), Ok(2));
    assert_eq!(poke(&mut chan, &mut dev_a), Ok(3));
    // A separate instance counts independently.
    assert_eq!(poke(&mut chan, &mut dev_b), Ok(1));
    assert_eq!(poke(&mut chan, &mut dev_a), Ok(4));
}

#[test]
fn hello_exchange_succeeds() {
    let mut chan = AsiRpcGuestDevice::new();
    let mut dev = AsiSysreqDevice::new();
    assert_eq!(hello(&mut chan, &mut dev, b"sysreq".to_vec()), Ok(()));
    assert!(!chan.poisoned());
    // The device is idle again: the next exchange works.
    assert_eq!(poke(&mut chan, &mut dev), Ok(1));
}

#[test]
fn poisoned_channel_fails_every_call() {
    let mut chan = AsiRpcGuestDevice::new();
    // A short write poisons the channel.
    assert_eq!(
        chan.complete_write(10, Some(5)),
        Err(AsiRpcError::BadDescriptor)
    );
    assert!(chan.poisoned());
    // Every subsequent call fails at once, transport untouched.
    let mut dev = AsiSysreqDevice::new();
    assert_eq!(hello(&mut chan, &mut dev, b"x".to_vec()), Err(AsiRpcError::BadDescriptor));
    assert_eq!(poke(&mut chan, &mut dev), Err(AsiRpcError::BadDescriptor));
    assert!(matches!(
        chan.begin_call(&SysreqRequest::Poke(PokeRpcRequest)),
        Err(AsiRpcError::BadDescriptor)
    ));
}

#[test]
fn read_failure_poisons_the_channel() {
    let mut chan = AsiRpcGuestDevice::new();
    assert_eq!(chan.complete_read(None), Err(AsiRpcError::BadDescriptor));
    assert!(chan.poisoned());
}

#[test]
fn write_on_busy_device_poisons_the_channel() {
    let mut chan = AsiRpcGuestDevice::new();
    let mut dev = AsiSysreqDevice::new();
    // Leave a response undrained.
    assert!(matches!(
        dev.write_vectored(&vec![hello_frame()]),
        Ok(WriteEffect::Complete { .. })
    ));
    assert_eq!(poke(&mut chan, &mut dev), Err(AsiRpcError::BadDescriptor));
    assert!(chan.poisoned());
}

#[test]
fn lookup_resolvable_returns_addresses() {
    let mut chan = AsiRpcGuestDevice::new();
    let mut dev = AsiSysreqDevice::new();
    let addrs = vec![NetAddr::V4 { a: 93, b: 184, c: 216, d: 34, port: 80 }];
    match lookup(&mut chan, &mut dev, b"miats.com:80".to_vec(), Some(addrs.clone())) {
        Ok(Ok(got)) => {
            assert!(!got.is_empty());
            assert_eq!(got, addrs);
        },
        other => panic!("wrong outcome: {:?}", other),
    }
}

#[test]
fn lookup_unresolvable_is_a_domain_error_not_a_transport_error() {
    let mut chan = AsiRpcGuestDevice::new();
    let mut dev = AsiSysreqDevice::new();
    match lookup(&mut chan, &mut dev, b"no.such.host:1".to_vec(), None) {
        Ok(Err(NetError::Failed)) => {},
        other => panic!("wrong outcome: {:?}", other),
    }
    assert!(!chan.poisoned());
    // The exchange completed: the device serves the next request.
    assert_eq!(poke(&mut chan, &mut dev), Ok(1));
}

#[test]
fn connect_is_always_rejected() {
    let mut chan = AsiRpcGuestDevice::new();
    let mut dev = AsiSysreqDevice::new();
    let req = SysreqRequest::Connect(asi::net::ConnectRpcRequest {
        target: asi::net::ConnectAddrs::Tcp {
            addrs: vec![NetAddr::V4 { a: 127, b: 0, c: 0, d: 1, port: 80 }],
        },
    });
    match chan.call(&mut dev, &req, None) {
        Err(AsiRpcError::BadRequest) => {},
        other => panic!("wrong outcome: {:?}", other),
    }
    // A rejected request is not a transport failure.
    assert!(!chan.poisoned());
}

#[test]
fn lookup_via_two_phase_device_write() {
    // Drive the Lookup opcode through the raw device interface.
    let mut dev = AsiSysreqDevice::new();
    let frame = encode_sysreq_request(&SysreqRequest::Lookup(LookupRpcRequest {
        query: b"miats.com:80".to_vec(),
    }));
    let flen = frame.len() as u64;
    match dev.write_vectored(&vec![frame]) {
        Ok(WriteEffect::NeedsLookup { query }) => assert_eq!(query, b"miats.com:80".to_vec()),
        other => panic!("wrong effect: {:?}", other),
    }
    let consumed = dev.supply_lookup(Some(vec![NetAddr::V4 { a: 1, b: 2, c: 3, d: 4, port: 5 }]));
    assert_eq!(consumed, flen);
    let resp = drain(&mut dev);
    // success tag, inner success tag, one address
    assert_eq!(resp[0], 0);
    assert_eq!(resp[1], 0);
    assert_eq!(&resp[2..10], &1u64.to_le_bytes());
    assert_eq!(&resp[10..], &[0, 1, 2, 3, 4, 5, 0]);
}
