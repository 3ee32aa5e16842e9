use blendshape_relay::codec::{encode_message, EncodeError};
use blendshape_relay::listener::{
    listener_step, ListenerAction, RecvEvent, FORWARD_EVENT_NAME, LISTEN_PORT,
};
use blendshape_relay::sender::{
    destination_address, encode_batch, report_send_failure, BlendshapeData, BlendshapeEntry,
    Datagram, RelayError,
};
use blendshape_relay::RECV_BUFFER_LEN;
use rosc::{OscMessage, OscPacket, OscType};

fn entry(name: &str, value: f32) -> BlendshapeEntry {
    BlendshapeEntry {
        name: name.as_bytes().to_vec(),
        value_bits: value.to_bits(),
    }
}

fn batch(entries: Vec<BlendshapeEntry>, port: u16) -> BlendshapeData {
    BlendshapeData {
        data: entries,
        port,
    }
}

fn decode_single(payload: &[u8]) -> OscMessage {
    let (rest, packet) = rosc::decoder::decode_udp(payload).expect("payload must decode");
    assert!(rest.is_empty());
    match packet {
        OscPacket::Message(msg) => msg,
        OscPacket::Bundle(_) => panic!("expected a single message"),
    }
}

#[test]
fn encodes_exact_wire_bytes() {
    let payload = encode_message(b"/a", 1.0f32.to_bits()).unwrap();
    assert_eq!(
        payload,
        vec![0x2f, 0x61, 0, 0, 0x2c, 0x66, 0, 0, 0x3f, 0x80, 0, 0]
    );
}

#[test]
fn matches_reference_encoder() {
    for (name, value) in [
        ("jawOpen", 0.75f32),
        ("browInnerUp", -0.0f32),
        ("x", f32::NAN),
        ("eyeBlinkLeft", f32::MAX),
    ] {
        let msg = OscPacket::Message(OscMessage {
            addr: format!("/{}", name),
            args: vec![OscType::Float(value)],
        });
        let reference = rosc::encoder::encode(&msg).unwrap();
        let addr = format!("/{}", name);
        let ours = encode_message(addr.as_bytes(), value.to_bits()).unwrap();
        assert_eq!(ours, reference, "wire bytes differ for {}", name);
    }
}

#[test]
fn round_trip_jaw_open() {
    let b = batch(vec![entry("jawOpen", 0.75)], 9000);
    let datagrams = encode_batch(&b).unwrap();
    assert_eq!(datagrams.len(), 1);
    let msg = decode_single(&datagrams[0].payload);
    assert_eq!(msg.addr, "/jawOpen");
    assert_eq!(msg.args.len(), 1);
    match msg.args[0] {
        OscType::Float(f) => assert_eq!(f.to_bits(), 0.75f32.to_bits()),
        ref other => panic!("expected a float argument, got {:?}", other),
    }
}

#[test]
fn one_datagram_per_entry_each_addressed_by_name() {
    let b = batch(
        vec![
            entry("jawOpen", 0.75),
            entry("browInnerUp", 0.1),
            entry("eyeBlinkLeft", 0.0),
        ],
        9000,
    );
    let datagrams = encode_batch(&b).unwrap();
    assert_eq!(datagrams.len(), 3);
    let names = ["jawOpen", "browInnerUp", "eyeBlinkLeft"];
    let values = [0.75f32, 0.1, 0.0];
    for i in 0..3 {
        assert_eq!(datagrams[i].name, names[i].as_bytes());
        let msg = decode_single(&datagrams[i].payload);
        assert_eq!(msg.addr, format!("/{}", names[i]));
        assert_eq!(msg.args.len(), 1);
        match msg.args[0] {
            OscType::Float(f) => assert_eq!(f.to_bits(), values[i].to_bits()),
            ref other => panic!("expected a float argument, got {:?}", other),
        }
    }
    for i in 0..3 {
        for j in 0..3 {
            if i != j {
                assert_ne!(datagrams[i].payload, datagrams[j].payload);
            }
        }
    }
}

#[test]
fn empty_batch_sends_nothing() {
    let datagrams = encode_batch(&batch(vec![], 9000)).unwrap();
    assert!(datagrams.is_empty());
}

#[test]
fn port_zero_is_an_address_error() {
    let b = batch(vec![entry("jawOpen", 0.75)], 0);
    assert_eq!(encode_batch(&b), Err(RelayError::Address));
}

#[test]
fn encode_failure_names_the_first_failing_entry() {
    let bad1 = BlendshapeEntry {
        name: b"bad\0one".to_vec(),
        value_bits: 0,
    };
    let bad2 = BlendshapeEntry {
        name: b"bad\0two".to_vec(),
        value_bits: 0,
    };
    let b = batch(vec![entry("fine", 0.5), bad1, bad2], 9000);
    assert_eq!(
        encode_batch(&b),
        Err(RelayError::Encode {
            name: b"bad\0one".to_vec()
        })
    );
}

#[test]
fn zero_byte_in_address_is_rejected() {
    assert_eq!(
        encode_message(b"/bad\0name", 0),
        Err(EncodeError::ZeroByteInAddress)
    );
}

#[test]
fn send_failure_names_the_entry() {
    let d = Datagram {
        name: b"jawOpen".to_vec(),
        payload: vec![],
    };
    assert_eq!(
        report_send_failure(d),
        RelayError::Send {
            name: b"jawOpen".to_vec()
        }
    );
}

#[test]
fn destination_is_loopback_with_decimal_port() {
    assert_eq!(destination_address(8884), b"127.0.0.1:8884".to_vec());
    assert_eq!(destination_address(1), b"127.0.0.1:1".to_vec());
    assert_eq!(destination_address(65535), b"127.0.0.1:65535".to_vec());
}

#[test]
fn listener_forwards_utf8_text() {
    let action = listener_step(RecvEvent::Datagram(b"hello".to_vec()));
    assert_eq!(action, ListenerAction::Forward("hello".to_string()));
}

#[test]
fn listener_discards_non_utf8_and_keeps_going() {
    let action = listener_step(RecvEvent::Datagram(vec![0xff, 0xfe, 0xfd]));
    assert_eq!(action, ListenerAction::Discard);
    let next = listener_step(RecvEvent::Datagram(b"still here".to_vec()));
    assert_eq!(next, ListenerAction::Forward("still here".to_string()));
}

#[test]
fn listener_survives_a_receive_error() {
    let action = listener_step(RecvEvent::Failure);
    assert_eq!(action, ListenerAction::Log);
    let next = listener_step(RecvEvent::Datagram(b"after the error".to_vec()));
    assert_eq!(next, ListenerAction::Forward("after the error".to_string()));
}

#[test]
fn fixed_endpoint_constants() {
    assert_eq!(LISTEN_PORT, 8884);
    assert_eq!(FORWARD_EVENT_NAME, "udp-message");
    assert_eq!(RECV_BUFFER_LEN, 1024);
}
