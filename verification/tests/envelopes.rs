use nebula_mesh::clock::now_us;
use nebula_mesh::envelope::{EnvelopeWriter, PROTOCOL_VERSION, make_envelope, make_envelope_at};
use nebula_mesh::protocol::{Envelope, Payload, Ping, Pong};

#[test]
fn envelope_fields() {
    let e = make_envelope_at(7, "mac-air".to_string(), Payload::Ping(Ping {}), 123);
    assert_eq!(
        e,
        Envelope {
            protocol_version: 1,
            seq: 7,
            timestamp_us: 123,
            origin: "mac-air".to_string(),
            session_id: None,
            payload: Payload::Ping(Ping {}),
        }
    );
    assert_eq!(PROTOCOL_VERSION, 1);
}

#[test]
fn envelope_is_stamped_now() {
    let before = now_us();
    let e = make_envelope(1, "d".to_string(), Payload::Pong(Pong {}));
    let after = now_us();
    assert!(before <= e.timestamp_us && e.timestamp_us <= after);
    assert_eq!(e.seq, 1);
}

#[test]
fn writer_numbers_from_one() {
    let mut w = EnvelopeWriter::new("pc".to_string());
    let a = w.wrap_at(Payload::Ping(Ping {}), 5);
    let b = w.wrap_at(Payload::Pong(Pong {}), 6);
    let c = w.wrap(Payload::Ping(Ping {}));
    assert_eq!((a.seq, b.seq, c.seq), (1, 2, 3));
    assert_eq!(a.origin, "pc");
    assert_eq!(b.timestamp_us, 6);
    assert_eq!(b.payload, Payload::Pong(Pong {}));
}
