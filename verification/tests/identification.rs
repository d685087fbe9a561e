use series25::identification::CONTINUATION;
use series25::Identification;

#[test]
fn test_decode_jedec_id() {
    let cypress_id_bytes = [0x7F, 0x7F, 0x7F, 0x7F, 0x7F, 0x7F, 0xC2, 0x22, 0x08];
    let ident = Identification::from_jedec_id(&cypress_id_bytes);
    assert_eq!(0xC2, ident.mfr_code());
    assert_eq!(6, ident.continuation_count());
    let device_id = ident.device_id();
    assert_eq!(device_id[0], 0x22);
    assert_eq!(device_id[1], 0x08);
}

#[test]
fn continuation_code_is_7f() {
    assert_eq!(CONTINUATION, 0x7F);
}

#[test]
fn decode_without_continuations() {
    let ident = Identification::from_jedec_id(&[0xEF, 0x40, 0x18]);
    assert_eq!(ident.mfr_code(), 0xEF);
    assert_eq!(ident.continuation_count(), 0);
    assert_eq!(ident.device_id(), &[0x40, 0x18]);
}

#[test]
fn decode_ignores_what_follows_the_device_id() {
    let ident =
        Identification::from_jedec_id(&[0x7F, 0x7F, 0x7F, 0x7F, 0x3B, 0x01, 0x02, 0xFF, 0x00]);
    assert_eq!(ident.mfr_code(), 0x3B);
    assert_eq!(ident.continuation_count(), 4);
    assert_eq!(ident.device_id(), &[0x01, 0x02]);
}

#[test]
fn decode_any_number_of_continuations() {
    for k in 0..300usize {
        let mut buf = vec![0x7Fu8; k];
        buf.extend_from_slice(&[0x1C, 0x31, 0x17]);
        let ident = Identification::from_jedec_id(&buf);
        assert_eq!(ident.continuation_count(), k);
        assert_eq!(ident.mfr_code(), 0x1C);
        assert_eq!(ident.device_id(), &[0x31, 0x17]);
    }
}

#[test]
fn decode_of_continuations_throughout_reads_one_as_the_code() {
    // Nothing but continuation codes in the scanned window: the place
    // falls back to 0, and a continuation code is read as the code.
    let ident = Identification::from_jedec_id(&[0x7F; 11]);
    assert_eq!(ident.continuation_count(), 0);
    assert_eq!(ident.mfr_code(), 0x7F);
    assert_eq!(ident.device_id(), &[0x7F, 0x7F]);
}

#[test]
fn decode_does_not_look_for_the_code_in_the_last_two_bytes() {
    let ident = Identification::from_jedec_id(&[0x7F, 0x7F, 0x7F, 0xC2, 0x22]);
    assert_eq!(ident.continuation_count(), 0);
    assert_eq!(ident.mfr_code(), 0x7F);
    assert_eq!(ident.device_id(), &[0x7F, 0x7F]);

    let ident = Identification::from_jedec_id(&[0x7F, 0x7F, 0xC2, 0x22, 0x08]);
    assert_eq!(ident.continuation_count(), 2);
    assert_eq!(ident.mfr_code(), 0xC2);
    assert_eq!(ident.device_id(), &[0x22, 0x08]);
}

#[test]
fn decode_three_continuation_codes() {
    let ident = Identification::from_jedec_id(&[0x7F, 0x7F, 0x7F]);
    assert_eq!(ident.continuation_count(), 0);
    assert_eq!(ident.mfr_code(), 0x7F);
    assert_eq!(ident.device_id(), &[0x7F, 0x7F]);
}

#[test]
fn identifications_compare_by_what_they_hold() {
    let a = Identification::from_jedec_id(&[0x7F, 0xC2, 0x22, 0x08]);
    let b = Identification::from_jedec_id(&[0x7F, 0xC2, 0x22, 0x08, 0x00, 0x00]);
    let c = Identification::from_jedec_id(&[0xC2, 0x22, 0x08]);
    assert_eq!(a, b);
    assert_ne!(a, c);
}
