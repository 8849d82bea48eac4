use offers_registry::{
    BodyVerdict, DecodeError, Diagnostic, DiagnosticCause, Invoice, InvoiceError,
    InvoiceRequest, Level, OffersMessage, OffersMessageHandler, OffersMessageKind, ParseError,
    SemanticError,
    SignatureError, INVOICE_ERROR_TLV_TYPE, INVOICE_REQUEST_TLV_TYPE, INVOICE_TLV_TYPE,
};

fn request(bytes: &[u8]) -> OffersMessage {
    OffersMessage::InvoiceRequest(InvoiceRequest { bytes: bytes.to_vec() })
}

fn invoice(bytes: &[u8]) -> OffersMessage {
    OffersMessage::Invoice(Invoice { bytes: bytes.to_vec() })
}

fn invoice_error(bytes: &[u8]) -> OffersMessage {
    OffersMessage::InvoiceError(InvoiceError { bytes: bytes.to_vec() })
}

#[test]
fn known_types_are_exactly_the_offers_records() {
    assert!(OffersMessage::is_known_type(64));
    assert!(OffersMessage::is_known_type(66));
    assert!(OffersMessage::is_known_type(68));
    for code in [0u64, 1, 63, 65, 67, 69, 70, 128, u64::MAX] {
        assert!(!OffersMessage::is_known_type(code), "code {}", code);
    }
}

#[test]
fn record_types_are_fixed() {
    assert_eq!(INVOICE_REQUEST_TLV_TYPE, 64);
    assert_eq!(INVOICE_TLV_TYPE, 66);
    assert_eq!(INVOICE_ERROR_TLV_TYPE, 68);
    assert_eq!(request(&[1]).tlv_type(), 64);
    assert_eq!(invoice(&[1]).tlv_type(), 66);
    assert_eq!(invoice_error(&[1]).tlv_type(), 68);
}

#[test]
fn encode_gives_the_body_bytes() {
    assert_eq!(request(&[0, 2, 0xab, 0xcd]).encode(), vec![0, 2, 0xab, 0xcd]);
    assert_eq!(invoice(&[]).encode(), Vec::<u8>::new());
    assert_eq!(invoice_error(&[5, 1, 0x41]).encode(), vec![5, 1, 0x41]);
}

#[test]
fn write_appends_to_what_is_there() {
    let mut w = vec![9u8, 8];
    invoice(&[1, 2, 3]).write(&mut w);
    assert_eq!(w, vec![9, 8, 1, 2, 3]);
}

#[test]
fn round_trip_every_kind() {
    for message in [request(&[0, 1, 7]), invoice(&[160, 2, 1, 2]), invoice_error(&[5, 2, 0x68, 0x69]), request(&[])] {
        let mut log = Vec::new();
        let bytes = message.encode();
        let decoded =
            OffersMessage::read(&bytes, message.tlv_type(), BodyVerdict::Accepted, &mut log);
        assert_eq!(decoded, Ok(message.clone()));
        assert!(log.is_empty());
    }
}

#[test]
fn invoice_error_round_trips_through_its_reader() {
    let message = invoice_error(&[1, 1, 88, 5, 3, 0x62, 0x61, 0x64]);
    let bytes = message.encode();
    assert_eq!(OffersMessage::read_invoice_error(&bytes, BodyVerdict::Accepted), Ok(message));
}

#[test]
fn malformed_request_is_a_hard_failure() {
    for code in [64u64, 66] {
        let mut log = Vec::new();
        let verdict = BodyVerdict::Rejected(ParseError::Decode(DecodeError::ShortRead));
        let r = OffersMessage::read(&[0xff, 0x01], code, verdict, &mut log);
        assert_eq!(r, Err(DecodeError::ShortRead));
        assert!(log.is_empty());
    }
}

#[test]
fn semantic_failure_is_invalid_value_and_logged_once() {
    let mut log = Vec::new();
    let verdict = BodyVerdict::Rejected(ParseError::InvalidSemantics(SemanticError::MissingPayerId));
    let r = OffersMessage::read(&[0, 0], 64, verdict, &mut log);
    assert_eq!(r, Err(DecodeError::InvalidValue));
    assert_eq!(
        log,
        vec![Diagnostic {
            level: Level::Trace,
            tlv_type: 64,
            cause: DiagnosticCause::InvalidSemantics(SemanticError::MissingPayerId),
        }]
    );
}

#[test]
fn signature_failure_is_invalid_value_and_logged_once() {
    let mut log = vec![Diagnostic {
        level: Level::Trace,
        tlv_type: 64,
        cause: DiagnosticCause::InvalidSemantics(SemanticError::MissingAmount),
    }];
    let verdict = BodyVerdict::Rejected(ParseError::InvalidSignature(SignatureError::IncorrectSignature));
    let r = OffersMessage::read(&[240, 0], 66, verdict, &mut log);
    assert_eq!(r, Err(DecodeError::InvalidValue));
    assert_eq!(log.len(), 2);
    assert_eq!(
        log[1],
        Diagnostic {
            level: Level::Trace,
            tlv_type: 66,
            cause: DiagnosticCause::InvalidSignature(SignatureError::IncorrectSignature),
        }
    );
}

#[test]
fn other_body_errors_collapse_to_invalid_value() {
    for e in [ParseError::InvalidBech32Hrp, ParseError::InvalidContinuation] {
        let mut log = Vec::new();
        let r = OffersMessage::read(&[1], 66, BodyVerdict::Rejected(e), &mut log);
        assert_eq!(r, Err(DecodeError::InvalidValue));
        assert!(log.is_empty());
    }
}

#[test]
fn invoice_error_always_goes_to_its_reader() {
    assert!(OffersMessage::reads_from_source(68));
    assert!(!OffersMessage::reads_from_source(64));
    assert!(!OffersMessage::reads_from_source(66));
    let mut log = Vec::new();
    let semantic = BodyVerdict::Rejected(ParseError::InvalidSemantics(SemanticError::MissingSignature));
    assert_eq!(OffersMessage::read(&[1, 2], 68, semantic, &mut log), Err(DecodeError::InvalidValue));
    let malformed = BodyVerdict::Rejected(ParseError::Decode(DecodeError::BadLengthDescriptor));
    assert_eq!(
        OffersMessage::read(&[1, 2], 68, malformed, &mut log),
        Err(DecodeError::BadLengthDescriptor)
    );
    assert!(log.is_empty());
}

#[test]
fn unknown_type_is_rejected_without_a_diagnostic() {
    for code in [0u64, 65, 67, 69, u64::MAX] {
        let mut log = Vec::new();
        let r = OffersMessage::read(&[1, 2, 3], code, BodyVerdict::Accepted, &mut log);
        assert_eq!(r, Err(DecodeError::InvalidValue));
        assert!(log.is_empty());
    }
}

#[test]
fn parse_builds_only_buffered_kinds() {
    assert_eq!(OffersMessage::parse(64, vec![3, 4], BodyVerdict::Accepted), Ok(request(&[3, 4])));
    assert_eq!(OffersMessage::parse(66, vec![3, 4], BodyVerdict::Accepted), Ok(invoice(&[3, 4])));
    assert_eq!(
        OffersMessage::parse(68, vec![3, 4], BodyVerdict::Accepted),
        Err(ParseError::Decode(DecodeError::InvalidValue))
    );
    let e = ParseError::InvalidSemantics(SemanticError::MissingAmount);
    assert_eq!(OffersMessage::parse(64, vec![3], BodyVerdict::Rejected(e)), Err(e));
}

#[test]
fn surface_parse_error_keeps_decode_errors() {
    let mut log = Vec::new();
    assert_eq!(
        offers_registry::surface_parse_error(64, ParseError::Decode(DecodeError::UnknownVersion), &mut log),
        DecodeError::UnknownVersion
    );
    assert!(log.is_empty());
}

struct Echo;

impl OffersMessageHandler for Echo {
    fn handle_message(&self, message: OffersMessage) -> Option<OffersMessage> {
        match message {
            OffersMessage::InvoiceRequest(r) => Some(OffersMessage::Invoice(Invoice { bytes: r.bytes })),
            _ => None,
        }
    }
}

#[test]
fn handler_receives_decoded_messages() {
    let mut log = Vec::new();
    let m = OffersMessage::read(&[7, 7], 64, BodyVerdict::Accepted, &mut log).unwrap();
    assert_eq!(Echo.handle_message(m), Some(invoice(&[7, 7])));
}

#[test]
fn registry_table_binds_kinds_and_codes() {
    let kinds = [
        (OffersMessageKind::InvoiceRequest, 64u64, false),
        (OffersMessageKind::Invoice, 66, false),
        (OffersMessageKind::InvoiceError, 68, true),
    ];
    for (kind, code, direct) in kinds {
        assert_eq!(kind.tlv_type(), code);
        assert_eq!(OffersMessageKind::from_tlv_type(code), Some(kind));
        assert_eq!(kind.reads_from_source(), direct);
    }
    assert_eq!(OffersMessageKind::from_tlv_type(65), None);
    assert_eq!(OffersMessageKind::from_tlv_type(u64::MAX), None);
    assert_eq!(request(&[1]).kind(), OffersMessageKind::InvoiceRequest);
    assert_eq!(invoice(&[1]).kind(), OffersMessageKind::Invoice);
    assert_eq!(invoice_error(&[1]).kind(), OffersMessageKind::InvoiceError);
}
