use vstd::prelude::*;

use crate::error::{
    diagnostic_for, logged, surface_parse_error, surfaced_error, DecodeError, Diagnostic,
    ParseError,
};
use crate::message::{
    kind_of, known_type, message_spec, Invoice, InvoiceError, InvoiceRequest, OffersMessage,
    OffersMessageKind, OffersMessageView, INVOICE_ERROR_TLV_TYPE, INVOICE_REQUEST_TLV_TYPE, INVOICE_TLV_TYPE,
};

verus! {

/// What a message body's own reader or constructor concluded of a payload. The rules of each
/// body (its TLV fields, its semantics, its signature) belong to the body and are settled
/// before the registry is asked; the registry decides what the conclusion means for the caller.
#[derive(Clone, Copy, Debug, PartialEq, Eq, Structural)]
pub enum BodyVerdict {
    /// The body accepts the payload as it stands.
    Accepted,
    /// The body rejects the payload for the given reason.
    Rejected(ParseError),
}

/// A decoded message, or an error, as a value of the model.
pub open spec fn result_view<E>(r: Result<OffersMessage, E>) -> Result<OffersMessageView, E> {
    match r {
        Ok(m) => Ok(m@),
        Err(e) => Err(e),
    }
}

/// Record types whose body is read straight from the payload source rather than from a
/// buffered copy of the whole payload.
pub open spec fn reads_from_source_spec(tlv_type: u64) -> bool {
    kind_of(tlv_type) matches Some(k) && k.reads_from_source_spec()
}

/// Record types whose body is built from the whole payload, buffered first.
pub open spec fn buffered_type(tlv_type: u64) -> bool {
    tlv_type == INVOICE_REQUEST_TLV_TYPE || tlv_type == INVOICE_TLV_TYPE
}

/// What building a message from a buffered payload gives: a body type's own verdict decides for
/// the buffered record types, and any other record type fails to decode.
pub open spec fn parse_spec(tlv_type: u64, bytes: Seq<u8>, verdict: BodyVerdict) -> Result<
    OffersMessageView,
    ParseError,
> {
    if buffered_type(tlv_type) {
        match verdict {
            BodyVerdict::Accepted => Ok(message_spec(tlv_type, bytes)),
            BodyVerdict::Rejected(e) => Err(e),
        }
    } else {
        Err(ParseError::Decode(DecodeError::InvalidValue))
    }
}

/// What the invoice error reader gives for a payload: it reports its own decode errors, and
/// surfaces any other rejection as an invalid value.
pub open spec fn error_report_spec(payload: Seq<u8>, verdict: BodyVerdict) -> Result<
    OffersMessageView,
    DecodeError,
> {
    match verdict {
        BodyVerdict::Accepted => Ok(message_spec(INVOICE_ERROR_TLV_TYPE, payload)),
        BodyVerdict::Rejected(e) => Err(surfaced_error(e)),
    }
}

/// What decoding a payload under a record type gives the caller.
pub open spec fn read_spec(tlv_type: u64, payload: Seq<u8>, verdict: BodyVerdict) -> Result<
    OffersMessageView,
    DecodeError,
> {
    if reads_from_source_spec(tlv_type) {
        error_report_spec(payload, verdict)
    } else {
        match parse_spec(tlv_type, payload, verdict) {
            Ok(m) => Ok(m),
            Err(e) => Err(surfaced_error(e)),
        }
    }
}

/// The diagnostic that decoding a payload under a record type leaves behind, if any.
pub open spec fn read_diagnostic(tlv_type: u64, payload: Seq<u8>, verdict: BodyVerdict) -> Option<
    Diagnostic,
> {
    if reads_from_source_spec(tlv_type) {
        None
    } else {
        match parse_spec(tlv_type, payload, verdict) {
            Ok(_) => None,
            Err(e) => diagnostic_for(tlv_type, e),
        }
    }
}

impl OffersMessage {
    /// Returns whether the body under `tlv_type` is read straight from the payload source, as
    /// the registry says of the record type's kind.
    pub fn reads_from_source(tlv_type: u64) -> (r: bool)
        ensures
            r == reads_from_source_spec(tlv_type),
    {
        match OffersMessageKind::from_tlv_type(tlv_type) {
            Some(kind) => kind.reads_from_source(),
            None => false,
        }
    }

    /// Builds the message under `tlv_type` from its whole payload `bytes`, given what the body
    /// type concluded of them.
    pub fn parse(tlv_type: u64, bytes: Vec<u8>, verdict: BodyVerdict) -> (r: Result<
        OffersMessage,
        ParseError,
    >)
        ensures
            result_view(r) == parse_spec(tlv_type, bytes@, verdict),
    {
        match tlv_type {
            INVOICE_REQUEST_TLV_TYPE => match verdict {
                BodyVerdict::Accepted => Ok(OffersMessage::InvoiceRequest(InvoiceRequest { bytes })),
                BodyVerdict::Rejected(e) => Err(e),
            },
            INVOICE_TLV_TYPE => match verdict {
                BodyVerdict::Accepted => Ok(OffersMessage::Invoice(Invoice { bytes })),
                BodyVerdict::Rejected(e) => Err(e),
            },
            _ => Err(ParseError::Decode(DecodeError::InvalidValue)),
        }
    }

    /// Reads an invoice error straight from `payload`, given what the invoice error reader
    /// concluded of it.
    pub fn read_invoice_error(payload: &[u8], verdict: BodyVerdict) -> (r: Result<
        OffersMessage,
        DecodeError,
    >)
        ensures
            result_view(r) == error_report_spec(payload@, verdict),
    {
        match verdict {
            BodyVerdict::Accepted => {
                let bytes = vstd::slice::slice_to_vec(payload);
                Ok(OffersMessage::InvoiceError(InvoiceError { bytes }))
            },
            BodyVerdict::Rejected(ParseError::Decode(d)) => Err(d),
            BodyVerdict::Rejected(_) => Err(DecodeError::InvalidValue),
        }
    }

    /// Decodes the payload of a record of type `tlv_type`, given what the body type concluded
    /// of it. An invoice error is read straight from the payload; any other body is built from
    /// the whole payload. A malformed encoding is returned as it is; a semantic or signature
    /// failure is recorded in `log` and returned as `InvalidValue`.
    pub fn read(payload: &[u8], tlv_type: u64, verdict: BodyVerdict, log: &mut Vec<Diagnostic>) -> (r:
        Result<OffersMessage, DecodeError>)
        ensures
            result_view(r) == read_spec(tlv_type, payload@, verdict),
            final(log)@ == logged(old(log)@, read_diagnostic(tlv_type, payload@, verdict)),
    {
        if Self::reads_from_source(tlv_type) {
            return Self::read_invoice_error(payload, verdict);
        }
        // The payload is staged in memory before decoding starts, so buffering it cannot fail.
        let bytes = vstd::slice::slice_to_vec(payload);
        match Self::parse(tlv_type, bytes, verdict) {
            Ok(message) => Ok(message),
            Err(e) => Err(surface_parse_error(tlv_type, e, log)),
        }
    }
}

/// Every message decodes back to itself from its own encoding under its own record type, once
/// its body accepts that encoding, and decoding it leaves no diagnostic. This holds of invoice
/// errors too, which go through their own reader.
pub proof fn lemma_round_trip(m: OffersMessage)
    ensures
        read_spec(m.type_spec(), m.body_spec(), BodyVerdict::Accepted) == Ok::<OffersMessageView, DecodeError>(m@),
        read_diagnostic(m.type_spec(), m.body_spec(), BodyVerdict::Accepted) is None,
{
}

/// An invoice error decodes back to itself through its own reader.
pub proof fn lemma_error_report_round_trip(m: OffersMessage)
    requires
        m is InvoiceError,
    ensures
        error_report_spec(m.body_spec(), BodyVerdict::Accepted) == Ok::<OffersMessageView, DecodeError>(m@),
{
}

/// A payload of an invoice request or an invoice that its body finds malformed is a hard decode
/// failure with the body's own decode error, and leaves no diagnostic.
pub proof fn lemma_malformed_is_hard_failure(tlv_type: u64, payload: Seq<u8>, d: DecodeError)
    requires
        buffered_type(tlv_type),
    ensures
        read_spec(tlv_type, payload, BodyVerdict::Rejected(ParseError::Decode(d))) == Err::<
            OffersMessageView,
            DecodeError,
        >(d),
        read_diagnostic(tlv_type, payload, BodyVerdict::Rejected(ParseError::Decode(d))) is None,
{
}

/// A payload of an invoice request or an invoice that is well formed but breaks a protocol rule
/// or carries a bad signature is surfaced as `InvalidValue`, and leaves exactly one trace-level
/// diagnostic that names its record type.
pub proof fn lemma_invalid_value_is_logged_once(
    tlv_type: u64,
    payload: Seq<u8>,
    e: ParseError,
    log: Seq<Diagnostic>,
)
    requires
        buffered_type(tlv_type),
        e is InvalidSemantics || e is InvalidSignature,
    ensures
        read_spec(tlv_type, payload, BodyVerdict::Rejected(e)) == Err::<
            OffersMessageView,
            DecodeError,
        >(DecodeError::InvalidValue),
        logged(log, read_diagnostic(tlv_type, payload, BodyVerdict::Rejected(e))).len() == log.len()
            + 1,
        read_diagnostic(tlv_type, payload, BodyVerdict::Rejected(e)) matches Some(d) && d.tlv_type
            == tlv_type && d.level == crate::error::Level::Trace,
{
}

/// A payload under the invoice error record type always goes to the invoice error reader,
/// whatever the payload and the verdict, and never leaves a diagnostic.
pub proof fn lemma_error_report_never_buffered(payload: Seq<u8>, verdict: BodyVerdict)
    ensures
        read_spec(INVOICE_ERROR_TLV_TYPE, payload, verdict) == error_report_spec(payload, verdict),
        read_diagnostic(INVOICE_ERROR_TLV_TYPE, payload, verdict) is None,
{
}

/// A record type outside the registry never decodes, and fails as a malformed encoding.
pub proof fn lemma_unknown_type_rejected(tlv_type: u64, payload: Seq<u8>, verdict: BodyVerdict)
    requires
        !known_type(tlv_type),
    ensures
        read_spec(tlv_type, payload, verdict) == Err::<OffersMessageView, DecodeError>(
            DecodeError::InvalidValue,
        ),
        read_diagnostic(tlv_type, payload, verdict) is None,
{
}

} // verus!
