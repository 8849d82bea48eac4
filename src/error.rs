use vstd::prelude::*;

verus! {

/// An error in decoding a message or struct from its wire encoding.
#[derive(Clone, Copy, Debug, PartialEq, Eq, Structural)]
pub enum DecodeError {
    /// A version byte specified something we don't know how to handle.
    UnknownVersion,
    /// A value that is required by the encoding was not understood.
    UnknownRequiredFeature,
    /// A value was invalid: it did not fit the encoding, or it was rejected after decoding.
    InvalidValue,
    /// The buffer to be read was too short.
    ShortRead,
    /// A length descriptor in the packet did not describe the later data correctly.
    BadLengthDescriptor,
    /// Reading from the underlying source failed.
    Io,
    /// The message included zlib-compressed values, which we don't support.
    UnsupportedCompression,
}

/// A message body that is well formed but breaks a rule of the Offers protocol.
#[derive(Clone, Copy, Debug, PartialEq, Eq, Structural)]
pub enum SemanticError {
    /// The current time is past the message's expiry.
    AlreadyExpired,
    /// The chain named in the message is not supported.
    UnsupportedChain,
    /// A chain was given where none was expected.
    UnexpectedChain,
    /// An amount was expected but was missing.
    MissingAmount,
    /// The amount exceeded the total bitcoin supply.
    InvalidAmount,
    /// The amount was below what the offer asks for.
    InsufficientAmount,
    /// An amount was given where none was expected.
    UnexpectedAmount,
    /// The currency is not supported.
    UnsupportedCurrency,
    /// A feature was required but is unknown.
    UnknownRequiredFeatures,
    /// Features were given where none were expected.
    UnexpectedFeatures,
    /// A required description was missing.
    MissingDescription,
    /// A signing public key was expected but was missing.
    MissingSigningPubkey,
    /// The signing public key does not match the one expected.
    InvalidSigningPubkey,
    /// A signing public key was given where none was expected.
    UnexpectedSigningPubkey,
    /// A quantity was expected but was missing.
    MissingQuantity,
    /// The quantity is outside the allowed range.
    InvalidQuantity,
    /// A quantity was given where none was expected.
    UnexpectedQuantity,
    /// The metadata is invalid.
    InvalidMetadata,
    /// Metadata was given where none was expected.
    UnexpectedMetadata,
    /// The payer's metadata was missing.
    MissingPayerMetadata,
    /// The payer's id was missing.
    MissingPayerId,
    /// No blinded paths were given.
    MissingPaths,
    /// The number of payment infos differs from the number of blinded paths.
    InvalidPayInfo,
    /// The creation time was missing.
    MissingCreationTime,
    /// The payment hash was missing.
    MissingPaymentHash,
    /// The signature was missing.
    MissingSignature,
}

/// Why a signature over a message body did not verify.
#[derive(Clone, Copy, Debug, PartialEq, Eq, Structural)]
pub enum SignatureError {
    /// The signature does not match the message and key.
    IncorrectSignature,
    /// The signature bytes do not encode a signature.
    InvalidSignature,
    /// The public key bytes do not encode a point.
    InvalidPublicKey,
    /// The signed message is not a valid digest.
    InvalidMessage,
}

/// What a message body's own constructor reports when it rejects a payload.
#[derive(Clone, Copy, Debug, PartialEq, Eq, Structural)]
pub enum ParseError {
    /// A bech32 string was split across parts that cannot be joined.
    InvalidContinuation,
    /// A bech32 string carries the wrong human-readable part.
    InvalidBech32Hrp,
    /// The payload does not fit the wire encoding.
    Decode(DecodeError),
    /// The payload is well formed but breaks a protocol rule.
    InvalidSemantics(SemanticError),
    /// The payload is well formed and meaningful but its signature does not verify.
    InvalidSignature(SignatureError),
}

/// Severity of a diagnostic record.
#[derive(Clone, Copy, Debug, PartialEq, Eq, Structural)]
pub enum Level {
    Gossip,
    Trace,
    Debug,
    Info,
    Warn,
    Error,
}

/// The detail that a downgraded failure keeps for diagnostics only.
#[derive(Clone, Copy, Debug, PartialEq, Eq, Structural)]
pub enum DiagnosticCause {
    InvalidSemantics(SemanticError),
    InvalidSignature(SignatureError),
}

/// One diagnostic record: the record type of the rejected payload and why it was rejected.
#[derive(Clone, Copy, Debug, PartialEq, Eq, Structural)]
pub struct Diagnostic {
    pub level: Level,
    pub tlv_type: u64,
    pub cause: DiagnosticCause,
}

/// The error that a caller sees for a body constructor's error: malformed encodings keep their
/// own error, everything else becomes `InvalidValue`.
pub open spec fn surfaced_error(e: ParseError) -> DecodeError {
    match e {
        ParseError::Decode(d) => d,
        _ => DecodeError::InvalidValue,
    }
}

/// The diagnostic that a body constructor's error leaves behind, if any: only semantic and
/// signature failures are recorded, at trace level, with the record type they came under.
pub open spec fn diagnostic_for(tlv_type: u64, e: ParseError) -> Option<Diagnostic> {
    match e {
        ParseError::InvalidSemantics(s) => Some(
            Diagnostic { level: Level::Trace, tlv_type, cause: DiagnosticCause::InvalidSemantics(s) },
        ),
        ParseError::InvalidSignature(s) => Some(
            Diagnostic { level: Level::Trace, tlv_type, cause: DiagnosticCause::InvalidSignature(s) },
        ),
        _ => None,
    }
}

/// Records `d` in `log`, when there is one.
pub open spec fn logged(log: Seq<Diagnostic>, d: Option<Diagnostic>) -> Seq<Diagnostic> {
    match d {
        Some(d) => log.push(d),
        None => log,
    }
}

/// Turns a body constructor's error into the error that the caller sees, recording the detail
/// of a semantic or signature failure in `log` at trace level.
pub fn surface_parse_error(tlv_type: u64, e: ParseError, log: &mut Vec<Diagnostic>) -> (r:
    DecodeError)
    ensures
        r == surfaced_error(e),
        final(log)@ == logged(old(log)@, diagnostic_for(tlv_type, e)),
{
    match e {
        ParseError::Decode(d) => d,
        ParseError::InvalidSemantics(s) => {
            log.push(
                Diagnostic {
                    level: Level::Trace,
                    tlv_type,
                    cause: DiagnosticCause::InvalidSemantics(s),
                },
            );
            DecodeError::InvalidValue
        },
        ParseError::InvalidSignature(s) => {
            log.push(
                Diagnostic {
                    level: Level::Trace,
                    tlv_type,
                    cause: DiagnosticCause::InvalidSignature(s),
                },
            );
            DecodeError::InvalidValue
        },
        _ => DecodeError::InvalidValue,
    }
}

} // verus!
