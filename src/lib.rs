//! Message registry and wire codec for BOLT 12 Offers messages carried in onion messages.
//!
//! The registry maps the `onionmsg_tlv` record types reserved for Offers onto the variants of
//! [`OffersMessage`]; the codec turns payloads into those variants and back, and decides how a
//! failure while decoding a payload is reported to the caller.

pub mod codec;
pub mod error;
pub mod message;

pub use codec::BodyVerdict;
pub use error::{
    surface_parse_error, DecodeError, Diagnostic, DiagnosticCause, Level, ParseError,
    SemanticError, SignatureError,
};
pub use message::{
    Invoice, InvoiceError, InvoiceRequest, OffersMessage, OffersMessageHandler, OffersMessageKind,
    INVOICE_ERROR_TLV_TYPE, INVOICE_REQUEST_TLV_TYPE, INVOICE_TLV_TYPE,
};
