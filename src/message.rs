use vstd::prelude::*;

verus! {

/// Record type of an invoice request in the `onionmsg_tlv` stream.
pub const INVOICE_REQUEST_TLV_TYPE: u64 = 64;

/// Record type of an invoice in the `onionmsg_tlv` stream.
pub const INVOICE_TLV_TYPE: u64 = 66;

/// Record type of an invoice error in the `onionmsg_tlv` stream.
pub const INVOICE_ERROR_TLV_TYPE: u64 = 68;

/// The closed set of record types that carry an Offers message.
pub open spec fn known_type(tlv_type: u64) -> bool {
    tlv_type == INVOICE_REQUEST_TLV_TYPE || tlv_type == INVOICE_TLV_TYPE || tlv_type
        == INVOICE_ERROR_TLV_TYPE
}

/// The kind that the registry binds to a record type, if any.
pub open spec fn kind_of(tlv_type: u64) -> Option<OffersMessageKind> {
    if tlv_type == INVOICE_REQUEST_TLV_TYPE {
        Some(OffersMessageKind::InvoiceRequest)
    } else if tlv_type == INVOICE_TLV_TYPE {
        Some(OffersMessageKind::Invoice)
    } else if tlv_type == INVOICE_ERROR_TLV_TYPE {
        Some(OffersMessageKind::InvoiceError)
    } else {
        None
    }
}

/// The kinds of Offers message, one for each record type of the registry.
#[derive(Clone, Copy, Debug, PartialEq, Eq, Structural)]
pub enum OffersMessageKind {
    InvoiceRequest,
    Invoice,
    InvoiceError,
}

impl OffersMessageKind {
    /// The record type bound to the kind.
    pub open spec fn code_spec(self) -> u64 {
        match self {
            OffersMessageKind::InvoiceRequest => INVOICE_REQUEST_TLV_TYPE,
            OffersMessageKind::Invoice => INVOICE_TLV_TYPE,
            OffersMessageKind::InvoiceError => INVOICE_ERROR_TLV_TYPE,
        }
    }

    /// Whether a body of the kind is read straight from the payload source; the bodies of the
    /// other kinds are built from the whole payload, buffered first.
    pub open spec fn reads_from_source_spec(self) -> bool {
        self is InvoiceError
    }

    /// The record type bound to the kind.
    pub fn tlv_type(self) -> (r: u64)
        ensures
            r == self.code_spec(),
    {
        match self {
            OffersMessageKind::InvoiceRequest => INVOICE_REQUEST_TLV_TYPE,
            OffersMessageKind::Invoice => INVOICE_TLV_TYPE,
            OffersMessageKind::InvoiceError => INVOICE_ERROR_TLV_TYPE,
        }
    }

    /// The kind bound to `tlv_type`, if the registry knows the record type.
    pub fn from_tlv_type(tlv_type: u64) -> (r: Option<OffersMessageKind>)
        ensures
            r == kind_of(tlv_type),
            r is Some <==> known_type(tlv_type),
            r matches Some(k) ==> k.code_spec() == tlv_type,
    {
        match tlv_type {
            INVOICE_REQUEST_TLV_TYPE => Some(OffersMessageKind::InvoiceRequest),
            INVOICE_TLV_TYPE => Some(OffersMessageKind::Invoice),
            INVOICE_ERROR_TLV_TYPE => Some(OffersMessageKind::InvoiceError),
            _ => None,
        }
    }

    /// Whether a body of the kind is read straight from the payload source rather than built
    /// from a buffered copy of the whole payload.
    pub fn reads_from_source(self) -> (r: bool)
        ensures
            r == self.reads_from_source_spec(),
    {
        match self {
            OffersMessageKind::InvoiceError => true,
            _ => false,
        }
    }
}

/// The registry binds each kind to one record type and each record type to at most one kind.
pub proof fn lemma_registry_bijective(a: OffersMessageKind, b: OffersMessageKind)
    ensures
        a.code_spec() == b.code_spec() <==> a == b,
        known_type(a.code_spec()),
        kind_of(a.code_spec()) == Some(a),
{
}

/// A request for an invoice for a particular offer, held as the TLV stream it was built from.
#[derive(Clone, Debug, PartialEq, Eq)]
pub struct InvoiceRequest {
    pub bytes: Vec<u8>,
}

/// An invoice sent in response to an invoice request or a refund, held as its TLV stream.
#[derive(Clone, Debug, PartialEq, Eq)]
pub struct Invoice {
    pub bytes: Vec<u8>,
}

/// An error from handling an Offers message, held as its TLV stream.
#[derive(Clone, Debug, PartialEq, Eq)]
pub struct InvoiceError {
    pub bytes: Vec<u8>,
}

/// Possible BOLT 12 Offers messages sent and received via an onion message.
#[derive(Clone, Debug, PartialEq, Eq)]
pub enum OffersMessage {
    /// A request for an [`Invoice`] for a particular offer.
    InvoiceRequest(InvoiceRequest),
    /// An [`Invoice`] sent in response to an [`InvoiceRequest`] or a refund.
    Invoice(Invoice),
    /// An error from handling an [`OffersMessage`].
    InvoiceError(InvoiceError),
}

/// A handler for an onion message whose payload is an Offers message.
pub trait OffersMessageHandler {
    /// Handles the given message by either responding with an [`Invoice`], sending a payment, or
    /// replying with an error.
    fn handle_message(&self, message: OffersMessage) -> Option<OffersMessage>;
}

/// The message that a record type and a body encoding stand for.
pub open spec fn message_spec(tlv_type: u64, body: Seq<u8>) -> OffersMessageView {
    OffersMessageView { tlv_type, body }
}

/// A message as a record type and the encoding of its body: two messages are the same message
/// exactly when these agree.
pub struct OffersMessageView {
    pub tlv_type: u64,
    pub body: Seq<u8>,
}

impl OffersMessage {
    /// The record type of the message's variant.
    pub open spec fn type_spec(&self) -> u64 {
        match self {
            OffersMessage::InvoiceRequest(_) => INVOICE_REQUEST_TLV_TYPE,
            OffersMessage::Invoice(_) => INVOICE_TLV_TYPE,
            OffersMessage::InvoiceError(_) => INVOICE_ERROR_TLV_TYPE,
        }
    }

    /// The bytes that the message's body encodes to.
    pub open spec fn body_spec(&self) -> Seq<u8> {
        match self {
            OffersMessage::InvoiceRequest(m) => m.bytes@,
            OffersMessage::Invoice(m) => m.bytes@,
            OffersMessage::InvoiceError(m) => m.bytes@,
        }
    }

    /// The kind of the message.
    pub open spec fn kind_spec(&self) -> OffersMessageKind {
        match self {
            OffersMessage::InvoiceRequest(_) => OffersMessageKind::InvoiceRequest,
            OffersMessage::Invoice(_) => OffersMessageKind::Invoice,
            OffersMessage::InvoiceError(_) => OffersMessageKind::InvoiceError,
        }
    }

    pub open spec fn view(&self) -> OffersMessageView {
        message_spec(self.type_spec(), self.body_spec())
    }

    /// Returns whether `tlv_type` corresponds to a TLV record for Offers.
    pub fn is_known_type(tlv_type: u64) -> (r: bool)
        ensures
            r == known_type(tlv_type),
    {
        match tlv_type {
            INVOICE_REQUEST_TLV_TYPE | INVOICE_TLV_TYPE | INVOICE_ERROR_TLV_TYPE => true,
            _ => false,
        }
    }

    /// The TLV record type for the message as used in an `onionmsg_tlv` TLV stream.
    pub fn tlv_type(&self) -> (r: u64)
        ensures
            r == self.type_spec(),
            known_type(r),
    {
        match self {
            OffersMessage::InvoiceRequest(_) => INVOICE_REQUEST_TLV_TYPE,
            OffersMessage::Invoice(_) => INVOICE_TLV_TYPE,
            OffersMessage::InvoiceError(_) => INVOICE_ERROR_TLV_TYPE,
        }
    }

    /// The kind of the message.
    pub fn kind(&self) -> (r: OffersMessageKind)
        ensures
            r == self.kind_spec(),
            r.code_spec() == self.type_spec(),
    {
        match self {
            OffersMessage::InvoiceRequest(_) => OffersMessageKind::InvoiceRequest,
            OffersMessage::Invoice(_) => OffersMessageKind::Invoice,
            OffersMessage::InvoiceError(_) => OffersMessageKind::InvoiceError,
        }
    }

    /// Appends the encoding of the message's body to `w`; the record type is framed by the
    /// caller.
    pub fn write(&self, w: &mut Vec<u8>)
        ensures
            final(w)@ == old(w)@ + self.body_spec(),
    {
        match self {
            OffersMessage::InvoiceRequest(m) => append_bytes(w, &m.bytes),
            OffersMessage::Invoice(m) => append_bytes(w, &m.bytes),
            OffersMessage::InvoiceError(m) => append_bytes(w, &m.bytes),
        }
    }

    /// The encoding of the message's body.
    pub fn encode(&self) -> (r: Vec<u8>)
        ensures
            r@ == self.body_spec(),
    {
        let mut w: Vec<u8> = Vec::new();
        self.write(&mut w);
        assert(w@ =~= self.body_spec());
        w
    }
}

/// The record type tells the variants apart, and a message is fixed by its record type and the
/// encoding of its body.
pub proof fn lemma_type_code_injective(a: OffersMessage, b: OffersMessage)
    ensures
        a.type_spec() == b.type_spec() <==> (a is InvoiceRequest && b is InvoiceRequest) || (
        a is Invoice && b is Invoice) || (a is InvoiceError && b is InvoiceError),
        a@ == b@ ==> a.type_spec() == b.type_spec() && a.body_spec() == b.body_spec(),
{
}

/// Appends `b` to `w`.
fn append_bytes(w: &mut Vec<u8>, b: &Vec<u8>)
    ensures
        final(w)@ == old(w)@ + b@,
{
    let ghost start = w@;
    let mut i: usize = 0;
    while i < b.len()
        invariant
            i <= b@.len(),
            w@ == start + b@.subrange(0, i as int),
        decreases b@.len() - i,
    {
        w.push(b[i]);
        i = i + 1;
        assert(w@ =~= start + b@.subrange(0, i as int));
    }
    assert(b@.subrange(0, b@.len() as int) =~= b@);
}

} // verus!
