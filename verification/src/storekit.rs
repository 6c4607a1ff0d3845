//! In-app-purchase bridge: the sibling instance of the native-bridge pattern.
//! Outbound, a purchase request is encoded as two boundary strings. Inbound,
//! the native layer reports purchase events as a JSON text; the bridge
//! extracts the three string fields of its top-level object, builds a typed
//! payload, and delivers it to the single registered handler under the same
//! replace-on-register, drop-if-absent discipline as the device bridge.

use vstd::prelude::*;
use vstd::string::StringExecFns;
use vstd::utf8::encode_utf8;
use crate::marshal::{EncodeError, InboundStr, OutboundBuf, encode_string, inbound_chars,
    opt_chars, take_string};

verus! {

/// Request of the diagnostic ping round trip.
#[derive(Debug, Clone, PartialEq, Eq)]
pub struct PingRequest {
    pub value: Option<String>,
}

/// Response of the diagnostic ping round trip.
#[derive(Debug, Clone, PartialEq, Eq)]
pub struct PingResponse {
    pub value: Option<String>,
}

/// Request of a purchase: which product, for which opaque account token.
#[derive(Debug, Clone, PartialEq, Eq)]
pub struct PaymentRequest {
    pub app_account_token: String,
    pub product_id: String,
}

/// Response of a purchase request; the outcome arrives via the event path.
#[derive(Debug, Clone, PartialEq, Eq)]
pub struct PaymentResponse {}

/// One purchase event as delivered to the registered handler: a kind tag,
/// an optional payload and an optional error, decoded from the loosely-typed
/// boundary text.
#[derive(Debug, Clone, PartialEq, Eq)]
pub struct IapPayload {
    pub event: String,
    pub data: Option<String>,
    pub error: Option<String>,
}

/// The mathematical content of a purchase event.
#[verifier::ext_equal]
pub struct IapPayloadView {
    pub event: Seq<char>,
    pub data: Option<Seq<char>>,
    pub error: Option<Seq<char>>,
}

impl View for IapPayload {
    type V = IapPayloadView;

    open spec fn view(&self) -> IapPayloadView {
        IapPayloadView {
            event: self.event@,
            data: opt_chars(self.data),
            error: opt_chars(self.error),
        }
    }
}

/// Whether `serde_json::from_str::<Value>` accepts a text as JSON; depends on
/// the text alone.
pub uninterp spec fn json_parse_ok(s: Seq<char>) -> bool;

/// The string value at a top-level key of a JSON text, when the text parses,
/// its top level is an object, the key is present and its value is a string;
/// absent otherwise. Depends on text and key alone.
pub uninterp spec fn json_str_field_of(s: Seq<char>, key: Seq<char>) -> Option<Seq<char>>;

/// Relies on `serde_json::from_str::<Value>`: whether a text parses as JSON
/// is a function of the text alone, and the parser returns without panicking
/// on every input.
#[verifier::external_body]
fn json_parses(s: &str) -> (r: bool)
    ensures
        r == json_parse_ok(s@),
{
    serde_json::from_str::<serde_json::Value>(s).is_ok()
}

/// Relies on `serde_json::from_str::<Value>`, `Value::get` and
/// `Value::as_str`: parsing is deterministic, `get` on a string index looks
/// the key up in the top-level object (returning nothing for any other
/// value), and `as_str` returns the string precisely when the value is a
/// JSON string. A text that does not parse has no fields.
#[verifier::external_body]
fn json_str_field(s: &str, key: &str) -> (r: Option<String>)
    ensures
        opt_chars(r) == json_str_field_of(s@, key@),
        !json_parse_ok(s@) ==> r is None,
{
    match serde_json::from_str::<serde_json::Value>(s) {
        Ok(v) => match v.get(key) {
            Some(x) => match x.as_str() {
                Some(t) => Some(t.to_string()),
                None => None,
            },
            None => None,
        },
        Err(_) => None,
    }
}

/// The payload a JSON boundary text decodes to: the `type` field, defaulting
/// to `UNKNOWN` when absent or not a string, and the optional `data` and
/// `error` fields.
pub open spec fn iap_payload_view(s: Seq<char>) -> IapPayloadView {
    IapPayloadView {
        event: match json_str_field_of(s, "type"@) {
            Some(t) => t,
            None => "UNKNOWN"@,
        },
        data: json_str_field_of(s, "data"@),
        error: json_str_field_of(s, "error"@),
    }
}

/// Builds a typed purchase event from the three extracted fields: an absent
/// or non-string kind tag becomes the `UNKNOWN` kind, the payload and error
/// fields are carried as they are.
pub fn build_iap_payload(event: Option<String>, data: Option<String>, error: Option<String>) -> (r:
    IapPayload)
    ensures
        event matches Some(e) ==> r.event@ == e@,
        event is None ==> r.event@ == "UNKNOWN"@,
        r.data == data,
        r.error == error,
{
    let ev = match event {
        Option::Some(e) => e,
        Option::None => String::from_str("UNKNOWN"),
    };
    IapPayload { event: ev, data, error }
}

/// The handler interface for purchase events. Exactly one implementation is
/// registered at a time; each delivery must be recorded, so that delivery is
/// observable in contracts: `received()` is the sequence of payloads this
/// handler has been handed, in order.
pub trait IapHandler: Sized {
    /// The payloads this handler has received so far, oldest first.
    spec fn received(&self) -> Seq<IapPayloadView>;

    fn on_iap_event(&mut self, payload: IapPayload)
        ensures
            final(self).received() == old(self).received().push(payload@),
    ;
}

/// The single slot holding the currently registered purchase-event handler.
pub struct IapHandlerSlot<H> {
    handler: Option<H>,
}

impl<H: IapHandler> IapHandlerSlot<H> {
    /// The current occupant of the slot.
    pub closed spec fn handler_opt(&self) -> Option<H> {
        self.handler
    }

    /// Whether a handler is currently registered.
    pub open spec fn registered(&self) -> bool {
        self.handler_opt() is Some
    }

    /// The delivery log of the current handler; empty while unregistered.
    pub open spec fn log(&self) -> Seq<IapPayloadView> {
        match self.handler_opt() {
            Some(h) => h.received(),
            None => Seq::<IapPayloadView>::empty(),
        }
    }

    /// A fresh slot: unregistered.
    pub fn new() -> (r: Self)
        ensures
            !r.registered(),
    {
        IapHandlerSlot { handler: None }
    }

    /// Whether a handler is currently registered.
    pub fn is_registered(&self) -> (r: bool)
        ensures
            r == self.registered(),
    {
        self.handler.is_some()
    }

    /// A view of the current handler, if any, for observing its state.
    pub fn current(&self) -> (r: Option<&H>)
        ensures
            r is Some <==> self.registered(),
            r matches Some(h) ==> self.handler_opt() == Some(*h),
    {
        self.handler.as_ref()
    }

    /// Delivers one payload to the current handler; dropped silently while
    /// no handler is registered.
    pub fn dispatch(&mut self, payload: IapPayload) -> (delivered: bool)
        ensures
            delivered == old(self).registered(),
            !old(self).registered() ==> *final(self) == *old(self),
            old(self).registered() ==> final(self).registered() && final(self).log()
                == old(self).log().push(payload@),
    {
        match &mut self.handler {
            Some(h) => {
                h.on_iap_event(payload);
                true
            },
            None => false,
        }
    }
}

/// Installs or replaces the purchase-event handler and returns the previous
/// one, which receives nothing further.
pub fn set_event_handler<H: IapHandler>(
    slot: &mut IapHandlerSlot<H>,
    handler: H,
) -> (prev: Option<H>)
    ensures
        final(slot).registered(),
        final(slot).handler_opt() == Some(handler),
        final(slot).log() == handler.received(),
        prev == old(slot).handler_opt(),
{
    let prev = slot.handler.take();
    slot.handler = Some(handler);
    prev
}

/// Encodes a purchase request: both strings must be representable at the
/// boundary, and nothing reaches the boundary when either is not.
#[derive(Debug, Clone, PartialEq, Eq)]
pub struct PurchaseCall {
    pub account_token: OutboundBuf,
    pub product_id: OutboundBuf,
}

/// Encodes the two string arguments of the native purchase call. Fails,
/// before anything is handed to the boundary, exactly when either string's
/// UTF-8 encoding holds a null byte.
pub fn pay_request(payment: PaymentRequest) -> (r: Result<PurchaseCall, EncodeError>)
    ensures
        r is Ok <==> (!payment.app_account_token@.contains('\0')
            && !payment.product_id@.contains('\0')),
        r matches Ok(c) ==> c.account_token.payload_bytes() == encode_utf8(
            payment.app_account_token@,
        ) && c.product_id.payload_bytes() == encode_utf8(payment.product_id@)
            && c.account_token.wf() && c.product_id.wf(),
        r matches Err(e) ==> e == EncodeError::InteriorNul,
{
    let account_token = encode_string(payment.app_account_token.as_str())?;
    let product_id = encode_string(payment.product_id.as_str())?;
    Ok(PurchaseCall { account_token, product_id })
}

/// Handles one purchase-event text arriving from the native side: a null
/// text, a text that does not parse as JSON, or an unregistered handler all
/// drop the event silently; otherwise the registered handler receives
/// exactly the decoded payload.
pub fn on_iap_callback<H: IapHandler>(
    slot: &mut IapHandlerSlot<H>,
    message: InboundStr,
) -> (delivered: bool)
    ensures
        delivered == (old(slot).registered() && message is Bytes && json_parse_ok(
            inbound_chars(message),
        )),
        !delivered ==> *final(slot) == *old(slot),
        delivered ==> final(slot).registered() && final(slot).log() == old(slot).log().push(
            iap_payload_view(inbound_chars(message)),
        ),
{
    if !slot.is_registered() {
        return false;
    }
    match message {
        InboundStr::Null => false,
        InboundStr::Bytes(bytes) => {
            let text = take_string(InboundStr::Bytes(bytes));
            if !json_parses(text.as_str()) {
                return false;
            }
            let event = json_str_field(text.as_str(), "type");
            let data = json_str_field(text.as_str(), "data");
            let error = json_str_field(text.as_str(), "error");
            let payload = build_iap_payload(event, data, error);
            proof {
                assert(payload@ =~= iap_payload_view(text@));
            }
            slot.dispatch(payload)
        },
    }
}

/// The diagnostic ping: echoes the optional value back unchanged.
pub fn ping(payload: PingRequest) -> (r: PingResponse)
    ensures
        r.value == payload.value,
{
    PingResponse { value: payload.value }
}

/// A handler that records every payload it is handed, in order: the simplest
/// honest observer, whose delivery log is exactly its recorded payloads.
pub struct RecordingIapHandler {
    pub payloads: Vec<IapPayload>,
}

impl RecordingIapHandler {
    /// A fresh recorder with an empty log.
    pub fn new() -> (r: Self)
        ensures
            r.received() == Seq::<IapPayloadView>::empty(),
            r.payloads@ == Seq::<IapPayload>::empty(),
    {
        let r = RecordingIapHandler { payloads: Vec::new() };
        proof {
            assert(r.payloads@.map_values(|p: IapPayload| p@) =~= Seq::<IapPayloadView>::empty());
        }
        r
    }

    /// The recorded payloads, oldest first.
    pub fn payloads(&self) -> (r: &Vec<IapPayload>)
        ensures
            r@ == self.payloads@,
    {
        &self.payloads
    }
}

impl IapHandler for RecordingIapHandler {
    open spec fn received(&self) -> Seq<IapPayloadView> {
        self.payloads@.map_values(|p: IapPayload| p@)
    }

    fn on_iap_event(&mut self, payload: IapPayload) {
        let ghost pre = self.payloads@;
        let ghost p = payload;
        self.payloads.push(payload);
        proof {
            assert(pre.push(p).map_values(|x: IapPayload| x@) =~= pre.map_values(
                |x: IapPayload| x@,
            ).push(p@));
        }
    }
}

} // verus!
