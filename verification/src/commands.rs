//! Command façade: the outbound half of the bridge. Each operation encodes
//! its arguments into a fully determined native command; performing the call
//! is the unverifiable edge, which hands back a plain acceptance flag (or a
//! raw string, for echo) that the response half turns into the structured
//! result.
//!
//! No retries happen here: a rejected command or a missing follow-up event is
//! surfaced as-is, and recovery policy belongs to the application layer.

use vstd::prelude::*;
use vstd::utf8::encode_utf8;
use crate::marshal::{EncodeError, InboundStr, OutboundBuf, encode_string, inbound_chars,
    opt_chars, take_string};
use crate::models::{EchoReq, EchoResp, ConnectResp};

verus! {

/// One outbound native call, with every string argument already encoded for
/// the boundary. This is the outbound half of the boundary descriptor: the
/// unverifiable edge only performs the call this value names.
#[derive(Debug, Clone, PartialEq, Eq)]
pub enum NativeCommand {
    Initialize,
    StartScanning,
    StopScanning,
    SetPassiveMode { mode: bool },
    ConnectDevice { identifier: OutboundBuf },
    DisconnectDevice { identifier: OutboundBuf },
    ReadRssi { identifier: OutboundBuf },
    Echo { value: OutboundBuf },
}

/// The string an echo request carries: an absent value echoes the empty
/// string.
pub open spec fn echo_req_chars(data: EchoReq) -> Seq<char> {
    match data.value {
        Option::None => Seq::<char>::empty(),
        Option::Some(s) => s@,
    }
}

/// One-time native initialization; nothing to encode.
pub fn initialize() -> (c: NativeCommand)
    ensures
        c == NativeCommand::Initialize,
{
    NativeCommand::Initialize
}

/// Begins the native discovery loop. The native layer's boolean answer
/// reflects whether the request was accepted, not whether any device is
/// eventually found; see [`command_response`].
pub fn start_scanning() -> (c: NativeCommand)
    ensures
        c == NativeCommand::StartScanning,
{
    NativeCommand::StartScanning
}

/// Ends the native discovery loop.
pub fn stop_scanning() -> (c: NativeCommand)
    ensures
        c == NativeCommand::StopScanning,
{
    NativeCommand::StopScanning
}

/// Toggles the passive scanning strategy flag; fire-and-forget, its effect is
/// observed only through subsequent device events.
pub fn set_passive_mode(mode: bool) -> (c: NativeCommand)
    ensures
        c == (NativeCommand::SetPassiveMode { mode }),
{
    NativeCommand::SetPassiveMode { mode }
}

/// Requests a connection to one identified device. Fails, before anything
/// reaches the boundary, exactly when the identifier cannot be encoded; the
/// returned boolean of the call is an immediate acceptance signal, the
/// authoritative state arrives later as a device-update event.
pub fn connect_device(identifier: &str) -> (r: Result<NativeCommand, EncodeError>)
    ensures
        r is Ok <==> !identifier@.contains('\0'),
        r matches Ok(c) ==> c matches NativeCommand::ConnectDevice { identifier: b }
            && b.payload_bytes() == encode_utf8(identifier@) && b.wf(),
        r matches Err(e) ==> e == EncodeError::InteriorNul,
{
    let buf = encode_string(identifier)?;
    Ok(NativeCommand::ConnectDevice { identifier: buf })
}

/// Requests a disconnection from one identified device; same contract shape
/// as [`connect_device`].
pub fn disconnect_device(identifier: &str) -> (r: Result<NativeCommand, EncodeError>)
    ensures
        r is Ok <==> !identifier@.contains('\0'),
        r matches Ok(c) ==> c matches NativeCommand::DisconnectDevice { identifier: b }
            && b.payload_bytes() == encode_utf8(identifier@) && b.wf(),
        r matches Err(e) ==> e == EncodeError::InteriorNul,
{
    let buf = encode_string(identifier)?;
    Ok(NativeCommand::DisconnectDevice { identifier: buf })
}

/// Requests an out-of-band RSSI refresh for one identified device; the
/// result, if any, arrives via the RSSI-update event path, not as a return
/// value.
pub fn read_rssi(identifier: &str) -> (r: Result<NativeCommand, EncodeError>)
    ensures
        r is Ok <==> !identifier@.contains('\0'),
        r matches Ok(c) ==> c matches NativeCommand::ReadRssi { identifier: b }
            && b.payload_bytes() == encode_utf8(identifier@) && b.wf(),
        r matches Err(e) ==> e == EncodeError::InteriorNul,
{
    let buf = encode_string(identifier)?;
    Ok(NativeCommand::ReadRssi { identifier: buf })
}

/// Encodes the diagnostic echo round trip; an absent value echoes the empty
/// string.
pub fn echo_request(data: EchoReq) -> (r: Result<NativeCommand, EncodeError>)
    ensures
        r is Ok <==> !echo_req_chars(data).contains('\0'),
        r matches Ok(c) ==> c matches NativeCommand::Echo { value: b } && b.payload_bytes()
            == encode_utf8(echo_req_chars(data)) && b.wf(),
        r matches Err(e) ==> e == EncodeError::InteriorNul,
{
    let val = match data.value {
        Option::Some(v) => v,
        Option::None => String::new(),
    };
    let buf = encode_string(val.as_str())?;
    Ok(NativeCommand::Echo { value: buf })
}

/// Decodes the raw string the native echo handed back; a null answer decodes
/// to the empty string, like every inbound boundary string.
pub fn echo_response(raw: InboundStr) -> (r: EchoResp)
    ensures
        opt_chars(r.value) == Some(inbound_chars(raw)),
{
    EchoResp { value: Some(take_string(raw)) }
}

/// Wraps the native layer's immediate boolean answer as the caller-visible
/// command outcome: rejection is data, not an error.
pub fn command_response(accepted: bool) -> (r: ConnectResp)
    ensures
        r == (ConnectResp { success: accepted }),
{
    ConnectResp { success: accepted }
}

} // verus!
