//! User-defaults bridge: the simplest instance of the native-bridge pattern.
//! A write encodes a key and a value for the boundary; a read encodes the key
//! and decodes the nullable answer, where null means the key is unset. There
//! is no event path: both operations answer synchronously.

use vstd::prelude::*;
use vstd::utf8::encode_utf8;
use crate::marshal::{EncodeError, InboundStr, OutboundBuf, encode_string, lossy_of, opt_chars,
    take_string};

verus! {

/// The two encoded string arguments of the native user-default write.
#[derive(Debug, Clone, PartialEq, Eq)]
pub struct UserDefaultWrite {
    pub key: OutboundBuf,
    pub value: OutboundBuf,
}

/// Encodes a user-default write. Fails, before anything reaches the
/// boundary, exactly when either string's UTF-8 encoding holds a null byte.
pub fn set_user_default_request(key: &str, value: &str) -> (r: Result<
    UserDefaultWrite,
    EncodeError,
>)
    ensures
        r is Ok <==> (!key@.contains('\0') && !value@.contains('\0')),
        r matches Ok(w) ==> w.key.payload_bytes() == encode_utf8(key@) && w.value.payload_bytes()
            == encode_utf8(value@) && w.key.wf() && w.value.wf(),
        r matches Err(e) ==> e == EncodeError::InteriorNul,
{
    let key_buf = encode_string(key)?;
    let value_buf = encode_string(value)?;
    Ok(UserDefaultWrite { key: key_buf, value: value_buf })
}

/// Encodes a user-default read: the key alone.
pub fn get_user_default_request(key: &str) -> (r: Result<OutboundBuf, EncodeError>)
    ensures
        r is Ok <==> !key@.contains('\0'),
        r matches Ok(b) ==> b.payload_bytes() == encode_utf8(key@) && b.wf(),
        r matches Err(e) ==> e == EncodeError::InteriorNul,
{
    encode_string(key)
}

/// Decodes the nullable answer of a user-default read: null means the key is
/// unset; any bytes, even empty, are the stored value, decoded lossily.
pub fn get_user_default_response(raw: InboundStr) -> (r: Option<String>)
    ensures
        raw is Null ==> r is None,
        raw matches InboundStr::Bytes(bytes) ==> opt_chars(r) == Some(lossy_of(bytes@)),
{
    match raw {
        InboundStr::Null => None,
        InboundStr::Bytes(bytes) => Some(take_string(InboundStr::Bytes(bytes))),
    }
}

} // verus!
