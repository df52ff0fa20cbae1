//! MQTT payloads: raw bytes, shown as text when they are valid UTF-8.
use vstd::prelude::*;
use vstd::string::*;
use vstd::utf8::*;
use vstd::slice::slice_to_vec;
use crate::text::{decimal, join, write_decimal};

verus! {

broadcast use {encode_utf8_valid_utf8, encode_utf8_decode_utf8};

#[derive(Debug, PartialEq, Eq)]
pub enum MqttPayload {
    Text(String),
    Binary(Box<[u8]>),
}

/// A payload as a value: its text, or its bytes.
pub enum MqttPayloadView {
    Text(Seq<char>),
    Binary(Seq<u8>),
}

impl View for MqttPayload {
    type V = MqttPayloadView;

    open spec fn view(&self) -> MqttPayloadView {
        match self {
            MqttPayload::Text(text) => MqttPayloadView::Text(text@),
            MqttPayload::Binary(bytes) => MqttPayloadView::Binary(bytes@),
        }
    }
}

impl MqttPayloadView {
    /// The bytes sent on the wire: the UTF-8 encoding of a text.
    pub open spec fn bytes(self) -> Seq<u8> {
        match self {
            MqttPayloadView::Text(text) => encode_utf8(text),
            MqttPayloadView::Binary(bytes) => bytes,
        }
    }

    /// The name of the payload type, as the payload is displayed.
    pub open spec fn kind_name(self) -> Seq<char> {
        match self {
            MqttPayloadView::Text(_) => "Text"@,
            MqttPayloadView::Binary(_) => "Binary"@,
        }
    }

    /// What the payload is shown as: its text, or its bytes as a list of numbers.
    pub open spec fn content(self) -> Seq<char> {
        match self {
            MqttPayloadView::Text(text) => text,
            MqttPayloadView::Binary(bytes) => bytes_debug_text(bytes),
        }
    }
}

/// The payload that received bytes are shown as: text when they are valid UTF-8.
pub open spec fn payload_of_bytes(bytes: Seq<u8>) -> MqttPayloadView {
    if valid_utf8(bytes) {
        MqttPayloadView::Text(decode_utf8(bytes))
    } else {
        MqttPayloadView::Binary(bytes)
    }
}

/// The decimal value of each byte.
pub open spec fn byte_decimals(bytes: Seq<u8>) -> Seq<Seq<char>> {
    bytes.map_values(|b: u8| decimal(b as nat))
}

/// The `Debug` text of a byte slice, such as `[0, 255]`.
pub open spec fn bytes_debug_text(bytes: Seq<u8>) -> Seq<char> {
    "["@ + join(byte_decimals(bytes), ", "@) + "]"@
}

/// The name of what `String::from_utf8_lossy` gives: the bytes decoded, with each
/// invalid sequence replaced by U+FFFD.
pub uninterp spec fn utf8_lossy(bytes: Seq<u8>) -> Seq<char>;

/// The payload after switching its type: a text becomes its bytes, bytes become text.
pub open spec fn next_payload_type_of(payload: MqttPayloadView) -> MqttPayloadView {
    match payload {
        MqttPayloadView::Text(text) => MqttPayloadView::Binary(encode_utf8(text)),
        MqttPayloadView::Binary(bytes) => if valid_utf8(bytes) {
            MqttPayloadView::Text(decode_utf8(bytes))
        } else {
            MqttPayloadView::Text(utf8_lossy(bytes))
        },
    }
}

/// Calls `std::str::from_utf8`, which accepts exactly the byte sequences that are valid
/// UTF-8, and decodes them.
#[verifier::external_body]
fn str_from_utf8(bytes: &[u8]) -> (r: Option<&str>)
    ensures
        r is Some <==> valid_utf8(bytes@),
        r matches Some(text) ==> text@ == decode_utf8(bytes@),
{
    std::str::from_utf8(bytes).ok()
}

/// Calls `String::from_utf8_lossy`, which decodes the bytes and replaces each invalid
/// sequence with U+FFFD; valid UTF-8 comes back decoded unchanged.
#[verifier::external_body]
fn string_from_utf8_lossy(bytes: &[u8]) -> (r: String)
    ensures
        r@ == utf8_lossy(bytes@),
        valid_utf8(bytes@) ==> r@ == decode_utf8(bytes@),
{
    String::from_utf8_lossy(bytes).to_string()
}

/// Calls `Vec::into_boxed_slice`, which keeps the elements.
#[verifier::external_body]
pub(crate) fn boxed_bytes(bytes: Vec<u8>) -> (r: Box<[u8]>)
    ensures
        r@ == bytes@,
{
    bytes.into_boxed_slice()
}

/// The `Debug` text of a byte slice.
pub fn bytes_debug(bytes: &[u8]) -> (r: String)
    ensures
        r@ == bytes_debug_text(bytes@),
{
    let ghost parts = byte_decimals(bytes@);
    let mut r = String::from_str("[");
    let mut i: usize = 0;
    while i < bytes.len()
        invariant
            i <= bytes@.len(),
            parts == byte_decimals(bytes@),
            r@ == "["@ + join(parts.subrange(0, i as int), ", "@),
        decreases bytes@.len() - i,
    {
        if i != 0 {
            r.append(", ");
        }
        write_decimal(bytes[i] as u128, &mut r);
        proof {
            let next = parts.subrange(0, i + 1);
            assert(next.drop_last() =~= parts.subrange(0, i as int));
            assert(next.last() == decimal(bytes@[i as int] as nat));
            if i == 0 {
                assert(join(next, ", "@) == next[0]);
            }
        }
        i = i + 1;
        assert(r@ =~= "["@ + join(parts.subrange(0, i as int), ", "@));
    }
    assert(parts.subrange(0, bytes@.len() as int) =~= parts);
    r.append("]");
    r
}

impl MqttPayload {
    /// MQTT payloads are raw bytes, show them as text when they are valid UTF-8
    pub fn from_bytes(bytes: &[u8]) -> (payload: Self)
        ensures
            payload@ == payload_of_bytes(bytes@),
    {
        match str_from_utf8(bytes) {
            Some(text) => MqttPayload::Text(String::from_str(text)),
            None => MqttPayload::Binary(boxed_bytes(slice_to_vec(bytes))),
        }
    }

    pub fn to_bytes(&self) -> (bytes: Vec<u8>)
        ensures
            bytes@ == self@.bytes(),
    {
        match self {
            MqttPayload::Text(text) => slice_to_vec(text.as_str().as_bytes()),
            MqttPayload::Binary(bytes) => slice_to_vec(&**bytes),
        }
    }

    pub fn to_content(&self) -> (content: String)
        ensures
            content@ == self@.content(),
    {
        match self {
            MqttPayload::Text(text) => text.clone(),
            MqttPayload::Binary(bytes) => bytes_debug(&**bytes),
        }
    }

    /// The name of the payload type, as it is displayed ("Text" or "Binary").
    pub fn to_string(&self) -> (name: String)
        ensures
            name@ == self@.kind_name(),
    {
        match self {
            MqttPayload::Text(_) => String::from_str("Text"),
            MqttPayload::Binary(_) => String::from_str("Binary"),
        }
    }

    /// A copy of the payload.
    pub fn duplicate(&self) -> (copy: Self)
        ensures
            copy@ == self@,
    {
        match self {
            MqttPayload::Text(text) => MqttPayload::Text(text.clone()),
            MqttPayload::Binary(bytes) => MqttPayload::Binary(boxed_bytes(slice_to_vec(&**bytes))),
        }
    }
}

impl Clone for MqttPayload {
    fn clone(&self) -> (copy: Self)
        ensures
            copy@ == self@,
    {
        self.duplicate()
    }
}

impl Default for MqttPayload {
    fn default() -> (payload: Self)
        ensures
            payload@ == MqttPayloadView::Text(Seq::empty()),
    {
        MqttPayload::Text(String::new())
    }
}

pub fn next_payload_type(payload: &MqttPayload) -> (next: MqttPayload)
    ensures
        next@ == next_payload_type_of(payload@),
{
    match payload {
        MqttPayload::Text(text) => MqttPayload::Binary(
            boxed_bytes(slice_to_vec(text.as_str().as_bytes())),
        ),
        MqttPayload::Binary(binary) => MqttPayload::Text(string_from_utf8_lossy(&**binary)),
    }
}

/// Reading bytes as a payload keeps them: the payload's bytes are the bytes received.
pub proof fn lemma_payload_of_bytes_keeps_bytes(bytes: Seq<u8>)
    ensures
        payload_of_bytes(bytes).bytes() == bytes,
{
    if valid_utf8(bytes) {
        decode_utf8_encode_utf8(bytes);
    }
}

/// A text payload sent as bytes is read back as the same text.
pub proof fn lemma_text_round_trips(text: Seq<char>)
    ensures
        payload_of_bytes(MqttPayloadView::Text(text).bytes()) == MqttPayloadView::Text(text),
{
}

/// Switching a payload's type never changes the bytes of a text, and switching a text twice
/// gives the same text back.
pub proof fn lemma_switching_type_keeps_text(text: Seq<char>)
    ensures
        next_payload_type_of(MqttPayloadView::Text(text)).bytes() == encode_utf8(text),
        next_payload_type_of(next_payload_type_of(MqttPayloadView::Text(text)))
            == MqttPayloadView::Text(text),
{
}

} // verus!
