//! Entry points for feeding arbitrary input to the header code.

use crate::header::{
    is_method, is_name, is_value, lower_name, FieldName, FieldValue, Method, RawValue,
};
use crate::hpack::{Header, ToEncode};
use vstd::prelude::*;
use vstd::slice::slice_to_vec;
use vstd::string::*;
use vstd::utf8::*;

verus! {

/// `std::str::from_utf8`: the text that the bytes encode, if they are UTF-8.
#[verifier::external_body]
fn text_in(bytes: &[u8]) -> (r: Option<&str>)
    ensures
        r is Some <==> valid_utf8(bytes@),
        r matches Some(text) ==> text.spec_bytes() == bytes@,
{
    std::str::from_utf8(bytes).ok()
}

/// The headers to encode for this input: a method, if the input is the name of one.
pub fn fuzz_addr_1(data: &[u8]) -> (r: Vec<ToEncode>)
    ensures
        if valid_utf8(data@) && is_method(data@) {
            &&& r@.len() == 1
            &&& r@[0] matches Header::Method(m) && m@ == data@
        } else {
            r@.len() == 0
        },
{
    let mut headers: Vec<ToEncode> = Vec::new();
    if let Some(s) = text_in(data) {
        if let Some(h) = Method::from_bytes(s.as_bytes()) {
            headers.push(Header::Method(h));
        }
    }
    headers
}

/// The header of a method.
pub fn method(s: &str) -> (r: ToEncode)
    requires
        is_method(s.spec_bytes()),
    ensures
        r matches Header::Method(m) && m@ == s.spec_bytes(),
{
    Header::Method(Method::from_bytes(s.as_bytes()).unwrap())
}

/// The header of a field.
pub fn header(name: &str, val: &str) -> (r: ToEncode)
    requires
        is_name(name.spec_bytes()),
        is_value(val.spec_bytes()),
    ensures
        r matches Header::Field { name: Some(n), value } && n@ == lower_name(name.spec_bytes())
            && value@ == (val.spec_bytes(), false),
{
    let name = FieldName::from_bytes(name.as_bytes()).unwrap();
    let value = FieldValue::from_bytes(val.as_bytes()).unwrap();
    Header::Field {
        name: Some(slice_to_vec(name.as_bytes())),
        value: RawValue { bytes: slice_to_vec(value.as_bytes()), sensitive: value.is_sensitive() },
    }
}

} // verus!
