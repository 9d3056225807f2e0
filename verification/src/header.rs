//! Methods, status codes and header fields: what the crate uses of `http`.

use http::header::HeaderValue;
use http::HeaderMap;
use std::collections::VecDeque;
use vstd::prelude::*;

verus! {

#[verifier::external_type_specification]
#[verifier::external_body]
#[verifier::reject_recursive_types(T)]
pub struct ExHeaderMap<T>(http::HeaderMap<T>);

#[verifier::external_type_specification]
#[verifier::external_body]
pub struct ExHeaderValue(HeaderValue);

/// A field value: its bytes, and whether it is sensitive.
pub type ValueModel = (Seq<u8>, bool);

/// Header fields: for each name, in lower case, its values in order.
pub type Fields = Map<Seq<u8>, Seq<ValueModel>>;

/// The fields of a `HeaderMap`: for each name its values in the order in which they were appended,
/// each with its mark of being sensitive.
pub uninterp spec fn header_fields(fields: HeaderMap) -> Map<Seq<u8>, Seq<(Seq<u8>, bool)>>;

// ===== Method =====

/// True if the byte can stand in a method.
pub open spec fn is_method_byte(b: u8) -> bool {
    // Letters, and `^`, `_` and the grave accent, which stand in front of the small ones.
    ||| 0x41 <= b <= 0x5a
    ||| 0x5e <= b <= 0x7a
    // Digits.
    ||| 0x30 <= b <= 0x39
    // `!`, `*`, `+`, `-`, `.`, `|` and `~`.
    ||| b == 0x21 || b == 0x2a || b == 0x2b || b == 0x2d || b == 0x2e || b == 0x7c || b == 0x7e
}

/// True if the bytes are a method: there is at least one, and all of them can stand in a method.
pub open spec fn is_method(s: Seq<u8>) -> bool {
    s.len() > 0 && forall|i: int| 0 <= i < s.len() ==> is_method_byte(#[trigger] s[i])
}

/// A request method, case sensitive.
#[derive(Debug)]
pub struct Method {
    bytes: Vec<u8>,
}

impl View for Method {
    type V = Seq<u8>;

    closed spec fn view(&self) -> Seq<u8> {
        self.bytes@
    }
}

/// `http::Method::from_bytes`, and the method it makes as bytes: it takes any run of one or more
/// of the bytes that a method can hold, and keeps them as they are.
#[verifier::external_body]
fn parse_method(src: &[u8]) -> (r: Option<Vec<u8>>)
    ensures
        r is Some <==> is_method(src@),
        r matches Some(bytes) ==> bytes@ == src@,
{
    http::Method::from_bytes(src).ok().map(|m| m.as_str().as_bytes().to_vec())
}

impl Method {
    #[verifier::type_invariant]
    spec fn inv(self) -> bool {
        is_method(self.bytes@)
    }

    /// The method with this name, if the bytes are one.
    pub fn from_bytes(src: &[u8]) -> (r: Option<Method>)
        ensures
            r is Some <==> is_method(src@),
            r matches Some(method) ==> method@ == src@,
    {
        match parse_method(src) {
            Some(bytes) => Some(Method { bytes }),
            None => None,
        }
    }

    /// The method of a plain request: GET.
    pub fn get() -> (r: Method)
        ensures
            r@ == seq![0x47u8, 0x45, 0x54],
    {
        let bytes: Vec<u8> = vec![0x47, 0x45, 0x54];
        assert(bytes@ =~= seq![0x47u8, 0x45, 0x54]);
        Method { bytes }
    }

    /// The name of the method.
    pub fn as_bytes(&self) -> (r: &[u8])
        ensures
            r@ == self@,
            is_method(r@),
    {
        proof {
            use_type_invariant(self);
        }
        self.bytes.as_slice()
    }
}

// ===== StatusCode =====

/// The status of a response.
#[derive(Clone, Copy, Debug, PartialEq, Eq, Structural)]
pub struct StatusCode(u16);

impl StatusCode {
    /// The three digits, as a number.
    pub closed spec fn code(self) -> u16 {
        self.0
    }

    /// The status with this code. Codes run from 100 to 599.
    pub fn from_u16(src: u16) -> (r: Option<StatusCode>)
        ensures
            r is Some <==> 100 <= src < 600,
            r matches Some(status) ==> status.code() == src,
    {
        if src < 100 || src >= 600 {
            None
        } else {
            Some(StatusCode(src))
        }
    }

    /// The three digits, as a number.
    pub fn as_u16(&self) -> (r: u16)
        ensures
            r == self.code(),
    {
        self.0
    }

    /// The status of a successful response: 200.
    pub fn ok() -> (r: StatusCode)
        ensures
            r.code() == 200,
    {
        StatusCode(200)
    }
}

/// A status is its code.
pub broadcast proof fn status_is_its_code(a: StatusCode, b: StatusCode)
    ensures
        #![trigger a.code(), b.code()]
        a == b <==> a.code() == b.code(),
{
}

// ===== Field names =====

/// The byte as it stands in a field name, in lower case; zero if it cannot stand in one.
pub open spec fn name_byte(b: u8) -> u8 {
    if 0x41 <= b <= 0x5a {
        // A capital letter.
        (b + 0x20) as u8
    } else if is_method_byte(b) || 0x22 <= b <= 0x27 {
        // What can stand in a method, and the signs from the double to the single quote.
        b
    } else {
        0
    }
}

/// True if the bytes can be made a field name.
pub open spec fn is_name(s: Seq<u8>) -> bool {
    0 < s.len() < 0x1_0000 && forall|i: int| 0 <= i < s.len() ==> name_byte(#[trigger] s[i]) != 0
}

/// The field name that the bytes are made, in lower case.
pub open spec fn lower_name(s: Seq<u8>) -> Seq<u8> {
    s.map_values(|b: u8| name_byte(b))
}

/// The name of a header field, in lower case.
#[derive(Debug)]
pub struct FieldName {
    bytes: Vec<u8>,
}

impl View for FieldName {
    type V = Seq<u8>;

    closed spec fn view(&self) -> Seq<u8> {
        self.bytes@
    }
}

/// `http::HeaderName::from_bytes`, and the name it makes as bytes: it takes one or more bytes that
/// can stand in a name, and puts them in lower case. It panics on names of 64 KiB or more.
#[verifier::external_body]
fn parse_name(src: &[u8]) -> (r: Option<Vec<u8>>)
    requires
        src@.len() < 0x1_0000,
    ensures
        r is Some <==> is_name(src@),
        r matches Some(bytes) ==> bytes@ == lower_name(src@),
{
    http::header::HeaderName::from_bytes(src).ok().map(|n| n.as_str().as_bytes().to_vec())
}

impl FieldName {
    #[verifier::type_invariant]
    spec fn inv(self) -> bool {
        is_name(self.bytes@) && lower_name(self.bytes@) == self.bytes@
    }

    /// The name that the bytes are made, if they can be made one. Names have less than 64 KiB.
    pub fn from_bytes(src: &[u8]) -> (r: Option<FieldName>)
        requires
            src@.len() < 0x1_0000,
        ensures
            r is Some <==> is_name(src@),
            r matches Some(name) ==> name@ == lower_name(src@),
    {
        match parse_name(src) {
            Some(bytes) => {
                assert(lower_name(bytes@) =~= bytes@);
                Some(FieldName { bytes })
            },
            None => None,
        }
    }

    /// The name, in lower case.
    pub fn as_bytes(&self) -> (r: &[u8])
        ensures
            r@ == self@,
            is_name(r@),
            lower_name(r@) == r@,
    {
        proof {
            use_type_invariant(self);
        }
        self.bytes.as_slice()
    }
}

// ===== Field values =====

/// True if the bytes can be a field value: none of them is a control character other than a tab.
pub open spec fn is_value(s: Seq<u8>) -> bool {
    forall|i: int| 0 <= i < s.len() ==> (#[trigger] s[i] >= 0x20 && s[i] != 0x7f) || s[i] == 0x09
}

/// The value of a header field. A sensitive one must not be kept by header compression.
#[derive(Debug)]
pub struct FieldValue {
    bytes: Vec<u8>,
    sensitive: bool,
}

impl View for FieldValue {
    type V = ValueModel;

    closed spec fn view(&self) -> ValueModel {
        (self.bytes@, self.sensitive)
    }
}

/// `http::header::HeaderValue::from_bytes`, and the value it makes as bytes: it takes bytes without
/// control characters other than tabs, and keeps them as they are.
#[verifier::external_body]
fn parse_value(src: &[u8]) -> (r: Option<Vec<u8>>)
    ensures
        r is Some <==> is_value(src@),
        r matches Some(bytes) ==> bytes@ == src@,
{
    HeaderValue::from_bytes(src).ok().map(|v| v.as_bytes().to_vec())
}

impl FieldValue {
    #[verifier::type_invariant]
    spec fn inv(self) -> bool {
        is_value(self.bytes@)
    }

    /// The value with these bytes, if they can be one. It is not sensitive.
    pub fn from_bytes(src: &[u8]) -> (r: Option<FieldValue>)
        ensures
            r is Some <==> is_value(src@),
            r matches Some(value) ==> value@ == (src@, false),
    {
        match parse_value(src) {
            Some(bytes) => Some(FieldValue { bytes, sensitive: false }),
            None => None,
        }
    }

    /// The value, marked as sensitive or not.
    pub fn with_sensitive(self, sensitive: bool) -> (r: FieldValue)
        ensures
            r@ == (self@.0, sensitive),
    {
        proof {
            use_type_invariant(&self);
        }
        FieldValue { bytes: self.bytes, sensitive }
    }

    /// The bytes of the value.
    pub fn as_bytes(&self) -> (r: &[u8])
        ensures
            r@ == self@.0,
            is_value(r@),
    {
        proof {
            use_type_invariant(self);
        }
        self.bytes.as_slice()
    }

    /// True if the value is sensitive.
    pub fn is_sensitive(&self) -> (r: bool)
        ensures
            r == self@.1,
    {
        self.sensitive
    }
}

/// The value of a field that is handed out of a map, as it stands there.
#[derive(Debug)]
pub struct RawValue {
    pub bytes: Vec<u8>,
    pub sensitive: bool,
}

impl View for RawValue {
    type V = ValueModel;

    open spec fn view(&self) -> ValueModel {
        (self.bytes@, self.sensitive)
    }
}

// ===== Fields =====

/// A `HeaderMap` holds at most this many names.
pub const MAX_NAMES: usize = 32_768;

/// The fields with one more value for a name, behind the values that the name has.
pub open spec fn append_field(fields: Fields, name: Seq<u8>, value: ValueModel) -> Fields {
    fields.insert(
        name,
        if fields.contains_key(name) {
            fields[name].push(value)
        } else {
            seq![value]
        },
    )
}

/// `HeaderMap::new`: a map without fields.
#[verifier::external_body]
pub(crate) fn new_fields() -> (r: HeaderMap)
    ensures
        (header_fields(r) == Map::<Seq<u8>, Seq<(Seq<u8>, bool)>>::empty()),
{
    HeaderMap::new()
}

/// `HeaderMap::append`: the value goes behind those that the name has, marked as sensitive or not,
/// and the answer is whether it had any. The map panics where a name would be one too many.
#[verifier::external_body]
fn append_to_map(fields: &mut HeaderMap, name: &[u8], value: &[u8], sensitive: bool) -> (r: bool)
    requires
        is_name(name@),
        lower_name(name@) == name@,
        is_value(value@),
        header_fields(*old(fields)).contains_key(name@) || header_fields(*old(fields)).dom().len()
            < MAX_NAMES,
    ensures
        header_fields(*final(fields)) == append_field(
            header_fields(*old(fields)),
            name@,
            (value@, sensitive),
        ),
        r == header_fields(*old(fields)).contains_key(name@),
{
    let mut value = HeaderValue::from_bytes(value).unwrap();
    value.set_sensitive(sensitive);
    fields.append(http::header::HeaderName::from_bytes(name).unwrap(), value)
}

/// Adds one more value for a name, and says whether the name had any.
pub(crate) fn append(fields: &mut HeaderMap, name: &FieldName, value: &FieldValue) -> (r: bool)
    requires
        header_fields(*old(fields)).contains_key(name@) || header_fields(*old(fields)).dom().len()
            < MAX_NAMES,
    ensures
        header_fields(*final(fields)) == append_field(header_fields(*old(fields)), name@, value@),
        r == header_fields(*old(fields)).contains_key(name@),
{
    append_to_map(fields, name.as_bytes(), value.as_bytes(), value.is_sensitive())
}

/// A field as it is handed out of a map: without a name it has the name of the field before it.
pub type Item = (Option<Vec<u8>>, RawValue);

/// The name of the last of the items: its own, or that of the nearest item before it with one.
pub open spec fn last_name(items: Seq<Item>) -> Seq<u8>
    decreases items.len(),
{
    if items.len() == 0 {
        Seq::empty()
    } else {
        match items.last().0 {
            Some(name) => name@,
            None => last_name(items.drop_last()),
        }
    }
}

/// The fields that the items make up when they are appended one after the other.
pub open spec fn collect_items(items: Seq<Item>) -> Fields
    decreases items.len(),
{
    if items.len() == 0 {
        Map::empty()
    } else {
        append_field(collect_items(items.drop_last()), last_name(items), items.last().1@)
    }
}

/// True if the first item has a name, and no name is given twice.
pub open spec fn well_grouped(items: Seq<Item>) -> bool {
    &&& items.len() > 0 ==> items[0].0 is Some
    &&& forall|i: int, j: int|
        #![trigger items[i], items[j]]
        0 <= i < j < items.len() && items[i].0 is Some && items[j].0 is Some ==> items[i].0->0@
            != items[j].0->0@
}

/// `HeaderMap::into_iter`, with the names and values as bytes: all the fields, the values of one
/// name next to each other and in their order, and only the first of them with the name. The order
/// of the names is left open.
#[verifier::external_body]
pub(crate) fn into_items(fields: HeaderMap) -> (r: VecDeque<Item>)
    ensures
        well_grouped(r@),
        collect_items(r@) == header_fields(fields),
{
    fields
        .into_iter()
        .map(|(name, value)| (
            name.map(|n| n.as_str().as_bytes().to_vec()),
            RawValue { bytes: value.as_bytes().to_vec(), sensitive: value.is_sensitive() },
        ))
        .collect()
}

// ===== What holds of them =====

/// The bytes that are made a method are its name, and a status has the code that it is made of,
/// which has three digits and starts with one to five.
pub proof fn methods_and_statuses_are_kept(
    src: &[u8],
    method: Option<Method>,
    code: u16,
    status: Option<StatusCode>,
    number: u16,
)
    requires
        call_ensures(Method::from_bytes, (src,), method),
        call_ensures(StatusCode::from_u16, (code,), status),
        status is Some,
        call_ensures(StatusCode::as_u16, (&status->0,), number),
    ensures
        method matches Some(m) ==> m@ == src@ && src@.len() > 0,
        number == code,
        1 <= code / 100 <= 5,
{
}

/// A code that has not three digits or does not start with one to five is no status.
pub proof fn other_codes_are_no_status(code: u16, status: Option<StatusCode>)
    requires
        call_ensures(StatusCode::from_u16, (code,), status),
    ensures
        status is None <==> code / 100 == 0 || code / 100 > 5,
{
}

/// The bytes that are made a name are its name, but for capital letters, which are made small ones;
/// so a name that is made a name again stays as it is.
pub proof fn names_are_put_in_lower_case(src: &[u8], name: Option<FieldName>)
    requires
        call_ensures(FieldName::from_bytes, (src,), name),
        name is Some,
    ensures
        name->0@.len() == src@.len(),
        forall|i: int|
            0 <= i < src@.len() ==> if 65 <= src@[i] <= 90 {
                #[trigger] name->0@[i] == src@[i] + 32
            } else {
                name->0@[i] == src@[i]
            },
        is_name(name->0@) && lower_name(name->0@) == name->0@,
{
    let made = name->0@;
    assert forall|i: int| 0 <= i < src@.len() implies if 65 <= src@[i] <= 90 {
        #[trigger] made[i] == src@[i] + 32
    } else {
        made[i] == src@[i]
    } by {
        assert(name_byte(src@[i]) != 0);
    }
    assert(lower_name(made) =~= made);
}

/// The bytes that are made a value are its bytes, and it is sensitive only if it is said to be,
/// which changes nothing else of it.
pub proof fn values_are_kept(
    src: &[u8],
    value: Option<FieldValue>,
    marked: FieldValue,
    sensitive: bool,
    after: FieldValue,
    bytes: &[u8],
    is_sensitive: bool,
)
    requires
        call_ensures(FieldValue::from_bytes, (src,), value),
        call_ensures(FieldValue::with_sensitive, (marked, sensitive), after),
        call_ensures(FieldValue::as_bytes, (&after,), bytes),
        call_ensures(FieldValue::is_sensitive, (&after,), is_sensitive),
    ensures
        value matches Some(v) ==> v@.0 == src@ && !v@.1,
        bytes@ == marked@.0,
        is_sensitive == sensitive,
{
}

/// A value that is appended to a name goes behind the values that the name has; other names stay as
/// they are.
pub proof fn values_go_behind(fields: Fields, name: Seq<u8>, value: ValueModel, other: Seq<u8>)
    ensures
        ({
            let after = append_field(fields, name, value);
            &&& after.contains_key(name)
            &&& after[name].last() == value
            &&& fields.contains_key(name) ==> after[name].drop_last() == fields[name]
            &&& !fields.contains_key(name) ==> after[name].len() == 1
            &&& other != name ==> after.contains_key(other) == fields.contains_key(other)
            &&& other != name && fields.contains_key(other) ==> after[other] == fields[other]
        }),
{
    if fields.contains_key(name) {
        assert(fields[name].push(value).drop_last() =~= fields[name]);
    }
}

} // verus!
