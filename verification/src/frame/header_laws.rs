//! How HEADERS frames are read, and what is made of them.

use super::head::Head;
use super::headers::{
    fields_of, lists_headers, pseudo_of, HeaderBlock, Headers, HeadersFlag, Iter, Pseudo,
};
use super::laws::{number, reads_as};
use super::stream_id::StreamId;
use super::Error;
use crate::buf::buffer_contents;
use crate::header::{header_fields, Method, RawValue, StatusCode, ValueModel};
use crate::hpack::{Decoded, DecoderError, Encode, Header, ToEncode};
use crate::message::{BodyType, Request, Response, Version};
use crate::uri::{is_authority, is_scheme, path_of, InvalidUriParts, Uri};
use bytes::BytesMut;
use http::HeaderMap;
use vstd::prelude::*;

verus! {

/// The values that a header list gives for a name, in their order.
pub open spec fn values_for(list: Seq<Decoded>, name: Seq<u8>) -> Seq<ValueModel>
    decreases list.len(),
{
    if list.len() == 0 {
        Seq::empty()
    } else {
        let front = values_for(list.drop_last(), name);
        match list.last() {
            Header::Field { name: n, value } => if n@ == name {
                front.push(value@)
            } else {
                front
            },
            _ => front,
        }
    }
}

/// True if both are of one kind, and not fields.
pub open spec fn same_kind(a: Decoded, b: Decoded) -> bool {
    match a {
        Header::Field { .. } => false,
        Header::Authority(_) => b is Authority,
        Header::Method(_) => b is Method,
        Header::Scheme(_) => b is Scheme,
        Header::Path(_) => b is Path,
        Header::Status(_) => b is Status,
    }
}

/// True if the list gives a pseudo header more than once.
pub open spec fn gives_twice(list: Seq<Decoded>) -> bool {
    exists|i: int, j: int|
        0 <= i < j < list.len() && same_kind(#[trigger] list[i], #[trigger] list[j])
}

/// A frame that is loaded has the stream and the flags of its head, every pseudo header that the
/// list gives and no other, and for each name the values that the list gives, in their order. A
/// list that gives a pseudo header twice is rejected, and so is one that could not be decoded.
pub proof fn frames_are_loaded(
    head: Head,
    decoded: Result<Vec<Decoded>, DecoderError>,
    r: Result<Headers, Error>,
)
    requires
        call_ensures(Headers::load, (head, decoded), r),
    ensures
        match decoded {
            Err(err) => r == Err::<Headers, Error>(Error::Hpack(err)),
            Ok(list) => {
                &&& gives_twice(list@) ==> r == Err::<Headers, Error>(
                    Error::Hpack(DecoderError::RepeatedPseudo),
                )
                &&& !gives_twice(list@) ==> {
                    &&& r is Ok
                    &&& r->Ok_0@.stream_id == head.stream_id
                    &&& r->Ok_0@.stream_dep is None
                    &&& r->Ok_0@.flags.0 == head.flag
                    &&& gives_pseudo(list@, r->Ok_0)
                    &&& forall|name: Seq<u8>| #[trigger]
                        r->Ok_0@.fields.contains_key(name) <==> values_for(list@, name).len() > 0
                    &&& forall|name: Seq<u8>|
                        r->Ok_0@.fields.contains_key(name) ==> #[trigger] r->Ok_0@.fields[name]
                            == values_for(list@, name)
                }
            },
        },
{
    if let Ok(list) = decoded {
        let list = list@;
        if gives_twice(list) {
            let (i, j) = choose|i: int, j: int|
                0 <= i < j < list.len() && same_kind(#[trigger] list[i], #[trigger] list[j]);
            assert(super::headers::same_pseudo(list[i], list[j]));
        } else if super::headers::repeats_pseudo(list) {
            let (i, j) = choose|i: int, j: int|
                0 <= i < j < list.len() && super::headers::same_pseudo(
                    #[trigger] list[i],
                    #[trigger] list[j],
                );
            assert(same_kind(list[i], list[j]));
        } else {
            authority_is_given(list, -1);
            method_is_given(list, -1);
            scheme_is_given(list, -1);
            path_is_given(list, -1);
            status_is_given(list, -1);
            assert forall|i: int| 0 <= i < list.len() implies given(
                #[trigger] list[i],
                r->Ok_0,
            ) by {
                assert forall|j: int| 0 <= j < i implies !same_kind(
                    #[trigger] list[j],
                    list[i],
                ) by {
                    assert(!super::headers::same_pseudo(list[j], list[i]));
                }
                authority_is_given(list, i);
                method_is_given(list, i);
                scheme_is_given(list, i);
                path_is_given(list, i);
                status_is_given(list, i);
            }
            assert forall|name: Seq<u8>| #[trigger]
                r->Ok_0@.fields.contains_key(name) <==> values_for(list, name).len() > 0 by {
                fields_are_given(list, name);
            }
            assert forall|name: Seq<u8>|
                r->Ok_0@.fields.contains_key(name) implies #[trigger] r->Ok_0@.fields[name]
                == values_for(list, name) by {
                fields_are_given(list, name);
            }
        }
    }
}

/// True if the frame has the pseudo header, if it is one.
pub open spec fn given(header: Decoded, frame: Headers) -> bool {
    let pseudo = frame@.pseudo;
    match header {
        Header::Field { .. } => true,
        Header::Authority(v) => pseudo.authority == Some(v@),
        Header::Method(v) => pseudo.method == Some(v@),
        Header::Scheme(v) => pseudo.scheme == Some(v@),
        Header::Path(v) => pseudo.path == Some(v@),
        Header::Status(v) => pseudo.status == Some(v),
    }
}

/// True if the frame has all the pseudo headers of the list, and no other.
pub open spec fn gives_pseudo(list: Seq<Decoded>, frame: Headers) -> bool {
    let pseudo = frame@.pseudo;
    &&& forall|i: int| 0 <= i < list.len() ==> given(#[trigger] list[i], frame)
    &&& pseudo.authority is Some ==> exists|i: int|
        0 <= i < list.len() && #[trigger] list[i] is Authority
    &&& pseudo.method is Some ==> exists|i: int|
        0 <= i < list.len() && #[trigger] list[i] is Method
    &&& pseudo.scheme is Some ==> exists|i: int|
        0 <= i < list.len() && #[trigger] list[i] is Scheme
    &&& pseudo.path is Some ==> exists|i: int| 0 <= i < list.len() && #[trigger] list[i] is Path
    &&& pseudo.status is Some ==> exists|i: int|
        0 <= i < list.len() && #[trigger] list[i] is Status
}

/// The `authority` pseudo header is there if and only if the list gives it, and is the one that it
/// gives.
proof fn authority_is_given(list: Seq<Decoded>, i: int)
    ensures
        pseudo_of(list).authority is Some ==> exists|k: int|
            0 <= k < list.len() && #[trigger] list[k] is Authority,
        0 <= i < list.len() && list[i] is Authority ==> pseudo_of(list).authority is Some,
        0 <= i < list.len() && list[i] is Authority && (forall|k: int|
            0 <= k < i ==> !(#[trigger] list[k] is Authority)) ==> pseudo_of(list).authority
            == Some(list[i]->Authority_0@),
    decreases list.len(),
{
    if list.len() > 0 {
        let front = list.drop_last();
        authority_is_given(front, i);
        if pseudo_of(front).authority is Some {
            let k = choose|k: int| 0 <= k < front.len() && #[trigger] front[k] is Authority;
            assert(list[k] == front[k]);
        }
        if i < front.len() {
            assert(0 <= i ==> front[i] == list[i]);
            assert(forall|k: int| 0 <= k < i ==> front[k] == #[trigger] list[k]);
        }
        assert(list[list.len() - 1] == list.last());
    }
}

/// The `method` pseudo header is there if and only if the list gives it, and is the one that it
/// gives.
proof fn method_is_given(list: Seq<Decoded>, i: int)
    ensures
        pseudo_of(list).method is Some ==> exists|k: int|
            0 <= k < list.len() && #[trigger] list[k] is Method,
        0 <= i < list.len() && list[i] is Method ==> pseudo_of(list).method is Some,
        0 <= i < list.len() && list[i] is Method && (forall|k: int|
            0 <= k < i ==> !(#[trigger] list[k] is Method)) ==> pseudo_of(list).method == Some(
            list[i]->Method_0@,
        ),
    decreases list.len(),
{
    if list.len() > 0 {
        let front = list.drop_last();
        method_is_given(front, i);
        if pseudo_of(front).method is Some {
            let k = choose|k: int| 0 <= k < front.len() && #[trigger] front[k] is Method;
            assert(list[k] == front[k]);
        }
        if i < front.len() {
            assert(0 <= i ==> front[i] == list[i]);
            assert(forall|k: int| 0 <= k < i ==> front[k] == #[trigger] list[k]);
        }
        assert(list[list.len() - 1] == list.last());
    }
}

/// The `scheme` pseudo header is there if and only if the list gives it, and is the one that it
/// gives.
proof fn scheme_is_given(list: Seq<Decoded>, i: int)
    ensures
        pseudo_of(list).scheme is Some ==> exists|k: int|
            0 <= k < list.len() && #[trigger] list[k] is Scheme,
        0 <= i < list.len() && list[i] is Scheme ==> pseudo_of(list).scheme is Some,
        0 <= i < list.len() && list[i] is Scheme && (forall|k: int|
            0 <= k < i ==> !(#[trigger] list[k] is Scheme)) ==> pseudo_of(list).scheme == Some(
            list[i]->Scheme_0@,
        ),
    decreases list.len(),
{
    if list.len() > 0 {
        let front = list.drop_last();
        scheme_is_given(front, i);
        if pseudo_of(front).scheme is Some {
            let k = choose|k: int| 0 <= k < front.len() && #[trigger] front[k] is Scheme;
            assert(list[k] == front[k]);
        }
        if i < front.len() {
            assert(0 <= i ==> front[i] == list[i]);
            assert(forall|k: int| 0 <= k < i ==> front[k] == #[trigger] list[k]);
        }
        assert(list[list.len() - 1] == list.last());
    }
}

/// The `path` pseudo header is there if and only if the list gives it, and is the one that it
/// gives.
proof fn path_is_given(list: Seq<Decoded>, i: int)
    ensures
        pseudo_of(list).path is Some ==> exists|k: int|
            0 <= k < list.len() && #[trigger] list[k] is Path,
        0 <= i < list.len() && list[i] is Path ==> pseudo_of(list).path is Some,
        0 <= i < list.len() && list[i] is Path && (forall|k: int|
            0 <= k < i ==> !(#[trigger] list[k] is Path)) ==> pseudo_of(list).path == Some(
            list[i]->Path_0@,
        ),
    decreases list.len(),
{
    if list.len() > 0 {
        let front = list.drop_last();
        path_is_given(front, i);
        if pseudo_of(front).path is Some {
            let k = choose|k: int| 0 <= k < front.len() && #[trigger] front[k] is Path;
            assert(list[k] == front[k]);
        }
        if i < front.len() {
            assert(0 <= i ==> front[i] == list[i]);
            assert(forall|k: int| 0 <= k < i ==> front[k] == #[trigger] list[k]);
        }
        assert(list[list.len() - 1] == list.last());
    }
}

/// The `status` pseudo header is there if and only if the list gives it, and is the one that it
/// gives.
proof fn status_is_given(list: Seq<Decoded>, i: int)
    ensures
        pseudo_of(list).status is Some ==> exists|k: int|
            0 <= k < list.len() && #[trigger] list[k] is Status,
        0 <= i < list.len() && list[i] is Status ==> pseudo_of(list).status is Some,
        0 <= i < list.len() && list[i] is Status && (forall|k: int|
            0 <= k < i ==> !(#[trigger] list[k] is Status)) ==> pseudo_of(list).status == Some(
            list[i]->Status_0,
        ),
    decreases list.len(),
{
    if list.len() > 0 {
        let front = list.drop_last();
        status_is_given(front, i);
        if pseudo_of(front).status is Some {
            let k = choose|k: int| 0 <= k < front.len() && #[trigger] front[k] is Status;
            assert(list[k] == front[k]);
        }
        if i < front.len() {
            assert(0 <= i ==> front[i] == list[i]);
            assert(forall|k: int| 0 <= k < i ==> front[k] == #[trigger] list[k]);
        }
        assert(list[list.len() - 1] == list.last());
    }
}

/// The fields hold the values that the list gives.
proof fn fields_are_given(list: Seq<Decoded>, name: Seq<u8>)
    ensures
        fields_of(list).contains_key(name) <==> values_for(list, name).len() > 0,
        fields_of(list).contains_key(name) ==> fields_of(list)[name] == values_for(list, name),
    decreases list.len(),
{
    if list.len() > 0 {
        fields_are_given(list.drop_last(), name);
        if let Header::Field { name: n, value } = list.last() {
            if n@ == name && !fields_of(list.drop_last()).contains_key(name) {
                assert(values_for(list.drop_last(), name) =~= Seq::empty());
                assert(seq![value@] =~= Seq::<ValueModel>::empty().push(value@));
            }
        }
    }
}

/// A new frame has what it is made of, and says that its headers end, nothing else.
pub proof fn frames_are_made(
    stream_id: StreamId,
    pseudo: Pseudo,
    fields: HeaderMap,
    r: Headers,
    frame: &mut Headers,
)
    requires
        call_ensures(Headers::new, (stream_id, pseudo, fields), r),
        call_ensures(Headers::set_end_stream, (frame,), ()),
    ensures
        r@.stream_id == stream_id && r@.stream_dep is None,
        r@.pseudo == pseudo@ && r@.fields == header_fields(fields),
        r@.flags.0 == 4,
        final(frame)@.stream_id == old(frame)@.stream_id,
        final(frame)@.stream_dep == old(frame)@.stream_dep,
        final(frame)@.pseudo == old(frame)@.pseudo,
        final(frame)@.fields == old(frame)@.fields,
        final(frame)@.flags.0 == if old(frame)@.flags.0 % 2 == 0 {
            old(frame)@.flags.0 + 1
        } else {
            old(frame)@.flags.0 as int
        },
{
    let flag = old(frame)@.flags.0;
    assert(flag % 2 == 0 ==> flag | 1 == flag + 1) by (bit_vector);
    assert(flag % 2 == 1 ==> flag | 1 == flag) by (bit_vector);
}

/// What a frame says of itself: it is trailers if it has no pseudo header at all; bit 0 of its
/// flags ends the stream, and bit 2 the headers.
pub proof fn frames_say_what_they_are(
    frame: Headers,
    trailers: bool,
    ends_headers: bool,
    ends_stream: bool,
    id: StreamId,
)
    requires
        call_ensures(Headers::is_trailers, (&frame,), trailers),
        call_ensures(Headers::is_end_headers, (&frame,), ends_headers),
        call_ensures(Headers::is_end_stream, (&frame,), ends_stream),
        call_ensures(Headers::stream_id, (&frame,), id),
    ensures
        trailers <==> frame@.pseudo.method is None && frame@.pseudo.scheme is None
            && frame@.pseudo.authority is None && frame@.pseudo.path is None
            && frame@.pseudo.status is None,
        ends_stream <==> frame@.flags.0 % 2 == 1,
        ends_headers <==> (frame@.flags.0 / 4) % 2 == 1,
        id == frame@.stream_id,
{
    let flag = frame@.flags.0;
    assert(flag & 1 == 1 <==> flag % 2 == 1) by (bit_vector);
    assert(flag & 4 == 4 <==> (flag / 4) % 2 == 1) by (bit_vector);
}

/// The flags of a HEADERS frame are bits 0, 2, 3 and 5; of others nothing is kept.
pub proof fn flags_are_read(
    bits: u8,
    r: HeadersFlag,
    none: HeadersFlag,
    flag: HeadersFlag,
    end_stream: bool,
    end_headers: bool,
    padded: bool,
    priority: bool,
)
    requires
        call_ensures(HeadersFlag::load, (bits,), r),
        call_ensures(HeadersFlag::empty, (), none),
        call_ensures(HeadersFlag::is_end_stream, (&flag,), end_stream),
        call_ensures(HeadersFlag::is_end_headers, (&flag,), end_headers),
        call_ensures(HeadersFlag::is_padded, (&flag,), padded),
        call_ensures(HeadersFlag::is_priority, (&flag,), priority),
    ensures
        none.0 == 0,
        r.0 % 2 == bits % 2,
        (r.0 / 4) % 4 == (bits / 4) % 4,
        (r.0 / 32) % 2 == (bits / 32) % 2,
        (r.0 / 2) % 2 == 0 && (r.0 / 16) % 2 == 0 && r.0 / 64 == 0,
        end_stream <==> flag.0 % 2 == 1,
        end_headers <==> (flag.0 / 4) % 2 == 1,
        padded <==> (flag.0 / 8) % 2 == 1,
        priority <==> (flag.0 / 32) % 2 == 1,
{
    let f = flag.0;
    let k = r.0;
    assert(k == bits & 0x2d);
    assert(k % 2 == bits % 2 && (k / 4) % 4 == (bits / 4) % 4 && (k / 32) % 2 == (bits / 32) % 2
        && (k / 2) % 2 == 0 && (k / 16) % 2 == 0 && k / 64 == 0) by (bit_vector)
        requires
            k == bits & 0x2d,
    ;
    assert((f & 1 == 1 <==> f % 2 == 1) && (f & 4 == 4 <==> (f / 4) % 2 == 1) && (f & 8 == 8
        <==> (f / 8) % 2 == 1) && (f & 32 == 32 <==> (f / 32) % 2 == 1)) by (bit_vector);
}

/// The pseudo headers of a request are its method and the parts of its URI, as they are; the path
/// is `/` where the URI has none. Those of a response are its status. By default there are none.
pub proof fn pseudo_headers_are_made(
    method: Method,
    uri: Uri,
    request: Pseudo,
    status: StatusCode,
    response: Pseudo,
)
    requires
        call_ensures(Pseudo::request, (method, uri), request),
        call_ensures(Pseudo::response, (status,), response),
    ensures
        request@.method == Some(method@),
        request@.scheme == uri@.scheme,
        request@.authority == uri@.authority,
        uri@.path_and_query matches Some(path) ==> request@.path == Some(path),
        uri@.path_and_query is None ==> request@.path == Some("/"@),
        request@.status is None,
        response@.status == Some(status),
        response@.method is None && response@.scheme is None && response@.authority is None
            && response@.path is None,
{
}

/// A pseudo header that is set is what it was set to, and the others stay.
pub proof fn pseudo_headers_are_set(
    a: &mut Pseudo,
    scheme: String,
    b: &mut Pseudo,
    authority: String,
)
    requires
        call_ensures(Pseudo::set_scheme, (a, scheme), ()),
        call_ensures(Pseudo::set_authority, (b, authority), ()),
    ensures
        final(a)@.scheme == Some(scheme@),
        final(a)@.method == old(a)@.method && final(a)@.authority == old(a)@.authority
            && final(a)@.path == old(a)@.path && final(a)@.status == old(a)@.status,
        final(b)@.authority == Some(authority@),
        final(b)@.method == old(b)@.method && final(b)@.scheme == old(b)@.scheme && final(b)@.path
            == old(b)@.path && final(b)@.status == old(b)@.status,
{
}

/// A response has the status and the fields of its headers, 200 where they give no status; its body
/// is empty exactly where the headers end the stream.
pub proof fn responses_are_made(frame: Headers, r: Response<BodyType>)
    requires
        call_ensures(Headers::into_response, (frame,), r),
    ensures
        frame@.pseudo.status matches Some(status) ==> r.status == status,
        frame@.pseudo.status is None ==> r.status.code() == 200,
        r.version == Version::Http11,
        header_fields(r.headers) == frame@.fields,
        r.body is Empty <==> frame@.flags.0 % 2 == 1,
{
    let flag = frame@.flags.0;
    assert(flag & 1 == 1 <==> flag % 2 == 1) by (bit_vector);
}

/// A request has the method, the fields and the parts of the URI of its headers; where they give no
/// method it is GET. It cannot be made where a part is not valid in itself; and where a scheme
/// comes without an authority or a path, or an authority comes with a path but without a scheme,
/// the parts do not go together.
pub proof fn requests_are_made(frame: Headers, r: Option<Result<Request, InvalidUriParts>>)
    requires
        call_ensures(Headers::try_into_request, (frame,), r),
    ensures
        ({
            let pseudo = frame@.pseudo;
            let valid = (pseudo.scheme matches Some(s) ==> is_scheme(s)) && (
            pseudo.authority matches Some(a) ==> is_authority(a)) && (pseudo.path matches Some(p)
                ==> path_of(p) is Some);
            let together = if pseudo.scheme is Some {
                pseudo.authority is Some && pseudo.path is Some
            } else {
                !(pseudo.authority is Some && pseudo.path is Some)
            };
            &&& r is None <==> !valid
            &&& valid && !together ==> r->0 == Err::<Request, InvalidUriParts>(InvalidUriParts)
            &&& valid && together ==> {
                &&& r->0 is Ok
                &&& pseudo.method matches Some(method) ==> r->0->Ok_0.method@ == method
                &&& pseudo.method is None ==> r->0->Ok_0.method@ == seq![0x47u8, 0x45, 0x54]
                &&& r->0->Ok_0.version == Version::Http2
                &&& r->0->Ok_0.uri@.scheme == pseudo.scheme
                &&& r->0->Ok_0.uri@.authority == pseudo.authority
                &&& pseudo.path is None ==> r->0->Ok_0.uri@.path_and_query is None
                &&& pseudo.path matches Some(path) ==> r->0->Ok_0.uri@.path_and_query == path_of(
                    path,
                )
                &&& header_fields(r->0->Ok_0.headers) == frame@.fields
            }
        }),
{
}

/// The same of the request that is made where the parts of the URI are known to be valid.
pub proof fn valid_requests_are_made(frame: Headers, r: Result<Request, InvalidUriParts>)
    requires
        call_ensures(Headers::into_request, (frame,), r),
        frame@.pseudo.uri().valid_parts(),
    ensures
        ({
            let pseudo = frame@.pseudo;
            let together = if pseudo.scheme is Some {
                pseudo.authority is Some && pseudo.path is Some
            } else {
                !(pseudo.authority is Some && pseudo.path is Some)
            };
            &&& r is Ok <==> together
            &&& r matches Ok(request) ==> {
                &&& pseudo.method matches Some(method) ==> request.method@ == method
                &&& pseudo.method is None ==> request.method@ == seq![0x47u8, 0x45, 0x54]
                &&& request.version == Version::Http2
                &&& request.uri@.scheme == pseudo.scheme
                &&& request.uri@.authority == pseudo.authority
                &&& pseudo.path is None ==> request.uri@.path_and_query is None
                &&& pseudo.path matches Some(path) ==> request.uri@.path_and_query == path_of(path)
                &&& header_fields(request.headers) == frame@.fields
            }
        }),
{
}

/// The parts of a URI go together if there are all three, if there is only an authority or only a
/// path, or if there are none; and then the URI has them as they are.
pub proof fn uris_are_put_together(
    scheme: Option<String>,
    authority: Option<String>,
    path: Option<String>,
    r: Result<Uri, InvalidUriParts>,
)
    requires
        call_ensures(Uri::from_parts, (scheme, authority, path), r),
    ensures
        r is Ok <==> (scheme is Some && authority is Some && path is Some) || (scheme is None
            && authority is None) || (scheme is None && path is None),
        r matches Ok(uri) ==> uri.scheme == scheme && uri.authority == authority
            && uri.path_and_query == path,
{
}

/// What is taken out of a frame is what it has.
pub proof fn frames_are_taken_apart(
    frame: Headers,
    parts: (Pseudo, HeaderMap),
    fields: HeaderMap,
)
    requires
        call_ensures(Headers::into_parts, (frame,), parts),
        call_ensures(Headers::into_fields, (frame,), fields),
    ensures
        parts.0@ == frame@.pseudo,
        header_fields(parts.1) == frame@.fields,
        header_fields(fields) == frame@.fields,
{
}

/// The place of a header among those that are written: pseudo headers come before fields, and each
/// has its place among the pseudo headers.
pub open spec fn place(header: ToEncode) -> int {
    match header {
        Header::Method(_) => 0,
        Header::Scheme(_) => 1,
        Header::Authority(_) => 2,
        Header::Path(_) => 3,
        Header::Status(_) => 4,
        Header::Field { .. } => 5,
    }
}

/// The head of a frame that is written has its kind, its flags and its stream, and no length yet;
/// the headers are handed out with the pseudo headers first, each of them once and in their places.
pub proof fn headers_are_written_in_order(frame: Headers, dst: &mut BytesMut, r: HeaderBlock)
    requires
        call_ensures(Headers::encode, (frame, dst), r),
    ensures
        ({
            let before = buffer_contents(*old(dst));
            let after = buffer_contents(*final(dst));
            let list = r.headers.remaining();
            &&& after.len() == before.len() + 9
            &&& after.take(before.len() as int) == before
            &&& reads_as(
                after.skip(before.len() as int),
                1,
                frame@.flags.0,
                frame@.stream_id.0 as int,
                Seq::empty(),
            )
            &&& r.pos == before.len() && r.stream_id == frame@.stream_id
            &&& forall|i: int, j: int|
                #![trigger list[i], list[j]]
                0 <= i < j < list.len() ==> place(list[i]) < place(list[j]) || place(list[i]) == 5
                    && place(list[j]) == 5
        }),
{
    let before = buffer_contents(*old(dst));
    let after = buffer_contents(*final(dst));
    let n = before.len() as int;
    let head = frame@.head().wire(0);
    assert(after.take(n) =~= before);
    assert(after.skip(n) =~= head);
    super::laws::frames_read(frame@.head(), Seq::empty());
    assert(head + Seq::<u8>::empty() =~= head);
    let list = r.headers.remaining();
    let pseudo = choose|pseudo: Pseudo|
        pseudo@ == frame@.pseudo && #[trigger] lists_headers(list, pseudo, frame@.fields);
    let front = pseudo.list();
    assert forall|i: int| front.len() <= i < list.len() implies place(#[trigger] list[i]) == 5 by {
        let items = choose|items: Seq<crate::header::Item>| #[trigger]
            crate::header::well_grouped(items) && crate::header::collect_items(items)
                == frame@.fields && list == pseudo.list() + items.map_values(
                |item: crate::header::Item| super::headers::field_header(item),
            );
        assert(list[i] == super::headers::field_header(items[i - front.len()]));
    }
    assert forall|i: int| 0 <= i < front.len() implies #[trigger] list[i] == front[i] by {
        let items = choose|items: Seq<crate::header::Item>| #[trigger]
            crate::header::well_grouped(items) && crate::header::collect_items(items)
                == frame@.fields && list == pseudo.list() + items.map_values(
                |item: crate::header::Item| super::headers::field_header(item),
            );
    }
    pseudo_in_their_places(pseudo);
}

/// True if the headers stand in their places, all of them before this one.
pub open spec fn placed(list: Seq<ToEncode>, before: int) -> bool {
    &&& forall|i: int, j: int|
        #![trigger list[i], list[j]]
        0 <= i < j < list.len() ==> place(list[i]) < place(list[j])
    &&& forall|i: int| 0 <= i < list.len() ==> place(#[trigger] list[i]) < before
}

/// One more header stands in its place behind those before it.
proof fn placed_behind(list: Seq<ToEncode>, header: Option<ToEncode>, at: int)
    requires
        placed(list, at),
        header matches Some(h) ==> place(h) == at,
    ensures
        placed(list + super::headers::opt_header(header), at + 1),
{
}

/// The pseudo headers stand in their places.
proof fn pseudo_in_their_places(pseudo: Pseudo)
    ensures
        placed(pseudo.list(), 5),
{
    let method: Option<ToEncode> = match pseudo.method {
        Some(v) => Some(Header::Method(v)),
        None => None,
    };
    let scheme: Option<ToEncode> = match pseudo.scheme {
        Some(v) => Some(Header::Scheme(v)),
        None => None,
    };
    let authority: Option<ToEncode> = match pseudo.authority {
        Some(v) => Some(Header::Authority(v)),
        None => None,
    };
    let path: Option<ToEncode> = match pseudo.path {
        Some(v) => Some(Header::Path(v)),
        None => None,
    };
    let status: Option<ToEncode> = match pseudo.status {
        Some(v) => Some(Header::Status(v)),
        None => None,
    };
    let one = super::headers::opt_header(method);
    let two = one + super::headers::opt_header(scheme);
    let three = two + super::headers::opt_header(authority);
    let four = three + super::headers::opt_header(path);
    assert(placed(one, 1));
    placed_behind(one, scheme, 1);
    placed_behind(two, authority, 2);
    placed_behind(three, path, 3);
    placed_behind(four, status, 4);
    assert(pseudo.list() == four + super::headers::opt_header(status));
}

/// True if the list gives every pseudo header of the frame.
pub open spec fn gives_all(list: Seq<ToEncode>, frame: Headers) -> bool {
    let pseudo = frame@.pseudo;
    &&& pseudo.method is Some ==> exists|k: int|
        0 <= k < list.len() && (#[trigger] list[k] matches Header::Method(v) && v@
            == pseudo.method->0)
    &&& pseudo.scheme is Some ==> exists|k: int|
        0 <= k < list.len() && (#[trigger] list[k] matches Header::Scheme(v) && v@
            == pseudo.scheme->0)
    &&& pseudo.authority is Some ==> exists|k: int|
        0 <= k < list.len() && (#[trigger] list[k] matches Header::Authority(v) && v@
            == pseudo.authority->0)
    &&& pseudo.path is Some ==> exists|k: int|
        0 <= k < list.len() && (#[trigger] list[k] matches Header::Path(v) && v@
            == pseudo.path->0)
    &&& pseudo.status is Some ==> exists|k: int|
        0 <= k < list.len() && (#[trigger] list[k] matches Header::Status(v) && v
            == pseudo.status->0)
}

/// The pseudo headers are all in their list.
proof fn pseudo_is_listed(pseudo: Pseudo)
    ensures
        ({
            let list = pseudo.list();
            &&& pseudo.method matches Some(v) ==> list.contains(Header::Method(v))
            &&& pseudo.scheme matches Some(v) ==> list.contains(Header::Scheme(v))
            &&& pseudo.authority matches Some(v) ==> list.contains(Header::Authority(v))
            &&& pseudo.path matches Some(v) ==> list.contains(Header::Path(v))
            &&& pseudo.status matches Some(v) ==> list.contains(Header::Status(v))
        }),
{
    let one = super::headers::opt_header(
        match pseudo.method {
            Some(v) => Some(Header::Method(v)),
            None => None,
        },
    );
    let two = one + super::headers::opt_header(
        match pseudo.scheme {
            Some(v) => Some(Header::Scheme(v)),
            None => None,
        },
    );
    let three = two + super::headers::opt_header(
        match pseudo.authority {
            Some(v) => Some(Header::Authority(v)),
            None => None,
        },
    );
    let four = three + super::headers::opt_header(
        match pseudo.path {
            Some(v) => Some(Header::Path(v)),
            None => None,
        },
    );
    let list = pseudo.list();
    if let Some(v) = pseudo.method {
        assert(list[0] == Header::<Option<Vec<u8>>, RawValue>::Method(v));
    }
    if let Some(v) = pseudo.scheme {
        assert(list[one.len() as int] == Header::<Option<Vec<u8>>, RawValue>::Scheme(v));
    }
    if let Some(v) = pseudo.authority {
        assert(list[two.len() as int] == Header::<Option<Vec<u8>>, RawValue>::Authority(v));
    }
    if let Some(v) = pseudo.path {
        assert(list[three.len() as int] == Header::<Option<Vec<u8>>, RawValue>::Path(v));
    }
    if let Some(v) = pseudo.status {
        assert(list[four.len() as int] == Header::<Option<Vec<u8>>, RawValue>::Status(v));
    }
}

/// All the headers of a frame are handed out: every pseudo header that it has, and all its fields.
pub proof fn all_headers_are_handed_out(frame: Headers, dst: &mut BytesMut, r: HeaderBlock)
    requires
        call_ensures(Headers::encode, (frame, dst), r),
    ensures
        gives_all(r.headers.remaining(), frame),
        exists|pseudo: Pseudo|
            pseudo@ == frame@.pseudo && #[trigger] lists_headers(
                r.headers.remaining(),
                pseudo,
                frame@.fields,
            ),
{
    let list = r.headers.remaining();
    let pseudo = choose|pseudo: Pseudo|
        pseudo@ == frame@.pseudo && #[trigger] lists_headers(list, pseudo, frame@.fields);
    listed_headers_are_given(list, pseudo, frame);
}

/// A list of the headers of a frame gives its pseudo headers.
pub proof fn listed_headers_are_given(list: Seq<ToEncode>, pseudo: Pseudo, frame: Headers)
    requires
        pseudo@ == frame@.pseudo,
        lists_headers(list, pseudo, frame@.fields),
    ensures
        gives_all(list, frame),
{
    let front = pseudo.list();
    let items = choose|items: Seq<crate::header::Item>| #[trigger]
        crate::header::well_grouped(items) && crate::header::collect_items(items) == frame@.fields
            && list == pseudo.list() + items.map_values(
            |item: crate::header::Item| super::headers::field_header(item),
        );
    assert forall|i: int| 0 <= i < front.len() implies #[trigger] list[i] == front[i] by {}
    pseudo_is_listed(pseudo);
    if let Some(v) = pseudo.method {
        let k = choose|k: int| 0 <= k < front.len() && front[k] == Header::<
            Option<Vec<u8>>,
            RawValue,
        >::Method(v);
        assert(list[k] == front[k]);
    }
    if let Some(v) = pseudo.scheme {
        let k = choose|k: int| 0 <= k < front.len() && front[k] == Header::<
            Option<Vec<u8>>,
            RawValue,
        >::Scheme(v);
        assert(list[k] == front[k]);
    }
    if let Some(v) = pseudo.authority {
        let k = choose|k: int| 0 <= k < front.len() && front[k] == Header::<
            Option<Vec<u8>>,
            RawValue,
        >::Authority(v);
        assert(list[k] == front[k]);
    }
    if let Some(v) = pseudo.path {
        let k = choose|k: int| 0 <= k < front.len() && front[k] == Header::<
            Option<Vec<u8>>,
            RawValue,
        >::Path(v);
        assert(list[k] == front[k]);
    }
    if let Some(v) = pseudo.status {
        let k = choose|k: int| 0 <= k < front.len() && front[k] == Header::<
            Option<Vec<u8>>,
            RawValue,
        >::Status(v);
        assert(list[k] == front[k]);
    }
}

/// Headers are handed out one by one from the front, until there are none.
pub proof fn headers_are_handed_out(headers: &mut Iter, r: Option<ToEncode>)
    requires
        call_ensures(Iter::next, (headers,), r),
    ensures
        r is Some <==> old(headers).remaining().len() > 0,
        r matches Some(header) ==> seq![header] + final(headers).remaining()
            == old(headers).remaining(),
        r is None ==> final(headers).remaining().len() == 0,
{
    let list = old(headers).remaining();
    if list.len() > 0 {
        assert(seq![list[0]] + list.skip(1) =~= list);
    }
}

/// The length of a frame is written into its head when its header block stands behind it, and
/// nothing else of it changes. The rest of the headers, if there is one, is continued.
pub proof fn blocks_are_finished(
    block: HeaderBlock,
    encoded: Encode,
    dst: &mut BytesMut,
    r: Option<super::headers::Continuation>,
)
    requires
        call_ensures(HeaderBlock::finish, (block, encoded, dst), r),
        block.pos + 9 <= buffer_contents(*old(dst)).len() < block.pos + 9 + 0x100_0000,
    ensures
        ({
            let before = buffer_contents(*old(dst));
            let after = buffer_contents(*final(dst));
            let pos = block.pos as int;
            &&& after.len() == before.len()
            &&& number(after.subrange(pos, pos + 3)) == before.len() - pos - 9
            &&& forall|k: int|
                0 <= k < before.len() && (k < pos || k >= pos + 3) ==> #[trigger] after[k]
                    == before[k]
            &&& r is Some <==> encoded is Partial
            &&& r matches Some(rest) ==> rest.stream_id == block.stream_id && rest.headers
                == block.headers && encoded == Encode::Partial(rest.hpack)
        }),
{
    let before = buffer_contents(*old(dst));
    let after = buffer_contents(*final(dst));
    let pos = block.pos as int;
    super::laws::three_bytes_read(before.len() - pos - 9);
    assert(after.subrange(pos, pos + 3) =~= crate::buf::be24(before.len() - pos - 9));
}

} // verus!
