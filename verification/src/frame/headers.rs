use super::head::{heads_are_read_back, Head, Kind};
use super::stream_id::StreamId;
use super::{Error, Frame};
use crate::buf::{self, be24, buffer_contents, made_capacity};
use crate::header::{
    append, append_field, collect_items, header_fields, into_items, last_name, new_fields,
    well_grouped, Fields, Item, Method, StatusCode, MAX_NAMES,
};
use crate::hpack::{Decoded, DecoderError, Encode, EncodeState, Header, ToEncode};
use crate::message::{BodyType, Request, Response, Version};
use crate::uri::{text_of, InvalidUriParts, Uri, UriModel};
use bytes::BytesMut;
use http::HeaderMap;
use std::collections::VecDeque;
use vstd::prelude::*;

verus! {

/// Header frame
///
/// This could be either a request or a response.
#[derive(Debug)]
pub struct Headers {
    /// The ID of the stream with which this frame is associated.
    stream_id: StreamId,
    /// The stream dependency information, if any.
    stream_dep: Option<StreamDependency>,
    /// The decoded header fields
    fields: HeaderMap,
    /// Pseudo headers, these are broken out as they must be sent as part of the
    /// headers frame.
    pseudo: Pseudo,
    /// The associated flags
    flags: HeadersFlag,
}

/// The flags of a HEADERS frame.
#[derive(Clone, Copy, Debug, PartialEq, Eq, Structural)]
pub struct HeadersFlag(pub u8);

/// The announcement of a stream that the server is going to open.
#[derive(Clone, Copy, Debug, PartialEq, Eq, Structural)]
pub struct PushPromise {
    /// The ID of the stream with which this frame is associated.
    pub stream_id: StreamId,
    /// The ID of the stream being reserved by this PushPromise.
    pub promised_id: StreamId,
    /// The associated flags
    pub flags: HeadersFlag,
}

/// The rest of a header list that did not fit into a HEADERS frame.
#[derive(Debug)]
pub struct Continuation {
    /// Stream ID of continuation frame
    pub stream_id: StreamId,
    /// Argument to pass to the HPACK encoder to resume encoding
    pub hpack: EncodeState,
    /// remaining headers to encode
    pub headers: Iter,
}

/// On which stream a stream depends.
#[derive(Clone, Copy, Debug, PartialEq, Eq, Structural)]
pub struct StreamDependency {
    /// The ID of the stream dependency target
    pub stream_id: StreamId,
    /// The weight for the stream. The value exposed (and set) here is always in
    /// the range [0, 255], instead of [1, 256], so that the value fits into a `u8`.
    pub weight: u8,
    /// True if the stream dependency is exclusive.
    pub is_exclusive: bool,
}

/// The pseudo headers of a request or a response.
#[derive(Debug)]
pub struct Pseudo {
    // Request
    pub method: Option<Method>,
    pub scheme: Option<String>,
    pub authority: Option<String>,
    pub path: Option<String>,
    // Response
    pub status: Option<StatusCode>,
}

/// The headers of a frame in the order in which they are encoded.
#[derive(Debug)]
pub struct Iter {
    /// Pseudo headers
    pseudo: Option<Pseudo>,
    /// Header fields
    fields: VecDeque<Item>,
}

pub const END_STREAM: u8 = 0x1;

pub const END_HEADERS: u8 = 0x4;

pub const PADDED: u8 = 0x8;

pub const PRIORITY: u8 = 0x20;

pub const ALL: u8 = 0x2d;

/// The pseudo headers of a frame, as values.
#[verifier::ext_equal]
pub struct PseudoModel {
    pub method: Option<Seq<u8>>,
    pub scheme: Option<Seq<char>>,
    pub authority: Option<Seq<char>>,
    pub path: Option<Seq<char>>,
    pub status: Option<StatusCode>,
}

/// A HEADERS frame, as values.
#[verifier::ext_equal]
pub struct HeadersModel {
    pub stream_id: StreamId,
    pub stream_dep: Option<StreamDependency>,
    pub fields: Fields,
    pub pseudo: PseudoModel,
    pub flags: HeadersFlag,
}

/// The bytes of the method that is there, if any.
pub open spec fn method_of(m: Option<Method>) -> Option<Seq<u8>> {
    match m {
        Some(method) => Some(method@),
        None => None,
    }
}

impl View for Pseudo {
    type V = PseudoModel;

    open spec fn view(&self) -> PseudoModel {
        PseudoModel {
            method: method_of(self.method),
            scheme: text_of(self.scheme),
            authority: text_of(self.authority),
            path: text_of(self.path),
            status: self.status,
        }
    }
}

impl View for Headers {
    type V = HeadersModel;

    closed spec fn view(&self) -> HeadersModel {
        HeadersModel {
            stream_id: self.stream_id,
            stream_dep: self.stream_dep,
            fields: header_fields(self.fields),
            pseudo: self.pseudo@,
            flags: self.flags,
        }
    }
}

impl PseudoModel {
    /// No pseudo headers.
    pub open spec fn none() -> PseudoModel {
        PseudoModel { method: None, scheme: None, authority: None, path: None, status: None }
    }

    /// The parts of the URI that the pseudo headers give.
    pub open spec fn uri(self) -> UriModel {
        UriModel { scheme: self.scheme, authority: self.authority, path_and_query: self.path }
    }

    /// The pseudo headers of a request: the path is `/` where the URI has none.
    pub open spec fn request(method: Seq<u8>, uri: UriModel) -> PseudoModel {
        PseudoModel {
            method: Some(method),
            scheme: uri.scheme,
            authority: uri.authority,
            path: match uri.path_and_query {
                Some(path) => Some(path),
                None => Some("/"@),
            },
            status: None,
        }
    }

    /// The pseudo headers with one more: a field changes none of them, and of two that are the
    /// same the first stays.
    pub open spec fn with(self, h: Decoded) -> PseudoModel {
        match h {
            Header::Field { .. } => self,
            Header::Authority(v) => if self.authority is Some {
                self
            } else {
                PseudoModel { authority: Some(v@), ..self }
            },
            Header::Method(v) => if self.method is Some {
                self
            } else {
                PseudoModel { method: Some(v@), ..self }
            },
            Header::Scheme(v) => if self.scheme is Some {
                self
            } else {
                PseudoModel { scheme: Some(v@), ..self }
            },
            Header::Path(v) => if self.path is Some {
                self
            } else {
                PseudoModel { path: Some(v@), ..self }
            },
            Header::Status(v) => if self.status is Some {
                self
            } else {
                PseudoModel { status: Some(v), ..self }
            },
        }
    }
}

impl HeadersModel {
    /// Trailers are header frames that contain no pseudo headers.
    pub open spec fn is_trailers(self) -> bool {
        self.pseudo == PseudoModel::none()
    }

    pub open spec fn head(self) -> Head {
        Head { kind: Kind::Headers, flag: self.flags.0, stream_id: self.stream_id }
    }
}

/// The pseudo headers of a header list.
pub open spec fn pseudo_of(list: Seq<Decoded>) -> PseudoModel
    decreases list.len(),
{
    if list.len() == 0 {
        PseudoModel::none()
    } else {
        pseudo_of(list.drop_last()).with(list.last())
    }
}

/// The fields of a header list.
pub open spec fn fields_of(list: Seq<Decoded>) -> Fields
    decreases list.len(),
{
    if list.len() == 0 {
        Map::empty()
    } else {
        match list.last() {
            Header::Field { name, value } => append_field(
                fields_of(list.drop_last()),
                name@,
                value@,
            ),
            _ => fields_of(list.drop_last()),
        }
    }
}

/// True if both headers are the same pseudo header.
pub open spec fn same_pseudo(a: Decoded, b: Decoded) -> bool {
    ||| a is Authority && b is Authority
    ||| a is Method && b is Method
    ||| a is Scheme && b is Scheme
    ||| a is Path && b is Path
    ||| a is Status && b is Status
}

/// True if a pseudo header occurs more than once in the list.
pub open spec fn repeats_pseudo(list: Seq<Decoded>) -> bool {
    exists|i: int, j: int|
        0 <= i < j < list.len() && same_pseudo(#[trigger] list[i], #[trigger] list[j])
}

/// The list of the header, if there is one.
pub open spec fn opt_header(h: Option<ToEncode>) -> Seq<ToEncode> {
    match h {
        Some(header) => seq![header],
        None => Seq::empty(),
    }
}

impl Pseudo {
    /// The pseudo headers in the order in which they are encoded.
    pub open spec fn list(self) -> Seq<ToEncode> {
        opt_header(
            match self.method {
                Some(v) => Some(Header::Method(v)),
                None => None,
            },
        ) + opt_header(
            match self.scheme {
                Some(v) => Some(Header::Scheme(v)),
                None => None,
            },
        ) + opt_header(
            match self.authority {
                Some(v) => Some(Header::Authority(v)),
                None => None,
            },
        ) + opt_header(
            match self.path {
                Some(v) => Some(Header::Path(v)),
                None => None,
            },
        ) + opt_header(
            match self.status {
                Some(v) => Some(Header::Status(v)),
                None => None,
            },
        )
    }
}

/// The header that a field is encoded as.
pub open spec fn field_header(item: Item) -> ToEncode {
    Header::Field { name: item.0, value: item.1 }
}

/// True if the list holds the pseudo headers in their order, then all the fields, the values of one
/// name next to each other and in their order, and only the first of them with the name.
pub open spec fn lists_headers(
    list: Seq<ToEncode>,
    pseudo: Pseudo,
    fields: Fields,
) -> bool {
    exists|items: Seq<Item>| #[trigger]
        well_grouped(items) && collect_items(items) == fields && list == pseudo.list()
            + items.map_values(|item: Item| field_header(item))
}

// ===== impl HeadersFlag =====

impl HeadersFlag {
    /// True if the flag is set.
    pub open spec fn has(self, flag: u8) -> bool {
        self.0 & flag == flag
    }

    /// No flag set.
    pub fn empty() -> (r: HeadersFlag)
        ensures
            r == HeadersFlag(0),
            !r.has(END_STREAM) && !r.has(END_HEADERS) && !r.has(PADDED) && !r.has(PRIORITY),
    {
        assert(0u8 & 0x1 != 0x1 && 0u8 & 0x4 != 0x4 && 0u8 & 0x8 != 0x8 && 0u8 & 0x20 != 0x20)
            by (bit_vector);
        HeadersFlag(0)
    }

    /// The flags that a HEADERS frame defines, out of the given bits.
    pub fn load(bits: u8) -> (r: HeadersFlag)
        ensures
            r.0 == bits & ALL,
            forall|flag: u8|
                flag == END_STREAM || flag == END_HEADERS || flag == PADDED || flag == PRIORITY
                    ==> #[trigger] r.has(flag) == (bits & flag == flag),
    {
        let r = HeadersFlag(bits & ALL);
        assert forall|flag: u8|
            flag == END_STREAM || flag == END_HEADERS || flag == PADDED || flag
                == PRIORITY implies #[trigger] r.has(flag) == (bits & flag == flag) by {
            assert((bits & 0x2d) & flag == flag <==> bits & flag == flag) by (bit_vector)
                requires
                    flag == 0x1 || flag == 0x4 || flag == 0x8 || flag == 0x20,
            ;
        }
        r
    }

    pub fn is_end_stream(&self) -> (r: bool)
        ensures
            r == self.has(END_STREAM),
    {
        self.0 & END_STREAM == END_STREAM
    }

    pub fn set_end_stream(&mut self)
        ensures
            final(self).0 == old(self).0 | END_STREAM,
            final(self).has(END_STREAM),
            forall|flag: u8|
                flag == END_HEADERS || flag == PADDED || flag == PRIORITY
                    ==> #[trigger] final(self).has(flag) == old(self).has(flag),
    {
        let ghost bits = self.0;
        self.0 = self.0 | END_STREAM;
        proof {
            assert((bits | 0x1) & 0x1 == 0x1) by (bit_vector);
            assert forall|flag: u8|
                flag == END_HEADERS || flag == PADDED || flag == PRIORITY implies (
            #[trigger] self.has(flag)) == (bits & flag == flag) by {
                assert((bits | 0x1) & flag == flag <==> bits & flag == flag) by (bit_vector)
                    requires
                        flag == 0x4 || flag == 0x8 || flag == 0x20,
                ;
            }
        }
    }

    pub fn is_end_headers(&self) -> (r: bool)
        ensures
            r == self.has(END_HEADERS),
    {
        self.0 & END_HEADERS == END_HEADERS
    }

    pub fn is_padded(&self) -> (r: bool)
        ensures
            r == self.has(PADDED),
    {
        self.0 & PADDED == PADDED
    }

    pub fn is_priority(&self) -> (r: bool)
        ensures
            r == self.has(PRIORITY),
    {
        self.0 & PRIORITY == PRIORITY
    }
}

impl Default for HeadersFlag {
    /// Returns a `HeadersFlag` value with `END_HEADERS` set.
    fn default() -> (r: Self)
        ensures
            r == HeadersFlag(END_HEADERS),
    {
        HeadersFlag(END_HEADERS)
    }
}

impl From<HeadersFlag> for u8 {
    fn from(src: HeadersFlag) -> (r: u8) {
        src.0
    }
}

impl vstd::std_specs::convert::FromSpecImpl<HeadersFlag> for u8 {
    open spec fn obeys_from_spec() -> bool {
        true
    }

    open spec fn from_spec(src: HeadersFlag) -> u8 {
        src.0
    }
}

// ===== impl Pseudo =====

impl Default for Pseudo {
    /// No pseudo headers.
    fn default() -> (r: Self)
        ensures
            r@ == PseudoModel::none(),
    {
        Pseudo { method: None, scheme: None, authority: None, path: None, status: None }
    }
}

impl Pseudo {
    /// The pseudo headers of a request: the method, the path, which is `/` where the URI has none,
    /// and the scheme and the authority where the URI has them.
    pub fn request(method: Method, uri: Uri) -> (r: Pseudo)
        ensures
            r@ == PseudoModel::request(method@, uri@),
    {
        let path = match uri.path_and_query {
            Some(path) => path,
            None => "/".to_owned(),
        };

        let mut pseudo = Pseudo {
            method: Some(method),
            scheme: None,
            authority: None,
            path: Some(path),
            status: None,
        };

        // If the URI includes a scheme component, add it to the pseudo headers
        if let Some(scheme) = uri.scheme {
            pseudo.set_scheme(scheme);
        }
        // If the URI includes an authority component, add it to the pseudo
        // headers
        if let Some(authority) = uri.authority {
            pseudo.set_authority(authority);
        }
        pseudo
    }

    /// The pseudo headers of a response: the status.
    pub fn response(status: StatusCode) -> (r: Pseudo)
        ensures
            r@ == (PseudoModel { status: Some(status), ..PseudoModel::none() }),
    {
        Pseudo { method: None, scheme: None, authority: None, path: None, status: Some(status) }
    }

    pub fn set_scheme(&mut self, scheme: String)
        ensures
            *final(self) == (Pseudo { scheme: Some(scheme), ..*old(self) }),
    {
        self.scheme = Some(scheme);
    }

    pub fn set_authority(&mut self, authority: String)
        ensures
            *final(self) == (Pseudo { authority: Some(authority), ..*old(self) }),
    {
        self.authority = Some(authority);
    }
}

// ===== impl Iter =====

impl Iter {
    /// The headers that have not been handed out.
    pub closed spec fn remaining(self) -> Seq<ToEncode> {
        (match self.pseudo {
            Some(pseudo) => pseudo.list(),
            None => Seq::empty(),
        }) + self.fields@.map_values(|item: Item| field_header(item))
    }

    /// All the headers: the pseudo headers, then the fields.
    fn new(pseudo: Pseudo, fields: HeaderMap) -> (r: Iter)
        ensures
            lists_headers(r.remaining(), pseudo, header_fields(fields)),
    {
        let items = into_items(fields);
        let r = Iter { pseudo: Some(pseudo), fields: items };
        assert(r.remaining() =~= pseudo.list() + items@.map_values(
            |item: Item| field_header(item),
        ));
        r
    }

    /// Hands out the next header, if there is one left.
    pub fn next(&mut self) -> (r: Option<ToEncode>)
        ensures
            match r {
                Some(header) => {
                    &&& old(self).remaining().len() > 0
                    &&& header == old(self).remaining()[0]
                    &&& final(self).remaining() == old(self).remaining().skip(1)
                },
                None => old(self).remaining().len() == 0 && final(self).remaining().len() == 0,
            },
    {
        let ghost rest = self.fields@.map_values(|item: Item| field_header(item));
        let ghost all = self.remaining();
        if let Some(pseudo) = &mut self.pseudo {
            if let Some(method) = pseudo.method.take() {
                assert(seq![Header::Method(method)] + (pseudo.list() + rest) =~= all);
                assert(pseudo.list() + rest =~= all.skip(1));
                return Some(Header::Method(method));
            }
            if let Some(scheme) = pseudo.scheme.take() {
                assert(seq![Header::Scheme(scheme)] + (pseudo.list() + rest) =~= all);
                assert(pseudo.list() + rest =~= all.skip(1));
                return Some(Header::Scheme(scheme));
            }
            if let Some(authority) = pseudo.authority.take() {
                assert(seq![Header::Authority(authority)] + (pseudo.list() + rest) =~= all);
                assert(pseudo.list() + rest =~= all.skip(1));
                return Some(Header::Authority(authority));
            }
            if let Some(path) = pseudo.path.take() {
                assert(seq![Header::Path(path)] + (pseudo.list() + rest) =~= all);
                assert(pseudo.list() + rest =~= all.skip(1));
                return Some(Header::Path(path));
            }
            if let Some(status) = pseudo.status.take() {
                assert(seq![Header::Status(status)] + (pseudo.list() + rest) =~= all);
                assert(pseudo.list() + rest =~= all.skip(1));
                return Some(Header::Status(status));
            }
            assert(pseudo.list() =~= Seq::<ToEncode>::empty());
        }
        assert(all =~= rest);
        self.pseudo = None;
        match self.fields.pop_front() {
            Some((name, value)) => {
                assert(self.remaining() =~= all.skip(1));
                Some(Header::Field { name, value })
            },
            None => None,
        }
    }
}

// ===== impl Headers =====

/// A HEADERS frame whose head has been written, without the length, and whose headers have yet to
/// be written behind it.
#[derive(Debug)]
pub struct HeaderBlock {
    /// Where the head starts in the buffer.
    pub pos: usize,
    /// Stream ID of the frame.
    pub stream_id: StreamId,
    /// The headers to encode.
    pub headers: Iter,
}

/// The buffer with the length of the frame that starts at `pos`, and ends where the buffer ends,
/// written into the head of the frame.
pub open spec fn with_frame_len(buf: Seq<u8>, pos: int) -> Seq<u8> {
    buf.take(pos) + be24(buf.len() - pos - super::HEADER_LEN) + buf.skip(pos + 3)
}

/// Whatever header block the encoder appends between `Headers::encode` and `HeaderBlock::finish`,
/// the buffer ends up with what it held before, the head of a frame with the length of the block,
/// and the block.
pub proof fn header_block_is_framed(before: Seq<u8>, head: Head, block: Seq<u8>)
    ensures
        with_frame_len(before + head.wire(0) + block, before.len() as int) == before + head.wire(
            block.len() as int,
        ) + block,
{
    let buf = before + head.wire(0) + block;
    assert(buf.take(before.len() as int) =~= before);
    assert(buf.skip(before.len() as int + 3) =~= head.wire(block.len() as int).skip(3) + block);
    assert(be24(block.len() as int) + head.wire(block.len() as int).skip(3) =~= head.wire(
        block.len() as int,
    ));
}

/// A list has no more names than a longer one that starts with it, and fewer if it lacks one of
/// those.
proof fn names_grow(list: Seq<Decoded>, n: int)
    requires
        0 <= n <= list.len(),
    ensures
        fields_of(list).dom().finite(),
        fields_of(list.take(n)).dom().finite(),
        fields_of(list.take(n)).dom().subset_of(fields_of(list).dom()),
        fields_of(list.take(n)).dom().len() <= fields_of(list).dom().len(),
        forall|name: Seq<u8>|
            fields_of(list).contains_key(name) && !#[trigger] fields_of(list.take(n)).contains_key(
                name,
            ) ==> fields_of(list.take(n)).dom().len() < fields_of(list).dom().len(),
    decreases list.len(),
{
    let small = fields_of(list.take(n)).dom();
    let large = fields_of(list).dom();
    if list.len() == 0 {
        assert(list.take(n) =~= list);
    } else if n == list.len() {
        assert(list.take(n) =~= list);
        names_grow(list.drop_last(), n - 1);
        assert(list.drop_last().take(n - 1) =~= list.drop_last());
    } else {
        names_grow(list.drop_last(), n);
        assert(list.drop_last().take(n) =~= list.take(n));
    }
    vstd::set_lib::lemma_len_subset(small, large);
    assert forall|name: Seq<u8>|
        fields_of(list).contains_key(name) && !#[trigger] fields_of(list.take(n)).contains_key(
            name,
        ) implies small.len() < large.len() by {
        vstd::set_lib::lemma_len_subset(small, large.remove(name));
    }
}

impl Headers {
    /// A frame with these headers, of which no more follow.
    pub fn new(stream_id: StreamId, pseudo: Pseudo, fields: HeaderMap) -> (r: Headers)
        ensures
            r@ == (HeadersModel {
                stream_id,
                stream_dep: None,
                fields: header_fields(fields),
                pseudo: pseudo@,
                flags: HeadersFlag(END_HEADERS),
            }),
    {
        Headers { stream_id, stream_dep: None, fields, pseudo, flags: HeadersFlag::default() }
    }

    /// Builds a `Headers` frame from its head and the header list that was decoded from its
    /// payload. Frames with a priority are not supported, nor are more names than a `HeaderMap`
    /// holds.
    pub fn load(head: Head, decoded: Result<Vec<Decoded>, DecoderError>) -> (r: Result<
        Headers,
        Error,
    >)
        requires
            !HeadersFlag(head.flag).has(PRIORITY),
            decoded matches Ok(list) ==> fields_of(list@).dom().len() <= MAX_NAMES,
        ensures
            match decoded {
                Err(err) => r == Err::<Headers, Error>(Error::Hpack(err)),
                Ok(list) => if repeats_pseudo(list@) {
                    r == Err::<Headers, Error>(Error::Hpack(DecoderError::RepeatedPseudo))
                } else {
                    &&& r is Ok
                    &&& r->Ok_0@ == HeadersModel {
                        stream_id: head.stream_id,
                        stream_dep: None,
                        fields: fields_of(list@),
                        pseudo: pseudo_of(list@),
                        flags: HeadersFlag(head.flag),
                    }
                },
            },
    {
        let flags = HeadersFlag(head.flag());
        let list = match decoded {
            Ok(list) => list,
            Err(err) => return Err(Error::Hpack(err)),
        };
        let ghost all = list@;
        let mut pseudo = Pseudo::default();
        let mut fields = new_fields();
        let mut err = false;
        assert(all.take(0) =~= Seq::empty());
        for header in it: list
            invariant
                it.seq() == all,
                fields_of(all).dom().len() <= MAX_NAMES,
                header_fields(fields) == fields_of(all.take(it.index())),
                pseudo@ == pseudo_of(all.take(it.index())),
                err == repeats_pseudo(all.take(it.index())),
                pseudo.authority is Some <==> exists|i: int|
                    0 <= i < it.index() && #[trigger] all[i] is Authority,
                pseudo.method is Some <==> exists|i: int|
                    0 <= i < it.index() && #[trigger] all[i] is Method,
                pseudo.scheme is Some <==> exists|i: int|
                    0 <= i < it.index() && #[trigger] all[i] is Scheme,
                pseudo.path is Some <==> exists|i: int|
                    0 <= i < it.index() && #[trigger] all[i] is Path,
                pseudo.status is Some <==> exists|i: int|
                    0 <= i < it.index() && #[trigger] all[i] is Status,
        {
            let ghost n = it.index();
            let ghost before = all.take(n);
            let ghost after = all.take(n + 1);
            proof {
                assert(header == all[n]);
                assert(after.drop_last() =~= before);
                assert(after.last() == header);
                assert(forall|i: int| 0 <= i < n ==> before[i] == #[trigger] after[i]);
                // A header repeats an earlier one, or the earlier ones repeat one another.
                let repeats = exists|i: int| 0 <= i < n && same_pseudo(#[trigger] all[i], header);
                assert(repeats_pseudo(after) <==> repeats_pseudo(before) || repeats) by {
                    if repeats_pseudo(after) {
                        let (i, j) = choose|i: int, j: int|
                            0 <= i < j < after.len() && same_pseudo(
                                #[trigger] after[i],
                                #[trigger] after[j],
                            );
                        if j < n {
                            assert(same_pseudo(before[i], before[j]));
                        } else {
                            assert(same_pseudo(all[i], header));
                        }
                    }
                    if repeats_pseudo(before) {
                        let (i, j) = choose|i: int, j: int|
                            0 <= i < j < before.len() && same_pseudo(
                                #[trigger] before[i],
                                #[trigger] before[j],
                            );
                        assert(same_pseudo(after[i], after[j]));
                    }
                    if repeats {
                        let i = choose|i: int|
                            0 <= i < n && same_pseudo(#[trigger] all[i], header);
                        assert(same_pseudo(after[i], after[n]));
                    }
                }
                names_grow(all, n);
                names_grow(all, n + 1);
            }
            match header {
                Header::Field { name, value } => {
                    proof {
                        assert(fields_of(after).contains_key(name@));
                        assert(fields_of(all).contains_key(name@));
                    }
                    append(&mut fields, &name, &value);
                },
                Header::Authority(v) => {
                    if pseudo.authority.is_some() {
                        err = true;
                    } else {
                        pseudo.authority = Some(v);
                    }
                },
                Header::Method(v) => {
                    if pseudo.method.is_some() {
                        err = true;
                    } else {
                        pseudo.method = Some(v);
                    }
                },
                Header::Scheme(v) => {
                    if pseudo.scheme.is_some() {
                        err = true;
                    } else {
                        pseudo.scheme = Some(v);
                    }
                },
                Header::Path(v) => {
                    if pseudo.path.is_some() {
                        err = true;
                    } else {
                        pseudo.path = Some(v);
                    }
                },
                Header::Status(v) => {
                    if pseudo.status.is_some() {
                        err = true;
                    } else {
                        pseudo.status = Some(v);
                    }
                },
            }
        }
        assert(all.take(all.len() as int) =~= all);
        if err {
            return Err(Error::Hpack(DecoderError::RepeatedPseudo));
        }
        Ok(Headers { stream_id: head.stream_id(), stream_dep: None, fields, pseudo, flags })
    }

    /// Returns `true` if the frame represents trailers
    ///
    /// Trailers are header frames that contain no pseudo headers.
    pub fn is_trailers(&self) -> (r: bool)
        ensures
            r == self@.is_trailers(),
    {
        self.pseudo.method.is_none() && self.pseudo.scheme.is_none()
            && self.pseudo.authority.is_none() && self.pseudo.path.is_none()
            && self.pseudo.status.is_none()
    }

    pub fn stream_id(&self) -> (r: StreamId)
        ensures
            r == self@.stream_id,
    {
        self.stream_id
    }

    pub fn is_end_headers(&self) -> (r: bool)
        ensures
            r == self@.flags.has(END_HEADERS),
    {
        self.flags.is_end_headers()
    }

    pub fn is_end_stream(&self) -> (r: bool)
        ensures
            r == self@.flags.has(END_STREAM),
    {
        self.flags.is_end_stream()
    }

    pub fn set_end_stream(&mut self)
        ensures
            final(self)@ == (HeadersModel {
                flags: HeadersFlag(old(self)@.flags.0 | END_STREAM),
                ..old(self)@
            }),
            final(self)@.flags.has(END_STREAM),
    {
        self.flags.set_end_stream()
    }

    /// The response that the headers start: its status is 200 where they give none.
    pub fn into_response(self) -> (r: Response<BodyType>)
        ensures
            match self@.pseudo.status {
                Some(status) => r.status == status,
                None => r.status.code() == 200,
            },
            r.version == Version::Http11,
            header_fields(r.headers) == self@.fields,
            r.body == if self@.flags.has(END_STREAM) {
                BodyType::Empty
            } else {
                BodyType::Stream
            },
    {
        let body = if self.is_end_stream() {
            BodyType::Empty
        } else {
            BodyType::Stream
        };
        let status = match self.pseudo.status {
            Some(status) => status,
            None => StatusCode::ok(),
        };
        Response { status, version: Version::Http11, headers: self.fields, body }
    }

    /// The request that the headers make up: its method is GET where they give none. The parts of
    /// its URI must be valid, and are an error where they do not go together.
    pub fn into_request(self) -> (r: Result<Request, InvalidUriParts>)
        requires
            self@.pseudo.uri().valid_parts(),
        ensures
            self@.pseudo.uri().consistent() ==> r is Ok && is_request(r->Ok_0, self@),
            !self@.pseudo.uri().consistent() ==> r == Err::<Request, InvalidUriParts>(
                InvalidUriParts,
            ),
    {
        let pseudo = self.pseudo;
        let uri = Uri {
            scheme: pseudo.scheme,
            authority: pseudo.authority,
            path_and_query: pseudo.path,
        };
        let valid = uri.validate().unwrap();
        let method = match pseudo.method {
            Some(method) => method,
            None => Method::get(),
        };
        match Uri::from_parts(valid.scheme, valid.authority, valid.path_and_query) {
            Ok(uri) => Ok(Request { method, uri, version: Version::Http2, headers: self.fields }),
            Err(err) => Err(err),
        }
    }

    /// The request that the headers make up, as `into_request` gives it; `None` if a part of its
    /// URI is not valid.
    pub fn try_into_request(self) -> (r: Option<Result<Request, InvalidUriParts>>)
        ensures
            r is None <==> !self@.pseudo.uri().valid_parts(),
            r matches Some(request) ==> if self@.pseudo.uri().consistent() {
                request is Ok && is_request(request->Ok_0, self@)
            } else {
                request == Err::<Request, InvalidUriParts>(InvalidUriParts)
            },
    {
        if !self.has_valid_uri() {
            return None;
        }
        Some(self.into_request())
    }

    /// True if the parts of the URI that the headers give are valid, each in itself.
    pub fn has_valid_uri(&self) -> (r: bool)
        ensures
            r == self@.pseudo.uri().valid_parts(),
    {
        let uri = Uri {
            scheme: copy_text(&self.pseudo.scheme),
            authority: copy_text(&self.pseudo.authority),
            path_and_query: copy_text(&self.pseudo.path),
        };
        uri.validate().is_some()
    }

    pub fn into_fields(self) -> (r: HeaderMap)
        ensures
            header_fields(r) == self@.fields,
    {
        self.fields
    }

    /// The pseudo headers and the fields.
    pub fn into_parts(self) -> (r: (Pseudo, HeaderMap))
        ensures
            r.0@ == self@.pseudo,
            header_fields(r.1) == self@.fields,
    {
        (self.pseudo, self.fields)
    }

    /// Appends the head of the frame, with a length of zero, and hands out the headers that have to
    /// be encoded behind it.
    pub fn encode(self, dst: &mut BytesMut) -> (r: HeaderBlock)
        requires
            buffer_contents(*old(dst)).len() + super::HEADER_LEN <= isize::MAX,
        ensures
            buffer_contents(*final(dst)) == buffer_contents(*old(dst)) + self@.head().wire(0),
            made_capacity(*final(dst)) == made_capacity(*old(dst)),
            r.pos == buffer_contents(*old(dst)).len(),
            r.stream_id == self@.stream_id,
            exists|pseudo: Pseudo|
                pseudo@ == self@.pseudo && #[trigger] lists_headers(
                    r.headers.remaining(),
                    pseudo,
                    self@.fields,
                ),
    {
        let head = self.head();
        let pos: usize = buf::buffer_len(dst);

        // At this point, we don't know how big the h2 frame will be.
        // So, we write the head with length 0, then write the body, and
        // finally write the length once we know the size.
        head.encode(0, dst);
        let ghost pseudo = self.pseudo;
        let headers = Iter::new(self.pseudo, self.fields);
        assert(pseudo@ == self@.pseudo && lists_headers(headers.remaining(), pseudo, self@.fields));
        HeaderBlock { pos, stream_id: self.stream_id, headers }
    }

    fn head(&self) -> (r: Head)
        ensures
            r == self@.head(),
    {
        Head::new(Kind::Headers, u8::from(self.flags), self.stream_id)
    }
}

/// True if the request is the one that the headers make up: the version is HTTP/2, the method is
/// GET where the headers give none, and the path is what a URI makes of it.
pub open spec fn is_request(request: Request, headers: HeadersModel) -> bool {
    &&& request.method@ == match headers.pseudo.method {
        Some(method) => method,
        None => seq![0x47u8, 0x45, 0x54],
    }
    &&& request.version == Version::Http2
    &&& request.uri@ == headers.pseudo.uri().normalized()
    &&& header_fields(request.headers) == headers.fields
}

/// A copy of the text that is there, if any.
fn copy_text(s: &Option<String>) -> (r: Option<String>)
    ensures
        text_of(r) == text_of(*s),
{
    match s {
        Some(text) => Some(text.as_str().to_owned()),
        None => None,
    }
}

impl From<Headers> for Frame {
    fn from(src: Headers) -> (r: Frame) {
        Frame::Headers(src)
    }
}

impl vstd::std_specs::convert::FromSpecImpl<Headers> for Frame {
    open spec fn obeys_from_spec() -> bool {
        true
    }

    open spec fn from_spec(src: Headers) -> Frame {
        Frame::Headers(src)
    }
}

impl HeaderBlock {
    /// Writes the length of the frame into its head, now that the headers stand behind it. If the
    /// encoder could not write all of them, the rest goes into a continuation. The flags of the
    /// frame stay as they are.
    pub fn finish(self, encoded: Encode, dst: &mut BytesMut) -> (r: Option<Continuation>)
        requires
            self.pos + super::HEADER_LEN <= buffer_contents(*old(dst)).len() <= self.pos
                + super::HEADER_LEN + super::MAX_PAYLOAD_LEN,
        ensures
            buffer_contents(*final(dst)) == with_frame_len(
                buffer_contents(*old(dst)),
                self.pos as int,
            ),
            made_capacity(*final(dst)) == made_capacity(*old(dst)),
            r == match encoded {
                Encode::Full => None,
                Encode::Partial(state) => Some(
                    Continuation {
                        stream_id: self.stream_id,
                        hpack: state,
                        headers: self.headers,
                    },
                ),
            },
    {
        let pos: usize = self.pos;

        // Compute the frame length
        let len: usize = buf::buffer_len(dst) - pos - super::HEADER_LEN;

        // Write the frame length
        buf::write_be24(dst, pos, len as u64);
        match encoded {
            Encode::Full => None,
            Encode::Partial(state) => {
                Some(
                    Continuation {
                        stream_id: self.stream_id,
                        hpack: state,
                        headers: self.headers,
                    },
                )
            },
        }
    }
}

// ===== What is read of what was written =====

/// The name of the field at `i`: its own, or that of the nearest field before it with one.
pub open spec fn name_in_effect(list: Seq<ToEncode>, i: int) -> Seq<u8>
    decreases i + 1,
{
    if i < 0 {
        Seq::empty()
    } else {
        match list[i] {
            Header::Field { name: Some(name), .. } => name@,
            _ => name_in_effect(list, i - 1),
        }
    }
}

/// True if `read` is the header list `written`, with the name filled in where it was left out.
pub open spec fn is_read_of(
    read: Seq<Decoded>,
    written: Seq<ToEncode>,
) -> bool {
    &&& read.len() == written.len()
    &&& forall|i: int|
        #![trigger read[i]]
        0 <= i < read.len() ==> match written[i] {
            Header::Field { value, .. } => read[i] matches Header::Field { name: n, value: v } && n@
                == name_in_effect(written, i) && v@ == value@,
            Header::Authority(v) => read[i] matches Header::Authority(w) && w@ == v@,
            Header::Method(v) => read[i] matches Header::Method(w) && w@ == v@,
            Header::Scheme(v) => read[i] matches Header::Scheme(w) && w@ == v@,
            Header::Path(v) => read[i] matches Header::Path(w) && w@ == v@,
            Header::Status(v) => read[i] matches Header::Status(w) && w == v,
        }
}

/// Behind the pseudo headers, the name in effect is that of the field.
proof fn field_name_in_effect(
    list: Seq<ToEncode>,
    pseudo: Pseudo,
    items: Seq<Item>,
    j: int,
)
    requires
        well_grouped(items),
        list == pseudo.list() + items.map_values(|item: Item| field_header(item)),
        0 <= j < items.len(),
    ensures
        name_in_effect(list, pseudo.list().len() + j) == last_name(items.take(j + 1)),
    decreases j,
{
    assert(list[pseudo.list().len() + j] == field_header(items[j]));
    assert(items.take(j + 1).drop_last() =~= items.take(j));
    if items[j].0 is None {
        field_name_in_effect(list, pseudo, items, j - 1);
    }
}

/// One more header of a list is taken in.
proof fn read_one(read: Seq<Decoded>, n: int)
    requires
        0 <= n < read.len(),
        !(read[n] is Field),
    ensures
        pseudo_of(read.take(n + 1)) == pseudo_of(read.take(n)).with(read[n]),
        fields_of(read.take(n + 1)) == fields_of(read.take(n)),
{
    assert(read.take(n + 1).drop_last() =~= read.take(n));
}

/// Where a pseudo header stands in the order in which they are encoded.
spec fn rank<N, V>(h: Header<N, V>) -> int {
    match h {
        Header::Method(_) => 0,
        Header::Scheme(_) => 1,
        Header::Authority(_) => 2,
        Header::Path(_) => 3,
        Header::Status(_) => 4,
        Header::Field { .. } => 5,
    }
}

/// The number of pseudo headers that stand before the one of this rank.
spec fn place(pseudo: Pseudo, rank: int) -> int {
    (if rank > 0 && pseudo.method is Some { 1int } else { 0 })
        + (if rank > 1 && pseudo.scheme is Some { 1int } else { 0 })
        + (if rank > 2 && pseudo.authority is Some { 1int } else { 0 })
        + (if rank > 3 && pseudo.path is Some { 1int } else { 0 })
        + (if rank > 4 && pseudo.status is Some { 1int } else { 0 })
}

/// True if each pseudo header has its place in the list, and the list holds nothing else.
spec fn has_places(list: Seq<ToEncode>, pseudo: Pseudo) -> bool {
    &&& list.len() == place(pseudo, 5)
    &&& pseudo.method matches Some(v) ==> list[place(pseudo, 0)] == ToEncode::Method(v)
    &&& pseudo.scheme matches Some(v) ==> list[place(pseudo, 1)] == ToEncode::Scheme(v)
    &&& pseudo.authority matches Some(v) ==> list[place(pseudo, 2)] == ToEncode::Authority(v)
    &&& pseudo.path matches Some(v) ==> list[place(pseudo, 3)] == ToEncode::Path(v)
    &&& pseudo.status matches Some(v) ==> list[place(pseudo, 4)] == ToEncode::Status(v)
}

/// Each pseudo header has its place.
proof fn pseudo_places(pseudo: Pseudo)
    ensures
        has_places(pseudo.list(), pseudo),
{
}

/// The header at each place is the one that has it.
proof fn places_are_taken(list: Seq<ToEncode>, pseudo: Pseudo, i: int)
    requires
        has_places(list, pseudo),
        0 <= i < list.len(),
    ensures
        place(pseudo, rank(list[i])) == i,
        !(list[i] is Field),
{
    if pseudo.method is Some && i == place(pseudo, 0) {
    } else if pseudo.scheme is Some && i == place(pseudo, 1) {
    } else if pseudo.authority is Some && i == place(pseudo, 2) {
    } else if pseudo.path is Some && i == place(pseudo, 3) {
    } else {
        assert(pseudo.status is Some && i == place(pseudo, 4));
    }
}

/// The header at each place is the one that has it.
proof fn pseudo_in_order(pseudo: Pseudo)
    ensures
        forall|i: int|
            0 <= i < pseudo.list().len() ==> place(pseudo, rank(#[trigger] pseudo.list()[i])) == i,
        forall|i: int| 0 <= i < pseudo.list().len() ==> !(#[trigger] pseudo.list()[i] is Field),
{
    let list = pseudo.list();
    pseudo_places(pseudo);
    assert forall|i: int| 0 <= i < list.len() implies place(pseudo, rank(#[trigger] list[i])) == i
        && !(list[i] is Field) by {
        places_are_taken(list, pseudo, i);
    }
}

/// The pseudo headers are read as they were written.
proof fn pseudo_read_back(read: Seq<Decoded>, pseudo: Pseudo)
    requires
        is_read_of(read, pseudo.list()),
    ensures
        pseudo_of(read) == pseudo@,
        fields_of(read) == Fields::empty(),
{
    pseudo_places(pseudo);
    assert(read.take(0) =~= Seq::empty());
    if pseudo.method is Some {
        read_one(read, place(pseudo, 0));
    }
    if pseudo.scheme is Some {
        read_one(read, place(pseudo, 1));
    }
    if pseudo.authority is Some {
        read_one(read, place(pseudo, 2));
    }
    if pseudo.path is Some {
        read_one(read, place(pseudo, 3));
    }
    if pseudo.status is Some {
        read_one(read, place(pseudo, 4));
    }
    assert(read.take(place(pseudo, 5)) =~= read);
}

/// No pseudo header is written twice.
proof fn pseudo_written_once(read: Seq<Decoded>, pseudo: Pseudo)
    requires
        is_read_of(read, pseudo.list()),
    ensures
        !repeats_pseudo(read),
{
    let list = pseudo.list();
    pseudo_in_order(pseudo);
    if repeats_pseudo(read) {
        let (i, j) = choose|i: int, j: int|
            0 <= i < j < read.len() && same_pseudo(#[trigger] read[i], #[trigger] read[j]);
        assert(rank(list[i]) == rank(read[i]) == rank(read[j]) == rank(list[j]));
    }
}

/// The fields behind the pseudo headers are read as they were written.
proof fn fields_read_back(
    read: Seq<Decoded>,
    list: Seq<ToEncode>,
    pseudo: Pseudo,
    items: Seq<Item>,
    j: int,
)
    requires
        well_grouped(items),
        list == pseudo.list() + items.map_values(|item: Item| field_header(item)),
        is_read_of(read, list),
        0 <= j <= items.len(),
    ensures
        pseudo_of(read.take(pseudo.list().len() + j)) == pseudo@,
        fields_of(read.take(pseudo.list().len() + j)) == collect_items(items.take(j)),
    decreases j,
{
    let k = pseudo.list().len();
    if j == 0 {
        let front = read.take(k as int);
        assert forall|i: int| 0 <= i < k implies list[i] == #[trigger] pseudo.list()[i] by {}
        pseudo_in_order(pseudo);
        assert(is_read_of(front, pseudo.list()));
        pseudo_read_back(front, pseudo);
        assert(items.take(0) =~= Seq::empty());
    } else {
        fields_read_back(read, list, pseudo, items, j - 1);
        field_name_in_effect(list, pseudo, items, j - 1);
        let n = k + j;
        assert(list[n - 1] == field_header(items[j - 1]));
        assert(read.take(n).drop_last() =~= read.take(n - 1));
        assert(read.take(n).last() == read[n - 1]);
        assert(items.take(j).drop_last() =~= items.take(j - 1));
        assert(items.take(j).last() == items[j - 1]);
    }
}

/// A frame that is loaded from the headers that were handed out for encoding, with the names filled
/// in, is not rejected, and has the pseudo headers and the fields of the frame that was encoded.
pub proof fn headers_are_read_back(
    read: Seq<Decoded>,
    written: Seq<ToEncode>,
    pseudo: Pseudo,
    fields: Fields,
)
    requires
        lists_headers(written, pseudo, fields),
        is_read_of(read, written),
    ensures
        !repeats_pseudo(read),
        pseudo_of(read) == pseudo@,
        fields_of(read) == fields,
{
    let items = choose|items: Seq<Item>| #[trigger]
        well_grouped(items) && collect_items(items) == fields && written == pseudo.list()
            + items.map_values(|item: Item| field_header(item));
    let n = items.len() as int;
    let k = pseudo.list().len() as int;
    fields_read_back(read, written, pseudo, items, n);
    assert(read.take(k + n) =~= read);
    assert(items.take(n) =~= items);
    let front = read.take(k);
    assert forall|i: int| 0 <= i < k implies written[i] == #[trigger] pseudo.list()[i] by {}
    pseudo_in_order(pseudo);
    assert(is_read_of(front, pseudo.list()));
    pseudo_written_once(front, pseudo);
    if repeats_pseudo(read) {
        let (i, j) = choose|i: int, j: int|
            0 <= i < j < read.len() && same_pseudo(#[trigger] read[i], #[trigger] read[j]);
        if j >= k {
            assert(written[j] == field_header(items[j - k]));
        } else {
            assert(same_pseudo(front[i], front[j]));
        }
    }
}

/// A frame is read as it was written, whatever the header block looks like: the bytes of its head
/// are those of no other head and no other length, and what is loaded from that head and the
/// headers that were handed out for encoding, with the names filled in, is the frame.
pub proof fn frames_are_read_back(
    frame: HeadersModel,
    block: Seq<u8>,
    head: Head,
    len: int,
    read: Seq<Decoded>,
    written: Seq<ToEncode>,
    pseudo: Pseudo,
)
    requires
        frame.stream_dep is None,
        pseudo@ == frame.pseudo,
        lists_headers(written, pseudo, frame.fields),
        is_read_of(read, written),
        block.len() <= super::MAX_PAYLOAD_LEN,
        0 <= len <= super::MAX_PAYLOAD_LEN,
        head.wire(len) == with_frame_len(frame.head().wire(0) + block, 0).take(9),
    ensures
        len == block.len(),
        with_frame_len(frame.head().wire(0) + block, 0).skip(9) == block,
        !repeats_pseudo(read),
        (HeadersModel {
            stream_id: head.stream_id,
            stream_dep: None,
            fields: fields_of(read),
            pseudo: pseudo_of(read),
            flags: HeadersFlag(head.flag),
        }) == frame,
{
    let n = block.len() as int;
    header_block_is_framed(Seq::empty(), frame.head(), block);
    assert(Seq::<u8>::empty() + frame.head().wire(0) + block =~= frame.head().wire(0) + block);
    let bytes = with_frame_len(frame.head().wire(0) + block, 0);
    assert(bytes =~= frame.head().wire(n) + block);
    assert(bytes.take(9) =~= frame.head().wire(n));
    assert(bytes.skip(9) =~= block);
    heads_are_read_back(head, len, frame.head(), n);
    headers_are_read_back(read, written, pseudo, frame.fields);
}

} // verus!
