//! How frames are read, by the bytes that they are written as.

use super::data::Data;
use super::go_away::GoAway;
use super::head::{Head, Kind};
use super::ping::Ping;
use super::reset::Reset;
use super::settings::Settings;
use super::stream_id::StreamId;
use super::window_update::WindowUpdate;
use super::Error;
use crate::buf::{be24, be32, buffer_contents};
use crate::error::Reason;
use bytes::{Bytes, BytesMut};
use vstd::prelude::*;

verus! {

/// The number that bytes stand for, most significant first.
pub open spec fn number(bytes: Seq<u8>) -> int
    decreases bytes.len(),
{
    if bytes.len() == 0 {
        0
    } else {
        number(bytes.drop_last()) * 256 + bytes.last()
    }
}

/// True if the bytes are a frame with this payload, whose head gives its length, its kind, its
/// flags and its stream.
pub open spec fn reads_as(
    bytes: Seq<u8>,
    kind: u8,
    flag: u8,
    stream: int,
    payload: Seq<u8>,
) -> bool {
    &&& bytes.len() == 9 + payload.len()
    &&& number(bytes.take(3)) == payload.len()
    &&& bytes[3] == kind
    &&& bytes[4] == flag
    &&& number(bytes.subrange(5, 9)) == stream
    &&& bytes.skip(9) == payload
}

/// Three bytes stand for the number that they were made of.
pub proof fn three_bytes_read(n: int)
    requires
        0 <= n < 0x100_0000,
    ensures
        number(be24(n)) == n,
{
    let bytes = be24(n);
    reveal_with_fuel(number, 4);
    assert(bytes.drop_last().drop_last().drop_last() =~= Seq::empty());
    assert(n / 0x1_0000 % 0x100 == n / 0x1_0000);
    assert(n / 0x100 == n / 0x1_0000 * 0x100 + n / 0x100 % 0x100);
}

/// Four bytes stand for the number that they were made of.
pub proof fn four_bytes_read(n: int)
    requires
        0 <= n < 0x1_0000_0000,
    ensures
        number(be32(n)) == n,
{
    let bytes = be32(n);
    reveal_with_fuel(number, 5);
    assert(bytes.drop_last().drop_last().drop_last().drop_last() =~= Seq::empty());
    assert(n / 0x100_0000 % 0x100 == n / 0x100_0000);
    assert(n / 0x1_0000 == n / 0x100_0000 * 0x100 + n / 0x1_0000 % 0x100);
    assert(n / 0x100 == n / 0x1_0000 * 0x100 + n / 0x100 % 0x100);
}

/// A head and the payload behind it read as a frame.
pub proof fn frames_read(head: Head, payload: Seq<u8>)
    requires
        payload.len() < 0x100_0000,
    ensures
        reads_as(
            head.wire(payload.len() as int) + payload,
            head.kind.spec_code(),
            head.flag,
            head.stream_id.0 as int,
            payload,
        ),
        kind_number(head.kind) == head.kind.spec_code(),
{
    let n = payload.len() as int;
    let bytes = head.wire(n) + payload;
    three_bytes_read(n);
    four_bytes_read(head.stream_id.0 as int);
    assert(bytes.take(3) =~= be24(n));
    assert(bytes.subrange(5, 9) =~= be32(head.stream_id.0 as int));
    assert(bytes.skip(9) =~= payload);
}

/// The number of each kind of frame.
pub open spec fn kind_number(kind: Kind) -> int {
    if kind is Data {
        0
    } else if kind is Headers {
        1
    } else if kind is Priority {
        2
    } else if kind is Reset {
        3
    } else if kind is Settings {
        4
    } else if kind is PushPromise {
        5
    } else if kind is Ping {
        6
    } else if kind is GoAway {
        7
    } else if kind is WindowUpdate {
        8
    } else {
        9
    }
}

/// What a frame appends to a buffer: what was there stays, and what is added reads as the frame.
pub open spec fn appends(
    before: Seq<u8>,
    after: Seq<u8>,
    kind: u8,
    flag: u8,
    stream: int,
    payload: Seq<u8>,
) -> bool {
    &&& after.len() >= before.len()
    &&& after.take(before.len() as int) == before
    &&& reads_as(after.skip(before.len() as int), kind, flag, stream, payload)
}

/// What is put behind a buffer is appended to it.
proof fn frames_are_appended(before: Seq<u8>, head: Head, payload: Seq<u8>, after: Seq<u8>)
    requires
        payload.len() < 0x100_0000,
        after == before + (head.wire(payload.len() as int) + payload),
    ensures
        appends(
            before,
            after,
            head.kind.spec_code(),
            head.flag,
            head.stream_id.0 as int,
            payload,
        ),
{
    frames_read(head, payload);
    assert(after.take(before.len() as int) =~= before);
    assert(after.skip(before.len() as int) =~= head.wire(payload.len() as int) + payload);
}

/// The head of a frame is nine bytes: the length of the payload, the kind, the flags and the
/// stream.
pub proof fn heads_are_written(head: &Head, len: usize, dst: &mut BytesMut)
    requires
        call_ensures(Head::encode, (head, len, dst), ()),
        len < 0x100_0000,
    ensures
        ({
            let before = buffer_contents(*old(dst));
            let after = buffer_contents(*final(dst));
            let n = before.len() as int;
            &&& after.len() == n + 9
            &&& after.take(n) == before
            &&& number(after.subrange(n, n + 3)) == len
            &&& after[n + 3] == kind_number(head.kind)
            &&& after[n + 4] == head.flag
            &&& number(after.subrange(n + 5, n + 9)) == head.stream_id.0
        }),
{
    let before = buffer_contents(*old(dst));
    let after = buffer_contents(*final(dst));
    let n = before.len() as int;
    three_bytes_read(len as int);
    four_bytes_read(head.stream_id.0 as int);
    assert(after.take(n) =~= before);
    assert(after.subrange(n, n + 3) =~= be24(len as int));
    assert(after.subrange(n + 5, n + 9) =~= be32(head.stream_id.0 as int));
}

/// A DATA frame is written with its payload, and with the flag that ends the stream where it does.
pub proof fn data_is_written(data: &Data, dst: &mut BytesMut)
    requires
        call_ensures(Data::encode, (data, dst), ()),
        data@.payload.len() < 0x100_0000,
    ensures
        appends(
            buffer_contents(*old(dst)),
            buffer_contents(*final(dst)),
            0,
            if data@.end_stream {
                1
            } else {
                0
            },
            data@.stream_id.0 as int,
            data@.payload,
        ),
{
    frames_are_appended(
        buffer_contents(*old(dst)),
        data@.head(),
        data@.payload,
        buffer_contents(*final(dst)),
    );
}

/// A PING frame is written with its payload, on no stream, and with the flag of an answer where it
/// is one.
pub proof fn pings_are_written(ping: &Ping, dst: &mut BytesMut)
    requires
        call_ensures(Ping::encode, (ping, dst), ()),
        ping@.payload.len() < 0x100_0000,
    ensures
        appends(
            buffer_contents(*old(dst)),
            buffer_contents(*final(dst)),
            6,
            if ping@.ack {
                1
            } else {
                0
            },
            0,
            ping@.payload,
        ),
{
    frames_are_appended(
        buffer_contents(*old(dst)),
        ping@.head(),
        ping@.payload,
        buffer_contents(*final(dst)),
    );
}

/// A PING frame is read exactly where it is on no stream and has eight bytes. It is an answer if
/// the lowest bit of its flags is set, whatever the others are, and its payload is what was read.
pub proof fn pings_are_read(head: Head, payload: Bytes, r: Result<Ping, Error>)
    requires
        call_ensures(Ping::load, (head, payload), r),
    ensures
        ({
            let bytes = crate::buf::bytes_contents(payload);
            &&& r is Ok <==> head.stream_id.0 == 0 && bytes.len() == 8
            &&& head.stream_id.0 != 0 ==> r == Err::<Ping, Error>(Error::InvalidStreamId)
            &&& head.stream_id.0 == 0 && bytes.len() != 8 ==> r == Err::<Ping, Error>(
                Error::BadFrameSize,
            )
            &&& r matches Ok(ping) ==> ping@.payload == bytes && (ping@.ack <==> head.flag % 2
                == 1)
        }),
{
    let flag = head.flag;
    assert(flag & 1 == flag % 2) by (bit_vector);
}

/// A RST_STREAM frame is written on its stream, with the code of the reason.
pub proof fn resets_are_written(reset: &Reset, dst: &mut BytesMut, payload: Seq<u8>)
    requires
        call_ensures(Reset::encode, (reset, dst), ()),
        payload.len() == 4,
        number(payload) == code_of(reset.reason),
    ensures
        appends(
            buffer_contents(*old(dst)),
            buffer_contents(*final(dst)),
            3,
            0,
            reset.stream_id.0 as int,
            payload,
        ),
{
    let head = Head { kind: Kind::Reset, flag: 0, stream_id: reset.stream_id };
    only_four_bytes(payload, code_of(reset.reason));
    assert(buffer_contents(*final(dst)) =~= buffer_contents(*old(dst)) + (head.wire(4) + payload));
    frames_are_appended(buffer_contents(*old(dst)), head, payload, buffer_contents(*final(dst)));
}

/// A WINDOW_UPDATE frame is written on its stream, with the increment.
pub proof fn window_updates_are_written(
    update: &WindowUpdate,
    dst: &mut BytesMut,
    payload: Seq<u8>,
)
    requires
        call_ensures(WindowUpdate::encode, (update, dst), ()),
        payload.len() == 4,
        number(payload) == update.size_increment,
    ensures
        appends(
            buffer_contents(*old(dst)),
            buffer_contents(*final(dst)),
            8,
            0,
            update.stream_id.0 as int,
            payload,
        ),
{
    let head = Head { kind: Kind::WindowUpdate, flag: 0, stream_id: update.stream_id };
    only_four_bytes(payload, update.size_increment as int);
    assert(buffer_contents(*final(dst)) =~= buffer_contents(*old(dst)) + (head.wire(4) + payload));
    frames_are_appended(buffer_contents(*old(dst)), head, payload, buffer_contents(*final(dst)));
}

/// A GOAWAY frame is written on no stream, with the last stream and the code of the reason.
pub proof fn go_aways_are_written(
    frame: &GoAway,
    dst: &mut BytesMut,
    last: Seq<u8>,
    code: Seq<u8>,
)
    requires
        call_ensures(GoAway::encode, (frame, dst), ()),
        last.len() == 4 && number(last) == frame.last_stream_id.0,
        code.len() == 4 && number(code) == code_of(frame.reason),
    ensures
        appends(
            buffer_contents(*old(dst)),
            buffer_contents(*final(dst)),
            7,
            0,
            0,
            last + code,
        ),
{
    let head = Head { kind: Kind::GoAway, flag: 0, stream_id: StreamId(0) };
    only_four_bytes(last, frame.last_stream_id.0 as int);
    only_four_bytes(code, code_of(frame.reason));
    assert(buffer_contents(*final(dst)) =~= buffer_contents(*old(dst)) + (head.wire(8) + (last
        + code)));
    frames_are_appended(
        buffer_contents(*old(dst)),
        head,
        last + code,
        buffer_contents(*final(dst)),
    );
}

/// Four bytes that stand for a number are those that it is written as.
proof fn only_four_bytes(bytes: Seq<u8>, n: int)
    requires
        bytes.len() == 4,
        number(bytes) == n,
        0 <= n < 0x1_0000_0000,
    ensures
        bytes == be32(n),
{
    reveal_with_fuel(number, 5);
    let (a, b, c, d) = (bytes[0] as int, bytes[1] as int, bytes[2] as int, bytes[3] as int);
    assert(bytes.drop_last().drop_last().drop_last().drop_last() =~= Seq::empty());
    assert(n == ((a * 256 + b) * 256 + c) * 256 + d);
    assert(n % 256 == d);
    assert(n / 256 == (a * 256 + b) * 256 + c);
    assert(n / 0x1_0000 == a * 256 + b);
    assert(n / 0x100_0000 == a);
    assert(bytes =~= be32(n));
}

/// The error code of each reason.
pub open spec fn code_of(reason: Reason) -> int {
    match reason {
        Reason::NoError => 0,
        Reason::ProtocolError => 1,
        Reason::InternalError => 2,
        Reason::FlowControlError => 3,
        Reason::SettingsTimeout => 4,
        Reason::StreamClosed => 5,
        Reason::FrameSizeError => 6,
        Reason::RefusedStream => 7,
        Reason::Cancel => 8,
        Reason::CompressionError => 9,
        Reason::ConnectError => 10,
        Reason::EnhanceYourCalm => 11,
        Reason::InadequateSecurity => 12,
        Reason::Http11Required => 13,
        Reason::Other(code) => code as int,
    }
}

/// Each reason has its own code, and a code that HTTP/2 does not define is kept.
pub proof fn reasons_have_codes(reason: Reason, r: u32)
    requires
        call_ensures(Reason::code, (reason,), r),
    ensures
        r == code_of(reason),
{
}

/// True if the payload mentions a setting with this number and this value.
pub open spec fn mentions(payload: Seq<u8>, id: u8, value: u32) -> bool {
    exists|k: int|
        0 <= k && 6 * k + 6 <= payload.len() && #[trigger] entry(payload, k) == (
            id as int,
            value as int,
        )
}

/// The number and the value of the setting that stands in the payload as the `k`th.
pub open spec fn entry(payload: Seq<u8>, k: int) -> (int, int) {
    (
        number(payload.subrange(6 * k, 6 * k + 2)),
        number(payload.subrange(6 * k + 2, 6 * k + 6)),
    )
}

/// 1 if the setting is mentioned, else 0.
pub open spec fn mentioned(value: Option<u32>) -> int {
    if value is Some {
        1
    } else {
        0
    }
}

/// A SETTINGS frame is written on no stream, with the flag of an acknowledgement where it is one.
/// Its payload has an entry for each setting that it mentions, with the number of the setting and
/// its value, and no other.
pub proof fn settings_are_written(settings: &Settings, dst: &mut BytesMut)
    requires
        call_ensures(Settings::encode, (settings, dst), ()),
    ensures
        ({
            let s = *settings;
            let before = buffer_contents(*old(dst));
            let after = buffer_contents(*final(dst));
            let payload = after.skip(before.len() as int + 9);
            &&& appends(
                before,
                after,
                4,
                if s.ack {
                    1
                } else {
                    0
                },
                0,
                payload,
            )
            &&& payload.len() == 6 * (mentioned(s.header_table_size) + mentioned(s.enable_push)
                + mentioned(s.max_concurrent_streams) + mentioned(s.initial_window_size)
                + mentioned(s.max_frame_size) + mentioned(s.max_header_list_size))
            &&& s.header_table_size matches Some(v) ==> mentions(payload, 1, v)
            &&& s.enable_push matches Some(v) ==> mentions(payload, 2, v)
            &&& s.max_concurrent_streams matches Some(v) ==> mentions(payload, 3, v)
            &&& s.initial_window_size matches Some(v) ==> mentions(payload, 4, v)
            &&& s.max_frame_size matches Some(v) ==> mentions(payload, 5, v)
            &&& s.max_header_list_size matches Some(v) ==> mentions(payload, 6, v)
        }),
{
    let s = *settings;
    let before = buffer_contents(*old(dst));
    let after = buffer_contents(*final(dst));
    let payload = s.payload();
    assert(payload.len() <= 36);
    frames_are_appended(before, s.head(), payload, after);
    assert(after.skip(before.len() as int + 9) =~= payload);
    settings_are_mentioned(s);
}

/// The payload of a SETTINGS frame mentions what the frame mentions.
proof fn settings_are_mentioned(s: Settings)
    ensures
        ({
            let payload = s.payload();
            &&& payload.len() == 6 * (mentioned(s.header_table_size) + mentioned(s.enable_push)
                + mentioned(s.max_concurrent_streams) + mentioned(s.initial_window_size)
                + mentioned(s.max_frame_size) + mentioned(s.max_header_list_size))
            &&& s.header_table_size matches Some(v) ==> mentions(payload, 1, v)
            &&& s.enable_push matches Some(v) ==> mentions(payload, 2, v)
            &&& s.max_concurrent_streams matches Some(v) ==> mentions(payload, 3, v)
            &&& s.initial_window_size matches Some(v) ==> mentions(payload, 4, v)
            &&& s.max_frame_size matches Some(v) ==> mentions(payload, 5, v)
            &&& s.max_header_list_size matches Some(v) ==> mentions(payload, 6, v)
        }),
{
    let p1 = super::settings::setting(1, s.header_table_size);
    let p2 = super::settings::setting(2, s.enable_push);
    let p3 = super::settings::setting(3, s.max_concurrent_streams);
    let p4 = super::settings::setting(4, s.initial_window_size);
    let p5 = super::settings::setting(5, s.max_frame_size);
    let p6 = super::settings::setting(6, s.max_header_list_size);
    let e = Seq::<u8>::empty();
    let c1 = mentioned(s.header_table_size);
    let c2 = c1 + mentioned(s.enable_push);
    let c3 = c2 + mentioned(s.max_concurrent_streams);
    let c4 = c3 + mentioned(s.initial_window_size);
    let c5 = c4 + mentioned(s.max_frame_size);
    six_parts(p1, p2, p3, p4, p5, p6);
    setting_is_mentioned(e, p2 + p3 + p4 + p5 + p6, 1, s.header_table_size, 0);
    setting_is_mentioned(p1, p3 + p4 + p5 + p6, 2, s.enable_push, c1);
    setting_is_mentioned(p1 + p2, p4 + p5 + p6, 3, s.max_concurrent_streams, c2);
    setting_is_mentioned(p1 + p2 + p3, p5 + p6, 4, s.initial_window_size, c3);
    setting_is_mentioned(p1 + p2 + p3 + p4, p6, 5, s.max_frame_size, c4);
    setting_is_mentioned(p1 + p2 + p3 + p4 + p5, e, 6, s.max_header_list_size, c5);
}

/// Six parts in a row, with one of them set apart.
proof fn six_parts(
    a: Seq<u8>,
    b: Seq<u8>,
    c: Seq<u8>,
    d: Seq<u8>,
    f: Seq<u8>,
    g: Seq<u8>,
)
    ensures
        ({
            let e = Seq::<u8>::empty();
            let all = a + b + c + d + f + g;
            &&& e + a + (b + c + d + f + g) == all
            &&& a + b + (c + d + f + g) == all
            &&& a + b + c + (d + f + g) == all
            &&& a + b + c + d + (f + g) == all
            &&& a + b + c + d + f + g + e == all
        }),
{
    let e = Seq::<u8>::empty();
    let all = a + b + c + d + f + g;
    assert(e + a + (b + c + d + f + g) =~= all);
    assert(a + b + (c + d + f + g) =~= all);
    assert(a + b + c + (d + f + g) =~= all);
    assert(a + b + c + d + (f + g) =~= all);
    assert(all + e =~= all);
}

/// A setting stands behind those before it.
proof fn setting_is_mentioned(
    front: Seq<u8>,
    back: Seq<u8>,
    id: u8,
    value: Option<u32>,
    k: int,
)
    requires
        0 <= k,
        front.len() == 6 * k,
    ensures
        super::settings::setting(id, value).len() == 6 * mentioned(value),
        value matches Some(v) ==> mentions(
            front + super::settings::setting(id, value) + back,
            id,
            v,
        ),
{
    if let Some(v) = value {
        let payload = front + super::settings::setting(id, value) + back;
        four_bytes_read(v as int);
        assert(payload.subrange(6 * k + 2, 6 * k + 6) =~= be32(v as int));
        let two = payload.subrange(6 * k, 6 * k + 2);
        assert(two =~= seq![0u8, id]);
        reveal_with_fuel(number, 3);
        assert(two.drop_last().drop_last() =~= Seq::empty());
        assert(entry(payload, k) == (id as int, v as int));
    }
}

/// A stream ID is that of the connection if it is zero; else it is one of a client if it is odd,
/// and one of a server if it is even.
pub proof fn ids_belong_to_a_side(id: StreamId, zero: bool, client: bool, server: bool)
    requires
        call_ensures(StreamId::is_zero, (&id,), zero),
        call_ensures(StreamId::is_client_initiated, (&id,), client),
        call_ensures(StreamId::is_server_initiated, (&id,), server),
    ensures
        zero <==> id == StreamId(0),
        client <==> exists|k: int| 0 <= k && id.0 == #[trigger] (2 * k) + 1,
        server <==> exists|k: int| 0 < k && id.0 == #[trigger] (2 * k),
        zero || client || server,
        !(client && server) && !(zero && client) && !(zero && server),
{
    let half = id.0 / 2;
    if id.0 % 2 == 1 {
        assert(id.0 == (2 * (half as int)) + 1);
    } else {
        assert(id.0 == 2 * (half as int));
    }
}

/// Frames have what they are made of. Data does not end its stream until it is said to, and then
/// nothing else of it changes.
pub proof fn frames_have_what_they_are_made_of(
    stream_id: StreamId,
    payload: Bytes,
    data: Data,
    ping: Ping,
    pong: Ping,
    ended: &mut Data,
)
    requires
        call_ensures(Data::new, (stream_id, payload), data),
        call_ensures(Ping::ping, (payload,), ping),
        call_ensures(Ping::pong, (payload,), pong),
        call_ensures(Data::set_end_stream, (ended,), ()),
    ensures
        ({
            let bytes = crate::buf::bytes_contents(payload);
            &&& data@.stream_id == stream_id && data@.payload == bytes && !data@.end_stream
            &&& ping@.payload == bytes && !ping@.ack
            &&& pong@.payload == bytes && pong@.ack
        }),
        final(ended)@.end_stream,
        final(ended)@.stream_id == old(ended)@.stream_id,
        final(ended)@.payload == old(ended)@.payload,
{
}

/// Frames say what they have.
pub proof fn frames_say_what_they_have(
    data: Data,
    id: StreamId,
    len: usize,
    ended: bool,
    payload: &Bytes,
    ping: Ping,
    ack: bool,
    ping_len: usize,
    ping_payload: Bytes,
)
    requires
        call_ensures(Data::stream_id, (&data,), id),
        call_ensures(Data::len, (&data,), len),
        call_ensures(Data::is_end_stream, (&data,), ended),
        call_ensures(Data::payload, (&data,), payload),
        call_ensures(Ping::is_ack, (&ping,), ack),
        call_ensures(Ping::len, (&ping,), ping_len),
        call_ensures(Ping::into_payload, (ping,), ping_payload),
    ensures
        id == data@.stream_id && len == data@.payload.len() && ended == data@.end_stream,
        crate::buf::bytes_contents(*payload) == data@.payload,
        ack == ping@.ack && ping_len == ping@.payload.len(),
        crate::buf::bytes_contents(ping_payload) == ping@.payload,
{
}

/// What a reset, a window update or a GO_AWAY frame is made of is what it has.
pub proof fn control_frames_have_what_they_are_made_of(
    id: StreamId,
    reason: Reason,
    incr: u32,
    reset: Reset,
    go_away: GoAway,
    update: WindowUpdate,
)
    requires
        call_ensures(Reset::new, (id, reason), reset),
        call_ensures(GoAway::new, (id, reason), go_away),
        call_ensures(WindowUpdate::new, (id, incr), update),
    ensures
        reset.stream_id == id && reset.reason == reason,
        go_away.last_stream_id == id && go_away.reason == reason,
        update.stream_id == id && update.size_increment == incr,
{
}

/// A setting that is set is what it was set to, and the others stay. An acknowledgement mentions
/// nothing.
pub proof fn settings_are_set(
    a: &mut Settings,
    window: Option<u32>,
    b: &mut Settings,
    frame: Option<u32>,
    c: &mut Settings,
    max: Option<u32>,
    d: &mut Settings,
    push: bool,
    ack: Settings,
)
    requires
        call_ensures(Settings::set_initial_window_size, (a, window), ()),
        call_ensures(Settings::set_max_frame_size, (b, frame), ()),
        call_ensures(Settings::set_max_concurrent_streams, (c, max), ()),
        call_ensures(Settings::set_enable_push, (d, push), ()),
        call_ensures(Settings::ack, (), ack),
    ensures
        *final(a) == (Settings { initial_window_size: window, ..*old(a) }),
        *final(b) == (Settings { max_frame_size: frame, ..*old(b) }),
        *final(c) == (Settings { max_concurrent_streams: max, ..*old(c) }),
        push ==> *final(d) == (Settings { enable_push: Some(1), ..*old(d) }),
        !push ==> *final(d) == (Settings { enable_push: Some(0), ..*old(d) }),
        ack.ack && ack.header_table_size is None && ack.enable_push is None
            && ack.max_concurrent_streams is None && ack.initial_window_size is None
            && ack.max_frame_size is None && ack.max_header_list_size is None,
{
}

/// The text of a protocol error is made of what its reason means.
pub proof fn errors_are_described(reason: Reason, meaning: &'static str, text: String)
    requires
        call_ensures(Reason::description, (reason,), meaning),
        call_ensures(Reason::error_text, (reason,), text),
    ensures
        text@ == "protocol error: "@ + meaning@,
        reason == Reason::FlowControlError ==> meaning@ == "flow-control protocol violated"@,
{
}

} // verus!
