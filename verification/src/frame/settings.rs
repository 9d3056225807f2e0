use super::head::{Head, Kind};
use super::stream_id::StreamId;
use super::Frame;
use crate::buf::{self, be32, buffer_contents, made_capacity};
use bytes::BytesMut;
use vstd::prelude::*;

verus! {

pub const ACK_FLAG: u8 = 0x1;

/// A SETTINGS frame, or the acknowledgement of one. What is `None` is not mentioned in the frame.
#[derive(Clone, Copy, Debug, PartialEq, Eq, Structural)]
pub struct Settings {
    pub ack: bool,
    pub header_table_size: Option<u32>,
    pub enable_push: Option<u32>,
    pub max_concurrent_streams: Option<u32>,
    pub initial_window_size: Option<u32>,
    pub max_frame_size: Option<u32>,
    pub max_header_list_size: Option<u32>,
}

/// A setting as it stands in the payload: its number in two bytes and its value in four; nothing if
/// it is not mentioned.
pub open spec fn setting(id: u8, value: Option<u32>) -> Seq<u8> {
    match value {
        Some(v) => seq![0u8, id] + be32(v as int),
        None => Seq::empty(),
    }
}

/// Appends a setting.
fn put_setting(dst: &mut BytesMut, id: u8, value: Option<u32>)
    requires
        buffer_contents(*old(dst)).len() + 6 <= isize::MAX,
    ensures
        buffer_contents(*final(dst)) == buffer_contents(*old(dst)) + setting(id, value),
        made_capacity(*final(dst)) == made_capacity(*old(dst)),
{
    if let Some(v) = value {
        let number: [u8; 2] = [0, id];
        assert(number@ =~= seq![0u8, id]);
        buf::extend_from_slice(dst, number.as_slice());
        buf::put_be32(dst, v);
    }
}

/// The number of bytes that a setting takes.
fn setting_len(value: Option<u32>) -> (r: usize)
    ensures
        forall|id: u8| #[trigger] setting(id, value).len() == r,
        r <= 6,
{
    match value {
        Some(_) => 6,
        None => 0,
    }
}

impl Settings {
    /// Nothing mentioned.
    pub open spec fn none() -> Settings {
        Settings {
            ack: false,
            header_table_size: None,
            enable_push: None,
            max_concurrent_streams: None,
            initial_window_size: None,
            max_frame_size: None,
            max_header_list_size: None,
        }
    }

    /// The acknowledgement of a SETTINGS frame.
    pub fn ack() -> (r: Settings)
        ensures
            r == (Settings { ack: true, ..Settings::none() }),
    {
        Settings {
            ack: true,
            header_table_size: None,
            enable_push: None,
            max_concurrent_streams: None,
            initial_window_size: None,
            max_frame_size: None,
            max_header_list_size: None,
        }
    }

    pub fn is_ack(&self) -> (r: bool)
        ensures
            r == self.ack,
    {
        self.ack
    }

    pub fn max_frame_size(&self) -> (r: Option<u32>)
        ensures
            r == self.max_frame_size,
    {
        self.max_frame_size
    }

    pub fn set_initial_window_size(&mut self, size: Option<u32>)
        ensures
            *final(self) == (Settings { initial_window_size: size, ..*old(self) }),
    {
        self.initial_window_size = size;
    }

    pub fn set_max_frame_size(&mut self, size: Option<u32>)
        ensures
            *final(self) == (Settings { max_frame_size: size, ..*old(self) }),
    {
        self.max_frame_size = size;
    }

    pub fn set_max_concurrent_streams(&mut self, max: Option<u32>)
        ensures
            *final(self) == (Settings { max_concurrent_streams: max, ..*old(self) }),
    {
        self.max_concurrent_streams = max;
    }

    pub fn set_enable_push(&mut self, enable: bool)
        ensures
            *final(self) == (Settings {
                enable_push: Some(
                    if enable {
                        1
                    } else {
                        0
                    },
                ),
                ..*old(self)
            }),
    {
        let value: u32 = if enable {
            1
        } else {
            0
        };
        self.enable_push = Some(value);
    }

    pub open spec fn head(self) -> Head {
        Head {
            kind: Kind::Settings,
            flag: if self.ack {
                ACK_FLAG
            } else {
                0
            },
            stream_id: StreamId(0),
        }
    }

    /// The payload of the frame.
    pub open spec fn payload(self) -> Seq<u8> {
        setting(1, self.header_table_size) + setting(2, self.enable_push) + setting(
            3,
            self.max_concurrent_streams,
        ) + setting(4, self.initial_window_size) + setting(5, self.max_frame_size) + setting(
            6,
            self.max_header_list_size,
        )
    }

    /// The frame as it stands on the wire.
    pub open spec fn wire(self) -> Seq<u8> {
        self.head().wire(self.payload().len() as int) + self.payload()
    }

    /// Appends the frame.
    pub fn encode(&self, dst: &mut BytesMut)
        requires
            buffer_contents(*old(dst)).len() + super::HEADER_LEN + 36 <= isize::MAX,
        ensures
            buffer_contents(*final(dst)) == buffer_contents(*old(dst)) + self.wire(),
            made_capacity(*final(dst)) == made_capacity(*old(dst)),
    {
        let flag: u8 = if self.ack {
            ACK_FLAG
        } else {
            0
        };
        let len: usize = setting_len(self.header_table_size) + setting_len(self.enable_push)
            + setting_len(self.max_concurrent_streams) + setting_len(self.initial_window_size)
            + setting_len(self.max_frame_size) + setting_len(self.max_header_list_size);
        let ghost before = buffer_contents(*dst);
        Head::new(Kind::Settings, flag, StreamId::zero()).encode(len, dst);
        let ghost front = buffer_contents(*dst);
        let ghost p1 = setting(1, self.header_table_size);
        let ghost p2 = p1 + setting(2, self.enable_push);
        let ghost p3 = p2 + setting(3, self.max_concurrent_streams);
        let ghost p4 = p3 + setting(4, self.initial_window_size);
        let ghost p5 = p4 + setting(5, self.max_frame_size);
        put_setting(dst, 1, self.header_table_size);
        put_setting(dst, 2, self.enable_push);
        put_setting(dst, 3, self.max_concurrent_streams);
        put_setting(dst, 4, self.initial_window_size);
        put_setting(dst, 5, self.max_frame_size);
        put_setting(dst, 6, self.max_header_list_size);
        proof {
            buf::concat_assoc(front, p1, setting(2, self.enable_push));
            buf::concat_assoc(front, p2, setting(3, self.max_concurrent_streams));
            buf::concat_assoc(front, p3, setting(4, self.initial_window_size));
            buf::concat_assoc(front, p4, setting(5, self.max_frame_size));
            buf::concat_assoc(front, p5, setting(6, self.max_header_list_size));
            buf::concat_assoc(before, self.head().wire(len as int), self.payload());
        }
    }
}

impl Default for Settings {
    /// Nothing mentioned.
    fn default() -> (r: Self)
        ensures
            r == Settings::none(),
    {
        Settings {
            ack: false,
            header_table_size: None,
            enable_push: None,
            max_concurrent_streams: None,
            initial_window_size: None,
            max_frame_size: None,
            max_header_list_size: None,
        }
    }
}

impl From<Settings> for Frame {
    fn from(src: Settings) -> (r: Frame) {
        Frame::Settings(src)
    }
}

impl vstd::std_specs::convert::FromSpecImpl<Settings> for Frame {
    open spec fn obeys_from_spec() -> bool {
        true
    }

    open spec fn from_spec(src: Settings) -> Frame {
        Frame::Settings(src)
    }
}

} // verus!
