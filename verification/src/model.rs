//! The parts of a Baichuan message that the camera logic reads and writes.

use vstd::prelude::*;

verus! {

/// Message id of snapshot requests, their replies and their binary chunks.
pub const MSG_ID_SNAP: u32 = 109;

/// Message class of modern messages that carry an offset field.
pub const CLASS_MODERN: u16 = 0x6414;

/// A message, as it leaves the codec or enters it.
#[derive(Debug)]
pub struct Bc {
    /// The header.
    pub meta: BcMeta,
    /// The content.
    pub body: BcBody,
}

/// The header of a message.
#[derive(Debug, Clone, Copy)]
pub struct BcMeta {
    /// What the message is about.
    pub msg_id: u32,
    /// The channel it concerns: 0 unless the camera sits behind an NVR.
    pub channel_id: u8,
    /// The number that ties a reply to its request.
    pub msg_num: u16,
    /// 0 in a request; the outcome in a reply.
    pub response_code: u16,
    /// Which video stream is meant.
    pub stream_type: u8,
    /// The layout of the rest of the message.
    pub class: u16,
}

/// The content of a message.
#[derive(Debug)]
pub enum BcBody {
    /// A login message of the old format; none of its content is looked at.
    LegacyMsg,
    /// Everything else.
    ModernMsg(ModernMsg),
}

/// A message of the current format.
#[derive(Debug)]
pub struct ModernMsg {
    /// Extra header fields, sent as XML ahead of the payload.
    pub extension: Option<Extension>,
    /// The payload.
    pub payload: Option<BcPayloads>,
}

/// The extra header fields that the camera logic uses.
#[derive(Debug, Clone, Copy)]
pub struct Extension {
    /// The channel the payload concerns.
    pub channel_id: Option<u8>,
    /// 1 when the payload is raw binary data.
    pub binary_data: Option<u32>,
}

/// The payload of a modern message.
#[derive(Debug)]
pub enum BcPayloads {
    /// A decoded XML document.
    BcXml(BcXml),
    /// Raw bytes.
    Binary(Vec<u8>),
}

/// The parts of an XML payload that the camera logic uses.
#[derive(Debug)]
pub struct BcXml {
    /// A snapshot request, or the announcement of a snapshot.
    pub snap: Option<Snap>,
}

/// A snapshot request, or the announcement of a snapshot.
#[derive(Debug)]
pub struct Snap {
    /// Version of the XML element.
    pub version: String,
    /// The channel to take the picture from.
    pub channel_id: u8,
    /// The logical channel.
    pub logic_channel: Option<u8>,
    /// When to take it; 0 means now.
    pub time: u32,
    /// Whether a full frame is wanted.
    pub full_frame: Option<u32>,
    /// The stream to take it from.
    pub stream_type: Option<String>,
    /// The name of the picture, in an announcement.
    pub file_name: Option<String>,
    /// The size of the picture in bytes, in an announcement.
    pub picture_size: Option<u32>,
}

} // verus!
