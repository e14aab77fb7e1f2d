//! The protocol that esbuild speaks: dynamically typed values, packets that hold them, and
//! messages with fixed types.
//!
//! - [`value`]: the values;
//! - [`wire`] and [`encode`]: their encoding, read and written;
//! - [`messages`]: the requests, responses and their parts;
//! - [`convert`] and [`encoders`]: the messages that values stand for, and the values that are
//!   sent for messages;
//! - [`fields`], [`readback`] and [`roundtrip`]: what holds of writing and then reading;
//! - [`maps`]: the ordered maps inside messages;
//! - [`error`] and [`printed`]: the errors and their texts.
pub mod convert;
pub mod encode;
pub mod encoders;
pub mod error;
pub mod fields;
pub mod maps;
pub mod messages;
pub mod printed;
pub mod readback;
pub mod roundtrip;
pub mod value;
pub mod wire;

pub use convert::{FromAnyValue, FromMap, MessageFromAnyValue};
pub use encode::{encode_key, encode_length_delimited, encode_u32_raw, Encode};
pub use error::ProtocolError;
pub use messages::{
    AnalyzeMetafileRequest, AnalyzeMetafileResponse, AnyRequest, AnyResponse, BuildOutputFile,
    BuildPlugin, BuildRequest, BuildResponse, CancelRequest, DisposeRequest, FormatMsgsRequest,
    FormatMsgsResponse, ImportKind, Location, MangleCacheEntry, Message, Note, OnEndRequest,
    OnEndResponse, OnLoadRequest, OnLoadResponse, OnLoadSetupOptions, OnResolveRequest,
    OnResolveResponse, OnResolveSetupOptions, OnServeRequest, OnStartRequest, OnStartResponse,
    OptionNull, Packet, PartialMessage, PingRequest, PingResponse, ProtocolMessage,
    ProtocolPacket, RebuildRequest, RebuildResponse, RequestKind, ResolveRequest,
    ResolveResponse, ServeOnRequestArgs, ServeRequest, ServeResponse, TransformRequest,
    TransformResponse, WatchRequest,
};
pub use value::{AnyValue, ValueMap};
pub use wire::{decode_any_packet, try_decode_any_packet, AnyPacket, Buf, Decode};
