//! A client for esbuild, which runs as a child process and is spoken to over its standard input
//! and output.
//!
//! This crate is the part of the client that computes. Starting the process, reading and writing
//! its pipes and waiting for answers is left to the caller.
//!
//! - [`protocol`]: the values, packets and messages, how they are encoded and decoded;
//! - [`stream`]: the packets in the bytes that arrive;
//! - [`client`]: the requests that were sent, and what a packet asks for;
//! - [`plugin`]: the hooks of a plugin;
//! - [`flags`] and [`builder`]: the command-line flags of a build;
//! - [`metafile`]: the description of a build;
//! - [`debug`]: how some of the above is printed.
pub mod builder;
pub mod client;
pub mod debug;
pub mod flags;
pub mod metafile;
pub mod plugin;
pub mod protocol;
pub mod stream;
pub mod text;
pub mod laws;

pub use builder::{EsbuildFlagsBuilder, EsbuildFlagsBuilderError};
pub use client::{can_handle, handle_packet, PacketAction, ProtocolClientInner};
pub use flags::{
    service_argument, BuiltinLoader, EsbuildFlags, Format, Loader, LogLevel, PackagesHandling,
    Platform, Sourcemap,
};
pub use metafile::{
    Metafile, MetafileInput, MetafileInputImport, MetafileOutput, MetafileOutputImport,
    MetafileOutputInput,
};
pub use plugin::{
    NoopPluginHandler, OnEndArgs, OnEndResult, OnLoadArgs, OnLoadResult, OnResolveArgs,
    OnResolveResult, OnStartArgs, OnStartResult,
};
