//! What is sent for the requests, responses and messages of the protocol.
//!
//! A request is sent as a map that names its command and then holds its fields; anything else is
//! sent as the map of its fields. The keys are the names of the fields in camel case. A field
//! that is absent is left out.
use crate::protocol::encode;
use crate::protocol::encode::{Encode, Fields};
use crate::protocol::messages::{
    AnalyzeMetafileRequest, AnyRequest, AnyResponse, BuildOutputFile, BuildPlugin, BuildRequest,
    CancelRequest, DisposeRequest, FormatMsgsRequest, Location, Message, Note, OnEndRequest,
    OnEndResponse, OnLoadRequest, OnLoadResponse, OnLoadSetupOptions, OnResolveResponse,
    OnResolveSetupOptions, OnServeRequest, OnStartRequest, OnStartResponse, PartialMessage,
    PingRequest, PingResponse, ProtocolMessage, ProtocolPacket, RebuildRequest, RebuildResponse,
    ResolveRequest, ServeOnRequestArgs, ServeRequest, TransformRequest, WatchRequest,
};
use crate::protocol::value;
use crate::protocol::value::Value;
use crate::protocol::wire::PacketModel;
use vstd::prelude::*;

verus! {

impl Message {
    /// The fields that are sent.
    pub open spec fn fields(&self) -> Seq<(Seq<char>, Value)> {
        let fields = Seq::empty();
        let fields = encode::with_field(fields, "id"@, Some(self.id.wire()));
        let fields = encode::with_field(fields, "pluginName"@, Some(self.plugin_name.wire()));
        let fields = encode::with_field(fields, "text"@, Some(self.text.wire()));
        let fields = encode::with_field(fields, "location"@, encode::wire_if_some(self.location));
        let fields = encode::with_field(fields, "notes"@, Some(self.notes.wire()));
        let fields = encode::with_field(fields, "detail"@, encode::wire_if_some(self.detail));
        fields
    }
}

impl Encode for Message {
    open spec fn wire(&self) -> Value {
        Value::Dict(self.fields())
    }

    fn encode_into(&self, buf: &mut Vec<u8>) {
        let mut fields = Fields::new();
        fields.field("id", &self.id);
        fields.field("pluginName", &self.plugin_name);
        fields.field("text", &self.text);
        fields.optional("location", &self.location);
        fields.field("notes", &self.notes);
        fields.optional("detail", &self.detail);
        proof {
            self.lemma_fields();
        }
        fields.finish(buf);
    }
}

impl Note {
    /// The fields that are sent.
    pub open spec fn fields(&self) -> Seq<(Seq<char>, Value)> {
        let fields = Seq::empty();
        let fields = encode::with_field(fields, "text"@, Some(self.text.wire()));
        let fields = encode::with_field(fields, "location"@, encode::wire_if_some(self.location));
        fields
    }
}

impl Encode for Note {
    open spec fn wire(&self) -> Value {
        Value::Dict(self.fields())
    }

    fn encode_into(&self, buf: &mut Vec<u8>) {
        let mut fields = Fields::new();
        fields.field("text", &self.text);
        fields.optional("location", &self.location);
        proof {
            self.lemma_fields();
        }
        fields.finish(buf);
    }
}

impl Location {
    /// The fields that are sent.
    pub open spec fn fields(&self) -> Seq<(Seq<char>, Value)> {
        let fields = Seq::empty();
        let fields = encode::with_field(fields, "file"@, Some(self.file.wire()));
        let fields = encode::with_field(fields, "namespace"@, Some(self.namespace.wire()));
        let fields = encode::with_field(fields, "line"@, Some(self.line.wire()));
        let fields = encode::with_field(fields, "column"@, Some(self.column.wire()));
        let fields = encode::with_field(fields, "length"@, Some(self.length.wire()));
        let fields = encode::with_field(fields, "lineText"@, Some(self.line_text.wire()));
        let fields = encode::with_field(fields, "suggestion"@, Some(self.suggestion.wire()));
        fields
    }
}

impl Encode for Location {
    open spec fn wire(&self) -> Value {
        Value::Dict(self.fields())
    }

    fn encode_into(&self, buf: &mut Vec<u8>) {
        let mut fields = Fields::new();
        fields.field("file", &self.file);
        fields.field("namespace", &self.namespace);
        fields.field("line", &self.line);
        fields.field("column", &self.column);
        fields.field("length", &self.length);
        fields.field("lineText", &self.line_text);
        fields.field("suggestion", &self.suggestion);
        proof {
            self.lemma_fields();
        }
        fields.finish(buf);
    }
}

impl PartialMessage {
    /// The fields that are sent.
    pub open spec fn fields(&self) -> Seq<(Seq<char>, Value)> {
        let fields = Seq::empty();
        let fields = encode::with_field(fields, "id"@, Some(self.id.wire()));
        let fields = encode::with_field(fields, "pluginName"@, Some(self.plugin_name.wire()));
        let fields = encode::with_field(fields, "text"@, Some(self.text.wire()));
        let fields = encode::with_field(fields, "location"@, encode::wire_if_some(self.location));
        let fields = encode::with_field(fields, "notes"@, Some(self.notes.wire()));
        let fields = encode::with_field(fields, "detail"@, Some(self.detail.wire()));
        fields
    }
}

impl Encode for PartialMessage {
    open spec fn wire(&self) -> Value {
        Value::Dict(self.fields())
    }

    fn encode_into(&self, buf: &mut Vec<u8>) {
        let mut fields = Fields::new();
        fields.field("id", &self.id);
        fields.field("pluginName", &self.plugin_name);
        fields.field("text", &self.text);
        fields.optional("location", &self.location);
        fields.field("notes", &self.notes);
        fields.field("detail", &self.detail);
        proof {
            self.lemma_fields();
        }
        fields.finish(buf);
    }
}

impl ServeOnRequestArgs {
    /// The fields that are sent.
    pub open spec fn fields(&self) -> Seq<(Seq<char>, Value)> {
        let fields = Seq::empty();
        let fields = encode::with_field(fields, "remoteAddress"@, Some(self.remote_address.wire()));
        let fields = encode::with_field(fields, "method"@, Some(self.method.wire()));
        let fields = encode::with_field(fields, "path"@, Some(self.path.wire()));
        let fields = encode::with_field(fields, "status"@, Some(self.status.wire()));
        let fields = encode::with_field(fields, "timeInMs"@, Some(self.time_in_ms.wire()));
        fields
    }
}

impl Encode for ServeOnRequestArgs {
    open spec fn wire(&self) -> Value {
        Value::Dict(self.fields())
    }

    fn encode_into(&self, buf: &mut Vec<u8>) {
        let mut fields = Fields::new();
        fields.field("remoteAddress", &self.remote_address);
        fields.field("method", &self.method);
        fields.field("path", &self.path);
        fields.field("status", &self.status);
        fields.field("timeInMs", &self.time_in_ms);
        proof {
            self.lemma_fields();
        }
        fields.finish(buf);
    }
}

impl ServeRequest {
    /// The fields that are sent.
    pub open spec fn fields(&self) -> Seq<(Seq<char>, Value)> {
        let fields = Seq::empty();
        let fields = encode::with_field(fields, "command"@, Some("serve".wire()));
        let fields = encode::with_field(fields, "key"@, Some(self.key.wire()));
        let fields = encode::with_field(fields, "onRequest"@, Some(self.on_request.wire()));
        let fields = encode::with_field(fields, "port"@, encode::wire_if_some(self.port));
        let fields = encode::with_field(fields, "host"@, encode::wire_if_some(self.host));
        let fields = encode::with_field(fields, "servedir"@, encode::wire_if_some(self.servedir));
        let fields = encode::with_field(fields, "keyfile"@, encode::wire_if_some(self.keyfile));
        let fields = encode::with_field(fields, "certfile"@, encode::wire_if_some(self.certfile));
        let fields = encode::with_field(fields, "fallback"@, encode::wire_if_some(self.fallback));
        let fields = encode::with_field(
            fields,
            "corsOrigin"@,
            encode::wire_if_some(self.cors_origin),
        );
        fields
    }
}

impl Encode for ServeRequest {
    open spec fn wire(&self) -> Value {
        Value::Dict(self.fields())
    }

    fn encode_into(&self, buf: &mut Vec<u8>) {
        let mut fields = Fields::new();
        fields.field("command", "serve");
        fields.field("key", &self.key);
        fields.field("onRequest", &self.on_request);
        fields.optional("port", &self.port);
        fields.optional("host", &self.host);
        fields.optional("servedir", &self.servedir);
        fields.optional("keyfile", &self.keyfile);
        fields.optional("certfile", &self.certfile);
        fields.optional("fallback", &self.fallback);
        fields.optional("corsOrigin", &self.cors_origin);
        proof {
            self.lemma_fields();
        }
        fields.finish(buf);
    }
}

impl BuildPlugin {
    /// The fields that are sent.
    pub open spec fn fields(&self) -> Seq<(Seq<char>, Value)> {
        let fields = Seq::empty();
        let fields = encode::with_field(fields, "name"@, Some(self.name.wire()));
        let fields = encode::with_field(fields, "onStart"@, Some(self.on_start.wire()));
        let fields = encode::with_field(fields, "onEnd"@, Some(self.on_end.wire()));
        let fields = encode::with_field(fields, "onResolve"@, Some(self.on_resolve.wire()));
        let fields = encode::with_field(fields, "onLoad"@, Some(self.on_load.wire()));
        fields
    }
}

impl Encode for BuildPlugin {
    open spec fn wire(&self) -> Value {
        Value::Dict(self.fields())
    }

    fn encode_into(&self, buf: &mut Vec<u8>) {
        let mut fields = Fields::new();
        fields.field("name", &self.name);
        fields.field("onStart", &self.on_start);
        fields.field("onEnd", &self.on_end);
        fields.field("onResolve", &self.on_resolve);
        fields.field("onLoad", &self.on_load);
        proof {
            self.lemma_fields();
        }
        fields.finish(buf);
    }
}

impl OnResolveSetupOptions {
    /// The fields that are sent.
    pub open spec fn fields(&self) -> Seq<(Seq<char>, Value)> {
        let fields = Seq::empty();
        let fields = encode::with_field(fields, "id"@, Some(self.id.wire()));
        let fields = encode::with_field(fields, "filter"@, Some(self.filter.wire()));
        let fields = encode::with_field(fields, "namespace"@, Some(self.namespace.wire()));
        fields
    }
}

impl Encode for OnResolveSetupOptions {
    open spec fn wire(&self) -> Value {
        Value::Dict(self.fields())
    }

    fn encode_into(&self, buf: &mut Vec<u8>) {
        let mut fields = Fields::new();
        fields.field("id", &self.id);
        fields.field("filter", &self.filter);
        fields.field("namespace", &self.namespace);
        proof {
            self.lemma_fields();
        }
        fields.finish(buf);
    }
}

impl OnLoadSetupOptions {
    /// The fields that are sent.
    pub open spec fn fields(&self) -> Seq<(Seq<char>, Value)> {
        let fields = Seq::empty();
        let fields = encode::with_field(fields, "id"@, Some(self.id.wire()));
        let fields = encode::with_field(fields, "filter"@, Some(self.filter.wire()));
        let fields = encode::with_field(fields, "namespace"@, Some(self.namespace.wire()));
        fields
    }
}

impl Encode for OnLoadSetupOptions {
    open spec fn wire(&self) -> Value {
        Value::Dict(self.fields())
    }

    fn encode_into(&self, buf: &mut Vec<u8>) {
        let mut fields = Fields::new();
        fields.field("id", &self.id);
        fields.field("filter", &self.filter);
        fields.field("namespace", &self.namespace);
        proof {
            self.lemma_fields();
        }
        fields.finish(buf);
    }
}

impl BuildRequest {
    /// The fields that are sent.
    pub open spec fn fields(&self) -> Seq<(Seq<char>, Value)> {
        let fields = Seq::empty();
        let fields = encode::with_field(fields, "command"@, Some("build".wire()));
        let fields = encode::with_field(fields, "key"@, Some(self.key.wire()));
        let fields = encode::with_field(fields, "entries"@, Some(self.entries.wire()));
        let fields = encode::with_field(fields, "flags"@, Some(self.flags.wire()));
        let fields = encode::with_field(fields, "write"@, Some(self.write.wire()));
        let fields = encode::with_field(fields, "stdinContents"@, Some(self.stdin_contents.wire()));
        let fields = encode::with_field(
            fields,
            "stdinResolveDir"@,
            Some(self.stdin_resolve_dir.wire()),
        );
        let fields = encode::with_field(
            fields,
            "absWorkingDir"@,
            Some(self.abs_working_dir.wire()),
        );
        let fields = encode::with_field(fields, "nodePaths"@, Some(self.node_paths.wire()));
        let fields = encode::with_field(fields, "context"@, Some(self.context.wire()));
        let fields = encode::with_field(fields, "plugins"@, encode::wire_if_some(self.plugins));
        let fields = encode::with_field(
            fields,
            "mangleCache"@,
            encode::wire_if_some(self.mangle_cache),
        );
        fields
    }
}

impl Encode for BuildRequest {
    open spec fn wire(&self) -> Value {
        Value::Dict(self.fields())
    }

    fn encode_into(&self, buf: &mut Vec<u8>) {
        let mut fields = Fields::new();
        fields.field("command", "build");
        fields.field("key", &self.key);
        fields.field("entries", &self.entries);
        fields.field("flags", &self.flags);
        fields.field("write", &self.write);
        fields.field("stdinContents", &self.stdin_contents);
        fields.field("stdinResolveDir", &self.stdin_resolve_dir);
        fields.field("absWorkingDir", &self.abs_working_dir);
        fields.field("nodePaths", &self.node_paths);
        fields.field("context", &self.context);
        fields.optional("plugins", &self.plugins);
        fields.optional("mangleCache", &self.mangle_cache);
        proof {
            self.lemma_fields();
        }
        fields.finish(buf);
    }
}

impl OnEndRequest {
    /// The fields that are sent.
    pub open spec fn fields(&self) -> Seq<(Seq<char>, Value)> {
        let fields = Seq::empty();
        let fields = encode::with_field(fields, "errors"@, Some(self.errors.wire()));
        let fields = encode::with_field(fields, "warnings"@, Some(self.warnings.wire()));
        let fields = encode::with_field(
            fields,
            "outputFiles"@,
            encode::wire_if_some(self.output_files),
        );
        let fields = encode::with_field(fields, "metafile"@, encode::wire_if_some(self.metafile));
        let fields = encode::with_field(
            fields,
            "mangleCache"@,
            encode::wire_if_some(self.mangle_cache),
        );
        let fields = encode::with_field(
            fields,
            "writeToStdout"@,
            encode::wire_if_some(self.write_to_stdout),
        );
        fields
    }
}

impl Encode for OnEndRequest {
    open spec fn wire(&self) -> Value {
        Value::Dict(self.fields())
    }

    fn encode_into(&self, buf: &mut Vec<u8>) {
        let mut fields = Fields::new();
        fields.field("errors", &self.errors);
        fields.field("warnings", &self.warnings);
        fields.optional("outputFiles", &self.output_files);
        fields.optional("metafile", &self.metafile);
        fields.optional("mangleCache", &self.mangle_cache);
        fields.optional("writeToStdout", &self.write_to_stdout);
        proof {
            self.lemma_fields();
        }
        fields.finish(buf);
    }
}

impl OnEndResponse {
    /// The fields that are sent.
    pub open spec fn fields(&self) -> Seq<(Seq<char>, Value)> {
        let fields = Seq::empty();
        let fields = encode::with_field(fields, "errors"@, Some(self.errors.wire()));
        let fields = encode::with_field(fields, "warnings"@, Some(self.warnings.wire()));
        fields
    }
}

impl Encode for OnEndResponse {
    open spec fn wire(&self) -> Value {
        Value::Dict(self.fields())
    }

    fn encode_into(&self, buf: &mut Vec<u8>) {
        let mut fields = Fields::new();
        fields.field("errors", &self.errors);
        fields.field("warnings", &self.warnings);
        proof {
            self.lemma_fields();
        }
        fields.finish(buf);
    }
}

impl BuildOutputFile {
    /// The fields that are sent.
    pub open spec fn fields(&self) -> Seq<(Seq<char>, Value)> {
        let fields = Seq::empty();
        let fields = encode::with_field(fields, "path"@, Some(self.path.wire()));
        let fields = encode::with_field(fields, "contents"@, Some(self.contents.wire()));
        let fields = encode::with_field(fields, "hash"@, Some(self.hash.wire()));
        fields
    }
}

impl Encode for BuildOutputFile {
    open spec fn wire(&self) -> Value {
        Value::Dict(self.fields())
    }

    fn encode_into(&self, buf: &mut Vec<u8>) {
        let mut fields = Fields::new();
        fields.field("path", &self.path);
        fields.field("contents", &self.contents);
        fields.field("hash", &self.hash);
        proof {
            self.lemma_fields();
        }
        fields.finish(buf);
    }
}

impl PingRequest {
    /// The fields that are sent.
    pub open spec fn fields(&self) -> Seq<(Seq<char>, Value)> {
        let fields = Seq::empty();
        let fields = encode::with_field(fields, "command"@, Some("ping".wire()));
        fields
    }
}

impl Encode for PingRequest {
    open spec fn wire(&self) -> Value {
        Value::Dict(self.fields())
    }

    fn encode_into(&self, buf: &mut Vec<u8>) {
        let mut fields = Fields::new();
        fields.field("command", "ping");
        proof {
            self.lemma_fields();
        }
        fields.finish(buf);
    }
}

impl RebuildRequest {
    /// The fields that are sent.
    pub open spec fn fields(&self) -> Seq<(Seq<char>, Value)> {
        let fields = Seq::empty();
        let fields = encode::with_field(fields, "command"@, Some("rebuild".wire()));
        let fields = encode::with_field(fields, "key"@, Some(self.key.wire()));
        fields
    }
}

impl Encode for RebuildRequest {
    open spec fn wire(&self) -> Value {
        Value::Dict(self.fields())
    }

    fn encode_into(&self, buf: &mut Vec<u8>) {
        let mut fields = Fields::new();
        fields.field("command", "rebuild");
        fields.field("key", &self.key);
        proof {
            self.lemma_fields();
        }
        fields.finish(buf);
    }
}

impl RebuildResponse {
    /// The fields that are sent.
    pub open spec fn fields(&self) -> Seq<(Seq<char>, Value)> {
        let fields = Seq::empty();
        let fields = encode::with_field(fields, "errors"@, Some(self.errors.wire()));
        let fields = encode::with_field(fields, "warnings"@, Some(self.warnings.wire()));
        fields
    }
}

impl Encode for RebuildResponse {
    open spec fn wire(&self) -> Value {
        Value::Dict(self.fields())
    }

    fn encode_into(&self, buf: &mut Vec<u8>) {
        let mut fields = Fields::new();
        fields.field("errors", &self.errors);
        fields.field("warnings", &self.warnings);
        proof {
            self.lemma_fields();
        }
        fields.finish(buf);
    }
}

impl DisposeRequest {
    /// The fields that are sent.
    pub open spec fn fields(&self) -> Seq<(Seq<char>, Value)> {
        let fields = Seq::empty();
        let fields = encode::with_field(fields, "command"@, Some("dispose".wire()));
        let fields = encode::with_field(fields, "key"@, Some(self.key.wire()));
        fields
    }
}

impl Encode for DisposeRequest {
    open spec fn wire(&self) -> Value {
        Value::Dict(self.fields())
    }

    fn encode_into(&self, buf: &mut Vec<u8>) {
        let mut fields = Fields::new();
        fields.field("command", "dispose");
        fields.field("key", &self.key);
        proof {
            self.lemma_fields();
        }
        fields.finish(buf);
    }
}

impl CancelRequest {
    /// The fields that are sent.
    pub open spec fn fields(&self) -> Seq<(Seq<char>, Value)> {
        let fields = Seq::empty();
        let fields = encode::with_field(fields, "command"@, Some("cancel".wire()));
        let fields = encode::with_field(fields, "key"@, Some(self.key.wire()));
        fields
    }
}

impl Encode for CancelRequest {
    open spec fn wire(&self) -> Value {
        Value::Dict(self.fields())
    }

    fn encode_into(&self, buf: &mut Vec<u8>) {
        let mut fields = Fields::new();
        fields.field("command", "cancel");
        fields.field("key", &self.key);
        proof {
            self.lemma_fields();
        }
        fields.finish(buf);
    }
}

impl WatchRequest {
    /// The fields that are sent.
    pub open spec fn fields(&self) -> Seq<(Seq<char>, Value)> {
        let fields = Seq::empty();
        let fields = encode::with_field(fields, "command"@, Some("watch".wire()));
        let fields = encode::with_field(fields, "key"@, Some(self.key.wire()));
        fields
    }
}

impl Encode for WatchRequest {
    open spec fn wire(&self) -> Value {
        Value::Dict(self.fields())
    }

    fn encode_into(&self, buf: &mut Vec<u8>) {
        let mut fields = Fields::new();
        fields.field("command", "watch");
        fields.field("key", &self.key);
        proof {
            self.lemma_fields();
        }
        fields.finish(buf);
    }
}

impl OnServeRequest {
    /// The fields that are sent.
    pub open spec fn fields(&self) -> Seq<(Seq<char>, Value)> {
        let fields = Seq::empty();
        let fields = encode::with_field(fields, "command"@, Some("serve-request".wire()));
        let fields = encode::with_field(fields, "key"@, Some(self.key.wire()));
        let fields = encode::with_field(fields, "args"@, Some(self.args.wire()));
        fields
    }
}

impl Encode for OnServeRequest {
    open spec fn wire(&self) -> Value {
        Value::Dict(self.fields())
    }

    fn encode_into(&self, buf: &mut Vec<u8>) {
        let mut fields = Fields::new();
        fields.field("command", "serve-request");
        fields.field("key", &self.key);
        fields.field("args", &self.args);
        proof {
            self.lemma_fields();
        }
        fields.finish(buf);
    }
}

impl TransformRequest {
    /// The fields that are sent.
    pub open spec fn fields(&self) -> Seq<(Seq<char>, Value)> {
        let fields = Seq::empty();
        let fields = encode::with_field(fields, "command"@, Some("transform".wire()));
        let fields = encode::with_field(fields, "flags"@, Some(self.flags.wire()));
        let fields = encode::with_field(fields, "input"@, Some(self.input.wire()));
        let fields = encode::with_field(fields, "inputFs"@, Some(self.input_fs.wire()));
        let fields = encode::with_field(
            fields,
            "mangleCache"@,
            encode::wire_if_some(self.mangle_cache),
        );
        fields
    }
}

impl Encode for TransformRequest {
    open spec fn wire(&self) -> Value {
        Value::Dict(self.fields())
    }

    fn encode_into(&self, buf: &mut Vec<u8>) {
        let mut fields = Fields::new();
        fields.field("command", "transform");
        fields.field("flags", &self.flags);
        fields.field("input", &self.input);
        fields.field("inputFs", &self.input_fs);
        fields.optional("mangleCache", &self.mangle_cache);
        proof {
            self.lemma_fields();
        }
        fields.finish(buf);
    }
}

impl FormatMsgsRequest {
    /// The fields that are sent.
    pub open spec fn fields(&self) -> Seq<(Seq<char>, Value)> {
        let fields = Seq::empty();
        let fields = encode::with_field(fields, "command"@, Some("format-msgs".wire()));
        let fields = encode::with_field(fields, "messages"@, Some(self.messages.wire()));
        let fields = encode::with_field(fields, "isWarning"@, Some(self.is_warning.wire()));
        let fields = encode::with_field(fields, "color"@, encode::wire_if_some(self.color));
        let fields = encode::with_field(
            fields,
            "terminalWidth"@,
            encode::wire_if_some(self.terminal_width),
        );
        fields
    }
}

impl Encode for FormatMsgsRequest {
    open spec fn wire(&self) -> Value {
        Value::Dict(self.fields())
    }

    fn encode_into(&self, buf: &mut Vec<u8>) {
        let mut fields = Fields::new();
        fields.field("command", "format-msgs");
        fields.field("messages", &self.messages);
        fields.field("isWarning", &self.is_warning);
        fields.optional("color", &self.color);
        fields.optional("terminalWidth", &self.terminal_width);
        proof {
            self.lemma_fields();
        }
        fields.finish(buf);
    }
}

impl AnalyzeMetafileRequest {
    /// The fields that are sent.
    pub open spec fn fields(&self) -> Seq<(Seq<char>, Value)> {
        let fields = Seq::empty();
        let fields = encode::with_field(fields, "command"@, Some("analyze-metafile".wire()));
        let fields = encode::with_field(fields, "metafile"@, Some(self.metafile.wire()));
        let fields = encode::with_field(fields, "color"@, encode::wire_if_some(self.color));
        let fields = encode::with_field(fields, "verbose"@, encode::wire_if_some(self.verbose));
        fields
    }
}

impl Encode for AnalyzeMetafileRequest {
    open spec fn wire(&self) -> Value {
        Value::Dict(self.fields())
    }

    fn encode_into(&self, buf: &mut Vec<u8>) {
        let mut fields = Fields::new();
        fields.field("command", "analyze-metafile");
        fields.field("metafile", &self.metafile);
        fields.optional("color", &self.color);
        fields.optional("verbose", &self.verbose);
        proof {
            self.lemma_fields();
        }
        fields.finish(buf);
    }
}

impl OnStartRequest {
    /// The fields that are sent.
    pub open spec fn fields(&self) -> Seq<(Seq<char>, Value)> {
        let fields = Seq::empty();
        let fields = encode::with_field(fields, "command"@, Some("on-start".wire()));
        let fields = encode::with_field(fields, "key"@, Some(self.key.wire()));
        fields
    }
}

impl Encode for OnStartRequest {
    open spec fn wire(&self) -> Value {
        Value::Dict(self.fields())
    }

    fn encode_into(&self, buf: &mut Vec<u8>) {
        let mut fields = Fields::new();
        fields.field("command", "on-start");
        fields.field("key", &self.key);
        proof {
            self.lemma_fields();
        }
        fields.finish(buf);
    }
}

impl OnStartResponse {
    /// The fields that are sent.
    pub open spec fn fields(&self) -> Seq<(Seq<char>, Value)> {
        let fields = Seq::empty();
        let fields = encode::with_field(fields, "errors"@, Some(self.errors.wire()));
        let fields = encode::with_field(fields, "warnings"@, Some(self.warnings.wire()));
        fields
    }
}

impl Encode for OnStartResponse {
    open spec fn wire(&self) -> Value {
        Value::Dict(self.fields())
    }

    fn encode_into(&self, buf: &mut Vec<u8>) {
        let mut fields = Fields::new();
        fields.field("errors", &self.errors);
        fields.field("warnings", &self.warnings);
        proof {
            self.lemma_fields();
        }
        fields.finish(buf);
    }
}

impl ResolveRequest {
    /// The fields that are sent.
    pub open spec fn fields(&self) -> Seq<(Seq<char>, Value)> {
        let fields = Seq::empty();
        let fields = encode::with_field(fields, "command"@, Some("resolve".wire()));
        let fields = encode::with_field(fields, "key"@, Some(self.key.wire()));
        let fields = encode::with_field(fields, "path"@, Some(self.path.wire()));
        let fields = encode::with_field(fields, "pluginName"@, Some(self.plugin_name.wire()));
        let fields = encode::with_field(fields, "importer"@, encode::wire_if_some(self.importer));
        let fields = encode::with_field(fields, "namespace"@, encode::wire_if_some(self.namespace));
        let fields = encode::with_field(
            fields,
            "resolveDir"@,
            encode::wire_if_some(self.resolve_dir),
        );
        let fields = encode::with_field(fields, "kind"@, encode::wire_if_some(self.kind));
        let fields = encode::with_field(
            fields,
            "pluginData"@,
            encode::wire_if_some(self.plugin_data),
        );
        let fields = encode::with_field(fields, "with"@, encode::wire_if_some(self.with));
        fields
    }
}

impl Encode for ResolveRequest {
    open spec fn wire(&self) -> Value {
        Value::Dict(self.fields())
    }

    fn encode_into(&self, buf: &mut Vec<u8>) {
        let mut fields = Fields::new();
        fields.field("command", "resolve");
        fields.field("key", &self.key);
        fields.field("path", &self.path);
        fields.field("pluginName", &self.plugin_name);
        fields.optional("importer", &self.importer);
        fields.optional("namespace", &self.namespace);
        fields.optional("resolveDir", &self.resolve_dir);
        fields.optional("kind", &self.kind);
        fields.optional("pluginData", &self.plugin_data);
        fields.optional("with", &self.with);
        proof {
            self.lemma_fields();
        }
        fields.finish(buf);
    }
}

impl OnResolveResponse {
    /// The fields that are sent.
    pub open spec fn fields(&self) -> Seq<(Seq<char>, Value)> {
        let fields = Seq::empty();
        let fields = encode::with_field(fields, "id"@, encode::wire_if_some(self.id));
        let fields = encode::with_field(
            fields,
            "pluginName"@,
            encode::wire_if_some(self.plugin_name),
        );
        let fields = encode::with_field(fields, "errors"@, encode::wire_if_some(self.errors));
        let fields = encode::with_field(fields, "warnings"@, encode::wire_if_some(self.warnings));
        let fields = encode::with_field(fields, "path"@, encode::wire_if_some(self.path));
        let fields = encode::with_field(fields, "external"@, encode::wire_if_some(self.external));
        let fields = encode::with_field(
            fields,
            "sideEffects"@,
            encode::wire_if_some(self.side_effects),
        );
        let fields = encode::with_field(fields, "namespace"@, encode::wire_if_some(self.namespace));
        let fields = encode::with_field(fields, "suffix"@, encode::wire_if_some(self.suffix));
        let fields = encode::with_field(
            fields,
            "pluginData"@,
            encode::wire_if_some(self.plugin_data),
        );
        let fields = encode::with_field(
            fields,
            "watchFiles"@,
            encode::wire_if_some(self.watch_files),
        );
        let fields = encode::with_field(
            fields,
            "watchDirs"@,
            encode::wire_if_some(self.watch_dirs),
        );
        fields
    }
}

impl Encode for OnResolveResponse {
    open spec fn wire(&self) -> Value {
        Value::Dict(self.fields())
    }

    fn encode_into(&self, buf: &mut Vec<u8>) {
        let mut fields = Fields::new();
        fields.optional("id", &self.id);
        fields.optional("pluginName", &self.plugin_name);
        fields.optional("errors", &self.errors);
        fields.optional("warnings", &self.warnings);
        fields.optional("path", &self.path);
        fields.optional("external", &self.external);
        fields.optional("sideEffects", &self.side_effects);
        fields.optional("namespace", &self.namespace);
        fields.optional("suffix", &self.suffix);
        fields.optional("pluginData", &self.plugin_data);
        fields.optional("watchFiles", &self.watch_files);
        fields.optional("watchDirs", &self.watch_dirs);
        proof {
            self.lemma_fields();
        }
        fields.finish(buf);
    }
}

impl OnLoadRequest {
    /// The fields that are sent.
    pub open spec fn fields(&self) -> Seq<(Seq<char>, Value)> {
        let fields = Seq::empty();
        let fields = encode::with_field(fields, "command"@, Some("on-load".wire()));
        let fields = encode::with_field(fields, "key"@, Some(self.key.wire()));
        let fields = encode::with_field(fields, "ids"@, Some(self.ids.wire()));
        let fields = encode::with_field(fields, "path"@, Some(self.path.wire()));
        let fields = encode::with_field(fields, "namespace"@, Some(self.namespace.wire()));
        let fields = encode::with_field(fields, "suffix"@, Some(self.suffix.wire()));
        let fields = encode::with_field(
            fields,
            "pluginData"@,
            encode::wire_if_some(self.plugin_data),
        );
        let fields = encode::with_field(fields, "with"@, Some(self.with.wire()));
        fields
    }
}

impl Encode for OnLoadRequest {
    open spec fn wire(&self) -> Value {
        Value::Dict(self.fields())
    }

    fn encode_into(&self, buf: &mut Vec<u8>) {
        let mut fields = Fields::new();
        fields.field("command", "on-load");
        fields.field("key", &self.key);
        fields.field("ids", &self.ids);
        fields.field("path", &self.path);
        fields.field("namespace", &self.namespace);
        fields.field("suffix", &self.suffix);
        fields.optional("pluginData", &self.plugin_data);
        fields.field("with", &self.with);
        proof {
            self.lemma_fields();
        }
        fields.finish(buf);
    }
}

impl OnLoadResponse {
    /// The fields that are sent.
    pub open spec fn fields(&self) -> Seq<(Seq<char>, Value)> {
        let fields = Seq::empty();
        let fields = encode::with_field(fields, "id"@, encode::wire_if_some(self.id));
        let fields = encode::with_field(
            fields,
            "pluginName"@,
            encode::wire_if_some(self.plugin_name),
        );
        let fields = encode::with_field(fields, "errors"@, encode::wire_if_some(self.errors));
        let fields = encode::with_field(fields, "warnings"@, encode::wire_if_some(self.warnings));
        let fields = encode::with_field(fields, "contents"@, encode::wire_if_some(self.contents));
        let fields = encode::with_field(
            fields,
            "resolveDir"@,
            encode::wire_if_some(self.resolve_dir),
        );
        let fields = encode::with_field(fields, "loader"@, encode::wire_if_some(self.loader));
        let fields = encode::with_field(
            fields,
            "pluginData"@,
            encode::wire_if_some(self.plugin_data),
        );
        let fields = encode::with_field(
            fields,
            "watchFiles"@,
            encode::wire_if_some(self.watch_files),
        );
        let fields = encode::with_field(
            fields,
            "watchDirs"@,
            encode::wire_if_some(self.watch_dirs),
        );
        fields
    }
}

impl Encode for OnLoadResponse {
    open spec fn wire(&self) -> Value {
        Value::Dict(self.fields())
    }

    fn encode_into(&self, buf: &mut Vec<u8>) {
        let mut fields = Fields::new();
        fields.optional("id", &self.id);
        fields.optional("pluginName", &self.plugin_name);
        fields.optional("errors", &self.errors);
        fields.optional("warnings", &self.warnings);
        fields.optional("contents", &self.contents);
        fields.optional("resolveDir", &self.resolve_dir);
        fields.optional("loader", &self.loader);
        fields.optional("pluginData", &self.plugin_data);
        fields.optional("watchFiles", &self.watch_files);
        fields.optional("watchDirs", &self.watch_dirs);
        proof {
            self.lemma_fields();
        }
        fields.finish(buf);
    }
}

impl PingResponse {
    /// The fields that are sent.
    pub open spec fn fields(&self) -> Seq<(Seq<char>, Value)> {
        let fields = Seq::empty();
        fields
    }
}

impl Encode for PingResponse {
    open spec fn wire(&self) -> Value {
        Value::Dict(self.fields())
    }

    fn encode_into(&self, buf: &mut Vec<u8>) {
        let fields = Fields::new();
        proof {
            self.lemma_fields();
        }
        fields.finish(buf);
    }
}

impl Encode for AnyRequest {
    open spec fn wire(&self) -> Value {
        match *self {
            AnyRequest::Build(request) => request.wire(),
            AnyRequest::Rebuild(request) => request.wire(),
            AnyRequest::Dispose(request) => request.wire(),
            AnyRequest::Cancel(request) => request.wire(),
        }
    }

    fn encode_into(&self, buf: &mut Vec<u8>) {
        match self {
            AnyRequest::Build(request) => request.encode_into(buf),
            AnyRequest::Rebuild(request) => request.encode_into(buf),
            AnyRequest::Dispose(request) => request.encode_into(buf),
            AnyRequest::Cancel(request) => request.encode_into(buf),
        }
    }
}

impl AnyResponse {
    /// Whether this is a response that is sent and not only received.
    pub fn can_encode(&self) -> (r: bool)
        ensures
            r == self.encodable(),
    {
        match self {
            AnyResponse::OnEnd(_) => true,
            AnyResponse::Rebuild(_) => true,
            AnyResponse::OnStart(_) => true,
            AnyResponse::OnResolve(_) => true,
            AnyResponse::OnLoad(_) => true,
            AnyResponse::Ping(_) => true,
            _ => false,
        }
    }
}

impl Encode for AnyResponse {
    open spec fn wire(&self) -> Value {
        match *self {
            AnyResponse::OnEnd(response) => response.wire(),
            AnyResponse::Rebuild(response) => response.wire(),
            AnyResponse::OnStart(response) => response.wire(),
            AnyResponse::OnResolve(response) => response.wire(),
            AnyResponse::OnLoad(response) => response.wire(),
            AnyResponse::Ping(response) => response.wire(),
            _ => arbitrary(),
        }
    }

    /// The other responses are only received.
    open spec fn encodable(&self) -> bool {
        ||| self is OnEnd
        ||| self is Rebuild
        ||| self is OnStart
        ||| self is OnResolve
        ||| self is OnLoad
        ||| self is Ping
    }

    fn encode_into(&self, buf: &mut Vec<u8>) {
        match self {
            AnyResponse::OnEnd(response) => response.encode_into(buf),
            AnyResponse::Rebuild(response) => response.encode_into(buf),
            AnyResponse::OnStart(response) => response.encode_into(buf),
            AnyResponse::OnResolve(response) => response.encode_into(buf),
            AnyResponse::OnLoad(response) => response.encode_into(buf),
            AnyResponse::Ping(response) => response.encode_into(buf),
            _ => {},
        }
    }
}

impl Encode for ProtocolMessage {
    open spec fn wire(&self) -> Value {
        match *self {
            ProtocolMessage::Request(request) => request.wire(),
            ProtocolMessage::Response(response) => response.wire(),
        }
    }

    open spec fn encodable(&self) -> bool {
        self matches ProtocolMessage::Response(response) ==> response.encodable()
    }

    fn encode_into(&self, buf: &mut Vec<u8>) {
        match self {
            ProtocolMessage::Request(request) => request.encode_into(buf),
            ProtocolMessage::Response(response) => response.encode_into(buf),
        }
    }
}

/// Twice the packet's number, plus one for a response; then the value.
pub open spec fn encode_packet(packet: PacketModel) -> Seq<u8> {
    encode::le_bytes(
        (2 * packet.id + if packet.is_request {
            0int
        } else {
            1int
        }) as nat,
    ) + encode::encode_value(packet.value)
}

impl ProtocolPacket {
    /// The packet as it is received at the other end.
    pub open spec fn model(&self) -> PacketModel {
        PacketModel { id: self.id, is_request: self.is_request, value: self.value.wire() }
    }

    /// Whether the packet can be sent.
    pub fn can_encode(&self) -> (r: bool)
        ensures
            r == self.value.encodable(),
    {
        match &self.value {
            ProtocolMessage::Request(_) => true,
            ProtocolMessage::Response(response) => response.can_encode(),
        }
    }

    /// Appends the packet with its length before it. No map in it holds a key twice.
    pub fn encode_into(&self, buf: &mut Vec<u8>)
        requires
            self.value.encodable(),
        ensures
            final(buf)@ == old(buf)@ + encode::delimited(encode_packet(self.model())),
            value::keyed(self.model().value),
    {
        let mut packet: Vec<u8> = Vec::new();
        let bit: u32 = if self.is_request {
            0
        } else {
            1
        };
        let id: u32 = self.id;
        let number: u32 = (id << 1) | bit;
        proof {
            let exact: u64 = (2 * id + bit) as u64;
            assert(number % 0x100 == exact % 0x100 && (number / 0x100) % 0x100 == (exact / 0x100)
                % 0x100 && (number / 0x1_0000) % 0x100 == (exact / 0x1_0000) % 0x100 && (number
                / 0x100_0000) % 0x100 == (exact / 0x100_0000) % 0x100) by (bit_vector)
                requires
                    number == (id << 1) | bit,
                    exact == 2 * id + bit,
                    bit <= 1,
            ;
            assert(encode::le_bytes(number as nat) =~= encode::le_bytes(exact as nat));
        }
        encode::encode_u32_raw(&mut packet, number);
        self.value.encode_into(&mut packet);
        assert(packet@ =~= encode_packet(self.model()));
        encode::encode_length_delimited(buf, packet.as_slice());
    }
}

} // verus!
