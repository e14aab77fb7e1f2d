//! What is sent for a message holds each field once, under its name.
use crate::protocol::encode;
use crate::protocol::encode::Encode;
use crate::protocol::messages::{
    AnalyzeMetafileRequest, BuildOutputFile, BuildPlugin, BuildRequest, CancelRequest,
    DisposeRequest, FormatMsgsRequest, Location, Message, Note, OnEndRequest, OnEndResponse,
    OnLoadRequest, OnLoadResponse, OnLoadSetupOptions, OnResolveResponse, OnResolveSetupOptions,
    OnServeRequest, OnStartRequest, OnStartResponse, PartialMessage, PingRequest, PingResponse,
    RebuildRequest, RebuildResponse, ResolveRequest, ServeOnRequestArgs, ServeRequest,
    TransformRequest, WatchRequest,
};
use crate::protocol::value;
use crate::protocol::value::Value;
use vstd::prelude::*;

verus! {

/// The number of fields that are sent for an optional one.
pub open spec fn present<T>(x: Option<T>) -> int {
    if x is Some {
        1
    } else {
        0
    }
}

/// Adding a field under a new key leaves what is found under the others.
pub proof fn lemma_with_field(
    fields: Seq<(Seq<char>, Value)>,
    key: Seq<char>,
    value: Option<Value>,
)
    requires
        value::lookup(fields, key) is None,
    ensures
        value::lookup(encode::with_field(fields, key, value), key) == value,
        forall|other: Seq<char>|
            other != key ==> #[trigger] value::lookup(
                encode::with_field(fields, key, value),
                other,
            ) == value::lookup(fields, other),
        value::distinct_keys(fields) ==> value::distinct_keys(
            encode::with_field(fields, key, value),
        ),
        encode::with_field(fields, key, value).len() == fields.len() + present(value),
{
    if let Some(v) = value {
        value::lemma_key_index(fields, key);
        assert(encode::with_field(fields, key, value) == value::put(fields, key, v));
        assert forall|other: Seq<char>| other != key implies #[trigger] value::lookup(
            encode::with_field(fields, key, value),
            other,
        ) == value::lookup(fields, other) by {
            value::lemma_put_then_lookup(fields, key, v, other);
        }
        value::lemma_put_then_lookup(fields, key, v, key);
    }
}

impl Message {
    /// Each field is sent once, under its name.
    pub proof fn lemma_fields(&self)
        ensures
            value::distinct_keys(self.fields()),
            self.fields().len() == 4 + present(self.location) + present(self.detail),
            value::lookup(self.fields(), "id"@) == Some(self.id.wire()),
            value::lookup(self.fields(), "pluginName"@) == Some(self.plugin_name.wire()),
            value::lookup(self.fields(), "text"@) == Some(self.text.wire()),
            value::lookup(self.fields(), "location"@) == encode::wire_if_some(self.location),
            value::lookup(self.fields(), "notes"@) == Some(self.notes.wire()),
            value::lookup(self.fields(), "detail"@) == encode::wire_if_some(self.detail),
    {
        reveal_strlit("id");
        reveal_strlit("pluginName");
        reveal_strlit("text");
        reveal_strlit("location");
        reveal_strlit("notes");
        reveal_strlit("detail");
        assert("id"@.len() == 2);
        assert("pluginName"@.len() == 10);
        assert("text"@.len() == 4);
        assert("location"@.len() == 8);
        assert("notes"@.len() == 5);
        assert("detail"@.len() == 6);
        let fields = Seq::empty();
        lemma_with_field(fields, "id"@, Some(self.id.wire()));
        let fields = encode::with_field(fields, "id"@, Some(self.id.wire()));
        lemma_with_field(fields, "pluginName"@, Some(self.plugin_name.wire()));
        let fields = encode::with_field(fields, "pluginName"@, Some(self.plugin_name.wire()));
        lemma_with_field(fields, "text"@, Some(self.text.wire()));
        let fields = encode::with_field(fields, "text"@, Some(self.text.wire()));
        lemma_with_field(fields, "location"@, encode::wire_if_some(self.location));
        let fields = encode::with_field(fields, "location"@, encode::wire_if_some(self.location));
        lemma_with_field(fields, "notes"@, Some(self.notes.wire()));
        let fields = encode::with_field(fields, "notes"@, Some(self.notes.wire()));
        lemma_with_field(fields, "detail"@, encode::wire_if_some(self.detail));
    }
}

impl Note {
    /// Each field is sent once, under its name.
    pub proof fn lemma_fields(&self)
        ensures
            value::distinct_keys(self.fields()),
            self.fields().len() == 1 + present(self.location),
            value::lookup(self.fields(), "text"@) == Some(self.text.wire()),
            value::lookup(self.fields(), "location"@) == encode::wire_if_some(self.location),
    {
        reveal_strlit("text");
        reveal_strlit("location");
        assert("text"@.len() == 4);
        assert("location"@.len() == 8);
        let fields = Seq::empty();
        lemma_with_field(fields, "text"@, Some(self.text.wire()));
        let fields = encode::with_field(fields, "text"@, Some(self.text.wire()));
        lemma_with_field(fields, "location"@, encode::wire_if_some(self.location));
    }
}

impl Location {
    /// Each field is sent once, under its name.
    pub proof fn lemma_fields(&self)
        ensures
            value::distinct_keys(self.fields()),
            self.fields().len() == 7,
            value::lookup(self.fields(), "file"@) == Some(self.file.wire()),
            value::lookup(self.fields(), "namespace"@) == Some(self.namespace.wire()),
            value::lookup(self.fields(), "line"@) == Some(self.line.wire()),
            value::lookup(self.fields(), "column"@) == Some(self.column.wire()),
            value::lookup(self.fields(), "length"@) == Some(self.length.wire()),
            value::lookup(self.fields(), "lineText"@) == Some(self.line_text.wire()),
            value::lookup(self.fields(), "suggestion"@) == Some(self.suggestion.wire()),
    {
        reveal_strlit("file");
        reveal_strlit("namespace");
        reveal_strlit("line");
        reveal_strlit("column");
        reveal_strlit("length");
        reveal_strlit("lineText");
        reveal_strlit("suggestion");
        assert("file"@.len() == 4);
        assert("namespace"@.len() == 9);
        assert("line"@.len() == 4);
        assert("column"@.len() == 6);
        assert("length"@.len() == 6);
        assert("lineText"@.len() == 8);
        assert("suggestion"@.len() == 10);
        assert("column"@[0] == 'c');
        assert("file"@[0] == 'f');
        assert("length"@[0] == 'l');
        assert("line"@[0] == 'l');
        let fields = Seq::empty();
        lemma_with_field(fields, "file"@, Some(self.file.wire()));
        let fields = encode::with_field(fields, "file"@, Some(self.file.wire()));
        lemma_with_field(fields, "namespace"@, Some(self.namespace.wire()));
        let fields = encode::with_field(fields, "namespace"@, Some(self.namespace.wire()));
        lemma_with_field(fields, "line"@, Some(self.line.wire()));
        let fields = encode::with_field(fields, "line"@, Some(self.line.wire()));
        lemma_with_field(fields, "column"@, Some(self.column.wire()));
        let fields = encode::with_field(fields, "column"@, Some(self.column.wire()));
        lemma_with_field(fields, "length"@, Some(self.length.wire()));
        let fields = encode::with_field(fields, "length"@, Some(self.length.wire()));
        lemma_with_field(fields, "lineText"@, Some(self.line_text.wire()));
        let fields = encode::with_field(fields, "lineText"@, Some(self.line_text.wire()));
        lemma_with_field(fields, "suggestion"@, Some(self.suggestion.wire()));
    }
}

impl PartialMessage {
    /// Each field is sent once, under its name.
    pub proof fn lemma_fields(&self)
        ensures
            value::distinct_keys(self.fields()),
            self.fields().len() == 5 + present(self.location),
            value::lookup(self.fields(), "id"@) == Some(self.id.wire()),
            value::lookup(self.fields(), "pluginName"@) == Some(self.plugin_name.wire()),
            value::lookup(self.fields(), "text"@) == Some(self.text.wire()),
            value::lookup(self.fields(), "location"@) == encode::wire_if_some(self.location),
            value::lookup(self.fields(), "notes"@) == Some(self.notes.wire()),
            value::lookup(self.fields(), "detail"@) == Some(self.detail.wire()),
    {
        reveal_strlit("id");
        reveal_strlit("pluginName");
        reveal_strlit("text");
        reveal_strlit("location");
        reveal_strlit("notes");
        reveal_strlit("detail");
        assert("id"@.len() == 2);
        assert("pluginName"@.len() == 10);
        assert("text"@.len() == 4);
        assert("location"@.len() == 8);
        assert("notes"@.len() == 5);
        assert("detail"@.len() == 6);
        let fields = Seq::empty();
        lemma_with_field(fields, "id"@, Some(self.id.wire()));
        let fields = encode::with_field(fields, "id"@, Some(self.id.wire()));
        lemma_with_field(fields, "pluginName"@, Some(self.plugin_name.wire()));
        let fields = encode::with_field(fields, "pluginName"@, Some(self.plugin_name.wire()));
        lemma_with_field(fields, "text"@, Some(self.text.wire()));
        let fields = encode::with_field(fields, "text"@, Some(self.text.wire()));
        lemma_with_field(fields, "location"@, encode::wire_if_some(self.location));
        let fields = encode::with_field(fields, "location"@, encode::wire_if_some(self.location));
        lemma_with_field(fields, "notes"@, Some(self.notes.wire()));
        let fields = encode::with_field(fields, "notes"@, Some(self.notes.wire()));
        lemma_with_field(fields, "detail"@, Some(self.detail.wire()));
    }
}

impl BuildPlugin {
    /// Each field is sent once, under its name.
    pub proof fn lemma_fields(&self)
        ensures
            value::distinct_keys(self.fields()),
            self.fields().len() == 5,
            value::lookup(self.fields(), "name"@) == Some(self.name.wire()),
            value::lookup(self.fields(), "onStart"@) == Some(self.on_start.wire()),
            value::lookup(self.fields(), "onEnd"@) == Some(self.on_end.wire()),
            value::lookup(self.fields(), "onResolve"@) == Some(self.on_resolve.wire()),
            value::lookup(self.fields(), "onLoad"@) == Some(self.on_load.wire()),
    {
        reveal_strlit("name");
        reveal_strlit("onStart");
        reveal_strlit("onEnd");
        reveal_strlit("onResolve");
        reveal_strlit("onLoad");
        assert("name"@.len() == 4);
        assert("onStart"@.len() == 7);
        assert("onEnd"@.len() == 5);
        assert("onResolve"@.len() == 9);
        assert("onLoad"@.len() == 6);
        let fields = Seq::empty();
        lemma_with_field(fields, "name"@, Some(self.name.wire()));
        let fields = encode::with_field(fields, "name"@, Some(self.name.wire()));
        lemma_with_field(fields, "onStart"@, Some(self.on_start.wire()));
        let fields = encode::with_field(fields, "onStart"@, Some(self.on_start.wire()));
        lemma_with_field(fields, "onEnd"@, Some(self.on_end.wire()));
        let fields = encode::with_field(fields, "onEnd"@, Some(self.on_end.wire()));
        lemma_with_field(fields, "onResolve"@, Some(self.on_resolve.wire()));
        let fields = encode::with_field(fields, "onResolve"@, Some(self.on_resolve.wire()));
        lemma_with_field(fields, "onLoad"@, Some(self.on_load.wire()));
    }
}

impl OnResolveSetupOptions {
    /// Each field is sent once, under its name.
    pub proof fn lemma_fields(&self)
        ensures
            value::distinct_keys(self.fields()),
            self.fields().len() == 3,
            value::lookup(self.fields(), "id"@) == Some(self.id.wire()),
            value::lookup(self.fields(), "filter"@) == Some(self.filter.wire()),
            value::lookup(self.fields(), "namespace"@) == Some(self.namespace.wire()),
    {
        reveal_strlit("id");
        reveal_strlit("filter");
        reveal_strlit("namespace");
        assert("id"@.len() == 2);
        assert("filter"@.len() == 6);
        assert("namespace"@.len() == 9);
        let fields = Seq::empty();
        lemma_with_field(fields, "id"@, Some(self.id.wire()));
        let fields = encode::with_field(fields, "id"@, Some(self.id.wire()));
        lemma_with_field(fields, "filter"@, Some(self.filter.wire()));
        let fields = encode::with_field(fields, "filter"@, Some(self.filter.wire()));
        lemma_with_field(fields, "namespace"@, Some(self.namespace.wire()));
    }
}

impl OnLoadSetupOptions {
    /// Each field is sent once, under its name.
    pub proof fn lemma_fields(&self)
        ensures
            value::distinct_keys(self.fields()),
            self.fields().len() == 3,
            value::lookup(self.fields(), "id"@) == Some(self.id.wire()),
            value::lookup(self.fields(), "filter"@) == Some(self.filter.wire()),
            value::lookup(self.fields(), "namespace"@) == Some(self.namespace.wire()),
    {
        reveal_strlit("id");
        reveal_strlit("filter");
        reveal_strlit("namespace");
        assert("id"@.len() == 2);
        assert("filter"@.len() == 6);
        assert("namespace"@.len() == 9);
        let fields = Seq::empty();
        lemma_with_field(fields, "id"@, Some(self.id.wire()));
        let fields = encode::with_field(fields, "id"@, Some(self.id.wire()));
        lemma_with_field(fields, "filter"@, Some(self.filter.wire()));
        let fields = encode::with_field(fields, "filter"@, Some(self.filter.wire()));
        lemma_with_field(fields, "namespace"@, Some(self.namespace.wire()));
    }
}

impl BuildRequest {
    /// Each field is sent once, under its name.
    pub proof fn lemma_fields(&self)
        ensures
            value::distinct_keys(self.fields()),
            self.fields().len() == 10 + present(self.plugins) + present(self.mangle_cache),
            value::lookup(self.fields(), "command"@) == Some("build".wire()),
            value::lookup(self.fields(), "key"@) == Some(self.key.wire()),
            value::lookup(self.fields(), "entries"@) == Some(self.entries.wire()),
            value::lookup(self.fields(), "flags"@) == Some(self.flags.wire()),
            value::lookup(self.fields(), "write"@) == Some(self.write.wire()),
            value::lookup(self.fields(), "stdinContents"@) == Some(self.stdin_contents.wire()),
            value::lookup(self.fields(), "stdinResolveDir"@) == Some(self.stdin_resolve_dir.wire()),
            value::lookup(self.fields(), "absWorkingDir"@) == Some(self.abs_working_dir.wire()),
            value::lookup(self.fields(), "nodePaths"@) == Some(self.node_paths.wire()),
            value::lookup(self.fields(), "context"@) == Some(self.context.wire()),
            value::lookup(self.fields(), "plugins"@) == encode::wire_if_some(self.plugins),
            value::lookup(self.fields(), "mangleCache"@) == encode::wire_if_some(self.mangle_cache),
    {
        reveal_strlit("command");
        reveal_strlit("key");
        reveal_strlit("entries");
        reveal_strlit("flags");
        reveal_strlit("write");
        reveal_strlit("stdinContents");
        reveal_strlit("stdinResolveDir");
        reveal_strlit("absWorkingDir");
        reveal_strlit("nodePaths");
        reveal_strlit("context");
        reveal_strlit("plugins");
        reveal_strlit("mangleCache");
        assert("command"@.len() == 7);
        assert("key"@.len() == 3);
        assert("entries"@.len() == 7);
        assert("flags"@.len() == 5);
        assert("write"@.len() == 5);
        assert("stdinContents"@.len() == 13);
        assert("stdinResolveDir"@.len() == 15);
        assert("absWorkingDir"@.len() == 13);
        assert("nodePaths"@.len() == 9);
        assert("context"@.len() == 7);
        assert("plugins"@.len() == 7);
        assert("mangleCache"@.len() == 11);
        assert("absWorkingDir"@[0] == 'a');
        assert("command"@[0] == 'c');
        assert("command"@[2] == 'm');
        assert("context"@[0] == 'c');
        assert("context"@[2] == 'n');
        assert("entries"@[0] == 'e');
        assert("flags"@[0] == 'f');
        assert("plugins"@[0] == 'p');
        assert("stdinContents"@[0] == 's');
        assert("write"@[0] == 'w');
        let fields = Seq::empty();
        lemma_with_field(fields, "command"@, Some("build".wire()));
        let fields = encode::with_field(fields, "command"@, Some("build".wire()));
        lemma_with_field(fields, "key"@, Some(self.key.wire()));
        let fields = encode::with_field(fields, "key"@, Some(self.key.wire()));
        lemma_with_field(fields, "entries"@, Some(self.entries.wire()));
        let fields = encode::with_field(fields, "entries"@, Some(self.entries.wire()));
        lemma_with_field(fields, "flags"@, Some(self.flags.wire()));
        let fields = encode::with_field(fields, "flags"@, Some(self.flags.wire()));
        lemma_with_field(fields, "write"@, Some(self.write.wire()));
        let fields = encode::with_field(fields, "write"@, Some(self.write.wire()));
        lemma_with_field(fields, "stdinContents"@, Some(self.stdin_contents.wire()));
        let fields = encode::with_field(fields, "stdinContents"@, Some(self.stdin_contents.wire()));
        lemma_with_field(fields, "stdinResolveDir"@, Some(self.stdin_resolve_dir.wire()));
        let fields = encode::with_field(
            fields,
            "stdinResolveDir"@,
            Some(self.stdin_resolve_dir.wire()),
        );
        lemma_with_field(fields, "absWorkingDir"@, Some(self.abs_working_dir.wire()));
        let fields = encode::with_field(
            fields,
            "absWorkingDir"@,
            Some(self.abs_working_dir.wire()),
        );
        lemma_with_field(fields, "nodePaths"@, Some(self.node_paths.wire()));
        let fields = encode::with_field(fields, "nodePaths"@, Some(self.node_paths.wire()));
        lemma_with_field(fields, "context"@, Some(self.context.wire()));
        let fields = encode::with_field(fields, "context"@, Some(self.context.wire()));
        lemma_with_field(fields, "plugins"@, encode::wire_if_some(self.plugins));
        let fields = encode::with_field(fields, "plugins"@, encode::wire_if_some(self.plugins));
        lemma_with_field(fields, "mangleCache"@, encode::wire_if_some(self.mangle_cache));
    }
}

impl OnEndRequest {
    /// Each field is sent once, under its name.
    pub proof fn lemma_fields(&self)
        ensures
            value::distinct_keys(self.fields()),
            self.fields().len() == 2 + present(self.output_files) + present(self.metafile) +
                present(self.mangle_cache) + present(self.write_to_stdout),
            value::lookup(self.fields(), "errors"@) == Some(self.errors.wire()),
            value::lookup(self.fields(), "warnings"@) == Some(self.warnings.wire()),
            value::lookup(self.fields(), "outputFiles"@) == encode::wire_if_some(self.output_files),
            value::lookup(self.fields(), "metafile"@) == encode::wire_if_some(self.metafile),
            value::lookup(self.fields(), "mangleCache"@) == encode::wire_if_some(self.mangle_cache),
            value::lookup(self.fields(), "writeToStdout"@) == encode::wire_if_some(self.write_to_stdout),
    {
        reveal_strlit("errors");
        reveal_strlit("warnings");
        reveal_strlit("outputFiles");
        reveal_strlit("metafile");
        reveal_strlit("mangleCache");
        reveal_strlit("writeToStdout");
        assert("errors"@.len() == 6);
        assert("warnings"@.len() == 8);
        assert("outputFiles"@.len() == 11);
        assert("metafile"@.len() == 8);
        assert("mangleCache"@.len() == 11);
        assert("writeToStdout"@.len() == 13);
        assert("mangleCache"@[0] == 'm');
        assert("metafile"@[0] == 'm');
        assert("outputFiles"@[0] == 'o');
        assert("warnings"@[0] == 'w');
        let fields = Seq::empty();
        lemma_with_field(fields, "errors"@, Some(self.errors.wire()));
        let fields = encode::with_field(fields, "errors"@, Some(self.errors.wire()));
        lemma_with_field(fields, "warnings"@, Some(self.warnings.wire()));
        let fields = encode::with_field(fields, "warnings"@, Some(self.warnings.wire()));
        lemma_with_field(fields, "outputFiles"@, encode::wire_if_some(self.output_files));
        let fields = encode::with_field(
            fields,
            "outputFiles"@,
            encode::wire_if_some(self.output_files),
        );
        lemma_with_field(fields, "metafile"@, encode::wire_if_some(self.metafile));
        let fields = encode::with_field(fields, "metafile"@, encode::wire_if_some(self.metafile));
        lemma_with_field(fields, "mangleCache"@, encode::wire_if_some(self.mangle_cache));
        let fields = encode::with_field(
            fields,
            "mangleCache"@,
            encode::wire_if_some(self.mangle_cache),
        );
        lemma_with_field(fields, "writeToStdout"@, encode::wire_if_some(self.write_to_stdout));
    }
}

impl OnEndResponse {
    /// Each field is sent once, under its name.
    pub proof fn lemma_fields(&self)
        ensures
            value::distinct_keys(self.fields()),
            self.fields().len() == 2,
            value::lookup(self.fields(), "errors"@) == Some(self.errors.wire()),
            value::lookup(self.fields(), "warnings"@) == Some(self.warnings.wire()),
    {
        reveal_strlit("errors");
        reveal_strlit("warnings");
        assert("errors"@.len() == 6);
        assert("warnings"@.len() == 8);
        let fields = Seq::empty();
        lemma_with_field(fields, "errors"@, Some(self.errors.wire()));
        let fields = encode::with_field(fields, "errors"@, Some(self.errors.wire()));
        lemma_with_field(fields, "warnings"@, Some(self.warnings.wire()));
    }
}

impl BuildOutputFile {
    /// Each field is sent once, under its name.
    pub proof fn lemma_fields(&self)
        ensures
            value::distinct_keys(self.fields()),
            self.fields().len() == 3,
            value::lookup(self.fields(), "path"@) == Some(self.path.wire()),
            value::lookup(self.fields(), "contents"@) == Some(self.contents.wire()),
            value::lookup(self.fields(), "hash"@) == Some(self.hash.wire()),
    {
        reveal_strlit("path");
        reveal_strlit("contents");
        reveal_strlit("hash");
        assert("path"@.len() == 4);
        assert("contents"@.len() == 8);
        assert("hash"@.len() == 4);
        assert("hash"@[0] == 'h');
        assert("path"@[0] == 'p');
        let fields = Seq::empty();
        lemma_with_field(fields, "path"@, Some(self.path.wire()));
        let fields = encode::with_field(fields, "path"@, Some(self.path.wire()));
        lemma_with_field(fields, "contents"@, Some(self.contents.wire()));
        let fields = encode::with_field(fields, "contents"@, Some(self.contents.wire()));
        lemma_with_field(fields, "hash"@, Some(self.hash.wire()));
    }
}

impl RebuildRequest {
    /// Each field is sent once, under its name.
    pub proof fn lemma_fields(&self)
        ensures
            value::distinct_keys(self.fields()),
            self.fields().len() == 2,
            value::lookup(self.fields(), "command"@) == Some("rebuild".wire()),
            value::lookup(self.fields(), "key"@) == Some(self.key.wire()),
    {
        reveal_strlit("command");
        reveal_strlit("key");
        assert("command"@.len() == 7);
        assert("key"@.len() == 3);
        let fields = Seq::empty();
        lemma_with_field(fields, "command"@, Some("rebuild".wire()));
        let fields = encode::with_field(fields, "command"@, Some("rebuild".wire()));
        lemma_with_field(fields, "key"@, Some(self.key.wire()));
    }
}

impl RebuildResponse {
    /// Each field is sent once, under its name.
    pub proof fn lemma_fields(&self)
        ensures
            value::distinct_keys(self.fields()),
            self.fields().len() == 2,
            value::lookup(self.fields(), "errors"@) == Some(self.errors.wire()),
            value::lookup(self.fields(), "warnings"@) == Some(self.warnings.wire()),
    {
        reveal_strlit("errors");
        reveal_strlit("warnings");
        assert("errors"@.len() == 6);
        assert("warnings"@.len() == 8);
        let fields = Seq::empty();
        lemma_with_field(fields, "errors"@, Some(self.errors.wire()));
        let fields = encode::with_field(fields, "errors"@, Some(self.errors.wire()));
        lemma_with_field(fields, "warnings"@, Some(self.warnings.wire()));
    }
}

impl DisposeRequest {
    /// Each field is sent once, under its name.
    pub proof fn lemma_fields(&self)
        ensures
            value::distinct_keys(self.fields()),
            self.fields().len() == 2,
            value::lookup(self.fields(), "command"@) == Some("dispose".wire()),
            value::lookup(self.fields(), "key"@) == Some(self.key.wire()),
    {
        reveal_strlit("command");
        reveal_strlit("key");
        assert("command"@.len() == 7);
        assert("key"@.len() == 3);
        let fields = Seq::empty();
        lemma_with_field(fields, "command"@, Some("dispose".wire()));
        let fields = encode::with_field(fields, "command"@, Some("dispose".wire()));
        lemma_with_field(fields, "key"@, Some(self.key.wire()));
    }
}

impl CancelRequest {
    /// Each field is sent once, under its name.
    pub proof fn lemma_fields(&self)
        ensures
            value::distinct_keys(self.fields()),
            self.fields().len() == 2,
            value::lookup(self.fields(), "command"@) == Some("cancel".wire()),
            value::lookup(self.fields(), "key"@) == Some(self.key.wire()),
    {
        reveal_strlit("command");
        reveal_strlit("key");
        assert("command"@.len() == 7);
        assert("key"@.len() == 3);
        let fields = Seq::empty();
        lemma_with_field(fields, "command"@, Some("cancel".wire()));
        let fields = encode::with_field(fields, "command"@, Some("cancel".wire()));
        lemma_with_field(fields, "key"@, Some(self.key.wire()));
    }
}

impl OnStartRequest {
    /// Each field is sent once, under its name.
    pub proof fn lemma_fields(&self)
        ensures
            value::distinct_keys(self.fields()),
            self.fields().len() == 2,
            value::lookup(self.fields(), "command"@) == Some("on-start".wire()),
            value::lookup(self.fields(), "key"@) == Some(self.key.wire()),
    {
        reveal_strlit("command");
        reveal_strlit("key");
        assert("command"@.len() == 7);
        assert("key"@.len() == 3);
        let fields = Seq::empty();
        lemma_with_field(fields, "command"@, Some("on-start".wire()));
        let fields = encode::with_field(fields, "command"@, Some("on-start".wire()));
        lemma_with_field(fields, "key"@, Some(self.key.wire()));
    }
}

impl OnStartResponse {
    /// Each field is sent once, under its name.
    pub proof fn lemma_fields(&self)
        ensures
            value::distinct_keys(self.fields()),
            self.fields().len() == 2,
            value::lookup(self.fields(), "errors"@) == Some(self.errors.wire()),
            value::lookup(self.fields(), "warnings"@) == Some(self.warnings.wire()),
    {
        reveal_strlit("errors");
        reveal_strlit("warnings");
        assert("errors"@.len() == 6);
        assert("warnings"@.len() == 8);
        let fields = Seq::empty();
        lemma_with_field(fields, "errors"@, Some(self.errors.wire()));
        let fields = encode::with_field(fields, "errors"@, Some(self.errors.wire()));
        lemma_with_field(fields, "warnings"@, Some(self.warnings.wire()));
    }
}

impl OnResolveResponse {
    /// Each field is sent once, under its name.
    pub proof fn lemma_fields(&self)
        ensures
            value::distinct_keys(self.fields()),
            self.fields().len() == 0 + present(self.id) + present(self.plugin_name) +
                present(self.errors) + present(self.warnings) + present(self.path) +
                present(self.external) + present(self.side_effects) + present(self.namespace) +
                present(self.suffix) + present(self.plugin_data) + present(self.watch_files) +
                present(self.watch_dirs),
            value::lookup(self.fields(), "id"@) == encode::wire_if_some(self.id),
            value::lookup(self.fields(), "pluginName"@) == encode::wire_if_some(self.plugin_name),
            value::lookup(self.fields(), "errors"@) == encode::wire_if_some(self.errors),
            value::lookup(self.fields(), "warnings"@) == encode::wire_if_some(self.warnings),
            value::lookup(self.fields(), "path"@) == encode::wire_if_some(self.path),
            value::lookup(self.fields(), "external"@) == encode::wire_if_some(self.external),
            value::lookup(self.fields(), "sideEffects"@) == encode::wire_if_some(self.side_effects),
            value::lookup(self.fields(), "namespace"@) == encode::wire_if_some(self.namespace),
            value::lookup(self.fields(), "suffix"@) == encode::wire_if_some(self.suffix),
            value::lookup(self.fields(), "pluginData"@) == encode::wire_if_some(self.plugin_data),
            value::lookup(self.fields(), "watchFiles"@) == encode::wire_if_some(self.watch_files),
            value::lookup(self.fields(), "watchDirs"@) == encode::wire_if_some(self.watch_dirs),
    {
        reveal_strlit("id");
        reveal_strlit("pluginName");
        reveal_strlit("errors");
        reveal_strlit("warnings");
        reveal_strlit("path");
        reveal_strlit("external");
        reveal_strlit("sideEffects");
        reveal_strlit("namespace");
        reveal_strlit("suffix");
        reveal_strlit("pluginData");
        reveal_strlit("watchFiles");
        reveal_strlit("watchDirs");
        assert("id"@.len() == 2);
        assert("pluginName"@.len() == 10);
        assert("errors"@.len() == 6);
        assert("warnings"@.len() == 8);
        assert("path"@.len() == 4);
        assert("external"@.len() == 8);
        assert("sideEffects"@.len() == 11);
        assert("namespace"@.len() == 9);
        assert("suffix"@.len() == 6);
        assert("pluginData"@.len() == 10);
        assert("watchFiles"@.len() == 10);
        assert("watchDirs"@.len() == 9);
        assert("errors"@[0] == 'e');
        assert("external"@[0] == 'e');
        assert("namespace"@[0] == 'n');
        assert("pluginData"@[0] == 'p');
        assert("pluginData"@[6] == 'D');
        assert("pluginName"@[0] == 'p');
        assert("pluginName"@[6] == 'N');
        assert("suffix"@[0] == 's');
        assert("warnings"@[0] == 'w');
        assert("watchDirs"@[0] == 'w');
        assert("watchFiles"@[0] == 'w');
        let fields = Seq::empty();
        lemma_with_field(fields, "id"@, encode::wire_if_some(self.id));
        let fields = encode::with_field(fields, "id"@, encode::wire_if_some(self.id));
        lemma_with_field(fields, "pluginName"@, encode::wire_if_some(self.plugin_name));
        let fields = encode::with_field(
            fields,
            "pluginName"@,
            encode::wire_if_some(self.plugin_name),
        );
        lemma_with_field(fields, "errors"@, encode::wire_if_some(self.errors));
        let fields = encode::with_field(fields, "errors"@, encode::wire_if_some(self.errors));
        lemma_with_field(fields, "warnings"@, encode::wire_if_some(self.warnings));
        let fields = encode::with_field(fields, "warnings"@, encode::wire_if_some(self.warnings));
        lemma_with_field(fields, "path"@, encode::wire_if_some(self.path));
        let fields = encode::with_field(fields, "path"@, encode::wire_if_some(self.path));
        lemma_with_field(fields, "external"@, encode::wire_if_some(self.external));
        let fields = encode::with_field(fields, "external"@, encode::wire_if_some(self.external));
        lemma_with_field(fields, "sideEffects"@, encode::wire_if_some(self.side_effects));
        let fields = encode::with_field(
            fields,
            "sideEffects"@,
            encode::wire_if_some(self.side_effects),
        );
        lemma_with_field(fields, "namespace"@, encode::wire_if_some(self.namespace));
        let fields = encode::with_field(fields, "namespace"@, encode::wire_if_some(self.namespace));
        lemma_with_field(fields, "suffix"@, encode::wire_if_some(self.suffix));
        let fields = encode::with_field(fields, "suffix"@, encode::wire_if_some(self.suffix));
        lemma_with_field(fields, "pluginData"@, encode::wire_if_some(self.plugin_data));
        let fields = encode::with_field(
            fields,
            "pluginData"@,
            encode::wire_if_some(self.plugin_data),
        );
        lemma_with_field(fields, "watchFiles"@, encode::wire_if_some(self.watch_files));
        let fields = encode::with_field(
            fields,
            "watchFiles"@,
            encode::wire_if_some(self.watch_files),
        );
        lemma_with_field(fields, "watchDirs"@, encode::wire_if_some(self.watch_dirs));
    }
}

impl OnLoadRequest {
    /// Each field is sent once, under its name.
    pub proof fn lemma_fields(&self)
        ensures
            value::distinct_keys(self.fields()),
            self.fields().len() == 7 + present(self.plugin_data),
            value::lookup(self.fields(), "command"@) == Some("on-load".wire()),
            value::lookup(self.fields(), "key"@) == Some(self.key.wire()),
            value::lookup(self.fields(), "ids"@) == Some(self.ids.wire()),
            value::lookup(self.fields(), "path"@) == Some(self.path.wire()),
            value::lookup(self.fields(), "namespace"@) == Some(self.namespace.wire()),
            value::lookup(self.fields(), "suffix"@) == Some(self.suffix.wire()),
            value::lookup(self.fields(), "pluginData"@) == encode::wire_if_some(self.plugin_data),
            value::lookup(self.fields(), "with"@) == Some(self.with.wire()),
    {
        reveal_strlit("command");
        reveal_strlit("key");
        reveal_strlit("ids");
        reveal_strlit("path");
        reveal_strlit("namespace");
        reveal_strlit("suffix");
        reveal_strlit("pluginData");
        reveal_strlit("with");
        assert("command"@.len() == 7);
        assert("key"@.len() == 3);
        assert("ids"@.len() == 3);
        assert("path"@.len() == 4);
        assert("namespace"@.len() == 9);
        assert("suffix"@.len() == 6);
        assert("pluginData"@.len() == 10);
        assert("with"@.len() == 4);
        assert("ids"@[0] == 'i');
        assert("key"@[0] == 'k');
        assert("path"@[0] == 'p');
        assert("with"@[0] == 'w');
        let fields = Seq::empty();
        lemma_with_field(fields, "command"@, Some("on-load".wire()));
        let fields = encode::with_field(fields, "command"@, Some("on-load".wire()));
        lemma_with_field(fields, "key"@, Some(self.key.wire()));
        let fields = encode::with_field(fields, "key"@, Some(self.key.wire()));
        lemma_with_field(fields, "ids"@, Some(self.ids.wire()));
        let fields = encode::with_field(fields, "ids"@, Some(self.ids.wire()));
        lemma_with_field(fields, "path"@, Some(self.path.wire()));
        let fields = encode::with_field(fields, "path"@, Some(self.path.wire()));
        lemma_with_field(fields, "namespace"@, Some(self.namespace.wire()));
        let fields = encode::with_field(fields, "namespace"@, Some(self.namespace.wire()));
        lemma_with_field(fields, "suffix"@, Some(self.suffix.wire()));
        let fields = encode::with_field(fields, "suffix"@, Some(self.suffix.wire()));
        lemma_with_field(fields, "pluginData"@, encode::wire_if_some(self.plugin_data));
        let fields = encode::with_field(
            fields,
            "pluginData"@,
            encode::wire_if_some(self.plugin_data),
        );
        lemma_with_field(fields, "with"@, Some(self.with.wire()));
    }
}

impl OnLoadResponse {
    /// Each field is sent once, under its name.
    pub proof fn lemma_fields(&self)
        ensures
            value::distinct_keys(self.fields()),
            self.fields().len() == 0 + present(self.id) + present(self.plugin_name) +
                present(self.errors) + present(self.warnings) + present(self.contents) +
                present(self.resolve_dir) + present(self.loader) + present(self.plugin_data) +
                present(self.watch_files) + present(self.watch_dirs),
            value::lookup(self.fields(), "id"@) == encode::wire_if_some(self.id),
            value::lookup(self.fields(), "pluginName"@) == encode::wire_if_some(self.plugin_name),
            value::lookup(self.fields(), "errors"@) == encode::wire_if_some(self.errors),
            value::lookup(self.fields(), "warnings"@) == encode::wire_if_some(self.warnings),
            value::lookup(self.fields(), "contents"@) == encode::wire_if_some(self.contents),
            value::lookup(self.fields(), "resolveDir"@) == encode::wire_if_some(self.resolve_dir),
            value::lookup(self.fields(), "loader"@) == encode::wire_if_some(self.loader),
            value::lookup(self.fields(), "pluginData"@) == encode::wire_if_some(self.plugin_data),
            value::lookup(self.fields(), "watchFiles"@) == encode::wire_if_some(self.watch_files),
            value::lookup(self.fields(), "watchDirs"@) == encode::wire_if_some(self.watch_dirs),
    {
        reveal_strlit("id");
        reveal_strlit("pluginName");
        reveal_strlit("errors");
        reveal_strlit("warnings");
        reveal_strlit("contents");
        reveal_strlit("resolveDir");
        reveal_strlit("loader");
        reveal_strlit("pluginData");
        reveal_strlit("watchFiles");
        reveal_strlit("watchDirs");
        assert("id"@.len() == 2);
        assert("pluginName"@.len() == 10);
        assert("errors"@.len() == 6);
        assert("warnings"@.len() == 8);
        assert("contents"@.len() == 8);
        assert("resolveDir"@.len() == 10);
        assert("loader"@.len() == 6);
        assert("pluginData"@.len() == 10);
        assert("watchFiles"@.len() == 10);
        assert("watchDirs"@.len() == 9);
        assert("contents"@[0] == 'c');
        assert("errors"@[0] == 'e');
        assert("loader"@[0] == 'l');
        assert("pluginData"@[0] == 'p');
        assert("pluginData"@[6] == 'D');
        assert("pluginName"@[0] == 'p');
        assert("pluginName"@[6] == 'N');
        assert("resolveDir"@[0] == 'r');
        assert("warnings"@[0] == 'w');
        assert("watchFiles"@[0] == 'w');
        let fields = Seq::empty();
        lemma_with_field(fields, "id"@, encode::wire_if_some(self.id));
        let fields = encode::with_field(fields, "id"@, encode::wire_if_some(self.id));
        lemma_with_field(fields, "pluginName"@, encode::wire_if_some(self.plugin_name));
        let fields = encode::with_field(
            fields,
            "pluginName"@,
            encode::wire_if_some(self.plugin_name),
        );
        lemma_with_field(fields, "errors"@, encode::wire_if_some(self.errors));
        let fields = encode::with_field(fields, "errors"@, encode::wire_if_some(self.errors));
        lemma_with_field(fields, "warnings"@, encode::wire_if_some(self.warnings));
        let fields = encode::with_field(fields, "warnings"@, encode::wire_if_some(self.warnings));
        lemma_with_field(fields, "contents"@, encode::wire_if_some(self.contents));
        let fields = encode::with_field(fields, "contents"@, encode::wire_if_some(self.contents));
        lemma_with_field(fields, "resolveDir"@, encode::wire_if_some(self.resolve_dir));
        let fields = encode::with_field(
            fields,
            "resolveDir"@,
            encode::wire_if_some(self.resolve_dir),
        );
        lemma_with_field(fields, "loader"@, encode::wire_if_some(self.loader));
        let fields = encode::with_field(fields, "loader"@, encode::wire_if_some(self.loader));
        lemma_with_field(fields, "pluginData"@, encode::wire_if_some(self.plugin_data));
        let fields = encode::with_field(
            fields,
            "pluginData"@,
            encode::wire_if_some(self.plugin_data),
        );
        lemma_with_field(fields, "watchFiles"@, encode::wire_if_some(self.watch_files));
        let fields = encode::with_field(
            fields,
            "watchFiles"@,
            encode::wire_if_some(self.watch_files),
        );
        lemma_with_field(fields, "watchDirs"@, encode::wire_if_some(self.watch_dirs));
    }
}

impl ServeOnRequestArgs {
    /// Each field is sent once, under its name.
    pub proof fn lemma_fields(&self)
        ensures
            value::distinct_keys(self.fields()),
            self.fields().len() == 5,
            value::lookup(self.fields(), "remoteAddress"@) == Some(self.remote_address.wire()),
            value::lookup(self.fields(), "method"@) == Some(self.method.wire()),
            value::lookup(self.fields(), "path"@) == Some(self.path.wire()),
            value::lookup(self.fields(), "status"@) == Some(self.status.wire()),
            value::lookup(self.fields(), "timeInMs"@) == Some(self.time_in_ms.wire()),
    {
        reveal_strlit("remoteAddress");
        reveal_strlit("method");
        reveal_strlit("path");
        reveal_strlit("status");
        reveal_strlit("timeInMs");
        assert("remoteAddress"@.len() == 13);
        assert("method"@.len() == 6);
        assert("path"@.len() == 4);
        assert("status"@.len() == 6);
        assert("timeInMs"@.len() == 8);
        assert("method"@[0] == 'm');
        assert("status"@[0] == 's');
        let fields = Seq::empty();
        lemma_with_field(fields, "remoteAddress"@, Some(self.remote_address.wire()));
        let fields = encode::with_field(fields, "remoteAddress"@, Some(self.remote_address.wire()));
        lemma_with_field(fields, "method"@, Some(self.method.wire()));
        let fields = encode::with_field(fields, "method"@, Some(self.method.wire()));
        lemma_with_field(fields, "path"@, Some(self.path.wire()));
        let fields = encode::with_field(fields, "path"@, Some(self.path.wire()));
        lemma_with_field(fields, "status"@, Some(self.status.wire()));
        let fields = encode::with_field(fields, "status"@, Some(self.status.wire()));
        lemma_with_field(fields, "timeInMs"@, Some(self.time_in_ms.wire()));
    }
}

impl ServeRequest {
    /// Each field is sent once, under its name.
    pub proof fn lemma_fields(&self)
        ensures
            value::distinct_keys(self.fields()),
            self.fields().len() == 3 + present(self.port) + present(self.host) +
                present(self.servedir) + present(self.keyfile) + present(self.certfile) +
                present(self.fallback) + present(self.cors_origin),
            value::lookup(self.fields(), "command"@) == Some("serve".wire()),
            value::lookup(self.fields(), "key"@) == Some(self.key.wire()),
            value::lookup(self.fields(), "onRequest"@) == Some(self.on_request.wire()),
            value::lookup(self.fields(), "port"@) == encode::wire_if_some(self.port),
            value::lookup(self.fields(), "host"@) == encode::wire_if_some(self.host),
            value::lookup(self.fields(), "servedir"@) == encode::wire_if_some(self.servedir),
            value::lookup(self.fields(), "keyfile"@) == encode::wire_if_some(self.keyfile),
            value::lookup(self.fields(), "certfile"@) == encode::wire_if_some(self.certfile),
            value::lookup(self.fields(), "fallback"@) == encode::wire_if_some(self.fallback),
            value::lookup(self.fields(), "corsOrigin"@) == encode::wire_if_some(self.cors_origin),
    {
        reveal_strlit("command");
        reveal_strlit("key");
        reveal_strlit("onRequest");
        reveal_strlit("port");
        reveal_strlit("host");
        reveal_strlit("servedir");
        reveal_strlit("keyfile");
        reveal_strlit("certfile");
        reveal_strlit("fallback");
        reveal_strlit("corsOrigin");
        assert("command"@.len() == 7);
        assert("key"@.len() == 3);
        assert("onRequest"@.len() == 9);
        assert("port"@.len() == 4);
        assert("host"@.len() == 4);
        assert("servedir"@.len() == 8);
        assert("keyfile"@.len() == 7);
        assert("certfile"@.len() == 8);
        assert("fallback"@.len() == 8);
        assert("corsOrigin"@.len() == 10);
        assert("certfile"@[0] == 'c');
        assert("command"@[0] == 'c');
        assert("fallback"@[0] == 'f');
        assert("host"@[0] == 'h');
        assert("keyfile"@[0] == 'k');
        assert("port"@[0] == 'p');
        assert("servedir"@[0] == 's');
        let fields = Seq::empty();
        lemma_with_field(fields, "command"@, Some("serve".wire()));
        let fields = encode::with_field(fields, "command"@, Some("serve".wire()));
        lemma_with_field(fields, "key"@, Some(self.key.wire()));
        let fields = encode::with_field(fields, "key"@, Some(self.key.wire()));
        lemma_with_field(fields, "onRequest"@, Some(self.on_request.wire()));
        let fields = encode::with_field(fields, "onRequest"@, Some(self.on_request.wire()));
        lemma_with_field(fields, "port"@, encode::wire_if_some(self.port));
        let fields = encode::with_field(fields, "port"@, encode::wire_if_some(self.port));
        lemma_with_field(fields, "host"@, encode::wire_if_some(self.host));
        let fields = encode::with_field(fields, "host"@, encode::wire_if_some(self.host));
        lemma_with_field(fields, "servedir"@, encode::wire_if_some(self.servedir));
        let fields = encode::with_field(fields, "servedir"@, encode::wire_if_some(self.servedir));
        lemma_with_field(fields, "keyfile"@, encode::wire_if_some(self.keyfile));
        let fields = encode::with_field(fields, "keyfile"@, encode::wire_if_some(self.keyfile));
        lemma_with_field(fields, "certfile"@, encode::wire_if_some(self.certfile));
        let fields = encode::with_field(fields, "certfile"@, encode::wire_if_some(self.certfile));
        lemma_with_field(fields, "fallback"@, encode::wire_if_some(self.fallback));
        let fields = encode::with_field(fields, "fallback"@, encode::wire_if_some(self.fallback));
        lemma_with_field(fields, "corsOrigin"@, encode::wire_if_some(self.cors_origin));
    }
}

impl PingRequest {
    /// Each field is sent once, under its name.
    pub proof fn lemma_fields(&self)
        ensures
            value::distinct_keys(self.fields()),
            self.fields().len() == 1,
            value::lookup(self.fields(), "command"@) == Some("ping".wire()),
    {
        reveal_strlit("command");
        let fields = Seq::empty();
        lemma_with_field(fields, "command"@, Some("ping".wire()));
    }
}

impl WatchRequest {
    /// Each field is sent once, under its name.
    pub proof fn lemma_fields(&self)
        ensures
            value::distinct_keys(self.fields()),
            self.fields().len() == 2,
            value::lookup(self.fields(), "command"@) == Some("watch".wire()),
            value::lookup(self.fields(), "key"@) == Some(self.key.wire()),
    {
        reveal_strlit("command");
        reveal_strlit("key");
        assert("command"@.len() == 7);
        assert("key"@.len() == 3);
        let fields = Seq::empty();
        lemma_with_field(fields, "command"@, Some("watch".wire()));
        let fields = encode::with_field(fields, "command"@, Some("watch".wire()));
        lemma_with_field(fields, "key"@, Some(self.key.wire()));
    }
}

impl OnServeRequest {
    /// Each field is sent once, under its name.
    pub proof fn lemma_fields(&self)
        ensures
            value::distinct_keys(self.fields()),
            self.fields().len() == 3,
            value::lookup(self.fields(), "command"@) == Some("serve-request".wire()),
            value::lookup(self.fields(), "key"@) == Some(self.key.wire()),
            value::lookup(self.fields(), "args"@) == Some(self.args.wire()),
    {
        reveal_strlit("command");
        reveal_strlit("key");
        reveal_strlit("args");
        assert("command"@.len() == 7);
        assert("key"@.len() == 3);
        assert("args"@.len() == 4);
        let fields = Seq::empty();
        lemma_with_field(fields, "command"@, Some("serve-request".wire()));
        let fields = encode::with_field(fields, "command"@, Some("serve-request".wire()));
        lemma_with_field(fields, "key"@, Some(self.key.wire()));
        let fields = encode::with_field(fields, "key"@, Some(self.key.wire()));
        lemma_with_field(fields, "args"@, Some(self.args.wire()));
    }
}

impl TransformRequest {
    /// Each field is sent once, under its name.
    pub proof fn lemma_fields(&self)
        ensures
            value::distinct_keys(self.fields()),
            self.fields().len() == 4 + present(self.mangle_cache),
            value::lookup(self.fields(), "command"@) == Some("transform".wire()),
            value::lookup(self.fields(), "flags"@) == Some(self.flags.wire()),
            value::lookup(self.fields(), "input"@) == Some(self.input.wire()),
            value::lookup(self.fields(), "inputFs"@) == Some(self.input_fs.wire()),
            value::lookup(self.fields(), "mangleCache"@) == encode::wire_if_some(self.mangle_cache),
    {
        reveal_strlit("command");
        reveal_strlit("flags");
        reveal_strlit("input");
        reveal_strlit("inputFs");
        reveal_strlit("mangleCache");
        assert("command"@.len() == 7);
        assert("flags"@.len() == 5);
        assert("input"@.len() == 5);
        assert("inputFs"@.len() == 7);
        assert("mangleCache"@.len() == 11);
        assert("command"@[0] == 'c');
        assert("flags"@[0] == 'f');
        assert("input"@[0] == 'i');
        assert("inputFs"@[0] == 'i');
        let fields = Seq::empty();
        lemma_with_field(fields, "command"@, Some("transform".wire()));
        let fields = encode::with_field(fields, "command"@, Some("transform".wire()));
        lemma_with_field(fields, "flags"@, Some(self.flags.wire()));
        let fields = encode::with_field(fields, "flags"@, Some(self.flags.wire()));
        lemma_with_field(fields, "input"@, Some(self.input.wire()));
        let fields = encode::with_field(fields, "input"@, Some(self.input.wire()));
        lemma_with_field(fields, "inputFs"@, Some(self.input_fs.wire()));
        let fields = encode::with_field(fields, "inputFs"@, Some(self.input_fs.wire()));
        lemma_with_field(fields, "mangleCache"@, encode::wire_if_some(self.mangle_cache));
    }
}

impl FormatMsgsRequest {
    /// Each field is sent once, under its name.
    pub proof fn lemma_fields(&self)
        ensures
            value::distinct_keys(self.fields()),
            self.fields().len() == 3 + present(self.color) + present(self.terminal_width),
            value::lookup(self.fields(), "command"@) == Some("format-msgs".wire()),
            value::lookup(self.fields(), "messages"@) == Some(self.messages.wire()),
            value::lookup(self.fields(), "isWarning"@) == Some(self.is_warning.wire()),
            value::lookup(self.fields(), "color"@) == encode::wire_if_some(self.color),
            value::lookup(self.fields(), "terminalWidth"@) == encode::wire_if_some(self.terminal_width),
    {
        reveal_strlit("command");
        reveal_strlit("messages");
        reveal_strlit("isWarning");
        reveal_strlit("color");
        reveal_strlit("terminalWidth");
        assert("command"@.len() == 7);
        assert("messages"@.len() == 8);
        assert("isWarning"@.len() == 9);
        assert("color"@.len() == 5);
        assert("terminalWidth"@.len() == 13);
        let fields = Seq::empty();
        lemma_with_field(fields, "command"@, Some("format-msgs".wire()));
        let fields = encode::with_field(fields, "command"@, Some("format-msgs".wire()));
        lemma_with_field(fields, "messages"@, Some(self.messages.wire()));
        let fields = encode::with_field(fields, "messages"@, Some(self.messages.wire()));
        lemma_with_field(fields, "isWarning"@, Some(self.is_warning.wire()));
        let fields = encode::with_field(fields, "isWarning"@, Some(self.is_warning.wire()));
        lemma_with_field(fields, "color"@, encode::wire_if_some(self.color));
        let fields = encode::with_field(fields, "color"@, encode::wire_if_some(self.color));
        lemma_with_field(fields, "terminalWidth"@, encode::wire_if_some(self.terminal_width));
    }
}

impl AnalyzeMetafileRequest {
    /// Each field is sent once, under its name.
    pub proof fn lemma_fields(&self)
        ensures
            value::distinct_keys(self.fields()),
            self.fields().len() == 2 + present(self.color) + present(self.verbose),
            value::lookup(self.fields(), "command"@) == Some("analyze-metafile".wire()),
            value::lookup(self.fields(), "metafile"@) == Some(self.metafile.wire()),
            value::lookup(self.fields(), "color"@) == encode::wire_if_some(self.color),
            value::lookup(self.fields(), "verbose"@) == encode::wire_if_some(self.verbose),
    {
        reveal_strlit("command");
        reveal_strlit("metafile");
        reveal_strlit("color");
        reveal_strlit("verbose");
        assert("command"@.len() == 7);
        assert("metafile"@.len() == 8);
        assert("color"@.len() == 5);
        assert("verbose"@.len() == 7);
        assert("command"@[0] == 'c');
        assert("verbose"@[0] == 'v');
        let fields = Seq::empty();
        lemma_with_field(fields, "command"@, Some("analyze-metafile".wire()));
        let fields = encode::with_field(fields, "command"@, Some("analyze-metafile".wire()));
        lemma_with_field(fields, "metafile"@, Some(self.metafile.wire()));
        let fields = encode::with_field(fields, "metafile"@, Some(self.metafile.wire()));
        lemma_with_field(fields, "color"@, encode::wire_if_some(self.color));
        let fields = encode::with_field(fields, "color"@, encode::wire_if_some(self.color));
        lemma_with_field(fields, "verbose"@, encode::wire_if_some(self.verbose));
    }
}

impl ResolveRequest {
    /// Each field is sent once, under its name.
    pub proof fn lemma_fields(&self)
        ensures
            value::distinct_keys(self.fields()),
            self.fields().len() == 4 + present(self.importer) + present(self.namespace) +
                present(self.resolve_dir) + present(self.kind) + present(self.plugin_data) +
                present(self.with),
            value::lookup(self.fields(), "command"@) == Some("resolve".wire()),
            value::lookup(self.fields(), "key"@) == Some(self.key.wire()),
            value::lookup(self.fields(), "path"@) == Some(self.path.wire()),
            value::lookup(self.fields(), "pluginName"@) == Some(self.plugin_name.wire()),
            value::lookup(self.fields(), "importer"@) == encode::wire_if_some(self.importer),
            value::lookup(self.fields(), "namespace"@) == encode::wire_if_some(self.namespace),
            value::lookup(self.fields(), "resolveDir"@) == encode::wire_if_some(self.resolve_dir),
            value::lookup(self.fields(), "kind"@) == encode::wire_if_some(self.kind),
            value::lookup(self.fields(), "pluginData"@) == encode::wire_if_some(self.plugin_data),
            value::lookup(self.fields(), "with"@) == encode::wire_if_some(self.with),
    {
        reveal_strlit("command");
        reveal_strlit("key");
        reveal_strlit("path");
        reveal_strlit("pluginName");
        reveal_strlit("importer");
        reveal_strlit("namespace");
        reveal_strlit("resolveDir");
        reveal_strlit("kind");
        reveal_strlit("pluginData");
        reveal_strlit("with");
        assert("command"@.len() == 7);
        assert("key"@.len() == 3);
        assert("path"@.len() == 4);
        assert("pluginName"@.len() == 10);
        assert("importer"@.len() == 8);
        assert("namespace"@.len() == 9);
        assert("resolveDir"@.len() == 10);
        assert("kind"@.len() == 4);
        assert("pluginData"@.len() == 10);
        assert("with"@.len() == 4);
        assert("kind"@[0] == 'k');
        assert("path"@[0] == 'p');
        assert("pluginData"@[0] == 'p');
        assert("pluginData"@[6] == 'D');
        assert("pluginName"@[0] == 'p');
        assert("pluginName"@[6] == 'N');
        assert("resolveDir"@[0] == 'r');
        assert("with"@[0] == 'w');
        let fields = Seq::empty();
        lemma_with_field(fields, "command"@, Some("resolve".wire()));
        let fields = encode::with_field(fields, "command"@, Some("resolve".wire()));
        lemma_with_field(fields, "key"@, Some(self.key.wire()));
        let fields = encode::with_field(fields, "key"@, Some(self.key.wire()));
        lemma_with_field(fields, "path"@, Some(self.path.wire()));
        let fields = encode::with_field(fields, "path"@, Some(self.path.wire()));
        lemma_with_field(fields, "pluginName"@, Some(self.plugin_name.wire()));
        let fields = encode::with_field(fields, "pluginName"@, Some(self.plugin_name.wire()));
        lemma_with_field(fields, "importer"@, encode::wire_if_some(self.importer));
        let fields = encode::with_field(fields, "importer"@, encode::wire_if_some(self.importer));
        lemma_with_field(fields, "namespace"@, encode::wire_if_some(self.namespace));
        let fields = encode::with_field(fields, "namespace"@, encode::wire_if_some(self.namespace));
        lemma_with_field(fields, "resolveDir"@, encode::wire_if_some(self.resolve_dir));
        let fields = encode::with_field(
            fields,
            "resolveDir"@,
            encode::wire_if_some(self.resolve_dir),
        );
        lemma_with_field(fields, "kind"@, encode::wire_if_some(self.kind));
        let fields = encode::with_field(fields, "kind"@, encode::wire_if_some(self.kind));
        lemma_with_field(fields, "pluginData"@, encode::wire_if_some(self.plugin_data));
        let fields = encode::with_field(
            fields,
            "pluginData"@,
            encode::wire_if_some(self.plugin_data),
        );
        lemma_with_field(fields, "with"@, encode::wire_if_some(self.with));
    }
}

impl PingResponse {
    /// Each field is sent once, under its name.
    pub proof fn lemma_fields(&self)
        ensures
            value::distinct_keys(self.fields()),
            self.fields().len() == 0,
    {
    }
}

} // verus!
