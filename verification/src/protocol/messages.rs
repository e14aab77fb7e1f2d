//! The requests, responses and messages of the protocol.
use crate::protocol::maps;
use crate::protocol::value::{AnyValue, Value};
use indexmap::IndexMap;
use vstd::prelude::*;

verus! {

/// An optional value that is sent as null when it is absent.
#[derive(Clone)]
pub struct OptionNull<T>(Option<T>);

impl<T> OptionNull<T> {
    /// The optional value itself.
    pub closed spec fn inner(self) -> Option<T> {
        self.0
    }

    pub fn new(value: Option<T>) -> (r: Self)
        ensures
            r.inner() == value,
    {
        Self(value)
    }

    /// The optional value, by reference.
    pub fn as_option(&self) -> (r: &Option<T>)
        ensures
            *r == self.inner(),
    {
        &self.0
    }
}

impl<T> vstd::std_specs::convert::FromSpecImpl<OptionNull<T>> for Option<T> {
    open spec fn obeys_from_spec() -> bool {
        true
    }

    open spec fn from_spec(value: OptionNull<T>) -> Self {
        value.inner()
    }
}

impl<T> From<OptionNull<T>> for Option<T> {
    fn from(value: OptionNull<T>) -> (r: Self) {
        value.0
    }
}

impl<T> vstd::std_specs::convert::FromSpecImpl<Option<T>> for OptionNull<T> {
    open spec fn obeys_from_spec() -> bool {
        true
    }

    closed spec fn from_spec(value: Option<T>) -> Self {
        OptionNull(value)
    }
}

impl<T> From<Option<T>> for OptionNull<T> {
    fn from(value: Option<T>) -> (r: Self)
        ensures
            r.inner() == value,
    {
        Self(value)
    }
}

impl<T> Default for OptionNull<T> {
    fn default() -> (r: Self)
        ensures
            r.inner() is None,
    {
        OptionNull(None)
    }
}

/// A numbered message, a request or the response to one.
#[derive(Debug, Clone)]
pub struct Packet<T> {
    pub id: u32,
    pub is_request: bool,
    pub value: T,
}

/// Asks for a build.
#[derive(Debug, Clone)]
pub struct BuildRequest {
    pub key: u32,
    pub entries: Vec<(String, String)>,
    pub flags: Vec<String>,
    pub write: bool,
    pub stdin_contents: OptionNull<Vec<u8>>,
    pub stdin_resolve_dir: OptionNull<String>,
    pub abs_working_dir: String,
    pub node_paths: Vec<String>,
    pub context: bool,
    pub plugins: Option<Vec<BuildPlugin>>,
    pub mangle_cache: Option<IndexMap<String, MangleCacheEntry>>,
}

/// An error or a warning of a build.
#[derive(Debug, Clone)]
pub struct Message {
    pub id: String,
    pub plugin_name: String,
    pub text: String,
    pub location: Option<Location>,
    pub notes: Vec<Note>,
    pub detail: Option<AnyValue>,
}

/// A remark that belongs to a message.
#[derive(Debug, Clone)]
pub struct Note {
    pub text: String,
    pub location: Option<Location>,
}

/// A place in a source file.
#[derive(Debug, Clone)]
pub struct Location {
    pub file: String,
    pub namespace: String,
    pub line: u32,
    pub column: u32,
    pub length: u32,
    pub line_text: String,
    pub suggestion: String,
}

/// An error or a warning that a plugin reports.
#[derive(Debug, Clone)]
pub struct PartialMessage {
    pub id: String,
    pub plugin_name: String,
    pub text: String,
    pub location: Option<Location>,
    pub notes: Vec<Note>,
    pub detail: u32,
}

/// What the development server served.
#[derive(Debug, Clone)]
pub struct ServeOnRequestArgs {
    pub remote_address: String,
    pub method: String,
    pub path: String,
    pub status: u32,
    /// The time to generate the response, not to send it.
    pub time_in_ms: u32,
}

/// How a file is imported.
#[derive(Debug, Clone, Copy, PartialEq, Eq, PartialOrd, Ord)]
pub enum ImportKind {
    EntryPoint,
    ImportStatement,
    RequireCall,
    DynamicImport,
    RequireResolve,
    ImportRule,
    ComposesFrom,
    UrlToken,
}

/// What a property name is mangled to, or whether it may be mangled.
#[derive(Debug, Clone)]
pub enum MangleCacheEntry {
    StringValue(String),
    BoolValue(bool),
}

/// Starts the development server.
#[derive(Debug, Clone)]
pub struct ServeRequest {
    pub key: u32,
    pub on_request: bool,
    pub port: Option<u32>,
    pub host: Option<String>,
    pub servedir: Option<String>,
    pub keyfile: Option<String>,
    pub certfile: Option<String>,
    pub fallback: Option<String>,
    pub cors_origin: Option<Vec<String>>,
}

/// Where the development server listens.
#[derive(Debug, Clone)]
pub struct ServeResponse {
    pub port: u32,
    pub hosts: Vec<String>,
}

/// The hooks that a plugin asks for.
#[derive(Debug, Clone)]
pub struct BuildPlugin {
    pub name: String,
    pub on_start: bool,
    pub on_end: bool,
    pub on_resolve: Vec<OnResolveSetupOptions>,
    pub on_load: Vec<OnLoadSetupOptions>,
}

/// Which paths a resolve hook is called for.
#[derive(Debug, Clone)]
pub struct OnResolveSetupOptions {
    pub id: u32,
    pub filter: String,
    pub namespace: String,
}

/// Which paths a load hook is called for.
#[derive(Debug, Clone)]
pub struct OnLoadSetupOptions {
    pub id: u32,
    pub filter: String,
    pub namespace: String,
}

/// The outcome of a build.
#[derive(Debug, Clone)]
pub struct BuildResponse {
    pub errors: Vec<Message>,
    pub warnings: Vec<Message>,
    pub output_files: Option<Vec<BuildOutputFile>>,
    pub metafile: Option<String>,
    pub mangle_cache: Option<IndexMap<String, MangleCacheEntry>>,
    pub write_to_stdout: Option<Vec<u8>>,
}

/// Tells a plugin that a build has ended; holds the outcome of the build.
#[derive(Debug, Clone)]
pub struct OnEndRequest {
    pub errors: Vec<Message>,
    pub warnings: Vec<Message>,
    pub output_files: Option<Vec<BuildOutputFile>>,
    pub metafile: Option<String>,
    pub mangle_cache: Option<IndexMap<String, MangleCacheEntry>>,
    pub write_to_stdout: Option<Vec<u8>>,
}

/// The messages that an end hook adds.
#[derive(Debug, Clone)]
pub struct OnEndResponse {
    pub errors: Vec<Message>,
    pub warnings: Vec<Message>,
}

/// A file that a build wrote.
#[derive(Debug, Clone)]
pub struct BuildOutputFile {
    pub path: String,
    pub contents: Vec<u8>,
    pub hash: String,
}

/// Asks whether the other side is there.
#[derive(Debug, Clone)]
pub struct PingRequest {}

/// Asks for the build of a context to be repeated.
#[derive(Debug, Clone)]
pub struct RebuildRequest {
    pub key: u32,
}

/// The outcome of a repeated build.
#[derive(Debug, Clone)]
pub struct RebuildResponse {
    pub errors: Vec<Message>,
    pub warnings: Vec<Message>,
}

/// Gives up a build context.
#[derive(Debug, Clone)]
pub struct DisposeRequest {
    pub key: u32,
}

/// Stops the build that is running.
#[derive(Debug, Clone)]
pub struct CancelRequest {
    pub key: u32,
}

/// Builds again whenever a file changes.
#[derive(Debug, Clone)]
pub struct WatchRequest {
    pub key: u32,
}

/// Tells that the development server served a request.
#[derive(Debug, Clone)]
pub struct OnServeRequest {
    pub key: u32,
    pub args: ServeOnRequestArgs,
}

/// Asks for one source text to be transformed.
#[derive(Debug, Clone)]
pub struct TransformRequest {
    pub flags: Vec<String>,
    pub input: Vec<u8>,
    pub input_fs: bool,
    pub mangle_cache: Option<IndexMap<String, MangleCacheEntry>>,
}

/// The outcome of a transformation.
#[derive(Debug, Clone)]
pub struct TransformResponse {
    pub errors: Vec<Message>,
    pub warnings: Vec<Message>,
    pub code: String,
    pub code_fs: bool,
    pub map: String,
    pub map_fs: bool,
    pub legal_comments: Option<String>,
    pub mangle_cache: Option<IndexMap<String, MangleCacheEntry>>,
}

/// Asks for messages to be laid out as text.
#[derive(Debug, Clone)]
pub struct FormatMsgsRequest {
    pub messages: Vec<Message>,
    pub is_warning: bool,
    pub color: Option<bool>,
    pub terminal_width: Option<u32>,
}

/// Messages laid out as text.
#[derive(Debug, Clone)]
pub struct FormatMsgsResponse {
    pub messages: Vec<String>,
}

/// Asks for a metafile to be summarised.
#[derive(Debug, Clone)]
pub struct AnalyzeMetafileRequest {
    pub metafile: String,
    pub color: Option<bool>,
    pub verbose: Option<bool>,
}

/// The summary of a metafile.
#[derive(Debug, Clone)]
pub struct AnalyzeMetafileResponse {
    pub result: String,
}

/// Tells a plugin that a build has started.
#[derive(Debug, Clone)]
pub struct OnStartRequest {
    pub key: u32,
}

/// The messages that a start hook adds.
#[derive(Debug, Clone)]
pub struct OnStartResponse {
    pub errors: Vec<PartialMessage>,
    pub warnings: Vec<PartialMessage>,
}

/// Asks for a path to be resolved.
#[derive(Debug, Clone)]
pub struct ResolveRequest {
    pub key: u32,
    pub path: String,
    pub plugin_name: String,
    pub importer: Option<String>,
    pub namespace: Option<String>,
    pub resolve_dir: Option<String>,
    pub kind: Option<String>,
    pub plugin_data: Option<u32>,
    pub with: Option<IndexMap<String, String>>,
}

/// The outcome of resolving a path.
#[derive(Debug, Clone)]
pub struct ResolveResponse {
    pub errors: Vec<Message>,
    pub warnings: Vec<Message>,
    pub path: String,
    pub external: bool,
    pub side_effects: bool,
    pub namespace: String,
    pub suffix: String,
    pub plugin_data: u32,
}

/// Asks a plugin to resolve a path.
#[derive(Debug)]
pub struct OnResolveRequest {
    pub key: u32,
    pub ids: Vec<u32>,
    pub path: String,
    pub importer: String,
    pub namespace: String,
    pub resolve_dir: Option<String>,
    pub kind: ImportKind,
    pub plugin_data: Option<u32>,
    pub with: IndexMap<String, String>,
}

/// What a resolve hook answers.
#[derive(Debug, Clone)]
pub struct OnResolveResponse {
    pub id: Option<u32>,
    pub plugin_name: Option<String>,
    pub errors: Option<Vec<PartialMessage>>,
    pub warnings: Option<Vec<PartialMessage>>,
    pub path: Option<String>,
    pub external: Option<bool>,
    pub side_effects: Option<bool>,
    pub namespace: Option<String>,
    pub suffix: Option<String>,
    pub plugin_data: Option<u32>,
    pub watch_files: Option<Vec<String>>,
    pub watch_dirs: Option<Vec<String>>,
}

/// Asks a plugin to load a file.
#[derive(Debug)]
pub struct OnLoadRequest {
    pub key: u32,
    pub ids: Vec<u32>,
    pub path: String,
    pub namespace: String,
    pub suffix: String,
    pub plugin_data: Option<u32>,
    pub with: IndexMap<String, String>,
}

/// What a load hook answers.
#[derive(Clone)]
pub struct OnLoadResponse {
    pub id: Option<u32>,
    pub plugin_name: Option<String>,
    pub errors: Option<Vec<PartialMessage>>,
    pub warnings: Option<Vec<PartialMessage>>,
    pub contents: Option<Vec<u8>>,
    pub resolve_dir: Option<String>,
    pub loader: Option<String>,
    pub plugin_data: Option<u32>,
    pub watch_files: Option<Vec<String>>,
    pub watch_dirs: Option<Vec<String>>,
}

/// A request that this side sends.
#[derive(Debug, Clone)]
pub enum AnyRequest {
    Build(Box<BuildRequest>),
    Rebuild(RebuildRequest),
    Dispose(DisposeRequest),
    Cancel(CancelRequest),
}

/// Who waits for the response to a request, and for which response.
#[derive(Debug)]
pub enum RequestKind<B, U, R> {
    Build(B),
    Dispose(U),
    Rebuild(R),
    Cancel(U),
}

/// The answer to a ping.
#[derive(Debug, Clone)]
pub struct PingResponse {}

/// A response of any kind.
#[derive(Debug, Clone)]
pub enum AnyResponse {
    Build(BuildResponse),
    Serve(ServeResponse),
    OnEnd(OnEndResponse),
    Rebuild(RebuildResponse),
    Transform(TransformResponse),
    FormatMsgs(FormatMsgsResponse),
    AnalyzeMetafile(AnalyzeMetafileResponse),
    OnStart(OnStartResponse),
    Resolve(ResolveResponse),
    OnResolve(OnResolveResponse),
    OnLoad(OnLoadResponse),
    Ping(PingResponse),
}

/// The contents of a packet with a fixed type.
#[derive(Debug, Clone)]
pub enum ProtocolMessage {
    Request(AnyRequest),
    Response(AnyResponse),
}

/// A packet that this side sends.
#[derive(Debug, Clone)]
pub struct ProtocolPacket {
    pub id: u32,
    pub is_request: bool,
    pub value: ProtocolMessage,
}

/// The model of a [`MangleCacheEntry`].
pub enum MangleModel {
    Text(Seq<char>),
    Bool(bool),
}

impl MangleModel {
    /// The value that stands for it.
    pub open spec fn value(self) -> Value {
        match self {
            MangleModel::Text(s) => Value::Text(s),
            MangleModel::Bool(b) => Value::Bool(b),
        }
    }
}

impl View for MangleCacheEntry {
    type V = MangleModel;

    open spec fn view(&self) -> MangleModel {
        match self {
            MangleCacheEntry::StringValue(s) => MangleModel::Text(s@),
            MangleCacheEntry::BoolValue(b) => MangleModel::Bool(*b),
        }
    }
}

impl Clone for OnResolveRequest {
    fn clone(&self) -> (r: Self)
        ensures
            r.key == self.key,
            r.ids@ == self.ids@,
            r.path == self.path,
            r.importer == self.importer,
            r.namespace == self.namespace,
            r.resolve_dir == self.resolve_dir,
            r.kind == self.kind,
            r.plugin_data == self.plugin_data,
            maps::string_entries(r.with) == maps::string_entries(self.with),
    {
        OnResolveRequest {
            key: self.key,
            ids: self.ids.clone(),
            path: self.path.clone(),
            importer: self.importer.clone(),
            namespace: self.namespace.clone(),
            resolve_dir: self.resolve_dir.clone(),
            kind: self.kind,
            plugin_data: self.plugin_data,
            with: maps::string_map_clone(&self.with),
        }
    }
}

impl Clone for OnLoadRequest {
    fn clone(&self) -> (r: Self)
        ensures
            r.key == self.key,
            r.ids@ == self.ids@,
            r.path == self.path,
            r.namespace == self.namespace,
            r.suffix == self.suffix,
            r.plugin_data == self.plugin_data,
            maps::string_entries(r.with) == maps::string_entries(self.with),
    {
        OnLoadRequest {
            key: self.key,
            ids: self.ids.clone(),
            path: self.path.clone(),
            namespace: self.namespace.clone(),
            suffix: self.suffix.clone(),
            plugin_data: self.plugin_data,
            with: maps::string_map_clone(&self.with),
        }
    }
}

impl Default for BuildRequest {
    fn default() -> (r: Self)
        ensures
            r.key == 0,
            r.entries@.len() == 0,
            r.flags@.len() == 0,
            !r.write,
            r.stdin_contents.inner() is None,
            r.stdin_resolve_dir.inner() is None,
            r.abs_working_dir@.len() == 0,
            r.node_paths@.len() == 0,
            !r.context,
            r.plugins is None,
            r.mangle_cache is None,
    {
        BuildRequest {
            key: 0,
            entries: Vec::new(),
            flags: Vec::new(),
            write: false,
            stdin_contents: OptionNull(None),
            stdin_resolve_dir: OptionNull(None),
            abs_working_dir: String::new(),
            node_paths: Vec::new(),
            context: false,
            plugins: None,
            mangle_cache: None,
        }
    }
}

impl Default for PartialMessage {
    fn default() -> (r: Self)
        ensures
            r.id@.len() == 0,
            r.plugin_name@.len() == 0,
            r.text@.len() == 0,
            r.location is None,
            r.notes@.len() == 0,
            r.detail == 0,
    {
        PartialMessage {
            id: String::new(),
            plugin_name: String::new(),
            text: String::new(),
            location: None,
            notes: Vec::new(),
            detail: 0,
        }
    }
}

impl Default for OnEndResponse {
    fn default() -> (r: Self)
        ensures
            r.errors@.len() == 0,
            r.warnings@.len() == 0,
    {
        OnEndResponse { errors: Vec::new(), warnings: Vec::new() }
    }
}

impl Default for OnStartResponse {
    fn default() -> (r: Self)
        ensures
            r.errors@.len() == 0,
            r.warnings@.len() == 0,
    {
        OnStartResponse { errors: Vec::new(), warnings: Vec::new() }
    }
}

impl OnResolveResponse {
    /// An answer that holds nothing but, perhaps, an id.
    pub open spec fn bare(id: Option<u32>) -> OnResolveResponse {
        OnResolveResponse {
            id,
            plugin_name: None,
            errors: None,
            warnings: None,
            path: None,
            external: None,
            side_effects: None,
            namespace: None,
            suffix: None,
            plugin_data: None,
            watch_files: None,
            watch_dirs: None,
        }
    }
}

impl Default for OnResolveResponse {
    fn default() -> (r: Self)
        ensures
            r == OnResolveResponse::bare(None),
    {
        OnResolveResponse {
            id: None,
            plugin_name: None,
            errors: None,
            warnings: None,
            path: None,
            external: None,
            side_effects: None,
            namespace: None,
            suffix: None,
            plugin_data: None,
            watch_files: None,
            watch_dirs: None,
        }
    }
}

impl OnLoadResponse {
    /// An answer that holds nothing but, perhaps, an id.
    pub open spec fn bare(id: Option<u32>) -> OnLoadResponse {
        OnLoadResponse {
            id,
            plugin_name: None,
            errors: None,
            warnings: None,
            contents: None,
            resolve_dir: None,
            loader: None,
            plugin_data: None,
            watch_files: None,
            watch_dirs: None,
        }
    }
}

impl Default for OnLoadResponse {
    fn default() -> (r: Self)
        ensures
            r == OnLoadResponse::bare(None),
    {
        OnLoadResponse {
            id: None,
            plugin_name: None,
            errors: None,
            warnings: None,
            contents: None,
            resolve_dir: None,
            loader: None,
            plugin_data: None,
            watch_files: None,
            watch_dirs: None,
        }
    }
}

impl Default for PingResponse {
    fn default() -> (r: Self)
        ensures
            r == (PingResponse {  }),
    {
        PingResponse {  }
    }
}

impl vstd::std_specs::convert::FromSpecImpl<BuildResponse> for AnyResponse {
    open spec fn obeys_from_spec() -> bool {
        true
    }

    open spec fn from_spec(value: BuildResponse) -> Self {
        AnyResponse::Build(value)
    }
}

impl From<BuildResponse> for AnyResponse {
    fn from(value: BuildResponse) -> (r: Self) {
        AnyResponse::Build(value)
    }
}

impl vstd::std_specs::convert::FromSpecImpl<ServeResponse> for AnyResponse {
    open spec fn obeys_from_spec() -> bool {
        true
    }

    open spec fn from_spec(value: ServeResponse) -> Self {
        AnyResponse::Serve(value)
    }
}

impl From<ServeResponse> for AnyResponse {
    fn from(value: ServeResponse) -> (r: Self) {
        AnyResponse::Serve(value)
    }
}

impl vstd::std_specs::convert::FromSpecImpl<OnEndResponse> for AnyResponse {
    open spec fn obeys_from_spec() -> bool {
        true
    }

    open spec fn from_spec(value: OnEndResponse) -> Self {
        AnyResponse::OnEnd(value)
    }
}

impl From<OnEndResponse> for AnyResponse {
    fn from(value: OnEndResponse) -> (r: Self) {
        AnyResponse::OnEnd(value)
    }
}

impl vstd::std_specs::convert::FromSpecImpl<RebuildResponse> for AnyResponse {
    open spec fn obeys_from_spec() -> bool {
        true
    }

    open spec fn from_spec(value: RebuildResponse) -> Self {
        AnyResponse::Rebuild(value)
    }
}

impl From<RebuildResponse> for AnyResponse {
    fn from(value: RebuildResponse) -> (r: Self) {
        AnyResponse::Rebuild(value)
    }
}

impl vstd::std_specs::convert::FromSpecImpl<TransformResponse> for AnyResponse {
    open spec fn obeys_from_spec() -> bool {
        true
    }

    open spec fn from_spec(value: TransformResponse) -> Self {
        AnyResponse::Transform(value)
    }
}

impl From<TransformResponse> for AnyResponse {
    fn from(value: TransformResponse) -> (r: Self) {
        AnyResponse::Transform(value)
    }
}

impl vstd::std_specs::convert::FromSpecImpl<FormatMsgsResponse> for AnyResponse {
    open spec fn obeys_from_spec() -> bool {
        true
    }

    open spec fn from_spec(value: FormatMsgsResponse) -> Self {
        AnyResponse::FormatMsgs(value)
    }
}

impl From<FormatMsgsResponse> for AnyResponse {
    fn from(value: FormatMsgsResponse) -> (r: Self) {
        AnyResponse::FormatMsgs(value)
    }
}

impl vstd::std_specs::convert::FromSpecImpl<AnalyzeMetafileResponse> for AnyResponse {
    open spec fn obeys_from_spec() -> bool {
        true
    }

    open spec fn from_spec(value: AnalyzeMetafileResponse) -> Self {
        AnyResponse::AnalyzeMetafile(value)
    }
}

impl From<AnalyzeMetafileResponse> for AnyResponse {
    fn from(value: AnalyzeMetafileResponse) -> (r: Self) {
        AnyResponse::AnalyzeMetafile(value)
    }
}

impl vstd::std_specs::convert::FromSpecImpl<OnStartResponse> for AnyResponse {
    open spec fn obeys_from_spec() -> bool {
        true
    }

    open spec fn from_spec(value: OnStartResponse) -> Self {
        AnyResponse::OnStart(value)
    }
}

impl From<OnStartResponse> for AnyResponse {
    fn from(value: OnStartResponse) -> (r: Self) {
        AnyResponse::OnStart(value)
    }
}

impl vstd::std_specs::convert::FromSpecImpl<ResolveResponse> for AnyResponse {
    open spec fn obeys_from_spec() -> bool {
        true
    }

    open spec fn from_spec(value: ResolveResponse) -> Self {
        AnyResponse::Resolve(value)
    }
}

impl From<ResolveResponse> for AnyResponse {
    fn from(value: ResolveResponse) -> (r: Self) {
        AnyResponse::Resolve(value)
    }
}

impl vstd::std_specs::convert::FromSpecImpl<OnResolveResponse> for AnyResponse {
    open spec fn obeys_from_spec() -> bool {
        true
    }

    open spec fn from_spec(value: OnResolveResponse) -> Self {
        AnyResponse::OnResolve(value)
    }
}

impl From<OnResolveResponse> for AnyResponse {
    fn from(value: OnResolveResponse) -> (r: Self) {
        AnyResponse::OnResolve(value)
    }
}

impl vstd::std_specs::convert::FromSpecImpl<OnLoadResponse> for AnyResponse {
    open spec fn obeys_from_spec() -> bool {
        true
    }

    open spec fn from_spec(value: OnLoadResponse) -> Self {
        AnyResponse::OnLoad(value)
    }
}

impl From<OnLoadResponse> for AnyResponse {
    fn from(value: OnLoadResponse) -> (r: Self) {
        AnyResponse::OnLoad(value)
    }
}

impl vstd::std_specs::convert::FromSpecImpl<PingResponse> for AnyResponse {
    open spec fn obeys_from_spec() -> bool {
        true
    }

    open spec fn from_spec(value: PingResponse) -> Self {
        AnyResponse::Ping(value)
    }
}

impl From<PingResponse> for AnyResponse {
    fn from(value: PingResponse) -> (r: Self) {
        AnyResponse::Ping(value)
    }
}

} // verus!
