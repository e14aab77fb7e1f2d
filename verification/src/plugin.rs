//! The hooks of a plugin: what they are given, what they return, and how that is answered.
use crate::flags::BuiltinLoader;
use crate::protocol::convert::FromMap;
use crate::protocol::encode::Encode;
use crate::protocol::maps;
use crate::protocol::messages::{
    AnyResponse, BuildOutputFile, ImportKind, MangleCacheEntry, Message, OnEndRequest,
    OnEndResponse, OnLoadRequest, OnLoadResponse, OnResolveRequest, OnResolveResponse,
    OnStartRequest, OnStartResponse, PartialMessage, ProtocolMessage, ProtocolPacket,
};
use indexmap::IndexMap;
use vstd::prelude::*;

verus! {

/// A plugin whose hooks leave everything as it is.
pub struct NoopPluginHandler;

/// What a resolve hook is given.
#[derive(Debug)]
pub struct OnResolveArgs {
    pub key: u32,
    pub ids: Vec<u32>,
    pub path: String,
    pub importer: Option<String>,
    pub kind: ImportKind,
    pub namespace: Option<String>,
    pub resolve_dir: Option<String>,
    pub with: IndexMap<String, String>,
}

impl Clone for OnResolveArgs {
    fn clone(&self) -> (r: Self)
        ensures
            r.key == self.key,
            r.ids@ == self.ids@,
            r.path == self.path,
            r.importer == self.importer,
            r.kind == self.kind,
            r.namespace == self.namespace,
            r.resolve_dir == self.resolve_dir,
            maps::string_entries(r.with) == maps::string_entries(self.with),
    {
        OnResolveArgs {
            key: self.key,
            ids: self.ids.clone(),
            path: self.path.clone(),
            importer: self.importer.clone(),
            kind: self.kind,
            namespace: self.namespace.clone(),
            resolve_dir: self.resolve_dir.clone(),
            with: maps::string_map_clone(&self.with),
        }
    }
}

/// What a resolve hook returns.
#[derive(Debug)]
pub struct OnResolveResult {
    pub plugin_name: Option<String>,
    pub errors: Option<Vec<PartialMessage>>,
    pub warnings: Option<Vec<PartialMessage>>,
    pub path: Option<String>,
    pub external: Option<bool>,
    pub side_effects: Option<bool>,
    pub namespace: Option<String>,
    pub suffix: Option<String>,
    pub plugin_data: Option<u32>,
    pub watch_files: Option<Vec<String>>,
    pub watch_dirs: Option<Vec<String>>,
}

impl Default for OnResolveResult {
    fn default() -> (r: Self)
        ensures
            r == (OnResolveResult {
                plugin_name: None,
                errors: None,
                warnings: None,
                path: None,
                external: None,
                side_effects: None,
                namespace: None,
                suffix: None,
                plugin_data: None,
                watch_files: None,
                watch_dirs: None,
            }),
    {
        OnResolveResult {
            plugin_name: None,
            errors: None,
            warnings: None,
            path: None,
            external: None,
            side_effects: None,
            namespace: None,
            suffix: None,
            plugin_data: None,
            watch_files: None,
            watch_dirs: None,
        }
    }
}

/// What a load hook is given.
#[derive(Debug)]
pub struct OnLoadArgs {
    pub key: u32,
    pub ids: Vec<u32>,
    pub path: String,
    pub namespace: String,
    pub suffix: String,
    pub plugin_data: Option<u32>,
    pub with: IndexMap<String, String>,
}

/// What a load hook returns.
pub struct OnLoadResult {
    pub id: Option<u32>,
    pub plugin_name: Option<String>,
    pub errors: Option<Vec<PartialMessage>>,
    pub warnings: Option<Vec<PartialMessage>>,
    pub contents: Option<Vec<u8>>,
    pub resolve_dir: Option<String>,
    pub loader: Option<BuiltinLoader>,
    pub plugin_data: Option<u32>,
    pub watch_files: Option<Vec<String>>,
    pub watch_dirs: Option<Vec<String>>,
}

impl Default for OnLoadResult {
    fn default() -> (r: Self)
        ensures
            r == (OnLoadResult {
                id: None,
                plugin_name: None,
                errors: None,
                warnings: None,
                contents: None,
                resolve_dir: None,
                loader: None,
                plugin_data: None,
                watch_files: None,
                watch_dirs: None,
            }),
    {
        OnLoadResult {
            id: None,
            plugin_name: None,
            errors: None,
            warnings: None,
            contents: None,
            resolve_dir: None,
            loader: None,
            plugin_data: None,
            watch_files: None,
            watch_dirs: None,
        }
    }
}

/// What a start hook is given.
#[derive(Debug)]
pub struct OnStartArgs {
    pub key: u32,
}

/// What a start hook returns.
pub struct OnStartResult {
    pub errors: Option<Vec<PartialMessage>>,
    pub warnings: Option<Vec<PartialMessage>>,
}

impl Default for OnStartResult {
    fn default() -> (r: Self)
        ensures
            r == (OnStartResult { errors: None, warnings: None }),
    {
        OnStartResult { errors: None, warnings: None }
    }
}

/// What an end hook is given.
#[derive(Debug)]
pub struct OnEndArgs {
    pub errors: Vec<Message>,
    pub warnings: Vec<Message>,
    pub output_files: Option<Vec<BuildOutputFile>>,
    pub metafile: Option<String>,
    pub mangle_cache: Option<IndexMap<String, MangleCacheEntry>>,
    pub write_to_stdout: Option<Vec<u8>>,
}

/// What an end hook returns.
pub struct OnEndResult {
    pub errors: Option<Vec<Message>>,
    pub warnings: Option<Vec<Message>>,
}

impl Default for OnEndResult {
    fn default() -> (r: Self)
        ensures
            r == (OnEndResult { errors: None, warnings: None }),
    {
        OnEndResult { errors: None, warnings: None }
    }
}

/// An empty string stands for an absent one.
pub open spec fn non_empty(s: String) -> Option<String> {
    if s@.len() == 0 {
        None
    } else {
        Some(s)
    }
}

fn empty_none(s: String) -> (r: Option<String>)
    ensures
        r == non_empty(s),
{
    if s.as_str().is_empty() {
        None
    } else {
        Some(s)
    }
}

impl vstd::std_specs::convert::FromSpecImpl<OnResolveRequest> for OnResolveArgs {
    open spec fn obeys_from_spec() -> bool {
        true
    }

    open spec fn from_spec(on_resolve: OnResolveRequest) -> Self {
        OnResolveArgs {
            key: on_resolve.key,
            ids: on_resolve.ids,
            path: on_resolve.path,
            importer: non_empty(on_resolve.importer),
            kind: on_resolve.kind,
            namespace: non_empty(on_resolve.namespace),
            resolve_dir: on_resolve.resolve_dir,
            with: on_resolve.with,
        }
    }
}

impl From<OnResolveRequest> for OnResolveArgs {
    fn from(on_resolve: OnResolveRequest) -> (r: Self) {
        OnResolveArgs {
            key: on_resolve.key,
            ids: on_resolve.ids,
            path: on_resolve.path,
            importer: empty_none(on_resolve.importer),
            kind: on_resolve.kind,
            namespace: empty_none(on_resolve.namespace),
            resolve_dir: on_resolve.resolve_dir,
            with: on_resolve.with,
        }
    }
}

impl vstd::std_specs::convert::FromSpecImpl<OnLoadRequest> for OnLoadArgs {
    open spec fn obeys_from_spec() -> bool {
        true
    }

    open spec fn from_spec(on_load: OnLoadRequest) -> Self {
        OnLoadArgs {
            key: on_load.key,
            ids: on_load.ids,
            path: on_load.path,
            namespace: on_load.namespace,
            suffix: on_load.suffix,
            plugin_data: on_load.plugin_data,
            with: on_load.with,
        }
    }
}

impl From<OnLoadRequest> for OnLoadArgs {
    fn from(on_load: OnLoadRequest) -> (r: Self) {
        OnLoadArgs {
            key: on_load.key,
            ids: on_load.ids,
            path: on_load.path,
            namespace: on_load.namespace,
            suffix: on_load.suffix,
            plugin_data: on_load.plugin_data,
            with: on_load.with,
        }
    }
}

impl vstd::std_specs::convert::FromSpecImpl<OnStartRequest> for OnStartArgs {
    open spec fn obeys_from_spec() -> bool {
        true
    }

    open spec fn from_spec(on_start: OnStartRequest) -> Self {
        OnStartArgs { key: on_start.key }
    }
}

impl From<OnStartRequest> for OnStartArgs {
    fn from(on_start: OnStartRequest) -> (r: Self) {
        OnStartArgs { key: on_start.key }
    }
}

impl vstd::std_specs::convert::FromSpecImpl<OnEndRequest> for OnEndArgs {
    open spec fn obeys_from_spec() -> bool {
        true
    }

    open spec fn from_spec(on_end: OnEndRequest) -> Self {
        OnEndArgs {
            errors: on_end.errors,
            warnings: on_end.warnings,
            output_files: on_end.output_files,
            metafile: on_end.metafile,
            mangle_cache: on_end.mangle_cache,
            write_to_stdout: on_end.write_to_stdout,
        }
    }
}

impl From<OnEndRequest> for OnEndArgs {
    fn from(on_end: OnEndRequest) -> (r: Self) {
        OnEndArgs {
            errors: on_end.errors,
            warnings: on_end.warnings,
            output_files: on_end.output_files,
            metafile: on_end.metafile,
            mangle_cache: on_end.mangle_cache,
            write_to_stdout: on_end.write_to_stdout,
        }
    }
}

/// The answer of a resolve hook that returned `result` to the request with number `id`.
pub open spec fn resolve_response(id: u32, result: Option<OnResolveResult>) -> OnResolveResponse {
    match result {
        Some(result) => OnResolveResponse {
            id: Some(id),
            plugin_name: result.plugin_name,
            errors: result.errors,
            warnings: result.warnings,
            path: result.path,
            external: result.external,
            side_effects: result.side_effects,
            namespace: result.namespace,
            suffix: result.suffix,
            plugin_data: result.plugin_data,
            watch_files: result.watch_files,
            watch_dirs: result.watch_dirs,
        },
        None => OnResolveResponse::bare(Some(id)),
    }
}

/// Answers for a resolve hook.
pub fn resolve_result_to_response(id: u32, result: Option<OnResolveResult>) -> (r:
    OnResolveResponse)
    ensures
        r == resolve_response(id, result),
{
    match result {
        Some(result) => OnResolveResponse {
            id: Some(id),
            plugin_name: result.plugin_name,
            errors: result.errors,
            warnings: result.warnings,
            path: result.path,
            external: result.external,
            side_effects: result.side_effects,
            namespace: result.namespace,
            suffix: result.suffix,
            plugin_data: result.plugin_data,
            watch_files: result.watch_files,
            watch_dirs: result.watch_dirs,
        },
        None => {
            let mut response = OnResolveResponse::default();
            response.id = Some(id);
            response
        },
    }
}

/// `response` is the answer of a load hook that returned `result` to the request with number
/// `id`. A result brings its own id, and its loader is sent by name.
pub open spec fn is_load_response(
    id: u32,
    result: Option<OnLoadResult>,
    response: OnLoadResponse,
) -> bool {
    match result {
        Some(result) => {
            &&& response == OnLoadResponse {
                id: result.id,
                plugin_name: result.plugin_name,
                errors: result.errors,
                warnings: result.warnings,
                contents: result.contents,
                resolve_dir: result.resolve_dir,
                loader: response.loader,
                plugin_data: result.plugin_data,
                watch_files: result.watch_files,
                watch_dirs: result.watch_dirs,
            }
            &&& match result.loader {
                Some(loader) => response.loader matches Some(name) && name@ == loader.text(),
                None => response.loader is None,
            }
        },
        None => response == OnLoadResponse::bare(Some(id)),
    }
}

/// Answers for a load hook.
pub fn load_result_to_response(id: u32, result: Option<OnLoadResult>) -> (r: OnLoadResponse)
    ensures
        is_load_response(id, result, r),
{
    match result {
        Some(result) => OnLoadResponse {
            id: result.id,
            plugin_name: result.plugin_name,
            errors: result.errors,
            warnings: result.warnings,
            contents: result.contents,
            resolve_dir: result.resolve_dir,
            loader: match result.loader {
                Some(loader) => Some(loader.to_string()),
                None => None,
            },
            plugin_data: result.plugin_data,
            watch_files: result.watch_files,
            watch_dirs: result.watch_dirs,
        },
        None => {
            let mut response = OnLoadResponse::default();
            response.id = Some(id);
            response
        },
    }
}

/// The list itself, or none of it.
pub open spec fn list_or_empty<T>(list: Option<Vec<T>>) -> Seq<T> {
    match list {
        Some(list) => list@,
        None => Seq::empty(),
    }
}

fn unwrap_or_empty<T>(list: Option<Vec<T>>) -> (r: Vec<T>)
    ensures
        r@ == list_or_empty(list),
{
    match list {
        Some(list) => list,
        None => Vec::new(),
    }
}

/// What a hook returned, if it did not fail.
pub open spec fn returned<T, E>(result: Result<Option<T>, E>) -> Option<Option<T>> {
    match result {
        Ok(returned) => Some(returned),
        Err(_) => None,
    }
}

/// A hook: the request that calls it, what it is given, what it returns and how it is answered.
pub trait PluginHook {
    type Request: FromMap;

    type Response;

    type Args;

    type Returned;

    /// `response` is the answer to the request with number `id`; `returned` is what the hook
    /// returned, `None` if it failed.
    spec fn answers(
        id: u32,
        returned: Option<Option<Self::Returned>>,
        response: Self::Response,
    ) -> bool;

    /// What the hook is given on a request.
    spec fn args(request: Self::Request) -> Self::Args;

    /// The answer as a response of any kind.
    spec fn any(response: Self::Response) -> AnyResponse;

    fn args_from(request: Self::Request) -> (r: Self::Args)
        ensures
            r == Self::args(request),
    ;

    fn response_from_result<E>(id: u32, result: Result<Option<Self::Returned>, E>) -> (r:
        Self::Response)
        ensures
            Self::answers(id, returned(result), r),
    ;

    fn into_any(response: Self::Response) -> (r: AnyResponse)
        ensures
            r == Self::any(response),
            r.encodable(),
    ;
}

pub struct OnResolveHook;

impl PluginHook for OnResolveHook {
    type Request = OnResolveRequest;

    type Response = OnResolveResponse;

    type Args = OnResolveArgs;

    type Returned = OnResolveResult;

    open spec fn answers(
        id: u32,
        returned: Option<Option<OnResolveResult>>,
        response: OnResolveResponse,
    ) -> bool {
        match returned {
            Some(result) => response == resolve_response(id, result),
            None => response == OnResolveResponse::bare(None),
        }
    }

    open spec fn args(request: OnResolveRequest) -> OnResolveArgs {
        vstd::std_specs::convert::FromSpec::from_spec(request)
    }

    open spec fn any(response: OnResolveResponse) -> AnyResponse {
        AnyResponse::OnResolve(response)
    }

    fn args_from(request: OnResolveRequest) -> (r: OnResolveArgs) {
        OnResolveArgs::from(request)
    }

    fn response_from_result<E>(id: u32, result: Result<Option<OnResolveResult>, E>) -> (r:
        OnResolveResponse) {
        match result {
            Ok(result) => resolve_result_to_response(id, result),
            Err(_) => OnResolveResponse::default(),
        }
    }

    fn into_any(response: OnResolveResponse) -> (r: AnyResponse) {
        AnyResponse::from(response)
    }
}

pub struct OnLoadHook;

impl PluginHook for OnLoadHook {
    type Request = OnLoadRequest;

    type Response = OnLoadResponse;

    type Args = OnLoadArgs;

    type Returned = OnLoadResult;

    open spec fn answers(
        id: u32,
        returned: Option<Option<OnLoadResult>>,
        response: OnLoadResponse,
    ) -> bool {
        match returned {
            Some(result) => is_load_response(id, result, response),
            None => response == OnLoadResponse::bare(None),
        }
    }

    open spec fn args(request: OnLoadRequest) -> OnLoadArgs {
        vstd::std_specs::convert::FromSpec::from_spec(request)
    }

    open spec fn any(response: OnLoadResponse) -> AnyResponse {
        AnyResponse::OnLoad(response)
    }

    fn args_from(request: OnLoadRequest) -> (r: OnLoadArgs) {
        OnLoadArgs::from(request)
    }

    fn response_from_result<E>(id: u32, result: Result<Option<OnLoadResult>, E>) -> (r:
        OnLoadResponse) {
        match result {
            Ok(result) => load_result_to_response(id, result),
            Err(_) => OnLoadResponse::default(),
        }
    }

    fn into_any(response: OnLoadResponse) -> (r: AnyResponse) {
        AnyResponse::from(response)
    }
}

pub struct OnStartHook;

impl PluginHook for OnStartHook {
    type Request = OnStartRequest;

    type Response = OnStartResponse;

    type Args = OnStartArgs;

    type Returned = OnStartResult;

    /// The messages of the hook; none where it failed or returned nothing.
    open spec fn answers(
        id: u32,
        returned: Option<Option<OnStartResult>>,
        response: OnStartResponse,
    ) -> bool {
        match returned {
            Some(Some(result)) => {
                &&& response.errors@ == list_or_empty(result.errors)
                &&& response.warnings@ == list_or_empty(result.warnings)
            },
            _ => response.errors@.len() == 0 && response.warnings@.len() == 0,
        }
    }

    open spec fn args(request: OnStartRequest) -> OnStartArgs {
        vstd::std_specs::convert::FromSpec::from_spec(request)
    }

    open spec fn any(response: OnStartResponse) -> AnyResponse {
        AnyResponse::OnStart(response)
    }

    fn args_from(request: OnStartRequest) -> (r: OnStartArgs) {
        OnStartArgs::from(request)
    }

    fn response_from_result<E>(_id: u32, result: Result<Option<OnStartResult>, E>) -> (r:
        OnStartResponse) {
        match result {
            Ok(Some(result)) => OnStartResponse {
                errors: unwrap_or_empty(result.errors),
                warnings: unwrap_or_empty(result.warnings),
            },
            Ok(None) => OnStartResponse::default(),
            Err(_) => OnStartResponse::default(),
        }
    }

    fn into_any(response: OnStartResponse) -> (r: AnyResponse) {
        AnyResponse::from(response)
    }
}

pub struct OnEndHook;

impl PluginHook for OnEndHook {
    type Request = OnEndRequest;

    type Response = OnEndResponse;

    type Args = OnEndArgs;

    type Returned = OnEndResult;

    /// The messages of the hook; none where it failed or returned nothing.
    open spec fn answers(
        id: u32,
        returned: Option<Option<OnEndResult>>,
        response: OnEndResponse,
    ) -> bool {
        match returned {
            Some(Some(result)) => {
                &&& response.errors@ == list_or_empty(result.errors)
                &&& response.warnings@ == list_or_empty(result.warnings)
            },
            _ => response.errors@.len() == 0 && response.warnings@.len() == 0,
        }
    }

    open spec fn args(request: OnEndRequest) -> OnEndArgs {
        vstd::std_specs::convert::FromSpec::from_spec(request)
    }

    open spec fn any(response: OnEndResponse) -> AnyResponse {
        AnyResponse::OnEnd(response)
    }

    fn args_from(request: OnEndRequest) -> (r: OnEndArgs) {
        OnEndArgs::from(request)
    }

    fn response_from_result<E>(_id: u32, result: Result<Option<OnEndResult>, E>) -> (r:
        OnEndResponse) {
        match result {
            Ok(Some(result)) => OnEndResponse {
                errors: unwrap_or_empty(result.errors),
                warnings: unwrap_or_empty(result.warnings),
            },
            Ok(None) => OnEndResponse::default(),
            Err(_) => OnEndResponse::default(),
        }
    }

    fn into_any(response: OnEndResponse) -> (r: AnyResponse) {
        AnyResponse::from(response)
    }
}

/// The packet that answers the request with number `id`, once the hook was called. Such a packet
/// can always be sent.
pub fn hook_packet<H: PluginHook, E>(id: u32, result: Result<Option<H::Returned>, E>) -> (r:
    ProtocolPacket)
    ensures
        r.id == id,
        !r.is_request,
        r.value.encodable(),
        exists|response: H::Response|
            #[trigger] H::answers(id, returned(result), response) && r.value
                == ProtocolMessage::Response(H::any(response)),
{
    let response = H::response_from_result(id, result);
    ProtocolPacket {
        id,
        is_request: false,
        value: ProtocolMessage::Response(H::into_any(response)),
    }
}

} // verus!
