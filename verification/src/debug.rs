//! How values are printed where their parts are not simply printed one by one.
//!
//! What reaches a formatter is left to `core::fmt`; what is handed to it is chosen here.
use crate::flags::BuiltinLoader;
use crate::plugin;
use crate::protocol::messages;
use crate::protocol::messages::PartialMessage;
use vstd::prelude::*;

verus! {

/// `core::fmt::Formatter`.
#[verifier::external_type_specification]
#[verifier::external_body]
pub struct ExFormatter<'a>(core::fmt::Formatter<'a>);

/// `core::fmt::Error`.
#[verifier::external_type_specification]
#[verifier::external_body]
pub struct ExFormatError(core::fmt::Error);

/// `core::fmt::Debug::fmt`: prints a value as the formatter asks for. Nothing is claimed of what
/// is printed.
#[verifier::external_body]
pub(crate) fn debug_fmt<T: core::fmt::Debug>(
    value: &T,
    f: &mut core::fmt::Formatter<'_>,
) -> (r: Result<(), core::fmt::Error>) {
    value.fmt(f)
}

/// `write!` with `{:?}`: prints a value on one line, whatever the formatter asks for. Nothing is
/// claimed of what is printed.
#[verifier::external_body]
pub(crate) fn write_debug<T: core::fmt::Debug>(
    value: &T,
    f: &mut core::fmt::Formatter<'_>,
) -> (r: Result<(), core::fmt::Error>) {
    write!(f, "{:?}", value)
}

/// `Formatter::write_str`: prints a text as it is. Nothing is claimed of what is printed.
#[verifier::external_body]
pub(crate) fn write_text(text: &str, f: &mut core::fmt::Formatter<'_>) -> (r: Result<
    (),
    core::fmt::Error,
>) {
    f.write_str(text)
}

/// `Formatter::debug_tuple`: prints a name and, in brackets after it, a value, as the formatter
/// asks for. Nothing is claimed of what is printed.
#[verifier::external_body]
pub(crate) fn tuple_fmt<T: core::fmt::Debug>(
    name: &str,
    value: &T,
    f: &mut core::fmt::Formatter<'_>,
) -> (r: Result<(), core::fmt::Error>) {
    f.debug_tuple(name).field(value).finish()
}

/// What `String::from_utf8_lossy` makes of bytes.
pub uninterp spec fn lossy_text(bytes: Seq<u8>) -> Seq<char>;

/// `String::from_utf8_lossy`: the text with these bytes, other characters in place of what is not
/// UTF-8. Where the bytes are UTF-8, it is the string that they encode.
#[verifier::external_body]
fn string_from_utf8_lossy(bytes: &[u8]) -> (r: String)
    ensures
        r@ == lossy_text(bytes@),
        vstd::utf8::valid_utf8(bytes@) ==> r@ == vstd::utf8::decode_utf8(bytes@),
{
    String::from_utf8_lossy(bytes).into_owned()
}

/// `text` is how contents are printed: contents that are UTF-8 as the string they encode.
pub open spec fn printed_contents(contents: Option<Vec<u8>>, text: Option<String>) -> bool {
    match contents {
        Some(bytes) => text matches Some(s) && s@ == lossy_text(bytes@) && (
        vstd::utf8::valid_utf8(bytes@) ==> s@ == vstd::utf8::decode_utf8(bytes@)),
        None => text is None,
    }
}

fn print_contents(contents: &Option<Vec<u8>>) -> (r: Option<String>)
    ensures
        printed_contents(*contents, r),
{
    match contents {
        Some(bytes) => Some(string_from_utf8_lossy(bytes.as_slice())),
        None => None,
    }
}

/// What is printed of the answer of a load hook: its contents as text.
#[derive(Debug)]
pub struct OnLoadResponse<'a> {
    pub id: &'a Option<u32>,
    pub plugin_name: &'a Option<String>,
    pub errors: &'a Option<Vec<PartialMessage>>,
    pub warnings: &'a Option<Vec<PartialMessage>>,
    pub contents: Option<String>,
    pub resolve_dir: &'a Option<String>,
    pub loader: &'a Option<String>,
    pub plugin_data: &'a Option<u32>,
    pub watch_files: &'a Option<Vec<String>>,
    pub watch_dirs: &'a Option<Vec<String>>,
}

/// What is printed of an answer of a load hook.
pub fn printed_response(response: &messages::OnLoadResponse) -> (r: OnLoadResponse<'_>)
    ensures
        *r.id == response.id,
        *r.plugin_name == response.plugin_name,
        *r.errors == response.errors,
        *r.warnings == response.warnings,
        printed_contents(response.contents, r.contents),
        *r.resolve_dir == response.resolve_dir,
        *r.loader == response.loader,
        *r.plugin_data == response.plugin_data,
        *r.watch_files == response.watch_files,
        *r.watch_dirs == response.watch_dirs,
{
    OnLoadResponse {
        id: &response.id,
        plugin_name: &response.plugin_name,
        errors: &response.errors,
        warnings: &response.warnings,
        contents: print_contents(&response.contents),
        resolve_dir: &response.resolve_dir,
        loader: &response.loader,
        plugin_data: &response.plugin_data,
        watch_files: &response.watch_files,
        watch_dirs: &response.watch_dirs,
    }
}

impl core::fmt::Debug for messages::OnLoadResponse {
    /// Hands what [`printed_response`] gives to the formatter. What is printed is stated there:
    /// nothing can be said of the formatter, which may fail at any time.
    fn fmt(&self, f: &mut core::fmt::Formatter<'_>) -> (r: Result<(), core::fmt::Error>) {
        debug_fmt(&printed_response(self), f)
    }
}

/// What is printed of the result of a load hook: its contents as text.
#[derive(Debug)]
pub struct OnLoadResult<'a> {
    pub id: &'a Option<u32>,
    pub plugin_name: &'a Option<String>,
    pub errors: &'a Option<Vec<PartialMessage>>,
    pub warnings: &'a Option<Vec<PartialMessage>>,
    pub contents: Option<String>,
    pub resolve_dir: &'a Option<String>,
    pub loader: &'a Option<BuiltinLoader>,
    pub plugin_data: &'a Option<u32>,
    pub watch_files: &'a Option<Vec<String>>,
    pub watch_dirs: &'a Option<Vec<String>>,
}

/// What is printed of a result of a load hook.
pub fn printed_result(result: &plugin::OnLoadResult) -> (r: OnLoadResult<'_>)
    ensures
        *r.id == result.id,
        *r.plugin_name == result.plugin_name,
        *r.errors == result.errors,
        *r.warnings == result.warnings,
        printed_contents(result.contents, r.contents),
        *r.resolve_dir == result.resolve_dir,
        *r.loader == result.loader,
        *r.plugin_data == result.plugin_data,
        *r.watch_files == result.watch_files,
        *r.watch_dirs == result.watch_dirs,
{
    OnLoadResult {
        id: &result.id,
        plugin_name: &result.plugin_name,
        errors: &result.errors,
        warnings: &result.warnings,
        contents: print_contents(&result.contents),
        resolve_dir: &result.resolve_dir,
        loader: &result.loader,
        plugin_data: &result.plugin_data,
        watch_files: &result.watch_files,
        watch_dirs: &result.watch_dirs,
    }
}

impl core::fmt::Debug for plugin::OnLoadResult {
    /// Hands what [`printed_result`] gives to the formatter. What is printed is stated there:
    /// nothing can be said of the formatter, which may fail at any time.
    fn fmt(&self, f: &mut core::fmt::Formatter<'_>) -> (r: Result<(), core::fmt::Error>) {
        debug_fmt(&printed_result(self), f)
    }
}

impl<T: core::fmt::Debug> core::fmt::Debug for messages::OptionNull<T> {
    /// Hands the optional value itself, as [`messages::OptionNull::as_option`] gives it, to the
    /// formatter, of which nothing can be said.
    fn fmt(&self, f: &mut core::fmt::Formatter<'_>) -> (r: Result<(), core::fmt::Error>) {
        write_debug(self.as_option(), f)
    }
}

} // verus!
