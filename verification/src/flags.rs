//! The command-line flags that a build is described with.
use crate::debug;
use crate::protocol::maps;
use crate::text;
use indexmap::IndexMap;
use vstd::prelude::*;
use vstd::string::StringExecFns;

verus! {

/// How imports of packages are treated.
#[derive(Clone, Debug, Copy)]
pub enum PackagesHandling {
    Bundle,
    External,
}

impl PackagesHandling {
    /// How it is written in a flag.
    pub open spec fn text(self) -> Seq<char> {
        match self {
            PackagesHandling::Bundle => "bundle"@,
            PackagesHandling::External => "external"@,
        }
    }

    pub fn to_string(&self) -> (r: String)
        ensures
            r@ == self.text(),
    {
        match self {
            PackagesHandling::Bundle => "bundle".to_owned(),
            PackagesHandling::External => "external".to_owned(),
        }
    }
}

/// What the output runs on.
#[derive(Clone, Debug, Copy)]
pub enum Platform {
    Node,
    Browser,
    Neutral,
}

impl Platform {
    /// How it is written in a flag.
    pub open spec fn text(self) -> Seq<char> {
        match self {
            Platform::Node => "node"@,
            Platform::Browser => "browser"@,
            Platform::Neutral => "neutral"@,
        }
    }

    pub fn to_string(&self) -> (r: String)
        ensures
            r@ == self.text(),
    {
        match self {
            Platform::Node => "node".to_owned(),
            Platform::Browser => "browser".to_owned(),
            Platform::Neutral => "neutral".to_owned(),
        }
    }
}

/// The module format of the output.
#[derive(Clone, Debug, Copy)]
pub enum Format {
    Esm,
    Cjs,
    Iife,
}

impl Format {
    /// How it is written in a flag.
    pub open spec fn text(self) -> Seq<char> {
        match self {
            Format::Esm => "esm"@,
            Format::Cjs => "cjs"@,
            Format::Iife => "iife"@,
        }
    }

    pub fn to_string(&self) -> (r: String)
        ensures
            r@ == self.text(),
    {
        match self {
            Format::Esm => "esm".to_owned(),
            Format::Cjs => "cjs".to_owned(),
            Format::Iife => "iife".to_owned(),
        }
    }
}

/// How much is logged.
#[derive(Clone, Debug, Copy)]
pub enum LogLevel {
    Silent,
    Error,
    Warning,
    Info,
    Debug,
    Verbose,
}

impl LogLevel {
    /// How it is written in a flag.
    pub open spec fn text(self) -> Seq<char> {
        match self {
            LogLevel::Silent => "silent"@,
            LogLevel::Error => "error"@,
            LogLevel::Warning => "warning"@,
            LogLevel::Info => "info"@,
            LogLevel::Debug => "debug"@,
            LogLevel::Verbose => "verbose"@,
        }
    }

    pub fn to_string(&self) -> (r: String)
        ensures
            r@ == self.text(),
    {
        match self {
            LogLevel::Silent => "silent".to_owned(),
            LogLevel::Error => "error".to_owned(),
            LogLevel::Warning => "warning".to_owned(),
            LogLevel::Info => "info".to_owned(),
            LogLevel::Debug => "debug".to_owned(),
            LogLevel::Verbose => "verbose".to_owned(),
        }
    }
}

/// How the contents of a file are understood.
#[derive(Clone, Debug, Copy)]
pub enum BuiltinLoader {
    Js,
    Ts,
    Jsx,
    Json,
    Css,
    Text,
    Binary,
    Base64,
    DataUrl,
    File,
    Copy,
    Empty,
}

impl BuiltinLoader {
    /// How it is written in a flag.
    pub open spec fn text(self) -> Seq<char> {
        match self {
            BuiltinLoader::Js => "js"@,
            BuiltinLoader::Ts => "ts"@,
            BuiltinLoader::Jsx => "jsx"@,
            BuiltinLoader::Json => "json"@,
            BuiltinLoader::Css => "css"@,
            BuiltinLoader::Text => "text"@,
            BuiltinLoader::Binary => "binary"@,
            BuiltinLoader::Base64 => "base64"@,
            BuiltinLoader::DataUrl => "dataurl"@,
            BuiltinLoader::File => "file"@,
            BuiltinLoader::Copy => "copy"@,
            BuiltinLoader::Empty => "empty"@,
        }
    }

    pub fn to_string(&self) -> (r: String)
        ensures
            r@ == self.text(),
    {
        match self {
            BuiltinLoader::Js => "js".to_owned(),
            BuiltinLoader::Ts => "ts".to_owned(),
            BuiltinLoader::Jsx => "jsx".to_owned(),
            BuiltinLoader::Json => "json".to_owned(),
            BuiltinLoader::Css => "css".to_owned(),
            BuiltinLoader::Text => "text".to_owned(),
            BuiltinLoader::Binary => "binary".to_owned(),
            BuiltinLoader::Base64 => "base64".to_owned(),
            BuiltinLoader::DataUrl => "dataurl".to_owned(),
            BuiltinLoader::File => "file".to_owned(),
            BuiltinLoader::Copy => "copy".to_owned(),
            BuiltinLoader::Empty => "empty".to_owned(),
        }
    }
}

/// What becomes of the source map.
#[derive(Clone, Debug, Copy)]
pub enum Sourcemap {
    Linked,
    External,
    Inline,
    Both,
}

impl Sourcemap {
    /// How it is written in a flag.
    pub open spec fn text(self) -> Seq<char> {
        match self {
            Sourcemap::Linked => "linked"@,
            Sourcemap::External => "external"@,
            Sourcemap::Inline => "inline"@,
            Sourcemap::Both => "both"@,
        }
    }

    pub fn to_string(&self) -> (r: String)
        ensures
            r@ == self.text(),
    {
        match self {
            Sourcemap::Linked => "linked".to_owned(),
            Sourcemap::External => "external".to_owned(),
            Sourcemap::Inline => "inline".to_owned(),
            Sourcemap::Both => "both".to_owned(),
        }
    }
}

/// The loader for all files, or the loader for each file extension.
pub enum Loader {
    Builtin(BuiltinLoader),
    Mapping(IndexMap<String, BuiltinLoader>),
}

impl core::fmt::Debug for Loader {
    /// Hands the name of the variant and what it holds to the formatter, of which nothing can be
    /// said; a map goes by the name `Map`.
    fn fmt(&self, f: &mut core::fmt::Formatter<'_>) -> (r: Result<(), core::fmt::Error>) {
        match self {
            Loader::Builtin(loader) => debug::tuple_fmt("Builtin", loader, f),
            Loader::Mapping(m) => debug::tuple_fmt("Map", m, f),
        }
    }
}

impl Clone for Loader {
    fn clone(&self) -> (r: Self)
        ensures
            match (*self, r) {
                (Loader::Builtin(a), Loader::Builtin(b)) => a == b,
                (Loader::Mapping(a), Loader::Mapping(b)) => maps::loader_entries(a)
                    == maps::loader_entries(b),
                _ => false,
            },
    {
        match self {
            Loader::Builtin(loader) => Loader::Builtin(*loader),
            Loader::Mapping(m) => Loader::Mapping(maps::loader_map_clone(m)),
        }
    }
}

/// The settings of a build. A setting that is `None` gives no flag.
pub struct EsbuildFlags {
    pub color: Option<bool>,
    pub log_level: Option<LogLevel>,
    pub log_limit: Option<u32>,
    pub format: Option<Format>,
    pub platform: Option<Platform>,
    pub tree_shaking: Option<bool>,
    pub bundle: Option<bool>,
    pub outfile: Option<String>,
    pub outdir: Option<String>,
    pub packages: Option<PackagesHandling>,
    pub tsconfig: Option<String>,
    pub tsconfig_raw: Option<String>,
    pub loader: Option<IndexMap<String, BuiltinLoader>>,
    pub external: Option<Vec<String>>,
    pub minify: Option<bool>,
    pub splitting: Option<bool>,
    pub defines: Option<IndexMap<String, String>>,
    pub metafile: Option<bool>,
    pub sourcemap: Option<Sourcemap>,
}

impl Default for EsbuildFlags {
    fn default() -> (r: Self)
        ensures
            r == EsbuildFlags::defaults(),
    {
        EsbuildFlags {
            color: None,
            log_level: None,
            log_limit: None,
            format: Some(Format::Esm),
            platform: Some(Platform::Node),
            tree_shaking: Some(true),
            bundle: Some(true),
            outfile: None,
            outdir: None,
            packages: Some(PackagesHandling::Bundle),
            tsconfig: None,
            tsconfig_raw: None,
            loader: None,
            external: None,
            minify: None,
            splitting: None,
            defines: None,
            metafile: None,
            sourcemap: None,
        }
    }
}

/// A setting that is written after the name of its flag.
pub trait FlagText {
    /// How the setting is written.
    spec fn flag_text(&self) -> Seq<char>;

    fn to_flag_text(&self) -> (r: String)
        ensures
            r@ == self.flag_text(),
    ;
}

impl FlagText for bool {
    open spec fn flag_text(&self) -> Seq<char> {
        text::bool_text(*self)
    }

    fn to_flag_text(&self) -> (r: String) {
        text::bool_to_string(*self)
    }
}

impl FlagText for u32 {
    open spec fn flag_text(&self) -> Seq<char> {
        text::decimal(*self as nat)
    }

    fn to_flag_text(&self) -> (r: String) {
        text::u32_to_string(*self)
    }
}

impl FlagText for String {
    open spec fn flag_text(&self) -> Seq<char> {
        self@
    }

    fn to_flag_text(&self) -> (r: String) {
        self.clone()
    }
}

impl FlagText for LogLevel {
    open spec fn flag_text(&self) -> Seq<char> {
        self.text()
    }

    fn to_flag_text(&self) -> (r: String) {
        self.to_string()
    }
}

impl FlagText for Format {
    open spec fn flag_text(&self) -> Seq<char> {
        self.text()
    }

    fn to_flag_text(&self) -> (r: String) {
        self.to_string()
    }
}

impl FlagText for Platform {
    open spec fn flag_text(&self) -> Seq<char> {
        self.text()
    }

    fn to_flag_text(&self) -> (r: String) {
        self.to_string()
    }
}

impl FlagText for PackagesHandling {
    open spec fn flag_text(&self) -> Seq<char> {
        self.text()
    }

    fn to_flag_text(&self) -> (r: String) {
        self.to_string()
    }
}

impl FlagText for Sourcemap {
    open spec fn flag_text(&self) -> Seq<char> {
        self.text()
    }

    fn to_flag_text(&self) -> (r: String) {
        self.to_string()
    }
}

/// The flag `prefix` with the setting after it, if the setting has a value.
pub open spec fn flag<T: FlagText>(prefix: Seq<char>, setting: Option<T>) -> Seq<Seq<char>> {
    match setting {
        Some(x) => seq![prefix + x.flag_text()],
        None => Seq::empty(),
    }
}

/// The flag `text`, if it is switched on.
pub open spec fn switch(text: Seq<char>, on: Option<bool>) -> Seq<Seq<char>> {
    if on == Some(true) {
        seq![text]
    } else {
        Seq::empty()
    }
}

fn push_flag<T: FlagText>(flags: &mut Vec<String>, prefix: &str, setting: &Option<T>)
    ensures
        text::texts(final(flags)@) == text::texts(old(flags)@) + flag(prefix@, *setting),
{
    let ghost before = text::texts(flags@);
    if let Some(x) = setting {
        let mut flag = prefix.to_owned();
        flag.append(&x.to_flag_text());
        flags.push(flag);
        assert(text::texts(flags@) =~= before.push(flag@));
    }
    assert(text::texts(flags@) =~= before + flag(prefix@, *setting));
}

fn push_switch(flags: &mut Vec<String>, text: &str, on: Option<bool>)
    ensures
        text::texts(final(flags)@) == text::texts(old(flags)@) + switch(text@, on),
{
    let ghost before = text::texts(flags@);
    if let Some(true) = on {
        let flag = text.to_owned();
        flags.push(flag);
        assert(text::texts(flags@) =~= before.push(flag@));
    }
    assert(text::texts(flags@) =~= before + switch(text@, on));
}

impl EsbuildFlags {
    /// What is set unless something else is asked for.
    pub open spec fn defaults() -> EsbuildFlags {
        EsbuildFlags {
            color: None,
            log_level: None,
            log_limit: None,
            format: Some(Format::Esm),
            platform: Some(Platform::Node),
            tree_shaking: Some(true),
            bundle: Some(true),
            outfile: None,
            outdir: None,
            packages: Some(PackagesHandling::Bundle),
            tsconfig: None,
            tsconfig_raw: None,
            loader: None,
            external: None,
            minify: None,
            splitting: None,
            defines: None,
            metafile: None,
            sourcemap: None,
        }
    }

    /// One flag for each file extension with a loader, in the order of the map.
    pub open spec fn loader_flags(self) -> Seq<Seq<char>> {
        match self.loader {
            Some(m) => maps::loader_entries(m).map_values(
                |e: (Seq<char>, BuiltinLoader)| "--loader:"@ + e.0 + "="@ + e.1.text(),
            ),
            None => Seq::empty(),
        }
    }

    /// One flag for each external path, in order.
    pub open spec fn external_flags(self) -> Seq<Seq<char>> {
        match self.external {
            Some(paths) => text::texts(paths@).map_values(|p: Seq<char>| "--external:"@ + p),
            None => Seq::empty(),
        }
    }

    /// One flag for each definition, in the order of the map.
    pub open spec fn define_flags(self) -> Seq<Seq<char>> {
        match self.defines {
            Some(m) => maps::string_entries(m).map_values(
                |e: (Seq<char>, Seq<char>)| "--define:"@ + e.0 + "="@ + e.1,
            ),
            None => Seq::empty(),
        }
    }

    /// All the flags, in order.
    pub open spec fn flags(self) -> Seq<Seq<char>> {
        flag("--color="@, self.color)
            + flag("--log-level="@, self.log_level)
            + flag("--log-limit="@, self.log_limit)
            + flag("--format="@, self.format)
            + flag("--platform="@, self.platform)
            + flag("--tree-shaking="@, self.tree_shaking)
            + flag("--bundle="@, self.bundle)
            + flag("--outfile="@, self.outfile)
            + flag("--outdir="@, self.outdir)
            + flag("--packages="@, self.packages)
            + flag("--tsconfig="@, self.tsconfig)
            + flag("--tsconfig-raw="@, self.tsconfig_raw)
            + self.loader_flags()
            + self.external_flags()
            + switch("--minify"@, self.minify)
            + switch("--splitting"@, self.splitting)
            + self.define_flags()
            + switch("--metafile"@, self.metafile)
            + flag("--sourcemap="@, self.sourcemap)
    }

    fn push_loader_flags(&self, flags: &mut Vec<String>)
        ensures
            text::texts(final(flags)@) == text::texts(old(flags)@) + self.loader_flags(),
    {
        let ghost before = text::texts(flags@);
        if let Some(m) = &self.loader {
            let entries = maps::loader_map_iter(m);
            for i in 0..entries.len()
                invariant
                    self.loader == Some(*m),
                    entries@.len() == maps::loader_entries(*m).len(),
                    forall|j: int|
                        0 <= j < entries@.len() ==> maps::loader_entries(*m)[j] == (
                            (#[trigger] entries@[j]).0@,
                            *entries@[j].1,
                        ),
                    text::texts(flags@) == before + self.loader_flags().take(i as int),
            {
                let ghost so_far = text::texts(flags@);
                let mut flag = "--loader:".to_owned();
                flag.append(entries[i].0);
                flag.append("=");
                flag.append(&entries[i].1.to_string());
                assert(maps::loader_entries(*m)[i as int] == (
                    entries@[i as int].0@,
                    *entries@[i as int].1,
                ));
                assert(flag@ == self.loader_flags()[i as int]);
                flags.push(flag);
                assert(text::texts(flags@) =~= so_far.push(flag@));
                assert(self.loader_flags().take(i + 1) =~= self.loader_flags().take(i as int).push(
                    flag@,
                ));
            }
            assert(self.loader_flags().take(entries@.len() as int) =~= self.loader_flags());
        }
        assert(text::texts(flags@) =~= before + self.loader_flags());
    }

    fn push_external_flags(&self, flags: &mut Vec<String>)
        ensures
            text::texts(final(flags)@) == text::texts(old(flags)@) + self.external_flags(),
    {
        let ghost before = text::texts(flags@);
        if let Some(paths) = &self.external {
            for i in 0..paths.len()
                invariant
                    self.external == Some(*paths),
                    text::texts(flags@) == before + self.external_flags().take(i as int),
            {
                let ghost so_far = text::texts(flags@);
                let mut flag = "--external:".to_owned();
                flag.append(&paths[i]);
                assert(flag@ == self.external_flags()[i as int]);
                flags.push(flag);
                assert(text::texts(flags@) =~= so_far.push(flag@));
                assert(self.external_flags().take(i + 1) =~= self.external_flags().take(
                    i as int,
                ).push(flag@));
            }
            assert(self.external_flags().take(paths@.len() as int) =~= self.external_flags());
        }
        assert(text::texts(flags@) =~= before + self.external_flags());
    }

    fn push_define_flags(&self, flags: &mut Vec<String>)
        ensures
            text::texts(final(flags)@) == text::texts(old(flags)@) + self.define_flags(),
    {
        let ghost before = text::texts(flags@);
        if let Some(m) = &self.defines {
            let entries = maps::string_map_iter(m);
            for i in 0..entries.len()
                invariant
                    self.defines == Some(*m),
                    entries@.len() == maps::string_entries(*m).len(),
                    forall|j: int|
                        0 <= j < entries@.len() ==> maps::string_entries(*m)[j] == (
                            (#[trigger] entries@[j]).0@,
                            entries@[j].1@,
                        ),
                    text::texts(flags@) == before + self.define_flags().take(i as int),
            {
                let ghost so_far = text::texts(flags@);
                let mut flag = "--define:".to_owned();
                flag.append(entries[i].0);
                flag.append("=");
                flag.append(entries[i].1);
                assert(maps::string_entries(*m)[i as int] == (
                    entries@[i as int].0@,
                    entries@[i as int].1@,
                ));
                assert(flag@ == self.define_flags()[i as int]);
                flags.push(flag);
                assert(text::texts(flags@) =~= so_far.push(flag@));
                assert(self.define_flags().take(i + 1) =~= self.define_flags().take(i as int).push(
                    flag@,
                ));
            }
            assert(self.define_flags().take(entries@.len() as int) =~= self.define_flags());
        }
        assert(text::texts(flags@) =~= before + self.define_flags());
    }

    /// The flags that describe the build.
    pub fn to_flags(&self) -> (r: Vec<String>)
        ensures
            text::texts(r@) == self.flags(),
    {
        let mut flags: Vec<String> = Vec::new();
        let ghost first = flag("--color="@, self.color);
        assert(text::texts(flags@) =~= Seq::empty());
        push_flag(&mut flags, "--color=", &self.color);
        push_flag(&mut flags, "--log-level=", &self.log_level);
        push_flag(&mut flags, "--log-limit=", &self.log_limit);
        push_flag(&mut flags, "--format=", &self.format);
        push_flag(&mut flags, "--platform=", &self.platform);
        push_flag(&mut flags, "--tree-shaking=", &self.tree_shaking);
        push_flag(&mut flags, "--bundle=", &self.bundle);
        push_flag(&mut flags, "--outfile=", &self.outfile);
        push_flag(&mut flags, "--outdir=", &self.outdir);
        push_flag(&mut flags, "--packages=", &self.packages);
        push_flag(&mut flags, "--tsconfig=", &self.tsconfig);
        push_flag(&mut flags, "--tsconfig-raw=", &self.tsconfig_raw);
        self.push_loader_flags(&mut flags);
        self.push_external_flags(&mut flags);
        push_switch(&mut flags, "--minify", self.minify);
        push_switch(&mut flags, "--splitting", self.splitting);
        self.push_define_flags(&mut flags);
        push_switch(&mut flags, "--metafile", self.metafile);
        push_flag(&mut flags, "--sourcemap=", &self.sourcemap);
        assert(Seq::<Seq<char>>::empty() + first =~= first);
        flags
    }
}

/// The argument that makes esbuild of this version a service.
pub fn service_argument(version: &str) -> (r: String)
    ensures
        r@ == "--service="@ + version@,
{
    text::joined("--service=", version)
}

} // verus!
