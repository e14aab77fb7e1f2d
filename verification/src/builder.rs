//! Step-by-step choice of [`EsbuildFlags`].
use crate::flags::{
    BuiltinLoader, EsbuildFlags, Format, LogLevel, PackagesHandling, Platform, Sourcemap,
};
use crate::protocol::maps;
use crate::text;
use indexmap::IndexMap;
use vstd::prelude::*;
use vstd::string::StringExecFns;

verus! {

/// Why flags could not be built. Every setting has a default, so this does not happen.
#[derive(Debug)]
pub enum EsbuildFlagsBuilderError {
    UninitializedField(&'static str),
    ValidationError(String),
}

impl EsbuildFlagsBuilderError {
    /// What is told to the user.
    pub open spec fn text(&self) -> Seq<char> {
        match *self {
            EsbuildFlagsBuilderError::UninitializedField(field) => "`"@ + field@
                + "` must be initialized"@,
            EsbuildFlagsBuilderError::ValidationError(error) => error@,
        }
    }

    pub fn to_string(&self) -> (r: String)
        ensures
            r@ == self.text(),
    {
        match self {
            EsbuildFlagsBuilderError::UninitializedField(field) => {
                let mut text: String = "`".to_owned();
                text.append(*field);
                text.append("` must be initialized");
                text
            },
            EsbuildFlagsBuilderError::ValidationError(error) => error.clone(),
        }
    }
}

/// The settings chosen so far. A setting that was not chosen gets its default.
#[derive(Clone)]
pub struct EsbuildFlagsBuilder {
    pub color: Option<Option<bool>>,
    pub log_level: Option<Option<LogLevel>>,
    pub log_limit: Option<Option<u32>>,
    pub format: Option<Option<Format>>,
    pub platform: Option<Option<Platform>>,
    pub tree_shaking: Option<Option<bool>>,
    pub bundle: Option<Option<bool>>,
    pub outfile: Option<Option<String>>,
    pub outdir: Option<Option<String>>,
    pub packages: Option<Option<PackagesHandling>>,
    pub tsconfig: Option<Option<String>>,
    pub tsconfig_raw: Option<Option<String>>,
    pub loader: Option<Option<IndexMap<String, BuiltinLoader>>>,
    pub external: Option<Option<Vec<String>>>,
    pub minify: Option<Option<bool>>,
    pub splitting: Option<Option<bool>>,
    pub defines: Option<Option<IndexMap<String, String>>>,
    pub metafile: Option<Option<bool>>,
    pub sourcemap: Option<Option<Sourcemap>>,
}

impl EsbuildFlagsBuilder {
    /// No setting was chosen.
    pub open spec fn unset() -> EsbuildFlagsBuilder {
        EsbuildFlagsBuilder {
            color: None,
            log_level: None,
            log_limit: None,
            format: None,
            platform: None,
            tree_shaking: None,
            bundle: None,
            outfile: None,
            outdir: None,
            packages: None,
            tsconfig: None,
            tsconfig_raw: None,
            loader: None,
            external: None,
            minify: None,
            splitting: None,
            defines: None,
            metafile: None,
            sourcemap: None,
        }
    }
}

impl Default for EsbuildFlagsBuilder {
    fn default() -> (r: Self)
        ensures
            r == EsbuildFlagsBuilder::unset(),
    {
        EsbuildFlagsBuilder {
            color: None,
            log_level: None,
            log_limit: None,
            format: None,
            platform: None,
            tree_shaking: None,
            bundle: None,
            outfile: None,
            outdir: None,
            packages: None,
            tsconfig: None,
            tsconfig_raw: None,
            loader: None,
            external: None,
            minify: None,
            splitting: None,
            defines: None,
            metafile: None,
            sourcemap: None,
        }
    }
}

/// The chosen setting, or else the default.
pub open spec fn chosen<T>(choice: Option<Option<T>>, default: Option<T>) -> Option<T> {
    match choice {
        Some(setting) => setting,
        None => default,
    }
}

/// Two string maps, or their absence, hold the same.
pub open spec fn same_strings(
    a: Option<IndexMap<String, String>>,
    b: Option<IndexMap<String, String>>,
) -> bool {
    match (a, b) {
        (Some(x), Some(y)) => maps::string_entries(x) == maps::string_entries(y),
        (None, None) => true,
        _ => false,
    }
}

/// Two loader maps, or their absence, hold the same.
pub open spec fn same_loaders(
    a: Option<IndexMap<String, BuiltinLoader>>,
    b: Option<IndexMap<String, BuiltinLoader>>,
) -> bool {
    match (a, b) {
        (Some(x), Some(y)) => maps::loader_entries(x) == maps::loader_entries(y),
        (None, None) => true,
        _ => false,
    }
}

/// Two lists of strings, or their absence, hold the same.
pub open spec fn same_lists(a: Option<Vec<String>>, b: Option<Vec<String>>) -> bool {
    match (a, b) {
        (Some(x), Some(y)) => text::texts(x@) == text::texts(y@),
        (None, None) => true,
        _ => false,
    }
}

fn copy_strings(m: &Option<IndexMap<String, String>>) -> (r: Option<IndexMap<String, String>>)
    ensures
        same_strings(r, *m),
{
    match m {
        Some(m) => Some(maps::string_map_clone(m)),
        None => None,
    }
}

fn copy_loaders(m: &Option<IndexMap<String, BuiltinLoader>>) -> (r: Option<
    IndexMap<String, BuiltinLoader>,
>)
    ensures
        same_loaders(r, *m),
{
    match m {
        Some(m) => Some(maps::loader_map_clone(m)),
        None => None,
    }
}

fn copy_list(list: &Option<Vec<String>>) -> (r: Option<Vec<String>>)
    ensures
        same_lists(r, *list),
{
    match list {
        Some(list) => {
            let copy = list.clone();
            assert(text::texts(copy@) =~= text::texts(list@));
            Some(copy)
        },
        None => None,
    }
}

impl EsbuildFlagsBuilder {
    pub fn color(&mut self, value: bool) -> (r: &mut Self)
        ensures
            *r == (EsbuildFlagsBuilder { color: Some(Some(value)), ..*old(self) }),
            *final(self) == *final(r),
    {
        self.color = Some(Some(value));
        self
    }

    pub fn log_level(&mut self, value: LogLevel) -> (r: &mut Self)
        ensures
            *r == (EsbuildFlagsBuilder { log_level: Some(Some(value)), ..*old(self) }),
            *final(self) == *final(r),
    {
        self.log_level = Some(Some(value));
        self
    }

    pub fn log_limit(&mut self, value: u32) -> (r: &mut Self)
        ensures
            *r == (EsbuildFlagsBuilder { log_limit: Some(Some(value)), ..*old(self) }),
            *final(self) == *final(r),
    {
        self.log_limit = Some(Some(value));
        self
    }

    pub fn format(&mut self, value: Format) -> (r: &mut Self)
        ensures
            *r == (EsbuildFlagsBuilder { format: Some(Some(value)), ..*old(self) }),
            *final(self) == *final(r),
    {
        self.format = Some(Some(value));
        self
    }

    pub fn platform(&mut self, value: Platform) -> (r: &mut Self)
        ensures
            *r == (EsbuildFlagsBuilder { platform: Some(Some(value)), ..*old(self) }),
            *final(self) == *final(r),
    {
        self.platform = Some(Some(value));
        self
    }

    pub fn tree_shaking(&mut self, value: bool) -> (r: &mut Self)
        ensures
            *r == (EsbuildFlagsBuilder { tree_shaking: Some(Some(value)), ..*old(self) }),
            *final(self) == *final(r),
    {
        self.tree_shaking = Some(Some(value));
        self
    }

    pub fn bundle(&mut self, value: bool) -> (r: &mut Self)
        ensures
            *r == (EsbuildFlagsBuilder { bundle: Some(Some(value)), ..*old(self) }),
            *final(self) == *final(r),
    {
        self.bundle = Some(Some(value));
        self
    }

    pub fn outfile(&mut self, value: String) -> (r: &mut Self)
        ensures
            *r == (EsbuildFlagsBuilder { outfile: Some(Some(value)), ..*old(self) }),
            *final(self) == *final(r),
    {
        self.outfile = Some(Some(value));
        self
    }

    pub fn outdir(&mut self, value: String) -> (r: &mut Self)
        ensures
            *r == (EsbuildFlagsBuilder { outdir: Some(Some(value)), ..*old(self) }),
            *final(self) == *final(r),
    {
        self.outdir = Some(Some(value));
        self
    }

    pub fn packages(&mut self, value: PackagesHandling) -> (r: &mut Self)
        ensures
            *r == (EsbuildFlagsBuilder { packages: Some(Some(value)), ..*old(self) }),
            *final(self) == *final(r),
    {
        self.packages = Some(Some(value));
        self
    }

    pub fn tsconfig(&mut self, value: String) -> (r: &mut Self)
        ensures
            *r == (EsbuildFlagsBuilder { tsconfig: Some(Some(value)), ..*old(self) }),
            *final(self) == *final(r),
    {
        self.tsconfig = Some(Some(value));
        self
    }

    pub fn tsconfig_raw(&mut self, value: String) -> (r: &mut Self)
        ensures
            *r == (EsbuildFlagsBuilder { tsconfig_raw: Some(Some(value)), ..*old(self) }),
            *final(self) == *final(r),
    {
        self.tsconfig_raw = Some(Some(value));
        self
    }

    pub fn loader(&mut self, value: IndexMap<String, BuiltinLoader>) -> (r: &mut Self)
        ensures
            *r == (EsbuildFlagsBuilder { loader: Some(Some(value)), ..*old(self) }),
            *final(self) == *final(r),
    {
        self.loader = Some(Some(value));
        self
    }

    pub fn external(&mut self, value: Vec<String>) -> (r: &mut Self)
        ensures
            *r == (EsbuildFlagsBuilder { external: Some(Some(value)), ..*old(self) }),
            *final(self) == *final(r),
    {
        self.external = Some(Some(value));
        self
    }

    pub fn minify(&mut self, value: bool) -> (r: &mut Self)
        ensures
            *r == (EsbuildFlagsBuilder { minify: Some(Some(value)), ..*old(self) }),
            *final(self) == *final(r),
    {
        self.minify = Some(Some(value));
        self
    }

    pub fn splitting(&mut self, value: bool) -> (r: &mut Self)
        ensures
            *r == (EsbuildFlagsBuilder { splitting: Some(Some(value)), ..*old(self) }),
            *final(self) == *final(r),
    {
        self.splitting = Some(Some(value));
        self
    }

    pub fn defines(&mut self, value: IndexMap<String, String>) -> (r: &mut Self)
        ensures
            *r == (EsbuildFlagsBuilder { defines: Some(Some(value)), ..*old(self) }),
            *final(self) == *final(r),
    {
        self.defines = Some(Some(value));
        self
    }

    pub fn metafile(&mut self, value: bool) -> (r: &mut Self)
        ensures
            *r == (EsbuildFlagsBuilder { metafile: Some(Some(value)), ..*old(self) }),
            *final(self) == *final(r),
    {
        self.metafile = Some(Some(value));
        self
    }

    pub fn sourcemap(&mut self, value: Sourcemap) -> (r: &mut Self)
        ensures
            *r == (EsbuildFlagsBuilder { sourcemap: Some(Some(value)), ..*old(self) }),
            *final(self) == *final(r),
    {
        self.sourcemap = Some(Some(value));
        self
    }

    /// `flags` are those that were chosen, and the default ones where none was.
    pub open spec fn builds(&self, flags: EsbuildFlags) -> bool {
        &&& flags.color == chosen(self.color, EsbuildFlags::defaults().color)
        &&& flags.log_level == chosen(self.log_level, EsbuildFlags::defaults().log_level)
        &&& flags.log_limit == chosen(self.log_limit, EsbuildFlags::defaults().log_limit)
        &&& flags.format == chosen(self.format, EsbuildFlags::defaults().format)
        &&& flags.platform == chosen(self.platform, EsbuildFlags::defaults().platform)
        &&& flags.tree_shaking == chosen(self.tree_shaking, EsbuildFlags::defaults().tree_shaking)
        &&& flags.bundle == chosen(self.bundle, EsbuildFlags::defaults().bundle)
        &&& flags.outfile == chosen(self.outfile, EsbuildFlags::defaults().outfile)
        &&& flags.outdir == chosen(self.outdir, EsbuildFlags::defaults().outdir)
        &&& flags.packages == chosen(self.packages, EsbuildFlags::defaults().packages)
        &&& flags.tsconfig == chosen(self.tsconfig, EsbuildFlags::defaults().tsconfig)
        &&& flags.tsconfig_raw == chosen(self.tsconfig_raw, EsbuildFlags::defaults().tsconfig_raw)
        &&& same_loaders(
            flags.loader,
            chosen(self.loader, EsbuildFlags::defaults().loader),
        )
        &&& same_lists(
            flags.external,
            chosen(self.external, EsbuildFlags::defaults().external),
        )
        &&& flags.minify == chosen(self.minify, EsbuildFlags::defaults().minify)
        &&& flags.splitting == chosen(self.splitting, EsbuildFlags::defaults().splitting)
        &&& same_strings(
            flags.defines,
            chosen(self.defines, EsbuildFlags::defaults().defines),
        )
        &&& flags.metafile == chosen(self.metafile, EsbuildFlags::defaults().metafile)
        &&& flags.sourcemap == chosen(self.sourcemap, EsbuildFlags::defaults().sourcemap)
    }

    /// The flags as chosen; those that were not chosen are the default ones.
    pub fn build(&self) -> (r: Result<EsbuildFlags, EsbuildFlagsBuilderError>)
        ensures
            r matches Ok(flags) && self.builds(flags),
    {
        let default = EsbuildFlags::default();
        Ok(EsbuildFlags {
            color: match &self.color {
                Some(setting) => *setting,
                None => default.color,
            },
            log_level: match &self.log_level {
                Some(setting) => *setting,
                None => default.log_level,
            },
            log_limit: match &self.log_limit {
                Some(setting) => *setting,
                None => default.log_limit,
            },
            format: match &self.format {
                Some(setting) => *setting,
                None => default.format,
            },
            platform: match &self.platform {
                Some(setting) => *setting,
                None => default.platform,
            },
            tree_shaking: match &self.tree_shaking {
                Some(setting) => *setting,
                None => default.tree_shaking,
            },
            bundle: match &self.bundle {
                Some(setting) => *setting,
                None => default.bundle,
            },
            outfile: match &self.outfile {
                Some(setting) => setting.clone(),
                None => default.outfile,
            },
            outdir: match &self.outdir {
                Some(setting) => setting.clone(),
                None => default.outdir,
            },
            packages: match &self.packages {
                Some(setting) => *setting,
                None => default.packages,
            },
            tsconfig: match &self.tsconfig {
                Some(setting) => setting.clone(),
                None => default.tsconfig,
            },
            tsconfig_raw: match &self.tsconfig_raw {
                Some(setting) => setting.clone(),
                None => default.tsconfig_raw,
            },
            loader: match &self.loader {
                Some(setting) => copy_loaders(setting),
                None => default.loader,
            },
            external: match &self.external {
                Some(setting) => copy_list(setting),
                None => default.external,
            },
            minify: match &self.minify {
                Some(setting) => *setting,
                None => default.minify,
            },
            splitting: match &self.splitting {
                Some(setting) => *setting,
                None => default.splitting,
            },
            defines: match &self.defines {
                Some(setting) => copy_strings(setting),
                None => default.defines,
            },
            metafile: match &self.metafile {
                Some(setting) => *setting,
                None => default.metafile,
            },
            sourcemap: match &self.sourcemap {
                Some(setting) => *setting,
                None => default.sourcemap,
            },
        })
    }
}

/// Whatever flags a builder builds, the same is written for them.
pub proof fn lemma_build_determined(
    builder: EsbuildFlagsBuilder,
    one: EsbuildFlags,
    two: EsbuildFlags,
)
    requires
        builder.builds(one),
        builder.builds(two),
    ensures
        one.flags() == two.flags(),
{
}

/// Where nothing was chosen, the default flags are built.
pub proof fn lemma_nothing_chosen(flags: EsbuildFlags)
    requires
        EsbuildFlagsBuilder::unset().builds(flags),
    ensures
        flags.flags() == EsbuildFlags::defaults().flags(),
{
}

} // verus!
