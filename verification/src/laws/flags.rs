//! What the flags of a build are, setting by setting.
use crate::builder::{EsbuildFlagsBuilder, EsbuildFlagsBuilderError};
use crate::flags;
use crate::flags::{
    service_argument, BuiltinLoader, EsbuildFlags, Format, LogLevel, PackagesHandling, Platform,
    Sourcemap,
};
use crate::protocol::maps;
use crate::text;
use indexmap::IndexMap;
use vstd::prelude::*;

verus! {

/// The name that esbuild knows it by.
pub open spec fn log_level_name(x: LogLevel) -> Seq<char> {
    match x {
        LogLevel::Silent => "silent"@,
        LogLevel::Error => "error"@,
        LogLevel::Warning => "warning"@,
        LogLevel::Info => "info"@,
        LogLevel::Debug => "debug"@,
        LogLevel::Verbose => "verbose"@,
    }
}

/// It is written by its name.
pub proof fn law_log_level_written(x: LogLevel, r: String)
    requires
        call_ensures(LogLevel::to_string, (&x,), r),
    ensures
        r@ == log_level_name(x),
{
}

/// The name that esbuild knows it by.
pub open spec fn format_name(x: Format) -> Seq<char> {
    match x {
        Format::Esm => "esm"@,
        Format::Cjs => "cjs"@,
        Format::Iife => "iife"@,
    }
}

/// It is written by its name.
pub proof fn law_format_written(x: Format, r: String)
    requires
        call_ensures(Format::to_string, (&x,), r),
    ensures
        r@ == format_name(x),
{
}

/// The name that esbuild knows it by.
pub open spec fn platform_name(x: Platform) -> Seq<char> {
    match x {
        Platform::Node => "node"@,
        Platform::Browser => "browser"@,
        Platform::Neutral => "neutral"@,
    }
}

/// It is written by its name.
pub proof fn law_platform_written(x: Platform, r: String)
    requires
        call_ensures(Platform::to_string, (&x,), r),
    ensures
        r@ == platform_name(x),
{
}

/// The name that esbuild knows it by.
pub open spec fn packages_name(x: PackagesHandling) -> Seq<char> {
    match x {
        PackagesHandling::Bundle => "bundle"@,
        PackagesHandling::External => "external"@,
    }
}

/// It is written by its name.
pub proof fn law_packages_written(x: PackagesHandling, r: String)
    requires
        call_ensures(PackagesHandling::to_string, (&x,), r),
    ensures
        r@ == packages_name(x),
{
}

/// The name that esbuild knows it by.
pub open spec fn sourcemap_name(x: Sourcemap) -> Seq<char> {
    match x {
        Sourcemap::Linked => "linked"@,
        Sourcemap::External => "external"@,
        Sourcemap::Inline => "inline"@,
        Sourcemap::Both => "both"@,
    }
}

/// It is written by its name.
pub proof fn law_sourcemap_written(x: Sourcemap, r: String)
    requires
        call_ensures(Sourcemap::to_string, (&x,), r),
    ensures
        r@ == sourcemap_name(x),
{
}

/// The name that esbuild knows it by.
pub open spec fn loader_name(x: BuiltinLoader) -> Seq<char> {
    match x {
        BuiltinLoader::Js => "js"@,
        BuiltinLoader::Ts => "ts"@,
        BuiltinLoader::Jsx => "jsx"@,
        BuiltinLoader::Json => "json"@,
        BuiltinLoader::Css => "css"@,
        BuiltinLoader::Text => "text"@,
        BuiltinLoader::Binary => "binary"@,
        BuiltinLoader::Base64 => "base64"@,
        BuiltinLoader::DataUrl => "dataurl"@,
        BuiltinLoader::File => "file"@,
        BuiltinLoader::Copy => "copy"@,
        BuiltinLoader::Empty => "empty"@,
    }
}

/// It is written by its name.
pub proof fn law_loader_written(x: BuiltinLoader, r: String)
    requires
        call_ensures(BuiltinLoader::to_string, (&x,), r),
    ensures
        r@ == loader_name(x),
{
}

/// How a boolean is written.
pub open spec fn truth(b: bool) -> Seq<char> {
    if b {
        "true"@
    } else {
        "false"@
    }
}

/// The number that decimal digits stand for.
pub open spec fn number(digits: Seq<char>) -> int
    decreases digits.len(),
{
    if digits.len() == 0 {
        0
    } else {
        10 * number(digits.drop_last()) + (digits.last() as int - '0' as int)
    }
}

/// `digits` are the decimal digits of `n`, without zeros before them.
pub open spec fn digits_of(digits: Seq<char>, n: nat) -> bool {
    &&& digits.len() > 0
    &&& number(digits) == n
    &&& forall|i: int| 0 <= i < digits.len() ==> '0' <= #[trigger] digits[i] <= '9'
    &&& digits.len() > 1 ==> digits[0] != '0'
}

proof fn lemma_digit(d: nat)
    requires
        d < 10,
    ensures
        '0' <= text::digit(d) <= '9',
        text::digit(d) as int - '0' as int == d,
        number(seq![text::digit(d)]) == d,
{
    assert(seq![text::digit(d)].drop_last() =~= Seq::empty());
    reveal_with_fuel(number, 2);
}

/// A number is written in decimal digits, without zeros before them.
pub proof fn law_decimal(n: nat)
    ensures
        digits_of(text::decimal(n), n),
    decreases n,
{
    let d = text::decimal(n);
    lemma_digit(n % 10);
    if n >= 10 {
        let front = text::decimal(n / 10);
        law_decimal(n / 10);
        assert(d.drop_last() =~= front);
        assert(front[0] == d[0]);
        if front.len() == 1 && d[0] == '0' {
            lemma_digit(0);
            assert(front =~= seq![text::digit(0)]);
        }
        assert forall|i: int| 0 <= i < d.len() implies '0' <= #[trigger] d[i] <= '9' by {
            if i < d.len() - 1 {
                assert(d[i] == front[i]);
            }
        }
    }
}

/// The flags of `with`, of which the setting in question is the last that was chosen, are those of
/// `without`, in which it was not chosen, and then `own`.
pub open spec fn adds(without: Vec<String>, with: Vec<String>, own: Seq<Seq<char>>) -> bool {
    &&& with@.len() == without@.len() + own.len()
    &&& forall|i: int| 0 <= i < without@.len() ==> (#[trigger] with@[i])@ == without@[i]@
    &&& forall|i: int| 0 <= i < own.len() ==> with@[without@.len() + i]@ == #[trigger] own[i]
}

/// The texts of the longer list are those of the shorter one and then `own`.
proof fn lemma_adds(
    without: Vec<String>,
    with: Vec<String>,
    shorter: Seq<Seq<char>>,
    own: Seq<Seq<char>>,
)
    requires
        text::texts(without@) == shorter,
        text::texts(with@) == shorter + own,
    ensures
        adds(without, with, own),
{
    assert(text::texts(with@).len() == with@.len());
    assert(text::texts(without@).len() == without@.len());
    assert forall|i: int| 0 <= i < without@.len() implies (#[trigger] with@[i])@
        == without@[i]@ by {
        assert(text::texts(with@)[i] == text::texts(without@)[i]);
    }
    assert forall|i: int| 0 <= i < own.len() implies with@[without@.len() + i]@
        == #[trigger] own[i] by {
        assert(text::texts(with@)[without@.len() + i] == own[i]);
    }
}

proof fn lemma_nothing_added()
    ensures
        forall|x: Seq<Seq<char>>| #[trigger] (x + Seq::<Seq<char>>::empty()) == x,
{
    assert forall|x: Seq<Seq<char>>| #[trigger] (x + Seq::<Seq<char>>::empty()) == x by {
        assert(x + Seq::<Seq<char>>::empty() =~= x);
    }
}

/// Where no setting is chosen there is no flag.
pub proof fn law_no_settings_no_flags(f: EsbuildFlags, r: Vec<String>)
    requires
        call_ensures(EsbuildFlags::to_flags, (&f,), r),
        f.color is None,
        f.log_level is None,
        f.log_limit is None,
        f.format is None,
        f.platform is None,
        f.tree_shaking is None,
        f.bundle is None,
        f.outfile is None,
        f.outdir is None,
        f.packages is None,
        f.tsconfig is None,
        f.tsconfig_raw is None,
        f.loader is None,
        f.external is None,
        f.minify is None,
        f.splitting is None,
        f.defines is None,
        f.metafile is None,
        f.sourcemap is None,
    ensures
        r@.len() == 0,
{
    lemma_nothing_added();
    assert(text::texts(r@).len() == r@.len());
}

/// `color` gives one flag, whatever the settings before it. Those after it are
/// not chosen here; what one of them adds stands in its own law.
pub proof fn law_color_flag(
    f: EsbuildFlags,
    x: bool,
    without: Vec<String>,
    with: Vec<String>,
)
    requires
        call_ensures(EsbuildFlags::to_flags, (&(EsbuildFlags { color: None, ..f }),), without),
        call_ensures(EsbuildFlags::to_flags, (&(EsbuildFlags { color: Some(x), ..f }),), with),
        f.log_level is None,
        f.log_limit is None,
        f.format is None,
        f.platform is None,
        f.tree_shaking is None,
        f.bundle is None,
        f.outfile is None,
        f.outdir is None,
        f.packages is None,
        f.tsconfig is None,
        f.tsconfig_raw is None,
        f.loader is None,
        f.external is None,
        f.minify is None,
        f.splitting is None,
        f.defines is None,
        f.metafile is None,
        f.sourcemap is None,
    ensures
        adds(without, with, seq!["--color="@ + truth(x)]),
{
    lemma_nothing_added();
    let own: Seq<Seq<char>> = seq!["--color="@ + truth(x)];
    let g = EsbuildFlags { color: None, ..f };
    let h = EsbuildFlags { color: Some(x), ..f };
    assert(h.flags() =~= g.flags() + own);
    lemma_adds(without, with, g.flags(), own);
}

/// `log_level` gives one flag, whatever the settings before it. Those after it are
/// not chosen here; what one of them adds stands in its own law.
pub proof fn law_log_level_flag(
    f: EsbuildFlags,
    x: LogLevel,
    without: Vec<String>,
    with: Vec<String>,
)
    requires
        call_ensures(EsbuildFlags::to_flags, (&(EsbuildFlags { log_level: None, ..f }),), without),
        call_ensures(EsbuildFlags::to_flags, (&(EsbuildFlags { log_level: Some(x), ..f }),), with),
        f.log_limit is None,
        f.format is None,
        f.platform is None,
        f.tree_shaking is None,
        f.bundle is None,
        f.outfile is None,
        f.outdir is None,
        f.packages is None,
        f.tsconfig is None,
        f.tsconfig_raw is None,
        f.loader is None,
        f.external is None,
        f.minify is None,
        f.splitting is None,
        f.defines is None,
        f.metafile is None,
        f.sourcemap is None,
    ensures
        adds(without, with, seq!["--log-level="@ + log_level_name(x)]),
{
    lemma_nothing_added();
    let own: Seq<Seq<char>> = seq!["--log-level="@ + log_level_name(x)];
    let g = EsbuildFlags { log_level: None, ..f };
    let h = EsbuildFlags { log_level: Some(x), ..f };
    assert(h.flags() =~= g.flags() + own);
    lemma_adds(without, with, g.flags(), own);
}

/// `log_limit` gives one flag, whatever the settings before it. Those after it are
/// not chosen here; what one of them adds stands in its own law.
pub proof fn law_log_limit_flag(
    f: EsbuildFlags,
    x: u32,
    without: Vec<String>,
    with: Vec<String>,
)
    requires
        call_ensures(EsbuildFlags::to_flags, (&(EsbuildFlags { log_limit: None, ..f }),), without),
        call_ensures(EsbuildFlags::to_flags, (&(EsbuildFlags { log_limit: Some(x), ..f }),), with),
        f.format is None,
        f.platform is None,
        f.tree_shaking is None,
        f.bundle is None,
        f.outfile is None,
        f.outdir is None,
        f.packages is None,
        f.tsconfig is None,
        f.tsconfig_raw is None,
        f.loader is None,
        f.external is None,
        f.minify is None,
        f.splitting is None,
        f.defines is None,
        f.metafile is None,
        f.sourcemap is None,
    ensures
        adds(without, with, seq!["--log-limit="@ + text::decimal(x as nat)]),
        digits_of(text::decimal(x as nat), x as nat),
{
    lemma_nothing_added();
    law_decimal(x as nat);
    let own: Seq<Seq<char>> = seq!["--log-limit="@ + text::decimal(x as nat)];
    let g = EsbuildFlags { log_limit: None, ..f };
    let h = EsbuildFlags { log_limit: Some(x), ..f };
    assert(h.flags() =~= g.flags() + own);
    lemma_adds(without, with, g.flags(), own);
}

/// `format` gives one flag, whatever the settings before it. Those after it are
/// not chosen here; what one of them adds stands in its own law.
pub proof fn law_format_flag(
    f: EsbuildFlags,
    x: Format,
    without: Vec<String>,
    with: Vec<String>,
)
    requires
        call_ensures(EsbuildFlags::to_flags, (&(EsbuildFlags { format: None, ..f }),), without),
        call_ensures(EsbuildFlags::to_flags, (&(EsbuildFlags { format: Some(x), ..f }),), with),
        f.platform is None,
        f.tree_shaking is None,
        f.bundle is None,
        f.outfile is None,
        f.outdir is None,
        f.packages is None,
        f.tsconfig is None,
        f.tsconfig_raw is None,
        f.loader is None,
        f.external is None,
        f.minify is None,
        f.splitting is None,
        f.defines is None,
        f.metafile is None,
        f.sourcemap is None,
    ensures
        adds(without, with, seq!["--format="@ + format_name(x)]),
{
    lemma_nothing_added();
    let own: Seq<Seq<char>> = seq!["--format="@ + format_name(x)];
    let g = EsbuildFlags { format: None, ..f };
    let h = EsbuildFlags { format: Some(x), ..f };
    assert(h.flags() =~= g.flags() + own);
    lemma_adds(without, with, g.flags(), own);
}

/// `platform` gives one flag, whatever the settings before it. Those after it are
/// not chosen here; what one of them adds stands in its own law.
pub proof fn law_platform_flag(
    f: EsbuildFlags,
    x: Platform,
    without: Vec<String>,
    with: Vec<String>,
)
    requires
        call_ensures(EsbuildFlags::to_flags, (&(EsbuildFlags { platform: None, ..f }),), without),
        call_ensures(EsbuildFlags::to_flags, (&(EsbuildFlags { platform: Some(x), ..f }),), with),
        f.tree_shaking is None,
        f.bundle is None,
        f.outfile is None,
        f.outdir is None,
        f.packages is None,
        f.tsconfig is None,
        f.tsconfig_raw is None,
        f.loader is None,
        f.external is None,
        f.minify is None,
        f.splitting is None,
        f.defines is None,
        f.metafile is None,
        f.sourcemap is None,
    ensures
        adds(without, with, seq!["--platform="@ + platform_name(x)]),
{
    lemma_nothing_added();
    let own: Seq<Seq<char>> = seq!["--platform="@ + platform_name(x)];
    let g = EsbuildFlags { platform: None, ..f };
    let h = EsbuildFlags { platform: Some(x), ..f };
    assert(h.flags() =~= g.flags() + own);
    lemma_adds(without, with, g.flags(), own);
}

/// `tree_shaking` gives one flag, whatever the settings before it. Those after it are
/// not chosen here; what one of them adds stands in its own law.
pub proof fn law_tree_shaking_flag(
    f: EsbuildFlags,
    x: bool,
    without: Vec<String>,
    with: Vec<String>,
)
    requires
        call_ensures(EsbuildFlags::to_flags, (&(EsbuildFlags { tree_shaking: None, ..f }),), without),
        call_ensures(EsbuildFlags::to_flags, (&(EsbuildFlags { tree_shaking: Some(x), ..f }),), with),
        f.bundle is None,
        f.outfile is None,
        f.outdir is None,
        f.packages is None,
        f.tsconfig is None,
        f.tsconfig_raw is None,
        f.loader is None,
        f.external is None,
        f.minify is None,
        f.splitting is None,
        f.defines is None,
        f.metafile is None,
        f.sourcemap is None,
    ensures
        adds(without, with, seq!["--tree-shaking="@ + truth(x)]),
{
    lemma_nothing_added();
    let own: Seq<Seq<char>> = seq!["--tree-shaking="@ + truth(x)];
    let g = EsbuildFlags { tree_shaking: None, ..f };
    let h = EsbuildFlags { tree_shaking: Some(x), ..f };
    assert(h.flags() =~= g.flags() + own);
    lemma_adds(without, with, g.flags(), own);
}

/// `bundle` gives one flag, whatever the settings before it. Those after it are
/// not chosen here; what one of them adds stands in its own law.
pub proof fn law_bundle_flag(
    f: EsbuildFlags,
    x: bool,
    without: Vec<String>,
    with: Vec<String>,
)
    requires
        call_ensures(EsbuildFlags::to_flags, (&(EsbuildFlags { bundle: None, ..f }),), without),
        call_ensures(EsbuildFlags::to_flags, (&(EsbuildFlags { bundle: Some(x), ..f }),), with),
        f.outfile is None,
        f.outdir is None,
        f.packages is None,
        f.tsconfig is None,
        f.tsconfig_raw is None,
        f.loader is None,
        f.external is None,
        f.minify is None,
        f.splitting is None,
        f.defines is None,
        f.metafile is None,
        f.sourcemap is None,
    ensures
        adds(without, with, seq!["--bundle="@ + truth(x)]),
{
    lemma_nothing_added();
    let own: Seq<Seq<char>> = seq!["--bundle="@ + truth(x)];
    let g = EsbuildFlags { bundle: None, ..f };
    let h = EsbuildFlags { bundle: Some(x), ..f };
    assert(h.flags() =~= g.flags() + own);
    lemma_adds(without, with, g.flags(), own);
}

/// `outfile` gives one flag, whatever the settings before it. Those after it are
/// not chosen here; what one of them adds stands in its own law.
pub proof fn law_outfile_flag(
    f: EsbuildFlags,
    x: String,
    without: Vec<String>,
    with: Vec<String>,
)
    requires
        call_ensures(EsbuildFlags::to_flags, (&(EsbuildFlags { outfile: None, ..f }),), without),
        call_ensures(EsbuildFlags::to_flags, (&(EsbuildFlags { outfile: Some(x), ..f }),), with),
        f.outdir is None,
        f.packages is None,
        f.tsconfig is None,
        f.tsconfig_raw is None,
        f.loader is None,
        f.external is None,
        f.minify is None,
        f.splitting is None,
        f.defines is None,
        f.metafile is None,
        f.sourcemap is None,
    ensures
        adds(without, with, seq!["--outfile="@ + x@]),
{
    lemma_nothing_added();
    let own: Seq<Seq<char>> = seq!["--outfile="@ + x@];
    let g = EsbuildFlags { outfile: None, ..f };
    let h = EsbuildFlags { outfile: Some(x), ..f };
    assert(h.flags() =~= g.flags() + own);
    lemma_adds(without, with, g.flags(), own);
}

/// `outdir` gives one flag, whatever the settings before it. Those after it are
/// not chosen here; what one of them adds stands in its own law.
pub proof fn law_outdir_flag(
    f: EsbuildFlags,
    x: String,
    without: Vec<String>,
    with: Vec<String>,
)
    requires
        call_ensures(EsbuildFlags::to_flags, (&(EsbuildFlags { outdir: None, ..f }),), without),
        call_ensures(EsbuildFlags::to_flags, (&(EsbuildFlags { outdir: Some(x), ..f }),), with),
        f.packages is None,
        f.tsconfig is None,
        f.tsconfig_raw is None,
        f.loader is None,
        f.external is None,
        f.minify is None,
        f.splitting is None,
        f.defines is None,
        f.metafile is None,
        f.sourcemap is None,
    ensures
        adds(without, with, seq!["--outdir="@ + x@]),
{
    lemma_nothing_added();
    let own: Seq<Seq<char>> = seq!["--outdir="@ + x@];
    let g = EsbuildFlags { outdir: None, ..f };
    let h = EsbuildFlags { outdir: Some(x), ..f };
    assert(h.flags() =~= g.flags() + own);
    lemma_adds(without, with, g.flags(), own);
}

/// `packages` gives one flag, whatever the settings before it. Those after it are
/// not chosen here; what one of them adds stands in its own law.
pub proof fn law_packages_flag(
    f: EsbuildFlags,
    x: PackagesHandling,
    without: Vec<String>,
    with: Vec<String>,
)
    requires
        call_ensures(EsbuildFlags::to_flags, (&(EsbuildFlags { packages: None, ..f }),), without),
        call_ensures(EsbuildFlags::to_flags, (&(EsbuildFlags { packages: Some(x), ..f }),), with),
        f.tsconfig is None,
        f.tsconfig_raw is None,
        f.loader is None,
        f.external is None,
        f.minify is None,
        f.splitting is None,
        f.defines is None,
        f.metafile is None,
        f.sourcemap is None,
    ensures
        adds(without, with, seq!["--packages="@ + packages_name(x)]),
{
    lemma_nothing_added();
    let own: Seq<Seq<char>> = seq!["--packages="@ + packages_name(x)];
    let g = EsbuildFlags { packages: None, ..f };
    let h = EsbuildFlags { packages: Some(x), ..f };
    assert(h.flags() =~= g.flags() + own);
    lemma_adds(without, with, g.flags(), own);
}

/// `tsconfig` gives one flag, whatever the settings before it. Those after it are
/// not chosen here; what one of them adds stands in its own law.
pub proof fn law_tsconfig_flag(
    f: EsbuildFlags,
    x: String,
    without: Vec<String>,
    with: Vec<String>,
)
    requires
        call_ensures(EsbuildFlags::to_flags, (&(EsbuildFlags { tsconfig: None, ..f }),), without),
        call_ensures(EsbuildFlags::to_flags, (&(EsbuildFlags { tsconfig: Some(x), ..f }),), with),
        f.tsconfig_raw is None,
        f.loader is None,
        f.external is None,
        f.minify is None,
        f.splitting is None,
        f.defines is None,
        f.metafile is None,
        f.sourcemap is None,
    ensures
        adds(without, with, seq!["--tsconfig="@ + x@]),
{
    lemma_nothing_added();
    let own: Seq<Seq<char>> = seq!["--tsconfig="@ + x@];
    let g = EsbuildFlags { tsconfig: None, ..f };
    let h = EsbuildFlags { tsconfig: Some(x), ..f };
    assert(h.flags() =~= g.flags() + own);
    lemma_adds(without, with, g.flags(), own);
}

/// `tsconfig_raw` gives one flag, whatever the settings before it. Those after it are
/// not chosen here; what one of them adds stands in its own law.
pub proof fn law_tsconfig_raw_flag(
    f: EsbuildFlags,
    x: String,
    without: Vec<String>,
    with: Vec<String>,
)
    requires
        call_ensures(EsbuildFlags::to_flags, (&(EsbuildFlags { tsconfig_raw: None, ..f }),), without),
        call_ensures(EsbuildFlags::to_flags, (&(EsbuildFlags { tsconfig_raw: Some(x), ..f }),), with),
        f.loader is None,
        f.external is None,
        f.minify is None,
        f.splitting is None,
        f.defines is None,
        f.metafile is None,
        f.sourcemap is None,
    ensures
        adds(without, with, seq!["--tsconfig-raw="@ + x@]),
{
    lemma_nothing_added();
    let own: Seq<Seq<char>> = seq!["--tsconfig-raw="@ + x@];
    let g = EsbuildFlags { tsconfig_raw: None, ..f };
    let h = EsbuildFlags { tsconfig_raw: Some(x), ..f };
    assert(h.flags() =~= g.flags() + own);
    lemma_adds(without, with, g.flags(), own);
}

/// `loader` gives one flag for each file extension, in order, whatever the settings before it.
/// Those after it are not chosen here; what one of them adds stands in its own law.
pub proof fn law_loader_flag(
    f: EsbuildFlags,
    x: IndexMap<String, BuiltinLoader>,
    without: Vec<String>,
    with: Vec<String>,
)
    requires
        call_ensures(EsbuildFlags::to_flags, (&(EsbuildFlags { loader: None, ..f }),), without),
        call_ensures(EsbuildFlags::to_flags, (&(EsbuildFlags { loader: Some(x), ..f }),), with),
        f.external is None,
        f.minify is None,
        f.splitting is None,
        f.defines is None,
        f.metafile is None,
        f.sourcemap is None,
    ensures
        adds(without, with, maps::loader_entries(x).map_values(
            |e: (Seq<char>, BuiltinLoader)| "--loader:"@ + e.0 + "="@ + loader_name(e.1),
        )),
{
    lemma_nothing_added();
    let own: Seq<Seq<char>> = maps::loader_entries(x).map_values(
            |e: (Seq<char>, BuiltinLoader)| "--loader:"@ + e.0 + "="@ + loader_name(e.1),
        );
    let g = EsbuildFlags { loader: None, ..f };
    let h = EsbuildFlags { loader: Some(x), ..f };
    assert(h.flags() =~= g.flags() + own);
    lemma_adds(without, with, g.flags(), own);
}

/// `external` gives one flag for each path, in order, whatever the settings before it. Those after
/// it are not chosen here; what one of them adds stands in its own law.
pub proof fn law_external_flag(
    f: EsbuildFlags,
    x: Vec<String>,
    without: Vec<String>,
    with: Vec<String>,
)
    requires
        call_ensures(EsbuildFlags::to_flags, (&(EsbuildFlags { external: None, ..f }),), without),
        call_ensures(EsbuildFlags::to_flags, (&(EsbuildFlags { external: Some(x), ..f }),), with),
        f.minify is None,
        f.splitting is None,
        f.defines is None,
        f.metafile is None,
        f.sourcemap is None,
    ensures
        adds(without, with, x@.map_values(|p: String| "--external:"@ + p@)),
{
    lemma_nothing_added();
    let own: Seq<Seq<char>> = x@.map_values(|p: String| "--external:"@ + p@);
    let g = EsbuildFlags { external: None, ..f };
    let h = EsbuildFlags { external: Some(x), ..f };
    assert(h.flags() =~= g.flags() + own);
    lemma_adds(without, with, g.flags(), own);
}

/// `minify` gives one flag where it is on and none where it is off, whatever the settings before
/// it. Those after it are
/// not chosen here; what one of them adds stands in its own law.
pub proof fn law_minify_flag(
    f: EsbuildFlags,
    x: bool,
    without: Vec<String>,
    with: Vec<String>,
)
    requires
        call_ensures(EsbuildFlags::to_flags, (&(EsbuildFlags { minify: None, ..f }),), without),
        call_ensures(EsbuildFlags::to_flags, (&(EsbuildFlags { minify: Some(x), ..f }),), with),
        f.splitting is None,
        f.defines is None,
        f.metafile is None,
        f.sourcemap is None,
    ensures
        adds(without, with, if x {
            seq!["--minify"@]
        } else {
            Seq::empty()
        }),
{
    lemma_nothing_added();
    let own: Seq<Seq<char>> = if x {
            seq!["--minify"@]
        } else {
            Seq::empty()
        };
    let g = EsbuildFlags { minify: None, ..f };
    let h = EsbuildFlags { minify: Some(x), ..f };
    assert(h.flags() =~= g.flags() + own);
    lemma_adds(without, with, g.flags(), own);
}

/// `splitting` gives one flag where it is on and none where it is off, whatever the settings
/// before it. Those after it are
/// not chosen here; what one of them adds stands in its own law.
pub proof fn law_splitting_flag(
    f: EsbuildFlags,
    x: bool,
    without: Vec<String>,
    with: Vec<String>,
)
    requires
        call_ensures(EsbuildFlags::to_flags, (&(EsbuildFlags { splitting: None, ..f }),), without),
        call_ensures(EsbuildFlags::to_flags, (&(EsbuildFlags { splitting: Some(x), ..f }),), with),
        f.defines is None,
        f.metafile is None,
        f.sourcemap is None,
    ensures
        adds(without, with, if x {
            seq!["--splitting"@]
        } else {
            Seq::empty()
        }),
{
    lemma_nothing_added();
    let own: Seq<Seq<char>> = if x {
            seq!["--splitting"@]
        } else {
            Seq::empty()
        };
    let g = EsbuildFlags { splitting: None, ..f };
    let h = EsbuildFlags { splitting: Some(x), ..f };
    assert(h.flags() =~= g.flags() + own);
    lemma_adds(without, with, g.flags(), own);
}

/// `defines` gives one flag for each name, in order, whatever the settings before it. Those after
/// it are not chosen here; what one of them adds stands in its own law.
pub proof fn law_defines_flag(
    f: EsbuildFlags,
    x: IndexMap<String, String>,
    without: Vec<String>,
    with: Vec<String>,
)
    requires
        call_ensures(EsbuildFlags::to_flags, (&(EsbuildFlags { defines: None, ..f }),), without),
        call_ensures(EsbuildFlags::to_flags, (&(EsbuildFlags { defines: Some(x), ..f }),), with),
        f.metafile is None,
        f.sourcemap is None,
    ensures
        adds(without, with, maps::string_entries(x).map_values(
            |e: (Seq<char>, Seq<char>)| "--define:"@ + e.0 + "="@ + e.1,
        )),
{
    lemma_nothing_added();
    let own: Seq<Seq<char>> = maps::string_entries(x).map_values(
            |e: (Seq<char>, Seq<char>)| "--define:"@ + e.0 + "="@ + e.1,
        );
    let g = EsbuildFlags { defines: None, ..f };
    let h = EsbuildFlags { defines: Some(x), ..f };
    assert(h.flags() =~= g.flags() + own);
    lemma_adds(without, with, g.flags(), own);
}

/// `metafile` gives one flag where it is on and none where it is off, whatever the settings
/// before it. Those after it are
/// not chosen here; what one of them adds stands in its own law.
pub proof fn law_metafile_flag(
    f: EsbuildFlags,
    x: bool,
    without: Vec<String>,
    with: Vec<String>,
)
    requires
        call_ensures(EsbuildFlags::to_flags, (&(EsbuildFlags { metafile: None, ..f }),), without),
        call_ensures(EsbuildFlags::to_flags, (&(EsbuildFlags { metafile: Some(x), ..f }),), with),
        f.sourcemap is None,
    ensures
        adds(without, with, if x {
            seq!["--metafile"@]
        } else {
            Seq::empty()
        }),
{
    lemma_nothing_added();
    let own: Seq<Seq<char>> = if x {
            seq!["--metafile"@]
        } else {
            Seq::empty()
        };
    let g = EsbuildFlags { metafile: None, ..f };
    let h = EsbuildFlags { metafile: Some(x), ..f };
    assert(h.flags() =~= g.flags() + own);
    lemma_adds(without, with, g.flags(), own);
}

/// `sourcemap` gives one flag, whatever the settings before it. Those after it are
/// not chosen here; what one of them adds stands in its own law.
pub proof fn law_sourcemap_flag(
    f: EsbuildFlags,
    x: Sourcemap,
    without: Vec<String>,
    with: Vec<String>,
)
    requires
        call_ensures(EsbuildFlags::to_flags, (&(EsbuildFlags { sourcemap: None, ..f }),), without),
        call_ensures(EsbuildFlags::to_flags, (&(EsbuildFlags { sourcemap: Some(x), ..f }),), with),
    ensures
        adds(without, with, seq!["--sourcemap="@ + sourcemap_name(x)]),
{
    lemma_nothing_added();
    let own: Seq<Seq<char>> = seq!["--sourcemap="@ + sourcemap_name(x)];
    let g = EsbuildFlags { sourcemap: None, ..f };
    let h = EsbuildFlags { sourcemap: Some(x), ..f };
    assert(h.flags() =~= g.flags() + own);
    lemma_adds(without, with, g.flags(), own);
}

/// One flag for a setting that was chosen, none for one that was not.
pub open spec fn one<T>(
    prefix: Seq<char>,
    setting: Option<T>,
    written: spec_fn(T) -> Seq<char>,
) -> Seq<Seq<char>> {
    match setting {
        Some(x) => seq![prefix + written(x)],
        None => Seq::empty(),
    }
}

/// The flags that each setting gives, one setting after the other.
#[verifier::opaque]
pub open spec fn parts(f: EsbuildFlags) -> Seq<Seq<Seq<char>>> {
    seq![
        one("--color="@, f.color, |x: bool| truth(x)),
        one("--log-level="@, f.log_level, |x: LogLevel| log_level_name(x)),
        one("--log-limit="@, f.log_limit, |x: u32| text::decimal(x as nat)),
        one("--format="@, f.format, |x: Format| format_name(x)),
        one("--platform="@, f.platform, |x: Platform| platform_name(x)),
        one("--tree-shaking="@, f.tree_shaking, |x: bool| truth(x)),
        one("--bundle="@, f.bundle, |x: bool| truth(x)),
        one("--outfile="@, f.outfile, |x: String| x@),
        one("--outdir="@, f.outdir, |x: String| x@),
        one("--packages="@, f.packages, |x: PackagesHandling| packages_name(x)),
        one("--tsconfig="@, f.tsconfig, |x: String| x@),
        one("--tsconfig-raw="@, f.tsconfig_raw, |x: String| x@),
        match f.loader {
            Some(m) => maps::loader_entries(m).map_values(
                |e: (Seq<char>, BuiltinLoader)| "--loader:"@ + e.0 + "="@ + loader_name(e.1),
            ),
            None => Seq::empty(),
        },
        match f.external {
            Some(paths) => paths@.map_values(|p: String| "--external:"@ + p@),
            None => Seq::empty(),
        },
        if f.minify == Some(true) {
            seq!["--minify"@]
        } else {
            Seq::empty()
        },
        if f.splitting == Some(true) {
            seq!["--splitting"@]
        } else {
            Seq::empty()
        },
        match f.defines {
            Some(m) => maps::string_entries(m).map_values(
                |e: (Seq<char>, Seq<char>)| "--define:"@ + e.0 + "="@ + e.1,
            ),
            None => Seq::empty(),
        },
        if f.metafile == Some(true) {
            seq!["--metafile"@]
        } else {
            Seq::empty()
        },
        one("--sourcemap="@, f.sourcemap, |x: Sourcemap| sourcemap_name(x)),
    ]
}

/// The first `n` parts, one after the other.
pub open spec fn chained(parts: Seq<Seq<Seq<char>>>, n: nat) -> Seq<Seq<char>>
    decreases n,
{
    if n == 0 {
        Seq::empty()
    } else {
        chained(parts, (n - 1) as nat) + parts[n - 1]
    }
}

proof fn lemma_parts(f: EsbuildFlags)
    ensures
        parts(f).len() == 19,
        parts(f)[0] == flags::flag("--color="@, f.color),
        parts(f)[1] == flags::flag("--log-level="@, f.log_level),
        parts(f)[2] == flags::flag("--log-limit="@, f.log_limit),
        parts(f)[3] == flags::flag("--format="@, f.format),
        parts(f)[4] == flags::flag("--platform="@, f.platform),
        parts(f)[5] == flags::flag("--tree-shaking="@, f.tree_shaking),
        parts(f)[6] == flags::flag("--bundle="@, f.bundle),
        parts(f)[7] == flags::flag("--outfile="@, f.outfile),
        parts(f)[8] == flags::flag("--outdir="@, f.outdir),
        parts(f)[9] == flags::flag("--packages="@, f.packages),
        parts(f)[10] == flags::flag("--tsconfig="@, f.tsconfig),
        parts(f)[11] == flags::flag("--tsconfig-raw="@, f.tsconfig_raw),
        parts(f)[12] == f.loader_flags(),
        parts(f)[13] == f.external_flags(),
        parts(f)[14] == flags::switch("--minify"@, f.minify),
        parts(f)[15] == flags::switch("--splitting"@, f.splitting),
        parts(f)[16] == f.define_flags(),
        parts(f)[17] == flags::switch("--metafile"@, f.metafile),
        parts(f)[18] == flags::flag("--sourcemap="@, f.sourcemap),
{
    reveal(parts);
    assert(parts(f)[12] =~= f.loader_flags());
    assert(parts(f)[13] =~= f.external_flags());
    assert(parts(f)[16] =~= f.define_flags());
}

proof fn lemma_chain_step(parts: Seq<Seq<Seq<char>>>, n: nat)
    ensures
        chained(parts, n + 1) == chained(parts, n) + parts[n as int],
{
}

/// The flags are those that the settings give, one setting after the other.
pub proof fn law_flags_by_setting(f: EsbuildFlags, r: Vec<String>)
    requires
        call_ensures(EsbuildFlags::to_flags, (&f,), r),
    ensures
        text::texts(r@) == chained(parts(f), 19),
{
    lemma_parts(f);
    let all = parts(f);
    assert(chained(all, 0) + all[0] =~= all[0]);
    lemma_chain_step(all, 0);
    lemma_chain_step(all, 1);
    lemma_chain_step(all, 2);
    lemma_chain_step(all, 3);
    lemma_chain_step(all, 4);
    lemma_chain_step(all, 5);
    lemma_chain_step(all, 6);
    lemma_chain_step(all, 7);
    lemma_chain_step(all, 8);
    lemma_chain_step(all, 9);
    lemma_chain_step(all, 10);
    lemma_chain_step(all, 11);
    lemma_chain_step(all, 12);
    lemma_chain_step(all, 13);
    lemma_chain_step(all, 14);
    lemma_chain_step(all, 15);
    lemma_chain_step(all, 16);
    lemma_chain_step(all, 17);
    lemma_chain_step(all, 18);
}

/// What stands before and behind one part of a chain.
proof fn lemma_chain_split(
    one: Seq<Seq<Seq<char>>>,
    two: Seq<Seq<Seq<char>>>,
    i: int,
    n: nat,
) -> (behind: Seq<Seq<char>>)
    requires
        0 <= i < n <= one.len(),
        one.len() == two.len(),
        forall|j: int| 0 <= j < one.len() && j != i ==> #[trigger] one[j] == two[j],
    ensures
        chained(one, n) == chained(one, i as nat) + one[i] + behind,
        chained(two, n) == chained(one, i as nat) + two[i] + behind,
    decreases n,
{
    if n == i + 1 {
        lemma_chain_start(one, two, i as nat);
        assert(chained(one, n) =~= chained(one, i as nat) + one[i] + Seq::<Seq<char>>::empty());
        assert(chained(two, n) =~= chained(one, i as nat) + two[i] + Seq::<Seq<char>>::empty());
        Seq::empty()
    } else {
        let b = lemma_chain_split(one, two, i, (n - 1) as nat);
        let last = one[n - 1];
        assert(last == two[n - 1]);
        let before = chained(one, i as nat);
        assert(before + one[i] + b + last =~= before + one[i] + (b + last));
        assert(before + two[i] + b + last =~= before + two[i] + (b + last));
        b + last
    }
}

proof fn lemma_chain_start(one: Seq<Seq<Seq<char>>>, two: Seq<Seq<Seq<char>>>, n: nat)
    requires
        n <= one.len(),
        one.len() == two.len(),
        forall|j: int| 0 <= j < n ==> #[trigger] one[j] == two[j],
    ensures
        chained(one, n) == chained(two, n),
    decreases n,
{
    if n > 0 {
        lemma_chain_start(one, two, (n - 1) as nat);
        assert(one[n - 1] == two[n - 1]);
    }
}

/// Each setting decides its own flags and no others: where two choices give the same for every
/// setting but number `i`, the same flags stand before and behind what that setting gives.
pub proof fn law_settings_are_independent(
    f: EsbuildFlags,
    g: EsbuildFlags,
    i: int,
    of_f: Vec<String>,
    of_g: Vec<String>,
)
    requires
        call_ensures(EsbuildFlags::to_flags, (&f,), of_f),
        call_ensures(EsbuildFlags::to_flags, (&g,), of_g),
        0 <= i < 19,
        forall|j: int| 0 <= j < 19 && j != i ==> #[trigger] parts(f)[j] == parts(g)[j],
    ensures
        exists|before: Seq<Seq<char>>, behind: Seq<Seq<char>>|
            text::texts(of_f@) == #[trigger] (before + parts(f)[i] + behind) && text::texts(of_g@)
                == before + parts(g)[i] + behind,
{
    law_flags_by_setting(f, of_f);
    law_flags_by_setting(g, of_g);
    lemma_parts(f);
    lemma_parts(g);
    let behind = lemma_chain_split(parts(f), parts(g), i, 19);
    let before = chained(parts(f), i as nat);
    assert(text::texts(of_f@) == before + parts(f)[i] + behind);
}

/// What is built holds for each setting what was chosen last for it, and where nothing was chosen
/// the default: bundled ES modules for Node, with tree shaking and with packages bundled.
pub proof fn law_build(
    b: EsbuildFlagsBuilder,
    r: Result<EsbuildFlags, EsbuildFlagsBuilderError>,
)
    requires
        call_ensures(EsbuildFlagsBuilder::build, (&b,), r),
    ensures
        r matches Ok(f) && {
            &&& f.color == match b.color {
                Some(choice) => choice,
                None => None,
            }
            &&& f.log_level == match b.log_level {
                Some(choice) => choice,
                None => None,
            }
            &&& f.log_limit == match b.log_limit {
                Some(choice) => choice,
                None => None,
            }
            &&& f.format == match b.format {
                Some(choice) => choice,
                None => Some(Format::Esm),
            }
            &&& f.platform == match b.platform {
                Some(choice) => choice,
                None => Some(Platform::Node),
            }
            &&& f.tree_shaking == match b.tree_shaking {
                Some(choice) => choice,
                None => Some(true),
            }
            &&& f.bundle == match b.bundle {
                Some(choice) => choice,
                None => Some(true),
            }
            &&& f.outfile == match b.outfile {
                Some(choice) => choice,
                None => None,
            }
            &&& f.outdir == match b.outdir {
                Some(choice) => choice,
                None => None,
            }
            &&& f.packages == match b.packages {
                Some(choice) => choice,
                None => Some(PackagesHandling::Bundle),
            }
            &&& f.tsconfig == match b.tsconfig {
                Some(choice) => choice,
                None => None,
            }
            &&& f.tsconfig_raw == match b.tsconfig_raw {
                Some(choice) => choice,
                None => None,
            }
            &&& match b.loader {
                Some(Some(m)) => f.loader matches Some(x) && maps::loader_entries(x) == maps::loader_entries(m),
                _ => f.loader is None,
            }
            &&& match b.external {
                Some(Some(paths)) => f.external matches Some(x) && x@.len() == paths@.len()
                    && forall|i: int| 0 <= i < paths@.len() ==> (#[trigger] x@[i])@ == paths@[i]@,
                _ => f.external is None,
            }
            &&& f.minify == match b.minify {
                Some(choice) => choice,
                None => None,
            }
            &&& f.splitting == match b.splitting {
                Some(choice) => choice,
                None => None,
            }
            &&& match b.defines {
                Some(Some(m)) => f.defines matches Some(x) && maps::string_entries(x) == maps::string_entries(m),
                _ => f.defines is None,
            }
            &&& f.metafile == match b.metafile {
                Some(choice) => choice,
                None => None,
            }
            &&& f.sourcemap == match b.sourcemap {
                Some(choice) => choice,
                None => None,
            }
        },
{
    if let Some(Some(paths)) = b.external {
        if let Ok(f) = r {
            if let Some(x) = f.external {
                assert(text::texts(x@).len() == x@.len());
                assert(text::texts(paths@).len() == paths@.len());
                assert forall|i: int| 0 <= i < paths@.len() implies (#[trigger] x@[i])@
                    == paths@[i]@ by {
                    assert(text::texts(x@)[i] == text::texts(paths@)[i]);
                }
            }
        }
    }
}

/// The settings that are there without any choice.
pub proof fn law_default_settings(f: EsbuildFlags)
    requires
        call_ensures(<EsbuildFlags as Default>::default, (), f),
    ensures
        f.color is None,
        f.log_level is None,
        f.log_limit is None,
        f.format == Some(Format::Esm),
        f.platform == Some(Platform::Node),
        f.tree_shaking == Some(true),
        f.bundle == Some(true),
        f.outfile is None,
        f.outdir is None,
        f.packages == Some(PackagesHandling::Bundle),
        f.tsconfig is None,
        f.tsconfig_raw is None,
        f.loader is None,
        f.external is None,
        f.minify is None,
        f.splitting is None,
        f.defines is None,
        f.metafile is None,
        f.sourcemap is None,
{
}

/// Nothing is chosen at first.
pub proof fn law_nothing_chosen_at_first(b: EsbuildFlagsBuilder)
    requires
        call_ensures(<EsbuildFlagsBuilder as Default>::default, (), b),
    ensures
        b.color is None,
        b.log_level is None,
        b.log_limit is None,
        b.format is None,
        b.platform is None,
        b.tree_shaking is None,
        b.bundle is None,
        b.outfile is None,
        b.outdir is None,
        b.packages is None,
        b.tsconfig is None,
        b.tsconfig_raw is None,
        b.loader is None,
        b.external is None,
        b.minify is None,
        b.splitting is None,
        b.defines is None,
        b.metafile is None,
        b.sourcemap is None,
{
}

/// esbuild is told its version behind `--service=`.
pub proof fn law_service_argument(version: &str, r: String)
    requires
        call_ensures(service_argument, (version,), r),
    ensures
        r@ == "--service="@ + version@,
{
}

/// Choosing `color` changes that choice and no other.
pub proof fn law_choose_color(
    b: &mut EsbuildFlagsBuilder,
    x: bool,
    r: &mut EsbuildFlagsBuilder,
)
    requires
        call_ensures(EsbuildFlagsBuilder::color, (b, x), r),
    ensures
        *old(r) == (EsbuildFlagsBuilder { color: Some(Some(x)), ..*old(b) }),
        *final(b) == *final(r),
{
}

/// Choosing `log_level` changes that choice and no other.
pub proof fn law_choose_log_level(
    b: &mut EsbuildFlagsBuilder,
    x: LogLevel,
    r: &mut EsbuildFlagsBuilder,
)
    requires
        call_ensures(EsbuildFlagsBuilder::log_level, (b, x), r),
    ensures
        *old(r) == (EsbuildFlagsBuilder { log_level: Some(Some(x)), ..*old(b) }),
        *final(b) == *final(r),
{
}

/// Choosing `log_limit` changes that choice and no other.
pub proof fn law_choose_log_limit(
    b: &mut EsbuildFlagsBuilder,
    x: u32,
    r: &mut EsbuildFlagsBuilder,
)
    requires
        call_ensures(EsbuildFlagsBuilder::log_limit, (b, x), r),
    ensures
        *old(r) == (EsbuildFlagsBuilder { log_limit: Some(Some(x)), ..*old(b) }),
        *final(b) == *final(r),
{
}

/// Choosing `format` changes that choice and no other.
pub proof fn law_choose_format(
    b: &mut EsbuildFlagsBuilder,
    x: Format,
    r: &mut EsbuildFlagsBuilder,
)
    requires
        call_ensures(EsbuildFlagsBuilder::format, (b, x), r),
    ensures
        *old(r) == (EsbuildFlagsBuilder { format: Some(Some(x)), ..*old(b) }),
        *final(b) == *final(r),
{
}

/// Choosing `platform` changes that choice and no other.
pub proof fn law_choose_platform(
    b: &mut EsbuildFlagsBuilder,
    x: Platform,
    r: &mut EsbuildFlagsBuilder,
)
    requires
        call_ensures(EsbuildFlagsBuilder::platform, (b, x), r),
    ensures
        *old(r) == (EsbuildFlagsBuilder { platform: Some(Some(x)), ..*old(b) }),
        *final(b) == *final(r),
{
}

/// Choosing `tree_shaking` changes that choice and no other.
pub proof fn law_choose_tree_shaking(
    b: &mut EsbuildFlagsBuilder,
    x: bool,
    r: &mut EsbuildFlagsBuilder,
)
    requires
        call_ensures(EsbuildFlagsBuilder::tree_shaking, (b, x), r),
    ensures
        *old(r) == (EsbuildFlagsBuilder { tree_shaking: Some(Some(x)), ..*old(b) }),
        *final(b) == *final(r),
{
}

/// Choosing `bundle` changes that choice and no other.
pub proof fn law_choose_bundle(
    b: &mut EsbuildFlagsBuilder,
    x: bool,
    r: &mut EsbuildFlagsBuilder,
)
    requires
        call_ensures(EsbuildFlagsBuilder::bundle, (b, x), r),
    ensures
        *old(r) == (EsbuildFlagsBuilder { bundle: Some(Some(x)), ..*old(b) }),
        *final(b) == *final(r),
{
}

/// Choosing `outfile` changes that choice and no other.
pub proof fn law_choose_outfile(
    b: &mut EsbuildFlagsBuilder,
    x: String,
    r: &mut EsbuildFlagsBuilder,
)
    requires
        call_ensures(EsbuildFlagsBuilder::outfile, (b, x), r),
    ensures
        *old(r) == (EsbuildFlagsBuilder { outfile: Some(Some(x)), ..*old(b) }),
        *final(b) == *final(r),
{
}

/// Choosing `outdir` changes that choice and no other.
pub proof fn law_choose_outdir(
    b: &mut EsbuildFlagsBuilder,
    x: String,
    r: &mut EsbuildFlagsBuilder,
)
    requires
        call_ensures(EsbuildFlagsBuilder::outdir, (b, x), r),
    ensures
        *old(r) == (EsbuildFlagsBuilder { outdir: Some(Some(x)), ..*old(b) }),
        *final(b) == *final(r),
{
}

/// Choosing `packages` changes that choice and no other.
pub proof fn law_choose_packages(
    b: &mut EsbuildFlagsBuilder,
    x: PackagesHandling,
    r: &mut EsbuildFlagsBuilder,
)
    requires
        call_ensures(EsbuildFlagsBuilder::packages, (b, x), r),
    ensures
        *old(r) == (EsbuildFlagsBuilder { packages: Some(Some(x)), ..*old(b) }),
        *final(b) == *final(r),
{
}

/// Choosing `tsconfig` changes that choice and no other.
pub proof fn law_choose_tsconfig(
    b: &mut EsbuildFlagsBuilder,
    x: String,
    r: &mut EsbuildFlagsBuilder,
)
    requires
        call_ensures(EsbuildFlagsBuilder::tsconfig, (b, x), r),
    ensures
        *old(r) == (EsbuildFlagsBuilder { tsconfig: Some(Some(x)), ..*old(b) }),
        *final(b) == *final(r),
{
}

/// Choosing `tsconfig_raw` changes that choice and no other.
pub proof fn law_choose_tsconfig_raw(
    b: &mut EsbuildFlagsBuilder,
    x: String,
    r: &mut EsbuildFlagsBuilder,
)
    requires
        call_ensures(EsbuildFlagsBuilder::tsconfig_raw, (b, x), r),
    ensures
        *old(r) == (EsbuildFlagsBuilder { tsconfig_raw: Some(Some(x)), ..*old(b) }),
        *final(b) == *final(r),
{
}

/// Choosing `loader` changes that choice and no other.
pub proof fn law_choose_loader(
    b: &mut EsbuildFlagsBuilder,
    x: IndexMap<String, BuiltinLoader>,
    r: &mut EsbuildFlagsBuilder,
)
    requires
        call_ensures(EsbuildFlagsBuilder::loader, (b, x), r),
    ensures
        *old(r) == (EsbuildFlagsBuilder { loader: Some(Some(x)), ..*old(b) }),
        *final(b) == *final(r),
{
}

/// Choosing `external` changes that choice and no other.
pub proof fn law_choose_external(
    b: &mut EsbuildFlagsBuilder,
    x: Vec<String>,
    r: &mut EsbuildFlagsBuilder,
)
    requires
        call_ensures(EsbuildFlagsBuilder::external, (b, x), r),
    ensures
        *old(r) == (EsbuildFlagsBuilder { external: Some(Some(x)), ..*old(b) }),
        *final(b) == *final(r),
{
}

/// Choosing `minify` changes that choice and no other.
pub proof fn law_choose_minify(
    b: &mut EsbuildFlagsBuilder,
    x: bool,
    r: &mut EsbuildFlagsBuilder,
)
    requires
        call_ensures(EsbuildFlagsBuilder::minify, (b, x), r),
    ensures
        *old(r) == (EsbuildFlagsBuilder { minify: Some(Some(x)), ..*old(b) }),
        *final(b) == *final(r),
{
}

/// Choosing `splitting` changes that choice and no other.
pub proof fn law_choose_splitting(
    b: &mut EsbuildFlagsBuilder,
    x: bool,
    r: &mut EsbuildFlagsBuilder,
)
    requires
        call_ensures(EsbuildFlagsBuilder::splitting, (b, x), r),
    ensures
        *old(r) == (EsbuildFlagsBuilder { splitting: Some(Some(x)), ..*old(b) }),
        *final(b) == *final(r),
{
}

/// Choosing `defines` changes that choice and no other.
pub proof fn law_choose_defines(
    b: &mut EsbuildFlagsBuilder,
    x: IndexMap<String, String>,
    r: &mut EsbuildFlagsBuilder,
)
    requires
        call_ensures(EsbuildFlagsBuilder::defines, (b, x), r),
    ensures
        *old(r) == (EsbuildFlagsBuilder { defines: Some(Some(x)), ..*old(b) }),
        *final(b) == *final(r),
{
}

/// Choosing `metafile` changes that choice and no other.
pub proof fn law_choose_metafile(
    b: &mut EsbuildFlagsBuilder,
    x: bool,
    r: &mut EsbuildFlagsBuilder,
)
    requires
        call_ensures(EsbuildFlagsBuilder::metafile, (b, x), r),
    ensures
        *old(r) == (EsbuildFlagsBuilder { metafile: Some(Some(x)), ..*old(b) }),
        *final(b) == *final(r),
{
}

/// Choosing `sourcemap` changes that choice and no other.
pub proof fn law_choose_sourcemap(
    b: &mut EsbuildFlagsBuilder,
    x: Sourcemap,
    r: &mut EsbuildFlagsBuilder,
)
    requires
        call_ensures(EsbuildFlagsBuilder::sourcemap, (b, x), r),
    ensures
        *old(r) == (EsbuildFlagsBuilder { sourcemap: Some(Some(x)), ..*old(b) }),
        *final(b) == *final(r),
{
}

} // verus!
