use esbuild_client::{
    service_argument, BuiltinLoader, EsbuildFlags, EsbuildFlagsBuilder, EsbuildFlagsBuilderError,
    Format, Loader, LogLevel, PackagesHandling, Platform, Sourcemap,
};
use indexmap::IndexMap;

#[test]
fn default_flags() {
    assert_eq!(
        EsbuildFlags::default().to_flags(),
        vec![
            "--format=esm",
            "--platform=node",
            "--tree-shaking=true",
            "--bundle=true",
            "--packages=bundle",
        ]
    );
}

#[test]
fn defines_become_flags() {
    let flags = EsbuildFlagsBuilder::default()
        .bundle(true)
        .minify(false)
        .defines(IndexMap::from_iter([(
            "process.env.NODE_ENV".to_string(),
            "\"production\"".to_string(),
        )]))
        .build()
        .unwrap()
        .to_flags();
    assert!(flags.contains(&"--define:process.env.NODE_ENV=\"production\"".to_string()));
    assert!(!flags.contains(&"--minify".to_string()));
}

#[test]
fn every_flag_in_order() {
    let mut loader = IndexMap::new();
    loader.insert(".txt".to_string(), BuiltinLoader::Text);
    loader.insert(".png".to_string(), BuiltinLoader::DataUrl);
    let mut defines = IndexMap::new();
    defines.insert("B".to_string(), "1".to_string());
    defines.insert("A".to_string(), "2".to_string());
    let mut builder = EsbuildFlagsBuilder::default();
    builder
        .color(false)
        .log_level(LogLevel::Warning)
        .log_limit(120)
        .format(Format::Iife)
        .platform(Platform::Neutral)
        .tree_shaking(false)
        .bundle(false)
        .outfile("out.js".to_string())
        .outdir("dist".to_string())
        .packages(PackagesHandling::External)
        .tsconfig("tsconfig.json".to_string())
        .tsconfig_raw("{}".to_string())
        .loader(loader)
        .external(vec!["fs".to_string(), "path".to_string()])
        .minify(true)
        .splitting(true)
        .defines(defines)
        .metafile(true)
        .sourcemap(Sourcemap::Inline);
    let flags = builder.build().unwrap().to_flags();
    assert_eq!(
        flags,
        vec![
            "--color=false",
            "--log-level=warning",
            "--log-limit=120",
            "--format=iife",
            "--platform=neutral",
            "--tree-shaking=false",
            "--bundle=false",
            "--outfile=out.js",
            "--outdir=dist",
            "--packages=external",
            "--tsconfig=tsconfig.json",
            "--tsconfig-raw={}",
            "--loader:.txt=text",
            "--loader:.png=dataurl",
            "--external:fs",
            "--external:path",
            "--minify",
            "--splitting",
            "--define:B=1",
            "--define:A=2",
            "--metafile",
            "--sourcemap=inline",
        ]
    );
    assert_eq!(builder.clone().build().unwrap().to_flags(), flags);
}

#[test]
fn switches_that_are_off_leave_no_flag() {
    let flags = EsbuildFlagsBuilder::default()
        .minify(false)
        .splitting(false)
        .metafile(false)
        .build()
        .unwrap()
        .to_flags();
    assert_eq!(flags, EsbuildFlags::default().to_flags());
}

#[test]
fn the_last_choice_counts() {
    let flags = EsbuildFlagsBuilder::default()
        .log_limit(0)
        .log_limit(4294967295)
        .build()
        .unwrap()
        .to_flags();
    assert_eq!(flags[0], "--log-limit=4294967295");
    let flags = EsbuildFlagsBuilder::default().log_limit(0).build().unwrap().to_flags();
    assert_eq!(flags[0], "--log-limit=0");
}

#[test]
fn names_of_settings() {
    let levels = [
        LogLevel::Silent,
        LogLevel::Error,
        LogLevel::Warning,
        LogLevel::Info,
        LogLevel::Debug,
        LogLevel::Verbose,
    ];
    let names = ["silent", "error", "warning", "info", "debug", "verbose"];
    for (level, name) in levels.iter().zip(names) {
        assert_eq!(level.to_string(), name);
    }
    assert_eq!(Format::Esm.to_string(), "esm");
    assert_eq!(Format::Cjs.to_string(), "cjs");
    assert_eq!(Format::Iife.to_string(), "iife");
    assert_eq!(Platform::Node.to_string(), "node");
    assert_eq!(Platform::Browser.to_string(), "browser");
    assert_eq!(Platform::Neutral.to_string(), "neutral");
    assert_eq!(PackagesHandling::Bundle.to_string(), "bundle");
    assert_eq!(PackagesHandling::External.to_string(), "external");
    assert_eq!(Sourcemap::Linked.to_string(), "linked");
    assert_eq!(Sourcemap::External.to_string(), "external");
    assert_eq!(Sourcemap::Inline.to_string(), "inline");
    assert_eq!(Sourcemap::Both.to_string(), "both");
    let loaders = [
        BuiltinLoader::Js,
        BuiltinLoader::Ts,
        BuiltinLoader::Jsx,
        BuiltinLoader::Json,
        BuiltinLoader::Css,
        BuiltinLoader::Text,
        BuiltinLoader::Binary,
        BuiltinLoader::Base64,
        BuiltinLoader::DataUrl,
        BuiltinLoader::File,
        BuiltinLoader::Copy,
        BuiltinLoader::Empty,
    ];
    let names = [
        "js", "ts", "jsx", "json", "css", "text", "binary", "base64", "dataurl", "file", "copy",
        "empty",
    ];
    for (loader, name) in loaders.iter().zip(names) {
        assert_eq!(loader.to_string(), name);
    }
}

#[test]
fn loader_can_be_cloned() {
    let mut by_extension = IndexMap::new();
    by_extension.insert(".a".to_string(), BuiltinLoader::Css);
    match Loader::Mapping(by_extension).clone() {
        Loader::Mapping(m) => {
            assert_eq!(m.len(), 1);
            assert_eq!(m[".a"].to_string(), "css");
        }
        Loader::Builtin(_) => panic!("a map was cloned"),
    }
    assert!(matches!(
        Loader::Builtin(BuiltinLoader::Js).clone(),
        Loader::Builtin(BuiltinLoader::Js)
    ));
}

#[test]
fn builder_errors_as_text() {
    assert_eq!(
        EsbuildFlagsBuilderError::UninitializedField("color").to_string(),
        "`color` must be initialized"
    );
    assert_eq!(
        EsbuildFlagsBuilderError::ValidationError("no".to_string()).to_string(),
        "no"
    );
}

#[test]
fn loaders_are_printed() {
    let mut by_extension = IndexMap::new();
    by_extension.insert(".a".to_string(), BuiltinLoader::Css);
    assert_eq!(format!("{:?}", Loader::Mapping(by_extension)), "Map({\".a\": Css})");
    assert_eq!(format!("{:?}", Loader::Builtin(BuiltinLoader::Js)), "Builtin(Js)");
}

#[test]
fn the_argument_that_starts_a_service() {
    assert_eq!(service_argument("0.28.2"), "--service=0.28.2");
}
