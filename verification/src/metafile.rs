//! The metafile of a build: which files went in, which came out, and how they depend on each
//! other.
use std::collections::HashMap;
use vstd::prelude::*;

verus! {

/// The files that a build read and wrote, by their paths.
pub struct Metafile {
    pub inputs: HashMap<String, MetafileInput>,
    pub outputs: HashMap<String, MetafileOutput>,
}

/// A file that a build read.
pub struct MetafileInput {
    pub bytes: u64,
    pub imports: Vec<MetafileInputImport>,
    pub format: Option<String>,
    pub with: Option<HashMap<String, String>>,
}

/// An import in a file that a build read.
pub struct MetafileInputImport {
    pub path: String,
    pub kind: String,
    pub external: Option<bool>,
    pub original: Option<String>,
    pub with: Option<HashMap<String, String>>,
}

/// A file that a build wrote.
pub struct MetafileOutput {
    pub bytes: u64,
    pub inputs: HashMap<String, MetafileOutputInput>,
    pub imports: Vec<MetafileOutputImport>,
    pub exports: Vec<String>,
    pub entry_point: Option<String>,
    pub css_bundle: Option<String>,
}

/// The part of an output file that comes from one input file.
pub struct MetafileOutputInput {
    pub bytes_in_output: u64,
}

/// An import in a file that a build wrote.
pub struct MetafileOutputImport {
    pub path: String,
    pub kind: String,
    pub external: Option<bool>,
}

} // verus!
