//! The decisions behind a front-end for the Scoop package manager, verified.
//!
//! The heart of the crate is the discovery of installed packages: the apps
//! directory is listed, a fingerprint of the listing is compared with that
//! of a cache, and only where they differ is every package loaded anew. A
//! second cache, of the version directories of each package, lives and dies
//! with the first. Around it stand the search for the Scoop root, the lookup
//! of manifests, and the smaller rules of the front-end: how buckets are
//! read, filtered and sorted, what a cleanup removes, when an update is due,
//! what is made of the lines that Scoop writes.
//!
//! Nothing here touches the disk, the environment or the clock. A host
//! reads, writes what it found into the plain types of this crate, and acts
//! on what the functions return. Every function states what it returns, and
//! Verus proves that it does. The exceptions are a few wrappers around calls
//! into other crates and the standard library; each says in its doc comment
//! what it takes on trust.

pub mod appinfo;
pub mod auto_update;
pub mod bucket_info;
pub mod bucket_install;
pub mod bucket_manifests;
pub mod bucket_match;
pub mod bucket_parser;
pub mod bucket_update;
pub mod buckets;
pub mod cleanup;
pub mod custom_update;
pub mod fingerprint;
pub mod headless;
pub mod info;
pub mod installed;
pub mod json;
pub mod loader;
pub mod locate;
pub mod models;
pub mod operations;
pub mod probe;
pub mod resolver;
pub mod schedule;
pub mod scoop;
pub mod search;
pub mod shortcuts;
pub mod sorting;
pub mod state;
pub mod status;
pub mod strings;
pub mod text;
pub mod update_log;
pub mod urls;
pub mod versions;
