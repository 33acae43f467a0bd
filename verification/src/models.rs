//! The records that the package commands exchange.

use vstd::prelude::*;
use vstd::std_specs::cmp::PartialEqSpecImpl;

verus! {

/// How a search matched a package; `NoMatch` for records that no search produced.
#[derive(Debug, Clone, Copy, PartialEq, Eq, Structural)]
pub enum MatchSource {
    Name,
    Binary,
    NoMatch,
}

impl Default for MatchSource {
    fn default() -> (r: Self)
        ensures
            r == MatchSource::NoMatch,
    {
        MatchSource::NoMatch
    }
}

/// One installed (or found) package.
#[derive(Debug)]
pub struct ScoopPackage {
    /// Directory name of the package under the apps root.
    pub name: String,
    /// Version taken from the manifest of the active version directory.
    pub version: String,
    /// Bucket the package came from; `main` where none could be determined.
    pub source: String,
    /// Modification time of the active version directory, RFC 3339.
    pub updated: String,
    pub is_installed: bool,
    /// Description taken from the manifest.
    pub info: String,
    pub match_source: MatchSource,
    /// Whether the install cannot be traced back to a bucket.
    pub is_versioned_install: bool,
}

/// The mathematical value of a `ScoopPackage`.
pub struct PackageView {
    pub name: Seq<char>,
    pub version: Seq<char>,
    pub source: Seq<char>,
    pub updated: Seq<char>,
    pub is_installed: bool,
    pub info: Seq<char>,
    pub match_source: MatchSource,
    pub is_versioned_install: bool,
}

impl View for ScoopPackage {
    type V = PackageView;

    open spec fn view(&self) -> PackageView {
        PackageView {
            name: self.name@,
            version: self.version@,
            source: self.source@,
            updated: self.updated@,
            is_installed: self.is_installed,
            info: self.info@,
            match_source: self.match_source,
            is_versioned_install: self.is_versioned_install,
        }
    }
}

impl DeepView for ScoopPackage {
    type V = PackageView;

    open spec fn deep_view(&self) -> PackageView {
        self@
    }
}

impl Clone for ScoopPackage {
    fn clone(&self) -> (r: Self)
        ensures
            r == *self,
    {
        ScoopPackage {
            name: self.name.clone(),
            version: self.version.clone(),
            source: self.source.clone(),
            updated: self.updated.clone(),
            is_installed: self.is_installed,
            info: self.info.clone(),
            match_source: self.match_source,
            is_versioned_install: self.is_versioned_install,
        }
    }
}

impl PartialEq for ScoopPackage {
    fn eq(&self, other: &Self) -> (r: bool) {
        self.name == other.name && self.version == other.version && self.source == other.source
            && self.updated == other.updated && self.is_installed == other.is_installed
            && self.info == other.info && self.match_source == other.match_source
            && self.is_versioned_install == other.is_versioned_install
    }
}

impl PartialEqSpecImpl for ScoopPackage {
    open spec fn obeys_eq_spec() -> bool {
        true
    }

    open spec fn eq_spec(&self, other: &Self) -> bool {
        self@ == other@
    }
}

impl Eq for ScoopPackage {

}

impl Default for ScoopPackage {
    fn default() -> (r: Self)
        ensures
            r@ == (PackageView {
                name: Seq::empty(),
                version: Seq::empty(),
                source: Seq::empty(),
                updated: Seq::empty(),
                is_installed: false,
                info: Seq::empty(),
                match_source: MatchSource::NoMatch,
                is_versioned_install: false,
            }),
    {
        ScoopPackage {
            name: String::new(),
            version: String::new(),
            source: String::new(),
            updated: String::new(),
            is_installed: false,
            info: String::new(),
            match_source: MatchSource::NoMatch,
            is_versioned_install: false,
        }
    }
}

/// The fields of a package manifest that the scan reads.
#[derive(Debug)]
pub struct PackageManifest {
    pub description: Option<String>,
    pub version: String,
}

impl Clone for PackageManifest {
    fn clone(&self) -> (r: Self)
        ensures
            r == *self,
    {
        PackageManifest {
            description: match &self.description {
                Some(text) => Some(text.clone()),
                None => None,
            },
            version: self.version.clone(),
        }
    }
}

/// The fields of a package's `install.json` that the scan reads.
#[derive(Debug)]
pub struct InstallManifest {
    /// The bucket that the package was installed from, where one is recorded.
    pub bucket: Option<String>,
}

impl Clone for InstallManifest {
    fn clone(&self) -> (r: Self)
        ensures
            r == *self,
    {
        InstallManifest {
            bucket: match &self.bucket {
                Some(text) => Some(text.clone()),
                None => None,
            },
        }
    }
}

impl Default for InstallManifest {
    fn default() -> (r: Self)
        ensures
            r.bucket is None,
    {
        InstallManifest { bucket: None }
    }
}

} // verus!
