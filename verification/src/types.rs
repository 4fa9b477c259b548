//! The launcher's own values: the platform it runs on, the installation
//! root, the catalog of releases and the errors of the library.

use vstd::prelude::*;
use crate::steps::{Action, ActionView};
use crate::text::{first_index, first_index_step, same_text};

verus! {

/// An operating-system family.
#[derive(Debug, Clone, Copy, PartialEq, Eq, Structural)]
pub enum Platform {
    Linux,
    Windows,
    Darwin,
}

/// The platform that an operating system's name stands for, if any.
pub open spec fn platform_named(name: Seq<char>) -> Option<Platform> {
    if name == "linux"@ {
        Some(Platform::Linux)
    } else if name == "windows"@ {
        Some(Platform::Windows)
    } else if name == "macos"@ {
        Some(Platform::Darwin)
    } else {
        None
    }
}

impl Platform {
    /// Reads the name that Rust gives an operating system: `linux`,
    /// `windows` or `macos`. Any other name stands for no platform.
    pub fn from_name(value: &str) -> (r: Option<Platform>)
        ensures
            r == platform_named(value@),
    {
        if same_text(value, "linux") {
            Some(Platform::Linux)
        } else if same_text(value, "windows") {
            Some(Platform::Windows)
        } else if same_text(value, "macos") {
            Some(Platform::Darwin)
        } else {
            None
        }
    }
}

/// The installation root: the directory that owns everything installed.
#[derive(Debug, Clone, PartialEq, Eq)]
pub struct Launcher {
    pub path: String,
}

impl Launcher {
    /// A launcher rooted in the current directory.
    pub fn new() -> (r: Launcher)
        ensures
            r.path@ == "./"@,
    {
        Launcher { path: String::from_str("./") }
    }

    /// Moves the root to `path`.
    pub fn set_path(&mut self, path: &str)
        ensures
            final(self).path@ == path@,
    {
        self.path = String::from_str(path);
    }

    /// What creates the root: the directory itself with every missing
    /// ancestor.
    pub fn init_path(&self) -> (r: Action)
        ensures
            r@ == (ActionView::CreateDirAll { path: self.path@ }),
    {
        Action::CreateDirAll { path: self.path.clone() }
    }
}

/// One row of the catalog of releases.
#[derive(Debug, Clone, PartialEq, Eq)]
pub struct Version {
    pub id: String,
    pub version_type: String,
    pub url: String,
}

/// The catalog of releases.
#[derive(Debug, Clone, PartialEq, Eq)]
pub struct VersionsList {
    pub versions: Vec<Version>,
}

/// The ids of the rows of `versions`, in order.
pub open spec fn version_ids(versions: Seq<Version>) -> Seq<Seq<char>> {
    Seq::new(versions.len(), |i: int| versions[i].id@)
}

impl VersionsList {
    /// The position of the first row whose id is `id`, or the number of
    /// rows where no row has it.
    pub open spec fn position_of(&self, id: Seq<char>) -> int {
        first_index(version_ids(self.versions@), id)
    }

    /// The first row whose id is `id`, if there is one.
    pub fn find_version(&self, id: &str) -> (r: Option<&Version>)
        ensures
            0 <= self.position_of(id@) <= self.versions@.len(),
            self.position_of(id@) == self.versions@.len() ==> r.is_none(),
            self.position_of(id@) < self.versions@.len() ==> r == Some(
                &self.versions@[self.position_of(id@)],
            ),
    {
        let ghost keys = version_ids(self.versions@);
        let mut i: usize = 0;
        assert(keys.subrange(0, keys.len() as int) =~= keys);
        while i < self.versions.len()
            invariant
                i <= self.versions@.len(),
                keys == version_ids(self.versions@),
                first_index(keys, id@) == i + first_index(
                    keys.subrange(i as int, keys.len() as int),
                    id@,
                ),
            decreases self.versions.len() - i,
        {
            proof {
                first_index_step(keys, id@, i as int);
            }
            if same_text(self.versions[i].id.as_str(), id) {
                return Some(&self.versions[i]);
            }
            i = i + 1;
        }
        None
    }
}

/// `zip::result::ZipError`, carried through as it is.
#[verifier::external_type_specification]
#[verifier::external_body]
pub struct ExZipError(zip::result::ZipError);

/// Why the library gave up.
#[derive(Debug)]
pub enum Error {
    /// An archive, or one of its entries, could not be read.
    Zip(zip::result::ZipError),
    /// No runtime image is offered for the platform and component asked
    /// for.
    RuntimeNotFound,
}

} // verus!
