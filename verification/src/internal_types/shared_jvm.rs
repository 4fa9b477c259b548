//! The two documents that describe runtime images: which image serves a
//! platform and component, and which files an image consists of.

use vstd::prelude::*;

verus! {

/// Where a document or a file can be downloaded.
#[derive(Debug, Clone, PartialEq, Eq)]
pub struct _JavaRuntimesManifestItemValue {
    pub url: String,
}

/// One image offered for a component.
#[derive(Debug, Clone, PartialEq, Eq)]
pub struct _JavaRuntimesManifestItem {
    pub manifest: _JavaRuntimesManifestItemValue,
}

/// The images offered for one component, best first.
#[derive(Debug, Clone, PartialEq, Eq)]
pub struct _JavaRuntimesManifestComponent {
    pub name: String,
    pub items: Vec<_JavaRuntimesManifestItem>,
}

/// The components offered for one platform token.
#[derive(Debug, Clone, PartialEq, Eq)]
pub struct _JavaRuntimesManifestPlatform {
    pub name: String,
    pub components: Vec<_JavaRuntimesManifestComponent>,
}

/// Platform token, then component name, then the images on offer. Where a
/// name occurs twice, the first occurrence counts.
#[derive(Debug, Clone, PartialEq, Eq)]
pub struct JavaRuntimesManifest {
    pub platforms: Vec<_JavaRuntimesManifestPlatform>,
}

/// The download of a plain file.
#[derive(Debug, Clone, PartialEq, Eq)]
pub struct _JavaRuntimeFilesItemDownloads {
    pub raw: _JavaRuntimesManifestItemValue,
}

/// What stands at one path of an image. `item_type` is `file`,
/// `directory` or `link`; any other word marks an entry to pass over.
#[derive(Debug, Clone, PartialEq, Eq)]
pub struct _JavaRuntimeFilesItem {
    pub item_type: String,
    pub target: String,
    pub downloads: Option<_JavaRuntimeFilesItemDownloads>,
    pub executable: bool,
}

/// One path of an image, relative to the image's directory.
#[derive(Debug, Clone, PartialEq, Eq)]
pub struct _JavaRuntimeFilesEntry {
    pub path: String,
    pub item: _JavaRuntimeFilesItem,
}

/// The files of one runtime image.
#[derive(Debug, Clone, PartialEq, Eq)]
pub struct JavaRuntimeFiles {
    pub files: Vec<_JavaRuntimeFilesEntry>,
}

/// The kind of an entry of a runtime image.
#[derive(Debug, Clone, Copy, PartialEq, Eq, Structural)]
pub enum ItemKind {
    File,
    Directory,
    Link,
    Other,
}

/// The kind that the word `item_type` stands for.
pub open spec fn kind_named(item_type: Seq<char>) -> ItemKind {
    if item_type == "file"@ {
        ItemKind::File
    } else if item_type == "directory"@ {
        ItemKind::Directory
    } else if item_type == "link"@ {
        ItemKind::Link
    } else {
        ItemKind::Other
    }
}

impl _JavaRuntimeFilesItem {
    /// The entry's kind.
    pub open spec fn kind_spec(&self) -> ItemKind {
        kind_named(self.item_type@)
    }

    /// A plain file names its download.
    pub open spec fn wf(&self) -> bool {
        self.kind_spec() == ItemKind::File ==> self.downloads.is_some()
    }

    /// The entry's kind.
    pub fn kind(&self) -> (r: ItemKind)
        ensures
            r == self.kind_spec(),
    {
        if crate::text::same_text(self.item_type.as_str(), "file") {
            ItemKind::File
        } else if crate::text::same_text(self.item_type.as_str(), "directory") {
            ItemKind::Directory
        } else if crate::text::same_text(self.item_type.as_str(), "link") {
            ItemKind::Link
        } else {
            ItemKind::Other
        }
    }
}

impl JavaRuntimeFiles {
    /// Every plain file of the image names its download.
    pub open spec fn wf(&self) -> bool {
        forall|i: int| 0 <= i < self.files@.len() ==> (#[trigger] self.files@[i]).item.wf()
    }

    /// Whether every plain file of the image names its download.
    pub fn is_well_formed(&self) -> (r: bool)
        ensures
            r == self.wf(),
    {
        let mut i: usize = 0;
        while i < self.files.len()
            invariant
                i <= self.files@.len(),
                forall|j: int| 0 <= j < i ==> (#[trigger] self.files@[j]).item.wf(),
            decreases self.files.len() - i,
        {
            let item = &self.files[i].item;
            if item.kind() == ItemKind::File && item.downloads.is_none() {
                return false;
            }
            i = i + 1;
        }
        true
    }
}

} // verus!
