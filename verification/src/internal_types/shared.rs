//! The descriptor of a release, its libraries with their platform rules,
//! and the index of its assets.

use vstd::prelude::*;
use crate::text::same_text;
use crate::types::Platform;

verus! {

/// Where a library's file is stored below the library directory, and
/// where it is downloaded from.
#[derive(Debug, Clone, PartialEq, Eq)]
pub struct _VersionJsonLibraryDownloadsArtifact {
    pub path: String,
    pub url: String,
}

#[derive(Debug, Clone, PartialEq, Eq)]
pub struct _VersionJsonLibraryDownloads {
    pub artifact: _VersionJsonLibraryDownloadsArtifact,
}

/// The operating system that a rule speaks of: `windows`, `osx` or
/// `linux`.
#[derive(Debug, Clone, PartialEq, Eq)]
pub struct _VersionJsonLibraryRuleOs {
    pub name: String,
}

/// A condition on the platform. The action `allow` admits the library on
/// the named system only; any other action bars it from that system.
#[derive(Debug, Clone, PartialEq, Eq)]
pub struct _VersionJsonLibraryRule {
    pub action: String,
    pub os: _VersionJsonLibraryRuleOs,
}

/// The platform that a rule's system name stands for, if any.
pub open spec fn os_named(name: Seq<char>) -> Option<Platform> {
    if name == "windows"@ {
        Some(Platform::Windows)
    } else if name == "osx"@ {
        Some(Platform::Darwin)
    } else if name == "linux"@ {
        Some(Platform::Linux)
    } else {
        None
    }
}

/// Reads a rule's system name.
pub fn parse_os(name: &str) -> (r: Option<Platform>)
    ensures
        r == os_named(name@),
{
    if same_text(name, "windows") {
        Some(Platform::Windows)
    } else if same_text(name, "osx") {
        Some(Platform::Darwin)
    } else if same_text(name, "linux") {
        Some(Platform::Linux)
    } else {
        None
    }
}

impl _VersionJsonLibraryRule {
    /// Whether the rule admits only its own system.
    pub open spec fn is_allow(&self) -> bool {
        self.action@ == "allow"@
    }

    /// Whether the rule names `platform`. A name that stands for no
    /// platform names none.
    pub open spec fn names(&self, platform: Platform) -> bool {
        os_named(self.os.name@) == Some(platform)
    }

    /// Whether the rule lets a library through on `platform`: an `allow`
    /// rule does so on the system it names, any other rule everywhere but
    /// there.
    pub open spec fn passes(&self, platform: Platform) -> bool {
        self.is_allow() == self.names(platform)
    }

    /// Whether the rule lets a library through on `platform`.
    pub fn parse_rule(&self, platform: Platform) -> (r: bool)
        ensures
            r == self.passes(platform),
    {
        let allow = same_text(self.action.as_str(), "allow");
        let names = match parse_os(self.os.name.as_str()) {
            Some(p) => p == platform,
            None => false,
        };
        allow == names
    }
}

/// One library of a release.
#[derive(Debug, Clone, PartialEq, Eq)]
pub struct VersionJsonLibrary {
    pub name: String,
    pub downloads: _VersionJsonLibraryDownloads,
    pub rules: Vec<_VersionJsonLibraryRule>,
}

/// The character that separates the parts of a library's name.
pub open spec fn colon() -> char {
    ':'
}

/// `s` cut at every colon: one part more than `s` has colons, each
/// without colons, empty parts included.
pub open spec fn segments(s: Seq<char>) -> Seq<Seq<char>>
    decreases s.len(),
{
    if s.len() == 0 {
        seq![Seq::<char>::empty()]
    } else {
        let init = segments(s.drop_last());
        if s.last() == colon() {
            init.push(Seq::<char>::empty())
        } else {
            init.drop_last().push(init.last().push(s.last()))
        }
    }
}

/// The views of the slices of `v`, in order.
pub open spec fn slice_texts(v: Seq<&str>) -> Seq<Seq<char>> {
    Seq::new(v.len(), |i: int| v[i]@)
}

/// Part `i` of `parts`, or the empty text where there is no such part.
pub open spec fn part_or_empty(parts: Seq<Seq<char>>, i: int) -> Seq<char> {
    if 0 <= i < parts.len() {
        parts[i]
    } else {
        Seq::<char>::empty()
    }
}

/// Cuts `s` at every colon.
pub fn split_colons<'a>(s: &'a str) -> (r: Vec<&'a str>)
    ensures
        slice_texts(r@) == segments(s@),
{
    let n: usize = s.unicode_len();
    let mut out: Vec<&'a str> = Vec::new();
    let mut start: usize = 0;
    let mut i: usize = 0;
    assert(s@.subrange(0, 0) =~= Seq::<char>::empty());
    assert(segments(s@.subrange(0, 0)) =~= slice_texts(out@).push(s@.subrange(0, 0)));
    while i < n
        invariant
            start <= i <= n,
            n == s@.len(),
            segments(s@.subrange(0, i as int)) == slice_texts(out@).push(
                s@.subrange(start as int, i as int),
            ),
        decreases n - i,
    {
        let ghost prefix = s@.subrange(0, i + 1);
        let ghost done = slice_texts(out@);
        assert(prefix.drop_last() =~= s@.subrange(0, i as int));
        assert(prefix.last() == s@[i as int]);
        if s.get_char(i) == ':' {
            out.push(s.substring_char(start, i));
            assert(slice_texts(out@) =~= done.push(s@.subrange(start as int, i as int)));
            start = i + 1;
            assert(s@.subrange(start as int, start as int) =~= Seq::<char>::empty());
        } else {
            let ghost init = done.push(s@.subrange(start as int, i as int));
            assert(init.drop_last() =~= done);
            assert(init.last().push(s@[i as int]) =~= s@.subrange(start as int, i + 1));
        }
        i = i + 1;
    }
    let ghost done = slice_texts(out@);
    out.push(s.substring_char(start, n));
    assert(slice_texts(out@) =~= done.push(s@.subrange(start as int, n as int)));
    assert(s@.subrange(0, n as int) =~= s@);
    out
}

impl VersionJsonLibrary {
    /// The first four parts of the library's name, the missing ones
    /// empty.
    pub open spec fn name_parts(&self) -> Seq<Seq<char>> {
        Seq::new(4, |i: int| part_or_empty(segments(self.name@), i))
    }

    /// Whether the library is a bundle of native code: the fourth part of
    /// its name is not empty.
    pub open spec fn is_native(&self) -> bool {
        self.name_parts()[3].len() > 0
    }

    /// Whether every rule of the library passes on `platform`.
    pub open spec fn applies(&self, platform: Platform) -> bool {
        forall|i: int| 0 <= i < self.rules@.len() ==> (#[trigger] self.rules@[i]).passes(platform)
    }

    /// The library's name cut at its colons into group, artifact, version
    /// and classifier. A part that the name lacks is empty; parts after
    /// the fourth are left out.
    pub fn parse_lib_name(&self) -> (r: [&str; 4])
        ensures
            slice_texts(r@) == self.name_parts(),
    {
        let parts = split_colons(self.name.as_str());
        let k: usize = parts.len();
        let group: &str = if 0 < k { parts[0] } else { "" };
        let artifact: &str = if 1 < k { parts[1] } else { "" };
        let version: &str = if 2 < k { parts[2] } else { "" };
        let classifier: &str = if 3 < k { parts[3] } else { "" };
        let r = [group, artifact, version, classifier];
        proof {
            reveal_strlit("");
            let segs = segments(self.name@);
            assert(segs.len() == k);
            assert forall|i: int| 0 <= i < k implies segs[i] == parts@[i]@ by {
                assert(slice_texts(parts@)[i] == parts@[i]@);
            }
            assert(""@ =~= Seq::<char>::empty());
            assert(slice_texts(r@) =~= self.name_parts());
        }
        r
    }

    /// Whether the library is a bundle of native code.
    pub fn has_natives(&self) -> (r: bool)
        ensures
            r == self.is_native(),
    {
        let parts = self.parse_lib_name();
        assert(slice_texts(parts@)[3] == parts@[3]@);
        parts[3].unicode_len() > 0
    }

    /// Whether the library belongs to an installation on `platform`:
    /// every one of its rules passes. A library without rules always
    /// does.
    pub fn check_rule_allow(&self, platform: Platform) -> (r: bool)
        ensures
            r == self.applies(platform),
    {
        let mut i: usize = 0;
        while i < self.rules.len()
            invariant
                i <= self.rules@.len(),
                forall|j: int| 0 <= j < i ==> (#[trigger] self.rules@[j]).passes(platform),
            decreases self.rules.len() - i,
        {
            if !self.rules[i].parse_rule(platform) {
                return false;
            }
            i = i + 1;
        }
        true
    }
}

/// A library without rules belongs on every platform.
pub proof fn no_rules_always_applies(lib: VersionJsonLibrary, platform: Platform)
    requires
        lib.rules@.len() == 0,
    ensures
        lib.applies(platform),
{
}

/// A rule for Windows names Windows and no other platform; likewise a
/// rule for `osx` names Darwin only, and a rule for `linux` Linux only.
pub proof fn rule_names_its_own_system(rule: _VersionJsonLibraryRule, platform: Platform)
    ensures
        rule.os.name@ == "windows"@ ==> (rule.names(platform) <==> platform == Platform::Windows),
        rule.os.name@ == "osx"@ ==> (rule.names(platform) <==> platform == Platform::Darwin),
        rule.os.name@ == "linux"@ ==> (rule.names(platform) <==> platform == Platform::Linux),
{
    reveal_strlit("windows");
    reveal_strlit("osx");
    reveal_strlit("linux");
    if rule.os.name@ == "osx"@ {
        assert("osx"@.len() != "windows"@.len());
    }
    if rule.os.name@ == "linux"@ {
        assert("linux"@.len() != "windows"@.len());
        assert("linux"@.len() != "osx"@.len());
    }
}

/// A library with an `allow` rule for a system other than `platform` is
/// left out on `platform`, whatever its other rules say.
pub proof fn allow_for_another_system_excludes(
    lib: VersionJsonLibrary,
    platform: Platform,
    i: int,
)
    requires
        0 <= i < lib.rules@.len(),
        lib.rules@[i].is_allow(),
        !lib.rules@[i].names(platform),
    ensures
        !lib.applies(platform),
{
    assert(!lib.rules@[i].passes(platform));
}

/// A library whose only rule bars it from a system other than
/// `platform` belongs on `platform`.
pub proof fn disallow_for_another_system_includes(lib: VersionJsonLibrary, platform: Platform)
    requires
        lib.rules@.len() == 1,
        !lib.rules@[0].is_allow(),
        !lib.rules@[0].names(platform),
    ensures
        lib.applies(platform),
{
}

/// Where something can be downloaded.
#[derive(Debug, Clone, PartialEq, Eq)]
pub struct _JsonDownloadItem {
    pub url: String,
}

#[derive(Debug, Clone, PartialEq, Eq)]
pub struct _VersionJsonDownloads {
    pub client: _JsonDownloadItem,
}

/// The runtime that a release runs on.
#[derive(Debug, Clone, PartialEq, Eq)]
pub struct _JsonJavaVersion {
    pub component: String,
    pub major_version: u16,
}

/// The descriptor of one release.
#[derive(Debug, Clone, PartialEq, Eq)]
pub struct VersionJson {
    pub id: String,
    pub assets: String,
    pub asset_index: _JsonDownloadItem,
    pub compliance_level: u8,
    pub main_class: String,
    pub minimum_launcher_version: u8,
    pub version_type: String,
    pub downloads: _VersionJsonDownloads,
    pub java_version: _JsonJavaVersion,
    pub libraries: Vec<VersionJsonLibrary>,
}

/// The digest of an asset's content.
#[derive(Debug, Clone, PartialEq, Eq)]
pub struct _JsonAssetIndexItem {
    pub hash: String,
}

/// One asset: its logical name and its content's digest.
#[derive(Debug, Clone, PartialEq, Eq)]
pub struct _JsonAssetIndexEntry {
    pub name: String,
    pub item: _JsonAssetIndexItem,
}

/// The index of the assets of a release.
#[derive(Debug, Clone, PartialEq, Eq)]
pub struct JsonAssetIndexes {
    pub objects: Vec<_JsonAssetIndexEntry>,
}

/// A digest is long enough to have a two-character prefix.
pub open spec fn hash_ok(hash: Seq<char>) -> bool {
    hash.len() >= 2
}

impl JsonAssetIndexes {
    /// Every digest of the index has a two-character prefix.
    pub open spec fn wf(&self) -> bool {
        forall|i: int| 0 <= i < self.objects@.len() ==> hash_ok(
            (#[trigger] self.objects@[i]).item.hash@,
        )
    }

    /// Whether every digest of the index has a two-character prefix.
    pub fn is_well_formed(&self) -> (r: bool)
        ensures
            r == self.wf(),
    {
        let mut i: usize = 0;
        while i < self.objects.len()
            invariant
                i <= self.objects@.len(),
                forall|j: int| 0 <= j < i ==> hash_ok((#[trigger] self.objects@[j]).item.hash@),
            decreases self.objects.len() - i,
        {
            if self.objects[i].item.hash.as_str().unicode_len() < 2 {
                return false;
            }
            i = i + 1;
        }
        true
    }
}

} // verus!
