//! Zip archives held in memory. The archive is read by the `zip` crate;
//! this module lists its entries and turns each one into the actions that
//! materialise it below a destination directory.

use vstd::prelude::*;
use crate::paths::{join_path, joined, parent_of, parent_path};
use crate::steps::{action_views, executable_actions, make_executable, Action, ActionView};
use crate::types::{Error, Platform};

verus! {

/// `std::io::Cursor`, carried through as it is.
#[verifier::external_type_specification]
#[verifier::external_body]
#[verifier::reject_recursive_types(T)]
pub struct ExCursor<T>(std::io::Cursor<T>);

/// `zip::ZipArchive`, carried through as it is.
#[verifier::external_type_specification]
#[verifier::external_body]
#[verifier::reject_recursive_types(R)]
pub struct ExZipArchive<R>(zip::ZipArchive<R>);

/// The bytes that an open archive reads from.
pub uninterp spec fn source_of(archive: zip::ZipArchive<std::io::Cursor<Vec<u8>>>) -> Seq<u8>;

/// Whether `bytes` can be opened as an archive.
pub uninterp spec fn archive_opens(bytes: Seq<u8>) -> bool;

/// The number of entries that the archive `bytes` lists.
pub uninterp spec fn entry_count(bytes: Seq<u8>) -> nat;

/// Whether entry `index` of the archive `bytes` can be opened for
/// reading.
pub uninterp spec fn entry_opens(bytes: Seq<u8>, index: nat) -> bool;

/// The name of entry `index` of the archive `bytes` as a relative path
/// that stays below the directory it is joined to, or `None` where the
/// stored name is not such a path.
pub uninterp spec fn entry_name(bytes: Seq<u8>, index: nat) -> Option<Seq<char>>;

/// Whether entry `index` of the archive `bytes` is a directory.
pub uninterp spec fn entry_is_dir(bytes: Seq<u8>, index: nat) -> bool;

/// The decompressed content of entry `index` of the archive `bytes`, or
/// `None` where the entry cannot be read to its end.
pub uninterp spec fn entry_bytes(bytes: Seq<u8>, index: nat) -> Option<Seq<u8>>;

/// `zip::ZipArchive::new` on a cursor over `bytes`. Trusted: whether
/// the archive opens depends on the bytes alone, and where it opens it
/// reads from exactly these bytes. Nothing is claimed of which bytes
/// open.
#[verifier::external_body]
fn open_archive(bytes: Vec<u8>) -> (r: Result<
    zip::ZipArchive<std::io::Cursor<Vec<u8>>>,
    zip::result::ZipError,
>)
    ensures
        match r {
            Ok(a) => archive_opens(bytes@) && source_of(a) == bytes@,
            Err(_) => !archive_opens(bytes@),
        },
{
    zip::ZipArchive::new(std::io::Cursor::new(bytes))
}

/// `zip::ZipArchive::len`. Trusted: the number of entries is a function
/// of the archive's bytes.
#[verifier::external_body]
fn archive_len(archive: &zip::ZipArchive<std::io::Cursor<Vec<u8>>>) -> (n: usize)
    ensures
        n == entry_count(source_of(*archive)),
{
    archive.len()
}

/// `zip::ZipArchive::by_index` followed by `ZipFile::enclosed_name`,
/// with the machine's path separator written as `/`. Trusted: the
/// archive still reads from the same bytes; whether the entry opens, and
/// its checked name where it does, depend on those bytes and the index
/// alone. Nothing is claimed of which entries open.
#[verifier::external_body]
fn read_entry_name(archive: &mut zip::ZipArchive<std::io::Cursor<Vec<u8>>>, index: usize) -> (r:
    Result<Option<String>, zip::result::ZipError>)
    ensures
        source_of(*final(archive)) == source_of(*old(archive)),
        match r {
            Ok(Some(n)) => entry_opens(source_of(*old(archive)), index as nat) && entry_name(
                source_of(*old(archive)),
                index as nat,
            ) == Some(n@),
            Ok(None) => entry_opens(source_of(*old(archive)), index as nat) && entry_name(
                source_of(*old(archive)),
                index as nat,
            ).is_none(),
            Err(_) => !entry_opens(source_of(*old(archive)), index as nat),
        },
{
    let file = archive.by_index(index)?;
    let name = file.enclosed_name();
    Ok(name.map(|p| p.to_string_lossy().replace(std::path::MAIN_SEPARATOR, "/")))
}

/// `zip::ZipArchive::by_index` followed by `ZipFile::is_dir`. Trusted:
/// the archive still reads from the same bytes; whether the entry opens,
/// and the answer where it does, depend on those bytes and the index
/// alone.
#[verifier::external_body]
fn read_entry_is_dir(archive: &mut zip::ZipArchive<std::io::Cursor<Vec<u8>>>, index: usize) -> (r:
    Result<bool, zip::result::ZipError>)
    ensures
        source_of(*final(archive)) == source_of(*old(archive)),
        match r {
            Ok(d) => entry_opens(source_of(*old(archive)), index as nat) && d == entry_is_dir(
                source_of(*old(archive)),
                index as nat,
            ),
            Err(_) => !entry_opens(source_of(*old(archive)), index as nat),
        },
{
    let file = archive.by_index(index)?;
    Ok(file.is_dir())
}

/// `zip::ZipArchive::by_index` followed by `Read::read_to_end` on the
/// entry. Trusted: the archive still reads from the same bytes; whether
/// the entry can be read to its end, and its content where it can,
/// depend on those bytes and the index alone.
#[verifier::external_body]
fn read_entry_bytes(archive: &mut zip::ZipArchive<std::io::Cursor<Vec<u8>>>, index: usize) -> (r:
    Result<Vec<u8>, zip::result::ZipError>)
    ensures
        source_of(*final(archive)) == source_of(*old(archive)),
        match r {
            Ok(data) => entry_bytes(source_of(*old(archive)), index as nat) == Some(data@),
            Err(_) => entry_bytes(source_of(*old(archive)), index as nat).is_none(),
        },
{
    let mut file = archive.by_index(index)?;
    let mut data: Vec<u8> = Vec::new();
    std::io::Read::read_to_end(&mut file, &mut data)?;
    Ok(data)
}

/// The content of entry `index` of the archive `bytes`, empty where the
/// entry cannot be read.
pub open spec fn entry_content(bytes: Seq<u8>, index: nat) -> Seq<u8> {
    match entry_bytes(bytes, index) {
        Some(data) => data,
        None => Seq::empty(),
    }
}

/// Whether entry `index` of the archive `bytes` can be unpacked: it
/// opens, and unless it is passed over for its name or is a directory,
/// its content can be read.
pub open spec fn entry_unpacks(bytes: Seq<u8>, index: nat) -> bool {
    entry_opens(bytes, index) && (entry_name(bytes, index).is_none() || entry_is_dir(bytes, index)
        || entry_bytes(bytes, index).is_some())
}

/// Whether the archive `bytes` can be unpacked: it opens, and every one
/// of its entries can be unpacked.
pub open spec fn unpacks(bytes: Seq<u8>) -> bool {
    archive_opens(bytes) && forall|index: nat|
        index < entry_count(bytes) ==> #[trigger] entry_unpacks(bytes, index)
}

/// The actions that materialise one entry below `dest`: nothing for an
/// entry without a safe name, the directory itself for a directory, and
/// for a file its directory, its content and, where `platform` has one,
/// its executable permission.
pub open spec fn entry_plan(
    name: Option<Seq<char>>,
    is_dir: bool,
    data: Seq<u8>,
    dest: Seq<char>,
    platform: Platform,
) -> Seq<ActionView> {
    match name {
        None => Seq::empty(),
        Some(n) => if is_dir {
            seq![ActionView::CreateDirAll { path: joined(dest, n) }]
        } else {
            seq![
                ActionView::CreateDirAll { path: joined(dest, parent_of(n)) },
                ActionView::WriteFile { path: joined(dest, n), data },
            ] + executable_actions(joined(dest, n), platform)
        },
    }
}

/// The actions for the first `count` entries of the archive `bytes`, in
/// the archive's order.
pub open spec fn extraction_plan(
    bytes: Seq<u8>,
    dest: Seq<char>,
    platform: Platform,
    count: nat,
) -> Seq<ActionView>
    decreases count,
{
    if count == 0 {
        Seq::empty()
    } else {
        let i = (count - 1) as nat;
        extraction_plan(bytes, dest, platform, i) + entry_plan(
            entry_name(bytes, i),
            entry_is_dir(bytes, i),
            entry_content(bytes, i),
            dest,
            platform,
        )
    }
}

/// The actions that materialise an entry named `name` below `dest`. For a
/// directory `data` is not looked at.
pub fn entry_actions(name: &str, is_dir: bool, data: Vec<u8>, dest: &str, platform: Platform) -> (r:
    Vec<Action>)
    ensures
        action_views(r@) == entry_plan(Some(name@), is_dir, data@, dest@, platform),
{
    let mut out: Vec<Action> = Vec::new();
    let path = join_path(dest, name);
    if is_dir {
        out.push(Action::CreateDirAll { path });
    } else {
        let parent = parent_path(name);
        out.push(Action::CreateDirAll { path: join_path(dest, parent.as_str()) });
        out.push(Action::WriteFile { path: path.clone(), data });
        let mut mark = make_executable(path.as_str(), platform);
        let ghost before = out@;
        let ghost added = mark@;
        out.append(&mut mark);
        assert(action_views(out@) =~= action_views(before) + action_views(added));
    }
    assert(action_views(out@) =~= entry_plan(Some(name@), is_dir, data@, dest@, platform));
    out
}

/// Reads the archive `bytes` and lists, entry by entry, what has to be
/// done to unpack it below `dest` on `platform`. Succeeds exactly where
/// the archive opens and each of its entries can be unpacked; where it
/// fails, the error is the one that the archive's reader gave.
pub fn unzip(bytes: Vec<u8>, dest: &str, platform: Platform) -> (r: Result<Vec<Action>, Error>)
    ensures
        r is Ok <==> unpacks(bytes@),
        r matches Ok(plan) ==> action_views(plan@) == extraction_plan(
            bytes@,
            dest@,
            platform,
            entry_count(bytes@),
        ),
        r matches Err(e) ==> e is Zip,
{
    let ghost source = bytes@;
    let mut archive = match open_archive(bytes) {
        Ok(a) => a,
        Err(e) => {
            return Err(Error::Zip(e));
        },
    };
    let count: usize = archive_len(&archive);
    let mut out: Vec<Action> = Vec::new();
    let mut i: usize = 0;
    assert(action_views(out@) =~= extraction_plan(source, dest@, platform, 0));
    while i < count
        invariant
            i <= count,
            source == bytes@,
            count == entry_count(source),
            source_of(archive) == source,
            archive_opens(source),
            forall|index: nat| index < i ==> #[trigger] entry_unpacks(source, index),
            action_views(out@) == extraction_plan(source, dest@, platform, i as nat),
        decreases count - i,
    {
        let ghost before = out@;
        let name = match read_entry_name(&mut archive, i) {
            Ok(n) => n,
            Err(e) => {
                assert(!entry_unpacks(source, i as nat));
                return Err(Error::Zip(e));
            },
        };
        match name {
            None => {
                assert(action_views(out@) =~= extraction_plan(source, dest@, platform, (i + 1) as nat));
            },
            Some(n) => {
                let is_dir = match read_entry_is_dir(&mut archive, i) {
                    Ok(d) => d,
                    Err(e) => {
                        assert(!entry_unpacks(source, i as nat));
                        return Err(Error::Zip(e));
                    },
                };
                let data = if is_dir {
                    Vec::new()
                } else {
                    match read_entry_bytes(&mut archive, i) {
                        Ok(d) => d,
                        Err(e) => {
                            assert(!entry_unpacks(source, i as nat));
                            return Err(Error::Zip(e));
                        },
                    }
                };
                let mut added = entry_actions(n.as_str(), is_dir, data, dest, platform);
                let ghost tail = added@;
                out.append(&mut added);
                assert(action_views(out@) =~= action_views(before) + action_views(tail));
                assert(entry_plan(Some(n@), is_dir, data@, dest@, platform) == entry_plan(
                    entry_name(source, i as nat),
                    entry_is_dir(source, i as nat),
                    entry_content(source, i as nat),
                    dest@,
                    platform,
                ));
            },
        }
        assert(entry_unpacks(source, i as nat));
        i = i + 1;
    }
    Ok(out)
}

} // verus!
