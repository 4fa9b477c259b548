//! Where everything is stored below the installation root.

use vstd::prelude::*;
use crate::paths::{join_path, joined};

verus! {

/// The directory of the release `id`.
pub open spec fn version_dir_of(root: Seq<char>, id: Seq<char>) -> Seq<char> {
    joined(joined(root, "versions"@), id)
}

/// The cached descriptor of the release `id`.
pub open spec fn version_json_of(root: Seq<char>, id: Seq<char>) -> Seq<char> {
    joined(version_dir_of(root, id), id + ".json"@)
}

/// The client archive of the release `id`.
pub open spec fn client_jar_of(root: Seq<char>, id: Seq<char>) -> Seq<char> {
    joined(version_dir_of(root, id), id + ".jar"@)
}

/// The directory into which the native bundles of the release `id` are
/// unpacked.
pub open spec fn natives_dir_of(root: Seq<char>, id: Seq<char>) -> Seq<char> {
    joined(version_dir_of(root, id), "natives"@)
}

/// The directory that mirrors the layout of the library repository.
pub open spec fn libraries_dir_of(root: Seq<char>) -> Seq<char> {
    joined(root, "libraries"@)
}

/// The directory of everything that belongs to assets.
pub open spec fn assets_dir_of(root: Seq<char>) -> Seq<char> {
    joined(root, "assets"@)
}

/// The directory of the asset indexes.
pub open spec fn indexes_dir_of(root: Seq<char>) -> Seq<char> {
    joined(assets_dir_of(root), "indexes"@)
}

/// The asset index called `assets`.
pub open spec fn asset_index_of(root: Seq<char>, assets: Seq<char>) -> Seq<char> {
    joined(indexes_dir_of(root), assets + ".json"@)
}

/// The first two characters of a digest.
pub open spec fn hash_prefix(hash: Seq<char>) -> Seq<char> {
    hash.subrange(0, 2)
}

/// The directory that holds every asset whose digest starts as `hash`
/// does.
pub open spec fn asset_dir_of(root: Seq<char>, hash: Seq<char>) -> Seq<char> {
    joined(joined(assets_dir_of(root), "objects"@), hash_prefix(hash))
}

/// Where the asset with the digest `hash` is stored.
pub open spec fn asset_object_of(root: Seq<char>, hash: Seq<char>) -> Seq<char> {
    joined(asset_dir_of(root, hash), hash)
}

/// The directory of the release `id`.
pub fn version_dir(root: &str, id: &str) -> (r: String)
    ensures
        r@ == version_dir_of(root@, id@),
{
    let versions = join_path(root, "versions");
    join_path(versions.as_str(), id)
}

/// The cached descriptor of the release `id`.
pub fn version_json_path(root: &str, id: &str) -> (r: String)
    ensures
        r@ == version_json_of(root@, id@),
{
    let dir = version_dir(root, id);
    let file = String::from_str(id).concat(".json");
    join_path(dir.as_str(), file.as_str())
}

/// The client archive of the release `id`.
pub fn client_jar_path(root: &str, id: &str) -> (r: String)
    ensures
        r@ == client_jar_of(root@, id@),
{
    let dir = version_dir(root, id);
    let file = String::from_str(id).concat(".jar");
    join_path(dir.as_str(), file.as_str())
}

/// The directory into which the native bundles of the release `id` are
/// unpacked.
pub fn natives_dir(root: &str, id: &str) -> (r: String)
    ensures
        r@ == natives_dir_of(root@, id@),
{
    let dir = version_dir(root, id);
    join_path(dir.as_str(), "natives")
}

/// The directory that mirrors the layout of the library repository.
pub fn libraries_dir(root: &str) -> (r: String)
    ensures
        r@ == libraries_dir_of(root@),
{
    join_path(root, "libraries")
}

/// The directory of everything that belongs to assets.
pub fn assets_dir(root: &str) -> (r: String)
    ensures
        r@ == assets_dir_of(root@),
{
    join_path(root, "assets")
}

/// The directory of the asset indexes.
pub fn indexes_dir(root: &str) -> (r: String)
    ensures
        r@ == indexes_dir_of(root@),
{
    let assets = assets_dir(root);
    join_path(assets.as_str(), "indexes")
}

/// The asset index called `assets`.
pub fn asset_index_path(root: &str, assets: &str) -> (r: String)
    ensures
        r@ == asset_index_of(root@, assets@),
{
    let dir = indexes_dir(root);
    let file = String::from_str(assets).concat(".json");
    join_path(dir.as_str(), file.as_str())
}

/// The directory that holds every asset whose digest starts as `hash`
/// does.
pub fn asset_dir(root: &str, hash: &str) -> (r: String)
    requires
        hash@.len() >= 2,
    ensures
        r@ == asset_dir_of(root@, hash@),
{
    let assets = assets_dir(root);
    let objects = join_path(assets.as_str(), "objects");
    join_path(objects.as_str(), hash.substring_char(0, 2))
}

/// Where the asset with the digest `hash` is stored: in a directory
/// named by the first two characters of the digest, under the digest
/// itself.
pub fn asset_object_path(root: &str, hash: &str) -> (r: String)
    requires
        hash@.len() >= 2,
    ensures
        r@ == asset_object_of(root@, hash@),
{
    let dir = asset_dir(root, hash);
    join_path(dir.as_str(), hash)
}

} // verus!
