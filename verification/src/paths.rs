//! Where the archive, the public files and the package data of a package
//! lie on disk.

use crate::id::{version_text, PackageId, Version};
use vstd::prelude::*;
use vstd::string::StringExecFns;

verus! {

/// Root of the archive cache.
pub const PKG_CACHE: &'static str = "/mnt/embassy-os/cache/packages";

/// Root of the public package files.
pub const PKG_PUBLIC_DIR: &'static str = "/mnt/embassy-os/public/package-data";

/// The data directory that is used where none is configured.
pub const DEFAULT_DATADIR: &'static str = "/embassy-data";

/// The directory `<root>/<package>/<version>`.
pub open spec fn package_dir_text(root: Seq<char>, id: Seq<char>, version: Version) -> Seq<char> {
    root + "/"@ + id + "/"@ + version_text(version)
}

/// The cache directory of a package version.
pub open spec fn cache_dir_text(id: Seq<char>, version: Version) -> Seq<char> {
    package_dir_text(PKG_CACHE@, id, version)
}

/// The cached archive of a package version: `<package>.s9pk` in its cache
/// directory.
pub open spec fn cache_file_text(id: Seq<char>, version: Version) -> Seq<char> {
    cache_dir_text(id, version) + "/"@ + id + ".s9pk"@
}

/// The public directory of a package version.
pub open spec fn public_dir_text(id: Seq<char>, version: Version) -> Seq<char> {
    package_dir_text(PKG_PUBLIC_DIR@, id, version)
}

/// The licence in the public directory.
pub open spec fn license_text(id: Seq<char>, version: Version) -> Seq<char> {
    public_dir_text(id, version) + "/LICENSE.md"@
}

/// The icon in the public directory, named after the manifest's icon type.
pub open spec fn icon_text(id: Seq<char>, version: Version, icon_type: Seq<char>) -> Seq<char> {
    public_dir_text(id, version) + "/icon."@ + icon_type
}

/// The instructions in the public directory.
pub open spec fn instructions_text(id: Seq<char>, version: Version) -> Seq<char> {
    public_dir_text(id, version) + "/INSTRUCTIONS.md"@
}

/// The package database below a data directory.
pub open spec fn db_path_text(datadir: Seq<char>) -> Seq<char> {
    datadir + "/main/embassy.db"@
}

/// The directory of one volume of a package below a data directory.
pub open spec fn volume_text(datadir: Seq<char>, id: Seq<char>, volume: Seq<char>) -> Seq<char> {
    datadir + "/package-data/volumes/"@ + id + "/data/"@ + volume
}

/// The temporary sibling of a volume directory: the same name with `.tmp`
/// behind it.
pub open spec fn volume_tmp_text(datadir: Seq<char>, id: Seq<char>, volume: Seq<char>) -> Seq<
    char,
> {
    volume_text(datadir, id, volume) + ".tmp"@
}

fn package_dir(root: &str, id: &PackageId, version: &Version) -> (path: String)
    ensures
        path@ == package_dir_text(root@, id@, *version),
{
    let mut path = String::from_str(root);
    path.append("/");
    path.append(id.as_str());
    path.append("/");
    path.append(version.to_text().as_str());
    path
}

/// The cache directory of a package version.
pub fn cache_dir(id: &PackageId, version: &Version) -> (path: String)
    ensures
        path@ == cache_dir_text(id@, *version),
{
    package_dir(PKG_CACHE, id, version)
}

/// The cached archive of a package version.
pub fn cache_file(id: &PackageId, version: &Version) -> (path: String)
    ensures
        path@ == cache_file_text(id@, *version),
{
    let mut path = cache_dir(id, version);
    path.append("/");
    path.append(id.as_str());
    path.append(".s9pk");
    path
}

/// The public directory of a package version.
pub fn public_dir(id: &PackageId, version: &Version) -> (path: String)
    ensures
        path@ == public_dir_text(id@, *version),
{
    package_dir(PKG_PUBLIC_DIR, id, version)
}

/// Where the licence of a package version is unpacked.
pub fn license_path(id: &PackageId, version: &Version) -> (path: String)
    ensures
        path@ == license_text(id@, *version),
{
    let mut path = public_dir(id, version);
    path.append("/LICENSE.md");
    path
}

/// Where the icon of a package version is unpacked.
pub fn icon_path(id: &PackageId, version: &Version, icon_type: &str) -> (path: String)
    ensures
        path@ == icon_text(id@, *version, icon_type@),
{
    let mut path = public_dir(id, version);
    path.append("/icon.");
    path.append(icon_type);
    path
}

/// Where the instructions of a package version are unpacked.
pub fn instructions_path(id: &PackageId, version: &Version) -> (path: String)
    ensures
        path@ == instructions_text(id@, *version),
{
    let mut path = public_dir(id, version);
    path.append("/INSTRUCTIONS.md");
    path
}

/// The package database below a data directory.
pub fn db_path(datadir: &str) -> (path: String)
    ensures
        path@ == db_path_text(datadir@),
{
    let mut path = String::from_str(datadir);
    path.append("/main/embassy.db");
    path
}

/// The temporary sibling of the directory of one volume of a package.
pub fn volume_tmp_path(datadir: &str, id: &PackageId, volume: &str) -> (path: String)
    ensures
        path@ == volume_tmp_text(datadir@, id@, volume@),
{
    let mut path = String::from_str(datadir);
    path.append("/package-data/volumes/");
    path.append(id.as_str());
    path.append("/data/");
    path.append(volume);
    path.append(".tmp");
    path
}

} // verus!
