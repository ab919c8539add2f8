//! The three record kinds the index server reads: release metadata, package
//! metadata and featured banners. Rows arrive from an external store; the
//! formatters in this crate only ever read them.

use vstd::prelude::*;

verus! {

/// One repository snapshot, emitted as a block of the `Release` index.
pub struct ReleaseInfo {
    pub origin: String,
    pub label: String,
    pub suite: String,
    pub version: String,
    pub codename: String,
    pub architectures: String,
    pub components: String,
    pub description: String,
}

/// One installable package, emitted as a stanza of the `Packages` index.
/// `price` is in the store's smallest currency unit; any positive value marks
/// the package as commercial. Only rows with `package_visible` set may be
/// listed publicly.
pub struct PackageInfo {
    pub package_id: String,
    pub name: String,
    pub version: String,
    pub section: String,
    pub developer_name: String,
    pub depends: String,
    pub price: i64,
    pub version_size: u64,
    pub version_hash: String,
    pub short_description: String,
    pub icon: String,
    pub package_visible: bool,
}

/// One promotional banner of the featured view.
pub struct FeaturedBanner {
    pub url: String,
    pub title: String,
    pub package: String,
    pub hide_shadow: bool,
}

} // verus!
