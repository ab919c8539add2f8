//! Package-repository index building blocks.
//!
//! The crate turns rows describing a software catalog — release metadata,
//! package metadata and featured banners — into the fixed textual index
//! formats that repository clients consume. All formatting is pure and its
//! output is pinned down exactly by the contracts.

pub mod assets;
pub mod featured;
pub mod numeral;
pub mod packages;
pub mod release;
pub mod rows;
pub mod text;

pub use assets::cydia_icon_path;
pub use assets::footer_icon_path;
pub use assets::icon_asset_path;
pub use featured::serialize_featured;
pub use featured::FeaturedEnvelope;
pub use numeral::u64_to_decimal;
pub use packages::format_packages;
pub use packages::packages_body;
pub use release::format_release;
pub use rows::FeaturedBanner;
pub use rows::PackageInfo;
pub use rows::ReleaseInfo;
