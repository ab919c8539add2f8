//! The featured-banner envelope behind `sileo-featured.json`: three fixed
//! presentation fields and the banner rows in fetch order.

use vstd::prelude::*;
use vstd::string::StringExecFns;

use crate::rows::FeaturedBanner;

verus! {

/// The envelope a discovery client consumes. The first three fields are
/// fixed literals; `banners` carries the fetched rows unchanged.
pub struct FeaturedEnvelope {
    pub class: String,
    pub item_size: String,
    pub item_corner_radius: u32,
    pub banners: Vec<FeaturedBanner>,
}

/// A well-formed envelope: the three presentation fields hold their fixed
/// values, whatever the banner list is.
pub open spec fn envelope_wf(env: FeaturedEnvelope) -> bool {
    &&& env.class@ == "FeaturedBannersView"@
    &&& env.item_size@ == "{263, 148}"@
    &&& env.item_corner_radius == 10
}

/// Builds the featured envelope: fixed presentation fields, and the given
/// banners in their order — no sorting, filtering or deduplication.
pub fn serialize_featured(banners: Vec<FeaturedBanner>) -> (env: FeaturedEnvelope)
    ensures
        envelope_wf(env),
        env.banners@ == banners@,
{
    FeaturedEnvelope {
        class: String::from_str("FeaturedBannersView"),
        item_size: String::from_str("{263, 148}"),
        item_corner_radius: 10,
        banners,
    }
}

} // verus!
