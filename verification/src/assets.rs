//! Resolution of logical asset names to their fixed on-disk paths. Opening
//! and streaming the files is the caller's business; only the paths are
//! decided here.

use vstd::prelude::*;
use vstd::string::StringExecFns;

verus! {

/// The repository icon's fixed path.
pub fn cydia_icon_path() -> (p: String)
    ensures
        p@ == "assets/CydiaIcon.png"@,
{
    String::from_str("assets/CydiaIcon.png")
}

/// The footer icon's fixed path.
pub fn footer_icon_path() -> (p: String)
    ensures
        p@ == "assets/footerIcon.png"@,
{
    String::from_str("assets/footerIcon.png")
}

/// The path of a named package icon. The name is taken as the routing layer
/// hands it over; constraining it to safe filename characters is the routing
/// layer's duty.
pub fn icon_asset_path(name: &str) -> (p: String)
    ensures
        p@ == "assets/icons/"@ + name@ + ".png"@,
{
    let mut p = String::from_str("assets/icons/");
    p.append(name);
    p.append(".png");
    p
}

} // verus!
