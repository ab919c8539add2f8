use vapas_index::rows::FeaturedBanner;
use vapas_index::serialize_featured;

fn banner(url: &str, title: &str, package: &str, hide_shadow: bool) -> FeaturedBanner {
    FeaturedBanner {
        url: String::from(url),
        title: String::from(title),
        package: String::from(package),
        hide_shadow,
    }
}

#[test]
fn featured_empty_envelope_keeps_fixed_fields() {
    let env = serialize_featured(Vec::new());
    assert_eq!(env.class, "FeaturedBannersView");
    assert_eq!(env.item_size, "{263, 148}");
    assert_eq!(env.item_corner_radius, 10);
    assert!(env.banners.is_empty());
}

#[test]
fn featured_banners_keep_fetch_order() {
    let banners = vec![
        banner("http://x/1.png", "First", "com.a.a", false),
        banner("http://x/2.png", "Second", "com.b.b", true),
    ];
    let env = serialize_featured(banners);
    assert_eq!(env.banners.len(), 2);
    assert_eq!(env.banners[0].title, "First");
    assert_eq!(env.banners[0].package, "com.a.a");
    assert!(!env.banners[0].hide_shadow);
    assert_eq!(env.banners[1].title, "Second");
    assert_eq!(env.banners[1].package, "com.b.b");
    assert!(env.banners[1].hide_shadow);
    assert_eq!(env.class, "FeaturedBannersView");
    assert_eq!(env.item_size, "{263, 148}");
    assert_eq!(env.item_corner_radius, 10);
}

#[test]
fn asset_paths_are_fixed() {
    assert_eq!(vapas_index::cydia_icon_path(), "assets/CydiaIcon.png");
    assert_eq!(vapas_index::footer_icon_path(), "assets/footerIcon.png");
    assert_eq!(vapas_index::icon_asset_path("com.foo.bar"), "assets/icons/com.foo.bar.png");
}
