use vapas_index::rows::{PackageInfo, ReleaseInfo};
use vapas_index::{format_packages, format_release, packages_body, u64_to_decimal};

fn sample_release() -> ReleaseInfo {
    ReleaseInfo {
        origin: String::from("Vapas"),
        label: String::from("Vapas"),
        suite: String::from("stable"),
        version: String::from("1.0"),
        codename: String::from("ios"),
        architectures: String::from("iphoneos-arm"),
        components: String::from("main"),
        description: String::from("A package repository"),
    }
}

fn sample_package(id: &str, name: &str, version: &str, price: i64, visible: bool) -> PackageInfo {
    PackageInfo {
        package_id: String::from(id),
        name: String::from(name),
        version: String::from(version),
        section: String::from("Utilities"),
        developer_name: String::from("Foo Bar"),
        depends: String::from(""),
        price,
        version_size: 1024,
        version_hash: String::from("abc123"),
        short_description: String::from("A foo bar"),
        icon: String::from("http://x/i.png"),
        package_visible: visible,
    }
}

#[test]
fn release_empty_input_gives_empty_string() {
    let out = format_release(&Vec::new());
    assert_eq!(out, "");
}

#[test]
fn release_single_row_has_eight_lines() {
    let out = format_release(&vec![sample_release()]);
    assert_eq!(out.matches('\n').count(), 8);
    assert!(out.ends_with('\n'));
    assert!(!out.ends_with("\n\n"));
}

#[test]
fn release_single_row_exact_block() {
    let out = format_release(&vec![sample_release()]);
    let expected = "Origin: Vapas\n\
                    Label: Vapas\n\
                    Suite: stable\n\
                    Version: 1.0\n\
                    Codename: ios\n\
                    Architectures: iphoneos-arm\n\
                    Components: main\n\
                    Description: A package repository\n";
    assert_eq!(out, expected);
}

#[test]
fn release_two_rows_concatenate() {
    let a = sample_release();
    let mut b = sample_release();
    b.suite = String::from("beta");
    let both = format_release(&vec![sample_release(), b]);
    let mut b2 = sample_release();
    b2.suite = String::from("beta");
    let separate = format_release(&vec![a]) + &format_release(&vec![b2]);
    assert_eq!(both, separate);
}

#[test]
fn packages_invisible_row_never_listed() {
    let rows = vec![
        sample_package("com.a.a", "aa", "1.0", 0, true),
        sample_package("com.hidden.pkg", "hidden", "2.0", 100, false),
        sample_package("com.b.b", "bb", "3.0", 0, true),
    ];
    let out = packages_body(&rows, "https://repo.example");
    assert!(!out.contains("com.hidden.pkg"));
    assert!(out.contains("Package: com.a.a\n"));
    assert!(out.contains("Package: com.b.b\n"));
}

#[test]
fn packages_commercial_tag_exactly_once_when_paid() {
    let rows = vec![sample_package("com.paid.app", "paid", "1.0", 99, true)];
    let out = packages_body(&rows, "https://repo.example");
    assert_eq!(out.matches("Tag: cydia::commercial\n").count(), 1);
}

#[test]
fn packages_free_package_has_no_tag() {
    let rows = vec![sample_package("com.free.app", "free", "1.0", 0, true)];
    let out = packages_body(&rows, "https://repo.example");
    assert_eq!(out.matches("Tag:").count(), 0);
}

#[test]
fn packages_block_ends_with_single_blank_line() {
    let rows = vec![sample_package("com.a.a", "aa", "1.0", 0, true)];
    let out = packages_body(&rows, "https://repo.example");
    assert!(out.ends_with("\n\n"));
    assert!(!out.ends_with("\n\n\n"));
}

#[test]
fn packages_blocks_never_merge() {
    let rows = vec![
        sample_package("com.a.a", "aa", "1.0", 0, true),
        sample_package("com.b.b", "bb", "2.0", 50, true),
    ];
    let out = packages_body(&rows, "https://repo.example");
    let blocks: Vec<&str> = out.split("\n\n").filter(|b| !b.is_empty()).collect();
    assert_eq!(blocks.len(), 2);
    assert!(blocks[0].starts_with("Package: com.a.a\n"));
    assert!(blocks[1].starts_with("Package: com.b.b\n"));
}

#[test]
fn packages_filename_line_exact() {
    let rows = vec![sample_package("com.foo.bar", "foobar", "1.0", 0, true)];
    let out = packages_body(&rows, "https://repo.example");
    assert!(out.contains("Filename: https://repo.example/debs/foobar_1.0_iphoneos-arm.deb\n"));
    assert!(!out.contains("Tag:"));
}

#[test]
fn packages_single_block_exact() {
    let rows = vec![sample_package("com.foo.bar", "foobar", "1.0", 0, true)];
    let out = packages_body(&rows, "https://repo.example");
    let expected = "Package: com.foo.bar\n\
                    Version: 1.0\n\
                    Section: Utilities\n\
                    Maintainer: Foo Bar\n\
                    Depends: \n\
                    Architecture: iphoneos-arm\n\
                    Filename: https://repo.example/debs/foobar_1.0_iphoneos-arm.deb\n\
                    Size: 1024\n\
                    SHA256: abc123\n\
                    Description: A foo bar\n\
                    Name: foobar\n\
                    Author: Foo Bar\n\
                    SileoDepiction: https://repo.example/sileodepiction/com.foo.bar\n\
                    Depiction: https://repo.example/depiction/com.foo.bar\n\
                    Icon: http://x/i.png\n\n";
    assert_eq!(out, expected);
}

#[test]
fn packages_round_trip_concat() {
    let a = vec![
        sample_package("com.a.a", "aa", "1.0", 0, true),
        sample_package("com.h.h", "hh", "1.1", 0, false),
    ];
    let b = vec![sample_package("com.b.b", "bb", "2.0", 75, true)];
    let mut joined = clone_rows(&a);
    joined.extend(clone_rows(&b));
    let together = packages_body(&joined, "https://repo.example");
    let separate = packages_body(&a, "https://repo.example")
        + &packages_body(&b, "https://repo.example");
    assert_eq!(together, separate);
}

fn clone_rows(rows: &[PackageInfo]) -> Vec<PackageInfo> {
    rows.iter()
        .map(|p| PackageInfo {
            package_id: p.package_id.clone(),
            name: p.name.clone(),
            version: p.version.clone(),
            section: p.section.clone(),
            developer_name: p.developer_name.clone(),
            depends: p.depends.clone(),
            price: p.price,
            version_size: p.version_size,
            version_hash: p.version_hash.clone(),
            short_description: p.short_description.clone(),
            icon: p.icon.clone(),
            package_visible: p.package_visible,
        })
        .collect()
}

#[test]
fn format_packages_matches_body_on_visible_rows() {
    let visible = vec![
        sample_package("com.a.a", "aa", "1.0", 0, true),
        sample_package("com.b.b", "bb", "2.0", 10, true),
    ];
    let formatted = format_packages(&visible, "https://repo.example");
    let body = packages_body(&visible, "https://repo.example");
    assert_eq!(formatted, body);
}

#[test]
fn size_line_uses_decimal_without_separators() {
    let mut p = sample_package("com.big.app", "big", "1.0", 0, true);
    p.version_size = 123456789;
    let out = packages_body(&vec![p], "https://repo.example");
    assert!(out.contains("Size: 123456789\n"));
}

#[test]
fn decimal_rendering_exact_values() {
    assert_eq!(u64_to_decimal(0), "0");
    assert_eq!(u64_to_decimal(7), "7");
    assert_eq!(u64_to_decimal(1024), "1024");
    assert_eq!(u64_to_decimal(u64::MAX), "18446744073709551615");
}
