use create_x::cachekey::{hash, hex_str};
use create_x::gitplan::workdir_for;

#[test]
fn hash_of_empty_is_offset_basis() {
    assert_eq!(hash(""), 0xcbf29ce484222325);
}

#[test]
fn hash_matches_reference_vector() {
    // The folding is FNV-1a over code points, so ASCII input must give the
    // published FNV-1a 64-bit value.
    assert_eq!(hash("a"), 0xaf63dc4c8601ec8c);
}

#[test]
fn hash_is_deterministic() {
    let a = hash("github.com-acme-templates-main");
    let b = hash("github.com-acme-templates-main");
    assert_eq!(a, b);
}

#[test]
fn hash_separates_nearby_seeds() {
    assert_ne!(
        hash("github.com-acme-templates-main"),
        hash("github.com-acme-templates-dev")
    );
}

#[test]
fn hex_str_renders_sixteen_digits() {
    assert_eq!(hex_str(0), "0000000000000000");
    assert_eq!(hex_str(0x123456789abcdef0), "123456789abcdef0");
    assert_eq!(hex_str(u64::MAX), "ffffffffffffffff");
    assert_eq!(hex_str(15), "000000000000000f");
}

#[test]
fn workdir_name_is_prefix_plus_seed_hash() {
    let w = workdir_for("github.com", "acme", "templates", "main");
    let expected = format!(
        "create-x-{}",
        hex_str(hash("github.com-acme-templates-main"))
    );
    assert_eq!(w, expected);
}

#[test]
fn workdir_name_is_stable_across_calls() {
    let a = workdir_for("gitlab.com", "grp", "proj", "dev");
    let b = workdir_for("gitlab.com", "grp", "proj", "dev");
    assert_eq!(a, b);
}
