use lxi_lifecycle::VersionInfo;
use lxi_lifecycle::render_version;

#[test]
fn version_renders_dotted_decimal() {
    let v = VersionInfo { major: 1, minor: 2, patch: 3 };
    assert_eq!(render_version(&v), b"1.2.3".to_vec());
}

#[test]
fn version_renders_multi_digit_components() {
    let v = VersionInfo { major: 4, minor: 12, patch: 250 };
    assert_eq!(render_version(&v), b"4.12.250".to_vec());
}
