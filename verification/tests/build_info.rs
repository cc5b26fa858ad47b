use main_web::build_info::{build_info_path, dev, strip_v_prefix, unset, unset_sha, BuildInfo};

#[test]
fn strips_leading_v_from_tag_version() {
    assert_eq!(strip_v_prefix("v1.2.3".to_string()), "1.2.3");
}

#[test]
fn leaves_bare_version_unchanged() {
    assert_eq!(strip_v_prefix("1.2.3".to_string()), "1.2.3");
}

#[test]
fn leaves_dev_placeholder_unchanged() {
    assert_eq!(strip_v_prefix("dev".to_string()), "dev");
}

#[test]
fn strips_only_one_leading_v() {
    assert_eq!(strip_v_prefix("vv2".to_string()), "v2");
    assert_eq!(strip_v_prefix("v".to_string()), "");
    assert_eq!(strip_v_prefix(String::new()), "");
    assert_eq!(strip_v_prefix("V1".to_string()), "V1");
}

#[test]
fn placeholders_read_as_placeholders() {
    assert_eq!(unset(), "unset");
    assert_eq!(unset_sha(), "deadbeef");
    assert_eq!(dev(), "dev");
}

#[test]
fn missing_build_info_falls_back_to_placeholders() {
    let info = BuildInfo::finish(None);
    assert_eq!(info.number, "unset");
    assert_eq!(info.job, "unset");
    assert_eq!(info.sha, "deadbeef");
    assert_eq!(info.date, "unset");
    assert_eq!(info.version, "dev");
}

#[test]
fn parsed_build_info_keeps_its_fields_and_loses_the_tag_v() {
    let parsed = BuildInfo {
        number: "42".to_string(),
        job: "ci".to_string(),
        sha: "0123456789abcdef".to_string(),
        date: "2026-01-02".to_string(),
        version: "v1.4.0".to_string(),
    };
    let info = BuildInfo::finish(Some(parsed));
    assert_eq!(info.number, "42");
    assert_eq!(info.job, "ci");
    assert_eq!(info.sha, "0123456789abcdef");
    assert_eq!(info.date, "2026-01-02");
    assert_eq!(info.version, "1.4.0");
}

#[test]
fn build_info_path_defaults_to_the_image_path() {
    assert_eq!(build_info_path(None), "/app/config/build-info.json");
    assert_eq!(build_info_path(Some("/tmp/bi.json".to_string())), "/tmp/bi.json");
}
