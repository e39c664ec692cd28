use fig::{config_file_path, Config};

#[test]
fn config_file_reads_tmpdir() {
    let c = Config::from_toml("tmpdir = \"fig\"\n");
    assert_eq!(c.tmpdir, Some("fig".to_string()));
}

#[test]
fn config_file_ignores_other_keys() {
    let c = Config::from_toml("other = 3\ntmpdir = 'scratch'\n[section]\nx = true\n");
    assert_eq!(c.tmpdir, Some("scratch".to_string()));
    assert_eq!(Config::from_toml("other = 3\n").tmpdir, None);
}

#[test]
fn unreadable_config_gives_defaults() {
    assert_eq!(Config::from_toml("tmpdir = ").tmpdir, None);
    assert_eq!(Config::from_toml("tmpdir = 3").tmpdir, None);
    assert_eq!(Config::from_toml("").tmpdir, None);
    assert_eq!(Config::default().tmpdir, None);
}

#[test]
fn environment_overrides_config_file() {
    let file = Some("tmpdir = \"from_file\"".to_string());
    let c = Config::resolve(&file, &Some("from_env".to_string()));
    assert_eq!(c.tmpdir, Some("from_env".to_string()));
    assert_eq!(c.temp_location("/tmp"), Some("/tmp/from_env".to_string()));
}

#[test]
fn config_file_used_without_override() {
    let file = Some("tmpdir = \"from_file\"".to_string());
    assert_eq!(Config::resolve(&file, &None).tmpdir, Some("from_file".to_string()));
    assert_eq!(Config::resolve(&None, &None).tmpdir, None);
    assert_eq!(Config::resolve(&None, &Some("e".to_string())).tmpdir, Some("e".to_string()));
}

#[test]
fn temp_location_strips_leading_separator() {
    let c = Config { tmpdir: Some("/fig".to_string()) };
    assert_eq!(c.temp_location("/tmp"), Some("/tmp/fig".to_string()));
    let e = Config { tmpdir: Some("//fig".to_string()) };
    assert_eq!(e.temp_location("/tmp"), Some("/tmp/fig".to_string()));
    let d = Config { tmpdir: Some("a/b".to_string()) };
    assert_eq!(d.temp_location("/var/tmp/"), Some("/var/tmp/a/b".to_string()));
    assert_eq!(Config::default().temp_location("/tmp"), None);
}

#[test]
fn config_file_location() {
    assert_eq!(
        config_file_path(&Some("/cfg".to_string()), &Some("/home/u".to_string())),
        Some("/cfg/fig/config.toml".to_string())
    );
    assert_eq!(
        config_file_path(&None, &Some("/home/u".to_string())),
        Some("/home/u/.config/fig/config.toml".to_string())
    );
    assert_eq!(config_file_path(&None, &None), None);
}
