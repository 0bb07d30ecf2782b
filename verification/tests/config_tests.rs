use lan_share::config::{Config, DEFAULT_PORT};

#[test]
fn defaults_apply_when_nothing_is_given() {
    let c = Config::new(None, None, None);
    assert_eq!(c.get_port_or_default(), 8080);
    assert_eq!(c.get_mount_path_or_default(), "/static");
    assert_eq!(c.get_relative_path_or_default(), ".");
}

#[test]
fn default_port_constant_is_8080() {
    assert_eq!(DEFAULT_PORT, 8080);
}

#[test]
fn given_values_are_returned_exactly() {
    let c = Config::new(Some(3000), Some(String::from("/files")), Some(String::from("/srv/share")));
    assert_eq!(c.get_port_or_default(), 3000);
    assert_eq!(c.get_mount_path_or_default(), "/files");
    assert_eq!(c.get_relative_path_or_default(), "/srv/share");
}

#[test]
fn each_setting_defaults_on_its_own() {
    let only_port = Config::new(Some(9), None, None);
    assert_eq!(only_port.get_port_or_default(), 9);
    assert_eq!(only_port.get_mount_path_or_default(), "/static");
    assert_eq!(only_port.get_relative_path_or_default(), ".");

    let only_mount = Config::new(None, Some(String::from("/m")), None);
    assert_eq!(only_mount.get_port_or_default(), 8080);
    assert_eq!(only_mount.get_mount_path_or_default(), "/m");
    assert_eq!(only_mount.get_relative_path_or_default(), ".");

    let only_dir = Config::new(None, None, Some(String::from("public")));
    assert_eq!(only_dir.get_port_or_default(), 8080);
    assert_eq!(only_dir.get_mount_path_or_default(), "/static");
    assert_eq!(only_dir.get_relative_path_or_default(), "public");
}

#[test]
fn extreme_ports_are_kept() {
    assert_eq!(Config::new(Some(0), None, None).get_port_or_default(), 0);
    assert_eq!(Config::new(Some(65535), None, None).get_port_or_default(), 65535);
    assert_eq!(Config::new(Some(8080), None, None).get_port_or_default(), 8080);
}

#[test]
fn empty_strings_are_values_not_omissions() {
    let c = Config::new(None, Some(String::new()), Some(String::new()));
    assert_eq!(c.get_mount_path_or_default(), "");
    assert_eq!(c.get_relative_path_or_default(), "");
}

#[test]
fn non_ascii_paths_are_kept() {
    let c = Config::new(None, Some(String::from("/dépôt")), Some(String::from("./文件")));
    assert_eq!(c.get_mount_path_or_default(), "/dépôt");
    assert_eq!(c.get_relative_path_or_default(), "./文件");
}

#[test]
fn a_clone_has_the_same_settings() {
    let c = Config::new(Some(1234), None, Some(String::from("d")));
    let d = c.clone();
    assert_eq!(d.get_port_or_default(), 1234);
    assert_eq!(d.get_mount_path_or_default(), "/static");
    assert_eq!(d.get_relative_path_or_default(), "d");
    assert_eq!(c.port, d.port);
    assert_eq!(c.mount_path, d.mount_path);
    assert_eq!(c.serve_from, d.serve_from);
}
