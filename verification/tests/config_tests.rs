use exe_supervisor::config::{parse_config, render_config, Configuration};

fn cfg(path: Option<&str>, startup: bool) -> Configuration {
    Configuration {
        executable_path: path.map(|p| p.as_bytes().to_vec()),
        launch_on_startup: startup,
    }
}

#[test]
fn default_configuration_has_no_target() {
    let c = Configuration::default();
    assert_eq!(c.executable_path, None);
    assert!(!c.launch_on_startup);
}

#[test]
fn render_default_exact_bytes() {
    let c = Configuration::default();
    assert_eq!(render_config(&c), "startup=0\n".as_bytes().to_vec());
}

#[test]
fn render_with_path_exact_bytes() {
    let c = cfg(Some("C:\\blish\\Blish HUD.exe"), true);
    assert_eq!(
        render_config(&c),
        "startup=1\npath=C:\\blish\\Blish HUD.exe\n".as_bytes().to_vec()
    );
}

#[test]
fn round_trip_no_target() {
    for startup in [false, true] {
        let c = cfg(None, startup);
        let back = parse_config(&render_config(&c));
        assert_eq!(back.executable_path, None);
        assert_eq!(back.launch_on_startup, startup);
    }
}

#[test]
fn round_trip_flag_and_path() {
    for startup in [false, true] {
        for path in ["a", "/usr/bin/overlay", "C:\\Program Files\\x y\\z.exe", "p=q"] {
            let c = cfg(Some(path), startup);
            let back = parse_config(&render_config(&c));
            assert_eq!(back.executable_path, Some(path.as_bytes().to_vec()));
            assert_eq!(back.launch_on_startup, startup);
        }
    }
}

#[test]
fn parse_empty_yields_default() {
    let back = parse_config(&Vec::new());
    assert_eq!(back.executable_path, None);
    assert!(!back.launch_on_startup);
}

#[test]
fn parse_garbage_yields_default() {
    let back = parse_config(&"this is not a configuration file".as_bytes().to_vec());
    assert_eq!(back.executable_path, None);
    assert!(!back.launch_on_startup);
}

#[test]
fn parse_bad_flag_yields_default() {
    let back = parse_config(&"startup=x\n".as_bytes().to_vec());
    assert_eq!(back.executable_path, None);
    assert!(!back.launch_on_startup);
}

#[test]
fn parse_flag_without_newline_yields_default() {
    let back = parse_config(&"startup=1".as_bytes().to_vec());
    assert_eq!(back.executable_path, None);
    assert!(!back.launch_on_startup);
}

#[test]
fn parse_flag_only_file() {
    let back = parse_config(&"startup=1\n".as_bytes().to_vec());
    assert_eq!(back.executable_path, None);
    assert!(back.launch_on_startup);
}

#[test]
fn parse_empty_path_value_yields_default() {
    let back = parse_config(&"startup=0\npath=\n".as_bytes().to_vec());
    assert_eq!(back.executable_path, None);
    assert!(!back.launch_on_startup);
}

#[test]
fn parse_path_with_linefeed_yields_default() {
    let back = parse_config(&"startup=1\npath=a\nb\n".as_bytes().to_vec());
    assert_eq!(back.executable_path, None);
    assert!(!back.launch_on_startup);
}

#[test]
fn parse_unterminated_path_yields_default() {
    let back = parse_config(&"startup=1\npath=overlay.exe".as_bytes().to_vec());
    assert_eq!(back.executable_path, None);
    assert!(!back.launch_on_startup);
}

#[test]
fn parse_wrong_second_key_yields_default() {
    let back = parse_config(&"startup=1\nexec=overlay.exe\n".as_bytes().to_vec());
    assert_eq!(back.executable_path, None);
    assert!(!back.launch_on_startup);
}
