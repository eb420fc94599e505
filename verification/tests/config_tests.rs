use rasp_manager::config::{Command, Config, Flags};
use std::collections::HashMap;

fn no_flags() -> Flags {
    Flags { addr: None, port: None, static_dir: None }
}

fn file_config() -> Config {
    let mut commands = HashMap::new();
    commands.insert(
        "disk".to_string(),
        Command { label: "Disk usage".to_string(), command: "df -h".to_string() },
    );
    Config {
        static_dir: Some("/srv/www".to_string()),
        addr: "127.0.0.1".to_string(),
        port: 8080,
        commands,
    }
}

#[test]
fn defaults_without_file_or_flags() {
    let c = Config::generate(no_flags(), None);
    assert_eq!(c.addr, "0.0.0.0");
    assert_eq!(c.port, 80);
    assert_eq!(c.static_dir, None);
    assert!(c.commands.is_empty());
    let d = Config::fallback();
    assert_eq!(d.addr, "0.0.0.0");
    assert_eq!(d.port, 80);
}

#[test]
fn file_is_the_base() {
    let c = Config::generate(no_flags(), Some(file_config()));
    assert_eq!(c.addr, "127.0.0.1");
    assert_eq!(c.port, 8080);
    assert_eq!(c.static_dir, Some("/srv/www".to_string()));
    assert_eq!(c.commands.len(), 1);
    assert_eq!(c.commands["disk"].label, "Disk usage");
    assert_eq!(c.commands["disk"].command, "df -h");
}

#[test]
fn flags_override_the_file() {
    let flags = Flags {
        addr: Some("10.0.0.1".to_string()),
        port: Some("9000".to_string()),
        static_dir: Some("/tmp/site".to_string()),
    };
    let c = Config::generate(flags, Some(file_config()));
    assert_eq!(c.addr, "10.0.0.1");
    assert_eq!(c.port, 9000);
    assert_eq!(c.static_dir, Some("/tmp/site".to_string()));
    assert_eq!(c.commands.len(), 1);
}

#[test]
fn flags_override_the_defaults() {
    let flags = Flags { addr: None, port: Some("8081".to_string()), static_dir: None };
    let c = Config::generate(flags, None);
    assert_eq!(c.addr, "0.0.0.0");
    assert_eq!(c.port, 8081);
    assert_eq!(c.static_dir, None);
}

fn port_for(text: &str) -> i32 {
    let flags = Flags { addr: None, port: Some(text.to_string()), static_dir: None };
    Config::generate(flags, Some(file_config())).port
}

#[test]
fn port_flag_forms() {
    assert_eq!(port_for("443"), 443);
    assert_eq!(port_for("+81"), 81);
    assert_eq!(port_for("-1"), -1);
    assert_eq!(port_for("0080"), 80);
    assert_eq!(port_for("2147483647"), 2147483647);
    assert_eq!(port_for("-2147483648"), -2147483648);
}

#[test]
fn port_flag_that_is_no_number_is_passed_over() {
    assert_eq!(port_for(""), 8080);
    assert_eq!(port_for("http"), 8080);
    assert_eq!(port_for("80 "), 8080);
    assert_eq!(port_for(" 80"), 8080);
    assert_eq!(port_for("+"), 8080);
    assert_eq!(port_for("-"), 8080);
    assert_eq!(port_for("8e1"), 8080);
    assert_eq!(port_for("2147483648"), 8080);
    assert_eq!(port_for("-2147483649"), 8080);
}

#[test]
fn overrides_one_by_one() {
    let c = Config::with_overrides(file_config(), None, Some(1234), None);
    assert_eq!(c.addr, "127.0.0.1");
    assert_eq!(c.port, 1234);
    assert_eq!(c.static_dir, Some("/srv/www".to_string()));
    let c = Config::with_overrides(file_config(), Some("::".to_string()), None, None);
    assert_eq!(c.addr, "::");
    assert_eq!(c.port, 8080);
}
