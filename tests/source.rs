use zerofetch::fact::{distro, hostname, kernel, shell, term, uptime, username, wm};
use zerofetch::source::{
    format_uptime, get_distro, get_hostname, get_kernel, get_shell, get_term, get_uptime, get_username,
    get_wm, parse_seconds, to_decimal,
};

fn lines(v: &[&str]) -> Vec<String> {
    v.iter().map(|s| s.to_string()).collect()
}

#[test]
fn constructors_label_and_icon() {
    let cases = [
        (username("a".to_string()), "User", '\u{f17c}'),
        (hostname("a".to_string()), "Hostname", '\u{f17c}'),
        (distro("a".to_string()), "OS", '\u{f17c}'),
        (kernel("a".to_string()), "Kernel", '\u{e266}'),
        (uptime("a".to_string()), "Uptime", '\u{f017}'),
        (shell("a".to_string()), "Shell", '\u{e795}'),
        (wm("a".to_string()), "WM", '\u{f878}'),
        (term("a".to_string()), "Term", '\u{f44f}'),
    ];
    for (d, name, icon) in cases.iter() {
        assert_eq!(d.name, *name);
        assert_eq!(d.icon, *icon);
        assert_eq!(d.value, "a");
    }
}

#[test]
fn variables_or_empty() {
    assert_eq!(get_username(Some("ann".to_string())), "ann");
    assert_eq!(get_username(None), "");
    assert_eq!(get_wm(Some("sway".to_string())), "sway");
    assert_eq!(get_wm(None), "");
}

#[test]
fn hostname_is_last_line() {
    assert_eq!(get_hostname(&lines(&["first", "box"])), "box");
    assert_eq!(get_hostname(&Vec::new()), "");
}

#[test]
fn distro_from_os_release() {
    let l = lines(&["NAME=\"Debian\"", "PRETTY_NAME=\"Debian GNU/Linux 12\"", "ID=debian"]);
    assert_eq!(get_distro(&l), "Debian GNU/Linux 12");
    assert_eq!(get_distro(&lines(&["ID=arch"])), "");
    assert_eq!(get_distro(&lines(&["PRETTY_NAME=\"", "X"])), "");
    assert_eq!(get_distro(&lines(&["PRETTY_NAME=\"A\"", "PRETTY_NAME=\"B\""])), "B");
}

#[test]
fn kernel_from_banner() {
    let banner = "Linux version 6.1.0-13-amd64 (debian-kernel@lists.debian.org) (gcc-12) #1 SMP";
    assert_eq!(get_kernel(banner), "6.1.0-13-amd64");
    assert_eq!(get_kernel("no banner here"), "");
    assert_eq!(get_kernel("a (b) version 1"), "");
}

#[test]
fn uptime_formats() {
    assert_eq!(get_uptime("93784.55 12345.67\n"), "1d 2h 3m");
    assert_eq!(get_uptime("3600.00 1.00\n"), "1h ");
    assert_eq!(get_uptime("59.99 1.00\n"), "");
    assert_eq!(get_uptime("garbage"), "");
    assert_eq!(get_uptime(""), "");
    assert_eq!(parse_seconds("120.5 7.0"), Some(120));
    assert_eq!(parse_seconds("2147483647"), Some(2147483647));
    assert_eq!(parse_seconds("2147483648"), None);
    assert_eq!(format_uptime(172800 + 60), "2d 1m");
}

#[test]
fn decimal_digits() {
    assert_eq!(to_decimal(0), "0");
    assert_eq!(to_decimal(1234), "1234");
    assert_eq!(to_decimal(u32::MAX), "4294967295");
}

#[test]
fn shell_is_last_path_part() {
    assert_eq!(get_shell(Some("/usr/bin/zsh".to_string())), "zsh");
    assert_eq!(get_shell(Some("fish".to_string())), "fish");
    assert_eq!(get_shell(None), "");
}

#[test]
fn term_names() {
    assert_eq!(get_term(Some("xterm-256color".to_string())), "256color");
    assert_eq!(get_term(Some("screen".to_string())), "screen");
    assert_eq!(get_term(None), "");
}
