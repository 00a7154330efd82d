use dott::ascii_image::{ascii_art_for, text_to_ascii_art, AsciiImage};
use dott::config::{Config, DiskUsageConfig, LogoType, QuoteConfig};
use dott::encode::{base64_encode, kitty_escape};
use dott::logo::{get_logo_text_with_type, logo_lines, DOTT_LOGO};
use dott::paths::{
    config_path, detect_shell_config, editor_target, expand_args, expand_config_path,
    expand_tilde,
};
use dott::config::{BreakConfig, CustomModules, StructureBuildItem};
use dott::quote::{quote_report, quote_reports, render_quote, wrap_words};
use dott::stats::{
    find_disk, kernel_release, pick_hostname, release_from_words, render_disk_usage, render_memory,
    render_system_info, render_uptime, DiskReading, UptimeReading,
};
use dott::keyed::ordered_build;
use dott::session::{TerminalOp, TerminalState};
use dott::text::{begins_with, contains_text, copy_strings, decimal_text, owned};

fn strings(items: &[&str]) -> Vec<String> {
    items.iter().map(|s| s.to_string()).collect()
}

#[test]
fn expands_leading_tilde_of_arguments() {
    assert_eq!(expand_args(&strings(&["~/x"]), "/home/u"), strings(&["/home/u/x"]));
    assert_eq!(expand_tilde("~", "/home/u"), "/home/u");
    assert_eq!(expand_tilde("~/.config", "/home/u"), "/home/u/.config");
    assert_eq!(expand_tilde("plain", "/home/u"), "plain");
    assert_eq!(expand_tilde("", "/home/u"), "");
    assert_eq!(expand_tilde("a~b", "/home/u"), "a~b");
    assert_eq!(expand_tilde("~é/x", "/h"), "/hé/x");
    assert_eq!(
        expand_args(&strings(&["-l", "~/a", "b", "~"]), "/root"),
        strings(&["-l", "/root/a", "b", "/root"])
    );
    assert!(expand_args(&Vec::new(), "/root").is_empty());
}

#[test]
fn expands_config_path() {
    assert_eq!(expand_config_path("~", "/home/u"), "/home/u");
    assert_eq!(expand_config_path("~/c.toml", "/home/u"), "/home/u/c.toml");
    assert_eq!(expand_config_path("~user/c.toml", "/home/u"), "~user/c.toml");
    assert_eq!(expand_config_path("/etc/c.toml", "/home/u"), "/etc/c.toml");
    assert_eq!(expand_config_path("", "/home/u"), "");
}

#[test]
fn shell_configuration_files() {
    assert_eq!(detect_shell_config(None), None);
    assert_eq!(detect_shell_config(Some("/bin/zsh")), Some("~/.zshrc".to_string()));
    assert_eq!(detect_shell_config(Some("/usr/bin/bash")), Some("~/.bashrc".to_string()));
    assert_eq!(
        detect_shell_config(Some("/usr/bin/fish")),
        Some("~/.config/fish/config.fish".to_string())
    );
    assert_eq!(detect_shell_config(Some("/bin/ksh")), Some("~/.kshrc".to_string()));
    assert_eq!(detect_shell_config(Some("/bin/tcsh")), Some("~/.tcshrc".to_string()));
    assert_eq!(detect_shell_config(Some("/bin/dash")), Some("~/.bashrc".to_string()));
    assert_eq!(detect_shell_config(Some("")), Some("~/.bashrc".to_string()));
    assert_eq!(detect_shell_config(Some("/opt/bash/bin/zsh")), Some("~/.zshrc".to_string()));
}

#[test]
fn default_config_path() {
    assert_eq!(config_path(Some("/x"), Some("/home/u")), "/x/dott/config.toml");
    assert_eq!(config_path(None, Some("/home/u")), "/home/u/.config/dott/config.toml");
    assert_eq!(config_path(None, None), "./.config/dott/config.toml");
    assert_eq!(config_path(Some("/x/"), None), "/x/dott/config.toml");
}

#[test]
fn editor_opens_the_configuration_in_force() {
    assert_eq!(editor_target(Some("/etc/dott.toml"), Some("/x"), Some("/home/u")), "/etc/dott.toml");
    assert_eq!(editor_target(None, Some("/x"), Some("/home/u")), "/x/dott/config.toml");
    assert_eq!(editor_target(None, None, Some("/home/u")), "/home/u/.config/dott/config.toml");
    assert_eq!(editor_target(None, None, None), "./.config/dott/config.toml");
}

#[test]
fn base64_of_known_texts() {
    assert_eq!(base64_encode(b""), "");
    assert_eq!(base64_encode(b"f"), "Zg==");
    assert_eq!(base64_encode(b"fo"), "Zm8=");
    assert_eq!(base64_encode(b"foo"), "Zm9v");
    assert_eq!(base64_encode(b"foob"), "Zm9vYg==");
    assert_eq!(base64_encode(b"fooba"), "Zm9vYmE=");
    assert_eq!(base64_encode(b"foobar"), "Zm9vYmFy");
    assert_eq!(base64_encode(&[0xff, 0xff, 0xff]), "////");
    assert_eq!(base64_encode(&[0xfb, 0xef, 0xbe]), "++++");
    assert_eq!(base64_encode(&[0, 0, 0, 0]), "AAAAAA==");
    assert_eq!(kitty_escape(b"foo"), "\x1b_Gf=100,a=T,t=f;Zm9v\x1b\\");
}

#[test]
fn image_caption() {
    let image = AsciiImage::from_file("picture.png", 40, 20).unwrap();
    assert_eq!(
        image.as_lines(),
        &strings(&["Image preview (40 x 20)", "ASCII image conversion", "will be displayed here"])
            [..]
    );
    let image = AsciiImage::from_file("", 0, 1234567).unwrap();
    assert_eq!(image.lines[0], "Image preview (0 x 1234567)");
}

#[test]
fn banner_for_the_name() {
    let banner = strings(&[
        "      _       _   _   ",
        "   __| | ___ | |_| |_ ",
        "  / _` |/ _ \\| __| __|",
        " | (_| | (_) | |_| |_ ",
        "  \\__,_|\\___/ \\__|\\__|",
    ]);
    assert_eq!(text_to_ascii_art("dott"), banner);
    assert_eq!(text_to_ascii_art("DoTT"), banner);
    assert_eq!(text_to_ascii_art("Hello"), strings(&["Hello"]));
    assert_eq!(text_to_ascii_art(""), strings(&[""]));
    assert_eq!(ascii_art_for("dott", "anything"), banner);
    assert_eq!(ascii_art_for("DOTT", "DOTT"), strings(&["DOTT"]));
}

#[test]
fn quotation_is_folded() {
    let words = strings(&["aaaa", "bbbb", "cc", "dddddddddddd", "e"]);
    assert_eq!(wrap_words(&words, 10), strings(&["aaaa bbbb", "cc", "dddddddddddd", "e"]));
    assert_eq!(wrap_words(&words, 9), strings(&["aaaa bbbb", "cc", "dddddddddddd", "e"]));
    assert_eq!(wrap_words(&words, 8), strings(&["aaaa", "bbbb cc", "dddddddddddd", "e"]));
    assert_eq!(wrap_words(&words, 0), words);
    assert_eq!(wrap_words(&words, 1000), strings(&["aaaa bbbb cc dddddddddddd e"]));
    assert!(wrap_words(&Vec::new(), 80).is_empty());
    assert_eq!(wrap_words(&strings(&["éé", "éé"]), 8), strings(&["éé", "éé"]));
    assert_eq!(wrap_words(&strings(&["éé", "éé"]), 9), strings(&["éé éé"]));
    let long = "First, solve the problem. Then, write the code, and test it well, and then \
                write it once more.  - Somebody"
        .to_string();
    let report = quote_report(Some(&long));
    assert!(!report.dimmed);
    assert_eq!(
        report.lines,
        strings(&[
            "First, solve the problem. Then, write the code, and test it well, and then write",
            "it once more. - Somebody",
        ])
    );
    assert_eq!(report.lines[0].len(), 80);
    let none = quote_report(None);
    assert!(none.dimmed);
    assert_eq!(none.lines, strings(&[" Add quotes to your config!"]));
}

#[test]
fn quotation_is_one_of_the_configured() {
    let none = render_quote(&QuoteConfig { quotes: vec![] });
    assert!(none.dimmed);
    assert_eq!(none.lines, strings(&[" Add quotes to your config!"]));
    let one = render_quote(&QuoteConfig { quotes: strings(&["  only   one  "]) });
    assert!(!one.dimmed);
    assert_eq!(one.lines, strings(&["only one"]));
    let config = QuoteConfig { quotes: strings(&["a b", "c d", "e f"]) };
    for _ in 0..20 {
        let report = render_quote(&config);
        assert_eq!(report.lines.len(), 1);
        assert!(config.quotes.contains(&report.lines[0]));
    }
}

#[test]
fn logo_texts() {
    let mut config = Config::default();
    assert_eq!(get_logo_text_with_type(LogoType::Default, &config, None), DOTT_LOGO);
    assert_eq!(get_logo_text_with_type(LogoType::Custom, &config, Some("x")), DOTT_LOGO);
    assert_eq!(get_logo_text_with_type(LogoType::Image, &config, None), DOTT_LOGO);
    config.custom_logo_path = Some("~/logo.txt".to_string());
    config.image_logo_path = Some("~/logo.png".to_string());
    assert_eq!(get_logo_text_with_type(LogoType::Custom, &config, Some("a\nb")), "a\nb");
    assert_eq!(get_logo_text_with_type(LogoType::Custom, &config, None), DOTT_LOGO);
    assert_eq!(
        get_logo_text_with_type(LogoType::Image, &config, None),
        "\n\n  [Image Logo: ~/logo.png]\n  (Experimental: Use Kitty terminal)\n  (Image displayed before TUI launch)\n\n"
    );
    assert_eq!(
        logo_lines(LogoType::Custom, &config, Some("a\r\nb\n\nc\n")),
        strings(&["a", "b", "", "c"])
    );
    assert_eq!(
        logo_lines(LogoType::Image, &config, None),
        strings(&[
            "",
            "",
            "  [Image Logo: ~/logo.png]",
            "  (Experimental: Use Kitty terminal)",
            "  (Image displayed before TUI launch)",
            "",
        ])
    );
    assert_eq!(logo_lines(LogoType::Default, &config, None).len(), 14);
}

#[test]
fn system_lines() {
    assert_eq!(pick_hostname(Some("a"), Some("b"), Some("c")), "a");
    assert_eq!(pick_hostname(None, Some("b"), Some("c")), "b");
    assert_eq!(pick_hostname(None, None, Some("  host\n")), "host");
    assert_eq!(pick_hostname(None, None, None), "unknown");
    assert_eq!(
        kernel_release(Some("Linux version 6.1.0-13-amd64 (debian-kernel@lists)")),
        "6.1.0-13-amd64"
    );
    assert_eq!(kernel_release(Some("Linux version")), "unknown");
    assert_eq!(kernel_release(None), "unknown");
    assert_eq!(release_from_words(&strings(&["a", "b", "c", "d"])), "c");
    assert_eq!(release_from_words(&strings(&["a", "b"])), "unknown");
    assert_eq!(
        render_system_info("box", "linux", "6.1"),
        strings(&["\u{f01c4} box | linux | 6.1"])
    );
}

#[test]
fn uptime_lines() {
    let known = |days, hours, minutes| UptimeReading::Known { days, hours, minutes };
    assert_eq!(render_uptime(known(3, 0, 7)), strings(&[" Uptime: 3d 0h 7m"]));
    assert_eq!(render_uptime(known(0, 5, 0)), strings(&[" Uptime: 5h 0m"]));
    assert_eq!(render_uptime(known(0, 0, 42)), strings(&[" Uptime: 42m"]));
    assert_eq!(render_uptime(known(0, 0, 0)), strings(&[" Uptime: 0m"]));
    assert_eq!(render_uptime(UptimeReading::Unknown), strings(&[" Uptime: unknown"]));
    assert_eq!(render_uptime(UptimeReading::Unsupported), strings(&[" Uptime: not supported"]));
}

#[test]
fn disk_and_memory_lines() {
    let gb: u64 = 1024 * 1024 * 1024;
    let disk = |mount: &str, total: u64, available: u64| DiskReading {
        mount_point: mount.to_string(),
        total,
        available,
    };
    let disks = vec![
        disk("/boot", gb, 2 * gb),
        disk("/", 100 * gb, 25 * gb + 1),
        disk("/", 5 * gb, 0),
    ];
    assert_eq!(find_disk(&disks, "/"), Some(1));
    assert_eq!(find_disk(&disks, "/boot"), Some(0));
    assert_eq!(find_disk(&disks, "/data"), None);
    assert_eq!(find_disk(&Vec::new(), "/"), None);
    let report = render_disk_usage(&DiskUsageConfig::default(), &disks, 74);
    assert!(!report.dimmed);
    assert_eq!(report.lines, strings(&[" Disk: 74 / 100 GB (74%)"]));
    let missing = render_disk_usage(&DiskUsageConfig { path: "/data".to_string() }, &disks, 0);
    assert!(missing.dimmed);
    assert_eq!(missing.lines, strings(&[" Disk: path not found (/data)"]));
    let none = render_disk_usage(&DiskUsageConfig::default(), &Vec::new(), 0);
    assert!(none.dimmed);
    assert_eq!(none.lines, strings(&[" Disk: path not found (/)"]));
    assert_eq!(
        render_memory(16 * 1024 * 1024 * 1024, 3 * 1024 * 1024 * 1024 + 5, 18),
        strings(&[" Memory: 3072 / 16384 MB (18%)"])
    );
    assert_eq!(render_memory(0, 0, 0), strings(&[" Memory: 0 / 0 MB (0%)"]));
}

#[test]
fn lines_of_a_text() {
    let mut config = Config::default();
    config.custom_logo_path = Some("logo.txt".to_string());
    let lines = |text: &str| logo_lines(LogoType::Custom, &config, Some(text));
    assert!(lines("").is_empty());
    assert_eq!(lines("a"), strings(&["a"]));
    assert_eq!(lines("a\n"), strings(&["a"]));
    assert_eq!(lines("\n"), strings(&[""]));
    assert_eq!(lines("\n\n"), strings(&["", ""]));
    assert_eq!(lines("a\nb"), strings(&["a", "b"]));
    assert_eq!(lines("a\r\nb\r\n"), strings(&["a", "b"]));
    assert_eq!(lines("a\r"), strings(&["a\r"]));
    assert_eq!(lines("a\rb\n"), strings(&["a\rb"]));
    assert_eq!(lines("a\r\r\nb"), strings(&["a\r", "b"]));
    assert_eq!(lines("\r\n"), strings(&[""]));
    assert_eq!(lines("foo\nbar\n\r\nbaz\r"), strings(&["foo", "bar", "", "baz\r"]));
}

#[test]
fn one_report_for_each_quotation_module() {
    let mut config = Config::default();
    config.structure.build = ["quote", "logo", "quote", "entries", "quote"]
        .iter()
        .map(|m| StructureBuildItem { module: m.to_string() })
        .collect();
    assert!(quote_reports(&config).is_empty());
    config.custom = Some(CustomModules {
        terminal_colors: dott::defaults::default_terminal_colors(),
        clock: Default::default(),
        break_: BreakConfig { lines: 2 },
        selected: Default::default(),
        system_info: Default::default(),
        quote: QuoteConfig { quotes: strings(&["a b", "c  d"]) },
        uptime: Default::default(),
        disk_usage: Default::default(),
        memory: Default::default(),
    });
    let reports = quote_reports(&config);
    assert_eq!(reports.len(), 3);
    for report in &reports {
        assert!(!report.dimmed);
        assert!(report.lines == strings(&["a b"]) || report.lines == strings(&["c d"]));
    }
    config.custom.as_mut().unwrap().quote.quotes.clear();
    let reports = quote_reports(&config);
    assert_eq!(reports.len(), 3);
    for report in &reports {
        assert!(report.dimmed);
        assert_eq!(report.lines, strings(&[" Add quotes to your config!"]));
    }
    config.structure.build.clear();
    assert!(quote_reports(&config).is_empty());
}

#[test]
fn string_copies() {
    assert_eq!(owned("abc"), "abc");
    assert_eq!(copy_strings(&strings(&["a", "", "c"])), strings(&["a", "", "c"]));
}

#[test]
fn prefix_search_and_decimal() {
    assert!(begins_with("logo:x", "logo:"));
    assert!(begins_with("logo:", "logo:"));
    assert!(!begins_with("logo", "logo:"));
    assert!(!begins_with("xlogo:", "logo:"));
    assert!(begins_with("anything", ""));
    assert!(begins_with("", ""));
    assert!(begins_with("éa", "é"));
    assert!(contains_text("/bin/zsh", "zsh"));
    assert!(contains_text("zsh", "zsh"));
    assert!(!contains_text("zs", "zsh"));
    assert!(!contains_text("/bin/zs-h", "zsh"));
    assert!(contains_text("abc", ""));
    assert!(contains_text("", ""));
    assert!(contains_text("aab", "ab"));
    assert_eq!(decimal_text(0), "0");
    assert_eq!(decimal_text(7), "7");
    assert_eq!(decimal_text(10), "10");
    assert_eq!(decimal_text(1234567890), "1234567890");
    assert_eq!(decimal_text(u64::MAX), "18446744073709551615");
}

#[test]
fn keyed_build_is_ordered_by_key() {
    let keyed = |items: &[(u64, &str)]| -> Vec<(u64, String)> {
        items.iter().map(|(k, m)| (*k, m.to_string())).collect()
    };
    let tokens = |items: &[(u64, &str)]| -> Vec<String> {
        ordered_build(keyed(items)).into_iter().map(|b| b.module).collect()
    };
    assert_eq!(
        tokens(&[(10, "help"), (1, "logo"), (2, "entries"), (3, "break")]),
        strings(&["logo", "entries", "break", "help"])
    );
    assert_eq!(tokens(&[(1, "logo"), (2, "entries")]), strings(&["logo", "entries"]));
    assert_eq!(
        tokens(&[(2, "a"), (1, "b"), (2, "c"), (1, "d"), (0, "e")]),
        strings(&["e", "b", "d", "a", "c"])
    );
    assert!(tokens(&[]).is_empty());
}

#[test]
fn terminal_changes_hands_in_pairs() {
    let mut state = TerminalState::Active;
    assert_eq!(state.resume(), None);
    assert_eq!(state, TerminalState::Active);
    assert_eq!(state.suspend(), Some(TerminalOp::Release));
    assert_eq!(state, TerminalState::Suspended);
    assert_eq!(state.suspend(), None);
    assert_eq!(state, TerminalState::Suspended);
    assert_eq!(state.resume(), Some(TerminalOp::TakeOver));
    assert_eq!(state, TerminalState::Active);
}
