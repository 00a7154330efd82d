use dott::app::App;
use dott::config::{
    BreakConfig, ColorShape, Config, CustomModules, LogoType, MenuItem, StructureBuildItem,
    TerminalColorsConfig,
};
use dott::render::{
    preview_line_text, render, render_terminal_colors_lines, Color, DisplayLine, LineKind,
    ModuleState, Report, Span, Style,
};

fn strings(items: &[&str]) -> Vec<String> {
    items.iter().map(|s| s.to_string()).collect()
}

fn item(name: &str, command: &str, args: &[&str]) -> MenuItem {
    MenuItem { name: name.to_string(), command: command.to_string(), args: strings(args) }
}

fn config_with(build: &[&str], entries: Vec<MenuItem>, entries2: Vec<MenuItem>) -> Config {
    let mut config = Config::default();
    config.structure.build =
        build.iter().map(|m| StructureBuildItem { module: m.to_string() }).collect();
    config.entries = entries;
    config.entries2 = entries2;
    config
}

fn custom(shape: ColorShape, lines: usize) -> CustomModules {
    CustomModules {
        terminal_colors: TerminalColorsConfig { shape },
        clock: Default::default(),
        break_: BreakConfig { lines },
        selected: Default::default(),
        system_info: Default::default(),
        quote: Default::default(),
        uptime: Default::default(),
        disk_usage: Default::default(),
        memory: Default::default(),
    }
}

fn state() -> ModuleState {
    ModuleState {
        home: "/home/u".to_string(),
        logo_default: strings(&["D1", "D2"]),
        logo_custom: strings(&["C1"]),
        logo_image: strings(&["I1", "I2", "I3"]),
        clock: "12:34:56".to_string(),
        system_info: strings(&["sys"]),
        quotes: vec![
            Report { lines: strings(&["q1", "q2"]), dimmed: false },
            Report { lines: strings(&["second"]), dimmed: false },
            Report { lines: strings(&["none"]), dimmed: true },
        ],
        uptime: strings(&["up"]),
        disk_usage: Report { lines: strings(&["no disk"]), dimmed: true },
        memory: strings(&["mem"]),
    }
}

fn plain(fg: Color) -> Style {
    Style { fg: Some(fg), bg: None, bold: false, italic: false }
}

fn line(kind: LineKind, text: &str, style: Style) -> DisplayLine {
    DisplayLine { kind, spans: vec![Span { text: text.to_string(), style }] }
}

fn entry(position: usize, selected: bool, name: &str) -> DisplayLine {
    let style = if selected {
        Style { fg: Some(Color::Black), bg: Some(Color::Cyan), bold: true, italic: false }
    } else {
        plain(Color::White)
    };
    line(LineKind::Entry { position, selected }, &format!("> {}  ", name), style)
}

const HELP: &str = "↑/k: Up | ↓/j: Down | Enter: Select | u: Reload Config | q/Esc: Quit";

#[test]
fn renders_modules_in_build_order() {
    let config = config_with(
        &["logo", "entries", "break", "entries2", "help"],
        vec![item("A", "a", &[]), item("B", "b", &[])],
        vec![item("C", "c", &[])],
    );
    let mut app = App::new(config, None);
    app.next();
    let lines = render(&app, &state());
    assert_eq!(
        lines,
        vec![
            line(LineKind::Logo, "D1", plain(Color::Cyan)),
            line(LineKind::Logo, "D2", plain(Color::Cyan)),
            entry(0, false, "A"),
            entry(1, true, "B"),
            DisplayLine { kind: LineKind::Blank, spans: vec![] },
            DisplayLine { kind: LineKind::Blank, spans: vec![] },
            entry(2, false, "C"),
            line(LineKind::Help, HELP, plain(Color::DarkGray)),
        ]
    );
}

#[test]
fn entry_lines_match_flattened_selection() {
    let config = config_with(
        &["entries2", "help", "entries", "nothing", "entries2", "quit", "entries3"],
        vec![item("A", "a", &[]), item("B", "b", &[])],
        vec![item("C", "c", &[]), item("D", "", &[])],
    );
    let mut app = App::new(config, None);
    for _ in 0..app.entry_count() {
        let lines = render(&app, &state());
        let entries: Vec<&DisplayLine> =
            lines.iter().filter(|l| matches!(l.kind, LineKind::Entry { .. })).collect();
        assert_eq!(entries.len(), app.entry_count());
        for (i, shown) in entries.iter().enumerate() {
            let name = &app.all_entries()[i].1.name;
            assert_eq!(**shown, entry(i, i == app.selected(), name));
        }
        let marked: Vec<usize> = entries
            .iter()
            .filter_map(|l| match l.kind {
                LineKind::Entry { position, selected: true } => Some(position),
                _ => None,
            })
            .collect();
        assert_eq!(marked, vec![app.selected()]);
        app.next();
    }
    assert_eq!(app.entry_count(), 6);
}

#[test]
fn optional_modules_are_silent_without_the_optional_section() {
    let config = config_with(
        &[
            "colors", "clock", "selected", "system_info", "quote", "uptime", "disk", "memory",
            "quit",
        ],
        vec![item("A", "a", &[])],
        vec![],
    );
    let app = App::new(config, None);
    assert!(render(&app, &state()).is_empty());
}

#[test]
fn optional_modules_with_the_optional_section() {
    let mut config = config_with(
        &[
            "entries", "clock", "selected", "system_info", "quote", "uptime", "disk", "memory",
            "quit", "break", "logo:image", "logo:custom",
        ],
        vec![item("Run", "echo", &["~/x", "y"])],
        vec![],
    );
    config.custom = Some(custom(ColorShape::Circles, 1));
    let app = App::new(config, None);
    let quoted = Style { fg: Some(Color::Yellow), bg: None, bold: false, italic: true };
    assert_eq!(
        render(&app, &state()),
        vec![
            entry(0, true, "Run"),
            line(LineKind::Clock, "12:34:56", plain(Color::Cyan)),
            line(LineKind::Preview, "Selected: echo /home/u/x y", plain(Color::Yellow)),
            line(LineKind::SystemInfo, "sys", plain(Color::Magenta)),
            line(LineKind::Quote, "q1", quoted),
            line(LineKind::Quote, "q2", quoted),
            line(LineKind::Uptime, "up", plain(Color::Green)),
            line(LineKind::DiskUsage, "no disk", plain(Color::DarkGray)),
            line(LineKind::Memory, "mem", plain(Color::LightBlue)),
            DisplayLine { kind: LineKind::Blank, spans: vec![] },
            line(LineKind::Logo, "I1", plain(Color::Cyan)),
            line(LineKind::Logo, "I2", plain(Color::Cyan)),
            line(LineKind::Logo, "I3", plain(Color::Cyan)),
            line(LineKind::Logo, "C1", plain(Color::Cyan)),
        ]
    );
}

#[test]
fn preview_needs_a_selected_entry() {
    let mut config = config_with(&["selected", "entries"], vec![], vec![]);
    config.custom = Some(custom(ColorShape::Circles, 0));
    let app = App::new(config, None);
    assert!(render(&app, &state()).is_empty());
}

#[test]
fn preview_texts() {
    let home = "/home/u";
    assert_eq!(preview_line_text(&item("Quit", "", &[]), home), "Selected: Exit application");
    assert_eq!(
        preview_line_text(&item("Edit Dott Config", "", &[]), home),
        "Selected: Edit dott config in nvim"
    );
    assert_eq!(
        preview_line_text(&item("View Shell", "", &[]), home),
        "Selected: View shell config in nvim"
    );
    assert_eq!(preview_line_text(&item("Other", "", &["x"]), home), "Selected: No command");
    assert_eq!(preview_line_text(&item("Run", "ls", &[]), home), "Selected: ls");
    assert_eq!(
        preview_line_text(&item("Run", "ls", &["-l", "~"]), home),
        "Selected: ls -l /home/u"
    );
    assert_eq!(
        preview_line_text(&item("Run", "echo", &["~/x"]), home),
        "Selected: echo /home/u/x"
    );
    assert_eq!(
        preview_line_text(&item("Run", "echo", &["a~b", "~/x", "y"]), "/root"),
        "Selected: echo a~b /root/x y"
    );
    assert_eq!(preview_line_text(&item("Quit", "true", &[]), home), "Selected: true");
}

#[test]
fn preview_follows_the_cursor() {
    let mut config = config_with(
        &["entries", "selected"],
        vec![item("Run", "echo", &["~/x"]), item("Quit", "", &[])],
        vec![],
    );
    config.custom = Some(custom(ColorShape::Circles, 2));
    let mut app = App::new(config, None);
    assert_eq!(
        render(&app, &state()),
        vec![
            entry(0, true, "Run"),
            entry(1, false, "Quit"),
            line(LineKind::Preview, "Selected: echo /home/u/x", plain(Color::Yellow)),
        ]
    );
    app.next();
    assert_eq!(
        render(&app, &state()),
        vec![
            entry(0, false, "Run"),
            entry(1, true, "Quit"),
            line(LineKind::Preview, "Selected: Exit application", plain(Color::Yellow)),
        ]
    );
}

#[test]
fn each_quotation_module_shows_its_own_report() {
    let mut config =
        config_with(&["quote", "help", "quote", "quote", "quote"], vec![], vec![]);
    config.custom = Some(custom(ColorShape::Circles, 2));
    let app = App::new(config, None);
    let quoted = Style { fg: Some(Color::Yellow), bg: None, bold: false, italic: true };
    assert_eq!(
        render(&app, &state()),
        vec![
            line(LineKind::Quote, "q1", quoted),
            line(LineKind::Quote, "q2", quoted),
            line(LineKind::Help, HELP, plain(Color::DarkGray)),
            line(LineKind::Quote, "second", quoted),
            line(LineKind::Quote, "none", plain(Color::DarkGray)),
        ]
    );
}

#[test]
fn colour_swatches() {
    let palette = [
        Color::Black,
        Color::Red,
        Color::Green,
        Color::Yellow,
        Color::Blue,
        Color::Magenta,
        Color::Cyan,
        Color::White,
    ];
    let row = |glyph: &str, colors: &[Color]| DisplayLine {
        kind: LineKind::Colors,
        spans: colors.iter().map(|c| Span { text: glyph.to_string(), style: plain(*c) }).collect(),
    };
    assert_eq!(render_terminal_colors_lines(ColorShape::Circles), vec![row("● ", &palette)]);
    assert_eq!(
        render_terminal_colors_lines(ColorShape::Squares),
        vec![row("■ ", &palette[..4]), row("■ ", &palette[4..])]
    );
    let mut config = config_with(&["colors", "break"], vec![], vec![]);
    config.custom = Some(custom(ColorShape::Squares, 3));
    config.logo_type = LogoType::Custom;
    let app = App::new(config, None);
    let lines = render(&app, &state());
    assert_eq!(lines.len(), 5);
    assert_eq!(lines[0], row("■ ", &palette[..4]));
    assert_eq!(lines[4], DisplayLine { kind: LineKind::Blank, spans: vec![] });
}
