//! The render pipeline: the build list, walked once more, now yielding the
//! display lines of each module. Its entry counter runs in step with the
//! flattened selection, so the highlighted line is the entry that activates.

use vstd::prelude::*;
use crate::app::App;
use crate::config::{
    ColorShape, Config, LogoType, MenuItem, MenuItemView, ModuleSpec, ModuleType, Registry,
    items_view, modules_view,
};
use crate::selection::{Selected, config_selection, flatten, lemma_flatten_concat, module_entries};
use crate::paths::{expand_all, expand_home, expand_tilde};
use crate::text::{owned, same_text, strings_view};

verus! {

/// The colours that a span of text can take.
#[derive(Debug, Clone, Copy, PartialEq, Eq)]
pub enum Color {
    Black,
    Red,
    Green,
    Yellow,
    Blue,
    Magenta,
    Cyan,
    White,
    DarkGray,
    LightBlue,
}

/// How a span of text is drawn.
#[derive(Debug, Clone, Copy, PartialEq, Eq)]
pub struct Style {
    pub fg: Option<Color>,
    pub bg: Option<Color>,
    pub bold: bool,
    pub italic: bool,
}

/// What a display line is there for. An entry line carries its position in
/// the flattened selection and whether the cursor is on it.
#[derive(Debug, Clone, Copy, PartialEq, Eq)]
pub enum LineKind {
    Logo,
    Entry { position: usize, selected: bool },
    Colors,
    Clock,
    Help,
    Preview,
    Blank,
    SystemInfo,
    Quote,
    Uptime,
    DiskUsage,
    Memory,
}

/// A run of text in one style.
#[derive(Debug, Clone, PartialEq, Eq)]
pub struct Span {
    pub text: String,
    pub style: Style,
}

/// One line of the composed screen.
#[derive(Debug, Clone, PartialEq, Eq)]
pub struct DisplayLine {
    pub kind: LineKind,
    pub spans: Vec<Span>,
}

/// The mathematical value of a [`Span`].
pub struct SpanView {
    pub text: Seq<char>,
    pub style: Style,
}

/// The mathematical value of a [`DisplayLine`].
pub struct LineView {
    pub kind: LineKind,
    pub spans: Seq<SpanView>,
}

impl View for Span {
    type V = SpanView;

    open spec fn view(&self) -> SpanView {
        SpanView { text: self.text@, style: self.style }
    }
}

impl View for DisplayLine {
    type V = LineView;

    open spec fn view(&self) -> LineView {
        LineView { kind: self.kind, spans: Seq::new(self.spans@.len(), |i: int| self.spans@[i]@) }
    }
}

/// The views of a sequence of display lines, in order.
pub open spec fn lines_view(lines: Seq<DisplayLine>) -> Seq<LineView> {
    Seq::new(lines.len(), |i: int| lines[i]@)
}

/// What a collaborator reports for one frame: its lines, and whether they
/// are the dimmed notice that stands in where it has nothing to show.
#[derive(Debug, Clone, PartialEq, Eq)]
pub struct Report {
    pub lines: Vec<String>,
    pub dimmed: bool,
}

/// What the surrounding program read or produced for one frame: the home
/// directory and the texts of the collaborators. The core only lays them
/// out.
#[derive(Debug, Clone, PartialEq, Eq)]
pub struct ModuleState {
    /// The user's home directory, which a leading `~` of an argument stands
    /// for.
    pub home: String,
    pub logo_default: Vec<String>,
    pub logo_custom: Vec<String>,
    pub logo_image: Vec<String>,
    pub clock: String,
    pub system_info: Vec<String>,
    /// One report for each quotation module of the build list, in build
    /// order.
    pub quotes: Vec<Report>,
    pub uptime: Vec<String>,
    pub disk_usage: Report,
    pub memory: Vec<String>,
}

impl ModuleState {
    /// The lines of the logo of the given variant.
    pub open spec fn logo(&self, variant: LogoType) -> Seq<Seq<char>> {
        match variant {
            LogoType::Default => strings_view(self.logo_default@),
            LogoType::Custom => strings_view(self.logo_custom@),
            LogoType::Image => strings_view(self.logo_image@),
        }
    }
}

/// Text in the given colour, not otherwise adorned.
pub open spec fn plain(fg: Color) -> Style {
    Style { fg: Some(fg), bg: None, bold: false, italic: false }
}

/// The style of the entry under the cursor.
pub open spec fn highlight() -> Style {
    Style { fg: Some(Color::Black), bg: Some(Color::Cyan), bold: true, italic: false }
}

/// The style of a quotation.
pub open spec fn quoted() -> Style {
    Style { fg: Some(Color::Yellow), bg: None, bold: false, italic: true }
}

/// A line of one span.
pub open spec fn one_span(kind: LineKind, text: Seq<char>, style: Style) -> LineView {
    LineView { kind, spans: seq![SpanView { text, style }] }
}

/// One line of one span for each text, all of one kind and style.
pub open spec fn text_lines(texts: Seq<Seq<char>>, kind: LineKind, style: Style) -> Seq<LineView> {
    Seq::new(texts.len(), |i: int| one_span(kind, texts[i], style))
}

/// The lines of a report: in `style`, or dimmed where the report is a notice.
pub open spec fn report_lines(report: Report, kind: LineKind, style: Style) -> Seq<LineView> {
    text_lines(
        strings_view(report.lines@),
        kind,
        if report.dimmed {
            plain(Color::DarkGray)
        } else {
            style
        },
    )
}

/// The line of the entry at `position` of the flattened selection: a marker,
/// the entry's name, and the highlight exactly where the cursor is.
pub open spec fn entry_line(name: Seq<char>, position: int, selected: int) -> LineView {
    one_span(
        LineKind::Entry { position: position as usize, selected: position == selected },
        "> "@ + name + "  "@,
        if position == selected {
            highlight()
        } else {
            plain(Color::White)
        },
    )
}

/// The lines of an entry group whose first entry has position `start`.
pub open spec fn entry_lines(items: Seq<MenuItemView>, start: int, selected: int) -> Seq<LineView> {
    Seq::new(items.len(), |k: int| entry_line(items[k].name, start + k, selected))
}

/// The eight terminal colours, in the order in which they are shown.
pub open spec fn palette() -> Seq<Color> {
    seq![
        Color::Black,
        Color::Red,
        Color::Green,
        Color::Yellow,
        Color::Blue,
        Color::Magenta,
        Color::Cyan,
        Color::White,
    ]
}

/// A line of swatches: the glyph once in each of the colours.
pub open spec fn swatch_line(glyph: Seq<char>, colors: Seq<Color>) -> LineView {
    LineView {
        kind: LineKind::Colors,
        spans: Seq::new(colors.len(), |i: int| SpanView { text: glyph, style: plain(colors[i]) }),
    }
}

/// The colour swatches: eight circles in a row, or two rows of four squares.
pub open spec fn color_lines(shape: ColorShape) -> Seq<LineView> {
    match shape {
        ColorShape::Circles => seq![swatch_line("● "@, palette())],
        ColorShape::Squares => seq![
            swatch_line("■ "@, palette().subrange(0, 4)),
            swatch_line("■ "@, palette().subrange(4, 8)),
        ],
    }
}

/// The arguments, each preceded by a space.
pub open spec fn spaced(args: Seq<Seq<char>>) -> Seq<char>
    decreases args.len(),
{
    if args.len() == 0 {
        Seq::empty()
    } else {
        spaced(args.drop_last()) + " "@ + args.last()
    }
}

/// What a built-in action does, in words; an entry without a command whose
/// name is no built-in action's has no command.
pub open spec fn action_description(name: Seq<char>) -> Seq<char> {
    if name == "Quit"@ {
        "Exit application"@
    } else if name == "Edit Dott Config"@ {
        "Edit dott config in nvim"@
    } else if name == "View Shell"@ {
        "View shell config in nvim"@
    } else {
        "No command"@
    }
}

/// The text of the preview line for an entry: its command and its
/// arguments as they are handed to the command, with the home directory in
/// place of a leading `~`; or the description of the built-in action that
/// the entry names.
pub open spec fn preview_text(item: MenuItemView, home: Seq<char>) -> Seq<char> {
    "Selected: "@ + (if item.command.len() == 0 {
        action_description(item.name)
    } else {
        item.command + spaced(expand_all(item.args, home))
    })
}

/// The one line of the help module.
pub open spec fn help_text() -> Seq<char> {
    "↑/k: Up | ↓/j: Down | Enter: Select | u: Reload Config | q/Esc: Quit"@
}

/// A line without text.
pub open spec fn blank_line() -> LineView {
    LineView { kind: LineKind::Blank, spans: Seq::empty() }
}

/// The number of quotation modules in a build list.
pub open spec fn quote_count(build: Seq<ModuleSpec>) -> nat
    decreases build.len(),
{
    if build.len() == 0 {
        0
    } else {
        quote_count(build.drop_last()) + if build.last() is Quote {
            1nat
        } else {
            0nat
        }
    }
}

/// The lines that one module emits. `start` is the position in the
/// flattened selection of the first entry that the module would show, and
/// `quote` the number of quotation modules before this one: each quotation
/// module shows a report of its own, and nothing where the frame holds no
/// report for it. Modules fed by a collaborator are silent unless the
/// optional section of the configuration is present.
pub open spec fn module_lines(
    module: ModuleSpec,
    config: &Config,
    selected: int,
    state: &ModuleState,
    start: int,
    quote: int,
) -> Seq<LineView> {
    let optional = config.custom is Some;
    match module {
        ModuleSpec::Logo(variant) => text_lines(
            state.logo(variant),
            LineKind::Logo,
            plain(Color::Cyan),
        ),
        ModuleSpec::EntryGroup(group) => entry_lines(config.registry().get(group), start, selected),
        ModuleSpec::Colors => if optional {
            color_lines(config.custom->0.terminal_colors.shape)
        } else {
            Seq::empty()
        },
        ModuleSpec::Clock => if optional {
            seq![one_span(LineKind::Clock, state.clock@, plain(Color::Cyan))]
        } else {
            Seq::empty()
        },
        ModuleSpec::Help => seq![one_span(LineKind::Help, help_text(), plain(Color::DarkGray))],
        ModuleSpec::Break => Seq::new(config.break_lines() as nat, |i: int| blank_line()),
        ModuleSpec::Selected => if optional && 0 <= selected < config_selection(config).len() {
            seq![
                one_span(
                    LineKind::Preview,
                    preview_text(config_selection(config)[selected].1, state.home@),
                    plain(Color::Yellow),
                ),
            ]
        } else {
            Seq::empty()
        },
        ModuleSpec::Quit => Seq::empty(),
        ModuleSpec::SystemInfo => if optional {
            text_lines(strings_view(state.system_info@), LineKind::SystemInfo, plain(Color::Magenta))
        } else {
            Seq::empty()
        },
        ModuleSpec::Quote => if optional && 0 <= quote < state.quotes@.len() {
            report_lines(state.quotes@[quote], LineKind::Quote, quoted())
        } else {
            Seq::empty()
        },
        ModuleSpec::Uptime => if optional {
            text_lines(strings_view(state.uptime@), LineKind::Uptime, plain(Color::Green))
        } else {
            Seq::empty()
        },
        ModuleSpec::DiskUsage => if optional {
            report_lines(state.disk_usage, LineKind::DiskUsage, plain(Color::Cyan))
        } else {
            Seq::empty()
        },
        ModuleSpec::Memory => if optional {
            text_lines(strings_view(state.memory@), LineKind::Memory, plain(Color::LightBlue))
        } else {
            Seq::empty()
        },
    }
}

/// The display lines of a build list: the lines of each module, in build
/// order. The entries of a module are numbered on from the entries of all
/// modules before it, and so are the quotation modules.
pub open spec fn render_lines(
    build: Seq<ModuleSpec>,
    config: &Config,
    selected: int,
    state: &ModuleState,
) -> Seq<LineView>
    decreases build.len(),
{
    if build.len() == 0 {
        Seq::empty()
    } else {
        render_lines(build.drop_last(), config, selected, state) + module_lines(
            build.last(),
            config,
            selected,
            state,
            flatten(build.drop_last(), config.registry()).len() as int,
            quote_count(build.drop_last()) as int,
        )
    }
}

/// Flattening a prefix of a build list gives no more entries than
/// flattening the whole.
pub proof fn lemma_flatten_prefix_len(build: Seq<ModuleSpec>, k: int, registry: Registry)
    requires
        0 <= k <= build.len(),
    ensures
        flatten(build.take(k), registry).len() <= flatten(build, registry).len(),
{
    lemma_flatten_concat(build.take(k), build.skip(k), registry);
    assert(build.take(k) + build.skip(k) =~= build);
}

fn style_plain(fg: Color) -> (style: Style)
    ensures
        style == plain(fg),
{
    Style { fg: Some(fg), bg: None, bold: false, italic: false }
}

fn single(kind: LineKind, text: String, style: Style) -> (line: DisplayLine)
    ensures
        line@ == one_span(kind, text@, style),
{
    let mut spans: Vec<Span> = Vec::new();
    spans.push(Span { text, style });
    let line = DisplayLine { kind, spans };
    proof {
        assert(line@.spans =~= seq![SpanView { text: text@, style }]);
    }
    line
}

fn push_line(lines: &mut Vec<DisplayLine>, line: DisplayLine)
    ensures
        lines_view(final(lines)@) == lines_view(old(lines)@).push(line@),
        lines_view(final(lines)@) == lines_view(old(lines)@) + seq![line@],
{
    lines.push(line);
    proof {
        assert(lines_view(lines@) =~= lines_view(old(lines)@).push(line@));
        assert(lines_view(old(lines)@).push(line@) =~= lines_view(old(lines)@) + seq![line@]);
    }
}

fn push_texts(lines: &mut Vec<DisplayLine>, texts: &Vec<String>, kind: LineKind, style: Style)
    ensures
        lines_view(final(lines)@) == lines_view(old(lines)@) + text_lines(
            strings_view(texts@),
            kind,
            style,
        ),
{
    let ghost all = text_lines(strings_view(texts@), kind, style);
    let mut i: usize = 0;
    proof {
        assert(lines_view(lines@) =~= lines_view(old(lines)@) + all.take(0));
    }
    while i < texts.len()
        invariant
            i <= texts@.len(),
            all == text_lines(strings_view(texts@), kind, style),
            lines_view(lines@) == lines_view(old(lines)@) + all.take(i as int),
        decreases texts@.len() - i,
    {
        push_line(lines, single(kind, texts[i].clone(), style));
        proof {
            assert(all.take(i + 1) =~= all.take(i as int).push(all[i as int]));
            assert(lines_view(lines@) =~= lines_view(old(lines)@) + all.take(i + 1));
        }
        i += 1;
    }
    proof {
        assert(all.take(i as int) =~= all);
    }
}

fn push_report(lines: &mut Vec<DisplayLine>, report: &Report, kind: LineKind, style: Style)
    ensures
        lines_view(final(lines)@) == lines_view(old(lines)@) + report_lines(*report, kind, style),
{
    let shown = if report.dimmed {
        style_plain(Color::DarkGray)
    } else {
        style
    };
    push_texts(lines, &report.lines, kind, shown);
}

fn entry_text(name: &str) -> (text: String)
    ensures
        text@ == "> "@ + name@ + "  "@,
{
    let mut text = owned("> ");
    text.append(name);
    text.append("  ");
    text
}

fn push_entries(lines: &mut Vec<DisplayLine>, items: &[MenuItem], start: usize, selected: usize)
    requires
        start + items@.len() <= usize::MAX,
    ensures
        lines_view(final(lines)@) == lines_view(old(lines)@) + entry_lines(
            items_view(items@),
            start as int,
            selected as int,
        ),
{
    let ghost all = entry_lines(items_view(items@), start as int, selected as int);
    let mut k: usize = 0;
    proof {
        assert(lines_view(lines@) =~= lines_view(old(lines)@) + all.take(0));
    }
    while k < items.len()
        invariant
            k <= items@.len(),
            start + items@.len() <= usize::MAX,
            all == entry_lines(items_view(items@), start as int, selected as int),
            lines_view(lines@) == lines_view(old(lines)@) + all.take(k as int),
        decreases items@.len() - k,
    {
        let position = start + k;
        let is_selected = position == selected;
        let style = if is_selected {
            Style { fg: Some(Color::Black), bg: Some(Color::Cyan), bold: true, italic: false }
        } else {
            style_plain(Color::White)
        };
        let line = single(
            LineKind::Entry { position, selected: is_selected },
            entry_text(items[k].name.as_str()),
            style,
        );
        push_line(lines, line);
        proof {
            assert(line@ == all[k as int]);
            assert(all.take(k + 1) =~= all.take(k as int).push(all[k as int]));
            assert(lines_view(lines@) =~= lines_view(old(lines)@) + all.take(k + 1));
        }
        k += 1;
    }
    proof {
        assert(all.take(k as int) =~= all);
    }
}

fn palette_colors() -> (colors: Vec<Color>)
    ensures
        colors@ == palette(),
{
    let mut colors: Vec<Color> = Vec::new();
    colors.push(Color::Black);
    colors.push(Color::Red);
    colors.push(Color::Green);
    colors.push(Color::Yellow);
    colors.push(Color::Blue);
    colors.push(Color::Magenta);
    colors.push(Color::Cyan);
    colors.push(Color::White);
    proof {
        assert(colors@ =~= palette());
    }
    colors
}

fn swatches(glyph: &str, colors: &Vec<Color>, from: usize, to: usize) -> (line: DisplayLine)
    requires
        from <= to <= colors@.len(),
    ensures
        line@ == swatch_line(glyph@, colors@.subrange(from as int, to as int)),
{
    let mut spans: Vec<Span> = Vec::new();
    let mut i: usize = from;
    while i < to
        invariant
            from <= i <= to <= colors@.len(),
            spans@.len() == i - from,
            forall|j: int|
                0 <= j < i - from ==> #[trigger] spans@[j]@ == (SpanView {
                    text: glyph@,
                    style: plain(colors@[from + j]),
                }),
        decreases to - i,
    {
        spans.push(Span { text: owned(glyph), style: style_plain(colors[i]) });
        i += 1;
    }
    let line = DisplayLine { kind: LineKind::Colors, spans };
    proof {
        assert(line@.spans =~= swatch_line(
            glyph@,
            colors@.subrange(from as int, to as int),
        ).spans);
    }
    line
}

/// The colour swatches in the given shape.
pub fn render_terminal_colors_lines(shape: ColorShape) -> (lines: Vec<DisplayLine>)
    ensures
        lines_view(lines@) == color_lines(shape),
{
    let colors = palette_colors();
    let mut lines: Vec<DisplayLine> = Vec::new();
    match shape {
        ColorShape::Circles => {
            let row = swatches("● ", &colors, 0, 8);
            proof {
                assert(colors@.subrange(0, 8) =~= palette());
            }
            lines.push(row);
        },
        ColorShape::Squares => {
            lines.push(swatches("■ ", &colors, 0, 4));
            lines.push(swatches("■ ", &colors, 4, 8));
        },
    }
    proof {
        assert(lines_view(lines@) =~= color_lines(shape));
    }
    lines
}

fn push_lines(lines: &mut Vec<DisplayLine>, more: Vec<DisplayLine>)
    ensures
        lines_view(final(lines)@) == lines_view(old(lines)@) + lines_view(more@),
{
    let mut more = more;
    let ghost added = lines_view(more@);
    lines.append(&mut more);
    proof {
        assert(lines_view(lines@) =~= lines_view(old(lines)@) + added);
    }
}

fn push_blank(lines: &mut Vec<DisplayLine>, count: usize)
    ensures
        lines_view(final(lines)@) == lines_view(old(lines)@) + Seq::new(
            count as nat,
            |i: int| blank_line(),
        ),
{
    let ghost all = Seq::new(count as nat, |i: int| blank_line());
    let mut i: usize = 0;
    proof {
        assert(lines_view(lines@) =~= lines_view(old(lines)@) + all.take(0));
    }
    while i < count
        invariant
            i <= count,
            all == Seq::new(count as nat, |i: int| blank_line()),
            lines_view(lines@) == lines_view(old(lines)@) + all.take(i as int),
        decreases count - i,
    {
        let line = DisplayLine { kind: LineKind::Blank, spans: Vec::new() };
        proof {
            assert(line@.spans =~= Seq::<SpanView>::empty());
        }
        push_line(lines, line);
        proof {
            assert(all.take(i + 1) =~= all.take(i as int).push(all[i as int]));
            assert(lines_view(lines@) =~= lines_view(old(lines)@) + all.take(i + 1));
        }
        i += 1;
    }
    proof {
        assert(all.take(i as int) =~= all);
    }
}

/// The text of the preview line for `item`, with `home` as the home
/// directory.
pub fn preview_line_text(item: &MenuItem, home: &str) -> (text: String)
    ensures
        text@ == preview_text(item@, home@),
{
    let mut text = owned("Selected: ");
    if item.command.as_str().is_empty() {
        let name = item.name.as_str();
        if same_text(name, "Quit") {
            text.append("Exit application");
        } else if same_text(name, "Edit Dott Config") {
            text.append("Edit dott config in nvim");
        } else if same_text(name, "View Shell") {
            text.append("View shell config in nvim");
        } else {
            text.append("No command");
        }
    } else {
        let mut shown = item.command.clone();
        let ghost args = expand_all(item@.args, home@);
        let mut i: usize = 0;
        proof {
            assert(args.take(0) =~= Seq::<Seq<char>>::empty());
            assert(shown@ =~= item@.command + spaced(args.take(0)));
        }
        while i < item.args.len()
            invariant
                i <= item.args@.len(),
                args == expand_all(item@.args, home@),
                args.len() == item.args@.len(),
                shown@ == item@.command + spaced(args.take(i as int)),
            decreases item.args@.len() - i,
        {
            proof {
                assert(args.take(i + 1).drop_last() =~= args.take(i as int));
                assert(args.take(i + 1).last() == expand_home(item.args@[i as int]@, home@));
            }
            shown.append(" ");
            shown.append(expand_tilde(item.args[i].as_str(), home).as_str());
            proof {
                assert(shown@ =~= item@.command + spaced(args.take(i + 1)));
            }
            i += 1;
        }
        proof {
            assert(args.take(i as int) =~= args);
        }
        text.append(shown.as_str());
    }
    text
}

/// Renders one frame: the lines of every module of the build list, in
/// build order, with the entry under the cursor highlighted.
pub fn render(app: &App, state: &ModuleState) -> (lines: Vec<DisplayLine>)
    requires
        app.wf(),
    ensures
        lines_view(lines@) == render_lines(
            app.config_spec().build_list(),
            &app.config_spec(),
            app.selected_index(),
            state,
        ),
        lines_view(lines@).filter(|l: LineView| is_entry_line(l)) == selectable_lines(
            app.selection(),
            app.selected_index(),
        ),
{
    let config = app.config();
    let selected = app.selected();
    let modules = config.get_ordered_modules();
    let ghost build = config.build_list();
    let ghost registry = config.registry();
    let mut lines: Vec<DisplayLine> = Vec::new();
    let mut current_entry_index: usize = 0;
    let mut quote_index: usize = 0;
    let mut i: usize = 0;
    let total = app.entry_count();
    proof {
        assert(build.take(0) =~= Seq::<ModuleSpec>::empty());
        assert(lines_view(lines@) =~= Seq::<LineView>::empty());
    }
    while i < modules.len()
        invariant
            i <= modules@.len(),
            app.wf(),
            *config == app.config_spec(),
            selected == app.selected_index(),
            total == app.selection().len(),
            build == config.build_list(),
            build == modules_view(modules@),
            registry == config.registry(),
            current_entry_index == flatten(build.take(i as int), registry).len(),
            quote_index == quote_count(build.take(i as int)),
            quote_index <= i,
            lines_view(lines@) == render_lines(build.take(i as int), config, selected as int, state),
        decreases modules@.len() - i,
    {
        proof {
            assert(build.take(i + 1).drop_last() =~= build.take(i as int));
            assert(build.take(i + 1).last() == modules@[i as int]@);
            lemma_flatten_prefix_len(build, i + 1, registry);
        }
        let ghost before = lines_view(lines@);
        let ghost here = module_lines(
            modules@[i as int]@,
            config,
            selected as int,
            state,
            current_entry_index as int,
            quote_index as int,
        );
        match &modules[i].module_type {
            ModuleType::Logo(variant) => {
                match variant {
                    LogoType::Default => push_texts(
                        &mut lines,
                        &state.logo_default,
                        LineKind::Logo,
                        style_plain(Color::Cyan),
                    ),
                    LogoType::Custom => push_texts(
                        &mut lines,
                        &state.logo_custom,
                        LineKind::Logo,
                        style_plain(Color::Cyan),
                    ),
                    LogoType::Image => push_texts(
                        &mut lines,
                        &state.logo_image,
                        LineKind::Logo,
                        style_plain(Color::Cyan),
                    ),
                }
            },
            ModuleType::Entries(group_name) => {
                let entries = config.get_entries(group_name.as_str());
                proof {
                    assert(module_entries(modules@[i as int]@, registry).len() == entries@.len());
                }
                push_entries(&mut lines, entries, current_entry_index, selected);
                current_entry_index = current_entry_index + entries.len();
            },
            ModuleType::Colors => {
                match &config.custom {
                    Some(custom) => push_lines(
                        &mut lines,
                        render_terminal_colors_lines(custom.terminal_colors.shape),
                    ),
                    None => {},
                }
            },
            ModuleType::Clock => {
                if config.custom.is_some() {
                    push_line(
                        &mut lines,
                        single(LineKind::Clock, state.clock.clone(), style_plain(Color::Cyan)),
                    );
                }
            },
            ModuleType::Help => {
                push_line(
                    &mut lines,
                    single(
                        LineKind::Help,
                        owned(
                            "↑/k: Up | ↓/j: Down | Enter: Select | u: Reload Config | q/Esc: Quit",
                        ),
                        style_plain(Color::DarkGray),
                    ),
                );
            },
            ModuleType::Selected => {
                if config.custom.is_some() {
                    match app.get_selected_item() {
                        Some(item) => push_line(
                            &mut lines,
                            single(
                                LineKind::Preview,
                                preview_line_text(item, state.home.as_str()),
                                style_plain(Color::Yellow),
                            ),
                        ),
                        None => {},
                    }
                }
            },
            ModuleType::Break => {
                push_blank(&mut lines, config.get_break_lines());
            },
            ModuleType::Quit => {},
            ModuleType::SystemInfo => {
                if config.custom.is_some() {
                    push_texts(
                        &mut lines,
                        &state.system_info,
                        LineKind::SystemInfo,
                        style_plain(Color::Magenta),
                    );
                }
            },
            ModuleType::Quote => {
                if config.custom.is_some() && quote_index < state.quotes.len() {
                    push_report(
                        &mut lines,
                        &state.quotes[quote_index],
                        LineKind::Quote,
                        Style { fg: Some(Color::Yellow), bg: None, bold: false, italic: true },
                    );
                }
                quote_index = quote_index + 1;
            },
            ModuleType::Uptime => {
                if config.custom.is_some() {
                    push_texts(
                        &mut lines,
                        &state.uptime,
                        LineKind::Uptime,
                        style_plain(Color::Green),
                    );
                }
            },
            ModuleType::DiskUsage => {
                if config.custom.is_some() {
                    push_report(
                        &mut lines,
                        &state.disk_usage,
                        LineKind::DiskUsage,
                        style_plain(Color::Cyan),
                    );
                }
            },
            ModuleType::Memory => {
                if config.custom.is_some() {
                    push_texts(
                        &mut lines,
                        &state.memory,
                        LineKind::Memory,
                        style_plain(Color::LightBlue),
                    );
                }
            },
        }
        proof {
            assert(lines_view(lines@) =~= before + here);
        }
        i += 1;
    }
    proof {
        assert(build.take(i as int) =~= build);
        lemma_render_matches_selection(build, config, selected as int, state);
    }
    lines
}

/// Whether a display line is the line of a selectable entry.
pub open spec fn is_entry_line(line: LineView) -> bool {
    line.kind is Entry
}

/// The entry lines that a selection calls for: one for each of its
/// elements, numbered from zero, the one under the cursor highlighted.
pub open spec fn selectable_lines(selection: Seq<Selected>, selected: int) -> Seq<LineView> {
    Seq::new(selection.len(), |i: int| entry_line(selection[i].1.name, i, selected))
}

proof fn lemma_filter_keeps_all(lines: Seq<LineView>)
    requires
        forall|i: int| 0 <= i < lines.len() ==> is_entry_line(#[trigger] lines[i]),
    ensures
        lines.filter(|l: LineView| is_entry_line(l)) == lines,
    decreases lines.len(),
{
    let pred = |l: LineView| is_entry_line(l);
    reveal(Seq::filter);
    if lines.len() > 0 {
        lemma_filter_keeps_all(lines.drop_last());
        assert(pred(lines.last()));
        assert(lines.drop_last().push(lines.last()) =~= lines);
    }
}

proof fn lemma_filter_drops_all(lines: Seq<LineView>)
    requires
        forall|i: int| 0 <= i < lines.len() ==> !is_entry_line(#[trigger] lines[i]),
    ensures
        lines.filter(|l: LineView| is_entry_line(l)) == Seq::<LineView>::empty(),
    decreases lines.len(),
{
    let pred = |l: LineView| is_entry_line(l);
    reveal(Seq::filter);
    if lines.len() > 0 {
        lemma_filter_drops_all(lines.drop_last());
        assert(!pred(lines.last()));
    }
}

/// Among the lines of one module, the entry lines are exactly the lines of
/// the entries that the module adds to the selection.
proof fn lemma_module_entry_lines(
    module: ModuleSpec,
    config: &Config,
    selected: int,
    state: &ModuleState,
    start: int,
    quote: int,
)
    ensures
        module_lines(module, config, selected, state, start, quote).filter(
            |l: LineView| is_entry_line(l),
        ) == Seq::new(
            module_entries(module, config.registry()).len(),
            |k: int|
                entry_line(module_entries(module, config.registry())[k].1.name, start + k, selected),
        ),
{
    let lines = module_lines(module, config, selected, state, start, quote);
    let added = module_entries(module, config.registry());
    let wanted = Seq::new(
        added.len(),
        |k: int| entry_line(added[k].1.name, start + k, selected),
    );
    match module {
        ModuleSpec::EntryGroup(group) => {
            lemma_filter_keeps_all(lines);
            assert(lines =~= wanted);
        },
        _ => {
            if let ModuleSpec::Colors = module {
                if config.custom is Some {
                    let shape = config.custom->0.terminal_colors.shape;
                    assert(forall|i: int|
                        0 <= i < color_lines(shape).len() ==> (#[trigger] color_lines(
                            shape,
                        )[i]).kind == LineKind::Colors);
                }
            }
            lemma_filter_drops_all(lines);
            assert(wanted =~= Seq::<LineView>::empty());
        },
    }
}

/// The render pass and the flattened selection agree: the entry lines of a
/// frame, in order, are the lines of the elements of the selection, one for
/// one, each at its own position, and the highlight is on the line whose
/// position is the cursor's.
pub proof fn lemma_render_matches_selection(
    build: Seq<ModuleSpec>,
    config: &Config,
    selected: int,
    state: &ModuleState,
)
    ensures
        render_lines(build, config, selected, state).filter(|l: LineView| is_entry_line(l))
            == selectable_lines(flatten(build, config.registry()), selected),
        render_lines(build, config, selected, state).filter(|l: LineView| is_entry_line(l)).len()
            == flatten(build, config.registry()).len(),
    decreases build.len(),
{
    let pred = |l: LineView| is_entry_line(l);
    let registry = config.registry();
    if build.len() == 0 {
        reveal(Seq::filter);
        assert(selectable_lines(flatten(build, registry), selected) =~= Seq::<LineView>::empty());
    } else {
        let before = build.drop_last();
        let start = flatten(before, registry).len() as int;
        let quote = quote_count(before) as int;
        let here = module_lines(build.last(), config, selected, state, start, quote);
        lemma_render_matches_selection(before, config, selected, state);
        lemma_module_entry_lines(build.last(), config, selected, state, start, quote);
        Seq::filter_distributes_over_add(
            render_lines(before, config, selected, state),
            here,
            pred,
        );
        assert(selectable_lines(flatten(build, registry), selected) =~= selectable_lines(
            flatten(before, registry),
            selected,
        ) + here.filter(pred));
    }
}

/// The render pass visits the modules in build order: the lines of the
/// module at place `k` come straight after the lines of all modules before
/// it, and its entries and its quotation are numbered on from theirs.
pub proof fn lemma_render_in_build_order(
    build: Seq<ModuleSpec>,
    k: int,
    config: &Config,
    selected: int,
    state: &ModuleState,
)
    requires
        0 <= k < build.len(),
    ensures
        render_lines(build.take(k + 1), config, selected, state) == render_lines(
            build.take(k),
            config,
            selected,
            state,
        ) + module_lines(
            build[k],
            config,
            selected,
            state,
            flatten(build.take(k), config.registry()).len() as int,
            quote_count(build.take(k)) as int,
        ),
{
    assert(build.take(k + 1).drop_last() =~= build.take(k));
    assert(build.take(k + 1).last() == build[k]);
}

} // verus!
