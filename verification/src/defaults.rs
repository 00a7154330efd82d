//! The values that a configuration takes where the file says nothing.

use vstd::prelude::*;
use crate::config::{
    BreakConfig, ColorShape, Config, DiskUsageConfig, LogoType, MenuItem, MenuItemView, Position,
    QuoteConfig, Structure, StructureBuildItem, TerminalColorsConfig, items_view,
};
use crate::text::owned;

verus! {

/// The screen is centred unless told otherwise.
pub fn default_position() -> (position: Position)
    ensures
        position == Position::Center,
{
    Position::Center
}

/// The tokens of the build list used when the file gives none.
pub open spec fn default_build_tokens() -> Seq<Seq<char>> {
    seq!["logo"@, "entries"@, "help"@]
}

/// Logo, first entry group, help line.
pub fn default_build() -> (build: Vec<StructureBuildItem>)
    ensures
        build@.len() == 3,
        build@[0].module@ == "logo"@,
        build@[1].module@ == "entries"@,
        build@[2].module@ == "help"@,
{
    let mut build: Vec<StructureBuildItem> = Vec::new();
    build.push(StructureBuildItem { module: owned("logo") });
    build.push(StructureBuildItem { module: owned("entries") });
    build.push(StructureBuildItem { module: owned("help") });
    build
}

/// Centred, with the default build list and no font.
pub fn default_structure() -> (structure: Structure)
    ensures
        structure.position == Position::Center,
        structure.font is None,
        structure.build@.len() == 3,
        structure.build@[0].module@ == "logo"@,
        structure.build@[1].module@ == "entries"@,
        structure.build@[2].module@ == "help"@,
{
    Structure { position: default_position(), build: default_build(), font: None }
}

pub fn default_color_shape() -> (shape: ColorShape)
    ensures
        shape == ColorShape::Circles,
{
    ColorShape::Circles
}

pub fn default_terminal_colors() -> (colors: TerminalColorsConfig)
    ensures
        colors.shape == ColorShape::Circles,
{
    TerminalColorsConfig { shape: default_color_shape() }
}

pub fn default_break_lines() -> (lines: usize)
    ensures
        lines == 2,
{
    2
}

pub fn default_break_config() -> (config: BreakConfig)
    ensures
        config.lines == 2,
{
    BreakConfig { lines: default_break_lines() }
}

pub fn default_logo_type() -> (logo: LogoType)
    ensures
        logo == LogoType::Default,
{
    LogoType::Default
}

pub fn default_logo_path() -> (path: Option<String>)
    ensures
        path is None,
{
    None
}

pub fn default_image_path() -> (path: Option<String>)
    ensures
        path is None,
{
    None
}

/// An entry without arguments.
pub open spec fn plain_item(name: Seq<char>, command: Seq<char>) -> MenuItemView {
    MenuItemView { name, command, args: Seq::empty() }
}

/// The four entries of a fresh configuration.
pub open spec fn default_entries_view() -> Seq<MenuItemView> {
    seq![
        MenuItemView { name: "View Dotfiles"@, command: "yazi"@, args: seq!["~/.config"@] },
        plain_item("Edit Dott Config"@, ""@),
        plain_item("View Shell"@, ""@),
        plain_item("Quit"@, ""@),
    ]
}

fn built_in(name: &str) -> (item: MenuItem)
    ensures
        item@ == plain_item(name@, ""@),
{
    let item = MenuItem { name: owned(name), command: owned(""), args: Vec::new() };
    proof {
        assert(item@.args =~= Seq::<Seq<char>>::empty());
    }
    item
}

/// A file browser on the configuration directory, then the three built-in
/// actions.
pub fn default_entries() -> (entries: Vec<MenuItem>)
    ensures
        items_view(entries@) == default_entries_view(),
{
    let mut args: Vec<String> = Vec::new();
    args.push(owned("~/.config"));
    let first = MenuItem { name: owned("View Dotfiles"), command: owned("yazi"), args };
    proof {
        assert(first@.args =~= seq!["~/.config"@]);
    }
    let mut entries: Vec<MenuItem> = Vec::new();
    entries.push(first);
    entries.push(built_in("Edit Dott Config"));
    entries.push(built_in("View Shell"));
    entries.push(built_in("Quit"));
    proof {
        assert(items_view(entries@) =~= default_entries_view());
    }
    entries
}

/// The quotations offered when the optional section names none.
pub open spec fn default_quotes_view() -> Seq<Seq<char>> {
    seq![
        "The only way to do great work is to love what you do. - Steve Jobs"@,
        "Innovation distinguishes between a leader and a follower. - Steve Jobs"@,
        "Stay hungry, stay foolish. - Steve Jobs"@,
        "Code is like humor. When you have to explain it, it's bad. - Cory House"@,
        "First, solve the problem. Then, write the code. - John Johnson"@,
    ]
}

impl Default for QuoteConfig {
    fn default() -> (config: QuoteConfig)
        ensures
            config.quotes@.len() == 5,
            forall|i: int| 0 <= i < 5 ==> #[trigger] config.quotes@[i]@ == default_quotes_view()[i],
    {
        let mut quotes: Vec<String> = Vec::new();
        quotes.push(owned("The only way to do great work is to love what you do. - Steve Jobs"));
        quotes.push(
            owned("Innovation distinguishes between a leader and a follower. - Steve Jobs"),
        );
        quotes.push(owned("Stay hungry, stay foolish. - Steve Jobs"));
        quotes.push(
            owned("Code is like humor. When you have to explain it, it's bad. - Cory House"),
        );
        quotes.push(owned("First, solve the problem. Then, write the code. - John Johnson"));
        QuoteConfig { quotes }
    }
}

impl Default for DiskUsageConfig {
    fn default() -> (config: DiskUsageConfig)
        ensures
            config.path@ == "/"@,
    {
        DiskUsageConfig { path: owned("/") }
    }
}

impl Default for Config {
    fn default() -> (config: Config)
        ensures
            config.build_tokens() == default_build_tokens(),
            config.structure.position == Position::Center,
            config.structure.font is None,
            config.logo_type == LogoType::Default,
            config.custom_logo_path is None,
            config.image_logo_path is None,
            config.registry().entries == default_entries_view(),
            config.entries2@.len() == 0,
            config.entries3@.len() == 0,
            config.entries4@.len() == 0,
            config.entries5@.len() == 0,
            config.custom is None,
    {
        let config = Config {
            structure: default_structure(),
            logo_type: default_logo_type(),
            custom_logo_path: default_logo_path(),
            image_logo_path: default_image_path(),
            entries: default_entries(),
            entries2: Vec::new(),
            entries3: Vec::new(),
            entries4: Vec::new(),
            entries5: Vec::new(),
            custom: None,
        };
        proof {
            assert(config.build_tokens() =~= default_build_tokens());
        }
        config
    }
}

} // verus!
