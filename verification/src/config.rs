//! The launcher's configuration and the parser that turns its build list
//! into an ordered sequence of modules.

use vstd::prelude::*;
use crate::text::{begins_with, is_prefix, same_text, strings_view};

verus! {

/// Which logo a logo module shows.
#[derive(Debug, Clone, Copy, PartialEq, Eq, Structural)]
pub enum LogoType {
    Default,
    Custom,
    Image,
}

/// Horizontal placement of the composed screen.
#[derive(Debug, Clone, Copy, PartialEq, Eq, Structural)]
pub enum Position {
    Center,
    Left,
    Right,
}

/// How the terminal colour swatches are drawn.
#[derive(Debug, Clone, Copy, PartialEq, Eq, Structural)]
pub enum ColorShape {
    Circles,
    Squares,
}

/// One launchable entry of an entry group. An empty `command` marks a
/// built-in action that is found by `name`.
#[derive(Debug, Clone, PartialEq, Eq)]
pub struct MenuItem {
    pub name: String,
    pub command: String,
    pub args: Vec<String>,
}

/// The mathematical value of a [`MenuItem`].
pub struct MenuItemView {
    pub name: Seq<char>,
    pub command: Seq<char>,
    pub args: Seq<Seq<char>>,
}

impl View for MenuItem {
    type V = MenuItemView;

    open spec fn view(&self) -> MenuItemView {
        MenuItemView {
            name: self.name@,
            command: self.command@,
            args: strings_view(self.args@),
        }
    }
}

/// The views of a sequence of entries, in order.
pub open spec fn items_view(items: Seq<MenuItem>) -> Seq<MenuItemView> {
    Seq::new(items.len(), |i: int| items[i]@)
}


/// One element of the build list as written in the configuration.
#[derive(Debug, Clone, PartialEq, Eq)]
pub struct StructureBuildItem {
    pub module: String,
}

/// The layout section: placement, the ordered build list and an optional font.
#[derive(Debug, Clone, PartialEq, Eq)]
pub struct Structure {
    pub position: Position,
    pub build: Vec<StructureBuildItem>,
    pub font: Option<String>,
}

#[derive(Debug, Clone, PartialEq, Eq)]
pub struct TerminalColorsConfig {
    pub shape: ColorShape,
}

#[derive(Debug, Clone, Default, PartialEq, Eq)]
pub struct ClockConfig {}

#[derive(Debug, Clone, PartialEq, Eq)]
pub struct BreakConfig {
    pub lines: usize,
}

#[derive(Debug, Clone, Default, PartialEq, Eq)]
pub struct SelectedConfig {}

#[derive(Debug, Clone, Default, PartialEq, Eq)]
pub struct SystemInfoConfig {}

#[derive(Debug, Clone, PartialEq, Eq)]
pub struct QuoteConfig {
    pub quotes: Vec<String>,
}

#[derive(Debug, Clone, Default, PartialEq, Eq)]
pub struct UptimeConfig {}

#[derive(Debug, Clone, PartialEq, Eq)]
pub struct DiskUsageConfig {
    pub path: String,
}

#[derive(Debug, Clone, Default, PartialEq, Eq)]
pub struct MemoryConfig {}

/// The optional section whose presence switches the optional modules on.
#[derive(Debug, Clone, PartialEq, Eq)]
pub struct CustomModules {
    pub terminal_colors: TerminalColorsConfig,
    pub clock: ClockConfig,
    pub break_: BreakConfig,
    pub selected: SelectedConfig,
    pub system_info: SystemInfoConfig,
    pub quote: QuoteConfig,
    pub uptime: UptimeConfig,
    pub disk_usage: DiskUsageConfig,
    pub memory: MemoryConfig,
}

/// The whole configuration: layout, logo choice, five entry groups and the
/// optional section.
#[derive(Debug, Clone, PartialEq, Eq)]
pub struct Config {
    pub structure: Structure,
    pub logo_type: LogoType,
    pub custom_logo_path: Option<String>,
    pub image_logo_path: Option<String>,
    pub entries: Vec<MenuItem>,
    pub entries2: Vec<MenuItem>,
    pub entries3: Vec<MenuItem>,
    pub entries4: Vec<MenuItem>,
    pub entries5: Vec<MenuItem>,
    pub custom: Option<CustomModules>,
}

/// What a module is, once its token has been read.
#[derive(Debug, Clone, PartialEq, Eq)]
pub enum ModuleType {
    Logo(LogoType),
    /// Names the entry group that the module shows.
    Entries(String),
    Colors,
    Clock,
    Help,
    Break,
    Selected,
    Quit,
    SystemInfo,
    Quote,
    Uptime,
    DiskUsage,
    Memory,
}

/// One module of the composed screen, at its place in the build order.
#[derive(Debug, Clone, PartialEq, Eq)]
pub struct OrderedModule {
    pub module_type: ModuleType,
}

/// The mathematical value of a module: its kind, with an entry group
/// referred to by the characters of its name.
pub enum ModuleSpec {
    Logo(LogoType),
    EntryGroup(Seq<char>),
    Colors,
    Clock,
    Help,
    Break,
    Selected,
    Quit,
    SystemInfo,
    Quote,
    Uptime,
    DiskUsage,
    Memory,
}

impl View for ModuleType {
    type V = ModuleSpec;

    open spec fn view(&self) -> ModuleSpec {
        match *self {
            ModuleType::Logo(t) => ModuleSpec::Logo(t),
            ModuleType::Entries(name) => ModuleSpec::EntryGroup(name@),
            ModuleType::Colors => ModuleSpec::Colors,
            ModuleType::Clock => ModuleSpec::Clock,
            ModuleType::Help => ModuleSpec::Help,
            ModuleType::Break => ModuleSpec::Break,
            ModuleType::Selected => ModuleSpec::Selected,
            ModuleType::Quit => ModuleSpec::Quit,
            ModuleType::SystemInfo => ModuleSpec::SystemInfo,
            ModuleType::Quote => ModuleSpec::Quote,
            ModuleType::Uptime => ModuleSpec::Uptime,
            ModuleType::DiskUsage => ModuleSpec::DiskUsage,
            ModuleType::Memory => ModuleSpec::Memory,
        }
    }
}

impl View for OrderedModule {
    type V = ModuleSpec;

    open spec fn view(&self) -> ModuleSpec {
        self.module_type@
    }
}

/// The views of a sequence of modules, in order: the build list.
pub open spec fn modules_view(modules: Seq<OrderedModule>) -> Seq<ModuleSpec> {
    Seq::new(modules.len(), |i: int| modules[i]@)
}

/// Whether `name` is the name of one of the five entry groups.
pub open spec fn is_group_name(name: Seq<char>) -> bool {
    name == "entries"@ || name == "entries2"@ || name == "entries3"@ || name == "entries4"@
        || name == "entries5"@
}

/// The logo that a logo token asks for: the variant it spells out after the
/// colon if that is a known one, else the configuration's own.
pub open spec fn logo_choice(token: Seq<char>, top: LogoType) -> LogoType {
    if token == "logo:default"@ {
        LogoType::Default
    } else if token == "logo:custom"@ {
        LogoType::Custom
    } else if token == "logo:image"@ {
        LogoType::Image
    } else {
        top
    }
}

/// The module that a token of the build list stands for, or `None` for a
/// token outside the vocabulary. Matching is exact and case-sensitive.
pub open spec fn parse_token(token: Seq<char>, top: LogoType) -> Option<ModuleSpec> {
    if token == "logo"@ || is_prefix("logo:"@, token) {
        Some(ModuleSpec::Logo(logo_choice(token, top)))
    } else if is_group_name(token) {
        Some(ModuleSpec::EntryGroup(token))
    } else if token == "colors"@ {
        Some(ModuleSpec::Colors)
    } else if token == "clock"@ {
        Some(ModuleSpec::Clock)
    } else if token == "help"@ {
        Some(ModuleSpec::Help)
    } else if token == "break"@ {
        Some(ModuleSpec::Break)
    } else if token == "selected"@ {
        Some(ModuleSpec::Selected)
    } else if token == "quit"@ {
        Some(ModuleSpec::Quit)
    } else if token == "system_info"@ || token == "systeminfo"@ {
        Some(ModuleSpec::SystemInfo)
    } else if token == "quote"@ {
        Some(ModuleSpec::Quote)
    } else if token == "uptime"@ {
        Some(ModuleSpec::Uptime)
    } else if token == "disk_usage"@ || token == "diskusage"@ || token == "disk"@ {
        Some(ModuleSpec::DiskUsage)
    } else if token == "memory"@ || token == "mem"@ {
        Some(ModuleSpec::Memory)
    } else {
        None
    }
}

/// The build list that a sequence of tokens stands for: the module of every
/// recognised token, in the tokens' order; unrecognised tokens leave no trace.
pub open spec fn parse_build(tokens: Seq<Seq<char>>, top: LogoType) -> Seq<ModuleSpec>
    decreases tokens.len(),
{
    if tokens.len() == 0 {
        Seq::empty()
    } else {
        let before = parse_build(tokens.drop_last(), top);
        match parse_token(tokens.last(), top) {
            Some(m) => before.push(m),
            None => before,
        }
    }
}

/// Reads one token of the build list.
pub fn parse_module(token: &str, top: LogoType) -> (module: Option<ModuleType>)
    ensures
        module is Some <==> parse_token(token@, top) is Some,
        module is Some ==> module->0@ == parse_token(token@, top)->0,
{
    if same_text(token, "logo") || begins_with(token, "logo:") {
        let logo = if same_text(token, "logo:default") {
            LogoType::Default
        } else if same_text(token, "logo:custom") {
            LogoType::Custom
        } else if same_text(token, "logo:image") {
            LogoType::Image
        } else {
            top
        };
        Some(ModuleType::Logo(logo))
    } else if same_text(token, "entries") || same_text(token, "entries2") || same_text(
        token,
        "entries3",
    ) || same_text(token, "entries4") || same_text(token, "entries5") {
        Some(ModuleType::Entries(token.to_owned()))
    } else if same_text(token, "colors") {
        Some(ModuleType::Colors)
    } else if same_text(token, "clock") {
        Some(ModuleType::Clock)
    } else if same_text(token, "help") {
        Some(ModuleType::Help)
    } else if same_text(token, "break") {
        Some(ModuleType::Break)
    } else if same_text(token, "selected") {
        Some(ModuleType::Selected)
    } else if same_text(token, "quit") {
        Some(ModuleType::Quit)
    } else if same_text(token, "system_info") || same_text(token, "systeminfo") {
        Some(ModuleType::SystemInfo)
    } else if same_text(token, "quote") {
        Some(ModuleType::Quote)
    } else if same_text(token, "uptime") {
        Some(ModuleType::Uptime)
    } else if same_text(token, "disk_usage") || same_text(token, "diskusage") || same_text(
        token,
        "disk",
    ) {
        Some(ModuleType::DiskUsage)
    } else if same_text(token, "memory") || same_text(token, "mem") {
        Some(ModuleType::Memory)
    } else {
        None
    }
}

/// The five entry groups as mathematical sequences, in the order in which
/// their entries were registered.
pub struct Registry {
    pub entries: Seq<MenuItemView>,
    pub entries2: Seq<MenuItemView>,
    pub entries3: Seq<MenuItemView>,
    pub entries4: Seq<MenuItemView>,
    pub entries5: Seq<MenuItemView>,
}

impl Registry {
    /// The entries of the group called `name`; none for any other name.
    pub open spec fn get(self, name: Seq<char>) -> Seq<MenuItemView> {
        if name == "entries"@ {
            self.entries
        } else if name == "entries2"@ {
            self.entries2
        } else if name == "entries3"@ {
            self.entries3
        } else if name == "entries4"@ {
            self.entries4
        } else if name == "entries5"@ {
            self.entries5
        } else {
            Seq::empty()
        }
    }
}

impl Config {
    /// The tokens of the build list, in order.
    pub open spec fn build_tokens(&self) -> Seq<Seq<char>> {
        Seq::new(self.structure.build@.len(), |i: int| self.structure.build@[i].module@)
    }

    /// The build list that this configuration describes.
    pub open spec fn build_list(&self) -> Seq<ModuleSpec> {
        parse_build(self.build_tokens(), self.logo_type)
    }

    /// The entry groups of this configuration.
    pub open spec fn registry(&self) -> Registry {
        Registry {
            entries: items_view(self.entries@),
            entries2: items_view(self.entries2@),
            entries3: items_view(self.entries3@),
            entries4: items_view(self.entries4@),
            entries5: items_view(self.entries5@),
        }
    }

    /// The number of blank lines of a break module: two, unless the optional
    /// section is present and says otherwise.
    pub open spec fn break_lines(&self) -> usize {
        match self.custom {
            Some(custom) => custom.break_.lines,
            None => 2,
        }
    }

    /// The entries of the group called `name`, in registration order; none
    /// for a name that is not a group's.
    pub fn get_entries(&self, name: &str) -> (items: &[MenuItem])
        ensures
            items_view(items@) == self.registry().get(name@),
    {
        if same_text(name, "entries") {
            self.entries.as_slice()
        } else if same_text(name, "entries2") {
            self.entries2.as_slice()
        } else if same_text(name, "entries3") {
            self.entries3.as_slice()
        } else if same_text(name, "entries4") {
            self.entries4.as_slice()
        } else if same_text(name, "entries5") {
            self.entries5.as_slice()
        } else {
            let none: &[MenuItem] = &[];
            proof {
                assert(items_view(none@) =~= Seq::<MenuItemView>::empty());
            }
            none
        }
    }

    /// The modules of the build list, in its order. A token outside the
    /// vocabulary contributes nothing.
    pub fn get_ordered_modules(&self) -> (modules: Vec<OrderedModule>)
        ensures
            modules_view(modules@) == self.build_list(),
    {
        let mut modules: Vec<OrderedModule> = Vec::new();
        let ghost tokens = self.build_tokens();
        let mut i: usize = 0;
        proof {
            assert(tokens.take(0) =~= Seq::<Seq<char>>::empty());
            assert(modules_view(modules@) =~= Seq::<ModuleSpec>::empty());
        }
        while i < self.structure.build.len()
            invariant
                i <= self.structure.build@.len(),
                tokens == self.build_tokens(),
                modules_view(modules@) == parse_build(tokens.take(i as int), self.logo_type),
            decreases self.structure.build@.len() - i,
        {
            let ghost before = modules_view(modules@);
            proof {
                assert(tokens.take(i + 1).drop_last() =~= tokens.take(i as int));
                assert(tokens.take(i + 1).last() == self.structure.build@[i as int].module@);
            }
            match parse_module(self.structure.build[i].module.as_str(), self.logo_type) {
                Some(mt) => {
                    modules.push(OrderedModule { module_type: mt });
                    proof {
                        assert(modules_view(modules@) =~= before.push(mt@));
                    }
                },
                None => {},
            }
            i += 1;
        }
        proof {
            assert(tokens.take(i as int) =~= tokens);
        }
        modules
    }

    /// The number of blank lines that a break module emits.
    pub fn get_break_lines(&self) -> (lines: usize)
        ensures
            lines == self.break_lines(),
    {
        match &self.custom {
            Some(custom) => custom.break_.lines,
            None => 2,
        }
    }
}

/// Parsing goes token by token: the build list of two token lists laid end
/// to end is the first one's build list followed by the second one's.
pub proof fn lemma_parse_concat(a: Seq<Seq<char>>, b: Seq<Seq<char>>, top: LogoType)
    ensures
        parse_build(a + b, top) == parse_build(a, top) + parse_build(b, top),
    decreases b.len(),
{
    if b.len() == 0 {
        assert(a + b =~= a);
        assert(parse_build(a, top) + parse_build(b, top) =~= parse_build(a, top));
    } else {
        lemma_parse_concat(a, b.drop_last(), top);
        assert((a + b).drop_last() =~= a + b.drop_last());
        assert((a + b).last() == b.last());
        assert(parse_build(a + b, top) =~= parse_build(a, top) + parse_build(b, top));
    }
}

/// Where every token is recognised, the build list has one module for each
/// token, at the token's own place: the order of the tokens is the order of
/// the modules.
pub proof fn lemma_order_preserved(tokens: Seq<Seq<char>>, top: LogoType)
    requires
        forall|i: int| 0 <= i < tokens.len() ==> parse_token(#[trigger] tokens[i], top) is Some,
    ensures
        parse_build(tokens, top).len() == tokens.len(),
        forall|i: int|
            0 <= i < tokens.len() ==> #[trigger] parse_build(tokens, top)[i] == parse_token(
                tokens[i],
                top,
            )->0,
    decreases tokens.len(),
{
    if tokens.len() > 0 {
        let before = tokens.drop_last();
        assert forall|i: int| 0 <= i < before.len() implies parse_token(
            #[trigger] before[i],
            top,
        ) is Some by {
            assert(before[i] == tokens[i]);
        }
        lemma_order_preserved(before, top);
        assert(parse_token(tokens[tokens.len() - 1], top) is Some);
        assert forall|i: int| 0 <= i < tokens.len() implies #[trigger] parse_build(tokens, top)[i]
            == parse_token(tokens[i], top)->0 by {
            if i < before.len() {
                assert(before[i] == tokens[i]);
                assert(parse_build(tokens, top)[i] == parse_build(before, top)[i]);
            }
        }
    }
}

/// A token outside the vocabulary changes nothing: the build list is the
/// one of the tokens around it.
pub proof fn lemma_unknown_token_dropped(
    a: Seq<Seq<char>>,
    unknown: Seq<char>,
    b: Seq<Seq<char>>,
    top: LogoType,
)
    requires
        parse_token(unknown, top) is None,
    ensures
        parse_build(a + seq![unknown] + b, top) == parse_build(a + b, top),
{
    let one = seq![unknown];
    assert(one.drop_last() =~= Seq::<Seq<char>>::empty());
    assert(parse_build(one.drop_last(), top) =~= Seq::<ModuleSpec>::empty());
    assert(parse_build(one, top) =~= Seq::<ModuleSpec>::empty());
    lemma_parse_concat(a, one, top);
    lemma_parse_concat(a + one, b, top);
    lemma_parse_concat(a, b, top);
    assert(parse_build(a, top) + Seq::<ModuleSpec>::empty() =~= parse_build(a, top));
}

/// One unknown token among recognised ones is passed over in silence: the
/// build list has exactly the modules of the others, in their order.
pub proof fn lemma_unknown_token_tolerated(
    a: Seq<Seq<char>>,
    unknown: Seq<char>,
    b: Seq<Seq<char>>,
    top: LogoType,
)
    requires
        parse_token(unknown, top) is None,
        forall|i: int| 0 <= i < a.len() ==> parse_token(#[trigger] a[i], top) is Some,
        forall|i: int| 0 <= i < b.len() ==> parse_token(#[trigger] b[i], top) is Some,
    ensures
        parse_build(a + seq![unknown] + b, top).len() == a.len() + b.len(),
        forall|i: int|
            0 <= i < a.len() + b.len() ==> #[trigger] parse_build(a + seq![unknown] + b, top)[i]
                == parse_token((a + b)[i], top)->0,
{
    lemma_unknown_token_dropped(a, unknown, b, top);
    let rest = a + b;
    assert forall|i: int| 0 <= i < rest.len() implies parse_token(
        #[trigger] rest[i],
        top,
    ) is Some by {
        if i < a.len() {
            assert(rest[i] == a[i]);
        } else {
            assert(rest[i] == b[i - a.len()]);
        }
    }
    lemma_order_preserved(rest, top);
}

} // verus!
