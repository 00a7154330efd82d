//! The decisions of the event loop: what a key does to the state, and what
//! it asks of the terminal and the outside world.

use vstd::prelude::*;
use crate::app::{App, next_index, previous_index};
use crate::config::{MenuItem, MenuItemView};
use crate::selection::Selected;
use crate::text::{copy_strings, same_text, strings_view};

verus! {

/// A key press, as far as the launcher tells keys apart.
#[derive(Debug, Clone, Copy, PartialEq, Eq)]
pub enum KeyInput {
    Char(char),
    Esc,
    Up,
    Down,
    Enter,
    Other,
}

/// What a key means.
#[derive(Debug, Clone, Copy, PartialEq, Eq)]
pub enum Command {
    Quit,
    Next,
    Previous,
    Reload,
    Activate,
    Ignore,
}

/// What the loop around the state has to do after a key.
#[derive(Debug, Clone, PartialEq, Eq)]
pub enum Action {
    /// Nothing beyond drawing the next frame.
    Continue,
    /// Leave the loop.
    Exit,
    /// Read the configuration again, hand it to [`App::reload`] and redraw
    /// the whole screen.
    Reload,
    /// Suspend the terminal, open the shell's configuration file in the
    /// editor, resume.
    ViewShell,
    /// Suspend the terminal, open the launcher's configuration file in the
    /// editor, resume.
    EditConfig,
    /// Suspend the terminal, run the command with its arguments expanded,
    /// resume.
    Launch { command: String, args: Vec<String> },
}

/// The mathematical value of an [`Action`].
pub enum ActionView {
    Continue,
    Exit,
    Reload,
    ViewShell,
    EditConfig,
    Launch { command: Seq<char>, args: Seq<Seq<char>> },
}

impl View for Action {
    type V = ActionView;

    open spec fn view(&self) -> ActionView {
        match *self {
            Action::Continue => ActionView::Continue,
            Action::Exit => ActionView::Exit,
            Action::Reload => ActionView::Reload,
            Action::ViewShell => ActionView::ViewShell,
            Action::EditConfig => ActionView::EditConfig,
            Action::Launch { command, args } => ActionView::Launch {
                command: command@,
                args: strings_view(args@),
            },
        }
    }
}

/// The fixed key bindings: `q` and Escape quit, Down and `j` go on, Up and
/// `k` go back, `u` reloads, Enter activates; every other key is ignored.
pub open spec fn key_command(key: KeyInput) -> Command {
    match key {
        KeyInput::Char(c) => if c == 'q' {
            Command::Quit
        } else if c == 'j' {
            Command::Next
        } else if c == 'k' {
            Command::Previous
        } else if c == 'u' {
            Command::Reload
        } else {
            Command::Ignore
        },
        KeyInput::Esc => Command::Quit,
        KeyInput::Down => Command::Next,
        KeyInput::Up => Command::Previous,
        KeyInput::Enter => Command::Activate,
        KeyInput::Other => Command::Ignore,
    }
}

/// What activating an entry asks for. An entry without a command is a
/// built-in action if its name is one's, and does nothing otherwise; an
/// entry with a command runs it.
pub open spec fn activation(item: MenuItemView) -> ActionView {
    if item.command.len() == 0 {
        if item.name == "Quit"@ {
            ActionView::Exit
        } else if item.name == "View Shell"@ {
            ActionView::ViewShell
        } else if item.name == "Edit Dott Config"@ {
            ActionView::EditConfig
        } else {
            ActionView::Continue
        }
    } else {
        ActionView::Launch { command: item.command, args: item.args }
    }
}

/// What a key asks for, with the cursor at `selected` of `selection`.
/// Activating with nothing under the cursor asks for nothing.
pub open spec fn step_action(key: KeyInput, selection: Seq<Selected>, selected: int) -> ActionView {
    match key_command(key) {
        Command::Quit => ActionView::Exit,
        Command::Reload => ActionView::Reload,
        Command::Activate => if 0 <= selected < selection.len() {
            activation(selection[selected].1)
        } else {
            ActionView::Continue
        },
        _ => ActionView::Continue,
    }
}

/// Where a key leaves the cursor.
pub open spec fn step_index(key: KeyInput, count: int, selected: int) -> int {
    match key_command(key) {
        Command::Next => next_index(selected, count),
        Command::Previous => previous_index(selected, count),
        _ => selected,
    }
}

/// The meaning of a key.
pub fn command_for(key: KeyInput) -> (command: Command)
    ensures
        command == key_command(key),
{
    match key {
        KeyInput::Char(c) => {
            if c == 'q' {
                Command::Quit
            } else if c == 'j' {
                Command::Next
            } else if c == 'k' {
                Command::Previous
            } else if c == 'u' {
                Command::Reload
            } else {
                Command::Ignore
            }
        },
        KeyInput::Esc => Command::Quit,
        KeyInput::Down => Command::Next,
        KeyInput::Up => Command::Previous,
        KeyInput::Enter => Command::Activate,
        KeyInput::Other => Command::Ignore,
    }
}

/// What activating `item` asks for.
pub fn activate(item: &MenuItem) -> (action: Action)
    ensures
        action@ == activation(item@),
{
    if item.command.as_str().is_empty() {
        let name = item.name.as_str();
        if same_text(name, "Quit") {
            Action::Exit
        } else if same_text(name, "View Shell") {
            Action::ViewShell
        } else if same_text(name, "Edit Dott Config") {
            Action::EditConfig
        } else {
            Action::Continue
        }
    } else {
        Action::Launch { command: item.command.clone(), args: copy_strings(&item.args) }
    }
}

/// One step of the event loop: moves the cursor as the key says and
/// returns what the loop has to do. Configuration and selection change
/// only when the loop answers [`Action::Reload`] with [`App::reload`].
pub fn handle_key(app: &mut App, key: KeyInput) -> (action: Action)
    requires
        old(app).wf(),
    ensures
        final(app).wf(),
        action@ == step_action(key, old(app).selection(), old(app).selected_index()),
        final(app).selected_index() == step_index(
            key,
            old(app).selection().len() as int,
            old(app).selected_index(),
        ),
        final(app).selection() == old(app).selection(),
        final(app).config_spec() == old(app).config_spec(),
        final(app).path_spec() == old(app).path_spec(),
{
    match command_for(key) {
        Command::Quit => Action::Exit,
        Command::Next => {
            app.next();
            Action::Continue
        },
        Command::Previous => {
            app.previous();
            Action::Continue
        },
        Command::Reload => Action::Reload,
        Command::Activate => {
            match app.get_selected_item() {
                Some(item) => activate(item),
                None => Action::Continue,
            }
        },
        Command::Ignore => Action::Continue,
    }
}

} // verus!
