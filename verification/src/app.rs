//! The launcher's state: a configuration, its flattened selection and the
//! index of the selected entry, with the moves that the keys make on it.

use vstd::prelude::*;
use vstd::arithmetic::div_mod::{
    lemma_mod_add_multiples_vanish, lemma_mod_self_0, lemma_small_mod,
};
use crate::config::{Config, MenuItem};
use crate::selection::{Selected, config_selection, flatten_entries, selection_view};

verus! {

/// A configuration with the selection derived from it and the place of the
/// cursor in that selection.
pub struct App {
    selected: usize,
    config: Config,
    all_entries: Vec<(String, MenuItem)>,
    config_path: Option<String>,
}

/// Where the cursor goes on "next": one further, and from the last entry
/// back to the first. With nothing to select it stays.
pub open spec fn next_index(i: int, n: int) -> int {
    if n > 0 {
        (i + 1) % n
    } else {
        i
    }
}

/// Where the cursor goes on "previous": one back, and from the first entry
/// to the last. With nothing to select it stays.
pub open spec fn previous_index(i: int, n: int) -> int {
    if n > 0 {
        (i - 1 + n) % n
    } else {
        i
    }
}

impl App {
    /// The index of the selected entry.
    pub closed spec fn selected_index(&self) -> int {
        self.selected as int
    }

    /// The flattened selection that the cursor moves over.
    pub closed spec fn selection(&self) -> Seq<Selected> {
        selection_view(self.all_entries@)
    }

    /// The configuration in force.
    pub closed spec fn config_spec(&self) -> Config {
        self.config
    }

    /// The place the configuration was read from, if one was given.
    pub closed spec fn path_spec(&self) -> Option<String> {
        self.config_path
    }

    /// The selection is the one derived from the configuration, and the
    /// cursor points into it (or is zero where there is nothing to select).
    pub open spec fn wf(&self) -> bool {
        &&& self.selection() == config_selection(&self.config_spec())
        &&& 0 <= self.selected_index()
        &&& self.selection().len() > 0 ==> self.selected_index() < self.selection().len()
        &&& self.selection().len() == 0 ==> self.selected_index() == 0
    }

    /// The state at startup: the selection flattened from `config`, the
    /// cursor on its first entry.
    pub fn new(config: Config, config_path: Option<String>) -> (app: App)
        ensures
            app.wf(),
            app.selected_index() == 0,
            app.config_spec() == config,
            app.path_spec() == config_path,
    {
        let modules = config.get_ordered_modules();
        let all_entries = flatten_entries(&modules, &config);
        App { selected: 0, config, all_entries, config_path }
    }

    /// Replaces configuration and selection wholesale and puts the cursor
    /// back on the first entry, whatever it pointed at and whether or not
    /// the configuration differs from the one before.
    pub fn reload(&mut self, config: Config)
        ensures
            final(self).wf(),
            final(self).selected_index() == 0,
            final(self).config_spec() == config,
            final(self).path_spec() == old(self).path_spec(),
            old(self).wf() && config_selection(&config) == config_selection(
                &old(self).config_spec(),
            ) ==> final(self).selection() == old(self).selection(),
    {
        let modules = config.get_ordered_modules();
        let all_entries = flatten_entries(&modules, &config);
        self.config = config;
        self.all_entries = all_entries;
        self.selected = 0;
    }

    /// Moves the cursor to the next entry, wrapping round at the end.
    pub fn next(&mut self)
        requires
            old(self).wf(),
        ensures
            final(self).wf(),
            final(self).selected_index() == next_index(
                old(self).selected_index(),
                old(self).selection().len() as int,
            ),
            final(self).selection() == old(self).selection(),
            final(self).config_spec() == old(self).config_spec(),
            final(self).path_spec() == old(self).path_spec(),
    {
        if self.all_entries.len() > 0 {
            self.selected = (self.selected + 1) % self.all_entries.len();
        }
    }

    /// Moves the cursor to the previous entry, wrapping round at the start.
    pub fn previous(&mut self)
        requires
            old(self).wf(),
        ensures
            final(self).wf(),
            final(self).selected_index() == previous_index(
                old(self).selected_index(),
                old(self).selection().len() as int,
            ),
            final(self).selection() == old(self).selection(),
            final(self).config_spec() == old(self).config_spec(),
            final(self).path_spec() == old(self).path_spec(),
    {
        if self.all_entries.len() > 0 {
            let ghost n = self.all_entries@.len() as int;
            let ghost i = self.selected as int;
            if self.selected > 0 {
                proof {
                    lemma_small_mod((i - 1) as nat, n as nat);
                    lemma_mod_add_multiples_vanish(i - 1, n);
                }
                self.selected -= 1;
            } else {
                proof {
                    lemma_small_mod((n - 1) as nat, n as nat);
                }
                self.selected = self.all_entries.len() - 1;
            }
        }
    }

    /// The entry under the cursor, if there is one.
    pub fn get_selected_item(&self) -> (item: Option<&MenuItem>)
        ensures
            item is Some <==> self.selected_index() < self.selection().len(),
            item is Some ==> item->0@ == self.selection()[self.selected_index()].1,
    {
        if self.selected < self.all_entries.len() {
            Some(&self.all_entries[self.selected].1)
        } else {
            None
        }
    }

    /// The index of the selected entry.
    pub fn selected(&self) -> (index: usize)
        ensures
            index == self.selected_index(),
    {
        self.selected
    }

    /// The number of entries that can be selected.
    pub fn entry_count(&self) -> (count: usize)
        ensures
            count == self.selection().len(),
    {
        self.all_entries.len()
    }

    /// The flattened selection, each entry with the name of its group.
    pub fn all_entries(&self) -> (entries: &Vec<(String, MenuItem)>)
        ensures
            selection_view(entries@) == self.selection(),
    {
        &self.all_entries
    }

    /// The configuration in force.
    pub fn config(&self) -> (config: &Config)
        ensures
            *config == self.config_spec(),
    {
        &self.config
    }

    /// The place the configuration was read from, if one was given.
    pub fn config_path(&self) -> (path: &Option<String>)
        ensures
            *path == self.path_spec(),
    {
        &self.config_path
    }
}

/// The cursor goes round: over a selection of `n` entries both moves stay
/// within it, each takes one step and wraps at its end, and each undoes the
/// other.
pub proof fn lemma_wraparound(i: int, n: int)
    requires
        0 <= i < n,
    ensures
        0 <= next_index(i, n) < n,
        0 <= previous_index(i, n) < n,
        next_index(i, n) == if i + 1 == n {
            0
        } else {
            i + 1
        },
        previous_index(i, n) == if i == 0 {
            n - 1
        } else {
            i - 1
        },
        previous_index(next_index(i, n), n) == i,
        next_index(previous_index(i, n), n) == i,
{
    if i + 1 == n {
        lemma_mod_self_0(n);
    } else {
        lemma_small_mod((i + 1) as nat, n as nat);
    }
    if i == 0 {
        lemma_small_mod((n - 1) as nat, n as nat);
    } else {
        lemma_small_mod((i - 1) as nat, n as nat);
        lemma_mod_add_multiples_vanish(i - 1, n);
    }
    lemma_small_mod(i as nat, n as nat);
    lemma_mod_add_multiples_vanish(i, n);
    lemma_mod_self_0(n);
    lemma_small_mod((n - 1) as nat, n as nat);
    if n > 1 {
        lemma_small_mod(1, n as nat);
    }
}

/// With nothing to select, neither move changes the cursor.
pub proof fn lemma_moves_without_entries(i: int)
    ensures
        next_index(i, 0) == i,
        previous_index(i, 0) == i,
{
}

} // verus!
