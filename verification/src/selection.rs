//! The flattened selection: every entry of every entry-group module, in
//! build order. It alone says which entry a selection index stands for.

use vstd::prelude::*;
use crate::config::{
    Config, MenuItem, MenuItemView, ModuleSpec, ModuleType, OrderedModule, Registry, items_view,
    modules_view,
};
use crate::text::copy_strings;

verus! {

/// One element of the flattened selection: the name of the group that the
/// entry came from, and the entry.
pub type Selected = (Seq<char>, MenuItemView);

/// The entries `items`, each tagged with the name of its group.
pub open spec fn tagged(group: Seq<char>, items: Seq<MenuItemView>) -> Seq<Selected> {
    Seq::new(items.len(), |i: int| (group, items[i]))
}

/// What one module adds to the selection: the entries of its group if it is
/// an entry-group module, nothing otherwise.
pub open spec fn module_entries(module: ModuleSpec, registry: Registry) -> Seq<Selected> {
    match module {
        ModuleSpec::EntryGroup(group) => tagged(group, registry.get(group)),
        _ => Seq::empty(),
    }
}

/// The flattened selection of a build list over a registry.
pub open spec fn flatten(build: Seq<ModuleSpec>, registry: Registry) -> Seq<Selected>
    decreases build.len(),
{
    if build.len() == 0 {
        Seq::empty()
    } else {
        flatten(build.drop_last(), registry) + module_entries(build.last(), registry)
    }
}

/// The views of a sequence of tagged entries, in order.
pub open spec fn selection_view(entries: Seq<(String, MenuItem)>) -> Seq<Selected> {
    Seq::new(entries.len(), |i: int| (entries[i].0@, entries[i].1@))
}

/// A fresh entry with the same name, command and arguments.
pub fn copy_item(item: &MenuItem) -> (out: MenuItem)
    ensures
        out@ == item@,
{
    let out = MenuItem {
        name: item.name.clone(),
        command: item.command.clone(),
        args: copy_strings(&item.args),
    };
    proof {
        assert(out@.args =~= item@.args);
    }
    out
}

/// Walks the modules in order and, for every entry-group module, appends a
/// copy of each entry of its group, tagged with the group's name.
pub fn flatten_entries(modules: &Vec<OrderedModule>, config: &Config) -> (all: Vec<
    (String, MenuItem),
>)
    ensures
        selection_view(all@) == flatten(modules_view(modules@), config.registry()),
{
    let mut all: Vec<(String, MenuItem)> = Vec::new();
    let ghost build = modules_view(modules@);
    let ghost registry = config.registry();
    let mut i: usize = 0;
    proof {
        assert(build.take(0) =~= Seq::<ModuleSpec>::empty());
        assert(selection_view(all@) =~= Seq::<Selected>::empty());
    }
    while i < modules.len()
        invariant
            i <= modules@.len(),
            build == modules_view(modules@),
            registry == config.registry(),
            selection_view(all@) == flatten(build.take(i as int), registry),
        decreases modules@.len() - i,
    {
        proof {
            assert(build.take(i + 1).drop_last() =~= build.take(i as int));
            assert(build.take(i + 1).last() == modules@[i as int]@);
        }
        let ghost before = selection_view(all@);
        match &modules[i].module_type {
            ModuleType::Entries(group_name) => {
                let entries = config.get_entries(group_name.as_str());
                let ghost items = registry.get(group_name@);
                let mut j: usize = 0;
                while j < entries.len()
                    invariant
                        j <= entries@.len(),
                        items == items_view(entries@),
                        selection_view(all@) == before + tagged(group_name@, items).take(j as int),
                    decreases entries@.len() - j,
                {
                    let ghost so_far = selection_view(all@);
                    let entry = (group_name.clone(), copy_item(&entries[j]));
                    all.push(entry);
                    proof {
                        assert(selection_view(all@) =~= so_far.push((group_name@, items[j as int])));
                        assert(tagged(group_name@, items).take(j + 1) =~= tagged(
                            group_name@,
                            items,
                        ).take(j as int).push((group_name@, items[j as int])));
                        assert(before + tagged(group_name@, items).take(j + 1) =~= so_far.push(
                            (group_name@, items[j as int]),
                        ));
                    }
                    j += 1;
                }
                proof {
                    assert(tagged(group_name@, items).take(j as int) =~= tagged(
                        group_name@,
                        items,
                    ));
                }
            },
            _ => {
                proof {
                    assert(before + Seq::<Selected>::empty() =~= before);
                }
            },
        }
        i += 1;
    }
    proof {
        assert(build.take(i as int) =~= build);
    }
    all
}

/// The flattened selection of a configuration: that of its own build list
/// over its own entry groups.
pub open spec fn config_selection(config: &Config) -> Seq<Selected> {
    flatten(config.build_list(), config.registry())
}

/// Flattening goes module by module: the selection of two build lists laid
/// end to end is the first one's selection followed by the second one's.
pub proof fn lemma_flatten_concat(a: Seq<ModuleSpec>, b: Seq<ModuleSpec>, registry: Registry)
    ensures
        flatten(a + b, registry) == flatten(a, registry) + flatten(b, registry),
    decreases b.len(),
{
    if b.len() == 0 {
        assert(a + b =~= a);
        assert(flatten(a, registry) + flatten(b, registry) =~= flatten(a, registry));
    } else {
        lemma_flatten_concat(a, b.drop_last(), registry);
        assert((a + b).drop_last() =~= a + b.drop_last());
        assert((a + b).last() == b.last());
        assert(flatten(a + b, registry) =~= flatten(a, registry) + flatten(b, registry));
    }
}

/// A build list of one module has that module's entries as its selection.
pub proof fn lemma_flatten_single(module: ModuleSpec, registry: Registry)
    ensures
        flatten(seq![module], registry) == module_entries(module, registry),
{
    let one = seq![module];
    assert(one.drop_last() =~= Seq::<ModuleSpec>::empty());
    assert(flatten(one.drop_last(), registry) =~= Seq::<Selected>::empty());
    assert(flatten(one, registry) =~= module_entries(module, registry));
}

/// A group that the build list names twice gives its entries twice, each
/// time in registration order.
pub proof fn lemma_duplicate_group(group: Seq<char>, registry: Registry)
    ensures
        flatten(seq![ModuleSpec::EntryGroup(group), ModuleSpec::EntryGroup(group)], registry)
            == tagged(group, registry.get(group)) + tagged(group, registry.get(group)),
{
    let m = ModuleSpec::EntryGroup(group);
    lemma_flatten_single(m, registry);
    lemma_flatten_concat(seq![m], seq![m], registry);
    assert(seq![m] + seq![m] =~= seq![m, m]);
}

/// A module that is no entry group adds nothing to the selection, wherever
/// in the build list it stands.
pub proof fn lemma_other_modules_inert(
    a: Seq<ModuleSpec>,
    module: ModuleSpec,
    b: Seq<ModuleSpec>,
    registry: Registry,
)
    requires
        !(module is EntryGroup),
    ensures
        flatten(a + seq![module] + b, registry) == flatten(a + b, registry),
{
    lemma_flatten_single(module, registry);
    lemma_flatten_concat(a, seq![module], registry);
    lemma_flatten_concat(a + seq![module], b, registry);
    lemma_flatten_concat(a, b, registry);
    assert(flatten(a, registry) + Seq::<Selected>::empty() =~= flatten(a, registry));
}

} // verus!
