//! The registry: which modules exist, under which identifiers, in which
//! order they were registered.

use crate::module::BahamutModule;
use crate::outcome::{BahamutError, ErrorView};
use vstd::hash_map::StringHashMap;
use vstd::prelude::*;

verus! {

/// One registration, as a mathematical value: an identifier and the module
/// registered under it.
pub struct Registered<M> {
    pub id: Seq<char>,
    pub module: M,
}

/// Whether some registration in `entries` carries the identifier `id`.
pub open spec fn has_id<M>(entries: Seq<Registered<M>>, id: Seq<char>) -> bool {
    exists|i: int| 0 <= i < entries.len() && (#[trigger] entries[i]).id == id
}

/// A position in `entries` that carries the identifier `id`, if there is
/// one. Where identifiers are distinct there is at most one.
pub open spec fn position_of<M>(entries: Seq<Registered<M>>, id: Seq<char>) -> int {
    choose|i: int| 0 <= i < entries.len() && (#[trigger] entries[i]).id == id
}

/// No identifier occurs twice in `entries`.
pub open spec fn distinct_ids<M>(entries: Seq<Registered<M>>) -> bool {
    forall|i: int, j: int|
        0 <= i < entries.len() && 0 <= j < entries.len() && (#[trigger] entries[i]).id == (
        #[trigger] entries[j]).id ==> i == j
}

/// The module registered under `id`, if there is one.
pub open spec fn lookup<M>(entries: Seq<Registered<M>>, id: Seq<char>) -> Option<M> {
    if has_id(entries, id) {
        Some(entries[position_of(entries, id)].module)
    } else {
        None
    }
}

/// The registrations after an attempt to register `module` under `id`: the
/// attempt adds one registration at the end, unless the identifier is taken,
/// in which case it changes nothing.
pub open spec fn after_register<M>(entries: Seq<Registered<M>>, id: Seq<char>, module: M) -> Seq<
    Registered<M>,
> {
    if has_id(entries, id) {
        entries
    } else {
        entries.push(Registered { id, module })
    }
}

/// The registrations that a list of identifiers with their modules stands
/// for, in the same order.
pub open spec fn registrations_of<M>(modules: Seq<(String, M)>) -> Seq<Registered<M>> {
    Seq::new(modules.len(), |i: int| Registered { id: modules[i].0@, module: modules[i].1 })
}

/// `position` is the first place in `ids` whose identifier stands at an
/// earlier place too.
pub open spec fn is_first_repeat(ids: Seq<Seq<char>>, position: int) -> bool {
    &&& 0 <= position < ids.len()
    &&& ids.take(position).no_duplicates()
    &&& ids.take(position).contains(ids[position])
}

/// The identifiers of `entries`, in the same order: the order of every
/// listing.
pub open spec fn ids_of<M>(entries: Seq<Registered<M>>) -> Seq<Seq<char>> {
    Seq::new(entries.len(), |i: int| entries[i].id)
}

/// What a listing shows of one module.
#[derive(Debug, Clone, PartialEq, Eq)]
pub struct ModuleInfo {
    pub id: String,
    pub name: String,
    pub description: String,
}

/// The mathematical value of a [`ModuleInfo`].
pub struct ModuleInfoView {
    pub id: Seq<char>,
    pub name: Seq<char>,
    pub description: Seq<char>,
}

impl View for ModuleInfo {
    type V = ModuleInfoView;

    open spec fn view(&self) -> ModuleInfoView {
        ModuleInfoView { id: self.id@, name: self.name@, description: self.description@ }
    }
}

/// `info` is what a listing shows of the registration `entry`: its
/// identifier, and the name and the description that its module reports. A
/// name is never empty, and a name or a description that the module states
/// is reported as stated.
pub open spec fn describes<M: BahamutModule>(info: ModuleInfoView, entry: Registered<M>) -> bool {
    &&& info.id == entry.id
    &&& info.name.len() > 0
    &&& entry.module.stated_name() matches Some(name) ==> info.name == name
    &&& entry.module.stated_description() matches Some(description) ==> info.description
        == description
}

struct ModuleEntry<M> {
    id: String,
    module: M,
}

/// The set of available modules.
///
/// The registry owns its modules. It keeps them in registration order and
/// finds one by its identifier in expected constant time.
pub struct ModuleRegistry<M> {
    entries: Vec<ModuleEntry<M>>,
    positions: StringHashMap<usize>,
}

spec fn model_of<M>(entries: Seq<ModuleEntry<M>>) -> Seq<Registered<M>> {
    Seq::new(entries.len(), |i: int| Registered { id: entries[i].id@, module: entries[i].module })
}

/// `positions` maps exactly the identifiers of `entries`, each to the place
/// where it stands.
spec fn indexed<M>(entries: Seq<ModuleEntry<M>>, positions: Map<Seq<char>, usize>) -> bool {
    &&& forall|i: int|
        0 <= i < entries.len() ==> positions.contains_key((#[trigger] entries[i]).id@)
            && positions[entries[i].id@] == i
    &&& forall|id: Seq<char>| #[trigger]
        positions.contains_key(id) ==> positions[id] < entries.len()
            && entries[positions[id] as int].id@ == id
}

proof fn lemma_indexed_model<M>(entries: Seq<ModuleEntry<M>>, positions: Map<Seq<char>, usize>)
    requires
        indexed(entries, positions),
    ensures
        distinct_ids(model_of(entries)),
        forall|id: Seq<char>| has_id(model_of(entries), id) <==> positions.contains_key(id),
        forall|id: Seq<char>| #[trigger]
            positions.contains_key(id) ==> position_of(model_of(entries), id) == positions[id],
{
    let model = model_of(entries);
    assert forall|i: int, j: int|
        0 <= i < model.len() && 0 <= j < model.len() && (#[trigger] model[i]).id == (
        #[trigger] model[j]).id implies i == j by {
        assert(positions[entries[i].id@] == i);
        assert(positions[entries[j].id@] == j);
    }
    assert forall|id: Seq<char>| has_id(model, id) <==> positions.contains_key(id) by {
        if has_id(model, id) {
            let i = position_of(model, id);
            assert(model[i].id == id);
            assert(positions.contains_key(entries[i].id@));
        }
        if positions.contains_key(id) {
            let i = positions[id] as int;
            assert(model[i].id == id);
        }
    }
    assert forall|id: Seq<char>| #[trigger] positions.contains_key(id) implies position_of(
        model,
        id,
    ) == positions[id] by {
        let i = positions[id] as int;
        assert(model[i].id == id);
        let j = position_of(model, id);
        assert(model[j].id == id);
        assert(positions[entries[j].id@] == j);
    }
}

/// Adds one entry to both parts of a registry.
fn insert_entry<M>(
    entries: &mut Vec<ModuleEntry<M>>,
    positions: &mut StringHashMap<usize>,
    id: String,
    module: M,
)
    requires
        indexed(old(entries)@, old(positions)@),
        !old(positions)@.contains_key(id@),
    ensures
        indexed(final(entries)@, final(positions)@),
        model_of(final(entries)@) == model_of(old(entries)@).push(Registered { id: id@, module }),
{
    let position = entries.len();
    positions.insert(id.clone(), position);
    entries.push(ModuleEntry { id, module });
    proof {
        let before = old(entries)@;
        let after = entries@;
        assert forall|i: int| 0 <= i < after.len() implies positions@.contains_key(
            (#[trigger] after[i]).id@,
        ) && positions@[after[i].id@] == i by {
            if i < before.len() {
                assert(after[i] == before[i]);
            }
        }
        assert forall|key: Seq<char>| #[trigger] positions@.contains_key(key) implies positions@[key]
            < after.len() && after[positions@[key] as int].id@ == key by {
            if key != id@ {
                assert(after[old(positions)@[key] as int] == before[old(positions)@[key] as int]);
            }
        }
        assert(model_of(after) =~= model_of(before).push(Registered { id: id@, module }));
    }
}

impl<M> View for ModuleRegistry<M> {
    type V = Seq<Registered<M>>;

    /// A registry is the sequence of its registrations, oldest first.
    closed spec fn view(&self) -> Seq<Registered<M>> {
        model_of(self.entries@)
    }
}

impl<M> ModuleRegistry<M> {
    /// The registry's two parts agree: the identifiers it can find are
    /// exactly those of its registrations. Every registry that `new` and
    /// `register` build is well formed.
    pub closed spec fn wf(&self) -> bool {
        indexed(self.entries@, self.positions@)
    }

    /// In a well-formed registry no identifier occurs twice.
    pub proof fn lemma_distinct_ids(&self)
        requires
            self.wf(),
        ensures
            distinct_ids(self@),
    {
        lemma_indexed_model(self.entries@, self.positions@);
    }

    /// A registry without modules.
    pub fn new() -> (registry: ModuleRegistry<M>)
        ensures
            registry.wf(),
            registry@ == Seq::<Registered<M>>::empty(),
    {
        let registry = ModuleRegistry { entries: Vec::new(), positions: StringHashMap::new() };
        assert(registry@ =~= Seq::<Registered<M>>::empty());
        registry
    }

    /// A registry of `modules`, registered in the order of the list.
    ///
    /// Building a registry does not go on past an identifier that is taken:
    /// the first identifier that repeats an earlier one is refused with
    /// `DuplicateModuleId` and there is no registry. No duplicate is ever
    /// dropped in silence.
    pub fn from_modules(modules: Vec<(String, M)>) -> (result: Result<
        ModuleRegistry<M>,
        BahamutError,
    >)
        ensures
            match result {
                Ok(registry) => {
                    &&& registry.wf()
                    &&& registry@ == registrations_of(modules@)
                    &&& ids_of(registry@).no_duplicates()
                },
                Err(error) => exists|position: int|
                    {
                        &&& is_first_repeat(ids_of(registrations_of(modules@)), position)
                        &&& error@ == (ErrorView::DuplicateModuleId {
                            module_id: #[trigger] ids_of(registrations_of(modules@))[position],
                        })
                    },
            },
    {
        let ghost all = registrations_of(modules@);
        let mut registry = ModuleRegistry::new();
        for pair in iter: modules
            invariant
                iter.seq() == modules@,
                all == registrations_of(modules@),
                registry.wf(),
                registry@ == all.take(iter.index() as int),
        {
            let ghost position = iter.index() as int;
            let ghost before = registry@;
            let (id, module) = pair;
            match registry.register(id, module) {
                Ok(_) => {
                    assert(registry@ =~= all.take(position + 1));
                },
                Err(error) => {
                    proof {
                        registry.lemma_distinct_ids();
                        let ids = ids_of(all);
                        assert(ids.take(position) =~= ids_of(before));
                        let found = position_of(before, ids[position]);
                        assert(ids.take(position)[found] == ids[position]);
                        assert(is_first_repeat(ids, position));
                    }
                    return Err(error);
                },
            }
        }
        proof {
            registry.lemma_distinct_ids();
            assert(registry@ =~= all);
        }
        Ok(registry)
    }

    /// Registers `module` under the identifier `id`.
    ///
    /// A new identifier is accepted, and the module becomes the last of the
    /// registry. An identifier that is already taken is refused with
    /// `DuplicateModuleId`, and the registry stays as it was: the earlier
    /// registration is never overwritten.
    pub fn register(&mut self, id: String, module: M) -> (result: Result<(), BahamutError>)
        requires
            old(self).wf(),
        ensures
            final(self).wf(),
            final(self)@ == after_register(old(self)@, id@, module),
            match result {
                Ok(_) => {
                    &&& !has_id(old(self)@, id@)
                    &&& final(self)@ == old(self)@.push(Registered { id: id@, module })
                },
                Err(error) => {
                    &&& has_id(old(self)@, id@)
                    &&& final(self)@ == old(self)@
                    &&& error@ == (ErrorView::DuplicateModuleId { module_id: id@ })
                },
            },
    {
        proof {
            lemma_indexed_model(self.entries@, self.positions@);
        }
        if self.positions.contains_key(id.as_str()) {
            Err(BahamutError::DuplicateModuleId { module_id: id })
        } else {
            insert_entry(&mut self.entries, &mut self.positions, id, module);
            Ok(())
        }
    }

    /// The module registered under `id`, or nothing if there is none. An
    /// unknown identifier is no error here: the caller decides how to report
    /// it.
    pub fn resolve(&self, id: &str) -> (found: Option<&M>)
        requires
            self.wf(),
        ensures
            match found {
                Some(module) => lookup(self@, id@) == Some(*module),
                None => lookup(self@, id@) is None,
            },
    {
        proof {
            lemma_indexed_model(self.entries@, self.positions@);
        }
        match self.positions.get(id) {
            Some(position) => Some(&self.entries[*position].module),
            None => None,
        }
    }

    /// Whether a module is registered under `id`.
    pub fn contains(&self, id: &str) -> (known: bool)
        requires
            self.wf(),
        ensures
            known == has_id(self@, id@),
    {
        proof {
            lemma_indexed_model(self.entries@, self.positions@);
        }
        self.positions.contains_key(id)
    }

    /// The number of registered modules.
    pub fn len(&self) -> (count: usize)
        ensures
            count == self@.len(),
    {
        self.entries.len()
    }

    /// Whether no module is registered.
    pub fn is_empty(&self) -> (empty: bool)
        ensures
            empty == (self@.len() == 0),
    {
        self.entries.len() == 0
    }

    /// The identifiers of the registered modules, in registration order.
    pub fn ids(&self) -> (ids: Vec<String>)
        ensures
            ids@.len() == self@.len(),
            forall|i: int| 0 <= i < ids@.len() ==> (#[trigger] ids@[i])@ == self@[i].id,
    {
        let mut ids: Vec<String> = Vec::new();
        let mut position: usize = 0;
        while position < self.entries.len()
            invariant
                position <= self.entries@.len(),
                ids@.len() == position,
                forall|i: int| 0 <= i < position ==> (#[trigger] ids@[i])@ == self.entries@[i].id@,
            decreases self.entries@.len() - position,
        {
            ids.push(self.entries[position].id.clone());
            position += 1;
        }
        ids
    }

}

impl<M: BahamutModule> ModuleRegistry<M> {
    /// The registered modules, in registration order: for each its
    /// identifier, its name and its description.
    pub fn list(&self) -> (infos: Vec<ModuleInfo>)
        ensures
            infos@.len() == self@.len(),
            forall|i: int| 0 <= i < infos@.len() ==> describes((#[trigger] infos@[i])@, self@[i]),
    {
        let mut infos: Vec<ModuleInfo> = Vec::new();
        let mut position: usize = 0;
        while position < self.entries.len()
            invariant
                position <= self.entries@.len(),
                infos@.len() == position,
                forall|i: int|
                    0 <= i < position ==> describes(
                        (#[trigger] infos@[i])@,
                        model_of(self.entries@)[i],
                    ),
            decreases self.entries@.len() - position,
        {
            let entry = &self.entries[position];
            let info = ModuleInfo {
                id: entry.id.clone(),
                name: entry.module.name().to_owned(),
                description: entry.module.description().to_owned(),
            };
            infos.push(info);
            position += 1;
        }
        infos
    }
}

} // verus!

verus! {

/// Every registered identifier resolves to the module that was registered
/// under it.
pub proof fn lemma_lookup_finds_registered<M>(entries: Seq<Registered<M>>, position: int)
    requires
        distinct_ids(entries),
        0 <= position < entries.len(),
    ensures
        lookup(entries, entries[position].id) == Some(entries[position].module),
{
    let id = entries[position].id;
    assert(has_id(entries, id));
    let found = position_of(entries, id);
    assert(entries[found].id == entries[position].id);
}

/// An identifier that was never registered resolves to nothing.
pub proof fn lemma_lookup_misses_unregistered<M>(entries: Seq<Registered<M>>, id: Seq<char>)
    requires
        forall|i: int| 0 <= i < entries.len() ==> (#[trigger] entries[i]).id != id,
    ensures
        lookup(entries, id) is None,
{
}

/// A registration under a new identifier keeps identifiers distinct.
pub proof fn lemma_register_keeps_ids_distinct<M>(
    entries: Seq<Registered<M>>,
    id: Seq<char>,
    module: M,
)
    requires
        distinct_ids(entries),
    ensures
        distinct_ids(after_register(entries, id, module)),
{
    let after = after_register(entries, id, module);
    if !has_id(entries, id) {
        assert forall|i: int, j: int|
            0 <= i < after.len() && 0 <= j < after.len() && (#[trigger] after[i]).id == (
            #[trigger] after[j]).id implies i == j by {
            if i < entries.len() {
                assert(after[i] == entries[i]);
            }
            if j < entries.len() {
                assert(after[j] == entries[j]);
            }
        }
    }
}

/// After a module is registered under a new identifier, that identifier
/// resolves to exactly that module, and every other identifier resolves as
/// it did before.
pub proof fn lemma_register_then_lookup<M>(
    entries: Seq<Registered<M>>,
    id: Seq<char>,
    module: M,
    other: Seq<char>,
)
    requires
        distinct_ids(entries),
        !has_id(entries, id),
    ensures
        lookup(after_register(entries, id, module), id) == Some(module),
        other != id ==> lookup(after_register(entries, id, module), other) == lookup(entries, other),
{
    let after = after_register(entries, id, module);
    let last = entries.len() as int;
    lemma_register_keeps_ids_distinct(entries, id, module);
    assert(after[last].id == id);
    lemma_lookup_finds_registered(after, last);
    if other != id {
        if has_id(entries, other) {
            let found = position_of(entries, other);
            assert(after[found] == entries[found]);
            lemma_lookup_finds_registered(after, found);
        } else {
            assert forall|i: int| 0 <= i < after.len() implies (#[trigger] after[i]).id != other by {
                if i < entries.len() {
                    assert(after[i] == entries[i]);
                }
            }
        }
    }
}

/// Registering under an identifier that is taken changes nothing, whatever
/// the module: a second registration under the same identifier is refused
/// and leaves the registrations as the first one left them.
pub proof fn lemma_second_registration_is_refused<M>(
    entries: Seq<Registered<M>>,
    id: Seq<char>,
    first: M,
    second: M,
)
    ensures
        has_id(after_register(entries, id, first), id),
        after_register(after_register(entries, id, first), id, second) == after_register(
            entries,
            id,
            first,
        ),
{
    let once = after_register(entries, id, first);
    if !has_id(entries, id) {
        assert(once[entries.len() as int].id == id);
    }
}

/// A registration under a new identifier adds that identifier at the end
/// and leaves the identifiers before it as they were: modules are listed in
/// the order in which they were registered.
pub proof fn lemma_listing_keeps_registration_order<M>(
    entries: Seq<Registered<M>>,
    id: Seq<char>,
    module: M,
)
    requires
        !has_id(entries, id),
    ensures
        ids_of(after_register(entries, id, module)) == ids_of(entries).push(id),
{
    let after = after_register(entries, id, module);
    assert(ids_of(after) =~= ids_of(entries).push(id));
}

/// Two modules registered one after the other, under two new identifiers,
/// are listed last, the first before the second.
pub proof fn lemma_listing_of_two_registrations<M>(
    entries: Seq<Registered<M>>,
    first_id: Seq<char>,
    first: M,
    second_id: Seq<char>,
    second: M,
)
    requires
        !has_id(entries, first_id),
        !has_id(entries, second_id),
        first_id != second_id,
    ensures
        ids_of(after_register(after_register(entries, first_id, first), second_id, second))
            == ids_of(entries).push(first_id).push(second_id),
{
    let once = after_register(entries, first_id, first);
    assert forall|i: int| 0 <= i < once.len() implies (#[trigger] once[i]).id != second_id by {
        if i < entries.len() {
            assert(once[i] == entries[i]);
        }
    }
    lemma_listing_keeps_registration_order(entries, first_id, first);
    lemma_listing_keeps_registration_order(once, second_id, second);
}

} // verus!
