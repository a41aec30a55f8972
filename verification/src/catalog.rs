//! The feature catalog and its arrangement for display: the alias groups in
//! the order of their names, then the single features as the catalog lists
//! them.

use crate::alias_table::{
    alias_table_entries, alias_table_insert, alias_table_into_entries, alias_table_new,
    alias_table_sort_keys, AliasPair,
};
use crate::text_order::{text_le, text_lt};
use vstd::prelude::*;

verus! {

/// The mapping that a list of alias groups stands for: a later group
/// replaces an earlier one of the same name.
pub open spec fn alias_map(groups: Seq<AliasPair>) -> Map<Seq<char>, Seq<Seq<char>>>
    decreases groups.len(),
{
    if groups.len() == 0 {
        Map::empty()
    } else {
        alias_map(groups.drop_last()).insert(groups.last().0, groups.last().1)
    }
}

/// The entries list every pair of the mapping once and nothing else.
pub open spec fn lists_mapping(entries: Seq<AliasPair>, mapping: Map<Seq<char>, Seq<Seq<char>>>) -> bool {
    &&& forall|i: int|
        0 <= i < entries.len() ==> mapping.contains_pair(
            (#[trigger] entries[i]).0,
            entries[i].1,
        )
    &&& forall|name: Seq<char>| #[trigger]
        mapping.dom().contains(name) ==> exists|i: int|
            0 <= i < entries.len() && (#[trigger] entries[i]).0 == name
    &&& forall|i: int, j: int|
        0 <= i < j < entries.len() ==> (#[trigger] entries[i]).0 != (#[trigger] entries[j]).0
}

/// The names ascend strictly from entry to entry.
pub open spec fn names_ascend(entries: Seq<AliasPair>) -> bool {
    forall|i: int, j: int|
        0 <= i < j < entries.len() ==> text_lt(
            (#[trigger] entries[i]).0,
            (#[trigger] entries[j]).0,
        )
}

/// A list of entries without a repeated name has as many entries as the
/// mapping it lists has names.
pub(crate) proof fn lemma_listing_len(entries: Seq<AliasPair>, mapping: Map<Seq<char>, Seq<Seq<char>>>)
    requires
        lists_mapping(entries, mapping),
    ensures
        mapping.dom().finite(),
        mapping.dom().len() == entries.len(),
    decreases entries.len(),
{
    if entries.len() == 0 {
        assert(mapping.dom() =~= Set::<Seq<char>>::empty());
    } else {
        let last = entries.last();
        let front = entries.drop_last();
        let rest = mapping.remove(last.0);
        assert(mapping.contains_pair(last.0, last.1));
        assert forall|name: Seq<char>| #[trigger] rest.dom().contains(name) implies exists|i: int|
            0 <= i < front.len() && (#[trigger] front[i]).0 == name by {
            let i = choose|i: int| 0 <= i < entries.len() && (#[trigger] entries[i]).0 == name;
            assert(front[i] == entries[i]);
        }
        assert forall|i: int| 0 <= i < front.len() implies rest.contains_pair(
            (#[trigger] front[i]).0,
            front[i].1,
        ) by {
            assert(front[i] == entries[i]);
            assert(entries[i].0 != entries[entries.len() - 1].0);
        }
        assert forall|i: int, j: int| 0 <= i < j < front.len() implies (#[trigger] front[i]).0 != (
        #[trigger] front[j]).0 by {
            assert(front[i] == entries[i]);
            assert(front[j] == entries[j]);
        }
        lemma_listing_len(front, rest);
        assert(mapping.dom() =~= rest.dom().insert(last.0));
    }
}

/// Writing a pair into a list of entries as the table does, in the place of
/// the entry of that name or at the end, writes it into the mapping listed.
pub(crate) proof fn lemma_listing_insert(
    before: Seq<AliasPair>,
    after: Seq<AliasPair>,
    mapping: Map<Seq<char>, Seq<Seq<char>>>,
    entry: AliasPair,
)
    requires
        lists_mapping(before, mapping),
        forall|i: int|
            0 <= i < before.len() && (#[trigger] before[i]).0 == entry.0 ==> after
                == before.update(i, entry),
        (forall|i: int| 0 <= i < before.len() ==> (#[trigger] before[i]).0 != entry.0) ==> after
            == before.push(entry),
    ensures
        lists_mapping(after, mapping.insert(entry.0, entry.1)),
{
    let grown = mapping.insert(entry.0, entry.1);
    if exists|i: int| 0 <= i < before.len() && (#[trigger] before[i]).0 == entry.0 {
        let at = choose|i: int| 0 <= i < before.len() && (#[trigger] before[i]).0 == entry.0;
        assert(after == before.update(at, entry));
        assert forall|i: int| 0 <= i < after.len() implies grown.contains_pair(
            (#[trigger] after[i]).0,
            after[i].1,
        ) by {
            if i != at {
                assert(after[i] == before[i]);
                if i < at {
                    assert(before[i].0 != before[at].0);
                } else {
                    assert(before[at].0 != before[i].0);
                }
            }
        }
        assert forall|name: Seq<char>| #[trigger] grown.dom().contains(name) implies exists|i: int|
            0 <= i < after.len() && (#[trigger] after[i]).0 == name by {
            if name == entry.0 {
                assert(after[at].0 == name);
            } else {
                let i = choose|i: int| 0 <= i < before.len() && (#[trigger] before[i]).0 == name;
                assert(after[i] == before[i]);
            }
        }
        assert forall|i: int, j: int| 0 <= i < j < after.len() implies (#[trigger] after[i]).0 != (
        #[trigger] after[j]).0 by {
            assert(after[i].0 == before[i].0);
            assert(after[j].0 == before[j].0);
        }
    } else {
        assert(after == before.push(entry));
        assert forall|i: int| 0 <= i < after.len() implies grown.contains_pair(
            (#[trigger] after[i]).0,
            after[i].1,
        ) by {
            if i < before.len() {
                assert(after[i] == before[i]);
            }
        }
        assert forall|name: Seq<char>| #[trigger] grown.dom().contains(name) implies exists|i: int|
            0 <= i < after.len() && (#[trigger] after[i]).0 == name by {
            if name == entry.0 {
                assert(after[before.len() as int].0 == name);
            } else {
                let i = choose|i: int| 0 <= i < before.len() && (#[trigger] before[i]).0 == name;
                assert(after[i] == before[i]);
            }
        }
        assert forall|i: int, j: int| 0 <= i < j < after.len() implies (#[trigger] after[i]).0 != (
        #[trigger] after[j]).0 by {
            assert(after[i] == before[i]);
            if j < before.len() {
                assert(after[j] == before[j]);
            }
        }
    }
}

/// Rearranging a list of entries so that the names ascend leaves the
/// mapping listed as it is, and the names then ascend strictly.
pub(crate) proof fn lemma_listing_sorted(
    before: Seq<AliasPair>,
    after: Seq<AliasPair>,
    mapping: Map<Seq<char>, Seq<Seq<char>>>,
)
    requires
        lists_mapping(before, mapping),
        after.to_multiset() == before.to_multiset(),
        forall|i: int, j: int|
            0 <= i < j < after.len() ==> text_le((#[trigger] after[i]).0, (#[trigger] after[j]).0),
    ensures
        lists_mapping(after, mapping),
        names_ascend(after),
{
    broadcast use vstd::seq_lib::group_to_multiset_ensures;

    assert forall|i: int| 0 <= i < after.len() implies mapping.contains_pair(
        (#[trigger] after[i]).0,
        after[i].1,
    ) by {
        assert(after.contains(after[i]));
        assert(before.to_multiset().count(after[i]) > 0);
        assert(before.contains(after[i]));
        let j = choose|j: int| 0 <= j < before.len() && before[j] == after[i];
        assert(mapping.contains_pair(before[j].0, before[j].1));
    }
    assert forall|name: Seq<char>| #[trigger] mapping.dom().contains(name) implies exists|i: int|
        0 <= i < after.len() && (#[trigger] after[i]).0 == name by {
        let j = choose|j: int| 0 <= j < before.len() && (#[trigger] before[j]).0 == name;
        assert(before.contains(before[j]));
        assert(after.to_multiset().count(before[j]) > 0);
        assert(after.contains(before[j]));
        let i = choose|i: int| 0 <= i < after.len() && after[i] == before[j];
        assert(after[i].0 == name);
    }
    assert(before.no_duplicates()) by {
        assert forall|i: int, j: int| 0 <= i < before.len() && 0 <= j < before.len() && i
            != j implies before[i] != before[j] by {
            if i < j {
                assert(before[i].0 != before[j].0);
            } else {
                assert(before[j].0 != before[i].0);
            }
        }
    }
    before.lemma_multiset_has_no_duplicates();
    after.lemma_multiset_has_no_duplicates_conv();
    assert forall|i: int, j: int| 0 <= i < j < after.len() implies (#[trigger] after[i]).0 != (
    #[trigger] after[j]).0 by {
        if after[i].0 == after[j].0 {
            assert(before.contains(after[i])) by {
                assert(after.contains(after[i]));
                assert(before.to_multiset().count(after[i]) > 0);
            }
            assert(before.contains(after[j])) by {
                assert(after.contains(after[j]));
                assert(before.to_multiset().count(after[j]) > 0);
            }
            let a = choose|a: int| 0 <= a < before.len() && before[a] == after[i];
            let b = choose|b: int| 0 <= b < before.len() && before[b] == after[j];
            if a < b {
                assert(before[a].0 != before[b].0);
            } else if b < a {
                assert(before[b].0 != before[a].0);
            }
            assert(after[i] == after[j]);
        }
    }
    assert forall|i: int, j: int| 0 <= i < j < after.len() implies text_lt(
        (#[trigger] after[i]).0,
        (#[trigger] after[j]).0,
    ) by {
        assert(text_le(after[i].0, after[j].0));
        assert(after[i].0 != after[j].0);
    }
}

/// The alias groups of a list as plain text.
pub open spec fn groups_text(groups: Seq<(String, Vec<String>)>) -> Seq<AliasPair> {
    Seq::new(groups.len(), |i: int| groups[i].deep_view())
}

/// The alias groups one to a name, in the ascending order of the names.
pub fn sorted_alias_groups(groups: Vec<(String, Vec<String>)>) -> (sorted: Vec<
    (String, Vec<String>),
>)
    ensures
        lists_mapping(sorted.deep_view(), alias_map(groups.deep_view())),
        names_ascend(sorted.deep_view()),
{
    let ghost given = groups@;
    let mut table = alias_table_new();
    proof {
        assert(groups_text(given).take(0) =~= Seq::<AliasPair>::empty());
    }
    for group in it: groups.into_iter()
        invariant
            it.seq() == given,
            lists_mapping(
                alias_table_entries(table),
                alias_map(groups_text(given).take(it.index())),
            ),
    {
        let ghost before = alias_table_entries(table);
        let ghost done = groups_text(given).take(it.index());
        let ghost entry = group.deep_view();
        let (name, members) = group;
        alias_table_insert(&mut table, name, members);
        proof {
            let next = groups_text(given).take(it.index() + 1);
            assert(next.drop_last() =~= done);
            assert(next.last() == entry);
            lemma_listing_insert(before, alias_table_entries(table), alias_map(done), entry);
        }
    }
    proof {
        assert(groups_text(given).take(given.len() as int) =~= groups_text(given));
        assert(groups_text(given) =~= groups.deep_view());
    }
    let ghost unsorted = alias_table_entries(table);
    alias_table_sort_keys(&mut table);
    proof {
        lemma_listing_sorted(unsorted, alias_table_entries(table), alias_map(groups.deep_view()));
    }
    alias_table_into_entries(table)
}

/// The catalog as it is supplied: the single features in the order of
/// their source, and the alias groups, each a name with its members.
#[derive(Clone, Debug, PartialEq, Eq)]
pub struct RawCatalog {
    pub features: Vec<String>,
    pub alias_members: Vec<(String, Vec<String>)>,
}

/// What a raw catalog says: the feature names in order, and the mapping
/// from alias names to members.
pub struct RawCatalogModel {
    pub features: Seq<Seq<char>>,
    pub alias_members: Map<Seq<char>, Seq<Seq<char>>>,
}

impl View for RawCatalog {
    type V = RawCatalogModel;

    open spec fn view(&self) -> RawCatalogModel {
        RawCatalogModel {
            features: self.features.deep_view(),
            alias_members: alias_map(self.alias_members.deep_view()),
        }
    }
}

impl RawCatalogModel {
    /// No name is empty, no feature is listed twice, and the aliases are
    /// finitely many.
    pub open spec fn well_formed(self) -> bool {
        &&& self.features.no_duplicates()
        &&& forall|i: int| 0 <= i < self.features.len() ==> (#[trigger] self.features[i]).len() > 0
        &&& self.alias_members.dom().finite()
        &&& forall|name: Seq<char>| #[trigger]
            self.alias_members.dom().contains(name) ==> name.len() > 0
    }
}

impl RawCatalog {
    /// The catalog says what a catalog may say, and names no alias group
    /// twice.
    pub open spec fn well_formed(&self) -> bool {
        &&& self@.well_formed()
        &&& forall|i: int, j: int|
            0 <= i < j < self.alias_members@.len() ==> (#[trigger] self.alias_members@[i]).0@ != (
            #[trigger] self.alias_members@[j]).0@
    }
}

/// One line of the list shown: an alias group with its members, or a
/// single feature.
#[derive(Clone, Debug, PartialEq, Eq)]
pub enum RenderEntry {
    Alias { name: String, members: Vec<String> },
    Feature { name: String },
}

/// A line of the list as plain text.
pub enum EntryModel {
    Alias { name: Seq<char>, members: Seq<Seq<char>> },
    Feature { name: Seq<char> },
}

impl EntryModel {
    /// The name that the line is labelled with.
    pub open spec fn label(self) -> Seq<char> {
        match self {
            EntryModel::Alias { name, .. } => name,
            EntryModel::Feature { name } => name,
        }
    }
}

impl View for RenderEntry {
    type V = EntryModel;

    open spec fn view(&self) -> EntryModel {
        match self {
            RenderEntry::Alias { name, members } => EntryModel::Alias {
                name: name@,
                members: members.deep_view(),
            },
            RenderEntry::Feature { name } => EntryModel::Feature { name: name@ },
        }
    }
}

/// The list shown, line by line.
#[derive(Clone, Debug, PartialEq, Eq)]
pub struct CatalogRenderModel {
    pub entries: Vec<RenderEntry>,
}

impl View for CatalogRenderModel {
    type V = Seq<EntryModel>;

    open spec fn view(&self) -> Seq<EntryModel> {
        Seq::new(self.entries@.len(), |i: int| self.entries@[i]@)
    }
}

/// `lines` is the arrangement of `raw`: one alias line for each alias name,
/// with that alias's members, the names ascending strictly; then one feature
/// line for each feature, in the catalog's order.
pub open spec fn is_assembly_of(lines: Seq<EntryModel>, raw: RawCatalogModel) -> bool {
    let groups = raw.alias_members.dom().len() as int;
    &&& raw.alias_members.dom().finite()
    &&& lines.len() == groups + raw.features.len()
    &&& forall|i: int|
        0 <= i < groups ==> (#[trigger] lines[i]) is Alias && raw.alias_members.contains_pair(
            lines[i]->Alias_name,
            lines[i]->members,
        )
    &&& forall|i: int, j: int|
        0 <= i < j < groups ==> text_lt((#[trigger] lines[i]).label(), (#[trigger] lines[j]).label())
    &&& forall|name: Seq<char>| #[trigger]
        raw.alias_members.dom().contains(name) ==> exists|i: int|
            0 <= i < groups && (#[trigger] lines[i]).label() == name
    &&& forall|i: int|
        0 <= i < raw.features.len() ==> (#[trigger] lines[groups + i]) == (EntryModel::Feature {
            name: raw.features[i],
        })
}

/// Arranges the catalog for display: the alias groups first, sorted by
/// name in the order of code points and each with its members as given, then
/// every feature in the catalog's order, whether or not an alias holds it.
pub fn assemble(raw: RawCatalog) -> (model: CatalogRenderModel)
    ensures
        is_assembly_of(model@, raw@),
{
    let ghost given = raw@;
    let RawCatalog { features, alias_members } = raw;
    let sorted = sorted_alias_groups(alias_members);
    let ghost groups = sorted.deep_view();
    let ghost feature_names = features.deep_view();
    proof {
        lemma_listing_len(groups, given.alias_members);
    }
    let mut entries: Vec<RenderEntry> = Vec::new();
    for group in it: sorted.into_iter()
        invariant
            it.seq().len() == groups.len(),
            forall|i: int| 0 <= i < groups.len() ==> (#[trigger] it.seq()[i]).deep_view() == groups[i],
            entries@.len() == it.index(),
            forall|i: int|
                0 <= i < it.index() ==> (#[trigger] entries@[i])@ == (EntryModel::Alias {
                    name: groups[i].0,
                    members: groups[i].1,
                }),
    {
        let (name, members) = group;
        entries.push(RenderEntry::Alias { name, members });
    }
    for name in it: features.into_iter()
        invariant
            it.seq().len() == feature_names.len(),
            forall|i: int| 0 <= i < feature_names.len() ==> (#[trigger] it.seq()[i])@ == feature_names[i],
            entries@.len() == groups.len() + it.index(),
            forall|i: int|
                0 <= i < groups.len() ==> (#[trigger] entries@[i])@ == (EntryModel::Alias {
                    name: groups[i].0,
                    members: groups[i].1,
                }),
            forall|i: int|
                0 <= i < it.index() ==> (#[trigger] entries@[groups.len() + i])@ == (
                EntryModel::Feature { name: feature_names[i] }),
    {
        entries.push(RenderEntry::Feature { name });
    }
    let model = CatalogRenderModel { entries };
    proof {
        let lines = model@;
        assert forall|i: int| 0 <= i < groups.len() implies (#[trigger] lines[i]) is Alias
            && given.alias_members.contains_pair(lines[i]->Alias_name, lines[i]->members) by {
            assert(lines[i] == entries@[i]@);
            assert(given.alias_members.contains_pair(groups[i].0, groups[i].1));
        }
        assert forall|i: int, j: int| 0 <= i < j < groups.len() implies text_lt(
            (#[trigger] lines[i]).label(),
            (#[trigger] lines[j]).label(),
        ) by {
            assert(lines[i] == entries@[i]@);
            assert(lines[j] == entries@[j]@);
            assert(text_lt(groups[i].0, groups[j].0));
        }
        assert forall|name: Seq<char>| #[trigger]
            given.alias_members.dom().contains(name) implies exists|i: int|
            0 <= i < groups.len() && (#[trigger] lines[i]).label() == name by {
            let i = choose|i: int| 0 <= i < groups.len() && (#[trigger] groups[i]).0 == name;
            assert(lines[i] == entries@[i]@);
        }
        assert forall|i: int| 0 <= i < given.features.len() implies (#[trigger] lines[groups.len()
            + i]) == (EntryModel::Feature { name: given.features[i] }) by {
            assert(lines[groups.len() + i] == entries@[groups.len() + i]@);
        }
    }
    model
}

} // verus!
