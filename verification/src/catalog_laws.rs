//! What holds of every arrangement of a catalog.

use crate::catalog::{is_assembly_of, EntryModel, RawCatalogModel};
use crate::text_order::{
    lemma_text_lt_asymmetric, lemma_text_lt_irreflexive, lemma_text_lt_total, text_lt,
};
use vstd::prelude::*;

verus! {

/// Line `i` is the alias line labelled `name`.
pub open spec fn alias_line(lines: Seq<EntryModel>, i: int, name: Seq<char>) -> bool {
    0 <= i < lines.len() && lines[i] is Alias && lines[i].label() == name
}

/// Line `i` is the feature line labelled `name`.
pub open spec fn feature_line(lines: Seq<EntryModel>, i: int, name: Seq<char>) -> bool {
    0 <= i < lines.len() && lines[i] is Feature && lines[i].label() == name
}

/// Line `i` is the alias line labelled `name`, and no other line is.
pub open spec fn sole_alias_line(lines: Seq<EntryModel>, i: int, name: Seq<char>) -> bool {
    alias_line(lines, i, name) && forall|j: int| #[trigger] alias_line(lines, j, name) ==> j == i
}

/// Line `i` is the feature line labelled `name`, and no other line is.
pub open spec fn sole_feature_line(lines: Seq<EntryModel>, i: int, name: Seq<char>) -> bool {
    feature_line(lines, i, name) && forall|j: int| #[trigger]
        feature_line(lines, j, name) ==> j == i
}

/// An arrangement begins with as many alias lines as the catalog has
/// aliases, their names ascending strictly, and goes on with as many feature
/// lines as the catalog has features, labelled with them in the catalog's
/// order; it has no other line.
pub proof fn lemma_assembly_order(lines: Seq<EntryModel>, raw: RawCatalogModel)
    requires
        is_assembly_of(lines, raw),
    ensures
        lines.len() == raw.alias_members.dom().len() + raw.features.len(),
        forall|i: int| 0 <= i < raw.alias_members.dom().len() ==> (#[trigger] lines[i]) is Alias,
        forall|i: int, j: int|
            0 <= i < j < raw.alias_members.dom().len() ==> text_lt(
                (#[trigger] lines[i]).label(),
                (#[trigger] lines[j]).label(),
            ),
        forall|i: int|
            raw.alias_members.dom().len() <= i < lines.len() ==> (#[trigger] lines[i]) is Feature
                && lines[i].label() == raw.features[i - raw.alias_members.dom().len()],
{
    let groups = raw.alias_members.dom().len() as int;
    assert forall|i: int| groups <= i < lines.len() implies (#[trigger] lines[i]) is Feature
        && lines[i].label() == raw.features[i - groups] by {
        assert(lines[groups + (i - groups)] == (EntryModel::Feature { name: raw.features[i - groups] }));
    }
}

/// Every alias name of the catalog labels exactly one alias line of an
/// arrangement, whatever the alias holds and whether or not a feature bears
/// the same name.
pub proof fn lemma_alias_listed_once(lines: Seq<EntryModel>, raw: RawCatalogModel, name: Seq<char>)
    requires
        is_assembly_of(lines, raw),
        raw.alias_members.dom().contains(name),
    ensures
        exists|i: int| sole_alias_line(lines, i, name),
{
    let groups = raw.alias_members.dom().len() as int;
    let at = choose|i: int| 0 <= i < groups && (#[trigger] lines[i]).label() == name;
    assert(lines[at] is Alias);
    assert forall|j: int| #[trigger] alias_line(lines, j, name) implies j == at by {
        if j >= groups {
            assert(lines[groups + (j - groups)] is Feature);
        } else if j < at {
            assert(text_lt(lines[j].label(), lines[at].label()));
            lemma_text_lt_irreflexive(name);
        } else if at < j {
            assert(text_lt(lines[at].label(), lines[j].label()));
            lemma_text_lt_irreflexive(name);
        }
    }
    assert(sole_alias_line(lines, at, name));
}

/// Every feature of a well-formed catalog labels exactly one feature line
/// of an arrangement, whether or not an alias holds it.
pub proof fn lemma_feature_listed_once(
    lines: Seq<EntryModel>,
    raw: RawCatalogModel,
    name: Seq<char>,
)
    requires
        is_assembly_of(lines, raw),
        raw.well_formed(),
        raw.features.contains(name),
    ensures
        exists|i: int| sole_feature_line(lines, i, name),
{
    let groups = raw.alias_members.dom().len() as int;
    let k = choose|k: int| 0 <= k < raw.features.len() && raw.features[k] == name;
    let at = groups + k;
    assert(lines[groups + k] == (EntryModel::Feature { name: raw.features[k] }));
    assert forall|j: int| #[trigger] feature_line(lines, j, name) implies j == at by {
        if j < groups {
            assert(lines[j] is Alias);
        } else {
            assert(lines[groups + (j - groups)] == (EntryModel::Feature {
                name: raw.features[j - groups],
            }));
        }
    }
    assert(sole_feature_line(lines, at, name));
}

/// Two arrangements of one catalog label their alias lines alike.
proof fn lemma_alias_labels_agree(a: Seq<EntryModel>, b: Seq<EntryModel>, raw: RawCatalogModel, i: int)
    requires
        is_assembly_of(a, raw),
        is_assembly_of(b, raw),
        0 <= i < raw.alias_members.dom().len(),
    ensures
        a[i].label() == b[i].label(),
    decreases i,
{
    let groups = raw.alias_members.dom().len() as int;
    let x = a[i].label();
    let y = b[i].label();
    lemma_text_lt_total(x, y);
    assert(raw.alias_members.contains_pair(a[i]->Alias_name, a[i]->members));
    assert(raw.alias_members.contains_pair(b[i]->Alias_name, b[i]->members));
    if text_lt(x, y) {
        let j = choose|j: int| 0 <= j < groups && (#[trigger] b[j]).label() == x;
        if j < i {
            lemma_alias_labels_agree(a, b, raw, j);
            assert(text_lt(a[j].label(), a[i].label()));
            lemma_text_lt_irreflexive(x);
        } else if j > i {
            assert(text_lt(b[i].label(), b[j].label()));
            lemma_text_lt_asymmetric(x, y);
        }
    } else if text_lt(y, x) {
        let j = choose|j: int| 0 <= j < groups && (#[trigger] a[j]).label() == y;
        if j < i {
            lemma_alias_labels_agree(a, b, raw, j);
            assert(text_lt(b[j].label(), b[i].label()));
            lemma_text_lt_irreflexive(y);
        } else if j > i {
            assert(text_lt(a[i].label(), a[j].label()));
            lemma_text_lt_asymmetric(y, x);
        }
    }
}

/// A catalog has one arrangement only: the order in which its alias groups
/// were handed over leaves no trace.
pub proof fn lemma_assembly_unique(a: Seq<EntryModel>, b: Seq<EntryModel>, raw: RawCatalogModel)
    requires
        is_assembly_of(a, raw),
        is_assembly_of(b, raw),
    ensures
        a == b,
{
    let groups = raw.alias_members.dom().len() as int;
    assert forall|i: int| 0 <= i < a.len() implies a[i] == b[i] by {
        if i < groups {
            lemma_alias_labels_agree(a, b, raw, i);
            assert(raw.alias_members.contains_pair(a[i]->Alias_name, a[i]->members));
            assert(raw.alias_members.contains_pair(b[i]->Alias_name, b[i]->members));
        } else {
            assert(a[groups + (i - groups)] == b[groups + (i - groups)]);
        }
    }
    assert(a =~= b);
}

} // verus!
