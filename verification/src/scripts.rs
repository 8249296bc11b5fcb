//! The scripts that a manifest declares, and the list they are chosen from.
//!
//! A manifest maps script names to commands. The selection list shows one
//! label per script, `name: command`, ordered by name. Names are compared
//! character by character, by code point. A mapping has no two entries of
//! one name, and for such a list the names of the selection ascend strictly
//! (`lemma_unique_names_list_strictly`); should a list hold entries of one
//! name all the same, they are ordered by command.

use vstd::prelude::*;
use vstd::relations::{sorted_by, total_ordering};
use vstd::seq_lib::{lemma_sorted_unique, to_multiset_build, to_multiset_insert};
use vstd::string::*;
use crate::text::{chars_of, texts};

verus! {

/// One script of a manifest.
#[derive(Debug, PartialEq, Eq)]
pub struct Script {
    /// The name it is run by.
    pub name: String,
    /// The command line it stands for.
    pub command: String,
}

/// A script, as plain text.
pub struct ScriptView {
    pub name: Seq<char>,
    pub command: Seq<char>,
}

impl View for Script {
    type V = ScriptView;

    open spec fn view(&self) -> ScriptView {
        ScriptView { name: self.name@, command: self.command@ }
    }
}

impl Clone for Script {
    fn clone(&self) -> (copy: Script)
        ensures
            copy@ == self@,
    {
        Script { name: self.name.clone(), command: self.command.clone() }
    }
}

impl Script {
    /// The script `name` that runs `command`.
    pub fn new(name: String, command: String) -> (script: Script)
        ensures
            script@ == (ScriptView { name: name@, command: command@ }),
    {
        Script { name, command }
    }
}

/// The views of a list of scripts.
pub open spec fn entries(list: Seq<Script>) -> Seq<ScriptView> {
    Seq::new(list.len(), |i: int| list[i]@)
}

/// `a` comes no later than `b` in lexicographic order by code point.
pub open spec fn text_le(a: Seq<char>, b: Seq<char>) -> bool
    decreases a.len(),
{
    if a.len() == 0 {
        true
    } else if b.len() == 0 {
        false
    } else if a[0] != b[0] {
        a[0] < b[0]
    } else {
        text_le(a.drop_first(), b.drop_first())
    }
}

/// `a` is listed no later than `b`: by name, and by command between
/// entries of one name.
pub open spec fn entry_le(a: ScriptView, b: ScriptView) -> bool {
    if a.name == b.name {
        text_le(a.command, b.command)
    } else {
        text_le(a.name, b.name)
    }
}

/// The order of the selection list.
pub open spec fn by_name() -> spec_fn(ScriptView, ScriptView) -> bool {
    |a: ScriptView, b: ScriptView| entry_le(a, b)
}

/// The names of `list` ascend.
pub open spec fn names_ascend(list: Seq<ScriptView>) -> bool {
    forall|i: int, j: int| 0 <= i < j < list.len() ==> text_le(list[i].name, list[j].name)
}

/// No two scripts of `list` have the same name. This is what a manifest's
/// script mapping guarantees of its entries.
pub open spec fn names_unique(list: Seq<ScriptView>) -> bool {
    forall|i: int, j: int|
        0 <= i < j < list.len() ==> (#[trigger] list[i]).name != (#[trigger] list[j]).name
}

/// The names of `list` ascend strictly: each comes before the next and
/// differs from it.
pub open spec fn names_ascend_strictly(list: Seq<ScriptView>) -> bool {
    forall|i: int, j: int|
        0 <= i < j < list.len() ==> text_le((#[trigger] list[i]).name, (#[trigger] list[j]).name)
            && list[i].name != list[j].name
}

/// The scripts in the order of the selection list.
pub open spec fn listing(list: Seq<ScriptView>) -> Seq<ScriptView> {
    list.sort_by(by_name())
}

/// The label that stands for a script in the selection list.
pub open spec fn label(entry: ScriptView) -> Seq<char> {
    entry.name + ": "@ + entry.command
}

/// The labels of a list of scripts, in order.
pub open spec fn labels(list: Seq<ScriptView>) -> Seq<Seq<char>> {
    Seq::new(list.len(), |i: int| label(list[i]))
}

/// The name of the first script of `list` whose label is `selection`.
pub open spec fn chosen(list: Seq<ScriptView>, selection: Seq<char>) -> Option<Seq<char>>
    decreases list.len(),
{
    if list.len() == 0 {
        None
    } else if label(list[0]) == selection {
        Some(list[0].name)
    } else {
        chosen(list.drop_first(), selection)
    }
}

/// Every text comes no later than itself.
pub proof fn lemma_text_le_reflexive(a: Seq<char>)
    ensures
        text_le(a, a),
    decreases a.len(),
{
    if a.len() > 0 {
        lemma_text_le_reflexive(a.drop_first());
    }
}

/// Of two texts one comes no later than the other.
pub proof fn lemma_text_le_total(a: Seq<char>, b: Seq<char>)
    ensures
        text_le(a, b) || text_le(b, a),
    decreases a.len(),
{
    if a.len() > 0 && b.len() > 0 && a[0] == b[0] {
        lemma_text_le_total(a.drop_first(), b.drop_first());
    }
}

/// Two texts that each come no later than the other are the same text.
pub proof fn lemma_text_le_antisymmetric(a: Seq<char>, b: Seq<char>)
    requires
        text_le(a, b),
        text_le(b, a),
    ensures
        a == b,
    decreases a.len(),
{
    if a.len() > 0 && b.len() > 0 {
        lemma_text_le_antisymmetric(a.drop_first(), b.drop_first());
        assert(a =~= seq![a[0]] + a.drop_first());
        assert(b =~= seq![b[0]] + b.drop_first());
    } else {
        assert(a =~= b);
    }
}

/// The order of texts is transitive.
pub proof fn lemma_text_le_transitive(a: Seq<char>, b: Seq<char>, c: Seq<char>)
    requires
        text_le(a, b),
        text_le(b, c),
    ensures
        text_le(a, c),
    decreases a.len(),
{
    if a.len() > 0 && b.len() > 0 && c.len() > 0 && a[0] == b[0] && b[0] == c[0] {
        lemma_text_le_transitive(a.drop_first(), b.drop_first(), c.drop_first());
    }
}

/// Of two scripts one is listed no later than the other.
pub proof fn lemma_entry_le_total(a: ScriptView, b: ScriptView)
    ensures
        entry_le(a, b) || entry_le(b, a),
{
    lemma_text_le_total(a.name, b.name);
    lemma_text_le_total(a.command, b.command);
}

/// The order of scripts is transitive.
pub proof fn lemma_entry_le_transitive(a: ScriptView, b: ScriptView, c: ScriptView)
    requires
        entry_le(a, b),
        entry_le(b, c),
    ensures
        entry_le(a, c),
{
    if a.name == b.name && b.name == c.name {
        lemma_text_le_transitive(a.command, b.command, c.command);
    } else if a.name == b.name || b.name == c.name {
    } else if a.name == c.name {
        lemma_text_le_antisymmetric(a.name, b.name);
    } else {
        lemma_text_le_transitive(a.name, b.name, c.name);
    }
}

/// The order of the selection list is a total order on scripts.
pub proof fn lemma_by_name_is_total_ordering()
    ensures
        total_ordering(by_name()),
{
    let r = by_name();
    assert forall|x: ScriptView| #[trigger] r(x, x) by {
        lemma_text_le_reflexive(x.command);
    }
    assert forall|x: ScriptView, y: ScriptView| #[trigger] r(x, y) && #[trigger] r(y, x) implies x
        == y by {
        if x.name == y.name {
            lemma_text_le_antisymmetric(x.command, y.command);
        } else {
            lemma_text_le_antisymmetric(x.name, y.name);
        }
    }
    assert forall|x: ScriptView, y: ScriptView, z: ScriptView| #[trigger]
        r(x, y) && #[trigger] r(y, z) implies r(x, z) by {
        lemma_entry_le_transitive(x, y, z);
    }
    assert forall|x: ScriptView, y: ScriptView| #[trigger] r(x, y) || #[trigger] r(y, x) by {
        lemma_entry_le_total(x, y);
    }
}

/// In a list in the order of the selection list the names ascend.
pub proof fn lemma_sorted_names_ascend(sorted: Seq<ScriptView>)
    requires
        sorted_by(sorted, by_name()),
    ensures
        names_ascend(sorted),
{
    assert forall|i: int, j: int| 0 <= i < j < sorted.len() implies text_le(
        sorted[i].name,
        sorted[j].name,
    ) by {
        assert(by_name()(sorted[i], sorted[j]));
        if sorted[i].name == sorted[j].name {
            lemma_text_le_reflexive(sorted[i].name);
        }
    }
}

/// The selection list is ordered by name and holds each script of the
/// manifest exactly once: nothing is dropped, nothing is shown twice, and
/// every script has one label.
pub proof fn lemma_listing_is_sorted_bijection(list: Seq<ScriptView>)
    ensures
        sorted_by(listing(list), by_name()),
        names_ascend(listing(list)),
        listing(list).to_multiset() == list.to_multiset(),
        listing(list).len() == list.len(),
        labels(listing(list)).len() == list.len(),
        forall|i: int|
            0 <= i < list.len() ==> labels(listing(list))[i] == label(#[trigger] listing(list)[i]),
{
    lemma_by_name_is_total_ordering();
    list.lemma_sort_by_ensures(by_name());
    let sorted = listing(list);
    assert(sorted.len() == list.len()) by {
        vstd::seq_lib::to_multiset_len(sorted);
        vstd::seq_lib::to_multiset_len(list);
    }
    lemma_sorted_names_ascend(sorted);
}

/// The scripts of a mapping keep their unique names in the selection
/// list, where the names ascend strictly: no name is shown twice, and the
/// order of the list is fixed by the names alone.
pub proof fn lemma_unique_names_list_strictly(list: Seq<ScriptView>)
    requires
        names_unique(list),
    ensures
        names_unique(listing(list)),
        names_ascend_strictly(listing(list)),
{
    broadcast use vstd::seq_lib::group_to_multiset_ensures;

    let sorted = listing(list);
    lemma_listing_is_sorted_bijection(list);
    assert(list.no_duplicates()) by {
        assert forall|i: int, j: int| 0 <= i < list.len() && 0 <= j < list.len() && i
            != j implies list[i] != list[j] by {
            if i < j {
                assert(list[i].name != list[j].name);
            } else {
                assert(list[j].name != list[i].name);
            }
        }
    }
    list.lemma_multiset_has_no_duplicates();
    sorted.lemma_multiset_has_no_duplicates_conv();
    assert forall|i: int, j: int| 0 <= i < j < sorted.len() implies (#[trigger] sorted[i]).name
        != (#[trigger] sorted[j]).name by {
        assert(sorted[i] != sorted[j]);
        assert(sorted.to_multiset().contains(sorted[i]));
        assert(sorted.to_multiset().contains(sorted[j]));
        assert(list.contains(sorted[i]));
        assert(list.contains(sorted[j]));
        let a = choose|a: int| 0 <= a < list.len() && list[a] == sorted[i];
        let b = choose|b: int| 0 <= b < list.len() && list[b] == sorted[j];
        if a < b {
            assert(list[a].name != list[b].name);
        } else if b < a {
            assert(list[b].name != list[a].name);
        }
    }
}

/// A label of the list always resolves: to the script it stands for, unless
/// an earlier script has the same label.
pub proof fn lemma_offered_choice_resolves(list: Seq<ScriptView>, i: int)
    requires
        0 <= i < list.len(),
    ensures
        chosen(list, label(list[i])) is Some,
        (forall|j: int| 0 <= j < i ==> label(#[trigger] list[j]) != label(list[i])) ==> chosen(
            list,
            label(list[i]),
        ) == Some(list[i].name),
    decreases list.len(),
{
    if label(list[0]) != label(list[i]) {
        let rest = list.drop_first();
        assert(rest[i - 1] == list[i]);
        lemma_offered_choice_resolves(rest, i - 1);
        if forall|j: int| 0 <= j < i ==> label(#[trigger] list[j]) != label(list[i]) {
            assert forall|j: int| 0 <= j < i - 1 implies label(#[trigger] rest[j]) != label(
                rest[i - 1],
            ) by {
                assert(rest[j] == list[j + 1]);
            }
        }
    }
}

/// Decides `text_le`.
pub fn text_precedes(a: &str, b: &str) -> (r: bool)
    ensures
        r == text_le(a@, b@),
{
    let x = chars_of(a);
    let y = chars_of(b);
    let mut i: usize = 0;
    assert(x@.skip(0) =~= x@ && y@.skip(0) =~= y@);
    while i < x.len() && i < y.len() && x[i] == y[i]
        invariant
            i <= x.len(),
            i <= y.len(),
            text_le(x@, y@) == text_le(x@.skip(i as int), y@.skip(i as int)),
        decreases x.len() - i,
    {
        assert(x@.skip(i as int).drop_first() =~= x@.skip(i as int + 1));
        assert(y@.skip(i as int).drop_first() =~= y@.skip(i as int + 1));
        i = i + 1;
    }
    if i >= x.len() {
        true
    } else if i >= y.len() {
        false
    } else {
        x[i] < y[i]
    }
}

/// Decides `entry_le`.
pub fn entry_precedes(a: &Script, b: &Script) -> (r: bool)
    ensures
        r == entry_le(a@, b@),
{
    if a.name == b.name {
        text_precedes(a.command.as_str(), b.command.as_str())
    } else {
        text_precedes(a.name.as_str(), b.name.as_str())
    }
}

/// Puts the scripts of a manifest in the order of the selection list. The
/// result holds the same scripts, each as often as the manifest does, with
/// ascending names.
pub fn sort_scripts(scripts: Vec<Script>) -> (sorted: Vec<Script>)
    ensures
        entries(sorted@) == listing(entries(scripts@)),
        sorted_by(entries(sorted@), by_name()),
        names_ascend(entries(sorted@)),
        entries(sorted@).to_multiset() == entries(scripts@).to_multiset(),
        sorted.len() == scripts.len(),
{
    broadcast use vstd::seq_lib::group_to_multiset_ensures;

    let ghost given = entries(scripts@);
    let mut rest = scripts;
    let mut sorted: Vec<Script> = Vec::new();
    assert(entries(sorted@) =~= Seq::<ScriptView>::empty());
    assert(entries(sorted@).to_multiset().add(entries(rest@).to_multiset())
        =~= given.to_multiset());
    while rest.len() > 0
        invariant
            sorted_by(entries(sorted@), by_name()),
            entries(sorted@).to_multiset().add(entries(rest@).to_multiset())
                == given.to_multiset(),
        decreases rest.len(),
    {
        let ghost before = entries(sorted@);
        let ghost waiting = entries(rest@);
        let item = rest.pop().unwrap();
        let mut at: usize = 0;
        while at < sorted.len() && !entry_precedes(&item, &sorted[at])
            invariant
                at <= sorted.len(),
                before == entries(sorted@),
                forall|j: int| 0 <= j < at ==> entry_le(before[j], item@),
            decreases sorted.len() - at,
        {
            proof {
                lemma_entry_le_total(item@, before[at as int]);
            }
            at = at + 1;
        }
        sorted.insert(at, item);
        proof {
            let after = entries(sorted@);
            assert(after =~= before.insert(at as int, item@));
            assert(waiting =~= entries(rest@).push(item@));
            to_multiset_insert(before, at as int, item@);
            to_multiset_build(entries(rest@), item@);
            assert(after.to_multiset().add(entries(rest@).to_multiset())
                =~= before.to_multiset().add(waiting.to_multiset()));
            assert forall|i: int, j: int| 0 <= i < j < after.len() implies #[trigger] by_name()(
                after[i],
                after[j],
            ) by {
                if j < at {
                    assert(by_name()(before[i], before[j]));
                } else if j == at {
                } else if i < at {
                    assert(by_name()(before[i], before[j - 1]));
                } else if i == at {
                    if j - 1 > at {
                        assert(by_name()(before[at as int], before[j - 1]));
                        lemma_entry_le_transitive(item@, before[at as int], before[j - 1]);
                    }
                } else {
                    assert(by_name()(before[i - 1], before[j - 1]));
                }
            }
        }
    }
    proof {
        assert(entries(rest@) =~= Seq::<ScriptView>::empty());
        assert(entries(sorted@).to_multiset() =~= given.to_multiset());
        lemma_listing_is_sorted_bijection(given);
        lemma_by_name_is_total_ordering();
        lemma_sorted_unique(entries(sorted@), listing(given), by_name());
    }
    sorted
}

/// The label of one script.
pub fn label_of(script: &Script) -> (text: String)
    ensures
        text@ == label(script@),
{
    let mut text = script.name.clone();
    text.append(": ");
    text.append(script.command.as_str());
    text
}

/// The labels of the selection list, one per script, in the order given.
pub fn selection_labels(scripts: &Vec<Script>) -> (list: Vec<String>)
    ensures
        texts(list@) == labels(entries(scripts@)),
{
    let mut list: Vec<String> = Vec::new();
    let mut i: usize = 0;
    while i < scripts.len()
        invariant
            i <= scripts.len(),
            list.len() == i,
            forall|j: int| 0 <= j < i ==> list@[j]@ == label(scripts@[j]@),
        decreases scripts.len() - i,
    {
        list.push(label_of(&scripts[i]));
        i = i + 1;
    }
    assert(texts(list@) =~= labels(entries(scripts@)));
    list
}

/// The name of the script that a selected label stands for: that of the
/// first script with this label, and nothing where no script has it.
pub fn resolve_selection(scripts: &Vec<Script>, selection: &str) -> (name: Option<String>)
    ensures
        match name {
            Some(n) => chosen(entries(scripts@), selection@) == Some(n@),
            None => chosen(entries(scripts@), selection@) is None,
        },
{
    let wanted = selection.to_owned();
    let ghost all = entries(scripts@);
    let mut i: usize = 0;
    assert(all.skip(0) =~= all);
    while i < scripts.len()
        invariant
            i <= scripts.len(),
            all == entries(scripts@),
            wanted@ == selection@,
            chosen(all, selection@) == chosen(all.skip(i as int), selection@),
        decreases scripts.len() - i,
    {
        assert(all.skip(i as int)[0] == scripts@[i as int]@);
        if label_of(&scripts[i]) == wanted {
            return Some(scripts[i].name.clone());
        }
        assert(all.skip(i as int).drop_first() =~= all.skip(i as int + 1));
        i = i + 1;
    }
    None
}

} // verus!
