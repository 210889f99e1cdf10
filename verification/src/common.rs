//! Small helpers shared by the other modules.

use std::collections::HashSet;
use std::hash::Hash;
use vstd::prelude::*;
use vstd::std_specs::hash::*;
use vstd::string::*;
use vstd::utf8::*;
use crate::text::{decimal, equal, from_utf8_lossy, number, utf8_lossy};

verus! {

/// Putting an item in front of a sequence adds it to the set of the sequence's items.
proof fn lemma_to_set_front<T>(item: T, rest: Seq<T>)
    ensures
        (seq![item] + rest).to_set() == rest.to_set().insert(item),
{
    let whole = seq![item] + rest;
    assert forall|a: T| whole.to_set().contains(a) <==> rest.to_set().insert(item).contains(a) by {
        if whole.contains(a) {
            let i = choose|i: int| 0 <= i < whole.len() && whole[i] == a;
            if i > 0 {
                assert(rest[i - 1] == a);
            }
        }
        if rest.contains(a) {
            let i = choose|i: int| 0 <= i < rest.len() && rest[i] == a;
            assert(whole[i + 1] == a);
        }
        if a == item {
            assert(whole[0] == a);
        }
    }
    assert(whole.to_set() =~= rest.to_set().insert(item));
}

/// Collects the items of `v` into a set.
pub fn vec_to_set<T>(v: Vec<T>) -> (set: HashSet<T>) where T: Eq + Hash
    ensures
        obeys_key_model::<T>() ==> set@ == v@.to_set(),
{
    broadcast use group_hash_axioms;
    let mut set: HashSet<T> = HashSet::new();
    let ghost items = v@;
    let mut v = v;
    proof {
        assert(items.subrange(items.len() as int, items.len() as int).to_set() =~= Set::<T>::empty());
        assert(v@ =~= items.subrange(0, v@.len() as int));
    }
    while v.len() > 0
        invariant
            obeys_key_model::<T>() ==> set@ == items.subrange(v@.len() as int, items.len() as int).to_set(),
            v@ == items.subrange(0, v@.len() as int),
            v@.len() <= items.len(),
        decreases v.len(),
    {
        let ghost before = v@;
        let item = v.pop().unwrap();
        proof {
            assert(item == items[v@.len() as int]);
            assert(items.subrange(v@.len() as int, items.len() as int)
                =~= seq![item] + items.subrange(before.len() as int, items.len() as int));
            lemma_to_set_front(item, items.subrange(before.len() as int, items.len() as int));
        }
        set.insert(item);
        proof {
            assert(v@ =~= items.subrange(0, v@.len() as int));
        }
    }
    proof {
        assert(items.subrange(0, items.len() as int) =~= items);
    }
    set
}

/// A value that has a text for the user.
pub trait Describe {
    /// The text of the value.
    spec fn text(&self) -> Seq<char>;

    /// Writes the value out.
    fn describe(&self) -> (s: String)
        ensures
            s@ == self.text(),
    ;
}

impl Describe for &str {
    open spec fn text(&self) -> Seq<char> {
        self@
    }

    fn describe(&self) -> (s: String) {
        String::from_str(self)
    }
}

impl Describe for String {
    open spec fn text(&self) -> Seq<char> {
        self@
    }

    fn describe(&self) -> (s: String) {
        self.clone()
    }
}

impl Describe for u32 {
    open spec fn text(&self) -> Seq<char> {
        decimal(*self as nat)
    }

    fn describe(&self) -> (s: String) {
        number(*self as u64)
    }
}

/// The text of `option`: that of its value, or `None`.
pub open spec fn option_text<T: Describe>(option: Option<T>) -> Seq<char> {
    match option {
        None => "None"@,
        Some(value) => value.text(),
    }
}

/// Writes out the value of `option`, or `None` where it has none.
pub fn format_option<T>(option: Option<T>) -> (s: String) where T: Describe
    ensures
        s@ == option_text(option),
{
    match option {
        None => String::from_str("None"),
        Some(value) => value.describe(),
    }
}

/// What warns of `e` in the name of `prefix`.
pub open spec fn warning_text(prefix: Seq<char>, e: Seq<char>) -> Seq<char> {
    prefix + ": "@ + e
}

/// Parts a result into its value and the warning that stands for its error.
pub fn warn_on_err<T, E>(prefix: &str, result: Result<T, E>) -> (r: (Option<T>, Option<String>)) where
    E: Describe,

    ensures
        match result {
            Ok(value) => r.0 == Some(value) && r.1 is None,
            Err(e) => r.0 is None && (r.1 matches Some(warning) && warning@ == warning_text(
                prefix@,
                e.text(),
            )),
        },
{
    match result {
        Ok(value) => (Some(value), None),
        Err(e) => (
            None,
            Some(String::from_str(prefix).concat(": ").concat(e.describe().as_str())),
        ),
    }
}

/// The texts of `items` without repetitions, each at the place where it occurs first.
pub open spec fn distinct(items: Seq<Seq<char>>) -> Seq<Seq<char>>
    decreases items.len(),
{
    if items.len() == 0 {
        Seq::empty()
    } else {
        let earlier = distinct(items.drop_last());
        if earlier.contains(items.last()) {
            earlier
        } else {
            earlier.push(items.last())
        }
    }
}

/// Whether `items` holds the text `item`.
pub fn holds(items: &Vec<String>, item: &str) -> (r: bool)
    ensures
        r == items.deep_view().contains(item@),
{
    let mut i: usize = 0;
    while i < items.len()
        invariant
            i <= items.len(),
            items.deep_view().len() == items.len(),
            forall|j: int| 0 <= j < i ==> #[trigger] items.deep_view()[j] != item@,
        decreases items.len() - i,
    {
        assert(items.deep_view()[i as int] == items@[i as int]@);
        if equal(items[i].as_str(), item) {
            return true;
        }
        i += 1;
    }
    false
}

/// The texts of `v` as a set: no text stays twice, and each stays where it occurs first.
pub fn unique(v: Vec<String>) -> (set: Vec<String>)
    ensures
        set.deep_view() == distinct(v.deep_view()),
        set.deep_view().no_duplicates(),
{
    let mut set: Vec<String> = Vec::new();
    let mut i: usize = 0;
    assert(v.deep_view().take(0) =~= Seq::<Seq<char>>::empty());
    assert(set.deep_view() =~= Seq::<Seq<char>>::empty());
    while i < v.len()
        invariant
            i <= v.len(),
            v.deep_view().len() == v.len(),
            set.deep_view() == distinct(v.deep_view().take(i as int)),
            set.deep_view().no_duplicates(),
        decreases v.len() - i,
    {
        let ghost prefix = v.deep_view().take(i as int + 1);
        let ghost before = set.deep_view();
        assert(prefix.drop_last() =~= v.deep_view().take(i as int));
        assert(prefix.last() == v@[i as int]@);
        if !holds(&set, v[i].as_str()) {
            set.push(v[i].clone());
            assert(set.deep_view() =~= before.push(v@[i as int]@));
        }
        i += 1;
    }
    assert(v.deep_view().take(i as int) =~= v.deep_view());
    set
}

/// The texts of `items` in a row, with a comma and a blank between two of them.
pub open spec fn joined(items: Seq<Seq<char>>) -> Seq<char>
    decreases items.len(),
{
    if items.len() == 0 {
        Seq::empty()
    } else if items.len() == 1 {
        items[0]
    } else {
        joined(items.drop_last()) + ", "@ + items.last()
    }
}

/// Writes the texts of `set` in a row, with a comma and a blank between two of them.
pub fn format_string_set(set: &Vec<String>) -> (result: String)
    ensures
        result@ == joined(set.deep_view()),
{
    let mut result = String::new();
    let mut i: usize = 0;
    assert(set.deep_view().take(0) =~= Seq::<Seq<char>>::empty());
    while i < set.len()
        invariant
            i <= set.len(),
            set.deep_view().len() == set.len(),
            result@ == joined(set.deep_view().take(i as int)),
        decreases set.len() - i,
    {
        let ghost prefix = set.deep_view().take(i as int + 1);
        assert(prefix.drop_last() =~= set.deep_view().take(i as int));
        assert(prefix.last() == set@[i as int]@);
        if i > 0 {
            result.append(", ");
        } else {
            assert(result@ =~= Seq::<char>::empty());
        }
        result.append(set[i].as_str());
        assert(result@ =~= joined(prefix));
        i += 1;
    }
    assert(set.deep_view().take(i as int) =~= set.deep_view());
    result
}

/// The text of `bytes` read as UTF-8, with a replacement character for what is no UTF-8.
pub fn slice_to_string(slice: &[u8]) -> (s: String)
    ensures
        s@ == utf8_lossy(slice@),
        valid_utf8(slice@) ==> s@ == decode_utf8(slice@),
{
    from_utf8_lossy(slice)
}

/// The line that lists `item` at the place `index`, counted from zero.
pub open spec fn numbered_line(index: int, item: Seq<char>) -> Seq<char> {
    decimal((index + 1) as nat) + ". "@ + item
}

/// The lines that list `slice`, numbered from one.
pub fn print_slice(slice: &Vec<String>) -> (lines: Vec<String>)
    ensures
        lines.len() == slice.len(),
        forall|i: int| 0 <= i < slice.len() ==> (#[trigger] lines@[i])@ == numbered_line(i, slice@[i]@),
{
    let mut lines: Vec<String> = Vec::new();
    let mut i: usize = 0;
    while i < slice.len()
        invariant
            i <= slice.len(),
            lines.len() == i,
            forall|j: int| 0 <= j < i ==> (#[trigger] lines@[j])@ == numbered_line(j, slice@[j]@),
        decreases slice.len() - i,
    {
        lines.push(number(i as u64 + 1).concat(". ").concat(slice[i].as_str()));
        i += 1;
    }
    lines
}

} // verus!
