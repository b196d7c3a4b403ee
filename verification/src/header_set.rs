use vstd::prelude::*;

use crate::header_name::{
    names_match, same_name, same_name_reflexive, same_name_symmetric, same_name_transitive,
};

verus! {

/// Index of the first entry that carries `name`; the number of entries when
/// no entry carries it.
pub open spec fn position_of(entries: Seq<(Seq<char>, Seq<char>)>, name: Seq<char>) -> int
    decreases entries.len(),
{
    if entries.len() == 0 {
        0
    } else if same_name(entries[0].0, name) {
        0
    } else {
        1 + position_of(entries.drop_first(), name)
    }
}

/// Whether some entry carries `name`.
pub open spec fn has_header(entries: Seq<(Seq<char>, Seq<char>)>, name: Seq<char>) -> bool {
    position_of(entries, name) < entries.len()
}

/// The value that the entries give to `name`.
pub open spec fn header_value(entries: Seq<(Seq<char>, Seq<char>)>, name: Seq<char>) -> Option<
    Seq<char>,
> {
    if has_header(entries, name) {
        Some(entries[position_of(entries, name)].1)
    } else {
        None
    }
}

/// The entries once `name` has been given `value`: the entry that carried the
/// name is replaced where it stood, and a new name goes to the end.
pub open spec fn with_header(
    entries: Seq<(Seq<char>, Seq<char>)>,
    name: Seq<char>,
    value: Seq<char>,
) -> Seq<(Seq<char>, Seq<char>)> {
    if has_header(entries, name) {
        entries.update(position_of(entries, name), (name, value))
    } else {
        entries.push((name, value))
    }
}

/// The entries once `name` has been given `value` unless it had one already.
pub open spec fn with_default_header(
    entries: Seq<(Seq<char>, Seq<char>)>,
    name: Seq<char>,
    value: Seq<char>,
) -> Seq<(Seq<char>, Seq<char>)> {
    if has_header(entries, name) {
        entries
    } else {
        entries.push((name, value))
    }
}

/// The entries without the one that carries `name`.
pub open spec fn without_header(entries: Seq<(Seq<char>, Seq<char>)>, name: Seq<char>) -> Seq<
    (Seq<char>, Seq<char>),
> {
    if has_header(entries, name) {
        entries.remove(position_of(entries, name))
    } else {
        entries
    }
}

/// No two entries carry the same header name.
pub open spec fn distinct_names(entries: Seq<(Seq<char>, Seq<char>)>) -> bool {
    forall|i: int, j: int|
        0 <= i < j < entries.len() ==> !same_name(
            (#[trigger] entries[i]).0,
            (#[trigger] entries[j]).0,
        )
}

/// `position_of` is the first index whose entry carries the name.
pub proof fn position_of_is_first(entries: Seq<(Seq<char>, Seq<char>)>, name: Seq<char>)
    ensures
        0 <= position_of(entries, name) <= entries.len(),
        has_header(entries, name) ==> same_name(entries[position_of(entries, name)].0, name),
        forall|j: int|
            0 <= j < position_of(entries, name) ==> !same_name((#[trigger] entries[j]).0, name),
    decreases entries.len(),
{
    if entries.len() != 0 && !same_name(entries[0].0, name) {
        let rest = entries.drop_first();
        position_of_is_first(rest, name);
        assert forall|j: int| 0 <= j < position_of(entries, name) implies !same_name(
            (#[trigger] entries[j]).0,
            name,
        ) by {
            if j > 0 {
                assert(entries[j] == rest[j - 1]);
            }
        }
    }
}

/// An index before which no entry carries the name, and which is the end or
/// carries the name itself, is `position_of`.
pub proof fn first_match_is_position_of(
    entries: Seq<(Seq<char>, Seq<char>)>,
    name: Seq<char>,
    k: int,
)
    requires
        0 <= k <= entries.len(),
        forall|j: int| 0 <= j < k ==> !same_name((#[trigger] entries[j]).0, name),
        k < entries.len() ==> same_name(entries[k].0, name),
    ensures
        position_of(entries, name) == k,
    decreases entries.len(),
{
    if entries.len() != 0 && !same_name(entries[0].0, name) {
        let rest = entries.drop_first();
        assert forall|j: int| 0 <= j < k - 1 implies !same_name((#[trigger] rest[j]).0, name) by {
            assert(rest[j] == entries[j + 1]);
        }
        first_match_is_position_of(rest, name, k - 1);
    }
}

/// Some entry carries the name exactly when `has_header` says so.
pub proof fn has_header_iff_some_entry(entries: Seq<(Seq<char>, Seq<char>)>, name: Seq<char>)
    ensures
        has_header(entries, name) <==> exists|i: int|
            0 <= i < entries.len() && same_name((#[trigger] entries[i]).0, name),
{
    position_of_is_first(entries, name);
}

/// Looking a name up does not depend on how the name is spelled.
pub proof fn position_of_same_name(
    entries: Seq<(Seq<char>, Seq<char>)>,
    name: Seq<char>,
    other: Seq<char>,
)
    requires
        same_name(name, other),
    ensures
        position_of(entries, name) == position_of(entries, other),
{
    position_of_is_first(entries, name);
    let k = position_of(entries, name);
    assert forall|j: int| 0 <= j < k implies !same_name((#[trigger] entries[j]).0, other) by {
        if same_name(entries[j].0, other) {
            same_name_symmetric(name, other);
            same_name_transitive(entries[j].0, other, name);
        }
    }
    if k < entries.len() {
        same_name_transitive(entries[k].0, name, other);
    }
    first_match_is_position_of(entries, other, k);
}

/// Giving a name a value keeps the names distinct, gives that name that value
/// and leaves every other name with what it had.
pub proof fn with_header_law(
    entries: Seq<(Seq<char>, Seq<char>)>,
    name: Seq<char>,
    value: Seq<char>,
    other: Seq<char>,
)
    requires
        distinct_names(entries),
    ensures
        distinct_names(with_header(entries, name, value)),
        header_value(with_header(entries, name, value), name) == Some(value),
        !same_name(other, name) ==> header_value(with_header(entries, name, value), other)
            == header_value(entries, other),
        with_header(entries, name, value).len() == if has_header(entries, name) {
            entries.len()
        } else {
            entries.len() + 1
        },
{
    position_of_is_first(entries, name);
    position_of_is_first(entries, other);
    let k = position_of(entries, name);
    let after = with_header(entries, name, value);
    // the new spelling stands where an entry of that name stood, or at the end
    assert forall|i: int, j: int| 0 <= i < j < after.len() implies !same_name(
        (#[trigger] after[i]).0,
        (#[trigger] after[j]).0,
    ) by {
        if same_name(after[i].0, after[j].0) {
            let (same, moved) = if i == k { (j, i) } else { (i, j) };
            if moved == k {
                same_name_symmetric(entries[same].0, name);
                if k < entries.len() {
                    same_name_symmetric(entries[k].0, name);
                    same_name_transitive(entries[same].0, name, entries[k].0);
                    same_name_symmetric(entries[same].0, entries[k].0);
                }
            }
        }
    }
    same_name_reflexive(name);
    first_match_is_position_of(after, name, k);
    if !same_name(other, name) {
        let m = position_of(entries, other);
        same_name_symmetric(name, other);
        if m == k && k < entries.len() {
            same_name_symmetric(entries[k].0, name);
            same_name_transitive(other, name, entries[k].0);
            same_name_symmetric(other, entries[k].0);
        }
        let found = if m < entries.len() { m } else { after.len() as int };
        first_match_is_position_of(after, other, found);
    }
}

/// Taking a name out keeps the names distinct, leaves that name without a
/// value and every other name with what it had.
pub proof fn without_header_law(
    entries: Seq<(Seq<char>, Seq<char>)>,
    name: Seq<char>,
    other: Seq<char>,
)
    requires
        distinct_names(entries),
    ensures
        distinct_names(without_header(entries, name)),
        !has_header(without_header(entries, name), name),
        !same_name(other, name) ==> header_value(without_header(entries, name), other)
            == header_value(entries, other),
        without_header(entries, name).len() == if has_header(entries, name) {
            entries.len() - 1
        } else {
            entries.len() as int
        },
{
    position_of_is_first(entries, name);
    position_of_is_first(entries, other);
    let k = position_of(entries, name);
    let after = without_header(entries, name);
    if k < entries.len() {
        // an entry of `after` is the entry of `entries` at the same place, or one further on
        assert forall|i: int| 0 <= i < after.len() implies #[trigger] after[i] == entries[if i
            < k {
            i
        } else {
            i + 1
        }] by {}
        assert forall|i: int| 0 <= i < after.len() implies !same_name(
            (#[trigger] after[i]).0,
            name,
        ) by {
            let from = if i < k { i } else { i + 1 };
            if same_name(entries[from].0, name) {
                same_name_symmetric(entries[k].0, name);
                same_name_transitive(entries[from].0, name, entries[k].0);
                same_name_symmetric(entries[from].0, entries[k].0);
            }
        }
        first_match_is_position_of(after, name, after.len() as int);
        if !same_name(other, name) {
            let m = position_of(entries, other);
            if m == k {
                same_name_symmetric(entries[k].0, other);
                same_name_transitive(other, entries[k].0, name);
            }
            let found = if m >= entries.len() {
                after.len() as int
            } else if m < k {
                m
            } else {
                m - 1
            };
            first_match_is_position_of(after, other, found);
        }
    }
}

/// Giving a name a value that it lacks keeps the names distinct; a name that
/// has a value keeps it.
pub proof fn with_default_header_law(
    entries: Seq<(Seq<char>, Seq<char>)>,
    name: Seq<char>,
    value: Seq<char>,
    other: Seq<char>,
)
    requires
        distinct_names(entries),
    ensures
        distinct_names(with_default_header(entries, name, value)),
        header_value(with_default_header(entries, name, value), name) == if has_header(
            entries,
            name,
        ) {
            header_value(entries, name)
        } else {
            Some(value)
        },
        !same_name(other, name) ==> header_value(with_default_header(entries, name, value), other)
            == header_value(entries, other),
{
    if !has_header(entries, name) {
        with_header_law(entries, name, value, other);
    }
}

/// The headers that go out with every request: a map from header name to
/// header value that keeps the order in which the names came in. Names are
/// compared as HTTP compares them, without regard to the case of ASCII
/// letters, and no name occurs twice.
#[derive(Debug)]
pub struct HeaderSet {
    entries: Vec<(String, String)>,
}

impl View for HeaderSet {
    type V = Seq<(Seq<char>, Seq<char>)>;

    closed spec fn view(&self) -> Seq<(Seq<char>, Seq<char>)> {
        self.entries.deep_view()
    }
}

impl HeaderSet {
    /// No name occurs twice: this holds of every header set.
    #[verifier::type_invariant]
    pub open spec fn names_never_repeat(self) -> bool {
        distinct_names(self@)
    }

    /// A header set without entries.
    pub fn new() -> (set: Self)
        ensures
            set@ == Seq::<(Seq<char>, Seq<char>)>::empty(),
    {
        HeaderSet { entries: Vec::new() }
    }

    /// The number of entries.
    pub fn len(&self) -> (n: usize)
        ensures
            n == self@.len(),
    {
        self.entries.len()
    }

    /// Whether the set has no entry.
    pub fn is_empty(&self) -> (empty: bool)
        ensures
            empty == (self@.len() == 0),
    {
        self.entries.len() == 0
    }

    fn find(&self, name: &str) -> (k: usize)
        ensures
            k == position_of(self@, name@),
            k <= self.entries.len(),
    {
        let mut i: usize = 0;
        while i < self.entries.len()
            invariant
                i <= self.entries.len(),
                forall|j: int| 0 <= j < i ==> !same_name((#[trigger] self@[j]).0, name@),
            decreases self.entries.len() - i,
        {
            if names_match(self.entries[i].0.as_str(), name) {
                proof {
                    first_match_is_position_of(self@, name@, i as int);
                }
                return i;
            }
            i += 1;
        }
        proof {
            first_match_is_position_of(self@, name@, i as int);
        }
        i
    }

    /// Whether the set gives `name` a value.
    pub fn contains_key(&self, name: &str) -> (found: bool)
        ensures
            found == has_header(self@, name@),
    {
        self.find(name) < self.entries.len()
    }

    /// The value that the set gives to `name`.
    pub fn get(&self, name: &str) -> (value: Option<&str>)
        ensures
            value.deep_view() == header_value(self@, name@),
    {
        let k = self.find(name);
        if k < self.entries.len() {
            Some(self.entries[k].1.as_str())
        } else {
            None
        }
    }

    /// The entry at `index`, counted in the order in which the names came in.
    pub fn get_index(&self, index: usize) -> (entry: Option<(&str, &str)>)
        ensures
            index < self@.len() ==> entry.deep_view() == Some(self@[index as int]),
            index >= self@.len() ==> entry is None,
    {
        if index < self.entries.len() {
            Some((self.entries[index].0.as_str(), self.entries[index].1.as_str()))
        } else {
            None
        }
    }

    /// The entries, in the order in which the names came in.
    pub fn entries(&self) -> (entries: Vec<(String, String)>)
        ensures
            entries.deep_view() == self@,
    {
        let mut entries: Vec<(String, String)> = Vec::new();
        let mut i: usize = 0;
        while i < self.entries.len()
            invariant
                i <= self.entries.len(),
                entries.deep_view() =~= self.entries.deep_view().take(i as int),
            decreases self.entries.len() - i,
        {
            let name = self.entries[i].0.clone();
            let value = self.entries[i].1.clone();
            let ghost copied = entries.deep_view();
            entries.push((name, value));
            assert(entries.deep_view() =~= copied.push(self.entries.deep_view()[i as int]));
            i += 1;
        }
        entries
    }

    /// Gives `name` the value `value` and returns the value that it had.
    pub fn insert(&mut self, name: String, value: String) -> (previous: Option<String>)
        ensures
            final(self)@ == with_header(old(self)@, name@, value@),
            previous.deep_view() == header_value(old(self)@, name@),
    {
        proof {
            use_type_invariant(&*self);
            with_header_law(self@, name@, value@, name@);
        }
        let k = self.find(name.as_str());
        let ghost before = self@;
        let mut entries: Vec<(String, String)> = Vec::new();
        core::mem::swap(&mut self.entries, &mut entries);
        if k < entries.len() {
            let replaced = entries.remove(k);
            entries.insert(k, (name, value));
            assert(entries.deep_view() =~= with_header(before, name@, value@));
            self.entries = entries;
            Some(replaced.1)
        } else {
            entries.push((name, value));
            assert(entries.deep_view() =~= with_header(before, name@, value@));
            self.entries = entries;
            None
        }
    }

    /// Gives `name` the value `value` unless the set has a value for it.
    pub fn insert_if_absent(&mut self, name: &str, value: &str)
        ensures
            final(self)@ == with_default_header(old(self)@, name@, value@),
    {
        if !self.contains_key(name) {
            self.insert(name.to_owned(), value.to_owned());
        }
    }

    /// Takes the entry of `name` out and returns the value that it had.
    pub fn remove(&mut self, name: &str) -> (previous: Option<String>)
        ensures
            final(self)@ == without_header(old(self)@, name@),
            previous.deep_view() == header_value(old(self)@, name@),
    {
        proof {
            use_type_invariant(&*self);
        }
        let k = self.find(name);
        if k < self.entries.len() {
            let ghost before = self@;
            let mut entries: Vec<(String, String)> = Vec::new();
            core::mem::swap(&mut self.entries, &mut entries);
            let removed = entries.remove(k);
            assert(entries.deep_view() =~= without_header(before, name@));
            self.entries = entries;
            Some(removed.1)
        } else {
            None
        }
    }
}

impl Clone for HeaderSet {
    fn clone(&self) -> (copy: Self)
        ensures
            copy@ == self@,
    {
        proof {
            use_type_invariant(self);
        }
        HeaderSet { entries: self.entries() }
    }
}

} // verus!
