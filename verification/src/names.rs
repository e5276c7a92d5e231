//! Text in ascending order, and maps that are keyed by it.
use vstd::prelude::*;

verus! {

/// Whether `a` stands before `b` in the order in which `str` values are sorted:
/// at the first place where they differ the smaller character decides, and a text
/// stands before every longer text that begins with it.
pub open spec fn text_before(a: Seq<char>, b: Seq<char>) -> bool
    decreases a.len(),
{
    if b.len() == 0 {
        false
    } else if a.len() == 0 {
        true
    } else if a[0] == b[0] {
        text_before(a.drop_first(), b.drop_first())
    } else {
        (a[0] as int) < (b[0] as int)
    }
}

/// No text stands before itself.
pub proof fn text_before_irreflexive(a: Seq<char>)
    ensures
        !text_before(a, a),
    decreases a.len(),
{
    if a.len() > 0 {
        text_before_irreflexive(a.drop_first());
    }
}

/// The order is transitive.
pub proof fn text_before_transitive(a: Seq<char>, b: Seq<char>, c: Seq<char>)
    requires
        text_before(a, b),
        text_before(b, c),
    ensures
        text_before(a, c),
    decreases a.len(),
{
    if a.len() > 0 && a[0] == b[0] && b[0] == c[0] {
        text_before_transitive(a.drop_first(), b.drop_first(), c.drop_first());
    }
}

/// Of two different texts one stands before the other.
pub proof fn text_before_total(a: Seq<char>, b: Seq<char>)
    ensures
        a == b || text_before(a, b) || text_before(b, a),
    decreases a.len(),
{
    if a.len() == 0 || b.len() == 0 {
        if a.len() == b.len() {
            assert(a =~= b);
        }
    } else if a[0] == b[0] {
        text_before_total(a.drop_first(), b.drop_first());
        if a.drop_first() == b.drop_first() {
            assert(a =~= seq![a[0]] + a.drop_first());
            assert(b =~= seq![b[0]] + b.drop_first());
        }
    }
}

/// Where two texts first differ, the smaller character decides, whatever follows.
pub proof fn first_difference_decides(
    prefix: Seq<char>,
    c: char,
    d: char,
    x: Seq<char>,
    y: Seq<char>,
)
    requires
        (c as int) < (d as int),
    ensures
        text_before(prefix + seq![c] + x, prefix + seq![d] + y),
        !text_before(prefix + seq![d] + y, prefix + seq![c] + x),
    decreases prefix.len(),
{
    let (a, b) = (prefix + seq![c] + x, prefix + seq![d] + y);
    if prefix.len() > 0 {
        let rest = prefix.drop_first();
        assert(a.drop_first() =~= rest + seq![c] + x);
        assert(b.drop_first() =~= rest + seq![d] + y);
        first_difference_decides(rest, c, d, x, y);
    }
}

/// A text stands before every longer text that begins with it.
pub proof fn beginnings_stand_before(prefix: Seq<char>, c: char, x: Seq<char>)
    ensures
        text_before(prefix, prefix + seq![c] + x),
        !text_before(prefix + seq![c] + x, prefix),
    decreases prefix.len(),
{
    if prefix.len() > 0 {
        let rest = prefix.drop_first();
        assert((prefix + seq![c] + x).drop_first() =~= rest + seq![c] + x);
        beginnings_stand_before(rest, c, x);
    }
}

/// How one text stands to another.
#[derive(Clone, Copy, Debug, PartialEq, Eq, Structural)]
pub enum TextOrder {
    Before,
    Same,
    After,
}

/// The characters of a text, in order.
pub(crate) fn characters(text: &str) -> (characters: Vec<char>)
    ensures
        characters@ == text@,
{
    let mut characters: Vec<char> = Vec::new();
    for c in iter: text.chars()
        invariant
            characters@ == text@.take(iter.index() as int),
            iter.seq() == text@,
    {
        characters.push(c);
    }
    characters
}

/// Finds out how `a` stands to `b`.
pub fn order_text(a: &str, b: &str) -> (order: TextOrder)
    ensures
        match order {
            TextOrder::Before => text_before(a@, b@),
            TextOrder::Same => a@ == b@,
            TextOrder::After => text_before(b@, a@),
        },
{
    let left = characters(a);
    let right = characters(b);
    let mut i: usize = 0;
    assert(a@.skip(0) =~= a@);
    assert(b@.skip(0) =~= b@);
    while i < left.len() && i < right.len()
        invariant
            left@ == a@,
            right@ == b@,
            i <= left.len(),
            i <= right.len(),
            a@.take(i as int) == b@.take(i as int),
            text_before(a@, b@) == text_before(a@.skip(i as int), b@.skip(i as int)),
            text_before(b@, a@) == text_before(b@.skip(i as int), a@.skip(i as int)),
        decreases left.len() - i,
    {
        let c: char = left[i];
        let d: char = right[i];
        if c != d {
            if c < d {
                return TextOrder::Before;
            }
            return TextOrder::After;
        }
        proof {
            assert(a@.skip(i as int).drop_first() =~= a@.skip(i + 1));
            assert(b@.skip(i as int).drop_first() =~= b@.skip(i + 1));
            assert(a@.take(i + 1) =~= a@.take(i as int).push(a@[i as int]));
            assert(b@.take(i + 1) =~= b@.take(i as int).push(b@[i as int]));
        }
        i += 1;
    }
    if left.len() < right.len() {
        TextOrder::Before
    } else if left.len() > right.len() {
        TextOrder::After
    } else {
        assert(a@.take(i as int) =~= a@);
        assert(b@.take(i as int) =~= b@);
        TextOrder::Same
    }
}

/// Whether texts stand in strictly ascending order, and so without a repetition.
pub open spec fn texts_ascend(texts: Seq<Seq<char>>) -> bool {
    forall|i: int, j: int|
        0 <= i < j < texts.len() ==> text_before(#[trigger] texts[i], #[trigger] texts[j])
}

/// The texts of a list of strings.
pub open spec fn texts(strings: Seq<String>) -> Seq<Seq<char>> {
    Seq::new(strings.len(), |i: int| strings[i]@)
}

/// The names of a list of named values.
pub open spec fn names_of<T>(entries: Seq<(Seq<char>, T)>) -> Seq<Seq<char>> {
    Seq::new(entries.len(), |i: int| entries[i].0)
}

/// Which value each name has in a list of named values.
pub open spec fn entries_map<T>(entries: Seq<(Seq<char>, T)>) -> Map<Seq<char>, T> {
    Map::new(
        |name: Seq<char>| names_of(entries).contains(name),
        |name: Seq<char>| entries[names_of(entries).index_of(name)].1,
    )
}

/// The texts of strings and the names of entries are told one by one, in order.
pub proof fn texts_and_names_are_told_one_by_one<T>(
    strings: Seq<String>,
    entries: Seq<(Seq<char>, T)>,
)
    ensures
        texts(strings).len() == strings.len(),
        forall|i: int| 0 <= i < strings.len() ==> (#[trigger] texts(strings)[i]) == strings[i]@,
        names_of(entries).len() == entries.len(),
        forall|i: int|
            0 <= i < entries.len() ==> (#[trigger] names_of(entries)[i]) == entries[i].0,
{
}

/// Ascending texts stand each before all that follow, so none occurs twice.
pub proof fn ascending_texts_do_not_repeat(ascending: Seq<Seq<char>>, i: int, j: int)
    requires
        texts_ascend(ascending),
        0 <= i < j < ascending.len(),
    ensures
        text_before(ascending[i], ascending[j]),
        ascending[i] != ascending[j],
{
    text_before_irreflexive(ascending[i]);
}

/// Where no two entries share a name, the map of a list holds the value of each entry under
/// its name, and no other name.
pub proof fn entries_are_mapped_by_name<T>(entries: Seq<(Seq<char>, T)>, i: int)
    requires
        0 <= i < entries.len(),
        forall|j: int, k: int|
            0 <= j < k < entries.len() ==> (#[trigger] entries[j]).0 != (#[trigger] entries[k]).0,
    ensures
        entries_map(entries).dom().contains(entries[i].0),
        entries_map(entries)[entries[i].0] == entries[i].1,
        forall|name: Seq<char>| #[trigger]
            entries_map(entries).dom().contains(name) ==> exists|k: int|
                0 <= k < entries.len() && (#[trigger] entries[k]).0 == name,
{
    let names = names_of(entries);
    assert(names[i] == entries[i].0);
    assert(names.contains(entries[i].0));
    let k = names.index_of(entries[i].0);
    assert(entries[k].0 == entries[i].0);
    assert forall|name: Seq<char>| #[trigger]
        entries_map(entries).dom().contains(name) implies exists|k: int|
        0 <= k < entries.len() && (#[trigger] entries[k]).0 == name by {
        let at = names.index_of(name);
        assert(names.contains(name));
        assert(entries[at].0 == name);
    }
}

/// A name that stands in an ascending list has the value that stands beside it.
proof fn entry_in_map<T>(entries: Seq<(Seq<char>, T)>, i: int)
    requires
        texts_ascend(names_of(entries)),
        0 <= i < entries.len(),
    ensures
        entries_map(entries).dom().contains(entries[i].0),
        entries_map(entries)[entries[i].0] == entries[i].1,
{
    let names = names_of(entries);
    assert(names[i] == entries[i].0);
    assert(names.contains(entries[i].0));
    let k = names.index_of(entries[i].0);
    assert(names[k] == names[i]);
    text_before_irreflexive(names[i]);
    if k < i {
        assert(text_before(names[k], names[i]));
    } else if i < k {
        assert(text_before(names[i], names[k]));
    }
}

/// Without its last entry an ascending list maps every other name as before.
proof fn entries_map_drop_last<T>(entries: Seq<(Seq<char>, T)>)
    requires
        texts_ascend(names_of(entries)),
        entries.len() > 0,
    ensures
        texts_ascend(names_of(entries.drop_last())),
        entries_map(entries.drop_last()) == entries_map(entries).remove(entries.last().0),
{
    let shorter = entries.drop_last();
    let names = names_of(entries);
    let fewer = names_of(shorter);
    assert(forall|i: int| 0 <= i < fewer.len() ==> fewer[i] == names[i]);
    assert forall|name: Seq<char>|
        entries_map(shorter).dom().contains(name) == entries_map(entries).remove(
            entries.last().0,
        ).dom().contains(name) by {
        if fewer.contains(name) {
            let k = fewer.index_of(name);
            assert(names[k] == name);
            assert(text_before(names[k], names[names.len() - 1]));
            text_before_irreflexive(name);
        } else if names.contains(name) && name != entries.last().0 {
            let k = names.index_of(name);
            assert(fewer[k] == name);
        }
    }
    assert forall|name: Seq<char>| entries_map(shorter).dom().contains(name) implies entries_map(
        shorter,
    )[name] == entries_map(entries).remove(entries.last().0)[name] by {
        let k = fewer.index_of(name);
        assert(fewer.contains(name));
        assert(fewer[k] == name);
        entry_in_map(entries, k);
        entry_in_map(shorter, k);
        assert(text_before(names[k], names[names.len() - 1]));
        text_before_irreflexive(name);
    }
    assert(entries_map(shorter) =~= entries_map(entries).remove(entries.last().0));
}

/// One entry more of an ascending list maps one name more.
pub proof fn entries_map_one_more<T>(entries: Seq<(Seq<char>, T)>, i: int)
    requires
        texts_ascend(names_of(entries)),
        0 <= i < entries.len(),
    ensures
        entries_map(entries.take(i + 1)) == entries_map(entries.take(i)).insert(
            entries[i].0,
            entries[i].1,
        ),
{
    let more = entries.take(i + 1);
    let names = names_of(entries);
    assert forall|j: int, k: int| 0 <= j < k < names_of(more).len() implies text_before(
        #[trigger] names_of(more)[j],
        #[trigger] names_of(more)[k],
    ) by {
        assert(text_before(names[j], names[k]));
    }
    assert(more.drop_last() =~= entries.take(i));
    entries_map_drop_last(more);
    entry_in_map(more, i);
    assert(entries_map(more) =~= entries_map(entries.take(i)).insert(
        entries[i].0,
        entries[i].1,
    ));
}

/// The last name of an ascending list is the last of all the names that it maps.
proof fn last_name_is_greatest<T>(entries: Seq<(Seq<char>, T)>, name: Seq<char>)
    requires
        texts_ascend(names_of(entries)),
        entries_map(entries).dom().contains(name),
    ensures
        entries.len() > 0,
        name == entries.last().0 || text_before(name, entries.last().0),
{
    let names = names_of(entries);
    let k = names.index_of(name);
    assert(names.contains(name));
    assert(names[k] == name);
    if k < names.len() - 1 {
        assert(text_before(names[k], names[names.len() - 1]));
    }
}

/// Which value each name has determines an ascending list of named values: there is
/// only one order in which the entries can stand.
pub proof fn entries_are_determined<T>(a: Seq<(Seq<char>, T)>, b: Seq<(Seq<char>, T)>)
    requires
        texts_ascend(names_of(a)),
        texts_ascend(names_of(b)),
        entries_map(a) == entries_map(b),
    ensures
        a == b,
    decreases a.len(),
{
    if a.len() == 0 {
        if b.len() > 0 {
            entry_in_map(b, 0);
            last_name_is_greatest(a, b[0].0);
        }
        assert(a =~= b);
    } else {
        entry_in_map(a, a.len() - 1);
        last_name_is_greatest(b, a.last().0);
        entry_in_map(b, b.len() - 1);
        last_name_is_greatest(a, b.last().0);
        if a.last().0 != b.last().0 {
            text_before_transitive(a.last().0, b.last().0, a.last().0);
            text_before_irreflexive(a.last().0);
        }
        entries_map_drop_last(a);
        entries_map_drop_last(b);
        entries_are_determined(a.drop_last(), b.drop_last());
        assert(a =~= a.drop_last().push(a.last()));
        assert(b =~= b.drop_last().push(b.last()));
    }
}

/// A name that is put at its place in an ascending list leaves the list ascending, and
/// maps to the new value.
proof fn inserted_entry<T>(
    before: Seq<(Seq<char>, T)>,
    after: Seq<(Seq<char>, T)>,
    at: int,
    present: bool,
    name: Seq<char>,
    value: T,
)
    requires
        texts_ascend(names_of(before)),
        0 <= at <= before.len(),
        forall|i: int| 0 <= i < at ==> text_before(#[trigger] before[i].0, name),
        forall|i: int|
            at <= i < before.len() && !(present && i == at) ==> text_before(
                name,
                #[trigger] before[i].0,
            ),
        present ==> at < before.len() && before[at].0 == name,
        present ==> after == before.update(at, (name, value)),
        !present ==> after == before.insert(at, (name, value)),
    ensures
        texts_ascend(names_of(after)),
        entries_map(after) == entries_map(before).insert(name, value),
        present == entries_map(before).dom().contains(name),
        present ==> entries_map(before)[name] == before[at].1,
{
    let shift = if present { 0int } else { 1int };
    let old_names = names_of(before);
    let new_names = names_of(after);
    // where an entry other than the new one came from
    let origin = |i: int| if i < at { i } else { i - shift };
    assert(forall|i: int| 0 <= i < after.len() && i != at ==> after[i] == before[origin(i)]);
    assert forall|i: int, j: int| 0 <= i < j < new_names.len() implies text_before(
        #[trigger] new_names[i],
        #[trigger] new_names[j],
    ) by {
        if i != at && j != at {
            assert(text_before(old_names[origin(i)], old_names[origin(j)]));
        } else if i == at {
            assert(text_before(name, before[origin(j)].0));
        } else {
            assert(text_before(before[origin(i)].0, name));
        }
    }
    text_before_irreflexive(name);
    if present {
        entry_in_map(before, at);
    } else if old_names.contains(name) {
        let k = old_names.index_of(name);
        assert(before[k].0 == name);
    }
    let target = entries_map(before).insert(name, value);
    entry_in_map(after, at);
    assert forall|key: Seq<char>|
        entries_map(after).dom().contains(key) == target.dom().contains(key) by {
        if new_names.contains(key) {
            let k = new_names.index_of(key);
            assert(new_names[k] == key);
            if k != at {
                assert(old_names[origin(k)] == key);
            }
        } else if old_names.contains(key) {
            let k = old_names.index_of(key);
            assert(old_names[k] == key);
            let moved = if k < at { k } else { k + shift };
            assert(new_names[moved] == key || (present && k == at));
            assert(new_names[at] == name);
        }
    }
    assert forall|key: Seq<char>| entries_map(after).dom().contains(key) implies entries_map(
        after,
    )[key] == target[key] by {
        if key != name {
            let k = new_names.index_of(key);
            assert(new_names.contains(key));
            assert(new_names[k] == key);
            entry_in_map(after, k);
            entry_in_map(before, origin(k));
        }
    }
    assert(entries_map(after) =~= target);
}

/// Values under names, in ascending order of the names.
#[derive(Debug)]
pub struct NameMap<T> {
    entries: Vec<(String, T)>,
}

impl<T> View for NameMap<T> {
    type V = Seq<(Seq<char>, T)>;

    closed spec fn view(&self) -> Seq<(Seq<char>, T)> {
        Seq::new(self.entries@.len(), |i: int| (self.entries@[i].0@, self.entries@[i].1))
    }
}

impl<T> NameMap<T> {
    #[verifier::type_invariant]
    spec fn ordered(self) -> bool {
        texts_ascend(names_of(self@))
    }

    /// A map without entries.
    pub fn new() -> (map: Self)
        ensures
            map@ == Seq::<(Seq<char>, T)>::empty(),
    {
        NameMap { entries: Vec::new() }
    }

    /// How many entries there are. They stand in ascending order of their names.
    pub fn len(&self) -> (len: usize)
        ensures
            len == self@.len(),
            texts_ascend(names_of(self@)),
    {
        proof {
            use_type_invariant(self);
        }
        self.entries.len()
    }

    /// The name of the entry at a position.
    pub fn name(&self, position: usize) -> (name: &String)
        requires
            position < self@.len(),
        ensures
            name@ == self@[position as int].0,
            texts_ascend(names_of(self@)),
    {
        proof {
            use_type_invariant(self);
        }
        &self.entries[position].0
    }

    /// The value of the entry at a position.
    pub fn value(&self, position: usize) -> (value: &T)
        requires
            position < self@.len(),
        ensures
            value == self@[position as int].1,
            texts_ascend(names_of(self@)),
    {
        proof {
            use_type_invariant(self);
        }
        &self.entries[position].1
    }

    /// The first position whose name does not stand before `name`, and whether that
    /// position holds `name` itself.
    fn position(&self, name: &str) -> (found: (usize, bool))
        ensures
            found.0 <= self@.len(),
            forall|i: int| 0 <= i < found.0 ==> text_before(#[trigger] self@[i].0, name@),
            forall|i: int|
                found.0 <= i < self@.len() && !(found.1 && i == found.0) ==> text_before(
                    name@,
                    #[trigger] self@[i].0,
                ),
            found.1 ==> found.0 < self@.len() && self@[found.0 as int].0 == name@,
    {
        proof {
            use_type_invariant(self);
        }
        let mut i: usize = 0;
        while i < self.entries.len()
            invariant
                i <= self@.len(),
                self@.len() == self.entries.len(),
                texts_ascend(names_of(self@)),
                forall|k: int| 0 <= k < i ==> text_before(#[trigger] self@[k].0, name@),
            decreases self.entries.len() - i,
        {
            let order = order_text(self.entries[i].0.as_str(), name);
            if order != TextOrder::Before {
                proof {
                    assert(self@[i as int].0 == self.entries@[i as int].0@);
                    assert forall|k: int| i < k < self@.len() implies text_before(
                        name@,
                        #[trigger] self@[k].0,
                    ) by {
                        assert(text_before(names_of(self@)[i as int], names_of(self@)[k]));
                        if order == TextOrder::After {
                            text_before_transitive(name@, self@[i as int].0, self@[k].0);
                        }
                    }
                }
                return (i, order == TextOrder::Same);
            }
            i += 1;
        }
        (i, false)
    }

    /// The value under a name.
    pub fn get(&self, name: &str) -> (value: Option<&T>)
        ensures
            value is Some == entries_map(self@).dom().contains(name@),
            value is Some ==> value->0 == entries_map(self@)[name@],
    {
        let (at, present) = self.position(name);
        let ghost names = names_of(self@);
        if present {
            proof {
                assert(names[at as int] == name@);
                assert(names.contains(name@));
                let k = names.index_of(name@);
                text_before_irreflexive(name@);
                assert(self@[k].0 == name@);
            }
            Some(&self.entries[at].1)
        } else {
            proof {
                if names.contains(name@) {
                    let k = names.index_of(name@);
                    text_before_irreflexive(name@);
                    assert(self@[k].0 == name@);
                }
            }
            None
        }
    }

    /// Puts a value under a name, and gives back the value that it takes the place of.
    pub fn insert(&mut self, name: String, value: T) -> (replaced: Option<T>)
        ensures
            texts_ascend(names_of(final(self)@)),
            entries_map(final(self)@) == entries_map(old(self)@).insert(name@, value),
            replaced is Some == entries_map(old(self)@).dom().contains(name@),
            replaced is Some ==> replaced->0 == entries_map(old(self)@)[name@],
    {
        proof {
            use_type_invariant(&*self);
        }
        let (at, present) = self.position(name.as_str());
        let ghost before = self@;
        let ghost key = name@;
        let mut entries: Vec<(String, T)> = Vec::new();
        std::mem::swap(&mut entries, &mut self.entries);
        let replaced = if present {
            let (_, previous) = entries.remove(at);
            Some(previous)
        } else {
            None
        };
        entries.insert(at, (name, value));
        proof {
            let after: Seq<(Seq<char>, T)> = Seq::new(
                entries@.len(),
                |i: int| (entries@[i].0@, entries@[i].1),
            );
            if present {
                assert(after =~= before.update(at as int, (key, value)));
            } else {
                assert(after =~= before.insert(at as int, (key, value)));
            }
            inserted_entry(before, after, at as int, present, key, value);
        }
        self.entries = entries;
        replaced
    }

    /// The names, in order.
    pub fn names(&self) -> (names: Vec<String>)
        ensures
            texts(names@) == names_of(self@),
            texts_ascend(texts(names@)),
    {
        proof {
            use_type_invariant(self);
        }
        let mut names: Vec<String> = Vec::new();
        for i in 0..self.entries.len()
            invariant
                self@.len() == self.entries.len(),
                names.len() == i,
                forall|k: int| 0 <= k < i ==> #[trigger] names@[k]@ == self@[k].0,
        {
            names.push(self.entries[i].0.clone());
        }
        assert(texts(names@) =~= names_of(self@));
        names
    }
}

} // verus!
