//! An ordered collection of name and value pairs in which a name may occur more
//! than once. Query parameters, path parameters and headers are all held in it.
//! The model of a collection is the sequence of its pairs in insertion order.

use vstd::prelude::*;
use vstd::string::*;

verus! {

/// The model of a `StrMap`: its pairs, in insertion order.
pub type Pairs = Seq<(Seq<char>, Seq<char>)>;

/// The values written under `name`, in the order in which they were written.
pub open spec fn values_of(m: Pairs, name: Seq<char>) -> Seq<Seq<char>> {
    m.filter(|e: (Seq<char>, Seq<char>)| e.0 == name).map_values(|e: (Seq<char>, Seq<char>)| e.1)
}

/// The index of the first pair named `name`, or the length of `m` if there is none.
pub open spec fn position_of(m: Pairs, name: Seq<char>) -> int
    decreases m.len(),
{
    if m.len() == 0 {
        0
    } else if m.first().0 == name {
        0
    } else {
        1 + position_of(m.drop_first(), name)
    }
}

/// Whether some pair is named `name`.
pub open spec fn has_name(m: Pairs, name: Seq<char>) -> bool {
    position_of(m, name) < m.len()
}

/// The first value written under `name`.
pub open spec fn first_of(m: Pairs, name: Seq<char>) -> Option<Seq<char>> {
    if has_name(m, name) {
        Some(m[position_of(m, name)].1)
    } else {
        None
    }
}

/// The last value written under `name`.
pub open spec fn last_of(m: Pairs, name: Seq<char>) -> Option<Seq<char>> {
    if values_of(m, name).len() > 0 {
        Some(values_of(m, name).last())
    } else {
        None
    }
}

/// `m` after writing `value` under `name` as a single-valued map does: the pair
/// that holds `name` takes the new value in place, a new name goes to the end.
pub open spec fn upsert(m: Pairs, name: Seq<char>, value: Seq<char>) -> Pairs {
    if has_name(m, name) {
        m.update(position_of(m, name), (name, value))
    } else {
        m.push((name, value))
    }
}

/// `m` with every name collapsed to one pair: the pairs of `m` written one after
/// the other into a single-valued map, so that the last value of a name wins.
pub open spec fn collapse_last(m: Pairs) -> Pairs
    decreases m.len(),
{
    if m.len() == 0 {
        m
    } else {
        upsert(collapse_last(m.drop_last()), m.last().0, m.last().1)
    }
}

/// The pairs of `single` whose name does not occur in `multi`.
pub open spec fn missing_from(multi: Pairs, single: Pairs) -> Pairs {
    single.filter(|e: (Seq<char>, Seq<char>)| !has_name(multi, e.0))
}

/// One collection out of a multi-valued and a single-valued rendering of the same
/// data: every pair of `multi`, then the pairs of `single` under names that
/// `multi` does not hold.
pub open spec fn merge(multi: Pairs, single: Pairs) -> Pairs {
    multi + missing_from(multi, single)
}

/// No name occurs twice.
pub open spec fn unique_names(m: Pairs) -> bool {
    forall|i: int, j: int| 0 <= i < j < m.len() ==> (#[trigger] m[i]).0 != (#[trigger] m[j]).0
}

/// The model of a vector of borrowed texts.
pub open spec fn texts(values: Seq<&str>) -> Seq<Seq<char>> {
    values.map_values(|s: &str| s@)
}

/// Writing one more pair adds its value to the values of its name and to no other.
pub proof fn lemma_values_of_push(m: Pairs, e: (Seq<char>, Seq<char>), name: Seq<char>)
    ensures
        values_of(m.push(e), name) == if e.0 == name {
            values_of(m, name).push(e.1)
        } else {
            values_of(m, name)
        },
{
    reveal(Seq::filter);
    assert(m.push(e).drop_last() =~= m);
    let pred = |e: (Seq<char>, Seq<char>)| e.0 == name;
    if e.0 == name {
        assert(m.push(e).filter(pred) == m.filter(pred).push(e));
        assert(values_of(m.push(e), name) =~= values_of(m, name).push(e.1));
    } else {
        assert(m.push(e).filter(pred) == m.filter(pred));
    }
}

/// The values of a name in a concatenation are its values in the two parts.
pub proof fn lemma_values_of_concat(a: Pairs, b: Pairs, name: Seq<char>)
    ensures
        values_of(a + b, name) == values_of(a, name) + values_of(b, name),
    decreases b.len(),
{
    if b.len() == 0 {
        assert(a + b =~= a);
        reveal(Seq::filter);
        assert(values_of(b, name) =~= Seq::empty());
        assert(values_of(a, name) + values_of(b, name) =~= values_of(a, name));
    } else {
        let front = b.drop_last();
        let e = b.last();
        assert(b =~= front.push(e));
        assert(a + b =~= (a + front).push(e));
        lemma_values_of_concat(a, front, name);
        lemma_values_of_push(a + front, e, name);
        lemma_values_of_push(front, e, name);
        if e.0 == name {
            assert((values_of(a, name) + values_of(front, name)).push(e.1) =~= values_of(a, name)
                + values_of(front, name).push(e.1));
        }
    }
}

/// What `position_of` finds: the least index that holds `name`.
pub proof fn lemma_position_of(m: Pairs, name: Seq<char>)
    ensures
        0 <= position_of(m, name) <= m.len(),
        has_name(m, name) ==> m[position_of(m, name)].0 == name,
        forall|j: int| 0 <= j < position_of(m, name) ==> (#[trigger] m[j]).0 != name,
    decreases m.len(),
{
    if m.len() != 0 && m.first().0 != name {
        let rest = m.drop_first();
        lemma_position_of(rest, name);
        assert forall|j: int| 0 <= j < position_of(m, name) implies (#[trigger] m[j]).0 != name by {
            if j > 0 {
                assert(m[j] == rest[j - 1]);
            }
        }
    }
}

/// An index that holds `name` with no earlier one that does is the position of `name`.
pub proof fn lemma_position_is(m: Pairs, name: Seq<char>, p: int)
    requires
        0 <= p <= m.len(),
        p < m.len() ==> m[p].0 == name,
        forall|j: int| 0 <= j < p ==> (#[trigger] m[j]).0 != name,
    ensures
        position_of(m, name) == p,
{
    lemma_position_of(m, name);
    let q = position_of(m, name);
    if q < p {
        assert(m[q].0 != name);
    } else if p < q {
        assert(m[p].0 != name);
    }
}

/// A name has a position exactly when it has values, and the value at that
/// position is the first of them: the first-value lookup agrees with the
/// all-values lookup.
pub proof fn lemma_first_is_head_of_values(m: Pairs, name: Seq<char>)
    ensures
        has_name(m, name) <==> values_of(m, name).len() > 0,
        has_name(m, name) ==> first_of(m, name) == Some(values_of(m, name).first()),
    decreases m.len(),
{
    lemma_position_of(m, name);
    if m.len() == 0 {
        reveal(Seq::filter);
    } else {
        let head = m.first();
        let rest = m.drop_first();
        assert(m =~= seq![head] + rest);
        lemma_values_of_concat(seq![head], rest, name);
        assert(seq![head] =~= Seq::<(Seq<char>, Seq<char>)>::empty().push(head));
        lemma_values_of_push(Seq::empty(), head, name);
        assert(values_of(Seq::empty(), name) =~= Seq::empty()) by {
            reveal(Seq::filter);
        }
        if head.0 == name {
            assert(values_of(seq![head], name) =~= seq![head.1]);
        } else {
            assert(values_of(seq![head], name) =~= Seq::empty());
            assert(values_of(m, name) =~= values_of(rest, name));
            lemma_first_is_head_of_values(rest, name);
            lemma_position_of(rest, name);
            if has_name(rest, name) {
                assert(m[position_of(m, name)] == rest[position_of(rest, name)]);
            }
        }
    }
}

/// The last value of a name after one more pair was written.
pub proof fn lemma_last_of_push(m: Pairs, e: (Seq<char>, Seq<char>), name: Seq<char>)
    ensures
        last_of(m.push(e), name) == if e.0 == name {
            Some(e.1)
        } else {
            last_of(m, name)
        },
{
    lemma_values_of_push(m, e, name);
}

/// Collapsing keeps one pair for every name, and that pair holds the value that
/// was written last under the name: never an earlier value, never several values
/// joined together.
pub proof fn lemma_collapse_last_wins(m: Pairs)
    ensures
        unique_names(collapse_last(m)),
        forall|i: int|
            0 <= i < collapse_last(m).len() ==> last_of(m, (#[trigger] collapse_last(m)[i]).0)
                == Some(collapse_last(m)[i].1),
        forall|name: Seq<char>| #[trigger]
            has_name(collapse_last(m), name) <==> has_name(m, name),
        forall|name: Seq<char>| #[trigger] first_of(collapse_last(m), name) == last_of(m, name),
    decreases m.len(),
{
    let c = collapse_last(m);
    if m.len() == 0 {
        assert forall|name: Seq<char>| #[trigger]
            first_of(c, name) == last_of(m, name) && !has_name(m, name) by {
            lemma_first_is_head_of_values(m, name);
        }
    } else {
        let front = m.drop_last();
        let e = m.last();
        let cf = collapse_last(front);
        assert(m =~= front.push(e));
        lemma_collapse_last_wins(front);
        lemma_position_of(cf, e.0);
        let p = position_of(cf, e.0);
        assert forall|i: int| 0 <= i < c.len() implies last_of(m, (#[trigger] c[i]).0) == Some(
            c[i].1,
        ) by {
            lemma_last_of_push(front, e, c[i].0);
            if i < cf.len() && i != p {
                assert(c[i] == cf[i]);
                if p < cf.len() {
                    assert(cf[i].0 != cf[p].0);
                }
            }
        }
        assert forall|i: int, j: int| 0 <= i < j < c.len() implies (#[trigger] c[i]).0
            != (#[trigger] c[j]).0 by {
            if i < cf.len() && i != p {
                assert(c[i] == cf[i]);
            }
            if j < cf.len() && j != p {
                assert(c[j] == cf[j]);
            }
            if p < cf.len() {
                assert(cf[p].0 == e.0);
                if i == p {
                    assert(cf[j].0 != cf[p].0);
                }
                if j == p {
                    assert(cf[i].0 != cf[p].0);
                }
            }
        }
        assert forall|name: Seq<char>|
            (#[trigger] has_name(c, name) <==> has_name(m, name)) && first_of(c, name) == last_of(
                m,
                name,
            ) by {
            lemma_last_of_push(front, e, name);
            lemma_position_of(cf, name);
            lemma_first_is_head_of_values(m, name);
            lemma_first_is_head_of_values(front, name);
            assert(has_name(cf, name) <==> has_name(front, name));
            assert(first_of(cf, name) == last_of(front, name));
            let q = position_of(cf, name);
            if name == e.0 {
                lemma_position_is(c, name, p);
            } else {
                if q < cf.len() {
                    assert(c[q] == cf[q]);
                    assert forall|j: int| 0 <= j < q implies (#[trigger] c[j]).0 != name by {
                        if j != p {
                            assert(c[j] == cf[j]);
                        }
                    }
                    lemma_position_is(c, name, q);
                } else {
                    assert forall|j: int| 0 <= j < c.len() implies (#[trigger] c[j]).0 != name by {
                        if j < cf.len() && j != p {
                            assert(c[j] == cf[j]);
                        }
                    }
                    lemma_position_is(c, name, c.len() as int);
                }
            }
        }
    }
}

/// A collection that holds no name twice is its own collapse.
pub proof fn lemma_collapse_of_unique(m: Pairs)
    requires
        unique_names(m),
    ensures
        collapse_last(m) == m,
    decreases m.len(),
{
    if m.len() != 0 {
        let front = m.drop_last();
        let e = m.last();
        assert(m =~= front.push(e));
        assert(unique_names(front)) by {
            assert forall|i: int, j: int| 0 <= i < j < front.len() implies (#[trigger] front[i]).0
                != (#[trigger] front[j]).0 by {
                assert(front[i] == m[i] && front[j] == m[j]);
            }
        }
        lemma_collapse_of_unique(front);
        assert forall|j: int| 0 <= j < front.len() implies (#[trigger] front[j]).0 != e.0 by {
            assert(front[j] == m[j]);
            assert(m[m.len() - 1] == e);
        }
        lemma_position_is(front, e.0, front.len() as int);
    }
}

/// An ordered multi-valued collection of name and value pairs.
#[derive(Debug, PartialEq, Eq)]
pub struct StrMap {
    entries: Vec<(String, String)>,
}

impl View for StrMap {
    type V = Pairs;

    closed spec fn view(&self) -> Pairs {
        self.entries@.map_values(|e: (String, String)| (e.0@, e.1@))
    }
}

impl StrMap {
    /// An empty collection.
    pub fn new() -> (r: StrMap)
        ensures
            r@ == Seq::<(Seq<char>, Seq<char>)>::empty(),
    {
        let r = StrMap { entries: Vec::new() };
        assert(r@ =~= Seq::<(Seq<char>, Seq<char>)>::empty());
        r
    }

    /// The collection that holds `pairs`, in their order.
    pub fn from_pairs(pairs: Vec<(String, String)>) -> (r: StrMap)
        ensures
            r@ == pairs@.map_values(|e: (String, String)| (e.0@, e.1@)),
    {
        StrMap { entries: pairs }
    }

    /// The pairs of the collection, in their order.
    pub fn into_pairs(self) -> (r: Vec<(String, String)>)
        ensures
            r@.map_values(|e: (String, String)| (e.0@, e.1@)) == self@,
    {
        self.entries
    }

    /// The number of pairs.
    pub fn len(&self) -> (r: usize)
        ensures
            r == self@.len(),
    {
        self.entries.len()
    }

    /// Whether the collection holds no pair.
    pub fn is_empty(&self) -> (r: bool)
        ensures
            r == (self@.len() == 0),
    {
        self.entries.len() == 0
    }

    /// The name and the value of the pair at `index`, if there are that many pairs.
    pub fn get(&self, index: usize) -> (r: Option<(&str, &str)>)
        ensures
            match r {
                Some((name, value)) => index < self@.len() && self@[index as int] == (
                    name@,
                    value@,
                ),
                None => index >= self@.len(),
            },
    {
        if index < self.entries.len() {
            Some((self.entries[index].0.as_str(), self.entries[index].1.as_str()))
        } else {
            None
        }
    }

    /// Writes `value` under `name`, after every pair that is already there.
    pub fn append(&mut self, name: &str, value: &str)
        ensures
            final(self)@ == old(self)@.push((name@, value@)),
    {
        self.entries.push((name.to_owned(), value.to_owned()));
        assert(self@ =~= old(self)@.push((name@, value@)));
    }

    /// The index of the first pair named `name`, or `len()` if there is none.
    pub fn position(&self, name: &str) -> (r: usize)
        ensures
            r == position_of(self@, name@),
            r <= self@.len(),
    {
        let key = name.to_owned();
        let mut i: usize = 0;
        while i < self.entries.len()
            invariant
                i <= self.entries.len(),
                key@ == name@,
                forall|j: int| 0 <= j < i ==> (#[trigger] self@[j]).0 != name@,
            decreases self.entries.len() - i,
        {
            if self.entries[i].0 == key {
                proof {
                    lemma_position_is(self@, name@, i as int);
                }
                return i;
            }
            i += 1;
        }
        proof {
            lemma_position_is(self@, name@, i as int);
        }
        i
    }

    /// Whether some pair is named `name`.
    pub fn contains(&self, name: &str) -> (r: bool)
        ensures
            r == has_name(self@, name@),
    {
        self.position(name) < self.entries.len()
    }

    /// The first value written under `name`, if there is one.
    pub fn first(&self, name: &str) -> (r: Option<&str>)
        ensures
            match r {
                Some(value) => first_of(self@, name@) == Some(value@),
                None => first_of(self@, name@) is None,
            },
    {
        let p = self.position(name);
        if p < self.entries.len() {
            Some(self.entries[p].1.as_str())
        } else {
            None
        }
    }

    /// Every value written under `name`, in the order of writing; `None` if the
    /// name does not occur.
    pub fn all(&self, name: &str) -> (r: Option<Vec<&str>>)
        ensures
            match r {
                Some(values) => texts(values@) == values_of(self@, name@) && values@.len() > 0,
                None => values_of(self@, name@).len() == 0,
            },
    {
        let key = name.to_owned();
        let mut values: Vec<&str> = Vec::new();
        let mut i: usize = 0;
        proof {
            reveal(Seq::filter);
            assert(self@.take(0) =~= Seq::empty());
            assert(texts(values@) =~= values_of(self@.take(0), name@));
        }
        while i < self.entries.len()
            invariant
                i <= self.entries.len(),
                key@ == name@,
                texts(values@) == values_of(self@.take(i as int), name@),
            decreases self.entries.len() - i,
        {
            proof {
                assert(self@.take(i + 1) =~= self@.take(i as int).push(self@[i as int]));
                lemma_values_of_push(self@.take(i as int), self@[i as int], name@);
            }
            if self.entries[i].0 == key {
                let ghost before = values@;
                values.push(self.entries[i].1.as_str());
                assert(texts(values@) =~= texts(before).push(self@[i as int].1));
            }
            i += 1;
        }
        assert(self@.take(i as int) =~= self@);
        if values.len() > 0 {
            Some(values)
        } else {
            None
        }
    }

    /// The last value written under `name`, if there is one.
    pub fn last(&self, name: &str) -> (r: Option<&str>)
        ensures
            match r {
                Some(value) => last_of(self@, name@) == Some(value@),
                None => last_of(self@, name@) is None,
            },
    {
        match self.all(name) {
            Some(values) => {
                let value: &str = values[values.len() - 1];
                assert(texts(values@).last() == value@);
                Some(value)
            },
            None => None,
        }
    }

    /// A copy of the collection.
    pub fn duplicate(&self) -> (r: StrMap)
        ensures
            r@ == self@,
    {
        let mut r = StrMap::new();
        let mut i: usize = 0;
        while i < self.entries.len()
            invariant
                i <= self.entries.len(),
                r@ == self@.take(i as int),
            decreases self.entries.len() - i,
        {
            r.append(self.entries[i].0.as_str(), self.entries[i].1.as_str());
            assert(self@.take(i + 1) =~= self@.take(i as int).push(self@[i as int]));
            i += 1;
        }
        assert(self@.take(i as int) =~= self@);
        r
    }

    /// Writes `value` under `name` as a single-valued map does: over the value of
    /// the pair that holds `name`, or as a new pair at the end.
    pub fn set(&mut self, name: &str, value: &str)
        ensures
            final(self)@ == upsert(old(self)@, name@, value@),
    {
        let p = self.position(name);
        if p < self.entries.len() {
            self.entries.set(p, (name.to_owned(), value.to_owned()));
            assert(self@ =~= old(self)@.update(p as int, (name@, value@)));
        } else {
            self.append(name, value);
        }
    }

    /// The collection with every name collapsed to one pair that holds the value
    /// written last under it. Names keep the order of their first occurrence.
    pub fn collapse_last(&self) -> (r: StrMap)
        ensures
            r@ == collapse_last(self@),
    {
        let mut r = StrMap::new();
        let mut i: usize = 0;
        proof {
            assert(self@.take(0) =~= Seq::empty());
        }
        while i < self.entries.len()
            invariant
                i <= self.entries.len(),
                r@ == collapse_last(self@.take(i as int)),
            decreases self.entries.len() - i,
        {
            proof {
                let next = self@.take(i + 1);
                assert(next.drop_last() =~= self@.take(i as int));
                assert(next.last() == self@[i as int]);
            }
            r.set(self.entries[i].0.as_str(), self.entries[i].1.as_str());
            i += 1;
        }
        assert(self@.take(i as int) =~= self@);
        r
    }

    /// One collection out of this multi-valued one and a single-valued rendering
    /// of the same data: every pair of `self`, then the pairs of `single` under
    /// names that `self` does not hold.
    pub fn merged_with(&self, single: &StrMap) -> (r: StrMap)
        ensures
            r@ == merge(self@, single@),
    {
        let mut r = self.duplicate();
        let mut i: usize = 0;
        proof {
            reveal(Seq::filter);
            assert(single@.take(0) =~= Seq::empty());
            assert(r@ =~= merge(self@, single@.take(0)));
        }
        while i < single.entries.len()
            invariant
                i <= single.entries.len(),
                r@ == merge(self@, single@.take(i as int)),
            decreases single.entries.len() - i,
        {
            proof {
                reveal(Seq::filter);
                let next = single@.take(i + 1);
                assert(next.drop_last() =~= single@.take(i as int));
                assert(next.last() == single@[i as int]);
            }
            if !self.contains(single.entries[i].0.as_str()) {
                r.append(single.entries[i].0.as_str(), single.entries[i].1.as_str());
                assert(r@ =~= merge(self@, single@.take(i + 1)));
            }
            i += 1;
        }
        assert(single@.take(i as int) =~= single@);
        r
    }
}

} // verus!
