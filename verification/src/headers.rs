//! Headers of the canonical request and response: an ordered multi-valued
//! collection whose names are matched without regard to ASCII case. Names are
//! stored in lower case, so that is the casing in which they come out again.

use vstd::prelude::*;
use vstd::string::*;
use crate::encoding::{ascii_lowercase, lemma_lowercase_idempotent, lowercase};
use crate::strmap::{first_of, merge, missing_from, texts, values_of, Pairs, StrMap};

verus! {

/// `m` with every name folded to lower case.
pub open spec fn lowercase_names(m: Pairs) -> Pairs {
    m.map_values(|e: (Seq<char>, Seq<char>)| (lowercase(e.0), e.1))
}

/// Every name of `m` is its own lower-case form.
pub open spec fn all_lowercase(m: Pairs) -> bool {
    forall|i: int| 0 <= i < m.len() ==> lowercase((#[trigger] m[i]).0) == m[i].0
}

/// Folding the names of any collection gives one whose names are all lower case.
pub proof fn lemma_lowercase_names(m: Pairs)
    ensures
        all_lowercase(lowercase_names(m)),
        lowercase_names(m).len() == m.len(),
{
    assert forall|i: int| 0 <= i < m.len() implies lowercase(
        (#[trigger] lowercase_names(m)[i]).0,
    ) == lowercase_names(m)[i].0 by {
        lemma_lowercase_idempotent(m[i].0);
    }
}

/// A collection whose names are lower case already is unchanged by folding.
pub proof fn lemma_lowercase_names_fixed(m: Pairs)
    requires
        all_lowercase(m),
    ensures
        lowercase_names(m) == m,
{
    assert forall|i: int| 0 <= i < m.len() implies lowercase_names(m)[i] == m[i] by {
        assert(lowercase(m[i].0) == m[i].0);
    }
    assert(lowercase_names(m) =~= m);
}

/// Merging two collections with lower-case names gives lower-case names.
pub proof fn lemma_merge_lowercase(multi: Pairs, single: Pairs)
    requires
        all_lowercase(multi),
        all_lowercase(single),
    ensures
        all_lowercase(merge(multi, single)),
{
    let kept = missing_from(multi, single);
    let m = merge(multi, single);
    assert forall|i: int| 0 <= i < m.len() implies lowercase((#[trigger] m[i]).0) == m[i].0 by {
        if i >= multi.len() {
            let e = kept[i - multi.len()];
            assert(kept.contains(e));
            single.lemma_filter_contains_rev(
                |e: (Seq<char>, Seq<char>)| !crate::strmap::has_name(multi, e.0),
                e,
            );
            let j = choose|j: int| 0 <= j < single.len() && single[j] == e;
            assert(lowercase(single[j].0) == single[j].0);
        } else {
            assert(m[i] == multi[i]);
        }
    }
}

/// An ordered multi-valued header collection with case-insensitive names.
#[derive(Debug, PartialEq, Eq)]
pub struct Headers {
    map: StrMap,
}

impl View for Headers {
    type V = Pairs;

    closed spec fn view(&self) -> Pairs {
        self.map@
    }
}

impl Headers {
    #[verifier::type_invariant]
    spec fn names_are_lowercase(self) -> bool {
        all_lowercase(self.map@)
    }

    /// An empty collection.
    pub fn new() -> (r: Headers)
        ensures
            r@ == Seq::<(Seq<char>, Seq<char>)>::empty(),
    {
        Headers { map: StrMap::new() }
    }

    /// The number of header lines.
    pub fn len(&self) -> (r: usize)
        ensures
            r == self@.len(),
    {
        self.map.len()
    }

    /// Adds a header line after those that are there. The name is stored in lower
    /// case; earlier values of the same name stay.
    pub fn append(&mut self, name: &str, value: &str)
        ensures
            final(self)@ == old(self)@.push((lowercase(name@), value@)),
    {
        let folded = ascii_lowercase(name);
        let mut taken = Headers::new();
        core::mem::swap(self, &mut taken);
        proof {
            use_type_invariant(&taken);
            lemma_lowercase_idempotent(name@);
        }
        let mut map = taken.map;
        map.append(folded.as_str(), value);
        *self = Headers { map };
    }

    /// The first value of the header `name`, whatever the case of `name`.
    pub fn get(&self, name: &str) -> (r: Option<&str>)
        ensures
            match r {
                Some(value) => first_of(self@, lowercase(name@)) == Some(value@),
                None => first_of(self@, lowercase(name@)) is None,
            },
    {
        let folded = ascii_lowercase(name);
        self.map.first(folded.as_str())
    }

    /// Every value of the header `name` in the order of writing, whatever the
    /// case of `name`; `None` if there is no such header.
    pub fn get_all(&self, name: &str) -> (r: Option<Vec<&str>>)
        ensures
            match r {
                Some(values) => texts(values@) == values_of(self@, lowercase(name@))
                    && values@.len() > 0,
                None => values_of(self@, lowercase(name@)).len() == 0,
            },
    {
        let folded = ascii_lowercase(name);
        self.map.all(folded.as_str())
    }

    /// The header lines as a plain collection, names in lower case.
    pub fn as_map(&self) -> (r: &StrMap)
        ensures
            r@ == self@,
            all_lowercase(r@),
    {
        proof {
            use_type_invariant(self);
        }
        &self.map
    }

    /// The headers that stand for the pairs of `map`, in the same order, each name
    /// folded to lower case.
    pub fn from_map(map: &StrMap) -> (r: Headers)
        ensures
            r@ == lowercase_names(map@),
    {
        let mut r = Headers::new();
        let mut i: usize = 0;
        while i < map.len()
            invariant
                i <= map@.len(),
                r@ == lowercase_names(map@.take(i as int)),
            decreases map@.len() - i,
        {
            if let Some((name, value)) = map.get(i) {
                r.append(name, value);
            }
            assert(lowercase_names(map@.take(i + 1)) =~= lowercase_names(map@.take(i as int)).push(
                (lowercase(map@[i as int].0), map@[i as int].1),
            ));
            i += 1;
        }
        assert(map@.take(i as int) =~= map@);
        r
    }

    /// The headers of an envelope that renders them twice, once with every value
    /// and once with a single value for each name: every line of `multi`, then the
    /// lines of `single` under names that `multi` does not hold, names compared
    /// and stored in lower case.
    pub fn merged(multi: &StrMap, single: &StrMap) -> (r: Headers)
        ensures
            r@ == merge(lowercase_names(multi@), lowercase_names(single@)),
    {
        let all_values = Headers::from_map(multi);
        let one_value = Headers::from_map(single);
        let joined = all_values.as_map().merged_with(one_value.as_map());
        proof {
            lemma_merge_lowercase(all_values@, one_value@);
            lemma_lowercase_names_fixed(joined@);
        }
        Headers::from_map(&joined)
    }

    /// A copy of the headers.
    pub fn duplicate(&self) -> (r: Headers)
        ensures
            r@ == self@,
    {
        proof {
            use_type_invariant(self);
            lemma_lowercase_names_fixed(self@);
        }
        Headers::from_map(&self.map)
    }
}

} // verus!
