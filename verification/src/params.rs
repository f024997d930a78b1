//! Query parameters: an ordered list of key-value pairs in which no key
//! occurs twice.
//!
//! The order is that of first insertion. It is part of the value, so that the
//! text of a URL is a function of the parameters it was made from.

use vstd::prelude::*;

verus! {

/// A key with its value, as texts.
pub type Pair = (Seq<char>, Seq<char>);

/// The pairs of `pairs`, each string taken as its text.
pub open spec fn pairs_view(pairs: Seq<(String, String)>) -> Seq<Pair> {
    Seq::new(pairs.len(), |i: int| (pairs[i].0@, pairs[i].1@))
}

/// Whether `key` is the key of one of `pairs`.
pub open spec fn has_key(pairs: Seq<Pair>, key: Seq<char>) -> bool {
    exists|i: int| 0 <= i < pairs.len() && (#[trigger] pairs[i]).0 == key
}

/// Whether the keys of `pairs` differ from one another.
pub open spec fn distinct_keys(pairs: Seq<Pair>) -> bool {
    forall|i: int, j: int|
        0 <= i < j < pairs.len() ==> (#[trigger] pairs[i]).0 != (#[trigger] pairs[j]).0
}

/// A place at which `pairs` holds `key`; where the keys are distinct, the
/// only one.
pub open spec fn key_position(pairs: Seq<Pair>, key: Seq<char>) -> int
    recommends
        has_key(pairs, key),
{
    choose|i: int| 0 <= i < pairs.len() && (#[trigger] pairs[i]).0 == key
}

/// `pairs` with `key` bound to `value`: in the place where `key` stood, or
/// else at the end.
pub open spec fn with_pair(pairs: Seq<Pair>, key: Seq<char>, value: Seq<char>) -> Seq<Pair> {
    if has_key(pairs, key) {
        pairs.update(key_position(pairs, key), (key, value))
    } else {
        pairs.push((key, value))
    }
}

/// The value that `pairs` binds to `key`, if any.
pub open spec fn value_of(pairs: Seq<Pair>, key: Seq<char>) -> Option<Seq<char>> {
    if has_key(pairs, key) {
        Some(pairs[key_position(pairs, key)].1)
    } else {
        None
    }
}

/// An ordered set of query parameters.
pub struct Params {
    pairs: Vec<(String, String)>,
}

impl View for Params {
    type V = Seq<Pair>;

    closed spec fn view(&self) -> Seq<Pair> {
        pairs_view(self.pairs@)
    }
}

impl Params {
    #[verifier::type_invariant]
    spec fn keys_differ(&self) -> bool {
        distinct_keys(pairs_view(self.pairs@))
    }

    /// No parameters.
    pub fn new() -> (params: Params)
        ensures
            params@ == Seq::<Pair>::empty(),
    {
        let params = Params { pairs: Vec::new() };
        assert(params@ =~= Seq::<Pair>::empty());
        params
    }

    /// The number of parameters.
    pub fn len(&self) -> (n: usize)
        ensures
            n == self@.len(),
    {
        self.pairs.len()
    }

    /// Where `key` stands among the parameters.
    fn position(&self, key: &String) -> (at: Option<usize>)
        ensures
            match at {
                Some(i) => i < self@.len() && self@[i as int].0 == key@ && has_key(self@, key@)
                    && key_position(self@, key@) == i,
                None => !has_key(self@, key@),
            },
    {
        proof {
            use_type_invariant(self);
        }
        let mut i: usize = 0;
        while i < self.pairs.len()
            invariant
                i <= self.pairs.len(),
                distinct_keys(self@),
                self@ == pairs_view(self.pairs@),
                forall|j: int| 0 <= j < i ==> (#[trigger] self@[j]).0 != key@,
            decreases self.pairs.len() - i,
        {
            if self.pairs[i].0 == *key {
                assert(self@[i as int].0 == key@);
                return Some(i);
            }
            i = i + 1;
        }
        None
    }

    /// The value bound to `key`, if any.
    pub fn get(&self, key: &String) -> (value: Option<&String>)
        ensures
            match value {
                Some(v) => value_of(self@, key@) == Some(v@),
                None => value_of(self@, key@) is None,
            },
    {
        match self.position(key) {
            Some(i) => Some(&self.pairs[i].1),
            None => None,
        }
    }

    /// Binds `key` to `value`. A key that is there already keeps its place
    /// and takes the new value; a new key goes to the end.
    pub fn insert(&mut self, key: String, value: String)
        ensures
            final(self)@ == with_pair(old(self)@, key@, value@),
            distinct_keys(final(self)@),
    {
        let at = self.position(&key);
        let mut taken = Params::new();
        std::mem::swap(self, &mut taken);
        let ghost before = taken@;
        proof {
            use_type_invariant(&taken);
            lemma_with_pair_distinct(before, key@, value@);
        }
        let Params { mut pairs } = taken;
        match at {
            Some(i) => {
                pairs.set(i, (key, value));
                assert(pairs_view(pairs@) =~= before.update(i as int, (key@, value@)));
            },
            None => {
                pairs.push((key, value));
                assert(pairs_view(pairs@) =~= before.push((key@, value@)));
            },
        }
        *self = Params { pairs };
    }

    /// The pairs in order, for one who hands them on.
    pub fn pairs(&self) -> (pairs: &Vec<(String, String)>)
        ensures
            pairs_view(pairs@) == self@,
            distinct_keys(self@),
    {
        proof {
            use_type_invariant(self);
        }
        &self.pairs
    }
}

/// Binding a key keeps the keys distinct.
pub proof fn lemma_with_pair_distinct(pairs: Seq<Pair>, key: Seq<char>, value: Seq<char>)
    requires
        distinct_keys(pairs),
    ensures
        distinct_keys(with_pair(pairs, key, value)),
        with_pair(pairs, key, value).len() == if has_key(pairs, key) {
            pairs.len()
        } else {
            pairs.len() + 1
        },
{
    let after = with_pair(pairs, key, value);
    if has_key(pairs, key) {
        let at = key_position(pairs, key);
        assert forall|i: int, j: int| 0 <= i < j < after.len() implies (#[trigger] after[i]).0 != (
        #[trigger] after[j]).0 by {
            assert(pairs[i].0 != pairs[j].0);
        }
    } else {
        assert forall|i: int, j: int| 0 <= i < j < after.len() implies (#[trigger] after[i]).0 != (
        #[trigger] after[j]).0 by {
            if j < pairs.len() {
                assert(pairs[i].0 != pairs[j].0);
            } else {
                assert(pairs[i].0 != key);
            }
        }
    }
}

/// After a key is bound, it is bound to the value given, and every other
/// key to what it was bound to before: the parameters behave as a map.
pub proof fn lemma_with_pair_lookup(
    pairs: Seq<Pair>,
    key: Seq<char>,
    value: Seq<char>,
    other: Seq<char>,
)
    requires
        distinct_keys(pairs),
    ensures
        value_of(with_pair(pairs, key, value), key) == Some(value),
        other != key ==> value_of(with_pair(pairs, key, value), other) == value_of(pairs, other),
{
    let after = with_pair(pairs, key, value);
    lemma_with_pair_distinct(pairs, key, value);
    let at = if has_key(pairs, key) {
        key_position(pairs, key)
    } else {
        pairs.len() as int
    };
    assert(after[at] == (key, value));
    assert(has_key(after, key));
    lemma_position_unique(after, key, at);
    if other != key {
        if has_key(pairs, other) {
            let there = key_position(pairs, other);
            assert(after[there] == pairs[there]);
            assert(has_key(after, other));
            lemma_position_unique(after, other, there);
        } else {
            if has_key(after, other) {
                let there = key_position(after, other);
                assert(there != at);
                assert(pairs[there].0 == other);
            }
        }
    }
}

/// Among distinct keys, a key stands in one place only.
pub proof fn lemma_position_unique(pairs: Seq<Pair>, key: Seq<char>, at: int)
    requires
        distinct_keys(pairs),
        0 <= at < pairs.len(),
        pairs[at].0 == key,
    ensures
        has_key(pairs, key),
        key_position(pairs, key) == at,
{
    let found = key_position(pairs, key);
    if found < at {
        assert(pairs[found].0 != pairs[at].0);
    } else if at < found {
        assert(pairs[at].0 != pairs[found].0);
    }
}

} // verus!
