//! Provider lookup and model-name patterns.

use vstd::prelude::*;

use crate::text::{ends_with, starts_with, str_eq};

verus! {

/// What `match_pattern` decides: `*` alone matches every model; a pattern that
/// ends in `*` matches the models that begin with the rest of it; otherwise one
/// that begins with `*` matches the models that end with the rest of it; any
/// other pattern matches exactly the model equal to it.
pub open spec fn pattern_matches(pattern: Seq<char>, model: Seq<char>) -> bool {
    if pattern == seq!['*'] {
        true
    } else if pattern.len() > 0 && pattern.last() == '*' {
        pattern.drop_last().is_prefix_of(model)
    } else if pattern.len() > 0 && pattern[0] == '*' {
        pattern.drop_first().is_suffix_of(model)
    } else {
        pattern == model
    }
}

/// Match model name against a glob-like pattern.
/// Supports `*` as wildcard.
pub fn match_pattern(pattern: &str, model: &str) -> (r: bool)
    ensures
        r == pattern_matches(pattern@, model@),
{
    let plen = pattern.unicode_len();
    if plen == 1 && pattern.get_char(0) == '*' {
        assert(pattern@ =~= seq!['*']);
        return true;
    }
    if plen > 0 && pattern.get_char(plen - 1) == '*' {
        let prefix = pattern.substring_char(0, plen - 1);
        assert(prefix@ =~= pattern@.drop_last());
        return starts_with(model, prefix);
    }
    if plen > 0 && pattern.get_char(0) == '*' {
        let suffix = pattern.substring_char(1, plen);
        assert(suffix@ =~= pattern@.drop_first());
        return ends_with(model, suffix);
    }
    str_eq(pattern, model)
}

/// The provider stored under `id`, if any.
pub open spec fn lookup<P>(m: Map<Seq<char>, P>, id: Seq<char>) -> Option<P> {
    if m.contains_key(id) {
        Some(m[id])
    } else {
        None
    }
}

/// ProviderRegistry holds all initialized Provider instances, keyed by id.
/// Each id occurs once; registering an id again replaces its provider.
pub struct ProviderRegistry<P> {
    providers: Vec<(String, P)>,
    model: Ghost<Map<Seq<char>, P>>,
}

impl<P> View for ProviderRegistry<P> {
    type V = Map<Seq<char>, P>;

    /// The providers by id.
    closed spec fn view(&self) -> Map<Seq<char>, P> {
        self.model@
    }
}

impl<P> ProviderRegistry<P> {
    /// The stored entries have distinct ids and hold exactly the map of the view.
    pub closed spec fn well_formed(&self) -> bool {
        let s = self.providers@;
        let m = self.model@;
        &&& m.dom().finite()
        &&& m.len() == s.len()
        &&& forall|i: int, j: int|
            0 <= i < s.len() && 0 <= j < s.len() && i != j ==> (#[trigger] s[i]).0@ != (#[trigger] s[j]).0@
        &&& forall|i: int|
            0 <= i < s.len() ==> m.contains_key((#[trigger] s[i]).0@) && m[s[i].0@] == s[i].1
        &&& forall|k: Seq<char>|
            #[trigger] m.contains_key(k) ==> exists|i: int| 0 <= i < s.len() && (#[trigger] s[i]).0@ == k
    }

    /// An empty registry.
    pub fn new() -> (r: Self)
        ensures
            r.well_formed(),
            r@ == Map::<Seq<char>, P>::empty(),
    {
        ProviderRegistry { providers: Vec::new(), model: Ghost(Map::empty()) }
    }

    /// Position of `id` among the stored entries.
    fn position(&self, id: &str) -> (r: Option<usize>)
        requires
            self.well_formed(),
        ensures
            match r {
                Some(i) => i < self.providers@.len() && self.providers@[i as int].0@ == id@,
                None => !self@.contains_key(id@),
            },
    {
        let n = self.providers.len();
        let mut i: usize = 0;
        while i < n
            invariant
                self.well_formed(),
                n == self.providers@.len(),
                i <= n,
                forall|j: int| 0 <= j < i ==> (#[trigger] self.providers@[j]).0@ != id@,
            decreases n - i,
        {
            if str_eq(self.providers[i].0.as_str(), id) {
                return Some(i);
            }
            i = i + 1;
        }
        None
    }

    /// Adds `provider` under `id`, replacing any provider already stored there.
    pub fn register(&mut self, id: String, provider: P)
        requires
            old(self).well_formed(),
        ensures
            final(self).well_formed(),
            final(self)@ == old(self)@.insert(id@, provider),
    {
        let ghost key = id@;
        let ghost value = provider;
        let ghost s0 = self.providers@;
        let ghost m1 = self.model@.insert(key, value);
        match self.position(id.as_str()) {
            Some(i) => {
                self.providers.set(i, (id, provider));
                self.model = Ghost(m1);
                assert forall|k: Seq<char>| #[trigger] m1.contains_key(k) implies exists|j: int|
                    0 <= j < self.providers@.len() && (#[trigger] self.providers@[j]).0@ == k by {
                    if k == key {
                        assert(self.providers@[i as int].0@ == k);
                    } else {
                        let j = choose|j: int| 0 <= j < s0.len() && (#[trigger] s0[j]).0@ == k;
                        assert(self.providers@[j].0@ == k);
                    }
                }
            },
            None => {
                self.providers.push((id, provider));
                self.model = Ghost(m1);
                let ghost n = s0.len() as int;
                assert(self.providers@[n].0@ == key);
                assert forall|k: Seq<char>| #[trigger] m1.contains_key(k) implies exists|j: int|
                    0 <= j < self.providers@.len() && (#[trigger] self.providers@[j]).0@ == k by {
                    if k == key {
                        assert(self.providers@[n].0@ == k);
                    } else {
                        let j = choose|j: int| 0 <= j < s0.len() && (#[trigger] s0[j]).0@ == k;
                        assert(self.providers@[j].0@ == k);
                    }
                }
            },
        }
    }

    /// Drops the provider stored under `id`, if any.
    pub fn remove(&mut self, id: &str)
        requires
            old(self).well_formed(),
        ensures
            final(self).well_formed(),
            final(self)@ == old(self)@.remove(id@),
    {
        let ghost s0 = self.providers@;
        let ghost m1 = self.model@.remove(id@);
        match self.position(id) {
            Some(i) => {
                let _ = self.providers.remove(i);
                self.model = Ghost(m1);
                assert forall|k: Seq<char>| #[trigger] m1.contains_key(k) implies exists|j: int|
                    0 <= j < self.providers@.len() && (#[trigger] self.providers@[j]).0@ == k by {
                    let j = choose|j: int| 0 <= j < s0.len() && (#[trigger] s0[j]).0@ == k;
                    if j < i {
                        assert(self.providers@[j].0@ == k);
                    } else {
                        assert(j != i);
                        assert(self.providers@[j - 1].0@ == k);
                    }
                }
            },
            None => {
                assert(m1 =~= self.model@);
            },
        }
    }
}

impl<P: Clone> ProviderRegistry<P> {
    /// A clone of the provider stored under `id`.
    pub fn get(&self, id: &str) -> (r: Option<P>)
        requires
            self.well_formed(),
        ensures
            r is Some <==> lookup(self@, id@) is Some,
            r matches Some(p) ==> cloned::<P>(lookup(self@, id@)->0, p),
    {
        match self.position(id) {
            Some(i) => Some(self.providers[i].1.clone()),
            None => None,
        }
    }

    /// Every stored id with a clone of its provider, each id once.
    pub fn all(&self) -> (r: Vec<(String, P)>)
        requires
            self.well_formed(),
        ensures
            r@.len() == self@.len(),
            forall|i: int|
                0 <= i < r@.len() ==> self@.contains_key((#[trigger] r@[i]).0@) && cloned::<P>(
                    self@[r@[i].0@],
                    r@[i].1,
                ),
            forall|i: int, j: int|
                0 <= i < r@.len() && 0 <= j < r@.len() && i != j ==> (#[trigger] r@[i]).0@ != (
                #[trigger] r@[j]).0@,
            forall|k: Seq<char>|
                #[trigger] self@.contains_key(k) ==> exists|i: int|
                    0 <= i < r@.len() && (#[trigger] r@[i]).0@ == k,
    {
        let n = self.providers.len();
        let mut out: Vec<(String, P)> = Vec::new();
        let mut i: usize = 0;
        while i < n
            invariant
                self.well_formed(),
                n == self.providers@.len(),
                i <= n,
                out@.len() == i,
                forall|j: int|
                    0 <= j < i ==> (#[trigger] out@[j]).0@ == self.providers@[j].0@ && cloned::<P>(
                        self.providers@[j].1,
                        out@[j].1,
                    ),
            decreases n - i,
        {
            let key = self.providers[i].0.clone();
            let value = self.providers[i].1.clone();
            out.push((key, value));
            i = i + 1;
        }
        assert forall|k: Seq<char>| #[trigger] self@.contains_key(k) implies exists|j: int|
            0 <= j < out@.len() && (#[trigger] out@[j]).0@ == k by {
            let j = choose|j: int| 0 <= j < self.providers@.len() && (#[trigger] self.providers@[j]).0@ == k;
            assert(out@[j].0@ == k);
        }
        assert forall|j: int| 0 <= j < out@.len() implies self@.contains_key((#[trigger] out@[j]).0@)
            && cloned::<P>(self@[out@[j].0@], out@[j].1) by {
            assert(self.providers@[j].0@ == out@[j].0@);
        }
        assert forall|a: int, b: int|
            0 <= a < out@.len() && 0 <= b < out@.len() && a != b implies (#[trigger] out@[a]).0@ != (
            #[trigger] out@[b]).0@ by {
            assert(self.providers@[a].0@ == out@[a].0@);
            assert(self.providers@[b].0@ == out@[b].0@);
        }
        out
    }
}

/// `*` alone matches every model name.
pub proof fn lemma_wildcard_matches_every_model(model: Seq<char>)
    ensures
        pattern_matches(seq!['*'], model),
{
}

/// A pattern made of a prefix and a trailing `*` matches exactly the models
/// that begin with the prefix (the empty prefix gives `*`, which matches all).
pub proof fn lemma_trailing_wildcard_is_prefix_test(prefix: Seq<char>, model: Seq<char>)
    ensures
        pattern_matches(prefix.push('*'), model) == prefix.is_prefix_of(model),
{
    if prefix.len() == 0 {
        assert(prefix.push('*') =~= seq!['*']);
        assert(prefix =~= model.subrange(0, 0));
    } else {
        assert(prefix.push('*') != seq!['*']) by {
            assert(prefix.push('*').len() != 1);
        }
        assert(prefix.push('*').drop_last() =~= prefix);
    }
}

/// A leading `*` followed by a suffix that does not itself end in `*` matches
/// exactly the models that end with the suffix.
pub proof fn lemma_leading_wildcard_is_suffix_test(suffix: Seq<char>, model: Seq<char>)
    requires
        suffix.len() == 0 || suffix.last() != '*',
    ensures
        pattern_matches(seq!['*'] + suffix, model) == suffix.is_suffix_of(model),
{
    let p = seq!['*'] + suffix;
    if suffix.len() == 0 {
        assert(p =~= seq!['*']);
        assert(suffix =~= model.subrange(model.len() as int, model.len() as int));
    } else {
        assert(p.len() == suffix.len() + 1);
        assert(p != seq!['*']);
        assert(p.last() == suffix.last());
        assert(p[0] == '*');
        assert(p.drop_first() =~= suffix);
    }
}

/// A pattern with no `*` at either end matches only the model equal to it.
pub proof fn lemma_plain_pattern_is_equality(pattern: Seq<char>, model: Seq<char>)
    requires
        pattern.len() == 0 || (pattern[0] != '*' && pattern.last() != '*'),
    ensures
        pattern_matches(pattern, model) == (pattern == model),
{
    if pattern.len() > 0 {
        assert(pattern != seq!['*']) by {
            if pattern.len() == 1 {
                assert(pattern[0] != seq!['*'][0]);
            }
        }
    } else {
        assert(pattern != seq!['*']) by {
            assert(seq!['*'].len() == 1);
        }
    }
}

/// After `register(id, provider)`, `get(id)` finds `provider`, and every
/// other id finds what it found before.
pub proof fn lemma_get_after_register<P>(
    before: ProviderRegistry<P>,
    after: ProviderRegistry<P>,
    id: Seq<char>,
    provider: P,
    other: Seq<char>,
)
    requires
        after@ == before@.insert(id, provider),
        other != id,
    ensures
        lookup(after@, id) == Some(provider),
        lookup(after@, other) == lookup(before@, other),
{
}

/// Registering the same id twice keeps the second provider only.
pub proof fn lemma_register_twice_keeps_last<P>(
    before: ProviderRegistry<P>,
    middle: ProviderRegistry<P>,
    after: ProviderRegistry<P>,
    id: Seq<char>,
    first: P,
    second: P,
)
    requires
        middle@ == before@.insert(id, first),
        after@ == middle@.insert(id, second),
    ensures
        after@ == before@.insert(id, second),
{
    assert(after@ =~= before@.insert(id, second));
}

/// After `remove(id)`, `get(id)` finds nothing, and every other id finds
/// what it found before.
pub proof fn lemma_get_after_remove<P>(
    before: ProviderRegistry<P>,
    after: ProviderRegistry<P>,
    id: Seq<char>,
    other: Seq<char>,
)
    requires
        after@ == before@.remove(id),
        other != id,
    ensures
        lookup(after@, id) is None,
        lookup(after@, other) == lookup(before@, other),
{
}

} // verus!
