//! The per-request authentication state: two flags, a redirect target and a
//! free-form map from keys to values.

use crate::text::same_text;
use vstd::prelude::*;
use vstd::std_specs::convert::FromSpecImpl;

verus! {

/// `http::Uri`, carried through as an opaque value.
#[verifier::external_type_specification]
#[verifier::external_body]
pub struct ExUri(http::Uri);

/// `Uri::clone` is the derived clone: the copy has the scheme, authority, path
/// and query of the URI it was made from, so it stands for the same URI.
pub assume_specification[ <http::Uri as Clone>::clone ](uri: &http::Uri) -> (copy: http::Uri)
    ensures
        copy == *uri,
;

/// `Uri::default` builds the URI `/`; nothing of it is used in contracts.
pub assume_specification[ <http::Uri as Default>::default ]() -> (uri: http::Uri)
;

/// The key of the `i`-th entry.
spec fn key_at(items: Seq<(String, String)>, i: int) -> Seq<char> {
    items[i].0@
}

/// No key occurs in two entries.
spec fn distinct_keys(items: Seq<(String, String)>) -> bool {
    forall|i: int, j: int|
        0 <= i < j < items.len() ==> #[trigger] key_at(items, i) != #[trigger] key_at(items, j)
}

/// Some entry has the key `k`.
spec fn has_key(items: Seq<(String, String)>, k: Seq<char>) -> bool {
    exists|i: int| 0 <= i < items.len() && #[trigger] key_at(items, i) == k
}

/// The position of an entry with the key `k`.
spec fn index_of(items: Seq<(String, String)>, k: Seq<char>) -> int {
    choose|i: int| 0 <= i < items.len() && #[trigger] key_at(items, i) == k
}

/// The map that a list of entries stands for.
spec fn entries_map(items: Seq<(String, String)>) -> Map<Seq<char>, Seq<char>> {
    Map::new(|k: Seq<char>| has_key(items, k), |k: Seq<char>| items[index_of(items, k)].1@)
}

/// With distinct keys, the entry at `i` is the one its key is mapped to.
proof fn lemma_entry_found(items: Seq<(String, String)>, i: int)
    requires
        distinct_keys(items),
        0 <= i < items.len(),
    ensures
        entries_map(items).contains_key(key_at(items, i)),
        entries_map(items)[key_at(items, i)] == items[i].1@,
{
    let k = key_at(items, i);
    let j = index_of(items, k);
    assert(0 <= j < items.len() && key_at(items, j) == k);
    assert(j == i);
}

/// Appending an entry with a fresh key inserts it into the map.
proof fn lemma_entry_pushed(items: Seq<(String, String)>, entry: (String, String))
    requires
        distinct_keys(items),
        !has_key(items, entry.0@),
    ensures
        distinct_keys(items.push(entry)),
        entries_map(items.push(entry)) == entries_map(items).insert(entry.0@, entry.1@),
{
    let after = items.push(entry);
    assert forall|i: int, j: int| 0 <= i < j < after.len() implies #[trigger] key_at(after, i)
        != #[trigger] key_at(after, j) by {
        if j < items.len() {
            assert(key_at(items, i) != key_at(items, j));
        } else {
            assert(key_at(items, i) != entry.0@);
        }
    }
    let a = entries_map(after);
    let b = entries_map(items).insert(entry.0@, entry.1@);
    assert forall|k: Seq<char>| a.contains_key(k) <==> b.contains_key(k) by {
        if a.contains_key(k) {
            let i = index_of(after, k);
            if i < items.len() {
                assert(key_at(items, i) == k);
            }
        }
        if b.contains_key(k) {
            if k == entry.0@ {
                assert(key_at(after, items.len() as int) == k);
            } else {
                let i = index_of(items, k);
                assert(key_at(after, i) == k);
            }
        }
    }
    assert forall|k: Seq<char>| #[trigger] a.contains_key(k) implies a[k] == b[k] by {
        let i = index_of(after, k);
        lemma_entry_found(after, i);
        if i < items.len() {
            assert(key_at(items, i) == k);
            lemma_entry_found(items, i);
        }
    }
    assert(a =~= b);
}

/// Replacing the value of the entry at `i` replaces it in the map.
proof fn lemma_entry_replaced(items: Seq<(String, String)>, i: int, entry: (String, String))
    requires
        distinct_keys(items),
        0 <= i < items.len(),
        entry.0@ == key_at(items, i),
    ensures
        distinct_keys(items.update(i, entry)),
        entries_map(items.update(i, entry)) == entries_map(items).insert(entry.0@, entry.1@),
{
    let after = items.update(i, entry);
    assert forall|p: int| 0 <= p < items.len() implies key_at(after, p) == key_at(items, p) by {}
    assert forall|p: int, q: int| 0 <= p < q < after.len() implies #[trigger] key_at(after, p)
        != #[trigger] key_at(after, q) by {
        assert(key_at(items, p) != key_at(items, q));
    }
    let a = entries_map(after);
    let b = entries_map(items).insert(entry.0@, entry.1@);
    assert forall|k: Seq<char>| a.contains_key(k) <==> b.contains_key(k) by {
        if a.contains_key(k) {
            let p = index_of(after, k);
            assert(key_at(items, p) == k);
        }
        if b.contains_key(k) {
            if k == entry.0@ {
                assert(key_at(after, i) == k);
            } else {
                let p = index_of(items, k);
                assert(key_at(after, p) == k);
            }
        }
    }
    assert forall|k: Seq<char>| #[trigger] a.contains_key(k) implies a[k] == b[k] by {
        let p = index_of(after, k);
        lemma_entry_found(after, p);
        if p != i {
            assert(key_at(items, p) == k);
            lemma_entry_found(items, p);
        }
    }
    assert(a =~= b);
}

/// A map from string keys to string values, kept as a list of entries in
/// which no key occurs twice.
#[derive(Debug)]
pub struct Entries {
    items: Vec<(String, String)>,
}

impl View for Entries {
    type V = Map<Seq<char>, Seq<char>>;

    closed spec fn view(&self) -> Map<Seq<char>, Seq<char>> {
        entries_map(self.items@)
    }
}

impl Entries {
    #[verifier::type_invariant]
    spec fn well_formed(self) -> bool {
        distinct_keys(self.items@)
    }

    /// The empty map.
    pub fn new() -> (r: Entries)
        ensures
            r@ == Map::<Seq<char>, Seq<char>>::empty(),
    {
        let r = Entries { items: Vec::new() };
        assert(r@ =~= Map::<Seq<char>, Seq<char>>::empty());
        r
    }

    /// The position of the entry with the given key, if there is one.
    fn find(&self, key: &str) -> (r: Option<usize>)
        ensures
            match r {
                Some(i) => i < self.items@.len() && key_at(self.items@, i as int) == key@,
                None => !has_key(self.items@, key@),
            },
    {
        let mut i: usize = 0;
        while i < self.items.len()
            invariant
                i <= self.items@.len(),
                forall|j: int| 0 <= j < i ==> key_at(self.items@, j) != key@,
            decreases self.items@.len() - i,
        {
            if same_text(self.items[i].0.as_str(), key) {
                return Some(i);
            }
            i += 1;
        }
        None
    }

    /// The value stored under `key`, if any.
    pub fn get(&self, key: &str) -> (r: Option<&str>)
        ensures
            match r {
                Some(v) => self@.contains_key(key@) && self@[key@] == v@,
                None => !self@.contains_key(key@),
            },
    {
        proof {
            use_type_invariant(self);
        }
        match self.find(key) {
            Some(i) => {
                proof {
                    lemma_entry_found(self.items@, i as int);
                }
                Some(self.items[i].1.as_str())
            },
            None => None,
        }
    }

    /// Stores `value` under `key`, replacing any value stored there before.
    pub fn insert(&mut self, key: &str, value: &str)
        ensures
            final(self)@ == old(self)@.insert(key@, value@),
    {
        proof {
            use_type_invariant(&*self);
        }
        let entry = (key.to_owned(), value.to_owned());
        let found = self.find(key);
        let mut items: Vec<(String, String)> = Vec::new();
        std::mem::swap(&mut items, &mut self.items);
        match found {
            Some(i) => {
                proof {
                    lemma_entry_replaced(items@, i as int, entry);
                }
                items.set(i, entry);
            },
            None => {
                proof {
                    lemma_entry_pushed(items@, entry);
                }
                items.push(entry);
            },
        }
        std::mem::swap(&mut items, &mut self.items);
    }
}

impl Clone for Entries {
    /// A deep copy: the same keys with the same values.
    fn clone(&self) -> (r: Entries)
        ensures
            r@ == self@,
    {
        proof {
            use_type_invariant(self);
        }
        let mut items: Vec<(String, String)> = Vec::new();
        let mut i: usize = 0;
        while i < self.items.len()
            invariant
                i <= self.items@.len(),
                items@ == self.items@.take(i as int),
            decreases self.items@.len() - i,
        {
            let entry = (self.items[i].0.clone(), self.items[i].1.clone());
            items.push(entry);
            assert(self.items@.take(i as int).push(self.items@[i as int]) =~= self.items@.take(
                i + 1,
            ));
            i += 1;
        }
        assert(self.items@.take(i as int) =~= self.items@);
        Entries { items }
    }
}

/// What a [`State`] holds, as plain values.
pub struct StateView {
    pub allow_refresh: bool,
    pub is_persistent: bool,
    pub redirect_url: http::Uri,
    pub context: Map<Seq<char>, Seq<char>>,
}

impl StateView {
    /// The state after storing `value` under `key`.
    pub open spec fn set(self, key: Seq<char>, value: Seq<char>) -> StateView {
        StateView { context: self.context.insert(key, value), ..self }
    }

    /// The value stored under `key`, if any.
    pub open spec fn get(self, key: Seq<char>) -> Option<Seq<char>> {
        if self.context.contains_key(key) {
            Some(self.context[key])
        } else {
            None
        }
    }

    /// The state after storing the first `n` of the given pairs, in order.
    pub open spec fn set_first(self, pairs: Seq<(&str, &str)>, n: int) -> StateView
        decreases n,
    {
        if n <= 0 {
            self
        } else {
            self.set_first(pairs, n - 1).set(pairs[n - 1].0@, pairs[n - 1].1@)
        }
    }

    /// The state after storing all the given pairs, in order.
    pub open spec fn set_all(self, pairs: Seq<(&str, &str)>) -> StateView {
        self.set_first(pairs, pairs.len() as int)
    }
}

/// Authentication state of one request.
#[derive(Debug)]
pub struct State {
    /// Whether a refresh is permitted for this request.
    pub allow_refresh: bool,
    /// Whether authentication outlives the current session.
    pub is_persistent: bool,
    /// Where challenge and redirect flows send the caller.
    pub redirect_url: http::Uri,
    /// Free-form auxiliary data, by key.
    pub context: Entries,
}

impl View for State {
    type V = StateView;

    open spec fn view(&self) -> StateView {
        StateView {
            allow_refresh: self.allow_refresh,
            is_persistent: self.is_persistent,
            redirect_url: self.redirect_url,
            context: self.context@,
        }
    }
}

impl State {
    /// Replaces the redirect target.
    pub fn set_url(&mut self, url: http::Uri) -> (ret: &mut Self)
        ensures
            *ret == (State { redirect_url: url, ..*old(self) }),
            *final(self) == *final(ret),
    {
        self.redirect_url = url;
        self
    }

    /// Stores `value` under `key`, replacing any value stored there before.
    pub fn set_state(&mut self, key: &str, value: &str) -> (ret: &mut Self)
        ensures
            ret@ == old(self)@.set(key@, value@),
            *final(self) == *final(ret),
    {
        self.context.insert(key, value);
        self
    }

    /// The value stored under `key`, if any.
    pub fn get_state(&self, key: &str) -> (r: Option<&str>)
        ensures
            match r {
                Some(v) => self@.get(key@) == Some(v@),
                None => self@.get(key@) is None,
            },
    {
        self.context.get(key)
    }

    /// Stores every pair of `values`, in order; of two pairs with the same
    /// key the later one stays.
    pub fn set_all(&mut self, values: &[(&str, &str)]) -> (ret: &mut Self)
        ensures
            ret@ == old(self)@.set_all(values@),
            *final(self) == *final(ret),
    {
        let mut i: usize = 0;
        while i < values.len()
            invariant
                i <= values@.len(),
                self@ == old(self)@.set_first(values@, i as int),
            decreases values@.len() - i,
        {
            let (key, value) = values[i];
            self.context.insert(key, value);
            i += 1;
        }
        self
    }
}

impl Default for State {
    /// A state with both flags off and no stored values.
    fn default() -> (r: State)
        ensures
            !r@.allow_refresh,
            !r@.is_persistent,
            r@.context == Map::<Seq<char>, Seq<char>>::empty(),
    {
        State {
            allow_refresh: false,
            is_persistent: false,
            redirect_url: http::Uri::default(),
            context: Entries::new(),
        }
    }
}

impl Clone for State {
    /// A deep copy, which shares nothing with `self`.
    fn clone(&self) -> (r: State)
        ensures
            r@ == self@,
    {
        State {
            allow_refresh: self.allow_refresh,
            is_persistent: self.is_persistent,
            redirect_url: self.redirect_url.clone(),
            context: self.context.clone(),
        }
    }
}

impl From<&http::Uri> for State {
    /// A state that redirects to `value`, with both flags off and no stored
    /// values.
    fn from(value: &http::Uri) -> (r: State)
        ensures
            !r@.allow_refresh,
            !r@.is_persistent,
            r@.redirect_url == *value,
            r@.context == Map::<Seq<char>, Seq<char>>::empty(),
    {
        let redirect_url = value.clone();
        State { allow_refresh: false, is_persistent: false, redirect_url, context: Entries::new() }
    }
}

impl FromSpecImpl<&http::Uri> for State {
    /// The conversion is described by the contract of `from` itself.
    open spec fn obeys_from_spec() -> bool {
        false
    }

    open spec fn from_spec(value: &http::Uri) -> State {
        arbitrary()
    }
}

/// A copy of a template answers for a key with the value last stored in the
/// copy under that key, and for every other key as the template does. The
/// flags and the redirect target of the copy stay those of the template.
pub proof fn lemma_set_then_get(template: State, copy: State, key: Seq<char>, value: Seq<char>)
    requires
        copy@ == template@,
    ensures
        copy@.set(key, value).get(key) == Some(value),
        forall|other: Seq<char>|
            other != key ==> #[trigger] copy@.set(key, value).get(other) == template@.get(other),
        copy@.set(key, value).allow_refresh == template@.allow_refresh,
        copy@.set(key, value).is_persistent == template@.is_persistent,
        copy@.set(key, value).redirect_url == template@.redirect_url,
{
}

/// Two requests that start from copies of one template and store under
/// different keys do not see each other's values: each reads its own value
/// under its own key, and under the other's key what the template held.
pub proof fn lemma_requests_isolated(
    template: State,
    first: State,
    second: State,
    first_key: Seq<char>,
    first_value: Seq<char>,
    second_key: Seq<char>,
    second_value: Seq<char>,
)
    requires
        first@ == template@,
        second@ == template@,
        first_key != second_key,
    ensures
        first@.set(first_key, first_value).get(first_key) == Some(first_value),
        second@.set(second_key, second_value).get(second_key) == Some(second_value),
        first@.set(first_key, first_value).get(second_key) == template@.get(second_key),
        second@.set(second_key, second_value).get(first_key) == template@.get(first_key),
{
}

} // verus!
