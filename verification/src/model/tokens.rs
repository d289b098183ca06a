//! Token classes and the registry that keeps them apart.

use vstd::prelude::*;

use indexmap::IndexMap;

use super::parameters::ArgsSpec;

verus! {

/// The `IndexMap` of the `indexmap` crate: a hash map that remembers the order in which its
/// keys were first inserted.
#[verifier::external_type_specification]
#[verifier::external_body]
#[verifier::reject_recursive_types(K)]
#[verifier::reject_recursive_types(V)]
#[verifier::reject_recursive_types(S)]
pub struct ExIndexMap<K, V, S>(IndexMap<K, V, S>);

/// Why a token could not be registered.
#[derive(Clone, Debug)]
pub enum TokenError {
    /// token @ {descriptor} registered twice
    TokenRegistration(UniqueDescriptor),
}

impl TokenError {
    /// The human-readable description of the error.
    pub open spec fn spec_message(self) -> Seq<char> {
        match self {
            TokenError::TokenRegistration(id) => "token @ "@ + id.spec_describe()
                + " registered twice"@,
        }
    }

    /// Describe the error for humans.
    pub fn message(&self) -> (s: String)
        ensures
            s@ == self.spec_message(),
    {
        match self {
            TokenError::TokenRegistration(id) => {
                let mut s = String::from_str("token @ ");
                let described = id.describe();
                s.append(described.as_str());
                s.append(" registered twice");
                s
            },
        }
    }
}

/// A string used to uniquely identify a token class, to avoid duplicate registrations. This
/// string is also used in error messages, so it should briefly describe the token itself as well.
#[derive(Copy, Clone, Debug, PartialEq, Eq, PartialOrd, Ord, Hash)]
pub struct UniqueDescriptor(pub &'static str);

impl View for UniqueDescriptor {
    type V = Seq<char>;

    open spec fn view(&self) -> Seq<char> {
        self.0@
    }
}

impl UniqueDescriptor {
    /// How the descriptor reads in messages.
    pub open spec fn spec_describe(self) -> Seq<char> {
        "unique descriptor: '"@ + self@ + "'"@
    }

    /// Describe the descriptor for humans.
    pub fn describe(&self) -> (s: String)
        ensures
            s@ == self.spec_describe(),
    {
        let mut s = String::from_str("unique descriptor: '");
        s.append(self.0);
        s.append("'");
        s
    }
}

/// A class of tokens which may be emitted by some stream.
#[derive(Clone, Debug)]
pub struct TokenSpec {
    /// The descriptor the class is registered under.
    pub unique_descriptor: UniqueDescriptor,
    /// Whether instances carry arguments.
    pub args_spec: ArgsSpec,
}

impl View for TokenSpec {
    /// The descriptor, and whether instances may carry arguments.
    type V = (Seq<char>, bool);

    open spec fn view(&self) -> (Seq<char>, bool) {
        (self.unique_descriptor@, self.args_spec is SomeArguments)
    }
}

/// What an `IndexMap` from descriptors to token classes holds: its entries in the order in which
/// their keys were first inserted, each key and value by its view.
pub uninterp spec fn token_map_entries(
    m: IndexMap<UniqueDescriptor, TokenSpec>,
) -> Seq<(Seq<char>, (Seq<char>, bool))>;

/// The position of the entry with key `key`, if any.
pub open spec fn entry_index(
    entries: Seq<(Seq<char>, (Seq<char>, bool))>,
    key: Seq<char>,
) -> Option<int> {
    if exists|i: int| 0 <= i < entries.len() && entries[i].0 == key {
        Some(choose|i: int| 0 <= i < entries.len() && entries[i].0 == key)
    } else {
        None
    }
}

/// No key occurs twice.
pub open spec fn keys_distinct(entries: Seq<(Seq<char>, (Seq<char>, bool))>) -> bool {
    forall|i: int, j: int|
        0 <= i < entries.len() && 0 <= j < entries.len() && i != j ==> entries[i].0 != entries[j].0
}

/// Calls `IndexMap::new`: the new map is empty.
#[verifier::external_body]
fn new_token_map() -> (m: IndexMap<UniqueDescriptor, TokenSpec>)
    ensures
        token_map_entries(m) == Seq::<(Seq<char>, (Seq<char>, bool))>::empty(),
{
    IndexMap::new()
}

/// Calls `IndexMap::insert`. As its documentation says: if an equal key is present, the key keeps
/// its place, its value is replaced by `value`, and the old value is returned; otherwise the pair
/// is added last and `None` is returned. Keys compare as the strings they hold.
#[verifier::external_body]
fn insert_token(
    m: &mut IndexMap<UniqueDescriptor, TokenSpec>,
    key: UniqueDescriptor,
    value: TokenSpec,
) -> (r: Option<TokenSpec>)
    ensures
        ({
            let before = token_map_entries(*old(m));
            let after = token_map_entries(*final(m));
            match entry_index(before, key@) {
                Some(i) => {
                    &&& after == before.update(i, (before[i].0, value@))
                    &&& r matches Some(old_value) && old_value@ == before[i].1
                },
                None => {
                    &&& after == before.push((key@, value@))
                    &&& r is None
                },
            }
        }),
{
    m.insert(key, value)
}

/// Calls `IndexMap::contains_key`: whether a key equal to `key` is present. Keys compare as the
/// strings they hold.
#[verifier::external_body]
fn contains_token(m: &IndexMap<UniqueDescriptor, TokenSpec>, key: &UniqueDescriptor) -> (r: bool)
    ensures
        r == (entry_index(token_map_entries(*m), key@) is Some),
{
    m.contains_key(key)
}

/// Calls `Clone::clone` on the map, which clones each key and value: the clone holds the same
/// entries in the same order.
#[verifier::external_body]
fn clone_token_map(m: &IndexMap<UniqueDescriptor, TokenSpec>) -> (r: IndexMap<
    UniqueDescriptor,
    TokenSpec,
>)
    ensures
        token_map_entries(r) == token_map_entries(*m),
{
    m.clone()
}

/// The token classes registered so far, in registration order.
#[derive(Debug)]
pub struct Registry {
    token_specs: IndexMap<UniqueDescriptor, TokenSpec>,
}

impl View for Registry {
    type V = Seq<(Seq<char>, (Seq<char>, bool))>;

    closed spec fn view(&self) -> Seq<(Seq<char>, (Seq<char>, bool))> {
        token_map_entries(self.token_specs)
    }
}

/// What registering `spec` does to the entries `entries`: the new entries, and whether the
/// descriptor was already taken. A taken descriptor leaves the entries as they were; a free one
/// is added last.
pub open spec fn register_outcome(
    entries: Seq<(Seq<char>, (Seq<char>, bool))>,
    spec: (Seq<char>, bool),
) -> (Seq<(Seq<char>, (Seq<char>, bool))>, bool) {
    match entry_index(entries, spec.0) {
        Some(_) => (entries, true),
        None => (entries.push((spec.0, spec)), false),
    }
}

impl Registry {
    /// Every descriptor occurs at most once.
    #[verifier::type_invariant]
    closed spec fn descriptors_distinct(self) -> bool {
        keys_distinct(token_map_entries(self.token_specs))
    }

    /// Whether a class is registered under `descriptor`.
    pub open spec fn is_registered(&self, descriptor: Seq<char>) -> bool {
        entry_index(self@, descriptor) is Some
    }

    /// An empty registry.
    pub fn new() -> (r: Self)
        ensures
            r@ == Seq::<(Seq<char>, (Seq<char>, bool))>::empty(),
    {
        Self { token_specs: new_token_map() }
    }

    /// Register a token class under its descriptor. A descriptor can only be registered once:
    /// registering it again fails with `TokenRegistration` and leaves the registry as it was.
    pub fn register_token_spec(&mut self, token_spec: TokenSpec) -> (r: Result<(), TokenError>)
        ensures
            final(self)@ == if old(self).is_registered(token_spec.unique_descriptor@) {
                old(self)@
            } else {
                old(self)@.push((token_spec.unique_descriptor@, token_spec@))
            },
            keys_distinct(final(self)@),
            final(self).is_registered(token_spec.unique_descriptor@),
            r is Err <==> old(self).is_registered(token_spec.unique_descriptor@),
            r matches Err(TokenError::TokenRegistration(id)) ==> id == token_spec.unique_descriptor,
    {
        proof {
            use_type_invariant(&*self);
            lemma_register_keeps_keys_distinct(self@, token_spec@);
            lemma_registered_after_registering(self@, token_spec@);
        }
        let id = token_spec.unique_descriptor;
        if contains_token(&self.token_specs, &id) {
            return Err(TokenError::TokenRegistration(id));
        }
        let mut token_specs = new_token_map();
        std::mem::swap(&mut token_specs, &mut self.token_specs);
        let _ = insert_token(&mut token_specs, id, token_spec);
        self.token_specs = token_specs;
        Ok(())
    }
}

impl Clone for Registry {
    fn clone(&self) -> (r: Self)
        ensures
            r@ == self@,
    {
        proof {
            use_type_invariant(self);
        }
        Registry { token_specs: clone_token_map(&self.token_specs) }
    }
}

/// Registering keeps the descriptors distinct.
pub proof fn lemma_register_keeps_keys_distinct(
    entries: Seq<(Seq<char>, (Seq<char>, bool))>,
    spec: (Seq<char>, bool),
)
    requires
        keys_distinct(entries),
    ensures
        keys_distinct(register_outcome(entries, spec).0),
{
    match entry_index(entries, spec.0) {
        Some(i) => {},
        None => {
            let after = entries.push((spec.0, spec));
            assert forall|i: int, j: int|
                0 <= i < after.len() && 0 <= j < after.len() && i != j implies after[i].0
                != after[j].0 by {
                if i < entries.len() && j < entries.len() {
                    assert(after[i] == entries[i]);
                    assert(after[j] == entries[j]);
                }
            }
        },
    }
}

/// After registering a class, its descriptor is registered.
pub proof fn lemma_registered_after_registering(
    entries: Seq<(Seq<char>, (Seq<char>, bool))>,
    spec: (Seq<char>, bool),
)
    ensures
        entry_index(register_outcome(entries, spec).0, spec.0) is Some,
{
    let after = register_outcome(entries, spec).0;
    match entry_index(entries, spec.0) {
        Some(i) => {
            assert(after[i].0 == spec.0);
        },
        None => {
            assert(after[entries.len() as int].0 == spec.0);
        },
    }
}

/// Once a descriptor is registered, registering any class under it again fails and leaves the
/// entries (the first class among them) as they were.
pub proof fn lemma_registered_stays_taken(
    entries: Seq<(Seq<char>, (Seq<char>, bool))>,
    first: (Seq<char>, bool),
    second: (Seq<char>, bool),
)
    requires
        first.0 == second.0,
    ensures
        register_outcome(register_outcome(entries, first).0, second).1,
        register_outcome(register_outcome(entries, first).0, second).0 == register_outcome(
            entries,
            first,
        ).0,
{
    lemma_registered_after_registering(entries, first);
}

} // verus!
