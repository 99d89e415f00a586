//! The per-request context as the injectors and handlers of this library see
//! it: a store with one entry per type, of which a request carries its own.
//!
//! A request keeps its entries in its `http::Extensions`, a store keyed by
//! the entries' types. The injectors decide on a [`Context`], which holds
//! the two entries they are about as plain fields, and the decided entries
//! are then put into the request's store, which a [`Store`] wraps.

use crate::state::State;
use crate::statics::Static;
use std::any::TypeId;
use vstd::prelude::*;

verus! {

/// `http::Extensions`, the type-keyed store of a request, as an opaque value.
#[verifier::external_type_specification]
#[verifier::external_body]
pub struct ExExtensions(http::Extensions);

/// The entries of one request's context that an injector for values of type
/// `T` writes and a handler reads back: the request's [`State`] and the value
/// registered for `T`. A later insertion replaces an earlier one of the same
/// type.
#[derive(Debug)]
pub struct Context<T> {
    /// The entry of type [`State`].
    pub state: Option<State>,
    /// The entry of type `T`.
    pub entry: Option<T>,
}

impl<T> Context<T> {
    /// The context with no entry.
    pub open spec fn empty() -> Context<T> {
        Context { state: None, entry: None }
    }

    /// The context after inserting a value of type `T`.
    pub open spec fn with_entry(self, value: T) -> Context<T> {
        Context { entry: Some(value), ..self }
    }

    /// The context after inserting a state.
    pub open spec fn with_state(self, state: State) -> Context<T> {
        Context { state: Some(state), ..self }
    }

    /// The context of a request that has passed no injector yet.
    pub fn new() -> (r: Context<T>)
        ensures
            r == Context::<T>::empty(),
    {
        Context { state: None, entry: None }
    }

    /// Inserts a value of type `T`, and returns the one it replaces.
    pub fn insert(&mut self, value: T) -> (previous: Option<T>)
        ensures
            *final(self) == old(self).with_entry(value),
            previous == old(self).entry,
    {
        let mut slot = Some(value);
        std::mem::swap(&mut slot, &mut self.entry);
        slot
    }

    /// Inserts a state, and returns the one it replaces.
    pub fn insert_state(&mut self, state: State) -> (previous: Option<State>)
        ensures
            *final(self) == old(self).with_state(state),
            previous == old(self).state,
    {
        let mut slot = Some(state);
        std::mem::swap(&mut slot, &mut self.state);
        slot
    }

    /// The entry of type `T`, if one was inserted.
    pub fn get(&self) -> (r: Option<&T>)
        ensures
            match r {
                Some(value) => self.entry == Some(*value),
                None => self.entry is None,
            },
    {
        self.entry.as_ref()
    }

    /// The request's state, if one was inserted.
    pub fn get_state(&self) -> (r: Option<&State>)
        ensures
            match r {
                Some(state) => self.state == Some(*state),
                None => self.state is None,
            },
    {
        self.state.as_ref()
    }

    /// The request's state for changing it in place, if one was inserted.
    pub fn get_state_mut(&mut self) -> (r: Option<&mut State>)
        ensures
            match r {
                Some(state) => old(self).state == Some(*state) && *final(self) == old(
                    self,
                ).with_state(*final(state)),
                None => old(self).state is None && *final(self) == *old(self),
            },
    {
        self.state.as_mut()
    }

    /// What putting this context's entries into the store `before`, the
    /// state first, makes of it. An entry that the context lacks is not
    /// taken out of the store. Unless `T` is [`State`] itself, the two
    /// entries do not touch each other: the one that is not put stays as it
    /// was, and a state that is put stays when the entry is put after it.
    pub open spec fn puts(self, before: Store<T>, after: Store<T>) -> bool {
        &&& after.one_slot() == before.one_slot()
        &&& match (self.state, self.entry) {
            (None, None) => after == before,
            (Some(state), None) => {
                &&& after.state() == Some(state)
                &&& before.entry() is Some ==> after.entry() is Some
                &&& !before.one_slot() ==> after.entry() == before.entry()
            },
            (None, Some(entry)) => {
                &&& after.entry() == Some(entry)
                &&& before.state() is Some ==> after.state() is Some
                &&& !before.one_slot() ==> after.state() == before.state()
            },
            (Some(state), Some(entry)) => {
                &&& after.entry() == Some(entry)
                &&& after.state() is Some
                &&& !before.one_slot() ==> after.state() == Some(state)
            },
        }
    }

    /// Puts this context's entries into a request's store, the state first.
    /// A context without entries leaves the store as it is.
    pub fn put_into(self, store: &mut Store<T>) where T: Clone + Send + Sync + 'static
        ensures
            self.puts(*old(store), *final(store)),
    {
        if let Some(state) = self.state {
            store.put_state(state);
        }
        if let Some(entry) = self.entry {
            store.put(entry);
        }
    }
}

/// A request's `http::Extensions`, seen as the two entries that an injector
/// for values of type `T` writes and a handler reads back: the entry of type
/// [`State`] and the entry of type `T`. Of a store that was just wrapped
/// nothing is known; what is known of it comes from what was put into it and
/// what was found in it.
///
/// The extensions keep one entry per type. So where `T` is [`State`] itself
/// the two entries are one and the same, and putting either replaces both;
/// for every other `T` they are apart.
pub struct Store<T> {
    ext: http::Extensions,
    seen: Ghost<Context<T>>,
    same: Ghost<bool>,
}

impl<T> Store<T> {
    /// The store's entry of type [`State`].
    pub closed spec fn state(&self) -> Option<State> {
        self.seen@.state
    }

    /// The store's entry of type `T`.
    pub closed spec fn entry(&self) -> Option<T> {
        self.seen@.entry
    }

    /// Whether `T` is [`State`] itself, so that the store has one entry for
    /// both.
    pub closed spec fn one_slot(&self) -> bool {
        self.same@
    }

    /// The `http::Extensions` that the store wraps.
    pub closed spec fn extensions(&self) -> http::Extensions {
        self.ext
    }

    /// Wraps the request's extensions. Nothing is claimed of their entries,
    /// nor of whether `T` is [`State`].
    #[verifier::external_body]
    fn wrap(ext: http::Extensions) -> (store: Store<T>)
        ensures
            store.extensions() == ext,
    {
        Store { ext, seen: Ghost(arbitrary()), same: Ghost(arbitrary()) }
    }

    /// A store around the extensions of a request.
    pub fn new(ext: http::Extensions) -> (store: Store<T>)
        ensures
            store.extensions() == ext,
    {
        Self::wrap(ext)
    }

    /// The extensions, with what was put into the store.
    pub fn into_inner(self) -> (ext: http::Extensions)
        ensures
            ext == self.extensions(),
    {
        self.ext
    }
}

impl<T: Clone + Send + Sync + 'static> Store<T> {
    /// `TypeId::of`, for `T` and for [`State`]: the two identifiers are
    /// equal exactly where `T` is [`State`].
    #[verifier::external_body]
    fn types_coincide(&self) -> (r: bool)
        ensures
            r == self.one_slot(),
    {
        TypeId::of::<T>() == TypeId::of::<State>()
    }

    /// Whether `T` is [`State`] itself, so that the store has one entry for
    /// both.
    pub fn is_one_slot(&self) -> (r: bool)
        ensures
            r == self.one_slot(),
    {
        self.types_coincide()
    }

    /// `Extensions::insert` with a value of type `T`: it becomes the store's
    /// entry of that type. The extensions are keyed by the type's
    /// identifier: where `T` is [`State`] itself the value is the state
    /// entry too, and otherwise the state entry is not touched. Either way a
    /// state entry that was there is still there.
    #[verifier::external_body]
    fn put(&mut self, value: T)
        ensures
            final(self).entry() == Some(value),
            old(self).state() is Some ==> final(self).state() is Some,
            final(self).one_slot() == old(self).one_slot(),
            !old(self).one_slot() ==> final(self).state() == old(self).state(),
    {
        self.ext.insert(value);
    }

    /// `Extensions::insert` with a [`State`]: it becomes the store's entry of
    /// that type. The extensions are keyed by the type's identifier: where
    /// `T` is [`State`] itself the state is the entry of type `T` too, and
    /// otherwise that entry is not touched. Either way an entry of type `T`
    /// that was there is still there.
    #[verifier::external_body]
    fn put_state(&mut self, state: State)
        ensures
            final(self).state() == Some(state),
            old(self).entry() is Some ==> final(self).entry() is Some,
            final(self).one_slot() == old(self).one_slot(),
            !old(self).one_slot() ==> final(self).entry() == old(self).entry(),
    {
        self.ext.insert(state);
    }

    /// `Extensions::get` at type `T`: the store's entry of that type, if it
    /// has one.
    #[verifier::external_body]
    fn find(&self) -> (found: Option<&T>)
        ensures
            match found {
                Some(value) => self.entry() == Some(*value),
                None => self.entry() is None,
            },
    {
        self.ext.get::<T>()
    }

    /// `Extensions::get` at type [`State`]: the store's entry of that type,
    /// if it has one.
    #[verifier::external_body]
    fn find_state(&self) -> (found: Option<&State>)
        ensures
            match found {
                Some(state) => self.state() == Some(*state),
                None => self.state() is None,
            },
    {
        self.ext.get::<State>()
    }

    /// The store's entry of type `T`, if it has one.
    pub fn get(&self) -> (r: Option<&T>)
        ensures
            match r {
                Some(value) => self.entry() == Some(*value),
                None => self.entry() is None,
            },
    {
        self.find()
    }

    /// The request's state, if the store has one.
    pub fn get_state(&self) -> (r: Option<&State>)
        ensures
            match r {
                Some(state) => self.state() == Some(*state),
                None => self.state() is None,
            },
    {
        self.find_state()
    }
}

impl<T: Send + Sync + 'static> Store<Static<T>> {
    /// `Extensions::insert` with a handle to a static value: it becomes the
    /// store's entry of that type. A handle is never a [`State`], so the
    /// state entry is not touched.
    #[verifier::external_body]
    pub(crate) fn put_handle(&mut self, handle: Static<T>)
        ensures
            final(self).entry() == Some(handle),
            final(self).state() == old(self).state(),
            final(self).one_slot() == old(self).one_slot(),
    {
        self.ext.insert(handle);
    }
}

} // verus!
