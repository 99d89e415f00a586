//! The extension injector: the pipeline stage that gives every request its
//! own copy of the state template and a handle to each registered strategy.

use crate::context::Context;
use crate::context::Store;
use crate::state::State;
use vstd::prelude::*;

verus! {

/// What a context holds for type `T` after the values of `registered` were
/// inserted into it one after the other: a clone of the last of them, or
/// what it held before where none is registered.
pub open spec fn entry_after<T: Clone>(registered: Seq<T>, before: Option<T>, after: Option<
    T,
>) -> bool {
    if registered.len() == 0 {
        after == before
    } else {
        after matches Some(handle) && cloned(registered.last(), handle)
    }
}

/// A request handler `inner` wrapped so that each request reaches it with a
/// copy of the state template and the registered strategies in its context.
pub struct AuthenticationService<S, T> {
    pub inner: S,
    pub state: State,
    pub auth_extensions: Vec<T>,
}

impl<S, T: Clone> AuthenticationService<S, T> {
    pub fn new(inner: S, state: State, auth_extensions: Vec<T>) -> (r: Self)
        ensures
            r == (AuthenticationService { inner, state, auth_extensions }),
    {
        AuthenticationService { inner, state, auth_extensions }
    }

    /// `after` is what the context `before` of a request becomes when the
    /// request passes this stage.
    pub open spec fn injects(&self, before: Context<T>, after: Context<T>) -> bool {
        &&& after.state matches Some(state) && state@ == self.state@
        &&& entry_after(self.auth_extensions@, before.entry, after.entry)
    }

    /// Puts into the request's context a copy of the state template, and
    /// then a clone of each registered strategy, in the order of
    /// registration. The template and the registered strategies stay as
    /// they are.
    pub fn inject(&self, ctx: &mut Context<T>)
        ensures
            self.injects(*old(ctx), *final(ctx)),
    {
        ctx.insert_state(self.state.clone());
        let mut i: usize = 0;
        while i < self.auth_extensions.len()
            invariant
                i <= self.auth_extensions@.len(),
                ctx.state matches Some(state) && state@ == self.state@,
                entry_after(self.auth_extensions@.take(i as int), old(ctx).entry, ctx.entry),
            decreases self.auth_extensions@.len() - i,
        {
            let handle = self.auth_extensions[i].clone();
            ctx.insert(handle);
            assert(self.auth_extensions@.take(i + 1).last() == self.auth_extensions@[i as int]);
            i += 1;
        }
        assert(self.auth_extensions@.take(i as int) =~= self.auth_extensions@);
    }
}

impl<S, T: Clone + Send + Sync + 'static> AuthenticationService<S, T> {
    /// `after` is what the store `before` of a request becomes when the
    /// request passes this stage. It holds a copy of the state template, and
    /// a clone of the strategy registered last; with none registered, the
    /// strategy that it held before, if any. The one exception is a strategy
    /// type that is [`State`] itself: a strategy of that type goes into the
    /// store after the state and takes its place, and with none registered
    /// the state is the entry of that type too.
    pub open spec fn stores(&self, before: Store<T>, after: Store<T>) -> bool {
        &&& after.one_slot() == before.one_slot()
        &&& after.state() is Some
        &&& !before.one_slot() ==> after.state()->Some_0@ == self.state@
        &&& if self.auth_extensions@.len() == 0 {
            &&& after.state()->Some_0@ == self.state@
            &&& before.entry() is Some ==> after.entry() is Some
            &&& !before.one_slot() ==> after.entry() == before.entry()
        } else {
            after.entry() matches Some(handle) && cloned(self.auth_extensions@.last(), handle)
        }
    }

    /// Gives a request what [`inject`](Self::inject) decides on: a copy of
    /// the state template and the registered strategies go into the
    /// request's store. The handler that the request is then passed to finds
    /// them there by their types.
    pub fn call(&self, store: &mut Store<T>)
        ensures
            self.stores(*old(store), *final(store)),
    {
        let mut ctx = Context::new();
        self.inject(&mut ctx);
        ctx.put_into(store);
    }
}

/// The recipe for an [`AuthenticationService`]: the state template and the
/// strategies to register, still without a handler.
pub struct AuthenticationLayer<T> {
    pub state: State,
    pub auth_extensions: Vec<T>,
}

impl<T: Clone> AuthenticationLayer<T> {
    pub fn new(state: State, auth_extensions: Vec<T>) -> (r: Self)
        ensures
            r == (AuthenticationLayer { state, auth_extensions }),
    {
        AuthenticationLayer { state, auth_extensions }
    }

    /// Wraps `inner`. The service gets copies of the template and of the
    /// strategies, so the layer can wrap further handlers.
    pub fn layer<S>(&self, inner: S) -> (service: AuthenticationService<S, T>)
        ensures
            service.inner == inner,
            service.state@ == self.state@,
            service.auth_extensions@.len() == self.auth_extensions@.len(),
            forall|i: int|
                0 <= i < self.auth_extensions@.len() ==> cloned(
                    #[trigger] self.auth_extensions@[i],
                    service.auth_extensions@[i],
                ),
    {
        AuthenticationService::new(inner, self.state.clone(), self.auth_extensions.clone())
    }
}

/// After a request has passed the stage, its context holds a state equal to
/// the template, and, where any strategy is registered, a strategy: a clone
/// of the one registered last. What the handler then stores in its state
/// shows in that state alone; the template reads as before.
pub proof fn lemma_injected_entries<S, T: Clone>(
    service: AuthenticationService<S, T>,
    before: Context<T>,
    after: Context<T>,
    key: Seq<char>,
    value: Seq<char>,
)
    requires
        service.injects(before, after),
    ensures
        after.state is Some,
        after.state->Some_0@ == service.state@,
        service.auth_extensions@.len() > 0 ==> after.entry is Some && cloned(
            service.auth_extensions@.last(),
            after.entry->Some_0,
        ),
        service.auth_extensions@.len() == 0 ==> after.entry == before.entry,
        after.state->Some_0@.set(key, value).get(key) == Some(value),
        forall|other: Seq<char>|
            other != key ==> #[trigger] after.state->Some_0@.set(key, value).get(other)
                == service.state@.get(other),
{
}

/// Of two stages that a request passes one after the other, the second
/// decides the state; it decides the strategy too, unless it registers none,
/// in which case the strategy of the first stays.
pub proof fn lemma_last_stage_wins<S, R, T: Clone>(
    first: AuthenticationService<S, T>,
    second: AuthenticationService<R, T>,
    start: Context<T>,
    between: Context<T>,
    end: Context<T>,
)
    requires
        first.injects(start, between),
        second.injects(between, end),
    ensures
        end.state is Some && end.state->Some_0@ == second.state@,
        entry_after(second.auth_extensions@, between.entry, end.entry),
        second.auth_extensions@.len() == 0 ==> entry_after(
            first.auth_extensions@,
            start.entry,
            end.entry,
        ),
{
}

/// After a request has passed the stage, its store holds a state, and,
/// where any strategy is registered, a clone of the one registered last.
/// Unless the strategy's type is [`State`] itself, the state is a copy of the
/// template: what the handler then stores in it shows in that copy alone,
/// and the template reads as before.
pub proof fn lemma_stored_entries<S, T: Clone + Send + Sync + 'static>(
    service: AuthenticationService<S, T>,
    before: Store<T>,
    after: Store<T>,
    key: Seq<char>,
    value: Seq<char>,
)
    requires
        service.stores(before, after),
    ensures
        after.state() is Some,
        service.auth_extensions@.len() > 0 ==> after.entry() is Some && cloned(
            service.auth_extensions@.last(),
            after.entry()->Some_0,
        ),
        !before.one_slot() && service.auth_extensions@.len() == 0 ==> after.entry()
            == before.entry(),
        !before.one_slot() || service.auth_extensions@.len() == 0 ==> {
            &&& after.state()->Some_0@ == service.state@
            &&& after.state()->Some_0@.set(key, value).get(key) == Some(value)
            &&& forall|other: Seq<char>|
                other != key ==> #[trigger] after.state()->Some_0@.set(key, value).get(other)
                    == service.state@.get(other)
        },
{
}

/// Two requests that pass the stage, in whatever order, and whose handlers
/// store under different keys in the state they find, do not see each
/// other's values: each reads its own value under its own key, and under the
/// other's key what the template holds. The flags and the redirect target
/// that each finds are the template's.
pub proof fn lemma_stored_requests_isolated<S, T: Clone + Send + Sync + 'static>(
    service: AuthenticationService<S, T>,
    first_before: Store<T>,
    first: Store<T>,
    second_before: Store<T>,
    second: Store<T>,
    first_key: Seq<char>,
    first_value: Seq<char>,
    second_key: Seq<char>,
    second_value: Seq<char>,
)
    requires
        service.stores(first_before, first),
        service.stores(second_before, second),
        !first_before.one_slot(),
        !second_before.one_slot(),
        first_key != second_key,
    ensures
        first.state()->Some_0@ == service.state@,
        second.state()->Some_0@ == service.state@,
        first.state()->Some_0@.set(first_key, first_value).get(first_key) == Some(first_value),
        second.state()->Some_0@.set(second_key, second_value).get(second_key) == Some(
            second_value,
        ),
        first.state()->Some_0@.set(first_key, first_value).get(second_key) == service.state@.get(
            second_key,
        ),
        second.state()->Some_0@.set(second_key, second_value).get(first_key)
            == service.state@.get(first_key),
{
}

/// Of two stages that a request passes one after the other, the second
/// decides the stored state, and the stored strategy too unless it registers
/// none, in which case the strategy of the first stays.
pub proof fn lemma_last_stored_wins<S, R, T: Clone + Send + Sync + 'static>(
    first: AuthenticationService<S, T>,
    second: AuthenticationService<R, T>,
    start: Store<T>,
    between: Store<T>,
    end: Store<T>,
)
    requires
        first.stores(start, between),
        second.stores(between, end),
        !start.one_slot(),
    ensures
        end.state() is Some && end.state()->Some_0@ == second.state@,
        second.auth_extensions@.len() > 0 ==> end.entry() is Some && cloned(
            second.auth_extensions@.last(),
            end.entry()->Some_0,
        ),
        second.auth_extensions@.len() == 0 ==> end.entry() == between.entry(),
{
}

} // verus!
