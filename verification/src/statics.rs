//! The static-value injector: one value that lives as long as the process,
//! handed to every request by reference.

use crate::context::Context;
use crate::context::Store;
use vstd::prelude::*;
use vstd::string::StringExecFns;

verus! {

/// A handle to a value that lives as long as the process. Copying the handle
/// copies the reference, never the value.
#[derive(Debug)]
pub struct Static<T: 'static>(pub &'static T);

impl<T> Static<T> {
    pub fn new(value: &'static T) -> (r: Static<T>)
        ensures
            r == Static(value),
    {
        Static(value)
    }

    /// What a handler gets when `found` is what its request holds as the
    /// static value: the handle that was installed, or the wiring error
    /// where none was.
    pub open spec fn resolved(found: Option<Static<T>>) -> Result<Static<T>, Rejection> {
        match found {
            Some(handle) => Ok(handle),
            None => Err(Rejection::wiring()),
        }
    }

    /// What a handler gets when it asks the context for the static value.
    pub open spec fn extracted(ctx: Context<Static<T>>) -> Result<Static<T>, Rejection> {
        Self::resolved(ctx.entry)
    }

    /// Decides what a handler gets, where `found` is what looking the static
    /// value up has given. That it is missing is a mistake in how the
    /// pipeline was wired: the request then fails with an internal error.
    pub fn resolve(found: Option<&Static<T>>) -> (r: Result<Static<T>, Rejection>)
        ensures
            r == Self::resolved(
                match found {
                    Some(handle) => Some(*handle),
                    None => None,
                },
            ),
    {
        match found {
            Some(handle) => Ok(Static(handle.0)),
            None => Err(Rejection::new()),
        }
    }

    /// Looks the static value up in a request's context.
    pub fn extract(ctx: &Context<Static<T>>) -> (r: Result<Static<T>, Rejection>)
        ensures
            r == Self::extracted(*ctx),
    {
        Self::resolve(ctx.get())
    }

    /// The static value of a request whose context is known to hold one.
    pub fn expect(ctx: &Context<Static<T>>) -> (r: Static<T>)
        requires
            ctx.entry is Some,
        ensures
            Some(r) == ctx.entry,
    {
        match ctx.get() {
            Some(handle) => Static(handle.0),
            None => vstd::pervasive::unreached(),
        }
    }
}

impl<T: Send + Sync + 'static> Static<T> {
    /// Looks the static value up in a request's store: the handle that the
    /// store holds, or the wiring error where it holds none.
    pub fn from_request_parts(store: &Store<Static<T>>) -> (r: Result<Static<T>, Rejection>)
        ensures
            r == Self::resolved(store.entry()),
    {
        Self::resolve(store.get())
    }
}

impl<T> std::ops::Deref for Static<T> {
    type Target = T;

    /// The value behind the handle.
    fn deref(&self) -> (r: &T)
        ensures
            r == self.0,
    {
        self.0
    }
}

impl<T> Clone for Static<T> {
    fn clone(&self) -> (r: Static<T>)
        ensures
            r == *self,
    {
        Static(self.0)
    }
}

/// The status code of an internal server error.
pub const INTERNAL_SERVER_ERROR: u16 = 500;

/// How a request fails when its context lacks an entry that the pipeline
/// should have installed. It carries neither claims nor state.
#[derive(Debug)]
pub struct Rejection {
    pub status: u16,
    pub message: &'static str,
}

impl Rejection {
    /// The one wiring error there is.
    pub open spec fn wiring() -> Rejection {
        Rejection { status: INTERNAL_SERVER_ERROR, message: "Unknown error occurred!" }
    }

    pub fn new() -> (r: Rejection)
        ensures
            r == Rejection::wiring(),
    {
        Rejection { status: INTERNAL_SERVER_ERROR, message: "Unknown error occurred!" }
    }

    /// The line for the log that names the type whose entry is missing.
    pub open spec fn diagnostic_text(missing: Seq<char>) -> Seq<char> {
        "Failed to  extract "@ + missing + ", is it added via StaticLayer"@
    }

    /// The line for the log that names the type whose entry is missing.
    pub fn diagnostic(missing: &str) -> (line: String)
        ensures
            line@ == Self::diagnostic_text(missing@),
    {
        let mut line = String::from_str("Failed to  extract ");
        line.append(missing);
        line.append(", is it added via StaticLayer");
        line
    }
}

/// A request handler `inner` wrapped so that each request reaches it with a
/// handle to the static value in its context.
pub struct AddStatic<S, T: 'static> {
    pub inner: S,
    pub ext: &'static T,
}

impl<S, T> AddStatic<S, T> {
    pub fn new(inner: S, ext: &'static T) -> (r: Self)
        ensures
            r == (AddStatic { inner, ext }),
    {
        AddStatic { inner, ext }
    }

    /// The context `before` of a request after it has passed this stage.
    pub open spec fn injected(&self, before: Context<Static<T>>) -> Context<Static<T>> {
        before.with_entry(Static(self.ext))
    }

    /// Puts a handle to the static value into the request's context. The
    /// value itself is not copied.
    pub fn inject(&self, ctx: &mut Context<Static<T>>)
        ensures
            *final(ctx) == self.injected(*old(ctx)),
    {
        ctx.insert(Static::new(self.ext));
    }
}

impl<S, T: Send + Sync + 'static> AddStatic<S, T> {
    /// Gives a request what [`inject`](Self::inject) decides on: a handle to
    /// the static value goes into the request's store.
    pub fn call(&self, store: &mut Store<Static<T>>)
        ensures
            final(store).entry() == Some(Static(self.ext)),
            final(store).state() == old(store).state(),
            final(store).one_slot() == old(store).one_slot(),
    {
        let mut ctx = Context::new();
        self.inject(&mut ctx);
        if let Some(handle) = ctx.entry {
            store.put_handle(handle);
        }
    }
}

impl<S: Clone, T> Clone for AddStatic<S, T> {
    /// A stage around a clone of the handler, with the same static value.
    fn clone(&self) -> (r: Self)
        ensures
            r.ext == self.ext,
            cloned(self.inner, r.inner),
    {
        AddStatic { inner: self.inner.clone(), ext: self.ext }
    }
}

/// The recipe for an [`AddStatic`]: the static value, still without a
/// handler.
pub struct StaticLayer<T: 'static> {
    pub ext: &'static T,
}

impl<T> StaticLayer<T> {
    pub fn new(ext: &'static T) -> (r: Self)
        ensures
            r == (StaticLayer { ext }),
    {
        StaticLayer { ext }
    }

    /// Wraps `inner`.
    pub fn layer<S>(&self, inner: S) -> (service: AddStatic<S, T>)
        ensures
            service == (AddStatic { inner, ext: self.ext }),
    {
        AddStatic::new(inner, self.ext)
    }
}

impl<T> Clone for StaticLayer<T> {
    fn clone(&self) -> (r: StaticLayer<T>)
        ensures
            r == *self,
    {
        StaticLayer { ext: self.ext }
    }
}

/// What a context holds for type `T` after a clone of each of `values` was
/// inserted into it, one after the other.
pub open spec fn entry_after_all<T: Clone>(values: Seq<&'static T>, before: Option<T>, after: Option<
    T,
>) -> bool {
    if values.len() == 0 {
        after == before
    } else {
        after matches Some(copy) && cloned(*values.last(), copy)
    }
}

/// A request handler `inner` wrapped so that each request reaches it with a
/// clone of the registered static values in its context.
pub struct AddStaticExtensions<S, T: 'static> {
    pub inner: S,
    pub ext: Vec<&'static T>,
}

impl<S, T: Clone> AddStaticExtensions<S, T> {
    pub fn new(inner: S, ext: Vec<&'static T>) -> (r: Self)
        ensures
            r == (AddStaticExtensions { inner, ext }),
    {
        AddStaticExtensions { inner, ext }
    }

    /// Puts a clone of each registered value into the request's context, in
    /// the order of registration; the request's state is left alone.
    pub fn inject(&self, ctx: &mut Context<T>)
        ensures
            final(ctx).state == old(ctx).state,
            entry_after_all(self.ext@, old(ctx).entry, final(ctx).entry),
    {
        let mut i: usize = 0;
        while i < self.ext.len()
            invariant
                i <= self.ext@.len(),
                ctx.state == old(ctx).state,
                entry_after_all(self.ext@.take(i as int), old(ctx).entry, ctx.entry),
            decreases self.ext@.len() - i,
        {
            let value: &T = self.ext[i];
            ctx.insert(value.clone());
            assert(self.ext@.take(i + 1).last() == self.ext@[i as int]);
            i += 1;
        }
        assert(self.ext@.take(i as int) =~= self.ext@);
    }
}

impl<S, T: Clone + Send + Sync + 'static> AddStaticExtensions<S, T> {
    /// Puts a clone of the value registered last into the request's store,
    /// as [`inject`](Self::inject) decides; with none registered, nothing.
    pub fn call(&self, store: &mut Store<T>)
        ensures
            self.ext@.len() == 0 ==> *final(store) == *old(store),
            self.ext@.len() > 0 ==> (final(store).entry() matches Some(copy) && cloned(
                *self.ext@.last(),
                copy,
            )),
            old(store).state() is Some ==> final(store).state() is Some,
            !old(store).one_slot() ==> final(store).state() == old(store).state(),
            final(store).one_slot() == old(store).one_slot(),
    {
        let mut ctx = Context::new();
        self.inject(&mut ctx);
        ctx.put_into(store);
    }
}

/// The recipe for an [`AddStaticExtensions`]: the static values, still
/// without a handler.
pub struct StaticExtensionsLayer<T: 'static> {
    pub services: Vec<&'static T>,
}

impl<T: Clone> StaticExtensionsLayer<T> {
    pub fn new(services: Vec<&'static T>) -> (r: Self)
        ensures
            r == (StaticExtensionsLayer { services }),
    {
        StaticExtensionsLayer { services }
    }

    /// Wraps `inner`, with the same static values in the same order.
    pub fn layer<S>(&self, inner: S) -> (service: AddStaticExtensions<S, T>)
        ensures
            service.inner == inner,
            service.ext@ == self.services@,
    {
        let mut ext: Vec<&'static T> = Vec::new();
        let mut i: usize = 0;
        while i < self.services.len()
            invariant
                i <= self.services@.len(),
                ext@ == self.services@.take(i as int),
            decreases self.services@.len() - i,
        {
            ext.push(self.services[i]);
            assert(self.services@.take(i as int).push(self.services@[i as int])
                =~= self.services@.take(i + 1));
            i += 1;
        }
        assert(self.services@.take(i as int) =~= self.services@);
        AddStaticExtensions::new(inner, ext)
    }
}

/// A handler behind the stage extracts the very handle that the stage was
/// built with, whatever the context held before.
pub proof fn lemma_installed_is_extracted<S, T>(service: AddStatic<S, T>, before: Context<Static<T>>)
    ensures
        Static::extracted(service.injected(before)) == Ok::<Static<T>, Rejection>(
            Static(service.ext),
        ),
{
}

/// Extracting from a context in which no handle was installed gives the
/// wiring error, never a handle.
pub proof fn lemma_missing_is_rejected<T>(ctx: Context<Static<T>>)
    requires
        ctx.entry is None,
    ensures
        Static::extracted(ctx) == Err::<Static<T>, Rejection>(Rejection::wiring()),
        Rejection::wiring().status == 500,
{
}

/// Of two static stages that a request passes one after the other, the
/// handle of the second stays.
pub proof fn lemma_last_static_wins<S, R, T>(
    first: AddStatic<S, T>,
    second: AddStatic<R, T>,
    before: Context<Static<T>>,
)
    ensures
        Static::extracted(second.injected(first.injected(before))) == Ok::<Static<T>, Rejection>(
            Static(second.ext),
        ),
{
}

/// A handler behind the stage extracts from the request's store the very
/// handle that the stage was built with: what [`AddStatic::call`] leaves in
/// the store is what [`Static::from_request_parts`] returns.
pub proof fn lemma_stored_is_extracted<S, T>(service: AddStatic<S, T>, after: Store<Static<T>>)
    requires
        after.entry() == Some(Static(service.ext)),
    ensures
        Static::resolved(after.entry()) == Ok::<Static<T>, Rejection>(Static(service.ext)),
{
}

/// Extracting from a store that holds no handle gives the wiring error,
/// never a handle.
pub proof fn lemma_not_stored_is_rejected<T>(store: Store<Static<T>>)
    requires
        store.entry() is None,
    ensures
        Static::resolved(store.entry()) == Err::<Static<T>, Rejection>(Rejection::wiring()),
{
}

} // verus!
