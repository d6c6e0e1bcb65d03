//! A bridge between a host that drives plugins through a fixed set of entry
//! points and plugins written against a typed interface.
//!
//! The host keeps each plugin instance behind a [`Handle`]; the bridge in
//! [`output`] checks the instance out of the handle for the length of one
//! call and reports back with one of the host's three result codes.

use vstd::prelude::*;

pub mod config;
pub mod lifecycle;
pub mod output;
pub mod text;

verus! {

/// The two ways in which a plugin callback can fail.
#[derive(Debug, PartialEq, Eq, Hash, Structural)]
pub enum Error {
    /// The event is lost for good; the host must not deliver it again.
    Error,
    /// The host should deliver the event again later.
    Retry,
}

/// The token by which the host holds one plugin instance.
///
/// A handle is a slot for at most one instance. It is null while it holds
/// none: before the instance is made, after it has been given up, or where
/// the host lost track of it. The instance stays boxed, so that it keeps its
/// place in memory for as long as the handle holds it.
pub struct Handle<P> {
    instance: Option<Box<P>>,
}

impl<P> Handle<P> {
    /// The instance that the handle holds, if any.
    pub closed spec fn view(&self) -> Option<P> {
        match self.instance {
            Some(instance) => Some(*instance),
            None => None,
        }
    }

    /// The handle that holds no instance.
    pub fn null() -> (handle: Self)
        ensures
            handle@ is None,
    {
        Handle { instance: None }
    }

    /// The handle that holds `instance`.
    pub fn new(instance: Box<P>) -> (handle: Self)
        ensures
            handle@ == Some(*instance),
    {
        Handle { instance: Some(instance) }
    }

    /// Tells whether the handle holds no instance.
    pub fn is_null(&self) -> (null: bool)
        ensures
            null <==> self@ is None,
    {
        self.instance.is_none()
    }

    /// Looks at the instance without taking it out.
    pub fn instance(&self) -> (instance: Option<&P>)
        ensures
            match instance {
                Some(p) => self@ == Some(*p),
                None => self@ is None,
            },
    {
        match &self.instance {
            Some(instance) => Some(&**instance),
            None => None,
        }
    }

    /// Hands `instance` to the handle, which owns it from here on.
    pub fn restore(&mut self, instance: Box<P>)
        ensures
            final(self)@ == Some(*instance),
    {
        self.instance = Some(instance);
    }

    /// Gives up the handle for what it holds.
    pub fn into_inner(self) -> (instance: Option<Box<P>>)
        ensures
            match instance {
                Some(p) => self@ == Some(*p),
                None => self@ is None,
            },
    {
        self.instance
    }
}

/// Checks the instance out of `ctx`: the caller owns it from here on, and the
/// handle is null until the instance is handed back.
pub fn instance_from_ctx<P>(ctx: &mut Handle<P>) -> (instance: Option<Box<P>>)
    ensures
        final(ctx)@ is None,
        match instance {
            Some(p) => old(ctx)@ == Some(*p),
            None => old(ctx)@ is None,
        },
{
    if ctx.is_null() {
        return None;
    }
    let instance = ctx.instance.take();
    instance
}

} // verus!
