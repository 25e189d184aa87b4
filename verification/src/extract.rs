use vstd::prelude::*;
use crate::outcome::{Outcome, found_outcome};
use crate::error::GuardError;

verus! {

/// A value taken from the request's own extensions, by reference.
pub struct Ext<'a, T>(&'a T);

impl<'a, T> Ext<'a, T> {
    /// The value.
    pub closed spec fn value(&self) -> &'a T {
        self.0
    }

    /// The extractor's outcome for a lookup in the request's extensions: the
    /// value when it is there; otherwise the extractor declines.
    pub fn from_lookup(found: Option<&'a T>) -> (r: Outcome<Ext<'a, T>, GuardError, ()>)
        ensures
            match found {
                Some(v) => r matches Outcome::Success(e) && e.value() == v,
                None => r is Next,
            },
    {
        match found {
            Some(v) => Outcome::Success(Ext(v)),
            None => found_outcome(None),
        }
    }

    /// The value.
    pub fn get(&self) -> (r: &'a T)
        ensures
            r == self.value(),
    {
        self.0
    }
}

impl<'a, T> std::ops::Deref for Ext<'a, T> {
    type Target = T;

    fn deref(&self) -> (r: &T)
        ensures
            r == self.value(),
    {
        self.0
    }
}

/// A value taken from the application's store, by copy.
#[derive(Debug, Clone)]
pub struct AppExt<T>(T);

impl<T> AppExt<T> {
    /// The value.
    pub closed spec fn value(&self) -> T {
        self.0
    }

    /// The extractor's outcome for a lookup in the application's store: the
    /// value when it is stored; otherwise the extractor declines.
    pub fn from_lookup(found: Option<T>) -> (r: Outcome<AppExt<T>, GuardError, ()>)
        ensures
            match found {
                Some(v) => r matches Outcome::Success(e) && e.value() == v,
                None => r is Next,
            },
    {
        match found {
            Some(v) => Outcome::Success(AppExt(v)),
            None => Outcome::Next(()),
        }
    }

    /// The value.
    pub fn get(&self) -> (r: &T)
        ensures
            *r == self.value(),
    {
        &self.0
    }

    /// The value, to change in place.
    pub fn get_mut(&mut self) -> (r: &mut T)
        ensures
            *r == old(self).value(),
            final(self).value() == *final(r),
    {
        &mut self.0
    }

    /// Gives the value back.
    pub fn into_inner(self) -> (r: T)
        ensures
            r == self.value(),
    {
        self.0
    }
}

impl<T> std::ops::Deref for AppExt<T> {
    type Target = T;

    fn deref(&self) -> (r: &T)
        ensures
            *r == self.value(),
    {
        &self.0
    }
}

/// What a plugin lookup does: hand out the stored value, or evaluate the
/// plugin first.
#[derive(Debug, Clone, Copy, PartialEq, Eq, Structural)]
pub enum PluginLookup {
    Cached,
    Evaluate,
}

/// The slot in which a plugin's value is kept once it was produced: a
/// plugin is evaluated only while its slot is empty, and the first value it
/// produces is kept from then on.
pub struct PluginSlot<P> {
    value: Option<P>,
}

impl<P> PluginSlot<P> {
    /// The value kept, if the plugin was evaluated successfully.
    pub closed spec fn kept(&self) -> Option<P> {
        self.value
    }

    /// An empty slot: the plugin has not been evaluated.
    pub fn new() -> (r: PluginSlot<P>)
        ensures
            r.kept() is None,
    {
        PluginSlot { value: None }
    }

    /// Whether a lookup hands out the kept value or must evaluate the plugin.
    pub fn lookup(&self) -> (r: PluginLookup)
        ensures
            r == lookup_for(self.kept()),
    {
        match self.value {
            Some(_) => PluginLookup::Cached,
            None => PluginLookup::Evaluate,
        }
    }

    /// Takes what evaluating the plugin produced: a value is kept, an error
    /// is handed back and leaves the slot empty.
    pub fn settle<E>(&mut self, evaluated: Result<P, E>) -> (r: Result<(), E>)
        requires
            old(self).kept() is None,
        ensures
            final(self).kept() == settled(evaluated),
            match evaluated {
                Ok(_) => r is Ok,
                Err(e) => r == Err::<(), E>(e),
            },
    {
        match evaluated {
            Ok(v) => {
                self.value = Some(v);
                Ok(())
            },
            Err(e) => Err(e),
        }
    }

    /// The kept value, to read or change in place.
    pub fn kept_mut(&mut self) -> (r: Option<&mut P>)
        ensures
            match old(self).kept() {
                None => r is None && final(self).kept() is None,
                Some(v) => r matches Some(m) && *m == v && final(self).kept() == Some(*final(m)),
            },
    {
        match &mut self.value {
            Some(v) => Some(v),
            None => None,
        }
    }
}

/// What a lookup does for a slot that keeps `kept`.
pub open spec fn lookup_for<P>(kept: Option<P>) -> PluginLookup {
    match kept {
        Some(_) => PluginLookup::Cached,
        None => PluginLookup::Evaluate,
    }
}

/// What an empty slot keeps after the plugin's evaluation gave `evaluated`.
pub open spec fn settled<P, E>(evaluated: Result<P, E>) -> Option<P> {
    match evaluated {
        Ok(v) => Some(v),
        Err(_) => None,
    }
}

/// A plugin is evaluated once and then kept: after a successful evaluation
/// every lookup hands out the kept value, also after it was changed in place;
/// after a failed one the next lookup evaluates the plugin again.
pub proof fn law_plugin_evaluated_once<P, E>(evaluated: Result<P, E>, changed: P)
    ensures
        lookup_for(settled(evaluated)) is Cached <==> evaluated is Ok,
        evaluated is Ok ==> settled(evaluated) == Some(evaluated->Ok_0),
        lookup_for(Some(changed)) is Cached,
{
}

/// A value computed from `T` on demand, by the plugin itself.
pub trait Plugin<T>: Sized {
    type Error;

    fn eval(extensible: &mut T) -> Result<Self, Self::Error>;
}

/// Marks the request type that the framework extends; nothing else can have
/// its extension methods.
pub trait Sealed {}

/// The configuration of an extension, found in the application's
/// configuration under `KEY`.
pub trait ExtensionConfig {
    const KEY: &'static str;
}

} // verus!
