//! Utilities for managing globals.
//!
//! A global is a server-advertised object that components can request to
//! have bound in a version they understand. The binding machinery itself
//! lives outside the engine; this module keeps the bookkeeping that
//! decides which advertisement is accepted and when a bound global is
//! gone.

use core::ops::Range;
use vstd::prelude::*;

verus! {

/// Allows a component to request some global and get notified when the
/// global is created and removed.
pub trait RequestGlobal<I> {
    /// A range of acceptable versions of the global to bind.
    ///
    /// Generally the highest version in this range will be bound unless
    /// some other object requesting the global has a lower maximum
    /// version.
    fn version(&self) -> Range<u32>;

    /// The requested global has been bound.
    ///
    /// It is guaranteed the version of the global is one of the versions
    /// specified in [`RequestGlobal::version`].
    fn new_global(&mut self, name: u32, global: I);

    /// Invoked when a global is destroyed.
    ///
    /// This is invoked for the removal of all globals; the name must
    /// match before the global is assumed dead.
    fn remove_global(&mut self, name: u32);
}

/// A container which automatically binds a specified global in a
/// specified version range.
///
/// This container is suitable for globals which do not dispatch any
/// events and of which only one exists.
pub struct NoEventGlobal<I> {
    inner: Option<I>,
    name: Option<u32>,
    version: Range<u32>,
    destroyed: bool,
}

impl<I> NoEventGlobal<I> {
    /// The bound global, if any.
    pub closed spec fn spec_inner(&self) -> Option<I> {
        self.inner
    }

    /// The name the container watches for removal, if any.
    pub closed spec fn spec_name(&self) -> Option<u32> {
        self.name
    }

    /// The version range the container asks for, as a pair of bounds.
    pub closed spec fn spec_version(&self) -> (u32, u32) {
        (self.version.start, self.version.end)
    }

    /// Whether the bound global has been destroyed.
    pub closed spec fn spec_destroyed(&self) -> bool {
        self.destroyed
    }

    /// Creates a new container, using the specified versions as the
    /// allowed range.
    pub fn new(version: Range<u32>) -> (r: Self)
        ensures
            r.spec_inner() is None,
            r.spec_name() is None,
            r.spec_version() == (version.start, version.end),
            !r.spec_destroyed(),
    {
        Self { inner: None, name: None, version, destroyed: false }
    }

    /// Returns whether the global has been destroyed.
    pub fn destroyed(&self) -> (r: bool)
        ensures
            r == self.spec_destroyed(),
    {
        self.destroyed
    }
}

impl<I: Clone> NoEventGlobal<I> {
    /// Returns a clone of the global, if one is bound.
    pub fn get(&self) -> (r: Option<I>)
        ensures
            r is Some <==> self.spec_inner() is Some,
    {
        match &self.inner {
            Option::Some(global) => Option::Some(global.clone()),
            Option::None => Option::None,
        }
    }
}

impl<I> RequestGlobal<I> for NoEventGlobal<I> {
    fn version(&self) -> (r: Range<u32>)
        ensures
            (r.start, r.end) == self.spec_version(),
    {
        Range { start: self.version.start, end: self.version.end }
    }

    /// A second advertisement of a live global is ignored; otherwise the
    /// new global replaces what was bound.
    fn new_global(&mut self, name: u32, global: I)
        ensures
            final(self).spec_inner() == (if old(self).spec_inner() is Some && !old(
                self,
            ).spec_destroyed() {
                old(self).spec_inner()
            } else {
                Option::Some(global)
            }),
            final(self).spec_name() == old(self).spec_name(),
            final(self).spec_version() == old(self).spec_version(),
            final(self).spec_destroyed() == old(self).spec_destroyed(),
    {
        if self.inner.is_some() && !self.destroyed {
            // A second global of the same kind is advertised while one is
            // bound and alive: keep the first.
        } else {
            self.inner = Option::Some(global);
        }
    }

    /// Removal only counts when the name matches the one the container
    /// recorded for its global.
    fn remove_global(&mut self, name: u32)
        ensures
            final(self).spec_inner() == (if old(self).spec_name() == Option::Some(name) {
                Option::<I>::None
            } else {
                old(self).spec_inner()
            }),
            final(self).spec_destroyed() == (if old(self).spec_name() == Option::Some(name) {
                true
            } else {
                old(self).spec_destroyed()
            }),
            final(self).spec_name() == old(self).spec_name(),
            final(self).spec_version() == old(self).spec_version(),
    {
        let matches_name = match self.name {
            Option::Some(n) => n == name,
            Option::None => false,
        };
        if matches_name {
            self.inner = Option::None;
            self.destroyed = true;
        }
    }
}

} // verus!
