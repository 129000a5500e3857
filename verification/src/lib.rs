//! A single-value container that tracks whether its value is stale.
//!
//! `Dirty<T>` pairs a value with a dirty flag. While the flag is clear the
//! value is authoritative and may be read directly; once the flag is set the
//! value must be refreshed through `update_if_dirty`, which recomputes it
//! lazily, at most once per call, and only when actually needed.

use vstd::prelude::*;

verus! {

use vstd::std_specs::cmp::PartialEqSpec;

/// A value of type `T` together with a staleness flag.
///
/// When `dirty` is false, `value` is the authoritative, up-to-date result.
/// When `dirty` is true, `value` may be stale and consumers wanting a fresh
/// value must go through [`Dirty::update_if_dirty`].
pub struct Dirty<T> {
    /// True when the stored value is stale and must be recomputed before
    /// being trusted as fresh.
    pub dirty: bool,
    /// The current cached value.
    pub value: T,
}

impl<T> Dirty<T> {
    /// The state after marking the container stale: flag set, value kept.
    pub open spec fn marked(self) -> Dirty<T> {
        Dirty { dirty: true, value: self.value }
    }

    /// The state after clearing the flag: flag clear, value kept.
    pub open spec fn cleared(self) -> Dirty<T> {
        Dirty { dirty: false, value: self.value }
    }

    /// The state after a write: flag set, value replaced.
    pub open spec fn written(self, v: T) -> Dirty<T> {
        Dirty { dirty: true, value: v }
    }

    /// Returns a reference to the authoritative current value, recomputing it
    /// first when, and only when, the container is dirty.
    ///
    /// On a clean container the stored value is returned unchanged and `f` is
    /// never invoked. On a dirty container `f` is invoked exactly once, its
    /// result is stored, the flag is cleared, and the new value is returned.
    pub fn update_if_dirty<F>(&mut self, f: F) -> (r: &T) where
        F: FnOnce() -> T,

        requires
            old(self).dirty ==> call_requires(f, ()),
        ensures
            !final(self).dirty,
            !old(self).dirty ==> *final(self) == *old(self),
            old(self).dirty ==> call_ensures(f, (), final(self).value),
            *r == final(self).value,
    {
        if !self.dirty {
            &self.value
        } else {
            self.dirty = false;
            self.value = f();
            &self.value
        }
    }

    /// Marks the stored value as stale. The value itself is left unchanged.
    pub fn set_dirty(&mut self)
        ensures
            *final(self) == old(self).marked(),
    {
        self.dirty = true;
    }

    /// Declares the stored value valid as it stands, without recomputation:
    /// clears the flag and leaves the value unchanged.
    pub fn clear_dirty(&mut self)
        ensures
            *final(self) == old(self).cleared(),
    {
        self.dirty = false;
    }

    /// Replaces the stored value and marks the container stale, so that a
    /// pending recompute on the next fresh read wins over this write.
    pub fn update(&mut self, v: T)
        ensures
            *final(self) == old(self).written(v),
    {
        self.dirty = true;
        self.value = v;
    }
}

/// Marking a container stale is idempotent, and so is clearing the flag:
/// a second `set_dirty` or `clear_dirty` in a row leaves the state of the
/// first, flag and value alike.
pub proof fn lemma_mark_clear_idempotent<T>(s: Dirty<T>)
    ensures
        s.marked().marked() == s.marked(),
        s.cleared().cleared() == s.cleared(),
{
}

/// Whatever the prior state, a marked container is dirty and keeps its value,
/// so the `update_if_dirty` that follows a `set_dirty` always takes the
/// recompute branch.
pub proof fn lemma_marked_is_dirty<T>(s: Dirty<T>)
    ensures
        s.marked().dirty,
        s.marked().value == s.value,
{
}

/// Whatever the prior state, a cleared container is clean and keeps its value,
/// so the `update_if_dirty` that follows a `clear_dirty` never recomputes.
pub proof fn lemma_cleared_is_clean<T>(s: Dirty<T>)
    ensures
        !s.cleared().dirty,
        s.cleared().value == s.value,
{
}

/// Containers compare componentwise: they are equal exactly when both the
/// flags and the values agree; in particular, two containers with the same
/// flag but unequal values are unequal.
pub proof fn lemma_eq_componentwise<T: PartialEq>(a: Dirty<T>, b: Dirty<T>)
    ensures
        a.eq_spec(&b) <==> (a.dirty == b.dirty && <T as PartialEqSpec>::eq_spec(
            &a.value,
            &b.value,
        )),
        (a.dirty == b.dirty && !<T as PartialEqSpec>::eq_spec(&a.value, &b.value)) ==> !a.eq_spec(
            &b,
        ),
{
}

impl<T: Default> Default for Dirty<T> {
    /// A clean container holding `T`'s default value.
    fn default() -> (r: Self)
        ensures
            !r.dirty,
            call_ensures(T::default, (), r.value),
    {
        Dirty { dirty: false, value: Default::default() }
    }
}

impl<T: PartialEq> PartialEq for Dirty<T> {
    /// Two containers are equal when both their flags and their values are
    /// equal. Inequality is the negation of equality.
    fn eq(&self, other: &Self) -> bool {
        self.dirty == other.dirty && self.value == other.value
    }
}

impl<T: PartialEq> vstd::std_specs::cmp::PartialEqSpecImpl for Dirty<T> {
    open spec fn obeys_eq_spec() -> bool {
        <T as PartialEqSpec>::obeys_eq_spec()
    }

    open spec fn eq_spec(&self, other: &Self) -> bool {
        self.dirty == other.dirty && <T as PartialEqSpec>::eq_spec(&self.value, &other.value)
    }
}

} // verus!
