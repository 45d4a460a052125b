use vstd::prelude::*;

verus! {

/// A slot that owns one boxed value and can swap it for another by
/// compare-and-exchange.
///
/// Each installed value gets the next stamp, counting up from 0 and wrapping
/// to 0 after `u64::MAX`; `raw` reads the stamp of the value held now, and
/// `compare_exchange` installs a new value only when the caller's stamp is
/// still the current one. A stamp therefore plays the part of the address of
/// the current box: it changes whenever a new box is installed.
pub struct AtomicBox<T> {
    current: Box<T>,
    stamp: u64,
}

impl<T> AtomicBox<T> {
    /// The value held now.
    pub closed spec fn value(&self) -> T {
        *self.current
    }

    /// The stamp of the value held now.
    pub closed spec fn stamp(&self) -> u64 {
        self.stamp
    }

    /// The stamp that the next installed value receives.
    pub open spec fn next_stamp(stamp: u64) -> u64 {
        if stamp == u64::MAX { 0 } else { (stamp + 1) as u64 }
    }

    /// Makes a slot that holds `from`.
    pub fn new(from: T) -> (r: Self)
        ensures
            r.value() == from,
            r.stamp() == 0,
    {
        AtomicBox { current: Box::new(from), stamp: 0 }
    }

    /// The stamp of the value held now.
    pub fn raw(&self) -> (r: u64)
        ensures
            r == self.stamp(),
    {
        self.stamp
    }

    /// Installs `next_box` if `start_raw` is the stamp of the value held now,
    /// and hands back the value that it replaced; otherwise leaves the slot as
    /// it is and hands `next_box` back.
    pub fn compare_exchange(&mut self, start_raw: u64, next_box: Box<T>) -> (r: Result<Box<T>, Box<T>>)
        ensures
            start_raw == old(self).stamp() ==> {
                &&& r matches Ok(prev) && *prev == old(self).value()
                &&& final(self).value() == *next_box
                &&& final(self).stamp() == Self::next_stamp(old(self).stamp())
            },
            start_raw != old(self).stamp() ==> {
                &&& r matches Err(back) && *back == *next_box
                &&& final(self).value() == old(self).value()
                &&& final(self).stamp() == old(self).stamp()
            },
    {
        if start_raw == self.stamp {
            let mut next_box = next_box;
            std::mem::swap(&mut self.current, &mut next_box);
            self.stamp = self.stamp.wrapping_add(1);
            Ok(next_box)
        } else {
            Err(next_box)
        }
    }

    /// Computes a new value from the one held now and installs it in one
    /// compare-and-exchange against the stamp read before `next` ran.
    pub fn try_apply<F>(&mut self, next: F) -> (r: Result<Box<T>, Box<T>>)
        where
            F: FnOnce(&T) -> T,
        requires
            next.requires((&old(self).value(),)),
        ensures
            r matches Ok(prev) && *prev == old(self).value(),
            next.ensures((&old(self).value(),), final(self).value()),
            final(self).stamp() == Self::next_stamp(old(self).stamp()),
    {
        let start_raw = self.raw();
        let computed = next(&*self.current);
        let next_box = Box::new(computed);
        self.compare_exchange(start_raw, next_box)
    }
}

/// Once a new value is installed, the stamp read before it no longer
/// matches, so a second exchange against that stamp leaves the slot alone.
pub proof fn law_read_stamp_goes_stale<T>(before: AtomicBox<T>, after: AtomicBox<T>)
    requires
        after.stamp() == AtomicBox::<T>::next_stamp(before.stamp()),
    ensures
        after.stamp() != before.stamp(),
{
}

impl<T> std::ops::Deref for AtomicBox<T> {
    type Target = T;

    fn deref(&self) -> (r: &T)
        ensures
            *r == self.value(),
    {
        &*self.current
    }
}

} // verus!
