use std::sync::Arc;
use vstd::prelude::*;

use crate::atomic_boxed::AtomicBox;
use crate::holder::arc_clone;

verus! {

/// A shared value that is replaced as a whole, by building its successor
/// from a new handle to the value held now.
pub struct Asrc<T> {
    internal: AtomicBox<Arc<T>>,
}

impl<T> Asrc<T> {
    /// The shared value held now.
    pub closed spec fn view(&self) -> Arc<T> {
        self.internal.value()
    }

    /// Makes a holder of `value`.
    pub fn new(value: T) -> (r: Self)
        ensures
            r.view() == value,
    {
        Asrc { internal: AtomicBox::new(Arc::new(value)) }
    }

    /// Hands `next` a new handle to the value held now, installs what it
    /// builds, and hands back the value that it replaced. No check is made on
    /// how many handles to the value held exist.
    pub fn try_replace<F>(&mut self, next: F) -> (r: Result<Arc<T>, Arc<T>>)
        where
            F: FnOnce(Arc<T>) -> T,
        requires
            next.requires((old(self).view(),)),
        ensures
            r matches Ok(prev) && prev == old(self).view(),
            next.ensures((old(self).view(),), *final(self).view()),
    {
        let replace = (move |last: &Arc<T>| -> (made: Arc<T>)
            requires
                next.requires((*last,)),
            ensures
                next.ensures((*last,), *made),
        {
            let last_arc = arc_clone(last);
            Arc::new(next(last_arc))
        });
        let out = self.internal.try_apply(replace);
        match out {
            Ok(prev) => Ok(arc_clone(&*prev)),
            Err(back) => Err(arc_clone(&*back)),
        }
    }
}

} // verus!
