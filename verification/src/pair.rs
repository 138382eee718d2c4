//! Walking a list of items two at a time.

use vstd::prelude::*;

verus! {

/// A cursor over a list of items that hands them out two at a time.
///
/// When the list has an odd number of items, the last one is never part of a
/// pair; it is kept aside once the cursor reaches it and can be asked for with
/// [`Pair::remainder`].
pub struct Pair<T> {
    items: Vec<T>,
    pos: usize,
    last_elem: Option<T>,
}

impl<T> Pair<T> {
    /// The cursor never runs past the end of its list.
    #[verifier::type_invariant]
    spec fn wf(self) -> bool {
        self.pos <= self.items@.len()
    }
}

impl<T: Copy> Pair<T> {
    /// The items that have not been handed out yet.
    pub closed spec fn rest(self) -> Seq<T> {
        self.items@.skip(self.pos as int)
    }

    /// The odd item that was set aside, if the cursor has met one.
    pub closed spec fn leftover(self) -> Option<T> {
        self.last_elem
    }

    /// The next two items, or `None` when fewer than two are left. A single
    /// item that is left is taken off the list and set aside.
    pub fn next(&mut self) -> (r: Option<(T, T)>)
        ensures
            old(self).rest().len() >= 2 ==> r == Some((old(self).rest()[0], old(self).rest()[1]))
                && final(self).rest() == old(self).rest().skip(2) && final(self).leftover() == old(
                self,
            ).leftover(),
            old(self).rest().len() == 1 ==> r.is_none() && final(self).rest() == Seq::<T>::empty()
                && final(self).leftover() == Some(old(self).rest()[0]),
            old(self).rest().len() == 0 ==> r.is_none() && final(self).rest() == Seq::<T>::empty()
                && final(self).leftover() == old(self).leftover(),
    {
        proof {
            use_type_invariant(&*self);
        }
        let n = self.items.len();
        let at = self.pos;
        if at == n {
            assert(self.rest() =~= Seq::<T>::empty());
            None
        } else if n - at == 1 {
            let a = self.items[at];
            self.pos = n;
            self.last_elem = Some(a);
            assert(self.rest() =~= Seq::<T>::empty());
            None
        } else {
            let a = self.items[at];
            let b = self.items[at + 1];
            self.pos = at + 2;
            assert(self.rest() =~= old(self).rest().skip(2));
            Some((a, b))
        }
    }

    /// Bounds on the number of pairs still to come: both are half the number
    /// of items left.
    pub fn size_hint(&self) -> (r: (usize, Option<usize>))
        ensures
            r.0 == self.rest().len() / 2,
            r.1 == Some(r.0),
    {
        proof {
            use_type_invariant(self);
        }
        let left = self.items.len() - self.pos;
        (left / 2, Some(left / 2))
    }

    /// The item that was set aside because the list had an odd number of
    /// items, if the cursor has reached it.
    pub fn remainder(self) -> (r: Option<T>)
        ensures
            r == self.leftover(),
    {
        self.last_elem
    }
}

/// Lists that can be walked two items at a time.
pub trait Pairable<T: Copy>: Sized {
    /// The items of the list, in order.
    spec fn items(self) -> Seq<T>;

    /// A cursor at the start of the list, with nothing set aside.
    fn pair(self) -> (r: Pair<T>)
        ensures
            r.rest() == self.items(),
            r.leftover().is_none(),
    ;
}

impl<T: Copy> Pairable<T> for Vec<T> {
    open spec fn items(self) -> Seq<T> {
        self@
    }

    fn pair(self) -> (r: Pair<T>) {
        let r = Pair { items: self, pos: 0, last_elem: None };
        assert(r.rest() =~= self@);
        r
    }
}

} // verus!
