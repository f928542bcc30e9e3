use vstd::prelude::*;

verus! {

/// A lazy, single-pass producer of the elements of a sequence whose
/// positions all hold one type. Each `next` call detaches the current
/// head and keeps the rest as the new internal state.
pub struct IntoIter<T> {
    items: Vec<T>,
}

impl<T> View for IntoIter<T> {
    type V = Seq<T>;

    closed spec fn view(&self) -> Seq<T> {
        self.items@
    }
}

impl<T> IntoIter<T> {
    /// A producer with nothing left to yield.
    pub fn empty() -> (r: IntoIter<T>)
        ensures
            r@ === Seq::<T>::empty(),
    {
        IntoIter { items: Vec::new() }
    }

    /// The same producer with one more element to yield first.
    pub fn prepend(self, value: T) -> (r: IntoIter<T>)
        ensures
            r@ == seq![value] + self@,
    {
        let mut items = self.items;
        items.insert(0, value);
        let r = IntoIter { items };
        proof {
            assert(r@ =~= seq![value] + self@);
        }
        r
    }

    /// Detaches and yields the first remaining element; yields nothing
    /// once the internal state is empty, and from then on forever.
    pub fn next(&mut self) -> (r: Option<T>)
        ensures
            match r {
                Some(value) => old(self)@.len() > 0 && value == old(self)@[0] && final(self)@
                    == old(self)@.drop_first(),
                None => old(self)@.len() == 0 && final(self)@ == old(self)@,
            },
    {
        if self.items.len() > 0 {
            let value = self.items.remove(0);
            proof {
                assert(self@ =~= old(self)@.drop_first());
            }
            Some(value)
        } else {
            None
        }
    }
}

} // verus!
