//! Lists of items with a separator between them.
use vstd::prelude::*;

verus! {

/// Items with a separator after each, and possibly one last item with none
/// after it.
#[derive(Debug, PartialEq)]
pub struct Punctuated<T, P> {
    pub inner: Vec<(T, P)>,
    pub last: Option<Box<T>>,
}

impl<T, P> Punctuated<T, P> {
    /// The items, without the separators.
    pub open spec fn items(&self) -> Seq<T> {
        let firsts = Seq::new(self.inner@.len(), |i: int| self.inner@[i].0);
        match self.last {
            Some(last) => firsts.push(*last),
            None => firsts,
        }
    }

    /// A list with nothing in it.
    pub fn new() -> (list: Punctuated<T, P>)
        ensures
            list.items().len() == 0,
            list.inner@.len() == 0,
            list.last is None,
    {
        Punctuated { inner: Vec::new(), last: None }
    }

    /// The items, without the separators.
    pub fn into_tokens(self) -> (items: Vec<T>)
        ensures
            items@ == self.items(),
    {
        let mut items: Vec<T> = Vec::new();
        let Punctuated { inner, last } = self;
        let ghost firsts = Seq::new(inner@.len(), |i: int| inner@[i].0);
        for pair in it: inner
            invariant
                it.seq() == inner@,
                items@ == firsts.take(it.index() as int),
                firsts == Seq::new(inner@.len(), |i: int| inner@[i].0),
        {
            proof {
                assert(firsts.take(it.index() + 1) =~= firsts.take(it.index() as int).push(pair.0));
            }
            items.push(pair.0);
        }
        proof {
            assert(firsts.take(inner@.len() as int) =~= firsts);
        }
        match last {
            Some(last) => {
                items.push(*last);
            },
            None => {},
        }
        items
    }

    /// Whether the list has no item.
    pub fn is_empty(&self) -> (yes: bool)
        ensures
            yes == (self.items().len() == 0),
    {
        self.inner.len() == 0 && self.last.is_none()
    }
}

} // verus!
