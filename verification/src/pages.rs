//! The pagination collector: providers hand listings back one page at a
//! time, each page naming a cursor for the next, and a listing may be
//! surfaced only once every page has been absorbed — the collected items
//! are exactly the pages' concatenation, in order, nothing doubled and
//! nothing dropped.

use vstd::prelude::*;

verus! {

/// The number of items all the pages hold together.
pub open spec fn spec_pages_total<T>(pages: Seq<Seq<T>>) -> int
    decreases pages.len(),
{
    if pages.len() == 0 {
        0int
    } else {
        spec_pages_total(pages.drop_last()) + pages.last().len()
    }
}

/// Accumulates the pages of one paginated listing. The ghost page
/// history pins the collected items to the concatenation of exactly the
/// pages absorbed.
pub struct PageCollector<T> {
    pub items: Vec<T>,
    /// Whether the provider signalled that no page is left.
    pub exhausted: bool,
    /// The pages absorbed so far.
    pub pages: Ghost<Seq<Seq<T>>>,
}

impl<T> PageCollector<T> {
    /// The collector's invariant: what it holds is the concatenation of
    /// the pages it absorbed.
    pub open spec fn wf(self) -> bool {
        self.items@ == self.pages@.flatten()
    }

    /// Opens a listing: nothing absorbed, pages still expected.
    pub fn new() -> (r: PageCollector<T>)
        ensures
            r.wf(),
            r.items@ == Seq::<T>::empty(),
            r.pages@ == Seq::<Seq<T>>::empty(),
            !r.exhausted,
    {
        let c = PageCollector { items: Vec::new(), exhausted: false, pages: Ghost(Seq::empty()) };
        proof {
            assert(c.pages@.flatten() =~= Seq::<T>::empty());
        }
        c
    }

    /// Absorbs one page, in order and whole, and notes whether the
    /// provider named a further page.
    pub fn absorb(&mut self, page: Vec<T>, has_more: bool)
        requires
            !old(self).exhausted,
            old(self).wf(),
        ensures
            final(self).wf(),
            final(self).items@ == old(self).items@ + page@,
            final(self).pages@ == old(self).pages@.push(page@),
            final(self).exhausted == !has_more,
    {
        let ghost pg = page@;
        let ghost prior = self.pages@;
        proof {
            prior.lemma_flatten_push(pg);
        }
        let mut page = page;
        self.items.append(&mut page);
        self.exhausted = !has_more;
        self.pages = Ghost(prior.push(pg));
    }

    /// Closes the listing once the provider has signalled the last page,
    /// yielding every item of every page, in page order.
    pub fn into_items(self) -> (r: Vec<T>)
        requires
            self.exhausted,
            self.wf(),
        ensures
            r@ == self.pages@.flatten(),
    {
        self.items
    }
}

/// Absorbing every page of a listing yields exactly as many items as the
/// pages held together: none is dropped and none is doubled, whatever
/// cursor style the provider pages with.
pub proof fn lemma_pagination_complete<T>(pages: Seq<Seq<T>>)
    ensures
        pages.flatten().len() == spec_pages_total(pages),
    decreases pages.len(),
{
    if pages.len() > 0 {
        lemma_pagination_complete(pages.drop_last());
        pages.drop_last().lemma_flatten_push(pages.last());
        assert(pages.drop_last().push(pages.last()) =~= pages);
    }
}

} // verus!
