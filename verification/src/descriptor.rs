//! Page descriptors: one immutable value per page to fetch.

use vstd::prelude::*;
use crate::paths::{page_url, page_url_spec};

verus! {

/// Identifies one page of one book, together with the URL that serves it.
pub struct PageDescriptor {
    pub book_id: usize,
    pub page_number: usize,
    pub url: String,
}

impl PageDescriptor {
    /// The ids are positive and the URL is the one the site serves this
    /// page at.
    pub open spec fn wf(&self) -> bool {
        &&& self.book_id > 0
        &&& self.page_number > 0
        &&& self.url@ == page_url_spec(self.book_id, self.page_number)
    }
}

/// Builds the descriptors for pages `1..=max_page` of one book, in page
/// order.
pub fn build_descriptors(book_id: usize, max_page: usize) -> (r: Vec<PageDescriptor>)
    requires
        book_id > 0,
        max_page < usize::MAX,
    ensures
        r@.len() == max_page,
        forall|i: int|
            0 <= i < max_page ==> {
                &&& (#[trigger] r@[i]).book_id == book_id
                &&& r@[i].page_number == i + 1
                &&& r@[i].url@ == page_url_spec(book_id, (i + 1) as usize)
                &&& r@[i].wf()
            },
{
    let mut r: Vec<PageDescriptor> = Vec::new();
    let mut p: usize = 1;
    while p <= max_page
        invariant
            1 <= p <= max_page + 1,
            max_page < usize::MAX,
            book_id > 0,
            r@.len() == p - 1,
            forall|i: int|
                0 <= i < p - 1 ==> {
                    &&& (#[trigger] r@[i]).book_id == book_id
                    &&& r@[i].page_number == i + 1
                    &&& r@[i].url@ == page_url_spec(book_id, (i + 1) as usize)
                    &&& r@[i].wf()
                },
        decreases max_page + 1 - p,
    {
        let url = page_url(book_id, p);
        r.push(PageDescriptor { book_id, page_number: p, url });
        p = p + 1;
    }
    r
}

} // verus!
