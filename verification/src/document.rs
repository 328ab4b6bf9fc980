//! The page bookkeeping of a document: an open document counts its pages,
//! and a document on a page knows the number of that page.
use vstd::prelude::*;

verus! {

/// Document is currently open. May contain several pages.
pub struct Open {
    pub(crate) pages: usize,
}

/// Document is currently on a page and can be drawn onto.
pub struct OnPage {
    pub(crate) page: usize,
}

impl View for Open {
    type V = nat;

    /// The number of pages so far.
    closed spec fn view(&self) -> nat {
        self.pages as nat
    }
}

impl View for OnPage {
    type V = nat;

    /// The number of the current page.
    closed spec fn view(&self) -> nat {
        self.page as nat
    }
}

impl Open {
    /// A document without pages.
    pub fn new() -> (o: Open)
        ensures
            o@ == 0,
    {
        Open { pages: 0 }
    }

    /// The number of pages in this document.
    pub fn pages(&self) -> (r: usize)
        ensures
            r == self@,
    {
        self.pages
    }

    /// Starts the next page: its number is one more than the pages so far.
    pub fn begin_page(self) -> (p: OnPage)
        requires
            self@ < usize::MAX,
        ensures
            p@ == self@ + 1,
    {
        OnPage { page: self.pages + 1 }
    }
}

impl OnPage {
    /// The number of the page being drawn on.
    pub fn page(&self) -> (r: usize)
        ensures
            r == self@,
    {
        self.page
    }

    /// Ends the page: the open document holds the pages drawn so far.
    pub fn end_page(self) -> (o: Open)
        ensures
            o@ == self@,
    {
        Open { pages: self.page }
    }
}

/// Beginning a page on an open document and ending it leaves the document
/// with one page more.
pub proof fn lemma_page_adds_one(before: Open, page: OnPage, after: Open)
    requires
        before@ < usize::MAX,
        page@ == before@ + 1,
        after@ == page@,
    ensures
        after@ == before@ + 1,
{
}

} // verus!
