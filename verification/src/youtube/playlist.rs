use vstd::prelude::*;

verus! {

/// One request for a page of a playlist's items.
#[derive(Debug)]
pub struct PageRequest {
    /// The token of the page asked for; `None` for the first page.
    pub page_token: Option<String>,
    /// How many items the page may hold.
    pub max_results: u32,
}

/// The items of one page, or none where the page lists none.
pub open spec fn page_items<I>(items: Option<Vec<I>>) -> Seq<I> {
    match items {
        Some(v) => v@,
        None => Seq::empty(),
    }
}

/// Collects a playlist's items page by page: the first page asks for two
/// items, every following page, named by the token of the one before it,
/// for fifty.
pub struct PlaylistPager<I> {
    items: Vec<I>,
}

impl<I> View for PlaylistPager<I> {
    type V = Seq<I>;

    closed spec fn view(&self) -> Seq<I> {
        self.items@
    }
}

impl<I> PlaylistPager<I> {
    /// A pager that has collected nothing.
    pub fn new() -> (pager: PlaylistPager<I>)
        ensures
            pager@ == Seq::<I>::empty(),
    {
        PlaylistPager { items: Vec::new() }
    }

    /// The request for the first page.
    pub fn first_request(&self) -> (request: PageRequest)
        ensures
            request.page_token is None,
            request.max_results == 2,
    {
        PageRequest { page_token: None, max_results: 2 }
    }

    /// Takes in a page: its items are appended after those collected so far,
    /// and the request for the next page is returned where the page names
    /// one.
    pub fn on_page(&mut self, items: Option<Vec<I>>, next_page_token: Option<String>) -> (next:
        Option<PageRequest>)
        ensures
            final(self)@ == old(self)@ + page_items(items),
            match next_page_token {
                Some(token) => next matches Some(r) && r.page_token == Some(token) && r.max_results
                    == 50,
                None => next is None,
            },
    {
        match items {
            Some(mut page) => self.items.append(&mut page),
            None => {
                assert(self.items@ =~= self.items@ + Seq::<I>::empty());
            },
        }
        match next_page_token {
            Some(token) => Some(PageRequest { page_token: Some(token), max_results: 50 }),
            None => None,
        }
    }

    /// The items collected, in the order the pages gave them.
    pub fn into_items(self) -> (items: Vec<I>)
        ensures
            items@ == self@,
    {
        self.items
    }
}

} // verus!
