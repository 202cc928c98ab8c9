//! Cursor-following listings, one page at a time.

use vstd::prelude::*;

verus! {

/// A cursor ends a listing when it is absent or empty.
pub open spec fn ends_listing(cursor: Option<Seq<char>>) -> bool {
    match cursor {
        None => true,
        Some(c) => c.len() == 0,
    }
}

/// The view of an optional cursor.
pub open spec fn cursor_view(cursor: Option<String>) -> Option<Seq<char>> {
    match cursor {
        None => None,
        Some(c) => Some(c@),
    }
}

/// One page as the server returns it: its elements and its cursor.
pub type PageView<T> = (Seq<T>, Option<Seq<char>>);

/// The state of a listing: the cursor to send next, and whether it ended.
pub type ListingView = (Option<Seq<char>>, bool);

/// The state of a listing after a page arrives.
pub open spec fn after_page<T>(page: PageView<T>) -> ListingView {
    (page.1, ends_listing(page.1))
}

/// What a listing yields from a server that answers its requests with
/// `pages` in turn, and how many requests it sends: one per page up to and
/// including the first page whose cursor ends the listing.
pub open spec fn drive<T>(state: ListingView, pages: Seq<PageView<T>>) -> (Seq<T>, nat)
    decreases pages.len(),
{
    if state.1 || pages.len() == 0 {
        (Seq::empty(), 0)
    } else {
        let rest = drive(after_page(pages[0]), pages.drop_first());
        (pages[0].0 + rest.0, rest.1 + 1)
    }
}

/// The elements of the pages, in order.
pub open spec fn all_elements<T>(pages: Seq<PageView<T>>) -> Seq<T>
    decreases pages.len(),
{
    if pages.len() == 0 {
        Seq::empty()
    } else {
        pages[0].0 + all_elements(pages.drop_first())
    }
}

/// A cursor-following listing: it holds the cursor to send with the next
/// request and stops once a page comes back without one. A new listing is
/// made for each pass; it is never rewound.
pub struct Listing {
    continuation: Option<String>,
    finished: bool,
}

impl View for Listing {
    type V = ListingView;

    closed spec fn view(&self) -> ListingView {
        (cursor_view(self.continuation), self.finished)
    }
}

impl Listing {
    /// A listing before its first request: no cursor.
    pub fn new() -> (r: Self)
        ensures
            r@ == (None::<Seq<char>>, false),
    {
        Listing { continuation: None, finished: false }
    }

    /// The cursor to send with the next request (`Some(None)` for the first
    /// page), or `None` once the listing has ended.
    pub fn next_request(&self) -> (r: Option<Option<String>>)
        ensures
            self@.1 <==> r is None,
            r matches Some(c) ==> cursor_view(c) == self@.0,
    {
        if self.finished {
            None
        } else {
            Some(self.continuation.clone())
        }
    }

    /// Take a page that answered the pending request: its elements are
    /// yielded as they came, and its cursor is the next one to send. An empty
    /// page with a cursor does not end the listing.
    pub fn accept_page<T>(&mut self, elements: Vec<T>, continuation: Option<String>) -> (r: Vec<T>)
        requires
            !old(self)@.1,
        ensures
            r == elements,
            final(self)@ == after_page((elements@, cursor_view(continuation))),
    {
        let end = match &continuation {
            None => true,
            Some(c) => c.as_str().is_empty(),
        };
        self.continuation = continuation;
        self.finished = end;
        elements
    }
}

/// Where only the last of the server's pages ends the listing, a listing
/// yields every element of every page, in the server's order, and sends one
/// request per page, however the elements are split into pages.
pub proof fn lemma_listing_yields_server_order<T>(pages: Seq<PageView<T>>)
    requires
        pages.len() > 0,
        ends_listing(pages.last().1),
        forall|i: int| 0 <= i < pages.len() - 1 ==> !ends_listing(#[trigger] pages[i].1),
    ensures
        drive((None, false), pages) == (all_elements(pages), pages.len()),
        drive((None, false), pages).0.len() == all_elements(pages).len(),
    decreases pages.len(),
{
    lemma_drive_from_open_state(None, pages);
}

/// The same from any state that has not ended.
proof fn lemma_drive_from_open_state<T>(cursor: Option<Seq<char>>, pages: Seq<PageView<T>>)
    requires
        pages.len() > 0,
        ends_listing(pages.last().1),
        forall|i: int| 0 <= i < pages.len() - 1 ==> !ends_listing(#[trigger] pages[i].1),
    ensures
        drive((cursor, false), pages) == (all_elements(pages), pages.len()),
    decreases pages.len(),
{
    if pages.len() == 1 {
        assert(pages.drop_first().len() == 0);
        assert(drive((cursor, false), pages) == (
            pages[0].0 + drive(after_page(pages[0]), pages.drop_first()).0,
            drive(after_page(pages[0]), pages.drop_first()).1 + 1,
        ));
        assert(pages[0].0 + Seq::<T>::empty() =~= pages[0].0);
        assert(all_elements(pages.drop_first()) == Seq::<T>::empty());
    } else {
        let rest = pages.drop_first();
        assert(!ends_listing(pages[0].1));
        assert(rest.last() == pages.last());
        assert forall|i: int| 0 <= i < rest.len() - 1 implies !ends_listing(#[trigger] rest[i].1) by {
            assert(rest[i] == pages[i + 1]);
        }
        lemma_drive_from_open_state(pages[0].1, rest);
        assert(after_page(pages[0]) == (pages[0].1, false));
        assert(drive((cursor, false), pages) == (
            pages[0].0 + drive((pages[0].1, false), rest).0,
            drive((pages[0].1, false), rest).1 + 1,
        ));
    }
}

/// A page whose cursor ends the listing is the last one requested: pages
/// the server would have sent after it are never asked for, whatever they
/// hold, and the ending page's own elements are still yielded.
pub proof fn lemma_listing_stops_at_ending_page<T>(pages: Seq<PageView<T>>, j: int)
    requires
        0 <= j < pages.len(),
        ends_listing(pages[j].1),
    ensures
        drive((None, false), pages) == drive((None, false), pages.take(j + 1)),
    decreases pages.len(),
{
    lemma_stop_from(None, false, pages, j);
}

/// The same from any state.
proof fn lemma_stop_from<T>(cursor: Option<Seq<char>>, done: bool, pages: Seq<PageView<T>>, j: int)
    requires
        0 <= j < pages.len(),
        ends_listing(pages[j].1),
    ensures
        drive((cursor, done), pages) == drive((cursor, done), pages.take(j + 1)),
    decreases pages.len(),
{
    let short = pages.take(j + 1);
    if done {
    } else {
        assert(short[0] == pages[0]);
        assert(short.len() > 0);
        assert(drive((cursor, done), pages) == (
            pages[0].0 + drive(after_page(pages[0]), pages.drop_first()).0,
            drive(after_page(pages[0]), pages.drop_first()).1 + 1,
        ));
        assert(drive((cursor, done), short) == (
            pages[0].0 + drive(after_page(pages[0]), short.drop_first()).0,
            drive(after_page(pages[0]), short.drop_first()).1 + 1,
        ));
        if j == 0 {
            assert(after_page(pages[0]).1);
            assert(short.drop_first().len() == 0);
        } else {
            assert(short.drop_first() =~= pages.drop_first().take(j));
            assert(pages.drop_first()[j - 1] == pages[j]);
            lemma_stop_from(pages[0].1, ends_listing(pages[0].1), pages.drop_first(), j - 1);
        }
    }
}

} // verus!
