//! The bookmark list that the chrome keeps in memory, and the requests by
//! which it asks the persistent store to follow.
//!
//! The store itself lives with the embedder.  The chrome decides what to ask of
//! it, and changes its own list only once the store has confirmed the change.

use vstd::prelude::*;

verus! {

/// A bookmarked page.
#[derive(Clone, Debug, PartialEq, Eq)]
pub struct Bookmark {
    /// The page's address.  Bookmarks are told apart by it.
    pub url: String,
    /// The title under which the bookmarks menu lists the page.
    pub title: String,
}

/// The mathematical content of a [`Bookmark`].
pub struct BookmarkView {
    pub url: Seq<char>,
    pub title: Seq<char>,
}

impl View for Bookmark {
    type V = BookmarkView;

    open spec fn view(&self) -> BookmarkView {
        BookmarkView { url: self.url@, title: self.title@ }
    }
}

/// The bookmarks of a list, each by its content, in the list's order.
pub open spec fn bookmarks_view(bookmarks: Seq<Bookmark>) -> Seq<BookmarkView> {
    bookmarks.map_values(|b: Bookmark| b@)
}

/// Whether some bookmark of the list has the address.
pub open spec fn has_url(bookmarks: Seq<BookmarkView>, url: Seq<char>) -> bool {
    exists|i: int| 0 <= i < bookmarks.len() && #[trigger] bookmarks[i].url == url
}

/// How many bookmarks of the list have the address.
pub open spec fn count_url(bookmarks: Seq<BookmarkView>, url: Seq<char>) -> nat {
    bookmarks.filter(|b: BookmarkView| b.url == url).len()
}

/// The list after a bookmark has been added: it comes last.
pub open spec fn with_bookmark(
    bookmarks: Seq<BookmarkView>,
    url: Seq<char>,
    title: Seq<char>,
) -> Seq<BookmarkView> {
    bookmarks.push(BookmarkView { url, title })
}

/// The list after every bookmark with the address has been removed.  The
/// others keep their order.
pub open spec fn without_url(bookmarks: Seq<BookmarkView>, url: Seq<char>) -> Seq<BookmarkView> {
    bookmarks.filter(|b: BookmarkView| b.url != url)
}

/// A change asked of the persistent bookmark store.
#[derive(Clone, Debug, PartialEq, Eq)]
pub enum StoreRequest {
    /// Record a bookmark.
    Add { url: String, title: String },
    /// Delete the bookmarks with this address.
    Remove { url: String },
}

/// The mathematical content of a [`StoreRequest`].
pub enum StoreRequestView {
    Add { url: Seq<char>, title: Seq<char> },
    Remove { url: Seq<char> },
}

impl View for StoreRequest {
    type V = StoreRequestView;

    open spec fn view(&self) -> StoreRequestView {
        match *self {
            StoreRequest::Add { url, title } => StoreRequestView::Add { url: url@, title: title@ },
            StoreRequest::Remove { url } => StoreRequestView::Remove { url: url@ },
        }
    }
}

impl StoreRequestView {
    /// The list that mirrors the store once the store has carried the request
    /// out.
    pub open spec fn applied_to(self, bookmarks: Seq<BookmarkView>) -> Seq<BookmarkView> {
        match self {
            StoreRequestView::Add { url, title } => with_bookmark(bookmarks, url, title),
            StoreRequestView::Remove { url } => without_url(bookmarks, url),
        }
    }
}

/// The request that flips the bookmark state of a page: add it when the star
/// is off, remove it when the star is on.
pub open spec fn toggle_request(
    starred: bool,
    url: Seq<char>,
    title: Seq<char>,
) -> StoreRequestView {
    if starred {
        StoreRequestView::Remove { url }
    } else {
        StoreRequestView::Add { url, title }
    }
}

/// `has_url` and `count_url` agree: an address is in the list exactly when it
/// is counted at least once.
pub proof fn lemma_has_url_iff_counted(bookmarks: Seq<BookmarkView>, url: Seq<char>)
    ensures
        has_url(bookmarks, url) <==> count_url(bookmarks, url) > 0,
    decreases bookmarks.len(),
{
    reveal(Seq::filter);
    let same = |b: BookmarkView| b.url == url;
    if bookmarks.len() > 0 {
        let front = bookmarks.drop_last();
        lemma_has_url_iff_counted(front, url);
        if has_url(bookmarks, url) {
            let i = choose|i: int| 0 <= i < bookmarks.len() && #[trigger] bookmarks[i].url == url;
            if i < front.len() {
                assert(front[i].url == url);
            }
        }
        if has_url(front, url) {
            let i = choose|i: int| 0 <= i < front.len() && #[trigger] front[i].url == url;
            assert(bookmarks[i].url == url);
        }
        if same(bookmarks.last()) {
            assert(bookmarks[bookmarks.len() - 1].url == url);
        }
    }
}

/// Adding a bookmark raises the count of its address by one and leaves every
/// other count alone.
pub proof fn lemma_count_after_add(
    bookmarks: Seq<BookmarkView>,
    url: Seq<char>,
    title: Seq<char>,
    other: Seq<char>,
)
    ensures
        count_url(with_bookmark(bookmarks, url, title), other) == count_url(bookmarks, other) + (if other
            == url {
            1nat
        } else {
            0nat
        }),
{
    reveal(Seq::filter);
    let added = with_bookmark(bookmarks, url, title);
    assert(added.drop_last() =~= bookmarks);
}

/// Removing an address leaves none of it and leaves every other count alone.
pub proof fn lemma_count_after_remove(
    bookmarks: Seq<BookmarkView>,
    url: Seq<char>,
    other: Seq<char>,
)
    ensures
        count_url(without_url(bookmarks, url), other) == (if other == url {
            0nat
        } else {
            count_url(bookmarks, other)
        }),
    decreases bookmarks.len(),
{
    reveal(Seq::filter);
    if bookmarks.len() > 0 {
        let front = bookmarks.drop_last();
        lemma_count_after_remove(front, url, other);
        if bookmarks.last().url != url {
            let kept = without_url(front, url).push(bookmarks.last());
            assert(kept.drop_last() =~= without_url(front, url));
        }
    }
}

/// Adding a page that was not bookmarked and then listing shows it exactly
/// once; removing a page and then listing does not show it.  Either change
/// leaves the bookmarks of every other address as many as they were.
pub proof fn law_add_then_remove_round_trip(
    bookmarks: Seq<BookmarkView>,
    url: Seq<char>,
    title: Seq<char>,
)
    requires
        !has_url(bookmarks, url),
    ensures
        count_url(with_bookmark(bookmarks, url, title), url) == 1,
        has_url(with_bookmark(bookmarks, url, title), url),
        with_bookmark(bookmarks, url, title).last() == (BookmarkView { url, title }),
        !has_url(without_url(with_bookmark(bookmarks, url, title), url), url),
        without_url(with_bookmark(bookmarks, url, title), url) == bookmarks,
{
    let added = with_bookmark(bookmarks, url, title);
    lemma_has_url_iff_counted(bookmarks, url);
    lemma_count_after_add(bookmarks, url, title, url);
    lemma_has_url_iff_counted(added, url);
    lemma_count_after_remove(added, url, url);
    lemma_has_url_iff_counted(without_url(added, url), url);
    lemma_remove_absent(bookmarks, url);
    reveal(Seq::filter);
    assert(added.drop_last() =~= bookmarks);
}

/// Removing an address that is not in the list changes nothing.
pub proof fn lemma_remove_absent(bookmarks: Seq<BookmarkView>, url: Seq<char>)
    requires
        !has_url(bookmarks, url),
    ensures
        without_url(bookmarks, url) == bookmarks,
    decreases bookmarks.len(),
{
    reveal(Seq::filter);
    if bookmarks.len() > 0 {
        let front = bookmarks.drop_last();
        assert(bookmarks[bookmarks.len() - 1].url != url);
        assert forall|i: int| 0 <= i < front.len() implies #[trigger] front[i].url != url by {
            assert(bookmarks[i].url != url);
        }
        lemma_remove_absent(front, url);
        assert(front.push(bookmarks.last()) =~= bookmarks);
    }
}

/// Removing an address, whatever the list held, leaves a list without it.
pub proof fn law_remove_then_list(bookmarks: Seq<BookmarkView>, url: Seq<char>)
    ensures
        !has_url(without_url(bookmarks, url), url),
        count_url(without_url(bookmarks, url), url) == 0,
{
    lemma_count_after_remove(bookmarks, url, url);
    lemma_has_url_iff_counted(without_url(bookmarks, url), url);
}

/// Whether the list holds a bookmark for the address.
pub fn has_bookmark(bookmarks: &Vec<Bookmark>, url: &str) -> (found: bool)
    ensures
        found == has_url(bookmarks_view(bookmarks@), url@),
{
    let ghost views = bookmarks_view(bookmarks@);
    let mut i: usize = 0;
    while i < bookmarks.len()
        invariant
            i <= bookmarks.len(),
            views == bookmarks_view(bookmarks@),
            forall|j: int| 0 <= j < i ==> #[trigger] views[j].url != url@,
        decreases bookmarks.len() - i,
    {
        assert(views[i as int] == bookmarks@[i as int]@);
        if bookmarks[i].url.as_str().eq(url) {
            assert(views[i as int].url == url@);
            return true;
        }
        i += 1;
    }
    false
}

/// Takes every bookmark with the address out of the list.
pub fn remove_url(bookmarks: &mut Vec<Bookmark>, url: &str)
    ensures
        bookmarks_view(final(bookmarks)@) == without_url(bookmarks_view(old(bookmarks)@), url@),
{
    let ghost before = bookmarks_view(bookmarks@);
    let ghost keep = |b: BookmarkView| b.url != url@;
    let mut kept: Vec<Bookmark> = Vec::new();
    let mut i: usize = 0;
    proof {
        reveal(Seq::filter);
        assert(before.take(0) =~= Seq::<BookmarkView>::empty());
        assert(bookmarks_view(kept@) =~= before.take(0).filter(keep));
    }
    while i < bookmarks.len()
        invariant
            i <= bookmarks.len(),
            before == bookmarks_view(bookmarks@),
            keep == |b: BookmarkView| b.url != url@,
            bookmarks_view(kept@) == before.take(i as int).filter(keep),
        decreases bookmarks.len() - i,
    {
        let ghost kept_before = bookmarks_view(kept@);
        proof {
            reveal(Seq::filter);
            assert(before[i as int] == bookmarks@[i as int]@);
            assert(before.take(i + 1).drop_last() =~= before.take(i as int));
            assert(before.take(i + 1).last() == before[i as int]);
        }
        if !bookmarks[i].url.as_str().eq(url) {
            let url = bookmarks[i].url.clone();
            let title = bookmarks[i].title.clone();
            kept.push(Bookmark { url, title });
            assert(bookmarks_view(kept@) =~= kept_before.push(before[i as int]));
        }
        i += 1;
    }
    proof {
        assert(before.take(i as int) =~= before);
    }
    *bookmarks = kept;
}

} // verus!
