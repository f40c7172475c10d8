//! Cursor-based pagination of a season's episode listing.
//!
//! The caller performs one HTTP request per page and feeds each decoded page
//! into a [`PageWalk`]; the walk accumulates the episodes and tracks the
//! cursor, and its invariant ties what was collected to the exact sequence
//! of pages consumed. Iteration continues strictly until a page arrives
//! without a cursor: no page count or total count is trusted.

use vstd::prelude::*;
use crate::model::Episode;
use crate::textout::{episodes_first_url, episodes_first_url_spec};

verus! {

/// One decoded page of an episode listing: its episodes in response order,
/// and the next-page URL if the server supplied one. An absent `next`
/// signals the final page.
pub struct EpisodesPage {
    pub episodes: Vec<Episode>,
    pub next: Option<String>,
}

/// The concatenation of the pages' episode lists, in page order.
pub open spec fn pages_episodes(pages: Seq<EpisodesPage>) -> Seq<Episode>
    decreases pages.len(),
{
    if pages.len() == 0 {
        Seq::empty()
    } else {
        pages[0].episodes@ + pages_episodes(pages.drop_first())
    }
}

/// A walk through a paginated episode listing. `pages` records every page
/// consumed so far, so one request was made per recorded page.
pub struct PageWalk {
    /// Episodes of all pages consumed so far, in order.
    pub collected: Vec<Episode>,
    /// The URL the next request must go to, or `None` once the final page
    /// (the one without a cursor) has been consumed.
    pub next_url: Option<String>,
    /// History of the pages consumed, oldest first.
    pub pages: Ghost<Seq<EpisodesPage>>,
}

impl PageWalk {
    /// What every walk maintains: the collected episodes are exactly the
    /// concatenation of the consumed pages' lists, the pending URL is the
    /// cursor of the page consumed last, and every page before the last
    /// carried a cursor.
    pub open spec fn wf(self) -> bool {
        &&& self.collected@ == pages_episodes(self.pages@)
        &&& (if self.pages@.len() == 0 {
            self.next_url is Some
        } else {
            self.next_url == self.pages@.last().next
        })
        &&& (forall|i: int| 0 <= i < self.pages@.len() - 1 ==> (#[trigger] self.pages@[i]).next is Some)
    }

    /// The walk is finished: the last page consumed carried no cursor.
    pub open spec fn is_done(self) -> bool {
        self.next_url is None
    }

    /// Starts a walk at the constructed first-page URL of one season's
    /// listing.
    pub fn start(show_id: u64, season_id: u64) -> (w: PageWalk)
        ensures
            w.wf(),
            !w.is_done(),
            w.pages@ == Seq::<EpisodesPage>::empty(),
            w.collected@ == Seq::<Episode>::empty(),
            w.next_url matches Some(u) && u@ == episodes_first_url_spec(show_id, season_id),
    {
        let w = PageWalk {
            collected: Vec::new(),
            next_url: Some(episodes_first_url(show_id, season_id)),
            pages: Ghost(Seq::empty()),
        };
        proof {
            assert(w.collected@ =~= pages_episodes(w.pages@));
        }
        w
    }

    /// Consumes the page fetched from `next_url`: appends its episodes and
    /// takes its cursor as the next URL. Exactly one such call is made per
    /// request the caller issues, and none once the walk is done.
    pub fn on_page(&mut self, page: EpisodesPage)
        requires
            old(self).wf(),
            !old(self).is_done(),
        ensures
            final(self).wf(),
            final(self).pages@ == old(self).pages@.push(page),
            final(self).collected@ == old(self).collected@ + page.episodes@,
            final(self).next_url == page.next,
            final(self).is_done() <==> page.next is None,
    {
        let ghost recorded = page;
        let EpisodesPage { mut episodes, next } = page;
        self.collected.append(&mut episodes);
        self.next_url = next;
        proof {
            self.pages@ = self.pages@.push(recorded);
            lemma_pages_episodes_push(old(self).pages@, recorded);
        }
    }

    /// Hands the collected episodes out once the walk is done.
    pub fn into_episodes(self) -> (r: Vec<Episode>)
        requires
            self.wf(),
            self.is_done(),
        ensures
            r@ == pages_episodes(self.pages@),
    {
        self.collected
    }
}

/// Appending one page to a history appends its episodes to the
/// concatenation.
proof fn lemma_pages_episodes_push(pages: Seq<EpisodesPage>, page: EpisodesPage)
    ensures
        pages_episodes(pages.push(page)) == pages_episodes(pages) + page.episodes@,
    decreases pages.len(),
{
    if pages.len() == 0 {
        assert(pages.push(page).drop_first() =~= Seq::<EpisodesPage>::empty());
        assert(pages.push(page)[0] == page);
        assert(pages_episodes(pages.push(page)) == page.episodes@ + pages_episodes(
            pages.push(page).drop_first(),
        ));
        assert(pages_episodes(pages.push(page)) =~= pages_episodes(pages) + page.episodes@);
    } else {
        assert(pages.push(page).drop_first() =~= pages.drop_first().push(page));
        lemma_pages_episodes_push(pages.drop_first(), page);
        assert(pages_episodes(pages.push(page)) =~= pages_episodes(pages) + page.episodes@);
    }
}

/// A finished walk returned the concatenation of each page's episodes in
/// the order the cursors were followed, made exactly one request per page,
/// and stopped exactly when a page's cursor was absent: every earlier page
/// carried one, the last did not.
pub proof fn lemma_walk_collects_concatenation(w: PageWalk)
    requires
        w.wf(),
        w.is_done(),
    ensures
        w.collected@ == pages_episodes(w.pages@),
        w.pages@.len() > 0,
        w.pages@.last().next is None,
        forall|i: int| 0 <= i < w.pages@.len() - 1 ==> (#[trigger] w.pages@[i]).next is Some,
{
}

} // verus!
