use vstd::prelude::*;
use std::collections::VecDeque;

verus! {

/// The queue of scrapers waiting to run, each under the id it was given
/// when it was pushed. Ids come from one counter that the program keeps
/// for all managers, so that no two scrapers anywhere share an id.
pub struct ScrapeManager<Scraper> {
    vec_scrapers: VecDeque<(usize, Scraper)>,
}

impl<Scraper> ScrapeManager<Scraper> {
    /// The scrapers waiting, oldest first, with their ids.
    pub closed spec fn scrapers(&self) -> Seq<(usize, Scraper)> {
        self.vec_scrapers@
    }

    /// The ids of the waiting scrapers increase from the oldest to the
    /// newest, and are all below `next_id`, the counter's present value.
    pub open spec fn ids_below(&self, next_id: usize) -> bool {
        &&& forall|i: int, j: int|
            0 <= i < j < self.scrapers().len() ==> #[trigger] self.scrapers()[i].0
                < #[trigger] self.scrapers()[j].0
        &&& forall|i: int| 0 <= i < self.scrapers().len() ==> #[trigger] self.scrapers()[i].0 < next_id
    }

    /// A manager with no scraper waiting.
    pub fn new() -> (m: Self)
        ensures
            m.scrapers().len() == 0,
            forall|n: usize| m.ids_below(n),
    {
        ScrapeManager { vec_scrapers: VecDeque::new() }
    }

    /// Puts a scraper at the back of the queue under the id the counter
    /// `next_id` holds, moves the counter on, and returns that id.
    pub fn push(&mut self, scraper: Scraper, next_id: &mut usize) -> (id: usize)
        requires
            old(self).ids_below(*old(next_id)),
            *old(next_id) < usize::MAX,
        ensures
            id == *old(next_id),
            *final(next_id) == id + 1,
            final(self).scrapers() == old(self).scrapers().push((id, scraper)),
            final(self).ids_below(*final(next_id)),
    {
        let id = *next_id;
        self.vec_scrapers.push_back((id, scraper));
        *next_id = id + 1;
        proof {
            let s = self.vec_scrapers@;
            assert forall|i: int, j: int| 0 <= i < j < s.len() implies #[trigger] s[i].0 < #[trigger] s[j].0 by {
                assert(s[i] == old(self).scrapers()[i]);
                if j < s.len() - 1 {
                    assert(s[j] == old(self).scrapers()[j]);
                } else {
                    assert(old(self).scrapers()[i].0 < id);
                }
            }
            assert forall|i: int| 0 <= i < s.len() implies #[trigger] s[i].0 < id + 1 by {
                if i < s.len() - 1 {
                    assert(s[i] == old(self).scrapers()[i]);
                    assert(old(self).scrapers()[i].0 < id);
                }
            }
        }
        id
    }
}

/// Two scrapers waiting on the same manager never share an id.
pub proof fn lemma_pushed_ids_are_distinct<Scraper>(m: ScrapeManager<Scraper>, next_id: usize, i: int, j: int)
    requires
        m.ids_below(next_id),
        0 <= i < m.scrapers().len(),
        0 <= j < m.scrapers().len(),
        i != j,
    ensures
        m.scrapers()[i].0 != m.scrapers()[j].0,
{
    if i < j {
        assert(m.scrapers()[i].0 < m.scrapers()[j].0);
    } else {
        assert(m.scrapers()[j].0 < m.scrapers()[i].0);
    }
}

/// Pushes on any managers that share one counter hand out distinct ids:
/// a scraper waiting on a manager whose ids are below the counter's value
/// at some moment never shares its id with one pushed from that moment on
/// (which gets that value or a later one).
pub proof fn lemma_shared_counter_ids_are_distinct<Scraper>(m: ScrapeManager<Scraper>, counter: usize, later_id: usize, i: int)
    requires
        m.ids_below(counter),
        0 <= i < m.scrapers().len(),
        later_id >= counter,
    ensures
        m.scrapers()[i].0 != later_id,
{
}

} // verus!
