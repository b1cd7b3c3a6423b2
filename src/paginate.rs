//! Gathering a list resource page by page.
//!
//! A sweep is a state machine: the caller asks it which cursor to fetch,
//! performs the fetch, and hands the answer back; the sweep then says whether
//! to fetch again, with everything gathered so far, or how the sweep ended.
//! Two conventions are supported: an explicit next-page number, and an offset
//! advanced by the size of each batch until a batch comes back empty.
use vstd::prelude::*;
use crate::Error;

verus! {

/// One page under the next-page convention: its items and, unless it is the
/// last, the number of the page that follows.
pub struct Page<T> {
    pub items: Vec<T>,
    pub next_page: Option<i32>,
}

/// What a sweep says after each answer.
pub enum SweepStep<S, T> {
    /// Fetch again, at the cursor of the new sweep state.
    Fetch(S),
    /// The sweep is complete: every item of every page, in order.
    Done(Vec<T>),
    /// The sweep failed; nothing gathered so far is returned.
    Failed(Error),
}

/// The state of a sweep: the items gathered so far and the cursor to fetch.
pub struct SweepModel<T> {
    pub items: Seq<T>,
    pub cursor: u64,
}

/// A server under the next-page convention, as a function from page number to
/// its answer: the page's items and next page, or the failure of the fetch.
pub type PageServer<T> = spec_fn(u64) -> crate::Result<(Seq<T>, Option<i32>)>;

/// A server under the offset convention, as a function from offset to its
/// answer: the batch that starts there, or the failure of the fetch.
pub type BatchServer<T> = spec_fn(u64) -> crate::Result<Seq<T>>;

/// The number one past the largest page number that a page can name.
pub open spec fn page_bound() -> int {
    0x8000_0000
}

/// The outcome of a next-page sweep from page `cursor`, with `acc` gathered.
pub open spec fn next_page_outcome<T>(server: PageServer<T>, cursor: u64, acc: Seq<T>) -> crate::Result<Seq<T>>
    decreases page_bound() - cursor,
{
    match server(cursor) {
        Err(e) => Err(e),
        Ok((batch, None)) => Ok(acc + batch),
        Ok((batch, Some(n))) => if n > cursor {
            next_page_outcome(server, n as u64, acc + batch)
        } else {
            Err(Error::Stalled(cursor))
        },
    }
}

/// The number of fetches of a next-page sweep from page `cursor`.
pub open spec fn next_page_fetches<T>(server: PageServer<T>, cursor: u64) -> nat
    decreases page_bound() - cursor,
{
    match server(cursor) {
        Ok((_, Some(n))) => if n > cursor {
            1 + next_page_fetches(server, n as u64)
        } else {
            1
        },
        _ => 1,
    }
}

/// The outcome of an offset sweep from offset `cursor`, with `acc` gathered.
pub open spec fn offset_outcome<T>(server: BatchServer<T>, cursor: u64, acc: Seq<T>) -> crate::Result<Seq<T>>
    decreases u64::MAX - cursor,
{
    match server(cursor) {
        Err(e) => Err(e),
        Ok(batch) => if batch.len() == 0 {
            Ok(acc)
        } else if cursor + batch.len() > u64::MAX {
            Err(Error::Stalled(cursor))
        } else {
            offset_outcome(server, (cursor + batch.len()) as u64, acc + batch)
        },
    }
}

/// The number of fetches of an offset sweep from offset `cursor`.
pub open spec fn offset_fetches<T>(server: BatchServer<T>, cursor: u64) -> nat
    decreases u64::MAX - cursor,
{
    match server(cursor) {
        Ok(batch) => if batch.len() != 0 && cursor + batch.len() <= u64::MAX {
            1 + offset_fetches(server, (cursor + batch.len()) as u64)
        } else {
            1
        },
        _ => 1,
    }
}

/// What one step of a sweep leads to, as values.
pub enum StepModel<T> {
    Fetch(SweepModel<T>),
    Done(Seq<T>),
    Failed(Error),
}

impl<S: View<V = SweepModel<T>>, T> SweepStep<S, T> {
    /// What this step leads to, as values.
    pub open spec fn model(&self) -> StepModel<T> {
        match self {
            SweepStep::Fetch(s) => StepModel::Fetch(s@),
            SweepStep::Done(v) => StepModel::Done(v@),
            SweepStep::Failed(e) => StepModel::Failed(*e),
        }
    }
}

/// An answer under the next-page convention, as values.
pub open spec fn page_answer<T>(answer: crate::Result<Page<T>>) -> crate::Result<(Seq<T>, Option<i32>)> {
    match answer {
        Ok(p) => Ok((p.items@, p.next_page)),
        Err(e) => Err(e),
    }
}

/// An answer under the offset convention, as values.
pub open spec fn batch_answer<T>(answer: crate::Result<Vec<T>>) -> crate::Result<Seq<T>> {
    match answer {
        Ok(b) => Ok(b@),
        Err(e) => Err(e),
    }
}

/// One step of a next-page sweep in state `s` on `answer`.
pub open spec fn page_step<T>(s: SweepModel<T>, answer: crate::Result<(Seq<T>, Option<i32>)>) -> StepModel<T> {
    match answer {
        Err(e) => StepModel::Failed(e),
        Ok((batch, None)) => StepModel::Done(s.items + batch),
        Ok((batch, Some(n))) => if n > s.cursor {
            StepModel::Fetch(SweepModel { items: s.items + batch, cursor: n as u64 })
        } else {
            StepModel::Failed(Error::Stalled(s.cursor))
        },
    }
}

/// One step of an offset sweep in state `s` on `answer`.
pub open spec fn offset_step<T>(s: SweepModel<T>, answer: crate::Result<Seq<T>>) -> StepModel<T> {
    match answer {
        Err(e) => StepModel::Failed(e),
        Ok(batch) => if batch.len() == 0 {
            StepModel::Done(s.items)
        } else if s.cursor + batch.len() > u64::MAX {
            StepModel::Failed(Error::Stalled(s.cursor))
        } else {
            StepModel::Fetch(SweepModel { items: s.items + batch, cursor: (s.cursor + batch.len()) as u64 })
        },
    }
}

/// Each step of a next-page sweep keeps its outcome: where the answer at
/// the sweep's cursor comes from `server`, the outcome from the state before
/// the step is the outcome that [`PageSweep::step`] leads to, and the fetches
/// it costs are one plus those from the next state. So a loop that starts
/// at [`PageSweep::new`] and feeds each step the server's answer ends with
/// `next_page_outcome(server, 1, [])` after `next_page_fetches(server, 1)`
/// fetches; both depend on the server's answers alone, so repeating the
/// loop against an unchanged server gives the same items in the same order.
pub proof fn lemma_page_step_outcome<T>(server: PageServer<T>, s: SweepModel<T>)
    ensures
        next_page_outcome(server, s.cursor, s.items) == match page_step(s, server(s.cursor)) {
            StepModel::Fetch(n) => next_page_outcome(server, n.cursor, n.items),
            StepModel::Done(v) => Ok(v),
            StepModel::Failed(e) => Err(e),
        },
        next_page_fetches(server, s.cursor) == match page_step(s, server(s.cursor)) {
            StepModel::Fetch(n) => 1 + next_page_fetches(server, n.cursor),
            _ => 1,
        },
{
}

/// Each step of an offset sweep keeps its outcome: where the answer at the
/// sweep's cursor comes from `server`, the outcome from the state before the
/// step is the outcome that [`OffsetSweep::step`] leads to, and the fetches
/// it costs are one plus those from the next state. So a loop that starts
/// at [`OffsetSweep::new`] and feeds each step the server's answer ends with
/// `offset_outcome(server, 0, [])` after `offset_fetches(server, 0)`
/// fetches; both depend on the server's answers alone, so repeating the
/// loop against an unchanged server gives the same items in the same order.
pub proof fn lemma_offset_step_outcome<T>(server: BatchServer<T>, s: SweepModel<T>)
    ensures
        offset_outcome(server, s.cursor, s.items) == match offset_step(s, server(s.cursor)) {
            StepModel::Fetch(n) => offset_outcome(server, n.cursor, n.items),
            StepModel::Done(v) => Ok(v),
            StepModel::Failed(e) => Err(e),
        },
        offset_fetches(server, s.cursor) == match offset_step(s, server(s.cursor)) {
            StepModel::Fetch(n) => 1 + offset_fetches(server, n.cursor),
            _ => 1,
        },
{
}

/// Whether a next-page sweep from page `cursor` fetches page `k`.
pub open spec fn next_page_visits<T>(server: PageServer<T>, cursor: u64, k: u64) -> bool
    decreases page_bound() - cursor,
{
    cursor == k || match server(cursor) {
        Ok((_, Some(n))) => n > cursor && next_page_visits(server, n as u64, k),
        _ => false,
    }
}

/// Whether an offset sweep from offset `cursor` fetches at offset `k`.
pub open spec fn offset_visits<T>(server: BatchServer<T>, cursor: u64, k: u64) -> bool
    decreases u64::MAX - cursor,
{
    cursor == k || match server(cursor) {
        Ok(batch) => batch.len() != 0 && cursor + batch.len() <= u64::MAX
            && offset_visits(server, (cursor + batch.len()) as u64, k),
        Err(_) => false,
    }
}

/// Repeating a next-page sweep against a server whose answers have not
/// changed gives the same outcome, item for item and in the same order,
/// after the same number of fetches.
pub proof fn lemma_next_page_sweep_repeatable<T>(
    first: PageServer<T>,
    second: PageServer<T>,
    cursor: u64,
    acc: Seq<T>,
)
    requires
        forall|k: u64| cursor <= k ==> #[trigger] first(k) == second(k),
    ensures
        next_page_outcome(first, cursor, acc) == next_page_outcome(second, cursor, acc),
        next_page_fetches(first, cursor) == next_page_fetches(second, cursor),
    decreases page_bound() - cursor,
{
    assert(first(cursor) == second(cursor));
    if let Ok((batch, Some(n))) = first(cursor) {
        if n > cursor {
            lemma_next_page_sweep_repeatable(first, second, n as u64, acc + batch);
        }
    }
}

/// Repeating an offset sweep against a server whose answers have not
/// changed gives the same outcome, item for item and in the same order,
/// after the same number of fetches.
pub proof fn lemma_offset_sweep_repeatable<T>(
    first: BatchServer<T>,
    second: BatchServer<T>,
    cursor: u64,
    acc: Seq<T>,
)
    requires
        forall|k: u64| cursor <= k ==> #[trigger] first(k) == second(k),
    ensures
        offset_outcome(first, cursor, acc) == offset_outcome(second, cursor, acc),
        offset_fetches(first, cursor) == offset_fetches(second, cursor),
    decreases u64::MAX - cursor,
{
    assert(first(cursor) == second(cursor));
    if let Ok(batch) = first(cursor) {
        if batch.len() != 0 && cursor + batch.len() <= u64::MAX {
            lemma_offset_sweep_repeatable(first, second, (cursor + batch.len()) as u64, acc + batch);
        }
    }
}

/// A fetch that fails anywhere in a next-page sweep fails the whole sweep
/// with that fetch's error: what was gathered before it is never returned.
pub proof fn lemma_next_page_failure_fails_sweep<T>(
    server: PageServer<T>,
    cursor: u64,
    acc: Seq<T>,
    k: u64,
)
    requires
        next_page_visits(server, cursor, k),
        server(k) is Err,
    ensures
        next_page_outcome(server, cursor, acc) == Err::<Seq<T>, Error>(server(k)->Err_0),
    decreases page_bound() - cursor,
{
    if cursor != k {
        if let Ok((batch, Some(n))) = server(cursor) {
            lemma_next_page_failure_fails_sweep(server, n as u64, acc + batch, k);
        }
    }
}

/// A fetch that fails anywhere in an offset sweep fails the whole sweep
/// with that fetch's error: what was gathered before it is never returned.
pub proof fn lemma_offset_failure_fails_sweep<T>(
    server: BatchServer<T>,
    cursor: u64,
    acc: Seq<T>,
    k: u64,
)
    requires
        offset_visits(server, cursor, k),
        server(k) is Err,
    ensures
        offset_outcome(server, cursor, acc) == Err::<Seq<T>, Error>(server(k)->Err_0),
    decreases u64::MAX - cursor,
{
    if cursor != k {
        if let Ok(batch) = server(cursor) {
            lemma_offset_failure_fails_sweep(server, (cursor + batch.len()) as u64, acc + batch, k);
        }
    }
}

/// A sweep under the next-page convention. Pages are numbered from one.
pub struct PageSweep<T> {
    items: Vec<T>,
    page: u64,
}

impl<T> View for PageSweep<T> {
    type V = SweepModel<T>;

    closed spec fn view(&self) -> SweepModel<T> {
        SweepModel { items: self.items@, cursor: self.page }
    }
}

impl<T> PageSweep<T> {
    /// A sweep that has gathered nothing and fetches page one first.
    pub fn new() -> (r: Self)
        ensures
            r@.items == Seq::<T>::empty(),
            r@.cursor == 1,
    {
        PageSweep { items: Vec::new(), page: 1 }
    }

    /// The page to fetch next.
    pub fn cursor(&self) -> (r: u64)
        ensures
            r == self@.cursor,
    {
        self.page
    }

    /// Takes the answer to the fetch of page [`Self::cursor`]. The sweep
    /// goes on only where the page names a later page as the next one.
    pub fn step(self, answer: crate::Result<Page<T>>) -> (r: SweepStep<PageSweep<T>, T>)
        ensures
            r.model() == page_step(self@, page_answer(answer)),
            match answer {
                Err(e) => r == SweepStep::<PageSweep<T>, T>::Failed(e),
                Ok(p) => match p.next_page {
                    None => r matches SweepStep::Done(v) && v@ == self@.items + p.items@,
                    Some(n) => if n > self@.cursor {
                        r matches SweepStep::Fetch(s) && s@ == (SweepModel {
                            items: self@.items + p.items@,
                            cursor: n as u64,
                        })
                    } else {
                        r == SweepStep::<PageSweep<T>, T>::Failed(Error::Stalled(self@.cursor))
                    },
                },
            },
    {
        let page = match answer {
            Err(e) => {
                return SweepStep::Failed(e);
            },
            Ok(p) => p,
        };
        let Page { items: mut batch, next_page } = page;
        let mut items = self.items;
        items.append(&mut batch);
        match next_page {
            None => SweepStep::Done(items),
            Some(n) => {
                if n >= 0 && n as u64 > self.page {
                    SweepStep::Fetch(PageSweep { items, page: n as u64 })
                } else {
                    SweepStep::Failed(Error::Stalled(self.page))
                }
            },
        }
    }
}

/// A sweep under the offset convention. Offsets start at zero.
pub struct OffsetSweep<T> {
    items: Vec<T>,
    start: u64,
}

impl<T> View for OffsetSweep<T> {
    type V = SweepModel<T>;

    closed spec fn view(&self) -> SweepModel<T> {
        SweepModel { items: self.items@, cursor: self.start }
    }
}

impl<T> OffsetSweep<T> {
    /// A sweep that has gathered nothing and fetches at offset zero first.
    pub fn new() -> (r: Self)
        ensures
            r@.items == Seq::<T>::empty(),
            r@.cursor == 0,
    {
        OffsetSweep { items: Vec::new(), start: 0 }
    }

    /// The offset to fetch at next.
    pub fn cursor(&self) -> (r: u64)
        ensures
            r == self@.cursor,
    {
        self.start
    }

    /// Takes the answer to the fetch at offset [`Self::cursor`]. An empty
    /// batch ends the sweep; any other advances the offset by its length.
    pub fn step(self, answer: crate::Result<Vec<T>>) -> (r: SweepStep<OffsetSweep<T>, T>)
        ensures
            r.model() == offset_step(self@, batch_answer(answer)),
            match answer {
                Err(e) => r == SweepStep::<OffsetSweep<T>, T>::Failed(e),
                Ok(b) => if b@.len() == 0 {
                    r matches SweepStep::Done(v) && v@ == self@.items
                } else if self@.cursor + b@.len() > u64::MAX {
                    r == SweepStep::<OffsetSweep<T>, T>::Failed(Error::Stalled(self@.cursor))
                } else {
                    r matches SweepStep::Fetch(s) && s@ == (SweepModel {
                        items: self@.items + b@,
                        cursor: (self@.cursor + b@.len()) as u64,
                    })
                },
            },
    {
        let mut batch = match answer {
            Err(e) => {
                return SweepStep::Failed(e);
            },
            Ok(b) => b,
        };
        if batch.len() == 0 {
            return SweepStep::Done(self.items);
        }
        match self.start.checked_add(batch.len() as u64) {
            None => SweepStep::Failed(Error::Stalled(self.start)),
            Some(next) => {
                let mut items = self.items;
                items.append(&mut batch);
                SweepStep::Fetch(OffsetSweep { items, start: next })
            },
        }
    }
}

} // verus!
