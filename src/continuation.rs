use crate::errors::AzureError;
use vstd::prelude::*;

verus! {

/// What a continuation token stands for: its text, or its absence.
pub open spec fn token_view(token: Option<String>) -> Option<Seq<char>> {
    match token {
        Some(t) => Some(t@),
        None => None,
    }
}

/// One page of a paged query: its items in the order the service sent them,
/// and the token to resume from, absent on the last page.
pub struct PageResult<T> {
    pub items: Vec<T>,
    pub continuation: Option<String>,
}

/// What a page holds.
pub struct Page<T> {
    pub items: Seq<T>,
    pub continuation: Option<Seq<char>>,
}

impl<T> View for PageResult<T> {
    type V = Page<T>;

    open spec fn view(&self) -> Page<T> {
        Page { items: self.items@, continuation: token_view(self.continuation) }
    }
}

/// Where an engine stands between pages.
#[derive(Debug, Clone, Copy, PartialEq, Eq, Structural)]
pub enum Phase {
    /// Nothing fetched yet.
    Fresh,
    /// A fetch was asked for and its page has not been delivered.
    Awaiting,
    /// A page was delivered; its remaining items are handed out first.
    Paging,
    /// The sequence has ended, on a page without a token or on an error.
    Exhausted,
}

/// What the consumer of an engine is to do next.
pub enum Step<T> {
    /// Take this item.
    Yield(T),
    /// Fetch the next page with this token (none for the first page), then
    /// deliver it.
    Fetch(Option<String>),
    /// The sequence is over.
    End,
}

pub enum StepView<T> {
    Yield(T),
    Fetch(Option<Seq<char>>),
    End,
}

impl<T> View for Step<T> {
    type V = StepView<T>;

    open spec fn view(&self) -> StepView<T> {
        match self {
            Step::Yield(x) => StepView::Yield(*x),
            Step::Fetch(t) => StepView::Fetch(token_view(*t)),
            Step::End => StepView::End,
        }
    }
}

/// The state of an engine: the items of the current page not yet handed out,
/// the token that page came with, and the phase.
pub struct EngineState<T> {
    pub pending: Seq<T>,
    pub token: Option<Seq<char>>,
    pub phase: Phase,
}

/// The state of an engine that has fetched nothing.
pub open spec fn fresh_state<T>() -> EngineState<T> {
    EngineState { pending: Seq::empty(), token: None, phase: Phase::Fresh }
}

/// The state of an engine whose sequence has ended.
pub open spec fn exhausted_state<T>() -> EngineState<T> {
    EngineState { pending: Seq::empty(), token: None, phase: Phase::Exhausted }
}

/// One pull on the sequence: the next item of the current page while there is
/// one; otherwise a fetch, with no token for the first page and with the last
/// page's token after that; otherwise the end.
pub open spec fn next_spec<T>(s: EngineState<T>) -> (EngineState<T>, StepView<T>) {
    if s.pending.len() > 0 {
        (EngineState { pending: s.pending.drop_first(), token: s.token, phase: s.phase }, StepView::Yield(s.pending[0]))
    } else {
        match s.phase {
            Phase::Fresh => (EngineState { pending: s.pending, token: None, phase: Phase::Awaiting }, StepView::Fetch(None)),
            Phase::Paging => match s.token {
                Some(t) => (EngineState { pending: s.pending, token: Some(t), phase: Phase::Awaiting }, StepView::Fetch(Some(t))),
                None => (exhausted_state(), StepView::End),
            },
            _ => (exhausted_state(), StepView::End),
        }
    }
}

/// The state once a fetched page is delivered.
pub open spec fn deliver_spec<T>(page: Page<T>) -> EngineState<T> {
    EngineState { pending: page.items, token: page.continuation, phase: Phase::Paging }
}

/// What a consumer that takes up to `wanted` items sees, when each fetch is
/// answered with the next page of `script`: the items it is handed, and the
/// token of each fetch, in order. `fuel` bounds the number of pulls.
pub open spec fn pull<T>(s: EngineState<T>, script: Seq<Page<T>>, wanted: nat, fuel: nat) -> (Seq<T>, Seq<Option<Seq<char>>>)
    decreases fuel,
{
    if fuel == 0 || wanted == 0 || s.phase == Phase::Awaiting {
        (Seq::empty(), Seq::empty())
    } else {
        let (s2, step) = next_spec(s);
        match step {
            StepView::Yield(x) => {
                let rest = pull(s2, script, (wanted - 1) as nat, (fuel - 1) as nat);
                (seq![x] + rest.0, rest.1)
            },
            StepView::Fetch(t) => {
                if script.len() == 0 {
                    (Seq::empty(), seq![t])
                } else {
                    let rest = pull(deliver_spec(script[0]), script.drop_first(), wanted, (fuel - 1) as nat);
                    (rest.0, seq![t] + rest.1)
                }
            },
            StepView::End => (Seq::empty(), Seq::empty()),
        }
    }
}

/// Presents a token-paginated result set as one lazy sequence. The consumer
/// pulls with `next`; when a page is needed it gets `Step::Fetch`, makes that
/// request and hands the result to `deliver`. A page is fetched only once the
/// previous one has been handed out whole, and none after a page without a
/// token.
pub struct ContinuationEngine<T> {
    pending: Vec<T>,
    token: Option<String>,
    phase: Phase,
}

impl<T> View for ContinuationEngine<T> {
    type V = EngineState<T>;

    closed spec fn view(&self) -> EngineState<T> {
        EngineState { pending: self.pending@, token: token_view(self.token), phase: self.phase }
    }
}

impl<T> ContinuationEngine<T> {
    /// An engine at the start of the sequence.
    pub fn new() -> (r: ContinuationEngine<T>)
        ensures
            r@ == fresh_state::<T>(),
    {
        ContinuationEngine { pending: Vec::new(), token: None, phase: Phase::Fresh }
    }

    pub fn phase(&self) -> (r: Phase)
        ensures
            r == self@.phase,
    {
        self.phase
    }

    /// The next step of the sequence.
    pub fn next(&mut self) -> (r: Step<T>)
        requires
            old(self)@.phase != Phase::Awaiting,
        ensures
            (final(self)@, r@) == next_spec(old(self)@),
    {
        if self.pending.len() > 0 {
            let item = self.pending.remove(0);
            return Step::Yield(item);
        }
        assert(self.pending@ =~= Seq::<T>::empty());
        match self.phase {
            Phase::Fresh => {
                self.token = None;
                self.phase = Phase::Awaiting;
                Step::Fetch(None)
            },
            Phase::Paging => match &self.token {
                Some(t) => {
                    let t = t.clone();
                    self.phase = Phase::Awaiting;
                    Step::Fetch(Some(t))
                },
                None => {
                    self.phase = Phase::Exhausted;
                    Step::End
                },
            },
            _ => {
                self.token = None;
                self.phase = Phase::Exhausted;
                Step::End
            },
        }
    }

    /// Hands over the outcome of the fetch that `next` asked for. A page
    /// becomes the current one; an error ends the sequence and is returned.
    pub fn deliver(&mut self, page: Result<PageResult<T>, AzureError>) -> (r: Result<(), AzureError>)
        requires
            old(self)@.phase == Phase::Awaiting,
        ensures
            match page {
                Ok(p) => r is Ok && final(self)@ == deliver_spec(p@),
                Err(e) => r == Err::<(), AzureError>(e) && final(self)@ == exhausted_state::<T>(),
            },
    {
        match page {
            Ok(p) => {
                self.pending = p.items;
                self.token = p.continuation;
                self.phase = Phase::Paging;
                Ok(())
            },
            Err(e) => {
                self.pending = Vec::new();
                self.token = None;
                self.phase = Phase::Exhausted;
                Err(e)
            },
        }
    }
}

/// Three pages, the first two carrying the same token and the last none, are
/// consumed in full: the consumer receives the items of all pages in order,
/// and exactly three fetches are made, the first without a token and the next
/// two with the token of the page before.
pub proof fn lemma_three_page_sequence<T>(a: T, b: T, c: T, token: Seq<char>, wanted: nat, fuel: nat)
    requires
        wanted > 3,
        fuel >= 7,
    ensures
        pull(
            fresh_state(),
            seq![
                Page { items: seq![a, b], continuation: Some(token) },
                Page { items: seq![c], continuation: Some(token) },
                Page { items: Seq::empty(), continuation: None },
            ],
            wanted,
            fuel,
        ) == (seq![a, b, c], seq![None, Some(token), Some(token)]),
{
    reveal_with_fuel(pull, 8);
    let first = Page { items: seq![a, b], continuation: Some(token) };
    let second = Page { items: seq![c], continuation: Some(token) };
    let last = Page::<T> { items: Seq::empty(), continuation: None };
    let script = seq![first, second, last];
    assert(script[0] == first);
    assert(script.drop_first() =~= seq![second, last]);
    assert(seq![second, last][0] == second);
    assert(seq![second, last].drop_first() =~= seq![last]);
    assert(seq![last][0] == last);
    assert(seq![last].drop_first() =~= Seq::<Page<T>>::empty());
    assert(seq![a, b].drop_first() =~= seq![b]);
    assert(seq![b].drop_first() =~= Seq::<T>::empty());
    assert(seq![c].drop_first() =~= Seq::<T>::empty());
    assert(seq![a] + (seq![b] + (seq![c] + Seq::<T>::empty())) =~= seq![a, b, c]);
    assert(seq![None] + (seq![Some(token)] + (seq![Some(token)] + Seq::<Option<Seq<char>>>::empty()))
        =~= seq![None, Some(token), Some(token)]);
}

/// A consumer that takes one item of a sequence whose first page holds more
/// than one item causes exactly one fetch, made without a token.
pub proof fn lemma_early_stop_fetches_once<T>(script: Seq<Page<T>>, fuel: nat)
    requires
        script.len() >= 1,
        script[0].items.len() > 1,
        fuel >= 2,
    ensures
        pull(fresh_state(), script, 1, fuel) == (seq![script[0].items[0]], seq![None::<Seq<char>>]),
{
    reveal_with_fuel(pull, 3);
    assert(seq![script[0].items[0]] + Seq::<T>::empty() =~= seq![script[0].items[0]]);
    assert(seq![None::<Seq<char>>] + Seq::<Option<Seq<char>>>::empty() =~= seq![None::<Seq<char>>]);
}

/// No page is fetched ahead: while items of the current page are pending, a
/// pull hands out the first of them and leaves the phase as it was.
pub proof fn lemma_no_fetch_while_items_pending<T>(s: EngineState<T>)
    requires
        s.pending.len() > 0,
    ensures
        next_spec(s).1 == StepView::Yield(s.pending[0]),
        next_spec(s).0.phase == s.phase,
        next_spec(s).0.pending == s.pending.drop_first(),
{
}

/// Once a pull has ended the sequence, every later pull ends it again and no
/// fetch follows.
pub proof fn lemma_end_is_final<T>(s: EngineState<T>)
    requires
        next_spec(s).1 == StepView::<T>::End,
    ensures
        next_spec(s).0 == exhausted_state::<T>(),
        next_spec(next_spec(s).0) == (exhausted_state::<T>(), StepView::<T>::End),
{
    assert(exhausted_state::<T>().pending.len() == 0);
}

} // verus!
