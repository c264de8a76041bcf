//! The per-symbol pagination machine: a lazy, strictly ordered, one-shot
//! sequence of pages driven by the server's continuation cursor. The
//! caller performs each fetch and hands the outcome back; the machine
//! decides which cursor the next call uses, what is emitted, and when the
//! sequence is over.

use vstd::prelude::*;

use crate::error::Error;
use crate::types::{AggregateRecord, AggregateRequest, AggregateResponse};

verus! {

/// One emitted element of a symbol's sequence: a page's records, or the
/// error that ended the sequence.
pub type StreamItem = Result<Vec<AggregateRecord>, Error>;

/// Where one symbol's pagination stands.
#[derive(Clone, PartialEq, Eq, Debug)]
pub enum StreamState {
    /// No page fetched yet: the next call uses no continuation.
    Start,
    /// The last page carried this continuation: the next call uses it.
    Paging(String),
    /// The last page carried no continuation: the sequence is over.
    Terminal,
    /// A fetch failed: the sequence is over.
    Failed,
}

/// How one fetch outcome moves an active machine, and what it emits: a
/// page with a continuation keeps paging; a page without one is terminal;
/// a failure ends the sequence with the error as its last element, and
/// the failed page's records are never emitted.
pub open spec fn step_model(outcome: Result<AggregateResponse, Error>) -> (
    StreamState,
    StreamItem,
) {
    match outcome {
        Ok(resp) => match resp.next_url {
            Some(u) => (StreamState::Paging(u), Ok(resp.results)),
            None => (StreamState::Terminal, Ok(resp.results)),
        },
        Err(e) => (StreamState::Failed, Err(e)),
    }
}

/// Driving an active machine through a script of fetch outcomes, one
/// outcome per call it asks for: the final state, the emitted elements,
/// and the cursor each call used, in order. Once the machine leaves its
/// active states, the rest of the script is never touched.
pub open spec fn run_model(
    state: StreamState,
    script: Seq<Result<AggregateResponse, Error>>,
) -> (StreamState, Seq<StreamItem>, Seq<Option<Seq<char>>>)
    decreases script.len(),
{
    if !state.is_active() || script.len() == 0 {
        (state, Seq::<StreamItem>::empty(), Seq::<Option<Seq<char>>>::empty())
    } else {
        let stp = step_model(script[0]);
        let rest = run_model(stp.0, script.drop_first());
        (rest.0, seq![stp.1] + rest.1, seq![state.cursor_model()] + rest.2)
    }
}

impl StreamState {
    /// Whether another fetch is owed.
    pub open spec fn is_active(self) -> bool {
        self is Start || self is Paging
    }

    /// The cursor the next call must use: none for the first page, the
    /// saved continuation afterwards.
    pub open spec fn cursor_model(self) -> Option<Seq<char>> {
        match self {
            StreamState::Paging(c) => Some(c@),
            _ => None,
        }
    }

    /// Whether another fetch is owed.
    pub fn active(&self) -> (b: bool)
        ensures
            b == self.is_active(),
    {
        match self {
            StreamState::Start => true,
            StreamState::Paging(_) => true,
            StreamState::Terminal => false,
            StreamState::Failed => false,
        }
    }

    /// The cursor the next call must use.
    pub fn cursor(&self) -> (c: Option<String>)
        ensures
            c.deep_view() == self.cursor_model(),
    {
        match self {
            StreamState::Paging(u) => Some(u.clone()),
            _ => None,
        }
    }

    /// The request the next call must send: the base request untouched for
    /// the first page, the same request with the cursor swapped in while
    /// paging, and nothing once the sequence is over. The base request is
    /// only read, never altered.
    pub fn request_for<'a>(&self, base: &AggregateRequest<'a>) -> (r: Option<AggregateRequest<'a>>)
        requires
            base.next_url is None,
        ensures
            self is Start ==> r == Some(*base),
            (*self) matches StreamState::Paging(c) ==> r == Some(
                AggregateRequest {
                    ticker: base.ticker,
                    timespan: base.timespan,
                    from_millis: base.from_millis,
                    to_millis: base.to_millis,
                    next_url: Some(c),
                    limit: base.limit,
                },
            ),
            !self.is_active() ==> r is None,
    {
        let q = AggregateRequest {
            ticker: base.ticker,
            timespan: base.timespan,
            from_millis: base.from_millis,
            to_millis: base.to_millis,
            next_url: None,
            limit: base.limit,
        };
        match self {
            StreamState::Start => Some(q),
            StreamState::Paging(c) => Some(q.with_cursor(c.clone())),
            _ => None,
        }
    }

    /// Applies one fetch outcome to an active machine, yielding the next
    /// state and the element the sequence emits.
    pub fn apply(self, outcome: Result<AggregateResponse, Error>) -> (r: (StreamState, StreamItem))
        requires
            self.is_active(),
        ensures
            r == step_model(outcome),
    {
        match outcome {
            Ok(resp) => {
                let AggregateResponse {
                    ticker: _,
                    adjusted: _,
                    query_count: _,
                    request_id: _,
                    results_count: _,
                    status: _,
                    results,
                    next_url,
                } = resp;
                match next_url {
                    Some(u) => (StreamState::Paging(u), Ok(results)),
                    None => (StreamState::Terminal, Ok(results)),
                }
            },
            Err(e) => (StreamState::Failed, Err(e)),
        }
    }
}

/// Drives a fresh machine through a scripted sequence of fetch outcomes,
/// consuming one scripted outcome per call the machine asks for. Returns
/// the emitted elements, the cursor each call used, and the final state,
/// exactly as the model says; scripted outcomes after the machine stopped
/// are never consumed.
pub fn run_scripted(script: Vec<Result<AggregateResponse, Error>>) -> (r: (
    Vec<StreamItem>,
    Vec<Option<String>>,
    StreamState,
))
    ensures
        r.0@ == run_model(StreamState::Start, script@).1,
        r.1.deep_view() == run_model(StreamState::Start, script@).2,
        r.2 == run_model(StreamState::Start, script@).0,
{
    let mut rem = script;
    let mut out: Vec<StreamItem> = Vec::new();
    let mut curs: Vec<Option<String>> = Vec::new();
    let mut state = StreamState::Start;
    while state.active() && rem.len() > 0
        invariant
            run_model(StreamState::Start, script@).1 == out@ + run_model(state, rem@).1,
            run_model(StreamState::Start, script@).2 == curs.deep_view() + run_model(
                state,
                rem@,
            ).2,
            run_model(StreamState::Start, script@).0 == run_model(state, rem@).0,
        decreases rem@.len(),
    {
        let ghost pre_rem = rem@;
        let ghost pre_state = state;
        let cursor = state.cursor();
        curs.push(cursor);
        let outcome = rem.remove(0);
        let stepped = state.apply(outcome);
        let item = stepped.1;
        state = stepped.0;
        out.push(item);
        proof {
            assert(pre_rem.remove(0) =~= pre_rem.drop_first());
            assert(run_model(pre_state, pre_rem).1 =~= seq![step_model(pre_rem[0]).1]
                + run_model(state, rem@).1);
            assert(run_model(pre_state, pre_rem).2 =~= seq![pre_state.cursor_model()]
                + run_model(state, rem@).2);
        }
    }
    proof {
        assert(run_model(state, rem@).1 =~= Seq::<StreamItem>::empty());
        assert(run_model(state, rem@).2 =~= Seq::<Option<Seq<char>>>::empty());
        assert(run_model(StreamState::Start, script@).1 =~= out@);
        assert(run_model(StreamState::Start, script@).2 =~= curs.deep_view());
    }
    (out, curs, state)
}

/// Law: for any three pages of which the first two carry continuations and
/// the third carries none, a run emits exactly the three record batches in
/// page order and then stops in the terminal state; exactly three calls
/// are made, with no cursor, the first continuation, and the second, in
/// that order.
pub proof fn lemma_pages_in_order(
    p1: AggregateResponse,
    p2: AggregateResponse,
    p3: AggregateResponse,
    c1: String,
    c2: String,
)
    requires
        p1.next_url == Some(c1),
        p2.next_url == Some(c2),
        p3.next_url is None,
    ensures
        run_model(StreamState::Start, seq![Ok(p1), Ok(p2), Ok(p3)]).1 == seq![
            Ok::<Vec<AggregateRecord>, Error>(p1.results),
            Ok(p2.results),
            Ok(p3.results),
        ],
        run_model(StreamState::Start, seq![Ok(p1), Ok(p2), Ok(p3)]).2 == seq![
            None::<Seq<char>>,
            Some(c1@),
            Some(c2@),
        ],
        run_model(StreamState::Start, seq![Ok(p1), Ok(p2), Ok(p3)]).0 is Terminal,
{
    let script = seq![Ok::<AggregateResponse, Error>(p1), Ok(p2), Ok(p3)];
    let s1 = script.drop_first();
    let s2 = s1.drop_first();
    let s3 = s2.drop_first();
    assert(s1 =~= seq![Ok::<AggregateResponse, Error>(p2), Ok(p3)]);
    assert(s2 =~= seq![Ok::<AggregateResponse, Error>(p3)]);
    assert(s3 =~= Seq::<Result<AggregateResponse, Error>>::empty());
    assert(script[0] == Ok::<AggregateResponse, Error>(p1));
    assert(s1[0] == Ok::<AggregateResponse, Error>(p2));
    assert(s2[0] == Ok::<AggregateResponse, Error>(p3));
    let m0 = run_model(StreamState::Start, script);
    let m1 = run_model(StreamState::Paging(c1), s1);
    let m2 = run_model(StreamState::Paging(c2), s2);
    let m3 = run_model(StreamState::Terminal, s3);
    assert(m3.0 is Terminal && m3.1 =~= Seq::<StreamItem>::empty() && m3.2 =~= Seq::<
        Option<Seq<char>>,
    >::empty());
    assert(m2.0 == m3.0 && m2.1 =~= seq![Ok::<Vec<AggregateRecord>, Error>(p3.results)] && m2.2
        =~= seq![Some(c2@)]);
    assert(m1.0 == m2.0 && m1.1 =~= seq![Ok::<Vec<AggregateRecord>, Error>(p2.results), Ok(
        p3.results,
    )] && m1.2 =~= seq![Some(c1@), Some(c2@)]);
    assert(m0.0 == m1.0 && m0.1 =~= seq![
        Ok::<Vec<AggregateRecord>, Error>(p1.results),
        Ok(p2.results),
        Ok(p3.results),
    ] && m0.2 =~= seq![None::<Seq<char>>, Some(c1@), Some(c2@)]);
}

/// Law: a failure ends the sequence early: after a first page with a
/// continuation and a failed second fetch, the run emits the first page's
/// records and then the error, makes exactly two calls — with no cursor
/// and then the first continuation — and never touches anything scripted
/// beyond the failure, whatever it is.
pub proof fn lemma_failure_is_terminal(
    p1: AggregateResponse,
    c1: String,
    e: Error,
    tail: Seq<Result<AggregateResponse, Error>>,
)
    requires
        p1.next_url == Some(c1),
    ensures
        run_model(StreamState::Start, seq![Ok(p1), Err(e)] + tail).1 == seq![
            Ok::<Vec<AggregateRecord>, Error>(p1.results),
            Err(e),
        ],
        run_model(StreamState::Start, seq![Ok(p1), Err(e)] + tail).2 == seq![
            None::<Seq<char>>,
            Some(c1@),
        ],
        run_model(StreamState::Start, seq![Ok(p1), Err(e)] + tail).0 is Failed,
{
    let script = seq![Ok::<AggregateResponse, Error>(p1), Err(e)] + tail;
    let s1 = script.drop_first();
    let s2 = s1.drop_first();
    assert(script[0] == Ok::<AggregateResponse, Error>(p1));
    assert(s1 =~= seq![Err::<AggregateResponse, Error>(e)] + tail);
    assert(s1[0] == Err::<AggregateResponse, Error>(e));
    assert(s2 =~= tail);
    let m0 = run_model(StreamState::Start, script);
    let m1 = run_model(StreamState::Paging(c1), s1);
    let m2 = run_model(StreamState::Failed, s2);
    assert(m2.0 is Failed && m2.1 =~= Seq::<StreamItem>::empty() && m2.2 =~= Seq::<
        Option<Seq<char>>,
    >::empty());
    assert(m1.0 == m2.0 && m1.1 =~= seq![Err::<Vec<AggregateRecord>, Error>(e)] && m1.2
        =~= seq![Some(c1@)]);
    assert(m0.0 == m1.0 && m0.1 =~= seq![Ok::<Vec<AggregateRecord>, Error>(p1.results), Err(e)]
        && m0.2 =~= seq![None::<Seq<char>>, Some(c1@)]);
}

} // verus!
