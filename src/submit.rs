use crate::stats::BambiStats;
use vstd::prelude::*;
use vstd::string::StringExecFns;

verus! {

/// What the submitter learns: a flag from the queue, or the outcome of the
/// connection attempt or round trip it asked for.
#[derive(Debug)]
pub enum SubmitEvent {
    /// A flag taken from the submission queue.
    Flag(String),
    /// The connection to the acceptance service is up.
    Connected,
    /// Connecting failed.
    ConnectFailed,
    /// The flag line was written and flushed and one response line was read.
    Answered,
    /// Writing, flushing or reading failed; the connection is dropped.
    Failed,
}

/// What the submitter asks for next.
#[derive(Debug)]
pub enum SubmitAction {
    /// Take the next flag from the queue.
    AwaitFlag,
    /// Connect to the acceptance service.
    Connect,
    /// Write this line, flush, and read one response line.
    Send(String),
}

/// The submitter as a pair: whether a connection is up, and the flag in
/// flight.
pub type SubmitView = (bool, Option<Seq<char>>);

/// Whether `e` can come in state `s`.
pub open spec fn expects(s: SubmitView, e: SubmitEvent) -> bool {
    match e {
        SubmitEvent::Flag(_) => s.1 is None,
        SubmitEvent::Connected | SubmitEvent::ConnectFailed => s.1 is Some && !s.0,
        SubmitEvent::Answered | SubmitEvent::Failed => s.1 is Some && s.0,
    }
}

/// The state after `e`.
pub open spec fn next(s: SubmitView, e: SubmitEvent) -> SubmitView {
    match e {
        SubmitEvent::Flag(f) => (s.0, Some(f@)),
        SubmitEvent::Connected => (true, s.1),
        SubmitEvent::ConnectFailed => (false, s.1),
        SubmitEvent::Answered => (s.0, None),
        SubmitEvent::Failed => (false, s.1),
    }
}

/// Whether `e` completes the round trip of the flag in flight.
pub open spec fn accepted(s: SubmitView, e: SubmitEvent) -> bool {
    e is Answered && s.1 is Some && s.0
}

/// Whether the submitter asks to connect in state `s`.
pub open spec fn wants_connect(s: SubmitView) -> bool {
    s.1 is Some && !s.0
}

/// The line that submits `flag`: the flag and a newline.
pub open spec fn line_of(flag: Seq<char>) -> Seq<char> {
    flag.push('\n')
}

/// Whether `a` is what state `s` asks for.
pub open spec fn action_of(s: SubmitView, a: SubmitAction) -> bool {
    match s.1 {
        None => a is AwaitFlag,
        Some(f) => if s.0 {
            a matches SubmitAction::Send(l) && l@ == line_of(f)
        } else {
            a is Connect
        },
    }
}

/// The state after each of `evs` in turn.
pub open spec fn run(s: SubmitView, evs: Seq<SubmitEvent>) -> SubmitView
    decreases evs.len(),
{
    if evs.len() == 0 {
        s
    } else {
        run(next(s, evs[0]), evs.drop_first())
    }
}

/// Whether each of `evs` can come when it comes.
pub open spec fn valid_run(s: SubmitView, evs: Seq<SubmitEvent>) -> bool
    decreases evs.len(),
{
    evs.len() == 0 || (expects(s, evs[0]) && valid_run(next(s, evs[0]), evs.drop_first()))
}

/// How many connection attempts the submitter asks for along `evs`.
pub open spec fn connects(s: SubmitView, evs: Seq<SubmitEvent>) -> nat
    decreases evs.len(),
{
    if evs.len() == 0 {
        0
    } else {
        let t = next(s, evs[0]);
        (if wants_connect(t) {
            1nat
        } else {
            0nat
        }) + connects(t, evs.drop_first())
    }
}

/// How many flags are counted as accepted along `evs`.
pub open spec fn acceptances(s: SubmitView, evs: Seq<SubmitEvent>) -> nat
    decreases evs.len(),
{
    if evs.len() == 0 {
        0
    } else {
        (if accepted(s, evs[0]) {
            1nat
        } else {
            0nat
        }) + acceptances(next(s, evs[0]), evs.drop_first())
    }
}

/// How many flags are taken from the queue along `evs`.
pub open spec fn flags_taken(evs: Seq<SubmitEvent>) -> nat
    decreases evs.len(),
{
    if evs.len() == 0 {
        0
    } else {
        (if evs[0] is Flag {
            1nat
        } else {
            0nat
        }) + flags_taken(evs.drop_first())
    }
}

/// `n` failed connection attempts in a row.
pub open spec fn failures(n: nat) -> Seq<SubmitEvent> {
    Seq::new(n, |i: int| SubmitEvent::ConnectFailed)
}

/// A flag taken while disconnected, `n` failed connection attempts, one that
/// succeeds, and a completed round trip.
pub open spec fn retry_scenario(f: String, n: nat) -> Seq<SubmitEvent> {
    seq![SubmitEvent::Flag(f)] + failures(n) + seq![SubmitEvent::Connected, SubmitEvent::Answered]
}

proof fn lemma_run_append(s: SubmitView, a: Seq<SubmitEvent>, b: Seq<SubmitEvent>)
    ensures
        run(s, a + b) == run(run(s, a), b),
        valid_run(s, a + b) == (valid_run(s, a) && valid_run(run(s, a), b)),
        connects(s, a + b) == connects(s, a) + connects(run(s, a), b),
        acceptances(s, a + b) == acceptances(s, a) + acceptances(run(s, a), b),
    decreases a.len(),
{
    if a.len() == 0 {
        assert(a + b =~= b);
    } else {
        assert((a + b).drop_first() =~= a.drop_first() + b);
        assert((a + b)[0] == a[0]);
        lemma_run_append(next(s, a[0]), a.drop_first(), b);
    }
}

proof fn lemma_failures(f: Seq<char>, n: nat)
    ensures
        run((false, Some(f)), failures(n)) == (false, Some(f)),
        valid_run((false, Some(f)), failures(n)),
        connects((false, Some(f)), failures(n)) == n,
        acceptances((false, Some(f)), failures(n)) == 0,
    decreases n,
{
    if n > 0 {
        assert(failures(n).drop_first() =~= failures((n - 1) as nat));
        lemma_failures(f, (n - 1) as nat);
    }
}

/// Each flag taken from the queue is counted at most once: along any run,
/// the flags counted plus the one still in flight at the end equal the flags
/// taken plus the one in flight at the start.
pub proof fn lemma_counted_once(s: SubmitView, evs: Seq<SubmitEvent>)
    requires
        valid_run(s, evs),
    ensures
        acceptances(s, evs) + (if run(s, evs).1 is Some {
            1nat
        } else {
            0nat
        }) == flags_taken(evs) + (if s.1 is Some {
            1nat
        } else {
            0nat
        }),
    decreases evs.len(),
{
    if evs.len() > 0 {
        lemma_counted_once(next(s, evs[0]), evs.drop_first());
    }
}

/// When connecting fails `n` times before it succeeds, the submitter asks
/// to connect `n + 1` times, keeps the same flag in flight until its round
/// trip succeeds, and then counts it exactly once.
pub proof fn lemma_retries_until_accepted(f: String, n: nat)
    ensures
        valid_run((false, None), retry_scenario(f, n)),
        connects((false, None), retry_scenario(f, n)) == n + 1,
        acceptances((false, None), retry_scenario(f, n)) == 1,
        run((false, None), retry_scenario(f, n)).1 is None,
        forall|k: int|
            1 <= k <= n + 2 ==> #[trigger] run((false, None), retry_scenario(f, n).take(k)).1
                == Some(f@),
{
    let s0: SubmitView = (false, None);
    let s1: SubmitView = (false, Some(f@));
    let head = seq![SubmitEvent::Flag(f)];
    let tail = seq![SubmitEvent::Connected, SubmitEvent::Answered];
    let evs = retry_scenario(f, n);
    lemma_failures(f@, n);
    let empty = Seq::<SubmitEvent>::empty();
    assert(head.drop_first() =~= empty);
    assert(head[0] == SubmitEvent::Flag(f));
    assert(next(s0, head[0]) == s1);
    assert(run(s1, empty) == s1);
    assert(valid_run(s1, empty) && connects(s1, empty) == 0 && acceptances(s1, empty) == 0);
    assert(run(s0, head) == s1);
    assert(valid_run(s0, head) && connects(s0, head) == 1 && acceptances(s0, head) == 0);
    lemma_run_append(s0, head, failures(n));
    lemma_run_append(s0, head + failures(n), tail);
    assert(valid_run(s1, tail) && connects(s1, tail) == 0 && acceptances(s1, tail) == 1
        && run(s1, tail).1 is None) by {
        let s2 = next(s1, tail[0]);
        let rest = tail.drop_first();
        assert(rest.drop_first() =~= empty);
        assert(tail[0] == SubmitEvent::Connected && rest[0] == SubmitEvent::Answered);
        let s3 = next(s2, rest[0]);
        assert(run(s3, empty) == s3 && connects(s3, empty) == 0 && acceptances(s3, empty) == 0);
        assert(valid_run(s3, empty));
        assert(run(s2, rest) == s3);
        assert(valid_run(s2, rest) && connects(s2, rest) == 0 && acceptances(s2, rest) == 1);
    }
    assert forall|k: int| 1 <= k <= n + 2 implies #[trigger] run(s0, evs.take(k)).1 == Some(
        f@,
    ) by {
        if k <= n + 1 {
            let m = (k - 1) as nat;
            assert(evs.take(k) =~= head + failures(m));
            lemma_failures(f@, m);
            lemma_run_append(s0, head, failures(m));
        } else {
            let one = seq![SubmitEvent::Connected];
            assert(evs.take(k) =~= (head + failures(n)) + one);
            lemma_run_append(s0, head + failures(n), one);
            assert(one.drop_first() =~= empty);
            assert(one[0] == SubmitEvent::Connected);
            assert(run(next(s1, one[0]), empty) == next(s1, one[0]));
        }
    }
}

/// The single worker that owns the connection to the acceptance service.
pub struct Submitter {
    connected: bool,
    in_flight: Option<String>,
}

impl View for Submitter {
    type V = SubmitView;

    closed spec fn view(&self) -> SubmitView {
        (
            self.connected,
            match self.in_flight {
                Some(f) => Some(f@),
                None => None,
            },
        )
    }
}

/// The line that submits `flag`.
pub fn submission_line(flag: &str) -> (r: String)
    ensures
        r@ == line_of(flag@),
{
    let r = flag.to_string().concat("\n");
    proof {
        reveal_strlit("\n");
        assert(r@ =~= line_of(flag@));
    }
    r
}

impl Submitter {
    /// No connection and no flag in flight.
    pub fn new() -> (r: Submitter)
        ensures
            r@ == (false, None::<Seq<char>>),
    {
        Submitter { connected: false, in_flight: None }
    }

    /// Whether `e` can come now.
    pub fn expects_event(&self, e: &SubmitEvent) -> (r: bool)
        ensures
            r == expects(self@, *e),
    {
        match e {
            SubmitEvent::Flag(_) => self.in_flight.is_none(),
            SubmitEvent::Connected | SubmitEvent::ConnectFailed => self.in_flight.is_some()
                && !self.connected,
            SubmitEvent::Answered | SubmitEvent::Failed => self.in_flight.is_some()
                && self.connected,
        }
    }

    /// What the submitter asks for now.
    pub fn action(&self) -> (a: SubmitAction)
        ensures
            action_of(self@, a),
    {
        match &self.in_flight {
            None => SubmitAction::AwaitFlag,
            Some(f) => if self.connected {
                SubmitAction::Send(submission_line(f.as_str()))
            } else {
                SubmitAction::Connect
            },
        }
    }

    /// Takes in `e`, counts the flag in flight as accepted when its round
    /// trip completed, and says what to do next. A failure keeps the flag
    /// and asks to connect again.
    pub fn step(&mut self, e: SubmitEvent, stats: &mut BambiStats) -> (a: SubmitAction)
        requires
            expects(old(self)@, e),
            accepted(old(self)@, e) ==> old(stats)@ < u64::MAX,
        ensures
            final(self)@ == next(old(self)@, e),
            final(stats)@ == old(stats)@ + if accepted(old(self)@, e) {
                1nat
            } else {
                0nat
            },
            action_of(final(self)@, a),
    {
        match e {
            SubmitEvent::Flag(f) => {
                self.in_flight = Some(f);
            },
            SubmitEvent::Connected => {
                self.connected = true;
            },
            SubmitEvent::ConnectFailed | SubmitEvent::Failed => {
                self.connected = false;
            },
            SubmitEvent::Answered => {
                self.in_flight = None;
                stats.add_ok(1);
            },
        }
        self.action()
    }
}

} // verus!
