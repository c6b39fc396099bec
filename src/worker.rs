use crate::dedup::{first_presentation, views, DedupSet};
use crate::matcher::{pattern_matches, FlagMatcher};
use vstd::prelude::*;

verus! {

/// Whether a target's exploit is running.
#[derive(Clone, Copy, Debug, PartialEq, Eq, Structural)]
pub enum WorkerPhase {
    Idle,
    Running,
}

/// What happens to a target worker.
#[derive(Clone, Copy, Debug, PartialEq, Eq, Structural)]
pub enum WorkerEvent {
    /// The interval elapsed.
    Tick,
    /// The exploit ended: it exited with any status, was killed, or could
    /// not be launched.
    Finished,
}

/// What a target worker does next.
#[derive(Clone, Copy, Debug, PartialEq, Eq, Structural)]
pub enum WorkerAction {
    /// Launch the exploit against the target.
    Launch,
    /// Let this tick pass: the previous run is still going.
    SkipTick,
    /// Wait for the next tick.
    Wait,
}

/// The phase after `event`.
pub open spec fn next_phase(phase: WorkerPhase, event: WorkerEvent) -> WorkerPhase {
    match event {
        WorkerEvent::Tick => WorkerPhase::Running,
        WorkerEvent::Finished => WorkerPhase::Idle,
    }
}

/// The action on `event`: a tick launches only from idle.
pub open spec fn worker_action(phase: WorkerPhase, event: WorkerEvent) -> WorkerAction {
    match event {
        WorkerEvent::Tick => if phase == WorkerPhase::Idle {
            WorkerAction::Launch
        } else {
            WorkerAction::SkipTick
        },
        WorkerEvent::Finished => WorkerAction::Wait,
    }
}

/// One step of a target worker: never two runs of one target at a time.
pub fn worker_step(phase: WorkerPhase, event: WorkerEvent) -> (r: (WorkerPhase, WorkerAction))
    ensures
        r.0 == next_phase(phase, event),
        r.1 == worker_action(phase, event),
{
    match event {
        WorkerEvent::Tick => match phase {
            WorkerPhase::Idle => (WorkerPhase::Running, WorkerAction::Launch),
            WorkerPhase::Running => (WorkerPhase::Running, WorkerAction::SkipTick),
        },
        WorkerEvent::Finished => (WorkerPhase::Idle, WorkerAction::Wait),
    }
}

/// The command line for one target: the template with the address as its
/// last argument.
pub fn command_for(template: &Vec<String>, address: &str) -> (r: Vec<String>)
    ensures
        views(r@) == views(template@).push(address@),
{
    let mut r: Vec<String> = Vec::new();
    let mut i: usize = 0;
    while i < template.len()
        invariant
            0 <= i <= template@.len(),
            r@.len() == i,
            forall|k: int| 0 <= k < i ==> r@[k]@ == template@[k]@,
        decreases template@.len() - i,
    {
        r.push(template[i].clone());
        i = i + 1;
    }
    r.push(address.to_string());
    proof {
        assert forall|k: int| 0 <= k < r@.len() implies views(r@)[k] == views(template@).push(
            address@,
        )[k] by {
            if k < template@.len() {
                assert(views(template@)[k] == template@[k]@);
            }
        }
        assert(views(r@) =~= views(template@).push(address@));
    }
    r
}

/// The flags of `fs`, in order, that were neither in `seen` nor earlier in
/// `fs`.
pub open spec fn novel(seen: Set<Seq<char>>, fs: Seq<Seq<char>>) -> Seq<Seq<char>>
    decreases fs.len(),
{
    if fs.len() == 0 {
        Seq::empty()
    } else {
        let prev = novel(seen, fs.drop_last());
        if seen.contains(fs.last()) || fs.drop_last().contains(fs.last()) {
            prev
        } else {
            prev.push(fs.last())
        }
    }
}

/// Records each of `flags` and returns, in order, those never seen before,
/// which are to be queued for submission.
pub fn keep_novel(dedup: &mut DedupSet, flags: &Vec<String>) -> (r: Vec<String>)
    ensures
        views(r@) == novel(old(dedup)@, views(flags@)),
        final(dedup)@ == old(dedup)@ + views(flags@).to_set(),
{
    let fresh = dedup.admit_all(flags);
    let ghost fs = views(flags@);
    let ghost seen = old(dedup)@;
    let mut r: Vec<String> = Vec::new();
    let mut i: usize = 0;
    while i < flags.len()
        invariant
            0 <= i <= flags@.len(),
            fresh@.len() == flags@.len(),
            fs == views(flags@),
            forall|k: int| 0 <= k < flags@.len() ==> fresh@[k] == first_presentation(seen, fs, k),
            views(r@) == novel(seen, fs.subrange(0, i as int)),
        decreases flags@.len() - i,
    {
        proof {
            let pre = fs.subrange(0, i + 1);
            assert(pre.drop_last() =~= fs.subrange(0, i as int));
            assert(pre.last() == fs[i as int]);
            assert(fs.subrange(0, i as int).contains(fs[i as int]) <==> exists|j: int|
                0 <= j < i && fs[j] == fs[i as int]) by {
                if exists|j: int| 0 <= j < i && fs[j] == fs[i as int] {
                    let j = choose|j: int| 0 <= j < i && fs[j] == fs[i as int];
                    assert(fs.subrange(0, i as int)[j] == fs[i as int]);
                }
            }
        }
        if fresh[i] {
            r.push(flags[i].clone());
        }
        i = i + 1;
        proof {
            assert(views(r@) =~= novel(seen, fs.subrange(0, i as int)));
        }
    }
    proof {
        assert(fs.subrange(0, flags@.len() as int) =~= fs);
    }
    r
}

/// Scans a piece of exploit output, whatever the exploit's exit status:
/// records every flag in it and returns, in order, those never seen before,
/// which are to be queued for submission.
pub fn harvest(matcher: &FlagMatcher, dedup: &mut DedupSet, output: &str) -> (r: Vec<String>)
    ensures
        views(r@) == novel(old(dedup)@, pattern_matches(matcher@, output@)),
        final(dedup)@ == old(dedup)@ + pattern_matches(matcher@, output@).to_set(),
{
    let flags = matcher.extract(output);
    keep_novel(dedup, &flags)
}

} // verus!
