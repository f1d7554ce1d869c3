//! Whole runs of the retry controller.
//!
//! Given how each attempt of the tool ends, the controller's moves from the
//! start of the command are fixed. This module computes them, and states
//! what holds of every such run: how many attempts are made, that the run
//! ends with exactly one terminal line, and that one delay, never more and
//! never less, lies between two attempts.

use vstd::prelude::*;
use crate::retry::{
    initial_state, outcome_event, outcome_view, terminal, transition, Directive, Event, EventView,
    Phase, RetryState, Transition, TransitionView,
};

verus! {

/// The outcomes of successive attempts, as contracts see them.
pub open spec fn outcomes_view(outcomes: Seq<Result<(), String>>) -> Seq<Result<(), Seq<char>>> {
    outcomes.map_values(|outcome: Result<(), String>| outcome_view(outcome))
}

/// The moves of a run, as contracts see them.
pub open spec fn moves_view(moves: Seq<Transition>) -> Seq<TransitionView> {
    moves.map_values(|t: Transition| t@)
}

/// The moves of a controller with `max_retries` and `fixed_delay`, from
/// the start of the command, when its attempts end as `outcomes` says.
///
/// The first move starts the first attempt. Each outcome is then fed to the
/// attempt under way; where that schedules a retry, the delay elapses and
/// the next attempt starts. Once the controller has reached a terminal
/// phase no attempt is under way, and what is left of `outcomes` is not
/// looked at. Where `outcomes` runs out first, the run stops with an
/// attempt under way.
pub open spec fn transcript(
    max_retries: u64,
    fixed_delay: u64,
    outcomes: Seq<Result<(), Seq<char>>>,
) -> Seq<TransitionView>
    decreases outcomes.len(),
{
    if outcomes.len() == 0 {
        seq![transition(initial_state(max_retries, fixed_delay), EventView::Start)]
    } else {
        let earlier = transcript(max_retries, fixed_delay, outcomes.drop_last());
        let state = earlier.last().next;
        if state.phase == Phase::Running {
            let ended = transition(state, outcome_event(outcomes.last()));
            if ended.next.phase == Phase::RetryScheduled {
                earlier.push(ended).push(transition(ended.next, EventView::DelayElapsed))
            } else {
                earlier.push(ended)
            }
        } else {
            earlier
        }
    }
}

/// How many attempts a run starts.
pub open spec fn attempts(moves: Seq<TransitionView>) -> nat
    decreases moves.len(),
{
    if moves.len() == 0 {
        0
    } else {
        attempts(moves.drop_last()) + if moves.last().directive == Directive::RunAttempt {
            1nat
        } else {
            0nat
        }
    }
}

/// How many delays a run goes through.
pub open spec fn delays(moves: Seq<TransitionView>) -> nat
    decreases moves.len(),
{
    if moves.len() == 0 {
        0
    } else {
        delays(moves.drop_last()) + if moves.last().directive is Sleep {
            1nat
        } else {
            0nat
        }
    }
}

/// How many terminal lines a run emits: lines of moves after which
/// nothing is left to do.
pub open spec fn terminal_lines(moves: Seq<TransitionView>) -> nat
    decreases moves.len(),
{
    if moves.len() == 0 {
        0
    } else {
        terminal_lines(moves.drop_last()) + if moves.last().directive == Directive::Halt {
            1nat
        } else {
            0nat
        }
    }
}

/// The length of the longest prefix of `outcomes` that holds failures only.
pub open spec fn leading_failures(outcomes: Seq<Result<(), Seq<char>>>) -> nat
    decreases outcomes.len(),
{
    if outcomes.len() == 0 {
        0
    } else {
        let before = leading_failures(outcomes.drop_last());
        if before == outcomes.len() - 1 && outcomes.last() is Err {
            outcomes.len()
        } else {
            before
        }
    }
}

/// How many attempts are owed when attempts end as `outcomes` says: one
/// for each failure that comes before the first success, up to the number
/// of retries, and one more.
pub open spec fn attempts_owed(max_retries: u64, outcomes: Seq<Result<(), Seq<char>>>) -> nat {
    let failed = leading_failures(outcomes);
    if failed <= max_retries {
        failed + 1
    } else {
        (max_retries + 1) as nat
    }
}

/// The phase in which a run ends when attempts end as `outcomes` says:
/// exhausted where more failures come first than retries are permitted,
/// else succeeded where a success follows them, else still running.
pub open spec fn phase_owed(max_retries: u64, outcomes: Seq<Result<(), Seq<char>>>) -> Phase {
    let failed = leading_failures(outcomes);
    if failed > max_retries {
        Phase::Exhausted
    } else if failed < outcomes.len() {
        Phase::Succeeded
    } else {
        Phase::Running
    }
}

/// The pacing of a run at its move `i`: an attempt is the first move or
/// comes directly after a delay of `fixed_delay` seconds; a delay is of
/// `fixed_delay` seconds and lies directly between two attempts; a move
/// that leaves nothing to do comes directly after an attempt and is the
/// last.
pub open spec fn paced_at(moves: Seq<TransitionView>, fixed_delay: u64, i: int) -> bool {
    let pause = Directive::Sleep { seconds: fixed_delay };
    match moves[i].directive {
        Directive::RunAttempt => i == 0 || moves[i - 1].directive == pause,
        Directive::Sleep { seconds } => {
            &&& seconds == fixed_delay
            &&& 0 < i && moves[i - 1].directive == Directive::RunAttempt
            &&& i + 1 < moves.len() && moves[i + 1].directive == Directive::RunAttempt
        },
        Directive::Halt => {
            &&& 0 < i && moves[i - 1].directive == Directive::RunAttempt
            &&& i == moves.len() - 1
        },
    }
}

/// The pacing of a whole run: [`paced_at`] every move.
pub open spec fn well_paced(moves: Seq<TransitionView>, fixed_delay: u64) -> bool {
    forall|i: int| 0 <= i < moves.len() ==> #[trigger] paced_at(moves, fixed_delay, i)
}

/// The phase in which a run ends.
pub open spec fn final_phase(moves: Seq<TransitionView>) -> Phase {
    moves.last().next.phase
}

proof fn lemma_count_push(moves: Seq<TransitionView>, t: TransitionView)
    ensures
        attempts(moves.push(t)) == attempts(moves) + if t.directive == Directive::RunAttempt {
            1nat
        } else {
            0nat
        },
        delays(moves.push(t)) == delays(moves) + if t.directive is Sleep {
            1nat
        } else {
            0nat
        },
        terminal_lines(moves.push(t)) == terminal_lines(moves) + if t.directive
            == Directive::Halt {
            1nat
        } else {
            0nat
        },
{
    assert(moves.push(t).drop_last() =~= moves);
    assert(moves.push(t).last() == t);
}

/// A run extended by one more outcome, in the three forms it can take.
proof fn lemma_unfold(max_retries: u64, fixed_delay: u64, outcomes: Seq<Result<(), Seq<char>>>)
    requires
        outcomes.len() > 0,
    ensures
        ({
            let earlier = transcript(max_retries, fixed_delay, outcomes.drop_last());
            let moves = transcript(max_retries, fixed_delay, outcomes);
            let state = earlier.last().next;
            let ended = transition(state, outcome_event(outcomes.last()));
            let resumed = transition(ended.next, EventView::DelayElapsed);
            &&& state.phase != Phase::Running ==> moves == earlier
            &&& state.phase == Phase::Running ==> {
                &&& outcomes.last() is Ok ==> {
                    &&& moves == earlier.push(ended)
                    &&& ended.directive == Directive::Halt
                    &&& ended.next.phase == Phase::Succeeded
                }
                &&& outcomes.last() is Err && state.attempts_remaining == 0 ==> {
                    &&& moves == earlier.push(ended)
                    &&& ended.directive == Directive::Halt
                    &&& ended.next.phase == Phase::Exhausted
                }
                &&& outcomes.last() is Err && state.attempts_remaining > 0 ==> {
                    &&& moves == earlier.push(ended).push(resumed)
                    &&& ended.directive == (Directive::Sleep { seconds: state.fixed_delay })
                    &&& resumed.directive == Directive::RunAttempt
                    &&& resumed.next == (RetryState {
                        phase: Phase::Running,
                        attempts_remaining: (state.attempts_remaining - 1) as u64,
                        fixed_delay: state.fixed_delay,
                    })
                }
            }
        }),
{
}

/// How a run ends.
proof fn lemma_end(max_retries: u64, fixed_delay: u64, outcomes: Seq<Result<(), Seq<char>>>)
    ensures
        ({
            let moves = transcript(max_retries, fixed_delay, outcomes);
            let end = moves.last().next;
            let failed = leading_failures(outcomes);
            &&& moves.len() >= 1
            &&& moves[0] == transition(initial_state(max_retries, fixed_delay), EventView::Start)
            &&& end.fixed_delay == fixed_delay
            &&& failed <= outcomes.len()
            &&& end.phase == phase_owed(max_retries, outcomes)
            &&& end.phase == Phase::Running ==> {
                &&& end.attempts_remaining == max_retries - failed
                &&& moves.last().directive == Directive::RunAttempt
            }
            &&& terminal(end.phase) ==> moves.last().directive == Directive::Halt
        }),
    decreases outcomes.len(),
{
    if outcomes.len() > 0 {
        lemma_end(max_retries, fixed_delay, outcomes.drop_last());
        lemma_unfold(max_retries, fixed_delay, outcomes);
    }
}

/// What a run adds up to.
proof fn lemma_counts(max_retries: u64, fixed_delay: u64, outcomes: Seq<Result<(), Seq<char>>>)
    ensures
        ({
            let moves = transcript(max_retries, fixed_delay, outcomes);
            &&& attempts(moves) == delays(moves) + 1
            &&& attempts(moves) == attempts_owed(max_retries, outcomes)
            &&& terminal_lines(moves) == (if terminal(final_phase(moves)) {
                1nat
            } else {
                0nat
            })
        }),
    decreases outcomes.len(),
{
    if outcomes.len() == 0 {
        let start = transition(initial_state(max_retries, fixed_delay), EventView::Start);
        lemma_count_push(Seq::empty(), start);
        assert(Seq::<TransitionView>::empty().push(start) =~= seq![start]);
    } else {
        let shorter = outcomes.drop_last();
        lemma_counts(max_retries, fixed_delay, shorter);
        lemma_end(max_retries, fixed_delay, shorter);
        lemma_end(max_retries, fixed_delay, outcomes);
        lemma_unfold(max_retries, fixed_delay, outcomes);
        let earlier = transcript(max_retries, fixed_delay, shorter);
        let ended = transition(earlier.last().next, outcome_event(outcomes.last()));
        let resumed = transition(ended.next, EventView::DelayElapsed);
        lemma_count_push(earlier, ended);
        lemma_count_push(earlier.push(ended), resumed);
    }
}

/// The pacing of a run, move by move.
proof fn lemma_pacing(max_retries: u64, fixed_delay: u64, outcomes: Seq<Result<(), Seq<char>>>)
    ensures
        well_paced(transcript(max_retries, fixed_delay, outcomes), fixed_delay),
    decreases outcomes.len(),
{
    let moves = transcript(max_retries, fixed_delay, outcomes);
    if outcomes.len() > 0 {
        let shorter = outcomes.drop_last();
        lemma_pacing(max_retries, fixed_delay, shorter);
        lemma_end(max_retries, fixed_delay, shorter);
        lemma_unfold(max_retries, fixed_delay, outcomes);
        let earlier = transcript(max_retries, fixed_delay, shorter);
        assert forall|i: int| 0 <= i < moves.len() implies #[trigger] paced_at(
            moves,
            fixed_delay,
            i,
        ) by {
            if i < earlier.len() {
                assert(paced_at(earlier, fixed_delay, i));
            }
        }
    }
}

/// Once a run has reached a terminal phase, further outcomes change
/// nothing.
proof fn lemma_settled(
    max_retries: u64,
    fixed_delay: u64,
    outcomes: Seq<Result<(), Seq<char>>>,
    k: int,
)
    requires
        0 <= k <= outcomes.len(),
        final_phase(transcript(max_retries, fixed_delay, outcomes.take(k))) != Phase::Running,
    ensures
        transcript(max_retries, fixed_delay, outcomes) == transcript(
            max_retries,
            fixed_delay,
            outcomes.take(k),
        ),
    decreases outcomes.len() - k,
{
    if k == outcomes.len() {
        assert(outcomes.take(k) =~= outcomes);
    } else {
        assert(outcomes.drop_last().take(k) =~= outcomes.take(k));
        lemma_settled(max_retries, fixed_delay, outcomes.drop_last(), k);
    }
}

proof fn lemma_failures_only(outcomes: Seq<Result<(), Seq<char>>>)
    requires
        forall|i: int| 0 <= i < outcomes.len() ==> outcomes[i] is Err,
    ensures
        leading_failures(outcomes) == outcomes.len(),
    decreases outcomes.len(),
{
    if outcomes.len() > 0 {
        lemma_failures_only(outcomes.drop_last());
    }
}

proof fn lemma_failures_then_success(outcomes: Seq<Result<(), Seq<char>>>, k: int)
    requires
        0 <= k < outcomes.len(),
        outcomes[k] is Ok,
        forall|i: int| 0 <= i < k ==> outcomes[i] is Err,
    ensures
        leading_failures(outcomes) == k,
    decreases outcomes.len(),
{
    if outcomes.len() - 1 == k {
        lemma_failures_only(outcomes.drop_last());
    } else {
        lemma_failures_then_success(outcomes.drop_last(), k);
    }
}

/// The number of attempts is fixed by the outcomes: one for each failure
/// that comes before the first success, up to the number of retries, and
/// one more. So at least one attempt is made, whatever the budget, and
/// never more than one plus the number of retries. The run ends exhausted
/// where more failures come first than retries are permitted, succeeded
/// where a success follows them in time, and with an attempt under way
/// where the outcomes run out before that.
pub proof fn law_attempts(
    max_retries: u64,
    fixed_delay: u64,
    outcomes: Seq<Result<(), Seq<char>>>,
)
    ensures
        attempts(transcript(max_retries, fixed_delay, outcomes)) == attempts_owed(
            max_retries,
            outcomes,
        ),
        1 <= attempts(transcript(max_retries, fixed_delay, outcomes)) <= max_retries + 1,
        final_phase(transcript(max_retries, fixed_delay, outcomes)) == phase_owed(
            max_retries,
            outcomes,
        ),
{
    lemma_counts(max_retries, fixed_delay, outcomes);
    lemma_end(max_retries, fixed_delay, outcomes);
}

/// Where every attempt fails and there are outcomes for all of them, the
/// controller makes exactly one attempt more than it has retries, and ends
/// exhausted.
pub proof fn law_every_attempt_fails(
    max_retries: u64,
    fixed_delay: u64,
    outcomes: Seq<Result<(), Seq<char>>>,
)
    requires
        outcomes.len() > max_retries,
        forall|i: int| 0 <= i < outcomes.len() ==> outcomes[i] is Err,
    ensures
        attempts(transcript(max_retries, fixed_delay, outcomes)) == max_retries + 1,
        final_phase(transcript(max_retries, fixed_delay, outcomes)) == Phase::Exhausted,
{
    lemma_failures_only(outcomes);
    law_attempts(max_retries, fixed_delay, outcomes);
}

/// Where attempt `k + 1` is the first to succeed and lies within the
/// budget, the controller stops right there: it has made `k + 1` attempts,
/// ends succeeded, and whatever outcomes follow play no part.
pub proof fn law_stops_at_first_success(
    max_retries: u64,
    fixed_delay: u64,
    outcomes: Seq<Result<(), Seq<char>>>,
    k: int,
)
    requires
        0 <= k < outcomes.len(),
        k <= max_retries,
        outcomes[k] is Ok,
        forall|i: int| 0 <= i < k ==> outcomes[i] is Err,
    ensures
        attempts(transcript(max_retries, fixed_delay, outcomes)) == k + 1,
        final_phase(transcript(max_retries, fixed_delay, outcomes)) == Phase::Succeeded,
        transcript(max_retries, fixed_delay, outcomes) == transcript(
            max_retries,
            fixed_delay,
            outcomes.take(k + 1),
        ),
{
    lemma_failures_then_success(outcomes, k);
    law_attempts(max_retries, fixed_delay, outcomes);
    let decided = outcomes.take(k + 1);
    lemma_failures_then_success(decided, k);
    law_attempts(max_retries, fixed_delay, decided);
    lemma_settled(max_retries, fixed_delay, outcomes, k + 1);
}

/// A run emits exactly one terminal line if it has ended, whether in
/// success or in exhaustion, and none while an attempt is under way. The
/// terminal line is the last line of the run. A run with an outcome for
/// every attempt that the budget permits has ended, whatever the budget.
pub proof fn law_one_terminal_line(
    max_retries: u64,
    fixed_delay: u64,
    outcomes: Seq<Result<(), Seq<char>>>,
)
    ensures
        ({
            let moves = transcript(max_retries, fixed_delay, outcomes);
            &&& terminal(final_phase(moves)) ==> terminal_lines(moves) == 1
                && moves.last().directive == Directive::Halt
            &&& !terminal(final_phase(moves)) ==> terminal_lines(moves) == 0
            &&& outcomes.len() > max_retries ==> terminal_lines(moves) == 1
            &&& forall|i: int|
                0 <= i < moves.len() && (#[trigger] moves[i]).directive == Directive::Halt ==> i
                    == moves.len() - 1
        }),
{
    let moves = transcript(max_retries, fixed_delay, outcomes);
    lemma_counts(max_retries, fixed_delay, outcomes);
    lemma_end(max_retries, fixed_delay, outcomes);
    lemma_pacing(max_retries, fixed_delay, outcomes);
    assert forall|i: int|
        0 <= i < moves.len() && (#[trigger] moves[i]).directive == Directive::Halt implies i
        == moves.len() - 1 by {
        assert(paced_at(moves, fixed_delay, i));
    }
}

/// One delay of the configured length, never none and never two, lies
/// between any two consecutive attempts: the run is well paced, and it
/// goes through exactly one delay fewer than it makes attempts.
pub proof fn law_backoff_between_attempts(
    max_retries: u64,
    fixed_delay: u64,
    outcomes: Seq<Result<(), Seq<char>>>,
)
    ensures
        well_paced(transcript(max_retries, fixed_delay, outcomes), fixed_delay),
        delays(transcript(max_retries, fixed_delay, outcomes)) + 1 == attempts(
            transcript(max_retries, fixed_delay, outcomes),
        ),
{
    lemma_counts(max_retries, fixed_delay, outcomes);
    lemma_pacing(max_retries, fixed_delay, outcomes);
}

/// The moves of a controller with `max_retries` and `fixed_delay`, from
/// the start of the command, against a tool whose successive attempts end
/// as `outcomes` says.
pub fn replay(max_retries: u64, fixed_delay: u64, outcomes: &Vec<Result<(), String>>) -> (moves:
    Vec<Transition>)
    ensures
        moves_view(moves@) == transcript(max_retries, fixed_delay, outcomes_view(outcomes@)),
{
    let ghost script = outcomes_view(outcomes@);
    let first = RetryState::new(max_retries, fixed_delay).step(&Event::Start).unwrap();
    let mut state = first.next;
    let mut moves: Vec<Transition> = Vec::new();
    moves.push(first);
    assert(moves_view(moves@) =~= transcript(max_retries, fixed_delay, script.take(0)));
    let mut i: usize = 0;
    while i < outcomes.len() && !state.is_terminal()
        invariant
            i <= outcomes.len(),
            script == outcomes_view(outcomes@),
            moves.len() > 0,
            state == moves[moves.len() - 1].next,
            state.phase == Phase::Running || terminal(state.phase),
            moves_view(moves@) == transcript(max_retries, fixed_delay, script.take(i as int)),
        decreases outcomes.len() - i,
    {
        let ghost before = moves_view(moves@);
        proof {
            assert(script.take(i + 1).drop_last() =~= script.take(i as int));
            assert(script.take(i + 1).last() == outcome_view(outcomes@[i as int]));
            lemma_unfold(max_retries, fixed_delay, script.take(i + 1));
        }
        let ended = state.step(&Event::from_outcome(&outcomes[i])).unwrap();
        state = ended.next;
        moves.push(ended);
        assert(moves_view(moves@) =~= before.push(ended@));
        if state.phase == Phase::RetryScheduled {
            let resumed = state.step(&Event::DelayElapsed).unwrap();
            state = resumed.next;
            moves.push(resumed);
            assert(moves_view(moves@) =~= before.push(ended@).push(resumed@));
        }
        i += 1;
    }
    proof {
        if i < outcomes.len() {
            lemma_settled(max_retries, fixed_delay, script, i as int);
        } else {
            assert(script.take(i as int) =~= script);
        }
    }
    moves
}

} // verus!
