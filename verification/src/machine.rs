//! State machines, and what a whole run of one does.
use vstd::prelude::*;

verus! {

/// A state machine that asks for actions and is told how each went.
///
/// A machine is always waiting for the answer to its last action. An answer
/// takes it to its next state and to its next action.
pub trait Machine: Sized {
    /// The answers that actions get.
    type Input;

    /// What the machine asks for.
    type Action;

    /// The next state and action; `None` if the input does not answer what the
    /// machine is waiting for.
    spec fn next(self, input: Self::Input) -> Option<(Self, Self::Action)>;

    /// Takes an answer.
    fn step(self, input: Self::Input) -> (taken: Option<(Self, Self::Action)>)
        ensures
            taken == self.next(input),
    ;
}

/// What a machine does on a whole sequence of inputs: the state it ends in and
/// the actions it asks for, one per input; `None` if one of the inputs is not
/// an answer to what it was waiting for.
pub open spec fn run<M: Machine>(start: M, inputs: Seq<M::Input>) -> Option<(M, Seq<M::Action>)>
    decreases inputs.len(),
{
    if inputs.len() == 0 {
        Some((start, Seq::empty()))
    } else {
        match start.next(inputs[0]) {
            Some((middle, action)) => match run(middle, inputs.drop_first()) {
                Some((end, actions)) => Some((end, seq![action] + actions)),
                None => None,
            },
            None => None,
        }
    }
}

/// A run on two sequences of inputs, one after the other, is a run on the first
/// and, from where that ends, a run on the second.
pub proof fn run_in_two_parts<M: Machine>(start: M, first: Seq<M::Input>, second: Seq<M::Input>)
    ensures
        run(start, first + second) == match run(start, first) {
            Some((middle, before)) => match run(middle, second) {
                Some((end, after)) => Some((end, before + after)),
                None => None,
            },
            None => None,
        },
    decreases first.len(),
{
    if first.len() == 0 {
        assert(first + second =~= second);
        if let Some((end, after)) = run(start, second) {
            assert(Seq::<M::Action>::empty() + after =~= after);
        }
    } else {
        assert((first + second).drop_first() =~= first.drop_first() + second);
        if let Some((middle, action)) = start.next(first[0]) {
            run_in_two_parts(middle, first.drop_first(), second);
            if let Some((third, before)) = run(middle, first.drop_first()) {
                if let Some((end, after)) = run(third, second) {
                    assert((seq![action] + before) + after =~= seq![action] + (before + after));
                }
            }
        }
    }
}

/// A run that begins with a given input is one step and the run from there.
pub proof fn run_from_first<M: Machine>(start: M, input: M::Input, rest: Seq<M::Input>)
    ensures
        run(start, seq![input] + rest) == match start.next(input) {
            Some((middle, action)) => match run(middle, rest) {
                Some((end, actions)) => Some((end, seq![action] + actions)),
                None => None,
            },
            None => None,
        },
{
    assert((seq![input] + rest).drop_first() =~= rest);
}

} // verus!
