//! Scripts: the calls that one storage operation makes on its engine, in order, with what a
//! failure of each call means for the operation.
//!
//! A script makes no call itself. Its driver performs [`Script::action`], tells the script what
//! came back, and goes on until the script has an outcome.

use std::collections::VecDeque;
use vstd::prelude::*;

use crate::error::StorageError;

verus! {

/// Why an operation that cannot return an error has to panic.
#[derive(Debug, Clone, Copy, PartialEq, Eq, Structural)]
pub enum PanicReason {
    /// A redb write transaction for a batch could not be started.
    RedbBeginWrite,
    /// The durability of a fresh redb write transaction could not be set.
    RedbSetDurability,
    /// A turso transaction for a batch could not be started.
    TursoBegin,
}

impl PanicReason {
    /// The panic message.
    pub open spec fn text(self) -> Seq<char> {
        match self {
            PanicReason::RedbBeginWrite =>
                "redb begin_write failed; this should not happen with serialized SMT writes"@,
            PanicReason::RedbSetDurability => "set_durability before any write cannot fail"@,
            PanicReason::TursoBegin =>
                "BEGIN DEFERRED failed; cannot propagate error from batch() per trait"@,
        }
    }

    /// The panic message.
    pub fn message(self) -> (r: &'static str)
        ensures
            r@ == self.text(),
    {
        match self {
            PanicReason::RedbBeginWrite =>
                "redb begin_write failed; this should not happen with serialized SMT writes",
            PanicReason::RedbSetDurability => "set_durability before any write cannot fail",
            PanicReason::TursoBegin =>
                "BEGIN DEFERRED failed; cannot propagate error from batch() per trait",
        }
    }
}

/// What a failed call means for the operation that made it.
#[derive(Debug, Clone, Copy, PartialEq, Eq, Structural)]
pub enum OnError {
    /// The operation ends with the call's error.
    Return,
    /// The operation cannot report the error and panics.
    Panic(PanicReason),
    /// The error is dropped; the operation goes on, without the given number of calls that
    /// come next.
    Skip(usize),
}

/// One call of a script.
#[derive(Debug)]
pub struct Step<A> {
    /// The call.
    pub action: A,
    /// What its failure means.
    pub on_error: OnError,
}

impl<A: View> View for Step<A> {
    type V = Step<A::V>;

    open spec fn view(&self) -> Step<A::V> {
        Step { action: self.action@, on_error: self.on_error }
    }
}

/// What the answer to a call means for the script.
#[derive(Debug, Clone, Copy, PartialEq, Eq, Structural)]
pub enum Signal {
    /// The call succeeded.
    Advance,
    /// The call succeeded and is to be made again.
    Repeat,
    /// The call succeeded and leaves nothing to do.
    Finish,
    /// The call failed.
    Fail,
}

/// Where the script stands after an answer.
#[derive(Debug, Clone, Copy, PartialEq, Eq, Structural)]
pub enum Verdict {
    /// There is a call to make.
    Continue,
    /// The operation is over and succeeded.
    Finished,
    /// The operation is over and failed with the error of the last call.
    Failed,
    /// The operation panics.
    Panic(PanicReason),
}

/// Where an operation stands after an answer.
#[derive(Debug)]
pub enum Progress<T> {
    /// There is a call to make.
    Continue,
    /// The operation is over.
    Finished(Result<T, StorageError>),
    /// The operation panics, because of this error.
    Panic(PanicReason, StorageError),
}

/// The steps that are left, and the verdict, after `signal` came for the first of `steps`.
pub open spec fn after<V>(steps: Seq<Step<V>>, signal: Signal) -> (Seq<Step<V>>, Verdict) {
    if steps.len() == 0 {
        (steps, if signal is Fail { Verdict::Failed } else { Verdict::Finished })
    } else {
        match signal {
            Signal::Advance => going_on(steps.skip(1)),
            Signal::Repeat => (steps, Verdict::Continue),
            Signal::Finish => (Seq::empty(), Verdict::Finished),
            Signal::Fail => match steps[0].on_error {
                OnError::Return => (Seq::empty(), Verdict::Failed),
                OnError::Panic(reason) => (Seq::empty(), Verdict::Panic(reason)),
                OnError::Skip(n) => if 1 + n < steps.len() {
                    going_on(steps.skip(1 + n))
                } else {
                    (Seq::empty(), Verdict::Finished)
                },
            },
        }
    }
}

/// The state in which only `rest` is left to do.
pub open spec fn going_on<V>(rest: Seq<Step<V>>) -> (Seq<Step<V>>, Verdict) {
    (rest, if rest.len() == 0 { Verdict::Finished } else { Verdict::Continue })
}

/// The calls of one storage operation that are still to be made.
#[derive(Debug)]
pub struct Script<A> {
    steps: VecDeque<Step<A>>,
}

impl<A: View> View for Script<A> {
    type V = Seq<Step<A::V>>;

    closed spec fn view(&self) -> Seq<Step<A::V>> {
        self.steps@.map_values(|s: Step<A>| s@)
    }
}

impl<A: View> Script<A> {
    /// The script without calls.
    pub fn new() -> (r: Self)
        ensures
            r@ == Seq::<Step<A::V>>::empty(),
    {
        let r = Script { steps: VecDeque::new() };
        assert(r@ =~= Seq::<Step<A::V>>::empty());
        r
    }

    /// Adds a call at the end.
    pub fn push(&mut self, action: A, on_error: OnError)
        ensures
            final(self)@ == old(self)@.push(Step { action: action@, on_error }),
    {
        self.steps.push_back(Step { action, on_error });
        assert(self@ =~= old(self)@.push(Step { action: action@, on_error }));
    }

    /// The call to make now, if there is one left.
    pub fn action(&self) -> (r: Option<&A>)
        ensures
            r is Some <==> self@.len() > 0,
            r matches Some(a) ==> a@ == self@[0].action,
    {
        if self.steps.len() > 0 {
            Some(&self.steps[0].action)
        } else {
            None
        }
    }

    /// Goes on after the answer to the call of [`Script::action`].
    pub fn signal(&mut self, signal: Signal) -> (verdict: Verdict)
        ensures
            (final(self)@, verdict) == after(old(self)@, signal),
    {
        let ghost before = self.steps@;
        if self.steps.len() == 0 {
            return match signal {
                Signal::Fail => Verdict::Failed,
                _ => Verdict::Finished,
            };
        }
        let done: usize = match signal {
            Signal::Advance => 1,
            Signal::Repeat => 0,
            Signal::Finish => self.steps.len(),
            Signal::Fail => match self.steps[0].on_error {
                OnError::Return => {
                    self.steps.clear();
                    assert(self@ =~= Seq::<Step<A::V>>::empty());
                    return Verdict::Failed;
                },
                OnError::Panic(reason) => {
                    self.steps.clear();
                    assert(self@ =~= Seq::<Step<A::V>>::empty());
                    return Verdict::Panic(reason);
                },
                OnError::Skip(n) => if n < self.steps.len() - 1 {
                    n + 1
                } else {
                    self.steps.len()
                },
            },
        };
        let mut i: usize = 0;
        while i < done
            invariant
                i <= done <= before.len(),
                self.steps@ == before.skip(i as int),
            decreases done - i,
        {
            let _ = self.steps.pop_front();
            i = i + 1;
            assert(self.steps@ =~= before.skip(i as int));
        }
        assert(self@ =~= old(self)@.skip(done as int));
        if self.steps.len() == 0 {
            Verdict::Finished
        } else {
            Verdict::Continue
        }
    }
}

// LAWS
// ================================================================================================

/// A script makes its calls in order: after one that succeeded the rest is left, after one that is
/// to be made again everything is, and after one that leaves nothing to do nothing is.
pub proof fn law_success_goes_on<V>(steps: Seq<Step<V>>)
    requires
        steps.len() > 0,
    ensures
        after(steps, Signal::Advance).0 == steps.subrange(1, steps.len() as int),
        after(steps, Signal::Advance).1 == (if steps.len() == 1 {
            Verdict::Finished
        } else {
            Verdict::Continue
        }),
        after(steps, Signal::Repeat).0 == steps,
        after(steps, Signal::Repeat).1 == Verdict::Continue,
        after(steps, Signal::Finish).0.len() == 0,
        after(steps, Signal::Finish).1 == Verdict::Finished,
{
}

/// A failed call ends the operation, or makes it panic, with no further call; an error that is
/// passed over takes the given number of calls with it, and the operation succeeds where that
/// leaves none.
pub proof fn law_failure_goes_by_its_step<V>(steps: Seq<Step<V>>)
    requires
        steps.len() > 0,
    ensures
        match steps[0].on_error {
            OnError::Return => after(steps, Signal::Fail).0.len() == 0 && after(
                steps,
                Signal::Fail,
            ).1 == Verdict::Failed,
            OnError::Panic(reason) => after(steps, Signal::Fail).0.len() == 0 && after(
                steps,
                Signal::Fail,
            ).1 == Verdict::Panic(reason),
            OnError::Skip(n) => {
                let left = steps.len() - 1 - n;
                if left > 0 {
                    after(steps, Signal::Fail).0 == steps.subrange(1 + n, steps.len() as int)
                        && after(steps, Signal::Fail).1 == Verdict::Continue
                } else {
                    after(steps, Signal::Fail).0.len() == 0 && after(steps, Signal::Fail).1
                        == Verdict::Finished
                }
            },
        },
{
}

/// A script that has no call left stays so: an error is returned, and nothing else happens.
pub proof fn law_empty_script_is_over<V>(signal: Signal)
    ensures
        after(Seq::<Step<V>>::empty(), signal).0.len() == 0,
        after(Seq::<Step<V>>::empty(), signal).1 == (match signal {
            Signal::Fail => Verdict::Failed,
            _ => Verdict::Finished,
        }),
{
}

/// What a step says is its call and what a failure of the call means.
pub proof fn law_step_says_its_call<A: View>(step: Step<A>)
    ensures
        step@.action == step.action@,
        step@.on_error == step.on_error,
{
}

/// Each reason to panic has its message.
pub proof fn law_panic_messages(reason: PanicReason)
    ensures
        match reason {
            PanicReason::RedbBeginWrite => reason.text()
                == "redb begin_write failed; this should not happen with serialized SMT writes"@,
            PanicReason::RedbSetDurability => reason.text()
                == "set_durability before any write cannot fail"@,
            PanicReason::TursoBegin => reason.text()
                == "BEGIN DEFERRED failed; cannot propagate error from batch() per trait"@,
        },
{
}

/// The panic message that a caller gets for each reason.
pub proof fn law_message_outcome(reason: PanicReason, r: &'static str)
    requires
        call_ensures(PanicReason::message, (reason,), r),
    ensures
        match reason {
            PanicReason::RedbBeginWrite => r@
                == "redb begin_write failed; this should not happen with serialized SMT writes"@,
            PanicReason::RedbSetDurability => r@ == "set_durability before any write cannot fail"@,
            PanicReason::TursoBegin => r@
                == "BEGIN DEFERRED failed; cannot propagate error from batch() per trait"@,
        },
{
}

/// A call that is added to a fresh script is the call that the script asks for, with what its
/// failure means.
pub proof fn law_pushed_call_is_asked_for<A: View>(
    script: &mut Script<A>,
    action: A,
    on_error: OnError,
    asked: Option<&A>,
)
    requires
        call_ensures(Script::<A>::new, (), *old(script)),
        call_ensures(Script::<A>::push, (script, action, on_error), ()),
        call_ensures(Script::<A>::action, (&*final(script),), asked),
    ensures
        asked matches Some(a) && a@ == action@,
        final(script)@.len() == 1,
        final(script)@[0].on_error == on_error,
{
}

/// Calls are asked for in the order in which they were added.
pub proof fn law_calls_keep_their_order<A: View>(
    script: &mut Script<A>,
    action: A,
    on_error: OnError,
    asked: Option<&A>,
)
    requires
        old(script)@.len() > 0,
        call_ensures(Script::<A>::push, (script, action, on_error), ()),
        call_ensures(Script::<A>::action, (&*final(script),), asked),
    ensures
        asked matches Some(a) && a@ == old(script)@[0].action,
        final(script)@.len() == old(script)@.len() + 1,
        final(script)@.last() == (Step { action: action@, on_error }),
        forall|i: int| 0 <= i < old(script)@.len() ==> #[trigger] final(script)@[i] == old(script)@[i],
{
}

/// A script without calls asks for none.
pub proof fn law_empty_script_asks_for_nothing<A: View>(script: &Script<A>, asked: Option<&A>)
    requires
        script@.len() == 0,
        call_ensures(Script::<A>::action, (script,), asked),
    ensures
        asked is None,
{
}

/// A signal takes a script where the rules for success and failure say.
pub proof fn law_signal_outcome<A: View>(script: &mut Script<A>, signal: Signal, verdict: Verdict)
    requires
        old(script)@.len() > 0,
        call_ensures(Script::<A>::signal, (script, signal), verdict),
    ensures
        signal is Advance ==> final(script)@ == old(script)@.subrange(
            1,
            old(script)@.len() as int,
        ) && verdict == (if old(script)@.len() == 1 {
            Verdict::Finished
        } else {
            Verdict::Continue
        }),
        signal is Repeat ==> final(script)@ == old(script)@ && verdict is Continue,
        signal is Finish ==> final(script)@.len() == 0 && verdict is Finished,
        signal is Fail && old(script)@[0].on_error is Return ==> final(script)@.len() == 0
            && verdict is Failed,
        signal is Fail ==> (old(script)@[0].on_error matches OnError::Panic(reason)
            ==> final(script)@.len() == 0 && verdict == Verdict::Panic(reason)),
        signal is Fail ==> (old(script)@[0].on_error matches OnError::Skip(n) ==> if 1 + n
            < old(script)@.len() {
            final(script)@ == old(script)@.subrange(1 + n, old(script)@.len() as int)
                && verdict is Continue
        } else {
            final(script)@.len() == 0 && verdict is Finished
        }),
{
}

} // verus!
