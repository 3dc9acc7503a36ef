//! Test doubles: a `Method` answers its calls, one after the other, with the
//! values and errors that were registered on it, and counts the calls made.
use vstd::prelude::*;

verus! {

/// A call counter.
pub struct Count {
    value: usize,
}

impl View for Count {
    type V = nat;

    closed spec fn view(&self) -> nat {
        self.value as nat
    }
}

impl Count {
    /// A counter that starts at zero.
    pub fn new() -> (count: Count)
        ensures
            count@ == 0,
    {
        Count { value: 0 }
    }

    /// Adds one to the counter.
    pub fn increment(&mut self)
        requires
            old(self)@ < usize::MAX,
        ensures
            final(self)@ == old(self)@ + 1,
    {
        self.value = self.value + 1;
    }

    /// The number counted so far.
    pub fn get(&self) -> (value: usize)
        ensures
            value == self@,
    {
        self.value
    }
}

/// The answer registered at one position: the value where there is one,
/// otherwise the error.
pub open spec fn registered_outcome<T, E>(value: Option<T>, error: Option<E>) -> Result<T, E> {
    match value {
        Some(v) => Ok(v),
        None => Err(error.unwrap()),
    }
}

/// `answer` is a clone of the registered `outcome`: the same variant, holding
/// a clone of its content.
pub open spec fn answers_with<T: Clone, E: Clone>(outcome: Result<T, E>, answer: Result<T, E>) -> bool {
    match (outcome, answer) {
        (Ok(expected), Ok(given)) => cloned(expected, given),
        (Err(expected), Err(given)) => cloned(expected, given),
        _ => false,
    }
}

/// A mocked method: the `k`-th call answers with the `k`-th registered value
/// or error. It has no `Clone`: its call count belongs to it alone, and
/// copies cannot share one count here.
pub struct Method<T: Clone + std::fmt::Debug, E: Clone + std::fmt::Debug> {
    return_values: Vec<Option<T>>,
    errors: Vec<Option<E>>,
    method_name: String,
    call_number: Count,
}

impl<T: Clone + std::fmt::Debug, E: Clone + std::fmt::Debug> Method<T, E> {
    /// Values and errors are registered in pairs: at each position exactly
    /// one of the two is present.
    pub closed spec fn well_formed(&self) -> bool {
        &&& self.return_values@.len() == self.errors@.len()
        &&& forall|i: int|
            0 <= i < self.return_values@.len() ==> (#[trigger] self.return_values@[i] is Some) != (
            self.errors@[i] is Some)
    }

    /// The answers registered so far, in the order of registration.
    pub closed spec fn outcomes(&self) -> Seq<Result<T, E>> {
        Seq::new(
            self.return_values@.len(),
            |i: int| registered_outcome(self.return_values@[i], self.errors@[i]),
        )
    }

    /// How many times the method has been called.
    pub closed spec fn calls(&self) -> nat {
        self.call_number@
    }

    /// The name the method was created with.
    pub closed spec fn name(&self) -> Seq<char> {
        self.method_name@
    }

    /// Answers the current call with the registered outcome at its position
    /// and counts the call.
    fn handle_call(&mut self) -> (answer: Result<T, E>)
        requires
            old(self).well_formed(),
            old(self).calls() < old(self).outcomes().len(),
            old(self).calls() < usize::MAX,
        ensures
            final(self).well_formed(),
            final(self).outcomes() == old(self).outcomes(),
            final(self).name() == old(self).name(),
            final(self).calls() == old(self).calls() + 1,
            answers_with(old(self).outcomes()[old(self).calls() as int], answer),
    {
        let call = self.call_number.get();
        self.call_number.increment();
        match &self.return_values[call] {
            Some(value) => Ok(value.clone()),
            None => Err(self.errors[call].clone().unwrap()),
        }
    }

    /// A method with nothing registered, never called.
    pub fn new(method: &str) -> (created: Method<T, E>)
        ensures
            created.well_formed(),
            created.outcomes() == Seq::<Result<T, E>>::empty(),
            created.calls() == 0,
            created.name() == method@,
    {
        Method {
            method_name: String::from_str(method),
            return_values: Vec::new(),
            errors: Vec::new(),
            call_number: Count::new(),
        }
    }

    /// Registers `value` as the answer of the next unregistered call.
    pub fn returns_value(&mut self, value: T) -> (method: &mut Method<T, E>)
        requires
            old(self).well_formed(),
        ensures
            method.well_formed(),
            method.outcomes() == old(self).outcomes().push(Ok(value)),
            method.calls() == old(self).calls(),
            method.name() == old(self).name(),
            *final(self) == *final(method),
    {
        self.return_values.push(Some(value));
        self.errors.push(None);
        proof {
            assert(self.outcomes() =~= old(self).outcomes().push(Ok(value)));
        }
        self
    }

    /// Registers `error` as the answer of the next unregistered call.
    pub fn throws_error(&mut self, error: E) -> (method: &mut Method<T, E>)
        requires
            old(self).well_formed(),
        ensures
            method.well_formed(),
            method.outcomes() == old(self).outcomes().push(Err(error)),
            method.calls() == old(self).calls(),
            method.name() == old(self).name(),
            *final(self) == *final(method),
    {
        self.errors.push(Some(error));
        self.return_values.push(None);
        proof {
            assert(self.outcomes() =~= old(self).outcomes().push(Err(error)));
        }
        self
    }

    /// The number of calls made so far.
    pub fn times_called(&self) -> (count: usize)
        ensures
            count == self.calls(),
    {
        self.call_number.get()
    }

    /// Answers a call; see `call_mut`.
    pub fn call(&mut self) -> (answer: Result<T, E>)
        requires
            old(self).well_formed(),
            old(self).calls() < old(self).outcomes().len(),
            old(self).calls() < usize::MAX,
        ensures
            final(self).well_formed(),
            final(self).outcomes() == old(self).outcomes(),
            final(self).name() == old(self).name(),
            final(self).calls() == old(self).calls() + 1,
            answers_with(old(self).outcomes()[old(self).calls() as int], answer),
    {
        self.handle_call()
    }

    /// Answers the `k`-th call with (a clone of) the `k`-th registered value
    /// or error, and counts the call.
    pub fn call_mut(&mut self) -> (answer: Result<T, E>)
        requires
            old(self).well_formed(),
            old(self).calls() < old(self).outcomes().len(),
            old(self).calls() < usize::MAX,
        ensures
            final(self).well_formed(),
            final(self).outcomes() == old(self).outcomes(),
            final(self).name() == old(self).name(),
            final(self).calls() == old(self).calls() + 1,
            answers_with(old(self).outcomes()[old(self).calls() as int], answer),
    {
        self.handle_call()
    }
}

/// Where cloning values and errors gives back equal ones (as it does for
/// numbers), a call answers with exactly the registered value or error.
pub proof fn law_exact_clones_answer_the_registered_outcome<T: Clone, E: Clone>(
    outcome: Result<T, E>,
    answer: Result<T, E>,
)
    requires
        forall|a: T, b: T| #[trigger] cloned(a, b) ==> a == b,
        forall|a: E, b: E| #[trigger] cloned(a, b) ==> a == b,
        answers_with(outcome, answer),
    ensures
        answer == outcome,
{
}

/// Where cloning values and errors gives back equal ones, two methods with
/// the same registrations, called the same number of times, answer their
/// next calls alike (whether through `call` or `call_mut`).
pub proof fn law_same_registrations_answer_alike<T: Clone + std::fmt::Debug, E: Clone + std::fmt::Debug>(
    first: Method<T, E>,
    second: Method<T, E>,
    first_answer: Result<T, E>,
    second_answer: Result<T, E>,
)
    requires
        forall|a: T, b: T| #[trigger] cloned(a, b) ==> a == b,
        forall|a: E, b: E| #[trigger] cloned(a, b) ==> a == b,
        first.outcomes() == second.outcomes(),
        first.calls() == second.calls(),
        first.calls() < first.outcomes().len(),
        answers_with(first.outcomes()[first.calls() as int], first_answer),
        answers_with(second.outcomes()[second.calls() as int], second_answer),
    ensures
        first_answer == second_answer,
{
    law_exact_clones_answer_the_registered_outcome(first.outcomes()[first.calls() as int], first_answer);
    law_exact_clones_answer_the_registered_outcome(second.outcomes()[second.calls() as int], second_answer);
}

} // verus!
