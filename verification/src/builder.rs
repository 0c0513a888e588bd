//! What the generated uniform builder accepts.
//!
//! The builder's type has one argument for each uniform. An argument is the
//! placeholder `()` while the uniform is not set, and the uniform's value
//! type once it is. A method is offered only by the builders whose type
//! arguments fit the method's receiver, so the compiler refuses a program
//! that sets a uniform twice or draws before every uniform is set. This
//! module states that reading of the generated code and proves those two
//! refusals. The placeholder counts as different from every value type.

use vstd::prelude::*;
use crate::gen::{builder_def, BuilderDef, BuilderDefView, TypeArg, TypeArgView};
use crate::parse::InputView;

verus! {

/// The state of one uniform in a builder.
#[derive(Debug, Clone, Copy, PartialEq, Eq, Structural)]
pub enum Slot {
    /// No value yet: the type argument is the placeholder.
    Empty,
    /// A value: the type argument is the uniform's value type.
    Filled,
}

/// Whether a type argument of a method's receiver fits a uniform's state.
pub open spec fn arg_accepts(arg: TypeArgView, slot: Slot) -> bool {
    match arg {
        TypeArgView::Unit => slot is Empty,
        TypeArgView::Param(_) => true,
        TypeArgView::Concrete(_) => slot is Filled,
    }
}

/// The state that a type argument of a method's result leaves a uniform in:
/// a type parameter hands on the state that it was bound to.
pub open spec fn arg_gives(arg: TypeArgView, slot: Slot) -> Slot {
    match arg {
        TypeArgView::Unit => Slot::Empty,
        TypeArgView::Param(_) => slot,
        TypeArgView::Concrete(_) => Slot::Filled,
    }
}

/// Whether a method with the given receiver is offered by a builder in the
/// given state.
pub open spec fn accepts(receiver: Seq<TypeArgView>, state: Seq<Slot>) -> bool {
    &&& receiver.len() == state.len()
    &&& forall|j: int| 0 <= j < receiver.len() ==> arg_accepts(#[trigger] receiver[j], state[j])
}

/// The state of the builder that a method with the given result returns,
/// called on a builder in the given state.
pub open spec fn gives(result: Seq<TypeArgView>, state: Seq<Slot>) -> Seq<Slot> {
    Seq::new(result.len(), |j: int| arg_gives(result[j], state[j]))
}

impl BuilderDefView {
    /// The state of a fresh builder: no uniform is set.
    pub open spec fn fresh(self) -> Seq<Slot> {
        Seq::new(self.generics.len(), |j: int| Slot::Empty)
    }

    /// The state of the builder that starts with every uniform set to its
    /// default value.
    pub open spec fn defaults(self) -> Seq<Slot> {
        Seq::new(self.types.len(), |j: int| Slot::Filled)
    }

    /// The state after calling the setter at position `i` on a builder in
    /// the given state, or nothing where that call is not accepted.
    pub open spec fn set(self, state: Seq<Slot>, i: int) -> Option<Seq<Slot>> {
        if 0 <= i < self.setters.len() && accepts(self.setters[i].receiver, state) {
            Some(gives(self.setters[i].result, state))
        } else {
            None
        }
    }

    /// The state after a chain of setter calls on a fresh builder, each
    /// given by the position of its setter, or nothing where one of the
    /// calls is not accepted.
    pub open spec fn run(self, calls: Seq<int>) -> Option<Seq<Slot>>
        decreases calls.len(),
    {
        if calls.len() == 0 {
            Some(self.fresh())
        } else {
            match self.run(calls.drop_last()) {
                None => None,
                Some(state) => self.set(state, calls.last()),
            }
        }
    }

    /// The receiver of the draw method: every type argument is the value
    /// type of its uniform.
    pub open spec fn draw_receiver(self) -> Seq<TypeArgView> {
        Seq::new(self.types.len(), |j: int| TypeArgView::Concrete(self.types[j]))
    }

    /// Whether the draw method is offered by a builder in the given state.
    pub open spec fn can_draw(self, state: Seq<Slot>) -> bool {
        accepts(self.draw_receiver(), state)
    }
}

/// A setter is offered exactly by the builders in which its uniform is not
/// set, and sets that uniform and no other.
pub proof fn setter_sets_its_uniform(
    input: InputView,
    generics: Seq<Seq<char>>,
    state: Seq<Slot>,
    i: int,
)
    requires
        generics.len() == input.uniforms.len(),
        state.len() == input.uniforms.len(),
        0 <= i < input.uniforms.len(),
    ensures
        builder_def(input, generics).set(state, i) is Some <==> state[i] is Empty,
        state[i] is Empty ==> builder_def(input, generics).set(state, i) == Some(
            state.update(i, Slot::Filled),
        ),
{
    let def = builder_def(input, generics);
    let setter = def.setters[i];
    if state[i] is Empty {
        assert(accepts(setter.receiver, state));
        assert(gives(setter.result, state) =~= state.update(i, Slot::Filled));
    } else {
        assert(!arg_accepts(setter.receiver[i], state[i]));
    }
}

/// A builder does not accept the same setter twice in sequence: on the
/// builder that a setter has returned, that setter is not offered.
pub proof fn setter_is_not_offered_twice(
    input: InputView,
    generics: Seq<Seq<char>>,
    state: Seq<Slot>,
    i: int,
)
    requires
        generics.len() == input.uniforms.len(),
        builder_def(input, generics).set(state, i) is Some,
    ensures
        builder_def(input, generics).set(builder_def(input, generics).set(state, i)->Some_0, i)
            is None,
{
    let def = builder_def(input, generics);
    let setter = def.setters[i];
    let next = gives(setter.result, state);
    assert(next[i] is Filled);
    assert(!arg_accepts(setter.receiver[i], next[i]));
}

/// After an accepted chain of setter calls, a uniform is set exactly if its
/// setter is in the chain; every call in the chain names a setter; and no
/// setter is in the chain twice.
pub proof fn chain_sets_what_it_calls(
    input: InputView,
    generics: Seq<Seq<char>>,
    calls: Seq<int>,
)
    requires
        generics.len() == input.uniforms.len(),
        builder_def(input, generics).run(calls) is Some,
    ensures
        builder_def(input, generics).run(calls)->Some_0.len() == input.uniforms.len(),
        forall|j: int|
            0 <= j < input.uniforms.len() ==> (#[trigger] builder_def(input, generics).run(
                calls,
            )->Some_0[j] is Filled <==> calls.contains(j)),
        forall|k: int| 0 <= k < calls.len() ==> 0 <= #[trigger] calls[k] < input.uniforms.len(),
        calls.no_duplicates(),
    decreases calls.len(),
{
    let def = builder_def(input, generics);
    if calls.len() > 0 {
        let before = calls.drop_last();
        let i = calls.last();
        chain_sets_what_it_calls(input, generics, before);
        let state = def.run(before)->Some_0;
        setter_sets_its_uniform(input, generics, state, i);
        assert(def.run(calls) == Some(state.update(i, Slot::Filled)));
        assert(!before.contains(i));
        assert forall|k: int| 0 <= k < calls.len() implies 0 <= #[trigger] calls[k]
            < input.uniforms.len() by {
            if k < before.len() {
                assert(before[k] == calls[k]);
            }
        }
        assert forall|j: int| 0 <= j < input.uniforms.len() implies (#[trigger] def.run(
            calls,
        )->Some_0[j] is Filled <==> calls.contains(j)) by {
            if j == i {
                assert(calls[calls.len() - 1] == j);
            } else {
                if calls.contains(j) {
                    let k = choose|k: int| 0 <= k < calls.len() && calls[k] == j;
                    assert(before[k] == j);
                }
                if before.contains(j) {
                    let k = choose|k: int| 0 <= k < before.len() && before[k] == j;
                    assert(calls[k] == j);
                }
            }
        }
        assert forall|a: int, b: int|
            0 <= a < calls.len() && 0 <= b < calls.len() && a != b implies calls[a]
            != calls[b] by {
            if a < before.len() && b < before.len() {
                assert(before[a] != before[b]);
            } else if a < before.len() {
                assert(before[a] == calls[a]);
            } else {
                assert(before[b] == calls[b]);
            }
        }
    }
}

/// The draw method is offered only after every uniform's setter was called,
/// each exactly once: a chain that leaves out one setter ends in a builder
/// that cannot draw.
pub proof fn draw_needs_every_setter(input: InputView, generics: Seq<Seq<char>>, calls: Seq<int>)
    requires
        generics.len() == input.uniforms.len(),
        builder_def(input, generics).run(calls) is Some,
    ensures
        builder_def(input, generics).can_draw(builder_def(input, generics).run(calls)->Some_0)
            <==> (forall|j: int| 0 <= j < input.uniforms.len() ==> calls.contains(j)),
        calls.no_duplicates(),
{
    let def = builder_def(input, generics);
    let state = def.run(calls)->Some_0;
    chain_sets_what_it_calls(input, generics, calls);
    if def.can_draw(state) {
        assert forall|j: int| 0 <= j < input.uniforms.len() implies calls.contains(j) by {
            assert(arg_accepts(def.draw_receiver()[j], state[j]));
        }
    }
    if forall|j: int| 0 <= j < input.uniforms.len() ==> calls.contains(j) {
        assert forall|j: int| 0 <= j < def.draw_receiver().len() implies arg_accepts(
            #[trigger] def.draw_receiver()[j],
            state[j],
        ) by {
            assert(calls.contains(j));
        }
    }
}

/// The builder that starts with every uniform set to its default value can
/// draw at once, and offers no setter.
pub proof fn default_builder_can_draw(input: InputView, generics: Seq<Seq<char>>, i: int)
    requires
        generics.len() == input.uniforms.len(),
    ensures
        builder_def(input, generics).can_draw(builder_def(input, generics).defaults()),
        builder_def(input, generics).set(builder_def(input, generics).defaults(), i) is None,
{
    let def = builder_def(input, generics);
    if 0 <= i < def.setters.len() {
        assert(!arg_accepts(def.setters[i].receiver[i], def.defaults()[i]));
    }
}

/// Every chain that calls setters of the builder, none of them twice, is
/// accepted: the setters can be called in any order.
pub proof fn distinct_setters_are_accepted(
    input: InputView,
    generics: Seq<Seq<char>>,
    calls: Seq<int>,
)
    requires
        generics.len() == input.uniforms.len(),
        calls.no_duplicates(),
        forall|k: int| 0 <= k < calls.len() ==> 0 <= #[trigger] calls[k] < input.uniforms.len(),
    ensures
        builder_def(input, generics).run(calls) is Some,
    decreases calls.len(),
{
    let def = builder_def(input, generics);
    if calls.len() > 0 {
        let before = calls.drop_last();
        let i = calls.last();
        assert forall|a: int, b: int|
            0 <= a < before.len() && 0 <= b < before.len() && a != b implies before[a]
            != before[b] by {
            assert(calls[a] != calls[b]);
        }
        assert forall|k: int| 0 <= k < before.len() implies 0 <= #[trigger] before[k]
            < input.uniforms.len() by {
            assert(before[k] == calls[k]);
        }
        distinct_setters_are_accepted(input, generics, before);
        chain_sets_what_it_calls(input, generics, before);
        let state = def.run(before)->Some_0;
        if before.contains(i) {
            let k = choose|k: int| 0 <= k < before.len() && before[k] == i;
            assert(calls[k] == calls[calls.len() - 1]);
        }
        assert(calls[calls.len() - 1] == i);
        setter_sets_its_uniform(input, generics, state, i);
    }
}

/// The positions of the setters that a chain of calls names.
pub open spec fn positions(calls: Seq<usize>) -> Seq<int> {
    Seq::new(calls.len(), |k: int| calls[k] as int)
}

/// Tells whether a method with the given receiver is offered by a builder
/// in the given state.
pub fn is_accepted(receiver: &Vec<TypeArg>, state: &Vec<Slot>) -> (yes: bool)
    ensures
        yes == accepts(receiver.deep_view(), state@),
{
    if receiver.len() != state.len() {
        return false;
    }
    let mut j: usize = 0;
    while j < receiver.len()
        invariant
            j <= receiver.len(),
            receiver.len() == state.len(),
            forall|k: int|
                0 <= k < j ==> arg_accepts(#[trigger] receiver.deep_view()[k], state@[k]),
        decreases receiver.len() - j,
    {
        assert(receiver.deep_view()[j as int] == receiver[j as int].deep_view());
        let fits = match (&receiver[j], state[j]) {
            (TypeArg::Unit, Slot::Empty) => true,
            (TypeArg::Unit, Slot::Filled) => false,
            (TypeArg::Param(_), _) => true,
            (TypeArg::Concrete(_), Slot::Filled) => true,
            (TypeArg::Concrete(_), Slot::Empty) => false,
        };
        if !fits {
            return false;
        }
        j = j + 1;
    }
    true
}

/// Computes the state of the builder that a method with the given result
/// returns, called on a builder in the given state.
pub fn state_after(result: &Vec<TypeArg>, state: &Vec<Slot>) -> (next: Vec<Slot>)
    requires
        result.len() == state.len(),
    ensures
        next@ == gives(result.deep_view(), state@),
{
    let mut next: Vec<Slot> = Vec::new();
    let mut j: usize = 0;
    while j < result.len()
        invariant
            j <= result.len(),
            result.len() == state.len(),
            next.len() == j,
            forall|k: int|
                0 <= k < j ==> #[trigger] next[k] == arg_gives(result.deep_view()[k], state@[k]),
        decreases result.len() - j,
    {
        assert(result.deep_view()[j as int] == result[j as int].deep_view());
        let slot = match &result[j] {
            TypeArg::Unit => Slot::Empty,
            TypeArg::Param(_) => state[j],
            TypeArg::Concrete(_) => Slot::Filled,
        };
        next.push(slot);
        j = j + 1;
    }
    assert(next@ =~= gives(result.deep_view(), state@));
    next
}

impl BuilderDef {
    /// The state of a fresh builder: no uniform is set.
    pub fn fresh(&self) -> (state: Vec<Slot>)
        ensures
            state@ == self.deep_view().fresh(),
    {
        let mut state: Vec<Slot> = Vec::new();
        let mut j: usize = 0;
        while j < self.generics.len()
            invariant
                j <= self.generics.len(),
                state.len() == j,
                forall|k: int| 0 <= k < j ==> #[trigger] state[k] == Slot::Empty,
            decreases self.generics.len() - j,
        {
            state.push(Slot::Empty);
            j = j + 1;
        }
        assert(state@ =~= self.deep_view().fresh());
        state
    }

    /// The state of the builder that starts with every uniform set to its
    /// default value.
    pub fn defaults(&self) -> (state: Vec<Slot>)
        ensures
            state@ == self.deep_view().defaults(),
    {
        let mut state: Vec<Slot> = Vec::new();
        let mut j: usize = 0;
        while j < self.types.len()
            invariant
                j <= self.types.len(),
                state.len() == j,
                forall|k: int| 0 <= k < j ==> #[trigger] state[k] == Slot::Filled,
            decreases self.types.len() - j,
        {
            state.push(Slot::Filled);
            j = j + 1;
        }
        assert(state@ =~= self.deep_view().defaults());
        state
    }

    /// Calls the setter at position `i` on a builder in the given state:
    /// the state of the builder that the call returns, or nothing where the
    /// call is not accepted.
    pub fn set(&self, state: &Vec<Slot>, i: usize) -> (next: Option<Vec<Slot>>)
        requires
            self.deep_view().well_formed(),
        ensures
            match next {
                Some(after) => self.deep_view().set(state@, i as int) == Some(after@),
                None => self.deep_view().set(state@, i as int) is None,
            },
    {
        if i >= self.setters.len() {
            return None;
        }
        let setter = &self.setters[i];
        assert(self.deep_view().setters[i as int] == setter.deep_view());
        assert(setter.deep_view().receiver.len() == setter.receiver.len());
        assert(setter.deep_view().result.len() == setter.result.len());
        if is_accepted(&setter.receiver, state) {
            Some(state_after(&setter.result, state))
        } else {
            None
        }
    }

    /// Follows a chain of setter calls on a fresh builder: the state of the
    /// builder that the last call returns, or nothing where one of the
    /// calls is not accepted.
    pub fn run(&self, calls: &Vec<usize>) -> (last: Option<Vec<Slot>>)
        requires
            self.deep_view().well_formed(),
        ensures
            match last {
                Some(state) => self.deep_view().run(positions(calls@)) == Some(state@),
                None => self.deep_view().run(positions(calls@)) is None,
            },
    {
        let ghost all = positions(calls@);
        let mut state = self.fresh();
        let mut k: usize = 0;
        assert(all.take(0) =~= Seq::<int>::empty());
        while k < calls.len()
            invariant
                k <= calls.len(),
                all == positions(calls@),
                self.deep_view().well_formed(),
                self.deep_view().run(all.take(k as int)) == Some(state@),
            decreases calls.len() - k,
        {
            proof {
                assert(all.take(k + 1).drop_last() =~= all.take(k as int));
                assert(all.take(k + 1).last() == calls[k as int] as int);
            }
            match self.set(&state, calls[k]) {
                Some(next) => {
                    state = next;
                },
                None => {
                    proof {
                        run_stays_refused(self.deep_view(), all, k + 1);
                    }
                    return None;
                },
            }
            k = k + 1;
        }
        proof {
            assert(all.take(calls.len() as int) =~= all);
        }
        Some(state)
    }

    /// Tells whether the draw method is offered by a builder in the given
    /// state.
    pub fn can_draw(&self, state: &Vec<Slot>) -> (yes: bool)
        ensures
            yes == self.deep_view().can_draw(state@),
    {
        let ghost receiver = self.deep_view().draw_receiver();
        if self.types.len() != state.len() {
            return false;
        }
        let mut j: usize = 0;
        while j < state.len()
            invariant
                j <= state.len(),
                self.types.len() == state.len(),
                receiver == self.deep_view().draw_receiver(),
                forall|k: int| 0 <= k < j ==> arg_accepts(#[trigger] receiver[k], state@[k]),
            decreases state.len() - j,
        {
            match state[j] {
                Slot::Filled => {},
                Slot::Empty => {
                    assert(!arg_accepts(receiver[j as int], state@[j as int]));
                    return false;
                },
            }
            j = j + 1;
        }
        true
    }
}

/// A chain of which a beginning is not accepted is not accepted.
pub proof fn run_stays_refused(def: BuilderDefView, calls: Seq<int>, n: int)
    requires
        0 <= n <= calls.len(),
        def.run(calls.take(n)) is None,
    ensures
        def.run(calls) is None,
    decreases calls.len() - n,
{
    if n < calls.len() {
        assert(calls.take(n + 1).drop_last() =~= calls.take(n));
        run_stays_refused(def, calls, n + 1);
    } else {
        assert(calls.take(n) =~= calls);
    }
}

} // verus!
