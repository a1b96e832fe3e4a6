//! Waiting until each of a set of expected messages has arrived once.
use vstd::prelude::*;
use vstd::std_specs::cmp::PartialEqSpec;

verus! {

/// Index of the first expected message that is still awaited and equal to
/// `x`, or the length where there is none.
pub open spec fn first_open_match<T: PartialEq>(states: Seq<T>, open: Seq<bool>, x: T) -> int
    decreases states.len(),
{
    if states.len() == 0 || open.len() == 0 {
        0
    } else if open[0] && states[0].eq_spec(&x) {
        0
    } else {
        1 + first_open_match(states.skip(1), open.skip(1), x)
    }
}

/// The flags after `x` has arrived: the first awaited message equal to `x`
/// is awaited no longer, and nothing changes where there is none.
pub open spec fn after_arrival<T: PartialEq>(states: Seq<T>, open: Seq<bool>, x: T) -> Seq<bool> {
    let i = first_open_match(states, open, x);
    if i < open.len() {
        open.update(i, false)
    } else {
        open
    }
}

/// No message is awaited any more.
pub open spec fn all_closed(open: Seq<bool>) -> bool {
    forall|i: int| 0 <= i < open.len() ==> !#[trigger] open[i]
}

/// The position `first_open_match` names is the first awaited message equal
/// to `x`: no earlier one is, and the one there is unless the position is the
/// length.
pub proof fn lemma_first_open_match<T: PartialEq>(states: Seq<T>, open: Seq<bool>, x: T)
    requires
        states.len() == open.len(),
    ensures
        0 <= first_open_match(states, open, x) <= open.len(),
        forall|j: int|
            0 <= j < first_open_match(states, open, x) ==> !(#[trigger] open[j]
                && states[j].eq_spec(&x)),
        first_open_match(states, open, x) < open.len() ==> open[first_open_match(states, open, x)]
            && states[first_open_match(states, open, x)].eq_spec(&x),
    decreases states.len(),
{
    if states.len() != 0 && !(open[0] && states[0].eq_spec(&x)) {
        let rest = states.skip(1);
        let flags = open.skip(1);
        lemma_first_open_match(rest, flags, x);
        let k = first_open_match(rest, flags, x);
        assert forall|j: int| 0 <= j < 1 + k implies !(#[trigger] open[j] && states[j].eq_spec(
            &x,
        )) by {
            if j > 0 {
                assert(rest[j - 1] == states[j]);
                assert(flags[j - 1] == open[j]);
            }
        }
        if k < rest.len() {
            assert(rest[k] == states[k + 1]);
            assert(flags[k] == open[k + 1]);
        }
    }
}

/// A position that satisfies what `lemma_first_open_match` states is the one
/// `first_open_match` names.
pub proof fn lemma_first_open_match_unique<T: PartialEq>(
    states: Seq<T>,
    open: Seq<bool>,
    x: T,
    i: int,
)
    requires
        states.len() == open.len(),
        0 <= i <= open.len(),
        forall|j: int| 0 <= j < i ==> !(#[trigger] open[j] && states[j].eq_spec(&x)),
        i < open.len() ==> open[i] && states[i].eq_spec(&x),
    ensures
        i == first_open_match(states, open, x),
{
    lemma_first_open_match(states, open, x);
    let k = first_open_match(states, open, x);
    if k < i {
        assert(!(open[k] && states[k].eq_spec(&x)));
    }
    if i < k {
        assert(!(open[i] && states[i].eq_spec(&x)));
    }
}

/// A wait for a set of expected messages, each to arrive once. Messages that
/// are not awaited, or no longer, are passed over.
pub struct StateWait<T, const N: usize> {
    states: [T; N],
    open: [bool; N],
}

impl<T, const N: usize> StateWait<T, N> {
    /// The expected messages.
    pub closed spec fn states(&self) -> Seq<T> {
        self.states@
    }

    /// For each expected message, whether it is still awaited.
    pub closed spec fn open(&self) -> Seq<bool> {
        self.open@
    }

    /// There are as many flags as expected messages.
    pub proof fn lemma_lengths(&self)
        ensures
            self.states().len() == N,
            self.open().len() == N,
    {
    }
}

impl<T: PartialEq, const N: usize> StateWait<T, N> {
    /// A wait for the messages in `states`, all of them still to arrive.
    pub fn new(states: [T; N]) -> (r: Self)
        ensures
            r.states() == states@,
            r.open().len() == N,
            forall|i: int| 0 <= i < N ==> #[trigger] r.open()[i],
    {
        StateWait { states, open: [true;N] }
    }

    /// Records the arrival of `x` and says whether the wait is now over.
    pub fn observe(&mut self, x: &T) -> (done: bool)
        requires
            T::obeys_eq_spec(),
        ensures
            final(self).states() == old(self).states(),
            final(self).open() == after_arrival(old(self).states(), old(self).open(), *x),
            done == all_closed(final(self).open()),
    {
        let mut i: usize = 0;
        while i < N
            invariant
                i <= N,
                self.states@ == old(self).states@,
                self.open@ == old(self).open@,
                T::obeys_eq_spec(),
                forall|j: int|
                    0 <= j < i ==> !(#[trigger] self.open@[j] && self.states@[j].eq_spec(x)),
            ensures
                i < N ==> self.open@[i as int] && self.states@[i as int].eq_spec(x),
            decreases N - i,
        {
            if self.open[i] && self.states[i] == *x {
                break ;
            }
            i = i + 1;
        }
        proof {
            lemma_first_open_match_unique(self.states@, self.open@, *x, i as int);
        }
        if i < N {
            self.open[i] = false;
        }
        self.is_complete()
    }

    /// Whether every expected message has arrived.
    pub fn is_complete(&self) -> (done: bool)
        ensures
            done == all_closed(self.open()),
    {
        let mut i: usize = 0;
        while i < N
            invariant
                i <= N,
                forall|j: int| 0 <= j < i ==> !#[trigger] self.open@[j],
            decreases N - i,
        {
            if self.open[i] {
                return false;
            }
            i = i + 1;
        }
        true
    }

    /// Hands the expected messages back, as they were given.
    pub fn into_states(self) -> (r: [T; N])
        ensures
            r@ == self.states(),
    {
        self.states
    }
}

} // verus!
