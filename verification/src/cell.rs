//! The process-wide slot that holds the one pool.
//!
//! A [`GlobalPoolCell`] decides; it neither constructs nor waits. Each caller
//! that holds the cell (under whatever lock the program keeps it) asks what to
//! do, and the cell answers from its state alone. The caller that is told to
//! construct does so outside the cell and reports back with
//! [`GlobalPoolCell::complete`].
//!
//! A cell is filled in one of two ways. A lazy cell hands the duty to
//! construct to the first caller of [`GlobalPoolCell::access`]; later callers
//! wait until that one has reported. An eager cell is filled by a boot step,
//! [`GlobalPoolCell::begin_boot`], before any access; an access that comes
//! first, and a second boot, are mistakes of the program, and the cell says so.
//!
//! Construction is tried once. A cell whose construction failed keeps the
//! error and hands it to every later caller.

use vstd::prelude::*;

verus! {

/// When the pool of a cell is constructed.
#[derive(Clone, Copy, Debug, PartialEq, Eq, Structural)]
pub enum Strategy {
    /// By an explicit boot step, before the first access.
    Eager,
    /// By the first access.
    Lazy,
}

/// What a cell holds.
pub enum Lifecycle<P, E> {
    /// Nothing, and nobody is constructing.
    Empty,
    /// Nothing yet; one caller is constructing.
    Initializing,
    /// The pool.
    Ready(P),
    /// The error that construction ended with.
    Failed(E),
}

/// What a caller of the accessor has to do.
#[derive(Clone, Copy, Debug, PartialEq, Eq, Structural)]
pub enum Decision {
    /// Construct the pool and report the outcome. Given to one caller only.
    Initialize,
    /// Another caller is constructing: wait for its report, then ask again.
    Wait,
    /// The pool is there: take it.
    Ready,
    /// Construction failed: take the error.
    Failed,
    /// An eager cell was accessed before its boot step had finished.
    NotBooted,
}

/// Why a boot step was refused.
#[derive(Clone, Copy, Debug, PartialEq, Eq, Structural)]
pub enum BootError {
    /// The cell was booted, or accessed, before.
    AlreadyBooted,
}

/// What can happen to a cell.
pub enum Event<P, E> {
    /// A caller asks for the pool.
    Access,
    /// The process driver starts the boot step.
    Boot,
    /// The caller that was constructing reports its outcome.
    Completed(Result<P, E>),
}

/// The answer that a cell in state `s` gives to an access.
pub open spec fn decision<P, E>(strategy: Strategy, s: Lifecycle<P, E>) -> Decision {
    match s {
        Lifecycle::Ready(_) => Decision::Ready,
        Lifecycle::Failed(_) => Decision::Failed,
        Lifecycle::Initializing => match strategy {
            Strategy::Lazy => Decision::Wait,
            Strategy::Eager => Decision::NotBooted,
        },
        Lifecycle::Empty => match strategy {
            Strategy::Lazy => Decision::Initialize,
            Strategy::Eager => Decision::NotBooted,
        },
    }
}

/// The event hands the duty to construct to whoever raised it.
pub open spec fn starts_construction<P, E>(
    strategy: Strategy,
    s: Lifecycle<P, E>,
    e: Event<P, E>,
) -> bool {
    s is Empty && match e {
        Event::Access => strategy == Strategy::Lazy,
        Event::Boot => true,
        Event::Completed(_) => false,
    }
}

/// The state that follows `s` on the event `e`. An event that does not apply
/// (a report while nobody constructs, a boot of a cell that is not empty)
/// leaves the state as it is.
pub open spec fn next<P, E>(strategy: Strategy, s: Lifecycle<P, E>, e: Event<P, E>) -> Lifecycle<
    P,
    E,
> {
    match e {
        Event::Access | Event::Boot => if starts_construction(strategy, s, e) {
            Lifecycle::Initializing
        } else {
            s
        },
        Event::Completed(outcome) => match s {
            Lifecycle::Initializing => match outcome {
                Ok(pool) => Lifecycle::Ready(pool),
                Err(error) => Lifecycle::Failed(error),
            },
            _ => s,
        },
    }
}

/// The state of a cell that started in `s` and saw `events` in order.
pub open spec fn run<P, E>(strategy: Strategy, s: Lifecycle<P, E>, events: Seq<Event<P, E>>)
    -> Lifecycle<P, E>
    decreases events.len(),
{
    if events.len() == 0 {
        s
    } else {
        next(strategy, run(strategy, s, events.drop_last()), events.last())
    }
}

/// How often, over `events`, a cell that started in `s` handed out the duty
/// to construct.
pub open spec fn constructions<P, E>(
    strategy: Strategy,
    s: Lifecycle<P, E>,
    events: Seq<Event<P, E>>,
) -> nat
    decreases events.len(),
{
    if events.len() == 0 {
        0
    } else {
        let before = run(strategy, s, events.drop_last());
        let here: nat = if starts_construction(strategy, before, events.last()) {
            1
        } else {
            0
        };
        constructions(strategy, s, events.drop_last()) + here
    }
}

/// The slot of a process for its one pool of type `P`, or for the error `E`
/// that its construction ended with.
pub struct GlobalPoolCell<P, E> {
    strategy: Strategy,
    state: Lifecycle<P, E>,
}

impl<P, E> GlobalPoolCell<P, E> {
    /// What the cell holds.
    pub closed spec fn state(&self) -> Lifecycle<P, E> {
        self.state
    }

    /// How the cell is filled.
    pub closed spec fn strategy_of(&self) -> Strategy {
        self.strategy
    }

    /// An empty cell.
    pub fn new(strategy: Strategy) -> (cell: Self)
        ensures
            cell.state() is Empty,
            cell.strategy_of() == strategy,
    {
        GlobalPoolCell { strategy, state: Lifecycle::Empty }
    }

    /// How the cell is filled.
    pub fn strategy(&self) -> (s: Strategy)
        ensures
            s == self.strategy_of(),
    {
        self.strategy
    }

    /// Tells a caller of the accessor what to do. The first access to an
    /// empty lazy cell is told to construct, and the cell counts as being
    /// constructed from then on.
    pub fn access(&mut self) -> (d: Decision)
        ensures
            d == decision(old(self).strategy_of(), old(self).state()),
            final(self).state() == next(
                old(self).strategy_of(),
                old(self).state(),
                Event::Access,
            ),
            final(self).strategy_of() == old(self).strategy_of(),
    {
        let lazy = match self.strategy {
            Strategy::Lazy => true,
            Strategy::Eager => false,
        };
        match &self.state {
            Lifecycle::Ready(_) => Decision::Ready,
            Lifecycle::Failed(_) => Decision::Failed,
            Lifecycle::Initializing => if lazy {
                Decision::Wait
            } else {
                Decision::NotBooted
            },
            Lifecycle::Empty => if lazy {
                self.state = Lifecycle::Initializing;
                Decision::Initialize
            } else {
                Decision::NotBooted
            },
        }
    }

    /// Starts the boot step. On an empty cell the caller is to construct the
    /// pool and report the outcome; on any other cell the step is refused and
    /// the cell stays as it is.
    pub fn begin_boot(&mut self) -> (r: Result<(), BootError>)
        ensures
            r is Ok <==> old(self).state() is Empty,
            r is Err ==> r == Err::<(), BootError>(BootError::AlreadyBooted),
            final(self).state() == next(old(self).strategy_of(), old(self).state(), Event::Boot),
            final(self).strategy_of() == old(self).strategy_of(),
    {
        match &self.state {
            Lifecycle::Empty => {
                self.state = Lifecycle::Initializing;
                Ok(())
            },
            _ => Err(BootError::AlreadyBooted),
        }
    }

    /// Records the outcome of the construction that this cell asked for.
    pub fn complete(&mut self, outcome: Result<P, E>)
        requires
            old(self).state() is Initializing,
        ensures
            final(self).state() == next(
                old(self).strategy_of(),
                old(self).state(),
                Event::Completed(outcome),
            ),
            outcome matches Ok(pool) ==> final(self).state() == Lifecycle::<P, E>::Ready(pool),
            outcome matches Err(error) ==> final(self).state() == Lifecycle::<P, E>::Failed(error),
            final(self).strategy_of() == old(self).strategy_of(),
    {
        match outcome {
            Ok(pool) => {
                self.state = Lifecycle::Ready(pool);
            },
            Err(error) => {
                self.state = Lifecycle::Failed(error);
            },
        }
    }

    /// Whether a caller is constructing the pool of this cell.
    pub fn is_initializing(&self) -> (b: bool)
        ensures
            b == (self.state() is Initializing),
    {
        match &self.state {
            Lifecycle::Initializing => true,
            _ => false,
        }
    }

    /// The pool, once the cell is ready.
    pub fn get(&self) -> (r: Option<&P>)
        ensures
            match r {
                Some(pool) => self.state() == Lifecycle::<P, E>::Ready(*pool),
                None => !(self.state() is Ready),
            },
    {
        match &self.state {
            Lifecycle::Ready(pool) => Some(pool),
            _ => None,
        }
    }

    /// The error, once construction has failed.
    pub fn failure(&self) -> (r: Option<&E>)
        ensures
            match r {
                Some(error) => self.state() == Lifecycle::<P, E>::Failed(*error),
                None => !(self.state() is Failed),
            },
    {
        match &self.state {
            Lifecycle::Failed(error) => Some(error),
            _ => None,
        }
    }
}

/// Running over `events` and then over one more event is one step from where
/// `events` led.
pub proof fn lemma_run_push<P, E>(
    strategy: Strategy,
    s: Lifecycle<P, E>,
    events: Seq<Event<P, E>>,
    e: Event<P, E>,
)
    ensures
        run(strategy, s, events.push(e)) == next(strategy, run(strategy, s, events), e),
        constructions(strategy, s, events.push(e)) == constructions(strategy, s, events) + (
        if starts_construction(strategy, run(strategy, s, events), e) {
            1nat
        } else {
            0nat
        }),
{
    assert(events.push(e).drop_last() =~= events);
    assert(events.push(e).last() == e);
}

/// Running over two traces in a row is running over the second from where
/// the first led.
pub proof fn lemma_run_concat<P, E>(
    strategy: Strategy,
    s: Lifecycle<P, E>,
    first: Seq<Event<P, E>>,
    second: Seq<Event<P, E>>,
)
    ensures
        run(strategy, s, first + second) == run(strategy, run(strategy, s, first), second),
        constructions(strategy, s, first + second) == constructions(strategy, s, first)
            + constructions(strategy, run(strategy, s, first), second),
    decreases second.len(),
{
    if second.len() == 0 {
        assert(first + second =~= first);
    } else {
        lemma_run_concat(strategy, s, first, second.drop_last());
        assert((first + second).drop_last() =~= first + second.drop_last());
        assert((first + second).last() == second.last());
    }
}

/// A cell that is not empty never becomes empty again, and never again hands
/// out the duty to construct.
pub proof fn lemma_filled_stays_filled<P, E>(
    strategy: Strategy,
    s: Lifecycle<P, E>,
    events: Seq<Event<P, E>>,
)
    requires
        !(s is Empty),
    ensures
        !(run(strategy, s, events) is Empty),
        constructions(strategy, s, events) == 0,
    decreases events.len(),
{
    if events.len() > 0 {
        lemma_filled_stays_filled(strategy, s, events.drop_last());
    }
}

/// Construction happens at most once: whatever callers do and in whatever
/// order, a cell hands out the duty to construct once if it was empty and has
/// left that state, and never otherwise.
pub proof fn lemma_single_construction<P, E>(
    strategy: Strategy,
    s: Lifecycle<P, E>,
    events: Seq<Event<P, E>>,
)
    ensures
        constructions(strategy, s, events) <= 1,
        constructions(strategy, s, events) == 1 <==> s is Empty && !(run(strategy, s, events)
            is Empty),
    decreases events.len(),
{
    if !(s is Empty) {
        lemma_filled_stays_filled(strategy, s, events);
    } else if events.len() > 0 {
        lemma_single_construction(strategy, s, events.drop_last());
    }
}

/// On a cold lazy cell, a trace that holds an access at all leads to exactly
/// one construction.
pub proof fn lemma_lazy_constructs_exactly_once<P, E>(events: Seq<Event<P, E>>, i: int)
    requires
        0 <= i < events.len(),
        events[i] is Access,
    ensures
        constructions(Strategy::Lazy, Lifecycle::<P, E>::Empty, events) == 1,
{
    let cold = Lifecycle::<P, E>::Empty;
    let head = events.subrange(0, i);
    let tail = events.subrange(i + 1, events.len() as int);
    let upto = head.push(events[i]);
    assert(events =~= upto + tail);
    lemma_run_push(Strategy::Lazy, cold, head, events[i]);
    assert(!(run(Strategy::Lazy, cold, upto) is Empty));
    lemma_run_concat(Strategy::Lazy, cold, upto, tail);
    lemma_filled_stays_filled(Strategy::Lazy, run(Strategy::Lazy, cold, upto), tail);
    lemma_single_construction(Strategy::Lazy, cold, events);
}

/// A ready cell stays ready, with the pool it has.
pub proof fn lemma_ready_is_final<P, E>(strategy: Strategy, pool: P, events: Seq<Event<P, E>>)
    ensures
        run(strategy, Lifecycle::<P, E>::Ready(pool), events) == Lifecycle::<P, E>::Ready(pool),
    decreases events.len(),
{
    if events.len() > 0 {
        lemma_ready_is_final(strategy, pool, events.drop_last());
    }
}

/// A failed cell stays failed, with the error it has: construction is not
/// tried again.
pub proof fn lemma_failed_is_final<P, E>(strategy: Strategy, error: E, events: Seq<Event<P, E>>)
    ensures
        run(strategy, Lifecycle::<P, E>::Failed(error), events) == Lifecycle::<P, E>::Failed(
            error,
        ),
    decreases events.len(),
{
    if events.len() > 0 {
        lemma_failed_is_final(strategy, error, events.drop_last());
    }
}

/// All callers see one pool: if a cell is ready after `i` events and ready
/// after `j` events of one trace, it holds the same pool both times.
pub proof fn lemma_one_pool<P, E>(
    strategy: Strategy,
    s: Lifecycle<P, E>,
    events: Seq<Event<P, E>>,
    i: int,
    j: int,
)
    requires
        0 <= i <= j <= events.len(),
        run(strategy, s, events.subrange(0, i)) is Ready,
    ensures
        run(strategy, s, events.subrange(0, j)) == run(strategy, s, events.subrange(0, i)),
{
    let early = events.subrange(0, i);
    let between = events.subrange(i, j);
    assert(events.subrange(0, j) =~= early + between);
    lemma_run_concat(strategy, s, early, between);
    let at_i = run(strategy, s, early);
    lemma_ready_is_final(strategy, at_i->Ready_0, between);
}

/// `events[i]` reports the construction of `pool`, to a cell that started
/// empty, had handed out the duty to construct once, and was waiting for the
/// report.
pub open spec fn reports_construction<P, E>(
    strategy: Strategy,
    events: Seq<Event<P, E>>,
    i: int,
    pool: P,
) -> bool {
    &&& 0 <= i < events.len()
    &&& events[i] == Event::<P, E>::Completed(Ok(pool))
    &&& run(strategy, Lifecycle::<P, E>::Empty, events.subrange(0, i)) is Initializing
    &&& constructions(strategy, Lifecycle::<P, E>::Empty, events.subrange(0, i)) == 1
}

/// Construction comes before use: a cell that started empty holds a pool only
/// if some caller was told to construct and has reported that very pool.
pub proof fn lemma_ready_follows_construction<P, E>(strategy: Strategy, events: Seq<Event<P, E>>)
    requires
        run(strategy, Lifecycle::<P, E>::Empty, events) is Ready,
    ensures
        exists|i: int| #[trigger]
            reports_construction(
                strategy,
                events,
                i,
                run(strategy, Lifecycle::<P, E>::Empty, events)->Ready_0,
            ),
    decreases events.len(),
{
    let cold = Lifecycle::<P, E>::Empty;
    let pool = run(strategy, cold, events)->Ready_0;
    let earlier = events.drop_last();
    if run(strategy, cold, earlier) is Ready {
        lemma_ready_follows_construction(strategy, earlier);
        let i = choose|i: int| #[trigger]
            reports_construction(strategy, earlier, i, run(strategy, cold, earlier)->Ready_0);
        assert(earlier.subrange(0, i) =~= events.subrange(0, i));
        assert(reports_construction(strategy, events, i, pool));
    } else {
        let i = events.len() - 1;
        assert(events.subrange(0, i) =~= earlier);
        lemma_single_construction(strategy, cold, earlier);
        assert(reports_construction(strategy, events, i, pool));
    }
}

/// A cell is booted at most once: after a boot step, whatever happens next,
/// the cell is not empty, so that every further boot step is refused.
pub proof fn lemma_second_boot_is_refused<P, E>(
    strategy: Strategy,
    s: Lifecycle<P, E>,
    events: Seq<Event<P, E>>,
)
    ensures
        !(run(strategy, next(strategy, s, Event::Boot), events) is Empty),
        !starts_construction(
            strategy,
            run(strategy, next(strategy, s, Event::Boot), events),
            Event::<P, E>::Boot,
        ),
        next(strategy, run(strategy, next(strategy, s, Event::Boot), events), Event::Boot) == run(
            strategy,
            next(strategy, s, Event::Boot),
            events,
        ),
{
    lemma_filled_stays_filled(strategy, next(strategy, s, Event::Boot), events);
}

/// An eager cell never tells an access to construct or to wait, and an access
/// leaves it as it is: only a boot step fills it.
pub proof fn lemma_eager_access_never_constructs<P, E>(s: Lifecycle<P, E>)
    ensures
        decision(Strategy::Eager, s) != Decision::Initialize,
        decision(Strategy::Eager, s) != Decision::Wait,
        next(Strategy::Eager, s, Event::Access) == s,
{
}


} // verus!
