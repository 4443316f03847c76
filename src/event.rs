//! Sources of data, and the decisions of the combinators that connect them
//! to sinks.
//!
//! Waiting for the next element of a source and running a sink are
//! asynchronous and belong to the runtime; what a source hands out before any
//! wait, and what becomes of the outcome of a race, is decided here.
use vstd::prelude::*;
use vstd::std_specs::convert::FromSpec;

verus! {

/// The outcome of racing two waits: which of the two finished first, with
/// its value.
#[derive(PartialEq, Eq, Structural, Debug)]
pub enum Either<A, B> {
    First(A),
    Second(B),
}

/// A source of data: an optional element available at once, before the
/// first wait for the next one.
pub trait Event: Sized {
    type Data;

    /// Whether `initial_spec` describes `initial`: it does for a source that
    /// states its `initial_spec`, wherever the conversions between element
    /// types that the source makes behave as their `From` specifications
    /// say. A source that states nothing keeps this default.
    open spec fn conversions_obey() -> bool {
        false
    }

    /// What `initial` hands out from this state, and the state it leaves.
    open spec fn initial_spec(self) -> (Option<Self::Data>, Self) {
        (None, self)
    }

    /// The element available before any wait, if there is one.
    fn initial(&mut self) -> (r: Option<Self::Data>)
        ensures
            Self::conversions_obey() ==> (r, *final(self)) == old(self).initial_spec(),
    ;
}

/// Runs each element of a source through a sink, one at a time: the next
/// element is fetched only once the sink has finished with the previous one.
pub struct ConnectionConsistent<Ev, Hn> {
    pub event: Ev,
    pub handler: Hn,
}

impl<Ev: Event, Hn> ConnectionConsistent<Ev, Hn> {
    pub fn new(event: Ev, handler: Hn) -> (r: Self)
        ensures
            r.event == event,
            r.handler == handler,
    {
        Self { event, handler }
    }
}

/// Runs each element of a source through a sink, where an element that
/// arrives while the sink still works on the previous one abandons that work.
pub struct ConnectionInterrupting<Ev, Hn> {
    pub event: Ev,
    pub handler: Hn,
}

impl<Ev: Event, Hn> ConnectionInterrupting<Ev, Hn> {
    pub fn new(event: Ev, handler: Hn) -> (r: Self)
        ensures
            r.event == event,
            r.handler == handler,
    {
        Self { event, handler }
    }
}

/// The element pending after racing the source's next element against the
/// sink's work on the pending one: a new element replaces it (the sink's work
/// is abandoned); the sink finishing first leaves nothing pending.
pub fn next_pending<D>(outcome: Either<D, ()>) -> (r: Option<D>)
    ensures
        match outcome {
            Either::First(d) => r == Some(d),
            Either::Second(_) => r is None,
        },
{
    match outcome {
        Either::First(d) => Some(d),
        Either::Second(_) => None,
    }
}

/// Two sources merged into one: whichever hands out an element first wins,
/// and the second source's elements are converted into the first's type.
pub struct JoinEvent<Ev1, Ev2> {
    pub ev1: Ev1,
    pub ev2: Ev2,
}

impl<Ev1: Event, Ev2: Event> JoinEvent<Ev1, Ev2> {
    pub fn new(ev1: Ev1, ev2: Ev2) -> (r: Self)
        ensures
            r.ev1 == ev1,
            r.ev2 == ev2,
    {
        Self { ev1, ev2 }
    }
}

/// The element of a merged source after a race of its two sources' next
/// elements: the first's as it is, the second's converted.
pub fn join_outcome<D1: From<D2>, D2>(outcome: Either<D1, D2>) -> (r: D1)
    ensures
        match outcome {
            Either::First(d) => r == d,
            Either::Second(d) => D1::obeys_from_spec() ==> r == D1::from_spec(d),
        },
{
    match outcome {
        Either::First(d) => d,
        Either::Second(d) => D1::from(d),
    }
}

impl<Ev1: Event, Ev2: Event> Event for JoinEvent<Ev1, Ev2> where Ev1::Data: From<Ev2::Data> {
    type Data = Ev1::Data;

    open spec fn conversions_obey() -> bool {
        &&& Ev1::conversions_obey()
        &&& Ev2::conversions_obey()
        &&& <Ev1::Data as FromSpec<Ev2::Data>>::obeys_from_spec()
    }

    /// Both sources hand out their initial elements at once; the first
    /// source's is preferred, and only where it has none is the second's
    /// taken, converted.
    open spec fn initial_spec(self) -> (Option<Ev1::Data>, Self) {
        let (o1, e1) = self.ev1.initial_spec();
        let (o2, e2) = self.ev2.initial_spec();
        let r = match o1 {
            Some(d) => Some(d),
            None => match o2 {
                Some(d2) => Some(<Ev1::Data as FromSpec<Ev2::Data>>::from_spec(d2)),
                None => None,
            },
        };
        (r, JoinEvent { ev1: e1, ev2: e2 })
    }

    /// The first source's initial element; only where it has none, the
    /// second's, converted. Both sources are asked once, so a second call
    /// on one-shot sources hands out nothing.
    fn initial(&mut self) -> (r: Option<Ev1::Data>) {
        let d1 = self.ev1.initial();
        let d2 = self.ev2.initial();
        match d1 {
            Some(d) => Some(d),
            None => match d2 {
                Some(d2) => Some(Ev1::Data::from(d2)),
                None => None,
            },
        }
    }
}

/// One element handed to two sinks, to the first and then, converted, to the
/// second.
pub struct JoinHandler<Hn1, Hn2> {
    pub ev1: Hn1,
    pub ev2: Hn2,
}

impl<Hn1, Hn2> JoinHandler<Hn1, Hn2> {
    pub fn new(ev1: Hn1, ev2: Hn2) -> (r: Self)
        ensures
            r.ev1 == ev1,
            r.ev2 == ev2,
    {
        Self { ev1, ev2 }
    }
}

/// Merging keeps initial elements one-shot: where each source hands out
/// nothing from the state its first `initial` leaves, neither does the
/// merged source.
pub proof fn lemma_join_initial_one_shot<Ev1: Event, Ev2: Event>(j: JoinEvent<Ev1, Ev2>) where
    Ev1::Data: From<Ev2::Data>,

    requires
        j.ev1.initial_spec().1.initial_spec().0 is None,
        j.ev2.initial_spec().1.initial_spec().0 is None,
    ensures
        j.initial_spec().1.initial_spec().0 is None,
{
}

} // verus!
