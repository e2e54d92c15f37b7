//! The bookkeeping of delivering a batch of IBC messages: the events and
//! log lines of the messages handled, and the errors of the others, each
//! in the order of the messages.
use vstd::prelude::*;

verus! {

/// The outcome of handling one message: its events and log lines, or its error.
pub type Outcome<E, Er> = Result<(Vec<E>, Vec<String>), Er>;

/// The events of the handled messages, in order.
pub open spec fn events_of<E, Er>(outcomes: Seq<Outcome<E, Er>>) -> Seq<E>
    decreases outcomes.len(),
{
    if outcomes.len() == 0 {
        Seq::empty()
    } else {
        events_of(outcomes.drop_last()) + match outcomes.last() {
            Ok((events, _)) => events@,
            Err(_) => Seq::empty(),
        }
    }
}

/// The log lines of the handled messages, in order.
pub open spec fn logs_of<E, Er>(outcomes: Seq<Outcome<E, Er>>) -> Seq<String>
    decreases outcomes.len(),
{
    if outcomes.len() == 0 {
        Seq::empty()
    } else {
        logs_of(outcomes.drop_last()) + match outcomes.last() {
            Ok((_, logs)) => logs@,
            Err(_) => Seq::empty(),
        }
    }
}

/// The errors of the messages that failed, in order.
pub open spec fn errors_of<E, Er>(outcomes: Seq<Outcome<E, Er>>) -> Seq<Er>
    decreases outcomes.len(),
{
    if outcomes.len() == 0 {
        Seq::empty()
    } else {
        errors_of(outcomes.drop_last()) + match outcomes.last() {
            Ok(_) => Seq::empty(),
            Err(e) => seq![e],
        }
    }
}

/// What the delivery of a batch of messages gathered.
pub struct DeliveryReport<E, Er> {
    pub events: Vec<E>,
    pub logs: Vec<String>,
    pub errors: Vec<Er>,
}

impl<E, Er> DeliveryReport<E, Er> {
    /// A report of no messages.
    pub fn new() -> (r: Self)
        ensures
            r.events@ == Seq::<E>::empty(),
            r.logs@ == Seq::<String>::empty(),
            r.errors@ == Seq::<Er>::empty(),
    {
        DeliveryReport { events: Vec::new(), logs: Vec::new(), errors: Vec::new() }
    }

    /// Adds the outcome of one more message.
    pub fn record(&mut self, outcome: Outcome<E, Er>)
        ensures
            match outcome {
                Ok((events, logs)) => {
                    &&& final(self).events@ == old(self).events@ + events@
                    &&& final(self).logs@ == old(self).logs@ + logs@
                    &&& final(self).errors@ == old(self).errors@
                },
                Err(e) => {
                    &&& final(self).events@ == old(self).events@
                    &&& final(self).logs@ == old(self).logs@
                    &&& final(self).errors@ == old(self).errors@.push(e)
                },
            },
    {
        match outcome {
            Ok((events, logs)) => {
                let mut events = events;
                let mut logs = logs;
                self.events.append(&mut events);
                self.logs.append(&mut logs);
            },
            Err(e) => {
                self.errors.push(e);
            },
        }
    }
}

/// Gathers the outcomes of a batch of messages, in the order of the messages.
pub fn deliver_outcomes<E, Er>(outcomes: Vec<Outcome<E, Er>>) -> (r: DeliveryReport<E, Er>)
    ensures
        r.events@ == events_of(outcomes@),
        r.logs@ == logs_of(outcomes@),
        r.errors@ == errors_of(outcomes@),
{
    let ghost all = outcomes@;
    assert(all.len() == outcomes.len());
    let mut rest = outcomes;
    let mut report = DeliveryReport::new();
    let mut done: usize = 0;
    assert(all.take(0) =~= Seq::<Outcome<E, Er>>::empty());
    while rest.len() > 0
        invariant
            done <= all.len(),
            all.len() <= usize::MAX,
            rest@ == all.skip(done as int),
            rest@.len() == all.len() - done,
            report.events@ == events_of(all.take(done as int)),
            report.logs@ == logs_of(all.take(done as int)),
            report.errors@ == errors_of(all.take(done as int)),
        decreases rest.len(),
    {
        let outcome = rest.remove(0);
        proof {
            assert(outcome == all[done as int]);
            assert(all.take(done + 1).drop_last() =~= all.take(done as int));
            assert(all.take(done + 1).last() == all[done as int]);
        }
        report.record(outcome);
        done = done + 1;
        assert(rest@ =~= all.skip(done as int));
    }
    assert(all.take(done as int) =~= all);
    report
}

} // verus!
