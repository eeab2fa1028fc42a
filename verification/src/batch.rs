//! Collecting the emulator's events, so that a terminal is brought up to date once for many of
//! them.
//!
//! The first event after a pause is delivered at once. What follows is collected for a few
//! milliseconds, or until it is a lot, and then delivered together.
use crate::alac;
use crate::events::{TermEvent, TermEventView};
use alacritty_terminal::event::Event as AlacTermEvent;
use vstd::prelude::*;

verus! {

/// How long events are collected, in milliseconds.
pub const BATCH_MILLIS: u64 = 4;

/// A batch is delivered early once it has more events than this.
pub const BATCH_EVENTS: usize = 100;

/// Something for the terminal to take up.
pub enum Delivery {
    /// There is something new to show.
    Wakeup,
    /// Any other event.
    Event(AlacTermEvent),
}

/// Events collected for delivery.
pub struct EventBatch {
    pub events: Vec<AlacTermEvent>,
    /// Whether a wakeup was among them.
    pub wakeup: bool,
}

/// Whether an event says that there is something new to show.
pub open spec fn wakes_up(event: AlacTermEvent) -> bool {
    crate::alac::told_by(event) == TermEventView::Wakeup
}

/// The events that are no wakeups.
pub open spec fn plain(events: Seq<AlacTermEvent>) -> Seq<AlacTermEvent> {
    events.filter(|e: AlacTermEvent| !wakes_up(e))
}

/// Whether a wakeup is among the events.
pub open spec fn any_wakes(events: Seq<AlacTermEvent>) -> bool {
    exists|i: int| 0 <= i < events.len() && wakes_up(#[trigger] events[i])
}

impl EventBatch {
    /// Whether these are the collected events, given in the order they came in.
    pub open spec fn holds(self, received: Seq<AlacTermEvent>) -> bool {
        &&& self.events@ == plain(received)
        &&& self.wakeup == any_wakes(received)
    }

    /// How the batch is delivered: one wakeup for all of them, and then the others in order.
    pub open spec fn delivered(self) -> Seq<Delivery> {
        (if self.wakeup {
            seq![Delivery::Wakeup]
        } else {
            Seq::empty()
        }) + self.events@.map_values(|e: AlacTermEvent| Delivery::Event(e))
    }

    /// Nothing collected yet.
    pub fn new() -> (batch: EventBatch)
        ensures
            batch.holds(Seq::empty()),
            batch.events@.len() == 0,
            !batch.wakeup,
    {
        proof {
            reveal(Seq::filter);
        }
        EventBatch { events: Vec::new(), wakeup: false }
    }

    /// Puts an event into the batch; says whether the batch has become large enough to be
    /// delivered.
    pub fn push(&mut self, event: AlacTermEvent) -> (full: bool)
        ensures
            forall|received: Seq<AlacTermEvent>| #[trigger]
                old(self).holds(received) ==> final(self).holds(received.push(event)),
            final(self).events@ == (if wakes_up(event) {
                old(self).events@
            } else {
                old(self).events@.push(event)
            }),
            final(self).wakeup == (old(self).wakeup || wakes_up(event)),
            full == (final(self).events@.len() > BATCH_EVENTS),
    {
        match alac::term_event(&event) {
            TermEvent::Wakeup => {
                self.wakeup = true;
            },
            _ => {
                self.events.push(event);
            },
        }
        proof {
            assert forall|received: Seq<AlacTermEvent>| #[trigger]
                old(self).holds(received) implies self.holds(received.push(event)) by {
                reveal(Seq::filter);
                assert(received.push(event).drop_last() =~= received);
                if wakes_up(event) {
                    assert(wakes_up(received.push(event)[received.len() as int]));
                } else if any_wakes(received) {
                    let i = choose|i: int|
                        0 <= i < received.len() && wakes_up(#[trigger] received[i]);
                    assert(wakes_up(received.push(event)[i]));
                } else if any_wakes(received.push(event)) {
                    let i = choose|i: int|
                        0 <= i < received.push(event).len() && wakes_up(
                            #[trigger] received.push(event)[i],
                        );
                    assert(received.push(event)[i] == received[i]);
                }
            }
        }
        self.events.len() > BATCH_EVENTS
    }

    /// Whether nothing was collected.
    pub fn is_idle(&self) -> (r: bool)
        ensures
            r == (self.events@.len() == 0 && !self.wakeup),
            r == (self.delivered().len() == 0),
    {
        self.events.len() == 0 && !self.wakeup
    }

    /// What is to be delivered, in order.
    pub fn into_deliveries(self) -> (deliveries: Vec<Delivery>)
        ensures
            deliveries@ == self.delivered(),
    {
        let ghost all = self.events@;
        let wakeup = self.wakeup;
        let mut rest = self.events;
        let mut reversed: Vec<Delivery> = Vec::new();
        while rest.len() > 0
            invariant
                rest@.len() + reversed@.len() == all.len(),
                rest@ == all.take(rest@.len() as int),
                forall|i: int|
                    0 <= i < reversed@.len() ==> #[trigger] reversed@[i] == Delivery::Event(
                        all[all.len() - 1 - i],
                    ),
            decreases rest@.len(),
        {
            match rest.pop() {
                Some(event) => {
                    reversed.push(Delivery::Event(event));
                    assert(rest@ =~= all.take(rest@.len() as int));
                },
                None => {},
            }
        }
        let mut deliveries: Vec<Delivery> = Vec::new();
        if wakeup {
            deliveries.push(Delivery::Wakeup);
        }
        let ghost start = deliveries@;
        while reversed.len() > 0
            invariant
                reversed@.len() <= all.len(),
                forall|i: int|
                    0 <= i < reversed@.len() ==> #[trigger] reversed@[i] == Delivery::Event(
                        all[all.len() - 1 - i],
                    ),
                deliveries@ == start + all.take(all.len() - reversed@.len()).map_values(
                    |e: AlacTermEvent| Delivery::Event(e),
                ),
            decreases reversed@.len(),
        {
            let ghost k = all.len() - reversed@.len();
            match reversed.pop() {
                Some(delivery) => {
                    assert(delivery == Delivery::Event(all[k]));
                    deliveries.push(delivery);
                    assert(deliveries@ =~= start + all.take(k + 1).map_values(
                        |e: AlacTermEvent| Delivery::Event(e),
                    ));
                },
                None => {},
            }
        }
        assert(all.take(all.len() as int) =~= all);
        deliveries
    }
}

/// Where the delivery of events stands.
pub enum Pump {
    /// Nothing came in for a while.
    Waiting,
    /// Events are being collected.
    Collecting(EventBatch),
}

/// What the delivery of events waits for.
pub enum Arrival {
    /// An event came in.
    Event(AlacTermEvent),
    /// The time for collecting is over.
    Timeout,
    /// No event will come in any more.
    Closed,
}

/// What is to be done for the delivery of events.
pub enum PumpAction {
    /// Deliver the first event, and begin to collect.
    DeliverFirst(AlacTermEvent),
    /// Deliver what was collected, let others run, and begin to collect anew.
    DeliverBatch(Vec<Delivery>),
    /// Wait on.
    Listen,
    /// Let others run, and wait for the next event.
    Rest,
    /// Stop.
    Stop,
}

/// The events in a delivery that are no wakeups told of as such.
pub open spec fn carried(deliveries: Seq<Delivery>) -> Seq<AlacTermEvent>
    decreases deliveries.len(),
{
    if deliveries.len() == 0 {
        Seq::empty()
    } else {
        carried(deliveries.drop_last()) + match deliveries.last() {
            Delivery::Wakeup => Seq::empty(),
            Delivery::Event(event) => seq![event],
        }
    }
}

impl Arrival {
    /// The event that came in, unless it is a wakeup.
    pub open spec fn came_in(self) -> Seq<AlacTermEvent> {
        match self {
            Arrival::Event(event) => plain(seq![event]),
            _ => Seq::empty(),
        }
    }
}

impl PumpAction {
    /// The events that are delivered, but for wakeups.
    pub open spec fn handed_on(self) -> Seq<AlacTermEvent> {
        match self {
            PumpAction::DeliverFirst(event) => plain(seq![event]),
            PumpAction::DeliverBatch(deliveries) => carried(deliveries@),
            _ => Seq::empty(),
        }
    }
}

impl Pump {
    /// What was collected and is not delivered yet.
    pub open spec fn pending(self) -> Seq<AlacTermEvent> {
        match self {
            Pump::Waiting => Seq::empty(),
            Pump::Collecting(batch) => batch.events@,
        }
    }

    /// Whether nothing was collected since the last delivery.
    pub open spec fn is_fresh(self) -> bool {
        self matches Pump::Collecting(batch) && batch.events@.len() == 0 && !batch.wakeup
    }

    /// Whether the delivery goes on as `next`, with `action` to be done, when this is how it stands
    /// and `arrival` is what it waited for.
    pub open spec fn goes_on(self, arrival: Arrival, next: Pump, action: PumpAction) -> bool {
        match (self, arrival) {
            (Pump::Waiting, Arrival::Event(event)) => next.is_fresh() && action
                == PumpAction::DeliverFirst(event),
            (Pump::Waiting, Arrival::Timeout) => next is Waiting && action is Listen,
            (Pump::Waiting, Arrival::Closed) => next is Waiting && action is Stop,
            (Pump::Collecting(batch), Arrival::Event(event)) => exists|with: EventBatch|
                {
                    &&& with.events@ == (if wakes_up(event) {
                        batch.events@
                    } else {
                        batch.events@.push(event)
                    })
                    &&& with.wakeup == (batch.wakeup || wakes_up(event))
                    &&& if with.events@.len() > BATCH_EVENTS {
                        &&& next.is_fresh()
                        &&& action is DeliverBatch
                        &&& (action->DeliverBatch_0)@ == #[trigger] with.delivered()
                    } else {
                        next == Pump::Collecting(with) && action is Listen
                    }
                },
            (Pump::Collecting(batch), _) => if batch.delivered().len() == 0 {
                next is Waiting && action is Rest
            } else {
                &&& next.is_fresh()
                &&& action is DeliverBatch
                &&& (action->DeliverBatch_0)@ == batch.delivered()
            },
        }
    }

    /// Goes on with the delivery of events. No event is lost, doubled or overtaken by another: what
    /// is handed on, followed by what is still collected, is what was collected before, followed by
    /// what came in.
    pub fn arrive(self, arrival: Arrival) -> (next: (Pump, PumpAction))
        ensures
            self.goes_on(arrival, next.0, next.1),
            next.1.handed_on() + next.0.pending() == self.pending() + arrival.came_in(),
    {
        proof {
            if arrival is Event {
                plain_of_one(arrival->Event_0);
            }
            if self is Collecting {
                carried_when_delivered(self->Collecting_0);
            }
        }
        match self {
            Pump::Waiting => match arrival {
                Arrival::Event(event) => (
                    Pump::Collecting(EventBatch::new()),
                    PumpAction::DeliverFirst(event),
                ),
                Arrival::Timeout => (Pump::Waiting, PumpAction::Listen),
                Arrival::Closed => (Pump::Waiting, PumpAction::Stop),
            },
            Pump::Collecting(batch) => {
                let mut batch = batch;
                match arrival {
                    Arrival::Event(event) => {
                        let full = batch.push(event);
                        let ghost with = batch;
                        proof {
                            carried_when_delivered(with);
                        }
                        if full {
                            (
                                Pump::Collecting(EventBatch::new()),
                                PumpAction::DeliverBatch(batch.into_deliveries()),
                            )
                        } else {
                            (Pump::Collecting(batch), PumpAction::Listen)
                        }
                    },
                    _ => if batch.is_idle() {
                        (Pump::Waiting, PumpAction::Rest)
                    } else {
                        (
                            Pump::Collecting(EventBatch::new()),
                            PumpAction::DeliverBatch(batch.into_deliveries()),
                        )
                    },
                }
            },
        }
    }
}

proof fn carried_of_events(events: Seq<AlacTermEvent>, start: Seq<Delivery>)
    ensures
        carried(start + events.map_values(|e: AlacTermEvent| Delivery::Event(e))) == carried(start)
            + events,
    decreases events.len(),
{
    let told = |e: AlacTermEvent| Delivery::Event(e);
    let all = start + events.map_values(told);
    if events.len() == 0 {
        assert(all =~= start);
        assert(carried(start) + events =~= carried(start));
    } else {
        assert(all.drop_last() =~= start + events.drop_last().map_values(told));
        carried_of_events(events.drop_last(), start);
        assert(carried(start) + events =~= carried(start) + events.drop_last() + seq![
            events.last(),
        ]);
    }
}

proof fn carried_when_delivered(batch: EventBatch)
    ensures
        carried(batch.delivered()) == batch.events@,
{
    let start = if batch.wakeup {
        seq![Delivery::Wakeup]
    } else {
        Seq::<Delivery>::empty()
    };
    carried_of_events(batch.events@, start);
    reveal_with_fuel(carried, 2);
    assert(start.drop_last() =~= Seq::<Delivery>::empty() || start.len() == 0);
    assert(carried(start) =~= Seq::<AlacTermEvent>::empty());
    assert(carried(start) + batch.events@ =~= batch.events@);
}

proof fn plain_of_one(event: AlacTermEvent)
    ensures
        plain(seq![event]) == (if wakes_up(event) {
            Seq::<AlacTermEvent>::empty()
        } else {
            seq![event]
        }),
{
    reveal_with_fuel(Seq::filter, 2);
    assert(seq![event].drop_last() =~= Seq::<AlacTermEvent>::empty());
    assert(Seq::<AlacTermEvent>::empty().push(event) =~= seq![event]);
}

/// The events that came in, one after the other, but for wakeups.
pub open spec fn all_came_in(arrivals: Seq<Arrival>) -> Seq<AlacTermEvent>
    decreases arrivals.len(),
{
    if arrivals.len() == 0 {
        Seq::empty()
    } else {
        all_came_in(arrivals.drop_last()) + arrivals.last().came_in()
    }
}

/// The events that are delivered, one after the other, but for wakeups.
pub open spec fn all_handed_on(actions: Seq<PumpAction>) -> Seq<AlacTermEvent>
    decreases actions.len(),
{
    if actions.len() == 0 {
        Seq::empty()
    } else {
        all_handed_on(actions.drop_last()) + actions.last().handed_on()
    }
}

/// Whether the delivery goes from each of the `pumps` to the next when the `arrivals` come, with
/// the `actions` to be done.
pub open spec fn is_delivery(
    pumps: Seq<Pump>,
    arrivals: Seq<Arrival>,
    actions: Seq<PumpAction>,
) -> bool {
    &&& pumps.len() == arrivals.len() + 1
    &&& actions.len() == arrivals.len()
    &&& forall|i: int|
        0 <= i < arrivals.len() ==> pumps[i].goes_on(
            #[trigger] arrivals[i],
            pumps[i + 1],
            actions[i],
        )
}

proof fn one_arrival_loses_nothing(
    pump: Pump,
    arrival: Arrival,
    next: Pump,
    action: PumpAction,
)
    requires
        pump.goes_on(arrival, next, action),
    ensures
        action.handed_on() + next.pending() == pump.pending() + arrival.came_in(),
{
    if arrival is Event {
        plain_of_one(arrival->Event_0);
    }
    if pump is Collecting {
        let batch = pump->Collecting_0;
        carried_when_delivered(batch);
        if arrival is Event {
            let event = arrival->Event_0;
            let with = choose|with: EventBatch|
                {
                    &&& with.events@ == (if wakes_up(event) {
                        batch.events@
                    } else {
                        batch.events@.push(event)
                    })
                    &&& with.wakeup == (batch.wakeup || wakes_up(event))
                    &&& if with.events@.len() > BATCH_EVENTS {
                        &&& next.is_fresh()
                        &&& action is DeliverBatch
                        &&& (action->DeliverBatch_0)@ == #[trigger] with.delivered()
                    } else {
                        next == Pump::Collecting(with) && action is Listen
                    }
                };
            carried_when_delivered(with);
        }
    }
    assert(action.handed_on() + next.pending() =~= pump.pending() + arrival.came_in());
}

/// Whatever comes, and however it is collected, no event is lost, doubled or overtaken by another:
/// all that has been delivered, followed by what is still collected, is what was collected at
/// first, followed by all that came in.
pub proof fn delivery_loses_nothing(
    pumps: Seq<Pump>,
    arrivals: Seq<Arrival>,
    actions: Seq<PumpAction>,
)
    requires
        is_delivery(pumps, arrivals, actions),
    ensures
        all_handed_on(actions) + pumps.last().pending() == pumps[0].pending() + all_came_in(
            arrivals,
        ),
    decreases arrivals.len(),
{
    if arrivals.len() == 0 {
        assert(all_handed_on(actions) + pumps.last().pending() =~= pumps[0].pending() + all_came_in(
            arrivals,
        ));
    } else {
        let n = arrivals.len() - 1;
        let pumps0 = pumps.drop_last();
        let arrivals0 = arrivals.drop_last();
        let actions0 = actions.drop_last();
        assert forall|i: int| 0 <= i < arrivals0.len() implies pumps0[i].goes_on(
            #[trigger] arrivals0[i],
            pumps0[i + 1],
            actions0[i],
        ) by {
            assert(arrivals0[i] == arrivals[i]);
        }
        delivery_loses_nothing(pumps0, arrivals0, actions0);
        assert(pumps[n].goes_on(arrivals[n], pumps[n + 1], actions[n]));
        one_arrival_loses_nothing(pumps[n], arrivals[n], pumps[n + 1], actions[n]);
        let before = all_handed_on(actions0);
        assert(all_handed_on(actions) + pumps.last().pending() =~= before + (
        actions[n].handed_on() + pumps.last().pending()));
        assert(before + (pumps[n].pending() + arrivals[n].came_in()) =~= (before
            + pumps[n].pending()) + arrivals[n].came_in());
        assert((pumps[0].pending() + all_came_in(arrivals0)) + arrivals[n].came_in()
            =~= pumps[0].pending() + all_came_in(arrivals));
    }
}

/// However many events a batch has taken in, it is delivered as all of them that are no wakeups, in
/// the order they came, with a single wakeup ahead if there was any.
pub proof fn batch_keeps_events_in_order(batch: EventBatch, received: Seq<AlacTermEvent>)
    requires
        batch.holds(received),
    ensures
        carried(batch.delivered()) == plain(received),
        any_wakes(received) ==> batch.delivered().len() == plain(received).len() + 1
            && batch.delivered()[0] == Delivery::Wakeup,
        !any_wakes(received) ==> batch.delivered().len() == plain(received).len(),
{
    carried_when_delivered(batch);
}

} // verus!
