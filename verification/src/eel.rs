//! External event log (EEL): a pre-recorded, timestamp-ordered sequence
//! of customer events, and the player that releases them against
//! simulated time.
//!
//! The log is assumed pre-sorted ascending by timestamp; the player
//! never sorts, it only validates and consumes in order. On each poll
//! the player releases every event that has come due — whose timestamp
//! is at or before the current simulated time — in strict log order,
//! each exactly once, and stops at the first event still in the future.

use vstd::prelude::*;

use crate::events::{
    CustomerEvent as ActionEvent, CustomerEventView as ActionEventView,
    CargoRequest as ActionRequest, CargoRequestView as ActionRequestView, FlightCancel,
    FlightConfirm, FlightQuery, FlightQueryView,
};

verus! {

/// Customer requests for cargo flights, as a log records them.
pub enum CargoRequest {
    /// Create a cargo flight.
    CargoCreate(FlightQuery),
    /// Confirm a cargo flight.
    CargoConfirm(FlightConfirm),
    /// Cancel a cargo flight.
    CargoCancel(FlightCancel),
}

/// Mathematical image of a log [`CargoRequest`].
pub enum CargoRequestView {
    CargoCreate(FlightQueryView),
    CargoConfirm(Seq<char>),
    CargoCancel(Seq<char>),
}

impl View for CargoRequest {
    type V = CargoRequestView;

    open spec fn view(&self) -> CargoRequestView {
        match self {
            CargoRequest::CargoCreate(q) => CargoRequestView::CargoCreate(q@),
            CargoRequest::CargoConfirm(c) => CargoRequestView::CargoConfirm(c@),
            CargoRequest::CargoCancel(c) => CargoRequestView::CargoCancel(c@),
        }
    }
}

/// Events triggered by customer actions, as a log records them.
pub enum CustomerEvent {
    /// Request for a new cargo flight.
    CargoRequest(CargoRequest),
}

/// Mathematical image of a log [`CustomerEvent`].
pub enum CustomerEventView {
    CargoRequest(CargoRequestView),
}

impl View for CustomerEvent {
    type V = CustomerEventView;

    open spec fn view(&self) -> CustomerEventView {
        match self {
            CustomerEvent::CargoRequest(r) => CustomerEventView::CargoRequest(r@),
        }
    }
}

/// The kinds of event a log may hold. A closed union: today every
/// logged event is a customer event.
pub enum EelEventType {
    /// Events triggered by a customer.
    CustomerEvent(CustomerEvent),
}

/// Mathematical image of an [`EelEventType`].
pub enum EelEventTypeView {
    CustomerEvent(CustomerEventView),
}

impl View for EelEventType {
    type V = EelEventTypeView;

    open spec fn view(&self) -> EelEventTypeView {
        match self {
            EelEventType::CustomerEvent(e) => EelEventTypeView::CustomerEvent(e@),
        }
    }
}

/// External event: a payload and the simulated instant it fires at.
pub struct EelEvent {
    /// The type of event.
    pub event: EelEventType,
    /// The timestamp of the event, epoch seconds.
    pub timestamp: i64,
}

/// External event log.
pub struct Eel {
    /// A list of external events, expected pre-sorted by timestamp.
    pub events: Vec<EelEvent>,
}

/// What the log's dispatcher does with a logged request: replay it as
/// the corresponding customer action. A recorded creation replays as a
/// flight query; confirmations and cancellations replay as themselves.
pub open spec fn spec_to_action(r: CargoRequestView) -> ActionEventView {
    match r {
        CargoRequestView::CargoCreate(q) => ActionEventView::CargoRequest(
            ActionRequestView::Query(q),
        ),
        CargoRequestView::CargoConfirm(fp) => ActionEventView::CargoRequest(
            ActionRequestView::Confirm(fp),
        ),
        CargoRequestView::CargoCancel(fp) => ActionEventView::CargoRequest(
            ActionRequestView::Cancel(fp),
        ),
    }
}

impl CustomerEvent {
    /// The customer action this logged event replays as.
    pub fn to_action(&self) -> (r: ActionEvent)
        ensures
            (match self@ {
                CustomerEventView::CargoRequest(c) => r@ == spec_to_action(c),
            }),
    {
        match self {
            CustomerEvent::CargoRequest(CargoRequest::CargoCreate(q)) => ActionEvent::CargoRequest(
                ActionRequest::Query(
                    FlightQuery {
                        vertiport_depart_id: q.vertiport_depart_id.clone(),
                        vertiport_arrive_id: q.vertiport_arrive_id.clone(),
                        timestamp_depart_min: q.timestamp_depart_min,
                        timestamp_depart_max: q.timestamp_depart_max,
                        timestamp_arrive_min: q.timestamp_arrive_min,
                        timestamp_arrive_max: q.timestamp_arrive_max,
                        cargo_weight_g: q.cargo_weight_g,
                    },
                ),
            ),
            CustomerEvent::CargoRequest(CargoRequest::CargoConfirm(c)) => ActionEvent::CargoRequest(
                ActionRequest::Confirm(FlightConfirm { fp_id: c.fp_id.clone() }),
            ),
            CustomerEvent::CargoRequest(CargoRequest::CargoCancel(c)) => ActionEvent::CargoRequest(
                ActionRequest::Cancel(FlightCancel { fp_id: c.fp_id.clone() }),
            ),
        }
    }
}

/// The log's events are in non-decreasing timestamp order.
pub open spec fn eel_sorted(events: Seq<EelEvent>) -> bool {
    forall|i: int, j: int| 0 <= i <= j < events.len() ==> #[trigger] events[i].timestamp
        <= #[trigger] events[j].timestamp
}

impl Eel {
    /// Validates the ordering the log is assumed to have: each event's
    /// timestamp at or after its predecessor's.
    pub fn is_sorted(&self) -> (r: bool)
        ensures
            r == eel_sorted(self.events@),
    {
        let mut idx: usize = 1;
        if self.events.len() < 2 {
            return true;
        }
        while idx < self.events.len()
            invariant
                1 <= idx <= self.events@.len(),
                forall|i: int, j: int| 0 <= i <= j < idx ==> #[trigger] self.events@[i].timestamp
                    <= #[trigger] self.events@[j].timestamp,
            decreases self.events@.len() - idx,
        {
            if self.events[idx - 1].timestamp > self.events[idx].timestamp {
                return false;
            }
            idx = idx + 1;
        }
        true
    }
}

/// Event log player: the immutable ordered log plus a cursor marking
/// the next undelivered event. Terminal once the cursor reaches the
/// log's length.
pub struct EelPlayer {
    /// The ordered event sequence.
    pub events: Vec<EelEvent>,
    /// Index of the next undelivered event.
    pub cursor: usize,
}

/// Well-formedness of a player: the cursor stays within the log and the
/// log is sorted.
pub open spec fn player_wf(p: EelPlayer) -> bool {
    &&& p.cursor <= p.events@.len()
    &&& eel_sorted(p.events@)
}

/// The cursor after one poll at simulated time `now`: advanced past
/// every due event, stopped at the first future one (or the end).
pub open spec fn poll_cursor(events: Seq<EelEvent>, cursor: int, now: i64) -> int
    decreases events.len() - cursor,
{
    if 0 <= cursor < events.len() && events[cursor].timestamp <= now {
        poll_cursor(events, cursor + 1, now)
    } else {
        cursor
    }
}

impl EelPlayer {
    /// Starts a player at the head of a validated log.
    pub fn new(eel: Eel) -> (p: EelPlayer)
        requires
            eel_sorted(eel.events@),
        ensures
            player_wf(p),
            p.events == eel.events,
            p.cursor == 0,
    {
        EelPlayer { events: eel.events, cursor: 0 }
    }

    /// Whether every event has been delivered.
    pub fn exhausted(&self) -> (r: bool)
        ensures
            r == (self.cursor == self.events@.len()),
    {
        self.cursor == self.events.len()
    }

    /// The event at position `i`, for the caller to dispatch.
    pub fn event_at(&self, i: usize) -> (e: &EelEvent)
        requires
            i < self.events@.len(),
        ensures
            *e == self.events@[i as int],
    {
        &self.events[i]
    }

    /// Releases every event that has come due at simulated time `now`:
    /// returns the released range of log positions, in dispatch order.
    /// Each position is released by exactly one poll: the range begins
    /// at the cursor the previous poll left behind, and ends before the
    /// first event whose timestamp is still in the future.
    pub fn poll(&mut self, now: i64) -> (r: (usize, usize))
        requires
            player_wf(*old(self)),
        ensures
            player_wf(*final(self)),
            final(self).events == old(self).events,
            r.0 == old(self).cursor,
            r.1 == final(self).cursor,
            r.0 <= r.1 <= old(self).events@.len(),
            r.1 == poll_cursor(old(self).events@, old(self).cursor as int, now),
            forall|i: int| r.0 <= i < r.1 ==> #[trigger] old(self).events@[i].timestamp <= now,
            r.1 < old(self).events@.len() ==> old(self).events@[r.1 as int].timestamp > now,
    {
        let start: usize = self.cursor;
        while self.cursor < self.events.len() && self.events[self.cursor].timestamp <= now
            invariant
                player_wf(*self),
                self.events == old(self).events,
                start == old(self).cursor,
                start <= self.cursor,
                forall|i: int| start <= i < self.cursor ==> #[trigger] self.events@[i].timestamp
                    <= now,
                poll_cursor(self.events@, self.cursor as int, now) == poll_cursor(
                    old(self).events@,
                    old(self).cursor as int,
                    now,
                ),
            decreases self.events@.len() - self.cursor,
        {
            self.cursor = self.cursor + 1;
        }
        (start, self.cursor)
    }
}

/// Cursor monotonicity for one poll: the cursor never moves backwards.
pub proof fn lemma_poll_cursor_lb(events: Seq<EelEvent>, cursor: int, now: i64)
    ensures
        poll_cursor(events, cursor, now) >= cursor,
    decreases events.len() - cursor,
{
    if 0 <= cursor < events.len() && events[cursor].timestamp <= now {
        lemma_poll_cursor_lb(events, cursor + 1, now);
    }
}

/// One poll stays within the log.
pub proof fn lemma_poll_cursor_ub(events: Seq<EelEvent>, cursor: int, now: i64)
    requires
        cursor <= events.len(),
    ensures
        poll_cursor(events, cursor, now) <= events.len(),
    decreases events.len() - cursor,
{
    if 0 <= cursor < events.len() && events[cursor].timestamp <= now {
        lemma_poll_cursor_ub(events, cursor + 1, now);
    }
}

/// The cursor after polling at each time in `times`, in order, starting
/// from poll number zero: `cursor_after(.., k)` is where poll `k` begins
/// and poll `k - 1` ended.
pub open spec fn cursor_after(events: Seq<EelEvent>, cursor: int, times: Seq<i64>, k: int) -> int
    decreases k,
{
    if k <= 0 {
        cursor
    } else {
        poll_cursor(events, cursor_after(events, cursor, times, k - 1), times[k - 1])
    }
}

/// Poll batches never overlap: the range poll `k1` releases ends at or
/// before the range any later poll `k2` releases begins. With
/// [`lemma_released_in_some_poll`], every consumed event is released by
/// exactly one poll.
pub proof fn lemma_batches_disjoint(
    events: Seq<EelEvent>,
    cursor: int,
    times: Seq<i64>,
    k1: int,
    k2: int,
)
    requires
        0 <= k1 <= k2,
    ensures
        cursor_after(events, cursor, times, k1) <= cursor_after(events, cursor, times, k2),
    decreases k2 - k1,
{
    if k1 < k2 {
        lemma_batches_disjoint(events, cursor, times, k1, k2 - 1);
        lemma_poll_cursor_lb(events, cursor_after(events, cursor, times, k2 - 1), times[k2 - 1]);
    }
}

/// Every consumed event is released by some poll: an index the run as a
/// whole consumed lies in the batch of one of the polls.
pub proof fn lemma_released_in_some_poll(
    events: Seq<EelEvent>,
    cursor: int,
    times: Seq<i64>,
    i: int,
    n: int,
)
    requires
        0 <= n <= times.len(),
        cursor <= i < cursor_after(events, cursor, times, n),
    ensures
        exists|k: int|
            0 <= k < n && #[trigger] cursor_after(events, cursor, times, k) <= i < cursor_after(
                events,
                cursor,
                times,
                k + 1,
            ),
    decreases n,
{
    if n > 0 {
        if i < cursor_after(events, cursor, times, n - 1) {
            lemma_released_in_some_poll(events, cursor, times, i, n - 1);
            let k0 = choose|k: int|
                0 <= k < n - 1 && #[trigger] cursor_after(events, cursor, times, k) <= i
                    < cursor_after(events, cursor, times, k + 1);
            assert(0 <= k0 < n && cursor_after(events, cursor, times, k0) <= i < cursor_after(
                events,
                cursor,
                times,
                k0 + 1,
            ));
        } else {
            assert(0 <= n - 1 < n && cursor_after(events, cursor, times, n - 1) <= i
                < cursor_after(events, cursor, times, n));
        }
    }
}

/// Everything a poll releases was due at that poll's time: the player
/// never dispatches an event whose timestamp exceeds current simulated
/// time.
pub proof fn lemma_poll_releases_due(events: Seq<EelEvent>, cursor: int, now: i64, i: int)
    requires
        eel_sorted(events),
        0 <= cursor <= events.len(),
        cursor <= i < poll_cursor(events, cursor, now),
    ensures
        events[i].timestamp <= now,
    decreases events.len() - cursor,
{
    lemma_poll_cursor_ub(events, cursor, now);
    if 0 <= cursor < events.len() && events[cursor].timestamp <= now {
        if i > cursor {
            lemma_poll_releases_due(events, cursor + 1, now, i);
        }
    }
}

/// Dispatch order is total and strict: within the sorted log, an event
/// released earlier never carries a later timestamp than one released
/// after it.
pub proof fn lemma_dispatch_order(events: Seq<EelEvent>, i: int, j: int)
    requires
        eel_sorted(events),
        0 <= i <= j < events.len(),
    ensures
        events[i].timestamp <= events[j].timestamp,
{
}

} // verus!
