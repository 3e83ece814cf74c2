//! Runs of a bridge over a sequence of events, and what holds of every run:
//! the endpoint is destroyed at most once, a `Close` frame is sent at most
//! once, and no action ever touches another endpoint than the bridge's own.

use crate::bridge::{
    frame_of, ActionView, BridgeView, CloseCode, Ending, EventView, FrameView, Outbound, Phase,
};
use crate::endpoint::{ReadView, ReadsView, WardenclyffeSocket};
use vstd::prelude::*;

verus! {

/// The bridge that `bridge` has become after `events`, in order.
pub open spec fn state_after(bridge: BridgeView, events: Seq<EventView>) -> BridgeView
    decreases events.len(),
{
    if events.len() == 0 {
        bridge
    } else {
        state_after(bridge.step(events[0]).next, events.drop_first())
    }
}

/// All the actions that `bridge` asks for over `events`, in order.
pub open spec fn actions_of(bridge: BridgeView, events: Seq<EventView>) -> Seq<ActionView>
    decreases events.len(),
{
    if events.len() == 0 {
        Seq::empty()
    } else {
        bridge.step(events[0]).actions + actions_of(
            bridge.step(events[0]).next,
            events.drop_first(),
        )
    }
}

/// A kind of action that is counted over a run.
pub ghost enum Tally {
    /// The creation of the endpoint.
    Create,
    /// The query for the endpoint's capabilities.
    Probe,
    /// The destruction of the endpoint.
    Destroy,
    /// The sending of a `Close` frame with this code.
    Close(CloseCode),
}

impl Tally {
    /// Whether `action` is of this kind.
    pub open spec fn counts(self, action: ActionView) -> bool {
        match self {
            Tally::Create => action is Create,
            Tally::Probe => action is Probe,
            Tally::Destroy => action is Destroy,
            Tally::Close(code) => action == ActionView::Send(FrameView::Close(code)),
        }
    }

    /// How many actions of this kind a bridge in this state has behind it:
    /// one creation once it has asked for the endpoint, one query once the
    /// endpoint exists, one destruction once it has ended with an endpoint,
    /// one normal `Close` once it has ended at the end of the data, one error
    /// `Close` once it has ended on a failed read.
    pub open spec fn behind(self, bridge: BridgeView) -> nat {
        match (self, bridge.phase) {
            (Tally::Create, Phase::Idle) => 0,
            (Tally::Create, Phase::Closed(Ending::InvalidPath)) => 0,
            (Tally::Create, _) => 1,
            (Tally::Probe, Phase::Probing) => 1,
            (Tally::Probe, Phase::Running) => 1,
            (Tally::Probe, Phase::Closed(why)) => if why.had_endpoint() {
                1
            } else {
                0
            },
            (Tally::Destroy, Phase::Closed(why)) => if why.had_endpoint() {
                1
            } else {
                0
            },
            (Tally::Close(CloseCode::Normal), Phase::Closed(Ending::Eof)) => 1,
            (Tally::Close(CloseCode::Error), Phase::Closed(Ending::ReadFailed)) => 1,
            _ => 0,
        }
    }
}

/// The number of actions of the given kind among `actions`.
pub open spec fn count(actions: Seq<ActionView>, kind: Tally) -> nat
    decreases actions.len(),
{
    if actions.len() == 0 {
        0
    } else {
        count(actions.drop_last(), kind) + if kind.counts(actions.last()) {
            1nat
        } else {
            0nat
        }
    }
}

/// The endpoint that an action is performed on, if it is performed on one.
pub open spec fn target(action: ActionView) -> Option<WardenclyffeSocket> {
    match action {
        ActionView::Probe(socket) => Some(socket),
        ActionView::Read(socket) => Some(socket),
        ActionView::Write(socket, _) => Some(socket),
        ActionView::Destroy(socket) => Some(socket),
        _ => None,
    }
}

/// The actions that forward `reads`, in order.
pub open spec fn sends(reads: Seq<ReadView>) -> Seq<ActionView> {
    Seq::new(reads.len(), |i: int| ActionView::Send(frame_of(reads[i])))
}

/// As many successful sends as `count` says.
pub open spec fn sent(count: nat) -> Seq<EventView> {
    Seq::new(count, |i: int| EventView::SendDone(true))
}

proof fn lemma_count_concat(a: Seq<ActionView>, b: Seq<ActionView>, kind: Tally)
    ensures
        count(a + b, kind) == count(a, kind) + count(b, kind),
    decreases b.len(),
{
    if b.len() == 0 {
        assert(a + b =~= a);
    } else {
        assert((a + b).drop_last() =~= a + b.drop_last());
        assert((a + b).last() == b.last());
        lemma_count_concat(a, b.drop_last(), kind);
    }
}

proof fn lemma_count_short(actions: Seq<ActionView>, kind: Tally)
    requires
        actions.len() <= 2,
    ensures
        count(actions, kind) == (if actions.len() >= 1 && kind.counts(actions[0]) {
            1nat
        } else {
            0nat
        }) + (if actions.len() >= 2 && kind.counts(actions[1]) {
            1nat
        } else {
            0nat
        }),
{
    reveal_with_fuel(count, 3);
    if actions.len() == 2 {
        assert(actions.drop_last().last() == actions[0]);
    }
}

proof fn lemma_run_single(bridge: BridgeView, event: EventView)
    ensures
        state_after(bridge, seq![event]) == bridge.step(event).next,
        actions_of(bridge, seq![event]) == bridge.step(event).actions,
{
    let events = seq![event];
    assert(events.drop_first() =~= Seq::<EventView>::empty());
    assert(state_after(bridge.step(event).next, events.drop_first()) == bridge.step(event).next);
    assert(actions_of(bridge.step(event).next, events.drop_first()) =~= Seq::<ActionView>::empty());
    assert(actions_of(bridge, events) =~= bridge.step(event).actions);
}

proof fn lemma_step_count(bridge: BridgeView, event: EventView, kind: Tally)
    ensures
        count(bridge.step(event).actions, kind) + kind.behind(bridge) == kind.behind(
            bridge.step(event).next,
        ),
{
    lemma_count_short(bridge.step(event).actions, kind);
}

proof fn lemma_step_facts(bridge: BridgeView, event: EventView)
    requires
        bridge.wf(),
    ensures
        bridge.step(event).next.wf(),
        bridge.step(event).next.path == bridge.path,
        bridge.holds_endpoint() || bridge.phase is Closed ==> bridge.step(event).next.socket
            == bridge.socket,
        bridge.phase == Phase::Running || bridge.phase is Closed ==> bridge.step(
            event,
        ).next.supports_read == bridge.supports_read,
        forall|i: int|
            0 <= i < bridge.step(event).actions.len() ==> (#[trigger] bridge.step(
                event,
            ).actions[i] matches ActionView::Create(path) ==> path == bridge.path),
        forall|i: int|
            0 <= i < bridge.step(event).actions.len() && (#[trigger] bridge.step(
                event,
            ).actions[i] is Read || bridge.step(event).actions[i] is Send) ==> bridge.step(
                event,
            ).next.supports_read && (bridge.step(event).next.phase == Phase::Running
                || bridge.step(event).next.phase is Closed),
        forall|i: int|
            0 <= i < bridge.step(event).actions.len() ==> (#[trigger] target(
                bridge.step(event).actions[i],
            ) matches Some(socket) ==> socket == bridge.step(event).next.socket
                && !socket.is_null() && (bridge.step(event).next.holds_endpoint()
                || bridge.step(event).next.phase is Closed)),
{
}

/// A run over `first` and then `second` is the run over `first`, followed by
/// the run over `second` of the bridge that the first run left.
pub proof fn law_run_concat(bridge: BridgeView, first: Seq<EventView>, second: Seq<EventView>)
    ensures
        state_after(bridge, first + second) == state_after(state_after(bridge, first), second),
        actions_of(bridge, first + second) == actions_of(bridge, first) + actions_of(
            state_after(bridge, first),
            second,
        ),
    decreases first.len(),
{
    if first.len() == 0 {
        assert(first + second =~= second);
        assert(actions_of(bridge, first) + actions_of(bridge, second) =~= actions_of(
            bridge,
            second,
        ));
    } else {
        let next = bridge.step(first[0]).next;
        assert((first + second).drop_first() =~= first.drop_first() + second);
        assert((first + second)[0] == first[0]);
        law_run_concat(next, first.drop_first(), second);
        assert(actions_of(bridge, first + second) =~= actions_of(bridge, first) + actions_of(
            state_after(bridge, first),
            second,
        ));
    }
}

/// A bridge that has ended stays as it is and asks for nothing more,
/// whatever happens.
pub proof fn law_closed_is_final(bridge: BridgeView, events: Seq<EventView>)
    requires
        bridge.phase is Closed,
    ensures
        state_after(bridge, events) == bridge,
        actions_of(bridge, events) == Seq::<ActionView>::empty(),
    decreases events.len(),
{
    if events.len() > 0 {
        law_closed_is_final(bridge, events.drop_first());
        assert(actions_of(bridge, events) =~= Seq::<ActionView>::empty());
    }
}

/// Over any run, the actions of one kind that are asked for are those that
/// the bridge has behind it at the end, less those it had behind it at the
/// start.
pub proof fn law_count(bridge: BridgeView, events: Seq<EventView>, kind: Tally)
    ensures
        count(actions_of(bridge, events), kind) + kind.behind(bridge) == kind.behind(
            state_after(bridge, events),
        ),
    decreases events.len(),
{
    if events.len() > 0 {
        let step = bridge.step(events[0]);
        lemma_step_count(bridge, events[0], kind);
        law_count(step.next, events.drop_first(), kind);
        lemma_count_concat(step.actions, actions_of(step.next, events.drop_first()), kind);
    }
}

/// The endpoint is destroyed at most once, on whatever path the bridge ends:
/// exactly once over a run that ends with the bridge closed after an
/// endpoint existed, and never over any other run.
pub proof fn law_destroy_at_most_once(path: Seq<u8>, events: Seq<EventView>)
    ensures
        count(actions_of(BridgeView::fresh(path), events), Tally::Destroy) <= 1,
        count(actions_of(BridgeView::fresh(path), events), Tally::Destroy) == 1 <==> (state_after(
            BridgeView::fresh(path),
            events,
        ).phase matches Phase::Closed(why) && why.had_endpoint()),
{
    law_count(BridgeView::fresh(path), events, Tally::Destroy);
}

/// At most one `Close` frame is sent over any run: a normal one exactly where
/// the bridge ended at the end of the data, an error one exactly where it
/// ended on a failed read.
pub proof fn law_close_at_most_once(path: Seq<u8>, events: Seq<EventView>)
    ensures
        count(actions_of(BridgeView::fresh(path), events), Tally::Close(CloseCode::Normal)) + count(
            actions_of(BridgeView::fresh(path), events),
            Tally::Close(CloseCode::Error),
        ) <= 1,
        count(actions_of(BridgeView::fresh(path), events), Tally::Close(CloseCode::Normal)) == 1
            <==> state_after(BridgeView::fresh(path), events).phase == Phase::Closed(Ending::Eof),
        count(actions_of(BridgeView::fresh(path), events), Tally::Close(CloseCode::Error)) == 1
            <==> state_after(BridgeView::fresh(path), events).phase == Phase::Closed(
            Ending::ReadFailed,
        ),
{
    law_count(BridgeView::fresh(path), events, Tally::Close(CloseCode::Normal));
    law_count(BridgeView::fresh(path), events, Tally::Close(CloseCode::Error));
}

/// When a read that the outbound pump waits for yields a count of zero,
/// then over the whole run, whatever came before and whatever comes after,
/// exactly one `Close` frame is sent, with the normal code, and the endpoint
/// is destroyed exactly once.
pub proof fn law_eof_closes_once(
    path: Seq<u8>,
    before: Seq<EventView>,
    batch: ReadsView,
    after: Seq<EventView>,
)
    requires
        state_after(BridgeView::fresh(path), before).phase == Phase::Running,
        state_after(BridgeView::fresh(path), before).outbound == Outbound::Reading,
        batch.read_count == 0,
    ensures
        ({
            let run = actions_of(
                BridgeView::fresh(path),
                before + seq![EventView::ReadDone(batch)] + after,
            );
            &&& count(run, Tally::Close(CloseCode::Normal)) == 1
            &&& count(run, Tally::Close(CloseCode::Error)) == 0
            &&& count(run, Tally::Destroy) == 1
        }),
{
    lemma_read_ends(path, before, batch, after);
    let events = before + seq![EventView::ReadDone(batch)] + after;
    law_close_at_most_once(path, events);
    law_destroy_at_most_once(path, events);
}

/// When a read that the outbound pump waits for yields a negative count,
/// then over the whole run, whatever came before and whatever comes after,
/// exactly one `Close` frame is sent, with the error code, and the endpoint
/// is destroyed exactly once.
pub proof fn law_failed_read_closes_once(
    path: Seq<u8>,
    before: Seq<EventView>,
    batch: ReadsView,
    after: Seq<EventView>,
)
    requires
        state_after(BridgeView::fresh(path), before).phase == Phase::Running,
        state_after(BridgeView::fresh(path), before).outbound == Outbound::Reading,
        batch.read_count < 0,
    ensures
        ({
            let run = actions_of(
                BridgeView::fresh(path),
                before + seq![EventView::ReadDone(batch)] + after,
            );
            &&& count(run, Tally::Close(CloseCode::Error)) == 1
            &&& count(run, Tally::Close(CloseCode::Normal)) == 0
            &&& count(run, Tally::Destroy) == 1
        }),
{
    lemma_read_ends(path, before, batch, after);
    let events = before + seq![EventView::ReadDone(batch)] + after;
    law_close_at_most_once(path, events);
    law_destroy_at_most_once(path, events);
}

proof fn lemma_read_ends(
    path: Seq<u8>,
    before: Seq<EventView>,
    batch: ReadsView,
    after: Seq<EventView>,
)
    requires
        state_after(BridgeView::fresh(path), before).phase == Phase::Running,
        state_after(BridgeView::fresh(path), before).outbound == Outbound::Reading,
        batch.read_count <= 0,
    ensures
        state_after(
            BridgeView::fresh(path),
            before + seq![EventView::ReadDone(batch)] + after,
        ).phase == Phase::Closed(
            if batch.read_count == 0 {
                Ending::Eof
            } else {
                Ending::ReadFailed
            },
        ),
{
    let fresh = BridgeView::fresh(path);
    let at = state_after(fresh, before);
    let read = seq![EventView::ReadDone(batch)];
    let ended = at.step(EventView::ReadDone(batch)).next;
    lemma_run_single(at, EventView::ReadDone(batch));
    law_run_concat(fresh, before, read);
    law_run_concat(fresh, before + read, after);
    law_closed_is_final(ended, after);
}

/// Until the WebSocket is established the bridge does nothing: whatever else
/// happens, it asks for nothing and stays as it was made.
pub proof fn law_nothing_before_establishment(path: Seq<u8>, events: Seq<EventView>)
    requires
        forall|i: int| 0 <= i < events.len() ==> events[i] != EventView::Established,
    ensures
        actions_of(BridgeView::fresh(path), events) == Seq::<ActionView>::empty(),
        state_after(BridgeView::fresh(path), events) == BridgeView::fresh(path),
    decreases events.len(),
{
    if events.len() > 0 {
        let rest = events.drop_first();
        assert(events[0] != EventView::Established);
        assert forall|i: int| 0 <= i < rest.len() implies rest[i] != EventView::Established by {
            assert(rest[i] == events[i + 1]);
        }
        law_nothing_before_establishment(path, rest);
        assert(actions_of(BridgeView::fresh(path), events) =~= Seq::<ActionView>::empty());
    }
}

/// A bridge gets to work in three steps: once the WebSocket is established it
/// asks for the endpoint under its path, once the provider has answered with
/// a handle that is not null it asks for the capabilities, and once it has
/// them it runs, with a first read under way if the endpoint can be read.
pub proof fn law_startup(path: Seq<u8>, socket: WardenclyffeSocket, read: bool, write: bool)
    requires
        !path.contains(0u8),
        !socket.is_null(),
    ensures
        ({
            let events = seq![
                EventView::Established,
                EventView::Created(socket),
                EventView::Capabilities { read, write },
            ];
            &&& state_after(BridgeView::fresh(path), events) == (BridgeView {
                phase: Phase::Running,
                socket,
                supports_read: read,
                supports_write: write,
                outbound: if read {
                    Outbound::Reading
                } else {
                    Outbound::Idle
                },
                ..BridgeView::fresh(path)
            })
            &&& actions_of(BridgeView::fresh(path), events) == seq![
                ActionView::Create(path),
                ActionView::Probe(socket),
            ] + if read {
                seq![ActionView::Read(socket)]
            } else {
                Seq::empty()
            }
        }),
{
    let fresh = BridgeView::fresh(path);
    let first = seq![EventView::Established];
    let second = seq![EventView::Created(socket)];
    let third = seq![EventView::Capabilities { read, write }];
    let creating = fresh.step(EventView::Established).next;
    let probing = creating.step(EventView::Created(socket)).next;
    lemma_run_single(fresh, EventView::Established);
    lemma_run_single(creating, EventView::Created(socket));
    lemma_run_single(probing, EventView::Capabilities { read, write });
    law_run_concat(fresh, first, second);
    law_run_concat(fresh, first + second, third);
    assert(first + second + third =~= seq![
        EventView::Established,
        EventView::Created(socket),
        EventView::Capabilities { read, write },
    ]);
    assert(actions_of(fresh, first + second + third) =~= seq![
        ActionView::Create(path),
        ActionView::Probe(socket),
    ] + if read {
        seq![ActionView::Read(socket)]
    } else {
        Seq::empty()
    });
}

/// When the provider answers the creation with the null handle, the bridge
/// ends there: the run so far has asked for the creation and nothing else,
/// and whatever happens afterwards, the bridge asks for nothing: no
/// capability query, no read, no write and no destruction.
pub proof fn law_failed_creation_is_silent(
    path: Seq<u8>,
    before: Seq<EventView>,
    socket: WardenclyffeSocket,
    after: Seq<EventView>,
)
    requires
        state_after(BridgeView::fresh(path), before).phase == Phase::Creating,
        socket.is_null(),
    ensures
        ({
            let run = actions_of(
                BridgeView::fresh(path),
                before + seq![EventView::Created(socket)] + after,
            );
            &&& forall|i: int| 0 <= i < run.len() ==> #[trigger] target(run[i]) is None
            &&& forall|i: int| 0 <= i < run.len() ==> !(#[trigger] run[i] is Send)
            &&& state_after(
                BridgeView::fresh(path),
                before + seq![EventView::Created(socket)] + after,
            ).phase == Phase::Closed(Ending::CreateFailed)
        }),
{
    let fresh = BridgeView::fresh(path);
    let at = state_after(fresh, before);
    let created = seq![EventView::Created(socket)];
    let ended = at.step(EventView::Created(socket)).next;
    lemma_run_single(at, EventView::Created(socket));
    law_run_concat(fresh, before, created);
    law_run_concat(fresh, before + created, after);
    law_closed_is_final(ended, after);
    lemma_before_endpoint(fresh, before);
    assert(actions_of(fresh, before + created + after) =~= actions_of(fresh, before));
}

proof fn lemma_before_endpoint(bridge: BridgeView, events: Seq<EventView>)
    requires
        bridge.phase == Phase::Idle || bridge.phase == Phase::Creating,
        state_after(bridge, events).phase == Phase::Creating,
    ensures
        forall|i: int|
            0 <= i < actions_of(bridge, events).len() ==> #[trigger] actions_of(
                bridge,
                events,
            )[i] is Create,
    decreases events.len(),
{
    if events.len() > 0 {
        let step = bridge.step(events[0]);
        if step.next.phase == Phase::Idle || step.next.phase == Phase::Creating {
            lemma_before_endpoint(step.next, events.drop_first());
        } else if step.next.phase is Closed {
            law_closed_is_final(step.next, events.drop_first());
        } else {
            lemma_phase_never_returns(step.next, events.drop_first());
        }
    }
}

proof fn lemma_phase_never_returns(bridge: BridgeView, events: Seq<EventView>)
    requires
        bridge.holds_endpoint() || bridge.phase is Closed,
    ensures
        state_after(bridge, events).holds_endpoint() || state_after(bridge, events).phase is Closed,
    decreases events.len(),
{
    if events.len() > 0 {
        lemma_phase_never_returns(bridge.step(events[0]).next, events.drop_first());
    }
}

proof fn lemma_targets(bridge: BridgeView, events: Seq<EventView>)
    requires
        bridge.wf(),
    ensures
        state_after(bridge, events).wf(),
        bridge.holds_endpoint() || bridge.phase is Closed ==> state_after(bridge, events).socket
            == bridge.socket,
        forall|i: int|
            0 <= i < actions_of(bridge, events).len() ==> (#[trigger] target(
                actions_of(bridge, events)[i],
            ) matches Some(socket) ==> socket == state_after(bridge, events).socket
                && !socket.is_null()),
    decreases events.len(),
{
    if events.len() > 0 {
        let step = bridge.step(events[0]);
        let rest = events.drop_first();
        lemma_step_facts(bridge, events[0]);
        lemma_targets(step.next, rest);
        let run = actions_of(bridge, events);
        assert forall|i: int| 0 <= i < run.len() implies (#[trigger] target(run[i]) matches Some(
            socket,
        ) ==> socket == state_after(bridge, events).socket && !socket.is_null()) by {
            if i < step.actions.len() {
                assert(run[i] == step.actions[i]);
            } else {
                assert(run[i] == actions_of(step.next, rest)[i - step.actions.len()]);
            }
        }
    }
}

/// Whatever happens to a bridge, it stays within the states that
/// [`BridgeView::wf`] allows.
pub proof fn law_every_run_is_wf(path: Seq<u8>, events: Seq<EventView>)
    ensures
        state_after(BridgeView::fresh(path), events).wf(),
{
    lemma_targets(BridgeView::fresh(path), events);
}

/// Every action that touches an endpoint, over any run, touches the one
/// endpoint that the provider created for this bridge, and that is never the
/// null handle. So what one bridge does cannot reach the endpoint of
/// another.
pub proof fn law_actions_target_own_endpoint(path: Seq<u8>, events: Seq<EventView>)
    ensures
        forall|i: int|
            0 <= i < actions_of(BridgeView::fresh(path), events).len() ==> (#[trigger] target(
                actions_of(BridgeView::fresh(path), events)[i],
            ) matches Some(socket) ==> socket == state_after(
                BridgeView::fresh(path),
                events,
            ).socket && !socket.is_null()),
{
    lemma_targets(BridgeView::fresh(path), events);
}

/// A message that arrives while the endpoint does not support writes is
/// dropped: no write is asked for and the bridge goes on unchanged.
pub proof fn law_message_dropped_without_write_support(bridge: BridgeView, payload: Seq<u8>)
    requires
        bridge.phase == Phase::Running,
        !bridge.supports_write,
    ensures
        bridge.step(EventView::Message(payload)).next == bridge,
        bridge.step(EventView::Message(payload)).actions == Seq::<ActionView>::empty(),
{
}

/// Over any run the endpoint is asked for at most once, under the bridge's
/// own path, and its capabilities are queried at most once.
pub proof fn law_one_endpoint(path: Seq<u8>, events: Seq<EventView>)
    ensures
        count(actions_of(BridgeView::fresh(path), events), Tally::Create) <= 1,
        count(actions_of(BridgeView::fresh(path), events), Tally::Probe) <= 1,
        forall|i: int|
            0 <= i < actions_of(BridgeView::fresh(path), events).len() ==> (#[trigger] actions_of(
                BridgeView::fresh(path),
                events,
            )[i] matches ActionView::Create(asked) ==> asked == path),
{
    law_count(BridgeView::fresh(path), events, Tally::Create);
    law_count(BridgeView::fresh(path), events, Tally::Probe);
    lemma_creates(BridgeView::fresh(path), events);
}

proof fn lemma_creates(bridge: BridgeView, events: Seq<EventView>)
    requires
        bridge.wf(),
    ensures
        forall|i: int|
            0 <= i < actions_of(bridge, events).len() ==> (#[trigger] actions_of(
                bridge,
                events,
            )[i] matches ActionView::Create(asked) ==> asked == bridge.path),
    decreases events.len(),
{
    if events.len() > 0 {
        let step = bridge.step(events[0]);
        let rest = events.drop_first();
        lemma_step_facts(bridge, events[0]);
        lemma_creates(step.next, rest);
        let run = actions_of(bridge, events);
        assert forall|i: int| 0 <= i < run.len() implies (#[trigger] run[i] matches ActionView::Create(
            asked,
        ) ==> asked == bridge.path) by {
            if i < step.actions.len() {
                assert(run[i] == step.actions[i]);
            } else {
                assert(run[i] == actions_of(step.next, rest)[i - step.actions.len()]);
            }
        }
    }
}

proof fn lemma_unreadable(bridge: BridgeView, events: Seq<EventView>)
    requires
        bridge.wf(),
    ensures
        state_after(bridge, events).wf(),
        bridge.phase == Phase::Running || bridge.phase is Closed ==> state_after(
            bridge,
            events,
        ).supports_read == bridge.supports_read,
        !state_after(bridge, events).supports_read ==> forall|i: int|
            0 <= i < actions_of(bridge, events).len() ==> !(#[trigger] actions_of(
                bridge,
                events,
            )[i] is Read) && !(actions_of(bridge, events)[i] is Send),
    decreases events.len(),
{
    if events.len() > 0 {
        let step = bridge.step(events[0]);
        let rest = events.drop_first();
        lemma_step_facts(bridge, events[0]);
        lemma_unreadable(step.next, rest);
        let run = actions_of(bridge, events);
        if !state_after(bridge, events).supports_read {
            assert forall|i: int| 0 <= i < run.len() implies !(#[trigger] run[i] is Read) && !(
            run[i] is Send) by {
                if i < step.actions.len() {
                    assert(run[i] == step.actions[i]);
                } else {
                    assert(run[i] == actions_of(step.next, rest)[i - step.actions.len()]);
                }
            }
        }
    }
}

/// Where the endpoint does not support reads, the outbound pump never does
/// anything: over the whole run no read is asked for and nothing is sent to
/// the client, so the pump cannot end the bridge.
pub proof fn law_unreadable_endpoint_is_silent(path: Seq<u8>, events: Seq<EventView>)
    requires
        !state_after(BridgeView::fresh(path), events).supports_read,
    ensures
        forall|i: int|
            0 <= i < actions_of(BridgeView::fresh(path), events).len() ==> !(#[trigger] actions_of(
                BridgeView::fresh(path),
                events,
            )[i] is Read) && !(actions_of(BridgeView::fresh(path), events)[i] is Send),
        state_after(BridgeView::fresh(path), events).phase matches Phase::Closed(why) ==> why
            != Ending::Eof && why != Ending::ReadFailed && why != Ending::SendFailed,
{
    let fresh = BridgeView::fresh(path);
    lemma_unreadable(fresh, events);
    law_count(fresh, events, Tally::Close(CloseCode::Normal));
    law_count(fresh, events, Tally::Close(CloseCode::Error));
    lemma_send_failure_needs_reads(fresh, events);
}

proof fn lemma_send_failure_needs_reads(bridge: BridgeView, events: Seq<EventView>)
    requires
        bridge.wf(),
        bridge.phase is Closed ==> bridge.supports_read,
    ensures
        state_after(bridge, events).phase matches Phase::Closed(why) ==> (why == Ending::Eof || why
            == Ending::ReadFailed || why == Ending::SendFailed) ==> state_after(
            bridge,
            events,
        ).supports_read,
    decreases events.len(),
{
    if events.len() > 0 {
        let step = bridge.step(events[0]);
        lemma_step_facts(bridge, events[0]);
        if step.next.phase is Closed && !step.next.supports_read {
            law_closed_is_final(step.next, events.drop_first());
        } else {
            lemma_send_failure_needs_reads(step.next, events.drop_first());
        }
    }
}

proof fn lemma_forwarding(bridge: BridgeView)
    requires
        bridge.phase == Phase::Running,
        bridge.outbound == Outbound::Sending,
    ensures
        actions_of(bridge, sent(bridge.pending.len() + 1)) == sends(bridge.pending) + seq![
            ActionView::Read(bridge.socket),
        ],
        state_after(bridge, sent(bridge.pending.len() + 1)) == (BridgeView {
            outbound: Outbound::Reading,
            pending: Seq::empty(),
            ..bridge
        }),
    decreases bridge.pending.len(),
{
    let acks = sent(bridge.pending.len() + 1);
    let step = bridge.step(acks[0]);
    if bridge.pending.len() == 0 {
        assert(acks =~= seq![EventView::SendDone(true)]);
        lemma_run_single(bridge, EventView::SendDone(true));
        assert(sends(bridge.pending) + seq![ActionView::Read(bridge.socket)] =~= step.actions);
    } else {
        assert(acks.drop_first() =~= sent(step.next.pending.len() + 1));
        lemma_forwarding(step.next);
        assert(actions_of(bridge, acks) =~= sends(bridge.pending) + seq![
            ActionView::Read(bridge.socket),
        ]);
    }
}

/// A batch of data is forwarded read by read, in order, text for the reads
/// that are out of band and binary for the others: when each send succeeds,
/// the bridge has asked for exactly these sends and then for the next read,
/// and is back where it was.
pub proof fn law_batch_is_forwarded_in_order(bridge: BridgeView, batch: ReadsView)
    requires
        bridge.phase == Phase::Running,
        bridge.outbound == Outbound::Reading,
        bridge.pending.len() == 0,
        batch.read_count > 0,
        batch.wf(),
    ensures
        actions_of(
            bridge,
            seq![EventView::ReadDone(batch)] + sent(batch.read_count as nat),
        ) == sends(batch.reads) + seq![ActionView::Read(bridge.socket)],
        state_after(bridge, seq![EventView::ReadDone(batch)] + sent(batch.read_count as nat))
            == bridge,
{
    let read = seq![EventView::ReadDone(batch)];
    let acks = sent(batch.read_count as nat);
    let step = bridge.step(EventView::ReadDone(batch));
    lemma_run_single(bridge, EventView::ReadDone(batch));
    law_run_concat(bridge, read, acks);
    assert(acks =~= sent(step.next.pending.len() + 1));
    lemma_forwarding(step.next);
    assert(bridge.pending =~= Seq::<ReadView>::empty());
    assert(step.actions + (sends(step.next.pending) + seq![ActionView::Read(bridge.socket)])
        =~= sends(batch.reads) + seq![ActionView::Read(bridge.socket)]);
}

/// Two bridges whose endpoints differ never touch each other's endpoint:
/// whatever one of them reads, writes or destroys, it is not the endpoint of
/// the other.
pub proof fn law_bridges_keep_apart(
    one_path: Seq<u8>,
    one_events: Seq<EventView>,
    other_path: Seq<u8>,
    other_events: Seq<EventView>,
)
    requires
        state_after(BridgeView::fresh(one_path), one_events).socket != state_after(
            BridgeView::fresh(other_path),
            other_events,
        ).socket,
    ensures
        forall|i: int, j: int|
            0 <= i < actions_of(BridgeView::fresh(one_path), one_events).len() && 0 <= j
                < actions_of(BridgeView::fresh(other_path), other_events).len() ==> (
            #[trigger] target(actions_of(BridgeView::fresh(one_path), one_events)[i]) is None
                || #[trigger] target(actions_of(BridgeView::fresh(other_path), other_events)[j])
                is None || target(actions_of(BridgeView::fresh(one_path), one_events)[i])
                != target(actions_of(BridgeView::fresh(other_path), other_events)[j])),
{
    law_actions_target_own_endpoint(one_path, one_events);
    law_actions_target_own_endpoint(other_path, other_events);
}

} // verus!
