//! The slot that tracks which local model is current.
//!
//! A temporary operation (reprocessing a recording, the long-audio fallback)
//! opens a [`RestoreTicket`] before it switches the model and hands it back
//! afterwards. Tickets nest like a stack: the most recently opened one must be
//! the first to restore. An explicit selection that lands after a ticket was
//! opened is never overwritten by it.

use std::collections::VecDeque;

use vstd::prelude::*;

use crate::text::clone_optional_text;

verus! {

/// Distinguishes a permanent change of the current model from the working
/// switch of a temporary operation. Only `Explicit` changes count as a newer
/// choice that a pending restore must respect.
#[derive(Clone, Copy, Debug, PartialEq, Eq, Structural)]
pub enum MutationKind {
    Explicit,
    Temporary,
}

/// What became of a [`RestoreTicket`].
#[derive(Debug, PartialEq, Eq)]
pub enum RestoreOutcome {
    /// The slot matches the requested state.
    Restored,
    /// A newer explicit selection landed after the ticket was opened; it stays.
    Superseded,
    /// The restore was attempted but the underlying load or unload failed.
    Failed(String),
}

/// The contents of a [`RestoreOutcome`].
pub enum OutcomeView {
    Restored,
    Superseded,
    Failed(Seq<char>),
}

impl View for RestoreOutcome {
    type V = OutcomeView;

    open spec fn view(&self) -> OutcomeView {
        match self {
            RestoreOutcome::Restored => OutcomeView::Restored,
            RestoreOutcome::Superseded => OutcomeView::Superseded,
            RestoreOutcome::Failed(error) => OutcomeView::Failed(error@),
        }
    }
}

/// What the holder of a ticket has to do next.
#[derive(Debug, PartialEq, Eq)]
pub enum RestoreStep {
    /// The ticket is closed.
    Finished(RestoreOutcome),
    /// Load this model (or unload, for `None`), then call
    /// [`VersionedModelSlot::finish_restore`] with the result.
    Apply(Option<String>),
    /// A more recent ticket has to be resolved first.
    Wait,
}

/// The contents of a [`RestoreStep`].
pub enum StepView {
    Finished(OutcomeView),
    Apply(Option<Seq<char>>),
    Wait,
}

impl View for RestoreStep {
    type V = StepView;

    open spec fn view(&self) -> StepView {
        match self {
            RestoreStep::Finished(outcome) => StepView::Finished(outcome@),
            RestoreStep::Apply(target) => StepView::Apply(crate::text::optional_text(*target)),
            RestoreStep::Wait => StepView::Wait,
        }
    }
}

/// The claim of a temporary operation on bringing back the model that was
/// current before its own switch.
#[derive(Debug)]
pub struct RestoreTicket {
    id: u64,
    restore_to: Option<String>,
    explicit_epoch_at_open: u64,
}

/// The contents of a [`RestoreTicket`].
pub struct TicketView {
    pub id: u64,
    pub restore_to: Option<Seq<char>>,
    pub explicit_epoch: nat,
}

impl View for RestoreTicket {
    type V = TicketView;

    closed spec fn view(&self) -> TicketView {
        TicketView {
            id: self.id,
            restore_to: crate::text::optional_text(self.restore_to),
            explicit_epoch: self.explicit_epoch_at_open as nat,
        }
    }
}

/// The current model and the bookkeeping that lets temporary operations unwind
/// in the right order.
#[derive(Debug)]
pub struct VersionedModelSlot {
    current: Option<String>,
    generation: u64,
    explicit_epoch: u64,
    next_ticket: u64,
    tickets: VecDeque<u64>,
}

/// The state of a [`VersionedModelSlot`]:
/// - `generation` counts every change of the current model;
/// - `explicit_epoch` counts the explicit ones;
/// - `tickets` is the stack of the open tickets, the most recent one last.
pub struct SlotView {
    pub current: Option<Seq<char>>,
    pub generation: nat,
    pub explicit_epoch: nat,
    pub next_ticket: nat,
    pub tickets: Seq<u64>,
}

impl View for VersionedModelSlot {
    type V = SlotView;

    closed spec fn view(&self) -> SlotView {
        SlotView {
            current: crate::text::optional_text(self.current),
            generation: self.generation as nat,
            explicit_epoch: self.explicit_epoch as nat,
            next_ticket: self.next_ticket as nat,
            tickets: self.tickets@,
        }
    }
}

/// Ticket numbers were handed out in increasing order.
pub open spec fn slot_wf(s: SlotView) -> bool {
    &&& forall|i: int| 0 <= i < s.tickets.len() ==> (#[trigger] s.tickets[i]) < s.next_ticket
    &&& forall|i: int, j: int|
        0 <= i < j < s.tickets.len() ==> #[trigger] s.tickets[i] < #[trigger] s.tickets[j]
}

/// The counters have room for another change of the model.
pub open spec fn has_room(s: SlotView, kind: MutationKind) -> bool {
    s.generation < u64::MAX && (kind == MutationKind::Explicit ==> s.explicit_epoch < u64::MAX)
}

/// The slot after `model` became current.
pub open spec fn after_set(
    s: SlotView,
    kind: MutationKind,
    model: Option<Seq<char>>,
) -> SlotView {
    SlotView {
        current: model,
        generation: s.generation + 1,
        explicit_epoch: if kind == MutationKind::Explicit {
            s.explicit_epoch + 1
        } else {
            s.explicit_epoch
        },
        ..s
    }
}

/// The ticket that the slot hands out next, with the baseline `restore_to`.
pub open spec fn next_ticket_of(s: SlotView, restore_to: Option<Seq<char>>) -> TicketView {
    TicketView { id: s.next_ticket as u64, restore_to, explicit_epoch: s.explicit_epoch }
}

/// The slot after a ticket was opened.
pub open spec fn after_open(s: SlotView) -> SlotView {
    SlotView {
        next_ticket: s.next_ticket + 1,
        tickets: s.tickets.push(s.next_ticket as u64),
        ..s
    }
}

/// The stack without the ticket `id`.
pub open spec fn without_ticket(tickets: Seq<u64>, id: u64) -> Seq<u64> {
    tickets.filter(|t: u64| t != id)
}

/// The slot after the ticket `id` was closed.
pub open spec fn after_close(s: SlotView, id: u64) -> SlotView {
    SlotView { tickets: without_ticket(s.tickets, id), ..s }
}

/// The ticket `id` is the most recently opened one.
pub open spec fn is_top(s: SlotView, id: u64) -> bool {
    s.tickets.len() > 0 && s.tickets.last() == id
}

/// What the holder of `ticket` has to do next.
pub open spec fn restore_step(s: SlotView, ticket: TicketView) -> StepView {
    if s.explicit_epoch != ticket.explicit_epoch {
        StepView::Finished(OutcomeView::Superseded)
    } else if !is_top(s, ticket.id) {
        StepView::Wait
    } else if s.current == ticket.restore_to {
        StepView::Finished(OutcomeView::Restored)
    } else {
        StepView::Apply(ticket.restore_to)
    }
}

/// The slot after `ticket` asked what to do next.
pub open spec fn after_restore_step(s: SlotView, ticket: TicketView) -> SlotView {
    if restore_step(s, ticket) is Finished {
        after_close(s, ticket.id)
    } else {
        s
    }
}

/// The slot after `ticket` was restored and whatever it asked to load was loaded.
pub open spec fn after_restore(s: SlotView, ticket: TicketView) -> SlotView {
    match restore_step(s, ticket) {
        StepView::Finished(_) => after_close(s, ticket.id),
        StepView::Apply(model) => after_close(
            after_set(s, MutationKind::Temporary, model),
            ticket.id,
        ),
        StepView::Wait => s,
    }
}

proof fn lemma_filter_keeps_all(tickets: Seq<u64>, id: u64)
    requires
        forall|i: int| 0 <= i < tickets.len() ==> #[trigger] tickets[i] != id,
    ensures
        without_ticket(tickets, id) == tickets,
    decreases tickets.len(),
{
    reveal(Seq::filter);
    if tickets.len() > 0 {
        lemma_filter_keeps_all(tickets.drop_last(), id);
        assert(tickets.last() != id);
        assert(tickets.drop_last().push(tickets.last()) == tickets);
    }
}

proof fn lemma_filter_push(tickets: Seq<u64>, t: u64, id: u64)
    ensures
        without_ticket(tickets.push(t), id) == (if t == id {
            without_ticket(tickets, id)
        } else {
            without_ticket(tickets, id).push(t)
        }),
{
    reveal(Seq::filter);
    assert(tickets.push(t).drop_last() == tickets);
}

/// Every number of the stack without `id` stands in the stack and is not `id`.
proof fn lemma_filter_members(tickets: Seq<u64>, id: u64)
    ensures
        forall|i: int|
            0 <= i < without_ticket(tickets, id).len() ==> (#[trigger] without_ticket(
                tickets,
                id,
            )[i]) != id && tickets.contains(without_ticket(tickets, id)[i]),
    decreases tickets.len(),
{
    reveal(Seq::filter);
    if tickets.len() > 0 {
        let rest = tickets.drop_last();
        lemma_filter_members(rest, id);
        let all = without_ticket(tickets, id);
        let kept = without_ticket(rest, id);
        assert forall|i: int| 0 <= i < all.len() implies (#[trigger] all[i]) != id
            && tickets.contains(all[i]) by {
            if i < kept.len() {
                assert(all[i] == kept[i]);
                let j = choose|j: int| 0 <= j < rest.len() && rest[j] == kept[i];
                assert(tickets[j] == all[i]);
            } else {
                assert(all[i] == tickets.last());
                assert(tickets[tickets.len() - 1] == all[i]);
            }
        }
    }
}

/// Closing a ticket keeps the numbers in increasing order.
pub proof fn closing_keeps_the_order(s: SlotView, id: u64)
    requires
        slot_wf(s),
    ensures
        slot_wf(after_close(s, id)),
    decreases s.tickets.len(),
{
    if s.tickets.len() == 0 {
        reveal(Seq::filter);
    } else {
        let rest = SlotView { tickets: s.tickets.drop_last(), ..s };
        closing_keeps_the_order(rest, id);
        lemma_filter_members(rest.tickets, id);
        let last = s.tickets.last();
        assert(s.tickets == rest.tickets.push(last));
        lemma_filter_push(rest.tickets, last, id);
        let kept = without_ticket(rest.tickets, id);
        let all = without_ticket(s.tickets, id);
        assert forall|i: int| 0 <= i < kept.len() implies (#[trigger] kept[i]) < last by {
            assert(rest.tickets.contains(kept[i]));
            let j = choose|j: int| 0 <= j < rest.tickets.len() && rest.tickets[j] == kept[i];
            assert(s.tickets[j] < s.tickets[s.tickets.len() - 1]);
        }
        assert forall|i: int, j: int| 0 <= i < j < all.len() implies #[trigger] all[i]
            < #[trigger] all[j] by {
            if j < kept.len() {
                let closed = after_close(rest, id).tickets;
                assert(closed[i] < closed[j]);
            }
        }
        assert forall|i: int| 0 <= i < all.len() implies (#[trigger] all[i]) < s.next_ticket by {
            if i < kept.len() {
                assert(kept[i] < rest.next_ticket);
            }
        }
    }
}

/// Closing the most recent ticket takes it off the stack.
pub proof fn closing_the_top_pops_it(s: SlotView, id: u64)
    requires
        slot_wf(s),
        is_top(s, id),
    ensures
        after_close(s, id).tickets == s.tickets.drop_last(),
{
    let rest = s.tickets.drop_last();
    assert(s.tickets == rest.push(id));
    lemma_filter_push(rest, id, id);
    assert forall|i: int| 0 <= i < rest.len() implies #[trigger] rest[i] != id by {
        assert(s.tickets[i] < s.tickets[s.tickets.len() - 1]);
    }
    lemma_filter_keeps_all(rest, id);
}

/// A closed ticket is no longer on the stack, and every other one still is.
pub proof fn closing_removes_exactly_that_ticket(s: SlotView, id: u64)
    ensures
        !after_close(s, id).tickets.contains(id),
        forall|other: u64|
            other != id ==> after_close(s, id).tickets.contains(other) == #[trigger] s.tickets.contains(
                other,
            ),
    decreases s.tickets.len(),
{
    lemma_filter_members(s.tickets, id);
    reveal(Seq::filter);
    if s.tickets.len() > 0 {
        let last = s.tickets.last();
        let rest = SlotView { tickets: s.tickets.drop_last(), ..s };
        closing_removes_exactly_that_ticket(rest, id);
        let all = after_close(s, id).tickets;
        let kept = after_close(rest, id).tickets;
        assert(s.tickets == rest.tickets.push(last));
        lemma_filter_push(rest.tickets, last, id);
        assert forall|other: u64| other != id implies all.contains(other)
            == #[trigger] s.tickets.contains(other) by {
            assert(rest.tickets.contains(other) == kept.contains(other));
            if s.tickets.contains(other) {
                let j = choose|j: int| 0 <= j < s.tickets.len() && s.tickets[j] == other;
                if j < rest.tickets.len() {
                    assert(rest.tickets[j] == other);
                    let k = choose|k: int| 0 <= k < kept.len() && kept[k] == other;
                    assert(all[k] == other);
                } else {
                    assert(all[all.len() - 1] == other);
                }
            }
            if all.contains(other) {
                let k = choose|k: int| 0 <= k < all.len() && all[k] == other;
                assert(s.tickets.contains(all[k]));
            }
        }
    }
}

/// Opening a ticket keeps the numbers in increasing order, and the new ticket
/// is the most recent one.
pub proof fn opening_puts_the_ticket_on_top(s: SlotView, restore_to: Option<Seq<char>>)
    requires
        slot_wf(s),
        s.next_ticket < u64::MAX,
    ensures
        slot_wf(after_open(s)),
        is_top(after_open(s), next_ticket_of(s, restore_to).id),
        !s.tickets.contains(next_ticket_of(s, restore_to).id),
{
}

/// A ticket that is abandoned right away leaves the stack as it was: the one
/// beneath it is the most recent one again.
pub proof fn abandoning_uncovers_the_ticket_beneath(s: SlotView, restore_to: Option<Seq<char>>)
    requires
        slot_wf(s),
        s.next_ticket < u64::MAX,
    ensures
        after_close(after_open(s), next_ticket_of(s, restore_to).id) == (SlotView {
            next_ticket: s.next_ticket + 1,
            ..s
        }),
{
    opening_puts_the_ticket_on_top(s, restore_to);
    closing_the_top_pops_it(after_open(s), next_ticket_of(s, restore_to).id);
    assert(after_open(s).tickets.drop_last() == s.tickets);
}

/// The working switch of a temporary operation does not count as a newer
/// explicit choice.
pub proof fn temporary_switches_keep_the_epoch(s: SlotView, model: Option<Seq<char>>)
    ensures
        after_set(s, MutationKind::Temporary, model).explicit_epoch == s.explicit_epoch,
        after_set(s, MutationKind::Temporary, model).tickets == s.tickets,
{
}

/// An explicit selection that lands after a ticket was opened survives it: the
/// restore reports `Superseded`, asks for no load, and only closes the ticket.
pub proof fn an_explicit_selection_is_never_clobbered(
    s: SlotView,
    model: Option<Seq<char>>,
    ticket: TicketView,
)
    requires
        ticket.explicit_epoch <= s.explicit_epoch,
    ensures
        ({
            let selected = after_set(s, MutationKind::Explicit, model);
            &&& restore_step(selected, ticket) == StepView::Finished(OutcomeView::Superseded)
            &&& after_restore(selected, ticket).current == model
            &&& after_restore(selected, ticket) == after_close(selected, ticket.id)
        }),
{
}

/// No operation lowers the explicit epoch, so a superseded ticket stays
/// superseded whatever happens in between.
pub proof fn a_superseded_ticket_stays_superseded(
    s: SlotView,
    ticket: TicketView,
    kind: MutationKind,
    model: Option<Seq<char>>,
    other: TicketView,
)
    requires
        ticket.explicit_epoch < s.explicit_epoch,
    ensures
        ticket.explicit_epoch < after_set(s, kind, model).explicit_epoch,
        ticket.explicit_epoch < after_open(s).explicit_epoch,
        ticket.explicit_epoch < after_close(s, other.id).explicit_epoch,
        ticket.explicit_epoch < after_restore(s, other).explicit_epoch,
        restore_step(s, ticket) == StepView::Finished(OutcomeView::Superseded),
{
}

/// A ticket beneath a more recent one waits and changes nothing.
pub proof fn a_ticket_beneath_another_waits(s: SlotView, ticket: TicketView)
    requires
        s.explicit_epoch == ticket.explicit_epoch,
        !is_top(s, ticket.id),
    ensures
        restore_step(s, ticket) == StepView::Wait,
        after_restore(s, ticket) == s,
{
}

/// The slot after a temporary operation opened its ticket and switched to `model`.
pub open spec fn after_begin(s: SlotView, model: Option<Seq<char>>) -> SlotView {
    after_set(after_open(s), MutationKind::Temporary, model)
}

/// The slot after temporary operations began one inside the other, each with
/// its own model.
pub open spec fn after_nested(s: SlotView, models: Seq<Option<Seq<char>>>) -> SlotView
    decreases models.len(),
{
    if models.len() == 0 {
        s
    } else {
        after_begin(after_nested(s, models.drop_last()), models.last())
    }
}

/// The tickets that those operations hold.
pub open spec fn nested_tickets(s: SlotView, models: Seq<Option<Seq<char>>>) -> Seq<TicketView>
    decreases models.len(),
{
    if models.len() == 0 {
        Seq::empty()
    } else {
        let before = after_nested(s, models.drop_last());
        nested_tickets(s, models.drop_last()).push(next_ticket_of(before, before.current))
    }
}

/// The slot after the tickets were restored, the most recent one first.
pub open spec fn after_unwinding(s: SlotView, tickets: Seq<TicketView>) -> SlotView
    decreases tickets.len(),
{
    if tickets.len() == 0 {
        s
    } else {
        after_unwinding(after_restore(s, tickets.last()), tickets.drop_last())
    }
}

/// Two slots that agree on everything but the counters of past changes.
pub open spec fn same_state(a: SlotView, b: SlotView) -> bool {
    a.current == b.current && a.tickets == b.tickets && a.explicit_epoch == b.explicit_epoch
}

proof fn lemma_unwinding_same_state(a: SlotView, b: SlotView, tickets: Seq<TicketView>)
    requires
        same_state(a, b),
    ensures
        same_state(after_unwinding(a, tickets), after_unwinding(b, tickets)),
    decreases tickets.len(),
{
    if tickets.len() > 0 {
        lemma_unwinding_same_state(
            after_restore(a, tickets.last()),
            after_restore(b, tickets.last()),
            tickets.drop_last(),
        );
    }
}

/// A temporary operation that restores its ticket leaves the slot as it found it.
pub proof fn one_temporary_operation_unwinds(s: SlotView, model: Option<Seq<char>>)
    requires
        slot_wf(s),
        s.next_ticket < u64::MAX,
    ensures
        restore_step(after_begin(s, model), next_ticket_of(s, s.current)) !is Wait,
        same_state(after_restore(after_begin(s, model), next_ticket_of(s, s.current)), s),
        slot_wf(after_begin(s, model)),
{
    let ticket = next_ticket_of(s, s.current);
    let begun = after_begin(s, model);
    opening_puts_the_ticket_on_top(s, s.current);
    assert(slot_wf(begun));
    assert(is_top(begun, ticket.id));
    closing_the_top_pops_it(begun, ticket.id);
    assert(begun.tickets.drop_last() == s.tickets);
    let switched = after_set(begun, MutationKind::Temporary, ticket.restore_to);
    assert(slot_wf(switched));
    assert(is_top(switched, ticket.id));
    closing_the_top_pops_it(switched, ticket.id);
}

proof fn lemma_nested_wf(s: SlotView, models: Seq<Option<Seq<char>>>)
    requires
        slot_wf(s),
        s.next_ticket + models.len() <= u64::MAX,
    ensures
        slot_wf(after_nested(s, models)),
        after_nested(s, models).next_ticket == s.next_ticket + models.len(),
    decreases models.len(),
{
    if models.len() > 0 {
        lemma_nested_wf(s, models.drop_last());
        let before = after_nested(s, models.drop_last());
        opening_puts_the_ticket_on_top(before, before.current);
    }
}

/// Temporary operations that begin one inside the other and restore in reverse
/// order bring back the true baseline, whatever models they switched to and
/// however deep they nest.
pub proof fn nested_temporary_operations_unwind_to_the_baseline(
    s: SlotView,
    models: Seq<Option<Seq<char>>>,
)
    requires
        slot_wf(s),
        s.next_ticket + models.len() <= u64::MAX,
    ensures
        same_state(after_unwinding(after_nested(s, models), nested_tickets(s, models)), s),
    decreases models.len(),
{
    if models.len() > 0 {
        let inner = models.drop_last();
        let before = after_nested(s, inner);
        let tickets = nested_tickets(s, models);
        lemma_nested_wf(s, inner);
        one_temporary_operation_unwinds(before, models.last());
        assert(tickets.drop_last() == nested_tickets(s, inner));
        nested_temporary_operations_unwind_to_the_baseline(s, inner);
        lemma_unwinding_same_state(
            after_restore(after_begin(before, models.last()), next_ticket_of(before, before.current)),
            before,
            nested_tickets(s, inner),
        );
    }
}

/// Tickets that are restored in competition: the slot, which of the tickets are
/// not closed yet, and which were closed, in the order in which that happened.
pub struct Unwinding {
    pub slot: SlotView,
    pub open: Set<int>,
    pub closed: Seq<int>,
}

/// The tickets `0` to `n - 1`, none of them closed.
pub open spec fn unwinding_of(s: SlotView, n: nat) -> Unwinding {
    Unwinding { slot: s, open: Set::new(|i: int| 0 <= i < n), closed: Seq::empty() }
}

/// The holder of ticket `i` asks once: it waits, or it is restored, with
/// whatever it asks to load loaded, and closed. A closed ticket has no holder
/// that could ask.
pub open spec fn after_ask(u: Unwinding, tickets: Seq<TicketView>, i: int) -> Unwinding {
    if u.open.contains(i) && restore_step(u.slot, tickets[i]) !is Wait {
        Unwinding {
            slot: after_restore(u.slot, tickets[i]),
            open: u.open.remove(i),
            closed: u.closed.push(i),
        }
    } else {
        u
    }
}

/// The holders ask in the given order, each as often as it occurs in it.
pub open spec fn after_asks(u: Unwinding, tickets: Seq<TicketView>, asks: Seq<int>) -> Unwinding
    decreases asks.len(),
{
    if asks.len() == 0 {
        u
    } else {
        after_ask(after_asks(u, tickets, asks.drop_last()), tickets, asks.last())
    }
}

/// What the tickets of nested operations hold.
proof fn lemma_nested_tickets(s: SlotView, models: Seq<Option<Seq<char>>>, i: int)
    requires
        slot_wf(s),
        s.next_ticket + models.len() <= u64::MAX,
        0 <= i < models.len(),
    ensures
        nested_tickets(s, models).len() == models.len(),
        nested_tickets(s, models)[i] == next_ticket_of(
            after_nested(s, models.take(i)),
            after_nested(s, models.take(i)).current,
        ),
        nested_tickets(s, models)[i].id == s.next_ticket + i,
        nested_tickets(s, models)[i].explicit_epoch == s.explicit_epoch,
    decreases models.len(),
{
    let inner = models.drop_last();
    lemma_nested_length(s, models);
    lemma_nested_length(s, inner);
    lemma_nested_wf(s, models.take(i));
    lemma_nested_epoch(s, models.take(i));
    if i < inner.len() {
        lemma_nested_tickets(s, inner, i);
        assert(inner.take(i) == models.take(i));
    } else {
        assert(models.take(i) == inner);
    }
}

proof fn lemma_nested_length(s: SlotView, models: Seq<Option<Seq<char>>>)
    ensures
        nested_tickets(s, models).len() == models.len(),
    decreases models.len(),
{
    if models.len() > 0 {
        lemma_nested_length(s, models.drop_last());
    }
}

proof fn lemma_nested_epoch(s: SlotView, models: Seq<Option<Seq<char>>>)
    ensures
        after_nested(s, models).explicit_epoch == s.explicit_epoch,
    decreases models.len(),
{
    if models.len() > 0 {
        lemma_nested_epoch(s, models.drop_last());
    }
}

/// The state of the competition once `k` tickets are left: these are the first
/// ones, and the slot is as it was when the last of them was opened and its
/// operation had switched the model.
spec fn has_left(
    u: Unwinding,
    s: SlotView,
    models: Seq<Option<Seq<char>>>,
    k: int,
) -> bool {
    &&& 0 <= k <= models.len()
    &&& same_state(u.slot, after_nested(s, models.take(k)))
    &&& u.open =~= Set::new(|i: int| 0 <= i < k)
    &&& u.closed =~= Seq::new((models.len() - k) as nat, |i: int| models.len() - 1 - i)
}

/// Of the tickets that are left, the last one can be restored, and every other
/// one waits.
proof fn lemma_only_the_last_goes(
    u: Unwinding,
    s: SlotView,
    models: Seq<Option<Seq<char>>>,
    k: int,
    i: int,
)
    requires
        slot_wf(s),
        s.next_ticket + models.len() <= u64::MAX,
        has_left(u, s, models, k),
        0 <= i < k,
    ensures
        ({
            let step = restore_step(u.slot, nested_tickets(s, models)[i]);
            &&& i < k - 1 ==> step == StepView::Wait
            &&& i == k - 1 ==> {
                ||| step == StepView::Finished(OutcomeView::Restored)
                ||| step == StepView::Apply(nested_tickets(s, models)[i].restore_to)
            }
        }),
        i == k - 1 ==> has_left(after_ask(u, nested_tickets(s, models), i), s, models, k - 1),
{
    let tickets = nested_tickets(s, models);
    lemma_nested_tickets(s, models, i);
    lemma_nested_tickets(s, models, k - 1);
    let before = after_nested(s, models.take(k - 1));
    let here = after_nested(s, models.take(k));
    lemma_nested_wf(s, models.take(k - 1));
    lemma_nested_epoch(s, models.take(k));
    assert(models.take(k).drop_last() == models.take(k - 1));
    assert(models.take(k).last() == models[k - 1]);
    assert(here == after_begin(before, models[k - 1]));
    assert(here.tickets.last() == tickets[k - 1].id);
    if i == k - 1 {
        one_temporary_operation_unwinds(before, models[k - 1]);
        let next = after_ask(u, tickets, i);
        assert(same_state(next.slot, before));
    }
}

/// Tickets of operations that began one inside the other, asked for in any order
/// and as often as their holders like, take effect from the last to the first:
/// one beneath another waits until that one is closed, none is superseded, and
/// the last one that is left can always go on. Once every ticket is closed, the
/// slot is back at the true baseline, the one of the first ticket, whatever
/// models the operations had switched to.
pub proof fn tickets_unwind_from_the_last_to_the_first(
    s: SlotView,
    models: Seq<Option<Seq<char>>>,
    asks: Seq<int>,
)
    requires
        slot_wf(s),
        s.next_ticket + models.len() <= u64::MAX,
    ensures
        ({
            let tickets = nested_tickets(s, models);
            let n = models.len() as int;
            let end = after_asks(
                unwinding_of(after_nested(s, models), models.len()),
                tickets,
                asks,
            );
            let left = n - end.closed.len();
            &&& tickets.len() == n
            &&& 0 <= left <= n
            &&& end.closed == Seq::new((n - left) as nat, |i: int| n - 1 - i)
            &&& end.open == Set::new(|i: int| 0 <= i < left)
            &&& forall|i: int|
                0 <= i < left - 1 ==> restore_step(end.slot, #[trigger] tickets[i])
                    == StepView::Wait
            &&& left > 0 ==> {
                let step = restore_step(end.slot, tickets[left - 1]);
                ||| step == StepView::Finished(OutcomeView::Restored)
                ||| step == StepView::Apply(tickets[left - 1].restore_to)
            }
            &&& left == 0 ==> same_state(end.slot, s)
            &&& left == 0 && n > 0 ==> end.slot.current == tickets[0].restore_to
        }),
{
    let tickets = nested_tickets(s, models);
    let start = unwinding_of(after_nested(s, models), models.len());
    let end = after_asks(start, tickets, asks);
    let left = models.len() - end.closed.len();
    lemma_nested_length(s, models);
    lemma_asks_leave_the_first(s, models, asks);
    assert forall|i: int| 0 <= i < left - 1 implies restore_step(end.slot, #[trigger] tickets[i])
        == StepView::Wait by {
        lemma_only_the_last_goes(end, s, models, left, i);
    }
    if left > 0 {
        lemma_only_the_last_goes(end, s, models, left, left - 1);
    } else {
        assert(models.take(0) == Seq::<Option<Seq<char>>>::empty());
        if models.len() > 0 {
            lemma_nested_tickets(s, models, 0);
        }
    }
}

proof fn lemma_asks_leave_the_first(
    s: SlotView,
    models: Seq<Option<Seq<char>>>,
    asks: Seq<int>,
)
    requires
        slot_wf(s),
        s.next_ticket + models.len() <= u64::MAX,
    ensures
        ({
            let end = after_asks(
                unwinding_of(after_nested(s, models), models.len()),
                nested_tickets(s, models),
                asks,
            );
            has_left(end, s, models, models.len() - end.closed.len())
        }),
    decreases asks.len(),
{
    let tickets = nested_tickets(s, models);
    let start = unwinding_of(after_nested(s, models), models.len());
    if asks.len() == 0 {
        assert(models.take(models.len() as int) == models);
    } else {
        lemma_asks_leave_the_first(s, models, asks.drop_last());
        let before = after_asks(start, tickets, asks.drop_last());
        let k = models.len() - before.closed.len();
        let i = asks.last();
        if before.open.contains(i) {
            lemma_only_the_last_goes(before, s, models, k, i);
        }
    }
}

/// Raises `counter` by one and returns what it was.
pub fn checked_bump(counter: &mut u64) -> (r: u64)
    requires
        *old(counter) < u64::MAX,
    ensures
        r == *old(counter),
        *final(counter) == *old(counter) + 1,
    no_unwind
{
    let before: u64 = *counter;
    *counter = before + 1;
    before
}

/// Whether two optional texts are equal.
fn same_optional(a: &Option<String>, b: &Option<String>) -> (r: bool)
    ensures
        r == (crate::text::optional_text(*a) == crate::text::optional_text(*b)),
{
    match (a, b) {
        (Some(x), Some(y)) => *x == *y,
        (None, None) => true,
        _ => false,
    }
}

impl VersionedModelSlot {
    #[verifier::type_invariant]
    spec fn tickets_are_ordered(self) -> bool {
        slot_wf(self@)
    }

    /// A slot without a model and without tickets.
    pub fn new() -> (r: Self)
        ensures
            r@ == (SlotView {
                current: None,
                generation: 0,
                explicit_epoch: 0,
                next_ticket: 0,
                tickets: Seq::empty(),
            }),
    {
        VersionedModelSlot {
            current: None,
            generation: 0,
            explicit_epoch: 0,
            next_ticket: 0,
            tickets: VecDeque::new(),
        }
    }

    /// The current model.
    pub fn current(&self) -> (r: Option<String>)
        ensures
            crate::text::optional_text(r) == self@.current,
    {
        clone_optional_text(&self.current)
    }

    /// Whether the counters have room for another change of the model.
    pub fn can_set(&self, kind: MutationKind) -> (r: bool)
        ensures
            r == has_room(self@, kind),
            r <==> self@.generation < u64::MAX && (kind == MutationKind::Temporary
                || self@.explicit_epoch < u64::MAX),
    {
        self.generation < u64::MAX && (kind == MutationKind::Temporary || self.explicit_epoch
            < u64::MAX)
    }

    /// Whether there is a number left for another ticket.
    pub fn can_open_ticket(&self) -> (r: bool)
        ensures
            r == (self@.next_ticket < u64::MAX),
    {
        self.next_ticket < u64::MAX
    }

    /// Makes `model_id` current.
    pub fn set(&mut self, kind: MutationKind, model_id: Option<String>)
        requires
            has_room(old(self)@, kind),
        ensures
            final(self)@ == after_set(old(self)@, kind, crate::text::optional_text(model_id)),
            model_id is None ==> final(self)@.current is None,
            model_id matches Some(id) ==> final(self)@.current == Some(id@),
            final(self)@.generation == old(self)@.generation + 1,
            kind == MutationKind::Explicit ==> final(self)@.explicit_epoch == old(
                self,
            )@.explicit_epoch + 1,
            kind == MutationKind::Temporary ==> final(self)@.explicit_epoch == old(
                self,
            )@.explicit_epoch,
            final(self)@.tickets == old(self)@.tickets,
            final(self)@.next_ticket == old(self)@.next_ticket,
    {
        proof {
            use_type_invariant(&*self);
        }
        self.current = model_id;
        let mut generation: u64 = self.generation;
        checked_bump(&mut generation);
        self.generation = generation;
        if kind == MutationKind::Explicit {
            let mut epoch: u64 = self.explicit_epoch;
            checked_bump(&mut epoch);
            self.explicit_epoch = epoch;
        }
    }

    /// Registers a restore ticket with the baseline `restore_to`.
    pub fn open_ticket(&mut self, restore_to: Option<String>) -> (r: RestoreTicket)
        requires
            old(self)@.next_ticket < u64::MAX,
        ensures
            r@ == next_ticket_of(old(self)@, crate::text::optional_text(restore_to)),
            final(self)@ == after_open(old(self)@),
            r@.id == old(self)@.next_ticket,
            r@.explicit_epoch == old(self)@.explicit_epoch,
            restore_to is None ==> r@.restore_to is None,
            restore_to matches Some(id) ==> r@.restore_to == Some(id@),
            final(self)@.tickets == old(self)@.tickets.push(r@.id),
            final(self)@.next_ticket == old(self)@.next_ticket + 1,
            final(self)@.current == old(self)@.current,
            final(self)@.explicit_epoch == old(self)@.explicit_epoch,
    {
        proof {
            use_type_invariant(&*self);
            opening_puts_the_ticket_on_top(self@, crate::text::optional_text(restore_to));
        }
        let mut next: u64 = self.next_ticket;
        let id: u64 = checked_bump(&mut next);
        let mut tickets: VecDeque<u64> = VecDeque::new();
        std::mem::swap(&mut tickets, &mut self.tickets);
        tickets.push_back(id);
        self.next_ticket = next;
        self.tickets = tickets;
        RestoreTicket { id, restore_to, explicit_epoch_at_open: self.explicit_epoch }
    }

    /// Drops a ticket whose switch never happened: there is nothing to restore.
    pub fn abandon_ticket(&mut self, ticket: &RestoreTicket)
        ensures
            final(self)@ == after_close(old(self)@, ticket@.id),
            !final(self)@.tickets.contains(ticket@.id),
            final(self)@.current == old(self)@.current,
            final(self)@.explicit_epoch == old(self)@.explicit_epoch,
            final(self)@.next_ticket == old(self)@.next_ticket,
    {
        self.close_ticket(ticket);
    }

    /// Takes a ticket off the stack.
    pub fn close_ticket(&mut self, ticket: &RestoreTicket)
        ensures
            final(self)@ == after_close(old(self)@, ticket@.id),
            !final(self)@.tickets.contains(ticket@.id),
            final(self)@.current == old(self)@.current,
            final(self)@.explicit_epoch == old(self)@.explicit_epoch,
            final(self)@.next_ticket == old(self)@.next_ticket,
    {
        proof {
            use_type_invariant(&*self);
            closing_removes_exactly_that_ticket(self@, ticket@.id);
            closing_keeps_the_order(self@, ticket@.id);
        }
        let top: bool = self.is_ticket_top(ticket);
        let mut tickets: VecDeque<u64> = VecDeque::new();
        std::mem::swap(&mut tickets, &mut self.tickets);
        if top {
            proof {
                closing_the_top_pops_it(old(self)@, ticket@.id);
            }
            tickets.pop_back();
        } else {
            tickets = retain_other_tickets(&tickets, ticket.id);
        }
        self.tickets = tickets;
    }

    /// Whether `ticket` is the most recently opened one.
    pub fn is_ticket_top(&self, ticket: &RestoreTicket) -> (r: bool)
        ensures
            r == is_top(self@, ticket@.id),
            r <==> self@.tickets.len() > 0 && self@.tickets.last() == ticket@.id,
    {
        let n: usize = self.tickets.len();
        n > 0 && self.tickets[n - 1] == ticket.id
    }

    /// One attempt at restoring the baseline of `ticket`.
    ///
    /// A ticket that a newer explicit selection superseded is closed. One that
    /// is not the most recent has to wait. Otherwise the slot either matches
    /// already, and the ticket is closed, or the answer names the model to load.
    pub fn restore_ticket(&mut self, ticket: &RestoreTicket) -> (r: RestoreStep)
        ensures
            r@ == restore_step(old(self)@, ticket@),
            final(self)@ == after_restore_step(old(self)@, ticket@),
            r == RestoreStep::Finished(RestoreOutcome::Superseded) <==> old(self)@.explicit_epoch
                != ticket@.explicit_epoch,
            r == RestoreStep::Wait <==> old(self)@.explicit_epoch == ticket@.explicit_epoch && !(
            old(self)@.tickets.len() > 0 && old(self)@.tickets.last() == ticket@.id),
            r == RestoreStep::Finished(RestoreOutcome::Restored) <==> old(self)@.explicit_epoch
                == ticket@.explicit_epoch && old(self)@.tickets.len() > 0 && old(
                self,
            )@.tickets.last() == ticket@.id && old(self)@.current == ticket@.restore_to,
            r matches RestoreStep::Apply(None) ==> ticket@.restore_to is None,
            r matches RestoreStep::Apply(Some(model)) ==> ticket@.restore_to == Some(model@),
            r is Finished ==> !final(self)@.tickets.contains(ticket@.id),
            r !is Finished ==> final(self)@ == old(self)@,
            final(self)@.current == old(self)@.current,
            final(self)@.explicit_epoch == old(self)@.explicit_epoch,
    {
        if self.explicit_epoch != ticket.explicit_epoch_at_open {
            self.close_ticket(ticket);
            return RestoreStep::Finished(RestoreOutcome::Superseded);
        }
        if !self.is_ticket_top(ticket) {
            return RestoreStep::Wait;
        }
        if same_optional(&self.current, &ticket.restore_to) {
            self.close_ticket(ticket);
            RestoreStep::Finished(RestoreOutcome::Restored)
        } else {
            RestoreStep::Apply(clone_optional_text(&ticket.restore_to))
        }
    }

    /// Closes `ticket` after the load that it asked for was attempted.
    pub fn finish_restore(&mut self, ticket: RestoreTicket, applied: Result<(), String>) -> (r:
        RestoreOutcome)
        ensures
            final(self)@ == after_close(old(self)@, ticket@.id),
            match applied {
                Ok(_) => r@ == OutcomeView::Restored,
                Err(error) => r@ == OutcomeView::Failed(error@),
            },
            applied is Ok ==> r == RestoreOutcome::Restored,
            applied matches Err(error) ==> r == RestoreOutcome::Failed(error),
            !final(self)@.tickets.contains(ticket@.id),
            final(self)@.current == old(self)@.current,
    {
        self.close_ticket(&ticket);
        match applied {
            Ok(_) => RestoreOutcome::Restored,
            Err(error) => RestoreOutcome::Failed(error),
        }
    }
}

/// The stack without the ticket `id`.
fn retain_other_tickets(tickets: &VecDeque<u64>, id: u64) -> (r: VecDeque<u64>)
    ensures
        r@ == without_ticket(tickets@, id),
{
    let mut kept: VecDeque<u64> = VecDeque::new();
    let mut i: usize = 0;
    proof {
        reveal(Seq::filter);
        assert(tickets@.take(0) == Seq::<u64>::empty());
    }
    while i < tickets.len()
        invariant
            i <= tickets@.len(),
            kept@ == without_ticket(tickets@.take(i as int), id),
        decreases tickets@.len() - i,
    {
        proof {
            lemma_filter_push(tickets@.take(i as int), tickets@[i as int], id);
            assert(tickets@.take(i + 1) == tickets@.take(i as int).push(tickets@[i as int]));
        }
        if tickets[i] != id {
            kept.push_back(tickets[i]);
        }
        i += 1;
    }
    proof {
        assert(tickets@.take(i as int) == tickets@);
    }
    kept
}

/// What a ticket is told depends on three things alone: whether an explicit
/// change came after it was opened, whether a ticket was opened after it, and
/// whether its baseline is current already.
pub proof fn a_ticket_on_top_is_told_its_baseline(s: SlotView, ticket: TicketView)
    ensures
        restore_step(s, ticket) == StepView::Finished(OutcomeView::Superseded)
            <==> s.explicit_epoch != ticket.explicit_epoch,
        s.explicit_epoch == ticket.explicit_epoch ==> {
            &&& restore_step(s, ticket) == StepView::Wait <==> s.tickets.len() == 0
                || s.tickets.last() != ticket.id
            &&& s.tickets.len() > 0 && s.tickets.last() == ticket.id && s.current
                == ticket.restore_to ==> restore_step(s, ticket) == StepView::Finished(
                OutcomeView::Restored,
            )
            &&& s.tickets.len() > 0 && s.tickets.last() == ticket.id && s.current
                != ticket.restore_to ==> restore_step(s, ticket) == StepView::Apply(
                ticket.restore_to,
            )
        },
{
}

/// Every change of the model is counted, and only an explicit one counts as a
/// newer choice.
pub proof fn a_change_is_counted_once(s: SlotView, kind: MutationKind, model: Option<Seq<char>>)
    ensures
        after_set(s, kind, model).current == model,
        after_set(s, kind, model).generation == s.generation + 1,
        after_set(s, kind, model).explicit_epoch == s.explicit_epoch + 1 <==> kind
            == MutationKind::Explicit,
        after_set(s, kind, model).explicit_epoch == s.explicit_epoch <==> kind
            == MutationKind::Temporary,
        after_set(s, kind, model).tickets == s.tickets,
        after_set(s, kind, model).next_ticket == s.next_ticket,
{
}

} // verus!
