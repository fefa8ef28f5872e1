//! What the recording pipeline asks of the local provider.

use vstd::prelude::*;

use crate::text::same_text;
use crate::transcription::slot::{RestoreOutcome, RestoreTicket};
use crate::transcription::types::{TranscriptionError, TranscriptionTargetId};

verus! {

/// Whether the local model is loaded ahead of a recording: only where the
/// selected target is a local one.
pub fn initiates_model_load(selected: Option<&TranscriptionTargetId>) -> (r: bool)
    ensures
        r == (selected matches Some(target) && target.provider_id@ == "local"@),
{
    match selected {
        Some(target) => same_text(target.provider_id.as_str(), "local"),
        None => false,
    }
}

/// The answer to a temporary switch: the ticket, or the category of the error.
pub fn temporary_switch_answer(switched: Result<RestoreTicket, TranscriptionError>) -> (r: Result<
    RestoreTicket,
    String,
>)
    ensures
        match switched {
            Ok(ticket) => r == Ok::<RestoreTicket, String>(ticket),
            Err(error) => r is Err && r->Err_0@ == crate::transcription::types::category_of(error@),
        },
{
    match switched {
        Ok(ticket) => Ok(ticket),
        Err(error) => Err(error.category().to_owned()),
    }
}

/// What resolving a guard has to do.
#[derive(Debug)]
pub enum ResolveStep {
    /// Restore this ticket.
    Restore(RestoreTicket),
    /// Nothing: the ticket was resolved before.
    Done(RestoreOutcome),
}

/// What resolving a guard has to do, with `held` in it.
pub open spec fn resolve_step(held: Option<RestoreTicket>) -> ResolveStep {
    match held {
        Some(ticket) => ResolveStep::Restore(ticket),
        None => ResolveStep::Done(RestoreOutcome::Restored),
    }
}

/// Holds a ticket until it is resolved, so that it is resolved exactly once.
#[derive(Debug)]
pub struct TicketGuard {
    pub ticket: Option<RestoreTicket>,
}

impl TicketGuard {
    /// A guard of `ticket`.
    pub fn new(ticket: RestoreTicket) -> (r: Self)
        ensures
            r.ticket == Some(ticket),
    {
        TicketGuard { ticket: Some(ticket) }
    }

    /// Takes the ticket out to be restored. Every later call reports that it is
    /// restored.
    pub fn resolve(&mut self) -> (r: ResolveStep)
        ensures
            final(self).ticket is None,
            r == resolve_step(old(self).ticket),
            old(self).ticket matches Some(ticket) ==> r == ResolveStep::Restore(ticket),
            old(self).ticket is None ==> r == ResolveStep::Done(RestoreOutcome::Restored),
    {
        match self.ticket.take() {
            Some(ticket) => ResolveStep::Restore(ticket),
            None => ResolveStep::Done(RestoreOutcome::Restored),
        }
    }

    /// What is left to restore when the guard goes away: the ticket, unless it
    /// was resolved before.
    pub fn give_up(&mut self) -> (r: Option<RestoreTicket>)
        ensures
            r == old(self).ticket,
            final(self).ticket is None,
    {
        self.ticket.take()
    }
}

/// What a guard of `ticket` holds after `calls` resolutions.
pub open spec fn held_after(ticket: RestoreTicket, calls: nat) -> Option<RestoreTicket> {
    if calls == 0 {
        Some(ticket)
    } else {
        None
    }
}

/// The tickets that a guard of `ticket` hands out to be restored: by `calls`
/// resolutions, and then by going away.
pub open spec fn restored_by(ticket: RestoreTicket, calls: nat) -> Seq<RestoreTicket> {
    resolved_by(ticket, calls) + match held_after(ticket, calls) {
        Some(left) => seq![left],
        None => Seq::empty(),
    }
}

/// The tickets that `calls` resolutions hand out to be restored.
pub open spec fn resolved_by(ticket: RestoreTicket, calls: nat) -> Seq<RestoreTicket>
    decreases calls,
{
    if calls == 0 {
        Seq::empty()
    } else {
        let before = resolved_by(ticket, (calls - 1) as nat);
        match resolve_step(held_after(ticket, (calls - 1) as nat)) {
            ResolveStep::Restore(taken) => before.push(taken),
            ResolveStep::Done(_) => before,
        }
    }
}

/// A guard has its ticket restored exactly once, however often it is resolved
/// before it goes away, and also where it never is. The first resolution hands
/// the ticket out, and every later one reports that it is restored.
pub proof fn a_guarded_ticket_is_restored_once(ticket: RestoreTicket, calls: nat)
    ensures
        restored_by(ticket, calls) == seq![ticket],
        resolve_step(held_after(ticket, calls)) == (if calls == 0 {
            ResolveStep::Restore(ticket)
        } else {
            ResolveStep::Done(RestoreOutcome::Restored)
        }),
    decreases calls,
{
    if calls > 0 {
        a_guarded_ticket_is_restored_once(ticket, (calls - 1) as nat);
        if calls > 1 {
            assert(restored_by(ticket, (calls - 1) as nat) == resolved_by(
                ticket,
                (calls - 1) as nat,
            ));
        } else {
            assert(resolved_by(ticket, 0) == Seq::<RestoreTicket>::empty());
        }
    }
    assert(restored_by(ticket, calls) =~= seq![ticket]);
}

} // verus!
