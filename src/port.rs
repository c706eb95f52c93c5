//! The port allocator: candidate ports for a driver to bind, and what to do
//! after probing one.

use vstd::prelude::*;
use crate::wire::{Error, ErrorView, TransportError, TransportErrorView};

verus! {

/// The lowest candidate port.
pub const PORT_BASE: u16 = 4444;

/// How many candidate ports there are: those from `PORT_BASE` up to, but
/// not including, 65535.
pub const PORT_SPAN: u16 = 61091;

/// How many candidates are probed before giving up.
pub const MAX_ATTEMPTS: u32 = 100;

/// The candidate port of a ticket: tickets count up from a start offset and
/// wrap around the candidate range.
pub open spec fn candidate(offset: u16, ticket: u64) -> u16 {
    (PORT_BASE + (offset as int + ticket as int) % (PORT_SPAN as int)) as u16
}

/// Relies on rand::random, a value drawn from the thread-local generator:
/// nothing is known of which.
pub assume_specification<T>[ rand::random::<T> ]() -> (r: T)
    where
        rand::distributions::Standard: rand::distributions::Distribution<T>,
;

/// A start offset for the candidate sequence, drawn at random so that two
/// processes are unlikely to probe the same ports in the same order.
pub fn random_offset() -> (r: u16)
    ensures
        r < PORT_SPAN,
{
    let drawn: u16 = rand::random::<u16>();
    drawn % PORT_SPAN
}

/// The candidate port of a ticket.
pub fn candidate_port(offset: u16, ticket: u64) -> (r: u16)
    ensures
        r == candidate(offset, ticket),
        PORT_BASE <= r < PORT_BASE + PORT_SPAN,
{
    let k = ((offset as u64 % PORT_SPAN as u64) + ticket % PORT_SPAN as u64) % PORT_SPAN as u64;
    assert(k == (offset as int + ticket as int) % (PORT_SPAN as int)) by (nonlinear_arith)
        requires
            k == ((offset as int % 61091) + ticket as int % 61091) % 61091,
    {
        assert((offset as int % 61091) + (ticket as int % 61091) ==
            (offset as int + ticket as int) - 61091 * (offset as int / 61091 + ticket as int / 61091));
        vstd::arithmetic::div_mod::lemma_mod_sub_multiples_vanish(
            (offset as int + ticket as int) as int, 61091int);
    };
    PORT_BASE + k as u16
}

/// Tickets that are distinct and less than the span apart give distinct
/// ports: callers that take distinct consecutive tickets from one shared
/// counter probe distinct ports.
pub proof fn lemma_distinct_tickets(offset: u16, t1: u64, t2: u64)
    requires
        t1 < t2,
        t2 - t1 < PORT_SPAN,
    ensures
        candidate(offset, t1) != candidate(offset, t2),
{
    let a = offset as int + t1 as int;
    let b = offset as int + t2 as int;
    assert(a % 61091 != b % 61091) by (nonlinear_arith)
        requires
            a < b,
            b - a < 61091,
    {
        if a % 61091 == b % 61091 {
            assert(b - a == 61091 * (b / 61091 - a / 61091));
        }
    };
}

/// What binding a candidate port gave.
#[derive(Clone, Debug, PartialEq, Eq)]
pub enum BindOutcome {
    /// The port was bound and released: it is free.
    Bound(u16),
    /// The port is in use.
    InUse,
    /// Binding failed otherwise, with a description.
    Failed(String),
}

/// What to do after a probe.
#[derive(Clone, Debug, PartialEq, Eq)]
pub enum PortStep {
    /// Use this port.
    Use(u16),
    /// Probe the next candidate.
    Retry,
    /// Give up.
    Fail(Error),
}

/// The model of a step: the port to use, a retry, or the error.
pub open spec fn port_step(outcome: BindOutcome, attempt: u32) -> Result<Option<u16>, ErrorView> {
    match outcome {
        BindOutcome::Bound(p) => Ok(Some(p)),
        BindOutcome::InUse => if attempt + 1 < MAX_ATTEMPTS {
            Ok(None)
        } else {
            Err(ErrorView::ResourceExhausted)
        },
        BindOutcome::Failed(m) => Err(ErrorView::Transport(TransportErrorView::Connection(m@))),
    }
}

/// What to do after the probe numbered `attempt` (from zero): a port in use
/// is retried until the attempts run out; any other failure ends the search.
pub fn after_bind(outcome: BindOutcome, attempt: u32) -> (r: PortStep)
    ensures
        match r {
            PortStep::Use(p) => port_step(outcome, attempt) == Ok::<Option<u16>, ErrorView>(Some(p)),
            PortStep::Retry => port_step(outcome, attempt) == Ok::<Option<u16>, ErrorView>(None),
            PortStep::Fail(e) => port_step(outcome, attempt) == Err::<Option<u16>, ErrorView>(e@),
        },
{
    match outcome {
        BindOutcome::Bound(p) => PortStep::Use(p),
        BindOutcome::InUse => if attempt < MAX_ATTEMPTS - 1 {
            PortStep::Retry
        } else {
            PortStep::Fail(Error::ResourceExhausted)
        },
        BindOutcome::Failed(m) => PortStep::Fail(Error::Transport(TransportError::Connection(m))),
    }
}

} // verus!
