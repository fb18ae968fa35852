//! Docking into the system tray: the names and message of the embedding
//! handshake, and the bounded retry policy around it.
use vstd::prelude::*;
use crate::text::push_char;

verus! {

/// How many times docking is tried before giving up.
pub const MAX_DOCK_ATTEMPTS: u32 = 10;

/// The wait between two docking attempts, in milliseconds.
pub const DOCK_RETRY_DELAY_MS: u64 = 500;

/// The atom naming the tray's opcode messages.
pub const TRAY_OPCODE_ATOM: &'static str = "_NET_SYSTEM_TRAY_OPCODE";

/// The tray opcode that asks the tray manager to embed a window.
pub const SYSTEM_TRAY_REQUEST_DOCK: u32 = 0;

/// The "no window" value that a selection query returns when nobody owns it.
pub const NO_WINDOW: u32 = 0;

/// Why one docking attempt failed.
#[derive(Clone, Copy, PartialEq, Eq, Structural, Debug)]
pub enum DockError {
    /// Nobody owns the tray selection of the screen.
    NoTrayManager,
}

/// The character of a decimal digit.
pub open spec fn digit_char(d: nat) -> char {
    ('0' as u8 + d) as char
}

/// The decimal digits of `n`, most significant first, without leading zeros.
pub open spec fn decimal(n: nat) -> Seq<char>
    decreases n,
{
    if n < 10 {
        seq![digit_char(n)]
    } else {
        decimal(n / 10).push(digit_char(n % 10))
    }
}

/// The characters of the prefix of the tray selection name.
pub open spec fn tray_selection_prefix() -> Seq<char> {
    seq!['_', 'N', 'E', 'T', '_', 'S', 'Y', 'S', 'T', 'E', 'M', '_', 'T', 'R', 'A', 'Y', '_', 'S']
}

fn push_decimal(s: &mut String, n: usize)
    ensures
        final(s)@ == old(s)@ + decimal(n as nat),
    decreases n,
{
    if n >= 10 {
        push_decimal(s, n / 10);
    }
    let d: u8 = (n % 10) as u8;
    push_char(s, ('0' as u8 + d) as char);
    proof {
        if n >= 10 {
            assert(final(s)@ =~= old(s)@ + decimal(n as nat));
        } else {
            assert(final(s)@ =~= old(s)@ + decimal(n as nat));
        }
    }
}

/// The name of the selection that the tray manager of screen `screen` owns:
/// `_NET_SYSTEM_TRAY_S` followed by the screen number in decimal.
pub fn tray_selection_name(screen: usize) -> (r: String)
    ensures
        r@ == tray_selection_prefix() + decimal(screen as nat),
{
    let mut s = String::new();
    let prefix = vec![
        '_', 'N', 'E', 'T', '_', 'S', 'Y', 'S', 'T', 'E', 'M', '_', 'T', 'R', 'A', 'Y', '_', 'S',
    ];
    let mut i: usize = 0;
    while i < prefix.len()
        invariant
            i <= prefix@.len(),
            prefix@ == tray_selection_prefix(),
            s@ == prefix@.take(i as int),
        decreases prefix@.len() - i,
    {
        push_char(&mut s, prefix[i]);
        i = i + 1;
        assert(s@ =~= prefix@.take(i as int));
    }
    assert(s@ =~= tray_selection_prefix());
    push_decimal(&mut s, screen);
    s
}

/// The tray manager's window, from the owner of the tray selection: an owner of
/// NO_WINDOW means that no tray manager runs.
pub fn tray_manager(owner: u32) -> (r: Result<u32, DockError>)
    ensures
        owner == NO_WINDOW ==> r == Err::<u32, DockError>(DockError::NoTrayManager),
        owner != NO_WINDOW ==> r == Ok::<u32, DockError>(owner),
{
    if owner == NO_WINDOW {
        Err(DockError::NoTrayManager)
    } else {
        Ok(owner)
    }
}

/// The client message that asks a tray manager to embed a window.
#[derive(Clone, Copy, PartialEq, Eq, Debug)]
pub struct DockRequest {
    /// The tray manager's window, which receives the message.
    pub destination: u32,
    /// The opcode atom, used as the message type.
    pub message_type: u32,
    /// The five 32-bit words of the message: time, opcode, the window to embed,
    /// and two unused words.
    pub data: [u32; 5],
}

/// The embedding request for `window`, sent to `manager` with the opcode atom
/// `opcode_atom` as its type.
pub fn dock_request(manager: u32, opcode_atom: u32, window: u32) -> (r: DockRequest)
    ensures
        r.destination == manager,
        r.message_type == opcode_atom,
        r.data@ == seq![0u32, SYSTEM_TRAY_REQUEST_DOCK, window, 0u32, 0u32],
{
    let r = DockRequest {
        destination: manager,
        message_type: opcode_atom,
        data: [0, SYSTEM_TRAY_REQUEST_DOCK, window, 0, 0],
    };
    assert(r.data@ =~= seq![0u32, SYSTEM_TRAY_REQUEST_DOCK, window, 0u32, 0u32]);
    r
}

/// What to do after a docking attempt.
#[derive(Clone, Copy, PartialEq, Eq, Structural, Debug)]
pub enum DockStep {
    /// Docking succeeded on this attempt (counted from 1).
    Docked { attempt: u32 },
    /// Wait this many milliseconds, then try again.
    Retry { delay_ms: u64 },
    /// Every attempt failed: no tray is running.
    GiveUp { attempts: u32 },
}

/// The step after attempt number `attempt` of at most `max_attempts`.
pub open spec fn step_after(attempt: u32, max_attempts: u32, succeeded: bool) -> DockStep {
    if succeeded {
        DockStep::Docked { attempt }
    } else if attempt < max_attempts {
        DockStep::Retry { delay_ms: DOCK_RETRY_DELAY_MS }
    } else {
        DockStep::GiveUp { attempts: attempt }
    }
}

/// Decides what follows attempt number `attempt` (counted from 1) of at most
/// `max_attempts`: stop on success, else wait and retry while attempts are left,
/// else give up.
pub fn after_attempt(attempt: u32, max_attempts: u32, succeeded: bool) -> (r: DockStep)
    requires
        1 <= attempt <= max_attempts,
    ensures
        r == step_after(attempt, max_attempts, succeeded),
{
    if succeeded {
        DockStep::Docked { attempt }
    } else if attempt < max_attempts {
        DockStep::Retry { delay_ms: DOCK_RETRY_DELAY_MS }
    } else {
        DockStep::GiveUp { attempts: attempt }
    }
}

/// Where the retry loop ends when attempt `i` onwards have the outcomes
/// `outcomes[i - 1]`, `outcomes[i]`, ...: a Docked or GiveUp step.
pub open spec fn retry_outcome(attempt: u32, max_attempts: u32, outcomes: Seq<bool>) -> DockStep
    decreases max_attempts - attempt,
{
    if attempt < 1 || attempt > max_attempts || outcomes.len() < max_attempts {
        DockStep::GiveUp { attempts: 0 }
    } else {
        match step_after(attempt, max_attempts, outcomes[attempt - 1]) {
            DockStep::Retry { .. } => retry_outcome((attempt + 1) as u32, max_attempts, outcomes),
            other => other,
        }
    }
}

/// The retry loop, run from the first attempt, when the tray manager first answers
/// on attempt `j` (counted from 1) within the limit: docking succeeds on attempt `j`,
/// and not before.
pub proof fn retry_docks_on_first_answer(max_attempts: u32, outcomes: Seq<bool>, j: int)
    requires
        1 <= j <= max_attempts,
        outcomes.len() >= max_attempts,
        outcomes[j - 1],
        forall|k: int| 0 <= k < j - 1 ==> !outcomes[k],
    ensures
        retry_outcome(1, max_attempts, outcomes) == (DockStep::Docked { attempt: j as u32 }),
{
    retry_from(1, max_attempts, outcomes, j);
}

/// The retry loop, run from the first attempt, when the tray manager answers none
/// of the attempts: it gives up after exactly `max_attempts` attempts.
pub proof fn retry_gives_up_when_no_answer(max_attempts: u32, outcomes: Seq<bool>)
    requires
        max_attempts >= 1,
        outcomes.len() >= max_attempts,
        forall|k: int| 0 <= k < max_attempts ==> !outcomes[k],
    ensures
        retry_outcome(1, max_attempts, outcomes) == (DockStep::GiveUp { attempts: max_attempts }),
{
    retry_exhausted(1, max_attempts, outcomes);
}

proof fn retry_from(i: u32, max_attempts: u32, outcomes: Seq<bool>, j: int)
    requires
        1 <= i <= j <= max_attempts,
        outcomes.len() >= max_attempts,
        outcomes[j - 1],
        forall|k: int| i - 1 <= k < j - 1 ==> !outcomes[k],
    ensures
        retry_outcome(i, max_attempts, outcomes) == (DockStep::Docked { attempt: j as u32 }),
    decreases j - i,
{
    if i < j {
        assert(!outcomes[i - 1]);
        retry_from((i + 1) as u32, max_attempts, outcomes, j);
    }
}

proof fn retry_exhausted(i: u32, max_attempts: u32, outcomes: Seq<bool>)
    requires
        1 <= i <= max_attempts,
        outcomes.len() >= max_attempts,
        forall|k: int| i - 1 <= k < max_attempts ==> !outcomes[k],
    ensures
        retry_outcome(i, max_attempts, outcomes) == (DockStep::GiveUp { attempts: max_attempts }),
    decreases max_attempts - i,
{
    assert(!outcomes[i - 1]);
    if i < max_attempts {
        retry_exhausted((i + 1) as u32, max_attempts, outcomes);
    }
}

} // verus!
