//! The decisions the document store's operations make on what it answered.
use vstd::prelude::*;

use crate::records::{lists_contact, Account, TemporalAccount};
use crate::text::str_eq;

verus! {

/// Whether a new registration may use a name and address, given the lookups among
/// the accounts and the pending registrations (`Some(found)`, or `None` where the
/// lookup failed): only where both ran and found nothing.
pub fn is_account_available(permanent: Option<bool>, temporal: Option<bool>) -> (r: bool)
    ensures
        r == (permanent == Some(false) && temporal == Some(false)),
{
    match (permanent, temporal) {
        (Some(false), Some(false)) => true,
        _ => false,
    }
}

/// The pending registration found by a code lookup, kept only where its code is
/// exactly `code`.
pub fn pending_with_code(found: Option<TemporalAccount>, code: &str) -> (r: Option<TemporalAccount>)
    ensures
        match found {
            Some(t) => if t.verification.code@ == code@ {
                r == Some(t)
            } else {
                r is None
            },
            None => r is None,
        },
{
    match found {
        Some(t) => {
            if t.has_code(code) {
                Some(t)
            } else {
                None
            }
        },
        None => None,
    }
}

/// Whether the account found (if any) lists `contact` among its contacts.
pub fn contact_listed(found: &Option<Account>, contact: &str) -> (r: bool)
    ensures
        match found {
            Some(a) => r == lists_contact(a.contacts@, contact@) && r == exists|i: int|
                0 <= i < a.contacts@.len() && (#[trigger] a.contacts@[i])@ == contact@,
            None => !r,
        },
{
    match found {
        Some(a) => a.has_contact(contact),
        None => false,
    }
}

/// A change to a contact list.
#[derive(Debug, Clone, Copy, PartialEq, Eq)]
pub enum ContactChange {
    /// Append the contact.
    Push,
    /// Remove the contact.
    Pull,
    /// Leave the list as it is.
    Unchanged,
}

/// The change an "add" or "remove" request makes to a contact list, given whether the
/// contact is already on it: a contact is only added when absent and only removed
/// when present.
pub fn contact_change(action: &str, already_listed: bool) -> (r: ContactChange)
    ensures
        r == (if !already_listed && action@ == "add"@ {
            ContactChange::Push
        } else if already_listed && action@ == "remove"@ {
            ContactChange::Pull
        } else {
            ContactChange::Unchanged
        }),
{
    if !already_listed && str_eq(action, "add") {
        ContactChange::Push
    } else if already_listed && str_eq(action, "remove") {
        ContactChange::Pull
    } else {
        ContactChange::Unchanged
    }
}

/// Whether a write changed or removed something, given the count the store reported
/// (`None` where the write failed).
pub fn affected(count: Option<u64>) -> (r: bool)
    ensures
        r == (count matches Some(n) && n > 0),
{
    match count {
        Some(n) => n > 0,
        None => false,
    }
}

/// The answer of appending to an existing notification list, given the count of
/// modified lists (`None` where the write failed): the answer where the store
/// answered, or `None` to create the list instead.
pub fn action_append_outcome(modified: Option<u64>) -> (r: Option<bool>)
    ensures
        match modified {
            Some(n) => r == Some(n > 0),
            None => r is None,
        },
{
    match modified {
        Some(n) => Some(n > 0),
        None => None,
    }
}

/// Whether the queues are purged in this round: on the first day of an even month,
/// when there is something to purge.
pub fn should_purge_queue(count: u64, day: u32, month: u32) -> (r: bool)
    ensures
        r == (count != 0 && day == 1 && month % 2 == 0),
{
    count != 0 && day == 1 && month % 2 == 0
}

} // verus!
