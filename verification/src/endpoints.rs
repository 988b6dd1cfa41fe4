//! The HTTP endpoints: the index page, the error pages, and the action, queue and
//! contact endpoints.
//!
//! The action, queue and contact endpoints run in steps: the request is checked, the
//! credentials are looked up, one store operation runs, and the answer is built from
//! its outcome. The functions here decide each step; the caller performs the lookups
//! and operations they ask for.
use vstd::prelude::*;

use crate::records::{ActionMessage, Message};
use crate::schemas::{
    ActionFunction, ActionResponse, Author, ContactFunction, ContactResponse, DefaultResponse,
    Index, QueueFunction, QueueResponse, TITLE, titled,
};
use crate::systems::reply;
use crate::text::str_eq;

verus! {

// ---------------------------------------------------------------------------
// Index and error pages
// ---------------------------------------------------------------------------

/// The index page at `date`.
pub fn index<'a>(date: String) -> (r: Index<'a>)
    ensures
        titled(r.title),
        r.author.name@ == "Kevin Benavides || DevCheckOG"@,
        r.author.github@ == "https://github.com/DevCheckOG"@,
        r.author.twitter@ == "https://twitter.com/DevCheckOG"@,
        r.date == date,
{
    Index {
        title: TITLE,
        author: Author {
            name: "Kevin Benavides || DevCheckOG",
            github: "https://github.com/DevCheckOG",
            twitter: "https://twitter.com/DevCheckOG",
        },
        date,
    }
}

/// The answer for an unknown endpoint.
pub fn not_found<'a>(date: String) -> (r: DefaultResponse<'a>)
    ensures
        r.is("The endpoint does not exist."@, false, date),
{
    reply("The endpoint does not exist.", false, date)
}

/// The answer for a client over its rate limit.
pub fn too_many_requests<'a>(date: String) -> (r: DefaultResponse<'a>)
    ensures
        r.is("You are being rate-limited."@, false, date),
{
    reply("You are being rate-limited.", false, date)
}

/// The answer for a body that does not parse.
pub fn unprocessable_entity<'a>(date: String) -> (r: DefaultResponse<'a>)
    ensures
        r.is("The request could not be processed. Due to its incorrect syntax."@, false, date),
{
    reply("The request could not be processed. Due to its incorrect syntax.", false, date)
}

// ---------------------------------------------------------------------------
// Action names
// ---------------------------------------------------------------------------

/// The actions the action, queue and contact endpoints know.
#[derive(Debug, Clone, Copy, PartialEq, Eq)]
pub enum ActionKind {
    Add,
    Get,
    Delete,
}

/// The action named `s`: "add", "get" or "delete".
pub open spec fn action_kind(s: Seq<char>) -> Option<ActionKind> {
    if s == "add"@ {
        Some(ActionKind::Add)
    } else if s == "get"@ {
        Some(ActionKind::Get)
    } else if s == "delete"@ {
        Some(ActionKind::Delete)
    } else {
        None
    }
}

/// The action named `action`, if it is one of "add", "get" and "delete".
pub fn parse_action_kind(action: &str) -> (r: Option<ActionKind>)
    ensures
        r == action_kind(action@),
        r == Some(ActionKind::Add) <==> action@ == "add"@,
        r == Some(ActionKind::Get) <==> action@ == "get"@,
        r == Some(ActionKind::Delete) <==> action@ == "delete"@,
{
    proof {
        reveal_strlit("add");
        reveal_strlit("get");
        reveal_strlit("delete");
        assert("add"@ != "get"@) by {
            assert("add"@[0] != "get"@[0]);
        }
        assert("add"@ != "delete"@) by {
            assert("add"@.len() != "delete"@.len());
        }
        assert("get"@ != "delete"@) by {
            assert("get"@.len() != "delete"@.len());
        }
    }
    if str_eq(action, "add") {
        Some(ActionKind::Add)
    } else if str_eq(action, "get") {
        Some(ActionKind::Get)
    } else if str_eq(action, "delete") {
        Some(ActionKind::Delete)
    } else {
        None
    }
}

// ---------------------------------------------------------------------------
// Action notifications
// ---------------------------------------------------------------------------

/// An operation the action endpoint asks for.
#[derive(Debug, PartialEq, Eq)]
pub enum ActionOperation<'a> {
    /// Look up the account with this address and password.
    Authenticate { email: &'a str, password: &'a str },
    /// Append `action` to the notifications of the account named `to`.
    Add { to: &'a str, action: &'a ActionMessage },
    /// Read the notifications of the account named `to`.
    Get { to: &'a str },
    /// Delete the notifications of the account named `to`.
    Delete { to: &'a str },
}

/// The next step of the action endpoint.
#[derive(Debug, PartialEq, Eq)]
pub enum ActionStep<'a> {
    Perform(ActionOperation<'a>),
    Reply(ActionResponse<'static>),
}

fn action_reply<'a>(message: &'a str, success: bool, request: Option<&'a str>, date: String) -> (r: ActionResponse<'a>)
    ensures
        titled(r.title),
        r.message@ == message@,
        r.success == success,
        r.request == request,
        r.action is None,
        r.date == date,
{
    ActionResponse { title: TITLE, message, success, request, action: None, date }
}

/// The first step of the action endpoint: an unknown action is refused, a known one
/// goes on to the credentials.
pub fn action_begin<'a>(data: &'a ActionFunction<'a>, date: String) -> (r: ActionStep<'a>)
    ensures
        action_kind(data.action@) is None ==> (r matches ActionStep::Reply(x) && x.is(
            "The action does not exist."@,
            false,
            None,
            None,
            date,
        )),
        action_kind(data.action@) is Some ==> r == ActionStep::Perform(
            ActionOperation::Authenticate { email: data.email, password: data.password },
        ),
{
    match parse_action_kind(data.action) {
        None => ActionStep::Reply(action_reply("The action does not exist.", false, None, date)),
        Some(_) => ActionStep::Perform(
            ActionOperation::Authenticate { email: data.email, password: data.password },
        ),
    }
}

/// The step of the action endpoint once the credentials were looked up: refuse bad
/// credentials, refuse a missing parameter, or perform the requested operation.
pub fn action_authenticated<'a>(data: &'a ActionFunction<'a>, valid_credentials: bool, date: String) -> (r: ActionStep<'a>)
    ensures
        !valid_credentials ==> (r matches ActionStep::Reply(x) && x.is(
            "Your credentials is not valid."@,
            false,
            None,
            None,
            date,
        )),
        valid_credentials ==> match action_kind(data.action@) {
            Some(ActionKind::Add) => match data.add {
                Some(a) => r == ActionStep::Perform(ActionOperation::Add { to: a.to, action: &a.action }),
                None => r matches ActionStep::Reply(x) && x.is(
                    "The optional add paramenter is not valid."@,
                    false,
                    None,
                    None,
                    date,
                ),
            },
            Some(ActionKind::Get) => match data.get {
                Some(g) => r == ActionStep::Perform(ActionOperation::Get { to: g.to }),
                None => r matches ActionStep::Reply(x) && x.is(
                    "The optional get paramenter is not valid."@,
                    false,
                    None,
                    None,
                    date,
                ),
            },
            Some(ActionKind::Delete) => match data.delete {
                Some(d) => r == ActionStep::Perform(ActionOperation::Delete { to: d.to }),
                None => r matches ActionStep::Reply(x) && x.is(
                    "The optional delete paramenter is not valid."@,
                    false,
                    None,
                    None,
                    date,
                ),
            },
            None => r matches ActionStep::Reply(x) && x.is(
                "The action does not exist."@,
                false,
                None,
                None,
                date,
            ),
        },
{
    if !valid_credentials {
        return ActionStep::Reply(action_reply("Your credentials is not valid.", false, None, date));
    }
    match parse_action_kind(data.action) {
        Some(ActionKind::Add) => match &data.add {
            Some(a) => ActionStep::Perform(ActionOperation::Add { to: a.to, action: &a.action }),
            None => ActionStep::Reply(
                action_reply("The optional add paramenter is not valid.", false, None, date),
            ),
        },
        Some(ActionKind::Get) => match &data.get {
            Some(g) => ActionStep::Perform(ActionOperation::Get { to: g.to }),
            None => ActionStep::Reply(
                action_reply("The optional get paramenter is not valid.", false, None, date),
            ),
        },
        Some(ActionKind::Delete) => match &data.delete {
            Some(d) => ActionStep::Perform(ActionOperation::Delete { to: d.to }),
            None => ActionStep::Reply(
                action_reply("The optional delete paramenter is not valid.", false, None, date),
            ),
        },
        None => ActionStep::Reply(action_reply("The action does not exist.", false, None, date)),
    }
}

/// The answer once an action was appended; `success` is what the store reported.
pub fn action_added<'a>(success: bool, date: String) -> (r: ActionResponse<'a>)
    ensures
        r.is("The action was executed."@, success, Some("add"@), None, date),
{
    action_reply("The action was executed.", success, Some("add"), date)
}

/// The answer once the notifications were read.
pub fn action_fetched<'a>(actions: Option<Vec<ActionMessage>>, date: String) -> (r: ActionResponse<'a>)
    ensures
        actions is Some ==> r.is(
            "The action was found."@,
            true,
            Some("get"@),
            Some((actions, None)),
            date,
        ),
        actions is None ==> r.is("The actions was not found."@, false, None, None, date),
{
    match actions {
        Some(found) => ActionResponse {
            title: TITLE,
            message: "The action was found.",
            success: true,
            request: Some("get"),
            action: Some((Some(found), None)),
            date,
        },
        None => action_reply("The actions was not found.", false, None, date),
    }
}

/// The answer once the notifications were deleted; `success` is what the store reported.
pub fn action_deleted<'a>(success: bool, date: String) -> (r: ActionResponse<'a>)
    ensures
        r.is("The delete action was executed."@, success, Some("delete"@), None, date),
{
    action_reply("The delete action was executed.", success, Some("delete"), date)
}

// ---------------------------------------------------------------------------
// Message queues
// ---------------------------------------------------------------------------

/// An operation the queue endpoint asks for.
#[derive(Debug, PartialEq, Eq)]
pub enum QueueOperation<'a> {
    /// Look up the account with this address and password.
    Authenticate { email: &'a str, password: &'a str },
    /// Append `message` to the queue of the account named `to`.
    Add { to: &'a str, message: &'a Message },
    /// Read the queue of the account `token`.
    Get { token: &'a str },
    /// Delete the queue of the account named `to`.
    Delete { to: &'a str },
}

/// The next step of the queue endpoint.
#[derive(Debug, PartialEq, Eq)]
pub enum QueueStep<'a> {
    Perform(QueueOperation<'a>),
    Reply(QueueResponse<'static>),
}

fn queue_reply<'a>(message: &'a str, success: bool, request: Option<&'a str>, date: String) -> (r: QueueResponse<'a>)
    ensures
        titled(r.title),
        r.message@ == message@,
        r.success == success,
        r.request == request,
        r.action is None,
        r.date == date,
{
    QueueResponse { title: TITLE, message, success, request, action: None, date }
}

/// The first step of the queue endpoint: an unknown action is refused, a known one
/// goes on to the credentials.
pub fn queue_begin<'a>(data: &'a QueueFunction<'a>, date: String) -> (r: QueueStep<'a>)
    ensures
        action_kind(data.action@) is None ==> (r matches QueueStep::Reply(x) && x.is(
            "The action does not exist."@,
            false,
            None,
            None,
            date,
        )),
        action_kind(data.action@) is Some ==> r == QueueStep::Perform(
            QueueOperation::Authenticate { email: data.email, password: data.password },
        ),
{
    match parse_action_kind(data.action) {
        None => QueueStep::Reply(queue_reply("The action does not exist.", false, None, date)),
        Some(_) => QueueStep::Perform(
            QueueOperation::Authenticate { email: data.email, password: data.password },
        ),
    }
}

/// The step of the queue endpoint once the credentials were looked up: refuse bad
/// credentials, refuse a missing parameter, or perform the requested operation.
pub fn queue_authenticated<'a>(data: &'a QueueFunction<'a>, valid_credentials: bool, date: String) -> (r: QueueStep<'a>)
    ensures
        !valid_credentials ==> (r matches QueueStep::Reply(x) && x.is(
            "Your credentials is not valid."@,
            false,
            None,
            None,
            date,
        )),
        valid_credentials ==> match action_kind(data.action@) {
            Some(ActionKind::Add) => match data.add {
                Some(a) => r == QueueStep::Perform(QueueOperation::Add { to: a.to, message: &a.message }),
                None => r matches QueueStep::Reply(x) && x.is(
                    "The optional add paramenter is not valid."@,
                    false,
                    None,
                    None,
                    date,
                ),
            },
            Some(ActionKind::Get) => match data.get {
                Some(g) => r == QueueStep::Perform(QueueOperation::Get { token: g.token }),
                None => r matches QueueStep::Reply(x) && x.is(
                    "The optional get paramenter is not valid."@,
                    false,
                    None,
                    None,
                    date,
                ),
            },
            Some(ActionKind::Delete) => match data.delete {
                Some(d) => r == QueueStep::Perform(QueueOperation::Delete { to: d.to }),
                None => r matches QueueStep::Reply(x) && x.is(
                    "The optional delete paramenter is not valid."@,
                    false,
                    None,
                    None,
                    date,
                ),
            },
            None => r matches QueueStep::Reply(x) && x.is(
                "The action does not exist."@,
                false,
                None,
                None,
                date,
            ),
        },
{
    if !valid_credentials {
        return QueueStep::Reply(queue_reply("Your credentials is not valid.", false, None, date));
    }
    match parse_action_kind(data.action) {
        Some(ActionKind::Add) => match &data.add {
            Some(a) => QueueStep::Perform(QueueOperation::Add { to: a.to, message: &a.message }),
            None => QueueStep::Reply(
                queue_reply("The optional add paramenter is not valid.", false, None, date),
            ),
        },
        Some(ActionKind::Get) => match &data.get {
            Some(g) => QueueStep::Perform(QueueOperation::Get { token: g.token }),
            None => QueueStep::Reply(
                queue_reply("The optional get paramenter is not valid.", false, None, date),
            ),
        },
        Some(ActionKind::Delete) => match &data.delete {
            Some(d) => QueueStep::Perform(QueueOperation::Delete { to: d.to }),
            None => QueueStep::Reply(
                queue_reply("The optional delete paramenter is not valid.", false, None, date),
            ),
        },
        None => QueueStep::Reply(queue_reply("The action does not exist.", false, None, date)),
    }
}

/// The answer once a message was queued; `success` is what the store reported.
pub fn queue_added<'a>(success: bool, date: String) -> (r: QueueResponse<'a>)
    ensures
        r.is("The action add queue was executed."@, success, Some("add"@), None, date),
{
    queue_reply("The action add queue was executed.", success, Some("add"), date)
}

/// The answer once the queue was read.
pub fn queue_fetched<'a>(messages: Option<Vec<Message>>, date: String) -> (r: QueueResponse<'a>)
    ensures
        messages is Some ==> r.is(
            "The action get queue executed."@,
            true,
            Some("get"@),
            Some((messages, None)),
            date,
        ),
        messages is None ==> r.is("The actions was not found."@, false, None, None, date),
{
    match messages {
        Some(found) => QueueResponse {
            title: TITLE,
            message: "The action get queue executed.",
            success: true,
            request: Some("get"),
            action: Some((Some(found), None)),
            date,
        },
        None => queue_reply("The actions was not found.", false, None, date),
    }
}

/// The answer once the queue was deleted; `success` is what the store reported.
pub fn queue_deleted<'a>(success: bool, date: String) -> (r: QueueResponse<'a>)
    ensures
        r.is("The action delete queue was executed."@, success, Some("delete"@), None, date),
{
    queue_reply("The action delete queue was executed.", success, Some("delete"), date)
}

// ---------------------------------------------------------------------------
// Contacts
// ---------------------------------------------------------------------------

/// An operation the contact endpoint asks for.
#[derive(Debug, PartialEq, Eq)]
pub enum ContactOperation<'a> {
    /// Look up the account with this address and password.
    Authenticate { email: &'a str, password: &'a str },
    /// Add or remove (`action`) `from` in the contacts of the account named `to`.
    Update { action: &'a str, from: &'a str, to: &'a str },
}

/// The next step of the contact endpoint.
#[derive(Debug, PartialEq, Eq)]
pub enum ContactStep<'a> {
    Perform(ContactOperation<'a>),
    Reply(ContactResponse<'static>),
}

fn contact_reply<'a>(message: &'a str, date: String) -> (r: ContactResponse<'a>)
    ensures
        r.is(message@, false, None, None, date),
{
    ContactResponse { title: TITLE, message, success: false, request: None, response: None, date }
}

/// The first step of the contact endpoint: an unknown action is refused, a known one
/// goes on to the credentials.
pub fn contact_begin<'a>(data: &'a ContactFunction<'a>, date: String) -> (r: ContactStep<'a>)
    ensures
        action_kind(data.action@) is None ==> (r matches ContactStep::Reply(x) && x.is(
            "The action does not exist."@,
            false,
            None,
            None,
            date,
        )),
        action_kind(data.action@) is Some ==> r == ContactStep::Perform(
            ContactOperation::Authenticate { email: data.email, password: data.password },
        ),
{
    match parse_action_kind(data.action) {
        None => ContactStep::Reply(contact_reply("The action does not exist.", date)),
        Some(_) => ContactStep::Perform(
            ContactOperation::Authenticate { email: data.email, password: data.password },
        ),
    }
}

/// The step of the contact endpoint once the credentials were looked up: only "add"
/// with its parameter leads to an update of the contacts.
pub fn contact_authenticated<'a>(data: &'a ContactFunction<'a>, valid_credentials: bool, date: String) -> (r: ContactStep<'a>)
    ensures
        !valid_credentials ==> (r matches ContactStep::Reply(x) && x.is(
            "Your credentials is not valid."@,
            false,
            None,
            None,
            date,
        )),
        valid_credentials ==> match action_kind(data.action@) {
            Some(ActionKind::Add) => match data.add {
                Some(a) => r == ContactStep::Perform(
                    ContactOperation::Update { action: a.action, from: a.from, to: a.to },
                ),
                None => r matches ContactStep::Reply(x) && x.is(
                    "The optional add paramenter is not valid."@,
                    false,
                    None,
                    None,
                    date,
                ),
            },
            _ => r matches ContactStep::Reply(x) && x.is(
                "The action does not exist."@,
                false,
                None,
                None,
                date,
            ),
        },
{
    if !valid_credentials {
        return ContactStep::Reply(contact_reply("Your credentials is not valid.", date));
    }
    match parse_action_kind(data.action) {
        Some(ActionKind::Add) => match &data.add {
            Some(a) => ContactStep::Perform(
                ContactOperation::Update { action: a.action, from: a.from, to: a.to },
            ),
            None => ContactStep::Reply(
                contact_reply("The optional add paramenter is not valid.", date),
            ),
        },
        _ => ContactStep::Reply(contact_reply("The action does not exist.", date)),
    }
}

/// The answer once the contacts were updated; `updated` is what the store reported.
pub fn contact_updated<'a>(updated: bool, date: String) -> (r: ContactResponse<'a>)
    ensures
        r.is("The action add was executed."@, updated, Some("add"@), Some(updated), date),
{
    ContactResponse {
        title: TITLE,
        message: "The action add was executed.",
        success: updated,
        request: Some("add"),
        response: Some(updated),
        date,
    }
}

} // verus!
