//! The bodies the API receives and answers with.
use vstd::prelude::*;

use crate::records::{Account, ActionMessage, Message};

verus! {

/// The title every answer of the API carries.
pub const TITLE: &'static str = "BlackWell API Revamped";

/// A plain answer.
#[derive(Debug, PartialEq, Eq)]
pub struct DefaultResponse<'a> {
    pub title: &'a str,
    pub message: &'a str,
    pub success: bool,
    pub date: String,
}

/// The answer to a login.
#[derive(Debug, PartialEq, Eq)]
pub struct AccountResponse<'a> {
    pub title: &'a str,
    pub message: &'a str,
    pub success: bool,
    pub account: Option<Account>,
    pub date: String,
}

/// The answer to a profile request.
#[derive(Debug, PartialEq, Eq)]
pub struct ProfileResponse<'a> {
    pub title: &'a str,
    pub message: &'a str,
    pub success: bool,
    pub profile: Option<String>,
    pub date: String,
}

/// The answer to an action request.
#[derive(Debug, PartialEq, Eq)]
pub struct ActionResponse<'a> {
    pub title: &'a str,
    pub message: &'a str,
    pub success: bool,
    pub request: Option<&'a str>,
    pub action: Option<(Option<Vec<ActionMessage>>, Option<bool>)>,
    pub date: String,
}

/// The answer to a queue request.
#[derive(Debug, PartialEq, Eq)]
pub struct QueueResponse<'a> {
    pub title: &'a str,
    pub message: &'a str,
    pub success: bool,
    pub request: Option<&'a str>,
    pub action: Option<(Option<Vec<Message>>, Option<bool>)>,
    pub date: String,
}

/// The answer to a contact request.
#[derive(Debug, PartialEq, Eq)]
pub struct ContactResponse<'a> {
    pub title: &'a str,
    pub message: &'a str,
    pub success: bool,
    pub request: Option<&'a str>,
    pub response: Option<bool>,
    pub date: String,
}

/// The author shown on the index page.
#[derive(Debug, PartialEq, Eq)]
pub struct Author<'a> {
    pub name: &'a str,
    pub github: &'a str,
    pub twitter: &'a str,
}

/// The index page.
#[derive(Debug, PartialEq, Eq)]
pub struct Index<'a> {
    pub title: &'a str,
    pub author: Author<'a>,
    pub date: String,
}

/// A registration request.
#[derive(Debug, PartialEq, Eq)]
pub struct Register<'a> {
    pub username: &'a str,
    pub email: &'a str,
    pub password: &'a str,
}

/// A verification request.
#[derive(Debug, PartialEq, Eq)]
pub struct VerificationCode<'a> {
    pub code: &'a str,
}

/// A request to delete an account.
#[derive(Debug, PartialEq, Eq)]
pub struct DeleteAccount<'a> {
    pub email: &'a str,
    pub password: &'a str,
}

/// A login request.
#[derive(Debug, PartialEq, Eq)]
pub struct Login<'a> {
    pub email: &'a str,
    pub password: &'a str,
}

/// A request to change the profile picture of the account `token`.
#[derive(Debug, PartialEq, Eq)]
pub struct SetProfile<'a> {
    pub token: &'a str,
    pub profile: &'a str,
}

/// A request for the profile of `contact`, made by the account `token`.
#[derive(Debug, PartialEq, Eq)]
pub struct GetProfile<'a> {
    pub token: &'a str,
    pub contact: &'a str,
}

/// A request on the action notifications.
#[derive(Debug, PartialEq, Eq)]
pub struct ActionFunction<'a> {
    pub email: &'a str,
    pub password: &'a str,
    pub action: &'a str,
    pub add: Option<AddActionMessage<'a>>,
    pub get: Option<GetActionMessage<'a>>,
    pub delete: Option<DeleteActionMessage<'a>>,
}

/// A request on the message queues.
#[derive(Debug, PartialEq, Eq)]
pub struct QueueFunction<'a> {
    pub email: &'a str,
    pub password: &'a str,
    pub action: &'a str,
    pub add: Option<AddQueueHistory<'a>>,
    pub get: Option<GetQueueHistory<'a>>,
    pub delete: Option<DeleteQueueHistory<'a>>,
}

/// A request on the contact lists.
#[derive(Debug, PartialEq, Eq)]
pub struct ContactFunction<'a> {
    pub email: &'a str,
    pub password: &'a str,
    pub action: &'a str,
    pub add: Option<AddContact<'a>>,
}

/// Sends `action` to the account named `to`.
#[derive(Debug, PartialEq, Eq)]
pub struct AddActionMessage<'a> {
    pub to: &'a str,
    pub action: ActionMessage,
}

/// Reads the notifications of the account named `to`.
#[derive(Debug, PartialEq, Eq)]
pub struct GetActionMessage<'a> {
    pub to: &'a str,
}

/// Deletes the notifications of the account named `to`.
#[derive(Debug, PartialEq, Eq)]
pub struct DeleteActionMessage<'a> {
    pub to: &'a str,
}

/// Reads the queue of the account `token`.
#[derive(Debug, PartialEq, Eq)]
pub struct GetQueueHistory<'a> {
    pub token: &'a str,
}

/// Deletes the queue of the account named `to`.
#[derive(Debug, PartialEq, Eq)]
pub struct DeleteQueueHistory<'a> {
    pub to: &'a str,
}

/// Queues `message` for the account named `to`.
#[derive(Debug, PartialEq, Eq)]
pub struct AddQueueHistory<'a> {
    pub to: &'a str,
    pub message: Message,
}

/// Adds (`action` "add") or removes (`action` "remove") `from` in the contacts of `to`.
#[derive(Debug, PartialEq, Eq)]
pub struct AddContact<'a> {
    pub action: &'a str,
    pub from: &'a str,
    pub to: &'a str,
}

/// The answer carries the API's title.
pub open spec fn titled(title: &str) -> bool {
    title@ == "BlackWell API Revamped"@
}

impl<'a> DefaultResponse<'a> {
    /// This answer has the API's title and the given message, success and date.
    pub open spec fn is(self, message: Seq<char>, success: bool, date: String) -> bool {
        &&& titled(self.title)
        &&& self.message@ == message
        &&& self.success == success
        &&& self.date == date
    }
}

/// Each answer predicate pins every field: the API's title, the message, the success
/// flag, the payload and the date are exactly the ones given.
pub proof fn lemma_answers_are_exact<'a>(
    d: DefaultResponse<'a>,
    a: AccountResponse<'a>,
    p: ProfileResponse<'a>,
    c: ContactResponse<'a>,
    message: Seq<char>,
    success: bool,
    request: Option<Seq<char>>,
    account: Option<Account>,
    profile: Option<String>,
    response: Option<bool>,
    date: String,
)
    ensures
        d.is(message, success, date) <==> (d.title@ == "BlackWell API Revamped"@ && d.message@
            == message && d.success == success && d.date == date),
        a.is(message, success, account, date) <==> (a.title@ == "BlackWell API Revamped"@
            && a.message@ == message && a.success == success && a.account == account && a.date
            == date),
        p.is(message, success, profile, date) <==> (p.title@ == "BlackWell API Revamped"@
            && p.message@ == message && p.success == success && p.profile == profile && p.date
            == date),
        c.is(message, success, request, response, date) <==> (c.title@ == "BlackWell API Revamped"@
            && c.message@ == message && c.success == success && (match c.request {
            Some(t) => request == Some(t@),
            None => request is None,
        }) && c.response == response && c.date == date),
{
}

/// The action and queue answer predicates pin every field as well.
pub proof fn lemma_list_answers_are_exact<'a>(
    x: ActionResponse<'a>,
    q: QueueResponse<'a>,
    message: Seq<char>,
    success: bool,
    request: Option<Seq<char>>,
    actions: Option<(Option<Vec<ActionMessage>>, Option<bool>)>,
    messages: Option<(Option<Vec<Message>>, Option<bool>)>,
    date: String,
)
    ensures
        x.is(message, success, request, actions, date) <==> (x.title@ == "BlackWell API Revamped"@
            && x.message@ == message && x.success == success && (match x.request {
            Some(t) => request == Some(t@),
            None => request is None,
        }) && x.action == actions && x.date == date),
        q.is(message, success, request, messages, date) <==> (q.title@ == "BlackWell API Revamped"@
            && q.message@ == message && q.success == success && (match q.request {
            Some(t) => request == Some(t@),
            None => request is None,
        }) && q.action == messages && q.date == date),
{
}

/// The characters of an optional text.
pub open spec fn opt_text(t: Option<&str>) -> Option<Seq<char>> {
    match t {
        Some(t) => Some(t@),
        None => None,
    }
}

impl<'a> AccountResponse<'a> {
    /// This answer has the API's title and the given message, success, account and date.
    pub open spec fn is(self, message: Seq<char>, success: bool, account: Option<Account>, date: String) -> bool {
        &&& titled(self.title)
        &&& self.message@ == message
        &&& self.success == success
        &&& self.account == account
        &&& self.date == date
    }
}

impl<'a> ProfileResponse<'a> {
    /// This answer has the API's title and the given message, success, profile and date.
    pub open spec fn is(self, message: Seq<char>, success: bool, profile: Option<String>, date: String) -> bool {
        &&& titled(self.title)
        &&& self.message@ == message
        &&& self.success == success
        &&& self.profile == profile
        &&& self.date == date
    }
}

impl<'a> ActionResponse<'a> {
    /// This answer has the API's title and the given message, success, request name,
    /// payload and date.
    pub open spec fn is(
        self,
        message: Seq<char>,
        success: bool,
        request: Option<Seq<char>>,
        action: Option<(Option<Vec<ActionMessage>>, Option<bool>)>,
        date: String,
    ) -> bool {
        &&& titled(self.title)
        &&& self.message@ == message
        &&& self.success == success
        &&& opt_text(self.request) == request
        &&& self.action == action
        &&& self.date == date
    }
}

impl<'a> QueueResponse<'a> {
    /// This answer has the API's title and the given message, success, request name,
    /// payload and date.
    pub open spec fn is(
        self,
        message: Seq<char>,
        success: bool,
        request: Option<Seq<char>>,
        action: Option<(Option<Vec<Message>>, Option<bool>)>,
        date: String,
    ) -> bool {
        &&& titled(self.title)
        &&& self.message@ == message
        &&& self.success == success
        &&& opt_text(self.request) == request
        &&& self.action == action
        &&& self.date == date
    }
}

impl<'a> ContactResponse<'a> {
    /// This answer has the API's title and the given message, success, request name,
    /// outcome and date.
    pub open spec fn is(
        self,
        message: Seq<char>,
        success: bool,
        request: Option<Seq<char>>,
        response: Option<bool>,
        date: String,
    ) -> bool {
        &&& titled(self.title)
        &&& self.message@ == message
        &&& self.success == success
        &&& opt_text(self.request) == request
        &&& self.response == response
        &&& self.date == date
    }
}

} // verus!
