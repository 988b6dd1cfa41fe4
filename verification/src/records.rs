//! The documents the API keeps: secrets, accounts, pending registrations, action
//! notifications and queued messages.
use vstd::prelude::*;
use vstd::string::*;

use crate::text::str_eq;
use crate::verification::{gen_random_six_number, new_account_id, code_half_in_range, code_text, is_uuid_v4_text};

verus! {

/// A named secret of the system collection (mail credentials).
#[derive(Debug, Clone, PartialEq, Eq)]
pub struct Secret {
    pub id: String,
    pub secret: String,
}

/// The code of a pending registration and the time until which it is valid.
#[derive(Debug, Clone, PartialEq, Eq)]
pub struct Verification {
    pub remaining: String,
    pub code: String,
}

/// A registration waiting for its verification code.
#[derive(Debug, Clone, PartialEq, Eq)]
pub struct TemporalAccount {
    pub id: String,
    pub profile: String,
    pub username: String,
    pub email: String,
    pub password: String,
    pub created_at: String,
    pub verification: Verification,
    pub contacts: Vec<String>,
}

/// A verified account.
#[derive(Debug, Clone, PartialEq, Eq)]
pub struct Account {
    pub id: String,
    pub profile: String,
    pub username: String,
    pub email: String,
    pub password: String,
    pub created_at: String,
    pub contacts: Vec<String>,
}

/// The pending action notifications of one account.
#[derive(Debug, Clone, PartialEq, Eq)]
pub struct ActionBase {
    pub id: String,
    pub actions: Vec<ActionMessage>,
}

/// One action notification.
#[derive(Debug, Clone, PartialEq, Eq)]
pub struct ActionMessage {
    pub title: String,
    pub from: String,
    pub message_id: String,
    pub action: String,
    pub date: String,
}

/// One queued chat message.
#[derive(Debug, Clone, PartialEq, Eq)]
pub struct Message {
    pub id: String,
    pub type_: String,
    pub from: String,
    pub contain: String,
}

/// The message queue of one account.
#[derive(Debug, Clone, PartialEq, Eq)]
pub struct MessageBase {
    pub id: String,
    pub username: String,
    pub messages: Vec<Message>,
    pub date: String,
}

/// `contacts` holds an entry equal to `name`.
pub open spec fn lists_contact(contacts: Seq<String>, name: Seq<char>) -> bool {
    exists|i: int| 0 <= i < contacts.len() && (#[trigger] contacts[i])@ == name
}

/// Membership in a contact list is exact equality with some entry: no list holds a
/// name it was not given, appending a name makes it listed, and appending a different
/// name (a longer one that ends or starts like it, say) leaves its membership as it was.
pub proof fn lemma_contact_membership(contacts: Seq<String>, added: String, name: Seq<char>)
    ensures
        !lists_contact(Seq::<String>::empty(), name),
        lists_contact(contacts.push(added), name) <==> (lists_contact(contacts, name) || added@ == name),
        added@ != name ==> (lists_contact(contacts.push(added), name) <==> lists_contact(contacts, name)),
{
    let pushed = contacts.push(added);
    if lists_contact(contacts, name) {
        let i = choose|i: int| 0 <= i < contacts.len() && (#[trigger] contacts[i])@ == name;
        assert(pushed[i] == contacts[i]);
    }
    if added@ == name {
        assert(pushed[contacts.len() as int] == added);
    }
    if lists_contact(pushed, name) {
        let i = choose|i: int| 0 <= i < pushed.len() && (#[trigger] pushed[i])@ == name;
        if i < contacts.len() {
            assert(contacts[i] == pushed[i]);
        }
    }
}

impl TemporalAccount {
    /// A new pending registration with a fresh identifier and a fresh random code,
    /// an empty profile and no contacts.
    pub fn new(
        username: &str,
        email: &str,
        password: &str,
        created_at: String,
        remaining: String,
    ) -> (r: TemporalAccount)
        ensures
            is_uuid_v4_text(r.id@),
            r.profile@ == Seq::<char>::empty(),
            r.username@ == username@,
            r.email@ == email@,
            r.password@ == password@,
            r.created_at == created_at,
            r.verification.remaining == remaining,
            exists|first: int, second: int|
                code_half_in_range(first) && code_half_in_range(second)
                    && r.verification.code@ == #[trigger] code_text(first, second),
            r.contacts@.len() == 0,
    {
        let code = gen_random_six_number();
        let id = new_account_id();
        TemporalAccount::from_draws(id, code, username, email, password, created_at, remaining)
    }

    /// The pending registration with identifier `id` and verification code `code` (the
    /// values drawn for it): an empty profile, no contacts, and the given name, address,
    /// password and times.
    pub fn from_draws(
        id: String,
        code: String,
        username: &str,
        email: &str,
        password: &str,
        created_at: String,
        remaining: String,
    ) -> (r: TemporalAccount)
        ensures
            r.id == id,
            r.verification.code == code,
            r.verification.remaining == remaining,
            r.profile@ == Seq::<char>::empty(),
            r.username@ == username@,
            r.email@ == email@,
            r.password@ == password@,
            r.created_at == created_at,
            r.contacts@.len() == 0,
    {
        TemporalAccount {
            id,
            profile: String::new(),
            username: String::from_str(username),
            email: String::from_str(email),
            password: String::from_str(password),
            created_at,
            verification: Verification { remaining, code },
            contacts: Vec::new(),
        }
    }

    /// Whether `code` is this registration's verification code.
    pub fn has_code(&self, code: &str) -> (r: bool)
        ensures
            r == (self.verification.code@ == code@),
    {
        str_eq(self.verification.code.as_str(), code)
    }

    /// The verified account this registration becomes: every field but the
    /// verification carries over unchanged.
    pub fn into_account(self) -> (r: Account)
        ensures
            r.id == self.id,
            r.profile == self.profile,
            r.username == self.username,
            r.email == self.email,
            r.password == self.password,
            r.created_at == self.created_at,
            r.contacts == self.contacts,
    {
        Account {
            id: self.id,
            profile: self.profile,
            username: self.username,
            email: self.email,
            password: self.password,
            created_at: self.created_at,
            contacts: self.contacts,
        }
    }
}

impl Account {
    /// Whether `contact` is among this account's contacts.
    pub fn has_contact(&self, contact: &str) -> (r: bool)
        ensures
            r == lists_contact(self.contacts@, contact@),
            r == exists|i: int|
                0 <= i < self.contacts@.len() && (#[trigger] self.contacts@[i])@ == contact@,
    {
        let n = self.contacts.len();
        let mut i: usize = 0;
        while i < n
            invariant
                n == self.contacts@.len(),
                i <= n,
                forall|j: int| 0 <= j < i ==> (#[trigger] self.contacts@[j])@ != contact@,
            decreases n - i,
        {
            if str_eq(self.contacts[i].as_str(), contact) {
                return true;
            }
            i += 1;
        }
        false
    }

    /// The account's token: its identifier followed by its username.
    pub fn token(&self) -> (r: Vec<String>)
        ensures
            r@.len() == 2,
            r@[0] == self.id,
            r@[1] == self.username,
    {
        let mut token = Vec::new();
        token.push(self.id.clone());
        token.push(self.username.clone());
        token
    }
}

impl ActionBase {
    /// The notification list of account `id` when its first action arrives.
    pub fn first(id: String, action: ActionMessage) -> (r: ActionBase)
        ensures
            r.id == id,
            r.actions@ == seq![action],
    {
        let mut actions = Vec::new();
        actions.push(action);
        ActionBase { id, actions }
    }
}

impl MessageBase {
    /// The queue of account `id` (named `username`) when its first message arrives
    /// at `date`.
    pub fn first(id: String, username: &str, message: Message, date: String) -> (r: MessageBase)
        ensures
            r.id == id,
            r.username@ == username@,
            r.messages@ == seq![message],
            r.date == date,
    {
        let mut messages = Vec::new();
        messages.push(message);
        MessageBase { id, username: String::from_str(username), messages, date }
    }
}

} // verus!
