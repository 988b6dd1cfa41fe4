use blackwell::db::{
    action_append_outcome, affected, contact_change, contact_listed, is_account_available,
    pending_with_code, should_purge_queue, ContactChange,
};
use blackwell::records::{Account, ActionBase, ActionMessage, Message, MessageBase, TemporalAccount, Verification};

fn pending(code: &str) -> TemporalAccount {
    TemporalAccount {
        id: "id-1".to_string(),
        profile: "".to_string(),
        username: "kevin".to_string(),
        email: "kevin@gmail.com".to_string(),
        password: "secret".to_string(),
        created_at: "2024-01-01 00:00:00".to_string(),
        verification: Verification {
            remaining: "2024-01-01 00:03:00".to_string(),
            code: code.to_string(),
        },
        contacts: vec!["ana".to_string()],
    }
}

fn account(contacts: &[&str]) -> Account {
    Account {
        id: "id-2".to_string(),
        profile: "ff".to_string(),
        username: "ana".to_string(),
        email: "ana@gmail.com".to_string(),
        password: "pw".to_string(),
        created_at: "2024-01-01 00:00:00".to_string(),
        contacts: contacts.iter().map(|c| c.to_string()).collect(),
    }
}

fn action_message() -> ActionMessage {
    ActionMessage {
        title: "call".to_string(),
        from: "ana".to_string(),
        message_id: "m1".to_string(),
        action: "ring".to_string(),
        date: "2024-01-01 00:00:00".to_string(),
    }
}

#[test]
fn new_pending_registration() {
    let t = TemporalAccount::new("kevin", "kevin@gmail.com", "pw", "c".to_string(), "r".to_string());
    assert_eq!(t.username, "kevin");
    assert_eq!(t.email, "kevin@gmail.com");
    assert_eq!(t.password, "pw");
    assert_eq!(t.profile, "");
    assert_eq!(t.created_at, "c");
    assert_eq!(t.verification.remaining, "r");
    assert_eq!(t.verification.code.len(), 8);
    assert!(t.contacts.is_empty());
    assert_eq!(t.id.len(), 36);
    let code = t.verification.code.clone();
    assert!(t.has_code(&code));
}

#[test]
fn has_code_is_exact() {
    let t = pending("12345678");
    assert!(t.has_code("12345678"));
    assert!(!t.has_code("1234567"));
    assert!(!t.has_code("123456789"));
    assert!(!t.has_code(""));
}

#[test]
fn into_account_keeps_fields() {
    let a = pending("12345678").into_account();
    assert_eq!(a.id, "id-1");
    assert_eq!(a.profile, "");
    assert_eq!(a.username, "kevin");
    assert_eq!(a.email, "kevin@gmail.com");
    assert_eq!(a.password, "secret");
    assert_eq!(a.created_at, "2024-01-01 00:00:00");
    assert_eq!(a.contacts, vec!["ana".to_string()]);
}

#[test]
fn has_contact_searches_the_list() {
    let a = account(&["kevin", "luis"]);
    assert!(a.has_contact("kevin"));
    assert!(a.has_contact("luis"));
    assert!(!a.has_contact("Kevin"));
    assert!(!account(&[]).has_contact("kevin"));
}

#[test]
fn token_is_id_then_username() {
    assert_eq!(account(&[]).token(), vec!["id-2".to_string(), "ana".to_string()]);
}

#[test]
fn first_documents() {
    let base = ActionBase::first("id-2".to_string(), action_message());
    assert_eq!(base.id, "id-2");
    assert_eq!(base.actions, vec![action_message()]);
    let message = Message {
        id: "m1".to_string(),
        type_: "text".to_string(),
        from: "kevin".to_string(),
        contain: "hi".to_string(),
    };
    let queue = MessageBase::first("id-2".to_string(), "ana", message.clone(), "d".to_string());
    assert_eq!(queue.id, "id-2");
    assert_eq!(queue.username, "ana");
    assert_eq!(queue.messages, vec![message]);
    assert_eq!(queue.date, "d");
}

#[test]
fn availability_needs_both_lookups_empty() {
    assert!(is_account_available(Some(false), Some(false)));
    assert!(!is_account_available(Some(true), Some(false)));
    assert!(!is_account_available(Some(false), Some(true)));
    assert!(!is_account_available(None, Some(false)));
    assert!(!is_account_available(Some(false), None));
}

#[test]
fn pending_lookup_requires_exact_code() {
    assert_eq!(pending_with_code(Some(pending("11112222")), "11112222"), Some(pending("11112222")));
    assert_eq!(pending_with_code(Some(pending("11112222")), "1111222"), None);
    assert_eq!(pending_with_code(None, "11112222"), None);
}

#[test]
fn contact_listed_needs_an_account() {
    assert!(contact_listed(&Some(account(&["kevin"])), "kevin"));
    assert!(!contact_listed(&Some(account(&["kevin"])), "luis"));
    assert!(!contact_listed(&None, "kevin"));
}

#[test]
fn contact_changes() {
    assert_eq!(contact_change("add", false), ContactChange::Push);
    assert_eq!(contact_change("add", true), ContactChange::Unchanged);
    assert_eq!(contact_change("remove", true), ContactChange::Pull);
    assert_eq!(contact_change("remove", false), ContactChange::Unchanged);
    assert_eq!(contact_change("delete", true), ContactChange::Unchanged);
    assert_eq!(contact_change("delete", false), ContactChange::Unchanged);
}

#[test]
fn write_outcomes() {
    assert!(affected(Some(1)));
    assert!(!affected(Some(0)));
    assert!(!affected(None));
    assert_eq!(action_append_outcome(Some(2)), Some(true));
    assert_eq!(action_append_outcome(Some(0)), Some(false));
    assert_eq!(action_append_outcome(None), None);
}

#[test]
fn queues_purge_on_first_of_even_months() {
    assert!(should_purge_queue(3, 1, 2));
    assert!(should_purge_queue(1, 1, 12));
    assert!(!should_purge_queue(0, 1, 2));
    assert!(!should_purge_queue(3, 2, 2));
    assert!(!should_purge_queue(3, 1, 3));
}
