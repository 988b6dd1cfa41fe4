use blackwell::endpoints::{
    action_added, action_authenticated, action_begin, action_deleted, action_fetched,
    contact_authenticated, contact_begin, contact_updated, index, not_found, parse_action_kind,
    queue_added, queue_authenticated, queue_begin, queue_deleted, queue_fetched,
    too_many_requests, unprocessable_entity, ActionKind, ActionOperation, ActionStep,
    ContactOperation, ContactStep, QueueOperation, QueueStep,
};
use blackwell::records::{ActionMessage, Message};
use blackwell::schemas::{
    ActionFunction, AddActionMessage, AddContact, AddQueueHistory, ContactFunction,
    DeleteActionMessage, DeleteQueueHistory, GetActionMessage, GetQueueHistory, QueueFunction,
};

const TITLE: &str = "BlackWell API Revamped";

fn d() -> String {
    "2024-05-01 12:00:00".to_string()
}

fn note() -> ActionMessage {
    ActionMessage {
        title: "t".to_string(),
        from: "kevin".to_string(),
        message_id: "m".to_string(),
        action: "call".to_string(),
        date: "x".to_string(),
    }
}

fn chat() -> Message {
    Message { id: "1".to_string(), type_: "text".to_string(), from: "kevin".to_string(), contain: "hi".to_string() }
}

fn actions<'a>(action: &'a str, with_params: bool) -> ActionFunction<'a> {
    ActionFunction {
        email: "kevin@gmail.com",
        password: "pw",
        action,
        add: if with_params { Some(AddActionMessage { to: "ana", action: note() }) } else { None },
        get: if with_params { Some(GetActionMessage { to: "luis" }) } else { None },
        delete: if with_params { Some(DeleteActionMessage { to: "eva" }) } else { None },
    }
}

fn action_refusal(step: ActionStep, message: &str) {
    match step {
        ActionStep::Reply(r) => {
            assert_eq!((r.title, r.message, r.success, r.request), (TITLE, message, false, None));
            assert!(r.action.is_none());
            assert_eq!(r.date, d());
        },
        ActionStep::Perform(op) => panic!("unexpected operation {:?}", op),
    }
}

#[test]
fn index_page() {
    let page = index(d());
    assert_eq!(page.title, TITLE);
    assert_eq!(page.author.name, "Kevin Benavides || DevCheckOG");
    assert_eq!(page.author.github, "https://github.com/DevCheckOG");
    assert_eq!(page.author.twitter, "https://twitter.com/DevCheckOG");
    assert_eq!(page.date, d());
}

#[test]
fn error_pages() {
    let r = not_found(d());
    assert_eq!((r.title, r.message, r.success), (TITLE, "The endpoint does not exist.", false));
    let r = too_many_requests(d());
    assert_eq!((r.title, r.message, r.success), (TITLE, "You are being rate-limited.", false));
    let r = unprocessable_entity(d());
    assert_eq!(
        (r.title, r.message, r.success),
        (TITLE, "The request could not be processed. Due to its incorrect syntax.", false)
    );
    assert_eq!(r.date, d());
}

#[test]
fn action_names() {
    assert_eq!(parse_action_kind("add"), Some(ActionKind::Add));
    assert_eq!(parse_action_kind("get"), Some(ActionKind::Get));
    assert_eq!(parse_action_kind("delete"), Some(ActionKind::Delete));
    assert_eq!(parse_action_kind("remove"), None);
    assert_eq!(parse_action_kind("Add"), None);
    assert_eq!(parse_action_kind(""), None);
}

#[test]
fn action_endpoint_refuses_unknown_actions_first() {
    let data = actions("update", true);
    action_refusal(action_begin(&data, d()), "The action does not exist.");
    let data = actions("add", true);
    assert_eq!(
        action_begin(&data, d()),
        ActionStep::Perform(ActionOperation::Authenticate { email: "kevin@gmail.com", password: "pw" })
    );
}

#[test]
fn action_endpoint_dispatch() {
    let data = actions("add", true);
    action_refusal(action_authenticated(&data, false, d()), "Your credentials is not valid.");
    let n = note();
    assert_eq!(
        action_authenticated(&data, true, d()),
        ActionStep::Perform(ActionOperation::Add { to: "ana", action: &n })
    );
    let data = actions("get", true);
    assert_eq!(action_authenticated(&data, true, d()), ActionStep::Perform(ActionOperation::Get { to: "luis" }));
    let data = actions("delete", true);
    assert_eq!(action_authenticated(&data, true, d()), ActionStep::Perform(ActionOperation::Delete { to: "eva" }));
}

#[test]
fn action_endpoint_missing_parameters() {
    action_refusal(action_authenticated(&actions("add", false), true, d()), "The optional add paramenter is not valid.");
    action_refusal(action_authenticated(&actions("get", false), true, d()), "The optional get paramenter is not valid.");
    action_refusal(
        action_authenticated(&actions("delete", false), true, d()),
        "The optional delete paramenter is not valid.",
    );
    action_refusal(action_authenticated(&actions("other", true), true, d()), "The action does not exist.");
}

#[test]
fn action_endpoint_answers() {
    let r = action_added(true, d());
    assert_eq!((r.message, r.success, r.request), ("The action was executed.", true, Some("add")));
    let r = action_added(false, d());
    assert_eq!((r.message, r.success, r.request), ("The action was executed.", false, Some("add")));
    let r = action_fetched(Some(vec![note()]), d());
    assert_eq!((r.message, r.success, r.request), ("The action was found.", true, Some("get")));
    assert_eq!(r.action, Some((Some(vec![note()]), None)));
    let r = action_fetched(None, d());
    assert_eq!((r.message, r.success, r.request, r.action), ("The actions was not found.", false, None, None));
    let r = action_deleted(true, d());
    assert_eq!((r.title, r.message, r.success, r.request), (TITLE, "The delete action was executed.", true, Some("delete")));
}

fn queues<'a>(action: &'a str, with_params: bool) -> QueueFunction<'a> {
    QueueFunction {
        email: "kevin@gmail.com",
        password: "pw",
        action,
        add: if with_params { Some(AddQueueHistory { to: "ana", message: chat() }) } else { None },
        get: if with_params { Some(GetQueueHistory { token: "tok" }) } else { None },
        delete: if with_params { Some(DeleteQueueHistory { to: "eva" }) } else { None },
    }
}

fn queue_refusal(step: QueueStep, message: &str) {
    match step {
        QueueStep::Reply(r) => {
            assert_eq!((r.title, r.message, r.success, r.request), (TITLE, message, false, None));
            assert!(r.action.is_none());
        },
        QueueStep::Perform(op) => panic!("unexpected operation {:?}", op),
    }
}

#[test]
fn queue_endpoint_steps() {
    queue_refusal(queue_begin(&queues("list", true), d()), "The action does not exist.");
    assert_eq!(
        queue_begin(&queues("get", true), d()),
        QueueStep::Perform(QueueOperation::Authenticate { email: "kevin@gmail.com", password: "pw" })
    );
    queue_refusal(queue_authenticated(&queues("get", true), false, d()), "Your credentials is not valid.");
    let m = chat();
    assert_eq!(
        queue_authenticated(&queues("add", true), true, d()),
        QueueStep::Perform(QueueOperation::Add { to: "ana", message: &m })
    );
    assert_eq!(queue_authenticated(&queues("get", true), true, d()), QueueStep::Perform(QueueOperation::Get { token: "tok" }));
    assert_eq!(queue_authenticated(&queues("delete", true), true, d()), QueueStep::Perform(QueueOperation::Delete { to: "eva" }));
    queue_refusal(queue_authenticated(&queues("add", false), true, d()), "The optional add paramenter is not valid.");
    queue_refusal(queue_authenticated(&queues("get", false), true, d()), "The optional get paramenter is not valid.");
    queue_refusal(queue_authenticated(&queues("delete", false), true, d()), "The optional delete paramenter is not valid.");
}

#[test]
fn queue_endpoint_answers() {
    let r = queue_added(true, d());
    assert_eq!((r.message, r.success, r.request), ("The action add queue was executed.", true, Some("add")));
    let r = queue_fetched(Some(vec![chat()]), d());
    assert_eq!((r.message, r.success, r.request), ("The action get queue executed.", true, Some("get")));
    assert_eq!(r.action, Some((Some(vec![chat()]), None)));
    let r = queue_fetched(None, d());
    assert_eq!((r.message, r.success, r.request, r.action), ("The actions was not found.", false, None, None));
    let r = queue_deleted(false, d());
    assert_eq!((r.message, r.success, r.request), ("The action delete queue was executed.", false, Some("delete")));
}

fn contacts<'a>(action: &'a str, with_params: bool) -> ContactFunction<'a> {
    ContactFunction {
        email: "kevin@gmail.com",
        password: "pw",
        action,
        add: if with_params { Some(AddContact { action: "add", from: "kevin", to: "ana" }) } else { None },
    }
}

fn contact_refusal(step: ContactStep, message: &str) {
    match step {
        ContactStep::Reply(r) => {
            assert_eq!((r.title, r.message, r.success, r.request, r.response), (TITLE, message, false, None, None));
        },
        ContactStep::Perform(op) => panic!("unexpected operation {:?}", op),
    }
}

#[test]
fn contact_endpoint_steps() {
    contact_refusal(contact_begin(&contacts("remove", true), d()), "The action does not exist.");
    assert_eq!(
        contact_begin(&contacts("add", true), d()),
        ContactStep::Perform(ContactOperation::Authenticate { email: "kevin@gmail.com", password: "pw" })
    );
    contact_refusal(contact_authenticated(&contacts("add", true), false, d()), "Your credentials is not valid.");
    assert_eq!(
        contact_authenticated(&contacts("add", true), true, d()),
        ContactStep::Perform(ContactOperation::Update { action: "add", from: "kevin", to: "ana" })
    );
    contact_refusal(contact_authenticated(&contacts("add", false), true, d()), "The optional add paramenter is not valid.");
    contact_refusal(contact_authenticated(&contacts("get", true), true, d()), "The action does not exist.");
    contact_refusal(contact_authenticated(&contacts("delete", true), true, d()), "The action does not exist.");
    let r = contact_updated(true, d());
    assert_eq!(
        (r.title, r.message, r.success, r.request, r.response),
        (TITLE, "The action add was executed.", true, Some("add"), Some(true))
    );
    let r = contact_updated(false, d());
    assert_eq!((r.success, r.response), (false, Some(false)));
}
