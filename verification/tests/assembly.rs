use chat_context::message::{classify, RawMessage, Role, Utterance};
use chat_context::reply_chain::reply_chain_to_query;
use chat_context::thread_window::thread_manager;

const BOT_ID: u64 = 1194929672945934356;
const PROMPT: &str = "You are a helpful assistant.";

fn msg(id: u64, author_id: u64, author_name: &str, text: &str, parent: Option<RawMessage>) -> RawMessage {
    RawMessage {
        id,
        channel_id: 77,
        author_id,
        author_name: author_name.to_string(),
        text: text.to_string(),
        parent: parent.map(Box::new),
    }
}

/// Builds a linear chain of `len` messages; the returned message is the
/// newest (the trigger) and message k carries text "m<k>", oldest = m1.
fn chain(len: u64) -> RawMessage {
    let mut cur = msg(1, 42, "alice", "m1", None);
    for k in 2..=len {
        let author = if k % 2 == 0 { BOT_ID } else { 42 };
        let name = if k % 2 == 0 { "bot" } else { "alice" };
        cur = msg(k, author, name, &format!("m{}", k), Some(cur));
    }
    cur
}

#[test]
fn classify_bot_message_is_assistant_verbatim() {
    let m = msg(1, BOT_ID, "bot", "hello there", None);
    let u = classify(&m, BOT_ID);
    assert_eq!(u.role, Role::Assistant);
    assert_eq!(u.text, "hello there");
}

#[test]
fn classify_other_author_is_user_with_name_prefix() {
    let m = msg(1, 42, "alice", "hi bot", None);
    let u = classify(&m, BOT_ID);
    assert_eq!(u.role, Role::User);
    assert_eq!(u.text, "alice: hi bot");
}

#[test]
fn reply_chain_starts_with_system_and_is_bounded() {
    for len in [1u64, 2, 5, 10, 11, 15, 30] {
        let ctx = reply_chain_to_query(&chain(len), BOT_ID, PROMPT);
        assert!(!ctx.is_empty());
        assert_eq!(ctx[0].role, Role::System);
        assert_eq!(ctx[0].text, PROMPT);
        assert!(ctx.len() <= 11);
        for u in &ctx[1..] {
            assert_ne!(u.role, Role::System);
        }
    }
}

#[test]
fn reply_chain_linear_four() {
    // A <- B <- C <- D, trigger D. The walk classifies a message only
    // while it still points at a parent, so the root A ends the walk
    // without being classified.
    let a = msg(1, 42, "alice", "first", None);
    let b = msg(2, BOT_ID, "bot", "second", Some(a));
    let c = msg(3, 42, "alice", "third", Some(b));
    let d = msg(4, 42, "alice", "fourth", Some(c));
    let ctx = reply_chain_to_query(&d, BOT_ID, PROMPT);
    let expected: Vec<(Role, &str)> = vec![
        (Role::System, PROMPT),
        (Role::Assistant, "second"),
        (Role::User, "alice: third"),
        (Role::User, "alice: fourth"),
    ];
    assert_eq!(ctx.len(), expected.len());
    for (u, (role, text)) in ctx.iter().zip(expected.iter()) {
        assert_eq!(u.role, *role);
        assert_eq!(u.text, *text);
    }
}

#[test]
fn reply_chain_of_fifteen_truncates_older_ancestors() {
    let ctx = reply_chain_to_query(&chain(15), BOT_ID, PROMPT);
    assert_eq!(ctx.len(), 11);
    assert_eq!(ctx[0].role, Role::System);
    // The ten newest hops survive: m6 .. m15, oldest first.
    assert_eq!(ctx[1].role, Role::Assistant);
    assert_eq!(ctx[1].text, "m6");
    assert_eq!(ctx[2].text, "alice: m7");
    assert_eq!(ctx[10].role, Role::User);
    assert_eq!(ctx[10].text, "alice: m15");
}

#[test]
fn reply_chain_single_message_without_parent() {
    let ctx = reply_chain_to_query(&msg(9, 42, "alice", "lonely", None), BOT_ID, PROMPT);
    assert_eq!(ctx.len(), 1);
    assert_eq!(ctx[0].role, Role::System);
    assert_eq!(ctx[0].text, PROMPT);
}

fn window_newest_first() -> Vec<RawMessage> {
    // m10 is the newest, m1 the oldest, as the platform returns them.
    (0..10u64)
        .map(|k| {
            let n = 10 - k;
            let author = if n % 2 == 0 { BOT_ID } else { 42 };
            let name = if n % 2 == 0 { "bot" } else { "alice" };
            msg(n, author, name, &format!("m{}", n), None)
        })
        .collect()
}

#[test]
fn thread_window_disallowed_channel_is_empty() {
    let allow: Vec<u64> = vec![100, 200];
    let ctx = thread_manager(300, &allow, &window_newest_first(), BOT_ID, PROMPT);
    assert!(ctx.is_empty());
}

#[test]
fn thread_window_allowed_is_chronological_system_first() {
    let allow: Vec<u64> = vec![100, 200];
    let ctx = thread_manager(200, &allow, &window_newest_first(), BOT_ID, PROMPT);
    assert_eq!(ctx.len(), 11);
    assert_eq!(ctx[0].role, Role::System);
    assert_eq!(ctx[0].text, PROMPT);
    for n in 1..=10u64 {
        let u = &ctx[n as usize];
        if n % 2 == 0 {
            assert_eq!(u.role, Role::Assistant);
            assert_eq!(u.text, format!("m{}", n));
        } else {
            assert_eq!(u.role, Role::User);
            assert_eq!(u.text, format!("alice: m{}", n));
        }
    }
}

#[test]
fn thread_window_allowed_empty_fetch_keeps_system_entry() {
    let allow: Vec<u64> = vec![100];
    let ctx = thread_manager(100, &allow, &Vec::new(), BOT_ID, PROMPT);
    assert_eq!(ctx.len(), 1);
    assert_eq!(ctx[0].role, Role::System);
}

#[test]
fn assemblers_are_idempotent_over_identical_inputs() {
    let trigger = chain(7);
    let c1: Vec<Utterance> = reply_chain_to_query(&trigger, BOT_ID, PROMPT);
    let c2: Vec<Utterance> = reply_chain_to_query(&trigger, BOT_ID, PROMPT);
    assert_eq!(c1, c2);

    let allow: Vec<u64> = vec![100, 200];
    let fetched = window_newest_first();
    let t1 = thread_manager(100, &allow, &fetched, BOT_ID, PROMPT);
    let t2 = thread_manager(100, &allow, &fetched, BOT_ID, PROMPT);
    assert_eq!(t1, t2);
}
