use leptos_tiptap::{TiptapCall, TiptapCommand, TiptapHeadingLevel, TiptapInstanceMsg, TiptapInstanceState};

fn s(x: &str) -> String {
    x.to_string()
}

fn mounted_instance(id: &str) -> TiptapInstanceState {
    let mut st = TiptapInstanceState::new(s(id));
    let calls = st.set_mounted(true, s("<p>hi</p>"), false);
    assert_eq!(calls.len(), 1);
    st
}

#[test]
fn new_instance_is_not_created() {
    let st = TiptapInstanceState::new(s("a"));
    assert_eq!(st.id(), Some(&s("a")));
    assert!(!st.is_mounted());
    assert!(!st.is_initialized());
}

#[test]
fn mounting_creates_the_instance_once() {
    let mut st = TiptapInstanceState::new(s("a"));
    let calls = st.set_mounted(true, s("<p>hi</p>"), false);
    assert_eq!(
        calls,
        vec![TiptapCall::Create { id: s("a"), content: s("<p>hi</p>"), editable: true }]
    );
    assert!(st.is_initialized());
    assert!(st.set_mounted(true, s("<p>other</p>"), false).is_empty());
    assert!(st.set_mounted(false, s("<p>other</p>"), false).is_empty());
    assert!(st.set_mounted(true, s("<p>other</p>"), false).is_empty());
}

#[test]
fn disabled_at_creation_makes_it_read_only() {
    let mut st = TiptapInstanceState::new(s("a"));
    let calls = st.set_mounted(true, s(""), true);
    assert_eq!(calls, vec![TiptapCall::Create { id: s("a"), content: s(""), editable: false }]);
}

#[test]
fn unmounted_node_creates_nothing() {
    let mut st = TiptapInstanceState::new(s("a"));
    assert!(st.set_mounted(false, s("x"), false).is_empty());
    assert!(!st.is_initialized());
}

#[test]
fn messages_before_creation_are_dropped() {
    let st = TiptapInstanceState::new(s("a"));
    assert!(st.handle_msg(TiptapInstanceMsg::Bold).is_empty());
    assert!(st.set_disabled(true).is_empty());
}

#[test]
fn messages_after_creation_reach_the_instance() {
    let st = mounted_instance("a");
    assert_eq!(
        st.handle_msg(TiptapInstanceMsg::H2),
        vec![TiptapCall::Run {
            id: s("a"),
            command: TiptapCommand::ToggleHeading(TiptapHeadingLevel::H2)
        }]
    );
    assert_eq!(
        st.handle_msg(TiptapInstanceMsg::Bold),
        vec![TiptapCall::Run { id: s("a"), command: TiptapCommand::ToggleBold }]
    );
    assert!(st.handle_msg(TiptapInstanceMsg::Noop).is_empty());
}

#[test]
fn disabling_flips_editability() {
    let st = mounted_instance("a");
    assert_eq!(st.set_disabled(true), vec![TiptapCall::SetEditable { id: s("a"), editable: false }]);
    assert_eq!(st.set_disabled(false), vec![TiptapCall::SetEditable { id: s("a"), editable: true }]);
}

#[test]
fn new_id_replaces_the_instance() {
    let mut st = mounted_instance("a");
    let calls = st.set_id(s("b"), s("<p>b</p>"), true);
    assert_eq!(
        calls,
        vec![
            TiptapCall::Destroy { id: s("a") },
            TiptapCall::Create { id: s("b"), content: s("<p>b</p>"), editable: false },
        ]
    );
    assert_eq!(st.id(), Some(&s("b")));
    assert_eq!(
        st.handle_msg(TiptapInstanceMsg::Italic),
        vec![TiptapCall::Run { id: s("b"), command: TiptapCommand::ToggleItalic }]
    );
}

#[test]
fn same_id_changes_nothing() {
    let mut st = mounted_instance("a");
    assert!(st.set_id(s("a"), s("<p>again</p>"), false).is_empty());
    assert!(st.is_initialized());
}

#[test]
fn new_id_before_mount_only_renames() {
    let mut st = TiptapInstanceState::new(s("a"));
    assert!(st.set_id(s("b"), s("x"), false).is_empty());
    assert_eq!(
        st.set_mounted(true, s("x"), false),
        vec![TiptapCall::Create { id: s("b"), content: s("x"), editable: true }]
    );
}

#[test]
fn dispose_destroys_a_created_instance() {
    let mut st = mounted_instance("a");
    assert_eq!(st.dispose(), vec![TiptapCall::Destroy { id: s("a") }]);
    assert_eq!(st.id(), None);
    assert!(st.handle_msg(TiptapInstanceMsg::Bold).is_empty());
    assert!(st.set_disabled(false).is_empty());
    assert!(st.set_mounted(true, s("x"), false).is_empty());
    assert!(st.dispose().is_empty());
}

#[test]
fn dispose_before_creation_destroys_nothing() {
    let mut st = TiptapInstanceState::new(s("a"));
    assert!(st.dispose().is_empty());
}
