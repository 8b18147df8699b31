use laughter::mutation::Mutation;
use laughter::request::{PollResult, Request, WriteResult};

fn decode(op: &str, arg1: &str, arg2: &str) -> Mutation {
    Mutation::decode(op, arg1.to_string(), arg2.to_string())
}

#[test]
fn every_operation_name_decodes_to_its_edit() {
    let a = || "a".to_string();
    let b = || "b".to_string();
    assert_eq!(decode("set_attribute", "a", "b"), Mutation::SetAttribute(a(), b()));
    assert_eq!(decode("remove_attribute", "a", "b"), Mutation::RemoveAttribute(a()));
    assert_eq!(decode("prepend_html", "a", "b"), Mutation::Prepend(a(), true));
    assert_eq!(decode("prepend_text", "a", "b"), Mutation::Prepend(a(), false));
    assert_eq!(decode("append_html", "a", "b"), Mutation::Append(a(), true));
    assert_eq!(decode("append_text", "a", "b"), Mutation::Append(a(), false));
    assert_eq!(decode("before_html", "a", "b"), Mutation::Before(a(), true));
    assert_eq!(decode("before_text", "a", "b"), Mutation::Before(a(), false));
    assert_eq!(decode("after_html", "a", "b"), Mutation::After(a(), true));
    assert_eq!(decode("after_text", "a", "b"), Mutation::After(a(), false));
    assert_eq!(decode("set_inner_html", "a", "b"), Mutation::SetInnerContent(a(), true));
    assert_eq!(decode("set_inner_text", "a", "b"), Mutation::SetInnerContent(a(), false));
    assert_eq!(decode("replace_html", "a", "b"), Mutation::Replace(a(), true));
    assert_eq!(decode("replace_text", "a", "b"), Mutation::Replace(a(), false));
    assert_eq!(decode("remove", "a", "b"), Mutation::Remove);
}

#[test]
fn other_operation_names_decode_to_no_op() {
    assert_eq!(decode("", "a", "b"), Mutation::NoOp);
    assert_eq!(decode("no_op", "", ""), Mutation::NoOp);
    assert_eq!(decode("Remove", "", ""), Mutation::NoOp);
    assert_eq!(decode("remove ", "", ""), Mutation::NoOp);
    assert_eq!(decode("prepend", "a", "true"), Mutation::NoOp);
    assert_eq!(decode("set_attribute\u{0}", "a", "b"), Mutation::NoOp);
}

#[test]
fn a_response_decodes_triple_by_triple() {
    let raw = vec![
        ("remove".to_string(), String::new(), String::new()),
        ("what".to_string(), "x".to_string(), "y".to_string()),
        ("set_attribute".to_string(), "href".to_string(), "/new".to_string()),
    ];
    assert_eq!(
        Mutation::decode_all(&raw),
        vec![
            Mutation::Remove,
            Mutation::NoOp,
            Mutation::SetAttribute("href".to_string(), "/new".to_string()),
        ]
    );
    assert_eq!(Mutation::decode_all(&Vec::new()), Vec::new());
}

#[test]
fn a_request_is_reported_field_for_field() {
    let attrs = vec![("a".to_string(), "1".to_string()), ("b".to_string(), String::new())];
    assert_eq!(
        PollResult::from_request(Request::Element {
            handler_id: 7,
            tag: "div".to_string(),
            attrs: attrs.clone(),
        }),
        PollResult::Element { handler_id: 7, tag: "div".to_string(), attrs }
    );
    assert_eq!(
        PollResult::from_request(Request::Text {
            handler_id: 8,
            content: "x".to_string(),
            last_in_text_node: true,
        }),
        PollResult::Text { handler_id: 8, content: "x".to_string(), last_in_text_node: true }
    );
}

#[test]
fn a_failed_pass_hands_out_no_output() {
    assert_eq!(WriteResult::conclude(None, vec![1, 2, 3]), WriteResult::Finished(vec![1, 2, 3]));
    assert_eq!(WriteResult::conclude(None, vec![]), WriteResult::Finished(vec![]));
    assert_eq!(
        WriteResult::conclude(Some("boom".to_string()), vec![1, 2, 3]),
        WriteResult::Failed("boom".to_string())
    );
}
