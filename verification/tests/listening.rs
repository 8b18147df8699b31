use laughter::collector::{
    build, create, done, filter, parse, CollectError, Flush, Message, RewriterBuilder,
};
use laughter::registry::RegisterError;
use laughter::selector::RejectedSelector;
use laughter::worker::StartError;

fn element(filter_id: u64, tag: &str, attrs: &[(&str, &str)]) -> Message {
    Message::Element {
        filter_id,
        tag: tag.to_string(),
        attrs: attrs.iter().map(|(k, v)| (k.to_string(), v.to_string())).collect(),
    }
}

fn text(filter_id: u64, content: &str) -> Message {
    Message::Text { filter_id, content: content.to_string() }
}

#[test]
fn filter_identities_start_at_zero() {
    let mut builder = build();
    assert_eq!(filter(&mut builder, "p".to_string(), false), Ok(0));
    assert_eq!(filter(&mut builder, "a".to_string(), true), Ok(1));
}

#[test]
fn filter_refuses_what_registration_refuses() {
    let mut builder = build();
    let empty = Err(RegisterError::BadSelector(RejectedSelector::Empty));
    let degenerate = Err(RegisterError::BadSelector(RejectedSelector::Degenerate));
    assert_eq!(filter(&mut builder, String::new(), false), empty);
    assert_eq!(filter(&mut builder, "  ".to_string(), true), empty);
    assert_eq!(filter(&mut builder, "#".to_string(), false), degenerate);
    assert_eq!(filter(&mut builder, ".".to_string(), false), degenerate);
    assert_eq!(filter(&mut builder, "[".to_string(), true), degenerate);
    assert_eq!(filter(&mut builder, "p".to_string(), false), Ok(0));
}

#[test]
fn messages_come_piece_by_piece_in_document_order() {
    let mut builder = build();
    let on_p = filter(&mut builder, "p".to_string(), true).unwrap();
    let on_a = filter(&mut builder, "a".to_string(), false).unwrap();
    let mut pass = create(&builder, "utf-8", usize::MAX).unwrap();
    assert_eq!(
        parse(&mut pass, br#"<div><p class="x">hi</p>"#),
        Ok(vec![element(on_p, "p", &[("class", "x")]), text(on_p, "hi")])
    );
    assert_eq!(parse(&mut pass, b"<span>"), Ok(vec![]));
    assert_eq!(
        parse(&mut pass, br#"<a href="/">l</a><p>"#),
        Ok(vec![element(on_a, "a", &[("href", "/")]), element(on_p, "p", &[])])
    );
    assert_eq!(parse(&mut pass, b"bye"), Ok(vec![text(on_p, "bye")]));
    assert_eq!(parse(&mut pass, b"</p><p>la"), Ok(vec![element(on_p, "p", &[]), text(on_p, "la")]));
    assert_eq!(done(&mut pass), Ok(Flush { messages: vec![], ended: vec![on_p, on_a] }));
}

#[test]
fn a_pass_that_is_over_takes_nothing() {
    let mut builder = build();
    filter(&mut builder, "p".to_string(), false).unwrap();
    let mut pass = create(&builder, "utf-8", usize::MAX).unwrap();
    assert!(done(&mut pass).is_ok());
    assert_eq!(parse(&mut pass, b"<p>"), Err(CollectError::Consumed));
    assert_eq!(done(&mut pass), Err(CollectError::Consumed));
    assert_eq!(CollectError::Consumed.message(), "rewriter already consumed");
}

#[test]
fn a_pass_whose_rewriter_failed_is_over() {
    let mut builder = build();
    filter(&mut builder, "p".to_string(), false).unwrap();
    let mut pass = create(&builder, "utf-8", 5).unwrap();
    let failed = parse(&mut pass, b"<p>hi</p><div cla");
    assert_eq!(
        failed,
        Err(CollectError::Rewriter("The memory limit has been exceeded.".to_string()))
    );
    assert_eq!(failed.unwrap_err().message(), "The memory limit has been exceeded.");
    assert_eq!(parse(&mut pass, b"ss=a>"), Err(CollectError::Consumed));
    assert_eq!(done(&mut pass), Err(CollectError::Consumed));
}

#[test]
fn a_builder_serves_more_than_one_pass() {
    let mut builder = build();
    let on_p = filter(&mut builder, "p".to_string(), false).unwrap();
    let mut first = create(&builder, "utf-8", usize::MAX).unwrap();
    let mut second = create(&builder, "latin1", usize::MAX).unwrap();
    assert_eq!(parse(&mut first, b"<p>"), Ok(vec![element(on_p, "p", &[])]));
    assert_eq!(parse(&mut second, b"<p>"), Ok(vec![element(on_p, "p", &[])]));
}

#[test]
fn create_names_the_first_selector_that_does_not_parse() {
    let mut builder = build();
    filter(&mut builder, "p".to_string(), false).unwrap();
    let bad = filter(&mut builder, "p >".to_string(), true).unwrap();
    filter(&mut builder, "[x".to_string(), true).unwrap();
    match create(&builder, "utf-8", usize::MAX) {
        Err(StartError::InvalidSelector { handler_id, reason }) => {
            assert_eq!(handler_id, bad);
            assert!(!reason.is_empty());
        }
        Ok(_) => panic!("the pass was made"),
    }
}

#[test]
fn a_builder_may_start_at_any_identity() {
    let mut builder = RewriterBuilder::starting_at(7);
    assert_eq!(filter(&mut builder, "p".to_string(), false), Ok(7));
    assert_eq!(filter(&mut builder, "a".to_string(), true), Ok(8));
    let mut last = RewriterBuilder::starting_at(u64::MAX);
    assert_eq!(filter(&mut last, "p".to_string(), false), Err(RegisterError::IdsExhausted));
}
