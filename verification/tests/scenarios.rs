use laughter::request::WriteResult;
use laughter::worker::{HandlerFailure, StartError};
use laughter::{
    rewriter_new, rewriter_on_element, rewriter_on_text, rewriter_output, rewriter_poll,
    rewriter_respond, rewriter_write, PollResult, RewriterConfig,
};

fn triple(op: &str, arg1: &str, arg2: &str) -> (String, String, String) {
    (op.to_string(), arg1.to_string(), arg2.to_string())
}

fn pairs(attrs: &[(&str, &str)]) -> Vec<(String, String)> {
    attrs.iter().map(|(k, v)| (k.to_string(), v.to_string())).collect()
}

/// Runs a pass on the calling thread. The responses are queued before the
/// pass starts, so that each handler finds its answer waiting.
fn run_queued(
    config: RewriterConfig,
    input: &str,
    responses: Vec<Vec<(String, String, String)>>,
) -> (Vec<PollResult>, String) {
    let (mut handle, worker) = rewriter_write(config, input.as_bytes()).unwrap();
    for response in responses {
        rewriter_respond(&mut handle, response).unwrap();
    }
    assert!(worker.run());
    let mut seen = Vec::new();
    loop {
        let result = rewriter_poll(&mut handle);
        let over = matches!(result, PollResult::Done | PollResult::Error(_));
        seen.push(result);
        if over {
            break;
        }
    }
    (seen, String::from_utf8(rewriter_output(&handle)).unwrap())
}

#[test]
fn set_attribute_on_matched_element() {
    let mut config = rewriter_new("utf-8", usize::MAX);
    let id = rewriter_on_element(&mut config, "p".to_string()).unwrap();
    let (seen, output) = run_queued(
        config,
        r#"<div class="a"><p>hi</p></div>"#,
        vec![vec![triple("set_attribute", "id", "x")]],
    );
    assert_eq!(
        seen,
        vec![
            PollResult::Element { handler_id: id, tag: "p".to_string(), attrs: vec![] },
            PollResult::Done,
        ]
    );
    assert_eq!(output, r#"<div class="a"><p id="x">hi</p></div>"#);
}

#[test]
fn replace_text_of_matched_node() {
    let mut config = rewriter_new("utf-8", usize::MAX);
    let id = rewriter_on_text(&mut config, "p".to_string()).unwrap();
    let (seen, output) = run_queued(
        config,
        "<p>hi</p>",
        vec![vec![triple("replace_text", "bye", "")], vec![]],
    );
    assert_eq!(
        seen,
        vec![
            PollResult::Text { handler_id: id, content: "hi".to_string(), last_in_text_node: false },
            PollResult::Text { handler_id: id, content: String::new(), last_in_text_node: true },
            PollResult::Done,
        ]
    );
    assert_eq!(output, "<p>bye</p>");
}

#[test]
fn remove_matched_element() {
    let mut config = rewriter_new("utf-8", usize::MAX);
    let id = rewriter_on_element(&mut config, "img".to_string()).unwrap();
    let (seen, output) =
        run_queued(config, r#"<div><img src="a"></div>"#, vec![vec![triple("remove", "", "")]]);
    assert_eq!(
        seen,
        vec![
            PollResult::Element { handler_id: id, tag: "img".to_string(), attrs: pairs(&[("src", "a")]) },
            PollResult::Done,
        ]
    );
    assert_eq!(output, "<div></div>");
}

#[test]
fn empty_response_leaves_the_document_as_it_was() {
    let input = r#"<div class="a"><p data-x='1'>hi &amp; bye</p><br/></div>"#;
    let mut config = rewriter_new("utf-8", usize::MAX);
    rewriter_on_element(&mut config, "p".to_string()).unwrap();
    rewriter_on_element(&mut config, "br".to_string()).unwrap();
    let (seen, output) = run_queued(config, input, vec![vec![], vec![]]);
    assert_eq!(seen.len(), 3);
    assert_eq!(output, input);
}

#[test]
fn no_op_and_unknown_operations_leave_the_document_as_it_was() {
    let input = "<div><p>hi</p></div>";
    let mut config = rewriter_new("utf-8", usize::MAX);
    rewriter_on_element(&mut config, "p".to_string()).unwrap();
    let response = vec![triple("no_op", "", ""), triple("frobnicate", "a", "b")];
    let (_, output) = run_queued(config, input, vec![response]);
    assert_eq!(output, input);
}

#[test]
fn text_chunk_ignores_element_only_operations() {
    let mut config = rewriter_new("utf-8", usize::MAX);
    rewriter_on_text(&mut config, "p".to_string()).unwrap();
    let response = vec![
        triple("set_attribute", "id", "x"),
        triple("remove_attribute", "id", ""),
        triple("prepend_text", "a", ""),
        triple("append_html", "<b>b</b>", ""),
        triple("set_inner_text", "c", ""),
    ];
    let (_, output) = run_queued(config, "<p>hi</p>", vec![response, vec![]]);
    assert_eq!(output, "<p>hi</p>");
}

#[test]
fn text_chunk_takes_before_after_and_remove() {
    let mut config = rewriter_new("utf-8", usize::MAX);
    rewriter_on_text(&mut config, "p".to_string()).unwrap();
    let response = vec![triple("before_text", "<", ""), triple("after_html", "<i>!</i>", "")];
    let (_, output) = run_queued(config, "<p>hi</p>", vec![response, vec![]]);
    assert_eq!(output, "<p>&lt;hi<i>!</i></p>");

    let mut config = rewriter_new("utf-8", usize::MAX);
    rewriter_on_text(&mut config, "p".to_string()).unwrap();
    let (_, output) = run_queued(config, "<p>hi</p>", vec![vec![triple("remove", "", "")], vec![]]);
    assert_eq!(output, "<p></p>");
}

#[test]
fn element_edits_are_made_in_the_order_given() {
    let mut config = rewriter_new("utf-8", usize::MAX);
    rewriter_on_element(&mut config, "p".to_string()).unwrap();
    let response = vec![
        triple("set_attribute", "id", "x"),
        triple("set_attribute", "id", "y"),
        triple("remove_attribute", "class", ""),
        triple("prepend_text", "1", ""),
        triple("prepend_html", "<b>0</b>", ""),
        triple("append_text", "8", ""),
        triple("append_html", "<b>9</b>", ""),
        triple("before_text", "a&", ""),
        triple("before_html", "<hr>", ""),
        triple("after_html", "<i>z</i>", ""),
        triple("after_text", "y", ""),
    ];
    let (_, output) = run_queued(config, r#"<p class="c">hi</p>"#, vec![response]);
    assert_eq!(output, r#"a&amp;<hr><p id="y"><b>0</b>1hi8<b>9</b></p>y<i>z</i>"#);
}

#[test]
fn set_inner_content_and_replace() {
    let mut config = rewriter_new("utf-8", usize::MAX);
    rewriter_on_element(&mut config, "p".to_string()).unwrap();
    let (_, output) = run_queued(
        config,
        "<div><p>hi <b>there</b></p></div>",
        vec![vec![triple("set_inner_text", "<x>", "")]],
    );
    assert_eq!(output, "<div><p>&lt;x&gt;</p></div>");

    let mut config = rewriter_new("utf-8", usize::MAX);
    rewriter_on_element(&mut config, "p".to_string()).unwrap();
    let (_, output) = run_queued(
        config,
        "<div><p>hi</p></div>",
        vec![vec![triple("set_inner_html", "<x></x>", "")]],
    );
    assert_eq!(output, "<div><p><x></x></p></div>");

    let mut config = rewriter_new("utf-8", usize::MAX);
    rewriter_on_element(&mut config, "p".to_string()).unwrap();
    let (_, output) = run_queued(
        config,
        "<div><p>hi</p></div>",
        vec![vec![triple("replace_html", "<span>yo</span>", "")]],
    );
    assert_eq!(output, "<div><span>yo</span></div>");

    let mut config = rewriter_new("utf-8", usize::MAX);
    rewriter_on_element(&mut config, "p".to_string()).unwrap();
    let (_, output) = run_queued(
        config,
        "<div><p>hi</p></div>",
        vec![vec![triple("replace_text", "<yo>", "")]],
    );
    assert_eq!(output, "<div>&lt;yo&gt;</div>");
}

#[test]
fn refused_attribute_name_is_passed_over() {
    let mut config = rewriter_new("utf-8", usize::MAX);
    rewriter_on_element(&mut config, "p".to_string()).unwrap();
    let response = vec![triple("set_attribute", "", "x"), triple("set_attribute", "a b", "x")];
    let (seen, output) = run_queued(config, "<p>hi</p>", vec![response]);
    assert_eq!(seen.last(), Some(&PollResult::Done));
    assert_eq!(output, "<p>hi</p>");
}

fn document_order(first: &str, second: &str) -> Vec<String> {
    let mut config = rewriter_new("utf-8", usize::MAX);
    rewriter_on_element(&mut config, first.to_string()).unwrap();
    rewriter_on_element(&mut config, second.to_string()).unwrap();
    let input = "<div><p>one</p><span>two</span><p>three</p></div><p>four</p>";
    let (seen, output) = run_queued(config, input, vec![vec![], vec![], vec![], vec![], vec![]]);
    assert_eq!(output, input);
    seen.into_iter()
        .map(|result| match result {
            PollResult::Element { tag, .. } => tag,
            PollResult::Done => "done".to_string(),
            other => panic!("unexpected poll result: {:?}", other),
        })
        .collect()
}

#[test]
fn requests_come_in_document_order_whatever_the_registration_order() {
    let expected = vec!["div", "p", "span", "p", "p", "done"];
    assert_eq!(document_order("p", "div, span"), expected);
    assert_eq!(document_order("div, span", "p"), expected);
}

#[test]
fn requests_name_the_handler_that_matched() {
    let mut config = rewriter_new("utf-8", usize::MAX);
    let on_p = rewriter_on_element(&mut config, "p".to_string()).unwrap();
    let on_a = rewriter_on_element(&mut config, "a".to_string()).unwrap();
    let text_p = rewriter_on_text(&mut config, "p".to_string()).unwrap();
    let (seen, _) = run_queued(
        config,
        r#"<a href="/x" class=k>l</a><p>t</p>"#,
        vec![vec![], vec![], vec![], vec![]],
    );
    assert_eq!(
        seen,
        vec![
            PollResult::Element {
                handler_id: on_a,
                tag: "a".to_string(),
                attrs: pairs(&[("href", "/x"), ("class", "k")]),
            },
            PollResult::Element { handler_id: on_p, tag: "p".to_string(), attrs: vec![] },
            PollResult::Text { handler_id: text_p, content: "t".to_string(), last_in_text_node: false },
            PollResult::Text { handler_id: text_p, content: String::new(), last_in_text_node: true },
            PollResult::Done,
        ]
    );
}

#[test]
fn unanswered_pass_stays_pending() {
    let mut config = rewriter_new("utf-8", usize::MAX);
    rewriter_on_element(&mut config, "p".to_string()).unwrap();
    let (mut handle, worker) = rewriter_write(config, b"<p>hi</p>").unwrap();
    for _ in 0..5 {
        assert_eq!(rewriter_poll(&mut handle), PollResult::NothingYet);
        assert!(rewriter_output(&handle).is_empty());
    }
    drop(worker);
    for _ in 0..5 {
        assert_eq!(rewriter_poll(&mut handle), PollResult::NothingYet);
    }
}

#[test]
fn polls_after_done_keep_reporting_done() {
    let mut config = rewriter_new("utf-8", usize::MAX);
    rewriter_on_element(&mut config, "p".to_string()).unwrap();
    let (mut handle, worker) = rewriter_write(config, b"<p>hi</p>").unwrap();
    rewriter_respond(&mut handle, vec![triple("append_text", "!", "")]).unwrap();
    assert!(worker.run());
    assert!(matches!(rewriter_poll(&mut handle), PollResult::Element { .. }));
    assert!(rewriter_output(&handle).is_empty());
    for _ in 0..4 {
        assert_eq!(rewriter_poll(&mut handle), PollResult::Done);
        assert_eq!(rewriter_output(&handle), b"<p>hi!</p>".to_vec());
        assert_eq!(rewriter_output(&handle), b"<p>hi!</p>".to_vec());
    }
}

#[test]
fn document_without_matches_is_done_at_once() {
    let mut config = rewriter_new("utf-8", usize::MAX);
    rewriter_on_element(&mut config, "table".to_string()).unwrap();
    let (seen, output) = run_queued(config, "<p>hi</p>", vec![]);
    assert_eq!(seen, vec![PollResult::Done]);
    assert_eq!(output, "<p>hi</p>");
}

#[test]
fn pass_without_a_controller_fails() {
    let mut config = rewriter_new("utf-8", usize::MAX);
    rewriter_on_element(&mut config, "p".to_string()).unwrap();
    let (handle, worker) = rewriter_write(config, b"<div><p>hi</p></div>").unwrap();
    drop(handle);
    let outcome = worker.rewrite();
    assert_eq!(outcome, WriteResult::Failed(HandlerFailure::RequestNotSent.message()));
    assert_eq!(
        HandlerFailure::RequestNotSent.message(),
        "request send failed: sending on a closed channel"
    );
    assert_eq!(
        HandlerFailure::ResponseNotReceived.message(),
        "response recv failed: receiving on a closed channel"
    );
}

#[test]
fn failed_pass_is_reported_and_stays_failed() {
    let mut config = rewriter_new("utf-8", 5);
    rewriter_on_element(&mut config, "table".to_string()).unwrap();
    let (mut handle, worker) = rewriter_write(config, b"<p>hi</p><div cla").unwrap();
    assert!(worker.run());
    for _ in 0..3 {
        assert_eq!(
            rewriter_poll(&mut handle),
            PollResult::Error("The memory limit has been exceeded.".to_string())
        );
        assert!(rewriter_output(&handle).is_empty());
    }
}

#[test]
fn selector_that_the_rewriter_cannot_parse_stops_the_start() {
    let mut config = rewriter_new("utf-8", usize::MAX);
    rewriter_on_element(&mut config, "p".to_string()).unwrap();
    let bad = rewriter_on_element(&mut config, "div[".to_string()).unwrap();
    rewriter_on_element(&mut config, "a:hover".to_string()).unwrap();
    match rewriter_write(config, b"<p>hi</p>") {
        Err(StartError::InvalidSelector { handler_id, reason }) => {
            assert_eq!(handler_id, bad);
            assert!(!reason.is_empty());
        }
        Ok(_) => panic!("the pass started"),
    }
}

#[test]
fn unknown_encoding_label_falls_back_on_utf_8() {
    let mut config = rewriter_new("no such encoding", usize::MAX);
    assert_eq!(config.encoding(), None);
    rewriter_on_text(&mut config, "p".to_string()).unwrap();
    let (seen, output) = run_queued(config, "<p>\u{e9}</p>", vec![vec![], vec![]]);
    assert!(matches!(&seen[0], PollResult::Text { content, .. } if content == "\u{e9}"));
    assert_eq!(output, "<p>\u{e9}</p>");
}

#[test]
fn document_is_read_in_the_labelled_encoding() {
    let mut config = rewriter_new("latin1", usize::MAX);
    assert_eq!(
        config.encoding(),
        lol_html::AsciiCompatibleEncoding::new(encoding_rs::WINDOWS_1252)
    );
    rewriter_on_text(&mut config, "p".to_string()).unwrap();
    let (mut handle, worker) = rewriter_write(config, b"<p>\xe9</p>").unwrap();
    rewriter_respond(&mut handle, vec![]).unwrap();
    rewriter_respond(&mut handle, vec![]).unwrap();
    assert!(worker.run());
    assert_eq!(
        rewriter_poll(&mut handle),
        PollResult::Text {
            handler_id: 1_000_000,
            content: "\u{e9}".to_string(),
            last_in_text_node: false,
        }
    );
    assert!(matches!(rewriter_poll(&mut handle), PollResult::Text { last_in_text_node: true, .. }));
    assert_eq!(rewriter_poll(&mut handle), PollResult::Done);
    assert_eq!(rewriter_output(&handle), b"<p>\xe9</p>".to_vec());
}

#[test]
fn encoding_that_is_not_ascii_compatible_is_not_taken() {
    let config = rewriter_new("utf-16le", usize::MAX);
    assert_eq!(config.encoding(), None);
}
