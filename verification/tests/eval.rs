use aos_runtime::eval::{eval_request, json_or_undefined, prompt_or_default, EvalRequest};

#[test]
fn data_with_text_is_evaluated() {
    match eval_request(Ok("1 + 1".to_string())) {
        EvalRequest::Evaluate(source) => assert_eq!(source, "1 + 1"),
        EvalRequest::Refuse(_) => panic!("refused"),
    }
}

#[test]
fn empty_data_is_refused() {
    match eval_request(Ok(String::new())) {
        EvalRequest::Refuse(report) => {
            assert_eq!(report, "No Data to Eval, received empty string.")
        }
        EvalRequest::Evaluate(_) => panic!("evaluated"),
    }
}

#[test]
fn blank_data_is_evaluated() {
    match eval_request(Ok(" ".to_string())) {
        EvalRequest::Evaluate(source) => assert_eq!(source, " "),
        EvalRequest::Refuse(_) => panic!("refused"),
    }
}

#[test]
fn unreadable_data_is_refused_with_the_cause() {
    match eval_request(Err("expected string".to_string())) {
        EvalRequest::Refuse(report) => {
            assert_eq!(report, "Error evaluating Data. expected string")
        }
        EvalRequest::Evaluate(_) => panic!("evaluated"),
    }
}

#[test]
fn json_field_of_an_output() {
    assert_eq!(json_or_undefined(Some("[1]".to_string())), "[1]");
    assert_eq!(json_or_undefined(None), "undefined");
}

#[test]
fn prompt_field_of_an_output() {
    assert_eq!(prompt_or_default(Some("me> ".to_string())), "me> ");
    assert_eq!(prompt_or_default(Some(String::new())), "");
    assert_eq!(prompt_or_default(None), "aos> ");
}
