use brainiac::formatter::{format_conversation, OutputFormatter};
use brainiac::model::ResponseOutputType;
use brainiac::response::{parse_list_response, parse_text_response, JSONResponse};

#[test]
fn keywords_response_parses_in_order() {
    let raw = r#"{"response": ["a","b","c","d","e","f"]}"#;
    let v = parse_list_response(raw).unwrap();
    assert_eq!(v, vec!["a", "b", "c", "d", "e", "f"]);
}

#[test]
fn text_response_parses() {
    assert_eq!(
        parse_text_response(r#"{"response":"Cats: A Short Article"}"#).unwrap(),
        "Cats: A Short Article"
    );
    assert_eq!(parse_text_response(r#"{"response":"a\"b"}"#).unwrap(), "a\"b");
}

#[test]
fn malformed_responses_are_rejected() {
    assert!(parse_text_response("Cats: A Short Article").is_none());
    assert!(parse_text_response(r#"{"answer":"x"}"#).is_none());
    assert!(parse_text_response(r#"{"response":"x","extra":"y"}"#).is_none());
    assert!(parse_text_response(r#"{"response":["x"]}"#).is_none());
    assert!(parse_list_response(r#"{"response":"x"}"#).is_none());
    assert!(parse_list_response("").is_none());
}

#[test]
fn responses_encode_as_compact_json() {
    let r = JSONResponse::from("Cats".to_string());
    assert_eq!(r.to_json(), r#"{"response":"Cats"}"#);
    let r = JSONResponse::from_text("say \"hi\"\n");
    assert_eq!(r.to_json(), r#"{"response":"say \"hi\"\n"}"#);
    let l = JSONResponse::from(vec!["Art".to_string(), "Politics".to_string()]);
    assert_eq!(l.to_json(), r#"{"response":["Art","Politics"]}"#);
    let c = JSONResponse::from_text("\u{1}\u{8}\u{c}\t\\");
    assert_eq!(c.to_json(), "{\"response\":\"\\u0001\\b\\f\\t\\\\\"}");
    let e: JSONResponse<Vec<String>> = JSONResponse::from(Vec::new());
    assert_eq!(e.to_json(), r#"{"response":[]}"#);
}

#[test]
fn encoded_response_parses_back() {
    let text = "Quotes \" and \\ slashes";
    let json = JSONResponse::from_text(text).to_json();
    assert_eq!(parse_text_response(&json).unwrap(), text);
}

#[test]
fn conversation_puts_each_response_on_a_line() {
    let c = format_conversation(["a".to_string(), "b".to_string(), "c".to_string()]);
    assert_eq!(c, "a\nb\nc\n");
}

#[test]
fn formatter_request_embeds_examples_and_content() {
    let f = OutputFormatter::new("deepseek-r1:1.5b".to_string());
    let req = f.format_request("Cats: A Short Article", ResponseOutputType::Title);
    assert_eq!(req.model, "deepseek-r1:1.5b");
    assert!(req.json_format);
    assert_eq!(
        req.prompt,
        "Here are examples of appropriate responses: {\"response\":\"The Fall of the Roman Empire\"}\n{\"response\":\"The Economic Impact of Climate Change\"}\n{\"response\":\"The Relationship Between Art and Politics\"}\n\nHere is the data that must be formatted: Cats: A Short Article"
    );
    assert_eq!(
        req.system.unwrap(),
        "You are a REST API and can only respond in JSON. You have been given a strict structure to respond in."
    );
    let req = f.format_request("x", ResponseOutputType::Genre);
    assert!(req.prompt.contains("{\"response\":\"ART\"}\n{\"response\":\"OPINION\"}\n{\"response\":\"TECHNOLOGY\"}\n"));
    let req = f.format_request("x", ResponseOutputType::Keywords);
    assert!(req.prompt.contains("{\"response\":[\"Roman Empire\",\"History\"]}\n"));
}
