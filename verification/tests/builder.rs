use deepseek_rs::base_types::data::ModelName;
use deepseek_rs::chat::request::{ChatRequestBuilder, Message, RespinseFormat, Tool};
use serde_json::Number;

fn number(x: f64) -> Number {
    Number::from_f64(x).unwrap()
}

#[test]
fn new_builder_is_empty_and_for_the_chat_model() {
    let b = ChatRequestBuilder::new();
    assert!(b.messages.is_empty());
    assert_eq!(b.model, ModelName::DeepseekChat);
    assert_eq!(b.frequency_penalty, None);
    assert_eq!(b.max_tokens, None);
    assert_eq!(b.presence_penalty, None);
    assert!(b.response_format.is_none());
    assert_eq!(b.stop, None);
    assert_eq!(b.stream, None);
    assert_eq!(b.temperature, None);
    assert_eq!(b.top_p, None);
    assert!(b.tools.is_none());
}

#[test]
fn build_gives_the_chat_endpoint_for_the_chat_model() {
    let (url, request) = ChatRequestBuilder::new().model(ModelName::DeepseekChat).build();
    assert_eq!(url, "https://api.deepseek.com/chat/completions");
    assert_eq!(request.model, "deepseek-chat");
}

#[test]
fn build_gives_the_same_endpoint_for_the_reasoner_model() {
    let (url, request) = ChatRequestBuilder::new().model(ModelName::DeepseekReasoner).build();
    assert_eq!(url, "https://api.deepseek.com/chat/completions");
    assert_eq!(request.model, "deepseek-reasoner");
}

#[test]
fn build_of_a_new_builder_sets_no_option() {
    let (_, r) = ChatRequestBuilder::new().build();
    assert!(r.messages.is_empty());
    assert_eq!(r.model, "deepseek-chat");
    assert_eq!(r.frequency_penalty, None);
    assert_eq!(r.max_tokens, None);
    assert_eq!(r.presence_penalty, None);
    assert!(r.response_format.is_none());
    assert_eq!(r.stop, None);
    assert_eq!(r.stream, None);
    assert_eq!(r.temperature, None);
    assert_eq!(r.top_p, None);
    assert!(r.tools.is_none());
}

#[test]
fn messages_keep_their_order() {
    let (_, r) = ChatRequestBuilder::new()
        .add_message(Message::system_message("one"))
        .add_message(Message::user_message("two"))
        .add_message(Message::assistant_message("three"))
        .build();
    assert_eq!(r.messages.len(), 3);
    assert_eq!(r.messages[0].role, "system");
    assert_eq!(r.messages[0].content, "one");
    assert_eq!(r.messages[1].role, "user");
    assert_eq!(r.messages[1].content, "two");
    assert_eq!(r.messages[2].role, "assistant");
    assert_eq!(r.messages[2].content, "three");
}

#[test]
fn each_option_reaches_the_request() {
    let (_, r) = ChatRequestBuilder::new()
        .frequency_penalty(number(0.5))
        .max_tokens(1024)
        .presence_penalty(number(-1.5))
        .response_format(RespinseFormat::json_object())
        .stop(vec![String::from("END"), String::from("STOP")])
        .stream(true)
        .temperature(number(1.25))
        .top_p(number(0.75))
        .build();
    assert_eq!(r.frequency_penalty.unwrap().as_f64(), Some(0.5));
    assert_eq!(r.max_tokens, Some(1024));
    assert_eq!(r.presence_penalty.unwrap().as_f64(), Some(-1.5));
    assert_eq!(r.response_format.unwrap().format_type, "json_object");
    assert_eq!(r.stop, Some(vec![String::from("END"), String::from("STOP")]));
    assert_eq!(r.stream, Some(true));
    assert_eq!(r.temperature.unwrap().as_f64(), Some(1.25));
    assert_eq!(r.top_p.unwrap().as_f64(), Some(0.75));
    assert!(r.tools.is_none());
    assert!(r.messages.is_empty());
}

#[test]
fn an_option_set_twice_keeps_the_later_value() {
    let (_, r) = ChatRequestBuilder::new().max_tokens(1).max_tokens(8192).stream(true).stream(false).build();
    assert_eq!(r.max_tokens, Some(8192));
    assert_eq!(r.stream, Some(false));
}

#[test]
fn values_outside_the_documented_ranges_are_forwarded() {
    let (_, r) = ChatRequestBuilder::new().max_tokens(0).temperature(number(99.0)).build();
    assert_eq!(r.max_tokens, Some(0));
    assert_eq!(r.temperature.unwrap().as_f64(), Some(99.0));
}

#[test]
fn tools_accumulate_in_order() {
    let b = ChatRequestBuilder::new().tools(Tool::function().function_name("first"));
    assert_eq!(b.tools.as_ref().unwrap().len(), 1);
    let (_, r) = b.tools(Tool::function().function_name("second")).build();
    let tools = r.tools.unwrap();
    assert_eq!(tools.len(), 2);
    assert_eq!(tools[0].function.as_ref().unwrap().name, "first");
    assert_eq!(tools[1].function.as_ref().unwrap().name, "second");
}

#[test]
fn request_takes_more_messages_after_build() {
    let (_, mut r) = ChatRequestBuilder::new().add_message(Message::user_message("a")).build();
    r.add_message(Message::assistant_message("b"));
    r.add_messages(vec![Message::user_message("c"), Message::user_message("d")]);
    r.add_messages(Vec::new());
    let contents: Vec<&str> = r.messages.iter().map(|m| m.content.as_str()).collect();
    assert_eq!(contents, vec!["a", "b", "c", "d"]);
    assert_eq!(r.model, "deepseek-chat");
    assert_eq!(r.max_tokens, None);
}
