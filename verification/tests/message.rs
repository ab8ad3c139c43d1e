use deepseek_rs::chat::request::{Function, Message, RespinseFormat, Tool};

fn tool_message(content: &str) -> Message {
    Message {
        content: String::from(content),
        role: String::from("tool"),
        name: None,
        prefix: None,
        reasoning_content: None,
        tool_call_id: None,
    }
}

#[test]
fn system_message_has_role_and_content() {
    let m = Message::system_message("be brief");
    assert_eq!(m.role, "system");
    assert_eq!(m.content, "be brief");
    assert_eq!(m.name, None);
    assert_eq!(m.prefix, None);
    assert_eq!(m.reasoning_content, None);
    assert_eq!(m.tool_call_id, None);
}

#[test]
fn user_message_has_role_and_content() {
    let m = Message::user_message("你好");
    assert_eq!(m.role, "user");
    assert_eq!(m.content, "你好");
    assert_eq!(m.name, None);
    assert_eq!(m.prefix, None);
    assert_eq!(m.reasoning_content, None);
    assert_eq!(m.tool_call_id, None);
}

#[test]
fn assistant_message_has_role_and_content() {
    let m = Message::assistant_message("");
    assert_eq!(m.role, "assistant");
    assert_eq!(m.content, "");
    assert_eq!(m.name, None);
    assert_eq!(m.prefix, None);
    assert_eq!(m.reasoning_content, None);
    assert_eq!(m.tool_call_id, None);
}

#[test]
fn name_is_set_on_system_user_and_assistant() {
    assert_eq!(Message::system_message("a").name("sys").name, Some(String::from("sys")));
    assert_eq!(Message::user_message("a").name("ann").name, Some(String::from("ann")));
    assert_eq!(Message::assistant_message("a").name("bot").name, Some(String::from("bot")));
}

#[test]
fn name_leaves_the_other_fields() {
    let m = Message::user_message("question").name("ann");
    assert_eq!(m.content, "question");
    assert_eq!(m.role, "user");
    assert_eq!(m.prefix, None);
    assert_eq!(m.reasoning_content, None);
    assert_eq!(m.tool_call_id, None);
}

#[test]
fn name_is_replaced_by_a_second_call() {
    let m = Message::user_message("q").name("ann").name("bob");
    assert_eq!(m.name, Some(String::from("bob")));
}

#[test]
fn name_is_ignored_on_a_tool_message() {
    let m = tool_message("42").name("calc");
    assert_eq!(m.name, None);
    assert_eq!(m.role, "tool");
    assert_eq!(m.content, "42");
}

#[test]
fn name_is_ignored_on_an_unknown_role() {
    let mut m = Message::user_message("q");
    m.role = String::from("User");
    assert_eq!(m.name("ann").name, None);
}

#[test]
fn prefix_is_set_on_an_assistant_message_only() {
    assert_eq!(Message::assistant_message("a").prefix(true).prefix, Some(true));
    assert_eq!(Message::assistant_message("a").prefix(false).prefix, Some(false));
    assert_eq!(Message::system_message("a").prefix(true).prefix, None);
    assert_eq!(Message::user_message("a").prefix(true).prefix, None);
    assert_eq!(tool_message("a").prefix(true).prefix, None);
}

#[test]
fn reasoning_content_is_set_on_an_assistant_message_only() {
    assert_eq!(
        Message::assistant_message("a").reasoning_content("because").reasoning_content,
        Some(String::from("because"))
    );
    assert_eq!(Message::system_message("a").reasoning_content("x").reasoning_content, None);
    assert_eq!(Message::user_message("a").reasoning_content("x").reasoning_content, None);
    assert_eq!(tool_message("a").reasoning_content("x").reasoning_content, None);
}

#[test]
fn tool_call_id_stays_unset_on_a_message_that_is_not_of_a_tool() {
    assert_eq!(Message::system_message("a").tool_call_id("call_1").tool_call_id, None);
    assert_eq!(Message::user_message("a").tool_call_id("call_1").tool_call_id, None);
    assert_eq!(Message::assistant_message("a").tool_call_id("call_1").tool_call_id, None);
}

#[test]
fn tool_call_id_is_set_on_a_tool_message() {
    let m = tool_message("42").tool_call_id("call_1");
    assert_eq!(m.tool_call_id, Some(String::from("call_1")));
    assert_eq!(m.content, "42");
    assert_eq!(m.role, "tool");
}

#[test]
fn setters_chain_on_an_assistant_message() {
    let m = Message::assistant_message("So")
        .name("bot")
        .prefix(true)
        .reasoning_content("thinking")
        .tool_call_id("call_9");
    assert_eq!(m.name, Some(String::from("bot")));
    assert_eq!(m.prefix, Some(true));
    assert_eq!(m.reasoning_content, Some(String::from("thinking")));
    assert_eq!(m.tool_call_id, None);
    assert_eq!(m.content, "So");
}

#[test]
fn response_format_tags() {
    assert_eq!(RespinseFormat::text().format_type, "text");
    assert_eq!(RespinseFormat::json_object().format_type, "json_object");
}

#[test]
fn new_function_has_stock_values() {
    let f = Function::new();
    assert_eq!(f.description, "function one");
    assert_eq!(f.name, "function_one");
    assert_eq!(f.parameters, serde_json::Value::Null);
}

#[test]
fn function_setters_replace_one_field_each() {
    let mut f = Function::new();
    f.description("adds two numbers");
    assert_eq!(f.description, "adds two numbers");
    assert_eq!(f.name, "function_one");
    f.name("add");
    assert_eq!(f.name, "add");
    assert_eq!(f.description, "adds two numbers");
    f.parameters(serde_json::Value::Bool(true));
    assert_eq!(f.parameters, serde_json::Value::Bool(true));
    assert_eq!(f.name, "add");
    assert_eq!(f.description, "adds two numbers");
}

#[test]
fn function_tool_carries_the_stock_function() {
    let t = Tool::function();
    assert_eq!(t.fun_type, "function");
    let f = t.function.unwrap();
    assert_eq!(f.description, "function one");
    assert_eq!(f.name, "function_one");
    assert_eq!(f.parameters, serde_json::Value::Null);
}

#[test]
fn tool_setters_reach_the_function() {
    let schema = serde_json::Value::String(String::from("schema"));
    let t = Tool::function()
        .function_name("add")
        .function_description("adds two numbers")
        .function_parameters(schema.clone());
    assert_eq!(t.fun_type, "function");
    let f = t.function.unwrap();
    assert_eq!(f.name, "add");
    assert_eq!(f.description, "adds two numbers");
    assert_eq!(f.parameters, schema);
}

#[test]
fn tool_setters_leave_a_tool_of_another_kind() {
    let mut t = Tool::function();
    t.fun_type = String::from("retrieval");
    let t = t
        .function_name("add")
        .function_description("adds two numbers")
        .function_parameters(serde_json::Value::Bool(false));
    assert_eq!(t.fun_type, "retrieval");
    let f = t.function.unwrap();
    assert_eq!(f.name, "function_one");
    assert_eq!(f.description, "function one");
    assert_eq!(f.parameters, serde_json::Value::Null);
}

#[test]
fn tool_setters_leave_a_tool_of_another_kind_without_function() {
    let t = Tool { fun_type: String::from("retrieval"), function: None };
    let t = t.function_name("add");
    assert_eq!(t.fun_type, "retrieval");
    assert!(t.function.is_none());
}
