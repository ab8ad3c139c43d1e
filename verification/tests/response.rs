use deepseek_rs::chat::response::{
    ChatResponse, Choice, Logprobs, LogprobsContent, PormptTokensDetails, ResponseFunction,
    ResponseMessage, ToolCall, TopLogprobs, Usage,
};
use deepseek_rs::model::response::{Data, ModelResponse};
use deepseek_rs::user::response::{BalanceInfos, BalanceResponse};

fn message(role: &str, content: Option<&str>) -> ResponseMessage {
    ResponseMessage {
        content: content.map(String::from),
        reasoning_content: None,
        tool_calls: None,
        role: String::from(role),
    }
}

fn choice(index: usize, role: &str, content: Option<&str>) -> Choice {
    Choice {
        finish_reason: String::from("stop"),
        index,
        response_content: message(role, content),
        logprobs: None,
    }
}

fn response(choices: Vec<Choice>) -> ChatResponse {
    ChatResponse {
        id: String::from("id-1"),
        choices,
        created: 1_700_000_000,
        model: String::from("deepseek-chat"),
        system_fingerprint: String::from("fp"),
        object: String::from("chat.completion"),
        usage: None,
    }
}

#[test]
fn content_of_one_choice() {
    let r = response(vec![choice(0, "assistant", Some("hi"))]);
    assert_eq!(r.content(), vec!["hi"]);
    assert_eq!(r.role(), vec!["assistant"]);
}

#[test]
fn absent_content_gives_the_placeholder() {
    let r = response(vec![choice(0, "assistant", None)]);
    assert_eq!(r.content(), vec!["没有回复content"]);
}

#[test]
fn placeholder_stands_for_content_beside_reasoning_and_tool_calls() {
    let m = ResponseMessage {
        content: None,
        reasoning_content: Some(String::from("thinking")),
        tool_calls: Some(vec![ToolCall {
            id: String::from("call_1"),
            call_type: String::from("function"),
            response_function: ResponseFunction {
                name: String::from("add"),
                arguments: String::from("{\"a\":1}"),
            },
        }]),
        role: String::from("assistant"),
    };
    assert_eq!(m.cotent(), "没有回复content");
    assert_eq!(m.role(), "assistant");
}

#[test]
fn empty_content_is_not_absent() {
    let m = message("assistant", Some(""));
    assert_eq!(m.cotent(), "");
}

#[test]
fn no_choice_gives_empty_lists() {
    let r = response(Vec::new());
    assert!(r.content().is_empty());
    assert!(r.role().is_empty());
}

#[test]
fn choices_keep_their_order() {
    let r = response(vec![
        choice(0, "assistant", Some("first")),
        choice(1, "assistant", None),
        choice(2, "tool", Some("third")),
    ]);
    assert_eq!(r.content(), vec!["first", "没有回复content", "third"]);
    assert_eq!(r.role(), vec!["assistant", "assistant", "tool"]);
}

#[test]
fn choice_projects_its_message() {
    let c = choice(3, "assistant", Some("text"));
    assert_eq!(c.content(), "text");
    assert_eq!(c.role(), "assistant");
    let d = choice(0, "assistant", None);
    assert_eq!(d.content(), "没有回复content");
}

#[test]
fn response_carries_usage_and_log_probabilities() {
    let top = TopLogprobs { token: String::from("a"), logprob: -1, bytes: Some(97) };
    let mut c = choice(0, "assistant", Some("a"));
    c.logprobs = Some(Logprobs {
        content: LogprobsContent {
            tokens: String::from("a"),
            logprob: -1,
            bytes: None,
            top_logprobs: top,
        },
    });
    let mut r = response(vec![c]);
    r.usage = Some(Usage {
        completion_tokens: 5,
        prompt_tokens: 12,
        prompt_cache_hit_tokens: 4,
        prompt_cache_miss_tokens: 8,
        total_tokens: 17,
        prompt_tokens_details: PormptTokensDetails { cached_tokens: 4 },
    });
    let copy = r.clone();
    let usage = copy.usage.clone().unwrap();
    assert_eq!(usage.prompt_tokens, usage.prompt_cache_hit_tokens + usage.prompt_cache_miss_tokens);
    assert_eq!(usage.total_tokens, 17);
    assert_eq!(usage.prompt_tokens_details.cached_tokens, 4);
    assert_eq!(copy.choices[0].logprobs.as_ref().unwrap().content.top_logprobs.bytes, Some(97));
    assert_eq!(copy.content(), vec!["a"]);
    assert_eq!(copy.created, 1_700_000_000);
}

#[test]
fn model_listing_accessors() {
    let listing = ModelResponse {
        object: String::from("list"),
        data: vec![
            Data {
                id: String::from("deepseek-chat"),
                object: String::from("model"),
                owned_by: String::from("deepseek"),
            },
            Data {
                id: String::from("deepseek-reasoner"),
                object: String::from("model"),
                owned_by: String::from("someone"),
            },
        ],
    };
    assert_eq!(listing.object(), "list");
    assert_eq!(listing.data().len(), 2);
    assert_eq!(listing.data()[0].id(), "deepseek-chat");
    assert_eq!(listing.data()[0].object(), "model");
    assert_eq!(listing.data()[0].onwed_by(), "deepseek");
    assert_eq!(listing.data()[1].id(), "deepseek-reasoner");
    assert_eq!(listing.data()[1].onwed_by(), "someone");
}

#[test]
fn balance_accessors() {
    let balance = BalanceResponse {
        is_available: true,
        balance_infos: vec![BalanceInfos {
            currency: String::from("CNY"),
            total_balance: String::from("110.00"),
            granted_balance: String::from("10.00"),
            topped_up_balance: String::from("100.00"),
        }],
    };
    assert!(balance.is_available());
    assert_eq!(balance.balance_infos().len(), 1);
    let info = &balance.balance_infos()[0];
    assert_eq!(info.currency(), "CNY");
    assert_eq!(info.total_balance(), "110.00");
    assert_eq!(info.granted_balance(), "10.00");
    assert_eq!(info.topped_up_balance(), "100.00");
}

#[test]
fn empty_balance_that_is_not_available() {
    let balance = BalanceResponse { is_available: false, balance_infos: Vec::new() };
    assert!(!balance.is_available());
    assert!(balance.balance_infos().is_empty());
}
