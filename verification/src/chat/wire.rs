use vstd::prelude::*;
use vstd::string::StringExecFns;
use crate::chat::request::{
    ChatRequest, Function, FunctionView, Message, MessageView, RequestView, RespinseFormat, Tool,
    ToolView, message_views, tool_views,
};
use crate::frame::{
    Member, array_of, collect, frame_array, frame_object, lemma_collect_front,
    lemma_collect_step, member_views, object_of, put,
};
use crate::json::{
    encode_number, encode_str, encode_usize, encode_value, encoded_as, json_of_number,
    json_of_str, json_of_usize, json_of_value,
};
use crate::text::text_views;

verus! {

/// The JSON text of a truth value.
pub open spec fn bool_text(b: bool) -> Seq<char> {
    if b {
        "true"@
    } else {
        "false"@
    }
}

/// The field that an optional string makes: none where it is unset.
pub open spec fn opt_str_json(s: Option<Seq<char>>) -> Option<Option<Seq<char>>> {
    match s {
        Some(t) => Some(json_of_str(t)),
        None => None,
    }
}

/// The field that an optional truth value makes: none where it is unset.
pub open spec fn opt_bool_json(b: Option<bool>) -> Option<Option<Seq<char>>> {
    match b {
        Some(v) => Some(Some(bool_text(v))),
        None => None,
    }
}

/// The field that an optional number makes: none where it is unset.
pub open spec fn opt_number_json(n: Option<serde_json::Number>) -> Option<Option<Seq<char>>> {
    match n {
        Some(v) => Some(json_of_number(v)),
        None => None,
    }
}

/// The field that an optional count makes: none where it is unset.
pub open spec fn opt_usize_json(n: Option<usize>) -> Option<Option<Seq<char>>> {
    match n {
        Some(v) => Some(json_of_usize(v)),
        None => None,
    }
}

/// The members of the object that stands for a message: content and role,
/// then each optional field that is set.
pub open spec fn message_members(m: MessageView) -> Option<Seq<(Seq<char>, Seq<char>)>> {
    let a = Some(Seq::empty());
    let a = put(a, "content"@, Some(json_of_str(m.content)));
    let a = put(a, "role"@, Some(json_of_str(m.role)));
    let a = put(a, "name"@, opt_str_json(m.name));
    let a = put(a, "prefix"@, opt_bool_json(m.prefix));
    let a = put(a, "reasoning_content"@, opt_str_json(m.reasoning_content));
    put(a, "tool_call_id"@, opt_str_json(m.tool_call_id))
}

/// The JSON text of a message.
pub open spec fn message_json(m: MessageView) -> Option<Seq<char>> {
    object_of(message_members(m))
}

/// The JSON text of a list of messages.
pub open spec fn messages_json(ms: Seq<MessageView>) -> Option<Seq<char>> {
    array_of(ms.map_values(|m: MessageView| message_json(m)))
}

/// The JSON text of a list of strings.
pub open spec fn texts_json(ts: Seq<Seq<char>>) -> Option<Seq<char>> {
    array_of(ts.map_values(|t: Seq<char>| json_of_str(t)))
}

/// The JSON text of a response format: an object with the one member `type`.
pub open spec fn format_json(f: Seq<char>) -> Option<Seq<char>> {
    object_of(put(Some(Seq::empty()), "type"@, Some(json_of_str(f))))
}

/// The JSON text of a function: description, name and parameter schema.
pub open spec fn function_json(f: FunctionView) -> Option<Seq<char>> {
    let a = Some(Seq::empty());
    let a = put(a, "description"@, Some(json_of_str(f.description)));
    let a = put(a, "name"@, Some(json_of_str(f.name)));
    object_of(put(a, "parameters"@, Some(json_of_value(f.parameters))))
}

/// The JSON text of the function of a tool: `null` where it has none.
pub open spec fn opt_function_json(f: Option<FunctionView>) -> Option<Seq<char>> {
    match f {
        Some(g) => function_json(g),
        None => Some("null"@),
    }
}

/// The JSON text of a tool: its kind and its function.
pub open spec fn tool_json(t: ToolView) -> Option<Seq<char>> {
    let a = Some(Seq::empty());
    let a = put(a, "type"@, Some(json_of_str(t.fun_type)));
    object_of(put(a, "function"@, Some(opt_function_json(t.function))))
}

/// The JSON text of a list of tools.
pub open spec fn tools_json(ts: Seq<ToolView>) -> Option<Seq<char>> {
    array_of(ts.map_values(|t: ToolView| tool_json(t)))
}

/// The field that an optional response format makes.
pub open spec fn opt_format_json(f: Option<Seq<char>>) -> Option<Option<Seq<char>>> {
    match f {
        Some(g) => Some(format_json(g)),
        None => None,
    }
}

/// The field that an optional list of strings makes.
pub open spec fn opt_texts_json(ts: Option<Seq<Seq<char>>>) -> Option<Option<Seq<char>>> {
    match ts {
        Some(l) => Some(texts_json(l)),
        None => None,
    }
}

/// The field that an optional list of tools makes.
pub open spec fn opt_tools_json(ts: Option<Seq<ToolView>>) -> Option<Option<Seq<char>>> {
    match ts {
        Some(l) => Some(tools_json(l)),
        None => None,
    }
}

/// The members of the object that stands for a request: messages and model,
/// then each option that is set, in a fixed order. An option that is unset
/// has no member.
pub open spec fn request_members(r: RequestView) -> Option<Seq<(Seq<char>, Seq<char>)>> {
    let a = Some(Seq::empty());
    let a = put(a, "messages"@, Some(messages_json(r.messages)));
    let a = put(a, "model"@, Some(json_of_str(r.model)));
    let a = put(a, "frequency_penalty"@, opt_number_json(r.frequency_penalty));
    let a = put(a, "max_tokens"@, opt_usize_json(r.max_tokens));
    let a = put(a, "presence_penalty"@, opt_number_json(r.presence_penalty));
    let a = put(a, "response_format"@, opt_format_json(r.response_format));
    let a = put(a, "stop"@, opt_texts_json(r.stop));
    let a = put(a, "stream"@, opt_bool_json(r.stream));
    let a = put(a, "temperature"@, opt_number_json(r.temperature));
    let a = put(a, "top_p"@, opt_number_json(r.top_p));
    put(a, "tools"@, opt_tools_json(r.tools))
}

/// The JSON text of a request, or `None` where a part of it cannot be
/// encoded.
pub open spec fn request_json(r: RequestView) -> Option<Seq<char>> {
    object_of(request_members(r))
}

/// The JSON text of a truth value.
pub fn encode_bool(b: bool) -> (res: String)
    ensures
        res@ == bool_text(b),
{
    if b {
        String::from_str("true")
    } else {
        String::from_str("false")
    }
}

/// Puts a member at the end of the members where its value was encoded, and
/// hands the error on where it was not.
fn put_encoded(members: &mut Vec<Member>, key: &str, encoded: Result<String, serde_json::Error>) -> (res:
    Result<(), serde_json::Error>)
    ensures
        match encoded {
            Ok(text) => res.is_ok() && member_views(final(members)@) == member_views(
                old(members)@,
            ).push((key@, text@)),
            Err(e) => res == Err::<(), serde_json::Error>(e) && *final(members) == *old(members),
        },
{
    match encoded {
        Ok(text) => {
            members.push(Member { key: String::from_str(key), value: text });
            assert(member_views(members@) =~= member_views(old(members)@).push((key@, text@)));
            Ok(())
        },
        Err(e) => Err(e),
    }
}

/// Encodes a message as a JSON object.
pub fn encode_message(m: &Message) -> (res: Result<String, serde_json::Error>)
    ensures
        encoded_as(res, message_json(m@)),
{
    let mut members: Vec<Member> = Vec::new();
    assert(member_views(members@) =~= Seq::empty());
    match put_encoded(&mut members, "content", encode_str(m.content.as_str())) {
        Ok(_) => {},
        Err(e) => {
            return Err(e);
        },
    }
    match put_encoded(&mut members, "role", encode_str(m.role.as_str())) {
        Ok(_) => {},
        Err(e) => {
            return Err(e);
        },
    }
    match &m.name {
        Some(name) => match put_encoded(&mut members, "name", encode_str(name.as_str())) {
            Ok(_) => {},
            Err(e) => {
                return Err(e);
            },
        },
        None => {},
    }
    match m.prefix {
        Some(prefix) => match put_encoded(&mut members, "prefix", Ok(encode_bool(prefix))) {
            Ok(_) => {},
            Err(e) => {
                return Err(e);
            },
        },
        None => {},
    }
    match &m.reasoning_content {
        Some(text) => match put_encoded(
            &mut members,
            "reasoning_content",
            encode_str(text.as_str()),
        ) {
            Ok(_) => {},
            Err(e) => {
                return Err(e);
            },
        },
        None => {},
    }
    match &m.tool_call_id {
        Some(id) => match put_encoded(&mut members, "tool_call_id", encode_str(id.as_str())) {
            Ok(_) => {},
            Err(e) => {
                return Err(e);
            },
        },
        None => {},
    }
    Ok(frame_object(&members))
}

/// Encodes a list of messages as a JSON array.
pub fn encode_messages(ms: &Vec<Message>) -> (res: Result<String, serde_json::Error>)
    ensures
        encoded_as(res, messages_json(message_views(ms@))),
{
    let ghost items = message_views(ms@).map_values(|m: MessageView| message_json(m));
    let mut texts: Vec<String> = Vec::new();
    assert(text_views(texts@) =~= Seq::empty());
    assert(items.take(0) =~= Seq::empty());
    let mut i: usize = 0;
    while i < ms.len()
        invariant
            0 <= i <= ms@.len(),
            items == message_views(ms@).map_values(|m: MessageView| message_json(m)),
            collect(items.take(i as int)) == Some(text_views(texts@)),
        decreases ms@.len() - i,
    {
        let ghost before = text_views(texts@);
        proof {
            lemma_collect_step(items, i as int);
        }
        match encode_message(&ms[i]) {
            Ok(text) => {
                texts.push(text);
                assert(text_views(texts@) =~= before.push(text@));
            },
            Err(e) => {
                proof {
                    lemma_collect_front(items, i + 1);
                }
                return Err(e);
            },
        }
        i = i + 1;
    }
    assert(items.take(i as int) =~= items);
    Ok(frame_array(&texts))
}

/// Encodes a list of strings as a JSON array.
pub fn encode_texts(ts: &Vec<String>) -> (res: Result<String, serde_json::Error>)
    ensures
        encoded_as(res, texts_json(text_views(ts@))),
{
    let ghost items = text_views(ts@).map_values(|t: Seq<char>| json_of_str(t));
    let mut texts: Vec<String> = Vec::new();
    assert(text_views(texts@) =~= Seq::empty());
    assert(items.take(0) =~= Seq::empty());
    let mut i: usize = 0;
    while i < ts.len()
        invariant
            0 <= i <= ts@.len(),
            items == text_views(ts@).map_values(|t: Seq<char>| json_of_str(t)),
            collect(items.take(i as int)) == Some(text_views(texts@)),
        decreases ts@.len() - i,
    {
        let ghost before = text_views(texts@);
        proof {
            lemma_collect_step(items, i as int);
        }
        match encode_str(ts[i].as_str()) {
            Ok(text) => {
                texts.push(text);
                assert(text_views(texts@) =~= before.push(text@));
            },
            Err(e) => {
                proof {
                    lemma_collect_front(items, i + 1);
                }
                return Err(e);
            },
        }
        i = i + 1;
    }
    assert(items.take(i as int) =~= items);
    Ok(frame_array(&texts))
}

/// Encodes a response format as a JSON object.
pub fn encode_format(f: &RespinseFormat) -> (res: Result<String, serde_json::Error>)
    ensures
        encoded_as(res, format_json(f@)),
{
    let mut members: Vec<Member> = Vec::new();
    assert(member_views(members@) =~= Seq::empty());
    match put_encoded(&mut members, "type", encode_str(f.format_type.as_str())) {
        Ok(_) => {},
        Err(e) => {
            return Err(e);
        },
    }
    Ok(frame_object(&members))
}

/// Encodes a function as a JSON object.
pub fn encode_function(f: &Function) -> (res: Result<String, serde_json::Error>)
    ensures
        encoded_as(res, function_json(f@)),
{
    let mut members: Vec<Member> = Vec::new();
    assert(member_views(members@) =~= Seq::empty());
    match put_encoded(&mut members, "description", encode_str(f.description.as_str())) {
        Ok(_) => {},
        Err(e) => {
            return Err(e);
        },
    }
    match put_encoded(&mut members, "name", encode_str(f.name.as_str())) {
        Ok(_) => {},
        Err(e) => {
            return Err(e);
        },
    }
    match put_encoded(&mut members, "parameters", encode_value(&f.parameters)) {
        Ok(_) => {},
        Err(e) => {
            return Err(e);
        },
    }
    Ok(frame_object(&members))
}

/// Encodes a tool as a JSON object. A tool without a function has `null` in
/// the function's place.
pub fn encode_tool(t: &Tool) -> (res: Result<String, serde_json::Error>)
    ensures
        encoded_as(res, tool_json(t@)),
{
    let mut members: Vec<Member> = Vec::new();
    assert(member_views(members@) =~= Seq::empty());
    match put_encoded(&mut members, "type", encode_str(t.fun_type.as_str())) {
        Ok(_) => {},
        Err(e) => {
            return Err(e);
        },
    }
    let function = match &t.function {
        Some(f) => encode_function(f),
        None => Ok(String::from_str("null")),
    };
    match put_encoded(&mut members, "function", function) {
        Ok(_) => {},
        Err(e) => {
            return Err(e);
        },
    }
    Ok(frame_object(&members))
}

/// Encodes a list of tools as a JSON array.
pub fn encode_tools(ts: &Vec<Tool>) -> (res: Result<String, serde_json::Error>)
    ensures
        encoded_as(res, tools_json(tool_views(ts@))),
{
    let ghost items = tool_views(ts@).map_values(|t: ToolView| tool_json(t));
    let mut texts: Vec<String> = Vec::new();
    assert(text_views(texts@) =~= Seq::empty());
    assert(items.take(0) =~= Seq::empty());
    let mut i: usize = 0;
    while i < ts.len()
        invariant
            0 <= i <= ts@.len(),
            items == tool_views(ts@).map_values(|t: ToolView| tool_json(t)),
            collect(items.take(i as int)) == Some(text_views(texts@)),
        decreases ts@.len() - i,
    {
        let ghost before = text_views(texts@);
        proof {
            lemma_collect_step(items, i as int);
        }
        match encode_tool(&ts[i]) {
            Ok(text) => {
                texts.push(text);
                assert(text_views(texts@) =~= before.push(text@));
            },
            Err(e) => {
                proof {
                    lemma_collect_front(items, i + 1);
                }
                return Err(e);
            },
        }
        i = i + 1;
    }
    assert(items.take(i as int) =~= items);
    Ok(frame_array(&texts))
}

impl ChatRequest {
    /// The request as JSON text: an object with the messages and the model,
    /// then a member for each option that is set, and none for one that is
    /// not. An error comes back where a part of the request cannot be
    /// encoded, and only then.
    pub fn to_json(&self) -> (res: Result<String, serde_json::Error>)
        ensures
            encoded_as(res, request_json(self@)),
    {
        let mut members: Vec<Member> = Vec::new();
        assert(member_views(members@) =~= Seq::empty());
        match put_encoded(&mut members, "messages", encode_messages(&self.messages)) {
            Ok(_) => {},
            Err(e) => {
                return Err(e);
            },
        }
        match put_encoded(&mut members, "model", encode_str(self.model.as_str())) {
            Ok(_) => {},
            Err(e) => {
                return Err(e);
            },
        }
        match &self.frequency_penalty {
            Some(n) => match put_encoded(&mut members, "frequency_penalty", encode_number(n)) {
                Ok(_) => {},
                Err(e) => {
                    return Err(e);
                },
            },
            None => {},
        }
        match self.max_tokens {
            Some(n) => match put_encoded(&mut members, "max_tokens", encode_usize(n)) {
                Ok(_) => {},
                Err(e) => {
                    return Err(e);
                },
            },
            None => {},
        }
        match &self.presence_penalty {
            Some(n) => match put_encoded(&mut members, "presence_penalty", encode_number(n)) {
                Ok(_) => {},
                Err(e) => {
                    return Err(e);
                },
            },
            None => {},
        }
        match &self.response_format {
            Some(f) => match put_encoded(&mut members, "response_format", encode_format(f)) {
                Ok(_) => {},
                Err(e) => {
                    return Err(e);
                },
            },
            None => {},
        }
        match &self.stop {
            Some(l) => match put_encoded(&mut members, "stop", encode_texts(l)) {
                Ok(_) => {},
                Err(e) => {
                    return Err(e);
                },
            },
            None => {},
        }
        match self.stream {
            Some(b) => match put_encoded(&mut members, "stream", Ok(encode_bool(b))) {
                Ok(_) => {},
                Err(e) => {
                    return Err(e);
                },
            },
            None => {},
        }
        match &self.temperature {
            Some(n) => match put_encoded(&mut members, "temperature", encode_number(n)) {
                Ok(_) => {},
                Err(e) => {
                    return Err(e);
                },
            },
            None => {},
        }
        match &self.top_p {
            Some(n) => match put_encoded(&mut members, "top_p", encode_number(n)) {
                Ok(_) => {},
                Err(e) => {
                    return Err(e);
                },
            },
            None => {},
        }
        match &self.tools {
            Some(l) => match put_encoded(&mut members, "tools", encode_tools(l)) {
                Ok(_) => {},
                Err(e) => {
                    return Err(e);
                },
            },
            None => {},
        }
        Ok(frame_object(&members))
    }
}

/// The object for a request with no option set has two members, `messages`
/// and `model`, in this order, and no other.
pub proof fn lemma_bare_request_members(r: RequestView)
    requires
        r.is_bare(),
    ensures
        request_members(r) == match (messages_json(r.messages), json_of_str(r.model)) {
            (Some(ms), Some(model)) => Some(seq![("messages"@, ms), ("model"@, model)]),
            _ => None,
        },
{
    match (messages_json(r.messages), json_of_str(r.model)) {
        (Some(ms), Some(model)) => {
            assert(Seq::<(Seq<char>, Seq<char>)>::empty().push(("messages"@, ms)).push(
                ("model"@, model),
            ) =~= seq![("messages"@, ms), ("model"@, model)]);
        },
        _ => {},
    }
}

} // verus!
