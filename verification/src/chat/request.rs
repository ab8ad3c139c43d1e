use vstd::prelude::*;
use vstd::string::StringExecFns;
use crate::text::{opt_text, same_text, text_views};
use crate::base_types::data::ModelName;
use crate::json::{json_of_value, null_value};

verus! {

/// What a [`Message`] stands for: its text fields as character sequences.
pub struct MessageView {
    pub content: Seq<char>,
    pub role: Seq<char>,
    pub name: Option<Seq<char>>,
    pub prefix: Option<bool>,
    pub reasoning_content: Option<Seq<char>>,
    pub tool_call_id: Option<Seq<char>>,
}

/// Roles whose messages may carry a participant name.
pub open spec fn role_takes_name(role: Seq<char>) -> bool {
    role == "system"@ || role == "user"@ || role == "assistant"@
}

/// The role whose messages may carry a prefix flag and reasoning content.
pub open spec fn role_is_assistant(role: Seq<char>) -> bool {
    role == "assistant"@
}

/// The role whose messages answer a tool call.
pub open spec fn role_is_tool(role: Seq<char>) -> bool {
    role == "tool"@
}

/// One turn of a conversation.
#[derive(Debug, Clone)]
pub struct Message {
    pub content: String,
    pub role: String,
    pub name: Option<String>,
    pub prefix: Option<bool>,
    pub reasoning_content: Option<String>,
    pub tool_call_id: Option<String>,
}

impl View for Message {
    type V = MessageView;

    open spec fn view(&self) -> MessageView {
        MessageView {
            content: self.content@,
            role: self.role@,
            name: opt_text(self.name),
            prefix: self.prefix,
            reasoning_content: opt_text(self.reasoning_content),
            tool_call_id: opt_text(self.tool_call_id),
        }
    }
}

impl MessageView {
    /// A message of the given role with no optional field set.
    pub open spec fn plain(role: Seq<char>, content: Seq<char>) -> MessageView {
        MessageView {
            content,
            role,
            name: None,
            prefix: None,
            reasoning_content: None,
            tool_call_id: None,
        }
    }

    /// Every optional field that is set is one that the role permits.
    pub open spec fn role_gated(self) -> bool {
        &&& self.name.is_some() ==> role_takes_name(self.role)
        &&& self.prefix.is_some() ==> role_is_assistant(self.role)
        &&& self.reasoning_content.is_some() ==> role_is_assistant(self.role)
        &&& self.tool_call_id.is_some() ==> role_is_tool(self.role)
    }

    /// The message after a request to name its participant.
    pub open spec fn with_name(self, name: Seq<char>) -> MessageView {
        if role_takes_name(self.role) {
            MessageView { name: Some(name), ..self }
        } else {
            self
        }
    }

    /// The message after a request to set its prefix flag.
    pub open spec fn with_prefix(self, prefix: bool) -> MessageView {
        if role_is_assistant(self.role) {
            MessageView { prefix: Some(prefix), ..self }
        } else {
            self
        }
    }

    /// The message after a request to set its reasoning content.
    pub open spec fn with_reasoning_content(self, content: Seq<char>) -> MessageView {
        if role_is_assistant(self.role) {
            MessageView { reasoning_content: Some(content), ..self }
        } else {
            self
        }
    }

    /// The message after a request to link it to a tool call.
    pub open spec fn with_tool_call_id(self, id: Seq<char>) -> MessageView {
        if role_is_tool(self.role) {
            MessageView { tool_call_id: Some(id), ..self }
        } else {
            self
        }
    }
}

impl Message {
    /// Every optional field that is set is one that the role permits.
    pub open spec fn wf(&self) -> bool {
        self@.role_gated()
    }

    /// A message that instructs the model.
    pub fn system_message(content: &str) -> (res: Self)
        ensures
            res@ == MessageView::plain("system"@, content@),
            res.wf(),
    {
        Message {
            content: String::from_str(content),
            role: String::from_str("system"),
            name: None,
            prefix: None,
            reasoning_content: None,
            tool_call_id: None,
        }
    }

    /// A message from the user.
    pub fn user_message(content: &str) -> (res: Self)
        ensures
            res@ == MessageView::plain("user"@, content@),
            res.wf(),
    {
        Message {
            content: String::from_str(content),
            role: String::from_str("user"),
            name: None,
            prefix: None,
            reasoning_content: None,
            tool_call_id: None,
        }
    }

    /// A message that the model wrote earlier.
    pub fn assistant_message(content: &str) -> (res: Self)
        ensures
            res@ == MessageView::plain("assistant"@, content@),
            res.wf(),
    {
        Message {
            content: String::from_str(content),
            role: String::from_str("assistant"),
            name: None,
            prefix: None,
            reasoning_content: None,
            tool_call_id: None,
        }
    }

    /// Names the participant, where the role is system, user or assistant;
    /// any other message comes back unchanged.
    pub fn name(self, name: &str) -> (res: Self)
        ensures
            res@ == self@.with_name(name@),
            self.wf() ==> res.wf(),
    {
        let mut msg = self;
        if same_text(msg.role.as_str(), "system") || same_text(msg.role.as_str(), "user")
            || same_text(msg.role.as_str(), "assistant") {
            msg.name = Some(String::from_str(name));
        }
        msg
    }

    /// Sets the prefix flag of an assistant message; any other message comes
    /// back unchanged.
    pub fn prefix(self, prefix: bool) -> (res: Self)
        ensures
            res@ == self@.with_prefix(prefix),
            self.wf() ==> res.wf(),
    {
        let mut msg = self;
        if same_text(msg.role.as_str(), "assistant") {
            msg.prefix = Some(prefix);
        }
        msg
    }

    /// Sets the reasoning content of an assistant message; any other message
    /// comes back unchanged.
    pub fn reasoning_content(self, content: &str) -> (res: Self)
        ensures
            res@ == self@.with_reasoning_content(content@),
            self.wf() ==> res.wf(),
    {
        let mut msg = self;
        if same_text(msg.role.as_str(), "assistant") {
            msg.reasoning_content = Some(String::from_str(content));
        }
        msg
    }

    /// Links a tool message to the call that it answers; any other message
    /// comes back unchanged.
    pub fn tool_call_id(self, id: &str) -> (res: Self)
        ensures
            res@ == self@.with_tool_call_id(id@),
            self.wf() ==> res.wf(),
    {
        let mut msg = self;
        if same_text(msg.role.as_str(), "tool") {
            msg.tool_call_id = Some(String::from_str(id));
        }
        msg
    }
}


/// The format in which the model is asked to answer.
#[derive(Debug, Clone)]
pub struct RespinseFormat {
    pub format_type: String,
}

impl View for RespinseFormat {
    type V = Seq<char>;

    open spec fn view(&self) -> Seq<char> {
        self.format_type@
    }
}

impl RespinseFormat {
    /// Free text.
    pub fn text() -> (res: Self)
        ensures
            res@ == "text"@,
    {
        RespinseFormat { format_type: String::from_str("text") }
    }

    /// A JSON object.
    pub fn json_object() -> (res: Self)
        ensures
            res@ == "json_object"@,
    {
        RespinseFormat { format_type: String::from_str("json_object") }
    }
}

/// What a [`Function`] stands for.
pub struct FunctionView {
    pub description: Seq<char>,
    pub name: Seq<char>,
    pub parameters: serde_json::Value,
}

/// A function that the model may ask the caller to run.
#[derive(Debug, Clone)]
pub struct Function {
    pub description: String,
    pub name: String,
    pub parameters: serde_json::Value,
}

impl View for Function {
    type V = FunctionView;

    open spec fn view(&self) -> FunctionView {
        FunctionView {
            description: self.description@,
            name: self.name@,
            parameters: self.parameters,
        }
    }
}

impl Function {
    /// A function with a stock name and description, whose parameter schema
    /// is the document `null`.
    pub fn new() -> (res: Self)
        ensures
            res@.description == "function one"@,
            res@.name == "function_one"@,
            json_of_value(res@.parameters) == Some("null"@),
    {
        Function {
            description: String::from_str("function one"),
            name: String::from_str("function_one"),
            parameters: null_value(),
        }
    }

    /// Replaces the description.
    pub fn description(&mut self, description: &str)
        ensures
            final(self)@ == (FunctionView { description: description@, ..old(self)@ }),
    {
        self.description = String::from_str(description);
    }

    /// Replaces the name.
    pub fn name(&mut self, name: &str)
        ensures
            final(self)@ == (FunctionView { name: name@, ..old(self)@ }),
    {
        self.name = String::from_str(name);
    }

    /// Replaces the parameter schema.
    pub fn parameters(&mut self, parameters: serde_json::Value)
        ensures
            final(self)@ == (FunctionView { parameters: parameters, ..old(self)@ }),
    {
        self.parameters = parameters;
    }
}

/// What a [`Tool`] stands for.
pub struct ToolView {
    pub fun_type: Seq<char>,
    pub function: Option<FunctionView>,
}

/// The view of an optional function.
pub open spec fn opt_function(f: Option<Function>) -> Option<FunctionView> {
    match f {
        Some(g) => Some(g@),
        None => None,
    }
}

/// A tool that the model may call. The only kind is a function.
#[derive(Debug, Clone)]
pub struct Tool {
    pub fun_type: String,
    pub function: Option<Function>,
}

impl View for Tool {
    type V = ToolView;

    open spec fn view(&self) -> ToolView {
        ToolView { fun_type: self.fun_type@, function: opt_function(self.function) }
    }
}

impl ToolView {
    /// A tool of kind function describes its function.
    pub open spec fn wf(self) -> bool {
        self.fun_type == "function"@ ==> self.function.is_some()
    }

    /// The tool after a request to describe its function.
    pub open spec fn with_description(self, description: Seq<char>) -> ToolView {
        if self.fun_type == "function"@ && self.function.is_some() {
            ToolView {
                function: Some(FunctionView { description, ..self.function.unwrap() }),
                ..self
            }
        } else {
            self
        }
    }

    /// The tool after a request to name its function.
    pub open spec fn with_name(self, name: Seq<char>) -> ToolView {
        if self.fun_type == "function"@ && self.function.is_some() {
            ToolView { function: Some(FunctionView { name, ..self.function.unwrap() }), ..self }
        } else {
            self
        }
    }

    /// The tool after a request to give its function a parameter schema.
    pub open spec fn with_parameters(self, parameters: serde_json::Value) -> ToolView {
        if self.fun_type == "function"@ && self.function.is_some() {
            ToolView {
                function: Some(FunctionView { parameters, ..self.function.unwrap() }),
                ..self
            }
        } else {
            self
        }
    }
}

impl Tool {
    /// A tool of kind function describes its function.
    pub open spec fn wf(&self) -> bool {
        self@.wf()
    }

    /// A tool of kind function, with the stock function of [`Function::new`].
    pub fn function() -> (res: Self)
        ensures
            res.wf(),
            res@.fun_type == "function"@,
            res@.function.is_some(),
            res@.function.unwrap().description == "function one"@,
            res@.function.unwrap().name == "function_one"@,
            json_of_value(res@.function.unwrap().parameters) == Some("null"@),
    {
        Tool { fun_type: String::from_str("function"), function: Some(Function::new()) }
    }

    /// Describes the function of a tool of kind function; any other tool
    /// comes back unchanged.
    pub fn function_description(self, description: &str) -> (res: Self)
        requires
            self.wf(),
        ensures
            res.wf(),
            res@ == self@.with_description(description@),
    {
        let mut tool = self;
        if same_text(tool.fun_type.as_str(), "function") {
            match tool.function {
                Some(mut f) => {
                    f.description(description);
                    tool.function = Some(f);
                },
                None => {},
            }
        }
        tool
    }

    /// Names the function of a tool of kind function; any other tool comes
    /// back unchanged.
    pub fn function_name(self, name: &str) -> (res: Self)
        requires
            self.wf(),
        ensures
            res.wf(),
            res@ == self@.with_name(name@),
    {
        let mut tool = self;
        if same_text(tool.fun_type.as_str(), "function") {
            match tool.function {
                Some(mut f) => {
                    f.name(name);
                    tool.function = Some(f);
                },
                None => {},
            }
        }
        tool
    }

    /// Gives the function of a tool of kind function its parameter schema;
    /// any other tool comes back unchanged.
    pub fn function_parameters(self, parameters: serde_json::Value) -> (res: Self)
        requires
            self.wf(),
        ensures
            res.wf(),
            res@ == self@.with_parameters(parameters),
    {
        let mut tool = self;
        if same_text(tool.fun_type.as_str(), "function") {
            match tool.function {
                Some(mut f) => {
                    f.parameters(parameters);
                    tool.function = Some(f);
                },
                None => {},
            }
        }
        tool
    }
}


/// What a request stands for: the fields of the body that goes to the
/// service, each by its view.
pub struct RequestView {
    pub messages: Seq<MessageView>,
    pub model: Seq<char>,
    pub frequency_penalty: Option<serde_json::Number>,
    pub max_tokens: Option<usize>,
    pub presence_penalty: Option<serde_json::Number>,
    pub response_format: Option<Seq<char>>,
    pub stop: Option<Seq<Seq<char>>>,
    pub stream: Option<bool>,
    pub temperature: Option<serde_json::Number>,
    pub top_p: Option<serde_json::Number>,
    pub tools: Option<Seq<ToolView>>,
}

impl RequestView {
    /// The request for a model that holds no message and sets no option.
    pub open spec fn empty(model: Seq<char>) -> RequestView {
        RequestView {
            messages: Seq::empty(),
            model,
            frequency_penalty: None,
            max_tokens: None,
            presence_penalty: None,
            response_format: None,
            stop: None,
            stream: None,
            temperature: None,
            top_p: None,
            tools: None,
        }
    }

    /// No optional field is set.
    pub open spec fn is_bare(self) -> bool {
        self == RequestView::empty(self.model).with_messages(self.messages)
    }

    /// The request with its messages replaced.
    pub open spec fn with_messages(self, messages: Seq<MessageView>) -> RequestView {
        RequestView { messages, ..self }
    }

    /// The request with one more tool at the end of its list, which is
    /// started where there was none.
    pub open spec fn with_tool(self, tool: ToolView) -> RequestView {
        RequestView {
            tools: Some(
                match self.tools {
                    Some(ts) => ts.push(tool),
                    None => seq![tool],
                },
            ),
            ..self
        }
    }
}

/// The views of a sequence of messages.
pub open spec fn message_views(v: Seq<Message>) -> Seq<MessageView> {
    v.map_values(|m: Message| m@)
}

/// The views of a sequence of tools.
pub open spec fn tool_views(v: Seq<Tool>) -> Seq<ToolView> {
    v.map_values(|t: Tool| t@)
}

/// The view of an optional response format.
pub open spec fn opt_format(f: Option<RespinseFormat>) -> Option<Seq<char>> {
    match f {
        Some(g) => Some(g@),
        None => None,
    }
}

/// The view of an optional list of strings.
pub open spec fn opt_texts(v: Option<Vec<String>>) -> Option<Seq<Seq<char>>> {
    match v {
        Some(w) => Some(text_views(w@)),
        None => None,
    }
}

/// The view of an optional list of tools.
pub open spec fn opt_tools(v: Option<Vec<Tool>>) -> Option<Seq<ToolView>> {
    match v {
        Some(w) => Some(tool_views(w@)),
        None => None,
    }
}

/// The body of a chat completion request.
#[derive(Debug, Clone)]
pub struct ChatRequest {
    pub messages: Vec<Message>,
    pub model: String,
    pub frequency_penalty: Option<serde_json::Number>,
    pub max_tokens: Option<usize>,
    pub presence_penalty: Option<serde_json::Number>,
    pub response_format: Option<RespinseFormat>,
    pub stop: Option<Vec<String>>,
    pub stream: Option<bool>,
    pub temperature: Option<serde_json::Number>,
    pub top_p: Option<serde_json::Number>,
    pub tools: Option<Vec<Tool>>,
}

impl View for ChatRequest {
    type V = RequestView;

    open spec fn view(&self) -> RequestView {
        RequestView {
            messages: message_views(self.messages@),
            model: self.model@,
            frequency_penalty: self.frequency_penalty,
            max_tokens: self.max_tokens,
            presence_penalty: self.presence_penalty,
            response_format: opt_format(self.response_format),
            stop: opt_texts(self.stop),
            stream: self.stream,
            temperature: self.temperature,
            top_p: self.top_p,
            tools: opt_tools(self.tools),
        }
    }
}

impl ChatRequest {
    /// Puts a message at the end of the conversation.
    pub fn add_message(&mut self, message: Message)
        ensures
            final(self)@ == old(self)@.with_messages(old(self)@.messages.push(message@)),
    {
        self.messages.push(message);
        assert(message_views(self.messages@) =~= message_views(old(self).messages@).push(
            message@,
        ));
    }

    /// Puts messages at the end of the conversation, in their order.
    pub fn add_messages(&mut self, messages: Vec<Message>)
        ensures
            final(self)@ == old(self)@.with_messages(
                old(self)@.messages + message_views(messages@),
            ),
    {
        let mut rest = messages;
        self.messages.append(&mut rest);
        assert(message_views(self.messages@) =~= message_views(old(self).messages@)
            + message_views(messages@));
    }
}

/// Collects the parts of a chat completion request.
#[derive(Debug, Clone)]
pub struct ChatRequestBuilder {
    pub messages: Vec<Message>,
    pub model: ModelName,
    pub frequency_penalty: Option<serde_json::Number>,
    pub max_tokens: Option<usize>,
    pub presence_penalty: Option<serde_json::Number>,
    pub response_format: Option<RespinseFormat>,
    pub stop: Option<Vec<String>>,
    pub stream: Option<bool>,
    pub temperature: Option<serde_json::Number>,
    pub top_p: Option<serde_json::Number>,
    pub tools: Option<Vec<Tool>>,
}

/// The address to which a request for the given model goes.
pub open spec fn endpoint(model: ModelName) -> Seq<char> {
    "https://api.deepseek.com/chat/completions"@
}

impl ChatRequestBuilder {
    /// The request that [`ChatRequestBuilder::build`] makes of what was
    /// collected so far.
    pub open spec fn request(&self) -> RequestView {
        RequestView {
            messages: message_views(self.messages@),
            model: self.model.wire_name(),
            frequency_penalty: self.frequency_penalty,
            max_tokens: self.max_tokens,
            presence_penalty: self.presence_penalty,
            response_format: opt_format(self.response_format),
            stop: opt_texts(self.stop),
            stream: self.stream,
            temperature: self.temperature,
            top_p: self.top_p,
            tools: opt_tools(self.tools),
        }
    }

    /// A builder for the chat model, with no message and no option set.
    pub fn new() -> (res: Self)
        ensures
            res.model == ModelName::DeepseekChat,
            res.request() == RequestView::empty(ModelName::DeepseekChat.wire_name()),
    {
        let res = ChatRequestBuilder {
            messages: Vec::new(),
            model: ModelName::DeepseekChat,
            frequency_penalty: None,
            max_tokens: None,
            presence_penalty: None,
            response_format: None,
            stop: None,
            stream: None,
            temperature: None,
            top_p: None,
            tools: None,
        };
        assert(message_views(res.messages@) =~= Seq::empty());
        res
    }

    /// Puts a message at the end of the conversation.
    pub fn add_message(self, message: Message) -> (res: Self)
        ensures
            res.model == self.model,
            res.request() == self.request().with_messages(
                self.request().messages.push(message@),
            ),
    {
        let mut b = self;
        b.messages.push(message);
        assert(message_views(b.messages@) =~= message_views(self.messages@).push(message@));
        b
    }

    /// Chooses the model.
    pub fn model(self, model: ModelName) -> (res: Self)
        ensures
            res.model == model,
            res.request() == (RequestView { model: model.wire_name(), ..self.request() }),
    {
        let mut b = self;
        b.model = model;
        b
    }

    /// Sets the frequency penalty.
    pub fn frequency_penalty(self, frequency_penalty: serde_json::Number) -> (res: Self)
        ensures
            res.model == self.model,
            res.request() == (RequestView {
                frequency_penalty: Some(frequency_penalty),
                ..self.request()
            }),
    {
        let mut b = self;
        b.frequency_penalty = Some(frequency_penalty);
        b
    }

    /// Sets the largest number of tokens that the model may generate.
    pub fn max_tokens(self, max_tokens: usize) -> (res: Self)
        ensures
            res.model == self.model,
            res.request() == (RequestView { max_tokens: Some(max_tokens), ..self.request() }),
    {
        let mut b = self;
        b.max_tokens = Some(max_tokens);
        b
    }

    /// Sets the presence penalty.
    pub fn presence_penalty(self, presence_penalty: serde_json::Number) -> (res: Self)
        ensures
            res.model == self.model,
            res.request() == (RequestView {
                presence_penalty: Some(presence_penalty),
                ..self.request()
            }),
    {
        let mut b = self;
        b.presence_penalty = Some(presence_penalty);
        b
    }

    /// Sets the format of the answer.
    pub fn response_format(self, response_format: RespinseFormat) -> (res: Self)
        ensures
            res.model == self.model,
            res.request() == (RequestView {
                response_format: Some(response_format@),
                ..self.request()
            }),
    {
        let mut b = self;
        b.response_format = Some(response_format);
        b
    }

    /// Sets the sequences at which the model stops.
    pub fn stop(self, stop: Vec<String>) -> (res: Self)
        ensures
            res.model == self.model,
            res.request() == (RequestView { stop: Some(text_views(stop@)), ..self.request() }),
    {
        let mut b = self;
        b.stop = Some(stop);
        b
    }

    /// Asks for the answer as a stream of increments, or in one piece.
    pub fn stream(self, stream: bool) -> (res: Self)
        ensures
            res.model == self.model,
            res.request() == (RequestView { stream: Some(stream), ..self.request() }),
    {
        let mut b = self;
        b.stream = Some(stream);
        b
    }

    /// Sets the sampling temperature.
    pub fn temperature(self, temperature: serde_json::Number) -> (res: Self)
        ensures
            res.model == self.model,
            res.request() == (RequestView { temperature: Some(temperature), ..self.request() }),
    {
        let mut b = self;
        b.temperature = Some(temperature);
        b
    }

    /// Sets the share of the probability mass from which tokens are sampled.
    pub fn top_p(self, top_p: serde_json::Number) -> (res: Self)
        ensures
            res.model == self.model,
            res.request() == (RequestView { top_p: Some(top_p), ..self.request() }),
    {
        let mut b = self;
        b.top_p = Some(top_p);
        b
    }

    /// Puts a tool at the end of the list of tools, which is started where
    /// there was none.
    pub fn tools(self, tools: Tool) -> (res: Self)
        ensures
            res.model == self.model,
            res.request() == self.request().with_tool(tools@),
    {
        let mut b = self;
        let mut list = match b.tools {
            Some(l) => l,
            None => Vec::new(),
        };
        let ghost before = list@;
        list.push(tools);
        assert(tool_views(list@) =~= tool_views(before).push(tools@));
        assert(tool_views(Seq::<Tool>::empty()) =~= Seq::empty());
        assert(Seq::<ToolView>::empty().push(tools@) =~= seq![tools@]);
        b.tools = Some(list);
        b
    }

    /// The address of the service for the chosen model, and the request with
    /// the model resolved to its identifier.
    pub fn build(self) -> (res: (String, ChatRequest))
        ensures
            res.0@ == endpoint(self.model),
            res.1@ == self.request(),
    {
        let mut base_url = String::new();
        match self.model {
            ModelName::DeepseekChat => {
                base_url.append("https://api.deepseek.com/chat");
            },
            ModelName::DeepseekReasoner => {
                base_url.append("https://api.deepseek.com/chat");
            },
        }
        base_url.append("/completions");
        proof {
            reveal_strlit("https://api.deepseek.com/chat");
            reveal_strlit("/completions");
            reveal_strlit("https://api.deepseek.com/chat/completions");
            assert(base_url@ =~= "https://api.deepseek.com/chat/completions"@);
        }
        let model = self.model.to_string();
        (
            base_url,
            ChatRequest {
                messages: self.messages,
                model,
                frequency_penalty: self.frequency_penalty,
                max_tokens: self.max_tokens,
                presence_penalty: self.presence_penalty,
                response_format: self.response_format,
                stop: self.stop,
                stream: self.stream,
                temperature: self.temperature,
                top_p: self.top_p,
                tools: self.tools,
            },
        )
    }
}

/// The roles that the constructors of [`Message`] give are three different
/// ones, each takes a name, and none of them is the role of a tool.
pub proof fn lemma_constructor_roles()
    ensures
        role_takes_name("system"@),
        role_takes_name("user"@),
        role_takes_name("assistant"@),
        !role_is_tool("system"@),
        !role_is_tool("user"@),
        !role_is_tool("assistant"@),
        !role_is_assistant("system"@),
        !role_is_assistant("user"@),
        "system"@ != "user"@,
{
    reveal_strlit("system");
    reveal_strlit("user");
    reveal_strlit("assistant");
    reveal_strlit("tool");
    assert("user"@[0] != "tool"@[0]);
    assert("system"@.len() != "tool"@.len());
    assert("assistant"@.len() != "tool"@.len());
    assert("system"@.len() != "assistant"@.len());
    assert("user"@.len() != "assistant"@.len());
    assert("system"@.len() != "user"@.len());
}

/// A name given to a message of role system, user or assistant that has no
/// optional field set is the name that the message then has, and nothing
/// else changes.
pub proof fn lemma_name_is_set(role: Seq<char>, content: Seq<char>, name: Seq<char>)
    requires
        role == "system"@ || role == "user"@ || role == "assistant"@,
    ensures
        MessageView::plain(role, content).with_name(name) == (MessageView {
            name: Some(name),
            ..MessageView::plain(role, content)
        }),
        MessageView::plain(role, content).with_name(name).role_gated(),
{
}

/// A message of any role but tool is the same after a request to link it to
/// a tool call: where no link was set, none is set.
pub proof fn lemma_tool_call_id_needs_tool(m: MessageView, id: Seq<char>)
    requires
        m.role != "tool"@,
    ensures
        m.with_tool_call_id(id) == m,
        m.tool_call_id.is_none() ==> m.with_tool_call_id(id).tool_call_id.is_none(),
{
}

/// A message of role system, user or assistant that has no optional field
/// set has no link to a tool call after a request to set one.
pub proof fn lemma_tool_call_id_stays_unset(role: Seq<char>, content: Seq<char>, id: Seq<char>)
    requires
        role == "system"@ || role == "user"@ || role == "assistant"@,
    ensures
        MessageView::plain(role, content).with_tool_call_id(id) == MessageView::plain(
            role,
            content,
        ),
        MessageView::plain(role, content).with_tool_call_id(id).tool_call_id.is_none(),
{
    lemma_constructor_roles();
}

} // verus!
