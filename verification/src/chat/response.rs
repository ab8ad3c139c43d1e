use vstd::prelude::*;

verus! {

/// What [`ResponseMessage::cotent`] gives for a message without content.
pub open spec fn missing_content() -> Seq<char> {
    "没有回复content"@
}

/// The function that the model asks to have called, with its arguments as
/// JSON text.
#[derive(Debug, Clone)]
pub struct ResponseFunction {
    pub name: String,
    pub arguments: String,
}

/// One call of a tool that the model asks for.
#[derive(Debug, Clone)]
pub struct ToolCall {
    pub id: String,
    pub call_type: String,
    pub response_function: ResponseFunction,
}

/// A token among the most likely ones at one position of the output.
#[derive(Debug, Clone)]
pub struct TopLogprobs {
    pub token: String,
    pub logprob: isize,
    pub bytes: Option<isize>,
}

/// The log probability of one token of the output.
#[derive(Debug, Clone)]
pub struct LogprobsContent {
    pub tokens: String,
    pub logprob: isize,
    pub bytes: Option<isize>,
    pub top_logprobs: TopLogprobs,
}

/// The log probabilities that come with a choice.
#[derive(Debug, Clone)]
pub struct Logprobs {
    pub content: LogprobsContent,
}

/// The part of the prompt that was served from the cache.
#[derive(Debug, Clone)]
pub struct PormptTokensDetails {
    pub cached_tokens: isize,
}

/// The tokens that a request has used.
#[derive(Debug, Clone)]
pub struct Usage {
    pub completion_tokens: isize,
    pub prompt_tokens: isize,
    pub prompt_cache_hit_tokens: isize,
    pub prompt_cache_miss_tokens: isize,
    pub total_tokens: usize,
    pub prompt_tokens_details: PormptTokensDetails,
}

/// The message that the model wrote.
#[derive(Debug, Clone)]
pub struct ResponseMessage {
    pub content: Option<String>,
    pub reasoning_content: Option<String>,
    pub tool_calls: Option<Vec<ToolCall>>,
    pub role: String,
}

impl ResponseMessage {
    /// The content, or the placeholder where the message has none.
    pub open spec fn content_text(&self) -> Seq<char> {
        match self.content {
            Some(c) => c@,
            None => missing_content(),
        }
    }

    /// The content of the message; a fixed placeholder where it has none.
    pub fn cotent(&self) -> (res: &str)
        ensures
            res@ == self.content_text(),
    {
        match &self.content {
            Some(c) => c.as_str(),
            None => "没有回复content",
        }
    }

    /// The role that wrote the message.
    pub fn role(&self) -> (res: &str)
        ensures
            res@ == self.role@,
    {
        self.role.as_str()
    }
}

/// One of the completions that the model offers.
#[derive(Debug, Clone)]
pub struct Choice {
    pub finish_reason: String,
    pub index: usize,
    pub response_content: ResponseMessage,
    pub logprobs: Option<Logprobs>,
}

impl Choice {
    /// The content of the message; a fixed placeholder where it has none.
    pub fn content(&self) -> (res: &str)
        ensures
            res@ == self.response_content.content_text(),
    {
        self.response_content.cotent()
    }

    /// The role that wrote the message.
    pub fn role(&self) -> (res: &str)
        ensures
            res@ == self.response_content.role@,
    {
        self.response_content.role()
    }
}

/// The answer to a chat completion request.
#[derive(Debug, Clone)]
pub struct ChatResponse {
    pub id: String,
    pub choices: Vec<Choice>,
    pub created: isize,
    pub model: String,
    pub system_fingerprint: String,
    pub object: String,
    pub usage: Option<Usage>,
}

impl ChatResponse {
    /// The contents of the choices, in their order.
    pub open spec fn contents(&self) -> Seq<Seq<char>> {
        Seq::new(self.choices@.len(), |i: int| self.choices@[i].response_content.content_text())
    }

    /// The roles of the choices, in their order.
    pub open spec fn roles(&self) -> Seq<Seq<char>> {
        Seq::new(self.choices@.len(), |i: int| self.choices@[i].response_content.role@)
    }

    /// The content of each choice, in the order of the choices; the
    /// placeholder stands for a choice without content.
    pub fn content(&self) -> (res: Vec<&str>)
        ensures
            res@.len() == self.choices@.len(),
            forall|i: int| 0 <= i < res@.len() ==> (#[trigger] res@[i])@ == self.contents()[i],
    {
        let mut out: Vec<&str> = Vec::new();
        let mut i: usize = 0;
        while i < self.choices.len()
            invariant
                0 <= i <= self.choices@.len(),
                out@.len() == i,
                forall|j: int| 0 <= j < i ==> (#[trigger] out@[j])@ == self.contents()[j],
            decreases self.choices@.len() - i,
        {
            out.push(self.choices[i].content());
            i = i + 1;
        }
        out
    }

    /// The role of each choice, in the order of the choices.
    pub fn role(&self) -> (res: Vec<&str>)
        ensures
            res@.len() == self.choices@.len(),
            forall|i: int| 0 <= i < res@.len() ==> (#[trigger] res@[i])@ == self.roles()[i],
    {
        let mut out: Vec<&str> = Vec::new();
        let mut i: usize = 0;
        while i < self.choices.len()
            invariant
                0 <= i <= self.choices@.len(),
                out@.len() == i,
                forall|j: int| 0 <= j < i ==> (#[trigger] out@[j])@ == self.roles()[j],
            decreases self.choices@.len() - i,
        {
            out.push(self.choices[i].role());
            i = i + 1;
        }
        out
    }
}

} // verus!
