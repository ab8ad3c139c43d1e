use vstd::prelude::*;
use vstd::string::StringExecFns;

verus! {

/// The models that the service offers.
#[derive(Debug, Clone, Copy, PartialEq, Eq, Structural)]
pub enum ModelName {
    DeepseekChat,
    DeepseekReasoner,
}

impl ModelName {
    /// The identifier under which the service knows this model.
    pub open spec fn wire_name(self) -> Seq<char> {
        match self {
            ModelName::DeepseekChat => "deepseek-chat"@,
            ModelName::DeepseekReasoner => "deepseek-reasoner"@,
        }
    }

    /// The identifier as an owned string.
    pub fn to_string(&self) -> (res: String)
        ensures
            res@ == self.wire_name(),
    {
        String::from_str(self.as_str())
    }

    /// The identifier as a string slice.
    pub fn as_str(&self) -> (res: &'static str)
        ensures
            res@ == self.wire_name(),
    {
        match self {
            ModelName::DeepseekChat => "deepseek-chat",
            ModelName::DeepseekReasoner => "deepseek-reasoner",
        }
    }
}

impl From<ModelName> for &'static str {
    fn from(model_name: ModelName) -> (res: Self) {
        match model_name {
            ModelName::DeepseekChat => "deepseek-chat",
            ModelName::DeepseekReasoner => "deepseek-reasoner",
        }
    }
}

impl vstd::std_specs::convert::FromSpecImpl<ModelName> for &'static str {
    open spec fn obeys_from_spec() -> bool {
        true
    }

    open spec fn from_spec(model_name: ModelName) -> Self {
        match model_name {
            ModelName::DeepseekChat => "deepseek-chat",
            ModelName::DeepseekReasoner => "deepseek-reasoner",
        }
    }
}

/// The identifier of a model is one of the two that the service knows, the
/// same whenever it is asked for, and tells the two models apart.
pub proof fn lemma_wire_names(a: ModelName, b: ModelName)
    ensures
        a.wire_name() == "deepseek-chat"@ || a.wire_name() == "deepseek-reasoner"@,
        a.wire_name() == b.wire_name() <==> a == b,
        <&'static str as vstd::std_specs::convert::FromSpec<ModelName>>::from_spec(a)@
            == a.wire_name(),
{
    reveal_strlit("deepseek-chat");
    reveal_strlit("deepseek-reasoner");
    assert("deepseek-chat"@.len() != "deepseek-reasoner"@.len());
}

} // verus!
