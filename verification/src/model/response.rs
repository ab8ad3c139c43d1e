use vstd::prelude::*;

verus! {

/// One model that the service offers.
#[derive(Debug)]
pub struct Data {
    pub id: String,
    pub object: String,
    pub owned_by: String,
}

impl Data {
    /// The identifier of the model.
    pub fn id(&self) -> (res: &str)
        ensures
            res@ == self.id@,
    {
        self.id.as_str()
    }

    /// The kind of the entry.
    pub fn object(&self) -> (res: &str)
        ensures
            res@ == self.object@,
    {
        self.object.as_str()
    }

    /// The organisation that owns the model.
    pub fn onwed_by(&self) -> (res: &str)
        ensures
            res@ == self.owned_by@,
    {
        self.owned_by.as_str()
    }
}

/// The list of the models that the service offers.
#[derive(Debug)]
pub struct ModelResponse {
    pub object: String,
    pub data: Vec<Data>,
}

impl ModelResponse {
    /// The kind of the answer.
    pub fn object(&self) -> (res: &str)
        ensures
            res@ == self.object@,
    {
        self.object.as_str()
    }

    /// The models, in the order in which the service listed them.
    pub fn data(&self) -> (res: &[Data])
        ensures
            res@ == self.data@,
    {
        self.data.as_slice()
    }
}

} // verus!
