//! The model and the roles of the first chat client.

use vstd::prelude::*;

use crate::text::same_text;

verus! {

/// The model of a chat call.
#[allow(non_camel_case_types)]
#[derive(Debug, PartialEq, Eq, Clone, Copy, Structural)]
pub enum Model {
    /// The model `gpt-3.5-turbo`.
    Gpt3_5Turbo,
}

impl Model {
    /// The name of the model, as the API writes it.
    pub open spec fn name(self) -> Seq<char> {
        match self {
            Model::Gpt3_5Turbo => "gpt-3.5-turbo"@,
        }
    }

    /// The name of the model, as the API writes it.
    pub fn to_string(&self) -> (name: String)
        ensures
            name@ == self.name(),
    {
        match self {
            Model::Gpt3_5Turbo => "gpt-3.5-turbo".to_owned(),
        }
    }

    /// The model with the given name; an error for any other text.
    pub fn parse(s: &str) -> (model: Result<Model, ()>)
        ensures
            model is Ok <==> s@ == "gpt-3.5-turbo"@,
            model is Ok ==> model->Ok_0.name() == s@,
    {
        if same_text(s, "gpt-3.5-turbo") {
            Ok(Model::Gpt3_5Turbo)
        } else {
            Err(())
        }
    }
}

impl std::str::FromStr for Model {
    type Err = ();

    fn from_str(s: &str) -> (model: Result<Model, ()>)
        ensures
            model is Ok <==> s@ == "gpt-3.5-turbo"@,
            model is Ok ==> model->Ok_0.name() == s@,
    {
        Model::parse(s)
    }
}

/// The role of the sender of a message.
#[derive(Debug, PartialEq, Eq, Clone, Copy, Structural)]
pub enum Role {
    /// System-level instructions.
    System,
    /// The user.
    User,
    /// The assistant.
    Assistant,
}

} // verus!
