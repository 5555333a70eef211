//! Tools that a model may call.

use vstd::prelude::*;

verus! {

/// A tool that the model may call.
#[derive(Debug)]
pub struct Tool {
    /// The type of the tool.
    pub tool_type: String,
    /// The function of the tool.
    pub function: Function,
}

/// A function that the model may call.
#[derive(Debug)]
pub struct Function {
    /// The name of the function.
    pub name: String,
    /// What the function does, if described.
    pub description: Option<String>,
    /// The parameters of the function as a JSON schema, if any.
    pub parameters: Option<serde_json::Value>,
}

/// Which tool the model calls: a choice by name, such as `auto`, or one
/// given tool. On the wire the shape of the JSON value tells them apart.
#[derive(Debug)]
pub enum ToolChoice {
    /// A choice by name.
    StringChoice(String),
    /// One given tool.
    ObjectChoice(ToolChoiceObject),
}

/// One given tool as a choice.
#[derive(Debug)]
pub struct ToolChoiceObject {
    /// The type of the tool.
    pub tool_type: String,
    /// The function of the tool.
    pub function: ToolFunction,
}

/// The function of a chosen tool.
#[derive(Debug)]
pub struct ToolFunction {
    /// The name of the function.
    pub name: String,
}

} // verus!
