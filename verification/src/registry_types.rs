//! The records of the tool registry that the proxy server reads.
use vstd::prelude::*;

verus! {

/// A property's JSON type: one type name, or several.
pub enum TypeDefinition {
    Single(String),
    Multiple(Vec<String>),
}

/// Where a registry tool's package comes from.
pub struct Distribution {
    pub distribution_type: String,
    pub package: String,
}

/// Who publishes a registry tool.
pub struct Publisher {
    pub id: String,
    pub name: String,
    pub url: String,
}

/// The arguments of the example `sum` tool.
pub struct SumRequest {
    pub a: i32,
    pub b: i32,
}

} // verus!
