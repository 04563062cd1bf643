use vstd::prelude::*;

verus! {

/// Failures of the codecs between the manifest model and its wire form.
#[derive(Debug, Clone, Copy, PartialEq, Eq, Structural)]
pub enum CodecError {
    /// A wire value had a shape that a boolean field does not take.
    InvalidBoolean,
    /// A dotted identifier string does not follow the SQL identifier syntax.
    IdentifierSyntax,
    /// A table reference resolved to more than catalog, schema and table.
    TableReferenceTooLong,
    /// A literal expression was empty.
    EmptyExpression,
}

impl CodecError {
    /// A human-readable description of the failure.
    pub fn message(&self) -> (r: &'static str)
        ensures
            *self == CodecError::InvalidBoolean ==> r@ == "invalid type for boolean"@,
            *self == CodecError::IdentifierSyntax ==> r@ == "invalid identifier syntax"@,
            *self == CodecError::TableReferenceTooLong ==> r@ == "invalid table reference: more than three parts"@,
            *self == CodecError::EmptyExpression ==> r@ == "expr is null or empty"@,
    {
        proof {
            reveal_strlit("invalid type for boolean");
            reveal_strlit("invalid identifier syntax");
            reveal_strlit("invalid table reference: more than three parts");
            reveal_strlit("expr is null or empty");
        }
        match self {
            CodecError::InvalidBoolean => "invalid type for boolean",
            CodecError::IdentifierSyntax => "invalid identifier syntax",
            CodecError::TableReferenceTooLong => "invalid table reference: more than three parts",
            CodecError::EmptyExpression => "expr is null or empty",
        }
    }
}

/// Failures reported by the engine's components.
#[derive(Debug, Clone, PartialEq, Eq)]
pub enum Error {
    Config(String),
    Mdl(String),
    Planning(String),
    Connector(String),
    Database(String),
    Validation(String),
    Io(String),
    Serialization(String),
    Http(String),
}

} // verus!
