//! Token kinds produced by the external lexer, and the `(kind, text)` pairs
//! it hands to the node classifier.

use vstd::prelude::*;
use vstd::string::StringExecFns;

verus! {

/// The kind of one lexical token. More kinds can be added as needed to
/// process a wider variety of syntax expressions.
#[derive(Debug, Clone, PartialEq, Eq)]
pub enum TokenTypes {
    /// A simple numeric value.
    Int,
    /// A simple string value.
    String,
    /// A simple character value.
    Char,
    /// The `=` operator.
    AssignmentOperator,
    /// Either `true` or `false`.
    Bool,
    /// A function argument.
    FunctionArguments,
    /// An arithmetic operator (`+`, `-`, `*`, `/`).
    Operator,
    /// `(`
    LeftParenthesis,
    /// `)`
    RightParenthesis,
    /// `func`
    Function,
    /// `funcname()`
    FunctionCall,
    /// `,` separating function arguments.
    ArgumentSeparator,
    /// A reference to an already declared variable, as in `a = 2`.
    VariableCall,
    /// Values within `()` in a function call.
    FunctionCallArguments,
    /// `let`, used to declare a variable.
    Assignment,
    /// `}`
    RightCurly,
    /// `{`
    LeftCurly,
    /// The declared variable's name.
    Variable,
    /// `:`
    VarTypeAssignment,
    /// `->`
    ReturnTypeAssignment,
    /// `;`
    SemiColon,
    /// `//` or `/* */`
    Comment,
    /// A decimal value such as `1.102`.
    Float,
    /// A collection such as an array literal.
    Collection {
        name: String,
        collection_type: String,
        stored_value_type_single: String,
        stored_value_type_first: String,
        stored_value_type_second: String,
    },
    /// `[`
    LeftBracket,
    /// `]`
    RightBracket,
    /// `=>`
    FatArrow,
    /// An `if` header; the token text carries the raw condition.
    If,
    /// A `while` header; the token text carries the raw condition.
    While,
    /// A `for` header; the token text carries the raw condition.
    For,
    /// An `else` header.
    Else,
    /// Used as a bad return value.
    Nothing,
}

/// One token as handed over by the external lexer: its kind and its raw text.
#[derive(Debug, Clone, PartialEq, Eq)]
pub struct ParseInfo {
    pub token: TokenTypes,
    pub value: String,
}

impl ParseInfo {
    pub fn new(token: TokenTypes, value: String) -> (r: ParseInfo)
        ensures
            r.token == token,
            r.value == value,
    {
        ParseInfo { token, value }
    }
}

/// The characters of the human-readable label that `TokenTypes::to_string`
/// returns for a token kind.
pub open spec fn token_label(t: TokenTypes) -> Seq<char> {
    match t {
        TokenTypes::Int => "Int"@,
        TokenTypes::String => "String"@,
        TokenTypes::Char => "Char"@,
        TokenTypes::AssignmentOperator => "AssignmentOperator"@,
        TokenTypes::Bool => "Bool"@,
        TokenTypes::FunctionArguments => "FunctionArguments"@,
        TokenTypes::Operator => "Operator"@,
        TokenTypes::LeftParenthesis => "LeftParenthesis"@,
        TokenTypes::RightParenthesis => "RightParenthesis"@,
        TokenTypes::Function => "Function"@,
        TokenTypes::FunctionCall => "FunctionCall"@,
        TokenTypes::ArgumentSeparator => "ArgumentSeparator"@,
        TokenTypes::VariableCall => "VariableCall"@,
        TokenTypes::FunctionCallArguments => "FunctionCallArguments"@,
        TokenTypes::Assignment => "Assignment"@,
        TokenTypes::RightCurly => "RightCurly"@,
        TokenTypes::LeftCurly => "LeftCurly"@,
        TokenTypes::Variable => "Variable"@,
        TokenTypes::VarTypeAssignment => "VarTypeAssignment"@,
        TokenTypes::ReturnTypeAssignment => "ReturnTypeAssignment"@,
        TokenTypes::SemiColon => "SemiColon"@,
        TokenTypes::Comment => "Comment"@,
        TokenTypes::Float => "Float"@,
        TokenTypes::Collection {
            name,
            collection_type,
            stored_value_type_single,
            stored_value_type_first,
            stored_value_type_second,
        } => "Collection: "@ + name@ + " "@ + collection_type@ + " "@
            + stored_value_type_single@ + " ("@ + stored_value_type_first@ + ", "@
            + stored_value_type_second@ + ")"@,
        TokenTypes::LeftBracket => "LeftBracket"@,
        TokenTypes::RightBracket => "RightBracket"@,
        TokenTypes::FatArrow => "FatArrow"@,
        TokenTypes::If => "If"@,
        TokenTypes::While => "While"@,
        TokenTypes::For => "For"@,
        TokenTypes::Else => "Else"@,
        TokenTypes::Nothing => "None"@,
    }
}

impl TokenTypes {
    /// The human-readable label of this token kind.
    pub fn to_string(&self) -> (r: String)
        ensures
            r@ == token_label(*self),
    {
        match self {
            TokenTypes::Int => "Int".to_owned(),
            TokenTypes::String => "String".to_owned(),
            TokenTypes::Char => "Char".to_owned(),
            TokenTypes::AssignmentOperator => "AssignmentOperator".to_owned(),
            TokenTypes::Bool => "Bool".to_owned(),
            TokenTypes::FunctionArguments => "FunctionArguments".to_owned(),
            TokenTypes::Operator => "Operator".to_owned(),
            TokenTypes::LeftParenthesis => "LeftParenthesis".to_owned(),
            TokenTypes::RightParenthesis => "RightParenthesis".to_owned(),
            TokenTypes::Function => "Function".to_owned(),
            TokenTypes::FunctionCall => "FunctionCall".to_owned(),
            TokenTypes::ArgumentSeparator => "ArgumentSeparator".to_owned(),
            TokenTypes::VariableCall => "VariableCall".to_owned(),
            TokenTypes::FunctionCallArguments => "FunctionCallArguments".to_owned(),
            TokenTypes::Assignment => "Assignment".to_owned(),
            TokenTypes::RightCurly => "RightCurly".to_owned(),
            TokenTypes::LeftCurly => "LeftCurly".to_owned(),
            TokenTypes::Variable => "Variable".to_owned(),
            TokenTypes::VarTypeAssignment => "VarTypeAssignment".to_owned(),
            TokenTypes::ReturnTypeAssignment => "ReturnTypeAssignment".to_owned(),
            TokenTypes::SemiColon => "SemiColon".to_owned(),
            TokenTypes::Comment => "Comment".to_owned(),
            TokenTypes::Float => "Float".to_owned(),
            TokenTypes::Collection {
                name,
                collection_type,
                stored_value_type_single,
                stored_value_type_first,
                stored_value_type_second,
            } => {
                let mut s = "Collection: ".to_owned();
                s.append(name.as_str());
                s.append(" ");
                s.append(collection_type.as_str());
                s.append(" ");
                s.append(stored_value_type_single.as_str());
                s.append(" (");
                s.append(stored_value_type_first.as_str());
                s.append(", ");
                s.append(stored_value_type_second.as_str());
                s.append(")");
                s
            },
            TokenTypes::LeftBracket => "LeftBracket".to_owned(),
            TokenTypes::RightBracket => "RightBracket".to_owned(),
            TokenTypes::FatArrow => "FatArrow".to_owned(),
            TokenTypes::If => "If".to_owned(),
            TokenTypes::While => "While".to_owned(),
            TokenTypes::For => "For".to_owned(),
            TokenTypes::Else => "Else".to_owned(),
            TokenTypes::Nothing => "None".to_owned(),
        }
    }
}

} // verus!
