//! The abstract-syntax node derived from one token, and the classifier
//! that maps each token to exactly one node variant.
//!
//! Classification is total over the token-kind space and looks at no
//! neighbouring token: each kind either packages the token's text into the
//! matching node payload or parses it as a literal.

use vstd::prelude::*;
use crate::base_types::BaseTypes;
use crate::errors::ClassificationError;
use crate::literals::{float_text_ok, is_float_literal, parse_i32, parse_int_text, str_eq};
use crate::token_type::{ParseInfo, TokenTypes};

verus! {

/// A collection literal's name.
#[derive(Debug, Clone, PartialEq, Eq)]
pub struct CollectionNode {
    pub name: String,
}

impl CollectionNode {
    pub fn new(name: String) -> (r: Self)
        ensures
            r.name == name,
    {
        CollectionNode { name }
    }
}

/// A boolean literal.
#[derive(Debug, Clone, PartialEq, Eq)]
pub struct BoolNode {
    pub value: bool,
}

impl BoolNode {
    pub fn new(value: bool) -> (r: Self)
        ensures
            r.value == value,
    {
        BoolNode { value }
    }
}

/// A decimal literal, carried as its text; the verified core computes
/// nothing with floating point.
#[derive(Debug, Clone, PartialEq, Eq)]
pub struct FloatNode {
    pub value: String,
}

impl FloatNode {
    pub fn new(value: String) -> (r: Self)
        ensures
            r.value == value,
    {
        FloatNode { value }
    }
}

/// The argument list of a function declaration.
#[derive(Debug, Clone, PartialEq, Eq)]
pub struct FunctionArgumentsNode {
    pub value: String,
}

impl FunctionArgumentsNode {
    pub fn new(value: String) -> (r: Self)
        ensures
            r.value == value,
    {
        FunctionArgumentsNode { value }
    }
}

/// One named argument in a function call.
#[derive(Debug, Clone, PartialEq, Eq)]
pub struct ArgumentCallNode {
    pub name: String,
}

/// The argument list of a function call.
#[derive(Debug, Clone, PartialEq, Eq)]
pub struct FunctionCallArgumentsNode {
    pub value: String,
}

impl FunctionCallArgumentsNode {
    pub fn new(value: String) -> (r: Self)
        ensures
            r.value == value,
    {
        FunctionCallArgumentsNode { value }
    }
}

/// A comment's text.
#[derive(Debug, Clone, PartialEq, Eq)]
pub struct CommentNode {
    pub value: String,
}

impl CommentNode {
    pub fn new(value: String) -> (r: Self)
        ensures
            r.value == value,
    {
        CommentNode { value }
    }
}

/// A statement terminator.
#[derive(Debug, Clone, PartialEq, Eq)]
pub struct SemiColonNode;

impl SemiColonNode {
    pub fn new() -> (r: Self) {
        SemiColonNode
    }
}

/// The `=` of an assignment.
#[derive(Debug, Clone, PartialEq, Eq)]
pub struct AssignmentOperatorNode {
    pub operator: String,
}

impl AssignmentOperatorNode {
    pub fn new(operator: String) -> (r: Self)
        ensures
            r.operator == operator,
    {
        AssignmentOperatorNode { operator }
    }
}

/// The `->` of a return-type annotation.
#[derive(Debug, Clone, PartialEq, Eq)]
pub struct ReturnTypeAssignmentNode {
    pub value: String,
}

impl ReturnTypeAssignmentNode {
    pub fn new(value: String) -> (r: Self)
        ensures
            r.value == value,
    {
        ReturnTypeAssignmentNode { value }
    }
}

/// An arithmetic operator symbol.
#[derive(Debug, Clone, PartialEq, Eq)]
pub struct OperatorNode {
    pub operator: String,
}

impl OperatorNode {
    pub fn new(operator: String) -> (r: Self)
        ensures
            r.operator == operator,
    {
        OperatorNode { operator }
    }
}

/// An integer literal.
#[derive(Debug, Clone, PartialEq, Eq)]
pub struct IntNode {
    pub value: i32,
}

impl IntNode {
    pub fn new(value: i32) -> (r: Self)
        ensures
            r.value == value,
    {
        IntNode { value }
    }
}

/// A string literal.
#[derive(Debug, Clone, PartialEq, Eq)]
pub struct StringNode {
    pub value: String,
}

impl StringNode {
    pub fn new(value: String) -> (r: Self)
        ensures
            r.value == value,
    {
        StringNode { value }
    }
}

/// A character literal.
#[derive(Debug, Clone, PartialEq, Eq)]
pub struct CharNode {
    pub value: char,
}

impl CharNode {
    pub fn new(value: char) -> (r: Self)
        ensures
            r.value == value,
    {
        CharNode { value }
    }
}

/// The `let` keyword opening a declaration.
#[derive(Debug, Clone, PartialEq, Eq)]
pub struct AssignmentNode {
    pub value: String,
}

impl AssignmentNode {
    pub fn new(value: String) -> (r: Self)
        ensures
            r.value == value,
    {
        AssignmentNode { value }
    }
}

/// The `:` between a declared name and its type.
#[derive(Debug, Clone, PartialEq, Eq)]
pub struct VarTypeAssignmentNode {
    pub value: String,
}

impl VarTypeAssignmentNode {
    pub fn new(value: String) -> (r: Self)
        ensures
            r.value == value,
    {
        VarTypeAssignmentNode { value }
    }
}

/// A declared variable's raw name.
#[derive(Debug, Clone, PartialEq, Eq)]
pub struct VariableNode {
    pub value: String,
}

impl VariableNode {
    pub fn new(value: String) -> (r: Self)
        ensures
            r.value == value,
    {
        VariableNode { value }
    }
}

/// A variable's raw value text.
#[derive(Debug, Clone, PartialEq, Eq)]
pub struct VariableValueNode {
    pub value: String,
}

impl VariableValueNode {
    pub fn new(value: String) -> (r: Self)
        ensures
            r.value == value,
    {
        VariableValueNode { value }
    }
}

/// A declared variable's raw type text.
#[derive(Debug, Clone, PartialEq, Eq)]
pub struct VariableTypeNode {
    pub value: String,
}

impl VariableTypeNode {
    pub fn new(value: String) -> (r: Self)
        ensures
            r.value == value,
    {
        VariableTypeNode { value }
    }
}

/// A reference to an already declared variable.
#[derive(Debug, Clone, PartialEq, Eq)]
pub struct VariableCallNode {
    pub name: String,
}

impl VariableCallNode {
    pub fn new(name: String) -> (r: Self)
        ensures
            r.name == name,
    {
        VariableCallNode { name }
    }
}

/// A function declaration's name.
#[derive(Debug, Clone, PartialEq, Eq)]
pub struct FunctionNode {
    pub name: String,
}

impl FunctionNode {
    pub fn new(name: String) -> (r: Self)
        ensures
            r.name == name,
    {
        FunctionNode { name }
    }
}

/// A function call's name.
#[derive(Debug, Clone, PartialEq, Eq)]
pub struct FunctionCallNode {
    pub name: String,
}

impl FunctionCallNode {
    pub fn new(name: String) -> (r: Self)
        ensures
            r.name == name,
    {
        FunctionCallNode { name }
    }
}

/// An `if` header with its raw condition text.
#[derive(Debug, Clone, PartialEq, Eq)]
pub struct IfNode {
    pub condition: String,
}

impl IfNode {
    pub fn new(condition: String) -> (r: Self)
        ensures
            r.condition == condition,
    {
        IfNode { condition }
    }
}

/// A `while` header with its raw condition text.
#[derive(Debug, Clone, PartialEq, Eq)]
pub struct WhileNode {
    pub condition: String,
}

impl WhileNode {
    pub fn new(condition: String) -> (r: Self)
        ensures
            r.condition == condition,
    {
        WhileNode { condition }
    }
}

/// A `for` header with its raw condition text.
#[derive(Debug, Clone, PartialEq, Eq)]
pub struct ForNode {
    pub condition: String,
}

impl ForNode {
    pub fn new(condition: String) -> (r: Self)
        ensures
            r.condition == condition,
    {
        ForNode { condition }
    }
}

/// The closed set of abstract-syntax node variants, each carrying only
/// what the classifier could determine from one token.
#[derive(Debug, Clone, PartialEq, Eq)]
pub enum ASTNode {
    SemiColon,
    Operator(OperatorNode),
    Int(IntNode),
    String(StringNode),
    Char(CharNode),
    Bool(BoolNode),
    Float(FloatNode),
    Assignment(AssignmentNode),
    VarTypeAssignment(VarTypeAssignmentNode),
    Variable(VariableNode),
    Function(FunctionNode),
    FunctionCall(FunctionCallNode),
    VariableCall(VariableCallNode),
    VariableType(VariableTypeNode),
    VariableValue(VariableValueNode),
    FunctionArguments(FunctionArgumentsNode),
    AssignmentOperator(AssignmentOperatorNode),
    ReturnTypeAssignment(ReturnTypeAssignmentNode),
    Comment(CommentNode),
    FunctionCallArguments(FunctionArgumentsNode),
    Collection(CollectionNode),
    LeftBracket,
    RightBracket,
    LeftParenthesis,
    RightParenthesis,
    ArgumentSeparator,
    LeftCurly,
    RightCurly,
    If(IfNode),
    While(WhileNode),
    For(ForNode),
    Else,
    Nothing,
}

/// The value a node stands for when one is read off it directly: literal
/// nodes give their literal's value, every other node gives `Null`.
pub open spec fn node_base_value(n: ASTNode) -> BaseTypes {
    match n {
        ASTNode::Int(i) => BaseTypes::Int(i.value),
        ASTNode::String(s) => BaseTypes::StringWrapper(s.value),
        ASTNode::Char(c) => BaseTypes::Char(c.value),
        ASTNode::Bool(b) => BaseTypes::Bool(b.value),
        ASTNode::Float(f) => BaseTypes::Float(f.value),
        _ => BaseTypes::Null,
    }
}

/// Reads a node as a runtime value, as `node_base_value` describes.
pub fn to_base_type(node: &ASTNode) -> (r: Option<BaseTypes>)
    ensures
        r == Some(node_base_value(*node)),
{
    match node {
        ASTNode::Int(i) => Some(BaseTypes::Int(i.value)),
        ASTNode::String(s) => Some(BaseTypes::StringWrapper(s.value.clone())),
        ASTNode::Char(c) => Some(BaseTypes::Char(c.value)),
        ASTNode::Bool(b) => Some(BaseTypes::Bool(b.value)),
        ASTNode::Float(f) => Some(BaseTypes::Float(f.value.clone())),
        _ => Some(BaseTypes::Null),
    }
}

/// The classification function: a total map from one token to exactly one
/// node variant, or to the error that rules the token out.
pub open spec fn classify(pi: ParseInfo) -> Result<ASTNode, ClassificationError> {
    match pi.token {
        TokenTypes::Int => match parse_int_text(pi.value@) {
            Some(v) => Ok(ASTNode::Int(IntNode { value: v })),
            None => Err(ClassificationError::MalformedLiteral),
        },
        TokenTypes::String => Ok(ASTNode::String(StringNode { value: pi.value })),
        TokenTypes::Bool => if pi.value@ == "true"@ {
            Ok(ASTNode::Bool(BoolNode { value: true }))
        } else if pi.value@ == "false"@ {
            Ok(ASTNode::Bool(BoolNode { value: false }))
        } else {
            Err(ClassificationError::MalformedLiteral)
        },
        TokenTypes::Float => if float_text_ok(pi.value@) {
            Ok(ASTNode::Float(FloatNode { value: pi.value }))
        } else {
            Err(ClassificationError::MalformedLiteral)
        },
        TokenTypes::Char => if pi.value@.len() > 0 {
            Ok(ASTNode::Char(CharNode { value: pi.value@[0] }))
        } else {
            Err(ClassificationError::MalformedLiteral)
        },
        TokenTypes::Operator => Ok(ASTNode::Operator(OperatorNode { operator: pi.value })),
        TokenTypes::AssignmentOperator => Ok(
            ASTNode::AssignmentOperator(AssignmentOperatorNode { operator: pi.value }),
        ),
        TokenTypes::LeftParenthesis => Ok(ASTNode::LeftParenthesis),
        TokenTypes::RightParenthesis => Ok(ASTNode::RightParenthesis),
        TokenTypes::Function => Ok(ASTNode::Function(FunctionNode { name: pi.value })),
        TokenTypes::FunctionArguments => Ok(
            ASTNode::FunctionArguments(FunctionArgumentsNode { value: pi.value }),
        ),
        TokenTypes::FunctionCall => Ok(ASTNode::FunctionCall(FunctionCallNode { name: pi.value })),
        TokenTypes::Variable => Ok(ASTNode::Variable(VariableNode { value: pi.value })),
        TokenTypes::VarTypeAssignment => Ok(
            ASTNode::VariableType(VariableTypeNode { value: pi.value }),
        ),
        TokenTypes::VariableCall => Ok(ASTNode::VariableCall(VariableCallNode { name: pi.value })),
        TokenTypes::ArgumentSeparator => Ok(ASTNode::ArgumentSeparator),
        TokenTypes::Assignment => Ok(ASTNode::Assignment(AssignmentNode { value: pi.value })),
        TokenTypes::RightCurly => Ok(ASTNode::RightCurly),
        TokenTypes::LeftCurly => Ok(ASTNode::LeftCurly),
        TokenTypes::ReturnTypeAssignment => Ok(
            ASTNode::ReturnTypeAssignment(ReturnTypeAssignmentNode { value: pi.value }),
        ),
        TokenTypes::Comment => Ok(ASTNode::Comment(CommentNode { value: pi.value })),
        TokenTypes::SemiColon => Ok(ASTNode::SemiColon),
        TokenTypes::Collection { .. } => Ok(ASTNode::Collection(CollectionNode { name: pi.value })),
        TokenTypes::LeftBracket => Ok(ASTNode::LeftBracket),
        TokenTypes::RightBracket => Ok(ASTNode::RightBracket),
        TokenTypes::If => Ok(ASTNode::If(IfNode { condition: pi.value })),
        TokenTypes::While => Ok(ASTNode::While(WhileNode { condition: pi.value })),
        TokenTypes::For => Ok(ASTNode::For(ForNode { condition: pi.value })),
        TokenTypes::Else => Ok(ASTNode::Else),
        TokenTypes::Nothing => Ok(ASTNode::Nothing),
        TokenTypes::FunctionCallArguments => Err(ClassificationError::Unrecognized),
        TokenTypes::FatArrow => Err(ClassificationError::Unrecognized),
    }
}

/// Classifies one token, exactly as `classify` describes: literal kinds
/// parse their text and reject malformed text, structural kinds map to
/// their variant, and a kind with no mapping is a hard failure.
pub fn match_token_to_node(parse_info: ParseInfo) -> (r: Result<ASTNode, ClassificationError>)
    ensures
        r == classify(parse_info),
{
    let ParseInfo { token, value } = parse_info;
    match token {
        TokenTypes::Int => match parse_i32(value.as_str()) {
            Some(v) => Ok(ASTNode::Int(IntNode { value: v })),
            None => Err(ClassificationError::MalformedLiteral),
        },
        TokenTypes::String => Ok(ASTNode::String(StringNode { value })),
        TokenTypes::Bool => {
            if str_eq(value.as_str(), "true") {
                Ok(ASTNode::Bool(BoolNode { value: true }))
            } else if str_eq(value.as_str(), "false") {
                Ok(ASTNode::Bool(BoolNode { value: false }))
            } else {
                Err(ClassificationError::MalformedLiteral)
            }
        },
        TokenTypes::Float => {
            if is_float_literal(value.as_str()) {
                Ok(ASTNode::Float(FloatNode { value }))
            } else {
                Err(ClassificationError::MalformedLiteral)
            }
        },
        TokenTypes::Char => {
            if value.as_str().unicode_len() > 0 {
                let c = value.as_str().get_char(0);
                Ok(ASTNode::Char(CharNode { value: c }))
            } else {
                Err(ClassificationError::MalformedLiteral)
            }
        },
        TokenTypes::Operator => Ok(ASTNode::Operator(OperatorNode { operator: value })),
        TokenTypes::AssignmentOperator => Ok(
            ASTNode::AssignmentOperator(AssignmentOperatorNode { operator: value }),
        ),
        TokenTypes::LeftParenthesis => Ok(ASTNode::LeftParenthesis),
        TokenTypes::RightParenthesis => Ok(ASTNode::RightParenthesis),
        TokenTypes::Function => Ok(ASTNode::Function(FunctionNode { name: value })),
        TokenTypes::FunctionArguments => Ok(
            ASTNode::FunctionArguments(FunctionArgumentsNode { value }),
        ),
        TokenTypes::FunctionCall => Ok(ASTNode::FunctionCall(FunctionCallNode { name: value })),
        TokenTypes::Variable => Ok(ASTNode::Variable(VariableNode { value })),
        TokenTypes::VarTypeAssignment => Ok(ASTNode::VariableType(VariableTypeNode { value })),
        TokenTypes::VariableCall => Ok(ASTNode::VariableCall(VariableCallNode { name: value })),
        TokenTypes::ArgumentSeparator => Ok(ASTNode::ArgumentSeparator),
        TokenTypes::Assignment => Ok(ASTNode::Assignment(AssignmentNode { value })),
        TokenTypes::RightCurly => Ok(ASTNode::RightCurly),
        TokenTypes::LeftCurly => Ok(ASTNode::LeftCurly),
        TokenTypes::ReturnTypeAssignment => Ok(
            ASTNode::ReturnTypeAssignment(ReturnTypeAssignmentNode { value }),
        ),
        TokenTypes::Comment => Ok(ASTNode::Comment(CommentNode { value })),
        TokenTypes::SemiColon => Ok(ASTNode::SemiColon),
        TokenTypes::Collection { .. } => Ok(ASTNode::Collection(CollectionNode { name: value })),
        TokenTypes::LeftBracket => Ok(ASTNode::LeftBracket),
        TokenTypes::RightBracket => Ok(ASTNode::RightBracket),
        TokenTypes::If => Ok(ASTNode::If(IfNode { condition: value })),
        TokenTypes::While => Ok(ASTNode::While(WhileNode { condition: value })),
        TokenTypes::For => Ok(ASTNode::For(ForNode { condition: value })),
        TokenTypes::Else => Ok(ASTNode::Else),
        TokenTypes::Nothing => Ok(ASTNode::Nothing),
        TokenTypes::FunctionCallArguments => Err(ClassificationError::Unrecognized),
        TokenTypes::FatArrow => Err(ClassificationError::Unrecognized),
    }
}

} // verus!
