//! Tests of the token classifier and the node helpers.

use jist::base_types::BaseTypes;
use jist::errors::ClassificationError;
use jist::node::{match_token_to_node, to_base_type, ASTNode};
use jist::token_type::{ParseInfo, TokenTypes};

fn tok(kind: TokenTypes, text: &str) -> ParseInfo {
    ParseInfo::new(kind, text.to_string())
}

#[test]
fn classifies_int_literal() {
    let node = match_token_to_node(tok(TokenTypes::Int, "42")).unwrap();
    match node {
        ASTNode::Int(n) => assert_eq!(n.value, 42),
        other => panic!("expected an integer node, got {:?}", other),
    }
}

#[test]
fn classifies_negative_int_literal() {
    let node = match_token_to_node(tok(TokenTypes::Int, "-7")).unwrap();
    match node {
        ASTNode::Int(n) => assert_eq!(n.value, -7),
        other => panic!("expected an integer node, got {:?}", other),
    }
}

#[test]
fn classifies_extreme_int_literals() {
    let max = match_token_to_node(tok(TokenTypes::Int, "2147483647")).unwrap();
    match max {
        ASTNode::Int(n) => assert_eq!(n.value, i32::MAX),
        other => panic!("expected an integer node, got {:?}", other),
    }
    let min = match_token_to_node(tok(TokenTypes::Int, "-2147483648")).unwrap();
    match min {
        ASTNode::Int(n) => assert_eq!(n.value, i32::MIN),
        other => panic!("expected an integer node, got {:?}", other),
    }
}

#[test]
fn rejects_malformed_int_literals() {
    for text in ["", "x", "12x", "2147483648", "-2147483649", "1.5", "--3"] {
        let r = match_token_to_node(tok(TokenTypes::Int, text));
        assert_eq!(r, Err(ClassificationError::MalformedLiteral), "text {:?}", text);
    }
}

#[test]
fn int_literal_with_leading_zeroes() {
    let node = match_token_to_node(tok(TokenTypes::Int, "0007")).unwrap();
    match node {
        ASTNode::Int(n) => assert_eq!(n.value, 7),
        other => panic!("expected an integer node, got {:?}", other),
    }
}

#[test]
fn classifies_bool_literals() {
    let t = match_token_to_node(tok(TokenTypes::Bool, "true")).unwrap();
    assert_eq!(t, ASTNode::Bool(jist::node::BoolNode::new(true)));
    let f = match_token_to_node(tok(TokenTypes::Bool, "false")).unwrap();
    assert_eq!(f, ASTNode::Bool(jist::node::BoolNode::new(false)));
    let bad = match_token_to_node(tok(TokenTypes::Bool, "maybe"));
    assert_eq!(bad, Err(ClassificationError::MalformedLiteral));
}

#[test]
fn classifies_float_literals() {
    let ok = match_token_to_node(tok(TokenTypes::Float, "1.102")).unwrap();
    match ok {
        ASTNode::Float(f) => assert_eq!(f.value, "1.102"),
        other => panic!("expected a float node, got {:?}", other),
    }
    let whole = match_token_to_node(tok(TokenTypes::Float, "-3")).unwrap();
    match whole {
        ASTNode::Float(f) => assert_eq!(f.value, "-3"),
        other => panic!("expected a float node, got {:?}", other),
    }
    for text in ["", ".", "1.", ".5", "1.2.3", "abc", "-"] {
        let r = match_token_to_node(tok(TokenTypes::Float, text));
        assert_eq!(r, Err(ClassificationError::MalformedLiteral), "text {:?}", text);
    }
}

#[test]
fn classifies_char_literal_by_first_character() {
    let c = match_token_to_node(tok(TokenTypes::Char, "ab")).unwrap();
    match c {
        ASTNode::Char(n) => assert_eq!(n.value, 'a'),
        other => panic!("expected a char node, got {:?}", other),
    }
    let empty = match_token_to_node(tok(TokenTypes::Char, ""));
    assert_eq!(empty, Err(ClassificationError::MalformedLiteral));
}

#[test]
fn classifies_structural_tokens() {
    assert_eq!(
        match_token_to_node(tok(TokenTypes::LeftParenthesis, "(")).unwrap(),
        ASTNode::LeftParenthesis
    );
    assert_eq!(
        match_token_to_node(tok(TokenTypes::RightParenthesis, ")")).unwrap(),
        ASTNode::RightParenthesis
    );
    assert_eq!(match_token_to_node(tok(TokenTypes::SemiColon, ";")).unwrap(), ASTNode::SemiColon);
    assert_eq!(match_token_to_node(tok(TokenTypes::LeftCurly, "{")).unwrap(), ASTNode::LeftCurly);
    assert_eq!(match_token_to_node(tok(TokenTypes::RightCurly, "}")).unwrap(), ASTNode::RightCurly);
    assert_eq!(
        match_token_to_node(tok(TokenTypes::ArgumentSeparator, ",")).unwrap(),
        ASTNode::ArgumentSeparator
    );
    assert_eq!(match_token_to_node(tok(TokenTypes::Nothing, "")).unwrap(), ASTNode::Nothing);
}

#[test]
fn classifies_named_tokens() {
    let v = match_token_to_node(tok(TokenTypes::Variable, "x")).unwrap();
    assert_eq!(v, ASTNode::Variable(jist::node::VariableNode::new("x".to_string())));
    let op = match_token_to_node(tok(TokenTypes::Operator, "+")).unwrap();
    assert_eq!(op, ASTNode::Operator(jist::node::OperatorNode::new("+".to_string())));
    let w = match_token_to_node(tok(TokenTypes::While, "count > 0")).unwrap();
    assert_eq!(w, ASTNode::While(jist::node::WhileNode::new("count > 0".to_string())));
    let f = match_token_to_node(tok(TokenTypes::For, "i < 3")).unwrap();
    assert_eq!(f, ASTNode::For(jist::node::ForNode::new("i < 3".to_string())));
    let i = match_token_to_node(tok(TokenTypes::If, "a")).unwrap();
    assert_eq!(i, ASTNode::If(jist::node::IfNode::new("a".to_string())));
    let c = match_token_to_node(tok(TokenTypes::FunctionCall, "print")).unwrap();
    assert_eq!(c, ASTNode::FunctionCall(jist::node::FunctionCallNode::new("print".to_string())));
}

#[test]
fn unmapped_kinds_are_a_hard_failure() {
    let r = match_token_to_node(tok(TokenTypes::FatArrow, "=>"));
    assert_eq!(r, Err(ClassificationError::Unrecognized));
    let r2 = match_token_to_node(tok(TokenTypes::FunctionCallArguments, "a, b"));
    assert_eq!(r2, Err(ClassificationError::Unrecognized));
}

#[test]
fn to_base_type_reads_literal_nodes() {
    let int_node = ASTNode::Int(jist::node::IntNode::new(5));
    assert_eq!(to_base_type(&int_node), Some(BaseTypes::Int(5)));
    let s = ASTNode::String(jist::node::StringNode::new("hi".to_string()));
    assert_eq!(to_base_type(&s), Some(BaseTypes::StringWrapper("hi".to_string())));
    let b = ASTNode::Bool(jist::node::BoolNode::new(true));
    assert_eq!(to_base_type(&b), Some(BaseTypes::Bool(true)));
    let op = ASTNode::Operator(jist::node::OperatorNode::new("+".to_string()));
    assert_eq!(to_base_type(&op), Some(BaseTypes::Null));
}

#[test]
fn token_kind_labels() {
    assert_eq!(TokenTypes::Int.to_string(), "Int");
    assert_eq!(TokenTypes::FatArrow.to_string(), "FatArrow");
    assert_eq!(TokenTypes::Nothing.to_string(), "None");
    assert_eq!(TokenTypes::VarTypeAssignment.to_string(), "VarTypeAssignment");
    let c = TokenTypes::Collection {
        name: "xs".to_string(),
        collection_type: "array".to_string(),
        stored_value_type_single: "int".to_string(),
        stored_value_type_first: "int".to_string(),
        stored_value_type_second: "string".to_string(),
    };
    assert_eq!(c.to_string(), "Collection: xs array int (int, string)");
}
