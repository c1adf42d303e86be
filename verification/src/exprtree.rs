//! How operators are written.
use vstd::prelude::*;
use crate::strs::owned;
use crate::types::ASTNodeType;

verus! {

/// The symbol of an operator; `Node` for the operators without one.
pub open spec fn op_text(op: ASTNodeType) -> Seq<char> {
    match op {
        ASTNodeType::Plus => "+"@,
        ASTNodeType::Minus => "-"@,
        ASTNodeType::Star => "*"@,
        ASTNodeType::Slash => "/"@,
        ASTNodeType::Read => "Read"@,
        ASTNodeType::Write => "Write"@,
        ASTNodeType::Connector => "< >"@,
        ASTNodeType::Equals => "="@,
        _ => "Node"@,
    }
}

impl ASTNodeType {
    pub fn to_string(&self) -> (r: String)
        ensures
            r@ == op_text(*self),
    {
        match self {
            ASTNodeType::Plus => owned("+"),
            ASTNodeType::Minus => owned("-"),
            ASTNodeType::Star => owned("*"),
            ASTNodeType::Slash => owned("/"),
            ASTNodeType::Read => owned("Read"),
            ASTNodeType::Write => owned("Write"),
            ASTNodeType::Connector => owned("< >"),
            ASTNodeType::Equals => owned("="),
            _ => owned("Node"),
        }
    }
}

} // verus!
