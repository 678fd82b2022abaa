//! Expressions parse by operator precedence: in the parse tree of an
//! expression, each operator's operands hold only operators that bind tighter,
//! or as tightly where the operator groups toward that side.

use vstd::prelude::*;

use crate::element::BinaryOperand;
use crate::grammar::{
    exp_climb, exp_operand, exp_rest, spec_binary_operand_value, spec_exp, spec_unary_operand_value,
    tree_binary_operand, UNARY_PRECEDENCE,
};
use crate::parse::{rem, Outcome, Tree};
use crate::progress::{lemma_exp_climb_progresses, lemma_exp_operand_progresses};
use crate::token::Token;
use crate::tokenize::Tokens;
use crate::unfold::{lemma_exp_climb, lemma_exp_operand, lemma_exp_rest, lemma_spec_exp};

verus! {

/// The binary operator whose parse tree is `t`, if it is one.
pub open spec fn binop_of_tree(t: Tree) -> Option<BinaryOperand> {
    match t {
        Tree::Choice(_, x) => match *x {
            Tree::Leaf(Token::Plus(k)) => Some(BinaryOperand::Plus(k)),
            Tree::Leaf(Token::Minus(k)) => Some(BinaryOperand::Minus(k)),
            Tree::Leaf(Token::Asterisk(k)) => Some(BinaryOperand::Asterisk(k)),
            Tree::Leaf(Token::Slash(k)) => Some(BinaryOperand::Slash(k)),
            Tree::Leaf(Token::Carat(k)) => Some(BinaryOperand::Carat(k)),
            Tree::Leaf(Token::Percent(k)) => Some(BinaryOperand::Percent(k)),
            Tree::Leaf(Token::DoubleDot(k)) => Some(BinaryOperand::DoubleDot(k)),
            Tree::Leaf(Token::Less(k)) => Some(BinaryOperand::Less(k)),
            Tree::Leaf(Token::LessEqual(k)) => Some(BinaryOperand::LessEqual(k)),
            Tree::Leaf(Token::Greater(k)) => Some(BinaryOperand::Greater(k)),
            Tree::Leaf(Token::GreaterEqual(k)) => Some(BinaryOperand::GreaterEqual(k)),
            Tree::Leaf(Token::DoubleEqual(k)) => Some(BinaryOperand::DoubleEqual(k)),
            Tree::Leaf(Token::TildeEqual(k)) => Some(BinaryOperand::TildeEqual(k)),
            Tree::Leaf(Token::And(k)) => Some(BinaryOperand::And(k)),
            Tree::Leaf(Token::Or(k)) => Some(BinaryOperand::Or(k)),
            Tree::Leaf(Token::DoubleSlash(k)) => Some(BinaryOperand::DoubleSlash(k)),
            Tree::Leaf(Token::Pipe(k)) => Some(BinaryOperand::Pipe(k)),
            Tree::Leaf(Token::Tilde(k)) => Some(BinaryOperand::Tilde(k)),
            Tree::Leaf(Token::Ampersand(k)) => Some(BinaryOperand::Ampersand(k)),
            Tree::Leaf(Token::DoubleLess(k)) => Some(BinaryOperand::DoubleLess(k)),
            Tree::Leaf(Token::DoubleGreater(k)) => Some(BinaryOperand::DoubleGreater(k)),
            _ => None,
        },
        _ => None,
    }
}

/// The binary operator that joins the two operands of expression tree `t`, if
/// `t` is such a join.
pub open spec fn top_binop(t: Tree) -> Option<BinaryOperand> {
    match t {
        Tree::Choice(i, x) => if i == 2 {
            match *x {
                Tree::Node(s) => if s.len() == 3 {
                    binop_of_tree(s[1])
                } else {
                    None
                },
                _ => None,
            }
        } else {
            None
        },
        _ => None,
    }
}

/// Whether expression tree `t` applies a unary operator.
pub open spec fn is_unary_tree(t: Tree) -> bool {
    t matches Tree::Choice(i, _) && i == 1
}

/// Operand `c` may stand on the given side of operator `o`: if `c` joins two
/// operands itself, its operator binds tighter than `o`, or as tightly where
/// `o` groups toward that side (to the left for a left operand).
pub open spec fn binds_under(c: Tree, o: BinaryOperand, right: bool) -> bool {
    match top_binop(c) {
        Some(co) => co.spec_precedence() > o.spec_precedence() || (co.spec_precedence()
            == o.spec_precedence() && o.spec_left_assoc() != right),
        None => true,
    }
}

/// Expression tree `t` follows operator precedence down to its atoms: each
/// binary operator's operands may stand on their sides of it, a unary
/// operator is no operand on the left of a binary operator that binds tighter
/// than it (`^`), and what a unary operator applies to joins operands only by
/// `^`.
pub open spec fn follows_precedence(t: Tree) -> bool
    decreases t,
{
    match t {
        Tree::Choice(i, x) => match *x {
            Tree::Node(s) => if i == 1 && s.len() == 2 {
                &&& follows_precedence(s[1])
                &&& top_binop(s[1]) matches Some(o) ==> o.spec_precedence() > UNARY_PRECEDENCE
            } else if i == 2 && s.len() == 3 {
                &&& binop_of_tree(s[1]) is Some
                &&& follows_precedence(s[0])
                &&& follows_precedence(s[2])
                &&& binds_under(s[0], binop_of_tree(s[1])->0, false)
                &&& binds_under(s[2], binop_of_tree(s[1])->0, true)
                &&& is_unary_tree(s[0]) ==> binop_of_tree(s[1])->0.spec_precedence() < UNARY_PRECEDENCE
            } else {
                true
            },
            _ => true,
        },
        _ => true,
    }
}

/// No binary operator that binds at least as tightly as `min` is next at `q`.
pub open spec fn stops_before(input: Tokens, q: nat, min: nat) -> bool {
    spec_binary_operand_value(input, q) matches Outcome::Returns(Ok(b), _) ==> b.spec_precedence() < min
}

/// Where the binary operator next at `pos` binds at least as tightly as
/// `min`, `left` may stand on its left.
pub open spec fn joins_next(input: Tokens, pos: nat, left: Tree, min: nat) -> bool {
    match spec_binary_operand_value(input, pos) {
        Outcome::Returns(Ok(b), _) => b.spec_precedence() >= min ==> {
            &&& binds_under(left, b, false)
            &&& is_unary_tree(left) ==> b.spec_precedence() < UNARY_PRECEDENCE
        },
        _ => true,
    }
}

proof fn lemma_binop_of_tree(b: BinaryOperand)
    ensures
        binop_of_tree(tree_binary_operand(b)) == Some(b),
{
    reveal(tree_binary_operand);
}

proof fn lemma_levels(a: BinaryOperand, b: BinaryOperand)
    ensures
        a.spec_precedence() != UNARY_PRECEDENCE,
        a.spec_precedence() == b.spec_precedence() ==> a.spec_left_assoc() == b.spec_left_assoc(),
{
}

proof fn lemma_operand_precedence(input: Tokens, pos: nat)
    ensures
        exp_operand(input, pos) matches Outcome::Returns(Ok(t), q) ==> {
            &&& follows_precedence(t)
            &&& top_binop(t) is None
            &&& is_unary_tree(t) ==> stops_before(input, q, UNARY_PRECEDENCE as nat + 1)
        },
    decreases rem(input, pos), 4nat,
{
    lemma_exp_operand(input, pos);
    if let Outcome::Returns(Ok(_), p) = spec_unary_operand_value(input, pos) {
        lemma_climb_precedence(input, p, UNARY_PRECEDENCE as nat + 1);
    }
}

proof fn lemma_climb_precedence(input: Tokens, pos: nat, min: nat)
    ensures
        exp_climb(input, pos, min) matches Outcome::Returns(Ok(t), q) ==> {
            &&& follows_precedence(t)
            &&& top_binop(t) matches Some(o) ==> o.spec_precedence() >= min
            &&& stops_before(input, q, min)
        },
    decreases rem(input, pos), 5nat,
{
    lemma_exp_climb(input, pos, min);
    lemma_operand_precedence(input, pos);
    lemma_exp_operand_progresses(input, pos);
    if let Outcome::Returns(Ok(left), p) = exp_operand(input, pos) {
        if let Outcome::Returns(Ok(b), _) = spec_binary_operand_value(input, p) {
            lemma_levels(b, b);
        }
        lemma_rest_precedence(input, p, left, min);
    }
}

proof fn lemma_rest_precedence(input: Tokens, pos: nat, left: Tree, min: nat)
    requires
        follows_precedence(left),
        top_binop(left) matches Some(o) ==> o.spec_precedence() >= min,
        joins_next(input, pos, left, min),
    ensures
        exp_rest(input, pos, left, min) matches Outcome::Returns(Ok(t), q) ==> {
            &&& follows_precedence(t)
            &&& top_binop(t) matches Some(o) ==> o.spec_precedence() >= min
            &&& stops_before(input, q, min)
        },
    decreases rem(input, pos), 0nat,
{
    lemma_exp_rest(input, pos, left, min);
    if let Outcome::Returns(Ok(b), p) = spec_binary_operand_value(input, pos) {
        if b.spec_precedence() >= min {
            let next: nat = if b.spec_left_assoc() {
                (b.spec_precedence() + 1) as nat
            } else {
                b.spec_precedence() as nat
            };
            lemma_climb_precedence(input, p, next);
            lemma_exp_climb_progresses(input, p, next);
            if let Outcome::Returns(Ok(right), q) = exp_climb(input, p, next) {
                let joined = Tree::Choice(
                    2,
                    Box::new(Tree::Node(seq![left, tree_binary_operand(b), right])),
                );
                lemma_binop_of_tree(b);
                if let Outcome::Returns(Ok(b2), _) = spec_binary_operand_value(input, q) {
                    lemma_levels(b, b2);
                }
                lemma_rest_precedence(input, q, joined, min);
            }
        }
    }
}

/// Expressions parse by operator precedence: the parse tree of an expression
/// follows the precedence and grouping of its operators (see
/// [`follows_precedence`]).
pub proof fn exp_parse_follows_precedence(input: Tokens, pos: nat)
    ensures
        spec_exp(input, pos) matches Outcome::Returns(Ok(t), _) ==> follows_precedence(t),
{
    lemma_spec_exp(input, pos);
    lemma_climb_precedence(input, pos, 0);
}

/// A or operator: `Or`.
pub open spec fn is_or_op(b: BinaryOperand) -> bool {
    b is Or
}

/// A and operator: `And`.
pub open spec fn is_and_op(b: BinaryOperand) -> bool {
    b is And
}

/// A comparison operator: `Less`, `LessEqual`, `Greater`, `GreaterEqual`, `TildeEqual`, `DoubleEqual`.
pub open spec fn is_comparison_op(b: BinaryOperand) -> bool {
    b is Less || b is LessEqual || b is Greater || b is GreaterEqual || b is TildeEqual || b is DoubleEqual
}

/// A bitwise or operator: `Pipe`.
pub open spec fn is_bitwise_or_op(b: BinaryOperand) -> bool {
    b is Pipe
}

/// A bitwise exclusive or operator: `Tilde`.
pub open spec fn is_bitwise_exclusive_or_op(b: BinaryOperand) -> bool {
    b is Tilde
}

/// A bitwise and operator: `Ampersand`.
pub open spec fn is_bitwise_and_op(b: BinaryOperand) -> bool {
    b is Ampersand
}

/// A shift operator: `DoubleLess`, `DoubleGreater`.
pub open spec fn is_shift_op(b: BinaryOperand) -> bool {
    b is DoubleLess || b is DoubleGreater
}

/// A concatenation operator: `DoubleDot`.
pub open spec fn is_concatenation_op(b: BinaryOperand) -> bool {
    b is DoubleDot
}

/// A additive operator: `Plus`, `Minus`.
pub open spec fn is_additive_op(b: BinaryOperand) -> bool {
    b is Plus || b is Minus
}

/// A multiplicative operator: `Asterisk`, `Slash`, `DoubleSlash`, `Percent`.
pub open spec fn is_multiplicative_op(b: BinaryOperand) -> bool {
    b is Asterisk || b is Slash || b is DoubleSlash || b is Percent
}

/// A power operator: `Carat`.
pub open spec fn is_power_op(b: BinaryOperand) -> bool {
    b is Carat
}

/// Lua's operator precedence, from loosest to tightest: `or`; `and`;
/// comparisons; `|`; `~`; `&`; shifts; `..`; `+ -`; `* / // %`; unary
/// operators; `^`. Operators of one level bind alike, each level binds
/// tighter than the one before it, and only `..` and `^` group to the right.
pub proof fn operator_precedence_is_lua()
    ensures
        forall|a: BinaryOperand, c: BinaryOperand|
            #[trigger] is_or_op(a) && #[trigger] is_or_op(c) ==> a.spec_precedence() == c.spec_precedence(),
        forall|a: BinaryOperand, c: BinaryOperand|
            #[trigger] is_and_op(a) && #[trigger] is_and_op(c) ==> a.spec_precedence() == c.spec_precedence(),
        forall|a: BinaryOperand, c: BinaryOperand|
            #[trigger] is_comparison_op(a) && #[trigger] is_comparison_op(c) ==> a.spec_precedence() == c.spec_precedence(),
        forall|a: BinaryOperand, c: BinaryOperand|
            #[trigger] is_bitwise_or_op(a) && #[trigger] is_bitwise_or_op(c) ==> a.spec_precedence() == c.spec_precedence(),
        forall|a: BinaryOperand, c: BinaryOperand|
            #[trigger] is_bitwise_exclusive_or_op(a) && #[trigger] is_bitwise_exclusive_or_op(c) ==> a.spec_precedence() == c.spec_precedence(),
        forall|a: BinaryOperand, c: BinaryOperand|
            #[trigger] is_bitwise_and_op(a) && #[trigger] is_bitwise_and_op(c) ==> a.spec_precedence() == c.spec_precedence(),
        forall|a: BinaryOperand, c: BinaryOperand|
            #[trigger] is_shift_op(a) && #[trigger] is_shift_op(c) ==> a.spec_precedence() == c.spec_precedence(),
        forall|a: BinaryOperand, c: BinaryOperand|
            #[trigger] is_concatenation_op(a) && #[trigger] is_concatenation_op(c) ==> a.spec_precedence() == c.spec_precedence(),
        forall|a: BinaryOperand, c: BinaryOperand|
            #[trigger] is_additive_op(a) && #[trigger] is_additive_op(c) ==> a.spec_precedence() == c.spec_precedence(),
        forall|a: BinaryOperand, c: BinaryOperand|
            #[trigger] is_multiplicative_op(a) && #[trigger] is_multiplicative_op(c) ==> a.spec_precedence() == c.spec_precedence(),
        forall|a: BinaryOperand, c: BinaryOperand|
            #[trigger] is_power_op(a) && #[trigger] is_power_op(c) ==> a.spec_precedence() == c.spec_precedence(),
        forall|a: BinaryOperand, c: BinaryOperand|
            #[trigger] is_or_op(a) && #[trigger] is_and_op(c) ==> a.spec_precedence() < c.spec_precedence(),
        forall|a: BinaryOperand, c: BinaryOperand|
            #[trigger] is_and_op(a) && #[trigger] is_comparison_op(c) ==> a.spec_precedence() < c.spec_precedence(),
        forall|a: BinaryOperand, c: BinaryOperand|
            #[trigger] is_comparison_op(a) && #[trigger] is_bitwise_or_op(c) ==> a.spec_precedence() < c.spec_precedence(),
        forall|a: BinaryOperand, c: BinaryOperand|
            #[trigger] is_bitwise_or_op(a) && #[trigger] is_bitwise_exclusive_or_op(c) ==> a.spec_precedence() < c.spec_precedence(),
        forall|a: BinaryOperand, c: BinaryOperand|
            #[trigger] is_bitwise_exclusive_or_op(a) && #[trigger] is_bitwise_and_op(c) ==> a.spec_precedence() < c.spec_precedence(),
        forall|a: BinaryOperand, c: BinaryOperand|
            #[trigger] is_bitwise_and_op(a) && #[trigger] is_shift_op(c) ==> a.spec_precedence() < c.spec_precedence(),
        forall|a: BinaryOperand, c: BinaryOperand|
            #[trigger] is_shift_op(a) && #[trigger] is_concatenation_op(c) ==> a.spec_precedence() < c.spec_precedence(),
        forall|a: BinaryOperand, c: BinaryOperand|
            #[trigger] is_concatenation_op(a) && #[trigger] is_additive_op(c) ==> a.spec_precedence() < c.spec_precedence(),
        forall|a: BinaryOperand, c: BinaryOperand|
            #[trigger] is_additive_op(a) && #[trigger] is_multiplicative_op(c) ==> a.spec_precedence() < c.spec_precedence(),
        forall|a: BinaryOperand, c: BinaryOperand|
            #[trigger] is_multiplicative_op(a) && #[trigger] is_power_op(c) ==> a.spec_precedence() < c.spec_precedence(),
        forall|a: BinaryOperand| #[trigger] is_multiplicative_op(a) ==> a.spec_precedence() < UNARY_PRECEDENCE,
        forall|a: BinaryOperand| #[trigger] is_power_op(a) ==> UNARY_PRECEDENCE < a.spec_precedence(),
        forall|a: BinaryOperand| #[trigger] a.spec_left_assoc() <==> !(is_power_op(a) || is_concatenation_op(a)),
{
}

} // verus!
