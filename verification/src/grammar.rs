//! The grammar: the parse tree of each syntax element, and what parsing each
//! element from a position of the token sequence does.
//!
//! Alternatives are tried in declaration order; a struct is its fields in
//! order; a failed alternative or struct puts the cursor back where it began.
//!
//! Where a parse goes on with a part that may lead back to the same element,
//! a guard checks that the cursor moved on (or stayed, for a part that comes
//! earlier in the grammar); that is what makes the definitions end. Its other
//! branch, `Outcome::Panics`, stands for a parse that would go on for ever;
//! after a token the guard always holds.

use vstd::prelude::*;

use crate::element::{
    ArgList, Attribute, BinaryOperand, BracketField, Chunk, ElseBranch, ElseIfBranch, Exp, ExpAtom,
    ExpFunction, ExpLiteral, Field, FieldSep, FunctionArgs, FunctionBody, FunctionCall,
    FunctionCallBody, FunctionName, IfBranch, LastStatement, MapField, ParList, PrefixExp,
    PrefixExpKind, PrefixExpSuffix, PrefixParens, Separated, SeparatedNoTrailing,
    SeparatedTrailing, StAssign, StBlock, StBreak, StForInLoop, StForRangeLoop, StFunctionDef,
    StGoto, StIfElse, StLabel, StLocalFunctionDef, StLocalInit, StRepeatLoop, StReturn,
    StWhileLoop, Statement, TableConstructor, UnaryOperand, Var, VarAccess, VarAccessBody,
    VarIndex, VarIndexBody,
};
use crate::parse::{
    Parseable, as_node, moved, perr, prepend_pairs, prepend_trees, rem, Outcome, Tree,
};
use crate::token;
use crate::token::Token;
use crate::tokenize::{peek_at, Tokens};

verus! {

/// The parse tree of a `Chunk`.
#[verifier::opaque]
pub open spec fn tree_chunk(v: Chunk) -> Tree
    decreases v,
{
    Tree::Node(seq![tree_stmts(v.statements), tree_opt_last(v.last_statement)])
}

/// The parse tree of a `StAssign`.
#[verifier::opaque]
pub open spec fn tree_st_assign(v: StAssign) -> Tree
    decreases v,
{
    Tree::Node(seq![tree_var_list(v.vars), Tree::Leaf(Token::Equal(v.eq)), tree_exp_list(v.exps)])
}

/// The parse tree of a `StBlock`.
#[verifier::opaque]
pub open spec fn tree_st_block(v: StBlock) -> Tree
    decreases v,
{
    Tree::Node(seq![Tree::Leaf(Token::Do(v.kw_do)), tree_chunk(v.body), Tree::Leaf(Token::End(v.kw_end))])
}

/// The parse tree of an `Attribute`.
#[verifier::opaque]
pub open spec fn tree_attribute(v: Attribute) -> Tree
{
    Tree::Node(seq![Tree::Leaf(Token::Less(v.open_angle)), Tree::Leaf(Token::Name(v.name)), Tree::Leaf(Token::Greater(v.close_angle))])
}

/// The parse tree of a `StWhileLoop`.
#[verifier::opaque]
pub open spec fn tree_st_while_loop(v: StWhileLoop) -> Tree
    decreases v,
{
    Tree::Node(seq![Tree::Leaf(Token::While(v.kw_while)), tree_exp(v.exp), Tree::Leaf(Token::Do(v.kw_do)), tree_chunk(v.body), Tree::Leaf(Token::End(v.kw_end))])
}

/// The parse tree of a `StRepeatLoop`.
#[verifier::opaque]
pub open spec fn tree_st_repeat_loop(v: StRepeatLoop) -> Tree
    decreases v,
{
    Tree::Node(seq![Tree::Leaf(Token::Repeat(v.kw_repeat)), tree_chunk(v.body), Tree::Leaf(Token::Until(v.kw_until)), tree_exp(v.exp)])
}

/// The parse tree of a `StForRangeLoop`.
#[verifier::opaque]
pub open spec fn tree_st_for_range_loop(v: StForRangeLoop) -> Tree
    decreases v,
{
    Tree::Node(seq![Tree::Leaf(Token::For(v.kw_for)), Tree::Leaf(Token::Name(v.name)), Tree::Leaf(Token::Equal(v.eq)), tree_exp(v.start), Tree::Leaf(Token::Comma(v.comma)), tree_exp(v.stop), tree_opt_step(v.step), Tree::Leaf(Token::Do(v.kw_do)), tree_chunk(v.body), Tree::Leaf(Token::End(v.kw_end))])
}

/// The parse tree of a `StForInLoop`.
#[verifier::opaque]
pub open spec fn tree_st_for_in_loop(v: StForInLoop) -> Tree
    decreases v,
{
    Tree::Node(seq![Tree::Leaf(Token::For(v.kw_for)), tree_name_list(v.namelist), Tree::Leaf(Token::In(v.kw_in)), tree_exp_list(v.explist), Tree::Leaf(Token::Do(v.kw_do)), tree_chunk(v.body), Tree::Leaf(Token::End(v.kw_end))])
}

/// The parse tree of a `StIfElse`.
#[verifier::opaque]
pub open spec fn tree_st_if_else(v: StIfElse) -> Tree
    decreases v,
{
    Tree::Node(seq![tree_if_branch(v.if_branch), tree_elseifs(v.elseif_branches), tree_opt_else(v.else_branch)])
}

/// The parse tree of an `IfBranch`.
#[verifier::opaque]
pub open spec fn tree_if_branch(v: IfBranch) -> Tree
    decreases v,
{
    Tree::Node(seq![Tree::Leaf(Token::If(v.kw_if)), tree_exp(v.condition), Tree::Leaf(Token::Then(v.kw_then)), tree_chunk(v.body)])
}

/// The parse tree of an `ElseIfBranch`.
#[verifier::opaque]
pub open spec fn tree_else_if_branch(v: ElseIfBranch) -> Tree
    decreases v,
{
    Tree::Node(seq![Tree::Leaf(Token::ElseIf(v.kw_elseif)), tree_exp(v.condition), Tree::Leaf(Token::Then(v.kw_then)), tree_chunk(v.body)])
}

/// The parse tree of an `ElseBranch`.
#[verifier::opaque]
pub open spec fn tree_else_branch(v: ElseBranch) -> Tree
    decreases v,
{
    Tree::Node(seq![Tree::Leaf(Token::Else(v.kw_else)), tree_chunk(v.body)])
}

/// The parse tree of a `FunctionCall`.
#[verifier::opaque]
pub open spec fn tree_function_call(v: FunctionCall) -> Tree
    decreases v,
{
    Tree::Node(seq![tree_prefix_exp(*v.prefix), tree_function_call_body(v.body)])
}

/// The parse tree of a `FunctionCallBody`.
#[verifier::opaque]
pub open spec fn tree_function_call_body(v: FunctionCallBody) -> Tree
    decreases v,
{
    Tree::Node(seq![tree_opt_qualifier(v.qualifier), tree_function_args(v.args)])
}

/// The parse tree of an `ArgList`.
#[verifier::opaque]
pub open spec fn tree_arg_list(v: ArgList) -> Tree
    decreases v,
{
    Tree::Node(seq![Tree::Leaf(Token::OpenParen(v.open_paren)), tree_exp_list(v.arguments), Tree::Leaf(Token::CloseParen(v.close_paren))])
}

/// The parse tree of a `StFunctionDef`.
#[verifier::opaque]
pub open spec fn tree_st_function_def(v: StFunctionDef) -> Tree
    decreases v,
{
    Tree::Node(seq![Tree::Leaf(Token::Function(v.kw_function)), tree_function_name(v.name), tree_function_body(v.body)])
}

/// The parse tree of a `StLocalFunctionDef`.
#[verifier::opaque]
pub open spec fn tree_st_local_function_def(v: StLocalFunctionDef) -> Tree
    decreases v,
{
    Tree::Node(seq![Tree::Leaf(Token::Local(v.local)), Tree::Leaf(Token::Function(v.function)), Tree::Leaf(Token::Name(v.name)), tree_function_body(v.body)])
}

/// The parse tree of a `StLocalInit`.
#[verifier::opaque]
pub open spec fn tree_st_local_init(v: StLocalInit) -> Tree
    decreases v,
{
    Tree::Node(seq![Tree::Leaf(Token::Local(v.kw_local)), tree_attr_name_list(v.attrnames), tree_local_init(v.init)])
}

/// The parse tree of a `StGoto`.
#[verifier::opaque]
pub open spec fn tree_st_goto(v: StGoto) -> Tree
{
    Tree::Node(seq![Tree::Leaf(Token::Goto(v.kw_goto)), Tree::Leaf(Token::Name(v.label))])
}

/// The parse tree of a `StLabel`.
#[verifier::opaque]
pub open spec fn tree_st_label(v: StLabel) -> Tree
{
    Tree::Node(seq![Tree::Leaf(Token::DoubleColon(v.start_dcolon)), Tree::Leaf(Token::Name(v.name)), Tree::Leaf(Token::DoubleColon(v.end_dcolon))])
}

/// The parse tree of a `StReturn`.
#[verifier::opaque]
pub open spec fn tree_st_return(v: StReturn) -> Tree
    decreases v,
{
    Tree::Node(seq![Tree::Leaf(Token::Return(v.kw_return)), tree_exp_list(v.value)])
}

/// The parse tree of a `StBreak`.
#[verifier::opaque]
pub open spec fn tree_st_break(v: StBreak) -> Tree
{
    Tree::Node(seq![Tree::Leaf(Token::Break(v.kw_break))])
}

/// The parse tree of a `FunctionBody`.
#[verifier::opaque]
pub open spec fn tree_function_body(v: FunctionBody) -> Tree
    decreases v,
{
    Tree::Node(seq![Tree::Leaf(Token::OpenParen(v.open_paren)), tree_par_list(v.parlist), Tree::Leaf(Token::CloseParen(v.close_paren)), tree_chunk(v.block), Tree::Leaf(Token::End(v.kw_end))])
}

/// The parse tree of a `ParList`.
#[verifier::opaque]
pub open spec fn tree_par_list(v: ParList) -> Tree
{
    Tree::Node(seq![tree_name_list(v.names), tree_opt_ellipses(v.ellipses)])
}

/// The parse tree of a `VarIndex`.
#[verifier::opaque]
pub open spec fn tree_var_index(v: VarIndex) -> Tree
    decreases v,
{
    Tree::Node(seq![tree_prefix_exp(*v.prefix), tree_var_index_body(v.body)])
}

/// The parse tree of a `VarIndexBody`.
#[verifier::opaque]
pub open spec fn tree_var_index_body(v: VarIndexBody) -> Tree
    decreases v,
{
    Tree::Node(seq![Tree::Leaf(Token::OpenBracket(v.open_bracket)), tree_exp(v.index), Tree::Leaf(Token::CloseBracket(v.close_bracket))])
}

/// The parse tree of a `VarAccess`.
#[verifier::opaque]
pub open spec fn tree_var_access(v: VarAccess) -> Tree
    decreases v,
{
    Tree::Node(seq![tree_prefix_exp(*v.prefix), tree_var_access_body(v.body)])
}

/// The parse tree of a `VarAccessBody`.
#[verifier::opaque]
pub open spec fn tree_var_access_body(v: VarAccessBody) -> Tree
{
    Tree::Node(seq![Tree::Leaf(Token::Dot(v.dot)), Tree::Leaf(Token::Name(v.name))])
}

/// The parse tree of a `PrefixExp`.
#[verifier::opaque]
pub open spec fn tree_prefix_exp(v: PrefixExp) -> Tree
    decreases v,
{
    Tree::Node(seq![tree_prefix_exp_kind(v.kind), tree_suffixes(v.calls)])
}

/// The parse tree of a `PrefixParens`.
#[verifier::opaque]
pub open spec fn tree_prefix_parens(v: PrefixParens) -> Tree
    decreases v,
{
    Tree::Node(seq![Tree::Leaf(Token::OpenParen(v.open_paren)), tree_exp(v.inner), Tree::Leaf(Token::CloseParen(v.close_paren))])
}

/// The parse tree of an `ExpFunction`.
#[verifier::opaque]
pub open spec fn tree_exp_function(v: ExpFunction) -> Tree
    decreases v,
{
    Tree::Node(seq![Tree::Leaf(Token::Function(v.kw_function)), tree_function_body(*v.body)])
}

/// The parse tree of a `TableConstructor`.
#[verifier::opaque]
pub open spec fn tree_table_constructor(v: TableConstructor) -> Tree
    decreases v,
{
    Tree::Node(seq![Tree::Leaf(Token::OpenBrace(v.open_brace)), tree_fields(v.fields), Tree::Leaf(Token::CloseBrace(v.close_brace))])
}

/// The parse tree of a `MapField`.
#[verifier::opaque]
pub open spec fn tree_map_field(v: MapField) -> Tree
    decreases v,
{
    Tree::Node(seq![Tree::Leaf(Token::Name(v.name)), Tree::Leaf(Token::Equal(v.eq)), tree_exp(v.exp)])
}

/// The parse tree of a `BracketField`.
#[verifier::opaque]
pub open spec fn tree_bracket_field(v: BracketField) -> Tree
    decreases v,
{
    Tree::Node(seq![Tree::Leaf(Token::OpenBracket(v.open_bracket)), tree_exp(v.key), Tree::Leaf(Token::CloseBracket(v.close_bracket)), Tree::Leaf(Token::Equal(v.eq)), tree_exp(v.value)])
}

/// The parse tree of a `Statement`.
#[verifier::opaque]
pub open spec fn tree_statement(v: Statement) -> Tree
    decreases v,
{
    match v {
        Statement::Assign(x) => Tree::Choice(0, Box::new(tree_st_assign(x))),
        Statement::FunctionCall(x) => Tree::Choice(1, Box::new(tree_function_call(x))),
        Statement::Block(x) => Tree::Choice(2, Box::new(tree_st_block(x))),
        Statement::WhileLoop(x) => Tree::Choice(3, Box::new(tree_st_while_loop(x))),
        Statement::RepeatLoop(x) => Tree::Choice(4, Box::new(tree_st_repeat_loop(x))),
        Statement::IfElse(x) => Tree::Choice(5, Box::new(tree_st_if_else(x))),
        Statement::ForRangeLoop(x) => Tree::Choice(6, Box::new(tree_st_for_range_loop(x))),
        Statement::ForInLoop(x) => Tree::Choice(7, Box::new(tree_st_for_in_loop(x))),
        Statement::FunctionDef(x) => Tree::Choice(8, Box::new(tree_st_function_def(x))),
        Statement::LocalFunctionDef(x) => Tree::Choice(9, Box::new(tree_st_local_function_def(x))),
        Statement::LocalInit(x) => Tree::Choice(10, Box::new(tree_st_local_init(x))),
        Statement::Goto(x) => Tree::Choice(11, Box::new(tree_st_goto(x))),
        Statement::Label(x) => Tree::Choice(12, Box::new(tree_st_label(x))),
        Statement::Break(x) => Tree::Choice(13, Box::new(tree_st_break(x))),
    }
}

/// The parse tree of a `FunctionArgs`.
#[verifier::opaque]
pub open spec fn tree_function_args(v: FunctionArgs) -> Tree
    decreases v,
{
    match v {
        FunctionArgs::List(x) => Tree::Choice(0, Box::new(tree_arg_list(x))),
        FunctionArgs::Table(x) => Tree::Choice(1, Box::new(tree_table_constructor(x))),
        FunctionArgs::String(x) => Tree::Choice(2, Box::new(Tree::Leaf(Token::LiteralString(x)))),
    }
}

/// The parse tree of a `LastStatement`.
#[verifier::opaque]
pub open spec fn tree_last_statement(v: LastStatement) -> Tree
    decreases v,
{
    match v {
        LastStatement::Return(x) => Tree::Choice(0, Box::new(tree_st_return(x))),
    }
}

/// The parse tree of a `Var`.
#[verifier::opaque]
pub open spec fn tree_var(v: Var) -> Tree
    decreases v,
{
    match v {
        Var::Name(x) => Tree::Choice(0, Box::new(Tree::Leaf(Token::Name(x)))),
        Var::Index(x) => Tree::Choice(1, Box::new(tree_var_index(x))),
        Var::Access(x) => Tree::Choice(2, Box::new(tree_var_access(x))),
    }
}

/// The parse tree of a `PrefixExpKind`.
#[verifier::opaque]
pub open spec fn tree_prefix_exp_kind(v: PrefixExpKind) -> Tree
    decreases v,
{
    match v {
        PrefixExpKind::Name(x) => Tree::Choice(0, Box::new(Tree::Leaf(Token::Name(x)))),
        PrefixExpKind::Parens(x) => Tree::Choice(1, Box::new(tree_prefix_parens(x))),
    }
}

/// The parse tree of a `PrefixExpSuffix`.
#[verifier::opaque]
pub open spec fn tree_prefix_exp_suffix(v: PrefixExpSuffix) -> Tree
    decreases v,
{
    match v {
        PrefixExpSuffix::FunctionCall(x) => Tree::Choice(0, Box::new(tree_function_call_body(x))),
        PrefixExpSuffix::Index(x) => Tree::Choice(1, Box::new(tree_var_index_body(x))),
        PrefixExpSuffix::Access(x) => Tree::Choice(2, Box::new(tree_var_access_body(x))),
    }
}

/// The parse tree of an `ExpAtom`.
#[verifier::opaque]
pub open spec fn tree_exp_atom(v: ExpAtom) -> Tree
    decreases v,
{
    match v {
        ExpAtom::Nil(x) => Tree::Choice(0, Box::new(Tree::Leaf(Token::Nil(x)))),
        ExpAtom::True(x) => Tree::Choice(1, Box::new(Tree::Leaf(Token::True(x)))),
        ExpAtom::False(x) => Tree::Choice(2, Box::new(Tree::Leaf(Token::False(x)))),
        ExpAtom::Literal(x) => Tree::Choice(3, Box::new(tree_exp_literal(x))),
        ExpAtom::Ellipses(x) => Tree::Choice(4, Box::new(Tree::Leaf(Token::Ellipses(x)))),
        ExpAtom::Function(x) => Tree::Choice(5, Box::new(tree_exp_function(x))),
        ExpAtom::Prefix(x) => Tree::Choice(6, Box::new(tree_prefix_exp(*x))),
        ExpAtom::Table(x) => Tree::Choice(7, Box::new(tree_table_constructor(*x))),
    }
}

/// The parse tree of a `BinaryOperand`.
#[verifier::opaque]
pub open spec fn tree_binary_operand(v: BinaryOperand) -> Tree
{
    match v {
        BinaryOperand::Plus(x) => Tree::Choice(0, Box::new(Tree::Leaf(Token::Plus(x)))),
        BinaryOperand::Minus(x) => Tree::Choice(1, Box::new(Tree::Leaf(Token::Minus(x)))),
        BinaryOperand::Asterisk(x) => Tree::Choice(2, Box::new(Tree::Leaf(Token::Asterisk(x)))),
        BinaryOperand::Slash(x) => Tree::Choice(3, Box::new(Tree::Leaf(Token::Slash(x)))),
        BinaryOperand::Carat(x) => Tree::Choice(4, Box::new(Tree::Leaf(Token::Carat(x)))),
        BinaryOperand::Percent(x) => Tree::Choice(5, Box::new(Tree::Leaf(Token::Percent(x)))),
        BinaryOperand::DoubleDot(x) => Tree::Choice(6, Box::new(Tree::Leaf(Token::DoubleDot(x)))),
        BinaryOperand::Less(x) => Tree::Choice(7, Box::new(Tree::Leaf(Token::Less(x)))),
        BinaryOperand::LessEqual(x) => Tree::Choice(8, Box::new(Tree::Leaf(Token::LessEqual(x)))),
        BinaryOperand::Greater(x) => Tree::Choice(9, Box::new(Tree::Leaf(Token::Greater(x)))),
        BinaryOperand::GreaterEqual(x) => Tree::Choice(10, Box::new(Tree::Leaf(Token::GreaterEqual(x)))),
        BinaryOperand::DoubleEqual(x) => Tree::Choice(11, Box::new(Tree::Leaf(Token::DoubleEqual(x)))),
        BinaryOperand::TildeEqual(x) => Tree::Choice(12, Box::new(Tree::Leaf(Token::TildeEqual(x)))),
        BinaryOperand::And(x) => Tree::Choice(13, Box::new(Tree::Leaf(Token::And(x)))),
        BinaryOperand::Or(x) => Tree::Choice(14, Box::new(Tree::Leaf(Token::Or(x)))),
        BinaryOperand::DoubleSlash(x) => Tree::Choice(15, Box::new(Tree::Leaf(Token::DoubleSlash(x)))),
        BinaryOperand::Pipe(x) => Tree::Choice(16, Box::new(Tree::Leaf(Token::Pipe(x)))),
        BinaryOperand::Tilde(x) => Tree::Choice(17, Box::new(Tree::Leaf(Token::Tilde(x)))),
        BinaryOperand::Ampersand(x) => Tree::Choice(18, Box::new(Tree::Leaf(Token::Ampersand(x)))),
        BinaryOperand::DoubleLess(x) => Tree::Choice(19, Box::new(Tree::Leaf(Token::DoubleLess(x)))),
        BinaryOperand::DoubleGreater(x) => Tree::Choice(20, Box::new(Tree::Leaf(Token::DoubleGreater(x)))),
    }
}

/// The parse tree of an `UnaryOperand`.
#[verifier::opaque]
pub open spec fn tree_unary_operand(v: UnaryOperand) -> Tree
{
    match v {
        UnaryOperand::Minus(x) => Tree::Choice(0, Box::new(Tree::Leaf(Token::Minus(x)))),
        UnaryOperand::Not(x) => Tree::Choice(1, Box::new(Tree::Leaf(Token::Not(x)))),
        UnaryOperand::Hashtag(x) => Tree::Choice(2, Box::new(Tree::Leaf(Token::Hashtag(x)))),
        UnaryOperand::Tilde(x) => Tree::Choice(3, Box::new(Tree::Leaf(Token::Tilde(x)))),
    }
}

/// The parse tree of a `FieldSep`.
#[verifier::opaque]
pub open spec fn tree_field_sep(v: FieldSep) -> Tree
{
    match v {
        FieldSep::Comma(x) => Tree::Choice(0, Box::new(Tree::Leaf(Token::Comma(x)))),
        FieldSep::Semicolon(x) => Tree::Choice(1, Box::new(Tree::Leaf(Token::Semicolon(x)))),
    }
}

/// The parse tree of a `Field`.
#[verifier::opaque]
pub open spec fn tree_field(v: Field) -> Tree
    decreases v,
{
    match v {
        Field::ArrayLike(x) => Tree::Choice(0, Box::new(tree_exp(x))),
        Field::MapLike(x) => Tree::Choice(1, Box::new(tree_map_field(x))),
        Field::Bracketed(x) => Tree::Choice(2, Box::new(tree_bracket_field(x))),
    }
}

/// The parse tree of an `ExpLiteral`.
#[verifier::opaque]
pub open spec fn tree_exp_literal(v: ExpLiteral) -> Tree
{
    match v {
        ExpLiteral::Number(x) => Tree::Choice(0, Box::new(Tree::Leaf(Token::LiteralNumber(x)))),
        ExpLiteral::String(x) => Tree::Choice(1, Box::new(Tree::Leaf(Token::LiteralString(x)))),
    }
}

/// The parse tree of an `Exp`.
#[verifier::opaque]
pub open spec fn tree_exp(v: Exp) -> Tree
    decreases v,
{
    match v {
        Exp::Atom(a) => Tree::Choice(0, Box::new(tree_exp_atom(a))),
        Exp::Unary(u) => Tree::Choice(
            1,
            Box::new(Tree::Node(seq![tree_unary_operand(u.operand), tree_exp(*u.value)])),
        ),
        Exp::Binary(b) => Tree::Choice(
            2,
            Box::new(
                Tree::Node(seq![tree_exp(*b.left), tree_binary_operand(b.operand), tree_exp(*b.right)]),
            ),
        ),
    }
}

/// The parse tree of a `FunctionName`.
#[verifier::opaque]
pub open spec fn tree_function_name(v: FunctionName) -> Tree
{
    Tree::Node(seq![tree_func_path(v.path), tree_opt_qualifier(v.suffix)])
}

#[verifier::opaque]
pub open spec fn tree_stmts(v: Vec<(Statement, Option<token::Semicolon>)>) -> Tree
    decreases v,
{
    Tree::Node(trees_stmts(v@))
}

#[verifier::opaque]
pub open spec fn trees_stmts(s: Seq<(Statement, Option<token::Semicolon>)>) -> Seq<Tree>
    decreases s,
{
    if s.len() == 0 {
        seq![]
    } else {
        trees_stmts(s.drop_last()).push(tree_stmt_semi(s[s.len() - 1]))
    }
}

#[verifier::opaque]
pub open spec fn tree_stmt_semi(v: (Statement, Option<token::Semicolon>)) -> Tree
    decreases v,
{
    Tree::Node(seq![tree_statement(v.0), tree_opt_semi(v.1)])
}

#[verifier::opaque]
pub open spec fn tree_opt_semi(v: Option<token::Semicolon>) -> Tree
{
    match v {
        Some(x) => Tree::Opt(Some(Box::new(Tree::Leaf(Token::Semicolon(x))))),
        None => Tree::Opt(None),
    }
}

#[verifier::opaque]
pub open spec fn tree_opt_last(v: Option<(LastStatement, Option<token::Semicolon>)>) -> Tree
    decreases v,
{
    match v {
        Some(x) => Tree::Opt(Some(Box::new(tree_last_semi(x)))),
        None => Tree::Opt(None),
    }
}

#[verifier::opaque]
pub open spec fn tree_last_semi(v: (LastStatement, Option<token::Semicolon>)) -> Tree
    decreases v,
{
    Tree::Node(seq![tree_last_statement(v.0), tree_opt_semi(v.1)])
}

#[verifier::opaque]
pub open spec fn tree_var_list(v: SeparatedTrailing<Var, token::Comma>) -> Tree
    decreases v,
{
    Tree::Node(seq![Tree::Node(trees_var_pairs(v.list@)), tree_var(v.last)])
}

#[verifier::opaque]
pub open spec fn tree_var_pairs(v: SeparatedNoTrailing<Var, token::Comma>) -> Tree
    decreases v,
{
    Tree::Node(trees_var_pairs(v.list@))
}

#[verifier::opaque]
pub open spec fn trees_var_pairs(s: Seq<(Var, token::Comma)>) -> Seq<Tree>
    decreases s,
{
    if s.len() == 0 {
        seq![]
    } else {
        trees_var_pairs(s.drop_last()).push(
            Tree::Node(seq![tree_var(s[s.len() - 1].0), Tree::Leaf(Token::Comma(s[s.len() - 1].1))]),
        )
    }
}

#[verifier::opaque]
pub open spec fn tree_exp_list(v: SeparatedTrailing<Exp, token::Comma>) -> Tree
    decreases v,
{
    Tree::Node(seq![Tree::Node(trees_exp_pairs(v.list@)), tree_exp(v.last)])
}

#[verifier::opaque]
pub open spec fn tree_exp_pairs(v: SeparatedNoTrailing<Exp, token::Comma>) -> Tree
    decreases v,
{
    Tree::Node(trees_exp_pairs(v.list@))
}

#[verifier::opaque]
pub open spec fn trees_exp_pairs(s: Seq<(Exp, token::Comma)>) -> Seq<Tree>
    decreases s,
{
    if s.len() == 0 {
        seq![]
    } else {
        trees_exp_pairs(s.drop_last()).push(
            Tree::Node(seq![tree_exp(s[s.len() - 1].0), Tree::Leaf(Token::Comma(s[s.len() - 1].1))]),
        )
    }
}

#[verifier::opaque]
pub open spec fn tree_name_list(v: SeparatedTrailing<token::Name, token::Comma>) -> Tree
{
    Tree::Node(seq![Tree::Node(trees_name_pairs(v.list@)), Tree::Leaf(Token::Name(v.last))])
}

#[verifier::opaque]
pub open spec fn tree_name_pairs(v: SeparatedNoTrailing<token::Name, token::Comma>) -> Tree
{
    Tree::Node(trees_name_pairs(v.list@))
}

#[verifier::opaque]
pub open spec fn trees_name_pairs(s: Seq<(token::Name, token::Comma)>) -> Seq<Tree>
    decreases s,
{
    if s.len() == 0 {
        seq![]
    } else {
        trees_name_pairs(s.drop_last()).push(
            Tree::Node(seq![Tree::Leaf(Token::Name(s[s.len() - 1].0)), Tree::Leaf(Token::Comma(s[s.len() - 1].1))]),
        )
    }
}

#[verifier::opaque]
pub open spec fn tree_attr_name_list(v: SeparatedTrailing<(token::Name, Option<Attribute>), token::Comma>) -> Tree
{
    Tree::Node(seq![Tree::Node(trees_attr_pairs(v.list@)), tree_name_attr(v.last)])
}

#[verifier::opaque]
pub open spec fn tree_attr_pairs(v: SeparatedNoTrailing<(token::Name, Option<Attribute>), token::Comma>) -> Tree
{
    Tree::Node(trees_attr_pairs(v.list@))
}

#[verifier::opaque]
pub open spec fn trees_attr_pairs(s: Seq<((token::Name, Option<Attribute>), token::Comma)>) -> Seq<Tree>
    decreases s,
{
    if s.len() == 0 {
        seq![]
    } else {
        trees_attr_pairs(s.drop_last()).push(
            Tree::Node(seq![tree_name_attr(s[s.len() - 1].0), Tree::Leaf(Token::Comma(s[s.len() - 1].1))]),
        )
    }
}

#[verifier::opaque]
pub open spec fn tree_name_attr(v: (token::Name, Option<Attribute>)) -> Tree
{
    Tree::Node(seq![Tree::Leaf(Token::Name(v.0)), tree_opt_attribute(v.1)])
}

#[verifier::opaque]
pub open spec fn tree_opt_attribute(v: Option<Attribute>) -> Tree
{
    match v {
        Some(x) => Tree::Opt(Some(Box::new(tree_attribute(x)))),
        None => Tree::Opt(None),
    }
}

#[verifier::opaque]
pub open spec fn tree_local_init(v: Option<(token::Equal, SeparatedTrailing<Exp, token::Comma>)>) -> Tree
    decreases v,
{
    match v {
        Some(x) => Tree::Opt(Some(Box::new(tree_eq_exps(x)))),
        None => Tree::Opt(None),
    }
}

#[verifier::opaque]
pub open spec fn tree_eq_exps(v: (token::Equal, SeparatedTrailing<Exp, token::Comma>)) -> Tree
    decreases v,
{
    Tree::Node(seq![Tree::Leaf(Token::Equal(v.0)), tree_exp_list(v.1)])
}

#[verifier::opaque]
pub open spec fn tree_func_path(v: SeparatedTrailing<token::Name, token::Dot>) -> Tree
{
    Tree::Node(seq![Tree::Node(trees_path_pairs(v.list@)), Tree::Leaf(Token::Name(v.last))])
}

#[verifier::opaque]
pub open spec fn tree_path_pairs(v: SeparatedNoTrailing<token::Name, token::Dot>) -> Tree
{
    Tree::Node(trees_path_pairs(v.list@))
}

#[verifier::opaque]
pub open spec fn trees_path_pairs(s: Seq<(token::Name, token::Dot)>) -> Seq<Tree>
    decreases s,
{
    if s.len() == 0 {
        seq![]
    } else {
        trees_path_pairs(s.drop_last()).push(
            Tree::Node(seq![Tree::Leaf(Token::Name(s[s.len() - 1].0)), Tree::Leaf(Token::Dot(s[s.len() - 1].1))]),
        )
    }
}

#[verifier::opaque]
pub open spec fn tree_opt_step(v: Option<(token::Comma, Exp)>) -> Tree
    decreases v,
{
    match v {
        Some(x) => Tree::Opt(Some(Box::new(tree_comma_exp(x)))),
        None => Tree::Opt(None),
    }
}

#[verifier::opaque]
pub open spec fn tree_comma_exp(v: (token::Comma, Exp)) -> Tree
    decreases v,
{
    Tree::Node(seq![Tree::Leaf(Token::Comma(v.0)), tree_exp(v.1)])
}

#[verifier::opaque]
pub open spec fn tree_elseifs(v: Vec<ElseIfBranch>) -> Tree
    decreases v,
{
    Tree::Node(trees_elseifs(v@))
}

#[verifier::opaque]
pub open spec fn trees_elseifs(s: Seq<ElseIfBranch>) -> Seq<Tree>
    decreases s,
{
    if s.len() == 0 {
        seq![]
    } else {
        trees_elseifs(s.drop_last()).push(tree_else_if_branch(s[s.len() - 1]))
    }
}

#[verifier::opaque]
pub open spec fn tree_opt_else(v: Option<ElseBranch>) -> Tree
    decreases v,
{
    match v {
        Some(x) => Tree::Opt(Some(Box::new(tree_else_branch(x)))),
        None => Tree::Opt(None),
    }
}

#[verifier::opaque]
pub open spec fn tree_opt_qualifier(v: Option<(token::Colon, token::Name)>) -> Tree
{
    match v {
        Some(x) => Tree::Opt(Some(Box::new(tree_colon_name(x)))),
        None => Tree::Opt(None),
    }
}

#[verifier::opaque]
pub open spec fn tree_colon_name(v: (token::Colon, token::Name)) -> Tree
{
    Tree::Node(seq![Tree::Leaf(Token::Colon(v.0)), Tree::Leaf(Token::Name(v.1))])
}

#[verifier::opaque]
pub open spec fn tree_opt_ellipses(v: Option<token::Ellipses>) -> Tree
{
    match v {
        Some(x) => Tree::Opt(Some(Box::new(Tree::Leaf(Token::Ellipses(x))))),
        None => Tree::Opt(None),
    }
}

#[verifier::opaque]
pub open spec fn tree_suffixes(v: Vec<PrefixExpSuffix>) -> Tree
    decreases v,
{
    Tree::Node(trees_suffixes(v@))
}

#[verifier::opaque]
pub open spec fn trees_suffixes(s: Seq<PrefixExpSuffix>) -> Seq<Tree>
    decreases s,
{
    if s.len() == 0 {
        seq![]
    } else {
        trees_suffixes(s.drop_last()).push(tree_prefix_exp_suffix(s[s.len() - 1]))
    }
}

#[verifier::opaque]
pub open spec fn tree_fields(v: Separated<Field, FieldSep>) -> Tree
    decreases v,
{
    match v {
        Separated::Trailing(st) => Tree::Choice(
            0,
            Box::new(Tree::Node(seq![Tree::Node(trees_field_pairs(st.list@)), tree_field(st.last)])),
        ),
        Separated::NoTrailing(nt) => Tree::Choice(1, Box::new(Tree::Node(trees_field_pairs(nt.list@)))),
    }
}

#[verifier::opaque]
pub open spec fn tree_field_pairs(v: (Field, FieldSep)) -> Tree
    decreases v,
{
    Tree::Node(seq![tree_field(v.0), tree_field_sep(v.1)])
}

#[verifier::opaque]
pub open spec fn trees_field_pairs(s: Seq<(Field, FieldSep)>) -> Seq<Tree>
    decreases s,
{
    if s.len() == 0 {
        seq![]
    } else {
        trees_field_pairs(s.drop_last()).push(tree_field_pairs(s[s.len() - 1]))
    }
}

/// How tightly a unary operator binds: tighter than any binary operator but `^`.
pub const UNARY_PRECEDENCE: usize = 11;

impl BinaryOperand {
    /// How tightly the operator binds: higher binds tighter.
    pub open spec fn spec_precedence(self) -> usize {
        match self {
            BinaryOperand::Or(_) => 1,
            BinaryOperand::And(_) => 2,
            BinaryOperand::Less(_)
            | BinaryOperand::LessEqual(_)
            | BinaryOperand::Greater(_)
            | BinaryOperand::GreaterEqual(_)
            | BinaryOperand::TildeEqual(_)
            | BinaryOperand::DoubleEqual(_) => 3,
            BinaryOperand::Pipe(_) => 4,
            BinaryOperand::Tilde(_) => 5,
            BinaryOperand::Ampersand(_) => 6,
            BinaryOperand::DoubleLess(_) | BinaryOperand::DoubleGreater(_) => 7,
            BinaryOperand::DoubleDot(_) => 8,
            BinaryOperand::Plus(_) | BinaryOperand::Minus(_) => 9,
            BinaryOperand::Asterisk(_) | BinaryOperand::Slash(_) | BinaryOperand::Percent(_) => 10,
            BinaryOperand::DoubleSlash(_) => 10,
            BinaryOperand::Carat(_) => 12,
        }
    }

    /// Every operator but `^` and `..` groups to the left.
    pub open spec fn spec_left_assoc(self) -> bool {
        !(self is Carat || self is DoubleDot)
    }
}

/// Parses a `Chunk`: its fields in order.
#[verifier::opaque]
pub open spec fn spec_chunk(input: Tokens, pos: nat) -> Outcome<Tree>
    decreases rem(input, pos), 13nat,
{
    match spec_stmts(input, pos) {
        Outcome::Returns(Ok(x0), p0) => {
            if moved(input, pos, p0) {
                match spec_opt_last(input, p0) {
                    Outcome::Returns(Ok(x1), p1) => {
                        Outcome::Returns(Ok(Tree::Node(seq![x0, x1])), p1)
                    },
                    Outcome::Returns(Err(e), _) => Outcome::Returns(Err(e), pos),
                    Outcome::Panics => Outcome::Panics,
                }
            } else {
                Outcome::Panics
            }
        },
        Outcome::Returns(Err(e), _) => Outcome::Returns(Err(e), pos),
        Outcome::Panics => Outcome::Panics,
    }
}

/// Parses a `StAssign`: its fields in order.
#[verifier::opaque]
pub open spec fn spec_st_assign(input: Tokens, pos: nat) -> Outcome<Tree>
    decreases rem(input, pos), 8nat,
{
    match spec_var_list(input, pos) {
        Outcome::Returns(Ok(x0), p0) => {
            match token::Equal::spec_parse(input, p0) {
                Outcome::Returns(Ok(x1), p1) => {
                    if pos < p1 && p1 <= input.tokens.len() {
                        match spec_exp_list(input, p1) {
                            Outcome::Returns(Ok(x2), p2) => {
                                Outcome::Returns(Ok(Tree::Node(seq![x0, x1, x2])), p2)
                            },
                            Outcome::Returns(Err(e), _) => Outcome::Returns(Err(e), pos),
                            Outcome::Panics => Outcome::Panics,
                        }
                    } else {
                        Outcome::Panics
                    }
                },
                Outcome::Returns(Err(e), _) => Outcome::Returns(Err(e), pos),
                Outcome::Panics => Outcome::Panics,
            }
        },
        Outcome::Returns(Err(e), _) => Outcome::Returns(Err(e), pos),
        Outcome::Panics => Outcome::Panics,
    }
}

/// Parses a `StBlock`: its fields in order.
#[verifier::opaque]
pub open spec fn spec_st_block(input: Tokens, pos: nat) -> Outcome<Tree>
    decreases rem(input, pos), 0nat,
{
    match token::Do::spec_parse(input, pos) {
        Outcome::Returns(Ok(x0), p0) => {
            if pos < p0 && p0 <= input.tokens.len() {
                match spec_chunk(input, p0) {
                    Outcome::Returns(Ok(x1), p1) => {
                        match token::End::spec_parse(input, p1) {
                            Outcome::Returns(Ok(x2), p2) => {
                                Outcome::Returns(Ok(Tree::Node(seq![x0, x1, x2])), p2)
                            },
                            Outcome::Returns(Err(e), _) => Outcome::Returns(Err(e), pos),
                            Outcome::Panics => Outcome::Panics,
                        }
                    },
                    Outcome::Returns(Err(e), _) => Outcome::Returns(Err(e), pos),
                    Outcome::Panics => Outcome::Panics,
                }
            } else {
                Outcome::Panics
            }
        },
        Outcome::Returns(Err(e), _) => Outcome::Returns(Err(e), pos),
        Outcome::Panics => Outcome::Panics,
    }
}

/// Parses an `Attribute`: its fields in order.
#[verifier::opaque]
pub open spec fn spec_attribute(input: Tokens, pos: nat) -> Outcome<Tree>
{
    match token::Less::spec_parse(input, pos) {
        Outcome::Returns(Ok(x0), p0) => {
            match token::Name::spec_parse(input, p0) {
                Outcome::Returns(Ok(x1), p1) => {
                    match token::Greater::spec_parse(input, p1) {
                        Outcome::Returns(Ok(x2), p2) => {
                            Outcome::Returns(Ok(Tree::Node(seq![x0, x1, x2])), p2)
                        },
                        Outcome::Returns(Err(e), _) => Outcome::Returns(Err(e), pos),
                        Outcome::Panics => Outcome::Panics,
                    }
                },
                Outcome::Returns(Err(e), _) => Outcome::Returns(Err(e), pos),
                Outcome::Panics => Outcome::Panics,
            }
        },
        Outcome::Returns(Err(e), _) => Outcome::Returns(Err(e), pos),
        Outcome::Panics => Outcome::Panics,
    }
}

/// Parses a `StWhileLoop`: its fields in order.
#[verifier::opaque]
pub open spec fn spec_st_while_loop(input: Tokens, pos: nat) -> Outcome<Tree>
    decreases rem(input, pos), 0nat,
{
    match token::While::spec_parse(input, pos) {
        Outcome::Returns(Ok(x0), p0) => {
            if pos < p0 && p0 <= input.tokens.len() {
                match spec_exp(input, p0) {
                    Outcome::Returns(Ok(x1), p1) => {
                        match token::Do::spec_parse(input, p1) {
                            Outcome::Returns(Ok(x2), p2) => {
                                if pos < p2 && p2 <= input.tokens.len() {
                                    match spec_chunk(input, p2) {
                                        Outcome::Returns(Ok(x3), p3) => {
                                            match token::End::spec_parse(input, p3) {
                                                Outcome::Returns(Ok(x4), p4) => {
                                                    Outcome::Returns(Ok(Tree::Node(seq![x0, x1, x2, x3, x4])), p4)
                                                },
                                                Outcome::Returns(Err(e), _) => Outcome::Returns(Err(e), pos),
                                                Outcome::Panics => Outcome::Panics,
                                            }
                                        },
                                        Outcome::Returns(Err(e), _) => Outcome::Returns(Err(e), pos),
                                        Outcome::Panics => Outcome::Panics,
                                    }
                                } else {
                                    Outcome::Panics
                                }
                            },
                            Outcome::Returns(Err(e), _) => Outcome::Returns(Err(e), pos),
                            Outcome::Panics => Outcome::Panics,
                        }
                    },
                    Outcome::Returns(Err(e), _) => Outcome::Returns(Err(e), pos),
                    Outcome::Panics => Outcome::Panics,
                }
            } else {
                Outcome::Panics
            }
        },
        Outcome::Returns(Err(e), _) => Outcome::Returns(Err(e), pos),
        Outcome::Panics => Outcome::Panics,
    }
}

/// Parses a `StRepeatLoop`: its fields in order.
#[verifier::opaque]
pub open spec fn spec_st_repeat_loop(input: Tokens, pos: nat) -> Outcome<Tree>
    decreases rem(input, pos), 0nat,
{
    match token::Repeat::spec_parse(input, pos) {
        Outcome::Returns(Ok(x0), p0) => {
            if pos < p0 && p0 <= input.tokens.len() {
                match spec_chunk(input, p0) {
                    Outcome::Returns(Ok(x1), p1) => {
                        match token::Until::spec_parse(input, p1) {
                            Outcome::Returns(Ok(x2), p2) => {
                                if pos < p2 && p2 <= input.tokens.len() {
                                    match spec_exp(input, p2) {
                                        Outcome::Returns(Ok(x3), p3) => {
                                            Outcome::Returns(Ok(Tree::Node(seq![x0, x1, x2, x3])), p3)
                                        },
                                        Outcome::Returns(Err(e), _) => Outcome::Returns(Err(e), pos),
                                        Outcome::Panics => Outcome::Panics,
                                    }
                                } else {
                                    Outcome::Panics
                                }
                            },
                            Outcome::Returns(Err(e), _) => Outcome::Returns(Err(e), pos),
                            Outcome::Panics => Outcome::Panics,
                        }
                    },
                    Outcome::Returns(Err(e), _) => Outcome::Returns(Err(e), pos),
                    Outcome::Panics => Outcome::Panics,
                }
            } else {
                Outcome::Panics
            }
        },
        Outcome::Returns(Err(e), _) => Outcome::Returns(Err(e), pos),
        Outcome::Panics => Outcome::Panics,
    }
}

/// Parses a `StForRangeLoop`: its fields in order.
#[verifier::opaque]
pub open spec fn spec_st_for_range_loop(input: Tokens, pos: nat) -> Outcome<Tree>
    decreases rem(input, pos), 0nat,
{
    match token::For::spec_parse(input, pos) {
        Outcome::Returns(Ok(x0), p0) => {
            match token::Name::spec_parse(input, p0) {
                Outcome::Returns(Ok(x1), p1) => {
                    match token::Equal::spec_parse(input, p1) {
                        Outcome::Returns(Ok(x2), p2) => {
                            if pos < p2 && p2 <= input.tokens.len() {
                                match spec_exp(input, p2) {
                                    Outcome::Returns(Ok(x3), p3) => {
                                        match token::Comma::spec_parse(input, p3) {
                                            Outcome::Returns(Ok(x4), p4) => {
                                                if pos < p4 && p4 <= input.tokens.len() {
                                                    match spec_exp(input, p4) {
                                                        Outcome::Returns(Ok(x5), p5) => {
                                                            if pos < p5 && p5 <= input.tokens.len() {
                                                                match spec_opt_step(input, p5) {
                                                                    Outcome::Returns(Ok(x6), p6) => {
                                                                        match token::Do::spec_parse(input, p6) {
                                                                            Outcome::Returns(Ok(x7), p7) => {
                                                                                if pos < p7 && p7 <= input.tokens.len() {
                                                                                    match spec_chunk(input, p7) {
                                                                                        Outcome::Returns(Ok(x8), p8) => {
                                                                                            match token::End::spec_parse(input, p8) {
                                                                                                Outcome::Returns(Ok(x9), p9) => {
                                                                                                    Outcome::Returns(Ok(Tree::Node(seq![x0, x1, x2, x3, x4, x5, x6, x7, x8, x9])), p9)
                                                                                                },
                                                                                                Outcome::Returns(Err(e), _) => Outcome::Returns(Err(e), pos),
                                                                                                Outcome::Panics => Outcome::Panics,
                                                                                            }
                                                                                        },
                                                                                        Outcome::Returns(Err(e), _) => Outcome::Returns(Err(e), pos),
                                                                                        Outcome::Panics => Outcome::Panics,
                                                                                    }
                                                                                } else {
                                                                                    Outcome::Panics
                                                                                }
                                                                            },
                                                                            Outcome::Returns(Err(e), _) => Outcome::Returns(Err(e), pos),
                                                                            Outcome::Panics => Outcome::Panics,
                                                                        }
                                                                    },
                                                                    Outcome::Returns(Err(e), _) => Outcome::Returns(Err(e), pos),
                                                                    Outcome::Panics => Outcome::Panics,
                                                                }
                                                            } else {
                                                                Outcome::Panics
                                                            }
                                                        },
                                                        Outcome::Returns(Err(e), _) => Outcome::Returns(Err(e), pos),
                                                        Outcome::Panics => Outcome::Panics,
                                                    }
                                                } else {
                                                    Outcome::Panics
                                                }
                                            },
                                            Outcome::Returns(Err(e), _) => Outcome::Returns(Err(e), pos),
                                            Outcome::Panics => Outcome::Panics,
                                        }
                                    },
                                    Outcome::Returns(Err(e), _) => Outcome::Returns(Err(e), pos),
                                    Outcome::Panics => Outcome::Panics,
                                }
                            } else {
                                Outcome::Panics
                            }
                        },
                        Outcome::Returns(Err(e), _) => Outcome::Returns(Err(e), pos),
                        Outcome::Panics => Outcome::Panics,
                    }
                },
                Outcome::Returns(Err(e), _) => Outcome::Returns(Err(e), pos),
                Outcome::Panics => Outcome::Panics,
            }
        },
        Outcome::Returns(Err(e), _) => Outcome::Returns(Err(e), pos),
        Outcome::Panics => Outcome::Panics,
    }
}

/// Parses a `StForInLoop`: its fields in order.
#[verifier::opaque]
pub open spec fn spec_st_for_in_loop(input: Tokens, pos: nat) -> Outcome<Tree>
    decreases rem(input, pos), 0nat,
{
    match token::For::spec_parse(input, pos) {
        Outcome::Returns(Ok(x0), p0) => {
            match spec_name_list(input, p0) {
                Outcome::Returns(Ok(x1), p1) => {
                    match token::In::spec_parse(input, p1) {
                        Outcome::Returns(Ok(x2), p2) => {
                            if pos < p2 && p2 <= input.tokens.len() {
                                match spec_exp_list(input, p2) {
                                    Outcome::Returns(Ok(x3), p3) => {
                                        match token::Do::spec_parse(input, p3) {
                                            Outcome::Returns(Ok(x4), p4) => {
                                                if pos < p4 && p4 <= input.tokens.len() {
                                                    match spec_chunk(input, p4) {
                                                        Outcome::Returns(Ok(x5), p5) => {
                                                            match token::End::spec_parse(input, p5) {
                                                                Outcome::Returns(Ok(x6), p6) => {
                                                                    Outcome::Returns(Ok(Tree::Node(seq![x0, x1, x2, x3, x4, x5, x6])), p6)
                                                                },
                                                                Outcome::Returns(Err(e), _) => Outcome::Returns(Err(e), pos),
                                                                Outcome::Panics => Outcome::Panics,
                                                            }
                                                        },
                                                        Outcome::Returns(Err(e), _) => Outcome::Returns(Err(e), pos),
                                                        Outcome::Panics => Outcome::Panics,
                                                    }
                                                } else {
                                                    Outcome::Panics
                                                }
                                            },
                                            Outcome::Returns(Err(e), _) => Outcome::Returns(Err(e), pos),
                                            Outcome::Panics => Outcome::Panics,
                                        }
                                    },
                                    Outcome::Returns(Err(e), _) => Outcome::Returns(Err(e), pos),
                                    Outcome::Panics => Outcome::Panics,
                                }
                            } else {
                                Outcome::Panics
                            }
                        },
                        Outcome::Returns(Err(e), _) => Outcome::Returns(Err(e), pos),
                        Outcome::Panics => Outcome::Panics,
                    }
                },
                Outcome::Returns(Err(e), _) => Outcome::Returns(Err(e), pos),
                Outcome::Panics => Outcome::Panics,
            }
        },
        Outcome::Returns(Err(e), _) => Outcome::Returns(Err(e), pos),
        Outcome::Panics => Outcome::Panics,
    }
}

/// Parses a `StIfElse`: its fields in order.
#[verifier::opaque]
pub open spec fn spec_st_if_else(input: Tokens, pos: nat) -> Outcome<Tree>
    decreases rem(input, pos), 1nat,
{
    match spec_if_branch(input, pos) {
        Outcome::Returns(Ok(x0), p0) => {
            if pos < p0 && p0 <= input.tokens.len() {
                match spec_elseifs(input, p0) {
                    Outcome::Returns(Ok(x1), p1) => {
                        if pos < p1 && p1 <= input.tokens.len() {
                            match spec_opt_else(input, p1) {
                                Outcome::Returns(Ok(x2), p2) => {
                                    Outcome::Returns(Ok(Tree::Node(seq![x0, x1, x2])), p2)
                                },
                                Outcome::Returns(Err(e), _) => Outcome::Returns(Err(e), pos),
                                Outcome::Panics => Outcome::Panics,
                            }
                        } else {
                            Outcome::Panics
                        }
                    },
                    Outcome::Returns(Err(e), _) => Outcome::Returns(Err(e), pos),
                    Outcome::Panics => Outcome::Panics,
                }
            } else {
                Outcome::Panics
            }
        },
        Outcome::Returns(Err(e), _) => Outcome::Returns(Err(e), pos),
        Outcome::Panics => Outcome::Panics,
    }
}

/// Parses an `IfBranch`: its fields in order.
#[verifier::opaque]
pub open spec fn spec_if_branch(input: Tokens, pos: nat) -> Outcome<Tree>
    decreases rem(input, pos), 0nat,
{
    match token::If::spec_parse(input, pos) {
        Outcome::Returns(Ok(x0), p0) => {
            if pos < p0 && p0 <= input.tokens.len() {
                match spec_exp(input, p0) {
                    Outcome::Returns(Ok(x1), p1) => {
                        match token::Then::spec_parse(input, p1) {
                            Outcome::Returns(Ok(x2), p2) => {
                                if pos < p2 && p2 <= input.tokens.len() {
                                    match spec_chunk(input, p2) {
                                        Outcome::Returns(Ok(x3), p3) => {
                                            Outcome::Returns(Ok(Tree::Node(seq![x0, x1, x2, x3])), p3)
                                        },
                                        Outcome::Returns(Err(e), _) => Outcome::Returns(Err(e), pos),
                                        Outcome::Panics => Outcome::Panics,
                                    }
                                } else {
                                    Outcome::Panics
                                }
                            },
                            Outcome::Returns(Err(e), _) => Outcome::Returns(Err(e), pos),
                            Outcome::Panics => Outcome::Panics,
                        }
                    },
                    Outcome::Returns(Err(e), _) => Outcome::Returns(Err(e), pos),
                    Outcome::Panics => Outcome::Panics,
                }
            } else {
                Outcome::Panics
            }
        },
        Outcome::Returns(Err(e), _) => Outcome::Returns(Err(e), pos),
        Outcome::Panics => Outcome::Panics,
    }
}

/// Parses an `ElseIfBranch`: its fields in order.
#[verifier::opaque]
pub open spec fn spec_else_if_branch(input: Tokens, pos: nat) -> Outcome<Tree>
    decreases rem(input, pos), 0nat,
{
    match token::ElseIf::spec_parse(input, pos) {
        Outcome::Returns(Ok(x0), p0) => {
            if pos < p0 && p0 <= input.tokens.len() {
                match spec_exp(input, p0) {
                    Outcome::Returns(Ok(x1), p1) => {
                        match token::Then::spec_parse(input, p1) {
                            Outcome::Returns(Ok(x2), p2) => {
                                if pos < p2 && p2 <= input.tokens.len() {
                                    match spec_chunk(input, p2) {
                                        Outcome::Returns(Ok(x3), p3) => {
                                            Outcome::Returns(Ok(Tree::Node(seq![x0, x1, x2, x3])), p3)
                                        },
                                        Outcome::Returns(Err(e), _) => Outcome::Returns(Err(e), pos),
                                        Outcome::Panics => Outcome::Panics,
                                    }
                                } else {
                                    Outcome::Panics
                                }
                            },
                            Outcome::Returns(Err(e), _) => Outcome::Returns(Err(e), pos),
                            Outcome::Panics => Outcome::Panics,
                        }
                    },
                    Outcome::Returns(Err(e), _) => Outcome::Returns(Err(e), pos),
                    Outcome::Panics => Outcome::Panics,
                }
            } else {
                Outcome::Panics
            }
        },
        Outcome::Returns(Err(e), _) => Outcome::Returns(Err(e), pos),
        Outcome::Panics => Outcome::Panics,
    }
}

/// Parses an `ElseBranch`: its fields in order.
#[verifier::opaque]
pub open spec fn spec_else_branch(input: Tokens, pos: nat) -> Outcome<Tree>
    decreases rem(input, pos), 0nat,
{
    match token::Else::spec_parse(input, pos) {
        Outcome::Returns(Ok(x0), p0) => {
            if pos < p0 && p0 <= input.tokens.len() {
                match spec_chunk(input, p0) {
                    Outcome::Returns(Ok(x1), p1) => {
                        Outcome::Returns(Ok(Tree::Node(seq![x0, x1])), p1)
                    },
                    Outcome::Returns(Err(e), _) => Outcome::Returns(Err(e), pos),
                    Outcome::Panics => Outcome::Panics,
                }
            } else {
                Outcome::Panics
            }
        },
        Outcome::Returns(Err(e), _) => Outcome::Returns(Err(e), pos),
        Outcome::Panics => Outcome::Panics,
    }
}

/// Parses a `FunctionCall`: its fields in order.
#[verifier::opaque]
pub open spec fn spec_function_call(input: Tokens, pos: nat) -> Outcome<Tree>
    decreases rem(input, pos), 3nat,
{
    match spec_prefix_exp(input, pos) {
        Outcome::Returns(Ok(x0), p0) => {
            if pos < p0 && p0 <= input.tokens.len() {
                match spec_function_call_body(input, p0) {
                    Outcome::Returns(Ok(x1), p1) => {
                        Outcome::Returns(Ok(Tree::Node(seq![x0, x1])), p1)
                    },
                    Outcome::Returns(Err(e), _) => Outcome::Returns(Err(e), pos),
                    Outcome::Panics => Outcome::Panics,
                }
            } else {
                Outcome::Panics
            }
        },
        Outcome::Returns(Err(e), _) => Outcome::Returns(Err(e), pos),
        Outcome::Panics => Outcome::Panics,
    }
}

/// Parses a `FunctionCallBody`: its fields in order.
#[verifier::opaque]
pub open spec fn spec_function_call_body(input: Tokens, pos: nat) -> Outcome<Tree>
    decreases rem(input, pos), 2nat,
{
    match spec_opt_qualifier(input, pos) {
        Outcome::Returns(Ok(x0), p0) => {
            if moved(input, pos, p0) {
                match spec_function_args(input, p0) {
                    Outcome::Returns(Ok(x1), p1) => {
                        Outcome::Returns(Ok(Tree::Node(seq![x0, x1])), p1)
                    },
                    Outcome::Returns(Err(e), _) => Outcome::Returns(Err(e), pos),
                    Outcome::Panics => Outcome::Panics,
                }
            } else {
                Outcome::Panics
            }
        },
        Outcome::Returns(Err(e), _) => Outcome::Returns(Err(e), pos),
        Outcome::Panics => Outcome::Panics,
    }
}

/// Parses an `ArgList`: its fields in order.
#[verifier::opaque]
pub open spec fn spec_arg_list(input: Tokens, pos: nat) -> Outcome<Tree>
    decreases rem(input, pos), 0nat,
{
    match token::OpenParen::spec_parse(input, pos) {
        Outcome::Returns(Ok(x0), p0) => {
            if pos < p0 && p0 <= input.tokens.len() {
                match spec_exp_list(input, p0) {
                    Outcome::Returns(Ok(x1), p1) => {
                        match token::CloseParen::spec_parse(input, p1) {
                            Outcome::Returns(Ok(x2), p2) => {
                                Outcome::Returns(Ok(Tree::Node(seq![x0, x1, x2])), p2)
                            },
                            Outcome::Returns(Err(e), _) => Outcome::Returns(Err(e), pos),
                            Outcome::Panics => Outcome::Panics,
                        }
                    },
                    Outcome::Returns(Err(e), _) => Outcome::Returns(Err(e), pos),
                    Outcome::Panics => Outcome::Panics,
                }
            } else {
                Outcome::Panics
            }
        },
        Outcome::Returns(Err(e), _) => Outcome::Returns(Err(e), pos),
        Outcome::Panics => Outcome::Panics,
    }
}

/// Parses a `StFunctionDef`: its fields in order.
#[verifier::opaque]
pub open spec fn spec_st_function_def(input: Tokens, pos: nat) -> Outcome<Tree>
    decreases rem(input, pos), 0nat,
{
    match token::Function::spec_parse(input, pos) {
        Outcome::Returns(Ok(x0), p0) => {
            match spec_function_name(input, p0) {
                Outcome::Returns(Ok(x1), p1) => {
                    if pos < p1 && p1 <= input.tokens.len() {
                        match spec_function_body(input, p1) {
                            Outcome::Returns(Ok(x2), p2) => {
                                Outcome::Returns(Ok(Tree::Node(seq![x0, x1, x2])), p2)
                            },
                            Outcome::Returns(Err(e), _) => Outcome::Returns(Err(e), pos),
                            Outcome::Panics => Outcome::Panics,
                        }
                    } else {
                        Outcome::Panics
                    }
                },
                Outcome::Returns(Err(e), _) => Outcome::Returns(Err(e), pos),
                Outcome::Panics => Outcome::Panics,
            }
        },
        Outcome::Returns(Err(e), _) => Outcome::Returns(Err(e), pos),
        Outcome::Panics => Outcome::Panics,
    }
}

/// Parses a `StLocalFunctionDef`: its fields in order.
#[verifier::opaque]
pub open spec fn spec_st_local_function_def(input: Tokens, pos: nat) -> Outcome<Tree>
    decreases rem(input, pos), 0nat,
{
    match token::Local::spec_parse(input, pos) {
        Outcome::Returns(Ok(x0), p0) => {
            match token::Function::spec_parse(input, p0) {
                Outcome::Returns(Ok(x1), p1) => {
                    match token::Name::spec_parse(input, p1) {
                        Outcome::Returns(Ok(x2), p2) => {
                            if pos < p2 && p2 <= input.tokens.len() {
                                match spec_function_body(input, p2) {
                                    Outcome::Returns(Ok(x3), p3) => {
                                        Outcome::Returns(Ok(Tree::Node(seq![x0, x1, x2, x3])), p3)
                                    },
                                    Outcome::Returns(Err(e), _) => Outcome::Returns(Err(e), pos),
                                    Outcome::Panics => Outcome::Panics,
                                }
                            } else {
                                Outcome::Panics
                            }
                        },
                        Outcome::Returns(Err(e), _) => Outcome::Returns(Err(e), pos),
                        Outcome::Panics => Outcome::Panics,
                    }
                },
                Outcome::Returns(Err(e), _) => Outcome::Returns(Err(e), pos),
                Outcome::Panics => Outcome::Panics,
            }
        },
        Outcome::Returns(Err(e), _) => Outcome::Returns(Err(e), pos),
        Outcome::Panics => Outcome::Panics,
    }
}

/// Parses a `StLocalInit`: its fields in order.
#[verifier::opaque]
pub open spec fn spec_st_local_init(input: Tokens, pos: nat) -> Outcome<Tree>
    decreases rem(input, pos), 0nat,
{
    match token::Local::spec_parse(input, pos) {
        Outcome::Returns(Ok(x0), p0) => {
            match spec_attr_name_list(input, p0) {
                Outcome::Returns(Ok(x1), p1) => {
                    if pos < p1 && p1 <= input.tokens.len() {
                        match spec_local_init(input, p1) {
                            Outcome::Returns(Ok(x2), p2) => {
                                Outcome::Returns(Ok(Tree::Node(seq![x0, x1, x2])), p2)
                            },
                            Outcome::Returns(Err(e), _) => Outcome::Returns(Err(e), pos),
                            Outcome::Panics => Outcome::Panics,
                        }
                    } else {
                        Outcome::Panics
                    }
                },
                Outcome::Returns(Err(e), _) => Outcome::Returns(Err(e), pos),
                Outcome::Panics => Outcome::Panics,
            }
        },
        Outcome::Returns(Err(e), _) => Outcome::Returns(Err(e), pos),
        Outcome::Panics => Outcome::Panics,
    }
}

/// Parses a `StGoto`: its fields in order.
#[verifier::opaque]
pub open spec fn spec_st_goto(input: Tokens, pos: nat) -> Outcome<Tree>
{
    match token::Goto::spec_parse(input, pos) {
        Outcome::Returns(Ok(x0), p0) => {
            match token::Name::spec_parse(input, p0) {
                Outcome::Returns(Ok(x1), p1) => {
                    Outcome::Returns(Ok(Tree::Node(seq![x0, x1])), p1)
                },
                Outcome::Returns(Err(e), _) => Outcome::Returns(Err(e), pos),
                Outcome::Panics => Outcome::Panics,
            }
        },
        Outcome::Returns(Err(e), _) => Outcome::Returns(Err(e), pos),
        Outcome::Panics => Outcome::Panics,
    }
}

/// Parses a `StLabel`: its fields in order.
#[verifier::opaque]
pub open spec fn spec_st_label(input: Tokens, pos: nat) -> Outcome<Tree>
{
    match token::DoubleColon::spec_parse(input, pos) {
        Outcome::Returns(Ok(x0), p0) => {
            match token::Name::spec_parse(input, p0) {
                Outcome::Returns(Ok(x1), p1) => {
                    match token::DoubleColon::spec_parse(input, p1) {
                        Outcome::Returns(Ok(x2), p2) => {
                            Outcome::Returns(Ok(Tree::Node(seq![x0, x1, x2])), p2)
                        },
                        Outcome::Returns(Err(e), _) => Outcome::Returns(Err(e), pos),
                        Outcome::Panics => Outcome::Panics,
                    }
                },
                Outcome::Returns(Err(e), _) => Outcome::Returns(Err(e), pos),
                Outcome::Panics => Outcome::Panics,
            }
        },
        Outcome::Returns(Err(e), _) => Outcome::Returns(Err(e), pos),
        Outcome::Panics => Outcome::Panics,
    }
}

/// Parses a `StReturn`: its fields in order.
#[verifier::opaque]
pub open spec fn spec_st_return(input: Tokens, pos: nat) -> Outcome<Tree>
    decreases rem(input, pos), 0nat,
{
    match token::Return::spec_parse(input, pos) {
        Outcome::Returns(Ok(x0), p0) => {
            if pos < p0 && p0 <= input.tokens.len() {
                match spec_exp_list(input, p0) {
                    Outcome::Returns(Ok(x1), p1) => {
                        Outcome::Returns(Ok(Tree::Node(seq![x0, x1])), p1)
                    },
                    Outcome::Returns(Err(e), _) => Outcome::Returns(Err(e), pos),
                    Outcome::Panics => Outcome::Panics,
                }
            } else {
                Outcome::Panics
            }
        },
        Outcome::Returns(Err(e), _) => Outcome::Returns(Err(e), pos),
        Outcome::Panics => Outcome::Panics,
    }
}

/// Parses a `StBreak`: its fields in order.
#[verifier::opaque]
pub open spec fn spec_st_break(input: Tokens, pos: nat) -> Outcome<Tree>
{
    match token::Break::spec_parse(input, pos) {
        Outcome::Returns(Ok(x0), p0) => {
            Outcome::Returns(Ok(Tree::Node(seq![x0])), p0)
        },
        Outcome::Returns(Err(e), _) => Outcome::Returns(Err(e), pos),
        Outcome::Panics => Outcome::Panics,
    }
}

/// Parses a `FunctionBody`: its fields in order.
#[verifier::opaque]
pub open spec fn spec_function_body(input: Tokens, pos: nat) -> Outcome<Tree>
    decreases rem(input, pos), 0nat,
{
    match token::OpenParen::spec_parse(input, pos) {
        Outcome::Returns(Ok(x0), p0) => {
            match spec_par_list(input, p0) {
                Outcome::Returns(Ok(x1), p1) => {
                    match token::CloseParen::spec_parse(input, p1) {
                        Outcome::Returns(Ok(x2), p2) => {
                            if pos < p2 && p2 <= input.tokens.len() {
                                match spec_chunk(input, p2) {
                                    Outcome::Returns(Ok(x3), p3) => {
                                        match token::End::spec_parse(input, p3) {
                                            Outcome::Returns(Ok(x4), p4) => {
                                                Outcome::Returns(Ok(Tree::Node(seq![x0, x1, x2, x3, x4])), p4)
                                            },
                                            Outcome::Returns(Err(e), _) => Outcome::Returns(Err(e), pos),
                                            Outcome::Panics => Outcome::Panics,
                                        }
                                    },
                                    Outcome::Returns(Err(e), _) => Outcome::Returns(Err(e), pos),
                                    Outcome::Panics => Outcome::Panics,
                                }
                            } else {
                                Outcome::Panics
                            }
                        },
                        Outcome::Returns(Err(e), _) => Outcome::Returns(Err(e), pos),
                        Outcome::Panics => Outcome::Panics,
                    }
                },
                Outcome::Returns(Err(e), _) => Outcome::Returns(Err(e), pos),
                Outcome::Panics => Outcome::Panics,
            }
        },
        Outcome::Returns(Err(e), _) => Outcome::Returns(Err(e), pos),
        Outcome::Panics => Outcome::Panics,
    }
}

/// Parses a `ParList`: its fields in order.
#[verifier::opaque]
pub open spec fn spec_par_list(input: Tokens, pos: nat) -> Outcome<Tree>
{
    match spec_name_list(input, pos) {
        Outcome::Returns(Ok(x0), p0) => {
            match spec_opt_ellipses(input, p0) {
                Outcome::Returns(Ok(x1), p1) => {
                    Outcome::Returns(Ok(Tree::Node(seq![x0, x1])), p1)
                },
                Outcome::Returns(Err(e), _) => Outcome::Returns(Err(e), pos),
                Outcome::Panics => Outcome::Panics,
            }
        },
        Outcome::Returns(Err(e), _) => Outcome::Returns(Err(e), pos),
        Outcome::Panics => Outcome::Panics,
    }
}

/// Parses a `VarIndex`: its fields in order.
#[verifier::opaque]
pub open spec fn spec_var_index(input: Tokens, pos: nat) -> Outcome<Tree>
    decreases rem(input, pos), 3nat,
{
    match spec_prefix_exp(input, pos) {
        Outcome::Returns(Ok(x0), p0) => {
            if pos < p0 && p0 <= input.tokens.len() {
                match spec_var_index_body(input, p0) {
                    Outcome::Returns(Ok(x1), p1) => {
                        Outcome::Returns(Ok(Tree::Node(seq![x0, x1])), p1)
                    },
                    Outcome::Returns(Err(e), _) => Outcome::Returns(Err(e), pos),
                    Outcome::Panics => Outcome::Panics,
                }
            } else {
                Outcome::Panics
            }
        },
        Outcome::Returns(Err(e), _) => Outcome::Returns(Err(e), pos),
        Outcome::Panics => Outcome::Panics,
    }
}

/// Parses a `VarIndexBody`: its fields in order.
#[verifier::opaque]
pub open spec fn spec_var_index_body(input: Tokens, pos: nat) -> Outcome<Tree>
    decreases rem(input, pos), 0nat,
{
    match token::OpenBracket::spec_parse(input, pos) {
        Outcome::Returns(Ok(x0), p0) => {
            if pos < p0 && p0 <= input.tokens.len() {
                match spec_exp(input, p0) {
                    Outcome::Returns(Ok(x1), p1) => {
                        match token::CloseBracket::spec_parse(input, p1) {
                            Outcome::Returns(Ok(x2), p2) => {
                                Outcome::Returns(Ok(Tree::Node(seq![x0, x1, x2])), p2)
                            },
                            Outcome::Returns(Err(e), _) => Outcome::Returns(Err(e), pos),
                            Outcome::Panics => Outcome::Panics,
                        }
                    },
                    Outcome::Returns(Err(e), _) => Outcome::Returns(Err(e), pos),
                    Outcome::Panics => Outcome::Panics,
                }
            } else {
                Outcome::Panics
            }
        },
        Outcome::Returns(Err(e), _) => Outcome::Returns(Err(e), pos),
        Outcome::Panics => Outcome::Panics,
    }
}

/// Parses a `VarAccess`: its fields in order.
#[verifier::opaque]
pub open spec fn spec_var_access(input: Tokens, pos: nat) -> Outcome<Tree>
    decreases rem(input, pos), 3nat,
{
    match spec_prefix_exp(input, pos) {
        Outcome::Returns(Ok(x0), p0) => {
            match spec_var_access_body(input, p0) {
                Outcome::Returns(Ok(x1), p1) => {
                    Outcome::Returns(Ok(Tree::Node(seq![x0, x1])), p1)
                },
                Outcome::Returns(Err(e), _) => Outcome::Returns(Err(e), pos),
                Outcome::Panics => Outcome::Panics,
            }
        },
        Outcome::Returns(Err(e), _) => Outcome::Returns(Err(e), pos),
        Outcome::Panics => Outcome::Panics,
    }
}

/// Parses a `VarAccessBody`: its fields in order.
#[verifier::opaque]
pub open spec fn spec_var_access_body(input: Tokens, pos: nat) -> Outcome<Tree>
{
    match token::Dot::spec_parse(input, pos) {
        Outcome::Returns(Ok(x0), p0) => {
            match token::Name::spec_parse(input, p0) {
                Outcome::Returns(Ok(x1), p1) => {
                    Outcome::Returns(Ok(Tree::Node(seq![x0, x1])), p1)
                },
                Outcome::Returns(Err(e), _) => Outcome::Returns(Err(e), pos),
                Outcome::Panics => Outcome::Panics,
            }
        },
        Outcome::Returns(Err(e), _) => Outcome::Returns(Err(e), pos),
        Outcome::Panics => Outcome::Panics,
    }
}

/// Parses a `PrefixExp`: its fields in order.
#[verifier::opaque]
pub open spec fn spec_prefix_exp(input: Tokens, pos: nat) -> Outcome<Tree>
    decreases rem(input, pos), 2nat,
{
    match spec_prefix_exp_kind(input, pos) {
        Outcome::Returns(Ok(x0), p0) => {
            if pos < p0 && p0 <= input.tokens.len() {
                match spec_suffixes(input, p0) {
                    Outcome::Returns(Ok(x1), p1) => {
                        Outcome::Returns(Ok(Tree::Node(seq![x0, x1])), p1)
                    },
                    Outcome::Returns(Err(e), _) => Outcome::Returns(Err(e), pos),
                    Outcome::Panics => Outcome::Panics,
                }
            } else {
                Outcome::Panics
            }
        },
        Outcome::Returns(Err(e), _) => Outcome::Returns(Err(e), pos),
        Outcome::Panics => Outcome::Panics,
    }
}

/// Parses a `PrefixParens`: its fields in order.
#[verifier::opaque]
pub open spec fn spec_prefix_parens(input: Tokens, pos: nat) -> Outcome<Tree>
    decreases rem(input, pos), 0nat,
{
    match token::OpenParen::spec_parse(input, pos) {
        Outcome::Returns(Ok(x0), p0) => {
            if pos < p0 && p0 <= input.tokens.len() {
                match spec_exp(input, p0) {
                    Outcome::Returns(Ok(x1), p1) => {
                        match token::CloseParen::spec_parse(input, p1) {
                            Outcome::Returns(Ok(x2), p2) => {
                                Outcome::Returns(Ok(Tree::Node(seq![x0, x1, x2])), p2)
                            },
                            Outcome::Returns(Err(e), _) => Outcome::Returns(Err(e), pos),
                            Outcome::Panics => Outcome::Panics,
                        }
                    },
                    Outcome::Returns(Err(e), _) => Outcome::Returns(Err(e), pos),
                    Outcome::Panics => Outcome::Panics,
                }
            } else {
                Outcome::Panics
            }
        },
        Outcome::Returns(Err(e), _) => Outcome::Returns(Err(e), pos),
        Outcome::Panics => Outcome::Panics,
    }
}

/// Parses an `ExpFunction`: its fields in order.
#[verifier::opaque]
pub open spec fn spec_exp_function(input: Tokens, pos: nat) -> Outcome<Tree>
    decreases rem(input, pos), 0nat,
{
    match token::Function::spec_parse(input, pos) {
        Outcome::Returns(Ok(x0), p0) => {
            if pos < p0 && p0 <= input.tokens.len() {
                match spec_function_body(input, p0) {
                    Outcome::Returns(Ok(x1), p1) => {
                        Outcome::Returns(Ok(Tree::Node(seq![x0, x1])), p1)
                    },
                    Outcome::Returns(Err(e), _) => Outcome::Returns(Err(e), pos),
                    Outcome::Panics => Outcome::Panics,
                }
            } else {
                Outcome::Panics
            }
        },
        Outcome::Returns(Err(e), _) => Outcome::Returns(Err(e), pos),
        Outcome::Panics => Outcome::Panics,
    }
}

/// Parses a `TableConstructor`: its fields in order.
#[verifier::opaque]
pub open spec fn spec_table_constructor(input: Tokens, pos: nat) -> Outcome<Tree>
    decreases rem(input, pos), 0nat,
{
    match token::OpenBrace::spec_parse(input, pos) {
        Outcome::Returns(Ok(x0), p0) => {
            if pos < p0 && p0 <= input.tokens.len() {
                match spec_fields(input, p0) {
                    Outcome::Returns(Ok(x1), p1) => {
                        match token::CloseBrace::spec_parse(input, p1) {
                            Outcome::Returns(Ok(x2), p2) => {
                                Outcome::Returns(Ok(Tree::Node(seq![x0, x1, x2])), p2)
                            },
                            Outcome::Returns(Err(e), _) => Outcome::Returns(Err(e), pos),
                            Outcome::Panics => Outcome::Panics,
                        }
                    },
                    Outcome::Returns(Err(e), _) => Outcome::Returns(Err(e), pos),
                    Outcome::Panics => Outcome::Panics,
                }
            } else {
                Outcome::Panics
            }
        },
        Outcome::Returns(Err(e), _) => Outcome::Returns(Err(e), pos),
        Outcome::Panics => Outcome::Panics,
    }
}

/// Parses a `MapField`: its fields in order.
#[verifier::opaque]
pub open spec fn spec_map_field(input: Tokens, pos: nat) -> Outcome<Tree>
    decreases rem(input, pos), 0nat,
{
    match token::Name::spec_parse(input, pos) {
        Outcome::Returns(Ok(x0), p0) => {
            match token::Equal::spec_parse(input, p0) {
                Outcome::Returns(Ok(x1), p1) => {
                    if pos < p1 && p1 <= input.tokens.len() {
                        match spec_exp(input, p1) {
                            Outcome::Returns(Ok(x2), p2) => {
                                Outcome::Returns(Ok(Tree::Node(seq![x0, x1, x2])), p2)
                            },
                            Outcome::Returns(Err(e), _) => Outcome::Returns(Err(e), pos),
                            Outcome::Panics => Outcome::Panics,
                        }
                    } else {
                        Outcome::Panics
                    }
                },
                Outcome::Returns(Err(e), _) => Outcome::Returns(Err(e), pos),
                Outcome::Panics => Outcome::Panics,
            }
        },
        Outcome::Returns(Err(e), _) => Outcome::Returns(Err(e), pos),
        Outcome::Panics => Outcome::Panics,
    }
}

/// Parses a `BracketField`: its fields in order.
#[verifier::opaque]
pub open spec fn spec_bracket_field(input: Tokens, pos: nat) -> Outcome<Tree>
    decreases rem(input, pos), 0nat,
{
    match token::OpenBracket::spec_parse(input, pos) {
        Outcome::Returns(Ok(x0), p0) => {
            if pos < p0 && p0 <= input.tokens.len() {
                match spec_exp(input, p0) {
                    Outcome::Returns(Ok(x1), p1) => {
                        match token::CloseBracket::spec_parse(input, p1) {
                            Outcome::Returns(Ok(x2), p2) => {
                                match token::Equal::spec_parse(input, p2) {
                                    Outcome::Returns(Ok(x3), p3) => {
                                        if pos < p3 && p3 <= input.tokens.len() {
                                            match spec_exp(input, p3) {
                                                Outcome::Returns(Ok(x4), p4) => {
                                                    Outcome::Returns(Ok(Tree::Node(seq![x0, x1, x2, x3, x4])), p4)
                                                },
                                                Outcome::Returns(Err(e), _) => Outcome::Returns(Err(e), pos),
                                                Outcome::Panics => Outcome::Panics,
                                            }
                                        } else {
                                            Outcome::Panics
                                        }
                                    },
                                    Outcome::Returns(Err(e), _) => Outcome::Returns(Err(e), pos),
                                    Outcome::Panics => Outcome::Panics,
                                }
                            },
                            Outcome::Returns(Err(e), _) => Outcome::Returns(Err(e), pos),
                            Outcome::Panics => Outcome::Panics,
                        }
                    },
                    Outcome::Returns(Err(e), _) => Outcome::Returns(Err(e), pos),
                    Outcome::Panics => Outcome::Panics,
                }
            } else {
                Outcome::Panics
            }
        },
        Outcome::Returns(Err(e), _) => Outcome::Returns(Err(e), pos),
        Outcome::Panics => Outcome::Panics,
    }
}

/// Parses a `Statement`: the first of its variants that parses.
#[verifier::opaque]
pub open spec fn spec_statement(input: Tokens, pos: nat) -> Outcome<Tree>
    decreases rem(input, pos), 9nat,
{
    match spec_st_assign(input, pos) {
        Outcome::Returns(Ok(x), p) => Outcome::Returns(Ok(Tree::Choice(0, Box::new(x))), p),
        Outcome::Returns(Err(_), _) => {
            match spec_function_call(input, pos) {
                Outcome::Returns(Ok(x), p) => Outcome::Returns(Ok(Tree::Choice(1, Box::new(x))), p),
                Outcome::Returns(Err(_), _) => {
                    match spec_st_block(input, pos) {
                        Outcome::Returns(Ok(x), p) => Outcome::Returns(Ok(Tree::Choice(2, Box::new(x))), p),
                        Outcome::Returns(Err(_), _) => {
                            match spec_st_while_loop(input, pos) {
                                Outcome::Returns(Ok(x), p) => Outcome::Returns(Ok(Tree::Choice(3, Box::new(x))), p),
                                Outcome::Returns(Err(_), _) => {
                                    match spec_st_repeat_loop(input, pos) {
                                        Outcome::Returns(Ok(x), p) => Outcome::Returns(Ok(Tree::Choice(4, Box::new(x))), p),
                                        Outcome::Returns(Err(_), _) => {
                                            match spec_st_if_else(input, pos) {
                                                Outcome::Returns(Ok(x), p) => Outcome::Returns(Ok(Tree::Choice(5, Box::new(x))), p),
                                                Outcome::Returns(Err(_), _) => {
                                                    match spec_st_for_range_loop(input, pos) {
                                                        Outcome::Returns(Ok(x), p) => Outcome::Returns(Ok(Tree::Choice(6, Box::new(x))), p),
                                                        Outcome::Returns(Err(_), _) => {
                                                            match spec_st_for_in_loop(input, pos) {
                                                                Outcome::Returns(Ok(x), p) => Outcome::Returns(Ok(Tree::Choice(7, Box::new(x))), p),
                                                                Outcome::Returns(Err(_), _) => {
                                                                    match spec_st_function_def(input, pos) {
                                                                        Outcome::Returns(Ok(x), p) => Outcome::Returns(Ok(Tree::Choice(8, Box::new(x))), p),
                                                                        Outcome::Returns(Err(_), _) => {
                                                                            match spec_st_local_function_def(input, pos) {
                                                                                Outcome::Returns(Ok(x), p) => Outcome::Returns(Ok(Tree::Choice(9, Box::new(x))), p),
                                                                                Outcome::Returns(Err(_), _) => {
                                                                                    match spec_st_local_init(input, pos) {
                                                                                        Outcome::Returns(Ok(x), p) => Outcome::Returns(Ok(Tree::Choice(10, Box::new(x))), p),
                                                                                        Outcome::Returns(Err(_), _) => {
                                                                                            match spec_st_goto(input, pos) {
                                                                                                Outcome::Returns(Ok(x), p) => Outcome::Returns(Ok(Tree::Choice(11, Box::new(x))), p),
                                                                                                Outcome::Returns(Err(_), _) => {
                                                                                                    match spec_st_label(input, pos) {
                                                                                                        Outcome::Returns(Ok(x), p) => Outcome::Returns(Ok(Tree::Choice(12, Box::new(x))), p),
                                                                                                        Outcome::Returns(Err(_), _) => {
                                                                                                            match spec_st_break(input, pos) {
                                                                                                                Outcome::Returns(Ok(x), p) => Outcome::Returns(Ok(Tree::Choice(13, Box::new(x))), p),
                                                                                                                Outcome::Returns(Err(_), _) => {
                                                                                                                    Outcome::Returns(Err(perr(peek_at(input, pos as int).spec_span().start as int, "expected Statement")), pos)
                                                                                                                },
                                                                                                                Outcome::Panics => Outcome::Panics,
                                                                                                            }
                                                                                                        },
                                                                                                        Outcome::Panics => Outcome::Panics,
                                                                                                    }
                                                                                                },
                                                                                                Outcome::Panics => Outcome::Panics,
                                                                                            }
                                                                                        },
                                                                                        Outcome::Panics => Outcome::Panics,
                                                                                    }
                                                                                },
                                                                                Outcome::Panics => Outcome::Panics,
                                                                            }
                                                                        },
                                                                        Outcome::Panics => Outcome::Panics,
                                                                    }
                                                                },
                                                                Outcome::Panics => Outcome::Panics,
                                                            }
                                                        },
                                                        Outcome::Panics => Outcome::Panics,
                                                    }
                                                },
                                                Outcome::Panics => Outcome::Panics,
                                            }
                                        },
                                        Outcome::Panics => Outcome::Panics,
                                    }
                                },
                                Outcome::Panics => Outcome::Panics,
                            }
                        },
                        Outcome::Panics => Outcome::Panics,
                    }
                },
                Outcome::Panics => Outcome::Panics,
            }
        },
        Outcome::Panics => Outcome::Panics,
    }
}

/// Parses a `FunctionArgs`: the first of its variants that parses.
#[verifier::opaque]
pub open spec fn spec_function_args(input: Tokens, pos: nat) -> Outcome<Tree>
    decreases rem(input, pos), 1nat,
{
    match spec_arg_list(input, pos) {
        Outcome::Returns(Ok(x), p) => Outcome::Returns(Ok(Tree::Choice(0, Box::new(x))), p),
        Outcome::Returns(Err(_), _) => {
            match spec_table_constructor(input, pos) {
                Outcome::Returns(Ok(x), p) => Outcome::Returns(Ok(Tree::Choice(1, Box::new(x))), p),
                Outcome::Returns(Err(_), _) => {
                    match token::LiteralString::spec_parse(input, pos) {
                        Outcome::Returns(Ok(x), p) => Outcome::Returns(Ok(Tree::Choice(2, Box::new(x))), p),
                        Outcome::Returns(Err(_), _) => {
                            Outcome::Returns(Err(perr(peek_at(input, pos as int).spec_span().start as int, "expected FunctionArgs")), pos)
                        },
                        Outcome::Panics => Outcome::Panics,
                    }
                },
                Outcome::Panics => Outcome::Panics,
            }
        },
        Outcome::Panics => Outcome::Panics,
    }
}

/// Parses a `LastStatement`: the first of its variants that parses.
#[verifier::opaque]
pub open spec fn spec_last_statement(input: Tokens, pos: nat) -> Outcome<Tree>
    decreases rem(input, pos), 1nat,
{
    match spec_st_return(input, pos) {
        Outcome::Returns(Ok(x), p) => Outcome::Returns(Ok(Tree::Choice(0, Box::new(x))), p),
        Outcome::Returns(Err(_), _) => {
            Outcome::Returns(Err(perr(peek_at(input, pos as int).spec_span().start as int, "expected LastStatement")), pos)
        },
        Outcome::Panics => Outcome::Panics,
    }
}

/// Parses a `Var`: the first of its variants that parses.
#[verifier::opaque]
pub open spec fn spec_var(input: Tokens, pos: nat) -> Outcome<Tree>
    decreases rem(input, pos), 4nat,
{
    match token::Name::spec_parse(input, pos) {
        Outcome::Returns(Ok(x), p) => Outcome::Returns(Ok(Tree::Choice(0, Box::new(x))), p),
        Outcome::Returns(Err(_), _) => {
            match spec_var_index(input, pos) {
                Outcome::Returns(Ok(x), p) => Outcome::Returns(Ok(Tree::Choice(1, Box::new(x))), p),
                Outcome::Returns(Err(_), _) => {
                    match spec_var_access(input, pos) {
                        Outcome::Returns(Ok(x), p) => Outcome::Returns(Ok(Tree::Choice(2, Box::new(x))), p),
                        Outcome::Returns(Err(_), _) => {
                            Outcome::Returns(Err(perr(peek_at(input, pos as int).spec_span().start as int, "expected Var")), pos)
                        },
                        Outcome::Panics => Outcome::Panics,
                    }
                },
                Outcome::Panics => Outcome::Panics,
            }
        },
        Outcome::Panics => Outcome::Panics,
    }
}

/// Parses a `PrefixExpKind`: the first of its variants that parses.
#[verifier::opaque]
pub open spec fn spec_prefix_exp_kind(input: Tokens, pos: nat) -> Outcome<Tree>
    decreases rem(input, pos), 1nat,
{
    match token::Name::spec_parse(input, pos) {
        Outcome::Returns(Ok(x), p) => Outcome::Returns(Ok(Tree::Choice(0, Box::new(x))), p),
        Outcome::Returns(Err(_), _) => {
            match spec_prefix_parens(input, pos) {
                Outcome::Returns(Ok(x), p) => Outcome::Returns(Ok(Tree::Choice(1, Box::new(x))), p),
                Outcome::Returns(Err(_), _) => {
                    Outcome::Returns(Err(perr(peek_at(input, pos as int).spec_span().start as int, "expected PrefixExpKind")), pos)
                },
                Outcome::Panics => Outcome::Panics,
            }
        },
        Outcome::Panics => Outcome::Panics,
    }
}

/// Parses a `PrefixExpSuffix`: the first of its variants that parses.
#[verifier::opaque]
pub open spec fn spec_prefix_exp_suffix(input: Tokens, pos: nat) -> Outcome<Tree>
    decreases rem(input, pos), 3nat,
{
    match spec_function_call_body(input, pos) {
        Outcome::Returns(Ok(x), p) => Outcome::Returns(Ok(Tree::Choice(0, Box::new(x))), p),
        Outcome::Returns(Err(_), _) => {
            match spec_var_index_body(input, pos) {
                Outcome::Returns(Ok(x), p) => Outcome::Returns(Ok(Tree::Choice(1, Box::new(x))), p),
                Outcome::Returns(Err(_), _) => {
                    match spec_var_access_body(input, pos) {
                        Outcome::Returns(Ok(x), p) => Outcome::Returns(Ok(Tree::Choice(2, Box::new(x))), p),
                        Outcome::Returns(Err(_), _) => {
                            Outcome::Returns(Err(perr(peek_at(input, pos as int).spec_span().start as int, "expected PrefixExpSuffix")), pos)
                        },
                        Outcome::Panics => Outcome::Panics,
                    }
                },
                Outcome::Panics => Outcome::Panics,
            }
        },
        Outcome::Panics => Outcome::Panics,
    }
}

/// Parses an `ExpAtom`: the first of its variants that parses.
#[verifier::opaque]
pub open spec fn spec_exp_atom(input: Tokens, pos: nat) -> Outcome<Tree>
    decreases rem(input, pos), 3nat,
{
    match token::Nil::spec_parse(input, pos) {
        Outcome::Returns(Ok(x), p) => Outcome::Returns(Ok(Tree::Choice(0, Box::new(x))), p),
        Outcome::Returns(Err(_), _) => {
            match token::True::spec_parse(input, pos) {
                Outcome::Returns(Ok(x), p) => Outcome::Returns(Ok(Tree::Choice(1, Box::new(x))), p),
                Outcome::Returns(Err(_), _) => {
                    match token::False::spec_parse(input, pos) {
                        Outcome::Returns(Ok(x), p) => Outcome::Returns(Ok(Tree::Choice(2, Box::new(x))), p),
                        Outcome::Returns(Err(_), _) => {
                            match spec_exp_literal(input, pos) {
                                Outcome::Returns(Ok(x), p) => Outcome::Returns(Ok(Tree::Choice(3, Box::new(x))), p),
                                Outcome::Returns(Err(_), _) => {
                                    match token::Ellipses::spec_parse(input, pos) {
                                        Outcome::Returns(Ok(x), p) => Outcome::Returns(Ok(Tree::Choice(4, Box::new(x))), p),
                                        Outcome::Returns(Err(_), _) => {
                                            match spec_exp_function(input, pos) {
                                                Outcome::Returns(Ok(x), p) => Outcome::Returns(Ok(Tree::Choice(5, Box::new(x))), p),
                                                Outcome::Returns(Err(_), _) => {
                                                    match spec_prefix_exp(input, pos) {
                                                        Outcome::Returns(Ok(x), p) => Outcome::Returns(Ok(Tree::Choice(6, Box::new(x))), p),
                                                        Outcome::Returns(Err(_), _) => {
                                                            match spec_table_constructor(input, pos) {
                                                                Outcome::Returns(Ok(x), p) => Outcome::Returns(Ok(Tree::Choice(7, Box::new(x))), p),
                                                                Outcome::Returns(Err(_), _) => {
                                                                    Outcome::Returns(Err(perr(peek_at(input, pos as int).spec_span().start as int, "expected ExpAtom")), pos)
                                                                },
                                                                Outcome::Panics => Outcome::Panics,
                                                            }
                                                        },
                                                        Outcome::Panics => Outcome::Panics,
                                                    }
                                                },
                                                Outcome::Panics => Outcome::Panics,
                                            }
                                        },
                                        Outcome::Panics => Outcome::Panics,
                                    }
                                },
                                Outcome::Panics => Outcome::Panics,
                            }
                        },
                        Outcome::Panics => Outcome::Panics,
                    }
                },
                Outcome::Panics => Outcome::Panics,
            }
        },
        Outcome::Panics => Outcome::Panics,
    }
}

/// Parses a `BinaryOperand`: the first of its tokens that is next.
pub open spec fn spec_binary_operand_value(input: Tokens, pos: nat) -> Outcome<BinaryOperand> {
    match peek_at(input, pos as int) {
        Token::Plus(x) => Outcome::Returns(Ok(BinaryOperand::Plus(x)), pos + 1),
        Token::Minus(x) => Outcome::Returns(Ok(BinaryOperand::Minus(x)), pos + 1),
        Token::Asterisk(x) => Outcome::Returns(Ok(BinaryOperand::Asterisk(x)), pos + 1),
        Token::Slash(x) => Outcome::Returns(Ok(BinaryOperand::Slash(x)), pos + 1),
        Token::Carat(x) => Outcome::Returns(Ok(BinaryOperand::Carat(x)), pos + 1),
        Token::Percent(x) => Outcome::Returns(Ok(BinaryOperand::Percent(x)), pos + 1),
        Token::DoubleDot(x) => Outcome::Returns(Ok(BinaryOperand::DoubleDot(x)), pos + 1),
        Token::Less(x) => Outcome::Returns(Ok(BinaryOperand::Less(x)), pos + 1),
        Token::LessEqual(x) => Outcome::Returns(Ok(BinaryOperand::LessEqual(x)), pos + 1),
        Token::Greater(x) => Outcome::Returns(Ok(BinaryOperand::Greater(x)), pos + 1),
        Token::GreaterEqual(x) => Outcome::Returns(Ok(BinaryOperand::GreaterEqual(x)), pos + 1),
        Token::DoubleEqual(x) => Outcome::Returns(Ok(BinaryOperand::DoubleEqual(x)), pos + 1),
        Token::TildeEqual(x) => Outcome::Returns(Ok(BinaryOperand::TildeEqual(x)), pos + 1),
        Token::And(x) => Outcome::Returns(Ok(BinaryOperand::And(x)), pos + 1),
        Token::Or(x) => Outcome::Returns(Ok(BinaryOperand::Or(x)), pos + 1),
        Token::DoubleSlash(x) => Outcome::Returns(Ok(BinaryOperand::DoubleSlash(x)), pos + 1),
        Token::Pipe(x) => Outcome::Returns(Ok(BinaryOperand::Pipe(x)), pos + 1),
        Token::Tilde(x) => Outcome::Returns(Ok(BinaryOperand::Tilde(x)), pos + 1),
        Token::Ampersand(x) => Outcome::Returns(Ok(BinaryOperand::Ampersand(x)), pos + 1),
        Token::DoubleLess(x) => Outcome::Returns(Ok(BinaryOperand::DoubleLess(x)), pos + 1),
        Token::DoubleGreater(x) => Outcome::Returns(Ok(BinaryOperand::DoubleGreater(x)), pos + 1),
        other => Outcome::Returns(Err(perr(other.spec_span().start as int, "expected BinaryOperand")), pos),
    }
}

/// Parses a `BinaryOperand`, as a parse tree.
pub open spec fn spec_binary_operand(input: Tokens, pos: nat) -> Outcome<Tree> {
    match spec_binary_operand_value(input, pos) {
        Outcome::Returns(Ok(v), p) => Outcome::Returns(Ok(tree_binary_operand(v)), p),
        Outcome::Returns(Err(e), p) => Outcome::Returns(Err(e), p),
        Outcome::Panics => Outcome::Panics,
    }
}

/// Parses an `UnaryOperand`: the first of its tokens that is next.
pub open spec fn spec_unary_operand_value(input: Tokens, pos: nat) -> Outcome<UnaryOperand> {
    match peek_at(input, pos as int) {
        Token::Minus(x) => Outcome::Returns(Ok(UnaryOperand::Minus(x)), pos + 1),
        Token::Not(x) => Outcome::Returns(Ok(UnaryOperand::Not(x)), pos + 1),
        Token::Hashtag(x) => Outcome::Returns(Ok(UnaryOperand::Hashtag(x)), pos + 1),
        Token::Tilde(x) => Outcome::Returns(Ok(UnaryOperand::Tilde(x)), pos + 1),
        other => Outcome::Returns(Err(perr(other.spec_span().start as int, "expected UnaryOperand")), pos),
    }
}

/// Parses an `UnaryOperand`, as a parse tree.
pub open spec fn spec_unary_operand(input: Tokens, pos: nat) -> Outcome<Tree> {
    match spec_unary_operand_value(input, pos) {
        Outcome::Returns(Ok(v), p) => Outcome::Returns(Ok(tree_unary_operand(v)), p),
        Outcome::Returns(Err(e), p) => Outcome::Returns(Err(e), p),
        Outcome::Panics => Outcome::Panics,
    }
}

/// Parses a `FieldSep`: the first of its variants that parses.
#[verifier::opaque]
pub open spec fn spec_field_sep(input: Tokens, pos: nat) -> Outcome<Tree>
{
    match token::Comma::spec_parse(input, pos) {
        Outcome::Returns(Ok(x), p) => Outcome::Returns(Ok(Tree::Choice(0, Box::new(x))), p),
        Outcome::Returns(Err(_), _) => {
            match token::Semicolon::spec_parse(input, pos) {
                Outcome::Returns(Ok(x), p) => Outcome::Returns(Ok(Tree::Choice(1, Box::new(x))), p),
                Outcome::Returns(Err(_), _) => {
                    Outcome::Returns(Err(perr(peek_at(input, pos as int).spec_span().start as int, "expected FieldSep")), pos)
                },
                Outcome::Panics => Outcome::Panics,
            }
        },
        Outcome::Panics => Outcome::Panics,
    }
}

/// Parses a `Field`: the first of its variants that parses.
#[verifier::opaque]
pub open spec fn spec_field(input: Tokens, pos: nat) -> Outcome<Tree>
    decreases rem(input, pos), 7nat,
{
    match spec_exp(input, pos) {
        Outcome::Returns(Ok(x), p) => Outcome::Returns(Ok(Tree::Choice(0, Box::new(x))), p),
        Outcome::Returns(Err(_), _) => {
            match spec_map_field(input, pos) {
                Outcome::Returns(Ok(x), p) => Outcome::Returns(Ok(Tree::Choice(1, Box::new(x))), p),
                Outcome::Returns(Err(_), _) => {
                    match spec_bracket_field(input, pos) {
                        Outcome::Returns(Ok(x), p) => Outcome::Returns(Ok(Tree::Choice(2, Box::new(x))), p),
                        Outcome::Returns(Err(_), _) => {
                            Outcome::Returns(Err(perr(peek_at(input, pos as int).spec_span().start as int, "expected Field")), pos)
                        },
                        Outcome::Panics => Outcome::Panics,
                    }
                },
                Outcome::Panics => Outcome::Panics,
            }
        },
        Outcome::Panics => Outcome::Panics,
    }
}

/// Parses an `ExpLiteral`: the first of its variants that parses.
#[verifier::opaque]
pub open spec fn spec_exp_literal(input: Tokens, pos: nat) -> Outcome<Tree>
{
    match token::LiteralNumber::spec_parse(input, pos) {
        Outcome::Returns(Ok(x), p) => Outcome::Returns(Ok(Tree::Choice(0, Box::new(x))), p),
        Outcome::Returns(Err(_), _) => {
            match token::LiteralString::spec_parse(input, pos) {
                Outcome::Returns(Ok(x), p) => Outcome::Returns(Ok(Tree::Choice(1, Box::new(x))), p),
                Outcome::Returns(Err(_), _) => {
                    Outcome::Returns(Err(perr(peek_at(input, pos as int).spec_span().start as int, "expected ExpLiteral")), pos)
                },
                Outcome::Panics => Outcome::Panics,
            }
        },
        Outcome::Panics => Outcome::Panics,
    }
}

/// The items of a list from `pos` on, as long as they parse. An item
/// always consumes a token: otherwise the loop would not end, which the
/// guard's other branch stands for.
#[verifier::opaque]
pub open spec fn spec_stmts_items(input: Tokens, pos: nat) -> Outcome<Seq<Tree>>
    decreases rem(input, pos), 11nat,
{
    match spec_stmt_semi(input, pos) {
        Outcome::Returns(Ok(x), p) => if pos < p && p <= input.tokens.len() {
            prepend_trees(seq![x], spec_stmts_items(input, p))
        } else {
            Outcome::Panics
        },
        Outcome::Returns(Err(_), _) => Outcome::Returns(Ok(seq![]), pos),
        Outcome::Panics => Outcome::Panics,
    }
}

#[verifier::opaque]
pub open spec fn spec_stmts(input: Tokens, pos: nat) -> Outcome<Tree>
    decreases rem(input, pos), 12nat,
{
    as_node(spec_stmts_items(input, pos))
}

#[verifier::opaque]
pub open spec fn spec_stmt_semi(input: Tokens, pos: nat) -> Outcome<Tree>
    decreases rem(input, pos), 10nat,
{
    match spec_statement(input, pos) {
        Outcome::Returns(Ok(a), p) => {
            match spec_opt_semi(input, p) {
                Outcome::Returns(Ok(b), q) => Outcome::Returns(Ok(Tree::Node(seq![a, b])), q),
                Outcome::Returns(Err(e), q) => Outcome::Returns(Err(e), q),
                Outcome::Panics => Outcome::Panics,
            }
        },
        Outcome::Returns(Err(e), p) => Outcome::Returns(Err(e), p),
        Outcome::Panics => Outcome::Panics,
    }
}

#[verifier::opaque]
pub open spec fn spec_opt_semi(input: Tokens, pos: nat) -> Outcome<Tree>
{
    match token::Semicolon::spec_parse(input, pos) {
        Outcome::Returns(Ok(x), p) => Outcome::Returns(Ok(Tree::Opt(Some(Box::new(x)))), p),
        Outcome::Returns(Err(_), _) => Outcome::Returns(Ok(Tree::Opt(None)), pos),
        Outcome::Panics => Outcome::Panics,
    }
}

#[verifier::opaque]
pub open spec fn spec_opt_last(input: Tokens, pos: nat) -> Outcome<Tree>
    decreases rem(input, pos), 3nat,
{
    match spec_last_semi(input, pos) {
        Outcome::Returns(Ok(x), p) => Outcome::Returns(Ok(Tree::Opt(Some(Box::new(x)))), p),
        Outcome::Returns(Err(_), _) => Outcome::Returns(Ok(Tree::Opt(None)), pos),
        Outcome::Panics => Outcome::Panics,
    }
}

#[verifier::opaque]
pub open spec fn spec_last_semi(input: Tokens, pos: nat) -> Outcome<Tree>
    decreases rem(input, pos), 2nat,
{
    match spec_last_statement(input, pos) {
        Outcome::Returns(Ok(a), p) => {
            match spec_opt_semi(input, p) {
                Outcome::Returns(Ok(b), q) => Outcome::Returns(Ok(Tree::Node(seq![a, b])), q),
                Outcome::Returns(Err(e), q) => Outcome::Returns(Err(e), q),
                Outcome::Panics => Outcome::Panics,
            }
        },
        Outcome::Returns(Err(e), p) => Outcome::Returns(Err(e), p),
        Outcome::Panics => Outcome::Panics,
    }
}

/// Pairs, then a last item.
#[verifier::opaque]
pub open spec fn spec_var_list(input: Tokens, pos: nat) -> Outcome<Tree>
    decreases rem(input, pos), 7nat,
{
    match spec_var_pairs(input, pos) {
        Outcome::Returns(Ok(pt), p1) => {
            if moved(input, pos, p1) {
                match spec_var(input, p1) {
                Outcome::Returns(Ok(last), p2) => Outcome::Returns(Ok(Tree::Node(seq![pt, last])), p2),
                Outcome::Returns(Err(e), p2) => Outcome::Returns(Err(e), p2),
                Outcome::Panics => Outcome::Panics,
            }
            } else {
                Outcome::Panics
            }
        },
        Outcome::Returns(Err(e), p1) => Outcome::Returns(Err(e), p1),
        Outcome::Panics => Outcome::Panics,
    }
}

/// The item-separator pairs of a list from `pos` on, as long as both parse.
#[verifier::opaque]
pub open spec fn spec_var_pairs_items(input: Tokens, pos: nat) -> Outcome<Seq<Tree>>
    decreases rem(input, pos), 5nat,
{
    match spec_var(input, pos) {
        Outcome::Returns(Ok(x), p1) => match token::Comma::spec_parse(input, p1) {
            Outcome::Returns(Ok(s), p2) => if pos < p2 && p2 <= input.tokens.len() {
                prepend_trees(seq![Tree::Node(seq![x, s])], spec_var_pairs_items(input, p2))
            } else {
                Outcome::Panics
            },
            Outcome::Returns(Err(_), _) => Outcome::Returns(Ok(seq![]), pos),
            Outcome::Panics => Outcome::Panics,
        },
        Outcome::Returns(Err(_), _) => Outcome::Returns(Ok(seq![]), pos),
        Outcome::Panics => Outcome::Panics,
    }
}

#[verifier::opaque]
pub open spec fn spec_var_pairs(input: Tokens, pos: nat) -> Outcome<Tree>
    decreases rem(input, pos), 6nat,
{
    as_node(spec_var_pairs_items(input, pos))
}

/// Pairs, then a last item.
#[verifier::opaque]
pub open spec fn spec_exp_list(input: Tokens, pos: nat) -> Outcome<Tree>
    decreases rem(input, pos), 9nat,
{
    match spec_exp_pairs(input, pos) {
        Outcome::Returns(Ok(pt), p1) => {
            if moved(input, pos, p1) {
                match spec_exp(input, p1) {
                Outcome::Returns(Ok(last), p2) => Outcome::Returns(Ok(Tree::Node(seq![pt, last])), p2),
                Outcome::Returns(Err(e), p2) => Outcome::Returns(Err(e), p2),
                Outcome::Panics => Outcome::Panics,
            }
            } else {
                Outcome::Panics
            }
        },
        Outcome::Returns(Err(e), p1) => Outcome::Returns(Err(e), p1),
        Outcome::Panics => Outcome::Panics,
    }
}

/// The item-separator pairs of a list from `pos` on, as long as both parse.
#[verifier::opaque]
pub open spec fn spec_exp_pairs_items(input: Tokens, pos: nat) -> Outcome<Seq<Tree>>
    decreases rem(input, pos), 7nat,
{
    match spec_exp(input, pos) {
        Outcome::Returns(Ok(x), p1) => match token::Comma::spec_parse(input, p1) {
            Outcome::Returns(Ok(s), p2) => if pos < p2 && p2 <= input.tokens.len() {
                prepend_trees(seq![Tree::Node(seq![x, s])], spec_exp_pairs_items(input, p2))
            } else {
                Outcome::Panics
            },
            Outcome::Returns(Err(_), _) => Outcome::Returns(Ok(seq![]), pos),
            Outcome::Panics => Outcome::Panics,
        },
        Outcome::Returns(Err(_), _) => Outcome::Returns(Ok(seq![]), pos),
        Outcome::Panics => Outcome::Panics,
    }
}

#[verifier::opaque]
pub open spec fn spec_exp_pairs(input: Tokens, pos: nat) -> Outcome<Tree>
    decreases rem(input, pos), 8nat,
{
    as_node(spec_exp_pairs_items(input, pos))
}

/// Pairs, then a last item.
#[verifier::opaque]
pub open spec fn spec_name_list(input: Tokens, pos: nat) -> Outcome<Tree>
{
    match spec_name_pairs(input, pos) {
        Outcome::Returns(Ok(pt), p1) => {
            match token::Name::spec_parse(input, p1) {
                Outcome::Returns(Ok(last), p2) => Outcome::Returns(Ok(Tree::Node(seq![pt, last])), p2),
                Outcome::Returns(Err(e), p2) => Outcome::Returns(Err(e), p2),
                Outcome::Panics => Outcome::Panics,
            }
        },
        Outcome::Returns(Err(e), p1) => Outcome::Returns(Err(e), p1),
        Outcome::Panics => Outcome::Panics,
    }
}

/// The item-separator pairs of a list from `pos` on, as long as both parse.
#[verifier::opaque]
pub open spec fn spec_name_pairs_items(input: Tokens, pos: nat) -> Outcome<Seq<Tree>>
    decreases rem(input, pos), 0nat,
{
    match token::Name::spec_parse(input, pos) {
        Outcome::Returns(Ok(x), p1) => match token::Comma::spec_parse(input, p1) {
            Outcome::Returns(Ok(s), p2) => if pos < p2 && p2 <= input.tokens.len() {
                prepend_trees(seq![Tree::Node(seq![x, s])], spec_name_pairs_items(input, p2))
            } else {
                Outcome::Panics
            },
            Outcome::Returns(Err(_), _) => Outcome::Returns(Ok(seq![]), pos),
            Outcome::Panics => Outcome::Panics,
        },
        Outcome::Returns(Err(_), _) => Outcome::Returns(Ok(seq![]), pos),
        Outcome::Panics => Outcome::Panics,
    }
}

#[verifier::opaque]
pub open spec fn spec_name_pairs(input: Tokens, pos: nat) -> Outcome<Tree>
{
    as_node(spec_name_pairs_items(input, pos))
}

/// Pairs, then a last item.
#[verifier::opaque]
pub open spec fn spec_attr_name_list(input: Tokens, pos: nat) -> Outcome<Tree>
{
    match spec_attr_pairs(input, pos) {
        Outcome::Returns(Ok(pt), p1) => {
            match spec_name_attr(input, p1) {
                Outcome::Returns(Ok(last), p2) => Outcome::Returns(Ok(Tree::Node(seq![pt, last])), p2),
                Outcome::Returns(Err(e), p2) => Outcome::Returns(Err(e), p2),
                Outcome::Panics => Outcome::Panics,
            }
        },
        Outcome::Returns(Err(e), p1) => Outcome::Returns(Err(e), p1),
        Outcome::Panics => Outcome::Panics,
    }
}

/// The item-separator pairs of a list from `pos` on, as long as both parse.
#[verifier::opaque]
pub open spec fn spec_attr_pairs_items(input: Tokens, pos: nat) -> Outcome<Seq<Tree>>
    decreases rem(input, pos), 0nat,
{
    match spec_name_attr(input, pos) {
        Outcome::Returns(Ok(x), p1) => match token::Comma::spec_parse(input, p1) {
            Outcome::Returns(Ok(s), p2) => if pos < p2 && p2 <= input.tokens.len() {
                prepend_trees(seq![Tree::Node(seq![x, s])], spec_attr_pairs_items(input, p2))
            } else {
                Outcome::Panics
            },
            Outcome::Returns(Err(_), _) => Outcome::Returns(Ok(seq![]), pos),
            Outcome::Panics => Outcome::Panics,
        },
        Outcome::Returns(Err(_), _) => Outcome::Returns(Ok(seq![]), pos),
        Outcome::Panics => Outcome::Panics,
    }
}

#[verifier::opaque]
pub open spec fn spec_attr_pairs(input: Tokens, pos: nat) -> Outcome<Tree>
{
    as_node(spec_attr_pairs_items(input, pos))
}

#[verifier::opaque]
pub open spec fn spec_name_attr(input: Tokens, pos: nat) -> Outcome<Tree>
{
    match token::Name::spec_parse(input, pos) {
        Outcome::Returns(Ok(a), p) => {
            match spec_opt_attribute(input, p) {
                Outcome::Returns(Ok(b), q) => Outcome::Returns(Ok(Tree::Node(seq![a, b])), q),
                Outcome::Returns(Err(e), q) => Outcome::Returns(Err(e), q),
                Outcome::Panics => Outcome::Panics,
            }
        },
        Outcome::Returns(Err(e), p) => Outcome::Returns(Err(e), p),
        Outcome::Panics => Outcome::Panics,
    }
}

#[verifier::opaque]
pub open spec fn spec_opt_attribute(input: Tokens, pos: nat) -> Outcome<Tree>
{
    match spec_attribute(input, pos) {
        Outcome::Returns(Ok(x), p) => Outcome::Returns(Ok(Tree::Opt(Some(Box::new(x)))), p),
        Outcome::Returns(Err(_), _) => Outcome::Returns(Ok(Tree::Opt(None)), pos),
        Outcome::Panics => Outcome::Panics,
    }
}

#[verifier::opaque]
pub open spec fn spec_local_init(input: Tokens, pos: nat) -> Outcome<Tree>
    decreases rem(input, pos), 1nat,
{
    match spec_eq_exps(input, pos) {
        Outcome::Returns(Ok(x), p) => Outcome::Returns(Ok(Tree::Opt(Some(Box::new(x)))), p),
        Outcome::Returns(Err(_), _) => Outcome::Returns(Ok(Tree::Opt(None)), pos),
        Outcome::Panics => Outcome::Panics,
    }
}

#[verifier::opaque]
pub open spec fn spec_eq_exps(input: Tokens, pos: nat) -> Outcome<Tree>
    decreases rem(input, pos), 0nat,
{
    match token::Equal::spec_parse(input, pos) {
        Outcome::Returns(Ok(a), p) => {
            if pos < p && p <= input.tokens.len() {
                match spec_exp_list(input, p) {
                Outcome::Returns(Ok(b), q) => Outcome::Returns(Ok(Tree::Node(seq![a, b])), q),
                Outcome::Returns(Err(e), q) => Outcome::Returns(Err(e), q),
                Outcome::Panics => Outcome::Panics,
            }
            } else {
                Outcome::Panics
            }
        },
        Outcome::Returns(Err(e), p) => Outcome::Returns(Err(e), p),
        Outcome::Panics => Outcome::Panics,
    }
}

/// Pairs, then a last item.
#[verifier::opaque]
pub open spec fn spec_func_path(input: Tokens, pos: nat) -> Outcome<Tree>
{
    match spec_path_pairs(input, pos) {
        Outcome::Returns(Ok(pt), p1) => {
            match token::Name::spec_parse(input, p1) {
                Outcome::Returns(Ok(last), p2) => Outcome::Returns(Ok(Tree::Node(seq![pt, last])), p2),
                Outcome::Returns(Err(e), p2) => Outcome::Returns(Err(e), p2),
                Outcome::Panics => Outcome::Panics,
            }
        },
        Outcome::Returns(Err(e), p1) => Outcome::Returns(Err(e), p1),
        Outcome::Panics => Outcome::Panics,
    }
}

/// The item-separator pairs of a list from `pos` on, as long as both parse.
#[verifier::opaque]
pub open spec fn spec_path_pairs_items(input: Tokens, pos: nat) -> Outcome<Seq<Tree>>
    decreases rem(input, pos), 0nat,
{
    match token::Name::spec_parse(input, pos) {
        Outcome::Returns(Ok(x), p1) => match token::Dot::spec_parse(input, p1) {
            Outcome::Returns(Ok(s), p2) => if pos < p2 && p2 <= input.tokens.len() {
                prepend_trees(seq![Tree::Node(seq![x, s])], spec_path_pairs_items(input, p2))
            } else {
                Outcome::Panics
            },
            Outcome::Returns(Err(_), _) => Outcome::Returns(Ok(seq![]), pos),
            Outcome::Panics => Outcome::Panics,
        },
        Outcome::Returns(Err(_), _) => Outcome::Returns(Ok(seq![]), pos),
        Outcome::Panics => Outcome::Panics,
    }
}

#[verifier::opaque]
pub open spec fn spec_path_pairs(input: Tokens, pos: nat) -> Outcome<Tree>
{
    as_node(spec_path_pairs_items(input, pos))
}

#[verifier::opaque]
pub open spec fn spec_opt_step(input: Tokens, pos: nat) -> Outcome<Tree>
    decreases rem(input, pos), 1nat,
{
    match spec_comma_exp(input, pos) {
        Outcome::Returns(Ok(x), p) => Outcome::Returns(Ok(Tree::Opt(Some(Box::new(x)))), p),
        Outcome::Returns(Err(_), _) => Outcome::Returns(Ok(Tree::Opt(None)), pos),
        Outcome::Panics => Outcome::Panics,
    }
}

#[verifier::opaque]
pub open spec fn spec_comma_exp(input: Tokens, pos: nat) -> Outcome<Tree>
    decreases rem(input, pos), 0nat,
{
    match token::Comma::spec_parse(input, pos) {
        Outcome::Returns(Ok(a), p) => {
            if pos < p && p <= input.tokens.len() {
                match spec_exp(input, p) {
                Outcome::Returns(Ok(b), q) => Outcome::Returns(Ok(Tree::Node(seq![a, b])), q),
                Outcome::Returns(Err(e), q) => Outcome::Returns(Err(e), q),
                Outcome::Panics => Outcome::Panics,
            }
            } else {
                Outcome::Panics
            }
        },
        Outcome::Returns(Err(e), p) => Outcome::Returns(Err(e), p),
        Outcome::Panics => Outcome::Panics,
    }
}

/// The items of a list from `pos` on, as long as they parse. An item
/// always consumes a token: otherwise the loop would not end, which the
/// guard's other branch stands for.
#[verifier::opaque]
pub open spec fn spec_elseifs_items(input: Tokens, pos: nat) -> Outcome<Seq<Tree>>
    decreases rem(input, pos), 1nat,
{
    match spec_else_if_branch(input, pos) {
        Outcome::Returns(Ok(x), p) => if pos < p && p <= input.tokens.len() {
            prepend_trees(seq![x], spec_elseifs_items(input, p))
        } else {
            Outcome::Panics
        },
        Outcome::Returns(Err(_), _) => Outcome::Returns(Ok(seq![]), pos),
        Outcome::Panics => Outcome::Panics,
    }
}

#[verifier::opaque]
pub open spec fn spec_elseifs(input: Tokens, pos: nat) -> Outcome<Tree>
    decreases rem(input, pos), 2nat,
{
    as_node(spec_elseifs_items(input, pos))
}

#[verifier::opaque]
pub open spec fn spec_opt_else(input: Tokens, pos: nat) -> Outcome<Tree>
    decreases rem(input, pos), 1nat,
{
    match spec_else_branch(input, pos) {
        Outcome::Returns(Ok(x), p) => Outcome::Returns(Ok(Tree::Opt(Some(Box::new(x)))), p),
        Outcome::Returns(Err(_), _) => Outcome::Returns(Ok(Tree::Opt(None)), pos),
        Outcome::Panics => Outcome::Panics,
    }
}

#[verifier::opaque]
pub open spec fn spec_opt_qualifier(input: Tokens, pos: nat) -> Outcome<Tree>
{
    match spec_colon_name(input, pos) {
        Outcome::Returns(Ok(x), p) => Outcome::Returns(Ok(Tree::Opt(Some(Box::new(x)))), p),
        Outcome::Returns(Err(_), _) => Outcome::Returns(Ok(Tree::Opt(None)), pos),
        Outcome::Panics => Outcome::Panics,
    }
}

#[verifier::opaque]
pub open spec fn spec_colon_name(input: Tokens, pos: nat) -> Outcome<Tree>
{
    match token::Colon::spec_parse(input, pos) {
        Outcome::Returns(Ok(a), p) => {
            match token::Name::spec_parse(input, p) {
                Outcome::Returns(Ok(b), q) => Outcome::Returns(Ok(Tree::Node(seq![a, b])), q),
                Outcome::Returns(Err(e), q) => Outcome::Returns(Err(e), q),
                Outcome::Panics => Outcome::Panics,
            }
        },
        Outcome::Returns(Err(e), p) => Outcome::Returns(Err(e), p),
        Outcome::Panics => Outcome::Panics,
    }
}

#[verifier::opaque]
pub open spec fn spec_opt_ellipses(input: Tokens, pos: nat) -> Outcome<Tree>
{
    match token::Ellipses::spec_parse(input, pos) {
        Outcome::Returns(Ok(x), p) => Outcome::Returns(Ok(Tree::Opt(Some(Box::new(x)))), p),
        Outcome::Returns(Err(_), _) => Outcome::Returns(Ok(Tree::Opt(None)), pos),
        Outcome::Panics => Outcome::Panics,
    }
}

/// The items of a list from `pos` on, as long as they parse. An item
/// always consumes a token: otherwise the loop would not end, which the
/// guard's other branch stands for.
#[verifier::opaque]
pub open spec fn spec_suffixes_items(input: Tokens, pos: nat) -> Outcome<Seq<Tree>>
    decreases rem(input, pos), 4nat,
{
    match spec_prefix_exp_suffix(input, pos) {
        Outcome::Returns(Ok(x), p) => if pos < p && p <= input.tokens.len() {
            prepend_trees(seq![x], spec_suffixes_items(input, p))
        } else {
            Outcome::Panics
        },
        Outcome::Returns(Err(_), _) => Outcome::Returns(Ok(seq![]), pos),
        Outcome::Panics => Outcome::Panics,
    }
}

#[verifier::opaque]
pub open spec fn spec_suffixes(input: Tokens, pos: nat) -> Outcome<Tree>
    decreases rem(input, pos), 5nat,
{
    as_node(spec_suffixes_items(input, pos))
}

/// The item-separator pairs from `pos` on, and the item that parsed last
/// without a separator after it, if any; the cursor ends after that item.
#[verifier::opaque]
pub open spec fn spec_fields_loop(input: Tokens, pos: nat) -> Outcome<(Seq<Tree>, Option<Tree>)>
    decreases rem(input, pos), 8nat,
{
    match spec_field(input, pos) {
        Outcome::Returns(Ok(x), p1) => match spec_field_sep(input, p1) {
            Outcome::Returns(Ok(s), p2) => if pos < p2 && p2 <= input.tokens.len() {
                prepend_pairs(seq![Tree::Node(seq![x, s])], spec_fields_loop(input, p2))
            } else {
                Outcome::Panics
            },
            Outcome::Returns(Err(_), _) => Outcome::Returns(Ok((seq![], Some(x))), p1),
            Outcome::Panics => Outcome::Panics,
        },
        Outcome::Returns(Err(_), _) => Outcome::Returns(Ok((seq![], None)), pos),
        Outcome::Panics => Outcome::Panics,
    }
}

#[verifier::opaque]
pub open spec fn spec_fields(input: Tokens, pos: nat) -> Outcome<Tree>
    decreases rem(input, pos), 9nat,
{
    match spec_fields_loop(input, pos) {
        Outcome::Returns(Ok((items, Some(last))), p) => Outcome::Returns(
            Ok(Tree::Choice(0, Box::new(Tree::Node(seq![Tree::Node(items), last])))),
            p,
        ),
        Outcome::Returns(Ok((items, None)), p) => Outcome::Returns(Ok(Tree::Choice(1, Box::new(Tree::Node(items)))), p),
        Outcome::Returns(Err(e), p) => Outcome::Returns(Err(e), p),
        Outcome::Panics => Outcome::Panics,
    }
}

/// Parses a `FunctionName`: a dotted path, then `:` and a name if a `:` is
/// next.
#[verifier::opaque]
pub open spec fn spec_function_name(input: Tokens, pos: nat) -> Outcome<Tree>
{
    match spec_func_path(input, pos) {
        Outcome::Returns(Ok(path), p1) => if peek_at(input, p1 as int) is Colon {
            match token::Colon::spec_parse(input, p1) {
                Outcome::Returns(Ok(c), p2) => match token::Name::spec_parse(input, p2) {
                    Outcome::Returns(Ok(n), p3) => Outcome::Returns(
                        Ok(Tree::Node(seq![path, Tree::Opt(Some(Box::new(Tree::Node(seq![c, n]))))])),
                        p3,
                    ),
                    Outcome::Returns(Err(e), p3) => Outcome::Returns(Err(e), p3),
                    Outcome::Panics => Outcome::Panics,
                },
                Outcome::Returns(Err(e), p2) => Outcome::Returns(Err(e), p2),
                Outcome::Panics => Outcome::Panics,
            }
        } else {
            Outcome::Returns(Ok(Tree::Node(seq![path, Tree::Opt(None)])), p1)
        },
        Outcome::Returns(Err(e), p1) => Outcome::Returns(Err(e), p1),
        Outcome::Panics => Outcome::Panics,
    }
}

/// Parses an operand of a binary operator: a unary operator and what it
/// applies to (an expression of the operators that bind tighter than unary
/// ones, that is `^`), or an atom.
#[verifier::opaque]
pub open spec fn exp_operand(input: Tokens, pos: nat) -> Outcome<Tree>
    decreases rem(input, pos), 4nat,
{
    match spec_unary_operand_value(input, pos) {
        Outcome::Returns(Ok(u), p) => if pos < p && p <= input.tokens.len() {
            match exp_climb(input, p, UNARY_PRECEDENCE as nat + 1) {
                Outcome::Returns(Ok(e), q) => Outcome::Returns(
                    Ok(Tree::Choice(1, Box::new(Tree::Node(seq![tree_unary_operand(u), e])))),
                    q,
                ),
                other => other,
            }
        } else {
            Outcome::Panics
        },
        Outcome::Returns(Err(_), _) => match spec_exp_atom(input, pos) {
            Outcome::Returns(Ok(a), p) => Outcome::Returns(Ok(Tree::Choice(0, Box::new(a))), p),
            other => other,
        },
        Outcome::Panics => Outcome::Panics,
    }
}

/// Parses an expression whose binary operators all bind at least as tightly
/// as precedence `min`: an operand, then the operators that follow it.
#[verifier::opaque]
pub open spec fn exp_climb(input: Tokens, pos: nat, min: nat) -> Outcome<Tree>
    decreases rem(input, pos), 5nat,
{
    match exp_operand(input, pos) {
        Outcome::Returns(Ok(left), p) => if moved(input, pos, p) {
            exp_rest(input, p, left, min)
        } else {
            Outcome::Panics
        },
        other => other,
    }
}

/// Goes on with an expression after its part `left`: while the next binary
/// operator binds at least as tightly as `min`, it joins `left` to the
/// expression after it, which holds only operators that bind tighter (or, for
/// an operator that groups to the right, as tightly).
#[verifier::opaque]
pub open spec fn exp_rest(input: Tokens, pos: nat, left: Tree, min: nat) -> Outcome<Tree>
    decreases rem(input, pos), 0nat,
{
    match spec_binary_operand_value(input, pos) {
        Outcome::Returns(Ok(b), p) => if b.spec_precedence() < min {
            Outcome::Returns(Ok(left), pos)
        } else if pos < p && p <= input.tokens.len() {
            let next: nat = if b.spec_left_assoc() {
                (b.spec_precedence() + 1) as nat
            } else {
                b.spec_precedence() as nat
            };
            match exp_climb(input, p, next) {
                Outcome::Returns(Ok(right), q) => if moved(input, p, q) {
                    exp_rest(
                        input,
                        q,
                        Tree::Choice(2, Box::new(Tree::Node(seq![left, tree_binary_operand(b), right]))),
                        min,
                    )
                } else {
                    Outcome::Panics
                },
                other => other,
            }
        } else {
            Outcome::Panics
        },
        Outcome::Returns(Err(_), _) => Outcome::Returns(Ok(left), pos),
        Outcome::Panics => Outcome::Panics,
    }
}

/// Parses an expression by operator precedence: binary operators that bind
/// tighter group first, operators of one precedence group as their
/// associativity says, and a unary operator binds tighter than every binary
/// operator but `^`.
#[verifier::opaque]
pub open spec fn spec_exp(input: Tokens, pos: nat) -> Outcome<Tree>
    decreases rem(input, pos), 6nat,
{
    exp_climb(input, pos, 0)
}

} // verus!
