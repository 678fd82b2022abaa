//! Unfolding lemmas: each states, once, what a parse tree or a parse of the
//! grammar is in terms of its parts.

use vstd::prelude::*;

use crate::element::{
    ArgList, Attribute, BracketField, Chunk, ElseBranch, ElseIfBranch, Exp, ExpAtom, ExpFunction,
    ExpLiteral, Field, FieldSep, FunctionArgs, FunctionBody, FunctionCall, FunctionCallBody,
    FunctionName, IfBranch, LastStatement, MapField, ParList, PrefixExp, PrefixExpKind,
    PrefixExpSuffix, PrefixParens, Separated, SeparatedNoTrailing, SeparatedTrailing, StAssign,
    StBlock, StBreak, StForInLoop, StForRangeLoop, StFunctionDef, StGoto, StIfElse, StLabel,
    StLocalFunctionDef, StLocalInit, StRepeatLoop, StReturn, StWhileLoop, Statement,
    TableConstructor, Var, VarAccess, VarAccessBody, VarIndex, VarIndexBody,
};
use crate::parse::{Parseable, as_node, moved, perr, prepend_pairs, prepend_trees, Outcome, Tree};
use crate::token;
use crate::token::Token;
use crate::tokenize::{peek_at, Tokens};

use crate::grammar::{
    exp_climb, exp_operand, exp_rest, spec_arg_list, spec_attr_name_list, spec_attr_pairs,
    spec_attr_pairs_items, spec_attribute, spec_binary_operand_value, spec_bracket_field,
    spec_chunk, spec_colon_name, spec_comma_exp, spec_else_branch, spec_else_if_branch,
    spec_elseifs, spec_elseifs_items, spec_eq_exps, spec_exp, spec_exp_atom, spec_exp_function,
    spec_exp_list, spec_exp_literal, spec_exp_pairs, spec_exp_pairs_items, spec_field,
    spec_field_sep, spec_fields, spec_fields_loop, spec_func_path, spec_function_args,
    spec_function_body, spec_function_call, spec_function_call_body, spec_function_name,
    spec_if_branch, spec_last_semi, spec_last_statement, spec_local_init, spec_map_field,
    spec_name_attr, spec_name_list, spec_name_pairs, spec_name_pairs_items, spec_opt_attribute,
    spec_opt_ellipses, spec_opt_else, spec_opt_last, spec_opt_qualifier, spec_opt_semi,
    spec_opt_step, spec_par_list, spec_path_pairs, spec_path_pairs_items, spec_prefix_exp,
    spec_prefix_exp_kind, spec_prefix_exp_suffix, spec_prefix_parens, spec_st_assign,
    spec_st_block, spec_st_break, spec_st_for_in_loop, spec_st_for_range_loop,
    spec_st_function_def, spec_st_goto, spec_st_if_else, spec_st_label, spec_st_local_function_def,
    spec_st_local_init, spec_st_repeat_loop, spec_st_return, spec_st_while_loop, spec_statement,
    spec_stmt_semi, spec_stmts, spec_stmts_items, spec_suffixes, spec_suffixes_items,
    spec_table_constructor, spec_unary_operand_value, spec_var, spec_var_access,
    spec_var_access_body, spec_var_index, spec_var_index_body, spec_var_list, spec_var_pairs,
    spec_var_pairs_items, tree_arg_list, tree_attr_name_list, tree_attr_pairs, tree_attribute,
    tree_binary_operand, tree_bracket_field, tree_chunk, tree_colon_name, tree_comma_exp,
    tree_else_branch, tree_else_if_branch, tree_elseifs, tree_eq_exps, tree_exp, tree_exp_atom,
    tree_exp_function, tree_exp_list, tree_exp_literal, tree_exp_pairs, tree_field,
    tree_field_pairs, tree_field_sep, tree_fields, tree_func_path, tree_function_args,
    tree_function_body, tree_function_call, tree_function_call_body, tree_function_name,
    tree_if_branch, tree_last_semi, tree_last_statement, tree_local_init, tree_map_field,
    tree_name_attr, tree_name_list, tree_name_pairs, tree_opt_attribute, tree_opt_ellipses,
    tree_opt_else, tree_opt_last, tree_opt_qualifier, tree_opt_semi, tree_opt_step, tree_par_list,
    tree_path_pairs, tree_prefix_exp, tree_prefix_exp_kind, tree_prefix_exp_suffix,
    tree_prefix_parens, tree_st_assign, tree_st_block, tree_st_break, tree_st_for_in_loop,
    tree_st_for_range_loop, tree_st_function_def, tree_st_goto, tree_st_if_else, tree_st_label,
    tree_st_local_function_def, tree_st_local_init, tree_st_repeat_loop, tree_st_return,
    tree_st_while_loop, tree_statement, tree_stmt_semi, tree_stmts, tree_suffixes,
    tree_table_constructor, tree_unary_operand, tree_var, tree_var_access, tree_var_access_body,
    tree_var_index, tree_var_index_body, tree_var_list, tree_var_pairs, trees_attr_pairs,
    trees_elseifs, trees_exp_pairs, trees_field_pairs, trees_name_pairs, trees_path_pairs,
    trees_stmts, trees_suffixes, trees_var_pairs, UNARY_PRECEDENCE,
};

verus! {

/// Unfolds [`tree_chunk`] once.
#[verifier::spinoff_prover]
pub proof fn lemma_tree_chunk(v: Chunk)
    ensures
        tree_chunk(v) == (
            Tree::Node(seq![tree_stmts(v.statements), tree_opt_last(v.last_statement)])
        ),
{
    reveal_with_fuel(tree_chunk, 1);
}

/// Unfolds [`tree_st_assign`] once.
#[verifier::spinoff_prover]
pub proof fn lemma_tree_st_assign(v: StAssign)
    ensures
        tree_st_assign(v) == (
            Tree::Node(seq![tree_var_list(v.vars), Tree::Leaf(Token::Equal(v.eq)), tree_exp_list(v.exps)])
        ),
{
    reveal_with_fuel(tree_st_assign, 1);
}

/// Unfolds [`tree_st_block`] once.
#[verifier::spinoff_prover]
pub proof fn lemma_tree_st_block(v: StBlock)
    ensures
        tree_st_block(v) == (
            Tree::Node(seq![Tree::Leaf(Token::Do(v.kw_do)), tree_chunk(v.body), Tree::Leaf(Token::End(v.kw_end))])
        ),
{
    reveal_with_fuel(tree_st_block, 1);
}

/// Unfolds [`tree_attribute`] once.
#[verifier::spinoff_prover]
pub proof fn lemma_tree_attribute(v: Attribute)
    ensures
        tree_attribute(v) == (
            Tree::Node(seq![Tree::Leaf(Token::Less(v.open_angle)), Tree::Leaf(Token::Name(v.name)), Tree::Leaf(Token::Greater(v.close_angle))])
        ),
{
    reveal_with_fuel(tree_attribute, 1);
}

/// Unfolds [`tree_st_while_loop`] once.
#[verifier::spinoff_prover]
pub proof fn lemma_tree_st_while_loop(v: StWhileLoop)
    ensures
        tree_st_while_loop(v) == (
            Tree::Node(seq![Tree::Leaf(Token::While(v.kw_while)), tree_exp(v.exp), Tree::Leaf(Token::Do(v.kw_do)), tree_chunk(v.body), Tree::Leaf(Token::End(v.kw_end))])
        ),
{
    reveal_with_fuel(tree_st_while_loop, 1);
}

/// Unfolds [`tree_st_repeat_loop`] once.
#[verifier::spinoff_prover]
pub proof fn lemma_tree_st_repeat_loop(v: StRepeatLoop)
    ensures
        tree_st_repeat_loop(v) == (
            Tree::Node(seq![Tree::Leaf(Token::Repeat(v.kw_repeat)), tree_chunk(v.body), Tree::Leaf(Token::Until(v.kw_until)), tree_exp(v.exp)])
        ),
{
    reveal_with_fuel(tree_st_repeat_loop, 1);
}

/// Unfolds [`tree_st_for_range_loop`] once.
#[verifier::spinoff_prover]
pub proof fn lemma_tree_st_for_range_loop(v: StForRangeLoop)
    ensures
        tree_st_for_range_loop(v) == (
            Tree::Node(seq![Tree::Leaf(Token::For(v.kw_for)), Tree::Leaf(Token::Name(v.name)), Tree::Leaf(Token::Equal(v.eq)), tree_exp(v.start), Tree::Leaf(Token::Comma(v.comma)), tree_exp(v.stop), tree_opt_step(v.step), Tree::Leaf(Token::Do(v.kw_do)), tree_chunk(v.body), Tree::Leaf(Token::End(v.kw_end))])
        ),
{
    reveal_with_fuel(tree_st_for_range_loop, 1);
}

/// Unfolds [`tree_st_for_in_loop`] once.
#[verifier::spinoff_prover]
pub proof fn lemma_tree_st_for_in_loop(v: StForInLoop)
    ensures
        tree_st_for_in_loop(v) == (
            Tree::Node(seq![Tree::Leaf(Token::For(v.kw_for)), tree_name_list(v.namelist), Tree::Leaf(Token::In(v.kw_in)), tree_exp_list(v.explist), Tree::Leaf(Token::Do(v.kw_do)), tree_chunk(v.body), Tree::Leaf(Token::End(v.kw_end))])
        ),
{
    reveal_with_fuel(tree_st_for_in_loop, 1);
}

/// Unfolds [`tree_st_if_else`] once.
#[verifier::spinoff_prover]
pub proof fn lemma_tree_st_if_else(v: StIfElse)
    ensures
        tree_st_if_else(v) == (
            Tree::Node(seq![tree_if_branch(v.if_branch), tree_elseifs(v.elseif_branches), tree_opt_else(v.else_branch)])
        ),
{
    reveal_with_fuel(tree_st_if_else, 1);
}

/// Unfolds [`tree_if_branch`] once.
#[verifier::spinoff_prover]
pub proof fn lemma_tree_if_branch(v: IfBranch)
    ensures
        tree_if_branch(v) == (
            Tree::Node(seq![Tree::Leaf(Token::If(v.kw_if)), tree_exp(v.condition), Tree::Leaf(Token::Then(v.kw_then)), tree_chunk(v.body)])
        ),
{
    reveal_with_fuel(tree_if_branch, 1);
}

/// Unfolds [`tree_else_if_branch`] once.
#[verifier::spinoff_prover]
pub proof fn lemma_tree_else_if_branch(v: ElseIfBranch)
    ensures
        tree_else_if_branch(v) == (
            Tree::Node(seq![Tree::Leaf(Token::ElseIf(v.kw_elseif)), tree_exp(v.condition), Tree::Leaf(Token::Then(v.kw_then)), tree_chunk(v.body)])
        ),
{
    reveal_with_fuel(tree_else_if_branch, 1);
}

/// Unfolds [`tree_else_branch`] once.
#[verifier::spinoff_prover]
pub proof fn lemma_tree_else_branch(v: ElseBranch)
    ensures
        tree_else_branch(v) == (
            Tree::Node(seq![Tree::Leaf(Token::Else(v.kw_else)), tree_chunk(v.body)])
        ),
{
    reveal_with_fuel(tree_else_branch, 1);
}

/// Unfolds [`tree_function_call`] once.
#[verifier::spinoff_prover]
pub proof fn lemma_tree_function_call(v: FunctionCall)
    ensures
        tree_function_call(v) == (
            Tree::Node(seq![tree_prefix_exp(*v.prefix), tree_function_call_body(v.body)])
        ),
{
    reveal_with_fuel(tree_function_call, 1);
}

/// Unfolds [`tree_function_call_body`] once.
#[verifier::spinoff_prover]
pub proof fn lemma_tree_function_call_body(v: FunctionCallBody)
    ensures
        tree_function_call_body(v) == (
            Tree::Node(seq![tree_opt_qualifier(v.qualifier), tree_function_args(v.args)])
        ),
{
    reveal_with_fuel(tree_function_call_body, 1);
}

/// Unfolds [`tree_arg_list`] once.
#[verifier::spinoff_prover]
pub proof fn lemma_tree_arg_list(v: ArgList)
    ensures
        tree_arg_list(v) == (
            Tree::Node(seq![Tree::Leaf(Token::OpenParen(v.open_paren)), tree_exp_list(v.arguments), Tree::Leaf(Token::CloseParen(v.close_paren))])
        ),
{
    reveal_with_fuel(tree_arg_list, 1);
}

/// Unfolds [`tree_st_function_def`] once.
#[verifier::spinoff_prover]
pub proof fn lemma_tree_st_function_def(v: StFunctionDef)
    ensures
        tree_st_function_def(v) == (
            Tree::Node(seq![Tree::Leaf(Token::Function(v.kw_function)), tree_function_name(v.name), tree_function_body(v.body)])
        ),
{
    reveal_with_fuel(tree_st_function_def, 1);
}

/// Unfolds [`tree_st_local_function_def`] once.
#[verifier::spinoff_prover]
pub proof fn lemma_tree_st_local_function_def(v: StLocalFunctionDef)
    ensures
        tree_st_local_function_def(v) == (
            Tree::Node(seq![Tree::Leaf(Token::Local(v.local)), Tree::Leaf(Token::Function(v.function)), Tree::Leaf(Token::Name(v.name)), tree_function_body(v.body)])
        ),
{
    reveal_with_fuel(tree_st_local_function_def, 1);
}

/// Unfolds [`tree_st_local_init`] once.
#[verifier::spinoff_prover]
pub proof fn lemma_tree_st_local_init(v: StLocalInit)
    ensures
        tree_st_local_init(v) == (
            Tree::Node(seq![Tree::Leaf(Token::Local(v.kw_local)), tree_attr_name_list(v.attrnames), tree_local_init(v.init)])
        ),
{
    reveal_with_fuel(tree_st_local_init, 1);
}

/// Unfolds [`tree_st_goto`] once.
#[verifier::spinoff_prover]
pub proof fn lemma_tree_st_goto(v: StGoto)
    ensures
        tree_st_goto(v) == (
            Tree::Node(seq![Tree::Leaf(Token::Goto(v.kw_goto)), Tree::Leaf(Token::Name(v.label))])
        ),
{
    reveal_with_fuel(tree_st_goto, 1);
}

/// Unfolds [`tree_st_label`] once.
#[verifier::spinoff_prover]
pub proof fn lemma_tree_st_label(v: StLabel)
    ensures
        tree_st_label(v) == (
            Tree::Node(seq![Tree::Leaf(Token::DoubleColon(v.start_dcolon)), Tree::Leaf(Token::Name(v.name)), Tree::Leaf(Token::DoubleColon(v.end_dcolon))])
        ),
{
    reveal_with_fuel(tree_st_label, 1);
}

/// Unfolds [`tree_st_return`] once.
#[verifier::spinoff_prover]
pub proof fn lemma_tree_st_return(v: StReturn)
    ensures
        tree_st_return(v) == (
            Tree::Node(seq![Tree::Leaf(Token::Return(v.kw_return)), tree_exp_list(v.value)])
        ),
{
    reveal_with_fuel(tree_st_return, 1);
}

/// Unfolds [`tree_st_break`] once.
#[verifier::spinoff_prover]
pub proof fn lemma_tree_st_break(v: StBreak)
    ensures
        tree_st_break(v) == (
            Tree::Node(seq![Tree::Leaf(Token::Break(v.kw_break))])
        ),
{
    reveal_with_fuel(tree_st_break, 1);
}

/// Unfolds [`tree_function_body`] once.
#[verifier::spinoff_prover]
pub proof fn lemma_tree_function_body(v: FunctionBody)
    ensures
        tree_function_body(v) == (
            Tree::Node(seq![Tree::Leaf(Token::OpenParen(v.open_paren)), tree_par_list(v.parlist), Tree::Leaf(Token::CloseParen(v.close_paren)), tree_chunk(v.block), Tree::Leaf(Token::End(v.kw_end))])
        ),
{
    reveal_with_fuel(tree_function_body, 1);
}

/// Unfolds [`tree_par_list`] once.
#[verifier::spinoff_prover]
pub proof fn lemma_tree_par_list(v: ParList)
    ensures
        tree_par_list(v) == (
            Tree::Node(seq![tree_name_list(v.names), tree_opt_ellipses(v.ellipses)])
        ),
{
    reveal_with_fuel(tree_par_list, 1);
}

/// Unfolds [`tree_var_index`] once.
#[verifier::spinoff_prover]
pub proof fn lemma_tree_var_index(v: VarIndex)
    ensures
        tree_var_index(v) == (
            Tree::Node(seq![tree_prefix_exp(*v.prefix), tree_var_index_body(v.body)])
        ),
{
    reveal_with_fuel(tree_var_index, 1);
}

/// Unfolds [`tree_var_index_body`] once.
#[verifier::spinoff_prover]
pub proof fn lemma_tree_var_index_body(v: VarIndexBody)
    ensures
        tree_var_index_body(v) == (
            Tree::Node(seq![Tree::Leaf(Token::OpenBracket(v.open_bracket)), tree_exp(v.index), Tree::Leaf(Token::CloseBracket(v.close_bracket))])
        ),
{
    reveal_with_fuel(tree_var_index_body, 1);
}

/// Unfolds [`tree_var_access`] once.
#[verifier::spinoff_prover]
pub proof fn lemma_tree_var_access(v: VarAccess)
    ensures
        tree_var_access(v) == (
            Tree::Node(seq![tree_prefix_exp(*v.prefix), tree_var_access_body(v.body)])
        ),
{
    reveal_with_fuel(tree_var_access, 1);
}

/// Unfolds [`tree_var_access_body`] once.
#[verifier::spinoff_prover]
pub proof fn lemma_tree_var_access_body(v: VarAccessBody)
    ensures
        tree_var_access_body(v) == (
            Tree::Node(seq![Tree::Leaf(Token::Dot(v.dot)), Tree::Leaf(Token::Name(v.name))])
        ),
{
    reveal_with_fuel(tree_var_access_body, 1);
}

/// Unfolds [`tree_prefix_exp`] once.
#[verifier::spinoff_prover]
pub proof fn lemma_tree_prefix_exp(v: PrefixExp)
    ensures
        tree_prefix_exp(v) == (
            Tree::Node(seq![tree_prefix_exp_kind(v.kind), tree_suffixes(v.calls)])
        ),
{
    reveal_with_fuel(tree_prefix_exp, 1);
}

/// Unfolds [`tree_prefix_parens`] once.
#[verifier::spinoff_prover]
pub proof fn lemma_tree_prefix_parens(v: PrefixParens)
    ensures
        tree_prefix_parens(v) == (
            Tree::Node(seq![Tree::Leaf(Token::OpenParen(v.open_paren)), tree_exp(v.inner), Tree::Leaf(Token::CloseParen(v.close_paren))])
        ),
{
    reveal_with_fuel(tree_prefix_parens, 1);
}

/// Unfolds [`tree_exp_function`] once.
#[verifier::spinoff_prover]
pub proof fn lemma_tree_exp_function(v: ExpFunction)
    ensures
        tree_exp_function(v) == (
            Tree::Node(seq![Tree::Leaf(Token::Function(v.kw_function)), tree_function_body(*v.body)])
        ),
{
    reveal_with_fuel(tree_exp_function, 1);
}

/// Unfolds [`tree_table_constructor`] once.
#[verifier::spinoff_prover]
pub proof fn lemma_tree_table_constructor(v: TableConstructor)
    ensures
        tree_table_constructor(v) == (
            Tree::Node(seq![Tree::Leaf(Token::OpenBrace(v.open_brace)), tree_fields(v.fields), Tree::Leaf(Token::CloseBrace(v.close_brace))])
        ),
{
    reveal_with_fuel(tree_table_constructor, 1);
}

/// Unfolds [`tree_map_field`] once.
#[verifier::spinoff_prover]
pub proof fn lemma_tree_map_field(v: MapField)
    ensures
        tree_map_field(v) == (
            Tree::Node(seq![Tree::Leaf(Token::Name(v.name)), Tree::Leaf(Token::Equal(v.eq)), tree_exp(v.exp)])
        ),
{
    reveal_with_fuel(tree_map_field, 1);
}

/// Unfolds [`tree_bracket_field`] once.
#[verifier::spinoff_prover]
pub proof fn lemma_tree_bracket_field(v: BracketField)
    ensures
        tree_bracket_field(v) == (
            Tree::Node(seq![Tree::Leaf(Token::OpenBracket(v.open_bracket)), tree_exp(v.key), Tree::Leaf(Token::CloseBracket(v.close_bracket)), Tree::Leaf(Token::Equal(v.eq)), tree_exp(v.value)])
        ),
{
    reveal_with_fuel(tree_bracket_field, 1);
}

/// Unfolds [`tree_statement`] once.
#[verifier::spinoff_prover]
pub proof fn lemma_tree_statement(v: Statement)
    ensures
        tree_statement(v) == (
            match v {
                Statement::Assign(x) => Tree::Choice(0, Box::new(tree_st_assign(x))),
                Statement::FunctionCall(x) => Tree::Choice(1, Box::new(tree_function_call(x))),
                Statement::Block(x) => Tree::Choice(2, Box::new(tree_st_block(x))),
                Statement::WhileLoop(x) => Tree::Choice(3, Box::new(tree_st_while_loop(x))),
                Statement::RepeatLoop(x) => Tree::Choice(4, Box::new(tree_st_repeat_loop(x))),
                Statement::IfElse(x) => Tree::Choice(5, Box::new(tree_st_if_else(x))),
                Statement::ForRangeLoop(x) => Tree::Choice(6, Box::new(tree_st_for_range_loop(x))),
                Statement::ForInLoop(x) => Tree::Choice(7, Box::new(tree_st_for_in_loop(x))),
                Statement::FunctionDef(x) => Tree::Choice(8, Box::new(tree_st_function_def(x))),
                Statement::LocalFunctionDef(x) => Tree::Choice(9, Box::new(tree_st_local_function_def(x))),
                Statement::LocalInit(x) => Tree::Choice(10, Box::new(tree_st_local_init(x))),
                Statement::Goto(x) => Tree::Choice(11, Box::new(tree_st_goto(x))),
                Statement::Label(x) => Tree::Choice(12, Box::new(tree_st_label(x))),
                Statement::Break(x) => Tree::Choice(13, Box::new(tree_st_break(x))),
            }
        ),
{
    reveal_with_fuel(tree_statement, 1);
}

/// Unfolds [`tree_function_args`] once.
#[verifier::spinoff_prover]
pub proof fn lemma_tree_function_args(v: FunctionArgs)
    ensures
        tree_function_args(v) == (
            match v {
                FunctionArgs::List(x) => Tree::Choice(0, Box::new(tree_arg_list(x))),
                FunctionArgs::Table(x) => Tree::Choice(1, Box::new(tree_table_constructor(x))),
                FunctionArgs::String(x) => Tree::Choice(2, Box::new(Tree::Leaf(Token::LiteralString(x)))),
            }
        ),
{
    reveal_with_fuel(tree_function_args, 1);
}

/// Unfolds [`tree_last_statement`] once.
#[verifier::spinoff_prover]
pub proof fn lemma_tree_last_statement(v: LastStatement)
    ensures
        tree_last_statement(v) == (
            match v {
                LastStatement::Return(x) => Tree::Choice(0, Box::new(tree_st_return(x))),
            }
        ),
{
    reveal_with_fuel(tree_last_statement, 1);
}

/// Unfolds [`tree_var`] once.
#[verifier::spinoff_prover]
pub proof fn lemma_tree_var(v: Var)
    ensures
        tree_var(v) == (
            match v {
                Var::Name(x) => Tree::Choice(0, Box::new(Tree::Leaf(Token::Name(x)))),
                Var::Index(x) => Tree::Choice(1, Box::new(tree_var_index(x))),
                Var::Access(x) => Tree::Choice(2, Box::new(tree_var_access(x))),
            }
        ),
{
    reveal_with_fuel(tree_var, 1);
}

/// Unfolds [`tree_prefix_exp_kind`] once.
#[verifier::spinoff_prover]
pub proof fn lemma_tree_prefix_exp_kind(v: PrefixExpKind)
    ensures
        tree_prefix_exp_kind(v) == (
            match v {
                PrefixExpKind::Name(x) => Tree::Choice(0, Box::new(Tree::Leaf(Token::Name(x)))),
                PrefixExpKind::Parens(x) => Tree::Choice(1, Box::new(tree_prefix_parens(x))),
            }
        ),
{
    reveal_with_fuel(tree_prefix_exp_kind, 1);
}

/// Unfolds [`tree_prefix_exp_suffix`] once.
#[verifier::spinoff_prover]
pub proof fn lemma_tree_prefix_exp_suffix(v: PrefixExpSuffix)
    ensures
        tree_prefix_exp_suffix(v) == (
            match v {
                PrefixExpSuffix::FunctionCall(x) => Tree::Choice(0, Box::new(tree_function_call_body(x))),
                PrefixExpSuffix::Index(x) => Tree::Choice(1, Box::new(tree_var_index_body(x))),
                PrefixExpSuffix::Access(x) => Tree::Choice(2, Box::new(tree_var_access_body(x))),
            }
        ),
{
    reveal_with_fuel(tree_prefix_exp_suffix, 1);
}

/// Unfolds [`tree_exp_atom`] once.
#[verifier::spinoff_prover]
pub proof fn lemma_tree_exp_atom(v: ExpAtom)
    ensures
        tree_exp_atom(v) == (
            match v {
                ExpAtom::Nil(x) => Tree::Choice(0, Box::new(Tree::Leaf(Token::Nil(x)))),
                ExpAtom::True(x) => Tree::Choice(1, Box::new(Tree::Leaf(Token::True(x)))),
                ExpAtom::False(x) => Tree::Choice(2, Box::new(Tree::Leaf(Token::False(x)))),
                ExpAtom::Literal(x) => Tree::Choice(3, Box::new(tree_exp_literal(x))),
                ExpAtom::Ellipses(x) => Tree::Choice(4, Box::new(Tree::Leaf(Token::Ellipses(x)))),
                ExpAtom::Function(x) => Tree::Choice(5, Box::new(tree_exp_function(x))),
                ExpAtom::Prefix(x) => Tree::Choice(6, Box::new(tree_prefix_exp(*x))),
                ExpAtom::Table(x) => Tree::Choice(7, Box::new(tree_table_constructor(*x))),
            }
        ),
{
    reveal_with_fuel(tree_exp_atom, 1);
}

/// Unfolds [`tree_field_sep`] once.
#[verifier::spinoff_prover]
pub proof fn lemma_tree_field_sep(v: FieldSep)
    ensures
        tree_field_sep(v) == (
            match v {
                FieldSep::Comma(x) => Tree::Choice(0, Box::new(Tree::Leaf(Token::Comma(x)))),
                FieldSep::Semicolon(x) => Tree::Choice(1, Box::new(Tree::Leaf(Token::Semicolon(x)))),
            }
        ),
{
    reveal_with_fuel(tree_field_sep, 1);
}

/// Unfolds [`tree_field`] once.
#[verifier::spinoff_prover]
pub proof fn lemma_tree_field(v: Field)
    ensures
        tree_field(v) == (
            match v {
                Field::ArrayLike(x) => Tree::Choice(0, Box::new(tree_exp(x))),
                Field::MapLike(x) => Tree::Choice(1, Box::new(tree_map_field(x))),
                Field::Bracketed(x) => Tree::Choice(2, Box::new(tree_bracket_field(x))),
            }
        ),
{
    reveal_with_fuel(tree_field, 1);
}

/// Unfolds [`tree_exp_literal`] once.
#[verifier::spinoff_prover]
pub proof fn lemma_tree_exp_literal(v: ExpLiteral)
    ensures
        tree_exp_literal(v) == (
            match v {
                ExpLiteral::Number(x) => Tree::Choice(0, Box::new(Tree::Leaf(Token::LiteralNumber(x)))),
                ExpLiteral::String(x) => Tree::Choice(1, Box::new(Tree::Leaf(Token::LiteralString(x)))),
            }
        ),
{
    reveal_with_fuel(tree_exp_literal, 1);
}

/// Unfolds [`tree_function_name`] once.
#[verifier::spinoff_prover]
pub proof fn lemma_tree_function_name(v: FunctionName)
    ensures
        tree_function_name(v) == (
            Tree::Node(seq![tree_func_path(v.path), tree_opt_qualifier(v.suffix)])
        ),
{
    reveal_with_fuel(tree_function_name, 1);
}

/// Unfolds [`tree_exp`] once.
#[verifier::spinoff_prover]
pub proof fn lemma_tree_exp(v: Exp)
    ensures
        tree_exp(v) == (
            match v {
                Exp::Atom(a) => Tree::Choice(0, Box::new(tree_exp_atom(a))),
                Exp::Unary(u) => Tree::Choice(
                    1,
                    Box::new(Tree::Node(seq![tree_unary_operand(u.operand), tree_exp(*u.value)])),
                ),
                Exp::Binary(b) => Tree::Choice(
                    2,
                    Box::new(
                        Tree::Node(seq![tree_exp(*b.left), tree_binary_operand(b.operand), tree_exp(*b.right)]),
                    ),
                ),
            }
        ),
{
    reveal_with_fuel(tree_exp, 1);
}

/// Unfolds [`tree_stmts`] once.
#[verifier::spinoff_prover]
pub proof fn lemma_tree_stmts(v: Vec<(Statement, Option<token::Semicolon>)>)
    ensures
        tree_stmts(v) == (
            Tree::Node(trees_stmts(v@))
        ),
{
    reveal_with_fuel(tree_stmts, 1);
}

/// Unfolds [`trees_stmts`] once.
#[verifier::spinoff_prover]
pub proof fn lemma_trees_stmts(s: Seq<(Statement, Option<token::Semicolon>)>)
    ensures
        trees_stmts(s) == (
            if s.len() == 0 {
                seq![]
            } else {
                trees_stmts(s.drop_last()).push(tree_stmt_semi(s[s.len() - 1]))
            }
        ),
{
    reveal_with_fuel(trees_stmts, 1);
}

/// Unfolds [`tree_stmt_semi`] once.
#[verifier::spinoff_prover]
pub proof fn lemma_tree_stmt_semi(v: (Statement, Option<token::Semicolon>))
    ensures
        tree_stmt_semi(v) == (
            Tree::Node(seq![tree_statement(v.0), tree_opt_semi(v.1)])
        ),
{
    reveal_with_fuel(tree_stmt_semi, 1);
}

/// Unfolds [`tree_opt_semi`] once.
#[verifier::spinoff_prover]
pub proof fn lemma_tree_opt_semi(v: Option<token::Semicolon>)
    ensures
        tree_opt_semi(v) == (
            match v {
                Some(x) => Tree::Opt(Some(Box::new(Tree::Leaf(Token::Semicolon(x))))),
                None => Tree::Opt(None),
            }
        ),
{
    reveal_with_fuel(tree_opt_semi, 1);
}

/// Unfolds [`tree_opt_last`] once.
#[verifier::spinoff_prover]
pub proof fn lemma_tree_opt_last(v: Option<(LastStatement, Option<token::Semicolon>)>)
    ensures
        tree_opt_last(v) == (
            match v {
                Some(x) => Tree::Opt(Some(Box::new(tree_last_semi(x)))),
                None => Tree::Opt(None),
            }
        ),
{
    reveal_with_fuel(tree_opt_last, 1);
}

/// Unfolds [`tree_last_semi`] once.
#[verifier::spinoff_prover]
pub proof fn lemma_tree_last_semi(v: (LastStatement, Option<token::Semicolon>))
    ensures
        tree_last_semi(v) == (
            Tree::Node(seq![tree_last_statement(v.0), tree_opt_semi(v.1)])
        ),
{
    reveal_with_fuel(tree_last_semi, 1);
}

/// Unfolds [`tree_var_list`] once.
#[verifier::spinoff_prover]
pub proof fn lemma_tree_var_list(v: SeparatedTrailing<Var, token::Comma>)
    ensures
        tree_var_list(v) == (
            Tree::Node(seq![Tree::Node(trees_var_pairs(v.list@)), tree_var(v.last)])
        ),
{
    reveal_with_fuel(tree_var_list, 1);
}

/// Unfolds [`tree_var_pairs`] once.
#[verifier::spinoff_prover]
pub proof fn lemma_tree_var_pairs(v: SeparatedNoTrailing<Var, token::Comma>)
    ensures
        tree_var_pairs(v) == (
            Tree::Node(trees_var_pairs(v.list@))
        ),
{
    reveal_with_fuel(tree_var_pairs, 1);
}

/// Unfolds [`trees_var_pairs`] once.
#[verifier::spinoff_prover]
pub proof fn lemma_trees_var_pairs(s: Seq<(Var, token::Comma)>)
    ensures
        trees_var_pairs(s) == (
            if s.len() == 0 {
                seq![]
            } else {
                trees_var_pairs(s.drop_last()).push(
                    Tree::Node(seq![tree_var(s[s.len() - 1].0), Tree::Leaf(Token::Comma(s[s.len() - 1].1))]),
                )
            }
        ),
{
    reveal_with_fuel(trees_var_pairs, 1);
}

/// Unfolds [`tree_exp_list`] once.
#[verifier::spinoff_prover]
pub proof fn lemma_tree_exp_list(v: SeparatedTrailing<Exp, token::Comma>)
    ensures
        tree_exp_list(v) == (
            Tree::Node(seq![Tree::Node(trees_exp_pairs(v.list@)), tree_exp(v.last)])
        ),
{
    reveal_with_fuel(tree_exp_list, 1);
}

/// Unfolds [`tree_exp_pairs`] once.
#[verifier::spinoff_prover]
pub proof fn lemma_tree_exp_pairs(v: SeparatedNoTrailing<Exp, token::Comma>)
    ensures
        tree_exp_pairs(v) == (
            Tree::Node(trees_exp_pairs(v.list@))
        ),
{
    reveal_with_fuel(tree_exp_pairs, 1);
}

/// Unfolds [`trees_exp_pairs`] once.
#[verifier::spinoff_prover]
pub proof fn lemma_trees_exp_pairs(s: Seq<(Exp, token::Comma)>)
    ensures
        trees_exp_pairs(s) == (
            if s.len() == 0 {
                seq![]
            } else {
                trees_exp_pairs(s.drop_last()).push(
                    Tree::Node(seq![tree_exp(s[s.len() - 1].0), Tree::Leaf(Token::Comma(s[s.len() - 1].1))]),
                )
            }
        ),
{
    reveal_with_fuel(trees_exp_pairs, 1);
}

/// Unfolds [`tree_name_list`] once.
#[verifier::spinoff_prover]
pub proof fn lemma_tree_name_list(v: SeparatedTrailing<token::Name, token::Comma>)
    ensures
        tree_name_list(v) == (
            Tree::Node(seq![Tree::Node(trees_name_pairs(v.list@)), Tree::Leaf(Token::Name(v.last))])
        ),
{
    reveal_with_fuel(tree_name_list, 1);
}

/// Unfolds [`tree_name_pairs`] once.
#[verifier::spinoff_prover]
pub proof fn lemma_tree_name_pairs(v: SeparatedNoTrailing<token::Name, token::Comma>)
    ensures
        tree_name_pairs(v) == (
            Tree::Node(trees_name_pairs(v.list@))
        ),
{
    reveal_with_fuel(tree_name_pairs, 1);
}

/// Unfolds [`trees_name_pairs`] once.
#[verifier::spinoff_prover]
pub proof fn lemma_trees_name_pairs(s: Seq<(token::Name, token::Comma)>)
    ensures
        trees_name_pairs(s) == (
            if s.len() == 0 {
                seq![]
            } else {
                trees_name_pairs(s.drop_last()).push(
                    Tree::Node(seq![Tree::Leaf(Token::Name(s[s.len() - 1].0)), Tree::Leaf(Token::Comma(s[s.len() - 1].1))]),
                )
            }
        ),
{
    reveal_with_fuel(trees_name_pairs, 1);
}

/// Unfolds [`tree_attr_name_list`] once.
#[verifier::spinoff_prover]
pub proof fn lemma_tree_attr_name_list(v: SeparatedTrailing<(token::Name, Option<Attribute>), token::Comma>)
    ensures
        tree_attr_name_list(v) == (
            Tree::Node(seq![Tree::Node(trees_attr_pairs(v.list@)), tree_name_attr(v.last)])
        ),
{
    reveal_with_fuel(tree_attr_name_list, 1);
}

/// Unfolds [`tree_attr_pairs`] once.
#[verifier::spinoff_prover]
pub proof fn lemma_tree_attr_pairs(v: SeparatedNoTrailing<(token::Name, Option<Attribute>), token::Comma>)
    ensures
        tree_attr_pairs(v) == (
            Tree::Node(trees_attr_pairs(v.list@))
        ),
{
    reveal_with_fuel(tree_attr_pairs, 1);
}

/// Unfolds [`trees_attr_pairs`] once.
#[verifier::spinoff_prover]
pub proof fn lemma_trees_attr_pairs(s: Seq<((token::Name, Option<Attribute>), token::Comma)>)
    ensures
        trees_attr_pairs(s) == (
            if s.len() == 0 {
                seq![]
            } else {
                trees_attr_pairs(s.drop_last()).push(
                    Tree::Node(seq![tree_name_attr(s[s.len() - 1].0), Tree::Leaf(Token::Comma(s[s.len() - 1].1))]),
                )
            }
        ),
{
    reveal_with_fuel(trees_attr_pairs, 1);
}

/// Unfolds [`tree_name_attr`] once.
#[verifier::spinoff_prover]
pub proof fn lemma_tree_name_attr(v: (token::Name, Option<Attribute>))
    ensures
        tree_name_attr(v) == (
            Tree::Node(seq![Tree::Leaf(Token::Name(v.0)), tree_opt_attribute(v.1)])
        ),
{
    reveal_with_fuel(tree_name_attr, 1);
}

/// Unfolds [`tree_opt_attribute`] once.
#[verifier::spinoff_prover]
pub proof fn lemma_tree_opt_attribute(v: Option<Attribute>)
    ensures
        tree_opt_attribute(v) == (
            match v {
                Some(x) => Tree::Opt(Some(Box::new(tree_attribute(x)))),
                None => Tree::Opt(None),
            }
        ),
{
    reveal_with_fuel(tree_opt_attribute, 1);
}

/// Unfolds [`tree_local_init`] once.
#[verifier::spinoff_prover]
pub proof fn lemma_tree_local_init(v: Option<(token::Equal, SeparatedTrailing<Exp, token::Comma>)>)
    ensures
        tree_local_init(v) == (
            match v {
                Some(x) => Tree::Opt(Some(Box::new(tree_eq_exps(x)))),
                None => Tree::Opt(None),
            }
        ),
{
    reveal_with_fuel(tree_local_init, 1);
}

/// Unfolds [`tree_eq_exps`] once.
#[verifier::spinoff_prover]
pub proof fn lemma_tree_eq_exps(v: (token::Equal, SeparatedTrailing<Exp, token::Comma>))
    ensures
        tree_eq_exps(v) == (
            Tree::Node(seq![Tree::Leaf(Token::Equal(v.0)), tree_exp_list(v.1)])
        ),
{
    reveal_with_fuel(tree_eq_exps, 1);
}

/// Unfolds [`tree_func_path`] once.
#[verifier::spinoff_prover]
pub proof fn lemma_tree_func_path(v: SeparatedTrailing<token::Name, token::Dot>)
    ensures
        tree_func_path(v) == (
            Tree::Node(seq![Tree::Node(trees_path_pairs(v.list@)), Tree::Leaf(Token::Name(v.last))])
        ),
{
    reveal_with_fuel(tree_func_path, 1);
}

/// Unfolds [`tree_path_pairs`] once.
#[verifier::spinoff_prover]
pub proof fn lemma_tree_path_pairs(v: SeparatedNoTrailing<token::Name, token::Dot>)
    ensures
        tree_path_pairs(v) == (
            Tree::Node(trees_path_pairs(v.list@))
        ),
{
    reveal_with_fuel(tree_path_pairs, 1);
}

/// Unfolds [`trees_path_pairs`] once.
#[verifier::spinoff_prover]
pub proof fn lemma_trees_path_pairs(s: Seq<(token::Name, token::Dot)>)
    ensures
        trees_path_pairs(s) == (
            if s.len() == 0 {
                seq![]
            } else {
                trees_path_pairs(s.drop_last()).push(
                    Tree::Node(seq![Tree::Leaf(Token::Name(s[s.len() - 1].0)), Tree::Leaf(Token::Dot(s[s.len() - 1].1))]),
                )
            }
        ),
{
    reveal_with_fuel(trees_path_pairs, 1);
}

/// Unfolds [`tree_opt_step`] once.
#[verifier::spinoff_prover]
pub proof fn lemma_tree_opt_step(v: Option<(token::Comma, Exp)>)
    ensures
        tree_opt_step(v) == (
            match v {
                Some(x) => Tree::Opt(Some(Box::new(tree_comma_exp(x)))),
                None => Tree::Opt(None),
            }
        ),
{
    reveal_with_fuel(tree_opt_step, 1);
}

/// Unfolds [`tree_comma_exp`] once.
#[verifier::spinoff_prover]
pub proof fn lemma_tree_comma_exp(v: (token::Comma, Exp))
    ensures
        tree_comma_exp(v) == (
            Tree::Node(seq![Tree::Leaf(Token::Comma(v.0)), tree_exp(v.1)])
        ),
{
    reveal_with_fuel(tree_comma_exp, 1);
}

/// Unfolds [`tree_elseifs`] once.
#[verifier::spinoff_prover]
pub proof fn lemma_tree_elseifs(v: Vec<ElseIfBranch>)
    ensures
        tree_elseifs(v) == (
            Tree::Node(trees_elseifs(v@))
        ),
{
    reveal_with_fuel(tree_elseifs, 1);
}

/// Unfolds [`trees_elseifs`] once.
#[verifier::spinoff_prover]
pub proof fn lemma_trees_elseifs(s: Seq<ElseIfBranch>)
    ensures
        trees_elseifs(s) == (
            if s.len() == 0 {
                seq![]
            } else {
                trees_elseifs(s.drop_last()).push(tree_else_if_branch(s[s.len() - 1]))
            }
        ),
{
    reveal_with_fuel(trees_elseifs, 1);
}

/// Unfolds [`tree_opt_else`] once.
#[verifier::spinoff_prover]
pub proof fn lemma_tree_opt_else(v: Option<ElseBranch>)
    ensures
        tree_opt_else(v) == (
            match v {
                Some(x) => Tree::Opt(Some(Box::new(tree_else_branch(x)))),
                None => Tree::Opt(None),
            }
        ),
{
    reveal_with_fuel(tree_opt_else, 1);
}

/// Unfolds [`tree_opt_qualifier`] once.
#[verifier::spinoff_prover]
pub proof fn lemma_tree_opt_qualifier(v: Option<(token::Colon, token::Name)>)
    ensures
        tree_opt_qualifier(v) == (
            match v {
                Some(x) => Tree::Opt(Some(Box::new(tree_colon_name(x)))),
                None => Tree::Opt(None),
            }
        ),
{
    reveal_with_fuel(tree_opt_qualifier, 1);
}

/// Unfolds [`tree_colon_name`] once.
#[verifier::spinoff_prover]
pub proof fn lemma_tree_colon_name(v: (token::Colon, token::Name))
    ensures
        tree_colon_name(v) == (
            Tree::Node(seq![Tree::Leaf(Token::Colon(v.0)), Tree::Leaf(Token::Name(v.1))])
        ),
{
    reveal_with_fuel(tree_colon_name, 1);
}

/// Unfolds [`tree_opt_ellipses`] once.
#[verifier::spinoff_prover]
pub proof fn lemma_tree_opt_ellipses(v: Option<token::Ellipses>)
    ensures
        tree_opt_ellipses(v) == (
            match v {
                Some(x) => Tree::Opt(Some(Box::new(Tree::Leaf(Token::Ellipses(x))))),
                None => Tree::Opt(None),
            }
        ),
{
    reveal_with_fuel(tree_opt_ellipses, 1);
}

/// Unfolds [`tree_suffixes`] once.
#[verifier::spinoff_prover]
pub proof fn lemma_tree_suffixes(v: Vec<PrefixExpSuffix>)
    ensures
        tree_suffixes(v) == (
            Tree::Node(trees_suffixes(v@))
        ),
{
    reveal_with_fuel(tree_suffixes, 1);
}

/// Unfolds [`trees_suffixes`] once.
#[verifier::spinoff_prover]
pub proof fn lemma_trees_suffixes(s: Seq<PrefixExpSuffix>)
    ensures
        trees_suffixes(s) == (
            if s.len() == 0 {
                seq![]
            } else {
                trees_suffixes(s.drop_last()).push(tree_prefix_exp_suffix(s[s.len() - 1]))
            }
        ),
{
    reveal_with_fuel(trees_suffixes, 1);
}

/// Unfolds [`tree_fields`] once.
#[verifier::spinoff_prover]
pub proof fn lemma_tree_fields(v: Separated<Field, FieldSep>)
    ensures
        tree_fields(v) == (
            match v {
                Separated::Trailing(st) => Tree::Choice(
                    0,
                    Box::new(Tree::Node(seq![Tree::Node(trees_field_pairs(st.list@)), tree_field(st.last)])),
                ),
                Separated::NoTrailing(nt) => Tree::Choice(1, Box::new(Tree::Node(trees_field_pairs(nt.list@)))),
            }
        ),
{
    reveal_with_fuel(tree_fields, 1);
}

/// Unfolds [`tree_field_pairs`] once.
#[verifier::spinoff_prover]
pub proof fn lemma_tree_field_pairs(v: (Field, FieldSep))
    ensures
        tree_field_pairs(v) == (
            Tree::Node(seq![tree_field(v.0), tree_field_sep(v.1)])
        ),
{
    reveal_with_fuel(tree_field_pairs, 1);
}

/// Unfolds [`trees_field_pairs`] once.
#[verifier::spinoff_prover]
pub proof fn lemma_trees_field_pairs(s: Seq<(Field, FieldSep)>)
    ensures
        trees_field_pairs(s) == (
            if s.len() == 0 {
                seq![]
            } else {
                trees_field_pairs(s.drop_last()).push(tree_field_pairs(s[s.len() - 1]))
            }
        ),
{
    reveal_with_fuel(trees_field_pairs, 1);
}

/// Unfolds [`spec_chunk`] once.
#[verifier::spinoff_prover]
pub proof fn lemma_spec_chunk(input: Tokens, pos: nat)
    ensures
        spec_chunk(input, pos) == (
            match spec_stmts(input, pos) {
                Outcome::Returns(Ok(x0), p0) => {
                    if moved(input, pos, p0) {
                        match spec_opt_last(input, p0) {
                            Outcome::Returns(Ok(x1), p1) => {
                                Outcome::Returns(Ok(Tree::Node(seq![x0, x1])), p1)
                            },
                            Outcome::Returns(Err(e), _) => Outcome::Returns(Err(e), pos),
                            Outcome::Panics => Outcome::Panics,
                        }
                    } else {
                        Outcome::Panics
                    }
                },
                Outcome::Returns(Err(e), _) => Outcome::Returns(Err(e), pos),
                Outcome::Panics => Outcome::Panics,
            }
        ),
{
    reveal_with_fuel(spec_chunk, 1);
}

/// Unfolds [`spec_st_assign`] once.
#[verifier::spinoff_prover]
pub proof fn lemma_spec_st_assign(input: Tokens, pos: nat)
    ensures
        spec_st_assign(input, pos) == (
            match spec_var_list(input, pos) {
                Outcome::Returns(Ok(x0), p0) => {
                    match token::Equal::spec_parse(input, p0) {
                        Outcome::Returns(Ok(x1), p1) => {
                            if pos < p1 && p1 <= input.tokens.len() {
                                match spec_exp_list(input, p1) {
                                    Outcome::Returns(Ok(x2), p2) => {
                                        Outcome::Returns(Ok(Tree::Node(seq![x0, x1, x2])), p2)
                                    },
                                    Outcome::Returns(Err(e), _) => Outcome::Returns(Err(e), pos),
                                    Outcome::Panics => Outcome::Panics,
                                }
                            } else {
                                Outcome::Panics
                            }
                        },
                        Outcome::Returns(Err(e), _) => Outcome::Returns(Err(e), pos),
                        Outcome::Panics => Outcome::Panics,
                    }
                },
                Outcome::Returns(Err(e), _) => Outcome::Returns(Err(e), pos),
                Outcome::Panics => Outcome::Panics,
            }
        ),
{
    reveal_with_fuel(spec_st_assign, 1);
}

/// Unfolds [`spec_st_block`] once.
#[verifier::spinoff_prover]
pub proof fn lemma_spec_st_block(input: Tokens, pos: nat)
    ensures
        spec_st_block(input, pos) == (
            match token::Do::spec_parse(input, pos) {
                Outcome::Returns(Ok(x0), p0) => {
                    if pos < p0 && p0 <= input.tokens.len() {
                        match spec_chunk(input, p0) {
                            Outcome::Returns(Ok(x1), p1) => {
                                match token::End::spec_parse(input, p1) {
                                    Outcome::Returns(Ok(x2), p2) => {
                                        Outcome::Returns(Ok(Tree::Node(seq![x0, x1, x2])), p2)
                                    },
                                    Outcome::Returns(Err(e), _) => Outcome::Returns(Err(e), pos),
                                    Outcome::Panics => Outcome::Panics,
                                }
                            },
                            Outcome::Returns(Err(e), _) => Outcome::Returns(Err(e), pos),
                            Outcome::Panics => Outcome::Panics,
                        }
                    } else {
                        Outcome::Panics
                    }
                },
                Outcome::Returns(Err(e), _) => Outcome::Returns(Err(e), pos),
                Outcome::Panics => Outcome::Panics,
            }
        ),
{
    reveal_with_fuel(spec_st_block, 1);
}

/// Unfolds [`spec_attribute`] once.
#[verifier::spinoff_prover]
pub proof fn lemma_spec_attribute(input: Tokens, pos: nat)
    ensures
        spec_attribute(input, pos) == (
            match token::Less::spec_parse(input, pos) {
                Outcome::Returns(Ok(x0), p0) => {
                    match token::Name::spec_parse(input, p0) {
                        Outcome::Returns(Ok(x1), p1) => {
                            match token::Greater::spec_parse(input, p1) {
                                Outcome::Returns(Ok(x2), p2) => {
                                    Outcome::Returns(Ok(Tree::Node(seq![x0, x1, x2])), p2)
                                },
                                Outcome::Returns(Err(e), _) => Outcome::Returns(Err(e), pos),
                                Outcome::Panics => Outcome::Panics,
                            }
                        },
                        Outcome::Returns(Err(e), _) => Outcome::Returns(Err(e), pos),
                        Outcome::Panics => Outcome::Panics,
                    }
                },
                Outcome::Returns(Err(e), _) => Outcome::Returns(Err(e), pos),
                Outcome::Panics => Outcome::Panics,
            }
        ),
{
    reveal_with_fuel(spec_attribute, 1);
}

/// Unfolds [`spec_st_while_loop`] once.
#[verifier::spinoff_prover]
pub proof fn lemma_spec_st_while_loop(input: Tokens, pos: nat)
    ensures
        spec_st_while_loop(input, pos) == (
            match token::While::spec_parse(input, pos) {
                Outcome::Returns(Ok(x0), p0) => {
                    if pos < p0 && p0 <= input.tokens.len() {
                        match spec_exp(input, p0) {
                            Outcome::Returns(Ok(x1), p1) => {
                                match token::Do::spec_parse(input, p1) {
                                    Outcome::Returns(Ok(x2), p2) => {
                                        if pos < p2 && p2 <= input.tokens.len() {
                                            match spec_chunk(input, p2) {
                                                Outcome::Returns(Ok(x3), p3) => {
                                                    match token::End::spec_parse(input, p3) {
                                                        Outcome::Returns(Ok(x4), p4) => {
                                                            Outcome::Returns(Ok(Tree::Node(seq![x0, x1, x2, x3, x4])), p4)
                                                        },
                                                        Outcome::Returns(Err(e), _) => Outcome::Returns(Err(e), pos),
                                                        Outcome::Panics => Outcome::Panics,
                                                    }
                                                },
                                                Outcome::Returns(Err(e), _) => Outcome::Returns(Err(e), pos),
                                                Outcome::Panics => Outcome::Panics,
                                            }
                                        } else {
                                            Outcome::Panics
                                        }
                                    },
                                    Outcome::Returns(Err(e), _) => Outcome::Returns(Err(e), pos),
                                    Outcome::Panics => Outcome::Panics,
                                }
                            },
                            Outcome::Returns(Err(e), _) => Outcome::Returns(Err(e), pos),
                            Outcome::Panics => Outcome::Panics,
                        }
                    } else {
                        Outcome::Panics
                    }
                },
                Outcome::Returns(Err(e), _) => Outcome::Returns(Err(e), pos),
                Outcome::Panics => Outcome::Panics,
            }
        ),
{
    reveal_with_fuel(spec_st_while_loop, 1);
}

/// Unfolds [`spec_st_repeat_loop`] once.
#[verifier::spinoff_prover]
pub proof fn lemma_spec_st_repeat_loop(input: Tokens, pos: nat)
    ensures
        spec_st_repeat_loop(input, pos) == (
            match token::Repeat::spec_parse(input, pos) {
                Outcome::Returns(Ok(x0), p0) => {
                    if pos < p0 && p0 <= input.tokens.len() {
                        match spec_chunk(input, p0) {
                            Outcome::Returns(Ok(x1), p1) => {
                                match token::Until::spec_parse(input, p1) {
                                    Outcome::Returns(Ok(x2), p2) => {
                                        if pos < p2 && p2 <= input.tokens.len() {
                                            match spec_exp(input, p2) {
                                                Outcome::Returns(Ok(x3), p3) => {
                                                    Outcome::Returns(Ok(Tree::Node(seq![x0, x1, x2, x3])), p3)
                                                },
                                                Outcome::Returns(Err(e), _) => Outcome::Returns(Err(e), pos),
                                                Outcome::Panics => Outcome::Panics,
                                            }
                                        } else {
                                            Outcome::Panics
                                        }
                                    },
                                    Outcome::Returns(Err(e), _) => Outcome::Returns(Err(e), pos),
                                    Outcome::Panics => Outcome::Panics,
                                }
                            },
                            Outcome::Returns(Err(e), _) => Outcome::Returns(Err(e), pos),
                            Outcome::Panics => Outcome::Panics,
                        }
                    } else {
                        Outcome::Panics
                    }
                },
                Outcome::Returns(Err(e), _) => Outcome::Returns(Err(e), pos),
                Outcome::Panics => Outcome::Panics,
            }
        ),
{
    reveal_with_fuel(spec_st_repeat_loop, 1);
}

/// Unfolds [`spec_st_for_range_loop`] once.
#[verifier::spinoff_prover]
pub proof fn lemma_spec_st_for_range_loop(input: Tokens, pos: nat)
    ensures
        spec_st_for_range_loop(input, pos) == (
            match token::For::spec_parse(input, pos) {
                Outcome::Returns(Ok(x0), p0) => {
                    match token::Name::spec_parse(input, p0) {
                        Outcome::Returns(Ok(x1), p1) => {
                            match token::Equal::spec_parse(input, p1) {
                                Outcome::Returns(Ok(x2), p2) => {
                                    if pos < p2 && p2 <= input.tokens.len() {
                                        match spec_exp(input, p2) {
                                            Outcome::Returns(Ok(x3), p3) => {
                                                match token::Comma::spec_parse(input, p3) {
                                                    Outcome::Returns(Ok(x4), p4) => {
                                                        if pos < p4 && p4 <= input.tokens.len() {
                                                            match spec_exp(input, p4) {
                                                                Outcome::Returns(Ok(x5), p5) => {
                                                                    if pos < p5 && p5 <= input.tokens.len() {
                                                                        match spec_opt_step(input, p5) {
                                                                            Outcome::Returns(Ok(x6), p6) => {
                                                                                match token::Do::spec_parse(input, p6) {
                                                                                    Outcome::Returns(Ok(x7), p7) => {
                                                                                        if pos < p7 && p7 <= input.tokens.len() {
                                                                                            match spec_chunk(input, p7) {
                                                                                                Outcome::Returns(Ok(x8), p8) => {
                                                                                                    match token::End::spec_parse(input, p8) {
                                                                                                        Outcome::Returns(Ok(x9), p9) => {
                                                                                                            Outcome::Returns(Ok(Tree::Node(seq![x0, x1, x2, x3, x4, x5, x6, x7, x8, x9])), p9)
                                                                                                        },
                                                                                                        Outcome::Returns(Err(e), _) => Outcome::Returns(Err(e), pos),
                                                                                                        Outcome::Panics => Outcome::Panics,
                                                                                                    }
                                                                                                },
                                                                                                Outcome::Returns(Err(e), _) => Outcome::Returns(Err(e), pos),
                                                                                                Outcome::Panics => Outcome::Panics,
                                                                                            }
                                                                                        } else {
                                                                                            Outcome::Panics
                                                                                        }
                                                                                    },
                                                                                    Outcome::Returns(Err(e), _) => Outcome::Returns(Err(e), pos),
                                                                                    Outcome::Panics => Outcome::Panics,
                                                                                }
                                                                            },
                                                                            Outcome::Returns(Err(e), _) => Outcome::Returns(Err(e), pos),
                                                                            Outcome::Panics => Outcome::Panics,
                                                                        }
                                                                    } else {
                                                                        Outcome::Panics
                                                                    }
                                                                },
                                                                Outcome::Returns(Err(e), _) => Outcome::Returns(Err(e), pos),
                                                                Outcome::Panics => Outcome::Panics,
                                                            }
                                                        } else {
                                                            Outcome::Panics
                                                        }
                                                    },
                                                    Outcome::Returns(Err(e), _) => Outcome::Returns(Err(e), pos),
                                                    Outcome::Panics => Outcome::Panics,
                                                }
                                            },
                                            Outcome::Returns(Err(e), _) => Outcome::Returns(Err(e), pos),
                                            Outcome::Panics => Outcome::Panics,
                                        }
                                    } else {
                                        Outcome::Panics
                                    }
                                },
                                Outcome::Returns(Err(e), _) => Outcome::Returns(Err(e), pos),
                                Outcome::Panics => Outcome::Panics,
                            }
                        },
                        Outcome::Returns(Err(e), _) => Outcome::Returns(Err(e), pos),
                        Outcome::Panics => Outcome::Panics,
                    }
                },
                Outcome::Returns(Err(e), _) => Outcome::Returns(Err(e), pos),
                Outcome::Panics => Outcome::Panics,
            }
        ),
{
    reveal_with_fuel(spec_st_for_range_loop, 1);
}

/// Unfolds [`spec_st_for_in_loop`] once.
#[verifier::spinoff_prover]
pub proof fn lemma_spec_st_for_in_loop(input: Tokens, pos: nat)
    ensures
        spec_st_for_in_loop(input, pos) == (
            match token::For::spec_parse(input, pos) {
                Outcome::Returns(Ok(x0), p0) => {
                    match spec_name_list(input, p0) {
                        Outcome::Returns(Ok(x1), p1) => {
                            match token::In::spec_parse(input, p1) {
                                Outcome::Returns(Ok(x2), p2) => {
                                    if pos < p2 && p2 <= input.tokens.len() {
                                        match spec_exp_list(input, p2) {
                                            Outcome::Returns(Ok(x3), p3) => {
                                                match token::Do::spec_parse(input, p3) {
                                                    Outcome::Returns(Ok(x4), p4) => {
                                                        if pos < p4 && p4 <= input.tokens.len() {
                                                            match spec_chunk(input, p4) {
                                                                Outcome::Returns(Ok(x5), p5) => {
                                                                    match token::End::spec_parse(input, p5) {
                                                                        Outcome::Returns(Ok(x6), p6) => {
                                                                            Outcome::Returns(Ok(Tree::Node(seq![x0, x1, x2, x3, x4, x5, x6])), p6)
                                                                        },
                                                                        Outcome::Returns(Err(e), _) => Outcome::Returns(Err(e), pos),
                                                                        Outcome::Panics => Outcome::Panics,
                                                                    }
                                                                },
                                                                Outcome::Returns(Err(e), _) => Outcome::Returns(Err(e), pos),
                                                                Outcome::Panics => Outcome::Panics,
                                                            }
                                                        } else {
                                                            Outcome::Panics
                                                        }
                                                    },
                                                    Outcome::Returns(Err(e), _) => Outcome::Returns(Err(e), pos),
                                                    Outcome::Panics => Outcome::Panics,
                                                }
                                            },
                                            Outcome::Returns(Err(e), _) => Outcome::Returns(Err(e), pos),
                                            Outcome::Panics => Outcome::Panics,
                                        }
                                    } else {
                                        Outcome::Panics
                                    }
                                },
                                Outcome::Returns(Err(e), _) => Outcome::Returns(Err(e), pos),
                                Outcome::Panics => Outcome::Panics,
                            }
                        },
                        Outcome::Returns(Err(e), _) => Outcome::Returns(Err(e), pos),
                        Outcome::Panics => Outcome::Panics,
                    }
                },
                Outcome::Returns(Err(e), _) => Outcome::Returns(Err(e), pos),
                Outcome::Panics => Outcome::Panics,
            }
        ),
{
    reveal_with_fuel(spec_st_for_in_loop, 1);
}

/// Unfolds [`spec_st_if_else`] once.
#[verifier::spinoff_prover]
pub proof fn lemma_spec_st_if_else(input: Tokens, pos: nat)
    ensures
        spec_st_if_else(input, pos) == (
            match spec_if_branch(input, pos) {
                Outcome::Returns(Ok(x0), p0) => {
                    if pos < p0 && p0 <= input.tokens.len() {
                        match spec_elseifs(input, p0) {
                            Outcome::Returns(Ok(x1), p1) => {
                                if pos < p1 && p1 <= input.tokens.len() {
                                    match spec_opt_else(input, p1) {
                                        Outcome::Returns(Ok(x2), p2) => {
                                            Outcome::Returns(Ok(Tree::Node(seq![x0, x1, x2])), p2)
                                        },
                                        Outcome::Returns(Err(e), _) => Outcome::Returns(Err(e), pos),
                                        Outcome::Panics => Outcome::Panics,
                                    }
                                } else {
                                    Outcome::Panics
                                }
                            },
                            Outcome::Returns(Err(e), _) => Outcome::Returns(Err(e), pos),
                            Outcome::Panics => Outcome::Panics,
                        }
                    } else {
                        Outcome::Panics
                    }
                },
                Outcome::Returns(Err(e), _) => Outcome::Returns(Err(e), pos),
                Outcome::Panics => Outcome::Panics,
            }
        ),
{
    reveal_with_fuel(spec_st_if_else, 1);
}

/// Unfolds [`spec_if_branch`] once.
#[verifier::spinoff_prover]
pub proof fn lemma_spec_if_branch(input: Tokens, pos: nat)
    ensures
        spec_if_branch(input, pos) == (
            match token::If::spec_parse(input, pos) {
                Outcome::Returns(Ok(x0), p0) => {
                    if pos < p0 && p0 <= input.tokens.len() {
                        match spec_exp(input, p0) {
                            Outcome::Returns(Ok(x1), p1) => {
                                match token::Then::spec_parse(input, p1) {
                                    Outcome::Returns(Ok(x2), p2) => {
                                        if pos < p2 && p2 <= input.tokens.len() {
                                            match spec_chunk(input, p2) {
                                                Outcome::Returns(Ok(x3), p3) => {
                                                    Outcome::Returns(Ok(Tree::Node(seq![x0, x1, x2, x3])), p3)
                                                },
                                                Outcome::Returns(Err(e), _) => Outcome::Returns(Err(e), pos),
                                                Outcome::Panics => Outcome::Panics,
                                            }
                                        } else {
                                            Outcome::Panics
                                        }
                                    },
                                    Outcome::Returns(Err(e), _) => Outcome::Returns(Err(e), pos),
                                    Outcome::Panics => Outcome::Panics,
                                }
                            },
                            Outcome::Returns(Err(e), _) => Outcome::Returns(Err(e), pos),
                            Outcome::Panics => Outcome::Panics,
                        }
                    } else {
                        Outcome::Panics
                    }
                },
                Outcome::Returns(Err(e), _) => Outcome::Returns(Err(e), pos),
                Outcome::Panics => Outcome::Panics,
            }
        ),
{
    reveal_with_fuel(spec_if_branch, 1);
}

/// Unfolds [`spec_else_if_branch`] once.
#[verifier::spinoff_prover]
pub proof fn lemma_spec_else_if_branch(input: Tokens, pos: nat)
    ensures
        spec_else_if_branch(input, pos) == (
            match token::ElseIf::spec_parse(input, pos) {
                Outcome::Returns(Ok(x0), p0) => {
                    if pos < p0 && p0 <= input.tokens.len() {
                        match spec_exp(input, p0) {
                            Outcome::Returns(Ok(x1), p1) => {
                                match token::Then::spec_parse(input, p1) {
                                    Outcome::Returns(Ok(x2), p2) => {
                                        if pos < p2 && p2 <= input.tokens.len() {
                                            match spec_chunk(input, p2) {
                                                Outcome::Returns(Ok(x3), p3) => {
                                                    Outcome::Returns(Ok(Tree::Node(seq![x0, x1, x2, x3])), p3)
                                                },
                                                Outcome::Returns(Err(e), _) => Outcome::Returns(Err(e), pos),
                                                Outcome::Panics => Outcome::Panics,
                                            }
                                        } else {
                                            Outcome::Panics
                                        }
                                    },
                                    Outcome::Returns(Err(e), _) => Outcome::Returns(Err(e), pos),
                                    Outcome::Panics => Outcome::Panics,
                                }
                            },
                            Outcome::Returns(Err(e), _) => Outcome::Returns(Err(e), pos),
                            Outcome::Panics => Outcome::Panics,
                        }
                    } else {
                        Outcome::Panics
                    }
                },
                Outcome::Returns(Err(e), _) => Outcome::Returns(Err(e), pos),
                Outcome::Panics => Outcome::Panics,
            }
        ),
{
    reveal_with_fuel(spec_else_if_branch, 1);
}

/// Unfolds [`spec_else_branch`] once.
#[verifier::spinoff_prover]
pub proof fn lemma_spec_else_branch(input: Tokens, pos: nat)
    ensures
        spec_else_branch(input, pos) == (
            match token::Else::spec_parse(input, pos) {
                Outcome::Returns(Ok(x0), p0) => {
                    if pos < p0 && p0 <= input.tokens.len() {
                        match spec_chunk(input, p0) {
                            Outcome::Returns(Ok(x1), p1) => {
                                Outcome::Returns(Ok(Tree::Node(seq![x0, x1])), p1)
                            },
                            Outcome::Returns(Err(e), _) => Outcome::Returns(Err(e), pos),
                            Outcome::Panics => Outcome::Panics,
                        }
                    } else {
                        Outcome::Panics
                    }
                },
                Outcome::Returns(Err(e), _) => Outcome::Returns(Err(e), pos),
                Outcome::Panics => Outcome::Panics,
            }
        ),
{
    reveal_with_fuel(spec_else_branch, 1);
}

/// Unfolds [`spec_function_call`] once.
#[verifier::spinoff_prover]
pub proof fn lemma_spec_function_call(input: Tokens, pos: nat)
    ensures
        spec_function_call(input, pos) == (
            match spec_prefix_exp(input, pos) {
                Outcome::Returns(Ok(x0), p0) => {
                    if pos < p0 && p0 <= input.tokens.len() {
                        match spec_function_call_body(input, p0) {
                            Outcome::Returns(Ok(x1), p1) => {
                                Outcome::Returns(Ok(Tree::Node(seq![x0, x1])), p1)
                            },
                            Outcome::Returns(Err(e), _) => Outcome::Returns(Err(e), pos),
                            Outcome::Panics => Outcome::Panics,
                        }
                    } else {
                        Outcome::Panics
                    }
                },
                Outcome::Returns(Err(e), _) => Outcome::Returns(Err(e), pos),
                Outcome::Panics => Outcome::Panics,
            }
        ),
{
    reveal_with_fuel(spec_function_call, 1);
}

/// Unfolds [`spec_function_call_body`] once.
#[verifier::spinoff_prover]
pub proof fn lemma_spec_function_call_body(input: Tokens, pos: nat)
    ensures
        spec_function_call_body(input, pos) == (
            match spec_opt_qualifier(input, pos) {
                Outcome::Returns(Ok(x0), p0) => {
                    if moved(input, pos, p0) {
                        match spec_function_args(input, p0) {
                            Outcome::Returns(Ok(x1), p1) => {
                                Outcome::Returns(Ok(Tree::Node(seq![x0, x1])), p1)
                            },
                            Outcome::Returns(Err(e), _) => Outcome::Returns(Err(e), pos),
                            Outcome::Panics => Outcome::Panics,
                        }
                    } else {
                        Outcome::Panics
                    }
                },
                Outcome::Returns(Err(e), _) => Outcome::Returns(Err(e), pos),
                Outcome::Panics => Outcome::Panics,
            }
        ),
{
    reveal_with_fuel(spec_function_call_body, 1);
}

/// Unfolds [`spec_arg_list`] once.
#[verifier::spinoff_prover]
pub proof fn lemma_spec_arg_list(input: Tokens, pos: nat)
    ensures
        spec_arg_list(input, pos) == (
            match token::OpenParen::spec_parse(input, pos) {
                Outcome::Returns(Ok(x0), p0) => {
                    if pos < p0 && p0 <= input.tokens.len() {
                        match spec_exp_list(input, p0) {
                            Outcome::Returns(Ok(x1), p1) => {
                                match token::CloseParen::spec_parse(input, p1) {
                                    Outcome::Returns(Ok(x2), p2) => {
                                        Outcome::Returns(Ok(Tree::Node(seq![x0, x1, x2])), p2)
                                    },
                                    Outcome::Returns(Err(e), _) => Outcome::Returns(Err(e), pos),
                                    Outcome::Panics => Outcome::Panics,
                                }
                            },
                            Outcome::Returns(Err(e), _) => Outcome::Returns(Err(e), pos),
                            Outcome::Panics => Outcome::Panics,
                        }
                    } else {
                        Outcome::Panics
                    }
                },
                Outcome::Returns(Err(e), _) => Outcome::Returns(Err(e), pos),
                Outcome::Panics => Outcome::Panics,
            }
        ),
{
    reveal_with_fuel(spec_arg_list, 1);
}

/// Unfolds [`spec_st_function_def`] once.
#[verifier::spinoff_prover]
pub proof fn lemma_spec_st_function_def(input: Tokens, pos: nat)
    ensures
        spec_st_function_def(input, pos) == (
            match token::Function::spec_parse(input, pos) {
                Outcome::Returns(Ok(x0), p0) => {
                    match spec_function_name(input, p0) {
                        Outcome::Returns(Ok(x1), p1) => {
                            if pos < p1 && p1 <= input.tokens.len() {
                                match spec_function_body(input, p1) {
                                    Outcome::Returns(Ok(x2), p2) => {
                                        Outcome::Returns(Ok(Tree::Node(seq![x0, x1, x2])), p2)
                                    },
                                    Outcome::Returns(Err(e), _) => Outcome::Returns(Err(e), pos),
                                    Outcome::Panics => Outcome::Panics,
                                }
                            } else {
                                Outcome::Panics
                            }
                        },
                        Outcome::Returns(Err(e), _) => Outcome::Returns(Err(e), pos),
                        Outcome::Panics => Outcome::Panics,
                    }
                },
                Outcome::Returns(Err(e), _) => Outcome::Returns(Err(e), pos),
                Outcome::Panics => Outcome::Panics,
            }
        ),
{
    reveal_with_fuel(spec_st_function_def, 1);
}

/// Unfolds [`spec_st_local_function_def`] once.
#[verifier::spinoff_prover]
pub proof fn lemma_spec_st_local_function_def(input: Tokens, pos: nat)
    ensures
        spec_st_local_function_def(input, pos) == (
            match token::Local::spec_parse(input, pos) {
                Outcome::Returns(Ok(x0), p0) => {
                    match token::Function::spec_parse(input, p0) {
                        Outcome::Returns(Ok(x1), p1) => {
                            match token::Name::spec_parse(input, p1) {
                                Outcome::Returns(Ok(x2), p2) => {
                                    if pos < p2 && p2 <= input.tokens.len() {
                                        match spec_function_body(input, p2) {
                                            Outcome::Returns(Ok(x3), p3) => {
                                                Outcome::Returns(Ok(Tree::Node(seq![x0, x1, x2, x3])), p3)
                                            },
                                            Outcome::Returns(Err(e), _) => Outcome::Returns(Err(e), pos),
                                            Outcome::Panics => Outcome::Panics,
                                        }
                                    } else {
                                        Outcome::Panics
                                    }
                                },
                                Outcome::Returns(Err(e), _) => Outcome::Returns(Err(e), pos),
                                Outcome::Panics => Outcome::Panics,
                            }
                        },
                        Outcome::Returns(Err(e), _) => Outcome::Returns(Err(e), pos),
                        Outcome::Panics => Outcome::Panics,
                    }
                },
                Outcome::Returns(Err(e), _) => Outcome::Returns(Err(e), pos),
                Outcome::Panics => Outcome::Panics,
            }
        ),
{
    reveal_with_fuel(spec_st_local_function_def, 1);
}

/// Unfolds [`spec_st_local_init`] once.
#[verifier::spinoff_prover]
pub proof fn lemma_spec_st_local_init(input: Tokens, pos: nat)
    ensures
        spec_st_local_init(input, pos) == (
            match token::Local::spec_parse(input, pos) {
                Outcome::Returns(Ok(x0), p0) => {
                    match spec_attr_name_list(input, p0) {
                        Outcome::Returns(Ok(x1), p1) => {
                            if pos < p1 && p1 <= input.tokens.len() {
                                match spec_local_init(input, p1) {
                                    Outcome::Returns(Ok(x2), p2) => {
                                        Outcome::Returns(Ok(Tree::Node(seq![x0, x1, x2])), p2)
                                    },
                                    Outcome::Returns(Err(e), _) => Outcome::Returns(Err(e), pos),
                                    Outcome::Panics => Outcome::Panics,
                                }
                            } else {
                                Outcome::Panics
                            }
                        },
                        Outcome::Returns(Err(e), _) => Outcome::Returns(Err(e), pos),
                        Outcome::Panics => Outcome::Panics,
                    }
                },
                Outcome::Returns(Err(e), _) => Outcome::Returns(Err(e), pos),
                Outcome::Panics => Outcome::Panics,
            }
        ),
{
    reveal_with_fuel(spec_st_local_init, 1);
}

/// Unfolds [`spec_st_goto`] once.
#[verifier::spinoff_prover]
pub proof fn lemma_spec_st_goto(input: Tokens, pos: nat)
    ensures
        spec_st_goto(input, pos) == (
            match token::Goto::spec_parse(input, pos) {
                Outcome::Returns(Ok(x0), p0) => {
                    match token::Name::spec_parse(input, p0) {
                        Outcome::Returns(Ok(x1), p1) => {
                            Outcome::Returns(Ok(Tree::Node(seq![x0, x1])), p1)
                        },
                        Outcome::Returns(Err(e), _) => Outcome::Returns(Err(e), pos),
                        Outcome::Panics => Outcome::Panics,
                    }
                },
                Outcome::Returns(Err(e), _) => Outcome::Returns(Err(e), pos),
                Outcome::Panics => Outcome::Panics,
            }
        ),
{
    reveal_with_fuel(spec_st_goto, 1);
}

/// Unfolds [`spec_st_label`] once.
#[verifier::spinoff_prover]
pub proof fn lemma_spec_st_label(input: Tokens, pos: nat)
    ensures
        spec_st_label(input, pos) == (
            match token::DoubleColon::spec_parse(input, pos) {
                Outcome::Returns(Ok(x0), p0) => {
                    match token::Name::spec_parse(input, p0) {
                        Outcome::Returns(Ok(x1), p1) => {
                            match token::DoubleColon::spec_parse(input, p1) {
                                Outcome::Returns(Ok(x2), p2) => {
                                    Outcome::Returns(Ok(Tree::Node(seq![x0, x1, x2])), p2)
                                },
                                Outcome::Returns(Err(e), _) => Outcome::Returns(Err(e), pos),
                                Outcome::Panics => Outcome::Panics,
                            }
                        },
                        Outcome::Returns(Err(e), _) => Outcome::Returns(Err(e), pos),
                        Outcome::Panics => Outcome::Panics,
                    }
                },
                Outcome::Returns(Err(e), _) => Outcome::Returns(Err(e), pos),
                Outcome::Panics => Outcome::Panics,
            }
        ),
{
    reveal_with_fuel(spec_st_label, 1);
}

/// Unfolds [`spec_st_return`] once.
#[verifier::spinoff_prover]
pub proof fn lemma_spec_st_return(input: Tokens, pos: nat)
    ensures
        spec_st_return(input, pos) == (
            match token::Return::spec_parse(input, pos) {
                Outcome::Returns(Ok(x0), p0) => {
                    if pos < p0 && p0 <= input.tokens.len() {
                        match spec_exp_list(input, p0) {
                            Outcome::Returns(Ok(x1), p1) => {
                                Outcome::Returns(Ok(Tree::Node(seq![x0, x1])), p1)
                            },
                            Outcome::Returns(Err(e), _) => Outcome::Returns(Err(e), pos),
                            Outcome::Panics => Outcome::Panics,
                        }
                    } else {
                        Outcome::Panics
                    }
                },
                Outcome::Returns(Err(e), _) => Outcome::Returns(Err(e), pos),
                Outcome::Panics => Outcome::Panics,
            }
        ),
{
    reveal_with_fuel(spec_st_return, 1);
}

/// Unfolds [`spec_st_break`] once.
#[verifier::spinoff_prover]
pub proof fn lemma_spec_st_break(input: Tokens, pos: nat)
    ensures
        spec_st_break(input, pos) == (
            match token::Break::spec_parse(input, pos) {
                Outcome::Returns(Ok(x0), p0) => {
                    Outcome::Returns(Ok(Tree::Node(seq![x0])), p0)
                },
                Outcome::Returns(Err(e), _) => Outcome::Returns(Err(e), pos),
                Outcome::Panics => Outcome::Panics,
            }
        ),
{
    reveal_with_fuel(spec_st_break, 1);
}

/// Unfolds [`spec_function_body`] once.
#[verifier::spinoff_prover]
pub proof fn lemma_spec_function_body(input: Tokens, pos: nat)
    ensures
        spec_function_body(input, pos) == (
            match token::OpenParen::spec_parse(input, pos) {
                Outcome::Returns(Ok(x0), p0) => {
                    match spec_par_list(input, p0) {
                        Outcome::Returns(Ok(x1), p1) => {
                            match token::CloseParen::spec_parse(input, p1) {
                                Outcome::Returns(Ok(x2), p2) => {
                                    if pos < p2 && p2 <= input.tokens.len() {
                                        match spec_chunk(input, p2) {
                                            Outcome::Returns(Ok(x3), p3) => {
                                                match token::End::spec_parse(input, p3) {
                                                    Outcome::Returns(Ok(x4), p4) => {
                                                        Outcome::Returns(Ok(Tree::Node(seq![x0, x1, x2, x3, x4])), p4)
                                                    },
                                                    Outcome::Returns(Err(e), _) => Outcome::Returns(Err(e), pos),
                                                    Outcome::Panics => Outcome::Panics,
                                                }
                                            },
                                            Outcome::Returns(Err(e), _) => Outcome::Returns(Err(e), pos),
                                            Outcome::Panics => Outcome::Panics,
                                        }
                                    } else {
                                        Outcome::Panics
                                    }
                                },
                                Outcome::Returns(Err(e), _) => Outcome::Returns(Err(e), pos),
                                Outcome::Panics => Outcome::Panics,
                            }
                        },
                        Outcome::Returns(Err(e), _) => Outcome::Returns(Err(e), pos),
                        Outcome::Panics => Outcome::Panics,
                    }
                },
                Outcome::Returns(Err(e), _) => Outcome::Returns(Err(e), pos),
                Outcome::Panics => Outcome::Panics,
            }
        ),
{
    reveal_with_fuel(spec_function_body, 1);
}

/// Unfolds [`spec_par_list`] once.
#[verifier::spinoff_prover]
pub proof fn lemma_spec_par_list(input: Tokens, pos: nat)
    ensures
        spec_par_list(input, pos) == (
            match spec_name_list(input, pos) {
                Outcome::Returns(Ok(x0), p0) => {
                    match spec_opt_ellipses(input, p0) {
                        Outcome::Returns(Ok(x1), p1) => {
                            Outcome::Returns(Ok(Tree::Node(seq![x0, x1])), p1)
                        },
                        Outcome::Returns(Err(e), _) => Outcome::Returns(Err(e), pos),
                        Outcome::Panics => Outcome::Panics,
                    }
                },
                Outcome::Returns(Err(e), _) => Outcome::Returns(Err(e), pos),
                Outcome::Panics => Outcome::Panics,
            }
        ),
{
    reveal_with_fuel(spec_par_list, 1);
}

/// Unfolds [`spec_var_index`] once.
#[verifier::spinoff_prover]
pub proof fn lemma_spec_var_index(input: Tokens, pos: nat)
    ensures
        spec_var_index(input, pos) == (
            match spec_prefix_exp(input, pos) {
                Outcome::Returns(Ok(x0), p0) => {
                    if pos < p0 && p0 <= input.tokens.len() {
                        match spec_var_index_body(input, p0) {
                            Outcome::Returns(Ok(x1), p1) => {
                                Outcome::Returns(Ok(Tree::Node(seq![x0, x1])), p1)
                            },
                            Outcome::Returns(Err(e), _) => Outcome::Returns(Err(e), pos),
                            Outcome::Panics => Outcome::Panics,
                        }
                    } else {
                        Outcome::Panics
                    }
                },
                Outcome::Returns(Err(e), _) => Outcome::Returns(Err(e), pos),
                Outcome::Panics => Outcome::Panics,
            }
        ),
{
    reveal_with_fuel(spec_var_index, 1);
}

/// Unfolds [`spec_var_index_body`] once.
#[verifier::spinoff_prover]
pub proof fn lemma_spec_var_index_body(input: Tokens, pos: nat)
    ensures
        spec_var_index_body(input, pos) == (
            match token::OpenBracket::spec_parse(input, pos) {
                Outcome::Returns(Ok(x0), p0) => {
                    if pos < p0 && p0 <= input.tokens.len() {
                        match spec_exp(input, p0) {
                            Outcome::Returns(Ok(x1), p1) => {
                                match token::CloseBracket::spec_parse(input, p1) {
                                    Outcome::Returns(Ok(x2), p2) => {
                                        Outcome::Returns(Ok(Tree::Node(seq![x0, x1, x2])), p2)
                                    },
                                    Outcome::Returns(Err(e), _) => Outcome::Returns(Err(e), pos),
                                    Outcome::Panics => Outcome::Panics,
                                }
                            },
                            Outcome::Returns(Err(e), _) => Outcome::Returns(Err(e), pos),
                            Outcome::Panics => Outcome::Panics,
                        }
                    } else {
                        Outcome::Panics
                    }
                },
                Outcome::Returns(Err(e), _) => Outcome::Returns(Err(e), pos),
                Outcome::Panics => Outcome::Panics,
            }
        ),
{
    reveal_with_fuel(spec_var_index_body, 1);
}

/// Unfolds [`spec_var_access`] once.
#[verifier::spinoff_prover]
pub proof fn lemma_spec_var_access(input: Tokens, pos: nat)
    ensures
        spec_var_access(input, pos) == (
            match spec_prefix_exp(input, pos) {
                Outcome::Returns(Ok(x0), p0) => {
                    match spec_var_access_body(input, p0) {
                        Outcome::Returns(Ok(x1), p1) => {
                            Outcome::Returns(Ok(Tree::Node(seq![x0, x1])), p1)
                        },
                        Outcome::Returns(Err(e), _) => Outcome::Returns(Err(e), pos),
                        Outcome::Panics => Outcome::Panics,
                    }
                },
                Outcome::Returns(Err(e), _) => Outcome::Returns(Err(e), pos),
                Outcome::Panics => Outcome::Panics,
            }
        ),
{
    reveal_with_fuel(spec_var_access, 1);
}

/// Unfolds [`spec_var_access_body`] once.
#[verifier::spinoff_prover]
pub proof fn lemma_spec_var_access_body(input: Tokens, pos: nat)
    ensures
        spec_var_access_body(input, pos) == (
            match token::Dot::spec_parse(input, pos) {
                Outcome::Returns(Ok(x0), p0) => {
                    match token::Name::spec_parse(input, p0) {
                        Outcome::Returns(Ok(x1), p1) => {
                            Outcome::Returns(Ok(Tree::Node(seq![x0, x1])), p1)
                        },
                        Outcome::Returns(Err(e), _) => Outcome::Returns(Err(e), pos),
                        Outcome::Panics => Outcome::Panics,
                    }
                },
                Outcome::Returns(Err(e), _) => Outcome::Returns(Err(e), pos),
                Outcome::Panics => Outcome::Panics,
            }
        ),
{
    reveal_with_fuel(spec_var_access_body, 1);
}

/// Unfolds [`spec_prefix_exp`] once.
#[verifier::spinoff_prover]
pub proof fn lemma_spec_prefix_exp(input: Tokens, pos: nat)
    ensures
        spec_prefix_exp(input, pos) == (
            match spec_prefix_exp_kind(input, pos) {
                Outcome::Returns(Ok(x0), p0) => {
                    if pos < p0 && p0 <= input.tokens.len() {
                        match spec_suffixes(input, p0) {
                            Outcome::Returns(Ok(x1), p1) => {
                                Outcome::Returns(Ok(Tree::Node(seq![x0, x1])), p1)
                            },
                            Outcome::Returns(Err(e), _) => Outcome::Returns(Err(e), pos),
                            Outcome::Panics => Outcome::Panics,
                        }
                    } else {
                        Outcome::Panics
                    }
                },
                Outcome::Returns(Err(e), _) => Outcome::Returns(Err(e), pos),
                Outcome::Panics => Outcome::Panics,
            }
        ),
{
    reveal_with_fuel(spec_prefix_exp, 1);
}

/// Unfolds [`spec_prefix_parens`] once.
#[verifier::spinoff_prover]
pub proof fn lemma_spec_prefix_parens(input: Tokens, pos: nat)
    ensures
        spec_prefix_parens(input, pos) == (
            match token::OpenParen::spec_parse(input, pos) {
                Outcome::Returns(Ok(x0), p0) => {
                    if pos < p0 && p0 <= input.tokens.len() {
                        match spec_exp(input, p0) {
                            Outcome::Returns(Ok(x1), p1) => {
                                match token::CloseParen::spec_parse(input, p1) {
                                    Outcome::Returns(Ok(x2), p2) => {
                                        Outcome::Returns(Ok(Tree::Node(seq![x0, x1, x2])), p2)
                                    },
                                    Outcome::Returns(Err(e), _) => Outcome::Returns(Err(e), pos),
                                    Outcome::Panics => Outcome::Panics,
                                }
                            },
                            Outcome::Returns(Err(e), _) => Outcome::Returns(Err(e), pos),
                            Outcome::Panics => Outcome::Panics,
                        }
                    } else {
                        Outcome::Panics
                    }
                },
                Outcome::Returns(Err(e), _) => Outcome::Returns(Err(e), pos),
                Outcome::Panics => Outcome::Panics,
            }
        ),
{
    reveal_with_fuel(spec_prefix_parens, 1);
}

/// Unfolds [`spec_exp_function`] once.
#[verifier::spinoff_prover]
pub proof fn lemma_spec_exp_function(input: Tokens, pos: nat)
    ensures
        spec_exp_function(input, pos) == (
            match token::Function::spec_parse(input, pos) {
                Outcome::Returns(Ok(x0), p0) => {
                    if pos < p0 && p0 <= input.tokens.len() {
                        match spec_function_body(input, p0) {
                            Outcome::Returns(Ok(x1), p1) => {
                                Outcome::Returns(Ok(Tree::Node(seq![x0, x1])), p1)
                            },
                            Outcome::Returns(Err(e), _) => Outcome::Returns(Err(e), pos),
                            Outcome::Panics => Outcome::Panics,
                        }
                    } else {
                        Outcome::Panics
                    }
                },
                Outcome::Returns(Err(e), _) => Outcome::Returns(Err(e), pos),
                Outcome::Panics => Outcome::Panics,
            }
        ),
{
    reveal_with_fuel(spec_exp_function, 1);
}

/// Unfolds [`spec_table_constructor`] once.
#[verifier::spinoff_prover]
pub proof fn lemma_spec_table_constructor(input: Tokens, pos: nat)
    ensures
        spec_table_constructor(input, pos) == (
            match token::OpenBrace::spec_parse(input, pos) {
                Outcome::Returns(Ok(x0), p0) => {
                    if pos < p0 && p0 <= input.tokens.len() {
                        match spec_fields(input, p0) {
                            Outcome::Returns(Ok(x1), p1) => {
                                match token::CloseBrace::spec_parse(input, p1) {
                                    Outcome::Returns(Ok(x2), p2) => {
                                        Outcome::Returns(Ok(Tree::Node(seq![x0, x1, x2])), p2)
                                    },
                                    Outcome::Returns(Err(e), _) => Outcome::Returns(Err(e), pos),
                                    Outcome::Panics => Outcome::Panics,
                                }
                            },
                            Outcome::Returns(Err(e), _) => Outcome::Returns(Err(e), pos),
                            Outcome::Panics => Outcome::Panics,
                        }
                    } else {
                        Outcome::Panics
                    }
                },
                Outcome::Returns(Err(e), _) => Outcome::Returns(Err(e), pos),
                Outcome::Panics => Outcome::Panics,
            }
        ),
{
    reveal_with_fuel(spec_table_constructor, 1);
}

/// Unfolds [`spec_map_field`] once.
#[verifier::spinoff_prover]
pub proof fn lemma_spec_map_field(input: Tokens, pos: nat)
    ensures
        spec_map_field(input, pos) == (
            match token::Name::spec_parse(input, pos) {
                Outcome::Returns(Ok(x0), p0) => {
                    match token::Equal::spec_parse(input, p0) {
                        Outcome::Returns(Ok(x1), p1) => {
                            if pos < p1 && p1 <= input.tokens.len() {
                                match spec_exp(input, p1) {
                                    Outcome::Returns(Ok(x2), p2) => {
                                        Outcome::Returns(Ok(Tree::Node(seq![x0, x1, x2])), p2)
                                    },
                                    Outcome::Returns(Err(e), _) => Outcome::Returns(Err(e), pos),
                                    Outcome::Panics => Outcome::Panics,
                                }
                            } else {
                                Outcome::Panics
                            }
                        },
                        Outcome::Returns(Err(e), _) => Outcome::Returns(Err(e), pos),
                        Outcome::Panics => Outcome::Panics,
                    }
                },
                Outcome::Returns(Err(e), _) => Outcome::Returns(Err(e), pos),
                Outcome::Panics => Outcome::Panics,
            }
        ),
{
    reveal_with_fuel(spec_map_field, 1);
}

/// Unfolds [`spec_bracket_field`] once.
#[verifier::spinoff_prover]
pub proof fn lemma_spec_bracket_field(input: Tokens, pos: nat)
    ensures
        spec_bracket_field(input, pos) == (
            match token::OpenBracket::spec_parse(input, pos) {
                Outcome::Returns(Ok(x0), p0) => {
                    if pos < p0 && p0 <= input.tokens.len() {
                        match spec_exp(input, p0) {
                            Outcome::Returns(Ok(x1), p1) => {
                                match token::CloseBracket::spec_parse(input, p1) {
                                    Outcome::Returns(Ok(x2), p2) => {
                                        match token::Equal::spec_parse(input, p2) {
                                            Outcome::Returns(Ok(x3), p3) => {
                                                if pos < p3 && p3 <= input.tokens.len() {
                                                    match spec_exp(input, p3) {
                                                        Outcome::Returns(Ok(x4), p4) => {
                                                            Outcome::Returns(Ok(Tree::Node(seq![x0, x1, x2, x3, x4])), p4)
                                                        },
                                                        Outcome::Returns(Err(e), _) => Outcome::Returns(Err(e), pos),
                                                        Outcome::Panics => Outcome::Panics,
                                                    }
                                                } else {
                                                    Outcome::Panics
                                                }
                                            },
                                            Outcome::Returns(Err(e), _) => Outcome::Returns(Err(e), pos),
                                            Outcome::Panics => Outcome::Panics,
                                        }
                                    },
                                    Outcome::Returns(Err(e), _) => Outcome::Returns(Err(e), pos),
                                    Outcome::Panics => Outcome::Panics,
                                }
                            },
                            Outcome::Returns(Err(e), _) => Outcome::Returns(Err(e), pos),
                            Outcome::Panics => Outcome::Panics,
                        }
                    } else {
                        Outcome::Panics
                    }
                },
                Outcome::Returns(Err(e), _) => Outcome::Returns(Err(e), pos),
                Outcome::Panics => Outcome::Panics,
            }
        ),
{
    reveal_with_fuel(spec_bracket_field, 1);
}

/// Unfolds [`spec_statement`] once.
#[verifier::spinoff_prover]
pub proof fn lemma_spec_statement(input: Tokens, pos: nat)
    ensures
        spec_statement(input, pos) == (
            match spec_st_assign(input, pos) {
                Outcome::Returns(Ok(x), p) => Outcome::Returns(Ok(Tree::Choice(0, Box::new(x))), p),
                Outcome::Returns(Err(_), _) => {
                    match spec_function_call(input, pos) {
                        Outcome::Returns(Ok(x), p) => Outcome::Returns(Ok(Tree::Choice(1, Box::new(x))), p),
                        Outcome::Returns(Err(_), _) => {
                            match spec_st_block(input, pos) {
                                Outcome::Returns(Ok(x), p) => Outcome::Returns(Ok(Tree::Choice(2, Box::new(x))), p),
                                Outcome::Returns(Err(_), _) => {
                                    match spec_st_while_loop(input, pos) {
                                        Outcome::Returns(Ok(x), p) => Outcome::Returns(Ok(Tree::Choice(3, Box::new(x))), p),
                                        Outcome::Returns(Err(_), _) => {
                                            match spec_st_repeat_loop(input, pos) {
                                                Outcome::Returns(Ok(x), p) => Outcome::Returns(Ok(Tree::Choice(4, Box::new(x))), p),
                                                Outcome::Returns(Err(_), _) => {
                                                    match spec_st_if_else(input, pos) {
                                                        Outcome::Returns(Ok(x), p) => Outcome::Returns(Ok(Tree::Choice(5, Box::new(x))), p),
                                                        Outcome::Returns(Err(_), _) => {
                                                            match spec_st_for_range_loop(input, pos) {
                                                                Outcome::Returns(Ok(x), p) => Outcome::Returns(Ok(Tree::Choice(6, Box::new(x))), p),
                                                                Outcome::Returns(Err(_), _) => {
                                                                    match spec_st_for_in_loop(input, pos) {
                                                                        Outcome::Returns(Ok(x), p) => Outcome::Returns(Ok(Tree::Choice(7, Box::new(x))), p),
                                                                        Outcome::Returns(Err(_), _) => {
                                                                            match spec_st_function_def(input, pos) {
                                                                                Outcome::Returns(Ok(x), p) => Outcome::Returns(Ok(Tree::Choice(8, Box::new(x))), p),
                                                                                Outcome::Returns(Err(_), _) => {
                                                                                    match spec_st_local_function_def(input, pos) {
                                                                                        Outcome::Returns(Ok(x), p) => Outcome::Returns(Ok(Tree::Choice(9, Box::new(x))), p),
                                                                                        Outcome::Returns(Err(_), _) => {
                                                                                            match spec_st_local_init(input, pos) {
                                                                                                Outcome::Returns(Ok(x), p) => Outcome::Returns(Ok(Tree::Choice(10, Box::new(x))), p),
                                                                                                Outcome::Returns(Err(_), _) => {
                                                                                                    match spec_st_goto(input, pos) {
                                                                                                        Outcome::Returns(Ok(x), p) => Outcome::Returns(Ok(Tree::Choice(11, Box::new(x))), p),
                                                                                                        Outcome::Returns(Err(_), _) => {
                                                                                                            match spec_st_label(input, pos) {
                                                                                                                Outcome::Returns(Ok(x), p) => Outcome::Returns(Ok(Tree::Choice(12, Box::new(x))), p),
                                                                                                                Outcome::Returns(Err(_), _) => {
                                                                                                                    match spec_st_break(input, pos) {
                                                                                                                        Outcome::Returns(Ok(x), p) => Outcome::Returns(Ok(Tree::Choice(13, Box::new(x))), p),
                                                                                                                        Outcome::Returns(Err(_), _) => {
                                                                                                                            Outcome::Returns(Err(perr(peek_at(input, pos as int).spec_span().start as int, "expected Statement")), pos)
                                                                                                                        },
                                                                                                                        Outcome::Panics => Outcome::Panics,
                                                                                                                    }
                                                                                                                },
                                                                                                                Outcome::Panics => Outcome::Panics,
                                                                                                            }
                                                                                                        },
                                                                                                        Outcome::Panics => Outcome::Panics,
                                                                                                    }
                                                                                                },
                                                                                                Outcome::Panics => Outcome::Panics,
                                                                                            }
                                                                                        },
                                                                                        Outcome::Panics => Outcome::Panics,
                                                                                    }
                                                                                },
                                                                                Outcome::Panics => Outcome::Panics,
                                                                            }
                                                                        },
                                                                        Outcome::Panics => Outcome::Panics,
                                                                    }
                                                                },
                                                                Outcome::Panics => Outcome::Panics,
                                                            }
                                                        },
                                                        Outcome::Panics => Outcome::Panics,
                                                    }
                                                },
                                                Outcome::Panics => Outcome::Panics,
                                            }
                                        },
                                        Outcome::Panics => Outcome::Panics,
                                    }
                                },
                                Outcome::Panics => Outcome::Panics,
                            }
                        },
                        Outcome::Panics => Outcome::Panics,
                    }
                },
                Outcome::Panics => Outcome::Panics,
            }
        ),
{
    reveal_with_fuel(spec_statement, 1);
}

/// Unfolds [`spec_function_args`] once.
#[verifier::spinoff_prover]
pub proof fn lemma_spec_function_args(input: Tokens, pos: nat)
    ensures
        spec_function_args(input, pos) == (
            match spec_arg_list(input, pos) {
                Outcome::Returns(Ok(x), p) => Outcome::Returns(Ok(Tree::Choice(0, Box::new(x))), p),
                Outcome::Returns(Err(_), _) => {
                    match spec_table_constructor(input, pos) {
                        Outcome::Returns(Ok(x), p) => Outcome::Returns(Ok(Tree::Choice(1, Box::new(x))), p),
                        Outcome::Returns(Err(_), _) => {
                            match token::LiteralString::spec_parse(input, pos) {
                                Outcome::Returns(Ok(x), p) => Outcome::Returns(Ok(Tree::Choice(2, Box::new(x))), p),
                                Outcome::Returns(Err(_), _) => {
                                    Outcome::Returns(Err(perr(peek_at(input, pos as int).spec_span().start as int, "expected FunctionArgs")), pos)
                                },
                                Outcome::Panics => Outcome::Panics,
                            }
                        },
                        Outcome::Panics => Outcome::Panics,
                    }
                },
                Outcome::Panics => Outcome::Panics,
            }
        ),
{
    reveal_with_fuel(spec_function_args, 1);
}

/// Unfolds [`spec_last_statement`] once.
#[verifier::spinoff_prover]
pub proof fn lemma_spec_last_statement(input: Tokens, pos: nat)
    ensures
        spec_last_statement(input, pos) == (
            match spec_st_return(input, pos) {
                Outcome::Returns(Ok(x), p) => Outcome::Returns(Ok(Tree::Choice(0, Box::new(x))), p),
                Outcome::Returns(Err(_), _) => {
                    Outcome::Returns(Err(perr(peek_at(input, pos as int).spec_span().start as int, "expected LastStatement")), pos)
                },
                Outcome::Panics => Outcome::Panics,
            }
        ),
{
    reveal_with_fuel(spec_last_statement, 1);
}

/// Unfolds [`spec_var`] once.
#[verifier::spinoff_prover]
pub proof fn lemma_spec_var(input: Tokens, pos: nat)
    ensures
        spec_var(input, pos) == (
            match token::Name::spec_parse(input, pos) {
                Outcome::Returns(Ok(x), p) => Outcome::Returns(Ok(Tree::Choice(0, Box::new(x))), p),
                Outcome::Returns(Err(_), _) => {
                    match spec_var_index(input, pos) {
                        Outcome::Returns(Ok(x), p) => Outcome::Returns(Ok(Tree::Choice(1, Box::new(x))), p),
                        Outcome::Returns(Err(_), _) => {
                            match spec_var_access(input, pos) {
                                Outcome::Returns(Ok(x), p) => Outcome::Returns(Ok(Tree::Choice(2, Box::new(x))), p),
                                Outcome::Returns(Err(_), _) => {
                                    Outcome::Returns(Err(perr(peek_at(input, pos as int).spec_span().start as int, "expected Var")), pos)
                                },
                                Outcome::Panics => Outcome::Panics,
                            }
                        },
                        Outcome::Panics => Outcome::Panics,
                    }
                },
                Outcome::Panics => Outcome::Panics,
            }
        ),
{
    reveal_with_fuel(spec_var, 1);
}

/// Unfolds [`spec_prefix_exp_kind`] once.
#[verifier::spinoff_prover]
pub proof fn lemma_spec_prefix_exp_kind(input: Tokens, pos: nat)
    ensures
        spec_prefix_exp_kind(input, pos) == (
            match token::Name::spec_parse(input, pos) {
                Outcome::Returns(Ok(x), p) => Outcome::Returns(Ok(Tree::Choice(0, Box::new(x))), p),
                Outcome::Returns(Err(_), _) => {
                    match spec_prefix_parens(input, pos) {
                        Outcome::Returns(Ok(x), p) => Outcome::Returns(Ok(Tree::Choice(1, Box::new(x))), p),
                        Outcome::Returns(Err(_), _) => {
                            Outcome::Returns(Err(perr(peek_at(input, pos as int).spec_span().start as int, "expected PrefixExpKind")), pos)
                        },
                        Outcome::Panics => Outcome::Panics,
                    }
                },
                Outcome::Panics => Outcome::Panics,
            }
        ),
{
    reveal_with_fuel(spec_prefix_exp_kind, 1);
}

/// Unfolds [`spec_prefix_exp_suffix`] once.
#[verifier::spinoff_prover]
pub proof fn lemma_spec_prefix_exp_suffix(input: Tokens, pos: nat)
    ensures
        spec_prefix_exp_suffix(input, pos) == (
            match spec_function_call_body(input, pos) {
                Outcome::Returns(Ok(x), p) => Outcome::Returns(Ok(Tree::Choice(0, Box::new(x))), p),
                Outcome::Returns(Err(_), _) => {
                    match spec_var_index_body(input, pos) {
                        Outcome::Returns(Ok(x), p) => Outcome::Returns(Ok(Tree::Choice(1, Box::new(x))), p),
                        Outcome::Returns(Err(_), _) => {
                            match spec_var_access_body(input, pos) {
                                Outcome::Returns(Ok(x), p) => Outcome::Returns(Ok(Tree::Choice(2, Box::new(x))), p),
                                Outcome::Returns(Err(_), _) => {
                                    Outcome::Returns(Err(perr(peek_at(input, pos as int).spec_span().start as int, "expected PrefixExpSuffix")), pos)
                                },
                                Outcome::Panics => Outcome::Panics,
                            }
                        },
                        Outcome::Panics => Outcome::Panics,
                    }
                },
                Outcome::Panics => Outcome::Panics,
            }
        ),
{
    reveal_with_fuel(spec_prefix_exp_suffix, 1);
}

/// Unfolds [`spec_exp_atom`] once.
#[verifier::spinoff_prover]
pub proof fn lemma_spec_exp_atom(input: Tokens, pos: nat)
    ensures
        spec_exp_atom(input, pos) == (
            match token::Nil::spec_parse(input, pos) {
                Outcome::Returns(Ok(x), p) => Outcome::Returns(Ok(Tree::Choice(0, Box::new(x))), p),
                Outcome::Returns(Err(_), _) => {
                    match token::True::spec_parse(input, pos) {
                        Outcome::Returns(Ok(x), p) => Outcome::Returns(Ok(Tree::Choice(1, Box::new(x))), p),
                        Outcome::Returns(Err(_), _) => {
                            match token::False::spec_parse(input, pos) {
                                Outcome::Returns(Ok(x), p) => Outcome::Returns(Ok(Tree::Choice(2, Box::new(x))), p),
                                Outcome::Returns(Err(_), _) => {
                                    match spec_exp_literal(input, pos) {
                                        Outcome::Returns(Ok(x), p) => Outcome::Returns(Ok(Tree::Choice(3, Box::new(x))), p),
                                        Outcome::Returns(Err(_), _) => {
                                            match token::Ellipses::spec_parse(input, pos) {
                                                Outcome::Returns(Ok(x), p) => Outcome::Returns(Ok(Tree::Choice(4, Box::new(x))), p),
                                                Outcome::Returns(Err(_), _) => {
                                                    match spec_exp_function(input, pos) {
                                                        Outcome::Returns(Ok(x), p) => Outcome::Returns(Ok(Tree::Choice(5, Box::new(x))), p),
                                                        Outcome::Returns(Err(_), _) => {
                                                            match spec_prefix_exp(input, pos) {
                                                                Outcome::Returns(Ok(x), p) => Outcome::Returns(Ok(Tree::Choice(6, Box::new(x))), p),
                                                                Outcome::Returns(Err(_), _) => {
                                                                    match spec_table_constructor(input, pos) {
                                                                        Outcome::Returns(Ok(x), p) => Outcome::Returns(Ok(Tree::Choice(7, Box::new(x))), p),
                                                                        Outcome::Returns(Err(_), _) => {
                                                                            Outcome::Returns(Err(perr(peek_at(input, pos as int).spec_span().start as int, "expected ExpAtom")), pos)
                                                                        },
                                                                        Outcome::Panics => Outcome::Panics,
                                                                    }
                                                                },
                                                                Outcome::Panics => Outcome::Panics,
                                                            }
                                                        },
                                                        Outcome::Panics => Outcome::Panics,
                                                    }
                                                },
                                                Outcome::Panics => Outcome::Panics,
                                            }
                                        },
                                        Outcome::Panics => Outcome::Panics,
                                    }
                                },
                                Outcome::Panics => Outcome::Panics,
                            }
                        },
                        Outcome::Panics => Outcome::Panics,
                    }
                },
                Outcome::Panics => Outcome::Panics,
            }
        ),
{
    reveal_with_fuel(spec_exp_atom, 1);
}

/// Unfolds [`spec_field_sep`] once.
#[verifier::spinoff_prover]
pub proof fn lemma_spec_field_sep(input: Tokens, pos: nat)
    ensures
        spec_field_sep(input, pos) == (
            match token::Comma::spec_parse(input, pos) {
                Outcome::Returns(Ok(x), p) => Outcome::Returns(Ok(Tree::Choice(0, Box::new(x))), p),
                Outcome::Returns(Err(_), _) => {
                    match token::Semicolon::spec_parse(input, pos) {
                        Outcome::Returns(Ok(x), p) => Outcome::Returns(Ok(Tree::Choice(1, Box::new(x))), p),
                        Outcome::Returns(Err(_), _) => {
                            Outcome::Returns(Err(perr(peek_at(input, pos as int).spec_span().start as int, "expected FieldSep")), pos)
                        },
                        Outcome::Panics => Outcome::Panics,
                    }
                },
                Outcome::Panics => Outcome::Panics,
            }
        ),
{
    reveal_with_fuel(spec_field_sep, 1);
}

/// Unfolds [`spec_field`] once.
#[verifier::spinoff_prover]
pub proof fn lemma_spec_field(input: Tokens, pos: nat)
    ensures
        spec_field(input, pos) == (
            match spec_exp(input, pos) {
                Outcome::Returns(Ok(x), p) => Outcome::Returns(Ok(Tree::Choice(0, Box::new(x))), p),
                Outcome::Returns(Err(_), _) => {
                    match spec_map_field(input, pos) {
                        Outcome::Returns(Ok(x), p) => Outcome::Returns(Ok(Tree::Choice(1, Box::new(x))), p),
                        Outcome::Returns(Err(_), _) => {
                            match spec_bracket_field(input, pos) {
                                Outcome::Returns(Ok(x), p) => Outcome::Returns(Ok(Tree::Choice(2, Box::new(x))), p),
                                Outcome::Returns(Err(_), _) => {
                                    Outcome::Returns(Err(perr(peek_at(input, pos as int).spec_span().start as int, "expected Field")), pos)
                                },
                                Outcome::Panics => Outcome::Panics,
                            }
                        },
                        Outcome::Panics => Outcome::Panics,
                    }
                },
                Outcome::Panics => Outcome::Panics,
            }
        ),
{
    reveal_with_fuel(spec_field, 1);
}

/// Unfolds [`spec_exp_literal`] once.
#[verifier::spinoff_prover]
pub proof fn lemma_spec_exp_literal(input: Tokens, pos: nat)
    ensures
        spec_exp_literal(input, pos) == (
            match token::LiteralNumber::spec_parse(input, pos) {
                Outcome::Returns(Ok(x), p) => Outcome::Returns(Ok(Tree::Choice(0, Box::new(x))), p),
                Outcome::Returns(Err(_), _) => {
                    match token::LiteralString::spec_parse(input, pos) {
                        Outcome::Returns(Ok(x), p) => Outcome::Returns(Ok(Tree::Choice(1, Box::new(x))), p),
                        Outcome::Returns(Err(_), _) => {
                            Outcome::Returns(Err(perr(peek_at(input, pos as int).spec_span().start as int, "expected ExpLiteral")), pos)
                        },
                        Outcome::Panics => Outcome::Panics,
                    }
                },
                Outcome::Panics => Outcome::Panics,
            }
        ),
{
    reveal_with_fuel(spec_exp_literal, 1);
}

/// Unfolds [`spec_stmts_items`] once.
#[verifier::spinoff_prover]
pub proof fn lemma_spec_stmts_items(input: Tokens, pos: nat)
    ensures
        spec_stmts_items(input, pos) == (
            match spec_stmt_semi(input, pos) {
                Outcome::Returns(Ok(x), p) => if pos < p && p <= input.tokens.len() {
                    prepend_trees(seq![x], spec_stmts_items(input, p))
                } else {
                    Outcome::Panics
                },
                Outcome::Returns(Err(_), _) => Outcome::Returns(Ok(seq![]), pos),
                Outcome::Panics => Outcome::Panics,
            }
        ),
{
    reveal_with_fuel(spec_stmts_items, 1);
}

/// Unfolds [`spec_stmts`] once.
#[verifier::spinoff_prover]
pub proof fn lemma_spec_stmts(input: Tokens, pos: nat)
    ensures
        spec_stmts(input, pos) == (
            as_node(spec_stmts_items(input, pos))
        ),
{
    reveal_with_fuel(spec_stmts, 1);
}

/// Unfolds [`spec_stmt_semi`] once.
#[verifier::spinoff_prover]
pub proof fn lemma_spec_stmt_semi(input: Tokens, pos: nat)
    ensures
        spec_stmt_semi(input, pos) == (
            match spec_statement(input, pos) {
                Outcome::Returns(Ok(a), p) => {
                    match spec_opt_semi(input, p) {
                        Outcome::Returns(Ok(b), q) => Outcome::Returns(Ok(Tree::Node(seq![a, b])), q),
                        Outcome::Returns(Err(e), q) => Outcome::Returns(Err(e), q),
                        Outcome::Panics => Outcome::Panics,
                    }
                },
                Outcome::Returns(Err(e), p) => Outcome::Returns(Err(e), p),
                Outcome::Panics => Outcome::Panics,
            }
        ),
{
    reveal_with_fuel(spec_stmt_semi, 1);
}

/// Unfolds [`spec_opt_semi`] once.
#[verifier::spinoff_prover]
pub proof fn lemma_spec_opt_semi(input: Tokens, pos: nat)
    ensures
        spec_opt_semi(input, pos) == (
            match token::Semicolon::spec_parse(input, pos) {
                Outcome::Returns(Ok(x), p) => Outcome::Returns(Ok(Tree::Opt(Some(Box::new(x)))), p),
                Outcome::Returns(Err(_), _) => Outcome::Returns(Ok(Tree::Opt(None)), pos),
                Outcome::Panics => Outcome::Panics,
            }
        ),
{
    reveal_with_fuel(spec_opt_semi, 1);
}

/// Unfolds [`spec_opt_last`] once.
#[verifier::spinoff_prover]
pub proof fn lemma_spec_opt_last(input: Tokens, pos: nat)
    ensures
        spec_opt_last(input, pos) == (
            match spec_last_semi(input, pos) {
                Outcome::Returns(Ok(x), p) => Outcome::Returns(Ok(Tree::Opt(Some(Box::new(x)))), p),
                Outcome::Returns(Err(_), _) => Outcome::Returns(Ok(Tree::Opt(None)), pos),
                Outcome::Panics => Outcome::Panics,
            }
        ),
{
    reveal_with_fuel(spec_opt_last, 1);
}

/// Unfolds [`spec_last_semi`] once.
#[verifier::spinoff_prover]
pub proof fn lemma_spec_last_semi(input: Tokens, pos: nat)
    ensures
        spec_last_semi(input, pos) == (
            match spec_last_statement(input, pos) {
                Outcome::Returns(Ok(a), p) => {
                    match spec_opt_semi(input, p) {
                        Outcome::Returns(Ok(b), q) => Outcome::Returns(Ok(Tree::Node(seq![a, b])), q),
                        Outcome::Returns(Err(e), q) => Outcome::Returns(Err(e), q),
                        Outcome::Panics => Outcome::Panics,
                    }
                },
                Outcome::Returns(Err(e), p) => Outcome::Returns(Err(e), p),
                Outcome::Panics => Outcome::Panics,
            }
        ),
{
    reveal_with_fuel(spec_last_semi, 1);
}

/// Unfolds [`spec_var_list`] once.
#[verifier::spinoff_prover]
pub proof fn lemma_spec_var_list(input: Tokens, pos: nat)
    ensures
        spec_var_list(input, pos) == (
            match spec_var_pairs(input, pos) {
                Outcome::Returns(Ok(pt), p1) => {
                    if moved(input, pos, p1) {
                        match spec_var(input, p1) {
                        Outcome::Returns(Ok(last), p2) => Outcome::Returns(Ok(Tree::Node(seq![pt, last])), p2),
                        Outcome::Returns(Err(e), p2) => Outcome::Returns(Err(e), p2),
                        Outcome::Panics => Outcome::Panics,
                    }
                    } else {
                        Outcome::Panics
                    }
                },
                Outcome::Returns(Err(e), p1) => Outcome::Returns(Err(e), p1),
                Outcome::Panics => Outcome::Panics,
            }
        ),
{
    reveal_with_fuel(spec_var_list, 1);
}

/// Unfolds [`spec_var_pairs_items`] once.
#[verifier::spinoff_prover]
pub proof fn lemma_spec_var_pairs_items(input: Tokens, pos: nat)
    ensures
        spec_var_pairs_items(input, pos) == (
            match spec_var(input, pos) {
                Outcome::Returns(Ok(x), p1) => match token::Comma::spec_parse(input, p1) {
                    Outcome::Returns(Ok(s), p2) => if pos < p2 && p2 <= input.tokens.len() {
                        prepend_trees(seq![Tree::Node(seq![x, s])], spec_var_pairs_items(input, p2))
                    } else {
                        Outcome::Panics
                    },
                    Outcome::Returns(Err(_), _) => Outcome::Returns(Ok(seq![]), pos),
                    Outcome::Panics => Outcome::Panics,
                },
                Outcome::Returns(Err(_), _) => Outcome::Returns(Ok(seq![]), pos),
                Outcome::Panics => Outcome::Panics,
            }
        ),
{
    reveal_with_fuel(spec_var_pairs_items, 1);
}

/// Unfolds [`spec_var_pairs`] once.
#[verifier::spinoff_prover]
pub proof fn lemma_spec_var_pairs(input: Tokens, pos: nat)
    ensures
        spec_var_pairs(input, pos) == (
            as_node(spec_var_pairs_items(input, pos))
        ),
{
    reveal_with_fuel(spec_var_pairs, 1);
}

/// Unfolds [`spec_exp_list`] once.
#[verifier::spinoff_prover]
pub proof fn lemma_spec_exp_list(input: Tokens, pos: nat)
    ensures
        spec_exp_list(input, pos) == (
            match spec_exp_pairs(input, pos) {
                Outcome::Returns(Ok(pt), p1) => {
                    if moved(input, pos, p1) {
                        match spec_exp(input, p1) {
                        Outcome::Returns(Ok(last), p2) => Outcome::Returns(Ok(Tree::Node(seq![pt, last])), p2),
                        Outcome::Returns(Err(e), p2) => Outcome::Returns(Err(e), p2),
                        Outcome::Panics => Outcome::Panics,
                    }
                    } else {
                        Outcome::Panics
                    }
                },
                Outcome::Returns(Err(e), p1) => Outcome::Returns(Err(e), p1),
                Outcome::Panics => Outcome::Panics,
            }
        ),
{
    reveal_with_fuel(spec_exp_list, 1);
}

/// Unfolds [`spec_exp_pairs_items`] once.
#[verifier::spinoff_prover]
pub proof fn lemma_spec_exp_pairs_items(input: Tokens, pos: nat)
    ensures
        spec_exp_pairs_items(input, pos) == (
            match spec_exp(input, pos) {
                Outcome::Returns(Ok(x), p1) => match token::Comma::spec_parse(input, p1) {
                    Outcome::Returns(Ok(s), p2) => if pos < p2 && p2 <= input.tokens.len() {
                        prepend_trees(seq![Tree::Node(seq![x, s])], spec_exp_pairs_items(input, p2))
                    } else {
                        Outcome::Panics
                    },
                    Outcome::Returns(Err(_), _) => Outcome::Returns(Ok(seq![]), pos),
                    Outcome::Panics => Outcome::Panics,
                },
                Outcome::Returns(Err(_), _) => Outcome::Returns(Ok(seq![]), pos),
                Outcome::Panics => Outcome::Panics,
            }
        ),
{
    reveal_with_fuel(spec_exp_pairs_items, 1);
}

/// Unfolds [`spec_exp_pairs`] once.
#[verifier::spinoff_prover]
pub proof fn lemma_spec_exp_pairs(input: Tokens, pos: nat)
    ensures
        spec_exp_pairs(input, pos) == (
            as_node(spec_exp_pairs_items(input, pos))
        ),
{
    reveal_with_fuel(spec_exp_pairs, 1);
}

/// Unfolds [`spec_name_list`] once.
#[verifier::spinoff_prover]
pub proof fn lemma_spec_name_list(input: Tokens, pos: nat)
    ensures
        spec_name_list(input, pos) == (
            match spec_name_pairs(input, pos) {
                Outcome::Returns(Ok(pt), p1) => {
                    match token::Name::spec_parse(input, p1) {
                        Outcome::Returns(Ok(last), p2) => Outcome::Returns(Ok(Tree::Node(seq![pt, last])), p2),
                        Outcome::Returns(Err(e), p2) => Outcome::Returns(Err(e), p2),
                        Outcome::Panics => Outcome::Panics,
                    }
                },
                Outcome::Returns(Err(e), p1) => Outcome::Returns(Err(e), p1),
                Outcome::Panics => Outcome::Panics,
            }
        ),
{
    reveal_with_fuel(spec_name_list, 1);
}

/// Unfolds [`spec_name_pairs_items`] once.
#[verifier::spinoff_prover]
pub proof fn lemma_spec_name_pairs_items(input: Tokens, pos: nat)
    ensures
        spec_name_pairs_items(input, pos) == (
            match token::Name::spec_parse(input, pos) {
                Outcome::Returns(Ok(x), p1) => match token::Comma::spec_parse(input, p1) {
                    Outcome::Returns(Ok(s), p2) => if pos < p2 && p2 <= input.tokens.len() {
                        prepend_trees(seq![Tree::Node(seq![x, s])], spec_name_pairs_items(input, p2))
                    } else {
                        Outcome::Panics
                    },
                    Outcome::Returns(Err(_), _) => Outcome::Returns(Ok(seq![]), pos),
                    Outcome::Panics => Outcome::Panics,
                },
                Outcome::Returns(Err(_), _) => Outcome::Returns(Ok(seq![]), pos),
                Outcome::Panics => Outcome::Panics,
            }
        ),
{
    reveal_with_fuel(spec_name_pairs_items, 1);
}

/// Unfolds [`spec_name_pairs`] once.
#[verifier::spinoff_prover]
pub proof fn lemma_spec_name_pairs(input: Tokens, pos: nat)
    ensures
        spec_name_pairs(input, pos) == (
            as_node(spec_name_pairs_items(input, pos))
        ),
{
    reveal_with_fuel(spec_name_pairs, 1);
}

/// Unfolds [`spec_attr_name_list`] once.
#[verifier::spinoff_prover]
pub proof fn lemma_spec_attr_name_list(input: Tokens, pos: nat)
    ensures
        spec_attr_name_list(input, pos) == (
            match spec_attr_pairs(input, pos) {
                Outcome::Returns(Ok(pt), p1) => {
                    match spec_name_attr(input, p1) {
                        Outcome::Returns(Ok(last), p2) => Outcome::Returns(Ok(Tree::Node(seq![pt, last])), p2),
                        Outcome::Returns(Err(e), p2) => Outcome::Returns(Err(e), p2),
                        Outcome::Panics => Outcome::Panics,
                    }
                },
                Outcome::Returns(Err(e), p1) => Outcome::Returns(Err(e), p1),
                Outcome::Panics => Outcome::Panics,
            }
        ),
{
    reveal_with_fuel(spec_attr_name_list, 1);
}

/// Unfolds [`spec_attr_pairs_items`] once.
#[verifier::spinoff_prover]
pub proof fn lemma_spec_attr_pairs_items(input: Tokens, pos: nat)
    ensures
        spec_attr_pairs_items(input, pos) == (
            match spec_name_attr(input, pos) {
                Outcome::Returns(Ok(x), p1) => match token::Comma::spec_parse(input, p1) {
                    Outcome::Returns(Ok(s), p2) => if pos < p2 && p2 <= input.tokens.len() {
                        prepend_trees(seq![Tree::Node(seq![x, s])], spec_attr_pairs_items(input, p2))
                    } else {
                        Outcome::Panics
                    },
                    Outcome::Returns(Err(_), _) => Outcome::Returns(Ok(seq![]), pos),
                    Outcome::Panics => Outcome::Panics,
                },
                Outcome::Returns(Err(_), _) => Outcome::Returns(Ok(seq![]), pos),
                Outcome::Panics => Outcome::Panics,
            }
        ),
{
    reveal_with_fuel(spec_attr_pairs_items, 1);
}

/// Unfolds [`spec_attr_pairs`] once.
#[verifier::spinoff_prover]
pub proof fn lemma_spec_attr_pairs(input: Tokens, pos: nat)
    ensures
        spec_attr_pairs(input, pos) == (
            as_node(spec_attr_pairs_items(input, pos))
        ),
{
    reveal_with_fuel(spec_attr_pairs, 1);
}

/// Unfolds [`spec_name_attr`] once.
#[verifier::spinoff_prover]
pub proof fn lemma_spec_name_attr(input: Tokens, pos: nat)
    ensures
        spec_name_attr(input, pos) == (
            match token::Name::spec_parse(input, pos) {
                Outcome::Returns(Ok(a), p) => {
                    match spec_opt_attribute(input, p) {
                        Outcome::Returns(Ok(b), q) => Outcome::Returns(Ok(Tree::Node(seq![a, b])), q),
                        Outcome::Returns(Err(e), q) => Outcome::Returns(Err(e), q),
                        Outcome::Panics => Outcome::Panics,
                    }
                },
                Outcome::Returns(Err(e), p) => Outcome::Returns(Err(e), p),
                Outcome::Panics => Outcome::Panics,
            }
        ),
{
    reveal_with_fuel(spec_name_attr, 1);
}

/// Unfolds [`spec_opt_attribute`] once.
#[verifier::spinoff_prover]
pub proof fn lemma_spec_opt_attribute(input: Tokens, pos: nat)
    ensures
        spec_opt_attribute(input, pos) == (
            match spec_attribute(input, pos) {
                Outcome::Returns(Ok(x), p) => Outcome::Returns(Ok(Tree::Opt(Some(Box::new(x)))), p),
                Outcome::Returns(Err(_), _) => Outcome::Returns(Ok(Tree::Opt(None)), pos),
                Outcome::Panics => Outcome::Panics,
            }
        ),
{
    reveal_with_fuel(spec_opt_attribute, 1);
}

/// Unfolds [`spec_local_init`] once.
#[verifier::spinoff_prover]
pub proof fn lemma_spec_local_init(input: Tokens, pos: nat)
    ensures
        spec_local_init(input, pos) == (
            match spec_eq_exps(input, pos) {
                Outcome::Returns(Ok(x), p) => Outcome::Returns(Ok(Tree::Opt(Some(Box::new(x)))), p),
                Outcome::Returns(Err(_), _) => Outcome::Returns(Ok(Tree::Opt(None)), pos),
                Outcome::Panics => Outcome::Panics,
            }
        ),
{
    reveal_with_fuel(spec_local_init, 1);
}

/// Unfolds [`spec_eq_exps`] once.
#[verifier::spinoff_prover]
pub proof fn lemma_spec_eq_exps(input: Tokens, pos: nat)
    ensures
        spec_eq_exps(input, pos) == (
            match token::Equal::spec_parse(input, pos) {
                Outcome::Returns(Ok(a), p) => {
                    if pos < p && p <= input.tokens.len() {
                        match spec_exp_list(input, p) {
                        Outcome::Returns(Ok(b), q) => Outcome::Returns(Ok(Tree::Node(seq![a, b])), q),
                        Outcome::Returns(Err(e), q) => Outcome::Returns(Err(e), q),
                        Outcome::Panics => Outcome::Panics,
                    }
                    } else {
                        Outcome::Panics
                    }
                },
                Outcome::Returns(Err(e), p) => Outcome::Returns(Err(e), p),
                Outcome::Panics => Outcome::Panics,
            }
        ),
{
    reveal_with_fuel(spec_eq_exps, 1);
}

/// Unfolds [`spec_func_path`] once.
#[verifier::spinoff_prover]
pub proof fn lemma_spec_func_path(input: Tokens, pos: nat)
    ensures
        spec_func_path(input, pos) == (
            match spec_path_pairs(input, pos) {
                Outcome::Returns(Ok(pt), p1) => {
                    match token::Name::spec_parse(input, p1) {
                        Outcome::Returns(Ok(last), p2) => Outcome::Returns(Ok(Tree::Node(seq![pt, last])), p2),
                        Outcome::Returns(Err(e), p2) => Outcome::Returns(Err(e), p2),
                        Outcome::Panics => Outcome::Panics,
                    }
                },
                Outcome::Returns(Err(e), p1) => Outcome::Returns(Err(e), p1),
                Outcome::Panics => Outcome::Panics,
            }
        ),
{
    reveal_with_fuel(spec_func_path, 1);
}

/// Unfolds [`spec_path_pairs_items`] once.
#[verifier::spinoff_prover]
pub proof fn lemma_spec_path_pairs_items(input: Tokens, pos: nat)
    ensures
        spec_path_pairs_items(input, pos) == (
            match token::Name::spec_parse(input, pos) {
                Outcome::Returns(Ok(x), p1) => match token::Dot::spec_parse(input, p1) {
                    Outcome::Returns(Ok(s), p2) => if pos < p2 && p2 <= input.tokens.len() {
                        prepend_trees(seq![Tree::Node(seq![x, s])], spec_path_pairs_items(input, p2))
                    } else {
                        Outcome::Panics
                    },
                    Outcome::Returns(Err(_), _) => Outcome::Returns(Ok(seq![]), pos),
                    Outcome::Panics => Outcome::Panics,
                },
                Outcome::Returns(Err(_), _) => Outcome::Returns(Ok(seq![]), pos),
                Outcome::Panics => Outcome::Panics,
            }
        ),
{
    reveal_with_fuel(spec_path_pairs_items, 1);
}

/// Unfolds [`spec_path_pairs`] once.
#[verifier::spinoff_prover]
pub proof fn lemma_spec_path_pairs(input: Tokens, pos: nat)
    ensures
        spec_path_pairs(input, pos) == (
            as_node(spec_path_pairs_items(input, pos))
        ),
{
    reveal_with_fuel(spec_path_pairs, 1);
}

/// Unfolds [`spec_opt_step`] once.
#[verifier::spinoff_prover]
pub proof fn lemma_spec_opt_step(input: Tokens, pos: nat)
    ensures
        spec_opt_step(input, pos) == (
            match spec_comma_exp(input, pos) {
                Outcome::Returns(Ok(x), p) => Outcome::Returns(Ok(Tree::Opt(Some(Box::new(x)))), p),
                Outcome::Returns(Err(_), _) => Outcome::Returns(Ok(Tree::Opt(None)), pos),
                Outcome::Panics => Outcome::Panics,
            }
        ),
{
    reveal_with_fuel(spec_opt_step, 1);
}

/// Unfolds [`spec_comma_exp`] once.
#[verifier::spinoff_prover]
pub proof fn lemma_spec_comma_exp(input: Tokens, pos: nat)
    ensures
        spec_comma_exp(input, pos) == (
            match token::Comma::spec_parse(input, pos) {
                Outcome::Returns(Ok(a), p) => {
                    if pos < p && p <= input.tokens.len() {
                        match spec_exp(input, p) {
                        Outcome::Returns(Ok(b), q) => Outcome::Returns(Ok(Tree::Node(seq![a, b])), q),
                        Outcome::Returns(Err(e), q) => Outcome::Returns(Err(e), q),
                        Outcome::Panics => Outcome::Panics,
                    }
                    } else {
                        Outcome::Panics
                    }
                },
                Outcome::Returns(Err(e), p) => Outcome::Returns(Err(e), p),
                Outcome::Panics => Outcome::Panics,
            }
        ),
{
    reveal_with_fuel(spec_comma_exp, 1);
}

/// Unfolds [`spec_elseifs_items`] once.
#[verifier::spinoff_prover]
pub proof fn lemma_spec_elseifs_items(input: Tokens, pos: nat)
    ensures
        spec_elseifs_items(input, pos) == (
            match spec_else_if_branch(input, pos) {
                Outcome::Returns(Ok(x), p) => if pos < p && p <= input.tokens.len() {
                    prepend_trees(seq![x], spec_elseifs_items(input, p))
                } else {
                    Outcome::Panics
                },
                Outcome::Returns(Err(_), _) => Outcome::Returns(Ok(seq![]), pos),
                Outcome::Panics => Outcome::Panics,
            }
        ),
{
    reveal_with_fuel(spec_elseifs_items, 1);
}

/// Unfolds [`spec_elseifs`] once.
#[verifier::spinoff_prover]
pub proof fn lemma_spec_elseifs(input: Tokens, pos: nat)
    ensures
        spec_elseifs(input, pos) == (
            as_node(spec_elseifs_items(input, pos))
        ),
{
    reveal_with_fuel(spec_elseifs, 1);
}

/// Unfolds [`spec_opt_else`] once.
#[verifier::spinoff_prover]
pub proof fn lemma_spec_opt_else(input: Tokens, pos: nat)
    ensures
        spec_opt_else(input, pos) == (
            match spec_else_branch(input, pos) {
                Outcome::Returns(Ok(x), p) => Outcome::Returns(Ok(Tree::Opt(Some(Box::new(x)))), p),
                Outcome::Returns(Err(_), _) => Outcome::Returns(Ok(Tree::Opt(None)), pos),
                Outcome::Panics => Outcome::Panics,
            }
        ),
{
    reveal_with_fuel(spec_opt_else, 1);
}

/// Unfolds [`spec_opt_qualifier`] once.
#[verifier::spinoff_prover]
pub proof fn lemma_spec_opt_qualifier(input: Tokens, pos: nat)
    ensures
        spec_opt_qualifier(input, pos) == (
            match spec_colon_name(input, pos) {
                Outcome::Returns(Ok(x), p) => Outcome::Returns(Ok(Tree::Opt(Some(Box::new(x)))), p),
                Outcome::Returns(Err(_), _) => Outcome::Returns(Ok(Tree::Opt(None)), pos),
                Outcome::Panics => Outcome::Panics,
            }
        ),
{
    reveal_with_fuel(spec_opt_qualifier, 1);
}

/// Unfolds [`spec_colon_name`] once.
#[verifier::spinoff_prover]
pub proof fn lemma_spec_colon_name(input: Tokens, pos: nat)
    ensures
        spec_colon_name(input, pos) == (
            match token::Colon::spec_parse(input, pos) {
                Outcome::Returns(Ok(a), p) => {
                    match token::Name::spec_parse(input, p) {
                        Outcome::Returns(Ok(b), q) => Outcome::Returns(Ok(Tree::Node(seq![a, b])), q),
                        Outcome::Returns(Err(e), q) => Outcome::Returns(Err(e), q),
                        Outcome::Panics => Outcome::Panics,
                    }
                },
                Outcome::Returns(Err(e), p) => Outcome::Returns(Err(e), p),
                Outcome::Panics => Outcome::Panics,
            }
        ),
{
    reveal_with_fuel(spec_colon_name, 1);
}

/// Unfolds [`spec_opt_ellipses`] once.
#[verifier::spinoff_prover]
pub proof fn lemma_spec_opt_ellipses(input: Tokens, pos: nat)
    ensures
        spec_opt_ellipses(input, pos) == (
            match token::Ellipses::spec_parse(input, pos) {
                Outcome::Returns(Ok(x), p) => Outcome::Returns(Ok(Tree::Opt(Some(Box::new(x)))), p),
                Outcome::Returns(Err(_), _) => Outcome::Returns(Ok(Tree::Opt(None)), pos),
                Outcome::Panics => Outcome::Panics,
            }
        ),
{
    reveal_with_fuel(spec_opt_ellipses, 1);
}

/// Unfolds [`spec_suffixes_items`] once.
#[verifier::spinoff_prover]
pub proof fn lemma_spec_suffixes_items(input: Tokens, pos: nat)
    ensures
        spec_suffixes_items(input, pos) == (
            match spec_prefix_exp_suffix(input, pos) {
                Outcome::Returns(Ok(x), p) => if pos < p && p <= input.tokens.len() {
                    prepend_trees(seq![x], spec_suffixes_items(input, p))
                } else {
                    Outcome::Panics
                },
                Outcome::Returns(Err(_), _) => Outcome::Returns(Ok(seq![]), pos),
                Outcome::Panics => Outcome::Panics,
            }
        ),
{
    reveal_with_fuel(spec_suffixes_items, 1);
}

/// Unfolds [`spec_suffixes`] once.
#[verifier::spinoff_prover]
pub proof fn lemma_spec_suffixes(input: Tokens, pos: nat)
    ensures
        spec_suffixes(input, pos) == (
            as_node(spec_suffixes_items(input, pos))
        ),
{
    reveal_with_fuel(spec_suffixes, 1);
}

/// Unfolds [`spec_fields_loop`] once.
#[verifier::spinoff_prover]
pub proof fn lemma_spec_fields_loop(input: Tokens, pos: nat)
    ensures
        spec_fields_loop(input, pos) == (
            match spec_field(input, pos) {
                Outcome::Returns(Ok(x), p1) => match spec_field_sep(input, p1) {
                    Outcome::Returns(Ok(s), p2) => if pos < p2 && p2 <= input.tokens.len() {
                        prepend_pairs(seq![Tree::Node(seq![x, s])], spec_fields_loop(input, p2))
                    } else {
                        Outcome::Panics
                    },
                    Outcome::Returns(Err(_), _) => Outcome::Returns(Ok((seq![], Some(x))), p1),
                    Outcome::Panics => Outcome::Panics,
                },
                Outcome::Returns(Err(_), _) => Outcome::Returns(Ok((seq![], None)), pos),
                Outcome::Panics => Outcome::Panics,
            }
        ),
{
    reveal_with_fuel(spec_fields_loop, 1);
}

/// Unfolds [`spec_fields`] once.
#[verifier::spinoff_prover]
pub proof fn lemma_spec_fields(input: Tokens, pos: nat)
    ensures
        spec_fields(input, pos) == (
            match spec_fields_loop(input, pos) {
                Outcome::Returns(Ok((items, Some(last))), p) => Outcome::Returns(
                    Ok(Tree::Choice(0, Box::new(Tree::Node(seq![Tree::Node(items), last])))),
                    p,
                ),
                Outcome::Returns(Ok((items, None)), p) => Outcome::Returns(Ok(Tree::Choice(1, Box::new(Tree::Node(items)))), p),
                Outcome::Returns(Err(e), p) => Outcome::Returns(Err(e), p),
                Outcome::Panics => Outcome::Panics,
            }
        ),
{
    reveal_with_fuel(spec_fields, 1);
}

/// Unfolds [`spec_function_name`] once.
#[verifier::spinoff_prover]
pub proof fn lemma_spec_function_name(input: Tokens, pos: nat)
    ensures
        spec_function_name(input, pos) == (
            match spec_func_path(input, pos) {
                Outcome::Returns(Ok(path), p1) => if peek_at(input, p1 as int) is Colon {
                    match token::Colon::spec_parse(input, p1) {
                        Outcome::Returns(Ok(c), p2) => match token::Name::spec_parse(input, p2) {
                            Outcome::Returns(Ok(n), p3) => Outcome::Returns(
                                Ok(Tree::Node(seq![path, Tree::Opt(Some(Box::new(Tree::Node(seq![c, n]))))])),
                                p3,
                            ),
                            Outcome::Returns(Err(e), p3) => Outcome::Returns(Err(e), p3),
                            Outcome::Panics => Outcome::Panics,
                        },
                        Outcome::Returns(Err(e), p2) => Outcome::Returns(Err(e), p2),
                        Outcome::Panics => Outcome::Panics,
                    }
                } else {
                    Outcome::Returns(Ok(Tree::Node(seq![path, Tree::Opt(None)])), p1)
                },
                Outcome::Returns(Err(e), p1) => Outcome::Returns(Err(e), p1),
                Outcome::Panics => Outcome::Panics,
            }
        ),
{
    reveal_with_fuel(spec_function_name, 1);
}

/// Unfolds [`exp_operand`] once.
#[verifier::spinoff_prover]
pub proof fn lemma_exp_operand(input: Tokens, pos: nat)
    ensures
        exp_operand(input, pos) == (
            match spec_unary_operand_value(input, pos) {
                Outcome::Returns(Ok(u), p) => if pos < p && p <= input.tokens.len() {
                    match exp_climb(input, p, UNARY_PRECEDENCE as nat + 1) {
                        Outcome::Returns(Ok(e), q) => Outcome::Returns(
                            Ok(Tree::Choice(1, Box::new(Tree::Node(seq![tree_unary_operand(u), e])))),
                            q,
                        ),
                        other => other,
                    }
                } else {
                    Outcome::Panics
                },
                Outcome::Returns(Err(_), _) => match spec_exp_atom(input, pos) {
                    Outcome::Returns(Ok(a), p) => Outcome::Returns(Ok(Tree::Choice(0, Box::new(a))), p),
                    other => other,
                },
                Outcome::Panics => Outcome::Panics,
            }
        ),
{
    reveal_with_fuel(exp_operand, 1);
}

/// Unfolds [`exp_climb`] once.
#[verifier::spinoff_prover]
pub proof fn lemma_exp_climb(input: Tokens, pos: nat, min: nat)
    ensures
        exp_climb(input, pos, min) == (
            match exp_operand(input, pos) {
                Outcome::Returns(Ok(left), p) => if moved(input, pos, p) {
                    exp_rest(input, p, left, min)
                } else {
                    Outcome::Panics
                },
                other => other,
            }
        ),
{
    reveal_with_fuel(exp_climb, 1);
}

/// Unfolds [`exp_rest`] once.
#[verifier::spinoff_prover]
pub proof fn lemma_exp_rest(input: Tokens, pos: nat, left: Tree, min: nat)
    ensures
        exp_rest(input, pos, left, min) == (
            match spec_binary_operand_value(input, pos) {
                Outcome::Returns(Ok(b), p) => if b.spec_precedence() < min {
                    Outcome::Returns(Ok(left), pos)
                } else if pos < p && p <= input.tokens.len() {
                    let next: nat = if b.spec_left_assoc() {
                        (b.spec_precedence() + 1) as nat
                    } else {
                        b.spec_precedence() as nat
                    };
                    match exp_climb(input, p, next) {
                        Outcome::Returns(Ok(right), q) => if moved(input, p, q) {
                            exp_rest(
                                input,
                                q,
                                Tree::Choice(2, Box::new(Tree::Node(seq![left, tree_binary_operand(b), right]))),
                                min,
                            )
                        } else {
                            Outcome::Panics
                        },
                        other => other,
                    }
                } else {
                    Outcome::Panics
                },
                Outcome::Returns(Err(_), _) => Outcome::Returns(Ok(left), pos),
                Outcome::Panics => Outcome::Panics,
            }
        ),
{
    reveal_with_fuel(exp_rest, 1);
}

/// Unfolds [`spec_exp`] once.
#[verifier::spinoff_prover]
pub proof fn lemma_spec_exp(input: Tokens, pos: nat)
    ensures
        spec_exp(input, pos) == (
            exp_climb(input, pos, 0)
        ),
{
    reveal_with_fuel(spec_exp, 1);
}

} // verus!
