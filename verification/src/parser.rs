//! The parsers of the syntax elements. Each follows its counterpart in
//! [`crate::grammar`]: it returns what that gives and leaves the cursor where
//! that says.

use vstd::prelude::*;

use crate::element::{
    ArgList, Attribute, BinaryOperand, BracketField, Chunk, ElseBranch, ElseIfBranch, Exp, ExpAtom,
    ExpBinary, ExpFunction, ExpLiteral, ExpUnary, Field, FieldSep, FunctionArgs, FunctionBody,
    FunctionCall, FunctionCallBody, FunctionName, IfBranch, LastStatement, MapField, ParList,
    PrefixExp, PrefixExpKind, PrefixExpSuffix, PrefixParens, Separated, SeparatedNoTrailing,
    SeparatedTrailing, StAssign, StBlock, StBreak, StForInLoop, StForRangeLoop, StFunctionDef,
    StGoto, StIfElse, StLabel, StLocalFunctionDef, StLocalInit, StRepeatLoop, StReturn,
    StWhileLoop, Statement, TableConstructor, UnaryOperand, Var, VarAccess, VarAccessBody,
    VarIndex, VarIndexBody,
};
use crate::grammar::{
    exp_climb, exp_operand, exp_rest, spec_arg_list, spec_attr_name_list, spec_attr_pairs,
    spec_attr_pairs_items, spec_attribute, spec_binary_operand, spec_binary_operand_value,
    spec_bracket_field, spec_chunk, spec_colon_name, spec_comma_exp, spec_else_branch,
    spec_else_if_branch, spec_elseifs, spec_elseifs_items, spec_eq_exps, spec_exp, spec_exp_atom,
    spec_exp_function, spec_exp_list, spec_exp_literal, spec_exp_pairs, spec_exp_pairs_items,
    spec_field, spec_field_sep, spec_fields, spec_fields_loop, spec_func_path, spec_function_args,
    spec_function_body, spec_function_call, spec_function_call_body, spec_function_name,
    spec_if_branch, spec_last_semi, spec_last_statement, spec_local_init, spec_map_field,
    spec_name_attr, spec_name_list, spec_name_pairs, spec_name_pairs_items, spec_opt_attribute,
    spec_opt_ellipses, spec_opt_else, spec_opt_last, spec_opt_qualifier, spec_opt_semi,
    spec_opt_step, spec_par_list, spec_path_pairs, spec_path_pairs_items, spec_prefix_exp,
    spec_prefix_exp_kind, spec_prefix_exp_suffix, spec_prefix_parens, spec_st_assign,
    spec_st_block, spec_st_break, spec_st_for_in_loop, spec_st_for_range_loop,
    spec_st_function_def, spec_st_goto, spec_st_if_else, spec_st_label, spec_st_local_function_def,
    spec_st_local_init, spec_st_repeat_loop, spec_st_return, spec_st_while_loop, spec_statement,
    spec_stmt_semi, spec_stmts, spec_stmts_items, spec_suffixes, spec_suffixes_items,
    spec_table_constructor, spec_unary_operand, spec_unary_operand_value, spec_var,
    spec_var_access, spec_var_access_body, spec_var_index, spec_var_index_body, spec_var_list,
    spec_var_pairs, spec_var_pairs_items, tree_arg_list, tree_attr_name_list, tree_attr_pairs,
    tree_attribute, tree_binary_operand, tree_bracket_field, tree_chunk, tree_colon_name,
    tree_comma_exp, tree_else_branch, tree_else_if_branch, tree_elseifs, tree_eq_exps, tree_exp,
    tree_exp_atom, tree_exp_function, tree_exp_list, tree_exp_literal, tree_exp_pairs, tree_field,
    tree_field_sep, tree_fields, tree_func_path, tree_function_args, tree_function_body,
    tree_function_call, tree_function_call_body, tree_function_name, tree_if_branch,
    tree_last_semi, tree_last_statement, tree_local_init, tree_map_field, tree_name_attr,
    tree_name_list, tree_name_pairs, tree_opt_attribute, tree_opt_ellipses, tree_opt_else,
    tree_opt_last, tree_opt_qualifier, tree_opt_semi, tree_opt_step, tree_par_list,
    tree_path_pairs, tree_prefix_exp, tree_prefix_exp_kind, tree_prefix_exp_suffix,
    tree_prefix_parens, tree_st_assign, tree_st_block, tree_st_break, tree_st_for_in_loop,
    tree_st_for_range_loop, tree_st_function_def, tree_st_goto, tree_st_if_else, tree_st_label,
    tree_st_local_function_def, tree_st_local_init, tree_st_repeat_loop, tree_st_return,
    tree_st_while_loop, tree_statement, tree_stmt_semi, tree_stmts, tree_suffixes,
    tree_table_constructor, tree_unary_operand, tree_var, tree_var_access, tree_var_access_body,
    tree_var_index, tree_var_index_body, tree_var_list, tree_var_pairs, trees_attr_pairs,
    trees_elseifs, trees_exp_pairs, trees_field_pairs, trees_name_pairs, trees_path_pairs,
    trees_stmts, trees_suffixes, trees_var_pairs, UNARY_PRECEDENCE,
};
use crate::parse::{
    Parseable, ParsingError, advanced, agrees, lemma_prepend_pairs_empty, lemma_prepend_pairs_push,
    lemma_prepend_trees_empty, lemma_prepend_trees_push, moved, prepend_pairs, prepend_trees, rem,
    Outcome, Tree,
};
use crate::token;
use crate::token::Token;
use crate::tokenize::{TokenStream, Tokens};
use crate::unfold::{
    lemma_exp_climb, lemma_exp_operand, lemma_exp_rest, lemma_spec_arg_list,
    lemma_spec_attr_name_list, lemma_spec_attr_pairs, lemma_spec_attr_pairs_items,
    lemma_spec_attribute, lemma_spec_bracket_field, lemma_spec_chunk, lemma_spec_colon_name,
    lemma_spec_comma_exp, lemma_spec_else_branch, lemma_spec_else_if_branch, lemma_spec_elseifs,
    lemma_spec_elseifs_items, lemma_spec_eq_exps, lemma_spec_exp, lemma_spec_exp_atom,
    lemma_spec_exp_function, lemma_spec_exp_list, lemma_spec_exp_literal, lemma_spec_exp_pairs,
    lemma_spec_exp_pairs_items, lemma_spec_field, lemma_spec_field_sep, lemma_spec_fields,
    lemma_spec_fields_loop, lemma_spec_func_path, lemma_spec_function_args,
    lemma_spec_function_body, lemma_spec_function_call, lemma_spec_function_call_body,
    lemma_spec_function_name, lemma_spec_if_branch, lemma_spec_last_semi,
    lemma_spec_last_statement, lemma_spec_local_init, lemma_spec_map_field, lemma_spec_name_attr,
    lemma_spec_name_list, lemma_spec_name_pairs, lemma_spec_name_pairs_items,
    lemma_spec_opt_attribute, lemma_spec_opt_ellipses, lemma_spec_opt_else, lemma_spec_opt_last,
    lemma_spec_opt_qualifier, lemma_spec_opt_semi, lemma_spec_opt_step, lemma_spec_par_list,
    lemma_spec_path_pairs, lemma_spec_path_pairs_items, lemma_spec_prefix_exp,
    lemma_spec_prefix_exp_kind, lemma_spec_prefix_exp_suffix, lemma_spec_prefix_parens,
    lemma_spec_st_assign, lemma_spec_st_block, lemma_spec_st_break, lemma_spec_st_for_in_loop,
    lemma_spec_st_for_range_loop, lemma_spec_st_function_def, lemma_spec_st_goto,
    lemma_spec_st_if_else, lemma_spec_st_label, lemma_spec_st_local_function_def,
    lemma_spec_st_local_init, lemma_spec_st_repeat_loop, lemma_spec_st_return,
    lemma_spec_st_while_loop, lemma_spec_statement, lemma_spec_stmt_semi, lemma_spec_stmts,
    lemma_spec_stmts_items, lemma_spec_suffixes, lemma_spec_suffixes_items,
    lemma_spec_table_constructor, lemma_spec_var, lemma_spec_var_access,
    lemma_spec_var_access_body, lemma_spec_var_index, lemma_spec_var_index_body,
    lemma_spec_var_list, lemma_spec_var_pairs, lemma_spec_var_pairs_items, lemma_tree_arg_list,
    lemma_tree_attr_name_list, lemma_tree_attr_pairs, lemma_tree_attribute,
    lemma_tree_bracket_field, lemma_tree_chunk, lemma_tree_colon_name, lemma_tree_comma_exp,
    lemma_tree_else_branch, lemma_tree_else_if_branch, lemma_tree_elseifs, lemma_tree_eq_exps,
    lemma_tree_exp, lemma_tree_exp_atom, lemma_tree_exp_function, lemma_tree_exp_list,
    lemma_tree_exp_literal, lemma_tree_exp_pairs, lemma_tree_field, lemma_tree_field_pairs,
    lemma_tree_field_sep, lemma_tree_fields, lemma_tree_func_path, lemma_tree_function_args,
    lemma_tree_function_body, lemma_tree_function_call, lemma_tree_function_call_body,
    lemma_tree_function_name, lemma_tree_if_branch, lemma_tree_last_semi,
    lemma_tree_last_statement, lemma_tree_local_init, lemma_tree_map_field, lemma_tree_name_attr,
    lemma_tree_name_list, lemma_tree_name_pairs, lemma_tree_opt_attribute, lemma_tree_opt_ellipses,
    lemma_tree_opt_else, lemma_tree_opt_last, lemma_tree_opt_qualifier, lemma_tree_opt_semi,
    lemma_tree_opt_step, lemma_tree_par_list, lemma_tree_path_pairs, lemma_tree_prefix_exp,
    lemma_tree_prefix_exp_kind, lemma_tree_prefix_exp_suffix, lemma_tree_prefix_parens,
    lemma_tree_st_assign, lemma_tree_st_block, lemma_tree_st_break, lemma_tree_st_for_in_loop,
    lemma_tree_st_for_range_loop, lemma_tree_st_function_def, lemma_tree_st_goto,
    lemma_tree_st_if_else, lemma_tree_st_label, lemma_tree_st_local_function_def,
    lemma_tree_st_local_init, lemma_tree_st_repeat_loop, lemma_tree_st_return,
    lemma_tree_st_while_loop, lemma_tree_statement, lemma_tree_stmt_semi, lemma_tree_stmts,
    lemma_tree_suffixes, lemma_tree_table_constructor, lemma_tree_var, lemma_tree_var_access,
    lemma_tree_var_access_body, lemma_tree_var_index, lemma_tree_var_index_body,
    lemma_tree_var_list, lemma_tree_var_pairs, lemma_trees_attr_pairs, lemma_trees_elseifs,
    lemma_trees_exp_pairs, lemma_trees_field_pairs, lemma_trees_name_pairs, lemma_trees_path_pairs,
    lemma_trees_stmts, lemma_trees_suffixes, lemma_trees_var_pairs,
};

verus! {

/// Parses a `Chunk`: its fields in order, or none of them.
#[verifier::spinoff_prover]
pub(crate) fn parse_chunk(t: &mut TokenStream) -> (r: Result<Chunk, ParsingError>)
    requires
        old(t)@.wf(),
        !(spec_chunk(old(t)@.input(), old(t)@.index) is Panics),
    ensures
        advanced(old(t)@, final(t)@),
        agrees(spec_chunk(old(t)@.input(), old(t)@.index), r, final(t)@.index, |v: Chunk| tree_chunk(v)),
    decreases rem(old(t)@.input(), old(t)@.index), 13nat,
{
    proof {
        lemma_spec_chunk(t@.input(), t@.index);
    }
    let start = t.mark();
    let x0 = match parse_stmts(t) {
        Ok(v) => v,
        Err(e) => {
            t.reset(start);
            return Err(e);
        },
    };
    let x1 = match parse_opt_last(t) {
        Ok(v) => v,
        Err(e) => {
            t.reset(start);
            return Err(e);
        },
    };
    let res = Chunk { statements: x0, last_statement: x1 };
    proof {
        lemma_tree_chunk(res);
    }
    Ok(res)
}

/// Parses a `StAssign`: its fields in order, or none of them.
#[verifier::spinoff_prover]
pub(crate) fn parse_st_assign(t: &mut TokenStream) -> (r: Result<StAssign, ParsingError>)
    requires
        old(t)@.wf(),
        !(spec_st_assign(old(t)@.input(), old(t)@.index) is Panics),
    ensures
        advanced(old(t)@, final(t)@),
        agrees(spec_st_assign(old(t)@.input(), old(t)@.index), r, final(t)@.index, |v: StAssign| tree_st_assign(v)),
    decreases rem(old(t)@.input(), old(t)@.index), 8nat,
{
    proof {
        lemma_spec_st_assign(t@.input(), t@.index);
    }
    let start = t.mark();
    let x0 = match parse_var_list(t) {
        Ok(v) => v,
        Err(e) => {
            t.reset(start);
            return Err(e);
        },
    };
    let x1 = match <token::Equal as Parseable>::parse(t) {
        Ok(v) => v,
        Err(e) => {
            t.reset(start);
            return Err(e);
        },
    };
    let x2 = match parse_exp_list(t) {
        Ok(v) => v,
        Err(e) => {
            t.reset(start);
            return Err(e);
        },
    };
    let res = StAssign { vars: x0, eq: x1, exps: x2 };
    proof {
        lemma_tree_st_assign(res);
    }
    Ok(res)
}

/// Parses a `StBlock`: its fields in order, or none of them.
#[verifier::spinoff_prover]
pub(crate) fn parse_st_block(t: &mut TokenStream) -> (r: Result<StBlock, ParsingError>)
    requires
        old(t)@.wf(),
        !(spec_st_block(old(t)@.input(), old(t)@.index) is Panics),
    ensures
        advanced(old(t)@, final(t)@),
        agrees(spec_st_block(old(t)@.input(), old(t)@.index), r, final(t)@.index, |v: StBlock| tree_st_block(v)),
    decreases rem(old(t)@.input(), old(t)@.index), 0nat,
{
    proof {
        lemma_spec_st_block(t@.input(), t@.index);
    }
    let start = t.mark();
    let x0 = match <token::Do as Parseable>::parse(t) {
        Ok(v) => v,
        Err(e) => {
            t.reset(start);
            return Err(e);
        },
    };
    let x1 = match parse_chunk(t) {
        Ok(v) => v,
        Err(e) => {
            t.reset(start);
            return Err(e);
        },
    };
    let x2 = match <token::End as Parseable>::parse(t) {
        Ok(v) => v,
        Err(e) => {
            t.reset(start);
            return Err(e);
        },
    };
    let res = StBlock { kw_do: x0, body: x1, kw_end: x2 };
    proof {
        lemma_tree_st_block(res);
    }
    Ok(res)
}

/// Parses an `Attribute`: its fields in order, or none of them.
#[verifier::spinoff_prover]
pub(crate) fn parse_attribute(t: &mut TokenStream) -> (r: Result<Attribute, ParsingError>)
    requires
        old(t)@.wf(),
        !(spec_attribute(old(t)@.input(), old(t)@.index) is Panics),
    ensures
        advanced(old(t)@, final(t)@),
        agrees(spec_attribute(old(t)@.input(), old(t)@.index), r, final(t)@.index, |v: Attribute| tree_attribute(v)),
{
    proof {
        lemma_spec_attribute(t@.input(), t@.index);
    }
    let start = t.mark();
    let x0 = match <token::Less as Parseable>::parse(t) {
        Ok(v) => v,
        Err(e) => {
            t.reset(start);
            return Err(e);
        },
    };
    let x1 = match <token::Name as Parseable>::parse(t) {
        Ok(v) => v,
        Err(e) => {
            t.reset(start);
            return Err(e);
        },
    };
    let x2 = match <token::Greater as Parseable>::parse(t) {
        Ok(v) => v,
        Err(e) => {
            t.reset(start);
            return Err(e);
        },
    };
    let res = Attribute { open_angle: x0, name: x1, close_angle: x2 };
    proof {
        lemma_tree_attribute(res);
    }
    Ok(res)
}

/// Parses a `StWhileLoop`: its fields in order, or none of them.
#[verifier::spinoff_prover]
pub(crate) fn parse_st_while_loop(t: &mut TokenStream) -> (r: Result<StWhileLoop, ParsingError>)
    requires
        old(t)@.wf(),
        !(spec_st_while_loop(old(t)@.input(), old(t)@.index) is Panics),
    ensures
        advanced(old(t)@, final(t)@),
        agrees(spec_st_while_loop(old(t)@.input(), old(t)@.index), r, final(t)@.index, |v: StWhileLoop| tree_st_while_loop(v)),
    decreases rem(old(t)@.input(), old(t)@.index), 0nat,
{
    proof {
        lemma_spec_st_while_loop(t@.input(), t@.index);
    }
    let start = t.mark();
    let x0 = match <token::While as Parseable>::parse(t) {
        Ok(v) => v,
        Err(e) => {
            t.reset(start);
            return Err(e);
        },
    };
    let x1 = match parse_exp(t) {
        Ok(v) => v,
        Err(e) => {
            t.reset(start);
            return Err(e);
        },
    };
    let x2 = match <token::Do as Parseable>::parse(t) {
        Ok(v) => v,
        Err(e) => {
            t.reset(start);
            return Err(e);
        },
    };
    let x3 = match parse_chunk(t) {
        Ok(v) => v,
        Err(e) => {
            t.reset(start);
            return Err(e);
        },
    };
    let x4 = match <token::End as Parseable>::parse(t) {
        Ok(v) => v,
        Err(e) => {
            t.reset(start);
            return Err(e);
        },
    };
    let res = StWhileLoop { kw_while: x0, exp: x1, kw_do: x2, body: x3, kw_end: x4 };
    proof {
        lemma_tree_st_while_loop(res);
    }
    Ok(res)
}

/// Parses a `StRepeatLoop`: its fields in order, or none of them.
#[verifier::spinoff_prover]
pub(crate) fn parse_st_repeat_loop(t: &mut TokenStream) -> (r: Result<StRepeatLoop, ParsingError>)
    requires
        old(t)@.wf(),
        !(spec_st_repeat_loop(old(t)@.input(), old(t)@.index) is Panics),
    ensures
        advanced(old(t)@, final(t)@),
        agrees(spec_st_repeat_loop(old(t)@.input(), old(t)@.index), r, final(t)@.index, |v: StRepeatLoop| tree_st_repeat_loop(v)),
    decreases rem(old(t)@.input(), old(t)@.index), 0nat,
{
    proof {
        lemma_spec_st_repeat_loop(t@.input(), t@.index);
    }
    let start = t.mark();
    let x0 = match <token::Repeat as Parseable>::parse(t) {
        Ok(v) => v,
        Err(e) => {
            t.reset(start);
            return Err(e);
        },
    };
    let x1 = match parse_chunk(t) {
        Ok(v) => v,
        Err(e) => {
            t.reset(start);
            return Err(e);
        },
    };
    let x2 = match <token::Until as Parseable>::parse(t) {
        Ok(v) => v,
        Err(e) => {
            t.reset(start);
            return Err(e);
        },
    };
    let x3 = match parse_exp(t) {
        Ok(v) => v,
        Err(e) => {
            t.reset(start);
            return Err(e);
        },
    };
    let res = StRepeatLoop { kw_repeat: x0, body: x1, kw_until: x2, exp: x3 };
    proof {
        lemma_tree_st_repeat_loop(res);
    }
    Ok(res)
}

/// Parses a `StForRangeLoop`: its fields in order, or none of them.
#[verifier::spinoff_prover]
pub(crate) fn parse_st_for_range_loop(t: &mut TokenStream) -> (r: Result<StForRangeLoop, ParsingError>)
    requires
        old(t)@.wf(),
        !(spec_st_for_range_loop(old(t)@.input(), old(t)@.index) is Panics),
    ensures
        advanced(old(t)@, final(t)@),
        agrees(spec_st_for_range_loop(old(t)@.input(), old(t)@.index), r, final(t)@.index, |v: StForRangeLoop| tree_st_for_range_loop(v)),
    decreases rem(old(t)@.input(), old(t)@.index), 0nat,
{
    proof {
        lemma_spec_st_for_range_loop(t@.input(), t@.index);
    }
    let start = t.mark();
    let x0 = match <token::For as Parseable>::parse(t) {
        Ok(v) => v,
        Err(e) => {
            t.reset(start);
            return Err(e);
        },
    };
    let x1 = match <token::Name as Parseable>::parse(t) {
        Ok(v) => v,
        Err(e) => {
            t.reset(start);
            return Err(e);
        },
    };
    let x2 = match <token::Equal as Parseable>::parse(t) {
        Ok(v) => v,
        Err(e) => {
            t.reset(start);
            return Err(e);
        },
    };
    let x3 = match parse_exp(t) {
        Ok(v) => v,
        Err(e) => {
            t.reset(start);
            return Err(e);
        },
    };
    let x4 = match <token::Comma as Parseable>::parse(t) {
        Ok(v) => v,
        Err(e) => {
            t.reset(start);
            return Err(e);
        },
    };
    let x5 = match parse_exp(t) {
        Ok(v) => v,
        Err(e) => {
            t.reset(start);
            return Err(e);
        },
    };
    let x6 = match parse_opt_step(t) {
        Ok(v) => v,
        Err(e) => {
            t.reset(start);
            return Err(e);
        },
    };
    let x7 = match <token::Do as Parseable>::parse(t) {
        Ok(v) => v,
        Err(e) => {
            t.reset(start);
            return Err(e);
        },
    };
    let x8 = match parse_chunk(t) {
        Ok(v) => v,
        Err(e) => {
            t.reset(start);
            return Err(e);
        },
    };
    let x9 = match <token::End as Parseable>::parse(t) {
        Ok(v) => v,
        Err(e) => {
            t.reset(start);
            return Err(e);
        },
    };
    let res = StForRangeLoop { kw_for: x0, name: x1, eq: x2, start: x3, comma: x4, stop: x5, step: x6, kw_do: x7, body: x8, kw_end: x9 };
    proof {
        lemma_tree_st_for_range_loop(res);
    }
    Ok(res)
}

/// Parses a `StForInLoop`: its fields in order, or none of them.
#[verifier::spinoff_prover]
pub(crate) fn parse_st_for_in_loop(t: &mut TokenStream) -> (r: Result<StForInLoop, ParsingError>)
    requires
        old(t)@.wf(),
        !(spec_st_for_in_loop(old(t)@.input(), old(t)@.index) is Panics),
    ensures
        advanced(old(t)@, final(t)@),
        agrees(spec_st_for_in_loop(old(t)@.input(), old(t)@.index), r, final(t)@.index, |v: StForInLoop| tree_st_for_in_loop(v)),
    decreases rem(old(t)@.input(), old(t)@.index), 0nat,
{
    proof {
        lemma_spec_st_for_in_loop(t@.input(), t@.index);
    }
    let start = t.mark();
    let x0 = match <token::For as Parseable>::parse(t) {
        Ok(v) => v,
        Err(e) => {
            t.reset(start);
            return Err(e);
        },
    };
    let x1 = match parse_name_list(t) {
        Ok(v) => v,
        Err(e) => {
            t.reset(start);
            return Err(e);
        },
    };
    let x2 = match <token::In as Parseable>::parse(t) {
        Ok(v) => v,
        Err(e) => {
            t.reset(start);
            return Err(e);
        },
    };
    let x3 = match parse_exp_list(t) {
        Ok(v) => v,
        Err(e) => {
            t.reset(start);
            return Err(e);
        },
    };
    let x4 = match <token::Do as Parseable>::parse(t) {
        Ok(v) => v,
        Err(e) => {
            t.reset(start);
            return Err(e);
        },
    };
    let x5 = match parse_chunk(t) {
        Ok(v) => v,
        Err(e) => {
            t.reset(start);
            return Err(e);
        },
    };
    let x6 = match <token::End as Parseable>::parse(t) {
        Ok(v) => v,
        Err(e) => {
            t.reset(start);
            return Err(e);
        },
    };
    let res = StForInLoop { kw_for: x0, namelist: x1, kw_in: x2, explist: x3, kw_do: x4, body: x5, kw_end: x6 };
    proof {
        lemma_tree_st_for_in_loop(res);
    }
    Ok(res)
}

/// Parses a `StIfElse`: its fields in order, or none of them.
#[verifier::spinoff_prover]
pub(crate) fn parse_st_if_else(t: &mut TokenStream) -> (r: Result<StIfElse, ParsingError>)
    requires
        old(t)@.wf(),
        !(spec_st_if_else(old(t)@.input(), old(t)@.index) is Panics),
    ensures
        advanced(old(t)@, final(t)@),
        agrees(spec_st_if_else(old(t)@.input(), old(t)@.index), r, final(t)@.index, |v: StIfElse| tree_st_if_else(v)),
    decreases rem(old(t)@.input(), old(t)@.index), 1nat,
{
    proof {
        lemma_spec_st_if_else(t@.input(), t@.index);
    }
    let start = t.mark();
    let x0 = match parse_if_branch(t) {
        Ok(v) => v,
        Err(e) => {
            t.reset(start);
            return Err(e);
        },
    };
    let x1 = match parse_elseifs(t) {
        Ok(v) => v,
        Err(e) => {
            t.reset(start);
            return Err(e);
        },
    };
    let x2 = match parse_opt_else(t) {
        Ok(v) => v,
        Err(e) => {
            t.reset(start);
            return Err(e);
        },
    };
    let res = StIfElse { if_branch: x0, elseif_branches: x1, else_branch: x2 };
    proof {
        lemma_tree_st_if_else(res);
    }
    Ok(res)
}

/// Parses an `IfBranch`: its fields in order, or none of them.
#[verifier::spinoff_prover]
pub(crate) fn parse_if_branch(t: &mut TokenStream) -> (r: Result<IfBranch, ParsingError>)
    requires
        old(t)@.wf(),
        !(spec_if_branch(old(t)@.input(), old(t)@.index) is Panics),
    ensures
        advanced(old(t)@, final(t)@),
        agrees(spec_if_branch(old(t)@.input(), old(t)@.index), r, final(t)@.index, |v: IfBranch| tree_if_branch(v)),
    decreases rem(old(t)@.input(), old(t)@.index), 0nat,
{
    proof {
        lemma_spec_if_branch(t@.input(), t@.index);
    }
    let start = t.mark();
    let x0 = match <token::If as Parseable>::parse(t) {
        Ok(v) => v,
        Err(e) => {
            t.reset(start);
            return Err(e);
        },
    };
    let x1 = match parse_exp(t) {
        Ok(v) => v,
        Err(e) => {
            t.reset(start);
            return Err(e);
        },
    };
    let x2 = match <token::Then as Parseable>::parse(t) {
        Ok(v) => v,
        Err(e) => {
            t.reset(start);
            return Err(e);
        },
    };
    let x3 = match parse_chunk(t) {
        Ok(v) => v,
        Err(e) => {
            t.reset(start);
            return Err(e);
        },
    };
    let res = IfBranch { kw_if: x0, condition: x1, kw_then: x2, body: x3 };
    proof {
        lemma_tree_if_branch(res);
    }
    Ok(res)
}

/// Parses an `ElseIfBranch`: its fields in order, or none of them.
#[verifier::spinoff_prover]
pub(crate) fn parse_else_if_branch(t: &mut TokenStream) -> (r: Result<ElseIfBranch, ParsingError>)
    requires
        old(t)@.wf(),
        !(spec_else_if_branch(old(t)@.input(), old(t)@.index) is Panics),
    ensures
        advanced(old(t)@, final(t)@),
        agrees(spec_else_if_branch(old(t)@.input(), old(t)@.index), r, final(t)@.index, |v: ElseIfBranch| tree_else_if_branch(v)),
    decreases rem(old(t)@.input(), old(t)@.index), 0nat,
{
    proof {
        lemma_spec_else_if_branch(t@.input(), t@.index);
    }
    let start = t.mark();
    let x0 = match <token::ElseIf as Parseable>::parse(t) {
        Ok(v) => v,
        Err(e) => {
            t.reset(start);
            return Err(e);
        },
    };
    let x1 = match parse_exp(t) {
        Ok(v) => v,
        Err(e) => {
            t.reset(start);
            return Err(e);
        },
    };
    let x2 = match <token::Then as Parseable>::parse(t) {
        Ok(v) => v,
        Err(e) => {
            t.reset(start);
            return Err(e);
        },
    };
    let x3 = match parse_chunk(t) {
        Ok(v) => v,
        Err(e) => {
            t.reset(start);
            return Err(e);
        },
    };
    let res = ElseIfBranch { kw_elseif: x0, condition: x1, kw_then: x2, body: x3 };
    proof {
        lemma_tree_else_if_branch(res);
    }
    Ok(res)
}

/// Parses an `ElseBranch`: its fields in order, or none of them.
#[verifier::spinoff_prover]
pub(crate) fn parse_else_branch(t: &mut TokenStream) -> (r: Result<ElseBranch, ParsingError>)
    requires
        old(t)@.wf(),
        !(spec_else_branch(old(t)@.input(), old(t)@.index) is Panics),
    ensures
        advanced(old(t)@, final(t)@),
        agrees(spec_else_branch(old(t)@.input(), old(t)@.index), r, final(t)@.index, |v: ElseBranch| tree_else_branch(v)),
    decreases rem(old(t)@.input(), old(t)@.index), 0nat,
{
    proof {
        lemma_spec_else_branch(t@.input(), t@.index);
    }
    let start = t.mark();
    let x0 = match <token::Else as Parseable>::parse(t) {
        Ok(v) => v,
        Err(e) => {
            t.reset(start);
            return Err(e);
        },
    };
    let x1 = match parse_chunk(t) {
        Ok(v) => v,
        Err(e) => {
            t.reset(start);
            return Err(e);
        },
    };
    let res = ElseBranch { kw_else: x0, body: x1 };
    proof {
        lemma_tree_else_branch(res);
    }
    Ok(res)
}

/// Parses a `FunctionCall`: its fields in order, or none of them.
#[verifier::spinoff_prover]
pub(crate) fn parse_function_call(t: &mut TokenStream) -> (r: Result<FunctionCall, ParsingError>)
    requires
        old(t)@.wf(),
        !(spec_function_call(old(t)@.input(), old(t)@.index) is Panics),
    ensures
        advanced(old(t)@, final(t)@),
        agrees(spec_function_call(old(t)@.input(), old(t)@.index), r, final(t)@.index, |v: FunctionCall| tree_function_call(v)),
    decreases rem(old(t)@.input(), old(t)@.index), 3nat,
{
    proof {
        lemma_spec_function_call(t@.input(), t@.index);
    }
    let start = t.mark();
    let x0 = match parse_prefix_exp(t) {
        Ok(v) => v,
        Err(e) => {
            t.reset(start);
            return Err(e);
        },
    };
    let x1 = match parse_function_call_body(t) {
        Ok(v) => v,
        Err(e) => {
            t.reset(start);
            return Err(e);
        },
    };
    let res = FunctionCall { prefix: Box::new(x0), body: x1 };
    proof {
        lemma_tree_function_call(res);
    }
    Ok(res)
}

/// Parses a `FunctionCallBody`: its fields in order, or none of them.
#[verifier::spinoff_prover]
pub(crate) fn parse_function_call_body(t: &mut TokenStream) -> (r: Result<FunctionCallBody, ParsingError>)
    requires
        old(t)@.wf(),
        !(spec_function_call_body(old(t)@.input(), old(t)@.index) is Panics),
    ensures
        advanced(old(t)@, final(t)@),
        agrees(spec_function_call_body(old(t)@.input(), old(t)@.index), r, final(t)@.index, |v: FunctionCallBody| tree_function_call_body(v)),
    decreases rem(old(t)@.input(), old(t)@.index), 2nat,
{
    proof {
        lemma_spec_function_call_body(t@.input(), t@.index);
    }
    let start = t.mark();
    let x0 = match parse_opt_qualifier(t) {
        Ok(v) => v,
        Err(e) => {
            t.reset(start);
            return Err(e);
        },
    };
    let x1 = match parse_function_args(t) {
        Ok(v) => v,
        Err(e) => {
            t.reset(start);
            return Err(e);
        },
    };
    let res = FunctionCallBody { qualifier: x0, args: x1 };
    proof {
        lemma_tree_function_call_body(res);
    }
    Ok(res)
}

/// Parses an `ArgList`: its fields in order, or none of them.
#[verifier::spinoff_prover]
pub(crate) fn parse_arg_list(t: &mut TokenStream) -> (r: Result<ArgList, ParsingError>)
    requires
        old(t)@.wf(),
        !(spec_arg_list(old(t)@.input(), old(t)@.index) is Panics),
    ensures
        advanced(old(t)@, final(t)@),
        agrees(spec_arg_list(old(t)@.input(), old(t)@.index), r, final(t)@.index, |v: ArgList| tree_arg_list(v)),
    decreases rem(old(t)@.input(), old(t)@.index), 0nat,
{
    proof {
        lemma_spec_arg_list(t@.input(), t@.index);
    }
    let start = t.mark();
    let x0 = match <token::OpenParen as Parseable>::parse(t) {
        Ok(v) => v,
        Err(e) => {
            t.reset(start);
            return Err(e);
        },
    };
    let x1 = match parse_exp_list(t) {
        Ok(v) => v,
        Err(e) => {
            t.reset(start);
            return Err(e);
        },
    };
    let x2 = match <token::CloseParen as Parseable>::parse(t) {
        Ok(v) => v,
        Err(e) => {
            t.reset(start);
            return Err(e);
        },
    };
    let res = ArgList { open_paren: x0, arguments: x1, close_paren: x2 };
    proof {
        lemma_tree_arg_list(res);
    }
    Ok(res)
}

/// Parses a `StFunctionDef`: its fields in order, or none of them.
#[verifier::spinoff_prover]
pub(crate) fn parse_st_function_def(t: &mut TokenStream) -> (r: Result<StFunctionDef, ParsingError>)
    requires
        old(t)@.wf(),
        !(spec_st_function_def(old(t)@.input(), old(t)@.index) is Panics),
    ensures
        advanced(old(t)@, final(t)@),
        agrees(spec_st_function_def(old(t)@.input(), old(t)@.index), r, final(t)@.index, |v: StFunctionDef| tree_st_function_def(v)),
    decreases rem(old(t)@.input(), old(t)@.index), 0nat,
{
    proof {
        lemma_spec_st_function_def(t@.input(), t@.index);
    }
    let start = t.mark();
    let x0 = match <token::Function as Parseable>::parse(t) {
        Ok(v) => v,
        Err(e) => {
            t.reset(start);
            return Err(e);
        },
    };
    let x1 = match parse_function_name(t) {
        Ok(v) => v,
        Err(e) => {
            t.reset(start);
            return Err(e);
        },
    };
    let x2 = match parse_function_body(t) {
        Ok(v) => v,
        Err(e) => {
            t.reset(start);
            return Err(e);
        },
    };
    let res = StFunctionDef { kw_function: x0, name: x1, body: x2 };
    proof {
        lemma_tree_st_function_def(res);
    }
    Ok(res)
}

/// Parses a `StLocalFunctionDef`: its fields in order, or none of them.
#[verifier::spinoff_prover]
pub(crate) fn parse_st_local_function_def(t: &mut TokenStream) -> (r: Result<StLocalFunctionDef, ParsingError>)
    requires
        old(t)@.wf(),
        !(spec_st_local_function_def(old(t)@.input(), old(t)@.index) is Panics),
    ensures
        advanced(old(t)@, final(t)@),
        agrees(spec_st_local_function_def(old(t)@.input(), old(t)@.index), r, final(t)@.index, |v: StLocalFunctionDef| tree_st_local_function_def(v)),
    decreases rem(old(t)@.input(), old(t)@.index), 0nat,
{
    proof {
        lemma_spec_st_local_function_def(t@.input(), t@.index);
    }
    let start = t.mark();
    let x0 = match <token::Local as Parseable>::parse(t) {
        Ok(v) => v,
        Err(e) => {
            t.reset(start);
            return Err(e);
        },
    };
    let x1 = match <token::Function as Parseable>::parse(t) {
        Ok(v) => v,
        Err(e) => {
            t.reset(start);
            return Err(e);
        },
    };
    let x2 = match <token::Name as Parseable>::parse(t) {
        Ok(v) => v,
        Err(e) => {
            t.reset(start);
            return Err(e);
        },
    };
    let x3 = match parse_function_body(t) {
        Ok(v) => v,
        Err(e) => {
            t.reset(start);
            return Err(e);
        },
    };
    let res = StLocalFunctionDef { local: x0, function: x1, name: x2, body: x3 };
    proof {
        lemma_tree_st_local_function_def(res);
    }
    Ok(res)
}

/// Parses a `StLocalInit`: its fields in order, or none of them.
#[verifier::spinoff_prover]
pub(crate) fn parse_st_local_init(t: &mut TokenStream) -> (r: Result<StLocalInit, ParsingError>)
    requires
        old(t)@.wf(),
        !(spec_st_local_init(old(t)@.input(), old(t)@.index) is Panics),
    ensures
        advanced(old(t)@, final(t)@),
        agrees(spec_st_local_init(old(t)@.input(), old(t)@.index), r, final(t)@.index, |v: StLocalInit| tree_st_local_init(v)),
    decreases rem(old(t)@.input(), old(t)@.index), 0nat,
{
    proof {
        lemma_spec_st_local_init(t@.input(), t@.index);
    }
    let start = t.mark();
    let x0 = match <token::Local as Parseable>::parse(t) {
        Ok(v) => v,
        Err(e) => {
            t.reset(start);
            return Err(e);
        },
    };
    let x1 = match parse_attr_name_list(t) {
        Ok(v) => v,
        Err(e) => {
            t.reset(start);
            return Err(e);
        },
    };
    let x2 = match parse_local_init(t) {
        Ok(v) => v,
        Err(e) => {
            t.reset(start);
            return Err(e);
        },
    };
    let res = StLocalInit { kw_local: x0, attrnames: x1, init: x2 };
    proof {
        lemma_tree_st_local_init(res);
    }
    Ok(res)
}

/// Parses a `StGoto`: its fields in order, or none of them.
#[verifier::spinoff_prover]
pub(crate) fn parse_st_goto(t: &mut TokenStream) -> (r: Result<StGoto, ParsingError>)
    requires
        old(t)@.wf(),
        !(spec_st_goto(old(t)@.input(), old(t)@.index) is Panics),
    ensures
        advanced(old(t)@, final(t)@),
        agrees(spec_st_goto(old(t)@.input(), old(t)@.index), r, final(t)@.index, |v: StGoto| tree_st_goto(v)),
{
    proof {
        lemma_spec_st_goto(t@.input(), t@.index);
    }
    let start = t.mark();
    let x0 = match <token::Goto as Parseable>::parse(t) {
        Ok(v) => v,
        Err(e) => {
            t.reset(start);
            return Err(e);
        },
    };
    let x1 = match <token::Name as Parseable>::parse(t) {
        Ok(v) => v,
        Err(e) => {
            t.reset(start);
            return Err(e);
        },
    };
    let res = StGoto { kw_goto: x0, label: x1 };
    proof {
        lemma_tree_st_goto(res);
    }
    Ok(res)
}

/// Parses a `StLabel`: its fields in order, or none of them.
#[verifier::spinoff_prover]
pub(crate) fn parse_st_label(t: &mut TokenStream) -> (r: Result<StLabel, ParsingError>)
    requires
        old(t)@.wf(),
        !(spec_st_label(old(t)@.input(), old(t)@.index) is Panics),
    ensures
        advanced(old(t)@, final(t)@),
        agrees(spec_st_label(old(t)@.input(), old(t)@.index), r, final(t)@.index, |v: StLabel| tree_st_label(v)),
{
    proof {
        lemma_spec_st_label(t@.input(), t@.index);
    }
    let start = t.mark();
    let x0 = match <token::DoubleColon as Parseable>::parse(t) {
        Ok(v) => v,
        Err(e) => {
            t.reset(start);
            return Err(e);
        },
    };
    let x1 = match <token::Name as Parseable>::parse(t) {
        Ok(v) => v,
        Err(e) => {
            t.reset(start);
            return Err(e);
        },
    };
    let x2 = match <token::DoubleColon as Parseable>::parse(t) {
        Ok(v) => v,
        Err(e) => {
            t.reset(start);
            return Err(e);
        },
    };
    let res = StLabel { start_dcolon: x0, name: x1, end_dcolon: x2 };
    proof {
        lemma_tree_st_label(res);
    }
    Ok(res)
}

/// Parses a `StReturn`: its fields in order, or none of them.
#[verifier::spinoff_prover]
pub(crate) fn parse_st_return(t: &mut TokenStream) -> (r: Result<StReturn, ParsingError>)
    requires
        old(t)@.wf(),
        !(spec_st_return(old(t)@.input(), old(t)@.index) is Panics),
    ensures
        advanced(old(t)@, final(t)@),
        agrees(spec_st_return(old(t)@.input(), old(t)@.index), r, final(t)@.index, |v: StReturn| tree_st_return(v)),
    decreases rem(old(t)@.input(), old(t)@.index), 0nat,
{
    proof {
        lemma_spec_st_return(t@.input(), t@.index);
    }
    let start = t.mark();
    let x0 = match <token::Return as Parseable>::parse(t) {
        Ok(v) => v,
        Err(e) => {
            t.reset(start);
            return Err(e);
        },
    };
    let x1 = match parse_exp_list(t) {
        Ok(v) => v,
        Err(e) => {
            t.reset(start);
            return Err(e);
        },
    };
    let res = StReturn { kw_return: x0, value: x1 };
    proof {
        lemma_tree_st_return(res);
    }
    Ok(res)
}

/// Parses a `StBreak`: its fields in order, or none of them.
#[verifier::spinoff_prover]
pub(crate) fn parse_st_break(t: &mut TokenStream) -> (r: Result<StBreak, ParsingError>)
    requires
        old(t)@.wf(),
        !(spec_st_break(old(t)@.input(), old(t)@.index) is Panics),
    ensures
        advanced(old(t)@, final(t)@),
        agrees(spec_st_break(old(t)@.input(), old(t)@.index), r, final(t)@.index, |v: StBreak| tree_st_break(v)),
{
    proof {
        lemma_spec_st_break(t@.input(), t@.index);
    }
    let start = t.mark();
    let x0 = match <token::Break as Parseable>::parse(t) {
        Ok(v) => v,
        Err(e) => {
            t.reset(start);
            return Err(e);
        },
    };
    let res = StBreak { kw_break: x0 };
    proof {
        lemma_tree_st_break(res);
    }
    Ok(res)
}

/// Parses a `FunctionBody`: its fields in order, or none of them.
#[verifier::spinoff_prover]
pub(crate) fn parse_function_body(t: &mut TokenStream) -> (r: Result<FunctionBody, ParsingError>)
    requires
        old(t)@.wf(),
        !(spec_function_body(old(t)@.input(), old(t)@.index) is Panics),
    ensures
        advanced(old(t)@, final(t)@),
        agrees(spec_function_body(old(t)@.input(), old(t)@.index), r, final(t)@.index, |v: FunctionBody| tree_function_body(v)),
    decreases rem(old(t)@.input(), old(t)@.index), 0nat,
{
    proof {
        lemma_spec_function_body(t@.input(), t@.index);
    }
    let start = t.mark();
    let x0 = match <token::OpenParen as Parseable>::parse(t) {
        Ok(v) => v,
        Err(e) => {
            t.reset(start);
            return Err(e);
        },
    };
    let x1 = match parse_par_list(t) {
        Ok(v) => v,
        Err(e) => {
            t.reset(start);
            return Err(e);
        },
    };
    let x2 = match <token::CloseParen as Parseable>::parse(t) {
        Ok(v) => v,
        Err(e) => {
            t.reset(start);
            return Err(e);
        },
    };
    let x3 = match parse_chunk(t) {
        Ok(v) => v,
        Err(e) => {
            t.reset(start);
            return Err(e);
        },
    };
    let x4 = match <token::End as Parseable>::parse(t) {
        Ok(v) => v,
        Err(e) => {
            t.reset(start);
            return Err(e);
        },
    };
    let res = FunctionBody { open_paren: x0, parlist: x1, close_paren: x2, block: x3, kw_end: x4 };
    proof {
        lemma_tree_function_body(res);
    }
    Ok(res)
}

/// Parses a `ParList`: its fields in order, or none of them.
#[verifier::spinoff_prover]
pub(crate) fn parse_par_list(t: &mut TokenStream) -> (r: Result<ParList, ParsingError>)
    requires
        old(t)@.wf(),
        !(spec_par_list(old(t)@.input(), old(t)@.index) is Panics),
    ensures
        advanced(old(t)@, final(t)@),
        agrees(spec_par_list(old(t)@.input(), old(t)@.index), r, final(t)@.index, |v: ParList| tree_par_list(v)),
{
    proof {
        lemma_spec_par_list(t@.input(), t@.index);
    }
    let start = t.mark();
    let x0 = match parse_name_list(t) {
        Ok(v) => v,
        Err(e) => {
            t.reset(start);
            return Err(e);
        },
    };
    let x1 = match parse_opt_ellipses(t) {
        Ok(v) => v,
        Err(e) => {
            t.reset(start);
            return Err(e);
        },
    };
    let res = ParList { names: x0, ellipses: x1 };
    proof {
        lemma_tree_par_list(res);
    }
    Ok(res)
}

/// Parses a `VarIndex`: its fields in order, or none of them.
#[verifier::spinoff_prover]
pub(crate) fn parse_var_index(t: &mut TokenStream) -> (r: Result<VarIndex, ParsingError>)
    requires
        old(t)@.wf(),
        !(spec_var_index(old(t)@.input(), old(t)@.index) is Panics),
    ensures
        advanced(old(t)@, final(t)@),
        agrees(spec_var_index(old(t)@.input(), old(t)@.index), r, final(t)@.index, |v: VarIndex| tree_var_index(v)),
    decreases rem(old(t)@.input(), old(t)@.index), 3nat,
{
    proof {
        lemma_spec_var_index(t@.input(), t@.index);
    }
    let start = t.mark();
    let x0 = match parse_prefix_exp(t) {
        Ok(v) => v,
        Err(e) => {
            t.reset(start);
            return Err(e);
        },
    };
    let x1 = match parse_var_index_body(t) {
        Ok(v) => v,
        Err(e) => {
            t.reset(start);
            return Err(e);
        },
    };
    let res = VarIndex { prefix: Box::new(x0), body: x1 };
    proof {
        lemma_tree_var_index(res);
    }
    Ok(res)
}

/// Parses a `VarIndexBody`: its fields in order, or none of them.
#[verifier::spinoff_prover]
pub(crate) fn parse_var_index_body(t: &mut TokenStream) -> (r: Result<VarIndexBody, ParsingError>)
    requires
        old(t)@.wf(),
        !(spec_var_index_body(old(t)@.input(), old(t)@.index) is Panics),
    ensures
        advanced(old(t)@, final(t)@),
        agrees(spec_var_index_body(old(t)@.input(), old(t)@.index), r, final(t)@.index, |v: VarIndexBody| tree_var_index_body(v)),
    decreases rem(old(t)@.input(), old(t)@.index), 0nat,
{
    proof {
        lemma_spec_var_index_body(t@.input(), t@.index);
    }
    let start = t.mark();
    let x0 = match <token::OpenBracket as Parseable>::parse(t) {
        Ok(v) => v,
        Err(e) => {
            t.reset(start);
            return Err(e);
        },
    };
    let x1 = match parse_exp(t) {
        Ok(v) => v,
        Err(e) => {
            t.reset(start);
            return Err(e);
        },
    };
    let x2 = match <token::CloseBracket as Parseable>::parse(t) {
        Ok(v) => v,
        Err(e) => {
            t.reset(start);
            return Err(e);
        },
    };
    let res = VarIndexBody { open_bracket: x0, index: x1, close_bracket: x2 };
    proof {
        lemma_tree_var_index_body(res);
    }
    Ok(res)
}

/// Parses a `VarAccess`: its fields in order, or none of them.
#[verifier::spinoff_prover]
pub(crate) fn parse_var_access(t: &mut TokenStream) -> (r: Result<VarAccess, ParsingError>)
    requires
        old(t)@.wf(),
        !(spec_var_access(old(t)@.input(), old(t)@.index) is Panics),
    ensures
        advanced(old(t)@, final(t)@),
        agrees(spec_var_access(old(t)@.input(), old(t)@.index), r, final(t)@.index, |v: VarAccess| tree_var_access(v)),
    decreases rem(old(t)@.input(), old(t)@.index), 3nat,
{
    proof {
        lemma_spec_var_access(t@.input(), t@.index);
    }
    let start = t.mark();
    let x0 = match parse_prefix_exp(t) {
        Ok(v) => v,
        Err(e) => {
            t.reset(start);
            return Err(e);
        },
    };
    let x1 = match parse_var_access_body(t) {
        Ok(v) => v,
        Err(e) => {
            t.reset(start);
            return Err(e);
        },
    };
    let res = VarAccess { prefix: Box::new(x0), body: x1 };
    proof {
        lemma_tree_var_access(res);
    }
    Ok(res)
}

/// Parses a `VarAccessBody`: its fields in order, or none of them.
#[verifier::spinoff_prover]
pub(crate) fn parse_var_access_body(t: &mut TokenStream) -> (r: Result<VarAccessBody, ParsingError>)
    requires
        old(t)@.wf(),
        !(spec_var_access_body(old(t)@.input(), old(t)@.index) is Panics),
    ensures
        advanced(old(t)@, final(t)@),
        agrees(spec_var_access_body(old(t)@.input(), old(t)@.index), r, final(t)@.index, |v: VarAccessBody| tree_var_access_body(v)),
{
    proof {
        lemma_spec_var_access_body(t@.input(), t@.index);
    }
    let start = t.mark();
    let x0 = match <token::Dot as Parseable>::parse(t) {
        Ok(v) => v,
        Err(e) => {
            t.reset(start);
            return Err(e);
        },
    };
    let x1 = match <token::Name as Parseable>::parse(t) {
        Ok(v) => v,
        Err(e) => {
            t.reset(start);
            return Err(e);
        },
    };
    let res = VarAccessBody { dot: x0, name: x1 };
    proof {
        lemma_tree_var_access_body(res);
    }
    Ok(res)
}

/// Parses a `PrefixExp`: its fields in order, or none of them.
#[verifier::spinoff_prover]
pub(crate) fn parse_prefix_exp(t: &mut TokenStream) -> (r: Result<PrefixExp, ParsingError>)
    requires
        old(t)@.wf(),
        !(spec_prefix_exp(old(t)@.input(), old(t)@.index) is Panics),
    ensures
        advanced(old(t)@, final(t)@),
        agrees(spec_prefix_exp(old(t)@.input(), old(t)@.index), r, final(t)@.index, |v: PrefixExp| tree_prefix_exp(v)),
    decreases rem(old(t)@.input(), old(t)@.index), 2nat,
{
    proof {
        lemma_spec_prefix_exp(t@.input(), t@.index);
    }
    let start = t.mark();
    let x0 = match parse_prefix_exp_kind(t) {
        Ok(v) => v,
        Err(e) => {
            t.reset(start);
            return Err(e);
        },
    };
    let x1 = match parse_suffixes(t) {
        Ok(v) => v,
        Err(e) => {
            t.reset(start);
            return Err(e);
        },
    };
    let res = PrefixExp { kind: x0, calls: x1 };
    proof {
        lemma_tree_prefix_exp(res);
    }
    Ok(res)
}

/// Parses a `PrefixParens`: its fields in order, or none of them.
#[verifier::spinoff_prover]
pub(crate) fn parse_prefix_parens(t: &mut TokenStream) -> (r: Result<PrefixParens, ParsingError>)
    requires
        old(t)@.wf(),
        !(spec_prefix_parens(old(t)@.input(), old(t)@.index) is Panics),
    ensures
        advanced(old(t)@, final(t)@),
        agrees(spec_prefix_parens(old(t)@.input(), old(t)@.index), r, final(t)@.index, |v: PrefixParens| tree_prefix_parens(v)),
    decreases rem(old(t)@.input(), old(t)@.index), 0nat,
{
    proof {
        lemma_spec_prefix_parens(t@.input(), t@.index);
    }
    let start = t.mark();
    let x0 = match <token::OpenParen as Parseable>::parse(t) {
        Ok(v) => v,
        Err(e) => {
            t.reset(start);
            return Err(e);
        },
    };
    let x1 = match parse_exp(t) {
        Ok(v) => v,
        Err(e) => {
            t.reset(start);
            return Err(e);
        },
    };
    let x2 = match <token::CloseParen as Parseable>::parse(t) {
        Ok(v) => v,
        Err(e) => {
            t.reset(start);
            return Err(e);
        },
    };
    let res = PrefixParens { open_paren: x0, inner: x1, close_paren: x2 };
    proof {
        lemma_tree_prefix_parens(res);
    }
    Ok(res)
}

/// Parses an `ExpFunction`: its fields in order, or none of them.
#[verifier::spinoff_prover]
pub(crate) fn parse_exp_function(t: &mut TokenStream) -> (r: Result<ExpFunction, ParsingError>)
    requires
        old(t)@.wf(),
        !(spec_exp_function(old(t)@.input(), old(t)@.index) is Panics),
    ensures
        advanced(old(t)@, final(t)@),
        agrees(spec_exp_function(old(t)@.input(), old(t)@.index), r, final(t)@.index, |v: ExpFunction| tree_exp_function(v)),
    decreases rem(old(t)@.input(), old(t)@.index), 0nat,
{
    proof {
        lemma_spec_exp_function(t@.input(), t@.index);
    }
    let start = t.mark();
    let x0 = match <token::Function as Parseable>::parse(t) {
        Ok(v) => v,
        Err(e) => {
            t.reset(start);
            return Err(e);
        },
    };
    let x1 = match parse_function_body(t) {
        Ok(v) => v,
        Err(e) => {
            t.reset(start);
            return Err(e);
        },
    };
    let res = ExpFunction { kw_function: x0, body: Box::new(x1) };
    proof {
        lemma_tree_exp_function(res);
    }
    Ok(res)
}

/// Parses a `TableConstructor`: its fields in order, or none of them.
#[verifier::spinoff_prover]
pub(crate) fn parse_table_constructor(t: &mut TokenStream) -> (r: Result<TableConstructor, ParsingError>)
    requires
        old(t)@.wf(),
        !(spec_table_constructor(old(t)@.input(), old(t)@.index) is Panics),
    ensures
        advanced(old(t)@, final(t)@),
        agrees(spec_table_constructor(old(t)@.input(), old(t)@.index), r, final(t)@.index, |v: TableConstructor| tree_table_constructor(v)),
    decreases rem(old(t)@.input(), old(t)@.index), 0nat,
{
    proof {
        lemma_spec_table_constructor(t@.input(), t@.index);
    }
    let start = t.mark();
    let x0 = match <token::OpenBrace as Parseable>::parse(t) {
        Ok(v) => v,
        Err(e) => {
            t.reset(start);
            return Err(e);
        },
    };
    let x1 = match parse_fields(t) {
        Ok(v) => v,
        Err(e) => {
            t.reset(start);
            return Err(e);
        },
    };
    let x2 = match <token::CloseBrace as Parseable>::parse(t) {
        Ok(v) => v,
        Err(e) => {
            t.reset(start);
            return Err(e);
        },
    };
    let res = TableConstructor { open_brace: x0, fields: x1, close_brace: x2 };
    proof {
        lemma_tree_table_constructor(res);
    }
    Ok(res)
}

/// Parses a `MapField`: its fields in order, or none of them.
#[verifier::spinoff_prover]
pub(crate) fn parse_map_field(t: &mut TokenStream) -> (r: Result<MapField, ParsingError>)
    requires
        old(t)@.wf(),
        !(spec_map_field(old(t)@.input(), old(t)@.index) is Panics),
    ensures
        advanced(old(t)@, final(t)@),
        agrees(spec_map_field(old(t)@.input(), old(t)@.index), r, final(t)@.index, |v: MapField| tree_map_field(v)),
    decreases rem(old(t)@.input(), old(t)@.index), 0nat,
{
    proof {
        lemma_spec_map_field(t@.input(), t@.index);
    }
    let start = t.mark();
    let x0 = match <token::Name as Parseable>::parse(t) {
        Ok(v) => v,
        Err(e) => {
            t.reset(start);
            return Err(e);
        },
    };
    let x1 = match <token::Equal as Parseable>::parse(t) {
        Ok(v) => v,
        Err(e) => {
            t.reset(start);
            return Err(e);
        },
    };
    let x2 = match parse_exp(t) {
        Ok(v) => v,
        Err(e) => {
            t.reset(start);
            return Err(e);
        },
    };
    let res = MapField { name: x0, eq: x1, exp: x2 };
    proof {
        lemma_tree_map_field(res);
    }
    Ok(res)
}

/// Parses a `BracketField`: its fields in order, or none of them.
#[verifier::spinoff_prover]
pub(crate) fn parse_bracket_field(t: &mut TokenStream) -> (r: Result<BracketField, ParsingError>)
    requires
        old(t)@.wf(),
        !(spec_bracket_field(old(t)@.input(), old(t)@.index) is Panics),
    ensures
        advanced(old(t)@, final(t)@),
        agrees(spec_bracket_field(old(t)@.input(), old(t)@.index), r, final(t)@.index, |v: BracketField| tree_bracket_field(v)),
    decreases rem(old(t)@.input(), old(t)@.index), 0nat,
{
    proof {
        lemma_spec_bracket_field(t@.input(), t@.index);
    }
    let start = t.mark();
    let x0 = match <token::OpenBracket as Parseable>::parse(t) {
        Ok(v) => v,
        Err(e) => {
            t.reset(start);
            return Err(e);
        },
    };
    let x1 = match parse_exp(t) {
        Ok(v) => v,
        Err(e) => {
            t.reset(start);
            return Err(e);
        },
    };
    let x2 = match <token::CloseBracket as Parseable>::parse(t) {
        Ok(v) => v,
        Err(e) => {
            t.reset(start);
            return Err(e);
        },
    };
    let x3 = match <token::Equal as Parseable>::parse(t) {
        Ok(v) => v,
        Err(e) => {
            t.reset(start);
            return Err(e);
        },
    };
    let x4 = match parse_exp(t) {
        Ok(v) => v,
        Err(e) => {
            t.reset(start);
            return Err(e);
        },
    };
    let res = BracketField { open_bracket: x0, key: x1, close_bracket: x2, eq: x3, value: x4 };
    proof {
        lemma_tree_bracket_field(res);
    }
    Ok(res)
}

/// Parses a `Statement`: the first of its variants that parses.
#[verifier::spinoff_prover]
pub(crate) fn parse_statement(t: &mut TokenStream) -> (r: Result<Statement, ParsingError>)
    requires
        old(t)@.wf(),
        !(spec_statement(old(t)@.input(), old(t)@.index) is Panics),
    ensures
        advanced(old(t)@, final(t)@),
        agrees(spec_statement(old(t)@.input(), old(t)@.index), r, final(t)@.index, |v: Statement| tree_statement(v)),
    decreases rem(old(t)@.input(), old(t)@.index), 9nat,
{
    proof {
        lemma_spec_statement(t@.input(), t@.index);
    }
    let start = t.mark();
    match parse_st_assign(t) {
        Ok(v) => {
            let res = Statement::Assign(v);
            proof {
                lemma_tree_statement(res);
            }
            return Ok(res);
        },
        Err(_) => {
            t.reset(start);
        },
    }
    match parse_function_call(t) {
        Ok(v) => {
            let res = Statement::FunctionCall(v);
            proof {
                lemma_tree_statement(res);
            }
            return Ok(res);
        },
        Err(_) => {
            t.reset(start);
        },
    }
    match parse_st_block(t) {
        Ok(v) => {
            let res = Statement::Block(v);
            proof {
                lemma_tree_statement(res);
            }
            return Ok(res);
        },
        Err(_) => {
            t.reset(start);
        },
    }
    match parse_st_while_loop(t) {
        Ok(v) => {
            let res = Statement::WhileLoop(v);
            proof {
                lemma_tree_statement(res);
            }
            return Ok(res);
        },
        Err(_) => {
            t.reset(start);
        },
    }
    match parse_st_repeat_loop(t) {
        Ok(v) => {
            let res = Statement::RepeatLoop(v);
            proof {
                lemma_tree_statement(res);
            }
            return Ok(res);
        },
        Err(_) => {
            t.reset(start);
        },
    }
    match parse_st_if_else(t) {
        Ok(v) => {
            let res = Statement::IfElse(v);
            proof {
                lemma_tree_statement(res);
            }
            return Ok(res);
        },
        Err(_) => {
            t.reset(start);
        },
    }
    match parse_st_for_range_loop(t) {
        Ok(v) => {
            let res = Statement::ForRangeLoop(v);
            proof {
                lemma_tree_statement(res);
            }
            return Ok(res);
        },
        Err(_) => {
            t.reset(start);
        },
    }
    match parse_st_for_in_loop(t) {
        Ok(v) => {
            let res = Statement::ForInLoop(v);
            proof {
                lemma_tree_statement(res);
            }
            return Ok(res);
        },
        Err(_) => {
            t.reset(start);
        },
    }
    match parse_st_function_def(t) {
        Ok(v) => {
            let res = Statement::FunctionDef(v);
            proof {
                lemma_tree_statement(res);
            }
            return Ok(res);
        },
        Err(_) => {
            t.reset(start);
        },
    }
    match parse_st_local_function_def(t) {
        Ok(v) => {
            let res = Statement::LocalFunctionDef(v);
            proof {
                lemma_tree_statement(res);
            }
            return Ok(res);
        },
        Err(_) => {
            t.reset(start);
        },
    }
    match parse_st_local_init(t) {
        Ok(v) => {
            let res = Statement::LocalInit(v);
            proof {
                lemma_tree_statement(res);
            }
            return Ok(res);
        },
        Err(_) => {
            t.reset(start);
        },
    }
    match parse_st_goto(t) {
        Ok(v) => {
            let res = Statement::Goto(v);
            proof {
                lemma_tree_statement(res);
            }
            return Ok(res);
        },
        Err(_) => {
            t.reset(start);
        },
    }
    match parse_st_label(t) {
        Ok(v) => {
            let res = Statement::Label(v);
            proof {
                lemma_tree_statement(res);
            }
            return Ok(res);
        },
        Err(_) => {
            t.reset(start);
        },
    }
    match parse_st_break(t) {
        Ok(v) => {
            let res = Statement::Break(v);
            proof {
                lemma_tree_statement(res);
            }
            return Ok(res);
        },
        Err(_) => {
            t.reset(start);
        },
    }
    Err(ParsingError::new(t.char_index(), "expected Statement"))
}

/// Parses a `FunctionArgs`: the first of its variants that parses.
#[verifier::spinoff_prover]
pub(crate) fn parse_function_args(t: &mut TokenStream) -> (r: Result<FunctionArgs, ParsingError>)
    requires
        old(t)@.wf(),
        !(spec_function_args(old(t)@.input(), old(t)@.index) is Panics),
    ensures
        advanced(old(t)@, final(t)@),
        agrees(spec_function_args(old(t)@.input(), old(t)@.index), r, final(t)@.index, |v: FunctionArgs| tree_function_args(v)),
    decreases rem(old(t)@.input(), old(t)@.index), 1nat,
{
    proof {
        lemma_spec_function_args(t@.input(), t@.index);
    }
    let start = t.mark();
    match parse_arg_list(t) {
        Ok(v) => {
            let res = FunctionArgs::List(v);
            proof {
                lemma_tree_function_args(res);
            }
            return Ok(res);
        },
        Err(_) => {
            t.reset(start);
        },
    }
    match parse_table_constructor(t) {
        Ok(v) => {
            let res = FunctionArgs::Table(v);
            proof {
                lemma_tree_function_args(res);
            }
            return Ok(res);
        },
        Err(_) => {
            t.reset(start);
        },
    }
    match <token::LiteralString as Parseable>::parse(t) {
        Ok(v) => {
            let res = FunctionArgs::String(v);
            proof {
                lemma_tree_function_args(res);
            }
            return Ok(res);
        },
        Err(_) => {
            t.reset(start);
        },
    }
    Err(ParsingError::new(t.char_index(), "expected FunctionArgs"))
}

/// Parses a `LastStatement`: the first of its variants that parses.
#[verifier::spinoff_prover]
pub(crate) fn parse_last_statement(t: &mut TokenStream) -> (r: Result<LastStatement, ParsingError>)
    requires
        old(t)@.wf(),
        !(spec_last_statement(old(t)@.input(), old(t)@.index) is Panics),
    ensures
        advanced(old(t)@, final(t)@),
        agrees(spec_last_statement(old(t)@.input(), old(t)@.index), r, final(t)@.index, |v: LastStatement| tree_last_statement(v)),
    decreases rem(old(t)@.input(), old(t)@.index), 1nat,
{
    proof {
        lemma_spec_last_statement(t@.input(), t@.index);
    }
    let start = t.mark();
    match parse_st_return(t) {
        Ok(v) => {
            let res = LastStatement::Return(v);
            proof {
                lemma_tree_last_statement(res);
            }
            return Ok(res);
        },
        Err(_) => {
            t.reset(start);
        },
    }
    Err(ParsingError::new(t.char_index(), "expected LastStatement"))
}

/// Parses a `Var`: the first of its variants that parses.
#[verifier::spinoff_prover]
pub(crate) fn parse_var(t: &mut TokenStream) -> (r: Result<Var, ParsingError>)
    requires
        old(t)@.wf(),
        !(spec_var(old(t)@.input(), old(t)@.index) is Panics),
    ensures
        advanced(old(t)@, final(t)@),
        agrees(spec_var(old(t)@.input(), old(t)@.index), r, final(t)@.index, |v: Var| tree_var(v)),
    decreases rem(old(t)@.input(), old(t)@.index), 4nat,
{
    proof {
        lemma_spec_var(t@.input(), t@.index);
    }
    let start = t.mark();
    match <token::Name as Parseable>::parse(t) {
        Ok(v) => {
            let res = Var::Name(v);
            proof {
                lemma_tree_var(res);
            }
            return Ok(res);
        },
        Err(_) => {
            t.reset(start);
        },
    }
    match parse_var_index(t) {
        Ok(v) => {
            let res = Var::Index(v);
            proof {
                lemma_tree_var(res);
            }
            return Ok(res);
        },
        Err(_) => {
            t.reset(start);
        },
    }
    match parse_var_access(t) {
        Ok(v) => {
            let res = Var::Access(v);
            proof {
                lemma_tree_var(res);
            }
            return Ok(res);
        },
        Err(_) => {
            t.reset(start);
        },
    }
    Err(ParsingError::new(t.char_index(), "expected Var"))
}

/// Parses a `PrefixExpKind`: the first of its variants that parses.
#[verifier::spinoff_prover]
pub(crate) fn parse_prefix_exp_kind(t: &mut TokenStream) -> (r: Result<PrefixExpKind, ParsingError>)
    requires
        old(t)@.wf(),
        !(spec_prefix_exp_kind(old(t)@.input(), old(t)@.index) is Panics),
    ensures
        advanced(old(t)@, final(t)@),
        agrees(spec_prefix_exp_kind(old(t)@.input(), old(t)@.index), r, final(t)@.index, |v: PrefixExpKind| tree_prefix_exp_kind(v)),
    decreases rem(old(t)@.input(), old(t)@.index), 1nat,
{
    proof {
        lemma_spec_prefix_exp_kind(t@.input(), t@.index);
    }
    let start = t.mark();
    match <token::Name as Parseable>::parse(t) {
        Ok(v) => {
            let res = PrefixExpKind::Name(v);
            proof {
                lemma_tree_prefix_exp_kind(res);
            }
            return Ok(res);
        },
        Err(_) => {
            t.reset(start);
        },
    }
    match parse_prefix_parens(t) {
        Ok(v) => {
            let res = PrefixExpKind::Parens(v);
            proof {
                lemma_tree_prefix_exp_kind(res);
            }
            return Ok(res);
        },
        Err(_) => {
            t.reset(start);
        },
    }
    Err(ParsingError::new(t.char_index(), "expected PrefixExpKind"))
}

/// Parses a `PrefixExpSuffix`: the first of its variants that parses.
#[verifier::spinoff_prover]
pub(crate) fn parse_prefix_exp_suffix(t: &mut TokenStream) -> (r: Result<PrefixExpSuffix, ParsingError>)
    requires
        old(t)@.wf(),
        !(spec_prefix_exp_suffix(old(t)@.input(), old(t)@.index) is Panics),
    ensures
        advanced(old(t)@, final(t)@),
        agrees(spec_prefix_exp_suffix(old(t)@.input(), old(t)@.index), r, final(t)@.index, |v: PrefixExpSuffix| tree_prefix_exp_suffix(v)),
    decreases rem(old(t)@.input(), old(t)@.index), 3nat,
{
    proof {
        lemma_spec_prefix_exp_suffix(t@.input(), t@.index);
    }
    let start = t.mark();
    match parse_function_call_body(t) {
        Ok(v) => {
            let res = PrefixExpSuffix::FunctionCall(v);
            proof {
                lemma_tree_prefix_exp_suffix(res);
            }
            return Ok(res);
        },
        Err(_) => {
            t.reset(start);
        },
    }
    match parse_var_index_body(t) {
        Ok(v) => {
            let res = PrefixExpSuffix::Index(v);
            proof {
                lemma_tree_prefix_exp_suffix(res);
            }
            return Ok(res);
        },
        Err(_) => {
            t.reset(start);
        },
    }
    match parse_var_access_body(t) {
        Ok(v) => {
            let res = PrefixExpSuffix::Access(v);
            proof {
                lemma_tree_prefix_exp_suffix(res);
            }
            return Ok(res);
        },
        Err(_) => {
            t.reset(start);
        },
    }
    Err(ParsingError::new(t.char_index(), "expected PrefixExpSuffix"))
}

/// Parses an `ExpAtom`: the first of its variants that parses.
#[verifier::spinoff_prover]
pub(crate) fn parse_exp_atom(t: &mut TokenStream) -> (r: Result<ExpAtom, ParsingError>)
    requires
        old(t)@.wf(),
        !(spec_exp_atom(old(t)@.input(), old(t)@.index) is Panics),
    ensures
        advanced(old(t)@, final(t)@),
        agrees(spec_exp_atom(old(t)@.input(), old(t)@.index), r, final(t)@.index, |v: ExpAtom| tree_exp_atom(v)),
    decreases rem(old(t)@.input(), old(t)@.index), 3nat,
{
    proof {
        lemma_spec_exp_atom(t@.input(), t@.index);
    }
    let start = t.mark();
    match <token::Nil as Parseable>::parse(t) {
        Ok(v) => {
            let res = ExpAtom::Nil(v);
            proof {
                lemma_tree_exp_atom(res);
            }
            return Ok(res);
        },
        Err(_) => {
            t.reset(start);
        },
    }
    match <token::True as Parseable>::parse(t) {
        Ok(v) => {
            let res = ExpAtom::True(v);
            proof {
                lemma_tree_exp_atom(res);
            }
            return Ok(res);
        },
        Err(_) => {
            t.reset(start);
        },
    }
    match <token::False as Parseable>::parse(t) {
        Ok(v) => {
            let res = ExpAtom::False(v);
            proof {
                lemma_tree_exp_atom(res);
            }
            return Ok(res);
        },
        Err(_) => {
            t.reset(start);
        },
    }
    match parse_exp_literal(t) {
        Ok(v) => {
            let res = ExpAtom::Literal(v);
            proof {
                lemma_tree_exp_atom(res);
            }
            return Ok(res);
        },
        Err(_) => {
            t.reset(start);
        },
    }
    match <token::Ellipses as Parseable>::parse(t) {
        Ok(v) => {
            let res = ExpAtom::Ellipses(v);
            proof {
                lemma_tree_exp_atom(res);
            }
            return Ok(res);
        },
        Err(_) => {
            t.reset(start);
        },
    }
    match parse_exp_function(t) {
        Ok(v) => {
            let res = ExpAtom::Function(v);
            proof {
                lemma_tree_exp_atom(res);
            }
            return Ok(res);
        },
        Err(_) => {
            t.reset(start);
        },
    }
    match parse_prefix_exp(t) {
        Ok(v) => {
            let res = ExpAtom::Prefix(Box::new(v));
            proof {
                lemma_tree_exp_atom(res);
            }
            return Ok(res);
        },
        Err(_) => {
            t.reset(start);
        },
    }
    match parse_table_constructor(t) {
        Ok(v) => {
            let res = ExpAtom::Table(Box::new(v));
            proof {
                lemma_tree_exp_atom(res);
            }
            return Ok(res);
        },
        Err(_) => {
            t.reset(start);
        },
    }
    Err(ParsingError::new(t.char_index(), "expected ExpAtom"))
}

/// Parses a `BinaryOperand` from the next token.
pub(crate) fn parse_binary_operand(t: &mut TokenStream) -> (r: Result<BinaryOperand, ParsingError>)
    requires
        old(t)@.wf(),
    ensures
        advanced(old(t)@, final(t)@),
        spec_binary_operand_value(old(t)@.input(), old(t)@.index) == Outcome::Returns(r, final(t)@.index),
{
    let tok = t.peek(0);
    match tok {
        Token::Plus(x) => {
            t.skip(1);
            Ok(BinaryOperand::Plus(x))
        },
        Token::Minus(x) => {
            t.skip(1);
            Ok(BinaryOperand::Minus(x))
        },
        Token::Asterisk(x) => {
            t.skip(1);
            Ok(BinaryOperand::Asterisk(x))
        },
        Token::Slash(x) => {
            t.skip(1);
            Ok(BinaryOperand::Slash(x))
        },
        Token::Carat(x) => {
            t.skip(1);
            Ok(BinaryOperand::Carat(x))
        },
        Token::Percent(x) => {
            t.skip(1);
            Ok(BinaryOperand::Percent(x))
        },
        Token::DoubleDot(x) => {
            t.skip(1);
            Ok(BinaryOperand::DoubleDot(x))
        },
        Token::Less(x) => {
            t.skip(1);
            Ok(BinaryOperand::Less(x))
        },
        Token::LessEqual(x) => {
            t.skip(1);
            Ok(BinaryOperand::LessEqual(x))
        },
        Token::Greater(x) => {
            t.skip(1);
            Ok(BinaryOperand::Greater(x))
        },
        Token::GreaterEqual(x) => {
            t.skip(1);
            Ok(BinaryOperand::GreaterEqual(x))
        },
        Token::DoubleEqual(x) => {
            t.skip(1);
            Ok(BinaryOperand::DoubleEqual(x))
        },
        Token::TildeEqual(x) => {
            t.skip(1);
            Ok(BinaryOperand::TildeEqual(x))
        },
        Token::And(x) => {
            t.skip(1);
            Ok(BinaryOperand::And(x))
        },
        Token::Or(x) => {
            t.skip(1);
            Ok(BinaryOperand::Or(x))
        },
        Token::DoubleSlash(x) => {
            t.skip(1);
            Ok(BinaryOperand::DoubleSlash(x))
        },
        Token::Pipe(x) => {
            t.skip(1);
            Ok(BinaryOperand::Pipe(x))
        },
        Token::Tilde(x) => {
            t.skip(1);
            Ok(BinaryOperand::Tilde(x))
        },
        Token::Ampersand(x) => {
            t.skip(1);
            Ok(BinaryOperand::Ampersand(x))
        },
        Token::DoubleLess(x) => {
            t.skip(1);
            Ok(BinaryOperand::DoubleLess(x))
        },
        Token::DoubleGreater(x) => {
            t.skip(1);
            Ok(BinaryOperand::DoubleGreater(x))
        },
        _ => Err(ParsingError::new(tok.span().start, "expected BinaryOperand")),
    }
}

/// Parses an `UnaryOperand` from the next token.
pub(crate) fn parse_unary_operand(t: &mut TokenStream) -> (r: Result<UnaryOperand, ParsingError>)
    requires
        old(t)@.wf(),
    ensures
        advanced(old(t)@, final(t)@),
        spec_unary_operand_value(old(t)@.input(), old(t)@.index) == Outcome::Returns(r, final(t)@.index),
{
    let tok = t.peek(0);
    match tok {
        Token::Minus(x) => {
            t.skip(1);
            Ok(UnaryOperand::Minus(x))
        },
        Token::Not(x) => {
            t.skip(1);
            Ok(UnaryOperand::Not(x))
        },
        Token::Hashtag(x) => {
            t.skip(1);
            Ok(UnaryOperand::Hashtag(x))
        },
        Token::Tilde(x) => {
            t.skip(1);
            Ok(UnaryOperand::Tilde(x))
        },
        _ => Err(ParsingError::new(tok.span().start, "expected UnaryOperand")),
    }
}

/// Parses a `FieldSep`: the first of its variants that parses.
#[verifier::spinoff_prover]
pub(crate) fn parse_field_sep(t: &mut TokenStream) -> (r: Result<FieldSep, ParsingError>)
    requires
        old(t)@.wf(),
        !(spec_field_sep(old(t)@.input(), old(t)@.index) is Panics),
    ensures
        advanced(old(t)@, final(t)@),
        agrees(spec_field_sep(old(t)@.input(), old(t)@.index), r, final(t)@.index, |v: FieldSep| tree_field_sep(v)),
{
    proof {
        lemma_spec_field_sep(t@.input(), t@.index);
    }
    let start = t.mark();
    match <token::Comma as Parseable>::parse(t) {
        Ok(v) => {
            let res = FieldSep::Comma(v);
            proof {
                lemma_tree_field_sep(res);
            }
            return Ok(res);
        },
        Err(_) => {
            t.reset(start);
        },
    }
    match <token::Semicolon as Parseable>::parse(t) {
        Ok(v) => {
            let res = FieldSep::Semicolon(v);
            proof {
                lemma_tree_field_sep(res);
            }
            return Ok(res);
        },
        Err(_) => {
            t.reset(start);
        },
    }
    Err(ParsingError::new(t.char_index(), "expected FieldSep"))
}

/// Parses a `Field`: the first of its variants that parses.
#[verifier::spinoff_prover]
pub(crate) fn parse_field(t: &mut TokenStream) -> (r: Result<Field, ParsingError>)
    requires
        old(t)@.wf(),
        !(spec_field(old(t)@.input(), old(t)@.index) is Panics),
    ensures
        advanced(old(t)@, final(t)@),
        agrees(spec_field(old(t)@.input(), old(t)@.index), r, final(t)@.index, |v: Field| tree_field(v)),
    decreases rem(old(t)@.input(), old(t)@.index), 7nat,
{
    proof {
        lemma_spec_field(t@.input(), t@.index);
    }
    let start = t.mark();
    match parse_exp(t) {
        Ok(v) => {
            let res = Field::ArrayLike(v);
            proof {
                lemma_tree_field(res);
            }
            return Ok(res);
        },
        Err(_) => {
            t.reset(start);
        },
    }
    match parse_map_field(t) {
        Ok(v) => {
            let res = Field::MapLike(v);
            proof {
                lemma_tree_field(res);
            }
            return Ok(res);
        },
        Err(_) => {
            t.reset(start);
        },
    }
    match parse_bracket_field(t) {
        Ok(v) => {
            let res = Field::Bracketed(v);
            proof {
                lemma_tree_field(res);
            }
            return Ok(res);
        },
        Err(_) => {
            t.reset(start);
        },
    }
    Err(ParsingError::new(t.char_index(), "expected Field"))
}

/// Parses an `ExpLiteral`: the first of its variants that parses.
#[verifier::spinoff_prover]
pub(crate) fn parse_exp_literal(t: &mut TokenStream) -> (r: Result<ExpLiteral, ParsingError>)
    requires
        old(t)@.wf(),
        !(spec_exp_literal(old(t)@.input(), old(t)@.index) is Panics),
    ensures
        advanced(old(t)@, final(t)@),
        agrees(spec_exp_literal(old(t)@.input(), old(t)@.index), r, final(t)@.index, |v: ExpLiteral| tree_exp_literal(v)),
{
    proof {
        lemma_spec_exp_literal(t@.input(), t@.index);
    }
    let start = t.mark();
    match <token::LiteralNumber as Parseable>::parse(t) {
        Ok(v) => {
            let res = ExpLiteral::Number(v);
            proof {
                lemma_tree_exp_literal(res);
            }
            return Ok(res);
        },
        Err(_) => {
            t.reset(start);
        },
    }
    match <token::LiteralString as Parseable>::parse(t) {
        Ok(v) => {
            let res = ExpLiteral::String(v);
            proof {
                lemma_tree_exp_literal(res);
            }
            return Ok(res);
        },
        Err(_) => {
            t.reset(start);
        },
    }
    Err(ParsingError::new(t.char_index(), "expected ExpLiteral"))
}

/// Parses elements as long as they parse.
#[verifier::spinoff_prover]
pub(crate) fn parse_stmts(t: &mut TokenStream) -> (r: Result<Vec<(Statement, Option<token::Semicolon>)>, ParsingError>)
    requires
        old(t)@.wf(),
        !(spec_stmts(old(t)@.input(), old(t)@.index) is Panics),
    ensures
        advanced(old(t)@, final(t)@),
        agrees(spec_stmts(old(t)@.input(), old(t)@.index), r, final(t)@.index, |v: Vec<(Statement, Option<token::Semicolon>)>| tree_stmts(v)),
    decreases rem(old(t)@.input(), old(t)@.index), 12nat,
{
    proof {
        lemma_spec_stmts(t@.input(), t@.index);
    }
    let ghost input = t@.input();
    let ghost pos = t@.index;
    let mut ret: Vec<(Statement, Option<token::Semicolon>)> = Vec::new();
    proof {
        lemma_trees_stmts(ret@);
        lemma_prepend_trees_empty(spec_stmts_items(input, pos));
    }
    loop
        invariant
            input == old(t)@.input(),
            pos == old(t)@.index,
            t@.input() == input,
            t@.wf(),
            moved(input, pos, t@.index),
            !(spec_stmts_items(input, t@.index) is Panics),
            spec_stmts_items(input, pos) == prepend_trees(trees_stmts(ret@), spec_stmts_items(input, t@.index)),
        decreases rem(input, t@.index),
    {
        proof {
            lemma_spec_stmts(input, pos);
            lemma_spec_stmts_items(input, t@.index);
        }
        let ghost before = ret@;
        let start = t.mark();
        match parse_stmt_semi(t) {
            Ok(v) => {
                ret.push(v);
                proof {
                    lemma_trees_stmts(ret@);
                    assert(ret@.drop_last() =~= before);
                    lemma_prepend_trees_push(trees_stmts(before), tree_stmt_semi(v), spec_stmts_items(input, t@.index));
                }
            },
            Err(_) => {
                t.reset(start);
                let res = ret;
                proof {
                    lemma_tree_stmts(res);
                    assert(trees_stmts(ret@) + seq![] =~= trees_stmts(ret@));
                }
                return Ok(res);
            },
        }
    }
}

/// Parses two elements, one after the other.
#[verifier::spinoff_prover]
pub(crate) fn parse_stmt_semi(t: &mut TokenStream) -> (r: Result<(Statement, Option<token::Semicolon>), ParsingError>)
    requires
        old(t)@.wf(),
        !(spec_stmt_semi(old(t)@.input(), old(t)@.index) is Panics),
    ensures
        advanced(old(t)@, final(t)@),
        agrees(spec_stmt_semi(old(t)@.input(), old(t)@.index), r, final(t)@.index, |v: (Statement, Option<token::Semicolon>)| tree_stmt_semi(v)),
    decreases rem(old(t)@.input(), old(t)@.index), 10nat,
{
    proof {
        lemma_spec_stmt_semi(t@.input(), t@.index);
    }
    match parse_statement(t) {
        Ok(a) => match parse_opt_semi(t) {
            Ok(b) => {
                let res = (a, b);
                proof {
                    lemma_tree_stmt_semi(res);
                }
                Ok(res)
            },
            Err(e) => Err(e),
        },
        Err(e) => Err(e),
    }
}

/// Parses an optional element: absent, with the cursor where it was, if it
/// does not parse.
#[verifier::spinoff_prover]
pub(crate) fn parse_opt_semi(t: &mut TokenStream) -> (r: Result<Option<token::Semicolon>, ParsingError>)
    requires
        old(t)@.wf(),
        !(spec_opt_semi(old(t)@.input(), old(t)@.index) is Panics),
    ensures
        advanced(old(t)@, final(t)@),
        agrees(spec_opt_semi(old(t)@.input(), old(t)@.index), r, final(t)@.index, |v: Option<token::Semicolon>| tree_opt_semi(v)),
{
    proof {
        lemma_spec_opt_semi(t@.input(), t@.index);
    }
    let start = t.mark();
    match <token::Semicolon as Parseable>::parse(t) {
        Ok(v) => {
            let res = Some(v);
            proof {
                lemma_tree_opt_semi(res);
            }
            Ok(res)
        },
        Err(_) => {
            t.reset(start);
            proof {
                lemma_tree_opt_semi(None);
            }
            Ok(None)
        },
    }
}

/// Parses an optional element: absent, with the cursor where it was, if it
/// does not parse.
#[verifier::spinoff_prover]
pub(crate) fn parse_opt_last(t: &mut TokenStream) -> (r: Result<Option<(LastStatement, Option<token::Semicolon>)>, ParsingError>)
    requires
        old(t)@.wf(),
        !(spec_opt_last(old(t)@.input(), old(t)@.index) is Panics),
    ensures
        advanced(old(t)@, final(t)@),
        agrees(spec_opt_last(old(t)@.input(), old(t)@.index), r, final(t)@.index, |v: Option<(LastStatement, Option<token::Semicolon>)>| tree_opt_last(v)),
    decreases rem(old(t)@.input(), old(t)@.index), 3nat,
{
    proof {
        lemma_spec_opt_last(t@.input(), t@.index);
    }
    let start = t.mark();
    match parse_last_semi(t) {
        Ok(v) => {
            let res = Some(v);
            proof {
                lemma_tree_opt_last(res);
            }
            Ok(res)
        },
        Err(_) => {
            t.reset(start);
            proof {
                lemma_tree_opt_last(None);
            }
            Ok(None)
        },
    }
}

/// Parses two elements, one after the other.
#[verifier::spinoff_prover]
pub(crate) fn parse_last_semi(t: &mut TokenStream) -> (r: Result<(LastStatement, Option<token::Semicolon>), ParsingError>)
    requires
        old(t)@.wf(),
        !(spec_last_semi(old(t)@.input(), old(t)@.index) is Panics),
    ensures
        advanced(old(t)@, final(t)@),
        agrees(spec_last_semi(old(t)@.input(), old(t)@.index), r, final(t)@.index, |v: (LastStatement, Option<token::Semicolon>)| tree_last_semi(v)),
    decreases rem(old(t)@.input(), old(t)@.index), 2nat,
{
    proof {
        lemma_spec_last_semi(t@.input(), t@.index);
    }
    match parse_last_statement(t) {
        Ok(a) => match parse_opt_semi(t) {
            Ok(b) => {
                let res = (a, b);
                proof {
                    lemma_tree_last_semi(res);
                }
                Ok(res)
            },
            Err(e) => Err(e),
        },
        Err(e) => Err(e),
    }
}

/// A list of pairs, then a last item.
#[verifier::spinoff_prover]
pub(crate) fn parse_var_list(t: &mut TokenStream) -> (r: Result<SeparatedTrailing<Var, token::Comma>, ParsingError>)
    requires
        old(t)@.wf(),
        !(spec_var_list(old(t)@.input(), old(t)@.index) is Panics),
    ensures
        advanced(old(t)@, final(t)@),
        agrees(spec_var_list(old(t)@.input(), old(t)@.index), r, final(t)@.index, |v: SeparatedTrailing<Var, token::Comma>| tree_var_list(v)),
    decreases rem(old(t)@.input(), old(t)@.index), 7nat,
{
    proof {
        lemma_spec_var_list(t@.input(), t@.index);
    }
    let pairs = match parse_var_pairs(t) {
        Ok(v) => v,
        Err(e) => {
            return Err(e);
        },
    };
    proof {
        lemma_tree_var_pairs(pairs);
    }
    let last = match parse_var(t) {
        Ok(v) => v,
        Err(e) => {
            return Err(e);
        },
    };
    let res = SeparatedTrailing { list: pairs.list, last };
    proof {
        lemma_tree_var_list(res);
    }
    Ok(res)
}

/// Parses element-separator pairs as long as both parse.
#[verifier::spinoff_prover]
pub(crate) fn parse_var_pairs(t: &mut TokenStream) -> (r: Result<SeparatedNoTrailing<Var, token::Comma>, ParsingError>)
    requires
        old(t)@.wf(),
        !(spec_var_pairs(old(t)@.input(), old(t)@.index) is Panics),
    ensures
        advanced(old(t)@, final(t)@),
        agrees(spec_var_pairs(old(t)@.input(), old(t)@.index), r, final(t)@.index, |v: SeparatedNoTrailing<Var, token::Comma>| tree_var_pairs(v)),
    decreases rem(old(t)@.input(), old(t)@.index), 6nat,
{
    proof {
        lemma_spec_var_pairs(t@.input(), t@.index);
    }
    let ghost input = t@.input();
    let ghost pos = t@.index;
    let mut list: Vec<(Var, token::Comma)> = Vec::new();
    proof {
        lemma_trees_var_pairs(list@);
        lemma_prepend_trees_empty(spec_var_pairs_items(input, pos));
    }
    loop
        invariant
            input == old(t)@.input(),
            pos == old(t)@.index,
            t@.input() == input,
            t@.wf(),
            moved(input, pos, t@.index),
            !(spec_var_pairs_items(input, t@.index) is Panics),
            spec_var_pairs_items(input, pos) == prepend_trees(trees_var_pairs(list@), spec_var_pairs_items(input, t@.index)),
        decreases rem(input, t@.index),
    {
        proof {
            lemma_spec_var_pairs(input, pos);
            lemma_spec_var_pairs_items(input, t@.index);
        }
        let ghost before = list@;
        let start = t.mark();
        match parse_var(t) {
            Ok(val) => {
                match <token::Comma as Parseable>::parse(t) {
                    Ok(sep) => {
                        list.push((val, sep));
                        proof {
                            lemma_trees_var_pairs(list@);
                            assert(list@.drop_last() =~= before);
                            lemma_prepend_trees_push(
                                trees_var_pairs(before),
                                Tree::Node(seq![tree_var(val), Tree::Leaf(Token::Comma(sep))]),
                                spec_var_pairs_items(input, t@.index),
                            );
                        }
                    },
                    Err(_) => {
                        t.reset(start);
                        let res = SeparatedNoTrailing { list };
                        proof {
                            lemma_tree_var_pairs(res);
                            assert(trees_var_pairs(list@) + seq![] =~= trees_var_pairs(list@));
                        }
                        return Ok(res);
                    },
                }
            },
            Err(_) => {
                t.reset(start);
                let res = SeparatedNoTrailing { list };
                proof {
                    lemma_tree_var_pairs(res);
                    assert(trees_var_pairs(list@) + seq![] =~= trees_var_pairs(list@));
                }
                return Ok(res);
            },
        }
    }
}

/// A list of pairs, then a last item.
#[verifier::spinoff_prover]
pub(crate) fn parse_exp_list(t: &mut TokenStream) -> (r: Result<SeparatedTrailing<Exp, token::Comma>, ParsingError>)
    requires
        old(t)@.wf(),
        !(spec_exp_list(old(t)@.input(), old(t)@.index) is Panics),
    ensures
        advanced(old(t)@, final(t)@),
        agrees(spec_exp_list(old(t)@.input(), old(t)@.index), r, final(t)@.index, |v: SeparatedTrailing<Exp, token::Comma>| tree_exp_list(v)),
    decreases rem(old(t)@.input(), old(t)@.index), 9nat,
{
    proof {
        lemma_spec_exp_list(t@.input(), t@.index);
    }
    let pairs = match parse_exp_pairs(t) {
        Ok(v) => v,
        Err(e) => {
            return Err(e);
        },
    };
    proof {
        lemma_tree_exp_pairs(pairs);
    }
    let last = match parse_exp(t) {
        Ok(v) => v,
        Err(e) => {
            return Err(e);
        },
    };
    let res = SeparatedTrailing { list: pairs.list, last };
    proof {
        lemma_tree_exp_list(res);
    }
    Ok(res)
}

/// Parses element-separator pairs as long as both parse.
#[verifier::spinoff_prover]
pub(crate) fn parse_exp_pairs(t: &mut TokenStream) -> (r: Result<SeparatedNoTrailing<Exp, token::Comma>, ParsingError>)
    requires
        old(t)@.wf(),
        !(spec_exp_pairs(old(t)@.input(), old(t)@.index) is Panics),
    ensures
        advanced(old(t)@, final(t)@),
        agrees(spec_exp_pairs(old(t)@.input(), old(t)@.index), r, final(t)@.index, |v: SeparatedNoTrailing<Exp, token::Comma>| tree_exp_pairs(v)),
    decreases rem(old(t)@.input(), old(t)@.index), 8nat,
{
    proof {
        lemma_spec_exp_pairs(t@.input(), t@.index);
    }
    let ghost input = t@.input();
    let ghost pos = t@.index;
    let mut list: Vec<(Exp, token::Comma)> = Vec::new();
    proof {
        lemma_trees_exp_pairs(list@);
        lemma_prepend_trees_empty(spec_exp_pairs_items(input, pos));
    }
    loop
        invariant
            input == old(t)@.input(),
            pos == old(t)@.index,
            t@.input() == input,
            t@.wf(),
            moved(input, pos, t@.index),
            !(spec_exp_pairs_items(input, t@.index) is Panics),
            spec_exp_pairs_items(input, pos) == prepend_trees(trees_exp_pairs(list@), spec_exp_pairs_items(input, t@.index)),
        decreases rem(input, t@.index),
    {
        proof {
            lemma_spec_exp_pairs(input, pos);
            lemma_spec_exp_pairs_items(input, t@.index);
        }
        let ghost before = list@;
        let start = t.mark();
        match parse_exp(t) {
            Ok(val) => {
                match <token::Comma as Parseable>::parse(t) {
                    Ok(sep) => {
                        list.push((val, sep));
                        proof {
                            lemma_trees_exp_pairs(list@);
                            assert(list@.drop_last() =~= before);
                            lemma_prepend_trees_push(
                                trees_exp_pairs(before),
                                Tree::Node(seq![tree_exp(val), Tree::Leaf(Token::Comma(sep))]),
                                spec_exp_pairs_items(input, t@.index),
                            );
                        }
                    },
                    Err(_) => {
                        t.reset(start);
                        let res = SeparatedNoTrailing { list };
                        proof {
                            lemma_tree_exp_pairs(res);
                            assert(trees_exp_pairs(list@) + seq![] =~= trees_exp_pairs(list@));
                        }
                        return Ok(res);
                    },
                }
            },
            Err(_) => {
                t.reset(start);
                let res = SeparatedNoTrailing { list };
                proof {
                    lemma_tree_exp_pairs(res);
                    assert(trees_exp_pairs(list@) + seq![] =~= trees_exp_pairs(list@));
                }
                return Ok(res);
            },
        }
    }
}

/// A list of pairs, then a last item.
#[verifier::spinoff_prover]
pub(crate) fn parse_name_list(t: &mut TokenStream) -> (r: Result<SeparatedTrailing<token::Name, token::Comma>, ParsingError>)
    requires
        old(t)@.wf(),
        !(spec_name_list(old(t)@.input(), old(t)@.index) is Panics),
    ensures
        advanced(old(t)@, final(t)@),
        agrees(spec_name_list(old(t)@.input(), old(t)@.index), r, final(t)@.index, |v: SeparatedTrailing<token::Name, token::Comma>| tree_name_list(v)),
{
    proof {
        lemma_spec_name_list(t@.input(), t@.index);
    }
    let pairs = match parse_name_pairs(t) {
        Ok(v) => v,
        Err(e) => {
            return Err(e);
        },
    };
    proof {
        lemma_tree_name_pairs(pairs);
    }
    let last = match <token::Name as Parseable>::parse(t) {
        Ok(v) => v,
        Err(e) => {
            return Err(e);
        },
    };
    let res = SeparatedTrailing { list: pairs.list, last };
    proof {
        lemma_tree_name_list(res);
    }
    Ok(res)
}

/// Parses element-separator pairs as long as both parse.
#[verifier::spinoff_prover]
pub(crate) fn parse_name_pairs(t: &mut TokenStream) -> (r: Result<SeparatedNoTrailing<token::Name, token::Comma>, ParsingError>)
    requires
        old(t)@.wf(),
        !(spec_name_pairs(old(t)@.input(), old(t)@.index) is Panics),
    ensures
        advanced(old(t)@, final(t)@),
        agrees(spec_name_pairs(old(t)@.input(), old(t)@.index), r, final(t)@.index, |v: SeparatedNoTrailing<token::Name, token::Comma>| tree_name_pairs(v)),
{
    proof {
        lemma_spec_name_pairs(t@.input(), t@.index);
    }
    let ghost input = t@.input();
    let ghost pos = t@.index;
    let mut list: Vec<(token::Name, token::Comma)> = Vec::new();
    proof {
        lemma_trees_name_pairs(list@);
        lemma_prepend_trees_empty(spec_name_pairs_items(input, pos));
    }
    loop
        invariant
            input == old(t)@.input(),
            pos == old(t)@.index,
            t@.input() == input,
            t@.wf(),
            moved(input, pos, t@.index),
            !(spec_name_pairs_items(input, t@.index) is Panics),
            spec_name_pairs_items(input, pos) == prepend_trees(trees_name_pairs(list@), spec_name_pairs_items(input, t@.index)),
        decreases rem(input, t@.index),
    {
        proof {
            lemma_spec_name_pairs(input, pos);
            lemma_spec_name_pairs_items(input, t@.index);
        }
        let ghost before = list@;
        let start = t.mark();
        match <token::Name as Parseable>::parse(t) {
            Ok(val) => {
                match <token::Comma as Parseable>::parse(t) {
                    Ok(sep) => {
                        list.push((val, sep));
                        proof {
                            lemma_trees_name_pairs(list@);
                            assert(list@.drop_last() =~= before);
                            lemma_prepend_trees_push(
                                trees_name_pairs(before),
                                Tree::Node(seq![Tree::Leaf(Token::Name(val)), Tree::Leaf(Token::Comma(sep))]),
                                spec_name_pairs_items(input, t@.index),
                            );
                        }
                    },
                    Err(_) => {
                        t.reset(start);
                        let res = SeparatedNoTrailing { list };
                        proof {
                            lemma_tree_name_pairs(res);
                            assert(trees_name_pairs(list@) + seq![] =~= trees_name_pairs(list@));
                        }
                        return Ok(res);
                    },
                }
            },
            Err(_) => {
                t.reset(start);
                let res = SeparatedNoTrailing { list };
                proof {
                    lemma_tree_name_pairs(res);
                    assert(trees_name_pairs(list@) + seq![] =~= trees_name_pairs(list@));
                }
                return Ok(res);
            },
        }
    }
}

/// A list of pairs, then a last item.
#[verifier::spinoff_prover]
pub(crate) fn parse_attr_name_list(t: &mut TokenStream) -> (r: Result<SeparatedTrailing<(token::Name, Option<Attribute>), token::Comma>, ParsingError>)
    requires
        old(t)@.wf(),
        !(spec_attr_name_list(old(t)@.input(), old(t)@.index) is Panics),
    ensures
        advanced(old(t)@, final(t)@),
        agrees(spec_attr_name_list(old(t)@.input(), old(t)@.index), r, final(t)@.index, |v: SeparatedTrailing<(token::Name, Option<Attribute>), token::Comma>| tree_attr_name_list(v)),
{
    proof {
        lemma_spec_attr_name_list(t@.input(), t@.index);
    }
    let pairs = match parse_attr_pairs(t) {
        Ok(v) => v,
        Err(e) => {
            return Err(e);
        },
    };
    proof {
        lemma_tree_attr_pairs(pairs);
    }
    let last = match parse_name_attr(t) {
        Ok(v) => v,
        Err(e) => {
            return Err(e);
        },
    };
    let res = SeparatedTrailing { list: pairs.list, last };
    proof {
        lemma_tree_attr_name_list(res);
    }
    Ok(res)
}

/// Parses element-separator pairs as long as both parse.
#[verifier::spinoff_prover]
pub(crate) fn parse_attr_pairs(t: &mut TokenStream) -> (r: Result<SeparatedNoTrailing<(token::Name, Option<Attribute>), token::Comma>, ParsingError>)
    requires
        old(t)@.wf(),
        !(spec_attr_pairs(old(t)@.input(), old(t)@.index) is Panics),
    ensures
        advanced(old(t)@, final(t)@),
        agrees(spec_attr_pairs(old(t)@.input(), old(t)@.index), r, final(t)@.index, |v: SeparatedNoTrailing<(token::Name, Option<Attribute>), token::Comma>| tree_attr_pairs(v)),
{
    proof {
        lemma_spec_attr_pairs(t@.input(), t@.index);
    }
    let ghost input = t@.input();
    let ghost pos = t@.index;
    let mut list: Vec<((token::Name, Option<Attribute>), token::Comma)> = Vec::new();
    proof {
        lemma_trees_attr_pairs(list@);
        lemma_prepend_trees_empty(spec_attr_pairs_items(input, pos));
    }
    loop
        invariant
            input == old(t)@.input(),
            pos == old(t)@.index,
            t@.input() == input,
            t@.wf(),
            moved(input, pos, t@.index),
            !(spec_attr_pairs_items(input, t@.index) is Panics),
            spec_attr_pairs_items(input, pos) == prepend_trees(trees_attr_pairs(list@), spec_attr_pairs_items(input, t@.index)),
        decreases rem(input, t@.index),
    {
        proof {
            lemma_spec_attr_pairs(input, pos);
            lemma_spec_attr_pairs_items(input, t@.index);
        }
        let ghost before = list@;
        let start = t.mark();
        match parse_name_attr(t) {
            Ok(val) => {
                match <token::Comma as Parseable>::parse(t) {
                    Ok(sep) => {
                        list.push((val, sep));
                        proof {
                            lemma_trees_attr_pairs(list@);
                            assert(list@.drop_last() =~= before);
                            lemma_prepend_trees_push(
                                trees_attr_pairs(before),
                                Tree::Node(seq![tree_name_attr(val), Tree::Leaf(Token::Comma(sep))]),
                                spec_attr_pairs_items(input, t@.index),
                            );
                        }
                    },
                    Err(_) => {
                        t.reset(start);
                        let res = SeparatedNoTrailing { list };
                        proof {
                            lemma_tree_attr_pairs(res);
                            assert(trees_attr_pairs(list@) + seq![] =~= trees_attr_pairs(list@));
                        }
                        return Ok(res);
                    },
                }
            },
            Err(_) => {
                t.reset(start);
                let res = SeparatedNoTrailing { list };
                proof {
                    lemma_tree_attr_pairs(res);
                    assert(trees_attr_pairs(list@) + seq![] =~= trees_attr_pairs(list@));
                }
                return Ok(res);
            },
        }
    }
}

/// Parses two elements, one after the other.
#[verifier::spinoff_prover]
pub(crate) fn parse_name_attr(t: &mut TokenStream) -> (r: Result<(token::Name, Option<Attribute>), ParsingError>)
    requires
        old(t)@.wf(),
        !(spec_name_attr(old(t)@.input(), old(t)@.index) is Panics),
    ensures
        advanced(old(t)@, final(t)@),
        agrees(spec_name_attr(old(t)@.input(), old(t)@.index), r, final(t)@.index, |v: (token::Name, Option<Attribute>)| tree_name_attr(v)),
{
    proof {
        lemma_spec_name_attr(t@.input(), t@.index);
    }
    match <token::Name as Parseable>::parse(t) {
        Ok(a) => match parse_opt_attribute(t) {
            Ok(b) => {
                let res = (a, b);
                proof {
                    lemma_tree_name_attr(res);
                }
                Ok(res)
            },
            Err(e) => Err(e),
        },
        Err(e) => Err(e),
    }
}

/// Parses an optional element: absent, with the cursor where it was, if it
/// does not parse.
#[verifier::spinoff_prover]
pub(crate) fn parse_opt_attribute(t: &mut TokenStream) -> (r: Result<Option<Attribute>, ParsingError>)
    requires
        old(t)@.wf(),
        !(spec_opt_attribute(old(t)@.input(), old(t)@.index) is Panics),
    ensures
        advanced(old(t)@, final(t)@),
        agrees(spec_opt_attribute(old(t)@.input(), old(t)@.index), r, final(t)@.index, |v: Option<Attribute>| tree_opt_attribute(v)),
{
    proof {
        lemma_spec_opt_attribute(t@.input(), t@.index);
    }
    let start = t.mark();
    match parse_attribute(t) {
        Ok(v) => {
            let res = Some(v);
            proof {
                lemma_tree_opt_attribute(res);
            }
            Ok(res)
        },
        Err(_) => {
            t.reset(start);
            proof {
                lemma_tree_opt_attribute(None);
            }
            Ok(None)
        },
    }
}

/// Parses an optional element: absent, with the cursor where it was, if it
/// does not parse.
#[verifier::spinoff_prover]
pub(crate) fn parse_local_init(t: &mut TokenStream) -> (r: Result<Option<(token::Equal, SeparatedTrailing<Exp, token::Comma>)>, ParsingError>)
    requires
        old(t)@.wf(),
        !(spec_local_init(old(t)@.input(), old(t)@.index) is Panics),
    ensures
        advanced(old(t)@, final(t)@),
        agrees(spec_local_init(old(t)@.input(), old(t)@.index), r, final(t)@.index, |v: Option<(token::Equal, SeparatedTrailing<Exp, token::Comma>)>| tree_local_init(v)),
    decreases rem(old(t)@.input(), old(t)@.index), 1nat,
{
    proof {
        lemma_spec_local_init(t@.input(), t@.index);
    }
    let start = t.mark();
    match parse_eq_exps(t) {
        Ok(v) => {
            let res = Some(v);
            proof {
                lemma_tree_local_init(res);
            }
            Ok(res)
        },
        Err(_) => {
            t.reset(start);
            proof {
                lemma_tree_local_init(None);
            }
            Ok(None)
        },
    }
}

/// Parses two elements, one after the other.
#[verifier::spinoff_prover]
pub(crate) fn parse_eq_exps(t: &mut TokenStream) -> (r: Result<(token::Equal, SeparatedTrailing<Exp, token::Comma>), ParsingError>)
    requires
        old(t)@.wf(),
        !(spec_eq_exps(old(t)@.input(), old(t)@.index) is Panics),
    ensures
        advanced(old(t)@, final(t)@),
        agrees(spec_eq_exps(old(t)@.input(), old(t)@.index), r, final(t)@.index, |v: (token::Equal, SeparatedTrailing<Exp, token::Comma>)| tree_eq_exps(v)),
    decreases rem(old(t)@.input(), old(t)@.index), 0nat,
{
    proof {
        lemma_spec_eq_exps(t@.input(), t@.index);
    }
    match <token::Equal as Parseable>::parse(t) {
        Ok(a) => match parse_exp_list(t) {
            Ok(b) => {
                let res = (a, b);
                proof {
                    lemma_tree_eq_exps(res);
                }
                Ok(res)
            },
            Err(e) => Err(e),
        },
        Err(e) => Err(e),
    }
}

/// A list of pairs, then a last item.
#[verifier::spinoff_prover]
pub(crate) fn parse_func_path(t: &mut TokenStream) -> (r: Result<SeparatedTrailing<token::Name, token::Dot>, ParsingError>)
    requires
        old(t)@.wf(),
        !(spec_func_path(old(t)@.input(), old(t)@.index) is Panics),
    ensures
        advanced(old(t)@, final(t)@),
        agrees(spec_func_path(old(t)@.input(), old(t)@.index), r, final(t)@.index, |v: SeparatedTrailing<token::Name, token::Dot>| tree_func_path(v)),
{
    proof {
        lemma_spec_func_path(t@.input(), t@.index);
    }
    let pairs = match parse_path_pairs(t) {
        Ok(v) => v,
        Err(e) => {
            return Err(e);
        },
    };
    proof {
        lemma_tree_path_pairs(pairs);
    }
    let last = match <token::Name as Parseable>::parse(t) {
        Ok(v) => v,
        Err(e) => {
            return Err(e);
        },
    };
    let res = SeparatedTrailing { list: pairs.list, last };
    proof {
        lemma_tree_func_path(res);
    }
    Ok(res)
}

/// Parses element-separator pairs as long as both parse.
#[verifier::spinoff_prover]
pub(crate) fn parse_path_pairs(t: &mut TokenStream) -> (r: Result<SeparatedNoTrailing<token::Name, token::Dot>, ParsingError>)
    requires
        old(t)@.wf(),
        !(spec_path_pairs(old(t)@.input(), old(t)@.index) is Panics),
    ensures
        advanced(old(t)@, final(t)@),
        agrees(spec_path_pairs(old(t)@.input(), old(t)@.index), r, final(t)@.index, |v: SeparatedNoTrailing<token::Name, token::Dot>| tree_path_pairs(v)),
{
    proof {
        lemma_spec_path_pairs(t@.input(), t@.index);
    }
    let ghost input = t@.input();
    let ghost pos = t@.index;
    let mut list: Vec<(token::Name, token::Dot)> = Vec::new();
    proof {
        lemma_trees_path_pairs(list@);
        lemma_prepend_trees_empty(spec_path_pairs_items(input, pos));
    }
    loop
        invariant
            input == old(t)@.input(),
            pos == old(t)@.index,
            t@.input() == input,
            t@.wf(),
            moved(input, pos, t@.index),
            !(spec_path_pairs_items(input, t@.index) is Panics),
            spec_path_pairs_items(input, pos) == prepend_trees(trees_path_pairs(list@), spec_path_pairs_items(input, t@.index)),
        decreases rem(input, t@.index),
    {
        proof {
            lemma_spec_path_pairs(input, pos);
            lemma_spec_path_pairs_items(input, t@.index);
        }
        let ghost before = list@;
        let start = t.mark();
        match <token::Name as Parseable>::parse(t) {
            Ok(val) => {
                match <token::Dot as Parseable>::parse(t) {
                    Ok(sep) => {
                        list.push((val, sep));
                        proof {
                            lemma_trees_path_pairs(list@);
                            assert(list@.drop_last() =~= before);
                            lemma_prepend_trees_push(
                                trees_path_pairs(before),
                                Tree::Node(seq![Tree::Leaf(Token::Name(val)), Tree::Leaf(Token::Dot(sep))]),
                                spec_path_pairs_items(input, t@.index),
                            );
                        }
                    },
                    Err(_) => {
                        t.reset(start);
                        let res = SeparatedNoTrailing { list };
                        proof {
                            lemma_tree_path_pairs(res);
                            assert(trees_path_pairs(list@) + seq![] =~= trees_path_pairs(list@));
                        }
                        return Ok(res);
                    },
                }
            },
            Err(_) => {
                t.reset(start);
                let res = SeparatedNoTrailing { list };
                proof {
                    lemma_tree_path_pairs(res);
                    assert(trees_path_pairs(list@) + seq![] =~= trees_path_pairs(list@));
                }
                return Ok(res);
            },
        }
    }
}

/// Parses an optional element: absent, with the cursor where it was, if it
/// does not parse.
#[verifier::spinoff_prover]
pub(crate) fn parse_opt_step(t: &mut TokenStream) -> (r: Result<Option<(token::Comma, Exp)>, ParsingError>)
    requires
        old(t)@.wf(),
        !(spec_opt_step(old(t)@.input(), old(t)@.index) is Panics),
    ensures
        advanced(old(t)@, final(t)@),
        agrees(spec_opt_step(old(t)@.input(), old(t)@.index), r, final(t)@.index, |v: Option<(token::Comma, Exp)>| tree_opt_step(v)),
    decreases rem(old(t)@.input(), old(t)@.index), 1nat,
{
    proof {
        lemma_spec_opt_step(t@.input(), t@.index);
    }
    let start = t.mark();
    match parse_comma_exp(t) {
        Ok(v) => {
            let res = Some(v);
            proof {
                lemma_tree_opt_step(res);
            }
            Ok(res)
        },
        Err(_) => {
            t.reset(start);
            proof {
                lemma_tree_opt_step(None);
            }
            Ok(None)
        },
    }
}

/// Parses two elements, one after the other.
#[verifier::spinoff_prover]
pub(crate) fn parse_comma_exp(t: &mut TokenStream) -> (r: Result<(token::Comma, Exp), ParsingError>)
    requires
        old(t)@.wf(),
        !(spec_comma_exp(old(t)@.input(), old(t)@.index) is Panics),
    ensures
        advanced(old(t)@, final(t)@),
        agrees(spec_comma_exp(old(t)@.input(), old(t)@.index), r, final(t)@.index, |v: (token::Comma, Exp)| tree_comma_exp(v)),
    decreases rem(old(t)@.input(), old(t)@.index), 0nat,
{
    proof {
        lemma_spec_comma_exp(t@.input(), t@.index);
    }
    match <token::Comma as Parseable>::parse(t) {
        Ok(a) => match parse_exp(t) {
            Ok(b) => {
                let res = (a, b);
                proof {
                    lemma_tree_comma_exp(res);
                }
                Ok(res)
            },
            Err(e) => Err(e),
        },
        Err(e) => Err(e),
    }
}

/// Parses elements as long as they parse.
#[verifier::spinoff_prover]
pub(crate) fn parse_elseifs(t: &mut TokenStream) -> (r: Result<Vec<ElseIfBranch>, ParsingError>)
    requires
        old(t)@.wf(),
        !(spec_elseifs(old(t)@.input(), old(t)@.index) is Panics),
    ensures
        advanced(old(t)@, final(t)@),
        agrees(spec_elseifs(old(t)@.input(), old(t)@.index), r, final(t)@.index, |v: Vec<ElseIfBranch>| tree_elseifs(v)),
    decreases rem(old(t)@.input(), old(t)@.index), 2nat,
{
    proof {
        lemma_spec_elseifs(t@.input(), t@.index);
    }
    let ghost input = t@.input();
    let ghost pos = t@.index;
    let mut ret: Vec<ElseIfBranch> = Vec::new();
    proof {
        lemma_trees_elseifs(ret@);
        lemma_prepend_trees_empty(spec_elseifs_items(input, pos));
    }
    loop
        invariant
            input == old(t)@.input(),
            pos == old(t)@.index,
            t@.input() == input,
            t@.wf(),
            moved(input, pos, t@.index),
            !(spec_elseifs_items(input, t@.index) is Panics),
            spec_elseifs_items(input, pos) == prepend_trees(trees_elseifs(ret@), spec_elseifs_items(input, t@.index)),
        decreases rem(input, t@.index),
    {
        proof {
            lemma_spec_elseifs(input, pos);
            lemma_spec_elseifs_items(input, t@.index);
        }
        let ghost before = ret@;
        let start = t.mark();
        match parse_else_if_branch(t) {
            Ok(v) => {
                ret.push(v);
                proof {
                    lemma_trees_elseifs(ret@);
                    assert(ret@.drop_last() =~= before);
                    lemma_prepend_trees_push(trees_elseifs(before), tree_else_if_branch(v), spec_elseifs_items(input, t@.index));
                }
            },
            Err(_) => {
                t.reset(start);
                let res = ret;
                proof {
                    lemma_tree_elseifs(res);
                    assert(trees_elseifs(ret@) + seq![] =~= trees_elseifs(ret@));
                }
                return Ok(res);
            },
        }
    }
}

/// Parses an optional element: absent, with the cursor where it was, if it
/// does not parse.
#[verifier::spinoff_prover]
pub(crate) fn parse_opt_else(t: &mut TokenStream) -> (r: Result<Option<ElseBranch>, ParsingError>)
    requires
        old(t)@.wf(),
        !(spec_opt_else(old(t)@.input(), old(t)@.index) is Panics),
    ensures
        advanced(old(t)@, final(t)@),
        agrees(spec_opt_else(old(t)@.input(), old(t)@.index), r, final(t)@.index, |v: Option<ElseBranch>| tree_opt_else(v)),
    decreases rem(old(t)@.input(), old(t)@.index), 1nat,
{
    proof {
        lemma_spec_opt_else(t@.input(), t@.index);
    }
    let start = t.mark();
    match parse_else_branch(t) {
        Ok(v) => {
            let res = Some(v);
            proof {
                lemma_tree_opt_else(res);
            }
            Ok(res)
        },
        Err(_) => {
            t.reset(start);
            proof {
                lemma_tree_opt_else(None);
            }
            Ok(None)
        },
    }
}

/// Parses an optional element: absent, with the cursor where it was, if it
/// does not parse.
#[verifier::spinoff_prover]
pub(crate) fn parse_opt_qualifier(t: &mut TokenStream) -> (r: Result<Option<(token::Colon, token::Name)>, ParsingError>)
    requires
        old(t)@.wf(),
        !(spec_opt_qualifier(old(t)@.input(), old(t)@.index) is Panics),
    ensures
        advanced(old(t)@, final(t)@),
        agrees(spec_opt_qualifier(old(t)@.input(), old(t)@.index), r, final(t)@.index, |v: Option<(token::Colon, token::Name)>| tree_opt_qualifier(v)),
{
    proof {
        lemma_spec_opt_qualifier(t@.input(), t@.index);
    }
    let start = t.mark();
    match parse_colon_name(t) {
        Ok(v) => {
            let res = Some(v);
            proof {
                lemma_tree_opt_qualifier(res);
            }
            Ok(res)
        },
        Err(_) => {
            t.reset(start);
            proof {
                lemma_tree_opt_qualifier(None);
            }
            Ok(None)
        },
    }
}

/// Parses two elements, one after the other.
#[verifier::spinoff_prover]
pub(crate) fn parse_colon_name(t: &mut TokenStream) -> (r: Result<(token::Colon, token::Name), ParsingError>)
    requires
        old(t)@.wf(),
        !(spec_colon_name(old(t)@.input(), old(t)@.index) is Panics),
    ensures
        advanced(old(t)@, final(t)@),
        agrees(spec_colon_name(old(t)@.input(), old(t)@.index), r, final(t)@.index, |v: (token::Colon, token::Name)| tree_colon_name(v)),
{
    proof {
        lemma_spec_colon_name(t@.input(), t@.index);
    }
    match <token::Colon as Parseable>::parse(t) {
        Ok(a) => match <token::Name as Parseable>::parse(t) {
            Ok(b) => {
                let res = (a, b);
                proof {
                    lemma_tree_colon_name(res);
                }
                Ok(res)
            },
            Err(e) => Err(e),
        },
        Err(e) => Err(e),
    }
}

/// Parses an optional element: absent, with the cursor where it was, if it
/// does not parse.
#[verifier::spinoff_prover]
pub(crate) fn parse_opt_ellipses(t: &mut TokenStream) -> (r: Result<Option<token::Ellipses>, ParsingError>)
    requires
        old(t)@.wf(),
        !(spec_opt_ellipses(old(t)@.input(), old(t)@.index) is Panics),
    ensures
        advanced(old(t)@, final(t)@),
        agrees(spec_opt_ellipses(old(t)@.input(), old(t)@.index), r, final(t)@.index, |v: Option<token::Ellipses>| tree_opt_ellipses(v)),
{
    proof {
        lemma_spec_opt_ellipses(t@.input(), t@.index);
    }
    let start = t.mark();
    match <token::Ellipses as Parseable>::parse(t) {
        Ok(v) => {
            let res = Some(v);
            proof {
                lemma_tree_opt_ellipses(res);
            }
            Ok(res)
        },
        Err(_) => {
            t.reset(start);
            proof {
                lemma_tree_opt_ellipses(None);
            }
            Ok(None)
        },
    }
}

/// Parses elements as long as they parse.
#[verifier::spinoff_prover]
pub(crate) fn parse_suffixes(t: &mut TokenStream) -> (r: Result<Vec<PrefixExpSuffix>, ParsingError>)
    requires
        old(t)@.wf(),
        !(spec_suffixes(old(t)@.input(), old(t)@.index) is Panics),
    ensures
        advanced(old(t)@, final(t)@),
        agrees(spec_suffixes(old(t)@.input(), old(t)@.index), r, final(t)@.index, |v: Vec<PrefixExpSuffix>| tree_suffixes(v)),
    decreases rem(old(t)@.input(), old(t)@.index), 5nat,
{
    proof {
        lemma_spec_suffixes(t@.input(), t@.index);
    }
    let ghost input = t@.input();
    let ghost pos = t@.index;
    let mut ret: Vec<PrefixExpSuffix> = Vec::new();
    proof {
        lemma_trees_suffixes(ret@);
        lemma_prepend_trees_empty(spec_suffixes_items(input, pos));
    }
    loop
        invariant
            input == old(t)@.input(),
            pos == old(t)@.index,
            t@.input() == input,
            t@.wf(),
            moved(input, pos, t@.index),
            !(spec_suffixes_items(input, t@.index) is Panics),
            spec_suffixes_items(input, pos) == prepend_trees(trees_suffixes(ret@), spec_suffixes_items(input, t@.index)),
        decreases rem(input, t@.index),
    {
        proof {
            lemma_spec_suffixes(input, pos);
            lemma_spec_suffixes_items(input, t@.index);
        }
        let ghost before = ret@;
        let start = t.mark();
        match parse_prefix_exp_suffix(t) {
            Ok(v) => {
                ret.push(v);
                proof {
                    lemma_trees_suffixes(ret@);
                    assert(ret@.drop_last() =~= before);
                    lemma_prepend_trees_push(trees_suffixes(before), tree_prefix_exp_suffix(v), spec_suffixes_items(input, t@.index));
                }
            },
            Err(_) => {
                t.reset(start);
                let res = ret;
                proof {
                    lemma_tree_suffixes(res);
                    assert(trees_suffixes(ret@) + seq![] =~= trees_suffixes(ret@));
                }
                return Ok(res);
            },
        }
    }
}

/// Item-separator pairs as long as both parse; an item that parses without
/// a separator after it is kept as the last.
#[verifier::spinoff_prover]
pub(crate) fn parse_fields(t: &mut TokenStream) -> (r: Result<Separated<Field, FieldSep>, ParsingError>)
    requires
        old(t)@.wf(),
        !(spec_fields(old(t)@.input(), old(t)@.index) is Panics),
    ensures
        advanced(old(t)@, final(t)@),
        agrees(spec_fields(old(t)@.input(), old(t)@.index), r, final(t)@.index, |v: Separated<Field, FieldSep>| tree_fields(v)),
    decreases rem(old(t)@.input(), old(t)@.index), 9nat,
{
    proof {
        lemma_spec_fields(t@.input(), t@.index);
    }
    let ghost input = t@.input();
    let ghost pos = t@.index;
    let mut list: Vec<(Field, FieldSep)> = Vec::new();
    proof {
        lemma_trees_field_pairs(list@);
        lemma_prepend_pairs_empty(spec_fields_loop(input, pos));
    }
    loop
        invariant
            input == old(t)@.input(),
            pos == old(t)@.index,
            t@.input() == input,
            t@.wf(),
            moved(input, pos, t@.index),
            !(spec_fields_loop(input, t@.index) is Panics),
            spec_fields_loop(input, pos) == prepend_pairs(trees_field_pairs(list@), spec_fields_loop(input, t@.index)),
        decreases rem(input, t@.index),
    {
        proof {
            lemma_spec_fields(input, pos);
            lemma_spec_fields_loop(input, t@.index);
        }
        let ghost before = list@;
        let start = t.mark();
        match parse_field(t) {
            Ok(val) => {
                let after = t.mark();
                match parse_field_sep(t) {
                    Ok(sep) => {
                        list.push((val, sep));
                        proof {
                            lemma_trees_field_pairs(list@);
                            lemma_tree_field_pairs(list@.last());
                            assert(list@.drop_last() =~= before);
                            lemma_prepend_pairs_push(
                                trees_field_pairs(before),
                                Tree::Node(seq![tree_field(val), tree_field_sep(sep)]),
                                spec_fields_loop(input, t@.index),
                            );
                        }
                    },
                    Err(_) => {
                        t.reset(after);
                        let res = Separated::Trailing(SeparatedTrailing { list, last: val });
                        proof {
                            lemma_tree_fields(res);
                            assert(trees_field_pairs(list@) + seq![] =~= trees_field_pairs(list@));
                        }
                        return Ok(res);
                    },
                }
            },
            Err(_) => {
                t.reset(start);
                let res = Separated::NoTrailing(SeparatedNoTrailing { list });
                proof {
                    lemma_tree_fields(res);
                    assert(trees_field_pairs(list@) + seq![] =~= trees_field_pairs(list@));
                }
                return Ok(res);
            },
        }
    }
}

/// Parses a `FunctionName`: a dotted path, then `:` and a name if a `:` is
/// next.
pub(crate) fn parse_function_name(t: &mut TokenStream) -> (r: Result<FunctionName, ParsingError>)
    requires
        old(t)@.wf(),
        !(spec_function_name(old(t)@.input(), old(t)@.index) is Panics),
    ensures
        advanced(old(t)@, final(t)@),
        agrees(
            spec_function_name(old(t)@.input(), old(t)@.index),
            r,
            final(t)@.index,
            |v: FunctionName| tree_function_name(v),
        ),
{
    proof {
        lemma_spec_function_name(t@.input(), t@.index);
    }
    let path = match parse_func_path(t) {
        Ok(v) => v,
        Err(e) => {
            return Err(e);
        },
    };
    let mut suffix = None;
    if let Token::Colon(_) = t.peek(0) {
        let c = match <token::Colon as Parseable>::parse(t) {
            Ok(v) => v,
            Err(e) => {
                return Err(e);
            },
        };
        let name = match <token::Name as Parseable>::parse(t) {
            Ok(v) => v,
            Err(e) => {
                return Err(e);
            },
        };
        suffix = Some((c, name));
    }
    let res = FunctionName { path, suffix };
    proof {
        lemma_tree_function_name(res);
        lemma_tree_opt_qualifier(res.suffix);
        if let Some(cn) = res.suffix {
            lemma_tree_colon_name(cn);
        }
    }
    Ok(res)
}

impl BinaryOperand {
    /// How tightly the operator binds: higher binds tighter.
    fn precedence(&self) -> (p: usize)
        ensures
            p == self.spec_precedence(),
    {
        match self {
            BinaryOperand::Or(_) => 1,
            BinaryOperand::And(_) => 2,
            BinaryOperand::Less(_)
            | BinaryOperand::LessEqual(_)
            | BinaryOperand::Greater(_)
            | BinaryOperand::GreaterEqual(_)
            | BinaryOperand::TildeEqual(_)
            | BinaryOperand::DoubleEqual(_) => 3,
            BinaryOperand::Pipe(_) => 4,
            BinaryOperand::Tilde(_) => 5,
            BinaryOperand::Ampersand(_) => 6,
            BinaryOperand::DoubleLess(_) | BinaryOperand::DoubleGreater(_) => 7,
            BinaryOperand::DoubleDot(_) => 8,
            BinaryOperand::Plus(_) | BinaryOperand::Minus(_) => 9,
            BinaryOperand::Asterisk(_) | BinaryOperand::Slash(_) | BinaryOperand::Percent(_) => 10,
            BinaryOperand::DoubleSlash(_) => 10,
            BinaryOperand::Carat(_) => 12,
        }
    }

    /// Whether the operator groups to the left: all but `^` and `..`.
    fn left_assoc(&self) -> (b: bool)
        ensures
            b == self.spec_left_assoc(),
    {
        match self {
            BinaryOperand::Carat(_) | BinaryOperand::DoubleDot(_) => false,
            _ => true,
        }
    }
}

/// Parses an operand of a binary operator: a unary operator and what it
/// applies to, or an atom.
fn parse_exp_operand(t: &mut TokenStream) -> (r: Result<Exp, ParsingError>)
    requires
        old(t)@.wf(),
        !(exp_operand(old(t)@.input(), old(t)@.index) is Panics),
    ensures
        advanced(old(t)@, final(t)@),
        agrees(exp_operand(old(t)@.input(), old(t)@.index), r, final(t)@.index, |v: Exp| tree_exp(v)),
    decreases rem(old(t)@.input(), old(t)@.index), 4nat,
{
    proof {
        lemma_exp_operand(t@.input(), t@.index);
    }
    match parse_unary_operand(t) {
        Ok(operand) => {
            let value = match parse_exp_climb(t, UNARY_PRECEDENCE + 1) {
                Ok(v) => v,
                Err(e) => {
                    return Err(e);
                },
            };
            let res = Exp::Unary(ExpUnary { operand, value: Box::new(value) });
            proof {
                lemma_tree_exp(res);
            }
            Ok(res)
        },
        Err(_) => match parse_exp_atom(t) {
            Ok(a) => {
                let res = Exp::Atom(a);
                proof {
                    lemma_tree_exp(res);
                }
                Ok(res)
            },
            Err(e) => Err(e),
        },
    }
}

/// Parses an expression whose binary operators all bind at least as tightly
/// as precedence `min`.
fn parse_exp_climb(t: &mut TokenStream, min: usize) -> (r: Result<Exp, ParsingError>)
    requires
        old(t)@.wf(),
        !(exp_climb(old(t)@.input(), old(t)@.index, min as nat) is Panics),
    ensures
        advanced(old(t)@, final(t)@),
        agrees(exp_climb(old(t)@.input(), old(t)@.index, min as nat), r, final(t)@.index, |v: Exp| tree_exp(v)),
    decreases rem(old(t)@.input(), old(t)@.index), 5nat,
{
    proof {
        lemma_exp_climb(t@.input(), t@.index, min as nat);
    }
    let left = match parse_exp_operand(t) {
        Ok(v) => v,
        Err(e) => {
            return Err(e);
        },
    };
    parse_exp_rest(t, left, min)
}

/// Goes on with an expression after its part `left`, taking the binary
/// operators that bind at least as tightly as `min`.
fn parse_exp_rest(t: &mut TokenStream, left: Exp, min: usize) -> (r: Result<Exp, ParsingError>)
    requires
        old(t)@.wf(),
        !(exp_rest(old(t)@.input(), old(t)@.index, tree_exp(left), min as nat) is Panics),
    ensures
        advanced(old(t)@, final(t)@),
        agrees(
            exp_rest(old(t)@.input(), old(t)@.index, tree_exp(left), min as nat),
            r,
            final(t)@.index,
            |v: Exp| tree_exp(v),
        ),
    decreases rem(old(t)@.input(), old(t)@.index), 0nat,
{
    proof {
        lemma_exp_rest(t@.input(), t@.index, tree_exp(left), min as nat);
    }
    let start = t.mark();
    match parse_binary_operand(t) {
        Ok(operand) => {
            let prec = operand.precedence();
            if prec < min {
                t.reset(start);
                return Ok(left);
            }
            let next = if operand.left_assoc() {
                prec + 1
            } else {
                prec
            };
            let right = match parse_exp_climb(t, next) {
                Ok(v) => v,
                Err(e) => {
                    return Err(e);
                },
            };
            let e = Exp::Binary(ExpBinary { left: Box::new(left), operand, right: Box::new(right) });
            proof {
                lemma_tree_exp(e);
            }
            parse_exp_rest(t, e, min)
        },
        Err(_) => Ok(left),
    }
}

/// Parses an expression by operator precedence.
pub(crate) fn parse_exp(t: &mut TokenStream) -> (r: Result<Exp, ParsingError>)
    requires
        old(t)@.wf(),
        !(spec_exp(old(t)@.input(), old(t)@.index) is Panics),
    ensures
        advanced(old(t)@, final(t)@),
        agrees(spec_exp(old(t)@.input(), old(t)@.index), r, final(t)@.index, |v: Exp| tree_exp(v)),
    decreases rem(old(t)@.input(), old(t)@.index), 6nat,
{
    proof {
        lemma_spec_exp(t@.input(), t@.index);
    }
    parse_exp_climb(t, 0)
}
impl Parseable for Chunk {
    open spec fn parse_tree(&self) -> Tree {
        tree_chunk(*self)
    }

    open spec fn spec_parse(input: Tokens, pos: nat) -> Outcome<Tree> {
        spec_chunk(input, pos)
    }

    fn parse(t: &mut TokenStream) -> (r: Result<Self, ParsingError>) {
        parse_chunk(t)
    }
}

impl Parseable for StAssign {
    open spec fn parse_tree(&self) -> Tree {
        tree_st_assign(*self)
    }

    open spec fn spec_parse(input: Tokens, pos: nat) -> Outcome<Tree> {
        spec_st_assign(input, pos)
    }

    fn parse(t: &mut TokenStream) -> (r: Result<Self, ParsingError>) {
        parse_st_assign(t)
    }
}

impl Parseable for StBlock {
    open spec fn parse_tree(&self) -> Tree {
        tree_st_block(*self)
    }

    open spec fn spec_parse(input: Tokens, pos: nat) -> Outcome<Tree> {
        spec_st_block(input, pos)
    }

    fn parse(t: &mut TokenStream) -> (r: Result<Self, ParsingError>) {
        parse_st_block(t)
    }
}

impl Parseable for Attribute {
    open spec fn parse_tree(&self) -> Tree {
        tree_attribute(*self)
    }

    open spec fn spec_parse(input: Tokens, pos: nat) -> Outcome<Tree> {
        spec_attribute(input, pos)
    }

    fn parse(t: &mut TokenStream) -> (r: Result<Self, ParsingError>) {
        parse_attribute(t)
    }
}

impl Parseable for StWhileLoop {
    open spec fn parse_tree(&self) -> Tree {
        tree_st_while_loop(*self)
    }

    open spec fn spec_parse(input: Tokens, pos: nat) -> Outcome<Tree> {
        spec_st_while_loop(input, pos)
    }

    fn parse(t: &mut TokenStream) -> (r: Result<Self, ParsingError>) {
        parse_st_while_loop(t)
    }
}

impl Parseable for StRepeatLoop {
    open spec fn parse_tree(&self) -> Tree {
        tree_st_repeat_loop(*self)
    }

    open spec fn spec_parse(input: Tokens, pos: nat) -> Outcome<Tree> {
        spec_st_repeat_loop(input, pos)
    }

    fn parse(t: &mut TokenStream) -> (r: Result<Self, ParsingError>) {
        parse_st_repeat_loop(t)
    }
}

impl Parseable for StForRangeLoop {
    open spec fn parse_tree(&self) -> Tree {
        tree_st_for_range_loop(*self)
    }

    open spec fn spec_parse(input: Tokens, pos: nat) -> Outcome<Tree> {
        spec_st_for_range_loop(input, pos)
    }

    fn parse(t: &mut TokenStream) -> (r: Result<Self, ParsingError>) {
        parse_st_for_range_loop(t)
    }
}

impl Parseable for StForInLoop {
    open spec fn parse_tree(&self) -> Tree {
        tree_st_for_in_loop(*self)
    }

    open spec fn spec_parse(input: Tokens, pos: nat) -> Outcome<Tree> {
        spec_st_for_in_loop(input, pos)
    }

    fn parse(t: &mut TokenStream) -> (r: Result<Self, ParsingError>) {
        parse_st_for_in_loop(t)
    }
}

impl Parseable for StIfElse {
    open spec fn parse_tree(&self) -> Tree {
        tree_st_if_else(*self)
    }

    open spec fn spec_parse(input: Tokens, pos: nat) -> Outcome<Tree> {
        spec_st_if_else(input, pos)
    }

    fn parse(t: &mut TokenStream) -> (r: Result<Self, ParsingError>) {
        parse_st_if_else(t)
    }
}

impl Parseable for IfBranch {
    open spec fn parse_tree(&self) -> Tree {
        tree_if_branch(*self)
    }

    open spec fn spec_parse(input: Tokens, pos: nat) -> Outcome<Tree> {
        spec_if_branch(input, pos)
    }

    fn parse(t: &mut TokenStream) -> (r: Result<Self, ParsingError>) {
        parse_if_branch(t)
    }
}

impl Parseable for ElseIfBranch {
    open spec fn parse_tree(&self) -> Tree {
        tree_else_if_branch(*self)
    }

    open spec fn spec_parse(input: Tokens, pos: nat) -> Outcome<Tree> {
        spec_else_if_branch(input, pos)
    }

    fn parse(t: &mut TokenStream) -> (r: Result<Self, ParsingError>) {
        parse_else_if_branch(t)
    }
}

impl Parseable for ElseBranch {
    open spec fn parse_tree(&self) -> Tree {
        tree_else_branch(*self)
    }

    open spec fn spec_parse(input: Tokens, pos: nat) -> Outcome<Tree> {
        spec_else_branch(input, pos)
    }

    fn parse(t: &mut TokenStream) -> (r: Result<Self, ParsingError>) {
        parse_else_branch(t)
    }
}

impl Parseable for FunctionCall {
    open spec fn parse_tree(&self) -> Tree {
        tree_function_call(*self)
    }

    open spec fn spec_parse(input: Tokens, pos: nat) -> Outcome<Tree> {
        spec_function_call(input, pos)
    }

    fn parse(t: &mut TokenStream) -> (r: Result<Self, ParsingError>) {
        parse_function_call(t)
    }
}

impl Parseable for FunctionCallBody {
    open spec fn parse_tree(&self) -> Tree {
        tree_function_call_body(*self)
    }

    open spec fn spec_parse(input: Tokens, pos: nat) -> Outcome<Tree> {
        spec_function_call_body(input, pos)
    }

    fn parse(t: &mut TokenStream) -> (r: Result<Self, ParsingError>) {
        parse_function_call_body(t)
    }
}

impl Parseable for ArgList {
    open spec fn parse_tree(&self) -> Tree {
        tree_arg_list(*self)
    }

    open spec fn spec_parse(input: Tokens, pos: nat) -> Outcome<Tree> {
        spec_arg_list(input, pos)
    }

    fn parse(t: &mut TokenStream) -> (r: Result<Self, ParsingError>) {
        parse_arg_list(t)
    }
}

impl Parseable for StFunctionDef {
    open spec fn parse_tree(&self) -> Tree {
        tree_st_function_def(*self)
    }

    open spec fn spec_parse(input: Tokens, pos: nat) -> Outcome<Tree> {
        spec_st_function_def(input, pos)
    }

    fn parse(t: &mut TokenStream) -> (r: Result<Self, ParsingError>) {
        parse_st_function_def(t)
    }
}

impl Parseable for StLocalFunctionDef {
    open spec fn parse_tree(&self) -> Tree {
        tree_st_local_function_def(*self)
    }

    open spec fn spec_parse(input: Tokens, pos: nat) -> Outcome<Tree> {
        spec_st_local_function_def(input, pos)
    }

    fn parse(t: &mut TokenStream) -> (r: Result<Self, ParsingError>) {
        parse_st_local_function_def(t)
    }
}

impl Parseable for StLocalInit {
    open spec fn parse_tree(&self) -> Tree {
        tree_st_local_init(*self)
    }

    open spec fn spec_parse(input: Tokens, pos: nat) -> Outcome<Tree> {
        spec_st_local_init(input, pos)
    }

    fn parse(t: &mut TokenStream) -> (r: Result<Self, ParsingError>) {
        parse_st_local_init(t)
    }
}

impl Parseable for StGoto {
    open spec fn parse_tree(&self) -> Tree {
        tree_st_goto(*self)
    }

    open spec fn spec_parse(input: Tokens, pos: nat) -> Outcome<Tree> {
        spec_st_goto(input, pos)
    }

    fn parse(t: &mut TokenStream) -> (r: Result<Self, ParsingError>) {
        parse_st_goto(t)
    }
}

impl Parseable for StLabel {
    open spec fn parse_tree(&self) -> Tree {
        tree_st_label(*self)
    }

    open spec fn spec_parse(input: Tokens, pos: nat) -> Outcome<Tree> {
        spec_st_label(input, pos)
    }

    fn parse(t: &mut TokenStream) -> (r: Result<Self, ParsingError>) {
        parse_st_label(t)
    }
}

impl Parseable for StReturn {
    open spec fn parse_tree(&self) -> Tree {
        tree_st_return(*self)
    }

    open spec fn spec_parse(input: Tokens, pos: nat) -> Outcome<Tree> {
        spec_st_return(input, pos)
    }

    fn parse(t: &mut TokenStream) -> (r: Result<Self, ParsingError>) {
        parse_st_return(t)
    }
}

impl Parseable for StBreak {
    open spec fn parse_tree(&self) -> Tree {
        tree_st_break(*self)
    }

    open spec fn spec_parse(input: Tokens, pos: nat) -> Outcome<Tree> {
        spec_st_break(input, pos)
    }

    fn parse(t: &mut TokenStream) -> (r: Result<Self, ParsingError>) {
        parse_st_break(t)
    }
}

impl Parseable for FunctionBody {
    open spec fn parse_tree(&self) -> Tree {
        tree_function_body(*self)
    }

    open spec fn spec_parse(input: Tokens, pos: nat) -> Outcome<Tree> {
        spec_function_body(input, pos)
    }

    fn parse(t: &mut TokenStream) -> (r: Result<Self, ParsingError>) {
        parse_function_body(t)
    }
}

impl Parseable for ParList {
    open spec fn parse_tree(&self) -> Tree {
        tree_par_list(*self)
    }

    open spec fn spec_parse(input: Tokens, pos: nat) -> Outcome<Tree> {
        spec_par_list(input, pos)
    }

    fn parse(t: &mut TokenStream) -> (r: Result<Self, ParsingError>) {
        parse_par_list(t)
    }
}

impl Parseable for VarIndex {
    open spec fn parse_tree(&self) -> Tree {
        tree_var_index(*self)
    }

    open spec fn spec_parse(input: Tokens, pos: nat) -> Outcome<Tree> {
        spec_var_index(input, pos)
    }

    fn parse(t: &mut TokenStream) -> (r: Result<Self, ParsingError>) {
        parse_var_index(t)
    }
}

impl Parseable for VarIndexBody {
    open spec fn parse_tree(&self) -> Tree {
        tree_var_index_body(*self)
    }

    open spec fn spec_parse(input: Tokens, pos: nat) -> Outcome<Tree> {
        spec_var_index_body(input, pos)
    }

    fn parse(t: &mut TokenStream) -> (r: Result<Self, ParsingError>) {
        parse_var_index_body(t)
    }
}

impl Parseable for VarAccess {
    open spec fn parse_tree(&self) -> Tree {
        tree_var_access(*self)
    }

    open spec fn spec_parse(input: Tokens, pos: nat) -> Outcome<Tree> {
        spec_var_access(input, pos)
    }

    fn parse(t: &mut TokenStream) -> (r: Result<Self, ParsingError>) {
        parse_var_access(t)
    }
}

impl Parseable for VarAccessBody {
    open spec fn parse_tree(&self) -> Tree {
        tree_var_access_body(*self)
    }

    open spec fn spec_parse(input: Tokens, pos: nat) -> Outcome<Tree> {
        spec_var_access_body(input, pos)
    }

    fn parse(t: &mut TokenStream) -> (r: Result<Self, ParsingError>) {
        parse_var_access_body(t)
    }
}

impl Parseable for PrefixExp {
    open spec fn parse_tree(&self) -> Tree {
        tree_prefix_exp(*self)
    }

    open spec fn spec_parse(input: Tokens, pos: nat) -> Outcome<Tree> {
        spec_prefix_exp(input, pos)
    }

    fn parse(t: &mut TokenStream) -> (r: Result<Self, ParsingError>) {
        parse_prefix_exp(t)
    }
}

impl Parseable for PrefixParens {
    open spec fn parse_tree(&self) -> Tree {
        tree_prefix_parens(*self)
    }

    open spec fn spec_parse(input: Tokens, pos: nat) -> Outcome<Tree> {
        spec_prefix_parens(input, pos)
    }

    fn parse(t: &mut TokenStream) -> (r: Result<Self, ParsingError>) {
        parse_prefix_parens(t)
    }
}

impl Parseable for ExpFunction {
    open spec fn parse_tree(&self) -> Tree {
        tree_exp_function(*self)
    }

    open spec fn spec_parse(input: Tokens, pos: nat) -> Outcome<Tree> {
        spec_exp_function(input, pos)
    }

    fn parse(t: &mut TokenStream) -> (r: Result<Self, ParsingError>) {
        parse_exp_function(t)
    }
}

impl Parseable for TableConstructor {
    open spec fn parse_tree(&self) -> Tree {
        tree_table_constructor(*self)
    }

    open spec fn spec_parse(input: Tokens, pos: nat) -> Outcome<Tree> {
        spec_table_constructor(input, pos)
    }

    fn parse(t: &mut TokenStream) -> (r: Result<Self, ParsingError>) {
        parse_table_constructor(t)
    }
}

impl Parseable for MapField {
    open spec fn parse_tree(&self) -> Tree {
        tree_map_field(*self)
    }

    open spec fn spec_parse(input: Tokens, pos: nat) -> Outcome<Tree> {
        spec_map_field(input, pos)
    }

    fn parse(t: &mut TokenStream) -> (r: Result<Self, ParsingError>) {
        parse_map_field(t)
    }
}

impl Parseable for BracketField {
    open spec fn parse_tree(&self) -> Tree {
        tree_bracket_field(*self)
    }

    open spec fn spec_parse(input: Tokens, pos: nat) -> Outcome<Tree> {
        spec_bracket_field(input, pos)
    }

    fn parse(t: &mut TokenStream) -> (r: Result<Self, ParsingError>) {
        parse_bracket_field(t)
    }
}

impl Parseable for Statement {
    open spec fn parse_tree(&self) -> Tree {
        tree_statement(*self)
    }

    open spec fn spec_parse(input: Tokens, pos: nat) -> Outcome<Tree> {
        spec_statement(input, pos)
    }

    fn parse(t: &mut TokenStream) -> (r: Result<Self, ParsingError>) {
        parse_statement(t)
    }
}

impl Parseable for FunctionArgs {
    open spec fn parse_tree(&self) -> Tree {
        tree_function_args(*self)
    }

    open spec fn spec_parse(input: Tokens, pos: nat) -> Outcome<Tree> {
        spec_function_args(input, pos)
    }

    fn parse(t: &mut TokenStream) -> (r: Result<Self, ParsingError>) {
        parse_function_args(t)
    }
}

impl Parseable for LastStatement {
    open spec fn parse_tree(&self) -> Tree {
        tree_last_statement(*self)
    }

    open spec fn spec_parse(input: Tokens, pos: nat) -> Outcome<Tree> {
        spec_last_statement(input, pos)
    }

    fn parse(t: &mut TokenStream) -> (r: Result<Self, ParsingError>) {
        parse_last_statement(t)
    }
}

impl Parseable for Var {
    open spec fn parse_tree(&self) -> Tree {
        tree_var(*self)
    }

    open spec fn spec_parse(input: Tokens, pos: nat) -> Outcome<Tree> {
        spec_var(input, pos)
    }

    fn parse(t: &mut TokenStream) -> (r: Result<Self, ParsingError>) {
        parse_var(t)
    }
}

impl Parseable for PrefixExpKind {
    open spec fn parse_tree(&self) -> Tree {
        tree_prefix_exp_kind(*self)
    }

    open spec fn spec_parse(input: Tokens, pos: nat) -> Outcome<Tree> {
        spec_prefix_exp_kind(input, pos)
    }

    fn parse(t: &mut TokenStream) -> (r: Result<Self, ParsingError>) {
        parse_prefix_exp_kind(t)
    }
}

impl Parseable for PrefixExpSuffix {
    open spec fn parse_tree(&self) -> Tree {
        tree_prefix_exp_suffix(*self)
    }

    open spec fn spec_parse(input: Tokens, pos: nat) -> Outcome<Tree> {
        spec_prefix_exp_suffix(input, pos)
    }

    fn parse(t: &mut TokenStream) -> (r: Result<Self, ParsingError>) {
        parse_prefix_exp_suffix(t)
    }
}

impl Parseable for ExpAtom {
    open spec fn parse_tree(&self) -> Tree {
        tree_exp_atom(*self)
    }

    open spec fn spec_parse(input: Tokens, pos: nat) -> Outcome<Tree> {
        spec_exp_atom(input, pos)
    }

    fn parse(t: &mut TokenStream) -> (r: Result<Self, ParsingError>) {
        parse_exp_atom(t)
    }
}

impl Parseable for BinaryOperand {
    open spec fn parse_tree(&self) -> Tree {
        tree_binary_operand(*self)
    }

    open spec fn spec_parse(input: Tokens, pos: nat) -> Outcome<Tree> {
        spec_binary_operand(input, pos)
    }

    fn parse(t: &mut TokenStream) -> (r: Result<Self, ParsingError>) {
        parse_binary_operand(t)
    }
}

impl Parseable for UnaryOperand {
    open spec fn parse_tree(&self) -> Tree {
        tree_unary_operand(*self)
    }

    open spec fn spec_parse(input: Tokens, pos: nat) -> Outcome<Tree> {
        spec_unary_operand(input, pos)
    }

    fn parse(t: &mut TokenStream) -> (r: Result<Self, ParsingError>) {
        parse_unary_operand(t)
    }
}

impl Parseable for FieldSep {
    open spec fn parse_tree(&self) -> Tree {
        tree_field_sep(*self)
    }

    open spec fn spec_parse(input: Tokens, pos: nat) -> Outcome<Tree> {
        spec_field_sep(input, pos)
    }

    fn parse(t: &mut TokenStream) -> (r: Result<Self, ParsingError>) {
        parse_field_sep(t)
    }
}

impl Parseable for Field {
    open spec fn parse_tree(&self) -> Tree {
        tree_field(*self)
    }

    open spec fn spec_parse(input: Tokens, pos: nat) -> Outcome<Tree> {
        spec_field(input, pos)
    }

    fn parse(t: &mut TokenStream) -> (r: Result<Self, ParsingError>) {
        parse_field(t)
    }
}

impl Parseable for ExpLiteral {
    open spec fn parse_tree(&self) -> Tree {
        tree_exp_literal(*self)
    }

    open spec fn spec_parse(input: Tokens, pos: nat) -> Outcome<Tree> {
        spec_exp_literal(input, pos)
    }

    fn parse(t: &mut TokenStream) -> (r: Result<Self, ParsingError>) {
        parse_exp_literal(t)
    }
}

impl Parseable for FunctionName {
    open spec fn parse_tree(&self) -> Tree {
        tree_function_name(*self)
    }

    open spec fn spec_parse(input: Tokens, pos: nat) -> Outcome<Tree> {
        spec_function_name(input, pos)
    }

    fn parse(t: &mut TokenStream) -> (r: Result<Self, ParsingError>) {
        parse_function_name(t)
    }
}

impl Parseable for Exp {
    open spec fn parse_tree(&self) -> Tree {
        tree_exp(*self)
    }

    open spec fn spec_parse(input: Tokens, pos: nat) -> Outcome<Tree> {
        spec_exp(input, pos)
    }

    fn parse(t: &mut TokenStream) -> (r: Result<Self, ParsingError>) {
        parse_exp(t)
    }
}

} // verus!
