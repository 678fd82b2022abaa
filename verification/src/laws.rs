//! Laws of the tokenizer and the parsers: what holds of every input.

use vstd::prelude::*;

use crate::element::{Separated, SeparatedNoTrailing, SeparatedTrailing};
use crate::grammar::{
    spec_arg_list, spec_attribute, spec_binary_operand, spec_bracket_field, spec_chunk,
    spec_else_branch, spec_else_if_branch, spec_exp_atom, spec_exp_function, spec_exp_literal,
    spec_field, spec_field_sep, spec_function_args, spec_function_body, spec_function_call,
    spec_function_call_body, spec_if_branch, spec_last_statement, spec_map_field, spec_par_list,
    spec_prefix_exp, spec_prefix_exp_kind, spec_prefix_exp_suffix, spec_prefix_parens,
    spec_st_assign, spec_st_block, spec_st_break, spec_st_for_in_loop, spec_st_for_range_loop,
    spec_st_function_def, spec_st_goto, spec_st_if_else, spec_st_label, spec_st_local_function_def,
    spec_st_local_init, spec_st_repeat_loop, spec_st_return, spec_st_while_loop, spec_statement,
    spec_stmt_semi, spec_stmts, spec_stmts_items, spec_table_constructor, spec_unary_operand,
    spec_var, spec_var_access, spec_var_access_body, spec_var_index, spec_var_index_body,
};
use crate::parse::{
    perr, spec_list_items, spec_pair_items, spec_separated_items, rem, Outcome, Parseable, Tree,
};
use crate::tokenize::{
    peek_at, at, is_keyword, is_symbol, keyword_prefix, keyword_token, lemma_scan_end, lex, scan_end, skip_ws,
    spec_exponent, spec_next_token, spec_number, spec_string, starts, string_body, symbol_token,
    in_class, ByteClass, Tokens,
};
use crate::progress::chunk_parse_progresses;
use crate::token::QuoteType;
use crate::Span;
use crate::unfold::{
    lemma_spec_arg_list, lemma_spec_attribute, lemma_spec_bracket_field, lemma_spec_chunk,
    lemma_spec_else_branch, lemma_spec_else_if_branch, lemma_spec_exp_atom,
    lemma_spec_exp_function, lemma_spec_exp_literal, lemma_spec_field, lemma_spec_field_sep,
    lemma_spec_function_args, lemma_spec_function_body, lemma_spec_function_call,
    lemma_spec_function_call_body, lemma_spec_if_branch, lemma_spec_last_statement,
    lemma_spec_map_field, lemma_spec_opt_last, lemma_spec_par_list, lemma_spec_prefix_exp,
    lemma_spec_prefix_exp_kind, lemma_spec_prefix_exp_suffix, lemma_spec_prefix_parens,
    lemma_spec_st_assign, lemma_spec_st_block, lemma_spec_st_break, lemma_spec_st_for_in_loop,
    lemma_spec_st_for_range_loop, lemma_spec_st_function_def, lemma_spec_st_goto,
    lemma_spec_st_if_else, lemma_spec_st_label, lemma_spec_st_local_function_def,
    lemma_spec_st_local_init, lemma_spec_st_repeat_loop, lemma_spec_st_return,
    lemma_spec_st_while_loop, lemma_spec_statement, lemma_spec_stmts, lemma_spec_stmts_items,
    lemma_spec_table_constructor, lemma_spec_var, lemma_spec_var_access,
    lemma_spec_var_access_body, lemma_spec_var_index, lemma_spec_var_index_body,
};

verus! {

/// An optional element never fails to parse: it is there, or it is absent
/// and the cursor stays where it was.
pub proof fn option_parse_never_fails<T: Parseable>(input: Tokens, pos: nat)
    requires
        !(T::spec_parse(input, pos) is Panics),
    ensures
        <Option<T> as Parseable>::spec_parse(input, pos) matches Outcome::Returns(Ok(tr), p)
            && (tr == Tree::Opt(None) ==> p == pos),
{
}

proof fn lemma_list_items_ok<T: Parseable>(input: Tokens, pos: nat)
    requires
        !(spec_list_items::<T>(input, pos) is Panics),
    ensures
        spec_list_items::<T>(input, pos) matches Outcome::Returns(Ok(_), _),
    decreases rem(input, pos),
{
    if let Outcome::Returns(Ok(_), p) = T::spec_parse(input, pos) {
        if pos < p && p <= input.tokens.len() {
            lemma_list_items_ok::<T>(input, p);
        }
    }
}

proof fn lemma_pair_items_ok<T: Parseable, S: Parseable>(input: Tokens, pos: nat)
    requires
        !(spec_pair_items::<T, S>(input, pos) is Panics),
    ensures
        spec_pair_items::<T, S>(input, pos) matches Outcome::Returns(Ok(_), _),
    decreases rem(input, pos),
{
    if let Outcome::Returns(Ok(_), p1) = T::spec_parse(input, pos) {
        if let Outcome::Returns(Ok(_), p2) = S::spec_parse(input, p1) {
            if pos < p2 && p2 <= input.tokens.len() {
                lemma_pair_items_ok::<T, S>(input, p2);
            }
        }
    }
}

proof fn lemma_separated_items_ok<T: Parseable, S: Parseable>(input: Tokens, pos: nat)
    requires
        !(spec_separated_items::<T, S>(input, pos) is Panics),
    ensures
        spec_separated_items::<T, S>(input, pos) matches Outcome::Returns(Ok(_), _),
    decreases rem(input, pos),
{
    if let Outcome::Returns(Ok(_), p1) = T::spec_parse(input, pos) {
        if let Outcome::Returns(Ok(_), p2) = S::spec_parse(input, p1) {
            if pos < p2 && p2 <= input.tokens.len() {
                lemma_separated_items_ok::<T, S>(input, p2);
            }
        }
    }
}

/// A list of elements never fails to parse: it ends before the first element
/// that does not parse.
pub proof fn list_parse_never_fails<T: Parseable>(input: Tokens, pos: nat)
    requires
        !(<Vec<T> as Parseable>::spec_parse(input, pos) is Panics),
    ensures
        <Vec<T> as Parseable>::spec_parse(input, pos) matches Outcome::Returns(Ok(_), _),
{
    lemma_list_items_ok::<T>(input, pos);
}

/// A list of separated elements without a trailing one never fails to parse.
pub proof fn separated_no_trailing_parse_never_fails<T: Parseable, S: Parseable>(input: Tokens, pos: nat)
    requires
        !(<SeparatedNoTrailing<T, S> as Parseable>::spec_parse(input, pos) is Panics),
    ensures
        <SeparatedNoTrailing<T, S> as Parseable>::spec_parse(input, pos) matches Outcome::Returns(
            Ok(_),
            _,
        ),
{
    lemma_pair_items_ok::<T, S>(input, pos);
}

/// A list of separated elements, with or without a trailing one, never fails
/// to parse.
pub proof fn separated_parse_never_fails<T: Parseable, S: Parseable>(input: Tokens, pos: nat)
    requires
        !(<Separated<T, S> as Parseable>::spec_parse(input, pos) is Panics),
    ensures
        <Separated<T, S> as Parseable>::spec_parse(input, pos) matches Outcome::Returns(Ok(_), _),
{
    lemma_separated_items_ok::<T, S>(input, pos);
}

proof fn lemma_list_items_stop<T: Parseable>(input: Tokens, pos: nat)
    ensures
        spec_list_items::<T>(input, pos) matches Outcome::Returns(Ok(_), p) ==> T::spec_parse(
            input,
            p,
        ) matches Outcome::Returns(Err(_), _),
    decreases rem(input, pos),
{
    if let Outcome::Returns(Ok(_), p) = T::spec_parse(input, pos) {
        if pos < p && p <= input.tokens.len() {
            lemma_list_items_stop::<T>(input, p);
        }
    }
}

/// Where the next pair of an item and a separator does not parse at `p`.
pub open spec fn no_pair_at<T: Parseable, S: Parseable>(input: Tokens, p: nat) -> bool {
    match T::spec_parse(input, p) {
        Outcome::Returns(Ok(_), p1) => S::spec_parse(input, p1) matches Outcome::Returns(Err(_), _),
        Outcome::Returns(Err(_), _) => true,
        Outcome::Panics => false,
    }
}

proof fn lemma_pair_items_stop<T: Parseable, S: Parseable>(input: Tokens, pos: nat)
    ensures
        spec_pair_items::<T, S>(input, pos) matches Outcome::Returns(Ok(_), p) ==> no_pair_at::<T, S>(input, p),
    decreases rem(input, pos),
{
    if let Outcome::Returns(Ok(_), p1) = T::spec_parse(input, pos) {
        if let Outcome::Returns(Ok(_), p2) = S::spec_parse(input, p1) {
            if pos < p2 && p2 <= input.tokens.len() {
                lemma_pair_items_stop::<T, S>(input, p2);
            }
        }
    }
}

proof fn lemma_separated_items_stop<T: Parseable, S: Parseable>(input: Tokens, pos: nat)
    ensures
        spec_separated_items::<T, S>(input, pos) matches Outcome::Returns(Ok((_, last)), p) ==> match last {
            Some(_) => S::spec_parse(input, p) matches Outcome::Returns(Err(_), _),
            None => T::spec_parse(input, p) matches Outcome::Returns(Err(_), _),
        },
    decreases rem(input, pos),
{
    if let Outcome::Returns(Ok(_), p1) = T::spec_parse(input, pos) {
        if let Outcome::Returns(Ok(_), p2) = S::spec_parse(input, p1) {
            if pos < p2 && p2 <= input.tokens.len() {
                lemma_separated_items_stop::<T, S>(input, p2);
            }
        }
    }
}

/// A list takes as many elements as parse: the element after it does not.
pub proof fn list_parse_is_maximal<T: Parseable>(input: Tokens, pos: nat)
    ensures
        <Vec<T> as Parseable>::spec_parse(input, pos) matches Outcome::Returns(Ok(_), p)
            ==> T::spec_parse(input, p) matches Outcome::Returns(Err(_), _),
{
    lemma_list_items_stop::<T>(input, pos);
}

/// A separated list without a trailing element takes as many pairs as parse:
/// after it, no further element and separator do.
pub proof fn separated_no_trailing_parse_is_maximal<T: Parseable, S: Parseable>(input: Tokens, pos: nat)
    ensures
        <SeparatedNoTrailing<T, S> as Parseable>::spec_parse(input, pos) matches Outcome::Returns(Ok(_), p)
            ==> no_pair_at::<T, S>(input, p),
{
    lemma_pair_items_stop::<T, S>(input, pos);
}

/// A separated list takes as many pairs as parse, then an element without a
/// separator if one parses, and ends after it: with a last element no
/// separator follows, and without one no element follows.
pub proof fn separated_parse_is_maximal<T: Parseable, S: Parseable>(input: Tokens, pos: nat)
    ensures
        <Separated<T, S> as Parseable>::spec_parse(input, pos) matches Outcome::Returns(Ok(tr), p) ==> {
            &&& (tr matches Tree::Choice(i, _) && i == 0) ==> (S::spec_parse(input, p) matches Outcome::Returns(
                Err(_),
                _,
            ))
            &&& (tr matches Tree::Choice(i, _) && i == 1) ==> (T::spec_parse(input, p) matches Outcome::Returns(
                Err(_),
                _,
            ))
        },
{
    lemma_separated_items_stop::<T, S>(input, pos);
}

/// A separated list with a trailing element ends after that element, where
/// no separator follows.
pub proof fn trailing_list_parse_ends_after_last<T: Parseable, S: Parseable>(input: Tokens, pos: nat)
    ensures
        <SeparatedTrailing<T, S> as Parseable>::spec_parse(input, pos) matches Outcome::Returns(Ok(_), p)
            ==> S::spec_parse(input, p) matches Outcome::Returns(Err(_), _),
{
    lemma_pair_items_stop::<T, S>(input, pos);
}

proof fn lemma_stmts_items_ok(input: Tokens, pos: nat)
    requires
        !(spec_stmts_items(input, pos) is Panics),
    ensures
        spec_stmts_items(input, pos) matches Outcome::Returns(Ok(_), _),
    decreases rem(input, pos),
{
    lemma_spec_stmts_items(input, pos);
    if let Outcome::Returns(Ok(_), p) = spec_stmt_semi(input, pos) {
        if pos < p && p <= input.tokens.len() {
            lemma_stmts_items_ok(input, p);
        }
    }
}

/// A chunk never fails to parse: its statements and its closing statement are
/// all optional.
pub proof fn chunk_parse_never_fails(input: Tokens, pos: nat)
    ensures
        spec_chunk(input, pos) matches Outcome::Returns(Ok(_), _),
{
    chunk_parse_progresses(input, pos);
    lemma_spec_chunk(input, pos);
    lemma_spec_stmts(input, pos);
    lemma_stmts_items_ok(input, pos);
    if let Outcome::Returns(Ok(_), p) = spec_stmts(input, pos) {
        lemma_spec_opt_last(input, p);
    }
}

#[verifier::spinoff_prover]
proof fn lemma_chunk_restores(input: Tokens, pos: nat)
    ensures
        spec_chunk(input, pos) matches Outcome::Returns(Err(_), p) ==> p == pos,
{
    lemma_spec_chunk(input, pos);
}

#[verifier::spinoff_prover]
proof fn lemma_st_assign_restores(input: Tokens, pos: nat)
    ensures
        spec_st_assign(input, pos) matches Outcome::Returns(Err(_), p) ==> p == pos,
{
    lemma_spec_st_assign(input, pos);
}

#[verifier::spinoff_prover]
proof fn lemma_st_block_restores(input: Tokens, pos: nat)
    ensures
        spec_st_block(input, pos) matches Outcome::Returns(Err(_), p) ==> p == pos,
{
    lemma_spec_st_block(input, pos);
}

#[verifier::spinoff_prover]
proof fn lemma_attribute_restores(input: Tokens, pos: nat)
    ensures
        spec_attribute(input, pos) matches Outcome::Returns(Err(_), p) ==> p == pos,
{
    lemma_spec_attribute(input, pos);
}

#[verifier::spinoff_prover]
proof fn lemma_st_while_loop_restores(input: Tokens, pos: nat)
    ensures
        spec_st_while_loop(input, pos) matches Outcome::Returns(Err(_), p) ==> p == pos,
{
    lemma_spec_st_while_loop(input, pos);
}

#[verifier::spinoff_prover]
proof fn lemma_st_repeat_loop_restores(input: Tokens, pos: nat)
    ensures
        spec_st_repeat_loop(input, pos) matches Outcome::Returns(Err(_), p) ==> p == pos,
{
    lemma_spec_st_repeat_loop(input, pos);
}

#[verifier::spinoff_prover]
proof fn lemma_st_for_range_loop_restores(input: Tokens, pos: nat)
    ensures
        spec_st_for_range_loop(input, pos) matches Outcome::Returns(Err(_), p) ==> p == pos,
{
    lemma_spec_st_for_range_loop(input, pos);
}

#[verifier::spinoff_prover]
proof fn lemma_st_for_in_loop_restores(input: Tokens, pos: nat)
    ensures
        spec_st_for_in_loop(input, pos) matches Outcome::Returns(Err(_), p) ==> p == pos,
{
    lemma_spec_st_for_in_loop(input, pos);
}

#[verifier::spinoff_prover]
proof fn lemma_st_if_else_restores(input: Tokens, pos: nat)
    ensures
        spec_st_if_else(input, pos) matches Outcome::Returns(Err(_), p) ==> p == pos,
{
    lemma_spec_st_if_else(input, pos);
}

#[verifier::spinoff_prover]
proof fn lemma_if_branch_restores(input: Tokens, pos: nat)
    ensures
        spec_if_branch(input, pos) matches Outcome::Returns(Err(_), p) ==> p == pos,
{
    lemma_spec_if_branch(input, pos);
}

#[verifier::spinoff_prover]
proof fn lemma_else_if_branch_restores(input: Tokens, pos: nat)
    ensures
        spec_else_if_branch(input, pos) matches Outcome::Returns(Err(_), p) ==> p == pos,
{
    lemma_spec_else_if_branch(input, pos);
}

#[verifier::spinoff_prover]
proof fn lemma_else_branch_restores(input: Tokens, pos: nat)
    ensures
        spec_else_branch(input, pos) matches Outcome::Returns(Err(_), p) ==> p == pos,
{
    lemma_spec_else_branch(input, pos);
}

#[verifier::spinoff_prover]
proof fn lemma_function_call_restores(input: Tokens, pos: nat)
    ensures
        spec_function_call(input, pos) matches Outcome::Returns(Err(_), p) ==> p == pos,
{
    lemma_spec_function_call(input, pos);
}

#[verifier::spinoff_prover]
proof fn lemma_function_call_body_restores(input: Tokens, pos: nat)
    ensures
        spec_function_call_body(input, pos) matches Outcome::Returns(Err(_), p) ==> p == pos,
{
    lemma_spec_function_call_body(input, pos);
}

#[verifier::spinoff_prover]
proof fn lemma_arg_list_restores(input: Tokens, pos: nat)
    ensures
        spec_arg_list(input, pos) matches Outcome::Returns(Err(_), p) ==> p == pos,
{
    lemma_spec_arg_list(input, pos);
}

#[verifier::spinoff_prover]
proof fn lemma_st_function_def_restores(input: Tokens, pos: nat)
    ensures
        spec_st_function_def(input, pos) matches Outcome::Returns(Err(_), p) ==> p == pos,
{
    lemma_spec_st_function_def(input, pos);
}

#[verifier::spinoff_prover]
proof fn lemma_st_local_function_def_restores(input: Tokens, pos: nat)
    ensures
        spec_st_local_function_def(input, pos) matches Outcome::Returns(Err(_), p) ==> p == pos,
{
    lemma_spec_st_local_function_def(input, pos);
}

#[verifier::spinoff_prover]
proof fn lemma_st_local_init_restores(input: Tokens, pos: nat)
    ensures
        spec_st_local_init(input, pos) matches Outcome::Returns(Err(_), p) ==> p == pos,
{
    lemma_spec_st_local_init(input, pos);
}

#[verifier::spinoff_prover]
proof fn lemma_st_goto_restores(input: Tokens, pos: nat)
    ensures
        spec_st_goto(input, pos) matches Outcome::Returns(Err(_), p) ==> p == pos,
{
    lemma_spec_st_goto(input, pos);
}

#[verifier::spinoff_prover]
proof fn lemma_st_label_restores(input: Tokens, pos: nat)
    ensures
        spec_st_label(input, pos) matches Outcome::Returns(Err(_), p) ==> p == pos,
{
    lemma_spec_st_label(input, pos);
}

#[verifier::spinoff_prover]
proof fn lemma_st_return_restores(input: Tokens, pos: nat)
    ensures
        spec_st_return(input, pos) matches Outcome::Returns(Err(_), p) ==> p == pos,
{
    lemma_spec_st_return(input, pos);
}

#[verifier::spinoff_prover]
proof fn lemma_st_break_restores(input: Tokens, pos: nat)
    ensures
        spec_st_break(input, pos) matches Outcome::Returns(Err(_), p) ==> p == pos,
{
    lemma_spec_st_break(input, pos);
}

#[verifier::spinoff_prover]
proof fn lemma_function_body_restores(input: Tokens, pos: nat)
    ensures
        spec_function_body(input, pos) matches Outcome::Returns(Err(_), p) ==> p == pos,
{
    lemma_spec_function_body(input, pos);
}

#[verifier::spinoff_prover]
proof fn lemma_par_list_restores(input: Tokens, pos: nat)
    ensures
        spec_par_list(input, pos) matches Outcome::Returns(Err(_), p) ==> p == pos,
{
    lemma_spec_par_list(input, pos);
}

#[verifier::spinoff_prover]
proof fn lemma_var_index_restores(input: Tokens, pos: nat)
    ensures
        spec_var_index(input, pos) matches Outcome::Returns(Err(_), p) ==> p == pos,
{
    lemma_spec_var_index(input, pos);
}

#[verifier::spinoff_prover]
proof fn lemma_var_index_body_restores(input: Tokens, pos: nat)
    ensures
        spec_var_index_body(input, pos) matches Outcome::Returns(Err(_), p) ==> p == pos,
{
    lemma_spec_var_index_body(input, pos);
}

#[verifier::spinoff_prover]
proof fn lemma_var_access_restores(input: Tokens, pos: nat)
    ensures
        spec_var_access(input, pos) matches Outcome::Returns(Err(_), p) ==> p == pos,
{
    lemma_spec_var_access(input, pos);
}

#[verifier::spinoff_prover]
proof fn lemma_var_access_body_restores(input: Tokens, pos: nat)
    ensures
        spec_var_access_body(input, pos) matches Outcome::Returns(Err(_), p) ==> p == pos,
{
    lemma_spec_var_access_body(input, pos);
}

#[verifier::spinoff_prover]
proof fn lemma_prefix_exp_restores(input: Tokens, pos: nat)
    ensures
        spec_prefix_exp(input, pos) matches Outcome::Returns(Err(_), p) ==> p == pos,
{
    lemma_spec_prefix_exp(input, pos);
}

#[verifier::spinoff_prover]
proof fn lemma_prefix_parens_restores(input: Tokens, pos: nat)
    ensures
        spec_prefix_parens(input, pos) matches Outcome::Returns(Err(_), p) ==> p == pos,
{
    lemma_spec_prefix_parens(input, pos);
}

#[verifier::spinoff_prover]
proof fn lemma_exp_function_restores(input: Tokens, pos: nat)
    ensures
        spec_exp_function(input, pos) matches Outcome::Returns(Err(_), p) ==> p == pos,
{
    lemma_spec_exp_function(input, pos);
}

#[verifier::spinoff_prover]
proof fn lemma_table_constructor_restores(input: Tokens, pos: nat)
    ensures
        spec_table_constructor(input, pos) matches Outcome::Returns(Err(_), p) ==> p == pos,
{
    lemma_spec_table_constructor(input, pos);
}

#[verifier::spinoff_prover]
proof fn lemma_map_field_restores(input: Tokens, pos: nat)
    ensures
        spec_map_field(input, pos) matches Outcome::Returns(Err(_), p) ==> p == pos,
{
    lemma_spec_map_field(input, pos);
}

#[verifier::spinoff_prover]
proof fn lemma_bracket_field_restores(input: Tokens, pos: nat)
    ensures
        spec_bracket_field(input, pos) matches Outcome::Returns(Err(_), p) ==> p == pos,
{
    lemma_spec_bracket_field(input, pos);
}

#[verifier::spinoff_prover]
proof fn lemma_statement_restores(input: Tokens, pos: nat)
    ensures
        spec_statement(input, pos) matches Outcome::Returns(Err(_), p) ==> p == pos,
{
    lemma_spec_statement(input, pos);
}

#[verifier::spinoff_prover]
proof fn lemma_function_args_restores(input: Tokens, pos: nat)
    ensures
        spec_function_args(input, pos) matches Outcome::Returns(Err(_), p) ==> p == pos,
{
    lemma_spec_function_args(input, pos);
}

#[verifier::spinoff_prover]
proof fn lemma_last_statement_restores(input: Tokens, pos: nat)
    ensures
        spec_last_statement(input, pos) matches Outcome::Returns(Err(_), p) ==> p == pos,
{
    lemma_spec_last_statement(input, pos);
}

#[verifier::spinoff_prover]
proof fn lemma_var_restores(input: Tokens, pos: nat)
    ensures
        spec_var(input, pos) matches Outcome::Returns(Err(_), p) ==> p == pos,
{
    lemma_spec_var(input, pos);
}

#[verifier::spinoff_prover]
proof fn lemma_prefix_exp_kind_restores(input: Tokens, pos: nat)
    ensures
        spec_prefix_exp_kind(input, pos) matches Outcome::Returns(Err(_), p) ==> p == pos,
{
    lemma_spec_prefix_exp_kind(input, pos);
}

#[verifier::spinoff_prover]
proof fn lemma_prefix_exp_suffix_restores(input: Tokens, pos: nat)
    ensures
        spec_prefix_exp_suffix(input, pos) matches Outcome::Returns(Err(_), p) ==> p == pos,
{
    lemma_spec_prefix_exp_suffix(input, pos);
}

#[verifier::spinoff_prover]
proof fn lemma_exp_atom_restores(input: Tokens, pos: nat)
    ensures
        spec_exp_atom(input, pos) matches Outcome::Returns(Err(_), p) ==> p == pos,
{
    lemma_spec_exp_atom(input, pos);
}

#[verifier::spinoff_prover]
proof fn lemma_field_sep_restores(input: Tokens, pos: nat)
    ensures
        spec_field_sep(input, pos) matches Outcome::Returns(Err(_), p) ==> p == pos,
{
    lemma_spec_field_sep(input, pos);
}

#[verifier::spinoff_prover]
proof fn lemma_field_restores(input: Tokens, pos: nat)
    ensures
        spec_field(input, pos) matches Outcome::Returns(Err(_), p) ==> p == pos,
{
    lemma_spec_field(input, pos);
}

#[verifier::spinoff_prover]
proof fn lemma_exp_literal_restores(input: Tokens, pos: nat)
    ensures
        spec_exp_literal(input, pos) matches Outcome::Returns(Err(_), p) ==> p == pos,
{
    lemma_spec_exp_literal(input, pos);
}

/// A syntax element that fails to parse leaves the cursor where it was: a
/// struct gives back every field it took, an enum every variant it tried.
pub proof fn failed_element_parse_restores(input: Tokens, pos: nat)
    ensures
        spec_chunk(input, pos) matches Outcome::Returns(Err(_), p) ==> p == pos,
        spec_st_assign(input, pos) matches Outcome::Returns(Err(_), p) ==> p == pos,
        spec_st_block(input, pos) matches Outcome::Returns(Err(_), p) ==> p == pos,
        spec_attribute(input, pos) matches Outcome::Returns(Err(_), p) ==> p == pos,
        spec_st_while_loop(input, pos) matches Outcome::Returns(Err(_), p) ==> p == pos,
        spec_st_repeat_loop(input, pos) matches Outcome::Returns(Err(_), p) ==> p == pos,
        spec_st_for_range_loop(input, pos) matches Outcome::Returns(Err(_), p) ==> p == pos,
        spec_st_for_in_loop(input, pos) matches Outcome::Returns(Err(_), p) ==> p == pos,
        spec_st_if_else(input, pos) matches Outcome::Returns(Err(_), p) ==> p == pos,
        spec_if_branch(input, pos) matches Outcome::Returns(Err(_), p) ==> p == pos,
        spec_else_if_branch(input, pos) matches Outcome::Returns(Err(_), p) ==> p == pos,
        spec_else_branch(input, pos) matches Outcome::Returns(Err(_), p) ==> p == pos,
        spec_function_call(input, pos) matches Outcome::Returns(Err(_), p) ==> p == pos,
        spec_function_call_body(input, pos) matches Outcome::Returns(Err(_), p) ==> p == pos,
        spec_arg_list(input, pos) matches Outcome::Returns(Err(_), p) ==> p == pos,
        spec_st_function_def(input, pos) matches Outcome::Returns(Err(_), p) ==> p == pos,
        spec_st_local_function_def(input, pos) matches Outcome::Returns(Err(_), p) ==> p == pos,
        spec_st_local_init(input, pos) matches Outcome::Returns(Err(_), p) ==> p == pos,
        spec_st_goto(input, pos) matches Outcome::Returns(Err(_), p) ==> p == pos,
        spec_st_label(input, pos) matches Outcome::Returns(Err(_), p) ==> p == pos,
        spec_st_return(input, pos) matches Outcome::Returns(Err(_), p) ==> p == pos,
        spec_st_break(input, pos) matches Outcome::Returns(Err(_), p) ==> p == pos,
        spec_function_body(input, pos) matches Outcome::Returns(Err(_), p) ==> p == pos,
        spec_par_list(input, pos) matches Outcome::Returns(Err(_), p) ==> p == pos,
        spec_var_index(input, pos) matches Outcome::Returns(Err(_), p) ==> p == pos,
        spec_var_index_body(input, pos) matches Outcome::Returns(Err(_), p) ==> p == pos,
        spec_var_access(input, pos) matches Outcome::Returns(Err(_), p) ==> p == pos,
        spec_var_access_body(input, pos) matches Outcome::Returns(Err(_), p) ==> p == pos,
        spec_prefix_exp(input, pos) matches Outcome::Returns(Err(_), p) ==> p == pos,
        spec_prefix_parens(input, pos) matches Outcome::Returns(Err(_), p) ==> p == pos,
        spec_exp_function(input, pos) matches Outcome::Returns(Err(_), p) ==> p == pos,
        spec_table_constructor(input, pos) matches Outcome::Returns(Err(_), p) ==> p == pos,
        spec_map_field(input, pos) matches Outcome::Returns(Err(_), p) ==> p == pos,
        spec_bracket_field(input, pos) matches Outcome::Returns(Err(_), p) ==> p == pos,
        spec_statement(input, pos) matches Outcome::Returns(Err(_), p) ==> p == pos,
        spec_function_args(input, pos) matches Outcome::Returns(Err(_), p) ==> p == pos,
        spec_last_statement(input, pos) matches Outcome::Returns(Err(_), p) ==> p == pos,
        spec_var(input, pos) matches Outcome::Returns(Err(_), p) ==> p == pos,
        spec_prefix_exp_kind(input, pos) matches Outcome::Returns(Err(_), p) ==> p == pos,
        spec_prefix_exp_suffix(input, pos) matches Outcome::Returns(Err(_), p) ==> p == pos,
        spec_exp_atom(input, pos) matches Outcome::Returns(Err(_), p) ==> p == pos,
        spec_field_sep(input, pos) matches Outcome::Returns(Err(_), p) ==> p == pos,
        spec_field(input, pos) matches Outcome::Returns(Err(_), p) ==> p == pos,
        spec_exp_literal(input, pos) matches Outcome::Returns(Err(_), p) ==> p == pos,
        spec_binary_operand(input, pos) matches Outcome::Returns(Err(_), p) ==> p == pos,
        spec_unary_operand(input, pos) matches Outcome::Returns(Err(_), p) ==> p == pos,
{
    lemma_chunk_restores(input, pos);
    lemma_st_assign_restores(input, pos);
    lemma_st_block_restores(input, pos);
    lemma_attribute_restores(input, pos);
    lemma_st_while_loop_restores(input, pos);
    lemma_st_repeat_loop_restores(input, pos);
    lemma_st_for_range_loop_restores(input, pos);
    lemma_st_for_in_loop_restores(input, pos);
    lemma_st_if_else_restores(input, pos);
    lemma_if_branch_restores(input, pos);
    lemma_else_if_branch_restores(input, pos);
    lemma_else_branch_restores(input, pos);
    lemma_function_call_restores(input, pos);
    lemma_function_call_body_restores(input, pos);
    lemma_arg_list_restores(input, pos);
    lemma_st_function_def_restores(input, pos);
    lemma_st_local_function_def_restores(input, pos);
    lemma_st_local_init_restores(input, pos);
    lemma_st_goto_restores(input, pos);
    lemma_st_label_restores(input, pos);
    lemma_st_return_restores(input, pos);
    lemma_st_break_restores(input, pos);
    lemma_function_body_restores(input, pos);
    lemma_par_list_restores(input, pos);
    lemma_var_index_restores(input, pos);
    lemma_var_index_body_restores(input, pos);
    lemma_var_access_restores(input, pos);
    lemma_var_access_body_restores(input, pos);
    lemma_prefix_exp_restores(input, pos);
    lemma_prefix_parens_restores(input, pos);
    lemma_exp_function_restores(input, pos);
    lemma_table_constructor_restores(input, pos);
    lemma_map_field_restores(input, pos);
    lemma_bracket_field_restores(input, pos);
    lemma_statement_restores(input, pos);
    lemma_function_args_restores(input, pos);
    lemma_last_statement_restores(input, pos);
    lemma_var_restores(input, pos);
    lemma_prefix_exp_kind_restores(input, pos);
    lemma_prefix_exp_suffix_restores(input, pos);
    lemma_exp_atom_restores(input, pos);
    lemma_field_sep_restores(input, pos);
    lemma_field_restores(input, pos);
    lemma_exp_literal_restores(input, pos);
}

#[verifier::spinoff_prover]
proof fn lemma_statement_error(input: Tokens, pos: nat)
    ensures
        spec_statement(input, pos) matches Outcome::Returns(Err(e), _) ==> e == perr(peek_at(input, pos as int).spec_span().start as int, "expected Statement"),
{
    lemma_spec_statement(input, pos);
}

#[verifier::spinoff_prover]
proof fn lemma_function_args_error(input: Tokens, pos: nat)
    ensures
        spec_function_args(input, pos) matches Outcome::Returns(Err(e), _) ==> e == perr(peek_at(input, pos as int).spec_span().start as int, "expected FunctionArgs"),
{
    lemma_spec_function_args(input, pos);
}

#[verifier::spinoff_prover]
proof fn lemma_last_statement_error(input: Tokens, pos: nat)
    ensures
        spec_last_statement(input, pos) matches Outcome::Returns(Err(e), _) ==> e == perr(peek_at(input, pos as int).spec_span().start as int, "expected LastStatement"),
{
    lemma_spec_last_statement(input, pos);
}

#[verifier::spinoff_prover]
proof fn lemma_var_error(input: Tokens, pos: nat)
    ensures
        spec_var(input, pos) matches Outcome::Returns(Err(e), _) ==> e == perr(peek_at(input, pos as int).spec_span().start as int, "expected Var"),
{
    lemma_spec_var(input, pos);
}

#[verifier::spinoff_prover]
proof fn lemma_prefix_exp_kind_error(input: Tokens, pos: nat)
    ensures
        spec_prefix_exp_kind(input, pos) matches Outcome::Returns(Err(e), _) ==> e == perr(peek_at(input, pos as int).spec_span().start as int, "expected PrefixExpKind"),
{
    lemma_spec_prefix_exp_kind(input, pos);
}

#[verifier::spinoff_prover]
proof fn lemma_prefix_exp_suffix_error(input: Tokens, pos: nat)
    ensures
        spec_prefix_exp_suffix(input, pos) matches Outcome::Returns(Err(e), _) ==> e == perr(peek_at(input, pos as int).spec_span().start as int, "expected PrefixExpSuffix"),
{
    lemma_spec_prefix_exp_suffix(input, pos);
}

#[verifier::spinoff_prover]
proof fn lemma_exp_atom_error(input: Tokens, pos: nat)
    ensures
        spec_exp_atom(input, pos) matches Outcome::Returns(Err(e), _) ==> e == perr(peek_at(input, pos as int).spec_span().start as int, "expected ExpAtom"),
{
    lemma_spec_exp_atom(input, pos);
}

#[verifier::spinoff_prover]
proof fn lemma_binary_operand_error(input: Tokens, pos: nat)
    ensures
        spec_binary_operand(input, pos) matches Outcome::Returns(Err(e), _) ==> e == perr(peek_at(input, pos as int).spec_span().start as int, "expected BinaryOperand"),
{
}

#[verifier::spinoff_prover]
proof fn lemma_unary_operand_error(input: Tokens, pos: nat)
    ensures
        spec_unary_operand(input, pos) matches Outcome::Returns(Err(e), _) ==> e == perr(peek_at(input, pos as int).spec_span().start as int, "expected UnaryOperand"),
{
}

#[verifier::spinoff_prover]
proof fn lemma_field_sep_error(input: Tokens, pos: nat)
    ensures
        spec_field_sep(input, pos) matches Outcome::Returns(Err(e), _) ==> e == perr(peek_at(input, pos as int).spec_span().start as int, "expected FieldSep"),
{
    lemma_spec_field_sep(input, pos);
}

#[verifier::spinoff_prover]
proof fn lemma_field_error(input: Tokens, pos: nat)
    ensures
        spec_field(input, pos) matches Outcome::Returns(Err(e), _) ==> e == perr(peek_at(input, pos as int).spec_span().start as int, "expected Field"),
{
    lemma_spec_field(input, pos);
}

#[verifier::spinoff_prover]
proof fn lemma_exp_literal_error(input: Tokens, pos: nat)
    ensures
        spec_exp_literal(input, pos) matches Outcome::Returns(Err(e), _) ==> e == perr(peek_at(input, pos as int).spec_span().start as int, "expected ExpLiteral"),
{
    lemma_spec_exp_literal(input, pos);
}

/// An enum that fails to parse reports the start of the token where it stood
/// and that it expected that enum: what its variants reported is dropped.
pub proof fn failed_enum_parse_reports_start(input: Tokens, pos: nat)
    ensures
        spec_statement(input, pos) matches Outcome::Returns(Err(e), _) ==> e == perr(peek_at(input, pos as int).spec_span().start as int, "expected Statement"),
        spec_function_args(input, pos) matches Outcome::Returns(Err(e), _) ==> e == perr(peek_at(input, pos as int).spec_span().start as int, "expected FunctionArgs"),
        spec_last_statement(input, pos) matches Outcome::Returns(Err(e), _) ==> e == perr(peek_at(input, pos as int).spec_span().start as int, "expected LastStatement"),
        spec_var(input, pos) matches Outcome::Returns(Err(e), _) ==> e == perr(peek_at(input, pos as int).spec_span().start as int, "expected Var"),
        spec_prefix_exp_kind(input, pos) matches Outcome::Returns(Err(e), _) ==> e == perr(peek_at(input, pos as int).spec_span().start as int, "expected PrefixExpKind"),
        spec_prefix_exp_suffix(input, pos) matches Outcome::Returns(Err(e), _) ==> e == perr(peek_at(input, pos as int).spec_span().start as int, "expected PrefixExpSuffix"),
        spec_exp_atom(input, pos) matches Outcome::Returns(Err(e), _) ==> e == perr(peek_at(input, pos as int).spec_span().start as int, "expected ExpAtom"),
        spec_binary_operand(input, pos) matches Outcome::Returns(Err(e), _) ==> e == perr(peek_at(input, pos as int).spec_span().start as int, "expected BinaryOperand"),
        spec_unary_operand(input, pos) matches Outcome::Returns(Err(e), _) ==> e == perr(peek_at(input, pos as int).spec_span().start as int, "expected UnaryOperand"),
        spec_field_sep(input, pos) matches Outcome::Returns(Err(e), _) ==> e == perr(peek_at(input, pos as int).spec_span().start as int, "expected FieldSep"),
        spec_field(input, pos) matches Outcome::Returns(Err(e), _) ==> e == perr(peek_at(input, pos as int).spec_span().start as int, "expected Field"),
        spec_exp_literal(input, pos) matches Outcome::Returns(Err(e), _) ==> e == perr(peek_at(input, pos as int).spec_span().start as int, "expected ExpLiteral"),
{
    lemma_statement_error(input, pos);
    lemma_function_args_error(input, pos);
    lemma_last_statement_error(input, pos);
    lemma_var_error(input, pos);
    lemma_prefix_exp_kind_error(input, pos);
    lemma_prefix_exp_suffix_error(input, pos);
    lemma_exp_atom_error(input, pos);
    lemma_binary_operand_error(input, pos);
    lemma_unary_operand_error(input, pos);
    lemma_field_sep_error(input, pos);
    lemma_field_error(input, pos);
    lemma_exp_literal_error(input, pos);
}

proof fn lemma_lex_eof_span(b: Seq<u8>, i: nat)
    requires
        i <= b.len(),
        b.len() <= usize::MAX,
    ensures
        lex(b, i) matches Outcome::Returns(Ok(ts), _) ==> ts.len() > 0 && ts.last().spec_span() == (Span {
            start: b.len() as usize,
            end: b.len() as usize,
        }),
    decreases b.len() - i,
{
    lemma_skip_ws_ends(b, i);
    if let Outcome::Returns(Ok(_), j) = skip_ws(b, i) {
        lemma_next_token_ends(b, j);
        if let Outcome::Returns(Ok(t), k) = spec_next_token(b, j) {
            if !(t is EOF) && i < k <= b.len() {
                lemma_lex_eof_span(b, k);
                if let Outcome::Returns(Ok(rest), _) = lex(b, k) {
                    assert((seq![t] + rest).last() == rest.last());
                }
            }
        }
    }
}

/// The end-of-input token sits at the end of the text: its span starts and
/// ends at the text's length.
pub proof fn eof_token_at_text_end(b: Seq<u8>)
    requires
        b.len() <= usize::MAX,
    ensures
        lex(b, 0) matches Outcome::Returns(Ok(ts), _) ==> ts.len() > 0 && ts.last().spec_span() == (Span {
            start: b.len() as usize,
            end: b.len() as usize,
        }),
{
    lemma_lex_eof_span(b, 0);
}

/// Tokenizing gives the end-of-input token last and nowhere else.
pub proof fn lex_ends_with_eof(b: Seq<u8>, i: nat)
    ensures
        lex(b, i) matches Outcome::Returns(Ok(ts), _) ==> {
            &&& ts.len() > 0
            &&& ts.last() is EOF
            &&& forall|m: int| 0 <= m < ts.len() - 1 ==> !(#[trigger] ts[m] is EOF)
        },
    decreases b.len() - i,
{
    if let Outcome::Returns(Ok(_), j) = skip_ws(b, i) {
        if let Outcome::Returns(Ok(t), k) = spec_next_token(b, j) {
            if !(t is EOF) && i < k <= b.len() {
                lex_ends_with_eof(b, k);
                if let Outcome::Returns(Ok(ts), _) = lex(b, k) {
                    let all = seq![t] + ts;
                    assert forall|m: int| 0 <= m < all.len() - 1 implies !(#[trigger] all[m] is EOF) by {
                        if m > 0 {
                            assert(all[m] == ts[m - 1]);
                        }
                    }
                }
            }
        }
    }
}

proof fn lemma_string_body_ends(b: Seq<u8>, start: nat, inner: nat, q: QuoteType, p: nat, esc: bool)
    ensures
        !(string_body(b, start, inner, q, p, esc) is Panics),
        string_body(b, start, inner, q, p, esc) matches Outcome::Returns(Ok(s), k) ==> {
            &&& p < k <= b.len()
            &&& s.start_span.start == start as usize
            &&& s.end_span.end == k as usize
        },
    decreases b.len() - p,
{
    if p < b.len() {
        lemma_string_body_ends(b, start, inner, q, p + 1, false);
        lemma_string_body_ends(b, start, inner, q, p + 1, true);
    }
}

pub(crate) proof fn lemma_string_ends(b: Seq<u8>, i: nat)
    ensures
        !(spec_string(b, i) is Panics),
        spec_string(b, i) matches Outcome::Returns(Ok(s), k) ==> {
            &&& i < k <= b.len()
            &&& s.start_span.start == i as usize
            &&& s.end_span.end == k as usize
        },
{
    let e = scan_end(b, i + 1, ByteClass::EqualSign);
    lemma_string_body_ends(b, i, i + 1, QuoteType::Double, i + 1, false);
    lemma_string_body_ends(b, i, i + 1, QuoteType::Single, i + 1, false);
    lemma_string_body_ends(
        b,
        i,
        e + 1,
        QuoteType::Bracketed { eq_count: (e - (i + 1)) as usize },
        e + 1,
        false,
    );
    if at(b, i as int, '[' as u8) {
        lemma_scan_end(b, i + 1, ByteClass::EqualSign);
    }
}

proof fn lemma_skip_ws_ends(b: Seq<u8>, i: nat)
    requires
        i <= b.len(),
    ensures
        !(skip_ws(b, i) is Panics),
        skip_ws(b, i) matches Outcome::Returns(Ok(_), j) ==> i <= j <= b.len(),
    decreases b.len() - i,
{
    let j = scan_end(b, i, ByteClass::Space);
    lemma_scan_end(b, i, ByteClass::Space);
    if j < b.len() && starts(b, j as int, seq!['-' as u8, '-' as u8]) {
        let p = j + 2;
        lemma_string_ends(b, p);
        if let Outcome::Returns(Ok(_), k) = spec_string(b, p) {
            lemma_skip_ws_ends(b, k);
        }
        lemma_scan_end(b, p, ByteClass::NotNewline);
        lemma_skip_ws_ends(b, scan_end(b, p, ByteClass::NotNewline));
    }
}

proof fn lemma_keyword_ends(b: Seq<u8>, i: nat)
    ensures
        keyword_token(b, i) matches Some((t, k)) ==> {
            &&& i < k <= b.len()
            &&& !(t is EOF)
            &&& t.spec_span() == (Span { start: i as usize, end: k as usize })
        },
{
    reveal(keyword_prefix);
}

proof fn lemma_symbol_ends(b: Seq<u8>, i: nat)
    ensures
        symbol_token(b, i) matches Some((t, k)) ==> {
            &&& i < k <= b.len()
            &&& !(t is EOF)
            &&& t.spec_span() == (Span { start: i as usize, end: k as usize })
        },
{
    reveal(symbol_token);
}

proof fn lemma_exponent_ends(b: Seq<u8>, p: nat, cls: ByteClass)
    requires
        p <= b.len(),
    ensures
        spec_exponent(b, p, cls) matches Ok(e) ==> p < e <= b.len(),
{
    lemma_scan_end(b, p, ByteClass::Sign);
    lemma_scan_end(b, scan_end(b, p, ByteClass::Sign), cls);
}

proof fn lemma_number_ends(b: Seq<u8>, i: nat)
    requires
        i <= b.len(),
    ensures
        spec_number(b, i) matches Ok(e) ==> i < e <= b.len(),
{
    let hex = starts(b, i as int, seq!['0' as u8, 'x' as u8]) || starts(
        b,
        i as int,
        seq!['0' as u8, 'X' as u8],
    );
    let cls = if hex {
        ByteClass::HexDigit
    } else {
        ByteClass::Digit
    };
    let p0 = if hex {
        i + 2
    } else {
        i
    };
    lemma_scan_end(b, p0, cls);
    let q = scan_end(b, p0, cls);
    if at(b, q as int, '.' as u8) {
        lemma_scan_end(b, q + 1, cls);
        let r = scan_end(b, q + 1, cls);
        if r < b.len() {
            lemma_exponent_ends(b, r + 1, cls);
        }
    } else if q < b.len() {
        lemma_exponent_ends(b, q + 1, cls);
    }
}

proof fn lemma_next_token_ends(b: Seq<u8>, j: nat)
    requires
        j <= b.len(),
    ensures
        !(spec_next_token(b, j) is Panics),
        spec_next_token(b, j) matches Outcome::Returns(Ok(t), k) ==> {
            &&& j <= k <= b.len()
            &&& t.spec_span() == (Span { start: j as usize, end: k as usize })
            &&& (t is EOF <==> j == b.len())
            &&& (t is EOF || j < k)
        },
{
    reveal(spec_next_token);
    lemma_keyword_ends(b, j);
    lemma_number_ends(b, j);
    lemma_string_ends(b, j);
    lemma_symbol_ends(b, j);
    if j < b.len() {
        lemma_scan_end(b, j, ByteClass::Word);
    }
}

proof fn lemma_lex_ends(b: Seq<u8>, i: nat)
    requires
        i <= b.len(),
    ensures
        !(lex(b, i) is Panics),
    decreases b.len() - i,
{
    lemma_skip_ws_ends(b, i);
    if let Outcome::Returns(Ok(_), j) = skip_ws(b, i) {
        lemma_next_token_ends(b, j);
        if let Outcome::Returns(Ok(t), k) = spec_next_token(b, j) {
            if !(t is EOF) {
                lemma_lex_ends(b, k);
            }
        }
    }
}

/// Tokenizing never panics, whatever the text: it ends with the tokens or
/// with an error.
pub proof fn tokenizing_never_panics(b: Seq<u8>)
    ensures
        !(lex(b, 0) is Panics),
{
    lemma_lex_ends(b, 0);
}

/// The tokens lie within the text and follow its order without overlapping:
/// each token's span ends at or before the next one's begins.
#[verifier::spinoff_prover]
pub proof fn lex_spans_in_order(b: Seq<u8>, i: nat)
    requires
        i <= b.len(),
        b.len() <= usize::MAX,
    ensures
        lex(b, i) matches Outcome::Returns(Ok(ts), _) ==> {
            &&& forall|m: int|
                0 <= m < ts.len() ==> i <= #[trigger] ts[m].spec_span().start <= ts[m].spec_span().end
                    <= b.len()
            &&& forall|m: int|
                0 <= m < ts.len() - 1 ==> #[trigger] ts[m].spec_span().end <= ts[m + 1].spec_span().start
        },
    decreases b.len() - i,
{
    lemma_skip_ws_ends(b, i);
    if let Outcome::Returns(Ok(_), j) = skip_ws(b, i) {
        lemma_next_token_ends(b, j);
        if let Outcome::Returns(Ok(t), k) = spec_next_token(b, j) {
            assert(j as usize == j && k as usize == k);
            if t is EOF {
                assert(seq![t][0] == t);
            } else if i < k <= b.len() {
                lex_spans_in_order(b, k);
                if let Outcome::Returns(Ok(rest), _) = lex(b, k) {
                    let ts = seq![t] + rest;
                    assert forall|m: int| 0 <= m < ts.len() implies i <= #[trigger] ts[m].spec_span().start
                        <= ts[m].spec_span().end <= b.len() by {
                        if m > 0 {
                            assert(ts[m] == rest[m - 1]);
                        }
                    }
                    assert forall|m: int| 0 <= m < ts.len() - 1 implies #[trigger] ts[m].spec_span().end
                        <= ts[m + 1].spec_span().start by {
                        assert(ts[m + 1] == rest[m]);
                        if m > 0 {
                            assert(ts[m] == rest[m - 1]);
                        }
                    }
                }
            }
        }
    }
}

/// Symbols are taken longest first: what the symbol tokenizer takes at `i`
/// spells a symbol, and every run of bytes from `i` that spells a symbol is
/// no longer than what it takes (so where it takes nothing, no run does).
#[verifier::spinoff_prover]
#[verifier::rlimit(50)]
pub proof fn symbol_match_is_longest(b: Seq<u8>, i: nat)
    requires
        i <= b.len(),
    ensures
        symbol_token(b, i) matches Some((_, k)) ==> is_symbol(b.subrange(i as int, k as int)),
        forall|m: int|
            i < m <= b.len() && #[trigger] is_symbol(b.subrange(i as int, m)) ==> (symbol_token(
                b,
                i,
            ) matches Some((_, k)) && m <= k),
{
    reveal(symbol_token);
    reveal(is_symbol);
    assert forall|m: int|
        i < m <= b.len() && #[trigger] is_symbol(b.subrange(i as int, m)) implies (symbol_token(
        b,
        i,
    ) matches Some((_, k)) && m <= k) by {
        let w = b.subrange(i as int, m);
        assert(w.len() == m - i);
        assert(m - i <= 3);
        assert(w[0] == b[i as int]);
        if m - i >= 2 {
            assert(w[1] == b[i + 1int]);
        }
        if m - i >= 3 {
            assert(w[2] == b[i + 2int]);
        }
    }
}

/// Keywords are taken only as whole words: the keyword tokenizer takes the
/// whole run of letters, digits and `_` at `i`, and it takes something
/// exactly when that run spells a keyword.
#[verifier::spinoff_prover]
#[verifier::rlimit(100)]
pub proof fn keyword_match_is_whole_word(b: Seq<u8>, i: nat)
    requires
        i <= b.len(),
    ensures
        keyword_token(b, i) is Some <==> is_keyword(
            b.subrange(i as int, scan_end(b, i, ByteClass::Word) as int),
        ),
        keyword_token(b, i) matches Some((_, k)) ==> k == scan_end(b, i, ByteClass::Word),
{
    reveal(keyword_prefix);
    reveal(is_keyword);
    lemma_scan_end(b, i, ByteClass::Word);
    let e = scan_end(b, i, ByteClass::Word);
    let w = b.subrange(i as int, e as int);
    assert(w.len() == e - i);
    assert forall|j: int| 0 <= j < w.len() implies #[trigger] w[j] == b[i + j] by {}
}

/// A number's mantissa holds a digit: after any `0x` or `0X` prefix, a
/// numeric literal begins with a digit of its base, or with a point and such
/// a digit.
pub proof fn number_has_a_mantissa_digit(b: Seq<u8>, i: nat)
    requires
        i <= b.len(),
    ensures
        spec_number(b, i) matches Ok(e) ==> {
            let hex = starts(b, i as int, seq!['0' as u8, 'x' as u8]) || starts(
                b,
                i as int,
                seq!['0' as u8, 'X' as u8],
            );
            let cls = if hex {
                ByteClass::HexDigit
            } else {
                ByteClass::Digit
            };
            let p0 = if hex {
                i + 2
            } else {
                i
            };
            ||| p0 < e && in_class(b[p0 as int], cls)
            ||| at(b, p0 as int, '.' as u8) && p0 + 1 < e && in_class(b[p0 + 1int], cls)
        },
{
    let hex = starts(b, i as int, seq!['0' as u8, 'x' as u8]) || starts(
        b,
        i as int,
        seq!['0' as u8, 'X' as u8],
    );
    let cls = if hex {
        ByteClass::HexDigit
    } else {
        ByteClass::Digit
    };
    let p0 = if hex {
        i + 2
    } else {
        i
    };
    lemma_scan_end(b, p0, cls);
    let q = scan_end(b, p0, cls);
    if at(b, q as int, '.' as u8) {
        lemma_scan_end(b, q + 1, cls);
        let r = scan_end(b, q + 1, cls);
        if r < b.len() {
            lemma_exponent_ends(b, r + 1, cls);
        }
    } else if q < b.len() {
        lemma_exponent_ends(b, q + 1, cls);
    }
}

} // verus!
