//! Parsing never panics: from any position, every element of the grammar
//! parses or fails, and a parse moves the cursor on, within the tokens where it
//! started within them, past at least one token for an element that is never
//! empty. So no list meets an item that takes no token, and the precondition
//! of every element's `parse` holds of every position. A parse also loses and
//! invents nothing: its parse tree holds, in order, exactly the tokens that it
//! passed over.

use vstd::prelude::*;

use crate::parse::{
    leaves, leaves_of, lemma_leaves_choice, lemma_leaves_leaf, lemma_leaves_node, lemma_leaves_of_push,
    lemma_leaves_some, moved, rem, Outcome, Parseable, Tree,
};
use crate::token;
use crate::token::Token;
use crate::tokenize::{peek_at, Tokens};

use crate::grammar::{
    exp_climb, exp_operand, exp_rest, spec_arg_list, spec_attr_name_list, spec_attr_pairs,
    spec_attr_pairs_items, spec_attribute, spec_binary_operand, spec_binary_operand_value,
    spec_bracket_field, spec_chunk, spec_colon_name, spec_comma_exp, spec_else_branch,
    spec_else_if_branch, spec_elseifs, spec_elseifs_items, spec_eq_exps, spec_exp, spec_exp_atom,
    spec_exp_function, spec_exp_list, spec_exp_literal, spec_exp_pairs, spec_exp_pairs_items,
    spec_field, spec_field_sep, spec_fields, spec_fields_loop, spec_func_path, spec_function_args,
    spec_function_body, spec_function_call, spec_function_call_body, spec_function_name,
    spec_if_branch, spec_last_semi, spec_last_statement, spec_local_init, spec_map_field,
    spec_name_attr, spec_name_list, spec_name_pairs, spec_name_pairs_items, spec_opt_attribute,
    spec_opt_ellipses, spec_opt_else, spec_opt_last, spec_opt_qualifier, spec_opt_semi,
    spec_opt_step, spec_par_list, spec_path_pairs, spec_path_pairs_items, spec_prefix_exp,
    spec_prefix_exp_kind, spec_prefix_exp_suffix, spec_prefix_parens, spec_st_assign,
    spec_st_block, spec_st_break, spec_st_for_in_loop, spec_st_for_range_loop,
    spec_st_function_def, spec_st_goto, spec_st_if_else, spec_st_label,
    spec_st_local_function_def, spec_st_local_init, spec_st_repeat_loop, spec_st_return,
    spec_st_while_loop, spec_statement, spec_stmt_semi, spec_stmts, spec_stmts_items,
    spec_suffixes, spec_suffixes_items, spec_table_constructor, spec_unary_operand,
    spec_unary_operand_value, spec_var, spec_var_access, spec_var_access_body, spec_var_index,
    spec_var_index_body, spec_var_list, spec_var_pairs, spec_var_pairs_items, tree_binary_operand,
    tree_unary_operand, UNARY_PRECEDENCE,
};
use crate::unfold::{
    lemma_exp_climb, lemma_exp_operand, lemma_exp_rest, lemma_spec_arg_list,
    lemma_spec_attr_name_list, lemma_spec_attr_pairs, lemma_spec_attr_pairs_items,
    lemma_spec_attribute, lemma_spec_bracket_field, lemma_spec_chunk, lemma_spec_colon_name,
    lemma_spec_comma_exp, lemma_spec_else_branch, lemma_spec_else_if_branch, lemma_spec_elseifs,
    lemma_spec_elseifs_items, lemma_spec_eq_exps, lemma_spec_exp, lemma_spec_exp_atom,
    lemma_spec_exp_function, lemma_spec_exp_list, lemma_spec_exp_literal, lemma_spec_exp_pairs,
    lemma_spec_exp_pairs_items, lemma_spec_field, lemma_spec_field_sep, lemma_spec_fields,
    lemma_spec_fields_loop, lemma_spec_func_path, lemma_spec_function_args,
    lemma_spec_function_body, lemma_spec_function_call, lemma_spec_function_call_body,
    lemma_spec_function_name, lemma_spec_if_branch, lemma_spec_last_semi,
    lemma_spec_last_statement, lemma_spec_local_init, lemma_spec_map_field, lemma_spec_name_attr,
    lemma_spec_name_list, lemma_spec_name_pairs, lemma_spec_name_pairs_items,
    lemma_spec_opt_attribute, lemma_spec_opt_ellipses, lemma_spec_opt_else, lemma_spec_opt_last,
    lemma_spec_opt_qualifier, lemma_spec_opt_semi, lemma_spec_opt_step, lemma_spec_par_list,
    lemma_spec_path_pairs, lemma_spec_path_pairs_items, lemma_spec_prefix_exp,
    lemma_spec_prefix_exp_kind, lemma_spec_prefix_exp_suffix, lemma_spec_prefix_parens,
    lemma_spec_st_assign, lemma_spec_st_block, lemma_spec_st_break, lemma_spec_st_for_in_loop,
    lemma_spec_st_for_range_loop, lemma_spec_st_function_def, lemma_spec_st_goto,
    lemma_spec_st_if_else, lemma_spec_st_label, lemma_spec_st_local_function_def,
    lemma_spec_st_local_init, lemma_spec_st_repeat_loop, lemma_spec_st_return,
    lemma_spec_st_while_loop, lemma_spec_statement, lemma_spec_stmt_semi, lemma_spec_stmts,
    lemma_spec_stmts_items, lemma_spec_suffixes, lemma_spec_suffixes_items,
    lemma_spec_table_constructor, lemma_spec_var, lemma_spec_var_access,
    lemma_spec_var_access_body, lemma_spec_var_index, lemma_spec_var_index_body,
    lemma_spec_var_list, lemma_spec_var_pairs, lemma_spec_var_pairs_items,
};

verus! {

/// A parse from `pos` that did not panic and, where it returned a value, left
/// the cursor at or after `pos` within the tokens; past `pos` where `consumes`
/// says that the element always takes a token.
pub open spec fn progresses<T>(o: Outcome<T>, input: Tokens, pos: nat, consumes: bool) -> bool {
    match o {
        Outcome::Returns(Ok(_), p) => moved(input, pos, p) && (consumes ==> pos < p),
        Outcome::Returns(Err(_), _) => true,
        Outcome::Panics => false,
    }
}

/// A parse from `pos` that returned a tree holds in it, in order, the tokens
/// from `pos` to where it stopped.
pub open spec fn reads(o: Outcome<Tree>, input: Tokens, pos: nat) -> bool {
    o matches Outcome::Returns(Ok(t), p) ==> leaves(t) =~= input.tokens.subrange(pos as int, p as int)
}

/// Like [`reads`], for the items of a list.
pub open spec fn reads_all(o: Outcome<Seq<Tree>>, input: Tokens, pos: nat) -> bool {
    o matches Outcome::Returns(Ok(ts), p) ==> leaves_of(ts) =~= input.tokens.subrange(
        pos as int,
        p as int,
    )
}

/// Like [`reads`], for the pairs of a list and the item after them, if any.
pub open spec fn reads_pairs(o: Outcome<(Seq<Tree>, Option<Tree>)>, input: Tokens, pos: nat) -> bool {
    o matches Outcome::Returns(Ok((ts, last)), p) ==> leaves_of(ts) + match last {
        Some(x) => leaves(x),
        None => seq![],
    } =~= input.tokens.subrange(pos as int, p as int)
}

/// The tokens of two lists of trees, one after the other.
pub proof fn lemma_leaves_of_add(a: Seq<Tree>, b: Seq<Tree>)
    ensures
        leaves_of(a + b) == leaves_of(a) + leaves_of(b),
    decreases b.len(),
{
    if b.len() == 0 {
        assert(a + b =~= a);
        assert(leaves_of(a) + leaves_of(b) =~= leaves_of(a));
    } else {
        let c = b.subrange(0, b.len() - 1);
        let x = b[b.len() - 1];
        lemma_leaves_of_add(a, c);
        assert(a + b =~= (a + c).push(x));
        assert(b =~= c.push(x));
        lemma_leaves_of_push(a + c, x);
        lemma_leaves_of_push(c, x);
        assert(leaves_of(a) + (leaves_of(c) + leaves(x)) =~= (leaves_of(a) + leaves_of(c)) + leaves(x));
    }
}

/// The tokens from `a` to `b`, then those from `b` to `c`, are those from
/// `a` to `c`.
proof fn lemma_concat(input: Tokens, a: nat, b: nat, c: nat, l1: Seq<Token>, l2: Seq<Token>)
    ensures
        a <= b <= c <= input.tokens.len() && l1 =~= input.tokens.subrange(a as int, b as int) && l2
            =~= input.tokens.subrange(b as int, c as int) ==> l1 + l2 =~= input.tokens.subrange(
            a as int,
            c as int,
        ),
{
}

/// The token at `pos` is the one tree that a token parse there gives.
proof fn lemma_token_at(input: Tokens, pos: nat)
    ensures
        pos < input.tokens.len() ==> {
            &&& peek_at(input, pos as int) == input.tokens[pos as int]
            &&& input.tokens.subrange(pos as int, pos + 1int) =~= seq![input.tokens[pos as int]]
        },
{
    if pos < input.tokens.len() {
        assert(input.tokens.subrange(pos as int, pos + 1int)[0] == input.tokens[pos as int]);
    }
}

proof fn lemma_binary_operand_leaves(input: Tokens, pos: nat)
    ensures
        spec_binary_operand_value(input, pos) matches Outcome::Returns(Ok(b), p) ==> leaves(
            tree_binary_operand(b),
        ) =~= input.tokens.subrange(pos as int, p as int),
{
    reveal(tree_binary_operand);
    lemma_token_at(input, pos);
}

proof fn lemma_unary_operand_leaves(input: Tokens, pos: nat)
    ensures
        spec_unary_operand_value(input, pos) matches Outcome::Returns(Ok(u), p) ==> leaves(
            tree_unary_operand(u),
        ) =~= input.tokens.subrange(pos as int, p as int),
{
    reveal(tree_unary_operand);
    lemma_token_at(input, pos);
}

broadcast use {
    lemma_leaves_of_push,
    lemma_leaves_leaf,
    lemma_leaves_choice,
    lemma_leaves_some,
    lemma_leaves_node,
};

/// Parsing a `Chunk` never panics, from any position: it parses or fails. Where it
/// parses, the cursor moves on, within the tokens if it started there, and the
/// parse tree holds, in order, exactly the tokens that it passed over.
#[verifier::spinoff_prover]
pub proof fn chunk_parse_progresses(input: Tokens, pos: nat)
    ensures
        progresses(spec_chunk(input, pos), input, pos, false),
        pos <= input.tokens.len() ==> reads(spec_chunk(input, pos), input, pos),
    decreases rem(input, pos), 13nat,
{
    lemma_spec_chunk(input, pos);
    lemma_stmts_progresses(input, pos);
    if let Outcome::Returns(Ok(x0), p0) = spec_stmts(input, pos) {
        lemma_opt_last_progresses(input, p0);
        if let Outcome::Returns(Ok(x1), p1) = spec_opt_last(input, p0) {
            lemma_concat(input, pos, p0, p1, leaves(x0), leaves(x1));
            assert(seq![x0, x1] =~= seq![x0].push(x1));
        }
    }
}

/// Parsing a `StAssign` never panics, from any position: it parses or fails. Where it
/// parses, the cursor moves on, within the tokens if it started there, and the
/// parse tree holds, in order, exactly the tokens that it passed over.
#[verifier::spinoff_prover]
pub proof fn st_assign_parse_progresses(input: Tokens, pos: nat)
    ensures
        progresses(spec_st_assign(input, pos), input, pos, true),
        pos <= input.tokens.len() ==> reads(spec_st_assign(input, pos), input, pos),
    decreases rem(input, pos), 8nat,
{
    lemma_spec_st_assign(input, pos);
    lemma_var_list_progresses(input, pos);
    if let Outcome::Returns(Ok(x0), p0) = spec_var_list(input, pos) {
        lemma_token_at(input, p0);
        if let Outcome::Returns(Ok(x1), p1) = token::Equal::spec_parse(input, p0) {
            lemma_exp_list_progresses(input, p1);
            if let Outcome::Returns(Ok(x2), p2) = spec_exp_list(input, p1) {
                lemma_concat(input, pos, p0, p1, leaves(x0), leaves(x1));
                lemma_concat(input, pos, p1, p2, leaves(x0) + leaves(x1), leaves(x2));
                assert(seq![x0, x1, x2] =~= seq![x0].push(x1).push(x2));
            }
        }
    }
}

/// Parsing a `StBlock` never panics, from any position: it parses or fails. Where it
/// parses, the cursor moves on, within the tokens if it started there, and the
/// parse tree holds, in order, exactly the tokens that it passed over.
#[verifier::spinoff_prover]
pub proof fn st_block_parse_progresses(input: Tokens, pos: nat)
    ensures
        progresses(spec_st_block(input, pos), input, pos, true),
        pos <= input.tokens.len() ==> reads(spec_st_block(input, pos), input, pos),
    decreases rem(input, pos), 0nat,
{
    lemma_spec_st_block(input, pos);
    lemma_token_at(input, pos);
    if let Outcome::Returns(Ok(x0), p0) = token::Do::spec_parse(input, pos) {
        chunk_parse_progresses(input, p0);
        if let Outcome::Returns(Ok(x1), p1) = spec_chunk(input, p0) {
            lemma_token_at(input, p1);
            if let Outcome::Returns(Ok(x2), p2) = token::End::spec_parse(input, p1) {
                lemma_concat(input, pos, p0, p1, leaves(x0), leaves(x1));
                lemma_concat(input, pos, p1, p2, leaves(x0) + leaves(x1), leaves(x2));
                assert(seq![x0, x1, x2] =~= seq![x0].push(x1).push(x2));
            }
        }
    }
}

/// Parsing an `Attribute` never panics, from any position: it parses or fails. Where it
/// parses, the cursor moves on, within the tokens if it started there, and the
/// parse tree holds, in order, exactly the tokens that it passed over.
#[verifier::spinoff_prover]
pub proof fn attribute_parse_progresses(input: Tokens, pos: nat)
    ensures
        progresses(spec_attribute(input, pos), input, pos, true),
        pos <= input.tokens.len() ==> reads(spec_attribute(input, pos), input, pos),
{
    lemma_spec_attribute(input, pos);
    lemma_token_at(input, pos);
    if let Outcome::Returns(Ok(x0), p0) = token::Less::spec_parse(input, pos) {
        lemma_token_at(input, p0);
        if let Outcome::Returns(Ok(x1), p1) = token::Name::spec_parse(input, p0) {
            lemma_token_at(input, p1);
            if let Outcome::Returns(Ok(x2), p2) = token::Greater::spec_parse(input, p1) {
                lemma_concat(input, pos, p0, p1, leaves(x0), leaves(x1));
                lemma_concat(input, pos, p1, p2, leaves(x0) + leaves(x1), leaves(x2));
                assert(seq![x0, x1, x2] =~= seq![x0].push(x1).push(x2));
            }
        }
    }
}

/// Parsing a `StWhileLoop` never panics, from any position: it parses or fails. Where it
/// parses, the cursor moves on, within the tokens if it started there, and the
/// parse tree holds, in order, exactly the tokens that it passed over.
#[verifier::spinoff_prover]
pub proof fn st_while_loop_parse_progresses(input: Tokens, pos: nat)
    ensures
        progresses(spec_st_while_loop(input, pos), input, pos, true),
        pos <= input.tokens.len() ==> reads(spec_st_while_loop(input, pos), input, pos),
    decreases rem(input, pos), 0nat,
{
    lemma_spec_st_while_loop(input, pos);
    lemma_token_at(input, pos);
    if let Outcome::Returns(Ok(x0), p0) = token::While::spec_parse(input, pos) {
        exp_parse_progresses(input, p0);
        if let Outcome::Returns(Ok(x1), p1) = spec_exp(input, p0) {
            lemma_token_at(input, p1);
            if let Outcome::Returns(Ok(x2), p2) = token::Do::spec_parse(input, p1) {
                chunk_parse_progresses(input, p2);
                if let Outcome::Returns(Ok(x3), p3) = spec_chunk(input, p2) {
                    lemma_token_at(input, p3);
                    if let Outcome::Returns(Ok(x4), p4) = token::End::spec_parse(input, p3) {
                        lemma_concat(input, pos, p0, p1, leaves(x0), leaves(x1));
                        lemma_concat(input, pos, p1, p2, leaves(x0) + leaves(x1), leaves(x2));
                        lemma_concat(input, pos, p2, p3, leaves(x0) + leaves(x1) + leaves(x2), leaves(x3));
                        lemma_concat(input, pos, p3, p4, leaves(x0) + leaves(x1) + leaves(x2) + leaves(x3), leaves(x4));
                        assert(seq![x0, x1, x2, x3, x4] =~= seq![x0].push(x1).push(x2).push(x3).push(x4));
                    }
                }
            }
        }
    }
}

/// Parsing a `StRepeatLoop` never panics, from any position: it parses or fails. Where it
/// parses, the cursor moves on, within the tokens if it started there, and the
/// parse tree holds, in order, exactly the tokens that it passed over.
#[verifier::spinoff_prover]
pub proof fn st_repeat_loop_parse_progresses(input: Tokens, pos: nat)
    ensures
        progresses(spec_st_repeat_loop(input, pos), input, pos, true),
        pos <= input.tokens.len() ==> reads(spec_st_repeat_loop(input, pos), input, pos),
    decreases rem(input, pos), 0nat,
{
    lemma_spec_st_repeat_loop(input, pos);
    lemma_token_at(input, pos);
    if let Outcome::Returns(Ok(x0), p0) = token::Repeat::spec_parse(input, pos) {
        chunk_parse_progresses(input, p0);
        if let Outcome::Returns(Ok(x1), p1) = spec_chunk(input, p0) {
            lemma_token_at(input, p1);
            if let Outcome::Returns(Ok(x2), p2) = token::Until::spec_parse(input, p1) {
                exp_parse_progresses(input, p2);
                if let Outcome::Returns(Ok(x3), p3) = spec_exp(input, p2) {
                    lemma_concat(input, pos, p0, p1, leaves(x0), leaves(x1));
                    lemma_concat(input, pos, p1, p2, leaves(x0) + leaves(x1), leaves(x2));
                    lemma_concat(input, pos, p2, p3, leaves(x0) + leaves(x1) + leaves(x2), leaves(x3));
                    assert(seq![x0, x1, x2, x3] =~= seq![x0].push(x1).push(x2).push(x3));
                }
            }
        }
    }
}

/// Parsing a `StForRangeLoop` never panics, from any position: it parses or fails. Where it
/// parses, the cursor moves on, within the tokens if it started there, and the
/// parse tree holds, in order, exactly the tokens that it passed over.
#[verifier::spinoff_prover]
pub proof fn st_for_range_loop_parse_progresses(input: Tokens, pos: nat)
    ensures
        progresses(spec_st_for_range_loop(input, pos), input, pos, true),
        pos <= input.tokens.len() ==> reads(spec_st_for_range_loop(input, pos), input, pos),
    decreases rem(input, pos), 0nat,
{
    lemma_spec_st_for_range_loop(input, pos);
    lemma_token_at(input, pos);
    if let Outcome::Returns(Ok(x0), p0) = token::For::spec_parse(input, pos) {
        lemma_token_at(input, p0);
        if let Outcome::Returns(Ok(x1), p1) = token::Name::spec_parse(input, p0) {
            lemma_token_at(input, p1);
            if let Outcome::Returns(Ok(x2), p2) = token::Equal::spec_parse(input, p1) {
                exp_parse_progresses(input, p2);
                if let Outcome::Returns(Ok(x3), p3) = spec_exp(input, p2) {
                    lemma_token_at(input, p3);
                    if let Outcome::Returns(Ok(x4), p4) = token::Comma::spec_parse(input, p3) {
                        exp_parse_progresses(input, p4);
                        if let Outcome::Returns(Ok(x5), p5) = spec_exp(input, p4) {
                            lemma_opt_step_progresses(input, p5);
                            if let Outcome::Returns(Ok(x6), p6) = spec_opt_step(input, p5) {
                                lemma_token_at(input, p6);
                                if let Outcome::Returns(Ok(x7), p7) = token::Do::spec_parse(input, p6) {
                                    chunk_parse_progresses(input, p7);
                                    if let Outcome::Returns(Ok(x8), p8) = spec_chunk(input, p7) {
                                        lemma_token_at(input, p8);
                                        if let Outcome::Returns(Ok(x9), p9) = token::End::spec_parse(input, p8) {
                                            lemma_concat(input, pos, p0, p1, leaves(x0), leaves(x1));
                                            lemma_concat(input, pos, p1, p2, leaves(x0) + leaves(x1), leaves(x2));
                                            lemma_concat(input, pos, p2, p3, leaves(x0) + leaves(x1) + leaves(x2), leaves(x3));
                                            lemma_concat(input, pos, p3, p4, leaves(x0) + leaves(x1) + leaves(x2) + leaves(x3), leaves(x4));
                                            lemma_concat(input, pos, p4, p5, leaves(x0) + leaves(x1) + leaves(x2) + leaves(x3) + leaves(x4), leaves(x5));
                                            lemma_concat(input, pos, p5, p6, leaves(x0) + leaves(x1) + leaves(x2) + leaves(x3) + leaves(x4) + leaves(x5), leaves(x6));
                                            lemma_concat(input, pos, p6, p7, leaves(x0) + leaves(x1) + leaves(x2) + leaves(x3) + leaves(x4) + leaves(x5) + leaves(x6), leaves(x7));
                                            lemma_concat(input, pos, p7, p8, leaves(x0) + leaves(x1) + leaves(x2) + leaves(x3) + leaves(x4) + leaves(x5) + leaves(x6) + leaves(x7), leaves(x8));
                                            lemma_concat(input, pos, p8, p9, leaves(x0) + leaves(x1) + leaves(x2) + leaves(x3) + leaves(x4) + leaves(x5) + leaves(x6) + leaves(x7) + leaves(x8), leaves(x9));
                                            assert(seq![x0, x1, x2, x3, x4, x5, x6, x7, x8, x9] =~= seq![x0].push(x1).push(x2).push(x3).push(x4).push(x5).push(x6).push(x7).push(x8).push(x9));
                                        }
                                    }
                                }
                            }
                        }
                    }
                }
            }
        }
    }
}

/// Parsing a `StForInLoop` never panics, from any position: it parses or fails. Where it
/// parses, the cursor moves on, within the tokens if it started there, and the
/// parse tree holds, in order, exactly the tokens that it passed over.
#[verifier::spinoff_prover]
pub proof fn st_for_in_loop_parse_progresses(input: Tokens, pos: nat)
    ensures
        progresses(spec_st_for_in_loop(input, pos), input, pos, true),
        pos <= input.tokens.len() ==> reads(spec_st_for_in_loop(input, pos), input, pos),
    decreases rem(input, pos), 0nat,
{
    lemma_spec_st_for_in_loop(input, pos);
    lemma_token_at(input, pos);
    if let Outcome::Returns(Ok(x0), p0) = token::For::spec_parse(input, pos) {
        lemma_name_list_progresses(input, p0);
        if let Outcome::Returns(Ok(x1), p1) = spec_name_list(input, p0) {
            lemma_token_at(input, p1);
            if let Outcome::Returns(Ok(x2), p2) = token::In::spec_parse(input, p1) {
                lemma_exp_list_progresses(input, p2);
                if let Outcome::Returns(Ok(x3), p3) = spec_exp_list(input, p2) {
                    lemma_token_at(input, p3);
                    if let Outcome::Returns(Ok(x4), p4) = token::Do::spec_parse(input, p3) {
                        chunk_parse_progresses(input, p4);
                        if let Outcome::Returns(Ok(x5), p5) = spec_chunk(input, p4) {
                            lemma_token_at(input, p5);
                            if let Outcome::Returns(Ok(x6), p6) = token::End::spec_parse(input, p5) {
                                lemma_concat(input, pos, p0, p1, leaves(x0), leaves(x1));
                                lemma_concat(input, pos, p1, p2, leaves(x0) + leaves(x1), leaves(x2));
                                lemma_concat(input, pos, p2, p3, leaves(x0) + leaves(x1) + leaves(x2), leaves(x3));
                                lemma_concat(input, pos, p3, p4, leaves(x0) + leaves(x1) + leaves(x2) + leaves(x3), leaves(x4));
                                lemma_concat(input, pos, p4, p5, leaves(x0) + leaves(x1) + leaves(x2) + leaves(x3) + leaves(x4), leaves(x5));
                                lemma_concat(input, pos, p5, p6, leaves(x0) + leaves(x1) + leaves(x2) + leaves(x3) + leaves(x4) + leaves(x5), leaves(x6));
                                assert(seq![x0, x1, x2, x3, x4, x5, x6] =~= seq![x0].push(x1).push(x2).push(x3).push(x4).push(x5).push(x6));
                            }
                        }
                    }
                }
            }
        }
    }
}

/// Parsing a `StIfElse` never panics, from any position: it parses or fails. Where it
/// parses, the cursor moves on, within the tokens if it started there, and the
/// parse tree holds, in order, exactly the tokens that it passed over.
#[verifier::spinoff_prover]
pub proof fn st_if_else_parse_progresses(input: Tokens, pos: nat)
    ensures
        progresses(spec_st_if_else(input, pos), input, pos, true),
        pos <= input.tokens.len() ==> reads(spec_st_if_else(input, pos), input, pos),
    decreases rem(input, pos), 1nat,
{
    lemma_spec_st_if_else(input, pos);
    if_branch_parse_progresses(input, pos);
    if let Outcome::Returns(Ok(x0), p0) = spec_if_branch(input, pos) {
        lemma_elseifs_progresses(input, p0);
        if let Outcome::Returns(Ok(x1), p1) = spec_elseifs(input, p0) {
            lemma_opt_else_progresses(input, p1);
            if let Outcome::Returns(Ok(x2), p2) = spec_opt_else(input, p1) {
                lemma_concat(input, pos, p0, p1, leaves(x0), leaves(x1));
                lemma_concat(input, pos, p1, p2, leaves(x0) + leaves(x1), leaves(x2));
                assert(seq![x0, x1, x2] =~= seq![x0].push(x1).push(x2));
            }
        }
    }
}

/// Parsing an `IfBranch` never panics, from any position: it parses or fails. Where it
/// parses, the cursor moves on, within the tokens if it started there, and the
/// parse tree holds, in order, exactly the tokens that it passed over.
#[verifier::spinoff_prover]
pub proof fn if_branch_parse_progresses(input: Tokens, pos: nat)
    ensures
        progresses(spec_if_branch(input, pos), input, pos, true),
        pos <= input.tokens.len() ==> reads(spec_if_branch(input, pos), input, pos),
    decreases rem(input, pos), 0nat,
{
    lemma_spec_if_branch(input, pos);
    lemma_token_at(input, pos);
    if let Outcome::Returns(Ok(x0), p0) = token::If::spec_parse(input, pos) {
        exp_parse_progresses(input, p0);
        if let Outcome::Returns(Ok(x1), p1) = spec_exp(input, p0) {
            lemma_token_at(input, p1);
            if let Outcome::Returns(Ok(x2), p2) = token::Then::spec_parse(input, p1) {
                chunk_parse_progresses(input, p2);
                if let Outcome::Returns(Ok(x3), p3) = spec_chunk(input, p2) {
                    lemma_concat(input, pos, p0, p1, leaves(x0), leaves(x1));
                    lemma_concat(input, pos, p1, p2, leaves(x0) + leaves(x1), leaves(x2));
                    lemma_concat(input, pos, p2, p3, leaves(x0) + leaves(x1) + leaves(x2), leaves(x3));
                    assert(seq![x0, x1, x2, x3] =~= seq![x0].push(x1).push(x2).push(x3));
                }
            }
        }
    }
}

/// Parsing an `ElseIfBranch` never panics, from any position: it parses or fails. Where it
/// parses, the cursor moves on, within the tokens if it started there, and the
/// parse tree holds, in order, exactly the tokens that it passed over.
#[verifier::spinoff_prover]
pub proof fn else_if_branch_parse_progresses(input: Tokens, pos: nat)
    ensures
        progresses(spec_else_if_branch(input, pos), input, pos, true),
        pos <= input.tokens.len() ==> reads(spec_else_if_branch(input, pos), input, pos),
    decreases rem(input, pos), 0nat,
{
    lemma_spec_else_if_branch(input, pos);
    lemma_token_at(input, pos);
    if let Outcome::Returns(Ok(x0), p0) = token::ElseIf::spec_parse(input, pos) {
        exp_parse_progresses(input, p0);
        if let Outcome::Returns(Ok(x1), p1) = spec_exp(input, p0) {
            lemma_token_at(input, p1);
            if let Outcome::Returns(Ok(x2), p2) = token::Then::spec_parse(input, p1) {
                chunk_parse_progresses(input, p2);
                if let Outcome::Returns(Ok(x3), p3) = spec_chunk(input, p2) {
                    lemma_concat(input, pos, p0, p1, leaves(x0), leaves(x1));
                    lemma_concat(input, pos, p1, p2, leaves(x0) + leaves(x1), leaves(x2));
                    lemma_concat(input, pos, p2, p3, leaves(x0) + leaves(x1) + leaves(x2), leaves(x3));
                    assert(seq![x0, x1, x2, x3] =~= seq![x0].push(x1).push(x2).push(x3));
                }
            }
        }
    }
}

/// Parsing an `ElseBranch` never panics, from any position: it parses or fails. Where it
/// parses, the cursor moves on, within the tokens if it started there, and the
/// parse tree holds, in order, exactly the tokens that it passed over.
#[verifier::spinoff_prover]
pub proof fn else_branch_parse_progresses(input: Tokens, pos: nat)
    ensures
        progresses(spec_else_branch(input, pos), input, pos, true),
        pos <= input.tokens.len() ==> reads(spec_else_branch(input, pos), input, pos),
    decreases rem(input, pos), 0nat,
{
    lemma_spec_else_branch(input, pos);
    lemma_token_at(input, pos);
    if let Outcome::Returns(Ok(x0), p0) = token::Else::spec_parse(input, pos) {
        chunk_parse_progresses(input, p0);
        if let Outcome::Returns(Ok(x1), p1) = spec_chunk(input, p0) {
            lemma_concat(input, pos, p0, p1, leaves(x0), leaves(x1));
            assert(seq![x0, x1] =~= seq![x0].push(x1));
        }
    }
}

/// Parsing a `FunctionCall` never panics, from any position: it parses or fails. Where it
/// parses, the cursor moves on, within the tokens if it started there, and the
/// parse tree holds, in order, exactly the tokens that it passed over.
#[verifier::spinoff_prover]
pub proof fn function_call_parse_progresses(input: Tokens, pos: nat)
    ensures
        progresses(spec_function_call(input, pos), input, pos, true),
        pos <= input.tokens.len() ==> reads(spec_function_call(input, pos), input, pos),
    decreases rem(input, pos), 3nat,
{
    lemma_spec_function_call(input, pos);
    prefix_exp_parse_progresses(input, pos);
    if let Outcome::Returns(Ok(x0), p0) = spec_prefix_exp(input, pos) {
        function_call_body_parse_progresses(input, p0);
        if let Outcome::Returns(Ok(x1), p1) = spec_function_call_body(input, p0) {
            lemma_concat(input, pos, p0, p1, leaves(x0), leaves(x1));
            assert(seq![x0, x1] =~= seq![x0].push(x1));
        }
    }
}

/// Parsing a `FunctionCallBody` never panics, from any position: it parses or fails. Where it
/// parses, the cursor moves on, within the tokens if it started there, and the
/// parse tree holds, in order, exactly the tokens that it passed over.
#[verifier::spinoff_prover]
pub proof fn function_call_body_parse_progresses(input: Tokens, pos: nat)
    ensures
        progresses(spec_function_call_body(input, pos), input, pos, true),
        pos <= input.tokens.len() ==> reads(spec_function_call_body(input, pos), input, pos),
    decreases rem(input, pos), 2nat,
{
    lemma_spec_function_call_body(input, pos);
    lemma_opt_qualifier_progresses(input, pos);
    if let Outcome::Returns(Ok(x0), p0) = spec_opt_qualifier(input, pos) {
        function_args_parse_progresses(input, p0);
        if let Outcome::Returns(Ok(x1), p1) = spec_function_args(input, p0) {
            lemma_concat(input, pos, p0, p1, leaves(x0), leaves(x1));
            assert(seq![x0, x1] =~= seq![x0].push(x1));
        }
    }
}

/// Parsing an `ArgList` never panics, from any position: it parses or fails. Where it
/// parses, the cursor moves on, within the tokens if it started there, and the
/// parse tree holds, in order, exactly the tokens that it passed over.
#[verifier::spinoff_prover]
pub proof fn arg_list_parse_progresses(input: Tokens, pos: nat)
    ensures
        progresses(spec_arg_list(input, pos), input, pos, true),
        pos <= input.tokens.len() ==> reads(spec_arg_list(input, pos), input, pos),
    decreases rem(input, pos), 0nat,
{
    lemma_spec_arg_list(input, pos);
    lemma_token_at(input, pos);
    if let Outcome::Returns(Ok(x0), p0) = token::OpenParen::spec_parse(input, pos) {
        lemma_exp_list_progresses(input, p0);
        if let Outcome::Returns(Ok(x1), p1) = spec_exp_list(input, p0) {
            lemma_token_at(input, p1);
            if let Outcome::Returns(Ok(x2), p2) = token::CloseParen::spec_parse(input, p1) {
                lemma_concat(input, pos, p0, p1, leaves(x0), leaves(x1));
                lemma_concat(input, pos, p1, p2, leaves(x0) + leaves(x1), leaves(x2));
                assert(seq![x0, x1, x2] =~= seq![x0].push(x1).push(x2));
            }
        }
    }
}

/// Parsing a `StFunctionDef` never panics, from any position: it parses or fails. Where it
/// parses, the cursor moves on, within the tokens if it started there, and the
/// parse tree holds, in order, exactly the tokens that it passed over.
#[verifier::spinoff_prover]
pub proof fn st_function_def_parse_progresses(input: Tokens, pos: nat)
    ensures
        progresses(spec_st_function_def(input, pos), input, pos, true),
        pos <= input.tokens.len() ==> reads(spec_st_function_def(input, pos), input, pos),
    decreases rem(input, pos), 0nat,
{
    lemma_spec_st_function_def(input, pos);
    lemma_token_at(input, pos);
    if let Outcome::Returns(Ok(x0), p0) = token::Function::spec_parse(input, pos) {
        function_name_parse_progresses(input, p0);
        if let Outcome::Returns(Ok(x1), p1) = spec_function_name(input, p0) {
            function_body_parse_progresses(input, p1);
            if let Outcome::Returns(Ok(x2), p2) = spec_function_body(input, p1) {
                lemma_concat(input, pos, p0, p1, leaves(x0), leaves(x1));
                lemma_concat(input, pos, p1, p2, leaves(x0) + leaves(x1), leaves(x2));
                assert(seq![x0, x1, x2] =~= seq![x0].push(x1).push(x2));
            }
        }
    }
}

/// Parsing a `StLocalFunctionDef` never panics, from any position: it parses or fails. Where it
/// parses, the cursor moves on, within the tokens if it started there, and the
/// parse tree holds, in order, exactly the tokens that it passed over.
#[verifier::spinoff_prover]
pub proof fn st_local_function_def_parse_progresses(input: Tokens, pos: nat)
    ensures
        progresses(spec_st_local_function_def(input, pos), input, pos, true),
        pos <= input.tokens.len() ==> reads(spec_st_local_function_def(input, pos), input, pos),
    decreases rem(input, pos), 0nat,
{
    lemma_spec_st_local_function_def(input, pos);
    lemma_token_at(input, pos);
    if let Outcome::Returns(Ok(x0), p0) = token::Local::spec_parse(input, pos) {
        lemma_token_at(input, p0);
        if let Outcome::Returns(Ok(x1), p1) = token::Function::spec_parse(input, p0) {
            lemma_token_at(input, p1);
            if let Outcome::Returns(Ok(x2), p2) = token::Name::spec_parse(input, p1) {
                function_body_parse_progresses(input, p2);
                if let Outcome::Returns(Ok(x3), p3) = spec_function_body(input, p2) {
                    lemma_concat(input, pos, p0, p1, leaves(x0), leaves(x1));
                    lemma_concat(input, pos, p1, p2, leaves(x0) + leaves(x1), leaves(x2));
                    lemma_concat(input, pos, p2, p3, leaves(x0) + leaves(x1) + leaves(x2), leaves(x3));
                    assert(seq![x0, x1, x2, x3] =~= seq![x0].push(x1).push(x2).push(x3));
                }
            }
        }
    }
}

/// Parsing a `StLocalInit` never panics, from any position: it parses or fails. Where it
/// parses, the cursor moves on, within the tokens if it started there, and the
/// parse tree holds, in order, exactly the tokens that it passed over.
#[verifier::spinoff_prover]
pub proof fn st_local_init_parse_progresses(input: Tokens, pos: nat)
    ensures
        progresses(spec_st_local_init(input, pos), input, pos, true),
        pos <= input.tokens.len() ==> reads(spec_st_local_init(input, pos), input, pos),
    decreases rem(input, pos), 0nat,
{
    lemma_spec_st_local_init(input, pos);
    lemma_token_at(input, pos);
    if let Outcome::Returns(Ok(x0), p0) = token::Local::spec_parse(input, pos) {
        lemma_attr_name_list_progresses(input, p0);
        if let Outcome::Returns(Ok(x1), p1) = spec_attr_name_list(input, p0) {
            lemma_local_init_progresses(input, p1);
            if let Outcome::Returns(Ok(x2), p2) = spec_local_init(input, p1) {
                lemma_concat(input, pos, p0, p1, leaves(x0), leaves(x1));
                lemma_concat(input, pos, p1, p2, leaves(x0) + leaves(x1), leaves(x2));
                assert(seq![x0, x1, x2] =~= seq![x0].push(x1).push(x2));
            }
        }
    }
}

/// Parsing a `StGoto` never panics, from any position: it parses or fails. Where it
/// parses, the cursor moves on, within the tokens if it started there, and the
/// parse tree holds, in order, exactly the tokens that it passed over.
#[verifier::spinoff_prover]
pub proof fn st_goto_parse_progresses(input: Tokens, pos: nat)
    ensures
        progresses(spec_st_goto(input, pos), input, pos, true),
        pos <= input.tokens.len() ==> reads(spec_st_goto(input, pos), input, pos),
{
    lemma_spec_st_goto(input, pos);
    lemma_token_at(input, pos);
    if let Outcome::Returns(Ok(x0), p0) = token::Goto::spec_parse(input, pos) {
        lemma_token_at(input, p0);
        if let Outcome::Returns(Ok(x1), p1) = token::Name::spec_parse(input, p0) {
            lemma_concat(input, pos, p0, p1, leaves(x0), leaves(x1));
            assert(seq![x0, x1] =~= seq![x0].push(x1));
        }
    }
}

/// Parsing a `StLabel` never panics, from any position: it parses or fails. Where it
/// parses, the cursor moves on, within the tokens if it started there, and the
/// parse tree holds, in order, exactly the tokens that it passed over.
#[verifier::spinoff_prover]
pub proof fn st_label_parse_progresses(input: Tokens, pos: nat)
    ensures
        progresses(spec_st_label(input, pos), input, pos, true),
        pos <= input.tokens.len() ==> reads(spec_st_label(input, pos), input, pos),
{
    lemma_spec_st_label(input, pos);
    lemma_token_at(input, pos);
    if let Outcome::Returns(Ok(x0), p0) = token::DoubleColon::spec_parse(input, pos) {
        lemma_token_at(input, p0);
        if let Outcome::Returns(Ok(x1), p1) = token::Name::spec_parse(input, p0) {
            lemma_token_at(input, p1);
            if let Outcome::Returns(Ok(x2), p2) = token::DoubleColon::spec_parse(input, p1) {
                lemma_concat(input, pos, p0, p1, leaves(x0), leaves(x1));
                lemma_concat(input, pos, p1, p2, leaves(x0) + leaves(x1), leaves(x2));
                assert(seq![x0, x1, x2] =~= seq![x0].push(x1).push(x2));
            }
        }
    }
}

/// Parsing a `StReturn` never panics, from any position: it parses or fails. Where it
/// parses, the cursor moves on, within the tokens if it started there, and the
/// parse tree holds, in order, exactly the tokens that it passed over.
#[verifier::spinoff_prover]
pub proof fn st_return_parse_progresses(input: Tokens, pos: nat)
    ensures
        progresses(spec_st_return(input, pos), input, pos, true),
        pos <= input.tokens.len() ==> reads(spec_st_return(input, pos), input, pos),
    decreases rem(input, pos), 0nat,
{
    lemma_spec_st_return(input, pos);
    lemma_token_at(input, pos);
    if let Outcome::Returns(Ok(x0), p0) = token::Return::spec_parse(input, pos) {
        lemma_exp_list_progresses(input, p0);
        if let Outcome::Returns(Ok(x1), p1) = spec_exp_list(input, p0) {
            lemma_concat(input, pos, p0, p1, leaves(x0), leaves(x1));
            assert(seq![x0, x1] =~= seq![x0].push(x1));
        }
    }
}

/// Parsing a `StBreak` never panics, from any position: it parses or fails. Where it
/// parses, the cursor moves on, within the tokens if it started there, and the
/// parse tree holds, in order, exactly the tokens that it passed over.
#[verifier::spinoff_prover]
pub proof fn st_break_parse_progresses(input: Tokens, pos: nat)
    ensures
        progresses(spec_st_break(input, pos), input, pos, true),
        pos <= input.tokens.len() ==> reads(spec_st_break(input, pos), input, pos),
{
    lemma_spec_st_break(input, pos);
    lemma_token_at(input, pos);
}

/// Parsing a `FunctionBody` never panics, from any position: it parses or fails. Where it
/// parses, the cursor moves on, within the tokens if it started there, and the
/// parse tree holds, in order, exactly the tokens that it passed over.
#[verifier::spinoff_prover]
pub proof fn function_body_parse_progresses(input: Tokens, pos: nat)
    ensures
        progresses(spec_function_body(input, pos), input, pos, true),
        pos <= input.tokens.len() ==> reads(spec_function_body(input, pos), input, pos),
    decreases rem(input, pos), 0nat,
{
    lemma_spec_function_body(input, pos);
    lemma_token_at(input, pos);
    if let Outcome::Returns(Ok(x0), p0) = token::OpenParen::spec_parse(input, pos) {
        par_list_parse_progresses(input, p0);
        if let Outcome::Returns(Ok(x1), p1) = spec_par_list(input, p0) {
            lemma_token_at(input, p1);
            if let Outcome::Returns(Ok(x2), p2) = token::CloseParen::spec_parse(input, p1) {
                chunk_parse_progresses(input, p2);
                if let Outcome::Returns(Ok(x3), p3) = spec_chunk(input, p2) {
                    lemma_token_at(input, p3);
                    if let Outcome::Returns(Ok(x4), p4) = token::End::spec_parse(input, p3) {
                        lemma_concat(input, pos, p0, p1, leaves(x0), leaves(x1));
                        lemma_concat(input, pos, p1, p2, leaves(x0) + leaves(x1), leaves(x2));
                        lemma_concat(input, pos, p2, p3, leaves(x0) + leaves(x1) + leaves(x2), leaves(x3));
                        lemma_concat(input, pos, p3, p4, leaves(x0) + leaves(x1) + leaves(x2) + leaves(x3), leaves(x4));
                        assert(seq![x0, x1, x2, x3, x4] =~= seq![x0].push(x1).push(x2).push(x3).push(x4));
                    }
                }
            }
        }
    }
}

/// Parsing a `ParList` never panics, from any position: it parses or fails. Where it
/// parses, the cursor moves on, within the tokens if it started there, and the
/// parse tree holds, in order, exactly the tokens that it passed over.
#[verifier::spinoff_prover]
pub proof fn par_list_parse_progresses(input: Tokens, pos: nat)
    ensures
        progresses(spec_par_list(input, pos), input, pos, false),
        pos <= input.tokens.len() ==> reads(spec_par_list(input, pos), input, pos),
{
    lemma_spec_par_list(input, pos);
    lemma_name_list_progresses(input, pos);
    if let Outcome::Returns(Ok(x0), p0) = spec_name_list(input, pos) {
        lemma_opt_ellipses_progresses(input, p0);
        if let Outcome::Returns(Ok(x1), p1) = spec_opt_ellipses(input, p0) {
            lemma_concat(input, pos, p0, p1, leaves(x0), leaves(x1));
            assert(seq![x0, x1] =~= seq![x0].push(x1));
        }
    }
}

/// Parsing a `VarIndex` never panics, from any position: it parses or fails. Where it
/// parses, the cursor moves on, within the tokens if it started there, and the
/// parse tree holds, in order, exactly the tokens that it passed over.
#[verifier::spinoff_prover]
pub proof fn var_index_parse_progresses(input: Tokens, pos: nat)
    ensures
        progresses(spec_var_index(input, pos), input, pos, true),
        pos <= input.tokens.len() ==> reads(spec_var_index(input, pos), input, pos),
    decreases rem(input, pos), 3nat,
{
    lemma_spec_var_index(input, pos);
    prefix_exp_parse_progresses(input, pos);
    if let Outcome::Returns(Ok(x0), p0) = spec_prefix_exp(input, pos) {
        var_index_body_parse_progresses(input, p0);
        if let Outcome::Returns(Ok(x1), p1) = spec_var_index_body(input, p0) {
            lemma_concat(input, pos, p0, p1, leaves(x0), leaves(x1));
            assert(seq![x0, x1] =~= seq![x0].push(x1));
        }
    }
}

/// Parsing a `VarIndexBody` never panics, from any position: it parses or fails. Where it
/// parses, the cursor moves on, within the tokens if it started there, and the
/// parse tree holds, in order, exactly the tokens that it passed over.
#[verifier::spinoff_prover]
pub proof fn var_index_body_parse_progresses(input: Tokens, pos: nat)
    ensures
        progresses(spec_var_index_body(input, pos), input, pos, true),
        pos <= input.tokens.len() ==> reads(spec_var_index_body(input, pos), input, pos),
    decreases rem(input, pos), 0nat,
{
    lemma_spec_var_index_body(input, pos);
    lemma_token_at(input, pos);
    if let Outcome::Returns(Ok(x0), p0) = token::OpenBracket::spec_parse(input, pos) {
        exp_parse_progresses(input, p0);
        if let Outcome::Returns(Ok(x1), p1) = spec_exp(input, p0) {
            lemma_token_at(input, p1);
            if let Outcome::Returns(Ok(x2), p2) = token::CloseBracket::spec_parse(input, p1) {
                lemma_concat(input, pos, p0, p1, leaves(x0), leaves(x1));
                lemma_concat(input, pos, p1, p2, leaves(x0) + leaves(x1), leaves(x2));
                assert(seq![x0, x1, x2] =~= seq![x0].push(x1).push(x2));
            }
        }
    }
}

/// Parsing a `VarAccess` never panics, from any position: it parses or fails. Where it
/// parses, the cursor moves on, within the tokens if it started there, and the
/// parse tree holds, in order, exactly the tokens that it passed over.
#[verifier::spinoff_prover]
pub proof fn var_access_parse_progresses(input: Tokens, pos: nat)
    ensures
        progresses(spec_var_access(input, pos), input, pos, true),
        pos <= input.tokens.len() ==> reads(spec_var_access(input, pos), input, pos),
    decreases rem(input, pos), 3nat,
{
    lemma_spec_var_access(input, pos);
    prefix_exp_parse_progresses(input, pos);
    if let Outcome::Returns(Ok(x0), p0) = spec_prefix_exp(input, pos) {
        var_access_body_parse_progresses(input, p0);
        if let Outcome::Returns(Ok(x1), p1) = spec_var_access_body(input, p0) {
            lemma_concat(input, pos, p0, p1, leaves(x0), leaves(x1));
            assert(seq![x0, x1] =~= seq![x0].push(x1));
        }
    }
}

/// Parsing a `VarAccessBody` never panics, from any position: it parses or fails. Where it
/// parses, the cursor moves on, within the tokens if it started there, and the
/// parse tree holds, in order, exactly the tokens that it passed over.
#[verifier::spinoff_prover]
pub proof fn var_access_body_parse_progresses(input: Tokens, pos: nat)
    ensures
        progresses(spec_var_access_body(input, pos), input, pos, true),
        pos <= input.tokens.len() ==> reads(spec_var_access_body(input, pos), input, pos),
{
    lemma_spec_var_access_body(input, pos);
    lemma_token_at(input, pos);
    if let Outcome::Returns(Ok(x0), p0) = token::Dot::spec_parse(input, pos) {
        lemma_token_at(input, p0);
        if let Outcome::Returns(Ok(x1), p1) = token::Name::spec_parse(input, p0) {
            lemma_concat(input, pos, p0, p1, leaves(x0), leaves(x1));
            assert(seq![x0, x1] =~= seq![x0].push(x1));
        }
    }
}

/// Parsing a `PrefixExp` never panics, from any position: it parses or fails. Where it
/// parses, the cursor moves on, within the tokens if it started there, and the
/// parse tree holds, in order, exactly the tokens that it passed over.
#[verifier::spinoff_prover]
pub proof fn prefix_exp_parse_progresses(input: Tokens, pos: nat)
    ensures
        progresses(spec_prefix_exp(input, pos), input, pos, true),
        pos <= input.tokens.len() ==> reads(spec_prefix_exp(input, pos), input, pos),
    decreases rem(input, pos), 2nat,
{
    lemma_spec_prefix_exp(input, pos);
    prefix_exp_kind_parse_progresses(input, pos);
    if let Outcome::Returns(Ok(x0), p0) = spec_prefix_exp_kind(input, pos) {
        lemma_suffixes_progresses(input, p0);
        if let Outcome::Returns(Ok(x1), p1) = spec_suffixes(input, p0) {
            lemma_concat(input, pos, p0, p1, leaves(x0), leaves(x1));
            assert(seq![x0, x1] =~= seq![x0].push(x1));
        }
    }
}

/// Parsing a `PrefixParens` never panics, from any position: it parses or fails. Where it
/// parses, the cursor moves on, within the tokens if it started there, and the
/// parse tree holds, in order, exactly the tokens that it passed over.
#[verifier::spinoff_prover]
pub proof fn prefix_parens_parse_progresses(input: Tokens, pos: nat)
    ensures
        progresses(spec_prefix_parens(input, pos), input, pos, true),
        pos <= input.tokens.len() ==> reads(spec_prefix_parens(input, pos), input, pos),
    decreases rem(input, pos), 0nat,
{
    lemma_spec_prefix_parens(input, pos);
    lemma_token_at(input, pos);
    if let Outcome::Returns(Ok(x0), p0) = token::OpenParen::spec_parse(input, pos) {
        exp_parse_progresses(input, p0);
        if let Outcome::Returns(Ok(x1), p1) = spec_exp(input, p0) {
            lemma_token_at(input, p1);
            if let Outcome::Returns(Ok(x2), p2) = token::CloseParen::spec_parse(input, p1) {
                lemma_concat(input, pos, p0, p1, leaves(x0), leaves(x1));
                lemma_concat(input, pos, p1, p2, leaves(x0) + leaves(x1), leaves(x2));
                assert(seq![x0, x1, x2] =~= seq![x0].push(x1).push(x2));
            }
        }
    }
}

/// Parsing an `ExpFunction` never panics, from any position: it parses or fails. Where it
/// parses, the cursor moves on, within the tokens if it started there, and the
/// parse tree holds, in order, exactly the tokens that it passed over.
#[verifier::spinoff_prover]
pub proof fn exp_function_parse_progresses(input: Tokens, pos: nat)
    ensures
        progresses(spec_exp_function(input, pos), input, pos, true),
        pos <= input.tokens.len() ==> reads(spec_exp_function(input, pos), input, pos),
    decreases rem(input, pos), 0nat,
{
    lemma_spec_exp_function(input, pos);
    lemma_token_at(input, pos);
    if let Outcome::Returns(Ok(x0), p0) = token::Function::spec_parse(input, pos) {
        function_body_parse_progresses(input, p0);
        if let Outcome::Returns(Ok(x1), p1) = spec_function_body(input, p0) {
            lemma_concat(input, pos, p0, p1, leaves(x0), leaves(x1));
            assert(seq![x0, x1] =~= seq![x0].push(x1));
        }
    }
}

/// Parsing a `TableConstructor` never panics, from any position: it parses or fails. Where it
/// parses, the cursor moves on, within the tokens if it started there, and the
/// parse tree holds, in order, exactly the tokens that it passed over.
#[verifier::spinoff_prover]
pub proof fn table_constructor_parse_progresses(input: Tokens, pos: nat)
    ensures
        progresses(spec_table_constructor(input, pos), input, pos, true),
        pos <= input.tokens.len() ==> reads(spec_table_constructor(input, pos), input, pos),
    decreases rem(input, pos), 0nat,
{
    lemma_spec_table_constructor(input, pos);
    lemma_token_at(input, pos);
    if let Outcome::Returns(Ok(x0), p0) = token::OpenBrace::spec_parse(input, pos) {
        lemma_fields_progresses(input, p0);
        if let Outcome::Returns(Ok(x1), p1) = spec_fields(input, p0) {
            lemma_token_at(input, p1);
            if let Outcome::Returns(Ok(x2), p2) = token::CloseBrace::spec_parse(input, p1) {
                lemma_concat(input, pos, p0, p1, leaves(x0), leaves(x1));
                lemma_concat(input, pos, p1, p2, leaves(x0) + leaves(x1), leaves(x2));
                assert(seq![x0, x1, x2] =~= seq![x0].push(x1).push(x2));
            }
        }
    }
}

/// Parsing a `MapField` never panics, from any position: it parses or fails. Where it
/// parses, the cursor moves on, within the tokens if it started there, and the
/// parse tree holds, in order, exactly the tokens that it passed over.
#[verifier::spinoff_prover]
pub proof fn map_field_parse_progresses(input: Tokens, pos: nat)
    ensures
        progresses(spec_map_field(input, pos), input, pos, true),
        pos <= input.tokens.len() ==> reads(spec_map_field(input, pos), input, pos),
    decreases rem(input, pos), 0nat,
{
    lemma_spec_map_field(input, pos);
    lemma_token_at(input, pos);
    if let Outcome::Returns(Ok(x0), p0) = token::Name::spec_parse(input, pos) {
        lemma_token_at(input, p0);
        if let Outcome::Returns(Ok(x1), p1) = token::Equal::spec_parse(input, p0) {
            exp_parse_progresses(input, p1);
            if let Outcome::Returns(Ok(x2), p2) = spec_exp(input, p1) {
                lemma_concat(input, pos, p0, p1, leaves(x0), leaves(x1));
                lemma_concat(input, pos, p1, p2, leaves(x0) + leaves(x1), leaves(x2));
                assert(seq![x0, x1, x2] =~= seq![x0].push(x1).push(x2));
            }
        }
    }
}

/// Parsing a `BracketField` never panics, from any position: it parses or fails. Where it
/// parses, the cursor moves on, within the tokens if it started there, and the
/// parse tree holds, in order, exactly the tokens that it passed over.
#[verifier::spinoff_prover]
pub proof fn bracket_field_parse_progresses(input: Tokens, pos: nat)
    ensures
        progresses(spec_bracket_field(input, pos), input, pos, true),
        pos <= input.tokens.len() ==> reads(spec_bracket_field(input, pos), input, pos),
    decreases rem(input, pos), 0nat,
{
    lemma_spec_bracket_field(input, pos);
    lemma_token_at(input, pos);
    if let Outcome::Returns(Ok(x0), p0) = token::OpenBracket::spec_parse(input, pos) {
        exp_parse_progresses(input, p0);
        if let Outcome::Returns(Ok(x1), p1) = spec_exp(input, p0) {
            lemma_token_at(input, p1);
            if let Outcome::Returns(Ok(x2), p2) = token::CloseBracket::spec_parse(input, p1) {
                lemma_token_at(input, p2);
                if let Outcome::Returns(Ok(x3), p3) = token::Equal::spec_parse(input, p2) {
                    exp_parse_progresses(input, p3);
                    if let Outcome::Returns(Ok(x4), p4) = spec_exp(input, p3) {
                        lemma_concat(input, pos, p0, p1, leaves(x0), leaves(x1));
                        lemma_concat(input, pos, p1, p2, leaves(x0) + leaves(x1), leaves(x2));
                        lemma_concat(input, pos, p2, p3, leaves(x0) + leaves(x1) + leaves(x2), leaves(x3));
                        lemma_concat(input, pos, p3, p4, leaves(x0) + leaves(x1) + leaves(x2) + leaves(x3), leaves(x4));
                        assert(seq![x0, x1, x2, x3, x4] =~= seq![x0].push(x1).push(x2).push(x3).push(x4));
                    }
                }
            }
        }
    }
}

/// Parsing a `Statement` never panics, from any position: it parses or fails. Where it
/// parses, the cursor moves on, within the tokens if it started there, and the
/// parse tree holds, in order, exactly the tokens that it passed over.
#[verifier::spinoff_prover]
pub proof fn statement_parse_progresses(input: Tokens, pos: nat)
    ensures
        progresses(spec_statement(input, pos), input, pos, true),
        pos <= input.tokens.len() ==> reads(spec_statement(input, pos), input, pos),
    decreases rem(input, pos), 9nat,
{
    lemma_spec_statement(input, pos);
    st_assign_parse_progresses(input, pos);
    function_call_parse_progresses(input, pos);
    st_block_parse_progresses(input, pos);
    st_while_loop_parse_progresses(input, pos);
    st_repeat_loop_parse_progresses(input, pos);
    st_if_else_parse_progresses(input, pos);
    st_for_range_loop_parse_progresses(input, pos);
    st_for_in_loop_parse_progresses(input, pos);
    st_function_def_parse_progresses(input, pos);
    st_local_function_def_parse_progresses(input, pos);
    st_local_init_parse_progresses(input, pos);
    st_goto_parse_progresses(input, pos);
    st_label_parse_progresses(input, pos);
    st_break_parse_progresses(input, pos);
}

/// Parsing a `FunctionArgs` never panics, from any position: it parses or fails. Where it
/// parses, the cursor moves on, within the tokens if it started there, and the
/// parse tree holds, in order, exactly the tokens that it passed over.
#[verifier::spinoff_prover]
pub proof fn function_args_parse_progresses(input: Tokens, pos: nat)
    ensures
        progresses(spec_function_args(input, pos), input, pos, true),
        pos <= input.tokens.len() ==> reads(spec_function_args(input, pos), input, pos),
    decreases rem(input, pos), 1nat,
{
    lemma_spec_function_args(input, pos);
    arg_list_parse_progresses(input, pos);
    table_constructor_parse_progresses(input, pos);
    lemma_token_at(input, pos);
}

/// Parsing a `LastStatement` never panics, from any position: it parses or fails. Where it
/// parses, the cursor moves on, within the tokens if it started there, and the
/// parse tree holds, in order, exactly the tokens that it passed over.
#[verifier::spinoff_prover]
pub proof fn last_statement_parse_progresses(input: Tokens, pos: nat)
    ensures
        progresses(spec_last_statement(input, pos), input, pos, true),
        pos <= input.tokens.len() ==> reads(spec_last_statement(input, pos), input, pos),
    decreases rem(input, pos), 1nat,
{
    lemma_spec_last_statement(input, pos);
    st_return_parse_progresses(input, pos);
}

/// Parsing a `Var` never panics, from any position: it parses or fails. Where it
/// parses, the cursor moves on, within the tokens if it started there, and the
/// parse tree holds, in order, exactly the tokens that it passed over.
#[verifier::spinoff_prover]
pub proof fn var_parse_progresses(input: Tokens, pos: nat)
    ensures
        progresses(spec_var(input, pos), input, pos, true),
        pos <= input.tokens.len() ==> reads(spec_var(input, pos), input, pos),
    decreases rem(input, pos), 4nat,
{
    lemma_spec_var(input, pos);
    lemma_token_at(input, pos);
    var_index_parse_progresses(input, pos);
    var_access_parse_progresses(input, pos);
}

/// Parsing a `PrefixExpKind` never panics, from any position: it parses or fails. Where it
/// parses, the cursor moves on, within the tokens if it started there, and the
/// parse tree holds, in order, exactly the tokens that it passed over.
#[verifier::spinoff_prover]
pub proof fn prefix_exp_kind_parse_progresses(input: Tokens, pos: nat)
    ensures
        progresses(spec_prefix_exp_kind(input, pos), input, pos, true),
        pos <= input.tokens.len() ==> reads(spec_prefix_exp_kind(input, pos), input, pos),
    decreases rem(input, pos), 1nat,
{
    lemma_spec_prefix_exp_kind(input, pos);
    lemma_token_at(input, pos);
    prefix_parens_parse_progresses(input, pos);
}

/// Parsing a `PrefixExpSuffix` never panics, from any position: it parses or fails. Where it
/// parses, the cursor moves on, within the tokens if it started there, and the
/// parse tree holds, in order, exactly the tokens that it passed over.
#[verifier::spinoff_prover]
pub proof fn prefix_exp_suffix_parse_progresses(input: Tokens, pos: nat)
    ensures
        progresses(spec_prefix_exp_suffix(input, pos), input, pos, true),
        pos <= input.tokens.len() ==> reads(spec_prefix_exp_suffix(input, pos), input, pos),
    decreases rem(input, pos), 3nat,
{
    lemma_spec_prefix_exp_suffix(input, pos);
    function_call_body_parse_progresses(input, pos);
    var_index_body_parse_progresses(input, pos);
    var_access_body_parse_progresses(input, pos);
}

/// Parsing an `ExpAtom` never panics, from any position: it parses or fails. Where it
/// parses, the cursor moves on, within the tokens if it started there, and the
/// parse tree holds, in order, exactly the tokens that it passed over.
#[verifier::spinoff_prover]
pub proof fn exp_atom_parse_progresses(input: Tokens, pos: nat)
    ensures
        progresses(spec_exp_atom(input, pos), input, pos, true),
        pos <= input.tokens.len() ==> reads(spec_exp_atom(input, pos), input, pos),
    decreases rem(input, pos), 3nat,
{
    lemma_spec_exp_atom(input, pos);
    lemma_token_at(input, pos);
    lemma_token_at(input, pos);
    lemma_token_at(input, pos);
    exp_literal_parse_progresses(input, pos);
    lemma_token_at(input, pos);
    exp_function_parse_progresses(input, pos);
    prefix_exp_parse_progresses(input, pos);
    table_constructor_parse_progresses(input, pos);
}

/// Parsing a `BinaryOperand` never panics, from any position: it parses or fails. Where it
/// parses, the cursor moves on, within the tokens if it started there, and the
/// parse tree holds, in order, exactly the tokens that it passed over.
#[verifier::spinoff_prover]
pub proof fn binary_operand_parse_progresses(input: Tokens, pos: nat)
    ensures
        progresses(spec_binary_operand(input, pos), input, pos, true),
        pos <= input.tokens.len() ==> reads(spec_binary_operand(input, pos), input, pos),
{
    lemma_binary_operand_leaves(input, pos);
}

/// Parsing an `UnaryOperand` never panics, from any position: it parses or fails. Where it
/// parses, the cursor moves on, within the tokens if it started there, and the
/// parse tree holds, in order, exactly the tokens that it passed over.
#[verifier::spinoff_prover]
pub proof fn unary_operand_parse_progresses(input: Tokens, pos: nat)
    ensures
        progresses(spec_unary_operand(input, pos), input, pos, true),
        pos <= input.tokens.len() ==> reads(spec_unary_operand(input, pos), input, pos),
{
    lemma_unary_operand_leaves(input, pos);
}

/// Parsing a `FieldSep` never panics, from any position: it parses or fails. Where it
/// parses, the cursor moves on, within the tokens if it started there, and the
/// parse tree holds, in order, exactly the tokens that it passed over.
#[verifier::spinoff_prover]
pub proof fn field_sep_parse_progresses(input: Tokens, pos: nat)
    ensures
        progresses(spec_field_sep(input, pos), input, pos, true),
        pos <= input.tokens.len() ==> reads(spec_field_sep(input, pos), input, pos),
{
    lemma_spec_field_sep(input, pos);
    lemma_token_at(input, pos);
    lemma_token_at(input, pos);
}

/// Parsing a `Field` never panics, from any position: it parses or fails. Where it
/// parses, the cursor moves on, within the tokens if it started there, and the
/// parse tree holds, in order, exactly the tokens that it passed over.
#[verifier::spinoff_prover]
pub proof fn field_parse_progresses(input: Tokens, pos: nat)
    ensures
        progresses(spec_field(input, pos), input, pos, true),
        pos <= input.tokens.len() ==> reads(spec_field(input, pos), input, pos),
    decreases rem(input, pos), 7nat,
{
    lemma_spec_field(input, pos);
    exp_parse_progresses(input, pos);
    map_field_parse_progresses(input, pos);
    bracket_field_parse_progresses(input, pos);
}

/// Parsing an `ExpLiteral` never panics, from any position: it parses or fails. Where it
/// parses, the cursor moves on, within the tokens if it started there, and the
/// parse tree holds, in order, exactly the tokens that it passed over.
#[verifier::spinoff_prover]
pub proof fn exp_literal_parse_progresses(input: Tokens, pos: nat)
    ensures
        progresses(spec_exp_literal(input, pos), input, pos, true),
        pos <= input.tokens.len() ==> reads(spec_exp_literal(input, pos), input, pos),
{
    lemma_spec_exp_literal(input, pos);
    lemma_token_at(input, pos);
    lemma_token_at(input, pos);
}

#[verifier::spinoff_prover]
proof fn lemma_stmts_items_progresses(input: Tokens, pos: nat)
    ensures
        progresses(spec_stmts_items(input, pos), input, pos, false),
        pos <= input.tokens.len() ==> reads_all(spec_stmts_items(input, pos), input, pos),
    decreases rem(input, pos), 11nat,
{
    lemma_spec_stmts_items(input, pos);
    lemma_stmt_semi_progresses(input, pos);
    if let Outcome::Returns(Ok(x), p) = spec_stmt_semi(input, pos) {
        lemma_stmts_items_progresses(input, p);
        if let Outcome::Returns(Ok(ts), q) = spec_stmts_items(input, p) {
            lemma_leaves_of_add(seq![x], ts);
            lemma_concat(input, pos, p, q, leaves(x), leaves_of(ts));
        }
    }
}

#[verifier::spinoff_prover]
proof fn lemma_stmts_progresses(input: Tokens, pos: nat)
    ensures
        progresses(spec_stmts(input, pos), input, pos, false),
        pos <= input.tokens.len() ==> reads(spec_stmts(input, pos), input, pos),
    decreases rem(input, pos), 12nat,
{
    lemma_spec_stmts(input, pos);
    lemma_stmts_items_progresses(input, pos);
}

#[verifier::spinoff_prover]
proof fn lemma_stmt_semi_progresses(input: Tokens, pos: nat)
    ensures
        progresses(spec_stmt_semi(input, pos), input, pos, true),
        pos <= input.tokens.len() ==> reads(spec_stmt_semi(input, pos), input, pos),
    decreases rem(input, pos), 10nat,
{
    lemma_spec_stmt_semi(input, pos);
    statement_parse_progresses(input, pos);
    if let Outcome::Returns(Ok(x0), p0) = spec_statement(input, pos) {
        lemma_opt_semi_progresses(input, p0);
        if let Outcome::Returns(Ok(x1), p1) = spec_opt_semi(input, p0) {
            lemma_concat(input, pos, p0, p1, leaves(x0), leaves(x1));
            assert(seq![x0, x1] =~= seq![x0].push(x1));
        }
    }
}

#[verifier::spinoff_prover]
proof fn lemma_opt_semi_progresses(input: Tokens, pos: nat)
    ensures
        progresses(spec_opt_semi(input, pos), input, pos, false),
        pos <= input.tokens.len() ==> reads(spec_opt_semi(input, pos), input, pos),
{
    lemma_spec_opt_semi(input, pos);
    lemma_token_at(input, pos);
}

#[verifier::spinoff_prover]
proof fn lemma_opt_last_progresses(input: Tokens, pos: nat)
    ensures
        progresses(spec_opt_last(input, pos), input, pos, false),
        pos <= input.tokens.len() ==> reads(spec_opt_last(input, pos), input, pos),
    decreases rem(input, pos), 3nat,
{
    lemma_spec_opt_last(input, pos);
    lemma_last_semi_progresses(input, pos);
}

#[verifier::spinoff_prover]
proof fn lemma_last_semi_progresses(input: Tokens, pos: nat)
    ensures
        progresses(spec_last_semi(input, pos), input, pos, true),
        pos <= input.tokens.len() ==> reads(spec_last_semi(input, pos), input, pos),
    decreases rem(input, pos), 2nat,
{
    lemma_spec_last_semi(input, pos);
    last_statement_parse_progresses(input, pos);
    if let Outcome::Returns(Ok(x0), p0) = spec_last_statement(input, pos) {
        lemma_opt_semi_progresses(input, p0);
        if let Outcome::Returns(Ok(x1), p1) = spec_opt_semi(input, p0) {
            lemma_concat(input, pos, p0, p1, leaves(x0), leaves(x1));
            assert(seq![x0, x1] =~= seq![x0].push(x1));
        }
    }
}

#[verifier::spinoff_prover]
proof fn lemma_var_list_progresses(input: Tokens, pos: nat)
    ensures
        progresses(spec_var_list(input, pos), input, pos, false),
        pos <= input.tokens.len() ==> reads(spec_var_list(input, pos), input, pos),
    decreases rem(input, pos), 7nat,
{
    lemma_spec_var_list(input, pos);
    lemma_var_pairs_progresses(input, pos);
    if let Outcome::Returns(Ok(pt), p1) = spec_var_pairs(input, pos) {
        var_parse_progresses(input, p1);
        if let Outcome::Returns(Ok(last), p2) = spec_var(input, p1) {
            lemma_concat(input, pos, p1, p2, leaves(pt), leaves(last));
            assert(seq![pt, last] =~= seq![pt].push(last));
        }
    }
}

#[verifier::spinoff_prover]
proof fn lemma_var_pairs_items_progresses(input: Tokens, pos: nat)
    ensures
        progresses(spec_var_pairs_items(input, pos), input, pos, false),
        pos <= input.tokens.len() ==> reads_all(spec_var_pairs_items(input, pos), input, pos),
    decreases rem(input, pos), 5nat,
{
    lemma_spec_var_pairs_items(input, pos);
    var_parse_progresses(input, pos);
    if let Outcome::Returns(Ok(x), p1) = spec_var(input, pos) {
        lemma_token_at(input, p1);
        if let Outcome::Returns(Ok(sp), p2) = token::Comma::spec_parse(input, p1) {
            lemma_var_pairs_items_progresses(input, p2);
            if let Outcome::Returns(Ok(ts), q) = spec_var_pairs_items(input, p2) {
                lemma_concat(input, pos, p1, p2, leaves(x), leaves(sp));
                assert(seq![x, sp] =~= seq![x].push(sp));
                lemma_leaves_of_add(seq![Tree::Node(seq![x, sp])], ts);
                lemma_concat(input, pos, p2, q, leaves(x) + leaves(sp), leaves_of(ts));
            }
        }
    }
}

#[verifier::spinoff_prover]
proof fn lemma_var_pairs_progresses(input: Tokens, pos: nat)
    ensures
        progresses(spec_var_pairs(input, pos), input, pos, false),
        pos <= input.tokens.len() ==> reads(spec_var_pairs(input, pos), input, pos),
    decreases rem(input, pos), 6nat,
{
    lemma_spec_var_pairs(input, pos);
    lemma_var_pairs_items_progresses(input, pos);
}

#[verifier::spinoff_prover]
proof fn lemma_exp_list_progresses(input: Tokens, pos: nat)
    ensures
        progresses(spec_exp_list(input, pos), input, pos, false),
        pos <= input.tokens.len() ==> reads(spec_exp_list(input, pos), input, pos),
    decreases rem(input, pos), 9nat,
{
    lemma_spec_exp_list(input, pos);
    lemma_exp_pairs_progresses(input, pos);
    if let Outcome::Returns(Ok(pt), p1) = spec_exp_pairs(input, pos) {
        exp_parse_progresses(input, p1);
        if let Outcome::Returns(Ok(last), p2) = spec_exp(input, p1) {
            lemma_concat(input, pos, p1, p2, leaves(pt), leaves(last));
            assert(seq![pt, last] =~= seq![pt].push(last));
        }
    }
}

#[verifier::spinoff_prover]
proof fn lemma_exp_pairs_items_progresses(input: Tokens, pos: nat)
    ensures
        progresses(spec_exp_pairs_items(input, pos), input, pos, false),
        pos <= input.tokens.len() ==> reads_all(spec_exp_pairs_items(input, pos), input, pos),
    decreases rem(input, pos), 7nat,
{
    lemma_spec_exp_pairs_items(input, pos);
    exp_parse_progresses(input, pos);
    if let Outcome::Returns(Ok(x), p1) = spec_exp(input, pos) {
        lemma_token_at(input, p1);
        if let Outcome::Returns(Ok(sp), p2) = token::Comma::spec_parse(input, p1) {
            lemma_exp_pairs_items_progresses(input, p2);
            if let Outcome::Returns(Ok(ts), q) = spec_exp_pairs_items(input, p2) {
                lemma_concat(input, pos, p1, p2, leaves(x), leaves(sp));
                assert(seq![x, sp] =~= seq![x].push(sp));
                lemma_leaves_of_add(seq![Tree::Node(seq![x, sp])], ts);
                lemma_concat(input, pos, p2, q, leaves(x) + leaves(sp), leaves_of(ts));
            }
        }
    }
}

#[verifier::spinoff_prover]
proof fn lemma_exp_pairs_progresses(input: Tokens, pos: nat)
    ensures
        progresses(spec_exp_pairs(input, pos), input, pos, false),
        pos <= input.tokens.len() ==> reads(spec_exp_pairs(input, pos), input, pos),
    decreases rem(input, pos), 8nat,
{
    lemma_spec_exp_pairs(input, pos);
    lemma_exp_pairs_items_progresses(input, pos);
}

#[verifier::spinoff_prover]
proof fn lemma_name_list_progresses(input: Tokens, pos: nat)
    ensures
        progresses(spec_name_list(input, pos), input, pos, false),
        pos <= input.tokens.len() ==> reads(spec_name_list(input, pos), input, pos),
{
    lemma_spec_name_list(input, pos);
    lemma_name_pairs_progresses(input, pos);
    if let Outcome::Returns(Ok(pt), p1) = spec_name_pairs(input, pos) {
        lemma_token_at(input, p1);
        if let Outcome::Returns(Ok(last), p2) = token::Name::spec_parse(input, p1) {
            lemma_concat(input, pos, p1, p2, leaves(pt), leaves(last));
            assert(seq![pt, last] =~= seq![pt].push(last));
        }
    }
}

#[verifier::spinoff_prover]
proof fn lemma_name_pairs_items_progresses(input: Tokens, pos: nat)
    ensures
        progresses(spec_name_pairs_items(input, pos), input, pos, false),
        pos <= input.tokens.len() ==> reads_all(spec_name_pairs_items(input, pos), input, pos),
    decreases rem(input, pos), 0nat,
{
    lemma_spec_name_pairs_items(input, pos);
    lemma_token_at(input, pos);
    if let Outcome::Returns(Ok(x), p1) = token::Name::spec_parse(input, pos) {
        lemma_token_at(input, p1);
        if let Outcome::Returns(Ok(sp), p2) = token::Comma::spec_parse(input, p1) {
            lemma_name_pairs_items_progresses(input, p2);
            if let Outcome::Returns(Ok(ts), q) = spec_name_pairs_items(input, p2) {
                lemma_concat(input, pos, p1, p2, leaves(x), leaves(sp));
                assert(seq![x, sp] =~= seq![x].push(sp));
                lemma_leaves_of_add(seq![Tree::Node(seq![x, sp])], ts);
                lemma_concat(input, pos, p2, q, leaves(x) + leaves(sp), leaves_of(ts));
            }
        }
    }
}

#[verifier::spinoff_prover]
proof fn lemma_name_pairs_progresses(input: Tokens, pos: nat)
    ensures
        progresses(spec_name_pairs(input, pos), input, pos, false),
        pos <= input.tokens.len() ==> reads(spec_name_pairs(input, pos), input, pos),
{
    lemma_spec_name_pairs(input, pos);
    lemma_name_pairs_items_progresses(input, pos);
}

#[verifier::spinoff_prover]
proof fn lemma_attr_name_list_progresses(input: Tokens, pos: nat)
    ensures
        progresses(spec_attr_name_list(input, pos), input, pos, false),
        pos <= input.tokens.len() ==> reads(spec_attr_name_list(input, pos), input, pos),
{
    lemma_spec_attr_name_list(input, pos);
    lemma_attr_pairs_progresses(input, pos);
    if let Outcome::Returns(Ok(pt), p1) = spec_attr_pairs(input, pos) {
        lemma_name_attr_progresses(input, p1);
        if let Outcome::Returns(Ok(last), p2) = spec_name_attr(input, p1) {
            lemma_concat(input, pos, p1, p2, leaves(pt), leaves(last));
            assert(seq![pt, last] =~= seq![pt].push(last));
        }
    }
}

#[verifier::spinoff_prover]
proof fn lemma_attr_pairs_items_progresses(input: Tokens, pos: nat)
    ensures
        progresses(spec_attr_pairs_items(input, pos), input, pos, false),
        pos <= input.tokens.len() ==> reads_all(spec_attr_pairs_items(input, pos), input, pos),
    decreases rem(input, pos), 0nat,
{
    lemma_spec_attr_pairs_items(input, pos);
    lemma_name_attr_progresses(input, pos);
    if let Outcome::Returns(Ok(x), p1) = spec_name_attr(input, pos) {
        lemma_token_at(input, p1);
        if let Outcome::Returns(Ok(sp), p2) = token::Comma::spec_parse(input, p1) {
            lemma_attr_pairs_items_progresses(input, p2);
            if let Outcome::Returns(Ok(ts), q) = spec_attr_pairs_items(input, p2) {
                lemma_concat(input, pos, p1, p2, leaves(x), leaves(sp));
                assert(seq![x, sp] =~= seq![x].push(sp));
                lemma_leaves_of_add(seq![Tree::Node(seq![x, sp])], ts);
                lemma_concat(input, pos, p2, q, leaves(x) + leaves(sp), leaves_of(ts));
            }
        }
    }
}

#[verifier::spinoff_prover]
proof fn lemma_attr_pairs_progresses(input: Tokens, pos: nat)
    ensures
        progresses(spec_attr_pairs(input, pos), input, pos, false),
        pos <= input.tokens.len() ==> reads(spec_attr_pairs(input, pos), input, pos),
{
    lemma_spec_attr_pairs(input, pos);
    lemma_attr_pairs_items_progresses(input, pos);
}

#[verifier::spinoff_prover]
proof fn lemma_name_attr_progresses(input: Tokens, pos: nat)
    ensures
        progresses(spec_name_attr(input, pos), input, pos, true),
        pos <= input.tokens.len() ==> reads(spec_name_attr(input, pos), input, pos),
{
    lemma_spec_name_attr(input, pos);
    lemma_token_at(input, pos);
    if let Outcome::Returns(Ok(x0), p0) = token::Name::spec_parse(input, pos) {
        lemma_opt_attribute_progresses(input, p0);
        if let Outcome::Returns(Ok(x1), p1) = spec_opt_attribute(input, p0) {
            lemma_concat(input, pos, p0, p1, leaves(x0), leaves(x1));
            assert(seq![x0, x1] =~= seq![x0].push(x1));
        }
    }
}

#[verifier::spinoff_prover]
proof fn lemma_opt_attribute_progresses(input: Tokens, pos: nat)
    ensures
        progresses(spec_opt_attribute(input, pos), input, pos, false),
        pos <= input.tokens.len() ==> reads(spec_opt_attribute(input, pos), input, pos),
{
    lemma_spec_opt_attribute(input, pos);
    attribute_parse_progresses(input, pos);
}

#[verifier::spinoff_prover]
proof fn lemma_local_init_progresses(input: Tokens, pos: nat)
    ensures
        progresses(spec_local_init(input, pos), input, pos, false),
        pos <= input.tokens.len() ==> reads(spec_local_init(input, pos), input, pos),
    decreases rem(input, pos), 1nat,
{
    lemma_spec_local_init(input, pos);
    lemma_eq_exps_progresses(input, pos);
}

#[verifier::spinoff_prover]
proof fn lemma_eq_exps_progresses(input: Tokens, pos: nat)
    ensures
        progresses(spec_eq_exps(input, pos), input, pos, true),
        pos <= input.tokens.len() ==> reads(spec_eq_exps(input, pos), input, pos),
    decreases rem(input, pos), 0nat,
{
    lemma_spec_eq_exps(input, pos);
    lemma_token_at(input, pos);
    if let Outcome::Returns(Ok(x0), p0) = token::Equal::spec_parse(input, pos) {
        lemma_exp_list_progresses(input, p0);
        if let Outcome::Returns(Ok(x1), p1) = spec_exp_list(input, p0) {
            lemma_concat(input, pos, p0, p1, leaves(x0), leaves(x1));
            assert(seq![x0, x1] =~= seq![x0].push(x1));
        }
    }
}

#[verifier::spinoff_prover]
proof fn lemma_func_path_progresses(input: Tokens, pos: nat)
    ensures
        progresses(spec_func_path(input, pos), input, pos, false),
        pos <= input.tokens.len() ==> reads(spec_func_path(input, pos), input, pos),
{
    lemma_spec_func_path(input, pos);
    lemma_path_pairs_progresses(input, pos);
    if let Outcome::Returns(Ok(pt), p1) = spec_path_pairs(input, pos) {
        lemma_token_at(input, p1);
        if let Outcome::Returns(Ok(last), p2) = token::Name::spec_parse(input, p1) {
            lemma_concat(input, pos, p1, p2, leaves(pt), leaves(last));
            assert(seq![pt, last] =~= seq![pt].push(last));
        }
    }
}

#[verifier::spinoff_prover]
proof fn lemma_path_pairs_items_progresses(input: Tokens, pos: nat)
    ensures
        progresses(spec_path_pairs_items(input, pos), input, pos, false),
        pos <= input.tokens.len() ==> reads_all(spec_path_pairs_items(input, pos), input, pos),
    decreases rem(input, pos), 0nat,
{
    lemma_spec_path_pairs_items(input, pos);
    lemma_token_at(input, pos);
    if let Outcome::Returns(Ok(x), p1) = token::Name::spec_parse(input, pos) {
        lemma_token_at(input, p1);
        if let Outcome::Returns(Ok(sp), p2) = token::Dot::spec_parse(input, p1) {
            lemma_path_pairs_items_progresses(input, p2);
            if let Outcome::Returns(Ok(ts), q) = spec_path_pairs_items(input, p2) {
                lemma_concat(input, pos, p1, p2, leaves(x), leaves(sp));
                assert(seq![x, sp] =~= seq![x].push(sp));
                lemma_leaves_of_add(seq![Tree::Node(seq![x, sp])], ts);
                lemma_concat(input, pos, p2, q, leaves(x) + leaves(sp), leaves_of(ts));
            }
        }
    }
}

#[verifier::spinoff_prover]
proof fn lemma_path_pairs_progresses(input: Tokens, pos: nat)
    ensures
        progresses(spec_path_pairs(input, pos), input, pos, false),
        pos <= input.tokens.len() ==> reads(spec_path_pairs(input, pos), input, pos),
{
    lemma_spec_path_pairs(input, pos);
    lemma_path_pairs_items_progresses(input, pos);
}

#[verifier::spinoff_prover]
proof fn lemma_opt_step_progresses(input: Tokens, pos: nat)
    ensures
        progresses(spec_opt_step(input, pos), input, pos, false),
        pos <= input.tokens.len() ==> reads(spec_opt_step(input, pos), input, pos),
    decreases rem(input, pos), 1nat,
{
    lemma_spec_opt_step(input, pos);
    lemma_comma_exp_progresses(input, pos);
}

#[verifier::spinoff_prover]
proof fn lemma_comma_exp_progresses(input: Tokens, pos: nat)
    ensures
        progresses(spec_comma_exp(input, pos), input, pos, true),
        pos <= input.tokens.len() ==> reads(spec_comma_exp(input, pos), input, pos),
    decreases rem(input, pos), 0nat,
{
    lemma_spec_comma_exp(input, pos);
    lemma_token_at(input, pos);
    if let Outcome::Returns(Ok(x0), p0) = token::Comma::spec_parse(input, pos) {
        exp_parse_progresses(input, p0);
        if let Outcome::Returns(Ok(x1), p1) = spec_exp(input, p0) {
            lemma_concat(input, pos, p0, p1, leaves(x0), leaves(x1));
            assert(seq![x0, x1] =~= seq![x0].push(x1));
        }
    }
}

#[verifier::spinoff_prover]
proof fn lemma_elseifs_items_progresses(input: Tokens, pos: nat)
    ensures
        progresses(spec_elseifs_items(input, pos), input, pos, false),
        pos <= input.tokens.len() ==> reads_all(spec_elseifs_items(input, pos), input, pos),
    decreases rem(input, pos), 1nat,
{
    lemma_spec_elseifs_items(input, pos);
    else_if_branch_parse_progresses(input, pos);
    if let Outcome::Returns(Ok(x), p) = spec_else_if_branch(input, pos) {
        lemma_elseifs_items_progresses(input, p);
        if let Outcome::Returns(Ok(ts), q) = spec_elseifs_items(input, p) {
            lemma_leaves_of_add(seq![x], ts);
            lemma_concat(input, pos, p, q, leaves(x), leaves_of(ts));
        }
    }
}

#[verifier::spinoff_prover]
proof fn lemma_elseifs_progresses(input: Tokens, pos: nat)
    ensures
        progresses(spec_elseifs(input, pos), input, pos, false),
        pos <= input.tokens.len() ==> reads(spec_elseifs(input, pos), input, pos),
    decreases rem(input, pos), 2nat,
{
    lemma_spec_elseifs(input, pos);
    lemma_elseifs_items_progresses(input, pos);
}

#[verifier::spinoff_prover]
proof fn lemma_opt_else_progresses(input: Tokens, pos: nat)
    ensures
        progresses(spec_opt_else(input, pos), input, pos, false),
        pos <= input.tokens.len() ==> reads(spec_opt_else(input, pos), input, pos),
    decreases rem(input, pos), 1nat,
{
    lemma_spec_opt_else(input, pos);
    else_branch_parse_progresses(input, pos);
}

#[verifier::spinoff_prover]
proof fn lemma_opt_qualifier_progresses(input: Tokens, pos: nat)
    ensures
        progresses(spec_opt_qualifier(input, pos), input, pos, false),
        pos <= input.tokens.len() ==> reads(spec_opt_qualifier(input, pos), input, pos),
{
    lemma_spec_opt_qualifier(input, pos);
    lemma_colon_name_progresses(input, pos);
}

#[verifier::spinoff_prover]
proof fn lemma_colon_name_progresses(input: Tokens, pos: nat)
    ensures
        progresses(spec_colon_name(input, pos), input, pos, true),
        pos <= input.tokens.len() ==> reads(spec_colon_name(input, pos), input, pos),
{
    lemma_spec_colon_name(input, pos);
    lemma_token_at(input, pos);
    if let Outcome::Returns(Ok(x0), p0) = token::Colon::spec_parse(input, pos) {
        lemma_token_at(input, p0);
        if let Outcome::Returns(Ok(x1), p1) = token::Name::spec_parse(input, p0) {
            lemma_concat(input, pos, p0, p1, leaves(x0), leaves(x1));
            assert(seq![x0, x1] =~= seq![x0].push(x1));
        }
    }
}

#[verifier::spinoff_prover]
proof fn lemma_opt_ellipses_progresses(input: Tokens, pos: nat)
    ensures
        progresses(spec_opt_ellipses(input, pos), input, pos, false),
        pos <= input.tokens.len() ==> reads(spec_opt_ellipses(input, pos), input, pos),
{
    lemma_spec_opt_ellipses(input, pos);
    lemma_token_at(input, pos);
}

#[verifier::spinoff_prover]
proof fn lemma_suffixes_items_progresses(input: Tokens, pos: nat)
    ensures
        progresses(spec_suffixes_items(input, pos), input, pos, false),
        pos <= input.tokens.len() ==> reads_all(spec_suffixes_items(input, pos), input, pos),
    decreases rem(input, pos), 4nat,
{
    lemma_spec_suffixes_items(input, pos);
    prefix_exp_suffix_parse_progresses(input, pos);
    if let Outcome::Returns(Ok(x), p) = spec_prefix_exp_suffix(input, pos) {
        lemma_suffixes_items_progresses(input, p);
        if let Outcome::Returns(Ok(ts), q) = spec_suffixes_items(input, p) {
            lemma_leaves_of_add(seq![x], ts);
            lemma_concat(input, pos, p, q, leaves(x), leaves_of(ts));
        }
    }
}

#[verifier::spinoff_prover]
proof fn lemma_suffixes_progresses(input: Tokens, pos: nat)
    ensures
        progresses(spec_suffixes(input, pos), input, pos, false),
        pos <= input.tokens.len() ==> reads(spec_suffixes(input, pos), input, pos),
    decreases rem(input, pos), 5nat,
{
    lemma_spec_suffixes(input, pos);
    lemma_suffixes_items_progresses(input, pos);
}

#[verifier::spinoff_prover]
proof fn lemma_fields_loop_progresses(input: Tokens, pos: nat)
    ensures
        progresses(spec_fields_loop(input, pos), input, pos, false),
        pos <= input.tokens.len() ==> reads_pairs(spec_fields_loop(input, pos), input, pos),
    decreases rem(input, pos), 8nat,
{
    lemma_spec_fields_loop(input, pos);
    field_parse_progresses(input, pos);
    if let Outcome::Returns(Ok(x), p1) = spec_field(input, pos) {
        field_sep_parse_progresses(input, p1);
        if let Outcome::Returns(Ok(sp), p2) = spec_field_sep(input, p1) {
            lemma_fields_loop_progresses(input, p2);
            if let Outcome::Returns(Ok((ts, last)), q) = spec_fields_loop(input, p2) {
                let tail = leaves_of(ts) + match last {
                    Some(y) => leaves(y),
                    None => seq![],
                };
                lemma_concat(input, pos, p1, p2, leaves(x), leaves(sp));
                assert(seq![x, sp] =~= seq![x].push(sp));
                lemma_leaves_of_add(seq![Tree::Node(seq![x, sp])], ts);
                lemma_concat(input, pos, p2, q, leaves(x) + leaves(sp), tail);
            }
        }
    }
}

#[verifier::spinoff_prover]
proof fn lemma_fields_progresses(input: Tokens, pos: nat)
    ensures
        progresses(spec_fields(input, pos), input, pos, false),
        pos <= input.tokens.len() ==> reads(spec_fields(input, pos), input, pos),
    decreases rem(input, pos), 9nat,
{
    lemma_spec_fields(input, pos);
    lemma_fields_loop_progresses(input, pos);
    if let Outcome::Returns(Ok((ts, Some(last))), _) = spec_fields_loop(input, pos) {
        assert(seq![Tree::Node(ts), last] =~= seq![Tree::Node(ts)].push(last));
    }
}

/// Parsing a `FunctionName` never panics, from any position: it parses or fails. Where it
/// parses, the cursor moves on, within the tokens if it started there, and the
/// parse tree holds, in order, exactly the tokens that it passed over.
#[verifier::spinoff_prover]
pub proof fn function_name_parse_progresses(input: Tokens, pos: nat)
    ensures
        progresses(spec_function_name(input, pos), input, pos, false),
        pos <= input.tokens.len() ==> reads(spec_function_name(input, pos), input, pos),
{
    lemma_spec_function_name(input, pos);
    lemma_func_path_progresses(input, pos);
    if let Outcome::Returns(Ok(path), p1) = spec_func_path(input, pos) {
        lemma_token_at(input, p1);
        if let Outcome::Returns(Ok(c), p2) = token::Colon::spec_parse(input, p1) {
            lemma_token_at(input, p2);
            if let Outcome::Returns(Ok(n), p3) = token::Name::spec_parse(input, p2) {
                let q = Tree::Opt(Some(Box::new(Tree::Node(seq![c, n]))));
                lemma_concat(input, p1, p2, p3, leaves(c), leaves(n));
                assert(seq![c, n] =~= seq![c].push(n));
                lemma_concat(input, pos, p1, p3, leaves(path), leaves(c) + leaves(n));
                assert(seq![path, q] =~= seq![path].push(q));
            }
        }
        assert(seq![path, Tree::Opt(None)] =~= seq![path].push(Tree::Opt(None)));
    }
}

#[verifier::spinoff_prover]
pub(crate) proof fn lemma_exp_operand_progresses(input: Tokens, pos: nat)
    ensures
        progresses(exp_operand(input, pos), input, pos, true),
        pos <= input.tokens.len() ==> reads(exp_operand(input, pos), input, pos),
    decreases rem(input, pos), 4nat,
{
    lemma_exp_operand(input, pos);
    lemma_unary_operand_leaves(input, pos);
    if let Outcome::Returns(Ok(u), p) = spec_unary_operand_value(input, pos) {
        lemma_exp_climb_progresses(input, p, UNARY_PRECEDENCE as nat + 1);
        if let Outcome::Returns(Ok(e), q) = exp_climb(input, p, UNARY_PRECEDENCE as nat + 1) {
            lemma_concat(input, pos, p, q, leaves(tree_unary_operand(u)), leaves(e));
            assert(seq![tree_unary_operand(u), e] =~= seq![tree_unary_operand(u)].push(e));
        }
    }
    exp_atom_parse_progresses(input, pos);
}

#[verifier::spinoff_prover]
pub(crate) proof fn lemma_exp_climb_progresses(input: Tokens, pos: nat, min: nat)
    ensures
        progresses(exp_climb(input, pos, min), input, pos, true),
        pos <= input.tokens.len() ==> reads(exp_climb(input, pos, min), input, pos),
    decreases rem(input, pos), 5nat,
{
    lemma_exp_climb(input, pos, min);
    lemma_exp_operand_progresses(input, pos);
    if let Outcome::Returns(Ok(left), p) = exp_operand(input, pos) {
        lemma_exp_rest_progresses(input, p, left, min, pos);
    }
}

#[verifier::spinoff_prover]
pub(crate) proof fn lemma_exp_rest_progresses(input: Tokens, pos: nat, left: Tree, min: nat, start: nat)
    ensures
        progresses(exp_rest(input, pos, left, min), input, pos, false),
        start <= pos <= input.tokens.len() && leaves(left) =~= input.tokens.subrange(
            start as int,
            pos as int,
        ) ==> (exp_rest(
            input,
            pos,
            left,
            min,
        ) matches Outcome::Returns(Ok(t), q) ==> leaves(t) =~= input.tokens.subrange(start as int, q as int)),
    decreases rem(input, pos), 0nat,
{
    lemma_exp_rest(input, pos, left, min);
    lemma_binary_operand_leaves(input, pos);
    if let Outcome::Returns(Ok(b), p) = spec_binary_operand_value(input, pos) {
        if b.spec_precedence() >= min {
            let next: nat = if b.spec_left_assoc() {
                (b.spec_precedence() + 1) as nat
            } else {
                b.spec_precedence() as nat
            };
            lemma_exp_climb_progresses(input, p, next);
            if let Outcome::Returns(Ok(right), q) = exp_climb(input, p, next) {
                if start <= pos <= input.tokens.len() && leaves(left) =~= input.tokens.subrange(
                    start as int,
                    pos as int,
                ) {
                    let tb = tree_binary_operand(b);
                    lemma_concat(input, start, pos, p, leaves(left), leaves(tb));
                    lemma_concat(input, start, p, q, leaves(left) + leaves(tb), leaves(right));
                    assert(seq![left, tb, right] =~= seq![left].push(tb).push(right));
                }
                lemma_exp_rest_progresses(
                    input,
                    q,
                    Tree::Choice(2, Box::new(Tree::Node(seq![left, tree_binary_operand(b), right]))),
                    min,
                    start,
                );
            }
        }
    }
}

/// Parsing an `Exp` never panics, from any position: it parses or fails. Where it
/// parses, the cursor moves on, within the tokens if it started there, and the
/// parse tree holds, in order, exactly the tokens that it passed over.
#[verifier::spinoff_prover]
pub proof fn exp_parse_progresses(input: Tokens, pos: nat)
    ensures
        progresses(spec_exp(input, pos), input, pos, true),
        pos <= input.tokens.len() ==> reads(spec_exp(input, pos), input, pos),
    decreases rem(input, pos), 6nat,
{
    lemma_spec_exp(input, pos);
    lemma_exp_climb_progresses(input, pos, 0);
}


} // verus!
