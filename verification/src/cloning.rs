//! Copies of syntax elements: each copy has the same parse tree as what it
//! copies.

use vstd::prelude::*;

use crate::element::{
    ArgList, Attribute, BracketField, Chunk, ElseBranch, ElseIfBranch, Exp, ExpAtom, ExpBinary,
    ExpFunction, ExpUnary, Field, FieldSep, FunctionArgs, FunctionBody, FunctionCall,
    FunctionCallBody, FunctionName, IfBranch, LastStatement, MapField, ParList, PrefixExp,
    PrefixExpKind, PrefixExpSuffix, PrefixParens, Separated, SeparatedNoTrailing,
    SeparatedTrailing, StAssign, StBlock, StForInLoop, StForRangeLoop, StFunctionDef, StIfElse,
    StLocalFunctionDef, StLocalInit, StRepeatLoop, StReturn, StWhileLoop, Statement,
    TableConstructor, Var, VarAccess, VarAccessBody, VarIndex, VarIndexBody,
};
use crate::grammar::{
    tree_arg_list, tree_attr_name_list, tree_attr_pairs, tree_attribute, tree_bracket_field,
    tree_chunk, tree_comma_exp, tree_else_branch, tree_else_if_branch, tree_elseifs, tree_eq_exps,
    tree_exp, tree_exp_atom, tree_exp_function, tree_exp_list, tree_exp_pairs, tree_field,
    tree_field_pairs, tree_fields, tree_func_path, tree_function_args, tree_function_body,
    tree_function_call, tree_function_call_body, tree_function_name, tree_if_branch,
    tree_last_semi, tree_last_statement, tree_local_init, tree_map_field, tree_name_attr,
    tree_name_list, tree_name_pairs, tree_opt_attribute, tree_opt_else, tree_opt_last,
    tree_opt_step, tree_par_list, tree_path_pairs, tree_prefix_exp, tree_prefix_exp_kind,
    tree_prefix_exp_suffix, tree_prefix_parens, tree_st_assign, tree_st_block,
    tree_st_for_in_loop, tree_st_for_range_loop, tree_st_function_def, tree_st_if_else,
    tree_st_local_function_def, tree_st_local_init, tree_st_repeat_loop, tree_st_return,
    tree_st_while_loop, tree_statement, tree_stmt_semi, tree_stmts, tree_suffixes,
    tree_table_constructor, tree_var, tree_var_access, tree_var_access_body, tree_var_index,
    tree_var_index_body, tree_var_list, tree_var_pairs, trees_attr_pairs, trees_elseifs,
    trees_exp_pairs, trees_field_pairs, trees_name_pairs, trees_path_pairs, trees_stmts,
    trees_suffixes, trees_var_pairs,
};
use crate::token;
use crate::unfold::{
    lemma_tree_arg_list, lemma_tree_attr_name_list, lemma_tree_attr_pairs, lemma_tree_attribute,
    lemma_tree_bracket_field, lemma_tree_chunk, lemma_tree_comma_exp, lemma_tree_else_branch,
    lemma_tree_else_if_branch, lemma_tree_elseifs, lemma_tree_eq_exps, lemma_tree_exp,
    lemma_tree_exp_atom, lemma_tree_exp_function, lemma_tree_exp_list, lemma_tree_exp_pairs,
    lemma_tree_field, lemma_tree_field_pairs, lemma_tree_fields, lemma_tree_func_path,
    lemma_tree_function_args, lemma_tree_function_body, lemma_tree_function_call,
    lemma_tree_function_call_body, lemma_tree_function_name, lemma_tree_if_branch,
    lemma_tree_last_semi, lemma_tree_last_statement, lemma_tree_local_init, lemma_tree_map_field,
    lemma_tree_name_attr, lemma_tree_name_list, lemma_tree_name_pairs, lemma_tree_opt_attribute,
    lemma_tree_opt_else, lemma_tree_opt_last, lemma_tree_opt_step, lemma_tree_par_list,
    lemma_tree_path_pairs, lemma_tree_prefix_exp, lemma_tree_prefix_exp_kind,
    lemma_tree_prefix_exp_suffix, lemma_tree_prefix_parens, lemma_tree_st_assign,
    lemma_tree_st_block, lemma_tree_st_for_in_loop, lemma_tree_st_for_range_loop,
    lemma_tree_st_function_def, lemma_tree_st_if_else, lemma_tree_st_local_function_def,
    lemma_tree_st_local_init, lemma_tree_st_repeat_loop, lemma_tree_st_return,
    lemma_tree_st_while_loop, lemma_tree_statement, lemma_tree_stmt_semi, lemma_tree_stmts,
    lemma_tree_suffixes, lemma_tree_table_constructor, lemma_tree_var, lemma_tree_var_access,
    lemma_tree_var_access_body, lemma_tree_var_index, lemma_tree_var_index_body,
    lemma_tree_var_list, lemma_tree_var_pairs, lemma_trees_attr_pairs, lemma_trees_elseifs,
    lemma_trees_exp_pairs, lemma_trees_field_pairs, lemma_trees_name_pairs,
    lemma_trees_path_pairs, lemma_trees_stmts, lemma_trees_suffixes, lemma_trees_var_pairs,
};

verus! {

/// A copy of a `Chunk`, with the same parse tree.
pub(crate) fn clone_chunk(v: &Chunk) -> (r: Chunk)
    ensures
        tree_chunk(r) == tree_chunk(*v),
    decreases v,
{
    let r = Chunk {
        statements: clone_stmts(&v.statements),
        last_statement: clone_opt_last(&v.last_statement),
    };
    proof {
        lemma_tree_chunk(r);
        lemma_tree_chunk(*v);
    }
    r
}

/// A copy of a `StAssign`, with the same parse tree.
pub(crate) fn clone_st_assign(v: &StAssign) -> (r: StAssign)
    ensures
        tree_st_assign(r) == tree_st_assign(*v),
    decreases v,
{
    let r = StAssign {
        vars: clone_var_list(&v.vars),
        eq: v.eq,
        exps: clone_exp_list(&v.exps),
    };
    proof {
        lemma_tree_st_assign(r);
        lemma_tree_st_assign(*v);
    }
    r
}

/// A copy of a `StBlock`, with the same parse tree.
pub(crate) fn clone_st_block(v: &StBlock) -> (r: StBlock)
    ensures
        tree_st_block(r) == tree_st_block(*v),
    decreases v,
{
    let r = StBlock {
        kw_do: v.kw_do,
        body: clone_chunk(&v.body),
        kw_end: v.kw_end,
    };
    proof {
        lemma_tree_st_block(r);
        lemma_tree_st_block(*v);
    }
    r
}

/// A copy of an `Attribute`, with the same parse tree.
pub(crate) fn clone_attribute(v: &Attribute) -> (r: Attribute)
    ensures
        tree_attribute(r) == tree_attribute(*v),
    decreases v,
{
    let r = Attribute {
        open_angle: v.open_angle,
        name: v.name,
        close_angle: v.close_angle,
    };
    proof {
        lemma_tree_attribute(r);
        lemma_tree_attribute(*v);
    }
    r
}

/// A copy of a `StWhileLoop`, with the same parse tree.
pub(crate) fn clone_st_while_loop(v: &StWhileLoop) -> (r: StWhileLoop)
    ensures
        tree_st_while_loop(r) == tree_st_while_loop(*v),
    decreases v,
{
    let r = StWhileLoop {
        kw_while: v.kw_while,
        exp: clone_exp(&v.exp),
        kw_do: v.kw_do,
        body: clone_chunk(&v.body),
        kw_end: v.kw_end,
    };
    proof {
        lemma_tree_st_while_loop(r);
        lemma_tree_st_while_loop(*v);
    }
    r
}

/// A copy of a `StRepeatLoop`, with the same parse tree.
pub(crate) fn clone_st_repeat_loop(v: &StRepeatLoop) -> (r: StRepeatLoop)
    ensures
        tree_st_repeat_loop(r) == tree_st_repeat_loop(*v),
    decreases v,
{
    let r = StRepeatLoop {
        kw_repeat: v.kw_repeat,
        body: clone_chunk(&v.body),
        kw_until: v.kw_until,
        exp: clone_exp(&v.exp),
    };
    proof {
        lemma_tree_st_repeat_loop(r);
        lemma_tree_st_repeat_loop(*v);
    }
    r
}

/// A copy of a `StForRangeLoop`, with the same parse tree.
pub(crate) fn clone_st_for_range_loop(v: &StForRangeLoop) -> (r: StForRangeLoop)
    ensures
        tree_st_for_range_loop(r) == tree_st_for_range_loop(*v),
    decreases v,
{
    let r = StForRangeLoop {
        kw_for: v.kw_for,
        name: v.name,
        eq: v.eq,
        start: clone_exp(&v.start),
        comma: v.comma,
        stop: clone_exp(&v.stop),
        step: clone_opt_step(&v.step),
        kw_do: v.kw_do,
        body: clone_chunk(&v.body),
        kw_end: v.kw_end,
    };
    proof {
        lemma_tree_st_for_range_loop(r);
        lemma_tree_st_for_range_loop(*v);
    }
    r
}

/// A copy of a `StForInLoop`, with the same parse tree.
pub(crate) fn clone_st_for_in_loop(v: &StForInLoop) -> (r: StForInLoop)
    ensures
        tree_st_for_in_loop(r) == tree_st_for_in_loop(*v),
    decreases v,
{
    let r = StForInLoop {
        kw_for: v.kw_for,
        namelist: clone_name_list(&v.namelist),
        kw_in: v.kw_in,
        explist: clone_exp_list(&v.explist),
        kw_do: v.kw_do,
        body: clone_chunk(&v.body),
        kw_end: v.kw_end,
    };
    proof {
        lemma_tree_st_for_in_loop(r);
        lemma_tree_st_for_in_loop(*v);
    }
    r
}

/// A copy of a `StIfElse`, with the same parse tree.
pub(crate) fn clone_st_if_else(v: &StIfElse) -> (r: StIfElse)
    ensures
        tree_st_if_else(r) == tree_st_if_else(*v),
    decreases v,
{
    let r = StIfElse {
        if_branch: clone_if_branch(&v.if_branch),
        elseif_branches: clone_elseifs(&v.elseif_branches),
        else_branch: clone_opt_else(&v.else_branch),
    };
    proof {
        lemma_tree_st_if_else(r);
        lemma_tree_st_if_else(*v);
    }
    r
}

/// A copy of an `IfBranch`, with the same parse tree.
pub(crate) fn clone_if_branch(v: &IfBranch) -> (r: IfBranch)
    ensures
        tree_if_branch(r) == tree_if_branch(*v),
    decreases v,
{
    let r = IfBranch {
        kw_if: v.kw_if,
        condition: clone_exp(&v.condition),
        kw_then: v.kw_then,
        body: clone_chunk(&v.body),
    };
    proof {
        lemma_tree_if_branch(r);
        lemma_tree_if_branch(*v);
    }
    r
}

/// A copy of an `ElseIfBranch`, with the same parse tree.
pub(crate) fn clone_else_if_branch(v: &ElseIfBranch) -> (r: ElseIfBranch)
    ensures
        tree_else_if_branch(r) == tree_else_if_branch(*v),
    decreases v,
{
    let r = ElseIfBranch {
        kw_elseif: v.kw_elseif,
        condition: clone_exp(&v.condition),
        kw_then: v.kw_then,
        body: clone_chunk(&v.body),
    };
    proof {
        lemma_tree_else_if_branch(r);
        lemma_tree_else_if_branch(*v);
    }
    r
}

/// A copy of an `ElseBranch`, with the same parse tree.
pub(crate) fn clone_else_branch(v: &ElseBranch) -> (r: ElseBranch)
    ensures
        tree_else_branch(r) == tree_else_branch(*v),
    decreases v,
{
    let r = ElseBranch {
        kw_else: v.kw_else,
        body: clone_chunk(&v.body),
    };
    proof {
        lemma_tree_else_branch(r);
        lemma_tree_else_branch(*v);
    }
    r
}

/// A copy of a `FunctionCall`, with the same parse tree.
pub(crate) fn clone_function_call(v: &FunctionCall) -> (r: FunctionCall)
    ensures
        tree_function_call(r) == tree_function_call(*v),
    decreases v,
{
    let r = FunctionCall {
        prefix: Box::new(clone_prefix_exp(&v.prefix)),
        body: clone_function_call_body(&v.body),
    };
    proof {
        lemma_tree_function_call(r);
        lemma_tree_function_call(*v);
    }
    r
}

/// A copy of a `FunctionCallBody`, with the same parse tree.
pub(crate) fn clone_function_call_body(v: &FunctionCallBody) -> (r: FunctionCallBody)
    ensures
        tree_function_call_body(r) == tree_function_call_body(*v),
    decreases v,
{
    let r = FunctionCallBody {
        qualifier: v.qualifier,
        args: clone_function_args(&v.args),
    };
    proof {
        lemma_tree_function_call_body(r);
        lemma_tree_function_call_body(*v);
    }
    r
}

/// A copy of an `ArgList`, with the same parse tree.
pub(crate) fn clone_arg_list(v: &ArgList) -> (r: ArgList)
    ensures
        tree_arg_list(r) == tree_arg_list(*v),
    decreases v,
{
    let r = ArgList {
        open_paren: v.open_paren,
        arguments: clone_exp_list(&v.arguments),
        close_paren: v.close_paren,
    };
    proof {
        lemma_tree_arg_list(r);
        lemma_tree_arg_list(*v);
    }
    r
}

/// A copy of a `StFunctionDef`, with the same parse tree.
pub(crate) fn clone_st_function_def(v: &StFunctionDef) -> (r: StFunctionDef)
    ensures
        tree_st_function_def(r) == tree_st_function_def(*v),
    decreases v,
{
    let r = StFunctionDef {
        kw_function: v.kw_function,
        name: clone_function_name(&v.name),
        body: clone_function_body(&v.body),
    };
    proof {
        lemma_tree_st_function_def(r);
        lemma_tree_st_function_def(*v);
    }
    r
}

/// A copy of a `StLocalFunctionDef`, with the same parse tree.
pub(crate) fn clone_st_local_function_def(v: &StLocalFunctionDef) -> (r: StLocalFunctionDef)
    ensures
        tree_st_local_function_def(r) == tree_st_local_function_def(*v),
    decreases v,
{
    let r = StLocalFunctionDef {
        local: v.local,
        function: v.function,
        name: v.name,
        body: clone_function_body(&v.body),
    };
    proof {
        lemma_tree_st_local_function_def(r);
        lemma_tree_st_local_function_def(*v);
    }
    r
}

/// A copy of a `StLocalInit`, with the same parse tree.
pub(crate) fn clone_st_local_init(v: &StLocalInit) -> (r: StLocalInit)
    ensures
        tree_st_local_init(r) == tree_st_local_init(*v),
    decreases v,
{
    let r = StLocalInit {
        kw_local: v.kw_local,
        attrnames: clone_attr_name_list(&v.attrnames),
        init: clone_local_init(&v.init),
    };
    proof {
        lemma_tree_st_local_init(r);
        lemma_tree_st_local_init(*v);
    }
    r
}

/// A copy of a `StReturn`, with the same parse tree.
pub(crate) fn clone_st_return(v: &StReturn) -> (r: StReturn)
    ensures
        tree_st_return(r) == tree_st_return(*v),
    decreases v,
{
    let r = StReturn {
        kw_return: v.kw_return,
        value: clone_exp_list(&v.value),
    };
    proof {
        lemma_tree_st_return(r);
        lemma_tree_st_return(*v);
    }
    r
}

/// A copy of a `FunctionBody`, with the same parse tree.
pub(crate) fn clone_function_body(v: &FunctionBody) -> (r: FunctionBody)
    ensures
        tree_function_body(r) == tree_function_body(*v),
    decreases v,
{
    let r = FunctionBody {
        open_paren: v.open_paren,
        parlist: clone_par_list(&v.parlist),
        close_paren: v.close_paren,
        block: clone_chunk(&v.block),
        kw_end: v.kw_end,
    };
    proof {
        lemma_tree_function_body(r);
        lemma_tree_function_body(*v);
    }
    r
}

/// A copy of a `ParList`, with the same parse tree.
pub(crate) fn clone_par_list(v: &ParList) -> (r: ParList)
    ensures
        tree_par_list(r) == tree_par_list(*v),
    decreases v,
{
    let r = ParList {
        names: clone_name_list(&v.names),
        ellipses: v.ellipses,
    };
    proof {
        lemma_tree_par_list(r);
        lemma_tree_par_list(*v);
    }
    r
}

/// A copy of a `VarIndex`, with the same parse tree.
pub(crate) fn clone_var_index(v: &VarIndex) -> (r: VarIndex)
    ensures
        tree_var_index(r) == tree_var_index(*v),
    decreases v,
{
    let r = VarIndex {
        prefix: Box::new(clone_prefix_exp(&v.prefix)),
        body: clone_var_index_body(&v.body),
    };
    proof {
        lemma_tree_var_index(r);
        lemma_tree_var_index(*v);
    }
    r
}

/// A copy of a `VarIndexBody`, with the same parse tree.
pub(crate) fn clone_var_index_body(v: &VarIndexBody) -> (r: VarIndexBody)
    ensures
        tree_var_index_body(r) == tree_var_index_body(*v),
    decreases v,
{
    let r = VarIndexBody {
        open_bracket: v.open_bracket,
        index: clone_exp(&v.index),
        close_bracket: v.close_bracket,
    };
    proof {
        lemma_tree_var_index_body(r);
        lemma_tree_var_index_body(*v);
    }
    r
}

/// A copy of a `VarAccess`, with the same parse tree.
pub(crate) fn clone_var_access(v: &VarAccess) -> (r: VarAccess)
    ensures
        tree_var_access(r) == tree_var_access(*v),
    decreases v,
{
    let r = VarAccess {
        prefix: Box::new(clone_prefix_exp(&v.prefix)),
        body: clone_var_access_body(&v.body),
    };
    proof {
        lemma_tree_var_access(r);
        lemma_tree_var_access(*v);
    }
    r
}

/// A copy of a `VarAccessBody`, with the same parse tree.
pub(crate) fn clone_var_access_body(v: &VarAccessBody) -> (r: VarAccessBody)
    ensures
        tree_var_access_body(r) == tree_var_access_body(*v),
    decreases v,
{
    let r = VarAccessBody {
        dot: v.dot,
        name: v.name,
    };
    proof {
        lemma_tree_var_access_body(r);
        lemma_tree_var_access_body(*v);
    }
    r
}

/// A copy of a `PrefixExp`, with the same parse tree.
pub(crate) fn clone_prefix_exp(v: &PrefixExp) -> (r: PrefixExp)
    ensures
        tree_prefix_exp(r) == tree_prefix_exp(*v),
    decreases v,
{
    let r = PrefixExp {
        kind: clone_prefix_exp_kind(&v.kind),
        calls: clone_suffixes(&v.calls),
    };
    proof {
        lemma_tree_prefix_exp(r);
        lemma_tree_prefix_exp(*v);
    }
    r
}

/// A copy of a `PrefixParens`, with the same parse tree.
pub(crate) fn clone_prefix_parens(v: &PrefixParens) -> (r: PrefixParens)
    ensures
        tree_prefix_parens(r) == tree_prefix_parens(*v),
    decreases v,
{
    let r = PrefixParens {
        open_paren: v.open_paren,
        inner: clone_exp(&v.inner),
        close_paren: v.close_paren,
    };
    proof {
        lemma_tree_prefix_parens(r);
        lemma_tree_prefix_parens(*v);
    }
    r
}

/// A copy of an `ExpFunction`, with the same parse tree.
pub(crate) fn clone_exp_function(v: &ExpFunction) -> (r: ExpFunction)
    ensures
        tree_exp_function(r) == tree_exp_function(*v),
    decreases v,
{
    let r = ExpFunction {
        kw_function: v.kw_function,
        body: Box::new(clone_function_body(&v.body)),
    };
    proof {
        lemma_tree_exp_function(r);
        lemma_tree_exp_function(*v);
    }
    r
}

/// A copy of a `TableConstructor`, with the same parse tree.
pub(crate) fn clone_table_constructor(v: &TableConstructor) -> (r: TableConstructor)
    ensures
        tree_table_constructor(r) == tree_table_constructor(*v),
    decreases v,
{
    let r = TableConstructor {
        open_brace: v.open_brace,
        fields: clone_fields(&v.fields),
        close_brace: v.close_brace,
    };
    proof {
        lemma_tree_table_constructor(r);
        lemma_tree_table_constructor(*v);
    }
    r
}

/// A copy of a `MapField`, with the same parse tree.
pub(crate) fn clone_map_field(v: &MapField) -> (r: MapField)
    ensures
        tree_map_field(r) == tree_map_field(*v),
    decreases v,
{
    let r = MapField {
        name: v.name,
        eq: v.eq,
        exp: clone_exp(&v.exp),
    };
    proof {
        lemma_tree_map_field(r);
        lemma_tree_map_field(*v);
    }
    r
}

/// A copy of a `BracketField`, with the same parse tree.
pub(crate) fn clone_bracket_field(v: &BracketField) -> (r: BracketField)
    ensures
        tree_bracket_field(r) == tree_bracket_field(*v),
    decreases v,
{
    let r = BracketField {
        open_bracket: v.open_bracket,
        key: clone_exp(&v.key),
        close_bracket: v.close_bracket,
        eq: v.eq,
        value: clone_exp(&v.value),
    };
    proof {
        lemma_tree_bracket_field(r);
        lemma_tree_bracket_field(*v);
    }
    r
}

/// A copy of a `Statement`, with the same parse tree.
pub(crate) fn clone_statement(v: &Statement) -> (r: Statement)
    ensures
        tree_statement(r) == tree_statement(*v),
    decreases v,
{
    let r = match v {
        Statement::Assign(x) => Statement::Assign(clone_st_assign(&*x)),
        Statement::FunctionCall(x) => Statement::FunctionCall(clone_function_call(&*x)),
        Statement::Block(x) => Statement::Block(clone_st_block(&*x)),
        Statement::WhileLoop(x) => Statement::WhileLoop(clone_st_while_loop(&*x)),
        Statement::RepeatLoop(x) => Statement::RepeatLoop(clone_st_repeat_loop(&*x)),
        Statement::IfElse(x) => Statement::IfElse(clone_st_if_else(&*x)),
        Statement::ForRangeLoop(x) => Statement::ForRangeLoop(clone_st_for_range_loop(&*x)),
        Statement::ForInLoop(x) => Statement::ForInLoop(clone_st_for_in_loop(&*x)),
        Statement::FunctionDef(x) => Statement::FunctionDef(clone_st_function_def(&*x)),
        Statement::LocalFunctionDef(x) => Statement::LocalFunctionDef(clone_st_local_function_def(&*x)),
        Statement::LocalInit(x) => Statement::LocalInit(clone_st_local_init(&*x)),
        Statement::Goto(x) => Statement::Goto(*x),
        Statement::Label(x) => Statement::Label(*x),
        Statement::Break(x) => Statement::Break(*x),
    };
    proof {
        lemma_tree_statement(r);
        lemma_tree_statement(*v);
    }
    r
}

/// A copy of a `FunctionArgs`, with the same parse tree.
pub(crate) fn clone_function_args(v: &FunctionArgs) -> (r: FunctionArgs)
    ensures
        tree_function_args(r) == tree_function_args(*v),
    decreases v,
{
    let r = match v {
        FunctionArgs::List(x) => FunctionArgs::List(clone_arg_list(&*x)),
        FunctionArgs::Table(x) => FunctionArgs::Table(clone_table_constructor(&*x)),
        FunctionArgs::String(x) => FunctionArgs::String(*x),
    };
    proof {
        lemma_tree_function_args(r);
        lemma_tree_function_args(*v);
    }
    r
}

/// A copy of a `LastStatement`, with the same parse tree.
pub(crate) fn clone_last_statement(v: &LastStatement) -> (r: LastStatement)
    ensures
        tree_last_statement(r) == tree_last_statement(*v),
    decreases v,
{
    let r = match v {
        LastStatement::Return(x) => LastStatement::Return(clone_st_return(&*x)),
    };
    proof {
        lemma_tree_last_statement(r);
        lemma_tree_last_statement(*v);
    }
    r
}

/// A copy of a `Var`, with the same parse tree.
pub(crate) fn clone_var(v: &Var) -> (r: Var)
    ensures
        tree_var(r) == tree_var(*v),
    decreases v,
{
    let r = match v {
        Var::Name(x) => Var::Name(*x),
        Var::Index(x) => Var::Index(clone_var_index(&*x)),
        Var::Access(x) => Var::Access(clone_var_access(&*x)),
    };
    proof {
        lemma_tree_var(r);
        lemma_tree_var(*v);
    }
    r
}

/// A copy of a `PrefixExpKind`, with the same parse tree.
pub(crate) fn clone_prefix_exp_kind(v: &PrefixExpKind) -> (r: PrefixExpKind)
    ensures
        tree_prefix_exp_kind(r) == tree_prefix_exp_kind(*v),
    decreases v,
{
    let r = match v {
        PrefixExpKind::Name(x) => PrefixExpKind::Name(*x),
        PrefixExpKind::Parens(x) => PrefixExpKind::Parens(clone_prefix_parens(&*x)),
    };
    proof {
        lemma_tree_prefix_exp_kind(r);
        lemma_tree_prefix_exp_kind(*v);
    }
    r
}

/// A copy of a `PrefixExpSuffix`, with the same parse tree.
pub(crate) fn clone_prefix_exp_suffix(v: &PrefixExpSuffix) -> (r: PrefixExpSuffix)
    ensures
        tree_prefix_exp_suffix(r) == tree_prefix_exp_suffix(*v),
    decreases v,
{
    let r = match v {
        PrefixExpSuffix::FunctionCall(x) => PrefixExpSuffix::FunctionCall(clone_function_call_body(&*x)),
        PrefixExpSuffix::Index(x) => PrefixExpSuffix::Index(clone_var_index_body(&*x)),
        PrefixExpSuffix::Access(x) => PrefixExpSuffix::Access(clone_var_access_body(&*x)),
    };
    proof {
        lemma_tree_prefix_exp_suffix(r);
        lemma_tree_prefix_exp_suffix(*v);
    }
    r
}

/// A copy of an `ExpAtom`, with the same parse tree.
pub(crate) fn clone_exp_atom(v: &ExpAtom) -> (r: ExpAtom)
    ensures
        tree_exp_atom(r) == tree_exp_atom(*v),
    decreases v,
{
    let r = match v {
        ExpAtom::Nil(x) => ExpAtom::Nil(*x),
        ExpAtom::True(x) => ExpAtom::True(*x),
        ExpAtom::False(x) => ExpAtom::False(*x),
        ExpAtom::Literal(x) => ExpAtom::Literal(*x),
        ExpAtom::Ellipses(x) => ExpAtom::Ellipses(*x),
        ExpAtom::Function(x) => ExpAtom::Function(clone_exp_function(&*x)),
        ExpAtom::Prefix(x) => ExpAtom::Prefix(Box::new(clone_prefix_exp(&*x))),
        ExpAtom::Table(x) => ExpAtom::Table(Box::new(clone_table_constructor(&*x))),
    };
    proof {
        lemma_tree_exp_atom(r);
        lemma_tree_exp_atom(*v);
    }
    r
}

/// A copy of a `Field`, with the same parse tree.
pub(crate) fn clone_field(v: &Field) -> (r: Field)
    ensures
        tree_field(r) == tree_field(*v),
    decreases v,
{
    let r = match v {
        Field::ArrayLike(x) => Field::ArrayLike(clone_exp(&*x)),
        Field::MapLike(x) => Field::MapLike(clone_map_field(&*x)),
        Field::Bracketed(x) => Field::Bracketed(clone_bracket_field(&*x)),
    };
    proof {
        lemma_tree_field(r);
        lemma_tree_field(*v);
    }
    r
}

pub(crate) fn clone_stmts(v: &Vec<(Statement, Option<token::Semicolon>)>) -> (r: Vec<(Statement, Option<token::Semicolon>)>)
    ensures
        tree_stmts(r) == tree_stmts(*v),
    decreases v,
{
    let mut r: Vec<(Statement, Option<token::Semicolon>)> = Vec::new();
    let mut i: usize = 0;
    proof {
        assert(v@.subrange(0, 0) =~= r@);
    }
    while i < v.len()
        invariant
            i <= v.len(),
            trees_stmts(r@) == trees_stmts(v@.subrange(0, i as int)),
        decreases v.len() - i,
    {
        let x = clone_stmt_semi(&v[i]);
        proof {
            lemma_trees_stmts(r@.push(x));
            lemma_trees_stmts(v@.subrange(0, i + 1));
            assert(r@.push(x).drop_last() =~= r@);
            assert(v@.subrange(0, i + 1).drop_last() =~= v@.subrange(0, i as int));
        }
        r.push(x);
        i = i + 1;
    }
    proof {
        assert(v@.subrange(0, v@.len() as int) =~= v@);
        lemma_tree_stmts(r);
        lemma_tree_stmts(*v);
    }
    r
}

pub(crate) fn clone_stmt_semi(v: &(Statement, Option<token::Semicolon>)) -> (r: (Statement, Option<token::Semicolon>))
    ensures
        tree_stmt_semi(r) == tree_stmt_semi(*v),
    decreases v,
{
    let r = (clone_statement(&v.0), v.1);
    proof {
        lemma_tree_stmt_semi(r);
        lemma_tree_stmt_semi(*v);
    }
    r
}

pub(crate) fn clone_opt_last(v: &Option<(LastStatement, Option<token::Semicolon>)>) -> (r: Option<(LastStatement, Option<token::Semicolon>)>)
    ensures
        tree_opt_last(r) == tree_opt_last(*v),
    decreases v,
{
    let r = match v {
        Some(x) => Some(clone_last_semi(&*x)),
        None => None,
    };
    proof {
        lemma_tree_opt_last(r);
        lemma_tree_opt_last(*v);
    }
    r
}

pub(crate) fn clone_last_semi(v: &(LastStatement, Option<token::Semicolon>)) -> (r: (LastStatement, Option<token::Semicolon>))
    ensures
        tree_last_semi(r) == tree_last_semi(*v),
    decreases v,
{
    let r = (clone_last_statement(&v.0), v.1);
    proof {
        lemma_tree_last_semi(r);
        lemma_tree_last_semi(*v);
    }
    r
}

pub(crate) fn clone_var_list(v: &SeparatedTrailing<Var, token::Comma>) -> (r: SeparatedTrailing<Var, token::Comma>)
    ensures
        tree_var_list(r) == tree_var_list(*v),
    decreases v,
{
    let r = SeparatedTrailing { list: clone_var_pairs_list(&v.list), last: clone_var(&v.last) };
    proof {
        lemma_tree_var_list(r);
        lemma_tree_var_list(*v);
    }
    r
}

pub(crate) fn clone_var_pairs_list(v: &Vec<(Var, token::Comma)>) -> (r: Vec<(Var, token::Comma)>)
    ensures
        trees_var_pairs(r@) == trees_var_pairs(v@),
    decreases v,
{
    let mut r: Vec<(Var, token::Comma)> = Vec::new();
    let mut i: usize = 0;
    proof {
        assert(v@.subrange(0, 0) =~= r@);
    }
    while i < v.len()
        invariant
            i <= v.len(),
            trees_var_pairs(r@) == trees_var_pairs(v@.subrange(0, i as int)),
        decreases v.len() - i,
    {
        let x = (clone_var(&v[i].0), v[i].1);
        proof {
            lemma_trees_var_pairs(r@.push(x));
            lemma_trees_var_pairs(v@.subrange(0, i + 1));
            assert(r@.push(x).drop_last() =~= r@);
            assert(v@.subrange(0, i + 1).drop_last() =~= v@.subrange(0, i as int));
        }
        r.push(x);
        i = i + 1;
    }
    proof {
        assert(v@.subrange(0, v@.len() as int) =~= v@);
    }
    r
}

pub(crate) fn clone_var_pairs(v: &SeparatedNoTrailing<Var, token::Comma>) -> (r: SeparatedNoTrailing<Var, token::Comma>)
    ensures
        tree_var_pairs(r) == tree_var_pairs(*v),
    decreases v,
{
    let r = SeparatedNoTrailing { list: clone_var_pairs_list(&v.list) };
    proof {
        lemma_tree_var_pairs(r);
        lemma_tree_var_pairs(*v);
    }
    r
}

pub(crate) fn clone_exp_list(v: &SeparatedTrailing<Exp, token::Comma>) -> (r: SeparatedTrailing<Exp, token::Comma>)
    ensures
        tree_exp_list(r) == tree_exp_list(*v),
    decreases v,
{
    let r = SeparatedTrailing { list: clone_exp_pairs_list(&v.list), last: clone_exp(&v.last) };
    proof {
        lemma_tree_exp_list(r);
        lemma_tree_exp_list(*v);
    }
    r
}

pub(crate) fn clone_exp_pairs_list(v: &Vec<(Exp, token::Comma)>) -> (r: Vec<(Exp, token::Comma)>)
    ensures
        trees_exp_pairs(r@) == trees_exp_pairs(v@),
    decreases v,
{
    let mut r: Vec<(Exp, token::Comma)> = Vec::new();
    let mut i: usize = 0;
    proof {
        assert(v@.subrange(0, 0) =~= r@);
    }
    while i < v.len()
        invariant
            i <= v.len(),
            trees_exp_pairs(r@) == trees_exp_pairs(v@.subrange(0, i as int)),
        decreases v.len() - i,
    {
        let x = (clone_exp(&v[i].0), v[i].1);
        proof {
            lemma_trees_exp_pairs(r@.push(x));
            lemma_trees_exp_pairs(v@.subrange(0, i + 1));
            assert(r@.push(x).drop_last() =~= r@);
            assert(v@.subrange(0, i + 1).drop_last() =~= v@.subrange(0, i as int));
        }
        r.push(x);
        i = i + 1;
    }
    proof {
        assert(v@.subrange(0, v@.len() as int) =~= v@);
    }
    r
}

pub(crate) fn clone_exp_pairs(v: &SeparatedNoTrailing<Exp, token::Comma>) -> (r: SeparatedNoTrailing<Exp, token::Comma>)
    ensures
        tree_exp_pairs(r) == tree_exp_pairs(*v),
    decreases v,
{
    let r = SeparatedNoTrailing { list: clone_exp_pairs_list(&v.list) };
    proof {
        lemma_tree_exp_pairs(r);
        lemma_tree_exp_pairs(*v);
    }
    r
}

pub(crate) fn clone_name_list(v: &SeparatedTrailing<token::Name, token::Comma>) -> (r: SeparatedTrailing<token::Name, token::Comma>)
    ensures
        tree_name_list(r) == tree_name_list(*v),
    decreases v,
{
    let r = SeparatedTrailing { list: clone_name_pairs_list(&v.list), last: v.last };
    proof {
        lemma_tree_name_list(r);
        lemma_tree_name_list(*v);
    }
    r
}

pub(crate) fn clone_name_pairs_list(v: &Vec<(token::Name, token::Comma)>) -> (r: Vec<(token::Name, token::Comma)>)
    ensures
        trees_name_pairs(r@) == trees_name_pairs(v@),
    decreases v,
{
    let mut r: Vec<(token::Name, token::Comma)> = Vec::new();
    let mut i: usize = 0;
    proof {
        assert(v@.subrange(0, 0) =~= r@);
    }
    while i < v.len()
        invariant
            i <= v.len(),
            trees_name_pairs(r@) == trees_name_pairs(v@.subrange(0, i as int)),
        decreases v.len() - i,
    {
        let x = (v[i].0, v[i].1);
        proof {
            lemma_trees_name_pairs(r@.push(x));
            lemma_trees_name_pairs(v@.subrange(0, i + 1));
            assert(r@.push(x).drop_last() =~= r@);
            assert(v@.subrange(0, i + 1).drop_last() =~= v@.subrange(0, i as int));
        }
        r.push(x);
        i = i + 1;
    }
    proof {
        assert(v@.subrange(0, v@.len() as int) =~= v@);
    }
    r
}

pub(crate) fn clone_name_pairs(v: &SeparatedNoTrailing<token::Name, token::Comma>) -> (r: SeparatedNoTrailing<token::Name, token::Comma>)
    ensures
        tree_name_pairs(r) == tree_name_pairs(*v),
    decreases v,
{
    let r = SeparatedNoTrailing { list: clone_name_pairs_list(&v.list) };
    proof {
        lemma_tree_name_pairs(r);
        lemma_tree_name_pairs(*v);
    }
    r
}

pub(crate) fn clone_attr_name_list(v: &SeparatedTrailing<(token::Name, Option<Attribute>), token::Comma>) -> (r: SeparatedTrailing<(token::Name, Option<Attribute>), token::Comma>)
    ensures
        tree_attr_name_list(r) == tree_attr_name_list(*v),
    decreases v,
{
    let r = SeparatedTrailing { list: clone_attr_pairs_list(&v.list), last: clone_name_attr(&v.last) };
    proof {
        lemma_tree_attr_name_list(r);
        lemma_tree_attr_name_list(*v);
    }
    r
}

pub(crate) fn clone_attr_pairs_list(v: &Vec<((token::Name, Option<Attribute>), token::Comma)>) -> (r: Vec<((token::Name, Option<Attribute>), token::Comma)>)
    ensures
        trees_attr_pairs(r@) == trees_attr_pairs(v@),
    decreases v,
{
    let mut r: Vec<((token::Name, Option<Attribute>), token::Comma)> = Vec::new();
    let mut i: usize = 0;
    proof {
        assert(v@.subrange(0, 0) =~= r@);
    }
    while i < v.len()
        invariant
            i <= v.len(),
            trees_attr_pairs(r@) == trees_attr_pairs(v@.subrange(0, i as int)),
        decreases v.len() - i,
    {
        let x = (clone_name_attr(&v[i].0), v[i].1);
        proof {
            lemma_trees_attr_pairs(r@.push(x));
            lemma_trees_attr_pairs(v@.subrange(0, i + 1));
            assert(r@.push(x).drop_last() =~= r@);
            assert(v@.subrange(0, i + 1).drop_last() =~= v@.subrange(0, i as int));
        }
        r.push(x);
        i = i + 1;
    }
    proof {
        assert(v@.subrange(0, v@.len() as int) =~= v@);
    }
    r
}

pub(crate) fn clone_attr_pairs(v: &SeparatedNoTrailing<(token::Name, Option<Attribute>), token::Comma>) -> (r: SeparatedNoTrailing<(token::Name, Option<Attribute>), token::Comma>)
    ensures
        tree_attr_pairs(r) == tree_attr_pairs(*v),
    decreases v,
{
    let r = SeparatedNoTrailing { list: clone_attr_pairs_list(&v.list) };
    proof {
        lemma_tree_attr_pairs(r);
        lemma_tree_attr_pairs(*v);
    }
    r
}

pub(crate) fn clone_name_attr(v: &(token::Name, Option<Attribute>)) -> (r: (token::Name, Option<Attribute>))
    ensures
        tree_name_attr(r) == tree_name_attr(*v),
    decreases v,
{
    let r = (v.0, clone_opt_attribute(&v.1));
    proof {
        lemma_tree_name_attr(r);
        lemma_tree_name_attr(*v);
    }
    r
}

pub(crate) fn clone_opt_attribute(v: &Option<Attribute>) -> (r: Option<Attribute>)
    ensures
        tree_opt_attribute(r) == tree_opt_attribute(*v),
    decreases v,
{
    let r = match v {
        Some(x) => Some(clone_attribute(&*x)),
        None => None,
    };
    proof {
        lemma_tree_opt_attribute(r);
        lemma_tree_opt_attribute(*v);
    }
    r
}

pub(crate) fn clone_local_init(v: &Option<(token::Equal, SeparatedTrailing<Exp, token::Comma>)>) -> (r: Option<(token::Equal, SeparatedTrailing<Exp, token::Comma>)>)
    ensures
        tree_local_init(r) == tree_local_init(*v),
    decreases v,
{
    let r = match v {
        Some(x) => Some(clone_eq_exps(&*x)),
        None => None,
    };
    proof {
        lemma_tree_local_init(r);
        lemma_tree_local_init(*v);
    }
    r
}

pub(crate) fn clone_eq_exps(v: &(token::Equal, SeparatedTrailing<Exp, token::Comma>)) -> (r: (token::Equal, SeparatedTrailing<Exp, token::Comma>))
    ensures
        tree_eq_exps(r) == tree_eq_exps(*v),
    decreases v,
{
    let r = (v.0, clone_exp_list(&v.1));
    proof {
        lemma_tree_eq_exps(r);
        lemma_tree_eq_exps(*v);
    }
    r
}

pub(crate) fn clone_func_path(v: &SeparatedTrailing<token::Name, token::Dot>) -> (r: SeparatedTrailing<token::Name, token::Dot>)
    ensures
        tree_func_path(r) == tree_func_path(*v),
    decreases v,
{
    let r = SeparatedTrailing { list: clone_path_pairs_list(&v.list), last: v.last };
    proof {
        lemma_tree_func_path(r);
        lemma_tree_func_path(*v);
    }
    r
}

pub(crate) fn clone_path_pairs_list(v: &Vec<(token::Name, token::Dot)>) -> (r: Vec<(token::Name, token::Dot)>)
    ensures
        trees_path_pairs(r@) == trees_path_pairs(v@),
    decreases v,
{
    let mut r: Vec<(token::Name, token::Dot)> = Vec::new();
    let mut i: usize = 0;
    proof {
        assert(v@.subrange(0, 0) =~= r@);
    }
    while i < v.len()
        invariant
            i <= v.len(),
            trees_path_pairs(r@) == trees_path_pairs(v@.subrange(0, i as int)),
        decreases v.len() - i,
    {
        let x = (v[i].0, v[i].1);
        proof {
            lemma_trees_path_pairs(r@.push(x));
            lemma_trees_path_pairs(v@.subrange(0, i + 1));
            assert(r@.push(x).drop_last() =~= r@);
            assert(v@.subrange(0, i + 1).drop_last() =~= v@.subrange(0, i as int));
        }
        r.push(x);
        i = i + 1;
    }
    proof {
        assert(v@.subrange(0, v@.len() as int) =~= v@);
    }
    r
}

pub(crate) fn clone_path_pairs(v: &SeparatedNoTrailing<token::Name, token::Dot>) -> (r: SeparatedNoTrailing<token::Name, token::Dot>)
    ensures
        tree_path_pairs(r) == tree_path_pairs(*v),
    decreases v,
{
    let r = SeparatedNoTrailing { list: clone_path_pairs_list(&v.list) };
    proof {
        lemma_tree_path_pairs(r);
        lemma_tree_path_pairs(*v);
    }
    r
}

pub(crate) fn clone_opt_step(v: &Option<(token::Comma, Exp)>) -> (r: Option<(token::Comma, Exp)>)
    ensures
        tree_opt_step(r) == tree_opt_step(*v),
    decreases v,
{
    let r = match v {
        Some(x) => Some(clone_comma_exp(&*x)),
        None => None,
    };
    proof {
        lemma_tree_opt_step(r);
        lemma_tree_opt_step(*v);
    }
    r
}

pub(crate) fn clone_comma_exp(v: &(token::Comma, Exp)) -> (r: (token::Comma, Exp))
    ensures
        tree_comma_exp(r) == tree_comma_exp(*v),
    decreases v,
{
    let r = (v.0, clone_exp(&v.1));
    proof {
        lemma_tree_comma_exp(r);
        lemma_tree_comma_exp(*v);
    }
    r
}

pub(crate) fn clone_elseifs(v: &Vec<ElseIfBranch>) -> (r: Vec<ElseIfBranch>)
    ensures
        tree_elseifs(r) == tree_elseifs(*v),
    decreases v,
{
    let mut r: Vec<ElseIfBranch> = Vec::new();
    let mut i: usize = 0;
    proof {
        assert(v@.subrange(0, 0) =~= r@);
    }
    while i < v.len()
        invariant
            i <= v.len(),
            trees_elseifs(r@) == trees_elseifs(v@.subrange(0, i as int)),
        decreases v.len() - i,
    {
        let x = clone_else_if_branch(&v[i]);
        proof {
            lemma_trees_elseifs(r@.push(x));
            lemma_trees_elseifs(v@.subrange(0, i + 1));
            assert(r@.push(x).drop_last() =~= r@);
            assert(v@.subrange(0, i + 1).drop_last() =~= v@.subrange(0, i as int));
        }
        r.push(x);
        i = i + 1;
    }
    proof {
        assert(v@.subrange(0, v@.len() as int) =~= v@);
        lemma_tree_elseifs(r);
        lemma_tree_elseifs(*v);
    }
    r
}

pub(crate) fn clone_opt_else(v: &Option<ElseBranch>) -> (r: Option<ElseBranch>)
    ensures
        tree_opt_else(r) == tree_opt_else(*v),
    decreases v,
{
    let r = match v {
        Some(x) => Some(clone_else_branch(&*x)),
        None => None,
    };
    proof {
        lemma_tree_opt_else(r);
        lemma_tree_opt_else(*v);
    }
    r
}

pub(crate) fn clone_suffixes(v: &Vec<PrefixExpSuffix>) -> (r: Vec<PrefixExpSuffix>)
    ensures
        tree_suffixes(r) == tree_suffixes(*v),
    decreases v,
{
    let mut r: Vec<PrefixExpSuffix> = Vec::new();
    let mut i: usize = 0;
    proof {
        assert(v@.subrange(0, 0) =~= r@);
    }
    while i < v.len()
        invariant
            i <= v.len(),
            trees_suffixes(r@) == trees_suffixes(v@.subrange(0, i as int)),
        decreases v.len() - i,
    {
        let x = clone_prefix_exp_suffix(&v[i]);
        proof {
            lemma_trees_suffixes(r@.push(x));
            lemma_trees_suffixes(v@.subrange(0, i + 1));
            assert(r@.push(x).drop_last() =~= r@);
            assert(v@.subrange(0, i + 1).drop_last() =~= v@.subrange(0, i as int));
        }
        r.push(x);
        i = i + 1;
    }
    proof {
        assert(v@.subrange(0, v@.len() as int) =~= v@);
        lemma_tree_suffixes(r);
        lemma_tree_suffixes(*v);
    }
    r
}

pub(crate) fn clone_field_pairs_list(v: &Vec<(Field, FieldSep)>) -> (r: Vec<(Field, FieldSep)>)
    ensures
        trees_field_pairs(r@) == trees_field_pairs(v@),
    decreases v,
{
    let mut r: Vec<(Field, FieldSep)> = Vec::new();
    let mut i: usize = 0;
    proof {
        assert(v@.subrange(0, 0) =~= r@);
    }
    while i < v.len()
        invariant
            i <= v.len(),
            trees_field_pairs(r@) == trees_field_pairs(v@.subrange(0, i as int)),
        decreases v.len() - i,
    {
        let x: (Field, FieldSep) = (clone_field(&v[i].0), v[i].1);
        proof {
            lemma_tree_field_pairs(x);
            lemma_tree_field_pairs(v@[i as int]);
            lemma_trees_field_pairs(r@.push(x));
            lemma_trees_field_pairs(v@.subrange(0, i + 1));
            assert(r@.push(x).drop_last() =~= r@);
            assert(v@.subrange(0, i + 1).drop_last() =~= v@.subrange(0, i as int));
        }
        r.push(x);
        i = i + 1;
    }
    proof {
        assert(v@.subrange(0, v@.len() as int) =~= v@);
    }
    r
}

pub(crate) fn clone_fields(v: &Separated<Field, FieldSep>) -> (r: Separated<Field, FieldSep>)
    ensures
        tree_fields(r) == tree_fields(*v),
    decreases v,
{
    let r = match v {
        Separated::Trailing(st) => Separated::Trailing(
            SeparatedTrailing { list: clone_field_pairs_list(&st.list), last: clone_field(&st.last) },
        ),
        Separated::NoTrailing(nt) => Separated::NoTrailing(
            SeparatedNoTrailing { list: clone_field_pairs_list(&nt.list) },
        ),
    };
    proof {
        lemma_tree_fields(r);
        lemma_tree_fields(*v);
    }
    r
}

pub(crate) fn clone_field_pairs(v: &(Field, FieldSep)) -> (r: (Field, FieldSep))
    ensures
        tree_field_pairs(r) == tree_field_pairs(*v),
    decreases v,
{
    let r = (clone_field(&v.0), v.1);
    proof {
        lemma_tree_field_pairs(r);
        lemma_tree_field_pairs(*v);
    }
    r
}

/// A copy of a `FunctionName`, with the same parse tree.
pub(crate) fn clone_function_name(v: &FunctionName) -> (r: FunctionName)
    ensures
        tree_function_name(r) == tree_function_name(*v),
    decreases v,
{
    let r = FunctionName { path: clone_func_path(&v.path), suffix: v.suffix };
    proof {
        lemma_tree_function_name(r);
        lemma_tree_function_name(*v);
    }
    r
}

/// A copy of an `Exp`, with the same parse tree.
pub(crate) fn clone_exp(v: &Exp) -> (r: Exp)
    ensures
        tree_exp(r) == tree_exp(*v),
    decreases v,
{
    let r = match v {
        Exp::Atom(a) => Exp::Atom(clone_exp_atom(a)),
        Exp::Unary(u) => Exp::Unary(ExpUnary { operand: u.operand, value: Box::new(clone_exp(&u.value)) }),
        Exp::Binary(b) => Exp::Binary(
            ExpBinary {
                left: Box::new(clone_exp(&b.left)),
                operand: b.operand,
                right: Box::new(clone_exp(&b.right)),
            },
        ),
    };
    proof {
        lemma_tree_exp(r);
        lemma_tree_exp(*v);
    }
    r
}

impl Clone for Chunk {
    fn clone(&self) -> (r: Self)
        ensures
            tree_chunk(r) == tree_chunk(*self),
    {
        clone_chunk(self)
    }
}

impl Clone for StAssign {
    fn clone(&self) -> (r: Self)
        ensures
            tree_st_assign(r) == tree_st_assign(*self),
    {
        clone_st_assign(self)
    }
}

impl Clone for StBlock {
    fn clone(&self) -> (r: Self)
        ensures
            tree_st_block(r) == tree_st_block(*self),
    {
        clone_st_block(self)
    }
}

impl Clone for Attribute {
    fn clone(&self) -> (r: Self)
        ensures
            tree_attribute(r) == tree_attribute(*self),
    {
        clone_attribute(self)
    }
}

impl Clone for StWhileLoop {
    fn clone(&self) -> (r: Self)
        ensures
            tree_st_while_loop(r) == tree_st_while_loop(*self),
    {
        clone_st_while_loop(self)
    }
}

impl Clone for StRepeatLoop {
    fn clone(&self) -> (r: Self)
        ensures
            tree_st_repeat_loop(r) == tree_st_repeat_loop(*self),
    {
        clone_st_repeat_loop(self)
    }
}

impl Clone for StForRangeLoop {
    fn clone(&self) -> (r: Self)
        ensures
            tree_st_for_range_loop(r) == tree_st_for_range_loop(*self),
    {
        clone_st_for_range_loop(self)
    }
}

impl Clone for StForInLoop {
    fn clone(&self) -> (r: Self)
        ensures
            tree_st_for_in_loop(r) == tree_st_for_in_loop(*self),
    {
        clone_st_for_in_loop(self)
    }
}

impl Clone for StIfElse {
    fn clone(&self) -> (r: Self)
        ensures
            tree_st_if_else(r) == tree_st_if_else(*self),
    {
        clone_st_if_else(self)
    }
}

impl Clone for IfBranch {
    fn clone(&self) -> (r: Self)
        ensures
            tree_if_branch(r) == tree_if_branch(*self),
    {
        clone_if_branch(self)
    }
}

impl Clone for ElseIfBranch {
    fn clone(&self) -> (r: Self)
        ensures
            tree_else_if_branch(r) == tree_else_if_branch(*self),
    {
        clone_else_if_branch(self)
    }
}

impl Clone for ElseBranch {
    fn clone(&self) -> (r: Self)
        ensures
            tree_else_branch(r) == tree_else_branch(*self),
    {
        clone_else_branch(self)
    }
}

impl Clone for FunctionCall {
    fn clone(&self) -> (r: Self)
        ensures
            tree_function_call(r) == tree_function_call(*self),
    {
        clone_function_call(self)
    }
}

impl Clone for FunctionCallBody {
    fn clone(&self) -> (r: Self)
        ensures
            tree_function_call_body(r) == tree_function_call_body(*self),
    {
        clone_function_call_body(self)
    }
}

impl Clone for ArgList {
    fn clone(&self) -> (r: Self)
        ensures
            tree_arg_list(r) == tree_arg_list(*self),
    {
        clone_arg_list(self)
    }
}

impl Clone for StFunctionDef {
    fn clone(&self) -> (r: Self)
        ensures
            tree_st_function_def(r) == tree_st_function_def(*self),
    {
        clone_st_function_def(self)
    }
}

impl Clone for StLocalFunctionDef {
    fn clone(&self) -> (r: Self)
        ensures
            tree_st_local_function_def(r) == tree_st_local_function_def(*self),
    {
        clone_st_local_function_def(self)
    }
}

impl Clone for StLocalInit {
    fn clone(&self) -> (r: Self)
        ensures
            tree_st_local_init(r) == tree_st_local_init(*self),
    {
        clone_st_local_init(self)
    }
}

impl Clone for StReturn {
    fn clone(&self) -> (r: Self)
        ensures
            tree_st_return(r) == tree_st_return(*self),
    {
        clone_st_return(self)
    }
}

impl Clone for FunctionBody {
    fn clone(&self) -> (r: Self)
        ensures
            tree_function_body(r) == tree_function_body(*self),
    {
        clone_function_body(self)
    }
}

impl Clone for ParList {
    fn clone(&self) -> (r: Self)
        ensures
            tree_par_list(r) == tree_par_list(*self),
    {
        clone_par_list(self)
    }
}

impl Clone for VarIndex {
    fn clone(&self) -> (r: Self)
        ensures
            tree_var_index(r) == tree_var_index(*self),
    {
        clone_var_index(self)
    }
}

impl Clone for VarIndexBody {
    fn clone(&self) -> (r: Self)
        ensures
            tree_var_index_body(r) == tree_var_index_body(*self),
    {
        clone_var_index_body(self)
    }
}

impl Clone for VarAccess {
    fn clone(&self) -> (r: Self)
        ensures
            tree_var_access(r) == tree_var_access(*self),
    {
        clone_var_access(self)
    }
}

impl Clone for VarAccessBody {
    fn clone(&self) -> (r: Self)
        ensures
            tree_var_access_body(r) == tree_var_access_body(*self),
    {
        clone_var_access_body(self)
    }
}

impl Clone for PrefixExp {
    fn clone(&self) -> (r: Self)
        ensures
            tree_prefix_exp(r) == tree_prefix_exp(*self),
    {
        clone_prefix_exp(self)
    }
}

impl Clone for PrefixParens {
    fn clone(&self) -> (r: Self)
        ensures
            tree_prefix_parens(r) == tree_prefix_parens(*self),
    {
        clone_prefix_parens(self)
    }
}

impl Clone for ExpFunction {
    fn clone(&self) -> (r: Self)
        ensures
            tree_exp_function(r) == tree_exp_function(*self),
    {
        clone_exp_function(self)
    }
}

impl Clone for TableConstructor {
    fn clone(&self) -> (r: Self)
        ensures
            tree_table_constructor(r) == tree_table_constructor(*self),
    {
        clone_table_constructor(self)
    }
}

impl Clone for MapField {
    fn clone(&self) -> (r: Self)
        ensures
            tree_map_field(r) == tree_map_field(*self),
    {
        clone_map_field(self)
    }
}

impl Clone for BracketField {
    fn clone(&self) -> (r: Self)
        ensures
            tree_bracket_field(r) == tree_bracket_field(*self),
    {
        clone_bracket_field(self)
    }
}

impl Clone for Statement {
    fn clone(&self) -> (r: Self)
        ensures
            tree_statement(r) == tree_statement(*self),
    {
        clone_statement(self)
    }
}

impl Clone for FunctionArgs {
    fn clone(&self) -> (r: Self)
        ensures
            tree_function_args(r) == tree_function_args(*self),
    {
        clone_function_args(self)
    }
}

impl Clone for LastStatement {
    fn clone(&self) -> (r: Self)
        ensures
            tree_last_statement(r) == tree_last_statement(*self),
    {
        clone_last_statement(self)
    }
}

impl Clone for Var {
    fn clone(&self) -> (r: Self)
        ensures
            tree_var(r) == tree_var(*self),
    {
        clone_var(self)
    }
}

impl Clone for PrefixExpKind {
    fn clone(&self) -> (r: Self)
        ensures
            tree_prefix_exp_kind(r) == tree_prefix_exp_kind(*self),
    {
        clone_prefix_exp_kind(self)
    }
}

impl Clone for PrefixExpSuffix {
    fn clone(&self) -> (r: Self)
        ensures
            tree_prefix_exp_suffix(r) == tree_prefix_exp_suffix(*self),
    {
        clone_prefix_exp_suffix(self)
    }
}

impl Clone for ExpAtom {
    fn clone(&self) -> (r: Self)
        ensures
            tree_exp_atom(r) == tree_exp_atom(*self),
    {
        clone_exp_atom(self)
    }
}

impl Clone for Field {
    fn clone(&self) -> (r: Self)
        ensures
            tree_field(r) == tree_field(*self),
    {
        clone_field(self)
    }
}

impl Clone for FunctionName {
    fn clone(&self) -> (r: Self)
        ensures
            tree_function_name(r) == tree_function_name(*self),
    {
        clone_function_name(self)
    }
}

impl Clone for Exp {
    fn clone(&self) -> (r: Self)
        ensures
            tree_exp(r) == tree_exp(*self),
    {
        clone_exp(self)
    }
}

impl Clone for ExpUnary {
    fn clone(&self) -> (r: Self)
        ensures
            r.operand == self.operand,
            tree_exp(*r.value) == tree_exp(*self.value),
    {
        ExpUnary { operand: self.operand, value: Box::new(clone_exp(&self.value)) }
    }
}

impl Clone for ExpBinary {
    fn clone(&self) -> (r: Self)
        ensures
            tree_exp(*r.left) == tree_exp(*self.left),
            r.operand == self.operand,
            tree_exp(*r.right) == tree_exp(*self.right),
    {
        ExpBinary {
            left: Box::new(clone_exp(&self.left)),
            operand: self.operand,
            right: Box::new(clone_exp(&self.right)),
        }
    }
}


} // verus!
