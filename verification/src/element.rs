//! Defines all elements in the Lua syntax tree.

#![allow(missing_docs)]

use vstd::prelude::*;

use crate::token::{
    Break, CloseBrace, CloseBracket, CloseParen, Colon, Comma, Do, Dot, DoubleColon, Else, ElseIf,
    End, Ellipses, Equal, False, For, Function, Goto, Greater, If, In, Less, LiteralNumber,
    LiteralString, Local, Name, Nil, OpenBrace, OpenBracket, OpenParen, Repeat, Return, Semicolon,
    Then, True, Until, While,
};
use crate::token::{
    Ampersand, And, Asterisk, Carat, DoubleDot, DoubleEqual, DoubleGreater, DoubleLess,
    DoubleSlash, GreaterEqual, Hashtag, LessEqual, Minus, Not, Or, Percent, Pipe, Plus, Slash,
    Tilde, TildeEqual,
};

verus! {

/// Represents a list of tokens separated by another kind of token, possibly with a trailing element.
#[derive(Debug, Clone)]
pub enum Separated<T, Sep> {
    Trailing(SeparatedTrailing<T, Sep>),
    NoTrailing(SeparatedNoTrailing<T, Sep>),
}

/// Represents a list of tokens separated by another kind of token, without a trailing element.
#[derive(Debug, Clone)]
pub struct SeparatedNoTrailing<T, Sep> {
    pub list: Vec<(T, Sep)>,
}

/// Represents a list of tokens separated by another kind of token, with a trailing element.
#[derive(Debug, Clone)]
pub struct SeparatedTrailing<T, Sep> {
    pub list: Vec<(T, Sep)>,
    pub last: T,
}

#[derive(Debug)]
pub struct FunctionName {
    pub path: SeparatedTrailing<Name, Dot>,
    pub suffix: Option<(Colon, Name)>,
}

pub type VarList = SeparatedTrailing<Var, Comma>;

pub type NameList = SeparatedTrailing<Name, Comma>;

pub type AttrNameList = SeparatedTrailing<(Name, Option<Attribute>), Comma>;

pub type ExpList = SeparatedTrailing<Exp, Comma>;

#[derive(Debug)]
pub struct Chunk {
    pub statements: Vec<(Statement, Option<Semicolon>)>,
    pub last_statement: Option<(LastStatement, Option<Semicolon>)>,
}

#[derive(Debug)]
pub enum Statement {
    Assign(StAssign),
    FunctionCall(FunctionCall),
    Block(StBlock),
    WhileLoop(StWhileLoop),
    RepeatLoop(StRepeatLoop),
    IfElse(StIfElse),
    ForRangeLoop(StForRangeLoop),
    ForInLoop(StForInLoop),
    FunctionDef(StFunctionDef),
    LocalFunctionDef(StLocalFunctionDef),
    LocalInit(StLocalInit),
    Goto(StGoto),
    Label(StLabel),
    Break(StBreak),
}

#[derive(Debug)]
pub struct StAssign {
    pub vars: VarList,
    pub eq: Equal,
    pub exps: ExpList,
}

#[derive(Debug)]
pub struct StBlock {
    pub kw_do: Do,
    pub body: Chunk,
    pub kw_end: End,
}

#[derive(Debug)]
pub struct Attribute {
    pub open_angle: Less,
    pub name: Name,
    pub close_angle: Greater,
}

#[derive(Debug)]
pub struct StWhileLoop {
    pub kw_while: While,
    pub exp: Exp,
    pub kw_do: Do,
    pub body: Chunk,
    pub kw_end: End,
}

#[derive(Debug)]
pub struct StRepeatLoop {
    pub kw_repeat: Repeat,
    pub body: Chunk,
    pub kw_until: Until,
    pub exp: Exp,
}

#[derive(Debug)]
pub struct StForRangeLoop {
    pub kw_for: For,
    pub name: Name,
    pub eq: Equal,
    pub start: Exp,
    pub comma: Comma,
    pub stop: Exp,
    pub step: Option<(Comma, Exp)>,
    pub kw_do: Do,
    pub body: Chunk,
    pub kw_end: End,
}

#[derive(Debug)]
pub struct StForInLoop {
    pub kw_for: For,
    pub namelist: NameList,
    pub kw_in: In,
    pub explist: ExpList,
    pub kw_do: Do,
    pub body: Chunk,
    pub kw_end: End,
}

#[derive(Debug)]
pub struct StIfElse {
    pub if_branch: IfBranch,
    pub elseif_branches: Vec<ElseIfBranch>,
    pub else_branch: Option<ElseBranch>,
}

#[derive(Debug)]
pub struct IfBranch {
    pub kw_if: If,
    pub condition: Exp,
    pub kw_then: Then,
    pub body: Chunk,
}

#[derive(Debug)]
pub struct ElseIfBranch {
    pub kw_elseif: ElseIf,
    pub condition: Exp,
    pub kw_then: Then,
    pub body: Chunk,
}

#[derive(Debug)]
pub struct ElseBranch {
    pub kw_else: Else,
    pub body: Chunk,
}

#[derive(Debug)]
pub struct FunctionCall {
    pub prefix: Box<PrefixExp>,
    pub body: FunctionCallBody,
}

#[derive(Debug)]
pub struct FunctionCallBody {
    pub qualifier: Option<(Colon, Name)>,
    pub args: FunctionArgs,
}

#[derive(Debug)]
pub enum FunctionArgs {
    List(ArgList),
    Table(TableConstructor),
    String(LiteralString),
}

#[derive(Debug)]
pub struct ArgList {
    pub open_paren: OpenParen,
    pub arguments: ExpList,
    pub close_paren: CloseParen,
}

#[derive(Debug)]
pub struct StFunctionDef {
    pub kw_function: Function,
    pub name: FunctionName,
    pub body: FunctionBody,
}

#[derive(Debug)]
pub struct StLocalFunctionDef {
    pub local: Local,
    pub function: Function,
    pub name: Name,
    pub body: FunctionBody,
}

#[derive(Debug)]
pub struct StLocalInit {
    pub kw_local: Local,
    pub attrnames: AttrNameList,
    pub init: Option<(Equal, ExpList)>,
}

#[derive(Debug, Copy, Clone)]
pub struct StGoto {
    pub kw_goto: Goto,
    pub label: Name,
}

#[derive(Debug, Copy, Clone)]
pub struct StLabel {
    pub start_dcolon: DoubleColon,
    pub name: Name,
    pub end_dcolon: DoubleColon,
}

#[derive(Debug)]
pub enum LastStatement {
    Return(StReturn),
}

#[derive(Debug)]
pub struct StReturn {
    pub kw_return: Return,
    pub value: ExpList,
}

#[derive(Debug, Copy, Clone)]
pub struct StBreak {
    pub kw_break: Break,
}

#[derive(Debug)]
pub struct FunctionBody {
    pub open_paren: OpenParen,
    pub parlist: ParList,
    pub close_paren: CloseParen,
    pub block: Chunk,
    pub kw_end: End,
}

#[derive(Debug)]
pub struct ParList {
    pub names: NameList,
    pub ellipses: Option<Ellipses>,
}

#[derive(Debug)]
pub enum Var {
    Name(Name),
    Index(VarIndex),
    Access(VarAccess),
}

#[derive(Debug)]
pub struct VarIndex {
    pub prefix: Box<PrefixExp>,
    pub body: VarIndexBody,
}

#[derive(Debug)]
pub struct VarIndexBody {
    pub open_bracket: OpenBracket,
    pub index: Exp,
    pub close_bracket: CloseBracket,
}

#[derive(Debug)]
pub struct VarAccess {
    pub prefix: Box<PrefixExp>,
    pub body: VarAccessBody,
}

#[derive(Debug)]
pub struct VarAccessBody {
    pub dot: Dot,
    pub name: Name,
}

#[derive(Debug)]
pub struct PrefixExp {
    pub kind: PrefixExpKind,
    pub calls: Vec<PrefixExpSuffix>,
}

#[derive(Debug)]
pub enum PrefixExpKind {
    Name(Name),
    Parens(PrefixParens),
}

#[derive(Debug)]
pub enum PrefixExpSuffix {
    FunctionCall(FunctionCallBody),
    Index(VarIndexBody),
    Access(VarAccessBody),
}

#[derive(Debug)]
pub struct PrefixParens {
    pub open_paren: OpenParen,
    pub inner: Exp,
    pub close_paren: CloseParen,
}

#[derive(Debug)]
pub enum Exp {
    Atom(ExpAtom),
    Unary(ExpUnary),
    Binary(ExpBinary),
}

#[derive(Debug)]
pub enum ExpAtom {
    Nil(Nil),
    True(True),
    False(False),
    Literal(ExpLiteral),
    Ellipses(Ellipses),
    Function(ExpFunction),
    Prefix(Box<PrefixExp>),
    Table(Box<TableConstructor>),
}

#[derive(Debug)]
pub struct ExpBinary {
    pub left: Box<Exp>,
    pub operand: BinaryOperand,
    pub right: Box<Exp>,
}

#[derive(Debug)]
pub struct ExpUnary {
    pub operand: UnaryOperand,
    pub value: Box<Exp>,
}

#[derive(Debug, Copy, Clone)]
pub enum BinaryOperand {
    Plus(Plus),
    Minus(Minus),
    Asterisk(Asterisk),
    Slash(Slash),
    Carat(Carat),
    Percent(Percent),
    DoubleDot(DoubleDot),
    Less(Less),
    LessEqual(LessEqual),
    Greater(Greater),
    GreaterEqual(GreaterEqual),
    DoubleEqual(DoubleEqual),
    TildeEqual(TildeEqual),
    And(And),
    Or(Or),
    DoubleSlash(DoubleSlash),
    Pipe(Pipe),
    Tilde(Tilde),
    Ampersand(Ampersand),
    DoubleLess(DoubleLess),
    DoubleGreater(DoubleGreater),
}

#[derive(Debug, Copy, Clone)]
pub enum UnaryOperand {
    Minus(Minus),
    Not(Not),
    Hashtag(Hashtag),
    Tilde(Tilde),
}

#[derive(Debug)]
pub struct ExpFunction {
    pub kw_function: Function,
    pub body: Box<FunctionBody>,
}

#[derive(Debug)]
pub struct TableConstructor {
    pub open_brace: OpenBrace,
    pub fields: Separated<Field, FieldSep>,
    pub close_brace: CloseBrace,
}

#[derive(Debug, Copy, Clone)]
pub enum FieldSep {
    Comma(Comma),
    Semicolon(Semicolon),
}

#[derive(Debug)]
pub enum Field {
    ArrayLike(Exp),
    MapLike(MapField),
    Bracketed(BracketField),
}

#[derive(Debug)]
pub struct MapField {
    pub name: Name,
    pub eq: Equal,
    pub exp: Exp,
}

#[derive(Debug)]
pub struct BracketField {
    pub open_bracket: OpenBracket,
    pub key: Exp,
    pub close_bracket: CloseBracket,
    pub eq: Equal,
    pub value: Exp,
}

#[derive(Debug, Copy, Clone)]
pub enum ExpLiteral {
    Number(LiteralNumber),
    String(LiteralString),
}

} // verus!
