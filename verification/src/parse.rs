//! Parsing constructs.
//!
//! Every parser has a mathematical counterpart: a spec function that gives
//! what a call does from a position of the token sequence, as an [`Outcome`].
//! Parsers try alternatives in order and backtrack by moving the cursor back.

use vstd::prelude::*;

use crate::element::{Separated, SeparatedNoTrailing, SeparatedTrailing};
use crate::token::Token;
use crate::tokenize::{TokenStream, TokenStreamView, Tokens};

verus! {

/// An error showing that something went wrong during parsing.
#[derive(Debug, Copy, Clone)]
pub struct ParsingError {
    /// The error index.
    pub index: usize,
    /// The error message.
    pub message: &'static str,
}

impl ParsingError {
    /// Creates a new error at the specified index.
    pub fn new(index: usize, message: &'static str) -> (e: Self)
        ensures
            e == (ParsingError { index, message }),
    {
        ParsingError { index, message }
    }

    /// Describes the error: where it is and what went wrong.
    pub fn to_string(&self) -> (s: String)
        ensures
            s@ == error_text(*self),
    {
        let mut s = String::from_str("parsing error at index ");
        push_decimal(&mut s, self.index);
        s.append(": ");
        s.append(self.message);
        s
    }
}

/// The decimal digit `d` as a character.
pub open spec fn digit_char(d: nat) -> char {
    if d == 0 { '0' } else if d == 1 { '1' } else if d == 2 { '2' } else if d == 3 { '3' } else if d == 4 {
        '4'
    } else if d == 5 { '5' } else if d == 6 { '6' } else if d == 7 { '7' } else if d == 8 { '8' } else {
        '9'
    }
}

/// `n` written in decimal, without leading zeros.
pub open spec fn decimal(n: nat) -> Seq<char>
    decreases n,
{
    if n < 10 {
        seq![digit_char(n)]
    } else {
        decimal(n / 10).push(digit_char(n % 10))
    }
}

/// How a [`ParsingError`] reads.
pub open spec fn error_text(e: ParsingError) -> Seq<char> {
    "parsing error at index "@ + decimal(e.index as nat) + ": "@ + e.message@
}

/// The digit `d` as a one-character string.
fn digit_str(d: usize) -> (s: &'static str)
    requires
        d < 10,
    ensures
        s@ == seq![digit_char(d as nat)],
{
    proof {
        reveal_strlit("0");
        reveal_strlit("1");
        reveal_strlit("2");
        reveal_strlit("3");
        reveal_strlit("4");
        reveal_strlit("5");
        reveal_strlit("6");
        reveal_strlit("7");
        reveal_strlit("8");
        reveal_strlit("9");
    }
    if d == 0 {
        "0"
    } else if d == 1 {
        "1"
    } else if d == 2 {
        "2"
    } else if d == 3 {
        "3"
    } else if d == 4 {
        "4"
    } else if d == 5 {
        "5"
    } else if d == 6 {
        "6"
    } else if d == 7 {
        "7"
    } else if d == 8 {
        "8"
    } else {
        "9"
    }
}

/// Appends `n` in decimal to `s`.
fn push_decimal(s: &mut String, n: usize)
    ensures
        final(s)@ == old(s)@ + decimal(n as nat),
    decreases n,
{
    if n >= 10 {
        push_decimal(s, n / 10);
    }
    s.append(digit_str(n % 10));
    proof {
        assert(old(s)@ + decimal(n as nat) =~= if n >= 10 {
            old(s)@ + decimal((n / 10) as nat) + seq![digit_char((n % 10) as nat)]
        } else {
            old(s)@ + seq![digit_char((n % 10) as nat)]
        });
    }
}

/// The error value at `index` with `message`.
pub open spec fn perr(index: int, message: &'static str) -> ParsingError {
    ParsingError { index: index as usize, message }
}

/// What a call of a parsing function does, as a mathematical value.
pub enum Outcome<T> {
    /// The call returns `Ok` or `Err`, leaving the cursor at the given position.
    Returns(Result<T, ParsingError>, nat),
    /// The call does not return: it panics, or it would go on for ever.
    Panics,
}

/// A syntax element seen as a tree: what parsing it determined.
pub enum Tree {
    /// A token.
    Leaf(Token),
    /// The fields of a struct or tuple, or the items of a list, in order.
    Node(Seq<Tree>),
    /// Variant number `n` of an enum, counted from 0 in declaration order, and its content.
    Choice(nat, Box<Tree>),
    /// An optional part, absent or present.
    Opt(Option<Box<Tree>>),
}

/// A parse that returns `r` and leaves the cursor at `end` does what `o` says,
/// where the value is seen through `tree`.
pub open spec fn agrees<T>(
    o: Outcome<Tree>,
    r: Result<T, ParsingError>,
    end: nat,
    tree: spec_fn(T) -> Tree,
) -> bool {
    match o {
        Outcome::Returns(Ok(x), p) => p == end && match r {
            Ok(v) => tree(v) == x,
            Err(_) => false,
        },
        Outcome::Returns(Err(e), p) => p == end && r == Err::<T, ParsingError>(e),
        Outcome::Panics => false,
    }
}

/// A list whose first items are `first` and whose rest parses as `o`.
pub open spec fn prepend_trees(first: Seq<Tree>, o: Outcome<Seq<Tree>>) -> Outcome<Seq<Tree>> {
    match o {
        Outcome::Returns(Ok(rest), p) => Outcome::Returns(Ok(first + rest), p),
        Outcome::Returns(Err(e), p) => Outcome::Returns(Err(e), p),
        Outcome::Panics => Outcome::Panics,
    }
}

/// Like [`prepend_trees`], for a list that may end with an unseparated item.
pub open spec fn prepend_pairs(
    first: Seq<Tree>,
    o: Outcome<(Seq<Tree>, Option<Tree>)>,
) -> Outcome<(Seq<Tree>, Option<Tree>)> {
    match o {
        Outcome::Returns(Ok((rest, last)), p) => Outcome::Returns(Ok((first + rest, last)), p),
        Outcome::Returns(Err(e), p) => Outcome::Returns(Err(e), p),
        Outcome::Panics => Outcome::Panics,
    }
}

/// Prepending `first` and then `x` is prepending `first` followed by `x`.
pub proof fn lemma_prepend_trees_push(first: Seq<Tree>, x: Tree, o: Outcome<Seq<Tree>>)
    ensures
        prepend_trees(first, prepend_trees(seq![x], o)) == prepend_trees(first.push(x), o),
{
    if let Outcome::Returns(Ok(rest), _) = o {
        assert(first + (seq![x] + rest) =~= first.push(x) + rest);
    }
}

/// Prepending nothing leaves an outcome as it is.
pub proof fn lemma_prepend_trees_empty(o: Outcome<Seq<Tree>>)
    ensures
        prepend_trees(seq![], o) == o,
{
    if let Outcome::Returns(Ok(rest), _) = o {
        assert(seq![] + rest =~= rest);
    }
}

/// Like [`lemma_prepend_trees_empty`], for [`prepend_pairs`].
pub proof fn lemma_prepend_pairs_empty(o: Outcome<(Seq<Tree>, Option<Tree>)>)
    ensures
        prepend_pairs(seq![], o) == o,
{
    if let Outcome::Returns(Ok((rest, _)), _) = o {
        assert(seq![] + rest =~= rest);
    }
}

/// Like [`lemma_prepend_trees_push`], for [`prepend_pairs`].
pub proof fn lemma_prepend_pairs_push(
    first: Seq<Tree>,
    x: Tree,
    o: Outcome<(Seq<Tree>, Option<Tree>)>,
)
    ensures
        prepend_pairs(first, prepend_pairs(seq![x], o)) == prepend_pairs(first.push(x), o),
{
    if let Outcome::Returns(Ok((rest, _)), _) = o {
        assert(first + (seq![x] + rest) =~= first.push(x) + rest);
    }
}

/// A list of parse trees as one tree.
pub open spec fn as_node(o: Outcome<Seq<Tree>>) -> Outcome<Tree> {
    match o {
        Outcome::Returns(Ok(items), p) => Outcome::Returns(Ok(Tree::Node(items)), p),
        Outcome::Returns(Err(e), p) => Outcome::Returns(Err(e), p),
        Outcome::Panics => Outcome::Panics,
    }
}

/// The number of tokens left from `pos`.
pub open spec fn rem(input: Tokens, pos: nat) -> nat {
    if pos <= input.tokens.len() {
        (input.tokens.len() - pos) as nat
    } else {
        0
    }
}

/// A cursor at `a` that ends at `b` stayed or moved forward over tokens.
pub open spec fn moved(input: Tokens, a: nat, b: nat) -> bool {
    b == a || (a < b && b <= input.tokens.len())
}

/// A parse took the stream from `a` to `b`: same tokens, cursor not moved back.
pub open spec fn advanced(a: TokenStreamView, b: TokenStreamView) -> bool {
    &&& b.input() == a.input()
    &&& b.wf()
    &&& a.index <= b.index
}

/// Defines an item as a parseable element.
pub trait Parseable: Sized {
    /// The parse tree of the element.
    spec fn parse_tree(&self) -> Tree;

    /// What [`Parseable::parse`] does from position `pos` of `input`.
    spec fn spec_parse(input: Tokens, pos: nat) -> Outcome<Tree>;

    /// Parses the element from the given token stream.
    fn parse(t: &mut TokenStream) -> (r: Result<Self, ParsingError>)
        requires
            old(t)@.wf(),
            !(Self::spec_parse(old(t)@.input(), old(t)@.index) is Panics),
        ensures
            advanced(old(t)@, final(t)@),
            agrees(
                Self::spec_parse(old(t)@.input(), old(t)@.index),
                r,
                final(t)@.index,
                |v: Self| v.parse_tree(),
            ),
    ;
}

impl<T: Parseable> Parseable for Box<T> {
    open spec fn parse_tree(&self) -> Tree {
        (**self).parse_tree()
    }

    open spec fn spec_parse(input: Tokens, pos: nat) -> Outcome<Tree> {
        T::spec_parse(input, pos)
    }

    fn parse(t: &mut TokenStream) -> (r: Result<Self, ParsingError>) {
        match T::parse(t) {
            Ok(v) => Ok(Box::new(v)),
            Err(e) => Err(e),
        }
    }
}

impl<T: Parseable> Parseable for Option<T> {
    open spec fn parse_tree(&self) -> Tree {
        match self {
            Some(x) => Tree::Opt(Some(Box::new(x.parse_tree()))),
            None => Tree::Opt(None),
        }
    }

    open spec fn spec_parse(input: Tokens, pos: nat) -> Outcome<Tree> {
        match T::spec_parse(input, pos) {
            Outcome::Returns(Ok(v), p) => Outcome::Returns(Ok(Tree::Opt(Some(Box::new(v)))), p),
            Outcome::Returns(Err(_), _) => Outcome::Returns(Ok(Tree::Opt(None)), pos),
            Outcome::Panics => Outcome::Panics,
        }
    }

    fn parse(t: &mut TokenStream) -> (r: Result<Self, ParsingError>) {
        let cloned_t = t.mark();
        match T::parse(t) {
            Ok(v) => Ok(Some(v)),
            Err(_) => {
                t.reset(cloned_t);
                Ok(None)
            },
        }
    }
}

impl<T: Parseable, U: Parseable> Parseable for (T, U) {
    open spec fn parse_tree(&self) -> Tree {
        Tree::Node(seq![self.0.parse_tree(), self.1.parse_tree()])
    }

    open spec fn spec_parse(input: Tokens, pos: nat) -> Outcome<Tree> {
        match T::spec_parse(input, pos) {
            Outcome::Returns(Ok(a), p) => match U::spec_parse(input, p) {
                Outcome::Returns(Ok(b), q) => Outcome::Returns(Ok(Tree::Node(seq![a, b])), q),
                Outcome::Returns(Err(e), q) => Outcome::Returns(Err(e), q),
                Outcome::Panics => Outcome::Panics,
            },
            Outcome::Returns(Err(e), p) => Outcome::Returns(Err(e), p),
            Outcome::Panics => Outcome::Panics,
        }
    }

    fn parse(tok: &mut TokenStream) -> (r: Result<Self, ParsingError>) {
        match T::parse(tok) {
            Ok(a) => match U::parse(tok) {
                Ok(b) => Ok((a, b)),
                Err(e) => Err(e),
            },
            Err(e) => Err(e),
        }
    }
}

/// The tokens of parse tree `t`, in order.
pub open spec fn leaves(t: Tree) -> Seq<Token>
    decreases t,
{
    match t {
        Tree::Leaf(tok) => seq![tok],
        Tree::Node(s) => leaves_of(s),
        Tree::Choice(_, x) => leaves(*x),
        Tree::Opt(Some(x)) => leaves(*x),
        Tree::Opt(None) => seq![],
    }
}

/// The tokens of the trees `s`, in order.
pub open spec fn leaves_of(s: Seq<Tree>) -> Seq<Token>
    decreases s,
{
    if s.len() == 0 {
        seq![]
    } else {
        leaves_of(s.subrange(0, s.len() - 1)) + leaves(s[s.len() - 1])
    }
}

/// The tokens of a list with one more tree.
pub broadcast proof fn lemma_leaves_of_push(s: Seq<Tree>, x: Tree)
    ensures
        #[trigger] leaves_of(s.push(x)) == if s.len() == 0 {
            leaves(x)
        } else {
            leaves_of(s) + leaves(x)
        },
{
    assert(s.push(x).subrange(0, s.len() as int) =~= s);
    if s.len() == 0 {
        assert(leaves_of(s) + leaves(x) =~= leaves(x));
    }
}

/// The tokens of a token's tree: the token.
pub broadcast proof fn lemma_leaves_leaf(t: Token)
    ensures
        #[trigger] leaves(Tree::Leaf(t)) == seq![t],
{
}

/// The tokens of a choice's tree: those of its content.
pub broadcast proof fn lemma_leaves_choice(i: nat, x: Box<Tree>)
    ensures
        #[trigger] leaves(Tree::Choice(i, x)) == leaves(*x),
{
}

/// The tokens of a present optional part: those of its content.
pub broadcast proof fn lemma_leaves_some(x: Box<Tree>)
    ensures
        #[trigger] leaves(Tree::Opt(Some(x))) == leaves(*x),
{
}

/// The tokens of a node: those of its parts, in order.
pub broadcast proof fn lemma_leaves_node(s: Seq<Tree>)
    ensures
        #[trigger] leaves(Tree::Node(s)) == leaves_of(s),
{
}

/// The parse trees of a list's items.
pub open spec fn item_trees<T: Parseable>(s: Seq<T>) -> Seq<Tree> {
    s.map_values(|x: T| x.parse_tree())
}

/// The parse trees of a list's item-separator pairs.
pub open spec fn pair_trees<T: Parseable, S: Parseable>(s: Seq<(T, S)>) -> Seq<Tree> {
    s.map_values(|p: (T, S)| Tree::Node(seq![p.0.parse_tree(), p.1.parse_tree()]))
}

/// The items of a list from `pos` on, as long as they parse. An item that
/// parses without consuming a token would make the loop go on for ever, which
/// the guard's other branch stands for.
pub open spec fn spec_list_items<T: Parseable>(input: Tokens, pos: nat) -> Outcome<Seq<Tree>>
    decreases rem(input, pos),
{
    match T::spec_parse(input, pos) {
        Outcome::Returns(Ok(x), p) => if pos < p && p <= input.tokens.len() {
            prepend_trees(seq![x], spec_list_items::<T>(input, p))
        } else {
            Outcome::Panics
        },
        Outcome::Returns(Err(_), _) => Outcome::Returns(Ok(seq![]), pos),
        Outcome::Panics => Outcome::Panics,
    }
}

/// The item-separator pairs of a list from `pos` on, as long as both parse.
pub open spec fn spec_pair_items<T: Parseable, S: Parseable>(input: Tokens, pos: nat) -> Outcome<Seq<Tree>>
    decreases rem(input, pos),
{
    match T::spec_parse(input, pos) {
        Outcome::Returns(Ok(x), p1) => match S::spec_parse(input, p1) {
            Outcome::Returns(Ok(s), p2) => if pos < p2 && p2 <= input.tokens.len() {
                prepend_trees(seq![Tree::Node(seq![x, s])], spec_pair_items::<T, S>(input, p2))
            } else {
                Outcome::Panics
            },
            Outcome::Returns(Err(_), _) => Outcome::Returns(Ok(seq![]), pos),
            Outcome::Panics => Outcome::Panics,
        },
        Outcome::Returns(Err(_), _) => Outcome::Returns(Ok(seq![]), pos),
        Outcome::Panics => Outcome::Panics,
    }
}

/// The item-separator pairs from `pos` on, and the item that parsed last
/// without a separator after it, if any; the cursor ends after that item.
pub open spec fn spec_separated_items<T: Parseable, S: Parseable>(input: Tokens, pos: nat) -> Outcome<
    (Seq<Tree>, Option<Tree>),
>
    decreases rem(input, pos),
{
    match T::spec_parse(input, pos) {
        Outcome::Returns(Ok(x), p1) => match S::spec_parse(input, p1) {
            Outcome::Returns(Ok(s), p2) => if pos < p2 && p2 <= input.tokens.len() {
                prepend_pairs(seq![Tree::Node(seq![x, s])], spec_separated_items::<T, S>(input, p2))
            } else {
                Outcome::Panics
            },
            Outcome::Returns(Err(_), _) => Outcome::Returns(Ok((seq![], Some(x))), p1),
            Outcome::Panics => Outcome::Panics,
        },
        Outcome::Returns(Err(_), _) => Outcome::Returns(Ok((seq![], None)), pos),
        Outcome::Panics => Outcome::Panics,
    }
}

proof fn lemma_item_trees_push<T: Parseable>(s: Seq<T>, x: T)
    ensures
        item_trees(s.push(x)) == item_trees(s).push(x.parse_tree()),
{
    assert(item_trees(s.push(x)) =~= item_trees(s).push(x.parse_tree()));
}

proof fn lemma_pair_trees_push<T: Parseable, S: Parseable>(s: Seq<(T, S)>, x: (T, S))
    ensures
        pair_trees(s.push(x)) == pair_trees(s).push(Tree::Node(seq![x.0.parse_tree(), x.1.parse_tree()])),
{
    assert(pair_trees(s.push(x)) =~= pair_trees(s).push(
        Tree::Node(seq![x.0.parse_tree(), x.1.parse_tree()]),
    ));
}

impl<T: Parseable> Parseable for Vec<T> {
    open spec fn parse_tree(&self) -> Tree {
        Tree::Node(item_trees(self@))
    }

    open spec fn spec_parse(input: Tokens, pos: nat) -> Outcome<Tree> {
        as_node(spec_list_items::<T>(input, pos))
    }

    /// Parses items as long as they parse; never fails.
    fn parse(t: &mut TokenStream) -> (r: Result<Self, ParsingError>) {
        let ghost input = t@.input();
        let ghost pos = t@.index;
        let mut ret: Vec<T> = Vec::new();
        proof {
            assert(item_trees(ret@) =~= seq![]);
            lemma_prepend_trees_empty(spec_list_items::<T>(input, pos));
        }
        loop
            invariant
                input == old(t)@.input(),
                pos == old(t)@.index,
                t@.input() == input,
                t@.wf(),
                moved(input, pos, t@.index),
                !(spec_list_items::<T>(input, t@.index) is Panics),
                spec_list_items::<T>(input, pos) == prepend_trees(
                    item_trees(ret@),
                    spec_list_items::<T>(input, t@.index),
                ),
            decreases rem(input, t@.index),
        {
            let ghost before = ret@;
            let start = t.mark();
            match T::parse(t) {
                Ok(v) => {
                    ret.push(v);
                    proof {
                        lemma_item_trees_push(before, v);
                        lemma_prepend_trees_push(
                            item_trees(before),
                            v.parse_tree(),
                            spec_list_items::<T>(input, t@.index),
                        );
                    }
                },
                Err(_) => {
                    t.reset(start);
                    proof {
                        assert(item_trees(ret@) + seq![] =~= item_trees(ret@));
                    }
                    return Ok(ret);
                },
            }
        }
    }
}

impl<T: Parseable, S: Parseable> Parseable for SeparatedNoTrailing<T, S> {
    open spec fn parse_tree(&self) -> Tree {
        Tree::Node(pair_trees(self.list@))
    }

    open spec fn spec_parse(input: Tokens, pos: nat) -> Outcome<Tree> {
        as_node(spec_pair_items::<T, S>(input, pos))
    }

    /// Parses item-separator pairs as long as both parse; never fails.
    fn parse(t: &mut TokenStream) -> (r: Result<Self, ParsingError>) {
        let ghost input = t@.input();
        let ghost pos = t@.index;
        let mut list: Vec<(T, S)> = Vec::new();
        proof {
            assert(pair_trees(list@) =~= seq![]);
            lemma_prepend_trees_empty(spec_pair_items::<T, S>(input, pos));
        }
        loop
            invariant
                input == old(t)@.input(),
                pos == old(t)@.index,
                t@.input() == input,
                t@.wf(),
                moved(input, pos, t@.index),
                !(spec_pair_items::<T, S>(input, t@.index) is Panics),
                spec_pair_items::<T, S>(input, pos) == prepend_trees(
                    pair_trees(list@),
                    spec_pair_items::<T, S>(input, t@.index),
                ),
            decreases rem(input, t@.index),
        {
            let ghost before = list@;
            let start = t.mark();
            match T::parse(t) {
                Ok(val) => match S::parse(t) {
                    Ok(sep) => {
                        let ghost pair = (val, sep);
                        list.push((val, sep));
                        proof {
                            lemma_pair_trees_push(before, pair);
                            lemma_prepend_trees_push(
                                pair_trees(before),
                                Tree::Node(seq![pair.0.parse_tree(), pair.1.parse_tree()]),
                                spec_pair_items::<T, S>(input, t@.index),
                            );
                        }
                    },
                    Err(_) => {
                        t.reset(start);
                        proof {
                            assert(pair_trees(list@) + seq![] =~= pair_trees(list@));
                        }
                        return Ok(SeparatedNoTrailing { list });
                    },
                },
                Err(_) => {
                    t.reset(start);
                    proof {
                        assert(pair_trees(list@) + seq![] =~= pair_trees(list@));
                    }
                    return Ok(SeparatedNoTrailing { list });
                },
            }
        }
    }
}

impl<T: Parseable, S: Parseable> Parseable for SeparatedTrailing<T, S> {
    open spec fn parse_tree(&self) -> Tree {
        Tree::Node(seq![Tree::Node(pair_trees(self.list@)), self.last.parse_tree()])
    }

    open spec fn spec_parse(input: Tokens, pos: nat) -> Outcome<Tree> {
        match SeparatedNoTrailing::<T, S>::spec_parse(input, pos) {
            Outcome::Returns(Ok(pt), p1) => if moved(input, pos, p1) {
                match T::spec_parse(input, p1) {
                    Outcome::Returns(Ok(last), p2) => Outcome::Returns(Ok(Tree::Node(seq![pt, last])), p2),
                    Outcome::Returns(Err(e), p2) => Outcome::Returns(Err(e), p2),
                    Outcome::Panics => Outcome::Panics,
                }
            } else {
                Outcome::Panics
            },
            Outcome::Returns(Err(e), p1) => Outcome::Returns(Err(e), p1),
            Outcome::Panics => Outcome::Panics,
        }
    }

    /// Parses the separated list while expecting a trailing member.
    fn parse(t: &mut TokenStream) -> (r: Result<Self, ParsingError>) {
        let res = match SeparatedNoTrailing::<T, S>::parse(t) {
            Ok(v) => v,
            Err(e) => {
                return Err(e);
            },
        };
        let last = match T::parse(t) {
            Ok(v) => v,
            Err(e) => {
                return Err(e);
            },
        };
        Ok(SeparatedTrailing { list: res.list, last })
    }
}

impl<T: Parseable, S: Parseable> Parseable for Separated<T, S> {
    open spec fn parse_tree(&self) -> Tree {
        match self {
            Separated::Trailing(st) => Tree::Choice(
                0,
                Box::new(Tree::Node(seq![Tree::Node(pair_trees(st.list@)), st.last.parse_tree()])),
            ),
            Separated::NoTrailing(nt) => Tree::Choice(1, Box::new(Tree::Node(pair_trees(nt.list@)))),
        }
    }

    open spec fn spec_parse(input: Tokens, pos: nat) -> Outcome<Tree> {
        match spec_separated_items::<T, S>(input, pos) {
            Outcome::Returns(Ok((items, Some(last))), p) => Outcome::Returns(
                Ok(Tree::Choice(0, Box::new(Tree::Node(seq![Tree::Node(items), last])))),
                p,
            ),
            Outcome::Returns(Ok((items, None)), p) => Outcome::Returns(
                Ok(Tree::Choice(1, Box::new(Tree::Node(items)))),
                p,
            ),
            Outcome::Returns(Err(e), p) => Outcome::Returns(Err(e), p),
            Outcome::Panics => Outcome::Panics,
        }
    }

    /// Parses item-separator pairs as long as both parse; an item that parses
    /// without a separator after it is kept as the last. Never fails.
    fn parse(t: &mut TokenStream) -> (r: Result<Self, ParsingError>) {
        let ghost input = t@.input();
        let ghost pos = t@.index;
        let mut list: Vec<(T, S)> = Vec::new();
        proof {
            assert(pair_trees(list@) =~= seq![]);
            lemma_prepend_pairs_empty(spec_separated_items::<T, S>(input, pos));
        }
        loop
            invariant
                input == old(t)@.input(),
                pos == old(t)@.index,
                t@.input() == input,
                t@.wf(),
                moved(input, pos, t@.index),
                !(spec_separated_items::<T, S>(input, t@.index) is Panics),
                spec_separated_items::<T, S>(input, pos) == prepend_pairs(
                    pair_trees(list@),
                    spec_separated_items::<T, S>(input, t@.index),
                ),
            decreases rem(input, t@.index),
        {
            let ghost before = list@;
            let start = t.mark();
            match T::parse(t) {
                Ok(val) => {
                    let after = t.mark();
                    match S::parse(t) {
                        Ok(sep) => {
                            let ghost pair = (val, sep);
                            list.push((val, sep));
                            proof {
                                lemma_pair_trees_push(before, pair);
                                lemma_prepend_pairs_push(
                                    pair_trees(before),
                                    Tree::Node(seq![pair.0.parse_tree(), pair.1.parse_tree()]),
                                    spec_separated_items::<T, S>(input, t@.index),
                                );
                            }
                        },
                        Err(_) => {
                            t.reset(after);
                            proof {
                                assert(pair_trees(list@) + seq![] =~= pair_trees(list@));
                            }
                            return Ok(Separated::Trailing(SeparatedTrailing { list, last: val }));
                        },
                    }
                },
                Err(_) => {
                    t.reset(start);
                    proof {
                        assert(pair_trees(list@) + seq![] =~= pair_trees(list@));
                    }
                    return Ok(Separated::NoTrailing(SeparatedNoTrailing { list }));
                },
            }
        }
    }
}

} // verus!
