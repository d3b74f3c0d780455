use crate::token::Token;
use std::collections::VecDeque;
use vstd::prelude::*;

verus! {

/// The token that a source hands out next, if any is left: the first of
/// those that remain.
pub open spec fn next_of<IdType: PartialEq + Clone>(remaining: Seq<Token<IdType>>) -> Option<
    Token<IdType>,
> {
    if remaining.len() > 0 {
        Some(remaining[0])
    } else {
        None
    }
}

/// The tokens that remain once the next one has been handed out. Nothing
/// changes where none was left.
pub open spec fn after_next<IdType: PartialEq + Clone>(remaining: Seq<Token<IdType>>) -> Seq<
    Token<IdType>,
> {
    if remaining.len() > 0 {
        remaining.subrange(1, remaining.len() as int)
    } else {
        remaining
    }
}

/// A source of tokens that are read one after the other.
///
/// Reading consumes: every call of `get_next` moves past the token that it
/// returns, so that successive calls see successive tokens. A source that
/// offers lookahead or a way back does so beside this trait.
pub trait TokenBuffer<IdType: PartialEq + Clone> {
    /// The tokens that have not been handed out yet, in the order in which
    /// they will be.
    spec fn remaining(&self) -> Seq<Token<IdType>>;

    /// Hands out the next token and moves past it, or returns `None` once
    /// the source is exhausted.
    fn get_next(&mut self) -> (next: Option<Token<IdType>>)
        ensures
            next == next_of(old(self).remaining()),
            final(self).remaining() == after_next(old(self).remaining()),
    ;
}

/// A token source held in memory: tokens are appended at the back and
/// handed out from the front.
pub struct TokenQueue<IdType: PartialEq + Clone> {
    tokens: VecDeque<Token<IdType>>,
}

impl<IdType: PartialEq + Clone> TokenQueue<IdType> {
    /// A source without tokens.
    pub fn new() -> (queue: TokenQueue<IdType>)
        ensures
            queue.remaining() == Seq::<Token<IdType>>::empty(),
    {
        TokenQueue { tokens: VecDeque::new() }
    }

    /// Appends `token` behind the tokens that are still to be handed out.
    pub fn push(&mut self, token: Token<IdType>)
        ensures
            final(self).remaining() == old(self).remaining().push(token),
    {
        self.tokens.push_back(token);
    }
}

impl<IdType: PartialEq + Clone> TokenBuffer<IdType> for TokenQueue<IdType> {
    closed spec fn remaining(&self) -> Seq<Token<IdType>> {
        self.tokens@
    }

    fn get_next(&mut self) -> (next: Option<Token<IdType>>) {
        self.tokens.pop_front()
    }
}

} // verus!
