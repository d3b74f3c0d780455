use crate::buffer::after_next;
use crate::buffer::next_of;
use crate::buffer::TokenBuffer;
use crate::match_result::MatchResult;
use crate::token::Token;
use std::marker::PhantomData;
use vstd::prelude::*;
use vstd::std_specs::cmp::PartialEqSpec;

verus! {

/// Whether `result` is an answer to what a buffer handed out, for a rule
/// that looks for tokens of the kind of `expected`.
///
/// Nothing drawn is no match. For a drawn token the flag of the result is
/// what `==` answers for that token and `expected`, so it says whether the
/// two are of the same kind. An attempt that does not match carries no data.
pub open spec fn judged<IdType, DataType>(
    expected: Token<IdType>,
    drawn: Option<Token<IdType>>,
    result: MatchResult<IdType, DataType>,
) -> bool where IdType: PartialEq + Clone, DataType: From<Token<IdType>> {
    match drawn {
        None => result == MatchResult::<IdType, DataType>::failed(),
        Some(token) => {
            &&& token.compares_to(expected, result.is_match)
            &&& IdType::obeys_eq_spec() ==> result.is_match == token.same_kind(expected)
            &&& !result.is_match ==> result == MatchResult::<IdType, DataType>::failed()
        },
    }
}

/// A rule that tests the next token of a buffer against the kind of token
/// that it expects.
///
/// One attempt draws the next token from the buffer, if there is one, and
/// never puts it back: a token that does not match is consumed all the same.
pub trait Matcher<IdType, DataType> where
    IdType: PartialEq + Clone,
    DataType: From<Token<IdType>>,
 {
    /// The token whose kind the matcher looks for.
    spec fn expected(&self) -> Token<IdType>;

    /// Whether `data` is what a match on the token `drawn` may carry.
    spec fn yields(&self, drawn: Token<IdType>, data: Option<DataType>) -> bool;

    /// Draws the next token from `buffer` and answers whether it is of the
    /// expected kind. On an exhausted buffer the answer is that nothing
    /// matched.
    fn try_match<BufferType>(&self, buffer: &mut BufferType) -> (result: MatchResult<
        IdType,
        DataType,
    >) where BufferType: TokenBuffer<IdType> + ?Sized
        ensures
            final(buffer).remaining() == after_next(old(buffer).remaining()),
            judged(self.expected(), next_of(old(buffer).remaining()), result),
            result.is_match ==> self.yields(old(buffer).remaining()[0], result.data),
    ;
}

/// Answers to what a buffer handed out, for a rule that looks for tokens of
/// the kind of `expected` and extracts nothing: a token of that kind is a
/// match, anything else is none, and no answer carries data.
pub fn judge_token<IdType, DataType>(
    expected: &Token<IdType>,
    drawn: Option<Token<IdType>>,
) -> (result: MatchResult<IdType, DataType>) where
    IdType: PartialEq + Clone,
    DataType: From<Token<IdType>>,

    ensures
        judged(*expected, drawn, result),
        result.data is None,
{
    match drawn {
        None => MatchResult::failed(),
        Some(token) => {
            if token == *expected {
                MatchResult::succeeded()
            } else {
                MatchResult::failed()
            }
        },
    }
}

/// Whether `converter` may be called on every token that can match
/// `expected`: on the tokens of the same kind, and on every token where
/// nothing is known of what the id type's `==` answers.
pub open spec fn converts_matches<IdType, DataType, ConverterType>(
    expected: Token<IdType>,
    converter: ConverterType,
) -> bool where IdType: PartialEq + Clone, ConverterType: Fn(Token<IdType>) -> DataType {
    forall|token: Token<IdType>|
        (IdType::obeys_eq_spec() ==> token.same_kind(expected)) ==> #[trigger] call_requires(
            converter,
            (token,),
        )
}

/// Answers to what a buffer handed out, for a rule that looks for tokens of
/// the kind of `expected` and extracts data: a token of that kind is a match
/// that carries what `converter` returns for it, anything else is no match
/// and leaves the converter uncalled.
pub fn judge_data_token<IdType, DataType, ConverterType>(
    expected: &Token<IdType>,
    converter: &ConverterType,
    drawn: Option<Token<IdType>>,
) -> (result: MatchResult<IdType, DataType>) where
    IdType: PartialEq + Clone,
    DataType: From<Token<IdType>>,
    ConverterType: Fn(Token<IdType>) -> DataType,

    requires
        converts_matches(*expected, *converter),
    ensures
        judged(*expected, drawn, result),
        result.is_match ==> drawn is Some && result.data is Some && call_ensures(
            *converter,
            (drawn->0,),
            result.data->0,
        ),
{
    match drawn {
        None => MatchResult::failed(),
        Some(token) => {
            if token == *expected {
                MatchResult::succeeded_with(Some(converter(token)))
            } else {
                MatchResult::failed()
            }
        },
    }
}

/// The rule that `expect_token` makes.
struct TokenMatcher<IdType: PartialEq + Clone> {
    expected: Token<IdType>,
}

impl<IdType, DataType> Matcher<IdType, DataType> for TokenMatcher<IdType> where
    IdType: PartialEq + Clone,
    DataType: From<Token<IdType>>,
 {
    closed spec fn expected(&self) -> Token<IdType> {
        self.expected
    }

    closed spec fn yields(&self, drawn: Token<IdType>, data: Option<DataType>) -> bool {
        data is None
    }

    fn try_match<BufferType>(&self, buffer: &mut BufferType) -> (result: MatchResult<
        IdType,
        DataType,
    >) where BufferType: TokenBuffer<IdType> + ?Sized {
        let drawn = buffer.get_next();
        judge_token(&self.expected, drawn)
    }
}

/// The rule that `expect_data_token` makes.
#[verifier::reject_recursive_types(DataType)]
struct DataTokenMatcher<IdType, DataType, ConverterType> where
    IdType: PartialEq + Clone,
    ConverterType: Fn(Token<IdType>) -> DataType,
 {
    expected: Token<IdType>,
    converter: ConverterType,
    data_type: PhantomData<DataType>,
}

impl<IdType, DataType, ConverterType> DataTokenMatcher<IdType, DataType, ConverterType> where
    IdType: PartialEq + Clone,
    ConverterType: Fn(Token<IdType>) -> DataType,
 {
    /// The converter can be called on whatever the rule lets through.
    #[verifier::type_invariant]
    spec fn converter_takes_matches(self) -> bool {
        converts_matches(self.expected, self.converter)
    }
}

impl<IdType, DataType, ConverterType> Matcher<IdType, DataType> for DataTokenMatcher<
    IdType,
    DataType,
    ConverterType,
> where
    IdType: PartialEq + Clone,
    DataType: From<Token<IdType>>,
    ConverterType: Fn(Token<IdType>) -> DataType,
 {
    closed spec fn expected(&self) -> Token<IdType> {
        self.expected
    }

    closed spec fn yields(&self, drawn: Token<IdType>, data: Option<DataType>) -> bool {
        data is Some && call_ensures(self.converter, (drawn,), data->0)
    }

    fn try_match<BufferType>(&self, buffer: &mut BufferType) -> (result: MatchResult<
        IdType,
        DataType,
    >) where BufferType: TokenBuffer<IdType> + ?Sized {
        proof {
            use_type_invariant(self);
        }
        let drawn = buffer.get_next();
        judge_data_token(&self.expected, &self.converter, drawn)
    }
}

/// Whether `matcher` is a rule for the kind of `token` that extracts
/// nothing: it expects a copy of `token`, and a match carries no data.
pub open spec fn matches_token<IdType, DataType, MatcherType>(
    matcher: MatcherType,
    token: Token<IdType>,
) -> bool where
    IdType: PartialEq + Clone,
    DataType: From<Token<IdType>>,
    MatcherType: Matcher<IdType, DataType>,
 {
    &&& matcher.expected().location == token.location
    &&& cloned(token.id, matcher.expected().id)
    &&& matcher.expected().value == token.value
    &&& forall|drawn: Token<IdType>, data: Option<DataType>| #[trigger]
        matcher.yields(drawn, data) <==> data is None
}

/// Whether `matcher` is a rule for the kind of `token` that extracts data
/// with `converter`: it expects `token`, and a match carries what
/// `converter` may return for the token that was drawn.
pub open spec fn matches_data_token<IdType, DataType, ConverterType, MatcherType>(
    matcher: MatcherType,
    token: Token<IdType>,
    converter: ConverterType,
) -> bool where
    IdType: PartialEq + Clone,
    DataType: From<Token<IdType>>,
    ConverterType: Fn(Token<IdType>) -> DataType,
    MatcherType: Matcher<IdType, DataType>,
 {
    &&& matcher.expected() == token
    &&& forall|drawn: Token<IdType>, data: Option<DataType>| #[trigger]
        matcher.yields(drawn, data) <==> (data is Some && call_ensures(
            converter,
            (drawn,),
            data->0,
        ))
}

/// A rule that looks for a token of the kind of `token` and discards what
/// the token carries: for punctuation, keywords and other tokens of fixed
/// spelling. The rule keeps a copy of `token`.
pub fn expect_token<IdType, DataType>(token: &Token<IdType>) -> (matcher: impl Matcher<
    IdType,
    DataType,
>) where IdType: PartialEq + Clone, DataType: From<Token<IdType>>
    ensures
        matches_token(matcher, *token),
{
    TokenMatcher { expected: token.clone() }
}

/// A rule that looks for a token of the kind of `token` and hands out what
/// `converter` makes of the token that it found: for identifiers, literals
/// and other tokens whose text matters. The converter gets the token that
/// was drawn from the buffer, with its own location and value, not `token`.
///
/// The converter must take every token of the expected kind. One that can
/// fail on some of them returns a type that can say so.
pub fn expect_data_token<IdType, DataType, ConverterType>(
    token: Token<IdType>,
    converter: ConverterType,
) -> (matcher: impl Matcher<IdType, DataType>) where
    IdType: PartialEq + Clone,
    DataType: From<Token<IdType>>,
    ConverterType: Fn(Token<IdType>) -> DataType,

    requires
        converts_matches(token, converter),
    ensures
        matches_data_token(matcher, token, converter),
{
    DataTokenMatcher { expected: token, converter, data_type: PhantomData }
}

} // verus!
