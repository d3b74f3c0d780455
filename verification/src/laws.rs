use crate::buffer::after_next;
use crate::buffer::next_of;
use crate::match_result::MatchResult;
use crate::matcher::judged;
use crate::matcher::matches_data_token;
use crate::matcher::matches_token;
use crate::matcher::Matcher;
use crate::token::ids_are_plain;
use crate::token::ids_compare_by_value;
use crate::token::Token;
use vstd::prelude::*;

verus! {

/// What one call of `try_match` on `matcher` establishes, for a buffer that
/// held `before` when it was called and holds `after` when it returns
/// `result`.
pub open spec fn attempt<IdType, DataType, MatcherType>(
    matcher: MatcherType,
    before: Seq<Token<IdType>>,
    result: MatchResult<IdType, DataType>,
    after: Seq<Token<IdType>>,
) -> bool where
    IdType: PartialEq + Clone,
    DataType: From<Token<IdType>>,
    MatcherType: Matcher<IdType, DataType>,
 {
    &&& after == after_next(before)
    &&& judged(matcher.expected(), next_of(before), result)
    &&& result.is_match ==> matcher.yields(before[0], result.data)
}

/// On an exhausted buffer every matcher answers that nothing matched, with
/// no data, and the buffer stays exhausted.
pub proof fn exhausted_buffer_never_matches<IdType, DataType, MatcherType>(
    matcher: MatcherType,
    before: Seq<Token<IdType>>,
    result: MatchResult<IdType, DataType>,
    after: Seq<Token<IdType>>,
) where
    IdType: PartialEq + Clone,
    DataType: From<Token<IdType>>,
    MatcherType: Matcher<IdType, DataType>,

    requires
        attempt(matcher, before, result, after),
        before.len() == 0,
    ensures
        !result.is_match,
        result.data is None,
        result == MatchResult::<IdType, DataType>::failed(),
        after.len() == 0,
{
}

/// Every attempt on a buffer that still holds tokens takes exactly the
/// first of them, whether it matches or not.
pub proof fn attempt_consumes_one_token<IdType, DataType, MatcherType>(
    matcher: MatcherType,
    before: Seq<Token<IdType>>,
    result: MatchResult<IdType, DataType>,
    after: Seq<Token<IdType>>,
) where
    IdType: PartialEq + Clone,
    DataType: From<Token<IdType>>,
    MatcherType: Matcher<IdType, DataType>,

    requires
        attempt(matcher, before, result, after),
        before.len() > 0,
    ensures
        after.len() == before.len() - 1,
        forall|i: int| 0 <= i < after.len() ==> after[i] == before[i + 1],
{
}

/// A matcher made by `expect_token` for a token of some kind succeeds on a
/// buffer whose next token is of that kind: it answers with a match that
/// carries no data, and the buffer is one token further.
pub proof fn token_matcher_accepts_its_kind<IdType, DataType, MatcherType>(
    token: Token<IdType>,
    matcher: MatcherType,
    before: Seq<Token<IdType>>,
    result: MatchResult<IdType, DataType>,
    after: Seq<Token<IdType>>,
) where
    IdType: PartialEq + Clone,
    DataType: From<Token<IdType>>,
    MatcherType: Matcher<IdType, DataType>,

    requires
        ids_are_plain::<IdType>(),
        matches_token(matcher, token),
        attempt(matcher, before, result, after),
        before.len() > 0,
        before[0].id == token.id,
    ensures
        result.is_match,
        result.data is None,
        result == MatchResult::<IdType, DataType>::succeeded(),
        after == before.subrange(1, before.len() as int),
        after.len() == before.len() - 1,
{
}

/// A matcher made by `expect_token` fails on a buffer whose next token is
/// of another kind, and that token is consumed all the same: the buffer is
/// one token further.
pub proof fn token_matcher_rejects_other_kinds<IdType, DataType, MatcherType>(
    token: Token<IdType>,
    matcher: MatcherType,
    before: Seq<Token<IdType>>,
    result: MatchResult<IdType, DataType>,
    after: Seq<Token<IdType>>,
) where
    IdType: PartialEq + Clone,
    DataType: From<Token<IdType>>,
    MatcherType: Matcher<IdType, DataType>,

    requires
        ids_are_plain::<IdType>(),
        matches_token(matcher, token),
        attempt(matcher, before, result, after),
        before.len() > 0,
        before[0].id != token.id,
    ensures
        !result.is_match,
        result.data is None,
        result == MatchResult::<IdType, DataType>::failed(),
        after == before.subrange(1, before.len() as int),
        after.len() == before.len() - 1,
{
}

/// A matcher made by `expect_data_token` succeeds on a buffer whose next
/// token is of the expected kind, and the match carries what the converter
/// returns for that very token, the one drawn from the buffer. On a token
/// of another kind it fails without data. Either way the buffer is one
/// token further.
pub proof fn data_matcher_converts_the_drawn_token<IdType, DataType, ConverterType, MatcherType>(
    token: Token<IdType>,
    converter: ConverterType,
    matcher: MatcherType,
    before: Seq<Token<IdType>>,
    result: MatchResult<IdType, DataType>,
    after: Seq<Token<IdType>>,
) where
    IdType: PartialEq + Clone,
    DataType: From<Token<IdType>>,
    ConverterType: Fn(Token<IdType>) -> DataType,
    MatcherType: Matcher<IdType, DataType>,

    requires
        ids_compare_by_value::<IdType>(),
        matches_data_token(matcher, token, converter),
        attempt(matcher, before, result, after),
        before.len() > 0,
    ensures
        result.is_match <==> before[0].id == token.id,
        result.is_match ==> result.data is Some && call_ensures(
            converter,
            (before[0],),
            result.data->0,
        ),
        !result.is_match ==> result == MatchResult::<IdType, DataType>::failed(),
        after == before.subrange(1, before.len() as int),
{
}

/// Two matchers made by `expect_token` for tokens of two different kinds,
/// tried one after the other on a buffer that holds one token of each kind,
/// in the order in which the buffer holds them: both succeed, and the
/// buffer is exhausted.
pub proof fn matchers_in_order_both_succeed<IdType, DataType, FirstMatcher, SecondMatcher>(
    first: Token<IdType>,
    second: Token<IdType>,
    first_matcher: FirstMatcher,
    second_matcher: SecondMatcher,
    first_result: MatchResult<IdType, DataType>,
    between: Seq<Token<IdType>>,
    second_result: MatchResult<IdType, DataType>,
    after: Seq<Token<IdType>>,
) where
    IdType: PartialEq + Clone,
    DataType: From<Token<IdType>>,
    FirstMatcher: Matcher<IdType, DataType>,
    SecondMatcher: Matcher<IdType, DataType>,

    requires
        ids_are_plain::<IdType>(),
        first.id != second.id,
        matches_token(first_matcher, first),
        matches_token(second_matcher, second),
        attempt(first_matcher, seq![first, second], first_result, between),
        attempt(second_matcher, between, second_result, after),
    ensures
        first_result == MatchResult::<IdType, DataType>::succeeded(),
        between == seq![second],
        second_result == MatchResult::<IdType, DataType>::succeeded(),
        after.len() == 0,
{
    assert(between =~= seq![second]);
}

/// The same two matchers tried in the other order: the matcher for the
/// second kind meets the first token, fails and consumes it, so the matcher
/// for the first kind meets the second token and fails too. Both tokens are
/// gone.
pub proof fn matchers_out_of_order_both_fail<IdType, DataType, FirstMatcher, SecondMatcher>(
    first: Token<IdType>,
    second: Token<IdType>,
    first_matcher: FirstMatcher,
    second_matcher: SecondMatcher,
    first_result: MatchResult<IdType, DataType>,
    between: Seq<Token<IdType>>,
    second_result: MatchResult<IdType, DataType>,
    after: Seq<Token<IdType>>,
) where
    IdType: PartialEq + Clone,
    DataType: From<Token<IdType>>,
    FirstMatcher: Matcher<IdType, DataType>,
    SecondMatcher: Matcher<IdType, DataType>,

    requires
        ids_are_plain::<IdType>(),
        first.id != second.id,
        matches_token(first_matcher, first),
        matches_token(second_matcher, second),
        attempt(second_matcher, seq![first, second], first_result, between),
        attempt(first_matcher, between, second_result, after),
    ensures
        first_result == MatchResult::<IdType, DataType>::failed(),
        between == seq![second],
        second_result == MatchResult::<IdType, DataType>::failed(),
        after.len() == 0,
{
    assert(between =~= seq![second]);
}

} // verus!
