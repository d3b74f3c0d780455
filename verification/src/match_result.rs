use crate::token::Token;
use std::marker::PhantomData;
use vstd::prelude::*;

verus! {

/// The outcome of one attempt to match: whether the token matched, and the
/// data taken from it, if any was.
///
/// `is_match` alone says whether the attempt succeeded; that `data` is
/// present does not.
pub struct MatchResult<IdType, DataType> where
    IdType: PartialEq + Clone,
    DataType: From<Token<IdType>>,
 {
    /// Whether the token matched.
    pub is_match: bool,
    /// What was extracted from the matched token.
    pub data: Option<DataType>,
    /// Ties the result to the kind of token it was made from; holds nothing.
    pub id_type: PhantomData<IdType>,
}

impl<IdType, DataType> MatchResult<IdType, DataType> where
    IdType: PartialEq + Clone,
    DataType: From<Token<IdType>>,
 {
    /// The result of a match that extracted nothing.
    pub open spec fn spec_succeeded() -> MatchResult<IdType, DataType> {
        MatchResult { is_match: true, data: None, id_type: PhantomData }
    }

    /// The result of a match that carries `data`.
    pub open spec fn spec_succeeded_with(data: Option<DataType>) -> MatchResult<IdType, DataType> {
        MatchResult { is_match: true, data, id_type: PhantomData }
    }

    /// The result of an attempt that did not match.
    pub open spec fn spec_failed() -> MatchResult<IdType, DataType> {
        MatchResult { is_match: false, data: None, id_type: PhantomData }
    }

    /// A match without data.
    #[verifier::when_used_as_spec(spec_succeeded)]
    pub fn succeeded() -> (result: MatchResult<IdType, DataType>)
        ensures
            result == Self::spec_succeeded(),
            result.is_match,
            result.data is None,
    {
        MatchResult { is_match: true, data: None, id_type: PhantomData }
    }

    /// A match that carries `data`. The attempt counts as a success whether
    /// or not `data` holds anything.
    #[verifier::when_used_as_spec(spec_succeeded_with)]
    pub fn succeeded_with(data: Option<DataType>) -> (result: MatchResult<IdType, DataType>)
        ensures
            result == Self::spec_succeeded_with(data),
            result.is_match,
            result.data == data,
    {
        MatchResult { is_match: true, data, id_type: PhantomData }
    }

    /// No match, and no data.
    #[verifier::when_used_as_spec(spec_failed)]
    pub fn failed() -> (result: MatchResult<IdType, DataType>)
        ensures
            result == Self::spec_failed(),
            !result.is_match,
            result.data is None,
    {
        MatchResult { is_match: false, data: None, id_type: PhantomData }
    }
}

/// A result is what its flag and its data are: two results that agree in
/// both are equal.
pub proof fn results_agree_with_their_fields<IdType, DataType>(
    first: MatchResult<IdType, DataType>,
    second: MatchResult<IdType, DataType>,
) where IdType: PartialEq + Clone, DataType: From<Token<IdType>>
    requires
        first.is_match == second.is_match,
        first.data == second.data,
    ensures
        first == second,
{
}

/// Whatever two calls of `succeeded` return is one and the same match
/// without data, and whatever two calls of `failed` return is one and the
/// same failure without data: neither depends on anything.
pub proof fn constructed_results_are_fixed<IdType, DataType>(
    first_success: MatchResult<IdType, DataType>,
    second_success: MatchResult<IdType, DataType>,
    first_failure: MatchResult<IdType, DataType>,
    second_failure: MatchResult<IdType, DataType>,
) where IdType: PartialEq + Clone, DataType: From<Token<IdType>>
    requires
        call_ensures(MatchResult::<IdType, DataType>::succeeded, (), first_success),
        call_ensures(MatchResult::<IdType, DataType>::succeeded, (), second_success),
        call_ensures(MatchResult::<IdType, DataType>::failed, (), first_failure),
        call_ensures(MatchResult::<IdType, DataType>::failed, (), second_failure),
    ensures
        first_success == second_success,
        first_success.is_match,
        first_success.data is None,
        first_failure == second_failure,
        !first_failure.is_match,
        first_failure.data is None,
{
}

} // verus!
