use crate::location::Location;
use vstd::prelude::*;
use vstd::std_specs::cmp::PartialEqSpec;

verus! {

/// A lexical unit: where it was read, what kind of unit it is, and the text
/// it was read from where that text matters.
pub struct Token<IdType: PartialEq + Clone> {
    /// Where the token starts.
    pub location: Location,
    /// The kind of the token.
    pub id: IdType,
    /// The literal text, absent for tokens of fixed spelling.
    pub value: Option<String>,
}

impl<IdType: PartialEq + Clone> Token<IdType> {
    /// Whether two tokens are of the same kind: their ids are equal, by the
    /// equality of the id type. Locations and values play no part.
    pub open spec fn same_kind(self, other: Token<IdType>) -> bool {
        self.id.eq_spec(&other.id)
    }

    /// Whether `equal` is an answer of `==` to the two tokens, which is an
    /// answer of the id type's `==` to their ids. Where that `==` answers
    /// as its `eq_spec` says, `equal` is `self.same_kind(other)`.
    pub open spec fn compares_to(self, other: Token<IdType>, equal: bool) -> bool {
        call_ensures(IdType::eq, (&self.id, &other.id), equal)
    }

    /// A token of kind `id` at `location`, without a literal value.
    pub fn new(location: &Location, id: IdType) -> (token: Token<IdType>)
        ensures
            token.location == *location,
            token.id == id,
            token.value is None,
    {
        Token { location: location.clone(), id, value: None }
    }

    /// A token of kind `id` at `location` that carries the literal `value`.
    pub fn new_value(location: &Location, id: IdType, value: String) -> (token: Token<IdType>)
        ensures
            token.location == *location,
            token.id == id,
            token.value == Some(value),
    {
        Token { location: location.clone(), id, value: Some(value) }
    }
}

impl<IdType: PartialEq + Clone> Clone for Token<IdType> {
    /// A copy with the same location and value, and with a clone of the id.
    fn clone(&self) -> (copy: Token<IdType>)
        ensures
            copy.location == self.location,
            cloned(self.id, copy.id),
            copy.value == self.value,
    {
        Token { location: self.location.clone(), id: self.id.clone(), value: self.value.clone() }
    }
}

impl<IdType: PartialEq + Clone> PartialEq for Token<IdType> {
    /// Compares the ids, and nothing else.
    fn eq(&self, other: &Token<IdType>) -> (equal: bool)
        ensures
            self.compares_to(*other, equal),
            IdType::obeys_eq_spec() ==> equal == self.same_kind(*other),
    {
        self.id == other.id
    }
}

impl<IdType: PartialEq + Clone> vstd::std_specs::cmp::PartialEqSpecImpl for Token<IdType> {
    open spec fn obeys_eq_spec() -> bool {
        IdType::obeys_eq_spec()
    }

    open spec fn eq_spec(&self, other: &Token<IdType>) -> bool {
        self.same_kind(*other)
    }
}

/// Whether ids of this type compare by value, as integers do: `==` on them
/// answers as its `eq_spec` says, and holds of equal values only.
pub open spec fn ids_compare_by_value<IdType: PartialEq + Clone>() -> bool {
    &&& IdType::obeys_eq_spec()
    &&& forall|first: IdType, second: IdType| #[trigger] first.eq_spec(&second) <==> first == second
}

/// Whether ids of this type compare and clone by value, as integers do:
/// beyond `ids_compare_by_value`, a clone is equal to what it was cloned
/// from.
pub open spec fn ids_are_plain<IdType: PartialEq + Clone>() -> bool {
    &&& ids_compare_by_value::<IdType>()
    &&& forall|id: IdType, copy: IdType| #[trigger] cloned(id, copy) ==> id == copy
}

/// Equality of tokens is equality of their ids, whatever the id type's
/// equality is: locations and values are not looked at.
pub proof fn token_equality_is_id_equality<IdType: PartialEq + Clone>(
    first: Token<IdType>,
    second: Token<IdType>,
)
    ensures
        first.eq_spec(&second) == first.id.eq_spec(&second.id),
{
}

/// With ids that compare by value, two tokens are equal exactly when they
/// hold the same id, however their locations and values differ, and that is
/// what `==` answers for them.
pub proof fn tokens_are_equal_iff_ids_are<IdType: PartialEq + Clone>(
    first: Token<IdType>,
    second: Token<IdType>,
    equal: bool,
)
    requires
        ids_compare_by_value::<IdType>(),
        first.compares_to(second, equal),
    ensures
        equal <==> first.id == second.id,
        first.eq_spec(&second) <==> first.id == second.id,
{
}

} // verus!
