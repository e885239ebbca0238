use vstd::prelude::*;
use crate::decimal::{i64_to_decimal, signed_decimal};

verus! {

/// The identity of a stored record: an opaque string that a repository assigns.
#[derive(Debug, Default, PartialEq, Eq)]
pub struct EntityId(pub String);

impl View for EntityId {
    type V = Seq<char>;

    open spec fn view(&self) -> Seq<char> {
        self.0@
    }
}

impl Clone for EntityId {
    fn clone(&self) -> (r: Self)
        ensures
            r == *self,
    {
        EntityId(self.0.clone())
    }
}

impl EntityId {
    /// The characters of the identity.
    pub fn as_str(&self) -> (r: &str)
        ensures
            r@ == self@,
    {
        self.0.as_str()
    }
}

impl From<String> for EntityId {
    fn from(value: String) -> (r: Self)
        ensures
            r@ == value@,
    {
        EntityId(value)
    }
}

impl vstd::std_specs::convert::FromSpecImpl<String> for EntityId {
    open spec fn obeys_from_spec() -> bool {
        true
    }

    open spec fn from_spec(v: String) -> EntityId {
        EntityId(v)
    }
}

impl<'a> From<&'a str> for EntityId {
    fn from(value: &'a str) -> (r: Self)
        ensures
            r@ == value@,
    {
        EntityId(value.to_owned())
    }
}

impl<'a> vstd::std_specs::convert::FromSpecImpl<&'a str> for EntityId {
    /// Only the characters are known of the copy, so no exact result is claimed.
    open spec fn obeys_from_spec() -> bool {
        false
    }

    open spec fn from_spec(v: &'a str) -> EntityId {
        choose|e: EntityId| e@ == v@
    }
}

impl From<i64> for EntityId {
    /// The decimal numeral of the number.
    fn from(value: i64) -> (r: Self)
        ensures
            r@ == signed_decimal(value as int),
    {
        EntityId(i64_to_decimal(value))
    }
}

impl vstd::std_specs::convert::FromSpecImpl<i64> for EntityId {
    /// Only the characters of the numeral are known, so no exact result is claimed.
    open spec fn obeys_from_spec() -> bool {
        false
    }

    open spec fn from_spec(v: i64) -> EntityId {
        choose|e: EntityId| e@ == signed_decimal(v as int)
    }
}

impl From<i32> for EntityId {
    /// The decimal numeral of the number.
    fn from(value: i32) -> (r: Self)
        ensures
            r@ == signed_decimal(value as int),
    {
        EntityId(i64_to_decimal(value as i64))
    }
}

impl vstd::std_specs::convert::FromSpecImpl<i32> for EntityId {
    /// Only the characters of the numeral are known, so no exact result is claimed.
    open spec fn obeys_from_spec() -> bool {
        false
    }

    open spec fn from_spec(v: i32) -> EntityId {
        choose|e: EntityId| e@ == signed_decimal(v as int)
    }
}

impl<'a> From<&'a i32> for EntityId {
    /// The decimal numeral of the number.
    fn from(value: &'a i32) -> (r: Self)
        ensures
            r@ == signed_decimal(*value as int),
    {
        EntityId(i64_to_decimal(*value as i64))
    }
}

impl<'a> vstd::std_specs::convert::FromSpecImpl<&'a i32> for EntityId {
    /// Only the characters of the numeral are known, so no exact result is claimed.
    open spec fn obeys_from_spec() -> bool {
        false
    }

    open spec fn from_spec(v: &'a i32) -> EntityId {
        choose|e: EntityId| e@ == signed_decimal(*v as int)
    }
}

/// A link to a record: its identity alone, or the record itself.
#[derive(Debug, Clone, PartialEq, Eq)]
pub enum EntityRef<EntityT> {
    Id(EntityId),
    Value(EntityT),
}

impl<EntityT> From<EntityId> for EntityRef<EntityT> {
    fn from(value: EntityId) -> (r: Self)
        ensures
            r == EntityRef::<EntityT>::Id(value),
    {
        EntityRef::Id(value)
    }
}

impl<EntityT> vstd::std_specs::convert::FromSpecImpl<EntityId> for EntityRef<EntityT> {
    open spec fn obeys_from_spec() -> bool {
        true
    }

    open spec fn from_spec(v: EntityId) -> EntityRef<EntityT> {
        EntityRef::Id(v)
    }
}

} // verus!
