//! The AMQP types that the flow state carries without looking inside.

use fe2o3_amqp_types::definitions::Fields;
use vstd::prelude::*;

verus! {

/// The symbol type of AMQP, opaque here.
#[verifier::external_type_specification]
#[verifier::external_body]
pub struct ExSymbol(fe2o3_amqp_types::primitives::Symbol);

/// Any AMQP value, opaque here.
#[verifier::external_type_specification]
#[verifier::external_body]
pub struct ExValue(fe2o3_amqp_types::primitives::Value);

/// The map that keeps its entries in order, opaque here. `Fields` is this map
/// from symbols to values.
#[verifier::external_type_specification]
#[verifier::external_body]
#[verifier::reject_recursive_types(K)]
#[verifier::reject_recursive_types(V)]
pub struct ExOrderedMap<K, V>(fe2o3_amqp_types::primitives::OrderedMap<K, V>);

/// Calls `clone` on a `Fields` map. The copy holds the same symbols with the
/// same values in the same order, so it is the same value of the type.
#[verifier::external_body]
fn clone_fields(fields: &Fields) -> (copy: Fields)
    ensures
        copy == *fields,
{
    fields.clone()
}

/// A copy of optional link properties.
pub fn clone_properties(properties: &Option<Fields>) -> (copy: Option<Fields>)
    ensures
        copy == *properties,
{
    match properties {
        Some(fields) => Some(clone_fields(fields)),
        None => None,
    }
}

} // verus!
