//! How an object type is named on the wire: a name-based (version 5) uuid.

use vstd::prelude::*;
use vstd::string::StringSliceAdditionalSpecFns;

verus! {

/// The uuid that `uuid::Uuid::new_v5` derives from a namespace uuid and a
/// name, both uuids taken as big-endian 128-bit numbers.
pub uninterp spec fn uuid_v5(namespace: u128, name: Seq<u8>) -> u128;

/// Calls `uuid::Uuid::new_v5`. Its result is named `uuid_v5`; the source
/// (`Builder::from_sha1_bytes`) sets the version nibble to 5 and the variant
/// bits to `10`, which the two other clauses state.
#[verifier::external_body]
fn uuid_new_v5(namespace: u128, name: &[u8]) -> (r: u128)
    ensures
        r == uuid_v5(namespace, name@),
        (r >> 76u128) & 0xfu128 == 5u128,
        (r >> 62u128) & 0x3u128 == 2u128,
{
    uuid::Uuid::new_v5(&uuid::Uuid::from_u128(namespace), name).as_u128()
}

/// The nil uuid, all of whose bits are zero.
pub const NIL_UUID: u128 = 0;

/// The uuid under which objects of the type named `class_name` are served.
pub fn object_uuid(class_name: &str) -> (r: u128)
    ensures
        r == uuid_v5(NIL_UUID as u128, class_name.spec_bytes()),
        (r >> 76u128) & 0xfu128 == 5u128,
        (r >> 62u128) & 0x3u128 == 2u128,
{
    uuid_new_v5(NIL_UUID, class_name.as_bytes())
}

/// No object type is served under the nil uuid.
pub proof fn lemma_object_uuid_not_nil(r: u128)
    requires
        (r >> 76u128) & 0xfu128 == 5u128,
    ensures
        r != NIL_UUID,
{
    assert(r == 0u128 ==> (r >> 76u128) & 0xfu128 == 0u128) by (bit_vector);
}

} // verus!
