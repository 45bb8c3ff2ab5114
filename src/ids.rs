use vstd::prelude::*;

verus! {

/// A workspace identifier: the 128 bits of a UUID, most significant byte first.
pub type WorkspaceId = u128;

/// The nil identifier: "no workspace".
pub const NIL_ID: WorkspaceId = 0;

/// The version field of a UUID (bits 76 to 79 of its 128-bit value).
pub open spec fn uuid_version(id: WorkspaceId) -> u128 {
    (id >> 76u128) & 0xfu128
}

/// The two top bits of a UUID's variant field (bits 62 and 63 of its 128-bit value).
pub open spec fn uuid_variant_bits(id: WorkspaceId) -> u128 {
    (id >> 62u128) & 0x3u128
}

/// Relies on `uuid::Uuid::new_v4` and `uuid::Uuid::as_u128`: random bits with the
/// version field set to 4 and the variant bits to `10`, read back as a big-endian
/// 128-bit value. `new_v4` panics only when the system's random source fails.
#[verifier::external_body]
fn random_v4_id() -> (r: WorkspaceId)
    ensures
        uuid_version(r) == 4,
        uuid_variant_bits(r) == 2,
{
    uuid::Uuid::new_v4().as_u128()
}

/// A version 4 UUID is never nil.
pub proof fn lemma_v4_is_not_nil(id: WorkspaceId)
    requires
        uuid_version(id) == 4,
    ensures
        id != NIL_ID,
{
    assert(((id >> 76u128) & 0xfu128) == 4u128 ==> id != 0u128) by (bit_vector);
}

/// Draws a new random (version 4) identifier. It is never nil; whether it is unused is up
/// to the caller to check.
pub fn new_workspace_id() -> (r: WorkspaceId)
    ensures
        r != NIL_ID,
        uuid_version(r) == 4,
        uuid_variant_bits(r) == 2,
{
    let r = random_v4_id();
    proof {
        lemma_v4_is_not_nil(r);
    }
    r
}

} // verus!
