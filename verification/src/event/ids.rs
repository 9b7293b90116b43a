use vstd::prelude::*;

verus! {

/// A UUID, held as the 128-bit number that its sixteen big-endian bytes spell.
#[derive(Clone, Copy, Debug, PartialEq, Eq, Structural, Hash)]
pub struct Uuid {
    pub value: u128,
}

/// Calls `bson::Uuid::new`, which draws a version-4 UUID from the operating
/// system's random generator, and reads its bytes as a big-endian number.
/// What is stated is what `uuid::Uuid::new_v4` sets of every draw: the
/// version nibble 4 and the RFC 4122 variant bits `10`. The other bits rest
/// on chance and are left unsaid.
#[verifier::external_body]
pub(crate) fn random_uuid() -> (id: Uuid)
    ensures
        id.value & 0xF000_C000_0000_0000_0000u128 == 0x4000_8000_0000_0000_0000u128,
{
    Uuid { value: u128::from_be_bytes(bson::Uuid::new().bytes()) }
}

/// Whether `ids` holds `id`.
pub fn contains_id(ids: &Vec<Uuid>, id: Uuid) -> (found: bool)
    ensures
        found == ids@.contains(id),
{
    let n = ids.len();
    for i in 0..n
        invariant
            n == ids@.len(),
            forall|j: int| 0 <= j < i ==> ids@[j] != id,
    {
        if ids[i] == id {
            assert(ids@[i as int] == id);
            return true;
        }
    }
    false
}

/// A copy of `ids`, element for element.
pub fn copy_ids(ids: &Vec<Uuid>) -> (copy: Vec<Uuid>)
    ensures
        copy@ == ids@,
{
    let mut copy: Vec<Uuid> = Vec::new();
    let n = ids.len();
    for i in 0..n
        invariant
            n == ids@.len(),
            copy@ == ids@.take(i as int),
    {
        copy.push(ids[i]);
        assert(ids@.take(i + 1) == ids@.take(i as int).push(ids@[i as int]));
    }
    assert(ids@.take(n as int) == ids@);
    copy
}

} // verus!
