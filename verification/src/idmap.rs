//! The user-namespace ID remapping: three ranges that make the invoking
//! host identity appear as root inside the container while every other
//! host identity stays unprivileged.

use vstd::prelude::*;

verus! {

/// Size of the ID space a session remaps.
pub const MAX_ID_COUNT: u32 = 65536;

/// One remapped range: `length` consecutive container IDs starting at
/// `container_start` translate to host IDs starting at `host_start`.
#[derive(PartialEq, Eq, Structural, Clone, Copy, Debug)]
pub struct IdMapping {
    pub container_start: u32,
    pub host_start: u32,
    pub length: u32,
}

/// The three ranges of a session for the invoking identity `real_id`:
/// container root becomes `real_id`, the IDs below root shift up by one,
/// and every remaining ID maps to itself.
pub open spec fn spec_compute(real_id: u32, max_id_count: u32) -> Seq<IdMapping>
    recommends
        real_id < max_id_count,
{
    seq![
        IdMapping { container_start: real_id, host_start: 0u32, length: 1u32 },
        IdMapping { container_start: 0u32, host_start: 1u32, length: real_id },
        IdMapping {
            container_start: (real_id + 1) as u32,
            host_start: (real_id + 1) as u32,
            length: (max_id_count - real_id) as u32,
        },
    ]
}

/// `id` is one of the container-side IDs the range translates.
pub open spec fn covers_container(t: IdMapping, id: int) -> bool {
    t.container_start <= id < t.container_start + t.length
}

/// `id` is one of the host-side IDs the range translates to.
pub open spec fn covers_host(t: IdMapping, id: int) -> bool {
    t.host_start <= id < t.host_start + t.length
}

/// Computes the three mapping ranges. The invoking identity must lie
/// strictly inside the ID space: at the boundaries the middle range would
/// be empty or the last range would start beyond the space, which the
/// engine rejects, so those identities are refused up front (see
/// `plan_id_mappings`).
pub fn compute(real_id: u32, max_id_count: u32) -> (r: Vec<IdMapping>)
    requires
        0 < real_id,
        real_id < max_id_count - 1,
    ensures
        r@ == spec_compute(real_id, max_id_count),
{
    let mut v: Vec<IdMapping> = Vec::new();
    v.push(IdMapping { container_start: real_id, host_start: 0, length: 1 });
    v.push(IdMapping { container_start: 0, host_start: 1, length: real_id });
    v.push(IdMapping {
        container_start: real_id + 1,
        host_start: real_id + 1,
        length: max_id_count - real_id,
    });
    proof {
        assert(v@ =~= spec_compute(real_id, max_id_count));
    }
    v
}

/// Validating entry point: plans the mapping only for identities strictly
/// inside the ID space, and reports the boundary identities as unplannable
/// instead of emitting a degenerate range.
pub fn plan_id_mappings(real_id: u32, max_id_count: u32) -> (r: Option<Vec<IdMapping>>)
    ensures
        r is Some <==> 0 < real_id && real_id < max_id_count - 1,
        r matches Some(v) ==> v@ == spec_compute(real_id, max_id_count),
{
    if 0 < real_id && max_id_count >= 1 && real_id < max_id_count - 1 {
        Some(compute(real_id, max_id_count))
    } else {
        None
    }
}

/// Law: for an identity strictly inside the ID space, the three ranges are
/// pairwise non-overlapping in both the container and the host dimension,
/// and every ID in `[0, max_id_count)` is covered in both dimensions — so
/// each such ID is translated exactly once each way.
pub proof fn lemma_mapping_disjoint_and_covering(real_id: u32, max_id_count: u32)
    requires
        0 < real_id,
        real_id < max_id_count - 1,
    ensures
        forall|id: int|
            !(covers_container(spec_compute(real_id, max_id_count)[0], id)
                && covers_container(spec_compute(real_id, max_id_count)[1], id)),
        forall|id: int|
            !(covers_container(spec_compute(real_id, max_id_count)[0], id)
                && covers_container(spec_compute(real_id, max_id_count)[2], id)),
        forall|id: int|
            !(covers_container(spec_compute(real_id, max_id_count)[1], id)
                && covers_container(spec_compute(real_id, max_id_count)[2], id)),
        forall|id: int|
            !(covers_host(spec_compute(real_id, max_id_count)[0], id)
                && covers_host(spec_compute(real_id, max_id_count)[1], id)),
        forall|id: int|
            !(covers_host(spec_compute(real_id, max_id_count)[0], id)
                && covers_host(spec_compute(real_id, max_id_count)[2], id)),
        forall|id: int|
            !(covers_host(spec_compute(real_id, max_id_count)[1], id)
                && covers_host(spec_compute(real_id, max_id_count)[2], id)),
        forall|id: int|
            0 <= id < max_id_count ==> covers_container(spec_compute(real_id, max_id_count)[0], id)
                || covers_container(spec_compute(real_id, max_id_count)[1], id)
                || covers_container(spec_compute(real_id, max_id_count)[2], id),
        forall|id: int|
            0 <= id < max_id_count ==> covers_host(spec_compute(real_id, max_id_count)[0], id)
                || covers_host(spec_compute(real_id, max_id_count)[1], id)
                || covers_host(spec_compute(real_id, max_id_count)[2], id),
{
}

} // verus!
