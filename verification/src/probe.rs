//! What each native query's answer means.
//!
//! Enumerations ask for the largest possible count first, hand the device a
//! buffer of that size, and keep as many entries as the device then says it
//! wrote. A query that reports failure yields an error that names the reason.

use crate::attrib::{
    is_in_use, is_supported, supported_attribs, supported_config_attribs, used_attribs,
    used_surface_attribs, ConfigAttrib, SurfaceAttrib,
};
use crate::codes::{
    encode_capable, is_encode_entry_point, succeeded, NO_CONFIG, STATUS_SUCCESS,
    STATUS_UNSUPPORTED_PROFILE,
};
use vstd::prelude::*;

verus! {

/// Why a query leaves its branch of the traversal without a result.
#[derive(Clone, Copy, Debug, PartialEq, Eq, Structural)]
pub enum ProbeError {
    /// The native call reported something other than success.
    QueryFailure,
    /// The entry point query said that it does not know the profile.
    UnsupportedProfile,
    /// The configuration was created, but its handle stands for "none".
    ZeroHandle,
}

/// The buffer size to allocate for a reported maximum count.
pub open spec fn capacity_for(limit: i32) -> usize {
    if limit > 0 {
        limit as usize
    } else {
        0
    }
}

/// How many entries of a buffer of length `len` a reported count covers.
pub open spec fn covered(count: int, len: int) -> int {
    if count < 0 {
        0
    } else if count > len {
        len
    } else {
        count
    }
}

/// The entries of `buffer` that a reported count covers.
pub open spec fn truncated<T>(buffer: Seq<T>, count: int) -> Seq<T> {
    buffer.take(covered(count, buffer.len() as int))
}

/// The entry points of `entry_points` that denote hardware encode, in their order.
pub open spec fn encode_kinds(entry_points: Seq<u32>) -> Seq<u32> {
    entry_points.filter(|e: u32| is_encode_entry_point(e))
}

/// What the profile query's answer lists.
pub open spec fn profiles_listed(status: i32, buffer: Seq<i32>, count: i32) -> Result<
    Seq<i32>,
    ProbeError,
> {
    if succeeded(status) {
        Ok(truncated(buffer, count as int))
    } else {
        Err(ProbeError::QueryFailure)
    }
}

/// What the entry point query's answer lists, of the encode-capable kinds.
pub open spec fn entry_points_listed(status: i32, buffer: Seq<u32>, count: i32) -> Result<
    Seq<u32>,
    ProbeError,
> {
    if succeeded(status) {
        Ok(encode_kinds(truncated(buffer, count as int)))
    } else if status == STATUS_UNSUPPORTED_PROFILE {
        Err(ProbeError::UnsupportedProfile)
    } else {
        Err(ProbeError::QueryFailure)
    }
}

/// The configuration attributes that the batched query's answer reports.
pub open spec fn config_attribs_reported(status: i32, attribs: Seq<ConfigAttrib>) -> Result<
    Seq<ConfigAttrib>,
    ProbeError,
> {
    if succeeded(status) {
        Ok(supported_attribs(attribs))
    } else {
        Err(ProbeError::QueryFailure)
    }
}

/// The configuration that the answer to its creation holds.
pub open spec fn config_created(status: i32, handle: u32) -> Result<u32, ProbeError> {
    if !succeeded(status) {
        Err(ProbeError::QueryFailure)
    } else if handle == NO_CONFIG {
        Err(ProbeError::ZeroHandle)
    } else {
        Ok(handle)
    }
}

/// The number of surface attributes that the size query's answer reports.
pub open spec fn surface_count_reported(status: i32, count: u32) -> Result<usize, ProbeError> {
    if succeeded(status) {
        Ok(count as usize)
    } else {
        Err(ProbeError::QueryFailure)
    }
}

/// The surface attributes that the fill query's answer reports, of a buffer
/// that was allocated for `count` entries.
pub open spec fn surface_attribs_reported(
    status: i32,
    attribs: Seq<SurfaceAttrib>,
    count: usize,
) -> Result<Seq<SurfaceAttrib>, ProbeError> {
    if succeeded(status) {
        Ok(used_attribs(truncated(attribs, count as int)))
    } else {
        Err(ProbeError::QueryFailure)
    }
}

/// The buffer size to allocate for the maximum count that the device reports.
pub fn buffer_capacity(limit: i32) -> (capacity: usize)
    ensures
        capacity == capacity_for(limit),
{
    if limit > 0 {
        limit as usize
    } else {
        0
    }
}

/// Keeps the first `n` entries of `buffer`, or all of it where it holds fewer.
pub fn keep_first<T>(buffer: Vec<T>, n: usize) -> (kept: Vec<T>)
    ensures
        kept@ == truncated(buffer@, n as int),
{
    let mut kept = buffer;
    if n < kept.len() {
        kept.truncate(n);
    }
    assert(kept@ =~= truncated(buffer@, n as int));
    kept
}

/// Keeps the entries of `buffer` that the count covers which the device
/// reported after filling it. A negative count covers none.
pub fn truncate_to_count<T>(buffer: Vec<T>, count: i32) -> (kept: Vec<T>)
    ensures
        kept@ == truncated(buffer@, count as int),
{
    if count < 0 {
        let kept = keep_first(buffer, 0);
        assert(kept@ =~= truncated(buffer@, count as int));
        kept
    } else {
        keep_first(buffer, count as usize)
    }
}

/// Keeps the encode-capable entry points.
pub fn encode_entry_points(entry_points: &Vec<u32>) -> (kept: Vec<u32>)
    ensures
        kept@ == encode_kinds(entry_points@),
{
    let mut kept: Vec<u32> = Vec::new();
    let mut i: usize = 0;
    proof {
        reveal(Seq::filter);
        assert(entry_points@.take(0) =~= Seq::<u32>::empty());
    }
    while i < entry_points.len()
        invariant
            i <= entry_points.len(),
            kept@ == encode_kinds(entry_points@.take(i as int)),
        decreases entry_points.len() - i,
    {
        proof {
            reveal(Seq::filter);
            assert(entry_points@.take(i as int + 1).drop_last() =~= entry_points@.take(i as int));
        }
        if encode_capable(entry_points[i]) {
            kept.push(entry_points[i]);
        }
        i = i + 1;
    }
    assert(entry_points@.take(i as int) =~= entry_points@);
    kept
}

/// The profiles that the device supports, from the answer to the profile query.
pub fn list_profiles(status: i32, buffer: Vec<i32>, count: i32) -> (r: Result<
    Vec<i32>,
    ProbeError,
>)
    ensures
        match profiles_listed(status, buffer@, count) {
            Ok(profiles) => r is Ok && r->Ok_0@ == profiles,
            Err(e) => r is Err && r->Err_0 == e,
        },
{
    if status == STATUS_SUCCESS {
        Ok(truncate_to_count(buffer, count))
    } else {
        Err(ProbeError::QueryFailure)
    }
}

/// The encode-capable entry points of a profile, from the answer to the entry
/// point query.
pub fn list_entry_points(status: i32, buffer: Vec<u32>, count: i32) -> (r: Result<
    Vec<u32>,
    ProbeError,
>)
    ensures
        match entry_points_listed(status, buffer@, count) {
            Ok(entry_points) => r is Ok && r->Ok_0@ == entry_points,
            Err(e) => r is Err && r->Err_0 == e,
        },
{
    if status == STATUS_SUCCESS {
        let listed = truncate_to_count(buffer, count);
        Ok(encode_entry_points(&listed))
    } else if status == STATUS_UNSUPPORTED_PROFILE {
        Err(ProbeError::UnsupportedProfile)
    } else {
        Err(ProbeError::QueryFailure)
    }
}

/// The configuration attributes that the hardware exposes, from the answer to
/// the batched query.
pub fn probe_config_attribs(status: i32, attribs: Vec<ConfigAttrib>) -> (r: Result<
    Vec<ConfigAttrib>,
    ProbeError,
>)
    ensures
        match config_attribs_reported(status, attribs@) {
            Ok(kept) => r is Ok && r->Ok_0@ == kept,
            Err(e) => r is Err && r->Err_0 == e,
        },
{
    if status == STATUS_SUCCESS {
        Ok(supported_config_attribs(&attribs))
    } else {
        Err(ProbeError::QueryFailure)
    }
}

/// The configuration handle, from the answer to the creation of a configuration.
pub fn create_configuration(status: i32, handle: u32) -> (r: Result<u32, ProbeError>)
    ensures
        r == config_created(status, handle),
{
    if status != STATUS_SUCCESS {
        Err(ProbeError::QueryFailure)
    } else if handle == NO_CONFIG {
        Err(ProbeError::ZeroHandle)
    } else {
        Ok(handle)
    }
}

/// The size of the buffer to fill, from the answer to the size query for
/// surface attributes.
pub fn probe_surface_count(status: i32, count: u32) -> (r: Result<usize, ProbeError>)
    ensures
        r == surface_count_reported(status, count),
{
    if status == STATUS_SUCCESS {
        Ok(count as usize)
    } else {
        Err(ProbeError::QueryFailure)
    }
}

/// The surface attributes in use, from the answer to the fill query on a
/// buffer of `count` entries.
pub fn probe_surface_attribs(status: i32, attribs: Vec<SurfaceAttrib>, count: usize) -> (r: Result<
    Vec<SurfaceAttrib>,
    ProbeError,
>)
    ensures
        match surface_attribs_reported(status, attribs@, count) {
            Ok(kept) => r is Ok && r->Ok_0@ == kept,
            Err(e) => r is Err && r->Err_0 == e,
        },
{
    if status == STATUS_SUCCESS {
        let filled = keep_first(attribs, count);
        Ok(used_surface_attribs(&filled))
    } else {
        Err(ProbeError::QueryFailure)
    }
}

/// No attribute that is kept holds the "not supported" value.
pub proof fn lemma_supported_attribs_hold_values(attribs: Seq<ConfigAttrib>)
    ensures
        forall|i: int|
            0 <= i < supported_attribs(attribs).len() ==> is_supported(
                #[trigger] supported_attribs(attribs)[i],
            ),
        supported_attribs(attribs).len() <= attribs.len(),
{
    let pred = |a: ConfigAttrib| is_supported(a);
    attribs.lemma_filter_len(pred);
    assert forall|i: int| 0 <= i < supported_attribs(attribs).len() implies is_supported(
        #[trigger] supported_attribs(attribs)[i],
    ) by {
        attribs.lemma_filter_pred(pred, i);
    }
}

/// No surface attribute that is kept marks an unused slot.
pub proof fn lemma_used_attribs_are_in_use(attribs: Seq<SurfaceAttrib>)
    ensures
        forall|i: int|
            0 <= i < used_attribs(attribs).len() ==> is_in_use(#[trigger] used_attribs(attribs)[i]),
        used_attribs(attribs).len() <= attribs.len(),
{
    let pred = |a: SurfaceAttrib| is_in_use(a);
    attribs.lemma_filter_len(pred);
    assert forall|i: int| 0 <= i < used_attribs(attribs).len() implies is_in_use(
        #[trigger] used_attribs(attribs)[i],
    ) by {
        attribs.lemma_filter_pred(pred, i);
    }
}

/// Every entry point that is kept is encode-capable, and every encode-capable
/// entry point of the listing is kept.
pub proof fn lemma_encode_kinds(entry_points: Seq<u32>)
    ensures
        forall|i: int|
            0 <= i < encode_kinds(entry_points).len() ==> is_encode_entry_point(
                #[trigger] encode_kinds(entry_points)[i],
            ),
        forall|e: u32| #[trigger]
            encode_kinds(entry_points).contains(e) <==> entry_points.contains(e)
                && is_encode_entry_point(e),
{
    let pred = |e: u32| is_encode_entry_point(e);
    assert forall|i: int| 0 <= i < encode_kinds(entry_points).len() implies is_encode_entry_point(
        #[trigger] encode_kinds(entry_points)[i],
    ) by {
        entry_points.lemma_filter_pred(pred, i);
    }
    assert forall|e: u32| #[trigger]
        encode_kinds(entry_points).contains(e) <==> entry_points.contains(e)
            && is_encode_entry_point(e) by {
        if entry_points.contains(e) && is_encode_entry_point(e) {
            let i = choose|i: int| 0 <= i < entry_points.len() && entry_points[i] == e;
            entry_points.lemma_filter_contains(pred, i);
        }
        if encode_kinds(entry_points).contains(e) {
            entry_points.lemma_filter_contains_rev(pred, e);
            let i = choose|i: int|
                0 <= i < encode_kinds(entry_points).len() && encode_kinds(entry_points)[i] == e;
            entry_points.lemma_filter_pred(pred, i);
        }
    }
}

} // verus!
