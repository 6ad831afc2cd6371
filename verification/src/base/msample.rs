//! Implements multisampling-related conversion functions.

use vstd::prelude::*;
use crate::abi::dxgi::SampleDesc;

verus! {

/// The number of samples per pixel that stands for a legacy multisample
/// type: the type itself, held between 1 and 16.
pub open spec fn sample_count_of(ty: u32) -> u32 {
    if ty < 1 {
        1
    } else if ty > 16 {
        16
    } else {
        ty
    }
}

/// The sample description that stands for a legacy multisample type /
/// quality pair. The quality is passed through.
pub open spec fn samples_of(ty: u32, qlt: u32) -> SampleDesc {
    SampleDesc { count: sample_count_of(ty), quality: qlt }
}

/// The legacy multisample type / quality pair that stands for a sample
/// description: the count and the quality as they are.
pub open spec fn legacy_samples_of(d: SampleDesc) -> (u32, u32) {
    (d.count, d.quality)
}

/// Converts a legacy multisample type / quality pair to a sample description.
pub fn d3d9_to_dxgi_samples(ty: u32, qlt: u32) -> (res: SampleDesc)
    ensures
        res == samples_of(ty, qlt),
{
    let count: u32 = if ty < 1 {
        1
    } else if ty > 16 {
        16
    } else {
        ty
    };

    SampleDesc { count, quality: qlt }
}

/// Converts a sample description to a pair of multisample type and quality.
pub fn dxgi_samples_to_d3d9(d: SampleDesc) -> (res: (u32, u32))
    ensures
        res == legacy_samples_of(d),
{
    (d.count, d.quality)
}

/// A multisample type between 1 and 16 goes to the modern description and
/// back unchanged, and so does every quality.
pub proof fn sample_round_trip(ty: u32, qlt: u32)
    requires
        1 <= ty <= 16,
    ensures
        legacy_samples_of(samples_of(ty, qlt)) == (ty, qlt),
{
}

/// Every sample description goes to the legacy pair and back unchanged if
/// its count is one that the modern interface accepts.
pub proof fn sample_round_trip_back(d: SampleDesc)
    requires
        1 <= d.count <= 16,
    ensures
        samples_of(legacy_samples_of(d).0, legacy_samples_of(d).1) == d,
{
}

/// The sample count is always one that the modern interface accepts, and a
/// type outside the range goes to the nearer end of it.
pub proof fn sample_count_is_clamped(ty: u32)
    ensures
        1 <= samples_of(ty, 0).count <= 16,
        ty == 0 ==> samples_of(ty, 0).count == 1,
        ty > 16 ==> samples_of(ty, 0).count == 16,
{
}

} // verus!
