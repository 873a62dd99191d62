//! DRM fourcc pixel-format codes used by the capture path.

use drm_fourcc::DrmFourcc;
use vstd::prelude::*;

verus! {

/// Code of the 32-bit XRGB format (`XR24`), the one offered to the compositor.
pub open spec fn spec_xrgb8888() -> u32 {
    875713112
}

/// Code of the 32-bit ABGR format (`AB24`), the one the GPU allocation must have.
pub open spec fn spec_abgr8888() -> u32 {
    875708993
}

/// Relies on `drm_fourcc::DrmFourcc::Xrgb8888`, whose discriminant is
/// `consts::DRM_FOURCC_XRGB8888`.
#[verifier::external_body]
pub(crate) fn xrgb8888() -> (r: u32)
    ensures
        r == spec_xrgb8888(),
{
    DrmFourcc::Xrgb8888 as u32
}

/// Relies on `drm_fourcc::DrmFourcc::Abgr8888`, whose discriminant is
/// `consts::DRM_FOURCC_ABGR8888`.
#[verifier::external_body]
pub(crate) fn abgr8888() -> (r: u32)
    ensures
        r == spec_abgr8888(),
{
    DrmFourcc::Abgr8888 as u32
}

} // verus!
