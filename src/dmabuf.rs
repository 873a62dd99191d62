//! Plane layout of an exported GPU image and the wire-buffer request built
//! from it.

use crate::fourcc::{spec_xrgb8888, xrgb8888};
use vstd::prelude::*;

verus! {

/// Layout of the memory plane of an exported GPU image.
#[derive(Clone, Copy, Debug, PartialEq, Eq, Structural)]
pub struct PlaneLayout {
    pub fourcc: u32,
    pub num_planes: u32,
    pub modifier: u64,
    pub offset: u32,
    pub stride: u32,
}

impl PlaneLayout {
    /// The layout from the raw values the dma-buf export queries fill in;
    /// each signed value is read back as the unsigned one of the same bits.
    pub fn from_export(fourcc: i32, num_planes: i32, modifier: u64, offset: i32, stride: i32) -> (r:
        PlaneLayout)
        ensures
            r.fourcc == fourcc as u32,
            r.num_planes == num_planes as u32,
            r.modifier == modifier,
            r.offset == offset as u32,
            r.stride == stride as u32,
    {
        PlaneLayout {
            fourcc: #[verifier::truncate] (fourcc as u32),
            num_planes: #[verifier::truncate] (num_planes as u32),
            modifier,
            offset: #[verifier::truncate] (offset as u32),
            stride: #[verifier::truncate] (stride as u32),
        }
    }
}

/// Upper and lower halves of a 64-bit format modifier, as the wire carries it.
pub fn split_modifier(modifier: u64) -> (r: (u32, u32))
    ensures
        r.0 as int == modifier as int / 0x1_0000_0000,
        r.1 as int == modifier as int % 0x1_0000_0000,
        r.0 as int * 0x1_0000_0000 + r.1 as int == modifier as int,
{
    let hi: u64 = modifier >> 32u64;
    let lo: u64 = modifier & 0xFFFF_FFFFu64;
    assert(hi == modifier / 0x1_0000_0000 && lo == modifier % 0x1_0000_0000 && hi < 0x1_0000_0000)
        by (bit_vector)
        requires
            hi == modifier >> 32u64,
            lo == modifier & 0xFFFF_FFFFu64,
    ;
    (hi as u32, lo as u32)
}

/// Description of one memory plane for the buffer-parameters object.
#[derive(Clone, Copy, Debug, PartialEq, Eq, Structural)]
pub struct PlaneParams {
    pub plane_index: u32,
    pub offset: u32,
    pub stride: u32,
    pub modifier_hi: u32,
    pub modifier_lo: u32,
}

/// Everything the compositor needs to build a wire buffer over one plane.
#[derive(Clone, Copy, Debug, PartialEq, Eq, Structural)]
pub struct WireBufferRequest {
    pub plane: PlaneParams,
    pub width: u32,
    pub height: u32,
    /// Format advertised to the compositor, which may differ from the
    /// allocation's own: the consumer corrects the channel order.
    pub fourcc: u32,
    pub flags: u32,
}

/// The parameters of plane 0 of `layout`.
pub open spec fn spec_plane_params(layout: PlaneLayout) -> PlaneParams {
    PlaneParams {
        plane_index: 0,
        offset: layout.offset,
        stride: layout.stride,
        modifier_hi: (layout.modifier as int / 0x1_0000_0000) as u32,
        modifier_lo: (layout.modifier as int % 0x1_0000_0000) as u32,
    }
}

/// The request for a `width` x `height` wire buffer over `layout`, advertised
/// as XRGB8888 and created with no flags.
pub open spec fn spec_wire_request(layout: PlaneLayout, width: u32, height: u32) -> WireBufferRequest {
    WireBufferRequest {
        plane: spec_plane_params(layout),
        width,
        height,
        fourcc: spec_xrgb8888(),
        flags: 0,
    }
}

/// Builds the request for a single-plane wire buffer over `layout`.
pub fn wire_request(layout: PlaneLayout, width: u32, height: u32) -> (r: WireBufferRequest)
    ensures
        r == spec_wire_request(layout, width, height),
{
    let (modifier_hi, modifier_lo) = split_modifier(layout.modifier);
    let plane = PlaneParams {
        plane_index: 0,
        offset: layout.offset,
        stride: layout.stride,
        modifier_hi,
        modifier_lo,
    };
    WireBufferRequest { plane, width, height, fourcc: xrgb8888(), flags: 0 }
}

} // verus!
