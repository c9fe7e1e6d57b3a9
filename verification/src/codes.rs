//! Numeric codes of the acceleration interface that the traversal decides on.

use vstd::prelude::*;

verus! {

/// Status with which a native call reports success.
pub const STATUS_SUCCESS: i32 = 0;

/// Status with which the entry point query says that it does not know the profile.
pub const STATUS_UNSUPPORTED_PROFILE: i32 = 12;

/// Value with which a configuration attribute is seeded before the query, and
/// which it still holds afterwards where the hardware does not expose it.
pub const ATTRIB_NOT_SUPPORTED: u32 = 0x8000_0000;

/// Configuration handle that stands for "no configuration".
pub const NO_CONFIG: u32 = 0;

/// Entry point: slice-level encode.
pub const ENTRY_POINT_ENC_SLICE: u32 = 6;

/// Entry point: slice-level encode, low-power variant.
pub const ENTRY_POINT_ENC_SLICE_LP: u32 = 8;

/// Configuration attribute: supported packed-header kinds.
pub const CONFIG_ATTRIB_ENC_PACKED_HEADERS: u32 = 10;

/// Configuration attribute: maximum reference-frame counts, two packed counts.
pub const CONFIG_ATTRIB_ENC_MAX_REF_FRAMES: u32 = 13;

/// Configuration attribute: macroblock-info support.
pub const CONFIG_ATTRIB_ENC_MACROBLOCK_INFO: u32 = 16;

/// Configuration attribute: maximum picture width.
pub const CONFIG_ATTRIB_MAX_PICTURE_WIDTH: u32 = 18;

/// Configuration attribute: maximum picture height.
pub const CONFIG_ATTRIB_MAX_PICTURE_HEIGHT: u32 = 19;

/// Configuration attribute: encoder quality range.
pub const CONFIG_ATTRIB_ENC_QUALITY_RANGE: u32 = 21;

/// Configuration attribute: quantization support.
pub const CONFIG_ATTRIB_ENC_QUANTIZATION: u32 = 22;

/// Surface attribute kind of an unused slot.
pub const SURFACE_ATTRIB_NONE: u32 = 0;

/// Surface attribute: pixel format, a four-character code.
pub const SURFACE_ATTRIB_PIXEL_FORMAT: u32 = 1;

/// Surface attribute: memory types, a bit mask.
pub const SURFACE_ATTRIB_MEMORY_TYPE: u32 = 6;

/// Whether a native call reported success.
pub open spec fn succeeded(status: i32) -> bool {
    status == STATUS_SUCCESS
}

/// Whether an entry point denotes hardware encode.
pub open spec fn is_encode_entry_point(entry_point: u32) -> bool {
    entry_point == ENTRY_POINT_ENC_SLICE || entry_point == ENTRY_POINT_ENC_SLICE_LP
}

/// Whether `status` reports success.
pub fn status_succeeded(status: i32) -> (ok: bool)
    ensures
        ok == succeeded(status),
{
    status == STATUS_SUCCESS
}

/// Whether `entry_point` is one of the two encode-capable kinds.
pub fn encode_capable(entry_point: u32) -> (yes: bool)
    ensures
        yes == is_encode_entry_point(entry_point),
{
    entry_point == ENTRY_POINT_ENC_SLICE || entry_point == ENTRY_POINT_ENC_SLICE_LP
}

} // verus!
