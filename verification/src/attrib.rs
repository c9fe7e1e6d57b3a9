//! Configuration and surface attributes: what is kept of a query's answer,
//! and how a kept attribute reads in the report.

use crate::codes::{
    ATTRIB_NOT_SUPPORTED, CONFIG_ATTRIB_ENC_MACROBLOCK_INFO, CONFIG_ATTRIB_ENC_MAX_REF_FRAMES,
    CONFIG_ATTRIB_ENC_PACKED_HEADERS, CONFIG_ATTRIB_ENC_QUALITY_RANGE,
    CONFIG_ATTRIB_ENC_QUANTIZATION, CONFIG_ATTRIB_MAX_PICTURE_HEIGHT,
    CONFIG_ATTRIB_MAX_PICTURE_WIDTH, SURFACE_ATTRIB_MEMORY_TYPE, SURFACE_ATTRIB_NONE,
    SURFACE_ATTRIB_PIXEL_FORMAT,
};
use crate::fourcc::{decode_error_text, fourcc, fourcc_text, is_fourcc};
use crate::names::{push_name, resolved_name, VACONFIGATTRIB_STR, VASURFACEATTRIB_STR};
use crate::text::{binary_digits, decimal_text, push_binary, push_decimal, push_integer};
use vstd::prelude::*;
use vstd::string::StringExecFns;

verus! {

/// A capability or limit of a profile and entry point.
#[derive(Clone, Copy, Debug, PartialEq, Eq, Structural)]
pub struct ConfigAttrib {
    /// Which attribute this is.
    pub kind: u32,
    /// Its raw 32-bit value.
    pub value: u32,
}

/// A capability or limit of the frame buffers of a configuration.
#[derive(Clone, Copy, Debug, PartialEq, Eq, Structural)]
pub struct SurfaceAttrib {
    /// Which attribute this is.
    pub kind: u32,
    /// Its raw value, read as a signed 32-bit integer.
    pub value: i32,
}

/// What the value of a surface attribute stands for, by the attribute's kind.
#[derive(Clone, Copy, Debug, PartialEq, Eq, Structural)]
pub enum SurfaceValue {
    /// A pixel format, as the 32 bits of a four-character code.
    PixelFormat(u32),
    /// A set of memory types, as a bit mask.
    MemoryType(u32),
    /// A plain integer.
    Integer(i32),
}

/// The kinds of configuration attribute that are asked for, in the order of
/// the request.
pub open spec fn probed_kinds() -> Seq<u32> {
    seq![
        CONFIG_ATTRIB_ENC_MAX_REF_FRAMES,
        CONFIG_ATTRIB_MAX_PICTURE_WIDTH,
        CONFIG_ATTRIB_MAX_PICTURE_HEIGHT,
        CONFIG_ATTRIB_ENC_QUALITY_RANGE,
        CONFIG_ATTRIB_ENC_PACKED_HEADERS,
        CONFIG_ATTRIB_ENC_QUANTIZATION,
        CONFIG_ATTRIB_ENC_MACROBLOCK_INFO,
    ]
}

/// The attribute list that is handed to the batched query: each probed kind,
/// holding the "not supported" value.
pub open spec fn seeded_attribs() -> Seq<ConfigAttrib> {
    Seq::new(
        probed_kinds().len(),
        |i: int| ConfigAttrib { kind: probed_kinds()[i], value: ATTRIB_NOT_SUPPORTED },
    )
}

/// Whether the hardware filled the attribute in.
pub open spec fn is_supported(a: ConfigAttrib) -> bool {
    a.value != ATTRIB_NOT_SUPPORTED
}

/// Whether the slot of a surface attribute is in use.
pub open spec fn is_in_use(a: SurfaceAttrib) -> bool {
    a.kind != SURFACE_ATTRIB_NONE
}

/// The attributes of `attribs` that the hardware filled in, in their order.
pub open spec fn supported_attribs(attribs: Seq<ConfigAttrib>) -> Seq<ConfigAttrib> {
    attribs.filter(|a: ConfigAttrib| is_supported(a))
}

/// The attributes of `attribs` whose slot is in use, in their order.
pub open spec fn used_attribs(attribs: Seq<SurfaceAttrib>) -> Seq<SurfaceAttrib> {
    attribs.filter(|a: SurfaceAttrib| is_in_use(a))
}

/// The forward (P-frame) reference count: bits 0 to 15 of the packed value.
pub open spec fn p_frames(value: u32) -> int {
    value as int % 0x1_0000
}

/// The bidirectional (B-frame) reference count: bits 16 to 31 of the packed value.
pub open spec fn b_frames(value: u32) -> int {
    value as int / 0x1_0000
}

/// The 32 bits of a signed value, read as unsigned.
pub open spec fn raw_bits(value: i32) -> u32 {
    if value >= 0 {
        value as u32
    } else {
        (value + 0x1_0000_0000) as u32
    }
}

/// What the value of `a` stands for.
pub open spec fn surface_value(a: SurfaceAttrib) -> SurfaceValue {
    if a.kind == SURFACE_ATTRIB_PIXEL_FORMAT {
        SurfaceValue::PixelFormat(raw_bits(a.value))
    } else if a.kind == SURFACE_ATTRIB_MEMORY_TYPE {
        SurfaceValue::MemoryType(raw_bits(a.value))
    } else {
        SurfaceValue::Integer(a.value)
    }
}

/// How the value of a configuration attribute reads, after the colon.
pub open spec fn config_value_text(a: ConfigAttrib) -> Seq<char> {
    if a.kind == CONFIG_ATTRIB_ENC_MAX_REF_FRAMES {
        " P-Frames: "@ + decimal_text(p_frames(a.value)) + ", B-Frames: "@ + decimal_text(
            b_frames(a.value),
        )
    } else {
        decimal_text(a.value as int)
    }
}

/// How a decoded surface value reads, after the colon.
pub open spec fn surface_value_text(v: SurfaceValue) -> Seq<char> {
    match v {
        SurfaceValue::PixelFormat(code) => if is_fourcc(code) {
            fourcc_text(code)
        } else {
            decode_error_text()
        },
        SurfaceValue::MemoryType(mask) => "0b"@ + binary_digits(mask as nat),
        SurfaceValue::Integer(n) => decimal_text(n as int),
    }
}

/// The report line of a configuration attribute.
pub open spec fn config_attrib_text(a: ConfigAttrib) -> Seq<char> {
    "\t\t"@ + resolved_name(VACONFIGATTRIB_STR@, a.kind as i64) + ":"@ + config_value_text(a)
}

/// The report line of a surface attribute.
pub open spec fn surface_attrib_text(a: SurfaceAttrib) -> Seq<char> {
    "\t\t"@ + resolved_name(VASURFACEATTRIB_STR@, a.kind as i64) + ":"@ + surface_value_text(
        surface_value(a),
    )
}

/// The two counts are the low and the high half of the packed value.
pub proof fn lemma_ref_frames_are_bit_fields(value: u32)
    ensures
        p_frames(value) == value & 0xFFFF,
        b_frames(value) == (value >> 16) & 0xFFFF,
{
    assert(value % 0x1_0000 == value & 0xFFFF) by (bit_vector);
    assert(value / 0x1_0000 == (value >> 16) & 0xFFFF) by (bit_vector);
}

/// The attribute list to hand to the batched configuration query.
pub fn seed_config_attribs() -> (attribs: Vec<ConfigAttrib>)
    ensures
        attribs@ == seeded_attribs(),
{
    let attribs = vec![
        ConfigAttrib { kind: CONFIG_ATTRIB_ENC_MAX_REF_FRAMES, value: ATTRIB_NOT_SUPPORTED },
        ConfigAttrib { kind: CONFIG_ATTRIB_MAX_PICTURE_WIDTH, value: ATTRIB_NOT_SUPPORTED },
        ConfigAttrib { kind: CONFIG_ATTRIB_MAX_PICTURE_HEIGHT, value: ATTRIB_NOT_SUPPORTED },
        ConfigAttrib { kind: CONFIG_ATTRIB_ENC_QUALITY_RANGE, value: ATTRIB_NOT_SUPPORTED },
        ConfigAttrib { kind: CONFIG_ATTRIB_ENC_PACKED_HEADERS, value: ATTRIB_NOT_SUPPORTED },
        ConfigAttrib { kind: CONFIG_ATTRIB_ENC_QUANTIZATION, value: ATTRIB_NOT_SUPPORTED },
        ConfigAttrib { kind: CONFIG_ATTRIB_ENC_MACROBLOCK_INFO, value: ATTRIB_NOT_SUPPORTED },
    ];
    assert(attribs@ =~= seeded_attribs());
    attribs
}

/// Drops the attributes that still hold the "not supported" value.
pub fn supported_config_attribs(attribs: &Vec<ConfigAttrib>) -> (kept: Vec<ConfigAttrib>)
    ensures
        kept@ == supported_attribs(attribs@),
{
    let mut kept: Vec<ConfigAttrib> = Vec::new();
    let mut i: usize = 0;
    proof {
        reveal(Seq::filter);
        assert(attribs@.take(0) =~= Seq::<ConfigAttrib>::empty());
    }
    while i < attribs.len()
        invariant
            i <= attribs.len(),
            kept@ == supported_attribs(attribs@.take(i as int)),
        decreases attribs.len() - i,
    {
        proof {
            reveal(Seq::filter);
            assert(attribs@.take(i as int + 1).drop_last() =~= attribs@.take(i as int));
        }
        if attribs[i].value != ATTRIB_NOT_SUPPORTED {
            kept.push(attribs[i]);
        }
        i = i + 1;
    }
    assert(attribs@.take(i as int) =~= attribs@);
    kept
}

/// Drops the attributes whose kind marks an unused slot.
pub fn used_surface_attribs(attribs: &Vec<SurfaceAttrib>) -> (kept: Vec<SurfaceAttrib>)
    ensures
        kept@ == used_attribs(attribs@),
{
    let mut kept: Vec<SurfaceAttrib> = Vec::new();
    let mut i: usize = 0;
    proof {
        reveal(Seq::filter);
        assert(attribs@.take(0) =~= Seq::<SurfaceAttrib>::empty());
    }
    while i < attribs.len()
        invariant
            i <= attribs.len(),
            kept@ == used_attribs(attribs@.take(i as int)),
        decreases attribs.len() - i,
    {
        proof {
            reveal(Seq::filter);
            assert(attribs@.take(i as int + 1).drop_last() =~= attribs@.take(i as int));
        }
        if attribs[i].kind != SURFACE_ATTRIB_NONE {
            kept.push(attribs[i]);
        }
        i = i + 1;
    }
    assert(attribs@.take(i as int) =~= attribs@);
    kept
}

impl ConfigAttrib {
    /// The report line of this attribute.
    pub fn line(&self) -> (line: String)
        ensures
            line@ == config_attrib_text(*self),
    {
        let mut line = "\t\t".to_owned();
        push_name(&mut line, &VACONFIGATTRIB_STR, self.kind as i64);
        line.append(":");
        if self.kind == CONFIG_ATTRIB_ENC_MAX_REF_FRAMES {
            line.append(" P-Frames: ");
            push_decimal(&mut line, (self.value % 0x1_0000) as u64);
            line.append(", B-Frames: ");
            push_decimal(&mut line, (self.value / 0x1_0000) as u64);
        } else {
            push_decimal(&mut line, self.value as u64);
        }
        line
    }
}

impl SurfaceAttrib {
    /// What the value of this attribute stands for.
    pub fn decoded(&self) -> (v: SurfaceValue)
        ensures
            v == surface_value(*self),
    {
        let bits: u32 = if self.value >= 0 {
            self.value as u32
        } else {
            (self.value as i64 + 0x1_0000_0000) as u32
        };
        if self.kind == SURFACE_ATTRIB_PIXEL_FORMAT {
            SurfaceValue::PixelFormat(bits)
        } else if self.kind == SURFACE_ATTRIB_MEMORY_TYPE {
            SurfaceValue::MemoryType(bits)
        } else {
            SurfaceValue::Integer(self.value)
        }
    }

    /// The report line of this attribute.
    pub fn line(&self) -> (line: String)
        ensures
            line@ == surface_attrib_text(*self),
    {
        let mut line = "\t\t".to_owned();
        push_name(&mut line, &VASURFACEATTRIB_STR, self.kind as i64);
        line.append(":");
        match self.decoded() {
            SurfaceValue::PixelFormat(code) => {
                match fourcc(code) {
                    Ok(text) => line.append(text.as_str()),
                    Err(e) => {
                        let marker = e.marker();
                        line.append(marker.as_str())
                    },
                }
            },
            SurfaceValue::MemoryType(mask) => {
                line.append("0b");
                push_binary(&mut line, mask as u64);
            },
            SurfaceValue::Integer(n) => {
                push_integer(&mut line, n as i64);
            },
        }
        line
    }
}

} // verus!
