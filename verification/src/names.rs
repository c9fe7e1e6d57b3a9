//! Names of the numeric codes that the acceleration interface uses.
//!
//! Each domain of codes (profiles, entry points, configuration attribute
//! kinds, surface attribute kinds) has an ordered table of code and name. A
//! code that a table does not hold is shown by its decimal text, so that codes
//! added to the interface later still render.

use crate::text::{decimal_string, decimal_text};
use std::borrow::Cow;
use vstd::prelude::*;
use vstd::string::StringExecFns;

verus! {

/// The text by which `code` is shown under `table`: the name of the first
/// entry that holds the code, or else the decimal text of the code.
pub open spec fn resolved_name(table: Seq<(i64, &'static str)>, code: i64) -> Seq<char>
    decreases table.len(),
{
    if table.len() == 0 {
        decimal_text(code as int)
    } else if table[0].0 == code {
        table[0].1@
    } else {
        resolved_name(table.drop_first(), code)
    }
}

/// Whether some entry of `table` holds `code`.
pub open spec fn names_code(table: Seq<(i64, &'static str)>, code: i64) -> bool {
    exists|i: int| 0 <= i < table.len() && (#[trigger] table[i]).0 == code
}

/// Whether `i` is the first position of `table` that holds `code`.
pub open spec fn is_first_entry(table: Seq<(i64, &'static str)>, code: i64, i: int) -> bool {
    &&& 0 <= i < table.len()
    &&& table[i].0 == code
    &&& forall|j: int| 0 <= j < i ==> (#[trigger] table[j]).0 != code
}

/// A code that no entry holds is shown by its own decimal text.
pub proof fn lemma_unknown_code_is_decimal(table: Seq<(i64, &'static str)>, code: i64)
    requires
        !names_code(table, code),
    ensures
        resolved_name(table, code) == decimal_text(code as int),
    decreases table.len(),
{
    if table.len() > 0 {
        assert(table[0].0 != code);
        let rest = table.drop_first();
        assert forall|i: int| 0 <= i < rest.len() implies (#[trigger] rest[i]).0 != code by {
            assert(rest[i] == table[i + 1]);
        }
        lemma_unknown_code_is_decimal(rest, code);
    }
}

/// A code that the table holds is shown by the name of the first entry that holds it.
pub proof fn lemma_known_code_is_first_name(table: Seq<(i64, &'static str)>, code: i64, i: int)
    requires
        is_first_entry(table, code, i),
    ensures
        resolved_name(table, code) == table[i].1@,
    decreases table.len(),
{
    if i > 0 {
        assert(table[0].0 != code);
        let rest = table.drop_first();
        assert(rest[i - 1] == table[i]);
        assert forall|j: int| 0 <= j < i - 1 implies (#[trigger] rest[j]).0 != code by {
            assert(rest[j] == table[j + 1]);
        }
        lemma_known_code_is_first_name(rest, code, i - 1);
    }
}

/// Resolves `v` under the table `l` by linear search from the front: the
/// name of the first entry that holds `v`, borrowed from the table, or else
/// the decimal text of `v`.
pub fn enum_str(l: &[(i64, &'static str)], v: i64) -> (name: Cow<'static, str>)
    ensures
        name@ == resolved_name(l@, v),
{
    let mut i: usize = 0;
    assert(l@.skip(0) =~= l@);
    while i < l.len()
        invariant
            i <= l.len(),
            resolved_name(l@, v) == resolved_name(l@.skip(i as int), v),
        decreases l.len() - i,
    {
        if l[i].0 == v {
            assert(l@.skip(i as int)[0] == l@[i as int]);
            return Cow::Borrowed(l[i].1);
        }
        proof {
            assert(l@.skip(i as int)[0] == l@[i as int]);
            assert(l@.skip(i as int).drop_first() =~= l@.skip(i as int + 1));
        }
        i = i + 1;
    }
    assert(l@.skip(i as int).len() == 0);
    Cow::Owned(decimal_string(v))
}

/// Appends the text by which `v` is shown under the table `l` to `out`.
pub fn push_name(out: &mut String, l: &[(i64, &'static str)], v: i64)
    ensures
        final(out)@ == old(out)@ + resolved_name(l@, v),
{
    match enum_str(l, v) {
        Cow::Borrowed(name) => out.append(name),
        Cow::Owned(number) => out.append(number.as_str()),
    }
}

/// The names of the codec profiles.
pub const VAPROFILE_STR: [(i64, &'static str); 33] = [
    (-1i64, "VAProfileNone"),
    (0i64, "VAProfileMPEG2Simple"),
    (1i64, "VAProfileMPEG2Main"),
    (2i64, "VAProfileMPEG4Simple"),
    (3i64, "VAProfileMPEG4AdvancedSimple"),
    (4i64, "VAProfileMPEG4Main"),
    (5i64, "VAProfileH264Baseline"),
    (6i64, "VAProfileH264Main"),
    (7i64, "VAProfileH264High"),
    (8i64, "VAProfileVC1Simple"),
    (9i64, "VAProfileVC1Main"),
    (10i64, "VAProfileVC1Advanced"),
    (11i64, "VAProfileH263Baseline"),
    (12i64, "VAProfileJPEGBaseline"),
    (13i64, "VAProfileH264ConstrainedBaseline"),
    (14i64, "VAProfileVP8Version0_3"),
    (15i64, "VAProfileH264MultiviewHigh"),
    (16i64, "VAProfileH264StereoHigh"),
    (17i64, "VAProfileHEVCMain"),
    (18i64, "VAProfileHEVCMain10"),
    (19i64, "VAProfileVP9Profile0"),
    (20i64, "VAProfileVP9Profile1"),
    (21i64, "VAProfileVP9Profile2"),
    (22i64, "VAProfileVP9Profile3"),
    (23i64, "VAProfileHEVCMain12"),
    (24i64, "VAProfileHEVCMain422_10"),
    (25i64, "VAProfileHEVCMain422_12"),
    (26i64, "VAProfileHEVCMain444"),
    (27i64, "VAProfileHEVCMain444_10"),
    (28i64, "VAProfileHEVCMain444_12"),
    (29i64, "VAProfileHEVCSccMain"),
    (30i64, "VAProfileHEVCSccMain10"),
    (31i64, "VAProfileHEVCSccMain444"),
];

/// The names of the operation modes that a profile can offer.
pub const VAENTRYPOINT_STR: [(i64, &'static str); 11] = [
    (1i64, "VAEntrypointVLD"),
    (2i64, "VAEntrypointIZZ"),
    (3i64, "VAEntrypointIDCT"),
    (4i64, "VAEntrypointMoComp"),
    (5i64, "VAEntrypointDeblocking"),
    (6i64, "VAEntrypointEncSlice"),
    (7i64, "VAEntrypointEncPicture"),
    (8i64, "VAEntrypointEncSliceLP"),
    (10i64, "VAEntrypointVideoProc"),
    (11i64, "VAEntrypointFEI"),
    (12i64, "VAEntrypointStats"),
];

/// The names of the configuration attribute kinds.
pub const VACONFIGATTRIB_STR: [(i64, &'static str); 37] = [
    (0i64, "VAConfigAttribRTFormat"),
    (1i64, "VAConfigAttribSpatialResidual"),
    (2i64, "VAConfigAttribSpatialClipping"),
    (3i64, "VAConfigAttribIntraResidual"),
    (4i64, "VAConfigAttribEncryption"),
    (5i64, "VAConfigAttribRateControl"),
    (6i64, "VAConfigAttribDecSliceMode"),
    (7i64, "VAConfigAttribDecJPEG"),
    (8i64, "VAConfigAttribDecProcessing"),
    (10i64, "VAConfigAttribEncPackedHeaders"),
    (11i64, "VAConfigAttribEncInterlaced"),
    (13i64, "VAConfigAttribEncMaxRefFrames"),
    (14i64, "VAConfigAttribEncMaxSlices"),
    (15i64, "VAConfigAttribEncSliceStructure"),
    (16i64, "VAConfigAttribEncMacroblockInfo"),
    (18i64, "VAConfigAttribMaxPictureWidth"),
    (19i64, "VAConfigAttribMaxPictureHeight"),
    (20i64, "VAConfigAttribEncJPEG"),
    (21i64, "VAConfigAttribEncQualityRange"),
    (22i64, "VAConfigAttribEncQuantization"),
    (23i64, "VAConfigAttribEncIntraRefresh"),
    (24i64, "VAConfigAttribEncSkipFrame"),
    (25i64, "VAConfigAttribEncROI"),
    (26i64, "VAConfigAttribEncRateControlExt"),
    (27i64, "VAConfigAttribProcessingRate"),
    (28i64, "VAConfigAttribEncDirtyRect"),
    (29i64, "VAConfigAttribEncParallelRateControl"),
    (30i64, "VAConfigAttribEncDynamicScaling"),
    (31i64, "VAConfigAttribFrameSizeToleranceSupport"),
    (32i64, "VAConfigAttribFEIFunctionType"),
    (33i64, "VAConfigAttribFEIMVPredictors"),
    (34i64, "VAConfigAttribStats"),
    (35i64, "VAConfigAttribEncTileSupport"),
    (36i64, "VAConfigAttribCustomRoundingControl"),
    (37i64, "VAConfigAttribQPBlockSize"),
    (38i64, "VAConfigAttribMaxFrameSize"),
    (39i64, "VAConfigAttribTypeMax"),
];

/// The names of the surface attribute kinds. The kind of an unused slot has none.
pub const VASURFACEATTRIB_STR: [(i64, &'static str); 9] = [
    (1i64, "VASurfaceAttribPixelFormat"),
    (2i64, "VASurfaceAttribMinWidth"),
    (3i64, "VASurfaceAttribMaxWidth"),
    (4i64, "VASurfaceAttribMinHeight"),
    (5i64, "VASurfaceAttribMaxHeight"),
    (6i64, "VASurfaceAttribMemoryType"),
    (7i64, "VASurfaceAttribExternalBufferDescriptor"),
    (8i64, "VASurfaceAttribUsageHint"),
    (9i64, "VASurfaceAttribCount"),
];

} // verus!
