//! What holds of the report of every device.

use crate::attrib::{is_in_use, is_supported, seeded_attribs, ConfigAttrib, SurfaceAttrib};
use crate::codes::is_encode_entry_point;
use crate::device::{lemma_initial_state_is_reached, lemma_run_ends_with_report, Device};
use crate::probe::{
    lemma_encode_kinds, lemma_supported_attribs_hold_values, lemma_used_attribs_are_in_use,
    truncated,
};
use crate::report::{
    branch_items, config_items, has_branch, shows_no_sentinel, shows_no_unused_slot,
    surface_items, ReportItem,
};
use crate::traversal::{initial, Phase};
use vstd::prelude::*;

verus! {

/// Whether `x` is among the first `n` entries of `list`.
pub open spec fn among_first<T>(list: Seq<T>, n: int, x: T) -> bool {
    exists|k: int| 0 <= k < n && k < list.len() && #[trigger] list[k] == x
}

proof fn lemma_contains_concat<T>(a: Seq<T>, b: Seq<T>, x: T)
    ensures
        (a + b).contains(x) <==> a.contains(x) || b.contains(x),
{
    if a.contains(x) {
        let i = choose|i: int| 0 <= i < a.len() && a[i] == x;
        assert((a + b)[i] == x);
    }
    if b.contains(x) {
        let i = choose|i: int| 0 <= i < b.len() && b[i] == x;
        assert((a + b)[a.len() + i] == x);
    }
    if (a + b).contains(x) {
        let i = choose|i: int| 0 <= i < (a + b).len() && (a + b)[i] == x;
        if i < a.len() {
            assert(a[i] == x);
        } else {
            assert(b[i - a.len()] == x);
        }
    }
}

proof fn lemma_header_in_branch_items(
    profile: i32,
    entry_point: u32,
    config: Seq<ConfigAttrib>,
    surface: Seq<SurfaceAttrib>,
    p: i32,
    e: u32,
)
    ensures
        has_branch(branch_items(profile, entry_point, config, surface), p, e) <==> p == profile
            && e == entry_point,
{
    let items = branch_items(profile, entry_point, config, surface);
    let x = ReportItem::EntryPoint { profile: p, entry_point: e };
    if p == profile && e == entry_point {
        assert(items[0] == x);
    }
    if items.contains(x) {
        let i = choose|i: int| 0 <= i < items.len() && items[i] == x;
        if 1 <= i < 1 + config.len() {
            assert(items[i] == config_items(config)[i - 1]);
        } else if 1 + config.len() <= i {
            assert(items[i] == surface_items(surface)[i - 1 - config.len()]);
        }
    }
}

proof fn lemma_header_in_branches(
    d: Device,
    profile: i32,
    entry_points: Seq<u32>,
    n: int,
    p: i32,
    e: u32,
)
    requires
        0 <= n <= entry_points.len(),
    ensures
        has_branch(d.branches(profile, entry_points, n), p, e) <==> p == profile && d.probes(
            profile,
            e,
        ) && among_first(entry_points, n, e),
    decreases n,
{
    let x = ReportItem::EntryPoint { profile: p, entry_point: e };
    if n > 0 {
        let before = d.branches(profile, entry_points, n - 1);
        let last = entry_points[n - 1];
        lemma_header_in_branches(d, profile, entry_points, n - 1, p, e);
        lemma_contains_concat(before, d.branch(profile, last), x);
        if d.probes(profile, last) {
            lemma_header_in_branch_items(
                profile,
                last,
                d.config_attribs_of(profile, last)->Ok_0,
                d.surface_attribs_of(d.config_of(profile, last)->Ok_0)->Ok_0,
                p,
                e,
            );
        }
        if among_first(entry_points, n - 1, e) {
            let k = choose|k: int| 0 <= k < n - 1 && k < entry_points.len() && entry_points[k] == e;
            assert(0 <= k < n && entry_points[k] == e);
        }
        if last == e {
            assert(entry_points[n - 1] == e);
        }
        if among_first(entry_points, n, e) {
            let k = choose|k: int| 0 <= k < n && k < entry_points.len() && entry_points[k] == e;
            if k < n - 1 {
                assert(entry_points[k] == e);
            }
        }
    }
}

proof fn lemma_header_in_section(d: Device, profile: i32, p: i32, e: u32)
    ensures
        has_branch(d.section(profile), p, e) <==> p == profile && d.probes(profile, e)
            && d.encode_entry_points(profile).contains(e),
{
    let entry_points = d.encode_entry_points(profile);
    let x = ReportItem::EntryPoint { profile: p, entry_point: e };
    if entry_points.len() > 0 {
        let n = entry_points.len() as int;
        lemma_header_in_branches(d, profile, entry_points, n, p, e);
        let head = seq![ReportItem::Profile(profile)];
        lemma_contains_concat(head, d.branches(profile, entry_points, n), x);
        if head.contains(x) {
            let i = choose|i: int| 0 <= i < head.len() && head[i] == x;
            assert(head[i] == ReportItem::Profile(profile));
        }
        if entry_points.contains(e) {
            let k = choose|k: int| 0 <= k < entry_points.len() && entry_points[k] == e;
            assert(0 <= k < n && entry_points[k] == e);
        }
        if among_first(entry_points, n, e) {
            let k = choose|k: int| 0 <= k < n && k < entry_points.len() && entry_points[k] == e;
            assert(entry_points[k] == e);
        }
    }
}

proof fn lemma_header_in_sections(d: Device, profiles: Seq<i32>, n: int, p: i32, e: u32)
    requires
        0 <= n <= profiles.len(),
    ensures
        has_branch(d.sections(profiles, n), p, e) <==> among_first(profiles, n, p) && d.probes(p, e)
            && d.encode_entry_points(p).contains(e),
    decreases n,
{
    let x = ReportItem::EntryPoint { profile: p, entry_point: e };
    if n > 0 {
        let last = profiles[n - 1];
        lemma_header_in_sections(d, profiles, n - 1, p, e);
        lemma_contains_concat(d.sections(profiles, n - 1), d.section(last), x);
        lemma_header_in_section(d, last, p, e);
        if among_first(profiles, n - 1, p) {
            let k = choose|k: int| 0 <= k < n - 1 && k < profiles.len() && profiles[k] == p;
            assert(0 <= k < n && profiles[k] == p);
        }
        if last == p {
            assert(profiles[n - 1] == p);
        }
        if among_first(profiles, n, p) {
            let k = choose|k: int| 0 <= k < n && k < profiles.len() && profiles[k] == p;
            if k < n - 1 {
                assert(profiles[k] == p);
            }
        }
    }
}

proof fn lemma_header_in_report(d: Device, p: i32, e: u32)
    requires
        d.report() is Ok,
    ensures
        has_branch(d.report()->Ok_0, p, e) <==> {
            &&& d.listed_profiles()->Ok_0.contains(p)
            &&& d.listed_entry_points(p).contains(e)
            &&& is_encode_entry_point(e)
            &&& d.probes(p, e)
        },
{
    let profiles = d.listed_profiles()->Ok_0;
    let n = profiles.len() as int;
    lemma_header_in_sections(d, profiles, n, p, e);
    lemma_encode_kinds(d.listed_entry_points(p));
    if profiles.contains(p) {
        let k = choose|k: int| 0 <= k < profiles.len() && profiles[k] == p;
        assert(0 <= k < n && profiles[k] == p);
    }
    if among_first(profiles, n, p) {
        let k = choose|k: int| 0 <= k < n && k < profiles.len() && profiles[k] == p;
        assert(profiles[k] == p);
    }
}

/// Of a profile `p` that the device lists and an entry point `e` that it
/// lists for `p`: the report has `e` under `p` exactly where `e` is one of
/// the two encode kinds, the batched configuration attribute query for the
/// pair succeeds, the creation of its configuration succeeds with a handle
/// other than "none", and both surface attribute queries succeed.
pub proof fn lemma_branch_reported_iff_probed(d: Device, p: i32, e: u32)
    requires
        d.listed_profiles() is Ok,
        d.listed_profiles()->Ok_0.contains(p),
        d.listed_entry_points(p).contains(e),
    ensures
        has_branch(d.report()->Ok_0, p, e) <==> {
            &&& is_encode_entry_point(e)
            &&& d.config_attribs_of(p, e) is Ok
            &&& d.config_of(p, e) is Ok
            &&& d.surface_attribs_of(d.config_of(p, e)->Ok_0) is Ok
        },
{
    lemma_header_in_report(d, p, e);
}

/// The report has no entry point under a profile that the device does not
/// list, and none that the device does not list for the profile.
pub proof fn lemma_unlisted_pair_is_not_reported(d: Device, p: i32, e: u32)
    requires
        d.listed_profiles() is Ok,
        !d.listed_profiles()->Ok_0.contains(p) || !d.listed_entry_points(p).contains(e),
    ensures
        !has_branch(d.report()->Ok_0, p, e),
{
    lemma_header_in_report(d, p, e);
}

/// A pair for which a query fails leaves nothing in the report, and the
/// items of a pair for which none fails begin with its header.
pub proof fn lemma_branch_is_all_or_nothing(d: Device, p: i32, e: u32)
    ensures
        !d.probes(p, e) ==> d.branch(p, e).len() == 0,
        d.probes(p, e) ==> d.branch(p, e).len() >= 1 && d.branch(p, e)[0]
            == (ReportItem::EntryPoint { profile: p, entry_point: e }),
{
}

/// A count within the buffer keeps exactly that many entries, the first ones.
pub proof fn lemma_truncation_keeps_count<T>(buffer: Seq<T>, count: int)
    requires
        0 <= count <= buffer.len(),
    ensures
        truncated(buffer, count).len() == count,
        forall|i: int| 0 <= i < count ==> #[trigger] truncated(buffer, count)[i] == buffer[i],
{
}

/// Whether an item is neither a configuration attribute that holds the "not
/// supported" value nor a surface attribute that marks an unused slot.
pub open spec fn is_shown_rightly(item: ReportItem) -> bool {
    match item {
        ReportItem::Config(a) => is_supported(a),
        ReportItem::Surface(a) => is_in_use(a),
        _ => true,
    }
}

/// Whether a list of items shows only what the hardware filled in and what is in use.
pub open spec fn is_clean(items: Seq<ReportItem>) -> bool {
    shows_no_sentinel(items) && shows_no_unused_slot(items)
}

proof fn lemma_clean_concat(a: Seq<ReportItem>, b: Seq<ReportItem>)
    requires
        is_clean(a),
        is_clean(b),
    ensures
        is_clean(a + b),
{
    assert forall|i: int| 0 <= i < (a + b).len() implies is_shown_rightly(
        #[trigger] (a + b)[i],
    ) by {
        if i < a.len() {
            assert((a + b)[i] == a[i]);
        } else {
            assert((a + b)[i] == b[i - a.len()]);
        }
    }
}

proof fn lemma_branch_is_clean(d: Device, profile: i32, entry_point: u32)
    ensures
        is_clean(d.branch(profile, entry_point)),
{
    if d.probes(profile, entry_point) {
        let asked = (d.config_attribs)(profile, entry_point, seeded_attribs());
        let config = d.config_of(profile, entry_point)->Ok_0;
        let count = d.surface_count_of(config)->Ok_0;
        let filled = (d.surface_attribs)(config, count);
        lemma_supported_attribs_hold_values(asked.1);
        lemma_used_attribs_are_in_use(truncated(filled.1, count as int));
        let kept_config = d.config_attribs_of(profile, entry_point)->Ok_0;
        let kept_surface = d.surface_attribs_of(config)->Ok_0;
        let items = d.branch(profile, entry_point);
        assert forall|i: int| 0 <= i < items.len() implies is_shown_rightly(
            #[trigger] items[i],
        ) by {
            if 1 <= i < 1 + kept_config.len() {
                assert(items[i] == config_items(kept_config)[i - 1]);
            } else if 1 + kept_config.len() <= i {
                assert(items[i] == surface_items(kept_surface)[i - 1 - kept_config.len()]);
            }
        }
    }
}

proof fn lemma_branches_are_clean(d: Device, profile: i32, entry_points: Seq<u32>, n: int)
    ensures
        is_clean(d.branches(profile, entry_points, n)),
    decreases n,
{
    if n > 0 {
        lemma_branches_are_clean(d, profile, entry_points, n - 1);
        lemma_branch_is_clean(d, profile, entry_points[n - 1]);
        lemma_clean_concat(
            d.branches(profile, entry_points, n - 1),
            d.branch(profile, entry_points[n - 1]),
        );
    }
}

proof fn lemma_sections_are_clean(d: Device, profiles: Seq<i32>, n: int)
    ensures
        is_clean(d.sections(profiles, n)),
    decreases n,
{
    if n > 0 {
        let last = profiles[n - 1];
        let entry_points = d.encode_entry_points(last);
        lemma_sections_are_clean(d, profiles, n - 1);
        lemma_branches_are_clean(d, last, entry_points, entry_points.len() as int);
        lemma_clean_concat(
            seq![ReportItem::Profile(last)],
            d.branches(last, entry_points, entry_points.len() as int),
        );
        lemma_clean_concat(d.sections(profiles, n - 1), d.section(last));
    }
}

/// No configuration attribute of the report of a device holds the "not
/// supported" value.
pub proof fn lemma_report_shows_no_sentinel(d: Device)
    requires
        d.report() is Ok,
    ensures
        shows_no_sentinel(d.report()->Ok_0),
{
    let profiles = d.listed_profiles()->Ok_0;
    lemma_sections_are_clean(d, profiles, profiles.len() as int);
}

/// No surface attribute of the report of a device marks an unused slot.
pub proof fn lemma_report_shows_no_unused_slot(d: Device)
    requires
        d.report() is Ok,
    ensures
        shows_no_unused_slot(d.report()->Ok_0),
{
    let profiles = d.listed_profiles()->Ok_0;
    lemma_sections_are_clean(d, profiles, profiles.len() as int);
}

/// A traversal from the beginning that is handed the device's answer to each
/// of its queries is over within the device's bound on the queries, and ends
/// with the report of the device, or with the device's reason for having none.
pub proof fn lemma_traversal_reports_device(d: Device)
    ensures
        d.run(initial(), d.query_bound()).phase == Phase::Finished,
        d.run(initial(), d.query_bound()).outcome() == d.report(),
{
    lemma_initial_state_is_reached(d);
    lemma_run_ends_with_report(d, initial(), d.query_bound());
}

} // verus!
