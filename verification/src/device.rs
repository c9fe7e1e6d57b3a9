//! A model of the device, and what the traversal makes of it.
//!
//! The model gives the answer of the device to each native query. From it the
//! report that the device deserves is defined directly, and the traversal is
//! shown to arrive at that report whenever each reply that it is handed is
//! the device's answer to the query that it asked for.

use crate::attrib::{seeded_attribs, ConfigAttrib, SurfaceAttrib};
use crate::codes::succeeded;
use crate::probe::{
    capacity_for, config_attribs_reported, config_created, entry_points_listed, profiles_listed,
    surface_attribs_reported, surface_count_reported, truncated, ProbeError,
};
use crate::report::{branch_items, ReportItem};
use crate::traversal::{
    after_reply, awaits, initial, next_entry_point, next_profile, pending_request, Phase,
    ReplyView, RequestView, TraversalView,
};
use vstd::prelude::*;

verus! {

/// What an enumeration call leaves behind: its status, the buffer as the
/// device left it, and the count that the device wrote back.
pub struct Listing<T> {
    pub status: i32,
    pub buffer: Seq<T>,
    pub count: i32,
}

/// What the device answers to each native query.
pub struct Device {
    /// The largest number of profiles.
    pub max_profiles: i32,
    /// The profile query, by the size of the buffer.
    pub profiles: spec_fn(usize) -> Listing<i32>,
    /// The largest number of entry points.
    pub max_entry_points: i32,
    /// The entry point query, by profile and by the size of the buffer.
    pub entry_points: spec_fn(i32, usize) -> Listing<u32>,
    /// The batched attribute query, by profile, entry point and attribute
    /// list: the status and the list as the device leaves it.
    pub config_attribs: spec_fn(i32, u32, Seq<ConfigAttrib>) -> (i32, Seq<ConfigAttrib>),
    /// The creation of a configuration, by profile and entry point: the
    /// status and the handle.
    pub create_config: spec_fn(i32, u32) -> (i32, u32),
    /// The size query for surface attributes, by configuration: the status
    /// and the count.
    pub surface_attrib_count: spec_fn(u32) -> (i32, u32),
    /// The fill query for surface attributes, by configuration and by the
    /// size of the buffer: the status and the buffer as the device leaves it.
    pub surface_attribs: spec_fn(u32, usize) -> (i32, Seq<SurfaceAttrib>),
}

impl Device {
    /// The reply of the device to a query.
    pub open spec fn answer(self, request: RequestView) -> ReplyView {
        match request {
            RequestView::MaxProfiles => ReplyView::Limit { value: self.max_profiles },
            RequestView::Profiles { capacity } => {
                let a = (self.profiles)(capacity);
                ReplyView::Profiles { status: a.status, buffer: a.buffer, count: a.count }
            },
            RequestView::MaxEntryPoints => ReplyView::Limit { value: self.max_entry_points },
            RequestView::EntryPoints { profile, capacity } => {
                let a = (self.entry_points)(profile, capacity);
                ReplyView::EntryPoints { status: a.status, buffer: a.buffer, count: a.count }
            },
            RequestView::ConfigAttribs { profile, entry_point, attribs } => {
                let a = (self.config_attribs)(profile, entry_point, attribs);
                ReplyView::ConfigAttribs { status: a.0, attribs: a.1 }
            },
            RequestView::CreateConfig { profile, entry_point } => {
                let a = (self.create_config)(profile, entry_point);
                ReplyView::Config { status: a.0, handle: a.1 }
            },
            RequestView::SurfaceAttribCount { config } => {
                let a = (self.surface_attrib_count)(config);
                ReplyView::SurfaceAttribCount { status: a.0, count: a.1 }
            },
            RequestView::SurfaceAttribs { config, count } => {
                let a = (self.surface_attribs)(config, count);
                ReplyView::SurfaceAttribs { status: a.0, attribs: a.1 }
            },
            RequestView::Finished => ReplyView::Limit { value: 0 },
        }
    }

    /// The entry points that the device lists for `profile`, of all kinds.
    /// None where the query fails.
    pub open spec fn listed_entry_points(self, profile: i32) -> Seq<u32> {
        let a = (self.entry_points)(profile, capacity_for(self.max_entry_points));
        if succeeded(a.status) {
            truncated(a.buffer, a.count as int)
        } else {
            Seq::empty()
        }
    }

    /// The profiles that the device lists.
    pub open spec fn listed_profiles(self) -> Result<Seq<i32>, ProbeError> {
        let a = (self.profiles)(capacity_for(self.max_profiles));
        profiles_listed(a.status, a.buffer, a.count)
    }

    /// The encode entry points that the device lists for `profile`. None
    /// where the query fails.
    pub open spec fn encode_entry_points(self, profile: i32) -> Seq<u32> {
        let a = (self.entry_points)(profile, capacity_for(self.max_entry_points));
        match entry_points_listed(a.status, a.buffer, a.count) {
            Ok(entry_points) => entry_points,
            Err(_) => Seq::empty(),
        }
    }

    /// The configuration attributes that the device exposes for the pair.
    pub open spec fn config_attribs_of(self, profile: i32, entry_point: u32) -> Result<
        Seq<ConfigAttrib>,
        ProbeError,
    > {
        let a = (self.config_attribs)(profile, entry_point, seeded_attribs());
        config_attribs_reported(a.0, a.1)
    }

    /// The configuration that the device creates for the pair.
    pub open spec fn config_of(self, profile: i32, entry_point: u32) -> Result<u32, ProbeError> {
        let a = (self.create_config)(profile, entry_point);
        config_created(a.0, a.1)
    }

    /// The number of surface attributes that the device reports for a configuration.
    pub open spec fn surface_count_of(self, config: u32) -> Result<usize, ProbeError> {
        let a = (self.surface_attrib_count)(config);
        surface_count_reported(a.0, a.1)
    }

    /// The surface attributes that the two queries yield for a configuration:
    /// first the size, then the fill of a buffer of that size.
    pub open spec fn surface_attribs_of(self, config: u32) -> Result<
        Seq<SurfaceAttrib>,
        ProbeError,
    > {
        match self.surface_count_of(config) {
            Ok(count) => {
                let a = (self.surface_attribs)(config, count);
                surface_attribs_reported(a.0, a.1, count)
            },
            Err(e) => Err(e),
        }
    }

    /// Whether every query for the pair succeeds: the batched attribute
    /// query, the creation of a configuration with a handle other than
    /// "none", and both surface attribute queries.
    pub open spec fn probes(self, profile: i32, entry_point: u32) -> bool {
        &&& self.config_attribs_of(profile, entry_point) is Ok
        &&& self.config_of(profile, entry_point) is Ok
        &&& self.surface_attribs_of(self.config_of(profile, entry_point)->Ok_0) is Ok
    }

    /// The items of the pair in the report: none unless every query for it succeeds.
    pub open spec fn branch(self, profile: i32, entry_point: u32) -> Seq<ReportItem> {
        if self.probes(profile, entry_point) {
            branch_items(
                profile,
                entry_point,
                self.config_attribs_of(profile, entry_point)->Ok_0,
                self.surface_attribs_of(self.config_of(profile, entry_point)->Ok_0)->Ok_0,
            )
        } else {
            Seq::empty()
        }
    }

    /// The items of the first `n` of the entry points `entry_points` of `profile`.
    pub open spec fn branches(self, profile: i32, entry_points: Seq<u32>, n: int) -> Seq<
        ReportItem,
    >
        decreases n,
    {
        if n <= 0 {
            Seq::empty()
        } else {
            self.branches(profile, entry_points, n - 1) + self.branch(
                profile,
                entry_points[n - 1],
            )
        }
    }

    /// The items of a profile: none where it has no encode entry point, else
    /// its header and the items of its encode entry points.
    pub open spec fn section(self, profile: i32) -> Seq<ReportItem> {
        let entry_points = self.encode_entry_points(profile);
        if entry_points.len() == 0 {
            Seq::empty()
        } else {
            seq![ReportItem::Profile(profile)] + self.branches(
                profile,
                entry_points,
                entry_points.len() as int,
            )
        }
    }

    /// The items of the first `n` of the profiles `profiles`.
    pub open spec fn sections(self, profiles: Seq<i32>, n: int) -> Seq<ReportItem>
        decreases n,
    {
        if n <= 0 {
            Seq::empty()
        } else {
            self.sections(profiles, n - 1) + self.section(profiles[n - 1])
        }
    }

    /// The report of the device, or the reason why it has none.
    pub open spec fn report(self) -> Result<Seq<ReportItem>, ProbeError> {
        match self.listed_profiles() {
            Ok(profiles) => Ok(self.sections(profiles, profiles.len() as int)),
            Err(e) => Err(e),
        }
    }

    /// The state that the traversal is in after at most `n` further queries
    /// from the state `s`, each answered by the device.
    pub open spec fn run(self, s: TraversalView, n: nat) -> TraversalView
        decreases n,
    {
        if n == 0 || s.phase == Phase::Finished {
            s
        } else {
            self.run(after_reply(s, self.answer(pending_request(s))), (n - 1) as nat)
        }
    }

    /// The largest number of queries that a profile takes: two for its entry
    /// points, and four for each of its encode entry points.
    pub open spec fn queries_for(self, profile: i32) -> int {
        2 + 4 * (self.encode_entry_points(profile).len() as int)
    }

    /// The largest number of queries that the first `n` of `profiles` take.
    pub open spec fn queries_for_first(self, profiles: Seq<i32>, n: int) -> int
        decreases n,
    {
        if n <= 0 {
            0
        } else {
            self.queries_for_first(profiles, n - 1) + self.queries_for(profiles[n - 1])
        }
    }

    /// The largest number of queries that a traversal of the device takes.
    pub open spec fn query_bound(self) -> nat {
        match self.listed_profiles() {
            Ok(profiles) => (2 + self.queries_for_first(profiles, profiles.len() as int)) as nat,
            Err(_) => 2,
        }
    }

    /// The largest number of queries that the traversal still makes from a
    /// state that it reaches on the device.
    pub open spec fn queries_left(self, s: TraversalView) -> int {
        let rest = self.queries_for_first(s.profiles, s.profiles.len() as int)
            - self.queries_for_first(s.profiles, s.profile_idx);
        match s.phase {
            Phase::MaxProfiles => self.query_bound() as int,
            Phase::Profiles => self.query_bound() - 1,
            Phase::MaxEntryPoints => rest,
            Phase::EntryPoints => rest - 1,
            Phase::ConfigAttribs => rest - 2 - 4 * s.entry_idx,
            Phase::CreateConfig => rest - 3 - 4 * s.entry_idx,
            Phase::SurfaceAttribCount => rest - 4 - 4 * s.entry_idx,
            Phase::SurfaceAttribs => rest - 5 - 4 * s.entry_idx,
            Phase::Finished => 0,
        }
    }

    /// Whether the state is at a profile of the device's listing.
    pub open spec fn at_profile(self, s: TraversalView) -> bool {
        &&& s.failure is None
        &&& self.listed_profiles() == Ok::<Seq<i32>, ProbeError>(s.profiles)
        &&& 0 <= s.profile_idx < s.profiles.len()
    }

    /// Whether the state is at an encode entry point of the profile that it is at.
    pub open spec fn at_entry_point(self, s: TraversalView) -> bool {
        &&& self.at_profile(s)
        &&& s.entry_points == self.encode_entry_points(s.profile())
        &&& 0 <= s.entry_idx < s.entry_points.len()
    }

    /// The report up to the entry point at position `n` of the profile that
    /// the state is at.
    pub open spec fn items_up_to(self, s: TraversalView, n: int) -> Seq<ReportItem> {
        self.sections(s.profiles, s.profile_idx) + seq![ReportItem::Profile(s.profile())]
            + self.branches(s.profile(), s.entry_points, n)
    }

    /// Whether the state is one that the traversal reaches on this device:
    /// what it holds is what the device answered, and its report is the
    /// device's report as far as the traversal has come.
    pub open spec fn reaches(self, s: TraversalView) -> bool {
        match s.phase {
            Phase::MaxProfiles => s.failure is None && s.items.len() == 0,
            Phase::Profiles => {
                &&& s.failure is None
                &&& s.items.len() == 0
                &&& s.capacity == capacity_for(self.max_profiles)
            },
            Phase::MaxEntryPoints => {
                &&& self.at_profile(s)
                &&& s.items == self.sections(s.profiles, s.profile_idx)
            },
            Phase::EntryPoints => {
                &&& self.at_profile(s)
                &&& s.items == self.sections(s.profiles, s.profile_idx)
                &&& s.capacity == capacity_for(self.max_entry_points)
            },
            Phase::ConfigAttribs => {
                &&& self.at_entry_point(s)
                &&& s.items == self.items_up_to(s, s.entry_idx)
            },
            Phase::CreateConfig => {
                &&& self.at_entry_point(s)
                &&& s.items == self.items_up_to(s, s.entry_idx)
                &&& self.config_attribs_of(s.profile(), s.entry_point()) == Ok::<
                    Seq<ConfigAttrib>,
                    ProbeError,
                >(s.config_attribs)
            },
            Phase::SurfaceAttribCount => {
                &&& self.at_entry_point(s)
                &&& s.items == self.items_up_to(s, s.entry_idx)
                &&& self.config_attribs_of(s.profile(), s.entry_point()) == Ok::<
                    Seq<ConfigAttrib>,
                    ProbeError,
                >(s.config_attribs)
                &&& self.config_of(s.profile(), s.entry_point()) == Ok::<u32, ProbeError>(s.config)
            },
            Phase::SurfaceAttribs => {
                &&& self.at_entry_point(s)
                &&& s.items == self.items_up_to(s, s.entry_idx)
                &&& self.config_attribs_of(s.profile(), s.entry_point()) == Ok::<
                    Seq<ConfigAttrib>,
                    ProbeError,
                >(s.config_attribs)
                &&& self.config_of(s.profile(), s.entry_point()) == Ok::<u32, ProbeError>(s.config)
                &&& self.surface_count_of(s.config) == Ok::<usize, ProbeError>(s.surface_count)
            },
            Phase::Finished => s.outcome() == self.report(),
        }
    }
}

/// A traversal begins in a state that it reaches on every device.
pub proof fn lemma_initial_state_is_reached(d: Device)
    ensures
        d.reaches(initial()),
{
}

proof fn lemma_profile_left(d: Device, s: TraversalView)
    requires
        d.at_profile(s),
        s.items == d.sections(s.profiles, s.profile_idx + 1),
    ensures
        d.reaches(next_profile(s)),
{
}

proof fn lemma_entry_point_left(d: Device, s: TraversalView)
    requires
        d.at_entry_point(s),
        s.items == d.items_up_to(s, s.entry_idx + 1),
    ensures
        d.reaches(next_entry_point(s)),
{
    if s.entry_idx + 1 < s.entry_points.len() {
    } else {
        assert(s.items =~= d.sections(s.profiles, s.profile_idx) + d.section(s.profile()));
        lemma_profile_left(d, s);
    }
}

/// Each reply that is the device's answer to the pending query takes a state
/// that the traversal reaches on the device to another such state.
pub proof fn lemma_next_state_is_reached(d: Device, s: TraversalView)
    requires
        d.reaches(s),
        s.phase != Phase::Finished,
    ensures
        awaits(s, d.answer(pending_request(s))),
        d.reaches(after_reply(s, d.answer(pending_request(s)))),
{
    let r = d.answer(pending_request(s));
    let t = after_reply(s, r);
    match s.phase {
        Phase::MaxProfiles => {},
        Phase::Profiles => {
            if t.failure is None {
                assert(t.items =~= d.sections(t.profiles, 0));
            }
        },
        Phase::MaxEntryPoints => {},
        Phase::EntryPoints => {
            let entry_points = d.encode_entry_points(s.profile());
            if entry_points.len() > 0 {
                assert(t.items =~= d.items_up_to(t, 0));
            } else {
                assert(s.items =~= d.sections(s.profiles, s.profile_idx + 1));
                lemma_profile_left(d, s);
            }
        },
        Phase::ConfigAttribs => {
            if d.config_attribs_of(s.profile(), s.entry_point()) is Err {
                assert(s.items =~= d.items_up_to(s, s.entry_idx + 1));
                lemma_entry_point_left(d, s);
            }
        },
        Phase::CreateConfig => {
            if d.config_of(s.profile(), s.entry_point()) is Err {
                assert(s.items =~= d.items_up_to(s, s.entry_idx + 1));
                lemma_entry_point_left(d, s);
            }
        },
        Phase::SurfaceAttribCount => {
            if d.surface_count_of(s.config) is Err {
                assert(s.items =~= d.items_up_to(s, s.entry_idx + 1));
                lemma_entry_point_left(d, s);
            }
        },
        Phase::SurfaceAttribs => {
            let a = (d.surface_attribs)(s.config, s.surface_count);
            match surface_attribs_reported(a.0, a.1, s.surface_count) {
                Ok(kept) => {
                    let u = TraversalView {
                        items: s.items + branch_items(
                            s.profile(),
                            s.entry_point(),
                            s.config_attribs,
                            kept,
                        ),
                        ..s
                    };
                    assert(u.items =~= d.items_up_to(u, u.entry_idx + 1));
                    lemma_entry_point_left(d, u);
                },
                Err(_) => {
                    assert(s.items =~= d.items_up_to(s, s.entry_idx + 1));
                    lemma_entry_point_left(d, s);
                },
            }
        },
        Phase::Finished => {},
    }
}

proof fn lemma_queries_grow(d: Device, profiles: Seq<i32>, m: int, n: int)
    requires
        0 <= m <= n,
    ensures
        0 <= d.queries_for_first(profiles, m) <= d.queries_for_first(profiles, n),
    decreases n,
{
    if m < n {
        lemma_queries_grow(d, profiles, m, n - 1);
    } else if n > 0 {
        lemma_queries_grow(d, profiles, m - 1, n - 1);
    }
}

/// Each reply that is the device's answer to the pending query brings the
/// traversal nearer to its end.
pub proof fn lemma_step_makes_progress(d: Device, s: TraversalView)
    requires
        d.reaches(s),
        s.phase != Phase::Finished,
    ensures
        0 <= d.queries_left(after_reply(s, d.answer(pending_request(s)))) < d.queries_left(s),
{
    let t = after_reply(s, d.answer(pending_request(s)));
    lemma_next_state_is_reached(d, s);
    match d.listed_profiles() {
        Ok(profiles) => {
            let listed = profiles.len() as int;
            lemma_queries_grow(d, profiles, 0, listed);
            if s.in_profile() {
                lemma_queries_grow(d, profiles, s.profile_idx + 1, listed);
            }
            if t.in_profile() {
                lemma_queries_grow(d, profiles, t.profile_idx + 1, listed);
            }
        },
        Err(_) => {},
    }
}

/// A traversal that is handed the device's answer to each of its queries is
/// over after no more queries than the device's bound, with the report of the
/// device, or with the device's reason for having none.
pub proof fn lemma_run_ends_with_report(d: Device, s: TraversalView, n: nat)
    requires
        d.reaches(s),
        d.queries_left(s) <= n,
    ensures
        d.run(s, n).phase == Phase::Finished,
        d.run(s, n).outcome() == d.report(),
    decreases n,
{
    if s.phase != Phase::Finished {
        lemma_next_state_is_reached(d, s);
        lemma_step_makes_progress(d, s);
        lemma_run_ends_with_report(
            d,
            after_reply(s, d.answer(pending_request(s))),
            (n - 1) as nat,
        );
    }
}

/// Where the traversal is over, its report is the report of the device, and
/// it has none for the device's own reason.
pub proof fn lemma_finished_reports_device(d: Device, s: TraversalView)
    requires
        d.reaches(s),
        s.phase == Phase::Finished,
    ensures
        s.outcome() == d.report(),
{
}

} // verus!
