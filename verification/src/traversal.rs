//! The traversal of the device's capabilities, as a machine that is driven
//! from outside.
//!
//! The machine names the native query to make next; the caller makes it and
//! hands the answer back. From the answer the machine decides what to keep
//! for the report and which query follows: profile by profile, and within a
//! profile one encode entry point after the other. A branch whose queries
//! fail leaves no trace in the report, and the traversal goes on behind it.

use crate::attrib::{
    is_supported, seed_config_attribs, seeded_attribs, ConfigAttrib, SurfaceAttrib,
};
use crate::probe::{
    buffer_capacity, capacity_for, config_attribs_reported, config_created, create_configuration,
    entry_points_listed, lemma_supported_attribs_hold_values, lemma_used_attribs_are_in_use,
    list_entry_points, list_profiles, probe_config_attribs, probe_surface_attribs,
    probe_surface_count, profiles_listed, surface_attribs_reported, surface_count_reported,
    truncated, ProbeError,
};
use crate::report::{
    branch_items, push_branch, shows_no_sentinel, shows_no_unused_slot, ReportItem,
};
use vstd::prelude::*;

verus! {

/// The native query that the traversal asks for.
#[derive(Debug, PartialEq, Eq)]
pub enum Request {
    /// The largest number of profiles that the device can list.
    MaxProfiles,
    /// The profiles, into a buffer of `capacity` entries.
    Profiles { capacity: usize },
    /// The largest number of entry points that a profile can have.
    MaxEntryPoints,
    /// The entry points of `profile`, into a buffer of `capacity` entries.
    EntryPoints { profile: i32, capacity: usize },
    /// The values of `attribs` for the pair, in one batched call.
    ConfigAttribs { profile: i32, entry_point: u32, attribs: Vec<ConfigAttrib> },
    /// A configuration for the pair, with no further attributes.
    CreateConfig { profile: i32, entry_point: u32 },
    /// The number of surface attributes of `config`, asked with no buffer.
    SurfaceAttribCount { config: u32 },
    /// The surface attributes of `config`, into a zeroed buffer of `count` entries.
    SurfaceAttribs { config: u32, count: usize },
    /// Nothing: the traversal is over.
    Finished,
}

/// The answer to a native query.
#[allow(inconsistent_fields)]
#[derive(Debug, PartialEq, Eq)]
pub enum Reply {
    /// A largest count, of profiles or of entry points.
    Limit { value: i32 },
    /// The status of the profile query, the buffer as the device left it, and
    /// the count that the device wrote back.
    Profiles { status: i32, buffer: Vec<i32>, count: i32 },
    /// The same for the entry point query.
    EntryPoints { status: i32, buffer: Vec<u32>, count: i32 },
    /// The status of the batched attribute query and the list as the device left it.
    ConfigAttribs { status: i32, attribs: Vec<ConfigAttrib> },
    /// The status of the creation of a configuration and the handle that it wrote.
    Config { status: i32, handle: u32 },
    /// The status of the size query for surface attributes and the count that it wrote.
    SurfaceAttribCount { status: i32, count: u32 },
    /// The status of the fill query for surface attributes and the buffer as the
    /// device left it.
    SurfaceAttribs { status: i32, attribs: Vec<SurfaceAttrib> },
}

/// The query that the traversal waits on.
#[derive(Clone, Copy, Debug, PartialEq, Eq, Structural)]
pub enum Phase {
    /// The largest number of profiles.
    MaxProfiles,
    /// The profiles.
    Profiles,
    /// The largest number of entry points, for the profile that is under way.
    MaxEntryPoints,
    /// The entry points of the profile that is under way.
    EntryPoints,
    /// The configuration attributes of the entry point that is under way.
    ConfigAttribs,
    /// A configuration for the entry point that is under way.
    CreateConfig,
    /// The number of surface attributes of that configuration.
    SurfaceAttribCount,
    /// The surface attributes of that configuration.
    SurfaceAttribs,
    /// None: the traversal is over.
    Finished,
}

/// A reply that does not answer the query that the traversal waits on.
#[derive(Clone, Copy, Debug, PartialEq, Eq, Structural)]
pub struct UnexpectedReply {
    /// The query that the traversal waits on.
    pub phase: Phase,
}

/// The mathematical value of a [`Request`].
pub enum RequestView {
    MaxProfiles,
    Profiles { capacity: usize },
    MaxEntryPoints,
    EntryPoints { profile: i32, capacity: usize },
    ConfigAttribs { profile: i32, entry_point: u32, attribs: Seq<ConfigAttrib> },
    CreateConfig { profile: i32, entry_point: u32 },
    SurfaceAttribCount { config: u32 },
    SurfaceAttribs { config: u32, count: usize },
    Finished,
}

/// The mathematical value of a [`Reply`].
#[allow(inconsistent_fields)]
pub enum ReplyView {
    Limit { value: i32 },
    Profiles { status: i32, buffer: Seq<i32>, count: i32 },
    EntryPoints { status: i32, buffer: Seq<u32>, count: i32 },
    ConfigAttribs { status: i32, attribs: Seq<ConfigAttrib> },
    Config { status: i32, handle: u32 },
    SurfaceAttribCount { status: i32, count: u32 },
    SurfaceAttribs { status: i32, attribs: Seq<SurfaceAttrib> },
}

impl View for Request {
    type V = RequestView;

    open spec fn view(&self) -> RequestView {
        match *self {
            Request::MaxProfiles => RequestView::MaxProfiles,
            Request::Profiles { capacity } => RequestView::Profiles { capacity },
            Request::MaxEntryPoints => RequestView::MaxEntryPoints,
            Request::EntryPoints { profile, capacity } => RequestView::EntryPoints {
                profile,
                capacity,
            },
            Request::ConfigAttribs { profile, entry_point, attribs } => RequestView::ConfigAttribs {
                profile,
                entry_point,
                attribs: attribs@,
            },
            Request::CreateConfig { profile, entry_point } => RequestView::CreateConfig {
                profile,
                entry_point,
            },
            Request::SurfaceAttribCount { config } => RequestView::SurfaceAttribCount { config },
            Request::SurfaceAttribs { config, count } => RequestView::SurfaceAttribs {
                config,
                count,
            },
            Request::Finished => RequestView::Finished,
        }
    }
}

impl View for Reply {
    type V = ReplyView;

    open spec fn view(&self) -> ReplyView {
        match *self {
            Reply::Limit { value } => ReplyView::Limit { value },
            Reply::Profiles { status, buffer, count } => ReplyView::Profiles {
                status,
                buffer: buffer@,
                count,
            },
            Reply::EntryPoints { status, buffer, count } => ReplyView::EntryPoints {
                status,
                buffer: buffer@,
                count,
            },
            Reply::ConfigAttribs { status, attribs } => ReplyView::ConfigAttribs {
                status,
                attribs: attribs@,
            },
            Reply::Config { status, handle } => ReplyView::Config { status, handle },
            Reply::SurfaceAttribCount { status, count } => ReplyView::SurfaceAttribCount {
                status,
                count,
            },
            Reply::SurfaceAttribs { status, attribs } => ReplyView::SurfaceAttribs {
                status,
                attribs: attribs@,
            },
        }
    }
}

/// The mathematical value of a [`Traversal`].
#[verifier::ext_equal]
pub struct TraversalView {
    /// The query that the traversal waits on.
    pub phase: Phase,
    /// Why the traversal ended without a report, if it did.
    pub failure: Option<ProbeError>,
    /// The size of the buffer of the enumeration that is under way.
    pub capacity: usize,
    /// The profiles that the device listed.
    pub profiles: Seq<i32>,
    /// The position of the profile that is under way.
    pub profile_idx: int,
    /// The encode entry points of the profile that is under way.
    pub entry_points: Seq<u32>,
    /// The position of the entry point that is under way.
    pub entry_idx: int,
    /// The configuration attributes kept for the entry point that is under way.
    pub config_attribs: Seq<ConfigAttrib>,
    /// The configuration of the entry point that is under way.
    pub config: u32,
    /// The number of surface attributes that the configuration reported.
    pub surface_count: usize,
    /// The report so far.
    pub items: Seq<ReportItem>,
}

impl TraversalView {
    /// The profile that is under way.
    pub open spec fn profile(self) -> i32 {
        self.profiles[self.profile_idx]
    }

    /// The entry point that is under way.
    pub open spec fn entry_point(self) -> u32 {
        self.entry_points[self.entry_idx]
    }

    /// Whether a profile is under way in this phase.
    pub open spec fn in_profile(self) -> bool {
        self.phase != Phase::MaxProfiles && self.phase != Phase::Profiles && self.phase
            != Phase::Finished
    }

    /// Whether an entry point is under way in this phase.
    pub open spec fn in_entry_point(self) -> bool {
        self.phase == Phase::ConfigAttribs || self.phase == Phase::CreateConfig || self.phase
            == Phase::SurfaceAttribCount || self.phase == Phase::SurfaceAttribs
    }

    /// The report of the state, or the reason why it has none.
    pub open spec fn outcome(self) -> Result<Seq<ReportItem>, ProbeError> {
        match self.failure {
            Some(e) => Err(e),
            None => Ok(self.items),
        }
    }

    /// What holds of every state of a traversal: the positions lie within
    /// their lists while they are in use, no configuration attribute that is
    /// kept or reported holds the "not supported" value, and no surface
    /// attribute that is reported marks an unused slot.
    pub open spec fn wf(self) -> bool {
        &&& self.in_profile() ==> 0 <= self.profile_idx < self.profiles.len()
        &&& self.in_entry_point() ==> 0 <= self.entry_idx < self.entry_points.len()
        &&& forall|i: int|
            0 <= i < self.config_attribs.len() ==> is_supported(#[trigger] self.config_attribs[i])
        &&& shows_no_sentinel(self.items)
        &&& shows_no_unused_slot(self.items)
    }
}

/// The state in which a traversal begins.
pub open spec fn initial() -> TraversalView {
    TraversalView {
        phase: Phase::MaxProfiles,
        failure: None,
        capacity: 0,
        profiles: Seq::empty(),
        profile_idx: 0,
        entry_points: Seq::empty(),
        entry_idx: 0,
        config_attribs: Seq::empty(),
        config: 0,
        surface_count: 0,
        items: Seq::empty(),
    }
}

/// The query that the state waits on.
pub open spec fn pending_request(s: TraversalView) -> RequestView {
    match s.phase {
        Phase::MaxProfiles => RequestView::MaxProfiles,
        Phase::Profiles => RequestView::Profiles { capacity: s.capacity },
        Phase::MaxEntryPoints => RequestView::MaxEntryPoints,
        Phase::EntryPoints => RequestView::EntryPoints {
            profile: s.profile(),
            capacity: s.capacity,
        },
        Phase::ConfigAttribs => RequestView::ConfigAttribs {
            profile: s.profile(),
            entry_point: s.entry_point(),
            attribs: seeded_attribs(),
        },
        Phase::CreateConfig => RequestView::CreateConfig {
            profile: s.profile(),
            entry_point: s.entry_point(),
        },
        Phase::SurfaceAttribCount => RequestView::SurfaceAttribCount { config: s.config },
        Phase::SurfaceAttribs => RequestView::SurfaceAttribs {
            config: s.config,
            count: s.surface_count,
        },
        Phase::Finished => RequestView::Finished,
    }
}

/// Whether the reply is of the kind that answers the query that the state waits on.
pub open spec fn awaits(s: TraversalView, r: ReplyView) -> bool {
    match s.phase {
        Phase::MaxProfiles | Phase::MaxEntryPoints => r is Limit,
        Phase::Profiles => r is Profiles,
        Phase::EntryPoints => r is EntryPoints,
        Phase::ConfigAttribs => r is ConfigAttribs,
        Phase::CreateConfig => r is Config,
        Phase::SurfaceAttribCount => r is SurfaceAttribCount,
        Phase::SurfaceAttribs => r is SurfaceAttribs,
        Phase::Finished => false,
    }
}

/// The state after the profile that is under way: at the next profile, or at the end.
pub open spec fn next_profile(s: TraversalView) -> TraversalView {
    if s.profile_idx + 1 < s.profiles.len() {
        TraversalView { phase: Phase::MaxEntryPoints, profile_idx: s.profile_idx + 1, ..s }
    } else {
        TraversalView { phase: Phase::Finished, ..s }
    }
}

/// The state after the entry point that is under way: at the next entry point
/// of the profile, or behind the profile.
pub open spec fn next_entry_point(s: TraversalView) -> TraversalView {
    if s.entry_idx + 1 < s.entry_points.len() {
        TraversalView { phase: Phase::ConfigAttribs, entry_idx: s.entry_idx + 1, ..s }
    } else {
        next_profile(s)
    }
}

/// The state that follows `s` on the reply `r`. A reply of another kind than
/// the state waits on leaves the state as it is.
pub open spec fn after_reply(s: TraversalView, r: ReplyView) -> TraversalView {
    match (s.phase, r) {
        (Phase::MaxProfiles, ReplyView::Limit { value }) => TraversalView {
            phase: Phase::Profiles,
            capacity: capacity_for(value),
            ..s
        },
        (Phase::Profiles, ReplyView::Profiles { status, buffer, count }) => match profiles_listed(
            status,
            buffer,
            count,
        ) {
            Ok(profiles) => if profiles.len() > 0 {
                TraversalView { phase: Phase::MaxEntryPoints, profiles, profile_idx: 0, ..s }
            } else {
                TraversalView { phase: Phase::Finished, profiles, profile_idx: 0, ..s }
            },
            Err(e) => TraversalView { phase: Phase::Finished, failure: Some(e), ..s },
        },
        (Phase::MaxEntryPoints, ReplyView::Limit { value }) => TraversalView {
            phase: Phase::EntryPoints,
            capacity: capacity_for(value),
            ..s
        },
        (
            Phase::EntryPoints,
            ReplyView::EntryPoints { status, buffer, count },
        ) => match entry_points_listed(status, buffer, count) {
            Ok(entry_points) => if entry_points.len() > 0 {
                TraversalView {
                    phase: Phase::ConfigAttribs,
                    entry_points,
                    entry_idx: 0,
                    items: s.items.push(ReportItem::Profile(s.profile())),
                    ..s
                }
            } else {
                next_profile(s)
            },
            Err(_) => next_profile(s),
        },
        (
            Phase::ConfigAttribs,
            ReplyView::ConfigAttribs { status, attribs },
        ) => match config_attribs_reported(status, attribs) {
            Ok(kept) => TraversalView { phase: Phase::CreateConfig, config_attribs: kept, ..s },
            Err(_) => next_entry_point(s),
        },
        (Phase::CreateConfig, ReplyView::Config { status, handle }) => match config_created(
            status,
            handle,
        ) {
            Ok(config) => TraversalView { phase: Phase::SurfaceAttribCount, config, ..s },
            Err(_) => next_entry_point(s),
        },
        (
            Phase::SurfaceAttribCount,
            ReplyView::SurfaceAttribCount { status, count },
        ) => match surface_count_reported(status, count) {
            Ok(surface_count) => TraversalView { phase: Phase::SurfaceAttribs, surface_count, ..s },
            Err(_) => next_entry_point(s),
        },
        (
            Phase::SurfaceAttribs,
            ReplyView::SurfaceAttribs { status, attribs },
        ) => match surface_attribs_reported(status, attribs, s.surface_count) {
            Ok(kept) => next_entry_point(
                TraversalView {
                    items: s.items + branch_items(
                        s.profile(),
                        s.entry_point(),
                        s.config_attribs,
                        kept,
                    ),
                    ..s
                },
            ),
            Err(_) => next_entry_point(s),
        },
        _ => s,
    }
}

/// A traversal of the device's capabilities that is under way.
pub struct Traversal {
    phase: Phase,
    failure: Option<ProbeError>,
    capacity: usize,
    profiles: Vec<i32>,
    profile_idx: usize,
    entry_points: Vec<u32>,
    entry_idx: usize,
    config_attribs: Vec<ConfigAttrib>,
    config: u32,
    surface_count: usize,
    items: Vec<ReportItem>,
}

impl View for Traversal {
    type V = TraversalView;

    closed spec fn view(&self) -> TraversalView {
        TraversalView {
            phase: self.phase,
            failure: self.failure,
            capacity: self.capacity,
            profiles: self.profiles@,
            profile_idx: self.profile_idx as int,
            entry_points: self.entry_points@,
            entry_idx: self.entry_idx as int,
            config_attribs: self.config_attribs@,
            config: self.config,
            surface_count: self.surface_count,
            items: self.items@,
        }
    }
}

impl Traversal {
    /// Whether the state is one that a traversal can be in.
    pub open spec fn wf(&self) -> bool {
        self@.wf()
    }

    /// A traversal at its beginning: it waits on the largest number of profiles.
    pub fn new() -> (t: Traversal)
        ensures
            t.wf(),
            t@ == initial(),
    {
        Traversal {
            phase: Phase::MaxProfiles,
            failure: None,
            capacity: 0,
            profiles: Vec::new(),
            profile_idx: 0,
            entry_points: Vec::new(),
            entry_idx: 0,
            config_attribs: Vec::new(),
            config: 0,
            surface_count: 0,
            items: Vec::new(),
        }
    }

    /// The query that the traversal waits on.
    pub fn phase(&self) -> (phase: Phase)
        ensures
            phase == self@.phase,
    {
        self.phase
    }

    /// Whether the traversal is over.
    pub fn is_finished(&self) -> (done: bool)
        ensures
            done == (self@.phase == Phase::Finished),
    {
        self.phase == Phase::Finished
    }

    /// The native query to make next, with what is handed to it.
    pub fn pending(&self) -> (request: Request)
        requires
            self.wf(),
        ensures
            request@ == pending_request(self@),
    {
        match self.phase {
            Phase::MaxProfiles => Request::MaxProfiles,
            Phase::Profiles => Request::Profiles { capacity: self.capacity },
            Phase::MaxEntryPoints => Request::MaxEntryPoints,
            Phase::EntryPoints => Request::EntryPoints {
                profile: self.profiles[self.profile_idx],
                capacity: self.capacity,
            },
            Phase::ConfigAttribs => Request::ConfigAttribs {
                profile: self.profiles[self.profile_idx],
                entry_point: self.entry_points[self.entry_idx],
                attribs: seed_config_attribs(),
            },
            Phase::CreateConfig => Request::CreateConfig {
                profile: self.profiles[self.profile_idx],
                entry_point: self.entry_points[self.entry_idx],
            },
            Phase::SurfaceAttribCount => Request::SurfaceAttribCount { config: self.config },
            Phase::SurfaceAttribs => Request::SurfaceAttribs {
                config: self.config,
                count: self.surface_count,
            },
            Phase::Finished => Request::Finished,
        }
    }

    /// The report so far, or the reason why the traversal ended without one.
    /// No configuration attribute in it holds the "not supported" value, and
    /// no surface attribute in it marks an unused slot.
    pub fn report(&self) -> (r: Result<&Vec<ReportItem>, ProbeError>)
        requires
            self.wf(),
        ensures
            match self@.outcome() {
                Ok(items) => r is Ok && r->Ok_0@ == items,
                Err(e) => r is Err && r->Err_0 == e,
            },
            r is Ok ==> shows_no_sentinel(r->Ok_0@) && shows_no_unused_slot(r->Ok_0@),
    {
        match self.failure {
            Some(e) => Err(e),
            None => Ok(&self.items),
        }
    }

    fn leave_profile(&mut self)
        requires
            old(self).wf(),
            old(self)@.in_profile(),
        ensures
            final(self).wf(),
            final(self)@ == next_profile(old(self)@),
    {
        let listed: usize = self.profiles.len();
        if self.profile_idx + 1 < listed {
            self.profile_idx = self.profile_idx + 1;
            self.phase = Phase::MaxEntryPoints;
        } else {
            self.phase = Phase::Finished;
        }
    }

    fn leave_entry_point(&mut self)
        requires
            old(self).wf(),
            old(self)@.in_entry_point(),
        ensures
            final(self).wf(),
            final(self)@ == next_entry_point(old(self)@),
    {
        let listed: usize = self.entry_points.len();
        if self.entry_idx + 1 < listed {
            self.entry_idx = self.entry_idx + 1;
            self.phase = Phase::ConfigAttribs;
        } else {
            self.leave_profile();
        }
    }

    /// Takes the answer to the pending query, keeps of it what belongs in the
    /// report, and moves on to the query that follows. A reply of another kind
    /// than the pending query's is refused and changes nothing.
    pub fn step(&mut self, reply: Reply) -> (r: Result<(), UnexpectedReply>)
        requires
            old(self).wf(),
        ensures
            final(self).wf(),
            awaits(old(self)@, reply@) ==> r is Ok && final(self)@ == after_reply(
                old(self)@,
                reply@,
            ),
            !awaits(old(self)@, reply@) ==> r is Err && r->Err_0.phase == old(self)@.phase
                && final(self)@ == old(self)@,
    {
        let phase = self.phase;
        match reply {
            Reply::Limit { value } => {
                if phase == Phase::MaxProfiles {
                    self.capacity = buffer_capacity(value);
                    self.phase = Phase::Profiles;
                } else if phase == Phase::MaxEntryPoints {
                    self.capacity = buffer_capacity(value);
                    self.phase = Phase::EntryPoints;
                } else {
                    return Err(UnexpectedReply { phase });
                }
            },
            Reply::Profiles { status, buffer, count } => {
                if phase != Phase::Profiles {
                    return Err(UnexpectedReply { phase });
                }
                match list_profiles(status, buffer, count) {
                    Ok(profiles) => {
                        self.phase = if profiles.len() > 0 {
                            Phase::MaxEntryPoints
                        } else {
                            Phase::Finished
                        };
                        self.profiles = profiles;
                        self.profile_idx = 0;
                    },
                    Err(e) => {
                        self.failure = Some(e);
                        self.phase = Phase::Finished;
                    },
                }
            },
            Reply::EntryPoints { status, buffer, count } => {
                if phase != Phase::EntryPoints {
                    return Err(UnexpectedReply { phase });
                }
                match list_entry_points(status, buffer, count) {
                    Ok(entry_points) => {
                        if entry_points.len() > 0 {
                            self.items.push(ReportItem::Profile(self.profiles[self.profile_idx]));
                            self.entry_points = entry_points;
                            self.entry_idx = 0;
                            self.phase = Phase::ConfigAttribs;
                        } else {
                            self.leave_profile();
                        }
                    },
                    Err(_) => {
                        self.leave_profile();
                    },
                }
            },
            Reply::ConfigAttribs { status, attribs } => {
                if phase != Phase::ConfigAttribs {
                    return Err(UnexpectedReply { phase });
                }
                proof {
                    lemma_supported_attribs_hold_values(attribs@);
                }
                match probe_config_attribs(status, attribs) {
                    Ok(kept) => {
                        self.config_attribs = kept;
                        self.phase = Phase::CreateConfig;
                    },
                    Err(_) => {
                        self.leave_entry_point();
                    },
                }
            },
            Reply::Config { status, handle } => {
                if phase != Phase::CreateConfig {
                    return Err(UnexpectedReply { phase });
                }
                match create_configuration(status, handle) {
                    Ok(config) => {
                        self.config = config;
                        self.phase = Phase::SurfaceAttribCount;
                    },
                    Err(_) => {
                        self.leave_entry_point();
                    },
                }
            },
            Reply::SurfaceAttribCount { status, count } => {
                if phase != Phase::SurfaceAttribCount {
                    return Err(UnexpectedReply { phase });
                }
                match probe_surface_count(status, count) {
                    Ok(surface_count) => {
                        self.surface_count = surface_count;
                        self.phase = Phase::SurfaceAttribs;
                    },
                    Err(_) => {
                        self.leave_entry_point();
                    },
                }
            },
            Reply::SurfaceAttribs { status, attribs } => {
                if phase != Phase::SurfaceAttribs {
                    return Err(UnexpectedReply { phase });
                }
                match probe_surface_attribs(status, attribs, self.surface_count) {
                    Ok(kept) => {
                        let profile: i32 = self.profiles[self.profile_idx];
                        let entry_point: u32 = self.entry_points[self.entry_idx];
                        proof {
                            lemma_used_attribs_are_in_use(
                                truncated(attribs@, self.surface_count as int),
                            );
                        }
                        push_branch(
                            &mut self.items,
                            profile,
                            entry_point,
                            &self.config_attribs,
                            &kept,
                        );
                        self.leave_entry_point();
                    },
                    Err(_) => {
                        self.leave_entry_point();
                    },
                }
            },
        }
        Ok(())
    }
}

} // verus!
