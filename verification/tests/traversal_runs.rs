use vaenc_caps::attrib::{seed_config_attribs, ConfigAttrib, SurfaceAttrib};
use vaenc_caps::probe::ProbeError;
use vaenc_caps::report::{render, ReportItem};
use vaenc_caps::traversal::{Phase, Reply, Request, Traversal, UnexpectedReply};

const NV12: i32 = 0x3231_564E;

/// What a device under test answers for one pair of profile and entry point.
#[derive(Clone, Debug)]
struct Pair {
    profile: i32,
    entry_point: u32,
    attribs_status: i32,
    attribs: Vec<(u32, u32)>,
    config_status: i32,
    config: u32,
    count_status: i32,
    count: u32,
    fill_status: i32,
    surface: Vec<SurfaceAttrib>,
}

/// A device under test.
#[derive(Clone, Debug)]
struct Mock {
    max_profiles: i32,
    profiles_status: i32,
    profiles: Vec<i32>,
    max_entry_points: i32,
    entry_points: Vec<(i32, i32, Vec<u32>)>,
    pairs: Vec<Pair>,
}

fn pair(profile: i32, entry_point: u32, config: u32) -> Pair {
    Pair {
        profile,
        entry_point,
        attribs_status: 0,
        attribs: vec![(13, 0x0002_0005), (18, 4096), (19, 2304), (10, 0x1f)],
        config_status: 0,
        config,
        count_status: 0,
        count: 3,
        fill_status: 0,
        surface: vec![
            SurfaceAttrib { kind: 1, value: NV12 },
            SurfaceAttrib { kind: 6, value: 3 },
            SurfaceAttrib { kind: 3, value: 4096 },
        ],
    }
}

fn one_profile_device(entry_points: Vec<u32>, pairs: Vec<Pair>) -> Mock {
    Mock {
        max_profiles: 16,
        profiles_status: 0,
        profiles: vec![7],
        max_entry_points: 10,
        entry_points: vec![(7, 0, entry_points)],
        pairs,
    }
}

fn padded<T: Clone>(mut written: Vec<T>, capacity: usize, blank: T) -> Vec<T> {
    while written.len() < capacity {
        written.push(blank.clone());
    }
    written
}

fn answer(device: &Mock, request: &Request, asked: &mut Vec<String>) -> Reply {
    asked.push(format!("{:?}", request));
    match request {
        Request::MaxProfiles => Reply::Limit { value: device.max_profiles },
        Request::Profiles { capacity } => Reply::Profiles {
            status: device.profiles_status,
            buffer: padded(device.profiles.clone(), *capacity, 0),
            count: device.profiles.len() as i32,
        },
        Request::MaxEntryPoints => Reply::Limit { value: device.max_entry_points },
        Request::EntryPoints { profile, capacity } => {
            let found = device.entry_points.iter().find(|e| e.0 == *profile);
            match found {
                Some(e) => Reply::EntryPoints {
                    status: e.1,
                    buffer: padded(e.2.clone(), *capacity, 0),
                    count: e.2.len() as i32,
                },
                None => Reply::EntryPoints { status: 12, buffer: vec![0; *capacity], count: 0 },
            }
        },
        Request::ConfigAttribs { profile, entry_point, attribs } => {
            let found = device
                .pairs
                .iter()
                .find(|p| p.profile == *profile && p.entry_point == *entry_point);
            let mut answered = Vec::new();
            for a in attribs.iter() {
                let value = found
                    .and_then(|p| p.attribs.iter().find(|v| v.0 == a.kind))
                    .map(|v| v.1)
                    .unwrap_or(a.value);
                answered.push(ConfigAttrib { kind: a.kind, value });
            }
            Reply::ConfigAttribs {
                status: found.map(|p| p.attribs_status).unwrap_or(1),
                attribs: answered,
            }
        },
        Request::CreateConfig { profile, entry_point } => {
            let found = device
                .pairs
                .iter()
                .find(|p| p.profile == *profile && p.entry_point == *entry_point);
            Reply::Config {
                status: found.map(|p| p.config_status).unwrap_or(1),
                handle: found.map(|p| p.config).unwrap_or(0),
            }
        },
        Request::SurfaceAttribCount { config } => {
            let found = device.pairs.iter().find(|p| p.config == *config);
            Reply::SurfaceAttribCount {
                status: found.map(|p| p.count_status).unwrap_or(1),
                count: found.map(|p| p.count).unwrap_or(0),
            }
        },
        Request::SurfaceAttribs { config, count } => {
            let found = device.pairs.iter().find(|p| p.config == *config);
            Reply::SurfaceAttribs {
                status: found.map(|p| p.fill_status).unwrap_or(1),
                attribs: padded(
                    found.map(|p| p.surface.clone()).unwrap_or(Vec::new()),
                    *count,
                    SurfaceAttrib { kind: 0, value: 0 },
                ),
            }
        },
        Request::Finished => unreachable!("nothing is asked once the traversal is over"),
    }
}

/// Drives a traversal over the device and returns it with the queries made.
fn traverse(device: &Mock) -> (Traversal, Vec<String>) {
    let mut traversal = Traversal::new();
    let mut asked = Vec::new();
    let mut steps = 0;
    while !traversal.is_finished() {
        let request = traversal.pending();
        let reply = answer(device, &request, &mut asked);
        assert_eq!(traversal.step(reply), Ok(()));
        steps += 1;
        assert!(steps < 1000);
    }
    assert_eq!(traversal.pending(), Request::Finished);
    (traversal, asked)
}

fn lines_of(device: &Mock) -> Vec<String> {
    let (traversal, _) = traverse(device);
    render(traversal.report().expect("the profile query succeeds"))
}

#[test]
fn a_traversal_begins_by_asking_for_the_largest_profile_count() {
    let t = Traversal::new();
    assert_eq!(t.phase(), Phase::MaxProfiles);
    assert!(!t.is_finished());
    assert_eq!(t.pending(), Request::MaxProfiles);
    assert_eq!(t.report(), Ok(&Vec::new()));
}

#[test]
fn the_profile_buffer_has_the_size_of_the_limit() {
    let mut t = Traversal::new();
    assert_eq!(t.step(Reply::Limit { value: 16 }), Ok(()));
    assert_eq!(t.pending(), Request::Profiles { capacity: 16 });
    let mut t = Traversal::new();
    assert_eq!(t.step(Reply::Limit { value: -3 }), Ok(()));
    assert_eq!(t.pending(), Request::Profiles { capacity: 0 });
}

#[test]
fn four_profiles_written_into_sixteen_slots_are_four_profiles() {
    let mut t = Traversal::new();
    assert_eq!(t.step(Reply::Limit { value: 16 }), Ok(()));
    let mut buffer = vec![0i32; 16];
    buffer[0] = 5;
    buffer[1] = 6;
    buffer[2] = 7;
    buffer[3] = 13;
    assert_eq!(t.step(Reply::Profiles { status: 0, buffer, count: 4 }), Ok(()));
    let mut seen = Vec::new();
    while !t.is_finished() {
        assert_eq!(t.pending(), Request::MaxEntryPoints);
        assert_eq!(t.step(Reply::Limit { value: 2 }), Ok(()));
        match t.pending() {
            Request::EntryPoints { profile, capacity } => {
                assert_eq!(capacity, 2);
                seen.push(profile);
            },
            other => panic!("unexpected request {:?}", other),
        }
        assert_eq!(t.step(Reply::EntryPoints { status: 12, buffer: vec![0, 0], count: 0 }), Ok(()));
    }
    assert_eq!(seen, vec![5, 6, 7, 13]);
    assert_eq!(t.report(), Ok(&Vec::new()));
}

#[test]
fn a_failed_profile_query_ends_the_traversal_without_a_report() {
    let mut device = one_profile_device(vec![6], vec![pair(7, 6, 1)]);
    device.profiles_status = 1;
    let (t, asked) = traverse(&device);
    assert_eq!(t.report(), Err(ProbeError::QueryFailure));
    assert_eq!(asked.len(), 2);
}

#[test]
fn a_device_without_profiles_has_an_empty_report() {
    let mut device = one_profile_device(vec![6], vec![pair(7, 6, 1)]);
    device.profiles = vec![];
    let (t, asked) = traverse(&device);
    assert_eq!(t.report(), Ok(&Vec::new()));
    assert_eq!(asked.len(), 2);
}

#[test]
fn one_encode_entry_point_gives_header_and_attributes() {
    let device = one_profile_device(vec![1, 6, 10], vec![pair(7, 6, 21)]);
    assert_eq!(
        lines_of(&device),
        vec![
            "VAProfileH264High:",
            "\tVAEntrypointEncSlice:",
            "\t\tVAConfigAttribEncMaxRefFrames: P-Frames: 5, B-Frames: 2",
            "\t\tVAConfigAttribMaxPictureWidth:4096",
            "\t\tVAConfigAttribMaxPictureHeight:2304",
            "\t\tVAConfigAttribEncPackedHeaders:31",
            "\t\tVASurfaceAttribPixelFormat:NV12",
            "\t\tVASurfaceAttribMemoryType:0b11",
            "\t\tVASurfaceAttribMaxWidth:4096",
        ]
    );
}

#[test]
fn the_queries_of_a_branch_come_in_order() {
    let device = one_profile_device(vec![6], vec![pair(7, 6, 21)]);
    let (_, asked) = traverse(&device);
    assert_eq!(
        asked,
        vec![
            format!("{:?}", Request::MaxProfiles),
            format!("{:?}", Request::Profiles { capacity: 16 }),
            format!("{:?}", Request::MaxEntryPoints),
            format!("{:?}", Request::EntryPoints { profile: 7, capacity: 10 }),
            format!(
                "{:?}",
                Request::ConfigAttribs {
                    profile: 7,
                    entry_point: 6,
                    attribs: seed_config_attribs()
                }
            ),
            format!("{:?}", Request::CreateConfig { profile: 7, entry_point: 6 }),
            format!("{:?}", Request::SurfaceAttribCount { config: 21 }),
            format!("{:?}", Request::SurfaceAttribs { config: 21, count: 3 }),
        ]
    );
}

#[test]
fn entry_points_that_do_not_encode_are_not_probed() {
    let device = one_profile_device(vec![1, 2, 3, 4, 5, 7, 10, 11, 12], vec![pair(7, 1, 21)]);
    let (t, asked) = traverse(&device);
    assert_eq!(t.report(), Ok(&Vec::new()));
    assert_eq!(asked.len(), 4);
}

#[test]
fn an_unsupported_profile_is_passed_over() {
    let mut device = one_profile_device(vec![6], vec![pair(7, 6, 21), pair(17, 6, 22)]);
    device.profiles = vec![7, 17];
    device.entry_points = vec![(7, 12, vec![6]), (17, 0, vec![6])];
    let lines = lines_of(&device);
    assert_eq!(lines[0], "VAProfileHEVCMain:");
    assert_eq!(lines[1], "\tVAEntrypointEncSlice:");
    assert_eq!(lines.len(), 9);
}

#[test]
fn a_failed_entry_point_query_passes_the_profile_over() {
    let mut device = one_profile_device(vec![6], vec![pair(7, 6, 21), pair(17, 8, 22)]);
    device.profiles = vec![7, 17];
    device.entry_points = vec![(7, 1, vec![6]), (17, 0, vec![8])];
    let lines = lines_of(&device);
    assert_eq!(lines[0], "VAProfileHEVCMain:");
    assert_eq!(lines[1], "\tVAEntrypointEncSliceLP:");
    assert_eq!(lines.len(), 9);
}

#[test]
fn a_failed_attribute_query_leaves_the_branch_out_and_goes_on() {
    let mut failing = pair(7, 6, 21);
    failing.attribs_status = 1;
    let device = one_profile_device(vec![6, 8], vec![failing, pair(7, 8, 22)]);
    let (t, asked) = traverse(&device);
    let items = t.report().expect("the profile query succeeds");
    assert_eq!(items[0], ReportItem::Profile(7));
    assert_eq!(items[1], ReportItem::EntryPoint { profile: 7, entry_point: 8 });
    assert!(!items.contains(&ReportItem::EntryPoint { profile: 7, entry_point: 6 }));
    assert_eq!(items.len(), 9);
    let creation = format!("{:?}", Request::CreateConfig { profile: 7, entry_point: 6 });
    assert!(!asked.contains(&creation));
}

#[test]
fn a_failed_creation_leaves_the_branch_out_and_goes_on() {
    let mut failing = pair(7, 6, 21);
    failing.config_status = 1;
    let device = one_profile_device(vec![6, 8], vec![failing, pair(7, 8, 22)]);
    let (t, asked) = traverse(&device);
    let items = t.report().expect("the profile query succeeds");
    assert!(!items.contains(&ReportItem::EntryPoint { profile: 7, entry_point: 6 }));
    assert!(items.contains(&ReportItem::EntryPoint { profile: 7, entry_point: 8 }));
    assert!(!asked.contains(&format!("{:?}", Request::SurfaceAttribCount { config: 21 })));
}

#[test]
fn a_configuration_without_handle_leaves_the_branch_out() {
    let device = one_profile_device(vec![6, 8], vec![pair(7, 6, 0), pair(7, 8, 22)]);
    let (t, asked) = traverse(&device);
    let items = t.report().expect("the profile query succeeds");
    assert!(!items.contains(&ReportItem::EntryPoint { profile: 7, entry_point: 6 }));
    assert!(items.contains(&ReportItem::EntryPoint { profile: 7, entry_point: 8 }));
    assert!(!asked.contains(&format!("{:?}", Request::SurfaceAttribCount { config: 0 })));
}

#[test]
fn a_failed_size_query_gives_no_surface_attributes_and_no_branch() {
    let mut failing = pair(7, 6, 21);
    failing.count_status = 1;
    let device = one_profile_device(vec![6, 8], vec![failing, pair(7, 8, 22)]);
    let (t, asked) = traverse(&device);
    let items = t.report().expect("the profile query succeeds");
    assert!(!items.contains(&ReportItem::EntryPoint { profile: 7, entry_point: 6 }));
    assert!(items.contains(&ReportItem::EntryPoint { profile: 7, entry_point: 8 }));
    assert_eq!(items.len(), 9);
    assert!(!asked.contains(&format!("{:?}", Request::SurfaceAttribs { config: 21, count: 3 })));
}

#[test]
fn a_failed_fill_query_gives_no_surface_attributes_and_no_branch() {
    let mut failing = pair(7, 6, 21);
    failing.fill_status = 1;
    let device = one_profile_device(vec![6, 8], vec![failing, pair(7, 8, 22)]);
    let (t, asked) = traverse(&device);
    let items = t.report().expect("the profile query succeeds");
    assert!(!items.contains(&ReportItem::EntryPoint { profile: 7, entry_point: 6 }));
    assert!(items.contains(&ReportItem::EntryPoint { profile: 7, entry_point: 8 }));
    assert_eq!(items.len(), 9);
    assert!(asked.contains(&format!("{:?}", Request::SurfaceAttribs { config: 21, count: 3 })));
}

#[test]
fn a_profile_whose_branches_all_fail_keeps_its_header() {
    let mut failing = pair(7, 6, 21);
    failing.attribs_status = 1;
    let device = one_profile_device(vec![6], vec![failing]);
    assert_eq!(lines_of(&device), vec!["VAProfileH264High:"]);
}

#[test]
fn a_count_of_three_gives_three_surface_attributes() {
    let device = one_profile_device(vec![8], vec![pair(7, 8, 4)]);
    let (t, _) = traverse(&device);
    let items = t.report().expect("the profile query succeeds");
    let surface = items.iter().filter(|i| matches!(i, ReportItem::Surface(_))).count();
    assert_eq!(surface, 3);
}

#[test]
fn slots_that_the_fill_left_unused_are_not_reported() {
    let mut p = pair(7, 8, 4);
    p.count = 5;
    let device = one_profile_device(vec![8], vec![p]);
    let (t, _) = traverse(&device);
    let items = t.report().expect("the profile query succeeds");
    let surface = items.iter().filter(|i| matches!(i, ReportItem::Surface(_))).count();
    assert_eq!(surface, 3);
    assert!(!items.contains(&ReportItem::Surface(SurfaceAttrib { kind: 0, value: 0 })));
}

#[test]
fn an_attribute_that_keeps_the_sentinel_is_not_reported() {
    let mut p = pair(7, 6, 21);
    p.attribs = vec![(13, 0x8000_0000), (18, 1920), (22, 1)];
    let device = one_profile_device(vec![6], vec![p]);
    let lines = lines_of(&device);
    assert_eq!(
        lines[..4],
        [
            "VAProfileH264High:",
            "\tVAEntrypointEncSlice:",
            "\t\tVAConfigAttribMaxPictureWidth:1920",
            "\t\tVAConfigAttribEncQuantization:1",
        ]
    );
    assert!(lines.iter().all(|l| !l.contains("VAConfigAttribEncMaxRefFrames")));
    assert!(lines.iter().all(|l| !l.contains("2147483648")));
}

#[test]
fn a_pixel_format_that_does_not_decode_costs_one_line_only() {
    let mut p = pair(7, 6, 21);
    p.surface = vec![
        SurfaceAttrib { kind: 1, value: -1 },
        SurfaceAttrib { kind: 1, value: NV12 },
        SurfaceAttrib { kind: 6, value: 1 },
    ];
    let device = one_profile_device(vec![6], vec![p]);
    let lines = lines_of(&device);
    assert_eq!(
        lines[6..],
        [
            "\t\tVASurfaceAttribPixelFormat:DecodeError",
            "\t\tVASurfaceAttribPixelFormat:NV12",
            "\t\tVASurfaceAttribMemoryType:0b1",
        ]
    );
}

#[test]
fn several_profiles_and_entry_points_in_order() {
    let mut second = pair(7, 8, 22);
    second.attribs = vec![];
    second.count = 1;
    second.surface = vec![SurfaceAttrib { kind: 8, value: 0 }];
    let mut third = pair(99, 6, 23);
    third.attribs = vec![(16, 0)];
    third.count = 0;
    third.surface = vec![];
    let device = Mock {
        max_profiles: 4,
        profiles_status: 0,
        profiles: vec![7, 1, 17, 99],
        max_entry_points: 5,
        entry_points: vec![
            (7, 0, vec![1, 6, 8]),
            (1, 0, vec![1]),
            (17, 12, vec![]),
            (99, 0, vec![6]),
        ],
        pairs: vec![pair(7, 6, 21), second, third],
    };
    assert_eq!(
        lines_of(&device),
        vec![
            "VAProfileH264High:",
            "\tVAEntrypointEncSlice:",
            "\t\tVAConfigAttribEncMaxRefFrames: P-Frames: 5, B-Frames: 2",
            "\t\tVAConfigAttribMaxPictureWidth:4096",
            "\t\tVAConfigAttribMaxPictureHeight:2304",
            "\t\tVAConfigAttribEncPackedHeaders:31",
            "\t\tVASurfaceAttribPixelFormat:NV12",
            "\t\tVASurfaceAttribMemoryType:0b11",
            "\t\tVASurfaceAttribMaxWidth:4096",
            "\tVAEntrypointEncSliceLP:",
            "\t\tVASurfaceAttribUsageHint:0",
            "99:",
            "\tVAEntrypointEncSlice:",
            "\t\tVAConfigAttribEncMacroblockInfo:0",
        ]
    );
}

#[test]
fn the_limit_of_entry_points_is_asked_for_each_profile() {
    let mut device = one_profile_device(vec![1], vec![]);
    device.profiles = vec![7, 6, 5];
    device.entry_points = vec![(7, 0, vec![1]), (6, 0, vec![1]), (5, 0, vec![1])];
    let (_, asked) = traverse(&device);
    let limits = asked.iter().filter(|q| **q == format!("{:?}", Request::MaxEntryPoints)).count();
    assert_eq!(limits, 3);
    assert_eq!(asked.len(), 8);
}

#[test]
fn a_reply_of_the_wrong_kind_is_refused_and_changes_nothing() {
    let mut t = Traversal::new();
    assert_eq!(
        t.step(Reply::Config { status: 0, handle: 1 }),
        Err(UnexpectedReply { phase: Phase::MaxProfiles })
    );
    assert_eq!(t.pending(), Request::MaxProfiles);
    assert_eq!(t.step(Reply::Limit { value: 1 }), Ok(()));
    assert_eq!(
        t.step(Reply::Limit { value: 1 }),
        Err(UnexpectedReply { phase: Phase::Profiles })
    );
    assert_eq!(
        t.step(Reply::EntryPoints { status: 0, buffer: vec![6], count: 1 }),
        Err(UnexpectedReply { phase: Phase::Profiles })
    );
    assert_eq!(t.pending(), Request::Profiles { capacity: 1 });
}

#[test]
fn a_finished_traversal_takes_no_reply() {
    let mut t = Traversal::new();
    assert_eq!(t.step(Reply::Limit { value: 0 }), Ok(()));
    assert_eq!(t.step(Reply::Profiles { status: 0, buffer: vec![], count: 0 }), Ok(()));
    assert!(t.is_finished());
    assert_eq!(t.phase(), Phase::Finished);
    assert_eq!(
        t.step(Reply::Limit { value: 0 }),
        Err(UnexpectedReply { phase: Phase::Finished })
    );
    assert_eq!(t.pending(), Request::Finished);
}
