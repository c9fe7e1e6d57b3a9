//! The capability report: an ordered list of items on three levels, profile,
//! entry point and attribute, each of which reads as one line.

use crate::attrib::{
    config_attrib_text, is_in_use, is_supported, surface_attrib_text, ConfigAttrib, SurfaceAttrib,
};
use crate::names::{push_name, resolved_name, VAENTRYPOINT_STR, VAPROFILE_STR};
use vstd::prelude::*;
use vstd::string::StringExecFns;

verus! {

/// One line of the report.
#[derive(Clone, Copy, Debug, PartialEq, Eq, Structural)]
pub enum ReportItem {
    /// The header of a profile.
    Profile(i32),
    /// The header of an entry point, under the profile that it belongs to.
    EntryPoint { profile: i32, entry_point: u32 },
    /// A configuration attribute of the entry point above it.
    Config(ConfigAttrib),
    /// A surface attribute of the entry point above it.
    Surface(SurfaceAttrib),
}

/// The line that an item reads as, without the line break.
pub open spec fn item_text(item: ReportItem) -> Seq<char> {
    match item {
        ReportItem::Profile(profile) => resolved_name(VAPROFILE_STR@, profile as i64) + ":"@,
        ReportItem::EntryPoint { profile, entry_point } => "\t"@ + resolved_name(
            VAENTRYPOINT_STR@,
            entry_point as i64,
        ) + ":"@,
        ReportItem::Config(a) => config_attrib_text(a),
        ReportItem::Surface(a) => surface_attrib_text(a),
    }
}

/// The lines of a report, in order.
pub open spec fn report_text(items: Seq<ReportItem>) -> Seq<Seq<char>> {
    items.map_values(|item: ReportItem| item_text(item))
}

/// The items of a list of configuration attributes.
pub open spec fn config_items(attribs: Seq<ConfigAttrib>) -> Seq<ReportItem> {
    attribs.map_values(|a: ConfigAttrib| ReportItem::Config(a))
}

/// The items of a list of surface attributes.
pub open spec fn surface_items(attribs: Seq<SurfaceAttrib>) -> Seq<ReportItem> {
    attribs.map_values(|a: SurfaceAttrib| ReportItem::Surface(a))
}

/// The items of one entry point: its header, its configuration attributes,
/// then its surface attributes.
pub open spec fn branch_items(
    profile: i32,
    entry_point: u32,
    config: Seq<ConfigAttrib>,
    surface: Seq<SurfaceAttrib>,
) -> Seq<ReportItem> {
    seq![ReportItem::EntryPoint { profile, entry_point }] + config_items(config) + surface_items(
        surface,
    )
}

/// Whether the report has the entry point `entry_point` under the profile `profile`.
pub open spec fn has_branch(items: Seq<ReportItem>, profile: i32, entry_point: u32) -> bool {
    items.contains(ReportItem::EntryPoint { profile, entry_point })
}

/// Whether no configuration attribute of the report holds the "not supported" value.
pub open spec fn shows_no_sentinel(items: Seq<ReportItem>) -> bool {
    forall|i: int|
        0 <= i < items.len() ==> (#[trigger] items[i] matches ReportItem::Config(a)
            ==> is_supported(a))
}

/// Whether no surface attribute of the report marks an unused slot.
pub open spec fn shows_no_unused_slot(items: Seq<ReportItem>) -> bool {
    forall|i: int|
        0 <= i < items.len() ==> (#[trigger] items[i] matches ReportItem::Surface(a) ==> is_in_use(
            a,
        ))
}

impl ReportItem {
    /// The line that this item reads as, without the line break.
    pub fn line(&self) -> (line: String)
        ensures
            line@ == item_text(*self),
    {
        match self {
            ReportItem::Profile(profile) => {
                let mut line = String::new();
                push_name(&mut line, &VAPROFILE_STR, *profile as i64);
                line.append(":");
                line
            },
            ReportItem::EntryPoint { profile: _, entry_point } => {
                let mut line = "\t".to_owned();
                push_name(&mut line, &VAENTRYPOINT_STR, *entry_point as i64);
                line.append(":");
                line
            },
            ReportItem::Config(a) => a.line(),
            ReportItem::Surface(a) => a.line(),
        }
    }
}

/// Appends the items of one entry point to a report.
pub fn push_branch(
    items: &mut Vec<ReportItem>,
    profile: i32,
    entry_point: u32,
    config: &Vec<ConfigAttrib>,
    surface: &Vec<SurfaceAttrib>,
)
    ensures
        final(items)@ == old(items)@ + branch_items(profile, entry_point, config@, surface@),
{
    let ghost before = items@;
    items.push(ReportItem::EntryPoint { profile, entry_point });
    let ghost head = items@;
    let mut i: usize = 0;
    while i < config.len()
        invariant
            i <= config.len(),
            items@ == head + config_items(config@.take(i as int)),
        decreases config.len() - i,
    {
        items.push(ReportItem::Config(config[i]));
        assert(config_items(config@.take(i as int + 1)) =~= config_items(
            config@.take(i as int),
        ).push(ReportItem::Config(config@[i as int])));
        i = i + 1;
    }
    assert(config@.take(i as int) =~= config@);
    let ghost middle = items@;
    let mut j: usize = 0;
    while j < surface.len()
        invariant
            j <= surface.len(),
            items@ == middle + surface_items(surface@.take(j as int)),
        decreases surface.len() - j,
    {
        items.push(ReportItem::Surface(surface[j]));
        assert(surface_items(surface@.take(j as int + 1)) =~= surface_items(
            surface@.take(j as int),
        ).push(ReportItem::Surface(surface@[j as int])));
        j = j + 1;
    }
    assert(surface@.take(j as int) =~= surface@);
    assert(items@ =~= before + branch_items(profile, entry_point, config@, surface@));
}

/// The lines of a report, in order, each without its line break.
pub fn render(items: &Vec<ReportItem>) -> (lines: Vec<String>)
    ensures
        lines.deep_view() == report_text(items@),
{
    let mut lines: Vec<String> = Vec::new();
    let mut i: usize = 0;
    while i < items.len()
        invariant
            i <= items.len(),
            lines@.len() == i,
            forall|k: int| 0 <= k < i ==> (#[trigger] lines@[k])@ == item_text(items@[k]),
        decreases items.len() - i,
    {
        let line = items[i].line();
        lines.push(line);
        i = i + 1;
    }
    assert(lines.deep_view() =~= report_text(items@));
    lines
}

} // verus!
