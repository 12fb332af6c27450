//! The device locator: resolving the target device's mount point from a
//! fresh snapshot of the operating system's device enumeration.
//!
//! Enumeration itself is the driver's work (it runs the platform's
//! device-listing facility and collects its output); everything the output
//! is then read for happens here. Each platform's output is parsed as a
//! stream of records with transient accumulator fields, and the scan
//! short-circuits on the first record that matches the target vendor
//! identifier. On any enumeration failure the driver hands in an empty
//! snapshot, and the resolution is `None`: "not found" and "enumeration
//! failed" are indistinguishable to callers by design.

use vstd::prelude::*;
use vstd::string::StrSliceExecFns;

use crate::text::{
    char_seg1, contains_lit, eq_ignore_case, first_ws_token, lines_of, lit_at, lit_seg1,
    space_token, spec_char_seg1, spec_contains_lit, spec_eq_ignore_case, spec_find_from,
    spec_first_ws_token, spec_lines, spec_lit_seg1, spec_space_token, spec_strip_prefix_all,
    spec_trim, spec_two_ws_tokens, starts_with_lit, strip_prefix_all, trim_of, two_ws_tokens,
};
use crate::text::{chars_of, find_from};

verus! {

// ---------------------------------------------------------------------------
// The per-platform snapshots
// ---------------------------------------------------------------------------
/// One device directory of the platform's device tree, with the vendor and
/// product identifiers read from it (as read, untrimmed).
#[derive(Debug)]
pub struct SysUsbEntry {
    pub name: String,
    pub vendor_id: String,
    pub product_id: String,
}

pub struct SysUsbEntryView {
    pub name: Seq<char>,
    pub vendor_id: Seq<char>,
    pub product_id: Seq<char>,
}

impl View for SysUsbEntry {
    type V = SysUsbEntryView;

    open spec fn view(&self) -> SysUsbEntryView {
        SysUsbEntryView {
            name: self.name@,
            vendor_id: self.vendor_id@,
            product_id: self.product_id@,
        }
    }
}

impl DeepView for SysUsbEntry {
    type V = SysUsbEntryView;

    open spec fn deep_view(&self) -> SysUsbEntryView {
        self@
    }
}

/// One block device, with the device link read from it.
#[derive(Debug)]
pub struct BlockLink {
    pub name: String,
    pub target: String,
}

pub struct BlockLinkView {
    pub name: Seq<char>,
    pub target: Seq<char>,
}

impl View for BlockLink {
    type V = BlockLinkView;

    open spec fn view(&self) -> BlockLinkView {
        BlockLinkView { name: self.name@, target: self.target@ }
    }
}

impl DeepView for BlockLink {
    type V = BlockLinkView;

    open spec fn deep_view(&self) -> BlockLinkView {
        self@
    }
}

/// A fresh snapshot of the platform's device enumeration, taken by the
/// driver for one resolution and never cached.
#[derive(Debug)]
pub enum DeviceSnapshot {
    /// The USB profiler's text output.
    MacOs { usb_output: String },
    /// The drive query's text output.
    Windows { drive_output: String },
    /// The device-listing output, the device tree, the block-device links,
    /// and the mount table.
    Linux {
        lsusb_output: String,
        sys_entries: Vec<SysUsbEntry>,
        block_links: Vec<BlockLink>,
        mounts_text: String,
    },
}

pub enum DeviceSnapshotView {
    MacOs { usb_output: Seq<char> },
    Windows { drive_output: Seq<char> },
    Linux {
        lsusb_output: Seq<char>,
        sys_entries: Seq<SysUsbEntryView>,
        block_links: Seq<BlockLinkView>,
        mounts_text: Seq<char>,
    },
}

impl View for DeviceSnapshot {
    type V = DeviceSnapshotView;

    open spec fn view(&self) -> DeviceSnapshotView {
        match self {
            DeviceSnapshot::MacOs { usb_output } => DeviceSnapshotView::MacOs {
                usb_output: usb_output@,
            },
            DeviceSnapshot::Windows { drive_output } => DeviceSnapshotView::Windows {
                drive_output: drive_output@,
            },
            DeviceSnapshot::Linux { lsusb_output, sys_entries, block_links, mounts_text } => DeviceSnapshotView::Linux {
                lsusb_output: lsusb_output@,
                sys_entries: sys_entries.deep_view(),
                block_links: block_links.deep_view(),
                mounts_text: mounts_text@,
            },
        }
    }
}

// ---------------------------------------------------------------------------
// The USB profiler scan
// ---------------------------------------------------------------------------
/// One record scan over the profiler's lines, from line `i`, carrying the
/// accumulator fields: the pending vendor identifier, product identifier and
/// mount point. Each line may fill a field; a record whose three fields are
/// filled and whose vendor identifier matches ends the scan; a blank line
/// ends the record and resets the fields.
pub open spec fn spec_profiler_scan(
    lines: Seq<Seq<char>>,
    i: int,
    vid: Seq<char>,
    cur_vid: Seq<char>,
    cur_pid: Seq<char>,
    cur_mp: Option<Seq<char>>,
) -> Option<Seq<char>>
    decreases lines.len() - i,
{
    if !(0 <= i < lines.len()) {
        None
    } else {
        let l = spec_trim(lines[i]);
        let nvid = if spec_contains_lit(l, "Vendor ID:"@) {
            spec_space_token(spec_trim(spec_char_seg1(l, ':')))
        } else {
            cur_vid
        };
        let npid = if spec_contains_lit(l, "Product ID:"@) {
            spec_space_token(spec_trim(spec_char_seg1(l, ':')))
        } else {
            cur_pid
        };
        let nmp = if lit_at(l, 0, "Mount Point:"@) {
            Some(spec_trim(spec_char_seg1(l, ':')))
        } else {
            cur_mp
        };
        if nvid.len() > 0 && npid.len() > 0 && nmp is Some && spec_eq_ignore_case(nvid, vid) {
            nmp
        } else if l.len() == 0 {
            spec_profiler_scan(lines, i + 1, vid, Seq::empty(), Seq::empty(), None)
        } else {
            spec_profiler_scan(lines, i + 1, vid, nvid, npid, nmp)
        }
    }
}

/// The mount point of the first profiler record that matches the vendor
/// identifier, case-insensitively.
pub open spec fn spec_find_macos_mount_point(vid: Seq<char>, usb_output: Seq<char>) -> Option<
    Seq<char>,
> {
    spec_profiler_scan(spec_lines(usb_output), 0, vid, Seq::empty(), Seq::empty(), None)
}

/// Resolves the mount point from the USB profiler's output: scans its lines
/// as records, and returns the first record's mount point whose vendor
/// identifier equals `vid` up to case.
pub fn find_macos_mount_point(vid: &str, usb_output: &str) -> (r: Option<String>)
    ensures
        r.deep_view() == spec_find_macos_mount_point(vid@, usb_output@),
{
    let lines = lines_of(usb_output);
    let ghost lv = spec_lines(usb_output@);
    let mut cur_vid = String::new();
    let mut cur_pid = String::new();
    let mut cur_mp: Option<String> = None;
    let mut i: usize = 0;
    let n = lines.len();
    while i < n
        invariant
            i <= n == lines@.len(),
            lines.deep_view() == lv,
            spec_find_macos_mount_point(vid@, usb_output@) == spec_profiler_scan(
                lv,
                i as int,
                vid@,
                cur_vid@,
                cur_pid@,
                cur_mp.deep_view(),
            ),
        decreases n - i,
    {
        let line = &lines[i];
        proof {
            assert(lv[i as int] == lines@[i as int]@);
        }
        let l = trim_of(line.as_str());
        let nvid = if contains_lit(l.as_str(), "Vendor ID:") {
            let seg = char_seg1(l.as_str(), ':');
            let t = trim_of(seg.as_str());
            space_token(t.as_str())
        } else {
            cur_vid
        };
        let npid = if contains_lit(l.as_str(), "Product ID:") {
            let seg = char_seg1(l.as_str(), ':');
            let t = trim_of(seg.as_str());
            space_token(t.as_str())
        } else {
            cur_pid
        };
        let nmp = if starts_with_lit(l.as_str(), "Mount Point:") {
            let seg = char_seg1(l.as_str(), ':');
            Some(trim_of(seg.as_str()))
        } else {
            cur_mp
        };
        if !nvid.as_str().is_empty() && !npid.as_str().is_empty() && nmp.is_some()
            && eq_ignore_case(nvid.as_str(), vid) {
            return nmp;
        }
        if l.as_str().is_empty() {
            cur_vid = String::new();
            cur_pid = String::new();
            cur_mp = None;
        } else {
            cur_vid = nvid;
            cur_pid = npid;
            cur_mp = nmp;
        }
        i = i + 1;
    }
    None
}

// ---------------------------------------------------------------------------
// The drive query post-processing
// ---------------------------------------------------------------------------
/// The drive query's trimmed output, when there is any.
pub open spec fn spec_find_windows_mount_point(drive_output: Seq<char>) -> Option<Seq<char>> {
    if spec_trim(drive_output).len() == 0 {
        None
    } else {
        Some(spec_trim(drive_output))
    }
}

/// Resolves the mount point from the drive query's output: the trimmed
/// output names the logical drive, and an empty output means no matching
/// drive.
pub fn find_windows_mount_point(drive_output: &str) -> (r: Option<String>)
    ensures
        r.deep_view() == spec_find_windows_mount_point(drive_output@),
{
    let t = trim_of(drive_output);
    if t.as_str().is_empty() {
        None
    } else {
        Some(t)
    }
}

// ---------------------------------------------------------------------------
// The device-tree correlation and the mount table
// ---------------------------------------------------------------------------
/// The first block device whose device link mentions the device directory's
/// name.
pub open spec fn spec_block_for(name: Seq<char>, blocks: Seq<BlockLinkView>) -> Option<Seq<char>>
    decreases blocks.len(),
{
    if blocks.len() == 0 {
        None
    } else if spec_contains_lit(blocks[0].target, name) {
        Some(blocks[0].name)
    } else {
        spec_block_for(name, blocks.drop_first())
    }
}

/// The block-device name correlated to the first device-tree entry whose
/// identifiers match, case-insensitively, after trimming what was read. An
/// entry that matches but correlates to no block device does not end the
/// scan.
pub open spec fn spec_find_device_path(
    vid: Seq<char>,
    pid: Seq<char>,
    entries: Seq<SysUsbEntryView>,
    blocks: Seq<BlockLinkView>,
) -> Option<Seq<char>>
    decreases entries.len(),
{
    if entries.len() == 0 {
        None
    } else {
        let e = entries[0];
        if spec_eq_ignore_case(spec_trim(e.vendor_id), vid) && spec_eq_ignore_case(
            spec_trim(e.product_id),
            pid,
        ) {
            match spec_block_for(e.name, blocks) {
                Some(b) => Some(b),
                None => spec_find_device_path(vid, pid, entries.drop_first(), blocks),
            }
        } else {
            spec_find_device_path(vid, pid, entries.drop_first(), blocks)
        }
    }
}

/// Correlates a device to its block device: finds the device-tree entry with
/// the given identifiers, then the block device whose device link mentions
/// that entry's directory name.
pub fn find_linux_device_path(
    vid: &str,
    pid: &str,
    entries: &Vec<SysUsbEntry>,
    blocks: &Vec<BlockLink>,
) -> (r: Option<String>)
    ensures
        r.deep_view() == spec_find_device_path(vid@, pid@, entries.deep_view(), blocks.deep_view()),
{
    let ghost ev = entries.deep_view();
    let ghost bv = blocks.deep_view();
    let mut k: usize = 0;
    let n = entries.len();
    proof {
        assert(ev.skip(0) =~= ev);
    }
    while k < n
        invariant
            k <= n == entries@.len(),
            ev == entries.deep_view(),
            bv == blocks.deep_view(),
            spec_find_device_path(vid@, pid@, ev, bv) == spec_find_device_path(
                vid@,
                pid@,
                ev.skip(k as int),
                bv,
            ),
        decreases n - k,
    {
        let e = &entries[k];
        proof {
            assert(ev.skip(k as int)[0] == ev[k as int]);
            assert(ev[k as int] == entries@[k as int]@);
            assert(ev.skip(k as int).drop_first() =~= ev.skip(k + 1));
        }
        let evid = trim_of(e.vendor_id.as_str());
        let epid = trim_of(e.product_id.as_str());
        if eq_ignore_case(evid.as_str(), vid) && eq_ignore_case(epid.as_str(), pid) {
            let mut j: usize = 0;
            let m = blocks.len();
            proof {
                assert(bv.skip(0) =~= bv);
            }
            while j < m
                invariant
                    j <= m == blocks@.len(),
                    bv == blocks.deep_view(),
                    e@ == ev.skip(k as int)[0],
                    k < n == entries@.len(),
                    ev == entries.deep_view(),
                    spec_find_device_path(vid@, pid@, ev, bv) == spec_find_device_path(
                        vid@,
                        pid@,
                        ev.skip(k as int),
                        bv,
                    ),
                    spec_eq_ignore_case(spec_trim(e@.vendor_id), vid@),
                    spec_eq_ignore_case(spec_trim(e@.product_id), pid@),
                    spec_block_for(e@.name, bv) == spec_block_for(e@.name, bv.skip(j as int)),
                decreases m - j,
            {
                let b = &blocks[j];
                proof {
                    assert(bv.skip(j as int)[0] == bv[j as int]);
                    assert(bv[j as int] == blocks@[j as int]@);
                    assert(bv.skip(j as int).drop_first() =~= bv.skip(j + 1));
                }
                if contains_lit(b.target.as_str(), e.name.as_str()) {
                    return Some(b.name.clone());
                }
                j = j + 1;
            }
            proof {
                assert(bv.skip(m as int) =~= Seq::<BlockLinkView>::empty());
                assert(ev.skip(k as int).drop_first() =~= ev.skip(k + 1));
            }
        }
        k = k + 1;
    }
    proof {
        assert(ev.skip(n as int) =~= Seq::<SysUsbEntryView>::empty());
    }
    None
}

/// One line of the mount table: its device and mount point, when the line
/// has both fields and the device is a disk block device. The device name is
/// kept without its leading device-directory prefix.
pub open spec fn spec_mount_entry(l: Seq<char>) -> Option<(Seq<char>, Seq<char>)> {
    match spec_two_ws_tokens(l) {
        None => None,
        Some((dev, mp)) => if lit_at(dev, 0, "/dev/sd"@) || lit_at(dev, 0, "/dev/nvme"@) {
            Some((spec_strip_prefix_all(dev, "/dev/"@), mp))
        } else {
            None
        },
    }
}

/// The device-to-mount-point pairs of the mount table's lines, in order.
pub open spec fn spec_mount_pairs(lines: Seq<Seq<char>>, i: int) -> Seq<(Seq<char>, Seq<char>)>
    decreases lines.len() - i,
{
    if !(0 <= i < lines.len()) {
        Seq::empty()
    } else {
        match spec_mount_entry(lines[i]) {
            Some(p) => seq![p] + spec_mount_pairs(lines, i + 1),
            None => spec_mount_pairs(lines, i + 1),
        }
    }
}

/// The mount table parsed from the mount-table text.
pub open spec fn spec_get_linux_mount_points(mounts_text: Seq<char>) -> Seq<
    (Seq<char>, Seq<char>),
> {
    spec_mount_pairs(spec_lines(mounts_text), 0)
}

/// Parses the mount table: one device-to-mount-point pair per line that
/// names a disk block device.
pub fn get_linux_mount_points(mounts_text: &str) -> (r: Vec<(String, String)>)
    ensures
        r.deep_view() == spec_get_linux_mount_points(mounts_text@),
{
    let lines = lines_of(mounts_text);
    let ghost lv = spec_lines(mounts_text@);
    let mut r: Vec<(String, String)> = Vec::new();
    let mut i: usize = 0;
    let n = lines.len();
    proof {
        assert(r.deep_view() + spec_mount_pairs(lv, 0) =~= spec_mount_pairs(lv, 0));
    }
    while i < n
        invariant
            i <= n == lines@.len(),
            lines.deep_view() == lv,
            spec_get_linux_mount_points(mounts_text@) == r.deep_view() + spec_mount_pairs(
                lv,
                i as int,
            ),
        decreases n - i,
    {
        let ghost r_old = r.deep_view();
        let line = &lines[i];
        proof {
            assert(lv[i as int] == lines@[i as int]@);
        }
        match two_ws_tokens(line.as_str()) {
            Some((dev, mp)) => {
                if starts_with_lit(dev.as_str(), "/dev/sd") || starts_with_lit(
                    dev.as_str(),
                    "/dev/nvme",
                ) {
                    let name = strip_prefix_all(dev.as_str(), "/dev/");
                    let ghost p = (name@, mp@);
                    r.push((name, mp));
                    proof {
                        assert(spec_mount_entry(lv[i as int]) == Some(p));
                        assert(r.deep_view() =~= r_old + seq![p]);
                        assert(r.deep_view() + spec_mount_pairs(lv, i + 1) =~= r_old + (seq![p]
                            + spec_mount_pairs(lv, i + 1)));
                    }
                }
            },
            None => {},
        }
        i = i + 1;
    }
    proof {
        assert(r.deep_view() + spec_mount_pairs(lv, n as int) =~= r.deep_view());
    }
    r
}

/// The mount point recorded for the device, taking the latest line when a
/// device is listed more than once (a later mount shadows an earlier one).
pub open spec fn spec_lookup_mount(pairs: Seq<(Seq<char>, Seq<char>)>, key: Seq<char>) -> Option<
    Seq<char>,
>
    decreases pairs.len(),
{
    if pairs.len() == 0 {
        None
    } else if pairs.last().0 == key {
        Some(pairs.last().1)
    } else {
        spec_lookup_mount(pairs.drop_last(), key)
    }
}

/// Looks the device up in the parsed mount table.
pub fn lookup_mount(pairs: &Vec<(String, String)>, key: &str) -> (r: Option<String>)
    ensures
        r.deep_view() == spec_lookup_mount(pairs.deep_view(), key@),
{
    let ghost pv = pairs.deep_view();
    let mut i: usize = pairs.len();
    proof {
        assert(pv.take(i as int) =~= pv);
    }
    while i > 0
        invariant
            i <= pairs@.len(),
            pv == pairs.deep_view(),
            spec_lookup_mount(pv, key@) == spec_lookup_mount(pv.take(i as int), key@),
        decreases i,
    {
        let p = &pairs[i - 1];
        proof {
            assert(pv.take(i as int).last() == pv[i - 1]);
            assert(pv[i - 1] == (pairs@[i - 1].0@, pairs@[i - 1].1@));
            assert(pv.take(i as int).drop_last() =~= pv.take(i - 1));
        }
        if crate::text::eq_lit(&chars_of(p.0.as_str()), key) {
            return Some(p.1.clone());
        }
        i = i - 1;
    }
    proof {
        assert(pv.take(0) =~= Seq::<(Seq<char>, Seq<char>)>::empty());
    }
    None
}

// ---------------------------------------------------------------------------
// The device-listing scan
// ---------------------------------------------------------------------------
/// What one device-listing line resolves to: the line's identifier pair is
/// the first token after the `ID ` marker, split at its first colon; when
/// the vendor identifier matches, the device is correlated to its block
/// device and that block device is looked up in the mount table. Any line
/// that fails a step resolves to nothing.
pub open spec fn spec_lsusb_line(
    l: Seq<char>,
    vid_stripped: Seq<char>,
    entries: Seq<SysUsbEntryView>,
    blocks: Seq<BlockLinkView>,
    pairs: Seq<(Seq<char>, Seq<char>)>,
) -> Option<Seq<char>> {
    match spec_lit_seg1(l, "ID "@) {
        None => None,
        Some(idpart) => match spec_first_ws_token(idpart) {
            None => None,
            Some(tok) => {
                let c = spec_find_from(tok, 0, ':');
                if c == tok.len() {
                    None
                } else {
                    let dvid = tok.take(c);
                    let dpid = tok.subrange(c + 1, spec_find_from(tok, c + 1, ':'));
                    if spec_eq_ignore_case(dvid, vid_stripped) {
                        match spec_find_device_path(dvid, dpid, entries, blocks) {
                            Some(dp) => spec_lookup_mount(pairs, dp),
                            None => None,
                        }
                    } else {
                        None
                    }
                }
            },
        },
    }
}

/// The first device-listing line that resolves to a mount point.
pub open spec fn spec_lsusb_scan(
    lines: Seq<Seq<char>>,
    i: int,
    vid_stripped: Seq<char>,
    entries: Seq<SysUsbEntryView>,
    blocks: Seq<BlockLinkView>,
    pairs: Seq<(Seq<char>, Seq<char>)>,
) -> Option<Seq<char>>
    decreases lines.len() - i,
{
    if !(0 <= i < lines.len()) {
        None
    } else {
        match spec_lsusb_line(lines[i], vid_stripped, entries, blocks, pairs) {
            Some(mp) => Some(mp),
            None => spec_lsusb_scan(lines, i + 1, vid_stripped, entries, blocks, pairs),
        }
    }
}

/// The mount point resolved from the full snapshot: the target vendor
/// identifier is compared without its hexadecimal prefix.
pub open spec fn spec_find_linux_mount_point(
    vid: Seq<char>,
    lsusb_output: Seq<char>,
    entries: Seq<SysUsbEntryView>,
    blocks: Seq<BlockLinkView>,
    mounts_text: Seq<char>,
) -> Option<Seq<char>> {
    spec_lsusb_scan(
        spec_lines(lsusb_output),
        0,
        spec_strip_prefix_all(vid, "0x"@),
        entries,
        blocks,
        spec_get_linux_mount_points(mounts_text),
    )
}

/// Resolves what one device-listing line points at.
fn lsusb_line_mount(
    line: &str,
    vid_stripped: &str,
    entries: &Vec<SysUsbEntry>,
    blocks: &Vec<BlockLink>,
    pairs: &Vec<(String, String)>,
) -> (r: Option<String>)
    ensures
        r.deep_view() == spec_lsusb_line(
            line@,
            vid_stripped@,
            entries.deep_view(),
            blocks.deep_view(),
            pairs.deep_view(),
        ),
{
    let idpart = match lit_seg1(line, "ID ") {
        Some(p) => p,
        None => {
            return None;
        },
    };
    let tok = match first_ws_token(idpart.as_str()) {
        Some(t) => t,
        None => {
            return None;
        },
    };
    let tv = chars_of(tok.as_str());
    let c = find_from(&tv, 0, ':');
    if c == tv.len() {
        return None;
    }
    let dvid = tok.as_str().substring_char(0, c).to_owned();
    proof {
        assert(tok@.take(c as int) =~= tok@.subrange(0, c as int));
        crate::text::lemma_spec_find_from_bounds(tv@, c + 1, ':');
    }
    let d = find_from(&tv, c + 1, ':');
    let dpid = tok.as_str().substring_char(c + 1, d).to_owned();
    if eq_ignore_case(dvid.as_str(), vid_stripped) {
        match find_linux_device_path(dvid.as_str(), dpid.as_str(), entries, blocks) {
            Some(dp) => lookup_mount(pairs, dp.as_str()),
            None => None,
        }
    } else {
        None
    }
}

/// Resolves the mount point from the device-listing output, the device
/// tree, the block-device links and the mount table: the first listed
/// device whose vendor identifier matches the target (without its
/// hexadecimal prefix, case-insensitively) and which correlates to a
/// mounted block device.
pub fn find_linux_mount_point(
    vid: &str,
    lsusb_output: &str,
    sys_entries: &Vec<SysUsbEntry>,
    block_links: &Vec<BlockLink>,
    mounts_text: &str,
) -> (r: Option<String>)
    ensures
        r.deep_view() == spec_find_linux_mount_point(
            vid@,
            lsusb_output@,
            sys_entries.deep_view(),
            block_links.deep_view(),
            mounts_text@,
        ),
{
    let pairs = get_linux_mount_points(mounts_text);
    let vid_stripped = strip_prefix_all(vid, "0x");
    let lines = lines_of(lsusb_output);
    let ghost lv = spec_lines(lsusb_output@);
    let mut i: usize = 0;
    let n = lines.len();
    while i < n
        invariant
            i <= n == lines@.len(),
            lines.deep_view() == lv,
            pairs.deep_view() == spec_get_linux_mount_points(mounts_text@),
            vid_stripped@ == spec_strip_prefix_all(vid@, "0x"@),
            spec_find_linux_mount_point(
                vid@,
                lsusb_output@,
                sys_entries.deep_view(),
                block_links.deep_view(),
                mounts_text@,
            ) == spec_lsusb_scan(
                lv,
                i as int,
                vid_stripped@,
                sys_entries.deep_view(),
                block_links.deep_view(),
                pairs.deep_view(),
            ),
        decreases n - i,
    {
        let line = &lines[i];
        proof {
            assert(lv[i as int] == lines@[i as int]@);
        }
        match lsusb_line_mount(
            line.as_str(),
            vid_stripped.as_str(),
            sys_entries,
            block_links,
            &pairs,
        ) {
            Some(mp) => {
                return Some(mp);
            },
            None => {},
        }
        i = i + 1;
    }
    None
}

// ---------------------------------------------------------------------------
// Resolution
// ---------------------------------------------------------------------------
/// The mount point the snapshot resolves to for the vendor identifier.
pub open spec fn spec_find_mount_point(vid: Seq<char>, snap: DeviceSnapshotView) -> Option<
    Seq<char>,
> {
    match snap {
        DeviceSnapshotView::MacOs { usb_output } => spec_find_macos_mount_point(vid, usb_output),
        DeviceSnapshotView::Windows { drive_output } => spec_find_windows_mount_point(drive_output),
        DeviceSnapshotView::Linux { lsusb_output, sys_entries, block_links, mounts_text } =>
            spec_find_linux_mount_point(vid, lsusb_output, sys_entries, block_links, mounts_text),
    }
}

/// Resolves the mount point of the device with the given vendor identifier
/// against a fresh enumeration snapshot. Nothing is cached: every call works
/// on the snapshot it is given, so the answer is only as stale as the
/// snapshot.
pub fn find_mount_point(vid: &str, snapshot: &DeviceSnapshot) -> (r: Option<String>)
    ensures
        r.deep_view() == spec_find_mount_point(vid@, snapshot@),
{
    match snapshot {
        DeviceSnapshot::MacOs { usb_output } => find_macos_mount_point(vid, usb_output.as_str()),
        DeviceSnapshot::Windows { drive_output } => find_windows_mount_point(
            drive_output.as_str(),
        ),
        DeviceSnapshot::Linux { lsusb_output, sys_entries, block_links, mounts_text } =>
            find_linux_mount_point(
            vid,
            lsusb_output.as_str(),
            sys_entries,
            block_links,
            mounts_text.as_str(),
        ),
    }
}

/// Resolving the device twice against one unchanged enumeration snapshot
/// returns the same mount point, or none, both times: resolution reads the
/// snapshot alone.
pub proof fn lemma_resolution_idempotent(
    vid: Seq<char>,
    snap: DeviceSnapshotView,
    r1: Option<Seq<char>>,
    r2: Option<Seq<char>>,
)
    requires
        r1 == spec_find_mount_point(vid, snap),
        r2 == spec_find_mount_point(vid, snap),
    ensures
        r1 == r2,
{
}

} // verus!
