//! The command dispatcher, as a state machine.
//!
//! The dispatcher decides; the driver around the library acts. Feeding one
//! inbound message to [`on_message`] yields a [`Step`]: response frames to
//! emit, and either nothing more, a filesystem or device request to perform,
//! or the end of the session. The driver performs the request and hands its
//! outcome back to [`on_reply`], which yields the next step, until the
//! dispatcher is idle again and the next frame can be read.
//!
//! Every multi-frame response ends with one terminator frame holding the
//! literal `"END"`, on the error paths too.

use vstd::prelude::*;
use vstd::string::StrSliceExecFns;
use vstd::string::StringExecFns;

use crate::command::{parse_command, spec_parse_command, Command, CommandFormatError, CommandView};
use crate::command::{decode_byte_list, spec_decode_byte_list};
use crate::fileops::base64_of;
use crate::listing::{nodes_view, FsNode, FsNodeView};

verus! {

// ---------------------------------------------------------------------------
// Response texts
// ---------------------------------------------------------------------------
pub open spec fn version_text() -> Seq<char> {
    "\"0.1.3\""@
}

pub open spec fn help_text() -> Seq<char> {
    "\"Available commands: list, rm, add\""@
}

/// The greeting frame the host sends when the session starts.
pub open spec fn running_text() -> Seq<char> {
    "\"Running ...\""@
}

/// The terminator frame of every multi-frame response.
pub open spec fn end_text() -> Seq<char> {
    "\"END\""@
}

pub open spec fn mount_found_text(mp: Seq<char>) -> Seq<char> {
    "\"Device VID:0xb1b0 PID:0x8055 is mounted at: "@ + mp + "\""@
}

pub open spec fn mount_missing_text() -> Seq<char> {
    "\"Device VID:0xb1b0 PID:0x8055 not found or not mounted\""@
}

pub open spec fn device_missing_text() -> Seq<char> {
    "\"Device not found or not mounted\""@
}

pub open spec fn listing_root_text(dir: Seq<char>) -> Seq<char> {
    "\"Listing contents of: "@ + dir + "\""@
}

pub open spec fn dir_missing_text(dir: Seq<char>) -> Seq<char> {
    "\"Directory not found: "@ + dir + "\""@
}

pub open spec fn dir_error_text(p: Seq<char>) -> Seq<char> {
    "\"Error reading directory: "@ + p + "\""@
}

pub open spec fn file_entry_text(p: Seq<char>) -> Seq<char> {
    "\"File: "@ + p + "\""@
}

pub open spec fn dir_entry_text(p: Seq<char>) -> Seq<char> {
    "\"Directory: "@ + p + "\""@
}

pub open spec fn opened_text(loc: Seq<char>) -> Seq<char> {
    "\"File at location '"@ + loc + "' opened successfully\""@
}

pub open spec fn base64_frame_text(b64: Seq<char>) -> Seq<char> {
    "\"File base64: "@ + b64 + "\""@
}

pub open spec fn read_error_text(e: Seq<char>) -> Seq<char> {
    "\"Failed to read file data: "@ + e + "\""@
}

pub open spec fn open_missing_text() -> Seq<char> {
    "\"File not found at the specified location\""@
}

pub open spec fn invalid_open_text() -> Seq<char> {
    "\"Invalid open command format\""@
}

pub open spec fn invalid_rm_text() -> Seq<char> {
    "\"Invalid rm command format\""@
}

pub open spec fn invalid_add_text() -> Seq<char> {
    "\"Invalid add command format. Use: add --name \\\"filename\\\" --format \\\"ext\\\" [--path \\\"dir/path\\\"] --data \\\"\\\"\\\"data\\\"\\\"\\\"\""@
}

pub open spec fn removed_text() -> Seq<char> {
    "\"File removed successfully\""@
}

pub open spec fn rm_missing_text() -> Seq<char> {
    "\"File not found\""@
}

pub open spec fn remove_error_text(e: Seq<char>) -> Seq<char> {
    "\"Failed to remove file: "@ + e + "\""@
}

pub open spec fn created_dir_text() -> Seq<char> {
    "\"Created directory path\""@
}

pub open spec fn create_dir_error_text(e: Seq<char>) -> Seq<char> {
    "\"Failed to create directory path: "@ + e + "\""@
}

pub open spec fn write_error_text(e: Seq<char>) -> Seq<char> {
    "\"Failed to write file: "@ + e + "\""@
}

pub open spec fn file_created_text(p: Seq<char>) -> Seq<char> {
    "\"File created successfully at "@ + p + "\""@
}

/// An unknown message is echoed back with a fixed marker suffix.
pub open spec fn echo_text(raw: Seq<char>) -> Seq<char> {
    raw + "test"@
}

// ---------------------------------------------------------------------------
// Paths
// ---------------------------------------------------------------------------
/// Joining a relative path onto a base: an absolute path replaces the base,
/// and exactly one separator stands between the parts otherwise.
pub open spec fn spec_join_path(base: Seq<char>, rel: Seq<char>) -> Seq<char> {
    if rel.len() > 0 && rel[0] == '/' {
        rel
    } else if base.len() > 0 && base[base.len() - 1] == '/' {
        base + rel
    } else {
        base + "/"@ + rel
    }
}

/// The file name written by `add`: `name.format`.
pub open spec fn spec_file_name(name: Seq<char>, format: Seq<char>) -> Seq<char> {
    name + "."@ + format
}

/// Joins a relative path onto a base path.
pub fn join_path(base: &str, rel: &str) -> (r: String)
    ensures
        r@ == spec_join_path(base@, rel@),
{
    proof {
        reveal_strlit("/");
    }
    let rel_len = rel.unicode_len();
    if rel_len > 0 && rel.get_char(0) == '/' {
        rel.to_owned()
    } else {
        let base_len = base.unicode_len();
        if base_len > 0 && base.get_char(base_len - 1) == '/' {
            let mut r = base.to_owned();
            r.append(rel);
            r
        } else {
            let mut r = base.to_owned();
            r.append("/");
            r.append(rel);
            r
        }
    }
}

/// Builds the file name written by `add`.
pub fn file_name_of(name: &str, format: &str) -> (r: String)
    ensures
        r@ == spec_file_name(name@, format@),
{
    let mut r = name.to_owned();
    r.append(".");
    r.append(format);
    r
}

// ---------------------------------------------------------------------------
// Requests, replies, and steps
// ---------------------------------------------------------------------------
/// One request the dispatcher hands to the driver.
#[derive(Debug)]
pub enum FsRequest {
    /// Resolve the target device's mount point, freshly.
    ResolveMount,
    /// Does anything exist at the path?
    CheckExists { path: String },
    /// Does the path name an existing directory?
    CheckDir { path: String },
    /// Take a recursive snapshot of the directory.
    ListDir { path: String },
    /// Read the whole file.
    ReadFile { path: String },
    /// Delete the file.
    RemoveFile { path: String },
    /// Create the directory and its parents.
    CreateDirAll { path: String },
    /// Write the bytes to the file, replacing it.
    WriteFile { path: String, data: Vec<u8> },
}

#[verifier::ext_equal]
pub enum FsRequestView {
    ResolveMount,
    CheckExists { path: Seq<char> },
    CheckDir { path: Seq<char> },
    ListDir { path: Seq<char> },
    ReadFile { path: Seq<char> },
    RemoveFile { path: Seq<char> },
    CreateDirAll { path: Seq<char> },
    WriteFile { path: Seq<char>, data: Seq<u8> },
}

impl View for FsRequest {
    type V = FsRequestView;

    open spec fn view(&self) -> FsRequestView {
        match self {
            FsRequest::ResolveMount => FsRequestView::ResolveMount,
            FsRequest::CheckExists { path } => FsRequestView::CheckExists { path: path@ },
            FsRequest::CheckDir { path } => FsRequestView::CheckDir { path: path@ },
            FsRequest::ListDir { path } => FsRequestView::ListDir { path: path@ },
            FsRequest::ReadFile { path } => FsRequestView::ReadFile { path: path@ },
            FsRequest::RemoveFile { path } => FsRequestView::RemoveFile { path: path@ },
            FsRequest::CreateDirAll { path } => FsRequestView::CreateDirAll { path: path@ },
            FsRequest::WriteFile { path, data } => FsRequestView::WriteFile {
                path: path@,
                data: data@,
            },
        }
    }
}

/// The outcome of one request, handed back by the driver. An enumeration or
/// I/O failure is an `Err` carrying the underlying message (and a failed
/// mount resolution is `None`: "not found" and "enumeration failed" are the
/// same to the protocol).
pub enum FsReply {
    Mount { mount: Option<String> },
    Exists { yes: bool },
    IsDir { yes: bool },
    /// `None` when the directory itself could not be read.
    Listing { nodes: Option<Vec<FsNode>> },
    FileData { result: Result<Vec<u8>, String> },
    Removed { result: Result<(), String> },
    Created { result: Result<(), String> },
    Written { result: Result<(), String> },
}

#[verifier::ext_equal]
pub enum FsReplyView {
    Mount { mount: Option<Seq<char>> },
    Exists { yes: bool },
    IsDir { yes: bool },
    Listing { nodes: Option<Seq<FsNodeView>> },
    FileData { result: Result<Seq<u8>, Seq<char>> },
    Removed { result: Result<(), Seq<char>> },
    Created { result: Result<(), Seq<char>> },
    Written { result: Result<(), Seq<char>> },
}

impl View for FsReply {
    type V = FsReplyView;

    open spec fn view(&self) -> FsReplyView {
        match self {
            FsReply::Mount { mount } => FsReplyView::Mount {
                mount: match mount {
                    Some(mp) => Some(mp@),
                    None => None,
                },
            },
            FsReply::Exists { yes } => FsReplyView::Exists { yes: *yes },
            FsReply::IsDir { yes } => FsReplyView::IsDir { yes: *yes },
            FsReply::Listing { nodes } => FsReplyView::Listing {
                nodes: match nodes {
                    Some(ns) => Some(nodes_view(ns@)),
                    None => None,
                },
            },
            FsReply::FileData { result } => FsReplyView::FileData {
                result: match result {
                    Ok(d) => Ok(d@),
                    Err(e) => Err(e@),
                },
            },
            FsReply::Removed { result } => FsReplyView::Removed {
                result: match result {
                    Ok(u) => Ok(*u),
                    Err(e) => Err(e@),
                },
            },
            FsReply::Created { result } => FsReplyView::Created {
                result: match result {
                    Ok(u) => Ok(*u),
                    Err(e) => Err(e@),
                },
            },
            FsReply::Written { result } => FsReplyView::Written {
                result: match result {
                    Ok(u) => Ok(*u),
                    Err(e) => Err(e@),
                },
            },
        }
    }
}

/// What the dispatcher is waiting on while a request is out.
#[derive(Debug)]
pub enum Pending {
    /// `mount`: awaiting the mount point.
    MountCmd,
    /// `list`: awaiting the mount point.
    ListMount { path: Option<String> },
    /// `list`: awaiting the check that the listing root is a directory.
    ListRoot { dir: String },
    /// `list`: awaiting the snapshot of the listing root.
    ListNodes { dir: String },
    /// `open`: awaiting the existence check.
    OpenExists { loc: String },
    /// `open`: awaiting the file contents.
    OpenRead { loc: String },
    /// `rm`: awaiting the mount point.
    RmMount { arg: String, by_name: bool },
    /// `rm`: awaiting the existence check.
    RmExists { target: String },
    /// `rm`: awaiting the deletion.
    RmRemove { target: String },
    /// `add`: awaiting the mount point.
    AddMount { name: String, format: String, path: Option<String>, data: String },
    /// `add`: awaiting the existence check on the target directory.
    AddDirExists { dir: String, file: String, bytes: Vec<u8> },
    /// `add`: awaiting the directory creation.
    AddCreate { dir: String, file: String, bytes: Vec<u8> },
    /// `add`: awaiting the write.
    AddWrite { file: String },
}

#[verifier::ext_equal]
pub enum PendingView {
    MountCmd,
    ListMount { path: Option<Seq<char>> },
    ListRoot { dir: Seq<char> },
    ListNodes { dir: Seq<char> },
    OpenExists { loc: Seq<char> },
    OpenRead { loc: Seq<char> },
    RmMount { arg: Seq<char>, by_name: bool },
    RmExists { target: Seq<char> },
    RmRemove { target: Seq<char> },
    AddMount { name: Seq<char>, format: Seq<char>, path: Option<Seq<char>>, data: Seq<char> },
    AddDirExists { dir: Seq<char>, file: Seq<char>, bytes: Seq<u8> },
    AddCreate { dir: Seq<char>, file: Seq<char>, bytes: Seq<u8> },
    AddWrite { file: Seq<char> },
}

impl View for Pending {
    type V = PendingView;

    open spec fn view(&self) -> PendingView {
        match self {
            Pending::MountCmd => PendingView::MountCmd,
            Pending::ListMount { path } => PendingView::ListMount {
                path: match path {
                    Some(p) => Some(p@),
                    None => None,
                },
            },
            Pending::ListRoot { dir } => PendingView::ListRoot { dir: dir@ },
            Pending::ListNodes { dir } => PendingView::ListNodes { dir: dir@ },
            Pending::OpenExists { loc } => PendingView::OpenExists { loc: loc@ },
            Pending::OpenRead { loc } => PendingView::OpenRead { loc: loc@ },
            Pending::RmMount { arg, by_name } => PendingView::RmMount {
                arg: arg@,
                by_name: *by_name,
            },
            Pending::RmExists { target } => PendingView::RmExists { target: target@ },
            Pending::RmRemove { target } => PendingView::RmRemove { target: target@ },
            Pending::AddMount { name, format, path, data } => PendingView::AddMount {
                name: name@,
                format: format@,
                path: match path {
                    Some(p) => Some(p@),
                    None => None,
                },
                data: data@,
            },
            Pending::AddDirExists { dir, file, bytes } => PendingView::AddDirExists {
                dir: dir@,
                file: file@,
                bytes: bytes@,
            },
            Pending::AddCreate { dir, file, bytes } => PendingView::AddCreate {
                dir: dir@,
                file: file@,
                bytes: bytes@,
            },
            Pending::AddWrite { file } => PendingView::AddWrite { file: file@ },
        }
    }
}

/// What the session does after the frames of a step are sent.
#[derive(Debug)]
pub enum Next {
    /// Await the next inbound frame.
    Idle,
    /// Perform the request and hand its outcome to [`on_reply`].
    Query { req: FsRequest, pending: Pending },
    /// End the session.
    Exit,
}

#[verifier::ext_equal]
pub enum NextView {
    Idle,
    Query { req: FsRequestView, pending: PendingView },
    Exit,
}

impl View for Next {
    type V = NextView;

    open spec fn view(&self) -> NextView {
        match self {
            Next::Idle => NextView::Idle,
            Next::Query { req, pending } => NextView::Query { req: req@, pending: pending@ },
            Next::Exit => NextView::Exit,
        }
    }
}

/// One step of the session: frames to emit, then what follows.
#[derive(Debug)]
pub struct Step {
    pub frames: Vec<String>,
    pub next: Next,
}

#[verifier::ext_equal]
pub struct StepView {
    pub frames: Seq<Seq<char>>,
    pub next: NextView,
}

impl View for Step {
    type V = StepView;

    open spec fn view(&self) -> StepView {
        StepView { frames: self.frames.deep_view(), next: self.next@ }
    }
}

// ---------------------------------------------------------------------------
// Listing frames
// ---------------------------------------------------------------------------
/// The frames for one listed object: a file is one frame; a directory is one
/// frame followed by the frames of its contents, or by one error frame when
/// its contents could not be read.
pub open spec fn spec_node_frames(n: FsNodeView) -> Seq<Seq<char>>
    decreases n,
{
    if n.info.is_dir {
        seq![dir_entry_text(n.info.path)] + if n.readable {
            spec_nodes_frames(n.children)
        } else {
            seq![dir_error_text(n.info.path)]
        }
    } else {
        seq![file_entry_text(n.info.path)]
    }
}

/// The frames for a sequence of sibling objects, in order.
pub open spec fn spec_nodes_frames(nodes: Seq<FsNodeView>) -> Seq<Seq<char>>
    decreases nodes,
{
    if nodes.len() == 0 {
        Seq::empty()
    } else {
        spec_node_frames(nodes[0]) + spec_nodes_frames(nodes.drop_first())
    }
}

pub proof fn lemma_frames_add(a: Seq<FsNodeView>, b: Seq<FsNodeView>)
    ensures
        spec_nodes_frames(a + b) == spec_nodes_frames(a) + spec_nodes_frames(b),
    decreases a,
{
    if a.len() == 0 {
        assert(a + b =~= b);
        assert(spec_nodes_frames(a) + spec_nodes_frames(b) =~= spec_nodes_frames(b));
    } else {
        assert((a + b).drop_first() =~= a.drop_first() + b);
        lemma_frames_add(a.drop_first(), b);
        assert(spec_node_frames((a + b)[0]) + (spec_nodes_frames(a.drop_first())
            + spec_nodes_frames(b)) =~= (spec_node_frames(a[0]) + spec_nodes_frames(a.drop_first()))
            + spec_nodes_frames(b));
    }
}

pub proof fn lemma_frames_single(n: FsNodeView)
    ensures
        spec_nodes_frames(seq![n]) == spec_node_frames(n),
{
    assert(seq![n].drop_first().len() == 0);
    assert(spec_nodes_frames(seq![n].drop_first()) =~= Seq::<Seq<char>>::empty());
    assert(spec_nodes_frames(seq![n]) =~= spec_node_frames(n));
}

/// Builds the text of three concatenated pieces.
fn wrap3(prefix: &str, mid: &str, suffix: &str) -> (r: String)
    ensures
        r@ == prefix@ + mid@ + suffix@,
{
    let mut r = prefix.to_owned();
    r.append(mid);
    r.append(suffix);
    r
}

/// Emits the listing frames for a directory snapshot, in traversal order.
pub fn listing_frames(nodes: &Vec<FsNode>) -> (r: Vec<String>)
    ensures
        r.deep_view() == spec_nodes_frames(nodes_view(nodes@)),
    decreases nodes,
{
    let mut out: Vec<String> = Vec::new();
    let mut i: usize = 0;
    proof {
        crate::listing::lemma_nodes_view_elts(nodes@);
        assert(out.deep_view() =~= spec_nodes_frames(nodes_view(nodes@).take(0)));
    }
    while i < nodes.len()
        invariant
            i <= nodes@.len(),
            out.deep_view() == spec_nodes_frames(nodes_view(nodes@).take(i as int)),
        decreases nodes@.len() - i,
    {
        proof {
            crate::listing::lemma_nodes_view_elts(nodes@);
        }
        let ghost pre = nodes_view(nodes@).take(i as int);
        let node = &nodes[i];
        if node.info.is_dir {
            out.push(wrap3("\"Directory: ", node.info.path.as_str(), "\""));
            proof {
                assert(decreases_to!(nodes => node.children));
            }
            if node.readable {
                let mut sub = listing_frames(&node.children);
                out.append(&mut sub);
            } else {
                out.push(wrap3("\"Error reading directory: ", node.info.path.as_str(), "\""));
            }
        } else {
            out.push(wrap3("\"File: ", node.info.path.as_str(), "\""));
        }
        i = i + 1;
        proof {
            let nv = nodes_view(nodes@);
            let cur = nv[i - 1];
            assert(cur == crate::listing::node_view(nodes@[i - 1]));
            assert(nv.take(i as int) =~= pre + seq![cur]);
            lemma_frames_add(pre, seq![cur]);
            lemma_frames_single(cur);
            assert(out.deep_view() =~= spec_nodes_frames(nv.take(i as int)));
        }
    }
    proof {
        assert(nodes_view(nodes@).take(i as int) =~= nodes_view(nodes@));
    }
    out
}

// ---------------------------------------------------------------------------
// Transitions
// ---------------------------------------------------------------------------
/// The step taken on one inbound message.
pub open spec fn spec_on_message(msg: Seq<char>) -> StepView {
    match spec_parse_command(msg) {
        Ok(CommandView::Version) => StepView { frames: seq![version_text()], next: NextView::Idle },
        Ok(CommandView::Help) => StepView { frames: seq![help_text()], next: NextView::Idle },
        Ok(CommandView::Exit) => StepView { frames: Seq::empty(), next: NextView::Exit },
        Ok(CommandView::Mount) => StepView {
            frames: Seq::empty(),
            next: NextView::Query {
                req: FsRequestView::ResolveMount,
                pending: PendingView::MountCmd,
            },
        },
        Ok(CommandView::List { path }) => StepView {
            frames: Seq::empty(),
            next: NextView::Query {
                req: FsRequestView::ResolveMount,
                pending: PendingView::ListMount { path },
            },
        },
        Ok(CommandView::Open { loc }) => StepView {
            frames: Seq::empty(),
            next: NextView::Query {
                req: FsRequestView::CheckExists { path: loc },
                pending: PendingView::OpenExists { loc },
            },
        },
        Ok(CommandView::Remove { arg, by_name }) => StepView {
            frames: Seq::empty(),
            next: NextView::Query {
                req: FsRequestView::ResolveMount,
                pending: PendingView::RmMount { arg, by_name },
            },
        },
        Ok(CommandView::Add { name, format, path, data }) => StepView {
            frames: Seq::empty(),
            next: NextView::Query {
                req: FsRequestView::ResolveMount,
                pending: PendingView::AddMount { name, format, path, data },
            },
        },
        Ok(CommandView::Unknown { raw }) => StepView {
            frames: seq![echo_text(raw), end_text()],
            next: NextView::Idle,
        },
        Err(CommandFormatError::Open) => StepView {
            frames: seq![invalid_open_text(), end_text()],
            next: NextView::Idle,
        },
        Err(CommandFormatError::Remove) => StepView {
            frames: seq![invalid_rm_text(), end_text()],
            next: NextView::Idle,
        },
        Err(CommandFormatError::Add) => StepView {
            frames: seq![invalid_add_text(), end_text()],
            next: NextView::Idle,
        },
    }
}

/// Whether a reply answers what is pending: each request form has one reply
/// form.
pub open spec fn spec_compatible(p: PendingView, r: FsReplyView) -> bool {
    match (p, r) {
        (PendingView::MountCmd, FsReplyView::Mount { .. }) => true,
        (PendingView::ListMount { .. }, FsReplyView::Mount { .. }) => true,
        (PendingView::ListRoot { .. }, FsReplyView::IsDir { .. }) => true,
        (PendingView::ListNodes { .. }, FsReplyView::Listing { .. }) => true,
        (PendingView::OpenExists { .. }, FsReplyView::Exists { .. }) => true,
        (PendingView::OpenRead { .. }, FsReplyView::FileData { .. }) => true,
        (PendingView::RmMount { .. }, FsReplyView::Mount { .. }) => true,
        (PendingView::RmExists { .. }, FsReplyView::Exists { .. }) => true,
        (PendingView::RmRemove { .. }, FsReplyView::Removed { .. }) => true,
        (PendingView::AddMount { .. }, FsReplyView::Mount { .. }) => true,
        (PendingView::AddDirExists { .. }, FsReplyView::Exists { .. }) => true,
        (PendingView::AddCreate { .. }, FsReplyView::Created { .. }) => true,
        (PendingView::AddWrite { .. }, FsReplyView::Written { .. }) => true,
        _ => false,
    }
}

/// The step taken when the driver hands back the outcome of a request.
pub open spec fn spec_on_reply(p: PendingView, r: FsReplyView) -> StepView {
    match (p, r) {
        (PendingView::MountCmd, FsReplyView::Mount { mount }) => match mount {
            Some(mp) => StepView {
                frames: seq![mount_found_text(mp), end_text()],
                next: NextView::Idle,
            },
            None => StepView {
                frames: seq![mount_missing_text(), end_text()],
                next: NextView::Idle,
            },
        },
        (PendingView::ListMount { path }, FsReplyView::Mount { mount }) => match mount {
            Some(mp) => {
                let dir = match path {
                    Some(p) => spec_join_path(mp, p),
                    None => mp,
                };
                StepView {
                    frames: seq![mount_found_text(mp), listing_root_text(dir)],
                    next: NextView::Query {
                        req: FsRequestView::CheckDir { path: dir },
                        pending: PendingView::ListRoot { dir },
                    },
                }
            },
            None => StepView {
                frames: seq![mount_missing_text(), end_text()],
                next: NextView::Idle,
            },
        },
        (PendingView::ListRoot { dir }, FsReplyView::IsDir { yes }) => if yes {
            StepView {
                frames: Seq::empty(),
                next: NextView::Query {
                    req: FsRequestView::ListDir { path: dir },
                    pending: PendingView::ListNodes { dir },
                },
            }
        } else {
            StepView { frames: seq![dir_missing_text(dir), end_text()], next: NextView::Idle }
        },
        (PendingView::ListNodes { dir }, FsReplyView::Listing { nodes }) => match nodes {
            Some(ns) => StepView {
                frames: spec_nodes_frames(ns) + seq![end_text()],
                next: NextView::Idle,
            },
            None => StepView { frames: seq![dir_error_text(dir), end_text()], next: NextView::Idle },
        },
        (PendingView::OpenExists { loc }, FsReplyView::Exists { yes }) => if yes {
            StepView {
                frames: seq![opened_text(loc)],
                next: NextView::Query {
                    req: FsRequestView::ReadFile { path: loc },
                    pending: PendingView::OpenRead { loc },
                },
            }
        } else {
            StepView { frames: seq![open_missing_text(), end_text()], next: NextView::Idle }
        },
        (PendingView::OpenRead { loc }, FsReplyView::FileData { result }) => match result {
            Ok(data) => StepView {
                frames: seq![base64_frame_text(base64_of(data)), end_text()],
                next: NextView::Idle,
            },
            Err(e) => StepView { frames: seq![read_error_text(e), end_text()], next: NextView::Idle },
        },
        (PendingView::RmMount { arg, by_name }, FsReplyView::Mount { mount }) => match mount {
            Some(mp) => {
                let target = if by_name {
                    spec_join_path(mp, arg)
                } else {
                    arg
                };
                StepView {
                    frames: Seq::empty(),
                    next: NextView::Query {
                        req: FsRequestView::CheckExists { path: target },
                        pending: PendingView::RmExists { target },
                    },
                }
            },
            None => StepView {
                frames: seq![device_missing_text(), end_text()],
                next: NextView::Idle,
            },
        },
        (PendingView::RmExists { target }, FsReplyView::Exists { yes }) => if yes {
            StepView {
                frames: Seq::empty(),
                next: NextView::Query {
                    req: FsRequestView::RemoveFile { path: target },
                    pending: PendingView::RmRemove { target },
                },
            }
        } else {
            StepView { frames: seq![rm_missing_text(), end_text()], next: NextView::Idle }
        },
        (PendingView::RmRemove { target }, FsReplyView::Removed { result }) => match result {
            Ok(_) => StepView { frames: seq![removed_text(), end_text()], next: NextView::Idle },
            Err(e) => StepView {
                frames: seq![remove_error_text(e), end_text()],
                next: NextView::Idle,
            },
        },
        (PendingView::AddMount { name, format, path, data }, FsReplyView::Mount { mount }) => match mount {
            Some(mp) => {
                let dir = match path {
                    Some(p) => spec_join_path(mp, p),
                    None => mp,
                };
                let file = spec_join_path(dir, spec_file_name(name, format));
                StepView {
                    frames: Seq::empty(),
                    next: NextView::Query {
                        req: FsRequestView::CheckExists { path: dir },
                        pending: PendingView::AddDirExists {
                            dir,
                            file,
                            bytes: spec_decode_byte_list(data),
                        },
                    },
                }
            },
            None => StepView {
                frames: seq![device_missing_text(), end_text()],
                next: NextView::Idle,
            },
        },
        (PendingView::AddDirExists { dir, file, bytes }, FsReplyView::Exists { yes }) => if yes {
            StepView {
                frames: Seq::empty(),
                next: NextView::Query {
                    req: FsRequestView::WriteFile { path: file, data: bytes },
                    pending: PendingView::AddWrite { file },
                },
            }
        } else {
            StepView {
                frames: Seq::empty(),
                next: NextView::Query {
                    req: FsRequestView::CreateDirAll { path: dir },
                    pending: PendingView::AddCreate { dir, file, bytes },
                },
            }
        },
        (PendingView::AddCreate { dir, file, bytes }, FsReplyView::Created { result }) => match result {
            Ok(_) => StepView {
                frames: seq![created_dir_text()],
                next: NextView::Query {
                    req: FsRequestView::WriteFile { path: file, data: bytes },
                    pending: PendingView::AddWrite { file },
                },
            },
            Err(e) => StepView {
                frames: seq![create_dir_error_text(e), end_text()],
                next: NextView::Idle,
            },
        },
        (PendingView::AddWrite { file }, FsReplyView::Written { result }) => match result {
            Ok(_) => StepView {
                frames: seq![file_created_text(file), end_text()],
                next: NextView::Idle,
            },
            Err(e) => StepView {
                frames: seq![write_error_text(e), end_text()],
                next: NextView::Idle,
            },
        },
        _ => StepView { frames: Seq::empty(), next: NextView::Idle },
    }
}

/// The terminator is unconditional: every reply-step that completes a
/// response and leaves the dispatcher idle emits at least one frame, and
/// the last frame is the literal `"END"` — on the error paths too.
pub proof fn lemma_reply_ends_with_terminator(p: PendingView, r: FsReplyView)
    requires
        spec_compatible(p, r),
        spec_on_reply(p, r).next is Idle,
    ensures
        spec_on_reply(p, r).frames.len() > 0,
        spec_on_reply(p, r).frames.last() == end_text(),
{
}

/// A message-step that leaves the dispatcher idle answers a single-result
/// command (`version`, `help`) with exactly one frame, and ends every other
/// response — the echoed fallback and the format errors — with the
/// terminator.
pub proof fn lemma_message_ends_with_terminator(msg: Seq<char>)
    requires
        spec_on_message(msg).next is Idle,
    ensures
        spec_on_message(msg).frames.len() > 0,
        spec_on_message(msg).frames.last() == end_text() || spec_parse_command(msg) == Ok::<
            CommandView,
            CommandFormatError,
        >(CommandView::Version) || spec_parse_command(msg) == Ok::<
            CommandView,
            CommandFormatError,
        >(CommandView::Help),
{
}

/// A step that emits nothing and ends the session.
fn step_exit() -> (r: Step)
    ensures
        r@ == (StepView { frames: Seq::empty(), next: NextView::Exit }),
{
    let r = Step { frames: Vec::new(), next: Next::Exit };
    proof {
        assert(r@.frames =~= Seq::<Seq<char>>::empty());
    }
    r
}

/// A step that emits one frame, then awaits the next inbound frame.
fn step_idle1(f: String) -> (r: Step)
    ensures
        r@ == (StepView { frames: seq![f@], next: NextView::Idle }),
{
    let mut frames: Vec<String> = Vec::new();
    frames.push(f);
    let r = Step { frames, next: Next::Idle };
    proof {
        assert(r@.frames =~= seq![r.frames@[0]@]);
    }
    r
}

/// A step that emits two frames, then awaits the next inbound frame.
fn step_idle2(f1: String, f2: String) -> (r: Step)
    ensures
        r@ == (StepView { frames: seq![f1@, f2@], next: NextView::Idle }),
{
    let mut frames: Vec<String> = Vec::new();
    frames.push(f1);
    frames.push(f2);
    let r = Step { frames, next: Next::Idle };
    proof {
        assert(r@.frames =~= seq![r.frames@[0]@, r.frames@[1]@]);
    }
    r
}

/// A step that emits nothing and hands a request to the driver.
fn step_query(req: FsRequest, pending: Pending) -> (r: Step)
    ensures
        r@ == (StepView {
            frames: Seq::empty(),
            next: NextView::Query { req: req@, pending: pending@ },
        }),
{
    let r = Step { frames: Vec::new(), next: Next::Query { req, pending } };
    proof {
        assert(r@.frames =~= Seq::<Seq<char>>::empty());
    }
    r
}

/// A step that emits one frame and hands a request to the driver.
fn step_query1(f: String, req: FsRequest, pending: Pending) -> (r: Step)
    ensures
        r@ == (StepView {
            frames: seq![f@],
            next: NextView::Query { req: req@, pending: pending@ },
        }),
{
    let mut frames: Vec<String> = Vec::new();
    frames.push(f);
    let r = Step { frames, next: Next::Query { req, pending } };
    proof {
        assert(r@.frames =~= seq![r.frames@[0]@]);
    }
    r
}

/// A step that emits two frames and hands a request to the driver.
fn step_query2(f1: String, f2: String, req: FsRequest, pending: Pending) -> (r: Step)
    ensures
        r@ == (StepView {
            frames: seq![f1@, f2@],
            next: NextView::Query { req: req@, pending: pending@ },
        }),
{
    let mut frames: Vec<String> = Vec::new();
    frames.push(f1);
    frames.push(f2);
    let r = Step { frames, next: Next::Query { req, pending } };
    proof {
        assert(r@.frames =~= seq![r.frames@[0]@, r.frames@[1]@]);
    }
    r
}

/// Builds the greeting frame the host sends when the session starts.
pub fn greeting() -> (r: String)
    ensures
        r@ == running_text(),
{
    "\"Running ...\"".to_owned()
}

/// Takes the dispatcher's step on one inbound message.
pub fn on_message(msg: &str) -> (r: Step)
    ensures
        r@ == spec_on_message(msg@),
{
    match parse_command(msg) {
        Ok(Command::Version) => step_idle1("\"0.1.3\"".to_owned()),
        Ok(Command::Help) => step_idle1("\"Available commands: list, rm, add\"".to_owned()),
        Ok(Command::Exit) => step_exit(),
        Ok(Command::Mount) => step_query(FsRequest::ResolveMount, Pending::MountCmd),
        Ok(Command::List { path }) => step_query(
            FsRequest::ResolveMount,
            Pending::ListMount { path },
        ),
        Ok(Command::Open { loc }) => {
            let path = loc.clone();
            step_query(FsRequest::CheckExists { path }, Pending::OpenExists { loc })
        },
        Ok(Command::Remove { arg, by_name }) => step_query(
            FsRequest::ResolveMount,
            Pending::RmMount { arg, by_name },
        ),
        Ok(Command::Add { name, format, path, data }) => step_query(
            FsRequest::ResolveMount,
            Pending::AddMount { name, format, path, data },
        ),
        Ok(Command::Unknown { raw }) => {
            let mut echo = raw;
            echo.append("test");
            step_idle2(echo, "\"END\"".to_owned())
        },
        Err(CommandFormatError::Open) => step_idle2(
            "\"Invalid open command format\"".to_owned(),
            "\"END\"".to_owned(),
        ),
        Err(CommandFormatError::Remove) => step_idle2(
            "\"Invalid rm command format\"".to_owned(),
            "\"END\"".to_owned(),
        ),
        Err(CommandFormatError::Add) => step_idle2(
            "\"Invalid add command format. Use: add --name \\\"filename\\\" --format \\\"ext\\\" [--path \\\"dir/path\\\"] --data \\\"\\\"\\\"data\\\"\\\"\\\"\"".to_owned(),
            "\"END\"".to_owned(),
        ),
    }
}

/// Takes the dispatcher's step when the driver hands back the outcome of the
/// pending request. The reply must answer the pending request; file data
/// must fit the base64 engine's output-size arithmetic.
pub fn on_reply(pending: Pending, reply: FsReply) -> (r: Step)
    requires
        spec_compatible(pending@, reply@),
        (reply@ matches FsReplyView::FileData { result: Ok(d) } ==> d.len() <= 3 * (
        usize::MAX as int / 4)),
    ensures
        r@ == spec_on_reply(pending@, reply@),
{
    match (pending, reply) {
        (Pending::MountCmd, FsReply::Mount { mount }) => match mount {
            Some(mp) => step_idle2(
                wrap3("\"Device VID:0xb1b0 PID:0x8055 is mounted at: ", mp.as_str(), "\""),
                "\"END\"".to_owned(),
            ),
            None => step_idle2(
                "\"Device VID:0xb1b0 PID:0x8055 not found or not mounted\"".to_owned(),
                "\"END\"".to_owned(),
            ),
        },
        (Pending::ListMount { path }, FsReply::Mount { mount }) => match mount {
            Some(mp) => {
                let dir = match path {
                    Some(p) => join_path(mp.as_str(), p.as_str()),
                    None => mp.clone(),
                };
                let found = wrap3(
                    "\"Device VID:0xb1b0 PID:0x8055 is mounted at: ",
                    mp.as_str(),
                    "\"",
                );
                let heading = wrap3("\"Listing contents of: ", dir.as_str(), "\"");
                let req_dir = dir.clone();
                step_query2(
                    found,
                    heading,
                    FsRequest::CheckDir { path: req_dir },
                    Pending::ListRoot { dir },
                )
            },
            None => step_idle2(
                "\"Device VID:0xb1b0 PID:0x8055 not found or not mounted\"".to_owned(),
                "\"END\"".to_owned(),
            ),
        },
        (Pending::ListRoot { dir }, FsReply::IsDir { yes }) => {
            if yes {
                let path = dir.clone();
                step_query(FsRequest::ListDir { path }, Pending::ListNodes { dir })
            } else {
                step_idle2(
                    wrap3("\"Directory not found: ", dir.as_str(), "\""),
                    "\"END\"".to_owned(),
                )
            }
        },
        (Pending::ListNodes { dir }, FsReply::Listing { nodes }) => match nodes {
            Some(ns) => {
                let mut frames = listing_frames(&ns);
                let ghost entry_frames = frames.deep_view();
                frames.push("\"END\"".to_owned());
                let r = Step { frames, next: Next::Idle };
                proof {
                    assert(r@.frames =~= entry_frames + seq![end_text()]);
                }
                r
            },
            None => step_idle2(
                wrap3("\"Error reading directory: ", dir.as_str(), "\""),
                "\"END\"".to_owned(),
            ),
        },
        (Pending::OpenExists { loc }, FsReply::Exists { yes }) => {
            if yes {
                let opened = wrap3("\"File at location '", loc.as_str(), "' opened successfully\"");
                let path = loc.clone();
                step_query1(opened, FsRequest::ReadFile { path }, Pending::OpenRead { loc })
            } else {
                step_idle2(
                    "\"File not found at the specified location\"".to_owned(),
                    "\"END\"".to_owned(),
                )
            }
        },
        (Pending::OpenRead { loc: _ }, FsReply::FileData { result }) => match result {
            Ok(data) => {
                let b64 = crate::fileops::read_file_data_as_base64(&data);
                step_idle2(
                    wrap3("\"File base64: ", b64.as_str(), "\""),
                    "\"END\"".to_owned(),
                )
            },
            Err(e) => step_idle2(
                wrap3("\"Failed to read file data: ", e.as_str(), "\""),
                "\"END\"".to_owned(),
            ),
        },
        (Pending::RmMount { arg, by_name }, FsReply::Mount { mount }) => match mount {
            Some(mp) => {
                let target = if by_name {
                    join_path(mp.as_str(), arg.as_str())
                } else {
                    arg
                };
                let path = target.clone();
                step_query(FsRequest::CheckExists { path }, Pending::RmExists { target })
            },
            None => step_idle2(
                "\"Device not found or not mounted\"".to_owned(),
                "\"END\"".to_owned(),
            ),
        },
        (Pending::RmExists { target }, FsReply::Exists { yes }) => {
            if yes {
                let path = target.clone();
                step_query(FsRequest::RemoveFile { path }, Pending::RmRemove { target })
            } else {
                step_idle2("\"File not found\"".to_owned(), "\"END\"".to_owned())
            }
        },
        (Pending::RmRemove { target: _ }, FsReply::Removed { result }) => match result {
            Ok(_) => step_idle2("\"File removed successfully\"".to_owned(), "\"END\"".to_owned()),
            Err(e) => step_idle2(
                wrap3("\"Failed to remove file: ", e.as_str(), "\""),
                "\"END\"".to_owned(),
            ),
        },
        (Pending::AddMount { name, format, path, data }, FsReply::Mount { mount }) => match mount {
            Some(mp) => {
                let dir = match path {
                    Some(p) => join_path(mp.as_str(), p.as_str()),
                    None => mp.clone(),
                };
                let leaf = file_name_of(name.as_str(), format.as_str());
                let file = join_path(dir.as_str(), leaf.as_str());
                let bytes = decode_byte_list(data.as_str());
                let check = dir.clone();
                step_query(
                    FsRequest::CheckExists { path: check },
                    Pending::AddDirExists { dir, file, bytes },
                )
            },
            None => step_idle2(
                "\"Device not found or not mounted\"".to_owned(),
                "\"END\"".to_owned(),
            ),
        },
        (Pending::AddDirExists { dir, file, bytes }, FsReply::Exists { yes }) => {
            if yes {
                let path = file.clone();
                step_query(
                    FsRequest::WriteFile { path, data: bytes },
                    Pending::AddWrite { file },
                )
            } else {
                let path = dir.clone();
                step_query(
                    FsRequest::CreateDirAll { path },
                    Pending::AddCreate { dir, file, bytes },
                )
            }
        },
        (Pending::AddCreate { dir: _, file, bytes }, FsReply::Created { result }) => match result {
            Ok(_) => {
                let path = file.clone();
                step_query1(
                    "\"Created directory path\"".to_owned(),
                    FsRequest::WriteFile { path, data: bytes },
                    Pending::AddWrite { file },
                )
            },
            Err(e) => step_idle2(
                wrap3("\"Failed to create directory path: ", e.as_str(), "\""),
                "\"END\"".to_owned(),
            ),
        },
        (Pending::AddWrite { file }, FsReply::Written { result }) => match result {
            Ok(_) => step_idle2(
                wrap3("\"File created successfully at ", file.as_str(), "\""),
                "\"END\"".to_owned(),
            ),
            Err(e) => step_idle2(
                wrap3("\"Failed to write file: ", e.as_str(), "\""),
                "\"END\"".to_owned(),
            ),
        },
        (pending, reply) => {
            proof {
                assert(!spec_compatible(pending@, reply@));
            }
            vstd::pervasive::unreached()
        },
    }
}

} // verus!
