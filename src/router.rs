use vstd::prelude::*;

use crate::event::{Artifact, Decoded, Message, Payload, Target, TargetKind};
use crate::path::{
    find_project_root, join, project_root, replace_extension, resource_dir, with_extension,
};

verus! {

/// A condition that ends the whole run.
#[derive(Clone, Copy, Debug, PartialEq, Eq, Structural)]
pub enum Fatal {
    /// The event stream itself broke.
    StreamCorrupt,
    /// No ancestor of a binary's source path holds the manifest marker.
    NoProjectRoot,
    /// A binary artifact lists no produced file.
    NoProducedFile,
    /// A binary's primary file path names no file, so has no extension slot.
    NoFileName,
    /// A compiler message whose payload is not a JSON object.
    PayloadNotObject,
    /// A compiler message without a `rendered` text.
    MissingRendered,
    /// A compiler message without `children`.
    MissingChildren,
}

/// Packaging of one binary: its image, the container to write and the
/// resource bundle to embed, if any.
#[derive(Debug)]
pub struct PackageJob {
    pub image: String,
    pub output: String,
    pub resources: Option<String>,
}

/// What to do about one decoded event.
#[derive(Debug)]
pub enum Action {
    /// Nothing.
    Ignore,
    /// Print a malformed event's description and go on.
    Report(String),
    /// Print a compiler diagnostic: its rendered text, then its children.
    Show { rendered: String, children: String },
    /// Package a binary, then go on.
    Package(PackageJob),
    /// Stop the run.
    Abort(Fatal),
}

/// An action, with its strings seen as character sequences.
pub enum Act {
    Ignore,
    Report(Seq<char>),
    Show(Seq<char>, Seq<char>),
    Package(Seq<char>, Seq<char>, Option<Seq<char>>),
    Abort(Fatal),
}

pub open spec fn opt_view(o: Option<String>) -> Option<Seq<char>> {
    match o {
        Some(s) => Some(s@),
        None => None,
    }
}

impl View for Action {
    type V = Act;

    open spec fn view(&self) -> Act {
        match self {
            Action::Ignore => Act::Ignore,
            Action::Report(s) => Act::Report(s@),
            Action::Show { rendered, children } => Act::Show(rendered@, children@),
            Action::Package(j) => Act::Package(j.image@, j.output@, opt_view(j.resources)),
            Action::Abort(f) => Act::Abort(*f),
        }
    }
}

/// The extension of the container format.
pub open spec fn container_ext() -> Seq<char> {
    seq!['n', 'r', 'o']
}

/// What a compiler message's payload asks for.
pub open spec fn diagnostic_act(p: Payload) -> Act {
    match p {
        Payload::Object { rendered, children } => match rendered {
            None => Act::Abort(Fatal::MissingRendered),
            Some(r) => match children {
                None => Act::Abort(Fatal::MissingChildren),
                Some(c) => Act::Show(r@, c@),
            },
        },
        Payload::Other(_) => Act::Abort(Fatal::PayloadNotObject),
    }
}

/// What a binary artifact asks for, where `marked[i]` tells whether the
/// `i`-th ancestor of its source path holds the manifest marker, and
/// `res_present` whether the root's resource directory exists.
pub open spec fn binary_act(a: Artifact, marked: Seq<bool>, res_present: bool) -> Act {
    match project_root(a.target.src_path@, marked) {
        None => Act::Abort(Fatal::NoProjectRoot),
        Some(root) => if a.filenames@.len() == 0 {
            Act::Abort(Fatal::NoProducedFile)
        } else {
            let image = a.filenames@[0]@;
            match with_extension(image, container_ext()) {
                None => Act::Abort(Fatal::NoFileName),
                Some(out) => Act::Package(
                    image,
                    out,
                    if res_present {
                        Some(join(root, "res"@))
                    } else {
                        None
                    },
                ),
            }
        },
    }
}

/// What one decoded event asks for, given the answers of the filesystem
/// probes that a binary artifact needs (see `binary_act`).
pub open spec fn event_act(d: Decoded, marked: Seq<bool>, res_present: bool) -> Act {
    match d {
        Decoded::Corrupt(_) => Act::Abort(Fatal::StreamCorrupt),
        Decoded::Malformed(e) => Act::Report(e@),
        Decoded::Event(m) => match m {
            Message::Artifact(a) => if a.target.is_binary() {
                binary_act(a, marked, res_present)
            } else {
                Act::Ignore
            },
            Message::Message(c) => diagnostic_act(c.message),
            Message::BuildScript(_) => Act::Ignore,
            Message::Other => Act::Ignore,
        },
    }
}

/// The source path of a binary artifact event, whose project root must be
/// looked up before the event is handled.
pub open spec fn binary_source(d: Decoded) -> Option<Seq<char>> {
    match d {
        Decoded::Event(m) => match m {
            Message::Artifact(a) => if a.target.is_binary() {
                Some(a.target.src_path@)
            } else {
                None
            },
            _ => None,
        },
        _ => None,
    }
}

fn is_binary(t: &Target) -> (r: bool)
    ensures
        r == t.is_binary(),
{
    t.kind.len() > 0 && t.kind[0] == TargetKind::Bin
}

/// The source path whose ancestors must be probed for the manifest marker
/// before `process_event` can handle `d`; `None` when `d` needs no probe.
pub fn packaging_source(d: &Decoded) -> (r: Option<String>)
    ensures
        opt_view(r) == binary_source(*d),
{
    match d {
        Decoded::Event(Message::Artifact(a)) => {
            if is_binary(&a.target) {
                Some(a.target.src_path.clone())
            } else {
                None
            }
        },
        _ => None,
    }
}

/// Turns a compiler message's payload into the lines to print, or the fatal
/// condition that a malformed payload is.
pub fn render_diagnostic(p: &Payload) -> (r: Action)
    ensures
        r@ == diagnostic_act(*p),
{
    match p {
        Payload::Object { rendered, children } => match rendered {
            None => Action::Abort(Fatal::MissingRendered),
            Some(r) => match children {
                None => Action::Abort(Fatal::MissingChildren),
                Some(c) => Action::Show { rendered: r.clone(), children: c.clone() },
            },
        },
        Payload::Other(_) => Action::Abort(Fatal::PayloadNotObject),
    }
}

/// Plans the packaging of a binary artifact.
pub fn package_binary(a: &Artifact, marked: &Vec<bool>, res_present: bool) -> (r: Action)
    ensures
        r@ == binary_act(*a, marked@, res_present),
{
    proof {
        reveal_strlit("nro");
        assert("nro"@ =~= container_ext());
    }
    let root = match find_project_root(a.target.src_path.as_str(), marked) {
        None => return Action::Abort(Fatal::NoProjectRoot),
        Some(root) => root,
    };
    if a.filenames.len() == 0 {
        return Action::Abort(Fatal::NoProducedFile);
    }
    let image = &a.filenames[0];
    match replace_extension(image.as_str(), "nro") {
        None => Action::Abort(Fatal::NoFileName),
        Some(output) => {
            let resources = if res_present {
                Some(resource_dir(root.as_str()))
            } else {
                None
            };
            Action::Package(PackageJob { image: image.clone(), output, resources })
        },
    }
}

/// Decides what to do about one decoded event. For a binary artifact,
/// `marked[i]` tells whether the `i`-th entry of `ancestors` of its source
/// path holds the manifest marker, and `res_present` whether the resource
/// directory of the root so found exists; other events ignore both.
pub fn process_event(d: &Decoded, marked: &Vec<bool>, res_present: bool) -> (r: Action)
    ensures
        r@ == event_act(*d, marked@, res_present),
{
    match d {
        Decoded::Corrupt(_) => Action::Abort(Fatal::StreamCorrupt),
        Decoded::Malformed(e) => Action::Report(e.clone()),
        Decoded::Event(Message::Artifact(a)) => {
            if is_binary(&a.target) {
                package_binary(a, marked, res_present)
            } else {
                Action::Ignore
            }
        },
        Decoded::Event(Message::Message(c)) => render_diagnostic(&c.message),
        Decoded::Event(Message::BuildScript(_)) => Action::Ignore,
        Decoded::Event(Message::Other) => Action::Ignore,
    }
}

} // verus!
