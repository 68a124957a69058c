use vstd::prelude::*;

verus! {

/// The kind of a build target, as the build driver names it.
#[derive(Clone, Copy, Debug, Hash, PartialEq, Eq, Structural, PartialOrd, Ord)]
pub enum TargetKind {
    Lib,
    Bin,
    Test,
    Bench,
    Example,
    CustomBuild,
}

/// The name under which the build driver writes a target kind.
pub open spec fn kind_name(k: TargetKind) -> Seq<char> {
    match k {
        TargetKind::Lib => "lib"@,
        TargetKind::Bin => "bin"@,
        TargetKind::Test => "test"@,
        TargetKind::Bench => "bench"@,
        TargetKind::Example => "example"@,
        TargetKind::CustomBuild => "custom-build"@,
    }
}

impl TargetKind {
    /// The wire name of this kind (`"bin"`, `"custom-build"`, ...).
    pub fn name(&self) -> (r: &'static str)
        ensures
            r@ == kind_name(*self),
    {
        match self {
            TargetKind::Lib => "lib",
            TargetKind::Bin => "bin",
            TargetKind::Test => "test",
            TargetKind::Bench => "bench",
            TargetKind::Example => "example",
            TargetKind::CustomBuild => "custom-build",
        }
    }
}

/// What the build driver says about a target.
pub struct Target {
    /// The target's kinds; only the first one carries meaning here.
    pub kind: Vec<TargetKind>,
    /// The crate types the compiler was asked for.
    pub crate_types: Vec<String>,
    pub name: String,
    /// Path of the target's root source file.
    pub src_path: String,
    pub edition: String,
    pub required_features: Option<Vec<String>>,
}

impl Target {
    /// A target is packaged when its first kind is `Bin`.
    pub open spec fn is_binary(&self) -> bool {
        self.kind@.len() > 0 && self.kind@[0] == TargetKind::Bin
    }
}

/// The build profile an artifact was compiled with.
pub struct ArtifactProfile {
    pub opt_level: String,
    pub debuginfo: Option<u32>,
    pub debug_assertions: bool,
    pub overflow_checks: bool,
    pub test: bool,
}

/// A file, or a set of files, that the build driver has produced.
pub struct Artifact {
    pub package_id: String,
    pub target: Target,
    pub profile: ArtifactProfile,
    pub features: Vec<String>,
    /// Produced files; the first is the primary one.
    pub filenames: Vec<String>,
    pub fresh: bool,
}

/// The structured payload of a compiler message, reduced to what is shown.
pub enum Payload {
    /// A JSON object: its `rendered` text, when that field is a string, and
    /// the debug text of its `children` field, when it is present.
    Object { rendered: Option<String>, children: Option<String> },
    /// Any other JSON value, with its debug text.
    Other(String),
}

/// A compiler diagnostic about one target.
pub struct FromCompiler {
    pub package_id: String,
    pub target: Target,
    pub message: Payload,
}

/// The result of running a package's build script.
pub struct BuildScript {
    pub package_id: String,
    pub linked_libs: Vec<String>,
    pub linked_paths: Vec<String>,
    pub cfgs: Vec<String>,
    pub env: Vec<(String, String)>,
}

/// One build event, by its `reason` tag.
pub enum Message {
    Artifact(Artifact),
    Message(FromCompiler),
    BuildScript(BuildScript),
    /// An event whose tag this handler does not know; it is ignored.
    Other,
}

/// One item of the decoded event stream.
pub enum Decoded {
    /// An event that decoded.
    Event(Message),
    /// A value that did not match any event shape, with a description.
    Malformed(String),
    /// The stream itself is broken, with a description.
    Corrupt(String),
}

/// The edition a target has when the event does not name one.
pub fn default_edition() -> (r: String)
    ensures
        r@ == "2015"@,
{
    String::from_str("2015")
}

} // verus!
