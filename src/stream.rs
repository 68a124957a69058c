use vstd::prelude::*;

use crate::event::{Artifact, Decoded, Message};
use crate::path::{ancestors_of, first_marked, has_file_name, join, project_root, with_extension};
use crate::router::{binary_source, container_ext, event_act, Act, Fatal};

verus! {

/// The marker answers for the ancestors of `src` in a filesystem where
/// `is_file` tells which paths are files.
pub open spec fn marker_answers(src: Seq<char>, is_file: spec_fn(Seq<char>) -> bool) -> Seq<bool> {
    ancestors_of(src).map_values(|p: Seq<char>| is_file(join(p, "Cargo.toml"@)))
}

/// What one event asks for in a filesystem where `is_file` and `is_dir` tell
/// which paths are files and directories.
pub open spec fn act_in(
    d: Decoded,
    is_file: spec_fn(Seq<char>) -> bool,
    is_dir: spec_fn(Seq<char>) -> bool,
) -> Act {
    match binary_source(d) {
        None => event_act(d, seq![], false),
        Some(src) => {
            let marked = marker_answers(src, is_file);
            let res_present = match project_root(src, marked) {
                Some(root) => is_dir(join(root, "res"@)),
                None => false,
            };
            event_act(d, marked, res_present)
        },
    }
}

/// The actions taken over an event stream, in order, up to and including the
/// first one that aborts.
pub open spec fn run(
    events: Seq<Decoded>,
    is_file: spec_fn(Seq<char>) -> bool,
    is_dir: spec_fn(Seq<char>) -> bool,
) -> Seq<Act>
    decreases events.len(),
{
    if events.len() == 0 {
        seq![]
    } else {
        let a = act_in(events[0], is_file, is_dir);
        if a is Abort {
            seq![a]
        } else {
            seq![a] + run(events.drop_first(), is_file, is_dir)
        }
    }
}

proof fn lemma_run_index(
    events: Seq<Decoded>,
    is_file: spec_fn(Seq<char>) -> bool,
    is_dir: spec_fn(Seq<char>) -> bool,
    k: int,
)
    requires
        0 <= k < run(events, is_file, is_dir).len(),
    ensures
        k < events.len(),
        run(events, is_file, is_dir)[k] == act_in(events[k], is_file, is_dir),
        k + 1 < run(events, is_file, is_dir).len() <==> (k + 1 < events.len() && !(act_in(
            events[k],
            is_file,
            is_dir,
        ) is Abort)),
    decreases k,
{
    let rest = events.drop_first();
    let a = act_in(events[0], is_file, is_dir);
    if !(a is Abort) {
        assert(run(events, is_file, is_dir) == seq![a] + run(rest, is_file, is_dir));
        if rest.len() == 0 {
            assert(run(rest, is_file, is_dir).len() == 0);
        } else {
            assert(run(rest, is_file, is_dir).len() > 0);
        }
    }
    if k > 0 {
        lemma_run_index(rest, is_file, is_dir, k - 1);
        assert(rest[k - 1] == events[k]);
    }
}

proof fn lemma_unmarked_has_no_root(cands: Seq<Seq<char>>, marked: Seq<bool>)
    requires
        forall|i: int| 0 <= i < cands.len() && i < marked.len() ==> !marked[i],
    ensures
        first_marked(cands, marked) is None,
    decreases cands.len(),
{
    if cands.len() > 0 && marked.len() > 0 {
        let c = cands.drop_first();
        let m = marked.drop_first();
        assert forall|i: int| 0 <= i < c.len() && i < m.len() implies !m[i] by {
            assert(m[i] == marked[i + 1]);
        }
        lemma_unmarked_has_no_root(c, m);
    }
}

/// A binary artifact whose project root is found and whose primary file has
/// a file name is packaged by exactly one action: its primary file is the
/// image, the container path replaces that file's extension, and the
/// resource bundle is `<root>/res` exactly when that is a directory.
pub proof fn lemma_binary_artifact_packaged(
    a: Artifact,
    is_file: spec_fn(Seq<char>) -> bool,
    is_dir: spec_fn(Seq<char>) -> bool,
)
    requires
        a.target.is_binary(),
        project_root(a.target.src_path@, marker_answers(a.target.src_path@, is_file)) is Some,
        a.filenames@.len() > 0,
        has_file_name(a.filenames@[0]@),
    ensures
        ({
            let root = project_root(
                a.target.src_path@,
                marker_answers(a.target.src_path@, is_file),
            )->0;
            let image = a.filenames@[0]@;
            act_in(Decoded::Event(Message::Artifact(a)), is_file, is_dir) == Act::Package(
                image,
                with_extension(image, container_ext())->0,
                if is_dir(join(root, "res"@)) {
                    Some(join(root, "res"@))
                } else {
                    None
                },
            )
        }),
{
}

/// An artifact of any other kind than a binary asks for nothing.
pub proof fn lemma_other_artifact_ignored(a: Artifact, marked: Seq<bool>, res_present: bool)
    requires
        !a.target.is_binary(),
    ensures
        event_act(Decoded::Event(Message::Artifact(a)), marked, res_present) == Act::Ignore,
{
}

/// After a malformed event the stream goes on: if the run reaches it and
/// another event follows, that event is handled too.
pub proof fn lemma_malformed_continues(
    events: Seq<Decoded>,
    is_file: spec_fn(Seq<char>) -> bool,
    is_dir: spec_fn(Seq<char>) -> bool,
    n: int,
)
    requires
        0 <= n,
        n + 1 < events.len(),
        events[n] is Malformed,
        n < run(events, is_file, is_dir).len(),
    ensures
        run(events, is_file, is_dir)[n] == Act::Report(events[n]->Malformed_0@),
        n + 1 < run(events, is_file, is_dir).len(),
        run(events, is_file, is_dir)[n + 1] == act_in(events[n + 1], is_file, is_dir),
{
    lemma_run_index(events, is_file, is_dir, n);
    lemma_run_index(events, is_file, is_dir, n + 1);
}

/// A binary artifact none of whose source path's ancestors holds the
/// manifest marker stops the run, and is not packaged.
pub proof fn lemma_rootless_binary_aborts(
    a: Artifact,
    is_file: spec_fn(Seq<char>) -> bool,
    is_dir: spec_fn(Seq<char>) -> bool,
)
    requires
        a.target.is_binary(),
        forall|p: Seq<char>|
            ancestors_of(a.target.src_path@).contains(p) ==> !is_file(#[trigger] join(p, "Cargo.toml"@)),
    ensures
        act_in(Decoded::Event(Message::Artifact(a)), is_file, is_dir) == Act::Abort(
            Fatal::NoProjectRoot,
        ),
{
    let anc = ancestors_of(a.target.src_path@);
    let marked = marker_answers(a.target.src_path@, is_file);
    assert forall|i: int| 0 <= i < anc.len() && i < marked.len() implies !marked[i] by {
        assert(anc.contains(anc[i]));
    }
    lemma_unmarked_has_no_root(anc, marked);
}

/// Running over the same events in the same filesystem state gives the same
/// actions, packagings included, in the same order.
pub proof fn lemma_rerun_identical(
    events: Seq<Decoded>,
    is_file: spec_fn(Seq<char>) -> bool,
    is_dir: spec_fn(Seq<char>) -> bool,
    is_file_again: spec_fn(Seq<char>) -> bool,
    is_dir_again: spec_fn(Seq<char>) -> bool,
)
    requires
        forall|p: Seq<char>| #[trigger] is_file(p) == is_file_again(p),
        forall|p: Seq<char>| #[trigger] is_dir(p) == is_dir_again(p),
    ensures
        run(events, is_file, is_dir) == run(events, is_file_again, is_dir_again),
{
    assert(is_file =~= is_file_again);
    assert(is_dir =~= is_dir_again);
}

} // verus!
