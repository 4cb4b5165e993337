//! The transfer decision rule, evaluated per file at execution time, and the
//! laws it obeys: a second run over unchanged sides finds every path synced
//! and writes nothing, and a push followed by a pull (or the reverse) leaves
//! both sides byte-identical.

use vstd::prelude::*;
use crate::strutil::bytes_equal;

verus! {

/// What happens to one (target, server, relative path) triple: the
/// destination lacks the path, holds different bytes, or already holds the
/// source's bytes exactly.
#[derive(Clone, Copy, Debug, PartialEq, Eq, Structural)]
pub enum FileDecision {
    Create,
    Update,
    Synced,
}

/// The view of an optional content.
pub open spec fn opt_bytes_view(o: Option<Vec<u8>>) -> Option<Seq<u8>> {
    match o {
        Option::Some(b) => Option::Some(b@),
        Option::None => Option::None,
    }
}

/// The decision rule: no destination file means `Create`; byte-for-byte
/// equal contents (no normalization) mean `Synced`; anything else means
/// `Update`.
pub open spec fn decision_of(src: Seq<u8>, dst: Option<Seq<u8>>) -> FileDecision {
    match dst {
        Option::None => FileDecision::Create,
        Option::Some(d) => if d == src {
            FileDecision::Synced
        } else {
            FileDecision::Update
        },
    }
}

/// Only `Synced` performs no write.
pub open spec fn decision_writes(d: FileDecision) -> bool {
    !(d is Synced)
}

pub fn classify_file(source: &Vec<u8>, dest: &Option<Vec<u8>>) -> (r: FileDecision)
    ensures
        r == decision_of(source@, opt_bytes_view(*dest)),
{
    match dest {
        Option::None => FileDecision::Create,
        Option::Some(d) => {
            if bytes_equal(d, source) {
                FileDecision::Synced
            } else {
                FileDecision::Update
            }
        },
    }
}

/// Whether this decision writes the source's bytes to the destination (the
/// write is suppressed in dry-run mode, the decision is not).
pub fn decision_needs_write(d: &FileDecision) -> (r: bool)
    ensures
        r == decision_writes(*d),
{
    match d {
        FileDecision::Synced => false,
        _ => true,
    }
}

/// A whole side after one sync run: every path of the run takes the source's
/// bytes (by a write for `Create` and `Update`, vacuously for `Synced`);
/// every other path keeps what it had.
pub open spec fn sync_paths(
    src: Map<Seq<char>, Seq<u8>>,
    dst: Map<Seq<char>, Seq<u8>>,
    paths: Seq<Seq<char>>,
) -> Map<Seq<char>, Seq<u8>>
    decreases paths.len(),
{
    if paths.len() == 0 {
        dst
    } else if src.dom().contains(paths.first()) {
        sync_paths(src, dst.insert(paths.first(), src[paths.first()]), paths.drop_first())
    } else {
        sync_paths(src, dst, paths.drop_first())
    }
}

/// After a run, every path of the run holds the source's bytes, and every
/// other path is untouched.
pub proof fn lemma_sync_paths_result(
    src: Map<Seq<char>, Seq<u8>>,
    dst: Map<Seq<char>, Seq<u8>>,
    paths: Seq<Seq<char>>,
)
    requires
        forall|i: int| 0 <= i < paths.len() ==> src.dom().contains(#[trigger] paths[i]),
    ensures
        forall|p: Seq<char>|
            paths.contains(p) ==> sync_paths(src, dst, paths).dom().contains(p) && sync_paths(
                src,
                dst,
                paths,
            )[p] == src[p],
        forall|p: Seq<char>|
            !paths.contains(p) ==> sync_paths(src, dst, paths).dom().contains(p)
                == dst.dom().contains(p) && (dst.dom().contains(p) ==> sync_paths(
                src,
                dst,
                paths,
            )[p] == dst[p]),
    decreases paths.len(),
{
    if paths.len() == 0 {
        assert(forall|p: Seq<char>| !paths.contains(p));
    } else {
        let head = paths.first();
        let rest = paths.drop_first();
        assert(paths.contains(head)) by {
            assert(paths[0] == head);
        }
        assert(src.dom().contains(head)) by {
            assert(paths[0] == head);
        }
        assert(forall|i: int| 0 <= i < rest.len() ==> src.dom().contains(#[trigger] rest[i]))
            by {
            assert(forall|i: int| 0 <= i < rest.len() ==> rest[i] == paths[i + 1]);
        }
        let dst1 = dst.insert(head, src[head]);
        lemma_sync_paths_result(src, dst1, rest);
        assert forall|p: Seq<char>| paths.contains(p) implies sync_paths(
            src,
            dst,
            paths,
        ).dom().contains(p) && sync_paths(src, dst, paths)[p] == src[p] by {
            if rest.contains(p) {
            } else {
                let i = choose|i: int| 0 <= i < paths.len() && paths[i] == p;
                if i > 0 {
                    assert(rest[i - 1] == p);
                    assert(rest.contains(p));
                } else {
                    assert(p == head);
                }
            }
        }
        assert forall|p: Seq<char>| !paths.contains(p) implies sync_paths(
            src,
            dst,
            paths,
        ).dom().contains(p) == dst.dom().contains(p) && (dst.dom().contains(p) ==> sync_paths(
            src,
            dst,
            paths,
        )[p] == dst[p]) by {
            assert(!rest.contains(p)) by {
                if rest.contains(p) {
                    let i = choose|i: int| 0 <= i < rest.len() && rest[i] == p;
                    assert(paths[i + 1] == p);
                }
            }
            assert(p != head);
        }
    }
}

/// A run whose destination already agrees with the source everywhere it
/// touches changes nothing at all.
pub proof fn lemma_sync_paths_noop(
    src: Map<Seq<char>, Seq<u8>>,
    dst: Map<Seq<char>, Seq<u8>>,
    paths: Seq<Seq<char>>,
)
    requires
        forall|i: int|
            0 <= i < paths.len() ==> src.dom().contains(#[trigger] paths[i]) && dst.dom().contains(
                paths[i],
            ) && dst[paths[i]] == src[paths[i]],
    ensures
        sync_paths(src, dst, paths) == dst,
    decreases paths.len(),
{
    if paths.len() > 0 {
        let head = paths.first();
        let rest = paths.drop_first();
        assert(paths[0] == head);
        assert(dst.insert(head, src[head]) =~= dst);
        assert(forall|i: int| 0 <= i < rest.len() ==> rest[i] == paths[i + 1]);
        lemma_sync_paths_noop(src, dst, rest);
    }
}

/// Idempotence: after one run, a second run over the same unchanged sides
/// decides `Synced` for every path, performs not one write, and leaves the
/// destination exactly as the first run left it.
pub proof fn lemma_sync_idempotent(
    src: Map<Seq<char>, Seq<u8>>,
    dst: Map<Seq<char>, Seq<u8>>,
    paths: Seq<Seq<char>>,
)
    requires
        forall|i: int| 0 <= i < paths.len() ==> src.dom().contains(#[trigger] paths[i]),
    ensures
        ({
            let once = sync_paths(src, dst, paths);
            &&& forall|i: int|
                0 <= i < paths.len() ==> decision_of(
                    src[#[trigger] paths[i]],
                    Option::Some(once[paths[i]]),
                ) is Synced
            &&& forall|i: int|
                0 <= i < paths.len() ==> !decision_writes(decision_of(
                    src[#[trigger] paths[i]],
                    Option::Some(once[paths[i]]),
                ))
            &&& sync_paths(src, once, paths) == once
        }),
{
    let once = sync_paths(src, dst, paths);
    lemma_sync_paths_result(src, dst, paths);
    assert(forall|i: int| 0 <= i < paths.len() ==> paths.contains(#[trigger] paths[i]));
    lemma_sync_paths_noop(src, once, paths);
}

/// Round-trip: pushing an unmodified target and then pulling it (or the
/// other way round) leaves both sides byte-identical on every path of the
/// run, classifies every path `Synced` on the way back, and does not change
/// the originating side at all.
pub proof fn lemma_round_trip(
    local: Map<Seq<char>, Seq<u8>>,
    remote: Map<Seq<char>, Seq<u8>>,
    paths: Seq<Seq<char>>,
)
    requires
        forall|i: int| 0 <= i < paths.len() ==> local.dom().contains(#[trigger] paths[i]),
    ensures
        ({
            let pushed = sync_paths(local, remote, paths);
            let pulled_back = sync_paths(pushed, local, paths);
            &&& pulled_back == local
            &&& forall|i: int|
                0 <= i < paths.len() ==> pushed[#[trigger] paths[i]] == local[paths[i]]
            &&& forall|i: int|
                0 <= i < paths.len() ==> decision_of(
                    pushed[#[trigger] paths[i]],
                    Option::Some(local[paths[i]]),
                ) is Synced
        }),
{
    let pushed = sync_paths(local, remote, paths);
    lemma_sync_paths_result(local, remote, paths);
    assert(forall|i: int| 0 <= i < paths.len() ==> paths.contains(#[trigger] paths[i]));
    assert(forall|i: int| 0 <= i < paths.len() ==> pushed.dom().contains(#[trigger] paths[i]));
    lemma_sync_paths_noop(pushed, local, paths);
}

} // verus!
