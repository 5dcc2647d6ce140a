//! Relative paths as they travel on the wire, and the proof that the ones
//! the receiver accepts stay inside its save directory.
//!
//! A wire path is cut into segments at `/`. To be safe under every local
//! convention, `\` counts as a separator too when a path is judged.

use vstd::prelude::*;
use vstd::string::StringSliceAdditionalSpecFns;
use crate::tokens::{split, split_bytes, views};

verus! {

/// Why a wire path was rejected.
#[derive(Clone, Copy, Debug, PartialEq, Eq, Structural)]
pub enum PathError {
    /// The path is empty.
    Empty,
    /// The path begins with a separator.
    Absolute,
    /// A segment is `.` or `..`.
    DotSegment,
}

/// The separator bytes `/` and `\`.
pub open spec fn separators() -> Seq<u8> {
    seq![47u8, 92u8]
}

/// The segment `.`.
pub open spec fn dot_segment() -> Seq<u8> {
    seq![46u8]
}

/// The segment `..`.
pub open spec fn dotdot_segment() -> Seq<u8> {
    seq![46u8, 46u8]
}

/// The segments of a path.
pub open spec fn segments(path: Seq<u8>) -> Seq<Seq<u8>> {
    split(path, separators())
}

pub open spec fn has_dot_segment(segs: Seq<Seq<u8>>) -> bool {
    exists|i: int| 0 <= i < segs.len() && (segs[i] == dot_segment() || segs[i] == dotdot_segment())
}

/// The judgement on a wire path.
pub open spec fn check_path(path: Seq<u8>) -> Result<(), PathError> {
    if path.len() == 0 {
        Err(PathError::Empty)
    } else if separators().contains(path[0]) {
        Err(PathError::Absolute)
    } else if has_dot_segment(segments(path)) {
        Err(PathError::DotSegment)
    } else {
        Ok(())
    }
}

/// A path is safe when it is accepted.
pub open spec fn path_is_safe(path: Seq<u8>) -> bool {
    check_path(path) is Ok
}

/// How a segment moves the position relative to the save directory:
/// `..` one level up, `.` and the empty segment not at all, any other
/// segment one level down.
pub open spec fn level_change(seg: Seq<u8>) -> int {
    if seg == dotdot_segment() {
        -1
    } else if seg == dot_segment() || seg.len() == 0 {
        0
    } else {
        1
    }
}

/// The level reached after walking `segs` from the save directory,
/// which is level 0. A negative level lies outside the save directory.
pub open spec fn level_after(segs: Seq<Seq<u8>>) -> int
    decreases segs.len(),
{
    if segs.len() == 0 {
        0
    } else {
        level_after(segs.drop_last()) + level_change(segs.last())
    }
}

/// No accepted path leaves the save directory: at every point of the walk
/// along its segments the position is at or below the save directory.
pub proof fn lemma_safe_path_stays_inside(path: Seq<u8>, k: int)
    requires
        path_is_safe(path),
        0 <= k <= segments(path).len(),
    ensures
        level_after(segments(path).take(k)) >= 0,
    decreases k,
{
    let segs = segments(path);
    if k > 0 {
        lemma_safe_path_stays_inside(path, k - 1);
        assert(segs.take(k).drop_last() =~= segs.take(k - 1));
        assert(segs.take(k).last() == segs[k - 1]);
        assert(segs[k - 1] != dotdot_segment());
    } else {
        assert(segs.take(0).len() == 0);
    }
}

/// An accepted path is relative and none of its segments is `.` or `..`.
pub proof fn lemma_safe_path_segments(path: Seq<u8>, i: int)
    requires
        path_is_safe(path),
        0 <= i < segments(path).len(),
    ensures
        path.len() > 0,
        path[0] != 47u8,
        path[0] != 92u8,
        segments(path)[i] != dot_segment(),
        segments(path)[i] != dotdot_segment(),
{
    assert(separators()[0] == 47u8);
    assert(separators()[1] == 92u8);
}

fn is_dots(seg: &Vec<u8>) -> (r: bool)
    ensures
        r == (seg@ == dot_segment() || seg@ == dotdot_segment()),
{
    if seg.len() == 1 {
        let r = seg[0] == 46;
        proof {
            if r {
                assert(seg@ =~= dot_segment());
            } else {
                assert(dot_segment()[0] == 46u8);
            }
        }
        r
    } else if seg.len() == 2 {
        let r = seg[0] == 46 && seg[1] == 46;
        proof {
            if r {
                assert(seg@ =~= dotdot_segment());
            } else {
                assert(dotdot_segment()[0] == 46u8);
                assert(dotdot_segment()[1] == 46u8);
            }
        }
        r
    } else {
        false
    }
}

/// Judges a wire path given as bytes and hands out its segments.
pub fn safe_segments(path: &[u8]) -> (r: Result<Vec<Vec<u8>>, PathError>)
    ensures
        match r {
            Ok(segs) => check_path(path@) is Ok && views(segs@) == segments(path@),
            Err(e) => check_path(path@) == Err::<(), PathError>(e),
        },
{
    if path.len() == 0 {
        return Err(PathError::Empty);
    }
    let seps: [u8; 2] = [47u8, 92u8];
    proof {
        assert(seps@ =~= separators());
    }
    if path[0] == 47 || path[0] == 92 {
        proof {
            assert(separators()[0] == 47u8);
            assert(separators()[1] == 92u8);
        }
        return Err(PathError::Absolute);
    }
    proof {
        assert(!separators().contains(path@[0])) by {
            if separators().contains(path@[0]) {
                let k = choose|k: int| 0 <= k < separators().len() && separators()[k] == path@[0];
                assert(separators()[k] == 47u8 || separators()[k] == 92u8);
            }
        }
    }
    let segs = split_bytes(path, seps.as_slice());
    let ghost all = segments(path@);
    let mut i: usize = 0;
    while i < segs.len()
        invariant
            i <= segs.len(),
            views(segs@) == all,
            all == segments(path@),
            path@.len() > 0,
            !separators().contains(path@[0]),
            forall|j: int| 0 <= j < i ==> all[j] != dot_segment() && all[j] != dotdot_segment(),
        decreases segs.len() - i,
    {
        proof {
            assert(views(segs@)[i as int] == segs@[i as int]@);
        }
        if is_dots(&segs[i]) {
            proof {
                assert(all[i as int] == dot_segment() || all[i as int] == dotdot_segment());
                assert(has_dot_segment(all));
            }
            return Err(PathError::DotSegment);
        }
        i += 1;
    }
    Ok(segs)
}

/// Judges a wire path.
pub fn validate_relative_path(path: &str) -> (r: Result<(), PathError>)
    ensures
        r == check_path(path.spec_bytes()),
{
    match safe_segments(path.as_bytes()) {
        Ok(_) => Ok(()),
        Err(e) => Err(e),
    }
}

} // verus!
