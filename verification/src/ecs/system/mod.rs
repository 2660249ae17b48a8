//! The systems that run over the world each tick: simulation systems
//! (collision, particles, velocity integration, animation advancement) and
//! the render-data extraction passes that feed the thread-affine renderer.

pub mod collision;
pub mod light;
pub mod text;
pub mod movement;
pub mod particle;
pub mod sprite;

use vstd::prelude::*;

verus! {

/// The screen-clear pass that opens every thread-affine render sequence.
/// It touches no component state; the scheduler emits its draw batch.
pub struct RenderSys;

/// A value clamped to the `i64` range.
pub open spec fn sat_i64(x: int) -> int {
    if x > i64::MAX {
        i64::MAX as int
    } else if x < i64::MIN {
        i64::MIN as int
    } else {
        x
    }
}

/// The records an extraction pass yields for entity indices `0..n`, in
/// index order: `pick` says which entities yield a record and what it is.
pub open spec fn filtered_records<R>(n: int, pick: spec_fn(int) -> Option<R>) -> Seq<R>
    decreases n,
{
    if n <= 0 {
        Seq::empty()
    } else {
        filtered_records(n - 1, pick) + (match pick(n - 1) {
            Some(r) => seq![r],
            None => Seq::empty(),
        })
    }
}

/// Scanning one more entity appends its record, if it yields one.
pub proof fn lemma_filtered_records_step<R>(n: int, pick: spec_fn(int) -> Option<R>)
    requires
        n >= 0,
    ensures
        filtered_records(n + 1, pick) == filtered_records(n, pick) + (match pick(n) {
            Some(r) => seq![r],
            None => Seq::empty(),
        }),
{
    let n1 = n + 1;
    assert(filtered_records(n1, pick) == filtered_records(n1 - 1, pick) + (match pick(n1 - 1) {
        Some(r) => seq![r],
        None => Seq::empty(),
    }));
    assert(n1 - 1 == n);
}

} // verus!
