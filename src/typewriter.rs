//! The typewriter reveal of the dialogue box.
//!
//! The reveal cursor counts millionths of a character. The speed is in
//! thousandths of a character per second and elapsed time in milliseconds,
//! so a speed times an elapsed time is exactly a cursor distance.
use vstd::prelude::*;

verus! {

/// Cursor units per character.
pub const UNITS_PER_CHAR: u128 = 1_000_000;

pub open spec fn min(a: int, b: int) -> int {
    if a <= b { a } else { b }
}

/// The speed actually used: a negative setting does not move the cursor back.
pub open spec fn effective_speed(speed: int) -> int {
    if speed < 0 { 0 } else { speed }
}

/// One cycle of the reveal: advance by `speed * dt`, stopping at `limit`.
pub open spec fn reveal_step(cursor: int, speed: int, limit: int, dt: int) -> int {
    min(limit, cursor + effective_speed(speed) * dt)
}

/// The cursor after the cycles with elapsed times `ds`, from 0.
pub open spec fn reveal_after(speed: int, limit: int, ds: Seq<int>) -> int
    decreases ds.len(),
{
    if ds.len() == 0 {
        0
    } else {
        reveal_step(reveal_after(speed, limit, ds.drop_last()), speed, limit, ds.last())
    }
}

pub open spec fn total(ds: Seq<int>) -> int
    decreases ds.len(),
{
    if ds.len() == 0 {
        0
    } else {
        total(ds.drop_last()) + ds.last()
    }
}

/// After cycles with elapsed times `ds` the cursor is the smaller of the
/// text's length and speed times the total elapsed time.
pub proof fn lemma_reveal_law(speed: int, limit: int, ds: Seq<int>)
    requires
        limit >= 0,
        forall|i: int| 0 <= i < ds.len() ==> ds[i] >= 0,
    ensures
        reveal_after(speed, limit, ds) == min(limit, effective_speed(speed) * total(ds)),
    decreases ds.len(),
{
    let s = effective_speed(speed);
    if ds.len() > 0 {
        let pre = ds.drop_last();
        assert forall|i: int| 0 <= i < pre.len() implies pre[i] >= 0 by {
            assert(pre[i] == ds[i]);
        }
        lemma_reveal_law(speed, limit, pre);
        let d = ds.last();
        assert(d >= 0);
        let t = total(pre);
        assert(t >= 0) by {
            lemma_total_nonneg(pre);
        }
        assert(s * (t + d) == s * t + s * d) by (nonlinear_arith);
        assert(s * d >= 0) by (nonlinear_arith)
            requires
                s >= 0,
                d >= 0,
        ;
    }
}

proof fn lemma_total_nonneg(ds: Seq<int>)
    requires
        forall|i: int| 0 <= i < ds.len() ==> ds[i] >= 0,
    ensures
        total(ds) >= 0,
    decreases ds.len(),
{
    if ds.len() > 0 {
        let pre = ds.drop_last();
        assert forall|i: int| 0 <= i < pre.len() implies pre[i] >= 0 by {
            assert(pre[i] == ds[i]);
        }
        lemma_total_nonneg(pre);
        assert(ds[ds.len() - 1] >= 0);
    }
}

/// One cycle of the reveal, computed.
pub fn advance_cursor(cursor: u128, speed: i64, limit: u128, dt: u32) -> (r: u128)
    requires
        cursor <= limit,
        limit <= usize::MAX as u128 * UNITS_PER_CHAR,
    ensures
        r as int == reveal_step(cursor as int, speed as int, limit as int, dt as int),
        cursor <= r <= limit,
{
    let s: u128 = if speed < 0 { 0 } else { speed as u128 };
    assert(s * (dt as u128) <= (i64::MAX as u128) * (u32::MAX as u128)) by (nonlinear_arith)
        requires
            s <= i64::MAX,
            dt <= u32::MAX,
    ;
    let next = cursor + s * (dt as u128);
    if next < limit {
        next
    } else {
        limit
    }
}

} // verus!
