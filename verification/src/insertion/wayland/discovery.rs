//! Choosing the input-method manager and the seat after the registry was read.
use vstd::prelude::*;
use crate::insertion::outcome::InsertionBackendKind;
use crate::insertion::outcome::InsertionFailure;
use crate::insertion::outcome::InsertionIoOperation;
use crate::insertion::outcome::InsertionTargetKind;

verus! {

/// A seat count as reported in a failure: the count, or `u32::MAX` beyond it.
pub fn seat_count_for_report(count: usize) -> (r: u32)
    ensures
        r == (if count <= u32::MAX {
            count as u32
        } else {
            u32::MAX
        }),
{
    if count <= u32::MAX as usize {
        count as u32
    } else {
        u32::MAX
    }
}

/// The number of `true` entries of `s`.
pub open spec fn count_true(s: Seq<bool>) -> nat
    decreases s.len(),
{
    if s.len() == 0 {
        0
    } else {
        count_true(s.drop_last()) + if s.last() {
            1nat
        } else {
            0nat
        }
    }
}

/// The index of the first `true` entry of `s`, or `s.len()` when there is none.
pub open spec fn first_true(s: Seq<bool>) -> int
    decreases s.len(),
{
    if s.len() == 0 {
        0
    } else if s[0] {
        0
    } else {
        1 + first_true(s.drop_first())
    }
}

proof fn lemma_count_true_push(s: Seq<bool>, b: bool)
    ensures
        count_true(s.push(b)) == count_true(s) + if b {
            1nat
        } else {
            0nat
        },
{
    assert(s.push(b).drop_last() =~= s);
}

/// The seat to insert through: with no input-method manager the backend is
/// unavailable; with no seat that has a keyboard the target is unavailable; with more
/// than one it is ambiguous; otherwise the index of the one keyboard seat.
pub fn choose_keyboard_seat(has_manager: bool, seat_has_keyboard: &Vec<bool>) -> (r: Result<
    usize,
    InsertionFailure,
>)
    ensures
        !has_manager ==> r == Err::<usize, InsertionFailure>(
            InsertionFailure::BackendUnavailable {
                backend: InsertionBackendKind::WaylandInputMethod,
            },
        ),
        has_manager && count_true(seat_has_keyboard@) == 0 ==> r == Err::<usize, InsertionFailure>(
            InsertionFailure::TargetUnavailable { target: InsertionTargetKind::Seat },
        ),
        has_manager && count_true(seat_has_keyboard@) > 1 ==> r == Err::<usize, InsertionFailure>(
            InsertionFailure::AmbiguousTarget {
                target: InsertionTargetKind::Seat,
                count: if count_true(seat_has_keyboard@) <= u32::MAX {
                    count_true(seat_has_keyboard@) as u32
                } else {
                    u32::MAX
                },
            },
        ),
        has_manager && count_true(seat_has_keyboard@) == 1 ==> (r matches Ok(i) && i
            < seat_has_keyboard@.len() && seat_has_keyboard@[i as int]),
{
    if !has_manager {
        return Err(
            InsertionFailure::BackendUnavailable {
                backend: InsertionBackendKind::WaylandInputMethod,
            },
        );
    }
    let mut count: usize = 0;
    let mut first: usize = 0;
    let mut i: usize = 0;
    while i < seat_has_keyboard.len()
        invariant
            i <= seat_has_keyboard@.len(),
            count == count_true(seat_has_keyboard@.subrange(0, i as int)),
            count <= i,
            count > 0 ==> first < i && seat_has_keyboard@[first as int],
        decreases seat_has_keyboard@.len() - i,
    {
        proof {
            assert(seat_has_keyboard@.subrange(0, i + 1) =~= seat_has_keyboard@.subrange(
                0,
                i as int,
            ).push(seat_has_keyboard@[i as int]));
            lemma_count_true_push(
                seat_has_keyboard@.subrange(0, i as int),
                seat_has_keyboard@[i as int],
            );
        }
        if seat_has_keyboard[i] {
            if count == 0 {
                first = i;
            }
            count = count + 1;
        }
        i = i + 1;
    }
    proof {
        assert(seat_has_keyboard@.subrange(0, i as int) =~= seat_has_keyboard@);
    }
    if count == 0 {
        Err(InsertionFailure::TargetUnavailable { target: InsertionTargetKind::Seat })
    } else if count > 1 {
        Err(
            InsertionFailure::AmbiguousTarget {
                target: InsertionTargetKind::Seat,
                count: seat_count_for_report(count),
            },
        )
    } else {
        Ok(first)
    }
}

/// After waiting for a roundtrip: done, or the idle timeout passed while waiting for
/// the socket to be readable.
pub fn roundtrip_result(roundtrip_done: bool) -> (r: Result<(), InsertionFailure>)
    ensures
        r == (if roundtrip_done {
            Ok(())
        } else {
            Err(InsertionFailure::IdleTimedOut { operation: InsertionIoOperation::WaitReadable })
        }),
{
    if roundtrip_done {
        Ok(())
    } else {
        Err(InsertionFailure::IdleTimedOut { operation: InsertionIoOperation::WaitReadable })
    }
}

} // verus!
