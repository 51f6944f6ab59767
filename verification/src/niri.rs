//! The niri focus probe's logic: reading the compositor's start time from its process
//! status line, bounding the response, and turning the reply into an observation.
use vstd::prelude::*;
use vstd::string::StrSliceExecFns;
use crate::control::is_unicode_whitespace;
use crate::control::is_whitespace;
use crate::focus::FocusObservation;
use crate::focus::FocusProbeFailure;
use crate::focus::FocusProbeFailureKind;
use crate::focus::FocusProbeIoOperation;
use crate::focus::FocusProbeMessage;
use crate::focus::FocusResponseFailureKind;
use crate::focus::FocusSource;
use crate::focus::FocusedWindow;
use crate::focus::NiriInstanceId;
use crate::insertion::outcome::IoErrorKind;
use crate::time::Moment;
use crate::time::TimeSpan;
use crate::time::CLOCK_MAX_NANOS;
use crate::strings::chars_of;

verus! {

/// The largest response accepted from niri, in bytes.
pub const RESPONSE_LIMIT: usize = 65536;

/// How long the whole probe may take, in milliseconds.
pub const IPC_TIMEOUT_MILLIS: u64 = 200;

/// How long the whole probe may take: 200 ms.
pub fn ipc_timeout() -> (r: TimeSpan)
    ensures
        r.spec_nanos() == 200_000_000,
{
    TimeSpan::from_millis(IPC_TIMEOUT_MILLIS)
}

/// The index of the last `c` in `s`, if any.
pub open spec fn spec_last_index_of(s: Seq<char>, c: char) -> Option<int>
    decreases s.len(),
{
    if s.len() == 0 {
        None
    } else if s.last() == c {
        Some(s.len() - 1)
    } else {
        spec_last_index_of(s.drop_last(), c)
    }
}

/// The white-space separated words of `s`, in order.
pub open spec fn spec_words(s: Seq<char>) -> Seq<Seq<char>>
    decreases s.len(),
{
    if s.len() == 0 {
        Seq::empty()
    } else if is_unicode_whitespace(s.last()) {
        spec_words(s.drop_last())
    } else {
        let before = s.drop_last();
        let words = spec_words(before);
        if before.len() > 0 && !is_unicode_whitespace(before.last()) {
            words.drop_last().push(words.last().push(s.last()))
        } else {
            words.push(seq![s.last()])
        }
    }
}

/// The value of a decimal digit character.
pub open spec fn digit_value(c: char) -> int {
    (c as u32) - ('0' as u32)
}

pub open spec fn is_digit(c: char) -> bool {
    '0' <= c && c <= '9'
}

/// The number that decimal digits spell, most significant first.
pub open spec fn decimal_value(s: Seq<char>) -> int
    decreases s.len(),
{
    if s.len() == 0 {
        0
    } else {
        decimal_value(s.drop_last()) * 10 + digit_value(s.last())
    }
}

/// The `u64` that `s` spells as `u64::from_str` reads it: an optional `+` and at least
/// one decimal digit, with no other character and no overflow.
pub open spec fn spec_parse_u64(s: Seq<char>) -> Option<u64> {
    let digits = unsigned_part(s);
    if digits.len() > 0 && all_digits(digits) && decimal_value(digits) <= u64::MAX {
        Some(decimal_value(digits) as u64)
    } else {
        None
    }
}

/// `s` without a leading `+`.
pub open spec fn unsigned_part(s: Seq<char>) -> Seq<char> {
    if s.len() > 0 && s[0] == '+' {
        s.drop_first()
    } else {
        s
    }
}

/// Every character of `s` is a decimal digit.
pub open spec fn all_digits(s: Seq<char>) -> bool {
    forall|i: int| 0 <= i < s.len() ==> is_digit(#[trigger] s[i])
}

/// The start time (field 22 of `/proc/<pid>/stat`): the twentieth word after the last
/// `)`, which closes the command name.
pub open spec fn spec_process_start_time(stat: Seq<char>) -> Option<u64> {
    match spec_last_index_of(stat, ')') {
        None => None,
        Some(close) => {
            let words = spec_words(stat.subrange(close + 1, stat.len() as int));
            if words.len() > 19 {
                spec_parse_u64(words[19])
            } else {
                None
            }
        },
    }
}

proof fn lemma_last_index_bounds(s: Seq<char>, c: char)
    ensures
        spec_last_index_of(s, c) matches Some(i) ==> 0 <= i < s.len() && s[i] == c,
    decreases s.len(),
{
    if s.len() > 0 && s.last() != c {
        lemma_last_index_bounds(s.drop_last(), c);
    }
}

/// The `u64` that `s` spells, as `u64::from_str` reads it.
pub fn parse_u64(s: &[char]) -> (r: Option<u64>)
    ensures
        r == spec_parse_u64(s@),
{
    let n = s.len();
    let start: usize = if n > 0 && s[0] == '+' {
        1
    } else {
        0
    };
    let ghost digits = unsigned_part(s@);
    proof {
        assert(digits =~= s@.subrange(start as int, n as int));
    }
    if start >= n {
        proof {
            assert(digits.len() == 0);
        }
        return None;
    }
    let mut value: u64 = 0;
    let mut i: usize = start;
    while i < n
        invariant
            start <= i <= n,
            n == s@.len(),
            digits == s@.subrange(start as int, n as int),
            digits == unsigned_part(s@),
            forall|k: int| start <= k < i ==> is_digit(#[trigger] s@[k]),
            value == decimal_value(s@.subrange(start as int, i as int)),
        decreases n - i,
    {
        let c = s[i];
        if !('0' <= c && c <= '9') {
            proof {
                assert(digits[i - start] == c);
                assert(!is_digit(digits[i - start]));
                assert(!all_digits(digits));
            }
            return None;
        }
        let d = (c as u32 - '0' as u32) as u64;
        proof {
            assert(s@.subrange(start as int, i + 1).drop_last() =~= s@.subrange(start as int, i as int));
        }
        if value > (u64::MAX - d) / 10 {
            proof {
                assert(value * 10 + d > u64::MAX) by (nonlinear_arith)
                    requires
                        value > (u64::MAX - d) / 10,
                        d <= 9,
                ;
                assert(decimal_value(s@.subrange(start as int, i + 1)) == value * 10 + d);
                lemma_decimal_grows(s@.subrange(start as int, n as int), (i + 1 - start) as int);
                assert(s@.subrange(start as int, n as int).subrange(0, (i + 1 - start) as int)
                    =~= s@.subrange(start as int, i + 1));
            }
            return None;
        }
        assert(value * 10 + d <= u64::MAX) by (nonlinear_arith)
            requires
                value <= (u64::MAX - d) / 10,
                d <= 9,
        ;
        value = value * 10 + d;
        i = i + 1;
    }
    proof {
        assert forall|k: int| 0 <= k < digits.len() implies is_digit(#[trigger] digits[k]) by {
            assert(digits[k] == s@[k + start]);
        }
        assert(all_digits(digits));
        assert(s@.subrange(start as int, n as int) =~= digits);
    }
    Some(value)
}

proof fn lemma_decimal_nonneg(s: Seq<char>)
    requires
        forall|i: int| 0 <= i < s.len() ==> is_digit(#[trigger] s[i]),
    ensures
        decimal_value(s) >= 0,
    decreases s.len(),
{
    if s.len() > 0 {
        lemma_decimal_nonneg(s.drop_last());
    }
}

/// A prefix of digits never spells more than the whole.
proof fn lemma_decimal_grows(s: Seq<char>, k: int)
    requires
        0 <= k <= s.len(),
        forall|i: int| 0 <= i < k ==> is_digit(#[trigger] s[i]),
    ensures
        (forall|i: int| 0 <= i < s.len() ==> is_digit(#[trigger] s[i])) ==> decimal_value(s)
            >= decimal_value(s.subrange(0, k)),
    decreases s.len() - k,
{
    if forall|i: int| 0 <= i < s.len() ==> is_digit(#[trigger] s[i]) {
        if k < s.len() {
            lemma_decimal_grows(s, k + 1);
            assert(s.subrange(0, k + 1).drop_last() =~= s.subrange(0, k));
            lemma_decimal_nonneg(s.subrange(0, k));
        } else {
            assert(s.subrange(0, k) =~= s);
        }
    }
}

/// The characters of `s`.
/// The words of `s`, in order.
pub fn words(s: &[char]) -> (r: Vec<Vec<char>>)
    ensures
        r@.len() == spec_words(s@).len(),
        forall|i: int| 0 <= i < r@.len() ==> (#[trigger] r@[i])@ == spec_words(s@)[i],
{
    let mut out: Vec<Vec<char>> = Vec::new();
    let mut i: usize = 0;
    while i < s.len()
        invariant
            i <= s@.len(),
            out@.len() == spec_words(s@.subrange(0, i as int)).len(),
            forall|k: int| 0 <= k < out@.len() ==> (#[trigger] out@[k])@ == spec_words(
                s@.subrange(0, i as int),
            )[k],
        decreases s@.len() - i,
    {
        let c = s[i];
        let ghost before = s@.subrange(0, i as int);
        let ghost after = s@.subrange(0, i + 1);
        proof {
            assert(after.drop_last() =~= before);
            assert(after.last() == c);
        }
        if is_whitespace(c) {
        } else if i > 0 && !is_whitespace(s[i - 1]) {
            let last = out.len() - 1;
            let mut word = out.remove(last);
            word.push(c);
            out.push(word);
            proof {
                assert(before.last() == s@[i - 1]);
                let w = spec_words(after);
                assert forall|k: int| 0 <= k < out@.len() implies (#[trigger] out@[k])@ == w[k] by {
                    if k < out@.len() - 1 {
                        assert(w[k] == spec_words(before)[k]);
                    }
                }
            }
        } else {
            let mut word: Vec<char> = Vec::new();
            word.push(c);
            out.push(word);
            proof {
                let w = spec_words(after);
                assert(word@ =~= seq![c]);
                assert forall|k: int| 0 <= k < out@.len() implies (#[trigger] out@[k])@ == w[k] by {
                    if k < out@.len() - 1 {
                        assert(w[k] == spec_words(before)[k]);
                    }
                }
            }
        }
        i = i + 1;
    }
    proof {
        assert(s@.subrange(0, i as int) =~= s@);
    }
    out
}

/// The start time in a `/proc/<pid>/stat` line: the twentieth word after the last `)`.
pub fn parse_process_start_time(stat: &str) -> (r: Option<u64>)
    ensures
        r == spec_process_start_time(stat@),
{
    let chars = chars_of(stat);
    let n = chars.len();
    let mut close: usize = n;
    let mut j: usize = n;
    proof {
        assert(chars@.subrange(0, n as int) =~= chars@);
    }
    while j > 0
        invariant
            j <= n,
            close <= n,
            n == chars@.len(),
            chars@ == stat@,
            close == n ==> spec_last_index_of(chars@, ')') == spec_last_index_of(
                chars@.subrange(0, j as int),
                ')',
            ),
            close < n ==> spec_last_index_of(chars@, ')') == Some(close as int),
        decreases j,
    {
        if close == n {
            proof {
                assert(chars@.subrange(0, j as int).drop_last() =~= chars@.subrange(0, j - 1));
            }
            if chars[j - 1] == ')' {
                close = j - 1;
            }
        }
        j = j - 1;
    }
    if close == n {
        proof {
            assert(chars@.subrange(0, 0) =~= Seq::<char>::empty());
        }
        return None;
    }
    let mut rest: Vec<char> = Vec::new();
    let mut k: usize = close + 1;
    while k < n
        invariant
            close < k <= n,
            n == chars@.len(),
            rest@ == chars@.subrange(close + 1, k as int),
        decreases n - k,
    {
        rest.push(chars[k]);
        k = k + 1;
        proof {
            assert(rest@ =~= chars@.subrange(close + 1, k as int));
        }
    }
    let ws = words(rest.as_slice());
    if ws.len() > 19 {
        parse_u64(ws[19].as_slice())
    } else {
        None
    }
}

/// What appending `received` to `response` gives: the outcome and the response after
/// it. The part before the first newline is appended, and a newline ends the response;
/// a response that would exceed the limit fails and is left as it was.
pub open spec fn spec_append_chunk(response: Seq<u8>, received: Seq<u8>) -> (
    Result<bool, FocusProbeFailureKind>,
    Seq<u8>,
) {
    let line_end = spec_first_newline(received);
    let payload = match line_end {
        Some(e) => received.subrange(0, e),
        None => received,
    };
    if response.len() + payload.len() > RESPONSE_LIMIT {
        (Err(FocusProbeFailureKind::ResponseTooLarge { limit: RESPONSE_LIMIT }), response)
    } else {
        (Ok(line_end is Some), response + payload)
    }
}

/// The response read from pieces received in order, starting from `response`, when
/// the stream ends after the last piece: each piece is appended until one ends the
/// response or the limit is exceeded.
pub open spec fn spec_read_chunks(response: Seq<u8>, chunks: Seq<Seq<u8>>) -> Result<
    Seq<u8>,
    FocusProbeFailureKind,
>
    decreases chunks.len(),
{
    if chunks.len() == 0 {
        Ok(response)
    } else {
        let (r, after) = spec_append_chunk(response, chunks[0]);
        match r {
            Err(k) => Err(k),
            Ok(true) => Ok(after),
            Ok(false) => spec_read_chunks(after, chunks.drop_first()),
        }
    }
}

/// The response in a whole stream of bytes: everything before the first newline (or
/// the whole stream without one), unless that is longer than the limit.
pub open spec fn spec_response_of(stream: Seq<u8>) -> Result<Seq<u8>, FocusProbeFailureKind> {
    let end = match spec_first_newline(stream) {
        Some(e) => e,
        None => stream.len() as int,
    };
    if end > RESPONSE_LIMIT {
        Err(FocusProbeFailureKind::ResponseTooLarge { limit: RESPONSE_LIMIT })
    } else {
        Ok(stream.subrange(0, end))
    }
}

/// Appends a received piece of the response: the part before the first newline, if
/// any, ends the response. A response that would exceed the limit fails.
pub fn append_response_chunk(response: &mut Vec<u8>, received: &[u8]) -> (r: Result<
    bool,
    FocusProbeFailureKind,
>)
    requires
        old(response)@.len() <= RESPONSE_LIMIT,
    ensures
        final(response)@.len() <= RESPONSE_LIMIT,
        ({
            let line_end = spec_first_newline(received@);
            let payload = match line_end {
                Some(e) => received@.subrange(0, e),
                None => received@,
            };
            if old(response)@.len() + payload.len() > RESPONSE_LIMIT {
                r == Err::<bool, FocusProbeFailureKind>(
                    FocusProbeFailureKind::ResponseTooLarge { limit: RESPONSE_LIMIT },
                ) && final(response)@ == old(response)@
            } else {
                r == Ok::<bool, FocusProbeFailureKind>(line_end is Some) && final(response)@
                    == old(response)@ + payload
            }
        }),
        (r, final(response)@) == spec_append_chunk(old(response)@, received@),
{
    let mut end: usize = 0;
    while end < received.len() && received[end] != 10u8
        invariant
            end <= received@.len(),
            forall|i: int| 0 <= i < end ==> received@[i] != 10u8,
        decreases received@.len() - end,
    {
        end = end + 1;
    }
    proof {
        lemma_first_newline(received@, end as int);
    }
    let found = end < received.len();
    if end > RESPONSE_LIMIT - response.len() {
        return Err(FocusProbeFailureKind::ResponseTooLarge { limit: RESPONSE_LIMIT });
    }
    let ghost before = response@;
    let mut i: usize = 0;
    while i < end
        invariant
            i <= end,
            end <= received@.len(),
            response@ == before + received@.subrange(0, i as int),
        decreases end - i,
    {
        response.push(received[i]);
        i = i + 1;
        proof {
            assert(response@ =~= before + received@.subrange(0, i as int));
        }
    }
    proof {
        if !found {
            assert(received@.subrange(0, end as int) =~= received@);
        }
    }
    Ok(found)
}

/// The index of the first newline byte of `s`, if any.
pub open spec fn spec_first_newline(s: Seq<u8>) -> Option<int>
    decreases s.len(),
{
    if s.len() == 0 {
        None
    } else if s[0] == 10u8 {
        Some(0)
    } else {
        match spec_first_newline(s.drop_first()) {
            Some(i) => Some(i + 1),
            None => None,
        }
    }
}

/// The first newline of `s`, described by its index: before it no byte is a newline.
proof fn lemma_first_newline_facts(s: Seq<u8>)
    ensures
        match spec_first_newline(s) {
            Some(e) => 0 <= e < s.len() && s[e] == 10u8 && forall|i: int|
                0 <= i < e ==> s[i] != 10u8,
            None => forall|i: int| 0 <= i < s.len() ==> s[i] != 10u8,
        },
    decreases s.len(),
{
    if s.len() > 0 {
        lemma_first_newline_facts(s.drop_first());
        assert forall|i: int| 0 < i < s.len() implies s[i] == s.drop_first()[i - 1] by {}
    }
}

/// Reading pieces one by one gives the response of the whole stream they make up:
/// bytes up to the first newline, at most the limit, with what follows ignored.
pub proof fn lemma_reading_chunks_reads_the_first_line(chunks: Seq<Seq<u8>>)
    ensures
        spec_read_chunks(Seq::empty(), chunks) == spec_response_of(chunks.flatten()),
{
    lemma_read_chunks_from(Seq::empty(), chunks);
    assert(Seq::<u8>::empty() + chunks.flatten() =~= chunks.flatten());
}

proof fn lemma_read_chunks_from(acc: Seq<u8>, chunks: Seq<Seq<u8>>)
    requires
        acc.len() <= RESPONSE_LIMIT,
        forall|i: int| 0 <= i < acc.len() ==> acc[i] != 10u8,
    ensures
        spec_read_chunks(acc, chunks) == spec_response_of(acc + chunks.flatten()),
    decreases chunks.len(),
{
    let stream = acc + chunks.flatten();
    if chunks.len() == 0 {
        assert(stream =~= acc);
        lemma_first_newline(stream, stream.len() as int);
        assert(stream.subrange(0, stream.len() as int) =~= stream);
    } else {
        let c = chunks[0];
        let rest = chunks.drop_first();
        assert(chunks.flatten() == c + rest.flatten());
        assert(stream =~= acc + c + rest.flatten());
        lemma_first_newline_facts(c);
        match spec_first_newline(c) {
            Some(e) => {
                let end = acc.len() + e;
                assert forall|i: int| 0 <= i < end implies stream[i] != 10u8 by {
                    if i >= acc.len() {
                        assert(stream[i] == c[i - acc.len()]);
                    }
                }
                assert(stream[end] == c[e]);
                lemma_first_newline(stream, end);
                assert(stream.subrange(0, end) =~= acc + c.subrange(0, e));
            },
            None => {
                let acc2 = acc + c;
                if acc2.len() > RESPONSE_LIMIT {
                    lemma_first_newline_facts(stream);
                    assert forall|i: int| 0 <= i < acc2.len() implies stream[i] != 10u8 by {
                        if i >= acc.len() {
                            assert(stream[i] == c[i - acc.len()]);
                        }
                    }
                    match spec_first_newline(stream) {
                        Some(e) => {
                            assert(e >= acc2.len());
                        },
                        None => {},
                    }
                } else {
                    assert forall|i: int| 0 <= i < acc2.len() implies acc2[i] != 10u8 by {
                        if i >= acc.len() {
                            assert(acc2[i] == c[i - acc.len()]);
                        }
                    }
                    lemma_read_chunks_from(acc2, rest);
                    assert(acc2 + rest.flatten() =~= stream);
                }
            },
        }
    }
}

proof fn lemma_first_newline(s: Seq<u8>, end: int)
    requires
        0 <= end <= s.len(),
        forall|i: int| 0 <= i < end ==> s[i] != 10u8,
        end < s.len() ==> s[end] == 10u8,
    ensures
        spec_first_newline(s) == if end < s.len() {
            Some(end)
        } else {
            None::<int>
        },
    decreases s.len(),
{
    if s.len() > 0 && end > 0 {
        lemma_first_newline(s.drop_first(), end - 1);
    }
}

/// The failure for running out of time during `operation`.
pub fn timed_out(operation: FocusProbeIoOperation) -> (r: FocusProbeFailureKind)
    ensures
        r matches FocusProbeFailureKind::TimedOut { operation: op, timeout } && op == operation
            && timeout.spec_nanos() == 200_000_000,
{
    FocusProbeFailureKind::TimedOut { operation, timeout: ipc_timeout() }
}

/// What is left of the deadline at `now`; nothing left is a timeout.
pub fn remaining_at(deadline: Moment, now: Moment, operation: FocusProbeIoOperation) -> (r: Result<
    TimeSpan,
    FocusProbeFailureKind,
>)
    ensures
        r is Ok <==> now.spec_nanos() < deadline.spec_nanos() && deadline.spec_nanos()
            - now.spec_nanos() <= crate::time::SPAN_MAX_NANOS,
        r matches Ok(span) ==> span.spec_nanos() == deadline.spec_nanos() - now.spec_nanos(),
        r matches Err(k) ==> k matches FocusProbeFailureKind::TimedOut { operation: op, .. }
            && op == operation,
{
    match deadline.checked_duration_since(&now) {
        Some(left) => {
            if left.is_zero() {
                Err(timed_out(operation))
            } else {
                Ok(left)
            }
        },
        None => Err(timed_out(operation)),
    }
}

/// Whether `r` is what is left of `deadline` at the clock reading `now`: the span up
/// to the deadline while one is left, otherwise a timeout of `operation`.
pub open spec fn reports_remaining(
    deadline: Moment,
    now: Moment,
    operation: FocusProbeIoOperation,
    r: Result<TimeSpan, FocusProbeFailureKind>,
) -> bool {
    &&& r is Ok <==> now.spec_nanos() < deadline.spec_nanos() && deadline.spec_nanos()
        - now.spec_nanos() <= crate::time::SPAN_MAX_NANOS
    &&& r matches Ok(span) ==> span.spec_nanos() == deadline.spec_nanos() - now.spec_nanos()
    &&& r matches Err(k) ==> k matches FocusProbeFailureKind::TimedOut { operation: op, .. }
        && op == operation
}

/// What is left of the deadline now; nothing left is a timeout. The result is what is
/// left at one reading of the clock.
pub fn remaining(deadline: Moment, operation: FocusProbeIoOperation) -> (r: Result<
    TimeSpan,
    FocusProbeFailureKind,
>)
    ensures
        exists|now: Moment|
            now.spec_nanos() < CLOCK_MAX_NANOS && #[trigger] reports_remaining(
                deadline,
                now,
                operation,
                r,
            ),
        r matches Err(k) ==> k matches FocusProbeFailureKind::TimedOut { operation: op, .. }
            && op == operation,
{
    let now = crate::time::now();
    let r = remaining_at(deadline, now, operation);
    assert(reports_remaining(deadline, now, operation, r));
    r
}

/// Whether `r` says if time is left of `deadline` at the clock reading `now`: `Ok`
/// exactly when some is, otherwise a timeout of `operation`.
pub open spec fn reports_before_deadline(
    deadline: Moment,
    now: Moment,
    operation: FocusProbeIoOperation,
    r: Result<(), FocusProbeFailureKind>,
) -> bool {
    &&& r is Ok <==> now.spec_nanos() < deadline.spec_nanos() && deadline.spec_nanos()
        - now.spec_nanos() <= crate::time::SPAN_MAX_NANOS
    &&& r matches Err(k) ==> k matches FocusProbeFailureKind::TimedOut { operation: op, .. }
        && op == operation
}

/// `Ok` while time is left before the deadline, at one reading of the clock.
pub fn ensure_before_deadline(deadline: Moment, operation: FocusProbeIoOperation) -> (r: Result<
    (),
    FocusProbeFailureKind,
>)
    ensures
        exists|now: Moment|
            now.spec_nanos() < CLOCK_MAX_NANOS && #[trigger] reports_before_deadline(
                deadline,
                now,
                operation,
                r,
            ),
        r matches Err(k) ==> k matches FocusProbeFailureKind::TimedOut { operation: op, .. }
            && op == operation,
{
    let left = remaining(deadline, operation);
    let r = match left {
        Ok(_) => Ok(()),
        Err(kind) => Err(kind),
    };
    assert forall|now: Moment| #[trigger]
        reports_remaining(deadline, now, operation, left) implies reports_before_deadline(
        deadline,
        now,
        operation,
        r,
    ) by {}
    r
}

/// A failed probe of niri.
pub fn failure(kind: FocusProbeFailureKind) -> (r: FocusObservation)
    ensures
        r == FocusObservation::ProbeFailed(FocusProbeFailure { source: FocusSource::Niri, kind }),
{
    FocusObservation::ProbeFailed(FocusProbeFailure::new(FocusSource::Niri, kind))
}

/// An I/O failure during `operation`.
pub fn std_io_failure(operation: FocusProbeIoOperation, kind: IoErrorKind) -> (r:
    FocusProbeFailureKind)
    ensures
        r == (FocusProbeFailureKind::Io { operation, kind }),
{
    FocusProbeFailureKind::Io { operation, kind }
}

/// The focused window as niri describes it.
#[derive(Clone, Debug, PartialEq, Eq)]
pub struct NiriFocusedWindow {
    pub id: u64,
    pub app_id: Option<String>,
    pub title: Option<String>,
}

/// What reading niri's reply gave: a reply with a window or none, a rejection with
/// niri's message, or JSON that could not be read.
#[derive(Clone, Debug, PartialEq, Eq)]
pub enum NiriReply {
    FocusedWindow(Option<NiriFocusedWindow>),
    Rejected(String),
    Invalid { kind: FocusResponseFailureKind, line: usize, column: usize },
}

/// A control character, as `char::is_control` has it.
pub open spec fn is_control_char(c: char) -> bool {
    (c as u32) <= 0x1F || (0x7F <= (c as u32) && (c as u32) <= 0x9F)
}

/// The lowercase hexadecimal digits of `n`, without leading zeros.
pub open spec fn hex(n: nat) -> Seq<char>
    decreases n,
{
    if n < 16 {
        seq![hex_digit(n)]
    } else {
        hex(n / 16).push(hex_digit(n % 16))
    }
}

pub open spec fn hex_digit(d: nat) -> char {
    if d < 10 {
        ((d + 48) as u32) as char
    } else {
        ((d + 87) as u32) as char
    }
}

/// `s` with each control character written as `\u{..}` in lowercase hexadecimal, so
/// that it stays on one line of a log.
pub open spec fn spec_escape_controls(s: Seq<char>) -> Seq<char>
    decreases s.len(),
{
    if s.len() == 0 {
        Seq::empty()
    } else {
        spec_escape_controls(s.drop_last()) + if is_control_char(s.last()) {
            "\\u{"@ + hex((s.last() as u32) as nat) + "}"@
        } else {
            seq![s.last()]
        }
    }
}

fn hex_char(d: u32) -> (c: char)
    requires
        d < 16,
    ensures
        c == hex_digit(d as nat),
{
    if d < 10 {
        char_from_u32(d + 48)
    } else {
        char_from_u32(d + 87)
    }
}

fn char_from_u32(u: u32) -> (c: char)
    requires
        u < 128,
    ensures
        c == (u as char),
{
    (u as u8) as char
}

fn push_hex(out: &mut String, n: u32)
    ensures
        final(out)@ == old(out)@ + hex(n as nat),
    decreases n,
{
    if n < 16 {
        out.push(hex_char(n));
        proof {
            assert(hex(n as nat) =~= seq![hex_digit(n as nat)]);
        }
    } else {
        push_hex(out, n / 16);
        out.push(hex_char(n % 16));
    }
}

impl FocusProbeMessage {
    /// A message from niri with its control characters escaped.
    pub fn new(text: &str) -> (r: FocusProbeMessage)
        ensures
            r.text@ == spec_escape_controls(text@),
    {
        let chars = chars_of(text);
        let mut out = String::new();
        let mut i: usize = 0;
        while i < chars.len()
            invariant
                i <= chars@.len(),
                chars@ == text@,
                out@ == spec_escape_controls(chars@.subrange(0, i as int)),
            decreases chars@.len() - i,
        {
            let c = chars[i];
            let ghost before = chars@.subrange(0, i as int);
            proof {
                assert(chars@.subrange(0, i + 1).drop_last() =~= before);
            }
            let u: u32 = c as u32;
            if u <= 0x1F || (0x7F <= u && u <= 0x9F) {
                out.append("\\u{");
                push_hex(&mut out, u);
                out.append("}");
            } else {
                out.push(c);
            }
            i = i + 1;
        }
        proof {
            assert(chars@.subrange(0, chars@.len() as int) =~= chars@);
        }
        FocusProbeMessage { text: out }
    }
}

fn copy_opt(s: &Option<String>) -> (r: Option<&str>)
    ensures
        r is Some <==> s is Some,
        r matches Some(x) ==> x@ == s.unwrap()@,
{
    match s {
        Some(x) => Some(x.as_str()),
        None => None,
    }
}

/// The observation that niri's reply gives: the focused window of this compositor
/// instance, no focused window, a rejected request with its message escaped, or a
/// JSON failure that keeps only its category and position.
pub fn observation_from_reply(reply: &NiriReply, instance: NiriInstanceId) -> (r: FocusObservation)
    ensures
        match reply {
            NiriReply::FocusedWindow(Some(w)) => r matches FocusObservation::Focused(f)
                && f.source == FocusSource::Niri && f.instance == instance && f.id == w.id && (
            f.app_id is Some <==> w.app_id is Some) && (f.app_id matches Some(a) ==> a@
                == w.app_id.unwrap()@) && (f.title is Some <==> w.title is Some) && (
            f.title matches Some(t) ==> t@ == w.title.unwrap()@),
            NiriReply::FocusedWindow(None) => r == FocusObservation::NoFocusedWindow {
                source: FocusSource::Niri,
            },
            NiriReply::Rejected(m) => r matches FocusObservation::ProbeFailed(FocusProbeFailure {
                source: FocusSource::Niri,
                kind: FocusProbeFailureKind::RequestRejected { message },
            }) && message.text@ == spec_escape_controls(m@),
            NiriReply::Invalid { kind, line, column } => r == failure_spec(
                FocusProbeFailureKind::InvalidResponse { kind: *kind, line: *line, column: *column },
            ),
        },
{
    match reply {
        NiriReply::FocusedWindow(Some(w)) => FocusObservation::Focused(
            FocusedWindow::niri(instance, w.id, copy_opt(&w.app_id), copy_opt(&w.title)),
        ),
        NiriReply::FocusedWindow(None) => FocusObservation::NoFocusedWindow {
            source: FocusSource::Niri,
        },
        NiriReply::Rejected(m) => failure(
            FocusProbeFailureKind::RequestRejected { message: FocusProbeMessage::new(m.as_str()) },
        ),
        NiriReply::Invalid { kind, line, column } => failure(
            FocusProbeFailureKind::InvalidResponse { kind: *kind, line: *line, column: *column },
        ),
    }
}

/// A failed probe of niri, as a value.
pub open spec fn failure_spec(kind: FocusProbeFailureKind) -> FocusObservation {
    FocusObservation::ProbeFailed(FocusProbeFailure { source: FocusSource::Niri, kind })
}

} // verus!
