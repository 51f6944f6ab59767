//! Splitting text into pieces whose UTF-8 encoding fits a byte limit, without
//! cutting a character apart.
use vstd::prelude::*;
use vstd::utf8::*;
use vstd::string::StringSliceAdditionalSpecFns;
use vstd::string::StrSliceExecFns;

verus! {

/// Bytes that the UTF-8 encoding of `c` takes.
pub open spec fn char_utf8_len(c: char) -> nat {
    if (c as u32) <= 0x7F {
        1
    } else if (c as u32) <= 0x7FF {
        2
    } else if (c as u32) <= 0xFFFF {
        3
    } else {
        4
    }
}

/// Bytes that the UTF-8 encoding of `s` takes.
pub open spec fn utf8_len(s: Seq<char>) -> nat
    decreases s.len(),
{
    if s.len() == 0 {
        0
    } else {
        utf8_len(s.drop_last()) + char_utf8_len(s.last())
    }
}

/// The pieces of `chunks` written one after another.
pub open spec fn concat_all(chunks: Seq<Seq<char>>) -> Seq<char>
    decreases chunks.len(),
{
    if chunks.len() == 0 {
        Seq::empty()
    } else {
        concat_all(chunks.drop_last()) + chunks.last()
    }
}

/// The character views of a sequence of strings.
pub open spec fn string_views(strings: Seq<String>) -> Seq<Seq<char>> {
    strings.map_values(|s: String| s@)
}

/// `chunks` is the greedy split of `text` into non-empty pieces of at most `limit`
/// UTF-8 bytes: written one after another they give back `text`, and no piece could
/// have taken the first character of the next one without exceeding the limit.
pub open spec fn is_greedy_split(text: Seq<char>, chunks: Seq<Seq<char>>, limit: nat) -> bool {
    &&& concat_all(chunks) == text
    &&& forall|j: int|
        0 <= j < chunks.len() ==> #[trigger] chunks[j].len() > 0 && utf8_len(chunks[j])
            <= limit
    &&& forall|j: int|
        0 <= j < chunks.len() - 1 ==> utf8_len(#[trigger] chunks[j]) + char_utf8_len(
            chunks[j + 1][0],
        ) > limit
}

pub proof fn lemma_char_utf8_len_bounds(c: char)
    ensures
        1 <= char_utf8_len(c) <= 4,
{
}

pub proof fn lemma_utf8_len_concat(a: Seq<char>, b: Seq<char>)
    ensures
        utf8_len(a + b) == utf8_len(a) + utf8_len(b),
    decreases b.len(),
{
    if b.len() == 0 {
        assert(a + b =~= a);
    } else {
        lemma_utf8_len_concat(a, b.drop_last());
        assert((a + b).drop_last() =~= a + b.drop_last());
    }
}

pub proof fn lemma_utf8_len_at_least_chars(s: Seq<char>)
    ensures
        utf8_len(s) >= s.len(),
    decreases s.len(),
{
    if s.len() > 0 {
        lemma_utf8_len_at_least_chars(s.drop_last());
    }
}

proof fn lemma_encode_scalar_len(c: char)
    ensures
        encode_scalar(c as u32).len() == char_utf8_len(c),
{
    char_is_scalar(c);
}

/// The UTF-8 encoding of `s` is `utf8_len(s)` bytes long.
pub proof fn lemma_encode_utf8_len(s: Seq<char>)
    ensures
        encode_utf8(s).len() == utf8_len(s),
    decreases s.len(),
{
    if s.len() > 0 {
        lemma_encode_utf8_len(s.drop_first());
        lemma_encode_scalar_len(s[0]);
        assert(encode_utf8(s) == encode_scalar(s[0] as u32) + encode_utf8(s.drop_first()));
        let head = seq![s[0]];
        assert(s =~= head + s.drop_first());
        lemma_utf8_len_concat(head, s.drop_first());
        assert(head.drop_last() =~= Seq::<char>::empty());
        assert(utf8_len(head) == utf8_len(head.drop_last()) + char_utf8_len(head.last()));
    }
}

/// Written one after another, the pieces are the first piece followed by the rest.
proof fn lemma_concat_all_front(chunks: Seq<Seq<char>>)
    requires
        chunks.len() > 0,
    ensures
        concat_all(chunks) == chunks[0] + concat_all(chunks.drop_first()),
    decreases chunks.len(),
{
    if chunks.len() == 1 {
        assert(chunks.drop_first() =~= Seq::<Seq<char>>::empty());
        assert(chunks.drop_last() =~= Seq::<Seq<char>>::empty());
        assert(concat_all(chunks.drop_last()) =~= Seq::<char>::empty());
        assert(concat_all(chunks.drop_first()) =~= Seq::<char>::empty());
        assert(concat_all(chunks) =~= chunks[0]);
    } else {
        let init = chunks.drop_last();
        lemma_concat_all_front(init);
        assert(chunks.drop_first().drop_last() =~= init.drop_first());
        assert(chunks.drop_first().last() == chunks.last());
        assert(concat_all(chunks) =~= chunks[0] + concat_all(chunks.drop_first()));
    }
}

/// A non-empty text takes at least the bytes of its first character.
proof fn lemma_utf8_len_first(s: Seq<char>)
    requires
        s.len() > 0,
    ensures
        utf8_len(s) >= char_utf8_len(s[0]),
{
    let head = seq![s[0]];
    assert(s =~= head + s.drop_first());
    lemma_utf8_len_concat(head, s.drop_first());
    assert(head.drop_last() =~= Seq::<char>::empty());
}

/// The rest of a greedy split is the greedy split of the rest of the text.
proof fn lemma_greedy_split_rest(text: Seq<char>, chunks: Seq<Seq<char>>, limit: nat)
    requires
        is_greedy_split(text, chunks, limit),
        chunks.len() > 0,
    ensures
        chunks[0].len() <= text.len(),
        text.subrange(0, chunks[0].len() as int) == chunks[0],
        is_greedy_split(
            text.subrange(chunks[0].len() as int, text.len() as int),
            chunks.drop_first(),
            limit,
        ),
{
    lemma_concat_all_front(chunks);
    let first = chunks[0];
    let rest = concat_all(chunks.drop_first());
    assert(text =~= first + rest);
    assert(text.subrange(0, first.len() as int) =~= first);
    assert(text.subrange(first.len() as int, text.len() as int) =~= rest);
    let tail = chunks.drop_first();
    assert forall|j: int| 0 <= j < tail.len() implies #[trigger] tail[j].len() > 0 && utf8_len(
        tail[j],
    ) <= limit by {
        assert(tail[j] == chunks[j + 1]);
    }
    assert forall|j: int| 0 <= j < tail.len() - 1 implies utf8_len(#[trigger] tail[j])
        + char_utf8_len(tail[j + 1][0]) > limit by {
        assert(tail[j] == chunks[j + 1]);
        assert(tail[j + 1] == chunks[j + 2]);
    }
}

/// A piece that another piece of the same text starts with, and that is shorter, could
/// have taken the next character without exceeding the limit.
proof fn lemma_shorter_first_piece_not_greedy(
    text: Seq<char>,
    a: Seq<Seq<char>>,
    b: Seq<Seq<char>>,
    limit: nat,
)
    requires
        is_greedy_split(text, a, limit),
        is_greedy_split(text, b, limit),
        a.len() > 0,
        b.len() > 0,
    ensures
        a[0].len() >= b[0].len(),
{
    lemma_greedy_split_rest(text, a, limit);
    lemma_greedy_split_rest(text, b, limit);
    let x = a[0];
    let y = b[0];
    if x.len() < y.len() {
        let k = x.len() as int;
        let rest = text.subrange(k, text.len() as int);
        let tail = a.drop_first();
        assert(rest.len() > 0);
        if tail.len() == 0 {
            assert(concat_all(tail) =~= Seq::<char>::empty());
        }
        assert(tail.len() > 0);
        lemma_greedy_split_rest(rest, tail, limit);
        assert(tail[0].len() > 0);
        assert(rest.subrange(0, tail[0].len() as int) == tail[0]);
        assert(tail[0][0] == rest[0]);
        assert(rest[0] == text[k]);
        assert(y[k] == text[k]);
        assert(y.subrange(0, k) =~= x);
        let y_rest = y.subrange(k, y.len() as int);
        assert(y =~= x + y_rest);
        lemma_utf8_len_concat(x, y_rest);
        lemma_utf8_len_first(y_rest);
        assert(y_rest[0] == y[k]);
        assert(a[1] == tail[0]);
        assert(utf8_len(a[0]) + char_utf8_len(a[1][0]) > limit);
        assert(utf8_len(y) <= limit);
        assert(false);
    }
}

/// A greedy split of an empty text has no pieces, and one of a non-empty text has some.
proof fn lemma_greedy_split_empty(text: Seq<char>, chunks: Seq<Seq<char>>, limit: nat)
    requires
        is_greedy_split(text, chunks, limit),
    ensures
        chunks.len() == 0 <==> text.len() == 0,
{
    if chunks.len() > 0 {
        lemma_greedy_split_rest(text, chunks, limit);
        assert(chunks[0].len() > 0);
    } else {
        assert(concat_all(chunks) =~= Seq::<char>::empty());
    }
}

/// Two greedy splits of one text start with the same piece.
proof fn lemma_same_first_piece(text: Seq<char>, a: Seq<Seq<char>>, b: Seq<Seq<char>>, limit: nat)
    requires
        is_greedy_split(text, a, limit),
        is_greedy_split(text, b, limit),
        a.len() > 0,
        b.len() > 0,
    ensures
        a[0] == b[0],
{
    lemma_shorter_first_piece_not_greedy(text, a, b, limit);
    lemma_shorter_first_piece_not_greedy(text, b, a, limit);
    lemma_greedy_split_rest(text, a, limit);
    lemma_greedy_split_rest(text, b, limit);
    assert(a[0] =~= text.subrange(0, a[0].len() as int));
    assert(b[0] =~= text.subrange(0, b[0].len() as int));
}

/// `is_greedy_split`, kept folded while the uniqueness proof recurses.
#[verifier::opaque]
spec fn greedy_folded(text: Seq<char>, chunks: Seq<Seq<char>>, limit: nat) -> bool {
    is_greedy_split(text, chunks, limit)
}

proof fn lemma_greedy_split_unique_folded(
    text: Seq<char>,
    a: Seq<Seq<char>>,
    b: Seq<Seq<char>>,
    limit: nat,
)
    requires
        greedy_folded(text, a, limit),
        greedy_folded(text, b, limit),
    ensures
        a == b,
    decreases a.len(),
{
    if a.len() == 0 {
        assert(a =~= b) by {
            reveal(greedy_folded);
            lemma_greedy_split_empty(text, a, limit);
            lemma_greedy_split_empty(text, b, limit);
        }
    } else {
        let ta = a.drop_first();
        let tb = b.drop_first();
        let rest = text.subrange(a[0].len() as int, text.len() as int);
        assert(b.len() > 0 && a[0] == b[0] && greedy_folded(rest, ta, limit) && greedy_folded(
            rest,
            tb,
            limit,
        )) by {
            reveal(greedy_folded);
            lemma_greedy_split_empty(text, a, limit);
            lemma_greedy_split_empty(text, b, limit);
            lemma_same_first_piece(text, a, b, limit);
            lemma_greedy_split_rest(text, a, limit);
            lemma_greedy_split_rest(text, b, limit);
        }
        lemma_greedy_split_unique_folded(rest, ta, tb, limit);
        assert(a =~= b) by {
            assert(a =~= seq![a[0]] + ta);
            assert(b =~= seq![b[0]] + tb);
        }
    }
}

/// A text has one greedy split for a given limit: any two greedy splits of it are the
/// same pieces.
pub proof fn lemma_greedy_split_unique(
    text: Seq<char>,
    a: Seq<Seq<char>>,
    b: Seq<Seq<char>>,
    limit: nat,
)
    requires
        is_greedy_split(text, a, limit),
        is_greedy_split(text, b, limit),
    ensures
        a == b,
{
    reveal(greedy_folded);
    lemma_greedy_split_unique_folded(text, a, b, limit);
}

/// The byte length of a string slice, as `str::len` reports it.
pub proof fn lemma_str_len(s: &str)
    ensures
        s.spec_bytes().len() == utf8_len(s@),
{
    lemma_encode_utf8_len(s@);
}

/// Bytes that the UTF-8 encoding of `c` takes.
pub fn char_len_utf8(c: char) -> (r: usize)
    ensures
        r == char_utf8_len(c),
{
    let code = c as u32;
    if code <= 0x7F {
        1
    } else if code <= 0x7FF {
        2
    } else if code <= 0xFFFF {
        3
    } else {
        4
    }
}

/// Bytes that the UTF-8 encoding of `s` takes.
pub fn str_byte_len(s: &str) -> (r: usize)
    ensures
        r == utf8_len(s@),
{
    proof {
        lemma_str_len(s);
    }
    s.as_bytes().len()
}

/// Splits `text` greedily into pieces of at most `limit` UTF-8 bytes, in order,
/// never cutting a character apart.
pub fn split_at_byte_limit(text: &str, limit: usize) -> (chunks: Vec<String>)
    requires
        4 <= limit <= usize::MAX - 4,
    ensures
        is_greedy_split(text@, string_views(chunks@), limit as nat),
{
    let ghost t = text@;
    proof {
        lemma_str_len(text);
        lemma_utf8_len_at_least_chars(t);
    }
    let mut chunks: Vec<String> = Vec::new();
    let mut start: usize = 0;
    let mut bytes: usize = 0;
    let mut index: usize = 0;
    let total: usize = text.as_bytes().len();
    for character in it: text.chars()
        invariant
            t == text@,
            it.seq() == t,
            index == it.index(),
            t.len() <= total,
            4 <= limit <= usize::MAX - 4,
            start <= index <= t.len(),
            index > 0 ==> start < index,
            index == 0 ==> chunks@.len() == 0,
            bytes == utf8_len(t.subrange(start as int, index as int)),
            bytes <= limit,
            concat_all(string_views(chunks@)) == t.subrange(0, start as int),
            forall|j: int|
                0 <= j < chunks@.len() ==> #[trigger] string_views(chunks@)[j].len() > 0
                    && utf8_len(string_views(chunks@)[j]) <= limit,
            forall|j: int|
                0 <= j < chunks@.len() - 1 ==> utf8_len(#[trigger] string_views(chunks@)[j])
                    + char_utf8_len(string_views(chunks@)[j + 1][0]) > limit,
            chunks@.len() > 0 ==> utf8_len(string_views(chunks@)[chunks@.len() - 1])
                + char_utf8_len(t[start as int]) > limit,
    {
        let width = char_len_utf8(character);
        proof {
            lemma_char_utf8_len_bounds(character);
            assert(character == t[index as int]);
        }
        if bytes + width > limit {
            proof {
                if start == index {
                    assert(t.subrange(start as int, index as int).len() == 0);
                    assert(utf8_len(t.subrange(start as int, index as int)) == 0);
                }
            }
            let piece = text.substring_char(start, index).to_owned();
            let ghost old_views = string_views(chunks@);
            chunks.push(piece);
            proof {
                let views = string_views(chunks@);
                assert(views.drop_last() =~= old_views);
                assert forall|j: int| 0 <= j < views.len() - 1 implies views[j] == old_views[j] by {
                    assert(views.drop_last()[j] == views[j]);
                }
                assert(views[views.len() - 1] == t.subrange(start as int, index as int));
                assert(views.last() == t.subrange(start as int, index as int));
                assert(t.subrange(0, index as int) =~= t.subrange(0, start as int)
                    + t.subrange(start as int, index as int));
                assert(views[views.len() - 1][0] == t[start as int]);
            }
            start = index;
            bytes = 0;
            proof {
                assert(t.subrange(start as int, index as int).len() == 0);
                assert(utf8_len(t.subrange(start as int, index as int)) == 0);
            }
        }
        proof {
            assert(t.subrange(start as int, index + 1).drop_last() =~= t.subrange(
                start as int,
                index as int,
            ));
            assert(t.subrange(start as int, index + 1).last() == t[index as int]);
            assert(character == t[index as int]);
            assert(utf8_len(t.subrange(start as int, index + 1)) == utf8_len(
                t.subrange(start as int, index as int),
            ) + char_utf8_len(t[index as int]));
        }
        bytes = bytes + width;
        index = index + 1;
    }
    proof {
        assert(index == t.len());
    }
    if start < index {
        let piece = text.substring_char(start, index).to_owned();
        let ghost old_views = string_views(chunks@);
        proof {
            assert(utf8_len(t.subrange(start as int, index as int)) == bytes);
        }
        chunks.push(piece);
        proof {
            let views = string_views(chunks@);
            assert(views.drop_last() =~= old_views);
            assert forall|j: int| 0 <= j < views.len() - 1 implies views[j] == old_views[j] by {
                assert(views.drop_last()[j] == views[j]);
            }
            assert(views[views.len() - 1] == t.subrange(start as int, index as int));
            assert(views[views.len() - 1][0] == t[start as int]);
            assert(t.subrange(0, index as int) =~= t.subrange(0, start as int) + t.subrange(
                start as int,
                index as int,
            ));
            assert(concat_all(views) == concat_all(views.drop_last()) + views.last());
        }
    } else {
        proof {
            assert(index == 0);
            assert(string_views(chunks@) =~= Seq::<Seq<char>>::empty());
        }
    }
    proof {
        assert(t.subrange(0, t.len() as int) =~= t);
    }
    chunks
}

} // verus!
