//! Isolates an executable snippet from a free-form model reply: the bodies
//! of its fenced code blocks, or the whole reply when it has none.
use vstd::prelude::*;
use crate::text::{
    chars_of, is_ws, lemma_trim_bounds, lemma_trim_idempotent, string_of, trim,
    trim_bounds, trimmed,
};

verus! {

/// A fence, three backticks, starts at index `i` of `s`.
pub open spec fn fence_at(s: Seq<char>, i: int) -> bool {
    0 <= i && i + 3 <= s.len() && s[i] == '`' && s[i + 1] == '`' && s[i + 2] == '`'
}

/// The first fence that starts at or after `from`.
pub open spec fn next_fence(s: Seq<char>, from: int) -> Option<int>
    decreases s.len() - from,
{
    if from < 0 || from + 3 > s.len() {
        None
    } else if fence_at(s, from) {
        Some(from)
    } else {
        next_fence(s, from + 1)
    }
}

/// A character that may stand in a language tag: an ASCII letter or digit,
/// or `_`.
pub open spec fn is_tag_char(c: char) -> bool {
    let u = c as u32;
    (0x30 <= u && u <= 0x39) || (0x41 <= u && u <= 0x5A) || (0x61 <= u && u <= 0x7A) || u
        == 0x5F
}

/// The end of the run of tag characters that starts at `i`, stopping at
/// `end` at the latest.
pub open spec fn word_end(s: Seq<char>, i: int, end: int) -> int
    decreases end - i,
{
    if 0 <= i < end && i < s.len() && is_tag_char(s[i]) {
        word_end(s, i + 1, end)
    } else {
        i
    }
}

/// Where the body of a block opened just before `start` and closed at `end`
/// begins: a language tag that fills the rest of the opening line is skipped.
pub open spec fn body_start(s: Seq<char>, start: int, end: int) -> int {
    let k = word_end(s, start, end);
    if 0 <= k < end && k < s.len() && (s[k] == '\n' || s[k] == '\r') {
        k
    } else {
        start
    }
}

/// The body of the block between `start` (just after the opening fence) and
/// `end` (the closing fence).
pub open spec fn block_body(s: Seq<char>, start: int, end: int) -> Seq<char> {
    s.subrange(body_start(s, start, end), end)
}

/// The bodies of the fenced blocks of `s` from index `from` on, concatenated.
/// Fences pair up in order: the first opens a block, the next closes it.
pub open spec fn bodies_from(s: Seq<char>, from: int) -> Seq<char>
    decreases s.len() - from,
{
    match next_fence(s, from) {
        None => Seq::empty(),
        Some(o) => match next_fence(s, o + 3) {
            None => Seq::empty(),
            Some(c) => if from <= c && c + 3 <= s.len() {
                block_body(s, o + 3, c) + bodies_from(s, c + 3)
            } else {
                Seq::empty()
            },
        },
    }
}

/// What the extractor returns for the reply `s`: the trimmed bodies of its
/// blocks, or, when these are empty once trimmed, the trimmed reply.
pub open spec fn extracted(s: Seq<char>) -> Seq<char> {
    let t = trim(bodies_from(s, 0));
    if t.len() == 0 {
        trim(s)
    } else {
        t
    }
}

/// The fence that `next_fence` finds is the first one at or after `from`.
pub proof fn lemma_next_fence(s: Seq<char>, from: int)
    requires
        0 <= from,
    ensures
        match next_fence(s, from) {
            Some(i) => from <= i && fence_at(s, i) && forall|j: int|
                from <= j < i ==> !fence_at(s, j),
            None => forall|j: int| from <= j ==> !fence_at(s, j),
        },
    decreases s.len() - from,
{
    if from + 3 > s.len() {
    } else if fence_at(s, from) {
    } else {
        lemma_next_fence(s, from + 1);
    }
}

fn is_fence(v: &Vec<char>, i: usize) -> (r: bool)
    ensures
        r == fence_at(v@, i as int),
{
    i <= v.len() && 3 <= v.len() - i && v[i] == '`' && v[i + 1] == '`' && v[i + 2] == '`'
}

fn find_fence(v: &Vec<char>, from: usize) -> (r: Option<usize>)
    ensures
        r matches Some(i) ==> next_fence(v@, from as int) == Some(i as int),
        r is None ==> next_fence(v@, from as int) is None,
{
    let mut i = from;
    while i <= v.len() && 3 <= v.len() - i
        invariant
            from <= i,
            next_fence(v@, from as int) == next_fence(v@, i as int),
        decreases v.len() - i,
    {
        if is_fence(v, i) {
            return Some(i);
        }
        i = i + 1;
    }
    None
}

fn tag_char(c: char) -> (r: bool)
    ensures
        r == is_tag_char(c),
{
    let u = c as u32;
    (0x30 <= u && u <= 0x39) || (0x41 <= u && u <= 0x5A) || (0x61 <= u && u <= 0x7A) || u
        == 0x5F
}

fn find_body_start(v: &Vec<char>, start: usize, end: usize) -> (r: usize)
    requires
        start <= end <= v.len(),
    ensures
        r as int == body_start(v@, start as int, end as int),
        start <= r <= end,
{
    let mut k = start;
    while k < end && tag_char(v[k])
        invariant
            start <= k <= end <= v.len(),
            word_end(v@, start as int, end as int) == word_end(v@, k as int, end as int),
        decreases end - k,
    {
        k = k + 1;
    }
    if k < end && (v[k] == '\n' || v[k] == '\r') {
        k
    } else {
        start
    }
}

/// Extracts the executable part of a model reply: the bodies of all its
/// fenced code blocks, concatenated and trimmed; when that is empty, the
/// trimmed reply itself. A reply with more than whitespace never gives an
/// empty result.
pub fn extract_block(input: &str) -> (r: String)
    ensures
        r@ == extracted(input@),
        trim(input@).len() > 0 ==> r@.len() > 0,
{
    let v = chars_of(input);
    let ghost s = v@;
    let mut u: Vec<char> = Vec::new();
    let mut pos: usize = 0;
    while pos <= v.len()
        invariant
            pos <= v.len() + 3,
            s == v@,
            u@ + bodies_from(s, pos as int) == bodies_from(s, 0),
        ensures
            u@ == bodies_from(s, 0),
        decreases v.len() + 3 - pos,
    {
        proof {
            lemma_next_fence(s, pos as int);
        }
        if pos > v.len() || v.len() - pos < 3 {
            assert(u@ =~= u@ + bodies_from(s, pos as int));
            break;
        }
        let o = match find_fence(&v, pos) {
            Some(o) => o,
            None => {
                assert(u@ =~= u@ + bodies_from(s, pos as int));
                break;
            },
        };
        proof {
            lemma_next_fence(s, o + 3);
        }
        let c = match find_fence(&v, o + 3) {
            Some(c) => c,
            None => {
                assert(u@ =~= u@ + bodies_from(s, pos as int));
                break;
            },
        };
        let b = find_body_start(&v, o + 3, c);
        let ghost old_u = u@;
        let mut k = b;
        while k < c
            invariant
                b <= k <= c <= v.len(),
                u@ == old_u + v@.subrange(b as int, k as int),
            decreases c - k,
        {
            u.push(v[k]);
            assert(v@.subrange(b as int, k + 1) =~= v@.subrange(b as int, k as int).push(
                v@[k as int],
            ));
            k = k + 1;
        }
        assert(old_u + (block_body(s, o + 3, c as int) + bodies_from(s, c + 3)) =~= u@
            + bodies_from(s, c + 3));
        pos = c + 3;
    }
    let (a, b) = trim_bounds(&u, 0, u.len());
    assert(u@.subrange(0, u@.len() as int) =~= u@);
    if a == b {
        trimmed(input)
    } else {
        string_of(&u, a, b)
    }
}

/// `s` holds no fence.
pub open spec fn no_fence(s: Seq<char>) -> bool {
    forall|j: int| !#[trigger] fence_at(s, j)
}

proof fn lemma_word_end_bounds(s: Seq<char>, i: int, e: int)
    requires
        0 <= i <= e,
    ensures
        i <= word_end(s, i, e) <= e,
    decreases e - i,
{
    if i < e && i < s.len() && is_tag_char(s[i]) {
        lemma_word_end_bounds(s, i + 1, e);
    }
}

/// With no fence in `[f, g)`, the blocks found from `f` and from `g` agree.
proof fn lemma_bodies_skip(s: Seq<char>, f: int, g: int)
    requires
        0 <= f <= g,
        forall|i: int| f <= i < g ==> !#[trigger] fence_at(s, i),
    ensures
        bodies_from(s, f) == bodies_from(s, g),
{
    lemma_next_fence(s, f);
    lemma_next_fence(s, g);
    assert(next_fence(s, f) == next_fence(s, g));
    match next_fence(s, f) {
        None => {},
        Some(o) => {
            lemma_next_fence(s, o + 3);
        },
    }
}

/// The fences of `s[a..b]` are those of `s`, shifted, when every fence of
/// `s` lies inside `[a, b)`.
pub open spec fn fences_inside(s: Seq<char>, a: int, b: int) -> bool {
    &&& 0 <= a <= b <= s.len()
    &&& forall|i: int| #[trigger] fence_at(s, i) ==> a <= i && i + 3 <= b
}

proof fn lemma_fence_shift(s: Seq<char>, a: int, b: int, i: int)
    requires
        fences_inside(s, a, b),
    ensures
        fence_at(s.subrange(a, b), i) == fence_at(s, i + a),
{
    if fence_at(s, i + a) {
        assert(a <= i + a && i + a + 3 <= b);
    }
}

proof fn lemma_next_fence_shift(s: Seq<char>, a: int, b: int, f: int)
    requires
        fences_inside(s, a, b),
        0 <= f,
    ensures
        match next_fence(s.subrange(a, b), f) {
            Some(x) => next_fence(s, f + a) == Some(x + a),
            None => next_fence(s, f + a) is None,
        },
    decreases b - a - f,
{
    let t = s.subrange(a, b);
    lemma_fence_shift(s, a, b, f);
    lemma_next_fence(s, f + a);
    if f + 3 > t.len() {
        match next_fence(s, f + a) {
            Some(i) => {
                assert(fence_at(s, i));
            },
            None => {},
        }
    } else if fence_at(t, f) {
    } else {
        lemma_next_fence_shift(s, a, b, f + 1);
    }
}

proof fn lemma_word_end_shift(s: Seq<char>, a: int, b: int, i: int, e: int)
    requires
        0 <= a <= b <= s.len(),
        0 <= i <= e <= b - a,
    ensures
        word_end(s.subrange(a, b), i, e) == word_end(s, i + a, e + a) - a,
    decreases e - i,
{
    if i < e {
        lemma_word_end_shift(s, a, b, i + 1, e);
    }
}

proof fn lemma_bodies_shift(s: Seq<char>, a: int, b: int, f: int)
    requires
        fences_inside(s, a, b),
        0 <= f,
    ensures
        bodies_from(s.subrange(a, b), f) == bodies_from(s, f + a),
    decreases b - a - f,
{
    let t = s.subrange(a, b);
    lemma_next_fence_shift(s, a, b, f);
    lemma_next_fence(t, f);
    match next_fence(t, f) {
        None => {},
        Some(o) => {
            lemma_next_fence_shift(s, a, b, o + 3);
            lemma_next_fence(t, o + 3);
            match next_fence(t, o + 3) {
                None => {},
                Some(c) => {
                    assert(fence_at(s, c + a)) by {
                        lemma_fence_shift(s, a, b, c);
                    }
                    lemma_word_end_shift(s, a, b, o + 3, c);
                    lemma_word_end_bounds(t, o + 3, c);
                    let k = word_end(t, o + 3, c);
                    if k < c {
                        assert(t[k] == s[k + a]);
                    }
                    let bs = body_start(t, o + 3, c);
                    assert(body_start(s, o + 3 + a, c + a) == bs + a);
                    assert(block_body(t, o + 3, c) =~= block_body(s, o + 3 + a, c + a));
                    lemma_bodies_shift(s, a, b, c + 3);
                },
            }
        },
    }
}

/// The concatenated block bodies hold no fence: a body stops before the
/// first fence after its opening one, and never ends with a backtick.
pub proof fn lemma_bodies_no_fence(s: Seq<char>, f: int)
    requires
        0 <= f,
    ensures
        no_fence(bodies_from(s, f)),
    decreases s.len() - f,
{
    lemma_next_fence(s, f);
    match next_fence(s, f) {
        None => {},
        Some(o) => {
            lemma_next_fence(s, o + 3);
            match next_fence(s, o + 3) {
                None => {},
                Some(c) => {
                    if f <= c && c + 3 <= s.len() {
                        lemma_bodies_no_fence(s, c + 3);
                        lemma_word_end_bounds(s, o + 3, c);
                        let bs = body_start(s, o + 3, c);
                        let body = s.subrange(bs, c);
                        let rest = bodies_from(s, c + 3);
                        assert forall|j: int| !#[trigger] fence_at(body + rest, j) by {
                            if fence_at(body + rest, j) {
                                if j + 3 <= body.len() {
                                    assert(fence_at(s, bs + j));
                                } else if j >= body.len() {
                                    assert(fence_at(rest, j - body.len()));
                                } else {
                                    let m = body.len() - 1;
                                    assert(m == j || m == j + 1 || m == j + 2);
                                    assert((body + rest)[m] == '`');
                                    assert(s[c - 1] == '`');
                                    assert(fence_at(s, c - 1));
                                }
                            }
                        }
                    }
                },
            }
        },
    }
}

proof fn lemma_subrange_no_fence(u: Seq<char>, a: int, b: int)
    requires
        no_fence(u),
        0 <= a <= b <= u.len(),
    ensures
        no_fence(u.subrange(a, b)),
{
    assert forall|j: int| !#[trigger] fence_at(u.subrange(a, b), j) by {
        if fence_at(u.subrange(a, b), j) {
            assert(fence_at(u, j + a));
        }
    }
}

/// A reply without a block, that is without a fence that starts after
/// the end of an earlier one, comes back trimmed.
pub proof fn lemma_extract_without_block(s: Seq<char>)
    requires
        forall|o: int, c: int| #[trigger] fence_at(s, o) && #[trigger] fence_at(s, c) ==> c < o + 3,
    ensures
        extracted(s) == trim(s),
{
    lemma_next_fence(s, 0);
    if let Some(o) = next_fence(s, 0) {
        lemma_next_fence(s, o + 3);
        if let Some(c) = next_fence(s, o + 3) {
            assert(fence_at(s, o) && fence_at(s, c));
        }
    }
}

/// A reply whose only fences are the two around one block, with a body
/// that is not blank, gives that body, trimmed.
pub proof fn lemma_extract_single_block(s: Seq<char>, open: int, close: int)
    requires
        0 <= open,
        open + 3 <= close,
        forall|i: int| #[trigger] fence_at(s, i) <==> (i == open || i == close),
        trim(block_body(s, open + 3, close)).len() > 0,
    ensures
        extracted(s) == trim(block_body(s, open + 3, close)),
{
    assert(fence_at(s, open));
    assert(fence_at(s, close));
    lemma_next_fence(s, 0);
    lemma_next_fence(s, open + 3);
    lemma_next_fence(s, close + 3);
    assert(next_fence(s, 0) == Some(open));
    assert(next_fence(s, open + 3) == Some(close));
    assert(next_fence(s, close + 3) is None);
    assert(bodies_from(s, close + 3) =~= Seq::<char>::empty());
    assert(bodies_from(s, 0) =~= block_body(s, open + 3, close));
}

/// Extracting twice gives what extracting once gives.
pub proof fn lemma_extract_idempotent(s: Seq<char>)
    ensures
        extracted(extracted(s)) == extracted(s),
{
    let u = bodies_from(s, 0);
    if trim(u).len() == 0 {
        let (a, b) = lemma_trim_bounds(s);
        assert forall|i: int| #[trigger] fence_at(s, i) implies a <= i && i + 3 <= b by {
            if i < a {
                assert(is_ws(s[i]));
            }
            if i + 3 > b {
                assert(is_ws(s[i + 2]));
            }
        }
        assert forall|i: int| 0 <= i < a implies !#[trigger] fence_at(s, i) by {
            assert(is_ws(s[i]));
        }
        lemma_bodies_skip(s, 0, a);
        lemma_bodies_shift(s, a, b, 0);
        lemma_trim_idempotent(s);
    } else {
        lemma_bodies_no_fence(s, 0);
        let (a, b) = lemma_trim_bounds(u);
        lemma_subrange_no_fence(u, a, b);
        lemma_extract_without_block(trim(u));
        lemma_trim_idempotent(u);
    }
}

} // verus!
