//! ASCII-oriented text helpers used by the parsers and the feedback strings.
use vstd::prelude::*;

verus! {

/// ASCII whitespace, the only whitespace the daemon's inputs carry.
pub open spec fn is_ascii_ws(c: char) -> bool {
    c == ' ' || c == '\t' || c == '\n' || c == '\r'
}

/// True when `c` is an ASCII letter.
pub open spec fn is_ascii_alpha(c: char) -> bool {
    (97 <= c as u32 && c as u32 <= 122) || (65 <= c as u32 && c as u32 <= 90)
}

/// Case-insensitive equality of two ASCII characters.
pub open spec fn eqi_char(a: char, b: char) -> bool {
    a == b
    || (65 <= a as u32 && a as u32 <= 90 && b as u32 == a as u32 + 32)
    || (65 <= b as u32 && b as u32 <= 90 && a as u32 == b as u32 + 32)
}

/// Case-insensitive equality of two character sequences (ASCII case folding).
pub open spec fn seq_eqi(a: Seq<char>, b: Seq<char>) -> bool {
    a.len() == b.len() && forall|i: int| 0 <= i < a.len() ==> eqi_char(a[i], b[i])
}

/// Character-for-character equality of two string slices.
pub fn str_eq(a: &str, b: &str) -> (r: bool)
    ensures
        r == (a@ == b@),
{
    let alen = a.unicode_len();
    let blen = b.unicode_len();
    if alen != blen {
        assert(a@ != b@) by {
            assert(a@.len() != b@.len());
        }
        return false;
    }
    let mut i: usize = 0;
    while i < alen
        invariant
            alen == a@.len(),
            blen == b@.len(),
            alen == blen,
            0 <= i <= alen,
            forall|j: int| 0 <= j < i ==> a@[j] == b@[j],
        decreases alen - i,
    {
        if a.get_char(i) != b.get_char(i) {
            return false;
        }
        i += 1;
    }
    proof {
        assert(a@ =~= b@);
    }
    true
}

/// Case-insensitive equality of two string slices, folding ASCII case only.
pub fn str_eq_ignore_case(a: &str, b: &str) -> (r: bool)
    ensures
        r == seq_eqi(a@, b@),
{
    let alen = a.unicode_len();
    let blen = b.unicode_len();
    if alen != blen {
        return false;
    }
    let mut i: usize = 0;
    while i < alen
        invariant
            alen == a@.len(),
            blen == b@.len(),
            alen == blen,
            0 <= i <= alen,
            forall|j: int| 0 <= j < i ==> eqi_char(a@[j], b@[j]),
        decreases alen - i,
    {
        let ca = a.get_char(i);
        let cb = b.get_char(i);
        let ua = ca as u32;
        let ub = cb as u32;
        let fa = if 65 <= ua && ua <= 90 { ua + 32 } else { ua };
        let fb = if 65 <= ub && ub <= 90 { ub + 32 } else { ub };
        if fa != fb {
            assert(!eqi_char(ca, cb));
            return false;
        }
        assert(eqi_char(ca, cb));
        i += 1;
    }
    true
}

/// What is left of `s` once leading ASCII whitespace is dropped.
pub open spec fn trim_start_spec(s: Seq<char>) -> Seq<char>
    decreases s.len(),
{
    if s.len() > 0 && is_ascii_ws(s[0]) {
        trim_start_spec(s.drop_first())
    } else {
        s
    }
}

/// What is left of `s` once trailing ASCII whitespace is dropped.
pub open spec fn trim_end_spec(s: Seq<char>) -> Seq<char>
    decreases s.len(),
{
    if s.len() > 0 && is_ascii_ws(s[s.len() - 1]) {
        trim_end_spec(s.drop_last())
    } else {
        s
    }
}

/// `s` without leading and trailing ASCII whitespace.
pub open spec fn trim_spec(s: Seq<char>) -> Seq<char> {
    trim_end_spec(trim_start_spec(s))
}

proof fn lemma_trim_start_skip(s: Seq<char>, i: int)
    requires
        0 <= i <= s.len(),
        forall|j: int| 0 <= j < i ==> is_ascii_ws(s[j]),
    ensures
        trim_start_spec(s) == trim_start_spec(s.skip(i)),
    decreases i,
{
    if i > 0 {
        assert(s.skip(0) =~= s);
        assert(trim_start_spec(s) == trim_start_spec(s.drop_first()));
        assert(s.drop_first() =~= s.skip(1));
        lemma_trim_start_skip(s.skip(1), i - 1);
        assert(s.skip(1).skip(i - 1) =~= s.skip(i));
    } else {
        assert(s.skip(0) =~= s);
    }
}

proof fn lemma_trim_end_take(s: Seq<char>, i: int)
    requires
        0 <= i <= s.len(),
        forall|j: int| i <= j < s.len() ==> is_ascii_ws(s[j]),
    ensures
        trim_end_spec(s) == trim_end_spec(s.take(i)),
    decreases s.len() - i,
{
    if i < s.len() {
        assert(trim_end_spec(s) == trim_end_spec(s.drop_last()));
        assert(s.drop_last() =~= s.take(s.len() - 1));
        lemma_trim_end_take(s.take(s.len() - 1), i);
        assert(s.take(s.len() - 1).take(i) =~= s.take(i));
    } else {
        assert(s.take(i) =~= s);
    }
}

fn is_ws_char(c: char) -> (r: bool)
    ensures
        r == is_ascii_ws(c),
{
    c == ' ' || c == '\t' || c == '\n' || c == '\r'
}

/// `s` with leading and trailing ASCII whitespace removed, as a fresh `String`.
pub fn trim_str(s: &str) -> (r: String)
    ensures
        r@ == trim_spec(s@),
{
    let len = s.unicode_len();
    let mut start: usize = 0;
    while start < len && is_ws_char(s.get_char(start))
        invariant
            len == s@.len(),
            0 <= start <= len,
            forall|j: int| 0 <= j < start ==> is_ascii_ws(s@[j]),
        decreases len - start,
    {
        start += 1;
    }
    proof {
        lemma_trim_start_skip(s@, start as int);
        if start < len {
            assert(s@.skip(start as int)[0] == s@[start as int]);
            assert(trim_start_spec(s@.skip(start as int)) == s@.skip(start as int));
        } else {
            assert(s@.skip(start as int) =~= Seq::<char>::empty());
            assert(trim_start_spec(s@.skip(start as int)) =~= s@.skip(start as int));
        }
    }
    // s@.skip(start) is now exactly trim_start_spec(s@)
    let mut end: usize = len;
    while end > start && is_ws_char(s.get_char(end - 1))
        invariant
            len == s@.len(),
            0 <= start <= end <= len,
            forall|j: int| end <= j < len ==> is_ascii_ws(s@[j]),
        decreases end,
    {
        end -= 1;
    }
    let piece = s.substring_char(start, end);
    proof {
        let t = s@.skip(start as int);
        assert(forall|j: int| (end - start) <= j < t.len() ==> is_ascii_ws(#[trigger] t[j]));
        lemma_trim_end_take(t, end - start);
        if end > start {
            let u = t.take(end - start);
            assert(u[u.len() - 1] == s@[end - 1]);
            assert(trim_end_spec(u) == u);
        } else {
            assert(t.take(end - start) =~= Seq::<char>::empty());
            assert(trim_end_spec(t.take(end - start)) =~= t.take(end - start));
        }
        assert(t.take(end - start) =~= s@.subrange(start as int, end as int));
        assert(piece@ == trim_spec(s@));
    }
    String::from_str(piece)
}

/// True when `needle` occurs contiguously inside `hay`.
pub open spec fn contains_seq(hay: Seq<char>, needle: Seq<char>) -> bool {
    exists|i: int|
        0 <= i && i + needle.len() <= hay.len() && #[trigger] hay.subrange(i, i + needle.len())
            == needle
}

/// Substring search: does `hay` contain `needle`?
pub fn str_contains(hay: &str, needle: &str) -> (r: bool)
    ensures
        r == contains_seq(hay@, needle@),
{
    let hlen = hay.unicode_len();
    let nlen = needle.unicode_len();
    if nlen > hlen {
        return false;
    }
    if nlen == 0 {
        proof {
            assert(hay@.subrange(0, 0 + needle@.len() as int) =~= needle@);
        }
        return true;
    }
    let mut i: usize = 0;
    while i <= hlen - nlen
        invariant
            hlen == hay@.len(),
            nlen == needle@.len(),
            1 <= nlen <= hlen,
            0 <= i <= hlen - nlen + 1,
            forall|k: int|
                0 <= k < i ==> #[trigger] hay@.subrange(k, k + needle@.len()) != needle@,
        decreases hlen - nlen - i + 1,
    {
        let mut j: usize = 0;
        let mut matched = true;
        while j < nlen
            invariant
                hlen == hay@.len(),
                nlen == needle@.len(),
                0 <= i <= hlen - nlen,
                0 <= j <= nlen,
                matched ==> forall|m: int| 0 <= m < j ==> hay@[i + m] == needle@[m],
                !matched ==> hay@.subrange(i as int, i + needle@.len()) != needle@,
            decreases nlen - j,
        {
            if hay.get_char(i + j) != needle.get_char(j) {
                proof {
                    let sub = hay@.subrange(i as int, i + needle@.len());
                    assert(sub[j as int] == hay@[i + j]);
                }
                matched = false;
                j = nlen;
            } else {
                j += 1;
            }
        }
        if matched {
            proof {
                assert(hay@.subrange(i as int, i + needle@.len()) =~= needle@);
            }
            return true;
        }
        i += 1;
    }
    proof {
        assert(forall|k: int|
            0 <= k && k + needle@.len() <= hay@.len() ==> #[trigger] hay@.subrange(
                k,
                k + needle@.len(),
            ) != needle@);
    }
    false
}

/// True when something case-insensitively equal to `needle` occurs
/// contiguously inside `hay` (ASCII case folding).
pub open spec fn contains_seq_ci(hay: Seq<char>, needle: Seq<char>) -> bool {
    exists|i: int|
        0 <= i && i + needle.len() <= hay.len() && #[trigger] seq_eqi(
            hay.subrange(i, i + needle.len()),
            needle,
        )
}

/// Case-insensitive substring search (ASCII case folding).
pub fn str_contains_ignore_case(hay: &str, needle: &str) -> (r: bool)
    ensures
        r == contains_seq_ci(hay@, needle@),
{
    let hlen = hay.unicode_len();
    let nlen = needle.unicode_len();
    if nlen > hlen {
        return false;
    }
    if nlen == 0 {
        proof {
            assert(seq_eqi(hay@.subrange(0, 0 + needle@.len() as int), needle@));
        }
        return true;
    }
    let mut i: usize = 0;
    while i <= hlen - nlen
        invariant
            hlen == hay@.len(),
            nlen == needle@.len(),
            1 <= nlen <= hlen,
            0 <= i <= hlen - nlen + 1,
            forall|k: int|
                0 <= k < i ==> !seq_eqi(#[trigger] hay@.subrange(k, k + needle@.len()), needle@),
        decreases hlen - nlen - i + 1,
    {
        let mut j: usize = 0;
        let mut matched = true;
        while j < nlen
            invariant
                hlen == hay@.len(),
                nlen == needle@.len(),
                0 <= i <= hlen - nlen,
                0 <= j <= nlen,
                matched ==> forall|m: int| 0 <= m < j ==> eqi_char(hay@[i + m], needle@[m]),
                !matched ==> !seq_eqi(hay@.subrange(i as int, i + needle@.len()), needle@),
            decreases nlen - j,
        {
            let ca = hay.get_char(i + j);
            let cb = needle.get_char(j);
            let ua = ca as u32;
            let ub = cb as u32;
            let fa = if 65 <= ua && ua <= 90 { ua + 32 } else { ua };
            let fb = if 65 <= ub && ub <= 90 { ub + 32 } else { ub };
            if fa != fb {
                proof {
                    let sub = hay@.subrange(i as int, i + needle@.len());
                    assert(sub[j as int] == hay@[i + j]);
                    assert(!eqi_char(ca, cb));
                }
                matched = false;
                j = nlen;
            } else {
                proof {
                    assert(eqi_char(ca, cb));
                }
                j += 1;
            }
        }
        if matched {
            proof {
                let sub = hay@.subrange(i as int, i + needle@.len());
                assert(forall|m: int| 0 <= m < needle@.len() ==> sub[m] == hay@[i + m]);
                assert(seq_eqi(sub, needle@));
            }
            return true;
        }
        i += 1;
    }
    false
}

/// Index of the first `'+'` in `s`, or `s.len()` when there is none.
pub open spec fn first_plus(s: Seq<char>) -> int
    decreases s.len(),
{
    if s.len() == 0 {
        0
    } else if s[0] == '+' {
        0
    } else {
        1 + first_plus(s.drop_first())
    }
}

pub broadcast proof fn lemma_first_plus_bounds(s: Seq<char>)
    ensures
        0 <= #[trigger] first_plus(s) <= s.len(),
    decreases s.len(),
{
    if s.len() > 0 && s[0] != '+' {
        lemma_first_plus_bounds(s.drop_first());
    }
}

pub proof fn lemma_first_plus_is(s: Seq<char>, k: int)
    requires
        0 <= k <= s.len(),
        forall|j: int| 0 <= j < k ==> s[j] != '+',
        k < s.len() ==> s[k] == '+',
    ensures
        first_plus(s) == k,
    decreases k,
{
    if s.len() == 0 {
    } else if k == 0 {
    } else {
        lemma_first_plus_is(s.drop_first(), k - 1);
    }
}

/// `s` split at every `'+'`; always at least one (possibly empty) piece.
pub open spec fn split_plus(s: Seq<char>) -> Seq<Seq<char>>
    decreases s.len(),
    via split_plus_decreases
{
    if first_plus(s) == s.len() {
        seq![s]
    } else {
        seq![s.take(first_plus(s))] + split_plus(s.skip(first_plus(s) + 1))
    }
}

#[via_fn]
proof fn split_plus_decreases(s: Seq<char>) {
    lemma_first_plus_bounds(s);
}

/// Wherever `split_plus(s)` is mentioned, the bounds on `first_plus(s)` that its
/// definition rests on are available.
pub broadcast proof fn lemma_split_plus_defined(s: Seq<char>)
    ensures
        0 <= first_plus(s) <= s.len(),
        (#[trigger] split_plus(s)).len() >= 1,
    decreases s.len(),
{
    lemma_first_plus_bounds(s);
    if first_plus(s) < s.len() {
        lemma_split_plus_defined(s.skip(first_plus(s) + 1));
    }
}

/// The pieces of `s` between `'+'` separators, left to right.
pub fn split_plus_str(s: &str) -> (r: Vec<String>)
    ensures
        r@.len() == split_plus(s@).len(),
        forall|i: int| 0 <= i < r@.len() ==> r@[i]@ == split_plus(s@)[i],
{
    broadcast use lemma_first_plus_bounds, lemma_split_plus_defined;

    let len = s.unicode_len();
    let mut out: Vec<String> = Vec::new();
    let mut seg_start: usize = 0;
    let mut i: usize = 0;
    proof {
        assert(s@.skip(0) =~= s@);
        assert(out@.map_values(|t: String| t@) =~= Seq::<Seq<char>>::empty());
    }
    while i < len
        invariant
            len == s@.len(),
            0 <= seg_start <= i <= len,
            forall|j: int| seg_start <= j < i ==> s@[j] != '+',
            split_plus(s@) =~= out@.map_values(|t: String| t@) + split_plus(
                s@.skip(seg_start as int),
            ),
        decreases len - i,
    {
        if s.get_char(i) == '+' {
            let piece = s.substring_char(seg_start, i);
            let piece_string = String::from_str(piece);
            proof {
                let tail = s@.skip(seg_start as int);
                assert(forall|j: int|
                    0 <= j < i - seg_start ==> tail[j] == s@[seg_start + j] && #[trigger] tail[j]
                        != '+');
                assert(tail[i - seg_start] == '+');
                lemma_first_plus_is(tail, i - seg_start);
                assert(tail.take(i - seg_start) =~= s@.subrange(seg_start as int, i as int));
                assert(tail.skip(i - seg_start + 1) =~= s@.skip(i + 1));
                assert(split_plus(tail) =~= seq![piece@] + split_plus(s@.skip(i + 1)));
            }
            let ghost prev = out@;
            out.push(piece_string);
            proof {
                assert(out@.map_values(|t: String| t@) =~= prev.map_values(|t: String| t@).push(
                    piece@,
                ));
                assert(split_plus(s@) =~= out@.map_values(|t: String| t@) + split_plus(
                    s@.skip(i + 1),
                ));
            }
            seg_start = i + 1;
        }
        i += 1;
    }
    let piece = s.substring_char(seg_start, len);
    let piece_string = String::from_str(piece);
    proof {
        let tail = s@.skip(seg_start as int);
        assert(forall|j: int|
            0 <= j < tail.len() ==> tail[j] == s@[seg_start + j] && #[trigger] tail[j] != '+');
        lemma_first_plus_is(tail, tail.len() as int);
        assert(tail =~= s@.subrange(seg_start as int, len as int));
        assert(split_plus(tail) =~= seq![tail]);
    }
    let ghost prev = out@;
    out.push(piece_string);
    proof {
        assert(out@.map_values(|t: String| t@) =~= prev.map_values(|t: String| t@).push(piece@));
        assert(split_plus(s@) =~= out@.map_values(|t: String| t@));
    }
    out
}

/// ASCII uppercase of one character; everything else is unchanged.
pub open spec fn upper_char(c: char) -> char {
    if c == 'a' { 'A' } else if c == 'b' { 'B' } else if c == 'c' { 'C' }
    else if c == 'd' { 'D' } else if c == 'e' { 'E' } else if c == 'f' { 'F' }
    else if c == 'g' { 'G' } else if c == 'h' { 'H' } else if c == 'i' { 'I' }
    else if c == 'j' { 'J' } else if c == 'k' { 'K' } else if c == 'l' { 'L' }
    else if c == 'm' { 'M' } else if c == 'n' { 'N' } else if c == 'o' { 'O' }
    else if c == 'p' { 'P' } else if c == 'q' { 'Q' } else if c == 'r' { 'R' }
    else if c == 's' { 'S' } else if c == 't' { 'T' } else if c == 'u' { 'U' }
    else if c == 'v' { 'V' } else if c == 'w' { 'W' } else if c == 'x' { 'X' }
    else if c == 'y' { 'Y' } else if c == 'z' { 'Z' } else { c }
}

/// `s` with every ASCII lowercase letter replaced by its uppercase form.
pub fn ascii_upper(s: &str) -> (r: String)
    ensures
        r@.len() == s@.len(),
        forall|i: int| 0 <= i < s@.len() ==> r@[i] == upper_char(s@[i]),
{
    let len = s.unicode_len();
    let mut out = String::new();
    let mut i: usize = 0;
    while i < len
        invariant
            len == s@.len(),
            0 <= i <= len,
            out@.len() == i,
            forall|j: int| 0 <= j < i ==> out@[j] == upper_char(s@[j]),
        decreases len - i,
    {
        let c = s.get_char(i);
        match c {
            'a' => out.append("A"),
            'b' => out.append("B"),
            'c' => out.append("C"),
            'd' => out.append("D"),
            'e' => out.append("E"),
            'f' => out.append("F"),
            'g' => out.append("G"),
            'h' => out.append("H"),
            'i' => out.append("I"),
            'j' => out.append("J"),
            'k' => out.append("K"),
            'l' => out.append("L"),
            'm' => out.append("M"),
            'n' => out.append("N"),
            'o' => out.append("O"),
            'p' => out.append("P"),
            'q' => out.append("Q"),
            'r' => out.append("R"),
            's' => out.append("S"),
            't' => out.append("T"),
            'u' => out.append("U"),
            'v' => out.append("V"),
            'w' => out.append("W"),
            'x' => out.append("X"),
            'y' => out.append("Y"),
            'z' => out.append("Z"),
            _ => {
                let piece = s.substring_char(i, i + 1);
                out.append(piece);
            },
        }
        proof {
            reveal_strlit("A"); reveal_strlit("B"); reveal_strlit("C"); reveal_strlit("D");
            reveal_strlit("E"); reveal_strlit("F"); reveal_strlit("G"); reveal_strlit("H");
            reveal_strlit("I"); reveal_strlit("J"); reveal_strlit("K"); reveal_strlit("L");
            reveal_strlit("M"); reveal_strlit("N"); reveal_strlit("O"); reveal_strlit("P");
            reveal_strlit("Q"); reveal_strlit("R"); reveal_strlit("S"); reveal_strlit("T");
            reveal_strlit("U"); reveal_strlit("V"); reveal_strlit("W"); reveal_strlit("X");
            reveal_strlit("Y"); reveal_strlit("Z");
            assert(s@.subrange(i as int, i + 1) =~= seq![s@[i as int]]);
        }
        i += 1;
    }
    out
}

} // verus!
