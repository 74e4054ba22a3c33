use vstd::prelude::*;
use vstd::string::StrSliceExecFns;

verus! {

/// Whether `c` is a whitespace character: the characters with the Unicode
/// `White_Space` property, the set that trimming removes from the two ends
/// of a token.
pub open spec fn is_space(c: char) -> bool {
    let u = c as u32;
    u == 32 || (9 <= u && u <= 13) || u == 0x85 || u == 0xa0 || u == 0x1680 || (0x2000 <= u
        && u <= 0x200a) || u == 0x2028 || u == 0x2029 || u == 0x202f || u == 0x205f || u == 0x3000
}

/// Whether `c` is a whitespace character.
pub fn is_space_char(c: char) -> (r: bool)
    ensures
        r == is_space(c),
{
    let u = c as u32;
    u == 32 || (9 <= u && u <= 13) || u == 0x85 || u == 0xa0 || u == 0x1680 || (0x2000 <= u
        && u <= 0x200a) || u == 0x2028 || u == 0x2029 || u == 0x202f || u == 0x205f || u == 0x3000
}

/// `c` with an ASCII capital letter replaced by its small form; any other
/// character stays as it is.
pub open spec fn lower_char(c: char) -> char {
    match c {
        'A' => 'a',
        'B' => 'b',
        'C' => 'c',
        'D' => 'd',
        'E' => 'e',
        'F' => 'f',
        'G' => 'g',
        'H' => 'h',
        'I' => 'i',
        'J' => 'j',
        'K' => 'k',
        'L' => 'l',
        'M' => 'm',
        'N' => 'n',
        'O' => 'o',
        'P' => 'p',
        'Q' => 'q',
        'R' => 'r',
        'S' => 's',
        'T' => 't',
        'U' => 'u',
        'V' => 'v',
        'W' => 'w',
        'X' => 'x',
        'Y' => 'y',
        'Z' => 'z',
        _ => c,
    }
}

/// `c` with an ASCII capital letter replaced by its small form.
pub fn to_lower_char(c: char) -> (r: char)
    ensures
        r == lower_char(c),
{
    match c {
        'A' => 'a',
        'B' => 'b',
        'C' => 'c',
        'D' => 'd',
        'E' => 'e',
        'F' => 'f',
        'G' => 'g',
        'H' => 'h',
        'I' => 'i',
        'J' => 'j',
        'K' => 'k',
        'L' => 'l',
        'M' => 'm',
        'N' => 'n',
        'O' => 'o',
        'P' => 'p',
        'Q' => 'q',
        'R' => 'r',
        'S' => 's',
        'T' => 't',
        'U' => 'u',
        'V' => 'v',
        'W' => 'w',
        'X' => 'x',
        'Y' => 'y',
        'Z' => 'z',
        _ => c,
    }
}

/// The characters of `s`, one by one.
pub fn chars_of_str(s: &str) -> (r: Vec<char>)
    ensures
        r@ == s@,
{
    let n = s.unicode_len();
    let mut r: Vec<char> = Vec::new();
    let mut i: usize = 0;
    while i < n
        invariant
            i <= n,
            n == s@.len(),
            r@ == s@.subrange(0, i as int),
        decreases n - i,
    {
        r.push(s.get_char(i));
        proof {
            assert(r@ =~= s@.subrange(0, i + 1 as int));
        }
        i += 1;
    }
    proof {
        assert(r@ =~= s@);
    }
    r
}

/// Whether two strings hold the same characters.
pub fn str_eq(a: &str, b: &str) -> (r: bool)
    ensures
        r == (a@ == b@),
{
    let na = a.unicode_len();
    let nb = b.unicode_len();
    if na != nb {
        return false;
    }
    let mut i: usize = 0;
    while i < na
        invariant
            i <= na,
            na == a@.len(),
            na == b@.len(),
            forall|j: int| 0 <= j < i ==> a@[j] == b@[j],
        decreases na - i,
    {
        if a.get_char(i) != b.get_char(i) {
            return false;
        }
        i += 1;
    }
    proof {
        assert(a@ =~= b@);
    }
    true
}

/// Whether the collected characters equal the string `lit`.
pub fn chars_eq_str(v: &Vec<char>, lit: &str) -> (r: bool)
    ensures
        r == (v@ == lit@),
{
    let n = lit.unicode_len();
    if v.len() != n {
        return false;
    }
    let mut i: usize = 0;
    while i < n
        invariant
            i <= n,
            n == lit@.len(),
            n == v@.len(),
            forall|j: int| 0 <= j < i ==> v@[j] == lit@[j],
        decreases n - i,
    {
        if v[i] != lit.get_char(i) {
            return false;
        }
        i += 1;
    }
    proof {
        assert(v@ =~= lit@);
    }
    true
}

/// `v` with every character lowered by `lower_char`.
pub fn lower_chars(v: &Vec<char>) -> (r: Vec<char>)
    ensures
        r@ == v@.map_values(|c: char| lower_char(c)),
{
    let mut r: Vec<char> = Vec::new();
    let mut i: usize = 0;
    while i < v.len()
        invariant
            i <= v@.len(),
            r@ == v@.subrange(0, i as int).map_values(|c: char| lower_char(c)),
        decreases v@.len() - i,
    {
        r.push(to_lower_char(v[i]));
        proof {
            assert(r@ =~= v@.subrange(0, i + 1 as int).map_values(|c: char| lower_char(c)));
        }
        i += 1;
    }
    proof {
        assert(v@.subrange(0, v@.len() as int) =~= v@);
        assert(r@ =~= v@.map_values(|c: char| lower_char(c)));
    }
    r
}

/// The segments of `s` between occurrences of the delimiter `d`: splitting
/// the empty text gives one empty segment, and every further delimiter adds
/// a segment, so the result always holds at least one segment.
pub open spec fn split_spec(s: Seq<char>, d: char) -> Seq<Seq<char>>
    decreases s.len(),
{
    if s.len() == 0 {
        seq![Seq::<char>::empty()]
    } else if s[0] == d {
        seq![Seq::<char>::empty()] + split_spec(s.drop_first(), d)
    } else {
        let rest = split_spec(s.drop_first(), d);
        seq![seq![s[0]] + rest[0]] + rest.drop_first()
    }
}

pub proof fn lemma_split_len(s: Seq<char>, d: char)
    ensures
        split_spec(s, d).len() >= 1,
    decreases s.len(),
{
    if s.len() == 0 {
    } else {
        lemma_split_len(s.drop_first(), d);
    }
}

/// Appending one character to the text appends an empty segment when the
/// character is the delimiter, and otherwise extends the last segment.
pub proof fn lemma_split_push(s: Seq<char>, d: char, c: char)
    ensures
        c == d ==> split_spec(s.push(c), d) == split_spec(s, d).push(Seq::<char>::empty()),
        c != d ==> split_spec(s.push(c), d) == split_spec(s, d).update(
            split_spec(s, d).len() - 1,
            split_spec(s, d).last().push(c),
        ),
    decreases s.len(),
{
    lemma_split_len(s, d);
    if s.len() == 0 {
        assert(s.push(c).len() == 1);
        assert(s.push(c)[0] == c);
        assert(s.push(c).drop_first() =~= Seq::<char>::empty());
        assert(split_spec(Seq::<char>::empty(), d) == seq![Seq::<char>::empty()]);
        if c == d {
            assert(split_spec(s.push(c), d) == seq![Seq::<char>::empty()] + split_spec(
                s.push(c).drop_first(),
                d,
            ));
            assert(split_spec(s.push(c), d) =~= split_spec(s, d).push(Seq::<char>::empty()));
        } else {
            assert(split_spec(s.push(c), d) == seq![seq![c] + split_spec(
                s.push(c).drop_first(),
                d,
            )[0]] + split_spec(s.push(c).drop_first(), d).drop_first());
            assert(seq![c] + split_spec(s.push(c).drop_first(), d)[0] =~= seq![c]);
            assert(split_spec(s.push(c).drop_first(), d).drop_first() =~= Seq::<Seq<char>>::empty());
            assert(split_spec(s.push(c), d) =~= split_spec(s, d).update(
                0,
                split_spec(s, d).last().push(c),
            ));
        }
    } else {
        lemma_split_len(s.drop_first(), d);
        lemma_split_push(s.drop_first(), d, c);
        assert(s.push(c).drop_first() =~= s.drop_first().push(c));
        if s[0] == d {
            assert(s.push(c)[0] == d);
            assert(split_spec(s.push(c), d) == seq![Seq::<char>::empty()] + split_spec(
                s.drop_first().push(c),
                d,
            ));
            if c == d {
                assert(split_spec(s.push(c), d) =~= split_spec(s, d).push(Seq::<char>::empty()));
            } else {
                assert(split_spec(s.push(c), d) =~= split_spec(s, d).update(
                    split_spec(s, d).len() - 1,
                    split_spec(s, d).last().push(c),
                ));
            }
        } else {
            let rest = split_spec(s.drop_first(), d);
            if c == d {
                assert(split_spec(s.drop_first().push(c), d) == rest.push(Seq::<char>::empty()));
                assert(split_spec(s.push(c), d) =~= split_spec(s, d).push(Seq::<char>::empty()));
            } else {
                let rest2 = split_spec(s.drop_first().push(c), d);
                assert(rest2 == rest.update(rest.len() - 1, rest.last().push(c)));
                if rest.len() == 1 {
                    assert(split_spec(s.push(c), d) =~= split_spec(s, d).update(
                        split_spec(s, d).len() - 1,
                        split_spec(s, d).last().push(c),
                    ));
                } else {
                    assert(rest2[0] =~= rest[0]);
                    assert(split_spec(s.push(c), d) =~= split_spec(s, d).update(
                        split_spec(s, d).len() - 1,
                        split_spec(s, d).last().push(c),
                    ));
                }
            }
        }
    }
}

/// `s` without its leading whitespace.
pub open spec fn trim_start_spec(s: Seq<char>) -> Seq<char>
    decreases s.len(),
{
    if s.len() > 0 && is_space(s[0]) {
        trim_start_spec(s.drop_first())
    } else {
        s
    }
}

/// `s` without its trailing whitespace.
pub open spec fn trim_end_spec(s: Seq<char>) -> Seq<char>
    decreases s.len(),
{
    if s.len() > 0 && is_space(s.last()) {
        trim_end_spec(s.drop_last())
    } else {
        s
    }
}

/// `s` without leading and trailing whitespace.
pub open spec fn trim_spec(s: Seq<char>) -> Seq<char> {
    trim_end_spec(trim_start_spec(s))
}

/// The characters of `s` with leading and trailing whitespace removed.
pub fn trim_chars(s: &Vec<char>) -> (r: Vec<char>)
    ensures
        r@ == trim_spec(s@),
{
    let n = s.len();
    proof {
        assert(s@.subrange(0, n as int) =~= s@);
    }
    let mut lo: usize = 0;
    while lo < n && is_space_char(s[lo])
        invariant
            lo <= n,
            n == s@.len(),
            trim_start_spec(s@) == trim_start_spec(s@.subrange(lo as int, n as int)),
        decreases n - lo,
    {
        proof {
            assert(s@.subrange(lo as int, n as int).drop_first() =~= s@.subrange(
                lo + 1 as int,
                n as int,
            ));
        }
        lo += 1;
    }
    proof {
        assert(trim_start_spec(s@) == s@.subrange(lo as int, n as int));
    }
    let mut hi: usize = n;
    while hi > lo && is_space_char(s[hi - 1])
        invariant
            lo <= hi <= n,
            n == s@.len(),
            trim_end_spec(s@.subrange(lo as int, n as int)) == trim_end_spec(
                s@.subrange(lo as int, hi as int),
            ),
        decreases hi,
    {
        proof {
            assert(s@.subrange(lo as int, hi as int).drop_last() =~= s@.subrange(
                lo as int,
                hi - 1 as int,
            ));
        }
        hi -= 1;
    }
    proof {
        assert(trim_spec(s@) == s@.subrange(lo as int, hi as int));
    }
    let mut r: Vec<char> = Vec::new();
    let mut i: usize = lo;
    while i < hi
        invariant
            lo <= i <= hi <= n,
            n == s@.len(),
            r@ == s@.subrange(lo as int, i as int),
        decreases hi - i,
    {
        r.push(s[i]);
        proof {
            assert(r@ =~= s@.subrange(lo as int, i + 1 as int));
        }
        i += 1;
    }
    r
}

/// The segments of `s` between delimiters, each with its surrounding
/// whitespace removed: what the parser works on.
pub open spec fn tokens_spec(s: Seq<char>, d: char) -> Seq<Seq<char>> {
    split_spec(s, d).map_values(|t: Seq<char>| trim_spec(t))
}

/// The trimmed segments of `s` between occurrences of the delimiter `d`.
pub fn tokens_of(s: &str, d: char) -> (r: Vec<Vec<char>>)
    ensures
        r@.len() == tokens_spec(s@, d).len(),
        r@.len() >= 1,
        forall|i: int| 0 <= i < r@.len() ==> r@[i]@ == tokens_spec(s@, d)[i],
{
    let chars = chars_of_str(s);
    let n = chars.len();
    let mut raw: Vec<Vec<char>> = Vec::new();
    let mut cur: Vec<char> = Vec::new();
    let mut i: usize = 0;
    proof {
        assert(chars@.subrange(0, 0) =~= Seq::<char>::empty());
    }
    while i < n
        invariant
            i <= n,
            n == chars@.len(),
            chars@ == s@,
            raw@.len() + 1 == split_spec(chars@.subrange(0, i as int), d).len(),
            forall|j: int|
                0 <= j < raw@.len() ==> raw@[j]@ == split_spec(chars@.subrange(0, i as int), d)[j],
            cur@ == split_spec(chars@.subrange(0, i as int), d).last(),
        decreases n - i,
    {
        let ghost pre = chars@.subrange(0, i as int);
        proof {
            lemma_split_len(pre, d);
            lemma_split_push(pre, d, chars@[i as int]);
            assert(chars@.subrange(0, i + 1 as int) =~= pre.push(chars@[i as int]));
        }
        let c = chars[i];
        if c == d {
            raw.push(cur);
            cur = Vec::new();
        } else {
            cur.push(c);
        }
        i += 1;
    }
    proof {
        assert(chars@.subrange(0, n as int) =~= s@);
    }
    raw.push(cur);
    let ghost segs = split_spec(s@, d);
    proof {
        assert(forall|j: int| 0 <= j < raw@.len() ==> raw@[j]@ == segs[j]);
    }
    let m = raw.len();
    let mut out: Vec<Vec<char>> = Vec::new();
    let mut k: usize = 0;
    while k < m
        invariant
            k <= m,
            m == raw@.len(),
            m == segs.len(),
            forall|j: int| 0 <= j < m ==> raw@[j]@ == segs[j],
            out@.len() == k,
            forall|j: int| 0 <= j < k ==> out@[j]@ == trim_spec(segs[j]),
        decreases m - k,
    {
        let t = trim_chars(&raw[k]);
        out.push(t);
        k += 1;
    }
    proof {
        assert(tokens_spec(s@, d).len() == segs.len());
        assert(forall|j: int| 0 <= j < m ==> tokens_spec(s@, d)[j] == trim_spec(segs[j]));
    }
    out
}

} // verus!
