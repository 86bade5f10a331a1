//! Character-sequence primitives shared by the manifest parser, the
//! validators and the registry synchronizer: whitespace trimming, searching,
//! splitting into separator-delimited segments, and quote stripping.
//!
//! Executable code works on `Vec<char>` buffers addressed by half-open index
//! ranges; every function is specified against the corresponding `Seq<char>`.

use vstd::prelude::*;

verus! {

/// The characters with the Unicode `White_Space` property: exactly the set
/// that trimming removes.
pub open spec fn is_wspace(c: char) -> bool {
    ||| c == ' '
    ||| c == '\t'
    ||| c == '\n'
    ||| c == '\u{B}'
    ||| c == '\u{C}'
    ||| c == '\r'
    ||| c == '\u{85}'
    ||| c == '\u{A0}'
    ||| c == '\u{1680}'
    ||| c == '\u{2000}'
    ||| c == '\u{2001}'
    ||| c == '\u{2002}'
    ||| c == '\u{2003}'
    ||| c == '\u{2004}'
    ||| c == '\u{2005}'
    ||| c == '\u{2006}'
    ||| c == '\u{2007}'
    ||| c == '\u{2008}'
    ||| c == '\u{2009}'
    ||| c == '\u{200A}'
    ||| c == '\u{2028}'
    ||| c == '\u{2029}'
    ||| c == '\u{202F}'
    ||| c == '\u{205F}'
    ||| c == '\u{3000}'
}

pub(crate) fn is_wspace_char(c: char) -> (r: bool)
    ensures
        r == is_wspace(c),
{
    c == ' ' || c == '\t' || c == '\n' || c == '\u{B}' || c == '\u{C}' || c == '\r'
        || c == '\u{85}' || c == '\u{A0}' || c == '\u{1680}' || c == '\u{2000}'
        || c == '\u{2001}' || c == '\u{2002}' || c == '\u{2003}' || c == '\u{2004}'
        || c == '\u{2005}' || c == '\u{2006}' || c == '\u{2007}' || c == '\u{2008}'
        || c == '\u{2009}' || c == '\u{200A}' || c == '\u{2028}' || c == '\u{2029}'
        || c == '\u{202F}' || c == '\u{205F}' || c == '\u{3000}'
}

/// `s` with its leading whitespace removed.
pub open spec fn trim_front(s: Seq<char>) -> Seq<char>
    decreases s.len(),
{
    if s.len() > 0 && is_wspace(s[0]) {
        trim_front(s.drop_first())
    } else {
        s
    }
}

/// `s` with its trailing whitespace removed.
pub open spec fn trim_back(s: Seq<char>) -> Seq<char>
    decreases s.len(),
{
    if s.len() > 0 && is_wspace(s.last()) {
        trim_back(s.drop_last())
    } else {
        s
    }
}

/// `s` with leading and trailing whitespace removed.
pub open spec fn spec_trim(s: Seq<char>) -> Seq<char> {
    trim_back(trim_front(s))
}

/// Narrows `[lo, hi)` to the subrange that holds the trimmed content of
/// `v[lo..hi]`.
pub(crate) fn trim_range(v: &Vec<char>, lo: usize, hi: usize) -> (r: (usize, usize))
    requires
        lo <= hi <= v@.len(),
    ensures
        lo <= r.0 <= r.1 <= hi,
        v@.subrange(r.0 as int, r.1 as int) == spec_trim(v@.subrange(lo as int, hi as int)),
{
    let ghost orig = v@.subrange(lo as int, hi as int);
    let mut a = lo;
    while a < hi && is_wspace_char(v[a])
        invariant
            lo <= a <= hi <= v@.len(),
            trim_front(orig) == trim_front(v@.subrange(a as int, hi as int)),
        decreases hi - a,
    {
        proof {
            assert(v@.subrange(a as int, hi as int).drop_first() =~= v@.subrange(
                a as int + 1,
                hi as int,
            ));
        }
        a = a + 1;
    }
    proof {
        assert(trim_front(v@.subrange(a as int, hi as int)) == v@.subrange(a as int, hi as int));
    }
    let mut b = hi;
    while a < b && is_wspace_char(v[b - 1])
        invariant
            lo <= a <= b <= hi <= v@.len(),
            trim_front(orig) == v@.subrange(a as int, hi as int),
            trim_back(v@.subrange(a as int, hi as int)) == trim_back(
                v@.subrange(a as int, b as int),
            ),
        decreases b - a,
    {
        proof {
            assert(v@.subrange(a as int, b as int).drop_last() =~= v@.subrange(
                a as int,
                b as int - 1,
            ));
        }
        b = b - 1;
    }
    proof {
        assert(trim_back(v@.subrange(a as int, b as int)) == v@.subrange(a as int, b as int));
    }
    (a, b)
}

/// Index of the first occurrence of `c` in `s`, if any.
pub open spec fn find_ch(s: Seq<char>, c: char) -> Option<int>
    decreases s.len(),
{
    if s.len() == 0 {
        None
    } else if s[0] == c {
        Some(0int)
    } else {
        match find_ch(s.drop_first(), c) {
            Some(i) => Some(i + 1),
            None => None,
        }
    }
}

/// `find_ch` returns the first occurrence: in range, equal to `c`, with no
/// earlier occurrence; `None` means `c` does not occur at all.
pub proof fn lemma_find_ch(s: Seq<char>, c: char)
    ensures
        match find_ch(s, c) {
            Some(i) => 0 <= i < s.len() && s[i] == c && (forall|k: int| 0 <= k < i ==> s[k] != c),
            None => forall|k: int| 0 <= k < s.len() ==> s[k] != c,
        },
    decreases s.len(),
{
    if s.len() > 0 && s[0] != c {
        lemma_find_ch(s.drop_first(), c);
        assert(forall|k: int| 0 <= k < s.len() - 1 ==> s.drop_first()[k] == s[k + 1]);
        match find_ch(s.drop_first(), c) {
            Some(i) => {
                assert(find_ch(s, c) == Some(i + 1));
                assert(s[i + 1] == c);
                assert forall|k: int| 0 <= k < i + 1 implies s[k] != c by {
                    if k > 0 {
                        assert(s.drop_first()[k - 1] != c);
                    }
                }
            },
            None => {
                assert forall|k: int| 0 <= k < s.len() implies s[k] != c by {
                    if k > 0 {
                        assert(s.drop_first()[k - 1] != c);
                    }
                }
            },
        }
    }
}

/// The first occurrence characterizes `find_ch`: if nothing before `j`
/// matches and either `j` is the end or `s[j] == c`, then `find_ch` is
/// exactly that.
pub proof fn lemma_find_ch_at(s: Seq<char>, c: char, j: int)
    requires
        0 <= j <= s.len(),
        forall|k: int| 0 <= k < j ==> s[k] != c,
        j < s.len() ==> s[j] == c,
    ensures
        j < s.len() ==> find_ch(s, c) == Some(j),
        j == s.len() ==> find_ch(s, c) is None,
    decreases j,
{
    if j == 0 {
        if s.len() > 0 {
        } else {
        }
    } else {
        assert(s[0] != c);
        lemma_find_ch_at(s.drop_first(), c, j - 1);
        assert(forall|k: int| 0 <= k < j - 1 ==> s.drop_first()[k] == s[k + 1]);
    }
}

/// First index of `c` at or after `lo`, strictly before `hi`.
pub(crate) fn find_in_range(v: &Vec<char>, lo: usize, hi: usize, c: char) -> (r: Option<usize>)
    requires
        lo <= hi <= v@.len(),
    ensures
        match r {
            Some(j) => {
                &&& lo <= j < hi
                &&& v@[j as int] == c
                &&& forall|k: int| lo <= k < j ==> v@[k] != c
                &&& find_ch(v@.subrange(lo as int, hi as int), c) == Some(j - lo)
            },
            None => {
                &&& forall|k: int| lo <= k < hi ==> v@[k] != c
                &&& find_ch(v@.subrange(lo as int, hi as int), c) is None
            },
        },
{
    let ghost s = v@.subrange(lo as int, hi as int);
    let mut j = lo;
    while j < hi
        invariant
            lo <= j <= hi <= v@.len(),
            s == v@.subrange(lo as int, hi as int),
            forall|k: int| lo <= k < j ==> v@[k] != c,
        decreases hi - j,
    {
        if v[j] == c {
            proof {
                assert(s.len() == hi - lo);
                assert(forall|k: int| 0 <= k < s.len() ==> s[k] == v@[lo + k]);
                lemma_find_ch_at(s, c, j - lo);
            }
            return Some(j);
        }
        j = j + 1;
    }
    proof {
        assert(s.len() == hi - lo);
        assert(forall|k: int| 0 <= k < s.len() ==> s[k] == v@[lo + k]);
        lemma_find_ch_at(s, c, hi - lo);
    }
    None
}

/// The segments of `s` delimited by `c`: one more segment than there are
/// occurrences of `c`, in order, separators dropped.
pub open spec fn split_on(s: Seq<char>, c: char) -> Seq<Seq<char>>
    decreases s.len(),
{
    if s.len() == 0 {
        seq![Seq::<char>::empty()]
    } else if s[0] == c {
        seq![Seq::<char>::empty()] + split_on(s.drop_first(), c)
    } else {
        let rest = split_on(s.drop_first(), c);
        seq![seq![s[0]] + rest[0]] + rest.skip(1)
    }
}

pub proof fn lemma_split_on_len(s: Seq<char>, c: char)
    ensures
        split_on(s, c).len() >= 1,
    decreases s.len(),
{
    if s.len() > 0 {
        lemma_split_on_len(s.drop_first(), c);
    }
}

/// Peeling the first segment: if no `c` occurs before `j` and `j` is either
/// an occurrence or the end, `split_on` starts with `s[..j]`.
pub proof fn lemma_split_on_first_seg(s: Seq<char>, c: char, j: int)
    requires
        0 <= j <= s.len(),
        forall|k: int| 0 <= k < j ==> s[k] != c,
        j < s.len() ==> s[j] == c,
    ensures
        j < s.len() ==> split_on(s, c) =~= seq![s.take(j)] + split_on(s.skip(j + 1), c),
        j == s.len() ==> split_on(s, c) =~= seq![s],
    decreases j,
{
    lemma_split_on_len(s, c);
    if j == 0 {
        if 0 < s.len() {
            assert(s.drop_first() =~= s.skip(1));
            assert(s.take(0) =~= Seq::<char>::empty());
        } else {
            assert(s =~= Seq::<char>::empty());
        }
    } else {
        let s1 = s.drop_first();
        assert(forall|k: int| 0 <= k < j - 1 ==> s1[k] == s[k + 1]);
        lemma_split_on_first_seg(s1, c, j - 1);
        lemma_split_on_len(s1, c);
        if j < s.len() {
            assert(s1.skip(j) =~= s.skip(j + 1));
            assert(seq![s[0]] + s1.take(j - 1) =~= s.take(j));
            assert(split_on(s1, c)[0] == s1.take(j - 1));
            assert(split_on(s1, c).skip(1) =~= split_on(s.skip(j + 1), c));
        } else {
            assert(seq![s[0]] + s1 =~= s);
        }
    }
}

/// The delimiter-separated ranges of `v[lo..hi]`, mirroring `split_on`.
pub(crate) fn split_ranges(v: &Vec<char>, lo: usize, hi: usize, c: char) -> (r: Vec<(usize, usize)>)
    requires
        lo <= hi <= v@.len(),
    ensures
        r@.len() == split_on(v@.subrange(lo as int, hi as int), c).len(),
        forall|i: int|
            0 <= i < r@.len() ==> {
                &&& lo <= #[trigger] r@[i].0 <= r@[i].1 <= hi
                &&& v@.subrange(r@[i].0 as int, r@[i].1 as int) == split_on(
                    v@.subrange(lo as int, hi as int),
                    c,
                )[i]
            },
{
    let ghost whole = v@.subrange(lo as int, hi as int);
    let mut r: Vec<(usize, usize)> = Vec::new();
    let mut pos = lo;
    loop
        invariant
            lo <= pos <= hi <= v@.len(),
            whole == v@.subrange(lo as int, hi as int),
            split_on(whole, c) =~= r@.map_values(
                |p: (usize, usize)| v@.subrange(p.0 as int, p.1 as int),
            ) + split_on(v@.subrange(pos as int, hi as int), c),
            forall|i: int|
                0 <= i < r@.len() ==> lo <= #[trigger] r@[i].0 <= r@[i].1 <= hi,
        decreases hi - pos,
    {
        let ghost seg = v@.subrange(pos as int, hi as int);
        let ghost pre = r@.map_values(|p: (usize, usize)| v@.subrange(p.0 as int, p.1 as int));
        match find_in_range(v, pos, hi, c) {
            Some(j) => {
                proof {
                    lemma_split_on_first_seg(seg, c, j - pos);
                    assert(seg.take(j - pos) =~= v@.subrange(pos as int, j as int));
                    assert(seg.skip(j - pos + 1) =~= v@.subrange(j as int + 1, hi as int));
                }
                r.push((pos, j));
                proof {
                    assert(r@.map_values(
                        |p: (usize, usize)| v@.subrange(p.0 as int, p.1 as int),
                    ) =~= pre + seq![v@.subrange(pos as int, j as int)]);
                }
                pos = j + 1;
            },
            None => {
                proof {
                    lemma_split_on_first_seg(seg, c, hi - pos);
                }
                r.push((pos, hi));
                proof {
                    assert(r@.map_values(
                        |p: (usize, usize)| v@.subrange(p.0 as int, p.1 as int),
                    ) =~= pre + seq![v@.subrange(pos as int, hi as int)]);
                    assert(split_on(whole, c) =~= r@.map_values(
                        |p: (usize, usize)| v@.subrange(p.0 as int, p.1 as int),
                    ));
                    assert(forall|i: int|
                        0 <= i < r@.len() ==> r@.map_values(
                            |p: (usize, usize)| v@.subrange(p.0 as int, p.1 as int),
                        )[i] == v@.subrange(#[trigger] r@[i].0 as int, r@[i].1 as int));
                }
                return r;
            },
        }
    }
}

/// The lines of a document as `str::lines` reads them: split on newlines,
/// with no empty final line when the document ends with one.
pub open spec fn doc_lines(s: Seq<char>) -> Seq<Seq<char>> {
    if s.len() == 0 {
        Seq::empty()
    } else if s.last() == '\n' {
        split_on(s, '\n').drop_last()
    } else {
        split_on(s, '\n')
    }
}

/// `s` contains no newline.
pub open spec fn nl_free(s: Seq<char>) -> bool {
    forall|k: int| 0 <= k < s.len() ==> s[k] != '\n'
}

/// The lines joined back into a document, each line terminated by a
/// newline.
pub open spec fn join_nl(ls: Seq<Seq<char>>) -> Seq<char>
    decreases ls.len(),
{
    if ls.len() == 0 {
        Seq::empty()
    } else {
        ls[0] + seq!['\n'] + join_nl(ls.drop_first())
    }
}

/// Joining one more line appends it and a newline.
pub proof fn lemma_join_nl_snoc(ls: Seq<Seq<char>>, x: Seq<char>)
    ensures
        join_nl(ls.push(x)) =~= join_nl(ls) + x + seq!['\n'],
    decreases ls.len(),
{
    if ls.len() == 0 {
        assert(ls.push(x)[0] == x);
        assert(ls.push(x).drop_first() =~= Seq::<Seq<char>>::empty());
        assert(join_nl(ls.push(x)) == x + seq!['\n'] + join_nl(Seq::<Seq<char>>::empty()));
        assert(join_nl(Seq::<Seq<char>>::empty()) == Seq::<char>::empty());
        assert(join_nl(ls) == Seq::<char>::empty());
    } else {
        assert(ls.push(x)[0] == ls[0]);
        assert(ls.push(x).drop_first() =~= ls.drop_first().push(x));
        lemma_join_nl_snoc(ls.drop_first(), x);
        assert(join_nl(ls.push(x)) == ls[0] + seq!['\n'] + join_nl(ls.drop_first().push(x)));
        assert(join_nl(ls) == ls[0] + seq!['\n'] + join_nl(ls.drop_first()));
    }
}

/// Joining a concatenation of line lists joins each part.
pub proof fn lemma_join_nl_concat(a: Seq<Seq<char>>, b: Seq<Seq<char>>)
    ensures
        join_nl(a + b) =~= join_nl(a) + join_nl(b),
    decreases a.len(),
{
    if a.len() == 0 {
        assert(a + b =~= b);
        assert(join_nl(a) == Seq::<char>::empty());
        assert(join_nl(a) + join_nl(b) =~= join_nl(b));
    } else {
        assert((a + b)[0] == a[0]);
        assert((a + b).drop_first() =~= a.drop_first() + b);
        lemma_join_nl_concat(a.drop_first(), b);
        assert(join_nl(a + b) == (a + b)[0] + seq!['\n'] + join_nl((a + b).drop_first()));
        assert(join_nl(a) == a[0] + seq!['\n'] + join_nl(a.drop_first()));
    }
}

/// Newline-freedom distributes over concatenation.
pub proof fn lemma_nl_free_concat(a: Seq<char>, b: Seq<char>)
    requires
        nl_free(a),
        nl_free(b),
    ensures
        nl_free(a + b),
{
    assert forall|k: int| 0 <= k < (a + b).len() implies (a + b)[k] != '\n' by {
        if k < a.len() {
        } else {
            assert((a + b)[k] == b[k - a.len()]);
        }
    }
}

/// `p` is a prefix of `s`.
pub open spec fn has_prefix(s: Seq<char>, p: Seq<char>) -> bool {
    p.len() <= s.len() && s.take(p.len() as int) == p
}

/// Whether `v[lo..hi]` starts with the literal `p`.
pub(crate) fn range_has_prefix(v: &Vec<char>, lo: usize, hi: usize, p: &str) -> (r: bool)
    requires
        lo <= hi <= v@.len(),
    ensures
        r == has_prefix(v@.subrange(lo as int, hi as int), p@),
{
    let ghost s = v@.subrange(lo as int, hi as int);
    let n = p.unicode_len();
    if n > hi - lo {
        return false;
    }
    let mut i: usize = 0;
    while i < n
        invariant
            0 <= i <= n,
            n <= hi - lo,
            lo <= hi <= v@.len(),
            s == v@.subrange(lo as int, hi as int),
            n == p@.len(),
            forall|k: int| 0 <= k < i ==> s[k] == p@[k],
        decreases n - i,
    {
        if v[lo + i] != p.get_char(i) {
            proof {
                assert(s[i as int] != p@[i as int]);
                assert(s.take(p@.len() as int)[i as int] == s[i as int]);
            }
            return false;
        }
        i = i + 1;
    }
    proof {
        assert(s.take(p@.len() as int) =~= p@);
    }
    true
}

/// Whether `v[lo..hi]` equals the literal `p`.
pub(crate) fn range_eq_str(v: &Vec<char>, lo: usize, hi: usize, p: &str) -> (r: bool)
    requires
        lo <= hi <= v@.len(),
    ensures
        r == (v@.subrange(lo as int, hi as int) == p@),
{
    let ghost s = v@.subrange(lo as int, hi as int);
    let n = p.unicode_len();
    if n != hi - lo {
        return false;
    }
    if range_has_prefix(v, lo, hi, p) {
        proof {
            assert(s.take(p@.len() as int) =~= s);
        }
        true
    } else {
        proof {
            assert(s.take(p@.len() as int) =~= s);
        }
        false
    }
}

/// Whether the `String` `a` holds exactly the literal `p`.
pub(crate) fn string_eq_str(a: &String, p: &str) -> (r: bool)
    ensures
        r == (a@ == p@),
{
    let n = p.unicode_len();
    let m = a.as_str().unicode_len();
    if n != m {
        return false;
    }
    let mut i: usize = 0;
    while i < n
        invariant
            0 <= i <= n,
            n == p@.len() == a@.len(),
            forall|k: int| 0 <= k < i ==> a@[k] == p@[k],
        decreases n - i,
    {
        if a.as_str().get_char(i) != p.get_char(i) {
            return false;
        }
        i = i + 1;
    }
    proof {
        assert(a@ =~= p@);
    }
    true
}

/// At most one pair of surrounding double quotes removed.
pub open spec fn strip_pair(s: Seq<char>) -> Seq<char> {
    if s.len() >= 2 && s[0] == '"' && s.last() == '"' {
        s.subrange(1, s.len() - 1)
    } else {
        s
    }
}

/// Narrows `[lo, hi)` by one surrounding quote pair, if present.
pub(crate) fn strip_pair_range(v: &Vec<char>, lo: usize, hi: usize) -> (r: (usize, usize))
    requires
        lo <= hi <= v@.len(),
    ensures
        lo <= r.0 <= r.1 <= hi,
        v@.subrange(r.0 as int, r.1 as int) == strip_pair(v@.subrange(lo as int, hi as int)),
{
    let ghost s = v@.subrange(lo as int, hi as int);
    if hi - lo >= 2 && v[lo] == '"' && v[hi - 1] == '"' {
        proof {
            assert(s.subrange(1, s.len() - 1) =~= v@.subrange(lo as int + 1, hi as int - 1));
        }
        (lo + 1, hi - 1)
    } else {
        (lo, hi)
    }
}

/// All leading double quotes removed.
pub open spec fn strip_quotes_front(s: Seq<char>) -> Seq<char>
    decreases s.len(),
{
    if s.len() > 0 && s[0] == '"' {
        strip_quotes_front(s.drop_first())
    } else {
        s
    }
}

/// All trailing double quotes removed.
pub open spec fn strip_quotes_back(s: Seq<char>) -> Seq<char>
    decreases s.len(),
{
    if s.len() > 0 && s.last() == '"' {
        strip_quotes_back(s.drop_last())
    } else {
        s
    }
}

/// All surrounding double quotes removed, from both ends.
pub open spec fn strip_quotes(s: Seq<char>) -> Seq<char> {
    strip_quotes_back(strip_quotes_front(s))
}

/// Narrows `[lo, hi)` past every leading and trailing double quote.
pub(crate) fn strip_quotes_range(v: &Vec<char>, lo: usize, hi: usize) -> (r: (usize, usize))
    requires
        lo <= hi <= v@.len(),
    ensures
        lo <= r.0 <= r.1 <= hi,
        v@.subrange(r.0 as int, r.1 as int) == strip_quotes(v@.subrange(lo as int, hi as int)),
{
    let ghost orig = v@.subrange(lo as int, hi as int);
    let mut a = lo;
    while a < hi && v[a] == '"'
        invariant
            lo <= a <= hi <= v@.len(),
            strip_quotes_front(orig) == strip_quotes_front(v@.subrange(a as int, hi as int)),
        decreases hi - a,
    {
        proof {
            assert(v@.subrange(a as int, hi as int).drop_first() =~= v@.subrange(
                a as int + 1,
                hi as int,
            ));
        }
        a = a + 1;
    }
    proof {
        assert(strip_quotes_front(v@.subrange(a as int, hi as int)) == v@.subrange(
            a as int,
            hi as int,
        ));
    }
    let mut b = hi;
    while a < b && v[b - 1] == '"'
        invariant
            lo <= a <= b <= hi <= v@.len(),
            strip_quotes_front(orig) == v@.subrange(a as int, hi as int),
            strip_quotes_back(v@.subrange(a as int, hi as int)) == strip_quotes_back(
                v@.subrange(a as int, b as int),
            ),
        decreases b - a,
    {
        proof {
            assert(v@.subrange(a as int, b as int).drop_last() =~= v@.subrange(
                a as int,
                b as int - 1,
            ));
        }
        b = b - 1;
    }
    proof {
        assert(strip_quotes_back(v@.subrange(a as int, b as int)) == v@.subrange(
            a as int,
            b as int,
        ));
    }
    (a, b)
}

/// Relies on `String::push`: appends exactly the given character.
#[verifier::external_body]
pub(crate) fn push_char(s: &mut String, c: char)
    ensures
        final(s)@ == old(s)@.push(c),
{
    s.push(c);
}

/// A fresh `String` holding `v[lo..hi]`.
pub(crate) fn string_of_range(v: &Vec<char>, lo: usize, hi: usize) -> (s: String)
    requires
        lo <= hi <= v@.len(),
    ensures
        s@ == v@.subrange(lo as int, hi as int),
{
    let mut s = String::new();
    let mut i = lo;
    while i < hi
        invariant
            lo <= i <= hi <= v@.len(),
            s@ =~= v@.subrange(lo as int, i as int),
        decreases hi - i,
    {
        push_char(&mut s, v[i]);
        proof {
            assert(v@.subrange(lo as int, i as int).push(v@[i as int]) =~= v@.subrange(
                lo as int,
                i as int + 1,
            ));
        }
        i = i + 1;
    }
    proof {
        assert(s@ =~= v@.subrange(lo as int, hi as int));
    }
    s
}

/// The characters of `s`, as an indexable buffer.
pub(crate) fn str_chars(s: &str) -> (v: Vec<char>)
    ensures
        v@ == s@,
{
    let n = s.unicode_len();
    let mut v: Vec<char> = Vec::new();
    let mut i: usize = 0;
    while i < n
        invariant
            0 <= i <= n,
            n == s@.len(),
            v@ =~= s@.take(i as int),
        decreases n - i,
    {
        v.push(s.get_char(i));
        proof {
            assert(s@.take(i as int).push(s@[i as int]) =~= s@.take(i as int + 1));
        }
        i = i + 1;
    }
    proof {
        assert(v@ =~= s@);
    }
    v
}

} // verus!
