//! Character-level helpers: Unicode whitespace trimming and line splitting.
use vstd::prelude::*;
use vstd::string::StrSliceExecFns;
use vstd::string::StringExecFns;

verus! {

/// The Unicode `White_Space` property, the notion of blank used by `str::trim`.
pub open spec fn is_white(c: char) -> bool {
    let u = c as u32;
    (0x9 <= u && u <= 0xd) || u == 0x20 || u == 0x85 || u == 0xa0 || u == 0x1680 || (0x2000 <= u
        && u <= 0x200a) || u == 0x2028 || u == 0x2029 || u == 0x202f || u == 0x205f || u == 0x3000
}

/// `s` without its leading blanks.
pub open spec fn trim_front(s: Seq<char>) -> Seq<char>
    decreases s.len(),
{
    if s.len() > 0 && is_white(s[0]) {
        trim_front(s.drop_first())
    } else {
        s
    }
}

/// `s` without its trailing blanks.
pub open spec fn trim_back(s: Seq<char>) -> Seq<char>
    decreases s.len(),
{
    if s.len() > 0 && is_white(s.last()) {
        trim_back(s.drop_last())
    } else {
        s
    }
}

/// `s` without leading and trailing blanks.
pub open spec fn trim(s: Seq<char>) -> Seq<char> {
    trim_back(trim_front(s))
}

pub fn is_white_char(c: char) -> (r: bool)
    ensures
        r == is_white(c),
{
    let u = c as u32;
    (0x9 <= u && u <= 0xd) || u == 0x20 || u == 0x85 || u == 0xa0 || u == 0x1680 || (0x2000 <= u
        && u <= 0x200a) || u == 0x2028 || u == 0x2029 || u == 0x202f || u == 0x205f || u == 0x3000
}

proof fn lemma_trim_front_skip(s: Seq<char>, i: int)
    requires
        0 <= i <= s.len(),
        forall|j: int| 0 <= j < i ==> is_white(#[trigger] s[j]),
    ensures
        trim_front(s) == trim_front(s.subrange(i, s.len() as int)),
    decreases i,
{
    if i == 0 {
        assert(s.subrange(0, s.len() as int) =~= s);
    } else {
        let t = s.drop_first();
        assert forall|j: int| 0 <= j < i - 1 implies is_white(#[trigger] t[j]) by {
            assert(t[j] == s[j + 1]);
        }
        lemma_trim_front_skip(t, i - 1);
        assert(t.subrange(i - 1, t.len() as int) =~= s.subrange(i, s.len() as int));
    }
}

proof fn lemma_trim_back_skip(s: Seq<char>, k: int)
    requires
        0 <= k <= s.len(),
        forall|j: int| k <= j < s.len() ==> is_white(#[trigger] s[j]),
    ensures
        trim_back(s) == trim_back(s.subrange(0, k)),
    decreases s.len() - k,
{
    if k == s.len() {
        assert(s.subrange(0, k) =~= s);
    } else {
        let t = s.drop_last();
        assert forall|j: int| k <= j < t.len() implies is_white(#[trigger] t[j]) by {
            assert(t[j] == s[j]);
        }
        lemma_trim_back_skip(t, k);
        assert(t.subrange(0, k) =~= s.subrange(0, k));
    }
}

/// Index of the first non-blank character of `s` at or after `from`, or the
/// length of `s` when there is none.
fn first_non_white(s: &str, from: usize, len: usize) -> (r: usize)
    requires
        len == s@.len(),
        from <= len,
    ensures
        from <= r <= len,
        forall|j: int| from <= j < r ==> is_white(#[trigger] s@[j]),
        r < len ==> !is_white(s@[r as int]),
{
    let mut i = from;
    while i < len
        invariant
            len == s@.len(),
            from <= i <= len,
            forall|j: int| from <= j < i ==> is_white(#[trigger] s@[j]),
        decreases len - i,
    {
        if !is_white_char(s.get_char(i)) {
            return i;
        }
        i = i + 1;
    }
    i
}

/// Returns `s` without leading and trailing Unicode whitespace.
pub fn trim_str(s: &str) -> (r: String)
    ensures
        r@ == trim(s@),
{
    let len = s.unicode_len();
    let lo = first_non_white(s, 0, len);
    let mut hi = len;
    while hi > lo
        invariant
            len == s@.len(),
            lo <= hi <= len,
            forall|j: int| hi <= j < len ==> is_white(#[trigger] s@[j]),
        ensures
            lo <= hi <= len,
            forall|j: int| hi <= j < len ==> is_white(#[trigger] s@[j]),
            hi > lo ==> !is_white(s@[hi - 1]),
        decreases hi,
    {
        if !is_white_char(s.get_char(hi - 1)) {
            break;
        }
        hi = hi - 1;
    }
    proof {
        let v = s@;
        lemma_trim_front_skip(v, lo as int);
        let u = v.subrange(lo as int, len as int);
        assert(trim_front(u) == u);
        lemma_trim_back_skip(u, hi - lo);
        let w = u.subrange(0, hi - lo);
        assert(w =~= v.subrange(lo as int, hi as int));
        if hi > lo {
            assert(w.last() == v[hi - 1]);
        }
        assert(trim_back(w) == w);
    }
    String::from_str(s.substring_char(lo, hi))
}

/// The content views of a sequence of strings.
pub open spec fn views(v: Seq<String>) -> Seq<Seq<char>> {
    v.map_values(|x: String| x@)
}

/// The trimmed line `cur`, as a one-element list, or nothing when it is blank.
pub open spec fn keep_line(cur: Seq<char>) -> Seq<Seq<char>> {
    if trim(cur).len() == 0 {
        seq![]
    } else {
        seq![trim(cur)]
    }
}

/// The trimmed non-blank lines of `s`, where `cur` is the part of the current
/// line already read.
pub open spec fn lines_from(s: Seq<char>, cur: Seq<char>) -> Seq<Seq<char>>
    decreases s.len(),
{
    if s.len() == 0 {
        keep_line(cur)
    } else if s[0] == '\n' {
        keep_line(cur) + lines_from(s.drop_first(), seq![])
    } else {
        lines_from(s.drop_first(), cur.push(s[0]))
    }
}

/// The trimmed non-blank lines of `s`, in order.
pub open spec fn non_blank_lines(s: Seq<char>) -> Seq<Seq<char>> {
    lines_from(s, seq![])
}

/// Splits `s` at line feeds and returns the trimmed lines that are not blank.
pub fn non_blank_lines_of(s: &str) -> (r: Vec<String>)
    ensures
        views(r@) == non_blank_lines(s@),
{
    let len = s.unicode_len();
    let mut out: Vec<String> = Vec::new();
    let mut start: usize = 0;
    let mut i: usize = 0;
    proof {
        assert(s@.subrange(0, len as int) =~= s@);
        assert(s@.subrange(0, 0) =~= Seq::<char>::empty());
        assert(views(out@) =~= Seq::<Seq<char>>::empty());
    }
    while i < len
        invariant
            len == s@.len(),
            start <= i <= len,
            views(out@) + lines_from(s@.subrange(i as int, len as int), s@.subrange(start as int, i as int))
                == non_blank_lines(s@),
        decreases len - i,
    {
        let ghost rest = s@.subrange(i as int, len as int);
        let ghost cur = s@.subrange(start as int, i as int);
        assert(rest[0] == s@[i as int]);
        assert(rest.drop_first() =~= s@.subrange(i + 1, len as int));
        let c = s.get_char(i);
        if c == '\n' {
            let line = trim_str(s.substring_char(start, i));
            let ghost before = out@;
            if !line.as_str().is_empty() {
                out.push(line);
                assert(views(out@) =~= views(before).push(line@));
            }
            proof {
                assert(views(out@) =~= views(before) + keep_line(cur));
                assert(s@.subrange(i + 1, i + 1) =~= Seq::<char>::empty());
                assert(views(before) + (keep_line(cur) + lines_from(rest.drop_first(), seq![]))
                    =~= (views(before) + keep_line(cur)) + lines_from(rest.drop_first(), seq![]));
            }
            start = i + 1;
        } else {
            assert(cur.push(c) =~= s@.subrange(start as int, i + 1));
        }
        i = i + 1;
    }
    proof {
        let cur = s@.subrange(start as int, len as int);
        assert(s@.subrange(len as int, len as int) =~= Seq::<char>::empty());
    }
    let line = trim_str(s.substring_char(start, len));
    let ghost before = out@;
    if !line.as_str().is_empty() {
        out.push(line);
        assert(views(out@) =~= views(before).push(line@));
    }
    assert(views(out@) =~= views(before) + keep_line(s@.subrange(start as int, len as int)));
    out
}

/// `leaf` placed inside the directory `dir`, as `Path::join` does: an
/// absolute `leaf` stands alone, and no separator is doubled.
pub open spec fn join_path(dir: Seq<char>, leaf: Seq<char>) -> Seq<char> {
    if leaf.len() > 0 && leaf[0] == '/' {
        leaf
    } else if dir.len() == 0 || dir.last() == '/' {
        dir + leaf
    } else {
        dir + seq!['/'] + leaf
    }
}

/// Joins `leaf` onto the directory `dir`.
pub fn join(dir: &str, leaf: &str) -> (r: String)
    ensures
        r@ == join_path(dir@, leaf@),
{
    let ln = leaf.unicode_len();
    if ln > 0 && leaf.get_char(0) == '/' {
        return String::from_str(leaf);
    }
    let dn = dir.unicode_len();
    let mut out = String::from_str(dir);
    if dn > 0 && dir.get_char(dn - 1) != '/' {
        proof {
            reveal_strlit("/");
            assert("/"@ =~= seq!['/']);
        }
        out.append("/");
    }
    out.append(leaf);
    out
}

/// The last component of the path `p`: what follows its last `/`.
pub open spec fn file_name(p: Seq<char>) -> Seq<char>
    decreases p.len(),
{
    if p.len() == 0 || p.last() == '/' {
        seq![]
    } else {
        file_name(p.drop_last()).push(p.last())
    }
}

proof fn lemma_file_name_from(p: Seq<char>, k: int)
    requires
        0 <= k <= p.len(),
        forall|j: int| k <= j < p.len() ==> #[trigger] p[j] != '/',
        k == 0 || p[k - 1] == '/',
    ensures
        file_name(p) == p.subrange(k, p.len() as int),
    decreases p.len() - k,
{
    if p.len() == k {
        if k > 0 {
            assert(p.last() == '/');
        }
    } else {
        let q = p.drop_last();
        assert forall|j: int| k <= j < q.len() implies #[trigger] q[j] != '/' by {
            assert(q[j] == p[j]);
        }
        lemma_file_name_from(q, k);
        assert(p.subrange(k, p.len() as int) =~= q.subrange(k, q.len() as int).push(p.last()));
    }
}

/// Returns the last component of the path `p`.
pub fn file_name_of(p: &str) -> (r: String)
    ensures
        r@ == file_name(p@),
{
    let n = p.unicode_len();
    let mut k = n;
    while k > 0
        invariant
            n == p@.len(),
            k <= n,
            forall|j: int| k <= j < n ==> #[trigger] p@[j] != '/',
        ensures
            k <= n,
            forall|j: int| k <= j < n ==> #[trigger] p@[j] != '/',
            k == 0 || p@[k - 1] == '/',
        decreases k,
    {
        if p.get_char(k - 1) == '/' {
            break;
        }
        k = k - 1;
    }
    proof {
        lemma_file_name_from(p@, k as int);
    }
    String::from_str(p.substring_char(k, n))
}

} // verus!
