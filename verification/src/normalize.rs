//! Line normalization of program output: the text is cut at line feeds, every
//! line loses its trailing whitespace, and the lines are joined again by single
//! line feeds. A final line feed does not open another line.

use vstd::prelude::*;
use vstd::std_specs::iter::IteratorSpec;

verus! {

/// Whether `c` is whitespace: the code points of Unicode's `White_Space`.
pub open spec fn is_space(c: char) -> bool {
    let u = c as u32;
    ||| 0x09 <= u <= 0x0d
    ||| u == 0x20
    ||| u == 0x85
    ||| u == 0xa0
    ||| u == 0x1680
    ||| 0x2000 <= u <= 0x200a
    ||| u == 0x2028
    ||| u == 0x2029
    ||| u == 0x202f
    ||| u == 0x205f
    ||| u == 0x3000
}

/// `line` without the whitespace at its end.
pub open spec fn trim_end(line: Seq<char>) -> Seq<char>
    decreases line.len(),
{
    if line.len() > 0 && is_space(line.last()) {
        trim_end(line.drop_last())
    } else {
        line
    }
}

/// The position of the first line feed in `s`, or `s.len()` if it has none.
pub open spec fn line_end(s: Seq<char>) -> int
    decreases s.len(),
{
    if s.len() == 0 || s[0] == '\n' {
        0
    } else {
        1 + line_end(s.drop_first())
    }
}

/// The lines of `s`. Each line feed ends a line; text after the last line feed
/// is a line of its own, and nothing after it is not.
pub open spec fn split_lines(s: Seq<char>) -> Seq<Seq<char>>
    decreases s.len(),
{
    if s.len() == 0 {
        Seq::empty()
    } else {
        let k = line_end(s);
        if k < 0 || k >= s.len() {
            seq![s]
        } else {
            seq![s.subrange(0, k)] + split_lines(s.subrange(k + 1, s.len() as int))
        }
    }
}

/// The lines with one line feed between each two of them.
pub open spec fn join_lines(lines: Seq<Seq<char>>) -> Seq<char>
    decreases lines.len(),
{
    if lines.len() == 0 {
        Seq::empty()
    } else if lines.len() == 1 {
        lines[0]
    } else {
        join_lines(lines.drop_last()) + seq!['\n'] + lines.last()
    }
}

/// The normal form under which two outputs are compared.
pub open spec fn normalize(s: Seq<char>) -> Seq<char> {
    join_lines(split_lines(s).map_values(|line: Seq<char>| trim_end(line)))
}

/// The views of a vector of lines.
pub open spec fn line_views(v: Seq<Vec<char>>) -> Seq<Seq<char>> {
    v.map_values(|line: Vec<char>| line@)
}

/// Whether `c` is whitespace.
pub fn is_whitespace(c: char) -> (r: bool)
    ensures
        r == is_space(c),
{
    let u: u32 = c as u32;
    (0x09 <= u && u <= 0x0d) || u == 0x20 || u == 0x85 || u == 0xa0 || u == 0x1680 || (0x2000 <= u
        && u <= 0x200a) || u == 0x2028 || u == 0x2029 || u == 0x202f || u == 0x205f || u == 0x3000
}

/// `line_end` is the one position before which no line feed stands and at
/// which one stands, if it lies inside `s`.
pub proof fn lemma_line_end(s: Seq<char>)
    ensures
        0 <= line_end(s) <= s.len(),
        forall|i: int| 0 <= i < line_end(s) ==> s[i] != '\n',
        line_end(s) < s.len() ==> s[line_end(s)] == '\n',
    decreases s.len(),
{
    if s.len() == 0 || s[0] == '\n' {
    } else {
        let t = s.drop_first();
        lemma_line_end(t);
        assert forall|i: int| 0 <= i < line_end(s) implies s[i] != '\n' by {
            if i > 0 {
                assert(s[i] == t[i - 1]);
            }
        }
    }
}

/// Any position with the properties of `line_end` is `line_end`.
pub proof fn lemma_line_end_unique(s: Seq<char>, k: int)
    requires
        0 <= k <= s.len(),
        forall|i: int| 0 <= i < k ==> s[i] != '\n',
        k < s.len() ==> s[k] == '\n',
    ensures
        line_end(s) == k,
{
    lemma_line_end(s);
    let e = line_end(s);
    if e < k {
        assert(s[e] == '\n');
    } else if k < e {
        assert(s[k] == '\n');
    }
}

/// The characters of `s`, read in one pass.
pub fn chars_of(s: &str) -> (v: Vec<char>)
    ensures
        v@ == s@,
{
    broadcast use vstd::string::group_string_axioms;

    let mut it = s.chars();
    let mut v: Vec<char> = Vec::new();
    loop
        invariant
            v@ + it.remaining() == s@,
            it.decrease() is Some,
        decreases it.decrease()->0,
    {
        let ghost before = it.remaining();
        match it.next() {
            Some(c) => {
                proof {
                    assert(v@.push(c) + before.drop_first() =~= v@ + before);
                }
                v.push(c);
            },
            None => {
                proof {
                    assert(v@ + before =~= v@);
                }
                return v;
            },
        }
    }
}

/// Cuts `s` into its lines.
pub fn split(s: &Vec<char>) -> (lines: Vec<Vec<char>>)
    ensures
        line_views(lines@) == split_lines(s@),
{
    let mut lines: Vec<Vec<char>> = Vec::new();
    let mut cur: Vec<char> = Vec::new();
    let mut i: usize = 0;
    proof {
        assert(cur@ + s@.skip(0) =~= s@);
        assert(line_views(lines@) =~= Seq::<Seq<char>>::empty());
        assert(Seq::<Seq<char>>::empty() + split_lines(s@) =~= split_lines(s@));
    }
    while i < s.len()
        invariant
            i <= s.len(),
            forall|j: int| 0 <= j < cur@.len() ==> cur@[j] != '\n',
            split_lines(s@) == line_views(lines@) + split_lines(cur@ + s@.skip(i as int)),
        decreases s.len() - i,
    {
        let c = s[i];
        let ghost rest = s@.skip(i as int);
        let ghost whole = cur@ + rest;
        if c == '\n' {
            proof {
                lemma_line_end_unique(whole, cur@.len() as int);
                assert(whole.subrange(0, cur@.len() as int) =~= cur@);
                assert(whole.subrange(cur@.len() as int + 1, whole.len() as int) =~= s@.skip(i + 1));
                assert(split_lines(whole) == seq![cur@] + split_lines(s@.skip(i + 1)));
                assert(line_views(lines@.push(cur)) =~= line_views(lines@) + seq![cur@]);
                assert(Seq::<char>::empty() + s@.skip(i + 1) =~= s@.skip(i + 1));
            }
            lines.push(cur);
            cur = Vec::new();
        } else {
            proof {
                assert(cur@.push(c) + s@.skip(i + 1) =~= whole);
            }
            cur.push(c);
        }
        i += 1;
    }
    proof {
        assert(cur@ + s@.skip(i as int) =~= cur@);
        if cur@.len() > 0 {
            lemma_line_end_unique(cur@, cur@.len() as int);
            assert(line_views(lines@.push(cur)) =~= line_views(lines@) + seq![cur@]);
        } else {
            assert(line_views(lines@) + Seq::<Seq<char>>::empty() =~= line_views(lines@));
        }
    }
    if cur.len() > 0 {
        lines.push(cur);
    }
    lines
}

/// The length of `line` without its trailing whitespace.
pub fn trimmed_len(line: &Vec<char>) -> (n: usize)
    ensures
        n <= line.len(),
        line@.subrange(0, n as int) == trim_end(line@),
{
    let mut n: usize = line.len();
    proof {
        assert(line@.subrange(0, n as int) =~= line@);
    }
    while n > 0 && is_whitespace(line[n - 1])
        invariant
            n <= line.len(),
            trim_end(line@) == trim_end(line@.subrange(0, n as int)),
        decreases n,
    {
        proof {
            let t = line@.subrange(0, n as int);
            assert(t.last() == line@[n - 1]);
            assert(t.drop_last() =~= line@.subrange(0, n - 1));
        }
        n -= 1;
    }
    proof {
        let t = line@.subrange(0, n as int);
        if n > 0 {
            assert(t.last() == line@[n - 1]);
        }
    }
    n
}

/// Joins the lines, each cut at its trimmed length, by single line feeds.
pub fn normalize_chars(s: &Vec<char>) -> (out: Vec<char>)
    ensures
        out@ == normalize(s@),
{
    let lines = split(s);
    let ghost trimmed = split_lines(s@).map_values(|line: Seq<char>| trim_end(line));
    let mut out: Vec<char> = Vec::new();
    let mut i: usize = 0;
    proof {
        assert(trimmed.take(0) =~= Seq::<Seq<char>>::empty());
    }
    while i < lines.len()
        invariant
            i <= lines.len(),
            line_views(lines@) == split_lines(s@),
            trimmed == split_lines(s@).map_values(|line: Seq<char>| trim_end(line)),
            out@ == join_lines(trimmed.take(i as int)),
        decreases lines.len() - i,
    {
        let line = &lines[i];
        let n = trimmed_len(line);
        let ghost before = out@;
        if i > 0 {
            out.push('\n');
        }
        let mut j: usize = 0;
        let ghost base = out@;
        while j < n
            invariant
                j <= n <= line.len(),
                out@ == base + line@.subrange(0, j as int),
            decreases n - j,
        {
            out.push(line[j]);
            proof {
                assert(line@.subrange(0, j + 1) =~= line@.subrange(0, j as int).push(line@[j as int]));
            }
            j += 1;
        }
        proof {
            let done = trimmed.take(i + 1);
            assert(line_views(lines@)[i as int] == line@);
            assert(trimmed[i as int] == trim_end(line@));
            assert(done.last() == trim_end(line@));
            assert(done.drop_last() =~= trimmed.take(i as int));
            if i == 0 {
                assert(base + trim_end(line@) =~= trim_end(line@));
            } else if i == 1 {
                assert(done.len() == 2);
            }
        }
        i += 1;
    }
    proof {
        assert(lines@.len() == line_views(lines@).len());
        assert(trimmed.take(i as int) =~= trimmed);
    }
    out
}

/// Whether two outputs are the same after normalization.
pub fn outputs_match(actual: &str, expected: &str) -> (r: bool)
    ensures
        r == (normalize(actual@) == normalize(expected@)),
{
    let a = normalize_chars(&chars_of(actual));
    let b = normalize_chars(&chars_of(expected));
    if a.len() != b.len() {
        return false;
    }
    let mut i: usize = 0;
    while i < a.len()
        invariant
            i <= a.len(),
            a.len() == b.len(),
            a@ == normalize(actual@),
            b@ == normalize(expected@),
            forall|j: int| 0 <= j < i ==> a@[j] == b@[j],
        decreases a.len() - i,
    {
        if a[i] != b[i] {
            assert(a@[i as int] != b@[i as int]);
            return false;
        }
        i += 1;
    }
    assert(a@ =~= b@);
    true
}

} // verus!
