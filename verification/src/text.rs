//! Verified text utilities: decimal rendering, whitespace trimming, path
//! component extraction, and path joining. All results are pinned to spec
//! functions over sequences of characters.

use vstd::prelude::*;
use vstd::std_specs::iter::IteratorSpec;
use vstd::string::StringExecFns;

verus! {

broadcast use vstd::string::next_postcondition, vstd::string::axiom_spec_iter;

/// A vector of strings matches a model: same length, same characters at
/// every index.
pub open spec fn lines_match(lines: Seq<String>, model: Seq<Seq<char>>) -> bool {
    &&& lines.len() == model.len()
    &&& forall|i: int| 0 <= i < lines.len() ==> (#[trigger] lines[i])@ == model[i]
}

pub proof fn lemma_lines_match_concat(
    l1: Seq<String>,
    m1: Seq<Seq<char>>,
    l2: Seq<String>,
    m2: Seq<Seq<char>>,
)
    requires
        lines_match(l1, m1),
        lines_match(l2, m2),
    ensures
        lines_match(l1 + l2, m1 + m2),
{
    assert forall|i: int| 0 <= i < (l1 + l2).len() implies (#[trigger] (l1 + l2)[i])@ == (m1
        + m2)[i] by {
        if i < l1.len() {
            assert((l1 + l2)[i] == l1[i]);
        } else {
            assert((l1 + l2)[i] == l2[i - l1.len()]);
        }
    }
}

/// The character for one decimal digit.
pub open spec fn digit_char(d: nat) -> char {
    if d == 0 {
        '0'
    } else if d == 1 {
        '1'
    } else if d == 2 {
        '2'
    } else if d == 3 {
        '3'
    } else if d == 4 {
        '4'
    } else if d == 5 {
        '5'
    } else if d == 6 {
        '6'
    } else if d == 7 {
        '7'
    } else if d == 8 {
        '8'
    } else {
        '9'
    }
}

/// The decimal rendering of a natural number, most significant digit first.
pub open spec fn dec_str(n: nat) -> Seq<char>
    decreases n,
{
    if n < 10 {
        seq![digit_char(n)]
    } else {
        dec_str(n / 10).push(digit_char(n % 10))
    }
}

/// Relies on `String::push` of std: appends exactly one character.
#[verifier::external_body]
pub fn push_char(s: &mut String, c: char)
    ensures
        final(s)@ == old(s)@ + seq![c],
{
    s.push(c);
}

/// The characters of a string slice, as an indexable vector.
pub fn to_char_vec(s: &str) -> (v: Vec<char>)
    ensures
        v@ == s@,
{
    let mut it = s.chars();
    let mut v: Vec<char> = Vec::new();
    loop
        invariant
            v@ + it.remaining() == s@,
            it.decrease() is Some,
        ensures
            v@ == s@,
        decreases it.decrease()->0,
    {
        match it.next() {
            Some(c) => {
                v.push(c);
            },
            None => {
                assert(v@ =~= s@);
                break ;
            },
        }
    }
    v
}

/// Appends the one digit `d` to `s`.
pub fn push_digit(s: &mut String, d: usize)
    requires
        d < 10,
    ensures
        final(s)@ == old(s)@ + seq![digit_char(d as nat)],
{
    if d == 0 {
        proof {
            reveal_strlit("0");
            assert("0"@ =~= seq![digit_char(0)]);
        }
        s.append("0");
    } else if d == 1 {
        proof {
            reveal_strlit("1");
            assert("1"@ =~= seq![digit_char(1)]);
        }
        s.append("1");
    } else if d == 2 {
        proof {
            reveal_strlit("2");
            assert("2"@ =~= seq![digit_char(2)]);
        }
        s.append("2");
    } else if d == 3 {
        proof {
            reveal_strlit("3");
            assert("3"@ =~= seq![digit_char(3)]);
        }
        s.append("3");
    } else if d == 4 {
        proof {
            reveal_strlit("4");
            assert("4"@ =~= seq![digit_char(4)]);
        }
        s.append("4");
    } else if d == 5 {
        proof {
            reveal_strlit("5");
            assert("5"@ =~= seq![digit_char(5)]);
        }
        s.append("5");
    } else if d == 6 {
        proof {
            reveal_strlit("6");
            assert("6"@ =~= seq![digit_char(6)]);
        }
        s.append("6");
    } else if d == 7 {
        proof {
            reveal_strlit("7");
            assert("7"@ =~= seq![digit_char(7)]);
        }
        s.append("7");
    } else if d == 8 {
        proof {
            reveal_strlit("8");
            assert("8"@ =~= seq![digit_char(8)]);
        }
        s.append("8");
    } else {
        proof {
            reveal_strlit("9");
            assert("9"@ =~= seq![digit_char(9)]);
        }
        s.append("9");
    }
}

/// Renders `n` in decimal.
pub fn usize_to_string(n: usize) -> (s: String)
    ensures
        s@ == dec_str(n as nat),
    decreases n,
{
    if n < 10 {
        let mut s = String::new();
        push_digit(&mut s, n);
        assert(s@ =~= dec_str(n as nat));
        s
    } else {
        let mut s = usize_to_string(n / 10);
        push_digit(&mut s, n % 10);
        assert(s@ =~= dec_str(n as nat));
        s
    }
}

/// The whitespace characters that trimming removes.
pub open spec fn is_space_char(c: char) -> bool {
    c == ' ' || c == '\t' || c == '\n' || c == '\r'
}

pub open spec fn trim_start_spec(s: Seq<char>) -> Seq<char>
    decreases s.len(),
{
    if s.len() > 0 && is_space_char(s[0]) {
        trim_start_spec(s.drop_first())
    } else {
        s
    }
}

pub open spec fn trim_end_spec(s: Seq<char>) -> Seq<char>
    decreases s.len(),
{
    if s.len() > 0 && is_space_char(s.last()) {
        trim_end_spec(s.drop_last())
    } else {
        s
    }
}

/// `s` without leading and trailing whitespace.
pub open spec fn trim_spec(s: Seq<char>) -> Seq<char> {
    trim_end_spec(trim_start_spec(s))
}

fn is_space(c: char) -> (b: bool)
    ensures
        b == is_space_char(c),
{
    c == ' ' || c == '\t' || c == '\n' || c == '\r'
}

/// The substring of `v` between `a` (inclusive) and `b` (exclusive).
pub fn sub_string(v: &Vec<char>, a: usize, b: usize) -> (r: String)
    requires
        a <= b && b <= v@.len(),
    ensures
        r@ == v@.subrange(a as int, b as int),
{
    let mut r = String::new();
    let mut i: usize = a;
    while i < b
        invariant
            a <= i <= b <= v@.len(),
            r@ == v@.subrange(a as int, i as int),
        decreases b - i,
    {
        push_char(&mut r, v[i]);
        proof {
            assert(v@.subrange(a as int, i as int) + seq![v@[i as int]] =~= v@.subrange(
                a as int,
                i + 1 as int,
            ));
        }
        i += 1;
    }
    r
}

/// `s` with leading and trailing whitespace removed.
pub fn trim_string(s: &str) -> (r: String)
    ensures
        r@ == trim_spec(s@),
{
    let v = to_char_vec(s);
    let ghost sv = s@;
    proof {
        assert(sv.skip(0) =~= sv);
    }
    let mut a: usize = 0;
    while a < v.len() && is_space(v[a])
        invariant
            v@ == sv,
            a <= sv.len(),
            trim_start_spec(sv) == trim_start_spec(sv.skip(a as int)),
        decreases sv.len() - a,
    {
        proof {
            assert(sv.skip(a as int).drop_first() =~= sv.skip(a + 1 as int));
        }
        a += 1;
    }
    proof {
        assert(trim_start_spec(sv.skip(a as int)) == sv.skip(a as int));
    }
    let mut b: usize = v.len();
    while b > a && is_space(v[b - 1])
        invariant
            v@ == sv,
            a <= b <= sv.len(),
            trim_end_spec(sv.skip(a as int)) == trim_end_spec(sv.subrange(a as int, b as int)),
        decreases b,
    {
        proof {
            assert(sv.subrange(a as int, b as int).drop_last() =~= sv.subrange(
                a as int,
                b - 1 as int,
            ));
        }
        b -= 1;
    }
    proof {
        if b == a {
            assert(trim_end_spec(sv.subrange(a as int, b as int)) =~= sv.subrange(
                a as int,
                b as int,
            ));
        }
    }
    sub_string(&v, a, b)
}

/// The index of the last occurrence of `c` in `s`, or -1 when absent.
pub open spec fn last_index_of(s: Seq<char>, c: char) -> int
    decreases s.len(),
{
    if s.len() == 0 {
        -1
    } else if s.last() == c {
        s.len() - 1
    } else {
        last_index_of(s.drop_last(), c)
    }
}

/// The index of the last occurrence of `c` in `v`, if any.
pub fn find_last(v: &Vec<char>, c: char) -> (r: Option<usize>)
    ensures
        match r {
            Some(i) => i < v@.len() && last_index_of(v@, c) == i as int,
            None => last_index_of(v@, c) == -1,
        },
{
    proof {
        assert(v@.take(v@.len() as int) =~= v@);
    }
    let mut i: usize = v.len();
    while i > 0
        invariant
            i <= v@.len(),
            last_index_of(v@, c) == last_index_of(v@.take(i as int), c),
        decreases i,
    {
        i -= 1;
        if v[i] == c {
            proof {
                assert(v@.take(i + 1 as int).last() == v@[i as int]);
            }
            return Some(i);
        }
        proof {
            assert(v@.take(i + 1 as int).last() == v@[i as int]);
            assert(v@.take(i + 1 as int).drop_last() =~= v@.take(i as int));
        }
    }
    None
}

/// A path separator.
pub open spec fn is_sep(c: char) -> bool {
    c == '/' || c == '\\'
}

/// The path without its trailing separators.
pub open spec fn strip_trailing_seps(s: Seq<char>) -> Seq<char>
    decreases s.len(),
{
    if s.len() > 0 && is_sep(s.last()) {
        strip_trailing_seps(s.drop_last())
    } else {
        s
    }
}

/// The text after the last separator of `s`.
pub open spec fn tail_after_sep(s: Seq<char>) -> Seq<char>
    decreases s.len(),
{
    if s.len() == 0 {
        s
    } else if is_sep(s.last()) {
        Seq::empty()
    } else {
        tail_after_sep(s.drop_last()).push(s.last())
    }
}

/// The file-name component of a path, as the OS path API yields it:
/// trailing separators are ignored, and the current-directory and
/// parent-directory names `.` and `..` name no file.
pub open spec fn file_name_spec(path: Seq<char>) -> Seq<char> {
    let name = tail_after_sep(strip_trailing_seps(path));
    if name == "."@ || name == ".."@ {
        Seq::<char>::empty()
    } else {
        name
    }
}

/// The start of the file-name text inside `v[..e]`: the index after the
/// last separator there.
fn name_start(v: &Vec<char>, e: usize) -> (a: usize)
    requires
        e <= v@.len(),
    ensures
        a <= e,
        tail_after_sep(v@.take(e as int)) == v@.subrange(a as int, e as int),
{
    proof {
        assert(v@.subrange(e as int, e as int) =~= Seq::<char>::empty());
        assert(tail_after_sep(v@.take(e as int)) + Seq::<char>::empty() =~= tail_after_sep(
            v@.take(e as int),
        ));
    }
    let mut i: usize = e;
    while i > 0
        invariant
            i <= e <= v@.len(),
            tail_after_sep(v@.take(e as int)) == tail_after_sep(v@.take(i as int)) + v@.subrange(
                i as int,
                e as int,
            ),
        decreases i,
    {
        i -= 1;
        proof {
            assert(v@.take(i + 1 as int).last() == v@[i as int]);
        }
        if v[i] == '/' || v[i] == '\\' {
            proof {
                assert(tail_after_sep(v@.take(i + 1 as int)) + v@.subrange(i + 1 as int, e as int)
                    =~= v@.subrange(i + 1 as int, e as int));
            }
            return i + 1;
        }
        proof {
            assert(v@.take(i + 1 as int).drop_last() =~= v@.take(i as int));
            assert(tail_after_sep(v@.take(i as int)).push(v@[i as int]) + v@.subrange(
                i + 1 as int,
                e as int,
            ) =~= tail_after_sep(v@.take(i as int)) + v@.subrange(i as int, e as int));
        }
    }
    proof {
        assert(tail_after_sep(v@.take(0)) + v@.subrange(0, e as int) =~= v@.subrange(
            0,
            e as int,
        ));
    }
    0
}

/// The file name of `path`: the part after the last `/` or `\`, with
/// trailing separators ignored; empty when the path names no file.
pub fn file_name_of(path: &str) -> (r: String)
    ensures
        r@ == file_name_spec(path@),
{
    let v = to_char_vec(path);
    let ghost pv = path@;
    proof {
        assert(pv.take(pv.len() as int) =~= pv);
    }
    let mut e: usize = v.len();
    while e > 0 && (v[e - 1] == '/' || v[e - 1] == '\\')
        invariant
            pv == path@,
            v@ == pv,
            e <= pv.len(),
            strip_trailing_seps(pv) == strip_trailing_seps(pv.take(e as int)),
        decreases e,
    {
        proof {
            assert(pv.take(e as int).last() == pv[e - 1 as int]);
            assert(pv.take(e as int).drop_last() =~= pv.take(e - 1 as int));
        }
        e -= 1;
    }
    proof {
        if e > 0 {
            assert(pv.take(e as int).last() == pv[e - 1 as int]);
        }
        assert(strip_trailing_seps(pv.take(e as int)) == pv.take(e as int));
    }
    let a = name_start(&v, e);
    if e - a == 1 && v[a] == '.' {
        proof {
            reveal_strlit(".");
            assert(pv.subrange(a as int, e as int) =~= "."@);
        }
        String::new()
    } else if e - a == 2 && v[a] == '.' && v[a + 1] == '.' {
        proof {
            reveal_strlit("..");
            assert(pv.subrange(a as int, e as int) =~= ".."@);
        }
        String::new()
    } else {
        proof {
            reveal_strlit(".");
            reveal_strlit("..");
            let name = pv.subrange(a as int, e as int);
            if name == "."@ {
                assert(name.len() == 1);
                assert(name[0] == '.');
                assert(pv[a as int] == '.');
                assert(false);
            }
            if name == ".."@ {
                assert(name.len() == 2);
                assert(name[0] == '.');
                assert(name[1] == '.');
                assert(pv[a as int] == '.');
                assert(pv[a + 1 as int] == '.');
                assert(false);
            }
        }
        sub_string(&v, a, e)
    }
}

/// The stem of a file name: the part before the last dot, unless the dot
/// leads the name or is absent.
pub open spec fn stem_spec(name: Seq<char>) -> Seq<char> {
    let d = last_index_of(name, '.');
    if d >= 1 {
        name.subrange(0, d)
    } else {
        name
    }
}

/// The stem of the file name `name`.
pub fn stem_of(name: &str) -> (r: String)
    ensures
        r@ == stem_spec(name@),
{
    let v = to_char_vec(name);
    match find_last(&v, '.') {
        Some(i) => {
            if i >= 1 {
                sub_string(&v, 0, i)
            } else {
                proof {
                    assert(name@.subrange(0, name@.len() as int) =~= name@);
                }
                sub_string(&v, 0, v.len())
            }
        },
        None => {
            proof {
                assert(name@.subrange(0, name@.len() as int) =~= name@);
            }
            sub_string(&v, 0, v.len())
        },
    }
}

/// `dir` and `name` joined with a separator, unless `dir` is empty or
/// already ends in one.
pub open spec fn join_path_spec(dir: Seq<char>, name: Seq<char>) -> Seq<char> {
    if dir.len() == 0 {
        name
    } else if is_sep(dir.last()) {
        dir + name
    } else {
        dir + seq!['/'] + name
    }
}

/// Joins a directory and a file name into one path.
pub fn join_path(dir: &str, name: &str) -> (r: String)
    ensures
        r@ == join_path_spec(dir@, name@),
{
    let v = to_char_vec(dir);
    let mut r = dir.to_owned();
    if v.len() > 0 {
        let c = v[v.len() - 1];
        if !(c == '/' || c == '\\') {
            push_char(&mut r, '/');
        }
    }
    r.append(name);
    r
}

/// The concatenation of two string slices.
pub fn concat2(a: &str, b: &str) -> (r: String)
    ensures
        r@ == a@ + b@,
{
    let mut r = a.to_owned();
    r.append(b);
    r
}

} // verus!
