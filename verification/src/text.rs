//! Small verified helpers on text, shared by the parsers of this crate.
use vstd::prelude::*;

verus! {

/// The Unicode `White_Space` property, the set of characters that `str::trim` removes.
pub open spec fn is_space_spec(c: char) -> bool {
    let u = c as u32;
    ||| 0x09 <= u <= 0x0d
    ||| u == 0x20
    ||| u == 0x85
    ||| u == 0xa0
    ||| u == 0x1680
    ||| 0x2000 <= u <= 0x200a
    ||| u == 0x2028
    ||| u == 0x2029
    ||| u == 0x202f
    ||| u == 0x205f
    ||| u == 0x3000
}

/// Decides `is_space_spec`.
pub fn is_space(c: char) -> (r: bool)
    ensures
        r == is_space_spec(c),
{
    let u: u32 = c as u32;
    (0x09 <= u && u <= 0x0d) || u == 0x20 || u == 0x85 || u == 0xa0 || u == 0x1680 || (0x2000
        <= u && u <= 0x200a) || u == 0x2028 || u == 0x2029 || u == 0x202f || u == 0x205f || u
        == 0x3000
}

/// `s` begins with `prefix`.
pub open spec fn has_prefix(s: Seq<char>, prefix: Seq<char>) -> bool {
    prefix.len() <= s.len() && s.subrange(0, prefix.len() as int) == prefix
}

/// The length that remains of `s` once its trailing whitespace is dropped.
pub open spec fn kept_len(s: Seq<char>) -> nat
    decreases s.len(),
{
    if s.len() == 0 {
        0
    } else if is_space_spec(s.last()) {
        kept_len(s.drop_last())
    } else {
        s.len()
    }
}

/// The length that remains of `s` once its trailing newline characters are dropped.
pub open spec fn kept_len_newlines(s: Seq<char>) -> nat
    decreases s.len(),
{
    if s.len() == 0 {
        0
    } else if s.last() == '\n' {
        kept_len_newlines(s.drop_last())
    } else {
        s.len()
    }
}

/// `s` without its trailing whitespace, as `str::trim_end` gives it.
pub open spec fn trim_end_spec(s: Seq<char>) -> Seq<char> {
    s.subrange(0, kept_len(s) as int)
}

/// `s` without its trailing newline characters, as `str::trim_end_matches('\n')` gives it.
pub open spec fn trim_newlines_spec(s: Seq<char>) -> Seq<char> {
    s.subrange(0, kept_len_newlines(s) as int)
}

/// The index of the first space character in `s`, if any.
pub open spec fn first_space(s: Seq<char>) -> Option<int> {
    if exists|i: int| 0 <= i < s.len() && s[i] == ' ' {
        Some(choose|i: int| 0 <= i < s.len() && s[i] == ' ' && forall|j: int| 0 <= j < i ==> s[j] != ' ')
    } else {
        None
    }
}

/// The two pieces of `str::splitn(2, ' ')`: the text before the first space, and the text
/// after it when there is one.
pub open spec fn split_space_spec(s: Seq<char>) -> (Seq<char>, Option<Seq<char>>) {
    match first_space(s) {
        Some(i) => (s.subrange(0, i), Some(s.subrange(i + 1, s.len() as int))),
        None => (s, None),
    }
}

/// Copies `s` into a fresh `String`.
pub fn to_owned(s: &str) -> (r: String)
    ensures
        r@ == s@,
{
    String::from_str(s)
}

/// The characters of `s` from `from` up to `to`, as a new `String`.
pub fn slice(s: &str, from: usize, to: usize) -> (r: String)
    requires
        from <= to <= s@.len(),
    ensures
        r@ == s@.subrange(from as int, to as int),
{
    String::from_str(s.substring_char(from, to))
}

/// `a` followed by `b`.
pub fn join(a: &str, b: &str) -> (r: String)
    ensures
        r@ == a@ + b@,
{
    let s = String::from_str(a);
    s.concat(b)
}

/// Whether `s` begins with `prefix`.
pub fn starts_with(s: &str, prefix: &str) -> (r: bool)
    ensures
        r == has_prefix(s@, prefix@),
{
    let n = s.unicode_len();
    let m = prefix.unicode_len();
    if m > n {
        return false;
    }
    let head = slice(s, 0, m);
    let p = to_owned(prefix);
    head == p
}

/// The same text as `str::trim_end`.
pub fn trim_end(s: &str) -> (r: String)
    ensures
        r@ == trim_end_spec(s@),
{
    let mut k = s.unicode_len();
    assert(s@.subrange(0, k as int) =~= s@);
    while k > 0 && is_space(s.get_char(k - 1))
        invariant
            k <= s@.len(),
            kept_len(s@) == kept_len(s@.subrange(0, k as int)),
        decreases k,
    {
        proof {
            let t = s@.subrange(0, k as int);
            assert(t.drop_last() =~= s@.subrange(0, k - 1));
        }
        k = k - 1;
    }
    proof {
        let t = s@.subrange(0, k as int);
        if k > 0 {
            assert(t.last() == s@[k - 1]);
        }
    }
    slice(s, 0, k)
}

/// The same text as `str::trim_end_matches('\n')`.
pub fn trim_newlines(s: &str) -> (r: String)
    ensures
        r@ == trim_newlines_spec(s@),
{
    let mut k = s.unicode_len();
    assert(s@.subrange(0, k as int) =~= s@);
    while k > 0 && s.get_char(k - 1) == '\n'
        invariant
            k <= s@.len(),
            kept_len_newlines(s@) == kept_len_newlines(s@.subrange(0, k as int)),
        decreases k,
    {
        proof {
            let t = s@.subrange(0, k as int);
            assert(t.drop_last() =~= s@.subrange(0, k - 1));
        }
        k = k - 1;
    }
    proof {
        let t = s@.subrange(0, k as int);
        if k > 0 {
            assert(t.last() == s@[k - 1]);
        }
    }
    slice(s, 0, k)
}

/// `str::splitn(2, ' ')`: the text before the first space, and the text after it when
/// `s` holds a space.
pub fn split_first_space(s: &str) -> (r: (String, Option<String>))
    ensures
        r.0@ == split_space_spec(s@).0,
        match r.1 {
            Some(rest) => split_space_spec(s@).1 == Some(rest@),
            None => split_space_spec(s@).1 is None,
        },
{
    let n = s.unicode_len();
    let mut i: usize = 0;
    while i < n
        invariant
            n == s@.len(),
            i <= n,
            forall|j: int| 0 <= j < i ==> s@[j] != ' ',
        decreases n - i,
    {
        if s.get_char(i) == ' ' {
            proof {
                assert(exists|i: int| 0 <= i < s@.len() && s@[i] == ' ');
                let c = choose|k: int| 0 <= k < s@.len() && s@[k] == ' ' && forall|j: int| 0 <= j < k ==> s@[j] != ' ';
                assert(0 <= i < s@.len() && s@[i as int] == ' ' && forall|j: int| 0 <= j < i ==> s@[j] != ' ');
                if c < i {
                    assert(s@[c] != ' ');
                }
                if c > i {
                    assert(s@[i as int] != ' ');
                }
                assert(c == i);
            }
            return (slice(s, 0, i), Some(slice(s, i + 1, n)));
        }
        i = i + 1;
    }
    assert(s@.subrange(0, n as int) =~= s@);
    (slice(s, 0, n), None)
}

} // verus!
