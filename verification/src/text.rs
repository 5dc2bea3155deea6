//! Character-level helpers: trimming, joining paths and naming tool versions.

use vstd::prelude::*;

verus! {

/// Appends `c` to `s`.
///
/// Trusted: calls `String::push`, which the standard library documents as
/// appending the given character to the end of the string.
#[verifier::external_body]
pub(crate) fn push_char(s: &mut String, c: char)
    ensures
        final(s)@ == old(s)@.push(c),
{
    s.push(c)
}

/// A copy of `s`.
pub fn copy_string(s: &String) -> (r: String)
    ensures
        r@ == s@,
{
    s.clone()
}

/// A copy of `s` as an owned string.
pub fn owned(s: &str) -> (r: String)
    ensures
        r@ == s@,
{
    s.to_owned()
}

/// The views of a list of strings, in order.
pub open spec fn strings_view(v: Seq<String>) -> Seq<Seq<char>> {
    v.map_values(|s: String| s@)
}

/// The characters of `s`, in order.
pub fn chars_of(s: &str) -> (v: Vec<char>)
    ensures
        v@ == s@,
{
    let mut v: Vec<char> = Vec::new();
    for c in it: s.chars()
        invariant
            v@ == it.seq().take(it.index() as int),
    {
        v.push(c);
    }
    v
}

} // verus!

verus! {

/// The string whose characters are `v`, in order.
pub fn string_from_chars(v: &Vec<char>) -> (s: String)
    ensures
        s@ == v@,
{
    let mut s = String::new();
    let mut i: usize = 0;
    while i < v.len()
        invariant
            i <= v.len(),
            s@ == v@.take(i as int),
        decreases v.len() - i,
    {
        push_char(&mut s, v[i]);
        assert(v@.take(i + 1) == v@.take(i as int).push(v@[i as int]));
        i = i + 1;
    }
    assert(v@.take(v.len() as int) == v@);
    s
}

/// Unicode `White_Space`: the characters that `str::trim` removes.
pub open spec fn white_space(c: char) -> bool {
    let n = c as u32;
    ||| 0x09 <= n <= 0x0D
    ||| n == 0x20
    ||| n == 0x85
    ||| n == 0xA0
    ||| n == 0x1680
    ||| 0x2000 <= n <= 0x200A
    ||| n == 0x2028
    ||| n == 0x2029
    ||| n == 0x202F
    ||| n == 0x205F
    ||| n == 0x3000
}

/// Whether `c` is Unicode white space.
pub fn is_white_space(c: char) -> (b: bool)
    ensures
        b == white_space(c),
{
    let n = c as u32;
    (0x09 <= n && n <= 0x0D) || n == 0x20 || n == 0x85 || n == 0xA0 || n == 0x1680
        || (0x2000 <= n && n <= 0x200A) || n == 0x2028 || n == 0x2029 || n == 0x202F
        || n == 0x205F || n == 0x3000
}

/// `s[a..b]` is what remains of `s` once the white space at both ends is cut.
pub open spec fn trim_bounds(s: Seq<char>, a: int, b: int) -> bool {
    &&& 0 <= a <= b <= s.len()
    &&& forall|k: int| 0 <= k < a ==> white_space(#[trigger] s[k])
    &&& forall|k: int| b <= k < s.len() ==> white_space(#[trigger] s[k])
    &&& a < b ==> !white_space(s[a]) && !white_space(s[b - 1])
}

/// `s` without its leading and trailing white space.
pub open spec fn trimmed(s: Seq<char>) -> Seq<char> {
    let (a, b) = choose|a: int, b: int| trim_bounds(s, a, b);
    s.subrange(a, b)
}

/// Any two ways of cutting the white space off both ends leave the same text.
pub proof fn lemma_trim_bounds_unique(s: Seq<char>, a1: int, b1: int, a2: int, b2: int)
    requires
        trim_bounds(s, a1, b1),
        trim_bounds(s, a2, b2),
    ensures
        s.subrange(a1, b1) == s.subrange(a2, b2),
{
    if a1 < b1 && a2 < b2 {
        if a1 < a2 {
            assert(white_space(s[a1]));
        }
        if a2 < a1 {
            assert(white_space(s[a2]));
        }
        if b1 < b2 {
            assert(white_space(s[b2 - 1]));
        }
        if b2 < b1 {
            assert(white_space(s[b1 - 1]));
        }
    } else if a1 < b1 {
        // s[a2..b2] is empty, so every character is white space
        if a2 <= a1 {
            assert(white_space(s[a1]));
        } else {
            assert(a2 >= b2);
            assert(white_space(s[a1]));
        }
    } else if a2 < b2 {
        if a1 <= a2 {
            assert(white_space(s[a2]));
        } else {
            assert(white_space(s[a2]));
        }
    }
    assert(s.subrange(a1, b1) =~= s.subrange(a2, b2));
}

/// The characters of `v` without leading and trailing white space, as
/// `str::trim` leaves them.
pub fn trim_chars(v: &Vec<char>) -> (r: Vec<char>)
    ensures
        r@ == trimmed(v@),
{
    let n = v.len();
    let mut a: usize = 0;
    while a < n && is_white_space(v[a])
        invariant
            a <= n,
            n == v.len(),
            forall|k: int| 0 <= k < a ==> white_space(#[trigger] v@[k]),
        decreases n - a,
    {
        a = a + 1;
    }
    let mut b: usize = n;
    while b > a && is_white_space(v[b - 1])
        invariant
            a <= b <= n,
            n == v.len(),
            forall|k: int| b <= k < n ==> white_space(#[trigger] v@[k]),
        decreases b - a,
    {
        b = b - 1;
    }
    let mut r: Vec<char> = Vec::new();
    let mut i: usize = a;
    while i < b
        invariant
            a <= i <= b <= n,
            n == v.len(),
            r@ == v@.subrange(a as int, i as int),
        decreases b - i,
    {
        r.push(v[i]);
        i = i + 1;
    }
    proof {
        assert(trim_bounds(v@, a as int, b as int));
        let (a2, b2) = choose|a2: int, b2: int| trim_bounds(v@, a2, b2);
        lemma_trim_bounds_unique(v@, a as int, b as int, a2, b2);
    }
    r
}

/// The path `name` relative to `base`, as `Path::join` builds it on Unix:
/// an absolute `name` replaces `base`; otherwise a separator is put between
/// them unless `base` is empty or already ends with one.
pub open spec fn path_join(base: Seq<char>, name: Seq<char>) -> Seq<char> {
    if name.len() > 0 && name[0] == '/' {
        name
    } else if base.len() == 0 {
        name
    } else if base.last() == '/' {
        base + name
    } else {
        base + seq!['/'] + name
    }
}

/// Joins `name` onto the directory `base`.
pub fn join_path(base: &str, name: &str) -> (r: String)
    ensures
        r@ == path_join(base@, name@),
{
    let b = chars_of(base);
    let n = chars_of(name);
    if n.len() > 0 && n[0] == '/' {
        return string_from_chars(&n);
    }
    let mut out: Vec<char> = Vec::new();
    let mut i: usize = 0;
    while i < b.len()
        invariant
            i <= b.len(),
            out@ == b@.take(i as int),
        decreases b.len() - i,
    {
        out.push(b[i]);
        i = i + 1;
    }
    if b.len() > 0 && b[b.len() - 1] != '/' {
        out.push('/');
    }
    let ghost mid = out@;
    let mut j: usize = 0;
    while j < n.len()
        invariant
            j <= n.len(),
            out@ == mid + n@.take(j as int),
        decreases n.len() - j,
    {
        out.push(n[j]);
        assert(n@.take(j + 1) == n@.take(j as int).push(n@[j as int]));
        j = j + 1;
    }
    assert(b@.take(b.len() as int) == b@);
    assert(n@.take(n.len() as int) == n@);
    assert(out@ =~= path_join(base@, name@));
    string_from_chars(&out)
}

/// How a tool and its version are named to the user: `name@version`.
pub open spec fn tool_version_text(name: Seq<char>, version: Seq<char>) -> Seq<char> {
    name + seq!['@'] + version
}

/// Names a tool at a version, as in `cowsay@1.4.0`.
pub fn tool_version(name: &str, version: &str) -> (r: String)
    ensures
        r@ == tool_version_text(name@, version@),
{
    let mut out = chars_of(name);
    out.push('@');
    let v = chars_of(version);
    let ghost mid = out@;
    let mut j: usize = 0;
    while j < v.len()
        invariant
            j <= v.len(),
            out@ == mid + v@.take(j as int),
        decreases v.len() - j,
    {
        out.push(v[j]);
        assert(v@.take(j + 1) == v@.take(j as int).push(v@[j as int]));
        j = j + 1;
    }
    assert(v@.take(v.len() as int) == v@);
    assert(out@ =~= tool_version_text(name@, version@));
    string_from_chars(&out)
}

} // verus!

verus! {

/// Whether `p[..i]` ends in a separator, or in a `.` component that is not
/// the first one, which a path's parent drops.
pub open spec fn ends_in_droppable(p: Seq<char>, i: int) -> bool {
    &&& 0 < i <= p.len()
    &&& p[i - 1] == '/' || (i >= 2 && p[i - 1] == '.' && p[i - 2] == '/')
}

/// The end of `p[..i]` once the separators and the inner `.` components that
/// end it are dropped.
pub open spec fn end_before_slashes(p: Seq<char>, i: int) -> int
    decreases i,
{
    if ends_in_droppable(p, i) {
        end_before_slashes(p, i - 1)
    } else {
        i
    }
}

/// Where the last name of `p[..i]` starts, `p[..i]` not ending in a separator.
pub open spec fn start_of_name(p: Seq<char>, i: int) -> int
    decreases i,
{
    if 0 < i <= p.len() && p[i - 1] != '/' {
        start_of_name(p, i - 1)
    } else {
        i
    }
}

/// The parent of the path `p`, as `Path::parent` gives it on Unix: `p`
/// without its last name and the separators and inner `.` components
/// around it; the root for a name just under the root; the empty path for a
/// single relative name; none for the root or the empty path.
pub open spec fn path_parent(p: Seq<char>) -> Option<Seq<char>> {
    let e = end_before_slashes(p, p.len() as int);
    if e == 0 {
        None
    } else {
        let s = start_of_name(p, e);
        if s == 0 {
            Some(Seq::empty())
        } else {
            let t = end_before_slashes(p, s);
            if t == 0 {
                Some(p.take(1))
            } else {
                Some(p.take(t))
            }
        }
    }
}

/// The parent directory of the path `p`.
pub fn parent_path(p: &str) -> (r: Option<String>)
    ensures
        opt_chars(r) == path_parent(p@),
{
    let v = chars_of(p);
    let n = v.len();
    let mut e: usize = n;
    while e > 0 && (v[e - 1] == '/' || (e >= 2 && v[e - 1] == '.' && v[e - 2] == '/'))
        invariant
            e <= n,
            n == v.len(),
            end_before_slashes(v@, e as int) == end_before_slashes(v@, n as int),
        decreases e,
    {
        e = e - 1;
    }
    if e == 0 {
        return None;
    }
    let mut s: usize = e;
    while s > 0 && v[s - 1] != '/'
        invariant
            s <= e <= n,
            n == v.len(),
            start_of_name(v@, s as int) == start_of_name(v@, e as int),
        decreases s,
    {
        s = s - 1;
    }
    if s == 0 {
        return Some(String::new());
    }
    let mut t: usize = s;
    while t > 0 && (v[t - 1] == '/' || (t >= 2 && v[t - 1] == '.' && v[t - 2] == '/'))
        invariant
            t <= s <= n,
            n == v.len(),
            end_before_slashes(v@, t as int) == end_before_slashes(v@, s as int),
        decreases t,
    {
        t = t - 1;
    }
    let keep: usize = if t == 0 {
        1
    } else {
        t
    };
    let mut out: Vec<char> = Vec::new();
    let mut k: usize = 0;
    while k < keep
        invariant
            k <= keep <= n,
            n == v.len(),
            out@ == v@.take(k as int),
        decreases keep - k,
    {
        out.push(v[k]);
        assert(v@.take(k + 1) =~= v@.take(k as int).push(v@[k as int]));
        k = k + 1;
    }
    Some(string_from_chars(&out))
}

/// The text of an optional string.
pub open spec fn opt_chars(s: Option<String>) -> Option<Seq<char>> {
    match s {
        Some(t) => Some(t@),
        None => None,
    }
}

} // verus!

verus! {

/// `a` followed by `b`.
pub fn concat_text(a: &str, b: &str) -> (r: String)
    ensures
        r@ == a@ + b@,
{
    let mut out = chars_of(a);
    let v = chars_of(b);
    let ghost mid = out@;
    let mut j: usize = 0;
    while j < v.len()
        invariant
            j <= v.len(),
            out@ == mid + v@.take(j as int),
        decreases v.len() - j,
    {
        out.push(v[j]);
        assert(v@.take(j + 1) == v@.take(j as int).push(v@[j as int]));
        j = j + 1;
    }
    assert(v@.take(v.len() as int) == v@);
    string_from_chars(&out)
}

/// The decimal digit for `d < 10`.
pub open spec fn decimal_digit(d: int) -> char {
    (48 + d) as char
}

/// `n` written in decimal, as `u64`'s `Display` writes it.
pub open spec fn decimal_text(n: nat) -> Seq<char>
    decreases n,
{
    if n < 10 {
        seq![decimal_digit(n as int)]
    } else {
        decimal_text(n / 10).push(decimal_digit((n % 10) as int))
    }
}

fn digit_char(d: u64) -> (c: char)
    requires
        d < 10,
    ensures
        c == decimal_digit(d as int),
{
    match d {
        0 => '0',
        1 => '1',
        2 => '2',
        3 => '3',
        4 => '4',
        5 => '5',
        6 => '6',
        7 => '7',
        8 => '8',
        _ => '9',
    }
}

fn decimal_chars(n: u64) -> (v: Vec<char>)
    ensures
        v@ == decimal_text(n as nat),
    decreases n,
{
    let c = digit_char(n % 10);
    if n < 10 {
        let mut v: Vec<char> = Vec::new();
        v.push(c);
        v
    } else {
        let mut v = decimal_chars(n / 10);
        v.push(c);
        v
    }
}

/// `n` in decimal.
pub fn decimal_string(n: u64) -> (s: String)
    ensures
        s@ == decimal_text(n as nat),
{
    string_from_chars(&decimal_chars(n))
}

} // verus!
