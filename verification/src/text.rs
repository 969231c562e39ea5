//! Small verified string routines: character access, substring search, decimal rendering.
use vstd::prelude::*;

verus! {

/// `needle` occurs in `hay` starting at index `i`.
pub open spec fn occurs_at(hay: Seq<char>, needle: Seq<char>, i: int) -> bool {
    0 <= i && i + needle.len() <= hay.len() && hay.subrange(i, i + needle.len()) == needle
}

/// `needle` occurs somewhere in `hay`.
pub open spec fn seq_contains(hay: Seq<char>, needle: Seq<char>) -> bool {
    exists|i: int| occurs_at(hay, needle, i)
}

/// `hay` begins with `prefix`.
pub open spec fn seq_starts_with(hay: Seq<char>, prefix: Seq<char>) -> bool {
    occurs_at(hay, prefix, 0)
}

/// The characters of `s`, in order.
pub fn chars_of(s: &str) -> (res: Vec<char>)
    ensures
        res@ == s@,
{
    let n = s.unicode_len();
    let mut out: Vec<char> = Vec::new();
    let mut i: usize = 0;
    while i < n
        invariant
            n == s@.len(),
            i <= n,
            out@ == s@.subrange(0, i as int),
        decreases n - i,
    {
        out.push(s.get_char(i));
        i = i + 1;
    }
    out
}

fn occurs_at_exec(hay: &Vec<char>, needle: &Vec<char>, i: usize) -> (res: bool)
    requires
        i + needle@.len() <= hay@.len(),
    ensures
        res == occurs_at(hay@, needle@, i as int),
{
    let hay_len = hay.len();
    let mut j: usize = 0;
    while j < needle.len()
        invariant
            hay_len == hay@.len(),
            i + needle@.len() <= hay@.len(),
            j <= needle@.len(),
            forall|k: int| 0 <= k < j ==> hay@[i + k] == needle@[k],
        decreases needle@.len() - j,
    {
        if hay[i + j] != needle[j] {
            assert(hay@.subrange(i as int, i + needle@.len())[j as int] != needle@[j as int]);
            return false;
        }
        j = j + 1;
    }
    assert(hay@.subrange(i as int, i + needle@.len()) =~= needle@);
    true
}

/// Whether `needle` occurs in `hay`.
pub fn contains(hay: &str, needle: &str) -> (res: bool)
    ensures
        res == seq_contains(hay@, needle@),
{
    let h = chars_of(hay);
    let n = chars_of(needle);
    if n.len() > h.len() {
        assert forall|i: int| !occurs_at(hay@, needle@, i) by {}
        return false;
    }
    let last = h.len() - n.len();
    let mut i: usize = 0;
    loop
        invariant
            h@ == hay@,
            n@ == needle@,
            last + n@.len() == h@.len(),
            i <= last,
            forall|k: int| 0 <= k < i ==> !occurs_at(hay@, needle@, k),
        ensures
            forall|k: int| 0 <= k <= last ==> !occurs_at(hay@, needle@, k),
        decreases last - i,
    {
        if occurs_at_exec(&h, &n, i) {
            return true;
        }
        if i == last {
            break;
        }
        i = i + 1;
    }
    assert forall|k: int| !occurs_at(hay@, needle@, k) by {
        if 0 <= k && k + needle@.len() <= hay@.len() {
            assert(k <= last);
        }
    }
    false
}

/// Whether two texts are the same characters.
pub fn same_text(a: &str, b: &str) -> (res: bool)
    ensures
        res == (a@ == b@),
{
    let x = chars_of(a);
    let y = chars_of(b);
    if x.len() != y.len() {
        return false;
    }
    let mut i: usize = 0;
    while i < x.len()
        invariant
            x@ == a@,
            y@ == b@,
            x@.len() == y@.len(),
            i <= x@.len(),
            forall|k: int| 0 <= k < i ==> x@[k] == y@[k],
        decreases x@.len() - i,
    {
        if x[i] != y[i] {
            return false;
        }
        i = i + 1;
    }
    assert(a@ =~= b@);
    true
}

/// Whether `hay` begins with `prefix`.
pub fn starts_with(hay: &str, prefix: &str) -> (res: bool)
    ensures
        res == seq_starts_with(hay@, prefix@),
{
    let h = chars_of(hay);
    let p = chars_of(prefix);
    if p.len() > h.len() {
        return false;
    }
    occurs_at_exec(&h, &p, 0)
}

/// Whitespace as `char::is_whitespace` decides it: the Unicode White_Space property, that is
/// U+0009 to U+000D, U+0020, U+0085, U+00A0, U+1680, U+2000 to U+200A, U+2028, U+2029,
/// U+202F, U+205F and U+3000.
pub open spec fn is_white_space(c: char) -> bool {
    let v = c as u32;
    ||| 9 <= v && v <= 13
    ||| v == 0x20
    ||| v == 0x85
    ||| v == 0xA0
    ||| v == 0x1680
    ||| 0x2000 <= v && v <= 0x200A
    ||| v == 0x2028
    ||| v == 0x2029
    ||| v == 0x202F
    ||| v == 0x205F
    ||| v == 0x3000
}

/// Whether `c` is whitespace in the sense of [`is_white_space`].
pub fn is_whitespace(c: char) -> (res: bool)
    ensures
        res == is_white_space(c),
{
    let v = c as u32;
    (9 <= v && v <= 13) || v == 0x20 || v == 0x85 || v == 0xA0 || v == 0x1680 || (0x2000 <= v
        && v <= 0x200A) || v == 0x2028 || v == 0x2029 || v == 0x202F || v == 0x205F || v
        == 0x3000
}

/// `s` without its leading whitespace.
pub open spec fn trim_front(s: Seq<char>) -> Seq<char>
    decreases s.len(),
{
    if s.len() > 0 && is_white_space(s[0]) {
        trim_front(s.drop_first())
    } else {
        s
    }
}

/// `s` without its trailing whitespace.
pub open spec fn trim_back(s: Seq<char>) -> Seq<char>
    decreases s.len(),
{
    if s.len() > 0 && is_white_space(s.last()) {
        trim_back(s.drop_last())
    } else {
        s
    }
}

/// `str::trim`: `s` without leading and trailing whitespace.
pub open spec fn trimmed(s: Seq<char>) -> Seq<char> {
    trim_back(trim_front(s))
}

/// A text with no whitespace in it is its own trimmed form.
pub proof fn lemma_trim_no_white_space(s: Seq<char>)
    requires
        forall|i: int| 0 <= i < s.len() ==> !is_white_space(#[trigger] s[i]),
    ensures
        trimmed(s) == s,
{
    if s.len() > 0 {
        assert(!is_white_space(s[0]));
        assert(!is_white_space(s[s.len() - 1]));
    }
}

/// `s` with leading and trailing whitespace removed, as `str::trim` does.
pub fn trim(s: &str) -> (res: &str)
    ensures
        res@ == trimmed(s@),
{
    let c = chars_of(s);
    let n = c.len();
    assert(s@.subrange(0, n as int) =~= s@);
    let mut i: usize = 0;
    loop
        invariant
            c@ == s@,
            n == c@.len(),
            i <= n,
            trim_front(s@) == trim_front(s@.subrange(i as int, n as int)),
        ensures
            i <= n,
            trim_front(s@) == s@.subrange(i as int, n as int),
        decreases n - i,
    {
        if i == n {
            break;
        }
        if !is_whitespace(c[i]) {
            break;
        }
        assert(s@.subrange(i as int, n as int).drop_first() =~= s@.subrange(i + 1, n as int));
        i = i + 1;
    }
    let mut j: usize = n;
    loop
        invariant
            c@ == s@,
            n == c@.len(),
            i <= j <= n,
            trim_front(s@) == s@.subrange(i as int, n as int),
            trim_back(s@.subrange(i as int, n as int)) == trim_back(s@.subrange(i as int, j as int)),
        ensures
            i <= j <= n,
            trimmed(s@) == s@.subrange(i as int, j as int),
        decreases j - i,
    {
        if j == i {
            break;
        }
        if !is_whitespace(c[j - 1]) {
            break;
        }
        assert(s@.subrange(i as int, j as int).drop_last() =~= s@.subrange(i as int, j - 1));
        j = j - 1;
    }
    s.substring_char(i, j)
}

/// Position `k` of `s` begins a run of non-whitespace characters.
pub open spec fn starts_word(s: Seq<char>, k: int) -> bool {
    !is_white_space(s[k]) && (k == 0 || is_white_space(s[k - 1]))
}

/// The number of words that begin among the first `k` characters of `s`.
pub open spec fn words_upto(s: Seq<char>, k: nat) -> nat
    decreases k,
{
    if k == 0 {
        0
    } else {
        words_upto(s, (k - 1) as nat) + if starts_word(s, k - 1) {
            1nat
        } else {
            0nat
        }
    }
}

/// The number of whitespace-separated words in `s`, as `str::split_whitespace` yields them.
pub open spec fn word_count(s: Seq<char>) -> nat {
    words_upto(s, s.len())
}

/// Counts the whitespace-separated words of `s`.
pub fn count_words(s: &str) -> (n: usize)
    ensures
        n == word_count(s@),
{
    let c = chars_of(s);
    let len = c.len();
    let mut count: usize = 0;
    let mut i: usize = 0;
    let mut prev_white = true;
    while i < len
        invariant
            c@ == s@,
            len == c@.len(),
            i <= len,
            count == words_upto(s@, i as nat),
            count <= i,
            i > 0 ==> prev_white == is_white_space(s@[i - 1]),
            i == 0 ==> prev_white,
        decreases len - i,
    {
        let white = is_whitespace(c[i]);
        if !white && prev_white {
            count = count + 1;
        }
        prev_white = white;
        i = i + 1;
    }
    count
}

/// `s` has no newline in it.
pub open spec fn no_newline(s: Seq<char>) -> bool {
    forall|i: int| 0 <= i < s.len() ==> s[i] != '\n'
}

/// Decimal digits are never newlines.
pub proof fn lemma_decimal_no_newline(n: nat)
    ensures
        no_newline(decimal(n)),
        decimal(n).len() >= 1,
        n >= 10 ==> decimal(n).len() >= 2,
    decreases n,
{
    if n >= 10 {
        lemma_decimal_no_newline(n / 10);
        assert forall|i: int| 0 <= i < decimal(n).len() implies decimal(n)[i] != '\n' by {
            if i < decimal(n / 10).len() {
                assert(decimal(n)[i] == decimal(n / 10)[i]);
            }
        }
    }
}

/// Decimal rendering is one-to-one.
pub proof fn lemma_decimal_injective(n: nat, m: nat)
    requires
        decimal(n) == decimal(m),
    ensures
        n == m,
    decreases n,
{
    lemma_decimal_no_newline(n);
    lemma_decimal_no_newline(m);
    if n >= 10 && m >= 10 {
        let a = decimal(n / 10);
        let b = decimal(m / 10);
        assert(decimal(n).last() == digit_char((n % 10) as int));
        assert(decimal(m).last() == digit_char((m % 10) as int));
        assert(decimal(n).drop_last() =~= a);
        assert(decimal(m).drop_last() =~= b);
        lemma_decimal_injective(n / 10, m / 10);
    } else if n < 10 && m < 10 {
        assert(decimal(n)[0] == digit_char(n as int));
        assert(decimal(m)[0] == digit_char(m as int));
    }
}

/// Splitting at the first newline: a newline-free head followed by a newline is recovered
/// from the text.
pub proof fn lemma_split_first_newline(x: Seq<char>, u: Seq<char>, y: Seq<char>, v: Seq<char>)
    requires
        no_newline(x),
        no_newline(y),
        x + seq!['\n'] + u == y + seq!['\n'] + v,
    ensures
        x == y,
        u == v,
{
    let l = x + seq!['\n'] + u;
    let r = y + seq!['\n'] + v;
    if x.len() < y.len() {
        assert(l[x.len() as int] == '\n');
        assert(r[x.len() as int] == y[x.len() as int]);
    } else if y.len() < x.len() {
        assert(r[y.len() as int] == '\n');
        assert(l[y.len() as int] == x[y.len() as int]);
    }
    assert(x =~= l.subrange(0, x.len() as int));
    assert(y =~= r.subrange(0, y.len() as int));
    assert(u =~= l.subrange(x.len() as int + 1, l.len() as int));
    assert(v =~= r.subrange(y.len() as int + 1, r.len() as int));
}

/// Splitting at the last newline: a newline-free tail after a newline is recovered from the
/// text.
pub proof fn lemma_split_last_newline(u: Seq<char>, x: Seq<char>, v: Seq<char>, y: Seq<char>)
    requires
        no_newline(x),
        no_newline(y),
        u + seq!['\n'] + x == v + seq!['\n'] + y,
    ensures
        x == y,
        u == v,
{
    let l = u + seq!['\n'] + x;
    let r = v + seq!['\n'] + y;
    let n = l.len() as int;
    if x.len() < y.len() {
        let k = n - 1 - x.len();
        assert(l[k] == '\n');
        assert(r[k] == y[k - v.len() - 1]);
    } else if y.len() < x.len() {
        let k = n - 1 - y.len();
        assert(r[k] == '\n');
        assert(l[k] == x[k - u.len() - 1]);
    }
    assert(x =~= l.subrange(n - x.len(), n));
    assert(y =~= r.subrange(n - y.len(), n));
    assert(u =~= l.subrange(0, u.len() as int));
    assert(v =~= r.subrange(0, v.len() as int));
}

/// The decimal digit character for `d` in `0..10`.
pub open spec fn digit_char(d: int) -> char {
    (d + 48) as char
}

/// `n` written in decimal without leading zeros, as `{}` formats an unsigned integer.
pub open spec fn decimal(n: nat) -> Seq<char>
    decreases n,
{
    if n < 10 {
        seq![digit_char(n as int)]
    } else {
        decimal(n / 10).push(digit_char((n % 10) as int))
    }
}

fn digit_str(d: u64) -> (s: &'static str)
    requires
        d < 10,
    ensures
        s@ == seq![digit_char(d as int)],
{
    match d {
        0 => {
            proof { reveal_strlit("0"); }
            "0"
        },
        1 => {
            proof { reveal_strlit("1"); }
            "1"
        },
        2 => {
            proof { reveal_strlit("2"); }
            "2"
        },
        3 => {
            proof { reveal_strlit("3"); }
            "3"
        },
        4 => {
            proof { reveal_strlit("4"); }
            "4"
        },
        5 => {
            proof { reveal_strlit("5"); }
            "5"
        },
        6 => {
            proof { reveal_strlit("6"); }
            "6"
        },
        7 => {
            proof { reveal_strlit("7"); }
            "7"
        },
        8 => {
            proof { reveal_strlit("8"); }
            "8"
        },
        _ => {
            proof { reveal_strlit("9"); }
            "9"
        },
    }
}

/// Appends `n` in decimal to `out`.
pub fn push_decimal(out: &mut String, n: u64)
    ensures
        final(out)@ == old(out)@ + decimal(n as nat),
    decreases n,
{
    if n >= 10 {
        push_decimal(out, n / 10);
    }
    let ghost before = out@;
    out.append(digit_str(n % 10));
    proof {
        if n >= 10 {
            assert(old(out)@ + decimal(n as nat) =~= old(out)@ + decimal((n / 10) as nat) + seq![
                digit_char((n % 10) as int),
            ]);
        } else {
            assert(before == old(out)@);
        }
    }
}

/// `name` joined under the directory `dir`, as `Path::join` does on Unix for a relative
/// single-component `name`: a separator is added unless `dir` is empty or already ends in one.
pub open spec fn join_path(dir: Seq<char>, name: Seq<char>) -> Seq<char> {
    if dir.len() == 0 {
        name
    } else if dir.last() == '/' {
        dir + name
    } else {
        dir + seq!['/'] + name
    }
}

/// The path of `name` inside `dir`.
pub fn join(dir: &str, name: &str) -> (res: String)
    ensures
        res@ == join_path(dir@, name@),
{
    let n = dir.unicode_len();
    let mut out = String::from_str(dir);
    if n == 0 {
        return String::from_str(name);
    }
    if dir.get_char(n - 1) != '/' {
        proof { reveal_strlit("/"); }
        out.append("/");
    }
    out.append(name);
    out
}

} // verus!
