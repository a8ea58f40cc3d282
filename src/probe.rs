use vstd::prelude::*;
use crate::text::{split_char, split_on, lemma_split_char_nonempty};

verus! {

/// Unicode `White_Space`, as `char::is_whitespace` tests it.
pub open spec fn is_ws(c: char) -> bool {
    let u = c as u32;
    ||| 0x09 <= u <= 0x0D
    ||| u == 0x20
    ||| u == 0x85
    ||| u == 0xA0
    ||| u == 0x1680
    ||| 0x2000 <= u <= 0x200A
    ||| u == 0x2028
    ||| u == 0x2029
    ||| u == 0x202F
    ||| u == 0x205F
    ||| u == 0x3000
}

pub open spec fn trim_start(s: Seq<char>) -> Seq<char>
    decreases s.len(),
{
    if s.len() > 0 && is_ws(s[0]) {
        trim_start(s.drop_first())
    } else {
        s
    }
}

pub open spec fn trim_end(s: Seq<char>) -> Seq<char>
    decreases s.len(),
{
    if s.len() > 0 && is_ws(s.last()) {
        trim_end(s.drop_last())
    } else {
        s
    }
}

/// `s` without leading and trailing whitespace, as `str::trim` gives it.
pub open spec fn trim(s: Seq<char>) -> Seq<char> {
    trim_end(trim_start(s))
}

pub open spec fn is_digit(c: char) -> bool {
    '0' <= c <= '9'
}

/// The value of a numeral of decimal digits.
pub open spec fn digits_value(s: Seq<char>) -> nat
    decreases s.len(),
{
    if s.len() == 0 {
        0
    } else {
        digits_value(s.drop_last()) * 10 + ((s.last() as u32 - '0' as u32) as nat)
    }
}

/// What `str::parse::<u64>` makes of `s`: an optional `+`, then at least one
/// decimal digit and nothing else, with a value that fits.
pub open spec fn parsed_u64(s: Seq<char>) -> Option<u64> {
    parsed_digits(if s.len() > 0 && s[0] == '+' { s.drop_first() } else { s })
}

/// The value of a non-empty numeral of decimal digits that fits in `u64`.
pub open spec fn parsed_digits(d: Seq<char>) -> Option<u64> {
    if d.len() > 0 && (forall|i: int| 0 <= i < d.len() ==> is_digit(#[trigger] d[i])) && digits_value(d)
        <= u64::MAX {
        Some(digits_value(d) as u64)
    } else {
        None
    }
}

/// A line with its `\r` removed, for a line that ended in `\n`.
pub open spec fn strip_cr(l: Seq<char>) -> Seq<char> {
    if l.len() > 0 && l.last() == '\r' {
        l.drop_last()
    } else {
        l
    }
}

/// The lines of `s`, as `str::lines` yields them: split at `\n`, a `\r`
/// before the `\n` removed, and no empty line after a final `\n`.
pub open spec fn lines(s: Seq<char>) -> Seq<Seq<char>> {
    let parts = split_char(s, '\n');
    let ended = parts.take(parts.len() - 1).map_values(|l: Seq<char>| strip_cr(l));
    if parts.last().len() == 0 {
        ended
    } else {
        ended.push(parts.last())
    }
}

pub open spec fn starts_with(s: Seq<char>, p: Seq<char>) -> bool {
    p.len() <= s.len() && s.subrange(0, p.len() as int) == p
}

/// The serial of a `Serial : ...` line: the text between its first and
/// second colon, trimmed, or `unknown` without a colon.
pub open spec fn serial_of_line(l: Seq<char>) -> Seq<char> {
    let f = split_char(l, ':');
    if f.len() >= 2 {
        trim(f[1])
    } else {
        "unknown"@
    }
}

pub open spec fn serial_from(ls: Seq<Seq<char>>, k: int) -> Seq<char>
    decreases ls.len() - k,
{
    if k < 0 || k >= ls.len() {
        "unknown"@
    } else if starts_with(ls[k], "Serial"@) {
        serial_of_line(ls[k])
    } else {
        serial_from(ls, k + 1)
    }
}

/// The CPU serial in `/proc/cpuinfo` text: from the first line that starts
/// with `Serial`; `unknown` where there is none.
pub open spec fn cpu_serial(text: Seq<char>) -> Seq<char> {
    serial_from(lines(text), 0)
}

/// The whitespace-separated words of `s`, as `str::split_whitespace` yields them.
pub open spec fn words(s: Seq<char>) -> Seq<Seq<char>>
    decreases s.len(),
{
    if s.len() == 0 {
        Seq::<Seq<char>>::empty()
    } else {
        let w = words(s.drop_last());
        if is_ws(s.last()) {
            w
        } else if s.len() >= 2 && !is_ws(s[s.len() - 2]) {
            w.update(w.len() - 1, w.last().push(s.last()))
        } else {
            w.push(seq![s.last()])
        }
    }
}

pub open spec fn release_from(ls: Seq<Seq<char>>, k: int) -> Option<Seq<char>>
    decreases ls.len() - k,
{
    if k < 0 || k >= ls.len() {
        None
    } else if crate::text::contains(ls[k], "release"@) {
        let w = words(ls[k]);
        if w.len() > 5 {
            Some(w[5])
        } else {
            None
        }
    } else {
        release_from(ls, k + 1)
    }
}

/// The CUDA version in `nvcc --version` text: the sixth word of the first
/// line that mentions `release`.
pub open spec fn cuda_version(text: Seq<char>) -> Option<Seq<char>> {
    release_from(lines(text), 0)
}

/// The whitespace-separated words of `s`.
pub fn words_of(s: &str) -> (r: Vec<String>)
    ensures
        r@.map_values(|w: String| w@) == words(s@),
{
    let n = s.unicode_len();
    let mut done: Vec<String> = Vec::new();
    let mut start: usize = 0;
    let mut in_word = false;
    let mut i: usize = 0;
    assert(s@.subrange(0, 0) =~= Seq::<char>::empty());
    assert(done@.map_values(|w: String| w@) =~= Seq::<Seq<char>>::empty());
    while i < n
        invariant
            n == s@.len(),
            start <= i <= n,
            in_word ==> start < i && !is_ws(s@[i - 1]),
            !in_word ==> (i == 0 || is_ws(s@[i - 1])),
            words(s@.subrange(0, i as int)) == if in_word {
                done@.map_values(|w: String| w@).push(s@.subrange(start as int, i as int))
            } else {
                done@.map_values(|w: String| w@)
            },
        decreases n - i,
    {
        let c = s.get_char(i);
        let ghost cur = s@.subrange(0, i + 1);
        assert(cur.drop_last() =~= s@.subrange(0, i as int));
        assert(cur.last() == c);
        if is_whitespace(c) {
            if in_word {
                let w = String::from_str(s.substring_char(start, i));
                done.push(w);
                assert(done@.map_values(|w: String| w@) =~= words(s@.subrange(0, i as int)));
            }
            in_word = false;
        } else {
            if in_word {
                assert(cur[i - 1] == s@[i - 1]);
                assert(s@.subrange(start as int, i + 1) =~= s@.subrange(start as int, i as int).push(c));
                assert(words(cur) =~= done@.map_values(|w: String| w@).push(s@.subrange(start as int, i + 1)));
            } else {
                if i > 0 {
                    assert(cur[i - 1] == s@[i - 1]);
                }
                start = i;
                assert(s@.subrange(start as int, i + 1) =~= seq![c]);
            }
            in_word = true;
        }
        i = i + 1;
    }
    assert(s@.subrange(0, n as int) =~= s@);
    if in_word {
        let w = String::from_str(s.substring_char(start, n));
        done.push(w);
        assert(done@.map_values(|w: String| w@) =~= words(s@));
    }
    done
}

/// The CUDA version in `nvcc --version` text.
pub fn cuda_version_from_nvcc(text: &str) -> (r: Option<String>)
    ensures
        match cuda_version(text@) {
            Some(v) => r matches Some(x) && x@ == v,
            None => r is None,
        },
{
    let ls = lines_of(text);
    let ghost lv = ls@.map_values(|l: String| l@);
    proof {
        reveal_strlit("release");
    }
    let mut k: usize = 0;
    while k < ls.len()
        invariant
            lv == ls@.map_values(|l: String| l@),
            lv == lines(text@),
            k <= ls@.len(),
            release_from(lv, 0) == release_from(lv, k as int),
        decreases ls@.len() - k,
    {
        assert(lv[k as int] == ls@[k as int]@);
        if crate::text::contains_str(ls[k].as_str(), "release") {
            let w = words_of(ls[k].as_str());
            assert(w@.map_values(|x: String| x@).len() == w@.len());
            if w.len() > 5 {
                assert(w@.map_values(|x: String| x@)[5] == w@[5]@);
                return Some(w[5].clone());
            }
            return None;
        }
        k = k + 1;
    }
    None
}

/// Whether `c` is whitespace.
pub fn is_whitespace(c: char) -> (r: bool)
    ensures
        r == is_ws(c),
{
    let u = c as u32;
    (0x09 <= u && u <= 0x0D) || u == 0x20 || u == 0x85 || u == 0xA0 || u == 0x1680 || (0x2000 <= u && u <= 0x200A)
        || u == 0x2028 || u == 0x2029 || u == 0x202F || u == 0x205F || u == 0x3000
}

/// `s` without leading and trailing whitespace.
pub fn trim_text(s: &str) -> (r: String)
    ensures
        r@ == trim(s@),
{
    let n = s.unicode_len();
    let mut i: usize = 0;
    let mut done = false;
    assert(s@.subrange(0, n as int) =~= s@);
    while i < n && !done
        invariant
            n == s@.len(),
            i <= n,
            trim_start(s@) == trim_start(s@.subrange(i as int, n as int)),
            done ==> i < n && !is_ws(s@[i as int]),
        decreases n - i + if done { 0int } else { 1int },
    {
        if is_whitespace(s.get_char(i)) {
            assert(s@.subrange(i as int, n as int).drop_first() =~= s@.subrange(i + 1, n as int));
            i = i + 1;
        } else {
            done = true;
        }
    }
    assert(trim_start(s@) == s@.subrange(i as int, n as int)) by {
        if i < n {
            assert(s@.subrange(i as int, n as int)[0] == s@[i as int]);
        } else {
            assert(s@.subrange(i as int, n as int).len() == 0);
        }
    }
    let mut j: usize = n;
    let mut stop = false;
    while j > i && !stop
        invariant
            n == s@.len(),
            i <= j <= n,
            trim_end(s@.subrange(i as int, n as int)) == trim_end(s@.subrange(i as int, j as int)),
            stop ==> j > i && !is_ws(s@[j - 1]),
        decreases j - i + if stop { 0int } else { 1int },
    {
        if is_whitespace(s.get_char(j - 1)) {
            assert(s@.subrange(i as int, j as int).drop_last() =~= s@.subrange(i as int, j - 1));
            j = j - 1;
        } else {
            stop = true;
        }
    }
    assert(trim_end(s@.subrange(i as int, j as int)) == s@.subrange(i as int, j as int)) by {
        if j > i {
            assert(s@.subrange(i as int, j as int).last() == s@[j - 1]);
        } else {
            assert(s@.subrange(i as int, j as int).len() == 0);
        }
    }
    String::from_str(s.substring_char(i, j))
}

proof fn lemma_digits_prefix_grows(d: Seq<char>, k: int, m: int)
    requires
        0 <= k <= m <= d.len(),
    ensures
        digits_value(d.subrange(0, k)) <= digits_value(d.subrange(0, m)),
    decreases m - k,
{
    if k < m {
        lemma_digits_prefix_grows(d, k, m - 1);
        assert(d.subrange(0, m).drop_last() =~= d.subrange(0, m - 1));
    }
}

/// What `str::parse::<u64>` makes of `s`.
pub fn parse_u64(s: &str) -> (r: Option<u64>)
    ensures
        r == parsed_u64(s@),
{
    let n = s.unicode_len();
    let start: usize = if n > 0 && s.get_char(0) == '+' { 1 } else { 0 };
    let ghost d = if s@.len() > 0 && s@[0] == '+' { s@.drop_first() } else { s@ };
    assert(d =~= s@.subrange(start as int, n as int));
    assert(parsed_u64(s@) == parsed_digits(d));
    if start == n {
        return None;
    }
    let mut v: u64 = 0;
    let mut k: usize = start;
    assert(d.subrange(0, 0) =~= Seq::<char>::empty());
    while k < n
        invariant
            n == s@.len(),
            start <= k <= n,
            d == s@.subrange(start as int, n as int),
            parsed_u64(s@) == parsed_digits(d),
            forall|i: int| 0 <= i < k - start ==> is_digit(#[trigger] d[i]),
            v == digits_value(d.subrange(0, k - start)),
        decreases n - k,
    {
        let c = s.get_char(k);
        assert(d[k - start] == c);
        if !('0' <= c && c <= '9') {
            assert(!is_digit(d[k - start]));
            assert(parsed_digits(d) is None);
            return None;
        }
        let digit = (c as u32 - '0' as u32) as u64;
        assert(d.subrange(0, k + 1 - start).drop_last() =~= d.subrange(0, k - start));
        let ghost next = d.subrange(0, k + 1 - start);
        assert(next.last() == c);
        assert(digits_value(next) == v * 10 + digit);
        if v > (u64::MAX - digit) / 10 {
            proof {
                assert(v * 10 + digit > u64::MAX) by (nonlinear_arith)
                    requires v > (u64::MAX - digit) / 10, digit <= 9;
                lemma_digits_prefix_grows(d, k + 1 - start, d.len() as int);
                assert(d.subrange(0, d.len() as int) =~= d);
                assert(parsed_digits(d) is None);
            }
            return None;
        }
        v = v * 10 + digit;
        k = k + 1;
    }
    assert(d.subrange(0, n - start) =~= d);
    Some(v)
}

/// A numeric reading of a GPU tool: the trimmed output as a `u64`.
pub fn parse_reading(text: &str) -> (r: Option<u64>)
    ensures
        r == parsed_u64(trim(text@)),
{
    let t = trim_text(text);
    parse_u64(t.as_str())
}

/// A numeric reading that must fit in a byte (a percentage, a temperature).
pub fn parse_small_reading(text: &str) -> (r: Option<u8>)
    ensures
        r == match parsed_u64(trim(text@)) {
            Some(v) => if v <= 255 { Some(v as u8) } else { None },
            None => None,
        },
{
    match parse_reading(text) {
        Some(v) => if v <= 255 { Some(v as u8) } else { None },
        None => None,
    }
}

fn strip_cr_text(l: &str) -> (r: String)
    ensures
        r@ == strip_cr(l@),
{
    let n = l.unicode_len();
    if n > 0 && l.get_char(n - 1) == '\r' {
        assert(l@.subrange(0, n - 1) =~= l@.drop_last());
        String::from_str(l.substring_char(0, n - 1))
    } else {
        String::from_str(l)
    }
}

/// The lines of `s`.
pub fn lines_of(s: &str) -> (r: Vec<String>)
    ensures
        r@.map_values(|l: String| l@) == lines(s@),
{
    let parts = split_on(s, '\n');
    let ghost pv = parts@.map_values(|p: String| p@);
    proof {
        lemma_split_char_nonempty(s@, '\n');
    }
    let count = parts.len() - 1;
    let mut out: Vec<String> = Vec::new();
    let mut k: usize = 0;
    while k < count
        invariant
            count == parts@.len() - 1,
            pv == parts@.map_values(|p: String| p@),
            pv == split_char(s@, '\n'),
            k <= count,
            out@.len() == k,
            forall|i: int| 0 <= i < k ==> #[trigger] out@[i]@ == strip_cr(pv[i]),
        decreases count - k,
    {
        out.push(strip_cr_text(parts[k].as_str()));
        assert(pv[k as int] == parts@[k as int]@);
        k = k + 1;
    }
    assert(out@.map_values(|l: String| l@) =~= pv.take(count as int).map_values(|l: Seq<char>| strip_cr(l)));
    assert(pv.last() == parts@[count as int]@);
    if parts[count].unicode_len() > 0 {
        out.push(parts[count].clone());
        assert(out@.map_values(|l: String| l@) =~= lines(s@));
    } else {
        assert(out@.map_values(|l: String| l@) =~= lines(s@));
    }
    out
}

fn starts_with_text(s: &str, p: &str) -> (r: bool)
    ensures
        r == starts_with(s@, p@),
{
    let n = s.unicode_len();
    let m = p.unicode_len();
    if m > n {
        return false;
    }
    let mut k: usize = 0;
    while k < m
        invariant
            n == s@.len(),
            m == p@.len(),
            m <= n,
            k <= m,
            forall|i: int| 0 <= i < k ==> s@[i] == p@[i],
        decreases m - k,
    {
        if s.get_char(k) != p.get_char(k) {
            assert(s@.subrange(0, m as int)[k as int] != p@[k as int]);
            return false;
        }
        k = k + 1;
    }
    assert(s@.subrange(0, m as int) =~= p@);
    true
}

/// The CPU serial in `/proc/cpuinfo` text.
pub fn cpu_serial_from_cpuinfo(text: &str) -> (r: String)
    ensures
        r@ == cpu_serial(text@),
{
    let ls = lines_of(text);
    let ghost lv = ls@.map_values(|l: String| l@);
    proof {
        reveal_strlit("Serial");
        reveal_strlit("unknown");
    }
    let mut k: usize = 0;
    while k < ls.len()
        invariant
            lv == ls@.map_values(|l: String| l@),
            lv == lines(text@),
            k <= ls@.len(),
            serial_from(lv, 0) == serial_from(lv, k as int),
        decreases ls@.len() - k,
    {
        assert(lv[k as int] == ls@[k as int]@);
        if starts_with_text(ls[k].as_str(), "Serial") {
            let fields = split_on(ls[k].as_str(), ':');
            assert(fields@.map_values(|f: String| f@).len() == fields@.len());
            if fields.len() >= 2 {
                assert(fields@.map_values(|f: String| f@)[1] == fields@[1]@);
                return trim_text(fields[1].as_str());
            }
            return String::from_str("unknown");
        }
        k = k + 1;
    }
    String::from_str("unknown")
}

} // verus!
