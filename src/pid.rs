use vstd::prelude::*;
use crate::error::DaemonError;

verus! {

/// The characters with the Unicode `White_Space` property, which `str::trim` strips.
pub open spec fn is_space(c: char) -> bool {
    ('\u{9}' <= c && c <= '\u{d}') || c == ' ' || c == '\u{85}' || c == '\u{a0}'
        || c == '\u{1680}' || ('\u{2000}' <= c && c <= '\u{200a}') || c == '\u{2028}'
        || c == '\u{2029}' || c == '\u{202f}' || c == '\u{205f}' || c == '\u{3000}'
}

pub open spec fn trim_start(s: Seq<char>) -> Seq<char>
    decreases s.len(),
{
    if s.len() > 0 && is_space(s[0]) {
        trim_start(s.drop_first())
    } else {
        s
    }
}

pub open spec fn trim_end(s: Seq<char>) -> Seq<char>
    decreases s.len(),
{
    if s.len() > 0 && is_space(s.last()) {
        trim_end(s.drop_last())
    } else {
        s
    }
}

pub open spec fn trimmed(s: Seq<char>) -> Seq<char> {
    trim_end(trim_start(s))
}

pub open spec fn is_digit(c: char) -> bool {
    '0' <= c && c <= '9'
}

pub open spec fn all_digits(s: Seq<char>) -> bool {
    forall|i: int| 0 <= i < s.len() ==> is_digit(#[trigger] s[i])
}

/// The number that a string of decimal digits spells.
pub open spec fn decimal_value(s: Seq<char>) -> nat
    decreases s.len(),
{
    if s.len() == 0 {
        0
    } else {
        decimal_value(s.drop_last()) * 10 + ((s.last() as nat - '0' as nat) as nat)
    }
}

/// The digits of a PID file's text once it is trimmed and a leading `+` is dropped.
pub open spec fn unsigned_part(s: Seq<char>) -> Seq<char> {
    let t = trimmed(s);
    if t.len() > 0 && t[0] == '+' {
        t.drop_first()
    } else {
        t
    }
}

/// The process id that a PID file's text records: a decimal `i32`, surrounding
/// whitespace ignored, that names a process (it is positive). `None` when the text
/// records no such id.
pub open spec fn pid_of(s: Seq<char>) -> Option<i32> {
    let d = unsigned_part(s);
    if d.len() > 0 && all_digits(d) && 0 < decimal_value(d) <= i32::MAX {
        Some(decimal_value(d) as i32)
    } else {
        None
    }
}

proof fn lemma_prefix_value_bounded(s: Seq<char>, k: int)
    requires
        all_digits(s),
        0 <= k <= s.len(),
    ensures
        decimal_value(s.subrange(0, k)) <= decimal_value(s),
    decreases s.len() - k,
{
    if k < s.len() {
        lemma_prefix_value_bounded(s, k + 1);
        let p = s.subrange(0, k + 1);
        assert(p.drop_last() =~= s.subrange(0, k));
        assert(is_digit(s[k]));
    } else {
        assert(s.subrange(0, k) =~= s);
    }
}

/// Index of the first character that trimming at the start keeps.
fn start_of_text(s: &str, n: usize) -> (r: usize)
    requires
        n == s@.len(),
    ensures
        r <= n,
        trim_start(s@) == s@.subrange(r as int, n as int),
{
    let mut i: usize = 0;
    assert(s@.subrange(0, n as int) =~= s@);
    while i < n && is_space_char(s.get_char(i))
        invariant
            n == s@.len(),
            i <= n,
            trim_start(s@) == trim_start(s@.subrange(i as int, n as int)),
        decreases n - i,
    {
        assert(s@.subrange(i as int, n as int).drop_first() =~= s@.subrange(i + 1, n as int));
        i += 1;
    }
    i
}

/// Index just past the last character that trimming at the end keeps.
fn end_of_text(s: &str, from: usize, n: usize) -> (r: usize)
    requires
        n == s@.len(),
        from <= n,
    ensures
        from <= r <= n,
        trim_end(s@.subrange(from as int, n as int)) == s@.subrange(from as int, r as int),
{
    let mut j: usize = n;
    while j > from && is_space_char(s.get_char(j - 1))
        invariant
            n == s@.len(),
            from <= j <= n,
            trim_end(s@.subrange(from as int, n as int)) == trim_end(
                s@.subrange(from as int, j as int),
            ),
        decreases j,
    {
        assert(s@.subrange(from as int, j as int).drop_last() =~= s@.subrange(
            from as int,
            j - 1,
        ));
        j -= 1;
    }
    j
}

fn is_space_char(c: char) -> (r: bool)
    ensures
        r == is_space(c),
{
    ('\u{9}' <= c && c <= '\u{d}') || c == ' ' || c == '\u{85}' || c == '\u{a0}' || c
        == '\u{1680}' || ('\u{2000}' <= c && c <= '\u{200a}') || c == '\u{2028}' || c
        == '\u{2029}' || c == '\u{202f}' || c == '\u{205f}' || c == '\u{3000}'
}

/// Reads the process id that a PID file's text records.
/// Fails with `CorruptState` exactly when the text records none.
pub fn parse_pid(text: &str) -> (r: Result<i32, DaemonError>)
    ensures
        pid_of(text@) matches Some(p) ==> r == Ok::<i32, DaemonError>(p),
        pid_of(text@) is None ==> r == Err::<i32, DaemonError>(DaemonError::CorruptState),
{
    let n = text.unicode_len();
    let a = start_of_text(text, n);
    let b = end_of_text(text, a, n);
    let ghost t = text@.subrange(a as int, b as int);
    assert(trimmed(text@) == t);
    let mut i: usize = a;
    if i < b && text.get_char(i) == '+' {
        i += 1;
        assert(t.drop_first() =~= text@.subrange(i as int, b as int));
    } else {
        assert(t =~= text@.subrange(i as int, b as int));
    }
    let ghost d = text@.subrange(i as int, b as int);
    assert(unsigned_part(text@) == d);
    if i == b {
        return Err(DaemonError::CorruptState);
    }
    let mut v: u64 = 0;
    let mut k: usize = i;
    while k < b
        invariant
            n == text@.len(),
            i <= k <= b <= n,
            d == text@.subrange(i as int, b as int),
            unsigned_part(text@) == d,
            all_digits(d.subrange(0, k - i)),
            v == decimal_value(d.subrange(0, k - i)),
            v <= i32::MAX,
        decreases b - k,
    {
        let c = text.get_char(k);
        if !('0' <= c && c <= '9') {
            assert(d[k - i] == c);
            assert(!is_digit(d[k - i]));
            return Err(DaemonError::CorruptState);
        }
        let ghost p = d.subrange(0, k + 1 - i);
        assert(p.drop_last() =~= d.subrange(0, k - i));
        assert(p.last() == c);
        v = v * 10 + (c as u64 - '0' as u64);
        k += 1;
        assert(all_digits(p)) by {
            assert forall|j: int| 0 <= j < p.len() implies is_digit(#[trigger] p[j]) by {
                if j < p.len() - 1 {
                    assert(p[j] == d.subrange(0, k - 1 - i)[j]);
                }
            }
        }
        if v > 2147483647 {
            proof {
                if all_digits(d) {
                    lemma_prefix_value_bounded(d, k - i);
                }
            }
            return Err(DaemonError::CorruptState);
        }
    }
    assert(d.subrange(0, k - i) =~= d);
    if v == 0 {
        return Err(DaemonError::CorruptState);
    }
    Ok(v as i32)
}

} // verus!
