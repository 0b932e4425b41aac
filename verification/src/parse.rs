//! Byte-level parsing of the control programs' reports.
//!
//! The daemon learns the current brightness and volume by running the
//! system's control programs and reading their output.  The raw bytes
//! are handed in here; everything that interprets them is verified
//! against the spec functions of this module, which define the accepted
//! shapes exactly.  `None` marks output the daemon cannot use at all —
//! the surrounding process treats that as the fatal condition it is.
//!
//! A brightness report is machine-readable: fields separated by `,` or
//! `%`, the value in the fourth field.  A volume report is the mixer's
//! human-readable listing: on its last line, the first bracketed token
//! not carrying a decibel reading holds the percentage.

use vstd::prelude::*;

verus! {

/// Which bytes cut the input into pieces, for each splitting the parsers
/// do.
#[derive(Clone, Copy, Debug, PartialEq, Eq, Structural)]
pub enum SplitClass {
    /// The field separators of a machine-readable brightness report.
    FieldDelims,
    /// ASCII whitespace, splitting a line into tokens.
    Whitespace,
}

/// Whether `b` is ASCII whitespace.
pub open spec fn spec_is_ascii_space(b: u8) -> bool {
    b == 32 || (9 <= b <= 13)
}

/// Whether `b` separates pieces under `c`.
pub open spec fn spec_is_split_byte(c: SplitClass, b: u8) -> bool {
    match c {
        SplitClass::FieldDelims => b == 44 || b == 37,  // ',' '%'
        SplitClass::Whitespace => spec_is_ascii_space(b),
    }
}

/// The pieces of `s` between the separator bytes of `c`, in order.  A
/// separator always ends one piece and begins the next, so `n`
/// separators give `n + 1` pieces and empty pieces are kept.
pub open spec fn spec_split(c: SplitClass, s: Seq<u8>) -> Seq<Seq<u8>>
    decreases s.len(),
{
    if s.len() == 0 {
        seq![Seq::empty()]
    } else if spec_is_split_byte(c, s.last()) {
        spec_split(c, s.drop_last()).push(Seq::empty())
    } else {
        let rest = spec_split(c, s.drop_last());
        rest.update(rest.len() - 1, rest.last().push(s.last()))
    }
}

/// Runtime byte test matching [`spec_is_split_byte`].
fn is_split_byte(c: SplitClass, b: u8) -> (r: bool)
    ensures
        r == spec_is_split_byte(c, b),
{
    match c {
        SplitClass::FieldDelims => b == 44 || b == 37,
        SplitClass::Whitespace => b == 32 || (9 <= b && b <= 13),
    }
}

/// Split `s` at the separator bytes of `c`, exactly as [`spec_split`]
/// lays the pieces out.
pub fn split_bytes(c: SplitClass, s: &[u8]) -> (out: Vec<Vec<u8>>)
    ensures
        out@.map_values(|p: Vec<u8>| p@) == spec_split(c, s@),
{
    let mut done: Vec<Vec<u8>> = Vec::new();
    let mut cur: Vec<u8> = Vec::new();
    let n = s.len();
    proof {
        assert(s@.take(0) =~= Seq::<u8>::empty());
        assert(done@.map_values(|p: Vec<u8>| p@).push(cur@) =~~= spec_split(c, s@.take(0)));
    }
    for i in 0..n
        invariant
            n == s@.len(),
            done@.map_values(|p: Vec<u8>| p@).push(cur@) =~~= spec_split(c, s@.take(i as int)),
    {
        proof {
            assert(s@.take(i + 1).drop_last() =~= s@.take(i as int));
            assert(s@.take(i + 1).last() == s@[i as int]);
        }
        if is_split_byte(c, s[i]) {
            let ghost old_done = done@;
            let ghost old_cur = cur@;
            done.push(cur);
            cur = Vec::new();
            proof {
                assert(done@.map_values(|p: Vec<u8>| p@) =~~= old_done.map_values(
                    |p: Vec<u8>| p@,
                ).push(old_cur));
                assert(done@.map_values(|p: Vec<u8>| p@).push(cur@) =~~= spec_split(
                    c,
                    s@.take(i + 1),
                ));
            }
        } else {
            let ghost old_cur = cur@;
            cur.push(s[i]);
            proof {
                let prev = spec_split(c, s@.take(i as int));
                let here = spec_split(c, s@.take(i + 1));
                assert(prev.last() == old_cur);
                assert(here =~~= prev.update(prev.len() - 1, old_cur.push(s@[i as int])));
                assert(done@.map_values(|p: Vec<u8>| p@).push(cur@) =~~= here);
            }
        }
    }
    proof {
        assert(s@.take(n as int) =~= s@);
    }
    done.push(cur);
    done
}

/// Which bytes the parsers trim from both ends of a piece.
#[derive(Clone, Copy, Debug, PartialEq, Eq, Structural)]
pub enum TrimSet {
    /// ASCII whitespace, as around a bare number.
    Spaces,
    /// The decoration of a mixer token: brackets and the percent sign.
    VolumeMarks,
}

/// Whether `b` is trimmed under `t`.
pub open spec fn spec_is_trim_byte(t: TrimSet, b: u8) -> bool {
    match t {
        TrimSet::Spaces => spec_is_ascii_space(b),
        TrimSet::VolumeMarks => b == 91 || b == 93 || b == 37,  // '[' ']' '%'
    }
}

/// `s` without its leading trimmed bytes.
pub open spec fn spec_trim_start(t: TrimSet, s: Seq<u8>) -> Seq<u8>
    decreases s.len(),
{
    if s.len() > 0 && spec_is_trim_byte(t, s[0]) {
        spec_trim_start(t, s.drop_first())
    } else {
        s
    }
}

/// `s` without its trailing trimmed bytes.
pub open spec fn spec_trim_end(t: TrimSet, s: Seq<u8>) -> Seq<u8>
    decreases s.len(),
{
    if s.len() > 0 && spec_is_trim_byte(t, s.last()) {
        spec_trim_end(t, s.drop_last())
    } else {
        s
    }
}

/// `s` without trimmed bytes at either end.
pub open spec fn spec_trim(t: TrimSet, s: Seq<u8>) -> Seq<u8> {
    spec_trim_end(t, spec_trim_start(t, s))
}

proof fn lemma_trim_start_at(t: TrimSet, s: Seq<u8>, lo: int)
    requires
        0 <= lo <= s.len(),
        forall|j: int| 0 <= j < lo ==> spec_is_trim_byte(t, s[j]),
        lo < s.len() ==> !spec_is_trim_byte(t, s[lo]),
    ensures
        spec_trim_start(t, s) =~= s.skip(lo),
    decreases lo,
{
    if lo == 0 {
        assert(s.skip(0) =~= s);
    } else {
        assert(s.drop_first() =~= s.skip(1));
        lemma_trim_start_at(t, s.skip(1), lo - 1);
        assert(s.skip(1).skip(lo - 1) =~= s.skip(lo));
    }
}

proof fn lemma_trim_end_at(t: TrimSet, s: Seq<u8>, hi: int)
    requires
        0 <= hi <= s.len(),
        forall|j: int| hi <= j < s.len() ==> spec_is_trim_byte(t, s[j]),
        hi > 0 ==> !spec_is_trim_byte(t, s[hi - 1]),
    ensures
        spec_trim_end(t, s) =~= s.take(hi),
    decreases s.len(),
{
    if hi == s.len() {
        if hi == 0 {
        } else {
            assert(s.take(hi) =~= s);
        }
    } else {
        lemma_trim_end_at(t, s.drop_last(), hi);
        assert(s.drop_last().take(hi) =~= s.take(hi));
    }
}

/// Runtime byte test matching [`spec_is_trim_byte`].
fn is_trim_byte(t: TrimSet, b: u8) -> (r: bool)
    ensures
        r == spec_is_trim_byte(t, b),
{
    match t {
        TrimSet::Spaces => b == 32 || (9 <= b && b <= 13),
        TrimSet::VolumeMarks => b == 91 || b == 93 || b == 37,
    }
}

/// Copy `s` without the bytes `t` trims at either end, exactly as
/// [`spec_trim`] keeps them.
pub fn trim_bytes(t: TrimSet, s: &[u8]) -> (out: Vec<u8>)
    ensures
        out@ == spec_trim(t, s@),
{
    let n = s.len();
    let mut lo: usize = 0;
    while lo < n && is_trim_byte(t, s[lo])
        invariant
            n == s@.len(),
            lo <= n,
            forall|j: int| 0 <= j < lo ==> spec_is_trim_byte(t, s@[j]),
        decreases n - lo,
    {
        lo = lo + 1;
    }
    let mut hi: usize = n;
    while hi > lo && is_trim_byte(t, s[hi - 1])
        invariant
            n == s@.len(),
            lo <= hi <= n,
            forall|j: int| hi <= j < n ==> spec_is_trim_byte(t, s@[j]),
        decreases hi,
    {
        hi = hi - 1;
    }
    proof {
        lemma_trim_start_at(t, s@, lo as int);
        lemma_trim_end_at(t, s@.skip(lo as int), hi - lo);
        assert(s@.skip(lo as int).take(hi - lo) =~= s@.subrange(lo as int, hi as int));
    }
    let mut out: Vec<u8> = Vec::new();
    let mut k = lo;
    while k < hi
        invariant
            lo <= k <= hi <= s@.len(),
            out@ =~= s@.subrange(lo as int, k as int),
        decreases hi - k,
    {
        out.push(s[k]);
        proof {
            assert(out@ =~= s@.subrange(lo as int, k + 1));
        }
        k = k + 1;
    }
    out
}

/// Whether `b` is an ASCII digit.
pub open spec fn spec_is_digit(b: u8) -> bool {
    48 <= b <= 57
}

/// Whether `s` is all ASCII digits.
pub open spec fn spec_all_digits(s: Seq<u8>) -> bool {
    forall|i: int| 0 <= i < s.len() ==> spec_is_digit(#[trigger] s[i])
}

/// The number the digit string `s` writes in decimal.
pub open spec fn spec_digits_value(s: Seq<u8>) -> int
    decreases s.len(),
{
    if s.len() == 0 {
        0
    } else {
        spec_digits_value(s.drop_last()) * 10 + (s.last() - 48)
    }
}

proof fn lemma_digits_value_nonneg(s: Seq<u8>)
    requires
        spec_all_digits(s),
    ensures
        spec_digits_value(s) >= 0,
    decreases s.len(),
{
    if s.len() > 0 {
        assert(spec_all_digits(s.drop_last()));
        lemma_digits_value_nonneg(s.drop_last());
    }
}

proof fn lemma_digits_value_prefix_le(s: Seq<u8>, i: int)
    requires
        spec_all_digits(s),
        0 <= i <= s.len(),
    ensures
        spec_digits_value(s.take(i)) <= spec_digits_value(s),
    decreases s.len(),
{
    if i == s.len() {
        assert(s.take(i) =~= s);
    } else {
        assert(spec_all_digits(s.drop_last()));
        assert(s.drop_last().take(i) =~= s.take(i));
        lemma_digits_value_prefix_le(s.drop_last(), i);
        lemma_digits_value_nonneg(s.drop_last());
    }
}

/// The number `s` writes, or `None` where `s` is not a number the
/// standard unsigned parse accepts: an optional leading `+`, then one or
/// more decimal digits, the value fitting the type.
pub open spec fn spec_parse_u32(s: Seq<u8>) -> Option<u32> {
    let d = if s.len() > 0 && s[0] == 43 {  // '+'
        s.drop_first()
    } else {
        s
    };
    if d.len() > 0 && spec_all_digits(d) && spec_digits_value(d) <= u32::MAX {
        Some(spec_digits_value(d) as u32)
    } else {
        None
    }
}

/// Parse `s` exactly as [`spec_parse_u32`] reads it.
pub fn parse_u32_bytes(s: &[u8]) -> (r: Option<u32>)
    ensures
        r == spec_parse_u32(s@),
{
    let n = s.len();
    let start: usize = if n > 0 && s[0] == 43 {
        1
    } else {
        0
    };
    let ghost d = if s@.len() > 0 && s@[0] == 43 {
        s@.drop_first()
    } else {
        s@
    };
    proof {
        assert(d =~= s@.subrange(start as int, n as int));
    }
    if start == n {
        return None;
    }
    let mut acc: u64 = 0;
    let mut i = start;
    while i < n
        invariant
            start <= i <= n,
            n == s@.len(),
            d == (if s@.len() > 0 && s@[0] == 43 {
                s@.drop_first()
            } else {
                s@
            }),
            d =~= s@.subrange(start as int, n as int),
            acc <= u32::MAX,
            spec_all_digits(d.take(i - start)),
            acc == spec_digits_value(d.take(i - start)),
        decreases n - i,
    {
        let b = s[i];
        if b < 48 || b > 57 {
            proof {
                assert(d[i - start] == s@[i as int]);
                assert(!spec_is_digit(d[i - start]));
                assert(!spec_all_digits(d));
            }
            return None;
        }
        proof {
            assert(d.take(i - start + 1).drop_last() =~= d.take(i - start));
            assert(d.take(i - start + 1).last() == s@[i as int]);
        }
        acc = acc * 10 + ((b - 48) as u64);
        if acc > 0xffff_ffff {
            proof {
                if spec_all_digits(d) {
                    lemma_digits_value_prefix_le(d, i - start + 1);
                }
            }
            return None;
        }
        i = i + 1;
    }
    proof {
        assert(d.take(n - start) =~= d);
    }
    Some(acc as u32)
}

/// The brightness a machine-readable report states: the fourth
/// `,`/`%`-separated field, as a number.  A report of fewer fields
/// reads as the fallback level 50; a fourth field that is no number
/// reads as `None`.
pub open spec fn spec_brightness_report_value(s: Seq<u8>) -> Option<u32> {
    let fields = spec_split(SplitClass::FieldDelims, s);
    if fields.len() > 3 {
        spec_parse_u32(spec_trim(TrimSet::Spaces, fields[3]))
    } else {
        Some(50)
    }
}

/// Read a brightness report exactly as [`spec_brightness_report_value`]
/// does.
pub fn brightness_report_value(s: &[u8]) -> (r: Option<u32>)
    ensures
        r == spec_brightness_report_value(s@),
{
    let fields = split_bytes(SplitClass::FieldDelims, s);
    proof {
        assert(fields@.map_values(|p: Vec<u8>| p@).len() == fields@.len());
    }
    if fields.len() > 3 {
        proof {
            assert(fields@.map_values(|p: Vec<u8>| p@)[3] == fields@[3]@);
        }
        let trimmed = trim_bytes(TrimSet::Spaces, fields[3].as_slice());
        parse_u32_bytes(trimmed.as_slice())
    } else {
        Some(50)
    }
}

/// The bytes of `s` after its last newline.
pub open spec fn spec_after_last_newline(s: Seq<u8>) -> Seq<u8>
    decreases s.len(),
{
    if s.len() == 0 {
        s
    } else if s.last() == 10 {
        Seq::empty()
    } else {
        spec_after_last_newline(s.drop_last()).push(s.last())
    }
}

proof fn lemma_after_last_newline_at(s: Seq<u8>, k: int)
    requires
        0 <= k <= s.len(),
        k > 0 ==> s[k - 1] == 10,
        forall|j: int| k <= j < s.len() ==> s[j] != 10,
    ensures
        spec_after_last_newline(s) =~= s.skip(k),
    decreases s.len(),
{
    if s.len() == 0 {
    } else if k == s.len() {
        assert(s.last() == 10);
    } else {
        lemma_after_last_newline_at(s.drop_last(), k);
        assert(s.drop_last().skip(k) =~= s.skip(k).drop_last());
    }
}

/// The last line of `s`, as the standard line iterator cuts it: lines
/// end at a newline, a final newline closes the last line rather than
/// opening an empty one, and a line ending in carriage return + newline
/// loses the carriage return.  Empty input has no lines at all.
pub open spec fn spec_last_line(s: Seq<u8>) -> Option<Seq<u8>> {
    if s.len() == 0 {
        None
    } else {
        let terminated = s.last() == 10;
        let body = if terminated {
            s.drop_last()
        } else {
            s
        };
        let raw = spec_after_last_newline(body);
        Some(
            if terminated && raw.len() > 0 && raw.last() == 13 {
                raw.drop_last()
            } else {
                raw
            },
        )
    }
}

/// Copy the last line of `s`, exactly as [`spec_last_line`] reads it.
pub fn last_line(s: &[u8]) -> (r: Option<Vec<u8>>)
    ensures
        match r {
            Some(v) => spec_last_line(s@) == Some(v@),
            None => spec_last_line(s@) is None,
        },
{
    let n = s.len();
    if n == 0 {
        return None;
    }
    let terminated = s[n - 1] == 10;
    let body_end = if terminated {
        n - 1
    } else {
        n
    };
    let mut start = body_end;
    while start > 0 && s[start - 1] != 10
        invariant
            start <= body_end <= s@.len(),
            forall|j: int| start <= j < body_end ==> s@[j] != 10,
        decreases start,
    {
        start = start - 1;
    }
    proof {
        let body = if s@.last() == 10 {
            s@.drop_last()
        } else {
            s@
        };
        assert(body =~= s@.take(body_end as int));
        lemma_after_last_newline_at(body, start as int);
        assert(body.skip(start as int) =~= s@.subrange(start as int, body_end as int));
    }
    let line_end = if terminated && body_end > start && s[body_end - 1] == 13 {
        body_end - 1
    } else {
        body_end
    };
    let mut out: Vec<u8> = Vec::new();
    let mut k = start;
    while k < line_end
        invariant
            start <= k <= line_end <= s@.len(),
            out@ =~= s@.subrange(start as int, k as int),
        decreases line_end - k,
    {
        out.push(s[k]);
        proof {
            assert(out@ =~= s@.subrange(start as int, k + 1));
        }
        k = k + 1;
    }
    proof {
        let raw = s@.subrange(start as int, body_end as int);
        if line_end < body_end {
            assert(out@ =~= raw.drop_last());
        } else {
            assert(out@ =~= raw);
        }
    }
    Some(out)
}

/// Whether `t` contains a decibel mark: a `d` directly followed by `B`.
pub open spec fn spec_contains_db(t: Seq<u8>) -> bool {
    exists|i: int| 0 <= i && i + 1 < t.len() && #[trigger] t[i] == 100 && t[i + 1] == 66
}

/// The token of a mixer line that carries the volume: it is bracketed —
/// it opens with `[` — and is no decibel reading.
pub open spec fn spec_is_volume_token(t: Seq<u8>) -> bool {
    t.len() > 0 && t[0] == 91 && !spec_contains_db(t)
}

/// Runtime test matching [`spec_is_volume_token`].
fn is_volume_token(t: &[u8]) -> (r: bool)
    ensures
        r == spec_is_volume_token(t@),
{
    let n = t.len();
    if n == 0 || t[0] != 91 {
        return false;
    }
    let mut i: usize = 0;
    while i + 1 < n
        invariant
            n == t@.len(),
            i < n,
            forall|j: int| 0 <= j < i ==> !(#[trigger] t@[j] == 100 && t@[j + 1] == 66),
        decreases n - i,
    {
        if t[i] == 100 && t[i + 1] == 66 {
            return false;
        }
        i = i + 1;
    }
    true
}

/// The first whitespace-separated piece of a line that passes
/// [`spec_is_volume_token`].  Empty pieces never pass, so this is also
/// the first passing *token* of the line.
pub open spec fn spec_first_volume_token(parts: Seq<Seq<u8>>) -> Option<Seq<u8>>
    decreases parts.len(),
{
    if parts.len() == 0 {
        None
    } else if spec_is_volume_token(parts[0]) {
        Some(parts[0])
    } else {
        spec_first_volume_token(parts.drop_first())
    }
}

/// The index of the first piece passing [`spec_is_volume_token`], if one
/// does.
fn find_volume_token(parts: &Vec<Vec<u8>>) -> (r: Option<usize>)
    ensures
        match r {
            Some(ix) => ix < parts@.len() && spec_first_volume_token(
                parts@.map_values(|p: Vec<u8>| p@),
            ) == Some(parts@[ix as int]@),
            None => spec_first_volume_token(parts@.map_values(|p: Vec<u8>| p@)) is None,
        },
{
    let ghost ps = parts@.map_values(|p: Vec<u8>| p@);
    proof {
        assert(ps.skip(0) =~~= ps);
    }
    let n = parts.len();
    for i in 0..n
        invariant
            n == parts@.len(),
            ps == parts@.map_values(|p: Vec<u8>| p@),
            spec_first_volume_token(ps) == spec_first_volume_token(ps.skip(i as int)),
        {
        proof {
            assert(ps.skip(i as int).drop_first() =~~= ps.skip(i + 1));
            assert(ps.skip(i as int)[0] == ps[i as int]);
        }
        if is_volume_token(parts[i].as_slice()) {
            return Some(i);
        }
    }
    proof {
        assert(ps.skip(n as int) =~~= Seq::<Seq<u8>>::empty());
    }
    None
}

/// The volume a mixer report states: on its last line, the first
/// bracketed, non-decibel token, stripped of its brackets and percent
/// sign, as a number.  A last line without such a token reads as the
/// fallback level 50; empty output, or a token that is no number, reads
/// as `None`.
pub open spec fn spec_volume_report_value(s: Seq<u8>) -> Option<u32> {
    match spec_last_line(s) {
        None => None,
        Some(line) => match spec_first_volume_token(spec_split(SplitClass::Whitespace, line)) {
            None => Some(50),
            Some(t) => spec_parse_u32(
                spec_trim(TrimSet::Spaces, spec_trim(TrimSet::VolumeMarks, t)),
            ),
        },
    }
}

/// Read a volume report exactly as [`spec_volume_report_value`] does.
pub fn volume_report_value(s: &[u8]) -> (r: Option<u32>)
    ensures
        r == spec_volume_report_value(s@),
{
    let line = match last_line(s) {
        Some(v) => v,
        None => {
            return None;
        },
    };
    let parts = split_bytes(SplitClass::Whitespace, line.as_slice());
    match find_volume_token(&parts) {
        None => Some(50),
        Some(ix) => {
            let unmarked = trim_bytes(TrimSet::VolumeMarks, parts[ix].as_slice());
            let trimmed = trim_bytes(TrimSet::Spaces, unmarked.as_slice());
            parse_u32_bytes(trimmed.as_slice())
        },
    }
}

} // verus!
