use vstd::prelude::*;

verus! {

broadcast use vstd::string::group_string_axioms;

/// Why a capture selection was refused.
#[derive(Clone, Copy, Debug, PartialEq, Eq)]
pub enum CaptureError {
    /// FAST3D_CAPTURE_DIR and FAST3D_CAPTURE_SEQUENCE are mutually exclusive.
    ModesExclusive,
    /// FAST3D_CAPTURE_DIR is empty.
    EmptyDirectory,
    /// FAST3D_CAPTURE_FRAMES is required with FAST3D_CAPTURE_DIR.
    FramesRequired,
    /// A frame serial is not an unsigned 64-bit integer.
    InvalidSerial,
    /// Capture frame serials start at one.
    ZeroSerial,
    /// Capture requires at least one frame serial.
    NoSerials,
    /// FAST3D_CAPTURE_SEQUENCE is empty.
    EmptySequencePath,
    /// FAST3D_CAPTURE_WARMUP_FRAMES is not an unsigned 32-bit integer.
    InvalidWarmup,
    /// FAST3D_CAPTURE_PRESENTATIONS is required with FAST3D_CAPTURE_SEQUENCE.
    PresentationsRequired,
    /// FAST3D_CAPTURE_PRESENTATIONS must be after FAST3D_CAPTURE_WARMUP_FRAMES.
    PresentationsBeforeWarmup,
    /// No completed frames: no sequence can be written.
    NoCompletedFrames,
}

/// `char::is_whitespace`: the Unicode White_Space property.
pub open spec fn is_ws(c: char) -> bool {
    ||| ('\u{9}' <= c <= '\u{d}')
    ||| c == ' '
    ||| c == '\u{85}'
    ||| c == '\u{a0}'
    ||| c == '\u{1680}'
    ||| ('\u{2000}' <= c <= '\u{200a}')
    ||| c == '\u{2028}'
    ||| c == '\u{2029}'
    ||| c == '\u{202f}'
    ||| c == '\u{205f}'
    ||| c == '\u{3000}'
}

fn is_whitespace(c: char) -> (r: bool)
    ensures
        r == is_ws(c),
{
    ('\u{9}' <= c && c <= '\u{d}') || c == ' ' || c == '\u{85}' || c == '\u{a0}' || c == '\u{1680}'
        || ('\u{2000}' <= c && c <= '\u{200a}') || c == '\u{2028}' || c == '\u{2029}' || c
        == '\u{202f}' || c == '\u{205f}' || c == '\u{3000}'
}

/// `str::trim`: without leading and trailing whitespace.
pub open spec fn trim_start(s: Seq<char>) -> Seq<char>
    decreases s.len(),
{
    if s.len() > 0 && is_ws(s[0]) {
        trim_start(s.drop_first())
    } else {
        s
    }
}

pub open spec fn trim_end(s: Seq<char>) -> Seq<char>
    decreases s.len(),
{
    if s.len() > 0 && is_ws(s.last()) {
        trim_end(s.drop_last())
    } else {
        s
    }
}

pub open spec fn trim(s: Seq<char>) -> Seq<char> {
    trim_end(trim_start(s))
}

/// `str::split(',')`: the pieces between commas (one piece for a string without any).
pub open spec fn split_commas(s: Seq<char>) -> Seq<Seq<char>>
    decreases s.len(),
{
    if s.len() == 0 {
        seq![Seq::<char>::empty()]
    } else {
        let p = split_commas(s.drop_last());
        if s.last() == ',' {
            p.push(Seq::empty())
        } else {
            p.update(p.len() - 1, p.last().push(s.last()))
        }
    }
}

pub open spec fn is_digit(c: char) -> bool {
    '0' <= c <= '9'
}

pub open spec fn digits_value(s: Seq<char>) -> int
    decreases s.len(),
{
    if s.len() == 0 {
        0
    } else {
        digits_value(s.drop_last()) * 10 + (s.last() as int - '0' as int)
    }
}

/// The unsigned integer a string spells for `str::parse` (an optional `+`, then at least one
/// ASCII digit, nothing else), when it is at most `max`.
pub open spec fn parse_uint(s: Seq<char>, max: int) -> Option<int> {
    parse_digits(
        if s.len() > 0 && s[0] == '+' {
            s.drop_first()
        } else {
            s
        },
        max,
    )
}

/// The value of a nonempty run of ASCII digits, when it is at most `max`.
pub open spec fn parse_digits(d: Seq<char>, max: int) -> Option<int> {
    if d.len() == 0 || !(forall|i: int| 0 <= i < d.len() ==> is_digit(#[trigger] d[i]))
        || digits_value(d) > max {
        None
    } else {
        Some(digits_value(d))
    }
}

/// The serial one comma-separated field gives. `lenient` is the capture-list grammar (a blank
/// field is skipped, and serials start at one); otherwise every field must be a serial.
pub open spec fn field_result(f: Seq<char>, lenient: bool) -> Result<Option<u64>, CaptureError> {
    let t = trim(f);
    if lenient && t.len() == 0 {
        Ok(None)
    } else {
        match parse_uint(t, u64::MAX as int) {
            None => Err(CaptureError::InvalidSerial),
            Some(v) => if lenient && v == 0 {
                Err(CaptureError::ZeroSerial)
            } else {
                Ok(Some(v as u64))
            },
        }
    }
}

/// The serials of the fields, in order; the first bad field's error.
pub open spec fn fields_result(fs: Seq<Seq<char>>, lenient: bool) -> Result<Seq<u64>, CaptureError>
    decreases fs.len(),
{
    if fs.len() == 0 {
        Ok(Seq::empty())
    } else {
        match fields_result(fs.drop_last(), lenient) {
            Err(e) => Err(e),
            Ok(vs) => match field_result(fs.last(), lenient) {
                Err(e) => Err(e),
                Ok(None) => Ok(vs),
                Ok(Some(v)) => Ok(vs.push(v)),
            },
        }
    }
}

/// The serials a comma-separated list spells, in the order written.
pub open spec fn serial_list(s: Seq<char>, lenient: bool) -> Result<Seq<u64>, CaptureError> {
    fields_result(split_commas(s), lenient)
}

pub open spec fn strictly_increasing(s: Seq<u64>) -> bool {
    forall|i: int, j: int| 0 <= i < j < s.len() ==> s[i] < s[j]
}

/// `out` is the sorted, duplicate-free form of `vs`.
pub open spec fn sorted_set_of(out: Seq<u64>, vs: Seq<u64>) -> bool {
    &&& strictly_increasing(out)
    &&& forall|x: u64| out.contains(x) <==> vs.contains(x)
}

proof fn lemma_trim_start_skip(s: Seq<char>, k: int)
    requires
        0 <= k <= s.len(),
        forall|i: int| 0 <= i < k ==> is_ws(#[trigger] s[i]),
        k == s.len() || !is_ws(s[k]),
    ensures
        trim_start(s) == s.subrange(k, s.len() as int),
    decreases k,
{
    if k == 0 {
        assert(s.subrange(0, s.len() as int) =~= s);
    } else {
        let t = s.drop_first();
        assert forall|i: int| 0 <= i < k - 1 implies is_ws(#[trigger] t[i]) by {
            assert(t[i] == s[i + 1]);
        }
        if k - 1 < t.len() {
            assert(t[k - 1] == s[k]);
        }
        lemma_trim_start_skip(t, k - 1);
        assert(t.subrange(k - 1, t.len() as int) =~= s.subrange(k, s.len() as int));
    }
}

proof fn lemma_trim_end_skip(s: Seq<char>, k: int)
    requires
        0 <= k <= s.len(),
        forall|i: int| k <= i < s.len() ==> is_ws(#[trigger] s[i]),
        k == 0 || !is_ws(s[k - 1]),
    ensures
        trim_end(s) == s.subrange(0, k),
    decreases s.len() - k,
{
    if k == s.len() {
        assert(s.subrange(0, k) =~= s);
    } else {
        let t = s.drop_last();
        assert forall|i: int| k <= i < t.len() implies is_ws(#[trigger] t[i]) by {
            assert(t[i] == s[i]);
        }
        if k > 0 {
            assert(t[k - 1] == s[k - 1]);
        }
        assert(is_ws(s[s.len() - 1]));
        lemma_trim_end_skip(t, k);
        assert(t.subrange(0, k) =~= s.subrange(0, k));
    }
}

/// The bounds of `cs[start..end]` trimmed.
fn trim_range(cs: &Vec<char>, start: usize, end: usize) -> (r: (usize, usize))
    requires
        start <= end <= cs@.len(),
    ensures
        start <= r.0 <= r.1 <= end,
        trim(cs@.subrange(start as int, end as int)) == cs@.subrange(r.0 as int, r.1 as int),
{
    let ghost f = cs@.subrange(start as int, end as int);
    let mut a = start;
    while a < end && is_whitespace(cs[a])
        invariant
            start <= a <= end <= cs@.len(),
            forall|i: int| start <= i < a ==> is_ws(#[trigger] cs@[i]),
        decreases end - a,
    {
        a = a + 1;
    }
    proof {
        assert forall|i: int| 0 <= i < a - start implies is_ws(#[trigger] f[i]) by {
            assert(f[i] == cs@[start + i]);
        }
        if a < end {
            assert(f[a - start] == cs@[a as int]);
        }
        lemma_trim_start_skip(f, a - start);
        assert(f.subrange(a - start, f.len() as int) =~= cs@.subrange(a as int, end as int));
    }
    let ghost g = cs@.subrange(a as int, end as int);
    let mut b = end;
    while b > a && is_whitespace(cs[b - 1])
        invariant
            start <= a <= b <= end <= cs@.len(),
            forall|i: int| b <= i < end ==> is_ws(#[trigger] cs@[i]),
        decreases b - a,
    {
        b = b - 1;
    }
    proof {
        assert forall|i: int| b - a <= i < g.len() implies is_ws(#[trigger] g[i]) by {
            assert(g[i] == cs@[a + i]);
        }
        if b > a {
            assert(g[b - a - 1] == cs@[b - 1]);
        }
        lemma_trim_end_skip(g, b - a);
        assert(g.subrange(0, b - a) =~= cs@.subrange(a as int, b as int));
    }
    (a, b)
}

proof fn lemma_digits_monotone(s: Seq<char>, k: int)
    requires
        0 <= k <= s.len(),
        forall|i: int| 0 <= i < s.len() ==> is_digit(#[trigger] s[i]),
    ensures
        digits_value(s.subrange(0, k)) <= digits_value(s),
        digits_value(s) >= 0,
    decreases s.len(),
{
    if s.len() > 0 {
        let t = s.drop_last();
        assert forall|i: int| 0 <= i < t.len() implies is_digit(#[trigger] t[i]) by {
            assert(t[i] == s[i]);
        }
        if k < s.len() {
            lemma_digits_monotone(t, k);
            assert(t.subrange(0, k) =~= s.subrange(0, k));
        } else {
            lemma_digits_monotone(t, 0);
            assert(s.subrange(0, k) =~= s);
        }
        assert(is_digit(s[s.len() - 1]));
    } else {
        assert(s.subrange(0, k) =~= s);
    }
}

/// `cs[a..b]` parsed as an unsigned integer of at most `max` (see `parse_uint`).
fn parse_range(cs: &Vec<char>, a: usize, b: usize, max: u64) -> (r: Option<u64>)
    requires
        a <= b <= cs@.len(),
    ensures
        match parse_uint(cs@.subrange(a as int, b as int), max as int) {
            None => r is None,
            Some(v) => r == Some(v as u64) && 0 <= v <= max,
        },
{
    let ghost s = cs@.subrange(a as int, b as int);
    let mut d0 = a;
    if a < b && cs[a] == '+' {
        d0 = a + 1;
    }
    let ghost d = cs@.subrange(d0 as int, b as int);
    proof {
        if a < b && cs@[a as int] == '+' {
            assert(s.len() > 0 && s[0] == '+');
            assert(s.drop_first() =~= d);
        } else {
            assert(s =~= d);
        }
    }
    if d0 == b {
        return None;
    }
    let mut value: u64 = 0;
    let mut k = d0;
    while k < b
        invariant
            d0 <= k <= b <= cs@.len(),
            d == cs@.subrange(d0 as int, b as int),
            parse_uint(cs@.subrange(a as int, b as int), max as int) == parse_digits(d, max as int),
            forall|i: int| d0 <= i < k ==> is_digit(#[trigger] cs@[i]),
            value == digits_value(cs@.subrange(d0 as int, k as int)),
            value <= max,
        decreases b - k,
    {
        let c = cs[k];
        if !('0' <= c && c <= '9') {
            proof {
                assert(d[k - d0] == cs@[k as int]);
                assert(!is_digit(d[k - d0]));
            }
            return None;
        }
        let dig = (c as u32 - '0' as u32) as u64;
        let ghost pre = cs@.subrange(d0 as int, k as int);
        let ghost pre1 = cs@.subrange(d0 as int, k + 1);
        proof {
            assert(pre1.drop_last() =~= pre);
            assert(pre1.last() == c);
        }
        if dig > max || value > (max - dig) / 10 {
            proof {
                assert(value * 10 + dig > max) by (nonlinear_arith)
                    requires
                        dig > max || value > (max - dig) / 10,
                        dig <= 9,
                        value >= 0,
                ;
                if forall|i: int| 0 <= i < d.len() ==> is_digit(#[trigger] d[i]) {
                    lemma_digits_monotone(d, k + 1 - d0);
                    assert(d.subrange(0, k + 1 - d0) =~= pre1);
                }
            }
            return None;
        }
        proof {
            assert(value * 10 + dig <= max) by (nonlinear_arith)
                requires
                    value <= (max - dig) / 10,
                    dig <= max,
            ;
        }
        value = value * 10 + dig;
        k = k + 1;
    }
    proof {
        assert(cs@.subrange(d0 as int, b as int) =~= d);
        assert forall|i: int| 0 <= i < d.len() implies is_digit(#[trigger] d[i]) by {
            assert(d[i] == cs@[d0 + i]);
        }
    }
    Some(value)
}

/// Add `v` to a strictly increasing list, keeping it strictly increasing.
fn insert_sorted(out: &mut Vec<u64>, v: u64)
    requires
        strictly_increasing(old(out)@),
    ensures
        strictly_increasing(final(out)@),
        forall|x: u64| final(out)@.contains(x) <==> (old(out)@.contains(x) || x == v),
{
    let mut i: usize = 0;
    while i < out.len() && out[i] < v
        invariant
            i <= out@.len(),
            out@ == old(out)@,
            forall|j: int| 0 <= j < i ==> #[trigger] out@[j] < v,
        decreases out@.len() - i,
    {
        i = i + 1;
    }
    if i < out.len() && out[i] == v {
        return ;
    }
    proof {
        assert(i < out@.len() ==> out@[i as int] > v);
    }
    out.insert(i, v);
    proof {
        let o = old(out)@;
        let n = out@;
        assert(n == o.insert(i as int, v));
        assert forall|p: int, q: int| 0 <= p < q < n.len() implies n[p] < n[q] by {
            if q < i {
            } else if q == i {
                assert(o[p] < v);
            } else if p < i {
                assert(o[p] < v);
                assert(v < o[i as int] || q - 1 == i as int || o[i as int] <= o[q - 1]);
            } else if p == i {
                assert(o[i as int] <= o[q - 1]);
            } else {
            }
        }
        assert forall|x: u64| n.contains(x) <==> (o.contains(x) || x == v) by {
            if n.contains(x) {
                let k = choose|k: int| 0 <= k < n.len() && n[k] == x;
                if k < i {
                    assert(o[k] == x);
                } else if k > i {
                    assert(o[k - 1] == x);
                }
            }
            if o.contains(x) {
                let k = choose|k: int| 0 <= k < o.len() && o[k] == x;
                if k < i {
                    assert(n[k] == x);
                } else {
                    assert(n[k + 1] == x);
                }
            }
            if x == v {
                assert(n[i as int] == v);
            }
        }
    }
}

/// The characters of a string.
fn chars_of(s: &str) -> (v: Vec<char>)
    ensures
        v@ == s@,
{
    let mut v: Vec<char> = Vec::new();
    for c in it: s.chars()
        invariant
            it.seq() == s@,
            v@ == it.seq().subrange(0, it.index()),
    {
        v.push(c);
        proof {
            assert(v@ =~= it.seq().subrange(0, it.index() + 1));
        }
    }
    proof {
        assert(v@ =~= s@);
    }
    v
}

/// One field of a list: its serial (added to `out`), nothing, or the error it is.
fn process_field(cs: &Vec<char>, start: usize, end: usize, lenient: bool, out: &mut Vec<u64>) -> (r: Result<Option<u64>, CaptureError>)
    requires
        start <= end <= cs@.len(),
        strictly_increasing(old(out)@),
    ensures
        r == field_result(cs@.subrange(start as int, end as int), lenient),
        strictly_increasing(final(out)@),
        forall|x: u64| final(out)@.contains(x) <==> (old(out)@.contains(x) || r == Ok::<Option<u64>, CaptureError>(Some(x))),
{
    let (a, b) = trim_range(cs, start, end);
    if lenient && a == b {
        return Ok(None);
    }
    let ghost t = trim(cs@.subrange(start as int, end as int));
    assert(t.len() == b - a);
    let p = parse_range(cs, a, b, u64::MAX);
    assert(t == cs@.subrange(a as int, b as int));
    match p {
        None => {
            assert(parse_uint(t, u64::MAX as int) is None);
            Err(CaptureError::InvalidSerial)
        },
        Some(v) => {
            assert(parse_uint(t, u64::MAX as int) == Some(v as int));
            if lenient && v == 0 {
                Err(CaptureError::ZeroSerial)
            } else {
                insert_sorted(out, v);
                Ok(Some(v))
            }
        },
    }
}

proof fn lemma_split_step(s: Seq<char>, i: int)
    requires
        0 <= i < s.len(),
    ensures
        split_commas(s.subrange(0, i + 1)) == ({
            let p = split_commas(s.subrange(0, i));
            if s[i] == ',' {
                p.push(Seq::empty())
            } else {
                p.update(p.len() - 1, p.last().push(s[i]))
            }
        }),
{
    let t = s.subrange(0, i + 1);
    assert(t.drop_last() =~= s.subrange(0, i));
    assert(t.last() == s[i]);
}

proof fn lemma_split_nonempty(s: Seq<char>)
    ensures
        split_commas(s).len() >= 1,
    decreases s.len(),
{
    if s.len() > 0 {
        lemma_split_nonempty(s.drop_last());
    }
}

/// Parse a comma-separated serial list (see `serial_list`) into its sorted, duplicate-free
/// serials, or the first bad field's error.
fn serials_from(value: &str, lenient: bool) -> (r: Result<Vec<u64>, CaptureError>)
    ensures
        match serial_list(value@, lenient) {
            Err(e) => r == Err::<Vec<u64>, CaptureError>(e),
            Ok(vs) => r matches Ok(out) && sorted_set_of(out@, vs),
        },
{
    let cs = chars_of(value);
    let mut out: Vec<u64> = Vec::new();
    let mut err: Option<CaptureError> = None;
    let ghost mut done: Seq<Seq<char>> = Seq::empty();
    let ghost mut vs: Seq<u64> = Seq::empty();
    let mut start: usize = 0;
    let mut i: usize = 0;
    proof {
        assert(cs@.subrange(0, 0) =~= Seq::<char>::empty());
        assert(split_commas(cs@.subrange(0, 0)) =~= done.push(cs@.subrange(0, 0)));
    }
    while i < cs.len()
        invariant
            start <= i <= cs@.len(),
            split_commas(cs@.subrange(0, i as int)) == done.push(cs@.subrange(start as int, i as int)),
            err is None ==> fields_result(done, lenient) == Ok::<Seq<u64>, CaptureError>(vs)
                && sorted_set_of(out@, vs),
            err matches Some(e) ==> fields_result(done, lenient) == Err::<Seq<u64>, CaptureError>(e),
        decreases cs@.len() - i,
    {
        proof {
            lemma_split_step(cs@, i as int);
        }
        if cs[i] == ',' {
            let ghost f = cs@.subrange(start as int, i as int);
            let ghost nd = done.push(f);
            proof {
                assert(nd.drop_last() =~= done);
                assert(nd.last() == f);
            }
            if err.is_none() {
                let r = process_field(&cs, start, i, lenient, &mut out);
                match r {
                    Err(e) => {
                        err = Some(e);
                    },
                    Ok(None) => {},
                    Ok(Some(v)) => {
                        proof {
                            let old_vs = vs;
                            vs = vs.push(v);
                            assert(vs.drop_last() =~= old_vs);
                            assert forall|x: u64| out@.contains(x) <==> vs.contains(x) by {
                                if x == v {
                                    assert(vs[vs.len() - 1] == v);
                                }
                                if vs.contains(x) && x != v {
                                    let k = choose|k: int| 0 <= k < vs.len() && vs[k] == x;
                                    assert(vs.drop_last()[k] == x);
                                }
                                if vs.drop_last().contains(x) {
                                    let k = choose|k: int| 0 <= k < vs.drop_last().len() && vs.drop_last()[k] == x;
                                    assert(vs[k] == x);
                                }
                            }
                        }
                    },
                }
            }
            proof {
                done = nd;
                assert(cs@.subrange(i + 1, i + 1) =~= Seq::<char>::empty());
                assert(split_commas(cs@.subrange(0, i + 1)) =~= done.push(cs@.subrange(i + 1, i + 1)));
            }
            start = i + 1;
        } else {
            proof {
                assert(cs@.subrange(start as int, i + 1) =~= cs@.subrange(start as int, i as int).push(cs@[i as int]));
                assert(split_commas(cs@.subrange(0, i + 1)) =~= done.push(cs@.subrange(start as int, i + 1)));
            }
        }
        i = i + 1;
    }
    let ghost f = cs@.subrange(start as int, cs@.len() as int);
    let ghost nd = done.push(f);
    proof {
        assert(cs@.subrange(0, cs@.len() as int) =~= cs@);
        assert(nd.drop_last() =~= done);
        assert(nd.last() == f);
        assert(split_commas(value@) == nd);
    }
    if let Some(e) = err {
        return Err(e);
    }
    let r = process_field(&cs, start, cs.len(), lenient, &mut out);
    match r {
        Err(e) => Err(e),
        Ok(None) => Ok(out),
        Ok(Some(v)) => {
            proof {
                let vs2 = vs.push(v);
                assert forall|x: u64| out@.contains(x) <==> vs2.contains(x) by {
                    if x == v {
                        assert(vs2[vs2.len() - 1] == v);
                    }
                    if vs2.contains(x) && x != v {
                        let k = choose|k: int| 0 <= k < vs2.len() && vs2[k] == x;
                        assert(vs2.drop_last()[k] == x);
                    }
                    if vs.contains(x) {
                        let k = choose|k: int| 0 <= k < vs.len() && vs[k] == x;
                        assert(vs2[k] == x);
                    }
                }
            }
            Ok(out)
        },
    }
}

/// A capture serial list (`FAST3D_CAPTURE_FRAMES`, `FAST3D_CAPTURE_PRESENTATIONS`): comma
/// separated, blank fields skipped (so a trailing comma is fine), each a serial of at least one;
/// at least one serial in all. The result is sorted and duplicate-free.
pub open spec fn serials_outcome(value: Seq<char>, out: Result<Vec<u64>, CaptureError>) -> bool {
    match serial_list(value, true) {
        Err(e) => out == Err::<Vec<u64>, CaptureError>(e),
        Ok(vs) => if vs.len() == 0 {
            out == Err::<Vec<u64>, CaptureError>(CaptureError::NoSerials)
        } else {
            out matches Ok(o) && sorted_set_of(o@, vs) && o@.len() > 0
        },
    }
}

/// Parse a capture serial list (see `serials_outcome`).
pub fn parse_serials(value: &str) -> (r: Result<Vec<u64>, CaptureError>)
    ensures
        serials_outcome(value@, r),
{
    match serials_from(value, true) {
        Err(e) => Err(e),
        Ok(out) => {
            if out.len() == 0 {
                proof {
                    if let Ok(vs) = serial_list(value@, true) {
                        if vs.len() > 0 {
                            assert(vs.contains(vs[0]));
                            assert(out@.contains(vs[0]));
                        }
                    }
                }
                Err(CaptureError::NoSerials)
            } else {
                proof {
                    if let Ok(vs) = serial_list(value@, true) {
                        if vs.len() == 0 {
                            assert(out@.contains(out@[0]));
                        }
                    }
                }
                Ok(out)
            }
        },
    }
}

/// Per-frame capture: write each selected frame to its own file in `directory`.
pub struct FrameSelection {
    directory: String,
    frames: Vec<u64>,
}

impl FrameSelection {
    pub closed spec fn wf(&self) -> bool {
        strictly_increasing(self.frames@)
    }

    pub closed spec fn frames_view(&self) -> Seq<u64> {
        self.frames@
    }

    pub closed spec fn directory_view(&self) -> Seq<char> {
        self.directory@
    }

    /// Is frame `serial` selected?
    pub fn contains(&self, serial: u64) -> (r: bool)
        requires
            self.wf(),
        ensures
            r == self.frames_view().contains(serial),
    {
        let mut lo: usize = 0;
        let mut hi: usize = self.frames.len();
        while lo < hi
            invariant
                lo <= hi <= self.frames@.len(),
                strictly_increasing(self.frames@),
                forall|i: int| 0 <= i < lo ==> #[trigger] self.frames@[i] < serial,
                forall|i: int| hi <= i < self.frames@.len() ==> #[trigger] self.frames@[i] > serial,
            decreases hi - lo,
        {
            let mid = lo + (hi - lo) / 2;
            let m = self.frames[mid];
            if m == serial {
                return true;
            } else if m < serial {
                lo = mid + 1;
            } else {
                hi = mid;
            }
        }
        proof {
            if self.frames@.contains(serial) {
                let k = choose|k: int| 0 <= k < self.frames@.len() && self.frames@[k] == serial;
                assert(k < lo || k >= hi);
            }
        }
        false
    }

    pub fn directory(&self) -> (r: &String)
        ensures
            r@ == self.directory_view(),
    {
        &self.directory
    }

    pub fn frames(&self) -> (r: &Vec<u64>)
        ensures
            r@ == self.frames_view(),
    {
        &self.frames
    }
}

/// Sequence capture: record every frame up to the last presentation into one file at `path`.
pub struct SequenceSelection {
    path: String,
    warmup_frames: u32,
    presentations: Vec<u64>,
}

/// The warmup count `FAST3D_CAPTURE_WARMUP_FRAMES` gives: 0 when unset, else its trimmed text as
/// a u32.
pub open spec fn warmup_of(warmup: Option<Seq<char>>) -> Option<int> {
    match warmup {
        None => Some(0),
        Some(w) => parse_uint(trim(w), u32::MAX as int),
    }
}

pub open spec fn opt_view(s: Option<String>) -> Option<Seq<char>> {
    match s {
        Some(x) => Some(x@),
        None => None,
    }
}

/// What parsing a sequence selection gives: an error for an empty path, a bad warmup, a missing,
/// bad or empty presentation list, or a presentation not after the warmup frames; otherwise the
/// selection of that path, warmup and presentation set.
pub open spec fn sequence_outcome(
    path: Seq<char>,
    warmup: Option<Seq<char>>,
    presentations: Option<Seq<char>>,
    r: Result<SequenceSelection, CaptureError>,
) -> bool {
    if path.len() == 0 {
        r == Err::<SequenceSelection, CaptureError>(CaptureError::EmptySequencePath)
    } else {
        match warmup_of(warmup) {
            None => r == Err::<SequenceSelection, CaptureError>(CaptureError::InvalidWarmup),
            Some(w) => match presentations {
                None => r == Err::<SequenceSelection, CaptureError>(CaptureError::PresentationsRequired),
                Some(p) => match serial_list(p, true) {
                    Err(e) => r == Err::<SequenceSelection, CaptureError>(e),
                    Ok(vs) => if vs.len() == 0 {
                        r == Err::<SequenceSelection, CaptureError>(CaptureError::NoSerials)
                    } else if (forall|i: int| 0 <= i < vs.len() ==> #[trigger] vs[i] > w) {
                        r matches Ok(sel) && sel.wf() && sel.path_view() == path && sel.warmup_view() == w
                            && sorted_set_of(sel.presentations_view(), vs)
                    } else {
                        r == Err::<SequenceSelection, CaptureError>(CaptureError::PresentationsBeforeWarmup)
                    },
                },
            },
        }
    }
}

impl SequenceSelection {
    pub closed spec fn wf(&self) -> bool {
        &&& strictly_increasing(self.presentations@)
        &&& self.presentations@.len() > 0
        &&& self.presentations@[0] > self.warmup_frames
    }

    pub closed spec fn presentations_view(&self) -> Seq<u64> {
        self.presentations@
    }

    pub closed spec fn warmup_view(&self) -> u32 {
        self.warmup_frames
    }

    pub closed spec fn path_view(&self) -> Seq<char> {
        self.path@
    }

    /// Parse a sequence selection: a nonempty path, an optional warmup count, and a required
    /// presentation list whose first serial comes after the warmup frames.
    pub fn parse(path: String, warmup: Option<String>, presentations: Option<String>) -> (r: Result<SequenceSelection, CaptureError>)
        ensures
            sequence_outcome(path@, opt_view(warmup), opt_view(presentations), r),
    {
        if path.as_str().is_empty() {
            return Err(CaptureError::EmptySequencePath);
        }
        let warmup_frames: u32 = match &warmup {
            None => 0,
            Some(w) => {
                let cs = chars_of(w.as_str());
                let (a, b) = trim_range(&cs, 0, cs.len());
                proof {
                    assert(cs@.subrange(0, cs@.len() as int) =~= w@);
                }
                match parse_range(&cs, a, b, 0xFFFF_FFFF) {
                    None => return Err(CaptureError::InvalidWarmup),
                    Some(v) => v as u32,
                }
            },
        };
        let ghost pv = opt_view(presentations);
        let presentations = match presentations {
            None => return Err(CaptureError::PresentationsRequired),
            Some(p) => match parse_serials(p.as_str()) {
                Err(e) => return Err(e),
                Ok(ps) => ps,
            },
        };
        if presentations[0] <= warmup_frames as u64 {
            proof {
                if let Ok(vs) = serial_list(pv->0, true) {
                    assert(presentations@.contains(presentations@[0]));
                    let i = choose|i: int| 0 <= i < vs.len() && vs[i] == presentations@[0];
                    assert(!(vs[i] > warmup_frames));
                }
            }
            return Err(CaptureError::PresentationsBeforeWarmup);
        }
        proof {
            if let Ok(vs) = serial_list(pv->0, true) {
                assert forall|i: int| 0 <= i < vs.len() implies #[trigger] vs[i] > warmup_frames by {
                    assert(vs.contains(vs[i]));
                    let k = choose|k: int| 0 <= k < presentations@.len() && presentations@[k] == vs[i];
                    if k > 0 {
                        assert(presentations@[0] < presentations@[k]);
                    }
                }
            }
        }
        Ok(SequenceSelection { path, warmup_frames, presentations })
    }
}

impl SequenceSelection {
    /// The last frame to record: the last presentation.
    pub fn last_serial(&self) -> (r: u64)
        requires
            self.wf(),
        ensures
            r == self.presentations_view().last(),
    {
        self.presentations[self.presentations.len() - 1]
    }

    pub fn warmup_frames(&self) -> (r: u32)
        ensures
            r == self.warmup_view(),
    {
        self.warmup_frames
    }

    pub fn presentations(&self) -> (r: &Vec<u64>)
        ensures
            r@ == self.presentations_view(),
    {
        &self.presentations
    }

    pub fn path(&self) -> (r: &String)
        ensures
            r@ == self.path_view(),
    {
        &self.path
    }

    /// The sequence an interrupted recording of `frames` completed frames saves: the warmup
    /// capped below the frame count, the presentations already reached — or, when none was, the
    /// last completed frame. Nothing can be saved without a completed frame.
    pub fn prefix(&self, frames: u64) -> (r: Result<(u32, Vec<u64>), CaptureError>)
        requires
            self.wf(),
        ensures
            frames == 0 ==> r == Err::<(u32, Vec<u64>), CaptureError>(CaptureError::NoCompletedFrames),
            frames > 0 ==> (r matches Ok((w, ps)) && {
                &&& w == (if self.warmup_view() <= frames - 1 { self.warmup_view() as int } else { frames - 1 })
                &&& if self.presentations_view()[0] <= frames {
                    &&& ps@ == self.presentations_view().subrange(0, ps@.len() as int)
                    &&& ps@.len() > 0
                    &&& forall|i: int| 0 <= i < ps@.len() ==> #[trigger] ps@[i] <= frames
                    &&& ps@.len() == self.presentations_view().len() || self.presentations_view()[ps@.len() as int] > frames
                } else {
                    ps@ == seq![frames]
                }
            }),
    {
        if frames == 0 {
            return Err(CaptureError::NoCompletedFrames);
        }
        let warmup: u32 = if (self.warmup_frames as u64) <= frames - 1 {
            self.warmup_frames
        } else {
            (frames - 1) as u32
        };
        let mut ps: Vec<u64> = Vec::new();
        let mut i: usize = 0;
        while i < self.presentations.len() && self.presentations[i] <= frames
            invariant
                i <= self.presentations@.len(),
                ps@ == self.presentations@.subrange(0, i as int),
                forall|j: int| 0 <= j < i ==> #[trigger] self.presentations@[j] <= frames,
            decreases self.presentations@.len() - i,
        {
            ps.push(self.presentations[i]);
            i = i + 1;
            assert(ps@ =~= self.presentations@.subrange(0, i as int));
        }
        if ps.len() == 0 {
            ps.push(frames);
            assert(ps@ =~= seq![frames]);
        }
        Ok((warmup, ps))
    }
}

/// How far a sequence recording has got: the frames presented and recorded so far.
pub struct SequenceProgress {
    pub completed_frames: u64,
}

impl SequenceProgress {
    pub fn new() -> (p: SequenceProgress)
        ensures
            p.completed_frames == 0,
    {
        SequenceProgress { completed_frames: 0 }
    }

    /// One more frame recorded; true once that was the last selected frame.
    pub fn present(&mut self, selection: &SequenceSelection) -> (done: bool)
        requires
            selection.wf(),
            old(self).completed_frames < u64::MAX,
        ensures
            final(self).completed_frames == old(self).completed_frames + 1,
            done == (final(self).completed_frames == selection.presentations_view().last()),
    {
        self.completed_frames = self.completed_frames + 1;
        self.completed_frames == selection.last_serial()
    }

    /// What finishing saves: the warmup and presentations of the completed prefix, and whether
    /// the recording reached its last frame.
    pub fn finish(&self, selection: &SequenceSelection) -> (r: Result<(u32, Vec<u64>, bool), CaptureError>)
        requires
            selection.wf(),
        ensures
            self.completed_frames == 0 ==> r == Err::<(u32, Vec<u64>, bool), CaptureError>(
                CaptureError::NoCompletedFrames,
            ),
            self.completed_frames > 0 ==> (r matches Ok((w, ps, complete)) && {
                &&& complete == (self.completed_frames == selection.presentations_view().last())
                &&& w == (if selection.warmup_view() <= self.completed_frames - 1 {
                    selection.warmup_view() as int
                } else {
                    self.completed_frames - 1
                })
                &&& if selection.presentations_view()[0] <= self.completed_frames {
                    &&& ps@ == selection.presentations_view().subrange(0, ps@.len() as int)
                    &&& ps@.len() > 0
                    &&& forall|i: int| 0 <= i < ps@.len() ==> #[trigger] ps@[i] <= self.completed_frames
                    &&& ps@.len() == selection.presentations_view().len()
                        || selection.presentations_view()[ps@.len() as int] > self.completed_frames
                } else {
                    ps@ == seq![self.completed_frames]
                }
            }),
    {
        match selection.prefix(self.completed_frames) {
            Err(e) => Err(e),
            Ok((w, ps)) => Ok((w, ps, self.completed_frames == selection.last_serial())),
        }
    }
}

/// A capture request from the environment: per-frame files or one recorded sequence.
pub enum Selection {
    Frames(FrameSelection),
    Sequence(SequenceSelection),
}

impl Selection {
    /// Parse a capture request: a directory (with its frame list) or a sequence path (with its
    /// warmup and presentations), never both; no request at all is `None`.
    pub fn parse(
        directory: Option<String>,
        frames: Option<String>,
        sequence: Option<String>,
        warmup: Option<String>,
        presentations: Option<String>,
    ) -> (r: Result<Option<Selection>, CaptureError>)
        ensures
            directory is Some && sequence is Some ==> r == Err::<Option<Selection>, CaptureError>(CaptureError::ModesExclusive),
            directory is None && sequence is None ==> r matches Ok(None),
            sequence is None ==> (directory matches Some(d) ==> {
                if d@.len() == 0 {
                    r == Err::<Option<Selection>, CaptureError>(CaptureError::EmptyDirectory)
                } else {
                    match frames {
                        None => r == Err::<Option<Selection>, CaptureError>(CaptureError::FramesRequired),
                        Some(f) => match serial_list(f@, true) {
                            Err(e) => r == Err::<Option<Selection>, CaptureError>(e),
                            Ok(vs) => if vs.len() == 0 {
                                r == Err::<Option<Selection>, CaptureError>(CaptureError::NoSerials)
                            } else {
                                r matches Ok(Some(Selection::Frames(fs))) && fs.wf() && fs.directory_view() == d@
                                    && sorted_set_of(fs.frames_view(), vs)
                            },
                        },
                    }
                }
            }),
            directory is None ==> (sequence matches Some(p) ==> match r {
                Ok(Some(Selection::Sequence(sel))) => sequence_outcome(p@, opt_view(warmup), opt_view(presentations), Ok(sel)),
                Err(e) => sequence_outcome(p@, opt_view(warmup), opt_view(presentations), Err(e)),
                _ => false,
            }),
    {
        match (directory, sequence) {
            (Some(_), Some(_)) => Err(CaptureError::ModesExclusive),
            (Some(directory), None) => {
                if directory.as_str().is_empty() {
                    return Err(CaptureError::EmptyDirectory);
                }
                let f = match frames {
                    None => return Err(CaptureError::FramesRequired),
                    Some(f) => f,
                };
                match parse_serials(f.as_str()) {
                    Err(e) => Err(e),
                    Ok(frames) => Ok(Some(Selection::Frames(FrameSelection { directory, frames }))),
                }
            },
            (None, Some(path)) => match SequenceSelection::parse(path, warmup, presentations) {
                Err(e) => Err(e),
                Ok(s) => Ok(Some(Selection::Sequence(s))),
            },
            (None, None) => Ok(None),
        }
    }
}

/// The per-frame capture request of the render context: a directory and a required frame list in
/// which every field is a serial (0 included; no blank fields), kept as a set.
pub struct CaptureSelection {
    directory: String,
    frames: Vec<u64>,
}

impl CaptureSelection {
    pub closed spec fn frames_view(&self) -> Seq<u64> {
        self.frames@
    }

    pub closed spec fn directory_view(&self) -> Seq<char> {
        self.directory@
    }

    /// Parse the request: no directory is no capture; an empty directory or a missing or bad
    /// frame list is an error.
    pub fn parse(directory: Option<String>, frames: Option<String>) -> (r: Result<Option<CaptureSelection>, CaptureError>)
        ensures
            directory is None ==> r matches Ok(None),
            directory matches Some(d) ==> {
                if d@.len() == 0 {
                    r == Err::<Option<CaptureSelection>, CaptureError>(CaptureError::EmptyDirectory)
                } else {
                    match frames {
                        None => r == Err::<Option<CaptureSelection>, CaptureError>(CaptureError::FramesRequired),
                        Some(f) => match serial_list(f@, false) {
                            Err(e) => r == Err::<Option<CaptureSelection>, CaptureError>(e),
                            Ok(vs) => r matches Ok(Some(cs)) && cs.directory_view() == d@
                                && sorted_set_of(cs.frames_view(), vs),
                        },
                    }
                }
            },
    {
        let directory = match directory {
            None => return Ok(None),
            Some(d) => d,
        };
        if directory.as_str().is_empty() {
            return Err(CaptureError::EmptyDirectory);
        }
        let f = match frames {
            None => return Err(CaptureError::FramesRequired),
            Some(f) => f,
        };
        match serials_from(f.as_str(), false) {
            Err(e) => Err(e),
            Ok(frames) => Ok(Some(CaptureSelection { directory, frames })),
        }
    }

    pub fn frames(&self) -> (r: &Vec<u64>)
        ensures
            r@ == self.frames_view(),
    {
        &self.frames
    }

    pub fn directory(&self) -> (r: &String)
        ensures
            r@ == self.directory_view(),
    {
        &self.directory
    }
}

} // verus!
