//! Reading the multiplexer's configured index origins out of the free-form
//! text its option query prints. The reading is permissive: each of the
//! two fields is looked for at the start of any line, so either may be
//! absent and they may come in either order; a field that is missing, or
//! whose number does not fit a usize, counts as 0.
use vstd::prelude::*;
use vstd::string::*;
use crate::config::TmuxBaseIndices;
use crate::text::is_dec_digit;

verus! {

/// The first position at or past `at` that does not hold a decimal digit
/// (the length of the string when digits run to its end).
pub open spec fn digit_run_end(s: Seq<char>, at: int) -> int
    decreases s.len() - at
        when 0 <= at <= s.len()
{
    if at >= s.len() {
        at
    } else if is_dec_digit(s[at]) {
        digit_run_end(s, at + 1)
    } else {
        at
    }
}

/// The number the digits s[from .. end) write in decimal.
pub open spec fn digits_val(s: Seq<char>, from: int, end: int) -> int
    decreases end - from
        when from <= end
{
    if end <= from {
        0
    } else {
        digits_val(s, from, end - 1) * 10 + (s[end - 1] as int - 48)
    }
}

/// True when pat occurs in s starting exactly at position `at`.
pub open spec fn starts_with_at(s: Seq<char>, pat: Seq<char>, at: int) -> bool {
    0 <= at && at + pat.len() <= s.len() && s.subrange(at, at + pat.len()) == pat
}

/// True at position 0 and right after every line break: the positions a
/// field may stand at.
pub open spec fn is_line_start(s: Seq<char>, p: int) -> bool {
    p == 0 || s[p - 1] == '\n'
}

/// True when a field stands at position p: the position opens a line and
/// holds the field's label followed by at least one digit.
pub open spec fn field_matches_at(s: Seq<char>, pat: Seq<char>, p: int) -> bool {
    is_line_start(s, p) && starts_with_at(s, pat, p) && digit_run_end(s, p + pat.len()) > p
        + pat.len()
}

/// The first position at or past `at` where the field stands, or -1 when
/// it stands nowhere.
pub open spec fn field_pos(s: Seq<char>, pat: Seq<char>, at: int) -> int
    decreases s.len() - at
        when 0 <= at <= s.len()
{
    if at >= s.len() {
        -1
    } else if field_matches_at(s, pat, at) {
        at
    } else {
        field_pos(s, pat, at + 1)
    }
}

/// The value a field names: the number after the first occurrence of its
/// label at a line start, when that number fits a usize, else 0.
pub open spec fn parsed_field(s: Seq<char>, pat: Seq<char>) -> int {
    let p = field_pos(s, pat, 0);
    if p >= 0 {
        let v = digits_val(s, p + pat.len(), digit_run_end(s, p + pat.len()));
        if v <= usize::MAX as int {
            v
        } else {
            0
        }
    } else {
        0
    }
}

/// The window origin the output names, wherever its line stands.
pub open spec fn parsed_base_index(s: Seq<char>) -> int {
    parsed_field(s, "base-index "@)
}

/// The pane origin the output names, wherever its line stands.
pub open spec fn parsed_pane_base_index(s: Seq<char>) -> int {
    parsed_field(s, "pane-base-index "@)
}

proof fn lemma_digit_run_end_props(s: Seq<char>, at: int)
    requires
        0 <= at <= s.len(),
    ensures
        at <= digit_run_end(s, at) <= s.len(),
        forall|k: int| at <= k < digit_run_end(s, at) ==> is_dec_digit(s[k]),
    decreases s.len() - at,
{
    if at < s.len() && is_dec_digit(s[at]) {
        lemma_digit_run_end_props(s, at + 1);
    }
}

fn starts_with_pat(s: &str, pat: &str, at: usize) -> (r: bool)
    ensures
        r == starts_with_at(s@, pat@, at as int),
{
    let slen = s.unicode_len();
    let plen = pat.unicode_len();
    if at > slen || plen > slen - at {
        return false;
    }
    let mut k: usize = 0;
    while k < plen
        invariant
            at + plen <= slen,
            slen == s@.len(),
            plen == pat@.len(),
            k <= plen,
            forall|x: int| 0 <= x < k ==> s@[at + x] == pat@[x],
        decreases plen - k,
    {
        if s.get_char(at + k) != pat.get_char(k) {
            proof {
                assert(s@.subrange(at as int, at + pat@.len())[k as int] != pat@[k as int]);
            }
            return false;
        }
        k += 1;
    }
    proof {
        assert(s@.subrange(at as int, at + pat@.len()) =~= pat@);
    }
    true
}

fn scan_digit_run_end(s: &str, at: usize) -> (r: usize)
    requires
        at <= s@.len(),
    ensures
        r == digit_run_end(s@, at as int),
        at <= r <= s@.len(),
    decreases s@.len() - at,
{
    let len = s.unicode_len();
    if at >= len {
        return at;
    }
    let c = s.get_char(at);
    if '0' <= c && c <= '9' {
        scan_digit_run_end(s, at + 1)
    } else {
        at
    }
}

fn find_field(s: &str, pat: &str, at: usize) -> (r: Option<usize>)
    requires
        at <= s@.len(),
    ensures
        match r {
            Some(p) => p as int == field_pos(s@, pat@, at as int) && at <= p < s@.len()
                && field_matches_at(s@, pat@, p as int),
            None => field_pos(s@, pat@, at as int) == -1,
        },
    decreases s@.len() - at,
{
    let len = s.unicode_len();
    if at >= len {
        return None;
    }
    let at_line_start = at == 0 || s.get_char(at - 1) == '\n';
    if at_line_start && starts_with_pat(s, pat, at) {
        let plen = pat.unicode_len();
        let dend = scan_digit_run_end(s, at + plen);
        if dend > at + plen {
            return Some(at);
        }
    }
    proof {
        assert(!field_matches_at(s@, pat@, at as int));
    }
    find_field(s, pat, at + 1)
}

fn parse_field(s: &str, pat: &str) -> (r: usize)
    ensures
        r as int == parsed_field(s@, pat@),
{
    match find_field(s, pat, 0) {
        Some(p) => {
            let len = s.unicode_len();
            let plen = pat.unicode_len();
            proof {
                assert(p + plen <= len);
            }
            let dend = scan_digit_run_end(s, p + plen);
            proof {
                lemma_digit_run_end_props(s@, p as int + plen as int);
            }
            digits_value_capped(s, p + plen, dend)
        },
        None => 0,
    }
}

#[verifier::loop_isolation(false)]
fn digits_value_capped(s: &str, from: usize, to: usize) -> (r: usize)
    requires
        from <= to <= s@.len(),
        forall|k: int| from <= k < to ==> is_dec_digit(s@[k]),
    ensures
        r as int == (if digits_val(s@, from as int, to as int) <= usize::MAX as int {
            digits_val(s@, from as int, to as int)
        } else {
            0
        }),
{
    let mut acc: usize = 0;
    let mut overflow = false;
    let mut i: usize = from;
    while i < to
        invariant
            from <= i <= to,
            !overflow ==> acc as int == digits_val(s@, from as int, i as int),
            overflow ==> digits_val(s@, from as int, i as int) > usize::MAX as int,
        decreases to - i,
    {
        let c = s.get_char(i);
        proof {
            assert(is_dec_digit(s@[i as int]));
        }
        let d: usize = ((c as u32) - 48) as usize;
        let ghost dv_i = digits_val(s@, from as int, i as int);
        proof {
            assert(digits_val(s@, from as int, i as int + 1) == dv_i * 10 + d);
        }
        if !overflow {
            match acc.checked_mul(10) {
                Some(x) => {
                    match x.checked_add(d) {
                        Some(y) => {
                            acc = y;
                        },
                        None => {
                            overflow = true;
                        },
                    }
                },
                None => {
                    overflow = true;
                    proof {
                        assert(dv_i * 10 + d > usize::MAX as int);
                    }
                },
            }
        } else {
            proof {
                assert(dv_i * 10 >= dv_i + 9) by (nonlinear_arith)
                    requires
                        dv_i > 0,
                ;
            }
        }
        i += 1;
    }
    if overflow {
        0
    } else {
        acc
    }
}

/// Reads the two index origins out of the option query's output. Each
/// field is looked for at the start of any line, so the two may come in
/// either order; whatever cannot be read counts as 0.
pub fn parse_base_indices(output: &str) -> (r: TmuxBaseIndices)
    ensures
        r.base_index as int == parsed_base_index(output@),
        r.pane_base_index as int == parsed_pane_base_index(output@),
{
    let base_index = parse_field(output, "base-index ");
    let pane_base_index = parse_field(output, "pane-base-index ");
    TmuxBaseIndices { base_index, pane_base_index }
}

} // verus!
