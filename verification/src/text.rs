//! Character-level helpers: decimal rendering of indices, whitespace
//! splitting of the global flag string, joining token lists for display,
//! and the views relating executable strings to their mathematical models.
use vstd::prelude::*;
use vstd::string::*;

verus! {

/// The sequence of character sequences a vector of strings stands for.
pub open spec fn tokens_view(v: Seq<String>) -> Seq<Seq<char>> {
    Seq::new(v.len(), |i: int| v[i]@)
}

/// The view of an optional token list.
pub open spec fn opt_tokens_view(o: Option<Vec<String>>) -> Option<Seq<Seq<char>>> {
    match o {
        Some(v) => Some(tokens_view(v@)),
        None => None,
    }
}

/// The view of a command list: each entry is a token list plus the flag
/// saying whether the caller must block on that command.
pub open spec fn cmds_view(v: Seq<(Vec<String>, bool)>) -> Seq<(Seq<Seq<char>>, bool)> {
    Seq::new(v.len(), |i: int| (tokens_view(v[i].0@), v[i].1))
}

/// Pushing a command onto a command list appends its view.
pub broadcast proof fn lemma_cmds_view_push(v: Seq<(Vec<String>, bool)>, p: (Vec<String>, bool))
    ensures
        #[trigger] cmds_view(v.push(p)) == cmds_view(v).push((tokens_view(p.0@), p.1)),
{
    assert(cmds_view(v.push(p)) =~= cmds_view(v).push((tokens_view(p.0@), p.1)));
}

/// Relies on String::push: appends exactly the one character.
#[verifier::external_body]
pub fn push_char(s: &mut String, c: char)
    ensures
        final(s)@ == old(s)@.push(c),
{
    s.push(c)
}

/// True exactly when the two strings hold the same characters.
pub fn str_eq(a: &str, b: &str) -> (r: bool)
    ensures
        r == (a@ == b@),
{
    let alen = a.unicode_len();
    let blen = b.unicode_len();
    if alen != blen {
        return false;
    }
    let mut i: usize = 0;
    while i < alen
        invariant
            alen == a@.len(),
            alen == b@.len(),
            i <= alen,
            forall|k: int| 0 <= k < i ==> a@[k] == b@[k],
        decreases alen - i,
    {
        if a.get_char(i) != b.get_char(i) {
            return false;
        }
        i += 1;
    }
    proof {
        assert(a@ =~= b@);
    }
    true
}

pub open spec fn is_dec_digit(c: char) -> bool {
    '0' <= c && c <= '9'
}

/// The character that writes the decimal digit d.
pub open spec fn dec_digit(d: int) -> char {
    if d == 0 {
        '0'
    } else if d == 1 {
        '1'
    } else if d == 2 {
        '2'
    } else if d == 3 {
        '3'
    } else if d == 4 {
        '4'
    } else if d == 5 {
        '5'
    } else if d == 6 {
        '6'
    } else if d == 7 {
        '7'
    } else if d == 8 {
        '8'
    } else {
        '9'
    }
}

/// The decimal writing of n, without sign and without leading zeros
/// (a single zero for n == 0).
pub open spec fn dec_str(n: int) -> Seq<char>
    decreases n,
{
    if n < 10 {
        seq![dec_digit(n)]
    } else {
        dec_str(n / 10).push(dec_digit(n % 10))
    }
}

fn digit_char(d: u128) -> (c: char)
    requires
        d < 10,
    ensures
        c == dec_digit(d as int),
{
    if d == 0 {
        '0'
    } else if d == 1 {
        '1'
    } else if d == 2 {
        '2'
    } else if d == 3 {
        '3'
    } else if d == 4 {
        '4'
    } else if d == 5 {
        '5'
    } else if d == 6 {
        '6'
    } else if d == 7 {
        '7'
    } else if d == 8 {
        '8'
    } else {
        '9'
    }
}

/// Writes n in decimal.
pub fn u128_to_string(n: u128) -> (r: String)
    ensures
        r@ == dec_str(n as int),
    decreases n,
{
    if n < 10 {
        let mut s = String::new();
        push_char(&mut s, digit_char(n));
        proof {
            assert(s@ =~= dec_str(n as int));
        }
        s
    } else {
        let mut s = u128_to_string(n / 10);
        push_char(&mut s, digit_char(n % 10));
        s
    }
}

/// The parts of s separated by each single space, in order: n spaces make
/// n + 1 parts, and parts may be empty.
pub open spec fn spec_split_spaces(s: Seq<char>) -> Seq<Seq<char>>
    decreases s.len(),
{
    if s.len() == 0 {
        seq![Seq::<char>::empty()]
    } else if s[0] == ' ' {
        seq![Seq::<char>::empty()] + spec_split_spaces(s.drop_first())
    } else {
        let rest = spec_split_spaces(s.drop_first());
        seq![seq![s[0]] + rest[0]] + rest.drop_first()
    }
}

pub proof fn lemma_split_spaces_nonempty(s: Seq<char>)
    ensures
        spec_split_spaces(s).len() >= 1,
    decreases s.len(),
{
    if s.len() != 0 {
        lemma_split_spaces_nonempty(s.drop_first());
    }
}

/// Splits on each single space, as the parts of the global flag string.
pub fn split_spaces(s: &str) -> (r: Vec<String>)
    ensures
        tokens_view(r@) == spec_split_spaces(s@),
{
    let len = s.unicode_len();
    let mut parts: Vec<String> = Vec::new();
    let mut cur = String::new();
    let mut i: usize = 0;
    proof {
        lemma_split_spaces_nonempty(s@);
        assert(s@.skip(0) =~= s@);
        assert(tokens_view(parts@) =~= Seq::<Seq<char>>::empty());
        assert(cur@ + spec_split_spaces(s@)[0] =~= spec_split_spaces(s@)[0]);
        assert(tokens_view(parts@) + seq![spec_split_spaces(s@)[0]] + spec_split_spaces(
            s@,
        ).drop_first() =~= spec_split_spaces(s@));
    }
    while i < len
        invariant
            len == s@.len(),
            i <= len,
            spec_split_spaces(s@) == tokens_view(parts@) + seq![cur@ + spec_split_spaces(s@.skip(i as int))[0]]
                + spec_split_spaces(s@.skip(i as int)).drop_first(),
        decreases len - i,
    {
        let c = s.get_char(i);
        proof {
            assert(s@.skip(i as int).len() > 0);
            assert(s@.skip(i as int)[0] == s@[i as int]);
            assert(s@.skip(i as int).drop_first() =~= s@.skip(i + 1));
            lemma_split_spaces_nonempty(s@.skip(i + 1));
        }
        if c == ' ' {
            let ghost old_parts = parts@;
            let ghost old_cur = cur@;
            parts.push(cur);
            cur = String::new();
            proof {
                assert(tokens_view(parts@) =~= tokens_view(old_parts).push(old_cur));
                assert(old_cur + spec_split_spaces(s@.skip(i as int))[0] =~= old_cur);
                assert(spec_split_spaces(s@) =~= tokens_view(parts@) + seq![
                    cur@ + spec_split_spaces(s@.skip(i + 1))[0],
                ] + spec_split_spaces(s@.skip(i + 1)).drop_first());
            }
        } else {
            let ghost old_cur = cur@;
            push_char(&mut cur, c);
            proof {
                let rest = spec_split_spaces(s@.skip(i + 1));
                assert(spec_split_spaces(s@.skip(i as int)) =~= seq![seq![s@[i as int]] + rest[0]]
                    + rest.drop_first());
                assert(old_cur + (seq![s@[i as int]] + rest[0]) =~= cur@ + rest[0]);
                assert(spec_split_spaces(s@) =~= tokens_view(parts@) + seq![cur@ + rest[0]]
                    + rest.drop_first());
            }
        }
        i += 1;
    }
    let ghost old_parts = parts@;
    let ghost old_cur = cur@;
    proof {
        assert(s@.skip(len as int) =~= Seq::<char>::empty());
        assert(spec_split_spaces(s@.skip(len as int))[0] =~= Seq::<char>::empty());
        assert(old_cur + spec_split_spaces(s@.skip(len as int))[0] =~= old_cur);
        assert(spec_split_spaces(s@) =~= tokens_view(old_parts).push(old_cur));
    }
    parts.push(cur);
    proof {
        assert(tokens_view(parts@) =~= tokens_view(old_parts).push(old_cur));
    }
    parts
}

/// The tokens written one after another with a single space between them.
pub open spec fn spec_join_spaces(toks: Seq<Seq<char>>) -> Seq<char>
    decreases toks.len(),
{
    if toks.len() == 0 {
        Seq::<char>::empty()
    } else if toks.len() == 1 {
        toks[0]
    } else {
        spec_join_spaces(toks.drop_last()) + seq![' '] + toks.last()
    }
}

/// Joins the tokens with single spaces, as the dry-run printer shows a
/// command.
pub fn join_spaces(tokens: &Vec<String>) -> (r: String)
    ensures
        r@ == spec_join_spaces(tokens_view(tokens@)),
{
    let mut out = String::new();
    let mut k: usize = 0;
    while k < tokens.len()
        invariant
            k <= tokens@.len(),
            out@ == spec_join_spaces(tokens_view(tokens@).take(k as int)),
        decreases tokens@.len() - k,
    {
        if k > 0 {
            push_char(&mut out, ' ');
        }
        out.append(tokens[k].as_str());
        proof {
            let full = tokens_view(tokens@);
            assert(full.take(k + 1).drop_last() =~= full.take(k as int));
            assert(full.take(k + 1).last() == tokens@[k as int]@);
            assert(out@ =~= spec_join_spaces(full.take(k + 1)));
        }
        k += 1;
    }
    proof {
        assert(tokens_view(tokens@).take(tokens@.len() as int) =~= tokens_view(tokens@));
    }
    out
}

/// True of the characters that separate the words of a PascalCase name.
pub open spec fn is_ascii_upper(c: char) -> bool {
    'A' <= c && c <= 'Z'
}

/// The ASCII-lowercased counterpart of c; other characters stay as they
/// are.
pub open spec fn spec_lower(c: char) -> char {
    if is_ascii_upper(c) {
        (((c as u8) + 32) as char)
    } else {
        c
    }
}

/// The kebab-case writing of a PascalCase name: every uppercase letter
/// after the first character is preceded by a dash, and all letters are
/// lowercased.
pub open spec fn spec_kebab(s: Seq<char>) -> Seq<char>
    decreases s.len(),
{
    if s.len() == 0 {
        Seq::<char>::empty()
    } else if s.len() > 1 && is_ascii_upper(s.last()) {
        spec_kebab(s.drop_last()) + seq!['-', spec_lower(s.last())]
    } else {
        spec_kebab(s.drop_last()) + seq![spec_lower(s.last())]
    }
}

/// Convert a PascalCase string to a kebab-case string.
pub fn convert_pascal_case_to_kebab_case(input: &str) -> (r: String)
    ensures
        r@ == spec_kebab(input@),
{
    let len = input.unicode_len();
    let mut acc = String::new();
    let mut i: usize = 0;
    while i < len
        invariant
            len == input@.len(),
            i <= len,
            acc@ == spec_kebab(input@.take(i as int)),
        decreases len - i,
    {
        let c = input.get_char(i);
        let upper = 'A' <= c && c <= 'Z';
        if i > 0 && upper {
            push_char(&mut acc, '-');
        }
        let lowered = if upper {
            (((c as u8) + 32) as char)
        } else {
            c
        };
        push_char(&mut acc, lowered);
        proof {
            let pre = input@.take(i + 1);
            assert(pre.drop_last() =~= input@.take(i as int));
            assert(pre.last() == c);
            assert(acc@ =~= spec_kebab(pre));
        }
        i += 1;
    }
    proof {
        assert(input@.take(len as int) =~= input@);
    }
    acc
}

} // verus!
