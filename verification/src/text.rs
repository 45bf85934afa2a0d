//! Small verified utilities on strings: extracting the first whitespace-separated
//! token of a command's output, reading and writing decimal numbers, and
//! clipping a commit SHA to a display prefix.

use vstd::prelude::*;

verus! {

/// ASCII whitespace, as it occurs in git's porcelain output.
pub open spec fn is_ws(c: char) -> bool {
    c == ' ' || c == '\t' || c == '\n' || c == '\r'
}

fn is_ws_exec(c: char) -> (b: bool)
    ensures
        b == is_ws(c),
{
    c == ' ' || c == '\t' || c == '\n' || c == '\r'
}

pub open spec fn is_digit_char(c: char) -> bool {
    '0' <= c && c <= '9'
}

pub open spec fn digit_val(c: char) -> nat {
    if is_digit_char(c) {
        (c as int - '0' as int) as nat
    } else {
        0
    }
}

/// The string with its leading whitespace removed.
pub open spec fn skip_ws(s: Seq<char>) -> Seq<char>
    decreases s.len(),
{
    if s.len() == 0 {
        s
    } else if is_ws(s[0]) {
        skip_ws(s.drop_first())
    } else {
        s
    }
}

/// The longest whitespace-free prefix of the string.
pub open spec fn take_tok(s: Seq<char>) -> Seq<char>
    decreases s.len(),
{
    if s.len() == 0 || is_ws(s[0]) {
        Seq::empty()
    } else {
        seq![s[0]] + take_tok(s.drop_first())
    }
}

/// Whether the string holds at least one whitespace-separated token.
pub open spec fn has_token(s: Seq<char>) -> bool {
    skip_ws(s).len() > 0
}

/// The first whitespace-separated token of the string.
pub open spec fn token_of(s: Seq<char>) -> Seq<char> {
    take_tok(skip_ws(s))
}

pub proof fn lemma_skip_ws_at(s: Seq<char>, i: int)
    requires
        0 <= i <= s.len(),
        forall|k: int| 0 <= k < i ==> is_ws(s[k]),
        i < s.len() ==> !is_ws(s[i]),
    ensures
        skip_ws(s) == s.subrange(i, s.len() as int),
    decreases i,
{
    if i == 0 {
        if s.len() == 0 {
            assert(skip_ws(s) =~= s.subrange(0, s.len() as int));
        } else {
            assert(skip_ws(s) =~= s.subrange(0, s.len() as int));
        }
    } else {
        assert(is_ws(s[0]));
        let t = s.drop_first();
        assert(forall|k: int| 0 <= k < i - 1 ==> is_ws(#[trigger] t[k]));
        lemma_skip_ws_at(t, i - 1);
        assert(t.subrange(i - 1, t.len() as int) =~= s.subrange(i, s.len() as int));
    }
}

pub proof fn lemma_take_tok_at(s: Seq<char>, j: int)
    requires
        0 <= j <= s.len(),
        forall|k: int| 0 <= k < j ==> !is_ws(s[k]),
        j < s.len() ==> is_ws(s[j]),
    ensures
        take_tok(s) == s.subrange(0, j),
    decreases j,
{
    if j == 0 {
        assert(take_tok(s) =~= s.subrange(0, 0));
    } else {
        let t = s.drop_first();
        assert(forall|k: int| 0 <= k < j - 1 ==> !is_ws(#[trigger] t[k]));
        lemma_take_tok_at(t, j - 1);
        assert(take_tok(s) =~= s.subrange(0, j));
    }
}

/// The first whitespace-separated token of `s`, or `None` when `s` is empty or
/// all whitespace.
pub fn first_token(s: &str) -> (r: Option<String>)
    ensures
        match r {
            Some(t) => has_token(s@) && t@ == token_of(s@),
            None => !has_token(s@),
        },
{
    let n: usize = s.unicode_len();
    let mut i: usize = 0;
    while i < n && is_ws_exec(s.get_char(i))
        invariant
            0 <= i <= n,
            n == s@.len(),
            forall|k: int| 0 <= k < i ==> is_ws(s@[k]),
        decreases n - i,
    {
        i = i + 1;
    }
    proof {
        lemma_skip_ws_at(s@, i as int);
    }
    if i == n {
        proof {
            assert(skip_ws(s@) =~= Seq::<char>::empty());
        }
        return None;
    }
    let mut j: usize = i;
    while j < n && !is_ws_exec(s.get_char(j))
        invariant
            i <= j <= n,
            n == s@.len(),
            forall|k: int| i <= k < j ==> !is_ws(s@[k]),
        decreases n - j,
    {
        j = j + 1;
    }
    let tok = s.substring_char(i, j).to_owned();
    proof {
        let tail = s@.subrange(i as int, s@.len() as int);
        assert(forall|k: int| 0 <= k < j - i ==> !is_ws(#[trigger] tail[k]));
        lemma_take_tok_at(tail, j - i);
        assert(tail.subrange(0, j - i) =~= s@.subrange(i as int, j as int));
    }
    Some(tok)
}

pub open spec fn all_digits(s: Seq<char>) -> bool {
    forall|k: int| 0 <= k < s.len() ==> is_digit_char(#[trigger] s[k])
}

/// The value of a decimal digit string.
pub open spec fn dec_val(s: Seq<char>) -> nat
    decreases s.len(),
{
    if s.len() == 0 {
        0
    } else {
        dec_val(s.drop_last()) * 10 + digit_val(s.last())
    }
}

proof fn lemma_dec_val_prefix_le(s: Seq<char>, k: int)
    requires
        0 <= k <= s.len(),
    ensures
        dec_val(s.subrange(0, k)) <= dec_val(s),
    decreases s.len(),
{
    if k == s.len() {
        assert(s.subrange(0, k) =~= s);
    } else {
        let t = s.drop_last();
        assert(s.subrange(0, k) =~= t.subrange(0, k));
        lemma_dec_val_prefix_le(t, k);
    }
}

/// Parses a decimal `u32`: succeeds exactly on non-empty all-digit strings
/// whose value fits.
pub fn parse_u32(s: &str) -> (r: Option<u32>)
    ensures
        match r {
            Some(v) => s@.len() > 0 && all_digits(s@) && v as nat == dec_val(s@),
            None => s@.len() == 0 || !all_digits(s@) || dec_val(s@) > u32::MAX as nat,
        },
{
    let n: usize = s.unicode_len();
    if n == 0 {
        return None;
    }
    let mut acc: u64 = 0;
    let mut i: usize = 0;
    while i < n
        invariant
            0 <= i <= n,
            n == s@.len(),
            forall|k: int| 0 <= k < i ==> is_digit_char(#[trigger] s@[k]),
            acc as nat == dec_val(s@.subrange(0, i as int)),
            acc <= u32::MAX,
        decreases n - i,
    {
        let c = s.get_char(i);
        if !(c >= '0' && c <= '9') {
            return None;
        }
        let d: u64 = (c as u32 - '0' as u32) as u64;
        acc = acc * 10 + d;
        proof {
            let p = s@.subrange(0, i + 1);
            assert(p.drop_last() =~= s@.subrange(0, i as int));
            assert(p.last() == s@[i as int]);
        }
        i = i + 1;
        if acc > u32::MAX as u64 {
            proof {
                lemma_dec_val_prefix_le(s@, i as int);
            }
            return None;
        }
    }
    proof {
        assert(s@.subrange(0, n as int) =~= s@);
    }
    Some(acc as u32)
}

/// The decimal digit sequence of a number.
pub open spec fn dec_digits(n: nat) -> Seq<char>
    decreases n,
{
    if n < 10 {
        seq![digit_to_char(n)]
    } else {
        dec_digits(n / 10) + seq![digit_to_char(n % 10)]
    }
}

pub open spec fn digit_to_char(d: nat) -> char {
    if d == 0 { '0' }
    else if d == 1 { '1' }
    else if d == 2 { '2' }
    else if d == 3 { '3' }
    else if d == 4 { '4' }
    else if d == 5 { '5' }
    else if d == 6 { '6' }
    else if d == 7 { '7' }
    else if d == 8 { '8' }
    else { '9' }
}

fn digit_str(d: u32) -> (r: &'static str)
    requires
        d < 10,
    ensures
        r@ == seq![digit_to_char(d as nat)],
{
    proof {
        reveal_strlit("0");
        reveal_strlit("1");
        reveal_strlit("2");
        reveal_strlit("3");
        reveal_strlit("4");
        reveal_strlit("5");
        reveal_strlit("6");
        reveal_strlit("7");
        reveal_strlit("8");
        reveal_strlit("9");
    }
    if d == 0 { let r = "0"; proof { assert(r@ =~= seq![digit_to_char(d as nat)]); } r }
    else if d == 1 { let r = "1"; proof { assert(r@ =~= seq![digit_to_char(d as nat)]); } r }
    else if d == 2 { let r = "2"; proof { assert(r@ =~= seq![digit_to_char(d as nat)]); } r }
    else if d == 3 { let r = "3"; proof { assert(r@ =~= seq![digit_to_char(d as nat)]); } r }
    else if d == 4 { let r = "4"; proof { assert(r@ =~= seq![digit_to_char(d as nat)]); } r }
    else if d == 5 { let r = "5"; proof { assert(r@ =~= seq![digit_to_char(d as nat)]); } r }
    else if d == 6 { let r = "6"; proof { assert(r@ =~= seq![digit_to_char(d as nat)]); } r }
    else if d == 7 { let r = "7"; proof { assert(r@ =~= seq![digit_to_char(d as nat)]); } r }
    else if d == 8 { let r = "8"; proof { assert(r@ =~= seq![digit_to_char(d as nat)]); } r }
    else { let r = "9"; proof { assert(r@ =~= seq![digit_to_char(d as nat)]); } r }
}

/// Writes a number in decimal.
pub fn decimal_string(n: u32) -> (r: String)
    ensures
        r@ == dec_digits(n as nat),
    decreases n,
{
    if n < 10 {
        digit_str(n).to_owned()
    } else {
        let mut s = decimal_string(n / 10);
        s.append(digit_str(n % 10));
        s
    }
}

/// The first `n` characters of a string, or the whole string when it is
/// shorter.
pub open spec fn clipped_prefix(s: Seq<char>, n: int) -> Seq<char> {
    if s.len() <= n {
        s
    } else {
        s.subrange(0, n)
    }
}

pub fn sha_prefix(s: &str, n: usize) -> (r: String)
    ensures
        r@ == clipped_prefix(s@, n as int),
{
    let l: usize = s.unicode_len();
    if l <= n {
        s.to_owned()
    } else {
        s.substring_char(0, n).to_owned()
    }
}

} // verus!
