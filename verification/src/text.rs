use vstd::prelude::*;

verus! {

broadcast use vstd::string::group_string_axioms;

// ---------------------------------------------------------------------------
// Characters
// ---------------------------------------------------------------------------

/// Unicode `White_Space`, the property that `char::is_whitespace` and
/// `str::trim` go by.
pub open spec fn is_whitespace(c: char) -> bool {
    ||| c == '\t' || c == '\n' || c == '\u{0B}' || c == '\u{0C}' || c == '\r' || c == ' '
    ||| c == '\u{85}' || c == '\u{A0}' || c == '\u{1680}'
    ||| ('\u{2000}' <= c && c <= '\u{200A}')
    ||| c == '\u{2028}' || c == '\u{2029}' || c == '\u{202F}' || c == '\u{205F}' || c == '\u{3000}'
}

/// A text that `trim` reduces to the empty text: nothing but white space.
pub open spec fn is_blank_text(s: Seq<char>) -> bool {
    forall|i: int| 0 <= i < s.len() ==> #[trigger] is_whitespace(s[i])
}

/// The lowercase hexadecimal digit of value `d` (for `d < 16`).
pub open spec fn hex_digit(d: nat) -> char {
    if d < 10 {
        (48 + d) as char
    } else {
        (87 + d) as char
    }
}

/// The decimal digits of `n`, most significant first, without leading zeros
/// (what `u64::to_string` writes).
pub open spec fn decimal(n: nat) -> Seq<char>
    decreases n,
{
    if n < 10 {
        seq![hex_digit(n)]
    } else {
        decimal(n / 10).push(hex_digit(n % 10))
    }
}

/// The lowercase hexadecimal digits of `n` without leading zeros (what the
/// `{:x}` format writes).
pub open spec fn lower_hex(n: nat) -> Seq<char>
    decreases n,
{
    if n < 16 {
        seq![hex_digit(n)]
    } else {
        lower_hex(n / 16).push(hex_digit(n % 16))
    }
}

/// Two lowercase hexadecimal digits per byte, high nibble first.
pub open spec fn hex_bytes(b: Seq<u8>) -> Seq<char>
    decreases b.len(),
{
    if b.len() == 0 {
        seq![]
    } else {
        hex_bytes(b.drop_last()) + seq![hex_digit((b.last() / 16) as nat), hex_digit((b.last() % 16) as nat)]
    }
}

/// `s` begins with `p`.
pub open spec fn has_prefix(s: Seq<char>, p: Seq<char>) -> bool {
    p.len() <= s.len() && s.subrange(0, p.len() as int) == p
}

/// Every non-overlapping occurrence of `pat` in `s`, scanning from the left,
/// replaced by `rep` (what `str::replace` computes for a non-empty pattern).
pub open spec fn replace_all(s: Seq<char>, pat: Seq<char>, rep: Seq<char>) -> Seq<char>
    decreases s.len(),
{
    if pat.len() == 0 || s.len() < pat.len() {
        s
    } else if has_prefix(s, pat) {
        rep + replace_all(s.skip(pat.len() as int), pat, rep)
    } else {
        seq![s[0]] + replace_all(s.skip(1), pat, rep)
    }
}

/// Some element of `v` reads `x`.
pub open spec fn contains_text(v: Seq<String>, x: Seq<char>) -> bool {
    exists|i: int| 0 <= i < v.len() && #[trigger] v[i]@ == x
}

// ---------------------------------------------------------------------------
// Basic string operations
// ---------------------------------------------------------------------------

/// `String::push`: appends one character.
#[verifier::external_body]
fn push_char(s: &mut String, c: char)
    ensures
        final(s)@ == old(s)@.push(c),
{
    s.push(c);
}

/// The characters of `s`, in order.
pub fn chars_of(s: &str) -> (out: Vec<char>)
    ensures
        out@ == s@,
{
    let mut out: Vec<char> = Vec::new();
    for c in it: s.chars()
        invariant
            out@ == it.seq().take(it.index() as int),
    {
        out.push(c);
    }
    out
}

/// Whether `c` is Unicode white space.
pub fn is_whitespace_char(c: char) -> (res: bool)
    ensures
        res == is_whitespace(c),
{
    c == '\t' || c == '\n' || c == '\u{0B}' || c == '\u{0C}' || c == '\r' || c == ' '
        || c == '\u{85}' || c == '\u{A0}' || c == '\u{1680}' || ('\u{2000}' <= c && c
        <= '\u{200A}') || c == '\u{2028}' || c == '\u{2029}' || c == '\u{202F}' || c
        == '\u{205F}' || c == '\u{3000}'
}

/// Whether `s.trim().is_empty()`: `s` holds nothing but white space.
pub fn is_blank(s: &str) -> (res: bool)
    ensures
        res == is_blank_text(s@),
{
    let cs = chars_of(s);
    let mut i: usize = 0;
    while i < cs.len()
        invariant
            cs@ == s@,
            i <= cs.len(),
            forall|j: int| 0 <= j < i ==> #[trigger] is_whitespace(cs@[j]),
        decreases cs.len() - i,
    {
        if !is_whitespace_char(cs[i]) {
            return false;
        }
        i = i + 1;
    }
    true
}

/// `a` followed by `b`.
pub fn concat2(a: &str, b: &str) -> (res: String)
    ensures
        res@ == a@ + b@,
{
    let mut r = String::from_str(a);
    r.append(b);
    r
}

/// Appends the characters `cs[from..to]` to `out`.
fn push_chars(out: &mut String, cs: &Vec<char>, from: usize, to: usize)
    requires
        from <= to <= cs.len(),
    ensures
        final(out)@ == old(out)@ + cs@.subrange(from as int, to as int),
{
    let mut i = from;
    while i < to
        invariant
            from <= i <= to <= cs.len(),
            out@ == old(out)@ + cs@.subrange(from as int, i as int),
        decreases to - i,
    {
        proof {
            assert(cs@.subrange(from as int, i + 1) =~= cs@.subrange(from as int, i as int).push(cs@[i as int]));
        }
        push_char(out, cs[i]);
        i = i + 1;
    }
}

/// Whether `s` begins with `p`.
pub fn starts_with(s: &str, p: &str) -> (res: bool)
    ensures
        res == has_prefix(s@, p@),
{
    let cs = chars_of(s);
    let ps = chars_of(p);
    if ps.len() > cs.len() {
        return false;
    }
    let mut i: usize = 0;
    while i < ps.len()
        invariant
            cs@ == s@,
            ps@ == p@,
            ps.len() <= cs.len(),
            i <= ps.len(),
            forall|j: int| 0 <= j < i ==> cs@[j] == ps@[j],
        decreases ps.len() - i,
    {
        if cs[i] != ps[i] {
            assert(s@.subrange(0, p@.len() as int)[i as int] != p@[i as int]);
            return false;
        }
        i = i + 1;
    }
    assert(s@.subrange(0, p@.len() as int) =~= p@);
    true
}

/// Whether `a` and `b` are the same text.
pub fn same_text(a: &str, b: &str) -> (res: bool)
    ensures
        res == (a@ == b@),
{
    let ac = chars_of(a);
    let bc = chars_of(b);
    if ac.len() != bc.len() {
        return false;
    }
    let mut i: usize = 0;
    while i < ac.len()
        invariant
            ac@ == a@,
            bc@ == b@,
            ac.len() == bc.len(),
            i <= ac.len(),
            forall|j: int| 0 <= j < i ==> ac@[j] == bc@[j],
        decreases ac.len() - i,
    {
        if ac[i] != bc[i] {
            return false;
        }
        i = i + 1;
    }
    assert(ac@ =~= bc@);
    true
}

/// Whether `pat` occurs in `cs` at position `at`.
fn matches_at(cs: &Vec<char>, pat: &Vec<char>, at: usize) -> (res: bool)
    requires
        at + pat.len() <= cs.len(),
    ensures
        res == has_prefix(cs@.skip(at as int), pat@),
{
    let mut i: usize = 0;
    while i < pat.len()
        invariant
            at + pat.len() <= cs.len(),
            i <= pat.len(),
            forall|j: int| 0 <= j < i ==> cs@[at + j] == pat@[j],
        decreases pat.len() - i,
    {
        if cs[at + i] != pat[i] {
            assert(cs@.skip(at as int).subrange(0, pat@.len() as int)[i as int] != pat@[i as int]);
            return false;
        }
        i = i + 1;
    }
    assert(cs@.skip(at as int).subrange(0, pat@.len() as int) =~= pat@);
    true
}

proof fn lemma_replace_step_match(s: Seq<char>, at: int, pat: Seq<char>, rep: Seq<char>)
    requires
        0 <= at,
        pat.len() > 0,
        at + pat.len() <= s.len(),
        has_prefix(s.skip(at), pat),
    ensures
        replace_all(s.skip(at), pat, rep) == rep + replace_all(s.skip(at + pat.len()), pat, rep),
{
    assert(s.skip(at).skip(pat.len() as int) =~= s.skip(at + pat.len()));
}

proof fn lemma_replace_step_plain(s: Seq<char>, at: int, pat: Seq<char>, rep: Seq<char>)
    requires
        0 <= at,
        pat.len() > 0,
        at + pat.len() <= s.len(),
        !has_prefix(s.skip(at), pat),
    ensures
        replace_all(s.skip(at), pat, rep) == seq![s[at]] + replace_all(s.skip(at + 1), pat, rep),
{
    assert(s.skip(at).skip(1) =~= s.skip(at + 1));
}

/// `s.replace(pat, rep)` for a non-empty pattern.
pub fn replace(s: &str, pat: &str, rep: &str) -> (res: String)
    requires
        pat@.len() > 0,
    ensures
        res@ == replace_all(s@, pat@, rep@),
{
    let cs = chars_of(s);
    let ps = chars_of(pat);
    let mut out = String::new();
    let mut i: usize = 0;
    assert(cs@.skip(0) =~= cs@);
    while i < cs.len() && cs.len() - i >= ps.len()
        invariant
            cs@ == s@,
            ps@ == pat@,
            ps.len() > 0,
            i <= cs.len(),
            out@ + replace_all(cs@.skip(i as int), ps@, rep@) == replace_all(cs@, ps@, rep@),
        decreases cs.len() - i,
    {
        if matches_at(&cs, &ps, i) {
            proof {
                lemma_replace_step_match(cs@, i as int, ps@, rep@);
            }
            out.append(rep);
            i = i + ps.len();
        } else {
            proof {
                lemma_replace_step_plain(cs@, i as int, ps@, rep@);
            }
            push_char(&mut out, cs[i]);
            i = i + 1;
        }
    }
    assert(replace_all(cs@.skip(i as int), ps@, rep@) == cs@.skip(i as int));
    assert(cs@.skip(i as int) =~= cs@.subrange(i as int, cs.len() as int));
    push_chars(&mut out, &cs, i, cs.len());
    out
}

/// Whether some element of `v` equals `x`.
pub fn contains_string(v: &Vec<String>, x: &str) -> (res: bool)
    ensures
        res == contains_text(v@, x@),
{
    let target = String::from_str(x);
    let mut i: usize = 0;
    while i < v.len()
        invariant
            target@ == x@,
            i <= v.len(),
            forall|j: int| 0 <= j < i ==> #[trigger] v@[j]@ != x@,
        decreases v.len() - i,
    {
        if v[i] == target {
            assert(v@[i as int]@ == x@);
            return true;
        }
        i = i + 1;
    }
    false
}

// ---------------------------------------------------------------------------
// Numbers as text
// ---------------------------------------------------------------------------

/// The digit character of value `d < 16`.
pub fn digit_char(d: u64) -> (c: char)
    requires
        d < 16,
    ensures
        c == hex_digit(d as nat),
{
    let b: u8 = d as u8;
    if b < 10 {
        (48 + b) as char
    } else {
        (87 + b) as char
    }
}

/// `n.to_string()`: the decimal form of `n`.
pub fn decimal_string(n: u64) -> (s: String)
    ensures
        s@ == decimal(n as nat),
    decreases n,
{
    if n < 10 {
        let mut s = String::new();
        push_char(&mut s, digit_char(n));
        assert(s@ =~= seq![hex_digit(n as nat)]);
        s
    } else {
        let mut s = decimal_string(n / 10);
        push_char(&mut s, digit_char(n % 10));
        s
    }
}

/// `format!("{:x}", n)`: the lowercase hexadecimal form of `n`.
pub fn lower_hex_string(n: u64) -> (s: String)
    ensures
        s@ == lower_hex(n as nat),
    decreases n,
{
    if n < 16 {
        let mut s = String::new();
        push_char(&mut s, digit_char(n));
        assert(s@ =~= seq![hex_digit(n as nat)]);
        s
    } else {
        let mut s = lower_hex_string(n / 16);
        push_char(&mut s, digit_char(n % 16));
        s
    }
}

/// `10^k`.
pub open spec fn pow10(k: nat) -> nat
    decreases k,
{
    if k == 0 {
        1
    } else {
        10 * pow10((k - 1) as nat)
    }
}

/// A number has at most `k` decimal digits exactly when it is below `10^k`.
pub proof fn lemma_decimal_len(n: nat, k: nat)
    requires
        k >= 1,
    ensures
        decimal(n).len() >= 1,
        (decimal(n).len() <= k) <==> (n < pow10(k)),
    decreases n,
{
    if k == 1 {
        assert(pow10(1) == 10) by {
            reveal_with_fuel(pow10, 2);
        }
        if n >= 10 {
            lemma_decimal_len(n / 10, 1);
        }
    } else {
        lemma_pow10_ge(k);
        if n >= 10 {
            lemma_decimal_len(n / 10, (k - 1) as nat);
            let p = pow10((k - 1) as nat);
            assert(pow10(k) == 10 * p);
            assert((n / 10 < p) <==> (n < 10 * p)) by (nonlinear_arith)
                requires
                    n >= 10,
            ;
        }
    }
}

/// `10^k >= 10` for `k >= 1`.
pub proof fn lemma_pow10_ge(k: nat)
    requires
        k >= 1,
    ensures
        pow10(k) >= 10,
    decreases k,
{
    if k > 1 {
        lemma_pow10_ge((k - 1) as nat);
    } else {
        reveal_with_fuel(pow10, 2);
    }
}

/// The number of decimal digits of `n` (the length of `n.to_string()`).
pub fn decimal_len(n: u64) -> (len: usize)
    ensures
        len == decimal(n as nat).len(),
        1 <= len <= 20,
    decreases n,
{
    proof {
        lemma_decimal_len(n as nat, 20);
        assert(pow10(20) == 100_000_000_000_000_000_000) by {
            reveal_with_fuel(pow10, 21);
        }
    }
    if n < 10 {
        1
    } else {
        let l = decimal_len(n / 10);
        l + 1
    }
}

} // verus!
