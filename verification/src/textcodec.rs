//! Decimal rendering and parsing of board integers, and splitting of the
//! whitespace-separated position encoding.  The exec functions carry exact
//! contracts over sequence-level spec functions, and the lemmas at the end
//! show that parsing undoes rendering; the position round-trip proof is
//! built from them.
use vstd::prelude::*;

verus! {

/// Whether two characters are the same letter up to ASCII case.
pub open spec fn char_ieq(a: char, b: char) -> bool {
    a == b || ('A' <= a && a <= 'Z' && b as int == a as int + 32) || ('A' <= b && b <= 'Z'
        && a as int == b as int + 32)
}

/// Whether two tokens are the same word up to ASCII case.
pub open spec fn token_ieq(t: Seq<char>, w: Seq<char>) -> bool {
    t.len() == w.len() && forall|i: int| 0 <= i < t.len() ==> char_ieq(t[i], w[i])
}

/// Whether two characters are the same letter up to ASCII case.
fn chars_ieq(a: char, b: char) -> (r: bool)
    ensures
        r == char_ieq(a, b),
{
    a == b || (a >= 'A' && a <= 'Z' && b as u32 == a as u32 + 32) || (b >= 'A' && b <= 'Z'
        && a as u32 == b as u32 + 32)
}

/// Whether `s` spells the word `w` up to ASCII case.
pub fn token_matches_ci(s: &String, w: &str) -> (r: bool)
    ensures
        r == token_ieq(s@, w@),
{
    let n = s.as_str().unicode_len();
    if n != w.unicode_len() {
        return false;
    }
    let mut i: usize = 0;
    while i < n
        invariant
            0 <= i <= n,
            n == s@.len() == w@.len(),
            forall|j: int| 0 <= j < i ==> char_ieq(s@[j], w@[j]),
        decreases n - i,
    {
        if !chars_ieq(s.as_str().get_char(i), w.get_char(i)) {
            return false;
        }
        i = i + 1;
    }
    true
}

/// Whether `c` is a decimal digit.
pub open spec fn is_digit(c: char) -> bool {
    '0' <= c && c <= '9'
}

/// Numeric value of a digit character.
pub open spec fn digit_val(c: char) -> int {
    c as int - '0' as int
}

/// The digit character for `d`, which must be below ten.
pub open spec fn digit_char(d: int) -> char {
    if d == 0 {
        '0'
    } else if d == 1 {
        '1'
    } else if d == 2 {
        '2'
    } else if d == 3 {
        '3'
    } else if d == 4 {
        '4'
    } else if d == 5 {
        '5'
    } else if d == 6 {
        '6'
    } else if d == 7 {
        '7'
    } else if d == 8 {
        '8'
    } else {
        '9'
    }
}

/// Decimal digit string of `n`, most significant digit first.
pub open spec fn dec_digits(n: nat) -> Seq<char>
    decreases n,
{
    if n < 10 {
        seq![digit_char(n as int)]
    } else {
        dec_digits(n / 10) + seq![digit_char((n % 10) as int)]
    }
}

/// Value of a digit string, read most significant digit first.
pub open spec fn dec_val(s: Seq<char>) -> nat
    decreases s.len(),
{
    if s.len() == 0 {
        0
    } else {
        dec_val(s.drop_last()) * 10 + digit_val(s.last()) as nat
    }
}

/// Whether `s` is a well-formed decimal token: nonempty and all digits.
pub open spec fn all_digits(s: Seq<char>) -> bool {
    forall|i: int| 0 <= i < s.len() ==> is_digit(#[trigger] s[i])
}

/// A `&str` slice holding the single digit character of `d`.
pub fn digit_str(d: u128) -> (r: &'static str)
    requires
        d < 10,
    ensures
        r@ == seq![digit_char(d as int)],
{
    let r: &'static str = if d == 0 {
        "0"
    } else if d == 1 {
        "1"
    } else if d == 2 {
        "2"
    } else if d == 3 {
        "3"
    } else if d == 4 {
        "4"
    } else if d == 5 {
        "5"
    } else if d == 6 {
        "6"
    } else if d == 7 {
        "7"
    } else if d == 8 {
        "8"
    } else {
        "9"
    };
    proof {
        reveal_strlit("0");
        reveal_strlit("1");
        reveal_strlit("2");
        reveal_strlit("3");
        reveal_strlit("4");
        reveal_strlit("5");
        reveal_strlit("6");
        reveal_strlit("7");
        reveal_strlit("8");
        reveal_strlit("9");
        assert(r@ =~= seq![digit_char(d as int)]);
    }
    r
}

/// Renders `n` in decimal, most significant digit first.
pub fn render_u128(n: u128) -> (s: String)
    ensures
        s@ == dec_digits(n as nat),
    decreases n,
{
    if n < 10 {
        let mut s = String::new();
        s.append(digit_str(n));
        proof {
            assert(s@ =~= dec_digits(n as nat));
        }
        s
    } else {
        let mut s = render_u128(n / 10);
        s.append(digit_str(n % 10));
        proof {
            assert(s@ =~= dec_digits(n as nat));
        }
        s
    }
}

/// The numeric value of the digit character `c`.
fn digit_of(c: char) -> (d: u128)
    requires
        is_digit(c),
    ensures
        d == digit_val(c),
        d < 10,
{
    match c {
        '0' => 0,
        '1' => 1,
        '2' => 2,
        '3' => 3,
        '4' => 4,
        '5' => 5,
        '6' => 6,
        '7' => 7,
        '8' => 8,
        _ => 9,
    }
}

/// Parses the decimal token `s`; `None` when `s` is empty, holds a
/// non-digit, or exceeds the 128-bit range.
pub fn parse_u128(s: &String) -> (r: Option<u128>)
    ensures
        match r {
            Some(v) => all_digits(s@) && s@.len() > 0 && v as nat == dec_val(s@),
            None => !(all_digits(s@) && s@.len() > 0 && dec_val(s@) <= u128::MAX),
        },
{
    let n = s.as_str().unicode_len();
    if n == 0 {
        return None;
    }
    let mut val: u128 = 0;
    let mut i: usize = 0;
    while i < n
        invariant
            0 < n == s@.len(),
            0 <= i <= n,
            all_digits(s@.take(i as int)),
            val as nat == dec_val(s@.take(i as int)),
        decreases n - i,
    {
        let c = s.as_str().get_char(i);
        if !(c >= '0' && c <= '9') {
            assert(!is_digit(s@[i as int]));
            return None;
        }
        let d: u128 = digit_of(c);
        let limit: u128 = (u128::MAX - d) / 10;
        proof {
            vstd::arithmetic::div_mod::lemma_fundamental_div_mod((u128::MAX - d) as int, 10);
            if val <= limit {
                vstd::arithmetic::mul::lemma_mul_inequality(val as int, limit as int, 10);
            }
            assert(s@.take(i as int + 1).drop_last() =~= s@.take(i as int));
            assert(s@.take(i as int + 1).last() == s@[i as int]);
        }
        if val > limit {
            proof {
                if all_digits(s@) {
                    lemma_dec_val_monotone(s@.take(i as int + 1), s@);
                }
            }
            return None;
        }
        val = val * 10 + d;
        i = i + 1;
    }
    proof {
        assert(s@.take(n as int) =~= s@);
    }
    Some(val)
}

/// A prefix of a digit string never has a larger value than the whole.
proof fn lemma_dec_val_monotone(p: Seq<char>, s: Seq<char>)
    requires
        p.len() <= s.len(),
        forall|i: int| 0 <= i < p.len() ==> p[i] == s[i],
        all_digits(s),
    ensures
        dec_val(p) <= dec_val(s),
    decreases s.len(),
{
    if p.len() == s.len() {
        assert(p =~= s);
    } else if s.len() > 0 {
        lemma_dec_val_monotone(p, s.drop_last());
        assert(all_digits(s.drop_last()));
    }
}

/// Rendering never produces a non-digit and never an empty string.
pub proof fn lemma_dec_digits_wf(n: nat)
    ensures
        dec_digits(n).len() > 0,
        all_digits(dec_digits(n)),
    decreases n,
{
    if n >= 10 {
        lemma_dec_digits_wf(n / 10);
        assert forall|i: int| 0 <= i < dec_digits(n).len() implies is_digit(
            #[trigger] dec_digits(n)[i],
        ) by {
            if i < dec_digits(n / 10).len() {
                assert(dec_digits(n)[i] == dec_digits(n / 10)[i]);
            }
        }
    }
}

/// The digit character of `d` evaluates back to `d`.
proof fn lemma_digit_char_val(d: int)
    requires
        0 <= d < 10,
    ensures
        digit_val(digit_char(d)) == d,
        is_digit(digit_char(d)),
{
}

/// Parsing undoes rendering: the digit string of `n` evaluates to `n`.
pub proof fn lemma_dec_round_trip(n: nat)
    ensures
        dec_val(dec_digits(n)) == n,
    decreases n,
{
    if n < 10 {
        lemma_digit_char_val(n as int);
        assert(dec_digits(n).drop_last() =~= Seq::<char>::empty());
        assert(dec_val(Seq::<char>::empty()) == 0);
        assert(dec_digits(n).last() == digit_char(n as int));
        assert(dec_val(dec_digits(n)) == dec_val(dec_digits(n).drop_last()) * 10 + digit_val(
            dec_digits(n).last(),
        ));
    } else {
        lemma_dec_round_trip(n / 10);
        lemma_digit_char_val((n % 10) as int);
        assert(dec_digits(n).drop_last() =~= dec_digits(n / 10));
        assert(dec_digits(n).last() == digit_char((n % 10) as int));
        assert((n / 10) * 10 + n % 10 == n) by {
            vstd::arithmetic::div_mod::lemma_fundamental_div_mod(n as int, 10);
        }
    }
}

/// The tokens of `s` split at spaces: maximal runs of non-space characters.
pub open spec fn split_spaces(s: Seq<char>) -> Seq<Seq<char>>
    decreases s.len(),
{
    if s.len() == 0 {
        seq![Seq::<char>::empty()]
    } else if s.last() == ' ' {
        split_spaces(s.drop_last()) + seq![Seq::<char>::empty()]
    } else {
        let rest = split_spaces(s.drop_last());
        rest.update(rest.len() - 1, rest.last() + seq![s.last()])
    }
}

/// The given tokens joined with single spaces between them.
pub open spec fn join_spaces(tokens: Seq<Seq<char>>) -> Seq<char>
    decreases tokens.len(),
{
    if tokens.len() == 0 {
        Seq::empty()
    } else if tokens.len() == 1 {
        tokens[0]
    } else {
        join_spaces(tokens.drop_last()) + seq![' '] + tokens.last()
    }
}

/// Splits `s` at spaces into its (possibly empty) tokens.
pub fn split_spaces_exec(s: &String) -> (r: Vec<String>)
    requires
        s.is_ascii(),
    ensures
        r@.map_values(|t: String| t@) == split_spaces(s@),
        forall|j: int| 0 <= j < r@.len() ==> (#[trigger] r@[j]).is_ascii(),
{
    let n = s.as_str().unicode_len();
    let mut r: Vec<String> = Vec::new();
    r.push(String::new());
    let mut i: usize = 0;
    while i < n
        invariant
            0 <= i <= n == s@.len(),
            s.is_ascii(),
            r@.len() > 0,
            r@.map_values(|t: String| t@) == split_spaces(s@.take(i as int)),
            forall|j: int| 0 <= j < r@.len() ==> (#[trigger] r@[j]).is_ascii(),
        decreases n - i,
    {
        let c = s.as_str().get_char(i);
        let ghost prefix = s@.take(i as int);
        let ghost prev = r@.map_values(|t: String| t@);
        if c == ' ' {
            r.push(String::new());
        } else {
            let last = r.len() - 1;
            let mut tail = r.remove(last);
            tail.append(s.as_str().substring_ascii(i, i + 1));
            r.push(tail);
        }
        proof {
            assert(s@.take(i as int + 1).drop_last() =~= prefix);
            assert(s@.take(i as int + 1).last() == c);
            if c == ' ' {
                assert(r@.map_values(|t: String| t@) =~= split_spaces(s@.take(i as int + 1)));
            } else {
                assert(s@.subrange(i as int, i as int + 1) =~= seq![c]);
                assert(r@.map_values(|t: String| t@) =~= prev.update(
                    prev.len() - 1,
                    prev.last() + seq![c],
                ));
                assert(r@.map_values(|t: String| t@) =~= split_spaces(s@.take(i as int + 1)));
            }
        }
        i = i + 1;
    }
    proof {
        assert(s@.take(n as int) =~= s@);
    }
    r
}

/// Joins tokens with single spaces between them.
pub fn join_tokens(toks: &Vec<String>) -> (r: String)
    requires
        toks@.len() > 0,
    ensures
        r@ == join_spaces(toks@.map_values(|t: String| t@)),
{
    let ghost gt = toks@.map_values(|t: String| t@);
    let mut r = toks[0].clone();
    let n = toks.len();
    let mut i: usize = 1;
    proof {
        assert(gt.take(1) =~= seq![gt[0]]);
    }
    while i < n
        invariant
            1 <= i <= n == toks@.len(),
            gt == toks@.map_values(|t: String| t@),
            r@ == join_spaces(gt.take(i as int)),
        decreases n - i,
    {
        r.append(" ");
        r.append(toks[i].as_str());
        proof {
            reveal_strlit(" ");
            assert(gt.take(i as int + 1).drop_last() =~= gt.take(i as int));
            assert(gt.take(i as int + 1).last() == gt[i as int]);
            assert(join_spaces(gt.take(i as int + 1)) == join_spaces(gt.take(i as int)) + seq![' ']
                + gt[i as int]);
        }
        i = i + 1;
    }
    proof {
        assert(gt.take(n as int) =~= gt);
    }
    r
}

/// Splitting undoes joining, as long as no token holds a space.
pub proof fn lemma_split_join(tokens: Seq<Seq<char>>)
    requires
        tokens.len() > 0,
        forall|i: int, j: int|
            0 <= i < tokens.len() && 0 <= j < tokens[i].len() ==> #[trigger] tokens[i][j] != ' ',
    ensures
        split_spaces(join_spaces(tokens)) == tokens,
    decreases tokens.len(),
{
    if tokens.len() == 1 {
        lemma_split_no_space(tokens[0]);
        assert(split_spaces(join_spaces(tokens)) =~= tokens);
    } else {
        lemma_split_join(tokens.drop_last());
        lemma_split_append_token(join_spaces(tokens.drop_last()) + seq![' '], tokens.last());
        assert((join_spaces(tokens.drop_last()) + seq![' ']).drop_last() =~= join_spaces(
            tokens.drop_last(),
        ));
        assert(split_spaces(join_spaces(tokens.drop_last()) + seq![' ']) =~= tokens.drop_last()
            + seq![Seq::<char>::empty()]);
        assert(split_spaces(join_spaces(tokens)) =~= tokens);
    }
}

/// A string without spaces splits into itself as the single token.
proof fn lemma_split_no_space(s: Seq<char>)
    requires
        forall|j: int| 0 <= j < s.len() ==> s[j] != ' ',
    ensures
        split_spaces(s) == seq![s],
    decreases s.len(),
{
    if s.len() == 0 {
        assert(split_spaces(s) =~~= seq![s]);
    } else {
        lemma_split_no_space(s.drop_last());
        assert(s[s.len() - 1] != ' ');
        let rest = split_spaces(s.drop_last());
        assert(rest == seq![s.drop_last()]);
        assert(rest.last() == s.drop_last());
        assert(split_spaces(s) == rest.update(0, rest.last() + seq![s.last()]));
        assert(s.drop_last() + seq![s.last()] =~= s);
        assert(split_spaces(s) =~~= seq![s]);
    }
}

/// Appending a space-free token to a string extends the last split token.
proof fn lemma_split_append_token(base: Seq<char>, t: Seq<char>)
    requires
        forall|j: int| 0 <= j < t.len() ==> t[j] != ' ',
        split_spaces(base).len() > 0,
    ensures
        split_spaces(base + t) == split_spaces(base).update(
            split_spaces(base).len() - 1,
            split_spaces(base).last() + t,
        ),
    decreases t.len(),
{
    if t.len() == 0 {
        assert(base + t =~= base);
        assert(split_spaces(base).last() + t =~= split_spaces(base).last());
        assert(split_spaces(base + t) =~= split_spaces(base).update(
            split_spaces(base).len() - 1,
            split_spaces(base).last() + t,
        ));
    } else {
        lemma_split_append_token(base, t.drop_last());
        assert((base + t).drop_last() =~= base + t.drop_last());
        assert((base + t).last() == t.last());
        let prev = split_spaces(base + t.drop_last());
        assert(split_spaces(base + t) =~= prev.update(prev.len() - 1, prev.last() + seq![
            t.last(),
        ]));
        assert(split_spaces(base).last() + t.drop_last() + seq![t.last()] =~= split_spaces(
            base,
        ).last() + t);
        assert(split_spaces(base + t) =~= split_spaces(base).update(
            split_spaces(base).len() - 1,
            split_spaces(base).last() + t,
        ));
    }
}

} // verus!
