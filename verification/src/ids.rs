//! Generated transaction identifiers.
//!
//! The ledger names each locally created transaction after its position in
//! the transaction log: `"deposit_"`, `"withdraw_"` or `"tip_"` followed by
//! the decimal rendering of the log length at creation time.  This module
//! defines that rendering, builds the identifiers in executable code, and
//! proves that distinct indices (and distinct prefixes) yield distinct
//! identifiers.

use vstd::prelude::*;
use vstd::string::StringExecFns;

verus! {

/// The character for the decimal digit `d` (meaningful for `d < 10`).
pub open spec fn digit_char(d: nat) -> char {
    if d == 0 {
        '0'
    } else if d == 1 {
        '1'
    } else if d == 2 {
        '2'
    } else if d == 3 {
        '3'
    } else if d == 4 {
        '4'
    } else if d == 5 {
        '5'
    } else if d == 6 {
        '6'
    } else if d == 7 {
        '7'
    } else if d == 8 {
        '8'
    } else {
        '9'
    }
}

/// The decimal rendering of `n`, most significant digit first, without
/// leading zeros.
pub open spec fn dec_seq(n: nat) -> Seq<char>
    decreases n,
{
    if n < 10 {
        seq![digit_char(n)]
    } else {
        dec_seq(n / 10).push(digit_char(n % 10))
    }
}

/// The identifier generated for a deposit recorded at log index `n`.
pub open spec fn deposit_id_seq(n: nat) -> Seq<char> {
    "deposit_"@ + dec_seq(n)
}

/// The identifier generated for a withdrawal recorded at log index `n`.
pub open spec fn withdraw_id_seq(n: nat) -> Seq<char> {
    "withdraw_"@ + dec_seq(n)
}

/// The identifier generated for an outgoing tip recorded at log index `n`.
pub open spec fn tip_id_seq(n: nat) -> Seq<char> {
    "tip_"@ + dec_seq(n)
}

/// Distinct digits render as distinct characters.
proof fn lemma_digit_char_injective(d1: nat, d2: nat)
    requires
        d1 < 10,
        d2 < 10,
        digit_char(d1) == digit_char(d2),
    ensures
        d1 == d2,
{
}

/// A decimal rendering is never empty.
proof fn lemma_dec_seq_len(n: nat)
    ensures
        dec_seq(n).len() >= 1,
        n >= 10 ==> dec_seq(n).len() >= 2,
    decreases n,
{
    if n >= 10 {
        lemma_dec_seq_len(n / 10);
    }
}

/// Distinct numbers have distinct decimal renderings.
pub proof fn lemma_dec_seq_injective(a: nat, b: nat)
    ensures
        dec_seq(a) == dec_seq(b) ==> a == b,
    decreases a + b,
{
    if dec_seq(a) == dec_seq(b) {
        if a < 10 && b < 10 {
            assert(dec_seq(a)[0] == dec_seq(b)[0]);
            lemma_digit_char_injective(a, b);
        } else if a < 10 {
            lemma_dec_seq_len(b);
            assert(dec_seq(a).len() == 1);
        } else if b < 10 {
            lemma_dec_seq_len(a);
            assert(dec_seq(b).len() == 1);
        } else {
            let sa = dec_seq(a / 10);
            let sb = dec_seq(b / 10);
            assert(dec_seq(a) == sa.push(digit_char(a % 10)));
            assert(dec_seq(b) == sb.push(digit_char(b % 10)));
            assert(sa.push(digit_char(a % 10)).last() == digit_char(a % 10));
            assert(sb.push(digit_char(b % 10)).last() == digit_char(b % 10));
            lemma_digit_char_injective(a % 10, b % 10);
            assert(sa.len() == sb.len());
            assert forall|i: int| 0 <= i < sa.len() implies sa[i] == sb[i] by {
                assert(sa.push(digit_char(a % 10))[i] == sa[i]);
                assert(sb.push(digit_char(b % 10))[i] == sb[i]);
            }
            assert(sa =~= sb);
            lemma_dec_seq_injective(a / 10, b / 10);
            assert(a == 10 * (a / 10) + a % 10);
            assert(b == 10 * (b / 10) + b % 10);
        }
    }
}

/// Cancelling a shared prefix of two equal concatenations.
proof fn lemma_concat_cancel_left(p: Seq<char>, q1: Seq<char>, q2: Seq<char>)
    requires
        p + q1 == p + q2,
    ensures
        q1 == q2,
{
    assert((p + q1).len() == p.len() + q1.len());
    assert((p + q2).len() == p.len() + q2.len());
    assert(q1.len() == q2.len());
    assert forall|i: int| 0 <= i < q1.len() implies q1[i] == q2[i] by {
        let k = p.len() + i;
        assert((p + q1)[k] == q1[i]);
        assert((p + q2)[k] == q2[i]);
    }
    assert(q1 =~= q2);
}

/// Generated identifiers collide neither across prefixes nor, within one
/// prefix, across indices.
pub proof fn lemma_generated_ids_distinct(a: nat, b: nat)
    ensures
        tip_id_seq(a) == tip_id_seq(b) ==> a == b,
        deposit_id_seq(a) == deposit_id_seq(b) ==> a == b,
        withdraw_id_seq(a) == withdraw_id_seq(b) ==> a == b,
        tip_id_seq(a) != deposit_id_seq(b),
        tip_id_seq(a) != withdraw_id_seq(b),
        deposit_id_seq(a) != withdraw_id_seq(b),
{
    reveal_strlit("tip_");
    reveal_strlit("deposit_");
    reveal_strlit("withdraw_");
    if tip_id_seq(a) == tip_id_seq(b) {
        lemma_concat_cancel_left("tip_"@, dec_seq(a), dec_seq(b));
        lemma_dec_seq_injective(a, b);
    }
    if deposit_id_seq(a) == deposit_id_seq(b) {
        lemma_concat_cancel_left("deposit_"@, dec_seq(a), dec_seq(b));
        lemma_dec_seq_injective(a, b);
    }
    if withdraw_id_seq(a) == withdraw_id_seq(b) {
        lemma_concat_cancel_left("withdraw_"@, dec_seq(a), dec_seq(b));
        lemma_dec_seq_injective(a, b);
    }
    assert(tip_id_seq(a)[0] == 't');
    assert(deposit_id_seq(b)[0] == 'd');
    assert(withdraw_id_seq(b)[0] == 'w');
    assert(deposit_id_seq(a)[0] == 'd');
}

/// Appends the character of one decimal digit to `s`.
fn push_digit(s: &mut String, d: u64)
    requires
        d < 10,
    ensures
        final(s)@ == old(s)@ + seq![digit_char(d as nat)],
{
    let lit: &str = if d == 0 {
        "0"
    } else if d == 1 {
        "1"
    } else if d == 2 {
        "2"
    } else if d == 3 {
        "3"
    } else if d == 4 {
        "4"
    } else if d == 5 {
        "5"
    } else if d == 6 {
        "6"
    } else if d == 7 {
        "7"
    } else if d == 8 {
        "8"
    } else {
        "9"
    };
    proof {
        reveal_strlit("0");
        reveal_strlit("1");
        reveal_strlit("2");
        reveal_strlit("3");
        reveal_strlit("4");
        reveal_strlit("5");
        reveal_strlit("6");
        reveal_strlit("7");
        reveal_strlit("8");
        reveal_strlit("9");
        assert(lit@ =~= seq![digit_char(d as nat)]);
    }
    s.append(lit);
}

/// Appends the decimal rendering of `n` to `s`.
fn push_decimal(s: &mut String, n: u64)
    ensures
        final(s)@ == old(s)@ + dec_seq(n as nat),
    decreases n,
{
    if n >= 10 {
        push_decimal(s, n / 10);
    }
    push_digit(s, n % 10);
    proof {
        assert(s@ =~= old(s)@ + dec_seq(n as nat));
    }
}

/// Builds the identifier for a deposit recorded at log index `n`.
pub fn deposit_id(n: u64) -> (r: String)
    ensures
        r@ == deposit_id_seq(n as nat),
{
    let mut s = "deposit_".to_owned();
    push_decimal(&mut s, n);
    s
}

/// Builds the identifier for a withdrawal recorded at log index `n`.
pub fn withdraw_id(n: u64) -> (r: String)
    ensures
        r@ == withdraw_id_seq(n as nat),
{
    let mut s = "withdraw_".to_owned();
    push_decimal(&mut s, n);
    s
}

/// Builds the identifier for an outgoing tip recorded at log index `n`.
pub fn tip_id(n: u64) -> (r: String)
    ensures
        r@ == tip_id_seq(n as nat),
{
    let mut s = "tip_".to_owned();
    push_decimal(&mut s, n);
    s
}

} // verus!
