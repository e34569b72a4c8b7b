//! Per-request job names.
//!
//! Every compile call names its on-disk files after a fresh request token, so
//! two in-flight calls never share a source or artifact path. The name is
//! `job_` followed by the token in decimal; distinct tokens provably give
//! distinct names and distinct paths.

use vstd::prelude::*;
use vstd::arithmetic::div_mod::lemma_fundamental_div_mod;
use vstd::string::StringExecFns;

use crate::latex::{artifact_file_name, joined_path, source_file_name};

verus! {

/// The decimal digit standing for a value below ten.
pub open spec fn digit_char(d: int) -> char
    recommends
        0 <= d < 10,
{
    if d == 0 {
        '0'
    } else if d == 1 {
        '1'
    } else if d == 2 {
        '2'
    } else if d == 3 {
        '3'
    } else if d == 4 {
        '4'
    } else if d == 5 {
        '5'
    } else if d == 6 {
        '6'
    } else if d == 7 {
        '7'
    } else if d == 8 {
        '8'
    } else {
        '9'
    }
}

/// The value a decimal digit stands for.
pub open spec fn digit_value(c: char) -> int {
    if c == '0' {
        0
    } else if c == '1' {
        1
    } else if c == '2' {
        2
    } else if c == '3' {
        3
    } else if c == '4' {
        4
    } else if c == '5' {
        5
    } else if c == '6' {
        6
    } else if c == '7' {
        7
    } else if c == '8' {
        8
    } else {
        9
    }
}

/// `n` written in decimal, most significant digit first, with no leading
/// zeros (zero itself is a single `0`).
pub open spec fn decimal_rep(n: nat) -> Seq<char>
    decreases n,
{
    if n < 10 {
        seq![digit_char(n as int)]
    } else {
        decimal_rep(n / 10).push(digit_char((n % 10) as int))
    }
}

/// The number a digit sequence reads as.
pub open spec fn decimal_value(s: Seq<char>) -> int
    decreases s.len(),
{
    if s.len() == 0 {
        0
    } else {
        decimal_value(s.drop_last()) * 10 + digit_value(s.last())
    }
}

/// A digit read back is the value it was written for.
proof fn lemma_digit_roundtrip(d: int)
    requires
        0 <= d < 10,
    ensures
        digit_value(digit_char(d)) == d,
{
}

/// Reading back `n`'s decimal representation yields `n`.
proof fn lemma_decimal_value_of_rep(n: nat)
    ensures
        decimal_value(decimal_rep(n)) == n,
    decreases n,
{
    if n < 10 {
        let s = decimal_rep(n);
        assert(s == seq![digit_char(n as int)]);
        assert(s.len() == 1);
        assert(s.last() == digit_char(n as int));
        assert(s.drop_last() =~= Seq::<char>::empty());
        lemma_digit_roundtrip(n as int);
        assert(decimal_value(s) == decimal_value(s.drop_last()) * 10 + digit_value(s.last()));
        assert(decimal_value(Seq::<char>::empty()) == 0);
    } else {
        let q = n / 10;
        let r = (n % 10) as int;
        lemma_decimal_value_of_rep(q);
        let s = decimal_rep(n);
        assert(s == decimal_rep(q).push(digit_char(r)));
        assert(s.len() == decimal_rep(q).len() + 1);
        assert(s.last() == digit_char(r));
        assert(s.drop_last() =~= decimal_rep(q));
        lemma_digit_roundtrip(r);
        lemma_fundamental_div_mod(n as int, 10);
        assert(decimal_value(s) == decimal_value(decimal_rep(q)) * 10 + digit_value(digit_char(r)));
        assert(decimal_value(s) == (q as int) * 10 + r);
    }
}

/// Decimal representation tells numbers apart.
proof fn lemma_decimal_rep_injective(a: nat, b: nat)
    requires
        decimal_rep(a) == decimal_rep(b),
    ensures
        a == b,
{
    lemma_decimal_value_of_rep(a);
    lemma_decimal_value_of_rep(b);
}

/// The base name all on-disk files of the request with token `t` carry:
/// `job_` then `t` in decimal.
pub open spec fn job_name(t: nat) -> Seq<char> {
    "job_"@ + decimal_rep(t)
}

/// Append the decimal digit standing for `d` to `s`.
fn append_digit(s: &mut String, d: u64)
    requires
        d < 10,
    ensures
        final(s)@ == old(s)@ + seq![digit_char(d as int)],
{
    proof {
        reveal_strlit("0");
        reveal_strlit("1");
        reveal_strlit("2");
        reveal_strlit("3");
        reveal_strlit("4");
        reveal_strlit("5");
        reveal_strlit("6");
        reveal_strlit("7");
        reveal_strlit("8");
        reveal_strlit("9");
    }
    if d == 0 {
        s.append("0");
    } else if d == 1 {
        s.append("1");
    } else if d == 2 {
        s.append("2");
    } else if d == 3 {
        s.append("3");
    } else if d == 4 {
        s.append("4");
    } else if d == 5 {
        s.append("5");
    } else if d == 6 {
        s.append("6");
    } else if d == 7 {
        s.append("7");
    } else if d == 8 {
        s.append("8");
    } else {
        s.append("9");
    }
    assert(s@ =~= old(s)@ + seq![digit_char(d as int)]);
}

/// Append `n` in decimal to `s`.
fn append_decimal(s: &mut String, n: u64)
    ensures
        final(s)@ == old(s)@ + decimal_rep(n as nat),
    decreases n,
{
    if n >= 10 {
        append_decimal(s, n / 10);
    }
    append_digit(s, n % 10);
    assert(s@ =~= old(s)@ + decimal_rep(n as nat));
}

/// The base name for the request with token `token`.
pub fn job_base_name(token: u64) -> (name: String)
    ensures
        name@ == job_name(token as nat),
{
    let mut s = "job_".to_owned();
    append_decimal(&mut s, token);
    s
}

/// Equal sequences stay apart under a common prefix.
proof fn lemma_prefix_cancel(a: Seq<char>, m1: Seq<char>, m2: Seq<char>)
    requires
        a + m1 == a + m2,
    ensures
        m1 == m2,
{
    assert((a + m1).len() == a.len() + m1.len());
    assert((a + m2).len() == a.len() + m2.len());
    assert forall|i: int| 0 <= i < m1.len() implies m1[i] == m2[i] by {
        assert((a + m1)[a.len() + i] == m1[i]);
        assert((a + m2)[a.len() + i] == m2[i]);
    }
    assert(m1 =~= m2);
}

/// Equal sequences stay apart under a common suffix.
proof fn lemma_suffix_cancel(c: Seq<char>, m1: Seq<char>, m2: Seq<char>)
    requires
        m1 + c == m2 + c,
    ensures
        m1 == m2,
{
    assert((m1 + c).len() == m1.len() + c.len());
    assert((m2 + c).len() == m2.len() + c.len());
    assert forall|i: int| 0 <= i < m1.len() implies m1[i] == m2[i] by {
        assert((m1 + c)[i] == m1[i]);
        assert((m2 + c)[i] == m2[i]);
    }
    assert(m1 =~= m2);
}

/// Law: distinct request tokens name distinct jobs.
pub proof fn lemma_job_names_distinct(t1: nat, t2: nat)
    requires
        t1 != t2,
    ensures
        job_name(t1) != job_name(t2),
{
    if job_name(t1) == job_name(t2) {
        lemma_prefix_cancel("job_"@, decimal_rep(t1), decimal_rep(t2));
        lemma_decimal_rep_injective(t1, t2);
    }
}

/// Law: within one workspace, distinct request tokens persist their source
/// text to distinct paths and look for their artifact at distinct paths, so
/// concurrent requests never share an on-disk file.
pub proof fn lemma_job_paths_distinct(dir: Seq<char>, t1: nat, t2: nat)
    requires
        t1 != t2,
    ensures
        joined_path(dir, source_file_name(job_name(t1))) != joined_path(
            dir,
            source_file_name(job_name(t2)),
        ),
        joined_path(dir, artifact_file_name(job_name(t1))) != joined_path(
            dir,
            artifact_file_name(job_name(t2)),
        ),
{
    lemma_job_names_distinct(t1, t2);
    if joined_path(dir, source_file_name(job_name(t1))) == joined_path(
        dir,
        source_file_name(job_name(t2)),
    ) {
        lemma_prefix_cancel(dir + "/"@, source_file_name(job_name(t1)), source_file_name(job_name(t2)));
        lemma_suffix_cancel(".tex"@, job_name(t1), job_name(t2));
    }
    if joined_path(dir, artifact_file_name(job_name(t1))) == joined_path(
        dir,
        artifact_file_name(job_name(t2)),
    ) {
        lemma_prefix_cancel(
            dir + "/"@,
            artifact_file_name(job_name(t1)),
            artifact_file_name(job_name(t2)),
        );
        lemma_suffix_cancel(".pdf"@, job_name(t1), job_name(t2));
    }
}

} // verus!
