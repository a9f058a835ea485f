//! The plain-text summary of generated picks that is put on the clipboard.

use vstd::prelude::*;
use vstd::string::*;

use crate::rounds::RolePicks;
use crate::version::{trim, trimmed};

verus! {

/// The decimal digit for `d`, which is below ten.
pub open spec fn digit_char(d: nat) -> char {
    if d < 10 {
        ('0' as u32 + d) as char
    } else {
        '0'
    }
}

/// `n` written in decimal, without leading zeros.
pub open spec fn decimal(n: nat) -> Seq<char>
    decreases n,
{
    if n < 10 {
        seq![digit_char(n)]
    } else {
        decimal(n / 10).push(digit_char(n % 10))
    }
}

/// Relies on `ToString` for `usize`, through its `Display`: the number in
/// decimal, without sign or leading zeros.
#[verifier::external_body]
fn decimal_text(n: usize) -> (r: String)
    ensures
        r@ == decimal(n as nat),
{
    n.to_string()
}

/// The lines that name the picks of the first `count` rounds.
pub open spec fn round_lines(attackers: Seq<String>, defenders: Seq<String>, count: nat) -> Seq<char>
    decreases count,
{
    if count == 0 {
        Seq::empty()
    } else {
        let i = count - 1;
        round_lines(attackers, defenders, i as nat) + "Round "@ + decimal(count) + "\nA="@
            + attackers[i]@ + "\nD="@ + defenders[i]@ + "\n\n"@
    }
}

/// The texts of `names`, separated by a comma and a space.
pub open spec fn comma_list(names: Seq<String>) -> Seq<char>
    decreases names.len(),
{
    if names.len() == 0 {
        Seq::empty()
    } else if names.len() == 1 {
        names[0]@
    } else {
        comma_list(names.drop_last()) + ", "@ + names.last()@
    }
}

/// One block per round, then a block with the backups if there are any.
pub open spec fn summary_text(rounds: RolePicks, backups: RolePicks) -> Seq<char> {
    round_lines(rounds.attackers@, rounds.defenders@, rounds.attackers@.len())
        + if backups.attackers@.len() > 0 {
        "Backup\nA="@ + comma_list(backups.attackers@) + "\nD="@ + comma_list(backups.defenders@)
    } else {
        Seq::empty()
    }
}

/// `names` separated by a comma and a space.
fn join_names(names: &Vec<String>) -> (r: String)
    ensures
        r@ == comma_list(names@),
{
    let mut out = String::new();
    let mut i: usize = 0;
    while i < names.len()
        invariant
            i <= names@.len(),
            out@ == comma_list(names@.subrange(0, i as int)),
        decreases names@.len() - i,
    {
        let ghost before = names@.subrange(0, i as int);
        assert(names@.subrange(0, i + 1).drop_last() =~= before);
        if i > 0 {
            out.append(", ");
        } else {
            assert(out@ == Seq::<char>::empty());
        }
        out.append(names[i].as_str());
        i = i + 1;
    }
    assert(names@.subrange(0, names@.len() as int) =~= names@);
    out
}

/// The summary of the picks, untrimmed: a block per round naming its
/// attacker and defender, then the backups of each role if there are any.
pub fn summary_body(rounds: &RolePicks, backups: &RolePicks) -> (r: String)
    requires
        rounds.defenders@.len() >= rounds.attackers@.len(),
    ensures
        r@ == summary_text(*rounds, *backups),
{
    let mut out = String::new();
    let mut i: usize = 0;
    let n = rounds.attackers.len();
    while i < n
        invariant
            i <= n,
            n == rounds.attackers@.len(),
            rounds.defenders@.len() >= n,
            out@ == round_lines(rounds.attackers@, rounds.defenders@, i as nat),
        decreases n - i,
    {
        out.append("Round ");
        let number = decimal_text(i + 1);
        out.append(number.as_str());
        out.append("\nA=");
        out.append(rounds.attackers[i].as_str());
        out.append("\nD=");
        out.append(rounds.defenders[i].as_str());
        out.append("\n\n");
        i = i + 1;
    }
    if backups.attackers.len() > 0 {
        out.append("Backup\nA=");
        let a = join_names(&backups.attackers);
        out.append(a.as_str());
        out.append("\nD=");
        let d = join_names(&backups.defenders);
        out.append(d.as_str());
    } else {
        assert(out@ + Seq::<char>::empty() =~= out@);
    }
    out
}

/// The text to copy for the picks: the summary without surrounding
/// whitespace, or `None` where there is nothing to copy.
pub fn clipboard_text(rounds: &RolePicks, backups: &RolePicks) -> (r: Option<String>)
    requires
        rounds.defenders@.len() >= rounds.attackers@.len(),
    ensures
        r is None <==> summary_text(*rounds, *backups).len() == 0,
        r matches Some(t) ==> t@ == trimmed(summary_text(*rounds, *backups)),
{
    let body = summary_body(rounds, backups);
    if body.unicode_len() == 0 {
        None
    } else {
        Some(String::from_str(trim(body.as_str())))
    }
}

} // verus!
