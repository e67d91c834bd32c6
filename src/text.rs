use vstd::prelude::*;
use vstd::string::*;

verus! {

/// The decimal digit `d` (below ten).
pub open spec fn digit_char(d: nat) -> char {
    if d == 0 {
        '0'
    } else if d == 1 {
        '1'
    } else if d == 2 {
        '2'
    } else if d == 3 {
        '3'
    } else if d == 4 {
        '4'
    } else if d == 5 {
        '5'
    } else if d == 6 {
        '6'
    } else if d == 7 {
        '7'
    } else if d == 8 {
        '8'
    } else {
        '9'
    }
}

/// `n` written in decimal, without leading zeros.
pub open spec fn decimal(n: nat) -> Seq<char>
    decreases n,
{
    if n < 10 {
        seq![digit_char(n)]
    } else {
        decimal(n / 10).push(digit_char(n % 10))
    }
}

fn digit_text(d: usize) -> (r: &'static str)
    requires
        d < 10,
    ensures
        r@ == seq![digit_char(d as nat)],
{
    proof {
        reveal_strlit("0");
        reveal_strlit("1");
        reveal_strlit("2");
        reveal_strlit("3");
        reveal_strlit("4");
        reveal_strlit("5");
        reveal_strlit("6");
        reveal_strlit("7");
        reveal_strlit("8");
        reveal_strlit("9");
    }
    match d {
        0 => "0",
        1 => "1",
        2 => "2",
        3 => "3",
        4 => "4",
        5 => "5",
        6 => "6",
        7 => "7",
        8 => "8",
        _ => "9",
    }
}

/// Appends `n` in decimal to `out`.
pub fn push_decimal(out: &mut String, n: usize)
    ensures
        final(out)@ == old(out)@ + decimal(n as nat),
    decreases n,
{
    if n >= 10 {
        push_decimal(out, n / 10);
    }
    out.append(digit_text(n % 10));
    proof {
        if n >= 10 {
            assert(decimal(n as nat) == decimal((n / 10) as nat).push(digit_char((n % 10) as nat)));
        }
    }
    assert(out@ =~= old(out)@ + decimal(n as nat));
}

/// The warning that `n` workers will be released from a deleted crew.
pub open spec fn members_warning(n: nat) -> Seq<char> {
    decimal(n)
        + " jornalero(s) serán removidos de la cuadrilla y quedarán disponibles para reasignación"@
}

/// The warning that `n` harvest records reference a crew.
pub open spec fn productions_warning(n: nat) -> Seq<char> {
    decimal(n) + " registro(s) de producción están asociados - se requiere eliminación forzada"@
}

/// Builds `members_warning(n)`.
pub fn members_warning_text(n: usize) -> (r: String)
    ensures
        r@ == members_warning(n as nat),
{
    let mut out = String::new();
    push_decimal(&mut out, n);
    out.append(
        " jornalero(s) serán removidos de la cuadrilla y quedarán disponibles para reasignación",
    );
    assert(out@ =~= members_warning(n as nat));
    out
}

/// Builds `productions_warning(n)`.
pub fn productions_warning_text(n: usize) -> (r: String)
    ensures
        r@ == productions_warning(n as nat),
{
    let mut out = String::new();
    push_decimal(&mut out, n);
    out.append(" registro(s) de producción están asociados - se requiere eliminación forzada");
    assert(out@ =~= productions_warning(n as nat));
    out
}

} // verus!
