use vstd::prelude::*;

verus! {

/// The host on which the service listens.
pub const BASE_URL: &'static str = "127.0.0.1";

/// The character of the decimal digit `d` (`d < 10`).
pub open spec fn digit_char(d: nat) -> char {
    (48 + d) as char
}

/// The decimal representation of `n`, most significant digit first, with
/// no leading zero (`0` is written "0").
pub open spec fn decimal(n: nat) -> Seq<char>
    decreases n,
{
    if n < 10 {
        seq![digit_char(n)]
    } else {
        decimal(n / 10).push(digit_char(n % 10))
    }
}

/// The number that a string of decimal digits denotes.
pub open spec fn decimal_value(s: Seq<char>) -> int
    decreases s.len(),
{
    if s.len() == 0 {
        0
    } else {
        decimal_value(s.drop_last()) * 10 + ((s.last() as int) - ('0' as int))
    }
}

/// Whether every character of `s` is an ASCII decimal digit.
pub open spec fn all_digits(s: Seq<char>) -> bool {
    forall|i: int| 0 <= i < s.len() ==> '0' <= #[trigger] s[i] <= '9'
}

/// The address the service listens on for `port`: the host, a colon and
/// the port in decimal.
pub open spec fn spec_listen_address(port: u16) -> Seq<char> {
    BASE_URL@ + seq![':'] + decimal(port as nat)
}

/// Writing a number in decimal and reading the digits back gives the number:
/// the representation is made of digits only, is never empty, and denotes `n`.
pub proof fn lemma_decimal_round_trip(n: nat)
    ensures
        decimal(n).len() >= 1,
        all_digits(decimal(n)),
        decimal_value(decimal(n)) == n as int,
    decreases n,
{
    if n >= 10 {
        lemma_decimal_round_trip(n / 10);
        let s = decimal(n);
        assert(s.drop_last() =~= decimal(n / 10));
        assert(s.last() == digit_char(n % 10));
        assert(digit_char(n % 10) as int == 48 + n % 10);
        assert(decimal_value(s) == decimal_value(decimal(n / 10)) * 10 + (n % 10));
    } else {
        let s = decimal(n);
        assert(s.drop_last() =~= Seq::<char>::empty());
        assert(digit_char(n) as int == 48 + n);
        assert(decimal_value(s) == decimal_value(s.drop_last()) * 10 + (n as int));
    }
}

/// The listening address names its port: two ports give the same address
/// exactly when they are the same port.
pub proof fn lemma_listen_address_names_port(p: u16, q: u16)
    ensures
        (spec_listen_address(p) == spec_listen_address(q)) <==> (p == q),
{
    if spec_listen_address(p) == spec_listen_address(q) {
        let prefix = BASE_URL@ + seq![':'];
        assert(spec_listen_address(p).skip(prefix.len() as int) =~= decimal(p as nat));
        assert(spec_listen_address(q).skip(prefix.len() as int) =~= decimal(q as nat));
        lemma_decimal_round_trip(p as nat);
        lemma_decimal_round_trip(q as nat);
    }
}

fn digit_str(d: u16) -> (s: &'static str)
    requires
        d < 10,
    ensures
        s@ == seq![digit_char(d as nat)],
{
    proof {
        reveal_strlit("0");
        reveal_strlit("1");
        reveal_strlit("2");
        reveal_strlit("3");
        reveal_strlit("4");
        reveal_strlit("5");
        reveal_strlit("6");
        reveal_strlit("7");
        reveal_strlit("8");
        reveal_strlit("9");
    }
    if d == 0 {
        "0"
    } else if d == 1 {
        "1"
    } else if d == 2 {
        "2"
    } else if d == 3 {
        "3"
    } else if d == 4 {
        "4"
    } else if d == 5 {
        "5"
    } else if d == 6 {
        "6"
    } else if d == 7 {
        "7"
    } else if d == 8 {
        "8"
    } else {
        "9"
    }
}

/// Appends the decimal digits of `n` to `out`.
pub fn push_decimal(out: &mut String, n: u16)
    ensures
        final(out)@ == old(out)@ + decimal(n as nat),
    decreases n,
{
    if n >= 10 {
        push_decimal(out, n / 10);
    }
    let d = n % 10;
    out.append(digit_str(d));
    proof {
        if n >= 10 {
            assert(decimal(n as nat) == decimal((n / 10) as nat).push(digit_char((n % 10) as nat)));
        }
    }
}

/// The address that the service binds: `BASE_URL`, a colon, and `port` in
/// decimal, as in "127.0.0.1:8000".
pub fn listen_address(port: u16) -> (address: String)
    ensures
        address@ == spec_listen_address(port),
{
    let mut address = BASE_URL.to_owned();
    address.append(":");
    proof {
        reveal_strlit(":");
    }
    push_decimal(&mut address, port);
    address
}

} // verus!
