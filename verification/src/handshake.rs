//! The handshake a freshly started daemon leaves in its data directory,
//! from which local tooling learns the port the OS assigned it, and the
//! endpoint address built from it.

use vstd::prelude::*;
use vstd::string::StringExecFns;

verus! {

/// The name of the handshake file inside a data directory.
pub const HANDSHAKE_FILE_NAME: &'static str = "daemon.json";

/// What a started daemon reports about itself.
#[derive(Debug, Clone, Copy, PartialEq, Eq, Structural)]
pub struct HandshakeInfo {
    pub grpc_port: u16,
    pub pid: u32,
}

/// The decimal digit for `d` (`0 <= d < 10`).
pub open spec fn decimal_digit(d: int) -> char {
    seq!['0', '1', '2', '3', '4', '5', '6', '7', '8', '9'][d]
}

/// The decimal text of `n`: its digits, most significant first, with no
/// leading zeros (`0` is the single digit `0`).
pub open spec fn decimal_text(n: nat) -> Seq<char>
    decreases n,
{
    if n < 10 {
        seq![decimal_digit(n as int)]
    } else {
        decimal_text(n / 10) + seq![decimal_digit((n % 10) as int)]
    }
}

/// The scheme and host of every daemon endpoint: plain HTTP on loopback.
pub open spec fn loopback_prefix() -> Seq<char> {
    "http://127.0.0.1:"@
}

/// The gRPC endpoint of a daemon listening on loopback at `port`.
pub open spec fn spec_endpoint(port: u16) -> Seq<char> {
    loopback_prefix() + decimal_text(port as nat)
}

/// The one-character text of a decimal digit.
fn digit_text(d: u16) -> (text: &'static str)
    requires
        d < 10,
    ensures
        text@ == seq![decimal_digit(d as int)],
{
    proof {
        reveal_strlit("0");
        reveal_strlit("1");
        reveal_strlit("2");
        reveal_strlit("3");
        reveal_strlit("4");
        reveal_strlit("5");
        reveal_strlit("6");
        reveal_strlit("7");
        reveal_strlit("8");
        reveal_strlit("9");
    }
    match d {
        0 => "0",
        1 => "1",
        2 => "2",
        3 => "3",
        4 => "4",
        5 => "5",
        6 => "6",
        7 => "7",
        8 => "8",
        _ => "9",
    }
}

/// Appends the decimal text of `n` to `text`.
fn append_decimal(text: &mut String, n: u16)
    ensures
        final(text)@ == old(text)@ + decimal_text(n as nat),
    decreases n,
{
    if n >= 10 {
        append_decimal(text, n / 10);
    }
    text.append(digit_text(n % 10));
    proof {
        assert(old(text)@ + decimal_text((n / 10) as nat) + seq![decimal_digit((n % 10) as int)]
            =~= old(text)@ + (decimal_text((n / 10) as nat) + seq![decimal_digit((n % 10) as int)]));
    }
}

/// Whether a character is one of the ten decimal digits `0`..`9`.
pub open spec fn is_decimal_digit(c: char) -> bool {
    c == '0' || c == '1' || c == '2' || c == '3' || c == '4' || c == '5' || c == '6' || c == '7'
        || c == '8' || c == '9'
}

/// Whether `text` is the standard base-10 rendering of `n`: one or more
/// decimal digits, no leading zero unless `n` is zero, reading as `n`.
pub open spec fn is_decimal_rendering(text: Seq<char>, n: nat) -> bool {
    &&& text.len() >= 1
    &&& forall|i: int| 0 <= i < text.len() ==> is_decimal_digit(#[trigger] text[i])
    &&& (text[0] == '0' ==> text.len() == 1)
    &&& decimal_value(text) == n
}

/// The gRPC endpoint of a daemon listening on loopback at `port`: the
/// loopback prefix followed by the standard base-10 rendering of the port.
pub fn endpoint_for_port(port: u16) -> (url: String)
    ensures
        url@ == spec_endpoint(port),
        url@.len() > loopback_prefix().len(),
        url@.subrange(0, loopback_prefix().len() as int) == loopback_prefix(),
        is_decimal_rendering(
            url@.subrange(loopback_prefix().len() as int, url@.len() as int),
            port as nat,
        ),
{
    proof {
        lemma_decimal_text_renders(port as nat);
        let p = loopback_prefix();
        let e = spec_endpoint(port);
        assert(e.subrange(0, p.len() as int) =~= p);
        assert(e.subrange(p.len() as int, e.len() as int) =~= decimal_text(port as nat));
    }
    proof {
        reveal_strlit("http://127.0.0.1:");
    }
    let mut url = String::from_str("http://127.0.0.1:");
    append_decimal(&mut url, port);
    url
}

impl HandshakeInfo {
    /// The gRPC endpoint of the daemon that wrote this handshake.
    pub fn grpc_endpoint(&self) -> (url: String)
        ensures
            url@ == spec_endpoint(self.grpc_port),
    {
        endpoint_for_port(self.grpc_port)
    }
}

/// Law: the decimal text of a number is never empty and has no leading
/// zero unless the number is zero.
pub proof fn lemma_decimal_text_shape(n: nat)
    ensures
        decimal_text(n).len() >= 1,
        decimal_text(n)[0] == '0' ==> n == 0,
    decreases n,
{
    if n >= 10 {
        lemma_decimal_text_shape(n / 10);
    }
}

/// The number a decimal digit stands for.
pub open spec fn digit_value(c: char) -> nat {
    if c == '1' {
        1
    } else if c == '2' {
        2
    } else if c == '3' {
        3
    } else if c == '4' {
        4
    } else if c == '5' {
        5
    } else if c == '6' {
        6
    } else if c == '7' {
        7
    } else if c == '8' {
        8
    } else if c == '9' {
        9
    } else {
        0
    }
}

/// The number a text of decimal digits stands for.
pub open spec fn decimal_value(text: Seq<char>) -> nat
    decreases text.len(),
{
    if text.len() == 0 {
        0
    } else {
        decimal_value(text.drop_last()) * 10 + digit_value(text.last())
    }
}

/// Each decimal digit reads back as the number it was written for.
proof fn lemma_digit_value(d: int)
    requires
        0 <= d < 10,
    ensures
        digit_value(decimal_digit(d)) == d,
{
    let digits = seq!['0', '1', '2', '3', '4', '5', '6', '7', '8', '9'];
    assert(decimal_digit(d) == digits[d]);
    if d == 0 {
        assert(digits[0] == '0');
    } else if d == 1 {
        assert(digits[1] == '1');
    } else if d == 2 {
        assert(digits[2] == '2');
    } else if d == 3 {
        assert(digits[3] == '3');
    } else if d == 4 {
        assert(digits[4] == '4');
    } else if d == 5 {
        assert(digits[5] == '5');
    } else if d == 6 {
        assert(digits[6] == '6');
    } else if d == 7 {
        assert(digits[7] == '7');
    } else if d == 8 {
        assert(digits[8] == '8');
    } else {
        assert(digits[9] == '9');
    }
}

/// Law: the decimal text of a number reads back as that number.
pub proof fn lemma_decimal_round_trip(n: nat)
    ensures
        decimal_value(decimal_text(n)) == n,
    decreases n,
{
    let d = (n % 10) as int;
    lemma_digit_value(d);
    let text = decimal_text(n);
    if n >= 10 {
        lemma_decimal_round_trip(n / 10);
        assert(text.drop_last() =~= decimal_text(n / 10));
        assert(text.last() == decimal_digit(d));
        assert(decimal_value(text) == (n / 10) * 10 + d);
    } else {
        assert(d == n);
        assert(text.drop_last() =~= Seq::<char>::empty());
        assert(decimal_value(text.drop_last()) == 0);
        assert(text.last() == decimal_digit(n as int));
        assert(decimal_value(text) == n);
    }
}

/// Law: an endpoint names exactly one port, so tooling that reads the
/// handshake reaches the port the daemon bound.
pub proof fn lemma_endpoint_identifies_port(a: u16, b: u16)
    ensures
        spec_endpoint(a) == spec_endpoint(b) ==> a == b,
{
    if spec_endpoint(a) == spec_endpoint(b) {
        let n = loopback_prefix().len();
        lemma_decimal_text_shape(a as nat);
        assert(spec_endpoint(a).subrange(n as int, spec_endpoint(a).len() as int) =~= decimal_text(
            a as nat,
        ));
        assert(spec_endpoint(b).subrange(n as int, spec_endpoint(b).len() as int) =~= decimal_text(
            b as nat,
        ));
        lemma_decimal_round_trip(a as nat);
        lemma_decimal_round_trip(b as nat);
    }
}

/// Each decimal digit character stands for a number below ten, and
/// different digits for different numbers.
proof fn lemma_digit_value_injective(a: char, b: char)
    ensures
        is_decimal_digit(a) ==> digit_value(a) < 10,
        is_decimal_digit(a) && is_decimal_digit(b) && digit_value(a) == digit_value(b) ==> a == b,
{
}

/// Each digit written for a number below ten is a decimal digit.
proof fn lemma_decimal_digit_is_digit(d: int)
    requires
        0 <= d < 10,
    ensures
        is_decimal_digit(decimal_digit(d)),
{
    let digits = seq!['0', '1', '2', '3', '4', '5', '6', '7', '8', '9'];
    assert(decimal_digit(d) == digits[d]);
    assert(digits[0] == '0' && digits[1] == '1' && digits[2] == '2' && digits[3] == '3' && digits[4]
        == '4' && digits[5] == '5' && digits[6] == '6' && digits[7] == '7' && digits[8] == '8'
        && digits[9] == '9');
}

/// Law: `decimal_text(n)` is the standard base-10 rendering of `n`:
/// every character a decimal digit, no leading zero unless `n` is zero,
/// and reading back as `n`.
pub proof fn lemma_decimal_text_renders(n: nat)
    ensures
        is_decimal_rendering(decimal_text(n), n),
    decreases n,
{
    lemma_decimal_text_shape(n);
    lemma_decimal_round_trip(n);
    let text = decimal_text(n);
    lemma_decimal_digit_is_digit((n % 10) as int);
    if n >= 10 {
        lemma_decimal_text_renders(n / 10);
        let head = decimal_text(n / 10);
        assert(text == head + seq![decimal_digit((n % 10) as int)]);
        assert forall|i: int| 0 <= i < text.len() implies is_decimal_digit(#[trigger] text[i]) by {
            if i < head.len() {
                assert(text[i] == head[i]);
            }
        }
        lemma_decimal_text_shape(n / 10);
        assert(text[0] == head[0]);
    } else {
        assert(text[0] == decimal_digit(n as int));
    }
}

/// A rendering that starts with a nonzero digit reads as at least one.
proof fn lemma_leading_digit_positive(text: Seq<char>)
    requires
        text.len() >= 1,
        forall|i: int| 0 <= i < text.len() ==> is_decimal_digit(#[trigger] text[i]),
        text[0] != '0',
    ensures
        decimal_value(text) >= 1,
    decreases text.len(),
{
    if text.len() == 1 {
        assert(text.drop_last() =~= Seq::<char>::empty());
        assert(decimal_value(text.drop_last()) == 0);
        assert(text.last() == text[0]);
        assert(is_decimal_digit(text[0]));
    } else {
        let head = text.drop_last();
        assert forall|i: int| 0 <= i < head.len() implies is_decimal_digit(#[trigger] head[i]) by {
            assert(head[i] == text[i]);
        }
        assert(head[0] == text[0]);
        lemma_leading_digit_positive(head);
    }
}

/// Law: a number has exactly one standard base-10 rendering, so the
/// endpoint's port text is determined by the port.
pub proof fn lemma_decimal_rendering_unique(a: Seq<char>, b: Seq<char>, n: nat)
    requires
        is_decimal_rendering(a, n),
        is_decimal_rendering(b, n),
    ensures
        a == b,
    decreases a.len(),
{
    assert(is_decimal_digit(a.last()) && is_decimal_digit(b.last())) by {
        assert(a.last() == a[a.len() - 1]);
        assert(b.last() == b[b.len() - 1]);
    }
    lemma_digit_value_injective(a.last(), b.last());
    lemma_digit_value_injective(b.last(), a.last());
    let ha = a.drop_last();
    let hb = b.drop_last();
    if a.len() >= 2 {
        assert forall|i: int| 0 <= i < ha.len() implies is_decimal_digit(#[trigger] ha[i]) by {
            assert(ha[i] == a[i]);
        }
        assert(ha[0] == a[0]);
        lemma_leading_digit_positive(ha);
    }
    if b.len() >= 2 {
        assert forall|i: int| 0 <= i < hb.len() implies is_decimal_digit(#[trigger] hb[i]) by {
            assert(hb[i] == b[i]);
        }
        assert(hb[0] == b[0]);
        lemma_leading_digit_positive(hb);
    }
    if a.len() == 1 && b.len() == 1 {
        assert(ha =~= Seq::<char>::empty());
        assert(hb =~= Seq::<char>::empty());
        assert(decimal_value(ha) == 0 && decimal_value(hb) == 0);
        assert(a.last() == b.last());
        assert(a =~= b);
    } else if a.len() == 1 {
        assert(ha =~= Seq::<char>::empty());
        assert(decimal_value(ha) == 0);
        assert(n < 10);
        assert(decimal_value(hb) >= 1);
        assert(false);
    } else if b.len() == 1 {
        assert(hb =~= Seq::<char>::empty());
        assert(decimal_value(hb) == 0);
        assert(n < 10);
        assert(decimal_value(ha) >= 1);
        assert(false);
    } else {
        let da = digit_value(a.last());
        let db = digit_value(b.last());
        assert(n == decimal_value(ha) * 10 + da);
        assert(n == decimal_value(hb) * 10 + db);
        assert(da == n % 10 && db == n % 10);
        assert(decimal_value(ha) == n / 10 && decimal_value(hb) == n / 10);
        assert(a.last() == b.last());
        assert(ha[0] == '0' ==> ha.len() == 1) by {
            if ha[0] == '0' {
                assert(a[0] == '0');
            }
        }
        assert(hb[0] == '0' ==> hb.len() == 1) by {
            if hb[0] == '0' {
                assert(b[0] == '0');
            }
        }
        lemma_decimal_rendering_unique(ha, hb, n / 10);
        assert(a =~= ha.push(a.last()));
        assert(b =~= hb.push(b.last()));
    }
}

} // verus!
