use vstd::prelude::*;
use vstd::string::*;

verus! {

/// The required ports that are not in the forward table, control port first,
/// each at most once.
pub open spec fn missing_ports_spec(control_port: u16, stream_port: u16, forwarded: Seq<u16>) -> Seq<
    u16,
> {
    let first = if forwarded.contains(control_port) {
        Seq::<u16>::empty()
    } else {
        seq![control_port]
    };
    let second = if forwarded.contains(stream_port) || stream_port == control_port {
        Seq::<u16>::empty()
    } else {
        seq![stream_port]
    };
    first + second
}

fn contains_port(ports: &Vec<u16>, port: u16) -> (r: bool)
    ensures
        r == ports@.contains(port),
{
    let mut i: usize = 0;
    while i < ports.len()
        invariant
            i <= ports@.len(),
            forall|j: int| 0 <= j < i ==> ports@[j] != port,
        decreases ports@.len() - i,
    {
        if ports[i] == port {
            return true;
        }
        i = i + 1;
    }
    false
}

/// The ports among `control_port` and `stream_port` for which a forward
/// request must be issued, given the local ports of the current forward table.
/// Forwards that are not required are never touched.
pub fn missing_ports(control_port: u16, stream_port: u16, forwarded: &Vec<u16>) -> (r: Vec<u16>)
    ensures
        r@ == missing_ports_spec(control_port, stream_port, forwarded@),
{
    let mut r: Vec<u16> = Vec::new();
    if !contains_port(forwarded, control_port) {
        r.push(control_port);
    }
    if !contains_port(forwarded, stream_port) && stream_port != control_port {
        r.push(stream_port);
    }
    proof {
        assert(r@ =~= missing_ports_spec(control_port, stream_port, forwarded@));
    }
    r
}

pub open spec fn is_digit(c: char) -> bool {
    '0' <= c && c <= '9'
}

/// The number that a string of decimal digits writes.
pub open spec fn decimal_value(s: Seq<char>) -> nat
    decreases s.len(),
{
    if s.len() == 0 {
        0
    } else {
        decimal_value(s.drop_last()) * 10 + (s.last() as nat - '0' as nat) as nat
    }
}

pub open spec fn tcp_prefix() -> Seq<char> {
    seq!['t', 'c', 'p', ':']
}

/// The port that a forward-table field `tcp:<port>` names: `None` where the
/// field has another form or the number does not fit a port.
pub open spec fn tcp_port_spec(field: Seq<char>) -> Option<u16> {
    let digits = field.subrange(tcp_prefix().len() as int, field.len() as int);
    if field.len() > tcp_prefix().len() && field.subrange(0, tcp_prefix().len() as int)
        == tcp_prefix() && (forall|i: int| 0 <= i < digits.len() ==> is_digit(#[trigger] digits[i]))
        && decimal_value(digits) <= u16::MAX {
        Some(decimal_value(digits) as u16)
    } else {
        None
    }
}

proof fn lemma_decimal_value_grows(s: Seq<char>, n: int)
    requires
        0 <= n <= s.len(),
        forall|i: int| 0 <= i < s.len() ==> is_digit(#[trigger] s[i]),
    ensures
        decimal_value(s.subrange(0, n)) <= decimal_value(s),
    decreases s.len() - n,
{
    if n < s.len() {
        lemma_decimal_value_grows(s, n + 1);
        assert(s.subrange(0, n + 1).drop_last() =~= s.subrange(0, n));
    } else {
        assert(s.subrange(0, n) =~= s);
    }
}

/// Reads the local port of a forward-table field written `tcp:<port>`.
pub fn parse_tcp_port(field: &str) -> (r: Option<u16>)
    ensures
        r == tcp_port_spec(field@),
{
    let prefix = vec!['t', 'c', 'p', ':'];
    assert(prefix@ == tcp_prefix());
    let n = field.unicode_len();
    if n <= prefix.len() {
        return None;
    }
    let mut i: usize = 0;
    while i < prefix.len()
        invariant
            prefix@ == tcp_prefix(),
            n == field@.len(),
            n > prefix@.len(),
            i <= prefix@.len(),
            forall|j: int| 0 <= j < i ==> field@[j] == prefix@[j],
        decreases prefix@.len() - i,
    {
        if field.get_char(i) != prefix[i] {
            assert(field@.subrange(0, 4)[i as int] != tcp_prefix()[i as int]);
            return None;
        }
        i = i + 1;
    }
    assert(field@.subrange(0, 4) =~= tcp_prefix());
    let ghost digits = field@.subrange(4, n as int);
    let mut value: u32 = 0;
    let mut k: usize = 4;
    while k < n
        invariant
            n == field@.len(),
            4 <= k <= n,
            digits == field@.subrange(4, n as int),
            field@.subrange(0, 4) == tcp_prefix(),
            forall|j: int| 0 <= j < k - 4 ==> is_digit(#[trigger] digits[j]),
            value == decimal_value(digits.subrange(0, k - 4)),
            value <= u16::MAX,
        decreases n - k,
    {
        let c = field.get_char(k);
        assert(c == digits[k - 4]);
        if c < '0' || c > '9' {
            return None;
        }
        assert(digits.subrange(0, k - 3).drop_last() =~= digits.subrange(0, k - 4));
        let next = value * 10 + (c as u32 - '0' as u32);
        if next > u16::MAX as u32 {
            proof {
                if forall|j: int| 0 <= j < digits.len() ==> is_digit(#[trigger] digits[j]) {
                    lemma_decimal_value_grows(digits, k - 3);
                }
            }
            return None;
        }
        value = next;
        k = k + 1;
    }
    assert(digits.subrange(0, k - 4) =~= digits);
    Some(value as u16)
}

/// A port is listed as missing exactly when it is required and not forwarded,
/// and no port is listed twice.
pub proof fn lemma_missing_ports_exact(control_port: u16, stream_port: u16, forwarded: Seq<u16>)
    ensures
        missing_ports_spec(control_port, stream_port, forwarded).no_duplicates(),
        forall|p: u16|
            missing_ports_spec(control_port, stream_port, forwarded).contains(p) <==> ((p
                == control_port || p == stream_port) && !forwarded.contains(p)),
{
    let m = missing_ports_spec(control_port, stream_port, forwarded);
    assert forall|p: u16| m.contains(p) <==> ((p == control_port || p == stream_port)
        && !forwarded.contains(p)) by {
        if (p == control_port || p == stream_port) && !forwarded.contains(p) {
            if p == control_port {
                assert(m[0] == p);
            } else {
                assert(m[m.len() - 1] == p);
            }
        }
    }
}

/// With two distinct required ports, none forwarded gives two forward
/// requests, one per port, and both forwarded gives none.
pub proof fn lemma_missing_ports_count(control_port: u16, stream_port: u16, forwarded: Seq<u16>)
    requires
        control_port != stream_port,
    ensures
        !forwarded.contains(control_port) && !forwarded.contains(stream_port) ==> missing_ports_spec(
            control_port,
            stream_port,
            forwarded,
        ) == seq![control_port, stream_port],
        forwarded.contains(control_port) && forwarded.contains(stream_port) ==> missing_ports_spec(
            control_port,
            stream_port,
            forwarded,
        ).len() == 0,
{
    assert(seq![control_port] + seq![stream_port] =~= seq![control_port, stream_port]);
}

/// Once the missing ports have been forwarded, a second pass finds none
/// missing.
pub proof fn lemma_missing_ports_settle(control_port: u16, stream_port: u16, forwarded: Seq<u16>)
    ensures
        missing_ports_spec(
            control_port,
            stream_port,
            forwarded + missing_ports_spec(control_port, stream_port, forwarded),
        ).len() == 0,
{
    let m = missing_ports_spec(control_port, stream_port, forwarded);
    let f2 = forwarded + m;
    lemma_missing_ports_exact(control_port, stream_port, forwarded);
    assert forall|p: u16| forwarded.contains(p) implies f2.contains(p) by {
        {
            let i = choose|i: int| 0 <= i < forwarded.len() && forwarded[i] == p;
            assert(f2[i] == p);
        }
    }
    assert forall|p: u16| m.contains(p) implies f2.contains(p) by {
        {
            let i = choose|i: int| 0 <= i < m.len() && m[i] == p;
            assert(f2[forwarded.len() + i] == p);
        }
    }
    assert(f2.contains(control_port));
    assert(f2.contains(stream_port));
}

} // verus!
