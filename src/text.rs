use vstd::prelude::*;
use crate::socket::{IpAddress, TcpSocketInfo, TcpState, UdpSocketInfo};

verus! {

/// The digit for `d < 10`.
pub open spec fn digit_text(d: nat) -> Seq<char> {
    if d == 0 {
        "0"@
    } else if d == 1 {
        "1"@
    } else if d == 2 {
        "2"@
    } else if d == 3 {
        "3"@
    } else if d == 4 {
        "4"@
    } else if d == 5 {
        "5"@
    } else if d == 6 {
        "6"@
    } else if d == 7 {
        "7"@
    } else if d == 8 {
        "8"@
    } else {
        "9"@
    }
}

/// The decimal digits of `n`, without leading zeros.
pub open spec fn decimal_text(n: nat) -> Seq<char>
    decreases n,
{
    if n < 10 {
        digit_text(n)
    } else {
        decimal_text(n / 10) + digit_text(n % 10)
    }
}

/// The text form of an IPv6 address given by its 128 bits.
pub uninterp spec fn ipv6_text_of(bits: u128) -> Seq<char>;

/// An address in its usual text form: dotted decimal for IPv4.
pub open spec fn addr_text(a: IpAddress) -> Seq<char> {
    match a {
        IpAddress::V4(a0, a1, a2, a3) => decimal_text(a0 as nat) + "."@ + decimal_text(a1 as nat)
            + "."@ + decimal_text(a2 as nat) + "."@ + decimal_text(a3 as nat),
        IpAddress::V6(bits) => ipv6_text_of(bits),
    }
}

/// The process ids, separated by ", ".
pub open spec fn joined_pids(p: Seq<u32>) -> Seq<char>
    decreases p.len(),
{
    if p.len() == 0 {
        Seq::empty()
    } else if p.len() == 1 {
        decimal_text(p[0] as nat)
    } else {
        joined_pids(p.drop_last()) + ", "@ + decimal_text(p.last() as nat)
    }
}

/// The process ids as a bracketed list, such as `[2, 3]`.
pub open spec fn pids_text(p: Seq<u32>) -> Seq<char> {
    "["@ + joined_pids(p) + "]"@
}

/// The name under which a TCP state is shown.
pub open spec fn state_text(s: TcpState) -> Seq<char> {
    match s {
        TcpState::Closed => "CLOSED"@,
        TcpState::Listen => "LISTEN"@,
        TcpState::SynSent => "SYN_SENT"@,
        TcpState::SynReceived => "SYN_RCVD"@,
        TcpState::Established => "ESTABLISHED"@,
        TcpState::FinWait1 => "FIN_WAIT_1"@,
        TcpState::FinWait2 => "FIN_WAIT_2"@,
        TcpState::CloseWait => "CLOSE_WAIT"@,
        TcpState::Closing => "CLOSING"@,
        TcpState::LastAck => "LAST_ACK"@,
        TcpState::TimeWait => "TIME_WAIT"@,
        TcpState::DeleteTcb => "DELETE_TCB"@,
        TcpState::Unknown => "__UNKNOWN"@,
    }
}

/// `local[ADDR:PORT] -> remote[ADDR:PORT]; pids[..]; state: STATE`
pub open spec fn tcp_line(t: TcpSocketInfo, pids: Seq<u32>) -> Seq<char> {
    "local["@ + addr_text(t.local_addr) + ":"@ + decimal_text(t.local_port as nat)
        + "] -> remote["@ + addr_text(t.remote_addr) + ":"@ + decimal_text(t.remote_port as nat)
        + "]; pids"@ + pids_text(pids) + "; state: "@ + state_text(t.state)
}

/// `local[ADDR:PORT] -> *:*; pids[..]`
pub open spec fn udp_line(u: UdpSocketInfo, pids: Seq<u32>) -> Seq<char> {
    "local["@ + addr_text(u.local_addr) + ":"@ + decimal_text(u.local_port as nat)
        + "] -> *:*; pids"@ + pids_text(pids)
}

fn push_digit(s: &mut String, d: u32)
    requires
        d < 10,
    ensures
        final(s)@ == old(s)@ + digit_text(d as nat),
{
    if d == 0 {
        s.append("0");
    } else if d == 1 {
        s.append("1");
    } else if d == 2 {
        s.append("2");
    } else if d == 3 {
        s.append("3");
    } else if d == 4 {
        s.append("4");
    } else if d == 5 {
        s.append("5");
    } else if d == 6 {
        s.append("6");
    } else if d == 7 {
        s.append("7");
    } else if d == 8 {
        s.append("8");
    } else {
        s.append("9");
    }
}

/// Appends the decimal digits of `n`.
pub fn push_decimal(s: &mut String, n: u32)
    ensures
        final(s)@ == old(s)@ + decimal_text(n as nat),
    decreases n,
{
    if n < 10 {
        push_digit(s, n);
    } else {
        push_decimal(s, n / 10);
        push_digit(s, n % 10);
        assert(final(s)@ =~= old(s)@ + decimal_text(n as nat));
    }
}

/// Relies on the `Display` impl of `core::net::Ipv6Addr`, applied to the
/// address made from these 128 bits; its text depends on the bits alone.
#[verifier::external_body]
fn ipv6_text(bits: u128) -> (r: String)
    ensures
        r@ == ipv6_text_of(bits),
{
    core::net::Ipv6Addr::from(bits).to_string()
}

/// Appends the text form of an address.
pub fn push_addr(s: &mut String, a: IpAddress)
    ensures
        final(s)@ == old(s)@ + addr_text(a),
{
    match a {
        IpAddress::V4(a0, a1, a2, a3) => {
            push_decimal(s, a0 as u32);
            s.append(".");
            push_decimal(s, a1 as u32);
            s.append(".");
            push_decimal(s, a2 as u32);
            s.append(".");
            push_decimal(s, a3 as u32);
            assert(final(s)@ =~= old(s)@ + addr_text(a));
        },
        IpAddress::V6(bits) => {
            let t = ipv6_text(bits);
            s.append(t.as_str());
        },
    }
}

/// Appends the process ids as a bracketed, comma-separated list.
pub fn push_pids(s: &mut String, pids: &Vec<u32>)
    ensures
        final(s)@ == old(s)@ + pids_text(pids@),
{
    let ghost start = s@;
    s.append("[");
    let mut i: usize = 0;
    while i < pids.len()
        invariant
            i <= pids.len(),
            s@ == start + "["@ + joined_pids(pids@.take(i as int)),
        decreases pids.len() - i,
    {
        if i > 0 {
            s.append(", ");
        }
        push_decimal(s, pids[i]);
        proof {
            let t = pids@.take(i + 1);
            assert(t.drop_last() =~= pids@.take(i as int));
            if i == 0 {
                assert(joined_pids(pids@.take(0)) =~= Seq::<char>::empty());
            }
        }
        i = i + 1;
        assert(s@ =~= start + "["@ + joined_pids(pids@.take(i as int)));
    }
    assert(pids@.take(pids.len() as int) =~= pids@);
    s.append("]");
    assert(s@ =~= start + pids_text(pids@));
}

/// The name of a TCP state.
pub fn state_str(st: TcpState) -> (r: &'static str)
    ensures
        r@ == state_text(st),
{
    match st {
        TcpState::Closed => "CLOSED",
        TcpState::Listen => "LISTEN",
        TcpState::SynSent => "SYN_SENT",
        TcpState::SynReceived => "SYN_RCVD",
        TcpState::Established => "ESTABLISHED",
        TcpState::FinWait1 => "FIN_WAIT_1",
        TcpState::FinWait2 => "FIN_WAIT_2",
        TcpState::CloseWait => "CLOSE_WAIT",
        TcpState::Closing => "CLOSING",
        TcpState::LastAck => "LAST_ACK",
        TcpState::TimeWait => "TIME_WAIT",
        TcpState::DeleteTcb => "DELETE_TCB",
        TcpState::Unknown => "__UNKNOWN",
    }
}

/// The display line of a TCP socket.
pub fn tcp_socket_to_string(tcp_si: &TcpSocketInfo, associated_pids: &Vec<u32>) -> (r: String)
    ensures
        r@ == tcp_line(*tcp_si, associated_pids@),
{
    let mut s = String::new();
    s.append("local[");
    push_addr(&mut s, tcp_si.local_addr);
    s.append(":");
    push_decimal(&mut s, tcp_si.local_port as u32);
    s.append("] -> remote[");
    push_addr(&mut s, tcp_si.remote_addr);
    s.append(":");
    push_decimal(&mut s, tcp_si.remote_port as u32);
    s.append("]; pids");
    push_pids(&mut s, associated_pids);
    s.append("; state: ");
    s.append(state_str(tcp_si.state));
    assert(s@ =~= tcp_line(*tcp_si, associated_pids@));
    s
}

/// The display line of a UDP socket.
pub fn udp_socket_to_string(udp_si: &UdpSocketInfo, associated_pids: &Vec<u32>) -> (r: String)
    ensures
        r@ == udp_line(*udp_si, associated_pids@),
{
    let mut s = String::new();
    s.append("local[");
    push_addr(&mut s, udp_si.local_addr);
    s.append(":");
    push_decimal(&mut s, udp_si.local_port as u32);
    s.append("] -> *:*; pids");
    push_pids(&mut s, associated_pids);
    assert(s@ =~= udp_line(*udp_si, associated_pids@));
    s
}

} // verus!
