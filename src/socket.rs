use vstd::prelude::*;

verus! {

/// An IP address as plain values: four octets, or the 128 bits of an IPv6 address.
#[derive(Debug, Clone, Copy, PartialEq, Eq, Structural)]
pub enum IpAddress {
    V4(u8, u8, u8, u8),
    V6(u128),
}

/// State of a TCP connection.
#[derive(Debug, Clone, Copy, PartialEq, Eq, Structural)]
pub enum TcpState {
    Closed,
    Listen,
    SynSent,
    SynReceived,
    Established,
    FinWait1,
    FinWait2,
    CloseWait,
    Closing,
    LastAck,
    TimeWait,
    DeleteTcb,
    Unknown,
}

/// TCP-specific socket information.
#[derive(Debug, Clone, Copy, PartialEq, Eq, Structural)]
pub struct TcpSocketInfo {
    pub local_addr: IpAddress,
    pub local_port: u16,
    pub remote_addr: IpAddress,
    pub remote_port: u16,
    pub state: TcpState,
}

/// UDP-specific socket information.
#[derive(Debug, Clone, Copy, PartialEq, Eq, Structural)]
pub struct UdpSocketInfo {
    pub local_addr: IpAddress,
    pub local_port: u16,
}

/// The protocol-specific part of a socket record.
#[derive(Debug, Clone, Copy, PartialEq, Eq, Structural)]
pub enum ProtocolSocketInfo {
    Tcp(TcpSocketInfo),
    Udp(UdpSocketInfo),
}

/// One enumerated socket with the processes that own it (possibly none).
#[derive(Debug)]
pub struct SocketInfo {
    pub protocol_socket_info: ProtocolSocketInfo,
    pub associated_pids: Vec<u32>,
}

/// One snapshot of the sockets, split by protocol.
#[derive(Debug)]
pub struct SocketsContainer {
    pub tcp_sockets: Vec<(TcpSocketInfo, Vec<u32>)>,
    pub udp_sockets: Vec<(UdpSocketInfo, Vec<u32>)>,
}

/// Whether a record is a TCP socket.
pub open spec fn is_tcp(s: SocketInfo) -> bool {
    s.protocol_socket_info is Tcp
}

/// The TCP entries of `s`, in the order in which they occur there.
pub open spec fn tcp_entries(s: Seq<SocketInfo>) -> Seq<(TcpSocketInfo, Seq<u32>)>
    decreases s.len(),
{
    if s.len() == 0 {
        Seq::empty()
    } else {
        let prev = tcp_entries(s.drop_last());
        match s.last().protocol_socket_info {
            ProtocolSocketInfo::Tcp(t) => prev.push((t, s.last().associated_pids@)),
            ProtocolSocketInfo::Udp(_) => prev,
        }
    }
}

/// The UDP entries of `s`, in the order in which they occur there.
pub open spec fn udp_entries(s: Seq<SocketInfo>) -> Seq<(UdpSocketInfo, Seq<u32>)>
    decreases s.len(),
{
    if s.len() == 0 {
        Seq::empty()
    } else {
        let prev = udp_entries(s.drop_last());
        match s.last().protocol_socket_info {
            ProtocolSocketInfo::Tcp(_) => prev,
            ProtocolSocketInfo::Udp(u) => prev.push((u, s.last().associated_pids@)),
        }
    }
}

/// Where the record at index `i` of `s` lands in its protocol's list: the
/// number of records of the same protocol before it.
pub open spec fn rank_of(s: Seq<SocketInfo>, i: int) -> int {
    if is_tcp(s[i]) {
        tcp_entries(s.take(i)).len() as int
    } else {
        udp_entries(s.take(i)).len() as int
    }
}

proof fn lemma_prefix(s: Seq<SocketInfo>, k: int)
    requires
        0 <= k <= s.len(),
    ensures
        tcp_entries(s.take(k)).len() <= tcp_entries(s).len(),
        udp_entries(s.take(k)).len() <= udp_entries(s).len(),
        forall|n: int|
            0 <= n < tcp_entries(s.take(k)).len() ==> tcp_entries(s.take(k))[n] == tcp_entries(
                s,
            )[n],
        forall|n: int|
            0 <= n < udp_entries(s.take(k)).len() ==> udp_entries(s.take(k))[n] == udp_entries(
                s,
            )[n],
    decreases s.len(),
{
    if k == s.len() {
        assert(s.take(k) =~= s);
    } else {
        lemma_prefix(s.drop_last(), k);
        assert(s.drop_last().take(k) =~= s.take(k));
    }
}

proof fn lemma_step(s: Seq<SocketInfo>, i: int)
    requires
        0 <= i < s.len(),
    ensures
        tcp_entries(s.take(i + 1)) == match s[i].protocol_socket_info {
            ProtocolSocketInfo::Tcp(t) => tcp_entries(s.take(i)).push((t, s[i].associated_pids@)),
            ProtocolSocketInfo::Udp(_) => tcp_entries(s.take(i)),
        },
        udp_entries(s.take(i + 1)) == match s[i].protocol_socket_info {
            ProtocolSocketInfo::Tcp(_) => udp_entries(s.take(i)),
            ProtocolSocketInfo::Udp(u) => udp_entries(s.take(i)).push((u, s[i].associated_pids@)),
        },
{
    assert(s.take(i + 1).drop_last() =~= s.take(i));
}

/// Splitting loses and invents nothing: the two lists together are as long
/// as the input, and each record stands, with its owners, at its rank in the
/// list of its own protocol.
pub proof fn lemma_partition_complete(s: Seq<SocketInfo>)
    ensures
        tcp_entries(s).len() + udp_entries(s).len() == s.len(),
        forall|i: int|
            0 <= i < s.len() ==> match #[trigger] s[i].protocol_socket_info {
                ProtocolSocketInfo::Tcp(t) => 0 <= rank_of(s, i) < tcp_entries(s).len()
                    && tcp_entries(s)[rank_of(s, i)] == (t, s[i].associated_pids@),
                ProtocolSocketInfo::Udp(u) => 0 <= rank_of(s, i) < udp_entries(s).len()
                    && udp_entries(s)[rank_of(s, i)] == (u, s[i].associated_pids@),
            },
    decreases s.len(),
{
    if s.len() > 0 {
        lemma_partition_complete(s.drop_last());
    }
    assert forall|i: int| 0 <= i < s.len() implies match #[trigger] s[i].protocol_socket_info {
        ProtocolSocketInfo::Tcp(t) => 0 <= rank_of(s, i) < tcp_entries(s).len()
            && tcp_entries(s)[rank_of(s, i)] == (t, s[i].associated_pids@),
        ProtocolSocketInfo::Udp(u) => 0 <= rank_of(s, i) < udp_entries(s).len()
            && udp_entries(s)[rank_of(s, i)] == (u, s[i].associated_pids@),
    } by {
        lemma_step(s, i);
        lemma_prefix(s, i + 1);
    }
}

/// Splitting keeps order: of two records of one protocol, the earlier one in
/// the input stands earlier in that protocol's list.
pub proof fn lemma_partition_keeps_order(s: Seq<SocketInfo>, i: int, j: int)
    requires
        0 <= i < j < s.len(),
        is_tcp(s[i]) == is_tcp(s[j]),
    ensures
        rank_of(s, i) < rank_of(s, j),
{
    lemma_step(s, i);
    lemma_prefix(s.take(j), i + 1);
    assert(s.take(j).take(i + 1) =~= s.take(i + 1));
}

impl SocketsContainer {
    pub open spec fn tcp_view(&self) -> Seq<(TcpSocketInfo, Seq<u32>)> {
        self.tcp_sockets@.map_values(|e: (TcpSocketInfo, Vec<u32>)| (e.0, e.1@))
    }

    pub open spec fn udp_view(&self) -> Seq<(UdpSocketInfo, Seq<u32>)> {
        self.udp_sockets@.map_values(|e: (UdpSocketInfo, Vec<u32>)| (e.0, e.1@))
    }

    /// An empty snapshot.
    pub fn new() -> (r: SocketsContainer)
        ensures
            r.tcp_view() == Seq::<(TcpSocketInfo, Seq<u32>)>::empty(),
            r.udp_view() == Seq::<(UdpSocketInfo, Seq<u32>)>::empty(),
    {
        let r = SocketsContainer { tcp_sockets: Vec::new(), udp_sockets: Vec::new() };
        assert(r.tcp_view() =~= Seq::<(TcpSocketInfo, Seq<u32>)>::empty());
        assert(r.udp_view() =~= Seq::<(UdpSocketInfo, Seq<u32>)>::empty());
        r
    }
}

/// Relies on `Vec::shrink_to_fit`, which lowers the capacity and keeps the elements.
#[verifier::external_body]
fn shrink_to_fit<T>(v: &mut Vec<T>)
    ensures
        final(v)@ == old(v)@,
{
    v.shrink_to_fit()
}

/// A copy of a list of process ids.
pub(crate) fn clone_pids(p: &Vec<u32>) -> (r: Vec<u32>)
    ensures
        r@ == p@,
{
    let mut r: Vec<u32> = Vec::with_capacity(p.len());
    let mut i: usize = 0;
    while i < p.len()
        invariant
            i <= p.len(),
            r@ == p@.take(i as int),
        decreases p.len() - i,
    {
        r.push(p[i]);
        i = i + 1;
        assert(r@ =~= p@.take(i as int));
    }
    assert(p@.take(p.len() as int) =~= p@);
    r
}

/// Routes each record to the list of its protocol, keeping the order of the input.
pub fn split_sockets(sockets_info: Vec<SocketInfo>) -> (r: SocketsContainer)
    ensures
        r.tcp_view() == tcp_entries(sockets_info@),
        r.udp_view() == udp_entries(sockets_info@),
{
    let sockets_len = sockets_info.len();
    let mut tcp: Vec<(TcpSocketInfo, Vec<u32>)> = Vec::with_capacity(sockets_len);
    let mut udp: Vec<(UdpSocketInfo, Vec<u32>)> = Vec::with_capacity(sockets_len);
    let mut i: usize = 0;
    while i < sockets_len
        invariant
            sockets_len == sockets_info@.len(),
            i <= sockets_len,
            (SocketsContainer { tcp_sockets: tcp, udp_sockets: udp }).tcp_view() == tcp_entries(
                sockets_info@.take(i as int),
            ),
            (SocketsContainer { tcp_sockets: tcp, udp_sockets: udp }).udp_view() == udp_entries(
                sockets_info@.take(i as int),
            ),
        decreases sockets_len - i,
    {
        let si = &sockets_info[i];
        let pids = clone_pids(&si.associated_pids);
        let ghost old_tcp = tcp@;
        let ghost old_udp = udp@;
        match si.protocol_socket_info {
            ProtocolSocketInfo::Tcp(t) => tcp.push((t, pids)),
            ProtocolSocketInfo::Udp(u) => udp.push((u, pids)),
        }
        proof {
            let s = sockets_info@.take(i + 1);
            assert(s.drop_last() =~= sockets_info@.take(i as int));
            assert(s.last() == sockets_info@[i as int]);
        }
        i = i + 1;
        assert((SocketsContainer { tcp_sockets: tcp, udp_sockets: udp }).tcp_view() =~= tcp_entries(
            sockets_info@.take(i as int),
        ));
        assert((SocketsContainer { tcp_sockets: tcp, udp_sockets: udp }).udp_view() =~= udp_entries(
            sockets_info@.take(i as int),
        ));
    }
    assert(sockets_info@.take(sockets_len as int) =~= sockets_info@);
    shrink_to_fit(&mut tcp);
    shrink_to_fit(&mut udp);
    SocketsContainer { tcp_sockets: tcp, udp_sockets: udp }
}

} // verus!
