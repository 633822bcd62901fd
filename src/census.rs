//! Connection Census: classifies the process's own TCP sockets on the
//! listening port into connecting, established and closing.
use vstd::prelude::*;

verus! {

/// The state of a TCP socket.
#[derive(Debug, Clone, Copy, PartialEq, Eq, Structural)]
pub enum TcpState {
    Closed,
    Listen,
    SynSent,
    SynReceived,
    Established,
    FinWait1,
    FinWait2,
    CloseWait,
    Closing,
    LastAck,
    TimeWait,
    DeleteTcb,
    Unknown,
}

/// The census bucket of a socket.
#[derive(Debug, Clone, Copy, PartialEq, Eq, Structural)]
pub enum Bucket {
    Connecting,
    Established,
    Closing,
}

/// The bucket of a TCP state: SYN-received is connecting; FIN-WAIT-1/2,
/// CLOSE-WAIT, CLOSING, LAST-ACK and TIME-WAIT are closing; ESTABLISHED is
/// established; other states count nowhere.
pub open spec fn bucket_of(state: TcpState) -> Option<Bucket> {
    match state {
        TcpState::SynReceived => Some(Bucket::Connecting),
        TcpState::Established => Some(Bucket::Established),
        TcpState::FinWait1 | TcpState::FinWait2 | TcpState::CloseWait | TcpState::Closing
        | TcpState::LastAck | TcpState::TimeWait => Some(Bucket::Closing),
        _ => None,
    }
}

/// The bucket of a TCP state.
pub fn bucket(state: TcpState) -> (r: Option<Bucket>)
    ensures
        r == bucket_of(state),
{
    match state {
        TcpState::SynReceived => Some(Bucket::Connecting),
        TcpState::Established => Some(Bucket::Established),
        TcpState::FinWait1 | TcpState::FinWait2 | TcpState::CloseWait | TcpState::Closing
        | TcpState::LastAck | TcpState::TimeWait => Some(Bucket::Closing),
        _ => None,
    }
}

/// One socket as the operating system reports it.
#[derive(Debug, Clone)]
pub struct SocketRecord {
    /// The local port.
    pub local_port: u16,
    /// The TCP state; none for a socket of another protocol.
    pub state: Option<TcpState>,
    /// The processes that hold the socket.
    pub pids: Vec<u32>,
}

/// Counts of the sockets in each bucket.
#[derive(Debug, Clone, Copy, PartialEq, Eq, Structural)]
pub struct ConnectionSnapshot {
    pub connecting: usize,
    pub closing: usize,
    pub established: usize,
}

/// Whether a socket is a TCP socket of process `pid` on port `port` in bucket `b`.
pub open spec fn counted(s: SocketRecord, port: u16, pid: u32, b: Bucket) -> bool {
    &&& s.local_port == port
    &&& s.pids@.contains(pid)
    &&& match s.state {
        Some(st) => bucket_of(st) == Some(b),
        None => false,
    }
}

/// The number of sockets of `socks` counted in bucket `b`.
pub open spec fn count_in(socks: Seq<SocketRecord>, port: u16, pid: u32, b: Bucket) -> nat
    decreases socks.len(),
{
    if socks.len() == 0 {
        0
    } else {
        count_in(socks.drop_last(), port, pid, b) + if counted(socks.last(), port, pid, b) {
            1nat
        } else {
            0nat
        }
    }
}

proof fn lemma_count_le(socks: Seq<SocketRecord>, port: u16, pid: u32, b: Bucket)
    ensures
        count_in(socks, port, pid, b) <= socks.len(),
    decreases socks.len(),
{
    if socks.len() > 0 {
        lemma_count_le(socks.drop_last(), port, pid, b);
    }
}

fn holds_pid(pids: &Vec<u32>, pid: u32) -> (r: bool)
    ensures
        r == pids@.contains(pid),
{
    let mut i: usize = 0;
    while i < pids.len()
        invariant
            i <= pids@.len(),
            forall|j: int| 0 <= j < i ==> pids@[j] != pid,
        decreases pids@.len() - i,
    {
        if pids[i] == pid {
            return true;
        }
        i = i + 1;
    }
    false
}

impl ConnectionSnapshot {
    /// All counts zero, as when the sockets could not be listed.
    pub fn empty() -> (r: ConnectionSnapshot)
        ensures
            r.connecting == 0 && r.closing == 0 && r.established == 0,
    {
        ConnectionSnapshot { connecting: 0, closing: 0, established: 0 }
    }

    /// Classifies the TCP sockets of process `pid` bound to `port`.
    pub fn sample(sockets: &Vec<SocketRecord>, port: u16, pid: u32) -> (r: ConnectionSnapshot)
        ensures
            r.connecting == count_in(sockets@, port, pid, Bucket::Connecting),
            r.closing == count_in(sockets@, port, pid, Bucket::Closing),
            r.established == count_in(sockets@, port, pid, Bucket::Established),
    {
        let mut r = ConnectionSnapshot::empty();
        let mut i: usize = 0;
        while i < sockets.len()
            invariant
                i <= sockets@.len(),
                r.connecting == count_in(sockets@.take(i as int), port, pid, Bucket::Connecting),
                r.closing == count_in(sockets@.take(i as int), port, pid, Bucket::Closing),
                r.established == count_in(sockets@.take(i as int), port, pid, Bucket::Established),
            decreases sockets@.len() - i,
        {
            let ghost pre = sockets@.take(i as int);
            let ghost next = sockets@.take(i + 1);
            assert(next.drop_last() =~= pre);
            proof {
                lemma_count_le(pre, port, pid, Bucket::Connecting);
                lemma_count_le(pre, port, pid, Bucket::Closing);
                lemma_count_le(pre, port, pid, Bucket::Established);
            }
            let s = &sockets[i];
            if s.local_port == port && holds_pid(&s.pids, pid) {
                match s.state {
                    Some(st) => match bucket(st) {
                        Some(Bucket::Connecting) => {
                            r.connecting = r.connecting + 1;
                        },
                        Some(Bucket::Closing) => {
                            r.closing = r.closing + 1;
                        },
                        Some(Bucket::Established) => {
                            r.established = r.established + 1;
                        },
                        None => {},
                    },
                    None => {},
                }
            }
            i = i + 1;
        }
        assert(sockets@.take(i as int) =~= sockets@);
        r
    }
}

} // verus!
