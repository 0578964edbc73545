use crate::text::{format_ipv4, ipv4_text};
use vstd::prelude::*;

verus! {

/// Bytes of one row of the TCP table (state, local address and port, remote
/// address and port, owning pid; each a 32-bit field).
pub const TCP_ROW_BYTES: usize = 24;

/// Bytes of one row of the UDP table (local address and port, owning pid).
pub const UDP_ROW_BYTES: usize = 12;

/// The little-endian 32-bit value at `off`.
pub open spec fn le_u32(b: Seq<u8>, off: int) -> int {
    b[off] + b[off + 1] * 256 + b[off + 2] * 65536 + b[off + 3] * 16777216
}

/// A port stored in network byte order in the first two bytes at `off`.
pub open spec fn be_port(b: Seq<u8>, off: int) -> int {
    b[off] * 256 + b[off + 1]
}

/// Rows that the table announces and that the buffer actually holds.
pub open spec fn table_rows(b: Seq<u8>, row_bytes: int) -> int {
    if b.len() < 4 {
        0
    } else {
        let room = (b.len() - 4) / row_bytes;
        if le_u32(b, 0) < room {
            le_u32(b, 0)
        } else {
            room
        }
    }
}

/// Byte offset of row `i`.
pub open spec fn row_offset(i: int, row_bytes: int) -> int {
    4 + i * row_bytes
}

/// The indices below `n` of the rows owned by `pid`.
pub open spec fn owned_rows(b: Seq<u8>, row_bytes: int, pid_field: int, pid: u32, n: int) -> Seq<int>
    decreases n,
{
    if n <= 0 {
        Seq::empty()
    } else if le_u32(b, row_offset(n - 1, row_bytes) + pid_field) == pid {
        owned_rows(b, row_bytes, pid_field, pid, n - 1).push(n - 1)
    } else {
        owned_rows(b, row_bytes, pid_field, pid, n - 1)
    }
}

/// Name of a TCP connection state code.
pub open spec fn tcp_state_text(state: int) -> Seq<char> {
    if state == 1 {
        "CLOSED"@
    } else if state == 2 {
        "LISTEN"@
    } else if state == 3 {
        "SYN_SENT"@
    } else if state == 4 {
        "SYN_RCVD"@
    } else if state == 5 {
        "ESTABLISHED"@
    } else if state == 6 {
        "FIN_WAIT1"@
    } else if state == 7 {
        "FIN_WAIT2"@
    } else if state == 8 {
        "CLOSE_WAIT"@
    } else if state == 9 {
        "CLOSING"@
    } else if state == 10 {
        "LAST_ACK"@
    } else if state == 11 {
        "TIME_WAIT"@
    } else if state == 12 {
        "DELETE_TCB"@
    } else {
        "UNKNOWN"@
    }
}

/// The name of a TCP connection state code.
pub fn tcp_state_name(state: u32) -> (r: &'static str)
    ensures
        r@ == tcp_state_text(state as int),
{
    match state {
        1 => "CLOSED",
        2 => "LISTEN",
        3 => "SYN_SENT",
        4 => "SYN_RCVD",
        5 => "ESTABLISHED",
        6 => "FIN_WAIT1",
        7 => "FIN_WAIT2",
        8 => "CLOSE_WAIT",
        9 => "CLOSING",
        10 => "LAST_ACK",
        11 => "TIME_WAIT",
        12 => "DELETE_TCB",
        _ => "UNKNOWN",
    }
}

/// An IPv4 TCP connection of a process.
#[derive(Debug, Clone)]
pub struct TcpConnectionInfo {
    pub local_addr: String,
    pub local_port: u16,
    pub remote_addr: String,
    pub remote_port: u16,
    pub state: String,
}

/// An IPv4 UDP endpoint of a process.
#[derive(Debug, Clone)]
pub struct UdpEndpointInfo {
    pub local_addr: String,
    pub local_port: u16,
}

/// `c` is TCP row `i` of table `b`.
pub open spec fn tcp_row_is(c: TcpConnectionInfo, b: Seq<u8>, i: int) -> bool {
    let off = row_offset(i, TCP_ROW_BYTES as int);
    &&& c.state@ == tcp_state_text(le_u32(b, off))
    &&& c.local_addr@ == ipv4_text(le_u32(b, off + 4) as u32)
    &&& c.local_port as int == be_port(b, off + 8)
    &&& c.remote_addr@ == ipv4_text(le_u32(b, off + 12) as u32)
    &&& c.remote_port as int == be_port(b, off + 16)
}

/// `e` is UDP row `i` of table `b`.
pub open spec fn udp_row_is(e: UdpEndpointInfo, b: Seq<u8>, i: int) -> bool {
    let off = row_offset(i, UDP_ROW_BYTES as int);
    &&& e.local_addr@ == ipv4_text(le_u32(b, off) as u32)
    &&& e.local_port as int == be_port(b, off + 4)
}

fn read_le_u32(b: &[u8], off: usize) -> (r: u32)
    requires
        off + 4 <= b@.len(),
    ensures
        r as int == le_u32(b@, off as int),
{
    let (b0, b1, b2, b3) = (b[off] as u32, b[off + 1] as u32, b[off + 2] as u32, b[off + 3] as u32);
    assert(b0 + b1 * 256 + b2 * 65536 + b3 * 16777216 <= 0xffff_ffff) by (nonlinear_arith)
        requires
            b0 <= 255 && b1 <= 255 && b2 <= 255 && b3 <= 255,
    ;
    b0 + b1 * 256 + b2 * 65536 + b3 * 16777216
}

fn read_be_port(b: &[u8], off: usize) -> (r: u16)
    requires
        off + 2 <= b@.len(),
    ensures
        r as int == be_port(b@, off as int),
{
    let hi = b[off] as u16;
    let lo = b[off + 1] as u16;
    assert(hi * 256 + lo <= 0xffff) by (nonlinear_arith)
        requires
            hi <= 255 && lo <= 255,
    ;
    hi * 256 + lo
}

fn tcp_row(b: &[u8], off: usize, i: Ghost<int>) -> (c: TcpConnectionInfo)
    requires
        off as int == row_offset(i@, TCP_ROW_BYTES as int),
        off + TCP_ROW_BYTES <= b@.len() <= usize::MAX,
    ensures
        tcp_row_is(c, b@, i@),
{
    TcpConnectionInfo {
        local_addr: format_ipv4(read_le_u32(b, off + 4)),
        local_port: read_be_port(b, off + 8),
        remote_addr: format_ipv4(read_le_u32(b, off + 12)),
        remote_port: read_be_port(b, off + 16),
        state: tcp_state_name(read_le_u32(b, off)).to_string(),
    }
}

fn udp_row(b: &[u8], off: usize, i: Ghost<int>) -> (e: UdpEndpointInfo)
    requires
        off as int == row_offset(i@, UDP_ROW_BYTES as int),
        off + UDP_ROW_BYTES <= b@.len() <= usize::MAX,
    ensures
        udp_row_is(e, b@, i@),
{
    UdpEndpointInfo {
        local_addr: format_ipv4(read_le_u32(b, off)),
        local_port: read_be_port(b, off + 4),
    }
}

fn row_count(b: &[u8], row_bytes: usize) -> (r: usize)
    requires
        row_bytes > 0,
    ensures
        r as int == table_rows(b@, row_bytes as int),
        4 + r * row_bytes <= b@.len() || r == 0,
{
    if b.len() < 4 {
        return 0;
    }
    let announced = read_le_u32(b, 0) as usize;
    let room = (b.len() - 4) / row_bytes;
    assert(4 + room * row_bytes <= b@.len()) by (nonlinear_arith)
        requires
            room == (b@.len() - 4) / (row_bytes as int),
            row_bytes > 0,
            b@.len() >= 4,
    ;
    if announced < room {
        assert(4 + announced * row_bytes <= 4 + room * row_bytes) by (nonlinear_arith)
            requires
                announced < room,
        ;
        announced
    } else {
        room
    }
}

/// The TCP connections of process `pid` in an IPv4 TCP table with owning
/// pids (a 32-bit row count followed by rows of six 32-bit fields), in
/// table order. Rows past the end of the buffer are ignored.
pub fn parse_tcp_table(b: &[u8], pid: u32) -> (r: Vec<TcpConnectionInfo>)
    ensures
        ({
            let rows = owned_rows(b@, TCP_ROW_BYTES as int, 20, pid, table_rows(b@, TCP_ROW_BYTES as int));
            &&& r@.len() == rows.len()
            &&& forall|k: int| 0 <= k < r@.len() ==> tcp_row_is(#[trigger] r@[k], b@, rows[k])
        }),
{
    let n = row_count(b, TCP_ROW_BYTES);
    let len = b.len();
    let mut r: Vec<TcpConnectionInfo> = Vec::new();
    let mut i: usize = 0;
    while i < n
        invariant
            i <= n,
            n as int == table_rows(b@, TCP_ROW_BYTES as int),
            len == b@.len(),
            4 + n * TCP_ROW_BYTES <= b@.len() || n == 0,
            r@.len() == owned_rows(b@, TCP_ROW_BYTES as int, 20, pid, i as int).len(),
            forall|k: int|
                0 <= k < r@.len() ==> tcp_row_is(
                    #[trigger] r@[k],
                    b@,
                    owned_rows(b@, TCP_ROW_BYTES as int, 20, pid, i as int)[k],
                ),
        decreases n - i,
    {
        assert(4 + i * TCP_ROW_BYTES + TCP_ROW_BYTES <= 4 + n * TCP_ROW_BYTES) by (nonlinear_arith)
            requires
                i < n,
        ;
        let off = 4 + i * TCP_ROW_BYTES;
        let ghost before = r@;
        if read_le_u32(b, off + 20) == pid {
            let c = tcp_row(b, off, Ghost(i as int));
            r.push(c);
            proof {
                assert forall|k: int| 0 <= k < r@.len() implies tcp_row_is(
                    #[trigger] r@[k],
                    b@,
                    owned_rows(b@, TCP_ROW_BYTES as int, 20, pid, i + 1)[k],
                ) by {
                    if k < before.len() {
                        assert(r@[k] == before[k]);
                    }
                }
            }
        }
        i += 1;
    }
    r
}

/// The UDP endpoints of process `pid` in an IPv4 UDP table with owning pids
/// (a 32-bit row count followed by rows of three 32-bit fields), in table
/// order. Rows past the end of the buffer are ignored.
pub fn parse_udp_table(b: &[u8], pid: u32) -> (r: Vec<UdpEndpointInfo>)
    ensures
        ({
            let rows = owned_rows(b@, UDP_ROW_BYTES as int, 8, pid, table_rows(b@, UDP_ROW_BYTES as int));
            &&& r@.len() == rows.len()
            &&& forall|k: int| 0 <= k < r@.len() ==> udp_row_is(#[trigger] r@[k], b@, rows[k])
        }),
{
    let n = row_count(b, UDP_ROW_BYTES);
    let len = b.len();
    let mut r: Vec<UdpEndpointInfo> = Vec::new();
    let mut i: usize = 0;
    while i < n
        invariant
            i <= n,
            n as int == table_rows(b@, UDP_ROW_BYTES as int),
            len == b@.len(),
            4 + n * UDP_ROW_BYTES <= b@.len() || n == 0,
            r@.len() == owned_rows(b@, UDP_ROW_BYTES as int, 8, pid, i as int).len(),
            forall|k: int|
                0 <= k < r@.len() ==> udp_row_is(
                    #[trigger] r@[k],
                    b@,
                    owned_rows(b@, UDP_ROW_BYTES as int, 8, pid, i as int)[k],
                ),
        decreases n - i,
    {
        assert(4 + i * UDP_ROW_BYTES + UDP_ROW_BYTES <= 4 + n * UDP_ROW_BYTES) by (nonlinear_arith)
            requires
                i < n,
        ;
        let off = 4 + i * UDP_ROW_BYTES;
        let ghost before = r@;
        if read_le_u32(b, off + 8) == pid {
            let e = udp_row(b, off, Ghost(i as int));
            r.push(e);
            proof {
                assert forall|k: int| 0 <= k < r@.len() implies udp_row_is(
                    #[trigger] r@[k],
                    b@,
                    owned_rows(b@, UDP_ROW_BYTES as int, 8, pid, i + 1)[k],
                ) by {
                    if k < before.len() {
                        assert(r@[k] == before[k]);
                    }
                }
            }
        }
        i += 1;
    }
    r
}

} // verus!
