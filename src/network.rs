//! Network tables: interfaces and their counters, and open sockets.

use vstd::prelude::*;

use crate::procs::or_empty;
use crate::table::{cells, column, columns_view, Cell, Column, ColumnType, Record, Value};
use crate::text::same_text;

verus! {

/// One network interface and its traffic counters.
#[derive(Debug)]
pub struct NetworkInfo {
    pub interface_name: String,
    pub mac_address: String,
    pub rx_bytes: u64,
    pub tx_bytes: u64,
    pub rx_packets: u64,
    pub tx_packets: u64,
    pub rx_errors: u64,
    pub tx_errors: u64,
}

impl Record for NetworkInfo {
    open spec fn spec_schema() -> Seq<(Seq<char>, ColumnType)> {
        seq![
            ("interface_name"@, ColumnType::Varchar),
            ("mac_address"@, ColumnType::Varchar),
            ("rx_bytes"@, ColumnType::UBigInt),
            ("tx_bytes"@, ColumnType::UBigInt),
            ("rx_packets"@, ColumnType::UBigInt),
            ("tx_packets"@, ColumnType::UBigInt),
            ("rx_errors"@, ColumnType::UBigInt),
            ("tx_errors"@, ColumnType::UBigInt),
        ]
    }

    open spec fn spec_row(&self) -> Seq<Cell> {
        seq![
            Cell::Text(self.interface_name@),
            Cell::Text(self.mac_address@),
            Cell::UBigInt(self.rx_bytes),
            Cell::UBigInt(self.tx_bytes),
            Cell::UBigInt(self.rx_packets),
            Cell::UBigInt(self.tx_packets),
            Cell::UBigInt(self.rx_errors),
            Cell::UBigInt(self.tx_errors),
        ]
    }

    fn schema() -> (r: Vec<Column>) {
        let r = vec![
            column("interface_name", ColumnType::Varchar),
            column("mac_address", ColumnType::Varchar),
            column("rx_bytes", ColumnType::UBigInt),
            column("tx_bytes", ColumnType::UBigInt),
            column("rx_packets", ColumnType::UBigInt),
            column("tx_packets", ColumnType::UBigInt),
            column("rx_errors", ColumnType::UBigInt),
            column("tx_errors", ColumnType::UBigInt),
        ];
        assert(columns_view(r@) =~= Self::spec_schema());
        r
    }

    fn row(&self) -> (r: Vec<Value>) {
        let r = vec![
            Value::Text(self.interface_name.clone()),
            Value::Text(self.mac_address.clone()),
            Value::UBigInt(self.rx_bytes),
            Value::UBigInt(self.tx_bytes),
            Value::UBigInt(self.rx_packets),
            Value::UBigInt(self.tx_packets),
            Value::UBigInt(self.rx_errors),
            Value::UBigInt(self.tx_errors),
        ];
        assert(cells(r@) =~= self.spec_row());
        r
    }
}

/// The transport protocol of a socket.
#[derive(Clone, Copy, Debug, PartialEq, Eq, Structural)]
pub enum Protocol {
    Tcp,
    Udp,
}

/// The name under which a protocol is reported and filtered.
pub open spec fn protocol_label(p: Protocol) -> Seq<char> {
    match p {
        Protocol::Tcp => "TCP"@,
        Protocol::Udp => "UDP"@,
    }
}

impl Protocol {
    /// The name under which this protocol is reported and filtered.
    pub fn label(&self) -> (r: &'static str)
        ensures
            r@ == protocol_label(*self),
    {
        match self {
            Protocol::Tcp => "TCP",
            Protocol::Udp => "UDP",
        }
    }
}

/// One open socket as the host lists it. A UDP socket has no remote end
/// and no state; what these fields hold for one is not reported.
#[derive(Debug)]
pub struct SocketEntry {
    pub protocol: Protocol,
    pub local_address: String,
    pub local_port: u16,
    pub remote_address: String,
    pub remote_port: u16,
    pub state: String,
    /// The processes that hold the socket, in the host's order.
    pub pids: Vec<u32>,
}

/// The name of one running process.
#[derive(Debug)]
pub struct ProcessName {
    pub pid: u32,
    pub name: String,
}

/// One open socket as the ports table reports it.
#[derive(Debug)]
pub struct PortInfo {
    pub protocol: Protocol,
    pub local_address: String,
    pub local_port: u16,
    pub remote_address: String,
    pub remote_port: u16,
    pub state: String,
    /// The first process that holds the socket.
    pub pid: Option<u32>,
    /// That process's name, where it is known.
    pub process_name: Option<String>,
}

/// The name of the first process in `names` with the pid `pid`.
pub open spec fn lookup_name(names: Seq<ProcessName>, pid: u32) -> Option<String>
    decreases names.len(),
{
    if names.len() == 0 {
        None
    } else if names[0].pid == pid {
        Some(names[0].name)
    } else {
        lookup_name(names.drop_first(), pid)
    }
}

/// The name of the first process in `names` with the pid `pid`.
pub fn find_name(names: &Vec<ProcessName>, pid: u32) -> (r: Option<String>)
    ensures
        r == lookup_name(names@, pid),
{
    let n = names.len();
    let mut i: usize = 0;
    assert(names@.subrange(0, n as int) =~= names@);
    while i < n
        invariant
            i <= n == names@.len(),
            lookup_name(names@, pid) == lookup_name(names@.subrange(i as int, n as int), pid),
        decreases n - i,
    {
        assert(names@.subrange(i as int, n as int).drop_first() =~= names@.subrange(
            i + 1,
            n as int,
        ));
        if names[i].pid == pid {
            return Some(names[i].name.clone());
        }
        i = i + 1;
    }
    None
}

/// A socket of protocol `p` passes the upper-case filter `filter`: there is
/// none, or it is the protocol's name.
pub open spec fn protocol_passes(filter: Option<String>, p: Protocol) -> bool {
    match filter {
        Some(f) => f@ == protocol_label(p),
        None => true,
    }
}

/// The first of the pids, if any.
pub open spec fn first_pid(pids: Seq<u32>) -> Option<u32> {
    if pids.len() > 0 {
        Some(pids[0])
    } else {
        None
    }
}

/// The port reported for socket `e`, if it passes the filter.
pub open spec fn reported_port(
    filter: Option<String>,
    names: Seq<ProcessName>,
    e: SocketEntry,
) -> Option<PortInfo> {
    if protocol_passes(filter, e.protocol) {
        let pid = first_pid(e.pids@);
        Some(
            PortInfo {
                protocol: e.protocol,
                local_address: e.local_address,
                local_port: e.local_port,
                remote_address: e.remote_address,
                remote_port: e.remote_port,
                state: e.state,
                pid,
                process_name: match pid {
                    Some(p) => lookup_name(names, p),
                    None => None,
                },
            },
        )
    } else {
        None
    }
}

/// Whether a socket of protocol `p` passes the upper-case filter `filter`.
pub fn protocol_selected(filter: &Option<String>, p: Protocol) -> (r: bool)
    ensures
        r == protocol_passes(*filter, p),
{
    match filter {
        Some(f) => same_text(f.as_str(), p.label()),
        None => true,
    }
}

/// The ports reported for the sockets that pass the filter, in their order,
/// each with its first process and that process's name from `names`.
pub fn collect_ports(
    sockets: &Vec<SocketEntry>,
    filter: &Option<String>,
    names: &Vec<ProcessName>,
) -> (r: Vec<PortInfo>)
    ensures
        r@ == sockets@.filter_map(|e: SocketEntry| reported_port(*filter, names@, e)),
{
    let mut out: Vec<PortInfo> = Vec::new();
    for i in 0..sockets.len()
        invariant
            out@ == sockets@.take(i as int).filter_map(
                |e: SocketEntry| reported_port(*filter, names@, e),
            ),
    {
        assert(sockets@.take(i + 1).drop_last() =~= sockets@.take(i as int));
        let e = &sockets[i];
        if protocol_selected(filter, e.protocol) {
            let pid = if e.pids.len() > 0 {
                Some(e.pids[0])
            } else {
                None
            };
            let process_name = match pid {
                Some(p) => find_name(names, p),
                None => None,
            };
            out.push(
                PortInfo {
                    protocol: e.protocol,
                    local_address: e.local_address.clone(),
                    local_port: e.local_port,
                    remote_address: e.remote_address.clone(),
                    remote_port: e.remote_port,
                    state: e.state.clone(),
                    pid,
                    process_name,
                },
            );
        }
    }
    assert(sockets@.take(sockets@.len() as int) =~= sockets@);
    out
}

impl Record for PortInfo {
    open spec fn spec_schema() -> Seq<(Seq<char>, ColumnType)> {
        seq![
            ("protocol"@, ColumnType::Varchar),
            ("local_address"@, ColumnType::Varchar),
            ("local_port"@, ColumnType::Integer),
            ("remote_address"@, ColumnType::Varchar),
            ("remote_port"@, ColumnType::Integer),
            ("state"@, ColumnType::Varchar),
            ("pid"@, ColumnType::Integer),
            ("process_name"@, ColumnType::Varchar),
        ]
    }

    /// A UDP socket reports an empty remote address, remote port zero and an
    /// empty state; a socket without a process reports pid zero.
    open spec fn spec_row(&self) -> Seq<Cell> {
        let udp = self.protocol == Protocol::Udp;
        seq![
            Cell::Text(protocol_label(self.protocol)),
            Cell::Text(self.local_address@),
            Cell::Int(self.local_port as i32),
            Cell::Text(
                if udp {
                    Seq::empty()
                } else {
                    self.remote_address@
                },
            ),
            Cell::Int(
                if udp {
                    0
                } else {
                    self.remote_port as i32
                },
            ),
            Cell::Text(
                if udp {
                    Seq::empty()
                } else {
                    self.state@
                },
            ),
            Cell::Int(
                match self.pid {
                    Some(p) => p as i32,
                    None => 0,
                },
            ),
            Cell::Text(or_empty(self.process_name)),
        ]
    }

    fn schema() -> (r: Vec<Column>) {
        let r = vec![
            column("protocol", ColumnType::Varchar),
            column("local_address", ColumnType::Varchar),
            column("local_port", ColumnType::Integer),
            column("remote_address", ColumnType::Varchar),
            column("remote_port", ColumnType::Integer),
            column("state", ColumnType::Varchar),
            column("pid", ColumnType::Integer),
            column("process_name", ColumnType::Varchar),
        ];
        assert(columns_view(r@) =~= Self::spec_schema());
        r
    }

    fn row(&self) -> (r: Vec<Value>) {
        let udp = self.protocol == Protocol::Udp;
        let remote_address = if udp {
            String::new()
        } else {
            self.remote_address.clone()
        };
        let remote_port: i32 = if udp {
            0
        } else {
            self.remote_port as i32
        };
        let state = if udp {
            String::new()
        } else {
            self.state.clone()
        };
        let pid: i32 = match self.pid {
            Some(p) => #[verifier::truncate] (p as i32),
            None => 0,
        };
        let process_name = match &self.process_name {
            Some(n) => n.clone(),
            None => String::new(),
        };
        let r = vec![
            Value::Text(String::from_str(self.protocol.label())),
            Value::Text(self.local_address.clone()),
            Value::Int(self.local_port as i32),
            Value::Text(remote_address),
            Value::Int(remote_port),
            Value::Text(state),
            Value::Int(pid),
            Value::Text(process_name),
        ];
        assert(cells(r@) =~= self.spec_row());
        r
    }
}

} // verus!
