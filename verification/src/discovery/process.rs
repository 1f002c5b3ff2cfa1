//! Recognising a running server among the processes of the machine.

use crate::seqs::{first_index, lemma_first_index_is};
use crate::text::{contains, decimal, decimal_of, join, joined, occurs_in};
use vstd::prelude::*;

verus! {

/// A server that the client can talk to.
#[derive(Debug, Clone, PartialEq, Eq)]
pub struct ServerInfo {
    pub pid: u32,
    pub port: u16,
    pub base_url: String,
    pub name: String,
    pub command: String,
    /// Whether this client started the server.
    pub owned: bool,
}

/// A server as a mathematical value.
pub struct ServerInfoView {
    pub pid: u32,
    pub port: u16,
    pub base_url: Seq<char>,
    pub name: Seq<char>,
    pub command: Seq<char>,
    pub owned: bool,
}

impl View for ServerInfo {
    type V = ServerInfoView;

    open spec fn view(&self) -> ServerInfoView {
        ServerInfoView {
            pid: self.pid,
            port: self.port,
            base_url: self.base_url@,
            name: self.name@,
            command: self.command@,
            owned: self.owned,
        }
    }
}

impl DeepView for ServerInfo {
    type V = ServerInfoView;

    open spec fn deep_view(&self) -> ServerInfoView {
        self@
    }
}

/// A TCP socket of the machine, as far as the search reads it.
#[derive(Debug, Clone, PartialEq, Eq)]
pub struct TcpSocket {
    pub listening: bool,
    pub local_port: u16,
    /// The processes that hold the socket.
    pub pids: Vec<u32>,
}

/// A socket as a mathematical value.
pub struct TcpSocketView {
    pub listening: bool,
    pub local_port: u16,
    pub pids: Seq<u32>,
}

impl View for TcpSocket {
    type V = TcpSocketView;

    open spec fn view(&self) -> TcpSocketView {
        TcpSocketView { listening: self.listening, local_port: self.local_port, pids: self.pids@ }
    }
}

impl DeepView for TcpSocket {
    type V = TcpSocketView;

    open spec fn deep_view(&self) -> TcpSocketView {
        self@
    }
}

/// A process of the machine, as far as the search reads it.
#[derive(Debug, Clone, PartialEq, Eq)]
pub struct ProcessEntry {
    pub pid: u32,
    pub name: String,
    /// The command line, word by word.
    pub cmd: Vec<String>,
}

/// A process as a mathematical value.
pub struct ProcessEntryView {
    pub pid: u32,
    pub name: Seq<char>,
    pub cmd: Seq<Seq<char>>,
}

impl View for ProcessEntry {
    type V = ProcessEntryView;

    open spec fn view(&self) -> ProcessEntryView {
        ProcessEntryView { pid: self.pid, name: self.name@, cmd: self.cmd.deep_view() }
    }
}

impl DeepView for ProcessEntry {
    type V = ProcessEntryView;

    open spec fn deep_view(&self) -> ProcessEntryView {
        self@
    }
}

/// The address of a server on this machine that listens on `port`.
pub open spec fn local_url(port: u16) -> Seq<char> {
    "http://127.0.0.1:"@ + decimal(port as nat)
}

/// The address of a server on this machine that listens on `port`.
pub fn base_url_for(port: u16) -> (r: String)
    ensures
        r@ == local_url(port),
{
    "http://127.0.0.1:".to_string().concat(decimal_of(port as u64).as_str())
}

/// Whether a process looks like a server: it is run by bun or node or is
/// itself called opencode, and opencode stands in its command line or name.
pub open spec fn looks_like_server(name: Seq<char>, command: Seq<char>) -> bool {
    (occurs_in(name, "bun"@) || occurs_in(name, "node"@) || occurs_in(name, "opencode"@)) && (
    occurs_in(command, "opencode"@) || occurs_in(name, "opencode"@))
}

/// Whether a process looks like a server.
pub fn is_candidate(name: &str, command: &str) -> (r: bool)
    ensures
        r == looks_like_server(name@, command@),
{
    (contains(name, "bun") || contains(name, "node") || contains(name, "opencode")) && (contains(
        command,
        "opencode",
    ) || contains(name, "opencode"))
}

/// The condition "this socket listens and is held by the process `pid`".
pub open spec fn listens_for(pid: u32) -> spec_fn(TcpSocketView) -> bool {
    |s: TcpSocketView| s.listening && s.pids.contains(pid)
}

/// The condition "this socket listens on `port` and some process holds it".
pub open spec fn listens_on(port: u16) -> spec_fn(TcpSocketView) -> bool {
    |s: TcpSocketView| s.listening && s.local_port == port && s.pids.len() > 0
}

/// The port of the first socket that the process `pid` listens on.
pub open spec fn listening_port(sockets: Seq<TcpSocketView>, pid: u32) -> Option<u16> {
    let i = first_index(sockets, listens_for(pid));
    if i < sockets.len() {
        Some(sockets[i].local_port)
    } else {
        None
    }
}

/// Whether `pid` is among `pids`.
pub fn holds(pids: &Vec<u32>, pid: u32) -> (r: bool)
    ensures
        r == pids@.contains(pid),
{
    let mut i: usize = 0;
    while i < pids.len()
        invariant
            0 <= i <= pids.len(),
            forall|j: int| 0 <= j < i ==> pids@[j] != pid,
        decreases pids.len() - i,
    {
        if pids[i] == pid {
            return true;
        }
        i = i + 1;
    }
    false
}

/// The port of the first socket that the process `pid` listens on.
pub fn find_listening_port(sockets: &Vec<TcpSocket>, pid: u32) -> (r: Option<u16>)
    ensures
        r == listening_port(sockets.deep_view(), pid),
{
    let ghost all = sockets.deep_view();
    let ghost p = listens_for(pid);
    let mut i: usize = 0;
    while i < sockets.len()
        invariant
            0 <= i <= sockets.len(),
            all == sockets.deep_view(),
            p == listens_for(pid),
            forall|j: int| 0 <= j < i ==> !p(#[trigger] all[j]),
        decreases sockets.len() - i,
    {
        if sockets[i].listening && holds(&sockets[i].pids, pid) {
            proof {
                assert(p(all[i as int]));
                lemma_first_index_is(all, p, i as int);
            }
            return Some(sockets[i].local_port);
        }
        assert(!p(all[i as int]));
        i = i + 1;
    }
    proof {
        lemma_first_index_is(all, p, i as int);
    }
    None
}

/// The first holders of the sockets that listen on `port`, in the order of
/// the sockets.
pub open spec fn holders_of(sockets: Seq<TcpSocketView>, port: u16) -> Seq<u32> {
    sockets.filter(listens_on(port)).map_values(|s: TcpSocketView| s.pids[0])
}

/// The processes that may be the server on `port`: the first holder of each
/// socket that listens on it.
pub fn find_holders(sockets: &Vec<TcpSocket>, port: u16) -> (r: Vec<u32>)
    ensures
        r@ == holders_of(sockets.deep_view(), port),
{
    let ghost all = sockets.deep_view();
    let ghost p = listens_on(port);
    let ghost first = |s: TcpSocketView| s.pids[0];
    let mut out: Vec<u32> = Vec::new();
    let mut i: usize = 0;
    proof {
        reveal(Seq::filter);
        assert(all.take(0) =~= Seq::empty());
        assert(out@ =~= all.take(0).filter(p).map_values(first));
    }
    while i < sockets.len()
        invariant
            0 <= i <= sockets.len(),
            all == sockets.deep_view(),
            p == listens_on(port),
            first == |s: TcpSocketView| s.pids[0],
            out@ == all.take(i as int).filter(p).map_values(first),
        decreases sockets.len() - i,
    {
        let ghost held = all.take(i as int).filter(p);
        proof {
            reveal(Seq::filter);
            assert(all.take(i as int + 1).drop_last() =~= all.take(i as int));
            assert(all.take(i as int + 1).last() == all[i as int]);
        }
        let s = &sockets[i];
        if s.listening && s.local_port == port && s.pids.len() > 0 {
            out.push(s.pids[0]);
            assert(out@ =~= held.push(all[i as int]).map_values(first));
        }
        i = i + 1;
    }
    assert(all.take(sockets.len() as int) =~= all);
    out
}

/// The server that a process is, given the port it listens on: not started
/// by this client, its command line joined by spaces.
pub open spec fn server_at(process: ProcessEntryView, port: u16) -> ServerInfoView {
    ServerInfoView {
        pid: process.pid,
        port,
        base_url: local_url(port),
        name: process.name,
        command: joined(process.cmd, " "@),
        owned: false,
    }
}

/// Describes the server that a process is, given the port it listens on.
pub fn describe(process: &ProcessEntry, port: u16) -> (r: ServerInfo)
    ensures
        r@ == server_at(process@, port),
{
    ServerInfo {
        pid: process.pid,
        port,
        base_url: base_url_for(port),
        name: process.name.clone(),
        command: join(&process.cmd, " "),
        owned: false,
    }
}

/// The condition "this process looks like a server and listens on a port".
pub open spec fn is_server(sockets: Seq<TcpSocketView>) -> spec_fn(ProcessEntryView) -> bool {
    |p: ProcessEntryView|
        looks_like_server(p.name, joined(p.cmd, " "@)) && listening_port(sockets, p.pid) is Some
}

/// The server among the processes: the first that looks like one and listens
/// on a port.
pub open spec fn discovered(processes: Seq<ProcessEntryView>, sockets: Seq<TcpSocketView>)
    -> Option<ServerInfoView> {
    let i = first_index(processes, is_server(sockets));
    if i < processes.len() {
        Some(server_at(processes[i], listening_port(sockets, processes[i].pid)->0))
    } else {
        None
    }
}

/// Searches the processes of the machine for a running server.
pub fn discover_among(processes: &Vec<ProcessEntry>, sockets: &Vec<TcpSocket>) -> (r: Option<
    ServerInfo,
>)
    ensures
        r.deep_view() == discovered(processes.deep_view(), sockets.deep_view()),
{
    let ghost all = processes.deep_view();
    let ghost p = is_server(sockets.deep_view());
    let mut i: usize = 0;
    while i < processes.len()
        invariant
            0 <= i <= processes.len(),
            all == processes.deep_view(),
            p == is_server(sockets.deep_view()),
            forall|j: int| 0 <= j < i ==> !p(#[trigger] all[j]),
        decreases processes.len() - i,
    {
        let command = join(&processes[i].cmd, " ");
        if is_candidate(processes[i].name.as_str(), command.as_str()) {
            if let Some(port) = find_listening_port(sockets, processes[i].pid) {
                proof {
                    assert(p(all[i as int]));
                    lemma_first_index_is(all, p, i as int);
                }
                return Some(describe(&processes[i], port));
            }
        }
        assert(!p(all[i as int]));
        i = i + 1;
    }
    proof {
        lemma_first_index_is(all, p, i as int);
    }
    None
}

} // verus!
