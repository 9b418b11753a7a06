//! What the commands about the server read and change of it: its address,
//! its settings, its clients, and the notes for the monitors that are left
//! to send.
use vstd::prelude::*;

use crate::commands::server::info_formatter::info_server_formatter;
use crate::text::{nat_to_decimal, push_char, push_text, same_text, string_of, usize_to_string};

verus! {

/// What a client does with its connection.
#[derive(Debug, Clone, Copy, PartialEq, Eq, Structural)]
pub enum Status {
    Executor,
    Subscriber,
    Monitor,
}

/// A connected client: its address and what it does.
pub struct ClientFields {
    pub address: String,
    pub status: Status,
}

impl ClientFields {
    /// A client that runs commands.
    pub fn new(address: String) -> (c: Self)
        ensures
            c.address == address,
            c.status == Status::Executor,
    {
        ClientFields { address, status: Status::Executor }
    }

    /// Sets what the client does; returns what it did.
    pub fn replace_status(&mut self, status: Status) -> (previous: Status)
        ensures
            previous == old(self).status,
            final(self).status == status,
            final(self).address == old(self).address,
    {
        let previous = self.status;
        self.status = status;
        previous
    }
}

/// The server as the commands see it.
pub struct ServerRedisAttributes {
    pub ip: String,
    pub port: String,
    pub timeout: u64,
    pub logfile_name: String,
    pub dbfile_name: String,
    pub verbose: usize,
    /// The line that tells where the executable is.
    pub executable: String,
    /// The addresses of the connected clients.
    pub clients: Vec<String>,
    /// Whether the server is to stop.
    pub shutting_down: bool,
    /// The commands to show to the monitors: the address of the client that
    /// sent each, and its words.
    pub monitor_notes: Vec<(String, Vec<String>)>,
}

/// Whether an address is another than `address`.
pub open spec fn is_other(address: Seq<char>) -> spec_fn(Seq<char>) -> bool {
    |c: Seq<char>| c != address
}

/// The addresses of `clients` other than `address`, in order.
pub open spec fn without_client(clients: Seq<String>, address: Seq<char>) -> Seq<Seq<char>> {
    clients.map_values(|c: String| c@).filter(is_other(address))
}

impl ServerRedisAttributes {
    /// The port, as text.
    pub fn get_port(&self) -> (r: String)
        ensures
            r@ == self.port@,
    {
        string_of(self.port.as_str())
    }

    /// The seconds an idle client is kept, as text.
    pub fn get_timeout(&self) -> (r: String)
        ensures
            r@ == nat_to_decimal(self.timeout as nat),
    {
        let mut r = String::new();
        crate::text::push_u64(&mut r, self.timeout);
        r
    }

    pub fn get_logfile_name(&self) -> (r: String)
        ensures
            r@ == self.logfile_name@,
    {
        string_of(self.logfile_name.as_str())
    }

    pub fn get_dbfile_name(&self) -> (r: String)
        ensures
            r@ == self.dbfile_name@,
    {
        string_of(self.dbfile_name.as_str())
    }

    /// The verbose level, as text.
    pub fn get_verbose(&self) -> (r: String)
        ensures
            r@ == nat_to_decimal(self.verbose as nat),
    {
        usize_to_string(self.verbose)
    }

    /// The address to connect to: the ip, a colon, then the port.
    pub fn get_addr(&self) -> (r: String)
        ensures
            r@ == self.ip@ + seq![':'] + self.port@,
    {
        let mut r = string_of(self.ip.as_str());
        push_char(&mut r, ':');
        push_text(&mut r, self.port.as_str());
        r
    }

    pub fn change_dump_filename(&mut self, name: String)
        ensures
            *final(self) == (ServerRedisAttributes { dbfile_name: name, ..*old(self) }),
    {
        self.dbfile_name = name;
    }

    pub fn change_logfilename(&mut self, name: String)
        ensures
            *final(self) == (ServerRedisAttributes { logfile_name: name, ..*old(self) }),
    {
        self.logfile_name = name;
    }

    pub fn change_verbose(&mut self, level: usize)
        ensures
            *final(self) == (ServerRedisAttributes { verbose: level, ..*old(self) }),
    {
        self.verbose = level;
    }

    /// Marks whether the server is to stop.
    pub fn store(&mut self, value: bool)
        ensures
            *final(self) == (ServerRedisAttributes { shutting_down: value, ..*old(self) }),
    {
        self.shutting_down = value;
    }

    /// Forgets the client at `address`.
    pub fn remove_client(&mut self, address: &str)
        ensures
            final(self).clients@.map_values(|c: String| c@) == without_client(old(self).clients@, address@),
            final(self).monitor_notes == old(self).monitor_notes,
            final(self).shutting_down == old(self).shutting_down,
    {
        let ghost all = self.clients@.map_values(|c: String| c@);
        let mut kept: Vec<String> = Vec::new();
        let mut i: usize = 0;
        while i < self.clients.len()
            invariant
                i <= self.clients@.len(),
                all == self.clients@.map_values(|c: String| c@),
                kept@.map_values(|c: String| c@) == all.take(i as int).filter(is_other(address@)),
            decreases self.clients@.len() - i,
        {
            proof {
                assert(all.take(i + 1).drop_last() =~= all.take(i as int));
                all.take(i as int).lemma_filter_push(all[i as int], is_other(address@));
                assert(all.take(i as int).push(all[i as int]) =~= all.take(i + 1));
            }
            if !same_text(self.clients[i].as_str(), address) {
                let ghost before = kept@.map_values(|c: String| c@);
                kept.push(self.clients[i].clone());
                assert(kept@.map_values(|c: String| c@) =~= before.push(all[i as int]));
            }
            i = i + 1;
        }
        assert(all.take(self.clients@.len() as int) =~= all);
        self.clients = kept;
    }

    /// Leaves for the monitors the command `buffer` sent by the client at
    /// `address`.
    pub fn notify_monitors(&mut self, address: String, buffer: Vec<String>)
        ensures
            final(self).monitor_notes@ == old(self).monitor_notes@.push((address, buffer)),
            final(self).clients == old(self).clients,
            final(self).shutting_down == old(self).shutting_down,
    {
        self.monitor_notes.push((address, buffer));
    }

    /// The lines about the server: a title, its ip, its port, its
    /// executable, its verbose level, the timeout of its clients and its
    /// log file.
    pub fn info(&self) -> (lines: Vec<String>)
        ensures
            lines@.map_values(|l: String| l@) == seq![
                "SERVER:"@,
                "ip: "@ + self.ip@,
                "tcp port: "@ + self.port@,
                self.executable@,
                "verbose level: "@ + nat_to_decimal(self.verbose as nat),
                "connection timeout: "@ + nat_to_decimal(self.timeout as nat),
                "log file name: "@ + self.logfile_name@,
            ],
    {
        let mut lines: Vec<String> = Vec::new();
        lines.push(info_server_formatter::title());
        lines.push(info_server_formatter::ip(self.ip.as_str()));
        lines.push(info_server_formatter::port(self.port.as_str()));
        lines.push(string_of(self.executable.as_str()));
        lines.push(info_server_formatter::verbose_level(self.verbose));
        lines.push(info_server_formatter::client_timeout(self.timeout));
        lines.push(info_server_formatter::logfile_name(self.logfile_name.as_str()));
        assert(lines@.map_values(|l: String| l@) =~= seq![
            "SERVER:"@,
            "ip: "@ + self.ip@,
            "tcp port: "@ + self.port@,
            self.executable@,
            "verbose level: "@ + nat_to_decimal(self.verbose as nat),
            "connection timeout: "@ + nat_to_decimal(self.timeout as nat),
            "log file name: "@ + self.logfile_name@,
        ]);
        lines
    }
}

} // verus!
