//! The command line of the program: its role and where it connects.
use vstd::prelude::*;

use crate::text::{all_digits, decimal, decimal_value, lemma_decimal_reads_back, push_decimal};

verus! {

/// The two roles the program can run in.
#[derive(Debug, Clone, Copy, PartialEq, Eq, Structural)]
pub enum Role {
    Client,
    Server,
}

/// The role that a `--role` value names: "client" or "server", nothing else.
pub open spec fn role_named(program: Seq<char>) -> Option<Role> {
    if program == seq!['c', 'l', 'i', 'e', 'n', 't'] {
        Some(Role::Client)
    } else if program == seq!['s', 'e', 'r', 'v', 'e', 'r'] {
        Some(Role::Server)
    } else {
        None
    }
}

/// The options the program is started with.
#[derive(Debug)]
pub struct Opt {
    pub program: String,
    pub host: String,
    pub port: u16,
}

/// The address `host:port` that the options name.
pub open spec fn address_of(host: Seq<char>, port: u16) -> Seq<char> {
    host + seq![':'] + decimal(port as nat)
}

/// The address is the host unchanged, a colon, and then a non-empty string
/// of digits that reads back as the port.
pub proof fn lemma_address_reads_back(host: Seq<char>, port: u16)
    ensures
        address_of(host, port).len() > host.len() + 1,
        address_of(host, port).subrange(0, host.len() as int) == host,
        address_of(host, port)[host.len() as int] == ':',
        all_digits(address_of(host, port).skip(host.len() + 1int)),
        decimal_value(address_of(host, port).skip(host.len() + 1int)) == port,
{
    lemma_decimal_reads_back(port as nat);
    let a = address_of(host, port);
    assert(a.subrange(0, host.len() as int) =~= host);
    assert(a.skip(host.len() + 1int) =~= decimal(port as nat));
}

impl Opt {
    /// The address to listen on or connect to: the host, a colon, and the
    /// port in decimal.
    pub fn address(&self) -> (a: String)
        ensures
            a@ == address_of(self.host@, self.port),
    {
        proof {
            reveal_strlit(":");
        }
        let mut a = self.host.clone();
        a.append(":");
        push_decimal(&mut a, self.port);
        a
    }

    /// The role that `program` names, if it names one.
    pub fn role(&self) -> (r: Option<Role>)
        ensures
            r == role_named(self.program@),
    {
        proof {
            reveal_strlit("client");
            reveal_strlit("server");
        }
        let client = "client".to_owned();
        let server = "server".to_owned();
        assert(client@ =~= seq!['c', 'l', 'i', 'e', 'n', 't']);
        assert(server@ =~= seq!['s', 'e', 'r', 'v', 'e', 'r']);
        if self.program == client {
            Some(Role::Client)
        } else if self.program == server {
            Some(Role::Server)
        } else {
            None
        }
    }
}

impl Default for Opt {
    /// Role "server", host "127.0.0.1", port 4321.
    fn default() -> (opt: Self)
        ensures
            opt.program@ == seq!['s', 'e', 'r', 'v', 'e', 'r'],
            opt.host@ == seq!['1', '2', '7', '.', '0', '.', '0', '.', '1'],
            opt.port == 4321,
    {
        proof {
            reveal_strlit("server");
            reveal_strlit("127.0.0.1");
        }
        Opt { program: "server".to_owned(), host: "127.0.0.1".to_owned(), port: 4321 }
    }
}

} // verus!
