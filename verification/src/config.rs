//! The supervisor's snapshot of the node's configuration, and the pure views
//! derived from it: the REST address of the node's listen endpoint, and the
//! trusted-peer descriptor other test nodes use to connect to it.
//!
//! Building and parsing the full configuration is the harness's business; the
//! supervisor only reads the fields modelled here.

use vstd::prelude::*;
use vstd::string::StringExecFns;

verus! {

/// The decimal digit character for a value below ten.
pub open spec fn digit_char(d: nat) -> char {
    if d == 0 {
        '0'
    } else if d == 1 {
        '1'
    } else if d == 2 {
        '2'
    } else if d == 3 {
        '3'
    } else if d == 4 {
        '4'
    } else if d == 5 {
        '5'
    } else if d == 6 {
        '6'
    } else if d == 7 {
        '7'
    } else if d == 8 {
        '8'
    } else {
        '9'
    }
}

/// The usual decimal rendering of a number: no sign, no leading zero except
/// for the number zero itself.
pub open spec fn spec_decimal(n: nat) -> Seq<char>
    decreases n,
{
    if n < 10 {
        seq![digit_char(n)]
    } else {
        spec_decimal(n / 10).push(digit_char(n % 10))
    }
}

/// The externally reachable `host:port` address built from a listen endpoint.
pub open spec fn spec_node_address(host: Seq<char>, port: u16) -> Seq<char> {
    host + seq![':'] + spec_decimal(port as nat)
}

/// The configuration fields the supervisor reads: where the node logs, where
/// its REST endpoint listens, and how peers address and identify it.
#[derive(Debug)]
pub struct JormungandrConfig {
    pub log_file_path: String,
    pub rest_host: String,
    pub rest_port: u16,
    pub public_address: String,
    pub public_id: String,
}

/// How another node establishes a trusted connection to this one: its public
/// address and its public identity material.
#[derive(Debug)]
pub struct TrustedPeer {
    pub address: String,
    pub id: String,
}

/// A client for the node's exploration API, bound to the node's address.
/// Constructing it performs no I/O.
#[derive(Debug)]
pub struct Explorer {
    pub address: String,
}

impl Explorer {
    pub fn new(address: String) -> (r: Self)
        ensures
            r.address == address,
    {
        Explorer { address }
    }
}

impl Clone for JormungandrConfig {
    fn clone(&self) -> (r: Self)
        ensures
            r == *self,
    {
        JormungandrConfig {
            log_file_path: self.log_file_path.clone(),
            rest_host: self.rest_host.clone(),
            rest_port: self.rest_port,
            public_address: self.public_address.clone(),
            public_id: self.public_id.clone(),
        }
    }
}

impl JormungandrConfig {
    pub fn new(
        log_file_path: String,
        rest_host: String,
        rest_port: u16,
        public_address: String,
        public_id: String,
    ) -> (r: Self)
        ensures
            r == (JormungandrConfig { log_file_path, rest_host, rest_port, public_address, public_id }),
    {
        JormungandrConfig { log_file_path, rest_host, rest_port, public_address, public_id }
    }

    /// The `host:port` address of the node's REST listen endpoint. A pure
    /// derivation: it depends on the configuration value alone.
    pub fn get_node_address(&self) -> (r: String)
        ensures
            r@ == spec_node_address(self.rest_host@, self.rest_port),
    {
        let mut out = self.rest_host.clone();
        out.append(":");
        proof {
            reveal_strlit(":");
            assert(":"@ =~= seq![':']);
        }
        push_decimal(&mut out, self.rest_port);
        proof {
            assert(out@ =~= spec_node_address(self.rest_host@, self.rest_port));
        }
        out
    }

    /// The descriptor another node needs to trust-connect to this one. A pure
    /// derivation from the configuration.
    pub fn as_trusted_peer(&self) -> (r: TrustedPeer)
        ensures
            r.address == self.public_address,
            r.id == self.public_id,
    {
        TrustedPeer { address: self.public_address.clone(), id: self.public_id.clone() }
    }
}

/// The decimal digit character of `d`, for `d` below ten.
fn decimal_digit(d: u16) -> (c: char)
    requires
        d < 10,
    ensures
        c == digit_char(d as nat),
{
    if d == 0 {
        '0'
    } else if d == 1 {
        '1'
    } else if d == 2 {
        '2'
    } else if d == 3 {
        '3'
    } else if d == 4 {
        '4'
    } else if d == 5 {
        '5'
    } else if d == 6 {
        '6'
    } else if d == 7 {
        '7'
    } else if d == 8 {
        '8'
    } else {
        '9'
    }
}

/// Appends the decimal rendering of `n` to `out`.
fn push_decimal(out: &mut String, n: u16)
    ensures
        final(out)@ == old(out)@ + spec_decimal(n as nat),
    decreases n,
{
    if n >= 10 {
        proof {
            assert(n / 10 < n);
        }
        push_decimal(out, n / 10);
    }
    let c = decimal_digit(n % 10);
    push_char(out, c);
    proof {
        if n < 10 {
            assert(old(out)@ + spec_decimal(n as nat) =~= old(out)@.push(c));
        } else {
            assert(old(out)@ + spec_decimal(n as nat) =~= (old(out)@ + spec_decimal(
                (n / 10) as nat,
            )).push(c));
        }
    }
}

/// Relies on `String::push`: appends exactly the given character.
#[verifier::external_body]
fn push_char(out: &mut String, c: char)
    ensures
        final(out)@ == old(out)@.push(c),
{
    out.push(c);
}

} // verus!
