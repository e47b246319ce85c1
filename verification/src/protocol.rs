//! The wire types shared by the GUI and the service: the client OS, gateways,
//! and the requests that launch or update the GUI.

use vstd::prelude::*;
use std::collections::HashMap;
use vstd::std_specs::convert::FromSpecImpl;
use crate::text::{chars_of, eq_str, extend, lit, string_of};

verus! {

/// Client OS reported to the portal/gateway and carried in connect requests.
#[derive(Debug, Clone, Copy, PartialEq, Eq)]
pub enum ClientOs {
    Linux,
    Windows,
    Mac,
}

/// The OS named `os` (`Linux`, `Windows` or `Mac`); any other name is Linux.
pub open spec fn client_os_of(os: Seq<char>) -> ClientOs {
    if os == "Windows"@ {
        ClientOs::Windows
    } else if os == "Mac"@ {
        ClientOs::Mac
    } else {
        ClientOs::Linux
    }
}

impl ClientOs {
    /// The name the portal expects in its `clientos` field.
    pub open spec fn spec_name(self) -> Seq<char> {
        match self {
            ClientOs::Linux => "Linux"@,
            ClientOs::Windows => "Windows"@,
            ClientOs::Mac => "Mac"@,
        }
    }

    /// The OS name openconnect expects.
    pub open spec fn spec_openconnect_name(self) -> Seq<char> {
        match self {
            ClientOs::Linux => "linux"@,
            ClientOs::Windows => "win"@,
            ClientOs::Mac => "mac-intel"@,
        }
    }

    pub fn as_str(&self) -> (r: &'static str)
        ensures
            r@ == self.spec_name(),
    {
        match self {
            ClientOs::Linux => "Linux",
            ClientOs::Windows => "Windows",
            ClientOs::Mac => "Mac",
        }
    }

    pub fn to_openconnect_os(&self) -> (r: &'static str)
        ensures
            r@ == self.spec_openconnect_name(),
    {
        match self {
            ClientOs::Linux => "linux",
            ClientOs::Windows => "win",
            ClientOs::Mac => "mac-intel",
        }
    }

    /// The OS named `os`; any other name is Linux.
    pub fn parse(os: &str) -> (r: ClientOs)
        ensures
            r == client_os_of(os@),
    {
        let v = chars_of(os);
        if eq_str(&v, "Windows") {
            ClientOs::Windows
        } else if eq_str(&v, "Mac") {
            ClientOs::Mac
        } else {
            ClientOs::Linux
        }
    }
}

impl Default for ClientOs {
    /// Linux, the OS this client runs on.
    fn default() -> (r: Self)
        ensures
            r == ClientOs::Linux,
    {
        ClientOs::Linux
    }
}

impl<'a> From<&'a str> for ClientOs {
    fn from(os: &'a str) -> (r: Self) {
        ClientOs::parse(os)
    }
}

impl<'a> FromSpecImpl<&'a str> for ClientOs {
    open spec fn obeys_from_spec() -> bool {
        true
    }

    open spec fn from_spec(v: &'a str) -> Self {
        client_os_of(v@)
    }
}

/// A gateway priority rule from the portal configuration.
#[derive(Debug, Clone)]
pub struct PriorityRule {
    pub name: String,
    pub priority: u32,
}

/// A gateway: its display name and its address.
#[derive(Debug, Clone)]
pub struct Gateway {
    pub name: String,
    pub address: String,
    pub priority: u32,
    pub priority_rules: Vec<PriorityRule>,
}

impl Gateway {
    /// A gateway with priority 0 and no priority rules.
    pub fn new(name: String, address: String) -> (r: Self)
        ensures
            r.name == name,
            r.address == address,
            r.priority == 0,
            r.priority_rules@.len() == 0,
    {
        Gateway { name, address, priority: 0, priority_rules: Vec::new() }
    }

    pub fn name(&self) -> (r: &str)
        ensures
            r@ == self.name@,
    {
        self.name.as_str()
    }

    /// The address the tunnel connects to.
    pub fn server(&self) -> (r: &str)
        ensures
            r@ == self.address@,
    {
        self.address.as_str()
    }

    /// `name (address)`.
    pub fn display(&self) -> (r: String)
        ensures
            r@ == self.name@ + seq![' ', '('] + self.address@ + seq![')'],
    {
        let mut v = chars_of(self.name.as_str());
        v.push(' ');
        v.push('(');
        let a = chars_of(self.address.as_str());
        extend(&mut v, &a);
        v.push(')');
        proof {
            assert(v@ =~= self.name@ + seq![' ', '('] + self.address@ + seq![')']);
        }
        string_of(&v)
    }
}

/// Ask the launcher to start the GUI as `user` with the given environment.
#[derive(Debug)]
pub struct LaunchGuiRequest {
    user: String,
    envs: HashMap<String, String>,
}

impl LaunchGuiRequest {
    pub closed spec fn user_view(&self) -> Seq<char> {
        self.user@
    }

    pub closed spec fn envs_value(&self) -> HashMap<String, String> {
        self.envs
    }

    pub fn new(user: String, envs: HashMap<String, String>) -> (r: Self)
        ensures
            r.user_view() == user@,
            r.envs_value() == envs,
    {
        LaunchGuiRequest { user, envs }
    }

    pub fn user(&self) -> (r: &str)
        ensures
            r@ == self.user_view(),
    {
        self.user.as_str()
    }

    pub fn envs(&self) -> (r: &HashMap<String, String>)
        ensures
            *r == self.envs_value(),
    {
        &self.envs
    }
}

/// Ask the GUI updater to install the package at `path` with `checksum`.
#[derive(Debug)]
pub struct UpdateGuiRequest {
    pub path: String,
    pub checksum: String,
}

} // verus!
