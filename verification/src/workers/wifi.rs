//! The WiFi worker: follows the state of the radio link and publishes every
//! change of it.
//!
//! The worker is told in each tick whether the link is up. It remembers the
//! last state it published, and on a change it publishes the new state to its
//! receivers. When the link comes up it also says which name server, if any,
//! is to be set on the interface.

use crate::events::emitted;
use crate::events::EventEmitter;
use crate::ipv4::denotes;
use crate::ipv4::parse;
use vstd::prelude::*;
use vstd::string::*;
use vstd::utf8::encode_utf8;

verus! {

/// The longest network name that the radio takes, in bytes.
pub const SSID_CAPACITY: usize = 32;

/// The longest passphrase that the radio takes, in bytes.
pub const PASSWORD_CAPACITY: usize = 64;

/// The emitters that this worker publishes on.
pub struct EventEmitters {
    /// Whether the link is up; one value for every change.
    pub connection_status: EventEmitter<bool>,
}

/// The WiFi worker.
pub struct Worker {
    ssid: String,
    password: String,
    is_connected: bool,
    pub dns: Option<String>,
    pub emitters: EventEmitters,
}

/// The station settings that the radio is started with.
#[derive(Debug, Clone, PartialEq, Eq)]
pub struct Credentials {
    pub ssid: String,
    pub password: String,
}

/// What one unit of work found.
#[derive(Debug, Clone, Copy, PartialEq, Eq)]
pub enum LinkChange {
    /// The link is as it was.
    Unchanged,
    /// The link came up. `dns` is the name server to set, most significant
    /// octet first, where one is configured.
    Connected { dns: Option<[u8; 4]> },
    /// The link went down.
    Disconnected,
}

/// Why the radio cannot be started.
#[derive(Debug, Clone, Copy, PartialEq, Eq, Structural)]
pub enum InitError {
    /// The network name takes more than 32 bytes.
    SsidTooLong,
    /// The passphrase takes more than 64 bytes.
    PasswordTooLong,
}

/// Why a unit of work failed.
#[derive(Debug, Clone, Copy, PartialEq, Eq, Structural)]
pub enum LinkError {
    /// The configured name server is not an address in dot-decimal notation.
    InvalidDns,
}

/// Whether `found` is what a unit of work reports when the link was `was_up`,
/// is `link_up`, and `dns` is the configured name server.
pub open spec fn observed(
    was_up: bool,
    link_up: bool,
    dns: Option<Seq<char>>,
    found: Result<LinkChange, LinkError>,
) -> bool {
    if was_up == link_up {
        found == Ok::<LinkChange, LinkError>(LinkChange::Unchanged)
    } else if !link_up {
        found == Ok::<LinkChange, LinkError>(LinkChange::Disconnected)
    } else {
        match dns {
            None => found == Ok::<LinkChange, LinkError>(LinkChange::Connected { dns: None }),
            Some(text) => match found {
                Ok(LinkChange::Connected { dns: Some(address) }) => denotes(text, Some(address)),
                Err(LinkError::InvalidDns) => denotes(text, None),
                _ => false,
            },
        }
    }
}

impl LinkError {
    /// The text of this error.
    pub fn message(&self) -> (text: String)
        ensures
            text@ == "invalid IPv4 address syntax"@,
    {
        String::from_str("invalid IPv4 address syntax")
    }
}

impl Worker {
    /// The name of the network to join.
    pub closed spec fn ssid(&self) -> Seq<char> {
        self.ssid@
    }

    /// The passphrase of the network.
    pub closed spec fn password(&self) -> Seq<char> {
        self.password@
    }

    /// The last link state that was published; `false` at the start.
    pub closed spec fn connected(&self) -> bool {
        self.is_connected
    }

    /// The configured name server, in dot-decimal notation.
    pub closed spec fn dns_server(&self) -> Option<Seq<char>> {
        match self.dns {
            Some(text) => Some(text@),
            None => None,
        }
    }

    /// The queues of the receivers of the connection status.
    pub closed spec fn published(&self) -> Seq<Seq<bool>> {
        self.emitters.connection_status@
    }

    /// What starting the radio with the name `ssid` and the passphrase
    /// `password` fails with, if it fails: the name is looked at first.
    pub open spec fn refused(ssid: Seq<char>, password: Seq<char>) -> Option<InitError> {
        if encode_utf8(ssid).len() > SSID_CAPACITY {
            Some(InitError::SsidTooLong)
        } else if encode_utf8(password).len() > PASSWORD_CAPACITY {
            Some(InitError::PasswordTooLong)
        } else {
            None
        }
    }

    /// A worker for the network `ssid` with the passphrase `password`: not
    /// connected, without a name server and without receivers.
    pub fn new(ssid: &str, password: &str) -> (worker: Self)
        ensures
            worker.ssid() == ssid@,
            worker.password() == password@,
            !worker.connected(),
            worker.dns_server() is None,
            worker.published() == Seq::<Seq<bool>>::empty(),
    {
        Worker {
            ssid: String::from_str(ssid),
            password: String::from_str(password),
            is_connected: false,
            dns: None,
            emitters: EventEmitters { connection_status: EventEmitter::new() },
        }
    }

    /// Configures the name server to set when the link comes up, in
    /// dot-decimal notation, or none.
    pub fn set_dns(&mut self, dns: Option<String>)
        ensures
            final(self).dns_server() == match dns {
                Some(text) => Some(text@),
                None => None,
            },
            final(self).ssid() == old(self).ssid(),
            final(self).password() == old(self).password(),
            final(self).connected() == old(self).connected(),
            final(self).published() == old(self).published(),
    {
        self.dns = dns;
    }

    /// The emitter of the connection status, to subscribe to and to receive
    /// from.
    pub fn connection_status(&mut self) -> (emitter: &mut EventEmitter<bool>)
        ensures
            emitter@ == old(self).published(),
            final(self).published() == final(emitter)@,
            final(self).ssid() == old(self).ssid(),
            final(self).password() == old(self).password(),
            final(self).connected() == old(self).connected(),
            final(self).dns_server() == old(self).dns_server(),
    {
        &mut self.emitters.connection_status
    }

    /// The station settings to start the radio with: the name and the
    /// passphrase of the worker, where the radio can take them, the name in at
    /// most 32 bytes and the passphrase in at most 64.
    pub fn initialize(&self) -> (credentials: Result<Credentials, InitError>)
        ensures
            match credentials {
                Ok(settings) => {
                    &&& Self::refused(self.ssid(), self.password()) is None
                    &&& settings.ssid@ == self.ssid()
                    &&& settings.password@ == self.password()
                },
                Err(error) => Self::refused(self.ssid(), self.password()) == Some(error),
            },
    {
        if self.ssid.as_str().as_bytes().len() > SSID_CAPACITY {
            Err(InitError::SsidTooLong)
        } else if self.password.as_str().as_bytes().len() > PASSWORD_CAPACITY {
            Err(InitError::PasswordTooLong)
        } else {
            Ok(Credentials { ssid: self.ssid.clone(), password: self.password.clone() })
        }
    }

    /// Takes note of the state of the link.
    ///
    /// A change is remembered and published to every receiver, once. When the
    /// link came up and a name server is configured, its address is returned
    /// with the change; a name server that is no address is an error, and the
    /// change is remembered and published all the same.
    pub fn do_work(&mut self, link_up: bool) -> (found: Result<LinkChange, LinkError>)
        ensures
            final(self).ssid() == old(self).ssid(),
            final(self).password() == old(self).password(),
            final(self).dns_server() == old(self).dns_server(),
            final(self).connected() == link_up,
            final(self).published() == if old(self).connected() == link_up {
                old(self).published()
            } else {
                emitted(old(self).published(), link_up)
            },
            observed(old(self).connected(), link_up, old(self).dns_server(), found),
    {
        if link_up == self.is_connected {
            return Ok(LinkChange::Unchanged);
        }
        self.is_connected = link_up;
        self.emitters.connection_status.emit(link_up);
        if !link_up {
            return Ok(LinkChange::Disconnected);
        }
        match &self.dns {
            None => Ok(LinkChange::Connected { dns: None }),
            Some(text) => match parse(text.as_str()) {
                Some(address) => Ok(LinkChange::Connected { dns: Some(address) }),
                None => Err(LinkError::InvalidDns),
            },
        }
    }
}

} // verus!
