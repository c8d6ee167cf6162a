//! Choosing a frame source by name.
//!
//! One string names the source. A name that begins with `can` is a bus
//! interface of the machine; a name that begins with `demo` asks for the
//! synthetic source; every other name is refused, before anything is
//! opened.

use vstd::prelude::*;
use vstd::string::{StrSliceExecFns, StringExecFns};

verus! {

/// Why a frame source could not be had.
#[derive(Debug)]
pub enum Error {
    /// The socket could not be opened or bound; the transport's own words
    /// are kept.
    SocketCanError(String),
    /// The name is neither a bus interface nor the synthetic source.
    InvalidInterface(String),
}

/// How the hardware source is reached.
#[derive(Debug)]
pub struct SocketCanConfig {
    interface: String,
}

/// Which frame source to read, and how.
#[derive(Debug)]
pub enum Config {
    /// A bus interface of the machine.
    SocketCan(SocketCanConfig),
    /// The synthetic source.
    Demo,
}

/// The beginning of the name of a bus interface.
pub open spec fn hardware_prefix() -> Seq<char> {
    seq!['c', 'a', 'n']
}

/// The beginning of the name of the synthetic source.
pub open spec fn demo_prefix() -> Seq<char> {
    seq!['d', 'e', 'm', 'o']
}

/// The text before the name in the message of a refused name.
pub open spec fn invalid_interface_text() -> Seq<char> {
    seq![
        'i', 'n', 'v', 'a', 'l', 'i', 'd', ' ', 'i', 'n', 't', 'e', 'r', 'f', 'a', 'c', 'e', ':',
        ' ',
    ]
}

/// The message of a transport failure.
pub open spec fn socket_can_text() -> Seq<char> {
    seq!['s', 'o', 'c', 'k', 'e', 't', ' ', 'c', 'a', 'n', ' ', 'e', 'r', 'r', 'o', 'r']
}

impl View for SocketCanConfig {
    type V = Seq<char>;

    /// The name of the interface.
    closed spec fn view(&self) -> Seq<char> {
        self.interface@
    }
}

impl SocketCanConfig {
    /// The name of the interface.
    pub fn interface(&self) -> (name: &str)
        ensures
            name@ == self@,
    {
        self.interface.as_str()
    }
}

impl Error {
    /// The failure in words.
    pub fn message(&self) -> (text: String)
        ensures
            match self {
                Error::SocketCanError(_) => text@ == socket_can_text(),
                Error::InvalidInterface(name) => text@ == invalid_interface_text() + name@,
            },
    {
        proof {
            reveal_strlit("socket can error");
            reveal_strlit("invalid interface: ");
        }
        match self {
            Error::SocketCanError(_) => {
                let text: String = String::from_str("socket can error");
                assert(text@ =~= socket_can_text());
                text
            },
            Error::InvalidInterface(name) => {
                let mut text: String = String::from_str("invalid interface: ");
                assert(text@ =~= invalid_interface_text());
                text.append(name.as_str());
                text
            },
        }
    }
}

/// Whether `text` begins with `prefix`.
pub fn has_prefix(text: &str, prefix: &str) -> (begins: bool)
    ensures
        begins == prefix@.is_prefix_of(text@),
{
    let n: usize = prefix.unicode_len();
    if text.unicode_len() < n {
        return false;
    }
    let mut i: usize = 0;
    while i < n
        invariant
            i <= n,
            n == prefix@.len(),
            n <= text@.len(),
            forall|k: int| 0 <= k < i ==> text@[k] == prefix@[k],
        decreases n - i,
    {
        if text.get_char(i) != prefix.get_char(i) {
            assert(!prefix@.is_prefix_of(text@)) by {
                if prefix@.is_prefix_of(text@) {
                    assert(text@.subrange(0, prefix@.len() as int)[i as int] == prefix@[i as int]);
                }
            }
            return false;
        }
        i = i + 1;
    }
    assert(text@.subrange(0, prefix@.len() as int) =~= prefix@);
    true
}

impl Config {
    /// The source that `interface` names.
    ///
    /// A name that begins with `can` gives the hardware source on the
    /// interface of that name; any other name that begins with `demo` gives
    /// the synthetic source; every other name is refused with
    /// [`Error::InvalidInterface`], which holds the name.
    pub fn new(interface: String) -> (config: Result<Config, Error>)
        ensures
            match config {
                Ok(Config::SocketCan(socket_can)) => {
                    &&& hardware_prefix().is_prefix_of(interface@)
                    &&& socket_can@ == interface@
                },
                Ok(Config::Demo) => {
                    &&& !hardware_prefix().is_prefix_of(interface@)
                    &&& demo_prefix().is_prefix_of(interface@)
                },
                Err(Error::InvalidInterface(name)) => {
                    &&& !hardware_prefix().is_prefix_of(interface@)
                    &&& !demo_prefix().is_prefix_of(interface@)
                    &&& name@ == interface@
                },
                Err(Error::SocketCanError(_)) => false,
            },
    {
        proof {
            reveal_strlit("can");
            reveal_strlit("demo");
            assert("can"@ =~= hardware_prefix());
            assert("demo"@ =~= demo_prefix());
        }
        if has_prefix(interface.as_str(), "can") {
            return Ok(Config::SocketCan(SocketCanConfig { interface }));
        }
        if has_prefix(interface.as_str(), "demo") {
            return Ok(Config::Demo);
        }
        Err(Error::InvalidInterface(interface))
    }
}

} // verus!
