//! Turning the answers of the add-a-server dialogue into a table entry.
use vstd::prelude::*;
use crate::config::{Config, ServerConfig, ServerEntry};
use crate::text::{cat, lower_of, lowercase, parse_u16, same_text, trim_of, trimmed, u16_of_text};
use crate::transfer::opt_string;

verus! {

/// An optional answer: absent when blank.
pub open spec fn optional_text(t: Seq<char>) -> Option<Seq<char>> {
    if t.len() == 0 {
        None
    } else {
        Some(t)
    }
}

/// The port an answer gives: none when blank, else its number, if it is one.
pub open spec fn port_of_answer(t: Seq<char>) -> Result<Option<u16>, ()> {
    if t.len() == 0 {
        Ok(None)
    } else {
        match u16_of_text(t) {
            Some(p) => Ok(Some(p)),
            None => Err(()),
        }
    }
}

/// The message for a port answer that is no port number.
pub open spec fn invalid_port_message(t: Seq<char>) -> Seq<char> {
    "Invalid port '"@ + t + "'"@
}

/// The entry that trimmed answers describe.
pub open spec fn entry_matches(
    e: ServerEntry,
    alias: Seq<char>,
    host: Seq<char>,
    user: Seq<char>,
    key_path: Seq<char>,
    port: Option<u16>,
    default_path: Seq<char>,
) -> bool {
    &&& e.alias@ == alias
    &&& e.server.host@ == host
    &&& e.server.user@ == user
    &&& opt_string(e.server.key_path) == optional_text(key_path)
    &&& e.server.port == port
    &&& opt_string(e.server.default_remote_path) == optional_text(default_path)
}

fn optional_answer(t: String) -> (r: Option<String>)
    ensures
        opt_string(r) == optional_text(t@),
{
    if t.unicode_len() == 0 {
        None
    } else {
        Some(t)
    }
}

/// The port that an answer gives, trimmed of surrounding whitespace: none
/// when blank, else its number; an answer that is no port number fails.
pub fn port_from_answer(answer: &str) -> (r: Result<Option<u16>, String>)
    ensures
        match port_of_answer(trim_of(answer@)) {
            Ok(p) => r == Ok::<Option<u16>, String>(p),
            Err(_) => r matches Err(m) && m@ == invalid_port_message(trim_of(answer@)),
        },
{
    let t = trimmed(answer);
    if t.unicode_len() == 0 {
        Ok(None)
    } else {
        match parse_u16(t.as_str()) {
            Some(p) => Ok(Some(p)),
            None => {
                let head = cat("Invalid port '", t.as_str());
                Err(cat(head.as_str(), "'"))
            },
        }
    }
}

/// Builds an entry from the answers of the dialogue, each trimmed of
/// surrounding whitespace; a blank key path or default path is absent.
pub fn entry_from_answers(
    alias: &str,
    host: &str,
    user: &str,
    key_path: &str,
    port: Option<u16>,
    default_path: &str,
) -> (r: ServerEntry)
    ensures
        entry_matches(
            r,
            trim_of(alias@),
            trim_of(host@),
            trim_of(user@),
            trim_of(key_path@),
            port,
            trim_of(default_path@),
        ),
{
    let server = ServerConfig {
        host: trimmed(host),
        user: trimmed(user),
        key_path: optional_answer(trimmed(key_path)),
        port,
        default_remote_path: optional_answer(trimmed(default_path)),
    };
    ServerEntry { alias: trimmed(alias), server }
}

/// Whether an answer to a yes/no question is yes: `y` in either case, with
/// surrounding whitespace ignored.
pub fn wants_default(answer: &str) -> (r: bool)
    ensures
        r == (lower_of(trim_of(answer@)) == "y"@),
{
    let t = trimmed(answer);
    let l = lowercase(t.as_str());
    same_text(l.as_str(), "y")
}

impl Config {
    /// Adds `entry`, replacing any server under its alias, and makes its alias
    /// the default when asked to and no default is set yet.
    pub fn add_server(&mut self, entry: ServerEntry, make_default: bool)
        requires
            old(self).wf(),
        ensures
            final(self).wf(),
            final(self).server_map() == old(self).server_map().insert(entry.alias@, entry.server),
            final(self).default_alias() == if make_default && old(self).default_alias().is_none() {
                Some(entry.alias)
            } else {
                old(self).default_alias()
            },
    {
        let ServerEntry { alias, server } = entry;
        let unset = self.default_server().is_none();
        if make_default && unset {
            let name = alias.clone();
            self.insert_server(alias, server);
            self.set_default_server(name);
        } else {
            self.insert_server(alias, server);
        }
    }
}

} // verus!
