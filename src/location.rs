//! Location strings: a bare local path, or `alias:path` on a named server.
use vstd::prelude::*;
use crate::config::{Config, ServerConfig};
use crate::text::{cat, find_char, is_first, starts_with_char};

verus! {

/// The alias that marks a local location.
pub open spec fn local_marker() -> Seq<char> {
    "local"@
}

/// Position of the first `:` of a text that holds one.
pub open spec fn colon_at(s: Seq<char>) -> int {
    choose|k: int| is_first(s, ':', k)
}

/// The text before the first `:`.
pub open spec fn alias_part(s: Seq<char>) -> Seq<char> {
    s.subrange(0, colon_at(s))
}

/// The text after the first `:`.
pub open spec fn path_part(s: Seq<char>) -> Seq<char> {
    s.subrange(colon_at(s) + 1, s.len() as int)
}

/// A remote path as used on `server`: absolute paths stay; relative ones go
/// under the server's default directory, else under `/home/<user>/`.
pub open spec fn remote_path_of(path: Seq<char>, server: ServerConfig) -> Seq<char> {
    if path.len() > 0 && path[0] == '/' {
        path
    } else {
        match server.default_remote_path {
            Some(d) => d@ + "/"@ + path,
            None => "/home/"@ + server.user@ + "/"@ + path,
        }
    }
}

/// The message for an alias that names no server.
pub open spec fn unknown_alias_message(alias: Seq<char>) -> Seq<char> {
    "Unknown server alias '"@ + alias + "'. Add it to your config first."@
}

/// The message for a listing location without `:`.
pub open spec fn invalid_list_location_message() -> Seq<char> {
    "Invalid location format. Use 'alias:/path'"@
}

/// A resolved location: alias (or the local marker), host, and path.
pub open spec fn resolved(s: Seq<char>, config: Config) -> Result<
    (Seq<char>, Seq<char>, Seq<char>),
    Seq<char>,
> {
    if !s.contains(':') {
        Ok((local_marker(), Seq::empty(), s))
    } else if config.server_map().contains_key(alias_part(s)) {
        let server = config.server_map()[alias_part(s)];
        Ok((alias_part(s), server.host@, remote_path_of(path_part(s), server)))
    } else {
        Err(unknown_alias_message(alias_part(s)))
    }
}

/// The view of a resolution result.
pub open spec fn resolution_view(r: Result<(String, String, String), String>) -> Result<
    (Seq<char>, Seq<char>, Seq<char>),
    Seq<char>,
> {
    match r {
        Ok((a, h, p)) => Ok((a@, h@, p@)),
        Err(e) => Err(e@),
    }
}

/// Splits `s` at its first `:`, if it holds one.
pub fn split_at_colon(s: &str) -> (r: Option<(String, String)>)
    ensures
        match r {
            Some((a, p)) => s@.contains(':') && a@ == alias_part(s@) && p@ == path_part(s@),
            None => !s@.contains(':'),
        },
{
    match find_char(s, ':') {
        Some(k) => {
            let n = s.unicode_len();
            proof {
                let c = colon_at(s@);
                assert(is_first(s@, ':', k as int));
                if c < k {
                    assert(s@[c] == ':');
                } else if k < c {
                    assert(s@[k as int] == ':');
                }
                assert(c == k);
            }
            let a = String::from_str(s.substring_char(0, k));
            let p = String::from_str(s.substring_char(k + 1, n));
            Some((a, p))
        },
        None => None,
    }
}

/// The message for an unknown alias.
pub fn unknown_alias_error(alias: &str) -> (r: String)
    ensures
        r@ == unknown_alias_message(alias@),
{
    let head = cat("Unknown server alias '", alias);
    cat(head.as_str(), "'. Add it to your config first.")
}

/// Resolves `path` against `server` as a remote path.
pub fn remote_path(path: &str, server: &ServerConfig) -> (r: String)
    ensures
        r@ == remote_path_of(path@, *server),
{
    if starts_with_char(path, '/') {
        String::from_str(path)
    } else {
        match &server.default_remote_path {
            Some(d) => {
                let base = cat(d.as_str(), "/");
                cat(base.as_str(), path)
            },
            None => {
                let home = cat("/home/", server.user.as_str());
                let base = cat(home.as_str(), "/");
                cat(base.as_str(), path)
            },
        }
    }
}

/// Splits a listing location `alias:path` into alias and path.
pub fn split_list_location(location: &str) -> (r: Result<(String, String), String>)
    ensures
        match r {
            Ok((a, p)) => location@.contains(':') && a@ == alias_part(location@) && p@ == path_part(
                location@,
            ),
            Err(e) => !location@.contains(':') && e@ == invalid_list_location_message(),
        },
{
    match split_at_colon(location) {
        Some(parts) => Ok(parts),
        None => Err(String::from_str("Invalid location format. Use 'alias:/path'")),
    }
}

/// Namespace of the transfer operations.
pub struct TransferEngine;

impl TransferEngine {
    /// Resolves a location string to (alias, host, path); a string without
    /// `:` is local, with the alias `local` and no host.
    pub fn parse_location(location_str: &str, config: &Config) -> (r: Result<
        (String, String, String),
        String,
    >)
        requires
            config.wf(),
        ensures
            resolution_view(r) == resolved(location_str@, *config),
    {
        match split_at_colon(location_str) {
            None => Ok((String::from_str("local"), String::new(), String::from_str(location_str))),
            Some((alias, path)) => match config.get_server(alias.as_str()) {
                None => Err(unknown_alias_error(alias.as_str())),
                Some(server) => {
                    let remote = remote_path(path.as_str(), server);
                    Ok((alias, server.host.clone(), remote))
                },
            },
        }
    }
}

} // verus!
