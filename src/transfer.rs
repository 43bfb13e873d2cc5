//! Choosing a transfer mode and assembling the exact command lines of
//! `scp`, `rsync`, `ssh` and `cp`.
use vstd::prelude::*;
use crate::config::{Config, ServerConfig};
use crate::location::{
    resolved, unknown_alias_error, unknown_alias_message, TransferEngine,
};
use crate::text::{
    cat, decimal_of, decimal_string, find_char, signed_decimal_of, signed_decimal_string,
};

verus! {

/// A program to run and its arguments.
pub struct Invocation {
    pub program: String,
    pub args: Vec<String>,
}

/// The texts of a list of arguments.
pub open spec fn texts(v: Seq<String>) -> Seq<Seq<char>> {
    v.map_values(|a: String| a@)
}

impl View for Invocation {
    type V = (Seq<char>, Seq<Seq<char>>);

    open spec fn view(&self) -> (Seq<char>, Seq<Seq<char>>) {
        (self.program@, texts(self.args@))
    }
}

/// The text of an optional borrowed text.
pub open spec fn opt_str(o: Option<&str>) -> Option<Seq<char>> {
    match o {
        Some(s) => Some(s@),
        None => None,
    }
}

/// The text of an optional owned text.
pub open spec fn opt_string(o: Option<String>) -> Option<Seq<char>> {
    match o {
        Some(s) => Some(s@),
        None => None,
    }
}

/// `user@host:path`.
pub open spec fn remote_target(user: Seq<char>, host: Seq<char>, path: Seq<char>) -> Seq<char> {
    user + "@"@ + host + ":"@ + path
}

/// The `-e <ssh command>` options that carry a key and a port to rsync.
pub open spec fn rsync_shell_args(key: Option<Seq<char>>, port: Option<u16>) -> Seq<Seq<char>> {
    match (key, port) {
        (Some(k), Some(p)) => seq!["-e"@, "ssh -i "@ + k + " -p "@ + decimal_of(p as nat)],
        (Some(k), None) => seq!["-e"@, "ssh -i "@ + k],
        (None, Some(p)) => seq!["-e"@, "ssh -p "@ + decimal_of(p as nat)],
        (None, None) => seq![],
    }
}

/// Arguments of an rsync transfer to or from a server.
pub open spec fn rsync_args(
    src: Seq<char>,
    dest: Seq<char>,
    key: Option<Seq<char>>,
    port: Option<u16>,
) -> Seq<Seq<char>> {
    seq!["-avz"@, "--progress"@] + rsync_shell_args(key, port) + seq![src, dest]
}

/// `<flag> <key>` when a key is given.
pub open spec fn key_args(key: Option<Seq<char>>) -> Seq<Seq<char>> {
    match key {
        Some(k) => seq!["-i"@, k],
        None => seq![],
    }
}

/// `<flag> <port>` when a port is given.
pub open spec fn port_args(flag: Seq<char>, port: Option<u16>) -> Seq<Seq<char>> {
    match port {
        Some(p) => seq![flag, decimal_of(p as nat)],
        None => seq![],
    }
}

/// Arguments of an scp copy.
pub open spec fn scp_args(
    src: Seq<char>,
    dest: Seq<char>,
    key: Option<Seq<char>>,
    port: Option<u16>,
) -> Seq<Seq<char>> {
    key_args(key) + port_args("-P"@, port) + seq![src, dest]
}

fn push_arg(args: &mut Vec<String>, a: &str)
    ensures
        texts(final(args)@) == texts(old(args)@).push(a@),
{
    args.push(String::from_str(a));
    assert(texts(args@) =~= texts(old(args)@).push(a@));
}

fn push_opt_key(args: &mut Vec<String>, key_path: Option<&str>)
    ensures
        texts(final(args)@) == texts(old(args)@) + key_args(opt_str(key_path)),
{
    let ghost start = texts(args@);
    if let Some(key) = key_path {
        push_arg(args, "-i");
        push_arg(args, key);
    }
    assert(texts(args@) =~= start + key_args(opt_str(key_path)));
}

fn push_opt_port(args: &mut Vec<String>, flag: &str, port: Option<u16>)
    ensures
        texts(final(args)@) == texts(old(args)@) + port_args(flag@, port),
{
    let ghost start = texts(args@);
    if let Some(p) = port {
        push_arg(args, flag);
        let digits = decimal_string(p as u32);
        push_arg(args, digits.as_str());
    }
    assert(texts(args@) =~= start + port_args(flag@, port));
}

fn as_opt_str(o: &Option<String>) -> (r: Option<&str>)
    ensures
        opt_str(r) == opt_string(*o),
{
    match o {
        Some(s) => Some(s.as_str()),
        None => None,
    }
}

/// `user@host:path`.
pub fn remote_target_text(user: &str, host: &str, path: &str) -> (r: String)
    ensures
        r@ == remote_target(user@, host@, path@),
{
    let a = cat(user, "@");
    let b = cat(a.as_str(), host);
    let c = cat(b.as_str(), ":");
    cat(c.as_str(), path)
}

/// The rsync command that copies `src` to `dest` over ssh.
pub fn rsync_command(src: &str, dest: &str, key_path: Option<&str>, port: Option<u16>) -> (r:
    Invocation)
    ensures
        r@ == ("rsync"@, rsync_args(src@, dest@, opt_str(key_path), port)),
{
    let mut args: Vec<String> = Vec::new();
    push_arg(&mut args, "-avz");
    push_arg(&mut args, "--progress");
    let ghost head = texts(args@);
    match (key_path, port) {
        (Some(key), Some(p)) => {
            push_arg(&mut args, "-e");
            let a = cat("ssh -i ", key);
            let b = cat(a.as_str(), " -p ");
            let digits = decimal_string(p as u32);
            let c = cat(b.as_str(), digits.as_str());
            push_arg(&mut args, c.as_str());
        },
        (Some(key), None) => {
            push_arg(&mut args, "-e");
            let a = cat("ssh -i ", key);
            push_arg(&mut args, a.as_str());
        },
        (None, Some(p)) => {
            push_arg(&mut args, "-e");
            let digits = decimal_string(p as u32);
            let a = cat("ssh -p ", digits.as_str());
            push_arg(&mut args, a.as_str());
        },
        (None, None) => {},
    }
    assert(texts(args@) =~= head + rsync_shell_args(opt_str(key_path), port));
    push_arg(&mut args, src);
    push_arg(&mut args, dest);
    assert(texts(args@) =~= rsync_args(src@, dest@, opt_str(key_path), port));
    Invocation { program: String::from_str("rsync"), args }
}

/// The scp command that copies `src` to `dest`.
pub fn scp_command(src: &str, dest: &str, key_path: Option<&str>, port: Option<u16>) -> (r:
    Invocation)
    ensures
        r@ == ("scp"@, scp_args(src@, dest@, opt_str(key_path), port)),
{
    let mut args: Vec<String> = Vec::new();
    push_opt_key(&mut args, key_path);
    push_opt_port(&mut args, "-P", port);
    push_arg(&mut args, src);
    push_arg(&mut args, dest);
    assert(texts(args@) =~= scp_args(src@, dest@, opt_str(key_path), port));
    Invocation { program: String::from_str("scp"), args }
}

/// Arguments of a local directory copy by rsync.
pub open spec fn local_rsync_args(src: Seq<char>, dest: Seq<char>) -> Seq<Seq<char>> {
    seq!["-av"@, "--progress"@, src, dest]
}

/// The command that copies a local path to a server: a directory by rsync
/// (its contents, hence the trailing `/`), anything else by scp.
pub open spec fn to_remote_command(
    local_path: Seq<char>,
    host: Seq<char>,
    user: Seq<char>,
    remote_path: Seq<char>,
    key: Option<Seq<char>>,
    port: Option<u16>,
    local_is_dir: bool,
) -> (Seq<char>, Seq<Seq<char>>) {
    if local_is_dir {
        ("rsync"@, rsync_args(local_path + "/"@, remote_target(user, host, remote_path), key, port))
    } else {
        ("scp"@, scp_args(local_path, remote_target(user, host, remote_path), key, port))
    }
}

/// The command that copies a local path to another: a directory by rsync,
/// anything else by cp.
pub open spec fn local_command(src: Seq<char>, dest: Seq<char>, src_is_dir: bool) -> (
    Seq<char>,
    Seq<Seq<char>>,
) {
    if src_is_dir {
        ("rsync"@, local_rsync_args(src, dest))
    } else {
        ("cp"@, seq![src, dest])
    }
}

impl TransferEngine {
    /// The command that copies `local_path` to `remote_path` on a server.
    pub fn transfer_to_remote(
        local_path: &str,
        host: &str,
        user: &str,
        remote_path: &str,
        key_path: Option<&str>,
        port: Option<u16>,
        local_is_dir: bool,
    ) -> (r: Invocation)
        ensures
            r@ == to_remote_command(
                local_path@,
                host@,
                user@,
                remote_path@,
                opt_str(key_path),
                port,
                local_is_dir,
            ),
    {
        let target = remote_target_text(user, host, remote_path);
        if local_is_dir {
            let contents = cat(local_path, "/");
            rsync_command(contents.as_str(), target.as_str(), key_path, port)
        } else {
            scp_command(local_path, target.as_str(), key_path, port)
        }
    }

    /// The command that copies `remote_path` on a server to `local_path`.
    pub fn transfer_from_remote(
        host: &str,
        user: &str,
        remote_path: &str,
        local_path: &str,
        key_path: Option<&str>,
        port: Option<u16>,
    ) -> (r: Invocation)
        ensures
            r@ == ("scp"@, scp_args(
                remote_target(user@, host@, remote_path@),
                local_path@,
                opt_str(key_path),
                port,
            )),
    {
        let target = remote_target_text(user, host, remote_path);
        scp_command(target.as_str(), local_path, key_path, port)
    }

    /// The command that copies one local path to another.
    pub fn transfer_local_to_local(src: &str, dest: &str, src_is_dir: bool) -> (r: Invocation)
        ensures
            r@ == local_command(src@, dest@, src_is_dir),
    {
        let mut args: Vec<String> = Vec::new();
        if src_is_dir {
            push_arg(&mut args, "-av");
            push_arg(&mut args, "--progress");
            push_arg(&mut args, src);
            push_arg(&mut args, dest);
            assert(texts(args@) =~= local_rsync_args(src@, dest@));
            Invocation { program: String::from_str("rsync"), args }
        } else {
            push_arg(&mut args, src);
            push_arg(&mut args, dest);
            assert(texts(args@) =~= seq![src@, dest@]);
            Invocation { program: String::from_str("cp"), args }
        }
    }
}

/// A transfer chosen from two resolved locations, before the local file
/// system is consulted.
pub enum TransferPlan {
    ToRemote {
        local_path: String,
        host: String,
        user: String,
        remote_path: String,
        key_path: Option<String>,
        port: Option<u16>,
    },
    FromRemote {
        host: String,
        user: String,
        remote_path: String,
        local_path: String,
        key_path: Option<String>,
        port: Option<u16>,
    },
    LocalToLocal { src: String, dest: String },
}

/// The mathematical content of a [`TransferPlan`].
pub enum PlanModel {
    ToRemote {
        local_path: Seq<char>,
        host: Seq<char>,
        user: Seq<char>,
        remote_path: Seq<char>,
        key_path: Option<Seq<char>>,
        port: Option<u16>,
    },
    FromRemote {
        host: Seq<char>,
        user: Seq<char>,
        remote_path: Seq<char>,
        local_path: Seq<char>,
        key_path: Option<Seq<char>>,
        port: Option<u16>,
    },
    LocalToLocal { src: Seq<char>, dest: Seq<char> },
}

impl View for TransferPlan {
    type V = PlanModel;

    open spec fn view(&self) -> PlanModel {
        match self {
            TransferPlan::ToRemote { local_path, host, user, remote_path, key_path, port } =>
                PlanModel::ToRemote {
                local_path: local_path@,
                host: host@,
                user: user@,
                remote_path: remote_path@,
                key_path: opt_string(*key_path),
                port: *port,
            },
            TransferPlan::FromRemote { host, user, remote_path, local_path, key_path, port } =>
                PlanModel::FromRemote {
                host: host@,
                user: user@,
                remote_path: remote_path@,
                local_path: local_path@,
                key_path: opt_string(*key_path),
                port: *port,
            },
            TransferPlan::LocalToLocal { src, dest } => PlanModel::LocalToLocal {
                src: src@,
                dest: dest@,
            },
        }
    }
}

/// The message for a transfer between two servers.
pub open spec fn remote_to_remote_message() -> Seq<char> {
    "Direct remote-to-remote transfers not supported yet"@
}

/// The transfer between two location strings: an error of either
/// location (the source's first), else the mode that their sides select. A
/// side is remote exactly when its string holds a `:`.
pub open spec fn plan_of(src: Seq<char>, dest: Seq<char>, config: Config) -> Result<
    PlanModel,
    Seq<char>,
> {
    match (resolved(src, config), resolved(dest, config)) {
        (Err(e), _) => Err(e),
        (Ok(_), Err(e)) => Err(e),
        (Ok((sa, sh, sp)), Ok((da, dh, dp))) => {
            if !src.contains(':') && dest.contains(':') {
                let server = config.server_map()[da];
                Ok(
                    PlanModel::ToRemote {
                        local_path: sp,
                        host: dh,
                        user: server.user@,
                        remote_path: dp,
                        key_path: opt_string(server.key_path),
                        port: server.port,
                    },
                )
            } else if src.contains(':') && !dest.contains(':') {
                let server = config.server_map()[sa];
                Ok(
                    PlanModel::FromRemote {
                        host: sh,
                        user: server.user@,
                        remote_path: sp,
                        local_path: dp,
                        key_path: opt_string(server.key_path),
                        port: server.port,
                    },
                )
            } else if !src.contains(':') && !dest.contains(':') {
                Ok(PlanModel::LocalToLocal { src: sp, dest: dp })
            } else {
                Err(remote_to_remote_message())
            }
        },
    }
}

/// The local path whose kind (directory or not) selects the command.
pub open spec fn plan_local_source(p: PlanModel) -> Option<Seq<char>> {
    match p {
        PlanModel::ToRemote { local_path, .. } => Some(local_path),
        PlanModel::FromRemote { .. } => None,
        PlanModel::LocalToLocal { src, .. } => Some(src),
    }
}

/// The command that carries out a plan.
pub open spec fn plan_command(p: PlanModel, source_is_dir: bool) -> (Seq<char>, Seq<Seq<char>>) {
    match p {
        PlanModel::ToRemote { local_path, host, user, remote_path, key_path, port } =>
            to_remote_command(local_path, host, user, remote_path, key_path, port, source_is_dir),
        PlanModel::FromRemote { host, user, remote_path, local_path, key_path, port } => (
            "scp"@,
            scp_args(remote_target(user, host, remote_path), local_path, key_path, port),
        ),
        PlanModel::LocalToLocal { src, dest } => local_command(src, dest, source_is_dir),
    }
}

impl TransferPlan {
    /// The local source path, when its kind selects the command.
    pub fn local_source(&self) -> (r: Option<&String>)
        ensures
            match r {
                Some(s) => plan_local_source(self@) == Some(s@),
                None => plan_local_source(self@).is_none(),
            },
    {
        match self {
            TransferPlan::ToRemote { local_path, .. } => Some(local_path),
            TransferPlan::FromRemote { .. } => None,
            TransferPlan::LocalToLocal { src, .. } => Some(src),
        }
    }

    /// The command for this plan, given whether the local source is a
    /// directory.
    pub fn command(&self, source_is_dir: bool) -> (r: Invocation)
        ensures
            r@ == plan_command(self@, source_is_dir),
    {
        match self {
            TransferPlan::ToRemote { local_path, host, user, remote_path, key_path, port } => {
                TransferEngine::transfer_to_remote(
                    local_path.as_str(),
                    host.as_str(),
                    user.as_str(),
                    remote_path.as_str(),
                    as_opt_str(key_path),
                    *port,
                    source_is_dir,
                )
            },
            TransferPlan::FromRemote { host, user, remote_path, local_path, key_path, port } => {
                TransferEngine::transfer_from_remote(
                    host.as_str(),
                    user.as_str(),
                    remote_path.as_str(),
                    local_path.as_str(),
                    as_opt_str(key_path),
                    *port,
                )
            },
            TransferPlan::LocalToLocal { src, dest } => {
                TransferEngine::transfer_local_to_local(src.as_str(), dest.as_str(), source_is_dir)
            },
        }
    }
}

impl TransferEngine {
    /// Chooses the transfer between two location strings.
    pub fn send_file(src: &str, dest: &str, config: &Config) -> (r: Result<TransferPlan, String>)
        requires
            config.wf(),
        ensures
            match r {
                Ok(p) => plan_of(src@, dest@, *config) == Ok::<PlanModel, Seq<char>>(p@),
                Err(e) => plan_of(src@, dest@, *config) == Err::<PlanModel, Seq<char>>(e@),
            },
    {
        let rs = TransferEngine::parse_location(src, config);
        let (src_alias, src_host, src_path) = match rs {
            Ok(t) => t,
            Err(e) => return Err(e),
        };
        let rd = TransferEngine::parse_location(dest, config);
        let (dest_alias, dest_host, dest_path) = match rd {
            Ok(t) => t,
            Err(e) => return Err(e),
        };
        let src_local = find_char(src, ':').is_none();
        let dest_local = find_char(dest, ':').is_none();
        if src_local && !dest_local {
            let server = config.get_server(dest_alias.as_str()).unwrap();
            Ok(
                TransferPlan::ToRemote {
                    local_path: src_path,
                    host: dest_host,
                    user: server.user.clone(),
                    remote_path: dest_path,
                    key_path: server.key_path.clone(),
                    port: server.port,
                },
            )
        } else if !src_local && dest_local {
            let server = config.get_server(src_alias.as_str()).unwrap();
            Ok(
                TransferPlan::FromRemote {
                    host: src_host,
                    user: server.user.clone(),
                    remote_path: src_path,
                    local_path: dest_path,
                    key_path: server.key_path.clone(),
                    port: server.port,
                },
            )
        } else if src_local && dest_local {
            Ok(TransferPlan::LocalToLocal { src: src_path, dest: dest_path })
        } else {
            Err(String::from_str("Direct remote-to-remote transfers not supported yet"))
        }
    }
}

/// The directory listed on `server`: `path`, or when it is empty the
/// server's default directory, else `/home/<user>`.
pub open spec fn listing_path(path: Seq<char>, server: ServerConfig) -> Seq<char> {
    if path.len() == 0 {
        match server.default_remote_path {
            Some(d) => d@,
            None => "/home/"@ + server.user@,
        }
    } else {
        path
    }
}

/// Arguments of the ssh command that lists `path` on `server`.
pub open spec fn list_args(path: Seq<char>, server: ServerConfig) -> Seq<Seq<char>> {
    key_args(opt_string(server.key_path)) + port_args("-p"@, server.port) + seq![
        server.user@ + "@"@ + server.host@,
        "ls -la "@ + listing_path(path, server),
    ]
}

/// The listing command for `alias:path`, or the unknown-alias message.
pub open spec fn listing_of(alias: Seq<char>, path: Seq<char>, config: Config) -> Result<
    (Seq<char>, Seq<Seq<char>>),
    Seq<char>,
> {
    if config.server_map().contains_key(alias) {
        Ok(("ssh"@, list_args(path, config.server_map()[alias])))
    } else {
        Err(unknown_alias_message(alias))
    }
}

impl TransferEngine {
    /// The ssh command that lists `path` on the server named `alias`.
    pub fn list_remote(alias: &str, path: &str, config: &Config) -> (r: Result<Invocation, String>)
        requires
            config.wf(),
        ensures
            match r {
                Ok(c) => listing_of(alias@, path@, *config) == Ok::<_, Seq<char>>(c@),
                Err(e) => listing_of(alias@, path@, *config) == Err::<
                    (Seq<char>, Seq<Seq<char>>),
                    _,
                >(e@),
            },
    {
        let server = match config.get_server(alias) {
            Some(s) => s,
            None => return Err(unknown_alias_error(alias)),
        };
        let remote_path = if path.unicode_len() == 0 {
            match &server.default_remote_path {
                Some(d) => d.clone(),
                None => cat("/home/", server.user.as_str()),
            }
        } else {
            String::from_str(path)
        };
        let mut args: Vec<String> = Vec::new();
        push_opt_key(&mut args, as_opt_str(&server.key_path));
        push_opt_port(&mut args, "-p", server.port);
        let at = cat(server.user.as_str(), "@");
        let host = cat(at.as_str(), server.host.as_str());
        push_arg(&mut args, host.as_str());
        let command = cat("ls -la ", remote_path.as_str());
        push_arg(&mut args, command.as_str());
        assert(texts(args@) =~= list_args(path@, *server));
        Ok(Invocation { program: String::from_str("ssh"), args })
    }
}

/// How a debug rendering shows an optional exit code: `Some(<code>)` or `None`.
pub open spec fn exit_code_text(code: Option<i32>) -> Seq<char> {
    match code {
        Some(c) => "Some("@ + signed_decimal_of(c as int) + ")"@,
        None => "None"@,
    }
}

/// The message for a command that ran and did not succeed.
pub open spec fn exit_failure_message(program: Seq<char>, code: Option<i32>) -> Seq<char> {
    program + " failed with exit code: "@ + exit_code_text(code)
}

/// The message for a command that could not be started.
pub open spec fn launch_failure_message(program: Seq<char>, detail: Seq<char>) -> Seq<char> {
    "Failed to execute "@ + program + ": "@ + detail
}

/// The message for `program` ending with exit code `code` (none when a
/// signal ended it).
pub fn exit_failure(program: &str, code: Option<i32>) -> (r: String)
    ensures
        r@ == exit_failure_message(program@, code),
{
    let head = cat(program, " failed with exit code: ");
    match code {
        Some(c) => {
            let open = cat(head.as_str(), "Some(");
            let digits = signed_decimal_string(c);
            let body = cat(open.as_str(), digits.as_str());
            cat(body.as_str(), ")")
        },
        None => cat(head.as_str(), "None"),
    }
}

/// The message for `program` failing to start, with the system's reason.
pub fn launch_failure(program: &str, detail: &str) -> (r: String)
    ensures
        r@ == launch_failure_message(program@, detail@),
{
    let head = cat("Failed to execute ", program);
    let sep = cat(head.as_str(), ": ");
    cat(sep.as_str(), detail)
}

} // verus!
