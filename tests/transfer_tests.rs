use xfer::config::{Config, ServerConfig, ServerEntry};
use xfer::location::{split_list_location, TransferEngine};
use xfer::onboard::{entry_from_answers, port_from_answer, wants_default};
use xfer::text::{decimal_string, signed_decimal_string};
use xfer::transfer::{exit_failure, launch_failure, rsync_command, scp_command, Invocation, TransferPlan};

fn server(host: &str, user: &str, key: Option<&str>, port: Option<u16>, default: Option<&str>) -> ServerConfig {
    ServerConfig {
        host: host.to_string(),
        user: user.to_string(),
        key_path: key.map(|k| k.to_string()),
        port,
        default_remote_path: default.map(|d| d.to_string()),
    }
}

fn sample_config() -> Config {
    let mut c = Config::new();
    c.add_server(
        ServerEntry { alias: "gcp".to_string(), server: server("10.0.0.1", "alice", Some("/k/id"), Some(2222), None) },
        false,
    );
    c.add_server(
        ServerEntry { alias: "aws".to_string(), server: server("aws.example.com", "bob", None, None, Some("/srv/data")) },
        false,
    );
    c
}

fn args(inv: &Invocation) -> Vec<&str> {
    inv.args.iter().map(|a| a.as_str()).collect()
}

fn triple(r: Result<(String, String, String), String>) -> (String, String, String) {
    r.expect("location resolves")
}

#[test]
fn local_location_has_local_alias_and_no_host() {
    let c = sample_config();
    let (a, h, p) = triple(TransferEngine::parse_location("notes/file.txt", &c));
    assert_eq!((a.as_str(), h.as_str(), p.as_str()), ("local", "", "notes/file.txt"));
}

#[test]
fn absolute_remote_path_is_kept() {
    let c = sample_config();
    let (a, h, p) = triple(TransferEngine::parse_location("gcp:/var/log/x", &c));
    assert_eq!((a.as_str(), h.as_str(), p.as_str()), ("gcp", "10.0.0.1", "/var/log/x"));
}

#[test]
fn relative_remote_path_uses_default_directory() {
    let c = sample_config();
    let (_, h, p) = triple(TransferEngine::parse_location("aws:backup.tar", &c));
    assert_eq!(h, "aws.example.com");
    assert_eq!(p, "/srv/data/backup.tar");
}

#[test]
fn relative_remote_path_without_default_goes_home() {
    let c = sample_config();
    let (_, _, p) = triple(TransferEngine::parse_location("gcp:docs/a.txt", &c));
    assert_eq!(p, "/home/alice/docs/a.txt");
}

#[test]
fn empty_remote_path_is_home_directory() {
    let c = sample_config();
    let (_, _, p) = triple(TransferEngine::parse_location("gcp:", &c));
    assert_eq!(p, "/home/alice/");
}

#[test]
fn only_first_colon_splits_location() {
    let c = sample_config();
    let (a, _, p) = triple(TransferEngine::parse_location("gcp:a:b", &c));
    assert_eq!(a, "gcp");
    assert_eq!(p, "/home/alice/a:b");
}

#[test]
fn unknown_alias_is_rejected() {
    let c = sample_config();
    let e = TransferEngine::parse_location("nowhere:/x", &c).unwrap_err();
    assert_eq!(e, "Unknown server alias 'nowhere'. Add it to your config first.");
}

#[test]
fn send_local_to_remote_plans_upload() {
    let c = sample_config();
    let plan = TransferEngine::send_file("a.txt", "gcp:/tmp/", &c).unwrap();
    assert_eq!(plan.local_source().map(|s| s.as_str()), Some("a.txt"));
    let file = plan.command(false);
    assert_eq!(file.program, "scp");
    assert_eq!(args(&file), vec!["-i", "/k/id", "-P", "2222", "a.txt", "alice@10.0.0.1:/tmp/"]);
    let dir = plan.command(true);
    assert_eq!(dir.program, "rsync");
    assert_eq!(
        args(&dir),
        vec!["-avz", "--progress", "-e", "ssh -i /k/id -p 2222", "a.txt/", "alice@10.0.0.1:/tmp/"]
    );
}

#[test]
fn send_remote_to_local_plans_download() {
    let c = sample_config();
    let plan = TransferEngine::send_file("aws:logs", "./here", &c).unwrap();
    assert!(plan.local_source().is_none());
    let cmd = plan.command(false);
    assert_eq!(cmd.program, "scp");
    assert_eq!(args(&cmd), vec!["bob@aws.example.com:/srv/data/logs", "./here"]);
    match plan {
        TransferPlan::FromRemote { host, .. } => assert_eq!(host, "aws.example.com"),
        _ => panic!("expected a download"),
    }
}

#[test]
fn send_local_to_local_uses_cp_or_rsync() {
    let c = sample_config();
    let plan = TransferEngine::send_file("a", "b", &c).unwrap();
    assert_eq!(plan.local_source().map(|s| s.as_str()), Some("a"));
    let file = plan.command(false);
    assert_eq!(file.program, "cp");
    assert_eq!(args(&file), vec!["a", "b"]);
    let dir = plan.command(true);
    assert_eq!(dir.program, "rsync");
    assert_eq!(args(&dir), vec!["-av", "--progress", "a", "b"]);
}

#[test]
fn send_remote_to_remote_is_refused() {
    let c = sample_config();
    let e = TransferEngine::send_file("gcp:/a", "aws:/b", &c).err().unwrap();
    assert_eq!(e, "Direct remote-to-remote transfers not supported yet");
}

#[test]
fn send_reports_source_error_first() {
    let c = sample_config();
    let e = TransferEngine::send_file("x:/a", "y:/b", &c).err().unwrap();
    assert_eq!(e, "Unknown server alias 'x'. Add it to your config first.");
    let e = TransferEngine::send_file("a", "y:/b", &c).err().unwrap();
    assert_eq!(e, "Unknown server alias 'y'. Add it to your config first.");
}

#[test]
fn rsync_shell_option_variants() {
    let both = rsync_command("s", "d", Some("k"), Some(22));
    assert_eq!(args(&both), vec!["-avz", "--progress", "-e", "ssh -i k -p 22", "s", "d"]);
    let key = rsync_command("s", "d", Some("k"), None);
    assert_eq!(args(&key), vec!["-avz", "--progress", "-e", "ssh -i k", "s", "d"]);
    let port = rsync_command("s", "d", None, Some(8022));
    assert_eq!(args(&port), vec!["-avz", "--progress", "-e", "ssh -p 8022", "s", "d"]);
    let none = rsync_command("s", "d", None, None);
    assert_eq!(args(&none), vec!["-avz", "--progress", "s", "d"]);
    assert_eq!(none.program, "rsync");
}

#[test]
fn scp_option_variants() {
    assert_eq!(args(&scp_command("s", "d", None, None)), vec!["s", "d"]);
    assert_eq!(args(&scp_command("s", "d", None, Some(7))), vec!["-P", "7", "s", "d"]);
    assert_eq!(args(&scp_command("s", "d", Some("k"), None)), vec!["-i", "k", "s", "d"]);
}

#[test]
fn list_uses_default_directory_for_empty_path() {
    let c = sample_config();
    let cmd = TransferEngine::list_remote("aws", "", &c).unwrap();
    assert_eq!(cmd.program, "ssh");
    assert_eq!(args(&cmd), vec!["bob@aws.example.com", "ls -la /srv/data"]);
}

#[test]
fn list_passes_key_port_and_home() {
    let c = sample_config();
    let home = TransferEngine::list_remote("gcp", "", &c).unwrap();
    assert_eq!(args(&home), vec!["-i", "/k/id", "-p", "2222", "alice@10.0.0.1", "ls -la /home/alice"]);
    let given = TransferEngine::list_remote("gcp", "rel/dir", &c).unwrap();
    assert_eq!(given.args.last().unwrap(), "ls -la rel/dir");
}

#[test]
fn list_unknown_alias_is_rejected() {
    let c = sample_config();
    let e = TransferEngine::list_remote("zz", "/", &c).err().unwrap();
    assert_eq!(e, "Unknown server alias 'zz'. Add it to your config first.");
}

#[test]
fn list_location_needs_a_colon() {
    let (a, p) = split_list_location("gcp:/etc").unwrap();
    assert_eq!((a.as_str(), p.as_str()), ("gcp", "/etc"));
    let e = split_list_location("gcp").unwrap_err();
    assert_eq!(e, "Invalid location format. Use 'alias:/path'");
}

#[test]
fn config_lookup_and_replacement() {
    let mut c = sample_config();
    assert!(!c.is_empty());
    assert!(Config::new().is_empty());
    assert_eq!(c.get_server("gcp").unwrap().host, "10.0.0.1");
    assert!(c.get_server("GCP").is_none());
    c.add_server(ServerEntry { alias: "gcp".to_string(), server: server("new.host", "carol", None, None, None) }, false);
    assert_eq!(c.server_entries().len(), 2);
    assert_eq!(c.get_server("gcp").unwrap().host, "new.host");
    assert_eq!(c.server_entries()[0].alias, "gcp");
}

#[test]
fn default_is_set_only_when_unset() {
    let mut c = Config::new();
    c.add_server(ServerEntry { alias: "a".to_string(), server: server("h", "u", None, None, None) }, false);
    assert!(c.default_server().is_none());
    c.add_server(ServerEntry { alias: "b".to_string(), server: server("h", "u", None, None, None) }, true);
    assert_eq!(c.default_server().as_deref(), Some("b"));
    c.add_server(ServerEntry { alias: "c".to_string(), server: server("h", "u", None, None, None) }, true);
    assert_eq!(c.default_server().as_deref(), Some("b"));
}

#[test]
fn answers_are_trimmed_and_blanks_absent() {
    let port = port_from_answer("2222\n").unwrap();
    let e = entry_from_answers(" gcp\n", "example.com \n", "\tme\n", "  \n", port, "\n");
    assert_eq!(e.alias, "gcp");
    assert_eq!(e.server.host, "example.com");
    assert_eq!(e.server.user, "me");
    assert_eq!(e.server.key_path, None);
    assert_eq!(e.server.port, Some(2222));
    assert_eq!(e.server.default_remote_path, None);
}

#[test]
fn answers_with_all_optionals() {
    let port = port_from_answer("+22").unwrap();
    let e = entry_from_answers("w", "h", "u", "~/.ssh/id", port, "/data");
    assert_eq!(e.server.key_path.as_deref(), Some("~/.ssh/id"));
    assert_eq!(e.server.port, Some(22));
    assert_eq!(e.server.default_remote_path.as_deref(), Some("/data"));
}

#[test]
fn bad_port_answers_fail() {
    assert_eq!(port_from_answer(" abc ").unwrap_err(), "Invalid port 'abc'");
    assert_eq!(port_from_answer("70000").unwrap_err(), "Invalid port '70000'");
    assert_eq!(port_from_answer("65535").unwrap(), Some(65535));
    assert!(port_from_answer("-1").is_err());
    assert_eq!(port_from_answer(" \n").unwrap(), None);
}

fn config_with_local_alias() -> Config {
    let mut c = Config::new();
    c.add_server(
        ServerEntry { alias: "local".to_string(), server: server("box.lan", "dana", None, None, None) },
        false,
    );
    c
}

#[test]
fn server_named_local_is_remote_as_source() {
    let c = config_with_local_alias();
    let plan = TransferEngine::send_file("local:/x", "out", &c).unwrap();
    assert!(plan.local_source().is_none());
    let cmd = plan.command(false);
    assert_eq!(cmd.program, "scp");
    assert_eq!(args(&cmd), vec!["dana@box.lan:/x", "out"]);
}

#[test]
fn server_named_local_is_remote_as_destination() {
    let c = config_with_local_alias();
    let plan = TransferEngine::send_file("a", "local:/y", &c).unwrap();
    assert_eq!(plan.local_source().map(|s| s.as_str()), Some("a"));
    let cmd = plan.command(false);
    assert_eq!(cmd.program, "scp");
    assert_eq!(args(&cmd), vec!["a", "dana@box.lan:/y"]);
}

#[test]
fn yes_answer_detection() {
    assert!(wants_default(" Y\n"));
    assert!(wants_default("y"));
    assert!(!wants_default("n\n"));
    assert!(!wants_default("yes"));
    assert!(!wants_default(""));
}

#[test]
fn decimal_rendering() {
    assert_eq!(decimal_string(0), "0");
    assert_eq!(decimal_string(65535), "65535");
    assert_eq!(decimal_string(u32::MAX), "4294967295");
    assert_eq!(signed_decimal_string(-1), "-1");
    assert_eq!(signed_decimal_string(i32::MIN), "-2147483648");
    assert_eq!(signed_decimal_string(130), "130");
}

#[test]
fn failure_messages() {
    assert_eq!(exit_failure("rsync", Some(23)), "rsync failed with exit code: Some(23)");
    assert_eq!(exit_failure("scp", Some(-2)), "scp failed with exit code: Some(-2)");
    assert_eq!(exit_failure("ssh", None), "ssh failed with exit code: None");
    assert_eq!(launch_failure("cp", "not found"), "Failed to execute cp: not found");
}
