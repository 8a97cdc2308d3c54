use soksak_sidecar_terminal_wezterm::proto::{
    checkpoint_dir, checkpoint_path, ckpt_component, client_id, control_socket_path, hello,
    require_ok, run_dir, service_log_path, service_socket_path, stream_socket_path, token_path,
    Envelope, HomePath, PTYD_PROTOCOL_VERSION, TEE_FRAME_DATA, TEE_FRAME_GAP,
};
use soksak_sidecar_terminal_wezterm::text::{push_decimal, trimmed};

fn parts(p: &HomePath) -> Vec<&str> {
    p.parts.iter().map(|s| s.as_str()).collect()
}

#[test]
fn daemon_paths_are_protocol_keyed_under_run() {
    let home = "/home/u/.soksak";
    assert_eq!(run_dir(home).home, home);
    assert_eq!(parts(&run_dir(home)), vec!["run"]);
    assert_eq!(parts(&control_socket_path(home)), vec!["run", "ptyd-p1.sock"]);
    assert_eq!(parts(&stream_socket_path(home)), vec!["run", "ptyd-p1-stream.sock"]);
    assert_eq!(parts(&token_path(home)), vec!["run", "ptyd-p1.token"]);
}

#[test]
fn service_paths_are_contract_keyed_and_name_no_engine() {
    let home = "/h";
    assert_eq!(parts(&service_socket_path(home)), vec!["run", "soksak-sidecar-terminal-p1.sock"]);
    assert_eq!(parts(&service_log_path(home)), vec!["run", "soksak-sidecar-terminal-p1.log"]);
    assert!(!service_socket_path(home).parts[1].contains("wezterm"));
}

#[test]
fn checkpoint_path_encodes_window_and_pane_as_url_safe_base64() {
    assert_eq!(ckpt_component("w-1"), "dy0x");
    assert_eq!(ckpt_component("v2"), "djI");
    assert_eq!(ckpt_component(""), "");
    assert_eq!(ckpt_component("\u{ff}\u{ff}"), "w7_Dvw");
    let home = "/h";
    assert_eq!(parts(&checkpoint_dir(home)), vec!["pty", "checkpoints"]);
    assert_eq!(
        parts(&checkpoint_path(home, "w-1", "v2")),
        vec!["pty", "checkpoints", "ckpt-dy0x.djI.json"]
    );
    // A dot inside a label cannot make two panes share a checkpoint file.
    assert_ne!(checkpoint_path(home, "a.b", "c").parts[2], checkpoint_path(home, "a", "b.c").parts[2]);
}

#[test]
fn hello_carries_version_token_and_client_id() {
    let h = hello("tok", Some(9), true);
    assert_eq!(h.version, PTYD_PROTOCOL_VERSION);
    assert_eq!(h.token, "tok");
    assert_eq!(h.client_id, "soksak-sidecar-terminal-wezterm");
    assert_eq!(h.session, Some(9));
    assert!(h.subscribe);
    let h = hello("tok", None, false);
    assert_eq!((h.session, h.subscribe), (None, false));
    assert_eq!(client_id(), "soksak-sidecar-terminal-wezterm");
    assert_eq!((TEE_FRAME_DATA, TEE_FRAME_GAP), (0, 1));
}

#[test]
fn envelope_is_accepted_only_when_ok_is_true() {
    assert!(require_ok(&Envelope { ok: Some(true), code: None, message: None }).is_ok());
    assert_eq!(
        require_ok(&Envelope { ok: Some(false), code: Some("NOT_FOUND".into()), message: Some("gone".into()) }),
        Err("NOT_FOUND: gone".to_string())
    );
    assert_eq!(
        require_ok(&Envelope { ok: None, code: None, message: None }),
        Err("ERR: (no message)".to_string())
    );
}

#[test]
fn decimal_and_trim_helpers() {
    let mut s = String::from("p");
    push_decimal(&mut s, 0);
    push_decimal(&mut s, 1907);
    push_decimal(&mut s, u64::MAX);
    assert_eq!(s, "p0190718446744073709551615");
    assert_eq!(trimmed("\u{85}\u{a0} x y \u{2029}"), "x y");
    assert_eq!(trimmed("   "), "");
}

#[test]
fn checkpoint_names_tell_apart_panes_whose_plain_join_would_collide() {
    let a = checkpoint_path("/h", "a.b", "c");
    let b = checkpoint_path("/h", "a", "b.c");
    assert_ne!(a.parts[2], b.parts[2]);
    assert_eq!(a.parts[..2], checkpoint_dir("/h").parts[..]);
    let slashy = checkpoint_path("/h", "w/x", "..\\p");
    assert!(!slashy.parts[2].contains('/') && !slashy.parts[2].contains('\\'));
    assert_eq!(slashy.parts.len(), 3);
}
