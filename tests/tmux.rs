use pistactl::tmux::{PaneFault, PaneInfo, Terminal, Tmux};

fn strs(v: &[&str]) -> Vec<String> {
    v.iter().map(|s| s.to_string()).collect()
}

#[test]
fn terminal_address() {
    let t = Terminal { session: "sess".to_string(), window_id: 12, pane_id: 0 };
    assert_eq!("sess:12.0", t.to_string());
}

#[test]
fn pane_line_parses() {
    let p = PaneInfo::from_str("@3 cpu /dev/pts/7 %4").unwrap();
    assert_eq!(3, p.window_id);
    assert_eq!("cpu", p.window_name);
    assert_eq!("/dev/pts/7", p.tty);
    assert_eq!(4, p.pane_id);
    let q = PaneInfo::from_str("  @+7\tname  tty %08 ").unwrap();
    assert_eq!(7, q.window_id);
    assert_eq!(8, q.pane_id);
}

#[test]
fn pane_line_faults() {
    let e = PaneInfo::from_str("@1 cpu /dev/pts/1").unwrap_err();
    assert_eq!(PaneFault::Fields, e.fault);
    assert_eq!("@1 cpu /dev/pts/1", e.text);
    let e = PaneInfo::from_str("@1 cpu /dev/pts/1 %1 extra").unwrap_err();
    assert_eq!(PaneFault::Fields, e.fault);
    let e = PaneInfo::from_str("1 cpu /dev/pts/1 %1").unwrap_err();
    assert_eq!(PaneFault::WindowPrefix, e.fault);
    assert_eq!("1", e.text);
    let e = PaneInfo::from_str("@x cpu /dev/pts/1 %1").unwrap_err();
    assert_eq!(PaneFault::WindowNumber, e.fault);
    assert_eq!("@x", e.text);
    let e = PaneInfo::from_str("@1 cpu /dev/pts/1 1").unwrap_err();
    assert_eq!(PaneFault::PanePrefix, e.fault);
    assert_eq!("1", e.text);
    let e = PaneInfo::from_str("@1 cpu /dev/pts/1 %-1").unwrap_err();
    assert_eq!(PaneFault::PaneNumber, e.fault);
    assert_eq!("%-1", e.text);
    let e = PaneInfo::from_str("@ cpu /dev/pts/1 %1").unwrap_err();
    assert_eq!(PaneFault::WindowNumber, e.fault);
}

#[test]
fn list_panes_reads_every_line() {
    let tmux = Tmux::new("sock", "sess");
    let panes = tmux
        .list_panes("@0 pista /dev/pts/1 %0\n@1 cpu /dev/pts/2 %1\n")
        .unwrap();
    assert_eq!(2, panes.len());
    assert_eq!("pista", panes[0].window_name);
    assert_eq!(1, panes[1].window_id);
    assert_eq!("/dev/pts/2", panes[1].tty);
    assert!(tmux.list_panes("").unwrap().is_empty());
}

#[test]
fn list_panes_rejects_malformed_row() {
    let tmux = Tmux::new("sock", "sess");
    let e = tmux
        .list_panes("@0 pista /dev/pts/1 %0\nbroken row\n@2 mem /dev/pts/3 %2\n")
        .unwrap_err();
    assert_eq!(PaneFault::Fields, e.fault);
    assert_eq!("broken row", e.text);
    let e = tmux.list_panes("@0 pista /dev/pts/1 0\n").unwrap_err();
    assert_eq!(PaneFault::PanePrefix, e.fault);
}

#[test]
fn session_calls() {
    let tmux = Tmux::new("sock", "sess");
    let calls = tmux.new_session("/tmp/slots");
    assert_eq!(
        vec![
            strs(&["-L", "sock", "new-session", "-d", "-c", "/tmp/slots", "-s", "sess"]),
            strs(&["-L", "sock", "set-option", "-g", "-t", "sess", "allow-rename", "off"]),
        ],
        calls
    );
    assert_eq!(strs(&["-L", "sock", "kill-session", "-t", "sess"]), tmux.kill_session());
    assert_eq!(strs(&["-L", "sock", "attach", "-t", "sess"]), tmux.attach());
    assert_eq!(
        strs(&[
            "-L",
            "sock",
            "list-panes",
            "-s",
            "-t",
            "sess",
            "-F",
            "#{window_id} #{window_name} #{pane_tty} #{pane_id}"
        ]),
        tmux.list_panes_command()
    );
}

#[test]
fn key_calls() {
    let tmux = Tmux::new("sock", "sess");
    let t = Terminal { session: "sess".to_string(), window_id: 2, pane_id: 0 };
    assert_eq!(
        strs(&["-L", "sock", "send-keys", "-t", "sess:2.0", "-l", "./run; C-c"]),
        tmux.send_text(&t, "./run; C-c")
    );
    assert_eq!(
        strs(&["-L", "sock", "send-keys", "-t", "sess:2.0", "ENTER"]),
        tmux.send_enter(&t)
    );
    assert_eq!(
        strs(&["-L", "sock", "send-keys", "-t", "sess:2.0", "^C"]),
        tmux.send_interrupt(&t)
    );
}

#[test]
fn window_ids_are_dense() {
    let mut tmux = Tmux::new("sock", "sess");
    for k in 1..=4usize {
        let (t, call) = tmux.new_terminal("/tmp/d", "name");
        assert_eq!(k, t.window_id);
        assert_eq!(0, t.pane_id);
        assert_eq!("sess", t.session);
        assert_eq!(
            strs(&["-L", "sock", "new-window", "-c", "/tmp/d", "-n", "name", "-t", "sess"]),
            call
        );
    }
    let (z, rename) = tmux.zeroth_terminal("pista");
    assert_eq!(0, z.window_id);
    assert_eq!(
        strs(&["-L", "sock", "rename-window", "-t", "sess:0", "pista"]),
        rename
    );
    let (t, _) = tmux.new_terminal("/tmp/d", "next");
    assert_eq!(5, t.window_id);
}
