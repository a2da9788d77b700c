use pistactl::cfg::{Cfg, Notifications, PistaLogLevel, Slot};
use pistactl::cmd::{
    cmd_script, log_file, plan_renderer, plan_slots, run_script, slot_dir_name, slot_spec,
    status, status_lines, stop, LengthStep, StatusRow,
};
use pistactl::process::Info;
use pistactl::text::split_whitespace;
use pistactl::tmux::{PaneInfo, Tmux};

fn strs(v: &[&str]) -> Vec<String> {
    v.iter().map(|s| s.to_string()).collect()
}

fn slot(name: Option<&str>, len: Option<usize>, ttl: i32) -> Slot {
    Slot {
        name: name.map(|s| s.to_string()),
        cmd: "date".to_string(),
        interpreter: "/bin/sh".to_string(),
        len,
        ttl,
    }
}

fn cfg_with(slots: Vec<Slot>) -> Cfg {
    let mut cfg = Cfg::defaults("/tmp/slots".to_string());
    cfg.pista.slots = slots;
    cfg
}

fn pane(w: usize, name: &str, tty: &str) -> PaneInfo {
    PaneInfo { window_id: w, window_name: name.to_string(), tty: tty.to_string(), pane_id: w }
}

fn run_proc(tty: &str) -> Info {
    Info { comm: "run".to_string(), fg: true, tty: Some(tty.to_string()) }
}

#[test]
fn slot_dir_names() {
    assert_eq!("1-cpu", slot_dir_name(1, "cpu"));
    assert_eq!("0-pista", slot_dir_name(0, "pista"));
}

#[test]
fn plans_for_slots() {
    let cfg = cfg_with(vec![slot(Some("cpu"), Some(5), 2), slot(None, None, -1)]);
    let mut tmux = Tmux::new("sock", "sess");
    let plans = plan_slots(&cfg, &mut tmux);
    assert_eq!(2, plans.len());
    let a = &plans[0];
    assert_eq!("cpu", a.name);
    assert_eq!("/tmp/slots/1-cpu", a.dir);
    assert_eq!("/tmp/slots/1-cpu/out", a.pipe);
    assert_eq!("/tmp/slots/1-cpu/cmd", a.cmd_file);
    assert_eq!("/tmp/slots/1-cpu/run", a.run_file);
    assert_eq!("#! /bin/sh\ndate\n", a.cmd_script);
    assert_eq!(1, a.terminal.window_id);
    assert_eq!(
        strs(&["-L", "sock", "new-window", "-c", "/tmp/slots/1-cpu", "-n", "cpu", "-t", "sess"]),
        a.new_window
    );
    assert_eq!(
        vec![
            strs(&["-L", "sock", "send-keys", "-t", "sess:1.0", "-l", "./run"]),
            strs(&["-L", "sock", "send-keys", "-t", "sess:1.0", "ENTER"]),
        ],
        a.launch
    );
    let b = &plans[1];
    assert_eq!("2", b.name);
    assert_eq!("/tmp/slots/2-2", b.dir);
    assert_eq!(2, b.terminal.window_id);
}

#[test]
fn declared_length_needs_no_probe() {
    let cfg = cfg_with(vec![slot(Some("cpu"), Some(5), 2)]);
    let mut tmux = Tmux::new("sock", "sess");
    let plans = plan_slots(&cfg, &mut tmux);
    assert_eq!(LengthStep::Known(5), plans[0].length_step());
    assert_eq!("\"/tmp/slots/1-cpu/out\" 5 2", plans[0].spec(Some(5)));
}

#[test]
fn probed_length_in_bytes_then_restart() {
    let cfg = cfg_with(vec![slot(None, None, 10)]);
    let mut tmux = Tmux::new("sock", "sess");
    let plans = plan_slots(&cfg, &mut tmux);
    let p = &plans[0];
    assert_eq!(LengthStep::ReadFirstLine, p.length_step());
    let (len, restart) = p.after_first_line(&tmux, &Some("héllo wörld".to_string()));
    assert_eq!(Some(13), len);
    let expected = vec![
        strs(&["-L", "sock", "send-keys", "-t", "sess:1.0", "^C"]),
        strs(&["-L", "sock", "send-keys", "-t", "sess:1.0", "-l", "./run"]),
        strs(&["-L", "sock", "send-keys", "-t", "sess:1.0", "ENTER"]),
    ];
    assert_eq!(expected, restart);
    assert_eq!("\"/tmp/slots/1-1/out\" 13 10", p.spec(len));
}

#[test]
fn no_first_line_still_restarts() {
    let cfg = cfg_with(vec![slot(None, None, 10)]);
    let mut tmux = Tmux::new("sock", "sess");
    let plans = plan_slots(&cfg, &mut tmux);
    let (len, restart) = plans[0].after_first_line(&tmux, &None);
    assert_eq!(None, len);
    assert_eq!(3, restart.len());
    assert_eq!(strs(&["-L", "sock", "send-keys", "-t", "sess:1.0", "^C"]), restart[0]);
    assert_eq!("\"/tmp/slots/1-1/out\" 0 10", plans[0].spec(len));
}

#[test]
fn window_ids_follow_slot_order() {
    let cfg = cfg_with(vec![
        slot(Some("a"), Some(1), 1),
        slot(Some("b"), Some(1), 1),
        slot(Some("c"), Some(1), 1),
    ]);
    let mut tmux = Tmux::new("sock", "sess");
    let plans = plan_slots(&cfg, &mut tmux);
    let ids: Vec<usize> = plans.iter().map(|p| p.terminal.window_id).collect();
    assert_eq!(vec![1, 2, 3], ids);
    let r = plan_renderer(&cfg, &tmux, &Vec::new());
    assert_eq!(0, r.terminal.window_id);
}

#[test]
fn slot_specs_split_back() {
    let specs = vec![
        slot_spec("/tmp/slots/1-cpu/out", 5, 2),
        slot_spec("/tmp/slots/2-mem/out", 12, -1),
    ];
    let joined = specs.join(" ");
    let words = split_whitespace(&joined);
    assert_eq!(
        strs(&["\"/tmp/slots/1-cpu/out\"", "5", "2", "\"/tmp/slots/2-mem/out\"", "12", "-1"]),
        words
    );
    assert_eq!("\"p\" 0 -2147483648", slot_spec("p", 0, i32::MIN));
}

#[test]
fn renderer_plan() {
    let mut cfg = cfg_with(vec![]);
    cfg.notifications = Notifications { log_lines_limit: 3, indent: ">".to_string(), width_limit: 9 };
    cfg.pista.x11 = Some(true);
    cfg.pista.log_level = Some(PistaLogLevel::Warn);
    let tmux = Tmux::new("sock", "sess");
    let specs = strs(&["\"/a/out\" 1 2", "\"/b/out\" 3 4"]);
    let r = plan_renderer(&cfg, &tmux, &specs);
    assert_eq!("/tmp/slots/0-pista", r.dir);
    assert_eq!("/tmp/slots/0-pista/run", r.run_file);
    assert_eq!(strs(&["-L", "sock", "rename-window", "-t", "sess:0", "pista"]), r.rename);
    let expected = [
        "#! /bin/bash\n",
        "pista -x -l 2 \"/a/out\" 1 2 \"/b/out\" 3 4 >> ./out 2>> ./err;\n",
        "code=$?\n",
        "log=$(tail -n 3 err | sed 's/\\x1b\\[[0-9;]*m//g' | awk -v indent=\">\" '{print indent $0}' | awk -v width=9 '{print substr($0, 1, width)}')\n",
        "body=\"code: $code\nlog:\n$log\"\n",
        "notify-send -u critical 'pista exited!' \"$body\"\n",
    ]
    .concat();
    assert_eq!(expected, r.run_script);
}

#[test]
fn slot_scripts() {
    let notif = Notifications { log_lines_limit: 5, indent: "_".to_string(), width_limit: 5 };
    let expected = [
        "#! /bin/bash\n",
        "# This script wraps the user-provided script,\n",
        "# which was written to ./cmd,\n",
        "# adding output redirection and\n",
        "# a notification in case of an unexpected exit.\n",
        "cd \"/tmp/s/1-cpu\" && ./cmd > ./out 2>> ./err;\n",
        "code=$?\n",
        "slot_name=cpu\n",
        "log=$(tail -n 5 err | sed 's/\\x1b\\[[0-9;]*m//g' | awk -v indent=\"_\" '{print indent $0}' | awk -v width=5 '{print substr($0, 1, width)}')\n",
        "body=\"slot: $slot_name\ncode: $code\nlog:\n$log\"\n",
        "notify-send -u critical 'pista feed exited!' \"$body\"\n",
    ]
    .concat();
    assert_eq!(expected, run_script(&notif, "/tmp/s/1-cpu", "cpu"));
    assert_eq!("#! /usr/bin/env python3\nprint(1)\n", cmd_script(&Slot {
        name: None,
        cmd: "print(1)".to_string(),
        interpreter: "/usr/bin/env python3".to_string(),
        len: None,
        ttl: 1,
    }));
}

#[test]
fn status_running_by_tty() {
    let panes = vec![pane(0, "pista", "/dev/tty0"), pane(1, "cpu", "/dev/tty1")];
    let procs = vec![run_proc("/dev/tty1")];
    let logs = vec![None, Some("one\ntwo\n".to_string())];
    let rows = status(&panes, &procs, &logs);
    assert_eq!(2, rows.len());
    assert_eq!(0, rows[0].window_id);
    assert!(!rows[0].running);
    assert_eq!(0, rows[0].log_lines);
    assert_eq!(1, rows[1].window_id);
    assert!(rows[1].running);
    assert_eq!(2, rows[1].log_lines);
    let both = vec![run_proc("/dev/tty1"), run_proc("/dev/tty0")];
    let rows = status(&panes, &both, &logs);
    assert!(rows[0].running);
    assert!(rows[1].running);
}

#[test]
fn status_ignores_background_and_other_commands() {
    let panes = vec![pane(1, "cpu", "/dev/tty1")];
    let procs = vec![
        Info { comm: "run".to_string(), fg: false, tty: Some("/dev/tty1".to_string()) },
        Info { comm: "bash".to_string(), fg: true, tty: Some("/dev/tty1".to_string()) },
        Info { comm: "run".to_string(), fg: true, tty: None },
    ];
    let rows = status(&panes, &procs, &vec![None]);
    assert!(!rows[0].running);
}

#[test]
fn status_sorted_by_window() {
    let panes = vec![pane(2, "b", "t2"), pane(0, "pista", "t0"), pane(1, "a", "t1")];
    let rows = status(&panes, &Vec::new(), &vec![None, None, Some("x".to_string())]);
    let ids: Vec<usize> = rows.iter().map(|r| r.window_id).collect();
    assert_eq!(vec![0, 1, 2], ids);
    assert_eq!(1, rows[1].log_lines);
    let lines = status_lines(&rows);
    assert_eq!(
        strs(&["POSITION NAME RUNNING? LOG_LINES", "0 pista NO 0", "1 a NO 1", "2 b NO 0"]),
        lines
    );
}

#[test]
fn renderer_window_name_check() {
    let row = |w: usize, n: &str| StatusRow {
        window_id: w,
        window_name: n.to_string(),
        running: false,
        log_lines: 0,
    };
    assert!(!row(0, "pista").misnamed_renderer());
    assert!(row(0, "bash").misnamed_renderer());
    assert!(!row(1, "bash").misnamed_renderer());
}

#[test]
fn log_file_of_pane() {
    assert_eq!("/tmp/slots/1-cpu/err", log_file("/tmp/slots", &pane(1, "cpu", "t")));
}

#[test]
fn stop_tolerates_both_failures() {
    let msgs = stop(
        "/tmp/slots",
        &Err("no server running".to_string()),
        &Err("No such file or directory".to_string()),
    );
    assert_eq!(
        strs(&[
            "Failure in kill session: no server running",
            "Failure in removal of slot directory: \"/tmp/slots\". Error: No such file or directory",
        ]),
        msgs
    );
    assert!(stop("/tmp/slots", &Ok(()), &Ok(())).is_empty());
    assert_eq!(1, stop("/tmp/slots", &Ok(()), &Err("e".to_string())).len());
}
