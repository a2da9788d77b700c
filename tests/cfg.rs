use pistactl::cfg::{Cfg, FileCfg, Pista, PistaLogLevel};
use pistactl::cli::{Cli, Cmd};

fn empty_pista() -> Pista {
    Pista {
        log_level: None,
        x11: None,
        interval: None,
        expiry_character: None,
        pad_left: None,
        pad_right: None,
        separator: None,
        slots: Vec::new(),
    }
}

#[test]
fn renderer_flags_in_order() {
    let p = Pista {
        log_level: Some(PistaLogLevel::Info),
        x11: Some(true),
        interval: Some("0.5".to_string()),
        expiry_character: Some('x'),
        pad_left: Some("[".to_string()),
        pad_right: Some("]".to_string()),
        separator: Some(" | ".to_string()),
        slots: Vec::new(),
    };
    assert_eq!("-i 0.5 -f '[' -s ' | ' -r ']' -x -e 'x' -l 3", p.to_arg_str());
    assert_eq!("", empty_pista().to_arg_str());
    let mut q = empty_pista();
    q.x11 = Some(false);
    q.log_level = Some(PistaLogLevel::Nothing);
    assert_eq!("-l 0", q.to_arg_str());
}

#[test]
fn log_level_codes() {
    assert_eq!(0, PistaLogLevel::Nothing.code());
    assert_eq!(1, PistaLogLevel::Error.code());
    assert_eq!(2, PistaLogLevel::Warn.code());
    assert_eq!(3, PistaLogLevel::Info.code());
    assert_eq!(4, PistaLogLevel::Debug.code());
}

#[test]
fn file_over_defaults() {
    let d = Cfg::defaults("/home/u/.pistactl/slots".to_string());
    assert_eq!("pistactl", d.sock);
    assert_eq!(5, d.notifications.log_lines_limit);
    let file = FileCfg {
        debug: None,
        sock_name: Some("s2".to_string()),
        session: None,
        slots_fifos_dir: Some("/srv/slots".to_string()),
        notifications: None,
        pista: None,
    };
    let c = Cfg::layer(file, d);
    assert!(!c.debug);
    assert_eq!("s2", c.sock);
    assert_eq!("pistactl", c.session);
    assert_eq!("/srv/slots", c.slots_fifos_dir);
}

#[test]
fn flags_over_file() {
    let cli = Cli {
        config: "~/.pistactl.toml".to_string(),
        debug: true,
        sock_name: None,
        session: Some("other".to_string()),
        dir: Some("/d".to_string()),
        command: Cmd::Status,
    };
    let c = cli.to_cfg(Cfg::defaults("/x".to_string()));
    assert!(c.debug);
    assert_eq!("pistactl", c.sock);
    assert_eq!("other", c.session);
    assert_eq!("/d", c.slots_fifos_dir);
}
