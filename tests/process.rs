use pistactl::process::list;

#[test]
fn ps_listing() {
    let v = list("STAT TT COMMAND\nS+ pts/1 run\nSs ? systemd\nR+ pts/2 ps extra words\n")
        .unwrap();
    assert_eq!(4, v.len());
    assert_eq!("COMMAND", v[0].comm);
    assert_eq!(Some("/dev/TT".to_string()), v[0].tty);
    assert!(!v[0].fg);
    assert_eq!("run", v[1].comm);
    assert!(v[1].fg);
    assert_eq!(Some("/dev/pts/1".to_string()), v[1].tty);
    assert_eq!(None, v[2].tty);
    assert!(!v[2].fg);
    assert_eq!("ps", v[3].comm);
}

#[test]
fn ps_short_line_fails() {
    let e = list("S+ pts/1 run\nS+ pts/1\n").unwrap_err();
    assert_eq!("S+ pts/1", e.line);
    assert!(list("").unwrap().is_empty());
}
