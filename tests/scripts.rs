use pistactl::scripts;

#[test]
fn awk_indent_lines() {
    assert_eq!(
        "awk -v indent=\"_\" '{print indent $0}'",
        scripts::awk_indent_lines("_")
    )
}

#[test]
fn awk_chop_lines() {
    assert_eq!(
        "awk -v width=5 '{print substr($0, 1, width)}'",
        scripts::awk_chop_lines(5)
    )
}

#[test]
fn tail_log() {
    assert_eq!(
        r#"tail -n 5 ./file | sed 's/\x1b\[[0-9;]*m//g' | awk -v indent="_" '{print indent $0}' | awk -v width=5 '{print substr($0, 1, width)}'"#,
        scripts::tail_log("./file", 5, "_", 5)
    )
}

#[test]
fn notify_simple() {
    assert_eq!(
        "notify-send -u critical subject body",
        scripts::notify_send_critical("subject", "body")
    )
}

#[test]
fn notify_compound_no_quotes() {
    assert_eq!(
        r#"notify-send -u critical subject $(tail -n 5 ./file | sed 's/\x1b\[[0-9;]*m//g' | awk -v indent="_" '{print indent $0}' | awk -v width=5 '{print substr($0, 1, width)}')"#,
        scripts::notify_send_critical(
            "subject",
            &format!("$({})", scripts::tail_log("./file", 5, "_", 5))
        )
    )
}

#[test]
fn notify_compound_with_quotes() {
    assert_eq!(
        r#"notify-send -u critical 'foo bar baz' $(tail -n 5 "./file" | sed 's/\x1b\[[0-9;]*m//g' | awk -v indent="_" '{print indent $0}' | awk -v width=5 '{print substr($0, 1, width)}')"#,
        scripts::notify_send_critical(
            "'foo bar baz'",
            &format!(
                "$({})",
                scripts::tail_log(&format!("{:?}", "./file"), 5, "_", 5)
            )
        )
    )
}

#[test]
fn indent_is_escaped_like_debug() {
    assert_eq!(
        "awk -v indent=\"a\\\"b\" '{print indent $0}'",
        scripts::awk_indent_lines("a\"b")
    );
}

#[test]
fn chop_width_zero_and_large() {
    assert_eq!(
        "awk -v width=0 '{print substr($0, 1, width)}'",
        scripts::awk_chop_lines(0)
    );
    assert_eq!(
        "awk -v width=1234 '{print substr($0, 1, width)}'",
        scripts::awk_chop_lines(1234)
    );
}
