use mdde::status::{parse_status_output, ContainerStatus};

fn row(n: &str, c: &str, s: &str, st: &str, p: &str) -> ContainerStatus {
    ContainerStatus {
        name: n.to_string(),
        command: c.to_string(),
        service: s.to_string(),
        state: st.to_string(),
        ports: p.to_string(),
    }
}

#[test]
fn table_rows_are_read_after_the_header() {
    let out = "NAME COMMAND SERVICE STATUS PORTS\n\
               web  \"nginx\"  web  running  0.0.0.0:80->80/tcp\n\
               \n\
               db   postgres db   exited\n\
               short line only\n";
    let rows = parse_status_output(out);
    assert_eq!(
        rows,
        vec![
            row("web", "\"nginx\"", "web", "running", "0.0.0.0:80->80/tcp"),
            row("db", "postgres", "db", "exited", ""),
        ]
    );
}

#[test]
fn header_only_or_empty_gives_no_rows() {
    assert!(parse_status_output("").is_empty());
    assert!(parse_status_output("a b c d e\n").is_empty());
}

#[test]
fn tabs_and_carriage_returns_separate_words() {
    let rows = parse_status_output("h\r\na\tb\tc\td\r\n");
    assert_eq!(rows, vec![row("a", "b", "c", "d", "")]);
}
