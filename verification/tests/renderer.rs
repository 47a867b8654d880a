use tailview::errors::AppError;
use tailview::keys::KeyEvent;
use tailview::render::RowContent;
use tailview::viewer::App;

fn triple(p: &str, m: &str, s: &str) -> (String, String, String) {
    (p.to_string(), m.to_string(), s.to_string())
}

#[test]
fn append_keeps_arrival_order() {
    let mut a = App::new();
    assert_eq!(a.snapshot().len(), 0);
    a.append_line("alpha");
    assert_eq!(a.snapshot().len(), 1);
    a.append_line("beta");
    assert_eq!(a.snapshot().len(), 2);
    a.append_line("gamma");
    assert_eq!(a.snapshot(), &vec![
        "alpha".to_string(),
        "beta".to_string(),
        "gamma".to_string(),
    ]);
}

#[test]
fn append_strips_line_terminator() {
    let mut a = App::new();
    a.append_line("alpha\n");
    a.append_line("beta\r\n");
    a.append_line("gamma");
    a.append_line("");
    assert_eq!(a.snapshot(), &vec![
        "alpha".to_string(),
        "beta".to_string(),
        "gamma".to_string(),
        "".to_string(),
    ]);
}

#[test]
fn scenario_three_lines_empty_query() {
    let mut a = App::new();
    a.append_line("alpha");
    a.append_line("beta");
    a.append_line("gamma");
    let f = a.render(40, 3);
    assert_eq!(f.rows.len(), 3);
    // Newest at the bottom row; top to bottom the rows read alpha, beta, gamma.
    assert_eq!(f.rows[0].row, 3);
    assert_eq!(f.rows[0].content, RowContent::Verbatim("gamma".to_string()));
    assert_eq!(f.rows[1].row, 2);
    assert_eq!(f.rows[1].content, RowContent::Verbatim("beta".to_string()));
    assert_eq!(f.rows[2].row, 1);
    assert_eq!(f.rows[2].content, RowContent::Verbatim("alpha".to_string()));
    assert_eq!(f.footer, format!("{}Normal", " ".repeat(33)));
}

#[test]
fn render_never_exceeds_height() {
    let mut a = App::new();
    for line in ["one", "two", "three", "four", "five"] {
        a.append_line(line);
    }
    let f = a.render(40, 3);
    assert_eq!(f.rows.len(), 3);
    assert_eq!(f.rows[0].row, 3);
    assert_eq!(f.rows[0].content, RowContent::Verbatim("five".to_string()));
    assert_eq!(f.rows[2].content, RowContent::Verbatim("three".to_string()));
}

#[test]
fn render_zero_height_shows_nothing() {
    let mut a = App::new();
    a.append_line("alpha");
    let f = a.render(40, 0);
    assert_eq!(f.rows.len(), 0);
}

#[test]
fn search_highlights_each_occurrence() {
    let mut a = App::new();
    a.append_line("alpha");
    a.append_line("beta");
    a.append_line("gamma");
    a.handle_key(KeyEvent::Char('/'));
    a.handle_key(KeyEvent::Char('a'));
    let f = a.render(40, 3);
    assert_eq!(f.rows.len(), 3);
    assert_eq!(
        f.rows[0].content,
        RowContent::Matched(vec![triple("g", "a", "mma"), triple("gamm", "a", "")])
    );
    assert_eq!(f.rows[1].content, RowContent::Matched(vec![triple("bet", "a", "")]));
    assert_eq!(
        f.rows[2].content,
        RowContent::Matched(vec![triple("", "a", "lpha"), triple("alph", "a", "")])
    );
    assert_eq!(f.footer, format!("a{}Search", " ".repeat(32)));
}

#[test]
fn non_matching_line_stays_verbatim() {
    let mut a = App::new();
    a.append_line("alpha");
    a.append_line("xyz");
    a.handle_key(KeyEvent::Char('/'));
    a.handle_key(KeyEvent::Char('a'));
    let f = a.render(40, 4);
    assert_eq!(f.rows[0].content, RowContent::Verbatim("xyz".to_string()));
    assert_eq!(
        f.rows[1].content,
        RowContent::Matched(vec![triple("", "a", "lpha"), triple("alph", "a", "")])
    );
}

#[test]
fn invalid_pattern_falls_back_to_verbatim() {
    let mut a = App::new();
    a.append_line("alpha");
    a.handle_key(KeyEvent::Char('/'));
    a.handle_key(KeyEvent::Char('('));
    let f = a.render(40, 3);
    assert_eq!(f.rows.len(), 1);
    assert_eq!(f.rows[0].content, RowContent::Verbatim("alpha".to_string()));
    // Editing the query back into validity brings highlighting back.
    a.handle_key(KeyEvent::Backspace);
    a.handle_key(KeyEvent::Char('l'));
    let f = a.render(40, 3);
    assert_eq!(f.rows[0].content, RowContent::Matched(vec![triple("a", "l", "pha")]));
}

#[test]
fn escape_render_shows_no_highlights() {
    let mut a = App::new();
    a.append_line("alpha");
    a.handle_key(KeyEvent::Char('/'));
    a.handle_key(KeyEvent::Char('a'));
    a.handle_key(KeyEvent::Char('l'));
    a.handle_key(KeyEvent::Escape);
    let f = a.render(40, 3);
    assert_eq!(f.rows[0].content, RowContent::Verbatim("alpha".to_string()));
    assert_eq!(f.footer, format!("{}Normal", " ".repeat(33)));
}

#[test]
fn regex_query_matches_as_pattern() {
    let mut a = App::new();
    a.append_line("abc");
    a.handle_key(KeyEvent::Char('/'));
    a.handle_key(KeyEvent::Char('b'));
    a.handle_key(KeyEvent::Char('+'));
    let f = a.render(40, 3);
    assert_eq!(f.rows[0].content, RowContent::Matched(vec![triple("a", "b", "c")]));
}

#[test]
fn error_messages_carry_their_text() {
    assert_eq!(AppError::InputError("in".to_string()).message(), "in");
    assert_eq!(AppError::OutputError("out".to_string()).message(), "out");
    assert_eq!(AppError::EventSourceError("ev".to_string()).message(), "ev");
}
