use tailview::keys::Mode;
use tailview::query::Query;
use tailview::render::footer;

fn query_of(s: &str) -> Query {
    let mut q = Query::new();
    for c in s.chars() {
        q.push(c);
    }
    q
}

#[test]
fn footer_tight_width_does_not_underflow() {
    let q = query_of("err");
    let f = footer(&q, Mode::Normal, 20);
    assert_eq!(f, "err          Normal");
    assert!(f.chars().count() <= 20);
}

#[test]
fn footer_narrow_width_truncates() {
    let q = query_of("abcdefghij");
    let f = footer(&q, Mode::Normal, 5);
    assert_eq!(f, "abcde");
}

#[test]
fn footer_zero_width() {
    let q = query_of("abc");
    let f = footer(&q, Mode::Search, 0);
    assert_eq!(f, "");
}

#[test]
fn footer_exact_fit_has_no_padding() {
    let q = query_of("ab");
    let f = footer(&q, Mode::Normal, 9);
    assert_eq!(f, "abNormal");
}

#[test]
fn footer_one_short_truncates_whole() {
    let q = query_of("ab");
    let f = footer(&q, Mode::Normal, 8);
    assert_eq!(f, "abNormal");
    let f = footer(&q, Mode::Normal, 7);
    assert_eq!(f, "abNorma");
}

#[test]
fn footer_empty_query_right_aligns_mode() {
    let q = Query::new();
    let f = footer(&q, Mode::Normal, 40);
    assert_eq!(f, format!("{}Normal", " ".repeat(33)));
    assert_eq!(f.chars().count(), 39);
}

#[test]
fn footer_shows_search_mode() {
    let q = query_of("a");
    let f = footer(&q, Mode::Search, 40);
    assert_eq!(f, format!("a{}Search", " ".repeat(32)));
}
