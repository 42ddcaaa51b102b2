use ebook_crawler::cli::parse_book_id;

#[test]
fn parses_a_plain_positive_id() {
    assert_eq!(parse_book_id("42"), Some(42));
}

#[test]
fn parses_the_largest_id() {
    assert_eq!(parse_book_id("2147483647"), Some(2147483647));
}

#[test]
fn rejects_one_past_the_largest_id() {
    assert_eq!(parse_book_id("2147483648"), None);
}

#[test]
fn rejects_a_huge_numeral() {
    assert_eq!(parse_book_id("99999999999999999999"), None);
}

#[test]
fn rejects_the_empty_argument() {
    assert_eq!(parse_book_id(""), None);
}

#[test]
fn rejects_a_non_numeric_argument() {
    assert_eq!(parse_book_id("abc"), None);
}

#[test]
fn rejects_trailing_garbage() {
    assert_eq!(parse_book_id("42x"), None);
}

#[test]
fn rejects_zero() {
    assert_eq!(parse_book_id("0"), None);
}

#[test]
fn rejects_a_negative_id() {
    assert_eq!(parse_book_id("-5"), None);
}

#[test]
fn accepts_an_explicit_plus_sign() {
    assert_eq!(parse_book_id("+7"), Some(7));
}

#[test]
fn rejects_a_lone_plus_sign() {
    assert_eq!(parse_book_id("+"), None);
}

#[test]
fn accepts_leading_zeros() {
    assert_eq!(parse_book_id("00042"), Some(42));
}
