use token_match::{Location, Token};

#[derive(Clone, Debug, PartialEq)]
enum Kind {
    Identifier,
    Number,
    Plus,
}

#[test]
fn location_starts_at_line_one_column_one() {
    let location = Location::new(String::from("main.src"));
    assert_eq!(location.name, "main.src");
    assert_eq!(location.line, 1);
    assert_eq!(location.column, 1);
}

#[test]
fn location_keeps_an_empty_name() {
    let location = Location::new(String::new());
    assert_eq!(location.name, "");
    assert_eq!(location.line, 1);
    assert_eq!(location.column, 1);
}

#[test]
fn location_clone_keeps_every_field() {
    let mut location = Location::new(String::from("lib.src"));
    location.line = 12;
    location.column = 40;
    let copy = location.clone();
    assert_eq!(copy.name, "lib.src");
    assert_eq!(copy.line, 12);
    assert_eq!(copy.column, 40);
}

#[test]
fn token_new_has_no_value() {
    let mut location = Location::new(String::from("main.src"));
    location.line = 3;
    location.column = 9;
    let token = Token::new(&location, Kind::Plus);
    assert_eq!(token.id, Kind::Plus);
    assert_eq!(token.value, None);
    assert_eq!(token.location.name, "main.src");
    assert_eq!(token.location.line, 3);
    assert_eq!(token.location.column, 9);
}

#[test]
fn token_new_value_keeps_the_literal() {
    let location = Location::new(String::from("main.src"));
    let token = Token::new_value(&location, Kind::Identifier, String::from("total"));
    assert_eq!(token.id, Kind::Identifier);
    assert_eq!(token.value, Some(String::from("total")));
    assert_eq!(token.location.name, "main.src");
    assert_eq!(token.location.line, 1);
    assert_eq!(token.location.column, 1);
}

#[test]
fn token_is_a_snapshot_of_the_location() {
    let mut location = Location::new(String::from("main.src"));
    let token = Token::new(&location, 7u32);
    location.line = 2;
    location.column = 5;
    assert_eq!(token.location.line, 1);
    assert_eq!(token.location.column, 1);
}

#[test]
fn token_clone_keeps_every_field() {
    let mut location = Location::new(String::from("main.src"));
    location.line = 4;
    let token = Token::new_value(&location, Kind::Number, String::from("42"));
    let copy = token.clone();
    assert_eq!(copy.id, Kind::Number);
    assert_eq!(copy.value, Some(String::from("42")));
    assert_eq!(copy.location.name, "main.src");
    assert_eq!(copy.location.line, 4);
    assert_eq!(copy.location.column, 1);
}

#[test]
fn tokens_with_equal_ids_are_equal() {
    let here = Location::new(String::from("a.src"));
    let mut there = Location::new(String::from("b.src"));
    there.line = 80;
    there.column = 17;
    let bare = Token::new(&here, Kind::Identifier);
    let named = Token::new_value(&there, Kind::Identifier, String::from("x"));
    assert!(bare == named);
    assert!(named == bare);
    assert!(!(bare != named));
}

#[test]
fn tokens_with_equal_ids_and_different_values_are_equal() {
    let location = Location::new(String::from("a.src"));
    let first = Token::new_value(&location, Kind::Number, String::from("1"));
    let second = Token::new_value(&location, Kind::Number, String::from("2"));
    assert!(first == second);
}

#[test]
fn tokens_with_different_ids_are_unequal() {
    let location = Location::new(String::from("a.src"));
    let first = Token::new_value(&location, Kind::Number, String::from("1"));
    let second = Token::new_value(&location, Kind::Identifier, String::from("1"));
    assert!(first != second);
    assert!(!(first == second));
    let plus = Token::new(&location, Kind::Plus);
    let number = Token::new(&location, Kind::Number);
    assert!(plus != number);
}

#[test]
fn tokens_with_integer_ids_compare_by_id() {
    let location = Location::new(String::from("a.src"));
    assert!(Token::new(&location, 5u8) == Token::new_value(&location, 5u8, String::from("five")));
    assert!(Token::new(&location, 5u8) != Token::new(&location, 6u8));
}
