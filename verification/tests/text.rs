use comtrya_lib::atoms::command::process::decode_output;
use comtrya_lib::text::join;

fn strings(items: &[&str]) -> Vec<String> {
    items.iter().map(|s| String::from(*s)).collect()
}

#[test]
fn join_of_nothing_is_empty() {
    assert_eq!("", join(&vec![], " "));
    assert_eq!("", join(&vec![], ", "));
}

#[test]
fn join_of_one_part_is_the_part() {
    assert_eq!("update", join(&strings(&["update"]), " "));
    assert_eq!("", join(&strings(&[""]), " "));
}

#[test]
fn join_puts_the_separator_between_neighbours() {
    assert_eq!("a b c", join(&strings(&["a", "b", "c"]), " "));
    assert_eq!("a, b", join(&strings(&["a", "b"]), ", "));
    assert_eq!("ab", join(&strings(&["a", "b"]), ""));
    assert_eq!(" ", join(&strings(&["", ""]), " "));
    assert_eq!("x  y", join(&strings(&["x", "", "y"]), " "));
    assert_eq!("\u{e9}-\u{4e16}", join(&strings(&["\u{e9}", "\u{4e16}"]), "-"));
}

#[test]
fn join_agrees_with_the_standard_library() {
    let parts = strings(&["install", "-y", "two words", "", "x"]);
    assert_eq!(parts.join(" "), join(&parts, " "));
    assert_eq!(parts.join("--"), join(&parts, "--"));
}

#[test]
fn decode_output_accepts_exactly_utf8() {
    assert_eq!(Some(String::new()), decode_output(vec![]));
    assert_eq!(Some(String::from("hello\n")), decode_output(b"hello\n".to_vec()));
    assert_eq!(
        Some(String::from("\u{e9}\u{20ac}\u{1f600}")),
        decode_output(vec![0xc3, 0xa9, 0xe2, 0x82, 0xac, 0xf0, 0x9f, 0x98, 0x80])
    );
    assert_eq!(Some(String::from("\u{0}")), decode_output(vec![0]));

    assert_eq!(None, decode_output(vec![0xff]));
    assert_eq!(None, decode_output(vec![0x61, 0x80]));
    assert_eq!(None, decode_output(vec![0xc3]));
    assert_eq!(None, decode_output(vec![0xf0, 0x9f, 0x98]));
    assert_eq!(None, decode_output(vec![0xc0, 0x80]));
    assert_eq!(None, decode_output(vec![0xed, 0xa0, 0x80]));
    assert_eq!(None, decode_output(vec![0xf4, 0x90, 0x80, 0x80]));
}
