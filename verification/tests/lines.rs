use visitor_bridge::text::{join_lines, split_lines, starts_with, text_of};

fn owned_lines(lines: &[&str]) -> Vec<String> {
    lines.iter().map(|line| line.to_string()).collect()
}

fn std_lines(text: &str) -> Vec<String> {
    text.lines().map(|line| line.to_string()).collect()
}

#[test]
fn empty_text_has_no_lines() {
    assert_eq!(split_lines(""), Vec::<String>::new());
}

#[test]
fn text_without_line_feed_is_one_line() {
    assert_eq!(split_lines("class A {}"), owned_lines(&["class A {}"]));
}

#[test]
fn final_line_feed_adds_no_line() {
    assert_eq!(split_lines("a\nb\n"), owned_lines(&["a", "b"]));
    assert_eq!(split_lines("a\nb"), owned_lines(&["a", "b"]));
}

#[test]
fn lone_line_feed_is_one_empty_line() {
    assert_eq!(split_lines("\n"), owned_lines(&[""]));
    assert_eq!(split_lines("\n\n"), owned_lines(&["", ""]));
}

#[test]
fn carriage_return_before_line_feed_belongs_to_the_terminator() {
    assert_eq!(split_lines("a\r\nb\r\n"), owned_lines(&["a", "b"]));
    assert_eq!(split_lines("\r\n"), owned_lines(&[""]));
}

#[test]
fn only_one_carriage_return_is_taken_off() {
    assert_eq!(split_lines("a\r\r\nb"), owned_lines(&["a\r", "b"]));
}

#[test]
fn carriage_return_without_line_feed_stays() {
    assert_eq!(split_lines("a\rb"), owned_lines(&["a\rb"]));
    assert_eq!(split_lines("\r"), owned_lines(&["\r"]));
    assert_eq!(split_lines("foo\nbar\n\r\nbaz\r"), owned_lines(&["foo", "bar", "", "baz\r"]));
}

#[test]
fn split_lines_agrees_with_std() {
    let samples = [
        "",
        "\n",
        "\r",
        "\r\n",
        "\n\r",
        "a",
        "a\n",
        "a\r\n",
        "a\n\nb",
        "a\r\n\r\nb\r",
        "\u{e9}t\u{e9}\n\u{65e5}\u{672c}\r\n\u{1f600}",
        "exports.a = 1;\nclass A {}\n\n\nexports.b = 2;",
        "one\r\rtwo\n\rthree\r\n",
    ];
    for sample in samples {
        assert_eq!(split_lines(sample), std_lines(sample), "sample {:?}", sample);
    }
}

#[test]
fn join_puts_one_line_feed_between_lines() {
    assert_eq!(join_lines(&owned_lines(&[])), "");
    assert_eq!(join_lines(&owned_lines(&["a"])), "a");
    assert_eq!(join_lines(&owned_lines(&["a", "b"])), "a\nb");
    assert_eq!(join_lines(&owned_lines(&["a", "", "b", ""])), "a\n\nb\n");
}

#[test]
fn join_agrees_with_std() {
    let lists: [&[&str]; 4] = [&[], &[""], &["", ""], &["x", "y\r", "", "z"]];
    for list in lists {
        assert_eq!(join_lines(&owned_lines(list)), list.join("\n"));
    }
}

#[test]
fn joining_the_lines_of_a_text_normalises_its_terminators() {
    assert_eq!(join_lines(&split_lines("a\r\nb\nc\n")), "a\nb\nc");
}

#[test]
fn starts_with_compares_the_leading_characters() {
    assert!(starts_with("exports.Visitor = Visitor;", "exports."));
    assert!(starts_with("exports.", "exports."));
    assert!(starts_with("anything", ""));
    assert!(starts_with("", ""));
    assert!(!starts_with("export", "exports."));
    assert!(!starts_with("", "x"));
    assert!(!starts_with(" exports.a", "exports."));
    assert!(!starts_with("exporTs.a", "exports."));
    assert!(starts_with("\u{e9}l\u{e9}ment", "\u{e9}l"));
    assert!(!starts_with("\u{e9}l\u{e9}ment", "el"));
}

#[test]
fn starts_with_agrees_with_std() {
    let texts = ["", "a", "ab", "abc", "\u{1f600}a", "exports.x"];
    let prefixes = ["", "a", "ab", "b", "abcd", "\u{1f600}", "exports."];
    for text in texts {
        for prefix in prefixes {
            assert_eq!(starts_with(text, prefix), text.starts_with(prefix));
        }
    }
}

#[test]
fn characters_become_text_in_their_order() {
    assert_eq!(text_of(&vec!['a', 'b', '\u{1f600}']), "ab\u{1f600}");
    assert_eq!(text_of(&vec!['\r', '\n']), "\r\n");
    assert_eq!(text_of(&Vec::new()), "");
}

fn texts_over(alphabet: &[char], longest: usize) -> Vec<String> {
    let mut all = vec![String::new()];
    let mut last = vec![String::new()];
    for _ in 0..longest {
        let mut next = Vec::new();
        for text in &last {
            for c in alphabet {
                let mut longer = text.clone();
                longer.push(*c);
                next.push(longer);
            }
        }
        all.extend(next.iter().cloned());
        last = next;
    }
    all
}

#[test]
fn split_lines_agrees_with_std_on_every_short_text() {
    let texts = texts_over(&['a', '\r', '\n'], 7);
    assert_eq!(texts.len(), 3280);
    for text in &texts {
        assert_eq!(split_lines(text), std_lines(text), "text {:?}", text);
    }
}

#[test]
fn no_line_holds_a_line_feed() {
    for text in texts_over(&['a', '\r', '\n'], 6) {
        for line in split_lines(&text) {
            assert!(!line.contains('\n'), "text {:?}", text);
        }
    }
}

#[test]
fn plain_lines_are_read_back_from_their_joined_text() {
    let lines = ["", "a", "a\rb", "\ra", "bb"];
    for first in lines {
        for second in lines {
            for third in ["a", "a\rb", "\ra"] {
                let list = owned_lines(&[first, second, third]);
                assert_eq!(split_lines(&join_lines(&list)), list);
            }
        }
    }
    assert_eq!(split_lines(&join_lines(&owned_lines(&[]))), owned_lines(&[]));
}

#[test]
fn list_that_ends_in_an_empty_line_is_not_read_back() {
    let list = owned_lines(&["a", ""]);
    assert_eq!(join_lines(&list), "a\n");
    assert_eq!(split_lines("a\n"), owned_lines(&["a"]));
}

#[test]
fn line_that_ends_in_a_carriage_return_is_not_read_back() {
    let list = owned_lines(&["a\r", "b"]);
    assert_eq!(join_lines(&list), "a\r\nb");
    assert_eq!(split_lines("a\r\nb"), owned_lines(&["a", "b"]));
}

#[test]
fn text_without_carriage_return_has_lines_that_end_cleanly() {
    for text in texts_over(&['a', 'b', '\n'], 6) {
        for line in split_lines(&text) {
            assert!(!line.ends_with('\r'));
        }
    }
}
