use quickswitch::text::{
    chars_contain, chars_le, from_chars, process_special_characters, push_decimal,
    push_decimal_aligned, push_repeated, slice_to_string, split_lines, str_equals, to_chars,
};

fn decimal(n: u64) -> String {
    let mut out = Vec::new();
    push_decimal(&mut out, n);
    from_chars(&out)
}

#[test]
fn characters_go_to_a_vector_and_back() {
    let chars = to_chars("a\u{e9}\u{1F4C4}z");
    assert_eq!(chars, vec!['a', '\u{e9}', '\u{1F4C4}', 'z']);
    assert_eq!(from_chars(&chars), "a\u{e9}\u{1F4C4}z");
    assert_eq!(slice_to_string(&chars, 1, 3), "\u{e9}\u{1F4C4}");
}

#[test]
fn decimal_digits_of_numbers() {
    assert_eq!(decimal(0), "0");
    assert_eq!(decimal(7), "7");
    assert_eq!(decimal(10), "10");
    assert_eq!(decimal(5242881), "5242881");
    assert_eq!(decimal(u64::MAX), "18446744073709551615");
}

#[test]
fn numbers_are_set_flush_right() {
    let mut out = Vec::new();
    push_decimal_aligned(&mut out, 7, 3);
    out.push('|');
    push_decimal_aligned(&mut out, 42, 3);
    out.push('|');
    push_decimal_aligned(&mut out, 123, 3);
    out.push('|');
    push_decimal_aligned(&mut out, 1234, 3);
    assert_eq!(from_chars(&out), "  7| 42|123|1234");
    for n in [0u64, 9, 10, 99, 100, 999, 1000, 123456] {
        let mut one = Vec::new();
        push_decimal_aligned(&mut one, n, 3);
        assert_eq!(from_chars(&one), format!("{:3}", n));
    }
}

#[test]
fn repeated_characters() {
    let mut out = vec!['x'];
    push_repeated(&mut out, '-', 3);
    assert_eq!(from_chars(&out), "x---");
}

#[test]
fn control_characters_become_visible() {
    assert_eq!(process_special_characters("a\tb"), "a\u{2192}   b");
    assert_eq!(process_special_characters("a\rb"), "a\\rb");
    assert_eq!(process_special_characters("a\0b"), "a\\0b");
    assert_eq!(process_special_characters("a\u{1b}b"), "a\\x1bb");
    assert_eq!(process_special_characters("a\u{7f}b"), "a\\x7fb");
    assert_eq!(process_special_characters("a\u{9f}b"), "a\\x9fb");
    assert_eq!(process_special_characters("a\u{1}b"), "a\\x01b");
    assert_eq!(process_special_characters("a\nb"), "a\nb");
    assert_eq!(process_special_characters("plain \u{e9}\u{a0}"), "plain \u{e9}\u{a0}");
    assert_eq!(process_special_characters(""), "");
}

#[test]
fn control_characters_are_those_of_the_standard_library() {
    for code in 0u32..0x400 {
        let c = char::from_u32(code).unwrap();
        let shown = process_special_characters(&c.to_string());
        let kept = shown == c.to_string();
        assert_eq!(kept, !c.is_control() || c == '\n', "code {}", code);
    }
}

#[test]
fn lines_are_cut_as_the_standard_library_cuts_them() {
    let samples = [
        "",
        "one",
        "one\n",
        "one\ntwo",
        "one\r\ntwo\r\n",
        "one\rtwo",
        "one\r",
        "\n",
        "\n\n",
        "\r\n",
        "a\n\nb",
        "a\r\r\nb",
        "tail\n\r",
        "Hello, World!\nThis is a test file.",
    ];
    for sample in samples {
        let expected: Vec<String> = sample.lines().map(|l| l.to_string()).collect();
        assert_eq!(split_lines(sample), expected, "sample {:?}", sample);
    }
    assert_eq!(split_lines("a\r\nb\n"), vec!["a".to_string(), "b".to_string()]);
}

#[test]
fn strings_are_ordered_as_the_standard_library_orders_them() {
    let samples = ["", "a", "A", "ab", "b", "Z", "a.txt", "\u{e9}", "z\u{1F4C4}", "10", "9"];
    for a in samples {
        for b in samples {
            assert_eq!(chars_le(&to_chars(a), &to_chars(b)), a <= b, "{:?} {:?}", a, b);
            assert_eq!(str_equals(a, b), a == b);
        }
    }
}

#[test]
fn runs_of_characters_are_found() {
    let hay = to_chars("readme.txt");
    assert!(chars_contain(&hay, &to_chars("me.t")));
    assert!(chars_contain(&hay, &to_chars("")));
    assert!(chars_contain(&hay, &to_chars("readme.txt")));
    assert!(chars_contain(&hay, &to_chars("txt")));
    assert!(!chars_contain(&hay, &to_chars("txt.")));
    assert!(!chars_contain(&hay, &to_chars("readme.txt2")));
    assert!(chars_contain(&to_chars(""), &to_chars("")));
    assert!(!chars_contain(&to_chars(""), &to_chars("a")));
}
