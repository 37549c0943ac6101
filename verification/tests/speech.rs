use boop::speech::fill_wide_null;

fn wide(text: &str) -> Vec<u16> {
    let mut buffer = Vec::new();
    fill_wide_null(&mut buffer, text);
    buffer
}

#[test]
fn ascii_text_is_widened_and_closed() {
    assert_eq!(wide("Bob"), vec![66, 111, 98, 0]);
}

#[test]
fn empty_text_is_the_closing_zero() {
    assert_eq!(wide(""), vec![0]);
}

#[test]
fn text_of_one_unit_per_character() {
    assert_eq!(wide("Zoë猫"), vec![0x5a, 0x6f, 0xeb, 0x732b, 0]);
    assert_eq!(wide("\u{ffff}"), vec![0xffff, 0]);
    assert_eq!(wide("\u{d7ff}\u{e000}"), vec![0xd7ff, 0xe000, 0]);
}

#[test]
fn text_beyond_one_unit_takes_surrogates() {
    assert_eq!(wide("😀"), vec![0xd83d, 0xde00, 0]);
    assert_eq!(wide("\u{10000}"), vec![0xd800, 0xdc00, 0]);
    assert_eq!(wide("\u{10ffff}"), vec![0xdbff, 0xdfff, 0]);
}

#[test]
fn buffer_is_cleared_before_it_is_filled() {
    let mut buffer = vec![1, 2, 3, 4, 5, 6, 7];
    fill_wide_null(&mut buffer, "hi");
    assert_eq!(buffer, vec![104, 105, 0]);
    fill_wide_null(&mut buffer, "Bob is booping you!");
    assert_eq!(buffer.len(), 20);
    assert_eq!(buffer[19], 0);
}

#[test]
fn widening_agrees_with_the_standard_encoder() {
    for text in [
        "Cleo is booping everyone!!!",
        "Zoë 猫 😀 \u{10ffff} \u{0} end",
        "SAPI.SpVoice",
    ] {
        let mut expected: Vec<u16> = text.encode_utf16().collect();
        expected.push(0);
        assert_eq!(wide(text), expected);
    }
}
