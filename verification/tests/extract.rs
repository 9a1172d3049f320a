use modifai_resume::extract::{extract, CLOSING_FENCE_LEN, OPENING_FENCE_LEN};

#[test]
fn fence_lengths_are_nine_and_three() {
    assert_eq!(OPENING_FENCE_LEN, 9);
    assert_eq!(CLOSING_FENCE_LEN, 3);
}

#[test]
fn extract_drops_nine_and_three_characters() {
    let reply = format!("{}{}{}", "```latex\n", "Tailored résumé body", "```");
    assert_eq!(extract(&reply), "Tailored résumé body");
}

#[test]
fn extract_counts_characters_not_bytes() {
    let reply = format!("{}{}{}", "ééééééééé", "Tailored résumé body", "→→→");
    assert_eq!(extract(&reply), "Tailored résumé body");
}

#[test]
fn extract_of_a_reply_of_five_characters_is_empty() {
    assert_eq!(extract("12345"), "");
}

#[test]
fn extract_of_short_replies_is_empty() {
    assert_eq!(extract(""), "");
    assert_eq!(extract("ab"), "");
    assert_eq!(extract("abc"), "");
    assert_eq!(extract("123456789"), "");
    assert_eq!(extract("1234567890"), "");
    assert_eq!(extract("12345678901"), "");
    assert_eq!(extract("123456789012"), "");
}

#[test]
fn extract_of_thirteen_characters_is_the_tenth() {
    assert_eq!(extract("123456789Xabc"), "X");
    assert_eq!(extract("123456789XYabc"), "XY");
}

#[test]
fn extract_does_not_look_at_the_fences() {
    assert_eq!(extract("no fence at all in this reply"), "at all in this re");
}

#[test]
fn extract_is_not_a_fixed_point() {
    let once = extract("123456789abcdefghijklmnopqrstuvwxyz...");
    assert_eq!(once, "abcdefghijklmnopqrstuvwxyz");
    assert_eq!(extract(once), "jklmnopqrstuvw");
}
