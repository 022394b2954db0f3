use lyrfin::text::str_trim;

#[test]
fn trimming_agrees_with_std_white_space() {
    for u in 0u32..=0x3100 {
        if let Some(c) = char::from_u32(u) {
            let s = c.to_string();
            assert_eq!(str_trim(&s).is_empty(), c.is_whitespace(), "U+{u:04X}");
        }
    }
}
