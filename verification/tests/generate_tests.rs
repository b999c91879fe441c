use easy_uuid::generate_sequential;

fn is_canonical_line(line: &str) -> bool {
    let chars: Vec<char> = line.chars().collect();
    if chars.len() != 36 {
        return false;
    }
    for (i, c) in chars.iter().enumerate() {
        let hyphen = i == 8 || i == 13 || i == 18 || i == 23;
        if hyphen {
            if *c != '-' {
                return false;
            }
        } else if !(c.is_ascii_digit() || ('a'..='f').contains(c)) {
            return false;
        }
    }
    chars[14] == '4' && matches!(chars[19], '8' | '9' | 'a' | 'b')
}

#[test]
fn zero_count_produces_no_lines() {
    assert_eq!(generate_sequential(0).len(), 0);
}

#[test]
fn line_count_matches_request() {
    assert_eq!(generate_sequential(1).len(), 1);
    assert_eq!(generate_sequential(5).len(), 5);
    assert_eq!(generate_sequential(1000).len(), 1000);
}

#[test]
fn every_line_is_a_canonical_v4_uuid() {
    for line in generate_sequential(200) {
        assert!(is_canonical_line(&line), "not canonical: {line}");
    }
}

#[test]
fn hundred_thousand_uuids_have_no_duplicates() {
    let mut lines = generate_sequential(100_000);
    assert_eq!(lines.len(), 100_000);
    lines.sort();
    for pair in lines.windows(2) {
        assert_ne!(pair[0], pair[1]);
    }
}
