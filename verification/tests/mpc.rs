use zokrates_core::mpc::{
    could_not_open, could_not_read, push_decimal, push_hex, transcript_report,
};

fn hash_of(first: u8) -> [u8; 64] {
    let mut h = [0u8; 64];
    for (i, b) in h.iter_mut().enumerate() {
        *b = first.wrapping_add(i as u8);
    }
    h
}

#[test]
fn an_empty_transcript_is_reported() {
    let lines = transcript_report(&vec![]);
    assert_eq!(
        lines,
        vec![
            String::new(),
            String::from("Transcript contains 0 contributions:"),
            String::new(),
            String::from("Contributions verified"),
        ]
    );
}

#[test]
fn one_contribution_is_not_plural() {
    let lines = transcript_report(&vec![[0xabu8; 64]]);
    assert_eq!(lines.len(), 5);
    assert_eq!(lines[0], "");
    assert_eq!(lines[1], "Transcript contains 1 contribution:");
    assert_eq!(lines[2], format!("0: {}", "ab".repeat(64)));
    assert_eq!(lines[3], "");
    assert_eq!(lines[4], "Contributions verified");
}

#[test]
fn each_contribution_has_its_index_and_hash() {
    let hashes: Vec<[u8; 64]> = (0..12u8).map(|i| hash_of(i.wrapping_mul(37))).collect();
    let lines = transcript_report(&hashes);
    assert_eq!(lines.len(), 16);
    assert_eq!(lines[1], "Transcript contains 12 contributions:");
    for (i, hash) in hashes.iter().enumerate() {
        let mut expected = format!("{}: ", i);
        for b in hash.iter() {
            expected.push_str(&format!("{:02x}", b));
        }
        assert_eq!(lines[i + 2], expected);
    }
    assert_eq!(lines[14], "");
    assert_eq!(lines[15], "Contributions verified");
}

#[test]
fn decimal_has_no_leading_zeros() {
    for n in [0usize, 1, 9, 10, 11, 99, 100, 101, 1234567890, usize::MAX] {
        let mut s = String::from(">");
        push_decimal(&mut s, n);
        assert_eq!(s, format!(">{}", n));
    }
}

#[test]
fn hex_has_two_lower_case_digits_for_each_byte() {
    let mut s = String::from("0x");
    push_hex(&mut s, &[0x00, 0x01, 0x0a, 0x10, 0x9f, 0xa0, 0xff]);
    assert_eq!(s, "0x00010a109fa0ff");
    let mut t = String::new();
    push_hex(&mut t, &[]);
    assert_eq!(t, "");
}

#[test]
fn messages_name_the_file_and_the_cause() {
    assert_eq!(
        could_not_open("out", "No such file or directory (os error 2)"),
        "Could not open `out`: No such file or directory (os error 2)"
    );
    assert_eq!(
        could_not_read("mpc.params", "unexpected end of file"),
        "Could not read `mpc.params`: unexpected end of file"
    );
}
