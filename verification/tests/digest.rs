use bc_camera::Md5Trunc::{Truncate, ZeroLast};
use bc_camera::{mangle_digest, md5_string};

#[test]
fn test_md5_string() {
    // These literals are only 31 characters long: the last digit is dropped.
    assert_eq!(
        md5_string("admin", Truncate),
        "21232F297A57A5A743894A0E4A801FC"
    );
    assert_eq!(
        md5_string("admin", ZeroLast),
        "21232F297A57A5A743894A0E4A801FC\0"
    );
}

#[test]
fn md5_string_truncate_vs_zero_last_differ_only_in_last_byte() {
    let tru = md5_string("root", Truncate);
    let zer = md5_string("root", ZeroLast);
    assert_eq!(tru.len() + 1, zer.len());
    assert!(zer.ends_with('\0'));
    assert_eq!(&tru[..], &zer[..tru.len()]);
}

#[test]
fn md5_of_empty_input() {
    assert_eq!(
        md5_string("", Truncate),
        "D41D8CD98F00B204E9800998ECF8427"
    );
}

#[test]
fn md5_reads_the_utf8_bytes() {
    let digest: [u8; 16] = md5::compute([0xC3u8, 0xA9]).0;
    assert_eq!(md5_string("\u{e9}", ZeroLast), mangle_digest(&digest, ZeroLast));
}

#[test]
fn mangling_writes_two_upper_case_digits_per_byte() {
    let digest: [u8; 16] = [
        0x00, 0x01, 0x0A, 0x10, 0xAB, 0xFF, 0x7F, 0x80, 0x12, 0x34, 0x56, 0x78, 0x9A, 0xBC, 0xDE,
        0xF0,
    ];
    assert_eq!(
        mangle_digest(&digest, Truncate),
        "00010A10ABFF7F80123456789ABCDEF"
    );
    assert_eq!(
        mangle_digest(&digest, ZeroLast),
        "00010A10ABFF7F80123456789ABCDEF\0"
    );
}

#[test]
fn every_input_gives_31_hex_digits() {
    let long = "x".repeat(1000);
    for input in ["", "a", "admin", "\u{1f600}", "\0", long.as_str()] {
        let cut = md5_string(input, Truncate);
        assert_eq!(cut.len(), 31);
        assert!(cut
            .chars()
            .all(|c| c.is_ascii_digit() || ('A'..='F').contains(&c)));
        let zeroed = md5_string(input, ZeroLast);
        assert_eq!(zeroed.len(), 32);
        assert_eq!(zeroed, format!("{cut}\0"));
    }
}
