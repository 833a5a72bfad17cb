use rot13_writer::cipher::{
    rotate, rotate_bytes, LETTERS, LOWER_A, LOWER_Z, SHIFT, UPPER_A, UPPER_Z,
};

#[test]
fn constants_are_the_ascii_letter_bounds() {
    assert_eq!(UPPER_A, b'A');
    assert_eq!(UPPER_Z, b'Z');
    assert_eq!(LOWER_A, b'a');
    assert_eq!(LOWER_Z, b'z');
    assert_eq!(SHIFT, 13);
    assert_eq!(LETTERS, 26);
}

#[test]
fn rotate_moves_upper_case_letters_by_thirteen() {
    assert_eq!(rotate(b'A'), b'N');
    assert_eq!(rotate(b'B'), b'O');
    assert_eq!(rotate(b'M'), b'Z');
    assert_eq!(rotate(b'N'), b'A');
    assert_eq!(rotate(b'Y'), b'L');
    assert_eq!(rotate(b'Z'), b'M');
}

#[test]
fn rotate_moves_lower_case_letters_by_thirteen() {
    assert_eq!(rotate(b'a'), b'n');
    assert_eq!(rotate(b'b'), b'o');
    assert_eq!(rotate(b'm'), b'z');
    assert_eq!(rotate(b'n'), b'a');
    assert_eq!(rotate(b'y'), b'l');
    assert_eq!(rotate(b'z'), b'm');
}

#[test]
fn rotate_follows_the_formula_on_every_letter() {
    for b in b'A'..=b'Z' {
        assert_eq!(rotate(b), b'A' + (b - b'A' + 13) % 26);
    }
    for b in b'a'..=b'z' {
        assert_eq!(rotate(b), b'a' + (b - b'a' + 13) % 26);
    }
}

#[test]
fn rotate_twice_gives_every_byte_back() {
    for b in 0..=255u8 {
        assert_eq!(rotate(rotate(b)), b);
    }
}

#[test]
fn rotate_keeps_upper_case_upper() {
    for b in b'A'..=b'Z' {
        let r = rotate(b);
        assert!(b'A' <= r && r <= b'Z');
        assert_ne!(r, b);
    }
}

#[test]
fn rotate_keeps_lower_case_lower() {
    for b in b'a'..=b'z' {
        let r = rotate(b);
        assert!(b'a' <= r && r <= b'z');
        assert_ne!(r, b);
    }
}

#[test]
fn rotate_leaves_every_other_byte_alone() {
    for b in 0..=255u8 {
        if !b.is_ascii_alphabetic() {
            assert_eq!(rotate(b), b);
        }
    }
}

#[test]
fn rotate_leaves_the_neighbours_of_the_alphabets_alone() {
    assert_eq!(rotate(b'@'), b'@');
    assert_eq!(rotate(b'['), b'[');
    assert_eq!(rotate(b'`'), b'`');
    assert_eq!(rotate(b'{'), b'{');
}

#[test]
fn rotate_leaves_the_ends_of_the_byte_range_alone() {
    assert_eq!(rotate(0), 0);
    assert_eq!(rotate(127), 127);
    assert_eq!(rotate(128), 128);
    assert_eq!(rotate(255), 255);
}

#[test]
fn rotate_bytes_rotates_letters_and_keeps_the_rest() {
    assert_eq!(rotate_bytes(b"Hello, World! 123"), b"Uryyb, Jbeyq! 123".to_vec());
}

#[test]
fn rotate_bytes_of_nothing_is_nothing() {
    assert_eq!(rotate_bytes(b""), Vec::<u8>::new());
}

#[test]
fn rotate_bytes_keeps_the_length() {
    let input: Vec<u8> = (0..=255u8).collect();
    assert_eq!(rotate_bytes(&input).len(), 256);
}

#[test]
fn rotate_bytes_rotates_each_byte_where_it_stands() {
    let input: Vec<u8> = (0..=255u8).collect();
    let output = rotate_bytes(&input);
    for i in 0..input.len() {
        assert_eq!(output[i], rotate(input[i]));
    }
}

#[test]
fn rotate_bytes_twice_gives_the_input_back() {
    let input: Vec<u8> = (0..=255u8).rev().collect();
    assert_eq!(rotate_bytes(&rotate_bytes(&input)), input);
}

#[test]
fn rotate_bytes_passes_bytes_that_are_not_ascii() {
    let input = vec![0xc3, 0xa9, b'e', 0xff, 0x80, b'E'];
    assert_eq!(rotate_bytes(&input), vec![0xc3, 0xa9, b'r', 0xff, 0x80, b'R']);
}

#[test]
fn rotate_bytes_does_not_depend_on_what_came_before() {
    let whole = rotate_bytes(b"abcxyz");
    let mut parts = rotate_bytes(b"abc");
    parts.extend_from_slice(&rotate_bytes(b"xyz"));
    assert_eq!(whole, parts);
}
