use rot13_writer::sink::ByteSink;

#[test]
fn vector_takes_the_whole_buffer() {
    let mut v = Vec::<u8>::new();
    assert_eq!(ByteSink::write(&mut v, b"abc"), Ok(3));
    assert_eq!(v, b"abc".to_vec());
}

#[test]
fn vector_appends_to_what_it_holds() {
    let mut v = b"abc".to_vec();
    assert_eq!(ByteSink::write(&mut v, b"def"), Ok(3));
    assert_eq!(ByteSink::write(&mut v, b""), Ok(0));
    assert_eq!(v, b"abcdef".to_vec());
}

#[test]
fn vector_has_nothing_to_flush() {
    let mut v = b"abc".to_vec();
    assert_eq!(ByteSink::flush(&mut v), Ok(()));
    assert_eq!(v, b"abc".to_vec());
}

#[test]
fn borrowed_vector_is_a_sink() {
    let mut v = Vec::<u8>::new();
    {
        let mut borrowed = &mut v;
        assert_eq!(<&mut Vec<u8> as ByteSink>::write(&mut borrowed, b"abc"), Ok(3));
        assert_eq!(<&mut Vec<u8> as ByteSink>::flush(&mut borrowed), Ok(()));
    }
    assert_eq!(v, b"abc".to_vec());
}

#[test]
fn borrow_of_a_borrowed_vector_is_a_sink() {
    let mut v = Vec::<u8>::new();
    {
        let mut first = &mut v;
        let mut second = &mut first;
        assert_eq!(<&mut &mut Vec<u8> as ByteSink>::write(&mut second, b"abc"), Ok(3));
    }
    assert_eq!(v, b"abc".to_vec());
}
