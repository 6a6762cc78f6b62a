use rl_localtime::COsString;

fn sample_values() -> Vec<Vec<u8>> {
    vec![
        b"UTC".to_vec(),
        b"Europe/Prague".to_vec(),
        b":/etc/localtime".to_vec(),
        b"x".to_vec(),
        vec![0],
        vec![1, 0, 2, 0],
        vec![255, 254, 128, 127],
        vec![7; 4096],
    ]
}

#[test]
fn null_is_the_absent_form() {
    let carrier = COsString::null();
    assert!(carrier.is_null());
    assert_eq!(carrier.len(), 0);
    assert_eq!(carrier.capacity(), 0);
    assert!(carrier.as_bytes().is_empty());
    assert_eq!(carrier.into_buffer(), None);
}

#[test]
fn empty_is_the_static_form() {
    let carrier = COsString::empty();
    assert!(!carrier.is_null());
    assert_eq!(carrier.len(), 1);
    assert_eq!(carrier.capacity(), 0);
    assert_eq!(carrier.as_bytes(), &[0u8]);
    assert_eq!(carrier.into_buffer(), None);
}

#[test]
fn unset_variable_gives_the_absent_form() {
    let carrier = COsString::from(None);
    assert!(carrier.is_null());
    assert_eq!(carrier.len(), 0);
    assert_eq!(carrier.capacity(), 0);
    assert!(!carrier.dealloc());
}

#[test]
fn variable_set_to_nothing_gives_the_static_form() {
    let carrier = COsString::from(Some(Vec::new()));
    assert!(!carrier.is_null());
    assert_eq!(carrier.len(), 1);
    assert_eq!(carrier.capacity(), 0);
    assert_eq!(carrier.as_bytes(), &[0u8]);
    assert!(!carrier.dealloc());
}

#[test]
fn absent_and_empty_differ_at_the_boundary() {
    let absent = COsString::from(None);
    let empty = COsString::from(Some(Vec::new()));
    assert_ne!(absent.is_null(), empty.is_null());
    assert_ne!(absent.len(), empty.len());
    assert_ne!(absent.as_bytes(), empty.as_bytes());
    assert_eq!(absent.capacity(), empty.capacity());
}

#[test]
fn empty_value_allocates_nothing_even_with_room_to_spare() {
    let carrier = COsString::from(Vec::with_capacity(64));
    assert_eq!(carrier.capacity(), 0);
    assert_eq!(carrier.len(), 1);
    assert_eq!(carrier.into_buffer(), None);
}

#[test]
fn present_value_is_terminated() {
    let carrier = COsString::from(b"UTC".to_vec());
    assert!(!carrier.is_null());
    assert_eq!(carrier.len(), 4);
    assert_eq!(carrier.as_bytes(), b"UTC\0");
    assert!(carrier.capacity() >= 4);
    assert!(carrier.dealloc());
}

#[test]
fn option_of_a_value_is_laid_out_as_the_value() {
    let direct = COsString::from(b"CET-1CEST".to_vec());
    let wrapped = COsString::from(Some(b"CET-1CEST".to_vec()));
    assert_eq!(direct.is_null(), wrapped.is_null());
    assert_eq!(direct.len(), wrapped.len());
    assert_eq!(direct.as_bytes(), wrapped.as_bytes());
    assert_eq!(direct.as_bytes(), b"CET-1CEST\0");
}

#[test]
fn into_works_like_from() {
    let carrier: COsString = Some(b"TZ".to_vec()).into();
    assert_eq!(carrier.as_bytes(), b"TZ\0");
    let carrier: COsString = b"TZ".to_vec().into();
    assert_eq!(carrier.as_bytes(), b"TZ\0");
    let carrier: COsString = None.into();
    assert!(carrier.is_null());
}

#[test]
fn reading_back_reproduces_the_bytes() {
    for value in sample_values() {
        let carrier = COsString::from(value.clone());
        let bytes = carrier.as_bytes();
        assert_eq!(bytes.len(), value.len() + 1);
        assert_eq!(&bytes[..value.len()], value.as_slice());
        assert_eq!(bytes[value.len()], 0);
        assert_eq!(carrier.len(), value.len() + 1);
        assert!(carrier.dealloc());
    }
}

#[test]
fn interior_zero_bytes_are_kept() {
    let carrier = COsString::from(vec![65, 0, 66]);
    assert_eq!(carrier.len(), 4);
    assert_eq!(carrier.as_bytes(), &[65u8, 0, 66, 0]);
}

#[test]
fn buffer_taken_out_is_the_value_and_its_terminator() {
    for value in sample_values() {
        let carrier = COsString::from(Some(value.clone()));
        let mut expected = value;
        expected.push(0);
        assert_eq!(carrier.into_buffer(), Some(expected));
    }
}

#[test]
fn capacity_is_that_of_the_buffer() {
    let mut value = Vec::with_capacity(300);
    value.extend_from_slice(b"UTC");
    let carrier = COsString::from(value);
    let len = carrier.len();
    let capacity = carrier.capacity();
    assert_eq!(len, 4);
    assert!(capacity >= 300);
    let buffer = carrier.into_buffer().unwrap();
    assert_eq!(buffer.len(), len);
    assert_eq!(buffer.capacity(), capacity);
}

#[test]
fn capacity_covers_every_byte_behind_the_pointer() {
    for value in sample_values() {
        let carrier = COsString::from(value);
        assert!(carrier.capacity() > 0);
        assert!(carrier.capacity() >= carrier.len());
    }
}

#[test]
fn capacity_word_decides_the_release() {
    assert!(!COsString::must_free(0));
    assert!(COsString::must_free(1));
    assert!(COsString::must_free(4));
    assert!(COsString::must_free(usize::MAX));
}

#[test]
fn release_follows_the_capacity_of_each_form() {
    for value in sample_values() {
        let carrier = COsString::from(value);
        let owned = COsString::must_free(carrier.capacity());
        assert!(owned);
        assert_eq!(carrier.dealloc(), owned);
    }
    let absent = COsString::null();
    assert!(!COsString::must_free(absent.capacity()));
    assert!(!absent.dealloc());
    let empty = COsString::empty();
    assert!(!COsString::must_free(empty.capacity()));
    assert!(!empty.dealloc());
}

#[test]
fn build_read_release_many_times() {
    let value = b"America/Argentina/ComodRivadavia".to_vec();
    for round in 0..10000usize {
        let carrier = COsString::from(Some(value.clone()));
        assert_eq!(carrier.len(), value.len() + 1);
        assert_eq!(&carrier.as_bytes()[..value.len()], value.as_slice());
        if round % 2 == 0 {
            assert!(carrier.dealloc());
        } else {
            assert_eq!(carrier.into_buffer().map(|buffer| buffer.len()), Some(value.len() + 1));
        }
    }
}
