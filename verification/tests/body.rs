use zbus_body::body::{applied_signature, value_of};
use zbus_body::wire::{leading_word, text_is_framed, verdict, within};
use zbus_body::{Body, ByteOrder, Data, Error, Message};
use zvariant::serialized::Context;

fn little() -> Context {
    Context::new_dbus(zvariant::LE, 0)
}

fn big() -> Context {
    Context::new_dbus(zvariant::BE, 0)
}

fn body(bytes: Vec<u8>, order: ByteOrder, signature: Option<&str>) -> Body {
    Body::new(Data::new(bytes, order), Message::new(signature.map(String::from)).unwrap())
}

#[test]
fn text_under_its_signature() {
    let encoded = zvariant::to_bytes(little(), "ping").unwrap();
    let b = body(encoded.bytes().to_vec(), ByteOrder::Little, Some("s"));
    assert_eq!(b.deserialize::<String>(), Ok(String::from("ping")));
    let wrong = b.deserialize::<i32>().unwrap_err();
    assert!(wrong.is_signature_mismatch());
    assert!(!wrong.is_malformed());
    assert_eq!(
        wrong,
        Error::SignatureMismatch { declared: String::from("s"), expected: String::from("`i`") }
    );
}

#[test]
fn two_values_under_the_flat_signature() {
    let encoded = zvariant::to_bytes(little(), &(42i32, true)).unwrap();
    let b = body(encoded.bytes().to_vec(), ByteOrder::Little, Some("ib"));
    assert_eq!(b.deserialize::<(i32, bool)>(), Ok((42, true)));
    assert_eq!(b.signature(), Some("ib"));
    assert_eq!(b.len(), 8);
}

#[test]
fn empty_body_without_signature() {
    let b = body(Vec::new(), ByteOrder::Little, None);
    assert!(b.is_empty());
    assert_eq!(b.len(), 0);
    assert_eq!(b.signature(), None);
    assert_eq!(b.deserialize::<()>(), Ok(()));
    let wrong = b.deserialize::<i32>().unwrap_err();
    assert!(wrong.is_signature_mismatch());
}

#[test]
fn no_signature_admits_only_the_empty_type() {
    let b = body(vec![7, 0, 0, 0, 1, 0, 0, 0], ByteOrder::Little, None);
    assert_eq!(b.deserialize::<()>(), Ok(()));
    assert!(b.deserialize::<i32>().unwrap_err().is_signature_mismatch());
    assert!(b.deserialize::<String>().unwrap_err().is_signature_mismatch());
    assert!(b.deserialize::<(i32, bool)>().unwrap_err().is_signature_mismatch());
    assert_eq!(
        b.deserialize::<i32>(),
        Err(Error::SignatureMismatch { declared: String::new(), expected: String::from("`i`") })
    );
}

#[test]
fn declared_empty_signature_is_no_signature() {
    let b = body(vec![1, 2, 3], ByteOrder::Big, Some(""));
    assert_eq!(b.signature(), Some(""));
    assert_eq!(b.deserialize::<()>(), Ok(()));
    assert!(b.deserialize::<String>().unwrap_err().is_signature_mismatch());
}

#[test]
fn unit_under_a_declared_signature_is_a_mismatch() {
    let encoded = zvariant::to_bytes(little(), "ping").unwrap();
    let b = body(encoded.bytes().to_vec(), ByteOrder::Little, Some("s"));
    assert!(b.deserialize::<()>().unwrap_err().is_signature_mismatch());
    assert_eq!(b.deserialize_unchecked::<()>(), Ok(()));
}

#[test]
fn round_trip_of_integers() {
    let values: [i32; 6] = [0, 1, -1, 42, i32::MAX, i32::MIN];
    for value in values {
        let le = zvariant::to_bytes(little(), &value).unwrap();
        let b = body(le.bytes().to_vec(), ByteOrder::Little, Some("i"));
        assert_eq!(b.deserialize::<i32>(), Ok(value));
        assert_eq!(b.deserialize_unchecked::<i32>(), Ok(value));
        let be = zvariant::to_bytes(big(), &value).unwrap();
        let b = body(be.bytes().to_vec(), ByteOrder::Big, Some("i"));
        assert_eq!(b.deserialize::<i32>(), Ok(value));
        assert_eq!(b.deserialize_unchecked::<i32>(), Ok(value));
    }
}

#[test]
fn round_trip_of_text() {
    let values = ["", "ping", "a longer text, with spaces", "gr\u{fc}\u{df}e \u{2603}"];
    for value in values {
        let le = zvariant::to_bytes(little(), value).unwrap();
        let b = body(le.bytes().to_vec(), ByteOrder::Little, Some("s"));
        assert_eq!(b.deserialize::<String>(), Ok(String::from(value)));
        assert_eq!(b.deserialize_unchecked::<String>(), Ok(String::from(value)));
        let be = zvariant::to_bytes(big(), value).unwrap();
        let b = body(be.bytes().to_vec(), ByteOrder::Big, Some("s"));
        assert_eq!(b.deserialize::<String>(), Ok(String::from(value)));
    }
}

#[test]
fn round_trip_of_pairs() {
    let values = [(0i32, false), (42, true), (-7, false), (i32::MIN, true)];
    for value in values {
        let le = zvariant::to_bytes(little(), &value).unwrap();
        let b = body(le.bytes().to_vec(), ByteOrder::Little, Some("ib"));
        assert_eq!(b.deserialize::<(i32, bool)>(), Ok(value));
        assert_eq!(b.deserialize_unchecked::<(i32, bool)>(), Ok(value));
        let be = zvariant::to_bytes(big(), &value).unwrap();
        let b = body(be.bytes().to_vec(), ByteOrder::Big, Some("ib"));
        assert_eq!(b.deserialize::<(i32, bool)>(), Ok(value));
    }
}

#[test]
fn round_trip_of_unit() {
    let encoded = zvariant::to_bytes(little(), &()).unwrap();
    assert!(encoded.bytes().is_empty());
    let b = body(encoded.bytes().to_vec(), ByteOrder::Little, None);
    assert_eq!(b.deserialize::<()>(), Ok(()));
    assert_eq!(b.deserialize_unchecked::<()>(), Ok(()));
}

#[test]
fn exact_bytes_of_an_integer() {
    let b = body(vec![42, 0, 0, 0], ByteOrder::Little, Some("i"));
    assert_eq!(b.deserialize::<i32>(), Ok(42));
    let b = body(vec![0, 0, 0, 42], ByteOrder::Big, Some("i"));
    assert_eq!(b.deserialize::<i32>(), Ok(42));
    let b = body(vec![0, 0, 0, 42], ByteOrder::Little, Some("i"));
    assert_eq!(b.deserialize::<i32>(), Ok(704643072));
    let b = body(vec![0xff, 0xff, 0xff, 0xff], ByteOrder::Big, Some("i"));
    assert_eq!(b.deserialize::<i32>(), Ok(-1));
}

#[test]
fn exact_bytes_of_text() {
    let b = body(vec![4, 0, 0, 0, b'p', b'i', b'n', b'g', 0], ByteOrder::Little, Some("s"));
    assert_eq!(b.deserialize::<String>(), Ok(String::from("ping")));
    let b = body(vec![0, 0, 0, 2, b'h', b'i', 0], ByteOrder::Big, Some("s"));
    assert_eq!(b.deserialize::<String>(), Ok(String::from("hi")));
}

#[test]
fn exact_bytes_of_a_pair() {
    let b = body(vec![42, 0, 0, 0, 1, 0, 0, 0], ByteOrder::Little, Some("ib"));
    assert_eq!(b.deserialize::<(i32, bool)>(), Ok((42, true)));
    let b = body(vec![0, 0, 0, 42, 0, 0, 0, 0], ByteOrder::Big, Some("ib"));
    assert_eq!(b.deserialize::<(i32, bool)>(), Ok((42, false)));
}

#[test]
fn enclosing_parentheses_are_accepted_too() {
    let bytes = vec![42, 0, 0, 0, 1, 0, 0, 0];
    let b = body(bytes.clone(), ByteOrder::Little, Some("(ib)"));
    assert_eq!(b.deserialize::<(i32, bool)>(), Ok((42, true)));
    assert_eq!(b.signature(), Some("(ib)"));
    let b = body(bytes, ByteOrder::Little, Some("(i)"));
    assert_eq!(b.deserialize::<i32>(), Ok(42));
}

#[test]
fn too_few_bytes_are_malformed() {
    for n in 0..4usize {
        let b = body(vec![0; n], ByteOrder::Little, Some("i"));
        let e = b.deserialize::<i32>().unwrap_err();
        assert!(e.is_malformed());
        assert!(!e.is_signature_mismatch());
        assert!(b.deserialize_unchecked::<i32>().unwrap_err().is_malformed());
    }
    for n in 0..5usize {
        let b = body(vec![0; n], ByteOrder::Big, Some("s"));
        assert!(b.deserialize::<String>().unwrap_err().is_malformed());
        assert!(b.deserialize_unchecked::<String>().unwrap_err().is_malformed());
    }
    for n in 0..8usize {
        let b = body(vec![0; n], ByteOrder::Little, Some("ib"));
        assert!(b.deserialize::<(i32, bool)>().unwrap_err().is_malformed());
        assert!(b.deserialize_unchecked::<(i32, bool)>().unwrap_err().is_malformed());
    }
}

#[test]
fn text_cut_short_is_malformed() {
    let encoded = zvariant::to_bytes(little(), "ping").unwrap();
    let whole = encoded.bytes().to_vec();
    assert_eq!(whole.len(), 9);
    for n in 0..9usize {
        let b = body(whole[..n].to_vec(), ByteOrder::Little, Some("s"));
        assert!(b.deserialize::<String>().unwrap_err().is_malformed());
        assert!(b.deserialize_unchecked::<String>().unwrap_err().is_malformed());
    }
    let b = body(whole, ByteOrder::Little, Some("s"));
    assert_eq!(b.deserialize::<String>(), Ok(String::from("ping")));
}

#[test]
fn forbidden_values_are_malformed() {
    let b = body(vec![42, 0, 0, 0, 2, 0, 0, 0], ByteOrder::Little, Some("ib"));
    assert!(b.deserialize::<(i32, bool)>().unwrap_err().is_malformed());
    let b = body(vec![2, 0, 0, 0, 0xff, 0xfe, 0], ByteOrder::Little, Some("s"));
    assert!(b.deserialize::<String>().unwrap_err().is_malformed());
    let b = body(vec![3, 0, 0, 0, b'a', 0, b'b', 0], ByteOrder::Little, Some("s"));
    assert!(b.deserialize::<String>().unwrap_err().is_malformed());
}

#[test]
fn a_text_outside_the_grammar_is_no_signature() {
    for text in ["z", "(i", "i)", "a", "a{yz}", "s/", "\u{e9}"] {
        assert!(Message::new(Some(String::from(text))).is_none());
    }
    for text in ["", "i", "s", "ib", "(ib)", "a{sv}", "(ysa{sd})"] {
        assert!(Message::new(Some(String::from(text))).is_some());
    }
    let long = "i".repeat(256);
    assert!(Message::new(Some(long)).is_none());
    let longest = "i".repeat(255);
    assert!(Message::new(Some(longest)).is_some());
}

#[test]
fn mismatch_names_both_signatures() {
    let b = body(vec![42, 0, 0, 0, 1, 0, 0, 0], ByteOrder::Little, Some("ib"));
    assert_eq!(
        b.deserialize::<String>(),
        Err(Error::SignatureMismatch { declared: String::from("ib"), expected: String::from("`s`") })
    );
    assert_eq!(
        b.deserialize::<i32>(),
        Err(Error::SignatureMismatch { declared: String::from("ib"), expected: String::from("`i`") })
    );
    let b = body(vec![42, 0, 0, 0], ByteOrder::Little, Some("i"));
    assert_eq!(
        b.deserialize::<(i32, bool)>(),
        Err(Error::SignatureMismatch {
            declared: String::from("i"),
            expected: String::from("`(ib)`"),
        })
    );
}

#[test]
fn unchecked_decode_consults_no_signature() {
    let encoded = zvariant::to_bytes(little(), "ping").unwrap();
    let b = body(encoded.bytes().to_vec(), ByteOrder::Little, Some("s"));
    assert_eq!(b.deserialize_unchecked::<String>(), Ok(String::from("ping")));
    assert_eq!(b.deserialize_unchecked::<i32>(), Ok(4));
    let b = body(encoded.bytes().to_vec(), ByteOrder::Little, None);
    assert_eq!(b.deserialize_unchecked::<String>(), Ok(String::from("ping")));
    let b = body(encoded.bytes().to_vec(), ByteOrder::Little, Some("ib"));
    assert_eq!(b.deserialize_unchecked::<String>(), Ok(String::from("ping")));
}

#[test]
fn unchecked_decode_fails_only_as_malformed() {
    let b = body(vec![1, 2], ByteOrder::Little, Some("i"));
    assert!(b.deserialize_unchecked::<i32>().unwrap_err().is_malformed());
    assert!(b.deserialize_unchecked::<String>().unwrap_err().is_malformed());
    assert!(b.deserialize_unchecked::<(i32, bool)>().unwrap_err().is_malformed());
    let b = body(vec![42, 0, 0, 0, 9, 0, 0, 0], ByteOrder::Little, None);
    assert!(b.deserialize_unchecked::<(i32, bool)>().unwrap_err().is_malformed());
}

#[test]
fn decode_reads_from_the_front_and_ignores_the_rest() {
    let b = body(vec![42, 0, 0, 0, 9, 9, 9], ByteOrder::Little, Some("i"));
    assert_eq!(b.deserialize::<i32>(), Ok(42));
    assert_eq!(b.len(), 7);
}

#[test]
fn decode_leaves_the_body_as_it_was() {
    let encoded = zvariant::to_bytes(little(), "ping").unwrap();
    let bytes = encoded.bytes().to_vec();
    let b = body(bytes.clone(), ByteOrder::Little, Some("s"));
    assert_eq!(b.deserialize::<String>(), Ok(String::from("ping")));
    assert_eq!(b.deserialize::<String>(), Ok(String::from("ping")));
    assert_eq!(b.data().bytes(), &bytes[..]);
    assert_eq!(b.data().order(), ByteOrder::Little);
    assert_eq!(b.message().signature(), Some("s"));
}

#[test]
fn length_is_the_count_of_bytes_given() {
    for n in [0usize, 1, 2, 9, 255, 4096] {
        let d = Data::new(vec![0xab; n], ByteOrder::Big);
        assert_eq!(d.len(), n);
        assert_eq!(d.is_empty(), n == 0);
        assert_eq!(d.bytes().len(), n);
        assert_eq!(d.order(), ByteOrder::Big);
        let b = Body::new(d, Message::new(None).unwrap());
        assert_eq!(b.len(), n);
        assert_eq!(b.is_empty(), n == 0);
    }
}

#[test]
fn data_hands_back_its_bytes() {
    let d = Data::new(vec![1, 2, 3], ByteOrder::Little);
    assert_eq!(d.bytes(), &[1u8, 2, 3][..]);
    assert_eq!(d.order(), ByteOrder::Little);
    assert!(!d.is_empty());
}

#[test]
fn message_hands_back_its_signature() {
    assert_eq!(Message::new(None).unwrap().signature(), None);
    assert_eq!(Message::new(Some(String::from("a{sv}"))).unwrap().signature(), Some("a{sv}"));
    assert_eq!(Message::new(Some(String::new())).unwrap().signature(), Some(""));
    let m = Message::new(Some(String::from("(ib)"))).unwrap();
    assert_eq!(m.clone().signature(), Some("(ib)"));
}

#[test]
fn applied_signature_defaults_to_empty() {
    assert_eq!(applied_signature(None), "");
    assert_eq!(applied_signature(Some("ib")), "ib");
    assert_eq!(applied_signature(Some("")), "");
}

#[test]
fn value_of_drops_the_count() {
    assert_eq!(value_of::<i32>(Ok((42, 4))), Ok(42));
    assert_eq!(value_of::<String>(Ok((String::from("ping"), 9))), Ok(String::from("ping")));
    let e = Error::Malformed { reason: String::from("short") };
    assert_eq!(value_of::<i32>(Err(e.clone())), Err(e));
    let e = Error::SignatureMismatch { declared: String::from("s"), expected: String::from("`i`") };
    assert_eq!(value_of::<()>(Err(e.clone())), Err(e));
}

#[test]
fn error_classes_exclude_each_other() {
    let m = Error::Malformed { reason: String::new() };
    assert!(m.is_malformed());
    assert!(!m.is_signature_mismatch());
    let s = Error::SignatureMismatch { declared: String::new(), expected: String::new() };
    assert!(s.is_signature_mismatch());
    assert!(!s.is_malformed());
}

#[test]
fn text_without_its_last_byte_is_cut_short() {
    let b = body(vec![0, 0, 0, 0], ByteOrder::Little, Some("s"));
    assert_eq!(b.deserialize::<String>(), Err(Error::truncated()));
    assert_eq!(b.deserialize_unchecked::<String>(), Err(Error::truncated()));
    let b = body(vec![2, 0, 0, 0, b'h', b'i'], ByteOrder::Little, Some("s"));
    assert_eq!(b.deserialize::<String>(), Err(Error::truncated()));
    let b = body(vec![0, 0, 0, 0, 0], ByteOrder::Little, Some("s"));
    assert_eq!(b.deserialize::<String>(), Ok(String::new()));
    assert_eq!(b.deserialize_unchecked::<String>(), Ok(String::new()));
}

#[test]
fn announced_length_beyond_the_payload_is_cut_short() {
    for order in [ByteOrder::Little, ByteOrder::Big] {
        let b = body(vec![0xff, 0xff, 0xff, 0xff], order, Some("s"));
        assert_eq!(b.deserialize::<String>(), Err(Error::truncated()));
        assert_eq!(b.deserialize_unchecked::<String>(), Err(Error::truncated()));
        let b = body(vec![0xff, 0xff, 0xff, 0xfc, b'a', b'b', 0, 0, 0], order, None);
        assert_eq!(b.deserialize_unchecked::<String>(), Err(Error::truncated()));
        assert!(b.deserialize::<String>().unwrap_err().is_signature_mismatch());
    }
}

#[test]
fn mismatch_comes_before_a_look_at_the_bytes() {
    let b = body(vec![9, 0], ByteOrder::Little, Some("i"));
    assert_eq!(
        b.deserialize::<String>(),
        Err(Error::SignatureMismatch { declared: String::from("i"), expected: String::from("`s`") })
    );
    let b = body(vec![9, 0], ByteOrder::Little, None);
    assert_eq!(
        b.deserialize::<String>(),
        Err(Error::SignatureMismatch { declared: String::new(), expected: String::from("`s`") })
    );
    assert_eq!(
        b.deserialize::<(i32, bool)>(),
        Err(Error::SignatureMismatch {
            declared: String::new(),
            expected: String::from("`(ib)`"),
        })
    );
}

#[test]
fn success_under_a_signature_is_success_without_one() {
    let cases: [(Vec<u8>, &str); 4] = [
        (vec![42, 0, 0, 0], "i"),
        (vec![42, 0, 0, 0], "(i)"),
        (vec![0xfe, 0xff, 0xff, 0xff, 1, 0, 0, 0], "ib"),
        (vec![0xfe, 0xff, 0xff, 0xff, 1, 0, 0, 0], "(ib)"),
    ];
    for (bytes, signature) in cases {
        let b = body(bytes, ByteOrder::Little, Some(signature));
        if let Ok(v) = b.deserialize::<i32>() {
            assert_eq!(b.deserialize_unchecked::<i32>(), Ok(v));
        }
        if let Ok(v) = b.deserialize::<(i32, bool)>() {
            assert_eq!(v, (-2, true));
            assert_eq!(b.deserialize_unchecked::<(i32, bool)>(), Ok(v));
        }
    }
    let b = body(vec![2, 0, 0, 0, b'h', b'i', 0], ByteOrder::Little, Some("(s)"));
    assert_eq!(b.deserialize::<String>(), Ok(String::from("hi")));
    assert_eq!(b.deserialize_unchecked::<String>(), Ok(String::from("hi")));
}

#[test]
fn failure_under_the_own_signature_is_the_failure_without_one() {
    let b = body(vec![1, 2], ByteOrder::Little, Some("i"));
    assert_eq!(b.deserialize::<i32>(), b.deserialize_unchecked::<i32>());
    let b = body(vec![1, 0, 0, 0, 7, 0, 0, 0], ByteOrder::Little, Some("ib"));
    assert_eq!(b.deserialize::<(i32, bool)>(), b.deserialize_unchecked::<(i32, bool)>());
    assert!(b.deserialize::<(i32, bool)>().unwrap_err().is_malformed());
    let b = body(vec![2, 0, 0, 0, 0xff, 0xfe, 0], ByteOrder::Little, Some("s"));
    assert_eq!(b.deserialize::<String>(), b.deserialize_unchecked::<String>());
    let b = body(vec![2, 0, 0], ByteOrder::Little, Some("s"));
    assert_eq!(b.deserialize::<String>(), b.deserialize_unchecked::<String>());
}

#[test]
fn leading_word_reads_four_bytes_in_order() {
    assert_eq!(leading_word(&[], ByteOrder::Little), None);
    assert_eq!(leading_word(&[1, 2, 3], ByteOrder::Big), None);
    assert_eq!(leading_word(&[1, 2, 3, 4], ByteOrder::Little), Some(0x0403_0201));
    assert_eq!(leading_word(&[1, 2, 3, 4], ByteOrder::Big), Some(0x0102_0304));
    assert_eq!(leading_word(&[0xff, 0xff, 0xff, 0xff, 9], ByteOrder::Big), Some(u32::MAX));
    assert_eq!(leading_word(&[4, 0, 0, 0, b'p'], ByteOrder::Little), Some(4));
}

#[test]
fn a_text_is_framed_by_length_and_last_byte() {
    assert!(!text_is_framed(&[], ByteOrder::Little));
    assert!(!text_is_framed(&[0, 0, 0, 0], ByteOrder::Little));
    assert!(text_is_framed(&[0, 0, 0, 0, 0], ByteOrder::Little));
    assert!(text_is_framed(&[0, 0, 0, 0, 7], ByteOrder::Big));
    assert!(!text_is_framed(&[2, 0, 0, 0, b'h', b'i'], ByteOrder::Little));
    assert!(text_is_framed(&[2, 0, 0, 0, b'h', b'i', 0], ByteOrder::Little));
    assert!(!text_is_framed(&[2, 0, 0, 0, b'h', b'i', 0], ByteOrder::Big));
    assert!(text_is_framed(&[2, 0, 0, 0, b'h', b'i', 0, 9, 9], ByteOrder::Little));
    assert!(!text_is_framed(&[0xff, 0xff, 0xff, 0xff, 0], ByteOrder::Little));
}

#[test]
fn within_refuses_a_count_beyond_the_payload() {
    assert_eq!(within::<i32>(Ok((7, 4)), 4), Ok((7, 4)));
    assert_eq!(within::<i32>(Ok((7, 4)), 9), Ok((7, 4)));
    assert_eq!(within::<i32>(Ok((7, 5)), 4), Err(Error::truncated()));
    assert_eq!(within::<String>(Ok((String::new(), 5)), 4), Err(Error::truncated()));
    let e = Error::Malformed { reason: String::from("other") };
    assert_eq!(within::<i32>(Err(e.clone()), 0), Err(e));
}

#[test]
fn verdict_keeps_a_mismatch_and_nothing_else() {
    let m = Error::SignatureMismatch { declared: String::from("i"), expected: String::from("`s`") };
    assert_eq!(verdict::<String>(Err(m.clone())), Err(m));
    let e = Error::Malformed { reason: String::from("other") };
    assert_eq!(verdict::<String>(Err(e)), Err(Error::truncated()));
    assert_eq!(verdict::<String>(Ok((String::from("x"), 6))), Err(Error::truncated()));
}

#[test]
fn truncated_is_a_malformed_payload() {
    let e = Error::truncated();
    assert!(e.is_malformed());
    assert_eq!(
        e,
        Error::Malformed {
            reason: String::from("the payload ends before the value that it announces"),
        }
    );
}

#[test]
fn the_codec_spells_integers_byte_by_byte() {
    let values: [i32; 7] = [0, 1, -1, 42, -2, i32::MAX, i32::MIN];
    for value in values {
        let le = zvariant::to_bytes(little(), &value).unwrap();
        assert_eq!(le.bytes(), &value.to_le_bytes()[..]);
        let be = zvariant::to_bytes(big(), &value).unwrap();
        assert_eq!(be.bytes(), &value.to_be_bytes()[..]);
        for flag in [false, true] {
            let le = zvariant::to_bytes(little(), &(value, flag)).unwrap();
            let mut spelled = value.to_le_bytes().to_vec();
            spelled.extend_from_slice(&u32::from(flag).to_le_bytes());
            assert_eq!(le.bytes(), &spelled[..]);
            let be = zvariant::to_bytes(big(), &(value, flag)).unwrap();
            let mut spelled = value.to_be_bytes().to_vec();
            spelled.extend_from_slice(&u32::from(flag).to_be_bytes());
            assert_eq!(be.bytes(), &spelled[..]);
            let b = body(spelled, ByteOrder::Big, Some("ib"));
            assert_eq!(b.deserialize::<(i32, bool)>(), Ok((value, flag)));
        }
    }
}
