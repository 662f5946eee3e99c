use two_touch::two_touch_input::{Converter, Error, ErrorKind};

#[test]
fn test_convert_to_two_touch_string_normal() {
    let c = Converter::new();
    let result = c
        .convert_to_two_touch_string("こんにちは".to_string())
        .unwrap();
    assert_eq!(result.len(), 1);
    assert_eq!(result[0], "2503524261");

    let result = c
        .convert_to_two_touch_string("ごくろうさん".to_string())
        .unwrap();
    let expected = vec!["5963".to_string(), "25042395133103".to_string()];
    assert_eq!(result, expected);

    let result = c
        .convert_to_two_touch_string("ご苦労さん".to_string())
        .unwrap();
    let expected = vec!["5963".to_string()];
    assert_eq!(result, expected);

    let result = c
        .convert_to_two_touch_string("だA*（￥ぽＧ".to_string())
        .unwrap();
    let expected = vec!["410416868276650527".to_string()];
    assert_eq!(result, expected);
}

#[test]
fn test_convert_to_two_touch_string_error() {
    let c = Converter::new();
    let result = c.convert_to_two_touch_string("筋肉".to_string());
    assert!(result.is_err());
    let result = c.convert_to_two_touch_string("".to_string());
    assert!(result.is_err());
    let result = c.convert_to_two_touch_string("@".to_string());
    assert!(result.is_err());
}

#[test]
fn test_convert_from_two_touch_string_normal() {
    let c = Converter::new();
    let result = c
        .convert_from_two_touch_string("48564940".to_string())
        .unwrap();
    assert_eq!(result, "RUST");
    let result = c
        .convert_from_two_touch_string("81225223".to_string())
        .unwrap();
    assert_eq!(result, "やきにく");
    let result = c
        .convert_from_two_touch_string("250459868884".to_string())
        .unwrap();
    assert_eq!(result, "こ゛X* )");
}

#[test]
fn test_convert_from_two_touch_string_error() {
    let c = Converter::new();
    let result = c.convert_from_two_touch_string("8080".to_string());
    assert!(result.is_err());
    let c = Converter::new();
    let result = c.convert_from_two_touch_string("111".to_string());
    assert!(result.is_err());
    let c = Converter::new();
    let result = c.convert_from_two_touch_string("".to_string());
    assert!(result.is_err());
    let c = Converter::new();
    let result = c.convert_from_two_touch_string("筋肉".to_string());
    assert!(result.is_err());
}

#[test]
fn lowercase_ascii_is_encoded_as_uppercase() {
    let c = Converter::new();
    let lower = c.convert_to_two_touch_string("rust".to_string()).unwrap();
    let upper = c.convert_to_two_touch_string("RUST".to_string()).unwrap();
    assert_eq!(lower, vec!["48564940".to_string()]);
    assert_eq!(lower, upper);
}

#[test]
fn variants_are_normalized_before_lookup() {
    let c = Converter::new();
    // small kana, full-width digit, long vowel mark
    let result = c.convert_to_two_touch_string("ゃ１ー".to_string()).unwrap();
    assert_eq!(result, vec!["819669".to_string()]);
    // full-width Latin letters are read as their ASCII letter
    let result = c.convert_to_two_touch_string("Ｋ".to_string()).unwrap();
    assert_eq!(result, vec!["36".to_string()]);
    let result = c.convert_to_two_touch_string("ＲＵＳＴ".to_string()).unwrap();
    assert_eq!(result, vec!["48564940".to_string()]);
}

#[test]
fn phrase_with_several_shorthands_keeps_their_order() {
    let c = Converter::new();
    let result = c.convert_to_two_touch_string("あいしてる".to_string()).unwrap();
    let expected = vec![
        "14106".to_string(),
        "114106".to_string(),
        "1410".to_string(),
        "1112324493".to_string(),
    ];
    assert_eq!(result, expected);
}

#[test]
fn phrase_in_kanji_gives_only_its_shorthands() {
    let c = Converter::new();
    let result = c.convert_to_two_touch_string("愛してる".to_string()).unwrap();
    let expected = vec![
        "14106".to_string(),
        "114106".to_string(),
        "1410".to_string(),
    ];
    assert_eq!(result, expected);
}

#[test]
fn phrase_match_is_exact_and_case_sensitive() {
    let c = Converter::new();
    let result = c.convert_to_two_touch_string("THANK YOU".to_string()).unwrap();
    assert_eq!(result, vec!["402816393688503056".to_string()]);
    let result = c.convert_to_two_touch_string("Thank you".to_string()).unwrap();
    assert_eq!(
        result,
        vec![
            "39".to_string(),
            "999".to_string(),
            "402816393688503056".to_string()
        ]
    );
}

#[test]
fn voiced_kana_encodes_as_base_and_mark() {
    let c = Converter::new();
    let result = c.convert_to_two_touch_string("がぱ".to_string()).unwrap();
    assert_eq!(result, vec!["21046105".to_string()]);
    let decoded = c.convert_from_two_touch_string("21046105".to_string()).unwrap();
    assert_eq!(decoded, "か゛は゜");
}

#[test]
fn single_character_round_trips() {
    let c = Converter::new();
    for ch in ["あ", "ん", "A", "Z", "0", "9", "(", ")", "\\", " ", "゛"] {
        let codes = c.convert_to_two_touch_string(ch.to_string()).unwrap();
        assert_eq!(codes.len(), 1);
        let back = c.convert_from_two_touch_string(codes[0].clone()).unwrap();
        assert_eq!(back, ch);
    }
}

#[test]
fn normalized_character_round_trips_to_canonical_form() {
    let c = Converter::new();
    let codes = c.convert_to_two_touch_string("ぁ".to_string()).unwrap();
    let back = c.convert_from_two_touch_string(codes[0].clone()).unwrap();
    assert_eq!(back, "あ");
    let codes = c.convert_to_two_touch_string("x".to_string()).unwrap();
    let back = c.convert_from_two_touch_string(codes[0].clone()).unwrap();
    assert_eq!(back, "X");
}

#[test]
fn reencoding_a_decoded_code_gives_the_code() {
    let c = Converter::new();
    for code in ["11", "03", "48", "88", "00", "04", "76"] {
        let text = c.convert_from_two_touch_string(code.to_string()).unwrap();
        let again = c.convert_to_two_touch_string(text).unwrap();
        assert_eq!(again, vec![code.to_string()]);
    }
}

#[test]
fn decode_rejects_odd_length_and_non_digits() {
    let c = Converter::new();
    assert!(c.convert_from_two_touch_string("1".to_string()).is_err());
    assert!(c.convert_from_two_touch_string("11111".to_string()).is_err());
    assert!(c.convert_from_two_touch_string("1a".to_string()).is_err());
    assert!(c.convert_from_two_touch_string("11 2".to_string()).is_err());
    assert!(c.convert_from_two_touch_string("１１".to_string()).is_err());
}

#[test]
fn decode_rejects_unknown_chunk_anywhere() {
    let c = Converter::new();
    assert!(c.convert_from_two_touch_string("80".to_string()).is_err());
    assert!(c.convert_from_two_touch_string("1180".to_string()).is_err());
    assert!(c.convert_from_two_touch_string("8011".to_string()).is_err());
    assert!(c.convert_from_two_touch_string("111280".to_string()).is_err());
}

#[test]
fn encode_stops_at_unknown_character_after_phrase() {
    let c = Converter::new();
    let result = c.convert_to_two_touch_string("今".to_string()).unwrap();
    assert_eq!(result, vec!["10".to_string()]);
    let result = c.convert_to_two_touch_string("いま@".to_string());
    assert!(result.is_err());
}

#[test]
fn error_carries_parse_error_kind() {
    let c = Converter::new();
    let err = c.convert_from_two_touch_string("".to_string()).unwrap_err();
    assert_eq!(*err.kind(), ErrorKind::ParseError);
    let err = c.convert_to_two_touch_string("".to_string()).unwrap_err();
    assert_eq!(err, Error::new(ErrorKind::ParseError));
    assert_eq!(err, Error::from(ErrorKind::ParseError));
}

#[test]
fn digits_encode_to_a_longer_code() {
    let c = Converter::new();
    let result = c.convert_to_two_touch_string("10".to_string()).unwrap();
    assert_eq!(result, vec!["9600".to_string()]);
    let again = c.convert_to_two_touch_string(result[0].clone()).unwrap();
    assert_eq!(again, vec!["09060000".to_string()]);
    assert_ne!(again[0], result[0]);
}
