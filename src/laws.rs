use vstd::prelude::*;

use crate::tables::{normalization_table, phrase_table};
use crate::two_touch_input::{
    ascii_upper, char_code, char_of_code, code_map, code_of, decode_spec, encode_spec, first_match,
    inverse_code_map, is_digit, lemma_pairs_decoded_extends_none, normalized, pairs_decoded,
    phrase_codes, phrase_rows, text_code,
};

verus! {

/// A code string is rejected when its length is odd, when one of its characters is not
/// a digit, or when one of its chunks of two digits is no known code.
pub proof fn lemma_decode_rejects(s: Seq<char>)
    ensures
        s.len() % 2 != 0 ==> decode_spec(s) is None,
        (exists|i: int| 0 <= i < s.len() && !is_digit(#[trigger] s[i])) ==> decode_spec(s) is None,
        (exists|j: int|
            0 <= j < s.len() / 2 && #[trigger] char_of_code(s.subrange(2 * j, 2 * j + 2)) is None)
            ==> decode_spec(s) is None,
{
    if exists|j: int|
        0 <= j < s.len() / 2 && #[trigger] char_of_code(s.subrange(2 * j, 2 * j + 2)) is None {
        let j = choose|j: int|
            0 <= j < s.len() / 2 && #[trigger] char_of_code(s.subrange(2 * j, 2 * j + 2)) is None;
        assert(pairs_decoded(s, (j + 1) as nat) is None);
        lemma_pairs_decoded_extends_none(s, (j + 1) as nat, s.len() / 2);
    }
}

/// The character table with every code written out as its digits.
proof fn lemma_code_map_digits()
    ensures
        code_map() == seq![
            ('あ', seq!['1', '1']),
            ('い', seq!['1', '2']),
            ('う', seq!['1', '3']),
            ('え', seq!['1', '4']),
            ('お', seq!['1', '5']),
            ('か', seq!['2', '1']),
            ('き', seq!['2', '2']),
            ('く', seq!['2', '3']),
            ('け', seq!['2', '4']),
            ('こ', seq!['2', '5']),
            ('さ', seq!['3', '1']),
            ('し', seq!['3', '2']),
            ('す', seq!['3', '3']),
            ('せ', seq!['3', '4']),
            ('そ', seq!['3', '5']),
            ('た', seq!['4', '1']),
            ('ち', seq!['4', '2']),
            ('つ', seq!['4', '3']),
            ('て', seq!['4', '4']),
            ('と', seq!['4', '5']),
            ('な', seq!['5', '1']),
            ('に', seq!['5', '2']),
            ('ぬ', seq!['5', '3']),
            ('ね', seq!['5', '4']),
            ('の', seq!['5', '5']),
            ('は', seq!['6', '1']),
            ('ひ', seq!['6', '2']),
            ('ふ', seq!['6', '3']),
            ('へ', seq!['6', '4']),
            ('ほ', seq!['6', '5']),
            ('ま', seq!['7', '1']),
            ('み', seq!['7', '2']),
            ('む', seq!['7', '3']),
            ('め', seq!['7', '4']),
            ('も', seq!['7', '5']),
            ('や', seq!['8', '1']),
            ('(', seq!['8', '2']),
            ('ゆ', seq!['8', '3']),
            (')', seq!['8', '4']),
            ('よ', seq!['8', '5']),
            ('ら', seq!['9', '1']),
            ('り', seq!['9', '2']),
            ('る', seq!['9', '3']),
            ('れ', seq!['9', '4']),
            ('ろ', seq!['9', '5']),
            ('わ', seq!['0', '1']),
            ('を', seq!['0', '2']),
            ('ん', seq!['0', '3']),
            ('゛', seq!['0', '4']),
            ('゜', seq!['0', '5']),
            ('A', seq!['1', '6']),
            ('B', seq!['1', '7']),
            ('C', seq!['1', '8']),
            ('D', seq!['1', '9']),
            ('E', seq!['1', '0']),
            ('F', seq!['2', '6']),
            ('G', seq!['2', '7']),
            ('H', seq!['2', '8']),
            ('I', seq!['2', '9']),
            ('J', seq!['2', '0']),
            ('K', seq!['3', '6']),
            ('L', seq!['3', '7']),
            ('M', seq!['3', '8']),
            ('N', seq!['3', '9']),
            ('O', seq!['3', '0']),
            ('P', seq!['4', '6']),
            ('Q', seq!['4', '7']),
            ('R', seq!['4', '8']),
            ('S', seq!['4', '9']),
            ('T', seq!['4', '0']),
            ('U', seq!['5', '6']),
            ('V', seq!['5', '7']),
            ('W', seq!['5', '8']),
            ('X', seq!['5', '9']),
            ('Y', seq!['5', '0']),
            ('Z', seq!['6', '6']),
            ('?', seq!['6', '7']),
            ('!', seq!['6', '8']),
            ('-', seq!['6', '9']),
            ('/', seq!['6', '0']),
            ('\\', seq!['7', '6']),
            ('&', seq!['7', '7']),
            ('*', seq!['8', '6']),
            ('#', seq!['8', '7']),
            (' ', seq!['8', '8']),
            ('1', seq!['9', '6']),
            ('2', seq!['9', '7']),
            ('3', seq!['9', '8']),
            ('4', seq!['9', '9']),
            ('5', seq!['9', '0']),
            ('6', seq!['0', '6']),
            ('7', seq!['0', '7']),
            ('8', seq!['0', '8']),
            ('9', seq!['0', '9']),
            ('0', seq!['0', '0']),
            ('が', seq!['2', '1', '0', '4']),
            ('ぎ', seq!['2', '2', '0', '4']),
            ('ぐ', seq!['2', '3', '0', '4']),
            ('げ', seq!['2', '4', '0', '4']),
            ('ご', seq!['2', '5', '0', '4']),
            ('ざ', seq!['3', '1', '0', '4']),
            ('じ', seq!['3', '2', '0', '4']),
            ('ず', seq!['3', '3', '0', '4']),
            ('ぜ', seq!['3', '4', '0', '4']),
            ('ぞ', seq!['3', '5', '0', '4']),
            ('だ', seq!['4', '1', '0', '4']),
            ('ぢ', seq!['4', '2', '0', '4']),
            ('づ', seq!['4', '3', '0', '4']),
            ('で', seq!['4', '4', '0', '4']),
            ('ど', seq!['4', '5', '0', '4']),
            ('ば', seq!['6', '1', '0', '4']),
            ('び', seq!['6', '2', '0', '4']),
            ('ぶ', seq!['6', '3', '0', '4']),
            ('べ', seq!['6', '4', '0', '4']),
            ('ぼ', seq!['6', '5', '0', '4']),
            ('ぱ', seq!['6', '1', '0', '5']),
            ('ぴ', seq!['6', '2', '0', '5']),
            ('ぷ', seq!['6', '3', '0', '5']),
            ('ぺ', seq!['6', '4', '0', '5']),
            ('ぽ', seq!['6', '5', '0', '5']),
        ],
{
    reveal_strlit("00");
    reveal_strlit("01");
    reveal_strlit("02");
    reveal_strlit("03");
    reveal_strlit("04");
    reveal_strlit("05");
    reveal_strlit("06");
    reveal_strlit("07");
    reveal_strlit("08");
    reveal_strlit("09");
    reveal_strlit("10");
    reveal_strlit("11");
    reveal_strlit("12");
    reveal_strlit("13");
    reveal_strlit("14");
    reveal_strlit("15");
    reveal_strlit("16");
    reveal_strlit("17");
    reveal_strlit("18");
    reveal_strlit("19");
    reveal_strlit("20");
    reveal_strlit("21");
    reveal_strlit("2104");
    reveal_strlit("22");
    reveal_strlit("2204");
    reveal_strlit("23");
    reveal_strlit("2304");
    reveal_strlit("24");
    reveal_strlit("2404");
    reveal_strlit("25");
    reveal_strlit("2504");
    reveal_strlit("26");
    reveal_strlit("27");
    reveal_strlit("28");
    reveal_strlit("29");
    reveal_strlit("30");
    reveal_strlit("31");
    reveal_strlit("3104");
    reveal_strlit("32");
    reveal_strlit("3204");
    reveal_strlit("33");
    reveal_strlit("3304");
    reveal_strlit("34");
    reveal_strlit("3404");
    reveal_strlit("35");
    reveal_strlit("3504");
    reveal_strlit("36");
    reveal_strlit("37");
    reveal_strlit("38");
    reveal_strlit("39");
    reveal_strlit("40");
    reveal_strlit("41");
    reveal_strlit("4104");
    reveal_strlit("42");
    reveal_strlit("4204");
    reveal_strlit("43");
    reveal_strlit("4304");
    reveal_strlit("44");
    reveal_strlit("4404");
    reveal_strlit("45");
    reveal_strlit("4504");
    reveal_strlit("46");
    reveal_strlit("47");
    reveal_strlit("48");
    reveal_strlit("49");
    reveal_strlit("50");
    reveal_strlit("51");
    reveal_strlit("52");
    reveal_strlit("53");
    reveal_strlit("54");
    reveal_strlit("55");
    reveal_strlit("56");
    reveal_strlit("57");
    reveal_strlit("58");
    reveal_strlit("59");
    reveal_strlit("60");
    reveal_strlit("61");
    reveal_strlit("6104");
    reveal_strlit("6105");
    reveal_strlit("62");
    reveal_strlit("6204");
    reveal_strlit("6205");
    reveal_strlit("63");
    reveal_strlit("6304");
    reveal_strlit("6305");
    reveal_strlit("64");
    reveal_strlit("6404");
    reveal_strlit("6405");
    reveal_strlit("65");
    reveal_strlit("6504");
    reveal_strlit("6505");
    reveal_strlit("66");
    reveal_strlit("67");
    reveal_strlit("68");
    reveal_strlit("69");
    reveal_strlit("71");
    reveal_strlit("72");
    reveal_strlit("73");
    reveal_strlit("74");
    reveal_strlit("75");
    reveal_strlit("76");
    reveal_strlit("77");
    reveal_strlit("81");
    reveal_strlit("82");
    reveal_strlit("83");
    reveal_strlit("84");
    reveal_strlit("85");
    reveal_strlit("86");
    reveal_strlit("87");
    reveal_strlit("88");
    reveal_strlit("90");
    reveal_strlit("91");
    reveal_strlit("92");
    reveal_strlit("93");
    reveal_strlit("94");
    reveal_strlit("95");
    reveal_strlit("96");
    reveal_strlit("97");
    reveal_strlit("98");
    reveal_strlit("99");
    assert(code_map() =~~= seq![
        ('あ', seq!['1', '1']),
        ('い', seq!['1', '2']),
        ('う', seq!['1', '3']),
        ('え', seq!['1', '4']),
        ('お', seq!['1', '5']),
        ('か', seq!['2', '1']),
        ('き', seq!['2', '2']),
        ('く', seq!['2', '3']),
        ('け', seq!['2', '4']),
        ('こ', seq!['2', '5']),
        ('さ', seq!['3', '1']),
        ('し', seq!['3', '2']),
        ('す', seq!['3', '3']),
        ('せ', seq!['3', '4']),
        ('そ', seq!['3', '5']),
        ('た', seq!['4', '1']),
        ('ち', seq!['4', '2']),
        ('つ', seq!['4', '3']),
        ('て', seq!['4', '4']),
        ('と', seq!['4', '5']),
        ('な', seq!['5', '1']),
        ('に', seq!['5', '2']),
        ('ぬ', seq!['5', '3']),
        ('ね', seq!['5', '4']),
        ('の', seq!['5', '5']),
        ('は', seq!['6', '1']),
        ('ひ', seq!['6', '2']),
        ('ふ', seq!['6', '3']),
        ('へ', seq!['6', '4']),
        ('ほ', seq!['6', '5']),
        ('ま', seq!['7', '1']),
        ('み', seq!['7', '2']),
        ('む', seq!['7', '3']),
        ('め', seq!['7', '4']),
        ('も', seq!['7', '5']),
        ('や', seq!['8', '1']),
        ('(', seq!['8', '2']),
        ('ゆ', seq!['8', '3']),
        (')', seq!['8', '4']),
        ('よ', seq!['8', '5']),
        ('ら', seq!['9', '1']),
        ('り', seq!['9', '2']),
        ('る', seq!['9', '3']),
        ('れ', seq!['9', '4']),
        ('ろ', seq!['9', '5']),
        ('わ', seq!['0', '1']),
        ('を', seq!['0', '2']),
        ('ん', seq!['0', '3']),
        ('゛', seq!['0', '4']),
        ('゜', seq!['0', '5']),
        ('A', seq!['1', '6']),
        ('B', seq!['1', '7']),
        ('C', seq!['1', '8']),
        ('D', seq!['1', '9']),
        ('E', seq!['1', '0']),
        ('F', seq!['2', '6']),
        ('G', seq!['2', '7']),
        ('H', seq!['2', '8']),
        ('I', seq!['2', '9']),
        ('J', seq!['2', '0']),
        ('K', seq!['3', '6']),
        ('L', seq!['3', '7']),
        ('M', seq!['3', '8']),
        ('N', seq!['3', '9']),
        ('O', seq!['3', '0']),
        ('P', seq!['4', '6']),
        ('Q', seq!['4', '7']),
        ('R', seq!['4', '8']),
        ('S', seq!['4', '9']),
        ('T', seq!['4', '0']),
        ('U', seq!['5', '6']),
        ('V', seq!['5', '7']),
        ('W', seq!['5', '8']),
        ('X', seq!['5', '9']),
        ('Y', seq!['5', '0']),
        ('Z', seq!['6', '6']),
        ('?', seq!['6', '7']),
        ('!', seq!['6', '8']),
        ('-', seq!['6', '9']),
        ('/', seq!['6', '0']),
        ('\\', seq!['7', '6']),
        ('&', seq!['7', '7']),
        ('*', seq!['8', '6']),
        ('#', seq!['8', '7']),
        (' ', seq!['8', '8']),
        ('1', seq!['9', '6']),
        ('2', seq!['9', '7']),
        ('3', seq!['9', '8']),
        ('4', seq!['9', '9']),
        ('5', seq!['9', '0']),
        ('6', seq!['0', '6']),
        ('7', seq!['0', '7']),
        ('8', seq!['0', '8']),
        ('9', seq!['0', '9']),
        ('0', seq!['0', '0']),
        ('が', seq!['2', '1', '0', '4']),
        ('ぎ', seq!['2', '2', '0', '4']),
        ('ぐ', seq!['2', '3', '0', '4']),
        ('げ', seq!['2', '4', '0', '4']),
        ('ご', seq!['2', '5', '0', '4']),
        ('ざ', seq!['3', '1', '0', '4']),
        ('じ', seq!['3', '2', '0', '4']),
        ('ず', seq!['3', '3', '0', '4']),
        ('ぜ', seq!['3', '4', '0', '4']),
        ('ぞ', seq!['3', '5', '0', '4']),
        ('だ', seq!['4', '1', '0', '4']),
        ('ぢ', seq!['4', '2', '0', '4']),
        ('づ', seq!['4', '3', '0', '4']),
        ('で', seq!['4', '4', '0', '4']),
        ('ど', seq!['4', '5', '0', '4']),
        ('ば', seq!['6', '1', '0', '4']),
        ('び', seq!['6', '2', '0', '4']),
        ('ぶ', seq!['6', '3', '0', '4']),
        ('べ', seq!['6', '4', '0', '4']),
        ('ぼ', seq!['6', '5', '0', '4']),
        ('ぱ', seq!['6', '1', '0', '5']),
        ('ぴ', seq!['6', '2', '0', '5']),
        ('ぷ', seq!['6', '3', '0', '5']),
        ('ぺ', seq!['6', '4', '0', '5']),
        ('ぽ', seq!['6', '5', '0', '5']),
    ]);
}
/// The row of the character table that holds `c`, or -1.
spec fn char_rank(c: char) -> int {
    match c {
        'あ' => 0,
        'い' => 1,
        'う' => 2,
        'え' => 3,
        'お' => 4,
        'か' => 5,
        'き' => 6,
        'く' => 7,
        'け' => 8,
        'こ' => 9,
        'さ' => 10,
        'し' => 11,
        'す' => 12,
        'せ' => 13,
        'そ' => 14,
        'た' => 15,
        'ち' => 16,
        'つ' => 17,
        'て' => 18,
        'と' => 19,
        'な' => 20,
        'に' => 21,
        'ぬ' => 22,
        'ね' => 23,
        'の' => 24,
        'は' => 25,
        'ひ' => 26,
        'ふ' => 27,
        'へ' => 28,
        'ほ' => 29,
        'ま' => 30,
        'み' => 31,
        'む' => 32,
        'め' => 33,
        'も' => 34,
        'や' => 35,
        '(' => 36,
        'ゆ' => 37,
        ')' => 38,
        'よ' => 39,
        'ら' => 40,
        'り' => 41,
        'る' => 42,
        'れ' => 43,
        'ろ' => 44,
        'わ' => 45,
        'を' => 46,
        'ん' => 47,
        '゛' => 48,
        '゜' => 49,
        'A' => 50,
        'B' => 51,
        'C' => 52,
        'D' => 53,
        'E' => 54,
        'F' => 55,
        'G' => 56,
        'H' => 57,
        'I' => 58,
        'J' => 59,
        'K' => 60,
        'L' => 61,
        'M' => 62,
        'N' => 63,
        'O' => 64,
        'P' => 65,
        'Q' => 66,
        'R' => 67,
        'S' => 68,
        'T' => 69,
        'U' => 70,
        'V' => 71,
        'W' => 72,
        'X' => 73,
        'Y' => 74,
        'Z' => 75,
        '?' => 76,
        '!' => 77,
        '-' => 78,
        '/' => 79,
        '\\' => 80,
        '&' => 81,
        '*' => 82,
        '#' => 83,
        ' ' => 84,
        '1' => 85,
        '2' => 86,
        '3' => 87,
        '4' => 88,
        '5' => 89,
        '6' => 90,
        '7' => 91,
        '8' => 92,
        '9' => 93,
        '0' => 94,
        'が' => 95,
        'ぎ' => 96,
        'ぐ' => 97,
        'げ' => 98,
        'ご' => 99,
        'ざ' => 100,
        'じ' => 101,
        'ず' => 102,
        'ぜ' => 103,
        'ぞ' => 104,
        'だ' => 105,
        'ぢ' => 106,
        'づ' => 107,
        'で' => 108,
        'ど' => 109,
        'ば' => 110,
        'び' => 111,
        'ぶ' => 112,
        'べ' => 113,
        'ぼ' => 114,
        'ぱ' => 115,
        'ぴ' => 116,
        'ぷ' => 117,
        'ぺ' => 118,
        'ぽ' => 119,
        _ => -1,
    }
}

/// The row of the character table that holds the code `k`, or -1.
spec fn code_rank(k: Seq<char>) -> int {
    if k.len() == 2 {
        match (k[0], k[1]) {
            ('1', '1') => 0,
            ('1', '2') => 1,
            ('1', '3') => 2,
            ('1', '4') => 3,
            ('1', '5') => 4,
            ('2', '1') => 5,
            ('2', '2') => 6,
            ('2', '3') => 7,
            ('2', '4') => 8,
            ('2', '5') => 9,
            ('3', '1') => 10,
            ('3', '2') => 11,
            ('3', '3') => 12,
            ('3', '4') => 13,
            ('3', '5') => 14,
            ('4', '1') => 15,
            ('4', '2') => 16,
            ('4', '3') => 17,
            ('4', '4') => 18,
            ('4', '5') => 19,
            ('5', '1') => 20,
            ('5', '2') => 21,
            ('5', '3') => 22,
            ('5', '4') => 23,
            ('5', '5') => 24,
            ('6', '1') => 25,
            ('6', '2') => 26,
            ('6', '3') => 27,
            ('6', '4') => 28,
            ('6', '5') => 29,
            ('7', '1') => 30,
            ('7', '2') => 31,
            ('7', '3') => 32,
            ('7', '4') => 33,
            ('7', '5') => 34,
            ('8', '1') => 35,
            ('8', '2') => 36,
            ('8', '3') => 37,
            ('8', '4') => 38,
            ('8', '5') => 39,
            ('9', '1') => 40,
            ('9', '2') => 41,
            ('9', '3') => 42,
            ('9', '4') => 43,
            ('9', '5') => 44,
            ('0', '1') => 45,
            ('0', '2') => 46,
            ('0', '3') => 47,
            ('0', '4') => 48,
            ('0', '5') => 49,
            ('1', '6') => 50,
            ('1', '7') => 51,
            ('1', '8') => 52,
            ('1', '9') => 53,
            ('1', '0') => 54,
            ('2', '6') => 55,
            ('2', '7') => 56,
            ('2', '8') => 57,
            ('2', '9') => 58,
            ('2', '0') => 59,
            ('3', '6') => 60,
            ('3', '7') => 61,
            ('3', '8') => 62,
            ('3', '9') => 63,
            ('3', '0') => 64,
            ('4', '6') => 65,
            ('4', '7') => 66,
            ('4', '8') => 67,
            ('4', '9') => 68,
            ('4', '0') => 69,
            ('5', '6') => 70,
            ('5', '7') => 71,
            ('5', '8') => 72,
            ('5', '9') => 73,
            ('5', '0') => 74,
            ('6', '6') => 75,
            ('6', '7') => 76,
            ('6', '8') => 77,
            ('6', '9') => 78,
            ('6', '0') => 79,
            ('7', '6') => 80,
            ('7', '7') => 81,
            ('8', '6') => 82,
            ('8', '7') => 83,
            ('8', '8') => 84,
            ('9', '6') => 85,
            ('9', '7') => 86,
            ('9', '8') => 87,
            ('9', '9') => 88,
            ('9', '0') => 89,
            ('0', '6') => 90,
            ('0', '7') => 91,
            ('0', '8') => 92,
            ('0', '9') => 93,
            ('0', '0') => 94,
            _ => -1,
        }
    } else if k.len() == 4 {
        match (k[0], k[1], k[2], k[3]) {
            ('2', '1', '0', '4') => 95,
            ('2', '2', '0', '4') => 96,
            ('2', '3', '0', '4') => 97,
            ('2', '4', '0', '4') => 98,
            ('2', '5', '0', '4') => 99,
            ('3', '1', '0', '4') => 100,
            ('3', '2', '0', '4') => 101,
            ('3', '3', '0', '4') => 102,
            ('3', '4', '0', '4') => 103,
            ('3', '5', '0', '4') => 104,
            ('4', '1', '0', '4') => 105,
            ('4', '2', '0', '4') => 106,
            ('4', '3', '0', '4') => 107,
            ('4', '4', '0', '4') => 108,
            ('4', '5', '0', '4') => 109,
            ('6', '1', '0', '4') => 110,
            ('6', '2', '0', '4') => 111,
            ('6', '3', '0', '4') => 112,
            ('6', '4', '0', '4') => 113,
            ('6', '5', '0', '4') => 114,
            ('6', '1', '0', '5') => 115,
            ('6', '2', '0', '5') => 116,
            ('6', '3', '0', '5') => 117,
            ('6', '4', '0', '5') => 118,
            ('6', '5', '0', '5') => 119,
            _ => -1,
        }
    } else {
        -1
    }
}

spec fn code_row_facts(j: int) -> bool {
    &&& char_rank(code_map()[j].0) == j
    &&& code_rank(code_map()[j].1) == j
    &&& !('a' <= code_map()[j].0 && code_map()[j].0 <= 'z')
    &&& forall|d: int| 0 <= d < code_map()[j].1.len() ==> is_digit(#[trigger] code_map()[j].1[d])
}

/// Each row of the character table is found again by its character and by its code.
#[verifier::rlimit(100)]
proof fn lemma_code_rows()
    ensures
        code_map().len() == 120,
        forall|j: int| 0 <= j < code_map().len() ==> #[trigger] code_row_facts(j),
{
    lemma_code_map_digits();
    assert forall|j: int| 0 <= j < code_map().len() implies #[trigger] code_row_facts(j) by {
        if j == 0 {
        } else if j == 1 {
        } else if j == 2 {
        } else if j == 3 {
        } else if j == 4 {
        } else if j == 5 {
        } else if j == 6 {
        } else if j == 7 {
        } else if j == 8 {
        } else if j == 9 {
        } else if j == 10 {
        } else if j == 11 {
        } else if j == 12 {
        } else if j == 13 {
        } else if j == 14 {
        } else if j == 15 {
        } else if j == 16 {
        } else if j == 17 {
        } else if j == 18 {
        } else if j == 19 {
        } else if j == 20 {
        } else if j == 21 {
        } else if j == 22 {
        } else if j == 23 {
        } else if j == 24 {
        } else if j == 25 {
        } else if j == 26 {
        } else if j == 27 {
        } else if j == 28 {
        } else if j == 29 {
        } else if j == 30 {
        } else if j == 31 {
        } else if j == 32 {
        } else if j == 33 {
        } else if j == 34 {
        } else if j == 35 {
        } else if j == 36 {
        } else if j == 37 {
        } else if j == 38 {
        } else if j == 39 {
        } else if j == 40 {
        } else if j == 41 {
        } else if j == 42 {
        } else if j == 43 {
        } else if j == 44 {
        } else if j == 45 {
        } else if j == 46 {
        } else if j == 47 {
        } else if j == 48 {
        } else if j == 49 {
        } else if j == 50 {
        } else if j == 51 {
        } else if j == 52 {
        } else if j == 53 {
        } else if j == 54 {
        } else if j == 55 {
        } else if j == 56 {
        } else if j == 57 {
        } else if j == 58 {
        } else if j == 59 {
        } else if j == 60 {
        } else if j == 61 {
        } else if j == 62 {
        } else if j == 63 {
        } else if j == 64 {
        } else if j == 65 {
        } else if j == 66 {
        } else if j == 67 {
        } else if j == 68 {
        } else if j == 69 {
        } else if j == 70 {
        } else if j == 71 {
        } else if j == 72 {
        } else if j == 73 {
        } else if j == 74 {
        } else if j == 75 {
        } else if j == 76 {
        } else if j == 77 {
        } else if j == 78 {
        } else if j == 79 {
        } else if j == 80 {
        } else if j == 81 {
        } else if j == 82 {
        } else if j == 83 {
        } else if j == 84 {
        } else if j == 85 {
        } else if j == 86 {
        } else if j == 87 {
        } else if j == 88 {
        } else if j == 89 {
        } else if j == 90 {
        } else if j == 91 {
        } else if j == 92 {
        } else if j == 93 {
        } else if j == 94 {
        } else if j == 95 {
        } else if j == 96 {
        } else if j == 97 {
        } else if j == 98 {
        } else if j == 99 {
        } else if j == 100 {
        } else if j == 101 {
        } else if j == 102 {
        } else if j == 103 {
        } else if j == 104 {
        } else if j == 105 {
        } else if j == 106 {
        } else if j == 107 {
        } else if j == 108 {
        } else if j == 109 {
        } else if j == 110 {
        } else if j == 111 {
        } else if j == 112 {
        } else if j == 113 {
        } else if j == 114 {
        } else if j == 115 {
        } else if j == 116 {
        } else if j == 117 {
        } else if j == 118 {
        } else if j == 119 {
        }
    }
}

/// No variant character of the normalization table is a canonical character.
#[verifier::rlimit(100)]
proof fn lemma_normalization_rows()
    ensures
        forall|m: int|
            0 <= m < normalization_table().len() ==> char_rank(
                #[trigger] normalization_table()[m].0,
            ) == -1,
{
}

/// No phrase is a single canonical character, and every phrase starts with a character
/// that is not a digit.
#[verifier::rlimit(100)]
proof fn lemma_phrase_rows()
    ensures
        forall|p: int|
            0 <= p < phrase_table().len() ==> (#[trigger] phrase_table()[p]).0@.len() != 1
                || char_rank(phrase_table()[p].0@[0]) == -1,
        forall|p: int|
            0 <= p < phrase_table().len() ==> (#[trigger] phrase_table()[p]).0@.len() > 0
                && !is_digit(phrase_table()[p].0@[0]),
{
    reveal_strlit("今");
    reveal_strlit("いま");
    reveal_strlit("海");
    reveal_strlit("うみ");
    reveal_strlit("シー");
    reveal_strlit("しー");
    reveal_strlit("至急");
    reveal_strlit("しきゅう");
    reveal_strlit("待ってる");
    reveal_strlit("まってる");
    reveal_strlit("TEL");
    reveal_strlit("ＴＥＬ");
    reveal_strlit("テル");
    reveal_strlit("遅れてる");
    reveal_strlit("おくれてる");
    reveal_strlit("愛してる");
    reveal_strlit("あいしてる");
    reveal_strlit("何してる");
    reveal_strlit("なにしてる");
    reveal_strlit("起きてる");
    reveal_strlit("おきてる");
    reveal_strlit("行くよ");
    reveal_strlit("いくよ");
    reveal_strlit("池袋");
    reveal_strlit("いけぶくろ");
    reveal_strlit("渋谷");
    reveal_strlit("しぶや");
    reveal_strlit("おやすみ");
    reveal_strlit("おはよう");
    reveal_strlit("ハロー");
    reveal_strlit("はやく");
    reveal_strlit("早く");
    reveal_strlit("サンキュー");
    reveal_strlit("Thank you");
    reveal_strlit("thank you");
    reveal_strlit("会えない");
    reveal_strlit("あえない");
    reveal_strlit("さよなら");
    reveal_strlit("寒いよ");
    reveal_strlit("さむいよ");
    reveal_strlit("仕事");
    reveal_strlit("しごと");
    reveal_strlit("横浜");
    reveal_strlit("よこはま");
    reveal_strlit("よろしく");
    reveal_strlit("ファイト");
    reveal_strlit("お仕事ファイト");
    reveal_strlit("おしごとふぁいと");
    reveal_strlit("ふぁいと");
    reveal_strlit("ご苦労さん");
    reveal_strlit("ごくろうさん");
    reveal_strlit("バイト");
    reveal_strlit("ばいと");
    reveal_strlit("バイバイ");
    reveal_strlit("ばいばい");
    reveal_strlit("今どこ");
    reveal_strlit("いまどこ");
    reveal_strlit("会いたいよ");
    reveal_strlit("あいたいよ");
    reveal_strlit("着いたよ");
    reveal_strlit("ついたよ");
    reveal_strlit("寂しいよ");
    reveal_strlit("さびしいよ");
    reveal_strlit("デートしよ");
    reveal_strlit("でーとしよ");
    reveal_strlit("TEL欲しい");
    reveal_strlit("TELほしい");
    reveal_strlit("ごめんなさい");
    reveal_strlit("早くして");
    reveal_strlit("はやくして");
    reveal_strlit("どこにいるの");
    reveal_strlit("今から行くよ");
    reveal_strlit("いまからいくよ");
    reveal_strlit("ボウリング行こ");
    reveal_strlit("ボウリングいこ");
    reveal_strlit("遅れる");
    reveal_strlit("おくれる");
    reveal_strlit("ずっと一緒にいようね");
    reveal_strlit("ずっと一緒にいよーね");
    reveal_strlit("ずっといっしょにいようね");
    reveal_strlit("ずっといっしょにいよーね");
}

proof fn lemma_first_match_some<K, V>(t: Seq<(K, V)>, k: K) -> (i: int)
    requires
        first_match(t, k) is Some,
    ensures
        0 <= i < t.len(),
        t[i].0 == k,
        first_match(t, k) == Some(t[i].1),
    decreases t.len(),
{
    if t[0].0 == k {
        0
    } else {
        let i = lemma_first_match_some(t.drop_first(), k);
        i + 1
    }
}

proof fn lemma_first_match_at<K, V>(t: Seq<(K, V)>, k: K, i: int)
    requires
        0 <= i < t.len(),
        t[i].0 == k,
        forall|j: int| 0 <= j < i ==> #[trigger] t[j].0 != k,
    ensures
        first_match(t, k) == Some(t[i].1),
    decreases i,
{
    if i > 0 {
        assert(t[0].0 != k);
        assert forall|j: int| 0 <= j < i - 1 implies #[trigger] t.drop_first()[j].0 != k by {
            assert(t[j + 1].0 != k);
        }
        lemma_first_match_at(t.drop_first(), k, i - 1);
    }
}

proof fn lemma_first_match_none<K, V>(t: Seq<(K, V)>, k: K)
    requires
        forall|j: int| 0 <= j < t.len() ==> #[trigger] t[j].0 != k,
    ensures
        first_match(t, k) is None,
    decreases t.len(),
{
    if t.len() > 0 {
        assert(t[0].0 != k);
        assert forall|j: int| 0 <= j < t.len() - 1 implies #[trigger] t.drop_first()[j].0 != k by {
            assert(t[j + 1].0 != k);
        }
        lemma_first_match_none(t.drop_first(), k);
    }
}

proof fn lemma_phrase_rows_none(t: Seq<(&'static str, &'static str)>, s: Seq<char>)
    requires
        forall|p: int| 0 <= p < t.len() ==> (#[trigger] t[p]).0@ != s,
    ensures
        phrase_rows(t, s).len() == 0,
    decreases t.len(),
{
    if t.len() > 0 {
        assert(t[t.len() - 1].0@ != s);
        assert forall|p: int| 0 <= p < t.len() - 1 implies (#[trigger] t.drop_last()[p]).0@ != s by {
            assert(t[p].0@ != s);
        }
        lemma_phrase_rows_none(t.drop_last(), s);
    }
}

/// Encoding a character of the table on its own gives its code alone, and decoding that
/// code gives back the character in canonical form, for every character whose code is
/// one pair of digits. (A voiced kana decodes as two characters, its base and the mark.)
pub proof fn lemma_round_trip(c: char)
    requires
        code_of(c) is Some,
        code_of(c)->0.len() == 2,
    ensures
        normalized(ascii_upper(c)) == c,
        encode_spec(seq![c]) == Some(seq![code_of(c)->0]),
        decode_spec(code_of(c)->0) == Some(seq![normalized(ascii_upper(c))]),
{
    lemma_code_rows();
    lemma_normalization_rows();
    lemma_phrase_rows();
    let cm = code_map();
    let i = lemma_first_match_some(cm, c);
    let k = cm[i].1;
    assert(code_row_facts(i));
    assert(ascii_upper(c) == c);
    assert forall|m: int| 0 <= m < normalization_table().len() implies #[trigger] normalization_table()[m].0 != c by {
        assert(char_rank(normalization_table()[m].0) == -1);
    }
    lemma_first_match_none(normalization_table(), c);
    assert(normalized(ascii_upper(c)) == c);
    assert forall|p: int| 0 <= p < phrase_table().len() implies (#[trigger] phrase_table()[p]).0@ != seq![c] by {
        if phrase_table()[p].0@ == seq![c] {
            assert(phrase_table()[p].0@[0] == c);
        }
    }
    lemma_phrase_rows_none(phrase_table(), seq![c]);
    assert(seq![c].drop_last() =~= Seq::<char>::empty());
    assert(text_code(Seq::<char>::empty()) == Some(Seq::<char>::empty()));
    assert(Seq::<char>::empty() + k =~= k);
    assert(text_code(seq![c]) == Some(k));
    assert(phrase_codes(seq![c]).push(k) =~= seq![k]);
    let icm = inverse_code_map();
    assert forall|j: int| 0 <= j < i implies #[trigger] icm[j].0 != k by {
        assert(code_row_facts(j));
    }
    lemma_first_match_at(icm, k, i);
    assert(k.subrange(0, 2) =~= k);
    assert(seq![c] =~= Seq::<char>::empty().push(c));
    assert(pairs_decoded(k, 0) == Some(Seq::<char>::empty()));
    assert(pairs_decoded(k, 1) == Some(seq![c]));
}

/// Decoding a code of one pair of digits and encoding the text that comes out gives back
/// that code alone.
pub proof fn lemma_reencode_decoded(k: Seq<char>)
    requires
        k.len() == 2,
        decode_spec(k) is Some,
    ensures
        encode_spec(decode_spec(k)->0) == Some(seq![k]),
{
    lemma_code_rows();
    assert(k.subrange(0, 2) =~= k);
    assert(pairs_decoded(k, 1) is Some);
    let icm = inverse_code_map();
    let i = lemma_first_match_some(icm, k);
    let c = icm[i].1;
    let cm = code_map();
    assert(code_row_facts(i));
    assert forall|j: int| 0 <= j < i implies #[trigger] cm[j].0 != c by {
        assert(code_row_facts(j));
    }
    lemma_first_match_at(cm, c, i);
    lemma_round_trip(c);
    assert(decode_spec(k)->0 =~= seq![c]);
}

/// No two rows of the character table share a character or a code, so reading the
/// table from code to character is its exact inverse.
pub proof fn lemma_codes_unique(i: int, j: int)
    requires
        0 <= i < code_map().len(),
        0 <= j < code_map().len(),
        i != j,
    ensures
        code_map()[i].0 != code_map()[j].0,
        code_map()[i].1 != code_map()[j].1,
        char_of_code(code_map()[i].1) == Some(code_map()[i].0),
{
    lemma_code_rows();
    assert(code_row_facts(i));
    assert(code_row_facts(j));
    let icm = inverse_code_map();
    assert forall|m: int| 0 <= m < i implies #[trigger] icm[m].0 != code_map()[i].1 by {
        assert(code_row_facts(m));
    }
    lemma_first_match_at(icm, code_map()[i].1, i);
}

/// The row of the normalization table that holds the variant `c`, or -1.
spec fn variant_rank(c: char) -> int {
    match c {
        'ぁ' => 0,
        'ぃ' => 1,
        'ぅ' => 2,
        'ぇ' => 3,
        'ぉ' => 4,
        'っ' => 5,
        'ゃ' => 6,
        'ゅ' => 7,
        'ょ' => 8,
        '（' => 9,
        '）' => 10,
        'Ａ' => 11,
        'Ｂ' => 12,
        'Ｃ' => 13,
        'Ｄ' => 14,
        'Ｅ' => 15,
        'Ｆ' => 16,
        'Ｇ' => 17,
        'Ｈ' => 18,
        'Ｉ' => 19,
        'Ｊ' => 20,
        'Ｋ' => 21,
        'Ｌ' => 22,
        'Ｍ' => 23,
        'Ｎ' => 24,
        'Ｏ' => 25,
        'Ｐ' => 26,
        'Ｑ' => 27,
        'Ｒ' => 28,
        'Ｓ' => 29,
        'Ｔ' => 30,
        'Ｕ' => 31,
        'Ｖ' => 32,
        'Ｗ' => 33,
        'Ｘ' => 34,
        'Ｙ' => 35,
        'Ｚ' => 36,
        '？' => 37,
        '！' => 38,
        '－' => 39,
        '／' => 40,
        '￥' => 41,
        '＆' => 42,
        '＊' => 43,
        '＃' => 44,
        '　' => 45,
        '１' => 46,
        '２' => 47,
        '３' => 48,
        '４' => 49,
        '５' => 50,
        '６' => 51,
        '７' => 52,
        '８' => 53,
        '９' => 54,
        '０' => 55,
        'ー' => 56,
        _ => -1,
    }
}

/// Each row of the normalization table is found again by its variant character.
#[verifier::rlimit(100)]
proof fn lemma_normalization_ranks()
    ensures
        normalization_table().len() == 57,
        forall|m: int|
            0 <= m < normalization_table().len() ==> variant_rank(
                #[trigger] normalization_table()[m].0,
            ) == m,
{
    assert forall|m: int| 0 <= m < normalization_table().len() implies variant_rank(
        #[trigger] normalization_table()[m].0,
    ) == m by {
        if m == 0 {
        } else if m == 1 {
        } else if m == 2 {
        } else if m == 3 {
        } else if m == 4 {
        } else if m == 5 {
        } else if m == 6 {
        } else if m == 7 {
        } else if m == 8 {
        } else if m == 9 {
        } else if m == 10 {
        } else if m == 11 {
        } else if m == 12 {
        } else if m == 13 {
        } else if m == 14 {
        } else if m == 15 {
        } else if m == 16 {
        } else if m == 17 {
        } else if m == 18 {
        } else if m == 19 {
        } else if m == 20 {
        } else if m == 21 {
        } else if m == 22 {
        } else if m == 23 {
        } else if m == 24 {
        } else if m == 25 {
        } else if m == 26 {
        } else if m == 27 {
        } else if m == 28 {
        } else if m == 29 {
        } else if m == 30 {
        } else if m == 31 {
        } else if m == 32 {
        } else if m == 33 {
        } else if m == 34 {
        } else if m == 35 {
        } else if m == 36 {
        } else if m == 37 {
        } else if m == 38 {
        } else if m == 39 {
        } else if m == 40 {
        } else if m == 41 {
        } else if m == 42 {
        } else if m == 43 {
        } else if m == 44 {
        } else if m == 45 {
        } else if m == 46 {
        } else if m == 47 {
        } else if m == 48 {
        } else if m == 49 {
        } else if m == 50 {
        } else if m == 51 {
        } else if m == 52 {
        } else if m == 53 {
        } else if m == 54 {
        } else if m == 55 {
        } else if m == 56 {
        }
    }
}

/// No two rows of the normalization table share a variant character, so looking a
/// character up in it reads a map.
pub proof fn lemma_variants_unique(i: int, j: int)
    requires
        0 <= i < normalization_table().len(),
        0 <= j < normalization_table().len(),
        i != j,
    ensures
        normalization_table()[i].0 != normalization_table()[j].0,
{
    lemma_normalization_ranks();
}

proof fn lemma_code_of_row(i: int)
    requires
        0 <= i < code_map().len(),
    ensures
        code_of(code_map()[i].0) == Some(code_map()[i].1),
{
    lemma_code_rows();
    let cm = code_map();
    assert(code_row_facts(i));
    assert forall|j: int| 0 <= j < i implies #[trigger] cm[j].0 != cm[i].0 by {
        assert(code_row_facts(j));
    }
    lemma_first_match_at(cm, cm[i].0, i);
}

/// A digit is encoded as one pair of digits.
proof fn lemma_digit_code(d: char)
    requires
        is_digit(d),
    ensures
        char_code(d) is Some,
        char_code(d)->0.len() == 2,
{
    lemma_code_map_digits();
    lemma_code_rows();
    lemma_normalization_rows();
    let i: int = if d == '0' {
        94
    } else {
        84 + (d as u32 - '0' as u32)
    };
    assert(code_map()[i].0 == d) by {
        if d == '0' {
        } else if d == '1' {
        } else if d == '2' {
        } else if d == '3' {
        } else if d == '4' {
        } else if d == '5' {
        } else if d == '6' {
        } else if d == '7' {
        } else if d == '8' {
        } else {
        }
    }
    assert(code_row_facts(i));
    assert(ascii_upper(d) == d);
    assert forall|m: int| 0 <= m < normalization_table().len() implies #[trigger] normalization_table()[m].0 != d by {
        assert(char_rank(normalization_table()[m].0) == -1);
    }
    lemma_first_match_none(normalization_table(), d);
    lemma_code_of_row(i);
}

proof fn lemma_digits_text_code(s: Seq<char>)
    requires
        forall|i: int| 0 <= i < s.len() ==> is_digit(#[trigger] s[i]),
    ensures
        text_code(s) is Some,
        text_code(s)->0.len() == 2 * s.len(),
    decreases s.len(),
{
    if s.len() > 0 {
        assert forall|i: int| 0 <= i < s.drop_last().len() implies is_digit(#[trigger] s.drop_last()[i]) by {
            assert(is_digit(s[i]));
        }
        lemma_digits_text_code(s.drop_last());
        assert(is_digit(s[s.len() - 1]));
        lemma_digit_code(s.last());
    }
}

/// Text made only of digits encodes to a single candidate twice as long as the text, so
/// encoding is not idempotent: the candidate differs from the text.
pub proof fn lemma_digits_encode(s: Seq<char>)
    requires
        s.len() > 0,
        forall|i: int| 0 <= i < s.len() ==> is_digit(#[trigger] s[i]),
    ensures
        encode_spec(s) is Some,
        encode_spec(s)->0.len() == 1,
        encode_spec(s)->0[0].len() == 2 * s.len(),
        encode_spec(s)->0[0] != s,
{
    lemma_phrase_rows();
    assert forall|p: int| 0 <= p < phrase_table().len() implies (#[trigger] phrase_table()[p]).0@ != s by {
        if phrase_table()[p].0@ == s {
            assert(is_digit(s[0]));
        }
    }
    lemma_phrase_rows_none(phrase_table(), s);
    lemma_digits_text_code(s);
}

} // verus!
