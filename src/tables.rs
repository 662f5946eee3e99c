use vstd::prelude::*;

verus! {

/// The character table: each canonical character with its code, two digits per key press.
/// A voiced or semi-voiced kana is the code of its base kana followed by the code of the mark.
pub open spec fn code_table() -> Seq<(char, &'static str)> {
    seq![
        ('あ', "11"),
        ('い', "12"),
        ('う', "13"),
        ('え', "14"),
        ('お', "15"),
        ('か', "21"),
        ('き', "22"),
        ('く', "23"),
        ('け', "24"),
        ('こ', "25"),
        ('さ', "31"),
        ('し', "32"),
        ('す', "33"),
        ('せ', "34"),
        ('そ', "35"),
        ('た', "41"),
        ('ち', "42"),
        ('つ', "43"),
        ('て', "44"),
        ('と', "45"),
        ('な', "51"),
        ('に', "52"),
        ('ぬ', "53"),
        ('ね', "54"),
        ('の', "55"),
        ('は', "61"),
        ('ひ', "62"),
        ('ふ', "63"),
        ('へ', "64"),
        ('ほ', "65"),
        ('ま', "71"),
        ('み', "72"),
        ('む', "73"),
        ('め', "74"),
        ('も', "75"),
        ('や', "81"),
        ('(', "82"),
        ('ゆ', "83"),
        (')', "84"),
        ('よ', "85"),
        ('ら', "91"),
        ('り', "92"),
        ('る', "93"),
        ('れ', "94"),
        ('ろ', "95"),
        ('わ', "01"),
        ('を', "02"),
        ('ん', "03"),
        ('゛', "04"),
        ('゜', "05"),
        ('A', "16"),
        ('B', "17"),
        ('C', "18"),
        ('D', "19"),
        ('E', "10"),
        ('F', "26"),
        ('G', "27"),
        ('H', "28"),
        ('I', "29"),
        ('J', "20"),
        ('K', "36"),
        ('L', "37"),
        ('M', "38"),
        ('N', "39"),
        ('O', "30"),
        ('P', "46"),
        ('Q', "47"),
        ('R', "48"),
        ('S', "49"),
        ('T', "40"),
        ('U', "56"),
        ('V', "57"),
        ('W', "58"),
        ('X', "59"),
        ('Y', "50"),
        ('Z', "66"),
        ('?', "67"),
        ('!', "68"),
        ('-', "69"),
        ('/', "60"),
        ('\\', "76"),
        ('&', "77"),
        ('*', "86"),
        ('#', "87"),
        (' ', "88"),
        ('1', "96"),
        ('2', "97"),
        ('3', "98"),
        ('4', "99"),
        ('5', "90"),
        ('6', "06"),
        ('7', "07"),
        ('8', "08"),
        ('9', "09"),
        ('0', "00"),
        ('が', "2104"),
        ('ぎ', "2204"),
        ('ぐ', "2304"),
        ('げ', "2404"),
        ('ご', "2504"),
        ('ざ', "3104"),
        ('じ', "3204"),
        ('ず', "3304"),
        ('ぜ', "3404"),
        ('ぞ', "3504"),
        ('だ', "4104"),
        ('ぢ', "4204"),
        ('づ', "4304"),
        ('で', "4404"),
        ('ど', "4504"),
        ('ば', "6104"),
        ('び', "6204"),
        ('ぶ', "6304"),
        ('べ', "6404"),
        ('ぼ', "6504"),
        ('ぱ', "6105"),
        ('ぴ', "6205"),
        ('ぷ', "6305"),
        ('ぺ', "6405"),
        ('ぽ', "6505"),
    ]
}

/// Variant characters (small kana, full-width forms, the long vowel mark) and the canonical
/// character each one is encoded as.
pub open spec fn normalization_table() -> Seq<(char, char)> {
    seq![
        ('ぁ', 'あ'),
        ('ぃ', 'い'),
        ('ぅ', 'う'),
        ('ぇ', 'え'),
        ('ぉ', 'お'),
        ('っ', 'つ'),
        ('ゃ', 'や'),
        ('ゅ', 'ゆ'),
        ('ょ', 'よ'),
        ('（', '('),
        ('）', ')'),
        ('Ａ', 'A'),
        ('Ｂ', 'B'),
        ('Ｃ', 'C'),
        ('Ｄ', 'D'),
        ('Ｅ', 'E'),
        ('Ｆ', 'F'),
        ('Ｇ', 'G'),
        ('Ｈ', 'H'),
        ('Ｉ', 'I'),
        ('Ｊ', 'J'),
        ('Ｋ', 'K'),
        ('Ｌ', 'L'),
        ('Ｍ', 'M'),
        ('Ｎ', 'N'),
        ('Ｏ', 'O'),
        ('Ｐ', 'P'),
        ('Ｑ', 'Q'),
        ('Ｒ', 'R'),
        ('Ｓ', 'S'),
        ('Ｔ', 'T'),
        ('Ｕ', 'U'),
        ('Ｖ', 'V'),
        ('Ｗ', 'W'),
        ('Ｘ', 'X'),
        ('Ｙ', 'Y'),
        ('Ｚ', 'Z'),
        ('？', '?'),
        ('！', '!'),
        ('－', '-'),
        ('／', '/'),
        ('￥', '\\'),
        ('＆', '&'),
        ('＊', '*'),
        ('＃', '#'),
        ('　', ' '),
        ('１', '1'),
        ('２', '2'),
        ('３', '3'),
        ('４', '4'),
        ('５', '5'),
        ('６', '6'),
        ('７', '7'),
        ('８', '8'),
        ('９', '9'),
        ('０', '0'),
        ('ー', '-'),
    ]
}

/// Phrases with their conventional shorthand codes. A phrase with several shorthands has
/// one row per shorthand, in order of preference.
pub open spec fn phrase_table() -> Seq<(&'static str, &'static str)> {
    seq![
        ("今", "10"),
        ("いま", "10"),
        ("海", "41"),
        ("うみ", "41"),
        ("シー", "41"),
        ("しー", "41"),
        ("至急", "49"),
        ("しきゅう", "49"),
        ("待ってる", "106"),
        ("まってる", "106"),
        ("TEL", "106"),
        ("ＴＥＬ", "106"),
        ("テル", "106"),
        ("遅れてる", "9106"),
        ("おくれてる", "9106"),
        ("愛してる", "14106"),
        ("愛してる", "114106"),
        ("愛してる", "1410"),
        ("あいしてる", "14106"),
        ("あいしてる", "114106"),
        ("あいしてる", "1410"),
        ("何してる", "724106"),
        ("なにしてる", "724106"),
        ("起きてる", "09106"),
        ("起きてる", "9106"),
        ("おきてる", "09106"),
        ("おきてる", "9106"),
        ("行くよ", "194"),
        ("いくよ", "194"),
        ("池袋", "269"),
        ("いけぶくろ", "269"),
        ("渋谷", "428"),
        ("しぶや", "428"),
        ("おやすみ", "833"),
        ("おはよう", "840"),
        ("おはよう", "0840"),
        ("ハロー", "860"),
        ("はやく", "889"),
        ("早く", "889"),
        ("サンキュー", "39"),
        ("サンキュー", "999"),
        ("Thank you", "39"),
        ("Thank you", "999"),
        ("thank you", "39"),
        ("thank you", "999"),
        ("会えない", "1871"),
        ("あえない", "1871"),
        ("さよなら", "3470"),
        ("寒いよ", "3614"),
        ("さむいよ", "3614"),
        ("仕事", "4510"),
        ("しごと", "4510"),
        ("横浜", "4580"),
        ("よこはま", "4580"),
        ("よろしく", "4649"),
        ("ファイト", "5110"),
        ("お仕事ファイト", "045105110"),
        ("おしごとふぁいと", "045105110"),
        ("ふぁいと", "5110"),
        ("ご苦労さん", "5963"),
        ("ごくろうさん", "5963"),
        ("バイト", "8110"),
        ("ばいと", "8110"),
        ("バイバイ", "8181"),
        ("ばいばい", "8181"),
        ("今どこ", "10105"),
        ("いまどこ", "10105"),
        ("会いたいよ", "110149"),
        ("あいたいよ", "11014"),
        ("着いたよ", "21104"),
        ("ついたよ", "21104"),
        ("寂しいよ", "33414"),
        ("さびしいよ", "33414"),
        ("デートしよ", "101044"),
        ("でーとしよ", "101044"),
        ("TEL欲しい", "106841"),
        ("TELほしい", "106841"),
        ("ごめんなさい", "500731"),
        ("早くして", "889410"),
        ("はやくして", "889410"),
        ("どこにいるの", "1052167"),
        ("今から行くよ", "1056194"),
        ("いまからいくよ", "1056194"),
        ("ボウリング行こ", "015"),
        ("ボウリングいこ", "015"),
        ("遅れる", "090"),
        ("おくれる", "090"),
        ("ずっと一緒にいようね", "2101442147"),
        ("ずっと一緒にいよーね", "21014421479"),
        ("ずっといっしょにいようね", "2101442147"),
        ("ずっといっしょにいよーね", "21014421479"),
    ]
}

/// The character table as data.
pub fn code_entries() -> (r: Vec<(char, &'static str)>)
    ensures
        r@ == code_table(),
{
    vec![
        ('あ', "11"),
        ('い', "12"),
        ('う', "13"),
        ('え', "14"),
        ('お', "15"),
        ('か', "21"),
        ('き', "22"),
        ('く', "23"),
        ('け', "24"),
        ('こ', "25"),
        ('さ', "31"),
        ('し', "32"),
        ('す', "33"),
        ('せ', "34"),
        ('そ', "35"),
        ('た', "41"),
        ('ち', "42"),
        ('つ', "43"),
        ('て', "44"),
        ('と', "45"),
        ('な', "51"),
        ('に', "52"),
        ('ぬ', "53"),
        ('ね', "54"),
        ('の', "55"),
        ('は', "61"),
        ('ひ', "62"),
        ('ふ', "63"),
        ('へ', "64"),
        ('ほ', "65"),
        ('ま', "71"),
        ('み', "72"),
        ('む', "73"),
        ('め', "74"),
        ('も', "75"),
        ('や', "81"),
        ('(', "82"),
        ('ゆ', "83"),
        (')', "84"),
        ('よ', "85"),
        ('ら', "91"),
        ('り', "92"),
        ('る', "93"),
        ('れ', "94"),
        ('ろ', "95"),
        ('わ', "01"),
        ('を', "02"),
        ('ん', "03"),
        ('゛', "04"),
        ('゜', "05"),
        ('A', "16"),
        ('B', "17"),
        ('C', "18"),
        ('D', "19"),
        ('E', "10"),
        ('F', "26"),
        ('G', "27"),
        ('H', "28"),
        ('I', "29"),
        ('J', "20"),
        ('K', "36"),
        ('L', "37"),
        ('M', "38"),
        ('N', "39"),
        ('O', "30"),
        ('P', "46"),
        ('Q', "47"),
        ('R', "48"),
        ('S', "49"),
        ('T', "40"),
        ('U', "56"),
        ('V', "57"),
        ('W', "58"),
        ('X', "59"),
        ('Y', "50"),
        ('Z', "66"),
        ('?', "67"),
        ('!', "68"),
        ('-', "69"),
        ('/', "60"),
        ('\\', "76"),
        ('&', "77"),
        ('*', "86"),
        ('#', "87"),
        (' ', "88"),
        ('1', "96"),
        ('2', "97"),
        ('3', "98"),
        ('4', "99"),
        ('5', "90"),
        ('6', "06"),
        ('7', "07"),
        ('8', "08"),
        ('9', "09"),
        ('0', "00"),
        ('が', "2104"),
        ('ぎ', "2204"),
        ('ぐ', "2304"),
        ('げ', "2404"),
        ('ご', "2504"),
        ('ざ', "3104"),
        ('じ', "3204"),
        ('ず', "3304"),
        ('ぜ', "3404"),
        ('ぞ', "3504"),
        ('だ', "4104"),
        ('ぢ', "4204"),
        ('づ', "4304"),
        ('で', "4404"),
        ('ど', "4504"),
        ('ば', "6104"),
        ('び', "6204"),
        ('ぶ', "6304"),
        ('べ', "6404"),
        ('ぼ', "6504"),
        ('ぱ', "6105"),
        ('ぴ', "6205"),
        ('ぷ', "6305"),
        ('ぺ', "6405"),
        ('ぽ', "6505"),
    ]
}

/// The normalization table as data.
pub fn normalization_entries() -> (r: Vec<(char, char)>)
    ensures
        r@ == normalization_table(),
{
    vec![
        ('ぁ', 'あ'),
        ('ぃ', 'い'),
        ('ぅ', 'う'),
        ('ぇ', 'え'),
        ('ぉ', 'お'),
        ('っ', 'つ'),
        ('ゃ', 'や'),
        ('ゅ', 'ゆ'),
        ('ょ', 'よ'),
        ('（', '('),
        ('）', ')'),
        ('Ａ', 'A'),
        ('Ｂ', 'B'),
        ('Ｃ', 'C'),
        ('Ｄ', 'D'),
        ('Ｅ', 'E'),
        ('Ｆ', 'F'),
        ('Ｇ', 'G'),
        ('Ｈ', 'H'),
        ('Ｉ', 'I'),
        ('Ｊ', 'J'),
        ('Ｋ', 'K'),
        ('Ｌ', 'L'),
        ('Ｍ', 'M'),
        ('Ｎ', 'N'),
        ('Ｏ', 'O'),
        ('Ｐ', 'P'),
        ('Ｑ', 'Q'),
        ('Ｒ', 'R'),
        ('Ｓ', 'S'),
        ('Ｔ', 'T'),
        ('Ｕ', 'U'),
        ('Ｖ', 'V'),
        ('Ｗ', 'W'),
        ('Ｘ', 'X'),
        ('Ｙ', 'Y'),
        ('Ｚ', 'Z'),
        ('？', '?'),
        ('！', '!'),
        ('－', '-'),
        ('／', '/'),
        ('￥', '\\'),
        ('＆', '&'),
        ('＊', '*'),
        ('＃', '#'),
        ('　', ' '),
        ('１', '1'),
        ('２', '2'),
        ('３', '3'),
        ('４', '4'),
        ('５', '5'),
        ('６', '6'),
        ('７', '7'),
        ('８', '8'),
        ('９', '9'),
        ('０', '0'),
        ('ー', '-'),
    ]
}

/// The phrase table as data.
pub fn phrase_entries() -> (r: Vec<(&'static str, &'static str)>)
    ensures
        r@ == phrase_table(),
{
    vec![
        ("今", "10"),
        ("いま", "10"),
        ("海", "41"),
        ("うみ", "41"),
        ("シー", "41"),
        ("しー", "41"),
        ("至急", "49"),
        ("しきゅう", "49"),
        ("待ってる", "106"),
        ("まってる", "106"),
        ("TEL", "106"),
        ("ＴＥＬ", "106"),
        ("テル", "106"),
        ("遅れてる", "9106"),
        ("おくれてる", "9106"),
        ("愛してる", "14106"),
        ("愛してる", "114106"),
        ("愛してる", "1410"),
        ("あいしてる", "14106"),
        ("あいしてる", "114106"),
        ("あいしてる", "1410"),
        ("何してる", "724106"),
        ("なにしてる", "724106"),
        ("起きてる", "09106"),
        ("起きてる", "9106"),
        ("おきてる", "09106"),
        ("おきてる", "9106"),
        ("行くよ", "194"),
        ("いくよ", "194"),
        ("池袋", "269"),
        ("いけぶくろ", "269"),
        ("渋谷", "428"),
        ("しぶや", "428"),
        ("おやすみ", "833"),
        ("おはよう", "840"),
        ("おはよう", "0840"),
        ("ハロー", "860"),
        ("はやく", "889"),
        ("早く", "889"),
        ("サンキュー", "39"),
        ("サンキュー", "999"),
        ("Thank you", "39"),
        ("Thank you", "999"),
        ("thank you", "39"),
        ("thank you", "999"),
        ("会えない", "1871"),
        ("あえない", "1871"),
        ("さよなら", "3470"),
        ("寒いよ", "3614"),
        ("さむいよ", "3614"),
        ("仕事", "4510"),
        ("しごと", "4510"),
        ("横浜", "4580"),
        ("よこはま", "4580"),
        ("よろしく", "4649"),
        ("ファイト", "5110"),
        ("お仕事ファイト", "045105110"),
        ("おしごとふぁいと", "045105110"),
        ("ふぁいと", "5110"),
        ("ご苦労さん", "5963"),
        ("ごくろうさん", "5963"),
        ("バイト", "8110"),
        ("ばいと", "8110"),
        ("バイバイ", "8181"),
        ("ばいばい", "8181"),
        ("今どこ", "10105"),
        ("いまどこ", "10105"),
        ("会いたいよ", "110149"),
        ("あいたいよ", "11014"),
        ("着いたよ", "21104"),
        ("ついたよ", "21104"),
        ("寂しいよ", "33414"),
        ("さびしいよ", "33414"),
        ("デートしよ", "101044"),
        ("でーとしよ", "101044"),
        ("TEL欲しい", "106841"),
        ("TELほしい", "106841"),
        ("ごめんなさい", "500731"),
        ("早くして", "889410"),
        ("はやくして", "889410"),
        ("どこにいるの", "1052167"),
        ("今から行くよ", "1056194"),
        ("いまからいくよ", "1056194"),
        ("ボウリング行こ", "015"),
        ("ボウリングいこ", "015"),
        ("遅れる", "090"),
        ("おくれる", "090"),
        ("ずっと一緒にいようね", "2101442147"),
        ("ずっと一緒にいよーね", "21014421479"),
        ("ずっといっしょにいようね", "2101442147"),
        ("ずっといっしょにいよーね", "21014421479"),
    ]
}

} // verus!
