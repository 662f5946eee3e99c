use vstd::prelude::*;
use vstd::string::StrSliceExecFns;
use vstd::string::StringExecFns;

use crate::tables::{
    code_entries, code_table, normalization_entries, normalization_table, phrase_entries,
    phrase_table,
};

verus! {

broadcast use vstd::string::group_string_axioms;

/// The value stored under the first row of `t` whose key is `k`.
pub open spec fn first_match<K, V>(t: Seq<(K, V)>, k: K) -> Option<V>
    decreases t.len(),
{
    if t.len() == 0 {
        None
    } else if t[0].0 == k {
        Some(t[0].1)
    } else {
        first_match(t.drop_first(), k)
    }
}

/// The character table with each code as a sequence of digits.
pub open spec fn code_map() -> Seq<(char, Seq<char>)> {
    code_table().map_values(|e: (char, &'static str)| (e.0, e.1@))
}

/// The character table read from code to character.
pub open spec fn inverse_code_map() -> Seq<(Seq<char>, char)> {
    code_table().map_values(|e: (char, &'static str)| (e.1@, e.0))
}

/// The code of a canonical character, if it has one.
pub open spec fn code_of(c: char) -> Option<Seq<char>> {
    first_match(code_map(), c)
}

/// The character that a two-digit code stands for, if any.
pub open spec fn char_of_code(k: Seq<char>) -> Option<char> {
    first_match(inverse_code_map(), k)
}

/// The canonical form of a character: its normalization target, or itself.
pub open spec fn normalized(c: char) -> char {
    match first_match(normalization_table(), c) {
        Some(n) => n,
        None => c,
    }
}

pub open spec fn ascii_upper(c: char) -> char {
    if 'a' <= c && c <= 'z' {
        ((c as u32) - 32) as char
    } else {
        c
    }
}

/// The code of one input character: upper-cased if an ASCII letter, normalized, looked up.
pub open spec fn char_code(c: char) -> Option<Seq<char>> {
    code_of(normalized(ascii_upper(c)))
}

/// The codes of all characters of `s`, concatenated; `None` if one of them has no code.
pub open spec fn text_code(s: Seq<char>) -> Option<Seq<char>>
    decreases s.len(),
{
    if s.len() == 0 {
        Some(Seq::empty())
    } else {
        match (text_code(s.drop_last()), char_code(s.last())) {
            (Some(a), Some(b)) => Some(a + b),
            _ => None,
        }
    }
}

/// The shorthands that the rows of `t` give for the phrase `s`, in row order.
pub open spec fn phrase_rows(t: Seq<(&'static str, &'static str)>, s: Seq<char>) -> Seq<Seq<char>>
    decreases t.len(),
{
    if t.len() == 0 {
        Seq::empty()
    } else {
        let rest = phrase_rows(t.drop_last(), s);
        if t.last().0@ == s {
            rest.push(t.last().1@)
        } else {
            rest
        }
    }
}

/// The shorthand codes of the phrase `s`; empty when `s` is no phrase.
pub open spec fn phrase_codes(s: Seq<char>) -> Seq<Seq<char>> {
    phrase_rows(phrase_table(), s)
}

/// The candidates for encoding `s`: its phrase shorthands, then its full code when every
/// character has one. `None` for empty text, and for text that is neither a phrase nor
/// encodable character by character.
pub open spec fn encode_spec(s: Seq<char>) -> Option<Seq<Seq<char>>> {
    if s.len() == 0 {
        None
    } else {
        match text_code(s) {
            Some(full) => Some(phrase_codes(s).push(full)),
            None => if phrase_codes(s).len() > 0 {
                Some(phrase_codes(s))
            } else {
                None
            },
        }
    }
}

pub open spec fn is_digit(c: char) -> bool {
    '0' <= c && c <= '9'
}

/// The first `n` two-digit chunks of `s`, each read as a character.
pub open spec fn pairs_decoded(s: Seq<char>, n: nat) -> Option<Seq<char>>
    decreases n,
{
    if n == 0 {
        Some(Seq::empty())
    } else {
        match (
            pairs_decoded(s, (n - 1) as nat),
            char_of_code(s.subrange(2 * (n - 1), 2 * n as int)),
        ) {
            (Some(a), Some(c)) => Some(a.push(c)),
            _ => None,
        }
    }
}

/// The text that the code string `s` stands for: `None` unless `s` is a non-empty, even
/// number of digits whose every chunk of two is a known code.
pub open spec fn decode_spec(s: Seq<char>) -> Option<Seq<char>> {
    if s.len() == 0 || s.len() % 2 != 0 || !(forall|i: int| 0 <= i < s.len() ==> is_digit(#[trigger] s[i])) {
        None
    } else {
        pairs_decoded(s, s.len() / 2)
    }
}

/// The text of each string of `v`.
pub open spec fn views(v: Seq<String>) -> Seq<Seq<char>> {
    v.map_values(|s: String| s@)
}

proof fn lemma_first_match_from<K, V>(t: Seq<(K, V)>, k: K, i: int)
    requires
        0 <= i < t.len(),
    ensures
        first_match(t.subrange(i, t.len() as int), k) == (if t[i].0 == k {
            Some(t[i].1)
        } else {
            first_match(t.subrange(i + 1, t.len() as int), k)
        }),
{
    assert(t.subrange(i, t.len() as int).drop_first() =~= t.subrange(i + 1, t.len() as int));
}

proof fn lemma_text_code_extends_none(s: Seq<char>, i: int)
    requires
        0 <= i <= s.len(),
        text_code(s.subrange(0, i)) is None,
    ensures
        text_code(s) is None,
    decreases s.len() - i,
{
    if i == s.len() {
        assert(s.subrange(0, i) =~= s);
    } else {
        assert(s.subrange(0, i + 1).drop_last() =~= s.subrange(0, i));
        lemma_text_code_extends_none(s, i + 1);
    }
}

pub(crate) proof fn lemma_pairs_decoded_extends_none(s: Seq<char>, m: nat, n: nat)
    requires
        m <= n,
        pairs_decoded(s, m) is None,
    ensures
        pairs_decoded(s, n) is None,
    decreases n - m,
{
    if m < n {
        lemma_pairs_decoded_extends_none(s, m, (n - 1) as nat);
    }
}

/// Relies on String::push: the character is appended at the end.
#[verifier::external_body]
fn push_char(s: &mut String, c: char)
    ensures
        final(s)@ == old(s)@.push(c),
{
    s.push(c);
}

fn chars_of(s: &str) -> (r: Vec<char>)
    ensures
        r@ == s@,
{
    let n = s.unicode_len();
    let mut r: Vec<char> = Vec::new();
    let mut i: usize = 0;
    while i < n
        invariant
            n == s@.len(),
            i <= n,
            r@ == s@.subrange(0, i as int),
        decreases n - i,
    {
        r.push(s.get_char(i));
        i = i + 1;
    }
    r
}

/// Whether `a` holds exactly the characters `b[lo..hi]`.
fn str_matches(a: &str, b: &Vec<char>, lo: usize, hi: usize) -> (r: bool)
    requires
        lo <= hi <= b@.len(),
    ensures
        r == (a@ == b@.subrange(lo as int, hi as int)),
{
    let n = a.unicode_len();
    if n != hi - lo {
        return false;
    }
    let mut i: usize = 0;
    while i < n
        invariant
            n == a@.len(),
            n == hi - lo,
            lo <= hi <= b@.len(),
            i <= n,
            forall|j: int| 0 <= j < i ==> a@[j] == b@[lo + j],
        decreases n - i,
    {
        if a.get_char(i) != b[lo + i] {
            assert(b@.subrange(lo as int, hi as int)[i as int] == b@[lo + i]);
            return false;
        }
        i = i + 1;
    }
    assert(a@ =~= b@.subrange(lo as int, hi as int));
    true
}

fn to_ascii_upper(c: char) -> (r: char)
    ensures
        r == ascii_upper(c),
{
    if 'a' <= c && c <= 'z' {
        ((c as u8) - 32) as char
    } else {
        c
    }
}

/// The codec: the character table, its inverse, the normalization table and the phrase
/// table, built once and only read afterwards. That no two rows share a character or a
/// code is proved of the built-in data (see `lemma_codes_unique`), and likewise that no
/// two normalization rows share a variant (`lemma_variants_unique`), so each table read
/// front to back behaves as a map.
///
/// The tables are vectors of rows rather than hash maps: their keys are characters and
/// strings, and for neither does the verifier's hash map model give a lookup anything
/// it could prove, whereas a scan over rows is proved against the table data.
pub struct Converter {
    base_map: Vec<(char, &'static str)>,
    inversed_base_map: Vec<(&'static str, char)>,
    normalization_map: Vec<(char, char)>,
    reserved_word_map: Vec<(&'static str, &'static str)>,
}

impl Converter {
    /// The four tables hold exactly the built-in data, the inverse table being the
    /// character table read from code to character.
    pub closed spec fn wf(&self) -> bool {
        &&& self.base_map@ == code_table()
        &&& self.inversed_base_map@.len() == code_table().len()
        &&& forall|i: int|
            0 <= i < code_table().len() ==> #[trigger] self.inversed_base_map@[i] == (
                code_table()[i].1,
                code_table()[i].0,
            )
        &&& self.normalization_map@ == normalization_table()
        &&& self.reserved_word_map@ == phrase_table()
    }

    /// Builds the tables; the inverse table is read off the character table.
    pub fn new() -> (r: Self)
        ensures
            r.wf(),
    {
        let base_map = code_entries();
        let mut inversed_base_map: Vec<(&'static str, char)> = Vec::new();
        let mut i: usize = 0;
        while i < base_map.len()
            invariant
                base_map@ == code_table(),
                i <= base_map@.len(),
                inversed_base_map@.len() == i,
                forall|j: int|
                    0 <= j < i ==> #[trigger] inversed_base_map@[j] == (
                        code_table()[j].1,
                        code_table()[j].0,
                    ),
            decreases base_map.len() - i,
        {
            let (ch, code) = base_map[i];
            inversed_base_map.push((code, ch));
            i = i + 1;
        }
        Converter {
            base_map,
            inversed_base_map,
            normalization_map: normalization_entries(),
            reserved_word_map: phrase_entries(),
        }
    }

    fn normalize(&self, ch: &char) -> (r: char)
        requires
            self.wf(),
        ensures
            r == normalized(*ch),
    {
        let ghost t = normalization_table();
        let mut i: usize = 0;
        proof {
            assert(t.subrange(0, t.len() as int) =~= t);
        }
        while i < self.normalization_map.len()
            invariant
                self.wf(),
                t == normalization_table(),
                i <= t.len(),
                first_match(t, *ch) == first_match(t.subrange(i as int, t.len() as int), *ch),
            decreases t.len() - i,
        {
            let (from, to) = self.normalization_map[i];
            proof {
                lemma_first_match_from(t, *ch, i as int);
            }
            if from == *ch {
                return to;
            }
            i = i + 1;
        }
        *ch
    }

    fn code_for(&self, ch: char) -> (r: Option<&'static str>)
        requires
            self.wf(),
        ensures
            match r {
                Some(code) => code_of(ch) == Some(code@),
                None => code_of(ch) is None,
            },
    {
        let ghost t = code_map();
        let mut i: usize = 0;
        proof {
            assert(t.subrange(0, t.len() as int) =~= t);
        }
        while i < self.base_map.len()
            invariant
                self.wf(),
                t == code_map(),
                t.len() == self.base_map@.len(),
                i <= t.len(),
                first_match(t, ch) == first_match(t.subrange(i as int, t.len() as int), ch),
            decreases t.len() - i,
        {
            let (key, code) = self.base_map[i];
            proof {
                lemma_first_match_from(t, ch, i as int);
            }
            if key == ch {
                return Some(code);
            }
            i = i + 1;
        }
        None
    }

    fn char_for_pair(&self, cs: &Vec<char>, lo: usize) -> (r: Option<char>)
        requires
            self.wf(),
            lo + 2 <= cs@.len(),
        ensures
            r == char_of_code(cs@.subrange(lo as int, lo + 2)),
    {
        let ghost t = inverse_code_map();
        let len = cs.len();
        let hi = lo + 2;
        let mut i: usize = 0;
        proof {
            assert(t.subrange(0, t.len() as int) =~= t);
        }
        while i < self.inversed_base_map.len()
            invariant
                self.wf(),
                t == inverse_code_map(),
                t.len() == self.inversed_base_map@.len(),
                i <= t.len(),
                hi == lo + 2,
                len == cs@.len(),
                hi <= len,
                first_match(t, cs@.subrange(lo as int, lo + 2)) == first_match(
                    t.subrange(i as int, t.len() as int),
                    cs@.subrange(lo as int, lo + 2),
                ),
            decreases t.len() - i,
        {
            let (code, ch) = self.inversed_base_map[i];
            proof {
                lemma_first_match_from(t, cs@.subrange(lo as int, lo + 2), i as int);
            }
            if str_matches(code, cs, lo, hi) {
                return Some(ch);
            }
            i = i + 1;
        }
        None
    }

    fn phrase_codes_for(&self, cs: &Vec<char>) -> (r: Vec<String>)
        requires
            self.wf(),
        ensures
            views(r@) == phrase_codes(cs@),
    {
        let ghost t = phrase_table();
        let mut r: Vec<String> = Vec::new();
        let mut i: usize = 0;
        proof {
            assert(views(r@) =~= phrase_rows(t.subrange(0, 0), cs@));
        }
        while i < self.reserved_word_map.len()
            invariant
                self.wf(),
                t == phrase_table(),
                i <= t.len(),
                views(r@) == phrase_rows(t.subrange(0, i as int), cs@),
            decreases t.len() - i,
        {
            let (phrase, code) = self.reserved_word_map[i];
            proof {
                assert(t.subrange(0, i + 1).drop_last() =~= t.subrange(0, i as int));
            }
            if str_matches(phrase, cs, 0, cs.len()) {
                proof {
                    assert(cs@.subrange(0, cs@.len() as int) =~= cs@);
                }
                let s = code.to_string();
                r.push(s);
                proof {
                    assert(views(r@) =~= phrase_rows(t.subrange(0, i + 1), cs@));
                }
            } else {
                proof {
                    assert(cs@.subrange(0, cs@.len() as int) =~= cs@);
                }
            }
            i = i + 1;
        }
        proof {
            assert(t.subrange(0, t.len() as int) =~= t);
        }
        r
    }

    /// Encodes text as two-touch codes: the shorthands of the phrase that the whole text
    /// is, if any, then the code of the text character by character, where every
    /// character has one.
    pub fn convert_to_two_touch_string(&self, val: String) -> (r: Result<Vec<String>, Error>)
        requires
            self.wf(),
        ensures
            match encode_spec(val@) {
                Some(v) => r is Ok && views(r->Ok_0@) == v,
                None => r is Err,
            },
    {
        let cs = chars_of(val.as_str());
        if cs.len() == 0 {
            return Err(Error::from(ErrorKind::ParseError));
        }
        let mut ret = self.phrase_codes_for(&cs);
        let mut normal = String::new();
        let mut i: usize = 0;
        proof {
            assert(cs@.subrange(0, 0) =~= Seq::<char>::empty());
        }
        while i < cs.len()
            invariant
                self.wf(),
                cs@ == val@,
                i <= cs@.len(),
                views(ret@) == phrase_codes(cs@),
                text_code(cs@.subrange(0, i as int)) == Some(normal@),
            decreases cs@.len() - i,
        {
            let ch = to_ascii_upper(cs[i]);
            let ch = self.normalize(&ch);
            proof {
                assert(cs@.subrange(0, i + 1).drop_last() =~= cs@.subrange(0, i as int));
            }
            match self.code_for(ch) {
                Some(code) => {
                    normal.append(code);
                },
                None => {
                    proof {
                        lemma_text_code_extends_none(cs@, i + 1);
                    }
                    if ret.len() == 0 {
                        return Err(Error::from(ErrorKind::ParseError));
                    }
                    return Ok(ret);
                },
            }
            i = i + 1;
        }
        proof {
            assert(cs@.subrange(0, cs@.len() as int) =~= cs@);
        }
        ret.push(normal);
        proof {
            assert(views(ret@) =~= phrase_codes(cs@).push(normal@));
        }
        Ok(ret)
    }

    /// Decodes a string of two-digit codes into text; a voiced kana comes out as its
    /// base kana followed by the mark.
    pub fn convert_from_two_touch_string(&self, val: String) -> (r: Result<String, Error>)
        requires
            self.wf(),
        ensures
            match decode_spec(val@) {
                Some(t) => r is Ok && r->Ok_0@ == t,
                None => r is Err,
            },
    {
        let cs = chars_of(val.as_str());
        let n = cs.len();
        if n == 0 || n % 2 != 0 {
            return Err(Error::from(ErrorKind::ParseError));
        }
        let mut k: usize = 0;
        while k < n
            invariant
                n == cs@.len(),
                cs@ == val@,
                k <= n,
                forall|j: int| 0 <= j < k ==> is_digit(#[trigger] cs@[j]),
            decreases n - k,
        {
            if !('0' <= cs[k] && cs[k] <= '9') {
                assert(!is_digit(val@[k as int]));
                return Err(Error::from(ErrorKind::ParseError));
            }
            k = k + 1;
        }
        let mut ret = String::new();
        let mut i: usize = 0;
        while i < n / 2
            invariant
                self.wf(),
                n == cs@.len(),
                cs@ == val@,
                i <= n / 2,
                pairs_decoded(cs@, i as nat) == Some(ret@),
            decreases n / 2 - i,
        {
            match self.char_for_pair(&cs, 2 * i) {
                Some(c) => {
                    push_char(&mut ret, c);
                },
                None => {
                    proof {
                        lemma_pairs_decoded_extends_none(cs@, (i + 1) as nat, (n / 2) as nat);
                    }
                    return Err(Error::from(ErrorKind::ParseError));
                },
            }
            i = i + 1;
        }
        Ok(ret)
    }
}


#[derive(Debug, Clone, Copy, PartialEq, Eq, Structural)]
pub enum ErrorKind {
    ParseError,
}

#[derive(Debug, Clone, Copy, PartialEq, Eq, Structural)]
pub struct Error {
    kind: ErrorKind,
}

impl Error {
    pub closed spec fn spec_kind(&self) -> ErrorKind {
        self.kind
    }

    pub fn new(kind: ErrorKind) -> (r: Error)
        ensures
            r.spec_kind() == kind,
    {
        Error { kind }
    }

    pub fn kind(&self) -> (r: &ErrorKind)
        ensures
            *r == self.spec_kind(),
    {
        &self.kind
    }
}

impl From<ErrorKind> for Error {
    fn from(kind: ErrorKind) -> Error {
        Error { kind }
    }
}

impl vstd::std_specs::convert::FromSpecImpl<ErrorKind> for Error {
    open spec fn obeys_from_spec() -> bool {
        true
    }

    closed spec fn from_spec(v: ErrorKind) -> Self {
        Error { kind: v }
    }
}

} // verus!
