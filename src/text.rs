use vstd::prelude::*;

verus! {

/// Unicode's White_Space property, which `char::is_whitespace` tests.
pub open spec fn white_space(c: char) -> bool {
    ||| ('\u{9}' <= c && c <= '\u{d}')
    ||| c == ' '
    ||| c == '\u{85}'
    ||| c == '\u{a0}'
    ||| c == '\u{1680}'
    ||| ('\u{2000}' <= c && c <= '\u{200a}')
    ||| c == '\u{2028}'
    ||| c == '\u{2029}'
    ||| c == '\u{202f}'
    ||| c == '\u{205f}'
    ||| c == '\u{3000}'
}

/// A text without its leading and trailing White_Space characters.
pub open spec fn trimmed(s: Seq<char>) -> Seq<char>
    decreases s.len(),
{
    if s.len() > 0 && white_space(s[0]) {
        trimmed(s.drop_first())
    } else if s.len() > 0 && white_space(s.last()) {
        trimmed(s.drop_last())
    } else {
        s
    }
}

/// What std's `str::to_lowercase` makes of a text.
pub uninterp spec fn lowercased(s: Seq<char>) -> Seq<char>;

/// What heck's `ToTitleCase::to_title_case` makes of a text.
pub uninterp spec fn title_cased(s: Seq<char>) -> Seq<char>;

/// What unidecode's `unidecode` makes of a text.
pub uninterp spec fn transliterated(s: Seq<char>) -> Seq<char>;

/// Relies on std's `str::trim`: leading and trailing characters with Unicode's
/// White_Space property removed.
#[verifier::external_body]
pub(crate) fn trim_text(s: &str) -> (r: String)
    ensures
        r@ == trimmed(s@),
{
    s.trim().to_string()
}

/// Relies on std's `str::to_lowercase`.
#[verifier::external_body]
pub(crate) fn lowercase_text(s: &str) -> (r: String)
    ensures
        r@ == lowercased(s@),
{
    s.to_lowercase()
}

/// Relies on heck's `ToTitleCase::to_title_case` for `str`.
#[verifier::external_body]
pub(crate) fn title_case_text(s: &str) -> (r: String)
    ensures
        r@ == title_cased(s@),
{
    heck::ToTitleCase::to_title_case(s)
}

/// Relies on unidecode's `unidecode`: an ASCII transliteration of the text.
#[verifier::external_body]
pub(crate) fn transliterate_text(s: &str) -> (r: String)
    ensures
        r@ == transliterated(s@),
{
    unidecode::unidecode(s)
}

/// The index of the first `c` in `s` at or after `from`, or -1.
pub open spec fn first_index(s: Seq<char>, c: char, from: int) -> int
    decreases s.len() - from,
{
    if from < 0 || from >= s.len() {
        -1
    } else if s[from] == c {
        from
    } else {
        first_index(s, c, from + 1)
    }
}

/// The index of the last `c` in `s` before `upto`, or -1.
pub open spec fn last_index(s: Seq<char>, c: char, upto: int) -> int
    decreases upto,
{
    if upto <= 0 || upto > s.len() {
        -1
    } else if s[upto - 1] == c {
        upto - 1
    } else {
        last_index(s, c, upto - 1)
    }
}

proof fn lemma_first_index_range(s: Seq<char>, c: char, from: int)
    requires
        0 <= from,
    ensures
        first_index(s, c, from) == -1 || (from <= first_index(s, c, from) < s.len()
            && s[first_index(s, c, from)] == c),
    decreases s.len() - from,
{
    if from < s.len() && s[from] != c {
        lemma_first_index_range(s, c, from + 1);
    }
}

proof fn lemma_last_index_range(s: Seq<char>, c: char, upto: int)
    requires
        upto <= s.len(),
    ensures
        last_index(s, c, upto) == -1 || (0 <= last_index(s, c, upto) < upto && s[last_index(
            s,
            c,
            upto,
        )] == c),
    decreases upto,
{
    if upto > 0 && s[upto - 1] != c {
        lemma_last_index_range(s, c, upto - 1);
    }
}

/// The index of the first `c` in `s`, or `None`.
pub fn find_char(s: &str, c: char) -> (r: Option<usize>)
    ensures
        r == (if first_index(s@, c, 0) < 0 {
            None::<usize>
        } else {
            Some(first_index(s@, c, 0) as usize)
        }),
        r.is_some() ==> (r.unwrap() as int) < s@.len() && s@[r.unwrap() as int] == c
            && r.unwrap() as int == first_index(s@, c, 0),
        r.is_none() ==> first_index(s@, c, 0) == -1,
{
    let n = s.unicode_len();
    let mut i: usize = 0;
    proof {
        lemma_first_index_range(s@, c, 0);
    }
    while i < n
        invariant
            n == s@.len(),
            i <= n,
            first_index(s@, c, 0) == first_index(s@, c, i as int),
        decreases n - i,
    {
        if s.get_char(i) == c {
            return Some(i);
        }
        i = i + 1;
    }
    None
}

/// The index of the last `c` in `s`, or `None`.
pub fn rfind_char(s: &str, c: char) -> (r: Option<usize>)
    ensures
        r == (if last_index(s@, c, s@.len() as int) < 0 {
            None::<usize>
        } else {
            Some(last_index(s@, c, s@.len() as int) as usize)
        }),
{
    let n = s.unicode_len();
    let mut i: usize = n;
    proof {
        lemma_last_index_range(s@, c, n as int);
    }
    while i > 0
        invariant
            n == s@.len(),
            i <= n,
            last_index(s@, c, n as int) == last_index(s@, c, i as int),
        decreases i,
    {
        if s.get_char(i - 1) == c {
            return Some(i - 1);
        }
        i = i - 1;
    }
    None
}

/// Whether a file name has an extension in the sense of std's `Path`: a '.'
/// that is not its first character, the name `..` excepted.
pub open spec fn has_extension(name: Seq<char>) -> bool {
    last_index(name, '.', name.len() as int) > 0 && name != seq!['.', '.']
}

/// A file name's extension, without the dot.
pub open spec fn extension_of(name: Seq<char>) -> Option<Seq<char>> {
    if has_extension(name) {
        Some(name.subrange(last_index(name, '.', name.len() as int) + 1, name.len() as int))
    } else {
        None
    }
}

/// A file name without its extension and its dot.
pub open spec fn stem_of(name: Seq<char>) -> Seq<char> {
    if has_extension(name) {
        name.subrange(0, last_index(name, '.', name.len() as int))
    } else {
        name
    }
}

fn is_double_dot(name: &str) -> (r: bool)
    ensures
        r == (name@ == seq!['.', '.']),
{
    if name.unicode_len() != 2 {
        return false;
    }
    let a = name.get_char(0);
    let b = name.get_char(1);
    if a == '.' && b == '.' {
        assert(name@ =~= seq!['.', '.']);
        true
    } else {
        false
    }
}

/// Splits a file name into its stem and its extension.
pub fn split_extension(name: &str) -> (r: (String, Option<String>))
    ensures
        r.0@ == stem_of(name@),
        match r.1 {
            Some(e) => extension_of(name@) == Some(e@),
            None => extension_of(name@).is_none(),
        },
{
    let n = name.unicode_len();
    let dot = rfind_char(name, '.');
    proof {
        lemma_last_index_range(name@, '.', n as int);
    }
    match dot {
        Some(d) => {
            if d > 0 && !is_double_dot(name) {
                let stem = name.substring_char(0, d).to_string();
                let ext = name.substring_char(d + 1, n).to_string();
                (stem, Some(ext))
            } else {
                (name.to_string(), None)
            }
        },
        None => (name.to_string(), None),
    }
}

pub open spec fn is_digit(c: char) -> bool {
    '0' <= c && c <= '9'
}

/// The value of a text of decimal digits.
pub open spec fn digits_value(s: Seq<char>) -> int
    decreases s.len(),
{
    if s.len() == 0 {
        0
    } else {
        digits_value(s.drop_last()) * 10 + (s.last() as int - '0' as int)
    }
}

/// The digits of an unsigned decimal: the text without one leading '+'.
pub open spec fn unsigned_digits(s: Seq<char>) -> Seq<char> {
    if s.len() > 0 && s[0] == '+' {
        s.drop_first()
    } else {
        s
    }
}

/// What std's `FromStr` for an unsigned integer type whose largest value is `max`
/// accepts: an optional '+', then one or more decimal digits, within range.
pub open spec fn parse_unsigned(s: Seq<char>, max: int) -> Option<int> {
    let d = unsigned_digits(s);
    if d.len() > 0 && (forall|i: int| 0 <= i < d.len() ==> is_digit(#[trigger] d[i]))
        && digits_value(d) <= max {
        Some(digits_value(d))
    } else {
        None
    }
}

proof fn lemma_digits_value_grows(s: Seq<char>, k: int)
    requires
        0 <= k <= s.len(),
        forall|i: int| 0 <= i < s.len() ==> is_digit(#[trigger] s[i]),
    ensures
        digits_value(s.subrange(0, k)) <= digits_value(s),
        digits_value(s) >= 0,
    decreases s.len(),
{
    if s.len() > 0 {
        let p = s.drop_last();
        assert forall|i: int| 0 <= i < p.len() implies is_digit(#[trigger] p[i]) by {
            assert(p[i] == s[i]);
        }
        if k == s.len() {
            assert(s.subrange(0, k) =~= s);
            lemma_digits_value_grows(p, p.len() as int);
            assert(p.subrange(0, p.len() as int) =~= p);
        } else {
            lemma_digits_value_grows(p, k);
            assert(p.subrange(0, k) =~= s.subrange(0, k));
        }
    } else {
        assert(s.subrange(0, k) =~= s);
    }
}

/// Parses an unsigned decimal no larger than `max`, as std's `FromStr` for
/// unsigned integers does.
pub fn parse_decimal(s: &str, max: u32) -> (r: Option<u32>)
    ensures
        match r {
            Some(v) => parse_unsigned(s@, max as int) == Some(v as int),
            None => parse_unsigned(s@, max as int) == None::<int>,
        },
{
    let n = s.unicode_len();
    let start: usize = if n > 0 && s.get_char(0) == '+' {
        1
    } else {
        0
    };
    let ghost d = unsigned_digits(s@);
    assert(d =~= s@.subrange(start as int, n as int));
    if start == n {
        return None;
    }
    let mut acc: u64 = 0;
    let mut i: usize = start;
    while i < n
        invariant
            n == s@.len(),
            start <= i <= n,
            d == s@.subrange(start as int, n as int),
            d == unsigned_digits(s@),
            forall|j: int| 0 <= j < i - start ==> is_digit(#[trigger] d[j]),
            acc as int == digits_value(d.subrange(0, i - start)),
            acc <= max,
        decreases n - i,
    {
        let c = s.get_char(i);
        if !('0' <= c && c <= '9') {
            assert(!is_digit(d[i - start]));
            assert(!(forall|j: int| 0 <= j < d.len() ==> is_digit(#[trigger] d[j])));
            return None;
        }
        let ghost prev = d.subrange(0, i - start);
        let ghost next = d.subrange(0, i - start + 1);
        assert(next.drop_last() =~= prev);
        assert(next.last() == c);
        acc = acc * 10 + (c as u64 - '0' as u64);
        assert(acc as int == digits_value(next));
        if acc > max as u64 {
            proof {
                if forall|j: int| 0 <= j < d.len() ==> is_digit(#[trigger] d[j]) {
                    lemma_digits_value_grows(d, i - start + 1);
                    assert(digits_value(d) > max);
                }
            }
            return None;
        }
        i = i + 1;
    }
    assert(d.subrange(0, n - start) =~= d);
    Some(acc as u32)
}

} // verus!
