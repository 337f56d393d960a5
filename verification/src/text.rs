//! String helpers: thin trusted bridges to `std` and `regex` string
//! operations, with the library's spec vocabulary for them.

use vstd::prelude::*;

verus! {

/// Relies on `String::push`: appends exactly the given character.
#[verifier::external_body]
pub fn push_char(s: &mut String, c: char)
    ensures
        final(s)@ == old(s)@.push(c),
{
    s.push(c)
}

/// The characters treated as blank when trimming and separating.
pub open spec fn is_space_char(c: char) -> bool {
    c == ' ' || c == '\t' || c == '\n' || c == '\r'
}

/// The decimal digits.
pub open spec fn is_digit_char(c: char) -> bool {
    '0' <= c && c <= '9'
}

/// Index of the first non-blank character of `s` (its length when all
/// are blank).
pub open spec fn trim_start_idx(s: Seq<char>) -> int
    decreases s.len(),
{
    if s.len() == 0 {
        0
    } else if is_space_char(s[0]) {
        1 + trim_start_idx(s.drop_first())
    } else {
        0
    }
}

/// Index one past the last non-blank character of `s` (zero when all are
/// blank).
pub open spec fn trim_end_idx(s: Seq<char>) -> int
    decreases s.len(),
{
    if s.len() == 0 {
        0
    } else if is_space_char(s.last()) {
        trim_end_idx(s.drop_last())
    } else {
        s.len() as int
    }
}

/// `s` with blank characters removed from both ends.
pub open spec fn trimmed(s: Seq<char>) -> Seq<char> {
    let lo = trim_start_idx(s);
    let hi = trim_end_idx(s);
    if lo <= hi {
        s.subrange(lo, hi)
    } else {
        Seq::empty()
    }
}

pub fn is_space(c: char) -> (r: bool)
    ensures
        r == is_space_char(c),
{
    c == ' ' || c == '\t' || c == '\n' || c == '\r'
}

pub fn is_digit(c: char) -> (r: bool)
    ensures
        r == is_digit_char(c),
{
    '0' <= c && c <= '9'
}

/// A non-blank character at `i` after only blanks pins the start index.
pub proof fn lemma_trim_start_at(s: Seq<char>, i: int)
    requires
        0 <= i < s.len(),
        forall|j: int| 0 <= j < i ==> is_space_char(s[j]),
        !is_space_char(s[i]),
    ensures
        trim_start_idx(s) == i,
    decreases i,
{
    if i == 0 {
    } else {
        lemma_trim_start_at(s.drop_first(), i - 1);
    }
}

/// All blanks: the start index is the length.
pub proof fn lemma_trim_start_all(s: Seq<char>)
    requires
        forall|j: int| 0 <= j < s.len() ==> is_space_char(s[j]),
    ensures
        trim_start_idx(s) == s.len(),
    decreases s.len(),
{
    if s.len() > 0 {
        lemma_trim_start_all(s.drop_first());
    }
}

/// A non-blank character at `i` followed only by blanks pins the end index.
pub proof fn lemma_trim_end_at(s: Seq<char>, i: int)
    requires
        0 <= i < s.len(),
        forall|j: int| i < j < s.len() ==> is_space_char(s[j]),
        !is_space_char(s[i]),
    ensures
        trim_end_idx(s) == i + 1,
    decreases s.len(),
{
    if i + 1 == s.len() {
    } else {
        lemma_trim_end_at(s.drop_last(), i);
    }
}

/// All blanks: the end index is zero.
pub proof fn lemma_trim_end_all(s: Seq<char>)
    requires
        forall|j: int| 0 <= j < s.len() ==> is_space_char(s[j]),
    ensures
        trim_end_idx(s) == 0,
    decreases s.len(),
{
    if s.len() > 0 {
        lemma_trim_end_all(s.drop_last());
    }
}

/// Whether two string slices hold the same characters.
pub fn str_eq(a: &str, b: &str) -> (r: bool)
    ensures
        r == (a@ == b@),
{
    let a_len = a.unicode_len();
    let b_len = b.unicode_len();
    if a_len != b_len {
        return false;
    }
    let mut i: usize = 0;
    while i < a_len
        invariant
            i <= a_len,
            a_len == a@.len(),
            a_len == b@.len(),
            forall|j: int| 0 <= j < i ==> a@[j] == b@[j],
        decreases a_len - i,
    {
        if a.get_char(i) != b.get_char(i) {
            return false;
        }
        i += 1;
    }
    proof {
        assert(a@ =~= b@);
    }
    true
}

/// Whether `sub` occurs contiguously inside `s`.
pub open spec fn seq_contains(s: Seq<char>, sub: Seq<char>) -> bool {
    exists|i: int| 0 <= i <= s.len() - sub.len() && #[trigger] s.subrange(i, i + sub.len()) == sub
}

/// Relies on `str::contains`: true exactly when the pattern matches a
/// sub-slice of the string.
#[verifier::external_body]
pub fn str_contains(s: &str, sub: &str) -> (r: bool)
    ensures
        r == seq_contains(s@, sub@),
{
    s.contains(sub)
}

/// What `str::to_lowercase` returns: a function of the characters alone.
pub uninterp spec fn lower_of(s: Seq<char>) -> Seq<char>;

/// Relies on `str::to_lowercase`: the result depends on the characters
/// alone, and an empty string stays empty.
#[verifier::external_body]
pub fn to_lowercase(s: &str) -> (r: String)
    ensures
        r@ == lower_of(s@),
        s@.len() == 0 ==> r@.len() == 0,
{
    s.to_lowercase()
}

/// What `str::replace` returns: every occurrence of `from` in `s`
/// replaced by `to`, left to right; a function of the three arguments
/// alone.
pub uninterp spec fn replace_of(s: Seq<char>, from: Seq<char>, to: Seq<char>) -> Seq<char>;

/// Relies on `str::replace`: replaces all matches of `from` with `to`.
#[verifier::external_body]
pub fn replace_all(s: &str, from: &str, to: &str) -> (r: String)
    ensures
        r@ == replace_of(s@, from@, to@),
{
    s.replace(from, to)
}

/// Whether the regular-expression engine accepts a pattern: a function
/// of the pattern alone.
pub uninterp spec fn regex_valid(pattern: Seq<char>) -> bool;

/// Relies on `regex::Regex::new`: whether the pattern compiles under the
/// crate's default syntax.
#[verifier::external_body]
pub fn regex_compiles(pattern: &str) -> (r: bool)
    ensures
        r == regex_valid(pattern@),
{
    regex::Regex::new(pattern).is_ok()
}

/// Whether the character occurs in the string.
pub fn char_in_str(s: &str, c: char) -> (r: bool)
    ensures
        r == s@.contains(c),
{
    let len = s.unicode_len();
    let mut i: usize = 0;
    while i < len
        invariant
            i <= len,
            len == s@.len(),
            forall|j: int| 0 <= j < i ==> s@[j] != c,
        decreases len - i,
    {
        if s.get_char(i) == c {
            assert(s@[i as int] == c);
            return true;
        }
        i += 1;
    }
    proof {
        if s@.contains(c) {
            let w = choose|j: int| 0 <= j < s@.len() && s@[j] == c;
            assert(s@[w] != c);
        }
    }
    false
}

/// What a regular-expression match reports for a pattern and a text: a
/// function of the two alone.  An invalid pattern matches nothing.
pub uninterp spec fn regex_match(pattern: Seq<char>, text: Seq<char>) -> bool;

/// Relies on `regex::Regex::new` and `Regex::is_match`: whether the
/// pattern, compiled with the crate's default syntax, matches somewhere in
/// the text.  A pattern that does not compile matches nothing.
#[verifier::external_body]
pub fn regex_is_match(pattern: &str, text: &str) -> (r: bool)
    ensures
        r == regex_match(pattern@, text@),
{
    match regex::Regex::new(pattern) {
        Ok(re) => re.is_match(text),
        Err(_) => false,
    }
}


/// `s` with blank characters removed from both ends, as a fresh string.
pub fn trim_str(s: &str) -> (r: String)
    ensures
        r@ == trimmed(s@),
{
    let len = s.unicode_len();
    let mut lo: usize = 0;
    while lo < len && is_space(s.get_char(lo))
        invariant
            lo <= len,
            len == s@.len(),
            forall|j: int| 0 <= j < lo ==> is_space_char(s@[j]),
        decreases len - lo,
    {
        lo += 1;
    }
    if lo == len {
        proof {
            lemma_trim_start_all(s@);
            lemma_trim_end_all(s@);
            assert(trimmed(s@) =~= Seq::<char>::empty());
        }
        return String::new();
    }
    proof {
        lemma_trim_start_at(s@, lo as int);
    }
    let mut hi: usize = len;
    while hi > lo && is_space(s.get_char(hi - 1))
        invariant
            lo <= hi <= len,
            len == s@.len(),
            forall|j: int| hi <= j < len ==> is_space_char(s@[j]),
            !is_space_char(s@[lo as int]),
        decreases hi,
    {
        hi -= 1;
    }
    proof {
        lemma_trim_end_at(s@, hi - 1);
        assert(trimmed(s@) =~= s@.subrange(lo as int, hi as int));
    }
    s.substring_char(lo, hi).to_owned()
}

/// The blank-separated words of `s[i..]`, given the partial word `cur`
/// and the words `out` already completed.
pub open spec fn split_ws_from(s: Seq<char>, i: int, cur: Seq<char>, out: Seq<Seq<char>>) -> Seq<
    Seq<char>,
>
    decreases s.len() - i,
{
    if i < 0 || i >= s.len() {
        if cur.len() > 0 {
            out.push(cur)
        } else {
            out
        }
    } else if is_space_char(s[i]) {
        if cur.len() > 0 {
            split_ws_from(s, i + 1, Seq::empty(), out.push(cur))
        } else {
            split_ws_from(s, i + 1, cur, out)
        }
    } else {
        split_ws_from(s, i + 1, cur.push(s[i]), out)
    }
}

/// The blank-separated words of `s`, in order, without empties.
pub open spec fn words(s: Seq<char>) -> Seq<Seq<char>> {
    split_ws_from(s, 0, Seq::empty(), Seq::empty())
}

/// Split `s` into its blank-separated words.
pub fn split_whitespace_vec(s: &str) -> (r: Vec<String>)
    ensures
        r@.map_values(|w: String| w@) == words(s@),
{
    let len = s.unicode_len();
    let mut out: Vec<String> = Vec::new();
    let mut cur = String::new();
    proof {
        assert(out@.map_values(|w: String| w@) =~= Seq::<Seq<char>>::empty());
        assert(cur@ =~= Seq::<char>::empty());
    }
    let mut i: usize = 0;
    while i < len
        invariant
            i <= len,
            len == s@.len(),
            words(s@) == split_ws_from(
                s@,
                i as int,
                cur@,
                out@.map_values(|w: String| w@),
            ),
        decreases len - i,
    {
        let c = s.get_char(i);
        if is_space(c) {
            if !cur.as_str().is_empty() {
                let ghost pre = out@.map_values(|w: String| w@);
                let ghost cv = cur@;
                out.push(cur);
                cur = String::new();
                proof {
                    assert(out@.map_values(|w: String| w@) =~= pre.push(cv));
                }
            }
        } else {
            push_char(&mut cur, c);
        }
        i += 1;
    }
    if !cur.as_str().is_empty() {
        let ghost pre = out@.map_values(|w: String| w@);
        let ghost cv = cur@;
        out.push(cur);
        proof {
            assert(out@.map_values(|w: String| w@) =~= pre.push(cv));
        }
    }
    out
}

/// The words joined by `sep`, in order.
pub open spec fn joined(parts: Seq<Seq<char>>, sep: Seq<char>) -> Seq<char>
    decreases parts.len(),
{
    if parts.len() == 0 {
        Seq::empty()
    } else if parts.len() == 1 {
        parts[0]
    } else {
        joined(parts.drop_last(), sep) + sep + parts.last()
    }
}

/// Join the strings with `sep` between each pair of neighbours.
pub fn join_strings(parts: &Vec<String>, sep: &str) -> (r: String)
    ensures
        r@ == joined(parts@.map_values(|p: String| p@), sep@),
{
    let ghost all = parts@.map_values(|p: String| p@);
    let n = parts.len();
    let mut out = String::new();
    let mut i: usize = 0;
    proof {
        assert(all.take(0) =~= Seq::<Seq<char>>::empty());
    }
    while i < n
        invariant
            i <= n,
            n == parts@.len(),
            all == parts@.map_values(|p: String| p@),
            out@ == joined(all.take(i as int), sep@),
        decreases n - i,
    {
        if i > 0 {
            out.append(sep);
        }
        out.append(parts[i].as_str());
        proof {
            let prefix = all.take(i as int + 1);
            assert(prefix.drop_last() =~= all.take(i as int));
            assert(prefix.last() == all[i as int]);
            if i == 0 {
                assert(joined(prefix, sep@) == prefix[0]);
            }
        }
        i += 1;
    }
    proof {
        assert(all.take(n as int) =~= all);
    }
    out
}

/// Whether `s` begins with `prefix`.
pub open spec fn starts_with(s: Seq<char>, prefix: Seq<char>) -> bool {
    prefix.len() <= s.len() && s.take(prefix.len() as int) == prefix
}

/// Whether the string begins with the prefix.
pub fn str_starts_with(s: &str, prefix: &str) -> (r: bool)
    ensures
        r == starts_with(s@, prefix@),
{
    let s_len = s.unicode_len();
    let p_len = prefix.unicode_len();
    if p_len > s_len {
        return false;
    }
    let mut i: usize = 0;
    while i < p_len
        invariant
            i <= p_len <= s_len,
            s_len == s@.len(),
            p_len == prefix@.len(),
            forall|j: int| 0 <= j < i ==> s@[j] == prefix@[j],
        decreases p_len - i,
    {
        if s.get_char(i) != prefix.get_char(i) {
            proof {
                assert(s@.take(p_len as int)[i as int] != prefix@[i as int]);
            }
            return false;
        }
        i += 1;
    }
    proof {
        assert(s@.take(p_len as int) =~= prefix@);
    }
    true
}

/// The number a sequence of decimal digits denotes (most significant
/// first; an empty sequence denotes zero).
pub open spec fn digits_val(s: Seq<char>) -> nat
    decreases s.len(),
{
    if s.len() == 0 {
        0
    } else {
        digits_val(s.drop_last()) * 10 + digit_val(s.last())
    }
}

/// The value of one decimal digit (zero for anything else).
pub open spec fn digit_val(c: char) -> nat {
    match c {
        '0' => 0nat,
        '1' => 1nat,
        '2' => 2nat,
        '3' => 3nat,
        '4' => 4nat,
        '5' => 5nat,
        '6' => 6nat,
        '7' => 7nat,
        '8' => 8nat,
        '9' => 9nat,
        _ => 0nat,
    }
}

/// Whether every character is a decimal digit.
pub open spec fn all_digits(s: Seq<char>) -> bool {
    forall|i: int| 0 <= i < s.len() ==> is_digit_char(#[trigger] s[i])
}

/// Prefixes never denote more than the whole digit string.
proof fn lemma_digits_val_prefix(s: Seq<char>, i: int)
    requires
        0 <= i <= s.len(),
    ensures
        digits_val(s.take(i)) <= digits_val(s),
    decreases s.len() - i,
{
    if i < s.len() {
        lemma_digits_val_prefix(s, i + 1);
        assert(s.take(i + 1).drop_last() =~= s.take(i));
        assert(s.take(i + 1).last() == s[i]);
    } else {
        assert(s.take(i) =~= s);
    }
}

fn exec_digit_val(c: char) -> (r: u64)
    requires
        is_digit_char(c),
    ensures
        r == digit_val(c),
        r <= 9,
{
    match c {
        '0' => 0,
        '1' => 1,
        '2' => 2,
        '3' => 3,
        '4' => 4,
        '5' => 5,
        '6' => 6,
        '7' => 7,
        '8' => 8,
        _ => 9,
    }
}

/// Parse a non-empty, all-digit string as a number; anything else — an
/// empty string, a stray character, a value past the greatest `usize` —
/// is rejected.
pub fn parse_usize(s: &str) -> (r: Option<usize>)
    ensures
        match r {
            Some(n) => s@.len() > 0 && all_digits(s@) && n == digits_val(s@),
            None => s@.len() == 0 || !all_digits(s@) || digits_val(s@) > usize::MAX,
        },
{
    let len = s.unicode_len();
    if len == 0 {
        return None;
    }
    let mut acc: usize = 0;
    let mut i: usize = 0;
    proof {
        assert(s@.take(0) =~= Seq::<char>::empty());
    }
    while i < len
        invariant
            i <= len,
            len == s@.len(),
            all_digits(s@.take(i as int)),
            acc == digits_val(s@.take(i as int)),
        decreases len - i,
    {
        let c = s.get_char(i);
        if !is_digit(c) {
            return None;
        }
        let d = exec_digit_val(c);
        proof {
            assert(s@.take(i as int + 1).drop_last() =~= s@.take(i as int));
            assert(s@.take(i as int + 1).last() == s@[i as int]);
        }
        if acc > (usize::MAX - (d as usize)) / 10 {
            proof {
                lemma_digits_val_prefix(s@, i as int + 1);
            }
            return None;
        }
        acc = acc * 10 + (d as usize);
        i += 1;
    }
    proof {
        assert(s@.take(len as int) =~= s@);
    }
    Some(acc)
}

/// The decimal writing of `n`: its digits, most significant first.
pub open spec fn dec_rep(n: nat) -> Seq<char>
    decreases n,
{
    if n < 10 {
        seq![dec_digit(n)]
    } else {
        dec_rep(n / 10).push(dec_digit(n % 10))
    }
}

/// The digit character for a value below ten.
pub open spec fn dec_digit(n: nat) -> char {
    if n == 0 {
        '0'
    } else if n == 1 {
        '1'
    } else if n == 2 {
        '2'
    } else if n == 3 {
        '3'
    } else if n == 4 {
        '4'
    } else if n == 5 {
        '5'
    } else if n == 6 {
        '6'
    } else if n == 7 {
        '7'
    } else if n == 8 {
        '8'
    } else {
        '9'
    }
}

/// Write `n` in decimal.
pub fn usize_to_string(n: usize) -> (r: String)
    ensures
        r@ == dec_rep(n as nat),
    decreases n,
{
    let digit = n % 10;
    let c: char = if digit == 0 {
        '0'
    } else if digit == 1 {
        '1'
    } else if digit == 2 {
        '2'
    } else if digit == 3 {
        '3'
    } else if digit == 4 {
        '4'
    } else if digit == 5 {
        '5'
    } else if digit == 6 {
        '6'
    } else if digit == 7 {
        '7'
    } else if digit == 8 {
        '8'
    } else {
        '9'
    };
    if n < 10 {
        let mut out = String::new();
        push_char(&mut out, c);
        proof {
            assert(out@ =~= seq![dec_digit(n as nat)]);
        }
        out
    } else {
        let mut out = usize_to_string(n / 10);
        push_char(&mut out, c);
        out
    }
}


/// The fields of `s[i..]` split at `sep`, given the partial field `cur`
/// and the fields `out` already completed.  Unlike word splitting, empty
/// fields are kept: a separator always ends the current field, and the
/// end of the input always yields one final field.
pub open spec fn split_sep_from(
    s: Seq<char>,
    i: int,
    sep: char,
    cur: Seq<char>,
    out: Seq<Seq<char>>,
) -> Seq<Seq<char>>
    decreases s.len() - i,
{
    if i < 0 || i >= s.len() {
        out.push(cur)
    } else if s[i] == sep {
        split_sep_from(s, i + 1, sep, Seq::empty(), out.push(cur))
    } else {
        split_sep_from(s, i + 1, sep, cur.push(s[i]), out)
    }
}

/// The fields of `s` split at `sep`, empty fields kept.
pub open spec fn split_sep(s: Seq<char>, sep: char) -> Seq<Seq<char>> {
    split_sep_from(s, 0, sep, Seq::empty(), Seq::empty())
}

/// Split the string at every occurrence of `sep`, keeping empty fields.
pub fn split_on_char(s: &str, sep: char) -> (r: Vec<String>)
    ensures
        r@.map_values(|f: String| f@) == split_sep(s@, sep),
{
    let len = s.unicode_len();
    let mut out: Vec<String> = Vec::new();
    let mut cur = String::new();
    proof {
        assert(out@.map_values(|f: String| f@) =~= Seq::<Seq<char>>::empty());
        assert(cur@ =~= Seq::<char>::empty());
    }
    let mut i: usize = 0;
    while i < len
        invariant
            i <= len,
            len == s@.len(),
            split_sep(s@, sep) == split_sep_from(
                s@,
                i as int,
                sep,
                cur@,
                out@.map_values(|f: String| f@),
            ),
        decreases len - i,
    {
        let c = s.get_char(i);
        if c == sep {
            let ghost pre = out@.map_values(|f: String| f@);
            let ghost cv = cur@;
            out.push(cur);
            cur = String::new();
            proof {
                assert(out@.map_values(|f: String| f@) =~= pre.push(cv));
            }
        } else {
            push_char(&mut cur, c);
        }
        i += 1;
    }
    let ghost pre = out@.map_values(|f: String| f@);
    let ghost cv = cur@;
    out.push(cur);
    proof {
        assert(out@.map_values(|f: String| f@) =~= pre.push(cv));
    }
    out
}

} // verus!
