//! Extracting container addresses from the runtime's output.
//!
//! The runtime reports a container's addresses as one string in which
//! addresses may be separated by whitespace or commas — or by nothing at
//! all when a container sits on several networks.  `extract_first_ip`
//! recovers the first address: it scans for digits and dots, stops after
//! the fourth octet, and falls back to the whole (trimmed) input when no
//! address-like text is found.

use vstd::prelude::*;

use crate::text::{is_digit, is_digit_char, is_space, is_space_char, push_char, trim_end_idx, trim_start_idx, trimmed};
use crate::text::{lemma_trim_end_all, lemma_trim_end_at, lemma_trim_start_all, lemma_trim_start_at};

verus! {

/// Up to `k` leading digits of `s[i..b]`.
pub open spec fn leading_digits(s: Seq<char>, i: int, b: int, k: int) -> Seq<char>
    decreases b - i, k,
{
    if i < b && k > 0 && is_digit_char(s[i]) {
        seq![s[i]] + leading_digits(s, i + 1, b, k - 1)
    } else {
        Seq::empty()
    }
}

/// The scan over `s[i..b)` that collects the first address: digits and
/// dots are collected; after the third dot up to three more digits finish
/// the address; any other character ends the scan once collection has
/// begun and is skipped before.
pub open spec fn ip_scan(s: Seq<char>, i: int, b: int, acc: Seq<char>, dots: int) -> Seq<char>
    decreases b - i,
{
    if i >= b {
        acc
    } else {
        let c = s[i];
        if is_digit_char(c) {
            ip_scan(s, i + 1, b, acc.push(c), dots)
        } else if c == '.' {
            if dots == 2 {
                acc.push('.') + leading_digits(s, i + 1, b, 3)
            } else {
                ip_scan(s, i + 1, b, acc.push('.'), dots + 1)
            }
        } else if acc.len() > 0 {
            acc
        } else {
            ip_scan(s, i + 1, b, acc, dots)
        }
    }
}

/// The first address in `s`: what the scan collects from the trimmed
/// input, or the whole trimmed input when it collects nothing.
pub open spec fn first_ip(s: Seq<char>) -> Seq<char> {
    let t = trimmed(s);
    let scanned = ip_scan(t, 0, t.len() as int, Seq::empty(), 0);
    if scanned.len() == 0 {
        t
    } else {
        scanned
    }
}

/// The first address in `ip_string`, per [`first_ip`].
pub fn extract_first_ip(ip_string: &str) -> (r: String)
    ensures
        r@ == first_ip(ip_string@),
{
    let s = ip_string;
    let len = s.unicode_len();
    // Find the trimmed range [lo, hi).
    let mut lo: usize = 0;
    while lo < len && is_space(s.get_char(lo))
        invariant
            lo <= len,
            len == s@.len(),
            forall|j: int| 0 <= j < lo ==> is_space_char(s@[j]),
        decreases len - lo,
    {
        lo += 1;
    }
    if lo == len {
        proof {
            lemma_trim_start_all(s@);
            lemma_trim_end_all(s@);
            assert(trimmed(s@) =~= Seq::<char>::empty());
        }
        return String::new();
    }
    proof {
        lemma_trim_start_at(s@, lo as int);
    }
    let mut hi: usize = len;
    while hi > lo && is_space(s.get_char(hi - 1))
        invariant
            lo <= hi <= len,
            len == s@.len(),
            forall|j: int| hi <= j < len ==> is_space_char(s@[j]),
            forall|j: int| 0 <= j < lo ==> is_space_char(s@[j]),
            !is_space_char(s@[lo as int]),
        decreases hi,
    {
        hi -= 1;
    }
    proof {
        lemma_trim_end_at(s@, hi - 1);
        assert(trimmed(s@) =~= s@.subrange(lo as int, hi as int));
    }
    let ghost t = trimmed(s@);

    // Scan the trimmed range for the first address.
    let ghost b = t.len() as int;
    let ghost scan_result = ip_scan(t, 0, b, Seq::empty(), 0);
    let mut acc = String::new();
    let mut dots: u32 = 0;
    let mut i = lo;
    let mut stopped = false;
    while i < hi && !stopped
        invariant
            lo <= i <= hi <= len,
            len == s@.len(),
            t == s@.subrange(lo as int, hi as int),
            b == t.len(),
            b == hi - lo,
            scan_result == ip_scan(t, 0, b, Seq::empty(), 0),
            dots <= 2,
            !stopped ==> scan_result == ip_scan(t, i - lo, b, acc@, dots as int),
            stopped ==> acc@ == scan_result,
        decreases (if stopped { 0int } else { 1int }), hi - i,
    {
        let c = s.get_char(i);
        proof {
            assert(t[i - lo] == s@[i as int]);
        }
        if is_digit(c) {
            push_char(&mut acc, c);
            i += 1;
        } else if c == '.' {
            if dots == 2 {
                push_char(&mut acc, c);
                i += 1;
                // The last octet: up to three more digits finish the address.
                let ghost base = acc@;
                let mut k: u32 = 0;
                while i < hi && k < 3 && is_digit(s.get_char(i))
                    invariant
                        lo < i <= hi <= len,
                        len == s@.len(),
                        k <= 3,
                        t == s@.subrange(lo as int, hi as int),
                        b == t.len(),
                        b == hi - lo,
                        scan_result == acc@ + leading_digits(t, i - lo, b, 3 - k),
                    decreases hi - i,
                {
                    let d = s.get_char(i);
                    proof {
                        assert(t[i - lo] == s@[i as int]);
                        assert(leading_digits(t, i - lo, b, 3 - k) =~= seq![d] + leading_digits(
                            t,
                            i - lo + 1,
                            b,
                            3 - k - 1,
                        ));
                    }
                    push_char(&mut acc, d);
                    i += 1;
                    k += 1;
                }
                proof {
                    if i - lo < b && 3 - k > 0 {
                        assert(!is_digit_char(t[i - lo]));
                    }
                    assert(leading_digits(t, i - lo, b, 3 - k) =~= Seq::<char>::empty());
                    assert(acc@ =~= acc@ + Seq::<char>::empty());
                }
                stopped = true;
            } else {
                push_char(&mut acc, c);
                dots += 1;
                i += 1;
            }
        } else if acc.as_str().unicode_len() > 0 {
            stopped = true;
        } else {
            i += 1;
        }
    }
    proof {
        if !stopped {
            assert(ip_scan(t, i - lo, b, acc@, dots as int) == acc@);
        }
    }
    if acc.as_str().unicode_len() == 0 {
        let out = s.substring_char(lo, hi).to_owned();
        proof {
            assert(out@ == first_ip(s@));
        }
        out
    } else {
        proof {
            assert(acc@ == first_ip(s@));
        }
        acc
    }
}

} // verus!
