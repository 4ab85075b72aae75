//! Character-level text utilities shared by the store and the dispatcher:
//! digit filtering for phone numbers, whitespace trimming and `file://`
//! scheme stripping for paths.

use vstd::prelude::*;
use vstd::string::StrSliceExecFns;

verus! {

/// `String::push` appends one character; the standard library documents
/// no other effect. Relied on to build strings character by character.
pub assume_specification[ String::push ](s: &mut String, c: char)
    ensures
        final(s)@ == old(s)@.push(c),
;

/// A decimal digit, `'0'` through `'9'`.
pub open spec fn is_digit_char(c: char) -> bool {
    48 <= c as u32 <= 57
}

/// The characters of `s` that are decimal digits, in order.
pub open spec fn digits_of(s: Seq<char>) -> Seq<char>
    decreases s.len(),
{
    if s.len() == 0 {
        Seq::empty()
    } else if is_digit_char(s.last()) {
        digits_of(s.drop_last()).push(s.last())
    } else {
        digits_of(s.drop_last())
    }
}

/// Keeps only the decimal digits of `s`, in order.
pub fn extract_digits(s: &str) -> (r: String)
    ensures
        r@ == digits_of(s@),
{
    let n: usize = s.unicode_len();
    let mut r = String::new();
    let mut i: usize = 0;
    while i < n
        invariant
            i <= n,
            n == s@.len(),
            r@ == digits_of(s@.subrange(0, i as int)),
        decreases n - i,
    {
        let c = s.get_char(i);
        let u = c as u32;
        if 48 <= u && u <= 57 {
            r.push(c);
        }
        proof {
            let pre = s@.subrange(0, i as int);
            let cur = s@.subrange(0, i + 1 as int);
            assert(cur.drop_last() =~= pre);
            assert(cur.last() == s@[i as int]);
        }
        i = i + 1;
    }
    proof {
        assert(s@.subrange(0, n as int) =~= s@);
    }
    r
}

/// A character the trimming step removes: the whitespace characters of
/// the Unicode `White_Space` property.
pub open spec fn is_space_char(c: char) -> bool {
    ||| c as u32 == 0x9
    ||| c as u32 == 0xA
    ||| c as u32 == 0xB
    ||| c as u32 == 0xC
    ||| c as u32 == 0xD
    ||| c as u32 == 0x20
    ||| c as u32 == 0x85
    ||| c as u32 == 0xA0
    ||| c as u32 == 0x1680
    ||| 0x2000 <= c as u32 <= 0x200A
    ||| c as u32 == 0x2028
    ||| c as u32 == 0x2029
    ||| c as u32 == 0x202F
    ||| c as u32 == 0x205F
    ||| c as u32 == 0x3000
}

/// Decides [`is_space_char`] on a concrete character.
pub fn is_space(c: char) -> (r: bool)
    ensures
        r == is_space_char(c),
{
    let u = c as u32;
    u == 0x9 || u == 0xA || u == 0xB || u == 0xC || u == 0xD || u == 0x20 || u == 0x85
        || u == 0xA0 || u == 0x1680 || (0x2000 <= u && u <= 0x200A) || u == 0x2028
        || u == 0x2029 || u == 0x202F || u == 0x205F || u == 0x3000
}

/// `s` without its leading whitespace.
pub open spec fn trim_start_spec(s: Seq<char>) -> Seq<char>
    decreases s.len(),
{
    if s.len() == 0 {
        s
    } else if is_space_char(s.first()) {
        trim_start_spec(s.drop_first())
    } else {
        s
    }
}

/// `s` without its trailing whitespace.
pub open spec fn trim_end_spec(s: Seq<char>) -> Seq<char>
    decreases s.len(),
{
    if s.len() == 0 {
        s
    } else if is_space_char(s.last()) {
        trim_end_spec(s.drop_last())
    } else {
        s
    }
}

/// `s` without leading and trailing whitespace.
pub open spec fn trimmed(s: Seq<char>) -> Seq<char> {
    trim_end_spec(trim_start_spec(s))
}

/// Strips leading and trailing whitespace.
pub fn trim_spaces(s: &str) -> (r: String)
    ensures
        r@ == trimmed(s@),
{
    let n: usize = s.unicode_len();
    proof {
        assert(s@.subrange(0, n as int) =~= s@);
    }
    let mut start: usize = 0;
    while start < n && is_space(s.get_char(start))
        invariant
            start <= n,
            n == s@.len(),
            trim_start_spec(s@) == trim_start_spec(s@.subrange(start as int, n as int)),
        decreases n - start,
    {
        proof {
            let cur = s@.subrange(start as int, n as int);
            assert(cur.drop_first() =~= s@.subrange(start + 1 as int, n as int));
        }
        start = start + 1;
    }
    proof {
        let rest = s@.subrange(start as int, n as int);
        if start < n {
            assert(rest.first() == s@[start as int]);
        }
        assert(trim_start_spec(s@) == rest);
    }
    let mut end: usize = n;
    while end > start && is_space(s.get_char(end - 1))
        invariant
            start <= end <= n,
            n == s@.len(),
            trim_start_spec(s@) == s@.subrange(start as int, n as int),
            trim_end_spec(s@.subrange(start as int, n as int))
                == trim_end_spec(s@.subrange(start as int, end as int)),
        decreases end,
    {
        proof {
            let cur = s@.subrange(start as int, end as int);
            assert(cur.drop_last() =~= s@.subrange(start as int, end - 1 as int));
            assert(cur.last() == s@[end - 1 as int]);
        }
        end = end - 1;
    }
    proof {
        let cur = s@.subrange(start as int, end as int);
        if end > start {
            assert(cur.last() == s@[end - 1 as int]);
        }
        assert(trim_end_spec(s@.subrange(start as int, end as int)) == cur);
    }
    let out = s.substring_char(start, end);
    String::from_str(out)
}

/// `s` without one leading `file://` scheme, if it carries one.
pub open spec fn without_file_scheme(s: Seq<char>) -> Seq<char> {
    if s.len() >= 7 && s.subrange(0, 7) == "file://"@ {
        s.subrange(7, s.len() as int)
    } else {
        s
    }
}

/// A path as the dispatcher uses it: whitespace trimmed, then one
/// leading `file://` scheme removed.
pub open spec fn cleaned_path(s: Seq<char>) -> Seq<char> {
    without_file_scheme(trimmed(s))
}

/// Normalizes a caller-supplied path per [`cleaned_path`].
pub fn clean_path(s: &str) -> (r: String)
    ensures
        r@ == cleaned_path(s@),
{
    let t = trim_spaces(s);
    let ts = t.as_str();
    let n: usize = ts.unicode_len();
    proof {
        reveal_strlit("file://");
    }
    let has_scheme = n >= 7 && ts.get_char(0) == 'f' && ts.get_char(1) == 'i'
        && ts.get_char(2) == 'l' && ts.get_char(3) == 'e' && ts.get_char(4) == ':'
        && ts.get_char(5) == '/' && ts.get_char(6) == '/';
    if has_scheme {
        proof {
            assert(ts@.subrange(0, 7) =~= "file://"@);
        }
        let rest = ts.substring_char(7, n);
        String::from_str(rest)
    } else {
        proof {
            if ts@.len() >= 7 {
                assert(ts@.subrange(0, 7) != "file://"@) by {
                    if ts@.subrange(0, 7) == "file://"@ {
                        assert(ts@.subrange(0, 7)[0] == 'f');
                        assert(ts@.subrange(0, 7)[1] == 'i');
                        assert(ts@.subrange(0, 7)[2] == 'l');
                        assert(ts@.subrange(0, 7)[3] == 'e');
                        assert(ts@.subrange(0, 7)[4] == ':');
                        assert(ts@.subrange(0, 7)[5] == '/');
                        assert(ts@.subrange(0, 7)[6] == '/');
                    }
                }
            }
        }
        t
    }
}

} // verus!
