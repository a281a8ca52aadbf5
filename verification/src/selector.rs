//! Tag-name selectors: a validated, upper-cased tag name.

use vstd::prelude::*;
use vstd::string::*;
use crate::error::DomError;

verus! {

/// Whether `c` is an ASCII letter or an ASCII digit.
pub open spec fn is_ascii_alphanumeric(c: char) -> bool {
    ('a' <= c && c <= 'z') || ('A' <= c && c <= 'Z') || ('0' <= c && c <= '9')
}

/// The upper-case form of an ASCII letter; any other character is itself.
pub open spec fn ascii_upper(c: char) -> char {
    if 'a' <= c && c <= 'z' {
        ((c as u8 - 32) as u8) as char
    } else {
        c
    }
}

/// Whether every character of `s` is an ASCII letter or digit.
pub open spec fn is_valid_selector(s: Seq<char>) -> bool {
    forall|i: int| 0 <= i < s.len() ==> is_ascii_alphanumeric(#[trigger] s[i])
}

/// `s` with each ASCII letter in upper case.
pub open spec fn upper_cased(s: Seq<char>) -> Seq<char> {
    Seq::new(s.len(), |i: int| ascii_upper(s[i]))
}

/// `String::push`: the string afterwards is the string before with `c` added at its end.
#[verifier::external_body]
fn push_char(s: &mut String, c: char)
    ensures
        final(s)@ == old(s)@.push(c),
{
    s.push(c)
}

/// The upper-case form of `c`, computed.
pub fn to_ascii_upper(c: char) -> (u: char)
    ensures
        u == ascii_upper(c),
{
    if 'a' <= c && c <= 'z' {
        let b: u8 = c as u8;
        (b - 32) as char
    } else {
        c
    }
}

/// A parsed selector: the tag name it selects, in upper case.
pub struct Selector(String);

impl View for Selector {
    type V = Seq<char>;

    closed spec fn view(&self) -> Seq<char> {
        self.0@
    }
}

impl Selector {
    /// Parses a selector. It is accepted exactly when every character is an
    /// ASCII letter or digit, and then stands for the upper-cased input.
    pub fn from_str(s: &str) -> (parsed: Result<Selector, DomError>)
        ensures
            parsed is Ok <==> is_valid_selector(s@),
            parsed matches Ok(sel) ==> sel@ == upper_cased(s@),
            parsed matches Err(e) ==> e == DomError::InvalidQuerySelector,
    {
        let n: usize = s.unicode_len();
        let mut upper = String::new();
        let mut i: usize = 0;
        while i < n
            invariant
                n == s@.len(),
                i <= n,
                upper@ == upper_cased(s@.subrange(0, i as int)),
                is_valid_selector(s@.subrange(0, i as int)),
            decreases n - i,
        {
            let c: char = s.get_char(i);
            let valid: bool = ('a' <= c && c <= 'z') || ('A' <= c && c <= 'Z') || ('0' <= c
                && c <= '9');
            if !valid {
                assert(!is_ascii_alphanumeric(s@[i as int]));
                return Err(DomError::InvalidQuerySelector);
            }
            let u: char = to_ascii_upper(c);
            push_char(&mut upper, u);
            proof {
                let before = s@.subrange(0, i as int);
                let after = s@.subrange(0, i + 1);
                assert(after == before.push(c));
                assert(upper@ =~= upper_cased(after));
                assert forall|k: int| 0 <= k < after.len() implies is_ascii_alphanumeric(
                    #[trigger] after[k],
                ) by {
                    if k < i {
                        assert(after[k] == before[k]);
                    }
                }
            }
            i = i + 1;
        }
        assert(s@.subrange(0, n as int) == s@);
        Ok(Selector(upper))
    }

    /// The tag name this selector stands for.
    pub fn as_str(&self) -> (name: &str)
        ensures
            name@ == self@,
    {
        self.0.as_str()
    }

    /// Whether this selector selects the tag name `tag_name`: the two are equal.
    pub fn matches_tag(&self, tag_name: &String) -> (hit: bool)
        ensures
            hit == (tag_name@ == self@),
    {
        *tag_name == self.0
    }
}

} // verus!
