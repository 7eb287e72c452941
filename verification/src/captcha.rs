//! Reading the verification code out of a mail's preview text.
//!
//! The code stands between the brackets `【` and `】`.
use vstd::prelude::*;
use crate::json::owned_text;
use crate::text::{first_from, first_index};

verus! {

/// Why no code could be read from a message.
#[derive(Debug, PartialEq, Eq, Structural)]
pub enum CaptchaError {
    /// The message has no bracketed code.
    NotFound,
}

/// What `split_once('【')` then `split_once('】')` leaves between the two
/// brackets: the text after the first `【` and before the first `】` that follows it.
pub open spec fn split_capture(s: Seq<char>) -> Option<Seq<char>> {
    match first_index(s, '【') {
        Some(a) => {
            let right = s.skip(a + 1);
            match first_index(right, '】') {
                Some(b) => Some(right.take(b)),
                None => None,
            }
        },
        None => None,
    }
}


/// No line break stands strictly between positions `i` and `j`.
pub open spec fn no_newline_between(s: Seq<char>, i: int, j: int) -> bool {
    forall|k: int| i < k < j ==> s[k] != '\n'
}

/// Where a match of `【(.*?)】` that starts at `i` ends: `.` does not cross a
/// line break and the lazy repetition stops at the first `】`.
pub open spec fn lazy_close_at(s: Seq<char>, i: int) -> Option<int> {
    if 0 <= i < s.len() && s[i] == '【' {
        match first_from(s, '】', i + 1) {
            Some(j) => if no_newline_between(s, i, j) {
                Some(j)
            } else {
                None
            },
            None => None,
        }
    } else {
        None
    }
}

/// The first capture group of the leftmost match of `【(.*?)】` at or after `i`.
pub open spec fn bracket_capture_from(s: Seq<char>, i: int) -> Option<Seq<char>>
    decreases s.len() - i,
{
    if i < 0 || i >= s.len() {
        None
    } else {
        match lazy_close_at(s, i) {
            Some(j) => Some(s.subrange(i + 1, j)),
            None => bracket_capture_from(s, i + 1),
        }
    }
}

/// The first capture group of the leftmost match of `【(.*?)】` in `s`.
pub open spec fn bracket_capture(s: Seq<char>) -> Option<Seq<char>> {
    bracket_capture_from(s, 0)
}

/// The text of capture group 1 of the leftmost match of `pattern` in
/// `haystack` (`regex::Regex::new`, then `Regex::captures` and `Captures::get(1)`).
/// The contract is stated for the one pattern the crate uses, `【(.*?)】`,
/// following the regex crate's documented leftmost-first semantics, its lazy
/// repetition and its `.` that matches any character but `\n`.
#[verifier::external_body]
pub(crate) fn regex_capture_group(pattern: &str, haystack: &str) -> (r: Option<String>)
    requires
        pattern@ == "【(.*?)】"@,
    ensures
        owned_text(r) == bracket_capture(haystack@),
{
    let re = match regex::Regex::new(pattern) {
        Ok(re) => re,
        Err(_) => return None,
    };
    match re.captures(haystack) {
        Some(caps) => match caps.get(1) {
            Some(m) => Some(m.as_str().to_string()),
            None => None,
        },
        None => None,
    }
}

} // verus!
