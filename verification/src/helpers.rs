use vstd::prelude::*;
use vstd::string::*;

verus! {

#[verifier::external_type_specification]
#[verifier::external_body]
pub struct ExRegex(regex::Regex);

/// Whether `regex::Regex::new` compiles `pattern` (it fails on a syntax
/// error or where the compiled program exceeds the default size limit).
pub uninterp spec fn regex_compiles(pattern: Seq<char>) -> bool;

/// The text of the leftmost-first match of the regex `pattern` in `text`,
/// as `regex::Regex::captures` and group 0 give it, or `None` where there is none.
pub uninterp spec fn regex_first_match(pattern: Seq<char>, text: Seq<char>) -> Option<Seq<char>>;

/// `c` is one of the ASCII digits `0`..`9`.
pub open spec fn is_ascii_digit(c: char) -> bool {
    '0' <= c && c <= '9'
}

/// `c` is an ASCII character other than a digit (none of these is a
/// Unicode decimal digit, so none is matched by `\d`).
pub open spec fn is_ascii_non_digit(c: char) -> bool {
    (c as u32) < 128 && !is_ascii_digit(c)
}

/// `text` is `before`, then the run of ASCII digits `digits`, then `after`,
/// where `before` is ASCII without digits and `after` does not start with a
/// digit: `digits` is the first run of digits in `text`, whole.
pub open spec fn first_digit_run(text: Seq<char>, before: Seq<char>, digits: Seq<char>, after: Seq<char>) -> bool {
    &&& text == before + digits + after
    &&& forall|i: int| 0 <= i < before.len() ==> is_ascii_non_digit(#[trigger] before[i])
    &&& digits.len() > 0
    &&& forall|i: int| 0 <= i < digits.len() ==> is_ascii_digit(#[trigger] digits[i])
    &&& after.len() == 0 || is_ascii_non_digit(after[0])
}

/// `found` is the first run of digits of `text`, whole, wherever `text` has
/// such a run after ASCII non-digits and before an ASCII non-digit or the end.
pub open spec fn finds_first_digit_run(text: Seq<char>, found: Option<String>) -> bool {
    forall|before: Seq<char>, digits: Seq<char>, after: Seq<char>|
        #[trigger] first_digit_run(text, before, digits, after) ==> (found matches Some(m) && m@ == digits)
}

/// A compiled regex together with the pattern it was compiled from.
pub struct Pattern {
    regex: regex::Regex,
    source: Ghost<Seq<char>>,
}

impl Pattern {
    pub closed spec fn source(&self) -> Seq<char> {
        self.source@
    }
}

/// Calls `regex::Regex::new`, keeping the regex and dropping the error's
/// detail. Claimed: it succeeds exactly when the pattern compiles, and the
/// compiled regex is that of the pattern; the pattern `\d+` (a valid
/// pattern, far below the default size limit) compiles.
#[verifier::external_body]
fn compile_pattern(pattern: &str) -> (r: Option<Pattern>)
    ensures
        r is Some == regex_compiles(pattern@),
        r matches Some(p) ==> p.source() == pattern@,
        pattern@ == "\\d+"@ ==> r is Some,
{
    match regex::Regex::new(pattern) {
        Ok(regex) => Some(Pattern { regex, source: Ghost(pattern@) }),
        Err(_) => None,
    }
}

/// Calls `regex::Regex::captures` and takes group 0 (which the crate
/// guarantees for every match) as text. Claimed: the result is the first
/// match of the pattern in `text`, and a match is a span of `text`; for the
/// pattern `\d+`, whose match is leftmost and greedy, the match is the first
/// run of digits, whole, where that run follows ASCII non-digits and is
/// followed by an ASCII non-digit or the end.
#[verifier::external_body]
fn first_match(p: &Pattern, text: &str) -> (r: Option<String>)
    ensures
        p.source() == "\\d+"@ ==> finds_first_digit_run(text@, r),
        r matches Some(m) ==> regex_first_match(p.source(), text@) == Some(m@),
        r is None ==> regex_first_match(p.source(), text@) is None,
        r matches Some(m) ==> exists|i: int|
            0 <= i && i + m@.len() <= text@.len() && #[trigger] text@.subrange(i, i + m@.len()) == m@,
{
    match p.regex.captures(text) {
        Some(caps) => match caps.get(0) {
            Some(m) => Some(m.as_str().to_string()),
            None => None,
        },
        None => None,
    }
}

/// The pattern of the run of digits in a thread's label.
pub open spec fn digits_pattern() -> Seq<char> {
    "\\d+"@
}

/// The number in a thread's label: the first run of digits found in it
/// (`None` where there is none, or where the pattern does not compile).
pub open spec fn thread_number(label: Seq<char>) -> Option<Seq<char>> {
    if regex_compiles(digits_pattern()) {
        regex_first_match(digits_pattern(), label)
    } else {
        None
    }
}

/// The name of a consumer: the prefix, then "-" and the thread's number
/// where there is one; the bare prefix otherwise.
pub open spec fn consumer_name(prefix: Seq<char>, number: Option<Seq<char>>) -> Seq<char> {
    match number {
        Some(n) => prefix + "-"@ + n,
        None => prefix,
    }
}

/// Names a consumer from its prefix and the number of its thread, if any.
pub fn consumer_name_from_match(prefix: String, number: Option<String>) -> (name: String)
    ensures
        name@ == consumer_name(prefix@, match number { Some(n) => Some(n@), None => None }),
{
    match number {
        Some(n) => prefix.concat("-").concat(n.as_str()),
        None => prefix,
    }
}

/// The consumer name of the thread whose label (its id as `Debug` prints it,
/// such as "ThreadId(7)") is `thread_label`: the prefix, "-" and the first
/// run of digits in the label; the bare prefix where there is none.
pub fn get_consumer_name(prefix: String, thread_label: &str) -> (name: String)
    ensures
        name@ == consumer_name(prefix@, thread_number(thread_label@)),
        (forall|before: Seq<char>, digits: Seq<char>, after: Seq<char>|
            #[trigger] first_digit_run(thread_label@, before, digits, after) ==> name@ == prefix@ + "-"@ + digits),
{
    let compiled = compile_pattern("\\d+");
    let pattern = match compiled {
        Some(p) => p,
        None => {
            return prefix;
        },
    };
    let number = first_match(&pattern, thread_label);
    let ghost p = prefix@;
    let name = consumer_name_from_match(prefix, number);
    assert forall|before: Seq<char>, digits: Seq<char>, after: Seq<char>|
        #[trigger] first_digit_run(thread_label@, before, digits, after) implies name@ == p + "-"@ + digits by {
    }
    name
}

} // verus!
