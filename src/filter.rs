//! Filters decide how strictly a command trigger must match the text of a
//! message. Matching itself is done by the `regex` crate on a pattern built
//! here from the trigger.
use vstd::prelude::*;

verus! {

/// How strictly a trigger has to match a message.
#[derive(Clone, Copy, Debug, PartialEq, Eq, Structural, Hash)]
pub enum Filter {
    /// The message must be exactly the trigger.
    Strict,
    /// Case-insensitive; surrounding whitespace and one leading symbol are allowed.
    Flexible,
    /// Case-insensitive; the trigger, without its leading symbols, must appear as a
    /// whole word anywhere in the message.
    Sensitive,
}

/// Whether the regex syntax gives `c` a meaning of its own.
pub open spec fn is_meta(c: char) -> bool {
    c == '\\' || c == '.' || c == '+' || c == '*' || c == '?' || c == '(' || c == ')' || c
        == '|' || c == '[' || c == ']' || c == '{' || c == '}' || c == '^' || c == '$' || c
        == '#' || c == '&' || c == '-' || c == '~'
}

/// `s` with a backslash put before each meta character.
pub open spec fn escaped(s: Seq<char>) -> Seq<char>
    decreases s.len(),
{
    if s.len() == 0 {
        Seq::empty()
    } else {
        let c = s.last();
        let tail = if is_meta(c) {
            seq!['\\', c]
        } else {
            seq![c]
        };
        escaped(s.drop_last()) + tail
    }
}

/// Relies on regex::escape, which puts a backslash before each meta character
/// and copies every other character.
pub assume_specification[ regex::escape ](pattern: &str) -> (r: String)
    ensures
        r@ == escaped(pattern@),
;

/// What compiling `pattern` and searching `text` with it gives: `None` where the
/// pattern does not compile, else whether some part of `text` matches.
pub uninterp spec fn regex_search(pattern: Seq<char>, text: Seq<char>) -> Option<bool>;

/// Relies on regex::Regex::new and regex::Regex::is_match: compiling depends on
/// the pattern alone, and the answer of the compiled expression on the text alone.
#[verifier::external_body]
fn search(pattern: &str, text: &str) -> (r: Option<bool>)
    ensures
        r == regex_search(pattern@, text@),
{
    match regex::Regex::new(pattern) {
        Ok(re) => Some(re.is_match(text)),
        Err(_) => None,
    }
}

/// Whether Unicode counts `c` as alphabetic or numeric.
pub uninterp spec fn alphanumeric(c: char) -> bool;

/// Relies on char::is_alphanumeric, a property of the character alone.
pub assume_specification[ char::is_alphanumeric ](c: char) -> (r: bool)
    ensures
        r == alphanumeric(c),
;

/// `s` without its leading characters that are not alphanumeric.
pub open spec fn trim_symbols(s: Seq<char>) -> Seq<char>
    decreases s.len(),
{
    if s.len() > 0 && !alphanumeric(s[0]) {
        trim_symbols(s.drop_first())
    } else {
        s
    }
}

/// The pattern that a trigger gives under a filter.
pub open spec fn filter_pattern(command: Seq<char>, filter: Filter) -> Seq<char> {
    match filter {
        Filter::Strict => "^"@ + escaped(command) + "$"@,
        Filter::Flexible => "(?i)^\\s*[^\\p{Alphabetic}\\p{N}\\s]?"@ + escaped(command) + "\\s*$"@,
        Filter::Sensitive => "(?i)(?:^|[\\W_])"@ + escaped(trim_symbols(command))
            + "(?:[\\W_]|$)"@,
    }
}

/// Whether `message` triggers `command` under `filter`.
pub open spec fn command_matches(message: Seq<char>, command: Seq<char>, filter: Filter) -> bool {
    regex_search(filter_pattern(command, filter), message) == Some(true)
}

/// The part of `s` after its leading characters that are not alphanumeric.
fn trim_start_symbols(s: &str) -> (r: &str)
    ensures
        r@ == trim_symbols(s@),
{
    let n = s.unicode_len();
    let mut i: usize = 0;
    assert(s@.subrange(0, n as int) =~= s@);
    while i < n && !s.get_char(i).is_alphanumeric()
        invariant
            n == s@.len(),
            i <= n,
            trim_symbols(s@) == trim_symbols(s@.subrange(i as int, n as int)),
        decreases n - i,
    {
        proof {
            let rest = s@.subrange(i as int, n as int);
            assert(rest.drop_first() =~= s@.subrange(i + 1, n as int));
        }
        i = i + 1;
    }
    proof {
        let rest = s@.subrange(i as int, n as int);
        if i < n {
            assert(rest[0] == s@[i as int]);
        }
        assert(s@.subrange(n as int, n as int).len() == 0);
    }
    s.substring_char(i, n)
}

/// The pattern that `command` gives under `filter`.
fn pattern_for(command: &str, filter: &Filter) -> (r: String)
    ensures
        r@ == filter_pattern(command@, *filter),
{
    match filter {
        Filter::Strict => {
            let mut p = String::from_str("^");
            p.append(regex::escape(command).as_str());
            p.append("$");
            p
        },
        Filter::Flexible => {
            let mut p = String::from_str("(?i)^\\s*[^\\p{Alphabetic}\\p{N}\\s]?");
            p.append(regex::escape(command).as_str());
            p.append("\\s*$");
            p
        },
        Filter::Sensitive => {
            let mut p = String::from_str("(?i)(?:^|[\\W_])");
            p.append(regex::escape(trim_start_symbols(command)).as_str());
            p.append("(?:[\\W_]|$)");
            p
        },
    }
}

/// Whether `message` triggers `command` under `filter`.
pub fn matchit(message: &str, command: &str, filter: &Filter) -> (r: bool)
    ensures
        r == command_matches(message@, command@, *filter),
{
    let pattern = pattern_for(command, filter);
    match search(pattern.as_str(), message) {
        Some(found) => found,
        None => false,
    }
}

} // verus!
