//! The access-log grammar: one fixed regular expression, compiled once and
//! shared read-only by every parse.

use vstd::prelude::*;

verus! {

/// `host ident authuser [timestamp] "request" status bytes`, anchored at the
/// start of the line. The timestamp group is optional inside its brackets.
pub const ACCESS_LOG_PATTERN: &'static str =
    "^([\\d.]+) (\\S+) (\\S+) \\[([\\w:/]+\\s[\\+\\-]\\d{2}:?\\d{2}){0,1}\\] \"(.+?)\" (\\d{3}) (\\d+)";

/// Groups of a match: the whole match, then the seven parenthesised groups.
pub const GROUP_COUNT: usize = 8;

pub const GROUP_HOST: usize = 1;
pub const GROUP_IDENT: usize = 2;
pub const GROUP_AUTHUSER: usize = 3;
pub const GROUP_TIMESTAMP: usize = 4;
pub const GROUP_REQUEST: usize = 5;
pub const GROUP_STATUS: usize = 6;
pub const GROUP_BYTES: usize = 7;

/// `regex::Regex`, a compiled pattern. Nothing inside it is visible here.
#[verifier::external_type_specification]
#[verifier::external_body]
pub struct ExRegex(regex::Regex);

/// `regex::Error`, the reason a pattern was not compiled.
#[verifier::external_type_specification]
#[verifier::external_body]
pub struct ExRegexError(regex::Error);

/// The pattern text that a compiled `regex::Regex` was built from, which
/// `Regex::as_str` hands back.
pub uninterp spec fn pattern_of(re: regex::Regex) -> Seq<char>;

/// Whether `regex::Regex::new` accepts the pattern.
pub uninterp spec fn pattern_compiles(pattern: Seq<char>) -> bool;

/// What `regex::Regex::captures` finds for a pattern in a text: nothing, or
/// the leftmost match as the list of its groups, the whole match first, each
/// group either the text it matched or absent.
pub uninterp spec fn regex_captures(pattern: Seq<char>, text: Seq<char>) -> Option<
    Seq<Option<Seq<char>>>,
>;

/// The groups of a match as sequences of characters.
pub open spec fn groups_view(groups: Seq<Option<String>>) -> Seq<Option<Seq<char>>> {
    Seq::new(
        groups.len(),
        |i: int|
            match groups[i] {
                Some(text) => Some(text@),
                None => None,
            },
    )
}

/// The outcome of a search as sequences of characters.
pub open spec fn captures_view(found: Option<Vec<Option<String>>>) -> Option<
    Seq<Option<Seq<char>>>,
> {
    match found {
        Some(groups) => Some(groups_view(groups@)),
        None => None,
    }
}

/// Calls `regex::Regex::new`. The contract claims that whether the pattern is
/// accepted depends on the pattern alone, and that the compiled value keeps
/// the pattern it was given.
#[verifier::external_body]
fn compile(pattern: &str) -> (r: Result<regex::Regex, regex::Error>)
    ensures
        r is Ok <==> pattern_compiles(pattern@),
        r matches Ok(re) ==> pattern_of(re) == pattern@,
{
    regex::Regex::new(pattern)
}

/// Calls `regex::Regex::captures` and copies each group of the match out of
/// the haystack. The contract claims that the outcome depends on the pattern
/// and the text alone.
#[verifier::external_body]
fn capture_groups(re: &regex::Regex, text: &str) -> (r: Option<Vec<Option<String>>>)
    ensures
        captures_view(r) == regex_captures(pattern_of(*re), text@),
{
    re.captures(text).map(
        |found| found.iter().map(|group| group.map(|m| m.as_str().to_string())).collect(),
    )
}

/// The prepared grammar. Build it once and share it: parsing only reads it.
pub struct LogParser {
    grammar: regex::Regex,
}

/// The groups that the grammar finds in a line, if the line matches.
pub open spec fn line_groups(line: Seq<char>) -> Option<Seq<Option<Seq<char>>>> {
    regex_captures(ACCESS_LOG_PATTERN@, line)
}

impl LogParser {
    #[verifier::type_invariant]
    spec fn holds_grammar(self) -> bool {
        pattern_of(self.grammar) == ACCESS_LOG_PATTERN@
    }

    /// Compiles the grammar. `None` only if the engine rejects the pattern.
    pub fn new() -> (r: Option<LogParser>)
        ensures
            r is Some <==> pattern_compiles(ACCESS_LOG_PATTERN@),
    {
        match compile(ACCESS_LOG_PATTERN) {
            Ok(re) => Some(LogParser { grammar: re }),
            Err(_) => None,
        }
    }

    /// Matches a line against the grammar and returns the groups of the match.
    pub fn captures(&self, line: &str) -> (r: Option<Vec<Option<String>>>)
        ensures
            captures_view(r) == line_groups(line@),
    {
        proof {
            use_type_invariant(self);
        }
        capture_groups(&self.grammar, line)
    }
}

/// The seven tokens of a matched line, as the grammar cut them out.
#[derive(Clone, Debug, PartialEq, Eq)]
pub struct LogFields {
    pub host: String,
    pub ident: String,
    pub authuser: String,
    /// Absent when the brackets are empty.
    pub timestamp: Option<String>,
    pub request: String,
    pub status: String,
    pub bytes: String,
}

pub struct LogFieldsView {
    pub host: Seq<char>,
    pub ident: Seq<char>,
    pub authuser: Seq<char>,
    pub timestamp: Option<Seq<char>>,
    pub request: Seq<char>,
    pub status: Seq<char>,
    pub bytes: Seq<char>,
}

impl View for LogFields {
    type V = LogFieldsView;

    open spec fn view(&self) -> LogFieldsView {
        LogFieldsView {
            host: self.host@,
            ident: self.ident@,
            authuser: self.authuser@,
            timestamp: match self.timestamp {
                Some(text) => Some(text@),
                None => None,
            },
            request: self.request@,
            status: self.status@,
            bytes: self.bytes@,
        }
    }
}

/// The tokens in a list of groups: there are eight groups, and every group
/// but the timestamp took part in the match.
pub open spec fn fields_of(groups: Seq<Option<Seq<char>>>) -> Option<LogFieldsView> {
    if groups.len() == GROUP_COUNT && groups[GROUP_HOST as int] is Some
        && groups[GROUP_IDENT as int] is Some && groups[GROUP_AUTHUSER as int] is Some
        && groups[GROUP_REQUEST as int] is Some && groups[GROUP_STATUS as int] is Some
        && groups[GROUP_BYTES as int] is Some {
        Some(
            LogFieldsView {
                host: groups[GROUP_HOST as int]->0,
                ident: groups[GROUP_IDENT as int]->0,
                authuser: groups[GROUP_AUTHUSER as int]->0,
                timestamp: groups[GROUP_TIMESTAMP as int],
                request: groups[GROUP_REQUEST as int]->0,
                status: groups[GROUP_STATUS as int]->0,
                bytes: groups[GROUP_BYTES as int]->0,
            },
        )
    } else {
        None
    }
}

/// The text of one group, if the list reaches that far and the group took
/// part in the match.
pub fn group_text(groups: &Vec<Option<String>>, index: usize) -> (r: Option<String>)
    ensures
        r is Some <==> index < groups@.len() && groups@[index as int] is Some,
        r matches Some(text) ==> text@ == groups_view(groups@)[index as int]->0,
{
    if index < groups.len() {
        match &groups[index] {
            Some(text) => Some(text.clone()),
            None => None,
        }
    } else {
        None
    }
}

/// Names the groups of a match. `None` when the list is not the eight groups
/// of the grammar or lacks a group that every match has.
pub fn fields_from_groups(groups: &Vec<Option<String>>) -> (r: Option<LogFields>)
    ensures
        r is Some <==> fields_of(groups_view(groups@)) is Some,
        r matches Some(fields) ==> fields@ == fields_of(groups_view(groups@))->0,
{
    if groups.len() != GROUP_COUNT {
        return None;
    }
    let host = group_text(groups, GROUP_HOST);
    let ident = group_text(groups, GROUP_IDENT);
    let authuser = group_text(groups, GROUP_AUTHUSER);
    let timestamp = group_text(groups, GROUP_TIMESTAMP);
    let request = group_text(groups, GROUP_REQUEST);
    let status = group_text(groups, GROUP_STATUS);
    let bytes = group_text(groups, GROUP_BYTES);
    match (host, ident, authuser, request, status, bytes) {
        (Some(host), Some(ident), Some(authuser), Some(request), Some(status), Some(bytes)) => {
            Some(LogFields { host, ident, authuser, timestamp, request, status, bytes })
        },
        _ => None,
    }
}

} // verus!
