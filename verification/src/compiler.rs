//! The compiler that a crashing kernel was built with, read from the
//! description in the crash report.

use crate::report::CrashReport;
use crate::error::prefixed;
use vstd::prelude::*;

verus! {

/// The pattern of a compiler description: the compiler's name, a remark in
/// parentheses, and the version.
pub const COMPILER_PATTERN: &'static str = r"^(?P<name>gcc|clang) \(.*?\) (?P<version>[\d.-]+)";

#[derive(Debug, Clone, Copy, PartialEq, Eq, Structural)]
pub enum CompilerType {
    GCC,
    CLANG,
}

/// A compiler and its version.
#[derive(Debug, Clone, Copy, PartialEq, Eq, Structural)]
pub struct Compiler {
    pub compiler_type: CompilerType,
    pub major: usize,
    pub minor: usize,
    pub patch: usize,
}

/// Why no compiler could be read from a report.
#[derive(Debug, PartialEq, Eq)]
pub enum ParseCompilerError {
    /// The report holds no crash.
    NoCrashData,
    /// The description does not have the expected form.
    FormatNotMatched,
    /// The version is not three numbers separated by dots.
    VersionFormat(String),
    /// The name is that of no known compiler.
    UnknownCompiler(String),
}

pub enum ParseCompilerErrorView {
    NoCrashData,
    FormatNotMatched,
    VersionFormat(Seq<char>),
    UnknownCompiler(Seq<char>),
}

impl View for ParseCompilerError {
    type V = ParseCompilerErrorView;

    open spec fn view(&self) -> ParseCompilerErrorView {
        match self {
            ParseCompilerError::NoCrashData => ParseCompilerErrorView::NoCrashData,
            ParseCompilerError::FormatNotMatched => ParseCompilerErrorView::FormatNotMatched,
            ParseCompilerError::VersionFormat(v) => ParseCompilerErrorView::VersionFormat(v@),
            ParseCompilerError::UnknownCompiler(n) => ParseCompilerErrorView::UnknownCompiler(n@),
        }
    }
}

impl ParseCompilerErrorView {
    /// The text shown to a user for this error.
    pub open spec fn message(self) -> Seq<char> {
        match self {
            ParseCompilerErrorView::NoCrashData => "No crash data found in the report"@,
            ParseCompilerErrorView::FormatNotMatched =>
                "Compiler description string does not match the expected format"@,
            ParseCompilerErrorView::VersionFormat(v) => "Version string '"@ + v
                + "' is not in major.minor.patch format"@,
            ParseCompilerErrorView::UnknownCompiler(n) => "Unknown compiler type found: "@ + n,
        }
    }
}

impl CompilerType {
    /// The name of the compiler, as its command is called.
    pub open spec fn name(self) -> Seq<char> {
        match self {
            CompilerType::GCC => "gcc"@,
            CompilerType::CLANG => "clang"@,
        }
    }

    /// The name of the compiler, as its command is called.
    pub fn to_string(&self) -> (s: String)
        ensures
            s@ == self.name(),
    {
        match self {
            CompilerType::GCC => String::from_str("gcc"),
            CompilerType::CLANG => String::from_str("clang"),
        }
    }
}

impl ParseCompilerError {
    /// The text shown to a user for this error.
    pub fn to_string(&self) -> (s: String)
        ensures
            s@ == self@.message(),
    {
        match self {
            ParseCompilerError::NoCrashData => String::from_str(
                "No crash data found in the report",
            ),
            ParseCompilerError::FormatNotMatched => String::from_str(
                "Compiler description string does not match the expected format",
            ),
            ParseCompilerError::VersionFormat(v) => {
                let mut s = prefixed("Version string '", v.as_str());
                s.append("' is not in major.minor.patch format");
                s
            },
            ParseCompilerError::UnknownCompiler(n) => prefixed(
                "Unknown compiler type found: ",
                n.as_str(),
            ),
        }
    }
}

/// The value of a decimal digit, or -1 for any other character.
pub open spec fn digit_value(c: char) -> int {
    if c == '0' {
        0
    } else if c == '1' {
        1
    } else if c == '2' {
        2
    } else if c == '3' {
        3
    } else if c == '4' {
        4
    } else if c == '5' {
        5
    } else if c == '6' {
        6
    } else if c == '7' {
        7
    } else if c == '8' {
        8
    } else if c == '9' {
        9
    } else {
        -1
    }
}

/// Whether every character is a decimal digit.
pub open spec fn is_digits(s: Seq<char>) -> bool {
    forall|i: int| 0 <= i < s.len() ==> digit_value(#[trigger] s[i]) >= 0
}

/// The number that a run of decimal digits denotes.
pub open spec fn digits_value(s: Seq<char>) -> int
    decreases s.len(),
{
    if s.len() == 0 {
        0
    } else {
        digits_value(s.drop_last()) * 10 + digit_value(s.last())
    }
}

/// The number that a text denotes as `usize`: an optional plus sign, then
/// a run of decimal digits.
pub open spec fn parsed_usize(s: Seq<char>) -> Option<usize> {
    let body = if s.len() > 0 && s[0] == '+' {
        s.drop_first()
    } else {
        s
    };
    digits_number(body)
}

/// The number that a run of decimal digits denotes as `usize`: none where
/// it is empty, holds another character, or denotes a value that does not fit.
pub open spec fn digits_number(body: Seq<char>) -> Option<usize> {
    if body.len() > 0 && is_digits(body) && digits_value(body) <= usize::MAX {
        Some(digits_value(body) as usize)
    } else {
        None
    }
}

/// The end of the field that starts at `from`: the position of the next
/// dot, or the end of the text.
pub open spec fn field_end(s: Seq<char>, from: int) -> int
    decreases s.len() - from,
{
    if from >= s.len() {
        s.len() as int
    } else if s[from] == '.' {
        from
    } else {
        field_end(s, from + 1)
    }
}

/// The first three fields of a text that is split at its dots; none where
/// it has fewer than three fields.
pub open spec fn version_fields(s: Seq<char>) -> Option<(Seq<char>, Seq<char>, Seq<char>)> {
    let first = field_end(s, 0);
    let second = field_end(s, first + 1);
    let third = field_end(s, second + 1);
    if first < s.len() && second < s.len() {
        Some(
            (
                s.subrange(0, first),
                s.subrange(first + 1, second),
                s.subrange(second + 1, third),
            ),
        )
    } else {
        None
    }
}

/// The compiler that a name and a version denote.
pub open spec fn compiler_of(name: Seq<char>, version: Seq<char>) -> Result<
    Compiler,
    ParseCompilerErrorView,
> {
    if name != "gcc"@ && name != "clang"@ {
        Err(ParseCompilerErrorView::UnknownCompiler(name))
    } else {
        match version_fields(version) {
            Some((major, minor, patch)) => {
                if parsed_usize(major) is Some && parsed_usize(minor) is Some && parsed_usize(
                    patch,
                ) is Some {
                    Ok(
                        Compiler {
                            compiler_type: if name == "gcc"@ {
                                CompilerType::GCC
                            } else {
                                CompilerType::CLANG
                            },
                            major: parsed_usize(major).unwrap(),
                            minor: parsed_usize(minor).unwrap(),
                            patch: parsed_usize(patch).unwrap(),
                        },
                    )
                } else {
                    Err(ParseCompilerErrorView::VersionFormat(version))
                }
            },
            None => Err(ParseCompilerErrorView::VersionFormat(version)),
        }
    }
}

/// The compiler that the captures of a description denote.
pub open spec fn compiler_from(captures: Option<(Seq<char>, Seq<char>)>) -> Result<
    Compiler,
    ParseCompilerErrorView,
> {
    match captures {
        Some((name, version)) => compiler_of(name, version),
        None => Err(ParseCompilerErrorView::FormatNotMatched),
    }
}

/// The compiler that a report names: that of the description of its first
/// crash, as far as the pattern captures a name and a version in it.
pub open spec fn selected(report: CrashReport) -> Result<Compiler, ParseCompilerErrorView> {
    if report.crashes@.len() == 0 {
        Err(ParseCompilerErrorView::NoCrashData)
    } else {
        compiler_from(
            regex_captures(
                COMPILER_PATTERN@,
                report.crashes@[0].compiler_description@,
                "name"@,
                "version"@,
            ),
        )
    }
}

/// The mathematical value of a selection's result.
pub open spec fn selection_view(r: Result<Compiler, ParseCompilerError>) -> Result<
    Compiler,
    ParseCompilerErrorView,
> {
    match r {
        Ok(compiler) => Ok(compiler),
        Err(e) => Err(e@),
    }
}

/// What the regular expression `pattern` captures in `haystack` under the
/// group names `first` and `second`, at its leftmost match. There is none
/// where the pattern does not compile, where it does not match, or where one
/// of the groups took no part in the match.
pub uninterp spec fn regex_captures(
    pattern: Seq<char>,
    haystack: Seq<char>,
    first: Seq<char>,
    second: Seq<char>,
) -> Option<(Seq<char>, Seq<char>)>;

/// The texts of a pair of strings.
pub open spec fn pair_view(pair: Option<(String, String)>) -> Option<(Seq<char>, Seq<char>)> {
    match pair {
        Some((a, b)) => Some((a@, b@)),
        None => None,
    }
}

/// Calls `regex::Regex::new` on the pattern and `Regex::captures` on the
/// haystack, and reads two named groups with `Captures::name`. The result is
/// named, not described: it depends on the four texts alone.
#[verifier::external_body]
fn capture_pair(pattern: &str, haystack: &str, first: &str, second: &str) -> (r: Option<
    (String, String),
>)
    ensures
        pair_view(r) == regex_captures(pattern@, haystack@, first@, second@),
{
    let re = regex::Regex::new(pattern).ok()?;
    let caps = re.captures(haystack)?;
    let a = caps.name(first)?.as_str().to_string();
    let b = caps.name(second)?.as_str().to_string();
    Some((a, b))
}

/// The value of a decimal digit.
fn digit_of(c: char) -> (d: Option<usize>)
    ensures
        match d {
            Some(v) => v == digit_value(c) && v <= 9,
            None => digit_value(c) == -1,
        },
{
    if c == '0' {
        Some(0)
    } else if c == '1' {
        Some(1)
    } else if c == '2' {
        Some(2)
    } else if c == '3' {
        Some(3)
    } else if c == '4' {
        Some(4)
    } else if c == '5' {
        Some(5)
    } else if c == '6' {
        Some(6)
    } else if c == '7' {
        Some(7)
    } else if c == '8' {
        Some(8)
    } else if c == '9' {
        Some(9)
    } else {
        None
    }
}

/// The value of a run of digits is at least the value of each of its
/// prefixes.
proof fn lemma_prefix_value(s: Seq<char>, k: int)
    requires
        is_digits(s),
        0 <= k <= s.len(),
    ensures
        0 <= digits_value(s.take(k)) <= digits_value(s),
    decreases s.len(),
{
    if k == s.len() {
        assert(s.take(k) =~= s);
        if s.len() > 0 {
            assert(is_digits(s.drop_last()));
            lemma_prefix_value(s.drop_last(), k - 1);
            assert(s.drop_last().take(k - 1) =~= s.drop_last());
        }
    } else {
        assert(is_digits(s.drop_last()));
        lemma_prefix_value(s.drop_last(), k);
        assert(s.drop_last().take(k) =~= s.take(k));
        lemma_prefix_value(s.drop_last(), s.len() - 1);
        assert(s.drop_last().take(s.len() - 1) =~= s.drop_last());
    }
}

/// Reads the characters of `s` from `from` up to `to` as a `usize`, as
/// `str::parse` does.
pub fn parse_number(s: &str, from: usize, to: usize) -> (r: Option<usize>)
    requires
        from <= to <= s@.len(),
    ensures
        r == parsed_usize(s@.subrange(from as int, to as int)),
{
    let ghost text = s@.subrange(from as int, to as int);
    let mut start = from;
    if from < to && s.get_char(from) == '+' {
        start = from + 1;
    }
    let ghost body = s@.subrange(start as int, to as int);
    proof {
        if start == from {
            assert(body =~= text);
        } else {
            assert(body =~= text.drop_first());
        }
    }
    if start == to {
        return None;
    }
    let mut value: usize = 0;
    let mut i = start;
    while i < to
        invariant
            start <= i <= to <= s@.len(),
            body == s@.subrange(start as int, to as int),
            parsed_usize(s@.subrange(from as int, to as int)) == digits_number(body),
            is_digits(body.take(i - start)),
            value == digits_value(body.take(i - start)),
        decreases to - i,
    {
        let c = s.get_char(i);
        let ghost seen = body.take(i - start);
        let ghost next = body.take(i + 1 - start);
        proof {
            assert(next.drop_last() =~= seen);
            assert(next.last() == c);
        }
        match digit_of(c) {
            Some(d) => {
                proof {
                    assert forall|j: int| 0 <= j < next.len() implies digit_value(
                        #[trigger] next[j],
                    ) >= 0 by {
                        if j < seen.len() {
                            assert(next[j] == seen[j]);
                        }
                    }
                }
                if value > (usize::MAX - d) / 10 {
                    proof {
                        assert(digits_value(next) > usize::MAX);
                        if is_digits(body) {
                            lemma_prefix_value(body, i + 1 - start);
                        }
                    }
                    return None;
                }
                value = value * 10 + d;
            },
            None => {
                assert(body[i - start] == c);
                assert(!is_digits(body));
                return None;
            },
        }
        i = i + 1;
    }
    proof {
        assert(body.take(to - start) =~= body);
    }
    Some(value)
}

/// The end of the field of `s` that starts at `from`.
fn find_field_end(s: &str, from: usize) -> (end: usize)
    requires
        from <= s@.len() + 1,
    ensures
        end == if from > s@.len() {
            s@.len() as int
        } else {
            field_end(s@, from as int)
        },
        end <= s@.len(),
        from <= s@.len() ==> from <= end,
{
    let len = s.unicode_len();
    if from >= len {
        return len;
    }
    let mut i = from;
    while i < len && s.get_char(i) != '.'
        invariant
            from <= i <= len,
            len == s@.len(),
            field_end(s@, from as int) == field_end(s@, i as int),
        decreases len - i,
    {
        i = i + 1;
    }
    i
}

/// The compiler that a name and a version denote: `gcc` or `clang`, and
/// the first three fields of the version as numbers.
pub fn compiler_from_captures(name: &str, version: &str) -> (r: Result<
    Compiler,
    ParseCompilerError,
>)
    ensures
        selection_view(r) == compiler_of(name@, version@),
{
    let is_gcc = String::from_str(name) == String::from_str("gcc");
    let is_clang = String::from_str(name) == String::from_str("clang");
    let compiler_type = if is_gcc {
        CompilerType::GCC
    } else if is_clang {
        CompilerType::CLANG
    } else {
        return Err(ParseCompilerError::UnknownCompiler(String::from_str(name)));
    };
    let len = version.unicode_len();
    let first = find_field_end(version, 0);
    if first >= len {
        return Err(ParseCompilerError::VersionFormat(String::from_str(version)));
    }
    let second = find_field_end(version, first + 1);
    if second >= len {
        return Err(ParseCompilerError::VersionFormat(String::from_str(version)));
    }
    let third = find_field_end(version, second + 1);
    let major = parse_number(version, 0, first);
    let minor = parse_number(version, first + 1, second);
    let patch = parse_number(version, second + 1, third);
    match (major, minor, patch) {
        (Some(major), Some(minor), Some(patch)) => Ok(
            Compiler { compiler_type, major, minor, patch },
        ),
        _ => Err(ParseCompilerError::VersionFormat(String::from_str(version))),
    }
}

/// Reads the compiler from the description of the report's first crash.
///
/// A report without a crash gives `NoCrashData`. A description that the
/// pattern does not match gives `FormatNotMatched`. Otherwise the result is
/// that of the captured name and version.
pub fn select_compiler(report: &CrashReport) -> (r: Result<Compiler, ParseCompilerError>)
    ensures
        selection_view(r) == selected(*report),
{
    let crash = match report.first_crash() {
        Some(crash) => crash,
        None => {
            return Err(ParseCompilerError::NoCrashData);
        },
    };
    match capture_pair(COMPILER_PATTERN, crash.compiler_description.as_str(), "name", "version") {
        Some((name, version)) => compiler_from_captures(name.as_str(), version.as_str()),
        None => Err(ParseCompilerError::FormatNotMatched),
    }
}

} // verus!
