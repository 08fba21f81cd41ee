//! The search request: a pattern and a path, read from the positional
//! arguments of a command line.
use vstd::prelude::*;

verus! {

/// What a request holds, as text.
pub struct RequestModel {
    pub pattern: Seq<char>,
    pub path: Seq<char>,
}

/// What a parse error reports, as text.
pub enum ParseErrorModel {
    MissingPattern,
    MissingPath { pattern: Seq<char> },
}

/// A request to search for `pattern` in the file at `path`; both are non-empty.
#[derive(Debug, PartialEq, Eq)]
pub struct SearchRequest {
    pattern: String,
    path: String,
}

/// Why an argument list does not make a request.
#[derive(Debug, PartialEq, Eq)]
pub enum ParseError {
    /// The first positional argument is absent or empty.
    MissingPattern,
    /// The pattern was given, the second positional argument is absent or empty.
    MissingPath { pattern: String },
}

impl View for SearchRequest {
    type V = RequestModel;

    closed spec fn view(&self) -> RequestModel {
        RequestModel { pattern: self.pattern@, path: self.path@ }
    }
}

impl View for ParseError {
    type V = ParseErrorModel;

    open spec fn view(&self) -> ParseErrorModel {
        match self {
            ParseError::MissingPattern => ParseErrorModel::MissingPattern,
            ParseError::MissingPath { pattern } => ParseErrorModel::MissingPath { pattern: pattern@ },
        }
    }
}

impl SearchRequest {
    #[verifier::type_invariant]
    closed spec fn inv(&self) -> bool {
        self.pattern@.len() > 0 && self.path@.len() > 0
    }

    /// The pattern to look for.
    pub fn pattern(&self) -> (r: &str)
        ensures
            r@ == self@.pattern,
            r@.len() > 0,
    {
        proof {
            use_type_invariant(self);
        }
        self.pattern.as_str()
    }

    /// The path of the file to read.
    pub fn path(&self) -> (r: &str)
        ensures
            r@ == self@.path,
            r@.len() > 0,
    {
        proof {
            use_type_invariant(self);
        }
        self.path.as_str()
    }
}

/// The argument at `i`, where it is present and not empty.
pub open spec fn positional(args: Seq<Seq<char>>, i: int) -> Option<Seq<char>> {
    if 0 <= i < args.len() && args[i].len() > 0 {
        Some(args[i])
    } else {
        None
    }
}

/// The outcome of parsing `args`, whose first entry is the program's own name:
/// the pattern stands at index 1 and the path at index 2; later entries are
/// ignored.
pub open spec fn request_of(args: Seq<Seq<char>>) -> Result<RequestModel, ParseErrorModel> {
    match positional(args, 1) {
        None => Err(ParseErrorModel::MissingPattern),
        Some(pattern) => match positional(args, 2) {
            None => Err(ParseErrorModel::MissingPath { pattern }),
            Some(path) => Ok(RequestModel { pattern, path }),
        },
    }
}

/// The text model of a parse outcome.
pub open spec fn outcome_view(r: Result<SearchRequest, ParseError>) -> Result<RequestModel, ParseErrorModel> {
    match r {
        Ok(q) => Ok(q@),
        Err(e) => Err(e@),
    }
}

/// Reads the pattern from index 1 and the path from index 2 of `args`, each
/// from its own position, and copies both verbatim.
pub fn parse(args: &Vec<String>) -> (r: Result<SearchRequest, ParseError>)
    ensures
        outcome_view(r) == request_of(args.deep_view()),
{
    if args.len() < 2 {
        return Err(ParseError::MissingPattern);
    }
    let first: &str = args[1].as_str();
    if first.is_empty() {
        return Err(ParseError::MissingPattern);
    }
    let pattern = args[1].clone();
    if args.len() < 3 {
        return Err(ParseError::MissingPath { pattern });
    }
    let second: &str = args[2].as_str();
    if second.is_empty() {
        return Err(ParseError::MissingPath { pattern });
    }
    let path = args[2].clone();
    Ok(SearchRequest { pattern, path })
}

/// Two non-empty arguments after the program name make a request that holds
/// them verbatim: the pattern is the first, the path the second.
pub proof fn lemma_two_arguments_make_request(program: Seq<char>, pattern: Seq<char>, path: Seq<char>)
    requires
        pattern.len() > 0,
        path.len() > 0,
    ensures
        request_of(seq![program, pattern, path]) == Ok::<RequestModel, ParseErrorModel>(
            RequestModel { pattern, path },
        ),
{
}

/// With no argument after the program name, the pattern is reported missing.
pub proof fn lemma_no_arguments_miss_pattern(args: Seq<Seq<char>>)
    requires
        args.len() <= 1,
    ensures
        request_of(args) == Err::<RequestModel, ParseErrorModel>(ParseErrorModel::MissingPattern),
{
}

/// With one non-empty argument after the program name, the path is reported
/// missing, and the error carries that argument as the pattern.
pub proof fn lemma_one_argument_misses_path(program: Seq<char>, pattern: Seq<char>)
    requires
        pattern.len() > 0,
    ensures
        request_of(seq![program, pattern]) == Err::<RequestModel, ParseErrorModel>(
            ParseErrorModel::MissingPath { pattern },
        ),
{
}

/// The outcome depends on the entries at indexes 1 and 2 alone: neither the
/// program name nor any later argument changes it.
pub proof fn lemma_only_first_two_arguments_count(a: Seq<Seq<char>>, b: Seq<Seq<char>>)
    requires
        a.len() >= 3,
        b.len() >= 3,
        a[1] == b[1],
        a[2] == b[2],
    ensures
        request_of(a) == request_of(b),
{
}

/// Parsing one argument list twice gives equal outcomes.
pub proof fn lemma_parse_idempotent(
    args: Seq<Seq<char>>,
    first: Result<SearchRequest, ParseError>,
    second: Result<SearchRequest, ParseError>,
)
    requires
        outcome_view(first) == request_of(args),
        outcome_view(second) == request_of(args),
    ensures
        outcome_view(first) == outcome_view(second),
{
}

} // verus!
