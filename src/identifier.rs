//! Dotted SQL identifiers: `catalog.schema.table`, with optional quoting.
use vstd::prelude::*;
use sqlparser::ast::Ident;
use sqlparser::dialect::GenericDialect;
use sqlparser::parser::{Parser, ParserError};

use crate::error::CodecError;

verus! {

#[verifier::external_type_specification]
#[verifier::external_body]
pub struct ExParserError(ParserError);

/// What sqlparser's multi-part identifier grammar makes of a string: for each
/// part its text without quotes and its opening quote character, or `None`
/// when the string is not a multi-part identifier.
pub uninterp spec fn sql_identifier_parts(s: Seq<char>) -> Option<Seq<(Seq<char>, Option<char>)>>;

/// The view of one parsed part: its text and its opening quote, if any.
pub open spec fn part_view(p: (String, Option<char>)) -> (Seq<char>, Option<char>) {
    (p.0@, p.1)
}

/// Relies on sqlparser's `Parser::try_with_sql` and
/// `Parser::parse_multipart_identifier` under the generic dialect: the parts
/// depend on the string alone, and a successful parse has at least one part.
#[verifier::external_body]
fn sql_parse_multipart_identifier(s: &str) -> (r: Result<Vec<(String, Option<char>)>, ParserError>)
    ensures
        r is Ok <==> sql_identifier_parts(s@) is Some,
        r is Ok ==> r->Ok_0@.map_values(|p: (String, Option<char>)| part_view(p))
            == sql_identifier_parts(s@)->Some_0,
        r is Ok ==> r->Ok_0@.len() >= 1,
{
    let dialect = GenericDialect {};
    let idents: Vec<Ident> = Parser::new(&dialect).try_with_sql(s)?.parse_multipart_identifier()?;
    Ok(idents.into_iter().map(|id| (id.value, id.quote_style)).collect())
}

/// A character with ASCII upper-case letters mapped to lower case.
pub open spec fn ascii_lower_char(c: char) -> char {
    if 'A' <= c && c <= 'Z' {
        ((c as u32) + 32) as char
    } else {
        c
    }
}

/// A string with its ASCII upper-case letters mapped to lower case.
pub open spec fn ascii_lower(s: Seq<char>) -> Seq<char> {
    s.map_values(|c: char| ascii_lower_char(c))
}

/// Relies on `str::to_ascii_lowercase`: `A`..`Z` become `a`..`z`, every other
/// character stays.
#[verifier::external_body]
fn ascii_lowercase(s: &str) -> (r: String)
    ensures
        r@ == ascii_lower(s@),
{
    s.to_ascii_lowercase()
}

/// Splits a dotted identifier string into its parts, each with the quote
/// character that delimited it, if any.
pub fn parse_identifiers(s: &str) -> (r: Result<Vec<(String, Option<char>)>, CodecError>)
    ensures
        r is Ok <==> sql_identifier_parts(s@) is Some,
        r is Err ==> r == Err::<Vec<(String, Option<char>)>, CodecError>(CodecError::IdentifierSyntax),
        r is Ok ==> r->Ok_0@.map_values(|p: (String, Option<char>)| part_view(p))
            == sql_identifier_parts(s@)->Some_0,
        r is Ok ==> r->Ok_0@.len() >= 1,
{
    match sql_parse_multipart_identifier(s) {
        Ok(parts) => Ok(parts),
        Err(_) => Err(CodecError::IdentifierSyntax),
    }
}

/// The text of a parsed part after case normalisation: quoted parts keep
/// their case, unquoted ones are folded to lower case unless `ignore_case`.
pub open spec fn normalize_part(p: (Seq<char>, Option<char>), ignore_case: bool) -> Seq<char> {
    if p.1 is Some || ignore_case {
        p.0
    } else {
        ascii_lower(p.0)
    }
}

/// The normalised texts of a sequence of parsed parts.
pub open spec fn normalize_parts(ps: Seq<(Seq<char>, Option<char>)>, ignore_case: bool) -> Seq<Seq<char>> {
    ps.map_values(|p: (Seq<char>, Option<char>)| normalize_part(p, ignore_case))
}

/// The normalised parts of a dotted identifier string, or `None` when it
/// does not parse.
pub open spec fn normalized_identifiers(s: Seq<char>, ignore_case: bool) -> Option<Seq<Seq<char>>> {
    match sql_identifier_parts(s) {
        Some(ps) => Some(normalize_parts(ps, ignore_case)),
        None => None,
    }
}

/// The views of a vector of strings.
pub open spec fn strings_view(v: Seq<String>) -> Seq<Seq<char>> {
    v.map_values(|s: String| s@)
}

/// Splits a dotted identifier string into its parts and normalises their
/// case: quoted parts are kept as written, unquoted parts are lower-cased
/// unless `ignore_case` is set.
pub fn parse_identifiers_normalized(s: &str, ignore_case: bool) -> (r: Result<Vec<String>, CodecError>)
    ensures
        r is Ok <==> normalized_identifiers(s@, ignore_case) is Some,
        r is Err ==> r == Err::<Vec<String>, CodecError>(CodecError::IdentifierSyntax),
        r is Ok ==> strings_view(r->Ok_0@) == normalized_identifiers(s@, ignore_case)->Some_0,
        r is Ok ==> r->Ok_0@.len() >= 1,
{
    let parts = parse_identifiers(s)?;
    let ghost ps = sql_identifier_parts(s@)->Some_0;
    let mut out: Vec<String> = Vec::new();
    let mut i: usize = 0;
    while i < parts.len()
        invariant
            i <= parts@.len(),
            ps == parts@.map_values(|p: (String, Option<char>)| part_view(p)),
            out@.len() == i,
            forall|j: int| 0 <= j < i ==> #[trigger] out@[j]@ == normalize_part(ps[j], ignore_case),
        decreases parts@.len() - i,
    {
        let part = &parts[i];
        let text = if part.1.is_some() || ignore_case {
            part.0.clone()
        } else {
            ascii_lowercase(part.0.as_str())
        };
        out.push(text);
        i = i + 1;
    }
    assert(strings_view(out@) =~= normalize_parts(ps, ignore_case));
    Ok(out)
}

} // verus!
