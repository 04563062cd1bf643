//! The table reference codec: a structured `{catalog, schema, table}` object
//! on the wire, one canonical dotted string in the model.
use vstd::prelude::*;

use crate::error::CodecError;
use crate::identifier::{
    ascii_lower, normalize_parts, normalized_identifiers, parse_identifiers_normalized,
    sql_identifier_parts, strings_view,
};

verus! {

/// The wire form of a table reference; each part may be missing.
#[derive(Debug, Clone, PartialEq, Eq)]
pub struct TableReference {
    pub catalog: Option<String>,
    pub schema: Option<String>,
    pub table: Option<String>,
}

/// The mathematical value of a `TableReference`.
pub struct TableRefView {
    pub catalog: Option<Seq<char>>,
    pub schema: Option<Seq<char>>,
    pub table: Option<Seq<char>>,
}

pub open spec fn opt_view(o: Option<String>) -> Option<Seq<char>> {
    match o {
        Some(s) => Some(s@),
        None => None,
    }
}

impl View for TableReference {
    type V = TableRefView;

    open spec fn view(&self) -> TableRefView {
        TableRefView {
            catalog: opt_view(self.catalog),
            schema: opt_view(self.schema),
            table: opt_view(self.table),
        }
    }
}

/// A wire part that takes part in the dotted string: present and non-empty.
pub open spec fn is_present(o: Option<Seq<char>>) -> bool {
    o is Some && o->Some_0.len() > 0
}

/// The part as a sequence of zero or one element.
pub open spec fn present_part(o: Option<Seq<char>>) -> Seq<Seq<char>> {
    if is_present(o) {
        seq![o->Some_0]
    } else {
        Seq::empty()
    }
}

/// The present parts of a reference, in catalog, schema, table order.
pub open spec fn present_parts(r: TableRefView) -> Seq<Seq<char>> {
    present_part(r.catalog) + present_part(r.schema) + present_part(r.table)
}

/// Appends a part to a dotted string, with a `.` between parts.
pub open spec fn append_part(acc: Seq<char>, o: Option<Seq<char>>) -> Seq<char> {
    if is_present(o) {
        if acc.len() == 0 {
            o->Some_0
        } else {
            acc + seq!['.'] + o->Some_0
        }
    } else {
        acc
    }
}

/// The present parts joined by `.`.
pub open spec fn dotted(r: TableRefView) -> Seq<char> {
    append_part(append_part(append_part(Seq::empty(), r.catalog), r.schema), r.table)
}

/// What a wire reference decodes to: its present parts joined by `.`, or
/// nothing when no part is present.
pub open spec fn decoded_reference(r: Option<TableRefView>) -> Option<Seq<char>> {
    match r {
        Some(v) => if dotted(v).len() == 0 {
            None
        } else {
            Some(dotted(v))
        },
        None => None,
    }
}

/// Places up to three parts from the right: table, then schema, then catalog.
pub open spec fn place_parts(ps: Seq<Seq<char>>) -> TableRefView {
    if ps.len() >= 3 {
        TableRefView { catalog: Some(ps[0]), schema: Some(ps[1]), table: Some(ps[2]) }
    } else if ps.len() == 2 {
        TableRefView { catalog: None, schema: Some(ps[0]), table: Some(ps[1]) }
    } else if ps.len() == 1 {
        TableRefView { catalog: None, schema: None, table: Some(ps[0]) }
    } else {
        TableRefView { catalog: None, schema: None, table: None }
    }
}

/// What a model reference encodes to on the wire.
pub open spec fn encoded_reference(r: Option<Seq<char>>) -> Result<Option<TableRefView>, CodecError> {
    match r {
        None => Ok(None),
        Some(s) => match normalized_identifiers(s, false) {
            None => Err(CodecError::IdentifierSyntax),
            Some(ps) => if ps.len() > 3 {
                Err(CodecError::TableReferenceTooLong)
            } else {
                Ok(Some(place_parts(ps)))
            },
        },
    }
}

pub open spec fn opt_ref_view(r: Option<TableReference>) -> Option<TableRefView> {
    match r {
        Some(t) => Some(t@),
        None => None,
    }
}

fn append_present(acc: String, o: &Option<String>) -> (r: String)
    ensures
        r@ == append_part(acc@, opt_view(*o)),
{
    match o {
        Some(part) => if part.as_str().unicode_len() == 0 {
            acc
        } else if acc.as_str().unicode_len() == 0 {
            part.clone()
        } else {
            proof {
                reveal_strlit(".");
            }
            acc.concat(".").concat(part.as_str())
        },
        None => acc,
    }
}

/// Decodes a wire table reference into its canonical dotted string; a
/// reference with no present part decodes to `None`.
pub fn decode_table_reference(r: Option<TableReference>) -> (s: Option<String>)
    ensures
        opt_view(s) == decoded_reference(opt_ref_view(r)),
{
    match r {
        None => None,
        Some(t) => {
            let acc = append_present(String::new(), &t.catalog);
            let acc = append_present(acc, &t.schema);
            let acc = append_present(acc, &t.table);
            if acc.as_str().unicode_len() == 0 {
                None
            } else {
                Some(acc)
            }
        },
    }
}

/// Encodes a canonical dotted string into its wire form, parts assigned from
/// the right; unquoted parts are lower-cased.
pub fn encode_table_reference(r: &Option<String>) -> (out: Result<Option<TableReference>, CodecError>)
    ensures
        match out {
            Ok(t) => encoded_reference(opt_view(*r)) == Ok::<Option<TableRefView>, CodecError>(opt_ref_view(t)),
            Err(e) => encoded_reference(opt_view(*r)) == Err::<Option<TableRefView>, CodecError>(e),
        },
{
    match r {
        None => Ok(None),
        Some(s) => {
            let parts = parse_identifiers_normalized(s.as_str(), false)?;
            let n = parts.len();
            if n > 3 {
                return Err(CodecError::TableReferenceTooLong);
            }
            let t = if n == 3 {
                TableReference {
                    catalog: Some(parts[0].clone()),
                    schema: Some(parts[1].clone()),
                    table: Some(parts[2].clone()),
                }
            } else if n == 2 {
                TableReference { catalog: None, schema: Some(parts[0].clone()), table: Some(parts[1].clone()) }
            } else if n == 1 {
                TableReference { catalog: None, schema: None, table: Some(parts[0].clone()) }
            } else {
                TableReference { catalog: None, schema: None, table: None }
            };
            assert(strings_view(parts@).len() == n);
            Ok(Some(t))
        },
    }
}

/// The parts of a parsed identifier, all unquoted.
pub open spec fn unquoted(ps: Seq<Seq<char>>) -> Seq<(Seq<char>, Option<char>)> {
    ps.map_values(|p: Seq<char>| (p, None::<char>))
}

/// A wire reference whose present parts, joined by `.`, parse back as
/// exactly those parts unquoted, decodes to that dotted string; encoding it
/// again gives the same parts lower-cased, placed from the right.
pub proof fn lemma_unquoted_round_trip(r: TableRefView)
    requires
        present_parts(r).len() >= 1,
        sql_identifier_parts(dotted(r)) == Some(unquoted(present_parts(r))),
    ensures
        decoded_reference(Some(r)) == Some(dotted(r)),
        encoded_reference(decoded_reference(Some(r))) == Ok::<Option<TableRefView>, CodecError>(
            Some(place_parts(present_parts(r).map_values(|p: Seq<char>| ascii_lower(p)))),
        ),
{
    let ps = present_parts(r);
    assert(dotted(r).len() > 0);
    assert(normalize_parts(unquoted(ps), false) =~= ps.map_values(|p: Seq<char>| ascii_lower(p)));
}

/// A string whose one to three parts are all quoted and non-empty encodes to
/// a wire reference holding their exact text, whose present parts are those
/// same texts: decoding it joins them unchanged.
pub proof fn lemma_quoted_round_trip(s: Seq<char>)
    requires
        sql_identifier_parts(s) is Some,
        1 <= sql_identifier_parts(s)->Some_0.len() <= 3,
        forall|i: int| 0 <= i < sql_identifier_parts(s)->Some_0.len()
            ==> (#[trigger] sql_identifier_parts(s)->Some_0[i]).1 is Some
                && sql_identifier_parts(s)->Some_0[i].0.len() > 0,
    ensures
        ({
            let texts = sql_identifier_parts(s)->Some_0.map_values(|p: (Seq<char>, Option<char>)| p.0);
            &&& encoded_reference(Some(s)) == Ok::<Option<TableRefView>, CodecError>(Some(place_parts(texts)))
            &&& present_parts(place_parts(texts)) == texts
        }),
{
    let ps = sql_identifier_parts(s)->Some_0;
    let texts = ps.map_values(|p: (Seq<char>, Option<char>)| p.0);
    assert(normalize_parts(ps, false) =~= texts);
    assert(present_parts(place_parts(texts)) =~= texts);
}

/// A string that parses into more than three parts cannot be encoded as a
/// table reference.
pub proof fn lemma_too_many_parts(s: Seq<char>)
    requires
        sql_identifier_parts(s) is Some,
        sql_identifier_parts(s)->Some_0.len() > 3,
    ensures
        encoded_reference(Some(s)) == Err::<Option<TableRefView>, CodecError>(CodecError::TableReferenceTooLong),
{
}

} // verus!
