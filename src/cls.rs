//! Literal thresholds of column-level access control.
use vstd::prelude::*;

use crate::error::CodecError;

verus! {

/// The type of a literal, inferred from its quoting.
#[derive(Debug, Clone, Copy, PartialEq, Eq, Hash, Structural)]
pub enum NormalizedExprType {
    Numeric,
    String,
}

/// A literal value with its inferred type; a string literal is held without
/// its delimiting single quotes.
#[derive(Debug, Clone, PartialEq, Eq, Hash)]
pub struct NormalizedExpr {
    pub value: String,
    pub data_type: NormalizedExprType,
}

impl View for NormalizedExpr {
    type V = (Seq<char>, NormalizedExprType);

    open spec fn view(&self) -> (Seq<char>, NormalizedExprType) {
        (self.value@, self.data_type)
    }
}

/// A literal written between single quotes.
pub open spec fn is_quoted_literal(s: Seq<char>) -> bool {
    s.len() > 1 && s[0] == '\'' && s[s.len() - 1] == '\''
}

/// The expression that a literal stands for, or `None` for an empty one.
pub open spec fn parsed_expr(s: Seq<char>) -> Option<(Seq<char>, NormalizedExprType)> {
    if s.len() == 0 {
        None
    } else if is_quoted_literal(s) {
        Some((s.subrange(1, s.len() - 1), NormalizedExprType::String))
    } else {
        Some((s, NormalizedExprType::Numeric))
    }
}

/// The canonical text of an expression.
pub open spec fn rendered_expr(e: (Seq<char>, NormalizedExprType)) -> Seq<char> {
    match e.1 {
        NormalizedExprType::String => seq!['\''] + e.0 + seq!['\''],
        NormalizedExprType::Numeric => e.0,
    }
}

impl NormalizedExpr {
    /// Classifies a literal: one between single quotes is a string and loses
    /// its quotes, any other is numeric and is kept as written. An empty
    /// literal is refused.
    pub fn new(expr: &str) -> (r: Result<Self, CodecError>)
        ensures
            r is Err <==> expr@.len() == 0,
            r is Err ==> r == Err::<Self, CodecError>(CodecError::EmptyExpression),
            r is Ok ==> parsed_expr(expr@) == Some(r->Ok_0@),
    {
        let n = expr.unicode_len();
        if n == 0 {
            return Err(CodecError::EmptyExpression);
        }
        if Self::is_string(expr) {
            Ok(NormalizedExpr {
                value: expr.substring_char(1, n - 1).to_owned(),
                data_type: NormalizedExprType::String,
            })
        } else {
            Ok(NormalizedExpr { value: expr.to_owned(), data_type: NormalizedExprType::Numeric })
        }
    }

    /// Whether a literal is written between single quotes.
    pub fn is_string(expr: &str) -> (r: bool)
        ensures
            r == is_quoted_literal(expr@),
    {
        let n = expr.unicode_len();
        n > 1 && expr.get_char(0) == '\'' && expr.get_char(n - 1) == '\''
    }

    /// The canonical text: a string between single quotes, a number bare.
    pub fn render(&self) -> (r: String)
        ensures
            r@ == rendered_expr(self@),
    {
        match self.data_type {
            NormalizedExprType::String => {
                proof {
                    reveal_strlit("'");
                }
                String::from_str("'").concat(self.value.as_str()).concat("'")
            },
            NormalizedExprType::Numeric => self.value.clone(),
        }
    }

    /// Reads an expression from its text, as `new` does.
    pub fn from_str(s: &str) -> (r: Result<Self, CodecError>)
        ensures
            r is Err <==> s@.len() == 0,
            r is Err ==> r == Err::<Self, CodecError>(CodecError::EmptyExpression),
            r is Ok ==> parsed_expr(s@) == Some(r->Ok_0@),
    {
        Self::new(s)
    }
}

/// Rendering the expression that a non-empty literal stands for gives the
/// literal back.
pub proof fn lemma_render_parse(s: Seq<char>)
    requires
        s.len() > 0,
    ensures
        parsed_expr(s) is Some,
        rendered_expr(parsed_expr(s)->Some_0) == s,
{
    if is_quoted_literal(s) {
        assert(seq!['\''] + s.subrange(1, s.len() - 1) + seq!['\''] =~= s);
    }
}

/// A string expression, and a numeric one whose text is non-empty and not
/// between single quotes, are read back unchanged from their canonical text.
pub proof fn lemma_parse_render(e: (Seq<char>, NormalizedExprType))
    requires
        e.1 == NormalizedExprType::Numeric ==> e.0.len() > 0 && !is_quoted_literal(e.0),
    ensures
        parsed_expr(rendered_expr(e)) == Some(e),
{
    if e.1 == NormalizedExprType::String {
        let t = rendered_expr(e);
        assert(t.subrange(1, t.len() - 1) =~= e.0);
    }
}

} // verus!
