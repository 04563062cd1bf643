//! The wire forms of the manifest's entities and the conversions between
//! them and the model. Decoding is all-or-nothing: one failing field fails
//! the whole entity.
use vstd::prelude::*;
use std::sync::Arc;

use crate::cls::{parsed_expr, NormalizedExpr};
use crate::error::CodecError;
use crate::legacy_bool::{decode_bool, decoded_bool, WireValue};
use crate::manifest::{
    Column, ColumnLevelAccessControl, ColumnLevelOperator, DataSource, Manifest, Metric, Model,
    Relationship, RowLevelAccessControl, TimeGrain, TimeUnit,
};
use crate::table_reference::{
    decode_table_reference, decoded_reference, encode_table_reference, encoded_reference,
    opt_ref_view, opt_view, TableRefView, TableReference,
};
use crate::session::{from_wire_view, to_wire_view, SessionProperty, SessionPropertyWire};

verus! {

/// A boolean field on the wire; a missing one reads as false.
pub open spec fn decoded_flag(v: Option<WireValue>) -> Result<bool, CodecError> {
    match v {
        None => Ok(false),
        Some(w) => decoded_bool(w),
    }
}

/// Reads a boolean field that may be missing.
pub fn decode_flag(v: Option<WireValue>) -> (r: Result<bool, CodecError>)
    ensures
        r == decoded_flag(v),
{
    match v {
        None => Ok(false),
        Some(w) => decode_bool(w),
    }
}

fn clone_opt(o: &Option<String>) -> (r: Option<String>)
    ensures
        r == *o,
{
    match o {
        Some(s) => Some(s.clone()),
        None => None,
    }
}

/// Reads a list of session properties, deriving each normalised name.
pub fn decode_properties(ws: &Vec<SessionPropertyWire>) -> (r: Vec<SessionProperty>)
    ensures
        r@.len() == ws@.len(),
        forall|i: int| 0 <= i < ws@.len() ==> (#[trigger] r@[i]).wf() && r@[i]@ == from_wire_view(ws@[i]@),
{
    let mut out: Vec<SessionProperty> = Vec::new();
    let mut i: usize = 0;
    while i < ws.len()
        invariant
            i <= ws@.len(),
            out@.len() == i,
            forall|j: int| 0 <= j < i ==> (#[trigger] out@[j]).wf() && out@[j]@ == from_wire_view(ws@[j]@),
        decreases ws@.len() - i,
    {
        let w = &ws[i];
        out.push(SessionProperty::new(w.name.clone(), w.required, clone_opt(&w.default_expr)));
        i = i + 1;
    }
    out
}

/// Writes a list of session properties without their normalised names.
pub fn encode_properties(ps: &Vec<SessionProperty>) -> (r: Vec<SessionPropertyWire>)
    ensures
        r@.len() == ps@.len(),
        forall|i: int| 0 <= i < ps@.len() ==> (#[trigger] r@[i])@ == to_wire_view(ps@[i]@),
{
    let mut out: Vec<SessionPropertyWire> = Vec::new();
    let mut i: usize = 0;
    while i < ps.len()
        invariant
            i <= ps@.len(),
            out@.len() == i,
            forall|j: int| 0 <= j < i ==> (#[trigger] out@[j])@ == to_wire_view(ps@[j]@),
        decreases ps@.len() - i,
    {
        out.push(ps[i].to_wire());
        i = i + 1;
    }
    out
}

/// The wire form of a column-level access control: the threshold is the
/// literal's text.
#[derive(Debug, Clone, PartialEq, Eq)]
pub struct ColumnLevelAccessControlWire {
    pub name: String,
    pub required_properties: Vec<SessionPropertyWire>,
    pub operator: ColumnLevelOperator,
    pub threshold: String,
}

/// The wire form of a row-level access control.
#[derive(Debug, Clone, PartialEq, Eq)]
pub struct RowLevelAccessControlWire {
    pub name: String,
    pub required_properties: Vec<SessionPropertyWire>,
    pub condition: String,
}

/// The column-level policy that a readable wire policy stands for.
pub open spec fn clac_from(w: ColumnLevelAccessControlWire, c: ColumnLevelAccessControl) -> bool {
    &&& c.name == w.name
    &&& c.operator == w.operator
    &&& parsed_expr(w.threshold@) == Some(c.threshold@)
    &&& c.required_properties@.len() == w.required_properties@.len()
    &&& forall|i: int| 0 <= i < w.required_properties@.len()
        ==> (#[trigger] c.required_properties@[i])@ == from_wire_view(w.required_properties@[i]@)
}

/// The row-level policy that a wire policy stands for.
pub open spec fn rlac_from(w: RowLevelAccessControlWire, r: RowLevelAccessControl) -> bool {
    &&& r.name == w.name
    &&& r.condition == w.condition
    &&& r.required_properties@.len() == w.required_properties@.len()
    &&& forall|i: int| 0 <= i < w.required_properties@.len()
        ==> (#[trigger] r.required_properties@[i])@ == from_wire_view(w.required_properties@[i]@)
}

/// The wire form of a column-level policy: the threshold in its canonical
/// text, the properties without their normalised names.
pub open spec fn clac_to(c: ColumnLevelAccessControl, w: ColumnLevelAccessControlWire) -> bool {
    &&& w.name == c.name
    &&& w.operator == c.operator
    &&& w.threshold@ == crate::cls::rendered_expr(c.threshold@)
    &&& w.required_properties@.len() == c.required_properties@.len()
    &&& forall|i: int| 0 <= i < c.required_properties@.len()
        ==> (#[trigger] w.required_properties@[i])@ == to_wire_view(c.required_properties@[i]@)
}

/// The wire form of a row-level policy.
pub open spec fn rlac_to(r: RowLevelAccessControl, w: RowLevelAccessControlWire) -> bool {
    &&& w.name == r.name
    &&& w.condition == r.condition
    &&& w.required_properties@.len() == r.required_properties@.len()
    &&& forall|i: int| 0 <= i < r.required_properties@.len()
        ==> (#[trigger] w.required_properties@[i])@ == to_wire_view(r.required_properties@[i]@)
}

impl ColumnLevelAccessControl {
    /// Reads a policy; it fails exactly when its threshold is empty.
    pub fn from_wire(w: &ColumnLevelAccessControlWire) -> (r: Result<Self, CodecError>)
        ensures
            r is Err <==> w.threshold@.len() == 0,
            r is Err ==> r == Err::<Self, CodecError>(CodecError::EmptyExpression),
            r matches Ok(c) ==> clac_from(*w, c),
    {
        let threshold = NormalizedExpr::new(w.threshold.as_str())?;
        Ok(ColumnLevelAccessControl {
            name: w.name.clone(),
            required_properties: decode_properties(&w.required_properties),
            operator: w.operator,
            threshold,
        })
    }

    /// Writes a policy; the threshold in its canonical text.
    pub fn to_wire(&self) -> (r: ColumnLevelAccessControlWire)
        ensures
            clac_to(*self, r),
    {
        ColumnLevelAccessControlWire {
            name: self.name.clone(),
            required_properties: encode_properties(&self.required_properties),
            operator: self.operator,
            threshold: self.threshold.render(),
        }
    }
}

impl RowLevelAccessControl {
    /// Reads a policy, deriving the normalised names of its properties.
    pub fn from_wire(w: &RowLevelAccessControlWire) -> (r: Self)
        ensures
            rlac_from(*w, r),
    {
        RowLevelAccessControl {
            name: w.name.clone(),
            required_properties: decode_properties(&w.required_properties),
            condition: w.condition.clone(),
        }
    }

    /// Writes a policy without the normalised names of its properties.
    pub fn to_wire(&self) -> (r: RowLevelAccessControlWire)
        ensures
            rlac_to(*self, r),
    {
        RowLevelAccessControlWire {
            name: self.name.clone(),
            required_properties: encode_properties(&self.required_properties),
            condition: self.condition.clone(),
        }
    }
}

/// The wire form of a column. Boolean fields may be missing or in the
/// legacy integer form; an empty expression stands for none.
#[derive(Debug, Clone, PartialEq, Eq)]
pub struct ColumnWire {
    pub name: String,
    pub column_type: String,
    pub relationship: Option<String>,
    pub is_calculated: Option<WireValue>,
    pub not_null: Option<WireValue>,
    pub expression: Option<String>,
    pub is_hidden: Option<WireValue>,
    pub column_level_access_control: Option<ColumnLevelAccessControlWire>,
}

/// An expression field as the model holds it: an empty text is none.
pub open spec fn decoded_expression(e: Option<String>) -> Option<String> {
    match e {
        Some(s) => if s@.len() == 0 {
            None
        } else {
            Some(s)
        },
        None => None,
    }
}

/// Whether every field of a wire column can be read.
pub open spec fn column_decodes(w: ColumnWire) -> bool {
    &&& decoded_flag(w.is_calculated) is Ok
    &&& decoded_flag(w.not_null) is Ok
    &&& decoded_flag(w.is_hidden) is Ok
    &&& (w.column_level_access_control matches Some(c) ==> c.threshold@.len() > 0)
}

/// The errors that reading a wire column may report.
pub open spec fn column_error(w: ColumnWire, e: CodecError) -> bool {
    ||| (e == CodecError::InvalidBoolean && (decoded_flag(w.is_calculated) is Err
        || decoded_flag(w.not_null) is Err || decoded_flag(w.is_hidden) is Err))
    ||| (e == CodecError::EmptyExpression && (w.column_level_access_control matches Some(c)
        && c.threshold@.len() == 0))
}

/// The column that a readable wire column stands for.
pub open spec fn column_from(w: ColumnWire, c: Column) -> bool {
    &&& c.name == w.name
    &&& c.column_type == w.column_type
    &&& c.relationship == w.relationship
    &&& decoded_flag(w.is_calculated) == Ok::<bool, CodecError>(c.is_calculated)
    &&& decoded_flag(w.not_null) == Ok::<bool, CodecError>(c.not_null)
    &&& decoded_flag(w.is_hidden) == Ok::<bool, CodecError>(c.is_hidden)
    &&& c.expression == decoded_expression(w.expression)
    &&& match (w.column_level_access_control, c.column_level_access_control) {
        (Some(wc), Some(cc)) => clac_from(wc, *cc),
        (None, None) => true,
        _ => false,
    }
}

/// The wire form of a column: flags as native booleans, a missing
/// expression as the empty text.
pub open spec fn column_to(c: Column, w: ColumnWire) -> bool {
    &&& w.name == c.name
    &&& w.column_type == c.column_type
    &&& w.relationship == c.relationship
    &&& w.is_calculated == Some(WireValue::Bool(c.is_calculated))
    &&& w.not_null == Some(WireValue::Bool(c.not_null))
    &&& w.is_hidden == Some(WireValue::Bool(c.is_hidden))
    &&& match c.expression {
        Some(e) => w.expression == Some(e),
        None => w.expression matches Some(e) && e@.len() == 0,
    }
    &&& match (c.column_level_access_control, w.column_level_access_control) {
        (Some(cc), Some(wc)) => clac_to(*cc, wc),
        (None, None) => true,
        _ => false,
    }
}

/// Whether every column of a list can be read.
pub open spec fn columns_decode(ws: Seq<ColumnWire>) -> bool {
    forall|i: int| 0 <= i < ws.len() ==> column_decodes(#[trigger] ws[i])
}

/// Reads a list of columns; one unreadable column fails the list.
pub fn decode_columns(ws: &Vec<ColumnWire>) -> (r: Result<Vec<Arc<Column>>, CodecError>)
    ensures
        r is Ok <==> columns_decode(ws@),
        r matches Err(e) ==> exists|i: int| 0 <= i < ws@.len() && column_error(#[trigger] ws@[i], e),
        r matches Ok(cs) ==> cs@.len() == ws@.len()
            && forall|i: int| 0 <= i < ws@.len() ==> column_from(ws@[i], *#[trigger] cs@[i]),
{
    let mut out: Vec<Arc<Column>> = Vec::new();
    let mut i: usize = 0;
    while i < ws.len()
        invariant
            i <= ws@.len(),
            out@.len() == i,
            forall|j: int| 0 <= j < i ==> column_decodes(#[trigger] ws@[j]),
            forall|j: int| 0 <= j < i ==> column_from(ws@[j], *#[trigger] out@[j]),
        decreases ws@.len() - i,
    {
        match Column::from_wire(&ws[i]) {
            Ok(c) => out.push(Arc::new(c)),
            Err(e) => {
                assert(column_error(ws@[i as int], e));
                return Err(e);
            },
        }
        i = i + 1;
    }
    Ok(out)
}

/// Writes a list of columns.
pub fn encode_columns(cs: &Vec<Arc<Column>>) -> (r: Vec<ColumnWire>)
    ensures
        r@.len() == cs@.len(),
        forall|i: int| 0 <= i < cs@.len() ==> column_to(*cs@[i], #[trigger] r@[i]),
{
    let mut out: Vec<ColumnWire> = Vec::new();
    let mut i: usize = 0;
    while i < cs.len()
        invariant
            i <= cs@.len(),
            out@.len() == i,
            forall|j: int| 0 <= j < i ==> column_to(*cs@[j], #[trigger] out@[j]),
        decreases cs@.len() - i,
    {
        out.push(cs[i].to_wire());
        i = i + 1;
    }
    out
}

impl Column {
    /// Writes a column.
    pub fn to_wire(&self) -> (r: ColumnWire)
        ensures
            column_to(*self, r),
    {
        ColumnWire {
            name: self.name.clone(),
            column_type: self.column_type.clone(),
            relationship: clone_opt(&self.relationship),
            is_calculated: Some(WireValue::Bool(self.is_calculated)),
            not_null: Some(WireValue::Bool(self.not_null)),
            expression: match &self.expression {
                Some(e) => Some(e.clone()),
                None => Some(String::new()),
            },
            is_hidden: Some(WireValue::Bool(self.is_hidden)),
            column_level_access_control: match &self.column_level_access_control {
                Some(c) => Some(c.to_wire()),
                None => None,
            },
        }
    }

    /// Reads a column; it fails when a boolean field has the wrong kind or
    /// the access control's threshold is empty.
    pub fn from_wire(w: &ColumnWire) -> (r: Result<Self, CodecError>)
        ensures
            r is Ok <==> column_decodes(*w),
            r matches Err(e) ==> column_error(*w, e),
            r matches Ok(c) ==> column_from(*w, c),
    {
        let is_calculated = decode_flag(w.is_calculated)?;
        let not_null = decode_flag(w.not_null)?;
        let is_hidden = decode_flag(w.is_hidden)?;
        let expression = match &w.expression {
            Some(e) => if e.as_str().unicode_len() == 0 {
                None
            } else {
                Some(e.clone())
            },
            None => None,
        };
        let column_level_access_control = match &w.column_level_access_control {
            Some(c) => Some(Arc::new(ColumnLevelAccessControl::from_wire(c)?)),
            None => None,
        };
        Ok(Column {
            name: w.name.clone(),
            column_type: w.column_type.clone(),
            relationship: clone_opt(&w.relationship),
            is_calculated,
            not_null,
            expression,
            is_hidden,
            column_level_access_control,
        })
    }
}

/// The wire form of a model: the table reference in its structured form.
#[derive(Debug, Clone, PartialEq, Eq)]
pub struct ModelWire {
    pub name: String,
    pub ref_sql: Option<String>,
    pub base_object: Option<String>,
    pub table_reference: Option<TableReference>,
    pub columns: Vec<ColumnWire>,
    pub primary_key: Option<String>,
    pub cached: Option<WireValue>,
    pub refresh_time: Option<String>,
    pub row_level_access_controls: Vec<RowLevelAccessControlWire>,
}

/// Whether every field of a wire model can be read.
pub open spec fn model_decodes(w: ModelWire) -> bool {
    decoded_flag(w.cached) is Ok && columns_decode(w.columns@)
}

/// The model that a readable wire model stands for.
pub open spec fn model_from(w: ModelWire, m: Model) -> bool {
    &&& m.name == w.name
    &&& m.ref_sql == w.ref_sql
    &&& m.base_object == w.base_object
    &&& opt_view(m.table_reference) == decoded_reference(opt_ref_view(w.table_reference))
    &&& m.columns@.len() == w.columns@.len()
    &&& forall|i: int| 0 <= i < w.columns@.len() ==> column_from(w.columns@[i], *#[trigger] m.columns@[i])
    &&& m.primary_key == w.primary_key
    &&& decoded_flag(w.cached) == Ok::<bool, CodecError>(m.cached)
    &&& m.refresh_time == w.refresh_time
    &&& m.row_level_access_controls@.len() == w.row_level_access_controls@.len()
    &&& forall|i: int| 0 <= i < w.row_level_access_controls@.len()
        ==> rlac_from(w.row_level_access_controls@[i], *#[trigger] m.row_level_access_controls@[i])
}

impl Model {
    /// Reads a model; it fails when its `cached` flag or one of its columns
    /// cannot be read.
    pub fn from_wire(w: &ModelWire) -> (r: Result<Self, CodecError>)
        ensures
            r is Ok <==> model_decodes(*w),
            r matches Err(e) ==> model_error(*w, e),
            r matches Ok(m) ==> model_from(*w, m),
    {
        let cached = decode_flag(w.cached)?;
        let columns = decode_columns(&w.columns)?;
        let table_reference = decode_table_reference(match &w.table_reference {
            Some(t) => Some(TableReference {
                catalog: clone_opt(&t.catalog),
                schema: clone_opt(&t.schema),
                table: clone_opt(&t.table),
            }),
            None => None,
        });
        let mut rlacs: Vec<Arc<RowLevelAccessControl>> = Vec::new();
        let mut i: usize = 0;
        while i < w.row_level_access_controls.len()
            invariant
                i <= w.row_level_access_controls@.len(),
                rlacs@.len() == i,
                forall|j: int| 0 <= j < i
                    ==> rlac_from(w.row_level_access_controls@[j], *#[trigger] rlacs@[j]),
            decreases w.row_level_access_controls@.len() - i,
        {
            rlacs.push(Arc::new(RowLevelAccessControl::from_wire(&w.row_level_access_controls[i])));
            i = i + 1;
        }
        Ok(Model {
            name: w.name.clone(),
            ref_sql: clone_opt(&w.ref_sql),
            base_object: clone_opt(&w.base_object),
            table_reference,
            columns,
            primary_key: clone_opt(&w.primary_key),
            cached,
            refresh_time: clone_opt(&w.refresh_time),
            row_level_access_controls: rlacs,
        })
    }

    /// Writes a model; it fails exactly when its table reference cannot be
    /// encoded.
    pub fn to_wire(&self) -> (r: Result<ModelWire, CodecError>)
        ensures
            r is Err <==> encoded_reference(opt_view(self.table_reference)) is Err,
            r matches Err(e) ==> encoded_reference(opt_view(self.table_reference))
                == Err::<Option<TableRefView>, CodecError>(e),
            r matches Ok(w) ==> model_to(*self, w),
    {
        let table_reference = encode_table_reference(&self.table_reference)?;
        let mut rlacs: Vec<RowLevelAccessControlWire> = Vec::new();
        let mut i: usize = 0;
        while i < self.row_level_access_controls.len()
            invariant
                i <= self.row_level_access_controls@.len(),
                rlacs@.len() == i,
                forall|j: int| 0 <= j < i
                    ==> rlac_to(*self.row_level_access_controls@[j], #[trigger] rlacs@[j]),
            decreases self.row_level_access_controls@.len() - i,
        {
            rlacs.push(self.row_level_access_controls[i].to_wire());
            i = i + 1;
        }
        Ok(ModelWire {
            name: self.name.clone(),
            ref_sql: clone_opt(&self.ref_sql),
            base_object: clone_opt(&self.base_object),
            table_reference,
            columns: encode_columns(&self.columns),
            primary_key: clone_opt(&self.primary_key),
            cached: Some(WireValue::Bool(self.cached)),
            refresh_time: clone_opt(&self.refresh_time),
            row_level_access_controls: rlacs,
        })
    }
}

/// The wire form of a model whose table reference can be encoded.
pub open spec fn model_to(m: Model, w: ModelWire) -> bool {
    &&& w.name == m.name
    &&& w.ref_sql == m.ref_sql
    &&& w.base_object == m.base_object
    &&& encoded_reference(opt_view(m.table_reference))
        == Ok::<Option<TableRefView>, CodecError>(opt_ref_view(w.table_reference))
    &&& w.columns@.len() == m.columns@.len()
    &&& forall|i: int| 0 <= i < m.columns@.len() ==> column_to(*m.columns@[i], #[trigger] w.columns@[i])
    &&& w.primary_key == m.primary_key
    &&& w.cached == Some(WireValue::Bool(m.cached))
    &&& w.refresh_time == m.refresh_time
    &&& w.row_level_access_controls@.len() == m.row_level_access_controls@.len()
    &&& forall|i: int| 0 <= i < m.row_level_access_controls@.len()
        ==> rlac_to(*m.row_level_access_controls@[i], #[trigger] w.row_level_access_controls@[i])
}

/// The errors that reading a wire model may report.
pub open spec fn model_error(w: ModelWire, e: CodecError) -> bool {
    ||| (e == CodecError::InvalidBoolean && decoded_flag(w.cached) is Err)
    ||| exists|i: int| 0 <= i < w.columns@.len() && column_error(#[trigger] w.columns@[i], e)
}

/// The wire form of a metric.
#[derive(Debug, Clone, PartialEq, Eq)]
pub struct MetricWire {
    pub name: String,
    pub base_object: String,
    pub dimension: Vec<ColumnWire>,
    pub measure: Vec<ColumnWire>,
    pub time_grain: Vec<TimeGrain>,
    pub cached: Option<WireValue>,
    pub refresh_time: Option<String>,
}

/// Whether every field of a wire metric can be read.
pub open spec fn metric_decodes(w: MetricWire) -> bool {
    decoded_flag(w.cached) is Ok && columns_decode(w.dimension@) && columns_decode(w.measure@)
}

/// The metric that a readable wire metric stands for.
pub open spec fn metric_from(w: MetricWire, m: Metric) -> bool {
    &&& m.name == w.name
    &&& m.base_object == w.base_object
    &&& m.dimension@.len() == w.dimension@.len()
    &&& forall|i: int| 0 <= i < w.dimension@.len() ==> column_from(w.dimension@[i], *#[trigger] m.dimension@[i])
    &&& m.measure@.len() == w.measure@.len()
    &&& forall|i: int| 0 <= i < w.measure@.len() ==> column_from(w.measure@[i], *#[trigger] m.measure@[i])
    &&& m.time_grain == w.time_grain
    &&& decoded_flag(w.cached) == Ok::<bool, CodecError>(m.cached)
    &&& m.refresh_time == w.refresh_time
}

/// The errors that reading a wire metric may report.
pub open spec fn metric_error(w: MetricWire, e: CodecError) -> bool {
    ||| (e == CodecError::InvalidBoolean && decoded_flag(w.cached) is Err)
    ||| exists|i: int| 0 <= i < w.dimension@.len() && column_error(#[trigger] w.dimension@[i], e)
    ||| exists|i: int| 0 <= i < w.measure@.len() && column_error(#[trigger] w.measure@[i], e)
}

/// Two time grains with the same name, column and date parts.
pub open spec fn same_grain(a: TimeGrain, b: TimeGrain) -> bool {
    a.name == b.name && a.ref_column == b.ref_column && a.date_parts@ == b.date_parts@
}

fn copy_time_grain(t: &TimeGrain) -> (r: TimeGrain)
    ensures
        same_grain(r, *t),
{
    let mut parts: Vec<TimeUnit> = Vec::new();
    let mut i: usize = 0;
    while i < t.date_parts.len()
        invariant
            i <= t.date_parts@.len(),
            parts@ == t.date_parts@.subrange(0, i as int),
        decreases t.date_parts@.len() - i,
    {
        parts.push(t.date_parts[i]);
        i = i + 1;
        assert(parts@ =~= t.date_parts@.subrange(0, i as int));
    }
    assert(parts@ =~= t.date_parts@);
    TimeGrain { name: t.name.clone(), ref_column: t.ref_column.clone(), date_parts: parts }
}

/// The wire form of a metric.
pub open spec fn metric_to(m: Metric, w: MetricWire) -> bool {
    &&& w.name == m.name
    &&& w.base_object == m.base_object
    &&& w.dimension@.len() == m.dimension@.len()
    &&& forall|i: int| 0 <= i < m.dimension@.len() ==> column_to(*m.dimension@[i], #[trigger] w.dimension@[i])
    &&& w.measure@.len() == m.measure@.len()
    &&& forall|i: int| 0 <= i < m.measure@.len() ==> column_to(*m.measure@[i], #[trigger] w.measure@[i])
    &&& w.time_grain@.len() == m.time_grain@.len()
    &&& forall|i: int| 0 <= i < m.time_grain@.len() ==> same_grain(#[trigger] w.time_grain@[i], m.time_grain@[i])
    &&& w.cached == Some(WireValue::Bool(m.cached))
    &&& w.refresh_time == m.refresh_time
}

impl Metric {
    /// Reads a metric; it fails when its `cached` flag or one of its
    /// columns cannot be read.
    pub fn from_wire(w: MetricWire) -> (r: Result<Self, CodecError>)
        ensures
            r is Ok <==> metric_decodes(w),
            r matches Err(e) ==> metric_error(w, e),
            r matches Ok(m) ==> metric_from(w, m),
    {
        let cached = decode_flag(w.cached)?;
        let dimension = decode_columns(&w.dimension)?;
        let measure = decode_columns(&w.measure)?;
        Ok(Metric {
            name: w.name,
            base_object: w.base_object,
            dimension,
            measure,
            time_grain: w.time_grain,
            cached,
            refresh_time: w.refresh_time,
        })
    }

    /// Writes a metric: its flag as a native boolean, its columns in their
    /// wire form.
    pub fn to_wire(&self) -> (r: MetricWire)
        ensures
            metric_to(*self, r),
    {
        let mut grains: Vec<TimeGrain> = Vec::new();
        let mut i: usize = 0;
        while i < self.time_grain.len()
            invariant
                i <= self.time_grain@.len(),
                grains@.len() == i,
                forall|j: int| 0 <= j < i ==> same_grain(#[trigger] grains@[j], self.time_grain@[j]),
            decreases self.time_grain@.len() - i,
        {
            grains.push(copy_time_grain(&self.time_grain[i]));
            i = i + 1;
        }
        MetricWire {
            name: self.name.clone(),
            base_object: self.base_object.clone(),
            dimension: encode_columns(&self.dimension),
            measure: encode_columns(&self.measure),
            time_grain: grains,
            cached: Some(WireValue::Bool(self.cached)),
            refresh_time: clone_opt(&self.refresh_time),
        }
    }
}

/// The wire form of a manifest.
#[derive(Debug, Clone, PartialEq, Eq)]
pub struct ManifestWire {
    pub catalog: String,
    pub schema: String,
    pub models: Vec<ModelWire>,
    pub relationships: Vec<Arc<Relationship>>,
    pub metrics: Vec<MetricWire>,
    pub views: Vec<Arc<crate::manifest::View>>,
    pub data_source: Option<DataSource>,
}

/// The list of a manifest that holds an entity.
#[derive(Debug, Clone, Copy, PartialEq, Eq, Structural)]
pub enum ManifestSection {
    Models,
    Metrics,
}

/// Where reading a manifest failed: the list, the entry's position in it,
/// and what went wrong there.
#[derive(Debug, Clone, Copy, PartialEq, Eq, Structural)]
pub struct ManifestDecodeError {
    pub section: ManifestSection,
    pub index: usize,
    pub error: CodecError,
}

/// Whether every model and metric of a wire manifest can be read.
pub open spec fn manifest_decodes(w: ManifestWire) -> bool {
    &&& forall|i: int| 0 <= i < w.models@.len() ==> model_decodes(#[trigger] w.models@[i])
    &&& forall|i: int| 0 <= i < w.metrics@.len() ==> metric_decodes(#[trigger] w.metrics@[i])
}

/// The failure that reading a wire manifest reports: the first entry, models
/// before metrics, that cannot be read, and one of its errors.
pub open spec fn manifest_error(w: ManifestWire, d: ManifestDecodeError) -> bool {
    let k = d.index as int;
    match d.section {
        ManifestSection::Models => {
            &&& k < w.models@.len()
            &&& forall|j: int| 0 <= j < k ==> model_decodes(#[trigger] w.models@[j])
            &&& !model_decodes(w.models@[k])
            &&& model_error(w.models@[k], d.error)
        },
        ManifestSection::Metrics => {
            &&& forall|j: int| 0 <= j < w.models@.len() ==> model_decodes(#[trigger] w.models@[j])
            &&& k < w.metrics@.len()
            &&& forall|j: int| 0 <= j < k ==> metric_decodes(#[trigger] w.metrics@[j])
            &&& !metric_decodes(w.metrics@[k])
            &&& metric_error(w.metrics@[k], d.error)
        },
    }
}

/// Whether every model of a manifest has a table reference that can be
/// encoded.
pub open spec fn manifest_encodes(m: Manifest) -> bool {
    forall|i: int| 0 <= i < m.models@.len()
        ==> encoded_reference(opt_view((*#[trigger] m.models@[i]).table_reference)) is Ok
}

/// Two relationships with the same fields.
pub open spec fn same_relationship(a: Relationship, b: Relationship) -> bool {
    a.name == b.name && a.models@ == b.models@ && a.join_type == b.join_type && a.condition == b.condition
}

fn copy_relationship(r: &Relationship) -> (c: Relationship)
    ensures
        same_relationship(c, *r),
{
    let mut models: Vec<String> = Vec::new();
    let mut i: usize = 0;
    while i < r.models.len()
        invariant
            i <= r.models@.len(),
            models@ == r.models@.subrange(0, i as int),
        decreases r.models@.len() - i,
    {
        models.push(r.models[i].clone());
        i = i + 1;
        assert(models@ =~= r.models@.subrange(0, i as int));
    }
    assert(models@ =~= r.models@);
    Relationship { name: r.name.clone(), models, join_type: r.join_type, condition: r.condition.clone() }
}

fn copy_view(v: &crate::manifest::View) -> (c: crate::manifest::View)
    ensures
        c == *v,
{
    crate::manifest::View { name: v.name.clone(), statement: v.statement.clone() }
}

impl Manifest {
    /// Reads a manifest, all or nothing: it fails when any model or metric
    /// cannot be read, and names the first such entry.
    pub fn from_wire(w: ManifestWire) -> (r: Result<Self, ManifestDecodeError>)
        ensures
            r is Ok <==> manifest_decodes(w),
            r matches Err(d) ==> manifest_error(w, d),
            r matches Ok(m) ==> {
                &&& m.catalog == w.catalog
                &&& m.schema == w.schema
                &&& m.models@.len() == w.models@.len()
                &&& forall|i: int| 0 <= i < w.models@.len() ==> model_from(w.models@[i], *#[trigger] m.models@[i])
                &&& m.relationships == w.relationships
                &&& m.metrics@.len() == w.metrics@.len()
                &&& forall|i: int| 0 <= i < w.metrics@.len() ==> metric_from(w.metrics@[i], *#[trigger] m.metrics@[i])
                &&& m.views == w.views
                &&& m.data_source == w.data_source
            },
    {
        let mut models: Vec<Arc<Model>> = Vec::new();
        let mut i: usize = 0;
        while i < w.models.len()
            invariant
                i <= w.models@.len(),
                models@.len() == i,
                forall|j: int| 0 <= j < i ==> model_decodes(#[trigger] w.models@[j]),
                forall|j: int| 0 <= j < i ==> model_from(w.models@[j], *#[trigger] models@[j]),
            decreases w.models@.len() - i,
        {
            match Model::from_wire(&w.models[i]) {
                Ok(m) => models.push(Arc::new(m)),
                Err(e) => {
                    return Err(ManifestDecodeError { section: ManifestSection::Models, index: i, error: e });
                },
            }
            i = i + 1;
        }
        let ghost wm = w.metrics@;
        let ghost wmodels = w.models@;
        let mut metrics: Vec<Arc<Metric>> = Vec::new();
        let mut rest = w.metrics;
        while rest.len() > 0
            invariant
                wm == w.metrics@,
                wmodels == w.models@,
                forall|j: int| 0 <= j < wmodels.len() ==> model_decodes(#[trigger] wmodels[j]),
                metrics@.len() + rest@.len() == wm.len(),
                rest@ == wm.subrange(metrics@.len() as int, wm.len() as int),
                forall|j: int| 0 <= j < metrics@.len() ==> metric_decodes(#[trigger] wm[j]),
                forall|j: int| 0 <= j < metrics@.len() ==> metric_from(wm[j], *#[trigger] metrics@[j]),
            decreases rest@.len(),
        {
            let mw = rest.remove(0);
            assert(mw == wm[metrics@.len() as int]);
            let k = metrics.len();
            match Metric::from_wire(mw) {
                Ok(m) => metrics.push(Arc::new(m)),
                Err(e) => {
                    assert(!metric_decodes(w.metrics@[k as int]));
                    return Err(ManifestDecodeError { section: ManifestSection::Metrics, index: k, error: e });
                },
            }
            assert(rest@ =~= wm.subrange(metrics@.len() as int, wm.len() as int));
        }
        Ok(Manifest {
            catalog: w.catalog,
            schema: w.schema,
            models,
            relationships: w.relationships,
            metrics,
            views: w.views,
            data_source: w.data_source,
        })
    }

    /// Writes a manifest, all or nothing: it fails when the table reference
    /// of any model cannot be encoded.
    pub fn to_wire(&self) -> (r: Result<ManifestWire, CodecError>)
        ensures
            r is Ok <==> manifest_encodes(*self),
            r matches Err(e) ==> exists|i: int| 0 <= i < self.models@.len()
                && encoded_reference(opt_view((*#[trigger] self.models@[i]).table_reference))
                == Err::<Option<TableRefView>, CodecError>(e),
            r matches Ok(w) ==> {
                &&& w.catalog == self.catalog
                &&& w.schema == self.schema
                &&& w.models@.len() == self.models@.len()
                &&& forall|i: int| 0 <= i < self.models@.len() ==> model_to(*self.models@[i], #[trigger] w.models@[i])
                &&& w.relationships@.len() == self.relationships@.len()
                &&& forall|i: int| 0 <= i < self.relationships@.len()
                    ==> same_relationship(*#[trigger] w.relationships@[i], *self.relationships@[i])
                &&& w.metrics@.len() == self.metrics@.len()
                &&& forall|i: int| 0 <= i < self.metrics@.len() ==> metric_to(*self.metrics@[i], #[trigger] w.metrics@[i])
                &&& w.views@.len() == self.views@.len()
                &&& forall|i: int| 0 <= i < self.views@.len() ==> *#[trigger] w.views@[i] == *self.views@[i]
                &&& w.data_source == self.data_source
            },
    {
        let mut models: Vec<ModelWire> = Vec::new();
        let mut i: usize = 0;
        while i < self.models.len()
            invariant
                i <= self.models@.len(),
                models@.len() == i,
                forall|j: int| 0 <= j < i
                    ==> encoded_reference(opt_view((*#[trigger] self.models@[j]).table_reference)) is Ok,
                forall|j: int| 0 <= j < i ==> model_to(*self.models@[j], #[trigger] models@[j]),
            decreases self.models@.len() - i,
        {
            let m = self.models[i].to_wire()?;
            models.push(m);
            i = i + 1;
        }
        let mut relationships: Vec<Arc<Relationship>> = Vec::new();
        let mut k: usize = 0;
        while k < self.relationships.len()
            invariant
                k <= self.relationships@.len(),
                relationships@.len() == k,
                forall|j: int| 0 <= j < k
                    ==> same_relationship(*#[trigger] relationships@[j], *self.relationships@[j]),
            decreases self.relationships@.len() - k,
        {
            relationships.push(Arc::new(copy_relationship(&self.relationships[k])));
            k = k + 1;
        }
        let mut metrics: Vec<MetricWire> = Vec::new();
        let mut k: usize = 0;
        while k < self.metrics.len()
            invariant
                k <= self.metrics@.len(),
                metrics@.len() == k,
                forall|j: int| 0 <= j < k ==> metric_to(*self.metrics@[j], #[trigger] metrics@[j]),
            decreases self.metrics@.len() - k,
        {
            metrics.push(self.metrics[k].to_wire());
            k = k + 1;
        }
        let mut views: Vec<Arc<crate::manifest::View>> = Vec::new();
        let mut k: usize = 0;
        while k < self.views.len()
            invariant
                k <= self.views@.len(),
                views@.len() == k,
                forall|j: int| 0 <= j < k ==> *#[trigger] views@[j] == *self.views@[j],
            decreases self.views@.len() - k,
        {
            views.push(Arc::new(copy_view(&self.views[k])));
            k = k + 1;
        }
        Ok(ManifestWire {
            catalog: self.catalog.clone(),
            schema: self.schema.clone(),
            models,
            relationships,
            metrics,
            views,
            data_source: self.data_source,
        })
    }
}

} // verus!
