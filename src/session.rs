//! Session properties: named request-scoped values with a case-insensitive
//! identity.
use vstd::prelude::*;

verus! {

/// What `str::to_lowercase` makes of a string.
pub uninterp spec fn lowercase_of(s: Seq<char>) -> Seq<char>;

/// Relies on `str::to_lowercase`: the Unicode lower-case mapping of each
/// character, which depends on the string alone.
#[verifier::external_body]
fn to_lowercase(s: &str) -> (r: String)
    ensures
        r@ == lowercase_of(s@),
{
    s.to_lowercase()
}

/// A named property, possibly required, with an optional default
/// expression; `normalized_name` is the lower-cased name.
#[derive(Debug, Clone, PartialEq, Eq, Hash)]
pub struct SessionProperty {
    pub name: String,
    pub required: bool,
    pub default_expr: Option<String>,
    pub normalized_name: String,
}

/// The wire form of a session property: it has no normalised name.
#[derive(Debug, Clone, PartialEq, Eq)]
pub struct SessionPropertyWire {
    pub name: String,
    pub required: bool,
    pub default_expr: Option<String>,
}

/// The mathematical value of a session property.
pub struct SessionPropertyView {
    pub name: Seq<char>,
    pub required: bool,
    pub default_expr: Option<Seq<char>>,
    pub normalized_name: Seq<char>,
}

/// The mathematical value of a session property's wire form.
pub struct SessionPropertyWireView {
    pub name: Seq<char>,
    pub required: bool,
    pub default_expr: Option<Seq<char>>,
}

pub open spec fn opt_str_view(o: Option<String>) -> Option<Seq<char>> {
    match o {
        Some(s) => Some(s@),
        None => None,
    }
}

impl View for SessionProperty {
    type V = SessionPropertyView;

    open spec fn view(&self) -> SessionPropertyView {
        SessionPropertyView {
            name: self.name@,
            required: self.required,
            default_expr: opt_str_view(self.default_expr),
            normalized_name: self.normalized_name@,
        }
    }
}

impl View for SessionPropertyWire {
    type V = SessionPropertyWireView;

    open spec fn view(&self) -> SessionPropertyWireView {
        SessionPropertyWireView {
            name: self.name@,
            required: self.required,
            default_expr: opt_str_view(self.default_expr),
        }
    }
}

/// The property that a wire form stands for: its normalised name is derived
/// from its name.
pub open spec fn from_wire_view(w: SessionPropertyWireView) -> SessionPropertyView {
    SessionPropertyView {
        name: w.name,
        required: w.required,
        default_expr: w.default_expr,
        normalized_name: lowercase_of(w.name),
    }
}

/// The wire form of a property: everything but its normalised name.
pub open spec fn to_wire_view(p: SessionPropertyView) -> SessionPropertyWireView {
    SessionPropertyWireView { name: p.name, required: p.required, default_expr: p.default_expr }
}

impl SessionProperty {
    /// A property whose normalised name is the lower-cased name.
    pub open spec fn wf(&self) -> bool {
        self.normalized_name@ == lowercase_of(self.name@)
    }

    /// Makes a property, deriving its normalised name.
    pub fn new(name: String, required: bool, default_expr: Option<String>) -> (r: Self)
        ensures
            r.wf(),
            r.name == name,
            r.required == required,
            r.default_expr == default_expr,
    {
        let normalized_name = to_lowercase(name.as_str());
        SessionProperty { name, required, default_expr, normalized_name }
    }

    /// The lower-cased name, the property's case-insensitive identity.
    pub fn normalized_name(&self) -> (r: &str)
        ensures
            r@ == self.normalized_name@,
    {
        self.normalized_name.as_str()
    }

    /// Reads a property from its wire form; the normalised name is derived
    /// anew from the name.
    pub fn from_wire(w: SessionPropertyWire) -> (r: Self)
        ensures
            r.wf(),
            r@ == from_wire_view(w@),
    {
        SessionProperty::new(w.name, w.required, w.default_expr)
    }

    /// The wire form of a property, which leaves out the normalised name.
    pub fn to_wire(&self) -> (r: SessionPropertyWire)
        ensures
            r@ == to_wire_view(self@),
    {
        SessionPropertyWire {
            name: self.name.clone(),
            required: self.required,
            default_expr: match &self.default_expr {
                Some(e) => Some(e.clone()),
                None => None,
            },
        }
    }
}

/// A well-formed property that is written to its wire form and read back
/// comes back equal, normalised name included.
pub proof fn lemma_wire_round_trip(p: SessionProperty)
    requires
        p.wf(),
    ensures
        from_wire_view(to_wire_view(p@)) == p@,
{
}

/// Properties with the same name have the same normalised name, whatever the
/// wire form said besides.
pub proof fn lemma_normalized_name_of_name(w1: SessionPropertyWireView, w2: SessionPropertyWireView)
    requires
        w1.name == w2.name,
    ensures
        from_wire_view(w1).normalized_name == from_wire_view(w2).normalized_name,
{
}

} // verus!
