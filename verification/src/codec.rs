//! The value codec: from dynamically typed values to statement bindings, and
//! from result cells of unknown type back to dynamically typed values.

use vstd::prelude::*;
use crate::binary64::Binary64;
use crate::value::{render_json, DynValue, Dynamic};

verus! {

/// A positional statement parameter, typed as the store will receive it.
#[derive(Debug, PartialEq)]
pub enum Binding {
    /// A typed "no value", which the store takes as SQL NULL in any column.
    Null,
    Bool(bool),
    Int(i64),
    Float(Binary64),
    Text(String),
}

/// What a [`Binding`] stands for.
#[verifier::ext_equal]
pub enum Bound {
    Null,
    Bool(bool),
    Int(i64),
    Float(Binary64),
    Text(Seq<char>),
}

impl View for Binding {
    type V = Bound;

    open spec fn view(&self) -> Bound {
        match *self {
            Binding::Null => Bound::Null,
            Binding::Bool(b) => Bound::Bool(b),
            Binding::Int(i) => Bound::Int(i),
            Binding::Float(x) => Bound::Float(x),
            Binding::Text(s) => Bound::Text(s@),
        }
    }
}

impl Clone for Binding {
    fn clone(&self) -> (copy: Binding)
        ensures
            copy == *self,
    {
        match self {
            Binding::Null => Binding::Null,
            Binding::Bool(b) => Binding::Bool(*b),
            Binding::Int(i) => Binding::Int(*i),
            Binding::Float(x) => Binding::Float(*x),
            Binding::Text(s) => Binding::Text(s.clone()),
        }
    }
}

impl DeepView for Binding {
    type V = Bound;

    open spec fn deep_view(&self) -> Bound {
        self@
    }
}

/// What one result cell answered when asked for each candidate type in turn:
/// `Some` where the store could hand the cell out as that type.
#[derive(Debug, PartialEq)]
pub struct CellProbe {
    pub integer: Option<i64>,
    pub float: Option<Binary64>,
    pub text: Option<String>,
    pub boolean: Option<bool>,
}

/// What a [`CellProbe`] stands for.
#[verifier::ext_equal]
pub struct Probes {
    pub integer: Option<i64>,
    pub float: Option<Binary64>,
    pub text: Option<Seq<char>>,
    pub boolean: Option<bool>,
}

impl View for CellProbe {
    type V = Probes;

    open spec fn view(&self) -> Probes {
        Probes {
            integer: self.integer,
            float: self.float,
            text: match self.text {
                Some(s) => Some(s@),
                None => None,
            },
            boolean: self.boolean,
        }
    }
}

impl Clone for CellProbe {
    fn clone(&self) -> (copy: CellProbe)
        ensures
            copy == *self,
    {
        CellProbe {
            integer: self.integer,
            float: self.float,
            text: match &self.text {
                Some(s) => Some(s.clone()),
                None => None,
            },
            boolean: self.boolean,
        }
    }
}

impl DeepView for CellProbe {
    type V = Probes;

    open spec fn deep_view(&self) -> Probes {
        self@
    }
}

/// The binding of a value. Every kind binds as itself, except that a complex
/// value binds as its text.
pub open spec fn encoded(value: Dynamic) -> Bound {
    match value {
        Dynamic::Null => Bound::Null,
        Dynamic::Bool(b) => Bound::Bool(b),
        Dynamic::Int(i) => Bound::Int(i),
        Dynamic::Float(x) => Bound::Float(x),
        Dynamic::Text(s) => Bound::Text(s),
        Dynamic::Complex(text) => Bound::Text(text),
    }
}

/// The value of a cell: what the first answering probe gave, in the order
/// integer, float, text, boolean. A float that is not finite, and a cell that
/// answers no probe, are null.
pub open spec fn decoded(cell: Probes) -> Dynamic {
    if let Some(i) = cell.integer {
        Dynamic::Int(i)
    } else if let Some(x) = cell.float {
        if x.finite() {
            Dynamic::Float(x)
        } else {
            Dynamic::Null
        }
    } else if let Some(s) = cell.text {
        Dynamic::Text(s)
    } else if let Some(b) = cell.boolean {
        Dynamic::Bool(b)
    } else {
        Dynamic::Null
    }
}

/// The bindings of a parameter list, position by position.
pub open spec fn encoded_all(params: Seq<Dynamic>) -> Seq<Bound> {
    params.map_values(|v: Dynamic| encoded(v))
}

/// The values of a row, column by column.
pub open spec fn decoded_row(row: Seq<Probes>) -> Seq<Dynamic> {
    row.map_values(|c: Probes| decoded(c))
}

/// The values of a result set, row by row.
pub open spec fn decoded_rows(rows: Seq<Seq<Probes>>) -> Seq<Seq<Dynamic>> {
    rows.map_values(|r: Seq<Probes>| decoded_row(r))
}

/// Turns a value into the binding that stands for it.
pub fn encode(value: &DynValue) -> (binding: Binding)
    ensures
        binding@ == encoded(value@),
{
    match value {
        DynValue::Null => Binding::Null,
        DynValue::Bool(b) => Binding::Bool(*b),
        DynValue::Int(i) => Binding::Int(*i),
        DynValue::Float(x) => Binding::Float(*x),
        DynValue::Text(s) => Binding::Text(s.clone()),
        DynValue::Complex(json) => Binding::Text(render_json(json)),
    }
}

/// Turns a result cell into a value. Total: no cell is an error.
pub fn decode(cell: &CellProbe) -> (value: DynValue)
    ensures
        value@ == decoded(cell@),
        !(value is Complex),
{
    if let Some(i) = cell.integer {
        DynValue::Int(i)
    } else if let Some(x) = cell.float {
        if x.is_finite() {
            DynValue::Float(x)
        } else {
            DynValue::Null
        }
    } else if let Some(s) = &cell.text {
        DynValue::Text(s.clone())
    } else if let Some(b) = cell.boolean {
        DynValue::Bool(b)
    } else {
        DynValue::Null
    }
}

/// Encodes a parameter list in order.
pub fn encode_params(params: &Vec<DynValue>) -> (bindings: Vec<Binding>)
    ensures
        bindings.deep_view() == encoded_all(params.deep_view()),
{
    let mut bindings: Vec<Binding> = Vec::new();
    let mut i: usize = 0;
    while i < params.len()
        invariant
            i <= params.len(),
            bindings.len() == i,
            forall|k: int| 0 <= k < i ==> (#[trigger] bindings[k])@ == encoded(params[k]@),
        decreases params.len() - i,
    {
        bindings.push(encode(&params[i]));
        i += 1;
    }
    assert(bindings.deep_view() =~= encoded_all(params.deep_view()));
    bindings
}

/// Decodes one row, column by column.
pub fn decode_row(row: &Vec<CellProbe>) -> (values: Vec<DynValue>)
    ensures
        values.deep_view() == decoded_row(row.deep_view()),
{
    let mut values: Vec<DynValue> = Vec::new();
    let mut i: usize = 0;
    while i < row.len()
        invariant
            i <= row.len(),
            values.len() == i,
            forall|k: int| 0 <= k < i ==> (#[trigger] values[k])@ == decoded(row[k]@),
        decreases row.len() - i,
    {
        values.push(decode(&row[i]));
        i += 1;
    }
    assert(values.deep_view() =~= decoded_row(row.deep_view()));
    values
}

/// Decodes a result set, row by row. No rows give an empty result set.
pub fn decode_rows(rows: &Vec<Vec<CellProbe>>) -> (set: Vec<Vec<DynValue>>)
    ensures
        set.deep_view() == decoded_rows(rows.deep_view()),
{
    let mut set: Vec<Vec<DynValue>> = Vec::new();
    let mut i: usize = 0;
    while i < rows.len()
        invariant
            i <= rows.len(),
            set.len() == i,
            forall|k: int|
                0 <= k < i ==> (#[trigger] set[k]).deep_view() == decoded_row(
                    rows[k].deep_view(),
                ),
        decreases rows.len() - i,
    {
        set.push(decode_row(&rows[i]));
        i += 1;
    }
    assert(set.deep_view() =~= decoded_rows(rows.deep_view()));
    set
}

/// What a column of a binding's own type hands back for it: the cell answers
/// the probe of that type with the bound value, and stays silent to every
/// probe that is tried before it. A null answers no probe at all.
pub open spec fn stored(cell: Probes, binding: Bound) -> bool {
    match binding {
        Bound::Null => cell.integer is None && cell.float is None && cell.text is None
            && cell.boolean is None,
        Bound::Int(i) => cell.integer == Some(i),
        Bound::Float(x) => cell.integer is None && cell.float == Some(x),
        Bound::Text(s) => cell.integer is None && cell.float is None && cell.text == Some(s),
        Bound::Bool(b) => cell.integer is None && cell.float is None && cell.text is None
            && cell.boolean == Some(b),
    }
}

/// A null, a boolean, an integer or a text that is encoded, stored in a
/// column of its own type and decoded comes back as it went in.
pub proof fn lemma_round_trip(value: Dynamic, cell: Probes)
    requires
        value is Null || value is Bool || value is Int || value is Text,
        stored(cell, encoded(value)),
    ensures
        decoded(cell) == value,
{
}

/// A complex value that is encoded, stored and decoded comes back as its
/// text. The structure is lost on the way in, and nothing rebuilds it.
pub proof fn lemma_complex_comes_back_as_text(text: Seq<char>, cell: Probes)
    requires
        stored(cell, encoded(Dynamic::Complex(text))),
    ensures
        decoded(cell) == Dynamic::Text(text),
{
}

/// A float that is encoded, stored and decoded comes back bit for bit if it
/// is finite, and as null if it is not.
pub proof fn lemma_float_round_trip(x: Binary64, cell: Probes)
    requires
        stored(cell, encoded(Dynamic::Float(x))),
    ensures
        decoded(cell) == if x.finite() {
            Dynamic::Float(x)
        } else {
            Dynamic::Null
        },
{
}

/// Decoding never yields a complex value, nor a float that is not finite.
pub proof fn lemma_decoded_is_plain(cell: Probes)
    ensures
        !(decoded(cell) is Complex),
        decoded(cell) matches Dynamic::Float(x) ==> x.finite(),
{
}

/// Decoding keeps the shape of a result set: a row for each row, in the same
/// order, and in each row a value for each column.
pub proof fn lemma_decoding_keeps_shape(rows: Seq<Seq<Probes>>)
    ensures
        decoded_rows(rows).len() == rows.len(),
        forall|r: int|
            0 <= r < rows.len() ==> (#[trigger] decoded_rows(rows)[r]).len() == rows[r].len(),
        forall|r: int, c: int|
            0 <= r < rows.len() && 0 <= c < rows[r].len() ==> decoded_rows(rows)[r][c] == decoded(
                #[trigger] rows[r][c],
            ),
{
}

/// An integer answer wins over every other answer of the same cell, so a
/// small integer is never taken for a boolean.
pub proof fn lemma_integer_wins(cell: Probes)
    requires
        cell.integer is Some,
    ensures
        decoded(cell) == Dynamic::Int(cell.integer->Some_0),
{
}

} // verus!
