//! The library's model of a JSON document.
//!
//! Every frame on the wire is a JSON text. The library keeps a parsed frame as
//! a [`JsonValue`] tree: a plain datatype whose contents verified code can
//! read, unlike the parser crate's own value type. A number that fits `i64`
//! becomes `Int`; any other number (for instance the fractional server
//! timestamp) keeps its decimal wire text in `Real`.

use vstd::prelude::*;

verus! {

broadcast use {vstd::std_specs::vec::group_vec_axioms, vstd::seq::group_seq_axioms};

/// One JSON value, as the library holds it between parsing and decoding.
#[derive(Debug)]
pub enum JsonValue {
    Null,
    Bool(bool),
    Int(i64),
    /// A JSON number outside `i64`, kept as its decimal wire text.
    Real(String),
    Str(String),
    Arr(Vec<JsonValue>),
    Obj(Vec<(String, JsonValue)>),
}

/// The mathematical model of a JSON value: integers are unbounded, strings are
/// character sequences, and an object is the ordered sequence of its fields.
#[verifier::ext_equal]
pub enum SpecJson {
    Null,
    Bool(bool),
    Int(int),
    Real(Seq<char>),
    Str(Seq<char>),
    Arr(Seq<SpecJson>),
    Obj(Seq<(Seq<char>, SpecJson)>),
}

/// The model of one value; an array's or object's items are modelled by the
/// two sequence functions below, which walk the elements front to back.
pub open spec fn model_of(v: JsonValue) -> SpecJson
    decreases v,
{
    match v {
        JsonValue::Null => SpecJson::Null,
        JsonValue::Bool(b) => SpecJson::Bool(b),
        JsonValue::Int(i) => SpecJson::Int(i as int),
        JsonValue::Real(s) => SpecJson::Real(s@),
        JsonValue::Str(s) => SpecJson::Str(s@),
        JsonValue::Arr(items) => SpecJson::Arr(model_of_seq(items@)),
        JsonValue::Obj(fields) => SpecJson::Obj(model_of_fields(fields@)),
    }
}

pub open spec fn model_of_seq(items: Seq<JsonValue>) -> Seq<SpecJson>
    decreases items,
{
    if items.len() == 0 {
        Seq::empty()
    } else {
        seq![model_of(items[0])] + model_of_seq(items.drop_first())
    }
}

pub open spec fn model_of_fields(fields: Seq<(String, JsonValue)>) -> Seq<(Seq<char>, SpecJson)>
    decreases fields,
{
    if fields.len() == 0 {
        Seq::empty()
    } else {
        seq![(fields[0].0@, model_of(fields[0].1))] + model_of_fields(fields.drop_first())
    }
}

pub broadcast proof fn lemma_model_of_seq(items: Seq<JsonValue>)
    ensures
        (#[trigger] model_of_seq(items)).len() == items.len(),
        forall|i: int|
            0 <= i < items.len() ==> #[trigger] model_of_seq(items)[i] == model_of(items[i]),
    decreases items,
{
    if items.len() > 0 {
        lemma_model_of_seq(items.drop_first());
    }
}

pub broadcast proof fn lemma_model_of_fields(fields: Seq<(String, JsonValue)>)
    ensures
        (#[trigger] model_of_fields(fields)).len() == fields.len(),
        forall|i: int|
            0 <= i < fields.len() ==> #[trigger] model_of_fields(fields)[i] == (
                fields[i].0@,
                model_of(fields[i].1),
            ),
    decreases fields,
{
    if fields.len() > 0 {
        lemma_model_of_fields(fields.drop_first());
    }
}

impl View for JsonValue {
    type V = SpecJson;

    open spec fn view(&self) -> SpecJson {
        model_of(*self)
    }
}

/// Object field lists with a repeated key cannot be rendered faithfully: the
/// printer's map would collapse them.
pub open spec fn distinct_keys(fields: Seq<(Seq<char>, SpecJson)>) -> bool {
    forall|i: int, j: int| 0 <= i < j < fields.len() ==> fields[i].0 != fields[j].0
}

/// A document the renderer is proven to print faithfully: no `Real` node (its
/// text is not re-validated) and no object with a repeated key.
pub open spec fn renderable(v: SpecJson) -> bool
    decreases v,
{
    match v {
        SpecJson::Real(_) => false,
        SpecJson::Arr(items) => renderable_seq(items),
        SpecJson::Obj(fields) => distinct_keys(fields) && renderable_fields(fields),
        _ => true,
    }
}

pub open spec fn renderable_seq(items: Seq<SpecJson>) -> bool
    decreases items,
{
    items.len() == 0 || (renderable(items[0]) && renderable_seq(items.drop_first()))
}

pub open spec fn renderable_fields(fields: Seq<(Seq<char>, SpecJson)>) -> bool
    decreases fields,
{
    fields.len() == 0 || (renderable(fields[0].1) && renderable_fields(fields.drop_first()))
}

pub broadcast proof fn lemma_renderable_seq(items: Seq<SpecJson>)
    ensures
        #[trigger] renderable_seq(items) <==> (forall|i: int|
            0 <= i < items.len() ==> renderable(#[trigger] items[i])),
    decreases items,
{
    if items.len() > 0 {
        lemma_renderable_seq(items.drop_first());
        assert(forall|i: int|
            0 <= i < items.drop_first().len() ==> #[trigger] items.drop_first()[i] == items[i
                + 1]);
        assert(forall|i: int|
            1 <= i < items.len() ==> #[trigger] items[i] == items.drop_first()[i - 1]);
        assert(renderable_seq(items) <==> (renderable(items[0]) && renderable_seq(
            items.drop_first(),
        )));
    }
}

pub broadcast proof fn lemma_renderable_fields(fields: Seq<(Seq<char>, SpecJson)>)
    ensures
        #[trigger] renderable_fields(fields) <==> (forall|i: int|
            0 <= i < fields.len() ==> renderable((#[trigger] fields[i]).1)),
    decreases fields,
{
    if fields.len() > 0 {
        lemma_renderable_fields(fields.drop_first());
        assert(forall|i: int|
            0 <= i < fields.drop_first().len() ==> #[trigger] fields.drop_first()[i] == fields[i
                + 1]);
        assert(forall|i: int|
            1 <= i < fields.len() ==> #[trigger] fields[i] == fields.drop_first()[i - 1]);
        assert(renderable_fields(fields) <==> (renderable(fields[0].1) && renderable_fields(
            fields.drop_first(),
        )));
    }
}

/// Looks a key up in an object's field list: the first field with that key
/// wins, as it does in the decoder.
pub open spec fn spec_obj_get(fields: Seq<(Seq<char>, SpecJson)>, key: Seq<char>) -> Option<
    SpecJson,
>
    decreases fields.len(),
{
    if fields.len() == 0 {
        None
    } else if fields[0].0 == key {
        Some(fields[0].1)
    } else {
        spec_obj_get(fields.drop_first(), key)
    }
}

impl Clone for JsonValue {
    /// A clone provably keeps the model.
    fn clone(&self) -> (r: Self)
        ensures
            r@ == self@,
    {
        self.duplicate()
    }
}

impl JsonValue {
    /// A deep copy; written out so that the copy provably keeps the model.
    pub fn duplicate(&self) -> (r: JsonValue)
        ensures
            r@ == self@,
        decreases *self,
    {
        broadcast use {lemma_model_of_seq, lemma_model_of_fields};

        match self {
            JsonValue::Null => JsonValue::Null,
            JsonValue::Bool(b) => JsonValue::Bool(*b),
            JsonValue::Int(i) => JsonValue::Int(*i),
            JsonValue::Real(s) => JsonValue::Real(s.clone()),
            JsonValue::Str(s) => JsonValue::Str(s.clone()),
            JsonValue::Arr(items) => {
                let mut out: Vec<JsonValue> = Vec::new();
                let mut i: usize = 0;
                while i < items.len()
                    invariant
                        *self == JsonValue::Arr(*items),
                        i <= items.len(),
                        out@.len() == i as nat,
                        forall|j: int| 0 <= j < i ==> out@[j]@ == items@[j]@,
                    decreases items.len() - i,
                {
                    proof {
                        assert(decreases_to!(*self => (*self)->Arr_0));
                        assert((*self)->Arr_0 == *items);
                        assert(decreases_to!(*items => items@));
                        assert(decreases_to!(items@ => items@[i as int]));
                    }
                    out.push(items[i].duplicate());
                    i = i + 1;
                }
                let r = JsonValue::Arr(out);
                proof {
                    assert(model_of_seq(out@) =~= model_of_seq(items@));
                }
                r
            }
            JsonValue::Obj(fields) => {
                let mut out: Vec<(String, JsonValue)> = Vec::new();
                let mut i: usize = 0;
                while i < fields.len()
                    invariant
                        *self == JsonValue::Obj(*fields),
                        i <= fields.len(),
                        out@.len() == i as nat,
                        forall|j: int|
                            0 <= j < i ==> out@[j].0@ == fields@[j].0@ && out@[j].1@
                                == fields@[j].1@,
                    decreases fields.len() - i,
                {
                    proof {
                        assert(decreases_to!(*self => (*self)->Obj_0));
                        assert((*self)->Obj_0 == *fields);
                        assert(decreases_to!(*fields => fields@));
                        assert(decreases_to!(fields@ => fields@[i as int]));
                        assert(decreases_to!(fields@[i as int] => fields@[i as int].1));
                    }
                    let (k, v) = &fields[i];
                    out.push((k.clone(), v.duplicate()));
                    i = i + 1;
                }
                let r = JsonValue::Obj(out);
                proof {
                    assert(model_of_fields(out@) =~= model_of_fields(fields@));
                }
                r
            }
        }
    }
}

} // verus!
