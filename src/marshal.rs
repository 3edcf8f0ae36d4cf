use vstd::prelude::*;
use vstd::string::*;

use crate::document::{Document, Number, Value};
use crate::error::{ErrorKind, IslandError};

verus! {

/// A value as the embedded interpreter holds it. Besides data it may be a
/// callable or some other foreign object; those carry their type's name.
#[derive(Debug, PartialEq)]
pub enum ScriptValue {
    Nil,
    Bool(bool),
    Number(Number),
    Str(String),
    List(Vec<ScriptValue>),
    Dict(Vec<(String, ScriptValue)>),
    Callable(String),
    Foreign(String),
}

impl ScriptValue {
    /// The model of this interpreter value.
    pub open spec fn model(&self) -> Value
        decreases self,
    {
        match self {
            ScriptValue::Nil => Value::Null,
            ScriptValue::Bool(b) => Value::Bool(*b),
            ScriptValue::Number(n) => Value::Num(*n),
            ScriptValue::Str(s) => Value::Str(s@),
            ScriptValue::List(v) => Value::Arr(
                Seq::new(v@.len(), |i: int| if 0 <= i < v@.len() { v@[i].model() } else { Value::Null }),
            ),
            ScriptValue::Dict(m) => Value::Obj(
                Seq::new(
                    m@.len(),
                    |i: int|
                        if 0 <= i < m@.len() {
                            (m@[i].0@, m@[i].1.model())
                        } else {
                            (Seq::empty(), Value::Null)
                        },
                ),
            ),
            ScriptValue::Callable(s) => Value::Callable(s@),
            ScriptValue::Foreign(s) => Value::Foreign(s@),
        }
    }
}

/// Whether a value has a document form: it holds no callable and no
/// foreign object at any depth.
pub open spec fn representable(v: Value) -> bool
    decreases v,
{
    match v {
        Value::Arr(s) => forall|i: int| 0 <= i < s.len() ==> representable(#[trigger] s[i]),
        Value::Obj(m) => forall|i: int| 0 <= i < m.len() ==> representable(#[trigger] m[i].1),
        Value::Callable(_) => false,
        Value::Foreign(_) => false,
        _ => true,
    }
}

/// What marshaling a document out produces: the same structure, unchanged.
pub open spec fn encode_model(d: Value) -> Value {
    d
}

/// What marshaling an interpreter value back produces, when it can.
pub open spec fn decode_model(v: Value) -> Option<Value> {
    if representable(v) {
        Some(v)
    } else {
        None
    }
}

/// Every document's model is representable.
pub proof fn lemma_document_representable(d: &Document)
    ensures
        representable(d.model()),
    decreases d,
{
    match d {
        Document::Array(v) => {
            assert forall|i: int| 0 <= i < v@.len() implies representable(
                #[trigger] d.model()->Arr_0[i],
            ) by {
                lemma_document_representable(&v@[i]);
            }
        },
        Document::Object(m) => {
            assert forall|i: int| 0 <= i < m@.len() implies representable(
                #[trigger] d.model()->Obj_0[i].1,
            ) by {
                lemma_document_representable(&m@[i].1);
            }
        },
        _ => {},
    }
}

/// Marshaling a document out and back gives the same document again.
pub proof fn lemma_round_trip(d: &Document)
    ensures
        decode_model(encode_model(d.model())) == Some(d.model()),
{
    lemma_document_representable(d);
}

/// Marshal a document out into the interpreter's value form.
#[verifier::loop_isolation(false)]
pub fn encode(d: &Document) -> (r: ScriptValue)
    ensures
        r.model() == encode_model(d.model()),
    decreases d,
{
    match d {
        Document::Null => ScriptValue::Nil,
        Document::Bool(b) => ScriptValue::Bool(*b),
        Document::Number(n) => ScriptValue::Number(*n),
        Document::Text(s) => ScriptValue::Str(s.clone()),
        Document::Array(items) => {
            let mut out: Vec<ScriptValue> = Vec::new();
            let mut i: usize = 0;
            while i < items.len()
                invariant
                    i <= items.len(),
                    out@.len() == i,
                    forall|j: int| 0 <= j < i ==> #[trigger] out@[j].model() == items@[j].model(),
                decreases items.len() - i,
            {
                out.push(encode(&items[i]));
                i = i + 1;
            }
            let r = ScriptValue::List(out);
            assert forall|j: int| 0 <= j < items@.len() implies r.model()->Arr_0[j] == d.model()->Arr_0[j] by {
                assert(out@[j].model() == items@[j].model());
            }
            assert(r.model()->Arr_0 =~= d.model()->Arr_0);
            r
        },
        Document::Object(members) => {
            let mut out: Vec<(String, ScriptValue)> = Vec::new();
            let mut i: usize = 0;
            while i < members.len()
                invariant
                    i <= members.len(),
                    out@.len() == i,
                    forall|j: int|
                        0 <= j < i ==> #[trigger] out@[j].0@ == members@[j].0@ && out@[j].1.model()
                            == members@[j].1.model(),
                decreases members.len() - i,
            {
                let key = members[i].0.clone();
                out.push((key, encode(&members[i].1)));
                i = i + 1;
            }
            let r = ScriptValue::Dict(out);
            assert(r.model()->Obj_0 =~= d.model()->Obj_0);
            r
        },
    }
}

/// Marshal an interpreter value back into a document. Fails with a
/// serialization error exactly when the value holds a callable or a foreign
/// object somewhere inside.
#[verifier::loop_isolation(false)]
pub fn decode(v: &ScriptValue) -> (r: Result<Document, IslandError>)
    ensures
        match r {
            Ok(d) => decode_model(v.model()) == Some(d.model()),
            Err(e) => decode_model(v.model()) is None && e.kind == ErrorKind::Serialization,
        },
    decreases v,
{
    match v {
        ScriptValue::Nil => Ok(Document::Null),
        ScriptValue::Bool(b) => Ok(Document::Bool(*b)),
        ScriptValue::Number(n) => Ok(Document::Number(*n)),
        ScriptValue::Str(s) => Ok(Document::Text(s.clone())),
        ScriptValue::List(items) => {
            let mut out: Vec<Document> = Vec::new();
            let mut i: usize = 0;
            while i < items.len()
                invariant
                    i <= items.len(),
                    out@.len() == i,
                    forall|j: int| 0 <= j < i ==> #[trigger] out@[j].model() == items@[j].model(),
                    forall|j: int| 0 <= j < i ==> representable(#[trigger] items@[j].model()),
                decreases items.len() - i,
            {
                match decode(&items[i]) {
                    Ok(d) => out.push(d),
                    Err(e) => {
                        assert(!representable(v.model()->Arr_0[i as int]));
                        return Err(e);
                    },
                }
                i = i + 1;
            }
            let r = Document::Array(out);
            assert forall|j: int| 0 <= j < items@.len() implies r.model()->Arr_0[j] == v.model()->Arr_0[j] by {
                assert(out@[j].model() == items@[j].model());
            }
            assert(r.model()->Arr_0 =~= v.model()->Arr_0);
            assert forall|j: int| 0 <= j < items@.len() implies representable(
                #[trigger] v.model()->Arr_0[j],
            ) by {
                assert(representable(items@[j].model()));
            }
            Ok(r)
        },
        ScriptValue::Dict(members) => {
            let mut out: Vec<(String, Document)> = Vec::new();
            let mut i: usize = 0;
            while i < members.len()
                invariant
                    i <= members.len(),
                    out@.len() == i,
                    forall|j: int|
                        0 <= j < i ==> #[trigger] out@[j].0@ == members@[j].0@ && out@[j].1.model()
                            == members@[j].1.model(),
                    forall|j: int| 0 <= j < i ==> representable(#[trigger] members@[j].1.model()),
                decreases members.len() - i,
            {
                match decode(&members[i].1) {
                    Ok(d) => {
                        let key = members[i].0.clone();
                        out.push((key, d));
                    },
                    Err(e) => {
                        assert(!representable(v.model()->Obj_0[i as int].1));
                        return Err(e);
                    },
                }
                i = i + 1;
            }
            let r = Document::Object(out);
            assert(r.model()->Obj_0 =~= v.model()->Obj_0);
            assert forall|j: int| 0 <= j < members@.len() implies representable(
                #[trigger] v.model()->Obj_0[j].1,
            ) by {
                assert(representable(members@[j].1.model()));
            }
            Ok(r)
        },
        ScriptValue::Callable(name) => Err(
            IslandError::new(ErrorKind::Serialization, String::from_str("a callable has no document form")),
        ),
        ScriptValue::Foreign(name) => Err(
            IslandError::new(ErrorKind::Serialization, String::from_str("a foreign object has no document form")),
        ),
    }
}

} // verus!
