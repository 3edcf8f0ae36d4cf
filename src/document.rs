use vstd::prelude::*;
use vstd::string::*;

verus! {

/// A decimal number: `mantissa * 10^exponent`, negated when `positive` is false.
#[derive(Clone, Copy, Debug, PartialEq, Eq, Structural)]
pub struct Number {
    pub positive: bool,
    pub mantissa: u64,
    pub exponent: i16,
}

impl Number {
    /// A non-negative whole number.
    pub fn from_u64(n: u64) -> (r: Number)
        ensures
            r == (Number { positive: true, mantissa: n, exponent: 0 }),
    {
        Number { positive: true, mantissa: n, exponent: 0 }
    }
}

/// The mathematical model of a structured value, on either side of the
/// scripting boundary. Documents never hold the last two variants.
pub enum Value {
    Null,
    Bool(bool),
    Num(Number),
    Str(Seq<char>),
    Arr(Seq<Value>),
    Obj(Seq<(Seq<char>, Value)>),
    Callable(Seq<char>),
    Foreign(Seq<char>),
}

/// A structured document value: the scene and everything inside it.
/// Objects keep their members in insertion order.
#[derive(Debug, PartialEq)]
pub enum Document {
    Null,
    Bool(bool),
    Number(Number),
    Text(String),
    Array(Vec<Document>),
    Object(Vec<(String, Document)>),
}

/// The name of the member that holds a scene's entities.
pub open spec fn entities_key() -> Seq<char> {
    seq!['e', 'n', 't', 'i', 't', 'i', 'e', 's']
}

/// The name of the member that lists a scene's scripts.
pub open spec fn scripts_key() -> Seq<char> {
    seq!['s', 'c', 'r', 'i', 'p', 't', 's']
}

/// `i` is the first position of an object member named `k`.
pub open spec fn is_first_key(m: Seq<(Seq<char>, Value)>, k: Seq<char>, i: int) -> bool {
    &&& 0 <= i < m.len()
    &&& m[i].0 == k
    &&& forall|j: int| 0 <= j < i ==> m[j].0 != k
}

/// Position of the first member named `k`, if any.
pub open spec fn key_index(m: Seq<(Seq<char>, Value)>, k: Seq<char>) -> Option<int> {
    if exists|i: int| is_first_key(m, k, i) {
        Some(choose|i: int| is_first_key(m, k, i))
    } else {
        None
    }
}

/// The value of the first member named `k` of an object.
pub open spec fn member(v: Value, k: Seq<char>) -> Option<Value> {
    match v {
        Value::Obj(m) => match key_index(m, k) {
            Some(i) => Some(m[i].1),
            None => None,
        },
        _ => None,
    }
}

/// The entity list of a scene, when it has one.
pub open spec fn entities(scene: Value) -> Option<Seq<Value>> {
    match member(scene, entities_key()) {
        Some(Value::Arr(s)) => Some(s),
        _ => None,
    }
}

/// The scene with `e` appended to its entity list.
pub open spec fn with_entity(scene: Value, e: Value) -> Value {
    match scene {
        Value::Obj(m) => match key_index(m, entities_key()) {
            Some(i) => match m[i].1 {
                Value::Arr(s) => Value::Obj(m.update(i, (m[i].0, Value::Arr(s.push(e))))),
                _ => scene,
            },
            None => scene,
        },
        _ => scene,
    }
}

pub proof fn lemma_first_key_unique(m: Seq<(Seq<char>, Value)>, k: Seq<char>, i: int, j: int)
    requires
        is_first_key(m, k, i),
        is_first_key(m, k, j),
    ensures
        i == j,
{
}

pub proof fn lemma_key_index_is(m: Seq<(Seq<char>, Value)>, k: Seq<char>, i: int)
    requires
        is_first_key(m, k, i),
    ensures
        key_index(m, k) == Some(i),
{
    let c = choose|c: int| is_first_key(m, k, c);
    lemma_first_key_unique(m, k, i, c);
}

/// The model of an object with members `x` and `y`.
pub open spec fn xy_model(x: u64, y: u64) -> Value {
    Value::Obj(
        seq![
            ("x"@, Value::Num(Number { positive: true, mantissa: x, exponent: 0 })),
            ("y"@, Value::Num(Number { positive: true, mantissa: y, exponent: 0 })),
        ],
    )
}

/// The built-in empty scene: a camera at the origin with unit zoom and no
/// entities.
pub open spec fn default_scene_model() -> Value {
    Value::Obj(
        seq![
            ("camera"@, Value::Obj(seq![("position"@, xy_model(0, 0)), ("zoom"@, xy_model(1, 1))])),
            ("entities"@, Value::Arr(Seq::empty())),
        ],
    )
}

/// Spawning keeps every earlier entity where it was and adds exactly one,
/// the new one, at the end.
pub proof fn lemma_spawn_appends(scene: Value, e: Value)
    requires
        entities(scene) is Some,
    ensures
        entities(with_entity(scene, e)) == Some(entities(scene)->Some_0.push(e)),
        entities(with_entity(scene, e))->Some_0.len() == entities(scene)->Some_0.len() + 1,
        forall|j: int|
            0 <= j < entities(scene)->Some_0.len() ==> entities(with_entity(scene, e))->Some_0[j]
                == entities(scene)->Some_0[j],
{
    let m = scene->Obj_0;
    let k = entities_key();
    let i = key_index(m, k)->Some_0;
    let c = choose|c: int| is_first_key(m, k, c);
    assert(is_first_key(m, k, i));
    let s = m[i].1->Arr_0;
    let m2 = m.update(i, (m[i].0, Value::Arr(s.push(e))));
    assert(is_first_key(m2, k, i));
    lemma_key_index_is(m2, k, i);
}

/// Whether two strings hold the same characters.
pub fn str_eq(a: &str, b: &str) -> (r: bool)
    ensures
        r == (a@ == b@),
{
    let n = a.unicode_len();
    if n != b.unicode_len() {
        return false;
    }
    let mut i: usize = 0;
    while i < n
        invariant
            n == a@.len(),
            n == b@.len(),
            i <= n,
            forall|j: int| 0 <= j < i ==> a@[j] == b@[j],
        decreases n - i,
    {
        if a.get_char(i) != b.get_char(i) {
            return false;
        }
        i = i + 1;
    }
    assert(a@ =~= b@);
    true
}

impl Document {
    /// The model of this document.
    pub open spec fn model(&self) -> Value
        decreases self,
    {
        match self {
            Document::Null => Value::Null,
            Document::Bool(b) => Value::Bool(*b),
            Document::Number(n) => Value::Num(*n),
            Document::Text(s) => Value::Str(s@),
            Document::Array(v) => Value::Arr(
                Seq::new(v@.len(), |i: int| if 0 <= i < v@.len() { v@[i].model() } else { Value::Null }),
            ),
            Document::Object(m) => Value::Obj(
                Seq::new(
                    m@.len(),
                    |i: int|
                        if 0 <= i < m@.len() {
                            (m@[i].0@, m@[i].1.model())
                        } else {
                            (Seq::empty(), Value::Null)
                        },
                ),
            ),
        }
    }

    /// Whether this document is an object.
    pub fn is_object(&self) -> (r: bool)
        ensures
            r == (self.model() is Obj),
    {
        match self {
            Document::Object(_) => true,
            _ => false,
        }
    }

    /// Position of the first member named `key`, when this is an object.
    pub fn find_member(&self, key: &str) -> (r: Option<usize>)
        ensures
            match r {
                Some(i) => self.model() is Obj && key_index(self.model()->Obj_0, key@) == Some(
                    i as int,
                ),
                None => !(self.model() is Obj) || key_index(self.model()->Obj_0, key@) is None,
            },
    {
        match self {
            Document::Object(m) => {
                let ghost mm = self.model()->Obj_0;
                let mut i: usize = 0;
                while i < m.len()
                    invariant
                        self.model() is Obj,
                        mm == self.model()->Obj_0,
                        mm.len() == m@.len(),
                        forall|j: int|
                            0 <= j < m@.len() ==> #[trigger] mm[j] == (m@[j].0@, m@[j].1.model()),
                        i <= m.len(),
                        forall|j: int| 0 <= j < i ==> mm[j].0 != key@,
                    decreases m.len() - i,
                {
                    if str_eq(m[i].0.as_str(), key) {
                        proof {
                            lemma_key_index_is(mm, key@, i as int);
                        }
                        return Some(i);
                    }
                    i = i + 1;
                }
                assert(!exists|j: int| is_first_key(mm, key@, j));
                None
            },
            _ => None,
        }
    }

    /// Whether this is an object with a member named `key`.
    pub fn has_key(&self, key: &str) -> (r: bool)
        ensures
            r == (member(self.model(), key@) is Some),
    {
        self.find_member(key).is_some()
    }

    /// The value of the first member named `key`, when this is an object.
    pub fn get(&self, key: &str) -> (r: Option<&Document>)
        ensures
            match r {
                Some(d) => member(self.model(), key@) == Some(d.model()),
                None => member(self.model(), key@) is None,
            },
    {
        match self.find_member(key) {
            Some(i) => match self {
                Document::Object(m) => {
                    assert(self.model()->Obj_0[i as int].1 == m@[i as int].1.model());
                    Some(&m[i].1)
                },
                _ => None,
            },
            None => None,
        }
    }
    /// Append `e` to this scene's entity list. When there is no entity list
    /// the scene is left as it was and `false` comes back.
    pub fn push_entity(&mut self, e: Document) -> (ok: bool)
        ensures
            ok == (entities(old(self).model()) is Some),
            ok ==> final(self).model() == with_entity(old(self).model(), e.model()),
            !ok ==> *final(self) == *old(self),
    {
        let idx = self.find_member("entities");
        proof {
            reveal_strlit("entities");
            assert("entities"@ =~= entities_key());
        }
        let i = match idx {
            Some(i) => i,
            None => return false,
        };
        let is_array = match self.get("entities") {
            Some(Document::Array(_)) => true,
            _ => false,
        };
        if !is_array {
            return false;
        }
        let ghost old_model = self.model();
        let mut doc = Document::Null;
        std::mem::swap(self, &mut doc);
        match doc {
            Document::Object(mut m) => {
                let ghost m0 = m@;
                let ghost e_model = e.model();
                let (k, v) = m.remove(i);
                proof {
                    assert(old_model->Obj_0[i as int].1 == v.model());
                }
                match v {
                    Document::Array(mut es) => {
                        let ghost s0 = es@;
                        let ghost old_arr = Document::Array(es);
                        assert(old_arr.model()->Arr_0.len() == s0.len());
                        assert(forall|j: int| 0 <= j < s0.len() ==> old_arr.model()->Arr_0[j] == s0[j].model());
                        es.push(e);
                        m.insert(i, (k, Document::Array(es)));
                        *self = Document::Object(m);
                        proof {
                            let mm = old_model->Obj_0;
                            let s = mm[i as int].1->Arr_0;
                            let arr = Document::Array(es);
                            assert(s == old_arr.model()->Arr_0);
                            assert(arr.model()->Arr_0 =~= s.push(e_model));
                            assert(m@ =~= m0.update(i as int, (k, arr)));
                            assert(final(self).model()->Obj_0 =~= mm.update(
                                i as int,
                                (mm[i as int].0, Value::Arr(s.push(e_model))),
                            ));
                        }
                        true
                    },
                    other => {
                        m.insert(i, (k, other));
                        *self = Document::Object(m);
                        false
                    },
                }
            },
            other => {
                *self = other;
                false
            },
        }
    }

    /// An object with whole-number members `x` and `y`.
    pub fn xy(x: u64, y: u64) -> (r: Document)
        ensures
            r.model() == xy_model(x, y),
    {
        let mut m: Vec<(String, Document)> = Vec::new();
        m.push((String::from_str("x"), Document::Number(Number::from_u64(x))));
        m.push((String::from_str("y"), Document::Number(Number::from_u64(y))));
        let r = Document::Object(m);
        assert(m@[0].1.model() == Value::Num(Number { positive: true, mantissa: x, exponent: 0 }));
        assert(m@[1].1.model() == Value::Num(Number { positive: true, mantissa: y, exponent: 0 }));
        assert(r.model()->Obj_0 =~= xy_model(x, y)->Obj_0);
        r
    }

    /// The built-in empty scene.
    pub fn default_scene() -> (r: Document)
        ensures
            r.model() == default_scene_model(),
    {
        let mut camera_members: Vec<(String, Document)> = Vec::new();
        camera_members.push((String::from_str("position"), Document::xy(0, 0)));
        camera_members.push((String::from_str("zoom"), Document::xy(1, 1)));
        let camera = Document::Object(camera_members);
        assert(camera.model()->Obj_0 =~= default_scene_model()->Obj_0[0].1->Obj_0);
        let entities: Vec<Document> = Vec::new();
        let list = Document::Array(entities);
        assert(list.model()->Arr_0 =~= Seq::<Value>::empty());
        let mut m: Vec<(String, Document)> = Vec::new();
        m.push((String::from_str("camera"), camera));
        m.push((String::from_str("entities"), list));
        let r = Document::Object(m);
        assert(r.model()->Obj_0 =~= default_scene_model()->Obj_0);
        r
    }

    /// A copy of this document, item for item.
    #[verifier::loop_isolation(false)]
    pub fn deep_copy(&self) -> (r: Document)
        ensures
            r.model() == self.model(),
        decreases self,
    {
        match self {
            Document::Null => Document::Null,
            Document::Bool(b) => Document::Bool(*b),
            Document::Number(n) => Document::Number(*n),
            Document::Text(s) => Document::Text(s.clone()),
            Document::Array(items) => {
                let mut out: Vec<Document> = Vec::new();
                let mut i: usize = 0;
                while i < items.len()
                    invariant
                        i <= items.len(),
                        out@.len() == i,
                        forall|j: int| 0 <= j < i ==> #[trigger] out@[j].model() == items@[j].model(),
                    decreases items.len() - i,
                {
                    out.push(items[i].deep_copy());
                    i = i + 1;
                }
                let r = Document::Array(out);
                assert forall|j: int| 0 <= j < items@.len() implies r.model()->Arr_0[j]
                    == self.model()->Arr_0[j] by {
                    assert(out@[j].model() == items@[j].model());
                }
                assert(r.model()->Arr_0 =~= self.model()->Arr_0);
                r
            },
            Document::Object(members) => {
                let mut out: Vec<(String, Document)> = Vec::new();
                let mut i: usize = 0;
                while i < members.len()
                    invariant
                        i <= members.len(),
                        out@.len() == i,
                        forall|j: int|
                            0 <= j < i ==> #[trigger] out@[j].0@ == members@[j].0@
                                && out@[j].1.model() == members@[j].1.model(),
                    decreases members.len() - i,
                {
                    let key = members[i].0.clone();
                    let value = members[i].1.deep_copy();
                    out.push((key, value));
                    assert(out@[i as int].1.model() == members@[i as int].1.model());
                    i = i + 1;
                }
                let r = Document::Object(out);
                assert(r.model()->Obj_0 =~= self.model()->Obj_0);
                r
            },
        }
    }
}

} // verus!
