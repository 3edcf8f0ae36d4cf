use vstd::prelude::*;
use vstd::string::*;

use crate::document::{member, scripts_key, Document, Value};
use crate::error::{ErrorKind, IslandError};

verus! {

/// A compiled script module: its name and which entry points it exposes.
#[derive(Debug, PartialEq)]
pub struct ScriptModule {
    pub name: String,
    pub has_init: bool,
    pub has_update: bool,
}

impl ScriptModule {
    /// A copy of this module record.
    pub fn copy(&self) -> (r: ScriptModule)
        ensures
            r == *self,
    {
        ScriptModule { name: self.name.clone(), has_init: self.has_init, has_update: self.has_update }
    }
}

/// The script paths a scene lists under `scripts`, in order. A missing or
/// non-list `scripts` member lists none; an entry that is not a string makes
/// the list unreadable.
pub open spec fn script_list(scene: Value) -> Option<Seq<Seq<char>>> {
    match member(scene, scripts_key()) {
        Some(Value::Arr(s)) => if forall|i: int| 0 <= i < s.len() ==> (#[trigger] s[i]) is Str {
            Some(Seq::new(s.len(), |i: int| s[i]->Str_0))
        } else {
            None
        },
        _ => Some(Seq::empty()),
    }
}

/// Read the script paths of a scene.
pub fn script_paths(scene: &Document) -> (r: Result<Vec<String>, IslandError>)
    ensures
        match r {
            Ok(paths) => script_list(scene.model()) == Some(paths@.map_values(|p: String| p@)),
            Err(e) => script_list(scene.model()) is None && e.kind == ErrorKind::Parse,
        },
{
    let mut paths: Vec<String> = Vec::new();
    proof {
        reveal_strlit("scripts");
        assert("scripts"@ =~= scripts_key());
    }
    match scene.get("scripts") {
        Some(Document::Array(items)) => {
            let ghost s = member(scene.model(), scripts_key())->Some_0->Arr_0;
            assert(s.len() == items@.len());
            let mut i: usize = 0;
            while i < items.len()
                invariant
                    member(scene.model(), scripts_key()) == Some(Value::Arr(s)),
                    s.len() == items@.len(),
                    forall|j: int| 0 <= j < items@.len() ==> s[j] == #[trigger] items@[j].model(),
                    i <= items.len(),
                    paths@.len() == i,
                    forall|j: int| 0 <= j < i ==> s[j] is Str,
                    forall|j: int| 0 <= j < i ==> #[trigger] paths@[j]@ == s[j]->Str_0,
                decreases items.len() - i,
            {
                assert(s[i as int] == items@[i as int].model());
                match &items[i] {
                    Document::Text(p) => paths.push(p.clone()),
                    _ => {
                        assert(!(s[i as int] is Str));
                        assert(script_list(scene.model()) is None);
                        return Err(
                            IslandError::new(
                                ErrorKind::Parse,
                                String::from_str("cannot read a script path as a string"),
                            ),
                        );
                    },
                }
                i = i + 1;
            }
            assert(paths@.map_values(|p: String| p@) =~= Seq::new(s.len(), |i: int| s[i]->Str_0));
            Ok(paths)
        },
        _ => {
            assert(paths@.map_values(|p: String| p@) =~= Seq::<Seq<char>>::empty());
            Ok(paths)
        },
    }
}

/// Where the last path segment of `p[..i]` starts.
pub open spec fn segment_start(p: Seq<char>, i: int) -> int
    decreases i,
{
    if i <= 0 {
        0
    } else if p[i - 1] == '/' {
        i
    } else {
        segment_start(p, i - 1)
    }
}

/// The part of a path after its last `/`.
pub open spec fn last_segment(p: Seq<char>) -> Seq<char> {
    p.subrange(segment_start(p, p.len() as int), p.len() as int)
}

/// The text with every `.py` removed, scanning from the left.
pub open spec fn without_py(s: Seq<char>) -> Seq<char>
    decreases s.len(),
{
    if s.len() == 0 {
        s
    } else if s.len() >= 3 && s[0] == '.' && s[1] == 'p' && s[2] == 'y' {
        without_py(s.subrange(3, s.len() as int))
    } else {
        seq![s[0]] + without_py(s.drop_first())
    }
}

/// Remove every `.py` from the text.
fn remove_py(s: &str) -> (r: String)
    ensures
        r@ == without_py(s@),
{
    let n = s.unicode_len();
    let mut out = String::new();
    let mut i: usize = 0;
    assert(s@.subrange(0, n as int) =~= s@);
    assert(out@ + without_py(s@) =~= without_py(s@));
    while i < n
        invariant
            n == s@.len(),
            i <= n,
            without_py(s@) == out@ + without_py(s@.subrange(i as int, n as int)),
        decreases n - i,
    {
        let ghost rest = s@.subrange(i as int, n as int);
        if n - i >= 3 && s.get_char(i) == '.' && s.get_char(i + 1) == 'p' && s.get_char(i + 2) == 'y' {
            assert(rest.subrange(3, rest.len() as int) =~= s@.subrange(i + 3, n as int));
            i = i + 3;
        } else {
            let c = s.substring_char(i, i + 1);
            assert(rest.drop_first() =~= s@.subrange(i + 1, n as int));
            assert(c@ =~= seq![rest[0]]);
            out.append(c);
            assert(out@ + without_py(s@.subrange(i + 1, n as int)) =~= without_py(s@));
            i = i + 1;
        }
    }
    assert(s@.subrange(n as int, n as int) =~= Seq::<char>::empty());
    assert(out@ + Seq::<char>::empty() =~= out@);
    out
}

/// The module name of a script path: its file name with `.py` removed.
pub fn module_name(path: &str) -> (r: String)
    ensures
        r@ == without_py(last_segment(path@)),
{
    let n = path.unicode_len();
    let mut i: usize = n;
    while i > 0 && path.get_char(i - 1) != '/'
        invariant
            n == path@.len(),
            i <= n,
            segment_start(path@, i as int) == segment_start(path@, n as int),
        decreases i,
    {
        i = i - 1;
    }
    let file = path.substring_char(i, n);
    remove_py(file)
}

/// Whether a later module in `ms` has the same name as the one at `i`.
pub open spec fn shadowed(ms: Seq<ScriptModule>, i: int) -> bool {
    exists|j: int| i < j < ms.len() && (#[trigger] ms[j]).name@ == ms[i].name@
}

/// The modules among the first `i` that no later module of the same name
/// replaces, in their order.
pub open spec fn kept_upto(ms: Seq<ScriptModule>, i: int) -> Seq<ScriptModule>
    decreases i,
{
    if i <= 0 {
        Seq::empty()
    } else if shadowed(ms, i - 1) {
        kept_upto(ms, i - 1)
    } else {
        kept_upto(ms, i - 1).push(ms[i - 1])
    }
}

/// The module list that a list of compiled modules gives: where two share a
/// name, the later one wins.
pub open spec fn kept_modules(ms: Seq<ScriptModule>) -> Seq<ScriptModule> {
    kept_upto(ms, ms.len() as int)
}

/// Resolve modules of the same name: the last one of each name is kept, and
/// the kept ones stay in list order.
pub fn resolve_modules(modules: &Vec<ScriptModule>) -> (r: Vec<ScriptModule>)
    ensures
        r@ == kept_modules(modules@),
{
    let mut out: Vec<ScriptModule> = Vec::new();
    let n = modules.len();
    let mut i: usize = 0;
    while i < n
        invariant
            n == modules@.len(),
            i <= n,
            out@ == kept_upto(modules@, i as int),
        decreases n - i,
    {
        let mut later = false;
        let mut j: usize = i + 1;
        while j < n
            invariant
                n == modules@.len(),
                i < j <= n,
                later == exists|k: int| i < k < j && (#[trigger] modules@[k]).name@ == modules@[i as int].name@,
            decreases n - j,
        {
            if str_eq_string(&modules[j].name, &modules[i].name) {
                later = true;
            }
            j = j + 1;
        }
        if !later {
            out.push(modules[i].copy());
        }
        i = i + 1;
    }
    out
}

fn str_eq_string(a: &String, b: &String) -> (r: bool)
    ensures
        r == (a@ == b@),
{
    crate::document::str_eq(a.as_str(), b.as_str())
}

/// `recs` are the module records for script paths `ps` whose compiled
/// modules expose the entry points `eps` (`init`, then `update`): one per
/// path, in order, each named by its path.
pub open spec fn records_for(recs: Seq<ScriptModule>, ps: Seq<Seq<char>>, eps: Seq<(bool, bool)>) -> bool {
    &&& recs.len() == ps.len()
    &&& ps.len() == eps.len()
    &&& forall|i: int|
        0 <= i < recs.len() ==> (#[trigger] recs[i]).name@ == without_py(last_segment(ps[i]))
            && recs[i].has_init == eps[i].0 && recs[i].has_update == eps[i].1
}

/// The module records for script paths, given which entry points each
/// compiled module exposes.
pub fn module_records(paths: &Vec<String>, entry_points: &Vec<(bool, bool)>) -> (r: Vec<ScriptModule>)
    requires
        paths@.len() == entry_points@.len(),
    ensures
        records_for(r@, paths@.map_values(|p: String| p@), entry_points@),
{
    let mut out: Vec<ScriptModule> = Vec::new();
    let n = paths.len();
    let mut i: usize = 0;
    while i < n
        invariant
            n == paths@.len(),
            n == entry_points@.len(),
            i <= n,
            out@.len() == i,
            forall|j: int|
                0 <= j < i ==> (#[trigger] out@[j]).name@ == without_py(last_segment(paths@[j]@))
                    && out@[j].has_init == entry_points@[j].0 && out@[j].has_update
                    == entry_points@[j].1,
        decreases n - i,
    {
        let name = module_name(paths[i].as_str());
        let (has_init, has_update) = entry_points[i];
        out.push(ScriptModule { name, has_init, has_update });
        i = i + 1;
    }
    out
}

} // verus!
