use vstd::prelude::*;
use crate::text::str_eq;

verus! {

/// Mathematical model of a JSON document. Numbers keep the decimal
/// rendering the parser gave them, so no precision is lost or gained here.
pub enum JsonV {
    Null,
    Bool(bool),
    Num(Seq<char>),
    Str(Seq<char>),
    Arr(Seq<JsonV>),
    Obj(Seq<(Seq<char>, JsonV)>),
}

/// A JSON document as plain data: the shape every upstream body is brought
/// into before any field of it is read, and the shape of every structured
/// payload handed back to the caller.
pub enum JsonValue {
    Null,
    Bool(bool),
    Num(String),
    Str(String),
    Arr(Vec<JsonValue>),
    Obj(Vec<(String, JsonValue)>),
}

pub open spec fn json_view(j: JsonValue) -> JsonV
    decreases j,
{
    match j {
        JsonValue::Null => JsonV::Null,
        JsonValue::Bool(b) => JsonV::Bool(b),
        JsonValue::Num(s) => JsonV::Num(s@),
        JsonValue::Str(s) => JsonV::Str(s@),
        JsonValue::Arr(a) => JsonV::Arr(
            Seq::new(
                a@.len(),
                |i: int|
                    if 0 <= i < a@.len() {
                        json_view(a@[i])
                    } else {
                        JsonV::Null
                    },
            ),
        ),
        JsonValue::Obj(m) => JsonV::Obj(
            Seq::new(
                m@.len(),
                |i: int|
                    if 0 <= i < m@.len() {
                        (m@[i].0@, json_view(m@[i].1))
                    } else {
                        (Seq::empty(), JsonV::Null)
                    },
            ),
        ),
    }
}

impl DeepView for JsonValue {
    type V = JsonV;

    open spec fn deep_view(&self) -> JsonV {
        json_view(*self)
    }
}

/// The value under the first entry carrying key `k`, if any. The parser
/// never hands out an object with a repeated key, so the first entry is
/// the only one.
pub open spec fn obj_lookup(entries: Seq<(Seq<char>, JsonV)>, k: Seq<char>) -> Option<JsonV>
    decreases entries.len(),
{
    if entries.len() == 0 {
        None
    } else if entries[0].0 == k {
        Some(entries[0].1)
    } else {
        obj_lookup(entries.drop_first(), k)
    }
}

/// Field access on the model: defined only on objects.
pub open spec fn spec_get(j: JsonV, k: Seq<char>) -> Option<JsonV> {
    match j {
        JsonV::Obj(m) => obj_lookup(m, k),
        _ => None,
    }
}

/// Looking a key up skips every leading entry whose key differs.
pub proof fn lemma_obj_lookup_skip(entries: Seq<(Seq<char>, JsonV)>, k: Seq<char>, i: int)
    requires
        0 <= i <= entries.len(),
        forall|j: int| 0 <= j < i ==> (#[trigger] entries[j]).0 != k,
    ensures
        obj_lookup(entries, k) == obj_lookup(entries.skip(i), k),
    decreases i,
{
    if i > 0 {
        lemma_obj_lookup_skip(entries.drop_first(), k, i - 1);
        assert(entries.drop_first().skip(i - 1) =~= entries.skip(i));
    } else {
        assert(entries.skip(0) =~= entries);
    }
}

impl JsonValue {
    /// The value of the field named `k`, where `self` is an object that
    /// carries it.
    pub fn get<'a>(&'a self, k: &str) -> (r: Option<&'a JsonValue>)
        ensures
            match r {
                Some(v) => spec_get(self.deep_view(), k@) == Some(v.deep_view()),
                None => spec_get(self.deep_view(), k@) is None,
            },
    {
        match self {
            JsonValue::Obj(m) => {
                let ghost entries = self.deep_view()->Obj_0;
                proof {
                    assert(entries.len() == m@.len());
                }
                let n = m.len();
                let mut i: usize = 0;
                while i < n
                    invariant
                        0 <= i <= n,
                        n == m@.len(),
                        *self == JsonValue::Obj(*m),
                        entries == self.deep_view()->Obj_0,
                        self.deep_view() == JsonV::Obj(entries),
                        entries.len() == m@.len(),
                        forall|q: int|
                            0 <= q < m@.len() ==> #[trigger] entries[q] == (
                                m@[q].0@,
                                json_view(m@[q].1),
                            ),
                        forall|j: int| 0 <= j < i ==> (#[trigger] entries[j]).0 != k@,
                    decreases n - i,
                {
                    if str_eq(m[i].0.as_str(), k) {
                        proof {
                            lemma_obj_lookup_skip(entries, k@, i as int);
                            assert(entries.skip(i as int)[0] == entries[i as int]);
                        }
                        return Some(&m[i].1);
                    }
                    i += 1;
                }
                proof {
                    lemma_obj_lookup_skip(entries, k@, n as int);
                    assert(entries.skip(n as int) =~= Seq::<(Seq<char>, JsonV)>::empty());
                }
                None
            },
            _ => None,
        }
    }

    /// The characters of a string node.
    pub fn as_string<'a>(&'a self) -> (r: Option<&'a String>)
        ensures
            match r {
                Some(s) => self.deep_view() == JsonV::Str(s@),
                None => !(self.deep_view() is Str),
            },
    {
        match self {
            JsonValue::Str(s) => Some(s),
            _ => None,
        }
    }

    /// The decimal rendering of a number node.
    pub fn as_number<'a>(&'a self) -> (r: Option<&'a String>)
        ensures
            match r {
                Some(s) => self.deep_view() == JsonV::Num(s@),
                None => !(self.deep_view() is Num),
            },
    {
        match self {
            JsonValue::Num(s) => Some(s),
            _ => None,
        }
    }

    /// The elements of an array node.
    pub fn as_array<'a>(&'a self) -> (r: Option<&'a Vec<JsonValue>>)
        ensures
            match r {
                Some(a) => {
                    &&& self.deep_view() is Arr
                    &&& self.deep_view()->Arr_0.len() == a@.len()
                    &&& forall|i: int|
                        0 <= i < a@.len() ==> self.deep_view()->Arr_0[i] == #[trigger] a@[i].deep_view()
                },
                None => !(self.deep_view() is Arr),
            },
    {
        match self {
            JsonValue::Arr(a) => Some(a),
            _ => None,
        }
    }
}

} // verus!
