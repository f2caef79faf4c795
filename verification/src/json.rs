//! JSON values as the library reads and builds them.
use vstd::prelude::*;

use crate::text::str_eq;

verus! {

/// A JSON value. An object keeps its members in order; a number that is not an `i64`
/// keeps the text that JSON wrote for it.
#[derive(Debug)]
pub enum JsonValue {
    Null,
    Bool(bool),
    Int(i64),
    Number(String),
    Str(String),
    Array(Vec<JsonValue>),
    Object(Vec<(String, JsonValue)>),
}

/// The mathematical form of a JSON value.
pub enum Json {
    Null,
    Bool(bool),
    Int(int),
    Number(Seq<char>),
    Str(Seq<char>),
    Array(Seq<Json>),
    Object(Seq<(Seq<char>, Json)>),
}

impl JsonValue {
    /// The mathematical form of the value.
    pub open spec fn spec_view(self) -> Json
        decreases self,
    {
        match self {
            JsonValue::Null => Json::Null,
            JsonValue::Bool(b) => Json::Bool(b),
            JsonValue::Int(i) => Json::Int(i as int),
            JsonValue::Number(s) => Json::Number(s@),
            JsonValue::Str(s) => Json::Str(s@),
            JsonValue::Array(v) => Json::Array(Seq::new(v@.len(), |i: int|
                if 0 <= i < v@.len() { v@[i].spec_view() } else { Json::Null })),
            JsonValue::Object(v) => Json::Object(Seq::new(v@.len(), |i: int|
                if 0 <= i < v@.len() { (v@[i].0@, v@[i].1.spec_view()) } else { (Seq::empty(), Json::Null) })),
        }
    }
}


impl View for JsonValue {
    type V = Json;

    open spec fn view(&self) -> Json {
        self.spec_view()
    }
}

/// The mathematical form of a sequence of values.
pub open spec fn values_view(v: Seq<JsonValue>) -> Seq<Json> {
    Seq::new(v.len(), |i: int| v[i]@)
}

/// The mathematical form of a sequence of object members.
pub open spec fn members_view(v: Seq<(String, JsonValue)>) -> Seq<(Seq<char>, Json)> {
    Seq::new(v.len(), |i: int| (v[i].0@, v[i].1@))
}

/// The form of an array is that of its elements.
pub proof fn lemma_array_view(v: Vec<JsonValue>)
    ensures
        JsonValue::Array(v)@ == Json::Array(values_view(v@)),
{
    let a = JsonValue::Array(v);
    let s = a.spec_view()->Array_0;
    assert(s.len() == v@.len());
    assert forall|i: int| 0 <= i < s.len() implies s[i] == v@[i]@ by {}
    assert(s =~= values_view(v@));
}

/// The form of an object is that of its members.
pub proof fn lemma_object_view(v: Vec<(String, JsonValue)>)
    ensures
        JsonValue::Object(v)@ == Json::Object(members_view(v@)),
{
    let a = JsonValue::Object(v);
    let s = a.spec_view()->Object_0;
    assert(s.len() == v@.len());
    assert forall|i: int| 0 <= i < s.len() implies s[i] == (v@[i].0@, v@[i].1@) by {}
    assert(s =~= members_view(v@));
}

impl Clone for JsonValue {
    #[verifier::loop_isolation(false)]
    fn clone(&self) -> (r: Self)
        ensures
            r@ == self@,
        decreases self,
    {
        match self {
            JsonValue::Null => JsonValue::Null,
            JsonValue::Bool(b) => JsonValue::Bool(*b),
            JsonValue::Int(i) => JsonValue::Int(*i),
            JsonValue::Number(s) => JsonValue::Number(s.clone()),
            JsonValue::Str(s) => JsonValue::Str(s.clone()),
            JsonValue::Array(v) => {
                let mut out: Vec<JsonValue> = Vec::new();
                let mut i: usize = 0;
                while i < v.len()
                    invariant
                        0 <= i <= v@.len(),
                        values_view(out@) == values_view(v@).take(i as int),
                    decreases v@.len() - i,
                {
                    assert(decreases_to!(*v => v[i as int]));
                    let e = v[i].clone();
                    let ghost before = out@;
                    out.push(e);
                    assert(values_view(out@) =~= values_view(before).push(e@));
                    assert(values_view(v@).take(i + 1) =~= values_view(v@).take(i as int).push(v@[i as int]@));
                    i = i + 1;
                }
                assert(values_view(v@).take(v@.len() as int) =~= values_view(v@));
                proof {
                    lemma_array_view(out);
                    lemma_array_view(*v);
                }
                JsonValue::Array(out)
            },
            JsonValue::Object(v) => {
                let mut out: Vec<(String, JsonValue)> = Vec::new();
                let mut i: usize = 0;
                while i < v.len()
                    invariant
                        0 <= i <= v@.len(),
                        members_view(out@) == members_view(v@).take(i as int),
                    decreases v@.len() - i,
                {
                    assert(decreases_to!(*v => v[i as int]));
                    assert(decreases_to!(v[i as int] => v[i as int].1));
                    let e = v[i].1.clone();
                    let k = v[i].0.clone();
                    let ghost before = out@;
                    out.push((k, e));
                    assert(members_view(out@) =~= members_view(before).push((k@, e@)));
                    assert(members_view(v@).take(i + 1) =~= members_view(v@).take(i as int).push((v@[i as int].0@, v@[i as int].1@)));
                    i = i + 1;
                }
                assert(members_view(v@).take(v@.len() as int) =~= members_view(v@));
                proof {
                    lemma_object_view(out);
                    lemma_object_view(*v);
                }
                JsonValue::Object(out)
            },
        }
    }
}


/// The index of the first member named `key`.
pub open spec fn member_index_from(m: Seq<(Seq<char>, Json)>, key: Seq<char>, k: int) -> Option<int>
    decreases m.len() - k,
{
    if k < 0 || k >= m.len() {
        None
    } else if m[k].0 == key {
        Some(k)
    } else {
        member_index_from(m, key, k + 1)
    }
}

/// The index of the first member named `key`.
pub open spec fn member_index(m: Seq<(Seq<char>, Json)>, key: Seq<char>) -> Option<int> {
    member_index_from(m, key, 0)
}

/// A found index names the key, and no earlier member does.
pub proof fn lemma_member_index_from(m: Seq<(Seq<char>, Json)>, key: Seq<char>, k: int)
    requires
        0 <= k,
    ensures
        match member_index_from(m, key, k) {
            Some(i) => k <= i < m.len() && m[i].0 == key && forall|j: int| k <= j < i ==> m[j].0 != key,
            None => forall|j: int| k <= j < m.len() ==> m[j].0 != key,
        },
    decreases m.len() - k,
{
    if k < m.len() && m[k].0 != key {
        lemma_member_index_from(m, key, k + 1);
    }
}

/// The index is determined by the first member that names the key.
pub proof fn lemma_member_index_at(m: Seq<(Seq<char>, Json)>, key: Seq<char>, i: Option<int>)
    requires
        match i {
            Some(i) => 0 <= i < m.len() && m[i].0 == key && forall|j: int| 0 <= j < i ==> m[j].0 != key,
            None => forall|j: int| 0 <= j < m.len() ==> m[j].0 != key,
        },
    ensures
        member_index(m, key) == i,
{
    lemma_member_index_from(m, key, 0);
}

impl Json {
    /// The member named `key` of an object; none for any other value.
    pub open spec fn get(self, key: Seq<char>) -> Option<Json> {
        match self {
            Json::Object(m) => match member_index(m, key) {
                Some(i) => Some(m[i].1),
                None => None,
            },
            _ => None,
        }
    }

    /// The object with member `key` set to `value`, in place where it exists and last otherwise;
    /// any other value stays as it is.
    pub open spec fn set_field(self, key: Seq<char>, value: Json) -> Json {
        match self {
            Json::Object(m) => Json::Object(match member_index(m, key) {
                Some(i) => m.update(i, (key, value)),
                None => m.push((key, value)),
            }),
            _ => self,
        }
    }

    /// The text of a string value.
    pub open spec fn as_str(self) -> Option<Seq<char>> {
        match self {
            Json::Str(s) => Some(s),
            _ => None,
        }
    }

    /// The elements of an array.
    pub open spec fn as_array(self) -> Option<Seq<Json>> {
        match self {
            Json::Array(a) => Some(a),
            _ => None,
        }
    }

    /// A number that is an `i64`.
    pub open spec fn as_i64(self) -> Option<int> {
        match self {
            Json::Int(i) => Some(i),
            _ => None,
        }
    }

    /// A string value.
    pub open spec fn str(s: Seq<char>) -> Json {
        Json::Str(s)
    }
}

/// Each kind of value has the same kind of mathematical form.
pub proof fn lemma_view_kind(v: JsonValue)
    ensures
        (v is Null) == (v@ is Null),
        (v is Bool) == (v@ is Bool),
        (v is Int) == (v@ is Int),
        (v is Number) == (v@ is Number),
        (v is Str) == (v@ is Str),
        (v is Array) == (v@ is Array),
        (v is Object) == (v@ is Object),
{
}

/// Reading back a member just set gives the value set; other members are unchanged.
pub proof fn lemma_get_after_set(j: Json, k: Seq<char>, v: Json, k2: Seq<char>)
    requires
        j is Object,
    ensures
        j.set_field(k, v) is Object,
        j.set_field(k, v).get(k) == Some(v),
        k2 != k ==> j.set_field(k, v).get(k2) == j.get(k2),
{
    let m = j->Object_0;
    lemma_member_index_from(m, k, 0);
    lemma_member_index_from(m, k2, 0);
    let m2 = j.set_field(k, v)->Object_0;
    match member_index(m, k) {
        Some(i) => {
            assert(m2 == m.update(i, (k, v)));
            lemma_member_index_at(m2, k, Some(i));
            if k2 != k {
                lemma_member_index_at(m2, k2, member_index(m, k2));
            }
        },
        None => {
            assert(m2 == m.push((k, v)));
            lemma_member_index_at(m2, k, Some(m.len() as int));
            if k2 != k {
                lemma_member_index_at(m2, k2, member_index(m, k2));
            }
        },
    }
}

/// Setting a member to the value it already has changes nothing.
pub proof fn lemma_set_same(j: Json, k: Seq<char>, v: Json)
    requires
        j.get(k) == Some(v),
    ensures
        j.set_field(k, v) == j,
{
    let m = j->Object_0;
    lemma_member_index_from(m, k, 0);
    let i = member_index(m, k)->Some_0;
    assert(m.update(i, (k, v)) =~= m);
}

impl JsonValue {
    /// Whether two values are the same JSON, member order included.
    #[verifier::loop_isolation(false)]
    pub fn equals(&self, other: &JsonValue) -> (b: bool)
        ensures
            b == (self@ == other@),
        decreases self,
    {
        proof {
            lemma_view_kind(*self);
            lemma_view_kind(*other);
        }
        match self {
            JsonValue::Null => match other {
                JsonValue::Null => true,
                _ => { assert(self@ != other@); false },
            },
            JsonValue::Bool(a) => match other {
                JsonValue::Bool(b) => *a == *b,
                _ => { assert(self@ != other@); false },
            },
            JsonValue::Int(a) => match other {
                JsonValue::Int(b) => *a == *b,
                _ => { assert(self@ != other@); false },
            },
            JsonValue::Number(a) => match other {
                JsonValue::Number(b) => { let r = str_eq(a.as_str(), b.as_str()); assert(r == (self@ == other@)); r },
                _ => { assert(self@ != other@); false },
            },
            JsonValue::Str(a) => match other {
                JsonValue::Str(b) => { let r = str_eq(a.as_str(), b.as_str()); assert(r == (self@ == other@)); r },
                _ => { assert(self@ != other@); false },
            },
            JsonValue::Array(a) => match other {
                JsonValue::Array(b) => {
                    proof {
                        lemma_array_view(*a);
                        lemma_array_view(*b);
                    }
                    if a.len() != b.len() {
                        assert(values_view(a@).len() != values_view(b@).len());
                        return false;
                    }
                    let mut i: usize = 0;
                    while i < a.len()
                        invariant
                            0 <= i <= a@.len(),
                            a@.len() == b@.len(),
                            forall|j: int| 0 <= j < i ==> a@[j]@ == b@[j]@,
                        decreases a@.len() - i,
                    {
                        assert(decreases_to!(*a => a[i as int]));
                        if !a[i].equals(&b[i]) {
                            assert(values_view(a@)[i as int] != values_view(b@)[i as int]);
                            return false;
                        }
                        i = i + 1;
                    }
                    assert(values_view(a@) =~= values_view(b@));
                    assert(self@ == other@);
                    true
                },
                _ => { assert(self@ != other@); false },
            },
            JsonValue::Object(a) => match other {
                JsonValue::Object(b) => {
                    proof {
                        lemma_object_view(*a);
                        lemma_object_view(*b);
                    }
                    if a.len() != b.len() {
                        assert(members_view(a@).len() != members_view(b@).len());
                        return false;
                    }
                    let mut i: usize = 0;
                    while i < a.len()
                        invariant
                            0 <= i <= a@.len(),
                            a@.len() == b@.len(),
                            forall|j: int| 0 <= j < i ==> a@[j].0@ == b@[j].0@ && a@[j].1@ == b@[j].1@,
                        decreases a@.len() - i,
                    {
                        if a[i].0 != b[i].0 {
                            assert(members_view(a@)[i as int] != members_view(b@)[i as int]);
                            return false;
                        }
                        assert(decreases_to!(*a => a[i as int]));
                        assert(decreases_to!(a[i as int] => a[i as int].1));
                        if !a[i].1.equals(&b[i].1) {
                            assert(members_view(a@)[i as int] != members_view(b@)[i as int]);
                            return false;
                        }
                        i = i + 1;
                    }
                    assert(members_view(a@) =~= members_view(b@));
                    assert(self@ == other@);
                    true
                },
                _ => { assert(self@ != other@); false },
            },
        }
    }

    /// The member named `key` of an object; none for any other value.
    pub fn get(&self, key: &str) -> (r: Option<&JsonValue>)
        ensures
            match r {
                Some(v) => self@.get(key@) == Some(v@),
                None => self@.get(key@) is None,
            },
    {
        match self {
            JsonValue::Object(m) => {
                proof {
                    lemma_object_view(*m);
                }
                let ghost mv = members_view(m@);
                let mut i: usize = 0;
                while i < m.len()
                    invariant
                        0 <= i <= m@.len(),
                        mv == members_view(m@),
                        self@ == Json::Object(mv),
                        forall|j: int| 0 <= j < i ==> mv[j].0 != key@,
                    decreases m@.len() - i,
                {
                    if str_eq(m[i].0.as_str(), key) {
                        proof {
                            lemma_member_index_at(mv, key@, Some(i as int));
                        }
                        return Some(&m[i].1);
                    }
                    i = i + 1;
                }
                proof {
                    lemma_member_index_at(mv, key@, None);
                }
                None
            },
            _ => None,
        }
    }

    /// The text of a string value.
    pub fn as_str(&self) -> (r: Option<&str>)
        ensures
            match r {
                Some(s) => self@.as_str() == Some(s@),
                None => self@.as_str() is None,
            },
    {
        match self {
            JsonValue::Str(s) => Some(s.as_str()),
            _ => None,
        }
    }

    /// The elements of an array.
    pub fn as_array(&self) -> (r: Option<&Vec<JsonValue>>)
        ensures
            match r {
                Some(v) => self@.as_array() == Some(values_view(v@)),
                None => self@.as_array() is None,
            },
    {
        match self {
            JsonValue::Array(v) => {
                proof {
                    lemma_array_view(*v);
                }
                Some(v)
            },
            _ => None,
        }
    }

    /// A number that is an `i64`.
    pub fn as_i64(&self) -> (r: Option<i64>)
        ensures
            match r {
                Some(i) => self@.as_i64() == Some(i as int),
                None => self@.as_i64() is None,
            },
    {
        match self {
            JsonValue::Int(i) => Some(*i),
            _ => None,
        }
    }

    /// Whether the value is an object.
    pub fn is_object(&self) -> (b: bool)
        ensures
            b == (self@ is Object),
    {
        match self {
            JsonValue::Object(_) => true,
            _ => false,
        }
    }

    /// A string value holding `s`.
    pub fn from_str(s: &str) -> (r: JsonValue)
        ensures
            r@ == Json::Str(s@),
    {
        JsonValue::Str(s.to_owned())
    }

    /// An array of the given values.
    pub fn array(v: Vec<JsonValue>) -> (r: JsonValue)
        ensures
            r@ == Json::Array(values_view(v@)),
    {
        proof {
            lemma_array_view(v);
        }
        JsonValue::Array(v)
    }

    /// An object with the given members.
    pub fn object(v: Vec<(String, JsonValue)>) -> (r: JsonValue)
        ensures
            r@ == Json::Object(members_view(v@)),
    {
        proof {
            lemma_object_view(v);
        }
        JsonValue::Object(v)
    }

    /// Sets member `key` of an object, in place where it exists and last otherwise;
    /// any other value is left as it is.
    pub fn set_field(&mut self, key: &str, value: JsonValue)
        ensures
            final(self)@ == old(self)@.set_field(key@, value@),
    {
        let mut old_value = JsonValue::Null;
        std::mem::swap(&mut old_value, self);
        *self = old_value.with_field(key, value);
    }

    /// The object with member `key` set to `value`, see [`JsonValue::set_field`].
    #[verifier::loop_isolation(false)]
    pub fn with_field(self, key: &str, value: JsonValue) -> (r: JsonValue)
        ensures
            r@ == self@.set_field(key@, value@),
    {
        let ghost sv = self@;
        let ghost vv = value@;
        match self {
            JsonValue::Object(m) => {
                proof {
                    lemma_object_view(m);
                }
                let ghost mv = members_view(m@);
                let mut m = m;
                let mut i: usize = 0;
                while i < m.len()
                    invariant
                        0 <= i <= m@.len(),
                        mv == members_view(m@),
                        sv == Json::Object(mv),
                        vv == value@,
                        forall|j: int| 0 <= j < i ==> mv[j].0 != key@,
                    decreases m@.len() - i,
                {
                    if str_eq(m[i].0.as_str(), key) {
                        proof {
                            lemma_member_index_at(mv, key@, Some(i as int));
                        }
                        let k = key.to_owned();
                        m.set(i, (k, value));
                        assert(members_view(m@) =~= mv.update(i as int, (key@, vv)));
                        proof {
                            lemma_object_view(m);
                        }
                        return JsonValue::Object(m);
                    }
                    i = i + 1;
                }
                proof {
                    lemma_member_index_at(mv, key@, None);
                }
                m.push((key.to_owned(), value));
                assert(members_view(m@) =~= mv.push((key@, vv)));
                proof {
                    lemma_object_view(m);
                }
                JsonValue::Object(m)
            },
            other => other,
        }
    }
}

} // verus!
