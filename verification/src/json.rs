//! JSON values and their mathematical model.

use vstd::prelude::*;

use crate::text::same_text;

verus! {

/// A JSON value as the protocol layer reads and writes it.
#[derive(Debug, PartialEq)]
pub enum Json {
    Null,
    Bool(bool),
    /// An integer in the range of `i64`.
    Int(i64),
    /// A non-negative integer in the range of `u64`.
    UInt(u64),
    /// A number that is not an integer, kept as its JSON text.
    Fraction(String),
    Str(String),
    Array(Vec<Json>),
    /// The members of an object, in order.
    Object(Vec<(String, Json)>),
}

/// The mathematical meaning of a [`Json`] value.
pub enum JsonModel {
    Null,
    Bool(bool),
    Num(int),
    Fraction(Seq<char>),
    Str(Seq<char>),
    Array(Seq<JsonModel>),
    Object(Seq<(Seq<char>, JsonModel)>),
}

impl Json {
    /// What the value means: integers as mathematical integers, text as
    /// characters.
    pub open spec fn model(self) -> JsonModel
        decreases self,
    {
        match self {
            Json::Null => JsonModel::Null,
            Json::Bool(b) => JsonModel::Bool(b),
            Json::Int(n) => JsonModel::Num(n as int),
            Json::UInt(n) => JsonModel::Num(n as int),
            Json::Fraction(t) => JsonModel::Fraction(t@),
            Json::Str(s) => JsonModel::Str(s@),
            Json::Array(items) => JsonModel::Array(
                Seq::new(
                    items@.len(),
                    |i: int|
                        if 0 <= i < items@.len() {
                            items@[i].model()
                        } else {
                            JsonModel::Null
                        },
                ),
            ),
            Json::Object(members) => JsonModel::Object(
                Seq::new(
                    members@.len(),
                    |i: int|
                        if 0 <= i < members@.len() {
                            (members@[i].0@, members@[i].1.model())
                        } else {
                            (Seq::empty(), JsonModel::Null)
                        },
                ),
            ),
        }
    }
}

/// The value of the first member of `members` named `key`.
pub open spec fn lookup(members: Seq<(Seq<char>, JsonModel)>, key: Seq<char>) -> Option<JsonModel>
    decreases members.len(),
{
    if members.len() == 0 {
        None
    } else if members[0].0 == key {
        Some(members[0].1)
    } else {
        lookup(members.drop_first(), key)
    }
}

proof fn lemma_lookup_at(members: Seq<(Seq<char>, JsonModel)>, key: Seq<char>, k: int)
    requires
        0 <= k <= members.len(),
        forall|j: int| 0 <= j < k ==> (#[trigger] members[j]).0 != key,
    ensures
        k < members.len() && members[k].0 == key ==> lookup(members, key) == Some(members[k].1),
        k == members.len() ==> lookup(members, key) is None,
    decreases k,
{
    if k > 0 {
        lemma_lookup_at(members.drop_first(), key, k - 1);
    }
}

impl JsonModel {
    /// The member named `key` of an object; `None` for anything else.
    pub open spec fn get(self, key: Seq<char>) -> Option<JsonModel> {
        match self {
            JsonModel::Object(members) => lookup(members, key),
            _ => None,
        }
    }

    /// The text of a string value.
    pub open spec fn as_str(self) -> Option<Seq<char>> {
        match self {
            JsonModel::Str(s) => Some(s),
            _ => None,
        }
    }

    /// The value of a number that is an integer in the range of `i64`.
    pub open spec fn as_i64(self) -> Option<int> {
        match self {
            JsonModel::Num(n) => if i64::MIN <= n <= i64::MAX {
                Some(n)
            } else {
                None
            },
            _ => None,
        }
    }
}

/// The model of an optional value.
pub open spec fn model_of(v: Option<Json>) -> Option<JsonModel> {
    match v {
        Some(j) => Some(j.model()),
        None => None,
    }
}

impl Json {
    /// A string value with the text of `s`.
    pub fn text(s: &str) -> (j: Json)
        ensures
            j.model() == JsonModel::Str(s@),
    {
        Json::Str(s.to_owned())
    }

    /// An object with one member.
    pub fn object1(k1: &str, v1: Json) -> (j: Json)
        ensures
            j.model() == JsonModel::Object(seq![(k1@, v1.model())]),
    {
        let ghost m1 = v1.model();
        let members = vec![(k1.to_owned(), v1)];
        let j = Json::Object(members);
        assert(j.model()->Object_0 =~= seq![(k1@, m1)]);
        j
    }

    /// An object with two members, in this order.
    pub fn object2(k1: &str, v1: Json, k2: &str, v2: Json) -> (j: Json)
        ensures
            j.model() == JsonModel::Object(seq![(k1@, v1.model()), (k2@, v2.model())]),
    {
        let ghost m1 = v1.model();
        let ghost m2 = v2.model();
        let members = vec![(k1.to_owned(), v1), (k2.to_owned(), v2)];
        let j = Json::Object(members);
        assert(j.model()->Object_0 =~= seq![(k1@, m1), (k2@, m2)]);
        j
    }

    /// An object with three members, in this order.
    pub fn object3(k1: &str, v1: Json, k2: &str, v2: Json, k3: &str, v3: Json) -> (j: Json)
        ensures
            j.model() == JsonModel::Object(
                seq![(k1@, v1.model()), (k2@, v2.model()), (k3@, v3.model())],
            ),
    {
        let ghost m1 = v1.model();
        let ghost m2 = v2.model();
        let ghost m3 = v3.model();
        let members = vec![(k1.to_owned(), v1), (k2.to_owned(), v2), (k3.to_owned(), v3)];
        let j = Json::Object(members);
        assert(j.model()->Object_0 =~= seq![(k1@, m1), (k2@, m2), (k3@, m3)]);
        j
    }

    /// An empty object.
    pub fn empty_object() -> (j: Json)
        ensures
            j.model() == JsonModel::Object(Seq::empty()),
    {
        let j = Json::Object(Vec::new());
        assert(j.model()->Object_0 =~= Seq::<(Seq<char>, JsonModel)>::empty());
        j
    }

    /// An array of one value.
    pub fn array1(v1: Json) -> (j: Json)
        ensures
            j.model() == JsonModel::Array(seq![v1.model()]),
    {
        let ghost m1 = v1.model();
        let j = Json::Array(vec![v1]);
        assert(j.model()->Array_0 =~= seq![m1]);
        j
    }

    /// An array of two values, in this order.
    pub fn array2(v1: Json, v2: Json) -> (j: Json)
        ensures
            j.model() == JsonModel::Array(seq![v1.model(), v2.model()]),
    {
        let ghost m1 = v1.model();
        let ghost m2 = v2.model();
        let j = Json::Array(vec![v1, v2]);
        assert(j.model()->Array_0 =~= seq![m1, m2]);
        j
    }

    /// The member named `key`, when `self` is an object that has one.
    pub fn get(&self, key: &str) -> (r: Option<&Json>)
        ensures
            match r {
                Some(v) => self.model().get(key@) == Some(v.model()),
                None => self.model().get(key@) is None,
            },
    {
        match self {
            Json::Object(members) => {
                let ghost ms = match self.model() {
                    JsonModel::Object(m) => m,
                    _ => Seq::empty(),
                };
                let mut i: usize = 0;
                while i < members.len()
                    invariant
                        i <= members.len(),
                        self.model() == JsonModel::Object(ms),
                        ms.len() == members@.len(),
                        forall|j: int|
                            0 <= j < members@.len() ==> #[trigger] ms[j] == (
                                members@[j].0@,
                                members@[j].1.model(),
                            ),
                        forall|j: int| 0 <= j < i ==> (#[trigger] ms[j]).0 != key@,
                    decreases members.len() - i,
                {
                    if same_text(members[i].0.as_str(), key) {
                        proof {
                            lemma_lookup_at(ms, key@, i as int);
                            assert(ms[i as int] == (members@[i as int].0@, members@[i as int].1.model()));
                            assert(ms[i as int].0 == key@);
                            assert(lookup(ms, key@) == Some(members@[i as int].1.model()));
                        }
                        return Some(&members[i].1);
                    }
                    assert(ms[i as int].0 != key@);
                    i = i + 1;
                }
                proof {
                    lemma_lookup_at(ms, key@, i as int);
                }
                None
            },
            _ => None,
        }
    }

    /// The text of a string value.
    pub fn as_str(&self) -> (r: Option<&String>)
        ensures
            match r {
                Some(s) => self.model().as_str() == Some(s@),
                None => self.model().as_str() is None,
            },
    {
        match self {
            Json::Str(s) => Some(s),
            _ => None,
        }
    }

    /// The value of an integer that fits in `i64`.
    pub fn as_i64(&self) -> (r: Option<i64>)
        ensures
            match r {
                Some(n) => self.model().as_i64() == Some(n as int),
                None => self.model().as_i64() is None,
            },
    {
        match self {
            Json::Int(n) => Some(*n),
            Json::UInt(n) => if *n <= 0x7fff_ffff_ffff_ffff {
                Some(*n as i64)
            } else {
                None
            },
            _ => None,
        }
    }

    /// A copy of `self` with the same model.
    pub fn deep_clone(&self) -> (c: Json)
        ensures
            c.model() == self.model(),
        decreases self,
    {
        match self {
            Json::Null => Json::Null,
            Json::Bool(b) => Json::Bool(*b),
            Json::Int(n) => Json::Int(*n),
            Json::UInt(n) => Json::UInt(*n),
            Json::Fraction(t) => Json::Fraction(t.clone()),
            Json::Str(s) => Json::Str(s.clone()),
            Json::Array(items) => {
                let mut out: Vec<Json> = Vec::new();
                let mut i: usize = 0;
                while i < items.len()
                    invariant
                        i <= items.len(),
                        *self is Array,
                        self->Array_0 == *items,
                        out@.len() == i,
                        forall|j: int| 0 <= j < i ==> (#[trigger] out@[j]).model() == items@[j].model(),
                    decreases items.len() - i,
                {
                    proof {
                        assert(decreases_to!(*self => items[i as int]));
                    }
                    let c = items[i].deep_clone();
                    out.push(c);
                    i = i + 1;
                }
                let r = Json::Array(out);
                assert(r.model()->Array_0 =~= self.model()->Array_0);
                r
            },
            Json::Object(members) => {
                let mut out: Vec<(String, Json)> = Vec::new();
                let mut i: usize = 0;
                while i < members.len()
                    invariant
                        i <= members.len(),
                        *self is Object,
                        self->Object_0 == *members,
                        out@.len() == i,
                        forall|j: int|
                            0 <= j < i ==> (#[trigger] out@[j]).0@ == members@[j].0@ && out@[j].1.model()
                                == members@[j].1.model(),
                    decreases members.len() - i,
                {
                    proof {
                        assert(decreases_to!(*self => members[i as int].1));
                    }
                    let c = members[i].1.deep_clone();
                    out.push((members[i].0.clone(), c));
                    i = i + 1;
                }
                let r = Json::Object(out);
                assert(r.model()->Object_0 =~= self.model()->Object_0);
                r
            },
        }
    }
}

} // verus!
