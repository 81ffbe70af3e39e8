//! A JSON document model for the messages exchanged with Elasticsearch.
//!
//! Numbers keep the three shapes a JSON reader gives them: a non-negative
//! integer, a negative integer, or any other number, which is kept as its
//! decimal text. Objects keep their members in order.

use vstd::prelude::*;

verus! {

/// A JSON number.
pub enum JsonNumber {
    /// An integer in `0..=u64::MAX`.
    PosInt(u64),
    /// A negative integer in `i64::MIN..0`.
    NegInt(i64),
    /// Any other number, kept as its decimal text.
    Float(String),
}

/// A JSON value.
pub enum Json {
    Null,
    Bool(bool),
    Number(JsonNumber),
    Str(String),
    Array(Vec<Json>),
    Object(Vec<(String, Json)>),
}

/// The mathematical value of a [`JsonNumber`].
pub enum NumberView {
    PosInt(u64),
    NegInt(i64),
    Float(Seq<char>),
}

/// The mathematical value of a [`Json`] document.
pub enum JsonView {
    Null,
    Bool(bool),
    Number(NumberView),
    Str(Seq<char>),
    Array(Seq<JsonView>),
    Object(Seq<(Seq<char>, JsonView)>),
}

impl JsonNumber {
    /// A copy of the number.
    pub fn copy(&self) -> (r: JsonNumber)
        ensures
            r.view() == self.view(),
    {
        match self {
            JsonNumber::PosInt(u) => JsonNumber::PosInt(*u),
            JsonNumber::NegInt(i) => JsonNumber::NegInt(*i),
            JsonNumber::Float(s) => JsonNumber::Float(s.clone()),
        }
    }

    pub open spec fn view(&self) -> NumberView {
        match self {
            JsonNumber::PosInt(u) => NumberView::PosInt(*u),
            JsonNumber::NegInt(i) => NumberView::NegInt(*i),
            JsonNumber::Float(s) => NumberView::Float(s@),
        }
    }
}

pub open spec fn view_items(items: Seq<Json>) -> Seq<JsonView>
    decreases items,
{
    if items.len() == 0 {
        Seq::empty()
    } else {
        seq![json_view(items[0])] + view_items(items.drop_first())
    }
}

pub open spec fn view_entries(entries: Seq<(String, Json)>) -> Seq<(Seq<char>, JsonView)>
    decreases entries,
{
    if entries.len() == 0 {
        Seq::empty()
    } else {
        seq![(entries[0].0@, json_view(entries[0].1))] + view_entries(entries.drop_first())
    }
}

/// The value of a document.
pub open spec fn json_view(j: Json) -> JsonView
    decreases j,
{
    match j {
        Json::Null => JsonView::Null,
        Json::Bool(b) => JsonView::Bool(b),
        Json::Number(n) => JsonView::Number(n.view()),
        Json::Str(s) => JsonView::Str(s@),
        Json::Array(items) => JsonView::Array(view_items(items@)),
        Json::Object(entries) => JsonView::Object(view_entries(entries@)),
    }
}

impl View for Json {
    type V = JsonView;

    open spec fn view(&self) -> JsonView {
        json_view(*self)
    }
}

pub proof fn lemma_view_items(items: Seq<Json>)
    ensures
        view_items(items).len() == items.len(),
        forall|i: int|
            0 <= i < items.len() ==> #[trigger] view_items(items)[i] == json_view(items[i]),
    decreases items.len(),
{
    if items.len() > 0 {
        lemma_view_items(items.drop_first());
        assert forall|i: int| 0 <= i < items.len() implies #[trigger] view_items(items)[i]
            == json_view(items[i]) by {
            if i > 0 {
                assert(items.drop_first()[i - 1] == items[i]);
            }
        }
    }
}

pub proof fn lemma_view_entries(entries: Seq<(String, Json)>)
    ensures
        view_entries(entries).len() == entries.len(),
        forall|i: int|
            0 <= i < entries.len() ==> #[trigger] view_entries(entries)[i] == (
                entries[i].0@,
                json_view(entries[i].1),
            ),
    decreases entries.len(),
{
    if entries.len() > 0 {
        lemma_view_entries(entries.drop_first());
        assert forall|i: int| 0 <= i < entries.len() implies #[trigger] view_entries(entries)[i]
            == (entries[i].0@, json_view(entries[i].1)) by {
            if i > 0 {
                assert(entries.drop_first()[i - 1] == entries[i]);
            }
        }
    }
}

/// The value of the first member named `key`.
pub open spec fn member(entries: Seq<(Seq<char>, JsonView)>, key: Seq<char>) -> Option<JsonView>
    decreases entries.len(),
{
    if entries.len() == 0 {
        None
    } else if entries[0].0 == key {
        Some(entries[0].1)
    } else {
        member(entries.drop_first(), key)
    }
}

impl JsonView {
    /// The member `key` of an object; nothing for any other value.
    pub open spec fn get(self, key: Seq<char>) -> Option<JsonView> {
        match self {
            JsonView::Object(entries) => member(entries, key),
            _ => None,
        }
    }

    /// The value as an unsigned integer, where it is one.
    pub open spec fn as_u64(self) -> Option<u64> {
        match self {
            JsonView::Number(NumberView::PosInt(u)) => Some(u),
            _ => None,
        }
    }

    /// The value as a signed integer, where it is one that fits.
    pub open spec fn as_i64(self) -> Option<i64> {
        match self {
            JsonView::Number(NumberView::PosInt(u)) => if u <= i64::MAX {
                Some(u as i64)
            } else {
                None
            },
            JsonView::Number(NumberView::NegInt(i)) => Some(i),
            _ => None,
        }
    }

    /// The number itself, where the value is a number.
    pub open spec fn as_number(self) -> Option<NumberView> {
        match self {
            JsonView::Number(n) => Some(n),
            _ => None,
        }
    }

    pub open spec fn as_str(self) -> Option<Seq<char>> {
        match self {
            JsonView::Str(s) => Some(s),
            _ => None,
        }
    }

    pub open spec fn as_array(self) -> Option<Seq<JsonView>> {
        match self {
            JsonView::Array(items) => Some(items),
            _ => None,
        }
    }

    /// Follows the member names of `path` from this value.
    pub open spec fn at_path(self, path: Seq<Seq<char>>) -> Option<JsonView>
        decreases path.len(),
    {
        if path.len() == 0 {
            Some(self)
        } else {
            match self.get(path[0]) {
                Some(next) => next.at_path(path.drop_first()),
                None => None,
            }
        }
    }
}

/// Whether two texts are equal.
pub fn text_eq(a: &String, b: &str) -> (r: bool)
    ensures
        r == (a@ == b@),
{
    let owned = b.to_owned();
    *a == owned
}

impl Json {
    /// The member `key` of an object, as `serde_json`'s `Value::get` gives it.
    pub fn get(&self, key: &str) -> (r: Option<&Json>)
        ensures
            match r {
                Some(v) => self@.get(key@) == Some(v@),
                None => self@.get(key@) is None,
            },
    {
        match self {
            Json::Object(entries) => {
                proof {
                    lemma_view_entries(entries@);
                }
                let ghost ve = view_entries(entries@);
                assert(ve.skip(0) =~= ve);
                assert(self@ == JsonView::Object(ve));
                let mut i: usize = 0;
                while i < entries.len()
                    invariant
                        0 <= i <= entries.len(),
                        ve == view_entries(entries@),
                        self@ == JsonView::Object(ve),
                        ve.len() == entries@.len(),
                        forall|k: int|
                            0 <= k < entries.len() ==> #[trigger] ve[k] == (
                                entries@[k].0@,
                                json_view(entries@[k].1),
                            ),
                        member(ve, key@) == member(ve.skip(i as int), key@),
                    decreases entries.len() - i,
                {
                    let (name, value) = &entries[i];
                    assert(ve.skip(i as int)[0] == ve[i as int]);
                    assert(ve.skip(i as int).drop_first() =~= ve.skip(i + 1));
                    if text_eq(name, key) {
                        assert(member(ve.skip(i as int), key@) == Some(json_view(*value)));
                        return Some(value);
                    }
                    i = i + 1;
                }
                assert(ve.skip(i as int).len() == 0);
                None
            },
            _ => None,
        }
    }

    pub fn as_u64(&self) -> (r: Option<u64>)
        ensures
            r == self@.as_u64(),
    {
        match self {
            Json::Number(JsonNumber::PosInt(u)) => Some(*u),
            _ => None,
        }
    }

    pub fn as_i64(&self) -> (r: Option<i64>)
        ensures
            r == self@.as_i64(),
    {
        match self {
            Json::Number(JsonNumber::PosInt(u)) => {
                if *u <= 9223372036854775807u64 {
                    Some(*u as i64)
                } else {
                    None
                }
            },
            Json::Number(JsonNumber::NegInt(i)) => Some(*i),
            _ => None,
        }
    }

    pub fn as_number(&self) -> (r: Option<&JsonNumber>)
        ensures
            match r {
                Some(n) => self@.as_number() == Some(n.view()),
                None => self@.as_number() is None,
            },
    {
        match self {
            Json::Number(n) => Some(n),
            _ => None,
        }
    }

    pub fn as_str(&self) -> (r: Option<&str>)
        ensures
            match r {
                Some(s) => self@.as_str() == Some(s@),
                None => self@.as_str() is None,
            },
    {
        match self {
            Json::Str(s) => Some(s.as_str()),
            _ => None,
        }
    }

    pub fn as_array(&self) -> (r: Option<&Vec<Json>>)
        ensures
            match r {
                Some(items) => self@.as_array() == Some(view_items(items@)),
                None => self@.as_array() is None,
            },
    {
        match self {
            Json::Array(items) => Some(items),
            _ => None,
        }
    }

    /// Follows the member names of `path`.
    pub fn at_path(&self, path: &[&str]) -> (r: Option<&Json>)
        ensures
            match r {
                Some(v) => self@.at_path(path@.map_values(|s: &str| s@)) == Some(v@),
                None => self@.at_path(path@.map_values(|s: &str| s@)) is None,
            },
    {
        let ghost names = path@.map_values(|s: &str| s@);
        let mut current = self;
        assert(names.skip(0) =~= names);
        let mut i: usize = 0;
        while i < path.len()
            invariant
                0 <= i <= path.len(),
                names == path@.map_values(|s: &str| s@),
                self@.at_path(names) == current@.at_path(names.skip(i as int)),
            decreases path.len() - i,
        {
            assert(names.skip(i as int)[0] == path@[i as int]@);
            assert(names.skip(i as int).drop_first() =~= names.skip(i + 1));
            match current.get(path[i]) {
                Some(next) => {
                    current = next;
                },
                None => {
                    return None;
                },
            }
            i = i + 1;
        }
        assert(names.skip(i as int) =~= Seq::<Seq<char>>::empty());
        Some(current)
    }
}

/// The value at `path`, read as an unsigned integer; zero where there is none.
pub open spec fn u64_at_or_zero(v: JsonView, path: Seq<Seq<char>>) -> u64 {
    match v.at_path(path) {
        Some(x) => match x.as_u64() {
            Some(u) => u,
            None => 0,
        },
        None => 0,
    }
}

/// The number at `path`, where there is one.
pub open spec fn number_at(v: JsonView, path: Seq<Seq<char>>) -> Option<NumberView> {
    match v.at_path(path) {
        Some(x) => x.as_number(),
        None => None,
    }
}

/// The text at `path`, or the empty text where there is none.
pub open spec fn str_at_or_empty(v: JsonView, path: Seq<Seq<char>>) -> Seq<char> {
    match v.at_path(path) {
        Some(x) => match x.as_str() {
            Some(s) => s,
            None => Seq::empty(),
        },
        None => Seq::empty(),
    }
}

/// The items of the array at `path`, or none where there is no array.
pub open spec fn items_at_or_empty(v: JsonView, path: Seq<Seq<char>>) -> Seq<JsonView> {
    match v.at_path(path) {
        Some(x) => match x.as_array() {
            Some(items) => items,
            None => Seq::empty(),
        },
        None => Seq::empty(),
    }
}

pub open spec fn obj1(k1: Seq<char>, v1: JsonView) -> JsonView {
    JsonView::Object(seq![(k1, v1)])
}

pub open spec fn obj2(k1: Seq<char>, v1: JsonView, k2: Seq<char>, v2: JsonView) -> JsonView {
    JsonView::Object(seq![(k1, v1), (k2, v2)])
}

pub open spec fn obj3(
    k1: Seq<char>,
    v1: JsonView,
    k2: Seq<char>,
    v2: JsonView,
    k3: Seq<char>,
    v3: JsonView,
) -> JsonView {
    JsonView::Object(seq![(k1, v1), (k2, v2), (k3, v3)])
}

pub open spec fn obj4(
    k1: Seq<char>,
    v1: JsonView,
    k2: Seq<char>,
    v2: JsonView,
    k3: Seq<char>,
    v3: JsonView,
    k4: Seq<char>,
    v4: JsonView,
) -> JsonView {
    JsonView::Object(seq![(k1, v1), (k2, v2), (k3, v3), (k4, v4)])
}

pub open spec fn uint(u: u64) -> JsonView {
    JsonView::Number(NumberView::PosInt(u))
}

/// A string value.
pub fn text(s: &str) -> (r: Json)
    ensures
        r@ == JsonView::Str(s@),
{
    Json::Str(s.to_owned())
}

/// An unsigned integer value.
pub fn unsigned(u: u64) -> (r: Json)
    ensures
        r@ == uint(u),
{
    Json::Number(JsonNumber::PosInt(u))
}

/// A number written with a fraction or an exponent.
pub fn fractional(s: &str) -> (r: Json)
    ensures
        r@ == JsonView::Number(NumberView::Float(s@)),
{
    Json::Number(JsonNumber::Float(s.to_owned()))
}

/// An array of the given items.
pub fn array(items: Vec<Json>) -> (r: Json)
    ensures
        r@ == JsonView::Array(items@.map_values(|j: Json| j@)),
{
    proof {
        lemma_view_items(items@);
        assert(view_items(items@) =~= items@.map_values(|j: Json| j@));
    }
    Json::Array(items)
}

/// An object with the given members, in order.
pub fn object(entries: Vec<(String, Json)>) -> (r: Json)
    ensures
        r@ == JsonView::Object(entries@.map_values(|e: (String, Json)| (e.0@, e.1@))),
{
    proof {
        lemma_view_entries(entries@);
        assert(view_entries(entries@) =~= entries@.map_values(|e: (String, Json)| (e.0@, e.1@)));
    }
    Json::Object(entries)
}

pub fn object1(k1: &str, v1: Json) -> (r: Json)
    ensures
        r@ == obj1(k1@, v1@),
{
    let entries = vec![(k1.to_owned(), v1)];
    let r = object(entries);
    assert(r@ == obj1(k1@, v1@)) by {
        assert(entries@.map_values(|e: (String, Json)| (e.0@, e.1@)) =~= seq![(k1@, v1@)]);
    }
    r
}

pub fn object2(k1: &str, v1: Json, k2: &str, v2: Json) -> (r: Json)
    ensures
        r@ == obj2(k1@, v1@, k2@, v2@),
{
    let entries = vec![(k1.to_owned(), v1), (k2.to_owned(), v2)];
    let r = object(entries);
    assert(r@ == obj2(k1@, v1@, k2@, v2@)) by {
        assert(entries@.map_values(|e: (String, Json)| (e.0@, e.1@)) =~= seq![
            (k1@, v1@),
            (k2@, v2@),
        ]);
    }
    r
}

pub fn object3(k1: &str, v1: Json, k2: &str, v2: Json, k3: &str, v3: Json) -> (r: Json)
    ensures
        r@ == obj3(k1@, v1@, k2@, v2@, k3@, v3@),
{
    let entries = vec![(k1.to_owned(), v1), (k2.to_owned(), v2), (k3.to_owned(), v3)];
    let r = object(entries);
    assert(r@ == obj3(k1@, v1@, k2@, v2@, k3@, v3@)) by {
        assert(entries@.map_values(|e: (String, Json)| (e.0@, e.1@)) =~= seq![
            (k1@, v1@),
            (k2@, v2@),
            (k3@, v3@),
        ]);
    }
    r
}

pub fn object4(
    k1: &str,
    v1: Json,
    k2: &str,
    v2: Json,
    k3: &str,
    v3: Json,
    k4: &str,
    v4: Json,
) -> (r: Json)
    ensures
        r@ == obj4(k1@, v1@, k2@, v2@, k3@, v3@, k4@, v4@),
{
    let entries = vec![
        (k1.to_owned(), v1),
        (k2.to_owned(), v2),
        (k3.to_owned(), v3),
        (k4.to_owned(), v4),
    ];
    let r = object(entries);
    assert(r@ == obj4(k1@, v1@, k2@, v2@, k3@, v3@, k4@, v4@)) by {
        assert(entries@.map_values(|e: (String, Json)| (e.0@, e.1@)) =~= seq![
            (k1@, v1@),
            (k2@, v2@),
            (k3@, v3@),
            (k4@, v4@),
        ]);
    }
    r
}

} // verus!
