//! JSON documents as trees.

use vstd::prelude::*;
use vstd::string::*;

verus! {

/// A JSON document held in memory.
#[derive(Debug, PartialEq, Eq)]
pub enum Json {
    Null,
    Bool(bool),
    /// An integer from 0 to 2^64 - 1.
    Unsigned(u64),
    /// Any other number: negative, fractional or too large. Its value is not
    /// kept.
    OtherNumber,
    Text(String),
    Array(Vec<Json>),
    /// The members of an object. Where a name occurs more than once, its
    /// first occurrence counts.
    Object(Vec<(String, Json)>),
}

/// What a `Json` stands for.
pub enum JsonValue {
    Null,
    Bool(bool),
    Unsigned(u64),
    OtherNumber,
    Text(Seq<char>),
    Array(Seq<JsonValue>),
    Object(Seq<(Seq<char>, JsonValue)>),
}

impl View for Json {
    type V = JsonValue;

    /// A scalar stands for itself, an array for the array of what its items
    /// stand for, an object for the object of what its members stand for.
    open spec fn view(&self) -> JsonValue
        decreases self,
    {
        match self {
            Json::Null => JsonValue::Null,
            Json::Bool(b) => JsonValue::Bool(*b),
            Json::Unsigned(n) => JsonValue::Unsigned(*n),
            Json::OtherNumber => JsonValue::OtherNumber,
            Json::Text(s) => JsonValue::Text(s@),
            Json::Array(items) => JsonValue::Array(
                Seq::new(
                    items@.len(),
                    |i: int| if 0 <= i < items@.len() { items@[i].view() } else { JsonValue::Null },
                ),
            ),
            Json::Object(members) => JsonValue::Object(
                Seq::new(
                    members@.len(),
                    |i: int| if 0 <= i < members@.len() {
                        (members@[i].0@, members@[i].1.view())
                    } else {
                        (Seq::empty(), JsonValue::Null)
                    },
                ),
            ),
        }
    }
}

/// The views of a list of documents, in order.
pub open spec fn views_of(items: Seq<Json>) -> Seq<JsonValue> {
    Seq::new(items.len(), |i: int| items[i]@)
}

/// The views of the members of an object, in order.
pub open spec fn member_views_of(members: Seq<(String, Json)>) -> Seq<(Seq<char>, JsonValue)> {
    Seq::new(members.len(), |i: int| (members[i].0@, members[i].1@))
}

/// The views of a list of strings, in order.
pub open spec fn texts_of(strings: Seq<String>) -> Seq<Seq<char>> {
    Seq::new(strings.len(), |i: int| strings[i]@)
}

/// The view of a string that may be absent.
pub open spec fn optional_text_of(text: Option<String>) -> Option<Seq<char>> {
    match text {
        Some(s) => Some(s@),
        None => None,
    }
}

/// An array stands for the array of what its items stand for.
pub proof fn lemma_array_view(json: Json)
    requires
        json is Array,
    ensures
        json@ == JsonValue::Array(views_of(json->Array_0@)),
{
    let items = json->Array_0;
    let below = views_of(items@);
    assert(forall|k: int| 0 <= k < items@.len() ==> (#[trigger] items@[k])@ == below[k]);
    assert(json@->Array_0 =~= below);
}

/// An object stands for the object of what its members stand for.
pub proof fn lemma_object_view(json: Json)
    requires
        json is Object,
    ensures
        json@ == JsonValue::Object(member_views_of(json->Object_0@)),
{
    let members = json->Object_0;
    let below = member_views_of(members@);
    assert(forall|k: int|
        0 <= k < members@.len() ==> ((#[trigger] members@[k]).0@, members@[k].1@) == below[k]);
    assert(json@->Object_0 =~= below);
}

/// The value of the first member called `key`.
pub open spec fn first_with_key(
    members: Seq<(Seq<char>, JsonValue)>,
    key: Seq<char>,
) -> Option<JsonValue>
    decreases members.len(),
{
    if members.len() == 0 {
        None
    } else if members[0].0 == key {
        Some(members[0].1)
    } else {
        first_with_key(members.drop_first(), key)
    }
}

impl JsonValue {
    /// The member `key` of an object; `None` for anything but an object that
    /// has such a member.
    pub open spec fn member(self, key: Seq<char>) -> Option<JsonValue> {
        match self {
            JsonValue::Object(members) => first_with_key(members, key),
            _ => None,
        }
    }

    /// The member `key`, where it is a string.
    pub open spec fn text(self, key: Seq<char>) -> Option<Seq<char>> {
        match self.member(key) {
            Some(JsonValue::Text(s)) => Some(s),
            _ => None,
        }
    }

    /// The member `key`, where it is `true` or `false`.
    pub open spec fn flag(self, key: Seq<char>) -> Option<bool> {
        match self.member(key) {
            Some(JsonValue::Bool(b)) => Some(b),
            _ => None,
        }
    }

    /// The member `key`, where it is an integer from 0 to 2^64 - 1.
    pub open spec fn unsigned(self, key: Seq<char>) -> Option<u64> {
        match self.member(key) {
            Some(JsonValue::Unsigned(n)) => Some(n),
            _ => None,
        }
    }

    /// The member `key`, where it is an integer from 0 to 2^32 - 1.
    pub open spec fn small_unsigned(self, key: Seq<char>) -> Option<u32> {
        match self.member(key) {
            Some(JsonValue::Unsigned(n)) => if n <= u32::MAX {
                Some(n as u32)
            } else {
                None
            },
            _ => None,
        }
    }

    /// The member `key` read as a string that may be left out: `Some(None)`
    /// where there is no such member or it is `null`, `Some(Some(..))` where
    /// it is a string, and `None` where it is anything else.
    pub open spec fn optional_text(self, key: Seq<char>) -> Option<Option<Seq<char>>> {
        match self.member(key) {
            None => Some(None),
            Some(JsonValue::Null) => Some(None),
            Some(JsonValue::Text(s)) => Some(Some(s)),
            _ => None,
        }
    }

    /// The items of the member `key`, where it is an array.
    pub open spec fn items(self, key: Seq<char>) -> Option<Seq<JsonValue>> {
        match self.member(key) {
            Some(JsonValue::Array(items)) => Some(items),
            _ => None,
        }
    }

    /// The member `key`, where it is an array of strings.
    pub open spec fn texts(self, key: Seq<char>) -> Option<Seq<Seq<char>>> {
        match self.items(key) {
            Some(items) => if forall|i: int| 0 <= i < items.len() ==> items[i] is Text {
                Some(Seq::new(items.len(), |i: int| items[i]->Text_0))
            } else {
                None
            },
            None => None,
        }
    }
}

impl Json {
    /// Looks up the member `key` of an object.
    pub fn get(&self, key: &str) -> (r: Option<&Json>)
        ensures
            match r {
                Some(found) => self@.member(key@) == Some(found@),
                None => self@.member(key@) is None,
            },
    {
        let members = match self {
            Json::Object(members) => members,
            _ => return None,
        };
        let wanted = String::from_str(key);
        let ghost all = self@->Object_0;
        let mut i: usize = 0;
        proof {
            lemma_object_view(*self);
        }
        assert(all.skip(0) =~= all);
        while i < members.len()
            invariant
                i <= members@.len(),
                wanted@ == key@,
                all == member_views_of(members@),
                self@.member(key@) == first_with_key(all, key@),
                first_with_key(all, key@) == first_with_key(all.skip(i as int), key@),
            decreases members@.len() - i,
        {
            proof {
                let rest = all.skip(i as int);
                assert(rest[0] == all[i as int]);
                assert(rest.drop_first() =~= all.skip(i + 1));
            }
            if members[i].0 == wanted {
                return Some(&members[i].1);
            }
            i += 1;
        }
        None
    }

    /// Reads the member `key` as a string.
    pub fn text(&self, key: &str) -> (r: Option<String>)
        ensures
            match r {
                Some(s) => self@.text(key@) == Some(s@),
                None => self@.text(key@) is None,
            },
    {
        match self.get(key) {
            Some(Json::Text(s)) => Some(s.clone()),
            _ => None,
        }
    }

    /// Reads the member `key` as `true` or `false`.
    pub fn flag(&self, key: &str) -> (r: Option<bool>)
        ensures
            r == self@.flag(key@),
    {
        match self.get(key) {
            Some(Json::Bool(b)) => Some(*b),
            _ => None,
        }
    }

    /// Reads the member `key` as an integer from 0 to 2^64 - 1.
    pub fn unsigned(&self, key: &str) -> (r: Option<u64>)
        ensures
            r == self@.unsigned(key@),
    {
        match self.get(key) {
            Some(Json::Unsigned(n)) => Some(*n),
            _ => None,
        }
    }

    /// Reads the member `key` as an integer from 0 to 2^32 - 1.
    pub fn small_unsigned(&self, key: &str) -> (r: Option<u32>)
        ensures
            r == self@.small_unsigned(key@),
    {
        match self.get(key) {
            Some(Json::Unsigned(n)) => if *n <= 0xffff_ffff {
                Some(*n as u32)
            } else {
                None
            },
            _ => None,
        }
    }

    /// Reads the member `key` as a string that may be left out or `null`.
    pub fn optional_text(&self, key: &str) -> (r: Option<Option<String>>)
        ensures
            match r {
                Some(text) => self@.optional_text(key@) == Some(optional_text_of(text)),
                None => self@.optional_text(key@) is None,
            },
    {
        match self.get(key) {
            None => Some(None),
            Some(Json::Null) => Some(None),
            Some(Json::Text(s)) => Some(Some(s.clone())),
            _ => None,
        }
    }

    /// Looks up the member `key` and hands out its items where it is an array.
    pub fn items(&self, key: &str) -> (r: Option<&Vec<Json>>)
        ensures
            match r {
                Some(items) => self@.items(key@) == Some(views_of(items@)),
                None => self@.items(key@) is None,
            },
    {
        match self.get(key) {
            Some(Json::Array(items)) => {
                proof {
                    lemma_array_view(Json::Array(*items));
                }
                Some(items)
            },
            _ => None,
        }
    }

    /// Reads the member `key` as an array of strings.
    pub fn texts(&self, key: &str) -> (r: Option<Vec<String>>)
        ensures
            match r {
                Some(strings) => self@.texts(key@) == Some(texts_of(strings@)),
                None => self@.texts(key@) is None,
            },
    {
        let items = match self.items(key) {
            Some(items) => items,
            None => return None,
        };
        let ghost below = views_of(items@);
        let mut out: Vec<String> = Vec::new();
        let mut i: usize = 0;
        while i < items.len()
            invariant
                i <= items@.len(),
                out@.len() == i,
                self@.items(key@) == Some(below),
                below == views_of(items@),
                forall|k: int| 0 <= k < i ==> #[trigger] below[k] == JsonValue::Text(out@[k]@),
            decreases items@.len() - i,
        {
            match &items[i] {
                Json::Text(s) => out.push(s.clone()),
                _ => {
                    assert(!(below[i as int] is Text));
                    return None;
                },
            }
            i += 1;
        }
        assert(self@.texts(key@).unwrap() =~= texts_of(out@));
        Some(out)
    }
}

} // verus!
