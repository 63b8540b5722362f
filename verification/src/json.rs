//! JSON documents as the protocol carries them.
//!
//! `Json` is the tree that the message layer reads and builds. Its view,
//! `JsonView`, is the same tree over mathematical sequences, and every
//! contract of the crate that speaks of a document speaks of its view.

use vstd::prelude::*;

verus! {

/// `serde_json::Number`, of which nothing is known here but what `JsonNumber`
/// says of the one it holds.
#[verifier::external_type_specification]
#[verifier::external_body]
pub struct ExNumber(serde_json::Number);

/// `Clone` for `serde_json::Number` is derived over a `Copy` payload, so the
/// copy equals the number it was made from.
pub assume_specification[ <serde_json::Number as Clone>::clone ](
    n: &serde_json::Number,
) -> (r: serde_json::Number)
    ensures
        r == *n,
;

/// A JSON number. Integers are held as integers, because the protocol reads
/// them (request ids, error codes). Any other number is carried as the parser
/// produced it and handed back to the printer untouched.
#[derive(Debug, PartialEq)]
pub enum JsonNumber {
    /// An integer from 0 to `u64::MAX`.
    PosInt(u64),
    /// An integer below 0. Nothing keeps a value of 0 or more out of a number
    /// built by hand: such a number is taken for the integer it holds, is
    /// printed as that integer, and is read back as `PosInt`.
    NegInt(i64),
    /// A number that is not an integer in either range. The parser gives no
    /// other here; of one built by hand nothing is looked at.
    Float(serde_json::Number),
}

/// A JSON document.
///
/// An object keeps its members in the order in which they were written.
/// Where a name occurs more than once, the last occurrence is the member of
/// that name.
#[derive(Debug, PartialEq)]
pub enum Json {
    Null,
    Bool(bool),
    Number(JsonNumber),
    String(String),
    Array(Vec<Json>),
    Object(Vec<(String, Json)>),
}

/// The mathematical model of a JSON document.
pub enum JsonView {
    Null,
    Bool(bool),
    Number(JsonNumber),
    String(Seq<char>),
    Array(Seq<JsonView>),
    Object(Seq<(Seq<char>, JsonView)>),
}

impl View for Json {
    type V = JsonView;

    open spec fn view(&self) -> JsonView
        decreases self,
    {
        match self {
            Json::Null => JsonView::Null,
            Json::Bool(b) => JsonView::Bool(*b),
            Json::Number(n) => JsonView::Number(*n),
            Json::String(s) => JsonView::String(s@),
            Json::Array(items) => JsonView::Array(
                Seq::new(
                    items@.len(),
                    |i: int|
                        if 0 <= i < items@.len() {
                            items@[i]@
                        } else {
                            JsonView::Null
                        },
                ),
            ),
            Json::Object(members) => JsonView::Object(
                Seq::new(
                    members@.len(),
                    |i: int|
                        if 0 <= i < members@.len() {
                            (members@[i].0@, members@[i].1@)
                        } else {
                            (Seq::empty(), JsonView::Null)
                        },
                ),
            ),
        }
    }
}

/// The views of the items of an array, in order.
pub open spec fn items_view(items: Vec<Json>) -> Seq<JsonView> {
    Json::Array(items)@->Array_0
}

/// The views of the members of an object, in order.
pub open spec fn members_view(members: Vec<(String, Json)>) -> Seq<(Seq<char>, JsonView)> {
    Json::Object(members)@->Object_0
}

/// The view of an optional document.
pub open spec fn optional_view(doc: Option<Json>) -> Option<JsonView> {
    match doc {
        Some(d) => Some(d@),
        None => None,
    }
}

/// The position of `name` among `names`: that of its last occurrence, or
/// `None` where it does not occur.
pub open spec fn position(names: Seq<Seq<char>>, name: Seq<char>) -> Option<int>
    decreases names.len(),
{
    if names.len() == 0 {
        None
    } else if names.last() == name {
        Some(names.len() - 1)
    } else {
        position(names.drop_last(), name)
    }
}

/// The names of the members, in order.
pub open spec fn names_of(members: Seq<(Seq<char>, JsonView)>) -> Seq<Seq<char>> {
    members.map_values(|m: (Seq<char>, JsonView)| m.0)
}

/// The value of the member called `name`: that of its last occurrence among
/// `members`, or `None` where no member has that name.
pub open spec fn member(members: Seq<(Seq<char>, JsonView)>, name: Seq<char>) -> Option<JsonView> {
    match position(names_of(members), name) {
        Some(i) => Some(members[i].1),
        None => None,
    }
}

/// What a member stands for where `null` says "none", as it does for the
/// result of a response and the data of an error: a member that is missing
/// and a member that is `null` both stand for no value, any other member for
/// itself.
pub open spec fn nullable(m: Option<JsonView>) -> Option<JsonView> {
    match m {
        None => None,
        Some(JsonView::Null) => None,
        Some(v) => Some(v),
    }
}

impl JsonNumber {
    /// The number as a `u64`, where it is a non-negative integer.
    pub open spec fn spec_as_u64(&self) -> Option<u64> {
        match *self {
            JsonNumber::PosInt(n) => Some(n),
            JsonNumber::NegInt(i) => if i >= 0 {
                Some(i as u64)
            } else {
                None
            },
            JsonNumber::Float(_) => None,
        }
    }

    /// The number as an `i64`, where it is an integer in that range.
    pub open spec fn spec_as_i64(&self) -> Option<i64> {
        match *self {
            JsonNumber::PosInt(n) => if n <= i64::MAX as u64 {
                Some(n as i64)
            } else {
                None
            },
            JsonNumber::NegInt(i) => Some(i),
            JsonNumber::Float(_) => None,
        }
    }

    /// The number that stands for the integer `i`.
    pub open spec fn spec_from_i64(i: i64) -> JsonNumber {
        if i >= 0 {
            JsonNumber::PosInt(i as u64)
        } else {
            JsonNumber::NegInt(i)
        }
    }

    /// The number as a `u64`, where it is a non-negative integer.
    #[verifier::when_used_as_spec(spec_as_u64)]
    pub fn as_u64(&self) -> (r: Option<u64>)
        ensures
            r == self.spec_as_u64(),
    {
        match self {
            JsonNumber::PosInt(n) => Some(*n),
            JsonNumber::NegInt(i) => {
                if *i >= 0 {
                    Some(*i as u64)
                } else {
                    None
                }
            },
            JsonNumber::Float(_) => None,
        }
    }

    /// The number as an `i64`, where it is an integer in that range.
    #[verifier::when_used_as_spec(spec_as_i64)]
    pub fn as_i64(&self) -> (r: Option<i64>)
        ensures
            r == self.spec_as_i64(),
    {
        match self {
            JsonNumber::PosInt(n) => {
                if *n <= i64::MAX as u64 {
                    Some(*n as i64)
                } else {
                    None
                }
            },
            JsonNumber::NegInt(i) => Some(*i),
            JsonNumber::Float(_) => None,
        }
    }

    /// The number that stands for the integer `i`.
    #[verifier::when_used_as_spec(spec_from_i64)]
    pub fn from_i64(i: i64) -> (r: JsonNumber)
        ensures
            r == JsonNumber::spec_from_i64(i),
    {
        if i >= 0 {
            JsonNumber::PosInt(i as u64)
        } else {
            JsonNumber::NegInt(i)
        }
    }
}

impl Clone for JsonNumber {
    /// A copy: it equals the number it was made from.
    fn clone(&self) -> (r: JsonNumber)
        ensures
            r == *self,
    {
        match self {
            JsonNumber::PosInt(n) => JsonNumber::PosInt(*n),
            JsonNumber::NegInt(i) => JsonNumber::NegInt(*i),
            JsonNumber::Float(x) => JsonNumber::Float(x.clone()),
        }
    }
}

impl JsonView {
    /// The document as a `u64`, where it is a non-negative integer.
    pub open spec fn as_u64(self) -> Option<u64> {
        match self {
            JsonView::Number(n) => n.spec_as_u64(),
            _ => None,
        }
    }
}

impl Json {
    /// The document as a `u64`, where it is a non-negative integer.
    pub fn as_u64(&self) -> (r: Option<u64>)
        ensures
            r == self@.as_u64(),
    {
        match self {
            Json::Number(n) => n.as_u64(),
            _ => None,
        }
    }

    /// The document that holds the text `s`.
    pub fn string(s: &str) -> (r: Json)
        ensures
            r@ == JsonView::String(s@),
    {
        Json::String(s.to_owned())
    }

    /// The document that holds the integer `n`.
    pub fn unsigned(n: u64) -> (r: Json)
        ensures
            r@ == JsonView::Number(JsonNumber::PosInt(n)),
    {
        Json::Number(JsonNumber::PosInt(n))
    }
}

/// Copies the items of an array.
pub fn clone_items(items: &Vec<Json>) -> (r: Vec<Json>)
    ensures
        items_view(r) == items_view(*items),
    decreases items,
{
    let mut copy: Vec<Json> = Vec::new();
    let mut i: usize = 0;
    while i < items.len()
        invariant
            i <= items.len(),
            copy@.len() == i,
            forall|j: int| 0 <= j < i ==> copy@[j]@ == items@[j]@,
        decreases items.len() - i,
    {
        copy.push(items[i].clone());
        i += 1;
    }
    copy
}

/// Copies the members of an object.
pub fn clone_members(members: &Vec<(String, Json)>) -> (r: Vec<(String, Json)>)
    ensures
        members_view(r) == members_view(*members),
    decreases members,
{
    let mut copy: Vec<(String, Json)> = Vec::new();
    let mut i: usize = 0;
    while i < members.len()
        invariant
            i <= members.len(),
            copy@.len() == i,
            forall|j: int|
                0 <= j < i ==> copy@[j].0@ == members@[j].0@ && copy@[j].1@ == members@[j].1@,
        decreases members.len() - i,
    {
        let name = members[i].0.clone();
        let value = members[i].1.clone();
        copy.push((name, value));
        i += 1;
    }
    copy
}

impl Clone for Json {
    /// A deep copy: the copy has the view of the document it was made from.
    fn clone(&self) -> (r: Json)
        ensures
            r@ == self@,
        decreases self,
    {
        match self {
            Json::Null => Json::Null,
            Json::Bool(b) => Json::Bool(*b),
            Json::Number(n) => Json::Number(n.clone()),
            Json::String(s) => Json::String(s.clone()),
            Json::Array(items) => Json::Array(clone_items(items)),
            Json::Object(members) => Json::Object(clone_members(members)),
        }
    }
}

/// The position of a name is that of its last occurrence.
pub proof fn lemma_position(names: Seq<Seq<char>>, name: Seq<char>)
    ensures
        match position(names, name) {
            Some(i) => 0 <= i < names.len() && names[i] == name && forall|j: int|
                i < j < names.len() ==> names[j] != name,
            None => forall|j: int| 0 <= j < names.len() ==> names[j] != name,
        },
    decreases names.len(),
{
    if names.len() > 0 && names.last() != name {
        let front = names.drop_last();
        lemma_position(front, name);
        assert forall|j: int| 0 <= j < front.len() implies front[j] == names[j] by {}
        match position(front, name) {
            Some(i) => {
                assert forall|j: int| i < j < names.len() implies names[j] != name by {
                    if j < front.len() {
                        assert(front[j] == names[j]);
                    }
                }
            },
            None => {
                assert forall|j: int| 0 <= j < names.len() implies names[j] != name by {
                    if j < front.len() {
                        assert(front[j] == names[j]);
                    }
                }
            },
        }
    }
}

/// The position of the name of a member is that of the last member of that
/// name.
pub proof fn lemma_member_position(members: Seq<(Seq<char>, JsonView)>, name: Seq<char>)
    ensures
        match position(names_of(members), name) {
            Some(i) => 0 <= i < members.len() && members[i].0 == name && forall|j: int|
                i < j < members.len() ==> members[j].0 != name,
            None => forall|j: int| 0 <= j < members.len() ==> members[j].0 != name,
        },
{
    let names = names_of(members);
    lemma_position(names, name);
    match position(names, name) {
        Some(i) => {
            assert(names[i] == members[i].0);
            assert forall|j: int| i < j < members.len() implies members[j].0 != name by {
                assert(names[j] == members[j].0);
            }
        },
        None => {
            assert forall|j: int| 0 <= j < members.len() implies members[j].0 != name by {
                assert(names[j] == members[j].0);
            }
        },
    }
}

/// The member called `name` is the one at `i` when no later member has that
/// name.
pub proof fn lemma_member_at(members: Seq<(Seq<char>, JsonView)>, name: Seq<char>, i: int)
    requires
        0 <= i < members.len(),
        members[i].0 == name,
        forall|j: int| i < j < members.len() ==> members[j].0 != name,
    ensures
        position(names_of(members), name) == Some(i),
        member(members, name) == Some(members[i].1),
{
    lemma_member_position(members, name);
}

/// There is no member called `name` when no member has that name.
pub proof fn lemma_member_absent(members: Seq<(Seq<char>, JsonView)>, name: Seq<char>)
    requires
        forall|j: int| 0 <= j < members.len() ==> members[j].0 != name,
    ensures
        position(names_of(members), name) is None,
        member(members, name) is None,
{
    lemma_member_position(members, name);
}

/// Taking out a member leaves the members of every other name as they were.
pub proof fn lemma_member_remove(members: Seq<(Seq<char>, JsonView)>, i: int, other: Seq<char>)
    requires
        0 <= i < members.len(),
        members[i].0 != other,
    ensures
        member(members.remove(i), other) == member(members, other),
{
    let rest = members.remove(i);
    lemma_member_position(members, other);
    match position(names_of(members), other) {
        Some(k) => {
            let moved = if k < i {
                k
            } else {
                k - 1
            };
            assert(rest[moved] == members[k]);
            assert forall|j: int| moved < j < rest.len() implies rest[j].0 != other by {
                if j < i {
                    assert(rest[j] == members[j]);
                } else {
                    assert(rest[j] == members[j + 1]);
                }
            }
            lemma_member_at(rest, other, moved);
        },
        None => {
            assert forall|j: int| 0 <= j < rest.len() implies rest[j].0 != other by {
                if j < i {
                    assert(rest[j] == members[j]);
                } else {
                    assert(rest[j] == members[j + 1]);
                }
            }
            lemma_member_absent(rest, other);
        },
    }
}

/// Among the members of two lists, one after the other, the member called
/// `name` is that of the second list where it has one, else that of the
/// first.
pub proof fn lemma_member_concat(
    first: Seq<(Seq<char>, JsonView)>,
    second: Seq<(Seq<char>, JsonView)>,
    name: Seq<char>,
)
    ensures
        member(first + second, name) == (match member(second, name) {
            Some(v) => Some(v),
            None => member(first, name),
        }),
{
    let both = first + second;
    lemma_member_position(first, name);
    lemma_member_position(second, name);
    match position(names_of(second), name) {
        Some(k) => {
            assert(both[first.len() + k] == second[k]);
            assert forall|j: int| first.len() + k < j < both.len() implies both[j].0 != name by {
                assert(both[j] == second[j - first.len()]);
            }
            lemma_member_at(both, name, first.len() + k);
        },
        None => {
            match position(names_of(first), name) {
                Some(k) => {
                    assert(both[k] == first[k]);
                    assert forall|j: int| k < j < both.len() implies both[j].0 != name by {
                        if j < first.len() {
                            assert(both[j] == first[j]);
                        } else {
                            assert(both[j] == second[j - first.len()]);
                        }
                    }
                    lemma_member_at(both, name, k);
                },
                None => {
                    assert forall|j: int| 0 <= j < both.len() implies both[j].0 != name by {
                        if j < first.len() {
                            assert(both[j] == first[j]);
                        } else {
                            assert(both[j] == second[j - first.len()]);
                        }
                    }
                    lemma_member_absent(both, name);
                },
            }
        },
    }
}

/// A list of one member has that member and no other.
pub proof fn lemma_member_single(own: Seq<char>, value: JsonView, name: Seq<char>)
    ensures
        member(seq![(own, value)], name) == (if own == name {
            Some(value)
        } else {
            None
        }),
{
    let one = seq![(own, value)];
    if own == name {
        lemma_member_at(one, name, 0);
    } else {
        lemma_member_absent(one, name);
    }
}

/// The view of an object's members, member by member.
pub proof fn lemma_members_view(members: Vec<(String, Json)>)
    ensures
        members_view(members).len() == members@.len(),
        forall|j: int|
            0 <= j < members@.len() ==> #[trigger] members_view(members)[j] == (
                members@[j].0@,
                members@[j].1@,
            ),
{
    reveal_with_fuel(<Json as View>::view, 2);
}

/// Takes the member called `name` out of `members` and returns its value, or
/// returns `None` and leaves `members` alone where there is none. The members
/// of every other name stay what they were.
pub fn take_member(members: &mut Vec<(String, Json)>, name: &str) -> (r: Option<Json>)
    ensures
        optional_view(r) == member(members_view(*old(members)), name@),
        match position(names_of(members_view(*old(members))), name@) {
            Some(i) => members_view(*final(members)) == members_view(*old(members)).remove(i),
            None => *final(members) == *old(members),
        },
        forall|other: Seq<char>|
            other != name@ ==> member(members_view(*final(members)), other) == member(
                members_view(*old(members)),
                other,
            ),
{
    let key = name.to_owned();
    let mut i: usize = members.len();
    while i > 0
        invariant
            i <= members.len(),
            key@ == name@,
            *members == *old(members),
            forall|j: int| i <= j < members.len() ==> members@[j].0@ != name@,
        decreases i,
    {
        i -= 1;
        if members[i].0 == key {
            let ghost before = members_view(*members);
            proof {
                lemma_members_view(*members);
            }
            let found = members.remove(i);
            proof {
                lemma_members_view(*members);
                assert(members_view(*members) =~= before.remove(i as int));
                lemma_member_at(before, name@, i as int);
                assert forall|other: Seq<char>| other != name@ implies member(
                    members_view(*members),
                    other,
                ) == member(before, other) by {
                    lemma_member_remove(before, i as int, other);
                }
            }
            return Some(found.1);
        }
    }
    proof {
        lemma_members_view(*members);
        lemma_member_absent(members_view(*members), name@);
    }
    None
}

/// Adds the member `name` with `value` at the end of `members`.
pub fn push_member(members: &mut Vec<(String, Json)>, name: &str, value: Json)
    ensures
        members_view(*final(members)) == members_view(*old(members)).push((name@, value@)),
{
    proof {
        lemma_members_view(*members);
    }
    members.push((name.to_owned(), value));
    proof {
        lemma_members_view(*members);
    }
}

} // verus!
