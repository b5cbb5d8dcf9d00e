//! Loosely typed configuration values.
//!
//! User settings arrive as a tree of nulls, booleans, numbers, strings,
//! arrays and objects. The settings engine reads a few named members of a
//! few objects and carries every other value through untouched.

use vstd::prelude::*;
use vstd::string::*;

verus! {

/// A configuration value.
#[derive(Debug, PartialEq, Eq)]
pub enum Value {
    Null,
    Bool(bool),
    /// A number, held as its decimal text.
    Number(String),
    String(String),
    Array(Vec<Value>),
    /// The members of an object, in order. Where a key occurs more than
    /// once, the last member of that key is the one that counts.
    Object(Vec<(String, Value)>),
}

/// Mathematical content of a [`Value`].
pub enum ValueView {
    Null,
    Bool(bool),
    Number(Seq<char>),
    String(Seq<char>),
    Array(Seq<ValueView>),
    Object(Seq<(Seq<char>, ValueView)>),
}

/// Mathematical content of a value, member by member and item by item.
pub open spec fn value_view(value: Value) -> ValueView
    decreases value,
{
    match value {
        Value::Null => ValueView::Null,
        Value::Bool(b) => ValueView::Bool(b),
        Value::Number(text) => ValueView::Number(text@),
        Value::String(text) => ValueView::String(text@),
        Value::Array(items) => ValueView::Array(
            Seq::new(
                items.len() as nat,
                |i: int|
                    if 0 <= i < items.len() {
                        value_view(items[i])
                    } else {
                        ValueView::Null
                    },
            ),
        ),
        Value::Object(members) => ValueView::Object(
            Seq::new(
                members.len() as nat,
                |i: int|
                    if 0 <= i < members.len() {
                        (members[i].0@, value_view(members[i].1))
                    } else {
                        (Seq::empty(), ValueView::Null)
                    },
            ),
        ),
    }
}

impl View for Value {
    type V = ValueView;

    open spec fn view(&self) -> ValueView {
        value_view(*self)
    }
}

/// Mathematical content of the members of an object.
pub open spec fn members_view(members: Seq<(String, Value)>) -> Seq<(Seq<char>, ValueView)> {
    Seq::new(members.len(), |i: int| (members[i].0@, members[i].1@))
}

/// Mathematical content of the items of an array.
pub open spec fn items_view(items: Seq<Value>) -> Seq<ValueView> {
    Seq::new(items.len(), |i: int| items[i]@)
}

/// The view of an object is the view of its members.
pub proof fn lemma_object_view(members: Vec<(String, Value)>)
    ensures
        Value::Object(members)@ == ValueView::Object(members_view(members@)),
{
    assert(Value::Object(members)@->Object_0 =~= members_view(members@));
}

/// The view of an array is the view of its items.
pub proof fn lemma_array_view(items: Vec<Value>)
    ensures
        Value::Array(items)@ == ValueView::Array(items_view(items@)),
{
    assert(Value::Array(items)@->Array_0 =~= items_view(items@));
}

/// The value of the member `key`: that of the last member with this key.
#[verifier::opaque]
pub open spec fn spec_field(members: Seq<(Seq<char>, ValueView)>, key: Seq<char>) -> Option<
    ValueView,
>
    decreases members.len(),
{
    if members.len() == 0 {
        None
    } else if members.last().0 == key {
        Some(members.last().1)
    } else {
        spec_field(members.drop_last(), key)
    }
}

/// Members with another key at the end of an object do not change what a
/// lookup finds.
pub proof fn lemma_field_skip(members: Seq<(Seq<char>, ValueView)>, key: Seq<char>, n: int)
    requires
        0 <= n <= members.len(),
        forall|j: int| n <= j < members.len() ==> members[j].0 != key,
    ensures
        spec_field(members, key) == spec_field(members.subrange(0, n), key),
    decreases members.len() - n,
{
    reveal(spec_field);
    if n == members.len() {
        assert(members.subrange(0, n) =~= members);
    } else {
        let front = members.drop_last();
        lemma_field_skip(front, key, n);
        assert(front.subrange(0, n) =~= members.subrange(0, n));
    }
}

/// Removing a member with another key does not change what a lookup finds.
pub proof fn lemma_field_remove(members: Seq<(Seq<char>, ValueView)>, key: Seq<char>, i: int)
    requires
        0 <= i < members.len(),
        members[i].0 != key,
    ensures
        spec_field(members.remove(i), key) == spec_field(members, key),
    decreases members.len(),
{
    reveal(spec_field);
    let removed = members.remove(i);
    if i == members.len() - 1 {
        assert(removed =~= members.drop_last());
    } else {
        assert(removed.last() == members.last());
        if members.last().0 != key {
            lemma_field_remove(members.drop_last(), key, i);
            assert(removed.drop_last() =~= members.drop_last().remove(i));
        }
    }
}

/// Takes the member `key` out of an object: its value is returned, and what
/// the object holds under every other key stays as it was.
pub fn take_field(members: &mut Vec<(String, Value)>, key: &str) -> (value: Option<Value>)
    ensures
        (match value {
            Some(v) => Some(v@),
            None => None,
        }) == spec_field(members_view(old(members)@), key@),
        forall|other: Seq<char>|
            other != key@ ==> #[trigger] spec_field(members_view(final(members)@), other)
                == spec_field(members_view(old(members)@), other),
{
    let wanted = String::from_str(key);
    let ghost all = members_view(members@);
    let mut i: usize = members.len();
    while i > 0
        invariant
            i <= members.len(),
            wanted@ == key@,
            all == members_view(members@),
            *members == *old(members),
            forall|j: int| i <= j < members.len() ==> all[j].0 != key@,
        decreases i,
    {
        i -= 1;
        if members[i].0 == wanted {
            let member = members.remove(i);
            proof {
                reveal(spec_field);
                lemma_field_skip(all, key@, i + 1);
                assert(all.subrange(0, i + 1).last() == all[i as int]);
                assert(members_view(members@) =~= all.remove(i as int));
                assert forall|other: Seq<char>| other != key@ implies #[trigger] spec_field(
                    members_view(members@),
                    other,
                ) == spec_field(all, other) by {
                    lemma_field_remove(all, other, i as int);
                }
            }
            return Some(member.1);
        }
    }
    proof {
        reveal(spec_field);
        lemma_field_skip(all, key@, 0);
    }
    None
}

impl Value {
    /// A copy of the value, with all that is in it.
    pub fn duplicate(&self) -> (copy: Value)
        ensures
            copy@ == self@,
        decreases self,
    {
        match self {
            Value::Null => Value::Null,
            Value::Bool(flag) => Value::Bool(*flag),
            Value::Number(text) => Value::Number(text.clone()),
            Value::String(text) => Value::String(text.clone()),
            Value::Array(items) => {
                let mut copies: Vec<Value> = Vec::new();
                let mut i: usize = 0;
                while i < items.len()
                    invariant
                        i <= items.len(),
                        *self == Value::Array(*items),
                        copies.len() == i,
                        forall|j: int| 0 <= j < i ==> copies[j]@ == items[j]@,
                    decreases items.len() - i,
                {
                    proof {
                        vstd::std_specs::vec::axiom_vec_index_decreases(*items, i as int);
                        assert(decreases_to!(*self => self->Array_0));
                    }
                    copies.push(items[i].duplicate());
                    i += 1;
                }
                proof {
                    lemma_array_view(*items);
                    lemma_array_view(copies);
                    assert(items_view(copies@) =~= items_view(items@));
                }
                Value::Array(copies)
            },
            Value::Object(members) => {
                let mut copies: Vec<(String, Value)> = Vec::new();
                let mut i: usize = 0;
                while i < members.len()
                    invariant
                        i <= members.len(),
                        *self == Value::Object(*members),
                        copies.len() == i,
                        forall|j: int|
                            0 <= j < i ==> copies[j].0@ == members[j].0@ && copies[j].1@
                                == members[j].1@,
                    decreases members.len() - i,
                {
                    proof {
                        vstd::std_specs::vec::axiom_vec_index_decreases(*members, i as int);
                        assert(decreases_to!(*self => self->Object_0));
                    }
                    copies.push((members[i].0.clone(), members[i].1.duplicate()));
                    i += 1;
                }
                proof {
                    lemma_object_view(*members);
                    lemma_object_view(copies);
                    assert(members_view(copies@) =~= members_view(members@));
                }
                Value::Object(copies)
            },
        }
    }
}

impl Clone for Value {
    fn clone(&self) -> (copy: Value)
        ensures
            copy@ == self@,
    {
        self.duplicate()
    }
}

} // verus!
