//! The untyped payload that a message carries: a JSON value.

use vstd::prelude::*;

verus! {

/// A JSON value, as the bridge holds it.
#[derive(Debug)]
pub enum Payload {
    Null,
    Bool(bool),
    /// A number that fits a signed 64-bit integer.
    Integer(i64),
    /// Any other number, held in the notation of JSON.
    Number(String),
    Text(String),
    List(Vec<Payload>),
    /// The members of an object, each a key with its value.
    Object(Vec<(String, Payload)>),
}

/// What a [`Payload`] stands for, over mathematical sequences.
pub enum PayloadView {
    Null,
    Bool(bool),
    Integer(int),
    Number(Seq<char>),
    Text(Seq<char>),
    List(Seq<PayloadView>),
    Object(Seq<(Seq<char>, PayloadView)>),
}

impl View for Payload {
    type V = PayloadView;

    // An index outside a list or an object never matters. It is tested so
    // that each nested view is taken of a part of `self`.
    open spec fn view(&self) -> PayloadView
        decreases self,
    {
        match self {
            Payload::Null => PayloadView::Null,
            Payload::Bool(b) => PayloadView::Bool(*b),
            Payload::Integer(i) => PayloadView::Integer(*i as int),
            Payload::Number(literal) => PayloadView::Number(literal@),
            Payload::Text(s) => PayloadView::Text(s@),
            Payload::List(items) => PayloadView::List(
                Seq::new(items@.len(), |i: int| if 0 <= i < items@.len() { items@[i]@ } else { PayloadView::Null }),
            ),
            Payload::Object(members) => PayloadView::Object(
                Seq::new(
                    members@.len(),
                    |i: int| (members@[i].0@, if 0 <= i < members@.len() { members@[i].1@ } else { PayloadView::Null }),
                ),
            ),
        }
    }
}

impl PayloadView {
    /// The value under `key` if this is an object that has such a member.
    /// Where a key occurs more than once, the last occurrence counts.
    pub open spec fn member(self, key: Seq<char>) -> Option<PayloadView> {
        match self {
            PayloadView::Object(members) => last_member(members, key),
            _ => None,
        }
    }
}

/// The value of the last member of `members` whose key is `key`.
pub open spec fn last_member(members: Seq<(Seq<char>, PayloadView)>, key: Seq<char>) -> Option<PayloadView>
    decreases members.len(),
{
    if members.len() == 0 {
        None
    } else if members.last().0 == key {
        Some(members.last().1)
    } else {
        last_member(members.drop_last(), key)
    }
}

/// Whether two strings hold the same characters.
pub fn same_text(a: &str, b: &str) -> (same: bool)
    ensures
        same == (a@ == b@),
{
    let left = a.as_bytes();
    let right = b.as_bytes();
    proof {
        vstd::utf8::encode_utf8_decode_utf8(a@);
        vstd::utf8::encode_utf8_decode_utf8(b@);
    }
    if left.len() != right.len() {
        return false;
    }
    let mut i: usize = 0;
    while i < left.len()
        invariant
            i <= left@.len(),
            left@.len() == right@.len(),
            left@ == vstd::utf8::encode_utf8(a@),
            right@ == vstd::utf8::encode_utf8(b@),
            forall|j: int| 0 <= j < i ==> left@[j] == right@[j],
        decreases left@.len() - i,
    {
        if left[i] != right[i] {
            return false;
        }
        i += 1;
    }
    assert(left@ =~= right@);
    true
}

impl Payload {
    /// The string that this payload is, if it is one.
    pub fn as_text(&self) -> (text: Option<&str>)
        ensures
            match text {
                Some(s) => self@ == PayloadView::Text(s@),
                None => !(self@ is Text),
            },
    {
        match self {
            Payload::Text(s) => Some(s.as_str()),
            _ => None,
        }
    }

    /// The boolean that this payload is, if it is one.
    pub fn as_bool(&self) -> (flag: Option<bool>)
        ensures
            match flag {
                Some(b) => self@ == PayloadView::Bool(b),
                None => !(self@ is Bool),
            },
    {
        match self {
            Payload::Bool(b) => Some(*b),
            _ => None,
        }
    }

    /// The integer that this payload is, if it is a number in the signed
    /// 64-bit range.
    pub fn as_integer(&self) -> (number: Option<i64>)
        ensures
            match number {
                Some(i) => self@ == PayloadView::Integer(i as int),
                None => !(self@ is Integer),
            },
    {
        match self {
            Payload::Integer(i) => Some(*i),
            _ => None,
        }
    }

    /// Position of the member that `key` names, if this is an object that
    /// has one: the last such member.
    pub fn member_index(&self, key: &str) -> (found: Option<usize>)
        ensures
            match found {
                Some(index) => self@ matches PayloadView::Object(members) && index < members.len()
                    && members[index as int].0 == key@
                    && last_member(members, key@) == Some(members[index as int].1),
                None => self@.member(key@).is_none(),
            },
    {
        match self {
            Payload::Object(members) => {
                let ghost all = self@->Object_0;
                assert(all.subrange(0, members@.len() as int) =~= all);
                let mut i: usize = members.len();
                while i > 0
                    invariant
                        i <= members@.len(),
                        self@ == PayloadView::Object(all),
                        all.len() == members@.len(),
                        forall|j: int| 0 <= j < members@.len() ==> all[j] == (members@[j].0@, members@[j].1@),
                        last_member(all, key@) == last_member(all.subrange(0, i as int), key@),
                    decreases i,
                {
                    i -= 1;
                    let ghost prefix = all.subrange(0, i + 1);
                    assert(prefix.drop_last() =~= all.subrange(0, i as int));
                    if same_text(members[i].0.as_str(), key) {
                        return Some(i);
                    }
                }
                None
            },
            _ => None,
        }
    }

    /// Looks up `key` among the members of an object.
    pub fn member(&self, key: &str) -> (found: Option<&Payload>)
        ensures
            match found {
                Some(value) => self@.member(key@) == Some(value@),
                None => self@.member(key@).is_none(),
            },
    {
        match self.member_index(key) {
            Some(index) => match self {
                Payload::Object(members) => Some(&members[index].1),
                _ => None,
            },
            None => None,
        }
    }

    /// Whether the two payloads stand for the same JSON value.
    #[verifier::loop_isolation(false)]
    pub fn same_as(&self, other: &Payload) -> (same: bool)
        ensures
            same == (self@ == other@),
        decreases self,
    {
        match (self, other) {
            (Payload::Null, Payload::Null) => true,
            (Payload::Bool(a), Payload::Bool(b)) => *a == *b,
            (Payload::Integer(a), Payload::Integer(b)) => *a == *b,
            (Payload::Number(a), Payload::Number(b)) => same_text(a.as_str(), b.as_str()),
            (Payload::Text(a), Payload::Text(b)) => same_text(a.as_str(), b.as_str()),
            (Payload::List(a), Payload::List(b)) => {
                if a.len() != b.len() {
                    assert(self@->List_0.len() != other@->List_0.len());
                    return false;
                }
                let mut i: usize = 0;
                while i < a.len()
                    invariant
                        i <= a@.len(),
                        forall|j: int| 0 <= j < i ==> a@[j]@ == b@[j]@,
                    decreases a@.len() - i,
                {
                    if !a[i].same_as(&b[i]) {
                        assert(self@->List_0[i as int] != other@->List_0[i as int]);
                        return false;
                    }
                    i += 1;
                }
                assert(self@->List_0 =~= other@->List_0);
                true
            },
            (Payload::Object(a), Payload::Object(b)) => {
                if a.len() != b.len() {
                    assert(self@->Object_0.len() != other@->Object_0.len());
                    return false;
                }
                let mut i: usize = 0;
                while i < a.len()
                    invariant
                        i <= a@.len(),
                        forall|j: int| 0 <= j < i ==> a@[j].0@ == b@[j].0@ && a@[j].1@ == b@[j].1@,
                    decreases a@.len() - i,
                {
                    if !same_text(a[i].0.as_str(), b[i].0.as_str()) || !a[i].1.same_as(&b[i].1) {
                        assert(self@->Object_0[i as int] != other@->Object_0[i as int]);
                        return false;
                    }
                    i += 1;
                }
                assert(self@->Object_0 =~= other@->Object_0);
                true
            },
            _ => false,
        }
    }

    /// An independent copy of this payload.
    #[verifier::loop_isolation(false)]
    pub fn duplicate(&self) -> (copy: Payload)
        ensures
            copy@ == self@,
        decreases self,
    {
        match self {
            Payload::Null => Payload::Null,
            Payload::Bool(b) => Payload::Bool(*b),
            Payload::Integer(i) => Payload::Integer(*i),
            Payload::Number(literal) => Payload::Number(literal.clone()),
            Payload::Text(s) => Payload::Text(s.clone()),
            Payload::List(items) => {
                let mut copies: Vec<Payload> = Vec::new();
                let mut i: usize = 0;
                while i < items.len()
                    invariant
                        i <= items@.len(),
                        copies@.len() == i,
                        forall|j: int| 0 <= j < i ==> copies@[j]@ == items@[j]@,
                    decreases items@.len() - i,
                {
                    let item = items[i].duplicate();
                    copies.push(item);
                    i += 1;
                }
                let copy = Payload::List(copies);
                assert(copy@->List_0 =~= self@->List_0);
                copy
            },
            Payload::Object(members) => {
                let mut copies: Vec<(String, Payload)> = Vec::new();
                let mut i: usize = 0;
                while i < members.len()
                    invariant
                        i <= members@.len(),
                        copies@.len() == i,
                        forall|j: int| 0 <= j < i ==> copies@[j].0@ == members@[j].0@ && copies@[j].1@ == members@[j].1@,
                    decreases members@.len() - i,
                {
                    let value = members[i].1.duplicate();
                    copies.push((members[i].0.clone(), value));
                    i += 1;
                }
                let copy = Payload::Object(copies);
                assert(copy@->Object_0 =~= self@->Object_0);
                copy
            },
        }
    }
}

impl Clone for Payload {
    fn clone(&self) -> (copy: Self)
        ensures
            copy@ == self@,
    {
        self.duplicate()
    }
}

impl PartialEq for Payload {
    fn eq(&self, other: &Self) -> (same: bool) {
        self.same_as(other)
    }
}

impl vstd::std_specs::cmp::PartialEqSpecImpl for Payload {
    open spec fn obeys_eq_spec() -> bool {
        true
    }

    open spec fn eq_spec(&self, other: &Self) -> bool {
        self@ == other@
    }
}

} // verus!
