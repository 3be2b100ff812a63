//! Compact JSON text of a payload.

use vstd::prelude::*;
use vstd::string::{StringExecFns, StringSliceAdditionalSpecFns};
use crate::ascii::{CLOSE_BRACE, CLOSE_BRACKET, COLON, COMMA, OPEN_BRACE, OPEN_BRACKET};
use crate::decimal::{decimal, push_decimal};
use crate::json::{json_string, quote_string};
use crate::number::{check_number_literal, is_number_literal};
use crate::payload::{Payload, PayloadView};

verus! {

/// The word that JSON has for a boolean.
pub open spec fn text_bool(flag: bool) -> Seq<u8> {
    if flag {
        "true".spec_bytes()
    } else {
        "false".spec_bytes()
    }
}

/// `second` after `first`, parted by a comma where `comma` holds; `None`
/// where either is missing.
pub open spec fn joined(first: Option<Seq<u8>>, comma: bool, second: Option<Seq<u8>>) -> Option<Seq<u8>> {
    match (first, second) {
        (Some(a), Some(b)) => Some(if comma { a + seq![COMMA] + b } else { a + b }),
        _ => None,
    }
}

/// `body` between the bytes `open` and `close`.
pub open spec fn enclosed(open: u8, body: Option<Seq<u8>>, close: u8) -> Option<Seq<u8>> {
    match body {
        Some(b) => Some(seq![open] + b + seq![close]),
        None => None,
    }
}

/// A member of an object: the key as a string literal, a colon, the value.
pub open spec fn keyed(key: Option<Seq<u8>>, value: Option<Seq<u8>>) -> Option<Seq<u8>> {
    match (key, value) {
        (Some(k), Some(v)) => Some(k + seq![COLON] + v),
        _ => None,
    }
}

/// The text of a number that is held as its literal: the literal itself,
/// if it is a JSON number.
pub open spec fn number_text(literal: Seq<char>) -> Option<Seq<u8>> {
    let text = vstd::utf8::encode_utf8(literal);
    if is_number_literal(text) {
        Some(text)
    } else {
        None
    }
}

/// The compact JSON text of a payload: no white space, members and items in
/// the order in which the payload holds them. `None` where a string in it
/// has no literal or a number in it is held as what is no JSON number.
pub open spec fn json_text(payload: PayloadView) -> Option<Seq<u8>>
    decreases payload, 0nat,
{
    match payload {
        PayloadView::Null => Some("null".spec_bytes()),
        PayloadView::Bool(flag) => Some(text_bool(flag)),
        PayloadView::Integer(i) => Some(decimal(i)),
        PayloadView::Number(literal) => number_text(literal),
        PayloadView::Text(text) => json_string(text),
        PayloadView::List(items) => enclosed(OPEN_BRACKET, items_text(items, items.len()), CLOSE_BRACKET),
        PayloadView::Object(members) => enclosed(OPEN_BRACE, members_text(members, members.len()), CLOSE_BRACE),
    }
}

/// The texts of the first `count` items, parted by commas.
pub open spec fn items_text(items: Seq<PayloadView>, count: nat) -> Option<Seq<u8>>
    decreases items, count,
{
    if count == 0 || count > items.len() {
        Some(Seq::empty())
    } else {
        joined(items_text(items, (count - 1) as nat), count > 1, json_text(items[count - 1]))
    }
}

/// The texts of the first `count` members, parted by commas.
pub open spec fn members_text(members: Seq<(Seq<char>, PayloadView)>, count: nat) -> Option<Seq<u8>>
    decreases members, count,
{
    if count == 0 || count > members.len() {
        Some(Seq::empty())
    } else {
        joined(
            members_text(members, (count - 1) as nat),
            count > 1,
            keyed(json_string(members[count - 1].0), json_text(members[count - 1].1)),
        )
    }
}

/// Once the first items have no text, no longer run of them has one.
proof fn lemma_items_text_missing(items: Seq<PayloadView>, short: nat, long: nat)
    requires
        short <= long <= items.len(),
        items_text(items, short).is_none(),
    ensures
        items_text(items, long).is_none(),
    decreases long,
{
    if short < long {
        lemma_items_text_missing(items, short, (long - 1) as nat);
    }
}

/// Once the first members have no text, no longer run of them has one.
proof fn lemma_members_text_missing(members: Seq<(Seq<char>, PayloadView)>, short: nat, long: nat)
    requires
        short <= long <= members.len(),
        members_text(members, short).is_none(),
    ensures
        members_text(members, long).is_none(),
    decreases long,
{
    if short < long {
        lemma_members_text_missing(members, short, (long - 1) as nat);
    }
}

/// Appends one member of an object to `out`: key, colon, value.
pub fn write_member(key: &str, value: &Payload, out: &mut Vec<u8>) -> (outcome: Result<(), String>)
    ensures
        match outcome {
            Ok(()) => keyed(json_string(key@), json_text(value@)) matches Some(text)
                && final(out)@ == old(out)@ + text,
            Err(_) => keyed(json_string(key@), json_text(value@)).is_none(),
        },
    decreases value, 1nat,
{
    match quote_string(key) {
        Ok(literal) => {
            out.extend_from_slice(literal.as_slice());
            out.push(COLON);
            write_json(value, out)
        },
        Err(message) => Err(message),
    }
}

/// The views of the items of a list.
pub open spec fn item_views(items: Seq<Payload>) -> Seq<PayloadView> {
    Seq::new(items.len(), |i: int| items[i]@)
}

/// The views of the members of an object.
pub open spec fn member_views(members: Seq<(String, Payload)>) -> Seq<(Seq<char>, PayloadView)> {
    Seq::new(members.len(), |i: int| (members[i].0@, members[i].1@))
}

/// Appends a list to `out`: its items between square brackets.
fn write_items(items: &Vec<Payload>, out: &mut Vec<u8>) -> (outcome: Result<(), String>)
    ensures
        match outcome {
            Ok(()) => enclosed(OPEN_BRACKET, items_text(item_views(items@), items@.len()), CLOSE_BRACKET) matches Some(
                text,
            )
                && final(out)@ == old(out)@ + text,
            Err(_) => items_text(item_views(items@), items@.len()).is_none(),
        },
    decreases items, 0nat,
{
    let ghost views = item_views(items@);
    out.push(OPEN_BRACKET);
    let mut i: usize = 0;
    while i < items.len()
        invariant
            i <= items@.len(),
            views == item_views(items@),
            items_text(views, i as nat) matches Some(body) && out@ == old(out)@ + seq![OPEN_BRACKET] + body,
        decreases items@.len() - i,
    {
        if i > 0 {
            out.push(COMMA);
        }
        if let Err(message) = write_json(&items[i], out) {
            proof {
                lemma_items_text_missing(views, (i + 1) as nat, views.len());
            }
            return Err(message);
        }
        i += 1;
    }
    out.push(CLOSE_BRACKET);
    Ok(())
}

/// Appends an object to `out`: its members between braces.
fn write_members(members: &Vec<(String, Payload)>, out: &mut Vec<u8>) -> (outcome: Result<(), String>)
    ensures
        match outcome {
            Ok(()) => enclosed(OPEN_BRACE, members_text(member_views(members@), members@.len()), CLOSE_BRACE) matches Some(
                text,
            )
                && final(out)@ == old(out)@ + text,
            Err(_) => members_text(member_views(members@), members@.len()).is_none(),
        },
    decreases members, 0nat,
{
    let ghost views = member_views(members@);
    out.push(OPEN_BRACE);
    let mut i: usize = 0;
    while i < members.len()
        invariant
            i <= members@.len(),
            views == member_views(members@),
            members_text(views, i as nat) matches Some(body) && out@ == old(out)@ + seq![OPEN_BRACE] + body,
        decreases members@.len() - i,
    {
        if i > 0 {
            out.push(COMMA);
        }
        if let Err(message) = write_member(members[i].0.as_str(), &members[i].1, out) {
            proof {
                lemma_members_text_missing(views, (i + 1) as nat, views.len());
            }
            return Err(message);
        }
        i += 1;
    }
    out.push(CLOSE_BRACE);
    Ok(())
}

/// Appends the compact JSON text of `payload` to `out`. Where the payload
/// has no text, the call fails with the reason in words, and what `out` then
/// holds is of no use.
pub fn write_json(payload: &Payload, out: &mut Vec<u8>) -> (outcome: Result<(), String>)
    ensures
        match outcome {
            Ok(()) => json_text(payload@) matches Some(text) && final(out)@ == old(out)@ + text,
            Err(_) => json_text(payload@).is_none(),
        },
    decreases payload, 0nat,
{
    match payload {
        Payload::Null => {
            out.extend_from_slice("null".as_bytes());
            Ok(())
        },
        Payload::Bool(flag) => {
            out.extend_from_slice(if *flag { "true".as_bytes() } else { "false".as_bytes() });
            Ok(())
        },
        Payload::Integer(i) => {
            push_decimal(out, *i);
            Ok(())
        },
        Payload::Number(literal) => {
            let text = literal.as_str().as_bytes();
            if check_number_literal(text) {
                out.extend_from_slice(text);
                Ok(())
            } else {
                Err(String::from_str("not a JSON number: ").concat(literal.as_str()))
            }
        },
        Payload::Text(text) => {
            match quote_string(text.as_str()) {
                Ok(literal) => {
                    out.extend_from_slice(literal.as_slice());
                    Ok(())
                },
                Err(message) => Err(message),
            }
        },
        Payload::List(items) => {
            assert(payload@->List_0 =~= item_views(items@));
            write_items(items, out)
        },
        Payload::Object(members) => {
            assert(payload@->Object_0 =~= member_views(members@));
            write_members(members, out)
        },
    }
}

} // verus!
