//! JSON text: values are carried as their compact JSON text, and the few
//! compositions this library makes (objects, arrays of strings) are built and
//! proved here on top of serde_json's string encoding.
use crate::string_map::StringMap;
use vstd::prelude::*;

verus! {

/// The JSON string literal that serde_json writes for `s`, quotes and escapes included.
pub uninterp spec fn json_string_text(s: Seq<char>) -> Seq<char>;

/// The string that serde_json reads from the JSON text `t`, when `t` is a JSON string.
pub uninterp spec fn json_string_decoded(t: Seq<char>) -> Option<Seq<char>>;

/// Relies on serde_json::to_string on a `str`: the JSON string literal of `s`
/// (serialising a string has no failing case).
#[verifier::external_body]
pub(crate) fn encode_string(s: &str) -> (r: String)
    ensures
        r@ == json_string_text(s@),
{
    serde_json::to_string(s).unwrap_or_default()
}

/// Relies on serde_json::from_str into a `String`: the string that the JSON text
/// `t` holds, or nothing when `t` is not a JSON string.
#[verifier::external_body]
pub(crate) fn decode_string(t: &str) -> (r: Option<String>)
    ensures
        match r {
            Some(s) => json_string_decoded(t@) == Some(s@),
            None => json_string_decoded(t@) is None,
        },
{
    serde_json::from_str::<String>(t).ok()
}

/// `parts` separated by commas.
pub open spec fn comma_joined(parts: Seq<Seq<char>>) -> Seq<char>
    decreases parts.len(),
{
    if parts.len() == 0 {
        Seq::empty()
    } else if parts.len() == 1 {
        parts[0]
    } else {
        comma_joined(parts.drop_last()) + seq![','] + parts.last()
    }
}

/// The member text `"key":value` of one object entry.
pub open spec fn member_text(kv: (Seq<char>, Seq<char>)) -> Seq<char> {
    json_string_text(kv.0) + seq![':'] + kv.1
}

/// The JSON object text whose members are `entries`, values being JSON text.
pub open spec fn object_text(entries: Seq<(Seq<char>, Seq<char>)>) -> Seq<char> {
    seq!['{'] + comma_joined(entries.map_values(|kv: (Seq<char>, Seq<char>)| member_text(kv)))
        + seq!['}']
}

/// The JSON array text whose elements are the JSON texts `items`.
pub open spec fn array_text(items: Seq<Seq<char>>) -> Seq<char> {
    seq!['['] + comma_joined(items) + seq![']']
}

/// The JSON array text of the strings `items`.
pub open spec fn string_array_text(items: Seq<Seq<char>>) -> Seq<char> {
    seq!['['] + comma_joined(items.map_values(|s: Seq<char>| json_string_text(s))) + seq![']']
}

/// The JSON object text of `entries` whose values are plain strings, each
/// written as a JSON string.
pub open spec fn string_object_text(entries: Seq<(Seq<char>, Seq<char>)>) -> Seq<char> {
    object_text(
        entries.map_values(
            |kv: (Seq<char>, Seq<char>)| (kv.0, json_string_text(kv.1)),
        ),
    )
}

proof fn lemma_comma_joined_step(parts: Seq<Seq<char>>, i: int)
    requires
        0 < i <= parts.len(),
    ensures
        comma_joined(parts.subrange(0, i)) == if i == 1 {
            parts[0]
        } else {
            comma_joined(parts.subrange(0, i - 1)) + seq![','] + parts[i - 1]
        },
{
    assert(parts.subrange(0, i).drop_last() =~= parts.subrange(0, i - 1));
}

/// Appends the text of `parts[i]` to a text that joins the first `i` parts.
fn push_joined(out: &mut String, part: &str, i: usize, parts: Ghost<Seq<Seq<char>>>)
    requires
        i < parts@.len(),
        part@ == parts@[i as int],
        old(out)@ == seq!['['] + comma_joined(parts@.subrange(0, i as int)) || old(out)@ == seq![
            '{',
        ] + comma_joined(parts@.subrange(0, i as int)),
    ensures
        old(out)@[0] == '[' ==> final(out)@ == seq!['['] + comma_joined(
            parts@.subrange(0, i + 1),
        ),
        old(out)@[0] == '{' ==> final(out)@ == seq!['{'] + comma_joined(
            parts@.subrange(0, i + 1),
        ),
{
    proof {
        lemma_comma_joined_step(parts@, i + 1);
    }
    if i > 0 {
        proof {
            reveal_strlit(",");
        }
        out.append(",");
    }
    out.append(part);
    proof {
        if i == 0 {
            assert(parts@.subrange(0, 0) =~= Seq::<Seq<char>>::empty());
        }
    }
    assert(old(out)@[0] == '[' ==> final(out)@ =~= seq!['['] + comma_joined(
        parts@.subrange(0, i + 1),
    ));
    assert(old(out)@[0] == '{' ==> final(out)@ =~= seq!['{'] + comma_joined(
        parts@.subrange(0, i + 1),
    ));
}

/// The JSON object text of `map`, whose values are JSON text.
pub fn object_of(map: &StringMap) -> (r: String)
    ensures
        r@ == object_text(map@),
{
    let ghost parts = map@.map_values(|kv: (Seq<char>, Seq<char>)| member_text(kv));
    proof {
        reveal_strlit("{");
    }
    let mut out = String::from_str("{");
    let mut i: usize = 0;
    assert(parts.subrange(0, 0) =~= Seq::<Seq<char>>::empty());
    while i < map.len()
        invariant
            i <= map@.len(),
            parts == map@.map_values(|kv: (Seq<char>, Seq<char>)| member_text(kv)),
            out@ == seq!['{'] + comma_joined(parts.subrange(0, i as int)),
        decreases map@.len() - i,
    {
        let (k, v) = map.entry_at(i);
        let mut member = encode_string(k.as_str());
        proof {
            reveal_strlit(":");
        }
        member.append(":");
        member.append(v.as_str());
        assert(member@ == parts[i as int]);
        push_joined(&mut out, member.as_str(), i, Ghost(parts));
        i = i + 1;
    }
    proof {
        reveal_strlit("}");
    }
    out.append("}");
    assert(parts.subrange(0, map@.len() as int) =~= parts);
    out
}

/// The JSON object text of `map`, whose values are plain strings.
pub fn string_object_of(map: &StringMap) -> (r: String)
    ensures
        r@ == string_object_text(map@),
{
    let ghost quoted = map@.map_values(
        |kv: (Seq<char>, Seq<char>)| (kv.0, json_string_text(kv.1)),
    );
    let ghost parts = quoted.map_values(|kv: (Seq<char>, Seq<char>)| member_text(kv));
    proof {
        reveal_strlit("{");
    }
    let mut out = String::from_str("{");
    let mut i: usize = 0;
    assert(parts.subrange(0, 0) =~= Seq::<Seq<char>>::empty());
    while i < map.len()
        invariant
            i <= map@.len(),
            quoted == map@.map_values(
                |kv: (Seq<char>, Seq<char>)| (kv.0, json_string_text(kv.1)),
            ),
            parts == quoted.map_values(|kv: (Seq<char>, Seq<char>)| member_text(kv)),
            out@ == seq!['{'] + comma_joined(parts.subrange(0, i as int)),
        decreases map@.len() - i,
    {
        let (k, v) = map.entry_at(i);
        let mut member = encode_string(k.as_str());
        proof {
            reveal_strlit(":");
        }
        member.append(":");
        let value = encode_string(v.as_str());
        member.append(value.as_str());
        assert(member@ == parts[i as int]);
        push_joined(&mut out, member.as_str(), i, Ghost(parts));
        i = i + 1;
    }
    proof {
        reveal_strlit("}");
    }
    out.append("}");
    assert(parts.subrange(0, map@.len() as int) =~= parts);
    out
}

/// The JSON array text whose elements are the JSON texts `items`.
pub fn array_of(items: &Vec<String>) -> (r: String)
    ensures
        r@ == array_text(items@.map_values(|s: String| s@)),
{
    let ghost parts = items@.map_values(|s: String| s@);
    proof {
        reveal_strlit("[");
    }
    let mut out = String::from_str("[");
    let mut i: usize = 0;
    assert(parts.subrange(0, 0) =~= Seq::<Seq<char>>::empty());
    while i < items.len()
        invariant
            i <= items@.len(),
            parts == items@.map_values(|s: String| s@),
            out@ == seq!['['] + comma_joined(parts.subrange(0, i as int)),
        decreases items@.len() - i,
    {
        push_joined(&mut out, items[i].as_str(), i, Ghost(parts));
        i = i + 1;
    }
    proof {
        reveal_strlit("]");
    }
    out.append("]");
    assert(parts.subrange(0, items@.len() as int) =~= parts);
    out
}

/// The JSON array text of `items`.
pub fn string_array_of(items: &Vec<String>) -> (r: String)
    ensures
        r@ == string_array_text(items@.map_values(|s: String| s@)),
{
    let ghost names = items@.map_values(|s: String| s@);
    let ghost parts = names.map_values(|s: Seq<char>| json_string_text(s));
    proof {
        reveal_strlit("[");
    }
    let mut out = String::from_str("[");
    let mut i: usize = 0;
    assert(parts.subrange(0, 0) =~= Seq::<Seq<char>>::empty());
    while i < items.len()
        invariant
            i <= items@.len(),
            names == items@.map_values(|s: String| s@),
            parts == names.map_values(|s: Seq<char>| json_string_text(s)),
            out@ == seq!['['] + comma_joined(parts.subrange(0, i as int)),
        decreases items@.len() - i,
    {
        let quoted = encode_string(items[i].as_str());
        push_joined(&mut out, quoted.as_str(), i, Ghost(parts));
        i = i + 1;
    }
    proof {
        reveal_strlit("]");
    }
    out.append("]");
    assert(parts.subrange(0, items@.len() as int) =~= parts);
    out
}

} // verus!
