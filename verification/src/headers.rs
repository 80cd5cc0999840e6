//! The headers that go along with a URL.
use crate::outside::header_entries;
use vstd::prelude::*;

verus! {

/// The text of a header value; empty where the value is no visible text.
pub open spec fn value_text(bytes: Seq<u8>) -> Seq<char> {
    if forall|i: int| 0 <= i < bytes.len() ==> crate::outside::visible(#[trigger] bytes[i]) {
        bytes.map_values(|b: u8| b as char)
    } else {
        seq![]
    }
}

/// The names and texts of the headers that a walk meets.
pub open spec fn header_texts(walk: Seq<(Seq<char>, Seq<u8>)>) -> Seq<(Seq<char>, Seq<char>)> {
    walk.map_values(|entry: (Seq<char>, Seq<u8>)| (entry.0, value_text(entry.1)))
}

/// The views of a list of names and texts.
pub open spec fn pairs(list: Seq<(String, String)>) -> Seq<(Seq<char>, Seq<char>)> {
    list.map_values(|pair: (String, String)| (pair.0@, pair.1@))
}

/// The text of a header value; empty where the value is no visible text.
pub fn value_or_empty(value: &http::HeaderValue) -> (r: String)
    ensures
        r@ == value_text(crate::outside::header_value_bytes(*value)),
{
    match value.to_str() {
        Ok(text) => text.to_owned(),
        Err(_) => String::new(),
    }
}

/// The headers as names and texts, in the order of a walk over them.
pub fn read_headers(headers: &http::HeaderMap) -> (r: Vec<(String, String)>)
    ensures
        pairs(r@) == header_texts(crate::outside::header_walk(*headers)),
{
    let entries = header_entries(headers);
    let ghost walk = crate::outside::header_walk(*headers);
    let mut out: Vec<(String, String)> = Vec::new();
    let mut i: usize = 0;
    while i < entries.len()
        invariant
            i <= entries@.len(),
            entries@.len() == walk.len(),
            forall|j: int|
                0 <= j < entries@.len() ==> (#[trigger] entries@[j]).0@ == walk[j].0
                    && crate::outside::header_value_bytes(entries@[j].1) == walk[j].1,
            out@.len() == i,
            forall|j: int|
                0 <= j < i ==> (#[trigger] out@[j]).0@ == walk[j].0 && out@[j].1@ == value_text(
                    walk[j].1,
                ),
        decreases entries@.len() - i,
    {
        let name = entries[i].0.clone();
        let value = value_or_empty(&entries[i].1);
        out.push((name, value));
        i = i + 1;
    }
    assert(pairs(out@) =~= header_texts(walk));
    out
}

} // verus!
