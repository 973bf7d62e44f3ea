//! The currency feed: which currencies the collector asks quotes for, read
//! from the JSON list that the quote service publishes.

use vstd::prelude::*;

verus! {

/// A JSON document as far as the currency list reads it: an array, whose
/// items are kept as their text when they are strings, or anything else.
pub enum JsonDocument {
    Array(Vec<Option<String>>),
    Other,
}

/// A JSON document as a mathematical value.
pub enum JsonShape {
    Array(Seq<Option<Seq<char>>>),
    Other,
}

pub open spec fn item_view(o: Option<String>) -> Option<Seq<char>> {
    match o {
        Some(s) => Some(s@),
        None => None,
    }
}

pub open spec fn items_view(items: Seq<Option<String>>) -> Seq<Option<Seq<char>>> {
    items.map_values(|o: Option<String>| item_view(o))
}

pub open spec fn strings_view(v: Seq<String>) -> Seq<Seq<char>> {
    v.map_values(|s: String| s@)
}

impl JsonDocument {
    pub open spec fn shape(&self) -> JsonShape {
        match self {
            JsonDocument::Array(items) => JsonShape::Array(items_view(items@)),
            JsonDocument::Other => JsonShape::Other,
        }
    }
}

pub open spec fn document_shape(doc: Option<JsonDocument>) -> Option<JsonShape> {
    match doc {
        Some(d) => Some(d.shape()),
        None => None,
    }
}

/// What `serde_json` reads from `body` as a `serde_json::Value`: `None` when
/// `body` is not a JSON document, else whether it is an array and, for an
/// array, which items are strings and their text.
pub uninterp spec fn serde_json_shape(body: Seq<u8>) -> Option<JsonShape>;

/// `serde_json::from_slice::<serde_json::Value>`, with the value's variants
/// told apart and each array item read with `Value::as_str`. Claimed: the
/// result is the named shape `serde_json_shape` of the bytes.
#[verifier::external_body]
fn read_json_document(body: &[u8]) -> (res: Option<JsonDocument>)
    ensures
        document_shape(res) == serde_json_shape(body@),
{
    match serde_json::from_slice::<serde_json::Value>(body) {
        Ok(serde_json::Value::Array(items)) => Some(
            JsonDocument::Array(items.iter().map(|v| v.as_str().map(|s| s.to_string())).collect()),
        ),
        Ok(_) => Some(JsonDocument::Other),
        Err(_) => None,
    }
}

/// The strings among `items`, in order.
pub open spec fn strings_in(items: Seq<Option<Seq<char>>>) -> Seq<Seq<char>>
    decreases items.len(),
{
    if items.len() == 0 {
        Seq::empty()
    } else {
        match items.last() {
            Some(s) => strings_in(items.drop_last()).push(s),
            None => strings_in(items.drop_last()),
        }
    }
}

/// Whether a read array item is a string.
pub open spec fn is_string_item(o: Option<Seq<char>>) -> bool {
    o is Some
}

/// The text of a string item.
pub open spec fn item_text(o: Option<Seq<char>>) -> Seq<char> {
    o->Some_0
}

/// The strings of an array are exactly its string items, in order: keep the
/// items that are strings, then take their text.
pub proof fn lemma_strings_are_the_string_items(items: Seq<Option<Seq<char>>>)
    ensures
        strings_in(items) == items.filter(|o: Option<Seq<char>>| is_string_item(o)).map_values(
            |o: Option<Seq<char>>| item_text(o),
        ),
    decreases items.len(),
{
    reveal(Seq::filter);
    let pred = |o: Option<Seq<char>>| is_string_item(o);
    let text = |o: Option<Seq<char>>| item_text(o);
    if items.len() > 0 {
        lemma_strings_are_the_string_items(items.drop_last());
        let prefix = items.drop_last().filter(pred);
        assert(items.filter(pred) == (if pred(items.last()) { prefix.push(items.last()) } else { prefix }));
        if pred(items.last()) {
            assert(prefix.push(items.last()).map_values(text) =~= prefix.map_values(text).push(
                item_text(items.last()),
            ));
        }
    } else {
        assert(items.filter(pred) =~= Seq::<Option<Seq<char>>>::empty());
    }
    assert(strings_in(items) =~= items.filter(pred).map_values(text));
}

/// One more item: a string item adds its text at the end of the strings, any
/// other item adds nothing.
pub proof fn lemma_strings_one_more_item(items: Seq<Option<Seq<char>>>, item: Option<Seq<char>>)
    ensures
        item matches Some(x) ==> strings_in(items.push(item)) == strings_in(items).push(x),
        item is None ==> strings_in(items.push(item)) == strings_in(items),
{
    assert(items.push(item).drop_last() =~= items);
}

/// No string item is lost: the number of strings is the number of string
/// items, so an array of `n` strings lists `n` currencies.
pub proof fn lemma_strings_count(items: Seq<Option<Seq<char>>>)
    ensures
        strings_in(items).len() == items.filter(|o: Option<Seq<char>>| is_string_item(o)).len(),
        (forall|i: int| 0 <= i < items.len() ==> #[trigger] items[i] is Some) ==> strings_in(items).len()
            == items.len(),
    decreases items.len(),
{
    reveal(Seq::filter);
    lemma_strings_are_the_string_items(items);
    if items.len() > 0 {
        lemma_strings_count(items.drop_last());
        if forall|i: int| 0 <= i < items.len() ==> #[trigger] items[i] is Some {
            assert forall|i: int| 0 <= i < items.drop_last().len() implies #[trigger] items.drop_last()[i] is Some by {
                assert(items.drop_last()[i] == items[i]);
            }
            assert(items[items.len() - 1] is Some);
        }
    }
}

/// The currencies that a feed body names.
pub enum CurrencyList {
    /// The body is a JSON array: the currency codes are its string items.
    Listed(Vec<String>),
    /// The body is JSON but not an array: no currency is listed.
    NotAList,
    /// The body is not JSON.
    Unreadable,
}

/// The currency list as a mathematical value.
pub enum CurrencyListModel {
    Listed(Seq<Seq<char>>),
    NotAList,
    Unreadable,
}

impl CurrencyList {
    pub open spec fn model(&self) -> CurrencyListModel {
        match self {
            CurrencyList::Listed(v) => CurrencyListModel::Listed(strings_view(v@)),
            CurrencyList::NotAList => CurrencyListModel::NotAList,
            CurrencyList::Unreadable => CurrencyListModel::Unreadable,
        }
    }
}

/// What the currency list is for a read JSON document.
pub open spec fn currency_list_of(doc: Option<JsonShape>) -> CurrencyListModel {
    match doc {
        None => CurrencyListModel::Unreadable,
        Some(JsonShape::Array(items)) => CurrencyListModel::Listed(strings_in(items)),
        Some(JsonShape::Other) => CurrencyListModel::NotAList,
    }
}

/// The string items of `items`, in order.
fn string_items(items: &Vec<Option<String>>) -> (res: Vec<String>)
    ensures
        strings_view(res@) == strings_in(items_view(items@)),
{
    let mut out: Vec<String> = Vec::new();
    let mut i: usize = 0;
    while i < items.len()
        invariant
            i <= items.len(),
            strings_view(out@) == strings_in(items_view(items@).take(i as int)),
        decreases items.len() - i,
    {
        let ghost before = items_view(items@).take(i as int);
        let ghost after = items_view(items@).take(i + 1);
        assert(after.drop_last() =~= before);
        assert(after.last() == item_view(items@[i as int]));
        let ghost prev = out@;
        match &items[i] {
            Some(s) => {
                let t = s.clone();
                out.push(t);
                assert(out@ =~= prev.push(t));
                assert(strings_view(out@) =~= strings_view(prev).push(t@));
            },
            None => {},
        }
        i = i + 1;
    }
    assert(items_view(items@).take(items.len() as int) =~= items_view(items@));
    out
}

/// The currency list of a read JSON document: the string items of an array,
/// no list for any other document, and unreadable where there is no document.
pub fn currencies_from_document(doc: Option<JsonDocument>) -> (res: CurrencyList)
    ensures
        res.model() == currency_list_of(document_shape(doc)),
{
    match doc {
        None => CurrencyList::Unreadable,
        Some(JsonDocument::Array(items)) => CurrencyList::Listed(string_items(&items)),
        Some(JsonDocument::Other) => CurrencyList::NotAList,
    }
}

/// The currency list of the feed body `body`, read as JSON.
pub fn currencies_from_body(body: &[u8]) -> (res: CurrencyList)
    ensures
        res.model() == currency_list_of(serde_json_shape(body@)),
{
    currencies_from_document(read_json_document(body))
}

} // verus!
