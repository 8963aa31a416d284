//! A tag that holds one text or a list of texts.

use crate::json::JsonValue;
use vstd::prelude::*;

verus! {

/// The value is neither missing, nor a text, nor a list of texts.
#[derive(Debug, PartialEq, Eq)]
pub struct NotTexts;

/// Every item is a text.
pub open spec fn all_texts(items: Seq<JsonValue>) -> bool {
    forall|i: int| 0 <= i < items.len() ==> #[trigger] items[i] is Text
}

/// The texts that the items hold, in order.
pub open spec fn item_texts(items: Seq<JsonValue>) -> Seq<Seq<char>> {
    Seq::new(items.len(), |i: int| items[i]->Text_0@)
}

/// The texts of a value: those of a list, a single text as a list of one,
/// none of a missing value.
pub open spec fn listed(value: JsonValue) -> Result<Option<Seq<Seq<char>>>, NotTexts> {
    match value {
        JsonValue::Null => Ok(None),
        JsonValue::Text(text) => Ok(Some(seq![text@])),
        JsonValue::Array(items) => if all_texts(items@) {
            Ok(Some(item_texts(items@)))
        } else {
            Err(NotTexts)
        },
        _ => Err(NotTexts),
    }
}

/// Reads a value as a list of texts.
pub fn string_list(value: JsonValue) -> (list: Result<Option<Vec<String>>, NotTexts>)
    ensures
        match listed(value) {
            Ok(None) => list is Ok && list->Ok_0 is None,
            Ok(Some(texts)) => list is Ok && list->Ok_0 is Some && crate::text::texts(
                list->Ok_0->Some_0@,
            ) == texts,
            Err(_) => list is Err,
        },
{
    match value {
        JsonValue::Null => Ok(None),
        JsonValue::Text(text) => {
            let mut list: Vec<String> = Vec::new();
            list.push(text);
            assert(crate::text::texts(list@) =~= seq![text@]);
            Ok(Some(list))
        },
        JsonValue::Array(items) => {
            let mut items = items;
            let mut list: Vec<String> = Vec::new();
            let ghost all = items@;
            while items.len() > 0
                invariant
                    value is Array,
                    value->Array_0@ == all,
                    items@.len() <= all.len(),
                    list@.len() + items@.len() == all.len(),
                    forall|j: int| 0 <= j < items@.len() ==> items@[j] == all[list@.len() + j],
                    forall|j: int|
                        0 <= j < list@.len() ==> #[trigger] all[j] is Text && all[j]->Text_0@
                            == list@[j]@,
                decreases items@.len(),
            {
                match items.remove(0) {
                    JsonValue::Text(text) => {
                        list.push(text);
                    },
                    _ => {
                        assert(!(all[list@.len() as int] is Text));
                        return Err(NotTexts);
                    },
                }
            }
            assert(crate::text::texts(list@) =~= item_texts(all));
            Ok(Some(list))
        },
        _ => Err(NotTexts),
    }
}

} // verus!
