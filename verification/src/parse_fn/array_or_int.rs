//! A tag that holds one count, a list of counts, or a list of lists of counts.

use crate::json::JsonValue;
use crate::parse_fn::decimal::{digits_value, parse_digits};
use vstd::prelude::*;

verus! {

/// Why a value could not be read as counts.
#[derive(Debug, PartialEq, Eq, Clone, Copy)]
pub enum CountError {
    /// The value is neither a count nor a list.
    Shape,
    /// An item of the list is neither a number nor a list.
    Item,
    /// An item of the list is a number, but negative, fractional or too large.
    ItemRange,
    /// An item of an inner list is no number.
    InnerItem,
    /// An item of an inner list is a number, but negative, fractional or too
    /// large.
    InnerItemRange,
}

/// The count that a number stands for: one written in digits alone, and at
/// most `u64::MAX`.
pub open spec fn count_of(value: JsonValue) -> Option<nat> {
    match value {
        JsonValue::Number(text) => digits_value(text@, u64::MAX as nat),
        _ => None,
    }
}

/// The counts of an inner list, or the error of its first item that is none.
pub open spec fn inner_counts(items: Seq<JsonValue>) -> Result<Seq<nat>, CountError>
    decreases items.len(),
{
    if items.len() == 0 {
        Ok(Seq::empty())
    } else {
        match inner_counts(items.drop_last()) {
            Err(error) => Err(error),
            Ok(before) => match count_of(items.last()) {
                Some(count) => Ok(before.push(count)),
                None => if items.last() is Number {
                    Err(CountError::InnerItemRange)
                } else {
                    Err(CountError::InnerItem)
                },
            },
        }
    }
}

/// The counts of one item of a list: its own where it is a number, those of
/// its items where it is a list.
pub open spec fn item_counts(item: JsonValue) -> Result<Seq<nat>, CountError> {
    match item {
        JsonValue::Number(_) => match count_of(item) {
            Some(count) => Ok(seq![count]),
            None => Err(CountError::ItemRange),
        },
        JsonValue::Array(inner) => inner_counts(inner@),
        _ => Err(CountError::Item),
    }
}

/// The counts of a list, inner lists flattened, or the error of the first
/// item that has none.
pub open spec fn list_counts(items: Seq<JsonValue>) -> Result<Seq<nat>, CountError>
    decreases items.len(),
{
    if items.len() == 0 {
        Ok(Seq::empty())
    } else {
        match list_counts(items.drop_last()) {
            Err(error) => Err(error),
            Ok(before) => match item_counts(items.last()) {
                Ok(more) => Ok(before + more),
                Err(error) => Err(error),
            },
        }
    }
}

/// The counts of a value.
pub open spec fn counts_of(value: JsonValue) -> Result<Seq<nat>, CountError> {
    match value {
        JsonValue::Number(_) => match count_of(value) {
            Some(count) => Ok(seq![count]),
            None => Err(CountError::Shape),
        },
        JsonValue::Array(items) => list_counts(items@),
        _ => Err(CountError::Shape),
    }
}

/// The numbers of `counts` as natural numbers.
pub open spec fn naturals(counts: Seq<u64>) -> Seq<nat> {
    Seq::new(counts.len(), |i: int| counts[i] as nat)
}

fn count(value: &JsonValue) -> (found: Option<u64>)
    ensures
        found is Some <==> count_of(*value) is Some,
        found is Some ==> Some(found->Some_0 as nat) == count_of(*value),
{
    match value {
        JsonValue::Number(text) => parse_digits(text.as_str(), u64::MAX),
        _ => None,
    }
}

fn push_inner(out: &mut Vec<u64>, items: &Vec<JsonValue>) -> (done: Result<(), CountError>)
    ensures
        match inner_counts(items@) {
            Ok(more) => done is Ok && naturals(final(out)@) == naturals(old(out)@) + more,
            Err(error) => done == Err::<(), CountError>(error),
        },
{
    let mut i: usize = 0;
    assert(items@.take(0) =~= Seq::<JsonValue>::empty());
    assert(naturals(out@) + Seq::<nat>::empty() =~= naturals(out@));
    while i < items.len()
        invariant
            i <= items.len(),
            inner_counts(items@.take(i as int)) is Ok,
            naturals(out@) == naturals(old(out)@) + inner_counts(items@.take(i as int))->Ok_0,
        decreases items.len() - i,
    {
        proof {
            assert(items@.take(i + 1).drop_last() =~= items@.take(i as int));
            assert(items@.take(i + 1).last() == items@[i as int]);
        }
        let ghost before = out@;
        match count(&items[i]) {
            Some(found) => {
                out.push(found);
                assert(naturals(out@) =~= naturals(before).push(found as nat));
                assert(naturals(old(out)@) + inner_counts(items@.take(i as int))->Ok_0.push(
                    found as nat,
                ) =~= naturals(before).push(found as nat));
            },
            None => {
                proof {
                    lemma_inner_error_stays(items@, i + 1);
                }
                return Err(
                    match &items[i] {
                        JsonValue::Number(_) => CountError::InnerItemRange,
                        _ => CountError::InnerItem,
                    },
                );
            },
        }
        i += 1;
    }
    assert(items@.take(items@.len() as int) =~= items@);
    Ok(())
}

proof fn lemma_inner_error_stays(items: Seq<JsonValue>, upto: int)
    requires
        0 <= upto <= items.len(),
        inner_counts(items.take(upto)) is Err,
    ensures
        inner_counts(items) == inner_counts(items.take(upto)),
    decreases items.len() - upto,
{
    if upto < items.len() {
        assert(items.take(upto + 1).drop_last() =~= items.take(upto));
        lemma_inner_error_stays(items, upto + 1);
    } else {
        assert(items.take(upto) =~= items);
    }
}

proof fn lemma_list_error_stays(items: Seq<JsonValue>, upto: int)
    requires
        0 <= upto <= items.len(),
        list_counts(items.take(upto)) is Err,
    ensures
        list_counts(items) == list_counts(items.take(upto)),
    decreases items.len() - upto,
{
    if upto < items.len() {
        assert(items.take(upto + 1).drop_last() =~= items.take(upto));
        lemma_list_error_stays(items, upto + 1);
    } else {
        assert(items.take(upto) =~= items);
    }
}

/// Reads a value as counts: a number as one count, a list as the counts of
/// its items in order, with the items of inner lists in their place.
pub fn to_array(value: &JsonValue) -> (counts: Result<Option<Vec<u64>>, CountError>)
    ensures
        match counts_of(*value) {
            Ok(expected) => counts is Ok && counts->Ok_0 is Some && naturals(
                counts->Ok_0->Some_0@,
            ) == expected,
            Err(error) => counts == Err::<Option<Vec<u64>>, CountError>(error),
        },
{
    match value {
        JsonValue::Number(_) => match count(value) {
            Some(found) => {
                let mut out: Vec<u64> = Vec::new();
                out.push(found);
                assert(naturals(out@) =~= seq![found as nat]);
                Ok(Some(out))
            },
            None => Err(CountError::Shape),
        },
        JsonValue::Array(items) => {
            let mut out: Vec<u64> = Vec::new();
            let mut i: usize = 0;
            assert(items@.take(0) =~= Seq::<JsonValue>::empty());
            assert(naturals(out@) =~= Seq::<nat>::empty());
            while i < items.len()
                invariant
                    i <= items.len(),
                    *value is Array,
                    value->Array_0 == *items,
                    list_counts(items@.take(i as int)) is Ok,
                    naturals(out@) == list_counts(items@.take(i as int))->Ok_0,
                decreases items.len() - i,
            {
                proof {
                    assert(items@.take(i + 1).drop_last() =~= items@.take(i as int));
                    assert(items@.take(i + 1).last() == items@[i as int]);
                }
                let ghost before = out@;
                match &items[i] {
                    JsonValue::Number(_) => match count(&items[i]) {
                        Some(found) => {
                            out.push(found);
                            assert(naturals(out@) =~= naturals(before) + seq![found as nat]);
                        },
                        None => {
                            proof {
                                lemma_list_error_stays(items@, i + 1);
                            }
                            return Err(CountError::ItemRange);
                        },
                    },
                    JsonValue::Array(inner) => match push_inner(&mut out, inner) {
                        Ok(()) => {},
                        Err(error) => {
                            proof {
                                lemma_list_error_stays(items@, i + 1);
                            }
                            return Err(error);
                        },
                    },
                    _ => {
                        proof {
                            lemma_list_error_stays(items@, i + 1);
                        }
                        return Err(CountError::Item);
                    },
                }
                i += 1;
            }
            assert(items@.take(items@.len() as int) =~= items@);
            Ok(Some(out))
        },
        _ => Err(CountError::Shape),
    }
}

} // verus!
