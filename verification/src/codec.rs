//! Shared pieces of the wire envelope codec: scalar readers, element-wise
//! decoding of arrays and objects, and the lemmas that characterise them.

use vstd::prelude::*;

use crate::json::{lemma_model_of_fields, model_of_fields, spec_obj_get, JsonValue, SpecJson};

verus! {

broadcast use {vstd::std_specs::vec::group_vec_axioms, vstd::seq::group_seq_axioms};

/// The view of an optional value.
pub open spec fn opt_view<T: View>(o: Option<T>) -> Option<T::V> {
    match o {
        Some(t) => Some(t@),
        None => None,
    }
}

/// Reads a JSON integer that fits the wire's signed 64-bit range.
pub open spec fn dec_i64(v: SpecJson) -> Option<i64> {
    match v {
        SpecJson::Int(i) => if i64::MIN <= i <= i64::MAX {
            Some(i as i64)
        } else {
            None
        },
        _ => None,
    }
}

/// Reads a JSON integer that fits a byte: the wire form of a flag set.
pub open spec fn dec_u8(v: SpecJson) -> Option<u8> {
    match v {
        SpecJson::Int(i) => if 0 <= i <= u8::MAX {
            Some(i as u8)
        } else {
            None
        },
        _ => None,
    }
}

pub open spec fn dec_bool(v: SpecJson) -> Option<bool> {
    match v {
        SpecJson::Bool(b) => Some(b),
        _ => None,
    }
}

pub open spec fn dec_str(v: SpecJson) -> Option<Seq<char>> {
    match v {
        SpecJson::Str(s) => Some(s),
        _ => None,
    }
}

/// Decodes every element of an array, in order; one failure fails the array.
pub open spec fn dec_all<A>(items: Seq<SpecJson>, dec: spec_fn(SpecJson) -> Option<A>) -> Option<
    Seq<A>,
>
    decreases items.len(),
{
    if items.len() == 0 {
        Some(Seq::empty())
    } else {
        match (dec_all(items.drop_last(), dec), dec(items.last())) {
            (Some(init), Some(a)) => Some(init.push(a)),
            _ => None,
        }
    }
}

/// What `dec_all` yields: success exactly when every element decodes, and then
/// the elementwise decodes, in order.
pub proof fn lemma_dec_all<A>(items: Seq<SpecJson>, dec: spec_fn(SpecJson) -> Option<A>)
    ensures
        dec_all(items, dec) is Some <==> (forall|i: int|
            0 <= i < items.len() ==> (#[trigger] dec(items[i])) is Some),
        dec_all(items, dec) matches Some(out) ==> out.len() == items.len() && (forall|i: int|
            0 <= i < items.len() ==> #[trigger] out[i] == dec(items[i])->Some_0),
    decreases items.len(),
{
    if items.len() > 0 {
        let init = items.drop_last();
        let n = items.len() - 1;
        lemma_dec_all(init, dec);
        assert(forall|i: int| 0 <= i < n ==> #[trigger] init[i] == items[i]);
        assert(items.last() == items[n]);
        if dec_all(items, dec) is Some {
            assert forall|i: int| 0 <= i < items.len() implies (#[trigger] dec(
                items[i],
            )) is Some by {
                if i < n {
                    assert(dec(init[i]) is Some);
                }
            }
        }
        if forall|i: int| 0 <= i < items.len() ==> (#[trigger] dec(items[i])) is Some {
            assert forall|i: int| 0 <= i < init.len() implies (#[trigger] dec(
                init[i],
            )) is Some by {
                assert(init[i] == items[i]);
                assert(dec(items[i]) is Some);
            }
            assert(dec_all(init, dec) is Some);
            assert(dec(items[n]) is Some);
        }
        if dec_all(items, dec) is Some {
            let out = dec_all(items, dec)->Some_0;
            let pre = dec_all(init, dec)->Some_0;
            assert(out == pre.push(dec(items.last())->Some_0));
            assert forall|i: int| 0 <= i < items.len() implies #[trigger] out[i] == dec(
                items[i],
            )->Some_0 by {
                if i < n {
                    assert(out[i] == pre[i]);
                    assert(pre[i] == dec(init[i])->Some_0);
                }
            }
        }
    }
}

/// Decodes every value of an object's field list, keeping each key.
pub open spec fn dec_entries<A>(
    fields: Seq<(Seq<char>, SpecJson)>,
    dec: spec_fn(SpecJson) -> Option<A>,
) -> Option<Seq<(Seq<char>, A)>>
    decreases fields.len(),
{
    if fields.len() == 0 {
        Some(Seq::empty())
    } else {
        match (dec_entries(fields.drop_last(), dec), dec(fields.last().1)) {
            (Some(init), Some(a)) => Some(init.push((fields.last().0, a))),
            _ => None,
        }
    }
}

pub proof fn lemma_dec_entries<A>(
    fields: Seq<(Seq<char>, SpecJson)>,
    dec: spec_fn(SpecJson) -> Option<A>,
)
    ensures
        dec_entries(fields, dec) is Some <==> (forall|i: int|
            0 <= i < fields.len() ==> (#[trigger] dec(fields[i].1)) is Some),
        dec_entries(fields, dec) matches Some(out) ==> out.len() == fields.len() && (forall|
            i: int,
        |
            0 <= i < fields.len() ==> #[trigger] out[i] == (
                fields[i].0,
                dec(fields[i].1)->Some_0,
            )),
    decreases fields.len(),
{
    if fields.len() > 0 {
        let init = fields.drop_last();
        let n = fields.len() - 1;
        lemma_dec_entries(init, dec);
        assert(forall|i: int| 0 <= i < n ==> #[trigger] init[i] == fields[i]);
        assert(fields.last() == fields[n]);
        if dec_entries(fields, dec) is Some {
            assert forall|i: int| 0 <= i < fields.len() implies (#[trigger] dec(
                fields[i].1,
            )) is Some by {
                if i < n {
                    assert(dec(init[i].1) is Some);
                }
            }
        }
        if forall|i: int| 0 <= i < fields.len() ==> (#[trigger] dec(fields[i].1)) is Some {
            assert forall|i: int| 0 <= i < init.len() implies (#[trigger] dec(
                init[i].1,
            )) is Some by {
                assert(init[i] == fields[i]);
                assert(dec(fields[i].1) is Some);
            }
            assert(dec_entries(init, dec) is Some);
            assert(dec(fields[n].1) is Some);
        }
        if dec_entries(fields, dec) is Some {
            let out = dec_entries(fields, dec)->Some_0;
            let pre = dec_entries(init, dec)->Some_0;
            assert(out == pre.push((fields.last().0, dec(fields.last().1)->Some_0)));
            assert forall|i: int| 0 <= i < fields.len() implies #[trigger] out[i] == (
                fields[i].0,
                dec(fields[i].1)->Some_0,
            ) by {
                if i < n {
                    assert(out[i] == pre[i]);
                    assert(pre[i] == (init[i].0, dec(init[i].1)->Some_0));
                }
            }
        }
    }
}


/// The wire form of a string-keyed map: each value encoded, keys kept.
pub open spec fn enc_entries<A>(s: Seq<(Seq<char>, A)>, enc: spec_fn(A) -> SpecJson) -> Seq<
    (Seq<char>, SpecJson),
> {
    s.map_values(|p: (Seq<char>, A)| (p.0, enc(p.1)))
}

/// Element-wise inversion lifts to arrays.
pub proof fn lemma_dec_enc_all<A>(
    s: Seq<A>,
    enc: spec_fn(A) -> SpecJson,
    dec: spec_fn(SpecJson) -> Option<A>,
)
    requires
        forall|i: int| 0 <= i < s.len() ==> #[trigger] dec(enc(s[i])) == Some(s[i]),
    ensures
        dec_all(s.map_values(enc), dec) == Some(s),
{
    let items = s.map_values(enc);
    lemma_dec_all(items, dec);
    assert(forall|i: int| 0 <= i < items.len() ==> (#[trigger] dec(items[i])) is Some) by {
        assert(forall|i: int| 0 <= i < items.len() ==> #[trigger] items[i] == enc(s[i]));
    }
    assert(dec_all(items, dec)->Some_0 =~= s) by {
        assert(forall|i: int| 0 <= i < items.len() ==> #[trigger] items[i] == enc(s[i]));
    }
}

/// Element-wise inversion lifts to string-keyed maps.
pub proof fn lemma_dec_enc_entries<A>(
    s: Seq<(Seq<char>, A)>,
    enc: spec_fn(A) -> SpecJson,
    dec: spec_fn(SpecJson) -> Option<A>,
)
    requires
        forall|i: int| 0 <= i < s.len() ==> #[trigger] dec(enc(s[i].1)) == Some(s[i].1),
    ensures
        dec_entries(enc_entries(s, enc), dec) == Some(s),
{
    let fields = enc_entries(s, enc);
    lemma_dec_entries(fields, dec);
    assert(forall|i: int| 0 <= i < fields.len() ==> (#[trigger] dec(fields[i].1)) is Some) by {
        assert(forall|i: int|
            0 <= i < fields.len() ==> #[trigger] fields[i] == (s[i].0, enc(s[i].1)));
    }
    assert(dec_entries(fields, dec)->Some_0 =~= s) by {
        assert(forall|i: int|
            0 <= i < fields.len() ==> #[trigger] fields[i] == (s[i].0, enc(s[i].1)));
    }
}

/// The lookup finds the first field carrying the key.
pub proof fn lemma_obj_get_at(m: Seq<(Seq<char>, SpecJson)>, key: Seq<char>, i: int)
    requires
        0 <= i < m.len(),
        m[i].0 == key,
        forall|j: int| 0 <= j < i ==> m[j].0 != key,
    ensures
        spec_obj_get(m, key) == Some(m[i].1),
    decreases i,
{
    if i > 0 {
        assert(m[0].0 != key);
        assert(forall|j: int|
            0 <= j < m.drop_first().len() ==> #[trigger] m.drop_first()[j] == m[j + 1]);
        lemma_obj_get_at(m.drop_first(), key, i - 1);
    }
}

/// The lookup fails when no field carries the key.
pub proof fn lemma_obj_get_none(m: Seq<(Seq<char>, SpecJson)>, key: Seq<char>)
    requires
        forall|j: int| 0 <= j < m.len() ==> m[j].0 != key,
    ensures
        spec_obj_get(m, key) is None,
    decreases m.len(),
{
    if m.len() > 0 {
        assert(forall|j: int|
            0 <= j < m.drop_first().len() ==> #[trigger] m.drop_first()[j] == m[j + 1]);
        lemma_obj_get_none(m.drop_first(), key);
    }
}

/// Looks a key up among an object's fields; the first match wins.
pub fn obj_get<'a>(fields: &'a Vec<(String, JsonValue)>, key: &str) -> (r: Option<&'a JsonValue>)
    ensures
        match r {
            Some(v) => spec_obj_get(model_of_fields(fields@), key@) == Some(v@),
            None => spec_obj_get(model_of_fields(fields@), key@) is None,
        },
{
    broadcast use lemma_model_of_fields;

    let k: String = key.to_owned();
    let ghost m = model_of_fields(fields@);
    proof {
        lemma_model_of_fields(fields@);
    }
    let mut i: usize = 0;
    while i < fields.len()
        invariant
            i <= fields.len(),
            k@ == key@,
            m == model_of_fields(fields@),
            forall|j: int| 0 <= j < i ==> m[j].0 != key@,
        decreases fields.len() - i,
    {
        proof {
            lemma_model_of_fields(fields@);
            assert(m[i as int] == (fields@[i as int].0@, crate::json::model_of(fields@[i as int].1)));
        }
        if fields[i].0 == k {
            proof {
                lemma_obj_get_at(m, key@, i as int);
            }
            return Some(&fields[i].1);
        }
        i = i + 1;
    }
    proof {
        lemma_obj_get_none(m, key@);
    }
    None
}

} // verus!
