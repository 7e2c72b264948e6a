//! The deterministic payload codec: order data and bulk-placement
//! responses to and from the opaque text payloads embedded in protocol
//! messages, with the decoder proved to invert the encoder.
use vstd::prelude::*;
use vstd::string::*;

use crate::digits::{
    canonical_digits, dec_digits, digit_val, digits_string, digits_value, is_digit_char,
    lemma_dec_digits_wf, lemma_digit_run_end, lemma_digits_prefix_le,
};
use crate::errors::ContractError;
use crate::strutil::{lit_at, match_lit_at};
use crate::types::{BulkOrderPlacementsResponse, Decimal, OrderData, PositionEffect, UnsuccessfulOrder};

verus! {

pub open spec fn od_pre() -> Seq<char> {
    "{\"leverage\":\""@
}

pub open spec fn od_mid() -> Seq<char> {
    "\",\"position_effect\":\""@
}

pub open spec fn od_suf() -> Seq<char> {
    "\"}"@
}

pub open spec fn effect_chars(e: PositionEffect) -> Seq<char> {
    match e {
        PositionEffect::Open => "Open"@,
        PositionEffect::Close => "Close"@,
    }
}

/// The one text the codec produces for `x`: encoding is deterministic.
pub open spec fn encode_order_data_spec(x: OrderData) -> Seq<char> {
    od_pre() + dec_digits(x.leverage.atomics as nat) + od_mid() + effect_chars(x.position_effect)
        + od_suf()
}

/// The strict parse of an order-data payload: `Some` exactly on texts the
/// encoder can produce.
pub open spec fn decode_order_data_spec(s: Seq<char>) -> Option<OrderData> {
    if !lit_at(s, 0, od_pre()) {
        None
    } else {
        let j = crate::digits::digit_run_end(s, od_pre().len() as int);
        let seg = s.subrange(od_pre().len() as int, j);
        if !(canonical_digits(seg) && digits_value(seg) <= u128::MAX) {
            None
        } else if !lit_at(s, j, od_mid()) {
            None
        } else {
            let k = j + od_mid().len();
            if lit_at(s, k, effect_chars(PositionEffect::Open)) {
                od_end(s, k + effect_chars(PositionEffect::Open).len(), digits_value(seg),
                    PositionEffect::Open)
            } else if lit_at(s, k, effect_chars(PositionEffect::Close)) {
                od_end(s, k + effect_chars(PositionEffect::Close).len(), digits_value(seg),
                    PositionEffect::Close)
            } else {
                None
            }
        }
    }
}

pub open spec fn od_end(s: Seq<char>, k: int, v: nat, e: PositionEffect) -> Option<OrderData> {
    if lit_at(s, k, od_suf()) && k + od_suf().len() == s.len() && v <= u128::MAX {
        Some(OrderData { leverage: Decimal { atomics: v as u128 }, position_effect: e })
    } else {
        None
    }
}

/// Serializes an order-data payload; total, and pinned to the encoding
/// the round-trip law speaks of.
pub fn encode_order_data(x: &OrderData) -> (r: String)
    ensures
        r@ == encode_order_data_spec(*x),
{
    let mut s = String::from_str("{\"leverage\":\"");
    let d = digits_string(x.leverage.atomics);
    s.append(d.as_str());
    s.append("\",\"position_effect\":\"");
    match x.position_effect {
        PositionEffect::Open => s.append("Open"),
        PositionEffect::Close => s.append("Close"),
    }
    s.append("\"}");
    proof {
        assert(s@ =~= encode_order_data_spec(*x));
    }
    s
}

/// Parses an order-data payload, strictly: exactly the decoder the
/// round-trip law speaks of.
#[verifier::loop_isolation(false)]
pub fn decode_order_data(s: &str) -> (r: Option<OrderData>)
    ensures
        r == decode_order_data_spec(s@),
{
    proof {
        reveal_strlit("{\"leverage\":\"");
        reveal_strlit("\",\"position_effect\":\"");
        reveal_strlit("Open");
        reveal_strlit("Close");
        reveal_strlit("\"}");
    }
    let n = s.unicode_len();
    if !match_lit_at(s, 0, "{\"leverage\":\"") {
        return None;
    }
    let mut j: usize = 13;
    let mut done = false;
    while !done
        invariant
            13 <= j <= n,
            n == s@.len(),
            forall|m: int| 13 <= m < j ==> is_digit_char(#[trigger] s@[m]),
            done ==> j == n || !is_digit_char(s@[j as int]),
        decreases n - j + (if done { 0int } else { 1int }),
    {
        if j < n {
            let c = s.get_char(j);
            if (c as u32) >= 48 && (c as u32) <= 57 {
                j += 1;
            } else {
                done = true;
            }
        } else {
            done = true;
        }
    }
    proof {
        lemma_digit_run_end(s@, 13, j as int);
    }
    let ghost seg = s@.subrange(13, j as int);
    if j == 13 {
        return None;
    }
    if j > 14 && s.get_char(13) == '0' {
        proof {
            assert(seg.len() > 1 && seg[0] == '0');
        }
        return None;
    }
    proof {
        assert(canonical_digits(seg));
    }
    let mut acc: u128 = 0;
    let mut k: usize = 13;
    while k < j
        invariant
            13 <= k <= j <= n,
            n == s@.len(),
            seg == s@.subrange(13, j as int),
            forall|m: int| 13 <= m < j ==> is_digit_char(#[trigger] s@[m]),
            acc == digits_value(s@.subrange(13, k as int)),
        decreases j - k,
    {
        let c = s.get_char(k);
        proof {
            assert(is_digit_char(s@[k as int]));
        }
        let d = ((c as u32) - 48) as u128;
        let ghost prefix_next = s@.subrange(13, k + 1int);
        proof {
            assert(prefix_next.drop_last() =~= s@.subrange(13, k as int));
            assert(prefix_next.last() == s@[k as int]);
            assert(digits_value(prefix_next) == acc * 10 + digit_val(s@[k as int]));
            assert(digit_val(s@[k as int]) == d as nat);
            assert(prefix_next =~= seg.subrange(0, k + 1 - 13));
            lemma_digits_prefix_le(seg, k + 1 - 13);
            vstd::arithmetic::div_mod::lemma_fundamental_div_mod((u128::MAX - d) as int, 10);
        }
        if acc > (u128::MAX - d) / 10 {
            proof {
                assert(acc * 10 + d > u128::MAX);
                assert(digits_value(seg) > u128::MAX);
            }
            return None;
        }
        proof {
            assert(acc * 10 + d <= u128::MAX);
        }
        acc = acc * 10 + d;
        k += 1;
    }
    proof {
        assert(s@.subrange(13, k as int) == seg);
        assert(digits_value(seg) == acc);
    }
    if !match_lit_at(s, j, "\",\"position_effect\":\"") {
        return None;
    }
    let k2 = j + 21;
    if match_lit_at(s, k2, "Open") {
        let k3 = k2 + 4;
        if match_lit_at(s, k3, "\"}") && n - k3 == 2 {
            return Some(
                OrderData { leverage: Decimal { atomics: acc }, position_effect: PositionEffect::Open },
            );
        } else {
            return None;
        }
    } else if match_lit_at(s, k2, "Close") {
        let k3 = k2 + 5;
        if match_lit_at(s, k3, "\"}") && n - k3 == 2 {
            return Some(
                OrderData {
                    leverage: Decimal { atomics: acc },
                    position_effect: PositionEffect::Close,
                },
            );
        } else {
            return None;
        }
    } else {
        return None;
    }
}

/// Round trip: decoding any encoded order-data payload gives the value
/// back, for every representable value.
pub proof fn lemma_order_data_round_trip(x: OrderData)
    ensures
        decode_order_data_spec(encode_order_data_spec(x)) == Some(x),
{
    reveal_strlit("{\"leverage\":\"");
    reveal_strlit("\",\"position_effect\":\"");
    reveal_strlit("Open");
    reveal_strlit("Close");
    reveal_strlit("\"}");
    let a = x.leverage.atomics as nat;
    let dd = dec_digits(a);
    lemma_dec_digits_wf(a);
    let s = encode_order_data_spec(x);
    let eff = effect_chars(x.position_effect);
    let el = eff.len() as int;
    assert(od_pre().len() == 13);
    assert(od_mid().len() == 21);
    assert(od_suf().len() == 2);
    let ll = dd.len() as int;
    assert(s.len() == 13 + ll + 21 + el + 2);
    assert(s.subrange(0, 13) =~= od_pre());
    assert(lit_at(s, 0, od_pre()));
    assert forall|m: int| 13 <= m < 13 + ll implies is_digit_char(#[trigger] s[m]) by {
        assert(s[m] == dd[m - 13]);
    }
    assert(s[13 + ll] == od_mid()[0]);
    assert(od_mid()[0] == '"');
    assert(!is_digit_char('"'));
    lemma_digit_run_end(s, 13, 13 + ll);
    let seg = s.subrange(13, 13 + ll);
    assert(seg =~= dd);
    assert(canonical_digits(seg));
    assert(digits_value(seg) == a);
    assert(s.subrange(13 + ll, 13 + ll + 21) =~= od_mid());
    assert(lit_at(s, 13 + ll, od_mid()));
    let k = 13 + ll + 21;
    assert(s.subrange(k, k + el) =~= eff);
    match x.position_effect {
        PositionEffect::Open => {
            assert(lit_at(s, k, effect_chars(PositionEffect::Open)));
            assert(s.subrange(k + 4, k + 4 + 2) =~= od_suf());
            assert(lit_at(s, k + 4, od_suf()));
            assert(k + 4 + 2 == s.len());
            assert(decode_order_data_spec(s) == Some(x));
        },
        PositionEffect::Close => {
            assert(effect_chars(PositionEffect::Open).len() == 4);
            assert(s.subrange(k, k + 4)[0] == 'C');
            assert(effect_chars(PositionEffect::Open)[0] == 'O');
            assert(!lit_at(s, k, effect_chars(PositionEffect::Open)));
            assert(lit_at(s, k, effect_chars(PositionEffect::Close)));
            assert(s.subrange(k + 5, k + 5 + 2) =~= od_suf());
            assert(lit_at(s, k + 5, od_suf()));
            assert(k + 5 + 2 == s.len());
            assert(decode_order_data_spec(s) == Some(x));
        },
    }
}

pub open spec fn bulk_pre() -> Seq<char> {
    "{\"unsuccessful_orders\":["@
}

pub open spec fn bulk_suf() -> Seq<char> {
    "]}"@
}

pub open spec fn item_pre() -> Seq<char> {
    "{\"id\":"@
}

pub open spec fn item_mid() -> Seq<char> {
    ",\"reason\":\""@
}

pub open spec fn item_suf() -> Seq<char> {
    "\"}"@
}

/// A character the codec can embed in a quoted reason without escaping.
pub open spec fn is_plain_char(c: char) -> bool {
    c != '"' && c != '\\' && c as u32 >= 32
}

pub open spec fn plain_chars(s: Seq<char>) -> bool {
    forall|i: int| 0 <= i < s.len() ==> is_plain_char(#[trigger] s[i])
}

/// What one rejection record holds, as plain values.
pub open spec fn item_view(o: UnsuccessfulOrder) -> (u64, Seq<char>) {
    (o.id, o.reason@)
}

pub open spec fn orders_view(v: Seq<UnsuccessfulOrder>) -> Seq<(u64, Seq<char>)> {
    v.map(|i: int, o: UnsuccessfulOrder| item_view(o))
}

/// What a bulk-placement response holds, as plain values.
pub open spec fn bulk_view(x: BulkOrderPlacementsResponse) -> Seq<(u64, Seq<char>)> {
    orders_view(x.unsuccessful_orders@)
}

/// The codec can represent a rejection list iff every reason is plain.
pub open spec fn encodable_bulk(items: Seq<(u64, Seq<char>)>) -> bool {
    forall|i: int| 0 <= i < items.len() ==> plain_chars(#[trigger] items[i].1)
}

pub open spec fn encode_item_spec(it: (u64, Seq<char>)) -> Seq<char> {
    item_pre() + dec_digits(it.0 as nat) + item_mid() + it.1 + item_suf()
}

pub open spec fn encode_items_spec(items: Seq<(u64, Seq<char>)>) -> Seq<char>
    decreases items.len(),
{
    if items.len() == 0 {
        Seq::empty()
    } else if items.len() == 1 {
        encode_item_spec(items[0])
    } else {
        encode_item_spec(items[0]) + seq![','] + encode_items_spec(items.drop_first())
    }
}

/// The one text the codec produces for a rejection list.
pub open spec fn encode_bulk_spec(items: Seq<(u64, Seq<char>)>) -> Seq<char> {
    bulk_pre() + encode_items_spec(items) + bulk_suf()
}

/// The index just past the run of plain characters starting at `i`.
pub open spec fn plain_run_end(s: Seq<char>, i: int) -> int
    decreases s.len() - i
        when 0 <= i <= s.len()
{
    if i == s.len() || !is_plain_char(s[i]) {
        i
    } else {
        plain_run_end(s, i + 1)
    }
}

pub proof fn lemma_plain_run_end(s: Seq<char>, i: int, j: int)
    requires
        0 <= i <= j <= s.len(),
        forall|m: int| i <= m < j ==> is_plain_char(#[trigger] s[m]),
        j == s.len() || !is_plain_char(s[j]),
    ensures
        plain_run_end(s, i) == j,
    decreases j - i,
{
    if i < j {
        assert(is_plain_char(s[i]));
        lemma_plain_run_end(s, i + 1, j);
    }
}

/// The strict parse of one rejection record starting at `i`.
pub open spec fn parse_item_spec(s: Seq<char>, i: int) -> Option<((u64, Seq<char>), int)> {
    if !lit_at(s, i, item_pre()) {
        None
    } else {
        let j = crate::digits::digit_run_end(s, i + item_pre().len());
        let seg = s.subrange(i + item_pre().len(), j);
        if !(canonical_digits(seg) && digits_value(seg) <= u64::MAX) {
            None
        } else if !lit_at(s, j, item_mid()) {
            None
        } else {
            let q = plain_run_end(s, j + item_mid().len());
            let reason = s.subrange(j + item_mid().len(), q);
            if lit_at(s, q, item_suf()) {
                Some(((digits_value(seg) as u64, reason), q + item_suf().len()))
            } else {
                None
            }
        }
    }
}

/// The strict parse of a comma-separated run of rejection records.
pub open spec fn parse_items_spec(s: Seq<char>, i: int, fuel: nat) -> Option<
    (Seq<(u64, Seq<char>)>, int),
>
    decreases fuel,
{
    if fuel == 0 {
        None
    } else {
        match parse_item_spec(s, i) {
            None => None,
            Some((it, j)) => if j < s.len() && s[j] == ',' {
                match parse_items_spec(s, j + 1, (fuel - 1) as nat) {
                    None => None,
                    Some((rest, k)) => Some((seq![it] + rest, k)),
                }
            } else {
                Some((seq![it], j))
            },
        }
    }
}

/// The strict parse of a bulk-placement payload: `Some` exactly on texts
/// the encoder can produce.
pub open spec fn decode_bulk_spec(s: Seq<char>) -> Option<Seq<(u64, Seq<char>)>> {
    if !lit_at(s, 0, bulk_pre()) {
        None
    } else if s.len() == bulk_pre().len() + bulk_suf().len() && lit_at(
        s,
        bulk_pre().len() as int,
        bulk_suf(),
    ) {
        Some(Seq::empty())
    } else {
        match parse_items_spec(s, bulk_pre().len() as int, s.len()) {
            None => None,
            Some((items, k)) => if lit_at(s, k, bulk_suf()) && k + bulk_suf().len() == s.len() {
                Some(items)
            } else {
                None
            },
        }
    }
}

/// Whether every character of `s` is plain.
fn plain_str(s: &str) -> (b: bool)
    ensures
        b == plain_chars(s@),
{
    let n = s.unicode_len();
    let mut k: usize = 0;
    while k < n
        invariant
            k <= n,
            n == s@.len(),
            forall|i: int| 0 <= i < k ==> is_plain_char(#[trigger] s@[i]),
        decreases n - k,
    {
        let c = s.get_char(k);
        if c == '"' || c == '\\' || (c as u32) < 32 {
            return false;
        }
        k += 1;
    }
    true
}

/// Serializes the rejection records of `v` from index `from` on, as the
/// comma-separated run inside a bulk payload.
fn encode_items(v: &Vec<UnsuccessfulOrder>, from: usize) -> (r: Result<String, ContractError>)
    requires
        from <= v@.len(),
    ensures
        (forall|m: int| from <= m < v@.len() ==> plain_chars(#[trigger] v@[m].reason@)) <==> r is Ok,
        r matches Ok(t) ==> t@ == encode_items_spec(orders_view(v@).skip(from as int)),
        r is Err ==> r == Err::<String, ContractError>(ContractError::SerializationFailure),
    decreases v@.len() - from,
{
    proof {
        reveal_strlit("{\"id\":");
        reveal_strlit(",\"reason\":\"");
        reveal_strlit("\"}");
        reveal_strlit(",");
    }
    if from == v.len() {
        proof {
            assert(orders_view(v@).skip(from as int) =~= Seq::<(u64, Seq<char>)>::empty());
        }
        return Ok(String::new());
    }
    let o = &v[from];
    if !plain_str(o.reason.as_str()) {
        return Err(ContractError::SerializationFailure);
    }
    let mut t = String::from_str("{\"id\":");
    let d = crate::digits::digits_string_u64(o.id);
    t.append(d.as_str());
    t.append(",\"reason\":\"");
    t.append(o.reason.as_str());
    t.append("\"}");
    proof {
        assert(t@ =~= encode_item_spec(item_view(v@[from as int])));
    }
    if from + 1 < v.len() {
        t.append(",");
    }
    match encode_items(v, from + 1) {
        Ok(rest) => {
            t.append(rest.as_str());
            proof {
                let items = orders_view(v@).skip(from as int);
                assert(items[0] == item_view(v@[from as int]));
                if from + 1 == v@.len() {
                    assert(items.len() == 1);
                    assert(t@ =~= encode_items_spec(items));
                } else {
                    assert(items.len() >= 2);
                    assert(items.drop_first() =~= orders_view(v@).skip(from + 1int));
                    assert(t@ =~= encode_item_spec(items[0]) + seq![','] + encode_items_spec(
                        items.drop_first(),
                    ));
                    assert(t@ =~= encode_items_spec(items));
                }
            }
            Ok(t)
        },
        Err(e) => Err(e),
    }
}

/// Serializes a bulk-placement response; fails with `SerializationFailure`
/// exactly when some rejection reason is not representable.
pub fn encode_bulk_response(x: &BulkOrderPlacementsResponse) -> (r: Result<String, ContractError>)
    ensures
        encodable_bulk(bulk_view(*x)) <==> r is Ok,
        r matches Ok(t) ==> t@ == encode_bulk_spec(bulk_view(*x)),
        r is Err ==> r == Err::<String, ContractError>(ContractError::SerializationFailure),
{
    let mut t = String::from_str("{\"unsuccessful_orders\":[");
    match encode_items(&x.unsuccessful_orders, 0) {
        Ok(b) => {
            t.append(b.as_str());
            t.append("]}");
            proof {
                assert(orders_view(x.unsuccessful_orders@).skip(0) =~= bulk_view(*x));
                assert(t@ =~= encode_bulk_spec(bulk_view(*x)));
                assert forall|i: int| 0 <= i < bulk_view(*x).len() implies plain_chars(
                    #[trigger] bulk_view(*x)[i].1,
                ) by {
                    assert(bulk_view(*x)[i].1 == x.unsuccessful_orders@[i].reason@);
                }
            }
            Ok(t)
        },
        Err(e) => {
            proof {
                let w = choose|m: int|
                    0 <= m < x.unsuccessful_orders@.len() && !plain_chars(
                        x.unsuccessful_orders@[m].reason@,
                    );
                assert(bulk_view(*x)[w].1 == x.unsuccessful_orders@[w].reason@);
            }
            Err(e)
        },
    }
}

/// Reads the digit run `[from, to)` as a number, or reports that it
/// exceeds `u64::MAX`.
#[verifier::loop_isolation(false)]
fn parse_u64_digits(s: &str, from: usize, to: usize) -> (r: Option<u64>)
    requires
        from < to <= s@.len(),
        forall|m: int| from <= m < to ==> is_digit_char(#[trigger] s@[m]),
    ensures
        r matches Some(v) ==> v as nat == digits_value(s@.subrange(from as int, to as int)),
        r is None ==> digits_value(s@.subrange(from as int, to as int)) > u64::MAX,
{
    let ghost seg = s@.subrange(from as int, to as int);
    let mut acc: u64 = 0;
    let mut k: usize = from;
    while k < to
        invariant
            from <= k <= to,
            acc == digits_value(s@.subrange(from as int, k as int)),
        decreases to - k,
    {
        let c = s.get_char(k);
        proof {
            assert(is_digit_char(s@[k as int]));
        }
        let d = ((c as u32) - 48) as u64;
        let ghost prefix_next = s@.subrange(from as int, k + 1int);
        proof {
            assert(prefix_next.drop_last() =~= s@.subrange(from as int, k as int));
            assert(prefix_next.last() == s@[k as int]);
            assert(digits_value(prefix_next) == acc * 10 + digit_val(s@[k as int]));
            assert(digit_val(s@[k as int]) == d as nat);
            assert(prefix_next =~= seg.subrange(0, k + 1 - from));
            lemma_digits_prefix_le(seg, k + 1 - from);
            vstd::arithmetic::div_mod::lemma_fundamental_div_mod((u64::MAX - d) as int, 10);
        }
        if acc > (u64::MAX - d) / 10 {
            proof {
                assert(acc * 10 + d > u64::MAX);
                assert(digits_value(seg) > u64::MAX);
            }
            return None;
        }
        proof {
            assert(acc * 10 + d <= u64::MAX);
        }
        acc = acc * 10 + d;
        k += 1;
    }
    proof {
        assert(s@.subrange(from as int, k as int) == seg);
    }
    Some(acc)
}

/// Finds the end of the digit run starting at `from`.
#[verifier::loop_isolation(false)]
fn digit_run_to(s: &str, from: usize) -> (r: usize)
    requires
        from <= s@.len(),
    ensures
        from <= r <= s@.len(),
        r as int == crate::digits::digit_run_end(s@, from as int),
        forall|m: int| from <= m < r ==> is_digit_char(#[trigger] s@[m]),
{
    let n = s.unicode_len();
    let mut j: usize = from;
    let mut done = false;
    while !done
        invariant
            from <= j <= n,
            forall|m: int| from <= m < j ==> is_digit_char(#[trigger] s@[m]),
            done ==> j == n || !is_digit_char(s@[j as int]),
        decreases n - j + (if done { 0int } else { 1int }),
    {
        if j < n {
            let c = s.get_char(j);
            if (c as u32) >= 48 && (c as u32) <= 57 {
                j += 1;
            } else {
                done = true;
            }
        } else {
            done = true;
        }
    }
    proof {
        lemma_digit_run_end(s@, from as int, j as int);
    }
    j
}

/// Finds the end of the plain-character run starting at `from`.
#[verifier::loop_isolation(false)]
fn plain_run_to(s: &str, from: usize) -> (r: usize)
    requires
        from <= s@.len(),
    ensures
        from <= r <= s@.len(),
        r as int == plain_run_end(s@, from as int),
{
    let n = s.unicode_len();
    let mut j: usize = from;
    let mut done = false;
    while !done
        invariant
            from <= j <= n,
            forall|m: int| from <= m < j ==> is_plain_char(#[trigger] s@[m]),
            done ==> j == n || !is_plain_char(s@[j as int]),
        decreases n - j + (if done { 0int } else { 1int }),
    {
        if j < n {
            let c = s.get_char(j);
            if c != '"' && c != '\\' && (c as u32) >= 32 {
                j += 1;
            } else {
                done = true;
            }
        } else {
            done = true;
        }
    }
    proof {
        lemma_plain_run_end(s@, from as int, j as int);
    }
    j
}

/// Parses one rejection record, strictly mirroring `parse_item_spec`.
#[verifier::loop_isolation(false)]
fn parse_item(s: &str, i: usize) -> (r: Option<(UnsuccessfulOrder, usize)>)
    ensures
        (r is None) == (parse_item_spec(s@, i as int) is None),
        r matches Some((o, jj)) ==> parse_item_spec(s@, i as int) matches Some((it, j)) && item_view(
            o,
        ) == it && jj as int == j && jj <= s@.len(),
{
    proof {
        reveal_strlit("{\"id\":");
        reveal_strlit(",\"reason\":\"");
        reveal_strlit("\"}");
    }
    let n = s.unicode_len();
    if !match_lit_at(s, i, "{\"id\":") {
        return None;
    }
    let p = i + 6;
    let j = digit_run_to(s, p);
    let ghost seg = s@.subrange(p as int, j as int);
    if j == p {
        return None;
    }
    if j > p + 1 && s.get_char(p) == '0' {
        proof {
            assert(seg.len() > 1 && seg[0] == '0');
        }
        return None;
    }
    proof {
        assert(canonical_digits(seg));
    }
    let v = match parse_u64_digits(s, p, j) {
        Some(v) => v,
        None => {
            return None;
        },
    };
    if !match_lit_at(s, j, ",\"reason\":\"") {
        return None;
    }
    let q0 = j + 11;
    let q = plain_run_to(s, q0);
    if !match_lit_at(s, q, "\"}") {
        return None;
    }
    let reason = s.substring_char(q0, q).to_owned();
    proof {
        assert(reason@ == s@.subrange(q0 as int, q as int));
    }
    Some((UnsuccessfulOrder { id: v, reason }, q + 2))
}

/// Parses a comma-separated run of rejection records, strictly mirroring
/// `parse_items_spec`.
fn parse_items(s: &str, i: usize, fuel: usize) -> (r: Option<(Vec<UnsuccessfulOrder>, usize)>)
    ensures
        (r is None) == (parse_items_spec(s@, i as int, fuel as nat) is None),
        r matches Some((v, k)) ==> parse_items_spec(s@, i as int, fuel as nat) matches Some(
            (its, k2),
        ) && orders_view(v@) == its && k as int == k2 && k <= s@.len(),
    decreases fuel,
{
    if fuel == 0 {
        return None;
    }
    let (o, j) = match parse_item(s, i) {
        Some(p) => p,
        None => {
            return None;
        },
    };
    let n = s.unicode_len();
    if j < n && s.get_char(j) == ',' {
        match parse_items(s, j + 1, fuel - 1) {
            Some((mut v, k)) => {
                v.insert(0, o);
                proof {
                    let sp = parse_items_spec(s@, i as int, fuel as nat);
                    assert(sp matches Some((its, k2)) && orders_view(v@) =~= its);
                }
                Some((v, k))
            },
            None => None,
        }
    } else {
        let mut v: Vec<UnsuccessfulOrder> = Vec::new();
        v.push(o);
        proof {
            let sp = parse_items_spec(s@, i as int, fuel as nat);
            assert(sp matches Some((its, k2)) && orders_view(v@) =~= its);
        }
        Some((v, j))
    }
}

/// Parses a bulk-placement payload, strictly: exactly the decoder the
/// round-trip law speaks of.
pub fn decode_bulk_response(s: &str) -> (r: Option<BulkOrderPlacementsResponse>)
    ensures
        (r is None) == (decode_bulk_spec(s@) is None),
        r matches Some(x) ==> decode_bulk_spec(s@) matches Some(items) && bulk_view(x) == items,
{
    proof {
        reveal_strlit("{\"unsuccessful_orders\":[");
        reveal_strlit("]}");
    }
    let n = s.unicode_len();
    if !match_lit_at(s, 0, "{\"unsuccessful_orders\":[") {
        return None;
    }
    if n == 26 && match_lit_at(s, 24, "]}") {
        let x = BulkOrderPlacementsResponse { unsuccessful_orders: Vec::new() };
        proof {
            assert(bulk_view(x) =~= Seq::<(u64, Seq<char>)>::empty());
        }
        return Some(x);
    }
    match parse_items(s, 24, n) {
        Some((v, k)) => {
            if match_lit_at(s, k, "]}") && n - k == 2 {
                Some(BulkOrderPlacementsResponse { unsuccessful_orders: v })
            } else {
                None
            }
        },
        None => None,
    }
}

proof fn lemma_parse_item_exact(s: Seq<char>, base: int, it: (u64, Seq<char>))
    requires
        plain_chars(it.1),
        0 <= base,
        base + encode_item_spec(it).len() <= s.len(),
        s.subrange(base, base + encode_item_spec(it).len() as int) == encode_item_spec(it),
    ensures
        parse_item_spec(s, base) == Some((it, base + encode_item_spec(it).len() as int)),
{
    reveal_strlit("{\"id\":");
    reveal_strlit(",\"reason\":\"");
    reveal_strlit("\"}");
    let a = it.0 as nat;
    let dd = dec_digits(a);
    lemma_dec_digits_wf(a);
    let dl = dd.len() as int;
    let rl = it.1.len() as int;
    assert(item_pre().len() == 6);
    assert(item_mid().len() == 11);
    assert(item_suf().len() == 2);
    let e = encode_item_spec(it);
    let el = e.len() as int;
    assert(el == 6 + dl + 11 + rl + 2);
    let t = s.subrange(base, base + el);
    assert(t == e);
    let p = base + 6;
    let j = p + dl;
    let q0 = j + 11;
    let q = q0 + rl;
    assert(t.subrange(0, 6) =~= item_pre());
    assert(s.subrange(base, base + 6) =~= t.subrange(0, 6));
    assert(lit_at(s, base, item_pre()));
    assert(t.subrange(6, 6 + dl) =~= dd);
    assert(s.subrange(p, p + dl) =~= t.subrange(6, 6 + dl));
    assert forall|m: int| p <= m < p + dl implies is_digit_char(#[trigger] s[m]) by {
        assert(s[m] == s.subrange(p, p + dl)[m - p]);
        assert(is_digit_char(dd[m - p]));
    }
    assert(t.subrange(6 + dl, 6 + dl + 11) =~= item_mid());
    assert(s.subrange(j, j + 11) =~= t.subrange(6 + dl, 6 + dl + 11));
    assert(s[j] == s.subrange(j, j + 11)[0]);
    assert(item_mid()[0] == ',');
    assert(!is_digit_char(','));
    lemma_digit_run_end(s, p, j);
    let seg = s.subrange(p, j);
    assert(seg =~= dd);
    assert(canonical_digits(seg));
    assert(digits_value(seg) == a);
    assert(lit_at(s, j, item_mid()));
    assert(t.subrange(6 + dl + 11, 6 + dl + 11 + rl) =~= it.1);
    assert(s.subrange(q0, q0 + rl) =~= t.subrange(6 + dl + 11, 6 + dl + 11 + rl));
    assert forall|m: int| q0 <= m < q0 + rl implies is_plain_char(#[trigger] s[m]) by {
        assert(s[m] == s.subrange(q0, q0 + rl)[m - q0]);
        assert(is_plain_char(it.1[m - q0]));
    }
    assert(t.subrange(6 + dl + 11 + rl, el) =~= item_suf());
    assert(s.subrange(q, q + 2) =~= t.subrange(6 + dl + 11 + rl, el));
    assert(s[q] == s.subrange(q, q + 2)[0]);
    assert(item_suf()[0] == '"');
    assert(!is_plain_char('"'));
    lemma_plain_run_end(s, q0, q);
    assert(s.subrange(q0, q) =~= it.1);
    assert(lit_at(s, q, item_suf()));
    assert(parse_item_spec(s, base) == Some((it, q + 2)));
}

proof fn lemma_encode_items_len(items: Seq<(u64, Seq<char>)>)
    ensures
        encode_items_spec(items).len() >= items.len(),
        items.len() > 0 ==> encode_items_spec(items).len() >= 6,
    decreases items.len(),
{
    reveal_strlit("{\"id\":");
    if items.len() > 0 {
        assert(encode_item_spec(items[0]).len() >= 6);
        if items.len() > 1 {
            lemma_encode_items_len(items.drop_first());
        }
    }
}

proof fn lemma_parse_items_exact(s: Seq<char>, base: int, items: Seq<(u64, Seq<char>)>, fuel: nat)
    requires
        items.len() >= 1,
        encodable_bulk(items),
        0 <= base,
        base + encode_items_spec(items).len() + bulk_suf().len() == s.len(),
        s.subrange(base, s.len() as int) == encode_items_spec(items) + bulk_suf(),
        fuel >= items.len(),
    ensures
        parse_items_spec(s, base, fuel) == Some((items, base + encode_items_spec(items).len() as int)),
    decreases items.len(),
{
    reveal_strlit("]}");
    let it = items[0];
    assert(plain_chars(it.1));
    let e0 = encode_item_spec(it);
    let el = e0.len() as int;
    let all = encode_items_spec(items);
    let ll = all.len() as int;
    assert(bulk_suf().len() == 2);
    let t = s.subrange(base, s.len() as int);
    assert(t == all + bulk_suf());
    if items.len() == 1 {
        assert(all == e0);
        assert(t.subrange(0, el) =~= e0);
        assert(s.subrange(base, base + el) =~= t.subrange(0, el));
        lemma_parse_item_exact(s, base, it);
        let j = base + el;
        assert(s[j] == t[el]);
        assert(t[el] == bulk_suf()[0]);
        assert(bulk_suf()[0] == ']');
        assert(j < s.len());
        assert(s[j] != ',');
        assert(parse_items_spec(s, base, fuel) == Some((seq![it], j)));
        assert(seq![it] =~= items);
    } else {
        let rest = items.drop_first();
        let erest = encode_items_spec(rest);
        assert(all == e0 + seq![','] + erest);
        assert(t.subrange(0, el) =~= e0);
        assert(s.subrange(base, base + el) =~= t.subrange(0, el));
        lemma_parse_item_exact(s, base, it);
        let j = base + el;
        assert(s[j] == t[el]);
        assert(t[el] == (e0 + seq![','] + erest)[el]);
        assert(s[j] == ',');
        let b2 = j + 1;
        assert(s.subrange(b2, s.len() as int) =~= t.subrange(el + 1, t.len() as int));
        assert(t.subrange(el + 1, t.len() as int) =~= erest + bulk_suf());
        assert forall|i: int| 0 <= i < rest.len() implies plain_chars(#[trigger] rest[i].1) by {
            assert(rest[i] == items[i + 1]);
            assert(plain_chars(items[i + 1].1));
        }
        lemma_parse_items_exact(s, b2, rest, (fuel - 1) as nat);
        assert(parse_items_spec(s, b2, (fuel - 1) as nat) == Some(
            (rest, b2 + erest.len() as int),
        ));
        assert(fuel >= 1);
        assert(j < s.len());
        assert(parse_items_spec(s, base, fuel) == Some((seq![it] + rest, b2 + erest.len() as int)));
        assert(seq![it] + rest =~= items);
        assert(b2 + erest.len() as int == base + ll);
    }
}

/// Round trip: decoding any encoded bulk-placement payload gives the
/// rejection list back, for every representable list.
pub proof fn lemma_bulk_round_trip(items: Seq<(u64, Seq<char>)>)
    requires
        encodable_bulk(items),
    ensures
        decode_bulk_spec(encode_bulk_spec(items)) == Some(items),
{
    reveal_strlit("{\"unsuccessful_orders\":[");
    reveal_strlit("]}");
    let s = encode_bulk_spec(items);
    let all = encode_items_spec(items);
    let ll = all.len() as int;
    assert(bulk_pre().len() == 24);
    assert(bulk_suf().len() == 2);
    assert(s.len() == 24 + ll + 2);
    assert(s.subrange(0, 24) =~= bulk_pre());
    assert(lit_at(s, 0, bulk_pre()));
    if items.len() == 0 {
        assert(all =~= Seq::<char>::empty());
        assert(s.len() == 26);
        assert(s.subrange(24, 26) =~= bulk_suf());
        assert(lit_at(s, 24, bulk_suf()));
        assert(decode_bulk_spec(s) == Some(Seq::<(u64, Seq<char>)>::empty()));
        assert(Seq::<(u64, Seq<char>)>::empty() =~= items);
    } else {
        lemma_encode_items_len(items);
        assert(s.len() != 26);
        assert(s.subrange(24, s.len() as int) =~= all + bulk_suf());
        assert(s.len() >= items.len());
        lemma_parse_items_exact(s, 24, items, s.len());
        let k = 24 + ll;
        assert(s.subrange(k, k + 2) =~= bulk_suf());
        assert(lit_at(s, k, bulk_suf()));
        assert(k + 2 == s.len());
        assert(decode_bulk_spec(s) == Some(items));
    }
}

} // verus!
