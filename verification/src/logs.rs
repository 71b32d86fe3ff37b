//! What a client reads back: the events in a transaction's log, the answer of a
//! quote, and the accounts of the market.

use crate::market::{MarketState, TradeEvent};
use crate::outside;
use crate::pubkey::Pubkey;
use vstd::bytes::u64_from_le_bytes;
use vstd::prelude::*;
use vstd::slice::slice_subrange;

verus! {

/// Where the line of an event starts.
pub open spec fn event_prefix() -> Seq<char> {
    "Program data: "@
}

/// Whether Unicode counts `c` as white space.
pub open spec fn white_space(c: char) -> bool {
    let n = c as u32;
    ||| 0x9 <= n <= 0xd
    ||| n == 0x20
    ||| n == 0x85
    ||| n == 0xa0
    ||| n == 0x1680
    ||| 0x2000 <= n <= 0x200a
    ||| n == 0x2028
    ||| n == 0x2029
    ||| n == 0x202f
    ||| n == 0x205f
    ||| n == 0x3000
}

/// Whether Unicode counts `c` as white space.
pub fn is_white_space(c: char) -> (r: bool)
    ensures
        r == white_space(c),
{
    let n: u32 = c as u32;
    (0x9 <= n && n <= 0xd) || n == 0x20 || n == 0x85 || n == 0xa0 || n == 0x1680 || (0x2000 <= n
        && n <= 0x200a) || n == 0x2028 || n == 0x2029 || n == 0x202f || n == 0x205f || n == 0x3000
}

/// `s` without the white space that it starts with.
pub open spec fn trimmed_start(s: Seq<char>) -> Seq<char>
    decreases s.len(),
{
    if s.len() > 0 && white_space(s[0]) {
        trimmed_start(s.subrange(1, s.len() as int))
    } else {
        s
    }
}

/// `s` without the white space that it ends with.
pub open spec fn trimmed_end(s: Seq<char>) -> Seq<char>
    decreases s.len(),
{
    if s.len() > 0 && white_space(s[s.len() - 1]) {
        trimmed_end(s.subrange(0, s.len() - 1))
    } else {
        s
    }
}

/// `s` without the white space around it.
pub open spec fn trimmed(s: Seq<char>) -> Seq<char> {
    trimmed_end(trimmed_start(s))
}

/// `s` without the white space around it.
pub fn trim(s: &str) -> (r: &str)
    ensures
        r@ == trimmed(s@),
{
    let len: usize = s.unicode_len();
    let mut from: usize = 0;
    assert(s@.subrange(0, len as int) =~= s@);
    while from < len && is_white_space(s.get_char(from))
        invariant
            from <= len,
            len == s@.len(),
            trimmed_start(s@) == trimmed_start(s@.subrange(from as int, len as int)),
        decreases len - from,
    {
        let ghost rest = s@.subrange(from as int, len as int);
        assert(rest.subrange(1, rest.len() as int) =~= s@.subrange(from + 1, len as int));
        from = from + 1;
    }
    let ghost start = s@.subrange(from as int, len as int);
    let mut to: usize = len;
    while to > from && is_white_space(s.get_char(to - 1))
        invariant
            from <= to <= len,
            len == s@.len(),
            trimmed_end(start) == trimmed_end(s@.subrange(from as int, to as int)),
        decreases to - from,
    {
        let ghost rest = s@.subrange(from as int, to as int);
        assert(rest.subrange(0, rest.len() - 1) =~= s@.subrange(from as int, to - 1));
        to = to - 1;
    }
    s.substring_char(from, to)
}

/// What `s` holds after `prefix`, where it starts with it.
pub fn strip_prefix<'a>(s: &'a str, prefix: &str) -> (r: Option<&'a str>)
    ensures
        match r {
            Some(rest) => s@ == prefix@ + rest@,
            None => !prefix@.is_prefix_of(s@),
        },
{
    let len: usize = s.unicode_len();
    let n: usize = prefix.unicode_len();
    if len < n {
        return None;
    }
    let mut i: usize = 0;
    while i < n
        invariant
            i <= n <= len,
            n == prefix@.len(),
            len == s@.len(),
            forall|j: int| 0 <= j < i ==> s@[j] == prefix@[j],
        decreases n - i,
    {
        if s.get_char(i) != prefix.get_char(i) {
            assert(s@[i as int] != prefix@[i as int]);
            return None;
        }
        i = i + 1;
    }
    let rest = s.substring_char(n, len);
    assert(s@ =~= prefix@ + rest@);
    Some(rest)
}

/// A trade as an event announces it: whether it is a buy, the amount, the
/// lamports, the treasury's cut and the supply after it.
pub type TradeFields = (bool, u64, u64, u64, u64);

/// The number that stands at `at`.
pub open spec fn number_at(raw: Seq<u8>, at: int) -> u64 {
    vstd::bytes::spec_u64_from_le_bytes(raw.subrange(at, at + 8))
}

/// The trade in the bytes of an event: eight bytes of discriminator, one byte
/// for the side, then the numbers. Shorter events are none of a trade.
pub open spec fn trade_fields(raw: Seq<u8>) -> Option<TradeFields> {
    if raw.len() < 49 {
        None
    } else {
        Some(
            (
                raw[8] == 1,
                number_at(raw, 9),
                number_at(raw, 17),
                number_at(raw, 25),
                number_at(raw, 33),
            ),
        )
    }
}

/// The trade that a line of the log announces, where it announces one.
pub open spec fn trade_of_line(line: Seq<char>) -> Option<TradeFields> {
    if event_prefix().is_prefix_of(line) {
        match outside::base64_bytes(
            trimmed(line.subrange(event_prefix().len() as int, line.len() as int)),
        ) {
            Some(raw) => trade_fields(raw),
            None => None,
        }
    } else {
        None
    }
}

/// The trades that the lines announce, in their order.
pub open spec fn trades_of_lines(lines: Seq<String>) -> Seq<TradeFields>
    decreases lines.len(),
{
    if lines.len() == 0 {
        seq![]
    } else {
        let before = trades_of_lines(lines.drop_last());
        match trade_of_line(lines.last()@) {
            Some(trade) => before.push(trade),
            None => before,
        }
    }
}

/// The number that stands at `at`.
fn read_number(raw: &[u8], at: usize) -> (r: u64)
    requires
        at + 8 <= raw@.len(),
    ensures
        r == number_at(raw@, at as int),
{
    assert(raw@.len() == raw.len());
    u64_from_le_bytes(slice_subrange(raw, at, at + 8))
}

/// The trade in the bytes of an event.
pub fn decode_trade(raw: &[u8]) -> (r: Option<TradeFields>)
    ensures
        r == trade_fields(raw@),
{
    if raw.len() < 49 {
        return None;
    }
    Some(
        (
            raw[8] == 1,
            read_number(raw, 9),
            read_number(raw, 17),
            read_number(raw, 25),
            read_number(raw, 33),
        ),
    )
}

/// The trade that a line of the log announces.
fn decode_line(line: &str) -> (r: Option<TradeFields>)
    ensures
        r == trade_of_line(line@),
{
    let rest = match strip_prefix(line, "Program data: ") {
        Some(rest) => rest,
        None => return None,
    };
    assert(line@.subrange(event_prefix().len() as int, line@.len() as int) =~= rest@);
    match outside::base64_decode(trim(rest)) {
        Some(raw) => decode_trade(raw.as_slice()),
        None => None,
    }
}

/// The trades that a log announces, in its order. Lines that announce none are
/// passed over.
pub fn decode_trade_events(logs: &[String]) -> (r: Vec<TradeFields>)
    ensures
        r@ == trades_of_lines(logs@),
{
    let mut out: Vec<TradeFields> = Vec::new();
    let mut i: usize = 0;
    while i < logs.len()
        invariant
            i <= logs@.len(),
            logs.len() == logs@.len(),
            out@ == trades_of_lines(logs@.subrange(0, i as int)),
        decreases logs.len() - i,
    {
        let ghost next = logs@.subrange(0, i + 1);
        assert(next.drop_last() =~= logs@.subrange(0, i as int));
        if let Some(trade) = decode_line(logs[i].as_str()) {
            out.push(trade);
        }
        i = i + 1;
    }
    assert(logs@.subrange(0, i as int) =~= logs@);
    out
}

/// What a quote returns: the cost of a buy and the refund of a sell.
pub open spec fn quote_bytes(cost: u64, refund: u64) -> Seq<u8> {
    vstd::bytes::spec_u64_to_le_bytes(cost) + vstd::bytes::spec_u64_to_le_bytes(refund)
}

/// The cost and the refund that a quote returned, or `None` where it returned
/// anything but two numbers.
pub fn decode_quote(data: &[u8]) -> (r: Option<(u64, u64)>)
    ensures
        r == (if data@.len() == 16 {
            Some((number_at(data@, 0), number_at(data@, 8)))
        } else {
            None
        }),
{
    if data.len() != 16 {
        return None;
    }
    Some((read_number(data, 0), read_number(data, 8)))
}

/// An address in an account's data.
fn read_key(data: &[u8], at: usize) -> (r: Pubkey)
    requires
        at + 32 <= data@.len(),
    ensures
        r@ == data@.subrange(at as int, at + 32),
{
    assert(data@.len() == data.len());
    let mut key: Pubkey = [0u8; 32];
    let mut i: usize = 0;
    while i < 32
        invariant
            i <= 32,
            at + 32 <= data@.len(),
            data@.len() == data.len(),
            forall|j: int| 0 <= j < i ==> key@[j] == data@[at + j],
        decreases 32 - i,
    {
        key[i] = data[at + i];
        i = i + 1;
    }
    assert(key@ =~= data@.subrange(at as int, at + 32));
    key
}

/// The upgrade authority in a program data account: the byte at 12 says whether
/// there is one, and it stands behind that byte.
pub fn upgrade_authority(data: &[u8]) -> (r: Option<Pubkey>)
    ensures
        match r {
            Some(key) => data@.len() >= 45 && data@[12] == 1 && key@ == data@.subrange(13, 45),
            None => data@.len() < 45 || data@[12] != 1,
        },
{
    if data.len() < 45 || data[12] != 1 {
        return None;
    }
    Some(read_key(data, 13))
}

/// The bytes of the state account: a discriminator, then the fields in order.
pub open spec fn state_bytes(tag: Seq<u8>, state: MarketState) -> Seq<u8> {
    tag + state.mint@ + state.treasury@ + seq![state.vault_bump, state.state_bump, state.mint_bump]
}

/// The treasury in the state account: behind eight bytes of discriminator and
/// the mint.
pub fn treasury_from_state(data: &[u8]) -> (r: Pubkey)
    requires
        data@.len() >= 72,
    ensures
        r@ == data@.subrange(40, 72),
{
    read_key(data, 40)
}

/// The bytes of a trade's event.
pub open spec fn event_bytes(tag: Seq<u8>, event: TradeEvent) -> Seq<u8> {
    tag + seq![if event.is_buy { 1u8 } else { 0u8 }] + vstd::bytes::spec_u64_to_le_bytes(
        event.amount,
    ) + vstd::bytes::spec_u64_to_le_bytes(event.lamports) + vstd::bytes::spec_u64_to_le_bytes(
        event.treasury_cut,
    ) + vstd::bytes::spec_u64_to_le_bytes(event.supply_after) + vstd::bytes::spec_u64_to_le_bytes(
        event.slot,
    )
}

/// A client reads in an event what the trade put there.
pub proof fn law_event_is_read_back(tag: Seq<u8>, event: TradeEvent)
    requires
        tag.len() == 8,
    ensures
        trade_fields(event_bytes(tag, event)) == Some(
            (
                event.is_buy,
                event.amount,
                event.lamports,
                event.treasury_cut,
                event.supply_after,
            ),
        ),
{
    vstd::bytes::lemma_auto_spec_u64_to_from_le_bytes();
    let raw = event_bytes(tag, event);
    assert(raw.subrange(9, 17) =~= vstd::bytes::spec_u64_to_le_bytes(event.amount));
    assert(raw.subrange(17, 25) =~= vstd::bytes::spec_u64_to_le_bytes(event.lamports));
    assert(raw.subrange(25, 33) =~= vstd::bytes::spec_u64_to_le_bytes(event.treasury_cut));
    assert(raw.subrange(33, 41) =~= vstd::bytes::spec_u64_to_le_bytes(event.supply_after));
}

/// A client reads in a quote's answer what the quote put there.
pub proof fn law_quote_is_read_back(cost: u64, refund: u64)
    ensures
        quote_bytes(cost, refund).len() == 16,
        number_at(quote_bytes(cost, refund), 0) == cost,
        number_at(quote_bytes(cost, refund), 8) == refund,
{
    vstd::bytes::lemma_auto_spec_u64_to_from_le_bytes();
    let raw = quote_bytes(cost, refund);
    assert(raw.subrange(0, 8) =~= vstd::bytes::spec_u64_to_le_bytes(cost));
    assert(raw.subrange(8, 16) =~= vstd::bytes::spec_u64_to_le_bytes(refund));
}

/// A client reads in the state the treasury that `initialize` fixed. The state
/// takes 75 bytes.
pub proof fn law_treasury_is_read_back(tag: Seq<u8>, state: MarketState)
    requires
        tag.len() == 8,
    ensures
        state_bytes(tag, state).len() == 75,
        state_bytes(tag, state).subrange(40, 72) == state.treasury@,
{
    assert(state_bytes(tag, state).subrange(40, 72) =~= state.treasury@);
}

/// A log's trades are those of its first part, then those of the rest.
pub proof fn law_events_keep_their_order(first: Seq<String>, rest: Seq<String>)
    ensures
        trades_of_lines(first + rest) == trades_of_lines(first) + trades_of_lines(rest),
    decreases rest.len(),
{
    if rest.len() == 0 {
        assert(first + rest =~= first);
        assert(trades_of_lines(first) + seq![] =~= trades_of_lines(first));
    } else {
        law_events_keep_their_order(first, rest.drop_last());
        assert((first + rest).drop_last() =~= first + rest.drop_last());
        let before = trades_of_lines(rest.drop_last());
        if let Some(trade) = trade_of_line(rest.last()@) {
            assert(trades_of_lines(first) + before.push(trade) =~= (trades_of_lines(first)
                + before).push(trade));
        }
    }
}

} // verus!
