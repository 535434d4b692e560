//! The encoding of a record, the inverse of the layout's parser, with the proof
//! that parsing an encoded record gives it back.
use vstd::prelude::*;
use crate::layout::{
    HEADER_LEN, discriminator, le_nat, parse_account, parse_body, parse_creator, parse_creator_run,
    parse_creators, parse_data, parse_end_settings, parse_flag, parse_hidden, parse_i64, parse_le,
    parse_opt_end_settings, parse_opt_gatekeeper, pow256, parse_opt_hidden, parse_opt_i64, parse_opt_key, parse_opt_u64,
    parse_opt_whitelist, parse_raw, parse_string, parse_u16, parse_u32, parse_u64, parse_u8,
    parse_whitelist,
};
use crate::record::{
    DataModel, RecordModel, CreatorModel, DecodeError, EndSettingType, EndSettings, GatekeeperModel, HiddenModel,
    WhitelistMintMode, WhitelistModel,
};

verus! {

/// The `n` little-endian bytes of `v`.
pub open spec fn le_bytes(v: nat, n: nat) -> Seq<u8>
    decreases n,
{
    if n == 0 {
        Seq::empty()
    } else {
        seq![(v % 256) as u8] + le_bytes(v / 256, (n - 1) as nat)
    }
}

pub open spec fn enc_flag(b: bool) -> Seq<u8> {
    seq![if b { 1u8 } else { 0u8 }]
}

pub open spec fn enc_u32(v: nat) -> Seq<u8> {
    le_bytes(v, 4)
}

pub open spec fn enc_u64(v: u64) -> Seq<u8> {
    le_bytes(v as nat, 8)
}

/// A signed integer in two's complement.
pub open spec fn enc_i64(v: i64) -> Seq<u8> {
    le_bytes((if v < 0 { v + 0x10000000000000000 } else { v as int }) as nat, 8)
}

pub open spec fn enc_string(s: Seq<u8>) -> Seq<u8> {
    enc_u32(s.len()) + s
}

/// Whether `e` stands in `b` at position `p`.
pub open spec fn at(b: Seq<u8>, p: int, e: Seq<u8>) -> bool {
    0 <= p && p + e.len() <= b.len() && b.subrange(p, p + e.len()) == e
}

proof fn lemma_at_concat(b: Seq<u8>, p: int, e1: Seq<u8>, e2: Seq<u8>)
    requires
        at(b, p, e1 + e2),
    ensures
        at(b, p, e1),
        at(b, p + e1.len(), e2),
{
    let whole = b.subrange(p, p + e1.len() + e2.len());
    assert(whole == e1 + e2);
    assert(b.subrange(p, p + e1.len()) =~= whole.subrange(0, e1.len() as int));
    assert(whole.subrange(0, e1.len() as int) =~= e1);
    assert(b.subrange(p + e1.len(), p + e1.len() + e2.len()) =~= whole.subrange(
        e1.len() as int,
        (e1.len() + e2.len()) as int,
    ));
    assert(whole.subrange(e1.len() as int, (e1.len() + e2.len()) as int) =~= e2);
}

proof fn lemma_le_bytes(v: nat, n: nat)
    requires
        v < pow256(n),
    ensures
        le_bytes(v, n).len() == n,
        le_nat(le_bytes(v, n)) == v,
    decreases n,
{
    if n > 0 {
        let w = v / 256;
        assert(w < pow256((n - 1) as nat)) by (nonlinear_arith)
            requires v < 256 * pow256((n - 1) as nat), w == v / 256;
        lemma_le_bytes(w, (n - 1) as nat);
        let s = le_bytes(v, n);
        assert(s.drop_first() =~= le_bytes(w, (n - 1) as nat));
        assert(v == v % 256 + 256 * w) by (nonlinear_arith)
            requires w == v / 256;
    }
}

proof fn lemma_parse_le(b: Seq<u8>, p: int, v: nat, n: nat)
    requires
        v < pow256(n),
        at(b, p, le_bytes(v, n)),
    ensures
        parse_le(b, p, n as int) == Ok::<(nat, int), DecodeError>((v, p + n)),
{
    lemma_le_bytes(v, n);
}

proof fn lemma_pow256_values()
    ensures
        pow256(1) == 0x100,
        pow256(2) == 0x10000,
        pow256(4) == 0x100000000,
        pow256(8) == 0x10000000000000000,
{
    reveal_with_fuel(pow256, 9);
}

proof fn lemma_parse_flag(b: Seq<u8>, p: int, x: bool)
    requires
        at(b, p, enc_flag(x)),
    ensures
        parse_flag(b, p) == Ok::<(bool, int), DecodeError>((x, p + 1)),
{
    assert(b[p] == b.subrange(p, p + 1)[0]);
}

proof fn lemma_parse_u8(b: Seq<u8>, p: int, x: u8)
    requires
        at(b, p, seq![x]),
    ensures
        parse_u8(b, p) == Ok::<(u8, int), DecodeError>((x, p + 1)),
{
    lemma_pow256_values();
    reveal_with_fuel(le_bytes, 2);
    assert(le_bytes(x as nat, 1) =~= seq![x]);
    lemma_parse_le(b, p, x as nat, 1);
}

proof fn lemma_parse_u32(b: Seq<u8>, p: int, v: nat)
    requires
        v < 0x100000000,
        at(b, p, enc_u32(v)),
    ensures
        parse_u32(b, p) == Ok::<(u32, int), DecodeError>((v as u32, p + 4)),
{
    lemma_pow256_values();
    lemma_parse_le(b, p, v, 4);
}

proof fn lemma_parse_u64(b: Seq<u8>, p: int, v: u64)
    requires
        at(b, p, enc_u64(v)),
    ensures
        parse_u64(b, p) == Ok::<(u64, int), DecodeError>((v, p + 8)),
{
    lemma_pow256_values();
    lemma_parse_le(b, p, v as nat, 8);
}

proof fn lemma_parse_i64(b: Seq<u8>, p: int, v: i64)
    requires
        at(b, p, enc_i64(v)),
    ensures
        parse_i64(b, p) == Ok::<(i64, int), DecodeError>((v, p + 8)),
{
    let u: u64 = (if v < 0 { v + 0x10000000000000000 } else { v as int }) as u64;
    assert(enc_i64(v) == enc_u64(u));
    lemma_parse_u64(b, p, u);
}

proof fn lemma_parse_u16(b: Seq<u8>, p: int, v: u16)
    requires
        at(b, p, le_bytes(v as nat, 2)),
    ensures
        parse_u16(b, p) == Ok::<(u16, int), DecodeError>((v, p + 2)),
{
    lemma_pow256_values();
    lemma_parse_le(b, p, v as nat, 2);
}

proof fn lemma_parse_raw(b: Seq<u8>, p: int, e: Seq<u8>)
    requires
        at(b, p, e),
    ensures
        parse_raw(b, p, e.len() as int) == Ok::<(Seq<u8>, int), DecodeError>((e, p + e.len())),
{
}

proof fn lemma_parse_string(b: Seq<u8>, p: int, s: Seq<u8>)
    requires
        s.len() < 0x100000000,
        at(b, p, enc_string(s)),
    ensures
        parse_string(b, p) == Ok::<(Seq<u8>, int), DecodeError>((s, p + 4 + s.len())),
{
    lemma_at_concat(b, p, enc_u32(s.len()), s);
    lemma_pow256_values();
    lemma_le_bytes(s.len(), 4);
    lemma_parse_u32(b, p, s.len());
}

pub open spec fn enc_opt_key(k: Option<Seq<u8>>) -> Seq<u8> {
    match k {
        None => seq![0u8],
        Some(k) => seq![1u8] + k,
    }
}

pub open spec fn enc_opt_u64(v: Option<u64>) -> Seq<u8> {
    match v {
        None => seq![0u8],
        Some(v) => seq![1u8] + enc_u64(v),
    }
}

pub open spec fn enc_opt_i64(v: Option<i64>) -> Seq<u8> {
    match v {
        None => seq![0u8],
        Some(v) => seq![1u8] + enc_i64(v),
    }
}

pub open spec fn enc_end_settings(e: EndSettings) -> Seq<u8> {
    seq![match e.end_setting_type { EndSettingType::Date => 0u8, EndSettingType::Amount => 1u8 }]
        + enc_u64(e.number)
}

pub open spec fn enc_opt_end_settings(e: Option<EndSettings>) -> Seq<u8> {
    match e {
        None => seq![0u8],
        Some(e) => seq![1u8] + enc_end_settings(e),
    }
}

pub open spec fn enc_creator(c: CreatorModel) -> Seq<u8> {
    c.address + enc_flag(c.verified) + seq![c.share]
}

pub open spec fn enc_creator_run(cs: Seq<CreatorModel>) -> Seq<u8>
    decreases cs.len(),
{
    if cs.len() == 0 {
        Seq::empty()
    } else {
        enc_creator_run(cs.drop_last()) + enc_creator(cs.last())
    }
}

pub open spec fn enc_creators(cs: Seq<CreatorModel>) -> Seq<u8> {
    enc_u32(cs.len()) + enc_creator_run(cs)
}

pub open spec fn enc_hidden(h: HiddenModel) -> Seq<u8> {
    enc_string(h.name) + enc_string(h.uri) + h.hash
}

pub open spec fn enc_opt_hidden(h: Option<HiddenModel>) -> Seq<u8> {
    match h {
        None => seq![0u8],
        Some(h) => seq![1u8] + enc_hidden(h),
    }
}

pub open spec fn enc_whitelist(w: WhitelistModel) -> Seq<u8> {
    seq![match w.mode { WhitelistMintMode::BurnEveryTime => 0u8, WhitelistMintMode::NeverBurn => 1u8 }]
        + w.mint + enc_flag(w.presale) + enc_opt_u64(w.discount_price)
}

pub open spec fn enc_opt_whitelist(w: Option<WhitelistModel>) -> Seq<u8> {
    match w {
        None => seq![0u8],
        Some(w) => seq![1u8] + enc_whitelist(w),
    }
}

pub open spec fn enc_gatekeeper(g: GatekeeperModel) -> Seq<u8> {
    g.gatekeeper_network + enc_flag(g.expire_on_use)
}

pub open spec fn enc_opt_gatekeeper(g: Option<GatekeeperModel>) -> Seq<u8> {
    match g {
        None => seq![0u8],
        Some(g) => seq![1u8] + enc_gatekeeper(g),
    }
}

pub open spec fn enc_data(d: DataModel) -> Seq<u8> {
    enc_string(d.uuid) + enc_u64(d.price) + enc_string(d.symbol) + le_bytes(
        d.seller_fee_basis_points as nat,
        2,
    ) + enc_u64(d.max_supply) + enc_flag(d.is_mutable) + enc_flag(d.retain_authority) + enc_opt_i64(
        d.go_live_date,
    ) + enc_opt_end_settings(d.end_settings) + enc_creators(d.creators) + enc_opt_hidden(
        d.hidden_settings,
    ) + enc_opt_whitelist(d.whitelist_mint_settings) + enc_u64(d.items_available)
        + enc_opt_gatekeeper(d.gatekeeper)
}

/// The bytes of a whole account holding the record.
pub open spec fn encode(m: RecordModel) -> Seq<u8> {
    discriminator() + m.authority + m.wallet + enc_opt_key(m.token_mint) + enc_u64(m.items_redeemed)
        + enc_data(m.data)
}

pub open spec fn key_wf(k: Seq<u8>) -> bool {
    k.len() == 32
}

pub open spec fn string_wf(s: Seq<u8>) -> bool {
    s.len() < 0x100000000
}

/// Whether the layout can hold the sale configuration: keys and the hash are
/// 32 bytes, and strings and the creator list fit a `u32` length.
pub open spec fn data_wf(d: DataModel) -> bool {
    &&& string_wf(d.uuid)
    &&& string_wf(d.symbol)
    &&& d.creators.len() < 0x100000000
    &&& forall|i: int| 0 <= i < d.creators.len() ==> key_wf(#[trigger] d.creators[i].address)
    &&& (d.hidden_settings matches Some(h) ==> string_wf(h.name) && string_wf(h.uri) && h.hash.len() == 32)
    &&& (d.whitelist_mint_settings matches Some(w) ==> key_wf(w.mint))
    &&& (d.gatekeeper matches Some(g) ==> key_wf(g.gatekeeper_network))
}

/// Whether the layout can hold the record.
pub open spec fn record_wf(m: RecordModel) -> bool {
    &&& key_wf(m.authority)
    &&& key_wf(m.wallet)
    &&& (m.token_mint matches Some(k) ==> key_wf(k))
    &&& data_wf(m.data)
}

proof fn lemma_parse_opt_flag_tag(b: Seq<u8>, p: int, t: u8, rest: Seq<u8>)
    requires
        t <= 1,
        at(b, p, seq![t] + rest),
    ensures
        parse_flag(b, p) == Ok::<(bool, int), DecodeError>((t == 1, p + 1)),
        at(b, p + 1, rest),
{
    lemma_at_concat(b, p, seq![t], rest);
    lemma_parse_flag(b, p, t == 1);
}

proof fn lemma_parse_opt_key(b: Seq<u8>, p: int, k: Option<Seq<u8>>)
    requires
        k matches Some(x) ==> key_wf(x),
        at(b, p, enc_opt_key(k)),
    ensures
        parse_opt_key(b, p) == Ok::<(Option<Seq<u8>>, int), DecodeError>((k, p + enc_opt_key(k).len())),
{
    match k {
        None => lemma_parse_flag(b, p, false),
        Some(x) => {
            lemma_parse_opt_flag_tag(b, p, 1, x);
            lemma_parse_raw(b, p + 1, x);
        },
    }
}

proof fn lemma_parse_opt_u64(b: Seq<u8>, p: int, v: Option<u64>)
    requires
        at(b, p, enc_opt_u64(v)),
    ensures
        parse_opt_u64(b, p) == Ok::<(Option<u64>, int), DecodeError>((v, p + enc_opt_u64(v).len())),
{
    lemma_le_bytes_widths();
    match v {
        None => lemma_parse_flag(b, p, false),
        Some(x) => {
            lemma_parse_opt_flag_tag(b, p, 1, enc_u64(x));
            lemma_parse_u64(b, p + 1, x);
        },
    }
}

proof fn lemma_parse_opt_i64(b: Seq<u8>, p: int, v: Option<i64>)
    requires
        at(b, p, enc_opt_i64(v)),
    ensures
        parse_opt_i64(b, p) == Ok::<(Option<i64>, int), DecodeError>((v, p + enc_opt_i64(v).len())),
{
    lemma_le_bytes_widths();
    match v {
        None => lemma_parse_flag(b, p, false),
        Some(x) => {
            lemma_parse_opt_flag_tag(b, p, 1, enc_i64(x));
            lemma_parse_i64(b, p + 1, x);
        },
    }
}

proof fn lemma_le_bytes_widths()
    ensures
        forall|v: nat| #[trigger] le_bytes(v, 8).len() == 8,
        forall|v: nat| #[trigger] le_bytes(v, 4).len() == 4,
        forall|v: nat| #[trigger] le_bytes(v, 2).len() == 2,
{
    assert forall|v: nat| #[trigger] le_bytes(v, 8).len() == 8 by {
        lemma_le_bytes_len(v, 8);
    }
    assert forall|v: nat| #[trigger] le_bytes(v, 4).len() == 4 by {
        lemma_le_bytes_len(v, 4);
    }
    assert forall|v: nat| #[trigger] le_bytes(v, 2).len() == 2 by {
        lemma_le_bytes_len(v, 2);
    }
}

proof fn lemma_le_bytes_len(v: nat, n: nat)
    ensures
        le_bytes(v, n).len() == n,
    decreases n,
{
    if n > 0 {
        lemma_le_bytes_len(v / 256, (n - 1) as nat);
    }
}

proof fn lemma_parse_end_settings(b: Seq<u8>, p: int, e: EndSettings)
    requires
        at(b, p, enc_end_settings(e)),
    ensures
        parse_end_settings(b, p) == Ok::<(EndSettings, int), DecodeError>((e, p + enc_end_settings(e).len())),
{
    lemma_le_bytes_widths();
    let t: u8 = match e.end_setting_type { EndSettingType::Date => 0u8, EndSettingType::Amount => 1u8 };
    lemma_at_concat(b, p, seq![t], enc_u64(e.number));
    lemma_parse_u8(b, p, t);
    lemma_parse_u64(b, p + 1, e.number);
}

proof fn lemma_parse_opt_end_settings(b: Seq<u8>, p: int, e: Option<EndSettings>)
    requires
        at(b, p, enc_opt_end_settings(e)),
    ensures
        parse_opt_end_settings(b, p) == Ok::<(Option<EndSettings>, int), DecodeError>(
            (e, p + enc_opt_end_settings(e).len())),
{
    match e {
        None => lemma_parse_flag(b, p, false),
        Some(x) => {
            lemma_parse_opt_flag_tag(b, p, 1, enc_end_settings(x));
            lemma_parse_end_settings(b, p + 1, x);
        },
    }
}

proof fn lemma_parse_creator(b: Seq<u8>, p: int, c: CreatorModel)
    requires
        key_wf(c.address),
        at(b, p, enc_creator(c)),
    ensures
        parse_creator(b, p) == Ok::<(CreatorModel, int), DecodeError>((c, p + enc_creator(c).len())),
{
    lemma_at_concat(b, p, c.address + enc_flag(c.verified), seq![c.share]);
    lemma_at_concat(b, p, c.address, enc_flag(c.verified));
    lemma_parse_raw(b, p, c.address);
    lemma_parse_flag(b, p + 32, c.verified);
    lemma_parse_u8(b, p + 33, c.share);
}

proof fn lemma_parse_creator_run(b: Seq<u8>, p: int, cs: Seq<CreatorModel>)
    requires
        forall|i: int| 0 <= i < cs.len() ==> key_wf(#[trigger] cs[i].address),
        at(b, p, enc_creator_run(cs)),
    ensures
        parse_creator_run(b, p, cs.len()) == Ok::<(Seq<CreatorModel>, int), DecodeError>(
            (cs, p + enc_creator_run(cs).len())),
    decreases cs.len(),
{
    if cs.len() > 0 {
        let init = cs.drop_last();
        lemma_at_concat(b, p, enc_creator_run(init), enc_creator(cs.last()));
        assert forall|i: int| 0 <= i < init.len() implies key_wf(#[trigger] init[i].address) by {
            assert(init[i] == cs[i]);
        }
        lemma_parse_creator_run(b, p, init);
        assert(key_wf(cs[cs.len() - 1].address));
        lemma_parse_creator(b, p + enc_creator_run(init).len(), cs.last());
        assert(init.push(cs.last()) =~= cs);
        assert(((cs.len() - 1) as nat) == init.len());
        assert(parse_creator_run(b, p, cs.len()) == Ok::<(Seq<CreatorModel>, int), DecodeError>(
            (init.push(cs.last()), p + enc_creator_run(cs).len())));
    } else {
        assert(cs =~= Seq::<CreatorModel>::empty());
    }
}

proof fn lemma_parse_creators(b: Seq<u8>, p: int, cs: Seq<CreatorModel>)
    requires
        cs.len() < 0x100000000,
        forall|i: int| 0 <= i < cs.len() ==> key_wf(#[trigger] cs[i].address),
        at(b, p, enc_creators(cs)),
    ensures
        parse_creators(b, p) == Ok::<(Seq<CreatorModel>, int), DecodeError>((cs, p + enc_creators(cs).len())),
{
    lemma_le_bytes_widths();
    lemma_at_concat(b, p, enc_u32(cs.len()), enc_creator_run(cs));
    lemma_parse_u32(b, p, cs.len());
    lemma_parse_creator_run(b, p + 4, cs);
}

proof fn lemma_parse_hidden(b: Seq<u8>, p: int, h: HiddenModel)
    requires
        string_wf(h.name),
        string_wf(h.uri),
        h.hash.len() == 32,
        at(b, p, enc_hidden(h)),
    ensures
        parse_hidden(b, p) == Ok::<(HiddenModel, int), DecodeError>((h, p + enc_hidden(h).len())),
{
    lemma_le_bytes_widths();
    lemma_at_concat(b, p, enc_string(h.name) + enc_string(h.uri), h.hash);
    lemma_at_concat(b, p, enc_string(h.name), enc_string(h.uri));
    lemma_parse_string(b, p, h.name);
    let p1 = p + enc_string(h.name).len();
    lemma_parse_string(b, p1, h.uri);
    let p2 = p1 + enc_string(h.uri).len();
    lemma_parse_raw(b, p2, h.hash);
}

proof fn lemma_parse_opt_hidden(b: Seq<u8>, p: int, h: Option<HiddenModel>)
    requires
        h matches Some(x) ==> string_wf(x.name) && string_wf(x.uri) && x.hash.len() == 32,
        at(b, p, enc_opt_hidden(h)),
    ensures
        parse_opt_hidden(b, p) == Ok::<(Option<HiddenModel>, int), DecodeError>((h, p + enc_opt_hidden(h).len())),
{
    match h {
        None => lemma_parse_flag(b, p, false),
        Some(x) => {
            lemma_parse_opt_flag_tag(b, p, 1, enc_hidden(x));
            lemma_parse_hidden(b, p + 1, x);
        },
    }
}

proof fn lemma_parse_whitelist(b: Seq<u8>, p: int, w: WhitelistModel)
    requires
        key_wf(w.mint),
        at(b, p, enc_whitelist(w)),
    ensures
        parse_whitelist(b, p) == Ok::<(WhitelistModel, int), DecodeError>((w, p + enc_whitelist(w).len())),
{
    let t: u8 = match w.mode { WhitelistMintMode::BurnEveryTime => 0u8, WhitelistMintMode::NeverBurn => 1u8 };
    lemma_at_concat(b, p, seq![t] + w.mint + enc_flag(w.presale), enc_opt_u64(w.discount_price));
    lemma_at_concat(b, p, seq![t] + w.mint, enc_flag(w.presale));
    lemma_at_concat(b, p, seq![t], w.mint);
    lemma_parse_u8(b, p, t);
    lemma_parse_raw(b, p + 1, w.mint);
    lemma_parse_flag(b, p + 33, w.presale);
    lemma_parse_opt_u64(b, p + 34, w.discount_price);
}

proof fn lemma_parse_opt_whitelist(b: Seq<u8>, p: int, w: Option<WhitelistModel>)
    requires
        w matches Some(x) ==> key_wf(x.mint),
        at(b, p, enc_opt_whitelist(w)),
    ensures
        parse_opt_whitelist(b, p) == Ok::<(Option<WhitelistModel>, int), DecodeError>(
            (w, p + enc_opt_whitelist(w).len())),
{
    match w {
        None => lemma_parse_flag(b, p, false),
        Some(x) => {
            lemma_parse_opt_flag_tag(b, p, 1, enc_whitelist(x));
            lemma_parse_whitelist(b, p + 1, x);
        },
    }
}

proof fn lemma_parse_opt_gatekeeper(b: Seq<u8>, p: int, g: Option<GatekeeperModel>)
    requires
        g matches Some(x) ==> key_wf(x.gatekeeper_network),
        at(b, p, enc_opt_gatekeeper(g)),
    ensures
        parse_opt_gatekeeper(b, p) == Ok::<(Option<GatekeeperModel>, int), DecodeError>(
            (g, p + enc_opt_gatekeeper(g).len())),
{
    match g {
        None => lemma_parse_flag(b, p, false),
        Some(x) => {
            lemma_parse_opt_flag_tag(b, p, 1, enc_gatekeeper(x));
            lemma_at_concat(b, p + 1, x.gatekeeper_network, enc_flag(x.expire_on_use));
            lemma_parse_raw(b, p + 1, x.gatekeeper_network);
            lemma_parse_flag(b, p + 33, x.expire_on_use);
        },
    }
}

#[verifier::rlimit(100)]
proof fn lemma_parse_data(b: Seq<u8>, p: int, d: DataModel)
    requires
        data_wf(d),
        at(b, p, enc_data(d)),
    ensures
        parse_data(b, p) == Ok::<(DataModel, int), DecodeError>((d, p + enc_data(d).len())),
{
    lemma_le_bytes_widths();
    let e1 = enc_string(d.uuid);
    let e2 = enc_u64(d.price);
    let e3 = enc_string(d.symbol);
    let e4 = le_bytes(d.seller_fee_basis_points as nat, 2);
    let e5 = enc_u64(d.max_supply);
    let e6 = enc_flag(d.is_mutable);
    let e7 = enc_flag(d.retain_authority);
    let e8 = enc_opt_i64(d.go_live_date);
    let e9 = enc_opt_end_settings(d.end_settings);
    let e10 = enc_creators(d.creators);
    let e11 = enc_opt_hidden(d.hidden_settings);
    let e12 = enc_opt_whitelist(d.whitelist_mint_settings);
    let e13 = enc_u64(d.items_available);
    let e14 = enc_opt_gatekeeper(d.gatekeeper);
    let a1 = e1;
    let a2 = a1 + e2;
    let a3 = a2 + e3;
    let a4 = a3 + e4;
    let a5 = a4 + e5;
    let a6 = a5 + e6;
    let a7 = a6 + e7;
    let a8 = a7 + e8;
    let a9 = a8 + e9;
    let a10 = a9 + e10;
    let a11 = a10 + e11;
    let a12 = a11 + e12;
    let a13 = a12 + e13;
    assert(enc_data(d) == a13 + e14);
    lemma_at_concat(b, p, a13, e14);
    lemma_at_concat(b, p, a12, e13);
    lemma_at_concat(b, p, a11, e12);
    lemma_at_concat(b, p, a10, e11);
    lemma_at_concat(b, p, a9, e10);
    lemma_at_concat(b, p, a8, e9);
    lemma_at_concat(b, p, a7, e8);
    lemma_at_concat(b, p, a6, e7);
    lemma_at_concat(b, p, a5, e6);
    lemma_at_concat(b, p, a4, e5);
    lemma_at_concat(b, p, a3, e4);
    lemma_at_concat(b, p, a2, e3);
    lemma_at_concat(b, p, a1, e2);
    lemma_parse_string(b, p, d.uuid);
    lemma_parse_u64(b, p + a1.len(), d.price);
    lemma_parse_string(b, p + a2.len(), d.symbol);
    lemma_parse_u16(b, p + a3.len(), d.seller_fee_basis_points);
    lemma_parse_u64(b, p + a4.len(), d.max_supply);
    lemma_parse_flag(b, p + a5.len(), d.is_mutable);
    lemma_parse_flag(b, p + a6.len(), d.retain_authority);
    lemma_parse_opt_i64(b, p + a7.len(), d.go_live_date);
    lemma_parse_opt_end_settings(b, p + a8.len(), d.end_settings);
    lemma_parse_creators(b, p + a9.len(), d.creators);
    lemma_parse_opt_hidden(b, p + a10.len(), d.hidden_settings);
    lemma_parse_opt_whitelist(b, p + a11.len(), d.whitelist_mint_settings);
    lemma_parse_u64(b, p + a12.len(), d.items_available);
    lemma_parse_opt_gatekeeper(b, p + a13.len(), d.gatekeeper);
}

/// Parsing the encoding of a record the layout can hold, followed by any
/// bytes, gives the record back and stops where the encoding ends.
pub proof fn lemma_parse_encoded(m: RecordModel, trailing: Seq<u8>)
    requires
        record_wf(m),
    ensures
        parse_account(encode(m) + trailing) == Ok::<(RecordModel, int), DecodeError>(
            (m, encode(m).len() as int)),
{
    lemma_le_bytes_widths();
    let b = encode(m) + trailing;
    let f1 = discriminator();
    let f2 = m.authority;
    let f3 = m.wallet;
    let f4 = enc_opt_key(m.token_mint);
    let f5 = enc_u64(m.items_redeemed);
    let f6 = enc_data(m.data);
    let c2 = f1 + f2;
    let c3 = c2 + f3;
    let c4 = c3 + f4;
    let c5 = c4 + f5;
    assert(b.subrange(0, encode(m).len() as int) =~= encode(m));
    assert(at(b, 0, c5 + f6));
    lemma_at_concat(b, 0, c5, f6);
    lemma_at_concat(b, 0, c4, f5);
    lemma_at_concat(b, 0, c3, f4);
    lemma_at_concat(b, 0, c2, f3);
    lemma_at_concat(b, 0, f1, f2);
    assert(b.subrange(0, HEADER_LEN as int) == discriminator());
    lemma_parse_raw(b, 8, f2);
    lemma_parse_raw(b, 40, f3);
    lemma_parse_opt_key(b, 72, m.token_mint);
    lemma_parse_u64(b, 72 + f4.len() as int, m.items_redeemed);
    lemma_parse_data(b, c5.len() as int, m.data);
    assert(parse_body(b, 8) == Ok::<(RecordModel, int), DecodeError>((m, encode(m).len() as int)));
}

} // verus!
