//! The report: a decoded record rendered as labeled lines, one per field in
//! declared order, nested records indented under their field's label.
use vstd::prelude::*;
use vstd::string::StringExecFns;
use crate::record::{
    CandyMachine, CandyMachineData, Creator, CreatorModel, DataModel, EndSettingType, EndSettings,
    GatekeeperConfig, GatekeeperModel, HiddenModel, HiddenSettings, RecordModel, WhitelistMintMode,
    WhitelistMintSettings, WhitelistModel, creators_view,
};
use crate::text::{
    base58_of, bool_str, bool_text, byte_list, byte_list_text, bytes_text, dec_text, i64_text,
    int_text, key_text, u64_text, utf8_lossy_of,
};

verus! {

/// The text of each line of a report.
pub open spec fn lines_view(v: Seq<String>) -> Seq<Seq<char>> {
    v.map_values(|s: String| s@)
}

pub open spec fn opt_key_text(k: Option<Seq<u8>>) -> Seq<char> {
    match k {
        None => "None"@,
        Some(k) => base58_of(k),
    }
}

pub open spec fn opt_u64_text(v: Option<u64>) -> Seq<char> {
    match v {
        None => "None"@,
        Some(v) => dec_text(v as nat),
    }
}

pub open spec fn opt_i64_text(v: Option<i64>) -> Seq<char> {
    match v {
        None => "None"@,
        Some(v) => int_text(v as int),
    }
}

pub open spec fn end_setting_type_text(t: EndSettingType) -> Seq<char> {
    match t {
        EndSettingType::Date => "Date"@,
        EndSettingType::Amount => "Amount"@,
    }
}

pub open spec fn mode_text(m: WhitelistMintMode) -> Seq<char> {
    match m {
        WhitelistMintMode::BurnEveryTime => "BurnEveryTime"@,
        WhitelistMintMode::NeverBurn => "NeverBurn"@,
    }
}

/// One creator's line, given the text of its address.
pub open spec fn creator_line_text(address: Seq<char>, verified: bool, share: u8) -> Seq<char> {
    "  address: "@ + address + "; verified: "@ + bool_text(verified) + "; share: "@ + dec_text(share as nat)
}

/// One line per creator, in their order.
pub open spec fn creator_lines(cs: Seq<CreatorModel>) -> Seq<Seq<char>> {
    cs.map_values(|c: CreatorModel| creator_line_text(base58_of(c.address), c.verified, c.share))
}

pub open spec fn end_settings_lines(e: Option<EndSettings>) -> Seq<Seq<char>> {
    match e {
        None => seq![" end_settings: None"@],
        Some(e) => seq![
            " end_settings:"@,
            "  end_setting_type: "@ + end_setting_type_text(e.end_setting_type),
            "  number: "@ + dec_text(e.number as nat),
        ],
    }
}

pub open spec fn hidden_lines(h: Option<HiddenModel>) -> Seq<Seq<char>> {
    match h {
        None => seq![" hidden_settings: None"@],
        Some(h) => seq![
            " hidden_settings:"@,
            "  name: "@ + utf8_lossy_of(h.name),
            "  uri: "@ + utf8_lossy_of(h.uri),
            "  hash: "@ + byte_list_text(h.hash),
        ],
    }
}

pub open spec fn whitelist_lines(w: Option<WhitelistModel>) -> Seq<Seq<char>> {
    match w {
        None => seq![" whitelist_mint_settings: None"@],
        Some(w) => seq![
            " whitelist_mint_settings:"@,
            "  mode: "@ + mode_text(w.mode),
            "  mint: "@ + base58_of(w.mint),
            "  presale: "@ + bool_text(w.presale),
            "  discount_price: "@ + opt_u64_text(w.discount_price),
        ],
    }
}

pub open spec fn gatekeeper_lines(g: Option<GatekeeperModel>) -> Seq<Seq<char>> {
    match g {
        None => seq![" gatekeeper: None"@],
        Some(g) => seq![
            " gatekeeper:"@,
            "  gatekeeper_network: "@ + base58_of(g.gatekeeper_network),
            "  expire_on_use: "@ + bool_text(g.expire_on_use),
        ],
    }
}

/// The lines of the sale configuration's scalar fields up to `go_live_date`.
pub open spec fn data_head_lines(d: DataModel) -> Seq<Seq<char>> {
    seq![
        " uuid: "@ + utf8_lossy_of(d.uuid),
        " price: "@ + dec_text(d.price as nat),
        " symbol: "@ + utf8_lossy_of(d.symbol),
        " seller_fee_basis_points: "@ + dec_text(d.seller_fee_basis_points as nat),
        " max_supply: "@ + dec_text(d.max_supply as nat),
        " is_mutable: "@ + bool_text(d.is_mutable),
        " retain_authority: "@ + bool_text(d.retain_authority),
        " go_live_date: "@ + opt_i64_text(d.go_live_date),
    ]
}

/// The lines of the embedded sale configuration.
pub open spec fn data_lines(d: DataModel) -> Seq<Seq<char>> {
    data_head_lines(d)
        + end_settings_lines(d.end_settings)
        + seq![" creators:"@]
        + creator_lines(d.creators)
        + hidden_lines(d.hidden_settings)
        + whitelist_lines(d.whitelist_mint_settings)
        + seq![" items_available: "@ + dec_text(d.items_available as nat)]
        + gatekeeper_lines(d.gatekeeper)
}

/// The whole report of a record.
pub open spec fn report(m: RecordModel) -> Seq<Seq<char>> {
    seq![
        "authority: "@ + base58_of(m.authority),
        "wallet: "@ + base58_of(m.wallet),
        "token_mint: "@ + opt_key_text(m.token_mint),
        "items_redeemed: "@ + dec_text(m.items_redeemed as nat),
        "data"@,
    ] + data_lines(m.data)
}

/// A label followed by its value.
pub fn labeled(label: &str, value: &str) -> (r: String)
    ensures
        r@ == label@ + value@,
{
    String::from_str(label).concat(value)
}

/// One creator's line, given the text of its address.
pub fn creator_line(address: &str, verified: bool, share: u8) -> (r: String)
    ensures
        r@ == creator_line_text(address@, verified, share),
{
    let s = String::from_str("  address: ").concat(address);
    let s = s.concat("; verified: ");
    let s = s.concat(bool_str(verified));
    let s = s.concat("; share: ");
    let share_text = u64_text(share as u64);
    s.concat(share_text.as_str())
}

fn push_line(lines: &mut Vec<String>, s: String)
    ensures
        lines_view(final(lines)@) == lines_view(old(lines)@).push(s@),
{
    let ghost before = lines@;
    lines.push(s);
    assert(lines_view(lines@) =~= lines_view(before).push(s@));
}

fn push_creators(lines: &mut Vec<String>, creators: &Vec<Creator>)
    ensures
        lines_view(final(lines)@) == lines_view(old(lines)@) + creator_lines(creators_view(creators@)),
{
    let ghost start = lines_view(lines@);
    let mut i: usize = 0;
    while i < creators.len()
        invariant
            i <= creators@.len(),
            lines_view(lines@) == start + creator_lines(creators_view(creators@.subrange(0, i as int))),
        decreases creators@.len() - i,
    {
        let c = &creators[i];
        let address = key_text(&c.address);
        let line = creator_line(address.as_str(), c.verified, c.share);
        push_line(lines, line);
        i = i + 1;
        assert(creator_lines(creators_view(creators@.subrange(0, i as int))) =~= creator_lines(
            creators_view(creators@.subrange(0, i - 1)),
        ).push(line@));
    }
    assert(creators@.subrange(0, creators@.len() as int) =~= creators@);
}

fn push_end_settings(lines: &mut Vec<String>, e: Option<EndSettings>)
    ensures
        lines_view(final(lines)@) == lines_view(old(lines)@) + end_settings_lines(e),
{
    let ghost start = lines_view(lines@);
    match e {
        None => {
            push_line(lines, String::from_str(" end_settings: None"));
        },
        Some(e) => {
            push_line(lines, String::from_str(" end_settings:"));
            let kind = match e.end_setting_type {
                EndSettingType::Date => "Date",
                EndSettingType::Amount => "Amount",
            };
            push_line(lines, labeled("  end_setting_type: ", kind));
            push_line(lines, labeled("  number: ", u64_text(e.number).as_str()));
        },
    }
    assert(lines_view(lines@) =~= start + end_settings_lines(e));
}

fn push_hidden(lines: &mut Vec<String>, h: &Option<HiddenSettings>)
    ensures
        lines_view(final(lines)@) == lines_view(old(lines)@) + hidden_lines(
            match h { Some(h) => Some(h@), None => None },
        ),
{
    let ghost start = lines_view(lines@);
    match h {
        None => {
            push_line(lines, String::from_str(" hidden_settings: None"));
        },
        Some(h) => {
            push_line(lines, String::from_str(" hidden_settings:"));
            push_line(lines, labeled("  name: ", bytes_text(&h.name).as_str()));
            push_line(lines, labeled("  uri: ", bytes_text(&h.uri).as_str()));
            push_line(lines, labeled("  hash: ", byte_list(&h.hash).as_str()));
        },
    }
    assert(lines_view(lines@) =~= start + hidden_lines(match h { Some(h) => Some(h@), None => None }));
}

fn push_whitelist(lines: &mut Vec<String>, w: &Option<WhitelistMintSettings>)
    ensures
        lines_view(final(lines)@) == lines_view(old(lines)@) + whitelist_lines(
            match w { Some(w) => Some(w@), None => None },
        ),
{
    let ghost start = lines_view(lines@);
    match w {
        None => {
            push_line(lines, String::from_str(" whitelist_mint_settings: None"));
        },
        Some(w) => {
            push_line(lines, String::from_str(" whitelist_mint_settings:"));
            let mode = match w.mode {
                WhitelistMintMode::BurnEveryTime => "BurnEveryTime",
                WhitelistMintMode::NeverBurn => "NeverBurn",
            };
            push_line(lines, labeled("  mode: ", mode));
            push_line(lines, labeled("  mint: ", key_text(&w.mint).as_str()));
            push_line(lines, labeled("  presale: ", bool_str(w.presale)));
            let price = match w.discount_price {
                None => String::from_str("None"),
                Some(v) => u64_text(v),
            };
            push_line(lines, labeled("  discount_price: ", price.as_str()));
        },
    }
    assert(lines_view(lines@) =~= start + whitelist_lines(match w { Some(w) => Some(w@), None => None }));
}

fn push_gatekeeper(lines: &mut Vec<String>, g: &Option<GatekeeperConfig>)
    ensures
        lines_view(final(lines)@) == lines_view(old(lines)@) + gatekeeper_lines(
            match g { Some(g) => Some(g@), None => None },
        ),
{
    let ghost start = lines_view(lines@);
    match g {
        None => {
            push_line(lines, String::from_str(" gatekeeper: None"));
        },
        Some(g) => {
            push_line(lines, String::from_str(" gatekeeper:"));
            push_line(lines, labeled("  gatekeeper_network: ", key_text(&g.gatekeeper_network).as_str()));
            push_line(lines, labeled("  expire_on_use: ", bool_str(g.expire_on_use)));
        },
    }
    assert(lines_view(lines@) =~= start + gatekeeper_lines(match g { Some(g) => Some(g@), None => None }));
}

fn push_data_head(lines: &mut Vec<String>, d: &CandyMachineData)
    ensures
        lines_view(final(lines)@) == lines_view(old(lines)@) + data_head_lines(d@),
{
    let ghost start = lines_view(lines@);
    push_line(lines, labeled(" uuid: ", bytes_text(&d.uuid).as_str()));
    push_line(lines, labeled(" price: ", u64_text(d.price).as_str()));
    push_line(lines, labeled(" symbol: ", bytes_text(&d.symbol).as_str()));
    push_line(lines, labeled(" seller_fee_basis_points: ", u64_text(d.seller_fee_basis_points as u64).as_str()));
    push_line(lines, labeled(" max_supply: ", u64_text(d.max_supply).as_str()));
    push_line(lines, labeled(" is_mutable: ", bool_str(d.is_mutable)));
    push_line(lines, labeled(" retain_authority: ", bool_str(d.retain_authority)));
    push_line(lines, labeled(" go_live_date: ", format_go_live_date(d.go_live_date).as_str()));
    assert(lines_view(lines@) =~= start + data_head_lines(d@));
}

fn push_data(lines: &mut Vec<String>, d: &CandyMachineData)
    ensures
        lines_view(final(lines)@) == lines_view(old(lines)@) + data_lines(d@),
{
    let ghost start = lines_view(lines@);
    let ghost m = d@;
    push_data_head(lines, d);
    push_end_settings(lines, d.end_settings);
    push_line(lines, String::from_str(" creators:"));
    push_creators(lines, &d.creators);
    assert(lines_view(lines@) =~= start + (data_head_lines(m) + end_settings_lines(m.end_settings)
        + seq![" creators:"@] + creator_lines(m.creators)));
    let ghost mid = lines_view(lines@);
    push_hidden(lines, &d.hidden_settings);
    push_whitelist(lines, &d.whitelist_mint_settings);
    push_line(lines, labeled(" items_available: ", u64_text(d.items_available).as_str()));
    push_gatekeeper(lines, &d.gatekeeper);
    assert(lines_view(lines@) =~= mid + (hidden_lines(m.hidden_settings) + whitelist_lines(
        m.whitelist_mint_settings) + seq![" items_available: "@ + dec_text(m.items_available as nat)]
        + gatekeeper_lines(m.gatekeeper)));
    assert(lines_view(lines@) =~= start + data_lines(m));
}

/// Renders a decoded record as labeled lines: one per field in declared order,
/// `None` for an absent optional field, and the fields of each present nested
/// record on indented lines below its label.
pub fn format(record: &CandyMachine) -> (r: Vec<String>)
    ensures
        lines_view(r@) == report(record@),
{
    let mut lines: Vec<String> = Vec::new();
    push_line(&mut lines, labeled("authority: ", key_text(&record.authority).as_str()));
    push_line(&mut lines, labeled("wallet: ", key_text(&record.wallet).as_str()));
    let mint = match &record.token_mint {
        None => String::from_str("None"),
        Some(k) => key_text(k),
    };
    push_line(&mut lines, labeled("token_mint: ", mint.as_str()));
    push_line(&mut lines, labeled("items_redeemed: ", u64_text(record.items_redeemed).as_str()));
    push_line(&mut lines, String::from_str("data"));
    let ghost head = lines_view(lines@);
    push_data(&mut lines, &record.data);
    assert(lines_view(lines@) =~= report(record@));
    lines
}

/// The go-live date as text: its decimal value, or `None`.
pub fn format_go_live_date(go_live_date: Option<i64>) -> (r: String)
    ensures
        r@ == opt_i64_text(go_live_date),
{
    match go_live_date {
        None => String::from_str("None"),
        Some(v) => i64_text(v),
    }
}

/// The creators' lines, one per creator in their order.
pub fn format_creators(creators: &Vec<Creator>) -> (r: Vec<String>)
    ensures
        lines_view(r@) == creator_lines(creators_view(creators@)),
{
    let mut lines: Vec<String> = Vec::new();
    push_creators(&mut lines, creators);
    assert(lines_view(lines@) =~= creator_lines(creators_view(creators@)));
    lines
}

/// The end settings' lines: `None`, or the kind and the number.
pub fn format_end_settings(end_settings: Option<EndSettings>) -> (r: Vec<String>)
    ensures
        lines_view(r@) == end_settings_lines(end_settings),
{
    let mut lines: Vec<String> = Vec::new();
    push_end_settings(&mut lines, end_settings);
    assert(lines_view(lines@) =~= end_settings_lines(end_settings));
    lines
}

/// The hidden settings' lines: `None`, or name, uri and hash.
pub fn format_hidden_settings(hidden_settings: &Option<HiddenSettings>) -> (r: Vec<String>)
    ensures
        lines_view(r@) == hidden_lines(match hidden_settings { Some(h) => Some(h@), None => None }),
{
    let mut lines: Vec<String> = Vec::new();
    push_hidden(&mut lines, hidden_settings);
    assert(lines_view(lines@) =~= hidden_lines(match hidden_settings { Some(h) => Some(h@), None => None }));
    lines
}

/// The whitelist settings' lines: `None`, or mode, mint, presale and discount price.
pub fn format_whitelist_mint_settings(settings: &Option<WhitelistMintSettings>) -> (r: Vec<String>)
    ensures
        lines_view(r@) == whitelist_lines(match settings { Some(w) => Some(w@), None => None }),
{
    let mut lines: Vec<String> = Vec::new();
    push_whitelist(&mut lines, settings);
    assert(lines_view(lines@) =~= whitelist_lines(match settings { Some(w) => Some(w@), None => None }));
    lines
}

/// The gatekeeper's lines: `None`, or the network and the expire-on-use flag.
pub fn format_gatekeeper(gatekeeper: &Option<GatekeeperConfig>) -> (r: Vec<String>)
    ensures
        lines_view(r@) == gatekeeper_lines(match gatekeeper { Some(g) => Some(g@), None => None }),
{
    let mut lines: Vec<String> = Vec::new();
    push_gatekeeper(&mut lines, gatekeeper);
    assert(lines_view(lines@) =~= gatekeeper_lines(match gatekeeper { Some(g) => Some(g@), None => None }));
    lines
}

} // verus!
