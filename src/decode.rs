//! The decoder: a single forward pass over a borrowed buffer with a cursor,
//! each reader proved to agree with the layout's parser.
use vstd::prelude::*;
use crate::layout::{
    HEADER_LEN, KEY_LEN, decoded, discriminator, le_nat, pow256, parse_account, parse_body, parse_creator,
    parse_creator_run, parse_creators, parse_data, parse_end_settings, parse_flag, parse_gatekeeper,
    parse_hidden, parse_i64, parse_key, parse_le, parse_opt_end_settings, parse_opt_gatekeeper,
    parse_opt_hidden, parse_opt_i64, parse_opt_key, parse_opt_u64, parse_opt_whitelist, parse_raw,
    parse_string, parse_u16, parse_u32, parse_u64, parse_u8, parse_whitelist,
};
use crate::record::{
    CandyMachine, CandyMachineData, Creator, CreatorModel, DecodeError, EndSettingType, EndSettings,
    GatekeeperConfig, HiddenSettings, WhitelistMintMode, WhitelistMintSettings, creators_view,
};

verus! {

/// A reader's result agrees with the parser's, for values that are their own model.
pub open spec fn agrees<A>(r: Result<(A, usize), DecodeError>, s: Result<(A, int), DecodeError>) -> bool {
    match (r, s) {
        (Ok((v, q)), Ok((w, t))) => w == v && t == q as int,
        (Err(e), Err(f)) => e == f,
        _ => false,
    }
}

/// A reader's result agrees with the parser's, through the value's view.
pub open spec fn agrees_view<A: View>(r: Result<(A, usize), DecodeError>, s: Result<(A::V, int), DecodeError>) -> bool {
    match (r, s) {
        (Ok((v, q)), Ok((w, t))) => w == v@ && t == q as int,
        (Err(e), Err(f)) => e == f,
        _ => false,
    }
}

proof fn lemma_pow256_mono(i: nat, j: nat)
    requires
        i <= j,
    ensures
        pow256(i) <= pow256(j),
    decreases j,
{
    if i < j {
        lemma_pow256_mono(i, (j - 1) as nat);
    }
}

/// Reads an `n`-byte little-endian unsigned integer.
fn read_le(b: &[u8], p: usize, n: usize) -> (r: Result<(u64, usize), DecodeError>)
    requires
        p <= b@.len(),
        1 <= n <= 8,
    ensures
        match (r, parse_le(b@, p as int, n as int)) {
            (Ok((v, q)), Ok((w, t))) => w == v as nat && t == q as int && v < pow256(n as nat),
            (Err(e), Err(f)) => e == f,
            _ => false,
        },
{
    if n > b.len() - p {
        return Err(DecodeError::BufferUnderrun);
    }
    let end: usize = p + n;
    let mut acc: u64 = 0;
    let mut k: usize = n;
    while k > 0
        invariant
            end == p + n,
            p + n <= b@.len(),
            k <= n <= 8,
            acc as nat == le_nat(b@.subrange(p + k, p + n)),
            acc < pow256((n - k) as nat),
        decreases k,
    {
        k = k - 1;
        let ghost s = b@.subrange(p + k, p + n);
        assert(s.drop_first() =~= b@.subrange(p + k + 1, p + n));
        assert(s[0] == b@[p + k]);
        let ghost j: nat = (n - k - 1) as nat;
        proof {
            lemma_pow256_mono(j, 7);
            reveal_with_fuel(pow256, 8);
            assert(pow256(j + 1) == 256 * pow256(j));
            assert(acc * 256 + 255 < 256 * pow256(j)) by (nonlinear_arith)
                requires acc < pow256(j);
            assert(256 * pow256(j) <= 256 * pow256(7)) by (nonlinear_arith)
                requires pow256(j) <= pow256(7);
        }
        acc = acc * 256 + b[p + k] as u64;
    }
    Ok((acc, p + n))
}

/// Reads `n` raw bytes.
fn read_raw(b: &[u8], p: usize, n: usize) -> (r: Result<(Vec<u8>, usize), DecodeError>)
    requires
        p <= b@.len(),
    ensures
        agrees_view(r, parse_raw(b@, p as int, n as int)),
{
    if n > b.len() - p {
        return Err(DecodeError::BufferUnderrun);
    }
    let end: usize = p + n;
    let mut out: Vec<u8> = Vec::new();
    let mut i: usize = 0;
    while i < n
        invariant
            end == p + n,
            p + n <= b@.len(),
            i <= n,
            out@ == b@.subrange(p as int, p + i),
        decreases n - i,
    {
        out.push(b[p + i]);
        i = i + 1;
        assert(out@ =~= b@.subrange(p as int, p + i));
    }
    Ok((out, p + n))
}

fn read_u8(b: &[u8], p: usize) -> (r: Result<(u8, usize), DecodeError>)
    requires
        p <= b@.len(),
    ensures
        agrees(r, parse_u8(b@, p as int)),
{
    match read_le(b, p, 1) {
        Ok((v, q)) => Ok((v as u8, q)),
        Err(e) => Err(e),
    }
}

fn read_u16(b: &[u8], p: usize) -> (r: Result<(u16, usize), DecodeError>)
    requires
        p <= b@.len(),
    ensures
        agrees(r, parse_u16(b@, p as int)),
{
    match read_le(b, p, 2) {
        Ok((v, q)) => Ok((v as u16, q)),
        Err(e) => Err(e),
    }
}

fn read_u32(b: &[u8], p: usize) -> (r: Result<(u32, usize), DecodeError>)
    requires
        p <= b@.len(),
    ensures
        agrees(r, parse_u32(b@, p as int)),
        r matches Ok((_, q)) ==> q <= b@.len(),
{
    match read_le(b, p, 4) {
        Ok((v, q)) => Ok((v as u32, q)),
        Err(e) => Err(e),
    }
}

fn read_u64(b: &[u8], p: usize) -> (r: Result<(u64, usize), DecodeError>)
    requires
        p <= b@.len(),
    ensures
        agrees(r, parse_u64(b@, p as int)),
{
    match read_le(b, p, 8) {
        Ok((v, q)) => Ok((v, q)),
        Err(e) => Err(e),
    }
}

fn read_i64(b: &[u8], p: usize) -> (r: Result<(i64, usize), DecodeError>)
    requires
        p <= b@.len(),
    ensures
        agrees(r, parse_i64(b@, p as int)),
{
    match read_u64(b, p) {
        Ok((v, q)) => {
            let x: i64 = if v < 0x8000_0000_0000_0000 {
                v as i64
            } else {
                (v - 0x8000_0000_0000_0000) as i64 - 0x7fff_ffff_ffff_ffff - 1
            };
            Ok((x, q))
        },
        Err(e) => Err(e),
    }
}

fn read_flag(b: &[u8], p: usize) -> (r: Result<(bool, usize), DecodeError>)
    requires
        p <= b@.len(),
    ensures
        agrees(r, parse_flag(b@, p as int)),
{
    if p >= b.len() {
        Err(DecodeError::BufferUnderrun)
    } else if b[p] == 0 {
        Ok((false, p + 1))
    } else if b[p] == 1 {
        Ok((true, p + 1))
    } else {
        Err(DecodeError::InvalidTag)
    }
}

fn read_key(b: &[u8], p: usize) -> (r: Result<(Vec<u8>, usize), DecodeError>)
    requires
        p <= b@.len(),
    ensures
        agrees_view(r, parse_key(b@, p as int)),
{
    read_raw(b, p, KEY_LEN)
}

fn read_string(b: &[u8], p: usize) -> (r: Result<(Vec<u8>, usize), DecodeError>)
    requires
        p <= b@.len(),
    ensures
        agrees_view(r, parse_string(b@, p as int)),
{
    match read_u32(b, p) {
        Ok((n, q)) => read_raw(b, q, n as usize),
        Err(e) => Err(e),
    }
}

fn read_opt_key(b: &[u8], p: usize) -> (r: Result<(Option<Vec<u8>>, usize), DecodeError>)
    requires
        p <= b@.len(),
    ensures
        match (r, parse_opt_key(b@, p as int)) {
            (Ok((None, q)), Ok((None, t))) => t == q as int,
            (Ok((Some(k), q)), Ok((Some(w), t))) => w == k@ && t == q as int,
            (Err(e), Err(f)) => e == f,
            _ => false,
        },
{
    match read_flag(b, p) {
        Err(e) => Err(e),
        Ok((false, q)) => Ok((None, q)),
        Ok((true, q)) => match read_key(b, q) {
            Ok((k, t)) => Ok((Some(k), t)),
            Err(e) => Err(e),
        },
    }
}

fn read_opt_u64(b: &[u8], p: usize) -> (r: Result<(Option<u64>, usize), DecodeError>)
    requires
        p <= b@.len(),
    ensures
        agrees(r, parse_opt_u64(b@, p as int)),
{
    match read_flag(b, p) {
        Err(e) => Err(e),
        Ok((false, q)) => Ok((None, q)),
        Ok((true, q)) => match read_u64(b, q) {
            Ok((v, t)) => Ok((Some(v), t)),
            Err(e) => Err(e),
        },
    }
}

fn read_opt_i64(b: &[u8], p: usize) -> (r: Result<(Option<i64>, usize), DecodeError>)
    requires
        p <= b@.len(),
    ensures
        agrees(r, parse_opt_i64(b@, p as int)),
{
    match read_flag(b, p) {
        Err(e) => Err(e),
        Ok((false, q)) => Ok((None, q)),
        Ok((true, q)) => match read_i64(b, q) {
            Ok((v, t)) => Ok((Some(v), t)),
            Err(e) => Err(e),
        },
    }
}

fn read_end_settings(b: &[u8], p: usize) -> (r: Result<(EndSettings, usize), DecodeError>)
    requires
        p <= b@.len(),
    ensures
        agrees(r, parse_end_settings(b@, p as int)),
{
    match read_u8(b, p) {
        Err(e) => Err(e),
        Ok((t, q)) => {
            if t > 1 {
                Err(DecodeError::UnknownVariant)
            } else {
                match read_u64(b, q) {
                    Err(e) => Err(e),
                    Ok((number, r)) => {
                        let end_setting_type = if t == 0 {
                            EndSettingType::Date
                        } else {
                            EndSettingType::Amount
                        };
                        Ok((EndSettings { end_setting_type, number }, r))
                    },
                }
            }
        },
    }
}

fn read_opt_end_settings(b: &[u8], p: usize) -> (r: Result<(Option<EndSettings>, usize), DecodeError>)
    requires
        p <= b@.len(),
    ensures
        agrees(r, parse_opt_end_settings(b@, p as int)),
{
    match read_flag(b, p) {
        Err(e) => Err(e),
        Ok((false, q)) => Ok((None, q)),
        Ok((true, q)) => match read_end_settings(b, q) {
            Ok((v, t)) => Ok((Some(v), t)),
            Err(e) => Err(e),
        },
    }
}

fn read_creator(b: &[u8], p: usize) -> (r: Result<(Creator, usize), DecodeError>)
    requires
        p <= b@.len(),
    ensures
        agrees_view(r, parse_creator(b@, p as int)),
{
    match read_key(b, p) {
        Err(e) => Err(e),
        Ok((address, p1)) => match read_flag(b, p1) {
            Err(e) => Err(e),
            Ok((verified, p2)) => match read_u8(b, p2) {
                Err(e) => Err(e),
                Ok((share, p3)) => Ok((Creator { address, verified, share }, p3)),
            },
        },
    }
}

/// Once a run of creators fails, every longer run fails with the same error.
proof fn lemma_creator_run_err(b: Seq<u8>, p: int, i: nat, n: nat)
    requires
        i <= n,
        parse_creator_run(b, p, i) is Err,
    ensures
        parse_creator_run(b, p, n) == parse_creator_run(b, p, i),
    decreases n,
{
    if i < n {
        lemma_creator_run_err(b, p, i, (n - 1) as nat);
    }
}

fn read_creators(b: &[u8], p: usize) -> (r: Result<(Vec<Creator>, usize), DecodeError>)
    requires
        p <= b@.len(),
    ensures
        match (r, parse_creators(b@, p as int)) {
            (Ok((cs, q)), Ok((w, t))) => w == creators_view(cs@) && t == q as int,
            (Err(e), Err(f)) => e == f,
            _ => false,
        },
{
    let (n, q0) = match read_u32(b, p) {
        Ok(x) => x,
        Err(e) => return Err(e),
    };
    let mut out: Vec<Creator> = Vec::new();
    let mut q: usize = q0;
    let mut i: u32 = 0;
    assert(creators_view(out@) =~= Seq::<CreatorModel>::empty());
    while i < n
        invariant
            i <= n,
            q <= b@.len(),
            parse_u32(b@, p as int) == Ok::<(u32, int), DecodeError>((n, q0 as int)),
            parse_creator_run(b@, q0 as int, i as nat) == Ok::<(Seq<CreatorModel>, int), DecodeError>(
                (creators_view(out@), q as int)),
        decreases n - i,
    {
        match read_creator(b, q) {
            Err(e) => {
                proof {
                    lemma_creator_run_err(b@, q0 as int, (i + 1) as nat, n as nat);
                }
                return Err(e);
            },
            Ok((c, t)) => {
                let ghost before = out@;
                out.push(c);
                assert(creators_view(out@) =~= creators_view(before).push(c@));
                q = t;
                i = i + 1;
            },
        }
    }
    Ok((out, q))
}

fn read_hidden(b: &[u8], p: usize) -> (r: Result<(HiddenSettings, usize), DecodeError>)
    requires
        p <= b@.len(),
    ensures
        agrees_view(r, parse_hidden(b@, p as int)),
{
    match read_string(b, p) {
        Err(e) => Err(e),
        Ok((name, p1)) => match read_string(b, p1) {
            Err(e) => Err(e),
            Ok((uri, p2)) => match read_raw(b, p2, 32) {
                Err(e) => Err(e),
                Ok((hash, p3)) => Ok((HiddenSettings { name, uri, hash }, p3)),
            },
        },
    }
}

fn read_opt_hidden(b: &[u8], p: usize) -> (r: Result<(Option<HiddenSettings>, usize), DecodeError>)
    requires
        p <= b@.len(),
    ensures
        match (r, parse_opt_hidden(b@, p as int)) {
            (Ok((None, q)), Ok((None, t))) => t == q as int,
            (Ok((Some(h), q)), Ok((Some(w), t))) => w == h@ && t == q as int,
            (Err(e), Err(f)) => e == f,
            _ => false,
        },
{
    match read_flag(b, p) {
        Err(e) => Err(e),
        Ok((false, q)) => Ok((None, q)),
        Ok((true, q)) => match read_hidden(b, q) {
            Ok((v, t)) => Ok((Some(v), t)),
            Err(e) => Err(e),
        },
    }
}

fn read_whitelist(b: &[u8], p: usize) -> (r: Result<(WhitelistMintSettings, usize), DecodeError>)
    requires
        p <= b@.len(),
    ensures
        agrees_view(r, parse_whitelist(b@, p as int)),
{
    match read_u8(b, p) {
        Err(e) => Err(e),
        Ok((m, p1)) => {
            if m > 1 {
                Err(DecodeError::UnknownVariant)
            } else {
                match read_key(b, p1) {
                    Err(e) => Err(e),
                    Ok((mint, p2)) => match read_flag(b, p2) {
                        Err(e) => Err(e),
                        Ok((presale, p3)) => match read_opt_u64(b, p3) {
                            Err(e) => Err(e),
                            Ok((discount_price, p4)) => {
                                let mode = if m == 0 {
                                    WhitelistMintMode::BurnEveryTime
                                } else {
                                    WhitelistMintMode::NeverBurn
                                };
                                Ok((WhitelistMintSettings { mode, mint, presale, discount_price }, p4))
                            },
                        },
                    },
                }
            }
        },
    }
}

fn read_opt_whitelist(b: &[u8], p: usize) -> (r: Result<(Option<WhitelistMintSettings>, usize), DecodeError>)
    requires
        p <= b@.len(),
    ensures
        match (r, parse_opt_whitelist(b@, p as int)) {
            (Ok((None, q)), Ok((None, t))) => t == q as int,
            (Ok((Some(h), q)), Ok((Some(w), t))) => w == h@ && t == q as int,
            (Err(e), Err(f)) => e == f,
            _ => false,
        },
{
    match read_flag(b, p) {
        Err(e) => Err(e),
        Ok((false, q)) => Ok((None, q)),
        Ok((true, q)) => match read_whitelist(b, q) {
            Ok((v, t)) => Ok((Some(v), t)),
            Err(e) => Err(e),
        },
    }
}

fn read_gatekeeper(b: &[u8], p: usize) -> (r: Result<(GatekeeperConfig, usize), DecodeError>)
    requires
        p <= b@.len(),
    ensures
        agrees_view(r, parse_gatekeeper(b@, p as int)),
{
    match read_key(b, p) {
        Err(e) => Err(e),
        Ok((gatekeeper_network, p1)) => match read_flag(b, p1) {
            Err(e) => Err(e),
            Ok((expire_on_use, p2)) => Ok((GatekeeperConfig { gatekeeper_network, expire_on_use }, p2)),
        },
    }
}

fn read_opt_gatekeeper(b: &[u8], p: usize) -> (r: Result<(Option<GatekeeperConfig>, usize), DecodeError>)
    requires
        p <= b@.len(),
    ensures
        match (r, parse_opt_gatekeeper(b@, p as int)) {
            (Ok((None, q)), Ok((None, t))) => t == q as int,
            (Ok((Some(h), q)), Ok((Some(w), t))) => w == h@ && t == q as int,
            (Err(e), Err(f)) => e == f,
            _ => false,
        },
{
    match read_flag(b, p) {
        Err(e) => Err(e),
        Ok((false, q)) => Ok((None, q)),
        Ok((true, q)) => match read_gatekeeper(b, q) {
            Ok((v, t)) => Ok((Some(v), t)),
            Err(e) => Err(e),
        },
    }
}

fn read_data(b: &[u8], p: usize) -> (r: Result<(CandyMachineData, usize), DecodeError>)
    requires
        p <= b@.len(),
    ensures
        agrees_view(r, parse_data(b@, p as int)),
{
    let (uuid, p1) = match read_string(b, p) { Ok(x) => x, Err(e) => return Err(e) };
    let (price, p2) = match read_u64(b, p1) { Ok(x) => x, Err(e) => return Err(e) };
    let (symbol, p3) = match read_string(b, p2) { Ok(x) => x, Err(e) => return Err(e) };
    let (seller_fee_basis_points, p4) = match read_u16(b, p3) { Ok(x) => x, Err(e) => return Err(e) };
    let (max_supply, p5) = match read_u64(b, p4) { Ok(x) => x, Err(e) => return Err(e) };
    let (is_mutable, p6) = match read_flag(b, p5) { Ok(x) => x, Err(e) => return Err(e) };
    let (retain_authority, p7) = match read_flag(b, p6) { Ok(x) => x, Err(e) => return Err(e) };
    let (go_live_date, p8) = match read_opt_i64(b, p7) { Ok(x) => x, Err(e) => return Err(e) };
    let (end_settings, p9) = match read_opt_end_settings(b, p8) { Ok(x) => x, Err(e) => return Err(e) };
    let (creators, p10) = match read_creators(b, p9) { Ok(x) => x, Err(e) => return Err(e) };
    let (hidden_settings, p11) = match read_opt_hidden(b, p10) { Ok(x) => x, Err(e) => return Err(e) };
    let (whitelist_mint_settings, p12) = match read_opt_whitelist(b, p11) { Ok(x) => x, Err(e) => return Err(e) };
    let (items_available, p13) = match read_u64(b, p12) { Ok(x) => x, Err(e) => return Err(e) };
    let (gatekeeper, p14) = match read_opt_gatekeeper(b, p13) { Ok(x) => x, Err(e) => return Err(e) };
    Ok((
        CandyMachineData {
            uuid,
            price,
            symbol,
            seller_fee_basis_points,
            max_supply,
            is_mutable,
            retain_authority,
            go_live_date,
            end_settings,
            creators,
            hidden_settings,
            whitelist_mint_settings,
            items_available,
            gatekeeper,
        },
        p14,
    ))
}

fn read_body(b: &[u8], p: usize) -> (r: Result<(CandyMachine, usize), DecodeError>)
    requires
        p <= b@.len(),
    ensures
        agrees_view(r, parse_body(b@, p as int)),
{
    let (authority, p1) = match read_key(b, p) { Ok(x) => x, Err(e) => return Err(e) };
    let (wallet, p2) = match read_key(b, p1) { Ok(x) => x, Err(e) => return Err(e) };
    let (token_mint, p3) = match read_opt_key(b, p2) { Ok(x) => x, Err(e) => return Err(e) };
    let (items_redeemed, p4) = match read_u64(b, p3) { Ok(x) => x, Err(e) => return Err(e) };
    let (data, p5) = match read_data(b, p4) { Ok(x) => x, Err(e) => return Err(e) };
    Ok((CandyMachine { authority, wallet, token_mint, items_redeemed, data }, p5))
}

/// Whether the buffer starts with the candy-machine discriminator.
fn has_discriminator(b: &[u8]) -> (r: bool)
    requires
        b@.len() >= HEADER_LEN,
    ensures
        r == (b@.subrange(0, HEADER_LEN as int) == discriminator()),
{
    let r = b[0] == 51 && b[1] == 173 && b[2] == 177 && b[3] == 113 && b[4] == 25 && b[5] == 241
        && b[6] == 109 && b[7] == 189;
    assert(r == (b@.subrange(0, HEADER_LEN as int) =~= discriminator()));
    r
}

/// Decodes a candy-machine account and gives the position just after the
/// record, the logical end of the layout. The discriminator is checked before
/// any field is read; bytes after the record are left unread.
pub fn decode_with_end(bytes: &[u8]) -> (r: Result<(CandyMachine, usize), DecodeError>)
    ensures
        agrees_view(r, parse_account(bytes@)),
{
    if bytes.len() < HEADER_LEN {
        return Err(DecodeError::BufferUnderrun);
    }
    if !has_discriminator(bytes) {
        return Err(DecodeError::WrongDiscriminator);
    }
    read_body(bytes, HEADER_LEN)
}

/// Decodes a candy-machine account: the record that the layout gives, or the
/// first error met while reading it.
pub fn decode(bytes: &[u8]) -> (r: Result<CandyMachine, DecodeError>)
    ensures
        match (r, decoded(bytes@)) {
            (Ok(m), Ok(w)) => w == m@,
            (Err(e), Err(f)) => e == f,
            _ => false,
        },
{
    match decode_with_end(bytes) {
        Ok((m, _)) => Ok(m),
        Err(e) => Err(e),
    }
}

} // verus!
