//! The account's wire layout, stated as a parser over byte sequences. Each
//! `parse_*` function reads one field at a position and gives the value and the
//! position after it, or the first error met.
use vstd::prelude::*;
use crate::record::{
    CreatorModel, DataModel, RecordModel, DecodeError, EndSettingType, EndSettings, GatekeeperModel, HiddenModel,
    WhitelistMintMode, WhitelistModel,
};

verus! {

/// The eight leading bytes that identify a candy-machine account.
pub open spec fn discriminator() -> Seq<u8> {
    seq![51u8, 173u8, 177u8, 113u8, 25u8, 241u8, 109u8, 189u8]
}

/// Length of the discriminator, the shortest header a record can have.
pub const HEADER_LEN: usize = 8;

/// Width of a public key.
pub const KEY_LEN: usize = 32;

/// The little-endian value of a byte sequence.
pub open spec fn le_nat(s: Seq<u8>) -> nat
    decreases s.len(),
{
    if s.len() == 0 {
        0
    } else {
        s[0] as nat + 256 * le_nat(s.drop_first())
    }
}

/// `256` to the power `n`: one more than the largest value of `n` bytes.
pub open spec fn pow256(n: nat) -> nat
    decreases n,
{
    if n == 0 { 1 } else { 256 * pow256((n - 1) as nat) }
}

/// `n` raw bytes.
pub open spec fn parse_raw(b: Seq<u8>, p: int, n: int) -> Result<(Seq<u8>, int), DecodeError> {
    if p + n <= b.len() {
        Ok((b.subrange(p, p + n), p + n))
    } else {
        Err(DecodeError::BufferUnderrun)
    }
}

/// An `n`-byte little-endian unsigned integer.
pub open spec fn parse_le(b: Seq<u8>, p: int, n: int) -> Result<(nat, int), DecodeError> {
    match parse_raw(b, p, n) {
        Ok((s, q)) => Ok((le_nat(s), q)),
        Err(e) => Err(e),
    }
}

pub open spec fn parse_u8(b: Seq<u8>, p: int) -> Result<(u8, int), DecodeError> {
    match parse_le(b, p, 1) {
        Ok((v, q)) => Ok((v as u8, q)),
        Err(e) => Err(e),
    }
}

pub open spec fn parse_u16(b: Seq<u8>, p: int) -> Result<(u16, int), DecodeError> {
    match parse_le(b, p, 2) {
        Ok((v, q)) => Ok((v as u16, q)),
        Err(e) => Err(e),
    }
}

pub open spec fn parse_u32(b: Seq<u8>, p: int) -> Result<(u32, int), DecodeError> {
    match parse_le(b, p, 4) {
        Ok((v, q)) => Ok((v as u32, q)),
        Err(e) => Err(e),
    }
}

pub open spec fn parse_u64(b: Seq<u8>, p: int) -> Result<(u64, int), DecodeError> {
    match parse_le(b, p, 8) {
        Ok((v, q)) => Ok((v as u64, q)),
        Err(e) => Err(e),
    }
}

/// A signed 64-bit integer in two's complement.
pub open spec fn parse_i64(b: Seq<u8>, p: int) -> Result<(i64, int), DecodeError> {
    match parse_u64(b, p) {
        Ok((v, q)) => Ok((
            (if v < 0x8000000000000000 { v as int } else { v - 0x10000000000000000 }) as i64,
            q,
        )),
        Err(e) => Err(e),
    }
}

/// A one-byte flag: 0 is false (or absent), 1 is true (or present).
pub open spec fn parse_flag(b: Seq<u8>, p: int) -> Result<(bool, int), DecodeError> {
    if p + 1 > b.len() {
        Err(DecodeError::BufferUnderrun)
    } else if b[p] == 0 {
        Ok((false, p + 1))
    } else if b[p] == 1 {
        Ok((true, p + 1))
    } else {
        Err(DecodeError::InvalidTag)
    }
}

pub open spec fn parse_key(b: Seq<u8>, p: int) -> Result<(Seq<u8>, int), DecodeError> {
    parse_raw(b, p, KEY_LEN as int)
}

/// A string: its byte length as a `u32`, then that many bytes.
pub open spec fn parse_string(b: Seq<u8>, p: int) -> Result<(Seq<u8>, int), DecodeError> {
    match parse_u32(b, p) {
        Ok((n, q)) => parse_raw(b, q, n as int),
        Err(e) => Err(e),
    }
}

pub open spec fn parse_opt_key(b: Seq<u8>, p: int) -> Result<(Option<Seq<u8>>, int), DecodeError> {
    match parse_flag(b, p) {
        Err(e) => Err(e),
        Ok((false, q)) => Ok((None, q)),
        Ok((true, q)) => match parse_key(b, q) {
            Ok((k, r)) => Ok((Some(k), r)),
            Err(e) => Err(e),
        },
    }
}

pub open spec fn parse_opt_u64(b: Seq<u8>, p: int) -> Result<(Option<u64>, int), DecodeError> {
    match parse_flag(b, p) {
        Err(e) => Err(e),
        Ok((false, q)) => Ok((None, q)),
        Ok((true, q)) => match parse_u64(b, q) {
            Ok((v, r)) => Ok((Some(v), r)),
            Err(e) => Err(e),
        },
    }
}

pub open spec fn parse_opt_i64(b: Seq<u8>, p: int) -> Result<(Option<i64>, int), DecodeError> {
    match parse_flag(b, p) {
        Err(e) => Err(e),
        Ok((false, q)) => Ok((None, q)),
        Ok((true, q)) => match parse_i64(b, q) {
            Ok((v, r)) => Ok((Some(v), r)),
            Err(e) => Err(e),
        },
    }
}

/// End settings: a one-byte kind (0 date, 1 amount), then a `u64`.
pub open spec fn parse_end_settings(b: Seq<u8>, p: int) -> Result<(EndSettings, int), DecodeError> {
    match parse_u8(b, p) {
        Err(e) => Err(e),
        Ok((t, q)) => if t > 1 {
            Err(DecodeError::UnknownVariant)
        } else {
            match parse_u64(b, q) {
                Err(e) => Err(e),
                Ok((n, r)) => Ok((
                    EndSettings {
                        end_setting_type: if t == 0 { EndSettingType::Date } else { EndSettingType::Amount },
                        number: n,
                    },
                    r,
                )),
            }
        },
    }
}

pub open spec fn parse_opt_end_settings(b: Seq<u8>, p: int) -> Result<(Option<EndSettings>, int), DecodeError> {
    match parse_flag(b, p) {
        Err(e) => Err(e),
        Ok((false, q)) => Ok((None, q)),
        Ok((true, q)) => match parse_end_settings(b, q) {
            Ok((v, r)) => Ok((Some(v), r)),
            Err(e) => Err(e),
        },
    }
}

/// A creator: key, verified flag, share byte.
pub open spec fn parse_creator(b: Seq<u8>, p: int) -> Result<(CreatorModel, int), DecodeError> {
    match parse_key(b, p) {
        Err(e) => Err(e),
        Ok((address, p1)) => match parse_flag(b, p1) {
            Err(e) => Err(e),
            Ok((verified, p2)) => match parse_u8(b, p2) {
                Err(e) => Err(e),
                Ok((share, p3)) => Ok((CreatorModel { address, verified, share }, p3)),
            },
        },
    }
}

/// `n` creators in a row.
pub open spec fn parse_creator_run(b: Seq<u8>, p: int, n: nat) -> Result<(Seq<CreatorModel>, int), DecodeError>
    decreases n,
{
    if n == 0 {
        Ok((Seq::empty(), p))
    } else {
        match parse_creator_run(b, p, (n - 1) as nat) {
            Err(e) => Err(e),
            Ok((cs, q)) => match parse_creator(b, q) {
                Err(e) => Err(e),
                Ok((c, r)) => Ok((cs.push(c), r)),
            },
        }
    }
}

/// The creators: their count as a `u32`, then that many creators.
pub open spec fn parse_creators(b: Seq<u8>, p: int) -> Result<(Seq<CreatorModel>, int), DecodeError> {
    match parse_u32(b, p) {
        Err(e) => Err(e),
        Ok((n, q)) => parse_creator_run(b, q, n as nat),
    }
}

/// Hidden settings: name, uri, then a 32-byte hash.
pub open spec fn parse_hidden(b: Seq<u8>, p: int) -> Result<(HiddenModel, int), DecodeError> {
    match parse_string(b, p) {
        Err(e) => Err(e),
        Ok((name, p1)) => match parse_string(b, p1) {
            Err(e) => Err(e),
            Ok((uri, p2)) => match parse_raw(b, p2, 32) {
                Err(e) => Err(e),
                Ok((hash, p3)) => Ok((HiddenModel { name, uri, hash }, p3)),
            },
        },
    }
}

pub open spec fn parse_opt_hidden(b: Seq<u8>, p: int) -> Result<(Option<HiddenModel>, int), DecodeError> {
    match parse_flag(b, p) {
        Err(e) => Err(e),
        Ok((false, q)) => Ok((None, q)),
        Ok((true, q)) => match parse_hidden(b, q) {
            Ok((v, r)) => Ok((Some(v), r)),
            Err(e) => Err(e),
        },
    }
}

/// Whitelist settings: a one-byte mode (0 burn every time, 1 never burn), the
/// mint key, the presale flag, then an optional discount price.
pub open spec fn parse_whitelist(b: Seq<u8>, p: int) -> Result<(WhitelistModel, int), DecodeError> {
    match parse_u8(b, p) {
        Err(e) => Err(e),
        Ok((m, p1)) => if m > 1 {
            Err(DecodeError::UnknownVariant)
        } else {
            match parse_key(b, p1) {
                Err(e) => Err(e),
                Ok((mint, p2)) => match parse_flag(b, p2) {
                    Err(e) => Err(e),
                    Ok((presale, p3)) => match parse_opt_u64(b, p3) {
                        Err(e) => Err(e),
                        Ok((discount_price, p4)) => Ok((
                            WhitelistModel {
                                mode: if m == 0 { WhitelistMintMode::BurnEveryTime } else { WhitelistMintMode::NeverBurn },
                                mint,
                                presale,
                                discount_price,
                            },
                            p4,
                        )),
                    },
                },
            }
        },
    }
}

pub open spec fn parse_opt_whitelist(b: Seq<u8>, p: int) -> Result<(Option<WhitelistModel>, int), DecodeError> {
    match parse_flag(b, p) {
        Err(e) => Err(e),
        Ok((false, q)) => Ok((None, q)),
        Ok((true, q)) => match parse_whitelist(b, q) {
            Ok((v, r)) => Ok((Some(v), r)),
            Err(e) => Err(e),
        },
    }
}

/// Gatekeeper: network key, then the expire-on-use flag.
pub open spec fn parse_gatekeeper(b: Seq<u8>, p: int) -> Result<(GatekeeperModel, int), DecodeError> {
    match parse_key(b, p) {
        Err(e) => Err(e),
        Ok((gatekeeper_network, p1)) => match parse_flag(b, p1) {
            Err(e) => Err(e),
            Ok((expire_on_use, p2)) => Ok((GatekeeperModel { gatekeeper_network, expire_on_use }, p2)),
        },
    }
}

pub open spec fn parse_opt_gatekeeper(b: Seq<u8>, p: int) -> Result<(Option<GatekeeperModel>, int), DecodeError> {
    match parse_flag(b, p) {
        Err(e) => Err(e),
        Ok((false, q)) => Ok((None, q)),
        Ok((true, q)) => match parse_gatekeeper(b, q) {
            Ok((v, r)) => Ok((Some(v), r)),
            Err(e) => Err(e),
        },
    }
}

/// The sale configuration, field by field in declared order.
pub open spec fn parse_data(b: Seq<u8>, p: int) -> Result<(DataModel, int), DecodeError> {
    match parse_string(b, p) { Err(e) => Err(e), Ok((uuid, p1)) =>
    match parse_u64(b, p1) { Err(e) => Err(e), Ok((price, p2)) =>
    match parse_string(b, p2) { Err(e) => Err(e), Ok((symbol, p3)) =>
    match parse_u16(b, p3) { Err(e) => Err(e), Ok((seller_fee_basis_points, p4)) =>
    match parse_u64(b, p4) { Err(e) => Err(e), Ok((max_supply, p5)) =>
    match parse_flag(b, p5) { Err(e) => Err(e), Ok((is_mutable, p6)) =>
    match parse_flag(b, p6) { Err(e) => Err(e), Ok((retain_authority, p7)) =>
    match parse_opt_i64(b, p7) { Err(e) => Err(e), Ok((go_live_date, p8)) =>
    match parse_opt_end_settings(b, p8) { Err(e) => Err(e), Ok((end_settings, p9)) =>
    match parse_creators(b, p9) { Err(e) => Err(e), Ok((creators, p10)) =>
    match parse_opt_hidden(b, p10) { Err(e) => Err(e), Ok((hidden_settings, p11)) =>
    match parse_opt_whitelist(b, p11) { Err(e) => Err(e), Ok((whitelist_mint_settings, p12)) =>
    match parse_u64(b, p12) { Err(e) => Err(e), Ok((items_available, p13)) =>
    match parse_opt_gatekeeper(b, p13) { Err(e) => Err(e), Ok((gatekeeper, p14)) =>
    Ok((
        DataModel {
            uuid,
            price,
            symbol,
            seller_fee_basis_points,
            max_supply,
            is_mutable,
            retain_authority,
            go_live_date,
            end_settings,
            creators,
            hidden_settings,
            whitelist_mint_settings,
            items_available,
            gatekeeper,
        },
        p14,
    ))
    }}}}}}}}}}}}}}
}

/// The fields of a candy machine after the discriminator.
pub open spec fn parse_body(b: Seq<u8>, p: int) -> Result<(RecordModel, int), DecodeError> {
    match parse_key(b, p) { Err(e) => Err(e), Ok((authority, p1)) =>
    match parse_key(b, p1) { Err(e) => Err(e), Ok((wallet, p2)) =>
    match parse_opt_key(b, p2) { Err(e) => Err(e), Ok((token_mint, p3)) =>
    match parse_u64(b, p3) { Err(e) => Err(e), Ok((items_redeemed, p4)) =>
    match parse_data(b, p4) { Err(e) => Err(e), Ok((data, p5)) =>
    Ok((RecordModel { authority, wallet, token_mint, items_redeemed, data }, p5))
    }}}}}
}

/// A whole account: the discriminator is checked before any field is read;
/// bytes after the record are ignored.
pub open spec fn parse_account(b: Seq<u8>) -> Result<(RecordModel, int), DecodeError> {
    if b.len() < HEADER_LEN {
        Err(DecodeError::BufferUnderrun)
    } else if b.subrange(0, HEADER_LEN as int) != discriminator() {
        Err(DecodeError::WrongDiscriminator)
    } else {
        parse_body(b, HEADER_LEN as int)
    }
}

/// What decoding a buffer gives: the record, or the first error met.
pub open spec fn decoded(b: Seq<u8>) -> Result<RecordModel, DecodeError> {
    match parse_account(b) {
        Ok((r, _)) => Ok(r),
        Err(e) => Err(e),
    }
}

} // verus!
