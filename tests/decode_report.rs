use candy_report::decode::{decode, decode_with_end};
use candy_report::defaults::{
    default_public_candy_machine_address, default_public_candy_machine_name, default_rpc_url,
};
use candy_report::record::{
    CandyMachine, CandyMachineData, Creator, DecodeError, EndSettingType, EndSettings,
    GatekeeperConfig, HiddenSettings, WhitelistMintMode, WhitelistMintSettings,
};
use candy_report::report::{
    creator_line, format_creators, format_end_settings, format_gatekeeper,
    format_go_live_date, format_hidden_settings, format_whitelist_mint_settings, labeled,
};
use candy_report::text::{byte_list, bytes_text, i64_text, key_text, u64_text};

const DISC: [u8; 8] = [51, 173, 177, 113, 25, 241, 109, 189];
const ZERO_KEY: &str = "11111111111111111111111111111111";
const ONES_KEY: &str = "4vJ9JU1bJJE96FWSJKvHsmmFADCg4gpZQff4P3bkLKi";
const TWOS_KEY: &str = "8qbHbw2BbbTHBW1sbeqakYXVKRQM8Ne7pLK7m6CVfeR";
const THREES_KEY: &str = "CktRuQ2mttgRGkXJtyksdKHjUdc2C4TgDzyB98oEzy8";

fn string_bytes(out: &mut Vec<u8>, s: &str) {
    out.extend_from_slice(&(s.len() as u32).to_le_bytes());
    out.extend_from_slice(s.as_bytes());
}

/// Discriminator, zero keys, no token mint, no optionals, the given creators.
fn minimal_buffer(creators: &[([u8; 32], u8, u8)]) -> Vec<u8> {
    let mut b = DISC.to_vec();
    b.extend_from_slice(&[0u8; 32]);
    b.extend_from_slice(&[0u8; 32]);
    b.push(0);
    b.extend_from_slice(&0u64.to_le_bytes());
    string_bytes(&mut b, "");
    b.extend_from_slice(&0u64.to_le_bytes());
    string_bytes(&mut b, "");
    b.extend_from_slice(&0u16.to_le_bytes());
    b.extend_from_slice(&0u64.to_le_bytes());
    b.push(0);
    b.push(0);
    b.push(0);
    b.push(0);
    b.extend_from_slice(&(creators.len() as u32).to_le_bytes());
    for (address, verified, share) in creators {
        b.extend_from_slice(address);
        b.push(*verified);
        b.push(*share);
    }
    b.push(0);
    b.push(0);
    b.extend_from_slice(&0u64.to_le_bytes());
    b.push(0);
    b
}

fn full_buffer() -> Vec<u8> {
    let mut b = DISC.to_vec();
    b.extend_from_slice(&[1u8; 32]);
    b.extend_from_slice(&[2u8; 32]);
    b.push(1);
    b.extend_from_slice(&[3u8; 32]);
    b.extend_from_slice(&7u64.to_le_bytes());
    string_bytes(&mut b, "ABC123");
    b.extend_from_slice(&1_000_000_000u64.to_le_bytes());
    string_bytes(&mut b, "CANDY");
    b.extend_from_slice(&500u16.to_le_bytes());
    b.extend_from_slice(&0u64.to_le_bytes());
    b.push(1);
    b.push(0);
    b.push(1);
    b.extend_from_slice(&(-5i64).to_le_bytes());
    b.push(1);
    b.push(1);
    b.extend_from_slice(&42u64.to_le_bytes());
    b.extend_from_slice(&2u32.to_le_bytes());
    b.extend_from_slice(&[1u8; 32]);
    b.push(1);
    b.push(60);
    b.extend_from_slice(&[2u8; 32]);
    b.push(0);
    b.push(40);
    b.push(1);
    string_bytes(&mut b, "Hidden");
    string_bytes(&mut b, "https://x.y/z");
    b.extend_from_slice(&[9u8; 32]);
    b.push(1);
    b.push(1);
    b.extend_from_slice(&[3u8; 32]);
    b.push(1);
    b.push(1);
    b.extend_from_slice(&250u64.to_le_bytes());
    b.extend_from_slice(&100u64.to_le_bytes());
    b.push(1);
    b.extend_from_slice(&[0u8; 32]);
    b.push(1);
    b
}

fn lines(r: &CandyMachine) -> Vec<String> {
    candy_report::report::format(r)
}

#[test]
fn minimal_record_reports_none() {
    let b = minimal_buffer(&[]);
    let r = decode(&b).unwrap();
    let expected: Vec<String> = vec![
        format!("authority: {}", ZERO_KEY),
        format!("wallet: {}", ZERO_KEY),
        "token_mint: None".to_string(),
        "items_redeemed: 0".to_string(),
        "data".to_string(),
        " uuid: ".to_string(),
        " price: 0".to_string(),
        " symbol: ".to_string(),
        " seller_fee_basis_points: 0".to_string(),
        " max_supply: 0".to_string(),
        " is_mutable: false".to_string(),
        " retain_authority: false".to_string(),
        " go_live_date: None".to_string(),
        " end_settings: None".to_string(),
        " creators:".to_string(),
        " hidden_settings: None".to_string(),
        " whitelist_mint_settings: None".to_string(),
        " items_available: 0".to_string(),
        " gatekeeper: None".to_string(),
    ];
    assert_eq!(lines(&r), expected);
}

#[test]
fn single_creator_line() {
    let b = minimal_buffer(&[([1u8; 32], 1, 100)]);
    let r = decode(&b).unwrap();
    let out = lines(&r);
    assert_eq!(out[14], " creators:");
    assert_eq!(out[15], format!("  address: {}; verified: true; share: 100", ONES_KEY));
    assert_eq!(out.len(), 20);
}

#[test]
fn creators_keep_their_order() {
    let b = minimal_buffer(&[([2u8; 32], 0, 30), ([1u8; 32], 1, 70)]);
    let r = decode(&b).unwrap();
    let out = format_creators(&r.data.creators);
    assert_eq!(
        out,
        vec![
            format!("  address: {}; verified: false; share: 30", TWOS_KEY),
            format!("  address: {}; verified: true; share: 70", ONES_KEY),
        ]
    );
}

#[test]
fn full_record_reports_every_field() {
    let b = full_buffer();
    let r = decode(&b).unwrap();
    let expected: Vec<String> = vec![
        format!("authority: {}", ONES_KEY),
        format!("wallet: {}", TWOS_KEY),
        format!("token_mint: {}", THREES_KEY),
        "items_redeemed: 7".to_string(),
        "data".to_string(),
        " uuid: ABC123".to_string(),
        " price: 1000000000".to_string(),
        " symbol: CANDY".to_string(),
        " seller_fee_basis_points: 500".to_string(),
        " max_supply: 0".to_string(),
        " is_mutable: true".to_string(),
        " retain_authority: false".to_string(),
        " go_live_date: -5".to_string(),
        " end_settings:".to_string(),
        "  end_setting_type: Amount".to_string(),
        "  number: 42".to_string(),
        " creators:".to_string(),
        format!("  address: {}; verified: true; share: 60", ONES_KEY),
        format!("  address: {}; verified: false; share: 40", TWOS_KEY),
        " hidden_settings:".to_string(),
        "  name: Hidden".to_string(),
        "  uri: https://x.y/z".to_string(),
        format!("  hash: [{}]", vec!["9"; 32].join(", ")),
        " whitelist_mint_settings:".to_string(),
        "  mode: NeverBurn".to_string(),
        format!("  mint: {}", THREES_KEY),
        "  presale: true".to_string(),
        "  discount_price: 250".to_string(),
        " items_available: 100".to_string(),
        " gatekeeper:".to_string(),
        format!("  gatekeeper_network: {}", ZERO_KEY),
        "  expire_on_use: true".to_string(),
    ];
    assert_eq!(lines(&r), expected);
}

#[test]
fn full_record_fields_decoded() {
    let b = full_buffer();
    let (r, end) = decode_with_end(&b).unwrap();
    assert_eq!(end, b.len());
    assert_eq!(r.authority, vec![1u8; 32]);
    assert_eq!(r.token_mint, Some(vec![3u8; 32]));
    assert_eq!(r.data.seller_fee_basis_points, 500);
    assert_eq!(r.data.go_live_date, Some(-5));
    assert_eq!(
        r.data.end_settings,
        Some(EndSettings { end_setting_type: EndSettingType::Amount, number: 42 })
    );
    let w = r.data.whitelist_mint_settings.clone().unwrap();
    assert_eq!(w.mode, WhitelistMintMode::NeverBurn);
    assert_eq!(w.discount_price, Some(250));
    assert_eq!(r.data.items_available, 100);
}

#[test]
fn trailing_bytes_are_ignored() {
    let mut b = minimal_buffer(&[]);
    let plain_len = b.len();
    b.extend_from_slice(&[0xAB; 100]);
    let (r, end) = decode_with_end(&b).unwrap();
    assert_eq!(end, plain_len);
    assert_eq!(r, decode(&minimal_buffer(&[])).unwrap());
}

#[test]
fn short_buffer_underruns() {
    let b = minimal_buffer(&[]);
    for n in 0..8 {
        assert_eq!(decode(&b[..n]), Err(DecodeError::BufferUnderrun));
    }
}

#[test]
fn every_truncation_underruns() {
    let b = full_buffer();
    for n in 8..b.len() {
        assert_eq!(decode(&b[..n]), Err(DecodeError::BufferUnderrun), "length {}", n);
    }
}

#[test]
fn wrong_discriminator_detected_first() {
    let b = full_buffer();
    for i in 0..8 {
        let mut c = b.clone();
        c[i] ^= 0x01;
        assert_eq!(decode(&c), Err(DecodeError::WrongDiscriminator));
    }
    let mut only_header = b[..8].to_vec();
    only_header[0] = 0;
    assert_eq!(decode(&only_header), Err(DecodeError::WrongDiscriminator));
}

#[test]
fn creators_fewer_than_declared_underrun() {
    let mut b = minimal_buffer(&[([1u8; 32], 1, 50), ([2u8; 32], 0, 50)]);
    let count_at = 8 + 32 + 32 + 1 + 8 + 4 + 8 + 4 + 2 + 8 + 1 + 1 + 1 + 1;
    b[count_at..count_at + 4].copy_from_slice(&3u32.to_le_bytes());
    let end_of_two = count_at + 4 + 2 * 34;
    b.truncate(end_of_two + 10);
    assert_eq!(decode(&b), Err(DecodeError::BufferUnderrun));
}

#[test]
fn decoding_twice_is_equal() {
    let b = full_buffer();
    let r1 = decode(&b).unwrap();
    let r2 = decode(&b).unwrap();
    assert_eq!(r1, r2);
    assert_eq!(lines(&r1), lines(&r2));
}

#[test]
fn invalid_presence_tag() {
    let mut b = minimal_buffer(&[]);
    b[8 + 64] = 2;
    assert_eq!(decode(&b), Err(DecodeError::InvalidTag));
}

#[test]
fn invalid_bool_byte() {
    let mut b = minimal_buffer(&[([1u8; 32], 1, 100)]);
    let verified_at = 8 + 32 + 32 + 1 + 8 + 4 + 8 + 4 + 2 + 8 + 1 + 1 + 1 + 1 + 4 + 32;
    b[verified_at] = 7;
    assert_eq!(decode(&b), Err(DecodeError::InvalidTag));
}

#[test]
fn unknown_end_settings_kind() {
    let mut b = full_buffer();
    let kind_at = 8 + 32 + 32 + 1 + 32 + 8 + 4 + 6 + 8 + 4 + 5 + 2 + 8 + 1 + 1 + 1 + 8 + 1;
    assert_eq!(b[kind_at], 1);
    b[kind_at] = 2;
    assert_eq!(decode(&b), Err(DecodeError::UnknownVariant));
}

#[test]
fn unknown_whitelist_mode() {
    let mut b = full_buffer();
    let mode_at = b.len() - (1 + 32 + 1 + 1 + 8 + 8 + 1 + 32 + 1);
    assert_eq!(b[mode_at], 1);
    b[mode_at] = 9;
    assert_eq!(decode(&b), Err(DecodeError::UnknownVariant));
}

#[test]
fn fee_above_ten_thousand_decodes() {
    let mut b = minimal_buffer(&[]);
    let fee_at = 8 + 32 + 32 + 1 + 8 + 4 + 8 + 4;
    b[fee_at..fee_at + 2].copy_from_slice(&65535u16.to_le_bytes());
    let r = decode(&b).unwrap();
    assert_eq!(r.data.seller_fee_basis_points, 65535);
}

#[test]
fn optional_formatters() {
    assert_eq!(format_go_live_date(None), "None");
    assert_eq!(format_go_live_date(Some(1_640_995_200)), "1640995200");
    assert_eq!(format_go_live_date(Some(i64::MIN)), "-9223372036854775808");
    assert_eq!(format_end_settings(None), vec![" end_settings: None"]);
    assert_eq!(
        format_end_settings(Some(EndSettings { end_setting_type: EndSettingType::Date, number: 9 })),
        vec![" end_settings:", "  end_setting_type: Date", "  number: 9"]
    );
    assert_eq!(format_hidden_settings(&None), vec![" hidden_settings: None"]);
    let h = HiddenSettings { name: b"n".to_vec(), uri: b"u".to_vec(), hash: vec![0, 255] };
    assert_eq!(
        format_hidden_settings(&Some(h)),
        vec![" hidden_settings:", "  name: n", "  uri: u", "  hash: [0, 255]"]
    );
    assert_eq!(format_whitelist_mint_settings(&None), vec![" whitelist_mint_settings: None"]);
    let w = WhitelistMintSettings {
        mode: WhitelistMintMode::BurnEveryTime,
        mint: vec![0u8; 32],
        presale: false,
        discount_price: None,
    };
    assert_eq!(
        format_whitelist_mint_settings(&Some(w)),
        vec![
            " whitelist_mint_settings:".to_string(),
            "  mode: BurnEveryTime".to_string(),
            format!("  mint: {}", ZERO_KEY),
            "  presale: false".to_string(),
            "  discount_price: None".to_string(),
        ]
    );
    assert_eq!(format_gatekeeper(&None), vec![" gatekeeper: None"]);
    let g = GatekeeperConfig { gatekeeper_network: vec![1u8; 32], expire_on_use: false };
    assert_eq!(
        format_gatekeeper(&Some(g)),
        vec![
            " gatekeeper:".to_string(),
            format!("  gatekeeper_network: {}", ONES_KEY),
            "  expire_on_use: false".to_string(),
        ]
    );
}

#[test]
fn built_record_formats_like_decoded() {
    let r = CandyMachine {
        authority: vec![0u8; 32],
        wallet: vec![0u8; 32],
        token_mint: None,
        items_redeemed: 0,
        data: CandyMachineData {
            uuid: Vec::new(),
            price: 0,
            symbol: Vec::new(),
            seller_fee_basis_points: 0,
            max_supply: 0,
            is_mutable: false,
            retain_authority: false,
            go_live_date: None,
            end_settings: None,
            creators: vec![Creator { address: vec![1u8; 32], verified: true, share: 100 }],
            hidden_settings: None,
            whitelist_mint_settings: None,
            items_available: 0,
            gatekeeper: None,
        },
    };
    let decoded = decode(&minimal_buffer(&[([1u8; 32], 1, 100)])).unwrap();
    assert_eq!(r, decoded);
    assert_eq!(lines(&r), lines(&decoded));
}

#[test]
fn text_helpers() {
    assert_eq!(u64_text(0), "0");
    assert_eq!(u64_text(u64::MAX), "18446744073709551615");
    assert_eq!(i64_text(-42), "-42");
    assert_eq!(i64_text(i64::MAX), "9223372036854775807");
    assert_eq!(byte_list(&vec![]), "[]");
    assert_eq!(byte_list(&vec![1, 20, 255]), "[1, 20, 255]");
    assert_eq!(key_text(&vec![255u8; 32]), "JEKNVnkbo3jma5nREBBJCDoXFVeKkD56V3xKrvRmWxFG");
    assert_eq!(bytes_text(&b"caf\xc3\xa9".to_vec()), "caf\u{e9}");
    assert_eq!(bytes_text(&vec![0x66, 0xff]), "f\u{fffd}");
    assert_eq!(labeled("a: ", "b"), "a: b");
    assert_eq!(creator_line("K", false, 0), "  address: K; verified: false; share: 0");
}

#[test]
fn default_settings() {
    assert_eq!(default_rpc_url(), "https://api.mainnet-beta.solana.com");
    assert_eq!(default_public_candy_machine_address(), "5GcgyzujqfF6Rh896tKa5EBAXvM9hyXGUtYaUyBLiXco");
    assert_eq!(default_public_candy_machine_name(), "public");
}
