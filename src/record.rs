//! The decoded account record, its mathematical model, and the wire layout of
//! the account stated as a parser over byte sequences.
use vstd::prelude::*;

verus! {

/// Why a buffer could not be decoded.
#[derive(Clone, Copy, Debug, PartialEq, Eq, Structural)]
pub enum DecodeError {
    /// The leading eight bytes do not identify a candy-machine account.
    WrongDiscriminator,
    /// A presence byte or a boolean byte is neither 0 nor 1.
    InvalidTag,
    /// A variant discriminant names no known variant.
    UnknownVariant,
    /// The buffer ends before a field does.
    BufferUnderrun,
}

/// How the end of a sale is decided.
#[derive(Clone, Copy, Debug, PartialEq, Eq, Structural)]
pub enum EndSettingType {
    /// The sale ends at a Unix timestamp.
    Date,
    /// The sale ends once a number of items is redeemed.
    Amount,
}

/// The end condition of a sale and its numeric payload.
#[derive(Clone, Copy, Debug, PartialEq, Eq, Structural)]
pub struct EndSettings {
    pub end_setting_type: EndSettingType,
    pub number: u64,
}

/// Whether a whitelist token is burnt when used.
#[derive(Clone, Copy, Debug, PartialEq, Eq, Structural)]
pub enum WhitelistMintMode {
    BurnEveryTime,
    NeverBurn,
}

/// A creator entitled to a share of the royalties. Public keys are 32 bytes.
#[derive(Clone, Debug, PartialEq, Eq)]
pub struct Creator {
    pub address: Vec<u8>,
    pub verified: bool,
    pub share: u8,
}

/// The gateway network that must approve each mint.
#[derive(Clone, Debug, PartialEq, Eq)]
pub struct GatekeeperConfig {
    pub gatekeeper_network: Vec<u8>,
    pub expire_on_use: bool,
}

/// Shared metadata used while items are not yet revealed.
#[derive(Clone, Debug, PartialEq, Eq)]
pub struct HiddenSettings {
    pub name: Vec<u8>,
    pub uri: Vec<u8>,
    pub hash: Vec<u8>,
}

/// Whitelist-token gating of mints.
#[derive(Clone, Debug, PartialEq, Eq)]
pub struct WhitelistMintSettings {
    pub mode: WhitelistMintMode,
    pub mint: Vec<u8>,
    pub presale: bool,
    pub discount_price: Option<u64>,
}

/// The sale configuration embedded in a candy machine. Strings are kept as the
/// bytes stored on chain.
#[derive(Clone, Debug, PartialEq, Eq)]
pub struct CandyMachineData {
    pub uuid: Vec<u8>,
    pub price: u64,
    pub symbol: Vec<u8>,
    pub seller_fee_basis_points: u16,
    pub max_supply: u64,
    pub is_mutable: bool,
    pub retain_authority: bool,
    pub go_live_date: Option<i64>,
    pub end_settings: Option<EndSettings>,
    pub creators: Vec<Creator>,
    pub hidden_settings: Option<HiddenSettings>,
    pub whitelist_mint_settings: Option<WhitelistMintSettings>,
    pub items_available: u64,
    pub gatekeeper: Option<GatekeeperConfig>,
}

/// A decoded candy-machine account.
#[derive(Clone, Debug, PartialEq, Eq)]
pub struct CandyMachine {
    pub authority: Vec<u8>,
    pub wallet: Vec<u8>,
    pub token_mint: Option<Vec<u8>>,
    pub items_redeemed: u64,
    pub data: CandyMachineData,
}

/// The model of a `Creator`: its key as a byte sequence.
pub struct CreatorModel {
    pub address: Seq<u8>,
    pub verified: bool,
    pub share: u8,
}

/// The model of a `GatekeeperConfig`.
pub struct GatekeeperModel {
    pub gatekeeper_network: Seq<u8>,
    pub expire_on_use: bool,
}

/// The model of `HiddenSettings`.
pub struct HiddenModel {
    pub name: Seq<u8>,
    pub uri: Seq<u8>,
    pub hash: Seq<u8>,
}

/// The model of `WhitelistMintSettings`.
pub struct WhitelistModel {
    pub mode: WhitelistMintMode,
    pub mint: Seq<u8>,
    pub presale: bool,
    pub discount_price: Option<u64>,
}

/// The model of `CandyMachineData`: byte vectors become sequences.
pub struct DataModel {
    pub uuid: Seq<u8>,
    pub price: u64,
    pub symbol: Seq<u8>,
    pub seller_fee_basis_points: u16,
    pub max_supply: u64,
    pub is_mutable: bool,
    pub retain_authority: bool,
    pub go_live_date: Option<i64>,
    pub end_settings: Option<EndSettings>,
    pub creators: Seq<CreatorModel>,
    pub hidden_settings: Option<HiddenModel>,
    pub whitelist_mint_settings: Option<WhitelistModel>,
    pub items_available: u64,
    pub gatekeeper: Option<GatekeeperModel>,
}

/// The model of a `CandyMachine`, what the layout's parser produces.
pub struct RecordModel {
    pub authority: Seq<u8>,
    pub wallet: Seq<u8>,
    pub token_mint: Option<Seq<u8>>,
    pub items_redeemed: u64,
    pub data: DataModel,
}

impl View for Creator {
    type V = CreatorModel;

    open spec fn view(&self) -> CreatorModel {
        CreatorModel { address: self.address@, verified: self.verified, share: self.share }
    }
}

impl View for GatekeeperConfig {
    type V = GatekeeperModel;

    open spec fn view(&self) -> GatekeeperModel {
        GatekeeperModel {
            gatekeeper_network: self.gatekeeper_network@,
            expire_on_use: self.expire_on_use,
        }
    }
}

impl View for HiddenSettings {
    type V = HiddenModel;

    open spec fn view(&self) -> HiddenModel {
        HiddenModel { name: self.name@, uri: self.uri@, hash: self.hash@ }
    }
}

impl View for WhitelistMintSettings {
    type V = WhitelistModel;

    open spec fn view(&self) -> WhitelistModel {
        WhitelistModel {
            mode: self.mode,
            mint: self.mint@,
            presale: self.presale,
            discount_price: self.discount_price,
        }
    }
}

/// The models of a list of creators, in order.
pub open spec fn creators_view(c: Seq<Creator>) -> Seq<CreatorModel> {
    c.map_values(|x: Creator| x@)
}

impl View for CandyMachineData {
    type V = DataModel;

    open spec fn view(&self) -> DataModel {
        DataModel {
            uuid: self.uuid@,
            price: self.price,
            symbol: self.symbol@,
            seller_fee_basis_points: self.seller_fee_basis_points,
            max_supply: self.max_supply,
            is_mutable: self.is_mutable,
            retain_authority: self.retain_authority,
            go_live_date: self.go_live_date,
            end_settings: self.end_settings,
            creators: creators_view(self.creators@),
            hidden_settings: match self.hidden_settings {
                Some(h) => Some(h@),
                None => None,
            },
            whitelist_mint_settings: match self.whitelist_mint_settings {
                Some(w) => Some(w@),
                None => None,
            },
            items_available: self.items_available,
            gatekeeper: match self.gatekeeper {
                Some(g) => Some(g@),
                None => None,
            },
        }
    }
}

impl View for CandyMachine {
    type V = RecordModel;

    open spec fn view(&self) -> RecordModel {
        RecordModel {
            authority: self.authority@,
            wallet: self.wallet@,
            token_mint: match self.token_mint {
                Some(k) => Some(k@),
                None => None,
            },
            items_redeemed: self.items_redeemed,
            data: self.data@,
        }
    }
}

} // verus!
