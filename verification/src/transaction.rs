//! A transaction as its owner sees it: each part either readable or
//! opaque.

use crate::asset::Value;
use vstd::prelude::*;

verus! {

/// An address, with what is known of it.
#[derive(Debug)]
pub enum AddressView {
    /// An address of the viewer's own wallet.
    Decoded {
        /// The address as it is written.
        address: String,
        /// The number of the account that the address belongs to.
        account: u32,
        /// Whether the address is a one-time address of that account.
        ephemeral: bool,
    },
    /// An address of which nothing is known but how it is written.
    Opaque { address: String },
}

/// An amount of an asset, with what is known of the asset.
#[derive(Debug)]
pub enum ValueView {
    /// The asset is known.
    KnownAssetId {
        /// The amount, in the asset's base unit.
        amount: u128,
        /// The amount as the asset's default unit writes it.
        unit_amount: String,
        /// The name of the asset's default unit.
        unit: String,
    },
    /// Only the asset's identifier is known.
    UnknownAssetId {
        /// The amount, in the asset's base unit.
        amount: u128,
        /// The asset's identifier as it is written.
        asset_id: String,
    },
}

/// A fee: an amount of the asset in which fees are paid.
#[derive(Clone, Copy, Debug, PartialEq, Eq, Structural)]
pub struct Fee(pub Value);

/// A note as its owner sees it.
#[derive(Debug)]
pub struct NoteView {
    pub value: ValueView,
    pub address: AddressView,
}

/// The memo of a transaction.
#[derive(Debug)]
pub enum MemoView {
    /// The memo can be read.
    Visible { return_address: AddressView, text: String },
    /// Only the encrypted memo is there.
    Opaque { ciphertext: Vec<u8> },
}

/// A spend.
#[derive(Debug)]
pub enum SpendView {
    /// The note that is spent can be read.
    Visible { note: NoteView },
    /// Only the nullifier is known.
    Opaque { nullifier: Vec<u8> },
}

/// An output.
#[derive(Debug)]
pub enum OutputView {
    /// The note that is made can be read.
    Visible { note: NoteView },
    /// Only the encrypted note is known.
    Opaque { encrypted_note: Vec<u8> },
}

/// A swap.
#[derive(Debug)]
pub enum SwapView {
    /// The swap can be read: what is put in of each asset of the market,
    /// the identifiers of the two assets as they are written, and the fee
    /// set aside for the claim.
    Visible { delta_1_i: u128, delta_2_i: u128, asset_1: String, asset_2: String, claim_fee: Fee },
    /// Only the market is known: the identifiers of its two assets as they
    /// are written.
    Opaque { asset_1: String, asset_2: String },
}

/// The claim of a swap's outputs.
#[derive(Debug)]
pub enum SwapClaimView {
    /// The two outputs can be read.
    Visible { output_1: NoteView, output_2: NoteView, fee: Fee },
    /// Only the nullifier is known.
    Opaque { nullifier: Vec<u8> },
}

/// A withdrawal to another chain.
#[derive(Debug)]
pub struct Ics20Withdrawal {
    /// The amount as the best unit for it writes it.
    pub unit_amount: String,
    /// The name of that unit.
    pub unit: String,
    /// The channel that the withdrawal leaves by, as it is written.
    pub source_channel: String,
    /// The address on the other chain.
    pub destination_chain_address: String,
}

/// The opening of a liquidity position.
#[derive(Debug)]
pub struct PositionOpen {
    /// The reserves of asset 1.
    pub r1: u128,
    /// The reserves of asset 2.
    pub r2: u128,
    /// The identifier of asset 1 as it is written.
    pub asset_1: String,
    /// The identifier of asset 2 as it is written.
    pub asset_2: String,
    /// The fee, in basis points.
    pub fee: u32,
    /// The identifier of the position as it is written.
    pub id: String,
}

/// One action of a transaction.
#[derive(Debug)]
pub enum ActionView {
    Spend(SpendView),
    Output(OutputView),
    Swap(SwapView),
    SwapClaim(SwapClaimView),
    Ics20Withdrawal(Ics20Withdrawal),
    PositionOpen(PositionOpen),
    PositionClose,
    PositionWithdraw,
    /// The claim of the deposit for the proposal with the given number.
    ProposalDepositClaim { proposal: u64 },
    /// The submission of the proposal with the given number.
    ProposalSubmit { proposal: u64 },
    /// The withdrawal of the proposal with the given number.
    ProposalWithdraw { proposal: u64 },
    IbcRelay,
    DelegatorVote,
    ValidatorDefinition,
    ValidatorVote,
    CommunityPoolDeposit,
    CommunityPoolSpend,
    CommunityPoolOutput,
    Delegate,
    Undelegate,
    UndelegateClaim,
}

/// A transaction as its owner sees it.
#[derive(Debug)]
pub struct TransactionView {
    pub fee: Fee,
    pub expiry_height: u64,
    pub memo_view: Option<MemoView>,
    pub action_views: Vec<ActionView>,
}

} // verus!
