//! A transaction as text for a terminal.

use crate::hex_text::{format_opaque_bytes, opaque_text};
use crate::table::{render_table, rows_view, strings_view, table_text};
use crate::text::{decimal, decimal_string};
use crate::transaction::{
    ActionView, AddressView, Fee, Ics20Withdrawal, MemoView, OutputView, PositionOpen, SpendView,
    SwapClaimView, SwapView, TransactionView, ValueView,
};
use vstd::prelude::*;
use vstd::string::{StrSliceExecFns, StringExecFns};

verus! {

/// The text of an address: the number of its account for an address of
/// the viewer's own, and the address itself for any other.
pub open spec fn address_view_text(address_view: AddressView) -> Seq<char> {
    match address_view {
        AddressView::Decoded { address, account, ephemeral } => if !ephemeral {
            "[account "@ + decimal(account as nat) + "]"@
        } else {
            "[account "@ + decimal(account as nat) + " (one-time address)]"@
        },
        AddressView::Opaque { address } => address@,
    }
}

/// The address as it is written, whatever is known of it.
pub open spec fn address_text(address_view: AddressView) -> Seq<char> {
    match address_view {
        AddressView::Decoded { address, .. } => address@,
        AddressView::Opaque { address } => address@,
    }
}

/// The text of a value: the amount in the default unit and the unit's
/// name for a known asset, the plain amount and the asset's identifier
/// for any other.
pub open spec fn value_view_text(value_view: ValueView) -> Seq<char> {
    match value_view {
        ValueView::KnownAssetId { unit_amount, unit, .. } => unit_amount@ + unit@,
        ValueView::UnknownAssetId { amount, asset_id } => decimal(amount as nat) + asset_id@,
    }
}

/// The amount of a value.
pub open spec fn value_view_amount_of(value_view: ValueView) -> u128 {
    match value_view {
        ValueView::KnownAssetId { amount, .. } => amount,
        ValueView::UnknownAssetId { amount, .. } => amount,
    }
}

/// `asset_id` can be shortened: it is plain text of ten characters or
/// more.
pub open spec fn asset_id_shortens(asset_id: Seq<char>) -> bool {
    asset_id.len() >= 10 && vstd::utf8::is_ascii_chars(asset_id)
}

/// An asset's identifier, shortened to its first ten and its last three
/// characters.
pub open spec fn asset_id_text(asset_id: Seq<char>) -> Seq<char> {
    asset_id.subrange(0, 10) + "..."@ + asset_id.subrange(asset_id.len() - 3, asset_id.len() as int)
}

impl AddressView {
    /// The address as it is written.
    pub fn address(&self) -> (address: &String)
        ensures
            address@ == address_text(*self),
    {
        match self {
            AddressView::Decoded { address, .. } => address,
            AddressView::Opaque { address } => address,
        }
    }
}

/// Writes an address for the reader of a terminal.
pub fn format_address_view(address_view: &AddressView) -> (text: String)
    ensures
        text@ == address_view_text(*address_view),
{
    match address_view {
        AddressView::Decoded { address: _, account, ephemeral } => {
            let mut text = String::from_str("[account ");
            let number = decimal_string(*account as u128);
            text.append(number.as_str());
            if !*ephemeral {
                text.append("]");
            } else {
                text.append(" (one-time address)]");
            }
            text
        },
        AddressView::Opaque { address } => address.clone(),
    }
}

/// Writes a value for the reader of a terminal.
pub fn format_value_view(value_view: &ValueView) -> (text: String)
    ensures
        text@ == value_view_text(*value_view),
{
    match value_view {
        ValueView::KnownAssetId { amount: _, unit_amount, unit } => {
            let mut text = unit_amount.clone();
            text.append(unit.as_str());
            text
        },
        ValueView::UnknownAssetId { amount, asset_id } => {
            let mut text = decimal_string(*amount);
            text.append(asset_id.as_str());
            text
        },
    }
}

/// Writes a fee: its amount.
pub fn format_fee(fee: &Fee) -> (text: String)
    ensures
        text@ == decimal(fee.0.amount as nat),
{
    decimal_string(fee.0.amount)
}

/// Writes an asset's identifier in short.
pub fn format_asset_id(asset_id: &str) -> (text: String)
    requires
        asset_id_shortens(asset_id@),
    ensures
        text@ == asset_id_text(asset_id@),
{
    let len = asset_id.unicode_len();
    let truncated = asset_id.substring_ascii(0, 10);
    let ellipsis = "...";
    let end = asset_id.substring_ascii(len - 3, len);
    let mut text = String::from_str(truncated);
    text.append(ellipsis);
    text.append(end);
    text
}

/// The amount of a value, whatever is known of its asset.
pub fn value_view_amount(value_view: &ValueView) -> (amount: u128)
    ensures
        amount == value_view_amount_of(*value_view),
{
    match value_view {
        ValueView::KnownAssetId { amount, .. } => *amount,
        ValueView::UnknownAssetId { amount, .. } => *amount,
    }
}

/// Whether an asset's identifier can be shortened.
pub fn shortens(asset_id: &str) -> (ok: bool)
    ensures
        ok == asset_id_shortens(asset_id@),
{
    asset_id.is_ascii() && asset_id.unicode_len() >= 10
}


/// The description of a spend: where the note was and what it held, or a
/// row of blocks drawn from the nullifier.
pub open spec fn spend_text(spend: SpendView) -> Seq<char> {
    match spend {
        SpendView::Visible { note } => address_view_text(note.address) + " -> "@ + value_view_text(
            note.value,
        ),
        SpendView::Opaque { nullifier } => opaque_text(nullifier@),
    }
}

/// The description of an output: what the note holds and where it goes,
/// or a row of blocks drawn from the encrypted note.
pub open spec fn output_text(output: OutputView) -> Seq<char> {
    match output {
        OutputView::Visible { note } => value_view_text(note.value) + " -> "@ + address_view_text(
            note.address,
        ),
        OutputView::Opaque { encrypted_note } => opaque_text(encrypted_note@),
    }
}

/// Whether a swap that puts in `delta_1_i` of asset 1 and `delta_2_i` of
/// asset 2 reads as a swap of asset 2 for asset 1.
pub open spec fn swaps_two_for_one(delta_1_i: u128, delta_2_i: u128) -> bool {
    delta_1_i == 0 && delta_2_i > 0
}

/// Whether it reads as a swap of asset 1 for asset 2. A swap that puts in
/// both assets, or neither, reads as a swap of asset 1 for itself.
pub open spec fn swaps_one_for_two(delta_1_i: u128, delta_2_i: u128) -> bool {
    delta_1_i > 0 && delta_2_i == 0
}

/// Whether the description of a swap can be written: the identifiers that
/// it names can be shortened.
pub open spec fn swap_renderable(swap: SwapView) -> bool {
    match swap {
        SwapView::Visible { delta_1_i, delta_2_i, asset_1, asset_2, .. } => {
            if swaps_two_for_one(delta_1_i, delta_2_i) || swaps_one_for_two(delta_1_i, delta_2_i) {
                asset_id_shortens(asset_1@) && asset_id_shortens(asset_2@)
            } else {
                asset_id_shortens(asset_1@)
            }
        },
        SwapView::Opaque { asset_1, asset_2 } => asset_id_shortens(asset_1@) && asset_id_shortens(
            asset_2@,
        ),
    }
}

/// The description of a swap.
pub open spec fn swap_text(swap: SwapView) -> Seq<char> {
    match swap {
        SwapView::Visible { delta_1_i, delta_2_i, asset_1, asset_2, claim_fee } => {
            let (from_asset, from_value, to_asset) = if swaps_two_for_one(delta_1_i, delta_2_i) {
                (asset_2@, delta_2_i, asset_1@)
            } else if swaps_one_for_two(delta_1_i, delta_2_i) {
                (asset_1@, delta_1_i, asset_2@)
            } else {
                (asset_1@, delta_1_i, asset_1@)
            };
            decimal(from_value as nat) + " "@ + asset_id_text(from_asset) + " for "@ + asset_id_text(
                to_asset,
            ) + " and paid claim fee "@ + decimal(claim_fee.0.amount as nat)
        },
        SwapView::Opaque { asset_1, asset_2 } => "Opaque swap for trading pair: "@ + asset_id_text(
            asset_1@,
        ) + " <=> "@ + asset_id_text(asset_2@),
    }
}

/// What was claimed, given the two outputs of a swap: the one output that
/// holds anything, or both where that is not exactly one of them.
pub open spec fn claimed_text(output_1: ValueView, output_2: ValueView) -> Seq<char> {
    let amount_1 = value_view_amount_of(output_1);
    let amount_2 = value_view_amount_of(output_2);
    if amount_1 == 0 && amount_2 > 0 {
        value_view_text(output_2)
    } else if amount_1 > 0 && amount_2 == 0 {
        value_view_text(output_1)
    } else {
        value_view_text(output_1) + " and "@ + value_view_text(output_2)
    }
}

/// The description of a swap claim. The fee stands between quotation
/// marks.
pub open spec fn swap_claim_text(swap_claim: SwapClaimView) -> Seq<char> {
    match swap_claim {
        SwapClaimView::Visible { output_1, output_2, fee } => "Claimed "@ + claimed_text(
            output_1.value,
            output_2.value,
        ) + " with fee \""@ + decimal(fee.0.amount as nat) + "\""@,
        SwapClaimView::Opaque { nullifier } => opaque_text(nullifier@),
    }
}

/// The description of a withdrawal to another chain.
pub open spec fn withdrawal_text(withdrawal: Ics20Withdrawal) -> Seq<char> {
    withdrawal.unit_amount@ + withdrawal.unit@ + " via "@ + withdrawal.source_channel@ + " to "@
        + withdrawal.destination_chain_address@
}

/// Whether the description of the opening of a position can be written.
pub open spec fn position_open_renderable(position: PositionOpen) -> bool {
    asset_id_shortens(position.asset_1@) && asset_id_shortens(position.asset_2@)
}

/// The description of the opening of a position.
pub open spec fn position_open_text(position: PositionOpen) -> Seq<char> {
    "Reserves: ("@ + decimal(position.r1 as nat) + " "@ + asset_id_text(position.asset_1@) + ", "@
        + decimal(position.r2 as nat) + " "@ + asset_id_text(position.asset_2@) + ") Fee: "@
        + decimal(position.fee as nat) + " ID: "@ + position.id@
}

/// Whether the row of an action can be written.
pub open spec fn action_renderable(action_view: ActionView) -> bool {
    match action_view {
        ActionView::Swap(swap) => swap_renderable(swap),
        ActionView::PositionOpen(position) => position_open_renderable(position),
        _ => true,
    }
}

/// The row of an action in the table of a transaction's actions: what
/// kind of action it is, and its description.
pub open spec fn action_row(action_view: ActionView) -> (Seq<char>, Seq<char>) {
    match action_view {
        ActionView::Spend(spend) => ("Spend"@, spend_text(spend)),
        ActionView::Output(output) => ("Output"@, output_text(output)),
        ActionView::Swap(swap) => ("Swap"@, swap_text(swap)),
        ActionView::SwapClaim(swap_claim) => ("Swap Claim"@, swap_claim_text(swap_claim)),
        ActionView::Ics20Withdrawal(withdrawal) => ("Ics20 Withdrawal"@, withdrawal_text(withdrawal)),
        ActionView::PositionOpen(position) => (
            "Open Liquidity Position"@,
            position_open_text(position),
        ),
        ActionView::PositionClose => ("Close Liquitity Position"@, Seq::empty()),
        ActionView::PositionWithdraw => ("Withdraw Liquitity Position"@, Seq::empty()),
        ActionView::ProposalDepositClaim { proposal } => (
            "Claim Deposit for Governance Proposal #"@ + decimal(proposal as nat),
            Seq::empty(),
        ),
        ActionView::ProposalSubmit { proposal } => (
            "Submit Governance Proposal #"@ + decimal(proposal as nat),
            Seq::empty(),
        ),
        ActionView::ProposalWithdraw { proposal } => (
            "Withdraw Governance Proposal #"@ + decimal(proposal as nat),
            Seq::empty(),
        ),
        ActionView::IbcRelay => ("IBC Relay"@, Seq::empty()),
        ActionView::DelegatorVote => ("Delegator Vote"@, Seq::empty()),
        ActionView::ValidatorDefinition => ("Upload Validator Definition"@, Seq::empty()),
        ActionView::ValidatorVote => ("Validator Vote"@, Seq::empty()),
        ActionView::CommunityPoolDeposit => ("Community Pool Deposit"@, Seq::empty()),
        ActionView::CommunityPoolSpend => ("Community Pool Spend"@, Seq::empty()),
        ActionView::CommunityPoolOutput => ("Community Pool Output"@, Seq::empty()),
        ActionView::Delegate => ("Delegation"@, Seq::empty()),
        ActionView::Undelegate => ("Undelegation"@, Seq::empty()),
        ActionView::UndelegateClaim => ("Undelegation Claim"@, Seq::empty()),
    }
}

/// Describes a spend.
fn format_spend(spend: &SpendView) -> (text: String)
    ensures
        text@ == spend_text(*spend),
{
    match spend {
        SpendView::Visible { note } => {
            let mut text = format_address_view(&note.address);
            text.append(" -> ");
            let value = format_value_view(&note.value);
            text.append(value.as_str());
            text
        },
        SpendView::Opaque { nullifier } => format_opaque_bytes(nullifier.as_slice()),
    }
}

/// Describes an output.
fn format_output(output: &OutputView) -> (text: String)
    ensures
        text@ == output_text(*output),
{
    match output {
        OutputView::Visible { note } => {
            let mut text = format_value_view(&note.value);
            text.append(" -> ");
            let address = format_address_view(&note.address);
            text.append(address.as_str());
            text
        },
        OutputView::Opaque { encrypted_note } => format_opaque_bytes(encrypted_note.as_slice()),
    }
}

/// Describes a swap.
fn format_swap(swap: &SwapView) -> (text: String)
    requires
        swap_renderable(*swap),
    ensures
        text@ == swap_text(*swap),
{
    match swap {
        SwapView::Visible { delta_1_i, delta_2_i, asset_1, asset_2, claim_fee } => {
            let (from_asset, from_value, to_asset) = if *delta_1_i == 0 && *delta_2_i > 0 {
                (asset_2, *delta_2_i, asset_1)
            } else if *delta_1_i > 0 && *delta_2_i == 0 {
                (asset_1, *delta_1_i, asset_2)
            } else {
                (asset_1, *delta_1_i, asset_1)
            };
            let mut text = decimal_string(from_value);
            text.append(" ");
            let from = format_asset_id(from_asset.as_str());
            text.append(from.as_str());
            text.append(" for ");
            let to = format_asset_id(to_asset.as_str());
            text.append(to.as_str());
            text.append(" and paid claim fee ");
            let fee = format_fee(claim_fee);
            text.append(fee.as_str());
            text
        },
        SwapView::Opaque { asset_1, asset_2 } => {
            let mut text = String::from_str("Opaque swap for trading pair: ");
            let first = format_asset_id(asset_1.as_str());
            text.append(first.as_str());
            text.append(" <=> ");
            let second = format_asset_id(asset_2.as_str());
            text.append(second.as_str());
            text
        },
    }
}

/// Describes a swap claim.
fn format_swap_claim(swap_claim: &SwapClaimView) -> (text: String)
    ensures
        text@ == swap_claim_text(*swap_claim),
{
    match swap_claim {
        SwapClaimView::Visible { output_1, output_2, fee } => {
            let amount_1 = value_view_amount(&output_1.value);
            let amount_2 = value_view_amount(&output_2.value);
            let claimed_value = if amount_1 == 0 && amount_2 > 0 {
                format_value_view(&output_2.value)
            } else if amount_1 > 0 && amount_2 == 0 {
                format_value_view(&output_1.value)
            } else {
                let mut both = format_value_view(&output_1.value);
                both.append(" and ");
                let second = format_value_view(&output_2.value);
                both.append(second.as_str());
                both
            };
            let mut text = String::from_str("Claimed ");
            text.append(claimed_value.as_str());
            text.append(" with fee \"");
            let fee = format_fee(fee);
            text.append(fee.as_str());
            text.append("\"");
            text
        },
        SwapClaimView::Opaque { nullifier } => format_opaque_bytes(nullifier.as_slice()),
    }
}

/// Describes a withdrawal to another chain.
fn format_withdrawal(withdrawal: &Ics20Withdrawal) -> (text: String)
    ensures
        text@ == withdrawal_text(*withdrawal),
{
    let mut text = withdrawal.unit_amount.clone();
    text.append(withdrawal.unit.as_str());
    text.append(" via ");
    text.append(withdrawal.source_channel.as_str());
    text.append(" to ");
    text.append(withdrawal.destination_chain_address.as_str());
    text
}

/// Describes the opening of a position.
fn format_position_open(position: &PositionOpen) -> (text: String)
    requires
        position_open_renderable(*position),
    ensures
        text@ == position_open_text(*position),
{
    let mut text = String::from_str("Reserves: (");
    let r1 = decimal_string(position.r1);
    text.append(r1.as_str());
    text.append(" ");
    let asset_1 = format_asset_id(position.asset_1.as_str());
    text.append(asset_1.as_str());
    text.append(", ");
    let r2 = decimal_string(position.r2);
    text.append(r2.as_str());
    text.append(" ");
    let asset_2 = format_asset_id(position.asset_2.as_str());
    text.append(asset_2.as_str());
    text.append(") Fee: ");
    let fee = decimal_string(position.fee as u128);
    text.append(fee.as_str());
    text.append(" ID: ");
    text.append(position.id.as_str());
    text
}

/// A heading that ends in a number.
fn numbered(heading: &str, number: u64) -> (text: String)
    ensures
        text@ == heading@ + decimal(number as nat),
{
    let mut text = String::from_str(heading);
    let number = decimal_string(number as u128);
    text.append(number.as_str());
    text
}

/// Whether the row of an action can be written.
pub fn can_format_action(action_view: &ActionView) -> (ok: bool)
    ensures
        ok == action_renderable(*action_view),
{
    match action_view {
        ActionView::Swap(swap) => match swap {
            SwapView::Visible { delta_1_i, delta_2_i, asset_1, asset_2, .. } => {
                if (*delta_1_i == 0 && *delta_2_i > 0) || (*delta_1_i > 0 && *delta_2_i == 0) {
                    shortens(asset_1.as_str()) && shortens(asset_2.as_str())
                } else {
                    shortens(asset_1.as_str())
                }
            },
            SwapView::Opaque { asset_1, asset_2 } => shortens(asset_1.as_str()) && shortens(
                asset_2.as_str(),
            ),
        },
        ActionView::PositionOpen(position) => shortens(position.asset_1.as_str()) && shortens(
            position.asset_2.as_str(),
        ),
        _ => true,
    }
}

/// The row of an action in the table of a transaction's actions.
pub fn format_action(action_view: &ActionView) -> (row: (String, String))
    requires
        action_renderable(*action_view),
    ensures
        (row.0@, row.1@) == action_row(*action_view),
{
    match action_view {
        ActionView::Spend(spend) => (String::from_str("Spend"), format_spend(spend)),
        ActionView::Output(output) => (String::from_str("Output"), format_output(output)),
        ActionView::Swap(swap) => (String::from_str("Swap"), format_swap(swap)),
        ActionView::SwapClaim(swap_claim) => (
            String::from_str("Swap Claim"),
            format_swap_claim(swap_claim),
        ),
        ActionView::Ics20Withdrawal(withdrawal) => (
            String::from_str("Ics20 Withdrawal"),
            format_withdrawal(withdrawal),
        ),
        ActionView::PositionOpen(position) => (
            String::from_str("Open Liquidity Position"),
            format_position_open(position),
        ),
        ActionView::PositionClose => (String::from_str("Close Liquitity Position"), String::new()),
        ActionView::PositionWithdraw => (
            String::from_str("Withdraw Liquitity Position"),
            String::new(),
        ),
        ActionView::ProposalDepositClaim { proposal } => (
            numbered("Claim Deposit for Governance Proposal #", *proposal),
            String::new(),
        ),
        ActionView::ProposalSubmit { proposal } => (
            numbered("Submit Governance Proposal #", *proposal),
            String::new(),
        ),
        ActionView::ProposalWithdraw { proposal } => (
            numbered("Withdraw Governance Proposal #", *proposal),
            String::new(),
        ),
        ActionView::IbcRelay => (String::from_str("IBC Relay"), String::new()),
        ActionView::DelegatorVote => (String::from_str("Delegator Vote"), String::new()),
        ActionView::ValidatorDefinition => (
            String::from_str("Upload Validator Definition"),
            String::new(),
        ),
        ActionView::ValidatorVote => (String::from_str("Validator Vote"), String::new()),
        ActionView::CommunityPoolDeposit => (
            String::from_str("Community Pool Deposit"),
            String::new(),
        ),
        ActionView::CommunityPoolSpend => (String::from_str("Community Pool Spend"), String::new()),
        ActionView::CommunityPoolOutput => (
            String::from_str("Community Pool Output"),
            String::new(),
        ),
        ActionView::Delegate => (String::from_str("Delegation"), String::new()),
        ActionView::Undelegate => (String::from_str("Undelegation"), String::new()),
        ActionView::UndelegateClaim => (String::from_str("Undelegation Claim"), String::new()),
    }
}


/// What is said of the memo: who sent it and what it says, or a row of
/// blocks drawn from the encrypted memo; nothing where there is no memo.
pub open spec fn memo_text(memo_view: Option<MemoView>) -> Seq<char> {
    match memo_view {
        Some(MemoView::Visible { return_address, text }) => "Memo Sender: "@ + address_text(
            return_address,
        ) + "\n"@ + "Memo Text: \n"@ + text@ + "\n\n"@,
        Some(MemoView::Opaque { ciphertext }) => "Encrypted Memo: \n"@ + opaque_text(ciphertext@)
            + "\n\n"@,
        None => Seq::empty(),
    }
}

/// The header of the table of actions.
pub open spec fn actions_header() -> Seq<Seq<char>> {
    seq!["Tx Action"@, "Description"@]
}

/// The rows of the table of actions: one for each action, in their order.
pub open spec fn action_rows(action_views: Seq<ActionView>) -> Seq<Seq<Seq<char>>> {
    Seq::new(
        action_views.len(),
        |i: int| seq![action_row(action_views[i]).0, action_row(action_views[i]).1],
    )
}

/// Writes what is said of the memo.
fn format_memo(memo_view: &Option<MemoView>) -> (text: String)
    ensures
        text@ == memo_text(*memo_view),
{
    match memo_view {
        Some(MemoView::Visible { return_address, text }) => {
            let mut out = String::from_str("Memo Sender: ");
            out.append(return_address.address().as_str());
            out.append("\n");
            out.append("Memo Text: \n");
            out.append(text.as_str());
            out.append("\n\n");
            out
        },
        Some(MemoView::Opaque { ciphertext }) => {
            let mut out = String::from_str("Encrypted Memo: \n");
            let blocks = format_opaque_bytes(ciphertext.as_slice());
            out.append(blocks.as_str());
            out.append("\n\n");
            out
        },
        None => String::new(),
    }
}

/// All the actions of `view` have rows that can be written.
pub open spec fn actions_renderable(view: TransactionView) -> bool {
    forall|i: int|
        0 <= i < view.action_views@.len() ==> action_renderable(#[trigger] view.action_views@[i])
}

/// The text that shows `view` when `table` is the text of the table of its
/// actions: the fee, the height at which the transaction expires, what is
/// said of the memo, and the table, each line ended.
pub open spec fn rendered_around(view: TransactionView, table: Seq<char>) -> Seq<char> {
    "Fee: "@ + decimal(view.fee.0.amount as nat) + "\n"@ + "Expiration Height: "@ + decimal(
        view.expiry_height as nat,
    ) + "\n"@ + memo_text(view.memo_view) + table + "\n"@
}

/// The rows of the table of the actions of `view`.
pub fn format_actions(view: &TransactionView) -> (rows: Vec<Vec<String>>)
    requires
        actions_renderable(*view),
    ensures
        rows_view(rows@) == action_rows(view.action_views@),
{
    let mut rows: Vec<Vec<String>> = Vec::new();
    let n = view.action_views.len();
    let mut i: usize = 0;
    assert(rows_view(rows@) =~= action_rows(view.action_views@.take(0)));
    while i < n
        invariant
            n == view.action_views@.len(),
            i <= n,
            actions_renderable(*view),
            rows@.len() == i,
            rows_view(rows@) == action_rows(view.action_views@.take(i as int)),
        decreases n - i,
    {
        let (action, description) = format_action(&view.action_views[i]);
        let ghost before = rows@;
        let mut row: Vec<String> = Vec::new();
        row.push(action);
        row.push(description);
        rows.push(row);
        proof {
            let upto = view.action_views@.take(i + 1);
            assert(strings_view(row@) =~= seq![action@, description@]);
            assert forall|k: int| 0 <= k < rows@.len() implies #[trigger] rows_view(rows@)[k]
                == action_rows(upto)[k] by {
                if k < i {
                    assert(rows@[k] == before[k]);
                    assert(rows_view(before)[k] == action_rows(view.action_views@.take(i as int))[k]);
                }
            }
            assert(rows_view(rows@) =~= action_rows(upto));
        }
        i += 1;
    }
    assert(view.action_views@.take(n as int) =~= view.action_views@);
    rows
}

/// Writes what shows `view`, around the text of the table of its actions.
pub fn format_around(view: &TransactionView, table: &str) -> (text: String)
    ensures
        text@ == rendered_around(*view, table@),
{
    let fee = format_fee(&view.fee);
    let mut text = String::from_str("Fee: ");
    text.append(fee.as_str());
    text.append("\n");
    text.append("Expiration Height: ");
    let expiry_height = decimal_string(view.expiry_height as u128);
    text.append(expiry_height.as_str());
    text.append("\n");
    let memo = format_memo(&view.memo_view);
    text.append(memo.as_str());
    text.append(table);
    text.append("\n");
    text
}

/// A view of a transaction that can be shown on a terminal.
pub trait TransactionViewExt {
    /// Whether the view can be written: every identifier that is to be
    /// shortened is long enough for it.
    spec fn renderable(&self) -> bool;

    /// The text that shows the view.
    spec fn rendered(&self) -> Seq<char>;

    /// The text that shows this view on a terminal, each line ended.
    fn render_terminal(&self) -> (text: String)
        requires
            self.renderable(),
        ensures
            text@ == self.rendered(),
    ;
}

impl TransactionViewExt for TransactionView {
    open spec fn renderable(&self) -> bool {
        actions_renderable(*self)
    }

    open spec fn rendered(&self) -> Seq<char> {
        rendered_around(*self, table_text(actions_header(), action_rows(self.action_views@)))
    }

    fn render_terminal(&self) -> (text: String) {
        let mut header: Vec<String> = Vec::new();
        header.push(String::from_str("Tx Action"));
        header.push(String::from_str("Description"));
        assert(strings_view(header@) =~= actions_header());
        let rows = format_actions(self);
        let actions_table = render_table(&header, &rows);
        format_around(self, actions_table.as_str())
    }
}

impl TransactionView {
    /// Whether [`TransactionViewExt::render_terminal`] can write this view.
    pub fn can_render(&self) -> (ok: bool)
        ensures
            ok == self.renderable(),
    {
        let n = self.action_views.len();
        let mut i: usize = 0;
        while i < n
            invariant
                n == self.action_views@.len(),
                i <= n,
                forall|k: int| 0 <= k < i ==> action_renderable(#[trigger] self.action_views@[k]),
            decreases n - i,
        {
            if !can_format_action(&self.action_views[i]) {
                return false;
            }
            i += 1;
        }
        true
    }
}

} // verus!
