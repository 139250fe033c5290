use batch_swap::asset::{AssetId, Value};
use batch_swap::hex_text::format_opaque_bytes;
use batch_swap::transaction::{
    ActionView, AddressView, Fee, Ics20Withdrawal, MemoView, NoteView, OutputView, PositionOpen,
    SpendView, SwapClaimView, SwapView, TransactionView, ValueView,
};
use batch_swap::transaction_view_ext::{
    can_format_action, format_action, format_actions, format_address_view, format_around,
    format_asset_id, format_fee, format_value_view, shortens, value_view_amount,
    TransactionViewExt,
};

const ASSET_A: &str = "passet1984fctenw8m2fpl8a9wzguzp7j34d7vravryuhft808nyt9fdggqxmanqm";
const ASSET_B: &str = "passet1nupu8yg2kua09ec8qxfsl60xhafp7mmpsjv9pgp50t20hm6pkygscjcqn2";

fn fee(amount: u128) -> Fee {
    Fee(Value { amount, asset_id: AssetId { hi: 0, lo: 0 } })
}

fn known(amount: u128, unit_amount: &str, unit: &str) -> ValueView {
    ValueView::KnownAssetId { amount, unit_amount: unit_amount.to_string(), unit: unit.to_string() }
}

fn unknown(amount: u128, asset_id: &str) -> ValueView {
    ValueView::UnknownAssetId { amount, asset_id: asset_id.to_string() }
}

fn own(account: u32, ephemeral: bool) -> AddressView {
    AddressView::Decoded { address: "penumbra1xyz".to_string(), account, ephemeral }
}

fn foreign(address: &str) -> AddressView {
    AddressView::Opaque { address: address.to_string() }
}

fn row(action_view: ActionView) -> (String, String) {
    assert!(can_format_action(&action_view));
    format_action(&action_view)
}

fn expect_row(action_view: ActionView, action: &str, description: &str) {
    assert_eq!(row(action_view), (action.to_string(), description.to_string()));
}

#[test]
fn opaque_bytes_need_eight_bytes() {
    assert_eq!(format_opaque_bytes(&[]), "");
    assert_eq!(format_opaque_bytes(&[1, 2, 3, 4, 5, 6, 7]), "");
    assert_eq!(format_opaque_bytes(&[0; 8]).chars().count(), 16);
}

#[test]
fn opaque_bytes_draw_one_block_for_each_digit() {
    let bytes = [0x01, 0x23, 0x45, 0x67, 0x89, 0xAB, 0xCD, 0xEF];
    assert_eq!(
        format_opaque_bytes(&bytes),
        "\u{2595}\u{2581}\u{2582}\u{2583}\u{2584}\u{2585}\u{2586}\u{2587}\u{2588}\u{2589}\u{259A}\u{259B}\u{259C}\u{259D}\u{259E}\u{259F}"
    );
    let bytes = [0xF0, 0x0F, 0xA5, 0x5A, 0x10, 0x01, 0xFF, 0x00];
    assert_eq!(
        format_opaque_bytes(&bytes),
        "\u{259F}\u{2595}\u{2595}\u{259F}\u{259A}\u{2585}\u{2585}\u{259A}\u{2581}\u{2595}\u{2595}\u{2581}\u{259F}\u{259F}\u{2595}\u{2595}"
    );
}

#[test]
fn opaque_bytes_stop_after_thirty_two_bytes() {
    let mut bytes = vec![0x11u8; 32];
    assert_eq!(format_opaque_bytes(&bytes), "\u{2581}".repeat(64));
    bytes.push(0x22);
    assert_eq!(format_opaque_bytes(&bytes), "\u{2581}".repeat(64));
    bytes.extend_from_slice(&[0x33; 100]);
    assert_eq!(format_opaque_bytes(&bytes), "\u{2581}".repeat(64));
    assert_eq!(format_opaque_bytes(&[0x22; 31]), "\u{2582}".repeat(62));
}

#[test]
fn addresses_read_as_accounts_where_they_are_known() {
    assert_eq!(format_address_view(&own(0, false)), "[account 0]");
    assert_eq!(format_address_view(&own(17, false)), "[account 17]");
    assert_eq!(format_address_view(&own(17, true)), "[account 17 (one-time address)]");
    assert_eq!(format_address_view(&own(u32::MAX, true)), "[account 4294967295 (one-time address)]");
    assert_eq!(format_address_view(&foreign("penumbra1abc")), "penumbra1abc");
    assert_eq!(own(1, true).address(), "penumbra1xyz");
    assert_eq!(foreign("penumbra1abc").address(), "penumbra1abc");
}

#[test]
fn values_read_in_their_unit_where_it_is_known() {
    assert_eq!(format_value_view(&known(1500000, "1.5", "penumbra")), "1.5penumbra");
    assert_eq!(format_value_view(&unknown(1500000, ASSET_A)), format!("1500000{ASSET_A}"));
    assert_eq!(format_value_view(&unknown(0, "x")), "0x");
    assert_eq!(value_view_amount(&known(1500000, "1.5", "penumbra")), 1500000);
    assert_eq!(value_view_amount(&unknown(7, ASSET_A)), 7);
}

#[test]
fn fees_read_as_their_amount() {
    assert_eq!(format_fee(&fee(0)), "0");
    assert_eq!(format_fee(&fee(12345)), "12345");
    assert_eq!(format_fee(&fee(u128::MAX)), "340282366920938463463374607431768211455");
}

#[test]
fn asset_ids_are_shortened() {
    assert_eq!(format_asset_id(ASSET_A), "passet1984...nqm");
    assert_eq!(format_asset_id(ASSET_B), "passet1nup...qn2");
    assert_eq!(format_asset_id("0123456789"), "0123456789...789");
    assert!(shortens("0123456789"));
    assert!(!shortens("012345678"));
    assert!(!shortens(""));
    assert!(!shortens("passet1984fctenw8m2fpl8a9wzgu\u{2581}"));
}

#[test]
fn rows_of_spends_and_outputs() {
    let note = || NoteView { value: known(1500000, "1.5", "penumbra"), address: own(3, false) };
    expect_row(
        ActionView::Spend(SpendView::Visible { note: note() }),
        "Spend",
        "[account 3] -> 1.5penumbra",
    );
    expect_row(
        ActionView::Output(OutputView::Visible { note: note() }),
        "Output",
        "1.5penumbra -> [account 3]",
    );
    expect_row(
        ActionView::Spend(SpendView::Opaque { nullifier: vec![0xAB; 32] }),
        "Spend",
        &"\u{259A}\u{259B}".repeat(32),
    );
    expect_row(
        ActionView::Output(OutputView::Opaque { encrypted_note: vec![0x09; 176] }),
        "Output",
        &"\u{2595}\u{2589}".repeat(32),
    );
    expect_row(ActionView::Spend(SpendView::Opaque { nullifier: vec![1, 2, 3] }), "Spend", "");
}

fn swap(delta_1_i: u128, delta_2_i: u128) -> ActionView {
    ActionView::Swap(SwapView::Visible {
        delta_1_i,
        delta_2_i,
        asset_1: ASSET_A.to_string(),
        asset_2: ASSET_B.to_string(),
        claim_fee: fee(25),
    })
}

#[test]
fn rows_of_swaps() {
    expect_row(swap(0, 40), "Swap", "40 passet1nup...qn2 for passet1984...nqm and paid claim fee 25");
    expect_row(swap(30, 0), "Swap", "30 passet1984...nqm for passet1nup...qn2 and paid claim fee 25");
    expect_row(swap(30, 40), "Swap", "30 passet1984...nqm for passet1984...nqm and paid claim fee 25");
    expect_row(swap(0, 0), "Swap", "0 passet1984...nqm for passet1984...nqm and paid claim fee 25");
    expect_row(
        ActionView::Swap(SwapView::Opaque { asset_1: ASSET_A.to_string(), asset_2: ASSET_B.to_string() }),
        "Swap",
        "Opaque swap for trading pair: passet1984...nqm <=> passet1nup...qn2",
    );
}

#[test]
fn swaps_with_short_asset_ids_have_no_row() {
    let short = |delta_1_i, delta_2_i| {
        ActionView::Swap(SwapView::Visible {
            delta_1_i,
            delta_2_i,
            asset_1: ASSET_A.to_string(),
            asset_2: "short".to_string(),
            claim_fee: fee(1),
        })
    };
    assert!(!can_format_action(&short(0, 1)));
    assert!(!can_format_action(&short(1, 0)));
    assert!(can_format_action(&short(1, 1)));
    assert!(can_format_action(&short(0, 0)));
    assert!(!can_format_action(&ActionView::Swap(SwapView::Opaque {
        asset_1: "short".to_string(),
        asset_2: ASSET_B.to_string(),
    })));
    assert!(!can_format_action(&ActionView::PositionOpen(PositionOpen {
        r1: 1,
        r2: 2,
        asset_1: ASSET_A.to_string(),
        asset_2: "nine_char".to_string(),
        fee: 3,
        id: "plpid1".to_string(),
    })));
}

fn claim(amount_1: u128, amount_2: u128) -> ActionView {
    ActionView::SwapClaim(SwapClaimView::Visible {
        output_1: NoteView { value: known(amount_1, "one", "a"), address: own(0, false) },
        output_2: NoteView { value: unknown(amount_2, "b"), address: own(0, false) },
        fee: fee(3),
    })
}

#[test]
fn rows_of_swap_claims() {
    expect_row(claim(0, 5), "Swap Claim", "Claimed 5b with fee \"3\"");
    expect_row(claim(5, 0), "Swap Claim", "Claimed onea with fee \"3\"");
    expect_row(claim(5, 6), "Swap Claim", "Claimed onea and 6b with fee \"3\"");
    expect_row(claim(0, 0), "Swap Claim", "Claimed onea and 0b with fee \"3\"");
    expect_row(
        ActionView::SwapClaim(SwapClaimView::Opaque { nullifier: vec![0xCD; 32] }),
        "Swap Claim",
        &"\u{259C}\u{259D}".repeat(32),
    );
}

#[test]
fn rows_of_withdrawals_and_positions() {
    expect_row(
        ActionView::Ics20Withdrawal(Ics20Withdrawal {
            unit_amount: "2.25".to_string(),
            unit: "gm".to_string(),
            source_channel: "channel-4".to_string(),
            destination_chain_address: "osmo1qqq".to_string(),
        }),
        "Ics20 Withdrawal",
        "2.25gm via channel-4 to osmo1qqq",
    );
    expect_row(
        ActionView::PositionOpen(PositionOpen {
            r1: 1000,
            r2: 0,
            asset_1: ASSET_A.to_string(),
            asset_2: ASSET_B.to_string(),
            fee: 30,
            id: "plpid1abc".to_string(),
        }),
        "Open Liquidity Position",
        "Reserves: (1000 passet1984...nqm, 0 passet1nup...qn2) Fee: 30 ID: plpid1abc",
    );
    expect_row(ActionView::PositionClose, "Close Liquitity Position", "");
    expect_row(ActionView::PositionWithdraw, "Withdraw Liquitity Position", "");
}

#[test]
fn rows_of_the_other_actions() {
    expect_row(
        ActionView::ProposalDepositClaim { proposal: 4 },
        "Claim Deposit for Governance Proposal #4",
        "",
    );
    expect_row(ActionView::ProposalSubmit { proposal: 12 }, "Submit Governance Proposal #12", "");
    expect_row(
        ActionView::ProposalWithdraw { proposal: u64::MAX },
        "Withdraw Governance Proposal #18446744073709551615",
        "",
    );
    expect_row(ActionView::IbcRelay, "IBC Relay", "");
    expect_row(ActionView::DelegatorVote, "Delegator Vote", "");
    expect_row(ActionView::ValidatorDefinition, "Upload Validator Definition", "");
    expect_row(ActionView::ValidatorVote, "Validator Vote", "");
    expect_row(ActionView::CommunityPoolDeposit, "Community Pool Deposit", "");
    expect_row(ActionView::CommunityPoolSpend, "Community Pool Spend", "");
    expect_row(ActionView::CommunityPoolOutput, "Community Pool Output", "");
    expect_row(ActionView::Delegate, "Delegation", "");
    expect_row(ActionView::Undelegate, "Undelegation", "");
    expect_row(ActionView::UndelegateClaim, "Undelegation Claim", "");
}

fn sample(memo_view: Option<MemoView>) -> TransactionView {
    TransactionView {
        fee: fee(50),
        expiry_height: 9,
        memo_view,
        action_views: vec![
            ActionView::Spend(SpendView::Visible {
                note: NoteView { value: known(1500000, "1.5", "penumbra"), address: own(3, false) },
            }),
            ActionView::IbcRelay,
            ActionView::ProposalSubmit { proposal: 12 },
        ],
    }
}

#[test]
fn renders_a_transaction_with_a_memo() {
    let view = sample(Some(MemoView::Visible {
        return_address: foreign("penumbra1abc"),
        text: "hello".to_string(),
    }));
    assert!(view.can_render());
    assert_eq!(
        view.render_terminal(),
        [
            "Fee: 50\n",
            "Expiration Height: 9\n",
            "Memo Sender: penumbra1abc\n",
            "Memo Text: \nhello\n\n",
            " Tx Action                       Description                \n",
            " Spend                           [account 3] -> 1.5penumbra \n",
            " IBC Relay                                                  \n",
            " Submit Governance Proposal #12                             \n",
        ]
        .concat()
    );
}

#[test]
fn renders_a_transaction_with_an_encrypted_memo() {
    let view = sample(Some(MemoView::Opaque { ciphertext: vec![0x77; 512] }));
    let text = view.render_terminal();
    let blocks = "\u{2587}".repeat(64);
    assert!(text.starts_with(&format!("Fee: 50\nExpiration Height: 9\nEncrypted Memo: \n{blocks}\n\n Tx Action ")));
}

#[test]
fn renders_a_transaction_without_memo_or_actions() {
    let view = TransactionView { fee: fee(0), expiry_height: 0, memo_view: None, action_views: vec![] };
    assert!(view.can_render());
    assert_eq!(view.render_terminal(), "Fee: 0\nExpiration Height: 0\n Tx Action  Description \n");
}

#[test]
fn memo_of_an_own_address_names_the_address() {
    let view = TransactionView {
        fee: fee(1),
        expiry_height: 2,
        memo_view: Some(MemoView::Visible { return_address: own(5, false), text: String::new() }),
        action_views: vec![],
    };
    assert_eq!(
        format_around(&view, "TABLE"),
        "Fee: 1\nExpiration Height: 2\nMemo Sender: penumbra1xyz\nMemo Text: \n\n\nTABLE\n"
    );
}

#[test]
fn rows_follow_the_actions() {
    let view = sample(None);
    assert_eq!(
        format_actions(&view),
        vec![
            vec!["Spend".to_string(), "[account 3] -> 1.5penumbra".to_string()],
            vec!["IBC Relay".to_string(), String::new()],
            vec!["Submit Governance Proposal #12".to_string(), String::new()],
        ]
    );
}

#[test]
fn transaction_with_a_short_asset_id_cannot_be_rendered() {
    let mut view = sample(None);
    view.action_views.push(ActionView::Swap(SwapView::Opaque {
        asset_1: ASSET_A.to_string(),
        asset_2: "b".to_string(),
    }));
    assert!(!view.can_render());
    view.action_views.pop();
    assert!(view.can_render());
}
