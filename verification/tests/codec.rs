//! Encoding and decoding of the data-transfer types, including the enum
//! wire tokens and round trips.

use defichain_rpc::account::{AccountHistoryOptions, Format, OwnerType, SelectionModeType, TransferDomainType};
use defichain_rpc::governance::{
    ListProposalsOptions, ListProposalsStatus, ListProposalsType, ProposalStatus, ProposalType,
    VoteDecision, VoteResult,
};
use defichain_rpc::hex::hex_to_bytes;
use defichain_rpc::loan::TakeLoanMetadata;
use defichain_rpc::mining::EstimateMode;
use defichain_rpc::bindings::vault::create_vault_request;
use defichain_rpc::common::UTXO;
use defichain_rpc::token::{GetCustomTxResult, TokenInfo, TokenPagination};
use defichain_rpc::value::{check_numtext, get_numtext_or_str, i64_dec_string, jv_obj_get, u64_dec_string, JsonValue};
use defichain_rpc::vault::{CreateVault, DepositVault, VaultState};

/// Every vault state serializes to its documented token.
#[test]
fn vault_state_tokens() {
    assert_eq!(VaultState::Unknown.wire_token(), "unknown");
    assert_eq!(VaultState::Active.wire_token(), "active");
    assert_eq!(VaultState::InLiquidation.wire_token(), "inLiquidation");
    assert_eq!(VaultState::Frozen.wire_token(), "frozen");
    assert_eq!(VaultState::MayLiquidate.wire_token(), "mayLiquidate");
}

/// The vault-state decoder accepts its documented tokens, including the
/// historical may-liquidate spelling, and falls back to `Unknown` on
/// anything else.
#[test]
fn vault_state_decoding() {
    assert_eq!(VaultState::from_wire_token("active"), VaultState::Active);
    assert_eq!(VaultState::from_wire_token("inLiquidation"), VaultState::InLiquidation);
    assert_eq!(VaultState::from_wire_token("frozen"), VaultState::Frozen);
    assert_eq!(VaultState::from_wire_token("mayLiquidate"), VaultState::MayLiquidate);
    assert_eq!(VaultState::from_wire_token("mayLiquidation"), VaultState::MayLiquidate);
    assert_eq!(VaultState::from_wire_token("bogus"), VaultState::Unknown);
    assert_eq!(VaultState::from_wire_token("unknown"), VaultState::Unknown);
}

/// Every vault state round-trips through its own serialized token.
#[test]
fn vault_state_round_trip() {
    for s in [VaultState::Unknown, VaultState::Active, VaultState::InLiquidation,
        VaultState::Frozen, VaultState::MayLiquidate] {
        assert_eq!(VaultState::from_wire_token(&s.wire_token()), s);
    }
}

/// The derived-token enums round-trip through their own tokens and reject
/// anything else.
#[test]
fn enum_tokens_round_trip() {
    for x in [OwnerType::Mine, OwnerType::All] {
        assert_eq!(OwnerType::from_wire_token(&x.wire_token()), Some(x));
    }
    for x in [Format::Id, Format::Symbol] {
        assert_eq!(Format::from_wire_token(&x.wire_token()), Some(x));
    }
    for x in [SelectionModeType::Pie, SelectionModeType::Crumbs, SelectionModeType::Forward] {
        assert_eq!(SelectionModeType::from_wire_token(&x.wire_token()), Some(x));
    }
    for x in [TransferDomainType::NoDomain, TransferDomainType::Utxo, TransferDomainType::Dvm,
        TransferDomainType::Evm] {
        assert_eq!(TransferDomainType::from_wire_token(&x.wire_token()), Some(x));
    }
    for x in [ProposalType::CommunityFundProposal, ProposalType::VoteOfConfidence] {
        assert_eq!(ProposalType::from_wire_token(&x.wire_token()), Some(x));
    }
    for x in [ProposalStatus::Voting, ProposalStatus::Rejected, ProposalStatus::Completed] {
        assert_eq!(ProposalStatus::from_wire_token(&x.wire_token()), Some(x));
    }
    for x in [ListProposalsType::Cfp, ListProposalsType::Voc, ListProposalsType::All] {
        assert_eq!(ListProposalsType::from_wire_token(&x.wire_token()), Some(x));
    }
    for x in [ListProposalsStatus::Voting, ListProposalsStatus::Rejected,
        ListProposalsStatus::Completed, ListProposalsStatus::All] {
        assert_eq!(ListProposalsStatus::from_wire_token(&x.wire_token()), Some(x));
    }
    for x in [VoteDecision::Yes, VoteDecision::No, VoteDecision::Neutral] {
        assert_eq!(VoteDecision::from_wire_token(&x.wire_token()), Some(x));
    }
    for x in [VoteResult::Yes, VoteResult::No, VoteResult::Neutral, VoteResult::Unknown] {
        assert_eq!(VoteResult::from_wire_token(&x.wire_token()), Some(x));
    }
    for x in [EstimateMode::Unset, EstimateMode::Economical, EstimateMode::Conservative] {
        assert_eq!(EstimateMode::from_wire_token(&x.wire_token()), Some(x));
    }
    assert_eq!(OwnerType::from_wire_token("bogus"), None);
    assert_eq!(VoteResult::from_wire_token("yes"), None);
    assert_eq!(EstimateMode::from_wire_token("economical"), None);
}

/// Upper-case and documented non-obvious tokens are spelled exactly.
#[test]
fn exact_wire_spellings() {
    assert_eq!(VoteResult::Yes.wire_token(), "YES");
    assert_eq!(VoteResult::Unknown.wire_token(), "Unknown");
    assert_eq!(EstimateMode::Conservative.wire_token(), "CONSERVATIVE");
    assert_eq!(TransferDomainType::NoDomain.wire_token(), "None");
    assert_eq!(ListProposalsType::Cfp.wire_token(), "cfp");
}

/// A fully populated pagination object survives an encode/decode round
/// trip field for field.
#[test]
fn token_pagination_round_trip() {
    let d = TokenPagination { start: 7, including_start: true, limit: 100 };
    let v = d.to_json();
    assert_eq!(TokenPagination::from_json(&v), Some(d));
}

/// A fully populated vault-creation request survives a round trip,
/// honoring the camel-case wire names.
#[test]
fn create_vault_round_trip() {
    let d = CreateVault {
        owner_address: "addr1".to_owned(),
        loan_scheme_id: Some("LOAN0001".to_owned()),
    };
    let v = d.to_json();
    match &v {
        JsonValue::Obj(fs) => {
            assert_eq!(fs[0].0, "ownerAddress");
            assert_eq!(fs[1].0, "loanSchemeId");
        },
        other => panic!("expected an object, got {:?}", other),
    }
    assert_eq!(CreateVault::from_json(&v), Some(d));
}

/// An absent optional field encodes as an explicit null and decodes back
/// as absent.
#[test]
fn create_vault_absent_option_is_null() {
    let d = CreateVault { owner_address: "addr1".to_owned(), loan_scheme_id: None };
    let v = d.to_json();
    assert_eq!(jv_obj_get(&v, "loanSchemeId"), Some(&JsonValue::Null));
    assert_eq!(CreateVault::from_json(&v), Some(d));
}

/// A history-options object with every field populated survives a round
/// trip, including the two snake-case renames and the character list.
#[test]
fn account_history_options_round_trip() {
    let d = AccountHistoryOptions::new(
        Some(500),
        Some(10),
        Some(true),
        Some("DFI".to_owned()),
        Some('M'),
        Some(vec!['M', 'V']),
        Some(20),
        Some(0),
        Some(false),
        Some(3),
        Some(Format::Symbol),
    );
    let v = d.to_json();
    match &v {
        JsonValue::Obj(fs) => {
            assert_eq!(fs[2].0, "no_rewards");
            assert_eq!(fs[8].0, "including_start");
            assert_eq!(fs[0].0, "maxBlockHeight");
        },
        other => panic!("expected an object, got {:?}", other),
    }
    assert_eq!(AccountHistoryOptions::from_json(&v), Some(d));
}

#[test]
fn deposit_vault_round_trip() {
    let d = DepositVault {
        vault_id: "v1".to_owned(),
        from: "addr".to_owned(),
        amount: "1.5@DFI".to_owned(),
    };
    let v = d.to_json();
    assert_eq!(DepositVault::from_json(&v), Some(d));
}

/// A token description with every field populated decodes from its wire
/// shape, with the renamed fields under their wire spellings.
#[test]
fn token_info_decodes_renamed_fields() {
    let v = JsonValue::Obj(vec![
        ("symbol".to_owned(), JsonValue::Str("DFI".to_owned())),
        ("symbolKey".to_owned(), JsonValue::Str("DFI".to_owned())),
        ("name".to_owned(), JsonValue::Str("Default token".to_owned())),
        ("decimal".to_owned(), JsonValue::UInt(8)),
        ("limit".to_owned(), JsonValue::Int(0)),
        ("mintable".to_owned(), JsonValue::Bool(false)),
        ("tradeable".to_owned(), JsonValue::Bool(true)),
        ("isDAT".to_owned(), JsonValue::Bool(true)),
        ("isLPS".to_owned(), JsonValue::Bool(false)),
        ("isLoanToken".to_owned(), JsonValue::Bool(false)),
        ("finalized".to_owned(), JsonValue::Bool(true)),
        ("minted".to_owned(), JsonValue::Float("102.5".to_owned())),
        ("creationTx".to_owned(), JsonValue::Str("0000".to_owned())),
        ("creationHeight".to_owned(), JsonValue::Int(0)),
        ("destructionTx".to_owned(), JsonValue::Str("0000".to_owned())),
        ("destructionHeight".to_owned(), JsonValue::Int(-1)),
        ("collateralAddress".to_owned(), JsonValue::Null),
    ]);
    let d = TokenInfo::from_json(&v).expect("should decode");
    assert_eq!(d.symbol, "DFI");
    assert_eq!(d.decimal, 8);
    assert!(d.is_dat);
    assert!(!d.is_lps);
    assert_eq!(d.minted, "102.5");
    assert_eq!(d.collateral_address, None);
}

/// A token description with a mis-typed field does not decode.
#[test]
fn token_info_rejects_wrong_type() {
    let v = JsonValue::Obj(vec![("symbol".to_owned(), JsonValue::UInt(5))]);
    assert_eq!(TokenInfo::from_json(&v), None);
}

/// An integer-valued numeric field is read as its decimal text.
#[test]
fn numeric_field_integer_reading() {
    let v = JsonValue::Obj(vec![("minted".to_owned(), JsonValue::UInt(42))]);
    let got = defichain_rpc::value::get_numtext(&v, "minted");
    assert_eq!(got, Some("42".to_owned()));
}

/// A single amount serializes as the bare string, several as an array.
#[test]
fn one_or_many_amounts() {
    let one = TakeLoanMetadata {
        vault_id: "v".to_owned(),
        amounts: vec!["1@DFI".to_owned()],
        to: None,
    };
    match &one.to_json() {
        JsonValue::Obj(fs) => assert_eq!(fs[1].1, JsonValue::Str("1@DFI".to_owned())),
        other => panic!("expected an object, got {:?}", other),
    }
    let many = TakeLoanMetadata {
        vault_id: "v".to_owned(),
        amounts: vec!["1@DFI".to_owned(), "2@BTC".to_owned()],
        to: None,
    };
    match &many.to_json() {
        JsonValue::Obj(fs) => match &fs[1].1 {
            JsonValue::Arr(items) => assert_eq!(items.len(), 2),
            other => panic!("expected an array, got {:?}", other),
        },
        other => panic!("expected an object, got {:?}", other),
    }
}

/// A skip-absent options object omits absent fields entirely.
#[test]
fn list_proposals_options_omits_absent_fields() {
    let opts = ListProposalsOptions { kind: None, status: None, cycle: Some(2), pagination: None };
    match &opts.to_json() {
        JsonValue::Obj(fs) => {
            assert_eq!(fs.len(), 1);
            assert_eq!(fs[0].0, "cycle");
            assert_eq!(fs[0].1, JsonValue::Int(2));
        },
        other => panic!("expected an object, got {:?}", other),
    }
}

/// Hex text decodes to exactly the spelled bytes, in either digit case.
#[test]
fn hex_decoding() {
    assert_eq!(hex_to_bytes("00ffAb"), Some(vec![0u8, 255, 171]));
    assert_eq!(hex_to_bytes(""), Some(vec![]));
    assert_eq!(hex_to_bytes("abc"), None);
    assert_eq!(hex_to_bytes("zz"), None);
}

/// Decimal rendering matches the usual spellings, signs and extremes
/// included.
#[test]
fn decimal_rendering() {
    assert_eq!(u64_dec_string(0), "0");
    assert_eq!(u64_dec_string(1234567890), "1234567890");
    assert_eq!(u64_dec_string(u64::MAX), "18446744073709551615");
    assert_eq!(i64_dec_string(-5), "-5");
    assert_eq!(i64_dec_string(0), "0");
    assert_eq!(i64_dec_string(i64::MIN), "-9223372036854775808");
}

/// The custom-transaction report carries its raw `results` member through
/// unchanged.
#[test]
fn custom_tx_keeps_raw_results() {
    let raw = JsonValue::Obj(vec![("anything".to_owned(), JsonValue::UInt(9))]);
    let v = JsonValue::Obj(vec![
        ("type".to_owned(), JsonValue::Str("CreateToken".to_owned())),
        ("valid".to_owned(), JsonValue::Bool(true)),
        ("results".to_owned(), raw),
        ("blockHeight".to_owned(), JsonValue::Str("150".to_owned())),
        ("blockhash".to_owned(), JsonValue::Str("abcd".to_owned())),
        ("confirmations".to_owned(), JsonValue::UInt(3)),
    ]);
    let d = GetCustomTxResult::from_json(v).expect("should decode");
    assert_eq!(d.kind, "CreateToken");
    assert_eq!(d.results, JsonValue::Obj(vec![("anything".to_owned(), JsonValue::UInt(9))]));
}

/// A funding output argument encodes at its slot with the wire field
/// names.
#[test]
fn utxo_argument_encodes_in_slot() {
    let vault = CreateVault { owner_address: "a".to_owned(), loan_scheme_id: None };
    let utxo = UTXO { txid: "ff00".to_owned(), vout: 1 };
    let r = create_vault_request(&vault, &Some(utxo));
    assert_eq!(r.method, "createvault");
    assert_eq!(r.params.len(), 2);
    assert_eq!(
        r.params[1],
        JsonValue::Obj(vec![
            ("txid".to_owned(), JsonValue::Str("ff00".to_owned())),
            ("vout".to_owned(), JsonValue::UInt(1)),
        ])
    );
}

/// Only decimal-number text passes the numeric scanner.
#[test]
fn numeric_text_scanner() {
    for good in ["0", "150", "-2.5", "+3e10", "4.656542373906925e-10", "5.", ".5", "1E+2"] {
        assert!(check_numtext(good), "{:?} should be numeric text", good);
    }
    for bad in ["", "-", "+", ".", "abc", "1e", "1.2.3", "inf", "NaN", "0x10", "1 "] {
        assert!(!check_numtext(bad), "{:?} should not be numeric text", bad);
    }
}

/// A number-or-string field accepts numbers and numeric strings only; a
/// non-numeric string is a shape failure, not a value.
#[test]
fn number_or_string_field_rejects_text() {
    let good = JsonValue::Obj(vec![("ratio".to_owned(), JsonValue::Str("1.25e-3".to_owned()))]);
    assert_eq!(get_numtext_or_str(&good, "ratio"), Some("1.25e-3".to_owned()));
    let from_number = JsonValue::Obj(vec![("ratio".to_owned(), JsonValue::UInt(3))]);
    assert_eq!(get_numtext_or_str(&from_number, "ratio"), Some("3".to_owned()));
    let bad = JsonValue::Obj(vec![("ratio".to_owned(), JsonValue::Str("abc".to_owned()))]);
    assert_eq!(get_numtext_or_str(&bad, "ratio"), None);
}

/// Lookup takes the first field with the asked-for name.
#[test]
fn object_lookup_takes_first() {
    let v = JsonValue::Obj(vec![
        ("a".to_owned(), JsonValue::UInt(1)),
        ("a".to_owned(), JsonValue::UInt(2)),
    ]);
    assert_eq!(jv_obj_get(&v, "a"), Some(&JsonValue::UInt(1)));
    assert_eq!(jv_obj_get(&v, "b"), None);
}
