use gaia::tester::cli::{
    Cli, CliError, LocalCommand, MembershipCommand, PersonaCommand, ProposalAction, ProposalCommand,
    TopCommand, TreasuryCommand, VoteChoice, WatchCommand,
};
use gaia::tester::codehash::{format_hex, parse_code_hash, CodeHashError};
use gaia::tester::personas::Persona;
use gaia::tester::text::{decimal_text, parse_decimal_u128};
use gaia::tester::watch::{
    membership_detail, ordered_ids, proposal_detail, use_pager, ListOrder, ListPlan, MembershipDetail,
    MembershipListOptions, MembershipRow, MembershipStateFilter, ProposalDetail, ProposalListOptions,
    ProposalRow, ProposalStateFilter,
};

#[test]
fn parse_persona_preview_command() {
    let cli = Cli::try_parse_from(&["gaia-tester", "personas", "preview", "alice"])
        .expect("persona preview should parse");
    assert!(matches!(
        cli.command,
        TopCommand::Personas { command: PersonaCommand::Preview { persona: Persona::Alice } }
    ));
}

#[test]
fn reject_unknown_persona() {
    let parsed = Cli::try_parse_from(&["gaia-tester", "personas", "preview", "zoe"]);
    assert!(parsed.is_err());
}

#[test]
fn parse_membership_vote_command() {
    let cli = Cli::try_parse_from(&["gaia-tester", "memberships", "vote", "alice", "3", "yes"])
        .expect("membership vote should parse");
    assert!(matches!(
        cli.command,
        TopCommand::Memberships {
            command: MembershipCommand::Vote { signer: Persona::Alice, proposal_id: 3, approve: VoteChoice::Yes }
        }
    ));
}

#[test]
fn parse_proposal_submit_command() {
    let cli = Cli::try_parse_from(&[
        "gaia-tester",
        "proposals",
        "submit",
        "alice",
        "community-event",
        "fund-public-workshop",
        "500",
        "240",
    ])
    .expect("proposal submit should parse");
    assert!(matches!(
        cli.command,
        TopCommand::Proposals {
            command: ProposalCommand::Submit { signer: Persona::Alice, amount: 500, event_block: 240, .. }
        }
    ));
}

#[test]
fn parse_watch_proposals_list_command() {
    let cli = Cli::try_parse_from(&[
        "gaia-tester",
        "watch",
        "proposals",
        "--state",
        "all",
        "--order",
        "oldest",
        "--no-pager",
    ])
    .expect("watch proposals list should parse");

    assert!(matches!(
        cli.command,
        TopCommand::Watch {
            command: WatchCommand::Proposals {
                proposal_id: None,
                state: ProposalStateFilter::All,
                order: ListOrder::Oldest,
                pager: false,
                no_pager: true,
            }
        }
    ));
}

#[test]
fn parse_local_refresh_metadata_command() {
    let cli = Cli::try_parse_from(&["gaia-tester", "local", "refresh-metadata"])
        .expect("local refresh metadata hint should parse");
    assert!(matches!(cli.command, TopCommand::Local { command: LocalCommand::RefreshMetadata }));
}

// --- Further cases of the command grammar ---

fn parse(args: &[&str]) -> Result<Cli, CliError> {
    Cli::try_parse_from(args)
}

#[test]
fn url_defaults_and_can_be_set_before_the_command() {
    let cli = parse(&["gaia-tester", "personas", "list"]).unwrap();
    assert_eq!(cli.url, "ws://127.0.0.1:9944");
    let cli = parse(&["gaia-tester", "--url", "ws://node:9000", "watch", "treasury"]).unwrap();
    assert_eq!(cli.url, "ws://node:9000");
    assert!(matches!(cli.command, TopCommand::Watch { command: WatchCommand::Treasury }));
    let cli = parse(&["gaia-tester", "--url=ws://other:1", "local", "start"]).unwrap();
    assert_eq!(cli.url, "ws://other:1");
    assert_eq!(parse(&["gaia-tester", "--url"]).err(), Some(CliError::MissingOptionValue));
    assert_eq!(
        parse(&["gaia-tester", "--url", "a", "--url", "b", "local", "reset"]).err(),
        Some(CliError::DuplicateOption)
    );
    assert_eq!(parse(&["gaia-tester", "personas", "list", "--url", "x"]).err(), Some(CliError::UnknownOption));
}

#[test]
fn every_subcommand_parses() {
    let cli = parse(&["gaia-tester", "memberships", "propose", "bob", "dave"]).unwrap();
    assert!(matches!(
        cli.command,
        TopCommand::Memberships { command: MembershipCommand::Propose { signer: Persona::Bob, candidate: Persona::Dave } }
    ));
    let cli = parse(&["gaia-tester", "memberships", "finalize", "eve", "12"]).unwrap();
    assert!(matches!(
        cli.command,
        TopCommand::Memberships { command: MembershipCommand::Finalize { signer: Persona::Eve, proposal_id: 12 } }
    ));
    let cli = parse(&["gaia-tester", "proposals", "vote", "charlie", "7", "no"]).unwrap();
    assert!(matches!(
        cli.command,
        TopCommand::Proposals {
            command: ProposalCommand::Vote { signer: Persona::Charlie, proposal_id: 7, approve: VoteChoice::No }
        }
    ));
    let cli = parse(&["gaia-tester", "proposals", "finalize", "ferdie", "1"]).unwrap();
    assert!(matches!(
        cli.command,
        TopCommand::Proposals { command: ProposalCommand::Finalize { signer: Persona::Ferdie, proposal_id: 1 } }
    ));
    let cli = parse(&["gaia-tester", "proposals", "execute", "alice", "2"]).unwrap();
    assert!(matches!(
        cli.command,
        TopCommand::Proposals { command: ProposalCommand::Execute { signer: Persona::Alice, proposal_id: 2 } }
    ));
    let cli = parse(&["gaia-tester", "treasury", "deposit", "bob", "340282366920938463463374607431768211455"]).unwrap();
    assert!(matches!(
        cli.command,
        TopCommand::Treasury { command: TreasuryCommand::Deposit { signer: Persona::Bob, amount: u128::MAX } }
    ));
    let cli = parse(&["gaia-tester", "watch", "memberships", "4", "--state=approved", "--pager"]).unwrap();
    assert!(matches!(
        cli.command,
        TopCommand::Watch {
            command: WatchCommand::Memberships {
                proposal_id: Some(4),
                state: MembershipStateFilter::Approved,
                order: ListOrder::Newest,
                pager: true,
                no_pager: false,
            }
        }
    ));
    let cli = parse(&["gaia-tester", "personas", "list"]).unwrap();
    assert!(matches!(cli.command, TopCommand::Personas { command: PersonaCommand::List }));
    let cli = parse(&["gaia-tester", "local", "reset"]).unwrap();
    assert!(matches!(cli.command, TopCommand::Local { command: LocalCommand::Reset }));
}

#[test]
fn submit_keeps_title_and_description_text() {
    let cli = parse(&["gaia-tester", "proposals", "submit", "alice", "Title here", "Longer text", "+9", "0"]).unwrap();
    match cli.command {
        TopCommand::Proposals {
            command: ProposalCommand::Submit { signer, title, description, amount, event_block },
        } => {
            assert_eq!(signer, Persona::Alice);
            assert_eq!(title, "Title here");
            assert_eq!(description, "Longer text");
            assert_eq!(amount, 9);
            assert_eq!(event_block, 0);
        },
        other => panic!("unexpected command {other:?}"),
    }
}

#[test]
fn each_refusal_has_its_error() {
    assert_eq!(parse(&["gaia-tester"]).err(), Some(CliError::MissingCommand));
    assert_eq!(parse(&[]).err(), Some(CliError::MissingCommand));
    assert_eq!(parse(&["gaia-tester", "personas"]).err(), Some(CliError::MissingCommand));
    assert_eq!(parse(&["gaia-tester", "--help"]).err(), Some(CliError::HelpRequested));
    assert_eq!(parse(&["gaia-tester", "watch", "proposals", "-h"]).err(), Some(CliError::HelpRequested));
    assert_eq!(parse(&["gaia-tester", "vote"]).err(), Some(CliError::UnknownCommand));
    assert_eq!(parse(&["gaia-tester", "personas", "show"]).err(), Some(CliError::UnknownCommand));
    assert_eq!(parse(&["gaia-tester", "--verbose", "local", "start"]).err(), Some(CliError::UnknownOption));
    assert_eq!(parse(&["gaia-tester", "personas", "list", "--state", "all"]).err(), Some(CliError::UnknownOption));
    assert_eq!(parse(&["gaia-tester", "watch", "proposals", "--order"]).err(), Some(CliError::MissingOptionValue));
    assert_eq!(
        parse(&["gaia-tester", "watch", "proposals", "--pager", "--pager"]).err(),
        Some(CliError::DuplicateOption)
    );
    assert_eq!(
        parse(&["gaia-tester", "watch", "proposals", "--pager", "--no-pager"]).err(),
        Some(CliError::ConflictingOptions)
    );
    assert_eq!(parse(&["gaia-tester", "memberships", "vote", "alice", "3"]).err(), Some(CliError::MissingArgument));
    assert_eq!(parse(&["gaia-tester", "personas", "list", "extra"]).err(), Some(CliError::UnexpectedArgument));
    assert_eq!(parse(&["gaia-tester", "watch", "proposals", "1", "2"]).err(), Some(CliError::UnexpectedArgument));
    assert_eq!(parse(&["gaia-tester", "memberships", "vote", "alice", "3", "maybe"]).err(), Some(CliError::InvalidValue));
    assert_eq!(parse(&["gaia-tester", "memberships", "vote", "alice", "4294967296", "yes"]).err(), Some(CliError::InvalidValue));
    assert_eq!(parse(&["gaia-tester", "watch", "memberships", "--state", "executed"]).err(), Some(CliError::InvalidValue));
    assert_eq!(parse(&["gaia-tester", "treasury", "deposit", "alice", "12a"]).err(), Some(CliError::InvalidValue));
    assert_eq!(parse(&["gaia-tester", "personas", "preview", "Alice"]).err(), Some(CliError::InvalidValue));
}

#[test]
fn vote_choice_as_bool() {
    assert!(VoteChoice::Yes.as_bool());
    assert!(!VoteChoice::No.as_bool());
}

// --- Personas ---

#[test]
fn personas_are_listed_in_order_with_labels() {
    let labels: Vec<&str> = Persona::all().iter().map(|p| p.label()).collect();
    assert_eq!(labels, vec!["Alice", "Bob", "Charlie", "Dave", "Eve", "Ferdie"]);
    assert_eq!(Persona::Charlie.secret_uri(), "//Charlie");
}

#[test]
fn persona_account_is_the_development_key() {
    // The well-known sr25519 public key of `//Alice`.
    let alice: [u8; 32] = [
        0xd4, 0x35, 0x93, 0xc7, 0x15, 0xfd, 0xd3, 0x1c, 0x61, 0x14, 0x1a, 0xbd, 0x04, 0xa9, 0x9f, 0xd6, 0x82, 0x2c,
        0x85, 0x58, 0x85, 0x4c, 0xcd, 0xe3, 0x9a, 0x56, 0x84, 0xe7, 0xa5, 0x6d, 0xa2, 0x7d,
    ];
    assert_eq!(Persona::Alice.account_id(), Ok(alice));
    let bob = Persona::Bob.account_id().expect("bob derives");
    assert_ne!(bob, alice);
    assert!(Persona::Ferdie.keypair().is_ok());
}

// --- Watch views ---

#[test]
fn filters_match_lower_case_status_names() {
    assert!(ProposalStateFilter::Active.matches_status("active"));
    assert!(!ProposalStateFilter::Active.matches_status("approved"));
    assert!(ProposalStateFilter::Executed.matches_status("executed"));
    assert!(ProposalStateFilter::All.matches_status("anything"));
    assert!(MembershipStateFilter::Rejected.matches_status("rejected"));
    assert!(!MembershipStateFilter::Approved.matches_status("Approved"));
    assert!(MembershipStateFilter::All.matches_status(""));
}

#[test]
fn ids_are_walked_newest_or_oldest_first() {
    assert_eq!(ordered_ids(3, ListOrder::Newest), vec![3, 2, 1]);
    assert_eq!(ordered_ids(3, ListOrder::Oldest), vec![1, 2, 3]);
    assert!(ordered_ids(0, ListOrder::Newest).is_empty());
}

// --- Code hashes ---

#[test]
fn code_hash_round_trips_through_hex() {
    let mut hash = [0u8; 32];
    for (i, b) in hash.iter_mut().enumerate() {
        *b = (i as u8).wrapping_mul(37).wrapping_add(5);
    }
    let text = format_hex(&hash);
    assert_eq!(text.len(), 64);
    assert_eq!(parse_code_hash(&text), Ok(hash));
    assert_eq!(parse_code_hash(&format!("0x{text}")), Ok(hash));
    assert_eq!(parse_code_hash(&format!("0X{}", text.to_uppercase())), Ok(hash));
}

#[test]
fn format_hex_writes_two_lower_case_digits_per_byte() {
    assert_eq!(format_hex(&[0x00, 0xab, 0x0f, 0xff]), "00ab0fff");
    assert_eq!(format_hex(&[]), "");
}

#[test]
fn code_hash_refusals() {
    assert_eq!(parse_code_hash("0x1234"), Err(CodeHashError::WrongLength));
    assert_eq!(parse_code_hash(&"g".repeat(64)), Err(CodeHashError::NotHex));
    let mut text = "00".repeat(31);
    text.push('é');
    assert_eq!(text.len(), 64);
    assert_eq!(parse_code_hash(&text), Err(CodeHashError::NotHex));
    let mut text = "00".repeat(31);
    text.push_str("a\u{00e9}");
    // 'a' followed by the first byte of a two-byte character, then its second byte.
    assert_eq!(text.len(), 65);
    assert_eq!(parse_code_hash(&text), Err(CodeHashError::WrongLength));
    let mut odd = String::from("0");
    odd.push('\u{00e9}');
    odd.push_str(&"0".repeat(61));
    assert_eq!(odd.len(), 64);
    assert_eq!(parse_code_hash(&odd), Err(CodeHashError::NotAscii));
    // Each byte is exactly two hexadecimal digits: a sign is no digit.
    let mut signed = "+a".to_string();
    signed.push_str(&"00".repeat(31));
    assert_eq!(parse_code_hash(&signed), Err(CodeHashError::NotHex));
    assert_eq!(parse_code_hash(&"+f".repeat(32)), Err(CodeHashError::NotHex));
    let mut upper = "0X".to_string();
    upper.push_str(&"AB".repeat(32));
    assert_eq!(parse_code_hash(&upper), Ok([0xab; 32]));
}

#[test]
fn typed_submit_forms_parse() {
    let cli = parse(&["gaia-tester", "proposals", "submit", "disbursement", "alice", "workshop", "fund-local-event", "bob", "10"])
        .unwrap();
    match cli.command {
        TopCommand::Proposals { command: ProposalCommand::SubmitAction { signer, title, description, action } } => {
            assert_eq!(signer, Persona::Alice);
            assert_eq!(title, "workshop");
            assert_eq!(description, "fund-local-event");
            assert!(matches!(action, ProposalAction::Disbursement { recipient: Persona::Bob, amount: 10 }));
        },
        other => panic!("unexpected command {other:?}"),
    }
    let cli = parse(&["gaia-tester", "proposals", "submit", "set-execution-delay", "alice", "delay", "slow-down-execution", "20"])
        .unwrap();
    assert!(matches!(
        cli.command,
        TopCommand::Proposals {
            command: ProposalCommand::SubmitAction { action: ProposalAction::SetExecutionDelay { blocks: 20 }, .. }
        }
    ));
    let cli = parse(&["gaia-tester", "proposals", "submit", "set-suspension-threshold", "bob", "t", "d", "1", "2"]).unwrap();
    assert!(matches!(
        cli.command,
        TopCommand::Proposals {
            command: ProposalCommand::SubmitAction {
                signer: Persona::Bob,
                action: ProposalAction::SetSuspensionThreshold { numerator: 1, denominator: 2 },
                ..
            }
        }
    ));
    let hash_text = format!("0x{}", "ab".repeat(32));
    let cli = parse(&["gaia-tester", "proposals", "submit", "upgrade-runtime", "alice", "runtime-upgrade", "apply-new-runtime", &hash_text])
        .unwrap();
    match cli.command {
        TopCommand::Proposals {
            command: ProposalCommand::SubmitAction { action: ProposalAction::UpgradeRuntime { code_hash }, .. },
        } => assert_eq!(code_hash, [0xab; 32]),
        other => panic!("unexpected command {other:?}"),
    }
    let cli = parse(&["gaia-tester", "proposals", "upload-runtime-code", "alice", "path/to/runtime.wasm"]).unwrap();
    match cli.command {
        TopCommand::Proposals { command: ProposalCommand::UploadRuntimeCode { signer, code_path } } => {
            assert_eq!(signer, Persona::Alice);
            assert_eq!(code_path, "path/to/runtime.wasm");
        },
        other => panic!("unexpected command {other:?}"),
    }
}

#[test]
fn typed_submit_refusals() {
    assert_eq!(
        parse(&["gaia-tester", "proposals", "submit", "disbursement", "alice", "t", "d", "bob"]).err(),
        Some(CliError::MissingArgument)
    );
    assert_eq!(
        parse(&["gaia-tester", "proposals", "submit", "upgrade-runtime", "alice", "t", "d", "0x12"]).err(),
        Some(CliError::InvalidValue)
    );
    assert_eq!(
        parse(&["gaia-tester", "proposals", "submit", "set-governance-threshold", "alice", "t", "d", "4", "x"]).err(),
        Some(CliError::InvalidValue)
    );
    assert_eq!(
        parse(&["gaia-tester", "proposals", "upload-runtime-code", "alice"]).err(),
        Some(CliError::MissingArgument)
    );
}

#[test]
fn list_plan_keeps_matching_ids_in_walk_order() {
    let options =
        ProposalListOptions { state: ProposalStateFilter::Approved, order: ListOrder::Newest, pager: false, no_pager: true };
    // The ids are walked 3, 2, 1; id 2 has no record.
    let statuses = vec![Some("approved".to_string()), None, Some("approved".to_string())];
    match options.plan(3, &statuses) {
        ListPlan::Show(ids) => assert_eq!(ids, vec![3, 1]),
        other => panic!("unexpected plan {other:?}"),
    }
    let executed = ProposalListOptions { state: ProposalStateFilter::Executed, ..options };
    assert!(matches!(executed.plan(3, &statuses), ListPlan::NoneMatched));
    assert!(matches!(options.plan(0, &Vec::new()), ListPlan::NoneStored));

    let members =
        MembershipListOptions { state: MembershipStateFilter::All, order: ListOrder::Oldest, pager: false, no_pager: false };
    let statuses = vec![Some("rejected".to_string()), None];
    match members.plan(2, &statuses) {
        ListPlan::Show(ids) => assert_eq!(ids, vec![1]),
        other => panic!("unexpected plan {other:?}"),
    }
}

fn proposal_row(status: &str, title: &str, yes: u32, no: u32, approved_at: Option<u32>) -> ProposalRow {
    ProposalRow {
        status: status.to_string(),
        title: title.to_string(),
        class: "Standard".to_string(),
        action: "DisburseToAccount".to_string(),
        yes_votes: yes,
        no_votes: no,
        submitted_at: 4,
        vote_end: 104,
        approved_at,
    }
}

#[test]
fn treasury_listing_text() {
    let options =
        ProposalListOptions { state: ProposalStateFilter::All, order: ListOrder::Newest, pager: false, no_pager: true };
    assert_eq!(
        options.listing(&ListPlan::NoneStored, &vec![]),
        "Treasury proposals (state=All, order=Newest)\nNo treasury proposals found.\n"
    );
    let options = ProposalListOptions { state: ProposalStateFilter::Executed, ..options };
    assert_eq!(
        options.listing(&ListPlan::NoneMatched, &vec![]),
        "Treasury proposals (state=Executed, order=Newest)\nNo treasury proposals matched this filter.\n"
    );
    let options = ProposalListOptions { state: ProposalStateFilter::All, order: ListOrder::Oldest, ..options };
    let rows = vec![proposal_row("active", "a", 2, 0, None), proposal_row("approved", "b", 10, 305, Some(120))];
    assert_eq!(
        options.listing(&ListPlan::Show(vec![3, 12]), &rows),
        "Treasury proposals (state=All, order=Oldest)\n\
         #3 status=active title=a class=Standard action=DisburseToAccount yes_votes=2 no_votes=0 submitted_at=4 vote_end=104 approved_at=none\n\
         #12 status=approved title=b class=Standard action=DisburseToAccount yes_votes=10 no_votes=305 submitted_at=4 vote_end=104 approved_at=120\n"
    );
}

#[test]
fn membership_listing_text() {
    let options = MembershipListOptions {
        state: MembershipStateFilter::Rejected,
        order: ListOrder::Oldest,
        pager: true,
        no_pager: false,
    };
    assert_eq!(
        options.listing(&ListPlan::NoneStored, &vec![]),
        "Membership proposals (state=Rejected, order=Oldest)\nNo membership proposals found.\n"
    );
    assert_eq!(
        options.listing(&ListPlan::NoneMatched, &vec![]),
        "Membership proposals (state=Rejected, order=Oldest)\nNo membership proposals matched this filter.\n"
    );
    let rows = vec![MembershipRow {
        status: "rejected".to_string(),
        candidate: "5Eve".to_string(),
        name: "Eve".to_string(),
        proposed_by: "5Alice".to_string(),
        yes_votes: 0,
        no_votes: 4294967295,
        vote_end: 77,
    }];
    assert_eq!(
        options.listing(&ListPlan::Show(vec![7]), &rows),
        "Membership proposals (state=Rejected, order=Oldest)\n#7 status=rejected candidate=5Eve name=Eve proposed_by=5Alice yes_votes=0 no_votes=4294967295 vote_end=77\n"
    );
}

#[test]
fn proposal_detail_text() {
    assert_eq!(proposal_detail(9, &None, 1, 2), "Proposal #9 not found (yes_votes=1, no_votes=2).\n");
    let detail = ProposalDetail {
        status: "Approved".to_string(),
        title: "workshop".to_string(),
        description: "fund-local-event".to_string(),
        class: "Standard".to_string(),
        action: "DisburseToAccount".to_string(),
        submitted_at: 1,
        vote_end: 101,
        approved_at: Some(102),
    };
    assert_eq!(
        proposal_detail(1, &Some(detail), 2, 1),
        "Proposal #1: status=Approved, title=workshop, description=fund-local-event, class=Standard, \
         action=DisburseToAccount, yes_votes=2, no_votes=1, submitted_at=1, vote_end=101, approved_at=102\n"
    );
}

#[test]
fn membership_detail_text() {
    assert_eq!(
        membership_detail(4, &None, 0, 0),
        "Membership proposal #4 not found (yes_votes=0, no_votes=0).\n"
    );
    let detail = MembershipDetail {
        status: "Active".to_string(),
        candidate: "5Dave".to_string(),
        name: "Dave".to_string(),
        proposed_by: "5Bob".to_string(),
        proposed_at: 3,
        vote_end: 53,
        active_member_snapshot: 5,
    };
    assert_eq!(
        membership_detail(2, &Some(detail), 3, 1),
        "Membership proposal #2: status=Active, candidate=5Dave, name=Dave, proposed_by=5Bob, proposed_at=3, \
         vote_end=53, active_member_snapshot=5, yes_votes=3, no_votes=1\n"
    );
}

#[test]
fn decimal_text_writes_plain_decimal() {
    assert_eq!(decimal_text(0), "0");
    assert_eq!(decimal_text(9), "9");
    assert_eq!(decimal_text(10), "10");
    assert_eq!(decimal_text(1_000_000_007), "1000000007");
    assert_eq!(decimal_text(u128::MAX), u128::MAX.to_string());
    for n in [0u128, 5, 42, 1 << 60, u128::MAX] {
        assert_eq!(parse_decimal_u128(&decimal_text(n)), Some(n));
    }
}

#[test]
fn pager_choice() {
    assert!(!use_pager(true, true, true));
    assert!(!use_pager(false, true, true));
    assert!(use_pager(true, false, false));
    assert!(use_pager(false, false, true));
    assert!(!use_pager(false, false, false));
}

#[test]
fn accepted_hash_text_is_written_back_lower_case() {
    let digits = "0123456789ABCDEFabcdef".repeat(3)[..64].to_string();
    let hash = parse_code_hash(&format!("0x{digits}")).expect("64 hex digits parse");
    assert_eq!(format_hex(&hash), digits.to_ascii_lowercase());
    assert_eq!(parse_code_hash(&digits), Ok(hash));
}
