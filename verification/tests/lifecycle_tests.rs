use defi_derivatives_protocol::accounts::{
    Address, Authority, CreateOption, ExerciseOption, ExerciseParams, Initialize, OptionContract,
    OptionParams, OptionStatus, State, TransferOutcome, TransferRequest,
};
use defi_derivatives_protocol::errors::ProtocolError;
use defi_derivatives_protocol::lifecycle::{
    create_option, exercise_option, initialize, issue_option, settle_exercise_leg, ExerciseLeg,
    ExerciseStep, Issuance, PendingExercise,
};

fn address(fill: u8) -> Address {
    Address { bytes: [fill; 32] }
}

fn creation() -> CreateOption {
    CreateOption {
        program_id: address(9),
        creator: address(1),
        creator_underlying_account: address(11),
        option_underlying_account: address(12),
    }
}

fn params(expiration: i64) -> OptionParams {
    OptionParams {
        underlying_asset_mint: address(30),
        strike_asset_mint: address(31),
        strike_price: 100_000_000,
        expiration,
        current_price: 100_000_000,
        risk_free_rate: 50_000,
        volatility: 200_000,
        amount: 10,
    }
}

fn contract(expiration: i64, is_exercised: bool) -> OptionContract {
    OptionContract {
        creator: address(1),
        underlying_asset_mint: address(30),
        strike_price: 250,
        expiration,
        is_exercised,
        option_price: 45,
        amount: 10,
        bump: 254,
    }
}

fn open(request: &ExerciseOption, now: i64) -> (TransferRequest, PendingExercise) {
    exercise_option(request, &ExerciseParams {}, now).unwrap()
}

fn after_consideration(request: &mut ExerciseOption, now: i64) -> (TransferRequest, PendingExercise) {
    let (_, pending) = open(request, now);
    match settle_exercise_leg(request, pending, TransferOutcome::Completed) {
        ExerciseStep::Transfer(release, pending) => (release, pending),
        other => panic!("no release requested: {:?}", other),
    }
}

fn refusal(request: &ExerciseOption, now: i64) -> ProtocolError {
    exercise_option(request, &ExerciseParams {}, now).unwrap_err()
}

fn exercise(expiration: i64, is_exercised: bool) -> ExerciseOption {
    ExerciseOption {
        exerciser: address(2),
        option_contract_address: address(40),
        option_contract: contract(expiration, is_exercised),
        creator_strike_account: address(13),
        exerciser_strike_account: address(14),
        option_underlying_account: address(12),
        exerciser_underlying_account: address(15),
    }
}

#[test]
fn initialize_records_the_admin() {
    assert_eq!(initialize(&Initialize { admin: address(5) }), State { admin: address(5) });
}

#[test]
fn create_at_the_money_for_one_year() {
    let issuance = create_option(&creation(), &params(31_536_000), 0).unwrap();
    assert_eq!(issuance.contract.option_price, 10_709_144);
    assert!(!issuance.contract.is_exercised);
    assert_eq!(issuance.contract.creator, address(1));
    assert_eq!(issuance.contract.underlying_asset_mint, address(30));
    assert_eq!(issuance.contract.strike_price, 100_000_000);
    assert_eq!(issuance.contract.expiration, 31_536_000);
    assert_eq!(issuance.contract.amount, 10);
    assert_eq!(
        issuance.deposit,
        TransferRequest {
            from: address(11),
            to: address(12),
            amount: 10,
            authority: Authority::Holder(address(1)),
        }
    );
    assert_eq!(issuance.contract.status(0), OptionStatus::Active);
}

#[test]
fn create_with_expiration_now_is_refused() {
    assert_eq!(
        create_option(&creation(), &params(500), 500),
        Err(ProtocolError::InvalidExpiration)
    );
    assert_eq!(
        create_option(&creation(), &params(499), 500),
        Err(ProtocolError::InvalidExpiration)
    );
    assert_eq!(
        issue_option(&creation(), &params(500), 500, Some((address(40), 255))),
        Err(ProtocolError::InvalidExpiration)
    );
}

#[test]
fn exercise_after_expiration_is_refused() {
    let mut asked = params(100);
    asked.current_price = 200_000_000;
    let issuance = create_option(&creation(), &asked, 0).unwrap();
    assert_eq!(issuance.contract.option_price, 100_000_000);
    let mut request = exercise(100, false);
    request.option_contract = issuance.contract;
    request.option_contract_address = issuance.contract_address;
    assert_eq!(refusal(&request, 101), ProtocolError::OptionExpired);
    assert!(!request.option_contract.is_exercised);
    assert_eq!(request.option_contract.status(101), OptionStatus::Expired);
    assert!(exercise_option(&request, &ExerciseParams {}, 100).is_ok());
    request.option_contract.expiration = i64::MIN;
    assert_eq!(refusal(&request, i64::MIN + 1), ProtocolError::OptionExpired);
}

#[test]
fn exercise_moves_both_legs_once() {
    let mut request = exercise(1_000, false);
    let before = request;
    let (consideration, pending) = open(&request, 1_000);
    assert_eq!(
        consideration,
        TransferRequest {
            from: address(14),
            to: address(13),
            amount: 250,
            authority: Authority::Holder(address(2)),
        }
    );
    assert_eq!(pending.accepted_time(), 1_000);
    assert_eq!(pending.awaited_leg(), ExerciseLeg::Consideration);
    let (release, pending) = match settle_exercise_leg(
        &mut request,
        pending,
        TransferOutcome::Completed,
    ) {
        ExerciseStep::Transfer(release, pending) => (release, pending),
        other => panic!("no release requested: {:?}", other),
    };
    assert_eq!(
        release,
        TransferRequest {
            from: address(12),
            to: address(15),
            amount: 10,
            authority: Authority::Escrow { account: address(40), creator: address(1), bump: 254 },
        }
    );
    assert_eq!(pending.accepted_time(), 1_000);
    assert_eq!(pending.awaited_leg(), ExerciseLeg::Release);
    assert_eq!(request, before);
    let step = settle_exercise_leg(&mut request, pending, TransferOutcome::Completed);
    assert_eq!(step, ExerciseStep::Commit);
    assert!(request.option_contract.is_exercised);
    assert_eq!(request.option_contract, contract(1_000, true));
    assert_eq!(request.option_contract.status(1_000), OptionStatus::Exercised);

    assert_eq!(refusal(&request, 1_000), ProtocolError::OptionAlreadyExercised);
}

#[test]
fn exercised_contract_refuses_every_report() {
    let outcomes = [TransferOutcome::Completed, TransferOutcome::Failed];
    for outcome in outcomes {
        let mut live = exercise(1_000, false);
        let (_, first) = open(&live, 10);
        live.option_contract.is_exercised = true;
        let step = settle_exercise_leg(&mut live, first, outcome);
        assert_eq!(step, ExerciseStep::Abort(ProtocolError::OptionAlreadyExercised));
        assert_eq!(live, exercise(1_000, true));

        let mut live = exercise(1_000, false);
        let (_, second) = after_consideration(&mut live, 10);
        live.option_contract.is_exercised = true;
        let step = settle_exercise_leg(&mut live, second, outcome);
        assert_eq!(step, ExerciseStep::Abort(ProtocolError::OptionAlreadyExercised));
        assert_eq!(live, exercise(1_000, true));
    }
}

#[test]
fn exercised_contract_past_expiration_is_refused_as_expired() {
    assert_eq!(refusal(&exercise(100, true), 101), ProtocolError::OptionExpired);
    assert_eq!(refusal(&exercise(100, true), 100), ProtocolError::OptionAlreadyExercised);
    assert_eq!(refusal(&exercise(100, false), 101), ProtocolError::OptionExpired);
    assert_eq!(contract(100, true).status(101), OptionStatus::Exercised);
}

#[test]
fn report_is_held_against_the_expiration_again() {
    let accepted = exercise(1_000, false);
    let (_, pending) = open(&accepted, 500);
    let mut shorter = exercise(499, false);
    let step = settle_exercise_leg(&mut shorter, pending, TransferOutcome::Completed);
    assert_eq!(step, ExerciseStep::Abort(ProtocolError::OptionExpired));
    assert_eq!(shorter, exercise(499, false));

    let mut live = exercise(1_000, false);
    let (_, pending) = after_consideration(&mut live, 500);
    let mut shorter = exercise(499, true);
    let step = settle_exercise_leg(&mut shorter, pending, TransferOutcome::Completed);
    assert_eq!(step, ExerciseStep::Abort(ProtocolError::OptionExpired));
    assert_eq!(shorter, exercise(499, true));
}

#[test]
fn failed_consideration_leaves_the_contract_unexercised() {
    let mut request = exercise(1_000, false);
    let (_, pending) = open(&request, 10);
    let step = settle_exercise_leg(&mut request, pending, TransferOutcome::Failed);
    assert_eq!(step, ExerciseStep::Abort(ProtocolError::InsufficientFunds));
    assert_eq!(request, exercise(1_000, false));
}

#[test]
fn failed_release_leaves_the_contract_unexercised() {
    let mut request = exercise(1_000, false);
    let (_, pending) = after_consideration(&mut request, 10);
    let step = settle_exercise_leg(&mut request, pending, TransferOutcome::Failed);
    assert_eq!(step, ExerciseStep::Abort(ProtocolError::InsufficientFunds));
    assert_eq!(request, exercise(1_000, false));
    assert!(exercise_option(&request, &ExerciseParams {}, 1_000).is_ok());
}

#[test]
fn completed_consideration_does_not_commit() {
    let mut request = exercise(1_000, false);
    let (_, pending) = open(&request, 10);
    let step = settle_exercise_leg(&mut request, pending, TransferOutcome::Completed);
    assert!(matches!(step, ExerciseStep::Transfer(_, _)));
    assert!(!request.option_contract.is_exercised);
}

#[test]
fn only_one_of_two_interleaved_exercises_commits() {
    let mut request = exercise(1_000, false);
    let (_, first) = after_consideration(&mut request, 10);
    let (_, second) = after_consideration(&mut request, 11);
    let first = settle_exercise_leg(&mut request, first, TransferOutcome::Completed);
    let second = settle_exercise_leg(&mut request, second, TransferOutcome::Completed);
    assert_eq!(first, ExerciseStep::Commit);
    assert_eq!(second, ExerciseStep::Abort(ProtocolError::OptionAlreadyExercised));
    assert!(request.option_contract.is_exercised);
}

#[test]
fn issue_prices_the_premium_and_fills_the_record() {
    let mut asked = params(31_536_000 + 77);
    asked.current_price = 300;
    asked.strike_price = 100;
    let issued = issue_option(&creation(), &asked, 77, Some((address(40), 251)));
    assert_eq!(
        issued,
        Ok(Issuance {
            contract: OptionContract {
                creator: address(1),
                underlying_asset_mint: address(30),
                strike_price: 100,
                expiration: 31_536_000 + 77,
                is_exercised: false,
                option_price: 204,
                amount: 10,
                bump: 251,
            },
            contract_address: address(40),
            deposit: TransferRequest {
                from: address(11),
                to: address(12),
                amount: 10,
                authority: Authority::Holder(address(1)),
            },
        })
    );
}

#[test]
fn issue_takes_the_time_to_expiry_over_the_whole_range() {
    let mut asked = params(i64::MAX);
    asked.volatility = 0;
    let issued = issue_option(&creation(), &asked, i64::MIN, Some((address(40), 255))).unwrap();
    assert_eq!(issued.contract.option_price, 0);
    assert_eq!(issued.contract.expiration, i64::MAX);
}

#[test]
fn issue_without_an_escrow_authority_is_refused() {
    assert_eq!(
        issue_option(&creation(), &params(31_536_000), 0, None),
        Err(ProtocolError::EscrowAuthorityUnavailable)
    );
}

#[test]
fn issue_reports_a_pricing_fault() {
    let mut asked = params(31_536_000);
    asked.current_price = 99;
    asked.strike_price = 100;
    assert_eq!(
        issue_option(&creation(), &asked, 0, Some((address(40), 255))),
        Err(ProtocolError::ArithmeticFault)
    );
    assert_eq!(create_option(&creation(), &asked, 0), Err(ProtocolError::ArithmeticFault));
    assert_eq!(
        issue_option(&creation(), &asked, 0, None),
        Err(ProtocolError::ArithmeticFault)
    );
}

#[test]
fn released_escrow_is_what_was_deposited() {
    let issuance = create_option(&creation(), &params(31_536_000), 0).unwrap();
    let mut request = ExerciseOption {
        exerciser: address(2),
        option_contract_address: issuance.contract_address,
        option_contract: issuance.contract,
        creator_strike_account: address(13),
        exerciser_strike_account: address(14),
        option_underlying_account: issuance.deposit.to,
        exerciser_underlying_account: address(15),
    };
    let (release, _) = after_consideration(&mut request, 5);
    assert_eq!(release.amount, issuance.deposit.amount);
    assert_eq!(release.from, issuance.deposit.to);
    assert_eq!(
        release.authority,
        Authority::Escrow {
            account: issuance.contract_address,
            creator: address(1),
            bump: issuance.contract.bump,
        }
    );
}

#[test]
fn status_follows_the_flag_and_the_clock() {
    assert_eq!(contract(100, false).status(99), OptionStatus::Active);
    assert_eq!(contract(100, false).status(100), OptionStatus::Active);
    assert_eq!(contract(100, false).status(101), OptionStatus::Expired);
    assert_eq!(contract(100, true).status(99), OptionStatus::Exercised);
}

#[test]
fn every_error_has_its_message() {
    assert_eq!(
        ProtocolError::OptionAlreadyExercised.message(),
        "Option has already been exercised."
    );
    assert_eq!(ProtocolError::OptionExpired.message(), "Option has expired.");
    assert_eq!(ProtocolError::InvalidExpiration.message(), "Invalid expiration time.");
    assert_eq!(ProtocolError::InsufficientFunds.message(), "Insufficient funds.");
    assert_eq!(ProtocolError::ArithmeticFault.message(), "Arithmetic fault.");
    assert_eq!(
        ProtocolError::EscrowAuthorityUnavailable.message(),
        "Escrow authority unavailable."
    );
}
