use finality_party::button::{
    AccountId, ButtonCreated, ButtonError, ButtonPressed, EnvErrorKind, OwnershipTransferred,
    PressOutcome, YellowButton,
};

fn acc(n: u8) -> AccountId {
    AccountId([n; 32])
}

fn game() -> YellowButton {
    let (b, created) = YellowButton::new(acc(1), 10, acc(99), 5);
    assert_eq!(created, ButtonCreated { start: 10, deadline: 15 });
    b
}

#[test]
fn only_owner_manages_whitelist() {
    let mut b = game();
    assert_eq!(b.allow(acc(2), acc(3)), Err(ButtonError::NotOwner));
    assert!(!b.can_play(&acc(3)));
    assert_eq!(b.allow(acc(1), acc(3)), Ok(()));
    assert!(b.can_play(&acc(3)));
    assert_eq!(b.disallow(acc(2), acc(3)), Err(ButtonError::NotOwner));
    assert_eq!(b.disallow(acc(1), acc(3)), Ok(()));
    assert!(!b.can_play(&acc(3)));
    assert_eq!(b.bulk_allow(acc(2), &vec![acc(4)]), Err(ButtonError::NotOwner));
    assert_eq!(b.bulk_allow(acc(1), &vec![acc(4), acc(5), acc(4)]), Ok(()));
    assert!(b.can_play(&acc(4)));
    assert!(b.can_play(&acc(5)));
    assert!(!b.can_play(&acc(6)));
}

#[test]
fn ownership_moves_only_by_owner() {
    let mut b = game();
    assert_eq!(b.transfer_ownership(acc(2), acc(2)), Err(ButtonError::NotOwner));
    assert_eq!(
        b.transfer_ownership(acc(1), acc(2)),
        Ok(OwnershipTransferred { from: acc(1), to: acc(2) })
    );
    assert_eq!(b.owner(), acc(2));
    assert_eq!(b.allow(acc(1), acc(3)), Err(ButtonError::NotOwner));
}

#[test]
fn press_records_scores() {
    let mut b = game();
    b.bulk_allow(acc(1), &vec![acc(2), acc(3)]).unwrap();
    assert_eq!(b.press(acc(4), 16), Err(ButtonError::NotWhitelisted));
    assert_eq!(
        b.press(acc(2), 16),
        Ok(PressOutcome::Pressed(ButtonPressed { from: acc(2), when: 16, new_deadline: 21 }))
    );
    assert_eq!(b.score_of(&acc(2)), Some(16));
    assert_eq!(b.press(acc(2), 22), Err(ButtonError::AlreadyParticipated));
    assert_eq!(
        b.press(acc(3), 24),
        Ok(PressOutcome::Pressed(ButtonPressed { from: acc(3), when: 24, new_deadline: 29 }))
    );
    assert_eq!(b.score_of(&acc(3)), Some(8));
    assert_eq!(b.total_scores(), 24);
    assert_eq!(b.last_presser(), Some(acc(3)));
    assert_eq!(b.deadline(), 29);
}

#[test]
fn press_at_or_before_deadline_kills_button() {
    let mut b = game();
    b.allow(acc(1), acc(2)).unwrap();
    assert_eq!(b.press(acc(2), 15), Ok(PressOutcome::Died));
    assert!(b.is_dead());
    assert_eq!(b.press(acc(2), 30), Err(ButtonError::AfterDeadline));
}

#[test]
fn payouts_split_balance() {
    let mut b = game();
    b.bulk_allow(acc(1), &vec![acc(2), acc(3)]).unwrap();
    b.press(acc(2), 16).unwrap();
    b.press(acc(3), 24).unwrap();
    assert_eq!(b.press(acc(2), 25), Ok(PressOutcome::Died));
    let p = b.death_payouts(1001);
    assert_eq!(p.pressiah, Some((acc(3), 500)));
    assert_eq!(p.rewards, vec![(acc(2), 0), (acc(3), 0)]);

    let mut single = game();
    single.allow(acc(1), acc(2)).unwrap();
    single.press(acc(2), 16).unwrap();
    single.press(acc(2), 17).unwrap();
    let p = single.death_payouts(100);
    assert_eq!(p.pressiah, Some((acc(2), 50)));
    assert_eq!(p.rewards, vec![(acc(2), 50)]);
}

#[test]
fn payouts_without_pressers() {
    let b = game();
    let p = b.death_payouts(7);
    assert_eq!(p.pressiah, None);
    assert!(p.rewards.is_empty());
}

#[test]
fn contract_call_messages() {
    assert_eq!(
        ButtonError::from_env_kind(EnvErrorKind::CalleeTrapped),
        ButtonError::ContractCall(String::from("Contract call failed due to CalleeTrapped error"))
    );
    assert_eq!(
        ButtonError::from_env_kind(EnvErrorKind::EndowmentTooLow),
        ButtonError::ContractCall(String::from(
            "Contract call failed due to _EndowmentTooLow error"
        ))
    );
    assert_eq!(
        ButtonError::from_env_error(ink_env::Error::TransferFailed),
        ButtonError::ContractCall(String::from("Contract call failed due to TransferFailed error"))
    );
    assert_eq!(
        ButtonError::from_env_error(ink_env::Error::Unknown),
        ButtonError::ContractCall(String::from("Contract call failed due to Unknown error"))
    );
}
