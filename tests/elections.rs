use finality_party::button::AccountId;
use finality_party::elections::{DispatchError, Event, GenesisConfig, Origin};

fn acc(n: u8) -> AccountId {
    AccountId([n; 32])
}

fn genesis() -> GenesisConfig {
    GenesisConfig {
        members: vec![acc(1), acc(2)],
        millisecs_per_block: 1000,
        session_period: 900,
        sessions_per_era: 96,
    }
}

#[test]
fn genesis_build_stores_config() {
    let p = genesis().build();
    assert_eq!(p.members(), vec![acc(1), acc(2)]);
    assert_eq!(p.millisecs_per_block(), 1000);
    assert_eq!(p.session_period(), 900);
    assert_eq!(p.sessions_per_era(), 96);
}

#[test]
fn only_root_changes_members() {
    let mut p = genesis().build();
    assert_eq!(
        p.change_members(Origin::Signed(acc(1)), vec![acc(3)]),
        Err(DispatchError::BadOrigin)
    );
    assert_eq!(p.change_members(Origin::Unsigned, vec![acc(3)]), Err(DispatchError::BadOrigin));
    assert_eq!(p.members(), vec![acc(1), acc(2)]);
    assert_eq!(
        p.change_members(Origin::Root, vec![acc(3), acc(4), acc(5)]),
        Ok(Event::ChangeMembers(vec![acc(3), acc(4), acc(5)]))
    );
    assert_eq!(p.members(), vec![acc(3), acc(4), acc(5)]);
    assert_eq!(p.session_period(), 900);
}

#[test]
fn elect_gives_each_member_empty_support() {
    let p = genesis().build();
    let elected = p.elect();
    assert_eq!(elected.len(), 2);
    for (i, (who, support)) in elected.iter().enumerate() {
        assert_eq!(*who, acc(i as u8 + 1));
        assert_eq!(support.total, 0);
        assert!(support.voters.is_empty());
    }
    let mut empty = genesis().build();
    empty.change_members(Origin::Root, vec![]).unwrap();
    assert!(empty.elect().is_empty());
}
