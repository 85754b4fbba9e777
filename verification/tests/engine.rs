use mini_dao::{
    Address, CallOutcome, DaoError, DataKey, Dispatch, ExecutionWindow, Invocation, Member,
    MiniDao, Proposal, ProposalStatus, TokenTransfer, MEMBER_ALLOTMENT,
};

fn address(key: &str) -> Address {
    Address::new(key.to_string())
}

fn signed(timestamp: u64, signers: &[&str]) -> Invocation {
    let mut call = Invocation::new(timestamp);
    for signer in signers {
        call.authorize(address(signer));
    }
    call
}

fn initialized(window: ExecutionWindow) -> MiniDao {
    let mut dao = MiniDao::new(window);
    let call = signed(0, &["admin"]);
    assert_eq!(dao.initalize(&call, &address("admin"), address("token")), Ok(()));
    dao
}

fn join(dao: &mut MiniDao, timestamp: u64, who: &str) {
    let call = signed(timestamp, &["admin"]);
    assert_eq!(
        dao.add_member(&call, &address("admin"), address(who), CallOutcome::Completed),
        Ok(())
    );
}

fn propose(dao: &mut MiniDao, timestamp: u64, who: &str, seconds: u64) -> Result<u32, DaoError> {
    let call = signed(timestamp, &[who]);
    dao.create_proposal(
        &call,
        address(who),
        [7u8; 32],
        address("target"),
        "set_fee".to_string(),
        vec![11u64, 22u64],
        seconds,
    )
}

fn cast(
    dao: &mut MiniDao,
    timestamp: u64,
    who: &str,
    id: u32,
    vote_for: bool,
) -> Result<(), DaoError> {
    let call = signed(timestamp, &[who]);
    dao.vote(&call, &address(who), id, vote_for)
}

fn execute(
    dao: &mut MiniDao,
    timestamp: u64,
    id: u32,
    dispatch: CallOutcome,
) -> Result<ProposalStatus, DaoError> {
    let call = signed(timestamp, &["anyone"]);
    dao.execute_proposal(&call, &address("anyone"), id, dispatch)
}

fn member(key: &str, balance: i128, voted: Vec<u32>) -> Member {
    Member {
        address: address(key),
        token_balance: balance,
        joined_timestamp: 5,
        voted_proposals: voted,
    }
}

fn proposal(id: u32, votes_for: i128, votes_against: i128, deadline: u64) -> Proposal {
    Proposal {
        id,
        proposer: address("a"),
        description: [0u8; 32],
        target: address("target"),
        function: "run".to_string(),
        parameters: vec![1u64],
        votes_for,
        votes_against,
        status: ProposalStatus::Active,
        deadline,
    }
}

#[test]
fn allotment_is_one_hundred() {
    assert_eq!(MEMBER_ALLOTMENT, 100i128);
}

#[test]
fn new_engine_has_no_entries() {
    let dao = MiniDao::new(ExecutionWindow::AfterVoting);
    assert!(!dao.has(DataKey::TokenAddress));
    assert!(!dao.has(DataKey::Members));
    assert!(!dao.has(DataKey::Proposals));
    assert!(!dao.has(DataKey::ProposalCount));
    assert_eq!(dao.get_member(&address("a")), None);
    assert_eq!(dao.get_proposal(1), None);
    assert_eq!(dao.window(), ExecutionWindow::AfterVoting);
}

#[test]
fn default_window_is_after_voting() {
    assert_eq!(ExecutionWindow::default(), ExecutionWindow::AfterVoting);
}

#[test]
fn initalize_installs_all_entries() {
    let dao = initialized(ExecutionWindow::AfterVoting);
    assert!(dao.has(DataKey::TokenAddress));
    assert!(dao.has(DataKey::Members));
    assert!(dao.has(DataKey::Proposals));
    assert!(dao.has(DataKey::ProposalCount));
    let (token, members, proposals, count) = dao.into_entries();
    assert_eq!(token, Some(address("token")));
    assert_eq!(members, Some(vec![]));
    assert_eq!(proposals, Some(vec![]));
    assert_eq!(count, Some(0u32));
}

#[test]
fn initalize_needs_the_admin_signature() {
    let mut dao = MiniDao::new(ExecutionWindow::AfterVoting);
    let call = signed(0, &["someone"]);
    assert_eq!(
        dao.initalize(&call, &address("admin"), address("token")),
        Err(DaoError::Unauthorized)
    );
    assert!(!dao.has(DataKey::Members));
}

#[test]
fn initalize_again_resets_the_engine() {
    let mut dao = initialized(ExecutionWindow::AfterVoting);
    join(&mut dao, 1, "a");
    assert_eq!(propose(&mut dao, 2, "a", 10), Ok(1));
    let call = signed(3, &["admin"]);
    assert_eq!(dao.initalize(&call, &address("admin"), address("other")), Ok(()));
    assert_eq!(dao.get_member(&address("a")), None);
    assert_eq!(dao.get_proposal(1), None);
    let (token, members, proposals, count) = dao.into_entries();
    assert_eq!(token, Some(address("other")));
    assert_eq!(members, Some(vec![]));
    assert_eq!(proposals, Some(vec![]));
    assert_eq!(count, Some(0u32));
}

#[test]
fn added_member_has_the_allotment_and_no_votes() {
    let mut dao = initialized(ExecutionWindow::AfterVoting);
    join(&mut dao, 42, "a");
    let joined = dao.get_member(&address("a")).unwrap();
    assert_eq!(joined.address, address("a"));
    assert_eq!(joined.token_balance, 100i128);
    assert_eq!(joined.joined_timestamp, 42u64);
    assert_eq!(joined.voted_proposals, Vec::<u32>::new());
    assert_eq!(dao.get_member(&address("b")), None);
}

#[test]
fn member_grant_names_the_transfer() {
    let dao = initialized(ExecutionWindow::AfterVoting);
    let call = signed(1, &["admin"]);
    assert_eq!(
        dao.member_grant(&call, &address("admin"), &address("a")),
        Ok(TokenTransfer {
            token: address("token"),
            from: address("admin"),
            to: address("a"),
            amount: 100,
        })
    );
}

#[test]
fn member_grant_refusals() {
    let blank = MiniDao::new(ExecutionWindow::AfterVoting);
    let unsigned = signed(1, &[]);
    let call = signed(1, &["admin"]);
    assert_eq!(
        blank.member_grant(&unsigned, &address("admin"), &address("a")),
        Err(DaoError::Unauthorized)
    );
    assert_eq!(
        blank.member_grant(&call, &address("admin"), &address("a")),
        Err(DaoError::NotInitialized)
    );
    let mut dao = initialized(ExecutionWindow::AfterVoting);
    join(&mut dao, 1, "a");
    assert_eq!(
        dao.member_grant(&call, &address("admin"), &address("a")),
        Err(DaoError::DuplicateMember)
    );
}

#[test]
fn add_member_twice_is_refused() {
    let mut dao = initialized(ExecutionWindow::AfterVoting);
    join(&mut dao, 1, "a");
    assert_eq!(propose(&mut dao, 2, "a", 10), Ok(1));
    assert_eq!(cast(&mut dao, 3, "a", 1, true), Ok(()));
    let before = dao.get_member(&address("a"));
    let call = signed(9, &["admin"]);
    assert_eq!(
        dao.add_member(&call, &address("admin"), address("a"), CallOutcome::Completed),
        Err(DaoError::DuplicateMember)
    );
    assert_eq!(dao.get_member(&address("a")), before);
    assert_eq!(before.unwrap().voted_proposals, vec![1u32]);
}

#[test]
fn add_member_needs_the_admin_signature() {
    let mut dao = initialized(ExecutionWindow::AfterVoting);
    let call = signed(1, &["a"]);
    assert_eq!(
        dao.add_member(&call, &address("admin"), address("a"), CallOutcome::Completed),
        Err(DaoError::Unauthorized)
    );
    assert_eq!(dao.get_member(&address("a")), None);
}

#[test]
fn add_member_before_initalize_is_refused() {
    let mut dao = MiniDao::new(ExecutionWindow::AfterVoting);
    let call = signed(1, &["admin"]);
    assert_eq!(
        dao.add_member(&call, &address("admin"), address("a"), CallOutcome::Completed),
        Err(DaoError::NotInitialized)
    );
}

#[test]
fn add_member_with_failed_transfer_admits_nobody() {
    let mut dao = initialized(ExecutionWindow::AfterVoting);
    let call = signed(1, &["admin"]);
    assert_eq!(
        dao.add_member(&call, &address("admin"), address("a"), CallOutcome::Failed),
        Err(DaoError::ExternalCallFailed)
    );
    assert_eq!(dao.get_member(&address("a")), None);
    assert_eq!(
        dao.add_member(&call, &address("admin"), address("a"), CallOutcome::Completed),
        Ok(())
    );
}

#[test]
fn proposal_ids_are_dense_from_one() {
    let mut dao = initialized(ExecutionWindow::AfterVoting);
    join(&mut dao, 1, "a");
    join(&mut dao, 1, "b");
    assert_eq!(propose(&mut dao, 2, "a", 10), Ok(1));
    assert_eq!(propose(&mut dao, 2, "b", 10), Ok(2));
    assert_eq!(propose(&mut dao, 2, "c", 10), Err(DaoError::NotAMember));
    assert_eq!(propose(&mut dao, 3, "a", 10), Ok(3));
    assert_eq!(dao.get_proposal(0), None);
    assert_eq!(dao.get_proposal(1).unwrap().id, 1u32);
    assert_eq!(dao.get_proposal(2).unwrap().id, 2u32);
    assert_eq!(dao.get_proposal(3).unwrap().id, 3u32);
    assert_eq!(dao.get_proposal(4), None);
    let (_, _, proposals, count) = dao.into_entries();
    assert_eq!(count, Some(3u32));
    assert_eq!(proposals.unwrap().len(), 3usize);
}

#[test]
fn created_proposal_is_recorded_as_given() {
    let mut dao = initialized(ExecutionWindow::AfterVoting);
    join(&mut dao, 1, "a");
    assert_eq!(propose(&mut dao, 1000, "a", 3600), Ok(1));
    assert_eq!(
        dao.get_proposal(1),
        Some(Proposal {
            id: 1,
            proposer: address("a"),
            description: [7u8; 32],
            target: address("target"),
            function: "set_fee".to_string(),
            parameters: vec![11u64, 22u64],
            votes_for: 0,
            votes_against: 0,
            status: ProposalStatus::Active,
            deadline: 4600,
        })
    );
}

#[test]
fn create_proposal_refusals() {
    let mut blank = MiniDao::new(ExecutionWindow::AfterVoting);
    assert_eq!(propose(&mut blank, 1, "a", 10), Err(DaoError::NotInitialized));
    let mut dao = initialized(ExecutionWindow::AfterVoting);
    join(&mut dao, 1, "a");
    let unsigned = signed(1, &["b"]);
    assert_eq!(
        dao.create_proposal(
            &unsigned,
            address("a"),
            [0u8; 32],
            address("target"),
            "run".to_string(),
            vec![],
            10,
        ),
        Err(DaoError::Unauthorized)
    );
    assert_eq!(propose(&mut dao, 1, "b", 10), Err(DaoError::NotAMember));
    assert_eq!(propose(&mut dao, 1, "a", 0), Err(DaoError::InvalidDeadline));
    assert_eq!(
        propose(&mut dao, 1, "a", 0x8000_0000_0000_0000),
        Err(DaoError::InvalidDeadline)
    );
    assert_eq!(
        propose(&mut dao, u64::MAX - 5, "a", 6),
        Err(DaoError::Overflow)
    );
    assert_eq!(dao.get_proposal(1), None);
    let (_, _, _, count) = dao.into_entries();
    assert_eq!(count, Some(0u32));
}

#[test]
fn deadline_that_overflows_is_an_overflow() {
    let mut dao = initialized(ExecutionWindow::AfterVoting);
    join(&mut dao, 1, "a");
    assert_eq!(propose(&mut dao, 1000, "a", u64::MAX), Err(DaoError::Overflow));
    assert_eq!(propose(&mut dao, 1, "a", u64::MAX), Err(DaoError::Overflow));
    assert_eq!(
        propose(&mut dao, 0x8000_0000_0000_0000, "a", 0x8000_0000_0000_0000),
        Err(DaoError::Overflow)
    );
    assert_eq!(propose(&mut dao, u64::MAX, "a", 1), Err(DaoError::Overflow));
    assert_eq!(propose(&mut dao, u64::MAX, "a", 0), Err(DaoError::InvalidDeadline));
    assert_eq!(propose(&mut dao, 0, "a", u64::MAX), Err(DaoError::InvalidDeadline));
    assert_eq!(
        propose(&mut dao, 0x7fff_ffff_ffff_ffff, "a", 0x8000_0000_0000_0000),
        Err(DaoError::InvalidDeadline)
    );
    assert_eq!(dao.get_proposal(1), None);
    let (_, _, proposals, count) = dao.into_entries();
    assert_eq!(proposals, Some(vec![]));
    assert_eq!(count, Some(0u32));
}

#[test]
fn deadline_is_now_plus_period() {
    let mut dao = initialized(ExecutionWindow::AfterVoting);
    join(&mut dao, 1, "a");
    assert_eq!(propose(&mut dao, u64::MAX - 5, "a", 5), Ok(1));
    assert_eq!(dao.get_proposal(1).unwrap().deadline, u64::MAX);
    assert_eq!(propose(&mut dao, 10, "a", 0x7fff_ffff_ffff_ffff), Ok(2));
    assert_eq!(dao.get_proposal(2).unwrap().deadline, 0x8000_0000_0000_0009u64);
}

#[test]
fn vote_adds_the_balance_to_one_side() {
    let mut dao = initialized(ExecutionWindow::AfterVoting);
    join(&mut dao, 1, "a");
    join(&mut dao, 1, "b");
    join(&mut dao, 1, "c");
    assert_eq!(propose(&mut dao, 2, "a", 100), Ok(1));
    assert_eq!(cast(&mut dao, 3, "a", 1, true), Ok(()));
    assert_eq!(cast(&mut dao, 4, "b", 1, false), Ok(()));
    assert_eq!(cast(&mut dao, 5, "c", 1, true), Ok(()));
    let tallied = dao.get_proposal(1).unwrap();
    assert_eq!(tallied.votes_for, 200i128);
    assert_eq!(tallied.votes_against, 100i128);
    assert_eq!(tallied.status, ProposalStatus::Active);
    assert_eq!(dao.get_member(&address("a")).unwrap().voted_proposals, vec![1u32]);
    assert_eq!(dao.get_member(&address("b")).unwrap().voted_proposals, vec![1u32]);
}

#[test]
fn vote_weight_is_the_recorded_balance() {
    let mut dao = MiniDao::restore(
        Some(address("token")),
        Some(vec![member("a", 7, vec![]), member("b", 5, vec![]), member("c", -2, vec![])]),
        Some(vec![proposal(1, 0, 0, 50)]),
        Some(1),
        ExecutionWindow::AfterVoting,
    )
    .unwrap();
    assert_eq!(cast(&mut dao, 1, "a", 1, true), Ok(()));
    assert_eq!(cast(&mut dao, 1, "b", 1, false), Ok(()));
    assert_eq!(cast(&mut dao, 1, "c", 1, false), Ok(()));
    let tallied = dao.get_proposal(1).unwrap();
    assert_eq!(tallied.votes_for, 7i128);
    assert_eq!(tallied.votes_against, 3i128);
}

#[test]
fn second_vote_is_refused() {
    let mut dao = initialized(ExecutionWindow::AfterVoting);
    join(&mut dao, 1, "a");
    join(&mut dao, 1, "b");
    assert_eq!(propose(&mut dao, 2, "a", 100), Ok(1));
    assert_eq!(propose(&mut dao, 2, "a", 100), Ok(2));
    assert_eq!(cast(&mut dao, 3, "a", 1, true), Ok(()));
    assert_eq!(cast(&mut dao, 3, "a", 1, true), Err(DaoError::AlreadyVoted));
    assert_eq!(cast(&mut dao, 3, "a", 1, false), Err(DaoError::AlreadyVoted));
    assert_eq!(cast(&mut dao, 4, "b", 1, false), Ok(()));
    assert_eq!(cast(&mut dao, 4, "a", 2, false), Ok(()));
    join(&mut dao, 5, "c");
    assert_eq!(cast(&mut dao, 6, "a", 1, true), Err(DaoError::AlreadyVoted));
    assert_eq!(cast(&mut dao, 500, "a", 1, true), Err(DaoError::AlreadyVoted));
    let tallied = dao.get_proposal(1).unwrap();
    assert_eq!(tallied.votes_for, 100i128);
    assert_eq!(tallied.votes_against, 100i128);
    assert_eq!(dao.get_member(&address("a")).unwrap().voted_proposals, vec![1u32, 2u32]);
}

#[test]
fn vote_is_taken_at_the_deadline_and_not_after() {
    let mut dao = initialized(ExecutionWindow::AfterVoting);
    join(&mut dao, 1, "a");
    join(&mut dao, 1, "b");
    assert_eq!(propose(&mut dao, 1000, "a", 3600), Ok(1));
    assert_eq!(cast(&mut dao, 4600, "a", 1, true), Ok(()));
    let before = dao.get_proposal(1);
    let voter = dao.get_member(&address("b"));
    assert_eq!(cast(&mut dao, 4601, "b", 1, true), Err(DaoError::VotingClosed));
    assert_eq!(cast(&mut dao, u64::MAX, "b", 1, false), Err(DaoError::VotingClosed));
    assert_eq!(dao.get_proposal(1), before);
    assert_eq!(dao.get_member(&address("b")), voter);
    assert_eq!(before.unwrap().votes_for, 100i128);
}

#[test]
fn vote_on_missing_proposal_changes_nothing() {
    let mut dao = initialized(ExecutionWindow::AfterVoting);
    join(&mut dao, 1, "a");
    assert_eq!(propose(&mut dao, 2, "a", 100), Ok(1));
    let voter = dao.get_member(&address("a"));
    let only = dao.get_proposal(1);
    assert_eq!(cast(&mut dao, 3, "a", 2, true), Err(DaoError::ProposalNotFound));
    assert_eq!(cast(&mut dao, 3, "a", 0, true), Err(DaoError::ProposalNotFound));
    assert_eq!(cast(&mut dao, 3, "a", u32::MAX, false), Err(DaoError::ProposalNotFound));
    assert_eq!(dao.get_member(&address("a")), voter);
    assert_eq!(dao.get_proposal(1), only);
    assert_eq!(dao.get_proposal(2), None);
    let (token, members, proposals, count) = dao.into_entries();
    assert_eq!(token, Some(address("token")));
    assert_eq!(members, Some(vec![voter.unwrap()]));
    assert_eq!(proposals, Some(vec![only.unwrap()]));
    assert_eq!(count, Some(1u32));
}

#[test]
fn vote_refusals() {
    let mut blank = MiniDao::new(ExecutionWindow::AfterVoting);
    assert_eq!(cast(&mut blank, 1, "a", 1, true), Err(DaoError::NotInitialized));
    let mut dao = initialized(ExecutionWindow::AfterVoting);
    join(&mut dao, 1, "a");
    assert_eq!(propose(&mut dao, 2, "a", 100), Ok(1));
    let unsigned = signed(3, &["b"]);
    assert_eq!(dao.vote(&unsigned, &address("a"), 1, true), Err(DaoError::Unauthorized));
    assert_eq!(cast(&mut dao, 3, "b", 1, true), Err(DaoError::NotAMember));
    assert_eq!(cast(&mut dao, 3, "b", 9, true), Err(DaoError::NotAMember));
    assert_eq!(dao.get_proposal(1).unwrap().votes_for, 0i128);
}

#[test]
fn vote_that_overflows_the_tally_is_refused() {
    let mut dao = MiniDao::restore(
        Some(address("token")),
        Some(vec![member("a", i128::MAX, vec![]), member("b", -1, vec![])]),
        Some(vec![proposal(1, 1, i128::MIN, 50)]),
        Some(1),
        ExecutionWindow::AfterVoting,
    )
    .unwrap();
    assert_eq!(cast(&mut dao, 1, "a", 1, true), Err(DaoError::Overflow));
    assert_eq!(cast(&mut dao, 1, "b", 1, false), Err(DaoError::Overflow));
    assert_eq!(dao.get_proposal(1), Some(proposal(1, 1, i128::MIN, 50)));
    assert_eq!(dao.get_member(&address("a")), Some(member("a", i128::MAX, vec![])));
    assert_eq!(cast(&mut dao, 1, "a", 1, false), Ok(()));
    assert_eq!(dao.get_proposal(1).unwrap().votes_against, -1i128);
}

#[test]
fn tie_is_rejected() {
    let mut dao = initialized(ExecutionWindow::AfterVoting);
    join(&mut dao, 1, "a");
    join(&mut dao, 1, "b");
    assert_eq!(dao.get_member(&address("a")).unwrap().token_balance, 100i128);
    assert_eq!(dao.get_member(&address("b")).unwrap().token_balance, 100i128);
    assert_eq!(propose(&mut dao, 1000, "a", 3600), Ok(1));
    assert_eq!(cast(&mut dao, 1001, "a", 1, true), Ok(()));
    assert_eq!(cast(&mut dao, 1002, "b", 1, false), Ok(()));
    let tallied = dao.get_proposal(1).unwrap();
    assert_eq!(tallied.votes_for, 100i128);
    assert_eq!(tallied.votes_against, 100i128);
    let call = signed(4601, &["anyone"]);
    assert_eq!(dao.pending_dispatch(&call, &address("anyone"), 1), Ok(None));
    assert_eq!(execute(&mut dao, 4601, 1, CallOutcome::Completed), Ok(ProposalStatus::Rejected));
    assert_eq!(dao.get_proposal(1).unwrap().status, ProposalStatus::Rejected);
}

#[test]
fn passing_proposal_is_executed_and_dispatched_once() {
    let mut dao = initialized(ExecutionWindow::AfterVoting);
    join(&mut dao, 1, "a");
    assert_eq!(propose(&mut dao, 1000, "a", 3600), Ok(1));
    assert_eq!(cast(&mut dao, 1001, "a", 1, true), Ok(()));
    let call = signed(4601, &["anyone"]);
    assert_eq!(
        dao.pending_dispatch(&call, &address("anyone"), 1),
        Ok(Some(Dispatch {
            target: address("target"),
            function: "set_fee".to_string(),
            parameters: vec![11u64, 22u64],
        }))
    );
    assert_eq!(execute(&mut dao, 4601, 1, CallOutcome::Completed), Ok(ProposalStatus::Executed));
    let settled = dao.get_proposal(1).unwrap();
    assert_eq!(settled.status, ProposalStatus::Executed);
    assert_eq!(settled.votes_for, 100i128);
    assert_eq!(settled.votes_against, 0i128);
    assert_eq!(
        dao.pending_dispatch(&call, &address("anyone"), 1),
        Err(DaoError::AlreadyFinalized)
    );
}

#[test]
fn minority_is_rejected() {
    let mut dao = MiniDao::restore(
        Some(address("token")),
        Some(vec![member("a", 7, vec![])]),
        Some(vec![proposal(1, 3, 4, 50), proposal(2, 4, 3, 50), proposal(3, 0, 0, 50)]),
        Some(3),
        ExecutionWindow::AfterVoting,
    )
    .unwrap();
    assert_eq!(execute(&mut dao, 51, 1, CallOutcome::Completed), Ok(ProposalStatus::Rejected));
    assert_eq!(execute(&mut dao, 51, 2, CallOutcome::Completed), Ok(ProposalStatus::Executed));
    assert_eq!(execute(&mut dao, 51, 3, CallOutcome::Failed), Ok(ProposalStatus::Rejected));
    assert_eq!(dao.get_proposal(1).unwrap().status, ProposalStatus::Rejected);
    assert_eq!(dao.get_proposal(2).unwrap().status, ProposalStatus::Executed);
    assert_eq!(dao.get_proposal(3).unwrap().status, ProposalStatus::Rejected);
}

#[test]
fn settled_proposal_is_not_executed_again() {
    let mut dao = initialized(ExecutionWindow::AfterVoting);
    join(&mut dao, 1, "a");
    assert_eq!(propose(&mut dao, 10, "a", 10), Ok(1));
    assert_eq!(propose(&mut dao, 10, "a", 10), Ok(2));
    assert_eq!(cast(&mut dao, 11, "a", 1, true), Ok(()));
    assert_eq!(execute(&mut dao, 21, 1, CallOutcome::Completed), Ok(ProposalStatus::Executed));
    assert_eq!(execute(&mut dao, 21, 2, CallOutcome::Completed), Ok(ProposalStatus::Rejected));
    let first = dao.get_proposal(1);
    let second = dao.get_proposal(2);
    assert_eq!(execute(&mut dao, 21, 1, CallOutcome::Completed), Err(DaoError::AlreadyFinalized));
    assert_eq!(execute(&mut dao, 99, 1, CallOutcome::Failed), Err(DaoError::AlreadyFinalized));
    assert_eq!(execute(&mut dao, 22, 2, CallOutcome::Completed), Err(DaoError::AlreadyFinalized));
    assert_eq!(dao.get_proposal(1), first);
    assert_eq!(dao.get_proposal(2), second);
}

#[test]
fn failed_dispatch_leaves_the_proposal_active() {
    let mut dao = initialized(ExecutionWindow::AfterVoting);
    join(&mut dao, 1, "a");
    assert_eq!(propose(&mut dao, 10, "a", 10), Ok(1));
    assert_eq!(cast(&mut dao, 11, "a", 1, true), Ok(()));
    let before = dao.get_proposal(1);
    assert_eq!(execute(&mut dao, 21, 1, CallOutcome::Failed), Err(DaoError::ExternalCallFailed));
    assert_eq!(dao.get_proposal(1), before);
    assert_eq!(before.unwrap().status, ProposalStatus::Active);
    assert_eq!(execute(&mut dao, 22, 1, CallOutcome::Completed), Ok(ProposalStatus::Executed));
}

#[test]
fn execute_refusals() {
    let mut blank = MiniDao::new(ExecutionWindow::AfterVoting);
    assert_eq!(execute(&mut blank, 1, 1, CallOutcome::Completed), Err(DaoError::NotInitialized));
    let mut dao = initialized(ExecutionWindow::AfterVoting);
    join(&mut dao, 1, "a");
    assert_eq!(propose(&mut dao, 10, "a", 10), Ok(1));
    let unsigned = signed(21, &[]);
    assert_eq!(
        dao.execute_proposal(&unsigned, &address("anyone"), 1, CallOutcome::Completed),
        Err(DaoError::Unauthorized)
    );
    assert_eq!(execute(&mut dao, 21, 0, CallOutcome::Completed), Err(DaoError::ProposalNotFound));
    assert_eq!(execute(&mut dao, 21, 2, CallOutcome::Completed), Err(DaoError::ProposalNotFound));
    assert_eq!(execute(&mut dao, 19, 1, CallOutcome::Completed), Err(DaoError::VotingStillOpen));
    assert_eq!(execute(&mut dao, 20, 1, CallOutcome::Completed), Err(DaoError::VotingStillOpen));
    assert_eq!(dao.get_proposal(1).unwrap().status, ProposalStatus::Active);
    assert_eq!(execute(&mut dao, 21, 1, CallOutcome::Completed), Ok(ProposalStatus::Rejected));
}

#[test]
fn execution_during_voting_closes_with_the_deadline() {
    let mut dao = initialized(ExecutionWindow::DuringVoting);
    assert_eq!(dao.window(), ExecutionWindow::DuringVoting);
    join(&mut dao, 1, "a");
    join(&mut dao, 1, "b");
    assert_eq!(propose(&mut dao, 10, "a", 10), Ok(1));
    assert_eq!(propose(&mut dao, 10, "a", 10), Ok(2));
    assert_eq!(cast(&mut dao, 11, "a", 1, true), Ok(()));
    assert_eq!(execute(&mut dao, 20, 1, CallOutcome::Completed), Ok(ProposalStatus::Executed));
    assert_eq!(cast(&mut dao, 20, "b", 1, false), Err(DaoError::AlreadyFinalized));
    assert_eq!(cast(&mut dao, 21, "b", 1, false), Err(DaoError::VotingClosed));
    assert_eq!(dao.get_proposal(1).unwrap().votes_against, 0i128);
    assert_eq!(execute(&mut dao, 21, 2, CallOutcome::Completed), Err(DaoError::VotingClosed));
    assert_eq!(dao.get_proposal(2).unwrap().status, ProposalStatus::Active);
}

#[test]
fn restore_takes_valid_entries_only() {
    assert!(MiniDao::restore(None, None, None, None, ExecutionWindow::AfterVoting).is_some());
    assert!(MiniDao::restore(
        Some(address("token")),
        Some(vec![member("a", 1, vec![]), member("b", 1, vec![9u32])]),
        Some(vec![proposal(1, 0, 0, 5), proposal(2, 0, 0, 5)]),
        Some(2),
        ExecutionWindow::AfterVoting,
    )
    .is_some());
    assert_eq!(
        MiniDao::restore(
            None,
            Some(vec![member("a", 1, vec![]), member("b", 1, vec![]), member("a", 2, vec![])]),
            None,
            None,
            ExecutionWindow::AfterVoting,
        ),
        None
    );
    assert_eq!(
        MiniDao::restore(
            None,
            None,
            Some(vec![proposal(1, 0, 0, 5), proposal(3, 0, 0, 5)]),
            None,
            ExecutionWindow::AfterVoting,
        ),
        None
    );
    assert_eq!(
        MiniDao::restore(
            None,
            None,
            Some(vec![proposal(0, 0, 0, 5)]),
            None,
            ExecutionWindow::AfterVoting,
        ),
        None
    );
    assert_eq!(
        MiniDao::restore(
            None,
            None,
            Some(vec![proposal(1, 0, 0, 5)]),
            Some(2),
            ExecutionWindow::AfterVoting,
        ),
        None
    );
}

#[test]
fn restore_gives_back_the_entries() {
    let members = vec![member("a", 3, vec![1u32]), member("b", 4, vec![])];
    let proposals = vec![proposal(1, 3, 0, 5)];
    let dao = MiniDao::restore(
        Some(address("token")),
        Some(members.clone()),
        Some(proposals.clone()),
        Some(1),
        ExecutionWindow::DuringVoting,
    )
    .unwrap();
    assert_eq!(dao.get_member(&address("b")), Some(member("b", 4, vec![])));
    assert_eq!(dao.get_proposal(1), Some(proposal(1, 3, 0, 5)));
    assert_eq!(dao.window(), ExecutionWindow::DuringVoting);
    assert_eq!(
        dao.into_entries(),
        (Some(address("token")), Some(members), Some(proposals), Some(1u32))
    );
}

#[test]
fn partly_installed_entries_count_as_not_initialized() {
    let mut dao = MiniDao::restore(
        None,
        Some(vec![member("a", 1, vec![])]),
        None,
        None,
        ExecutionWindow::AfterVoting,
    )
    .unwrap();
    assert!(dao.has(DataKey::Members));
    assert!(!dao.has(DataKey::Proposals));
    assert_eq!(propose(&mut dao, 1, "a", 10), Err(DaoError::NotInitialized));
    assert_eq!(cast(&mut dao, 1, "a", 1, true), Err(DaoError::NotInitialized));
    let call = signed(1, &["admin"]);
    assert_eq!(
        dao.member_grant(&call, &address("admin"), &address("b")),
        Err(DaoError::NotInitialized)
    );
}

#[test]
fn addresses_are_compared_by_key() {
    assert!(address("a").same(&address("a")));
    assert!(!address("a").same(&address("b")));
    assert!(!address("a").same(&address("A")));
    assert_eq!(address("a").clone(), address("a"));
    assert_eq!(address("abc").key, "abc".to_string());
}

#[test]
fn invocation_knows_its_signers() {
    let mut call = Invocation::new(77);
    assert_eq!(call.timestamp, 77u64);
    assert!(!call.authorized_by(&address("a")));
    call.authorize(address("a"));
    call.authorize(address("b"));
    assert!(call.authorized_by(&address("a")));
    assert!(call.authorized_by(&address("b")));
    assert!(!call.authorized_by(&address("c")));
}

#[test]
fn member_knows_what_it_voted_on() {
    let voter = member("a", 1, vec![3u32, 1u32]);
    assert!(voter.has_voted(1));
    assert!(voter.has_voted(3));
    assert!(!voter.has_voted(2));
    assert!(!member("b", 1, vec![]).has_voted(1));
    assert_eq!(voter.clone(), voter);
}

#[test]
fn proposal_clone_is_equal() {
    let first = proposal(4, 1, 2, 3);
    assert_eq!(first.clone(), first);
}
