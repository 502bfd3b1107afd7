use authority_escrow::{
    commit, deadline_too_far, program_data_address, timelock_authority, transfer, Address, Commit,
    ErrorCode, ManagedProgram, Participant, Transfer, ONE_YEAR,
};

fn key(b: u8) -> Address {
    let mut bytes = [0u8; 32];
    for (i, x) in bytes.iter_mut().enumerate() {
        *x = b.wrapping_mul(17).wrapping_add((i as u8).wrapping_mul(3));
    }
    Address::new(bytes)
}

fn program_id() -> Address {
    key(150)
}

fn managed(authority: Address) -> ManagedProgram {
    let program = key(90);
    ManagedProgram {
        key: program,
        executable: true,
        is_program: true,
        program_data: program_data_address(&program).unwrap(),
        upgrade_authority: Some(authority),
    }
}

fn commit_ctx(current: Address, new: Address) -> Commit {
    Commit {
        program_id: program_id(),
        current_authority: Participant { key: current, is_signer: true },
        new_authority: new,
    }
}

fn transfer_ctx(new: Address) -> Transfer {
    Transfer { program_id: program_id(), new_authority: new }
}

fn escrow(new: &Address, timestamp: i64) -> Address {
    timelock_authority(&program_id(), new, timestamp).unwrap().0
}

#[test]
fn test_test() {
    let authority_1 = key(1);
    let authority_2 = key(2);
    let mut program = managed(authority_1);
    assert_eq!(program.upgrade_authority, Some(authority_1));

    commit(&commit_ctx(authority_1, authority_2), &mut program, 0, 0).unwrap();
    assert_eq!(program.upgrade_authority, Some(escrow(&authority_2, 0)));

    transfer(&transfer_ctx(authority_2), &mut program, 0, 0).unwrap();
    assert_eq!(program.upgrade_authority, Some(authority_2));

    let now: i64 = 1700000000;
    assert_eq!(
        commit(
            &commit_ctx(authority_2, authority_1),
            &mut program,
            1700000000 + 365 * 24 * 60 * 60 * 2,
            now
        ),
        Err(ErrorCode::TimestampTooLate)
    );
    assert_eq!(program.upgrade_authority, Some(authority_2));

    commit(&commit_ctx(authority_2, authority_1), &mut program, 1700000000 + 30, now).unwrap();
    assert_eq!(program.upgrade_authority, Some(escrow(&authority_1, 1700000000 + 30)));

    assert_eq!(
        transfer(&transfer_ctx(authority_1), &mut program, 1700000000 + 30, now),
        Err(ErrorCode::TimestampTooEarly)
    );
    assert_eq!(program.upgrade_authority, Some(escrow(&authority_1, 1700000000 + 30)));

    let now: i64 = 1700000000 + 31;
    transfer(&transfer_ctx(authority_1), &mut program, 1700000000 + 30, now).unwrap();
    assert_eq!(program.upgrade_authority, Some(authority_1));
}

#[test]
fn commit_then_transfer_scenario() {
    let a = key(3);
    let b = key(4);
    let mut program = managed(a);
    commit(&commit_ctx(a, b), &mut program, 1000, 500).unwrap();
    assert_eq!(program.upgrade_authority, Some(escrow(&b, 1000)));
    let committed = program;
    assert_eq!(
        transfer(&transfer_ctx(b), &mut program, 1000, 500),
        Err(ErrorCode::TimestampTooEarly)
    );
    assert_eq!(program, committed);
    transfer(&transfer_ctx(b), &mut program, 1000, 1001).unwrap();
    assert_eq!(program.upgrade_authority, Some(b));
}

#[test]
fn deadline_too_far_is_refused_and_changes_nothing() {
    let a = key(5);
    let b = key(6);
    let mut program = managed(a);
    let before = program;
    assert_eq!(
        commit(&commit_ctx(a, b), &mut program, 500 + ONE_YEAR + 1, 500),
        Err(ErrorCode::TimestampTooLate)
    );
    assert_eq!(program, before);
    // refused even without a signature
    let unsigned = Commit {
        program_id: program_id(),
        current_authority: Participant { key: a, is_signer: false },
        new_authority: b,
    };
    assert_eq!(
        commit(&unsigned, &mut program, i64::MAX, 0),
        Err(ErrorCode::TimestampTooLate)
    );
    assert_eq!(program, before);
}

#[test]
fn deadline_exactly_one_year_ahead_is_accepted() {
    let a = key(7);
    let b = key(8);
    let mut program = managed(a);
    commit(&commit_ctx(a, b), &mut program, 500 + ONE_YEAR, 500).unwrap();
    assert_eq!(program.upgrade_authority, Some(escrow(&b, 500 + ONE_YEAR)));
}

#[test]
fn one_year_is_365_days() {
    assert_eq!(ONE_YEAR, 31_536_000);
}

#[test]
fn deadline_check_edges() {
    assert!(!deadline_too_far(100 + ONE_YEAR, 100));
    assert!(deadline_too_far(101 + ONE_YEAR, 100));
    assert!(!deadline_too_far(i64::MAX, i64::MAX));
    assert!(!deadline_too_far(i64::MAX, i64::MAX - ONE_YEAR));
    assert!(deadline_too_far(i64::MAX, i64::MAX - ONE_YEAR - 1));
    assert!(!deadline_too_far(i64::MIN, 0));
}

#[test]
fn transfer_at_the_deadline_succeeds() {
    let a = key(9);
    let b = key(10);
    let mut program = managed(a);
    commit(&commit_ctx(a, b), &mut program, 2000, 1000).unwrap();
    transfer(&transfer_ctx(b), &mut program, 2000, 2000).unwrap();
    assert_eq!(program.upgrade_authority, Some(b));
}

#[test]
fn transfer_before_deadline_fails_whatever_the_state() {
    let a = key(11);
    let b = key(12);
    let mut program = managed(a);
    assert_eq!(
        transfer(&transfer_ctx(b), &mut program, 2000, 1999),
        Err(ErrorCode::TimestampTooEarly)
    );
    assert_eq!(program.upgrade_authority, Some(a));
}

#[test]
fn transfer_without_commit_fails() {
    let a = key(13);
    let b = key(14);
    let mut program = managed(a);
    assert_eq!(
        transfer(&transfer_ctx(b), &mut program, 2000, 3000),
        Err(ErrorCode::AuthorityMismatch)
    );
    assert_eq!(program.upgrade_authority, Some(a));
}

#[test]
fn transfer_with_other_deadline_fails() {
    let a = key(15);
    let b = key(16);
    let mut program = managed(a);
    commit(&commit_ctx(a, b), &mut program, 2000, 1000).unwrap();
    assert_eq!(
        transfer(&transfer_ctx(b), &mut program, 2001, 3000),
        Err(ErrorCode::AuthorityMismatch)
    );
    assert_eq!(program.upgrade_authority, Some(escrow(&b, 2000)));
}

#[test]
fn commit_needs_signature_and_authority() {
    let a = key(17);
    let b = key(18);
    let mut program = managed(a);
    let unsigned = Commit {
        program_id: program_id(),
        current_authority: Participant { key: a, is_signer: false },
        new_authority: b,
    };
    assert_eq!(commit(&unsigned, &mut program, 10, 0), Err(ErrorCode::MissingSignature));
    assert_eq!(commit(&commit_ctx(b, a), &mut program, 10, 0), Err(ErrorCode::AuthorityMismatch));
    let mut frozen = managed(a);
    frozen.executable = false;
    assert_eq!(commit(&commit_ctx(a, b), &mut frozen, 10, 0), Err(ErrorCode::NotExecutable));
    assert_eq!(program.upgrade_authority, Some(a));
}

#[test]
fn transfer_action_carries_deadline_seeds() {
    let a = key(19);
    let b = key(20);
    let mut program = managed(a);
    let (e, bump) = timelock_authority(&program_id(), &b, 0x0102_0304_0506_0708).unwrap();
    let committed = commit(&commit_ctx(a, b), &mut program, 0x0102_0304_0506_0708, 0x0102_0304_0506_0000)
        .unwrap();
    assert_eq!(committed.current_authority, a);
    assert_eq!(committed.new_authority, Some(e));
    assert!(committed.signer_seeds.is_empty());
    let moved = transfer(&transfer_ctx(b), &mut program, 0x0102_0304_0506_0708, i64::MAX).unwrap();
    assert_eq!(moved.program, program.key);
    assert_eq!(moved.current_authority, e);
    assert_eq!(moved.new_authority, Some(b));
    assert_eq!(
        moved.signer_seeds,
        vec![b.bytes.to_vec(), vec![1, 2, 3, 4, 5, 6, 7, 8], vec![bump]]
    );
}
