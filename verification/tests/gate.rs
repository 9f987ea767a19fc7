use alyrasign::auth::{authorize, authorize_owner, check, check_at};
use alyrasign::errors::AccessRequestError;
use alyrasign::gated::{
    approve_access_request, create_session, initialize_token_mint, mint_role_token,
    mint_role_token_at, record_attendance, update_attendance, ApproveAccessRequest,
    CreateSession, InitializeTokenMint, MintRoleToken, RecordAttendance, UpdateAttendance,
};
use alyrasign::identity::Identity;
use alyrasign::keys::{derive_keyed, derive_paired, derive_singleton, DerivedKey, Namespace};
use alyrasign::ledger::Ledger;
use alyrasign::records::{
    AccessRequest, Account, RequestStatus, RoleTokenAccount, SequencedAttendance, TimedSession,
    TokenMintStorage,
};
use alyrasign::registry::{
    create_access_request, initialize_access_storage, initialize_attendance_storage,
    initialize_session_storage, CreateAccessRequest, InitializeAccessStorage,
    InitializeAttendanceStorage, InitializeSessionStorage,
};

fn id(n: u8) -> Identity {
    Identity::new([n; 32])
}

const ROOT: u8 = 1;
const ADMIN: u8 = 2;
const REQUESTER: u8 = 3;
const STUDENT: u8 = 4;
const STRANGER: u8 = 5;

fn grant(ledger: &mut Ledger, owner: u8, role: &str, amount: u64) -> Result<(), AccessRequestError> {
    mint_role_token(ledger, &MintRoleToken { admin: id(ROOT), owner: id(owner) }, role.to_string(), amount, 10)
}

fn ledger() -> Ledger {
    let mut ledger = Ledger::new(id(7));
    initialize_token_mint(&mut ledger, &InitializeTokenMint { admin: id(ROOT), mint: id(9) }).unwrap();
    grant(&mut ledger, ADMIN, "admin", 1).unwrap();
    grant(&mut ledger, STUDENT, "student", 1).unwrap();
    initialize_access_storage(&mut ledger, &InitializeAccessStorage { admin: id(ROOT) }).unwrap();
    initialize_session_storage(&mut ledger, &InitializeSessionStorage { admin: id(ROOT) }).unwrap();
    initialize_attendance_storage(&mut ledger, &InitializeAttendanceStorage { admin: id(ROOT) }).unwrap();
    ledger
}

fn credential_slot(ledger: &Ledger, owner: u8, role: &str) -> DerivedKey {
    derive_paired(Namespace::TokenAccount, id(owner).to_bytes(), role.as_bytes().to_vec(), &ledger.program()).unwrap()
}

fn file(ledger: &mut Ledger) -> Identity {
    create_access_request(
        ledger,
        &CreateAccessRequest { requester: id(REQUESTER) },
        "student".to_string(),
        "please".to_string(),
        100,
    )
    .unwrap();
    derive_keyed(Namespace::Request, id(REQUESTER).to_bytes(), &ledger.program()).unwrap().address
}

fn request_of(ledger: &Ledger, address: &Identity) -> AccessRequest {
    match ledger.get(address) {
        Some(Account::Request(request)) => request.clone(),
        other => panic!("no request: {:?}", other),
    }
}

fn attendance_slot(ledger: &Ledger, student: u8, number: u64) -> DerivedKey {
    derive_paired(Namespace::Attendance, id(student).to_bytes(), number.to_string().into_bytes(), &ledger.program())
        .unwrap()
}

fn attendance_of(ledger: &Ledger, address: &Identity) -> SequencedAttendance {
    match ledger.get(address) {
        Some(Account::SequencedAttendance(attendance)) => attendance.clone(),
        other => panic!("no attendance: {:?}", other),
    }
}

#[test]
fn token_mint_is_set_up_once() {
    let mut ledger = Ledger::new(id(7));
    assert_eq!(initialize_token_mint(&mut ledger, &InitializeTokenMint { admin: id(ROOT), mint: id(9) }), Ok(()));
    let key = derive_singleton(Namespace::TokenMint, &ledger.program()).unwrap();
    let first = Account::TokenMint(TokenMintStorage { mint: id(9), admin: id(ROOT), bump: key.bump });
    assert_eq!(ledger.get(&key.address), Some(&first));
    assert_eq!(
        initialize_token_mint(&mut ledger, &InitializeTokenMint { admin: id(STRANGER), mint: id(8) }),
        Err(AccessRequestError::AlreadyInitialized)
    );
    assert_eq!(ledger.get(&key.address), Some(&first));
    assert_eq!(ledger.len(), 1);
}

#[test]
fn minting_writes_the_credential() {
    let mut ledger = ledger();
    assert_eq!(grant(&mut ledger, STRANGER, "trainer", 3), Ok(()));
    let slot = credential_slot(&ledger, STRANGER, "trainer");
    assert_eq!(
        ledger.get(&slot.address),
        Some(&Account::RoleToken(RoleTokenAccount {
            owner: id(STRANGER),
            role: "trainer".to_string(),
            amount: 3,
            created_at: 10,
            updated_at: 10,
            bump: slot.bump,
        }))
    );
}

#[test]
fn minting_is_for_the_issuer_alone() {
    let mut ledger = ledger();
    let len = ledger.len();
    for caller in [ADMIN, STRANGER, STUDENT] {
        let result = mint_role_token(
            &mut ledger,
            &MintRoleToken { admin: id(caller), owner: id(STRANGER) },
            "admin".to_string(),
            1,
            10,
        );
        assert_eq!(result, Err(AccessRequestError::Unauthorized));
    }
    assert_eq!(ledger.len(), len);
    assert!(!check(&ledger, &id(STRANGER), "admin"));
}

#[test]
fn minting_twice_fails() {
    let mut ledger = ledger();
    let slot = credential_slot(&ledger, ADMIN, "admin");
    let first = ledger.get(&slot.address).cloned();
    assert_eq!(grant(&mut ledger, ADMIN, "admin", 5), Err(AccessRequestError::AlreadyExists));
    assert_eq!(ledger.get(&slot.address).cloned(), first);
    assert_eq!(grant(&mut ledger, ADMIN, "trainer", 5), Ok(()));
}

#[test]
fn minting_role_caps() {
    let mut ledger = ledger();
    let len = ledger.len();
    assert_eq!(grant(&mut ledger, STRANGER, "r".repeat(21).as_str(), 1), Err(AccessRequestError::FieldTooLong));
    assert_eq!(ledger.len(), len);
    assert_eq!(grant(&mut ledger, STRANGER, "r".repeat(20).as_str(), 1), Ok(()));
    assert!(check(&ledger, &id(STRANGER), "r".repeat(20).as_str()));
}

#[test]
fn minting_before_set_up_fails() {
    let mut ledger = Ledger::new(id(7));
    assert_eq!(grant(&mut ledger, ADMIN, "admin", 1), Err(AccessRequestError::NotFound));
    let ctx = MintRoleToken { admin: id(ROOT), owner: id(ADMIN) };
    assert_eq!(
        mint_role_token_at(&mut ledger, &ctx, "admin".to_string(), 1, 10, None, None),
        Err(AccessRequestError::InvalidSeeds)
    );
    assert_eq!(ledger.len(), 0);
}

#[test]
fn check_is_possession_with_a_positive_amount() {
    let mut ledger = ledger();
    grant(&mut ledger, STRANGER, "trainer", 0).unwrap();
    assert!(check(&ledger, &id(ADMIN), "admin"));
    assert!(check(&ledger, &id(STUDENT), "student"));
    assert!(!check(&ledger, &id(ADMIN), "student"));
    assert!(!check(&ledger, &id(STUDENT), "admin"));
    assert!(!check(&ledger, &id(STRANGER), "trainer"));
    assert!(!check(&ledger, &id(ROOT), "admin"));
    assert!(!check(&ledger, &id(ADMIN), "Admin"));
    assert!(!check(&ledger, &id(ADMIN), "r".repeat(33).as_str()));
    assert!(check_at(&ledger, Some(credential_slot(&ledger, ADMIN, "admin"))));
    assert!(!check_at(&ledger, None));
    let counter = derive_singleton(Namespace::AccessStorage, &ledger.program());
    assert!(!check_at(&ledger, counter));
}

#[test]
fn authorize_maps_check_to_a_verdict() {
    let ledger = ledger();
    assert_eq!(authorize(&ledger, &id(ADMIN), "admin"), Ok(()));
    assert_eq!(authorize(&ledger, &id(STRANGER), "admin"), Err(AccessRequestError::Unauthorized));
    assert_eq!(authorize_owner(&id(STUDENT), &id(STUDENT)), Ok(()));
    assert_eq!(authorize_owner(&id(STRANGER), &id(STUDENT)), Err(AccessRequestError::Unauthorized));
}

#[test]
fn approval_grants_the_given_role() {
    let mut ledger = ledger();
    let address = file(&mut ledger);
    let before = request_of(&ledger, &address);
    let result = approve_access_request(
        &mut ledger,
        &ApproveAccessRequest { admin: id(ADMIN), request: address },
        "trainer".to_string(),
        200,
    );
    assert_eq!(result, Ok(()));
    assert_eq!(
        request_of(&ledger, &address),
        AccessRequest { status: RequestStatus::Approved, role: "trainer".to_string(), updated_at: 200, ..before }
    );
}

#[test]
fn approval_with_an_empty_role_keeps_the_role() {
    let mut ledger = ledger();
    let address = file(&mut ledger);
    approve_access_request(&mut ledger, &ApproveAccessRequest { admin: id(ADMIN), request: address }, String::new(), 200)
        .unwrap();
    let after = request_of(&ledger, &address);
    assert_eq!(after.role, "student");
    assert_eq!(after.status, RequestStatus::Approved);
}

#[test]
fn approval_errors_in_their_order() {
    let mut ledger = ledger();
    let address = file(&mut ledger);
    let before = request_of(&ledger, &address);
    let stranger = ApproveAccessRequest { admin: id(STRANGER), request: address };
    let admin = ApproveAccessRequest { admin: id(ADMIN), request: address };
    assert_eq!(
        approve_access_request(&mut ledger, &stranger, "r".repeat(21), 200),
        Err(AccessRequestError::Unauthorized)
    );
    assert_eq!(
        approve_access_request(&mut ledger, &admin, "r".repeat(21), 200),
        Err(AccessRequestError::FieldTooLong)
    );
    assert_eq!(
        approve_access_request(&mut ledger, &ApproveAccessRequest { admin: id(ADMIN), request: id(99) }, "r".repeat(21), 200),
        Err(AccessRequestError::FieldTooLong)
    );
    assert_eq!(
        approve_access_request(&mut ledger, &ApproveAccessRequest { admin: id(ADMIN), request: id(99) }, "r".repeat(20), 200),
        Err(AccessRequestError::NotFound)
    );
    assert_eq!(request_of(&ledger, &address), before);
    assert_eq!(approve_access_request(&mut ledger, &admin, "r".repeat(20), 200), Ok(()));
    assert_eq!(
        approve_access_request(&mut ledger, &admin, "trainer".to_string(), 300),
        Err(AccessRequestError::InvalidRequestStatus)
    );
    assert_eq!(
        approve_access_request(&mut ledger, &stranger, "trainer".to_string(), 300),
        Err(AccessRequestError::Unauthorized)
    );
    assert_eq!(request_of(&ledger, &address).role, "r".repeat(20));
}

#[test]
fn timed_sessions_are_numbered() {
    let mut ledger = ledger();
    let ctx = CreateSession { admin: id(ADMIN) };
    for n in 0..3u64 {
        let result = create_session(
            &mut ledger, &ctx, "intro".to_string(), "about".to_string(), "room".to_string(), 1000, 2000, 100 + n as i64,
        );
        assert_eq!(result, Ok(()));
        let slot = derive_keyed(Namespace::Session, n.to_string().into_bytes(), &ledger.program()).unwrap();
        assert_eq!(
            ledger.get(&slot.address),
            Some(&Account::TimedSession(TimedSession {
                id: n,
                title: "intro".to_string(),
                description: "about".to_string(),
                location: "room".to_string(),
                start_time: 1000,
                end_time: 2000,
                created_at: 100 + n as i64,
                updated_at: 100 + n as i64,
                bump: slot.bump,
            }))
        );
    }
    let counter = derive_singleton(Namespace::SessionStorage, &ledger.program()).unwrap();
    match ledger.get(&counter.address) {
        Some(Account::SessionStorage(storage)) => assert_eq!(storage.session_count, 3),
        other => panic!("no counter: {:?}", other),
    }
}

#[test]
fn timed_session_needs_a_credential_and_fits_the_caps() {
    let mut ledger = ledger();
    let len = ledger.len();
    let stranger = CreateSession { admin: id(STUDENT) };
    assert_eq!(
        create_session(&mut ledger, &stranger, "t".to_string(), "d".to_string(), "l".to_string(), 1, 2, 100),
        Err(AccessRequestError::Unauthorized)
    );
    let admin = CreateSession { admin: id(ADMIN) };
    for (title, description, location) in [(101, 500, 100), (100, 501, 100), (100, 500, 101)] {
        assert_eq!(
            create_session(&mut ledger, &admin, "t".repeat(title), "d".repeat(description), "l".repeat(location), 1, 2, 100),
            Err(AccessRequestError::FieldTooLong)
        );
    }
    assert_eq!(ledger.len(), len);
    assert_eq!(
        create_session(&mut ledger, &admin, "t".repeat(100), "d".repeat(500), "l".repeat(100), 1, 2, 100),
        Ok(())
    );
    assert_eq!(ledger.len(), len + 1);
}

#[test]
fn credentialed_student_checks_in_and_out() {
    let mut ledger = ledger();
    let result = record_attendance(
        &mut ledger,
        &RecordAttendance { student: id(STUDENT) },
        5,
        id(STUDENT),
        true,
        "here".to_string(),
        1000,
    );
    assert_eq!(result, Ok(()));
    let slot = attendance_slot(&ledger, STUDENT, 0);
    let before = attendance_of(&ledger, &slot.address);
    assert_eq!(
        before,
        SequencedAttendance {
            id: 0,
            session_id: 5,
            student: id(STUDENT),
            is_present: true,
            check_in_time: 1000,
            check_out_time: None,
            note: "here".to_string(),
            created_at: 1000,
            updated_at: 1000,
            bump: slot.bump,
        }
    );
    let out = UpdateAttendance { student: id(STUDENT), attendance: slot.address };
    assert_eq!(update_attendance(&mut ledger, &out, false, String::new(), 2000), Ok(()));
    assert_eq!(
        attendance_of(&ledger, &slot.address),
        SequencedAttendance { is_present: false, check_out_time: Some(2000), updated_at: 2000, ..before }
    );
}

#[test]
fn check_in_needs_the_student_and_their_credential() {
    let mut ledger = ledger();
    let len = ledger.len();
    let no_credential =
        record_attendance(&mut ledger, &RecordAttendance { student: id(STRANGER) }, 5, id(STRANGER), true, String::new(), 10);
    assert_eq!(no_credential, Err(AccessRequestError::Unauthorized));
    let for_another =
        record_attendance(&mut ledger, &RecordAttendance { student: id(STRANGER) }, 5, id(STUDENT), true, String::new(), 10);
    assert_eq!(for_another, Err(AccessRequestError::Unauthorized));
    let wrong_role =
        record_attendance(&mut ledger, &RecordAttendance { student: id(ADMIN) }, 5, id(ADMIN), true, String::new(), 10);
    assert_eq!(wrong_role, Err(AccessRequestError::Unauthorized));
    assert_eq!(ledger.len(), len);
}

#[test]
fn sequenced_note_caps() {
    let mut ledger = ledger();
    let ctx = RecordAttendance { student: id(STUDENT) };
    let len = ledger.len();
    assert_eq!(
        record_attendance(&mut ledger, &ctx, 5, id(STUDENT), true, "n".repeat(501), 10),
        Err(AccessRequestError::FieldTooLong)
    );
    assert_eq!(ledger.len(), len);
    assert_eq!(record_attendance(&mut ledger, &ctx, 5, id(STUDENT), true, "n".repeat(500), 10), Ok(()));
    let slot = attendance_slot(&ledger, STUDENT, 0);
    let out = UpdateAttendance { student: id(STUDENT), attendance: slot.address };
    let before = attendance_of(&ledger, &slot.address);
    assert_eq!(update_attendance(&mut ledger, &out, true, "m".repeat(501), 20), Err(AccessRequestError::FieldTooLong));
    assert_eq!(attendance_of(&ledger, &slot.address), before);
    assert_eq!(update_attendance(&mut ledger, &out, true, "m".repeat(500), 20), Ok(()));
    assert_eq!(attendance_of(&ledger, &slot.address).note, "m".repeat(500));
}

#[test]
fn sequenced_check_out_is_for_the_credentialed_student() {
    let mut ledger = ledger();
    grant(&mut ledger, STRANGER, "student", 1).unwrap();
    record_attendance(&mut ledger, &RecordAttendance { student: id(STUDENT) }, 5, id(STUDENT), true, "here".to_string(), 10)
        .unwrap();
    let slot = attendance_slot(&ledger, STUDENT, 0);
    let before = attendance_of(&ledger, &slot.address);
    let other_student = UpdateAttendance { student: id(STRANGER), attendance: slot.address };
    assert_eq!(update_attendance(&mut ledger, &other_student, true, "ok".to_string(), 20), Err(AccessRequestError::Unauthorized));
    let admin = UpdateAttendance { student: id(ADMIN), attendance: slot.address };
    assert_eq!(update_attendance(&mut ledger, &admin, true, "n".repeat(501), 20), Err(AccessRequestError::Unauthorized));
    let nowhere = UpdateAttendance { student: id(STUDENT), attendance: id(99) };
    assert_eq!(update_attendance(&mut ledger, &nowhere, true, "ok".to_string(), 20), Err(AccessRequestError::NotFound));
    assert_eq!(attendance_of(&ledger, &slot.address), before);
}

#[test]
fn sequenced_attendance_never_collides() {
    let mut ledger = ledger();
    let ctx = RecordAttendance { student: id(STUDENT) };
    let mut addresses = Vec::new();
    for n in 0..4u64 {
        assert_eq!(record_attendance(&mut ledger, &ctx, 5, id(STUDENT), true, String::new(), 10), Ok(()));
        let slot = attendance_slot(&ledger, STUDENT, n);
        assert_eq!(attendance_of(&ledger, &slot.address).id, n);
        assert!(!addresses.contains(&slot.address));
        addresses.push(slot.address);
    }
    let counter = derive_singleton(Namespace::AttendanceStorage, &ledger.program()).unwrap();
    match ledger.get(&counter.address) {
        Some(Account::AttendanceStorage(storage)) => assert_eq!(storage.attendance_count, 4),
        other => panic!("no counter: {:?}", other),
    }
}
