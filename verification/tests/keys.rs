use alyrasign::identity::Identity;
use alyrasign::keys;
use alyrasign::keys::{derive_keyed, derive_paired, derive_singleton, Namespace};
use anchor_lang::prelude::Pubkey;

fn id(n: u8) -> Identity {
    Identity::new([n; 32])
}

#[test]
fn identity_round_trips_its_bytes() {
    let mut bytes = [0u8; 32];
    for i in 0..32 {
        bytes[i] = i as u8;
    }
    let identity = Identity::new(bytes);
    assert_eq!(identity.to_bytes(), bytes.to_vec());
    assert!(identity.same(&Identity::new(bytes)));
    bytes[31] = 0;
    assert!(!identity.same(&Identity::new(bytes)));
}

#[test]
fn tags_are_the_bytes_of_their_names() {
    assert_eq!(Namespace::AccessStorage.tag(), b"access-storage".to_vec());
    assert_eq!(Namespace::FormationStorage.tag(), b"formation-storage".to_vec());
    assert_eq!(Namespace::SessionStorage.tag(), b"session-storage".to_vec());
    assert_eq!(Namespace::AttendanceStorage.tag(), b"attendance-storage".to_vec());
    assert_eq!(Namespace::Request.tag(), b"request".to_vec());
    assert_eq!(Namespace::Formation.tag(), b"formation".to_vec());
    assert_eq!(Namespace::Session.tag(), b"session".to_vec());
    assert_eq!(Namespace::Attendance.tag(), b"attendance".to_vec());
    assert_eq!(Namespace::TokenMint.tag(), b"token-mint".to_vec());
    assert_eq!(Namespace::TokenAccount.tag(), b"token-account".to_vec());
}

#[test]
fn derive_agrees_with_the_addressing_scheme() {
    let program = id(7);
    let owner = id(3);
    let seeds = vec![b"token-account".to_vec(), owner.to_bytes(), b"admin".to_vec()];
    let key = keys::derive(&seeds, &program).expect("a key");
    let (address, bump) = Pubkey::find_program_address(
        &[b"token-account", &[3u8; 32], b"admin"],
        &Pubkey::new_from_array([7u8; 32]),
    );
    assert_eq!(key.address.bytes, address.to_bytes());
    assert_eq!(key.bump, bump);
    let again = Pubkey::create_program_address(
        &[b"token-account", &[3u8; 32], b"admin", &[key.bump]],
        &Pubkey::new_from_array([7u8; 32]),
    )
    .expect("an address");
    assert_eq!(again.to_bytes(), key.address.bytes);
    assert_ne!(key.address, owner);
    assert_ne!(key.address, program);
}

#[test]
fn derive_is_deterministic() {
    let program = id(7);
    let first = derive_keyed(Namespace::Request, id(1).to_bytes(), &program);
    let second = derive_keyed(Namespace::Request, id(1).to_bytes(), &program);
    assert!(first.is_some());
    assert_eq!(first, second);
}

#[test]
fn derive_tells_inputs_apart() {
    let program = id(7);
    let a = derive_keyed(Namespace::Request, id(1).to_bytes(), &program).unwrap();
    let b = derive_keyed(Namespace::Request, id(2).to_bytes(), &program).unwrap();
    let c = derive_keyed(Namespace::Session, id(1).to_bytes(), &program).unwrap();
    let d = derive_keyed(Namespace::Request, id(1).to_bytes(), &id(8)).unwrap();
    assert_ne!(a.address, b.address);
    assert_ne!(a.address, c.address);
    assert_ne!(a.address, d.address);
    let e = derive_paired(Namespace::Attendance, id(1).to_bytes(), b"5".to_vec(), &program).unwrap();
    let f = derive_paired(Namespace::Attendance, id(1).to_bytes(), b"6".to_vec(), &program).unwrap();
    assert_ne!(e.address, f.address);
    let g = derive_singleton(Namespace::AccessStorage, &program).unwrap();
    let h = derive_singleton(Namespace::SessionStorage, &program).unwrap();
    assert_ne!(g.address, h.address);
}

#[test]
fn derive_accepts_a_seed_of_32_bytes_and_refuses_33() {
    let program = id(7);
    assert!(derive_keyed(Namespace::Formation, vec![b'a'; 32], &program).is_some());
    assert!(derive_keyed(Namespace::Formation, vec![b'a'; 33], &program).is_none());
    assert!(derive_paired(Namespace::Attendance, vec![1; 32], vec![2; 33], &program).is_none());
    assert!(derive_paired(Namespace::Attendance, vec![1; 33], vec![2; 32], &program).is_none());
}

#[test]
fn derive_accepts_15_seeds_and_refuses_16() {
    let program = id(7);
    let fifteen: Vec<Vec<u8>> = (0..15u8).map(|i| vec![i]).collect();
    let sixteen: Vec<Vec<u8>> = (0..16u8).map(|i| vec![i]).collect();
    assert!(keys::derive(&fifteen, &program).is_some());
    assert!(keys::derive(&sixteen, &program).is_none());
}

#[test]
fn derive_accepts_no_seed_and_an_empty_seed() {
    let program = id(7);
    let none: Vec<Vec<u8>> = Vec::new();
    assert!(keys::derive(&none, &program).is_some());
    assert!(keys::derive(&vec![Vec::new()], &program).is_some());
}
