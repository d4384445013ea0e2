use echo::address::Address;
use echo::derivation::{authority_namespace_bytes, derive_address, vending_machine_namespace_bytes, verify_derivation};
use echo::error::EchoError;
use echo::header::{read_seed_scalar, write_header};
use echo::instruction::EchoInstruction;
use echo::processor::{authorized_echo, echo, AccountData, CreateAccountPlan, Processor, Step};
use echo::state::{AuthorizedBufferHeader, VendingMachineBufferHeader};
use solana_program::pubkey::Pubkey;

fn program() -> Address {
    Address::new([7u8; 32])
}

fn authority() -> Address {
    Address::new([42u8; 32])
}

fn buffer_key(program_id: &Address, authority: &Address, seed: u64) -> (Address, u8) {
    derive_address(program_id, &authority_namespace_bytes(), authority, seed).unwrap()
}

/// Runs an initialization against a simulated runtime: `exists` tells whether
/// the account is there already; the new account's data is zeroed.
fn run_initialize(
    accounts: &mut Vec<AccountData>,
    instruction: &EchoInstruction,
    exists: bool,
) -> Result<(), EchoError> {
    let plan: CreateAccountPlan = match Processor::process_instruction(&program(), accounts, instruction)? {
        Step::CreateAccount(plan) => plan,
        Step::Done => panic!("an initialization must ask for an account"),
    };
    let created = if exists {
        Err(EchoError::AccountAlreadyExists)
    } else {
        accounts[0].data = vec![0u8; plan.space as usize];
        Ok(())
    };
    Processor::complete_initialize(&plan, created, &mut accounts[0].data)
}

fn initialized_buffer(seed: u64, size: usize) -> Vec<AccountData> {
    let (key, _) = buffer_key(&program(), &authority(), seed);
    let mut accounts = vec![
        AccountData { key, data: vec![] },
        AccountData { key: authority(), data: vec![] },
        AccountData { key: Address::new([0u8; 32]), data: vec![] },
    ];
    let init = EchoInstruction::InitializeAuthorizedEcho { buffer_seed: seed, buffer_size: size };
    assert_eq!(run_initialize(&mut accounts, &init, false), Ok(()));
    accounts
}

#[test]
fn derivation_is_deterministic() {
    let ns = authority_namespace_bytes();
    let first = derive_address(&program(), &ns, &authority(), 7).unwrap();
    let second = derive_address(&program(), &ns, &authority(), 7).unwrap();
    assert_eq!(first, second);
}

#[test]
fn derivation_matches_runtime_search() {
    let program_id = Pubkey::new_from_array([7u8; 32]);
    let auth = Pubkey::new_from_array([42u8; 32]);
    let seed: u64 = 7;
    let (expected, bump) =
        Pubkey::find_program_address(&[b"authority", auth.as_ref(), &seed.to_le_bytes()], &program_id);
    let (found, found_bump) = buffer_key(&program(), &authority(), seed);
    assert_eq!(found.bytes, expected.to_bytes());
    assert_eq!(found_bump, bump);
    assert_ne!(found, authority());
    assert_ne!(found, program());
}

#[test]
fn derivation_differs_across_programs() {
    let ns = authority_namespace_bytes();
    let (a, _) = derive_address(&Address::new([1u8; 32]), &ns, &authority(), 7).unwrap();
    let (b, _) = derive_address(&Address::new([2u8; 32]), &ns, &authority(), 7).unwrap();
    assert_ne!(a, b);
}

#[test]
fn derivation_differs_across_namespaces_and_seeds() {
    let (a, _) = derive_address(&program(), &authority_namespace_bytes(), &authority(), 7).unwrap();
    let (b, _) = derive_address(&program(), &vending_machine_namespace_bytes(), &authority(), 7).unwrap();
    let (c, _) = derive_address(&program(), &authority_namespace_bytes(), &authority(), 8).unwrap();
    assert_ne!(a, b);
    assert_ne!(a, c);
}

#[test]
fn verification_accepts_derived_and_rejects_others() {
    let ns = authority_namespace_bytes();
    let (key, bump) = buffer_key(&program(), &authority(), 7);
    assert_eq!(verify_derivation(&key, &program(), &ns, &authority(), 7u64.to_le_bytes().to_vec(), bump), Ok(()));
    assert_eq!(
        verify_derivation(&key, &program(), &ns, &authority(), 8u64.to_le_bytes().to_vec(), bump),
        Err(EchoError::InvalidAccountData)
    );
    assert_eq!(
        verify_derivation(&authority(), &program(), &ns, &authority(), 7u64.to_le_bytes().to_vec(), bump),
        Err(EchoError::InvalidAccountData)
    );
    assert_eq!(
        verify_derivation(&key, &Address::new([8u8; 32]), &ns, &authority(), 7u64.to_le_bytes().to_vec(), bump),
        Err(EchoError::InvalidAccountData)
    );
}

#[test]
fn header_round_trip() {
    let mut data = vec![0xAAu8; 12];
    write_header(&mut data, 254, 0x0102_0304_0506_0708);
    assert_eq!(data, vec![254, 8, 7, 6, 5, 4, 3, 2, 1, 0xAA, 0xAA, 0xAA]);
    assert_eq!(read_seed_scalar(&data), (254, 0x0102_0304_0506_0708));
    let mut exact = vec![0u8; 9];
    write_header(&mut exact, 0, u64::MAX);
    assert_eq!(read_seed_scalar(&exact), (0, u64::MAX));
}

#[test]
fn header_records_round_trip() {
    let mut data = vec![0u8; 10];
    AuthorizedBufferHeader { bump: 3, buffer_seed: 7 }.write(&mut data);
    assert_eq!(data, vec![3, 7, 0, 0, 0, 0, 0, 0, 0, 0]);
    assert_eq!(AuthorizedBufferHeader::read(&data), AuthorizedBufferHeader { bump: 3, buffer_seed: 7 });
    VendingMachineBufferHeader { bump: 9, price: 256 }.write(&mut data);
    assert_eq!(data, vec![9, 0, 1, 0, 0, 0, 0, 0, 0, 0]);
    assert_eq!(VendingMachineBufferHeader::read(&data), VendingMachineBufferHeader { bump: 9, price: 256 });
}

#[test]
fn initialize_writes_header_and_zeroed_payload() {
    let accounts = initialized_buffer(7, 13);
    let (_, bump) = buffer_key(&program(), &authority(), 7);
    assert_eq!(accounts[0].data.len(), 13);
    assert_eq!(read_seed_scalar(&accounts[0].data), (bump, 7));
    assert_eq!(&accounts[0].data[9..], &[0u8, 0, 0, 0][..]);
}

#[test]
fn initialize_plan_is_signed_by_seeds() {
    let (key, bump) = buffer_key(&program(), &authority(), 7);
    let mut accounts = vec![
        AccountData { key, data: vec![] },
        AccountData { key: authority(), data: vec![] },
        AccountData { key: Address::new([0u8; 32]), data: vec![] },
    ];
    let init = EchoInstruction::InitializeAuthorizedEcho { buffer_seed: 7, buffer_size: 13 };
    match Processor::process_instruction(&program(), &mut accounts, &init) {
        Ok(Step::CreateAccount(plan)) => {
            assert_eq!(plan.payer, authority());
            assert_eq!(plan.new_account, key);
            assert_eq!(plan.owner, program());
            assert_eq!(plan.space, 13);
            assert_eq!(plan.bump, bump);
            assert_eq!(plan.scalar, 7);
            let expected: Vec<Vec<u8>> = vec![
                b"authority".to_vec(),
                authority().bytes.to_vec(),
                7u64.to_le_bytes().to_vec(),
                vec![bump],
            ];
            assert_eq!(plan.signer_seeds, expected);
        }
        _ => panic!("expected an account creation"),
    }
}

#[test]
fn initialize_rejects_wrong_target() {
    let mut accounts = vec![
        AccountData { key: Address::new([5u8; 32]), data: vec![] },
        AccountData { key: authority(), data: vec![] },
        AccountData { key: Address::new([0u8; 32]), data: vec![] },
    ];
    let init = EchoInstruction::InitializeAuthorizedEcho { buffer_seed: 7, buffer_size: 13 };
    assert!(matches!(
        Processor::process_instruction(&program(), &mut accounts, &init),
        Err(EchoError::InvalidAccountData)
    ));
}

#[test]
fn initialize_rejects_buffer_without_room_for_header() {
    let (key, _) = buffer_key(&program(), &authority(), 7);
    let mut accounts = vec![
        AccountData { key, data: vec![] },
        AccountData { key: authority(), data: vec![] },
        AccountData { key: Address::new([0u8; 32]), data: vec![] },
    ];
    let init = EchoInstruction::InitializeAuthorizedEcho { buffer_seed: 7, buffer_size: 8 };
    assert!(matches!(
        Processor::process_instruction(&program(), &mut accounts, &init),
        Err(EchoError::AccountDataTooSmall)
    ));
}

#[test]
fn initialize_twice_fails_and_keeps_buffer() {
    let mut accounts = initialized_buffer(7, 13);
    let write = EchoInstruction::AuthorizedEcho { data: vec![1, 2, 3, 4] };
    assert!(matches!(Processor::process_instruction(&program(), &mut accounts, &write), Ok(Step::Done)));
    let before = accounts[0].data.clone();
    let init = EchoInstruction::InitializeAuthorizedEcho { buffer_seed: 7, buffer_size: 13 };
    assert_eq!(run_initialize(&mut accounts, &init, true), Err(EchoError::AccountAlreadyExists));
    assert_eq!(accounts[0].data, before);
}

#[test]
fn refused_creation_is_reported_unchanged() {
    let mut accounts = initialized_buffer(7, 13);
    let init = EchoInstruction::InitializeAuthorizedEcho { buffer_seed: 7, buffer_size: 13 };
    let plan = match Processor::process_instruction(&program(), &mut accounts, &init) {
        Ok(Step::CreateAccount(plan)) => plan,
        _ => panic!("expected an account creation"),
    };
    let before = accounts[0].data.clone();
    assert_eq!(
        Processor::complete_initialize(&plan, Err(EchoError::InsufficientFunds), &mut accounts[0].data),
        Err(EchoError::InsufficientFunds)
    );
    assert_eq!(accounts[0].data, before);
}

#[test]
fn authorized_echo_truncates_long_payload() {
    let mut accounts = initialized_buffer(7, 13);
    let header = accounts[0].data[..9].to_vec();
    let write = EchoInstruction::AuthorizedEcho { data: vec![1, 2, 3, 4, 5, 6, 7, 8, 9, 10] };
    assert!(matches!(Processor::process_instruction(&program(), &mut accounts, &write), Ok(Step::Done)));
    assert_eq!(accounts[0].data.len(), 13);
    assert_eq!(&accounts[0].data[..9], &header[..]);
    assert_eq!(&accounts[0].data[9..13], &[1u8, 2, 3, 4][..]);
}

#[test]
fn authorized_echo_short_payload_leaves_rest() {
    let mut accounts = initialized_buffer(7, 13);
    let first = EchoInstruction::AuthorizedEcho { data: vec![9, 9, 9, 9] };
    assert!(matches!(Processor::process_instruction(&program(), &mut accounts, &first), Ok(Step::Done)));
    let second = EchoInstruction::AuthorizedEcho { data: vec![1, 2] };
    assert!(matches!(Processor::process_instruction(&program(), &mut accounts, &second), Ok(Step::Done)));
    assert_eq!(&accounts[0].data[9..13], &[1u8, 2, 9, 9][..]);
}

#[test]
fn authorized_echo_rejects_foreign_buffer() {
    let accounts = initialized_buffer(7, 13);
    let mut data = accounts[0].data.clone();
    let before = data.clone();
    let other_authority = Address::new([43u8; 32]);
    assert_eq!(
        authorized_echo(&program(), &accounts[0].key, &other_authority, &mut data, &[1, 2]),
        Err(EchoError::InvalidAccountData)
    );
    assert_eq!(data, before);
    assert_eq!(
        authorized_echo(&program(), &Address::new([5u8; 32]), &authority(), &mut data, &[1, 2]),
        Err(EchoError::InvalidAccountData)
    );
    let mut forged = before.clone();
    write_header(&mut forged, before[0], 8);
    assert_eq!(
        authorized_echo(&program(), &accounts[0].key, &authority(), &mut forged, &[1, 2]),
        Err(EchoError::InvalidAccountData)
    );
    assert_eq!(data, before);
}

#[test]
fn authorized_echo_rejects_short_buffer() {
    let (key, _) = buffer_key(&program(), &authority(), 7);
    let mut data = vec![0u8; 5];
    assert_eq!(
        authorized_echo(&program(), &key, &authority(), &mut data, &[1]),
        Err(EchoError::AccountDataTooSmall)
    );
    assert_eq!(data, vec![0u8; 5]);
}

#[test]
fn echo_replaces_equal_length_data() {
    let mut data = vec![0u8; 3];
    assert_eq!(echo(&mut data, &[4, 5, 6]), Ok(()));
    assert_eq!(data, vec![4, 5, 6]);
    assert_eq!(echo(&mut data, &[1, 2]), Err(EchoError::InvalidInstructionData));
    assert_eq!(data, vec![4, 5, 6]);
    let mut empty: Vec<u8> = vec![];
    assert_eq!(echo(&mut empty, &[]), Ok(()));
}

#[test]
fn echo_instruction_writes_first_account() {
    let mut accounts = vec![
        AccountData { key: Address::new([1u8; 32]), data: vec![0, 0] },
        AccountData { key: Address::new([2u8; 32]), data: vec![5] },
    ];
    let ins = EchoInstruction::Echo { data: vec![8, 9] };
    assert!(matches!(Processor::process_instruction(&program(), &mut accounts, &ins), Ok(Step::Done)));
    assert_eq!(accounts[0].data, vec![8, 9]);
    assert_eq!(accounts[1].data, vec![5]);
}

#[test]
fn too_few_accounts_are_reported() {
    let cases = vec![
        (EchoInstruction::Echo { data: vec![] }, 0usize),
        (EchoInstruction::InitializeAuthorizedEcho { buffer_seed: 1, buffer_size: 9 }, 2),
        (EchoInstruction::AuthorizedEcho { data: vec![] }, 1),
        (EchoInstruction::InitializeVendingMachineEcho { price: 1, buffer_size: 9 }, 3),
    ];
    for (ins, n) in cases {
        let mut accounts: Vec<AccountData> =
            (0..n).map(|i| AccountData { key: Address::new([i as u8; 32]), data: vec![] }).collect();
        assert!(matches!(
            Processor::process_instruction(&program(), &mut accounts, &ins),
            Err(EchoError::NotEnoughAccountKeys)
        ));
    }
}

#[test]
fn vending_machine_initialize_plans_priced_buffer() {
    let mint = Address::new([11u8; 32]);
    let payer = Address::new([12u8; 32]);
    let (key, bump) = derive_address(&program(), &vending_machine_namespace_bytes(), &mint, 500).unwrap();
    let mut accounts = vec![
        AccountData { key, data: vec![] },
        AccountData { key: mint, data: vec![] },
        AccountData { key: payer, data: vec![] },
        AccountData { key: Address::new([0u8; 32]), data: vec![] },
    ];
    let init = EchoInstruction::InitializeVendingMachineEcho { price: 500, buffer_size: 20 };
    assert_eq!(run_initialize(&mut accounts, &init, false), Ok(()));
    assert_eq!(VendingMachineBufferHeader::read(&accounts[0].data), VendingMachineBufferHeader { bump, price: 500 });
    match Processor::process_instruction(&program(), &mut accounts, &init) {
        Ok(Step::CreateAccount(plan)) => {
            assert_eq!(plan.payer, payer);
            assert_eq!(plan.signer_seeds[0], b"vending_machine".to_vec());
            assert_eq!(plan.signer_seeds[1], mint.bytes.to_vec());
        }
        _ => panic!("expected an account creation"),
    }
    accounts[0].key = Address::new([3u8; 32]);
    assert!(matches!(
        Processor::process_instruction(&program(), &mut accounts, &init),
        Err(EchoError::InvalidAccountData)
    ));
}

#[test]
fn vending_machine_echo_is_not_implemented() {
    let mut none: Vec<AccountData> = vec![];
    let ins = EchoInstruction::VendingMachineEcho { data: vec![] };
    assert!(matches!(Processor::process_instruction(&program(), &mut none, &ins), Err(EchoError::NotImplemented)));
    let mut some = initialized_buffer(7, 13);
    let before = some[0].data.clone();
    let ins = EchoInstruction::VendingMachineEcho { data: vec![1, 2, 3] };
    assert!(matches!(Processor::process_instruction(&program(), &mut some, &ins), Err(EchoError::NotImplemented)));
    assert_eq!(some[0].data, before);
}
