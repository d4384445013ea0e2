use crate::address::Address;
use crate::derivation::{
    authority_namespace, authority_namespace_bytes, copy_bytes, derivation_confirms, derive_address,
    family_derivation, family_seeds, vending_machine_namespace, vending_machine_namespace_bytes,
    verify_derivation, with_bump,
};
use crate::error::EchoError;
use crate::header::{header_bump, header_scalar, with_header, write_header, HEADER_LEN};
use crate::instruction::EchoInstruction;
use crate::state::AuthorizedBufferHeader;
use vstd::bytes::{spec_u64_to_le_bytes, u64_to_le_bytes};
use vstd::prelude::*;

verus! {

/// An account handed to the program: its address and a copy of its data.
pub struct AccountData {
    pub key: Address,
    pub data: Vec<u8>,
}

/// A request to the runtime to create a program-owned account at a derived
/// address, signed by the seeds of that address.
pub struct CreateAccountPlan {
    /// The account that funds the new one.
    pub payer: Address,
    /// The derived address of the account to create.
    pub new_account: Address,
    /// The program that will own the new account.
    pub owner: Address,
    /// The size of the new account's data, in bytes.
    pub space: u64,
    /// The seed tuple of the new account's address, bump included.
    pub signer_seeds: Vec<Vec<u8>>,
    /// The bump to record in the new account's header.
    pub bump: u8,
    /// The scalar (buffer seed or price) to record in the new account's header.
    pub scalar: u64,
}

/// What the program asks of the runtime once an instruction has been processed.
pub enum Step {
    /// Nothing: the instruction is complete.
    Done,
    /// Create an account as planned, then hand the outcome to
    /// `Processor::complete_initialize`.
    CreateAccount(CreateAccountPlan),
}

/// The entry point of the echo program's logic.
pub struct Processor {}

/// The outcome of an unauthenticated echo: the payload replaces the account's
/// data when both have the same length.
pub open spec fn echo_outcome(data: Seq<u8>, payload: Seq<u8>) -> (Result<(), EchoError>, Seq<u8>) {
    if payload.len() == data.len() {
        (Ok(()), payload)
    } else {
        (Err(EchoError::InvalidInstructionData), data)
    }
}

/// A buffer after its payload region received `payload`, cut to the region's
/// length; what the payload does not reach is left as it was.
pub open spec fn payload_written(data: Seq<u8>, payload: Seq<u8>) -> Seq<u8> {
    let n = if payload.len() < data.len() - 9 {
        payload.len() as int
    } else {
        data.len() - 9
    };
    data.subrange(0, 9) + payload.subrange(0, n) + data.subrange(9 + n, data.len() as int)
}

/// Whether the buffer at `key` is the one that `authority` derives under
/// `program` from the seed and bump recorded in the buffer's own header.
pub open spec fn authority_confirmed(program: Seq<u8>, key: Seq<u8>, authority: Seq<u8>, data: Seq<u8>) -> bool {
    derivation_confirms(
        key,
        program,
        authority_namespace(),
        authority,
        spec_u64_to_le_bytes(header_scalar(data)),
        header_bump(data),
    )
}

/// The outcome of an authorized echo into the buffer at `key`.
pub open spec fn authorized_echo_outcome(
    program: Seq<u8>,
    key: Seq<u8>,
    authority: Seq<u8>,
    data: Seq<u8>,
    payload: Seq<u8>,
) -> (Result<(), EchoError>, Seq<u8>) {
    if data.len() < 9 {
        (Err(EchoError::AccountDataTooSmall), data)
    } else if !authority_confirmed(program, key, authority, data) {
        (Err(EchoError::InvalidAccountData), data)
    } else {
        (Ok(()), payload_written(data, payload))
    }
}

/// Whether `r` is the plan for creating the family buffer that `identity`
/// and `scalar` name under `program` at `target`, paid by `payer`, with
/// `size` bytes; or the error owed when there is none.
pub open spec fn initialize_result(
    program: Seq<u8>,
    target: Seq<u8>,
    payer: Seq<u8>,
    namespace: Seq<u8>,
    identity: Seq<u8>,
    scalar: u64,
    size: usize,
    r: Result<CreateAccountPlan, EchoError>,
) -> bool {
    match family_derivation(program, namespace, identity, scalar) {
        None => r == Err::<CreateAccountPlan, EchoError>(EchoError::InvalidSeeds),
        Some((a, b)) => if a != target {
            r == Err::<CreateAccountPlan, EchoError>(EchoError::InvalidAccountData)
        } else if size < 9 {
            r == Err::<CreateAccountPlan, EchoError>(EchoError::AccountDataTooSmall)
        } else {
            match r {
                Ok(p) => {
                    &&& p.payer@ == payer
                    &&& p.new_account@ == target
                    &&& p.owner@ == program
                    &&& p.space == size as u64
                    &&& p.signer_seeds.deep_view() == with_bump(
                        family_seeds(namespace, identity, spec_u64_to_le_bytes(scalar)),
                        b,
                    )
                    &&& p.bump == b
                    &&& p.scalar == scalar
                    &&& derivation_confirms(
                        target,
                        program,
                        namespace,
                        identity,
                        spec_u64_to_le_bytes(scalar),
                        b,
                    )
                },
                Err(_) => false,
            }
        },
    }
}

/// The outcome of completing an initialization once the runtime reported on
/// the account creation: the header is written only after a success.
pub open spec fn complete_outcome(bump: u8, scalar: u64, created: Result<(), EchoError>, data: Seq<u8>) -> (Result<(), EchoError>, Seq<u8>) {
    match created {
        Err(e) => (Err(e), data),
        Ok(_) => if data.len() < 9 {
            (Err(EchoError::AccountDataTooSmall), data)
        } else {
            (Ok(()), with_header(data, bump, scalar))
        },
    }
}

/// Replaces the whole account data by `payload`. A payload of another
/// length is rejected as invalid instruction data, and the data is kept.
pub fn echo(data: &mut Vec<u8>, payload: &[u8]) -> (r: Result<(), EchoError>)
    ensures
        (r, final(data)@) == echo_outcome(old(data)@, payload@),
{
    if payload.len() != data.len() {
        return Err(EchoError::InvalidInstructionData);
    }
    *data = copy_bytes(payload);
    Ok(())
}

/// Copies `payload` into the payload region (from offset 9), cut to the
/// region's length.
pub fn write_payload(data: &mut Vec<u8>, payload: &[u8])
    requires
        old(data)@.len() >= HEADER_LEN,
    ensures
        final(data)@ == payload_written(old(data)@, payload@),
{
    let room = data.len() - HEADER_LEN;
    let n = if payload.len() < room {
        payload.len()
    } else {
        room
    };
    let mut i: usize = 0;
    while i < n
        invariant
            i <= n,
            n <= payload@.len(),
            n + HEADER_LEN <= old(data)@.len(),
            n == (if payload@.len() < old(data)@.len() - 9 {
                payload@.len() as int
            } else {
                old(data)@.len() - 9
            }),
            data@.len() == old(data)@.len(),
            data@.len() <= usize::MAX,
            forall|k: int| 0 <= k < 9 ==> #[trigger] data@[k] == old(data)@[k],
            forall|k: int| 0 <= k < i ==> #[trigger] data@[9 + k] == payload@[k],
            forall|k: int| 9 + i <= k < data@.len() ==> #[trigger] data@[k] == old(data)@[k],
        decreases n - i,
    {
        data.set(HEADER_LEN + i, payload[i]);
        i = i + 1;
    }
    proof {
        let w = payload_written(old(data)@, payload@);
        assert(w.len() == data@.len());
        assert forall|k: int| 0 <= k < w.len() implies data@[k] == w[k] by {
            if 9 <= k < 9 + n {
                assert(data@[9 + (k - 9)] == payload@[k - 9]);
            }
        }
        assert(data@ =~= w);
    }
}

/// Writes `payload` into the payload region of the buffer at `buffer_key`,
/// once the seed and bump in the buffer's header re-derive that address for
/// `authority`. A payload longer than the region is cut; a shorter one leaves
/// the rest of the region untouched. Any other account is rejected.
pub fn authorized_echo(
    program_id: &Address,
    buffer_key: &Address,
    authority: &Address,
    data: &mut Vec<u8>,
    payload: &[u8],
) -> (r: Result<(), EchoError>)
    ensures
        (r, final(data)@) == authorized_echo_outcome(program_id@, buffer_key@, authority@, old(data)@, payload@),
{
    if data.len() < HEADER_LEN {
        return Err(EchoError::AccountDataTooSmall);
    }
    let header = AuthorizedBufferHeader::read(data.as_slice());
    let namespace = authority_namespace_bytes();
    let checked = verify_derivation(
        buffer_key,
        program_id,
        &namespace,
        authority,
        u64_to_le_bytes(header.buffer_seed),
        header.bump,
    );
    match checked {
        Ok(()) => {
            write_payload(data, payload);
            Ok(())
        },
        Err(e) => Err(e),
    }
}

/// Plans the creation of the family buffer named by `namespace`, `identity`
/// and `scalar` under `program_id`: the presented `target` must be its
/// canonical derived address, and the buffer must have room for its header.
pub fn plan_initialize(
    program_id: &Address,
    target: &Address,
    payer: &Address,
    namespace: &Vec<u8>,
    identity: &Address,
    scalar: u64,
    buffer_size: usize,
) -> (r: Result<CreateAccountPlan, EchoError>)
    ensures
        initialize_result(program_id@, target@, payer@, namespace@, identity@, scalar, buffer_size, r),
{
    match derive_address(program_id, namespace, identity, scalar) {
        None => Err(EchoError::InvalidSeeds),
        Some((found, bump)) => {
            if !found.same_as(target) {
                return Err(EchoError::InvalidAccountData);
            }
            if buffer_size < HEADER_LEN {
                return Err(EchoError::AccountDataTooSmall);
            }
            let mut signer_seeds: Vec<Vec<u8>> = Vec::new();
            let ns = copy_bytes(namespace.as_slice());
            let id = identity.to_vec();
            let sc = u64_to_le_bytes(scalar);
            let bp: Vec<u8> = vec![bump];
            assert(ns.deep_view() =~= ns@);
            assert(id.deep_view() =~= id@);
            assert(sc.deep_view() =~= sc@);
            assert(bp.deep_view() =~= seq![bump]);
            signer_seeds.push(ns);
            signer_seeds.push(id);
            signer_seeds.push(sc);
            signer_seeds.push(bp);
            assert(signer_seeds.deep_view() =~= with_bump(
                family_seeds(namespace@, identity@, spec_u64_to_le_bytes(scalar)),
                bump,
            ));
            Ok(
                CreateAccountPlan {
                    payer: *payer,
                    new_account: *target,
                    owner: *program_id,
                    space: buffer_size as u64,
                    signer_seeds,
                    bump,
                    scalar,
                },
            )
        },
    }
}

/// Plans the creation of the per-authority buffer of `buffer_seed`, paid by
/// the authority itself.
pub fn plan_initialize_authorized_echo(
    program_id: &Address,
    buffer_key: &Address,
    authority: &Address,
    buffer_seed: u64,
    buffer_size: usize,
) -> (r: Result<CreateAccountPlan, EchoError>)
    ensures
        initialize_result(
            program_id@,
            buffer_key@,
            authority@,
            authority_namespace(),
            authority@,
            buffer_seed,
            buffer_size,
            r,
        ),
{
    let namespace = authority_namespace_bytes();
    plan_initialize(program_id, buffer_key, authority, &namespace, authority, buffer_seed, buffer_size)
}

/// Plans the creation of the priced buffer of `mint` and `price`, paid by `payer`.
pub fn plan_initialize_vending_machine_echo(
    program_id: &Address,
    buffer_key: &Address,
    mint: &Address,
    payer: &Address,
    price: u64,
    buffer_size: usize,
) -> (r: Result<CreateAccountPlan, EchoError>)
    ensures
        initialize_result(
            program_id@,
            buffer_key@,
            payer@,
            vending_machine_namespace(),
            mint@,
            price,
            buffer_size,
            r,
        ),
{
    let namespace = vending_machine_namespace_bytes();
    plan_initialize(program_id, buffer_key, payer, &namespace, mint, price, buffer_size)
}

/// The step result of an instruction that completes without runtime work.
pub open spec fn done_result(r: Result<(), EchoError>) -> Result<Step, EchoError> {
    match r {
        Ok(_) => Ok(Step::Done),
        Err(e) => Err(e),
    }
}

/// The planning result carried by a step result.
pub open spec fn planned(r: Result<Step, EchoError>) -> Result<CreateAccountPlan, EchoError> {
    match r {
        Ok(Step::CreateAccount(p)) => Ok(p),
        Ok(Step::Done) => Err(EchoError::InvalidInstructionData),
        Err(e) => Err(e),
    }
}

/// Whether the accounts kept their number and their addresses, and every
/// account from `from` on kept its data.
pub open spec fn accounts_kept(before: Seq<AccountData>, after: Seq<AccountData>, from: int) -> bool {
    &&& after.len() == before.len()
    &&& forall|i: int| 0 <= i < before.len() ==> #[trigger] after[i].key == before[i].key
    &&& forall|i: int| from <= i < before.len() ==> #[trigger] after[i].data@ == before[i].data@
}

/// Replaces the data of the first account.
fn set_first_data(accounts: &mut Vec<AccountData>, data: Vec<u8>)
    requires
        old(accounts)@.len() >= 1,
    ensures
        accounts_kept(old(accounts)@, final(accounts)@, 1),
        final(accounts)@[0].data@ == data@,
{
    let key = accounts[0].key;
    accounts.set(0, AccountData { key, data });
}

impl Processor {
    /// Processes one decoded instruction over the accounts it was given, in
    /// their fixed order. Echo and AuthorizedEcho write the first account;
    /// the two initializations return the account creation that the runtime
    /// must perform; VendingMachineEcho is not implemented.
    pub fn process_instruction(
        program_id: &Address,
        accounts: &mut Vec<AccountData>,
        instruction: &EchoInstruction,
    ) -> (r: Result<Step, EchoError>)
        ensures
            match instruction {
                EchoInstruction::Echo { data } => if old(accounts)@.len() < 1 {
                    &&& r == Err::<Step, EchoError>(EchoError::NotEnoughAccountKeys)
                    &&& final(accounts)@ == old(accounts)@
                } else {
                    let (res, after) = echo_outcome(old(accounts)@[0].data@, data@);
                    &&& r == done_result(res)
                    &&& accounts_kept(old(accounts)@, final(accounts)@, 1)
                    &&& final(accounts)@[0].data@ == after
                },
                EchoInstruction::InitializeAuthorizedEcho { buffer_seed, buffer_size } => {
                    &&& final(accounts)@ == old(accounts)@
                    &&& if old(accounts)@.len() < 3 {
                        r == Err::<Step, EchoError>(EchoError::NotEnoughAccountKeys)
                    } else {
                        &&& !(r matches Ok(Step::Done))
                        &&& initialize_result(
                            program_id@,
                            old(accounts)@[0].key@,
                            old(accounts)@[1].key@,
                            authority_namespace(),
                            old(accounts)@[1].key@,
                            *buffer_seed,
                            *buffer_size,
                            planned(r),
                        )
                    }
                },
                EchoInstruction::AuthorizedEcho { data } => if old(accounts)@.len() < 2 {
                    &&& r == Err::<Step, EchoError>(EchoError::NotEnoughAccountKeys)
                    &&& final(accounts)@ == old(accounts)@
                } else {
                    let (res, after) = authorized_echo_outcome(
                        program_id@,
                        old(accounts)@[0].key@,
                        old(accounts)@[1].key@,
                        old(accounts)@[0].data@,
                        data@,
                    );
                    &&& r == done_result(res)
                    &&& accounts_kept(old(accounts)@, final(accounts)@, 1)
                    &&& final(accounts)@[0].data@ == after
                },
                EchoInstruction::InitializeVendingMachineEcho { price, buffer_size } => {
                    &&& final(accounts)@ == old(accounts)@
                    &&& if old(accounts)@.len() < 4 {
                        r == Err::<Step, EchoError>(EchoError::NotEnoughAccountKeys)
                    } else {
                        &&& !(r matches Ok(Step::Done))
                        &&& initialize_result(
                            program_id@,
                            old(accounts)@[0].key@,
                            old(accounts)@[2].key@,
                            vending_machine_namespace(),
                            old(accounts)@[1].key@,
                            *price,
                            *buffer_size,
                            planned(r),
                        )
                    }
                },
                EchoInstruction::VendingMachineEcho { .. } => {
                    &&& r == Err::<Step, EchoError>(EchoError::NotImplemented)
                    &&& final(accounts)@ == old(accounts)@
                },
            },
    {
        match instruction {
            EchoInstruction::Echo { data } => {
                if accounts.len() < 1 {
                    return Err(EchoError::NotEnoughAccountKeys);
                }
                let mut target = copy_bytes(accounts[0].data.as_slice());
                let res = echo(&mut target, data.as_slice());
                set_first_data(accounts, target);
                match res {
                    Ok(()) => Ok(Step::Done),
                    Err(e) => Err(e),
                }
            },
            EchoInstruction::InitializeAuthorizedEcho { buffer_seed, buffer_size } => {
                if accounts.len() < 3 {
                    return Err(EchoError::NotEnoughAccountKeys);
                }
                match plan_initialize_authorized_echo(
                    program_id,
                    &accounts[0].key,
                    &accounts[1].key,
                    *buffer_seed,
                    *buffer_size,
                ) {
                    Ok(plan) => Ok(Step::CreateAccount(plan)),
                    Err(e) => Err(e),
                }
            },
            EchoInstruction::AuthorizedEcho { data } => {
                if accounts.len() < 2 {
                    return Err(EchoError::NotEnoughAccountKeys);
                }
                let mut target = copy_bytes(accounts[0].data.as_slice());
                let buffer_key = accounts[0].key;
                let authority = accounts[1].key;
                let res = authorized_echo(program_id, &buffer_key, &authority, &mut target, data.as_slice());
                set_first_data(accounts, target);
                match res {
                    Ok(()) => Ok(Step::Done),
                    Err(e) => Err(e),
                }
            },
            EchoInstruction::InitializeVendingMachineEcho { price, buffer_size } => {
                if accounts.len() < 4 {
                    return Err(EchoError::NotEnoughAccountKeys);
                }
                match plan_initialize_vending_machine_echo(
                    program_id,
                    &accounts[0].key,
                    &accounts[1].key,
                    &accounts[2].key,
                    *price,
                    *buffer_size,
                ) {
                    Ok(plan) => Ok(Step::CreateAccount(plan)),
                    Err(e) => Err(e),
                }
            },
            EchoInstruction::VendingMachineEcho { .. } => Err(EchoError::NotImplemented),
        }
    }

    /// Completes an initialization once the runtime has reported `created`,
    /// the outcome of the planned account creation, by writing the header of
    /// the new account. A failed creation is passed on unchanged, and the
    /// account is left as it was.
    pub fn complete_initialize(
        plan: &CreateAccountPlan,
        created: Result<(), EchoError>,
        data: &mut Vec<u8>,
    ) -> (r: Result<(), EchoError>)
        ensures
            (r, final(data)@) == complete_outcome(plan.bump, plan.scalar, created, old(data)@),
    {
        match created {
            Err(e) => Err(e),
            Ok(()) => {
                if data.len() < HEADER_LEN {
                    return Err(EchoError::AccountDataTooSmall);
                }
                write_header(data, plan.bump, plan.scalar);
                Ok(())
            },
        }
    }
}

/// An authorized echo into a buffer whose address is not the one that its
/// header's seed and bump derive for the authority is rejected as invalid
/// account data, and leaves the buffer untouched.
pub proof fn lemma_foreign_buffer_rejected(
    program: Seq<u8>,
    key: Seq<u8>,
    authority: Seq<u8>,
    data: Seq<u8>,
    payload: Seq<u8>,
)
    requires
        data.len() >= HEADER_LEN,
        !authority_confirmed(program, key, authority, data),
    ensures
        authorized_echo_outcome(program, key, authority, data, payload) == (
            Err::<(), EchoError>(EchoError::InvalidAccountData),
            data,
        ),
{
}

/// A per-authority buffer created as planned, and completed after the
/// runtime created it, passes the authority check of every later echo: its
/// header records the seed and bump that re-derive its address.
pub proof fn lemma_initialized_buffer_accepted(
    program: Seq<u8>,
    key: Seq<u8>,
    authority: Seq<u8>,
    buffer_seed: u64,
    buffer_size: usize,
    plan: CreateAccountPlan,
    data: Seq<u8>,
    payload: Seq<u8>,
)
    requires
        initialize_result(
            program,
            key,
            authority,
            authority_namespace(),
            authority,
            buffer_seed,
            buffer_size,
            Ok(plan),
        ),
        data.len() == buffer_size,
    ensures
        complete_outcome(plan.bump, plan.scalar, Ok(()), data).0 is Ok,
        authority_confirmed(program, key, authority, complete_outcome(plan.bump, plan.scalar, Ok(()), data).1),
        authorized_echo_outcome(
            program,
            key,
            authority,
            complete_outcome(plan.bump, plan.scalar, Ok(()), data).1,
            payload,
        ).0 is Ok,
{
    crate::header::lemma_header_round_trip(data, plan.bump, plan.scalar);
}

/// A creation that the runtime refused (an account that exists already, a
/// payer without funds) is reported unchanged, and the account's data,
/// header included, stays as it was.
pub proof fn lemma_refused_creation_keeps_account(bump: u8, scalar: u64, error: EchoError, data: Seq<u8>)
    ensures
        complete_outcome(bump, scalar, Err(error), data) == (Err::<(), EchoError>(error), data),
{
}

} // verus!
