//! The addresses of the ledger programs and well-known accounts that the
//! library names.
use crate::pubkey::Pubkey;
use vstd::prelude::*;

verus! {

/// The token program with extensions.
pub const TOKEN_2022_PROGRAM_ID: [u8; 32] = [
    6, 221, 246, 225, 238, 117, 143, 222, 24, 66, 93, 188, 228, 108, 205, 218,
    182, 26, 252, 77, 131, 185, 13, 39, 254, 189, 249, 40, 216, 161, 139, 252,
];

/// The first token program.
pub const TOKEN_PROGRAM_ID: [u8; 32] = [
    6, 221, 246, 225, 215, 101, 161, 147, 217, 203, 225, 70, 206, 235, 121, 172,
    28, 180, 133, 237, 95, 91, 55, 145, 58, 140, 245, 133, 126, 255, 0, 169,
];

/// The mint of wrapped native currency under the token program with
/// extensions.
pub const NATIVE_MINT_2022: [u8; 32] = [
    131, 13, 252, 159, 222, 95, 230, 184, 170, 124, 4, 164, 118, 233, 30, 138,
    198, 187, 38, 74, 173, 144, 250, 25, 201, 223, 73, 216, 92, 62, 91, 94,
];

/// The mint of wrapped native currency under the first token program.
pub const NATIVE_MINT: [u8; 32] = [
    6, 155, 136, 87, 254, 171, 129, 132, 251, 104, 127, 99, 70, 24, 192, 53,
    218, 196, 57, 220, 26, 235, 59, 85, 152, 160, 240, 0, 0, 0, 0, 1,
];

/// The decimals of both native mints.
pub const NATIVE_MINT_DECIMALS: u8 = 9;

/// The system program.
pub const SYSTEM_PROGRAM_ID: [u8; 32] = [
    0, 0, 0, 0, 0, 0, 0, 0, 0, 0, 0, 0, 0, 0, 0, 0,
    0, 0, 0, 0, 0, 0, 0, 0, 0, 0, 0, 0, 0, 0, 0, 0,
];

/// The program that verifies zero-knowledge proofs.
pub const ZK_TOKEN_PROOF_PROGRAM_ID: [u8; 32] = [
    8, 99, 186, 141, 217, 196, 194, 251, 23, 74, 5, 203, 162, 126, 42, 44,
    214, 35, 87, 61, 121, 233, 11, 53, 181, 121, 252, 13, 0, 0, 0, 0,
];

/// The memo program.
pub const MEMO_PROGRAM_ID: [u8; 32] = [
    5, 74, 83, 90, 153, 41, 33, 6, 77, 36, 232, 113, 96, 218, 56, 124,
    124, 53, 181, 221, 188, 146, 187, 129, 228, 31, 168, 64, 65, 5, 68, 141,
];

/// The compute-budget program.
pub const COMPUTE_BUDGET_PROGRAM_ID: [u8; 32] = [
    3, 6, 70, 111, 229, 33, 23, 50, 255, 236, 173, 186, 114, 195, 155, 231,
    188, 140, 229, 187, 197, 247, 18, 107, 44, 67, 155, 58, 64, 0, 0, 0,
];

/// The account through which a program reads the ledger's rent rules.
pub const RENT_SYSVAR_ID: [u8; 32] = [
    6, 167, 213, 23, 25, 44, 92, 81, 33, 140, 201, 76, 61, 74, 241, 127,
    88, 218, 238, 8, 155, 161, 253, 68, 227, 219, 217, 138, 0, 0, 0, 0,
];

/// The account through which a program reads the other instructions of
/// the transaction that it runs in.
pub const INSTRUCTIONS_SYSVAR_ID: [u8; 32] = [
    6, 167, 213, 23, 24, 123, 209, 102, 53, 218, 212, 4, 85, 253, 194, 192,
    193, 36, 198, 143, 33, 86, 117, 165, 219, 186, 203, 95, 8, 0, 0, 0,
];

/// The address of the rent account.
pub open spec fn spec_rent_sysvar_id() -> Pubkey {
    Pubkey { bytes: RENT_SYSVAR_ID }
}

/// The address of the instructions account.
pub open spec fn spec_instructions_sysvar_id() -> Pubkey {
    Pubkey { bytes: INSTRUCTIONS_SYSVAR_ID }
}

/// The address of the native mint of the token program with extensions.
pub open spec fn spec_native_mint_2022_id() -> Pubkey {
    Pubkey { bytes: NATIVE_MINT_2022 }
}

/// True for the token program with extensions.
pub open spec fn is_token_2022(program_id: Pubkey) -> bool {
    program_id == spec_token_2022_id()
}

/// True for each of the two token programs.
pub open spec fn is_token_program(program_id: Pubkey) -> bool {
    program_id == spec_token_2022_id() || program_id == spec_token_id()
}

/// The address of the token program with extensions.
pub open spec fn spec_token_2022_id() -> Pubkey {
    Pubkey { bytes: TOKEN_2022_PROGRAM_ID }
}

/// The address of the first token program.
pub open spec fn spec_token_id() -> Pubkey {
    Pubkey { bytes: TOKEN_PROGRAM_ID }
}

/// The address of the system program.
pub open spec fn spec_system_program_id() -> Pubkey {
    Pubkey { bytes: SYSTEM_PROGRAM_ID }
}

/// The address of the proof-verification program.
pub open spec fn spec_zk_token_proof_program_id() -> Pubkey {
    Pubkey { bytes: ZK_TOKEN_PROOF_PROGRAM_ID }
}

/// The address of the memo program.
pub open spec fn spec_memo_program_id() -> Pubkey {
    Pubkey { bytes: MEMO_PROGRAM_ID }
}

/// The address of the compute-budget program.
pub open spec fn spec_compute_budget_program_id() -> Pubkey {
    Pubkey { bytes: COMPUTE_BUDGET_PROGRAM_ID }
}

/// The address of the token program with extensions.
pub fn token_2022_id() -> (r: Pubkey)
    ensures
        r == spec_token_2022_id(),
{
    Pubkey { bytes: TOKEN_2022_PROGRAM_ID }
}

/// The address of the first token program.
pub fn token_id() -> (r: Pubkey)
    ensures
        r == spec_token_id(),
{
    Pubkey { bytes: TOKEN_PROGRAM_ID }
}

/// The address of the proof-verification program.
pub fn zk_token_proof_program_id() -> (r: Pubkey)
    ensures
        r == spec_zk_token_proof_program_id(),
{
    Pubkey { bytes: ZK_TOKEN_PROOF_PROGRAM_ID }
}

/// The native mint of the token program `program_id`, if it is one of the
/// two token programs.
pub open spec fn spec_native_mint(program_id: Pubkey) -> Option<Pubkey> {
    if program_id == spec_token_2022_id() {
        Some(Pubkey { bytes: NATIVE_MINT_2022 })
    } else if program_id == spec_token_id() {
        Some(Pubkey { bytes: NATIVE_MINT })
    } else {
        None
    }
}

/// The native mint of the token program `program_id`; none for any other
/// program.
pub fn native_mint(program_id: &Pubkey) -> (r: Option<Pubkey>)
    ensures
        r == spec_native_mint(*program_id),
{
    if *program_id == token_2022_id() {
        Some(Pubkey { bytes: NATIVE_MINT_2022 })
    } else if *program_id == token_id() {
        Some(Pubkey { bytes: NATIVE_MINT })
    } else {
        None
    }
}

/// The decimals of the native mint of the token program `program_id`; none
/// for any other program.
pub fn native_mint_decimals(program_id: &Pubkey) -> (r: Option<u8>)
    ensures
        r == (if spec_native_mint(*program_id) is Some {
            Some(NATIVE_MINT_DECIMALS)
        } else {
            None
        }),
{
    if *program_id == token_2022_id() {
        Some(NATIVE_MINT_DECIMALS)
    } else if *program_id == token_id() {
        Some(NATIVE_MINT_DECIMALS)
    } else {
        None
    }
}

} // verus!
