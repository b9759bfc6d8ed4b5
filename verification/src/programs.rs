//! The programs that the beams talk to.

use vstd::prelude::*;
use crate::pubkey::Pubkey;

verus! {

/// The bytes of the address of the stake pool program.
pub open spec fn spl_stake_pool_program_id() -> Seq<u8> {
    seq![
        6u8, 129u8, 78u8, 212u8, 202u8, 246u8, 138u8, 23u8, 70u8, 114u8, 253u8, 172u8, 134u8, 3u8,
        26u8, 99u8, 232u8, 78u8, 161u8, 94u8, 250u8, 29u8, 68u8, 183u8, 34u8, 147u8, 246u8, 219u8,
        219u8, 0u8, 22u8, 80u8,
    ]
}

/// The bytes of the address of the native stake program.
pub open spec fn native_stake_program_id() -> Seq<u8> {
    seq![
        6u8, 161u8, 216u8, 23u8, 145u8, 55u8, 84u8, 42u8, 152u8, 52u8, 55u8, 189u8, 254u8, 42u8,
        122u8, 178u8, 85u8, 127u8, 83u8, 92u8, 138u8, 120u8, 114u8, 43u8, 104u8, 164u8, 157u8,
        192u8, 0u8, 0u8, 0u8, 0u8,
    ]
}

/// Marinade's program.
#[derive(Clone, Copy, Debug)]
pub struct Marinade;

/// The stake pool program.
#[derive(Clone, Copy, Debug)]
pub struct SplStakePool;

/// The native stake program.
#[derive(Clone, Copy, Debug)]
pub struct NativeStakeProgram;

impl SplStakePool {
    /// The address of the program:
    /// `SPoo1Ku8WFXoNDMHPsrGSTSG1Y47rzgn41SLUNakuHy`.
    pub fn id() -> (result: Pubkey)
        ensures
            result.bytes@ == spl_stake_pool_program_id(),
    {
        let bytes: [u8; 32] = [
            6, 129, 78, 212, 202, 246, 138, 23, 70, 114, 253, 172, 134, 3, 26, 99, 232, 78, 161,
            94, 250, 29, 68, 183, 34, 147, 246, 219, 219, 0, 22, 80,
        ];
        assert(bytes@ =~= spl_stake_pool_program_id());
        Pubkey::new_from_array(bytes)
    }
}

impl NativeStakeProgram {
    /// The address of the program:
    /// `Stake11111111111111111111111111111111111111`.
    pub fn id() -> (result: Pubkey)
        ensures
            result.bytes@ == native_stake_program_id(),
    {
        let bytes: [u8; 32] = [
            6, 161, 216, 23, 145, 55, 84, 42, 152, 52, 55, 189, 254, 42, 122, 178, 85, 127, 83, 92,
            138, 120, 114, 43, 104, 164, 157, 192, 0, 0, 0, 0,
        ];
        assert(bytes@ =~= native_stake_program_id());
        Pubkey::new_from_array(bytes)
    }
}

} // verus!
