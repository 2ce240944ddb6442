//! Fixed-point helpers shared by the fee engine and the ledgers.
use crate::address::Address;
use crate::error::{DexError, ProgramFault};
use vstd::prelude::*;

verus! {

/// What the exchange core reads of an account that an operation is handed:
/// its address, the program that owns it, whether its owner signed, whether
/// it may be written, its balance of native coins, and the size of its data.
#[derive(Clone, Copy, Debug)]
pub struct AccountInfo {
    pub key: Address,
    pub owner: Address,
    pub is_signer: bool,
    pub is_writable: bool,
    pub lamports: u64,
    pub data_len: usize,
}

/// The address of the token program.
pub open spec fn spl_token_id() -> Seq<u8> {
    seq![
        6u8, 221, 246, 225, 215, 101, 161, 147, 217, 203, 225, 70, 206, 235, 121, 172, 28, 180,
        133, 237, 95, 91, 55, 145, 58, 140, 245, 133, 126, 255, 0, 169,
    ]
}

/// The address of the system program.
pub open spec fn system_program_id() -> Seq<u8> {
    Seq::new(32, |i: int| 0u8)
}

/// The owner that the destination of swept fees must have.
pub open spec fn sweep_authority_id() -> Seq<u8> {
    seq![
        189u8, 49, 140, 79, 115, 160, 36, 53, 176, 35, 195, 14, 53, 91, 163, 254, 15, 142, 130, 7,
        156, 10, 59, 48, 189, 160, 9, 216, 237, 163, 166, 151,
    ]
}

/// The address of the token program.
pub fn spl_token_program() -> (r: Address)
    ensures
        r@ == spl_token_id(),
{
    let r = Address {
        bytes: [
            6, 221, 246, 225, 215, 101, 161, 147, 217, 203, 225, 70, 206, 235, 121, 172, 28, 180,
            133, 237, 95, 91, 55, 145, 58, 140, 245, 133, 126, 255, 0, 169,
        ],
    };
    assert(r@ =~= spl_token_id());
    r
}

/// The address of the system program.
pub fn system_program() -> (r: Address)
    ensures
        r@ == system_program_id(),
{
    let r = Address { bytes: [0; 32] };
    assert(r@ =~= system_program_id());
    r
}

/// The owner that the destination of swept fees must have.
pub fn sweep_authority() -> (r: Address)
    ensures
        r@ == sweep_authority_id(),
{
    let r = Address {
        bytes: [
            189, 49, 140, 79, 115, 160, 36, 53, 176, 35, 195, 14, 53, 91, 163, 254, 15, 142, 130,
            7, 156, 10, 59, 48, 189, 160, 9, 216, 237, 163, 166, 151,
        ],
    };
    assert(r@ =~= sweep_authority_id());
    r
}

/// Fails with `error` unless the account has the given address.
pub fn check_account_key(account: &AccountInfo, key: &Address, error: DexError) -> (r: Result<
    (),
    DexError,
>)
    ensures
        r == (if account.key@ == key@ {
            Ok::<(), DexError>(())
        } else {
            Err::<(), DexError>(error)
        }),
{
    if !account.key.same(key) {
        return Err(error);
    }
    Ok(())
}

/// Fails with `error` unless the account is owned by the given program.
pub fn check_account_owner(account: &AccountInfo, owner: &Address, error: DexError) -> (r: Result<
    (),
    DexError,
>)
    ensures
        r == (if account.owner@ == owner@ {
            Ok::<(), DexError>(())
        } else {
            Err::<(), DexError>(error)
        }),
{
    if !account.owner.same(owner) {
        return Err(error);
    }
    Ok(())
}

/// Fails unless the account's owner signed the operation.
pub fn check_signer(account: &AccountInfo) -> (r: Result<(), ProgramFault>)
    ensures
        r == (if account.is_signer {
            Ok::<(), ProgramFault>(())
        } else {
            Err::<(), ProgramFault>(ProgramFault::MissingRequiredSignature)
        }),
{
    if !account.is_signer {
        return Err(ProgramFault::MissingRequiredSignature);
    }
    Ok(())
}

/// The value one in 32.32 fixed point.
pub const FP_32_ONE: u64 = 0x1_0000_0000;

/// The value that fits in 64 bits, if `n` does.
pub open spec fn spec_safe_downcast(n: int) -> Option<u64> {
    if 0 <= n <= u64::MAX {
        Some(n as u64)
    } else {
        None
    }
}

/// The product of an integer and a 32.32 fixed-point factor, rounded down.
pub open spec fn spec_fp32_mul(a: u64, b_fp32: u64) -> Option<u64> {
    spec_safe_downcast((a as int * b_fp32 as int) / 0x1_0000_0000)
}

/// The quotient of an integer by a 32.32 fixed-point divisor, rounded down.
pub open spec fn spec_fp32_div(a: u64, b_fp32: u64) -> Option<u64> {
    if b_fp32 == 0 {
        None
    } else {
        spec_safe_downcast((a as int * 0x1_0000_0000) / (b_fp32 as int))
    }
}

/// Narrows a 128-bit value to 64 bits, or reports that it does not fit.
pub fn safe_downcast(n: u128) -> (r: Option<u64>)
    ensures
        r == spec_safe_downcast(n as int),
{
    if n > 0xffff_ffff_ffff_ffff {
        None
    } else {
        Some(n as u64)
    }
}

/// `a` is an integer, `b_fp32` is 32.32 fixed point; the result is `a / b`.
pub fn fp32_div(a: u64, b_fp32: u64) -> (r: Option<u64>)
    ensures
        r == spec_fp32_div(a, b_fp32),
{
    if b_fp32 == 0 {
        return None;
    }
    let wide: u128 = (a as u128) * 0x1_0000_0000u128;
    safe_downcast(wide / (b_fp32 as u128))
}

/// `a` is an integer, `b_fp32` is 32.32 fixed point; the result is `a * b`.
pub fn fp32_mul(a: u64, b_fp32: u64) -> (r: Option<u64>)
    ensures
        r == spec_fp32_mul(a, b_fp32),
{
    assert((a as int) * (b_fp32 as int) <= 0xffff_ffff_ffff_ffff * 0xffff_ffff_ffff_ffff)
        by (nonlinear_arith)
        requires
            0 <= a as int <= 0xffff_ffff_ffff_ffff,
            0 <= b_fp32 as int <= 0xffff_ffff_ffff_ffff,
    ;
    let wide: u128 = (a as u128) * (b_fp32 as u128);
    safe_downcast(wide / 0x1_0000_0000u128)
}

/// A product by a smaller factor is no larger.
pub proof fn lemma_fp32_mul_monotone(a: u64, lo_fp32: u64, hi_fp32: u64)
    requires
        lo_fp32 <= hi_fp32,
    ensures
        (a as int * lo_fp32 as int) / 0x1_0000_0000 <= (a as int * hi_fp32 as int) / 0x1_0000_0000,
{
    assert(a as int * lo_fp32 as int <= a as int * hi_fp32 as int) by (nonlinear_arith)
        requires
            0 <= a as int,
            lo_fp32 as int <= hi_fp32 as int,
    ;
}

/// A product by a factor below one is no larger than the integer itself.
pub proof fn lemma_fp32_mul_bounded(a: u64, b_fp32: u64)
    requires
        b_fp32 <= 0x1_0000_0000,
    ensures
        0 <= (a as int * b_fp32 as int) / 0x1_0000_0000 <= a,
{
    assert(0 <= a as int * b_fp32 as int <= a as int * 0x1_0000_0000) by (nonlinear_arith)
        requires
            0 <= a as int,
            0 <= b_fp32 as int <= 0x1_0000_0000,
    ;
}

/// The accounts of the list from position `start` on.
pub fn accounts_from(accounts: &Vec<AccountInfo>, start: usize) -> (r: Vec<AccountInfo>)
    requires
        start <= accounts.len(),
    ensures
        r@ == accounts@.skip(start as int),
{
    let mut out: Vec<AccountInfo> = Vec::new();
    let mut i: usize = start;
    while i < accounts.len()
        invariant
            start <= i <= accounts.len(),
            out@ == accounts@.subrange(start as int, i as int),
        decreases accounts.len() - i,
    {
        out.push(accounts[i]);
        assert(accounts@.subrange(start as int, i + 1) =~= accounts@.subrange(
            start as int,
            i as int,
        ).push(accounts[i as int]));
        i += 1;
    }
    assert(accounts@.skip(start as int) =~= accounts@.subrange(start as int, i as int));
    out
}

} // verus!
