//! One-time codes: a uniformly sampled 6-digit, zero-padded decimal string,
//! and the read-only membership check the control-plane boundary performs.
//! A code carries no security guarantee by itself — too little entropy to
//! resist offline guessing — so any comparison must be paired with rate
//! limiting and expiry owned by that boundary.

use vstd::prelude::*;
use vstd::string::StringExecFns;
use rand::RngCore;
use crate::decimal::digit_char;
use crate::decimal::digit_str;
use crate::vault::CryptoError;

verus! {

/// The 6-digit zero-padded decimal rendering of a value below one million.
pub open spec fn code_seq(v: int) -> Seq<char> {
    seq![
        digit_char((v / 100000) % 10),
        digit_char((v / 10000) % 10),
        digit_char((v / 1000) % 10),
        digit_char((v / 100) % 10),
        digit_char((v / 10) % 10),
        digit_char(v % 10),
    ]
}

/// Relies on rand's `OsRng` (the operating system's secure random source),
/// through the non-panicking `try_fill_bytes`, for one 32-bit draw; `None`
/// reports that the source refused, and nothing is assumed of the value.
#[verifier::external_body]
fn try_random_u32() -> (r: Option<u32>) {
    let mut buf = [0u8; 4];
    match rand::rngs::OsRng.try_fill_bytes(&mut buf) {
        Ok(()) => Some(u32::from_le_bytes(buf)),
        Err(_) => None,
    }
}

/// The largest multiple of one million that fits the 32-bit draws: draws at
/// or above it are rejected, so that each code value below one million keeps
/// exactly 4294 accepting draws and the sample stays uniform.
const CODE_REJECTION_BOUND: u32 = 4294000000;

/// Draws a value uniformly from `[0, 1000000)` by rejection sampling over
/// uniform 32-bit draws.  Fails only when the random source refuses, or in
/// the cryptographically negligible event that every bounded retry drew a
/// rejected value.
fn sample_code_value() -> (r: Option<u32>)
    ensures
        r is Some ==> r.unwrap() < 1000000,
{
    let mut attempts: usize = 0;
    while attempts < 128
        invariant
            attempts <= 128,
        decreases 128 - attempts,
    {
        match try_random_u32() {
            None => { return None; },
            Some(x) => {
                if x < CODE_REJECTION_BOUND {
                    return Some(x % 1000000);
                }
            },
        }
        attempts = attempts + 1;
    }
    None
}

/// Renders a code value as its 6-digit zero-padded decimal string.
pub fn format_code(v: u32) -> (r: String)
    requires
        v < 1000000,
    ensures
        r@ == code_seq(v as int),
        r@.len() == 6,
{
    let mut s = digit_str(((v / 100000) % 10) as u8).to_owned();
    s.append(digit_str(((v / 10000) % 10) as u8));
    s.append(digit_str(((v / 1000) % 10) as u8));
    s.append(digit_str(((v / 100) % 10) as u8));
    s.append(digit_str(((v / 10) % 10) as u8));
    s.append(digit_str((v % 10) as u8));
    proof {
        assert(s@ =~= code_seq(v as int));
    }
    s
}

/// Draws a one-time code uniformly from the million 6-digit strings.  When
/// the secure random source refuses, the refusal is surfaced — never papered
/// over with a predictable code.
pub fn generate_one_time_code() -> (r: Result<String, CryptoError>)
    ensures
        r is Ok ==> r.unwrap()@.len() == 6,
        r is Ok ==> exists|v: int| 0 <= v < 1000000 && r.unwrap()@ == code_seq(v),
        r is Err ==> r == Err::<String, CryptoError>(CryptoError::RandomSourceFailure),
{
    let v = match sample_code_value() {
        Some(v) => v,
        None => { return Err(CryptoError::RandomSourceFailure); },
    };
    let s = format_code(v);
    proof {
        assert(0 <= (v as int) && (v as int) < 1000000 && s@ == code_seq(v as int));
    }
    Ok(s)
}

/// A code presented for verification.
pub struct AuthRequest {
    pub code: String,
}

/// Whether the presented code was accepted.
pub struct AuthResponse {
    pub success: bool,
}

/// Read-only membership check of a presented code among the currently valid
/// ones; the set of valid codes is not modified.
pub fn check_code(codes: &Vec<String>, presented: &String) -> (r: bool)
    ensures
        r == (exists|i: int| 0 <= i < codes@.len() && codes@[i]@ == presented@),
{
    let mut i: usize = 0;
    while i < codes.len()
        invariant
            i <= codes@.len(),
            forall|j: int| 0 <= j < i ==> codes@[j]@ != presented@,
        decreases codes@.len() - i,
    {
        if codes[i].eq(presented) {
            return true;
        }
        i = i + 1;
    }
    false
}

/// Decides one code-check request: accepted exactly when the presented code
/// is currently valid.
pub fn handle_auth(codes: &Vec<String>, request: &AuthRequest) -> (r: AuthResponse)
    ensures
        r.success == (exists|i: int| 0 <= i < codes@.len() && codes@[i]@ == request.code@),
{
    AuthResponse { success: check_code(codes, &request.code) }
}

} // verus!
