use vstd::prelude::*;

use crate::decimal::{
    decimal, lemma_decimal_len, lemma_value_of_decimal, lemma_value_of_zero_padded, pow10,
    value_of, zero_padded,
};

verus! {

/// A balance in the display unit: the token symbol, the whole units, a
/// point, and the nine digits of the fraction.
pub open spec fn sol_text(lamports: nat) -> Seq<char> {
    seq!['\u{25ce}'] + decimal(lamports / 1_000_000_000) + seq!['.'] + zero_padded(
        lamports % 1_000_000_000,
        9,
    )
}

/// The number of lamports that a display-unit text denotes: whole units
/// between the symbol and the point, fraction in the last nine digits.
pub open spec fn sol_amount(t: Seq<char>) -> nat {
    value_of(t.subrange(1, t.len() - 10)) * 1_000_000_000 + value_of(
        t.subrange(t.len() - 9, t.len() as int),
    )
}

/// The base58 text of an address.
pub uninterp spec fn address_text_of(key: Seq<u8>) -> Seq<char>;

/// The line printed for a balance query.
pub open spec fn balance_text(address: Seq<char>, lamports: nat) -> Seq<char> {
    address + " has a balance of "@ + sol_text(lamports)
}

/// Relies on the `Display` of solana_sdk::native_token::Sol, which writes the
/// symbol, the whole SOL (10^9 lamports each), a point, and the remaining
/// lamports with nine digits.
#[verifier::external_body]
fn sol_display(lamports: u64) -> (r: String)
    ensures
        r@ == sol_text(lamports as nat),
{
    solana_sdk::native_token::Sol(lamports).to_string()
}

/// Relies on the `Display` of solana_sdk::pubkey::Pubkey: the base58 text of
/// its 32 bytes.
#[verifier::external_body]
fn address_display(key: [u8; 32]) -> (r: String)
    ensures
        r@ == address_text_of(key@),
{
    solana_sdk::pubkey::Pubkey::new_from_array(key).to_string()
}

/// The address whose balance is queried: the one asked for, or else the
/// signer's own.
pub fn balance_address(requested: Option<[u8; 32]>, signer: [u8; 32]) -> (r: [u8; 32])
    ensures
        r == match requested {
            Some(a) => a,
            None => signer,
        },
{
    match requested {
        Some(a) => a,
        None => signer,
    }
}

/// The balance of `lamports` in the display unit.
pub fn sol_balance_text(lamports: u64) -> (r: String)
    ensures
        r@ == sol_text(lamports as nat),
{
    sol_display(lamports)
}

/// The line `<address> has a balance of <amount>`.
pub fn balance_line(address: [u8; 32], lamports: u64) -> (r: String)
    ensures
        r@ == balance_text(address_text_of(address@), lamports as nat),
{
    let mut line = address_display(address);
    line.append(" has a balance of ");
    let amount = sol_display(lamports);
    line.append(amount.as_str());
    line
}

proof fn lemma_pow10_nine()
    ensures
        pow10(9) == 1_000_000_000,
{
    reveal_with_fuel(pow10, 10);
}

/// The display-unit text loses nothing: it reads back as exactly the
/// number of lamports it was written from.
pub proof fn lemma_sol_text_exact(lamports: nat)
    ensures
        sol_amount(sol_text(lamports)) == lamports,
{
    let whole = lamports / 1_000_000_000;
    let frac = lamports % 1_000_000_000;
    lemma_pow10_nine();
    lemma_decimal_len(frac, 9);
    let w = decimal(whole);
    let f = zero_padded(frac, 9);
    assert(f.len() == 9);
    let t = sol_text(lamports);
    assert(t.subrange(1, t.len() - 10) =~= w);
    assert(t.subrange(t.len() - 9, t.len() as int) =~= f);
    lemma_value_of_decimal(whole);
    lemma_value_of_zero_padded(frac, 9);
}

/// Two balance lines for one address are the same exactly when the
/// balances are: a query repeated with no change in between prints the same
/// line, and a different balance never prints as the same line.
pub proof fn lemma_balance_text_determines_balance(address: Seq<char>, a: nat, b: nat)
    ensures
        (balance_text(address, a) == balance_text(address, b)) == (a == b),
{
    if balance_text(address, a) == balance_text(address, b) {
        let k = (address.len() + " has a balance of "@.len()) as int;
        let ta = balance_text(address, a);
        let tb = balance_text(address, b);
        assert(ta.subrange(k, ta.len() as int) =~= sol_text(a));
        assert(tb.subrange(k, tb.len() as int) =~= sol_text(b));
        lemma_sol_text_exact(a);
        lemma_sol_text_exact(b);
    }
}

} // verus!
