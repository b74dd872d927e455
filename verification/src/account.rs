//! The account that a scan is about.

use vstd::prelude::*;
use crate::error::{ErrorKind, ScanError, ScanErrorView};

verus! {

/// The address that a text writes in hexadecimal, written out in full (`0x` and forty digits
/// in lower case), or what the parser objects to.
pub uninterp spec fn address_of(text: Seq<char>) -> Result<Seq<char>, Seq<char>>;

/// Calls `str::parse` for a `web3::types::H160`, whose `FromStr` reads hexadecimal digits, and
/// hands the address on as `{:?}` writes it, in full. The outcome depends on the text alone; an
/// objection is handed on as `{:?}` writes it.
#[verifier::external_body]
fn parse_address(text: &str) -> (r: Result<String, String>)
    ensures
        match r {
            Ok(address) => address_of(text@) == Ok::<_, Seq<char>>(address@),
            Err(reason) => address_of(text@) == Err::<Seq<char>, _>(reason@),
        },
{
    match text.parse::<web3::types::H160>() {
        Ok(address) => Ok(format!("{:?}", address)),
        Err(reason) => Err(format!("{:?}", reason)),
    }
}

/// Whether a text is an address written out in full: what some input parses to.
pub open spec fn is_address(hex: Seq<char>) -> bool {
    exists|text: Seq<char>| address_of(text) == Ok::<_, Seq<char>>(hex)
}

/// An account address, written out in full.
#[derive(Debug, PartialEq, Eq)]
pub struct Account {
    hex: String,
}

impl View for Account {
    type V = Seq<char>;

    closed spec fn view(&self) -> Seq<char> {
        self.hex@
    }
}

/// A text without a leading `0x`.
pub open spec fn without_prefix(text: Seq<char>) -> Seq<char> {
    if text.len() >= 2 && text[0] == '0' && text[1] == 'x' {
        text.skip(2)
    } else {
        text
    }
}

/// The failure that names an input as no address.
pub open spec fn address_failure(input: Seq<char>, reason: Seq<char>) -> ScanErrorView {
    ScanErrorView { kind: ErrorKind::Address, subject: input, detail: reason }
}

/// The account that an input names, or the failure that names the input.
pub open spec fn account_of(input: Seq<char>) -> Result<Seq<char>, ScanErrorView> {
    match address_of(without_prefix(input)) {
        Ok(hex) => Ok(hex),
        Err(reason) => Err(address_failure(without_prefix(input), reason)),
    }
}

/// Takes a leading `0x` off a text.
pub fn strip_prefix(text: &str) -> (r: &str)
    ensures
        r@ == without_prefix(text@),
{
    let n: usize = text.unicode_len();
    if n >= 2 && text.get_char(0) == '0' && text.get_char(1) == 'x' {
        let r = text.substring_char(2, n);
        assert(r@ =~= text@.skip(2));
        r
    } else {
        text
    }
}

/// The failure that names an input as no address, with what the parser objected to.
pub fn not_an_address(input: &str, reason: &str) -> (error: ScanError)
    ensures
        error@ == address_failure(input@, reason@),
{
    ScanError { kind: ErrorKind::Address, subject: input.to_owned(), detail: reason.to_owned() }
}

/// Reads the account address that a scan is about. A leading `0x` is taken off first; what is
/// left must be an address in hexadecimal, else the scan fails with the input in the failure.
pub fn parse_account(input: &str) -> (r: Result<Account, ScanError>)
    ensures
        match r {
            Ok(account) => account_of(input@) == Ok::<_, ScanErrorView>(account@),
            Err(error) => account_of(input@) == Err::<Seq<char>, _>(error@),
        },
{
    let bare = strip_prefix(input);
    match parse_address(bare) {
        Ok(hex) => {
            assert(is_address(hex@)) by {
                assert(address_of(bare@) == Ok::<_, Seq<char>>(hex@));
            }
            Ok(Account { hex })
        },
        Err(reason) => Err(not_an_address(bare, reason.as_str())),
    }
}

impl Account {
    #[verifier::type_invariant]
    spec fn well_formed(&self) -> bool {
        is_address(self@)
    }

    /// The address written out in full, as the ledger's queries take it.
    pub fn hex(&self) -> (text: &str)
        ensures
            text@ == self@,
            is_address(self@),
    {
        proof {
            use_type_invariant(self);
        }
        self.hex.as_str()
    }
}

} // verus!
