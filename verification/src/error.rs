//! What can go wrong in a scan, and how far each failure reaches.

use vstd::prelude::*;

verus! {

/// A call that the scan makes.
#[derive(Clone, Copy, Debug, PartialEq, Eq, Structural)]
pub enum Call {
    /// To the ledger index, for the account's transaction history.
    History,
    /// To the ledger index, for the account's raw balance of a token.
    Balance,
    /// To the token index, for a token's decimal exponent.
    Decimals,
    /// To the primary market-data provider, for an identifier or a price.
    Coingecko,
    /// To the exchange-quote provider, for an identifier or a price.
    Paraswap,
}

/// How far a failure reaches.
#[derive(Clone, Copy, Debug, PartialEq, Eq, Structural)]
pub enum Scope {
    /// The account could not be queried: the scan ends.
    Account,
    /// One token could not be resolved: it is skipped and the scan goes on.
    Token,
}

/// The kinds of failure.
#[derive(Clone, Copy, Debug, PartialEq, Eq, Structural)]
pub enum ErrorKind {
    /// The account address is no address. Subject: the input; detail: what the parser said.
    Address,
    /// The native balance is no count of smallest units. Subject: the text that was given.
    NativeBalance,
    /// The ledger did not answer the history query with `OK` and a list.
    History,
    /// A history entry has no `tokenSymbol`.
    SymbolMissing,
    /// A history entry has no `contractAddress`.
    AddressMissing,
    /// A history entry's `contractAddress` is no string.
    AddressInvalid,
    /// The ledger refused a balance query. Subject: the contract address.
    Balance,
    /// A token's decimal exponent cannot be used. Subject: the contract address.
    Decimals,
    /// The answer to a call lacks what its reader selects. Subject: the selector engine's
    /// message.
    Selection(Call),
    /// A call failed at every attempt that the ceiling allows. Subject: the last response body.
    Fetch(Call),
    /// A provider does not quote in this currency. Subject: the currency code.
    QuoteCurrency,
}

/// A failure with the input it is about.
#[derive(Clone, Debug, PartialEq, Eq)]
pub struct ScanError {
    pub kind: ErrorKind,
    pub subject: String,
    pub detail: String,
}

/// A `ScanError` over sequences of characters.
pub struct ScanErrorView {
    pub kind: ErrorKind,
    pub subject: Seq<char>,
    pub detail: Seq<char>,
}

impl View for ScanError {
    type V = ScanErrorView;

    open spec fn view(&self) -> ScanErrorView {
        ScanErrorView { kind: self.kind, subject: self.subject@, detail: self.detail@ }
    }
}

/// A text as Rust's `Debug` writes it: between double quotes, with escapes.
pub uninterp spec fn quoted(text: Seq<char>) -> Seq<char>;

/// Formats a `str` with `{:?}`, std's `Debug` for `str`. The outcome depends on the text alone.
#[verifier::external_body]
fn quote(text: &str) -> (r: String)
    ensures
        r@ == quoted(text@),
{
    format!("{:?}", text)
}

/// The name that the service behind a call goes by in messages.
pub open spec fn service_name(call: Call) -> Seq<char> {
    match call {
        Call::History => "etherscan"@,
        Call::Balance => "etherscan"@,
        Call::Decimals => "ethplorer"@,
        Call::Coingecko => "coingecko"@,
        Call::Paraswap => "paraswap"@,
    }
}

/// How far a kind of failure reaches. What goes wrong with the account's address, with its
/// native balance or with its history ends the scan; what goes wrong in a token's pipeline costs
/// that token.
pub open spec fn scope_of(kind: ErrorKind) -> Scope {
    match kind {
        ErrorKind::Address => Scope::Account,
        ErrorKind::NativeBalance => Scope::Account,
        ErrorKind::History => Scope::Account,
        ErrorKind::SymbolMissing => Scope::Account,
        ErrorKind::AddressMissing => Scope::Account,
        ErrorKind::AddressInvalid => Scope::Account,
        ErrorKind::Selection(Call::History) => Scope::Account,
        ErrorKind::Fetch(Call::History) => Scope::Account,
        _ => Scope::Token,
    }
}

/// The message of a failure.
pub open spec fn message_of(error: ScanErrorView) -> Seq<char> {
    match error.kind {
        ErrorKind::Address => "Error at specified address: "@ + error.subject + ". "@
            + error.detail,
        ErrorKind::NativeBalance => "Error on processing the native balance "@ + error.subject,
        ErrorKind::History => "Error on processing the list of ERC20 tokens"@,
        ErrorKind::SymbolMissing => "tokenSymbol not present"@,
        ErrorKind::AddressMissing => "contractAddress not present"@,
        ErrorKind::AddressInvalid => "contractAddress invalid"@,
        ErrorKind::Balance => "Error on processing ERC20 balance for "@ + error.subject,
        ErrorKind::Decimals => "Error on fetching decimals for token contract "@ + error.subject,
        ErrorKind::Selection(_) => error.subject,
        ErrorKind::Fetch(call) => "Could not fetch from "@ + service_name(call)
            + ": response body: "@ + quoted(error.subject),
        ErrorKind::QuoteCurrency => "Could not fetch token price versus "@ + error.subject,
    }
}

/// The failure of a reader whose selector found nothing in the answer to a call, with what the
/// selector engine said.
pub open spec fn selection_failure(call: Call, refusal: Seq<char>) -> ScanErrorView {
    ScanErrorView { kind: ErrorKind::Selection(call), subject: refusal, detail: Seq::empty() }
}

/// Whether a reader's result is the expected one.
pub open spec fn reads_as<T: View>(actual: Result<T, ScanError>, expected: Result<
    T::V,
    ScanErrorView,
>) -> bool {
    match (actual, expected) {
        (Ok(value), Ok(wanted)) => value@ == wanted,
        (Err(error), Err(wanted)) => error@ == wanted,
        _ => false,
    }
}

impl Call {
    /// The name that the service behind the call goes by in messages.
    pub fn service(&self) -> (r: &'static str)
        ensures
            r@ == service_name(*self),
    {
        match self {
            Call::History => "etherscan",
            Call::Balance => "etherscan",
            Call::Decimals => "ethplorer",
            Call::Coingecko => "coingecko",
            Call::Paraswap => "paraswap",
        }
    }
}

impl ScanError {
    /// A failure of a kind that needs no input to describe it.
    pub fn bare(kind: ErrorKind) -> (error: ScanError)
        ensures
            error@ == (ScanErrorView {
                kind,
                subject: Seq::<char>::empty(),
                detail: Seq::<char>::empty(),
            }),
    {
        ScanError { kind, subject: String::new(), detail: String::new() }
    }

    /// A failure about one input.
    pub fn about(kind: ErrorKind, subject: &str) -> (error: ScanError)
        ensures
            error@ == (ScanErrorView { kind, subject: subject@, detail: Seq::<char>::empty() }),
    {
        ScanError { kind, subject: subject.to_owned(), detail: String::new() }
    }

    /// How far the failure reaches.
    pub fn scope(&self) -> (scope: Scope)
        ensures
            scope == scope_of(self.kind),
    {
        match self.kind {
            ErrorKind::Address => Scope::Account,
            ErrorKind::NativeBalance => Scope::Account,
            ErrorKind::History => Scope::Account,
            ErrorKind::SymbolMissing => Scope::Account,
            ErrorKind::AddressMissing => Scope::Account,
            ErrorKind::AddressInvalid => Scope::Account,
            ErrorKind::Selection(Call::History) => Scope::Account,
            ErrorKind::Fetch(Call::History) => Scope::Account,
            _ => Scope::Token,
        }
    }

    /// The message of the failure.
    pub fn message(&self) -> (text: String)
        ensures
            text@ == message_of(self@),
    {
        match self.kind {
            ErrorKind::Address => {
                let mut text = String::from_str("Error at specified address: ");
                text.append(self.subject.as_str());
                text.append(". ");
                text.append(self.detail.as_str());
                text
            },
            ErrorKind::NativeBalance => {
                let mut text = String::from_str("Error on processing the native balance ");
                text.append(self.subject.as_str());
                text
            },
            ErrorKind::History => String::from_str("Error on processing the list of ERC20 tokens"),
            ErrorKind::SymbolMissing => String::from_str("tokenSymbol not present"),
            ErrorKind::AddressMissing => String::from_str("contractAddress not present"),
            ErrorKind::AddressInvalid => String::from_str("contractAddress invalid"),
            ErrorKind::Balance => {
                let mut text = String::from_str("Error on processing ERC20 balance for ");
                text.append(self.subject.as_str());
                text
            },
            ErrorKind::Decimals => {
                let mut text = String::from_str("Error on fetching decimals for token contract ");
                text.append(self.subject.as_str());
                text
            },
            ErrorKind::Selection(_) => self.subject.clone(),
            ErrorKind::Fetch(call) => {
                let mut text = String::from_str("Could not fetch from ");
                text.append(call.service());
                text.append(": response body: ");
                let body = quote(self.subject.as_str());
                text.append(body.as_str());
                text
            },
            ErrorKind::QuoteCurrency => {
                let mut text = String::from_str("Could not fetch token price versus ");
                text.append(self.subject.as_str());
                text
            },
        }
    }
}

} // verus!
