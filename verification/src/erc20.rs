//! Token balances: the decimal exponent of a contract, the raw balance of an account, and the
//! quantity the two normalise to.

use vstd::prelude::*;
use crate::coingecko::{coingecko_price, Coingecko};
use crate::error::{
    message_of, reads_as, selection_failure, Call, ErrorKind, ScanError, ScanErrorView,
};
use crate::json::{
    is_keyed_selector, node_missing, read_scalar, scalar_of, selected_key, walk, walked, Scalar,
    ScalarView,
};
use crate::price_provider::Price;
use crate::text::{
    all_digits, decimal_value, digit_value, parse_u32, push_signed, same_text, signed_digits,
    u32_of,
};

pub use crate::discovery::list_erc20_for_account;
pub use crate::scan::TokenInfo;

verus! {

/// The largest decimal exponent whose divisor fits in 64 bits.
pub const MAX_DECIMALS: u32 = 19;

/// The block range of a history query, and how talkative the scan is.
#[derive(Clone, Copy, Debug, PartialEq, Eq, Structural)]
pub struct ListConfig {
    pub startblock: i32,
    pub endblock: i32,
    pub show_progress_bar: bool,
    pub verbose: bool,
}

impl ListConfig {
    /// A configuration whose open ends default to the whole history: from block 0 to block
    /// 999999999.
    pub fn new(
        startblock: Option<i32>,
        endblock: Option<i32>,
        show_progress_bar: bool,
        verbose: bool,
    ) -> (config: ListConfig)
        ensures
            config.startblock == (match startblock {
                Some(n) => n,
                None => 0,
            }),
            config.endblock == (match endblock {
                Some(n) => n,
                None => 999999999,
            }),
            config.show_progress_bar == show_progress_bar,
            config.verbose == verbose,
    {
        let mut startblock_number: i32 = 0;
        if let Some(n) = startblock {
            startblock_number = n;
        }
        let mut endblock_number: i32 = 999999999;
        if let Some(n) = endblock {
            endblock_number = n;
        }
        ListConfig {
            startblock: startblock_number,
            endblock: endblock_number,
            show_progress_bar,
            verbose,
        }
    }
}

/// Ten to the power `n`.
pub open spec fn pow10(n: nat) -> nat
    decreases n,
{
    if n == 0 {
        1
    } else {
        10 * pow10((n - 1) as nat)
    }
}

/// The selector of a contract's decimal exponent.
pub open spec fn decimals_selector() -> Seq<char> {
    "\"decimals\""@
}

/// The selector of a ledger answer's status.
pub open spec fn message_selector() -> Seq<char> {
    "\"message\""@
}

/// The selector of a ledger answer's payload.
pub open spec fn result_selector() -> Seq<char> {
    "\"result\""@
}

/// Where to ask for a contract's decimal exponent.
pub open spec fn decimals_url_of(contract_address: Seq<char>, api_key: Seq<char>) -> Seq<char> {
    "https://api.ethplorer.io/getTokenInfo/"@ + contract_address + "?apiKey="@ + api_key
}

/// Where to ask for an account's raw balance of a token.
pub open spec fn balance_url_of(
    account: Seq<char>,
    contract_address: Seq<char>,
    api_key: Seq<char>,
) -> Seq<char> {
    "https://api.etherscan.io/api?module=account&action=tokenbalance&contractaddress="@
        + contract_address + "&address="@ + account + "&tag=latest&apikey="@ + api_key
}

/// Where to ask for an account's token transactions in a block range.
pub open spec fn history_url_of(
    account: Seq<char>,
    startblock: int,
    endblock: int,
    api_key: Seq<char>,
) -> Seq<char> {
    "http://api.etherscan.io/api?module=account&action=tokentx&address="@ + account
        + "&startblock="@ + signed_digits(startblock) + "&endblock="@ + signed_digits(endblock)
        + "&sort=asc&apikey="@ + api_key
}

/// A failure about a contract address.
pub open spec fn token_failure(kind: ErrorKind, contract_address: Seq<char>) -> ScanErrorView {
    ScanErrorView { kind, subject: contract_address, detail: Seq::empty() }
}

/// The exponent that a selected value gives: a text or a number that writes a `u32`.
pub open spec fn decimals_from(node: ScalarView, contract_address: Seq<char>) -> Result<
    u32,
    ScanErrorView,
> {
    match node {
        ScalarView::Text(text) => match u32_of(text) {
            Some(n) => Ok(n),
            None => Err(token_failure(ErrorKind::Decimals, contract_address)),
        },
        ScalarView::Number(text) => match u32_of(text) {
            Some(n) => Ok(n),
            None => Err(token_failure(ErrorKind::Decimals, contract_address)),
        },
        ScalarView::Other => Err(token_failure(ErrorKind::Decimals, contract_address)),
    }
}

/// The exponent that a token index's answer holds.
pub open spec fn decimals_reading(
    document: serde_json::Value,
    contract_address: Seq<char>,
) -> Result<u32, ScanErrorView> {
    match walked(document, decimals_selector()) {
        Some(value) => decimals_from(scalar_of(value), contract_address),
        None => Err(selection_failure(Call::Decimals, node_missing("decimals"@))),
    }
}

/// Whether a status refuses the query: a text other than `OK`.
pub open spec fn status_refuses(status: ScalarView) -> bool {
    match status {
        ScalarView::Text(text) => text != "OK"@,
        _ => false,
    }
}

/// The raw balance that a selected payload gives: its text.
pub open spec fn raw_balance_from(node: ScalarView, contract_address: Seq<char>) -> Result<
    Seq<char>,
    ScanErrorView,
> {
    match node {
        ScalarView::Text(text) => Ok(text),
        _ => Err(token_failure(ErrorKind::Balance, contract_address)),
    }
}

/// The raw balance that a ledger's answer holds.
pub open spec fn raw_balance_reading(
    document: serde_json::Value,
    contract_address: Seq<char>,
) -> Result<Seq<char>, ScanErrorView> {
    match walked(document, message_selector()) {
        None => Err(selection_failure(Call::Balance, node_missing("message"@))),
        Some(status) => if status_refuses(scalar_of(status)) {
            Err(token_failure(ErrorKind::Balance, contract_address))
        } else {
            match walked(document, result_selector()) {
                None => Err(selection_failure(Call::Balance, node_missing("result"@))),
                Some(value) => raw_balance_from(scalar_of(value), contract_address),
            }
        },
    }
}

/// A quantity of a token: a raw integer balance and the decimal exponent that scales it. It
/// stands for `raw / 10^decimals`.
#[derive(Debug, PartialEq, Eq)]
pub struct Balance {
    raw: String,
    decimals: u32,
}

/// A `Balance` over mathematical values.
pub struct BalanceView {
    pub raw: Seq<char>,
    pub decimals: nat,
}

/// What a balance must hold: one or more decimal digits, and an exponent within the limit.
pub open spec fn valid_balance(balance: BalanceView) -> bool {
    &&& balance.raw.len() > 0
    &&& all_digits(balance.raw)
    &&& balance.decimals <= MAX_DECIMALS
}

/// The quantity that a raw balance and an exponent normalise to.
pub open spec fn normalized(raw: Seq<char>, decimals: u32, contract_address: Seq<char>) -> Result<
    BalanceView,
    ScanErrorView,
> {
    if !(raw.len() > 0 && all_digits(raw)) {
        Err(token_failure(ErrorKind::Balance, contract_address))
    } else if decimals > MAX_DECIMALS {
        Err(token_failure(ErrorKind::Decimals, contract_address))
    } else {
        Ok(BalanceView { raw, decimals: decimals as nat })
    }
}

/// The quantity of the native currency that a count of smallest units stands for.
pub open spec fn native_balance_of(smallest_units: Seq<char>) -> Result<
    BalanceView,
    ScanErrorView,
> {
    if smallest_units.len() > 0 && all_digits(smallest_units) {
        Ok(BalanceView { raw: smallest_units, decimals: NATIVE_DECIMALS as nat })
    } else {
        Err(
            ScanErrorView {
                kind: ErrorKind::NativeBalance,
                subject: smallest_units,
                detail: Seq::empty(),
            },
        )
    }
}

/// The quantity that a ledger's and a token index's answers give together. The ledger's answer
/// is read first, the exponent second, and only then are the two normalised.
pub open spec fn balance_reading(
    balance_document: serde_json::Value,
    decimals_document: serde_json::Value,
    contract_address: Seq<char>,
) -> Result<BalanceView, ScanErrorView> {
    match raw_balance_reading(balance_document, contract_address) {
        Err(error) => Err(error),
        Ok(raw) => match decimals_reading(decimals_document, contract_address) {
            Err(error) => Err(error),
            Ok(decimals) => normalized(raw, decimals, contract_address),
        },
    }
}

/// A run of `n` zeros.
pub open spec fn zeros(n: nat) -> Seq<char> {
    Seq::new(n, |i: int| '0')
}

/// The digits before the decimal point of `raw / 10^decimals`.
pub open spec fn whole_digits(raw: Seq<char>, decimals: nat) -> Seq<char> {
    if raw.len() > decimals {
        raw.take(raw.len() - decimals)
    } else {
        seq!['0']
    }
}

/// The `decimals` digits after the decimal point of `raw / 10^decimals`.
pub open spec fn fraction_digits(raw: Seq<char>, decimals: nat) -> Seq<char> {
    if raw.len() > decimals {
        raw.skip(raw.len() - decimals)
    } else {
        zeros((decimals - raw.len()) as nat) + raw
    }
}

/// `raw / 10^decimals` written out: the whole part, then a point and the fraction where the
/// exponent is not zero.
pub open spec fn decimal_text_of(raw: Seq<char>, decimals: nat) -> Seq<char> {
    if decimals == 0 {
        whole_digits(raw, decimals)
    } else {
        whole_digits(raw, decimals) + seq!['.'] + fraction_digits(raw, decimals)
    }
}

impl View for Balance {
    type V = BalanceView;

    closed spec fn view(&self) -> BalanceView {
        BalanceView { raw: self.raw@, decimals: self.decimals as nat }
    }
}

/// The selectors of the balance readers name one plain key each, and nothing else.
pub proof fn lemma_balance_selectors_keyed()
    ensures
        is_keyed_selector(decimals_selector()),
        is_keyed_selector(message_selector()),
        is_keyed_selector(result_selector()),
        selected_key(decimals_selector()) == Some("decimals"@),
        selected_key(message_selector()) == Some("message"@),
        selected_key(result_selector()) == Some("result"@),
{
    reveal_strlit("\"decimals\"");
    reveal_strlit("\"message\"");
    reveal_strlit("\"result\"");
    reveal_strlit("decimals");
    reveal_strlit("message");
    reveal_strlit("result");
    assert(decimals_selector().subrange(1, decimals_selector().len() - 1) =~= "decimals"@);
    assert(message_selector().subrange(1, message_selector().len() - 1) =~= "message"@);
    assert(result_selector().subrange(1, result_selector().len() - 1) =~= "result"@);
}

/// Writes the address of a contract's decimal exponent.
pub fn decimals_url(contract_address: &str, ethplorer_api_key: &str) -> (url: String)
    ensures
        url@ == decimals_url_of(contract_address@, ethplorer_api_key@),
{
    let mut url = String::from_str("https://api.ethplorer.io/getTokenInfo/");
    url.append(contract_address);
    url.append("?apiKey=");
    url.append(ethplorer_api_key);
    url
}

/// Writes the address of an account's raw balance of a token.
pub fn balance_url(account: &str, contract_address: &str, etherscan_api_key: &str) -> (url: String)
    ensures
        url@ == balance_url_of(account@, contract_address@, etherscan_api_key@),
{
    let mut url = String::from_str(
        "https://api.etherscan.io/api?module=account&action=tokenbalance&contractaddress=",
    );
    url.append(contract_address);
    url.append("&address=");
    url.append(account);
    url.append("&tag=latest&apikey=");
    url.append(etherscan_api_key);
    url
}

/// Writes the address of an account's token transactions in the configured block range.
pub fn history_url(account: &str, etherscan_api_key: &str, list_config: &ListConfig) -> (url:
    String)
    ensures
        url@ == history_url_of(
            account@,
            list_config.startblock as int,
            list_config.endblock as int,
            etherscan_api_key@,
        ),
{
    let mut url = String::from_str(
        "http://api.etherscan.io/api?module=account&action=tokentx&address=",
    );
    url.append(account);
    url.append("&startblock=");
    push_signed(&mut url, list_config.startblock);
    url.append("&endblock=");
    push_signed(&mut url, list_config.endblock);
    url.append("&sort=asc&apikey=");
    url.append(etherscan_api_key);
    url
}

/// Reads a decimal exponent off a selected value.
pub fn decimals_from_scalar(node: &Scalar, contract_address: &str) -> (r: Result<u32, ScanError>)
    ensures
        reads_as(r, decimals_from(node@, contract_address@)),
{
    let written = match node {
        Scalar::Text(text) => parse_u32(text.as_str()),
        Scalar::Number(text) => parse_u32(text.as_str()),
        Scalar::Other => None,
    };
    match written {
        Some(n) => Ok(n),
        None => Err(ScanError::about(ErrorKind::Decimals, contract_address)),
    }
}

/// Reads a contract's decimal exponent out of the token index's answer. An answer without
/// `decimals` is a failure of kind `Selection` that carries the selector engine's refusal; one
/// whose `decimals` writes no `u32` is a failure of kind `Decimals` about the contract.
pub fn get_token_decimal(document: &serde_json::Value, contract_address: &str) -> (r: Result<
    u32,
    ScanError,
>)
    ensures
        reads_as(r, decimals_reading(*document, contract_address@)),
{
    proof {
        lemma_balance_selectors_keyed();
    }
    match walk(document, "\"decimals\"") {
        Ok(value) => {
            let node = read_scalar(&value);
            decimals_from_scalar(&node, contract_address)
        },
        Err(message) => Err(
            ScanError::about(ErrorKind::Selection(Call::Decimals), message.as_str()),
        ),
    }
}

/// Whether a ledger status refuses the query: a text other than `OK`.
pub fn refuses(status: &Scalar) -> (r: bool)
    ensures
        r == status_refuses(status@),
{
    match status {
        Scalar::Text(text) => !same_text(text.as_str(), "OK"),
        _ => false,
    }
}

/// Reads a raw balance off a selected payload.
pub fn raw_balance_from_scalar(node: Scalar, contract_address: &str) -> (r: Result<
    String,
    ScanError,
>)
    ensures
        reads_as(r, raw_balance_from(node@, contract_address@)),
{
    match node {
        Scalar::Text(text) => Ok(text),
        _ => Err(ScanError::about(ErrorKind::Balance, contract_address)),
    }
}

/// Reads an account's raw balance out of the ledger's answer. A status other than `OK` is a
/// failure of kind `Balance` about the contract, and so is a payload that is no text.
pub fn read_raw_balance(document: &serde_json::Value, contract_address: &str) -> (r: Result<
    String,
    ScanError,
>)
    ensures
        reads_as(r, raw_balance_reading(*document, contract_address@)),
{
    proof {
        lemma_balance_selectors_keyed();
    }
    let status = match walk(document, "\"message\"") {
        Ok(value) => read_scalar(&value),
        Err(message) => {
            return Err(ScanError::about(ErrorKind::Selection(Call::Balance), message.as_str()));
        },
    };
    if refuses(&status) {
        return Err(ScanError::about(ErrorKind::Balance, contract_address));
    }
    match walk(document, "\"result\"") {
        Ok(value) => raw_balance_from_scalar(read_scalar(&value), contract_address),
        Err(message) => Err(
            ScanError::about(ErrorKind::Selection(Call::Balance), message.as_str()),
        ),
    }
}

/// Whether a text is one or more decimal digits.
pub fn is_raw_balance(text: &str) -> (r: bool)
    ensures
        r == (text@.len() > 0 && all_digits(text@)),
{
    let n: usize = text.unicode_len();
    if n == 0 {
        return false;
    }
    let mut i: usize = 0;
    while i < n
        invariant
            n == text@.len(),
            i <= n,
            forall|j: int| 0 <= j < i ==> crate::text::is_digit(#[trigger] text@[j]),
        decreases n - i,
    {
        let c = text.get_char(i);
        if !(c >= '0' && c <= '9') {
            return false;
        }
        i += 1;
    }
    true
}

/// Normalises a raw balance by a decimal exponent. The raw balance must be one or more decimal
/// digits, else the failure is of kind `Balance`; the exponent must be at most `MAX_DECIMALS`,
/// else the failure is of kind `Decimals`. Both failures are about the contract.
pub fn normalize(raw: &str, decimals: u32, contract_address: &str) -> (r: Result<
    Balance,
    ScanError,
>)
    ensures
        reads_as(r, normalized(raw@, decimals, contract_address@)),
{
    if !is_raw_balance(raw) {
        Err(ScanError::about(ErrorKind::Balance, contract_address))
    } else if decimals > MAX_DECIMALS {
        Err(ScanError::about(ErrorKind::Decimals, contract_address))
    } else {
        Ok(Balance { raw: raw.to_owned(), decimals })
    }
}

/// Resolves an account's balance of a token from the ledger's answer and the token index's
/// answer: the status is checked, the raw balance read, the exponent read, and the two
/// normalised.
pub fn get_erc20_balance_for_account(
    balance_document: &serde_json::Value,
    decimals_document: &serde_json::Value,
    contract_address: &str,
) -> (r: Result<Balance, ScanError>)
    ensures
        reads_as(r, balance_reading(*balance_document, *decimals_document, contract_address@)),
{
    let raw = match read_raw_balance(balance_document, contract_address) {
        Ok(raw) => raw,
        Err(error) => {
            return Err(error);
        },
    };
    let decimals = match get_token_decimal(decimals_document, contract_address) {
        Ok(decimals) => decimals,
        Err(error) => {
            return Err(error);
        },
    };
    normalize(raw.as_str(), decimals, contract_address)
}

/// The decimal exponent of the native currency.
pub const NATIVE_DECIMALS: u32 = 18;

impl Balance {
    #[verifier::type_invariant]
    spec fn well_formed(&self) -> bool {
        valid_balance(self@)
    }

    /// A quantity of the native currency, from its count of smallest units in decimal digits,
    /// however many. A count that is not one or more decimal digits is a failure of kind
    /// `NativeBalance` about the text.
    pub fn native(smallest_units: &str) -> (r: Result<Balance, ScanError>)
        ensures
            reads_as(r, native_balance_of(smallest_units@)),
    {
        if is_raw_balance(smallest_units) {
            Ok(Balance { raw: smallest_units.to_owned(), decimals: NATIVE_DECIMALS })
        } else {
            Err(ScanError::about(ErrorKind::NativeBalance, smallest_units))
        }
    }

    /// The raw integer balance: one or more decimal digits.
    pub fn raw(&self) -> (r: &str)
        ensures
            r@ == self@.raw,
            valid_balance(self@),
    {
        proof {
            use_type_invariant(self);
        }
        self.raw.as_str()
    }

    /// The decimal exponent, at most `MAX_DECIMALS`.
    pub fn decimals(&self) -> (r: u32)
        ensures
            r == self@.decimals,
            valid_balance(self@),
    {
        proof {
            use_type_invariant(self);
        }
        self.decimals
    }

    /// A copy of the balance.
    pub fn duplicate(&self) -> (r: Balance)
        ensures
            r@ == self@,
    {
        proof {
            use_type_invariant(self);
        }
        Balance { raw: self.raw.clone(), decimals: self.decimals }
    }

    /// The number that the raw balance is divided by: ten to the power of the exponent.
    pub fn divisor(&self) -> (r: u64)
        ensures
            r == pow10(self@.decimals),
    {
        proof {
            use_type_invariant(self);
        }
        let mut r: u64 = 1;
        let mut i: u32 = 0;
        proof {
            lemma_pow10_grows(0, MAX_DECIMALS as nat);
        }
        while i < self.decimals
            invariant
                i <= self.decimals <= MAX_DECIMALS,
                r == pow10(i as nat),
                r <= pow10(MAX_DECIMALS as nat),
            decreases self.decimals - i,
        {
            proof {
                lemma_pow10_grows((i + 1) as nat, MAX_DECIMALS as nat);
                lemma_pow10_limit();
            }
            r = r * 10;
            i += 1;
        }
        r
    }

    /// The quantity written out in decimal: the whole part, then a point and exactly as many
    /// fraction digits as the exponent says.
    pub fn decimal_text(&self) -> (text: String)
        ensures
            text@ == decimal_text_of(self@.raw, self@.decimals),
    {
        proof {
            use_type_invariant(self);
            reveal_strlit("0");
            reveal_strlit(".");
        }
        let raw = self.raw.as_str();
        let n: usize = raw.unicode_len();
        let d: usize = self.decimals as usize;
        let mut text = String::new();
        if n > d {
            text.append(raw.substring_char(0, n - d));
            assert(text@ =~= whole_digits(self@.raw, self@.decimals));
            if d > 0 {
                text.append(".");
                text.append(raw.substring_char(n - d, n));
                assert(text@ =~= decimal_text_of(self@.raw, self@.decimals));
            }
        } else {
            text.append("0");
            assert(text@ =~= whole_digits(self@.raw, self@.decimals));
            if d > 0 {
                text.append(".");
                let ghost before = text@;
                let mut i: usize = 0;
                while i < d - n
                    invariant
                        n <= d,
                        i <= d - n,
                        text@ == before + zeros(i as nat),
                    decreases d - n - i,
                {
                    text.append("0");
                    proof {
                        reveal_strlit("0");
                        assert(before + zeros(i as nat) + "0"@ =~= before + zeros((i + 1) as nat));
                    }
                    i += 1;
                }
                text.append(raw);
                assert(text@ =~= decimal_text_of(self@.raw, self@.decimals));
            }
        }
        text
    }
}

/// Ten to the power 19, the largest divisor, fits in 64 bits.
pub proof fn lemma_pow10_limit()
    ensures
        pow10(MAX_DECIMALS as nat) == 10_000_000_000_000_000_000,
        pow10(MAX_DECIMALS as nat) <= u64::MAX,
{
    reveal_with_fuel(pow10, 20);
}

/// Powers of ten grow with the exponent.
pub proof fn lemma_pow10_grows(a: nat, b: nat)
    requires
        a <= b,
    ensures
        1 <= pow10(a) <= pow10(b),
    decreases b,
{
    if b == 0 {
    } else if a == b {
        lemma_pow10_grows((a - 1) as nat, (b - 1) as nat);
    } else {
        lemma_pow10_grows(a, (b - 1) as nat);
    }
}

/// A balance query that the ledger refuses fails with the contract address in its message: the
/// message is a fixed opening, then the address as it was given.
pub proof fn lemma_refused_balance_names_contract(
    document: serde_json::Value,
    contract_address: Seq<char>,
)
    requires
        walked(document, message_selector()) is Some,
        status_refuses(scalar_of(walked(document, message_selector())->0)),
    ensures
        raw_balance_reading(document, contract_address) == Err::<Seq<char>, _>(
            token_failure(ErrorKind::Balance, contract_address),
        ),
        message_of(token_failure(ErrorKind::Balance, contract_address))
            == "Error on processing ERC20 balance for "@ + contract_address,
        message_of(token_failure(ErrorKind::Balance, contract_address)).skip(
            "Error on processing ERC20 balance for "@.len() as int,
        ) == contract_address,
{
    let opening = "Error on processing ERC20 balance for "@;
    assert((opening + contract_address).skip(opening.len() as int) =~= contract_address);
}

/// A run of zeros writes zero.
pub proof fn lemma_zeros_write_zero(n: nat)
    ensures
        decimal_value(zeros(n)) == 0,
        all_digits(zeros(n)),
    decreases n,
{
    if n > 0 {
        lemma_zeros_write_zero((n - 1) as nat);
        assert(zeros(n).drop_last() =~= zeros((n - 1) as nat));
        assert(zeros(n).last() == '0');
    }
}

/// Digits after digits: the first run counts for as many powers of ten as the second is long.
pub proof fn lemma_decimal_value_joins(a: Seq<char>, b: Seq<char>)
    ensures
        decimal_value(a + b) == decimal_value(a) * pow10(b.len()) + decimal_value(b),
    decreases b.len(),
{
    if b.len() == 0 {
        assert(a + b =~= a);
        assert(decimal_value(a) * 1 == decimal_value(a)) by (nonlinear_arith);
    } else {
        let shorter = b.drop_last();
        let joined = a + b;
        lemma_decimal_value_joins(a, shorter);
        assert(joined.drop_last() =~= a + shorter);
        assert(joined.last() == b.last());
        assert(decimal_value(joined) == decimal_value(a + shorter) * 10 + digit_value(b.last()));
        assert(decimal_value(b) == decimal_value(shorter) * 10 + digit_value(b.last()));
        assert(pow10(b.len()) == 10 * pow10(shorter.len()));
        let x = decimal_value(a);
        let p = pow10(shorter.len());
        let y = decimal_value(shorter);
        assert((x * p + y) * 10 == x * (10 * p) + y * 10) by (nonlinear_arith);
    }
}

/// Normalisation is exact: the whole part times `10^decimals` plus the fraction is the raw
/// balance, and the fraction has exactly `decimals` digits.
pub proof fn lemma_normalization_exact(balance: BalanceView)
    requires
        valid_balance(balance),
    ensures
        fraction_digits(balance.raw, balance.decimals).len() == balance.decimals,
        decimal_value(whole_digits(balance.raw, balance.decimals)) * pow10(balance.decimals)
            + decimal_value(fraction_digits(balance.raw, balance.decimals)) == decimal_value(
            balance.raw,
        ),
{
    let raw = balance.raw;
    let d = balance.decimals;
    if raw.len() > d {
        let cut = raw.len() - d;
        assert(raw.take(cut) + raw.skip(cut) =~= raw);
        lemma_decimal_value_joins(raw.take(cut), raw.skip(cut));
    } else {
        let pad = (d - raw.len()) as nat;
        lemma_zeros_write_zero(pad);
        lemma_decimal_value_joins(zeros(pad), raw);
        let zero = seq!['0'];
        assert(zero.drop_last() =~= Seq::<char>::empty());
        assert(decimal_value(zero.drop_last()) == 0);
        assert(zero.last() == '0');
        assert(decimal_value(zero) == 0);
        assert(0 * pow10(raw.len()) == 0) by (nonlinear_arith);
        assert(0 * pow10(d) == 0) by (nonlinear_arith);
    }
}

/// Normalisation repeats: two calls on the same raw balance, exponent and contract agree in
/// their outcome, down to every digit that is written out.
pub proof fn lemma_normalization_repeats(
    first: Result<Balance, ScanError>,
    second: Result<Balance, ScanError>,
    raw: Seq<char>,
    decimals: u32,
    contract_address: Seq<char>,
)
    requires
        reads_as(first, normalized(raw, decimals, contract_address)),
        reads_as(second, normalized(raw, decimals, contract_address)),
    ensures
        match (first, second) {
            (Ok(a), Ok(b)) => a@ == b@ && decimal_text_of(a@.raw, a@.decimals) == decimal_text_of(
                b@.raw,
                b@.decimals,
            ) && pow10(a@.decimals) == pow10(b@.decimals),
            (Err(a), Err(b)) => a@ == b@,
            _ => false,
        },
{
}

/// Reads the price of `token_id` in `versus` out of the market-data provider's answer. A token
/// or a currency that the provider does not know has no quote, which is no failure.
pub fn get_token_price(document: &serde_json::Value, token_id: &str, versus: &str) -> (price: Price)
    ensures
        price@ == coingecko_price(*document, token_id@, versus@),
{
    match Coingecko.get_token_price(document, token_id, versus) {
        Ok(price) => price,
        Err(_) => Price::Unquoted,
    }
}

} // verus!
