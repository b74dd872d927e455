//! The scan as a machine: one pipeline per discovered token, driven by the caller.
//!
//! The machine says which call comes next; the caller makes it, through the rate gate and the
//! retry envelope, and hands the answer back. A token goes through five steps: its identifier
//! (provider after provider, until one resolves it), its raw balance, its decimal exponent, and
//! its price in `usd` and in `eth`. A failure at any step drops that token and nothing else.

use vstd::prelude::*;
use crate::account::Account;
use crate::cache::{
    empty_cache, known_decimals, known_identifier, lemma_identifier_put, lemma_decimals_put,
    with_decimals, with_identifier, Cache, CacheView,
};
use crate::discovery::{
    discover, discovered, distinct_symbols, entry_views, lemma_one_token_per_symbol,
    list_erc20_for_account, token_views, tokens_reading, worded_by_engine, HistoryEntry, Token,
    TokenView,
};
use crate::erc20::{
    balance_url, balance_url_of, decimals_reading, decimals_url, decimals_url_of,
    get_token_decimal, native_balance_of, normalize, normalized, raw_balance_reading,
    read_raw_balance,
    valid_balance, Balance, BalanceView,
};
use crate::error::{reads_as, Call, ScanError, ScanErrorView};
use crate::paraswap::quote_token_of;
use crate::price_provider::{
    call_of, listing_url, price_reading, price_url_reading, pricing_key_of, provider_at,
    token_id_reading, Price, PriceProvider, PriceView, PROVIDERS,
};

verus! {

/// The keys of the ledger index and of the token index.
#[derive(Clone, Debug, PartialEq, Eq)]
pub struct ApiKeys {
    pub etherscan: String,
    pub ethplorer: String,
}

/// A holding: a token, how much of it the account has, and what one unit is worth.
#[derive(Debug, PartialEq, Eq)]
pub struct TokenInfo {
    pub symbol: String,
    pub contract_address: String,
    pub balance: Balance,
    pub usd_price: Price,
    pub eth_price: Price,
    pub coingecko_link: String,
}

/// A `TokenInfo` over mathematical values.
pub struct TokenInfoView {
    pub symbol: Seq<char>,
    pub contract_address: Seq<char>,
    pub balance: BalanceView,
    pub usd_price: PriceView,
    pub eth_price: PriceView,
    pub coingecko_link: Seq<char>,
}

impl View for TokenInfo {
    type V = TokenInfoView;

    open spec fn view(&self) -> TokenInfoView {
        TokenInfoView {
            symbol: self.symbol@,
            contract_address: self.contract_address@,
            balance: self.balance@,
            usd_price: self.usd_price@,
            eth_price: self.eth_price@,
            coingecko_link: self.coingecko_link@,
        }
    }
}

/// The page of a token at the market-data provider.
pub open spec fn link_of(token_id: Seq<char>) -> Seq<char> {
    "https://coingecko.com/en/coins/"@ + token_id
}

/// Where a token stands in its pipeline.
pub enum Stage {
    /// Asking the provider at this place in the chain for the identifier.
    Identifier { provider: usize },
    /// Asking the ledger for the raw balance.
    RawBalance { provider: usize, token_id: String },
    /// Asking the token index for the decimal exponent.
    Decimals { provider: usize, token_id: String, raw: String },
    /// Asking the provider for the price in `usd`.
    UsdPrice { provider: usize, token_id: String, balance: Balance },
    /// Asking the provider for the price in `eth`.
    EthPrice { provider: usize, token_id: String, balance: Balance, usd_price: Price },
}

/// A `Stage` over mathematical values.
pub enum StageView {
    Identifier { provider: nat },
    RawBalance { provider: nat, token_id: Seq<char> },
    Decimals { provider: nat, token_id: Seq<char>, raw: Seq<char> },
    UsdPrice { provider: nat, token_id: Seq<char>, balance: BalanceView },
    EthPrice { provider: nat, token_id: Seq<char>, balance: BalanceView, usd_price: PriceView },
}

impl View for Stage {
    type V = StageView;

    open spec fn view(&self) -> StageView {
        match self {
            Stage::Identifier { provider } => StageView::Identifier { provider: *provider as nat },
            Stage::RawBalance { provider, token_id } => StageView::RawBalance {
                provider: *provider as nat,
                token_id: token_id@,
            },
            Stage::Decimals { provider, token_id, raw } => StageView::Decimals {
                provider: *provider as nat,
                token_id: token_id@,
                raw: raw@,
            },
            Stage::UsdPrice { provider, token_id, balance } => StageView::UsdPrice {
                provider: *provider as nat,
                token_id: token_id@,
                balance: balance@,
            },
            Stage::EthPrice { provider, token_id, balance, usd_price } => StageView::EthPrice {
                provider: *provider as nat,
                token_id: token_id@,
                balance: balance@,
                usd_price: usd_price@,
            },
        }
    }
}

/// What a call came to, once its answer is read.
#[derive(Debug, PartialEq, Eq)]
pub enum Outcome {
    Identifier(Result<String, ScanError>),
    RawBalance(Result<String, ScanError>),
    Decimals(Result<u32, ScanError>),
    Price(Result<Price, ScanError>),
}

/// An `Outcome` over mathematical values.
pub enum OutcomeView {
    Identifier(Result<Seq<char>, ScanErrorView>),
    RawBalance(Result<Seq<char>, ScanErrorView>),
    Decimals(Result<u32, ScanErrorView>),
    Price(Result<PriceView, ScanErrorView>),
}

impl View for Outcome {
    type V = OutcomeView;

    open spec fn view(&self) -> OutcomeView {
        match self {
            Outcome::Identifier(Ok(token_id)) => OutcomeView::Identifier(Ok(token_id@)),
            Outcome::Identifier(Err(error)) => OutcomeView::Identifier(Err(error@)),
            Outcome::RawBalance(Ok(raw)) => OutcomeView::RawBalance(Ok(raw@)),
            Outcome::RawBalance(Err(error)) => OutcomeView::RawBalance(Err(error@)),
            Outcome::Decimals(Ok(decimals)) => OutcomeView::Decimals(Ok(*decimals)),
            Outcome::Decimals(Err(error)) => OutcomeView::Decimals(Err(error@)),
            Outcome::Price(Ok(price)) => OutcomeView::Price(Ok(price@)),
            Outcome::Price(Err(error)) => OutcomeView::Price(Err(error@)),
        }
    }
}

/// What the caller does next.
#[derive(Debug, PartialEq, Eq)]
pub enum Action {
    /// Get this address from this service. A paced call passes the rate gate first.
    Fetch { url: String, call: Call, paced: bool },
    /// Every token has been through its pipeline.
    Finished,
}

/// An `Action` over sequences of characters.
pub enum ActionView {
    Fetch { url: Seq<char>, call: Call, paced: bool },
    Finished,
}

impl View for Action {
    type V = ActionView;

    open spec fn view(&self) -> ActionView {
        match self {
            Action::Fetch { url, call, paced } => ActionView::Fetch {
                url: url@,
                call: *call,
                paced: *paced,
            },
            Action::Finished => ActionView::Finished,
        }
    }
}

/// A scan in progress.
pub struct Scan {
    account: String,
    keys: ApiKeys,
    tokens: Vec<Token>,
    cursor: usize,
    stage: Stage,
    holdings: Vec<TokenInfo>,
}

/// A `Scan` over mathematical values.
pub struct ScanView {
    pub account: Seq<char>,
    pub etherscan_key: Seq<char>,
    pub ethplorer_key: Seq<char>,
    pub tokens: Seq<TokenView>,
    pub cursor: nat,
    pub stage: StageView,
    pub holdings: Seq<TokenInfoView>,
}

/// The views of a list of holdings.
pub open spec fn holding_views(holdings: Seq<TokenInfo>) -> Seq<TokenInfoView> {
    Seq::new(holdings.len(), |i: int| holdings[i]@)
}

impl View for Scan {
    type V = ScanView;

    closed spec fn view(&self) -> ScanView {
        ScanView {
            account: self.account@,
            etherscan_key: self.keys.etherscan@,
            ethplorer_key: self.keys.ethplorer@,
            tokens: token_views(self.tokens@),
            cursor: self.cursor as nat,
            stage: self.stage@,
            holdings: holding_views(self.holdings@),
        }
    }
}

/// The place in the chain that a stage asks, and what the stage holds that must be valid.
pub open spec fn valid_stage(stage: StageView) -> bool {
    match stage {
        StageView::Identifier { provider } => provider < PROVIDERS,
        StageView::RawBalance { provider, .. } => provider < PROVIDERS,
        StageView::Decimals { provider, .. } => provider < PROVIDERS,
        StageView::UsdPrice { provider, balance, .. } => provider < PROVIDERS && valid_balance(
            balance,
        ),
        StageView::EthPrice { provider, balance, .. } => provider < PROVIDERS && valid_balance(
            balance,
        ),
    }
}

/// Whether a holding was made from a token before the cursor.
pub open spec fn holds_earlier_token(state: ScanView, holding: TokenInfoView) -> bool {
    exists|k: int|
        0 <= k < state.cursor && k < state.tokens.len() && (#[trigger] state.tokens[k]).symbol
            == holding.symbol && state.tokens[k].contract_address == holding.contract_address
}

/// No two holdings share a symbol.
pub open spec fn distinct_holdings(holdings: Seq<TokenInfoView>) -> bool {
    forall|i: int, j: int|
        0 <= i < j < holdings.len() ==> (#[trigger] holdings[i]).symbol != (
        #[trigger] holdings[j]).symbol
}

/// What every scan holds: the cursor within the tokens, one token per symbol, one holding per
/// symbol at most, and every holding made from a token that the cursor has passed.
pub open spec fn valid_scan(state: ScanView) -> bool {
    &&& state.cursor <= state.tokens.len()
    &&& distinct_symbols(state.tokens)
    &&& valid_stage(state.stage)
    &&& distinct_holdings(state.holdings)
    &&& forall|i: int|
        0 <= i < state.holdings.len() ==> holds_earlier_token(state, #[trigger] state.holdings[i])
    &&& forall|i: int|
        0 <= i < state.holdings.len() ==> valid_balance((#[trigger] state.holdings[i]).balance)
}

/// A scan before its first call.
pub open spec fn started(
    account: Seq<char>,
    etherscan_key: Seq<char>,
    ethplorer_key: Seq<char>,
    tokens: Seq<TokenView>,
) -> ScanView {
    ScanView {
        account,
        etherscan_key,
        ethplorer_key,
        tokens,
        cursor: 0,
        stage: StageView::Identifier { provider: 0 },
        holdings: Seq::empty(),
    }
}

/// Whether every token has been through its pipeline.
pub open spec fn finished(state: ScanView) -> bool {
    state.cursor >= state.tokens.len()
}

/// The scan after the current token is dropped: the next token starts at the head of the chain.
pub open spec fn dropped(state: ScanView) -> ScanView {
    ScanView { cursor: state.cursor + 1, stage: StageView::Identifier { provider: 0 }, ..state }
}

/// The scan at another stage of the current token.
pub open spec fn moved(state: ScanView, stage: StageView) -> ScanView {
    ScanView { stage, ..state }
}

/// The holding that the current token ends as.
pub open spec fn holding_of(
    token: TokenView,
    token_id: Seq<char>,
    balance: BalanceView,
    usd_price: PriceView,
    eth_price: PriceView,
) -> TokenInfoView {
    TokenInfoView {
        symbol: token.symbol,
        contract_address: token.contract_address,
        balance,
        usd_price,
        eth_price,
        coingecko_link: link_of(token_id),
    }
}

/// The scan after an outcome. An outcome that is not what the stage asked for changes nothing,
/// and neither does any outcome once the scan is finished.
pub open spec fn applied(state: ScanView, outcome: OutcomeView) -> ScanView {
    if finished(state) {
        state
    } else {
        let token = state.tokens[state.cursor as int];
        match (state.stage, outcome) {
            (StageView::Identifier { provider }, OutcomeView::Identifier(result)) => match result {
                Ok(token_id) => moved(state, StageView::RawBalance { provider, token_id }),
                Err(_) => if provider + 1 < PROVIDERS {
                    moved(state, StageView::Identifier { provider: provider + 1 })
                } else {
                    dropped(state)
                },
            },
            (
                StageView::RawBalance { provider, token_id },
                OutcomeView::RawBalance(result),
            ) => match result {
                Ok(raw) => moved(state, StageView::Decimals { provider, token_id, raw }),
                Err(_) => dropped(state),
            },
            (
                StageView::Decimals { provider, token_id, raw },
                OutcomeView::Decimals(result),
            ) => match result {
                Ok(decimals) => match normalized(raw, decimals, token.contract_address) {
                    Ok(balance) => moved(
                        state,
                        StageView::UsdPrice { provider, token_id, balance },
                    ),
                    Err(_) => dropped(state),
                },
                Err(_) => dropped(state),
            },
            (
                StageView::UsdPrice { provider, token_id, balance },
                OutcomeView::Price(result),
            ) => match result {
                Ok(usd_price) => moved(
                    state,
                    StageView::EthPrice { provider, token_id, balance, usd_price },
                ),
                Err(_) => dropped(state),
            },
            (
                StageView::EthPrice { provider, token_id, balance, usd_price },
                OutcomeView::Price(result),
            ) => match result {
                Ok(eth_price) => ScanView {
                    holdings: state.holdings.push(
                        holding_of(token, token_id, balance, usd_price, eth_price),
                    ),
                    ..dropped(state)
                },
                Err(_) => dropped(state),
            },
            _ => state,
        }
    }
}

/// The call that a price stage makes.
pub open spec fn price_action(state: ScanView, provider: nat, token_id: Seq<char>, versus: Seq<
    char,
>) -> ActionView {
    let token = state.tokens[state.cursor as int];
    let asked = provider_at(provider as int);
    ActionView::Fetch {
        url: price_url_reading(
            asked,
            pricing_key_of(asked, token_id, token.contract_address),
            versus,
        )->Ok_0,
        call: call_of(asked),
        paced: true,
    }
}

/// The call that a scan makes next. Calls to a price provider are paced; calls to the ledger
/// and to the token index are not.
pub open spec fn action_of(state: ScanView) -> ActionView {
    if finished(state) {
        ActionView::Finished
    } else {
        let token = state.tokens[state.cursor as int];
        match state.stage {
            StageView::Identifier { provider } => ActionView::Fetch {
                url: listing_url(token.contract_address),
                call: call_of(provider_at(provider as int)),
                paced: true,
            },
            StageView::RawBalance { .. } => ActionView::Fetch {
                url: balance_url_of(state.account, token.contract_address, state.etherscan_key),
                call: Call::Balance,
                paced: false,
            },
            StageView::Decimals { .. } => ActionView::Fetch {
                url: decimals_url_of(token.contract_address, state.ethplorer_key),
                call: Call::Decimals,
                paced: false,
            },
            StageView::UsdPrice { provider, token_id, .. } => price_action(
                state,
                provider,
                token_id,
                "usd"@,
            ),
            StageView::EthPrice { provider, token_id, .. } => price_action(
                state,
                provider,
                token_id,
                "eth"@,
            ),
        }
    }
}

/// An answer, or the failure that the call ended in, over mathematical values.
pub open spec fn answer_of(response: Result<&serde_json::Value, ScanError>) -> Result<
    serde_json::Value,
    ScanErrorView,
> {
    match response {
        Ok(document) => Ok(*document),
        Err(error) => Err(error@),
    }
}

/// What the answer to the current call comes to. A call that failed for good comes to its
/// failure; an answer is read as the stage asks.
pub open spec fn outcome_of(
    state: ScanView,
    response: Result<serde_json::Value, ScanErrorView>,
) -> OutcomeView {
    let token = state.tokens[state.cursor as int];
    match state.stage {
        StageView::Identifier { provider } => OutcomeView::Identifier(
            match response {
                Err(error) => Err(error),
                Ok(document) => token_id_reading(document, call_of(provider_at(provider as int))),
            },
        ),
        StageView::RawBalance { .. } => OutcomeView::RawBalance(
            match response {
                Err(error) => Err(error),
                Ok(document) => raw_balance_reading(document, token.contract_address),
            },
        ),
        StageView::Decimals { .. } => OutcomeView::Decimals(
            match response {
                Err(error) => Err(error),
                Ok(document) => decimals_reading(document, token.contract_address),
            },
        ),
        StageView::UsdPrice { provider, token_id, .. } => OutcomeView::Price(
            match response {
                Err(error) => Err(error),
                Ok(document) => price_reading(
                    provider_at(provider as int),
                    document,
                    pricing_key_of(
                        provider_at(provider as int),
                        token_id,
                        token.contract_address,
                    ),
                    "usd"@,
                ),
            },
        ),
        StageView::EthPrice { provider, token_id, .. } => OutcomeView::Price(
            match response {
                Err(error) => Err(error),
                Ok(document) => price_reading(
                    provider_at(provider as int),
                    document,
                    pricing_key_of(
                        provider_at(provider as int),
                        token_id,
                        token.contract_address,
                    ),
                    "eth"@,
                ),
            },
        ),
    }
}

/// Both quote currencies of a scan are quoted by every provider.
pub proof fn lemma_scan_currencies_quoted()
    ensures
        quote_token_of("usd"@) is Some,
        quote_token_of("eth"@) is Some,
{
    reveal_strlit("usd");
    reveal_strlit("eth");
}

/// How far the current token is through its pipeline.
pub open spec fn stage_rank(stage: StageView) -> nat {
    match stage {
        StageView::Identifier { provider } => provider,
        StageView::RawBalance { .. } => 2,
        StageView::Decimals { .. } => 3,
        StageView::UsdPrice { .. } => 4,
        StageView::EthPrice { .. } => 5,
    }
}

/// An upper bound on the calls that a scan still makes.
pub open spec fn work_left(state: ScanView) -> int {
    if finished(state) {
        0
    } else {
        (state.tokens.len() - state.cursor) * 6 - stage_rank(state.stage)
    }
}

/// Whether an outcome is what the stage asked for.
pub open spec fn answers(stage: StageView, outcome: OutcomeView) -> bool {
    match (stage, outcome) {
        (StageView::Identifier { .. }, OutcomeView::Identifier(_)) => true,
        (StageView::RawBalance { .. }, OutcomeView::RawBalance(_)) => true,
        (StageView::Decimals { .. }, OutcomeView::Decimals(_)) => true,
        (StageView::UsdPrice { .. }, OutcomeView::Price(_)) => true,
        (StageView::EthPrice { .. }, OutcomeView::Price(_)) => true,
        _ => false,
    }
}

/// Whether an outcome is a failure.
pub open spec fn failed(outcome: OutcomeView) -> bool {
    match outcome {
        OutcomeView::Identifier(result) => result is Err,
        OutcomeView::RawBalance(result) => result is Err,
        OutcomeView::Decimals(result) => result is Err,
        OutcomeView::Price(result) => result is Err,
    }
}

/// Whether two outcomes differ at most in what a failure says.
pub open spec fn alike(a: OutcomeView, b: OutcomeView) -> bool {
    match (a, b) {
        (OutcomeView::Identifier(x), OutcomeView::Identifier(y)) => x == y || (x is Err && y
            is Err),
        (OutcomeView::RawBalance(x), OutcomeView::RawBalance(y)) => x == y || (x is Err && y
            is Err),
        (OutcomeView::Decimals(x), OutcomeView::Decimals(y)) => x == y || (x is Err && y is Err),
        (OutcomeView::Price(x), OutcomeView::Price(y)) => x == y || (x is Err && y is Err),
        _ => false,
    }
}

/// Whether `later` holds everything that `earlier` holds, in the same places.
pub open spec fn keeps_holdings(earlier: Seq<TokenInfoView>, later: Seq<TokenInfoView>) -> bool {
    earlier.len() <= later.len() && forall|i: int|
        0 <= i < earlier.len() ==> #[trigger] later[i] == earlier[i]
}

/// Every outcome leaves a valid scan valid.
pub proof fn lemma_applied_keeps_valid(state: ScanView, outcome: OutcomeView)
    requires
        valid_scan(state),
    ensures
        valid_scan(applied(state, outcome)),
{
    let next = applied(state, outcome);
    if !finished(state) {
        let token = state.tokens[state.cursor as int];
        assert forall|i: int| 0 <= i < state.holdings.len() implies state.holdings[i].symbol
            != token.symbol by {
            let holding = state.holdings[i];
            assert(holds_earlier_token(state, holding));
            let k = choose|k: int|
                0 <= k < state.cursor && k < state.tokens.len() && (
                #[trigger] state.tokens[k]).symbol == holding.symbol
                    && state.tokens[k].contract_address == holding.contract_address;
            assert(state.tokens[k].symbol != state.tokens[state.cursor as int].symbol);
        }
        assert forall|i: int| 0 <= i < next.holdings.len() implies holds_earlier_token(
            next,
            #[trigger] next.holdings[i],
        ) by {
            if i < state.holdings.len() {
                let holding = state.holdings[i];
                assert(next.holdings[i] == holding);
                assert(holds_earlier_token(state, holding));
                let k = choose|k: int|
                    0 <= k < state.cursor && k < state.tokens.len() && (
                    #[trigger] state.tokens[k]).symbol == holding.symbol
                        && state.tokens[k].contract_address == holding.contract_address;
                assert(next.tokens[k].symbol == holding.symbol);
            } else {
                assert(next.tokens[state.cursor as int].symbol == next.holdings[i].symbol);
            }
        }
        assert forall|i: int, j: int| 0 <= i < j < next.holdings.len() implies (
        #[trigger] next.holdings[i]).symbol != (#[trigger] next.holdings[j]).symbol by {
            if j < state.holdings.len() {
                assert(next.holdings[i] == state.holdings[i]);
                assert(next.holdings[j] == state.holdings[j]);
            } else {
                assert(next.holdings[i] == state.holdings[i]);
            }
        }
        assert forall|i: int| 0 <= i < next.holdings.len() implies valid_balance(
            (#[trigger] next.holdings[i]).balance,
        ) by {
            if i < state.holdings.len() {
                assert(next.holdings[i] == state.holdings[i]);
            }
        }
    }
}

/// A scan runs to its end: every outcome that answers the stage leaves less work.
pub proof fn lemma_scan_progresses(state: ScanView, outcome: OutcomeView)
    requires
        valid_scan(state),
        !finished(state),
        answers(state.stage, outcome),
    ensures
        0 <= work_left(applied(state, outcome)) < work_left(state),
{
    assert((state.tokens.len() - state.cursor) * 6 >= 6) by (nonlinear_arith)
        requires
            state.tokens.len() - state.cursor >= 1,
    ;
    assert((state.tokens.len() - (state.cursor + 1)) * 6 == (state.tokens.len() - state.cursor) * 6
        - 6) by (nonlinear_arith);
    assert((state.tokens.len() - (state.cursor + 1)) * 6 >= 0) by (nonlinear_arith)
        requires
            state.tokens.len() - (state.cursor + 1) >= 0,
    ;
}

/// A failure costs one token at most, and never the scan: the tokens stay, the holdings stay,
/// and the cursor moves on by one or stays for the next provider.
pub proof fn lemma_failure_is_token_scoped(state: ScanView, outcome: OutcomeView)
    requires
        valid_scan(state),
        failed(outcome),
    ensures
        applied(state, outcome).tokens == state.tokens,
        applied(state, outcome).holdings == state.holdings,
        applied(state, outcome).cursor == state.cursor || applied(state, outcome).cursor
            == state.cursor + 1,
        applied(state, outcome).cursor == state.cursor + 1 ==> applied(state, outcome).stage
            == (StageView::Identifier { provider: 0 }),
{
}

/// No outcome takes a holding away or changes one, and none changes the tokens.
pub proof fn lemma_holdings_are_kept(state: ScanView, outcome: OutcomeView)
    ensures
        keeps_holdings(state.holdings, applied(state, outcome).holdings),
        applied(state, outcome).tokens == state.tokens,
        applied(state, outcome).cursor >= state.cursor,
{
}

/// What a failure says does not matter to the scan.
pub proof fn lemma_applied_alike(state: ScanView, a: OutcomeView, b: OutcomeView)
    requires
        alike(a, b),
    ensures
        applied(state, a) == applied(state, b),
{
}

/// The first provider that resolves a token's identifier prices the token: from the identifier
/// to the end of the token's pipeline the place in the chain does not change.
pub proof fn lemma_resolver_prices(state: ScanView, outcome: OutcomeView)
    requires
        !finished(state),
        !(state.stage is Identifier),
        applied(state, outcome).cursor == state.cursor,
    ensures
        stage_provider(applied(state, outcome).stage) == stage_provider(state.stage),
{
}

/// The place in the chain that a stage asks or has settled on.
pub open spec fn stage_provider(stage: StageView) -> nat {
    match stage {
        StageView::Identifier { provider } => provider,
        StageView::RawBalance { provider, .. } => provider,
        StageView::Decimals { provider, .. } => provider,
        StageView::UsdPrice { provider, .. } => provider,
        StageView::EthPrice { provider, .. } => provider,
    }
}

/// The native holding: no contract, worth one of itself. A count of smallest units that is not
/// one or more decimal digits gives no holding.
pub open spec fn native_holding(smallest_units: Seq<char>, usd_price: PriceView) -> Result<
    TokenInfoView,
    ScanErrorView,
> {
    match native_balance_of(smallest_units) {
        Ok(balance) => Ok(
            TokenInfoView {
                symbol: "ETH"@,
                contract_address: Seq::empty(),
                balance,
                usd_price,
                eth_price: PriceView::Quoted("1"@),
                coingecko_link: link_of("ethereum"@),
            },
        ),
        Err(error) => Err(error),
    }
}

impl TokenInfo {
    /// The holding of the native currency, from its count of smallest units in decimal digits
    /// and its price in the primary quote currency. It is valued once, apart from the tokens.
    pub fn native(smallest_units: &str, usd_price: Price) -> (r: Result<TokenInfo, ScanError>)
        ensures
            reads_as(r, native_holding(smallest_units@, usd_price@)),
    {
        match Balance::native(smallest_units) {
            Ok(balance) => Ok(
                TokenInfo {
                    symbol: String::from_str("ETH"),
                    contract_address: String::new(),
                    balance,
                    usd_price,
                    eth_price: Price::Quoted(String::from_str("1")),
                    coingecko_link: coingecko_link("ethereum"),
                },
            ),
            Err(error) => Err(error),
        }
    }

    /// A holding of a token.
    pub fn new(
        symbol: &str,
        contract_address: &str,
        balance: Balance,
        usd_price: Price,
        eth_price: Price,
        coingecko_link: &str,
    ) -> (info: TokenInfo)
        ensures
            info@ == (TokenInfoView {
                symbol: symbol@,
                contract_address: contract_address@,
                balance: balance@,
                usd_price: usd_price@,
                eth_price: eth_price@,
                coingecko_link: coingecko_link@,
            }),
    {
        TokenInfo {
            symbol: symbol.to_owned(),
            contract_address: contract_address.to_owned(),
            balance,
            usd_price,
            eth_price,
            coingecko_link: coingecko_link.to_owned(),
        }
    }
}

/// Writes the address of a token's page at the market-data provider.
pub fn coingecko_link(token_id: &str) -> (link: String)
    ensures
        link@ == link_of(token_id@),
{
    let mut link = String::from_str("https://coingecko.com/en/coins/");
    link.append(token_id);
    link
}

impl Scan {
    #[verifier::type_invariant]
    spec fn well_formed(&self) -> bool {
        valid_scan(self@)
    }

    fn assemble(
        account: String,
        keys: ApiKeys,
        tokens: Vec<Token>,
        cursor: usize,
        stage: Stage,
        holdings: Vec<TokenInfo>,
        Ghost(wanted): Ghost<ScanView>,
    ) -> (scan: Scan)
        requires
            valid_scan(wanted),
            wanted == (ScanView {
                account: account@,
                etherscan_key: keys.etherscan@,
                ethplorer_key: keys.ethplorer@,
                tokens: token_views(tokens@),
                cursor: cursor as nat,
                stage: stage@,
                holdings: holding_views(holdings@),
            }),
        ensures
            scan@ == wanted,
    {
        Scan { account, keys, tokens, cursor, stage, holdings }
    }

    fn begin(account: &Account, keys: ApiKeys, tokens: Vec<Token>) -> (scan: Scan)
        requires
            distinct_symbols(token_views(tokens@)),
        ensures
            scan@ == started(
                account@,
                keys.etherscan@,
                keys.ethplorer@,
                token_views(tokens@),
            ),
    {
        let ghost wanted = started(
            account@,
            keys.etherscan@,
            keys.ethplorer@,
            token_views(tokens@),
        );
        let holdings: Vec<TokenInfo> = Vec::new();
        assert(holding_views(holdings@) =~= Seq::<TokenInfoView>::empty());
        Scan::assemble(
            account.hex().to_owned(),
            keys,
            tokens,
            0,
            Stage::Identifier { provider: 0 },
            holdings,
            Ghost(wanted),
        )
    }

    /// Starts a scan over the entries of a history: the tokens are discovered, and the first of
    /// them waits at the head of the provider chain. A history that discovery fails on starts
    /// no scan.
    pub fn over(account: &Account, keys: ApiKeys, entries: &Vec<HistoryEntry>) -> (r:
        Result<Scan, ScanError>)
        ensures
            match r {
                Ok(scan) => discovered(entry_views(entries@)) == Ok::<_, ScanErrorView>(
                    scan@.tokens,
                ) && scan@ == started(
                    account@,
                    keys.etherscan@,
                    keys.ethplorer@,
                    scan@.tokens,
                ) && valid_scan(scan@),
                Err(error) => discovered(entry_views(entries@)) == Err::<Seq<TokenView>, _>(
                    error@,
                ),
            },
    {
        match discover(entries) {
            Ok(tokens) => {
                proof {
                    lemma_one_token_per_symbol(entry_views(entries@));
                }
                let scan = Scan::begin(account, keys, tokens);
                proof {
                    use_type_invariant(&scan);
                }
                Ok(scan)
            },
            Err(error) => Err(error),
        }
    }

    /// Starts a scan from the ledger's answer to the history query. An answer that cannot be
    /// read, or that discovery fails on, starts no scan: the failure is the scan's.
    pub fn start(account: &Account, keys: ApiKeys, history: &serde_json::Value) -> (r:
        Result<Scan, ScanError>)
        ensures
            match r {
                Ok(scan) => tokens_reading(*history, Seq::empty()) == Ok::<_, ScanErrorView>(
                    scan@.tokens,
                ) && scan@ == started(
                    account@,
                    keys.etherscan@,
                    keys.ethplorer@,
                    scan@.tokens,
                ) && valid_scan(scan@),
                Err(error) => tokens_reading(*history, error@.subject) == Err::<
                    Seq<TokenView>,
                    _,
                >(error@) && worded_by_engine(*history, error@),
            },
    {
        match list_erc20_for_account(history) {
            Ok(tokens) => {
                proof {
                    let entries = crate::discovery::history_reading(
                        *history,
                        Seq::empty(),
                    )->Ok_0;
                    lemma_one_token_per_symbol(entries);
                }
                let scan = Scan::begin(account, keys, tokens);
                proof {
                    use_type_invariant(&scan);
                }
                Ok(scan)
            },
            Err(error) => Err(error),
        }
    }

    /// Whether every token has been through its pipeline.
    pub fn is_finished(&self) -> (r: bool)
        ensures
            r == finished(self@),
            valid_scan(self@),
    {
        proof {
            use_type_invariant(self);
        }
        self.cursor >= self.tokens.len()
    }

    /// How many of the discovered tokens have been through their pipeline.
    pub fn processed(&self) -> (r: usize)
        ensures
            r == self@.cursor,
            valid_scan(self@),
    {
        proof {
            use_type_invariant(self);
        }
        self.cursor
    }

    /// The discovered tokens, one per symbol, first seen first.
    pub fn tokens(&self) -> (r: &Vec<Token>)
        ensures
            token_views(r@) == self@.tokens,
            valid_scan(self@),
    {
        proof {
            use_type_invariant(self);
        }
        &self.tokens
    }

    /// The holdings recorded so far.
    pub fn holdings(&self) -> (r: &Vec<TokenInfo>)
        ensures
            holding_views(r@) == self@.holdings,
            valid_scan(self@),
    {
        proof {
            use_type_invariant(self);
        }
        &self.holdings
    }

    /// Ends the scan and hands out its holdings.
    pub fn into_holdings(self) -> (r: Vec<TokenInfo>)
        ensures
            holding_views(r@) == self@.holdings,
            valid_scan(self@),
    {
        proof {
            use_type_invariant(&self);
        }
        self.holdings
    }

    fn price_call(&self, provider: usize, token_id: &str, versus: &str) -> (action: Action)
        requires
            !finished(self@),
            provider < PROVIDERS,
            versus@ == "usd"@ || versus@ == "eth"@,
        ensures
            action@ == price_action(self@, provider as nat, token_id@, versus@),
    {
        proof {
            lemma_scan_currencies_quoted();
        }
        let token = &self.tokens[self.cursor];
        let asked = match PriceProvider::at(provider) {
            Some(asked) => asked,
            None => PriceProvider::Coingecko(crate::coingecko::Coingecko),
        };
        let key = asked.pricing_key(token_id, token.contract_address.as_str());
        match asked.price_url(key, versus) {
            Ok(url) => Action::Fetch { url, call: asked.call(), paced: true },
            Err(_) => Action::Finished,
        }
    }

    /// The call that the scan makes next.
    pub fn next_action(&self) -> (action: Action)
        ensures
            action@ == action_of(self@),
            valid_scan(self@),
    {
        proof {
            use_type_invariant(self);
        }
        if self.cursor >= self.tokens.len() {
            return Action::Finished;
        }
        let token = &self.tokens[self.cursor];
        assert(token@ == self@.tokens[self@.cursor as int]);
        match &self.stage {
            Stage::Identifier { provider } => {
                let asked = match PriceProvider::at(*provider) {
                    Some(asked) => asked,
                    None => PriceProvider::Coingecko(crate::coingecko::Coingecko),
                };
                Action::Fetch {
                    url: asked.token_id_url(token.contract_address.as_str()),
                    call: asked.call(),
                    paced: true,
                }
            },
            Stage::RawBalance { .. } => Action::Fetch {
                url: balance_url(
                    self.account.as_str(),
                    token.contract_address.as_str(),
                    self.keys.etherscan.as_str(),
                ),
                call: Call::Balance,
                paced: false,
            },
            Stage::Decimals { .. } => Action::Fetch {
                url: decimals_url(token.contract_address.as_str(), self.keys.ethplorer.as_str()),
                call: Call::Decimals,
                paced: false,
            },
            Stage::UsdPrice { provider, token_id, .. } => self.price_call(
                *provider,
                token_id.as_str(),
                "usd",
            ),
            Stage::EthPrice { provider, token_id, .. } => self.price_call(
                *provider,
                token_id.as_str(),
                "eth",
            ),
        }
    }

    /// Takes the outcome of the call that `next_action` asked for and moves the scan on. A
    /// success moves the current token to its next step, and past its last step into the
    /// holdings. A failure to resolve the identifier moves on to the next provider; any other
    /// failure, or that failure at the last provider, drops the token. An outcome that the
    /// stage did not ask for changes nothing.
    pub fn apply(self, outcome: Outcome) -> (next: Scan)
        ensures
            next@ == applied(self@, outcome@),
            valid_scan(next@),
    {
        proof {
            use_type_invariant(&self);
            lemma_applied_keeps_valid(self@, outcome@);
        }
        let ghost before = self@;
        let ghost wanted = applied(self@, outcome@);
        if self.cursor >= self.tokens.len() {
            return self;
        }
        let Scan { account, keys, tokens, cursor, stage, holdings } = self;
        assert(tokens[cursor as int]@ == before.tokens[before.cursor as int]);
        match (stage, outcome) {
            (Stage::Identifier { provider }, Outcome::Identifier(Ok(token_id))) => Scan::assemble(
                account,
                keys,
                tokens,
                cursor,
                Stage::RawBalance { provider, token_id },
                holdings,
                Ghost(wanted),
            ),
            (Stage::Identifier { provider }, Outcome::Identifier(Err(_))) => {
                if provider + 1 < PROVIDERS {
                    Scan::assemble(
                        account,
                        keys,
                        tokens,
                        cursor,
                        Stage::Identifier { provider: provider + 1 },
                        holdings,
                        Ghost(wanted),
                    )
                } else {
                    Scan::assemble(
                        account,
                        keys,
                        tokens,
                        cursor + 1,
                        Stage::Identifier { provider: 0 },
                        holdings,
                        Ghost(wanted),
                    )
                }
            },
            (Stage::RawBalance { provider, token_id }, Outcome::RawBalance(Ok(raw))) => {
                Scan::assemble(
                    account,
                    keys,
                    tokens,
                    cursor,
                    Stage::Decimals { provider, token_id, raw },
                    holdings,
                    Ghost(wanted),
                )
            },
            (Stage::Decimals { provider, token_id, raw }, Outcome::Decimals(Ok(decimals))) => {
                let normal = normalize(
                    raw.as_str(),
                    decimals,
                    tokens[cursor].contract_address.as_str(),
                );
                match normal {
                    Ok(balance) => Scan::assemble(
                        account,
                        keys,
                        tokens,
                        cursor,
                        Stage::UsdPrice { provider, token_id, balance },
                        holdings,
                        Ghost(wanted),
                    ),
                    Err(_) => Scan::assemble(
                        account,
                        keys,
                        tokens,
                        cursor + 1,
                        Stage::Identifier { provider: 0 },
                        holdings,
                        Ghost(wanted),
                    ),
                }
            },
            (Stage::UsdPrice { provider, token_id, balance }, Outcome::Price(Ok(usd_price))) => {
                Scan::assemble(
                    account,
                    keys,
                    tokens,
                    cursor,
                    Stage::EthPrice { provider, token_id, balance, usd_price },
                    holdings,
                    Ghost(wanted),
                )
            },
            (
                Stage::EthPrice { provider, token_id, balance, usd_price },
                Outcome::Price(Ok(eth_price)),
            ) => {
                let link = coingecko_link(token_id.as_str());
                let info = TokenInfo::new(
                    tokens[cursor].symbol.as_str(),
                    tokens[cursor].contract_address.as_str(),
                    balance,
                    usd_price,
                    eth_price,
                    link.as_str(),
                );
                let mut holdings = holdings;
                let ghost earlier = holding_views(holdings@);
                holdings.push(info);
                assert(holding_views(holdings@) =~= earlier.push(info@));
                Scan::assemble(
                    account,
                    keys,
                    tokens,
                    cursor + 1,
                    Stage::Identifier { provider: 0 },
                    holdings,
                    Ghost(wanted),
                )
            },
            (Stage::RawBalance { .. }, Outcome::RawBalance(Err(_))) => Scan::assemble(
                account,
                keys,
                tokens,
                cursor + 1,
                Stage::Identifier { provider: 0 },
                holdings,
                Ghost(wanted),
            ),
            (Stage::Decimals { .. }, Outcome::Decimals(Err(_))) => Scan::assemble(
                account,
                keys,
                tokens,
                cursor + 1,
                Stage::Identifier { provider: 0 },
                holdings,
                Ghost(wanted),
            ),
            (Stage::UsdPrice { .. }, Outcome::Price(Err(_))) => Scan::assemble(
                account,
                keys,
                tokens,
                cursor + 1,
                Stage::Identifier { provider: 0 },
                holdings,
                Ghost(wanted),
            ),
            (Stage::EthPrice { .. }, Outcome::Price(Err(_))) => Scan::assemble(
                account,
                keys,
                tokens,
                cursor + 1,
                Stage::Identifier { provider: 0 },
                holdings,
                Ghost(wanted),
            ),
            (stage, _) => Scan::assemble(
                account,
                keys,
                tokens,
                cursor,
                stage,
                holdings,
                Ghost(wanted),
            ),
        }
    }

    /// Reads the answer to the call that `next_action` asked for, as the stage asks.
    fn read(&self, response: Result<&serde_json::Value, ScanError>) -> (outcome: Outcome)
        requires
            !finished(self@),
        ensures
            outcome@ == outcome_of(self@, answer_of(response)),
    {
        proof {
            use_type_invariant(self);
        }
        let token = &self.tokens[self.cursor];
        assert(token@ == self@.tokens[self@.cursor as int]);
        let contract_address = token.contract_address.as_str();
        match &self.stage {
            Stage::Identifier { provider } => Outcome::Identifier(
                match response {
                    Err(error) => Err(error),
                    Ok(document) => {
                        let asked = match PriceProvider::at(*provider) {
                            Some(asked) => asked,
                            None => PriceProvider::Coingecko(crate::coingecko::Coingecko),
                        };
                        asked.get_token_id_from_contract_address(document)
                    },
                },
            ),
            Stage::RawBalance { .. } => Outcome::RawBalance(
                match response {
                    Err(error) => Err(error),
                    Ok(document) => read_raw_balance(document, contract_address),
                },
            ),
            Stage::Decimals { .. } => Outcome::Decimals(
                match response {
                    Err(error) => Err(error),
                    Ok(document) => get_token_decimal(document, contract_address),
                },
            ),
            Stage::UsdPrice { provider, token_id, .. } => Outcome::Price(
                match response {
                    Err(error) => Err(error),
                    Ok(document) => {
                        let asked = match PriceProvider::at(*provider) {
                            Some(asked) => asked,
                            None => PriceProvider::Coingecko(crate::coingecko::Coingecko),
                        };
                        let key = asked.pricing_key(token_id.as_str(), contract_address);
                        asked.get_token_price(document, key, "usd")
                    },
                },
            ),
            Stage::EthPrice { provider, token_id, .. } => Outcome::Price(
                match response {
                    Err(error) => Err(error),
                    Ok(document) => {
                        let asked = match PriceProvider::at(*provider) {
                            Some(asked) => asked,
                            None => PriceProvider::Coingecko(crate::coingecko::Coingecko),
                        };
                        let key = asked.pricing_key(token_id.as_str(), contract_address);
                        asked.get_token_price(document, key, "eth")
                    },
                },
            ),
        }
    }

    /// Takes the answer to the call that `next_action` asked for, or the failure that the call
    /// ended in, and moves the scan on. A finished scan stays as it is.
    pub fn advance(self, response: Result<&serde_json::Value, ScanError>) -> (next: Scan)
        ensures
            next@ == (if finished(self@) {
                self@
            } else {
                applied(self@, outcome_of(self@, answer_of(response)))
            }),
            valid_scan(next@),
    {
        if self.is_finished() {
            return self;
        }
        let ghost answer = answer_of(response);
        let outcome = self.read(response);
        proof {
            lemma_applied_alike(self@, outcome@, outcome_of(self@, answer));
        }
        self.apply(outcome)
    }
}

/// Whether the cache answers the call that the scan would make next: it knows the identifier
/// of the current token from a provider that the chain has not passed, or it knows the token's
/// decimal exponent.
pub open spec fn cache_hit(state: ScanView, cache: CacheView) -> bool {
    !finished(state) && match state.stage {
        StageView::Identifier { provider } => match known_identifier(
            cache,
            state.tokens[state.cursor as int].contract_address,
        ) {
            Some(known) => provider <= known.provider < PROVIDERS,
            None => false,
        },
        StageView::Decimals { .. } => known_decimals(
            cache,
            state.tokens[state.cursor as int].contract_address,
        ) is Some,
        _ => false,
    }
}

/// The scan after it has asked the cache in place of a provider or of the token index. Where
/// the cache has no answer the scan stays as it is.
pub open spec fn consulted(state: ScanView, cache: CacheView) -> ScanView {
    if !cache_hit(state, cache) {
        state
    } else {
        let contract_address = state.tokens[state.cursor as int].contract_address;
        match state.stage {
            StageView::Identifier { .. } => moved(
                state,
                StageView::RawBalance {
                    provider: known_identifier(cache, contract_address)->0.provider,
                    token_id: known_identifier(cache, contract_address)->0.token_id,
                },
            ),
            StageView::Decimals { .. } => applied(
                state,
                OutcomeView::Decimals(Ok(known_decimals(cache, contract_address)->0)),
            ),
            _ => state,
        }
    }
}

/// The cache after the scan has made a call: an identifier that a provider resolved and an
/// exponent that the token index gave are put in; nothing else is.
pub open spec fn remembered(cache: CacheView, state: ScanView, outcome: OutcomeView) -> CacheView {
    if finished(state) {
        cache
    } else {
        let contract_address = state.tokens[state.cursor as int].contract_address;
        match (state.stage, outcome) {
            (StageView::Identifier { provider }, OutcomeView::Identifier(Ok(token_id))) => {
                with_identifier(cache, contract_address, provider, token_id)
            },
            (StageView::Decimals { .. }, OutcomeView::Decimals(Ok(decimals))) => with_decimals(
                cache,
                contract_address,
                decimals,
            ),
            _ => cache,
        }
    }
}

/// The scan after `n` providers in a row have failed to resolve the current token's identifier.
pub open spec fn after_failures(state: ScanView, failure: ScanErrorView, n: nat) -> ScanView
    decreases n,
{
    if n == 0 {
        state
    } else {
        after_failures(
            applied(state, OutcomeView::Identifier(Err(failure))),
            failure,
            (n - 1) as nat,
        )
    }
}

/// A cache that knows nothing changes nothing.
pub proof fn lemma_empty_cache_changes_nothing(state: ScanView)
    ensures
        !cache_hit(state, empty_cache()),
        consulted(state, empty_cache()) == state,
{
}

/// An identifier from the cache is the identifier from the provider: the scan stands where it
/// would stand had every provider before the one that the cache names failed, and had that
/// one answered with the cached identifier.
pub proof fn lemma_cached_identifier_is_a_lookup(
    state: ScanView,
    cache: CacheView,
    failure: ScanErrorView,
)
    requires
        cache_hit(state, cache),
        state.stage is Identifier,
    ensures
        consulted(state, cache) == applied(
            after_failures(
                state,
                failure,
                (known_identifier(
                    cache,
                    state.tokens[state.cursor as int].contract_address,
                )->0.provider - state.stage->Identifier_provider) as nat,
            ),
            OutcomeView::Identifier(
                Ok(
                    known_identifier(
                        cache,
                        state.tokens[state.cursor as int].contract_address,
                    )->0.token_id,
                ),
            ),
        ),
    decreases
            known_identifier(cache, state.tokens[state.cursor as int].contract_address)->0.provider
                - state.stage->Identifier_provider,
{
    let known = known_identifier(cache, state.tokens[state.cursor as int].contract_address)->0;
    let provider = state.stage->Identifier_provider;
    if provider < known.provider {
        let next = applied(state, OutcomeView::Identifier(Err(failure)));
        assert(next == moved(state, StageView::Identifier { provider: provider + 1 }));
        lemma_cached_identifier_is_a_lookup(next, cache, failure);
        assert(consulted(next, cache) == consulted(state, cache));
    }
}

/// An exponent from the cache is the exponent from the token index: the scan stands where it
/// would stand had the index answered with the cached exponent.
pub proof fn lemma_cached_decimals_is_a_lookup(state: ScanView, cache: CacheView)
    requires
        cache_hit(state, cache),
        state.stage is Decimals,
    ensures
        consulted(state, cache) == applied(
            state,
            OutcomeView::Decimals(
                Ok(
                    known_decimals(
                        cache,
                        state.tokens[state.cursor as int].contract_address,
                    )->0,
                ),
            ),
        ),
{
}

/// The cache saves calls and changes nothing else: a hit leaves a valid scan valid, keeps its
/// tokens and its holdings, and leaves less work.
pub proof fn lemma_consulted_keeps_valid(state: ScanView, cache: CacheView)
    requires
        valid_scan(state),
    ensures
        valid_scan(consulted(state, cache)),
        consulted(state, cache).tokens == state.tokens,
        keeps_holdings(state.holdings, consulted(state, cache).holdings),
        cache_hit(state, cache) ==> 0 <= work_left(consulted(state, cache)) < work_left(state),
{
    if cache_hit(state, cache) {
        let contract_address = state.tokens[state.cursor as int].contract_address;
        if state.stage is Decimals {
            let outcome = OutcomeView::Decimals(Ok(known_decimals(cache, contract_address)->0));
            lemma_applied_keeps_valid(state, outcome);
            lemma_scan_progresses(state, outcome);
            lemma_holdings_are_kept(state, outcome);
        } else {
            assert((state.tokens.len() - state.cursor) * 6 >= 6) by (nonlinear_arith)
                requires
                    state.tokens.len() - state.cursor >= 1,
            ;
        }
    }
}

/// The scan after it has asked the cache until the cache has no answer left: twice is enough.
pub open spec fn settled(state: ScanView, cache: CacheView) -> ScanView {
    consulted(consulted(state, cache), cache)
}

/// After two answers in a row the cache has none left: an identifier from the cache leaves the
/// ledger to ask, and an exponent from the cache leaves a price to ask for or, where the token
/// is dropped, at most the next token's identifier.
pub proof fn lemma_settled_has_no_hit(state: ScanView, cache: CacheView)
    ensures
        !cache_hit(settled(state, cache), cache),
{
}

/// What a scan remembers, a later scan is spared: once a provider has resolved a contract
/// address that the cache did not know, a scan that comes to a token at that address, at or
/// before that provider, takes the identifier from the cache and stands where the first scan
/// stood after the provider's answer.
pub proof fn lemma_remembered_identifier_is_consulted(
    cache: CacheView,
    first: ScanView,
    token_id: Seq<char>,
    later: ScanView,
)
    requires
        valid_scan(first),
        !finished(first),
        first.stage is Identifier,
        known_identifier(cache, first.tokens[first.cursor as int].contract_address) is None,
        !finished(later),
        later.stage is Identifier,
        later.stage->Identifier_provider <= first.stage->Identifier_provider,
        later.tokens[later.cursor as int].contract_address == first.tokens[first.cursor
            as int].contract_address,
    ensures
        cache_hit(later, remembered(cache, first, OutcomeView::Identifier(Ok(token_id)))),
        consulted(later, remembered(cache, first, OutcomeView::Identifier(Ok(token_id)))).stage
            == applied(first, OutcomeView::Identifier(Ok(token_id))).stage,
{
    let contract_address = first.tokens[first.cursor as int].contract_address;
    lemma_identifier_put(
        cache,
        contract_address,
        first.stage->Identifier_provider,
        token_id,
        contract_address,
    );
}

/// What a scan remembers, a later scan is spared: once the token index has given the exponent
/// of a contract that the cache did not know, the cache knows it.
pub proof fn lemma_remembered_decimals_is_known(
    cache: CacheView,
    first: ScanView,
    decimals: u32,
)
    requires
        !finished(first),
        first.stage is Decimals,
        known_decimals(cache, first.tokens[first.cursor as int].contract_address) is None,
    ensures
        known_decimals(
            remembered(cache, first, OutcomeView::Decimals(Ok(decimals))),
            first.tokens[first.cursor as int].contract_address,
        ) == Some(decimals),
{
    let contract_address = first.tokens[first.cursor as int].contract_address;
    lemma_decimals_put(cache, contract_address, decimals, contract_address);
}

/// What a failure says does not matter to the cache.
pub proof fn lemma_remembered_alike(
    cache: CacheView,
    state: ScanView,
    a: OutcomeView,
    b: OutcomeView,
)
    requires
        alike(a, b),
    ensures
        remembered(cache, state, a) == remembered(cache, state, b),
{
}

impl Scan {
    /// Asks the cache in place of a provider or of the token index. Returns the scan, moved on
    /// where the cache had the answer, and whether it had.
    pub fn consult(self, cache: &Cache) -> (r: (Scan, bool))
        ensures
            r.0@ == consulted(self@, cache@),
            r.1 == cache_hit(self@, cache@),
            valid_scan(r.0@),
    {
        proof {
            use_type_invariant(&self);
            lemma_consulted_keeps_valid(self@, cache@);
        }
        if self.cursor >= self.tokens.len() {
            return (self, false);
        }
        let ghost wanted = consulted(self@, cache@);
        assert(self.tokens[self.cursor as int]@ == self@.tokens[self@.cursor as int]);
        match &self.stage {
            Stage::Identifier { provider } => {
                let asked: usize = *provider;
                let found = match cache.identifier(
                    self.tokens[self.cursor].contract_address.as_str(),
                ) {
                    Some(known) => {
                        if asked <= known.provider && known.provider < PROVIDERS {
                            Some((known.provider, known.token_id.clone()))
                        } else {
                            None
                        }
                    },
                    None => None,
                };
                match found {
                    Some((provider, token_id)) => {
                        let Scan { account, keys, tokens, cursor, stage, holdings } = self;
                        let scan = Scan::assemble(
                            account,
                            keys,
                            tokens,
                            cursor,
                            Stage::RawBalance { provider, token_id },
                            holdings,
                            Ghost(wanted),
                        );
                        (scan, true)
                    },
                    None => (self, false),
                }
            },
            Stage::Decimals { .. } => {
                match cache.decimals(self.tokens[self.cursor].contract_address.as_str()) {
                    Some(decimals) => (self.apply(Outcome::Decimals(Ok(decimals))), true),
                    None => (self, false),
                }
            },
            _ => (self, false),
        }
    }

    /// Asks the cache until it has no answer left, so that the next call is one that only a
    /// service can answer.
    pub fn settle(self, cache: &Cache) -> (r: Scan)
        ensures
            r@ == settled(self@, cache@),
            !cache_hit(r@, cache@),
            valid_scan(r@),
    {
        proof {
            lemma_settled_has_no_hit(self@, cache@);
        }
        let (once, _) = self.consult(cache);
        let (twice, _) = once.consult(cache);
        twice
    }

    /// Puts into the cache what the outcome of the current call has taught: the identifier that
    /// a provider resolved, or the exponent that the token index gave.
    pub fn remember(&self, cache: &mut Cache, outcome: &Outcome)
        ensures
            final(cache)@ == remembered(old(cache)@, self@, outcome@),
    {
        proof {
            use_type_invariant(self);
        }
        if self.cursor >= self.tokens.len() {
            return ;
        }
        let token = &self.tokens[self.cursor];
        assert(token@ == self@.tokens[self@.cursor as int]);
        match (&self.stage, outcome) {
            (Stage::Identifier { provider }, Outcome::Identifier(Ok(token_id))) => {
                cache.put_identifier(token.contract_address.as_str(), *provider, token_id.as_str());
            },
            (Stage::Decimals { .. }, Outcome::Decimals(Ok(decimals))) => {
                cache.put_decimals(token.contract_address.as_str(), *decimals);
            },
            _ => {},
        }
    }

    /// Takes the answer to the call that `next_action` asked for, or the failure that the call
    /// ended in, puts into the cache what the answer has taught, and moves the scan on.
    pub fn advance_with(
        self,
        cache: &mut Cache,
        response: Result<&serde_json::Value, ScanError>,
    ) -> (next: Scan)
        ensures
            next@ == (if finished(self@) {
                self@
            } else {
                applied(self@, outcome_of(self@, answer_of(response)))
            }),
            final(cache)@ == (if finished(self@) {
                old(cache)@
            } else {
                remembered(old(cache)@, self@, outcome_of(self@, answer_of(response)))
            }),
            valid_scan(next@),
    {
        if self.is_finished() {
            return self;
        }
        let ghost answer = answer_of(response);
        let outcome = self.read(response);
        proof {
            lemma_applied_alike(self@, outcome@, outcome_of(self@, answer));
            lemma_remembered_alike(cache@, self@, outcome@, outcome_of(self@, answer));
        }
        self.remember(cache, &outcome);
        self.apply(outcome)
    }
}

} // verus!
