//! Token discovery: from an account's transaction history to the distinct tokens it names.

use vstd::prelude::*;
use crate::erc20::{lemma_balance_selectors_keyed, message_selector, refuses, status_refuses};
use crate::error::{selection_failure, Call, ErrorKind, ScanError, ScanErrorView};
use crate::json::{
    as_items, as_text, is_keyed_selector, items_of, member, member_of, node_missing, read_scalar,
    refused, render, rendered, scalar_of, text_of, walk, walked,
};
use crate::text::same_text;

verus! {

/// The contract address of a history entry, as far as it can be read.
#[derive(Clone, Debug, PartialEq, Eq)]
pub enum Field {
    /// The entry has no such member.
    Missing,
    /// The member is no string.
    Invalid,
    /// The member's text.
    Text(String),
}

/// A `Field` over sequences of characters.
pub enum FieldView {
    Missing,
    Invalid,
    Text(Seq<char>),
}

impl View for Field {
    type V = FieldView;

    open spec fn view(&self) -> FieldView {
        match self {
            Field::Missing => FieldView::Missing,
            Field::Invalid => FieldView::Invalid,
            Field::Text(text) => FieldView::Text(text@),
        }
    }
}

/// One entry of a transaction history.
#[derive(Clone, Debug, PartialEq, Eq)]
pub struct HistoryEntry {
    /// The token's symbol, `None` where the entry has none.
    pub symbol: Option<String>,
    /// The token's name, empty where the entry has none.
    pub name: String,
    /// The token's contract address.
    pub contract_address: Field,
}

/// A `HistoryEntry` over sequences of characters.
pub struct EntryView {
    pub symbol: Option<Seq<char>>,
    pub name: Seq<char>,
    pub contract_address: FieldView,
}

impl View for HistoryEntry {
    type V = EntryView;

    open spec fn view(&self) -> EntryView {
        EntryView {
            symbol: match self.symbol {
                Some(symbol) => Some(symbol@),
                None => None,
            },
            name: self.name@,
            contract_address: self.contract_address@,
        }
    }
}

/// A token that the account has transacted.
#[derive(Clone, Debug, PartialEq, Eq)]
pub struct Token {
    pub symbol: String,
    pub name: String,
    pub contract_address: String,
}

/// A `Token` over sequences of characters.
pub struct TokenView {
    pub symbol: Seq<char>,
    pub name: Seq<char>,
    pub contract_address: Seq<char>,
}

impl View for Token {
    type V = TokenView;

    open spec fn view(&self) -> TokenView {
        TokenView {
            symbol: self.symbol@,
            name: self.name@,
            contract_address: self.contract_address@,
        }
    }
}

/// The views of a list of entries.
pub open spec fn entry_views(entries: Seq<HistoryEntry>) -> Seq<EntryView> {
    Seq::new(entries.len(), |i: int| entries[i]@)
}

/// The views of a list of tokens.
pub open spec fn token_views(tokens: Seq<Token>) -> Seq<TokenView> {
    Seq::new(tokens.len(), |i: int| tokens[i]@)
}

/// Whether a list of tokens holds a symbol.
pub open spec fn has_symbol(tokens: Seq<TokenView>, symbol: Seq<char>) -> bool {
    exists|i: int| 0 <= i < tokens.len() && (#[trigger] tokens[i]).symbol == symbol
}

/// A failure that needs no input to describe it.
pub open spec fn bare_failure(kind: ErrorKind) -> ScanErrorView {
    ScanErrorView { kind, subject: Seq::empty(), detail: Seq::empty() }
}

/// The tokens after one more entry. An entry whose symbol is already held changes nothing and
/// is not looked at further; a new symbol is admitted with the entry's name and address, which
/// must be a text.
pub open spec fn admitted(tokens: Seq<TokenView>, entry: EntryView) -> Result<
    Seq<TokenView>,
    ScanErrorView,
> {
    match entry.symbol {
        None => Err(bare_failure(ErrorKind::SymbolMissing)),
        Some(symbol) => if has_symbol(tokens, symbol) {
            Ok(tokens)
        } else {
            match entry.contract_address {
                FieldView::Missing => Err(bare_failure(ErrorKind::AddressMissing)),
                FieldView::Invalid => Err(bare_failure(ErrorKind::AddressInvalid)),
                FieldView::Text(contract_address) => Ok(
                    tokens.push(TokenView { symbol, name: entry.name, contract_address }),
                ),
            }
        },
    }
}

/// The distinct tokens of a history, in the order in which their symbols first occur, or the
/// failure of the first entry that cannot be admitted.
pub open spec fn discovered(entries: Seq<EntryView>) -> Result<Seq<TokenView>, ScanErrorView>
    decreases entries.len(),
{
    if entries.len() == 0 {
        Ok(Seq::empty())
    } else {
        match discovered(entries.drop_last()) {
            Err(error) => Err(error),
            Ok(tokens) => admitted(tokens, entries.last()),
        }
    }
}

/// The selector of the entries of a history, each cut down to symbol, name and address.
pub open spec fn list_selector() -> Seq<char> {
    "\"result\"|{\"tokenSymbol\", \"tokenName\", \"contractAddress\"}"@
}

/// What an entry shows of a member: its text, or the member written out where it is no string.
pub open spec fn label_of(value: serde_json::Value) -> Seq<char> {
    match text_of(value) {
        Some(text) => text,
        None => rendered(value),
    }
}

/// The history entry that a JSON value holds.
pub open spec fn entry_of(value: serde_json::Value) -> EntryView {
    EntryView {
        symbol: match member_of(value, "tokenSymbol"@) {
            Some(symbol) => Some(label_of(symbol)),
            None => None,
        },
        name: match member_of(value, "tokenName"@) {
            Some(name) => label_of(name),
            None => Seq::empty(),
        },
        contract_address: match member_of(value, "contractAddress"@) {
            None => FieldView::Missing,
            Some(contract_address) => match text_of(contract_address) {
                Some(text) => FieldView::Text(text),
                None => FieldView::Invalid,
            },
        },
    }
}

/// Whether a ledger's answer passes the status check and yet has no list of entries that the
/// selector engine would select.
pub open spec fn list_is_refused(document: serde_json::Value) -> bool {
    match walked(document, message_selector()) {
        Some(status) => !status_refuses(scalar_of(status)) && walked(document, list_selector())
            is None,
        None => false,
    }
}

/// The entries that a ledger's answer holds. `refusal` is what the selector engine says where it
/// refuses the list; it plays no part in any other outcome.
pub open spec fn history_reading(document: serde_json::Value, refusal: Seq<char>) -> Result<
    Seq<EntryView>,
    ScanErrorView,
> {
    match walked(document, message_selector()) {
        None => Err(selection_failure(Call::History, node_missing("message"@))),
        Some(status) => if status_refuses(scalar_of(status)) {
            Err(bare_failure(ErrorKind::History))
        } else {
            match walked(document, list_selector()) {
                None => Err(selection_failure(Call::History, refusal)),
                Some(list) => match items_of(list) {
                    None => Err(bare_failure(ErrorKind::History)),
                    Some(items) => Ok(Seq::new(items.len(), |i: int| entry_of(items[i]))),
                },
            }
        },
    }
}

/// The tokens that a ledger's answer names. `refusal` is what the selector engine says where it
/// refuses the list; it plays no part in any other outcome.
pub open spec fn tokens_reading(document: serde_json::Value, refusal: Seq<char>) -> Result<
    Seq<TokenView>,
    ScanErrorView,
> {
    match history_reading(document, refusal) {
        Err(error) => Err(error),
        Ok(entries) => discovered(entries),
    }
}

/// Whether a failure is worded by the selector engine where it is the engine's refusal of the
/// list: its subject is a message that the engine gives for this answer.
pub open spec fn worded_by_engine(document: serde_json::Value, error: ScanErrorView) -> bool {
    list_is_refused(document) ==> refused(document, list_selector(), error.subject)
}

/// Whether a reader's list is what the ledger's answer holds.
pub open spec fn reads_entries(
    actual: Result<Vec<HistoryEntry>, ScanError>,
    document: serde_json::Value,
) -> bool {
    match actual {
        Ok(entries) => history_reading(document, Seq::empty()) == Ok::<_, ScanErrorView>(
            entry_views(entries@),
        ),
        Err(error) => history_reading(document, error@.subject) == Err::<Seq<EntryView>, _>(
            error@,
        ) && worded_by_engine(document, error@),
    }
}

/// Whether a reader's tokens are what the ledger's answer names.
pub open spec fn reads_tokens(
    actual: Result<Vec<Token>, ScanError>,
    document: serde_json::Value,
) -> bool {
    match actual {
        Ok(tokens) => tokens_reading(document, Seq::empty()) == Ok::<_, ScanErrorView>(
            token_views(tokens@),
        ),
        Err(error) => tokens_reading(document, error@.subject) == Err::<Seq<TokenView>, _>(
            error@,
        ) && worded_by_engine(document, error@),
    }
}

/// The list selector names keys and a filter, no index and no range.
pub proof fn lemma_list_selector_keyed()
    ensures
        is_keyed_selector(list_selector()),
{
    reveal_strlit("\"result\"|{\"tokenSymbol\", \"tokenName\", \"contractAddress\"}");
}

/// Whether a list of tokens holds a symbol.
pub fn holds_symbol(tokens: &Vec<Token>, symbol: &str) -> (r: bool)
    ensures
        r == has_symbol(token_views(tokens@), symbol@),
{
    let mut i: usize = 0;
    while i < tokens.len()
        invariant
            i <= tokens.len(),
            forall|j: int| 0 <= j < i ==> (#[trigger] token_views(tokens@)[j]).symbol != symbol@,
        decreases tokens.len() - i,
    {
        if same_text(tokens[i].symbol.as_str(), symbol) {
            assert(token_views(tokens@)[i as int].symbol == symbol@);
            return true;
        }
        i += 1;
    }
    false
}

/// Projects a history to its distinct tokens. Entries are taken in order; the first entry of a
/// symbol decides the token's name and address, and later entries of that symbol are passed
/// over unread. The first entry without a symbol, or with a new symbol and no usable address,
/// fails the whole history.
pub fn discover(entries: &Vec<HistoryEntry>) -> (r: Result<Vec<Token>, ScanError>)
    ensures
        match r {
            Ok(tokens) => discovered(entry_views(entries@)) == Ok::<_, ScanErrorView>(
                token_views(tokens@),
            ),
            Err(error) => discovered(entry_views(entries@)) == Err::<Seq<TokenView>, _>(error@),
        },
{
    let mut tokens: Vec<Token> = Vec::new();
    let mut i: usize = 0;
    assert(entry_views(entries@).take(0) =~= Seq::<EntryView>::empty());
    assert(token_views(tokens@) =~= Seq::<TokenView>::empty());
    while i < entries.len()
        invariant
            i <= entries.len(),
            discovered(entry_views(entries@).take(i as int)) == Ok::<_, ScanErrorView>(
                token_views(tokens@),
            ),
        decreases entries.len() - i,
    {
        let entry = &entries[i];
        let ghost views = entry_views(entries@);
        let ghost before = token_views(tokens@);
        proof {
            assert(views.take(i + 1).drop_last() =~= views.take(i as int));
            assert(views.take(i + 1).last() == entry@);
            lemma_discovered_extends(views, i as int);
        }
        match &entry.symbol {
            None => {
                proof {
                    lemma_discovered_fails(views, i as int);
                }
                return Err(ScanError::bare(ErrorKind::SymbolMissing));
            },
            Some(symbol) => {
                if !holds_symbol(&tokens, symbol.as_str()) {
                    match &entry.contract_address {
                        Field::Missing => {
                            proof {
                                lemma_discovered_fails(views, i as int);
                            }
                            return Err(ScanError::bare(ErrorKind::AddressMissing));
                        },
                        Field::Invalid => {
                            proof {
                                lemma_discovered_fails(views, i as int);
                            }
                            return Err(ScanError::bare(ErrorKind::AddressInvalid));
                        },
                        Field::Text(contract_address) => {
                            let token = Token {
                                symbol: symbol.clone(),
                                name: entry.name.clone(),
                                contract_address: contract_address.clone(),
                            };
                            tokens.push(token);
                            assert(token_views(tokens@) =~= before.push(token@));
                        },
                    }
                }
            },
        }
        i += 1;
    }
    assert(entry_views(entries@).take(i as int) =~= entry_views(entries@));
    Ok(tokens)
}

/// Discovery of the first `n + 1` entries is discovery of the first `n`, then one admission.
proof fn lemma_discovered_extends(entries: Seq<EntryView>, n: int)
    requires
        0 <= n < entries.len(),
    ensures
        discovered(entries.take(n + 1)) == (match discovered(entries.take(n)) {
            Err(error) => Err(error),
            Ok(tokens) => admitted(tokens, entries[n]),
        }),
{
    assert(entries.take(n + 1).drop_last() =~= entries.take(n));
}

/// Once a prefix of a history fails, the whole history fails in the same way.
proof fn lemma_discovered_fails(entries: Seq<EntryView>, n: int)
    requires
        0 <= n < entries.len(),
        discovered(entries.take(n + 1)) is Err,
    ensures
        discovered(entries) == discovered(entries.take(n + 1)),
    decreases entries.len() - n,
{
    if n + 1 == entries.len() {
        assert(entries.take(n + 1) =~= entries);
    } else {
        lemma_discovered_extends(entries, n + 1);
        lemma_discovered_fails(entries, n + 1);
    }
}

/// Reads what an entry shows of a member.
fn read_label(value: &serde_json::Value) -> (label: String)
    ensures
        label@ == label_of(*value),
{
    match as_text(value) {
        Some(text) => text,
        None => render(value),
    }
}

/// Reads one history entry out of a JSON value.
pub fn read_entry(value: &serde_json::Value) -> (entry: HistoryEntry)
    ensures
        entry@ == entry_of(*value),
{
    let symbol = match member(value, "tokenSymbol") {
        Some(symbol) => Some(read_label(symbol)),
        None => None,
    };
    let name = match member(value, "tokenName") {
        Some(name) => read_label(name),
        None => String::new(),
    };
    let contract_address = match member(value, "contractAddress") {
        None => Field::Missing,
        Some(contract_address) => match as_text(contract_address) {
            Some(text) => Field::Text(text),
            None => Field::Invalid,
        },
    };
    HistoryEntry { symbol, name, contract_address }
}

/// Reads the entries of a transaction history out of the ledger's answer. A status other than
/// `OK` is a failure of kind `History`, and so is a payload that is no list. An answer that the
/// selector engine refuses is a failure of kind `Selection` with the engine's message.
pub fn read_history(document: &serde_json::Value) -> (r: Result<Vec<HistoryEntry>, ScanError>)
    ensures
        reads_entries(r, *document),
{
    proof {
        lemma_balance_selectors_keyed();
        lemma_list_selector_keyed();
    }
    let status = match walk(document, "\"message\"") {
        Ok(value) => read_scalar(&value),
        Err(message) => {
            return Err(ScanError::about(ErrorKind::Selection(Call::History), message.as_str()));
        },
    };
    if refuses(&status) {
        return Err(ScanError::bare(ErrorKind::History));
    }
    let list = match walk(
        document,
        "\"result\"|{\"tokenSymbol\", \"tokenName\", \"contractAddress\"}",
    ) {
        Ok(value) => value,
        Err(message) => {
            return Err(ScanError::about(ErrorKind::Selection(Call::History), message.as_str()));
        },
    };
    let items = match as_items(&list) {
        Some(items) => items,
        None => {
            return Err(ScanError::bare(ErrorKind::History));
        },
    };
    let mut entries: Vec<HistoryEntry> = Vec::new();
    let mut i: usize = 0;
    while i < items.len()
        invariant
            i <= items.len(),
            entries@.len() == i,
            forall|j: int| 0 <= j < i ==> (#[trigger] entries@[j])@ == entry_of(items@[j]),
        decreases items.len() - i,
    {
        entries.push(read_entry(&items[i]));
        i += 1;
    }
    assert(entry_views(entries@) =~= Seq::new(items@.len(), |i: int| entry_of(items@[i])));
    Ok(entries)
}

/// Lists the distinct tokens of an account from the ledger's answer to the history query: the
/// entries are read, then projected to one token per symbol, first seen first.
pub fn list_erc20_for_account(document: &serde_json::Value) -> (r: Result<Vec<Token>, ScanError>)
    ensures
        reads_tokens(r, *document),
{
    match read_history(document) {
        Ok(entries) => discover(&entries),
        Err(error) => Err(error),
    }
}

/// Whether the entry at `i` is the first of its symbol and is what `token` was made from.
pub open spec fn is_first_entry(entries: Seq<EntryView>, i: int, token: TokenView) -> bool {
    &&& 0 <= i < entries.len()
    &&& entries[i].symbol == Some(token.symbol)
    &&& entries[i].name == token.name
    &&& entries[i].contract_address == FieldView::Text(token.contract_address)
    &&& forall|j: int| 0 <= j < i ==> (#[trigger] entries[j]).symbol != Some(token.symbol)
}

/// Whether a token was made from the first entry of its symbol.
pub open spec fn comes_first(entries: Seq<EntryView>, token: TokenView) -> bool {
    exists|i: int| is_first_entry(entries, i, token)
}

/// No two tokens share a symbol.
pub open spec fn distinct_symbols(tokens: Seq<TokenView>) -> bool {
    forall|i: int, j: int|
        0 <= i < j < tokens.len() ==> (#[trigger] tokens[i]).symbol != (#[trigger] tokens[j]).symbol
}

/// No two tokens share a contract address.
pub open spec fn distinct_addresses(tokens: Seq<TokenView>) -> bool {
    forall|i: int, j: int|
        0 <= i < j < tokens.len() ==> (#[trigger] tokens[i]).contract_address != (
        #[trigger] tokens[j]).contract_address
}

/// Every entry's symbol is held by a token.
pub open spec fn covers(tokens: Seq<TokenView>, entries: Seq<EntryView>) -> bool {
    forall|i: int|
        0 <= i < entries.len() ==> match (#[trigger] entries[i]).symbol {
            Some(symbol) => has_symbol(tokens, symbol),
            None => false,
        }
}

/// A history that never shows one contract address under two symbols.
pub open spec fn address_names_symbol(entries: Seq<EntryView>) -> bool {
    forall|i: int, j: int|
        0 <= i < entries.len() && 0 <= j < entries.len() && (
        #[trigger] entries[i]).contract_address is Text && entries[i].contract_address == (
        #[trigger] entries[j]).contract_address ==> entries[i].symbol == entries[j].symbol
}

proof fn lemma_discovered_inductive(entries: Seq<EntryView>)
    requires
        discovered(entries) is Ok,
    ensures
        distinct_symbols(discovered(entries)->Ok_0),
        covers(discovered(entries)->Ok_0, entries),
        forall|k: int|
            0 <= k < discovered(entries)->Ok_0.len() ==> comes_first(
                entries,
                #[trigger] discovered(entries)->Ok_0[k],
            ),
    decreases entries.len(),
{
    let tokens = discovered(entries)->Ok_0;
    if entries.len() == 0 {
    } else {
        let prefix = entries.drop_last();
        let last = entries.last();
        lemma_discovered_inductive(prefix);
        let before = discovered(prefix)->Ok_0;
        let symbol = last.symbol->0;
        assert forall|k: int| 0 <= k < before.len() implies comes_first(
            entries,
            #[trigger] before[k],
        ) by {
            let i = choose|i: int| is_first_entry(prefix, i, before[k]);
            assert forall|j: int| 0 <= j < i implies (#[trigger] entries[j]).symbol != Some(
                before[k].symbol,
            ) by {
                assert(entries[j] == prefix[j]);
            }
            assert(entries[i] == prefix[i]);
            assert(is_first_entry(entries, i, before[k]));
        }
        if has_symbol(before, symbol) {
            assert(tokens == before);
            assert forall|i: int| 0 <= i < entries.len() implies match (
            #[trigger] entries[i]).symbol {
                Some(symbol) => has_symbol(tokens, symbol),
                None => false,
            } by {
                if i < prefix.len() {
                    assert(entries[i] == prefix[i]);
                }
            }
        } else {
            let token = tokens.last();
            assert(tokens == before.push(token));
            assert(token.symbol == symbol);
            assert forall|i: int, j: int| 0 <= i < j < tokens.len() implies (
            #[trigger] tokens[i]).symbol != (#[trigger] tokens[j]).symbol by {
                if j < before.len() {
                    assert(tokens[i] == before[i]);
                    assert(tokens[j] == before[j]);
                } else {
                    assert(tokens[i] == before[i]);
                }
            }
            assert forall|i: int| 0 <= i < entries.len() implies match (
            #[trigger] entries[i]).symbol {
                Some(symbol) => has_symbol(tokens, symbol),
                None => false,
            } by {
                if i < prefix.len() {
                    assert(entries[i] == prefix[i]);
                    let held = entries[i].symbol->0;
                    let k = choose|k: int| 0 <= k < before.len() && (#[trigger] before[k]).symbol
                        == held;
                    assert(tokens[k] == before[k]);
                } else {
                    assert(tokens[tokens.len() - 1].symbol == symbol);
                }
            }
            assert forall|k: int| 0 <= k < tokens.len() implies comes_first(
                entries,
                #[trigger] tokens[k],
            ) by {
                if k < before.len() {
                    assert(tokens[k] == before[k]);
                } else {
                    let n = entries.len() - 1;
                    assert forall|j: int| 0 <= j < n implies (#[trigger] entries[j]).symbol
                        != Some(symbol) by {
                        assert(entries[j] == prefix[j]);
                        if entries[j].symbol == Some(symbol) {
                            assert(has_symbol(before, symbol));
                        }
                    }
                    assert(is_first_entry(entries, n, tokens[k]));
                }
            }
        }
    }
}

/// Discovery holds every symbol once.
pub proof fn lemma_one_token_per_symbol(entries: Seq<EntryView>)
    requires
        discovered(entries) is Ok,
    ensures
        distinct_symbols(discovered(entries)->Ok_0),
{
    lemma_discovered_inductive(entries);
}

/// First seen wins: every discovered token carries the name and the contract address of the
/// first entry of its symbol.
pub proof fn lemma_first_seen_wins(entries: Seq<EntryView>, k: int)
    requires
        discovered(entries) is Ok,
        0 <= k < discovered(entries)->Ok_0.len(),
    ensures
        comes_first(entries, discovered(entries)->Ok_0[k]),
{
    lemma_discovered_inductive(entries);
}

/// Discovery leaves no symbol of the history out.
pub proof fn lemma_every_symbol_discovered(entries: Seq<EntryView>)
    requires
        discovered(entries) is Ok,
    ensures
        covers(discovered(entries)->Ok_0, entries),
{
    lemma_discovered_inductive(entries);
}

/// Whether the entry at `i` is the first of its symbol.
pub open spec fn is_first_of_symbol(entries: Seq<EntryView>, i: int) -> bool {
    &&& 0 <= i < entries.len()
    &&& entries[i].symbol is Some
    &&& forall|k: int| 0 <= k < i ==> (#[trigger] entries[k]).symbol != entries[i].symbol
}

/// A history in which the first entries of different symbols differ in contract address.
pub open spec fn first_entries_differ(entries: Seq<EntryView>) -> bool {
    forall|i: int, j: int|
        0 <= i < j < entries.len() && #[trigger] is_first_of_symbol(entries, i)
            && #[trigger] is_first_of_symbol(entries, j) && entries[i].contract_address is Text
            ==> entries[i].contract_address != entries[j].contract_address
}

/// Where the first entries of different symbols differ in contract address, discovery holds
/// every contract address at most once, however often the address recurs in the history.
pub proof fn lemma_one_token_per_address(entries: Seq<EntryView>)
    requires
        discovered(entries) is Ok,
        first_entries_differ(entries),
    ensures
        distinct_addresses(discovered(entries)->Ok_0),
{
    lemma_discovered_inductive(entries);
    let tokens = discovered(entries)->Ok_0;
    assert forall|i: int, j: int| 0 <= i < j < tokens.len() implies (
    #[trigger] tokens[i]).contract_address != (#[trigger] tokens[j]).contract_address by {
        assert(comes_first(entries, tokens[i]));
        assert(comes_first(entries, tokens[j]));
        let a = choose|a: int| is_first_entry(entries, a, tokens[i]);
        let b = choose|b: int| is_first_entry(entries, b, tokens[j]);
        assert(is_first_of_symbol(entries, a));
        assert(is_first_of_symbol(entries, b));
        assert(tokens[i].symbol != tokens[j].symbol);
        assert(a != b);
        if tokens[i].contract_address == tokens[j].contract_address {
            assert(entries[a].contract_address == entries[b].contract_address);
            if a < b {
                assert(entries[a].contract_address != entries[b].contract_address);
            } else {
                assert(entries[b].contract_address != entries[a].contract_address);
            }
        }
    }
}

/// A history that never shows one contract address under two symbols is one in which the
/// first entries of different symbols differ in contract address.
pub proof fn lemma_address_names_symbol_suffices(entries: Seq<EntryView>)
    requires
        address_names_symbol(entries),
    ensures
        first_entries_differ(entries),
{
    assert forall|i: int, j: int|
        0 <= i < j < entries.len() && #[trigger] is_first_of_symbol(entries, i)
            && #[trigger] is_first_of_symbol(entries, j) && entries[i].contract_address
            is Text implies entries[i].contract_address != entries[j].contract_address by {
        if entries[i].contract_address == entries[j].contract_address {
            assert(entries[i].symbol == entries[j].symbol);
        }
    }
}

} // verus!
