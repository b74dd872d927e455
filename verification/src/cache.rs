//! What earlier scans learnt about contracts: which provider resolved a contract address to
//! which identifier, and a contract's decimal exponent.
//!
//! Entries are keyed by contract address. The first entry of an address stands: an entry is
//! never replaced and never dropped. Keeping the entries between scans is the caller's.

use vstd::prelude::*;
use crate::text::same_text;

verus! {

/// The identifier that a provider resolved a contract address to.
#[derive(Clone, Debug, PartialEq, Eq)]
pub struct KnownIdentifier {
    pub contract_address: String,
    /// The place in the chain of the provider that resolved the address.
    pub provider: usize,
    pub token_id: String,
}

/// A `KnownIdentifier` over mathematical values.
pub struct KnownIdentifierView {
    pub contract_address: Seq<char>,
    pub provider: nat,
    pub token_id: Seq<char>,
}

impl View for KnownIdentifier {
    type V = KnownIdentifierView;

    open spec fn view(&self) -> KnownIdentifierView {
        KnownIdentifierView {
            contract_address: self.contract_address@,
            provider: self.provider as nat,
            token_id: self.token_id@,
        }
    }
}

/// The decimal exponent of a contract.
#[derive(Clone, Debug, PartialEq, Eq)]
pub struct KnownDecimals {
    pub contract_address: String,
    pub decimals: u32,
}

/// A `KnownDecimals` over mathematical values.
pub struct KnownDecimalsView {
    pub contract_address: Seq<char>,
    pub decimals: u32,
}

impl View for KnownDecimals {
    type V = KnownDecimalsView;

    open spec fn view(&self) -> KnownDecimalsView {
        KnownDecimalsView { contract_address: self.contract_address@, decimals: self.decimals }
    }
}

/// What is known about contracts.
#[derive(Clone, Debug, PartialEq, Eq)]
pub struct Cache {
    pub identifiers: Vec<KnownIdentifier>,
    pub decimals: Vec<KnownDecimals>,
}

/// A `Cache` over mathematical values.
pub struct CacheView {
    pub identifiers: Seq<KnownIdentifierView>,
    pub decimals: Seq<KnownDecimalsView>,
}

/// The views of a list of known identifiers.
pub open spec fn identifier_views(entries: Seq<KnownIdentifier>) -> Seq<KnownIdentifierView> {
    Seq::new(entries.len(), |i: int| entries[i]@)
}

/// The views of a list of known exponents.
pub open spec fn decimals_views(entries: Seq<KnownDecimals>) -> Seq<KnownDecimalsView> {
    Seq::new(entries.len(), |i: int| entries[i]@)
}

impl View for Cache {
    type V = CacheView;

    open spec fn view(&self) -> CacheView {
        CacheView {
            identifiers: identifier_views(self.identifiers@),
            decimals: decimals_views(self.decimals@),
        }
    }
}

/// The place of the first identifier entry of a contract address, counted from `from`.
pub open spec fn identifier_place(
    entries: Seq<KnownIdentifierView>,
    contract_address: Seq<char>,
    from: int,
) -> Option<int>
    decreases entries.len() - from,
{
    if from < 0 || from >= entries.len() {
        None
    } else if entries[from].contract_address == contract_address {
        Some(from)
    } else {
        identifier_place(entries, contract_address, from + 1)
    }
}

/// The place of the first exponent entry of a contract address, counted from `from`.
pub open spec fn decimals_place(
    entries: Seq<KnownDecimalsView>,
    contract_address: Seq<char>,
    from: int,
) -> Option<int>
    decreases entries.len() - from,
{
    if from < 0 || from >= entries.len() {
        None
    } else if entries[from].contract_address == contract_address {
        Some(from)
    } else {
        decimals_place(entries, contract_address, from + 1)
    }
}

/// The identifier that is known for a contract address: that of its first entry.
pub open spec fn known_identifier(cache: CacheView, contract_address: Seq<char>) -> Option<
    KnownIdentifierView,
> {
    match identifier_place(cache.identifiers, contract_address, 0) {
        Some(place) => Some(cache.identifiers[place]),
        None => None,
    }
}

/// The exponent that is known for a contract address: that of its first entry.
pub open spec fn known_decimals(cache: CacheView, contract_address: Seq<char>) -> Option<u32> {
    match decimals_place(cache.decimals, contract_address, 0) {
        Some(place) => Some(cache.decimals[place].decimals),
        None => None,
    }
}

/// The cache with an identifier put in. What is known already stands.
pub open spec fn with_identifier(
    cache: CacheView,
    contract_address: Seq<char>,
    provider: nat,
    token_id: Seq<char>,
) -> CacheView {
    if known_identifier(cache, contract_address) is Some {
        cache
    } else {
        CacheView {
            identifiers: cache.identifiers.push(
                KnownIdentifierView { contract_address, provider, token_id },
            ),
            ..cache
        }
    }
}

/// The cache with an exponent put in. What is known already stands.
pub open spec fn with_decimals(
    cache: CacheView,
    contract_address: Seq<char>,
    decimals: u32,
) -> CacheView {
    if known_decimals(cache, contract_address) is Some {
        cache
    } else {
        CacheView {
            decimals: cache.decimals.push(KnownDecimalsView { contract_address, decimals }),
            ..cache
        }
    }
}

/// A cache that knows nothing.
pub open spec fn empty_cache() -> CacheView {
    CacheView { identifiers: Seq::empty(), decimals: Seq::empty() }
}

/// A place that a search gives is the first place of the address at or after `from`.
pub proof fn lemma_identifier_place(
    entries: Seq<KnownIdentifierView>,
    contract_address: Seq<char>,
    from: int,
)
    requires
        0 <= from <= entries.len(),
    ensures
        match identifier_place(entries, contract_address, from) {
            Some(place) => from <= place < entries.len() && entries[place].contract_address
                == contract_address && forall|i: int|
                from <= i < place ==> (#[trigger] entries[i]).contract_address != contract_address,
            None => forall|i: int|
                from <= i < entries.len() ==> (#[trigger] entries[i]).contract_address
                    != contract_address,
        },
    decreases entries.len() - from,
{
    if from < entries.len() && entries[from].contract_address != contract_address {
        lemma_identifier_place(entries, contract_address, from + 1);
    }
}

/// A place that a search gives is the first place of the address at or after `from`.
pub proof fn lemma_decimals_place(
    entries: Seq<KnownDecimalsView>,
    contract_address: Seq<char>,
    from: int,
)
    requires
        0 <= from <= entries.len(),
    ensures
        match decimals_place(entries, contract_address, from) {
            Some(place) => from <= place < entries.len() && entries[place].contract_address
                == contract_address && forall|i: int|
                from <= i < place ==> (#[trigger] entries[i]).contract_address != contract_address,
            None => forall|i: int|
                from <= i < entries.len() ==> (#[trigger] entries[i]).contract_address
                    != contract_address,
        },
    decreases entries.len() - from,
{
    if from < entries.len() && entries[from].contract_address != contract_address {
        lemma_decimals_place(entries, contract_address, from + 1);
    }
}

/// One more entry at the end changes no search that found something, and gives a search that
/// found nothing the new entry where the address is the same.
proof fn lemma_identifier_place_after_push(
    entries: Seq<KnownIdentifierView>,
    entry: KnownIdentifierView,
    contract_address: Seq<char>,
    from: int,
)
    requires
        0 <= from <= entries.len(),
    ensures
        identifier_place(entries.push(entry), contract_address, from) == (match identifier_place(
            entries,
            contract_address,
            from,
        ) {
            Some(place) => Some(place),
            None => if entry.contract_address == contract_address {
                Some(entries.len() as int)
            } else {
                None
            },
        }),
    decreases entries.len() - from,
{
    let longer = entries.push(entry);
    if from < entries.len() {
        assert(longer[from] == entries[from]);
        if entries[from].contract_address != contract_address {
            lemma_identifier_place_after_push(entries, entry, contract_address, from + 1);
        }
    } else {
        assert(longer[from] == entry);
        if entry.contract_address != contract_address {
            assert(identifier_place(longer, contract_address, from + 1) is None);
        }
    }
}

proof fn lemma_decimals_place_after_push(
    entries: Seq<KnownDecimalsView>,
    entry: KnownDecimalsView,
    contract_address: Seq<char>,
    from: int,
)
    requires
        0 <= from <= entries.len(),
    ensures
        decimals_place(entries.push(entry), contract_address, from) == (match decimals_place(
            entries,
            contract_address,
            from,
        ) {
            Some(place) => Some(place),
            None => if entry.contract_address == contract_address {
                Some(entries.len() as int)
            } else {
                None
            },
        }),
    decreases entries.len() - from,
{
    let longer = entries.push(entry);
    if from < entries.len() {
        assert(longer[from] == entries[from]);
        if entries[from].contract_address != contract_address {
            lemma_decimals_place_after_push(entries, entry, contract_address, from + 1);
        }
    } else {
        assert(longer[from] == entry);
        if entry.contract_address != contract_address {
            assert(decimals_place(longer, contract_address, from + 1) is None);
        }
    }
}

/// Entries are never replaced: what is known of an address before a put is known after it,
/// whatever is put. What was not known of the address that is put is known after it, as put.
/// Nothing else changes.
pub proof fn lemma_identifier_put(
    cache: CacheView,
    contract_address: Seq<char>,
    provider: nat,
    token_id: Seq<char>,
    other: Seq<char>,
)
    ensures
        known_identifier(cache, other) is Some ==> known_identifier(
            with_identifier(cache, contract_address, provider, token_id),
            other,
        ) == known_identifier(cache, other),
        known_identifier(cache, contract_address) is None ==> known_identifier(
            with_identifier(cache, contract_address, provider, token_id),
            contract_address,
        ) == Some(KnownIdentifierView { contract_address, provider, token_id }),
        other != contract_address ==> known_identifier(
            with_identifier(cache, contract_address, provider, token_id),
            other,
        ) == known_identifier(cache, other),
        with_identifier(cache, contract_address, provider, token_id).decimals == cache.decimals,
{
    let entry = KnownIdentifierView { contract_address, provider, token_id };
    lemma_identifier_place_after_push(cache.identifiers, entry, other, 0);
    lemma_identifier_place_after_push(cache.identifiers, entry, contract_address, 0);
    lemma_identifier_place(cache.identifiers, other, 0);
    lemma_identifier_place(cache.identifiers, contract_address, 0);
}

/// Entries are never replaced: what is known of an address before a put is known after it,
/// whatever is put. What was not known of the address that is put is known after it, as put.
/// Nothing else changes.
pub proof fn lemma_decimals_put(
    cache: CacheView,
    contract_address: Seq<char>,
    decimals: u32,
    other: Seq<char>,
)
    ensures
        known_decimals(cache, other) is Some ==> known_decimals(
            with_decimals(cache, contract_address, decimals),
            other,
        ) == known_decimals(cache, other),
        known_decimals(cache, contract_address) is None ==> known_decimals(
            with_decimals(cache, contract_address, decimals),
            contract_address,
        ) == Some(decimals),
        other != contract_address ==> known_decimals(
            with_decimals(cache, contract_address, decimals),
            other,
        ) == known_decimals(cache, other),
        with_decimals(cache, contract_address, decimals).identifiers == cache.identifiers,
{
    let entry = KnownDecimalsView { contract_address, decimals };
    lemma_decimals_place_after_push(cache.decimals, entry, other, 0);
    lemma_decimals_place_after_push(cache.decimals, entry, contract_address, 0);
    lemma_decimals_place(cache.decimals, other, 0);
    lemma_decimals_place(cache.decimals, contract_address, 0);
}

impl Cache {
    /// A cache that knows nothing.
    pub fn new() -> (cache: Cache)
        ensures
            cache@ == empty_cache(),
    {
        let cache = Cache { identifiers: Vec::new(), decimals: Vec::new() };
        assert(cache@.identifiers =~= Seq::<KnownIdentifierView>::empty());
        assert(cache@.decimals =~= Seq::<KnownDecimalsView>::empty());
        cache
    }

    /// The identifier that is known for a contract address, with the place in the chain of the
    /// provider that resolved it.
    pub fn identifier(&self, contract_address: &str) -> (r: Option<&KnownIdentifier>)
        ensures
            match r {
                Some(known) => known_identifier(self@, contract_address@) == Some(known@),
                None => known_identifier(self@, contract_address@) is None,
            },
    {
        let mut i: usize = 0;
        while i < self.identifiers.len()
            invariant
                i <= self.identifiers.len(),
                identifier_place(self@.identifiers, contract_address@, 0) == identifier_place(
                    self@.identifiers,
                    contract_address@,
                    i as int,
                ),
            decreases self.identifiers.len() - i,
        {
            let entry = &self.identifiers[i];
            assert(self@.identifiers[i as int] == entry@);
            if same_text(entry.contract_address.as_str(), contract_address) {
                return Some(entry);
            }
            i += 1;
        }
        None
    }

    /// The decimal exponent that is known for a contract address.
    pub fn decimals(&self, contract_address: &str) -> (r: Option<u32>)
        ensures
            r == known_decimals(self@, contract_address@),
    {
        let mut i: usize = 0;
        while i < self.decimals.len()
            invariant
                i <= self.decimals.len(),
                decimals_place(self@.decimals, contract_address@, 0) == decimals_place(
                    self@.decimals,
                    contract_address@,
                    i as int,
                ),
            decreases self.decimals.len() - i,
        {
            let entry = &self.decimals[i];
            assert(self@.decimals[i as int] == entry@);
            if same_text(entry.contract_address.as_str(), contract_address) {
                return Some(entry.decimals);
            }
            i += 1;
        }
        None
    }

    /// Puts in the identifier that a provider resolved a contract address to, unless one is
    /// known for the address already.
    pub fn put_identifier(&mut self, contract_address: &str, provider: usize, token_id: &str)
        ensures
            final(self)@ == with_identifier(
                old(self)@,
                contract_address@,
                provider as nat,
                token_id@,
            ),
    {
        if self.identifier(contract_address).is_none() {
            let ghost before = self@;
            let entry = KnownIdentifier {
                contract_address: contract_address.to_owned(),
                provider,
                token_id: token_id.to_owned(),
            };
            self.identifiers.push(entry);
            assert(self@.identifiers =~= before.identifiers.push(entry@));
            assert(self@.decimals =~= before.decimals);
        }
    }

    /// Puts in the decimal exponent of a contract, unless one is known for it already.
    pub fn put_decimals(&mut self, contract_address: &str, decimals: u32)
        ensures
            final(self)@ == with_decimals(old(self)@, contract_address@, decimals),
    {
        if self.decimals(contract_address).is_none() {
            let ghost before = self@;
            let entry = KnownDecimals { contract_address: contract_address.to_owned(), decimals };
            self.decimals.push(entry);
            assert(self@.decimals =~= before.decimals.push(entry@));
            assert(self@.identifiers =~= before.identifiers);
        }
    }
}

} // verus!
