//! The snapshot: which holdings count, and what they add up to.
//!
//! Worth is counted in whole units, a billion to one of the quote currency, so that sums are
//! exact. The caller values each holding (quantity times price) and hands the worth in.

use vstd::prelude::*;

verus! {

/// How many units make one of a quote currency.
pub const UNITS_PER_ONE: u64 = 1_000_000_000;

/// The materiality threshold: a hundredth of one of the primary quote currency.
pub const MATERIALITY: u64 = 10_000_000;

/// What a holding is worth in the two quote currencies, in units.
#[derive(Clone, Copy, Debug, PartialEq, Eq, Structural)]
pub struct Valuation {
    /// Worth in the primary quote currency, which decides materiality.
    pub usd: u64,
    /// Worth in the native currency.
    pub eth: u64,
}

/// The holdings that count and what they add up to with the native holding.
#[derive(Debug, PartialEq, Eq)]
pub struct Summary {
    /// The places of the holdings that count, in order.
    pub rows: Vec<usize>,
    /// The native holding plus every holding that counts, in the primary quote currency.
    pub usd_total: u128,
    /// The same in the native currency.
    pub eth_total: u128,
}

/// Whether a holding counts: its worth in the primary quote currency reaches the threshold.
pub open spec fn is_material(valuation: Valuation) -> bool {
    valuation.usd >= MATERIALITY
}

/// The places of the holdings that count, in order.
pub open spec fn material_rows(tokens: Seq<Valuation>) -> Seq<int>
    decreases tokens.len(),
{
    if tokens.len() == 0 {
        Seq::empty()
    } else if is_material(tokens.last()) {
        material_rows(tokens.drop_last()).push(tokens.len() - 1)
    } else {
        material_rows(tokens.drop_last())
    }
}

/// The worth in the primary quote currency of the holdings at the given places.
pub open spec fn usd_at(tokens: Seq<Valuation>, rows: Seq<int>) -> nat
    decreases rows.len(),
{
    if rows.len() == 0 {
        0
    } else {
        usd_at(tokens, rows.drop_last()) + tokens[rows.last()].usd as nat
    }
}

/// The worth in the native currency of the holdings at the given places.
pub open spec fn eth_at(tokens: Seq<Valuation>, rows: Seq<int>) -> nat
    decreases rows.len(),
{
    if rows.len() == 0 {
        0
    } else {
        eth_at(tokens, rows.drop_last()) + tokens[rows.last()].eth as nat
    }
}

/// The worth in the primary quote currency of all holdings that count.
pub open spec fn material_usd(tokens: Seq<Valuation>) -> nat
    decreases tokens.len(),
{
    if tokens.len() == 0 {
        0
    } else if is_material(tokens.last()) {
        material_usd(tokens.drop_last()) + tokens.last().usd as nat
    } else {
        material_usd(tokens.drop_last())
    }
}

/// The worth in the native currency of all holdings that count.
pub open spec fn material_eth(tokens: Seq<Valuation>) -> nat
    decreases tokens.len(),
{
    if tokens.len() == 0 {
        0
    } else if is_material(tokens.last()) {
        material_eth(tokens.drop_last()) + tokens.last().eth as nat
    } else {
        material_eth(tokens.drop_last())
    }
}

/// The places in a list of rows as mathematical integers.
pub open spec fn row_places(rows: Seq<usize>) -> Seq<int> {
    Seq::new(rows.len(), |i: int| rows[i] as int)
}

/// Sums over rows see only the holdings at those rows: a longer list of holdings with the same
/// holdings at the rows sums to the same.
proof fn lemma_sums_at_extend(tokens: Seq<Valuation>, longer: Seq<Valuation>, rows: Seq<int>)
    requires
        tokens.len() <= longer.len(),
        forall|i: int| 0 <= i < tokens.len() ==> #[trigger] longer[i] == tokens[i],
        forall|i: int| 0 <= i < rows.len() ==> 0 <= #[trigger] rows[i] < tokens.len(),
    ensures
        usd_at(longer, rows) == usd_at(tokens, rows),
        eth_at(longer, rows) == eth_at(tokens, rows),
    decreases rows.len(),
{
    if rows.len() > 0 {
        let earlier = rows.drop_last();
        assert forall|i: int| 0 <= i < earlier.len() implies 0 <= #[trigger] earlier[i]
            < tokens.len() by {
            assert(earlier[i] == rows[i]);
        }
        lemma_sums_at_extend(tokens, longer, earlier);
        assert(0 <= rows[rows.len() - 1] < tokens.len());
    }
}

/// The rows of the holdings that count are places in the list, in rising order, and every one
/// of them counts.
pub proof fn lemma_rows_are_material(tokens: Seq<Valuation>)
    ensures
        material_rows(tokens).len() <= tokens.len(),
        forall|i: int|
            0 <= i < material_rows(tokens).len() ==> 0 <= #[trigger] material_rows(tokens)[i]
                < tokens.len() && is_material(tokens[material_rows(tokens)[i]]),
        forall|i: int, j: int|
            0 <= i < j < material_rows(tokens).len() ==> material_rows(tokens)[i] < material_rows(
                tokens,
            )[j],
    decreases tokens.len(),
{
    if tokens.len() > 0 {
        let shorter = tokens.drop_last();
        lemma_rows_are_material(shorter);
        let rows = material_rows(tokens);
        let earlier = material_rows(shorter);
        assert forall|i: int| 0 <= i < rows.len() implies 0 <= #[trigger] rows[i] < tokens.len()
            && is_material(tokens[rows[i]]) by {
            if i < earlier.len() {
                assert(rows[i] == earlier[i]);
                assert(tokens[earlier[i]] == shorter[earlier[i]]);
            }
        }
        assert forall|i: int, j: int| 0 <= i < j < rows.len() implies rows[i] < rows[j] by {
            if j < earlier.len() {
                assert(rows[i] == earlier[i]);
                assert(rows[j] == earlier[j]);
            } else {
                assert(rows[i] == earlier[i]);
            }
        }
    }
}

/// Every holding that counts has a row, and no holding below the threshold has one.
pub proof fn lemma_rows_hold_what_counts(tokens: Seq<Valuation>, place: int)
    requires
        0 <= place < tokens.len(),
    ensures
        is_material(tokens[place]) <==> material_rows(tokens).contains(place),
    decreases tokens.len(),
{
    let shorter = tokens.drop_last();
    let rows = material_rows(tokens);
    let earlier = material_rows(shorter);
    lemma_rows_are_material(shorter);
    if place < tokens.len() - 1 {
        lemma_rows_hold_what_counts(shorter, place);
        assert(shorter[place] == tokens[place]);
        if earlier.contains(place) {
            let i = choose|i: int| 0 <= i < earlier.len() && earlier[i] == place;
            assert(rows[i] == place);
        }
        if rows.contains(place) {
            let i = choose|i: int| 0 <= i < rows.len() && rows[i] == place;
            assert(earlier[i] == place);
        }
    } else {
        if is_material(tokens[place]) {
            assert(rows[rows.len() - 1] == place);
        } else {
            if rows.contains(place) {
                let i = choose|i: int| 0 <= i < rows.len() && rows[i] == place;
                assert(earlier[i] < shorter.len());
            }
        }
    }
}

/// Sum of parts: what the rows of a snapshot add up to is what all holdings that count add up
/// to, in either quote currency.
pub proof fn lemma_rows_sum_to_material(tokens: Seq<Valuation>)
    ensures
        usd_at(tokens, material_rows(tokens)) == material_usd(tokens),
        eth_at(tokens, material_rows(tokens)) == material_eth(tokens),
    decreases tokens.len(),
{
    if tokens.len() > 0 {
        let shorter = tokens.drop_last();
        lemma_rows_sum_to_material(shorter);
        lemma_rows_are_material(shorter);
        lemma_sums_at_extend(shorter, tokens, material_rows(shorter));
        if is_material(tokens.last()) {
            assert(material_rows(tokens).drop_last() =~= material_rows(shorter));
        }
    }
}

/// A holding below the threshold changes neither the rows nor the totals of a snapshot.
pub proof fn lemma_immaterial_is_left_out(tokens: Seq<Valuation>, extra: Valuation)
    requires
        !is_material(extra),
    ensures
        material_rows(tokens.push(extra)) == material_rows(tokens),
        material_usd(tokens.push(extra)) == material_usd(tokens),
        material_eth(tokens.push(extra)) == material_eth(tokens),
{
    assert(tokens.push(extra).drop_last() =~= tokens);
}

/// A holding at or above the threshold adds its worth to both totals and takes the last row.
pub proof fn lemma_material_is_counted(tokens: Seq<Valuation>, extra: Valuation)
    requires
        is_material(extra),
    ensures
        material_rows(tokens.push(extra)) == material_rows(tokens).push(tokens.len() as int),
        material_usd(tokens.push(extra)) == material_usd(tokens) + extra.usd,
        material_eth(tokens.push(extra)) == material_eth(tokens) + extra.eth,
{
    assert(tokens.push(extra).drop_last() =~= tokens);
}

/// What counts never adds up to more than every holding at its largest.
proof fn lemma_material_bounded(tokens: Seq<Valuation>)
    ensures
        material_usd(tokens) <= tokens.len() * u64::MAX,
        material_eth(tokens) <= tokens.len() * u64::MAX,
    decreases tokens.len(),
{
    if tokens.len() > 0 {
        lemma_material_bounded(tokens.drop_last());
        assert((tokens.len() - 1) * u64::MAX + u64::MAX == tokens.len() * u64::MAX)
            by (nonlinear_arith);
    }
}

/// Whether a holding counts towards the totals and is shown.
pub fn counts(valuation: &Valuation) -> (r: bool)
    ensures
        r == is_material(*valuation),
{
    valuation.usd >= MATERIALITY
}

/// Sums up a snapshot. The native holding always counts. A token holding counts where its
/// worth in the primary quote currency reaches the threshold; the others are left out of the
/// rows and of both totals, and are no failure.
pub fn summarize(native: &Valuation, tokens: &Vec<Valuation>) -> (summary: Summary)
    ensures
        row_places(summary.rows@) == material_rows(tokens@),
        summary.usd_total == native.usd + usd_at(tokens@, material_rows(tokens@)),
        summary.eth_total == native.eth + eth_at(tokens@, material_rows(tokens@)),
{
    let mut rows: Vec<usize> = Vec::new();
    let mut usd_total: u128 = native.usd as u128;
    let mut eth_total: u128 = native.eth as u128;
    let mut i: usize = 0;
    assert(tokens@.take(0) =~= Seq::<Valuation>::empty());
    assert(row_places(rows@) =~= Seq::<int>::empty());
    while i < tokens.len()
        invariant
            i <= tokens.len(),
            row_places(rows@) == material_rows(tokens@.take(i as int)),
            usd_total == native.usd + material_usd(tokens@.take(i as int)),
            eth_total == native.eth + material_eth(tokens@.take(i as int)),
        decreases tokens.len() - i,
    {
        let ghost seen = tokens@.take(i as int);
        let ghost next = tokens@.take(i + 1);
        proof {
            assert(next.drop_last() =~= seen);
            assert(next.last() == tokens@[i as int]);
            lemma_material_bounded(seen);
            assert(seen.len() * u64::MAX + 2 * u64::MAX <= u128::MAX) by (nonlinear_arith)
                requires
                    seen.len() <= usize::MAX,
            ;
        }
        if counts(&tokens[i]) {
            let ghost places = row_places(rows@);
            rows.push(i);
            assert(row_places(rows@) =~= places.push(i as int));
            usd_total = usd_total + tokens[i].usd as u128;
            eth_total = eth_total + tokens[i].eth as u128;
        }
        i += 1;
    }
    proof {
        assert(tokens@.take(i as int) =~= tokens@);
        lemma_rows_sum_to_material(tokens@);
    }
    Summary { rows, usd_total, eth_total }
}

} // verus!
