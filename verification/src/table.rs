//! Acceptance-probability lookup for the Metropolis test. Each entry is an
//! unsigned 64-bit threshold standing for `floor(2^64 * exp(-2*beta*en))`,
//! saturated at `u64::MAX`, indexed by `4 + en` for the discretized local
//! field `en` in `-4..=4`. A flip is accepted iff a uniform 64-bit draw is
//! strictly below the entry, which turns the floating-point acceptance test
//! into one integer comparison. The thresholds themselves are computed by the
//! caller (they are a function of the temperature alone) and validated here.

use vstd::prelude::*;

verus! {

/// Number of discretized local-field values: `en` ranges over `-4..=4`.
pub const TABLE_LEN: usize = 9;

/// Index of the local field `en = 0`: entries at this index and below stand
/// for flips that do not raise the energy.
pub const ZERO_FIELD_INDEX: usize = 4;

/// What a well-formed sequence of acceptance thresholds looks like: one entry
/// per discretized local field, non-increasing as the local field grows (a
/// flip that lowers the energy more is never less likely to be accepted), and
/// saturated at `u64::MAX` from the zero-field entry down (a flip that does
/// not raise the energy is always accepted).
pub open spec fn valid_entries(s: Seq<u64>) -> bool {
    &&& s.len() == TABLE_LEN
    &&& forall|k: int| 1 <= k < TABLE_LEN ==> s[k - 1] >= #[trigger] s[k]
    &&& s[ZERO_FIELD_INDEX as int] == u64::MAX
}

/// The precomputed acceptance thresholds for one temperature.
pub struct ProbabilityTable {
    pub entries: Vec<u64>,
}

impl View for ProbabilityTable {
    type V = Seq<u64>;

    open spec fn view(&self) -> Seq<u64> {
        self.entries@
    }
}

impl ProbabilityTable {
    /// The table invariant.
    pub open spec fn wf(&self) -> bool {
        valid_entries(self@)
    }

    /// Builds a table from precomputed thresholds, accepting exactly the
    /// well-formed ones.
    pub fn new(entries: Vec<u64>) -> (r: Option<ProbabilityTable>)
        ensures
            r is Some <==> valid_entries(entries@),
            r is Some ==> r.unwrap()@ == entries@ && r.unwrap().wf(),
    {
        if entries.len() != TABLE_LEN {
            return None;
        }
        if entries[ZERO_FIELD_INDEX] != u64::MAX {
            return None;
        }
        let mut k: usize = 1;
        while k < TABLE_LEN
            invariant
                1 <= k <= TABLE_LEN,
                entries@.len() == TABLE_LEN,
                entries@[ZERO_FIELD_INDEX as int] == u64::MAX,
                forall|m: int| 1 <= m < k ==> entries@[m - 1] >= #[trigger] entries@[m],
            decreases TABLE_LEN - k,
        {
            if entries[k - 1] < entries[k] {
                return None;
            }
            k = k + 1;
        }
        Some(ProbabilityTable { entries })
    }

    /// Looks up the acceptance threshold for one local-field index. The index
    /// is `4 + en`; callers can never leave `0..=8` since the local field of
    /// a site with four `±1` neighbors lies in `-4..=4`.
    pub fn probability_for(&self, index: usize) -> (p: u64)
        requires
            self.wf(),
            index < TABLE_LEN,
        ensures
            p == self@[index as int],
    {
        self.entries[index]
    }
}

/// Acceptance thresholds never increase with the local field: a flip that
/// lowers the energy more is accepted at least as often.
pub proof fn lemma_table_monotone(t: ProbabilityTable, a: int, b: int)
    requires
        t.wf(),
        0 <= a <= b < TABLE_LEN,
    ensures
        t@[a] >= t@[b],
    decreases b - a,
{
    if a < b {
        lemma_table_monotone(t, a, b - 1);
    }
}

/// A flip that does not raise the energy (local field at most zero) is always
/// accepted: its threshold is the maximum, above no 64-bit draw.
pub proof fn lemma_energy_drop_always_flips(t: ProbabilityTable, k: int)
    requires
        t.wf(),
        0 <= k <= ZERO_FIELD_INDEX,
    ensures
        t@[k] == u64::MAX,
{
    lemma_table_monotone(t, k, ZERO_FIELD_INDEX as int);
}

} // verus!
