use vstd::prelude::*;

verus! {

/// The number of display indices that are probed, `0..DISPLAY_SLOTS`.
pub const DISPLAY_SLOTS: usize = 32;

/// A numbered display endpoint, guarded by the lock file `/tmp/.X<N>-lock`.
#[derive(PartialEq, Eq, Structural, Clone, Copy, Debug)]
pub struct XDisplay {
    pub number: u8,
}

/// The first index at or after `i`, below `DISPLAY_SLOTS` and within the
/// probed table, whose lock is absent.
pub open spec fn first_free_from(locked: Seq<bool>, i: nat) -> Option<u8>
    decreases DISPLAY_SLOTS - i,
{
    if i >= DISPLAY_SLOTS || i >= locked.len() {
        None
    } else if !locked[i as int] {
        Some(i as u8)
    } else {
        first_free_from(locked, i + 1)
    }
}

/// The display index that allocation picks from a table of probed locks
/// (`locked[i]` tells whether the lock of display `i` exists).
pub open spec fn first_free_display(locked: Seq<bool>) -> Option<u8> {
    first_free_from(locked, 0)
}

/// The characters of the decimal notation of `n`.
pub open spec fn decimal(n: nat) -> Seq<char>
    decreases n,
{
    if n < 10 {
        seq![((n + 48) as u8) as char]
    } else {
        decimal(n / 10).push((((n % 10) + 48) as u8) as char)
    }
}

/// Relies on the `Display` impl of `u32` (through `to_string`): the decimal
/// digits of the number, without sign or leading zeros.
#[verifier::external_body]
pub(crate) fn decimal_text(n: u32) -> (r: String)
    ensures
        r@ == decimal(n as nat),
{
    n.to_string()
}

impl XDisplay {
    /// Probes the slots in order and returns the first one whose lock is absent.
    pub fn find_free_xdisplay(locked: &[bool]) -> (r: Option<u8>)
        ensures
            r == first_free_display(locked@),
    {
        let mut i: usize = 0;
        while i < DISPLAY_SLOTS && i < locked.len()
            invariant
                i <= DISPLAY_SLOTS,
                first_free_from(locked@, i as nat) == first_free_display(locked@),
            decreases DISPLAY_SLOTS - i,
        {
            if !locked[i] {
                return Some(i as u8);
            }
            i = i + 1;
        }
        None
    }

    /// The display name, `:<N>`.
    pub fn name(&self) -> (r: String)
        ensures
            r@ == ":"@ + decimal(self.number as nat),
    {
        let digits = decimal_text(self.number as u32);
        let r = String::from_str(":");
        r.concat(digits.as_str())
    }

    /// The path of the lock file, `/tmp/.X<N>-lock`.
    pub fn lock_path(&self) -> (r: String)
        ensures
            r@ == "/tmp/.X"@ + decimal(self.number as nat) + "-lock"@,
    {
        let digits = decimal_text(self.number as u32);
        let r = String::from_str("/tmp/.X");
        let r = r.concat(digits.as_str());
        r.concat("-lock")
    }
}

/// Allocation depends only on the locks up to the slot it picks: with no new
/// lock among those slots (no server started in between), probing again
/// returns the same index.
pub proof fn lemma_allocation_repeatable(first: Seq<bool>, second: Seq<bool>, d: u8)
    requires
        first_free_display(first) == Some(d),
        second.len() == first.len(),
        forall|j: int| 0 <= j <= d ==> first[j] == second[j],
    ensures
        first_free_display(second) == Some(d),
{
    lemma_first_free_from_agrees(first, second, 0, d);
}

proof fn lemma_first_free_from_agrees(first: Seq<bool>, second: Seq<bool>, i: nat, d: u8)
    requires
        i <= d,
        first_free_from(first, i) == Some(d),
        second.len() == first.len(),
        forall|j: int| 0 <= j <= d ==> first[j] == second[j],
    ensures
        first_free_from(second, i) == Some(d),
    decreases DISPLAY_SLOTS - i,
{
    if i < DISPLAY_SLOTS && i < first.len() && first[i as int] {
        lemma_first_free_from_bound(first, i + 1, d);
        lemma_first_free_from_agrees(first, second, i + 1, d);
    }
}

proof fn lemma_first_free_from_bound(locked: Seq<bool>, i: nat, d: u8)
    requires
        first_free_from(locked, i) == Some(d),
    ensures
        i <= d,
        (d as int) < locked.len(),
    decreases DISPLAY_SLOTS - i,
{
    if i < DISPLAY_SLOTS && i < locked.len() && locked[i as int] {
        lemma_first_free_from_bound(locked, i + 1, d);
    }
}

} // verus!
