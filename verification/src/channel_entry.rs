//! The numeric channel-entry state machine: remote-control digits accumulate
//! in a buffer of at most three, committed either when the third digit
//! arrives or when a three-second inactivity timeout finds the buffer
//! unchanged since it was armed.

use vstd::prelude::*;

verus! {

/// The number a digit buffer denotes, most significant digit first.
pub open spec fn buffer_value(digits: Seq<u8>) -> int
    decreases digits.len(),
{
    if digits.len() == 0 {
        0
    } else {
        buffer_value(digits.drop_last()) * 10 + digits.last()
    }
}

/// A buffer of at most three decimal digits denotes a number below 1000.
pub proof fn lemma_buffer_value_bound(digits: Seq<u8>)
    requires
        forall|i: int| 0 <= i < digits.len() ==> digits[i] < 10,
    ensures
        0 <= buffer_value(digits),
        digits.len() == 0 ==> buffer_value(digits) == 0,
        digits.len() <= 1 ==> buffer_value(digits) < 10,
        digits.len() <= 2 ==> buffer_value(digits) < 100,
        digits.len() <= 3 ==> buffer_value(digits) < 1000,
    decreases digits.len(),
{
    if digits.len() > 0 {
        assert forall|i: int| 0 <= i < digits.drop_last().len() implies digits.drop_last()[i]
            < 10 by {
            assert(digits.drop_last()[i] == digits[i]);
        }
        lemma_buffer_value_bound(digits.drop_last());
    }
}

/// The buffer left after a digit lands on `digits`: cleared when that digit
/// completes the three, otherwise grown by it.
pub open spec fn spec_buffer_after_digit(digits: Seq<u8>, d: u8) -> Seq<u8> {
    if digits.len() + 1 >= 3 {
        Seq::<u8>::empty()
    } else {
        digits.push(d)
    }
}

/// The number committed when a digit lands on `digits`, if that digit
/// completes the three.
pub open spec fn spec_commit_after_digit(digits: Seq<u8>, d: u8) -> Option<int> {
    if digits.len() + 1 >= 3 {
        Some(buffer_value(digits.push(d)))
    } else {
        None
    }
}

/// What the inactivity timeout does when it fires over buffer `digits`,
/// having been armed when the buffer was `snapshot`: nothing unless the
/// buffer is still exactly the armed one.
pub open spec fn spec_commit_on_timeout(digits: Seq<u8>, snapshot: Seq<u8>) -> Option<int> {
    if digits == snapshot {
        Some(buffer_value(snapshot))
    } else {
        None
    }
}

/// What a digit keystroke asks the surrounding event loop to do next.
pub enum DigitOutcome {
    /// The third digit arrived: the buffered number commits at once.
    Committed { number: u16 },
    /// Fewer than three digits so far: show the entry surface and arm a
    /// three-second timeout carrying this snapshot of the buffer.
    ArmTimer { snapshot: Vec<u8> },
}

/// The per-coordinator digit buffer and its entry surface. The surface shows
/// a progress indicator that empties as the buffer fills: the fraction
/// `remaining / capacity` reported by [`ChannelEntry::progress`].
pub struct ChannelEntry {
    pub digits: Vec<u8>,
    pub visible: bool,
}

impl ChannelEntry {
    /// Between events the buffer holds at most two decimal digits: a third
    /// commits and clears it before control returns.
    pub open spec fn wf(self) -> bool {
        &&& self.digits@.len() <= 2
        &&& forall|i: int| 0 <= i < self.digits@.len() ==> self.digits@[i] < 10
    }

    pub open spec fn cleared(self) -> bool {
        self.digits@.len() == 0 && !self.visible
    }

    pub fn new() -> (r: ChannelEntry)
        ensures
            r.wf(),
            r.cleared(),
    {
        ChannelEntry { digits: Vec::new(), visible: false }
    }

    /// The progress indicator as `(remaining, capacity)`: `(3, 3)` for an
    /// empty buffer down to `(1, 3)` for a buffer one digit short.
    pub fn progress(&self) -> (r: (u32, u32))
        requires
            self.wf(),
        ensures
            r.0 == 3 - self.digits@.len(),
            r.1 == 3,
    {
        (3 - self.digits.len() as u32, 3)
    }

    /// A digit landed. Shows the entry surface; on the third digit resolves
    /// the buffer to its number, clears it and hides the surface again,
    /// otherwise asks for a timeout armed on the grown buffer.
    pub fn push_digit(&mut self, d: u8) -> (r: DigitOutcome)
        requires
            old(self).wf(),
            d < 10,
        ensures
            final(self).wf(),
            final(self).digits@ == spec_buffer_after_digit(old(self).digits@, d),
            match r {
                DigitOutcome::Committed { number } => {
                    &&& spec_commit_after_digit(old(self).digits@, d) == Some(number as int)
                    &&& final(self).cleared()
                },
                DigitOutcome::ArmTimer { snapshot } => {
                    &&& spec_commit_after_digit(old(self).digits@, d) is None
                    &&& snapshot@ == old(self).digits@.push(d)
                    &&& final(self).visible
                },
            },
    {
        self.digits.push(d);
        self.visible = true;
        if self.digits.len() >= 3 {
            let number = self.buffered_number();
            self.digits = Vec::new();
            self.visible = false;
            DigitOutcome::Committed { number }
        } else {
            let snapshot = self.clone_digits();
            DigitOutcome::ArmTimer { snapshot }
        }
    }

    /// The inactivity timeout fired, armed when the buffer was `snapshot`.
    /// Commits the buffered number only if no later digit has changed the
    /// buffer; a superseded timeout is a no-op.
    pub fn on_timeout(&mut self, snapshot: &Vec<u8>) -> (r: Option<u16>)
        requires
            old(self).wf(),
            snapshot@.len() <= 3,
            forall|i: int| 0 <= i < snapshot@.len() ==> snapshot@[i] < 10,
        ensures
            final(self).wf(),
            match r {
                Some(number) => {
                    &&& spec_commit_on_timeout(old(self).digits@, snapshot@) == Some(number as int)
                    &&& final(self).cleared()
                },
                None => {
                    &&& spec_commit_on_timeout(old(self).digits@, snapshot@) is None
                    &&& *final(self) == *old(self)
                },
            },
    {
        if digits_eq(&self.digits, snapshot) {
            proof {
                assert(self.digits@ =~= snapshot@);
            }
            let number = self.buffered_number();
            self.digits = Vec::new();
            self.visible = false;
            Some(number)
        } else {
            proof {
                assert(self.digits@ != snapshot@);
            }
            None
        }
    }

    /// The number the buffer denotes right now.
    fn buffered_number(&self) -> (r: u16)
        requires
            self.digits@.len() <= 3,
            forall|i: int| 0 <= i < self.digits@.len() ==> self.digits@[i] < 10,
        ensures
            r as int == buffer_value(self.digits@),
    {
        let mut acc: u16 = 0;
        let mut i: usize = 0;
        while i < self.digits.len()
            invariant
                self.digits@.len() <= 3,
                forall|k: int| 0 <= k < self.digits@.len() ==> self.digits@[k] < 10,
                i <= self.digits@.len(),
                acc as int == buffer_value(self.digits@.take(i as int)),
                acc < 1000,
            decreases self.digits@.len() - i,
        {
            proof {
                let grown = self.digits@.take(i + 1);
                assert(grown.drop_last() =~= self.digits@.take(i as int));
                assert(grown.last() == self.digits@[i as int]);
                assert forall|k: int| 0 <= k < grown.len() implies grown[k] < 10 by {
                    assert(grown[k] == self.digits@[k]);
                }
                lemma_buffer_value_bound(grown);
            }
            acc = acc * 10 + self.digits[i] as u16;
            i += 1;
        }
        proof {
            assert(self.digits@.take(self.digits@.len() as int) =~= self.digits@);
        }
        acc
    }

    fn clone_digits(&self) -> (r: Vec<u8>)
        ensures
            r@ == self.digits@,
    {
        let mut r: Vec<u8> = Vec::new();
        let mut i: usize = 0;
        while i < self.digits.len()
            invariant
                i <= self.digits@.len(),
                r@ == self.digits@.take(i as int),
            decreases self.digits@.len() - i,
        {
            r.push(self.digits[i]);
            proof {
                assert(self.digits@.take(i + 1) =~= self.digits@.take(i as int).push(
                    self.digits@[i as int],
                ));
            }
            i += 1;
        }
        proof {
            assert(self.digits@.take(self.digits@.len() as int) =~= self.digits@);
        }
        r
    }
}

/// Exact comparison of two digit buffers.
fn digits_eq(a: &Vec<u8>, b: &Vec<u8>) -> (r: bool)
    ensures
        r == (a@ =~= b@),
{
    if a.len() != b.len() {
        return false;
    }
    let mut i: usize = 0;
    while i < a.len()
        invariant
            a@.len() == b@.len(),
            i <= a@.len(),
            forall|j: int| 0 <= j < i ==> a@[j] == b@[j],
        decreases a@.len() - i,
    {
        if a[i] != b[i] {
            return false;
        }
        i += 1;
    }
    true
}

/// Entering three digits in direct succession always commits at once: the
/// first two arm timeouts instead of committing, the third commits exactly
/// the three-digit number, and the buffer is left cleared, which resets the
/// progress indicator to its full fraction.
pub proof fn lemma_commit_by_length(d1: u8, d2: u8, d3: u8)
    requires
        d1 < 10,
        d2 < 10,
        d3 < 10,
    ensures
        spec_commit_after_digit(Seq::<u8>::empty(), d1) is None,
        spec_commit_after_digit(spec_buffer_after_digit(Seq::<u8>::empty(), d1), d2) is None,
        spec_commit_after_digit(
            spec_buffer_after_digit(spec_buffer_after_digit(Seq::<u8>::empty(), d1), d2),
            d3,
        ) == Some(100 * d1 + 10 * d2 + d3),
        spec_buffer_after_digit(
            spec_buffer_after_digit(spec_buffer_after_digit(Seq::<u8>::empty(), d1), d2),
            d3,
        ) =~= Seq::<u8>::empty(),
{
    let one = seq![d1];
    let two = seq![d1, d2];
    let three = seq![d1, d2, d3];
    assert(spec_buffer_after_digit(Seq::<u8>::empty(), d1) =~= one);
    assert(spec_buffer_after_digit(one, d2) =~= two);
    assert(two.push(d3) =~= three);
    assert(one.drop_last() =~= Seq::<u8>::empty());
    assert(two.drop_last() =~= one);
    assert(three.drop_last() =~= two);
    assert(buffer_value(Seq::<u8>::empty()) == 0);
    assert(buffer_value(one) == d1);
    assert(buffer_value(two) == 10 * d1 + d2);
    assert(buffer_value(three) == 100 * d1 + 10 * d2 + d3);
}

/// A partial buffer commits by timeout exactly when it is still the buffer
/// the timeout was armed on; and a digit arriving before the timeout always
/// changes the buffer, so the pending timeout's commit becomes a no-op.
pub proof fn lemma_commit_by_timeout(snapshot: Seq<u8>, d: u8)
    ensures
        spec_commit_on_timeout(snapshot, snapshot) == Some(buffer_value(snapshot)),
        spec_buffer_after_digit(snapshot, d) != snapshot,
        spec_commit_on_timeout(spec_buffer_after_digit(snapshot, d), snapshot) is None,
{
    if snapshot.len() + 1 >= 3 {
        assert(spec_buffer_after_digit(snapshot, d).len() != snapshot.len());
    } else {
        assert(spec_buffer_after_digit(snapshot, d).len() == snapshot.len() + 1);
    }
}

} // verus!
