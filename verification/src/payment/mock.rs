use vstd::prelude::*;
use crate::error::{agrees, AppError, ErrorKind};
use crate::ids::new_id;
use crate::text::{id_text, same_text, uuid_text};

verus! {

/// A single call made against a [`MockPaymentGateway`], recorded so callers
/// can check exactly what happened (and how many times).
#[derive(Debug, PartialEq, Eq)]
pub enum PaymentCall {
    Authorize { amount_cents: i64, rider_id: u128 },
    Capture { hold_id: String },
    Release { hold_id: String },
}

impl Clone for PaymentCall {
    fn clone(&self) -> (r: Self)
        ensures
            r == *self,
    {
        match self {
            PaymentCall::Authorize { amount_cents, rider_id } => PaymentCall::Authorize {
                amount_cents: *amount_cents,
                rider_id: *rider_id,
            },
            PaymentCall::Capture { hold_id } => PaymentCall::Capture { hold_id: hold_id.clone() },
            PaymentCall::Release { hold_id } => PaymentCall::Release { hold_id: hold_id.clone() },
        }
    }
}

/// What a recorded call says: the call and its arguments.
pub enum CallRecord {
    Authorize { amount_cents: i64, rider_id: u128 },
    Capture { hold_id: Seq<char> },
    Release { hold_id: Seq<char> },
}

impl View for PaymentCall {
    type V = CallRecord;

    open spec fn view(&self) -> CallRecord {
        match self {
            PaymentCall::Authorize { amount_cents, rider_id } => CallRecord::Authorize {
                amount_cents: *amount_cents,
                rider_id: *rider_id,
            },
            PaymentCall::Capture { hold_id } => CallRecord::Capture { hold_id: hold_id@ },
            PaymentCall::Release { hold_id } => CallRecord::Release { hold_id: hold_id@ },
        }
    }
}

/// Where a payment hold stands.
#[derive(Debug, Clone, Copy, PartialEq, Eq, Structural)]
pub enum HoldState {
    Authorized,
    Captured,
    Released,
}

/// The text of a hold id made from the identifier `n`.
pub open spec fn hold_text(n: u128) -> Seq<char> {
    "hold_"@ + uuid_text(n)
}

/// "payment hold `<id>` `<what>`".
pub open spec fn hold_error_text(hold_id: Seq<char>, what: Seq<char>) -> Seq<char> {
    "payment hold "@ + hold_id + what
}

/// The outcome that capturing a hold in state `s` has.
pub open spec fn capture_outcome(s: Option<HoldState>, hold_id: Seq<char>) -> Result<(), (ErrorKind, Seq<char>)> {
    match s {
        None => Err((ErrorKind::NotFound, hold_error_text(hold_id, " not found"@))),
        Some(HoldState::Authorized) => Ok(()),
        Some(HoldState::Captured) => Err((ErrorKind::Conflict, hold_error_text(hold_id, " was already captured"@))),
        Some(HoldState::Released) => Err((ErrorKind::Conflict, hold_error_text(hold_id, " was already released"@))),
    }
}

/// The outcome that releasing a hold in state `s` has.
pub open spec fn release_outcome(s: Option<HoldState>, hold_id: Seq<char>) -> Result<(), (ErrorKind, Seq<char>)> {
    match s {
        None => Err((ErrorKind::NotFound, hold_error_text(hold_id, " not found"@))),
        Some(HoldState::Released) => Err((ErrorKind::Conflict, hold_error_text(hold_id, " was already released"@))),
        Some(_) => Ok(()),
    }
}

/// In-memory payment gateway. `authorize` always succeeds and returns a
/// fresh hold id; `capture`/`release` enforce that a hold exists and hasn't
/// already been captured/released (no double capture/release).
pub struct MockPaymentGateway {
    calls: Vec<PaymentCall>,
    hold_ids: Vec<String>,
    hold_states: Vec<HoldState>,
}

impl MockPaymentGateway {
    /// Every call made so far, in order.
    pub closed spec fn call_log(&self) -> Seq<CallRecord> {
        self.calls@.map_values(|c: PaymentCall| c@)
    }

    /// The holds, by id.
    pub closed spec fn holds(&self) -> Map<Seq<char>, HoldState> {
        Map::new(
            |k: Seq<char>| exists|i: int| 0 <= i < self.hold_ids@.len() && #[trigger] self.hold_ids@[i]@ == k,
            |k: Seq<char>| self.hold_states@[choose|i: int| 0 <= i < self.hold_ids@.len() && #[trigger] self.hold_ids@[i]@ == k],
        )
    }

    /// The state of the hold `k`, if there is one.
    pub open spec fn hold(&self, k: Seq<char>) -> Option<HoldState> {
        if self.holds().contains_key(k) {
            Some(self.holds()[k])
        } else {
            None
        }
    }

    /// The internal well-formedness: one state per hold, no id twice.
    pub closed spec fn wf(&self) -> bool {
        &&& self.hold_ids@.len() == self.hold_states@.len()
        &&& forall|i: int, j: int|
            0 <= i < j < self.hold_ids@.len() ==> #[trigger] self.hold_ids@[i]@ != #[trigger] self.hold_ids@[j]@
    }

    /// A gateway with no holds and no calls.
    pub fn new() -> (g: Self)
        ensures
            g.wf(),
            g.call_log() == Seq::<CallRecord>::empty(),
            g.holds() == Map::<Seq<char>, HoldState>::empty(),
    {
        let g = MockPaymentGateway { calls: Vec::new(), hold_ids: Vec::new(), hold_states: Vec::new() };
        assert(g.holds() =~= Map::<Seq<char>, HoldState>::empty());
        g
    }

    /// Snapshot of every call made against this gateway, in order.
    pub fn calls(&self) -> (r: Vec<PaymentCall>)
        ensures
            r@.map_values(|c: PaymentCall| c@) == self.call_log(),
    {
        let mut r: Vec<PaymentCall> = Vec::new();
        let mut i: usize = 0;
        while i < self.calls.len()
            invariant
                i <= self.calls@.len(),
                r@ == self.calls@.subrange(0, i as int),
            decreases self.calls@.len() - i,
        {
            r.push(self.calls[i].clone());
            i = i + 1;
            assert(r@ =~= self.calls@.subrange(0, i as int));
        }
        assert(r@ =~= self.calls@);
        assert(r@.map_values(|c: PaymentCall| c@) =~= self.call_log());
        r
    }

    /// Where the hold `hold_id` sits, if anywhere.
    fn find(&self, hold_id: &str) -> (r: Option<usize>)
        requires
            self.wf(),
        ensures
            match r {
                Some(i) => i < self.hold_ids@.len() && self.hold_ids@[i as int]@ == hold_id@,
                None => forall|i: int| 0 <= i < self.hold_ids@.len() ==> #[trigger] self.hold_ids@[i]@ != hold_id@,
            },
    {
        let mut i: usize = 0;
        while i < self.hold_ids.len()
            invariant
                i <= self.hold_ids@.len(),
                forall|j: int| 0 <= j < i ==> #[trigger] self.hold_ids@[j]@ != hold_id@,
            decreases self.hold_ids@.len() - i,
        {
            if same_text(self.hold_ids[i].as_str(), hold_id) {
                return Some(i);
            }
            i = i + 1;
        }
        None
    }

    proof fn lemma_hold_at(&self, i: int)
        requires
            self.wf(),
            0 <= i < self.hold_ids@.len(),
        ensures
            self.hold(self.hold_ids@[i]@) == Some(self.hold_states@[i]),
    {
        let k = self.hold_ids@[i]@;
        assert(self.holds().contains_key(k));
        let c = choose|j: int| 0 <= j < self.hold_ids@.len() && #[trigger] self.hold_ids@[j]@ == k;
        if c != i {
            if c < i {
                assert(self.hold_ids@[c]@ != self.hold_ids@[i]@);
            } else {
                assert(self.hold_ids@[i]@ != self.hold_ids@[c]@);
            }
        }
    }

    proof fn lemma_absent(&self, k: Seq<char>)
        requires
            forall|i: int| 0 <= i < self.hold_ids@.len() ==> #[trigger] self.hold_ids@[i]@ != k,
        ensures
            self.hold(k) is None,
    {
    }

    /// Setting the state at `i` changes the hold there and no other.
    fn set_state(&mut self, i: usize, s: HoldState)
        requires
            old(self).wf(),
            i < old(self).hold_ids@.len(),
        ensures
            final(self).wf(),
            final(self).call_log() == old(self).call_log(),
            final(self).holds() == old(self).holds().insert(old(self).hold_ids@[i as int]@, s),
    {
        let ghost pre = *self;
        self.hold_states.set(i, s);
        proof {
            let k = pre.hold_ids@[i as int]@;
            assert(self.hold_ids@ == pre.hold_ids@);
            assert forall|key: Seq<char>| #[trigger] self.holds().contains_key(key) <==> pre.holds().insert(k, s).contains_key(key) by {
                if key != k && pre.holds().contains_key(key) {
                    let j = choose|j: int| 0 <= j < pre.hold_ids@.len() && #[trigger] pre.hold_ids@[j]@ == key;
                    assert(self.hold_ids@[j]@ == key);
                }
                if key != k && self.holds().contains_key(key) {
                    let j = choose|j: int| 0 <= j < self.hold_ids@.len() && #[trigger] self.hold_ids@[j]@ == key;
                    assert(pre.hold_ids@[j]@ == key);
                }
                if key == k {
                    assert(self.hold_ids@[i as int]@ == k);
                }
            }
            assert forall|key: Seq<char>| #[trigger] self.holds().contains_key(key) implies self.holds()[key] == pre.holds().insert(k, s)[key] by {
                let j = choose|j: int| 0 <= j < self.hold_ids@.len() && #[trigger] self.hold_ids@[j]@ == key;
                self.lemma_hold_at(j);
                if key != k {
                    assert(j != i);
                    pre.lemma_hold_at(j);
                }
            }
            assert(self.holds() =~= pre.holds().insert(k, s));
        }
    }

    /// A hold id drawn at random: `hold_` and a random uuid.
    fn draw_hold_id() -> (h: String)
        ensures
            exists|n: u128| h@ == hold_text(n),
    {
        let n = new_id();
        let mut h = String::from_str("hold_");
        let idt = id_text(n);
        h.append(idt.as_str());
        assert(h@ == hold_text(n));
        h
    }

    /// The length of the longest hold id (0 when there is none).
    fn longest_hold_id(&self) -> (m: usize)
        ensures
            forall|i: int| 0 <= i < self.hold_ids@.len() ==> #[trigger] self.hold_ids@[i]@.len() <= m,
    {
        let mut m: usize = 0;
        let mut i: usize = 0;
        while i < self.hold_ids.len()
            invariant
                i <= self.hold_ids@.len(),
                forall|j: int| 0 <= j < i ==> #[trigger] self.hold_ids@[j]@.len() <= m,
            decreases self.hold_ids@.len() - i,
        {
            let l = self.hold_ids[i].as_str().unicode_len();
            if l > m {
                m = l;
            }
            i = i + 1;
        }
        m
    }

    /// A hold id that no hold has yet: `hold_` and a random uuid, drawn
    /// again while the id is taken; should every draw be taken, the last
    /// one is lengthened with `-` until it is longer than every hold id.
    fn fresh_hold_id(&self) -> (h: String)
        requires
            self.wf(),
        ensures
            !self.holds().contains_key(h@),
            exists|n: u128| hold_text(n).is_prefix_of(h@),
    {
        let mut h = Self::draw_hold_id();
        let mut taken = self.find(h.as_str()).is_some();
        let mut draws: usize = 1;
        while taken && draws < 16
            invariant
                self.wf(),
                draws <= 16,
                exists|n: u128| h@ == hold_text(n),
                !taken ==> forall|i: int| 0 <= i < self.hold_ids@.len() ==> #[trigger] self.hold_ids@[i]@ != h@,
            decreases 16 - draws,
        {
            h = Self::draw_hold_id();
            taken = self.find(h.as_str()).is_some();
            draws = draws + 1;
        }
        let ghost n0 = choose|n: u128| h@ == hold_text(n);
        let ghost base = h@;
        if taken {
            let m = self.longest_hold_id();
            while h.as_str().unicode_len() <= m
                invariant
                    base == hold_text(n0),
                    base.is_prefix_of(h@),
                    forall|i: int| 0 <= i < self.hold_ids@.len() ==> #[trigger] self.hold_ids@[i]@.len() <= m,
                decreases m + 1 - h@.len(),
            {
                let ghost before = h@;
                proof {
                    reveal_strlit("-");
                }
                h.append("-");
                assert(h@.subrange(0, base.len() as int) =~= before.subrange(0, base.len() as int));
            }
            assert forall|i: int| 0 <= i < self.hold_ids@.len() implies #[trigger] self.hold_ids@[i]@ != h@ by {
                assert(self.hold_ids@[i]@.len() <= m);
            }
        } else {
            assert(base.subrange(0, base.len() as int) =~= base);
        }
        assert(hold_text(n0).is_prefix_of(h@));
        h
    }

    /// Place an authorization hold for `amount_cents` against the given
    /// rider; always succeeds with a fresh hold id `hold_<uuid>`.
    pub fn authorize(&mut self, amount_cents: i64, rider_id: u128) -> (r: Result<String, AppError>)
        requires
            old(self).wf(),
        ensures
            final(self).wf(),
            r matches Ok(h) && !old(self).holds().contains_key(h@) && (exists|n: u128| hold_text(n).is_prefix_of(h@))
                && final(self).holds() == old(self).holds().insert(h@, HoldState::Authorized),
            final(self).call_log() == old(self).call_log().push(
                CallRecord::Authorize { amount_cents, rider_id },
            ),
    {
        let hold_id = self.fresh_hold_id();
        let ghost pre = *self;
        self.hold_ids.push(hold_id.clone());
        self.hold_states.push(HoldState::Authorized);
        proof {
            let k = hold_id@;
            let last = pre.hold_ids@.len() as int;
            assert forall|i: int, j: int| 0 <= i < j < self.hold_ids@.len() implies #[trigger] self.hold_ids@[i]@ != #[trigger] self.hold_ids@[j]@ by {
                if j == last {
                    assert(pre.hold_ids@[i]@ != k);
                } else {
                    assert(self.hold_ids@[i] == pre.hold_ids@[i]);
                    assert(self.hold_ids@[j] == pre.hold_ids@[j]);
                }
            }
            assert forall|key: Seq<char>| #[trigger] self.holds().contains_key(key) <==> pre.holds().insert(k, HoldState::Authorized).contains_key(key) by {
                if key != k && pre.holds().contains_key(key) {
                    let j = choose|j: int| 0 <= j < pre.hold_ids@.len() && #[trigger] pre.hold_ids@[j]@ == key;
                    assert(self.hold_ids@[j] == pre.hold_ids@[j]);
                }
                if key != k && self.holds().contains_key(key) {
                    let j = choose|j: int| 0 <= j < self.hold_ids@.len() && #[trigger] self.hold_ids@[j]@ == key;
                    assert(j != last);
                    assert(pre.hold_ids@[j] == self.hold_ids@[j]);
                }
                if key == k {
                    assert(self.hold_ids@[last]@ == k);
                }
            }
            assert forall|key: Seq<char>| #[trigger] self.holds().contains_key(key) implies self.holds()[key] == pre.holds().insert(k, HoldState::Authorized)[key] by {
                let j = choose|j: int| 0 <= j < self.hold_ids@.len() && #[trigger] self.hold_ids@[j]@ == key;
                self.lemma_hold_at(j);
                if key != k {
                    assert(j != last);
                    assert(pre.hold_ids@[j] == self.hold_ids@[j]);
                    assert(pre.hold_states@[j] == self.hold_states@[j]);
                    pre.lemma_hold_at(j);
                }
            }
            assert(self.holds() =~= pre.holds().insert(k, HoldState::Authorized));
        }
        self.calls.push(PaymentCall::Authorize { amount_cents, rider_id });
        assert(self.call_log() =~= old(self).call_log().push(CallRecord::Authorize { amount_cents, rider_id }));
        Ok(hold_id)
    }

    /// The error that a refused capture or release of `hold_id` reports.
    fn hold_error(k: ErrorKind, hold_id: &str, what: &str) -> (e: AppError)
        ensures
            e.is(k, hold_error_text(hold_id@, what@)),
    {
        let mut m = String::from_str("payment hold ");
        m.append(hold_id);
        m.append(what);
        AppError::new(k, m.as_str())
    }

    /// Capture (charge) a previously authorized hold. Fails if the hold is
    /// unknown or has already been captured or released. The call is
    /// recorded either way.
    pub fn capture(&mut self, hold_id: &str) -> (r: Result<(), AppError>)
        requires
            old(self).wf(),
        ensures
            final(self).wf(),
            final(self).call_log() == old(self).call_log().push(CallRecord::Capture { hold_id: hold_id@ }),
            agrees(r, capture_outcome(old(self).hold(hold_id@), hold_id@)),
            final(self).holds() == if r is Ok {
                old(self).holds().insert(hold_id@, HoldState::Captured)
            } else {
                old(self).holds()
            },
    {
        let entry = PaymentCall::Capture { hold_id: String::from_str(hold_id) };
        self.calls.push(entry);
        assert(self.call_log() =~= old(self).call_log().push(CallRecord::Capture { hold_id: hold_id@ }));
        match self.find(hold_id) {
            None => {
                proof { self.lemma_absent(hold_id@); }
                Err(Self::hold_error(ErrorKind::NotFound, hold_id, " not found"))
            },
            Some(i) => {
                proof { self.lemma_hold_at(i as int); }
                match self.hold_states[i] {
                    HoldState::Authorized => {
                        self.set_state(i, HoldState::Captured);
                        Ok(())
                    },
                    HoldState::Captured => Err(Self::hold_error(ErrorKind::Conflict, hold_id, " was already captured")),
                    HoldState::Released => Err(Self::hold_error(ErrorKind::Conflict, hold_id, " was already released")),
                }
            },
        }
    }

    /// Release (void, or refund if already captured) a previously authorized
    /// hold. Fails if the hold is unknown or has already been released. The
    /// call is recorded either way.
    pub fn release(&mut self, hold_id: &str) -> (r: Result<(), AppError>)
        requires
            old(self).wf(),
        ensures
            final(self).wf(),
            final(self).call_log() == old(self).call_log().push(CallRecord::Release { hold_id: hold_id@ }),
            agrees(r, release_outcome(old(self).hold(hold_id@), hold_id@)),
            final(self).holds() == if r is Ok {
                old(self).holds().insert(hold_id@, HoldState::Released)
            } else {
                old(self).holds()
            },
    {
        let entry = PaymentCall::Release { hold_id: String::from_str(hold_id) };
        self.calls.push(entry);
        assert(self.call_log() =~= old(self).call_log().push(CallRecord::Release { hold_id: hold_id@ }));
        match self.find(hold_id) {
            None => {
                proof { self.lemma_absent(hold_id@); }
                Err(Self::hold_error(ErrorKind::NotFound, hold_id, " not found"))
            },
            Some(i) => {
                proof { self.lemma_hold_at(i as int); }
                match self.hold_states[i] {
                    HoldState::Released => Err(Self::hold_error(ErrorKind::Conflict, hold_id, " was already released")),
                    _ => {
                        self.set_state(i, HoldState::Released);
                        Ok(())
                    },
                }
            },
        }
    }
}

impl Default for MockPaymentGateway {
    fn default() -> (g: Self)
        ensures
            g.wf(),
            g.call_log() == Seq::<CallRecord>::empty(),
            g.holds() == Map::<Seq<char>, HoldState>::empty(),
    {
        MockPaymentGateway::new()
    }
}

/// Whether an outcome is a refusal of kind `k`.
pub open spec fn refused_as(o: Result<(), (ErrorKind, Seq<char>)>, k: ErrorKind) -> bool {
    match o {
        Err((k2, _)) => k2 == k,
        Ok(_) => false,
    }
}

/// The life cycle of a hold: an authorized hold may be captured or
/// released; a captured hold may still be released (a refund) but not
/// captured again; a released hold can be neither; an unknown hold is not
/// found.
pub proof fn law_hold_life_cycle(h: Seq<char>)
    ensures
        capture_outcome(Some(HoldState::Authorized), h) is Ok,
        release_outcome(Some(HoldState::Authorized), h) is Ok,
        release_outcome(Some(HoldState::Captured), h) is Ok,
        refused_as(capture_outcome(Some(HoldState::Captured), h), ErrorKind::Conflict),
        refused_as(capture_outcome(Some(HoldState::Released), h), ErrorKind::Conflict),
        refused_as(release_outcome(Some(HoldState::Released), h), ErrorKind::Conflict),
        refused_as(capture_outcome(None, h), ErrorKind::NotFound),
        refused_as(release_outcome(None, h), ErrorKind::NotFound),
{
}

/// After a capture of `h` succeeded, capturing `h` again is a conflict;
/// after a release of `h` succeeded, releasing it again is a conflict.
pub proof fn law_no_double_capture_or_release(before: MockPaymentGateway, after: MockPaymentGateway, h: Seq<char>)
    requires
        after.holds() == before.holds().insert(h, HoldState::Captured) || after.holds() == before.holds().insert(
            h,
            HoldState::Released,
        ),
    ensures
        after.hold(h) == Some(HoldState::Captured) ==> refused_as(capture_outcome(after.hold(h), h), ErrorKind::Conflict),
        after.hold(h) == Some(HoldState::Released) ==> refused_as(release_outcome(after.hold(h), h), ErrorKind::Conflict),
        after.hold(h) is Some,
{
}

} // verus!
