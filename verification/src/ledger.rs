//! Orchestration outside the encryption boundary.
//!
//! Everything here treats pool values and bets as opaque 32-byte ciphertext
//! blocks: the ledger never branches on, compares or computes with what they
//! encrypt.  Its work is the asynchronous protocol around the secure
//! computation: snapshot the market, queue exactly one request per market at
//! a time, and — when the externally verified result arrives — commit it
//! atomically or abort and leave the market untouched.
//!
//! The verification of a callback's signature is the business of the
//! secure-computation cluster's host and happens before this module is
//! reached; the caller hands in the outcome as a [`CallbackVerdict`], and the
//! contracts here state what the ledger does with every possible outcome.

use vstd::prelude::*;

use crate::errors::MarketError;

verus! {

/// One persistent prediction market.  The two pool fields hold ciphertext;
/// `is_resolved` is plaintext, so the ledger may branch on it.
#[derive(Debug)]
pub struct Market {
    /// Identity allowed to create and resolve the market.
    pub authority: [u8; 32],
    /// Ciphertext of the YES pool total.
    pub encrypted_yes_pool: [u8; 32],
    /// Ciphertext of the NO pool total.
    pub encrypted_no_pool: [u8; 32],
    /// Display string for the market's question.
    pub topic: String,
    /// Whether settlement has committed; set once, never cleared.
    pub is_resolved: bool,
}

/// The ciphertext pool totals of a market as read at submission time.
#[derive(Clone, Copy, Debug)]
pub struct PoolSnapshot {
    pub encrypted_yes_pool: [u8; 32],
    pub encrypted_no_pool: [u8; 32],
}

/// One bettor's submission: encrypted stake and side, plus the ephemeral key
/// material the cluster needs to decrypt them.
#[derive(Clone, Copy, Debug)]
pub struct CiphertextBet {
    pub encrypted_amount: [u8; 32],
    pub encrypted_side: [u8; 32],
    pub pubkey: [u8; 32],
    pub nonce: u128,
}

/// Which computation a request asks the cluster for.
#[derive(Clone, Copy, Debug, PartialEq, Eq, Structural)]
pub enum RequestKind {
    /// Fold one bet into the pool totals.
    Update,
    /// Settle one bet against the final totals.
    Settle,
}

/// Lifecycle of a computation request; `Completed` and `Aborted` are terminal.
#[derive(Clone, Copy, Debug, PartialEq, Eq, Structural)]
pub enum RequestStatus {
    Queued,
    Completed,
    Aborted,
}

/// One in-flight secure computation: the snapshot and input that were
/// submitted, bound to the single market the result may be applied to.
#[derive(Clone, Copy, Debug)]
pub struct ComputationRequest {
    /// Identifier the ledger assigned at submission, monotonically increasing.
    pub request_id: u64,
    /// The market this request was built from and will commit to.
    pub market_id: u64,
    /// Which computation the cluster was asked for.
    pub kind: RequestKind,
    /// The market's ciphertext pools as read at submission time.
    pub snapshot: PoolSnapshot,
    /// The bet the request carries.
    pub input: CiphertextBet,
    /// For a settlement request, the ciphertext of the winning side.
    pub encrypted_winning_side: Option<[u8; 32]>,
    /// Where the request stands in its lifecycle.
    pub status: RequestStatus,
}

/// The ciphertext outputs of a verified computation, extracted positionally:
/// for an update, block 0 is the new YES pool and block 1 the new NO pool;
/// for a settlement, block 0 is the winner flag and block 1 the payout.
#[derive(Clone, Copy, Debug)]
pub struct VerifiedOutput {
    pub ciphertext_0: [u8; 32],
    pub ciphertext_1: [u8; 32],
}

/// What the external signature check concluded about a callback.
#[derive(Clone, Copy, Debug)]
pub enum CallbackVerdict {
    /// The result is authentic and carries these outputs.
    Valid(VerifiedOutput),
    /// The signature or authenticity check failed.
    Invalid,
}

/// Notification emitted on every successful commit.
#[derive(Clone, Copy, Debug, PartialEq, Eq, Structural)]
pub struct PoolUpdateEvent {
    /// The market whose state was committed.
    pub market: u64,
    /// Which computation completed.
    pub kind: RequestKind,
    /// Completion time as reported by the caller's clock.
    pub timestamp: i64,
}

/// The shared mutable state: every market and the table of computation
/// requests, with `next_request_id` the identifier the next submission gets.
pub struct Ledger {
    pub markets: Vec<Market>,
    pub requests: Vec<ComputationRequest>,
    pub next_request_id: u64,
}

/// The all-zero ciphertext block a fresh market's pools start from, the
/// fixed block that stands for an encrypted zero.
pub open spec fn zero_block() -> [u8; 32] {
    vstd::array::spec_array_fill_for_copy_type::<u8, 32>(0u8)
}

/// Law: the serialization rule of the whole protocol — a well-formed ledger
/// never holds two queued computation requests for the same market, so every
/// callback applies to the snapshot it was built from and no commit can
/// silently discard another request's update.
pub proof fn lemma_at_most_one_queued(ledger: Ledger, i: int, j: int)
    requires
        ledger.wf(),
        0 <= i < ledger.requests@.len(),
        0 <= j < ledger.requests@.len(),
        ledger.requests@[i].status == RequestStatus::Queued,
        ledger.requests@[j].status == RequestStatus::Queued,
        ledger.requests@[i].market_id == ledger.requests@[j].market_id,
    ensures
        i == j,
{
}

/// The same request with only its status replaced.
pub open spec fn with_status(req: ComputationRequest, status: RequestStatus) -> ComputationRequest {
    ComputationRequest {
        request_id: req.request_id,
        market_id: req.market_id,
        kind: req.kind,
        snapshot: req.snapshot,
        input: req.input,
        encrypted_winning_side: req.encrypted_winning_side,
        status,
    }
}

/// The same market with only its pool ciphertexts replaced.
pub open spec fn with_pools(m: Market, yes: [u8; 32], no: [u8; 32]) -> Market {
    Market {
        authority: m.authority,
        encrypted_yes_pool: yes,
        encrypted_no_pool: no,
        topic: m.topic,
        is_resolved: m.is_resolved,
    }
}

/// The same market, marked resolved; its pools keep their last committed
/// ciphertexts.
pub open spec fn mark_resolved(m: Market) -> Market {
    Market {
        authority: m.authority,
        encrypted_yes_pool: m.encrypted_yes_pool,
        encrypted_no_pool: m.encrypted_no_pool,
        topic: m.topic,
        is_resolved: true,
    }
}

impl Ledger {
    /// Request `i` is queued and bound to `market_id`.
    pub open spec fn queued_for(self, i: int, market_id: u64) -> bool {
        &&& self.requests@[i].status == RequestStatus::Queued
        &&& self.requests@[i].market_id == market_id
    }

    /// Some queued request is outstanding for `market_id`.
    pub open spec fn in_flight(self, market_id: u64) -> bool {
        exists|i: int|
            0 <= i < self.requests@.len() && #[trigger] self.queued_for(i, market_id)
    }

    /// Request `i` is internally consistent: its identifier is its position
    /// in the table, it is bound to an existing market, and it carries a
    /// winning side exactly when it asks for settlement.
    pub open spec fn request_ok(self, i: int) -> bool {
        &&& self.requests@[i].request_id == i
        &&& (self.requests@[i].market_id as int) < self.markets@.len()
        &&& (self.requests@[i].kind == RequestKind::Settle <==> self.requests@[i]
            .encrypted_winning_side is Some)
    }

    /// The request the identifier names.
    pub open spec fn request_at(self, request_id: u64) -> ComputationRequest {
        self.requests@[request_id as int]
    }

    /// The identifier names a request that is still queued — the only state
    /// a callback may consume.
    pub open spec fn is_queued(self, request_id: u64) -> bool {
        &&& request_id < self.requests@.len()
        &&& self.request_at(request_id).status == RequestStatus::Queued
    }

    /// The ledger's invariant.  The last clause is the serialization rule
    /// that makes the asynchronous protocol safe: no market ever has two
    /// queued requests, so no two callbacks can race on one snapshot.
    pub open spec fn wf(self) -> bool {
        &&& self.next_request_id == self.requests@.len()
        &&& forall|i: int| 0 <= i < self.requests@.len() ==> #[trigger] self.request_ok(i)
        &&& forall|i: int, j: int|
            0 <= i < self.requests@.len() && 0 <= j < self.requests@.len() && (
            #[trigger] self.requests@[i]).status == RequestStatus::Queued && (
            #[trigger] self.requests@[j]).status == RequestStatus::Queued
                && self.requests@[i].market_id == self.requests@[j].market_id ==> i == j
    }

    /// An empty ledger: no markets, no requests.
    pub fn new() -> (r: Ledger)
        ensures
            r.wf(),
            r.markets@.len() == 0,
            r.requests@.len() == 0,
            r.next_request_id == 0,
    {
        Ledger { markets: Vec::new(), requests: Vec::new(), next_request_id: 0 }
    }

    /// Whether a computation is outstanding for `market_id`, by scanning the
    /// request table.
    pub fn has_queued_request(&self, market_id: u64) -> (r: bool)
        ensures
            r == self.in_flight(market_id),
    {
        let n = self.requests.len();
        let mut i: usize = 0;
        while i < n
            invariant
                n == self.requests@.len(),
                i <= n,
                forall|j: int| 0 <= j < i ==> !self.queued_for(j, market_id),
            decreases n - i,
        {
            if self.requests[i].market_id == market_id && self.requests[i].status
                == RequestStatus::Queued {
                assert(self.queued_for(i as int, market_id));
                return true;
            }
            i = i + 1;
        }
        false
    }

    /// Create a market: pools start as the all-zero ciphertext block that
    /// stands for an encrypted zero, and the market is open.
    pub fn create_market(&mut self, authority: [u8; 32], topic: String) -> (market_id: u64)
        requires
            old(self).wf(),
            old(self).markets@.len() < u64::MAX,
        ensures
            final(self).wf(),
            market_id == old(self).markets@.len(),
            final(self).markets@ == old(self).markets@.push(
                Market {
                    authority,
                    encrypted_yes_pool: zero_block(),
                    encrypted_no_pool: zero_block(),
                    topic,
                    is_resolved: false,
                },
            ),
            forall|k: int|
                0 <= k < 32 ==> final(self).markets@[market_id as int].encrypted_yes_pool@[k]
                    == 0u8 && final(self).markets@[market_id as int].encrypted_no_pool@[k] == 0u8,
            final(self).requests@ == old(self).requests@,
            final(self).next_request_id == old(self).next_request_id,
    {
        let market_id = self.markets.len() as u64;
        self.markets.push(
            Market {
                authority,
                encrypted_yes_pool: [0u8; 32],
                encrypted_no_pool: [0u8; 32],
                topic,
                is_resolved: false,
            },
        );
        proof {
            assert forall|i: int| 0 <= i < self.requests@.len() implies #[trigger] self.request_ok(
                i,
            ) by {
                assert(old(self).request_ok(i));
            }
        }
        market_id
    }

    /// Submit a bet: snapshot the market's ciphertext pools, queue one
    /// update computation, and return the request identifier.
    ///
    /// Rejected with `MarketClosed` on a resolved market and with
    /// `ComputationInFlight` while another request for the same market is
    /// queued; in both cases the ledger is left exactly as it was.
    pub fn place_bet(
        &mut self,
        market_id: u64,
        encrypted_amount: [u8; 32],
        encrypted_side: [u8; 32],
        pubkey: [u8; 32],
        nonce: u128,
    ) -> (r: Result<u64, MarketError>)
        requires
            old(self).wf(),
            market_id < old(self).markets@.len(),
            old(self).next_request_id < u64::MAX,
        ensures
            final(self).wf(),
            old(self).markets@[market_id as int].is_resolved ==> r == Err::<u64, MarketError>(
                MarketError::MarketClosed,
            ) && *final(self) == *old(self),
            !old(self).markets@[market_id as int].is_resolved && old(self).in_flight(market_id)
                ==> r == Err::<u64, MarketError>(MarketError::ComputationInFlight) && *final(self)
                == *old(self),
            !old(self).markets@[market_id as int].is_resolved && !old(self).in_flight(market_id)
                ==> r == Ok::<u64, MarketError>(old(self).next_request_id) && final(self).markets@
                == old(self).markets@ && final(self).next_request_id == old(self).next_request_id
                + 1 && final(self).requests@ == old(self).requests@.push(
                (ComputationRequest {
                    request_id: old(self).next_request_id,
                    market_id,
                    kind: RequestKind::Update,
                    snapshot: (PoolSnapshot {
                        encrypted_yes_pool: old(self).markets@[market_id as int].encrypted_yes_pool,
                        encrypted_no_pool: old(self).markets@[market_id as int].encrypted_no_pool,
                    }),
                    input: (CiphertextBet { encrypted_amount, encrypted_side, pubkey, nonce }),
                    encrypted_winning_side: None,
                    status: RequestStatus::Queued,
                }),
            ),
    {
        // Reading the length as a usize pins the market table within the
        // address space, so the cast below keeps the identifier's value.
        let _market_count = self.markets.len();
        let idx = market_id as usize;
        if self.markets[idx].is_resolved {
            return Err(MarketError::MarketClosed);
        }
        if self.has_queued_request(market_id) {
            return Err(MarketError::ComputationInFlight);
        }
        let request_id = self.next_request_id;
        let snapshot = PoolSnapshot {
            encrypted_yes_pool: self.markets[idx].encrypted_yes_pool,
            encrypted_no_pool: self.markets[idx].encrypted_no_pool,
        };
        self.requests.push(
            ComputationRequest {
                request_id,
                market_id,
                kind: RequestKind::Update,
                snapshot,
                input: CiphertextBet { encrypted_amount, encrypted_side, pubkey, nonce },
                encrypted_winning_side: None,
                status: RequestStatus::Queued,
            },
        );
        self.next_request_id = request_id + 1;
        proof {
            self.lemma_queue_preserves_wf(*old(self), market_id);
        }
        Ok(request_id)
    }

    /// Ask for settlement of one bet: snapshot the pools, queue one
    /// settlement computation carrying the encrypted winning side, and
    /// return the request identifier.  The market stays open until the
    /// settlement callback commits.
    ///
    /// Rejected with `MarketClosed` on an already-resolved market and with
    /// `ComputationInFlight` while another request for the same market is
    /// queued; in both cases the ledger is left exactly as it was.
    pub fn resolve_market(
        &mut self,
        market_id: u64,
        encrypted_amount: [u8; 32],
        encrypted_side: [u8; 32],
        encrypted_winning_side: [u8; 32],
        pubkey: [u8; 32],
        nonce: u128,
    ) -> (r: Result<u64, MarketError>)
        requires
            old(self).wf(),
            market_id < old(self).markets@.len(),
            old(self).next_request_id < u64::MAX,
        ensures
            final(self).wf(),
            old(self).markets@[market_id as int].is_resolved ==> r == Err::<u64, MarketError>(
                MarketError::MarketClosed,
            ) && *final(self) == *old(self),
            !old(self).markets@[market_id as int].is_resolved && old(self).in_flight(market_id)
                ==> r == Err::<u64, MarketError>(MarketError::ComputationInFlight) && *final(self)
                == *old(self),
            !old(self).markets@[market_id as int].is_resolved && !old(self).in_flight(market_id)
                ==> r == Ok::<u64, MarketError>(old(self).next_request_id) && final(self).markets@
                == old(self).markets@ && final(self).next_request_id == old(self).next_request_id
                + 1 && final(self).requests@ == old(self).requests@.push(
                (ComputationRequest {
                    request_id: old(self).next_request_id,
                    market_id,
                    kind: RequestKind::Settle,
                    snapshot: (PoolSnapshot {
                        encrypted_yes_pool: old(self).markets@[market_id as int].encrypted_yes_pool,
                        encrypted_no_pool: old(self).markets@[market_id as int].encrypted_no_pool,
                    }),
                    input: (CiphertextBet { encrypted_amount, encrypted_side, pubkey, nonce }),
                    encrypted_winning_side: Some(encrypted_winning_side),
                    status: RequestStatus::Queued,
                }),
            ),
    {
        // Reading the length as a usize pins the market table within the
        // address space, so the cast below keeps the identifier's value.
        let _market_count = self.markets.len();
        let idx = market_id as usize;
        if self.markets[idx].is_resolved {
            return Err(MarketError::MarketClosed);
        }
        if self.has_queued_request(market_id) {
            return Err(MarketError::ComputationInFlight);
        }
        let request_id = self.next_request_id;
        let snapshot = PoolSnapshot {
            encrypted_yes_pool: self.markets[idx].encrypted_yes_pool,
            encrypted_no_pool: self.markets[idx].encrypted_no_pool,
        };
        self.requests.push(
            ComputationRequest {
                request_id,
                market_id,
                kind: RequestKind::Settle,
                snapshot,
                input: CiphertextBet { encrypted_amount, encrypted_side, pubkey, nonce },
                encrypted_winning_side: Some(encrypted_winning_side),
                status: RequestStatus::Queued,
            },
        );
        self.next_request_id = request_id + 1;
        proof {
            self.lemma_queue_preserves_wf(*old(self), market_id);
        }
        Ok(request_id)
    }

    /// Proof that appending one queued request for a market with nothing in
    /// flight keeps the ledger well formed.
    proof fn lemma_queue_preserves_wf(self, pre: Ledger, market_id: u64)
        requires
            pre.wf(),
            market_id < pre.markets@.len(),
            !pre.in_flight(market_id),
            self.markets@ == pre.markets@,
            self.next_request_id == pre.next_request_id + 1,
            self.requests@.len() == pre.requests@.len() + 1,
            forall|i: int| 0 <= i < pre.requests@.len() ==> self.requests@[i] == pre.requests@[i],
            self.requests@.last().request_id == pre.next_request_id,
            self.requests@.last().market_id == market_id,
            self.requests@.last().kind == RequestKind::Settle
                <==> self.requests@.last().encrypted_winning_side is Some,
        ensures
            self.wf(),
    {
        let n = pre.requests@.len() as int;
        assert forall|i: int| 0 <= i < self.requests@.len() implies #[trigger] self.request_ok(
            i,
        ) by {
            if i < n {
                assert(pre.request_ok(i));
            } else {
                assert(self.requests@[i] == self.requests@.last());
            }
        }
        assert forall|i: int, j: int|
            0 <= i < self.requests@.len() && 0 <= j < self.requests@.len() && (
            #[trigger] self.requests@[i]).status == RequestStatus::Queued && (
            #[trigger] self.requests@[j]).status == RequestStatus::Queued && self.requests@[i].market_id
            == self.requests@[j].market_id implies i == j by {
            if i < n && j < n {
                assert(pre.requests@[i].status == RequestStatus::Queued);
                assert(pre.requests@[j].status == RequestStatus::Queued);
            } else if i == n && j < n {
                assert(pre.queued_for(j, market_id));
                assert(pre.in_flight(market_id));
            } else if j == n && i < n {
                assert(pre.queued_for(i, market_id));
                assert(pre.in_flight(market_id));
            }
        }
    }

    /// Accept the externally verified outcome of one computation and commit
    /// or abort it.
    ///
    /// A callback naming a request that is unknown or no longer queued is
    /// rejected with `UnknownOrStaleRequest` and changes nothing, so a
    /// duplicate or replayed delivery is harmless.  A failed verification
    /// aborts the request — the market keeps its exact previous value — and
    /// reports `AbortedComputation`.  A verified result is committed in one
    /// step: an update writes the two returned pool ciphertexts, a
    /// settlement marks the market resolved; either way the request becomes
    /// `Completed`, the market's in-flight slot is free again, and the
    /// returned event names the market, the kind of computation and the
    /// caller's completion time.
    pub fn on_computation_callback(
        &mut self,
        request_id: u64,
        verdict: CallbackVerdict,
        now: i64,
    ) -> (r: Result<PoolUpdateEvent, MarketError>)
        requires
            old(self).wf(),
        ensures
            final(self).wf(),
            final(self).next_request_id == old(self).next_request_id,
            final(self).markets@.len() == old(self).markets@.len(),
            !old(self).is_queued(request_id) ==> r == Err::<PoolUpdateEvent, MarketError>(
                MarketError::UnknownOrStaleRequest,
            ) && *final(self) == *old(self),
            old(self).is_queued(request_id) && verdict is Invalid ==> r == Err::<
                PoolUpdateEvent,
                MarketError,
            >(MarketError::AbortedComputation) && final(self).markets@ == old(self).markets@
                && final(self).requests@ == old(self).requests@.update(
                request_id as int,
                with_status(old(self).request_at(request_id), RequestStatus::Aborted),
            ),
            old(self).is_queued(request_id) && verdict is Valid ==> r == Ok::<
                PoolUpdateEvent,
                MarketError,
            >(
                (PoolUpdateEvent {
                    market: old(self).request_at(request_id).market_id,
                    kind: old(self).request_at(request_id).kind,
                    timestamp: now,
                }),
            ) && final(self).requests@ == old(self).requests@.update(
                request_id as int,
                with_status(old(self).request_at(request_id), RequestStatus::Completed),
            ),
            old(self).is_queued(request_id) && verdict is Valid && old(self).request_at(
                request_id,
            ).kind == RequestKind::Update ==> final(self).markets@ == old(self).markets@.update(
                old(self).request_at(request_id).market_id as int,
                with_pools(
                    old(self).markets@[old(self).request_at(request_id).market_id as int],
                    verdict->Valid_0.ciphertext_0,
                    verdict->Valid_0.ciphertext_1,
                ),
            ),
            old(self).is_queued(request_id) && verdict is Valid && old(self).request_at(
                request_id,
            ).kind == RequestKind::Settle ==> final(self).markets@ == old(self).markets@.update(
                old(self).request_at(request_id).market_id as int,
                mark_resolved(old(self).markets@[old(self).request_at(request_id).market_id as int]),
            ),
            old(self).is_queued(request_id) ==> !final(self).in_flight(
                old(self).request_at(request_id).market_id,
            ),
    {
        let len = self.requests.len();
        if request_id >= len as u64 {
            return Err(MarketError::UnknownOrStaleRequest);
        }
        let idx = request_id as usize;
        let req = self.requests[idx];
        if req.status != RequestStatus::Queued {
            return Err(MarketError::UnknownOrStaleRequest);
        }
        proof {
            assert(old(self).request_ok(request_id as int));
        }
        match verdict {
            CallbackVerdict::Invalid => {
                let mut updated = req;
                updated.status = RequestStatus::Aborted;
                self.requests[idx] = updated;
                proof {
                    self.lemma_terminal_status_preserves_wf(*old(self), request_id as int);
                }
                Err(MarketError::AbortedComputation)
            },
            CallbackVerdict::Valid(output) => {
                let mut updated = req;
                updated.status = RequestStatus::Completed;
                self.requests[idx] = updated;
                // As above: the usize length bounds the table, keeping the cast exact.
                let _market_count = self.markets.len();
                let mid = req.market_id as usize;
                let removed = self.markets.remove(mid);
                let new_market = match req.kind {
                    RequestKind::Update => Market {
                        authority: removed.authority,
                        encrypted_yes_pool: output.ciphertext_0,
                        encrypted_no_pool: output.ciphertext_1,
                        topic: removed.topic,
                        is_resolved: removed.is_resolved,
                    },
                    RequestKind::Settle => Market {
                        authority: removed.authority,
                        encrypted_yes_pool: removed.encrypted_yes_pool,
                        encrypted_no_pool: removed.encrypted_no_pool,
                        topic: removed.topic,
                        is_resolved: true,
                    },
                };
                let ghost committed: Market = new_market;
                self.markets.insert(mid, new_market);
                proof {
                    let mi = mid as int;
                    old(self).markets@.remove_ensures(mi);
                    old(self).markets@.remove(mi).insert_ensures(mi, committed);
                    assert(self.markets@ =~= old(self).markets@.update(mi, committed));
                    self.lemma_terminal_status_preserves_wf(*old(self), request_id as int);
                }
                Ok(PoolUpdateEvent { market: req.market_id, kind: req.kind, timestamp: now })
            },
        }
    }

    /// Proof that moving one queued request to a terminal status — with
    /// every other request untouched and the market table's shape kept —
    /// keeps the ledger well formed and leaves that request's market with
    /// nothing in flight.
    proof fn lemma_terminal_status_preserves_wf(self, pre: Ledger, idx: int)
        requires
            pre.wf(),
            0 <= idx < pre.requests@.len(),
            pre.requests@[idx].status == RequestStatus::Queued,
            self.next_request_id == pre.next_request_id,
            self.markets@.len() == pre.markets@.len(),
            self.requests@.len() == pre.requests@.len(),
            forall|i: int|
                0 <= i < pre.requests@.len() && i != idx ==> self.requests@[i] == pre.requests@[i],
            self.requests@[idx].request_id == pre.requests@[idx].request_id,
            self.requests@[idx].market_id == pre.requests@[idx].market_id,
            self.requests@[idx].kind == pre.requests@[idx].kind,
            self.requests@[idx].encrypted_winning_side == pre.requests@[idx].encrypted_winning_side,
            self.requests@[idx].status != RequestStatus::Queued,
        ensures
            self.wf(),
            !self.in_flight(pre.requests@[idx].market_id),
    {
        assert forall|i: int| 0 <= i < self.requests@.len() implies #[trigger] self.request_ok(
            i,
        ) by {
            assert(pre.request_ok(i));
        }
        assert forall|i: int, j: int|
            0 <= i < self.requests@.len() && 0 <= j < self.requests@.len() && (
            #[trigger] self.requests@[i]).status == RequestStatus::Queued && (
            #[trigger] self.requests@[j]).status == RequestStatus::Queued && self.requests@[i].market_id
            == self.requests@[j].market_id implies i == j by {
            assert(pre.requests@[i].status == RequestStatus::Queued);
            assert(pre.requests@[j].status == RequestStatus::Queued);
        }
        let m = pre.requests@[idx].market_id;
        assert forall|j: int| 0 <= j < self.requests@.len() implies !self.queued_for(j, m) by {
            if self.queued_for(j, m) {
                assert(pre.requests@[j].status == RequestStatus::Queued);
                assert(pre.requests@[idx].market_id == pre.requests@[j].market_id);
                assert(j == idx);
            }
        }
        if self.in_flight(m) {
            let j = choose|j: int| 0 <= j < self.requests@.len() && self.queued_for(j, m);
            assert(!self.queued_for(j, m));
        }
    }
}

} // verus!
