//! Local listen endpoints and the transport endpoint manager.
//!
//! One `ListenEndpoint` stands for one local listening-socket attempt. It is
//! created `Pending` when a bind is requested, later moves to `Bound` (with
//! the resolved address, which may differ from the requested one) or to
//! `Failed`, and is never resurrected: a new attempt is a new endpoint.

use vstd::prelude::*;
use crate::address::{NetworkAddress, SegmentV};
use crate::errors::BindError;

verus! {

/// Lifecycle of one bind attempt.
#[derive(Clone, Copy, PartialEq, Eq, Structural, Debug)]
pub enum BindStatus {
    /// Requested; outcome not yet reported.
    Pending,
    /// The socket listens; the resolved address is known.
    Bound,
    /// The bind failed; never retried on this endpoint.
    Failed { reason: BindError },
}

/// Spec-level form of one listen endpoint.
pub ghost struct ListenEndpointV {
    pub requested: Seq<SegmentV>,
    pub resolved: Option<Seq<SegmentV>>,
    pub status: BindStatus,
}

/// One local listening socket attempt.
pub struct ListenEndpoint {
    requested: NetworkAddress,
    resolved: Option<NetworkAddress>,
    status: BindStatus,
}

impl View for ListenEndpoint {
    type V = ListenEndpointV;

    closed spec fn view(&self) -> ListenEndpointV {
        ListenEndpointV {
            requested: self.requested@,
            resolved: match self.resolved {
                Some(a) => Some(a@),
                None => None,
            },
            status: self.status,
        }
    }
}

/// Endpoints pending after a bind request.
pub open spec fn spec_count_pending(s: Seq<ListenEndpointV>) -> nat
    decreases s.len(),
{
    if s.len() == 0 {
        0
    } else {
        spec_count_pending(s.drop_last()) + if s.last().status is Pending { 1nat } else { 0nat }
    }
}

/// Endpoints whose bind succeeded.
pub open spec fn spec_count_bound(s: Seq<ListenEndpointV>) -> nat
    decreases s.len(),
{
    if s.len() == 0 {
        0
    } else {
        spec_count_bound(s.drop_last()) + if s.last().status is Bound { 1nat } else { 0nat }
    }
}

/// The set of local listening sockets, owned by the orchestrator.
pub struct EndpointSet {
    eps: Vec<ListenEndpoint>,
}

impl View for EndpointSet {
    type V = Seq<ListenEndpointV>;

    closed spec fn view(&self) -> Seq<ListenEndpointV> {
        self.eps@.map_values(|e: ListenEndpoint| e@)
    }
}

impl EndpointSet {
    /// No endpoints yet.
    pub fn new() -> (r: EndpointSet)
        ensures
            r@ == Seq::<ListenEndpointV>::empty(),
    {
        let r = EndpointSet { eps: Vec::new() };
        proof {
            assert(r@ =~= Seq::<ListenEndpointV>::empty());
        }
        r
    }

    /// Number of endpoints ever created.
    pub fn len(&self) -> (r: usize)
        ensures
            r == self@.len(),
    {
        self.eps.len()
    }

    /// Status of the endpoint at an index.
    pub fn status_at(&self, i: usize) -> (r: BindStatus)
        requires
            i < self@.len(),
        ensures
            r == self@[i as int].status,
    {
        self.eps[i].status
    }

    /// Records a new bind attempt: a fresh endpoint, `Pending`, with no
    /// resolved address yet. Returns its index.
    pub fn request_bind(&mut self, requested: NetworkAddress) -> (idx: usize)
        ensures
            final(self)@ == old(self)@.push(
                ListenEndpointV { requested: requested@, resolved: None, status: BindStatus::Pending },
            ),
            idx == old(self)@.len(),
    {
        let ghost oldv = self@;
        let ghost reqv = requested@;
        let idx = self.eps.len();
        self.eps.push(ListenEndpoint { requested, resolved: None, status: BindStatus::Pending });
        proof {
            assert(self@ =~= oldv.push(
                ListenEndpointV { requested: reqv, resolved: None, status: BindStatus::Pending },
            ));
        }
        idx
    }

    /// Records a successful bind: the endpoint leaves `Pending` for `Bound`
    /// and keeps the resolved address the transport reported.
    pub fn mark_bound(&mut self, i: usize, resolved: NetworkAddress)
        requires
            i < old(self)@.len(),
            old(self)@[i as int].status is Pending,
        ensures
            final(self)@ == old(self)@.update(i as int, ListenEndpointV {
                requested: old(self)@[i as int].requested,
                resolved: Some(resolved@),
                status: BindStatus::Bound,
            }),
    {
        let ghost oldv = self@;
        let ghost resv = resolved@;
        let requested = self.eps[i].requested.clone();
        self.eps[i] = ListenEndpoint { requested, resolved: Some(resolved), status: BindStatus::Bound };
        proof {
            assert(self@ =~= oldv.update(i as int, ListenEndpointV {
                requested: oldv[i as int].requested,
                resolved: Some(resv),
                status: BindStatus::Bound,
            }));
        }
    }

    /// Records a failed bind: the endpoint leaves `Pending` for `Failed`
    /// and is never retried.
    pub fn mark_failed(&mut self, i: usize, reason: BindError)
        requires
            i < old(self)@.len(),
            old(self)@[i as int].status is Pending,
        ensures
            final(self)@ == old(self)@.update(i as int, ListenEndpointV {
                requested: old(self)@[i as int].requested,
                resolved: old(self)@[i as int].resolved,
                status: BindStatus::Failed { reason },
            }),
    {
        let ghost oldv = self@;
        let requested = self.eps[i].requested.clone();
        let resolved = match &self.eps[i].resolved {
            Some(a) => Some(a.clone()),
            None => None,
        };
        self.eps[i] = ListenEndpoint { requested, resolved, status: BindStatus::Failed { reason } };
        proof {
            assert(self@ =~= oldv.update(i as int, ListenEndpointV {
                requested: oldv[i as int].requested,
                resolved: oldv[i as int].resolved,
                status: BindStatus::Failed { reason },
            }));
        }
    }

    /// How many bind attempts are still outstanding.
    pub fn pending_count(&self) -> (r: usize)
        ensures
            r == spec_count_pending(self@),
    {
        let n = self.eps.len();
        let mut cnt: usize = 0;
        let mut i: usize = 0;
        while i < n
            invariant
                i <= n,
                n == self@.len(),
                cnt == spec_count_pending(self@.take(i as int)),
                cnt <= i,
            decreases n - i,
        {
            proof {
                assert(self@.take(i + 1int).drop_last() =~= self@.take(i as int));
                assert(self@.take(i + 1int).last() == self@[i as int]);
            }
            let p = match self.eps[i].status {
                BindStatus::Pending => true,
                _ => false,
            };
            if p {
                cnt = cnt + 1;
            }
            i = i + 1;
        }
        proof {
            assert(self@.take(n as int) =~= self@);
        }
        cnt
    }

    /// How many endpoints reached `Bound`.
    pub fn bound_count(&self) -> (r: usize)
        ensures
            r == spec_count_bound(self@),
    {
        let n = self.eps.len();
        let mut cnt: usize = 0;
        let mut i: usize = 0;
        while i < n
            invariant
                i <= n,
                n == self@.len(),
                cnt == spec_count_bound(self@.take(i as int)),
                cnt <= i,
            decreases n - i,
        {
            proof {
                assert(self@.take(i + 1int).drop_last() =~= self@.take(i as int));
                assert(self@.take(i + 1int).last() == self@[i as int]);
            }
            let b = match self.eps[i].status {
                BindStatus::Bound => true,
                _ => false,
            };
            if b {
                cnt = cnt + 1;
            }
            i = i + 1;
        }
        proof {
            assert(self@.take(n as int) =~= self@);
        }
        cnt
    }
}

} // verus!
