//! Port allocation: ports that the operating system reports free, never one
//! that this allocator has already handed out.

use vstd::prelude::*;

use crate::config::Port;

verus! {

/// How many candidates `allocate` asks the operating system for before it
/// gives up.
pub const MAX_PICK_ATTEMPTS: u32 = 16;

/// Why no port could be allocated.
#[derive(Clone, Copy, Debug, PartialEq, Eq, Structural)]
pub enum PortError {
    /// No fresh free port was found within the bounded number of attempts.
    PortExhaustion,
}

/// Relies on portpicker::pick_unused_port, which binds and releases a socket
/// to find a port free on TCP and UDP, or gives up with `None`. Which port it
/// returns depends on chance and on the host; it is either drawn from
/// 15000..25000 or the one the OS bound for a request of port 0, so never 0.
#[verifier::external_body]
fn pick_unused_port() -> (r: Option<Port>)
    ensures
        r matches Some(p) ==> p != 0,
{
    portpicker::pick_unused_port()
}

/// The ports allocated so far by one orchestrator instance.
pub struct PortAllocator {
    assigned: Vec<Port>,
}

impl View for PortAllocator {
    type V = Seq<Port>;

    closed spec fn view(&self) -> Seq<Port> {
        self.assigned@
    }
}

impl PortAllocator {
    /// No port is assigned twice, and port 0, which names no port, never is.
    pub open spec fn well_formed(&self) -> bool {
        &&& self@.no_duplicates()
        &&& !self@.contains(0)
    }

    /// An allocator that has handed out nothing.
    pub fn new() -> (r: PortAllocator)
        ensures
            r@ == Seq::<Port>::empty(),
            r.well_formed(),
    {
        PortAllocator { assigned: Vec::new() }
    }

    /// The ports handed out so far, in order.
    pub fn assigned(&self) -> (r: Vec<Port>)
        ensures
            r@ == self@,
    {
        self.assigned.clone()
    }

    /// Tells whether `port` has been handed out.
    pub fn is_assigned(&self, port: Port) -> (r: bool)
        ensures
            r == self@.contains(port),
    {
        let mut i: usize = 0;
        while i < self.assigned.len()
            invariant
                i <= self.assigned@.len(),
                forall|j: int| 0 <= j < i ==> self.assigned@[j] != port,
            decreases self.assigned@.len() - i,
        {
            if self.assigned[i] == port {
                return true;
            }
            i = i + 1;
        }
        false
    }

    /// Takes a candidate from the port probe: a nonzero port that is not yet
    /// assigned is recorded and returned; anything else is turned away.
    pub fn accept_candidate(&mut self, candidate: Option<Port>) -> (r: Option<Port>)
        requires
            old(self).well_formed(),
        ensures
            final(self).well_formed(),
            match candidate {
                Some(p) => if p == 0 || old(self)@.contains(p) {
                    r is None && final(self)@ == old(self)@
                } else {
                    r == Some(p) && final(self)@ == old(self)@.push(p)
                },
                None => r is None && final(self)@ == old(self)@,
            },
    {
        match candidate {
            Some(p) => {
                if p == 0 || self.is_assigned(p) {
                    None
                } else {
                    self.assigned.push(p);
                    Some(p)
                }
            },
            None => None,
        }
    }

    /// Allocates a nonzero port that the operating system reported free and
    /// that this allocator has not handed out before. It gives up after
    /// `MAX_PICK_ATTEMPTS` probes that yield no fresh port.
    pub fn allocate(&mut self) -> (r: Result<Port, PortError>)
        requires
            old(self).well_formed(),
        ensures
            final(self).well_formed(),
            match r {
                Ok(p) => p != 0 && !old(self)@.contains(p) && final(self)@ == old(self)@.push(p),
                Err(e) => e == PortError::PortExhaustion && final(self)@ == old(self)@,
            },
    {
        let mut attempt: u32 = 0;
        while attempt < MAX_PICK_ATTEMPTS
            invariant
                self.well_formed(),
                self@ == old(self)@,
            decreases MAX_PICK_ATTEMPTS - attempt,
        {
            let candidate = pick_unused_port();
            if let Some(p) = self.accept_candidate(candidate) {
                return Ok(p);
            }
            attempt = attempt + 1;
        }
        Err(PortError::PortExhaustion)
    }

    /// Allocates `n` ports at once, all distinct from each other and from
    /// those handed out before; on exhaustion nothing new stays assigned.
    pub fn allocate_many(&mut self, n: usize) -> (r: Result<Vec<Port>, PortError>)
        requires
            old(self).well_formed(),
        ensures
            final(self).well_formed(),
            n == 0 ==> r is Ok,
            match r {
                Ok(ps) => ps@.len() == n && ps@.no_duplicates() && final(self)@ == old(self)@ + ps@
                    && forall|i: int| 0 <= i < ps@.len() ==> ps@[i] != 0 && !old(self)@.contains(#[trigger] ps@[i]),
                Err(e) => e == PortError::PortExhaustion && final(self)@ == old(self)@,
            },
    {
        let ghost start = self@;
        let start_len = self.assigned.len();
        let mut ps: Vec<Port> = Vec::new();
        while ps.len() < n
            invariant
                self.well_formed(),
                start == old(self)@,
                start_len == start.len(),
                self@ == start + ps@,
                ps@.len() <= n,
                ps@.no_duplicates(),
                forall|i: int| 0 <= i < ps@.len() ==> ps@[i] != 0 && !start.contains(#[trigger] ps@[i]),
            decreases n - ps@.len(),
        {
            match self.allocate() {
                Ok(p) => {
                    proof {
                        assert(!start.contains(p)) by {
                            if start.contains(p) {
                                let k = choose|k: int| 0 <= k < start.len() && start[k] == p;
                                assert((start + ps@)[k] == p);
                            }
                        }
                    }
                    proof {
                        assert(!ps@.contains(p)) by {
                            if ps@.contains(p) {
                                let k = choose|k: int| 0 <= k < ps@.len() && ps@[k] == p;
                                assert((start + ps@)[start.len() + k] == p);
                            }
                        }
                    }
                    ps.push(p);
                    assert(self@ =~= start + ps@);
                },
                Err(e) => {
                    assert(self.assigned@ == start + ps@);
                    self.assigned.truncate(start_len);
                    assert(self.assigned@ =~= start);
                    assert(self@ == start);
                    return Err(e);
                },
            }
        }
        Ok(ps)
    }
}

} // verus!
