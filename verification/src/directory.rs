use vstd::prelude::*;
use crate::pool::ConnectionPool;

verus! {

/// The directory of per-peer connection pools: one pool per peer address,
/// created lazily on first use and never evicted, so the map is bounded by
/// cluster size rather than traffic. The process around the library holds the
/// directory under its single lock for the lookup step only, never across a
/// network call.
pub struct ConnectionDirectory {
    addrs: Vec<String>,
    pools: Vec<ConnectionPool>,
}

impl ConnectionDirectory {
    /// The addresses that have a pool, in creation order.
    pub closed spec fn addresses(self) -> Seq<Seq<char>> {
        self.addrs.deep_view()
    }

    /// The pools, in the same order as `addresses`.
    pub closed spec fn pools_view(self) -> Seq<ConnectionPool> {
        self.pools@
    }

    /// The pool standing at an entry.
    pub open spec fn pool_at(self, i: int) -> ConnectionPool {
        self.pools_view()[i]
    }

    /// How many entries the directory holds.
    pub open spec fn len_spec(self) -> nat {
        self.addresses().len()
    }

    /// Directory invariant: one pool per address, every pool well formed, and
    /// no address has two entries.
    pub closed spec fn wf(self) -> bool {
        &&& self.addrs@.len() == self.pools@.len()
        &&& (forall|i: int| 0 <= i < self.pools@.len() ==> (#[trigger] self.pools@[i]).wf())
        &&& (forall|i: int, j: int|
            0 <= i < j < self.addrs@.len() ==> self.addrs.deep_view()[i]
                != self.addrs.deep_view()[j])
    }

    /// Creates an empty directory.
    pub fn new() -> (d: ConnectionDirectory)
        ensures
            d.wf(),
            d.len_spec() == 0,
    {
        ConnectionDirectory { addrs: Vec::new(), pools: Vec::new() }
    }

    /// How many entries the directory holds.
    pub fn len(&self) -> (r: usize)
        ensures
            r as nat == self.len_spec(),
    {
        self.addrs.len()
    }

    /// Finds the entry for an address, if it has one.
    fn find(&self, addr: &String) -> (r: Option<usize>)
        ensures
            match r {
                Some(i) => i < self.len_spec() && self.addresses()[i as int] == addr@,
                None => !self.addresses().contains(addr@),
            },
    {
        let mut i: usize = 0;
        while i < self.addrs.len()
            invariant
                i <= self.addrs@.len(),
                forall|j: int| 0 <= j < i ==> self.addresses()[j] != addr@,
            decreases self.addrs@.len() - i,
        {
            if self.addrs[i] == *addr {
                proof {
                    assert(self.addresses()[i as int] == self.addrs@[i as int]@);
                }
                return Some(i);
            }
            i += 1;
        }
        None
    }

    /// Looks up the entry for `addr`, creating its pool on first use.
    /// Creation is idempotent — an address never gets a second pool — and no
    /// other entry is read or changed, so callers bound for distinct peers
    /// never disturb each other's pools.
    pub fn pool_for(&mut self, addr: &String) -> (idx: usize)
        requires
            old(self).wf(),
        ensures
            final(self).wf(),
            idx < final(self).len_spec(),
            final(self).addresses()[idx as int] == addr@,
            old(self).addresses().contains(addr@) ==> *final(self) == *old(self),
            !old(self).addresses().contains(addr@) ==> {
                &&& final(self).len_spec() == old(self).len_spec() + 1
                &&& idx == old(self).len_spec()
                &&& final(self).addresses() == old(self).addresses().push(addr@)
                &&& final(self).pool_at(idx as int).idle_handles() == Seq::<u64>::empty()
            },
            forall|i: int|
                0 <= i < old(self).len_spec() ==> final(self).pool_at(i) == old(self).pool_at(i),
    {
        match self.find(addr) {
            Some(i) => i,
            None => {
                let idx = self.addrs.len();
                self.addrs.push(addr.clone());
                self.pools.push(ConnectionPool::new());
                proof {
                    assert(self.addrs.deep_view() =~= old(self).addrs.deep_view().push(addr@));
                    assert forall|i: int, j: int| 0 <= i < j < self.addrs@.len() implies self
                        .addrs
                        .deep_view()[i] != self.addrs.deep_view()[j] by {
                        if j == self.addrs@.len() - 1 {
                            assert(!old(self).addresses().contains(addr@));
                            assert(old(self).addresses()[i] != addr@);
                        }
                    }
                }
                idx
            },
        }
    }

    /// Leases a connection for a peer: looks up or creates the pool for
    /// `addr` and takes an idle handle from it if one is cached. The caller
    /// opens a fresh connection when none is, and returns the handle through
    /// `release_at` when its call completes. Entries of other addresses are
    /// neither read nor changed, so calls bound for distinct peers never
    /// disturb each other's pools.
    pub fn connection_for(&mut self, addr: &String) -> (r: (usize, Option<u64>))
        requires
            old(self).wf(),
        ensures
            final(self).wf(),
            r.0 < final(self).len_spec(),
            final(self).addresses()[r.0 as int] == addr@,
            old(self).addresses().contains(addr@) ==> final(self).addresses() == old(
                self,
            ).addresses(),
            !old(self).addresses().contains(addr@) ==> final(self).addresses() == old(
                self,
            ).addresses().push(addr@) && r.0 == old(self).len_spec() && r.1 is None,
            forall|i: int|
                0 <= i < old(self).len_spec() && i != r.0 ==> final(self).pool_at(i) == old(
                    self,
                ).pool_at(i),
            old(self).addresses().contains(addr@) && old(self).pool_at(
                r.0 as int,
            ).idle_handles().len() > 0 ==> r.1 == Some(old(self).pool_at(r.0 as int).idle_handles()[0])
                && final(self).pool_at(r.0 as int).idle_handles() == old(self).pool_at(
                r.0 as int,
            ).idle_handles().drop_first(),
            old(self).addresses().contains(addr@) && old(self).pool_at(
                r.0 as int,
            ).idle_handles().len() == 0 ==> r.1 is None && final(self).pool_at(r.0 as int).idle_handles()
                == old(self).pool_at(r.0 as int).idle_handles(),
    {
        let idx = self.pool_for(addr);
        let handle = self.acquire_at(idx);
        (idx, handle)
    }

    /// Takes an idle handle from the pool at an entry, if one is cached; all
    /// other entries are left exactly as they were.
    pub fn acquire_at(&mut self, idx: usize) -> (r: Option<u64>)
        requires
            old(self).wf(),
            idx < old(self).len_spec(),
        ensures
            final(self).wf(),
            final(self).addresses() == old(self).addresses(),
            forall|i: int|
                0 <= i < old(self).len_spec() && i != idx ==> final(self).pool_at(i) == old(self).pool_at(i),
            old(self).pool_at(idx as int).idle_handles().len() == 0 ==> r is None
                && final(self).pool_at(idx as int).idle_handles() == old(self).pool_at(idx as int).idle_handles(),
            old(self).pool_at(idx as int).idle_handles().len() > 0 ==> r == Some(old(self).pool_at(idx as int).idle_handles()[0])
                && final(self).pool_at(idx as int).idle_handles() == old(self).pool_at(idx as int).idle_handles().drop_first(),
    {
        let pool = &mut self.pools[idx];
        pool.acquire()
    }

    /// Returns a handle to the pool at an entry after its call completes,
    /// discarding it if that pool is already at its idle capacity; all other
    /// entries are left exactly as they were.
    pub fn release_at(&mut self, idx: usize, h: u64) -> (kept: bool)
        requires
            old(self).wf(),
            idx < old(self).len_spec(),
        ensures
            final(self).wf(),
            final(self).addresses() == old(self).addresses(),
            forall|i: int|
                0 <= i < old(self).len_spec() && i != idx ==> final(self).pool_at(i) == old(self).pool_at(i),
            old(self).pool_at(idx as int).idle_handles().len() < crate::pool::POOL_CAPACITY ==> kept
                && final(self).pool_at(idx as int).idle_handles() == old(self).pool_at(idx as int).idle_handles().push(h),
            old(self).pool_at(idx as int).idle_handles().len() >= crate::pool::POOL_CAPACITY ==> !kept
                && final(self).pool_at(idx as int).idle_handles() == old(self).pool_at(idx as int).idle_handles(),
    {
        let pool = &mut self.pools[idx];
        pool.release(h)
    }

    /// How many handles are idle at an entry.
    pub fn idle_len_at(&self, idx: usize) -> (r: usize)
        requires
            idx < self.len_spec(),
            self.wf(),
        ensures
            r as nat == self.pool_at(idx as int).idle_handles().len(),
    {
        self.pools[idx].idle_len()
    }
}

} // verus!
