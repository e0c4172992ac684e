use vstd::prelude::*;

verus! {

/// One operation of a fan-in batch: either still running outside this crate,
/// or already resolved. Once resolved, the stored outcome is replayed on
/// every later poll instead of the operation being touched again.
#[derive(Debug, PartialEq, Eq)]
pub enum AltFuse<T, E> {
    Future,
    Resolved(Result<T, E>),
}

/// What one poll of the outside operation produced: nothing yet, a value, or
/// a failure. Failures are ordinary outcomes here; they never tear down the
/// batch.
#[derive(Debug, PartialEq, Eq)]
pub enum FusePollEvent<T, E> {
    NotReady,
    Ready(T),
    Failed(E),
}

impl<T, E> AltFuse<T, E> {
    /// Whether the operation has completed and its outcome is stored.
    pub open spec fn is_resolved(&self) -> bool {
        self is Resolved
    }

    /// The state after one poll: a resolved operation is left untouched, a
    /// running one absorbs whatever the event carries.
    pub open spec fn step_spec(self, event: FusePollEvent<T, E>) -> AltFuse<T, E> {
        match self {
            AltFuse::Resolved(r) => AltFuse::Resolved(r),
            AltFuse::Future => match event {
                FusePollEvent::NotReady => AltFuse::Future,
                FusePollEvent::Ready(v) => AltFuse::Resolved(Ok(v)),
                FusePollEvent::Failed(e) => AltFuse::Resolved(Err(e)),
            },
        }
    }

    /// Records one poll of the underlying operation. Returns whether the
    /// operation is (now) resolved.
    pub fn poll(&mut self, event: FusePollEvent<T, E>) -> (r: bool)
        ensures
            *final(self) == old(self).step_spec(event),
            r == final(self).is_resolved(),
    {
        match self {
            AltFuse::Resolved(_) => true,
            AltFuse::Future => match event {
                FusePollEvent::NotReady => false,
                FusePollEvent::Ready(v) => {
                    *self = AltFuse::Resolved(Ok(v));
                    true
                },
                FusePollEvent::Failed(e) => {
                    *self = AltFuse::Resolved(Err(e));
                    true
                },
            },
        }
    }
}

/// Once an operation has resolved, its outcome is frozen: no later event
/// changes it. This is what lets the batch be polled repeatedly without a
/// completed operation ever being re-run or its outcome rewritten.
pub proof fn lemma_fuse_frozen<T, E>(f: AltFuse<T, E>, event: FusePollEvent<T, E>)
    ensures
        f is Resolved ==> f.step_spec(event) == f,
{
}

/// Drives a fixed batch of independent operations to completion, collecting
/// every outcome. A failure of one operation never prevents the others from
/// completing; the batch itself cannot fail.
#[derive(Debug, PartialEq, Eq)]
pub struct ResolveAll<T, E> {
    pub all: Vec<AltFuse<T, E>>,
}

impl<T, E> ResolveAll<T, E> {
    /// The batch states after each entry absorbs its event.
    pub open spec fn stepped(&self, events: Seq<FusePollEvent<T, E>>) -> Seq<AltFuse<T, E>> {
        Seq::new(self.all@.len(), |i: int| self.all@[i].step_spec(events[i]))
    }

    /// A batch over `n` operations, none of them resolved yet.
    pub fn from_iter(n: usize) -> (r: Self)
        ensures
            r.all@.len() == n,
            forall|i: int| 0 <= i < n ==> !(#[trigger] r.all@[i]).is_resolved(),
    {
        let mut all: Vec<AltFuse<T, E>> = Vec::new();
        let mut i: usize = 0;
        while i < n
            invariant
                i <= n,
                all@.len() == i as int,
                forall|j: int| 0 <= j < i ==> !(#[trigger] all@[j]).is_resolved(),
            decreases n - i,
        {
            all.push(AltFuse::Future);
            i += 1;
        }
        ResolveAll { all }
    }

    /// One poll round over the whole batch. `events` carries, for each
    /// operation in order, what polling it produced this round; entries for
    /// already-resolved operations are ignored.
    ///
    /// Resolves to `Some` exactly when every operation has individually
    /// completed, and then yields one outcome per operation, in the
    /// operations' original order, each preserved verbatim.
    pub fn poll(&mut self, events: Vec<FusePollEvent<T, E>>) -> (r: Option<Vec<Result<T, E>>>)
        requires
            events@.len() == old(self).all@.len(),
        ensures
            match r {
                None => {
                    &&& final(self).all@ == old(self).stepped(events@)
                    &&& exists|i: int|
                        0 <= i < final(self).all@.len() && !(#[trigger] final(self).all@[i]).is_resolved()
                },
                Some(results) => {
                    &&& forall|i: int|
                        0 <= i < old(self).all@.len() ==> (#[trigger] old(self).stepped(
                            events@,
                        )[i]).is_resolved()
                    &&& results@.len() == old(self).all@.len()
                    &&& forall|i: int|
                        0 <= i < results@.len() ==> old(self).stepped(events@)[i]
                            == AltFuse::Resolved(#[trigger] results@[i])
                    &&& final(self).all@.len() == 0
                },
            },
    {
        let ghost orig = self.all@;
        let ghost orig_ev = events@;

        let mut remaining: Vec<AltFuse<T, E>> = Vec::new();
        std::mem::swap(&mut remaining, &mut self.all);
        let mut evs = events;
        let mut stepped: Vec<AltFuse<T, E>> = Vec::new();
        let mut any_not_ready = false;

        while remaining.len() > 0
            invariant
                remaining@.len() == evs@.len(),
                orig.len() == stepped@.len() + remaining@.len(),
                remaining@ == orig.subrange(stepped@.len() as int, orig.len() as int),
                evs@ == orig_ev.subrange(stepped@.len() as int, orig_ev.len() as int),
                orig_ev.len() == orig.len(),
                forall|j: int|
                    0 <= j < stepped@.len() ==> #[trigger] stepped@[j] == orig[j].step_spec(
                        orig_ev[j],
                    ),
                any_not_ready == exists|j: int|
                    0 <= j < stepped@.len() && !(#[trigger] stepped@[j]).is_resolved(),
            decreases remaining@.len(),
        {
            let ghost pre = stepped@;
            let mut fuse = remaining.remove(0);
            let event = evs.remove(0);
            let ready = fuse.poll(event);
            if !ready {
                any_not_ready = true;
            }
            stepped.push(fuse);
            proof {
                assert(forall|j: int| 0 <= j < pre.len() ==> stepped@[j] == pre[j]);
                assert(stepped@[pre.len() as int] == fuse);
                if exists|j: int| 0 <= j < pre.len() && !(#[trigger] pre[j]).is_resolved() {
                    let j = choose|j: int| 0 <= j < pre.len() && !(#[trigger] pre[j]).is_resolved();
                    assert(!stepped@[j].is_resolved());
                }
            }
        }

        proof {
            assert(stepped@ =~= old(self).stepped(orig_ev));
        }

        if any_not_ready {
            self.all = stepped;
            None
        } else {
            let ghost stepped_snapshot = stepped@;
            let mut results: Vec<Result<T, E>> = Vec::new();
            while stepped.len() > 0
                invariant
                    stepped_snapshot.len() == results@.len() + stepped@.len(),
                    stepped@ == stepped_snapshot.subrange(
                        results@.len() as int,
                        stepped_snapshot.len() as int,
                    ),
                    forall|j: int|
                        0 <= j < stepped_snapshot.len() ==> (
                        #[trigger] stepped_snapshot[j]).is_resolved(),
                    forall|j: int|
                        0 <= j < results@.len() ==> stepped_snapshot[j] == AltFuse::Resolved(
                            #[trigger] results@[j],
                        ),
                decreases stepped@.len(),
            {
                match stepped.remove(0) {
                    AltFuse::Resolved(outcome) => results.push(outcome),
                    AltFuse::Future => {
                        proof {
                            assert(false);
                        }
                    },
                }
            }
            Some(results)
        }
    }
}

} // verus!
