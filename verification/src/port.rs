//! Completion port gateway: builds the completion-port call — a new port,
//! or the association of a handle with an existing port under a completion
//! key — and interprets the reply. The gateway records every association it
//! has completed, because a completion key is immutable for the handle's
//! lifetime: a second association of the same handle is refused before any
//! call is issued.

use vstd::prelude::*;

use crate::consts::{INVALID_FILE_HANDLE_VALUE, NULL_HANDLE_VALUE};
use crate::errors::CompletionPortFailure;

verus! {

/// An opaque kernel completion-port handle; never the null handle.
#[derive(Clone, Copy, Debug, PartialEq, Eq, Structural)]
pub struct CompletionPortHandle {
    raw: usize,
}

impl CompletionPortHandle {
    /// The platform-sized integer behind the handle.
    pub closed spec fn spec_raw(&self) -> usize {
        self.raw
    }

    /// Distinguishable from the null handle.
    pub open spec fn is_valid(&self) -> bool {
        self.spec_raw() != NULL_HANDLE_VALUE
    }

    /// The raw handle value, for the polling component and for whoever
    /// closes the port.
    pub fn raw(&self) -> (r: usize)
        ensures
            r == self.spec_raw(),
    {
        self.raw
    }
}

/// The argument block of one completion-port call, ready for the hosting
/// application to issue.
#[derive(Clone, Copy, Debug, PartialEq, Eq, Structural)]
pub struct PortCall {
    /// The handle to associate, or the invalid-file sentinel when a new
    /// port is being created.
    pub file_handle: usize,
    /// The existing port, or the null handle when a new port is being
    /// created.
    pub existing_port: usize,
    /// The completion key the kernel will attach to the handle and return
    /// with every completion notification for it.
    pub completion_key: usize,
    /// How many threads the kernel may wake concurrently for this port;
    /// zero means one per available processor.
    pub concurrency_hint: u32,
}

/// One completed association: a handle and the completion key the kernel
/// now holds for it.
#[derive(Clone, Copy, Debug, PartialEq, Eq, Structural)]
pub struct AssociationEntry {
    /// The associated file or socket handle.
    pub handle: usize,
    /// The completion key bound to it.
    pub key: usize,
}

/// The bindings a list of association entries amounts to, as a map from
/// handle to completion key.
pub open spec fn associations_of(entries: Seq<AssociationEntry>) -> Map<usize, usize>
    decreases entries.len(),
{
    if entries.len() == 0 {
        Map::empty()
    } else {
        associations_of(entries.drop_last()).insert(entries.last().handle, entries.last().key)
    }
}

/// No handle occurs twice in the list.
pub open spec fn distinct_handles(entries: Seq<AssociationEntry>) -> bool {
    forall|i: int, j: int|
        0 <= i < j < entries.len() ==> #[trigger] entries[i].handle != #[trigger] entries[j].handle
}

proof fn lemma_associations_membership(entries: Seq<AssociationEntry>, handle: usize)
    ensures
        associations_of(entries).dom().contains(handle) <==> exists|i: int|
            0 <= i < entries.len() && #[trigger] entries[i].handle == handle,
    decreases entries.len(),
{
    if entries.len() > 0 {
        let shorter = entries.drop_last();
        lemma_associations_membership(shorter, handle);
        if associations_of(entries).dom().contains(handle) {
            if entries.last().handle != handle {
                let i = choose|i: int| 0 <= i < shorter.len() && #[trigger] shorter[i].handle == handle;
                assert(entries[i].handle == handle);
            } else {
                assert(entries[entries.len() - 1].handle == handle);
            }
        }
        if exists|i: int| 0 <= i < entries.len() && #[trigger] entries[i].handle == handle {
            let i = choose|i: int| 0 <= i < entries.len() && #[trigger] entries[i].handle == handle;
            if i < entries.len() - 1 {
                assert(shorter[i].handle == handle);
            }
        }
    }
}

proof fn lemma_associations_key(entries: Seq<AssociationEntry>, i: int)
    requires
        distinct_handles(entries),
        0 <= i < entries.len(),
    ensures
        associations_of(entries).dom().contains(entries[i].handle),
        associations_of(entries)[entries[i].handle] == entries[i].key,
    decreases entries.len(),
{
    lemma_associations_membership(entries, entries[i].handle);
    if i < entries.len() - 1 {
        let shorter = entries.drop_last();
        assert(distinct_handles(shorter)) by {
            assert forall|p: int, q: int| 0 <= p < q < shorter.len() implies
                #[trigger] shorter[p].handle != #[trigger] shorter[q].handle by {
                assert(entries[p].handle != entries[q].handle);
            }
        }
        lemma_associations_key(shorter, i);
        assert(entries[i].handle != entries.last().handle);
    }
}

/// The completion port gateway. It hands out the argument blocks of
/// completion-port calls and keeps the registry of associations completed
/// so far, so that no handle is ever offered to the kernel twice.
pub struct CompletionGateway {
    entries: Vec<AssociationEntry>,
}

impl CompletionGateway {
    /// The registry as recorded, in completion order.
    pub closed spec fn spec_entries(&self) -> Seq<AssociationEntry> {
        self.entries@
    }

    /// The completed associations, as a map from handle to completion key.
    pub open spec fn associations(&self) -> Map<usize, usize> {
        associations_of(self.spec_entries())
    }

    /// Each handle is recorded at most once.
    pub open spec fn wf(&self) -> bool {
        distinct_handles(self.spec_entries())
    }

    /// A fresh gateway with no associations.
    pub fn new() -> (g: CompletionGateway)
        ensures
            g.wf(),
            g.associations() == Map::<usize, usize>::empty(),
    {
        CompletionGateway { entries: Vec::new() }
    }

    /// The completion key recorded for `handle`, if it has been associated.
    pub fn key_for(&self, handle: usize) -> (r: Option<usize>)
        requires
            self.wf(),
        ensures
            (r is Some) == self.associations().dom().contains(handle),
            r matches Some(k) ==> self.associations()[handle] == k,
    {
        let n = self.entries.len();
        let mut i: usize = 0;
        while i < n
            invariant
                self.wf(),
                n == self.spec_entries().len(),
                i <= n,
                forall|j: int| 0 <= j < i ==> #[trigger] self.spec_entries()[j].handle != handle,
            decreases n - i,
        {
            if self.entries[i].handle == handle {
                proof {
                    lemma_associations_key(self.spec_entries(), i as int);
                }
                return Some(self.entries[i].key);
            }
            i = i + 1;
        }
        proof {
            lemma_associations_membership(self.spec_entries(), handle);
        }
        None
    }

    /// Builds the completion-port call. With no existing port, the call
    /// asks the kernel for a brand-new port: the file-handle argument is
    /// the invalid-file sentinel and `handle` plays no part. With an
    /// existing port, the call asks for `handle` to be associated with it
    /// under `completion_key` — unless the gateway has already completed an
    /// association for `handle`, in which case the call is refused here,
    /// with the key that binding already carries: a completion key is
    /// immutable, and a re-association must not be attempted.
    pub fn create_or_associate_call(
        &self,
        handle: usize,
        existing: Option<&CompletionPortHandle>,
        completion_key: usize,
        concurrency_hint: u32,
    ) -> (r: Result<PortCall, CompletionPortFailure>)
        requires
            self.wf(),
            existing matches Some(p) ==> p.is_valid(),
        ensures
            existing is None ==> (r matches Ok(c) && c == (PortCall {
                file_handle: INVALID_FILE_HANDLE_VALUE,
                existing_port: NULL_HANDLE_VALUE,
                completion_key,
                concurrency_hint,
            })),
            existing matches Some(p) ==> (!self.associations().dom().contains(handle) ==> (
            r matches Ok(c) && c == (PortCall {
                file_handle: handle,
                existing_port: p.spec_raw(),
                completion_key,
                concurrency_hint,
            }))),
            existing is Some && self.associations().dom().contains(handle) ==> (r matches Err(f)
                && f == (CompletionPortFailure::AlreadyAssociated {
                handle,
                existing_key: self.associations()[handle],
            })),
    {
        match existing {
            None => Ok(
                PortCall {
                    file_handle: INVALID_FILE_HANDLE_VALUE,
                    existing_port: NULL_HANDLE_VALUE,
                    completion_key,
                    concurrency_hint,
                },
            ),
            Some(port) => match self.key_for(handle) {
                Some(existing_key) => Err(
                    CompletionPortFailure::AlreadyAssociated { handle, existing_key },
                ),
                None => Ok(
                    PortCall {
                        file_handle: handle,
                        existing_port: port.raw(),
                        completion_key,
                        concurrency_hint,
                    },
                ),
            },
        }
    }

    /// Interprets the reply of the completion-port call built by
    /// [`Self::create_or_associate_call`]. A null reply, together with the
    /// error code read after the call, is the failure the kernel reported;
    /// the gateway is unchanged. A non-null reply to a creation call is the
    /// new port, owned by the caller. A non-null reply to an association
    /// call completes the association: the binding is recorded, and the
    /// existing port handle itself is returned for chaining.
    pub fn create_or_associate_result(
        &mut self,
        handle: usize,
        existing: Option<&CompletionPortHandle>,
        completion_key: usize,
        raw_reply: usize,
        os_error: i32,
    ) -> (r: Result<CompletionPortHandle, CompletionPortFailure>)
        requires
            old(self).wf(),
            existing matches Some(p) ==> p.is_valid() && !old(self).associations().dom().contains(
                handle,
            ),
        ensures
            final(self).wf(),
            raw_reply == NULL_HANDLE_VALUE ==> (r matches Err(f)
                && f == (CompletionPortFailure::Os { code: os_error })) && final(self).associations()
                == old(self).associations(),
            raw_reply != NULL_HANDLE_VALUE && existing is None ==> (r matches Ok(p)
                && p.spec_raw() == raw_reply && p.is_valid())
                && final(self).associations() == old(self).associations(),
            existing matches Some(q) ==> (raw_reply != NULL_HANDLE_VALUE ==> ((r matches Ok(p)
                && p == *q) && final(self).associations() == old(self).associations().insert(
                handle,
                completion_key,
            ))),
    {
        if raw_reply == NULL_HANDLE_VALUE {
            Err(CompletionPortFailure::Os { code: os_error })
        } else {
            match existing {
                None => Ok(CompletionPortHandle { raw: raw_reply }),
                Some(port) => {
                    proof {
                        lemma_associations_membership(self.spec_entries(), handle);
                    }
                    self.entries.push(AssociationEntry { handle, key: completion_key });
                    proof {
                        let before = old(self).spec_entries();
                        let after = self.spec_entries();
                        assert(after.drop_last() =~= before);
                        assert(distinct_handles(after)) by {
                            assert forall|p: int, q: int| 0 <= p < q < after.len() implies
                                #[trigger] after[p].handle != #[trigger] after[q].handle by {
                                if q < after.len() - 1 {
                                    assert(before[p].handle != before[q].handle);
                                } else {
                                    assert(before[p].handle == after[p].handle);
                                }
                            }
                        }
                    }
                    Ok(*port)
                },
            }
        }
    }
}

/// Law: recording a new association never rewrites an old one. The gateway
/// only records a binding for a handle that has none (its contracts refuse
/// anything else), and such an insertion leaves every previously recorded
/// handle bound to the key it already had, while binding the new handle to
/// exactly the given key.
pub proof fn lemma_association_keys_are_immutable(
    assoc: Map<usize, usize>,
    handle: usize,
    key: usize,
    prior: usize,
)
    requires
        !assoc.dom().contains(handle),
        assoc.dom().contains(prior),
    ensures
        assoc.insert(handle, key)[prior] == assoc[prior],
        assoc.insert(handle, key)[handle] == key,
        assoc.insert(handle, key).dom().contains(handle),
{
}

} // verus!
