//! Session exclusivity.
//!
//! A device context cannot be nested: at most one session is live on a
//! context at any time, whichever thread asks. Two flags enforce this. One
//! belongs to the context and is shared by all threads; the other belongs
//! to the thread and keeps it from activating a second workspace while it
//! holds one. Acquiring a session never blocks: it succeeds and sets both
//! flags, or it fails and changes nothing. Releasing clears both.

use vstd::prelude::*;
use crate::error::GpuError;

verus! {

/// The exclusivity flag of one device context.
pub struct CudaContext {
    in_use: bool,
}

/// The re-entrancy flag of one thread.
pub struct ThreadGuard {
    active: bool,
}

/// The lease on a context that a live session holds. It cannot be copied:
/// handing it back is the only way to end the session.
pub struct WorkspaceContextGuard {
    held: bool,
}

/// What acquiring a session does to the flag of the context (`in_use`) and
/// to the flag of the thread (`active`): the flags afterwards, and whether
/// the session was granted.
pub open spec fn spec_acquire(in_use: bool, active: bool) -> (bool, bool, bool) {
    if in_use || active {
        (in_use, active, false)
    } else {
        (true, true, true)
    }
}

impl CudaContext {
    /// Whether a session is live on the context.
    pub closed spec fn in_use(&self) -> bool {
        self.in_use
    }

    /// A context on which no session is live.
    pub fn new() -> (c: CudaContext)
        ensures
            !c.in_use(),
    {
        CudaContext { in_use: false }
    }

    /// Marks the context as in use. Fails, and changes nothing, where it is
    /// in use already.
    pub fn lock(&mut self) -> (r: Result<(), GpuError>)
        ensures
            old(self).in_use() ==> r == Err::<(), GpuError>(GpuError::ContextAlreadyInUse),
            !old(self).in_use() ==> r == Ok::<(), GpuError>(()),
            final(self).in_use(),
    {
        if self.in_use {
            Err(GpuError::ContextAlreadyInUse)
        } else {
            self.in_use = true;
            Ok(())
        }
    }

    /// Marks the context as free.
    pub fn unlock(&mut self)
        ensures
            !final(self).in_use(),
    {
        self.in_use = false;
    }

    /// Whether a session is live on the context.
    pub fn is_in_use(&self) -> (b: bool)
        ensures
            b == self.in_use(),
    {
        self.in_use
    }
}

impl ThreadGuard {
    /// Whether the thread holds a session.
    pub closed spec fn active(&self) -> bool {
        self.active
    }

    /// The flag of a thread that holds no session.
    pub fn new() -> (g: ThreadGuard)
        ensures
            !g.active(),
    {
        ThreadGuard { active: false }
    }

    /// Sets the flag, and tells whether it was clear before.
    pub fn lock_cu_context(&mut self) -> (was_clear: bool)
        ensures
            was_clear == !old(self).active(),
            final(self).active(),
    {
        let was_clear: bool = !self.active;
        self.active = true;
        was_clear
    }

    /// Clears the flag.
    pub fn release_cu_context(&mut self)
        ensures
            !final(self).active(),
    {
        self.active = false;
    }

    /// Whether the thread holds a session.
    pub fn is_active(&self) -> (b: bool)
        ensures
            b == self.active(),
    {
        self.active
    }
}

impl WorkspaceContextGuard {
    /// Acquires a session on `context` for the thread of `thread`.
    ///
    /// Fails with [`GpuError::ContextAlreadyInUse`] exactly when a session
    /// is live on the context, in this thread or in another, or when the
    /// thread holds a session on any context. A failed attempt leaves both
    /// flags as they were.
    pub fn new(context: &mut CudaContext, thread: &mut ThreadGuard) -> (r: Result<
        WorkspaceContextGuard,
        GpuError,
    >)
        ensures
            r is Ok <==> spec_acquire(old(context).in_use(), old(thread).active()).2,
            r is Err ==> r->Err_0 == GpuError::ContextAlreadyInUse,
            final(context).in_use() == spec_acquire(old(context).in_use(), old(thread).active()).0,
            final(thread).active() == spec_acquire(old(context).in_use(), old(thread).active()).1,
    {
        if !thread.lock_cu_context() {
            return Err(GpuError::ContextAlreadyInUse);
        }
        match context.lock() {
            Ok(()) => Ok(WorkspaceContextGuard { held: true }),
            Err(e) => {
                thread.release_cu_context();
                Err(e)
            },
        }
    }

    /// Ends the session: clears the flag of the context and the flag of the
    /// thread. The caller calls this on every path out of the scope of the
    /// session, also when the work fails.
    pub fn release(self, context: &mut CudaContext, thread: &mut ThreadGuard)
        ensures
            !final(context).in_use(),
            !final(thread).active(),
    {
        context.unlock();
        thread.release_cu_context();
    }
}

/// While a session is live on a context, no second one is granted on it:
/// not to the thread that holds it, and not to any other thread. The
/// attempt changes nothing, so it can be repeated with the same outcome.
pub proof fn lemma_session_exclusive(active_elsewhere: bool)
    ensures
        ({
            let first = spec_acquire(false, false);
            let again = spec_acquire(first.0, first.1);
            let other = spec_acquire(first.0, active_elsewhere);
            &&& first.2
            &&& !again.2
            &&& again.0 == first.0 && again.1 == first.1
            &&& !other.2
            &&& other.0 == first.0 && other.1 == active_elsewhere
        }),
{
}

/// A session is granted exactly when neither flag is set.
pub proof fn lemma_acquire_iff_free(in_use: bool, active: bool)
    ensures
        spec_acquire(in_use, active).2 <==> !in_use && !active,
        spec_acquire(in_use, active).2 ==> spec_acquire(in_use, active).0 && spec_acquire(
            in_use,
            active,
        ).1,
        !spec_acquire(in_use, active).2 ==> spec_acquire(in_use, active).0 == in_use
            && spec_acquire(in_use, active).1 == active,
{
}

/// The two states of a loaded workspace.
#[derive(Debug, Clone, Copy, PartialEq, Eq, Structural)]
pub enum WorkspaceState {
    /// No session is live.
    Idle,
    /// A session is live.
    Active,
}

/// A workspace: one device context with its loaded module. It comes into
/// being when the module is loaded, and lives for the rest of the process
/// or of its thread.
pub struct CudaWorkspace {
    context: CudaContext,
}

/// A live session on a workspace: the only way to reach the device.
pub struct ActiveWorkspace {
    guard: WorkspaceContextGuard,
}

impl CudaWorkspace {
    /// Whether the workspace is idle or holds a session.
    pub closed spec fn state(&self) -> WorkspaceState {
        if self.context.in_use() {
            WorkspaceState::Active
        } else {
            WorkspaceState::Idle
        }
    }

    /// The workspace of a module that was just loaded: it is idle.
    pub fn loaded() -> (w: CudaWorkspace)
        ensures
            w.state() == WorkspaceState::Idle,
    {
        CudaWorkspace { context: CudaContext::new() }
    }

    /// Whether the workspace is idle or holds a session.
    pub fn current_state(&self) -> (s: WorkspaceState)
        ensures
            s == self.state(),
    {
        if self.context.is_in_use() {
            WorkspaceState::Active
        } else {
            WorkspaceState::Idle
        }
    }

    /// Activates the workspace for the thread of `thread`.
    ///
    /// Succeeds exactly when the workspace is idle and the thread holds no
    /// session; the workspace is active afterwards. Otherwise it fails with
    /// [`GpuError::ContextAlreadyInUse`] and nothing changes.
    pub fn activate(&mut self, thread: &mut ThreadGuard) -> (r: Result<ActiveWorkspace, GpuError>)
        ensures
            r is Ok <==> old(self).state() == WorkspaceState::Idle && !old(thread).active(),
            r is Ok ==> final(self).state() == WorkspaceState::Active && final(thread).active(),
            r is Err ==> r->Err_0 == GpuError::ContextAlreadyInUse && final(self).state() == old(
                self,
            ).state() && final(thread).active() == old(thread).active(),
    {
        match WorkspaceContextGuard::new(&mut self.context, thread) {
            Ok(guard) => Ok(ActiveWorkspace { guard }),
            Err(e) => Err(e),
        }
    }
}

impl ActiveWorkspace {
    /// A kernel on a fresh stream of the session.
    pub fn create_kernel(&self) -> (k: crate::kernel::Kernel)
        ensures
            k.log() == Seq::<crate::kernel::Step>::empty(),
    {
        crate::kernel::Kernel::new()
    }

    /// Ends the session: the workspace is idle again and the thread is free
    /// to activate a workspace.
    pub fn release(self, workspace: &mut CudaWorkspace, thread: &mut ThreadGuard)
        ensures
            final(workspace).state() == WorkspaceState::Idle,
            !final(thread).active(),
    {
        self.guard.release(&mut workspace.context, thread);
    }
}

} // verus!
