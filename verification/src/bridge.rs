//! The bridge context: one-time initialized, process-wide state that lets any
//! native thread attach to the host managed runtime and resolve application
//! classes away from the runtime's primary thread.
//!
//! The context never calls the host runtime itself. The surrounding glue
//! performs the foreign resolution walk and thread attachment and feeds the
//! outcomes in; every decision — whether setup may run, whether a guard must
//! detach, which resolution route a caller takes — is made and verified here.

use vstd::prelude::*;
use crate::error::SafError;

verus! {

/// The bridge's cached references, generic over the host runtime's reference
/// types: `R` the runtime handle, `L` a durable reference to the managed
/// class-resolving object, `M` a resolved identifier of its find-class
/// method.
///
/// `class_loader_ref` and `find_class_method` are cached together or not at
/// all; [`Self::initialize`] can only install them as a pair, so partial
/// initialization is not a reachable state.
pub struct BridgeContext<R, L, M> {
    pub runtime_handle: Option<R>,
    pub class_loader_ref: Option<L>,
    pub find_class_method: Option<M>,
    pub setup_attempted: bool,
}

/// A scoped thread attachment. Releasing it must detach the thread exactly
/// when this attachment performed the attach; a thread the bridge did not
/// attach — above all the runtime's own primary thread — is never detached.
#[derive(Debug, Clone, Copy, PartialEq, Eq)]
pub struct ThreadAttachment {
    pub performed_attach: bool,
}

impl ThreadAttachment {
    /// Whether releasing this attachment detaches the thread.
    pub fn detaches_on_release(&self) -> (b: bool)
        ensures
            b == self.performed_attach,
    {
        self.performed_attach
    }
}

/// How a class lookup by fully-qualified name is to be carried out.
///
/// `CachedLoader`: through the cached resolving object and its find-class
/// method. `DirectDefault`: through the runtime's default resolution entry
/// point, which is only reliable from the primary thread — a degraded mode,
/// not an error.
#[derive(Debug, Clone, Copy, PartialEq, Eq, Structural)]
pub enum ClassResolutionRoute {
    CachedLoader,
    DirectDefault,
}

impl<R, L, M> BridgeContext<R, L, M> {
    /// A context holding nothing: no runtime handle, no cached resolver, and
    /// setup not yet attempted.
    pub open spec fn spec_uninitialized() -> Self {
        BridgeContext {
            runtime_handle: None,
            class_loader_ref: None,
            find_class_method: None,
            setup_attempted: false,
        }
    }

    /// The cached resolver reference and its method identifier are present
    /// together or absent together.
    pub open spec fn loader_cache_consistent(&self) -> bool {
        self.class_loader_ref is Some <==> self.find_class_method is Some
    }

    /// All three cached pieces are present.
    pub open spec fn spec_is_initialized(&self) -> bool {
        &&& self.runtime_handle is Some
        &&& self.class_loader_ref is Some
        &&& self.find_class_method is Some
    }

    /// The state after one initialization attempt: a second attempt changes
    /// nothing, and the first installs the runtime handle and — as a pair or
    /// not at all — the resolver cache.
    pub open spec fn spec_initialize(
        self,
        runtime: Option<R>,
        resolver: Option<(L, M)>,
    ) -> Self {
        if self.setup_attempted {
            self
        } else {
            BridgeContext {
                runtime_handle: runtime,
                class_loader_ref: match resolver {
                    Some(pair) => Some(pair.0),
                    None => None,
                },
                find_class_method: match resolver {
                    Some(pair) => Some(pair.1),
                    None => None,
                },
                setup_attempted: true,
            }
        }
    }

    /// The attachment decision for a calling thread: fails without a runtime
    /// handle; otherwise the returned guard detaches exactly when the thread
    /// was not attached before.
    pub open spec fn spec_attach(&self, already_attached: bool) -> Result<
        ThreadAttachment,
        SafError,
    > {
        if self.runtime_handle is Some {
            Ok(ThreadAttachment { performed_attach: !already_attached })
        } else {
            Err(SafError::UninitializedBridge)
        }
    }

    /// A fresh, uninitialized context.
    pub fn new() -> (ctx: Self)
        ensures
            ctx == Self::spec_uninitialized(),
    {
        BridgeContext {
            runtime_handle: None,
            class_loader_ref: None,
            find_class_method: None,
            setup_attempted: false,
        }
    }

    /// Performs the exactly-once setup. The caller hands in the runtime
    /// handle and, if the foreign resolution walk succeeded, the resolver
    /// reference paired with its find-class method identifier; a failed walk
    /// passes `None` and leaves the bridge in its degraded fallback mode
    /// rather than failing the caller. Only the first call has any effect.
    pub fn initialize(&mut self, runtime: Option<R>, resolver: Option<(L, M)>) -> (performed:
        bool)
        ensures
            performed == !old(self).setup_attempted,
            *final(self) == old(self).spec_initialize(runtime, resolver),
            final(self).setup_attempted,
    {
        if self.setup_attempted {
            return false;
        }
        self.runtime_handle = runtime;
        match resolver {
            Some(pair) => {
                self.class_loader_ref = Some(pair.0);
                self.find_class_method = Some(pair.1);
            },
            None => {
                self.class_loader_ref = None;
                self.find_class_method = None;
            },
        }
        self.setup_attempted = true;
        true
    }

    /// Whether the one-time setup is still due: true until the first
    /// initialization attempt, and true again only after an explicit
    /// teardown opens a new cycle. While this is false, the foreign
    /// resolution walk need not be run: [`Self::initialize`] would discard
    /// its outcome.
    pub fn setup_due(&self) -> (due: bool)
        ensures
            due == !self.setup_attempted,
    {
        !self.setup_attempted
    }

    /// Decides attachment for the calling thread. `already_attached` is what
    /// the host runtime reports for this thread; the returned guard performs
    /// the attach — and so detaches on release — exactly when the thread was
    /// not attached yet. Fails when no runtime handle was ever stored.
    pub fn attach_current_thread(&self, already_attached: bool) -> (r: Result<
        ThreadAttachment,
        SafError,
    >)
        ensures
            r == self.spec_attach(already_attached),
            r is Ok <==> self.runtime_handle is Some,
            r matches Ok(t) ==> t.performed_attach == !already_attached,
    {
        match &self.runtime_handle {
            Some(_) => Ok(ThreadAttachment { performed_attach: !already_attached }),
            None => Err(SafError::UninitializedBridge),
        }
    }

    /// Picks the class-resolution route: the cached resolver when one is
    /// installed, the runtime's default entry point otherwise.
    pub fn resolve_class_route(&self) -> (r: ClassResolutionRoute)
        ensures
            r == ClassResolutionRoute::CachedLoader <==> self.class_loader_ref is Some,
            r == ClassResolutionRoute::DirectDefault <==> self.class_loader_ref is None,
    {
        match &self.class_loader_ref {
            Some(_) => ClassResolutionRoute::CachedLoader,
            None => ClassResolutionRoute::DirectDefault,
        }
    }

    /// Releases every cached piece and returns the context to its
    /// uninitialized state, permitting a later re-initialization cycle.
    /// Callable in any state, including one where initialization never
    /// completed.
    pub fn cleanup_class_loader(&mut self)
        ensures
            *final(self) == Self::spec_uninitialized(),
    {
        self.class_loader_ref = None;
        self.find_class_method = None;
        self.runtime_handle = None;
        self.setup_attempted = false;
    }

    /// Whether the runtime handle, the resolver reference and its method
    /// identifier are all cached.
    pub fn is_class_loader_initialized(&self) -> (b: bool)
        ensures
            b == self.spec_is_initialized(),
    {
        match (&self.runtime_handle, &self.class_loader_ref, &self.find_class_method) {
            (Some(_), Some(_), Some(_)) => true,
            _ => false,
        }
    }
}

/// Initialization runs its side effects exactly once: whatever a first
/// attempt installed, a later attempt — with any arguments whatsoever —
/// leaves the context, and so the cached resolver reference that every
/// caller observes, unchanged.
pub proof fn lemma_initialize_exactly_once<R, L, M>(
    ctx: BridgeContext<R, L, M>,
    runtime1: Option<R>,
    resolver1: Option<(L, M)>,
    runtime2: Option<R>,
    resolver2: Option<(L, M)>,
)
    ensures
        ctx.spec_initialize(runtime1, resolver1).setup_attempted,
        ctx.spec_initialize(runtime1, resolver1).spec_initialize(runtime2, resolver2)
            == ctx.spec_initialize(runtime1, resolver1),
{
}

/// Initialization installs the resolver cache as a pair or not at all:
/// partial initialization is not a reachable outcome.
pub proof fn lemma_initialize_all_or_nothing<R, L, M>(
    ctx: BridgeContext<R, L, M>,
    runtime: Option<R>,
    resolver: Option<(L, M)>,
)
    requires
        ctx.loader_cache_consistent(),
    ensures
        ctx.spec_initialize(runtime, resolver).loader_cache_consistent(),
{
}

/// A thread that is already attached to the runtime — above all the thread
/// that owns it — is never detached: every attachment taken on it, however
/// often one is taken, releases without performing a detach.
pub proof fn lemma_owner_thread_never_detached<R, L, M>(ctx: BridgeContext<R, L, M>)
    requires
        ctx.runtime_handle is Some,
    ensures
        ctx.spec_attach(true) == Ok::<ThreadAttachment, SafError>(
            (ThreadAttachment { performed_attach: false }),
        ),
{
}

/// `s` with every `'.'` replaced by `'/'`.
pub open spec fn with_path_separators(s: Seq<char>) -> Seq<char> {
    Seq::new(s.len(), |i: int| if s[i] == '.' { '/' } else { s[i] })
}

/// The fully-qualified path of the reference class the resolution walk
/// starts from: the application's package name with `'.'` turned into `'/'`,
/// followed by `/MainActivity`.
pub fn reference_class_path(package: &str) -> (r: String)
    ensures
        r@ == with_path_separators(package@) + "/MainActivity"@,
{
    let n = package.unicode_len();
    let mut out = String::new();
    let mut i: usize = 0;
    while i < n
        invariant
            i <= n,
            n == package@.len(),
            out@.len() == i,
            forall|j: int| 0 <= j < i ==> out@[j] == with_path_separators(package@)[j],
        decreases n - i,
    {
        let c = package.get_char(i);
        if c == '.' {
            proof {
                reveal_strlit("/");
            }
            out.append("/");
        } else {
            let piece = package.substring_char(i, i + 1);
            proof {
                assert(piece@ =~= seq![package@[i as int]]);
            }
            out.append(piece);
        }
        i += 1;
    }
    proof {
        assert(out@ =~= with_path_separators(package@));
    }
    out.append("/MainActivity");
    out
}

} // verus!
