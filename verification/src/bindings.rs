//! Which handler symbols the application supplies, and what each source
//! resolves to.
use vstd::prelude::*;
use crate::source::Source;

verus! {

/// The routine that a vector resolves to once the image is linked.
#[derive(Clone, Copy, Debug, PartialEq, Eq, Structural)]
pub enum Routine {
    /// The reset handler of this crate.
    Reset,
    /// The non-maskable-interrupt handler of this crate: it halts.
    Nmi,
    /// The hard-fault handler of this crate: it halts.
    HardFault,
    /// The fallback for every handler that the application left out: it
    /// halts.
    Default,
    /// The handler that the application supplies for a source.
    Application(Source),
}

/// Why a handler cannot be bound.
#[derive(Clone, Copy, Debug, PartialEq, Eq, Structural)]
pub enum BindError {
    /// The handler of this source is defined here and cannot be replaced.
    LocallyDefined,
    /// The application already supplies a handler for this source.
    AlreadyBound,
}

/// Whether the handler of `s` is defined by this crate rather than left to
/// the application.
pub open spec fn locally_defined(s: Source) -> bool {
    s == Source::Reset || s == Source::Nmi || s == Source::HardFault
}

/// What the vector of `s` resolves to when the application supplies the
/// handlers in `provided`.
pub open spec fn resolve(provided: Set<Source>, s: Source) -> Routine {
    match s {
        Source::Reset => Routine::Reset,
        Source::Nmi => Routine::Nmi,
        Source::HardFault => Routine::HardFault,
        _ => if provided.contains(s) {
            Routine::Application(s)
        } else {
            Routine::Default
        },
    }
}

/// Whether entering the routine stops the processor for good.
pub open spec fn halts(r: Routine) -> bool {
    r == Routine::Nmi || r == Routine::HardFault || r == Routine::Default
}

/// A source whose handler the application did not supply never resolves to
/// application code: it resolves to a routine of this crate.
pub proof fn lemma_unbound_stays_local(provided: Set<Source>, s: Source)
    requires
        !provided.contains(s),
    ensures
        !(resolve(provided, s) is Application),
        s != Source::Reset ==> halts(resolve(provided, s)),
{
}

/// A vector never resolves to the handler of another source.
pub proof fn lemma_resolve_own_handler(provided: Set<Source>, s: Source, t: Source)
    requires
        resolve(provided, s) == Routine::Application(t),
    ensures
        s == t,
        provided.contains(s),
        !locally_defined(s),
{
}

impl Routine {
    /// Whether entering this routine stops the processor for good.
    pub fn halts(self) -> (h: bool)
        ensures
            h == halts(self),
    {
        match self {
            Routine::Nmi | Routine::HardFault | Routine::Default => true,
            Routine::Reset | Routine::Application(_) => false,
        }
    }
}

impl Source {
    /// Whether the handler of this source is defined by this crate.
    pub fn is_locally_defined(self) -> (l: bool)
        ensures
            l == locally_defined(self),
    {
        match self {
            Source::Reset | Source::Nmi | Source::HardFault => true,
            _ => false,
        }
    }
}

/// The handlers that the application supplies.
pub struct Bindings {
    provided: Vec<Source>,
}

impl View for Bindings {
    type V = Set<Source>;

    closed spec fn view(&self) -> Set<Source> {
        self.provided@.to_set()
    }
}

impl Bindings {
    /// The bindings of an application that supplies no handler.
    pub fn new() -> (b: Bindings)
        ensures
            b@ == Set::<Source>::empty(),
    {
        let b = Bindings { provided: Vec::new() };
        assert(b.provided@.to_set() =~= Set::<Source>::empty());
        b
    }

    /// Whether the application supplies the handler of `s`.
    pub fn is_bound(&self, s: Source) -> (b: bool)
        ensures
            b == self@.contains(s),
    {
        let mut i: usize = 0;
        while i < self.provided.len()
            invariant
                i <= self.provided@.len(),
                forall|k: int| 0 <= k < i ==> self.provided@[k] != s,
            decreases self.provided@.len() - i,
        {
            if self.provided[i] == s {
                return true;
            }
            i = i + 1;
        }
        false
    }

    /// Records that the application supplies the handler of `s`.
    ///
    /// A handler defined by this crate cannot be replaced, and a source
    /// takes one handler only; in both cases nothing changes.
    pub fn bind(&mut self, s: Source) -> (r: Result<(), BindError>)
        ensures
            locally_defined(s) ==> r == Err::<(), BindError>(BindError::LocallyDefined),
            !locally_defined(s) && old(self)@.contains(s) ==> r == Err::<(), BindError>(
                BindError::AlreadyBound,
            ),
            !locally_defined(s) && !old(self)@.contains(s) ==> r == Ok::<(), BindError>(()),
            r.is_ok() ==> final(self)@ == old(self)@.insert(s),
            r.is_err() ==> final(self)@ == old(self)@,
    {
        if s.is_locally_defined() {
            return Err(BindError::LocallyDefined);
        }
        if self.is_bound(s) {
            return Err(BindError::AlreadyBound);
        }
        let ghost before = self.provided@;
        self.provided.push(s);
        proof {
            assert(self.provided@ == before.push(s));
            assert(self.provided@.to_set() =~= before.to_set().insert(s)) by {
                assert forall|x: Source| self.provided@.contains(x) <==> (before.contains(x) || x == s) by {
                    if before.contains(x) {
                        let k = choose|k: int| 0 <= k < before.len() && before[k] == x;
                        assert(self.provided@[k] == x);
                    }
                    if x == s {
                        assert(self.provided@[before.len() as int] == s);
                    }
                }
            }
        }
        Ok(())
    }

    /// The routine that the vector of `s` resolves to.
    pub fn resolve(&self, s: Source) -> (r: Routine)
        ensures
            r == resolve(self@, s),
    {
        if s == Source::Reset {
            Routine::Reset
        } else if s == Source::Nmi {
            Routine::Nmi
        } else if s == Source::HardFault {
            Routine::HardFault
        } else if self.is_bound(s) {
            Routine::Application(s)
        } else {
            Routine::Default
        }
    }
}

} // verus!
