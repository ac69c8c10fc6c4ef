//! Interrupts

use vstd::prelude::*;
use crate::peripheral::nvic::LINES;
use crate::register::primask::Primask;

verus! {

/// The processor's global interrupt mask.
///
/// On a device the three operations are single instructions. Whoever
/// implements them there must make each a barrier for the compiler and for
/// memory accesses, in both directions.
pub trait Mask {
    /// Whether exceptions with configurable priority can currently be taken.
    spec fn state(&self) -> Primask;

    /// Reads the mask. Reading changes nothing.
    fn read_mask(&self) -> (primask: Primask)
        ensures
            primask == self.state(),
    ;

    /// Masks all exceptions with configurable priority, whatever the mask was.
    fn disable_all(&mut self)
        ensures
            final(self).state() == Primask::Inactive,
    ;

    /// Unmasks all exceptions with configurable priority, whatever the mask
    /// was.
    fn enable_all(&mut self)
        ensures
            final(self).state() == Primask::Active,
    ;
}

/// An interrupt mask kept in memory.
pub struct SoftMask {
    primask: Primask,
}

impl View for SoftMask {
    type V = Primask;

    closed spec fn view(&self) -> Primask {
        self.primask
    }
}

impl SoftMask {
    /// Creates a mask in the given state.
    pub fn new(primask: Primask) -> (mask: Self)
        ensures
            mask@ == primask,
    {
        SoftMask { primask }
    }
}

impl Mask for SoftMask {
    open spec fn state(&self) -> Primask {
        self@
    }

    fn read_mask(&self) -> (primask: Primask) {
        self.primask
    }

    fn disable_all(&mut self) {
        self.primask = Primask::Inactive;
    }

    fn enable_all(&mut self) {
        self.primask = Primask::Active;
    }
}

/// A "mutex" based on critical sections
pub struct Mutex<T> {
    inner: T,
}

impl<T> View for Mutex<T> {
    type V = T;

    /// The data that the mutex guards.
    closed spec fn view(&self) -> T {
        self.inner
    }
}

impl<T> Mutex<T> {
    /// The mutex that `new` makes of `value`.
    pub closed spec fn spec_new(value: T) -> Self {
        Mutex { inner: value }
    }

    /// Creates a new mutex
    pub fn new(value: T) -> (mutex: Self)
        ensures
            mutex == Self::spec_new(value),
            mutex@ == value,
    {
        Mutex { inner: value }
    }

    /// Borrows the data for the duration of the critical section
    pub fn borrow<'cs>(&'cs self, _ctxt: &'cs CriticalSection) -> (data: &'cs T)
        ensures
            *data == self@,
    {
        &self.inner
    }

    /// A mutex that was just created lends out the value it was created with,
    /// whichever critical section asks for it.
    pub proof fn lemma_new_then_borrow(value: T)
        ensures
            Self::spec_new(value)@ == value,
    {
    }
}

/// Interrupt number
///
/// A value of a type with this trait stands for one interrupt line of the
/// device: its number is below [`LINES`](crate::peripheral::nvic::LINES).
pub trait Nr {
    /// The interrupt line that this value stands for.
    spec fn line(&self) -> u8;

    /// Returns the number associated with this interrupt
    fn nr(&self) -> (nr: u8)
        ensures
            nr == self.line(),
            nr < LINES,
    ;
}

/// Disables all interrupts
#[inline(always)]
pub fn disable<M>(mask: &mut M) where M: Mask
    ensures
        final(mask).state() == Primask::Inactive,
{
    mask.disable_all()
}

/// Enables all the interrupts
///
/// Do not call this function inside an `interrupt::free` critical section:
/// `free` asks of its closure that it leaves the interrupts disabled.
#[inline(always)]
pub fn enable<M>(mask: &mut M) where M: Mask
    ensures
        final(mask).state() == Primask::Active,
{
    mask.enable_all()
}

/// Critical section context
///
/// Indicates that you are executing code within a critical section
pub struct CriticalSection {
    _0: (),
}

/// Execute closure `f` in an interrupt-free context.
///
/// This as also known as a "critical section".
///
/// The interrupts are disabled before `f` runs, and `f` must leave them
/// disabled. After `f`, the mask is put back as it was found: interrupts are
/// enabled again only if they were enabled before the call. So sections nest
/// to any depth, and only the outermost one re-enables.
pub fn free<M, F, R>(mask: &mut M, f: F) -> (r: R) where
    M: Mask,
    F: FnOnce(&mut M, &CriticalSection) -> R,

    requires
        forall|m: &mut M, cs: &CriticalSection|
            m.state() == Primask::Inactive ==> #[trigger] call_requires(f, (m, cs)),
        forall|m: &mut M, cs: &CriticalSection, r: R|
            m.state() == Primask::Inactive && #[trigger] call_ensures(f, (m, cs), r)
                ==> final(m).state() == Primask::Inactive,
    ensures
        final(mask).state() == old(mask).state(),
        exists|m: &mut M, cs: &CriticalSection|
            m.state() == Primask::Inactive && #[trigger] call_ensures(f, (m, cs), r),
{
    let primask = mask.read_mask();

    // disable interrupts
    mask.disable_all();

    let r = f(mask, &CriticalSection { _0: () });

    // If the interrupts were active before our `disable` call, then re-enable
    // them. Otherwise, keep them disabled
    if primask.is_active() {
        mask.enable_all();
    }
    r
}

} // verus!
