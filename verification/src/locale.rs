//! Locale handling: which primitive each platform uses, and the
//! scoped swap of a thread's active locale.
//!
//! The ambient locale is process-global, mutable state that the
//! platform exposes through a per-thread override.  The shims must
//! behave as under the "C" locale whatever locale is active, so each
//! operation either reaches a locale-parameterized primitive directly
//! or temporarily installs a "C" locale in the calling thread's
//! active-locale slot and restores the previous one afterwards.
//! The selection logic and the swap discipline are verified here;
//! the unverified shell performs the actual platform calls in the
//! order these types dictate.
//!
//! A locale object is opaque: a `usize` token stands for one handle
//! (the null token included), exactly as the platform hands it out.

use vstd::prelude::*;

verus! {

/// The operating-system flavors the shims distinguish.  `Other`
/// covers every system that offers the standard per-thread
/// locale-override primitive but no locale-agnostic default
/// comparison.
#[derive(Clone, Copy, PartialEq, Eq, Debug, Structural)]
pub enum Platform {
    Android,
    MacOs,
    Other,
}

/// How one case-insensitive comparison reaches the platform.
#[derive(Clone, Copy, PartialEq, Eq, Debug, Structural)]
pub enum CompareStrategy {
    /// Call the locale-parameterized comparison with the caller's handle.
    WithCallerHandle,
    /// Call the plain comparison; on this platform it is already
    /// locale-agnostic.
    PlainDefault,
    /// Call the locale-parameterized comparison with the null handle,
    /// which this platform treats as the "C" locale.
    WithNullHandle,
    /// Compare under "C"-locale folding rules with no caller handle
    /// involved; `crate::string_shims::compare_c_locale` implements
    /// exactly this rule.
    UnderCLocale,
}

/// The caller supplied an explicit locale handle on a platform that
/// has no locale-parameterized comparison: a fatal configuration
/// error, never a silent fallback.
#[derive(Clone, Copy, PartialEq, Eq, Debug, Structural)]
pub struct UnsupportedExplicitLocale;

/// Selects how a case-insensitive comparison honors the caller's
/// locale choice on the given platform.  An explicit handle is used
/// directly where the platform can take one and is a fatal
/// configuration error where it cannot; without one, the platform's
/// cheapest locale-independent path is chosen.
pub fn compare_strategy(platform: Platform, has_handle: bool) -> (strategy: Result<
    CompareStrategy,
    UnsupportedExplicitLocale,
>)
    ensures
        strategy is Err <==> has_handle && platform == Platform::Android,
        has_handle && platform != Platform::Android ==> strategy == Ok::<_, UnsupportedExplicitLocale>(
            CompareStrategy::WithCallerHandle,
        ),
        !has_handle ==> strategy == Ok::<_, UnsupportedExplicitLocale>(
            match platform {
                Platform::Android => CompareStrategy::PlainDefault,
                Platform::MacOs => CompareStrategy::WithNullHandle,
                Platform::Other => CompareStrategy::UnderCLocale,
            },
        ),
{
    if has_handle {
        if platform == Platform::Android {
            Err(UnsupportedExplicitLocale)
        } else {
            Ok(CompareStrategy::WithCallerHandle)
        }
    } else {
        match platform {
            Platform::Android => Ok(CompareStrategy::PlainDefault),
            Platform::MacOs => Ok(CompareStrategy::WithNullHandle),
            Platform::Other => Ok(CompareStrategy::UnderCLocale),
        }
    }
}

/// How one floating-point parse reaches the platform.
#[derive(Clone, Copy, PartialEq, Eq, Debug, Structural)]
pub enum ParseStrategy {
    /// Call the locale-parameterized parser with the caller's handle.
    WithCallerHandle,
    /// Create a "C" locale, install it in the calling thread's
    /// active-locale slot, run the locale-implicit parser, and
    /// restore the previous locale afterwards.
    ScopedCSwap,
}

/// Selects how a floating-point parse reaches the platform: directly
/// where a locale-parameterized parser exists, through a scoped "C"
/// locale swap everywhere else.
pub fn parse_strategy(platform: Platform) -> (strategy: ParseStrategy)
    ensures
        strategy == (if platform == Platform::MacOs {
            ParseStrategy::WithCallerHandle
        } else {
            ParseStrategy::ScopedCSwap
        }),
{
    match platform {
        Platform::MacOs => ParseStrategy::WithCallerHandle,
        _ => ParseStrategy::ScopedCSwap,
    }
}

/// Installing a locale in an active-locale slot: the new handle
/// becomes active and the handle that was active is handed back.
pub open spec fn install(active: usize, new_handle: usize) -> (usize, usize) {
    (new_handle, active)
}

/// One thread's active-locale slot.  Each thread owns exactly one;
/// the platform's per-thread override means a swap in one thread is
/// invisible to every other slot.
pub struct ActiveLocale {
    handle: usize,
}

impl ActiveLocale {
    /// The token of the locale this slot holds active.
    pub closed spec fn active_handle(&self) -> usize {
        self.handle
    }

    /// A slot whose active locale is `handle`.
    pub fn new(handle: usize) -> (slot: ActiveLocale)
        ensures
            slot.active_handle() == handle,
    {
        ActiveLocale { handle }
    }

    /// The token of the locale this slot holds active.
    pub fn handle(&self) -> (h: usize)
        ensures
            h == self.active_handle(),
    {
        self.handle
    }

    /// Installs `new_handle` and hands back the handle that was
    /// active, exactly as the platform's locale-override call does.
    pub fn swap(&mut self, new_handle: usize) -> (previous: usize)
        ensures
            (final(self).active_handle(), previous) == install(
                old(self).active_handle(),
                new_handle,
            ),
    {
        let previous = self.handle;
        self.handle = new_handle;
        previous
    }
}

/// A scoped locale swap in flight: the temporary locale has been
/// installed and the handle to restore is held until the scope ends.
pub struct LocaleScope {
    saved: usize,
}

impl LocaleScope {
    /// The handle that will be reinstalled when the scope ends.
    pub closed spec fn saved_handle(&self) -> usize {
        self.saved
    }

    /// Installs `temporary` in the slot and opens a scope that
    /// remembers the locale that was active.
    pub fn enter(slot: &mut ActiveLocale, temporary: usize) -> (scope: LocaleScope)
        ensures
            final(slot).active_handle() == temporary,
            scope.saved_handle() == old(slot).active_handle(),
    {
        let saved = slot.swap(temporary);
        LocaleScope { saved }
    }

    /// Ends the scope: the locale that was active when the scope was
    /// entered becomes active again.  Consuming `self` makes a second
    /// restore from the same scope impossible.
    pub fn exit(self, slot: &mut ActiveLocale)
        ensures
            final(slot).active_handle() == self.saved_handle(),
    {
        let LocaleScope { saved } = self;
        slot.swap(saved);
    }
}

/// Locale independence of the scoped swap: whatever locale is active
/// when the scope opens, the guarded operation runs under the
/// installed handle, and restoring what the installation handed back
/// makes the original locale active again.  With one slot per thread
/// this also means a call leaves the calling thread's ambient locale
/// exactly as it found it.
pub proof fn lemma_scoped_swap_restores(ambient: usize, temporary: usize)
    ensures
        install(ambient, temporary).0 == temporary,
        install(install(ambient, temporary).0, install(ambient, temporary).1).0 == ambient,
{
}

/// Thread isolation of the scoped swap: each thread swaps only its
/// own active-locale slot, so two concurrent scoped parses, whatever
/// locales their threads had active, both run under the "C" handle
/// they install, and each thread ends with exactly its own previous
/// locale active again.
pub proof fn lemma_scoped_swap_thread_isolation(
    ambient_a: usize,
    ambient_b: usize,
    c_handle: usize,
)
    ensures
        install(ambient_a, c_handle).0 == install(ambient_b, c_handle).0,
        install(install(ambient_a, c_handle).0, install(ambient_a, c_handle).1).0 == ambient_a,
        install(install(ambient_b, c_handle).0, install(ambient_b, c_handle).1).0 == ambient_b,
{
}

} // verus!
