//! The installer's one-time guard: of any number of installation attempts,
//! exactly the first is granted, so the resolver is initialized and the
//! handler registered exactly once. The configuration carries the search
//! path the symbol resolver is pointed at.
use vstd::prelude::*;
use vstd::string::StringExecFns;

verus! {

/// A one-shot guard over the process-wide registration: the first attempt
/// is granted, every later one finds the work already done.
pub struct InstallOnce {
    installed: bool,
}

/// How many of `calls` successive attempts on a guard in state `installed`
/// are granted.
pub open spec fn grants_after(installed: bool, calls: nat) -> nat
    decreases calls,
{
    if calls == 0 {
        0
    } else {
        (if installed {
            0nat
        } else {
            1nat
        }) + grants_after(true, (calls - 1) as nat)
    }
}

impl InstallOnce {
    /// Whether the one-time installation has already happened.
    pub closed spec fn spec_installed(self) -> bool {
        self.installed
    }

    /// A fresh guard: nothing installed yet.
    pub fn new() -> (g: Self)
        ensures
            !g.spec_installed(),
    {
        InstallOnce { installed: false }
    }

    /// One installation attempt. Returns whether this attempt is the one
    /// that performs the installation; afterwards the guard is always in
    /// the installed state.
    pub fn try_begin(&mut self) -> (first: bool)
        ensures
            final(self).spec_installed(),
            first == !old(self).spec_installed(),
    {
        let first = !self.installed;
        self.installed = true;
        first
    }

    /// Performs `calls` successive installation attempts and counts how
    /// many were granted.
    pub fn run_attempts(&mut self, calls: usize) -> (granted: usize)
        ensures
            granted as nat == grants_after(old(self).spec_installed(), calls as nat),
            calls > 0 ==> final(self).spec_installed(),
            calls == 0 ==> final(self).spec_installed() == old(self).spec_installed(),
    {
        let mut granted: usize = 0;
        let mut i: usize = 0;
        while i < calls
            invariant
                i <= calls,
                granted <= i,
                grants_after(old(self).spec_installed(), calls as nat) == granted
                    + grants_after(self.spec_installed(), (calls - i) as nat),
                i > 0 ==> self.spec_installed(),
                i == 0 ==> self.spec_installed() == old(self).spec_installed(),
            decreases calls - i,
        {
            let first = self.try_begin();
            if first {
                granted = granted + 1;
            }
            i = i + 1;
        }
        proof {
            assert(grants_after(self.spec_installed(), 0) == 0);
        }
        granted
    }
}

proof fn lemma_no_grant_once_installed(calls: nat)
    ensures
        grants_after(true, calls) == 0,
    decreases calls,
{
    if calls > 0 {
        lemma_no_grant_once_installed((calls - 1) as nat);
    }
}

/// Idempotence of installation: from a fresh guard, any positive number of
/// attempts — however many callers race to initialize — grants the
/// installation exactly once.
pub proof fn lemma_exactly_one_grant(calls: nat)
    requires
        calls >= 1,
    ensures
        grants_after(false, calls) == 1,
{
    lemma_no_grant_once_installed((calls - 1) as nat);
}

/// Configuration for enabling the handler: where the symbol resolver looks
/// for debug-information files.
pub struct EnableConfig {
    /// Semicolon-separated directories to scan for matching debug info.
    pub symbol_search_path: String,
}

/// The default symbol search path: the two usual build-output directories.
pub fn default_symbol_search_path() -> (s: String)
    ensures
        s@ == "./target/debug;./target/release"@,
{
    String::from_str("./target/debug;./target/release")
}

impl Default for EnableConfig {
    /// The default configuration scans the usual build-output directories.
    fn default() -> (c: Self)
        ensures
            c.symbol_search_path@ == "./target/debug;./target/release"@,
    {
        EnableConfig { symbol_search_path: default_symbol_search_path() }
    }
}

} // verus!
