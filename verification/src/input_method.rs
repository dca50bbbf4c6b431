//! Input-method negotiation: the ordered candidate list of locale
//! modifiers and the protocol that tries them one by one until a native
//! open succeeds.
//!
//! Candidates come in three tiers: the environment-supplied modifier, the
//! modifiers advertised by the display server, and two static fallbacks.
//! The adapter performs each native open attempt; the machine here fixes
//! which candidate is tried when, records failures, and binds a success to
//! the candidate that produced it.

use vstd::prelude::*;
use vstd::string::*;

verus! {

/// A successfully opened input method: the native handle and the locale
/// modifier it was opened with.
#[derive(Debug, Clone, PartialEq, Eq)]
pub struct InputMethod {
    pub im: u64,
    pub name: String,
}

impl InputMethod {
    pub fn new(im: u64, name: String) -> (r: Self)
        ensures
            r.im == im,
            r.name@ == name@,
    {
        InputMethod { im, name }
    }
}

/// Outcome of a whole negotiation, remembering which tier the winning
/// candidate came from.
#[derive(Debug, Clone, PartialEq, Eq)]
pub enum InputMethodResult {
    /// Opened with the locale modifier from the environment.
    XModifiers(InputMethod),
    /// Opened with a locale modifier advertised by the display server.
    XimServers(InputMethod),
    /// Opened with one of the static fallback modifiers.
    Fallbacks(InputMethod),
    /// Every candidate was tried and none opened.
    Failure,
}

impl InputMethodResult {
    /// The opened input method, regardless of tier; `None` on failure.
    pub fn ok(self) -> (r: Option<InputMethod>)
        ensures
            (match self {
                InputMethodResult::XModifiers(im) => r == Some(im),
                InputMethodResult::XimServers(im) => r == Some(im),
                InputMethodResult::Fallbacks(im) => r == Some(im),
                InputMethodResult::Failure => r == None::<InputMethod>,
            }),
    {
        match self {
            InputMethodResult::XModifiers(im) => Some(im),
            InputMethodResult::XimServers(im) => Some(im),
            InputMethodResult::Fallbacks(im) => Some(im),
            InputMethodResult::Failure => None,
        }
    }
}

/// The tier a candidate belongs to.
#[derive(Debug, Copy, Clone, PartialEq, Eq, Structural)]
pub enum CandidateTier {
    Environment,
    Server,
    Fallback,
}

/// One candidate locale modifier and whether its last open attempt failed.
#[derive(Debug, Clone, PartialEq, Eq)]
pub struct PotentialInputMethod {
    pub name: String,
    pub failed: bool,
}

impl PotentialInputMethod {
    pub fn from_string(name: String) -> (r: Self)
        ensures
            r.name@ == name@,
            !r.failed,
    {
        PotentialInputMethod { name, failed: false }
    }

    pub fn reset(&mut self)
        ensures
            final(self).name@ == old(self).name@,
            !final(self).failed,
    {
        self.failed = false;
    }
}

/// Every known candidate locale modifier, grouped by tier and kept in the
/// order negotiation tries them.
#[derive(Debug, Clone, PartialEq, Eq)]
pub struct PotentialInputMethods {
    /// The environment-supplied modifier, when the variable is set.
    pub xmodifiers: Option<PotentialInputMethod>,
    /// The modifiers advertised by the display server, in server order,
    /// when the query succeeded.
    pub xim_servers: Option<Vec<PotentialInputMethod>>,
    /// The static fallbacks, tried last and in fixed order.
    pub fallbacks: Vec<PotentialInputMethod>,
}

impl PotentialInputMethods {
    /// How many candidates the environment tier holds.
    pub open spec fn env_count(&self) -> int {
        if self.xmodifiers is Some {
            1
        } else {
            0
        }
    }

    /// How many candidates the server tier holds.
    pub open spec fn server_count(&self) -> int {
        if self.xim_servers is Some {
            self.xim_servers->Some_0@.len() as int
        } else {
            0
        }
    }

    /// Total number of candidates over all three tiers.
    pub open spec fn total_spec(&self) -> int {
        self.env_count() + self.server_count() + self.fallbacks@.len()
    }

    /// The candidate at position `i` of the flattened order: environment,
    /// then server candidates, then fallbacks.
    pub open spec fn candidate(&self, i: int) -> PotentialInputMethod {
        if i < self.env_count() {
            self.xmodifiers->Some_0
        } else if i < self.env_count() + self.server_count() {
            self.xim_servers->Some_0@[i - self.env_count()]
        } else {
            self.fallbacks@[i - self.env_count() - self.server_count()]
        }
    }

    /// The tier of the candidate at position `i`.
    pub open spec fn tier_of(&self, i: int) -> CandidateTier {
        if i < self.env_count() {
            CandidateTier::Environment
        } else if i < self.env_count() + self.server_count() {
            CandidateTier::Server
        } else {
            CandidateTier::Fallback
        }
    }

    /// Builds the candidate list from the environment modifier (if set)
    /// and the server-advertised names (if the query succeeded). The two
    /// static fallbacks are the standard local input method, which still
    /// supports compose sequences, and the empty modifier, which selects
    /// the implementation default.
    pub fn new(xmodifiers: Option<String>, xim_server_names: Option<Vec<String>>) -> (r: Self)
        ensures
            r.env_count() == (if xmodifiers is Some {
                1int
            } else {
                0int
            }),
            xmodifiers is Some ==> r.xmodifiers->Some_0.name@ == xmodifiers->Some_0@
                && !r.xmodifiers->Some_0.failed,
            xim_server_names is Some <==> r.xim_servers is Some,
            xim_server_names is Some ==> {
                &&& r.xim_servers->Some_0@.len() == xim_server_names->Some_0@.len()
                &&& forall|i: int|
                    0 <= i < xim_server_names->Some_0@.len() ==> (
                    #[trigger] r.xim_servers->Some_0@[i]).name@ == xim_server_names->Some_0@[i]@
                        && !r.xim_servers->Some_0@[i].failed
            },
            r.fallbacks@.len() == 2,
            r.fallbacks@[0].name@ == "@im=local"@,
            r.fallbacks@[1].name@ == "@im="@,
            !r.fallbacks@[0].failed,
            !r.fallbacks@[1].failed,
    {
        let env_candidate = match xmodifiers {
            Some(name) => Some(PotentialInputMethod::from_string(name)),
            None => None,
        };
        let server_candidates = match xim_server_names {
            Some(names) => {
                let mut candidates: Vec<PotentialInputMethod> = Vec::new();
                let mut i: usize = 0;
                while i < names.len()
                    invariant
                        i <= names.len(),
                        candidates@.len() == i,
                        forall|j: int|
                            0 <= j < i ==> (#[trigger] candidates@[j]).name@ == names@[j]@
                                && !candidates@[j].failed,
                    decreases names.len() - i,
                {
                    candidates.push(PotentialInputMethod::from_string(names[i].clone()));
                    i = i + 1;
                }
                Some(candidates)
            },
            None => None,
        };
        let mut fallbacks: Vec<PotentialInputMethod> = Vec::new();
        fallbacks.push(PotentialInputMethod::from_string("@im=local".to_string()));
        fallbacks.push(PotentialInputMethod::from_string("@im=".to_string()));
        PotentialInputMethods { xmodifiers: env_candidate, xim_servers: server_candidates, fallbacks }
    }

    /// Total number of candidates, as a machine integer.
    pub fn total(&self) -> (r: usize)
        requires
            self.total_spec() <= usize::MAX,
        ensures
            r == self.total_spec(),
    {
        let env: usize = if self.xmodifiers.is_some() {
            1
        } else {
            0
        };
        let servers: usize = match &self.xim_servers {
            Some(v) => v.len(),
            None => 0,
        };
        env + servers + self.fallbacks.len()
    }

    /// The locale modifier of the candidate at position `i`.
    pub fn candidate_name(&self, i: usize) -> (r: String)
        requires
            self.total_spec() <= usize::MAX,
            0 <= i < self.total_spec(),
        ensures
            r@ == self.candidate(i as int).name@,
    {
        let env: usize = if self.xmodifiers.is_some() {
            1
        } else {
            0
        };
        let servers: usize = match &self.xim_servers {
            Some(v) => v.len(),
            None => 0,
        };
        if i < env {
            match &self.xmodifiers {
                Some(candidate) => candidate.name.clone(),
                None => String::new(),
            }
        } else if i < env + servers {
            match &self.xim_servers {
                Some(v) => v[i - env].name.clone(),
                None => String::new(),
            }
        } else {
            self.fallbacks[i - env - servers].name.clone()
        }
    }

    /// Whether the candidate at position `i` is marked failed.
    pub open spec fn failed_of(&self, i: int) -> bool {
        self.candidate(i).failed
    }

    /// Clears every candidate's `failed` flag, so that a re-negotiation
    /// after a server bounce starts from accurate information.
    #[verifier::loop_isolation(false)]
    pub fn reset(&mut self)
        ensures
            final(self).total_spec() == old(self).total_spec(),
            final(self).env_count() == old(self).env_count(),
            final(self).server_count() == old(self).server_count(),
            forall|i: int|
                0 <= i < final(self).total_spec() ==> (#[trigger] final(self).candidate(i)).name@
                    == old(self).candidate(i).name@,
            forall|i: int| 0 <= i < final(self).total_spec() ==> !(#[trigger] final(self).failed_of(i)),
    {
        let env = match &self.xmodifiers {
            Some(candidate) => Some(
                PotentialInputMethod { name: candidate.name.clone(), failed: false },
            ),
            None => None,
        };
        let servers = match &self.xim_servers {
            Some(candidates) => {
                let mut cleared: Vec<PotentialInputMethod> = Vec::new();
                let mut i: usize = 0;
                while i < candidates.len()
                    invariant
                        i <= candidates.len(),
                        cleared@.len() == i,
                        forall|j: int|
                            0 <= j < i ==> (#[trigger] cleared@[j]).name@ == candidates@[j].name@
                                && !cleared@[j].failed,
                    decreases candidates.len() - i,
                {
                    cleared.push(
                        PotentialInputMethod { name: candidates[i].name.clone(), failed: false },
                    );
                    i = i + 1;
                }
                Some(cleared)
            },
            None => None,
        };
        let mut fallbacks: Vec<PotentialInputMethod> = Vec::new();
        let mut i: usize = 0;
        while i < self.fallbacks.len()
            invariant
                i <= self.fallbacks.len(),
                fallbacks@.len() == i,
                forall|j: int|
                    0 <= j < i ==> (#[trigger] fallbacks@[j]).name@ == self.fallbacks@[j].name@
                        && !fallbacks@[j].failed,
            decreases self.fallbacks.len() - i,
        {
            fallbacks.push(PotentialInputMethod { name: self.fallbacks[i].name.clone(), failed: false });
            i = i + 1;
        }
        self.xmodifiers = env;
        self.xim_servers = servers;
        self.fallbacks = fallbacks;
    }

    /// Marks the candidate at position `i` failed, leaving every other
    /// candidate untouched.
    pub fn mark_failed(&mut self, i: usize)
        requires
            old(self).total_spec() <= usize::MAX,
            0 <= i < old(self).total_spec(),
        ensures
            final(self).total_spec() == old(self).total_spec(),
            final(self).env_count() == old(self).env_count(),
            final(self).server_count() == old(self).server_count(),
            forall|j: int|
                0 <= j < final(self).total_spec() ==> #[trigger] final(self).candidate(j).name@
                    == old(self).candidate(j).name@,
            final(self).failed_of(i as int),
            forall|j: int|
                0 <= j < final(self).total_spec() && j != i ==> #[trigger] final(self).failed_of(j)
                    == old(self).failed_of(j),
    {
        let env: usize = if self.xmodifiers.is_some() {
            1
        } else {
            0
        };
        let servers: usize = match &self.xim_servers {
            Some(v) => v.len(),
            None => 0,
        };
        if i < env {
            if let Some(candidate) = &mut self.xmodifiers {
                candidate.failed = true;
            }
        } else if i < env + servers {
            if let Some(candidates) = &mut self.xim_servers {
                let entry = &mut candidates[i - env];
                entry.failed = true;
            }
        } else {
            let entry = &mut self.fallbacks[i - env - servers];
            entry.failed = true;
        }
    }

    /// Binds a successful native open at candidate `i` to its tier: the
    /// result carries the input method handle and the candidate's name,
    /// wrapped in the variant of the tier it came from.
    pub fn bind_success(&self, i: usize, im: u64) -> (r: InputMethodResult)
        requires
            self.total_spec() <= usize::MAX,
            0 <= i < self.total_spec(),
        ensures
            self.tier_of(i as int) == CandidateTier::Environment ==> (r matches
                InputMethodResult::XModifiers(m) && m.im == im && m.name@ == self.candidate(
                i as int,
            ).name@),
            self.tier_of(i as int) == CandidateTier::Server ==> (r matches
                InputMethodResult::XimServers(m) && m.im == im && m.name@ == self.candidate(
                i as int,
            ).name@),
            self.tier_of(i as int) == CandidateTier::Fallback ==> (r matches
                InputMethodResult::Fallbacks(m) && m.im == im && m.name@ == self.candidate(
                i as int,
            ).name@),
    {
        let env: usize = if self.xmodifiers.is_some() {
            1
        } else {
            0
        };
        let servers: usize = match &self.xim_servers {
            Some(v) => v.len(),
            None => 0,
        };
        let method = InputMethod::new(im, self.candidate_name(i));
        if i < env {
            InputMethodResult::XModifiers(method)
        } else if i < env + servers {
            InputMethodResult::XimServers(method)
        } else {
            InputMethodResult::Fallbacks(method)
        }
    }
}

/// The cursor of one negotiation over the flattened candidate list.
///
/// Well-formedness ties it to the candidate list: every candidate before
/// the cursor has been tried and marked failed, and no candidate at or
/// after the cursor has been touched.
#[derive(Debug, Copy, Clone, PartialEq, Eq, Structural)]
pub struct Negotiation {
    pub index: usize,
}

impl Negotiation {
    /// The negotiation invariant over its candidate list.
    pub open spec fn wf(&self, pims: &PotentialInputMethods) -> bool {
        &&& self.index <= pims.total_spec()
        &&& forall|j: int| 0 <= j < self.index ==> #[trigger] pims.failed_of(j)
        &&& forall|j: int| self.index <= j < pims.total_spec() ==> !(#[trigger] pims.failed_of(j))
    }
}

impl PotentialInputMethods {
    /// Starts a negotiation: failure flags reset, cursor on the first
    /// candidate.
    pub fn begin_open(&mut self) -> (neg: Negotiation)
        ensures
            neg.index == 0,
            neg.wf(final(self)),
            final(self).total_spec() == old(self).total_spec(),
            final(self).env_count() == old(self).env_count(),
            final(self).server_count() == old(self).server_count(),
            forall|i: int|
                0 <= i < final(self).total_spec() ==> #[trigger] final(self).candidate(i).name@
                    == old(self).candidate(i).name@,
    {
        self.reset();
        Negotiation { index: 0 }
    }

    /// Records that the native open of the current candidate returned
    /// null: the candidate is marked failed and the cursor moves on.
    pub fn record_failure(&mut self, neg: &mut Negotiation)
        requires
            old(self).total_spec() <= usize::MAX,
            old(neg).wf(&*old(self)),
            old(neg).index < old(self).total_spec(),
        ensures
            final(neg).index == old(neg).index + 1,
            final(neg).wf(&*final(self)),
            final(self).total_spec() == old(self).total_spec(),
            final(self).env_count() == old(self).env_count(),
            final(self).server_count() == old(self).server_count(),
            forall|i: int|
                0 <= i < final(self).total_spec() ==> #[trigger] final(self).candidate(i).name@
                    == old(self).candidate(i).name@,
    {
        self.mark_failed(neg.index);
        neg.index = neg.index + 1;
    }
}

/// First success wins, strictly in tier order. When a negotiation stands
/// on candidate `i`, every candidate before `i` — and only those — has
/// been tried and failed; in particular, a success bound on an
/// environment- or server-tier candidate leaves every static fallback
/// untried.
pub proof fn lemma_first_success_wins(pims: &PotentialInputMethods, neg: &Negotiation)
    requires
        neg.wf(pims),
        neg.index < pims.total_spec(),
    ensures
        forall|j: int| 0 <= j < neg.index ==> #[trigger] pims.failed_of(j),
        forall|j: int| neg.index <= j < pims.total_spec() ==> !(#[trigger] pims.failed_of(j)),
        pims.tier_of(neg.index as int) != CandidateTier::Fallback ==> forall|j: int|
            pims.env_count() + pims.server_count() <= j < pims.total_spec() ==> !(
            #[trigger] pims.failed_of(j)),
{
    assert(pims.tier_of(neg.index as int) != CandidateTier::Fallback ==> neg.index
        < pims.env_count() + pims.server_count());
}

/// Formats a server-advertised name for use as a locale modifier: the
/// atom names on the server list read `@server=...`, while locale
/// modifiers read `@im=...`.
pub fn format_xim_server_name(name: &str) -> (r: String)
    ensures
        name@.len() >= 8 && name@.subrange(0, 8) =~= "@server="@ ==> r@ =~= "@im="@ + name@.subrange(
            8,
            name@.len() as int,
        ),
        !(name@.len() >= 8 && name@.subrange(0, 8) =~= "@server="@) ==> r@ == name@,
{
    proof {
        reveal_strlit("@server=");
    }
    let len = name.unicode_len();
    if len >= 8 && str_eq_at(name, 0, "@server=") {
        let prefix = String::from_str("@im=");
        let rest = name.substring_char(8, len);
        prefix.concat(rest)
    } else {
        String::from_str(name)
    }
}

/// Whether `text` occurs in `name` starting at character `at`.
fn str_eq_at(name: &str, at: usize, text: &str) -> (r: bool)
    requires
        at + text@.len() <= name@.len(),
    ensures
        r == (name@.subrange(at as int, at as int + text@.len() as int) =~= text@),
{
    let total = name.unicode_len();
    let n = text.unicode_len();
    let mut i: usize = 0;
    while i < n
        invariant
            i <= n,
            n == text@.len(),
            total == name@.len(),
            at + n <= name@.len(),
            forall|j: int| 0 <= j < i ==> name@[at + j] == text@[j],
        decreases n - i,
    {
        if name.get_char(at + i) != text.get_char(i) {
            assert(name@.subrange(at as int, at as int + text@.len() as int)[i as int]
                != text@[i as int]);
            return false;
        }
        i = i + 1;
    }
    proof {
        assert forall|j: int| 0 <= j < n implies name@.subrange(
            at as int,
            at as int + text@.len() as int,
        )[j] == text@[j] by {}
        assert(name@.subrange(at as int, at as int + text@.len() as int) =~= text@);
    }
    true
}

} // verus!
