//! The compose (dead-key) state machine: keysyms are fed one at a time
//! against a table of compose sequences; a completed sequence yields
//! exactly one committed string and one representative keysym, after which
//! the machine resets.

use vstd::prelude::*;

verus! {

/// Status of the compose machine.
#[derive(Debug, Copy, Clone, PartialEq, Eq, Structural, Hash)]
pub enum ComposeStatus {
    /// No sequence in progress.
    Nothing,
    /// The keysyms fed so far begin at least one sequence.
    Composing,
    /// A sequence completed; its output is ready to be consumed once.
    Composed,
    /// The last keysym broke off the sequence in progress.
    Cancelled,
}

/// One compose sequence: the keysyms to feed, the representative keysym of
/// the composed result, and the committed text.
#[derive(Debug, Clone, PartialEq, Eq)]
pub struct ComposeRule {
    pub sequence: Vec<u32>,
    pub keysym: u32,
    pub utf8: String,
}

/// Spec-level image of one rule.
pub struct ComposeRuleModel {
    pub sequence: Seq<u32>,
    pub keysym: u32,
    pub utf8: Seq<char>,
}

/// Spec-level image of the machine: the rule table, the keysyms of the
/// sequence in progress, and the status.
pub struct ComposeModel {
    pub table: Seq<ComposeRuleModel>,
    pub pending: Seq<u32>,
    pub status: ComposeStatus,
}

/// The spec-level image of an exec rule.
pub open spec fn rule_model(r: ComposeRule) -> ComposeRuleModel {
    ComposeRuleModel { sequence: r.sequence@, keysym: r.keysym, utf8: r.utf8@ }
}

/// Whether some rule's sequence is exactly `s`.
pub open spec fn has_exact(table: Seq<ComposeRuleModel>, s: Seq<u32>) -> bool {
    exists|i: int| 0 <= i < table.len() && (#[trigger] table[i]).sequence == s
}

/// Whether `i` is the first rule whose sequence is exactly `s`.
pub open spec fn is_first_exact(table: Seq<ComposeRuleModel>, s: Seq<u32>, i: int) -> bool {
    &&& 0 <= i < table.len()
    &&& table[i].sequence == s
    &&& forall|j: int| 0 <= j < i ==> (#[trigger] table[j]).sequence != s
}

/// Whether `s` is a proper prefix of some rule's sequence.
pub open spec fn has_prefix(table: Seq<ComposeRuleModel>, s: Seq<u32>) -> bool {
    exists|i: int|
        0 <= i < table.len() && s.len() < (#[trigger] table[i]).sequence.len() && table[
            i
        ].sequence.subrange(0, s.len() as int) == s
}

/// The first rule matching `s` is unique.
pub proof fn lemma_first_exact_unique(table: Seq<ComposeRuleModel>, s: Seq<u32>, i: int, j: int)
    requires
        is_first_exact(table, s, i),
        is_first_exact(table, s, j),
    ensures
        i == j,
{
}

/// The sequence the next keysym extends: a consumed or cancelled sequence
/// has already been discarded.
pub open spec fn feed_base(m: ComposeModel) -> Seq<u32> {
    if m.status == ComposeStatus::Composed || m.status == ComposeStatus::Cancelled {
        Seq::empty()
    } else {
        m.pending
    }
}

/// The transition of feeding one keysym: an exact match completes the
/// sequence, a proper prefix keeps composing, a keysym that starts no
/// sequence leaves the machine idle, and one that breaks off a sequence in
/// progress cancels it.
pub open spec fn feed_model(m: ComposeModel, keysym: u32) -> ComposeModel {
    let cand = feed_base(m).push(keysym);
    if has_exact(m.table, cand) {
        ComposeModel { table: m.table, pending: cand, status: ComposeStatus::Composed }
    } else if has_prefix(m.table, cand) {
        ComposeModel { table: m.table, pending: cand, status: ComposeStatus::Composing }
    } else if cand.len() == 1 {
        ComposeModel { table: m.table, pending: Seq::empty(), status: ComposeStatus::Nothing }
    } else {
        ComposeModel { table: m.table, pending: Seq::empty(), status: ComposeStatus::Cancelled }
    }
}

/// The reset transition: back to idle with nothing in progress.
pub open spec fn reset_model(m: ComposeModel) -> ComposeModel {
    ComposeModel { table: m.table, pending: Seq::empty(), status: ComposeStatus::Nothing }
}

/// The compose machine: a rule table and the sequence in progress.
pub struct ComposeEngine {
    pub table: Vec<ComposeRule>,
    pub pending: Vec<u32>,
    pub status: ComposeStatus,
}

impl View for ComposeEngine {
    type V = ComposeModel;

    open spec fn view(&self) -> ComposeModel {
        ComposeModel {
            table: self.table@.map_values(|r: ComposeRule| rule_model(r)),
            pending: self.pending@,
            status: self.status,
        }
    }
}

/// Well-formedness: a composed machine really holds a completed sequence.
pub open spec fn compose_wf(m: ComposeModel) -> bool {
    m.status == ComposeStatus::Composed ==> has_exact(m.table, m.pending)
}

/// True exactly when the two vectors hold the same keysyms.
fn seqs_equal(a: &Vec<u32>, b: &Vec<u32>) -> (r: bool)
    ensures
        r == (a@ =~= b@),
{
    if a.len() != b.len() {
        return false;
    }
    let n = a.len();
    let mut i: usize = 0;
    while i < n
        invariant
            i <= n,
            n == a@.len(),
            n == b@.len(),
            forall|j: int| 0 <= j < i ==> a@[j] == b@[j],
        decreases n - i,
    {
        if a[i] != b[i] {
            return false;
        }
        i = i + 1;
    }
    proof {
        assert(a@ =~= b@);
    }
    true
}

/// True exactly when `cand` is a proper prefix of `rule_seq`.
fn is_proper_prefix(cand: &Vec<u32>, rule_seq: &Vec<u32>) -> (r: bool)
    ensures
        r == (cand@.len() < rule_seq@.len() && rule_seq@.subrange(0, cand@.len() as int) =~= cand@),
{
    if cand.len() >= rule_seq.len() {
        return false;
    }
    let n = cand.len();
    let mut i: usize = 0;
    while i < n
        invariant
            i <= n,
            n == cand@.len(),
            n < rule_seq@.len(),
            forall|j: int| 0 <= j < i ==> rule_seq@[j] == cand@[j],
        decreases n - i,
    {
        if rule_seq[i] != cand[i] {
            assert(rule_seq@.subrange(0, cand@.len() as int)[i as int] != cand@[i as int]);
            return false;
        }
        i = i + 1;
    }
    proof {
        assert(rule_seq@.subrange(0, cand@.len() as int) =~= cand@);
    }
    true
}

impl ComposeEngine {
    /// A fresh machine over the given table.
    pub fn new(table: Vec<ComposeRule>) -> (r: Self)
        ensures
            r@.table == table@.map_values(|rule: ComposeRule| rule_model(rule)),
            r@.pending =~= Seq::<u32>::empty(),
            r@.status == ComposeStatus::Nothing,
            compose_wf(r@),
    {
        ComposeEngine { table, pending: Vec::new(), status: ComposeStatus::Nothing }
    }

    /// Index of the first rule whose sequence is exactly `cand`, if any.
    fn find_first_exact(&self, cand: &Vec<u32>) -> (r: Option<usize>)
        ensures
            r is Some ==> is_first_exact(self@.table, cand@, r->Some_0 as int),
            r is None ==> !has_exact(self@.table, cand@),
    {
        let n = self.table.len();
        let mut i: usize = 0;
        while i < n
            invariant
                i <= n,
                n == self.table@.len(),
                forall|j: int| 0 <= j < i ==> (#[trigger] self@.table[j]).sequence != cand@,
            decreases n - i,
        {
            if seqs_equal(&self.table[i].sequence, cand) {
                return Some(i);
            }
            i = i + 1;
        }
        None
    }

    /// Whether `cand` is a proper prefix of any rule's sequence.
    fn any_prefix(&self, cand: &Vec<u32>) -> (r: bool)
        ensures
            r == has_prefix(self@.table, cand@),
    {
        let n = self.table.len();
        let mut i: usize = 0;
        while i < n
            invariant
                i <= n,
                n == self.table@.len(),
                forall|j: int|
                    0 <= j < i ==> !(cand@.len() < (#[trigger] self@.table[j]).sequence.len()
                        && self@.table[j].sequence.subrange(0, cand@.len() as int) == cand@),
            decreases n - i,
        {
            if is_proper_prefix(cand, &self.table[i].sequence) {
                proof {
                    assert(self@.table[i as int].sequence == self.table@[i as int].sequence@);
                    assert(cand@.len() < self@.table[i as int].sequence.len() && self@.table[
                        i as int
                    ].sequence.subrange(0, cand@.len() as int) == cand@);
                }
                return true;
            }
            i = i + 1;
        }
        false
    }

    /// Feeds one keysym; the state moves exactly as `feed_model` says.
    pub fn feed_keysym(&mut self, keysym: u32)
        ensures
            final(self)@ == feed_model(old(self)@, keysym),
            compose_wf(final(self)@),
    {
        if matches!(self.status, ComposeStatus::Composed) || matches!(
            self.status,
            ComposeStatus::Cancelled,
        ) {
            self.pending = Vec::new();
        }
        self.pending.push(keysym);
        let exact = self.find_first_exact(&self.pending);
        if exact.is_some() {
            self.status = ComposeStatus::Composed;
        } else if self.any_prefix(&self.pending) {
            self.status = ComposeStatus::Composing;
        } else if self.pending.len() == 1 {
            self.pending = Vec::new();
            self.status = ComposeStatus::Nothing;
            proof {
                assert(final(self)@.pending =~= feed_model(old(self)@, keysym).pending);
            }
        } else {
            self.pending = Vec::new();
            self.status = ComposeStatus::Cancelled;
            proof {
                assert(final(self)@.pending =~= feed_model(old(self)@, keysym).pending);
            }
        }
    }

    /// Resets to idle, discarding any sequence in progress.
    pub fn reset(&mut self)
        ensures
            final(self)@ == reset_model(old(self)@),
            compose_wf(final(self)@),
    {
        self.pending = Vec::new();
        self.status = ComposeStatus::Nothing;
        proof {
            assert(final(self)@.pending =~= reset_model(old(self)@).pending);
        }
    }

    /// The current status.
    pub fn get_status(&self) -> (r: ComposeStatus)
        ensures
            r == self@.status,
    {
        self.status
    }

    /// The representative keysym of the composed sequence, or zero (no
    /// symbol) when nothing is composed.
    pub fn get_keysym(&self) -> (r: u32)
        requires
            compose_wf(self@),
        ensures
            self@.status == ComposeStatus::Composed ==> r == self@.table[choose|i: int|
                is_first_exact(self@.table, self@.pending, i)].keysym,
            self@.status != ComposeStatus::Composed ==> r == 0,
    {
        if matches!(self.status, ComposeStatus::Composed) {
            let found = self.find_first_exact(&self.pending);
            match found {
                Some(i) => {
                    proof {
                        lemma_first_exact_unique(
                            self@.table,
                            self@.pending,
                            i as int,
                            choose|k: int| is_first_exact(self@.table, self@.pending, k),
                        );
                    }
                    self.table[i].keysym
                },
                None => 0,
            }
        } else {
            0
        }
    }

    /// Consumes the composed text: returns it and resets the machine. A
    /// rule with empty text yields `None` and leaves the machine as it is.
    pub fn get_utf8(&mut self) -> (r: Option<String>)
        requires
            compose_wf(old(self)@),
            old(self)@.status == ComposeStatus::Composed,
        ensures
            ({
                let idx = choose|i: int| is_first_exact(old(self)@.table, old(self)@.pending, i);
                let text = old(self)@.table[idx].utf8;
                &&& (text.len() == 0 ==> r is None && *final(self) == *old(self))
                &&& (text.len() > 0 ==> (r matches Some(s) && s@ == text) && final(self)@
                    == reset_model(old(self)@))
            }),
            compose_wf(final(self)@),
    {
        let found = self.find_first_exact(&self.pending);
        match found {
            Some(i) => {
                proof {
                    lemma_first_exact_unique(
                        self@.table,
                        self@.pending,
                        i as int,
                        choose|k: int| is_first_exact(self@.table, self@.pending, k),
                    );
                }
                let text = self.table[i].utf8.clone();
                if text.unicode_len() == 0 {
                    proof {
                        assert(self@.table[i as int].utf8 =~= Seq::<char>::empty());
                    }
                    None
                } else {
                    self.reset();
                    Some(text)
                }
            },
            None => {
                // Unreachable: well-formedness guarantees a match.
                None
            },
        }
    }
}

/// Round trip of a two-keysym dead-key sequence. From idle, a table that
/// holds a rule for `[a, b]` and none for `[a]` alone composes in two
/// steps: the dead key starts a sequence, the base key completes it, and
/// the completed sequence is the rule's. Consuming the output resets the
/// machine to idle over the same table, so feeding the same sequence twice
/// in a row yields two independent composed outputs, with no state carried
/// over.
pub proof fn lemma_compose_round_trip(m: ComposeModel, a: u32, b: u32)
    requires
        m.status == ComposeStatus::Nothing,
        m.pending =~= Seq::<u32>::empty(),
        has_exact(m.table, seq![a, b]),
        !has_exact(m.table, seq![a]),
    ensures
        feed_model(m, a).status == ComposeStatus::Composing,
        feed_model(feed_model(m, a), b).status == ComposeStatus::Composed,
        feed_model(feed_model(m, a), b).pending =~= seq![a, b],
        reset_model(feed_model(feed_model(m, a), b)) == (ComposeModel {
            table: m.table,
            pending: Seq::empty(),
            status: ComposeStatus::Nothing,
        }),
        feed_model(
            feed_model(reset_model(feed_model(feed_model(m, a), b)), a),
            b,
        ).status == ComposeStatus::Composed,
{
    let i = choose|i: int| 0 <= i < m.table.len() && (#[trigger] m.table[i]).sequence =~= seq![a, b];
    assert(feed_base(m).push(a) =~= seq![a]);
    assert(m.table[i].sequence.subrange(0, 1) =~= seq![a]);
    assert(has_prefix(m.table, seq![a]));
    let m1 = feed_model(m, a);
    assert(m1.pending =~= seq![a]);
    assert(feed_base(m1).push(b) =~= seq![a, b]);
    let m2 = feed_model(m1, b);
    assert(m2.status == ComposeStatus::Composed);
    let m3 = reset_model(m2);
    assert(feed_base(m3).push(a) =~= seq![a]);
    let m4 = feed_model(m3, a);
    assert(m4.pending =~= seq![a]);
    assert(feed_base(m4).push(b) =~= seq![a, b]);
}

} // verus!
