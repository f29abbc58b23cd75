//! The drill service's logic: reading the topic and difficulty of a request,
//! grading a submitted answer, and the bounded cache of served scenarios.
//! The HTTP plumbing around it lives with the caller.

use vstd::prelude::*;
use crate::helpers::str_eq;
use crate::models::{AnswerOption, DifficultyLevel, TrainingScenario, TrainingTopic};

verus! {

/// Query of a scenario request: topic and difficulty by name.
pub struct DrillQuery {
    pub topic: String,
    pub difficulty: String,
}

/// Body of an answer submission.
pub struct AnswerRequest {
    pub scenario_id: String,
    pub answer_id: String,
}

/// Reply to an answer submission.
pub struct AnswerResponse {
    pub is_correct: bool,
    pub explanation: String,
    pub correct_id: String,
}

/// The topic a request names, by the topic's variant name.
pub open spec fn topic_named(s: Seq<char>) -> Option<TrainingTopic> {
    if s == "PreflopDecision"@ {
        Some(TrainingTopic::PreflopDecision)
    } else if s == "PostflopContinuationBet"@ {
        Some(TrainingTopic::PostflopContinuationBet)
    } else if s == "PotOddsAndEquity"@ {
        Some(TrainingTopic::PotOddsAndEquity)
    } else if s == "BluffSpot"@ {
        Some(TrainingTopic::BluffSpot)
    } else if s == "ICMAndTournamentDecision"@ {
        Some(TrainingTopic::ICMAndTournamentDecision)
    } else if s == "TurnBarrelDecision"@ {
        Some(TrainingTopic::TurnBarrelDecision)
    } else if s == "CheckRaiseSpot"@ {
        Some(TrainingTopic::CheckRaiseSpot)
    } else if s == "SemiBluffDecision"@ {
        Some(TrainingTopic::SemiBluffDecision)
    } else if s == "AntiLimperIsolation"@ {
        Some(TrainingTopic::AntiLimperIsolation)
    } else if s == "RiverValueBet"@ {
        Some(TrainingTopic::RiverValueBet)
    } else if s == "SqueezePlay"@ {
        Some(TrainingTopic::SqueezePlay)
    } else if s == "BigBlindDefense"@ {
        Some(TrainingTopic::BigBlindDefense)
    } else if s == "ThreeBetPotCbet"@ {
        Some(TrainingTopic::ThreeBetPotCbet)
    } else if s == "RiverCallOrFold"@ {
        Some(TrainingTopic::RiverCallOrFold)
    } else if s == "TurnProbeBet"@ {
        Some(TrainingTopic::TurnProbeBet)
    } else if s == "DelayedCbet"@ {
        Some(TrainingTopic::DelayedCbet)
    } else {
        None
    }
}

/// Read a topic from its variant name; `None` for any other string.
pub fn parse_topic(s: &str) -> (t: Option<TrainingTopic>)
    ensures
        t == topic_named(s@),
{
    if str_eq(s, "PreflopDecision") {
        Some(TrainingTopic::PreflopDecision)
    } else if str_eq(s, "PostflopContinuationBet") {
        Some(TrainingTopic::PostflopContinuationBet)
    } else if str_eq(s, "PotOddsAndEquity") {
        Some(TrainingTopic::PotOddsAndEquity)
    } else if str_eq(s, "BluffSpot") {
        Some(TrainingTopic::BluffSpot)
    } else if str_eq(s, "ICMAndTournamentDecision") {
        Some(TrainingTopic::ICMAndTournamentDecision)
    } else if str_eq(s, "TurnBarrelDecision") {
        Some(TrainingTopic::TurnBarrelDecision)
    } else if str_eq(s, "CheckRaiseSpot") {
        Some(TrainingTopic::CheckRaiseSpot)
    } else if str_eq(s, "SemiBluffDecision") {
        Some(TrainingTopic::SemiBluffDecision)
    } else if str_eq(s, "AntiLimperIsolation") {
        Some(TrainingTopic::AntiLimperIsolation)
    } else if str_eq(s, "RiverValueBet") {
        Some(TrainingTopic::RiverValueBet)
    } else if str_eq(s, "SqueezePlay") {
        Some(TrainingTopic::SqueezePlay)
    } else if str_eq(s, "BigBlindDefense") {
        Some(TrainingTopic::BigBlindDefense)
    } else if str_eq(s, "ThreeBetPotCbet") {
        Some(TrainingTopic::ThreeBetPotCbet)
    } else if str_eq(s, "RiverCallOrFold") {
        Some(TrainingTopic::RiverCallOrFold)
    } else if str_eq(s, "TurnProbeBet") {
        Some(TrainingTopic::TurnProbeBet)
    } else if str_eq(s, "DelayedCbet") {
        Some(TrainingTopic::DelayedCbet)
    } else {
        None
    }
}

/// The difficulty a request names.
pub open spec fn difficulty_named(s: Seq<char>) -> Option<DifficultyLevel> {
    if s == "Beginner"@ {
        Some(DifficultyLevel::Beginner)
    } else if s == "Intermediate"@ {
        Some(DifficultyLevel::Intermediate)
    } else if s == "Advanced"@ {
        Some(DifficultyLevel::Advanced)
    } else {
        None
    }
}

/// Read a difficulty from its name; `None` for any other string.
pub fn parse_difficulty(s: &str) -> (d: Option<DifficultyLevel>)
    ensures
        d == difficulty_named(s@),
{
    if str_eq(s, "Beginner") {
        Some(DifficultyLevel::Beginner)
    } else if str_eq(s, "Intermediate") {
        Some(DifficultyLevel::Intermediate)
    } else if str_eq(s, "Advanced") {
        Some(DifficultyLevel::Advanced)
    } else {
        None
    }
}

/// The first answer with id `id`, if any.
pub open spec fn find_answer(answers: Seq<AnswerOption>, id: Seq<char>) -> Option<AnswerOption>
    decreases answers.len(),
{
    if answers.len() == 0 {
        None
    } else if answers[0].id@ == id {
        Some(answers[0])
    } else {
        find_answer(answers.drop_first(), id)
    }
}

/// The first answer marked correct, if any.
pub open spec fn find_correct(answers: Seq<AnswerOption>) -> Option<AnswerOption>
    decreases answers.len(),
{
    if answers.len() == 0 {
        None
    } else if answers[0].is_correct {
        Some(answers[0])
    } else {
        find_correct(answers.drop_first())
    }
}

/// Id of the first correct answer, empty when there is none.
pub open spec fn correct_id_spec(answers: Seq<AnswerOption>) -> Seq<char> {
    match find_correct(answers) {
        Some(a) => a.id@,
        None => Seq::empty(),
    }
}

/// Index of the first answer with id `id` (the length when none).
fn answer_index(answers: &Vec<AnswerOption>, id: &str) -> (k: usize)
    ensures
        k <= answers@.len(),
        k < answers@.len() ==> find_answer(answers@, id@) == Some(answers@[k as int]),
        k == answers@.len() ==> find_answer(answers@, id@) is None,
{
    let mut i: usize = 0;
    assert(answers@.subrange(0, answers@.len() as int) =~= answers@);
    while i < answers.len()
        invariant
            i <= answers@.len(),
            find_answer(answers@, id@) == find_answer(answers@.subrange(i as int, answers@.len() as int), id@),
        decreases answers@.len() - i,
    {
        let ghost rest = answers@.subrange(i as int, answers@.len() as int);
        assert(rest[0] == answers@[i as int]);
        if str_eq(answers[i].id.as_str(), id) {
            return i;
        }
        assert(rest.drop_first() =~= answers@.subrange(i + 1, answers@.len() as int));
        i += 1;
    }
    assert(answers@.subrange(i as int, answers@.len() as int) =~= Seq::<AnswerOption>::empty());
    i
}

/// Index of the first correct answer (the length when none).
fn correct_index(answers: &Vec<AnswerOption>) -> (k: usize)
    ensures
        k <= answers@.len(),
        k < answers@.len() ==> find_correct(answers@) == Some(answers@[k as int]),
        k == answers@.len() ==> find_correct(answers@) is None,
{
    let mut i: usize = 0;
    assert(answers@.subrange(0, answers@.len() as int) =~= answers@);
    while i < answers.len()
        invariant
            i <= answers@.len(),
            find_correct(answers@) == find_correct(answers@.subrange(i as int, answers@.len() as int)),
        decreases answers@.len() - i,
    {
        let ghost rest = answers@.subrange(i as int, answers@.len() as int);
        assert(rest[0] == answers@[i as int]);
        if answers[i].is_correct {
            return i;
        }
        assert(rest.drop_first() =~= answers@.subrange(i + 1, answers@.len() as int));
        i += 1;
    }
    assert(answers@.subrange(i as int, answers@.len() as int) =~= Seq::<AnswerOption>::empty());
    i
}

/// Grade a submitted answer: `None` when the scenario has no answer with
/// that id; otherwise whether it is correct, its explanation, and the id of
/// the correct answer (empty when none is marked).
pub fn grade_answer(scenario: &TrainingScenario, answer_id: &str) -> (r: Option<AnswerResponse>)
    ensures
        r is None <==> find_answer(scenario.answers@, answer_id@) is None,
        r matches Some(resp) ==> {
            let chosen = find_answer(scenario.answers@, answer_id@)->0;
            &&& resp.is_correct == chosen.is_correct
            &&& resp.explanation == chosen.explanation
            &&& resp.correct_id@ == correct_id_spec(scenario.answers@)
        },
{
    let answers = &scenario.answers;
    let k = answer_index(answers, answer_id);
    if k == answers.len() {
        return None;
    }
    let c = correct_index(answers);
    let correct_id = if c < answers.len() { answers[c].id.clone() } else { String::new() };
    Some(AnswerResponse {
        is_correct: answers[k].is_correct,
        explanation: answers[k].explanation.clone(),
        correct_id,
    })
}

/// Most scenarios the cache holds.
pub const CACHE_CAPACITY: usize = 1000;

/// No scenario id occurs twice.
pub open spec fn ids_distinct(s: Seq<TrainingScenario>) -> bool {
    forall|i: int, j: int|
        0 <= i < s.len() && 0 <= j < s.len() && i != j ==> (#[trigger] s[i]).scenario_id@ != (#[trigger] s[j]).scenario_id@
}

/// Some entry has scenario id `id`.
pub open spec fn has_id(s: Seq<TrainingScenario>, id: Seq<char>) -> bool {
    exists|i: int| 0 <= i < s.len() && (#[trigger] s[i]).scenario_id@ == id
}

/// The entry with scenario id `id`, if any.
pub open spec fn lookup(s: Seq<TrainingScenario>, id: Seq<char>) -> Option<TrainingScenario> {
    if has_id(s, id) {
        Some(s[choose|i: int| 0 <= i < s.len() && (#[trigger] s[i]).scenario_id@ == id])
    } else {
        None
    }
}

/// The entries after storing `sc` in `base`: it replaces the entry with its
/// id in place, or is appended.
pub open spec fn stored(base: Seq<TrainingScenario>, sc: TrainingScenario) -> Seq<TrainingScenario> {
    if has_id(base, sc.scenario_id@) {
        base.update(choose|i: int| 0 <= i < base.len() && (#[trigger] base[i]).scenario_id@ == sc.scenario_id@, sc)
    } else {
        base.push(sc)
    }
}

/// The entries after inserting `sc` into a cache holding `old`: when the
/// cache is full the oldest entry is evicted first.
pub open spec fn after_insert(old: Seq<TrainingScenario>, sc: TrainingScenario) -> Seq<TrainingScenario> {
    let base = if old.len() >= CACHE_CAPACITY { old.drop_first() } else { old };
    stored(base, sc)
}

/// Scenarios served and not yet evicted, oldest first.
pub struct ScenarioCache {
    entries: Vec<TrainingScenario>,
}

impl View for ScenarioCache {
    type V = Seq<TrainingScenario>;

    closed spec fn view(&self) -> Seq<TrainingScenario> {
        self.entries@
    }
}

impl ScenarioCache {
    /// Ids are distinct and the cache is within its capacity.
    pub open spec fn wf(&self) -> bool {
        ids_distinct(self@) && self@.len() <= CACHE_CAPACITY
    }

    /// Every cache is well formed.
    #[verifier::type_invariant]
    spec fn cache_inv(&self) -> bool {
        self.wf()
    }

    /// An empty cache.
    pub fn new() -> (c: Self)
        ensures
            c.wf(),
            c@ == Seq::<TrainingScenario>::empty(),
    {
        ScenarioCache { entries: Vec::new() }
    }

    /// Number of cached scenarios.
    pub fn len(&self) -> (n: usize)
        ensures
            n == self@.len(),
    {
        self.entries.len()
    }

    /// The cached scenario with id `id`, if any.
    pub fn get(&self, id: &str) -> (r: Option<&TrainingScenario>)
        ensures
            match r {
                Some(sc) => lookup(self@, id@) == Some(*sc),
                None => lookup(self@, id@) is None,
            },
    {
        proof {
            use_type_invariant(self);
        }
        let k = index_of(&self.entries, id);
        if k < self.entries.len() {
            proof {
                let j = choose|i: int| 0 <= i < self@.len() && (#[trigger] self@[i]).scenario_id@ == id@;
                assert(self@[k as int].scenario_id@ == id@);
                assert(j == k);
            }
            Some(&self.entries[k])
        } else {
            None
        }
    }

    /// Store a scenario under its id, evicting the oldest entry first when
    /// the cache is full.
    pub fn insert(&mut self, sc: TrainingScenario)
        ensures
            final(self).wf(),
            final(self)@ == after_insert(old(self)@, sc),
    {
        proof {
            use_type_invariant(&*self);
        }
        let ghost id = sc.scenario_id@;
        let ghost before = self@;
        let mut entries: Vec<TrainingScenario> = Vec::new();
        std::mem::swap(&mut entries, &mut self.entries);
        assert(entries@ == before);
        if entries.len() >= CACHE_CAPACITY {
            entries.remove(0);
            proof {
                let s = entries@;
                assert forall|i: int, j: int|
                    0 <= i < s.len() && 0 <= j < s.len() && i != j implies (#[trigger] s[i]).scenario_id@
                    != (#[trigger] s[j]).scenario_id@ by {
                    assert(s[i] == before[i + 1]);
                    assert(s[j] == before[j + 1]);
                }
                assert(s =~= before.drop_first());
            }
        }
        let ghost base = entries@;
        let k = index_of(&entries, sc.scenario_id.as_str());
        if k < entries.len() {
            proof {
                let j = choose|i: int| 0 <= i < base.len() && (#[trigger] base[i]).scenario_id@ == id;
                assert(base[k as int].scenario_id@ == id);
                assert(j == k);
            }
            entries.set(k, sc);
            proof {
                let s = entries@;
                assert(s =~= base.update(k as int, sc));
                assert forall|i: int, j: int|
                    0 <= i < s.len() && 0 <= j < s.len() && i != j implies (#[trigger] s[i]).scenario_id@
                    != (#[trigger] s[j]).scenario_id@ by {
                    if i != k && j != k {
                        assert(s[i] == base[i] && s[j] == base[j]);
                    } else if i == k {
                        assert(s[j] == base[j]);
                        assert(base[k as int].scenario_id@ == id);
                    } else {
                        assert(s[i] == base[i]);
                        assert(base[k as int].scenario_id@ == id);
                    }
                }
            }
        } else {
            entries.push(sc);
            proof {
                let s = entries@;
                assert(s =~= base.push(sc));
                assert forall|i: int, j: int|
                    0 <= i < s.len() && 0 <= j < s.len() && i != j implies (#[trigger] s[i]).scenario_id@
                    != (#[trigger] s[j]).scenario_id@ by {
                    if i < base.len() && j < base.len() {
                        assert(s[i] == base[i] && s[j] == base[j]);
                    } else if i < base.len() {
                        assert(s[i] == base[i]);
                        assert(!has_id(base, id));
                        assert(base[i].scenario_id@ != id);
                    } else {
                        assert(s[j] == base[j]);
                        assert(base[j].scenario_id@ != id);
                    }
                }
            }
        }
        self.entries = entries;
    }
}

/// Position of the entry with id `id`, or the number of entries when none has it.
fn index_of(entries: &Vec<TrainingScenario>, id: &str) -> (k: usize)
    ensures
        k <= entries@.len(),
        k < entries@.len() ==> entries@[k as int].scenario_id@ == id@,
        k == entries@.len() ==> !has_id(entries@, id@),
{
    let mut i: usize = 0;
    while i < entries.len()
        invariant
            i <= entries@.len(),
            forall|j: int| 0 <= j < i ==> (#[trigger] entries@[j]).scenario_id@ != id@,
        decreases entries@.len() - i,
    {
        if str_eq(entries[i].scenario_id.as_str(), id) {
            return i;
        }
        i += 1;
    }
    i
}

/// A read after a write gives back what was written: once `sc` is inserted,
/// looking up its id yields `sc`; every other id that was cached and not
/// evicted still yields its old entry, and the cache stays within capacity.
pub proof fn law_cache_read_after_write(old: Seq<TrainingScenario>, sc: TrainingScenario, other: Seq<char>)
    requires
        ids_distinct(old),
        old.len() <= CACHE_CAPACITY,
    ensures
        lookup(after_insert(old, sc), sc.scenario_id@) == Some(sc),
        after_insert(old, sc).len() <= CACHE_CAPACITY,
        other != sc.scenario_id@ && !(old.len() >= CACHE_CAPACITY && old[0].scenario_id@ == other) ==> lookup(
            after_insert(old, sc),
            other,
        ) == lookup(old, other),
{
    let base = if old.len() >= CACHE_CAPACITY { old.drop_first() } else { old };
    let new = after_insert(old, sc);
    let id = sc.scenario_id@;
    assert(ids_distinct(base)) by {
        if old.len() >= CACHE_CAPACITY {
            assert forall|i: int, j: int|
                0 <= i < base.len() && 0 <= j < base.len() && i != j implies (#[trigger] base[i]).scenario_id@
                != (#[trigger] base[j]).scenario_id@ by {
                assert(base[i] == old[i + 1] && base[j] == old[j + 1]);
            }
        }
    }
    let p = if has_id(base, id) {
        choose|i: int| 0 <= i < base.len() && (#[trigger] base[i]).scenario_id@ == id
    } else {
        base.len() as int
    };
    assert(new[p] == sc);
    assert(has_id(new, id));
    let q = choose|i: int| 0 <= i < new.len() && (#[trigger] new[i]).scenario_id@ == id;
    assert(q == p) by {
        if q != p {
            if q < base.len() && (!has_id(base, id) || q != p) {
                assert(new[q] == base[q]);
                if has_id(base, id) {
                    assert(base[p].scenario_id@ == id);
                }
            }
        }
    }
    if other != id && !(old.len() >= CACHE_CAPACITY && old[0].scenario_id@ == other) {
        assert(has_id(new, other) == has_id(old, other)) by {
            if has_id(old, other) {
                let w = choose|i: int| 0 <= i < old.len() && (#[trigger] old[i]).scenario_id@ == other;
                let wb = if old.len() >= CACHE_CAPACITY { w - 1 } else { w };
                assert(base[wb] == old[w]);
                assert(new[wb] == base[wb]);
            }
            if has_id(new, other) {
                let w = choose|i: int| 0 <= i < new.len() && (#[trigger] new[i]).scenario_id@ == other;
                assert(w != p);
                assert(new[w] == base[w]);
                let wo = if old.len() >= CACHE_CAPACITY { w + 1 } else { w };
                assert(old[wo] == base[w]);
            }
        }
        if has_id(old, other) {
            let w = choose|i: int| 0 <= i < old.len() && (#[trigger] old[i]).scenario_id@ == other;
            let wb = if old.len() >= CACHE_CAPACITY { w - 1 } else { w };
            assert(base[wb] == old[w]);
            assert(new[wb] == base[wb]);
            let x = choose|i: int| 0 <= i < new.len() && (#[trigger] new[i]).scenario_id@ == other;
            assert(x == wb) by {
                if x != wb {
                    assert(x != p);
                    assert(new[x] == base[x]);
                }
            }
        }
    }
}

} // verus!
