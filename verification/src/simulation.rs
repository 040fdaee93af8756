//! The population of particles and the one match an update may settle.

use vstd::prelude::*;
use bracket_lib::prelude::RandomNumberGenerator;
use crate::contact::contact_at;
use crate::contact::first_contact;
use crate::contact::in_contact;
use crate::contact::is_first_contact;
use crate::contact::lemma_first_contact_unique;
use crate::contact::Contact;
use crate::hand::Hand;
use crate::particle::Particle;

verus! {

/// An ordered population of particles. A particle is known by its index,
/// and no operation adds or removes one.
pub struct Simulation<B> {
    particles: Vec<Particle<B>>,
}

/// What an update did.
#[derive(Copy, Clone, Debug, PartialEq, Eq, Structural)]
pub enum Outcome {
    /// No pair was in contact.
    Clear,
    /// The first pair in contact was touching, and its match was settled.
    Resolved { lhs: usize, rhs: usize },
    /// The first pair in contact had coinciding centres. No line joins such
    /// a pair, so it was left as it was.
    Skipped { lhs: usize, rhs: usize },
}

/// The population after particles `lhs` and `rhs` have settled their match:
/// each of the two shows the hand that follows from the hands both had
/// before, and every body and every other hand is as before.
pub open spec fn matched<B>(before: Seq<Particle<B>>, lhs: int, rhs: int) -> Seq<Particle<B>> {
    before.update(
        lhs,
        Particle { body: before[lhs].body, hand: before[lhs].hand.after_match(before[rhs].hand) },
    ).update(
        rhs,
        Particle { body: before[rhs].body, hand: before[rhs].hand.after_match(before[lhs].hand) },
    )
}

/// An update that starts from `before` with the measurements in `table` may
/// end with `after` and report `outcome`.
pub open spec fn updates_to<B>(
    before: Seq<Particle<B>>,
    table: Seq<Vec<Contact>>,
    after: Seq<Particle<B>>,
    outcome: Outcome,
) -> bool {
    let count = before.len() as int;
    match outcome {
        Outcome::Clear => {
            &&& forall|a: int, b: int| !in_contact(table, count, a, b)
            &&& after == before
        },
        Outcome::Resolved { lhs, rhs } => {
            &&& is_first_contact(table, count, lhs as int, rhs as int)
            &&& contact_at(table, lhs as int, rhs as int) == Contact::Touching
            &&& after == matched(before, lhs as int, rhs as int)
        },
        Outcome::Skipped { lhs, rhs } => {
            &&& is_first_contact(table, count, lhs as int, rhs as int)
            &&& contact_at(table, lhs as int, rhs as int) == Contact::Coincident
            &&& after == before
        },
    }
}

impl<B> View for Simulation<B> {
    type V = Seq<Particle<B>>;

    closed spec fn view(&self) -> Seq<Particle<B>> {
        self.particles@
    }
}

impl<B> Simulation<B> {
    /// A population with one particle for each body, in the order of
    /// `bodies`, each with a hand drawn from `rng`.
    pub fn new(bodies: Vec<B>, rng: &mut RandomNumberGenerator) -> (simulation: Simulation<B>)
        ensures
            simulation@.len() == bodies@.len(),
            forall|k: int| 0 <= k < bodies@.len() ==> (#[trigger] simulation@[k]).body == bodies@[k],
    {
        let mut particles: Vec<Particle<B>> = Vec::new();
        for body in iter: bodies
            invariant
                iter.seq() == bodies@,
                particles@.len() == iter.index(),
                forall|k: int| 0 <= k < particles@.len() ==> (#[trigger] particles@[k]).body == bodies@[k],
        {
            particles.push(Particle::new(body, rng));
        }
        Simulation { particles }
    }

    /// A population of the given particles, in their order.
    pub fn from_particles(particles: Vec<Particle<B>>) -> (simulation: Simulation<B>)
        ensures
            simulation@ == particles@,
    {
        Simulation { particles }
    }

    /// The number of particles.
    pub fn len(&self) -> (count: usize)
        ensures
            count == self@.len(),
    {
        self.particles.len()
    }

    /// Particle `index`.
    pub fn particle(&self, index: usize) -> (particle: &Particle<B>)
        requires
            index < self@.len(),
        ensures
            *particle == self@[index as int],
    {
        &self.particles[index]
    }

    /// The body of particle `index`, for the caller to move. Whatever the
    /// caller writes there, the particle keeps its hand and every other
    /// particle stays as it is.
    pub fn body_mut(&mut self, index: usize) -> (body: &mut B)
        requires
            index < old(self)@.len(),
        ensures
            *body == old(self)@[index as int].body,
            final(self)@ == old(self)@.update(
                index as int,
                Particle { body: *final(body), hand: old(self)@[index as int].hand },
            ),
    {
        &mut self.particles[index].body
    }

    /// Settles the match between particles `lhs` and `rhs`. Both sides are
    /// judged by the hands they had before the match.
    pub fn collide(&mut self, lhs: usize, rhs: usize)
        requires
            lhs < old(self)@.len(),
            rhs < old(self)@.len(),
        ensures
            final(self)@ == matched(old(self)@, lhs as int, rhs as int),
    {
        let left: Hand = self.particles[lhs].hand;
        let right: Hand = self.particles[rhs].hand;
        self.particles[lhs].handle_match(right);
        self.particles[rhs].handle_match(left);
        assert(self.particles@ =~= matched(old(self).particles@, lhs as int, rhs as int));
    }

    /// One update of the hands: finds the first pair in contact and, if its
    /// two particles are touching, settles their match. At most one pair is
    /// settled, and a pair with coinciding centres is passed over.
    pub fn update(&mut self, table: &Vec<Vec<Contact>>) -> (outcome: Outcome)
        ensures
            updates_to(old(self)@, table@, final(self)@, outcome),
    {
        match first_contact(self.particles.len(), table) {
            None => Outcome::Clear,
            Some((lhs, rhs)) => {
                match table[lhs][rhs] {
                    Contact::Coincident => Outcome::Skipped { lhs, rhs },
                    _ => {
                        self.collide(lhs, rhs);
                        Outcome::Resolved { lhs, rhs }
                    },
                }
            },
        }
    }
}

/// A settled match leaves both particles showing the same hand, the one
/// that wins between the two hands they had, and moves no body.
pub proof fn lemma_matched_pair_agrees<B>(before: Seq<Particle<B>>, lhs: int, rhs: int)
    requires
        0 <= lhs < before.len(),
        0 <= rhs < before.len(),
    ensures
        matched(before, lhs, rhs).len() == before.len(),
        matched(before, lhs, rhs)[lhs].hand == matched(before, lhs, rhs)[rhs].hand,
        matched(before, lhs, rhs)[lhs].hand == before[lhs].hand.after_match(before[rhs].hand),
        before[lhs].hand.beaten() == before[rhs].hand ==> matched(before, lhs, rhs)[rhs].hand
            == before[lhs].hand,
        forall|k: int|
            0 <= k < before.len() ==> (#[trigger] matched(before, lhs, rhs)[k]).body
                == before[k].body,
        forall|k: int|
            0 <= k < before.len() && k != lhs && k != rhs ==> #[trigger] matched(
                before,
                lhs,
                rhs,
            )[k] == before[k],
{
}

/// An update never changes the size of the population nor any body, and the
/// only hands it can change are those of the pair it reports as resolved.
pub proof fn lemma_update_keeps_the_rest<B>(
    before: Seq<Particle<B>>,
    table: Seq<Vec<Contact>>,
    after: Seq<Particle<B>>,
    outcome: Outcome,
)
    requires
        updates_to(before, table, after, outcome),
    ensures
        after.len() == before.len(),
        forall|k: int| 0 <= k < before.len() ==> (#[trigger] after[k]).body == before[k].body,
        forall|k: int|
            0 <= k < before.len() && (#[trigger] after[k]).hand != before[k].hand ==> (outcome
                matches Outcome::Resolved { lhs, rhs } && (k == lhs || k == rhs)),
{
    if let Outcome::Resolved { lhs, rhs } = outcome {
        lemma_matched_pair_agrees(before, lhs as int, rhs as int);
    }
}

/// An update brings no hand onto the field that was not there before: a
/// hand that has died out stays out.
pub proof fn lemma_update_breeds_no_hand<B>(
    before: Seq<Particle<B>>,
    table: Seq<Vec<Contact>>,
    after: Seq<Particle<B>>,
    outcome: Outcome,
    k: int,
)
    requires
        updates_to(before, table, after, outcome),
        0 <= k < after.len(),
    ensures
        exists|j: int| 0 <= j < before.len() && (#[trigger] before[j]).hand == after[k].hand,
{
    lemma_update_keeps_the_rest(before, table, after, outcome);
    if after[k].hand == before[k].hand {
        assert(before[k].hand == after[k].hand);
    } else {
        if let Outcome::Resolved { lhs, rhs } = outcome {
            lemma_matched_pair_agrees(before, lhs as int, rhs as int);
            if k == lhs {
                assert(before[rhs as int].hand == after[k].hand);
            } else {
                assert(before[lhs as int].hand == after[k].hand);
            }
        }
    }
}

/// An update in which no pair is in contact reports so and changes nothing:
/// every particle shows the hand it showed before.
pub proof fn lemma_update_without_contact<B>(
    before: Seq<Particle<B>>,
    table: Seq<Vec<Contact>>,
    after: Seq<Particle<B>>,
    outcome: Outcome,
)
    requires
        updates_to(before, table, after, outcome),
        forall|a: int, b: int| !in_contact(table, before.len() as int, a, b),
    ensures
        outcome == Outcome::Clear,
        after == before,
{
}

/// An update has one result only: the population it starts from and the
/// table it is given fix both the population it ends with and the outcome
/// it reports.
pub proof fn lemma_update_deterministic<B>(
    before: Seq<Particle<B>>,
    table: Seq<Vec<Contact>>,
    after1: Seq<Particle<B>>,
    outcome1: Outcome,
    after2: Seq<Particle<B>>,
    outcome2: Outcome,
)
    requires
        updates_to(before, table, after1, outcome1),
        updates_to(before, table, after2, outcome2),
    ensures
        after1 == after2,
        outcome1 == outcome2,
{
    lemma_outcome_unique(before, before, table, after1, outcome1, after2, outcome2);
}

/// Two populations of one size whose particles show the same hands, index by
/// index. Their bodies may differ.
pub open spec fn same_hands<B>(a: Seq<Particle<B>>, b: Seq<Particle<B>>) -> bool {
    &&& a.len() == b.len()
    &&& forall|k: int| 0 <= k < a.len() ==> (#[trigger] a[k]).hand == b[k].hand
}

/// A run of updates from `start`. Update `t` starts from `befores[t]` with
/// the measurements in `tables[t]`, ends with `afters[t]` and reports
/// `outcomes[t]`. Before each update the caller may have moved bodies, but
/// the hands are those that the update before left, or those of `start`.
pub open spec fn is_run<B>(
    start: Seq<Particle<B>>,
    tables: Seq<Seq<Vec<Contact>>>,
    befores: Seq<Seq<Particle<B>>>,
    afters: Seq<Seq<Particle<B>>>,
    outcomes: Seq<Outcome>,
) -> bool {
    &&& befores.len() == tables.len()
    &&& afters.len() == tables.len()
    &&& outcomes.len() == tables.len()
    &&& forall|t: int|
        0 <= t < tables.len() ==> updates_to(
            #[trigger] befores[t],
            tables[t],
            afters[t],
            outcomes[t],
        )
    &&& forall|t: int|
        0 <= t < tables.len() ==> same_hands(
            #[trigger] befores[t],
            if t == 0 {
                start
            } else {
                afters[t - 1]
            },
        )
}

/// Runs repeat: two runs that start with the same hands and are given the
/// same tables report the same outcomes and show the same hands after every
/// update, wherever the bodies were moved in between.
pub proof fn lemma_run_deterministic<B>(
    start1: Seq<Particle<B>>,
    start2: Seq<Particle<B>>,
    tables: Seq<Seq<Vec<Contact>>>,
    befores1: Seq<Seq<Particle<B>>>,
    afters1: Seq<Seq<Particle<B>>>,
    outcomes1: Seq<Outcome>,
    befores2: Seq<Seq<Particle<B>>>,
    afters2: Seq<Seq<Particle<B>>>,
    outcomes2: Seq<Outcome>,
)
    requires
        same_hands(start1, start2),
        is_run(start1, tables, befores1, afters1, outcomes1),
        is_run(start2, tables, befores2, afters2, outcomes2),
    ensures
        outcomes1 == outcomes2,
        forall|t: int| 0 <= t < tables.len() ==> same_hands(#[trigger] afters1[t], afters2[t]),
{
    assert forall|t: int| 0 <= t < tables.len() implies #[trigger] outcomes1[t] == outcomes2[t] by {
        lemma_run_agrees_at(
            start1,
            start2,
            tables,
            befores1,
            afters1,
            outcomes1,
            befores2,
            afters2,
            outcomes2,
            t,
        );
    }
    assert forall|t: int| 0 <= t < tables.len() implies same_hands(
        #[trigger] afters1[t],
        afters2[t],
    ) by {
        lemma_run_agrees_at(
            start1,
            start2,
            tables,
            befores1,
            afters1,
            outcomes1,
            befores2,
            afters2,
            outcomes2,
            t,
        );
    }
    assert(outcomes1 =~= outcomes2);
}

/// Update `t` of two runs as in `lemma_run_deterministic` agrees in its
/// outcome and in the hands it leaves.
proof fn lemma_run_agrees_at<B>(
    start1: Seq<Particle<B>>,
    start2: Seq<Particle<B>>,
    tables: Seq<Seq<Vec<Contact>>>,
    befores1: Seq<Seq<Particle<B>>>,
    afters1: Seq<Seq<Particle<B>>>,
    outcomes1: Seq<Outcome>,
    befores2: Seq<Seq<Particle<B>>>,
    afters2: Seq<Seq<Particle<B>>>,
    outcomes2: Seq<Outcome>,
    t: int,
)
    requires
        same_hands(start1, start2),
        is_run(start1, tables, befores1, afters1, outcomes1),
        is_run(start2, tables, befores2, afters2, outcomes2),
        0 <= t < tables.len(),
    ensures
        outcomes1[t] == outcomes2[t],
        same_hands(afters1[t], afters2[t]),
    decreases t,
{
    if t > 0 {
        lemma_run_agrees_at(
            start1,
            start2,
            tables,
            befores1,
            afters1,
            outcomes1,
            befores2,
            afters2,
            outcomes2,
            t - 1,
        );
    }
    assert(same_hands(befores1[t], befores2[t]));
    lemma_outcome_unique(
        befores1[t],
        befores2[t],
        tables[t],
        afters1[t],
        outcomes1[t],
        afters2[t],
        outcomes2[t],
    );
}

/// Updates from two populations with the same hands, given the same table,
/// report the same outcome and leave the same hands; from one and the same
/// population they leave the same population.
proof fn lemma_outcome_unique<B>(
    before1: Seq<Particle<B>>,
    before2: Seq<Particle<B>>,
    table: Seq<Vec<Contact>>,
    after1: Seq<Particle<B>>,
    outcome1: Outcome,
    after2: Seq<Particle<B>>,
    outcome2: Outcome,
)
    requires
        same_hands(before1, before2),
        updates_to(before1, table, after1, outcome1),
        updates_to(before2, table, after2, outcome2),
    ensures
        outcome1 == outcome2,
        same_hands(after1, after2),
        before1 == before2 ==> after1 == after2,
{
    let count = before1.len() as int;
    match (outcome1, outcome2) {
        (Outcome::Clear, Outcome::Clear) => {},
        (Outcome::Clear, Outcome::Resolved { lhs, rhs })
        | (Outcome::Clear, Outcome::Skipped { lhs, rhs })
        | (Outcome::Resolved { lhs, rhs }, Outcome::Clear)
        | (Outcome::Skipped { lhs, rhs }, Outcome::Clear) => {
            assert(in_contact(table, count, lhs as int, rhs as int));
        },
        (Outcome::Resolved { lhs: i, rhs: j }, Outcome::Resolved { lhs: a, rhs: b })
        | (Outcome::Resolved { lhs: i, rhs: j }, Outcome::Skipped { lhs: a, rhs: b })
        | (Outcome::Skipped { lhs: i, rhs: j }, Outcome::Resolved { lhs: a, rhs: b })
        | (Outcome::Skipped { lhs: i, rhs: j }, Outcome::Skipped { lhs: a, rhs: b }) => {
            lemma_first_contact_unique(table, count, i as int, j as int, a as int, b as int);
            lemma_matched_pair_agrees(before1, i as int, j as int);
            lemma_matched_pair_agrees(before2, i as int, j as int);
        },
    }
}

} // verus!
