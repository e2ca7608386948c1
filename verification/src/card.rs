//! Upgrade cards: immutable purchase templates, the eligibility rule, and
//! the weighted-random offer draw.

use vstd::prelude::*;
use crate::fx::{abs_i, clamp_i, add_clamp, CFG_MAX, EXTRA_MAX};
use crate::game::{GameState, Phase};
use crate::rng::random_index;
use vstd::pervasive::VecAdditionalExecFns;

verus! {

/// Number of card offer slots in the Buy screen.
pub const CARDS: usize = 3;

/// Which accumulator of the game state a card's value applies to.
#[derive(Clone, Copy, PartialEq, Eq, Structural, Debug)]
pub enum CardTarget {
    Nothing,
    InitialSpeed,
    Gravity,
}

/// An upgrade card: an immutable template plus the index of the global
/// definition it was cloned from.
#[derive(Debug)]
pub struct Card {
    pub title: String,
    pub description: Vec<String>,
    pub target: CardTarget,
    /// Amount added to the targeted accumulator on purchase, in fixed point.
    pub value: i64,
    /// Price in money.
    pub cost: u64,
    /// Cap on purchases of this definition; zero means unlimited.
    pub max_amount: u64,
    /// Which global definition this card is a copy of.
    pub index: usize,
}

impl Clone for Card {
    /// A clone is an identical card.
    fn clone(&self) -> (r: Self)
        ensures
            r.gameplay_eq(*self),
    {
        Card {
            title: self.title.clone(),
            description: self.description.clone(),
            target: self.target,
            value: self.value,
            cost: self.cost,
            max_amount: self.max_amount,
            index: self.index,
        }
    }
}

impl Default for Card {
    /// The empty card: no effect, no price, no text.
    fn default() -> (r: Self)
        ensures
            r.target == CardTarget::Nothing,
            r.value == 0,
            r.cost == 0,
            r.max_amount == 0,
            r.index == 0,
            r.title@.len() == 0,
            r.description@.len() == 0,
    {
        Card {
            title: String::new(),
            description: Vec::new(),
            target: CardTarget::Nothing,
            value: 0,
            cost: 0,
            max_amount: 0,
            index: 0,
        }
    }
}

impl Card {
    /// The two cards agree on everything the simulation reads: the visible
    /// text and the whole gameplay template.
    pub open spec fn gameplay_eq(self, o: Card) -> bool {
        &&& self.title@ == o.title@
        &&& self.description@ == o.description@
        &&& self.target == o.target
        &&& self.value == o.value
        &&& self.cost == o.cost
        &&& self.max_amount == o.max_amount
        &&& self.index == o.index
    }

    /// The card names the definition slot it sits in and its value is on
    /// configuration scale.
    pub open spec fn wf(self, ndefs: int) -> bool {
        &&& self.index < ndefs
        &&& abs_i(self.value as int) <= CFG_MAX
    }

    /// Whether a definition may be offered: affordable, and not yet
    /// purchased up to its cap (zero cap means unlimited).
    pub open spec fn eligible(self, money: u64, selected: Seq<u64>) -> bool {
        &&& self.cost <= money
        &&& (self.max_amount == 0 || selected[self.index as int] < self.max_amount)
    }

    /// Draw one card uniformly at random from the definitions that are
    /// eligible under the current money and purchase counts. Returns nothing
    /// exactly when no definition is eligible: an empty draw is a
    /// configuration error the caller must rule out, not a silent fallback.
    pub fn random(defs: &Vec<Card>, money: u64, selected: &Vec<u64>) -> (r: Option<Card>)
        requires
            selected@.len() == defs@.len(),
            forall|i: int| 0 <= i < defs@.len() ==> (#[trigger] defs@[i]).index == i,
        ensures
            (r is Some) <==> (exists|i: int|
                0 <= i < defs@.len() && (#[trigger] defs@[i]).eligible(money, selected@)),
            r is Some ==> {
                let c = r->0;
                &&& c.index < defs@.len()
                &&& c.gameplay_eq(defs@[c.index as int])
                &&& defs@[c.index as int].eligible(money, selected@)
            },
    {
        let ndefs: usize = defs.len();
        let mut eligible_at: Vec<usize> = Vec::new();
        let mut i: usize = 0;
        while i < ndefs
            invariant
                ndefs == defs@.len(),
                selected@.len() == defs@.len(),
                i <= ndefs,
                forall|k: int| 0 <= k < defs@.len() ==> (#[trigger] defs@[k]).index == k,
                forall|k: int| 0 <= k < eligible_at@.len() ==> {
                    let j = #[trigger] eligible_at@[k];
                    0 <= j < defs@.len() && defs@[j as int].eligible(money, selected@)
                },
                forall|j: int| 0 <= j < i && (#[trigger] defs@[j]).eligible(money, selected@)
                    ==> eligible_at@.contains(j as usize),
            decreases ndefs - i,
        {
            let card: &Card = &defs[i];
            if card.cost <= money && (card.max_amount == 0 || selected[i] < card.max_amount) {
                let ghost pre = eligible_at@;
                eligible_at.push(i);
                proof {
                    assert forall|j: int|
                        0 <= j <= i as int && (#[trigger] defs@[j]).eligible(
                            money,
                            selected@,
                        ) implies eligible_at@.contains(j as usize) by {
                        if j < i as int {
                            assert(pre.contains(j as usize));
                            let idx = choose|idx: int|
                                0 <= idx < pre.len() && pre[idx] == j as usize;
                            assert(eligible_at@[idx] == j as usize);
                        } else {
                            assert(eligible_at@[eligible_at@.len() - 1] == i);
                        }
                    }
                }
            }
            i = i + 1;
        }
        if eligible_at.len() == 0 {
            proof {
                assert forall|j: int|
                    0 <= j < defs@.len() implies !(#[trigger] defs@[j]).eligible(
                    money,
                    selected@,
                ) by {
                    if defs@[j].eligible(money, selected@) {
                        assert(eligible_at@.contains(j as usize));
                    }
                }
            }
            None
        } else {
            let k: usize = random_index(eligible_at.len());
            let di: usize = eligible_at[k];
            Some(defs[di].clone())
        }
    }

    /// Purchase the card: a no-op if the player cannot afford it; otherwise
    /// deduct the cost, add the value to the targeted accumulator, and count
    /// the purchase against the card's definition.
    pub fn apply(&self, game: &mut GameState)
        requires
            old(game).wf(),
            old(game).phase != Phase::Buy,
            old(game).option_ok(*self),
            old(game).option_purchasable(*self),
        ensures
            final(game).wf(),
            ({
                if self.cost > old(game).money {
                    *final(game) == *old(game)
                } else {
                    let i = self.index as int;
                    let s0 = old(game).selected_cards@[i];
                    &&& final(game).money == old(game).money - self.cost
                    &&& final(game).selected_cards@ == old(game).selected_cards@.update(
                        i,
                        if s0 == u64::MAX { s0 } else { (s0 + 1) as u64 },
                    )
                    &&& final(game).extra_initial_speed == (if self.target
                        == CardTarget::InitialSpeed {
                        clamp_i(
                            old(game).extra_initial_speed + self.value,
                            -EXTRA_MAX as int,
                            EXTRA_MAX as int,
                        ) as i64
                    } else {
                        old(game).extra_initial_speed
                    })
                    &&& final(game).extra_gravity == (if self.target == CardTarget::Gravity {
                        clamp_i(
                            old(game).extra_gravity + self.value,
                            -EXTRA_MAX as int,
                            EXTRA_MAX as int,
                        ) as i64
                    } else {
                        old(game).extra_gravity
                    })
                    &&& final(game).phase == old(game).phase
                    &&& final(game).initial_angle == old(game).initial_angle
                    &&& final(game).sign == old(game).sign
                    &&& final(game).initial_speed == old(game).initial_speed
                    &&& final(game).pos == old(game).pos
                    &&& final(game).vel == old(game).vel
                    &&& final(game).rot == old(game).rot
                    &&& final(game).boost == old(game).boost
                    &&& final(game).boost_sign == old(game).boost_sign
                    &&& final(game).boost_delay == old(game).boost_delay
                    &&& final(game).buy_timeout == old(game).buy_timeout
                    &&& final(game).buy_item == old(game).buy_item
                    &&& final(game).trees@ == old(game).trees@
                    &&& final(game).clouds@ == old(game).clouds@
                    &&& final(game).disks@ == old(game).disks@
                    &&& final(game).rocks@ == old(game).rocks@
                    &&& final(game).particles@ == old(game).particles@
                    &&& final(game).card_options@ == old(game).card_options@
                    &&& final(game).card_defs@ == old(game).card_defs@
                    &&& final(game).dead_timeout == old(game).dead_timeout
                    &&& final(game).max_distance == old(game).max_distance
                }
            }),
    {
        if self.cost > game.money {
            return ;
        }
        game.money = game.money - self.cost;
        match self.target {
            CardTarget::Nothing => {}
            CardTarget::InitialSpeed => {
                game.extra_initial_speed = add_clamp(
                    game.extra_initial_speed,
                    self.value,
                    EXTRA_MAX,
                );
            }
            CardTarget::Gravity => {
                game.extra_gravity = add_clamp(game.extra_gravity, self.value, EXTRA_MAX);
            }
        }
        let s0: u64 = game.selected_cards[self.index];
        let s1: u64 = if s0 == u64::MAX { s0 } else { s0 + 1 };
        game.selected_cards.set(self.index, s1);
    }
}

} // verus!
