//! Lasting changes to a tower's stats.

use vstd::prelude::*;
use crate::towers;
use crate::towers::{Building, TowerBundle};
use crate::world::Unit;

verus! {

/// The units once every buff that was waiting is on the attack speed of its
/// tower.
pub open spec fn buffs_applied(units: Seq<Unit>) -> Seq<Unit> {
    Seq::new(units.len(), |i: int| Unit::on_building(units[i], |b: Building| b.buff_applied()))
}

/// Thousandths that a buff adds to a tower's attack speed.
#[derive(Clone, Copy, PartialEq, Eq, Structural, Debug)]
pub struct AttackSpeed(pub u32);

impl AttackSpeed {
    /// The attack speed with the buff on it. The sum stops at the largest
    /// value the stat holds.
    pub open spec fn added_to(self, stat: towers::AttackSpeed) -> towers::AttackSpeed {
        towers::AttackSpeed(
            if stat.0 + self.0 > u32::MAX {
                u32::MAX
            } else {
                (stat.0 + self.0) as u32
            },
        )
    }

    /// The attack speed with the buff taken off it. The difference stops at
    /// zero.
    pub open spec fn taken_from(self, stat: towers::AttackSpeed) -> towers::AttackSpeed {
        towers::AttackSpeed(
            if stat.0 < self.0 {
                0
            } else {
                (stat.0 - self.0) as u32
            },
        )
    }

    /// Puts the buff on the stat.
    pub fn add_to(&self, stat: &mut towers::AttackSpeed)
        ensures
            *final(stat) == self.added_to(*old(stat)),
    {
        stat.0 = stat.0.saturating_add(self.0);
    }

    /// Takes the buff off the stat again.
    pub fn take_from(&self, stat: &mut towers::AttackSpeed)
        ensures
            *final(stat) == self.taken_from(*old(stat)),
    {
        stat.0 = stat.0.saturating_sub(self.0);
    }

    /// Puts every buff that was given since the last call on the attack
    /// speed of its tower.
    pub fn apply(units: &mut Vec<Unit>)
        ensures
            final(units)@ == buffs_applied(old(units)@),
    {
        let n = units.len();
        let mut i: usize = 0;
        while i < n
            invariant
                i <= n,
                n == units@.len(),
                n == old(units)@.len(),
                forall|j: int|
                    0 <= j < i ==> units@[j] == Unit::on_building(
                        old(units)@[j],
                        |b: Building| b.buff_applied(),
                    ),
                forall|j: int| i <= j < n ==> units@[j] == old(units)@[j],
            decreases n - i,
        {
            match &mut units[i] {
                Unit::Building(building) => {
                    building.apply_buff();
                },
                _ => {},
            }
            i += 1;
        }
        assert(units@ =~= buffs_applied(old(units)@));
    }
}

impl Building {
    /// The buff that is on the attack speed of the building's tower.
    pub open spec fn applied_buff(self) -> int {
        match self.buff {
            Some(buff) if !self.buff_added => buff.0 as int,
            _ => 0,
        }
    }

    /// The building once a buff that was waiting is on the attack speed of
    /// its tower. A buff on a building without a tower keeps waiting.
    pub open spec fn buff_applied(self) -> Building {
        match (self.buff, self.tower) {
            (Some(buff), Some(tower)) if self.buff_added => Building {
                tower: Some(TowerBundle { speed: buff.added_to(tower.speed), ..tower }),
                buff_added: false,
                ..self
            },
            _ => self,
        }
    }

    /// The building after an aura has offered it `gift` thousandths of
    /// attack speed: it keeps the larger of the buff it has and the gift. A
    /// buff that gives way is taken off the attack speed, and the gift waits
    /// to be put on it.
    pub open spec fn given(self, gift: u32) -> Building {
        match self.buff {
            Some(buff) if buff.0 >= gift => self,
            Some(buff) => Building {
                tower: match self.tower {
                    Some(tower) if !self.buff_added => Some(
                        TowerBundle { speed: buff.taken_from(tower.speed), ..tower },
                    ),
                    _ => self.tower,
                },
                buff: Some(AttackSpeed(gift)),
                buff_added: true,
                ..self
            },
            None => Building { buff: Some(AttackSpeed(gift)), buff_added: true, ..self },
        }
    }

    /// Puts a buff that was given on the attack speed of the tower.
    pub fn apply_buff(&mut self)
        ensures
            *final(self) == old(self).buff_applied(),
    {
        if self.buff_added {
            match self.buff {
                Some(buff) => match &mut self.tower {
                    Some(tower) => {
                        buff.add_to(&mut tower.speed);
                        self.buff_added = false;
                    },
                    None => {},
                },
                None => {},
            }
        }
    }

    /// Offers the building `gift` thousandths of attack speed.
    pub fn give(&mut self, gift: u32)
        ensures
            *final(self) == old(self).given(gift),
    {
        match self.buff {
            Some(buff) => {
                if buff.0 < gift {
                    if !self.buff_added {
                        match &mut self.tower {
                            Some(tower) => {
                                buff.take_from(&mut tower.speed);
                            },
                            None => {},
                        }
                    }
                    self.buff = Some(AttackSpeed(gift));
                    self.buff_added = true;
                }
            },
            None => {
                self.buff = Some(AttackSpeed(gift));
                self.buff_added = true;
            },
        }
    }
}

/// An offer that is no less than the buff that a building has, and fits on
/// its attack speed, is on that attack speed after it was given and applied,
/// and nothing of the buff that gave way is left.
pub proof fn lemma_buff_is_paired(building: Building, gift: u32)
    requires
        building.tower is Some,
        building.tower.unwrap().speed.0 >= building.applied_buff(),
        building.tower.unwrap().speed.0 - building.applied_buff() + gift <= u32::MAX,
        match building.buff {
            Some(buff) => buff.0 < gift,
            None => true,
        },
    ensures
        ({
            let after = building.given(gift).buff_applied();
            &&& after.buff == Some(AttackSpeed(gift))
            &&& after.applied_buff() == gift
            &&& after.tower.unwrap().speed.0 - after.applied_buff()
                == building.tower.unwrap().speed.0 - building.applied_buff()
        }),
{
}

} // verus!
