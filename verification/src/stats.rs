//! Ability scores, proficiencies and skills.

use crate::sheet::SheetState;
use vstd::prelude::*;

verus! {

/// The six abilities.
#[derive(Debug, Clone, Copy, PartialEq, Eq, Hash, Structural)]
pub enum Stat {
    Strength,
    Dexterity,
    Constitution,
    Intelligence,
    Wisdom,
    Charisma,
}

/// The modifier that a score of `value` gives: half of what the score is
/// above ten, or below it, rounded toward nothing.
pub open spec fn modifier_of(value: i8) -> int {
    if value >= 10 {
        (value - 10) / 2
    } else {
        -((10 - value) / 2)
    }
}

impl Stat {
    /// The abilities in their usual order.
    pub open spec fn all() -> Seq<Stat> {
        seq![
            Stat::Strength,
            Stat::Dexterity,
            Stat::Constitution,
            Stat::Intelligence,
            Stat::Wisdom,
            Stat::Charisma,
        ]
    }

    /// The name of the ability in three capital letters.
    pub open spec fn abbreviation(self) -> Seq<char> {
        match self {
            Stat::Strength => "STR"@,
            Stat::Dexterity => "DEX"@,
            Stat::Constitution => "CON"@,
            Stat::Intelligence => "INT"@,
            Stat::Wisdom => "WIS"@,
            Stat::Charisma => "CHA"@,
        }
    }

    /// The abilities in their usual order.
    pub fn stats() -> (all: Vec<Stat>)
        ensures
            all@ == Self::all(),
    {
        let mut all: Vec<Stat> = Vec::new();
        all.push(Stat::Strength);
        all.push(Stat::Dexterity);
        all.push(Stat::Constitution);
        all.push(Stat::Intelligence);
        all.push(Stat::Wisdom);
        all.push(Stat::Charisma);
        assert(all@ =~= Self::all());
        all
    }

    /// The first three letters of the ability's name, in capitals.
    pub fn short(&self) -> (name: String)
        ensures
            name@ == self.abbreviation(),
    {
        match self {
            Stat::Strength => "STR".to_owned(),
            Stat::Dexterity => "DEX".to_owned(),
            Stat::Constitution => "CON".to_owned(),
            Stat::Intelligence => "INT".to_owned(),
            Stat::Wisdom => "WIS".to_owned(),
            Stat::Charisma => "CHA".to_owned(),
        }
    }

    /// The modifier that a score of `value` gives.
    pub fn modifier(value: i8) -> (modifier: i64)
        ensures
            modifier == modifier_of(value),
    {
        let above: i64 = value as i64 - 10;
        above / 2
    }
}

/// The scores of a character, one for each ability that has one.
pub struct Stats {
    pub strength: Option<i8>,
    pub dexterity: Option<i8>,
    pub constitution: Option<i8>,
    pub intelligence: Option<i8>,
    pub wisdom: Option<i8>,
    pub charisma: Option<i8>,
}

impl Stats {
    /// The score recorded for `stat`, if one is.
    pub open spec fn recorded(&self, stat: Stat) -> Option<i8> {
        match stat {
            Stat::Strength => self.strength,
            Stat::Dexterity => self.dexterity,
            Stat::Constitution => self.constitution,
            Stat::Intelligence => self.intelligence,
            Stat::Wisdom => self.wisdom,
            Stat::Charisma => self.charisma,
        }
    }

    /// The score in `stat`: the one recorded, and ten where none is.
    pub open spec fn spec_score(&self, stat: Stat) -> i8 {
        match self.recorded(stat) {
            Some(score) => score,
            None => 10,
        }
    }

    /// The score in `stat`: the one recorded, and ten where none is.
    pub fn score(&self, stat: Stat) -> (score: i8)
        ensures
            score == self.spec_score(stat),
    {
        let recorded = match stat {
            Stat::Strength => self.strength,
            Stat::Dexterity => self.dexterity,
            Stat::Constitution => self.constitution,
            Stat::Intelligence => self.intelligence,
            Stat::Wisdom => self.wisdom,
            Stat::Charisma => self.charisma,
        };
        match recorded {
            Some(score) => score,
            None => 10,
        }
    }

    /// Record `score` for `stat`, in place of what was recorded for it.
    pub fn set_score(&mut self, stat: Stat, score: i8)
        ensures
            final(self).recorded(stat) == Some(score),
            forall|other: Stat| other != stat ==> final(self).recorded(other) == old(self).recorded(other),
    {
        match stat {
            Stat::Strength => {
                self.strength = Some(score);
            },
            Stat::Dexterity => {
                self.dexterity = Some(score);
            },
            Stat::Constitution => {
                self.constitution = Some(score);
            },
            Stat::Intelligence => {
                self.intelligence = Some(score);
            },
            Stat::Wisdom => {
                self.wisdom = Some(score);
            },
            Stat::Charisma => {
                self.charisma = Some(score);
            },
        }
    }

    /// The modifier that the score in `stat` gives.
    pub fn modifier(&self, stat: Stat) -> (modifier: i64)
        ensures
            modifier == modifier_of(self.spec_score(stat)),
    {
        Stat::modifier(self.score(stat))
    }
}

impl Default for Stats {
    /// A score of ten in each ability.
    fn default() -> (stats: Stats)
        ensures
            forall|stat: Stat| stats.recorded(stat) == Some(10i8),
    {
        Stats {
            strength: Some(10),
            dexterity: Some(10),
            constitution: Some(10),
            intelligence: Some(10),
            wisdom: Some(10),
            charisma: Some(10),
        }
    }
}

/// How well a skill is trained.
#[derive(Clone, Copy, Debug, PartialEq, Eq, Structural)]
pub enum Proficiency {
    Untrained,
    Trained,
    Expert,
    Master,
    Legendary,
}

impl Proficiency {
    /// The place of the proficiency among the five, from untrained, zero,
    /// to legendary, four.
    pub open spec fn rank(self) -> int {
        match self {
            Proficiency::Untrained => 0,
            Proficiency::Trained => 1,
            Proficiency::Expert => 2,
            Proficiency::Master => 3,
            Proficiency::Legendary => 4,
        }
    }

    /// The proficiencies from the least to the greatest.
    pub open spec fn all() -> Seq<Proficiency> {
        seq![
            Proficiency::Untrained,
            Proficiency::Trained,
            Proficiency::Expert,
            Proficiency::Master,
            Proficiency::Legendary,
        ]
    }

    /// What the proficiency adds to a check at `level`: nothing when
    /// untrained, else the level and two for each rank.
    pub open spec fn bonus(self, level: i64) -> int {
        if self == Proficiency::Untrained {
            0
        } else {
            2 * self.rank() + level
        }
    }

    /// The proficiencies from the least to the greatest.
    pub fn ranks() -> (all: Vec<Proficiency>)
        ensures
            all@ == Self::all(),
    {
        let mut all: Vec<Proficiency> = Vec::new();
        all.push(Proficiency::Untrained);
        all.push(Proficiency::Trained);
        all.push(Proficiency::Expert);
        all.push(Proficiency::Master);
        all.push(Proficiency::Legendary);
        assert(all@ =~= Self::all());
        all
    }

    /// The next greater proficiency; legendary stays legendary.
    pub fn increase(&self) -> (next: Proficiency)
        ensures
            next.rank() == (if self.rank() < 4 { self.rank() + 1 } else { 4 }),
    {
        match self {
            Proficiency::Untrained => Proficiency::Trained,
            Proficiency::Trained => Proficiency::Expert,
            Proficiency::Expert => Proficiency::Master,
            Proficiency::Master => Proficiency::Legendary,
            Proficiency::Legendary => Proficiency::Legendary,
        }
    }

    /// The next lesser proficiency; untrained stays untrained.
    pub fn decrease(&self) -> (next: Proficiency)
        ensures
            next.rank() == (if self.rank() > 0 { self.rank() - 1 } else { 0 }),
    {
        match self {
            Proficiency::Untrained => Proficiency::Untrained,
            Proficiency::Trained => Proficiency::Untrained,
            Proficiency::Expert => Proficiency::Trained,
            Proficiency::Master => Proficiency::Expert,
            Proficiency::Legendary => Proficiency::Master,
        }
    }

    /// What the proficiency adds to a check at `level`.
    pub fn modifier(&self, level: i64) -> (modifier: i64)
        requires
            i64::MIN <= self.bonus(level) <= i64::MAX,
        ensures
            modifier == self.bonus(level),
    {
        match self {
            Proficiency::Untrained => 0,
            Proficiency::Trained => 2 + level,
            Proficiency::Expert => 4 + level,
            Proficiency::Master => 6 + level,
            Proficiency::Legendary => 8 + level,
        }
    }
}

/// Two proficiencies of one rank are the same.
pub proof fn lemma_rank_names_proficiency(a: Proficiency, b: Proficiency)
    requires
        a.rank() == b.rank(),
    ensures
        a == b,
{
}

/// Something a character may be trained in, and the ability it goes by.
pub struct Skill {
    pub name: String,
    pub stat: Stat,
    pub proficiency: Proficiency,
}

impl Skill {
    /// The modifier of a check of this skill on `sheet`: that of the
    /// ability, and what the proficiency adds at the sheet's level.
    pub open spec fn check(&self, sheet: &SheetState) -> int {
        modifier_of(sheet.stats.spec_score(self.stat)) + self.proficiency.bonus(sheet.level)
    }

    /// An untrained skill.
    pub fn new(name: &str, stat: Stat) -> (skill: Skill)
        ensures
            skill.name@ == name@,
            skill.stat == stat,
            skill.proficiency == Proficiency::Untrained,
    {
        Skill { name: name.to_owned(), stat, proficiency: Proficiency::Untrained }
    }

    /// Whether the modifier of a check of this skill on `sheet` is a number
    /// that sixty-four bits hold, and what the proficiency adds to it too.
    pub open spec fn checkable(&self, sheet: &SheetState) -> bool {
        &&& i64::MIN <= self.proficiency.bonus(sheet.level) <= i64::MAX
        &&& i64::MIN <= self.check(sheet) <= i64::MAX
    }

    /// Whether the modifier of a check of this skill on `sheet` can be
    /// worked out.
    pub fn can_check(&self, sheet: &SheetState) -> (yes: bool)
        ensures
            yes == self.checkable(sheet),
    {
        let rank: i64 = match self.proficiency {
            Proficiency::Untrained => 0,
            Proficiency::Trained => 2,
            Proficiency::Expert => 4,
            Proficiency::Master => 6,
            Proficiency::Legendary => 8,
        };
        let bonus = if rank == 0 {
            Some(0)
        } else {
            rank.checked_add(sheet.level)
        };
        match bonus {
            Some(bonus) => sheet.stats.modifier(self.stat).checked_add(bonus).is_some(),
            None => false,
        }
    }

    /// The modifier of a check of this skill on `sheet`.
    pub fn modifier(&self, sheet: &SheetState) -> (modifier: i64)
        requires
            self.checkable(sheet),
        ensures
            modifier == self.check(sheet),
    {
        sheet.stats.modifier(self.stat) + self.proficiency.modifier(sheet.level)
    }

    /// The modifier of a check of this skill on `sheet`, where it can be
    /// worked out.
    pub fn checked_modifier(&self, sheet: &SheetState) -> (modifier: Option<i64>)
        ensures
            modifier == (if self.checkable(sheet) {
                Some(self.check(sheet) as i64)
            } else {
                None
            }),
    {
        if self.can_check(sheet) {
            Some(self.modifier(sheet))
        } else {
            None
        }
    }
}

/// The skills of a character, in the order they are listed.
pub struct Skills(pub Vec<Skill>);

impl Skills {
    /// The place of the first skill from `from` on that is called `name`;
    /// the number of skills where none is.
    pub open spec fn place_from(&self, name: Seq<char>, from: int) -> int
        decreases self.0@.len() - from,
    {
        if from >= self.0@.len() {
            self.0@.len() as int
        } else if self.0@[from].name@ == name {
            from
        } else {
            self.place_from(name, from + 1)
        }
    }

    /// The place of the first skill called `name`; the number of skills
    /// where none is.
    pub open spec fn place(&self, name: Seq<char>) -> int {
        self.place_from(name, 0)
    }

    /// The place of the first skill called `name`, if one is.
    pub fn position(&self, name: &str) -> (at: Option<usize>)
        ensures
            match at {
                Some(i) => i == self.place(name@) && i < self.0@.len(),
                None => self.place(name@) == self.0@.len(),
            },
    {
        let wanted = name.to_owned();
        let mut i: usize = 0;
        while i < self.0.len()
            invariant
                i <= self.0@.len(),
                wanted@ == name@,
                self.place_from(name@, i as int) == self.place(name@),
            decreases self.0@.len() - i,
        {
            if self.0[i].name == wanted {
                return Some(i);
            }
            i += 1;
        }
        None
    }

    /// The first skill called `name`, if one is.
    pub fn lookup(&self, name: &str) -> (skill: Option<&Skill>)
        ensures
            match skill {
                Some(s) => self.place(name@) < self.0@.len() && *s == self.0@[self.place(name@)],
                None => self.place(name@) == self.0@.len(),
            },
    {
        match self.position(name) {
            Some(i) => Some(&self.0[i]),
            None => None,
        }
    }

    /// The first skill called `name`, if one is, to be changed in place.
    pub fn lookup_mut(&mut self, name: &str) -> (skill: Option<&mut Skill>)
        ensures
            match skill {
                Some(s) => {
                    &&& old(self).place(name@) < old(self).0@.len()
                    &&& *s == old(self).0@[old(self).place(name@)]
                    &&& final(self).0@ == old(self).0@.update(old(self).place(name@), *final(s))
                },
                None => old(self).place(name@) == old(self).0@.len() && *final(self) == *old(self),
            },
    {
        match self.position(name) {
            Some(i) => Some(&mut self.0[i]),
            None => None,
        }
    }
}

/// The skills that every character has, each with the ability it goes by.
pub open spec fn standard_skills() -> Seq<(Seq<char>, Stat)> {
    seq![
        ("Acrobatics"@, Stat::Dexterity),
        ("Arcana"@, Stat::Intelligence),
        ("Athletics"@, Stat::Strength),
        ("Crafting"@, Stat::Intelligence),
        ("Deception"@, Stat::Charisma),
        ("Diplomacy"@, Stat::Charisma),
        ("Intimidation"@, Stat::Charisma),
        ("Medicine"@, Stat::Wisdom),
        ("Nature"@, Stat::Wisdom),
        ("Occultism"@, Stat::Intelligence),
        ("Performance"@, Stat::Charisma),
        ("Religion"@, Stat::Wisdom),
        ("Society"@, Stat::Intelligence),
        ("Stealth"@, Stat::Dexterity),
        ("Survival"@, Stat::Wisdom),
        ("Thievery"@, Stat::Dexterity),
    ]
}

impl Default for Skills {
    /// The standard skills, all untrained.
    fn default() -> (skills: Skills)
        ensures
            skills.0@.len() == standard_skills().len(),
            forall|i: int|
                0 <= i < skills.0@.len() ==> {
                    &&& (#[trigger] skills.0@[i]).name@ == standard_skills()[i].0
                    &&& skills.0@[i].stat == standard_skills()[i].1
                    &&& skills.0@[i].proficiency == Proficiency::Untrained
                },
    {
        let mut all: Vec<Skill> = Vec::new();
        all.push(Skill::new("Acrobatics", Stat::Dexterity));
        all.push(Skill::new("Arcana", Stat::Intelligence));
        all.push(Skill::new("Athletics", Stat::Strength));
        all.push(Skill::new("Crafting", Stat::Intelligence));
        all.push(Skill::new("Deception", Stat::Charisma));
        all.push(Skill::new("Diplomacy", Stat::Charisma));
        all.push(Skill::new("Intimidation", Stat::Charisma));
        all.push(Skill::new("Medicine", Stat::Wisdom));
        all.push(Skill::new("Nature", Stat::Wisdom));
        all.push(Skill::new("Occultism", Stat::Intelligence));
        all.push(Skill::new("Performance", Stat::Charisma));
        all.push(Skill::new("Religion", Stat::Wisdom));
        all.push(Skill::new("Society", Stat::Intelligence));
        all.push(Skill::new("Stealth", Stat::Dexterity));
        all.push(Skill::new("Survival", Stat::Wisdom));
        all.push(Skill::new("Thievery", Stat::Dexterity));
        Skills(all)
    }
}

} // verus!
