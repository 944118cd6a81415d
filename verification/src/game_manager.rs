use vstd::prelude::*;
use vstd::hash_set::StringHashSet;
use crate::mapping::Mapping;

verus! {

/// The most blue orbs the player can hold.
pub const MAX_BLUE_ORBS: i32 = 14;

/// The most purple orbs the player can hold.
pub const MAX_PURPLE_ORBS: i32 = 10;

/// The highest level a gun reaches.
pub const MAX_GUN_LEVEL: u32 = 2;

/// How many guns have levels.
pub const GUN_COUNT: usize = 5;

/// The smaller of two integers.
pub open spec fn min_int(a: int, b: int) -> int {
    if a <= b { a } else { b }
}

/// A capped increase never goes past the cap, never loses what was there
/// (when within the cap), and adds the full step whenever it fits.
pub proof fn lemma_capped_increase(old: int, step: int, cap: int)
    requires
        step >= 0,
    ensures
        min_int(old + step, cap) <= cap,
        old <= cap ==> old <= min_int(old + step, cap),
        old + step <= cap ==> min_int(old + step, cap) == old + step,
        old + step > cap ==> min_int(old + step, cap) == cap,
{
}

/// What the player has received from the multiworld so far.
pub struct ArchipelagoData {
    pub blue_orbs: i32,
    pub purple_orbs: i32,
    pub dt_unlocked: bool,
    pub gun_levels: [u32; 5],
    pub items: StringHashSet,
}

impl ArchipelagoData {
    /// The level of each gun.
    pub open spec fn levels(&self) -> Seq<u32> {
        self.gun_levels@
    }

    /// Every counter is within its cap.
    pub open spec fn within_caps(&self) -> bool {
        &&& 0 <= self.blue_orbs <= MAX_BLUE_ORBS
        &&& 0 <= self.purple_orbs <= MAX_PURPLE_ORBS
        &&& forall|i: int| 0 <= i < GUN_COUNT ==> #[trigger] self.levels()[i] <= MAX_GUN_LEVEL
    }

    /// Nothing received: no orbs, Devil Trigger locked, all guns at level 0, no items.
    pub open spec fn is_fresh(&self) -> bool {
        &&& self.blue_orbs == 0
        &&& self.purple_orbs == 0
        &&& !self.dt_unlocked
        &&& self.levels() == seq![0u32, 0u32, 0u32, 0u32, 0u32]
        &&& self.items@ == Set::<Seq<char>>::empty()
    }

    /// The empty record.
    pub fn new() -> (r: ArchipelagoData)
        ensures
            r.is_fresh(),
            r.within_caps(),
    {
        let r = ArchipelagoData {
            blue_orbs: 0,
            purple_orbs: 0,
            dt_unlocked: false,
            gun_levels: [0u32; 5],
            items: StringHashSet::new(),
        };
        assert(r.levels() =~= seq![0u32, 0u32, 0u32, 0u32, 0u32]);
        r
    }

    /// Records that an item was received.
    pub fn add_item(&mut self, item: String)
        ensures
            final(self).items@ == old(self).items@.insert(item@),
            final(self).blue_orbs == old(self).blue_orbs,
            final(self).purple_orbs == old(self).purple_orbs,
            final(self).dt_unlocked == old(self).dt_unlocked,
            final(self).levels() == old(self).levels(),
            old(self).within_caps() ==> final(self).within_caps(),
    {
        self.items.insert(item);
        assert(self.levels() == old(self).levels());
    }

    /// One more blue orb, up to the cap.
    pub fn add_blue_orb(&mut self)
        requires
            old(self).blue_orbs < i32::MAX,
        ensures
            final(self).blue_orbs == min_int(old(self).blue_orbs + 1, MAX_BLUE_ORBS as int),
            final(self).purple_orbs == old(self).purple_orbs,
            final(self).dt_unlocked == old(self).dt_unlocked,
            final(self).levels() == old(self).levels(),
            final(self).items@ == old(self).items@,
            old(self).within_caps() ==> final(self).within_caps(),
    {
        let n = self.blue_orbs + 1;
        self.blue_orbs = if n <= MAX_BLUE_ORBS { n } else { MAX_BLUE_ORBS };
    }

    /// One more purple orb, up to the cap. Without Devil Trigger mode the first
    /// purple orb also unlocks Devil Trigger; with no slot data it does not.
    pub fn add_purple_orb(&mut self, mapping: &Option<Mapping>)
        requires
            old(self).purple_orbs < i32::MAX,
        ensures
            final(self).purple_orbs == min_int(old(self).purple_orbs + 1, MAX_PURPLE_ORBS as int),
            final(self).dt_unlocked == (old(self).dt_unlocked || match mapping {
                Some(m) => !m.devil_trigger_mode,
                None => false,
            }),
            final(self).blue_orbs == old(self).blue_orbs,
            final(self).levels() == old(self).levels(),
            final(self).items@ == old(self).items@,
            old(self).within_caps() ==> final(self).within_caps(),
    {
        let n = self.purple_orbs + 1;
        self.purple_orbs = if n <= MAX_PURPLE_ORBS { n } else { MAX_PURPLE_ORBS };
        match mapping {
            Some(m) => {
                if !m.devil_trigger_mode {
                    self.dt_unlocked = true;
                }
            },
            None => {},
        }
        assert(self.levels() == old(self).levels());
    }

    /// Receives Devil Trigger. In Devil Trigger mode this unlocks it; without
    /// purple orb mode it also gives three purple orbs, up to the cap. With no
    /// slot data nothing changes.
    pub fn add_dt(&mut self, mapping: &Option<Mapping>)
        requires
            match mapping {
                Some(m) => !m.purple_orb_mode ==> old(self).purple_orbs <= i32::MAX - 3,
                None => true,
            },
        ensures
            final(self).dt_unlocked == (old(self).dt_unlocked || match mapping {
                Some(m) => m.devil_trigger_mode,
                None => false,
            }),
            final(self).purple_orbs == match mapping {
                Some(m) => if m.purple_orb_mode {
                    old(self).purple_orbs as int
                } else {
                    min_int(old(self).purple_orbs + 3, MAX_PURPLE_ORBS as int)
                },
                None => old(self).purple_orbs as int,
            },
            final(self).blue_orbs == old(self).blue_orbs,
            final(self).levels() == old(self).levels(),
            final(self).items@ == old(self).items@,
            old(self).within_caps() ==> final(self).within_caps(),
    {
        match mapping {
            Some(m) => {
                if m.devil_trigger_mode {
                    self.dt_unlocked = true;
                }
                if !m.purple_orb_mode {
                    let n = self.purple_orbs + 3;
                    self.purple_orbs = if n <= MAX_PURPLE_ORBS { n } else { MAX_PURPLE_ORBS };
                }
            },
            None => {},
        }
    }

    /// One more level for gun `gun_index`, up to the cap.
    pub fn add_gun_level(&mut self, gun_index: usize)
        requires
            gun_index < GUN_COUNT,
            old(self).levels()[gun_index as int] < u32::MAX,
        ensures
            final(self).levels() == old(self).levels().update(
                gun_index as int,
                min_int(old(self).levels()[gun_index as int] + 1, MAX_GUN_LEVEL as int) as u32,
            ),
            final(self).blue_orbs == old(self).blue_orbs,
            final(self).purple_orbs == old(self).purple_orbs,
            final(self).dt_unlocked == old(self).dt_unlocked,
            final(self).items@ == old(self).items@,
            old(self).within_caps() ==> final(self).within_caps(),
    {
        let n = self.gun_levels[gun_index] + 1;
        let v = if n <= MAX_GUN_LEVEL { n } else { MAX_GUN_LEVEL };
        self.gun_levels[gun_index] = v;
        assert(self.levels() =~= old(self).levels().update(gun_index as int, v));
    }

    /// Every gun back to level 0.
    pub fn reset_gun_levels(&mut self)
        ensures
            final(self).levels() == seq![0u32, 0u32, 0u32, 0u32, 0u32],
            final(self).blue_orbs == old(self).blue_orbs,
            final(self).purple_orbs == old(self).purple_orbs,
            final(self).dt_unlocked == old(self).dt_unlocked,
            final(self).items@ == old(self).items@,
            old(self).within_caps() ==> final(self).within_caps(),
    {
        self.gun_levels = [0u32; 5];
        assert(self.levels() =~= seq![0u32, 0u32, 0u32, 0u32, 0u32]);
    }
}

impl Default for ArchipelagoData {
    fn default() -> (r: ArchipelagoData)
        ensures
            r.is_fresh(),
    {
        ArchipelagoData::new()
    }
}


/// Receiving an item that was already received changes nothing: the item set
/// after receiving it twice is the set after receiving it once.
pub proof fn lemma_add_item_idempotent(items: Set<Seq<char>>, item: Seq<char>)
    ensures
        items.insert(item).insert(item) == items.insert(item),
{
    assert(items.insert(item).insert(item) =~= items.insert(item));
}

} // verus!
