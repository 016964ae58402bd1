//! Sort modes, directions and the configuration that pairs them.
use vstd::prelude::*;
use core::cmp::Ordering;

verus! {

/// What a list of search results is ordered by.
#[derive(Debug, Clone, Copy, PartialEq, Eq, Structural)]
pub enum SortMode {
    FilePath,
    /// Sort by AI relevance score
    Score,
    ModifiedTime,
    AccessedTime,
    CreatedTime,
}

/// Whether an ordering is kept or reversed.
#[derive(Debug, Clone, Copy, PartialEq, Eq, Structural)]
pub enum SortDirection {
    Ascending,
    Descending,
}

/// A sort mode together with its direction.
#[derive(Debug, Clone, Copy, PartialEq, Eq, Structural)]
pub struct SortConfig {
    pub mode: SortMode,
    pub direction: SortDirection,
}

/// The ordering with `Less` and `Greater` exchanged.
pub open spec fn reversed(o: Ordering) -> Ordering {
    match o {
        Ordering::Less => Ordering::Greater,
        Ordering::Equal => Ordering::Equal,
        Ordering::Greater => Ordering::Less,
    }
}

impl SortMode {
    /// Every mode, in declaration order.
    pub open spec fn spec_all() -> Seq<SortMode> {
        seq![SortMode::FilePath, SortMode::Score, SortMode::ModifiedTime,
            SortMode::AccessedTime, SortMode::CreatedTime]
    }

    /// The mode used when none is chosen.
    pub fn default_mode() -> (m: SortMode)
        ensures
            m == SortMode::Score,
    {
        SortMode::Score
    }

    /// Every mode, in declaration order.
    pub fn all() -> (v: Vec<SortMode>)
        ensures
            v@ == Self::spec_all(),
    {
        let v = vec![SortMode::FilePath, SortMode::Score, SortMode::ModifiedTime,
            SortMode::AccessedTime, SortMode::CreatedTime];
        assert(v@ =~= Self::spec_all());
        v
    }

    /// The variant's name, as the translation key of its label.
    pub fn name(&self) -> (s: &'static str)
        ensures
            s@ == self.spec_name(),
    {
        proof {
            reveal_strlit("FilePath");
            reveal_strlit("Score");
            reveal_strlit("ModifiedTime");
            reveal_strlit("AccessedTime");
            reveal_strlit("CreatedTime");
        }
        match self {
            SortMode::FilePath => "FilePath",
            SortMode::Score => "Score",
            SortMode::ModifiedTime => "ModifiedTime",
            SortMode::AccessedTime => "AccessedTime",
            SortMode::CreatedTime => "CreatedTime",
        }
    }

    pub open spec fn spec_name(&self) -> Seq<char> {
        match self {
            SortMode::FilePath => seq!['F', 'i', 'l', 'e', 'P', 'a', 't', 'h'],
            SortMode::Score => seq!['S', 'c', 'o', 'r', 'e'],
            SortMode::ModifiedTime => seq!['M', 'o', 'd', 'i', 'f', 'i', 'e', 'd', 'T', 'i', 'm', 'e'],
            SortMode::AccessedTime => seq!['A', 'c', 'c', 'e', 's', 's', 'e', 'd', 'T', 'i', 'm', 'e'],
            SortMode::CreatedTime => seq!['C', 'r', 'e', 'a', 't', 'e', 'd', 'T', 'i', 'm', 'e'],
        }
    }
}

impl SortDirection {
    pub open spec fn spec_toggle(self) -> SortDirection {
        match self {
            SortDirection::Ascending => SortDirection::Descending,
            SortDirection::Descending => SortDirection::Ascending,
        }
    }

    /// The opposite direction.
    pub fn toggle(&self) -> (d: Self)
        ensures
            d == self.spec_toggle(),
            d != *self,
    {
        match self {
            SortDirection::Ascending => SortDirection::Descending,
            SortDirection::Descending => SortDirection::Ascending,
        }
    }

    pub open spec fn applied_to(self, ordering: Ordering) -> Ordering {
        match self {
            SortDirection::Ascending => ordering,
            SortDirection::Descending => reversed(ordering),
        }
    }

    /// Apply direction to an ordering
    pub fn apply(&self, ordering: Ordering) -> (o: Ordering)
        ensures
            o == self.applied_to(ordering),
    {
        match self {
            SortDirection::Ascending => ordering,
            SortDirection::Descending => match ordering {
                Ordering::Less => Ordering::Greater,
                Ordering::Equal => Ordering::Equal,
                Ordering::Greater => Ordering::Less,
            },
        }
    }
}

impl SortConfig {
    /// Sensible default directions per mode: newest or highest first for time and
    /// relevance, A to Z for paths.
    pub open spec fn spec_default_direction_for(mode: SortMode) -> SortDirection {
        match mode {
            SortMode::FilePath => SortDirection::Ascending,
            _ => SortDirection::Descending,
        }
    }

    pub open spec fn spec_default() -> SortConfig {
        SortConfig {
            mode: SortMode::Score,
            direction: Self::spec_default_direction_for(SortMode::Score),
        }
    }

    pub open spec fn spec_toggle_or_set(self, mode: SortMode) -> SortConfig {
        if self.mode == mode {
            SortConfig { mode: self.mode, direction: self.direction.spec_toggle() }
        } else {
            SortConfig { mode, direction: Self::spec_default_direction_for(mode) }
        }
    }

    pub fn new(mode: SortMode, direction: SortDirection) -> (c: Self)
        ensures
            c.mode == mode,
            c.direction == direction,
    {
        Self { mode, direction }
    }

    /// If same mode, toggle direction; otherwise switch mode with default direction
    pub fn toggle_or_set(&mut self, mode: SortMode)
        ensures
            *final(self) == old(self).spec_toggle_or_set(mode),
    {
        if self.mode == mode {
            self.direction = self.direction.toggle();
        } else {
            self.direction = Self::default_direction_for(&mode);
            self.mode = mode;
        }
    }

    /// Sensible default directions per mode
    fn default_direction_for(mode: &SortMode) -> (d: SortDirection)
        ensures
            d == Self::spec_default_direction_for(*mode),
    {
        match mode {
            SortMode::AccessedTime
            | SortMode::CreatedTime
            | SortMode::ModifiedTime
            | SortMode::Score => SortDirection::Descending,
            SortMode::FilePath => SortDirection::Ascending,
        }
    }
}

impl Default for SortConfig {
    fn default() -> (c: Self)
        ensures
            c == Self::spec_default(),
    {
        let mode = SortMode::default_mode();
        let direction = Self::default_direction_for(&mode);
        Self { mode, direction }
    }
}

/// Toggling the direction twice gives the direction back.
pub proof fn lemma_toggle_involutive(d: SortDirection)
    ensures
        d.spec_toggle().spec_toggle() == d,
{
}

/// Choosing the same mode twice gives the configuration back.
pub proof fn lemma_toggle_or_set_same_mode_twice(c: SortConfig)
    ensures
        c.spec_toggle_or_set(c.mode).spec_toggle_or_set(c.mode) == c,
{
}

/// Choosing another mode yields that mode with its default direction, whatever came before.
pub proof fn lemma_toggle_or_set_new_mode(c: SortConfig, mode: SortMode)
    requires
        c.mode != mode,
    ensures
        c.spec_toggle_or_set(mode).mode == mode,
        c.spec_toggle_or_set(mode).direction == SortConfig::spec_default_direction_for(mode),
{
}

/// Descending order is ascending order reversed: applying it twice is the identity.
pub proof fn lemma_apply_descending_twice(o: Ordering)
    ensures
        SortDirection::Descending.applied_to(SortDirection::Descending.applied_to(o)) == o,
{
}

} // verus!
