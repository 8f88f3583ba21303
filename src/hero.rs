use crate::encounter::Encounter;
use crate::text::{int_text, int_to_text, join_text, join_texts, nat_text, nat_to_text, texts_of};
use std::cmp::Ordering;
use vstd::prelude::*;
use vstd::string::*;

verus! {

/// A hero's once-per-phase special ability.
pub struct HeroicFeat {
    pub name: String,
    pub description: String,
    pub encounters: Vec<Encounter>,
}

/// The kind of a countable resource or of a die.
#[derive(Debug, Clone)]
pub enum AttributeType {
    Strength,
    Agility,
    Magic,
    Heroic,
    Health,
    Time,
    Door,
    Potion,
    /// A die showing one of these face values.
    Value(Vec<i8>),
    Default,
}

/// The mathematical model of an `AttributeType`.
pub enum AttributeKind {
    Strength,
    Agility,
    Magic,
    Heroic,
    Health,
    Time,
    Door,
    Potion,
    Value(Seq<i8>),
    Default,
}

impl View for AttributeType {
    type V = AttributeKind;

    open spec fn view(&self) -> AttributeKind {
        match self {
            AttributeType::Strength => AttributeKind::Strength,
            AttributeType::Agility => AttributeKind::Agility,
            AttributeType::Magic => AttributeKind::Magic,
            AttributeType::Heroic => AttributeKind::Heroic,
            AttributeType::Health => AttributeKind::Health,
            AttributeType::Time => AttributeKind::Time,
            AttributeType::Door => AttributeKind::Door,
            AttributeType::Potion => AttributeKind::Potion,
            AttributeType::Value(v) => AttributeKind::Value(v@),
            AttributeType::Default => AttributeKind::Default,
        }
    }
}

/// Position of a kind in display order: the four base resources first, the
/// other named kinds alphabetically, face-value dice next and `Default` last.
pub open spec fn kind_rank(k: AttributeKind) -> nat {
    match k {
        AttributeKind::Strength => 0,
        AttributeKind::Agility => 1,
        AttributeKind::Magic => 2,
        AttributeKind::Health => 3,
        AttributeKind::Door => 4,
        AttributeKind::Heroic => 5,
        AttributeKind::Potion => 6,
        AttributeKind::Time => 7,
        AttributeKind::Value(_) => 8,
        AttributeKind::Default => 9,
    }
}

/// Lexicographic order on face-value lists: a proper prefix comes first.
pub open spec fn faces_less(a: Seq<i8>, b: Seq<i8>) -> bool
    decreases a.len(),
{
    if b.len() == 0 {
        false
    } else if a.len() == 0 {
        true
    } else if a[0] != b[0] {
        a[0] < b[0]
    } else {
        faces_less(a.drop_first(), b.drop_first())
    }
}

/// The strict display order on attribute kinds.
pub open spec fn kind_less(a: AttributeKind, b: AttributeKind) -> bool {
    match (a, b) {
        (AttributeKind::Value(v), AttributeKind::Value(w)) => faces_less(v, w),
        _ => kind_rank(a) < kind_rank(b),
    }
}

/// How `a` compares with `b` in display order.
pub open spec fn kind_order(a: AttributeKind, b: AttributeKind) -> Ordering {
    if a == b {
        Ordering::Equal
    } else if kind_less(a, b) {
        Ordering::Less
    } else {
        Ordering::Greater
    }
}

fn faces_eq(a: &Vec<i8>, b: &Vec<i8>) -> (r: bool)
    ensures
        r == (a@ == b@),
{
    if a.len() != b.len() {
        return false;
    }
    let mut i: usize = 0;
    while i < a.len()
        invariant
            a.len() == b.len(),
            i <= a.len(),
            a@.subrange(0, i as int) == b@.subrange(0, i as int),
        decreases a.len() - i,
    {
        if a[i] != b[i] {
            assert(a@.subrange(0, i as int + 1)[i as int] != b@.subrange(0, i as int + 1)[i as int]);
            return false;
        }
        assert(a@.subrange(0, i as int + 1) =~= a@.subrange(0, i as int).push(a[i as int]));
        assert(b@.subrange(0, i as int + 1) =~= b@.subrange(0, i as int).push(b[i as int]));
        i = i + 1;
    }
    assert(a@ =~= a@.subrange(0, a.len() as int));
    assert(b@ =~= b@.subrange(0, b.len() as int));
    true
}

fn faces_cmp(a: &Vec<i8>, b: &Vec<i8>) -> (r: Ordering)
    ensures
        r == (if a@ == b@ {
            Ordering::Equal
        } else if faces_less(a@, b@) {
            Ordering::Less
        } else {
            Ordering::Greater
        }),
{
    let mut i: usize = 0;
    assert(a@.skip(0) =~= a@);
    assert(b@.skip(0) =~= b@);
    while i < a.len() && i < b.len()
        invariant
            i <= a.len(),
            i <= b.len(),
            a@.subrange(0, i as int) == b@.subrange(0, i as int),
            faces_less(a@, b@) == faces_less(a@.skip(i as int), b@.skip(i as int)),
        decreases a.len() - i,
    {
        if a[i] != b[i] {
            assert(a@.skip(i as int)[0] == a[i as int]);
            assert(b@.skip(i as int)[0] == b[i as int]);
            assert(a@[i as int] != b@[i as int]);
            if a[i] < b[i] {
                return Ordering::Less;
            } else {
                return Ordering::Greater;
            }
        }
        assert(a@.skip(i as int).drop_first() =~= a@.skip(i as int + 1));
        assert(b@.skip(i as int).drop_first() =~= b@.skip(i as int + 1));
        assert(a@.subrange(0, i as int + 1) =~= a@.subrange(0, i as int).push(a[i as int]));
        assert(b@.subrange(0, i as int + 1) =~= b@.subrange(0, i as int).push(b[i as int]));
        i = i + 1;
    }
    if a.len() == b.len() {
        assert(a@ =~= a@.subrange(0, i as int));
        assert(b@ =~= b@.subrange(0, i as int));
        Ordering::Equal
    } else if i == a.len() {
        assert(a@.skip(i as int).len() == 0);
        assert(b@.skip(i as int).len() > 0);
        assert(a@ != b@);
        Ordering::Less
    } else {
        assert(b@.skip(i as int).len() == 0);
        assert(a@.len() != b@.len());
        Ordering::Greater
    }
}

impl AttributeType {
    /// Position in display order; face-value dice share one position.
    fn rank(&self) -> (r: u8)
        ensures
            r as nat == kind_rank(self@),
    {
        match self {
            AttributeType::Strength => 0,
            AttributeType::Agility => 1,
            AttributeType::Magic => 2,
            AttributeType::Health => 3,
            AttributeType::Door => 4,
            AttributeType::Heroic => 5,
            AttributeType::Potion => 6,
            AttributeType::Time => 7,
            AttributeType::Value(_) => 8,
            AttributeType::Default => 9,
        }
    }

    /// Compares two kinds in display order.
    pub fn compare(&self, other: &AttributeType) -> (r: Ordering)
        ensures
            r == kind_order(self@, other@),
    {
        match (self, other) {
            (AttributeType::Value(v), AttributeType::Value(w)) => faces_cmp(v, w),
            _ => {
                let a: u8 = self.rank();
                let b: u8 = other.rank();
                if a < b {
                    Ordering::Less
                } else if a > b {
                    Ordering::Greater
                } else {
                    Ordering::Equal
                }
            },
        }
    }
}

impl PartialEq for AttributeType {
    fn eq(&self, other: &AttributeType) -> (r: bool) {
        match (self, other) {
            (AttributeType::Value(v), AttributeType::Value(w)) => faces_eq(v, w),
            _ => self.rank() == other.rank(),
        }
    }
}

impl vstd::std_specs::cmp::PartialEqSpecImpl for AttributeType {
    open spec fn obeys_eq_spec() -> bool {
        true
    }

    open spec fn eq_spec(&self, other: &AttributeType) -> bool {
        self@ == other@
    }
}

impl Eq for AttributeType {

}

/// A quantity of a resource ("3 x Strength"), or a die of a kind showing a
/// face value ("Magic value 5").
pub struct Attribute {
    pub attribute: AttributeType,
    pub quantity: Option<usize>,
    pub value: Option<i8>,
}

impl Attribute {
    /// Exactly one of quantity and face value is set: the record can be shown.
    pub open spec fn wf(&self) -> bool {
        self.quantity.is_some() != self.value.is_some()
    }

    /// The stored quantity, an unset one counting as zero.
    pub open spec fn amount(&self) -> nat {
        match self.quantity {
            Some(q) => q as nat,
            None => 0,
        }
    }

    /// `n` of a resource.
    pub fn of_quantity(attribute: AttributeType, n: usize) -> (r: Attribute)
        ensures
            r.attribute == attribute,
            r.quantity == Some(n),
            r.value.is_none(),
    {
        Attribute { attribute, quantity: Some(n), value: None }
    }

    /// A die of a kind showing face `v`.
    pub fn of_value(attribute: AttributeType, v: i8) -> (r: Attribute)
        ensures
            r.attribute == attribute,
            r.quantity.is_none(),
            r.value == Some(v),
    {
        Attribute { attribute, quantity: None, value: Some(v) }
    }
}

impl Default for Attribute {
    fn default() -> (r: Attribute)
        ensures
            r.attribute@ == AttributeKind::Default,
            r.quantity.is_none(),
            r.value.is_none(),
    {
        Attribute { attribute: AttributeType::Default, quantity: None, value: None }
    }
}

/// A learned ability; skills are told apart by name.
pub struct Skill {
    pub name: String,
    pub description: Option<String>,
    /// What using the skill costs; `None` for a free skill.
    pub requirements: Option<Attribute>,
    pub effect: Effect,
    pub encounters: Vec<Encounter>,
}

/// What a skill, or a monster's special ability, does.
pub enum Effect {
    Gain(Vec<Attribute>),
    Roll(Vec<Attribute>),
    Increase(usize),
    Reroll(AttributeType),
    Change { attribute_type: AttributeType, value: usize },
    Prevent(AttributeType),
    Discard(AttributeType),
    Heal(usize),
    Skip(Attribute),
    Value(i8, AttributeType),
    Survivor,
    Ethereal,
    Dodge,
    Fade,
    Swarm,
    Undying,
    Split,
    Frost,
    Flames,
    Drain,
    Nothing,
}

/// Why a change to a hero was refused.
#[derive(Debug, Clone, Copy, PartialEq, Eq, Structural)]
pub enum HeroError {
    AttributeNotFound,
    QuantityNegative,
    ValueNotFound,
    DuplicateSkill,
    LevelTooHigh,
}

/// What a hero is entitled to at one level.
#[derive(Debug, Clone, Copy, PartialEq, Eq, Structural)]
pub struct LevelEntry {
    pub level: i8,
    pub items: i8,
    pub skills: i8,
    pub potions: i8,
    pub encounter_bonus: i8,
    pub xp_to_level_up: i8,
}

/// How a kind is written: its name, and for face-value dice the list of
/// faces ("Value([1, 2])").
pub open spec fn kind_text(k: AttributeKind) -> Seq<char> {
    match k {
        AttributeKind::Strength => "Strength"@,
        AttributeKind::Agility => "Agility"@,
        AttributeKind::Magic => "Magic"@,
        AttributeKind::Heroic => "Heroic"@,
        AttributeKind::Health => "Health"@,
        AttributeKind::Time => "Time"@,
        AttributeKind::Door => "Door"@,
        AttributeKind::Potion => "Potion"@,
        AttributeKind::Value(v) => "Value(["@ + join_text(v.map_values(|x: i8| int_text(x as int)), ", "@) + "])"@,
        AttributeKind::Default => "Default"@,
    }
}

/// How a record is written ("3 x Strength", "Magic value 5"); nothing where
/// both or neither of quantity and face value are set.
pub open spec fn attribute_text(a: Attribute) -> Option<Seq<char>> {
    match (a.quantity, a.value) {
        (Some(q), None) => Some(nat_text(q as nat) + " x "@ + kind_text(a.attribute@)),
        (None, Some(v)) => Some(kind_text(a.attribute@) + " value "@ + int_text(v as int)),
        _ => None,
    }
}

/// Each record as its kind, quantity and face value.
pub open spec fn records(s: Seq<Attribute>) -> Seq<(AttributeKind, Option<usize>, Option<i8>)> {
    s.map_values(|a: Attribute| (a.attribute@, a.quantity, a.value))
}

/// Records written one after the other with ", " between them; nothing where
/// one of them cannot be written.
pub open spec fn attributes_text(s: Seq<Attribute>) -> Option<Seq<char>> {
    if forall|i: int| 0 <= i < s.len() ==> (#[trigger] attribute_text(s[i])) is Some {
        Some(join_text(s.map_values(|a: Attribute| attribute_text(a)->Some_0), ", "@))
    } else {
        None
    }
}

/// `prefix` followed by `t`, where there is a `t`.
pub open spec fn prefixed(prefix: Seq<char>, t: Option<Seq<char>>) -> Option<Seq<char>> {
    match t {
        Some(t) => Some(prefix + t),
        None => None,
    }
}

/// How an effect is written: its rules text.
pub open spec fn effect_text(e: Effect) -> Option<Seq<char>> {
    match e {
        Effect::Gain(s) => prefixed("Gain: "@, attributes_text(s@)),
        Effect::Roll(s) => prefixed("Add to pool: "@, attributes_text(s@)),
        Effect::Increase(n) => Some("Increase one dice by "@ + nat_text(n as nat)),
        Effect::Reroll(t) => Some("Reroll one "@ + kind_text(t@) + " dice"@),
        Effect::Change { attribute_type, value } => Some(
            "Set one "@ + kind_text(attribute_type@) + " dice to "@ + nat_text(value as nat),
        ),
        Effect::Prevent(t) => Some("Prevent: "@ + kind_text(t@)),
        Effect::Discard(t) => Some("Discard one "@ + kind_text(t@) + " dice"@),
        Effect::Heal(n) => Some("Heal "@ + nat_text(n as nat) + " damage"@),
        Effect::Skip(a) => prefixed("Skip to the Claim Loot phase for "@, attribute_text(a)),
        Effect::Value(x, t) => Some("X = "@ + int_text(x as int) + " per "@ + kind_text(t@)),
        Effect::Survivor => Some("Survivor: If any armor boxes are empty, discard this instead of looting."@),
        Effect::Ethereal => Some("Ethereal: Immediately discard all 1s and 3s rolled."@),
        Effect::Dodge => Some("Dodge: Making an HEROIC dice usees three dice instead of two."@),
        Effect::Fade => Some("Fade: Spend 1 x TIME for each skill you use."@),
        Effect::Swarm => Some("Swarm: X = 4 per open door, including this one."@),
        Effect::Undying => Some("Undying: If any boxes are empty, spend 2 x TIME."@),
        Effect::Split => Some("Split: Spend 1 x TIME for each 1 rolled."@),
        Effect::Frost => Some("Frost: Before the encounter, spend 3 x TIME."@),
        Effect::Flames => Some("Flames: Before the encounter, place 1 x HEALTH on a hero."@),
        Effect::Drain => Some("Drain: Before the encounter, convert one item to XP."@),
        Effect::Nothing => Some("No effect"@),
    }
}

impl AttributeType {
    /// The kind written out, as `kind_text` gives it.
    pub fn to_text(&self) -> (r: String)
        ensures
            r@ == kind_text(self@),
    {
        match self {
            AttributeType::Strength => String::from_str("Strength"),
            AttributeType::Agility => String::from_str("Agility"),
            AttributeType::Magic => String::from_str("Magic"),
            AttributeType::Heroic => String::from_str("Heroic"),
            AttributeType::Health => String::from_str("Health"),
            AttributeType::Time => String::from_str("Time"),
            AttributeType::Door => String::from_str("Door"),
            AttributeType::Potion => String::from_str("Potion"),
            AttributeType::Value(v) => {
                let mut faces: Vec<String> = Vec::new();
                let mut i: usize = 0;
                while i < v.len()
                    invariant
                        i <= v.len(),
                        faces@.len() == i,
                        forall|j: int| 0 <= j < i ==> (#[trigger] faces@[j])@ == int_text(v@[j] as int),
                    decreases v.len() - i,
                {
                    faces.push(int_to_text(v[i] as i64));
                    i = i + 1;
                }
                assert(texts_of(faces@) =~= v@.map_values(|x: i8| int_text(x as int)));
                let mut r = String::from_str("Value([");
                let list = join_texts(&faces, ", ");
                r.append(list.as_str());
                r.append("])");
                r
            },
            AttributeType::Default => String::from_str("Default"),
        }
    }
}

impl Attribute {
    /// The record written out, as `attribute_text` gives it.
    pub fn to_text(&self) -> (r: Option<String>)
        ensures
            r is Some == attribute_text(*self) is Some,
            r is Some ==> r->Some_0@ == attribute_text(*self)->Some_0,
    {
        match (self.quantity, self.value) {
            (Some(q), None) => {
                let mut r = nat_to_text(q as u64);
                r.append(" x ");
                let k = self.attribute.to_text();
                r.append(k.as_str());
                Some(r)
            },
            (None, Some(v)) => {
                let mut r = self.attribute.to_text();
                r.append(" value ");
                let n = int_to_text(v as i64);
                r.append(n.as_str());
                Some(r)
            },
            _ => None,
        }
    }
}

/// The records of `s` written out and joined with ", ", as `attributes_text`
/// gives it.
pub fn attributes_to_text(s: &Vec<Attribute>) -> (r: Option<String>)
    ensures
        r is Some == attributes_text(s@) is Some,
        r is Some ==> r->Some_0@ == attributes_text(s@)->Some_0,
{
    let mut parts: Vec<String> = Vec::new();
    let mut i: usize = 0;
    while i < s.len()
        invariant
            i <= s.len(),
            parts@.len() == i,
            forall|j: int| 0 <= j < i ==> (#[trigger] attribute_text(s@[j])) is Some,
            forall|j: int| 0 <= j < i ==> (#[trigger] parts@[j])@ == attribute_text(s@[j])->Some_0,
        decreases s.len() - i,
    {
        match s[i].to_text() {
            Some(t) => parts.push(t),
            None => {
                return None;
            },
        }
        i = i + 1;
    }
    assert(texts_of(parts@) =~= s@.map_values(|a: Attribute| attribute_text(a)->Some_0));
    Some(join_texts(&parts, ", "))
}

fn prefix_text(prefix: &str, t: Option<String>) -> (r: Option<String>)
    ensures
        r is Some == t is Some,
        r is Some ==> r->Some_0@ == prefix@ + t->Some_0@,
{
    match t {
        Some(t) => {
            let mut r = String::from_str(prefix);
            r.append(t.as_str());
            Some(r)
        },
        None => None,
    }
}

impl Effect {
    /// The rules text of the effect, as `effect_text` gives it.
    pub fn to_text(&self) -> (r: Option<String>)
        ensures
            r is Some == effect_text(*self) is Some,
            r is Some ==> r->Some_0@ == effect_text(*self)->Some_0,
    {
        match self {
            Effect::Gain(s) => prefix_text("Gain: ", attributes_to_text(s)),
            Effect::Roll(s) => prefix_text("Add to pool: ", attributes_to_text(s)),
            Effect::Increase(n) => {
                let mut r = String::from_str("Increase one dice by ");
                let t = nat_to_text(*n as u64);
                r.append(t.as_str());
                Some(r)
            },
            Effect::Reroll(k) => {
                let mut r = String::from_str("Reroll one ");
                let t = k.to_text();
                r.append(t.as_str());
                r.append(" dice");
                Some(r)
            },
            Effect::Change { attribute_type, value } => {
                let mut r = String::from_str("Set one ");
                let t = attribute_type.to_text();
                r.append(t.as_str());
                r.append(" dice to ");
                let n = nat_to_text(*value as u64);
                r.append(n.as_str());
                Some(r)
            },
            Effect::Prevent(k) => {
                let mut r = String::from_str("Prevent: ");
                let t = k.to_text();
                r.append(t.as_str());
                Some(r)
            },
            Effect::Discard(k) => {
                let mut r = String::from_str("Discard one ");
                let t = k.to_text();
                r.append(t.as_str());
                r.append(" dice");
                Some(r)
            },
            Effect::Heal(n) => {
                let mut r = String::from_str("Heal ");
                let t = nat_to_text(*n as u64);
                r.append(t.as_str());
                r.append(" damage");
                Some(r)
            },
            Effect::Skip(a) => prefix_text("Skip to the Claim Loot phase for ", a.to_text()),
            Effect::Value(x, k) => {
                let mut r = String::from_str("X = ");
                let n = int_to_text(*x as i64);
                r.append(n.as_str());
                r.append(" per ");
                let t = k.to_text();
                r.append(t.as_str());
                Some(r)
            },
            Effect::Survivor => Some(String::from_str("Survivor: If any armor boxes are empty, discard this instead of looting.")),
            Effect::Ethereal => Some(String::from_str("Ethereal: Immediately discard all 1s and 3s rolled.")),
            Effect::Dodge => Some(String::from_str("Dodge: Making an HEROIC dice usees three dice instead of two.")),
            Effect::Fade => Some(String::from_str("Fade: Spend 1 x TIME for each skill you use.")),
            Effect::Swarm => Some(String::from_str("Swarm: X = 4 per open door, including this one.")),
            Effect::Undying => Some(String::from_str("Undying: If any boxes are empty, spend 2 x TIME.")),
            Effect::Split => Some(String::from_str("Split: Spend 1 x TIME for each 1 rolled.")),
            Effect::Frost => Some(String::from_str("Frost: Before the encounter, spend 3 x TIME.")),
            Effect::Flames => Some(String::from_str("Flames: Before the encounter, place 1 x HEALTH on a hero.")),
            Effect::Drain => Some(String::from_str("Drain: Before the encounter, convert one item to XP.")),
            Effect::Nothing => Some(String::from_str("No effect")),
        }
    }
}

impl HeroError {
    /// The message shown for any refused change.
    pub fn to_text(&self) -> (r: String)
        ensures
            r@ == "error updating the Hero stats"@,
    {
        String::from_str("error updating the Hero stats")
    }
}

/// Attribute records in strictly increasing display order of their kinds,
/// so no kind occurs twice.
pub open spec fn attributes_ordered(s: Seq<Attribute>) -> bool {
    forall|i: int, j: int|
        0 <= i < j < s.len() ==> kind_less(#[trigger] s[i].attribute@, #[trigger] s[j].attribute@)
}

/// No two skills share a name.
pub open spec fn skill_names_unique(s: Seq<Skill>) -> bool {
    forall|i: int, j: int| 0 <= i < j < s.len() ==> #[trigger] s[i].name@ != #[trigger] s[j].name@
}

/// No two level entries share a level number.
pub open spec fn levels_unique(s: Seq<LevelEntry>) -> bool {
    forall|i: int, j: int| 0 <= i < j < s.len() ==> #[trigger] s[i].level != #[trigger] s[j].level
}

/// Whether a skill named `name` is among `s`.
pub open spec fn has_skill_named(s: Seq<Skill>, name: Seq<char>) -> bool {
    exists|i: int| 0 <= i < s.len() && #[trigger] s[i].name@ == name
}

/// Whether the table holds an entry for level `n`.
pub open spec fn has_level(s: Seq<LevelEntry>, n: int) -> bool {
    exists|i: int| 0 <= i < s.len() && #[trigger] s[i].level == n
}

/// Whether `n` does not exceed the highest level of the table; an empty
/// table counts as reaching level 1.
pub open spec fn within_table(s: Seq<LevelEntry>, n: int) -> bool {
    if s.len() == 0 {
        n <= 1
    } else {
        exists|i: int| 0 <= i < s.len() && #[trigger] s[i].level >= n
    }
}

/// Index of the record for kind `k`, or -1 where there is none.
pub open spec fn attribute_index(s: Seq<Attribute>, k: AttributeKind) -> int
    decreases s.len(),
{
    if s.len() == 0 {
        -1
    } else if s.last().attribute@ == k {
        s.len() - 1
    } else {
        attribute_index(s.drop_last(), k)
    }
}

/// The table's entry for level `n`, where there is one.
pub open spec fn level_entry(s: Seq<LevelEntry>, n: int) -> Option<LevelEntry>
    decreases s.len(),
{
    if s.len() == 0 {
        None
    } else if s.last().level == n {
        Some(s.last())
    } else {
        level_entry(s.drop_last(), n)
    }
}

/// A playable character and its progress.
pub struct Hero {
    pub name: String,
    /// The hero's stock of each kind, in display order.
    pub attributes: Vec<Attribute>,
    pub heroic_feat: HeroicFeat,
    /// Learned skills, in the order they were learned.
    pub skills: Vec<Skill>,
    /// What each level brings.
    pub levels: Vec<LevelEntry>,
    pub current_level: i8,
    pub potions: i8,
    pub encounter_bonus: i8,
}

proof fn lemma_faces_less_irreflexive(v: Seq<i8>)
    ensures
        !faces_less(v, v),
    decreases v.len(),
{
    if v.len() > 0 {
        lemma_faces_less_irreflexive(v.drop_first());
    }
}

proof fn lemma_attribute_index(s: Seq<Attribute>, k: AttributeKind)
    ensures
        -1 <= attribute_index(s, k) < s.len(),
        attribute_index(s, k) >= 0 ==> s[attribute_index(s, k)].attribute@ == k,
        attribute_index(s, k) == -1 ==> forall|j: int| 0 <= j < s.len() ==> #[trigger] s[j].attribute@ != k,
    decreases s.len(),
{
    if s.len() > 0 {
        lemma_attribute_index(s.drop_last(), k);
        if s.last().attribute@ != k {
            assert forall|j: int| 0 <= j < s.len() && attribute_index(s, k) == -1 implies #[trigger] s[j].attribute@ != k by {
                if j < s.len() - 1 {
                    assert(s.drop_last()[j] == s[j]);
                }
            }
        }
    }
}

/// In an ordered attribute list the record for a kind is the only one.
proof fn lemma_attribute_index_unique(s: Seq<Attribute>, k: AttributeKind, i: int)
    requires
        attributes_ordered(s),
        0 <= i < s.len(),
        s[i].attribute@ == k,
    ensures
        attribute_index(s, k) == i,
{
    lemma_attribute_index(s, k);
    let j = attribute_index(s, k);
    if j != i {
        if j < i {
            assert(kind_less(s[j].attribute@, s[i].attribute@));
        } else {
            assert(kind_less(s[i].attribute@, s[j].attribute@));
        }
        if let AttributeKind::Value(v) = k {
            lemma_faces_less_irreflexive(v);
        }
    }
}

proof fn lemma_level_entry(s: Seq<LevelEntry>, n: int)
    ensures
        level_entry(s, n) is Some <==> has_level(s, n),
        levels_unique(s) ==> forall|i: int|
            0 <= i < s.len() && #[trigger] s[i].level == n ==> level_entry(s, n) == Some(s[i]),
    decreases s.len(),
{
    if s.len() > 0 {
        let t = s.drop_last();
        lemma_level_entry(t, n);
        assert forall|i: int| 0 <= i < t.len() implies #[trigger] t[i] == s[i] by {}
        if has_level(s, n) && s.last().level != n {
            let i = choose|i: int| 0 <= i < s.len() && #[trigger] s[i].level == n;
            assert(t[i].level == n);
        }
        if has_level(t, n) {
            let i = choose|i: int| 0 <= i < t.len() && #[trigger] t[i].level == n;
            assert(s[i].level == n);
        }
    }
}

/// What adding `delta` to the quantity of kind `k` yields: the new quantity,
/// or why it is refused.
pub open spec fn change_result(attrs: Seq<Attribute>, k: AttributeKind, delta: int) -> Result<usize, HeroError> {
    let i = attribute_index(attrs, k);
    if i < 0 {
        Err(HeroError::AttributeNotFound)
    } else if attrs[i].amount() + delta < 0 {
        Err(HeroError::QuantityNegative)
    } else {
        Ok((attrs[i].amount() + delta) as usize)
    }
}

/// The attribute records after adding `delta` to the quantity of kind
/// `key`: the record of that kind takes the new quantity and keeps its face
/// value; on a refusal nothing changes.
pub open spec fn change_records(attrs: Seq<Attribute>, key: AttributeType, delta: int) -> Seq<Attribute> {
    let i = attribute_index(attrs, key@);
    match change_result(attrs, key@, delta) {
        Ok(n) => attrs.update(i, Attribute { attribute: key, quantity: Some(n), value: attrs[i].value }),
        Err(_) => attrs,
    }
}

/// What moving one level down from `current` yields: the new level, or why
/// it is refused.
pub open spec fn descend_result(levels: Seq<LevelEntry>, current: i8) -> Result<i8, HeroError> {
    let next = current + 1;
    if !within_table(levels, next) {
        Err(HeroError::LevelTooHigh)
    } else if level_entry(levels, next) is None {
        Err(HeroError::AttributeNotFound)
    } else {
        Ok(next as i8)
    }
}

impl Hero {
    /// Position of the record of kind `k`, where the hero has one.
    fn find_attribute(&self, k: &AttributeType) -> (r: Option<usize>)
        ensures
            match r {
                Some(i) => i < self.attributes.len() && self.attributes@[i as int].attribute@ == k@,
                None => forall|j: int| 0 <= j < self.attributes.len() ==> #[trigger] self.attributes@[j].attribute@ != k@,
            },
    {
        let mut i: usize = 0;
        while i < self.attributes.len()
            invariant
                0 <= i <= self.attributes.len(),
                forall|j: int| 0 <= j < i ==> #[trigger] self.attributes@[j].attribute@ != k@,
            decreases self.attributes.len() - i,
        {
            if self.attributes[i].attribute == *k {
                return Some(i);
            }
            i = i + 1;
        }
        None
    }

    /// The hero's attributes are in display order, its skills have distinct
    /// names and its level table has one entry per level.
    pub open spec fn wf(&self) -> bool {
        &&& attributes_ordered(self.attributes@)
        &&& skill_names_unique(self.skills@)
        &&& levels_unique(self.levels@)
    }

    /// The stored quantity of kind `k`, where the hero has a record for it.
    pub open spec fn amount_of(&self, k: AttributeKind) -> Option<nat> {
        let i = attribute_index(self.attributes@, k);
        if i >= 0 {
            Some(self.attributes@[i].amount())
        } else {
            None
        }
    }

    /// Everything but the attribute records is as in `other`.
    pub open spec fn same_but_attributes(&self, other: &Hero) -> bool {
        &&& self.name == other.name
        &&& self.heroic_feat == other.heroic_feat
        &&& self.skills == other.skills
        &&& self.levels == other.levels
        &&& self.current_level == other.current_level
        &&& self.potions == other.potions
        &&& self.encounter_bonus == other.encounter_bonus
    }

    /// Everything but the skills is as in `other`.
    pub open spec fn same_but_skills(&self, other: &Hero) -> bool {
        &&& self.name == other.name
        &&& self.attributes == other.attributes
        &&& self.heroic_feat == other.heroic_feat
        &&& self.levels == other.levels
        &&& self.current_level == other.current_level
        &&& self.potions == other.potions
        &&& self.encounter_bonus == other.encounter_bonus
    }

    /// Everything but level, potions and encounter bonus is as in `other`.
    pub open spec fn same_but_progress(&self, other: &Hero) -> bool {
        &&& self.name == other.name
        &&& self.attributes == other.attributes
        &&& self.heroic_feat == other.heroic_feat
        &&& self.skills == other.skills
        &&& self.levels == other.levels
    }

    /// Adds `change_by` to the quantity of kind `attribute` (an unset quantity
    /// counting as zero) and returns the new quantity. The record keeps its
    /// face value. Fails, changing nothing, where the hero has no record of
    /// that kind or the quantity would drop below zero.
    pub fn change_attribute_quantity(&mut self, attribute: AttributeType, change_by: i8) -> (r: Result<usize, HeroError>)
        requires
            old(self).wf(),
            old(self).amount_of(attribute@) is Some ==> old(self).amount_of(attribute@)->Some_0 + change_by <= usize::MAX,
        ensures
            final(self).wf(),
            final(self).same_but_attributes(old(self)),
            r == change_result(old(self).attributes@, attribute@, change_by as int),
            final(self).attributes@ == change_records(old(self).attributes@, attribute, change_by as int),
            old(self).amount_of(attribute@) is None ==> r == Err::<usize, HeroError>(HeroError::AttributeNotFound)
                && *final(self) == *old(self),
            old(self).amount_of(attribute@) is Some && old(self).amount_of(attribute@)->Some_0 + change_by < 0
                ==> r == Err::<usize, HeroError>(HeroError::QuantityNegative) && *final(self) == *old(self),
    {
        let ghost k = attribute@;
        proof {
            lemma_attribute_index(self.attributes@, k);
        }
        let i: usize = match self.find_attribute(&attribute) {
            Some(i) => i,
            None => {
                return Err(HeroError::AttributeNotFound);
            },
        };
        proof {
            lemma_attribute_index_unique(self.attributes@, k, i as int);
        }
        let current: usize = match self.attributes[i].quantity {
            Some(q) => q,
            None => 0,
        };
        if change_by < 0 && ((-(change_by as i16)) as usize) > current {
            return Err(HeroError::QuantityNegative);
        }
        let quantity: usize = if change_by < 0 {
            current - ((-(change_by as i16)) as usize)
        } else {
            current + (change_by as usize)
        };
        let value = self.attributes[i].value;
        let ghost before = self.attributes@;
        let rec = Attribute { attribute, quantity: Some(quantity), value };
        self.attributes.set(i, rec);
        proof {
            assert forall|a: int, b: int|
                0 <= a < b < self.attributes@.len() implies kind_less(
                #[trigger] self.attributes@[a].attribute@,
                #[trigger] self.attributes@[b].attribute@,
            ) by {
                assert(kind_less(before[a].attribute@, before[b].attribute@));
            }
        }
        Ok(quantity)
    }

    /// Appends `new_skill` to the hero's skills. Fails with `DuplicateSkill`,
    /// changing nothing, where a skill of the same name is already there.
    pub fn add_skill(&mut self, new_skill: Skill) -> (r: Result<(), HeroError>)
        requires
            old(self).wf(),
        ensures
            final(self).wf(),
            has_skill_named(old(self).skills@, new_skill.name@) ==> r == Err::<(), HeroError>(HeroError::DuplicateSkill)
                && *final(self) == *old(self),
            !has_skill_named(old(self).skills@, new_skill.name@) ==> r is Ok
                && final(self).same_but_skills(old(self))
                && final(self).skills@ == old(self).skills@.push(new_skill),
    {
        let mut i: usize = 0;
        while i < self.skills.len()
            invariant
                0 <= i <= self.skills.len(),
                *self == *old(self),
                self.wf(),
                forall|j: int| 0 <= j < i ==> #[trigger] self.skills@[j].name@ != new_skill.name@,
            decreases self.skills.len() - i,
        {
            if self.skills[i].name == new_skill.name {
                return Err(HeroError::DuplicateSkill);
            }
            i = i + 1;
        }
        let ghost before = self.skills@;
        self.skills.push(new_skill);
        proof {
            assert forall|a: int, b: int|
                0 <= a < b < self.skills@.len() implies #[trigger] self.skills@[a].name@
                != #[trigger] self.skills@[b].name@ by {
                if b < before.len() {
                    assert(before[a].name@ != before[b].name@);
                }
            }
        }
        Ok(())
    }

    /// Moves the hero one level down the dungeon: the level goes up by one,
    /// the hero gains one potion and takes the new level's encounter bonus.
    /// Returns the new level. Fails with `LevelTooHigh` past the table's
    /// highest level, and with `AttributeNotFound` where the table has no entry
    /// for the new level; either way nothing changes.
    pub fn descend_level(&mut self) -> (r: Result<i8, HeroError>)
        requires
            old(self).wf(),
            old(self).potions < i8::MAX,
        ensures
            final(self).wf(),
            r == descend_result(old(self).levels@, old(self).current_level),
            ({
                let next = old(self).current_level + 1;
                if !within_table(old(self).levels@, next) {
                    r == Err::<i8, HeroError>(HeroError::LevelTooHigh) && *final(self) == *old(self)
                } else if level_entry(old(self).levels@, next) is None {
                    r == Err::<i8, HeroError>(HeroError::AttributeNotFound) && *final(self) == *old(self)
                } else {
                    &&& r == Ok::<i8, HeroError>(next as i8)
                    &&& final(self).same_but_progress(old(self))
                    &&& final(self).current_level == next
                    &&& final(self).potions == old(self).potions + 1
                    &&& final(self).encounter_bonus == level_entry(old(self).levels@, next)->Some_0.encounter_bonus
                }
            }),
    {
        let next: i16 = self.current_level as i16 + 1;
        let ghost n = next as int;
        proof {
            lemma_level_entry(self.levels@, n);
        }
        let mut reachable: bool = self.levels.len() == 0 && next <= 1;
        let mut found: Option<usize> = None;
        let mut i: usize = 0;
        while i < self.levels.len()
            invariant
                0 <= i <= self.levels.len(),
                *self == *old(self),
                next == old(self).current_level + 1,
                n == next,
                self.levels.len() == 0 ==> reachable == (next <= 1),
                self.levels.len() > 0 ==> (reachable <==> exists|j: int| 0 <= j < i && #[trigger] self.levels@[j].level >= n),
                match found {
                    Some(j) => j < self.levels.len() && self.levels@[j as int].level == n,
                    None => forall|j: int| 0 <= j < i ==> #[trigger] self.levels@[j].level != n,
                },
            decreases self.levels.len() - i,
        {
            let lv: i16 = self.levels[i].level as i16;
            if lv >= next {
                assert(self.levels@[i as int].level >= n);
                reachable = true;
            }
            if lv == next {
                found = Some(i);
            }
            assert(forall|j: int| 0 <= j < i + 1 && self.levels@[j].level >= n ==> j < i || lv >= next);
            i = i + 1;
        }
        if !reachable {
            return Err(HeroError::LevelTooHigh);
        }
        match found {
            None => Err(HeroError::AttributeNotFound),
            Some(j) => {
                let bonus: i8 = self.levels[j].encounter_bonus;
                self.current_level = next as i8;
                self.potions = self.potions + 1;
                self.encounter_bonus = bonus;
                Ok(self.current_level)
            },
        }
    }
}

/// The level table every preset hero starts with: four levels.
pub open spec fn default_levels() -> Seq<LevelEntry> {
    seq![
        LevelEntry { level: 1, items: 1, skills: 2, potions: 1, encounter_bonus: 0, xp_to_level_up: 6 },
        LevelEntry { level: 2, items: 3, skills: 3, potions: 1, encounter_bonus: 1, xp_to_level_up: 8 },
        LevelEntry { level: 3, items: 5, skills: 4, potions: 1, encounter_bonus: 1, xp_to_level_up: 10 },
        LevelEntry { level: 4, items: 7, skills: 5, potions: 1, encounter_bonus: 2, xp_to_level_up: 5 },
    ]
}

/// A fresh preset hero: well formed, with the given quantities of the four
/// base resources in display order, at level 1 of the default table with one
/// potion and no encounter bonus.
pub open spec fn starting_hero(h: Hero, strength: usize, agility: usize, magic: usize, health: usize) -> bool {
    &&& h.wf()
    &&& h.attributes@.len() == 4
    &&& h.attributes@[0].attribute@ == AttributeKind::Strength
    &&& h.attributes@[1].attribute@ == AttributeKind::Agility
    &&& h.attributes@[2].attribute@ == AttributeKind::Magic
    &&& h.attributes@[3].attribute@ == AttributeKind::Health
    &&& h.attributes@[0].quantity == Some(strength)
    &&& h.attributes@[1].quantity == Some(agility)
    &&& h.attributes@[2].quantity == Some(magic)
    &&& h.attributes@[3].quantity == Some(health)
    &&& forall|i: int| 0 <= i < 4 ==> (#[trigger] h.attributes@[i]).value.is_none()
    &&& h.levels@ == default_levels()
    &&& h.current_level == 1
    &&& h.potions == 1
    &&& h.encounter_bonus == 0
}

impl Hero {
    /// The Mage hero, at level 1.
    pub fn get_mage() -> (r: Hero)
        ensures
            r.name@ == "Mage"@,
            starting_hero(r, 1, 2, 4, 5),
            r.skills@.len() == 1,
            r.skills@[0].name@ == "SHIELD AURA"@,
    {
        Hero {
            name: String::from_str("Mage"),
            attributes: vec![
                Attribute::of_quantity(AttributeType::Strength, 1),
                Attribute::of_quantity(AttributeType::Agility, 2),
                Attribute::of_quantity(AttributeType::Magic, 4),
                Attribute::of_quantity(AttributeType::Health, 5),
            ],
            heroic_feat: HeroicFeat {
                name: String::from_str("MANA CHARGE"),
                description: String::from_str("Roll any or all of your dice stored here.\nStore a HEROIC DICE here when you explore or flee. You may store up to two dice at a time."),
                encounters: vec![
                    Encounter::Combat, Encounter::Peril
                ]
            },
            skills: vec![Skill {
                name: String::from_str("SHIELD AURA"),
                description: Some(String::from_str("Prevent HEALTH.")),
                requirements: None,
                effect: Effect::Prevent(AttributeType::Health),
                encounters: vec![Encounter::Peril]
            },],
            levels: Self::get_default_levels(),
            current_level: 1,
            potions: 1,
            encounter_bonus: 0,
        }
    }

    /// The Caliana hero, at level 1.
    pub fn get_caliana() -> (r: Hero)
        ensures
            r.name@ == "Caliana"@,
            starting_hero(r, 1, 1, 5, 0),
            r.skills@.len() == 1,
            r.skills@[0].name@ == "FAERIE FIRE"@,
    {
        Hero {
            name: String::from_str("Caliana"),
            attributes: vec![
                Attribute::of_quantity(AttributeType::Strength, 1),
                Attribute::of_quantity(AttributeType::Agility, 1),
                Attribute::of_quantity(AttributeType::Magic, 5),
                Attribute::of_quantity(AttributeType::Health, 0),
            ],
            heroic_feat: HeroicFeat {
                name: String::from_str("WHIMSICALITY"),
                description: String::from_str("Convert 3 damage to time each turn (prevent 4 per boss round). If Caliana would take damage, the game ends."),
                encounters: vec![
                    Encounter::Combat, Encounter::Peril, Encounter::Boss,
                ]
            },
            skills: vec![Skill {
                name: String::from_str("FAERIE FIRE"),
                description: Some(String::from_str("Add X x STRENGTH and X x AGILITY.")),
                requirements: Some(Attribute::of_quantity(AttributeType::Magic, 1)),
                effect: Effect::Gain(vec![Attribute::of_quantity(AttributeType::Strength, 1), Attribute::of_quantity(AttributeType::Agility, 1)]),
                encounters: vec![Encounter::Combat],
            }],
            levels: Self::get_default_levels(),
            current_level: 1,
            potions: 1,
            encounter_bonus: 0,
        }
    }

    /// The Paladin hero, at level 1.
    pub fn get_paladin() -> (r: Hero)
        ensures
            r.name@ == "Paladin"@,
            starting_hero(r, 3, 1, 3, 5),
            r.skills@.len() == 1,
            r.skills@[0].name@ == "ARMOR"@,
    {
        Hero {
            name: String::from_str("Paladin"),
            attributes: vec![
                Attribute::of_quantity(AttributeType::Strength, 3),
                Attribute::of_quantity(AttributeType::Agility, 1),
                Attribute::of_quantity(AttributeType::Magic, 3),
                Attribute::of_quantity(AttributeType::Health, 5),
            ],
            heroic_feat: HeroicFeat {
                name: String::from_str("VALIANT"),
                description: String::from_str("Roll any or all of your dice stored here.\nStore a HEROIC DICE here when you open a door with 4+ XP. You may store up to two dice at a time."),
                encounters: vec![Encounter::Combat, Encounter::Peril],
            },
            skills: vec![
                Skill {
                    name: String::from_str("ARMOR"),
                    description: Some(String::from_str("For every 2 x HEALTH you would lose, prevent 1 x HEALTH. You cannot prevent damage otherwise.")),
                    requirements: None,
                    effect: Effect::Prevent(AttributeType::Health),
                    encounters: vec![Encounter::Combat, Encounter::Peril],
                }
            ],
            levels: Self::get_default_levels(),
            current_level: 1,
            potions: 1,
            encounter_bonus: 0,
        }
    }

    /// The Warrior hero, at level 1.
    pub fn get_warrior() -> (r: Hero)
        ensures
            r.name@ == "Warrior"@,
            starting_hero(r, 4, 2, 1, 6),
            r.skills@.len() == 1,
            r.skills@[0].name@ == "SECOND WIND"@,
    {
        Hero {
            name: String::from_str("Warrior"),
            attributes: vec![
                Attribute::of_quantity(AttributeType::Strength, 4),
                Attribute::of_quantity(AttributeType::Agility, 2),
                Attribute::of_quantity(AttributeType::Magic, 1),
                Attribute::of_quantity(AttributeType::Health, 6),
            ],
            heroic_feat: HeroicFeat {
                name: String::from_str("FRENZY"),
                description: String::from_str("Roll any or all of your dice stored here.\nStore a HEROIC DICE here for each damage you take. You may store up to two dice at a time."),
                encounters: vec![Encounter::Combat, Encounter::Peril],
            },
            skills: vec![
                Skill {
                    name: String::from_str("SECOND WIND"),
                    description: Some(String::from_str("When you descend, heal two damage.")),
                    requirements: None,
                    effect: Effect::Heal(2),
                    encounters: vec![Encounter::Combat, Encounter::Peril, Encounter::Boss],
                }
            ],
            levels: Self::get_default_levels(),
            current_level: 1,
            potions: 1,
            encounter_bonus: 0,
        }
    }

    /// The Rogue hero, at level 1.
    pub fn get_rogue() -> (r: Hero)
        ensures
            r.name@ == "Rogue"@,
            starting_hero(r, 1, 4, 2, 5),
            r.skills@.len() == 1,
            r.skills@[0].name@ == "STEALTH"@,
    {
        Hero {
            name: String::from_str("Rogue"),
            attributes: vec![
                Attribute::of_quantity(AttributeType::Strength, 1),
                Attribute::of_quantity(AttributeType::Agility, 4),
                Attribute::of_quantity(AttributeType::Magic, 2),
                Attribute::of_quantity(AttributeType::Health, 5),
            ],
            heroic_feat: HeroicFeat {
                name: String::from_str("DARING GAMBLE"),
                description: String::from_str("Roll one or two MAGIC DICE. If either is a 1, lose 1 x HEALTH and 3 x TIME. Do this before checking any other effects."),
                encounters: vec![Encounter::Combat, Encounter::Peril],
            },
            skills: vec![
                Skill {
                    name: String::from_str("STEALTH"),
                    description: Some(String::from_str("When you flee you may add one door to the dungeon, if under the door limit.")),
                    requirements: None,
                    effect: Effect::Gain(vec![Attribute::of_quantity(AttributeType::Door, 1)]),
                    encounters: vec![Encounter::Combat, Encounter::Peril],
                }
            ],
            levels: Self::get_default_levels(),
            current_level: 1,
            potions: 1,
            encounter_bonus: 0,
        }
    }

    /// The Archer hero, at level 1.
    pub fn get_archer() -> (r: Hero)
        ensures
            r.name@ == "Archer"@,
            starting_hero(r, 2, 3, 2, 5),
            r.skills@.len() == 1,
            r.skills@[0].name@ == "KITING"@,
    {
        Hero {
            name: String::from_str("Archer"),
            attributes: vec![
                Attribute::of_quantity(AttributeType::Strength, 2),
                Attribute::of_quantity(AttributeType::Agility, 3),
                Attribute::of_quantity(AttributeType::Magic, 2),
                Attribute::of_quantity(AttributeType::Health, 5),
            ],
            heroic_feat: HeroicFeat {
                name: String::from_str("EAGLE EYE"),
                description: String::from_str("Spend 2 x TIME to roll 2 x HEROIC DICE or 4 x TIME to roll 3 x HEROIC DICE. Before checking any other effects, discard one of the dice rolled."),
                encounters: vec![Encounter::Combat, Encounter::Peril],
            },
            skills: vec![
                Skill {
                    name: String::from_str("KITING"),
                    description: Some(String::from_str("If you would lose only one HEALTH, spend TIME instead. Prevent one HEALTH in each boss round")),
                    requirements: None,
                    effect: Effect::Prevent(AttributeType::Health),
                    encounters: vec![Encounter::Combat, Encounter::Boss],
                }
            ],
            levels: Self::get_default_levels(),
            current_level: 1,
            potions: 1,
            encounter_bonus: 0,
        }
    }

    fn get_default_levels() -> (r: Vec<LevelEntry>)
        ensures
            r@ == default_levels(),
    {
        let r = vec![
            LevelEntry { level: 1, items: 1, skills: 2, potions: 1, encounter_bonus: 0, xp_to_level_up: 6 },
            LevelEntry { level: 2, items: 3, skills: 3, potions: 1, encounter_bonus: 1, xp_to_level_up: 8 },
            LevelEntry { level: 3, items: 5, skills: 4, potions: 1, encounter_bonus: 1, xp_to_level_up: 10 },
            LevelEntry { level: 4, items: 7, skills: 5, potions: 1, encounter_bonus: 2, xp_to_level_up: 5 },
        ];
        assert(r@ =~= default_levels());
        r
    }
}

/// Raising a quantity by `delta` and then lowering it by `delta` succeeds
/// both times and gives every record back its quantity, face value and kind.
pub proof fn lemma_quantity_round_trip(h: Hero, key: AttributeType, delta: i8)
    requires
        h.wf(),
        h.amount_of(key@) is Some,
        delta >= 0,
        h.amount_of(key@)->Some_0 + delta <= usize::MAX,
    ensures
        ({
            let attrs = h.attributes@;
            let i = attribute_index(attrs, key@);
            let once = change_records(attrs, key, delta as int);
            let twice = change_records(once, key, -delta);
            &&& change_result(attrs, key@, delta as int) == Ok::<usize, HeroError>((attrs[i].amount() + delta) as usize)
            &&& attributes_ordered(once)
            &&& change_result(once, key@, -delta) == Ok::<usize, HeroError>(attrs[i].amount() as usize)
            &&& twice.len() == attrs.len()
            &&& forall|j: int| 0 <= j < attrs.len() ==> {
                &&& (#[trigger] twice[j]).amount() == attrs[j].amount()
                &&& twice[j].value == attrs[j].value
                &&& twice[j].attribute@ == attrs[j].attribute@
            }
        }),
{
    let attrs = h.attributes@;
    let i = attribute_index(attrs, key@);
    lemma_attribute_index(attrs, key@);
    let once = change_records(attrs, key, delta as int);
    assert forall|a: int, b: int| 0 <= a < b < once.len() implies kind_less(
        #[trigger] once[a].attribute@,
        #[trigger] once[b].attribute@,
    ) by {
        assert(kind_less(attrs[a].attribute@, attrs[b].attribute@));
    }
    lemma_attribute_index_unique(once, key@, i);
}

/// At the highest level of the table, moving down is refused with
/// `LevelTooHigh`.
pub proof fn lemma_descend_from_top(h: Hero)
    requires
        h.wf(),
        has_level(h.levels@, h.current_level as int),
        forall|i: int| 0 <= i < h.levels@.len() ==> #[trigger] h.levels@[i].level <= h.current_level,
    ensures
        descend_result(h.levels@, h.current_level) == Err::<i8, HeroError>(HeroError::LevelTooHigh),
{
}

/// With a table of levels 1 to n in order, moving down from any level below
/// n succeeds, reaches the next level and takes that level's entry.
pub proof fn lemma_descend_below_top(h: Hero)
    requires
        h.wf(),
        forall|i: int| 0 <= i < h.levels@.len() ==> #[trigger] h.levels@[i].level == i + 1,
        1 <= h.current_level < h.levels@.len(),
    ensures
        descend_result(h.levels@, h.current_level) == Ok::<i8, HeroError>((h.current_level + 1) as i8),
        level_entry(h.levels@, h.current_level + 1) == Some(h.levels@[h.current_level as int]),
{
    let s = h.levels@;
    let c = h.current_level as int;
    assert(s[c].level == c + 1);
    lemma_level_entry(s, c + 1);
}

} // verus!
