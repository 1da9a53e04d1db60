//! The dice engine: a fixed ladder of die sizes, "exploding" (wild) rolls,
//! dice with additive modifiers, and the skill ladder built on top of them.

use vstd::prelude::*;
use vstd::math::abs;
use rand::Rng;

verus! {

/// One byte from the thread-local generator.
///
/// Relies on rand::thread_rng and rand::Rng::gen: nothing is promised of the
/// value, so every caller must hold for every possible byte.
#[verifier::external_body]
fn random_u8() -> u8 {
    rand::thread_rng().gen()
}

/// A source of raw random bytes for rolls. Passing a deterministic
/// implementation makes every roll reproducible.
pub trait RollSource {
    fn next_raw(&mut self) -> u8;
}

/// The default source, backed by the process-wide generator.
pub struct RandomSource {}

impl RollSource for RandomSource {
    fn next_raw(&mut self) -> u8 {
        random_u8()
    }
}

/// A scripted source for deterministic runs: hands out the given bytes in
/// order and zero once they are exhausted.
pub struct ScriptedSource {
    pub values: Vec<u8>,
    pub cursor: usize,
}

impl ScriptedSource {
    pub fn new(values: Vec<u8>) -> (r: ScriptedSource)
        ensures
            r.values == values,
            r.cursor == 0,
    {
        ScriptedSource { values, cursor: 0 }
    }
}

impl RollSource for ScriptedSource {
    fn next_raw(&mut self) -> (r: u8)
        ensures
            old(self).cursor < old(self).values@.len() ==> r == old(self).values@[old(
                self,
            ).cursor as int] && final(self).cursor == old(self).cursor + 1 && final(self).values
                == old(self).values,
            old(self).cursor >= old(self).values@.len() ==> r == 0 && *final(self) == *old(self),
    {
        if self.cursor < self.values.len() {
            let v = self.values[self.cursor];
            self.cursor = self.cursor + 1;
            v
        } else {
            0
        }
    }
}

/// The fixed ladder of die sizes. Ordinal position is meaningful: successor
/// and predecessor are defined and saturate at the ladder ends.
#[derive(Clone, Copy, Debug, PartialEq, Eq, Structural)]
pub enum Dice {
    D4,
    D6,
    D8,
    D10,
    D12,
    D20,
    D100,
}

impl Dice {
    /// Position on the ladder, from 0 (D4) to 6 (D100).
    pub open spec fn spec_ordinal(self) -> int {
        match self {
            Dice::D4 => 0,
            Dice::D6 => 1,
            Dice::D8 => 2,
            Dice::D10 => 3,
            Dice::D12 => 4,
            Dice::D20 => 5,
            Dice::D100 => 6,
        }
    }

    pub open spec fn spec_value(self) -> u8 {
        match self {
            Dice::D4 => 4,
            Dice::D6 => 6,
            Dice::D8 => 8,
            Dice::D10 => 10,
            Dice::D12 => 12,
            Dice::D20 => 20,
            Dice::D100 => 100,
        }
    }

    /// The number of faces.
    pub fn value(self) -> (v: u8)
        ensures
            v == self.spec_value(),
    {
        match self {
            Dice::D4 => 4,
            Dice::D6 => 6,
            Dice::D8 => 8,
            Dice::D10 => 10,
            Dice::D12 => 12,
            Dice::D20 => 20,
            Dice::D100 => 100,
        }
    }

    pub open spec fn spec_name(self) -> Seq<char> {
        match self {
            Dice::D4 => "d4"@,
            Dice::D6 => "d6"@,
            Dice::D8 => "d8"@,
            Dice::D10 => "d10"@,
            Dice::D12 => "d12"@,
            Dice::D20 => "d20"@,
            Dice::D100 => "d100"@,
        }
    }

    /// Display label of the die.
    pub fn name(self) -> (r: &'static str)
        ensures
            r@ == self.spec_name(),
    {
        match self {
            Dice::D4 => "d4",
            Dice::D6 => "d6",
            Dice::D8 => "d8",
            Dice::D10 => "d10",
            Dice::D12 => "d12",
            Dice::D20 => "d20",
            Dice::D100 => "d100",
        }
    }

    pub open spec fn spec_next(self) -> Option<Dice> {
        match self {
            Dice::D4 => Some(Dice::D6),
            Dice::D6 => Some(Dice::D8),
            Dice::D8 => Some(Dice::D10),
            Dice::D10 => Some(Dice::D12),
            Dice::D12 => Some(Dice::D20),
            Dice::D20 => Some(Dice::D100),
            Dice::D100 => None,
        }
    }

    pub open spec fn spec_prev(self) -> Option<Dice> {
        match self {
            Dice::D4 => None,
            Dice::D6 => Some(Dice::D4),
            Dice::D8 => Some(Dice::D6),
            Dice::D10 => Some(Dice::D8),
            Dice::D12 => Some(Dice::D10),
            Dice::D20 => Some(Dice::D12),
            Dice::D100 => Some(Dice::D20),
        }
    }

    /// The next larger die, or `None` at the top of the ladder.
    pub fn next(self) -> (r: Option<Dice>)
        ensures
            r == self.spec_next(),
    {
        match self {
            Dice::D4 => Some(Dice::D6),
            Dice::D6 => Some(Dice::D8),
            Dice::D8 => Some(Dice::D10),
            Dice::D10 => Some(Dice::D12),
            Dice::D12 => Some(Dice::D20),
            Dice::D20 => Some(Dice::D100),
            Dice::D100 => None,
        }
    }

    /// The next smaller die, or `None` at the bottom of the ladder.
    pub fn prev(self) -> (r: Option<Dice>)
        ensures
            r == self.spec_prev(),
    {
        match self {
            Dice::D4 => None,
            Dice::D6 => Some(Dice::D4),
            Dice::D8 => Some(Dice::D6),
            Dice::D10 => Some(Dice::D8),
            Dice::D12 => Some(Dice::D10),
            Dice::D20 => Some(Dice::D12),
            Dice::D100 => Some(Dice::D20),
        }
    }

    /// One step up the ladder, saturating at D100.
    pub open spec fn spec_step_up(self) -> Dice {
        match self.spec_next() {
            Some(d) => d,
            None => self,
        }
    }

    /// One step down the ladder, saturating at D4.
    pub open spec fn spec_step_down(self) -> Dice {
        match self.spec_prev() {
            Some(d) => d,
            None => self,
        }
    }

    /// Moving `steps` ladder positions, one at a time, saturating at the ends.
    pub open spec fn spec_shifted(self, steps: int) -> Dice
        decreases abs(steps),
    {
        if steps == 0 {
            self
        } else if steps > 0 {
            self.spec_step_up().spec_shifted(steps - 1)
        } else {
            self.spec_step_down().spec_shifted(steps + 1)
        }
    }

    /// A uniform roll: an integer in `[1, faces]`.
    pub fn roll(self) -> (r: u8)
        ensures
            1 <= r <= self.spec_value(),
    {
        let mut src = RandomSource {};
        self.roll_with(&mut src)
    }

    /// A uniform roll drawn from the given source.
    pub fn roll_with<S: RollSource>(self, src: &mut S) -> (r: u8)
        ensures
            1 <= r <= self.spec_value(),
    {
        let raw = src.next_raw();
        let v = self.value();
        raw % v + 1
    }

    /// An exploding roll: each maximum-face result is accumulated (saturating
    /// in the accumulator type) and the die is rolled again; the first
    /// non-maximum roll ends the sequence and is added on top.
    pub fn roll_wild(self) -> (r: u8)
        ensures
            r >= 1,
    {
        let mut src = RandomSource {};
        self.roll_wild_with(&mut src)
    }

    /// An exploding roll drawn from the given source.
    pub fn roll_wild_with<S: RollSource>(self, src: &mut S) -> (r: u8)
        ensures
            r >= 1,
    {
        let v = self.value();
        let mut total: u8 = 0;
        let mut roll: u8 = self.roll_with(src);
        // After 64 explosions of even the smallest die the accumulator has
        // saturated, so cutting the re-roll sequence off there cannot change
        // the result; it only bounds the loop.
        let mut fuel: u8 = 64;
        while roll == v && fuel > 0
            invariant
                v == self.spec_value(),
                1 <= roll <= v,
                total as int == vstd::math::min(255, (64 - fuel) * v),
                fuel <= 64,
            decreases fuel,
        {
            total = total.saturating_add(roll);
            roll = self.roll_with(src);
            fuel = fuel - 1;
        }
        total.saturating_add(roll)
    }
}

impl core::ops::Add<i8> for Dice {
    type Output = Dice;

    /// Signed addition by ladder steps: single steps applied repeatedly in
    /// the sign's direction, saturating at the ladder ends; adding 0 is the
    /// identity.
    fn add(self, rhs: i8) -> (r: Dice) {
        let mut cur = self;
        let mut k: i16 = rhs as i16;
        while k != 0
            invariant
                self.spec_shifted(rhs as int) == cur.spec_shifted(k as int),
                -128 <= k <= 127,
            decreases abs(k as int),
        {
            if k > 0 {
                cur = match cur.next() {
                    Some(d) => d,
                    None => cur,
                };
                k = k - 1;
            } else {
                cur = match cur.prev() {
                    Some(d) => d,
                    None => cur,
                };
                k = k + 1;
            }
        }
        cur
    }
}

impl vstd::std_specs::ops::AddSpecImpl<i8> for Dice {
    open spec fn obeys_add_spec() -> bool {
        true
    }

    open spec fn add_req(self, rhs: i8) -> bool {
        true
    }

    open spec fn add_spec(self, rhs: i8) -> Dice {
        self.spec_shifted(rhs as int)
    }
}

impl core::ops::AddAssign<i8> for Dice {
    fn add_assign(&mut self, rhs: i8) {
        *self = *self + rhs;
    }
}

impl core::ops::Sub<i8> for Dice {
    type Output = Dice;

    /// Signed subtraction by ladder steps, the mirror of addition.
    fn sub(self, rhs: i8) -> (r: Dice) {
        let mut cur = self;
        let mut k: i16 = -(rhs as i16);
        while k != 0
            invariant
                self.spec_shifted(-(rhs as int)) == cur.spec_shifted(k as int),
                -128 <= k <= 128,
            decreases abs(k as int),
        {
            if k > 0 {
                cur = match cur.next() {
                    Some(d) => d,
                    None => cur,
                };
                k = k - 1;
            } else {
                cur = match cur.prev() {
                    Some(d) => d,
                    None => cur,
                };
                k = k + 1;
            }
        }
        cur
    }
}

impl core::ops::SubAssign<i8> for Dice {
    fn sub_assign(&mut self, rhs: i8) {
        *self = *self - rhs;
    }
}

impl vstd::std_specs::ops::SubSpecImpl<i8> for Dice {
    open spec fn obeys_sub_spec() -> bool {
        true
    }

    open spec fn sub_req(self, rhs: i8) -> bool {
        true
    }

    open spec fn sub_spec(self, rhs: i8) -> Dice {
        self.spec_shifted(-(rhs as int))
    }
}

/// A die together with an integer modifier: roll the die, add the modifier,
/// floor the total at 1 (and cap it at the accumulator maximum).
#[derive(Clone, Copy, Debug, PartialEq, Eq, Structural)]
pub struct DiceWithModifier(pub Dice, pub i8);

/// A rolled total with a modifier applied: floored at 1, capped at 255.
pub open spec fn spec_modified(roll: int, modifier: int) -> int {
    if roll + modifier < 1 {
        1
    } else if roll + modifier > 255 {
        255
    } else {
        roll + modifier
    }
}

impl DiceWithModifier {
    pub fn new(dice: Dice, modifier: i8) -> (r: DiceWithModifier)
        ensures
            r == DiceWithModifier(dice, modifier),
    {
        DiceWithModifier(dice, modifier)
    }

    pub fn no_modifier(dice: Dice) -> (r: DiceWithModifier)
        ensures
            r == DiceWithModifier(dice, 0i8),
    {
        DiceWithModifier(dice, 0)
    }

    /// Applies this modifier to an already-rolled total.
    pub fn apply(self, roll: u8) -> (r: u8)
        ensures
            r as int == spec_modified(roll as int, self.1 as int),
    {
        let t: i16 = roll as i16 + self.1 as i16;
        if t < 1 {
            1
        } else if t > 255 {
            255
        } else {
            t as u8
        }
    }

    /// Rolls the die and applies the modifier; the result is never below 1.
    pub fn roll(self) -> (r: u8)
        ensures
            r >= 1,
            r as int <= spec_modified(self.0.spec_value() as int, self.1 as int),
    {
        let mut src = RandomSource {};
        self.roll_with(&mut src)
    }

    /// As `roll`, drawing from the given source.
    pub fn roll_with<S: RollSource>(self, src: &mut S) -> (r: u8)
        ensures
            r >= 1,
            r as int <= spec_modified(self.0.spec_value() as int, self.1 as int),
    {
        self.apply(self.0.roll_with(src))
    }

    /// Rolls the die wild (exploding) and applies the modifier afterwards,
    /// never per explosion step; the result is never below 1.
    pub fn roll_wild(self) -> (r: u8)
        ensures
            r >= 1,
    {
        let mut src = RandomSource {};
        self.roll_wild_with(&mut src)
    }

    /// As `roll_wild`, drawing from the given source.
    pub fn roll_wild_with<S: RollSource>(self, src: &mut S) -> (r: u8)
        ensures
            r >= 1,
    {
        self.apply(self.0.roll_wild_with(src))
    }

    /// The die's name followed by the signed modifier, which is left out
    /// when it is zero: "d4-2", "d6", "d8+1".
    pub open spec fn spec_label(self) -> Seq<char> {
        if self.1 == 0 {
            self.0.spec_name()
        } else if self.1 > 0 {
            self.0.spec_name() + "+"@ + spec_decimal(self.1 as int)
        } else {
            self.0.spec_name() + "-"@ + spec_decimal(-(self.1 as int))
        }
    }

    /// Display label of the die with its modifier.
    pub fn label(self) -> (r: String)
        ensures
            r@ == self.spec_label(),
    {
        let mut s = String::new();
        s.append(self.0.name());
        if self.1 > 0 {
            s.append("+");
            let d = decimal_str(self.1 as u8);
            s.append(d.as_str());
        } else if self.1 < 0 {
            s.append("-");
            let a: i16 = self.1 as i16;
            let d = decimal_str((-a) as u8);
            s.append(d.as_str());
        }
        s
    }
}

/// The decimal digit character for one digit value.
pub open spec fn spec_digit(d: int) -> char {
    if d == 0 {
        '0'
    } else if d == 1 {
        '1'
    } else if d == 2 {
        '2'
    } else if d == 3 {
        '3'
    } else if d == 4 {
        '4'
    } else if d == 5 {
        '5'
    } else if d == 6 {
        '6'
    } else if d == 7 {
        '7'
    } else if d == 8 {
        '8'
    } else {
        '9'
    }
}

/// The decimal digits of a byte value, without leading zeroes.
pub open spec fn spec_decimal(n: int) -> Seq<char> {
    if n >= 100 {
        seq![spec_digit(n / 100), spec_digit((n / 10) % 10), spec_digit(n % 10)]
    } else if n >= 10 {
        seq![spec_digit(n / 10), spec_digit(n % 10)]
    } else {
        seq![spec_digit(n)]
    }
}

/// One decimal digit as text.
fn digit_str(d: u8) -> (r: &'static str)
    requires
        d < 10,
    ensures
        r@ =~= seq![spec_digit(d as int)],
{
    proof {
        reveal_strlit("0");
        reveal_strlit("1");
        reveal_strlit("2");
        reveal_strlit("3");
        reveal_strlit("4");
        reveal_strlit("5");
        reveal_strlit("6");
        reveal_strlit("7");
        reveal_strlit("8");
        reveal_strlit("9");
    }
    match d {
        0 => "0",
        1 => "1",
        2 => "2",
        3 => "3",
        4 => "4",
        5 => "5",
        6 => "6",
        7 => "7",
        8 => "8",
        _ => "9",
    }
}

/// A byte value written in decimal.
fn decimal_str(n: u8) -> (r: String)
    ensures
        r@ =~= spec_decimal(n as int),
{
    let mut s = String::new();
    if n >= 100 {
        s.append(digit_str(n / 100));
        s.append(digit_str((n / 10) % 10));
        s.append(digit_str(n % 10));
    } else if n >= 10 {
        s.append(digit_str(n / 10));
        s.append(digit_str(n % 10));
    } else {
        s.append(digit_str(n));
    }
    s
}

impl From<Dice> for DiceWithModifier {
    fn from(dice: Dice) -> (r: DiceWithModifier) {
        DiceWithModifier::no_modifier(dice)
    }
}

impl vstd::std_specs::convert::FromSpecImpl<Dice> for DiceWithModifier {
    open spec fn obeys_from_spec() -> bool {
        true
    }

    open spec fn from_spec(dice: Dice) -> DiceWithModifier {
        DiceWithModifier(dice, 0i8)
    }
}

/// The skill ladder: the dice ladder's lower half, extended by one tier below
/// the minimum (a d4 at -2). Ordinal position is meaningful.
#[derive(Clone, Copy, Debug, PartialEq, Eq, Structural)]
pub enum SkillLevel {
    D4_2,
    D4,
    D6,
    D8,
    D10,
    D12,
}

impl SkillLevel {
    /// Position on the ladder, from 0 (D4-2) to 5 (D12).
    pub open spec fn spec_ordinal(self) -> int {
        match self {
            SkillLevel::D4_2 => 0,
            SkillLevel::D4 => 1,
            SkillLevel::D6 => 2,
            SkillLevel::D8 => 3,
            SkillLevel::D10 => 4,
            SkillLevel::D12 => 5,
        }
    }

    /// The die-with-modifier that this level rolls.
    pub open spec fn spec_dice(self) -> DiceWithModifier {
        match self {
            SkillLevel::D4_2 => DiceWithModifier(Dice::D4, -2i8),
            SkillLevel::D4 => DiceWithModifier(Dice::D4, 0i8),
            SkillLevel::D6 => DiceWithModifier(Dice::D6, 0i8),
            SkillLevel::D8 => DiceWithModifier(Dice::D8, 0i8),
            SkillLevel::D10 => DiceWithModifier(Dice::D10, 0i8),
            SkillLevel::D12 => DiceWithModifier(Dice::D12, 0i8),
        }
    }

    pub open spec fn spec_name(self) -> Seq<char> {
        match self {
            SkillLevel::D4_2 => "d4-2"@,
            SkillLevel::D4 => "d4"@,
            SkillLevel::D6 => "d6"@,
            SkillLevel::D8 => "d8"@,
            SkillLevel::D10 => "d10"@,
            SkillLevel::D12 => "d12"@,
        }
    }

    /// Display label of the level.
    pub fn name(self) -> (r: &'static str)
        ensures
            r@ == self.spec_name(),
    {
        match self {
            SkillLevel::D4_2 => "d4-2",
            SkillLevel::D4 => "d4",
            SkillLevel::D6 => "d6",
            SkillLevel::D8 => "d8",
            SkillLevel::D10 => "d10",
            SkillLevel::D12 => "d12",
        }
    }

    /// Rolls the mapped die-with-modifier; never below 1.
    pub fn roll(self) -> (r: u8)
        ensures
            r >= 1,
            r as int <= spec_modified(
                self.spec_dice().0.spec_value() as int,
                self.spec_dice().1 as int,
            ),
    {
        let d: DiceWithModifier = self.into();
        d.roll()
    }

    /// As `roll`, drawing from the given source.
    pub fn roll_with<S: RollSource>(self, src: &mut S) -> (r: u8)
        ensures
            r >= 1,
            r as int <= spec_modified(
                self.spec_dice().0.spec_value() as int,
                self.spec_dice().1 as int,
            ),
    {
        let d: DiceWithModifier = self.into();
        d.roll_with(src)
    }

    /// Wild (exploding) roll of the mapped die-with-modifier; never below 1.
    pub fn roll_wild(self) -> (r: u8)
        ensures
            r >= 1,
    {
        let d: DiceWithModifier = self.into();
        d.roll_wild()
    }

    /// As `roll_wild`, drawing from the given source.
    pub fn roll_wild_with<S: RollSource>(self, src: &mut S) -> (r: u8)
        ensures
            r >= 1,
    {
        let d: DiceWithModifier = self.into();
        d.roll_wild_with(src)
    }

    pub open spec fn spec_next(self) -> Option<SkillLevel> {
        match self {
            SkillLevel::D4_2 => Some(SkillLevel::D4),
            SkillLevel::D4 => Some(SkillLevel::D6),
            SkillLevel::D6 => Some(SkillLevel::D8),
            SkillLevel::D8 => Some(SkillLevel::D10),
            SkillLevel::D10 => Some(SkillLevel::D12),
            SkillLevel::D12 => None,
        }
    }

    pub open spec fn spec_prev(self) -> Option<SkillLevel> {
        match self {
            SkillLevel::D4_2 => None,
            SkillLevel::D4 => Some(SkillLevel::D4_2),
            SkillLevel::D6 => Some(SkillLevel::D4),
            SkillLevel::D8 => Some(SkillLevel::D6),
            SkillLevel::D10 => Some(SkillLevel::D8),
            SkillLevel::D12 => Some(SkillLevel::D10),
        }
    }

    /// The next higher level, or `None` at the top of the ladder.
    pub fn next(self) -> (r: Option<SkillLevel>)
        ensures
            r == self.spec_next(),
    {
        match self {
            SkillLevel::D4_2 => Some(SkillLevel::D4),
            SkillLevel::D4 => Some(SkillLevel::D6),
            SkillLevel::D6 => Some(SkillLevel::D8),
            SkillLevel::D8 => Some(SkillLevel::D10),
            SkillLevel::D10 => Some(SkillLevel::D12),
            SkillLevel::D12 => None,
        }
    }

    /// The next lower level, or `None` at the bottom of the ladder.
    pub fn prev(self) -> (r: Option<SkillLevel>)
        ensures
            r == self.spec_prev(),
    {
        match self {
            SkillLevel::D4_2 => None,
            SkillLevel::D4 => Some(SkillLevel::D4_2),
            SkillLevel::D6 => Some(SkillLevel::D4),
            SkillLevel::D8 => Some(SkillLevel::D6),
            SkillLevel::D10 => Some(SkillLevel::D8),
            SkillLevel::D12 => Some(SkillLevel::D10),
        }
    }

    /// One step up the ladder, saturating at D12.
    pub open spec fn spec_step_up(self) -> SkillLevel {
        match self.spec_next() {
            Some(s) => s,
            None => self,
        }
    }

    /// One step down the ladder, saturating at D4-2.
    pub open spec fn spec_step_down(self) -> SkillLevel {
        match self.spec_prev() {
            Some(s) => s,
            None => self,
        }
    }

    /// Moving `steps` ladder positions, one at a time, saturating at the ends.
    pub open spec fn spec_shifted(self, steps: int) -> SkillLevel
        decreases abs(steps),
    {
        if steps == 0 {
            self
        } else if steps > 0 {
            self.spec_step_up().spec_shifted(steps - 1)
        } else {
            self.spec_step_down().spec_shifted(steps + 1)
        }
    }

    /// Ordinal distance of this level above another.
    pub open spec fn spec_steps_above(self, other: SkillLevel) -> int {
        self.spec_ordinal() - other.spec_ordinal()
    }

    /// Signed ladder distance between two levels.
    pub fn steps_above(self, other: SkillLevel) -> (r: i8)
        ensures
            r as int == self.spec_steps_above(other),
    {
        self.index() as i8 - other.index() as i8
    }

    /// Ordinal distance of this level above a raw attribute die. The
    /// attribute ladder lacks the below-minimum tier, so the attribute die
    /// sits one step below the skill tier of the same die size.
    pub open spec fn spec_steps_above_attr(self, attr: Dice) -> int {
        self.spec_ordinal() - (attr.spec_ordinal() + 1)
    }

    /// Signed ladder distance of this level above a raw attribute die.
    pub fn steps_above_attr(self, attr: Dice) -> (r: i8)
        ensures
            r as int == self.spec_steps_above_attr(attr),
    {
        let a: u8 = match attr {
            Dice::D4 => 0,
            Dice::D6 => 1,
            Dice::D8 => 2,
            Dice::D10 => 3,
            Dice::D12 => 4,
            Dice::D20 => 5,
            Dice::D100 => 6,
        };
        self.index() as i8 - (a as i8 + 1)
    }

    /// Ladder position as a small integer.
    pub fn index(self) -> (r: u8)
        ensures
            r as int == self.spec_ordinal(),
    {
        match self {
            SkillLevel::D4_2 => 0,
            SkillLevel::D4 => 1,
            SkillLevel::D6 => 2,
            SkillLevel::D8 => 3,
            SkillLevel::D10 => 4,
            SkillLevel::D12 => 5,
        }
    }
}

impl core::ops::Add<i8> for SkillLevel {
    type Output = SkillLevel;

    /// Signed addition by ladder steps: single steps applied repeatedly in
    /// the sign's direction, saturating at the ladder ends; adding 0 is the
    /// identity.
    fn add(self, rhs: i8) -> (r: SkillLevel) {
        let mut cur = self;
        let mut k: i16 = rhs as i16;
        while k != 0
            invariant
                self.spec_shifted(rhs as int) == cur.spec_shifted(k as int),
                -128 <= k <= 127,
            decreases abs(k as int),
        {
            if k > 0 {
                cur = match cur.next() {
                    Some(s) => s,
                    None => cur,
                };
                k = k - 1;
            } else {
                cur = match cur.prev() {
                    Some(s) => s,
                    None => cur,
                };
                k = k + 1;
            }
        }
        cur
    }
}

impl vstd::std_specs::ops::AddSpecImpl<i8> for SkillLevel {
    open spec fn obeys_add_spec() -> bool {
        true
    }

    open spec fn add_req(self, rhs: i8) -> bool {
        true
    }

    open spec fn add_spec(self, rhs: i8) -> SkillLevel {
        self.spec_shifted(rhs as int)
    }
}

impl core::ops::AddAssign<i8> for SkillLevel {
    fn add_assign(&mut self, rhs: i8) {
        *self = *self + rhs;
    }
}

impl core::ops::Sub<i8> for SkillLevel {
    type Output = SkillLevel;

    /// Signed subtraction by ladder steps, the mirror of addition.
    fn sub(self, rhs: i8) -> (r: SkillLevel) {
        let mut cur = self;
        let mut k: i16 = -(rhs as i16);
        while k != 0
            invariant
                self.spec_shifted(-(rhs as int)) == cur.spec_shifted(k as int),
                -128 <= k <= 128,
            decreases abs(k as int),
        {
            if k > 0 {
                cur = match cur.next() {
                    Some(s) => s,
                    None => cur,
                };
                k = k - 1;
            } else {
                cur = match cur.prev() {
                    Some(s) => s,
                    None => cur,
                };
                k = k + 1;
            }
        }
        cur
    }
}

impl core::ops::SubAssign<i8> for SkillLevel {
    fn sub_assign(&mut self, rhs: i8) {
        *self = *self - rhs;
    }
}

impl vstd::std_specs::ops::SubSpecImpl<i8> for SkillLevel {
    open spec fn obeys_sub_spec() -> bool {
        true
    }

    open spec fn sub_req(self, rhs: i8) -> bool {
        true
    }

    open spec fn sub_spec(self, rhs: i8) -> SkillLevel {
        self.spec_shifted(-(rhs as int))
    }
}

impl Default for SkillLevel {
    /// The default level is the lowest tier.
    fn default() -> (r: SkillLevel)
        ensures
            r == SkillLevel::D4_2,
    {
        SkillLevel::D4_2
    }
}

impl From<SkillLevel> for DiceWithModifier {
    fn from(level: SkillLevel) -> (r: DiceWithModifier) {
        match level {
            SkillLevel::D4_2 => DiceWithModifier::new(Dice::D4, -2),
            SkillLevel::D4 => DiceWithModifier::no_modifier(Dice::D4),
            SkillLevel::D6 => DiceWithModifier::no_modifier(Dice::D6),
            SkillLevel::D8 => DiceWithModifier::no_modifier(Dice::D8),
            SkillLevel::D10 => DiceWithModifier::no_modifier(Dice::D10),
            SkillLevel::D12 => DiceWithModifier::no_modifier(Dice::D12),
        }
    }
}

impl vstd::std_specs::convert::FromSpecImpl<SkillLevel> for DiceWithModifier {
    open spec fn obeys_from_spec() -> bool {
        true
    }

    open spec fn from_spec(level: SkillLevel) -> DiceWithModifier {
        level.spec_dice()
    }
}

impl From<SkillLevel> for Dice {
    fn from(level: SkillLevel) -> (r: Dice) {
        let d: DiceWithModifier = level.into();
        d.0
    }
}

impl vstd::std_specs::convert::FromSpecImpl<SkillLevel> for Dice {
    open spec fn obeys_from_spec() -> bool {
        true
    }

    open spec fn from_spec(level: SkillLevel) -> Dice {
        level.spec_dice().0
    }
}

impl From<Dice> for SkillLevel {
    /// Round-tripping a die into the skill ladder is lossy only for dice
    /// above the ladder's top: those map to the nearest defined tier, D12.
    fn from(dice: Dice) -> (r: SkillLevel) {
        match dice {
            Dice::D4 => SkillLevel::D4,
            Dice::D6 => SkillLevel::D6,
            Dice::D8 => SkillLevel::D8,
            Dice::D10 => SkillLevel::D10,
            _ => SkillLevel::D12,
        }
    }
}

impl vstd::std_specs::convert::FromSpecImpl<Dice> for SkillLevel {
    open spec fn obeys_from_spec() -> bool {
        true
    }

    open spec fn from_spec(dice: Dice) -> SkillLevel {
        match dice {
            Dice::D4 => SkillLevel::D4,
            Dice::D6 => SkillLevel::D6,
            Dice::D8 => SkillLevel::D8,
            Dice::D10 => SkillLevel::D10,
            _ => SkillLevel::D12,
        }
    }
}

/// `steps_above` is antisymmetric, and zero exactly on equal inputs.
pub proof fn lemma_steps_above_antisymmetric(a: SkillLevel, b: SkillLevel)
    ensures
        a.spec_steps_above(b) == -b.spec_steps_above(a),
        (a.spec_steps_above(b) == 0) <==> (a == b),
{
}

/// The ladder saturates: stepping down from the lowest level or up from the
/// highest leaves the level unchanged, for skills and for dice.
pub proof fn lemma_ladder_saturates()
    ensures
        SkillLevel::D4_2.spec_step_down() == SkillLevel::D4_2,
        SkillLevel::D12.spec_step_up() == SkillLevel::D12,
        Dice::D4.spec_step_down() == Dice::D4,
        Dice::D100.spec_step_up() == Dice::D100,
{
}

} // verus!
