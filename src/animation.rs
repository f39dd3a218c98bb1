//! LED animation settings: a mode, two modifiers and a waterfall direction.
use vstd::prelude::*;

use crate::attribute::{
    apply_attributes, attrs_view, lemma_apply_next, lemma_error_persists, AttrView, Attribute,
};
use crate::codec::{
    decimal_digits, format_unsigned, lemma_decimal_round_trip, parse_byte, parse_index, str_eq,
    spec_parse_byte, spec_parse_index, ParseError, SettingError,
};

verus! {

/// Animation modes, stored in documents by their position in this list.
#[derive(Debug, Clone, Copy, PartialEq, Eq, Structural)]
pub enum AnimationMode {
    RetroRainbow,
    RainbowDark,
    RainbowBright,
    Simple,
    Ripple,
    Disabled,
}

/// Waterfall directions, stored in documents by their position in this list.
#[derive(Debug, Clone, Copy, PartialEq, Eq, Structural)]
pub enum WaterfallDirection {
    Down,
    Up,
    Off,
}

impl AnimationMode {
    pub open spec fn spec_ordinal(self) -> nat {
        match self {
            AnimationMode::RetroRainbow => 0,
            AnimationMode::RainbowDark => 1,
            AnimationMode::RainbowBright => 2,
            AnimationMode::Simple => 3,
            AnimationMode::Ripple => 4,
            AnimationMode::Disabled => 5,
        }
    }

    /// The mode at position `i`, if there is one.
    pub open spec fn spec_from_ordinal(i: nat) -> Option<AnimationMode> {
        if i == 0 {
            Some(AnimationMode::RetroRainbow)
        } else if i == 1 {
            Some(AnimationMode::RainbowDark)
        } else if i == 2 {
            Some(AnimationMode::RainbowBright)
        } else if i == 3 {
            Some(AnimationMode::Simple)
        } else if i == 4 {
            Some(AnimationMode::Ripple)
        } else if i == 5 {
            Some(AnimationMode::Disabled)
        } else {
            None
        }
    }

    /// Whether the second modifier has meaning in this mode.
    pub open spec fn has_mod2(self) -> bool {
        self == AnimationMode::RainbowBright || self == AnimationMode::RainbowDark
    }

    /// Whether the waterfall direction has meaning in this mode.
    pub open spec fn has_waterfall(self) -> bool {
        !(self == AnimationMode::RetroRainbow || self == AnimationMode::Disabled)
    }

    pub fn ordinal(&self) -> (r: u8)
        ensures
            r == self.spec_ordinal(),
    {
        match self {
            AnimationMode::RetroRainbow => 0,
            AnimationMode::RainbowDark => 1,
            AnimationMode::RainbowBright => 2,
            AnimationMode::Simple => 3,
            AnimationMode::Ripple => 4,
            AnimationMode::Disabled => 5,
        }
    }

    pub fn from_ordinal(i: usize) -> (r: Option<AnimationMode>)
        ensures
            r == Self::spec_from_ordinal(i as nat),
    {
        if i == 0 {
            Some(AnimationMode::RetroRainbow)
        } else if i == 1 {
            Some(AnimationMode::RainbowDark)
        } else if i == 2 {
            Some(AnimationMode::RainbowBright)
        } else if i == 3 {
            Some(AnimationMode::Simple)
        } else if i == 4 {
            Some(AnimationMode::Ripple)
        } else if i == 5 {
            Some(AnimationMode::Disabled)
        } else {
            None
        }
    }
}

impl Default for AnimationMode {
    fn default() -> (r: AnimationMode)
        ensures
            r == AnimationMode::Disabled,
    {
        AnimationMode::Disabled
    }
}

impl WaterfallDirection {
    pub open spec fn spec_ordinal(self) -> nat {
        match self {
            WaterfallDirection::Down => 0,
            WaterfallDirection::Up => 1,
            WaterfallDirection::Off => 2,
        }
    }

    /// The direction at position `i`, if there is one.
    pub open spec fn spec_from_ordinal(i: nat) -> Option<WaterfallDirection> {
        if i == 0 {
            Some(WaterfallDirection::Down)
        } else if i == 1 {
            Some(WaterfallDirection::Up)
        } else if i == 2 {
            Some(WaterfallDirection::Off)
        } else {
            None
        }
    }

    pub fn ordinal(&self) -> (r: u8)
        ensures
            r == self.spec_ordinal(),
    {
        match self {
            WaterfallDirection::Down => 0,
            WaterfallDirection::Up => 1,
            WaterfallDirection::Off => 2,
        }
    }

    pub fn from_ordinal(i: usize) -> (r: Option<WaterfallDirection>)
        ensures
            r == Self::spec_from_ordinal(i as nat),
    {
        if i == 0 {
            Some(WaterfallDirection::Down)
        } else if i == 1 {
            Some(WaterfallDirection::Up)
        } else if i == 2 {
            Some(WaterfallDirection::Off)
        } else {
            None
        }
    }
}

impl Default for WaterfallDirection {
    fn default() -> (r: WaterfallDirection)
        ensures
            r == WaterfallDirection::Down,
    {
        WaterfallDirection::Down
    }
}

/// The settings an animation element carries.
#[derive(Debug, Clone, Copy, PartialEq, Eq, Structural)]
pub struct AnimationSettings {
    pub mode: AnimationMode,
    pub mod1: u8,
    pub mod2: u8,
    pub waterfall: WaterfallDirection,
}

/// The effect of one attribute on the animation settings.
pub open spec fn animation_step(v: AnimationSettings, a: AttrView) -> Result<
    AnimationSettings,
    ParseError,
> {
    if a.0 == "animationMode"@ {
        match spec_parse_index(a.1) {
            Ok(i) => Ok(
                match AnimationMode::spec_from_ordinal(i as nat) {
                    Some(m) => AnimationSettings { mode: m, ..v },
                    None => v,
                },
            ),
            Err(e) => Err(e),
        }
    } else if a.0 == "mod1"@ {
        match spec_parse_byte(a.1) {
            Ok(b) => Ok(AnimationSettings { mod1: b, ..v }),
            Err(e) => Err(e),
        }
    } else if a.0 == "mod2"@ {
        match spec_parse_byte(a.1) {
            Ok(b) => Ok(AnimationSettings { mod2: b, ..v }),
            Err(e) => Err(e),
        }
    } else if a.0 == "mod3"@ {
        match spec_parse_index(a.1) {
            Ok(i) => Ok(
                match WaterfallDirection::spec_from_ordinal(i as nat) {
                    Some(w) => AnimationSettings { waterfall: w, ..v },
                    None => v,
                },
            ),
            Err(e) => Err(e),
        }
    } else {
        Ok(v)
    }
}

/// The settings after reading `attrs` in order, starting from `v`.
pub open spec fn parse_animation_spec(v: AnimationSettings, attrs: Seq<AttrView>) -> Result<
    AnimationSettings,
    ParseError,
> {
    apply_attributes(v, attrs, |s: AnimationSettings, a: AttrView| animation_step(s, a))
}

/// The attributes an animation element is written with.
pub open spec fn animation_attributes(v: AnimationSettings) -> Seq<AttrView> {
    seq![
        ("animationMode"@, decimal_digits(v.mode.spec_ordinal())),
        ("mod1"@, decimal_digits(v.mod1 as nat)),
        ("mod2"@, decimal_digits(v.mod2 as nat)),
        ("mod3"@, decimal_digits(v.waterfall.spec_ordinal())),
    ]
}

/// Writing settings and reading the attributes back, onto any starting
/// settings, gives the written settings again. So parse, write and parse
/// once more ends with what the first parse gave.
pub proof fn lemma_animation_round_trip(start: AnimationSettings, v: AnimationSettings)
    ensures
        parse_animation_spec(start, animation_attributes(v)) == Ok::<AnimationSettings, ParseError>(
            v,
        ),
{
    reveal_strlit("animationMode");
    reveal_strlit("mod1");
    reveal_strlit("mod2");
    reveal_strlit("mod3");
    assert("animationMode"@.len() == 13);
    assert("mod1"@ != "animationMode"@);
    assert("mod2"@[3] != "mod1"@[3]);
    assert("mod3"@[3] != "mod1"@[3]);
    assert("mod3"@[3] != "mod2"@[3]);
    lemma_decimal_round_trip(v.mode.spec_ordinal());
    lemma_decimal_round_trip(v.mod1 as nat);
    lemma_decimal_round_trip(v.mod2 as nat);
    lemma_decimal_round_trip(v.waterfall.spec_ordinal());
    assert(AnimationMode::spec_from_ordinal(v.mode.spec_ordinal()) == Some(v.mode));
    assert(WaterfallDirection::spec_from_ordinal(v.waterfall.spec_ordinal()) == Some(v.waterfall));
    assert(spec_parse_byte(decimal_digits(v.mod1 as nat)) == Ok::<u8, ParseError>(v.mod1));
    assert(spec_parse_byte(decimal_digits(v.mod2 as nat)) == Ok::<u8, ParseError>(v.mod2));
    let attrs = animation_attributes(v);
    let step = |s: AnimationSettings, a: AttrView| animation_step(s, a);
    let s1 = AnimationSettings { mode: v.mode, ..start };
    let s2 = AnimationSettings { mod1: v.mod1, ..s1 };
    let s3 = AnimationSettings { mod2: v.mod2, ..s2 };
    assert(attrs.take(0) =~= Seq::<AttrView>::empty());
    lemma_apply_next(start, attrs, step, 0);
    assert(step(start, attrs[0]) == Ok::<AnimationSettings, ParseError>(s1));
    lemma_apply_next(start, attrs, step, 1);
    assert(step(s1, attrs[1]) == Ok::<AnimationSettings, ParseError>(s2));
    lemma_apply_next(start, attrs, step, 2);
    assert(step(s2, attrs[2]) == Ok::<AnimationSettings, ParseError>(s3));
    lemma_apply_next(start, attrs, step, 3);
    assert(step(s3, attrs[3]) == Ok::<AnimationSettings, ParseError>(v));
    assert(attrs.take(4) =~= attrs);
}

/// A mode ordinal past the last mode is skipped: reading it neither fails
/// nor changes the settings.
pub proof fn lemma_unknown_mode_kept(v: AnimationSettings, text: Seq<char>)
    requires
        spec_parse_index(text) is Ok,
        spec_parse_index(text).unwrap() >= 6,
    ensures
        parse_animation_spec(v, seq![("animationMode"@, text)]) == Ok::<
            AnimationSettings,
            ParseError,
        >(v),
{
    let attrs = seq![("animationMode"@, text)];
    let step = |s: AnimationSettings, a: AttrView| animation_step(s, a);
    assert(attrs.take(0) =~= Seq::<AttrView>::empty());
    lemma_apply_next(v, attrs, step, 0);
    assert(attrs.take(1) =~= attrs);
}

fn apply_animation_attribute(v: AnimationSettings, a: &Attribute) -> (r: Result<
    AnimationSettings,
    ParseError,
>)
    ensures
        r == animation_step(v, a.view()),
{
    let name = a.name.as_str();
    let value = a.value.as_str();
    if str_eq(name, "animationMode") {
        let i = parse_index(value)?;
        match AnimationMode::from_ordinal(i) {
            Some(m) => Ok(AnimationSettings { mode: m, ..v }),
            None => Ok(v),
        }
    } else if str_eq(name, "mod1") {
        let b = parse_byte(value)?;
        Ok(AnimationSettings { mod1: b, ..v })
    } else if str_eq(name, "mod2") {
        let b = parse_byte(value)?;
        Ok(AnimationSettings { mod2: b, ..v })
    } else if str_eq(name, "mod3") {
        let i = parse_index(value)?;
        match WaterfallDirection::from_ordinal(i) {
            Some(w) => Ok(AnimationSettings { waterfall: w, ..v }),
            None => Ok(v),
        }
    } else {
        Ok(v)
    }
}

/// The animation element of a profile.
#[derive(Debug)]
pub struct AnimationTree {
    element_name: String,
    mode: AnimationMode,
    mod1: u8,
    mod2: u8,
    waterfall: WaterfallDirection,
}

impl View for AnimationTree {
    type V = AnimationSettings;

    closed spec fn view(&self) -> AnimationSettings {
        AnimationSettings {
            mode: self.mode,
            mod1: self.mod1,
            mod2: self.mod2,
            waterfall: self.waterfall,
        }
    }
}

impl AnimationTree {
    pub closed spec fn spec_element_name(&self) -> Seq<char> {
        self.element_name@
    }

    /// A fresh element: no animation, both modifiers zero, waterfall down.
    pub fn new(element_name: String) -> (r: AnimationTree)
        ensures
            r@ == (AnimationSettings {
                mode: AnimationMode::Disabled,
                mod1: 0,
                mod2: 0,
                waterfall: WaterfallDirection::Down,
            }),
            r.spec_element_name() == element_name@,
    {
        AnimationTree {
            element_name,
            mode: AnimationMode::Disabled,
            mod1: 0,
            mod2: 0,
            waterfall: WaterfallDirection::Down,
        }
    }

    pub fn element_name(&self) -> (r: &str)
        ensures
            r@ == self.spec_element_name(),
    {
        self.element_name.as_str()
    }

    /// Reads the element's attributes in order. Unknown names and ordinals
    /// past the end of their enum are skipped. A value that cannot be read
    /// fails the whole call, which then leaves the settings as they were.
    pub fn parse_animation(&mut self, attributes: &Vec<Attribute>) -> (r: Result<(), ParseError>)
        ensures
            final(self).spec_element_name() == old(self).spec_element_name(),
            match parse_animation_spec(old(self)@, attrs_view(attributes@)) {
                Ok(v) => r is Ok && final(self)@ == v,
                Err(e) => r == Err::<(), ParseError>(e) && final(self)@ == old(self)@,
            },
    {
        let ghost attrs = attrs_view(attributes@);
        let ghost step = |s: AnimationSettings, a: AttrView| animation_step(s, a);
        let mut v = AnimationSettings {
            mode: self.mode,
            mod1: self.mod1,
            mod2: self.mod2,
            waterfall: self.waterfall,
        };
        let mut i: usize = 0;
        proof {
            assert(attrs.take(0) =~= Seq::<AttrView>::empty());
        }
        while i < attributes.len()
            invariant
                i <= attributes.len(),
                attrs == attrs_view(attributes@),
                attrs.len() == attributes@.len(),
                step == (|s: AnimationSettings, a: AttrView| animation_step(s, a)),
                apply_attributes(self@, attrs.take(i as int), step) == Ok::<
                    AnimationSettings,
                    ParseError,
                >(v),
            decreases attributes.len() - i,
        {
            let r = apply_animation_attribute(v, &attributes[i]);
            proof {
                lemma_apply_next(self@, attrs, step, i as int);
                assert(attrs[i as int] == attributes@[i as int].view());
            }
            match r {
                Ok(w) => v = w,
                Err(e) => {
                    proof {
                        lemma_error_persists(self@, attrs, step, i + 1);
                    }
                    return Err(e);
                },
            }
            i = i + 1;
        }
        proof {
            assert(attrs.take(i as int) =~= attrs);
        }
        self.mode = v.mode;
        self.mod1 = v.mod1;
        self.mod2 = v.mod2;
        self.waterfall = v.waterfall;
        Ok(())
    }

    /// The element's attributes: mode and waterfall by ordinal, modifiers in
    /// decimal, each under the key the reader takes for it, so that the
    /// second modifier is written from its own value.
    pub fn write_animation(&self) -> (r: Vec<Attribute>)
        ensures
            attrs_view(r@) == animation_attributes(self@),
    {
        let mut r: Vec<Attribute> = Vec::new();
        r.push(Attribute::new("animationMode", format_unsigned(self.mode.ordinal() as u64)));
        r.push(Attribute::new("mod1", format_unsigned(self.mod1 as u64)));
        r.push(Attribute::new("mod2", format_unsigned(self.mod2 as u64)));
        r.push(Attribute::new("mod3", format_unsigned(self.waterfall.ordinal() as u64)));
        proof {
            assert(attrs_view(r@) =~= animation_attributes(self@));
        }
        r
    }

    pub fn mode(&self) -> (r: AnimationMode)
        ensures
            r == self@.mode,
    {
        self.mode
    }

    pub fn mod1(&self) -> (r: u8)
        ensures
            r == self@.mod1,
    {
        self.mod1
    }

    pub fn mod2(&self) -> (r: u8)
        ensures
            r == self@.mod2,
    {
        self.mod2
    }

    pub fn waterfall(&self) -> (r: WaterfallDirection)
        ensures
            r == self@.waterfall,
    {
        self.waterfall
    }

    pub fn set_mode(&mut self, mode: AnimationMode) -> (r: Result<(), SettingError>)
        ensures
            r is Ok,
            final(self)@ == (AnimationSettings { mode, ..old(self)@ }),
            final(self).spec_element_name() == old(self).spec_element_name(),
    {
        self.mode = mode;
        Ok(())
    }

    /// Sets the first modifier, a percentage.
    pub fn set_mod1(&mut self, mod1: u8) -> (r: Result<(), SettingError>)
        ensures
            r is Ok <==> mod1 <= 100,
            r is Ok ==> final(self)@ == (AnimationSettings { mod1, ..old(self)@ }),
            r is Err ==> r == Err::<(), SettingError>(SettingError::OutOfRange),
            r is Err ==> final(self)@ == old(self)@,
            final(self).spec_element_name() == old(self).spec_element_name(),
    {
        if mod1 > 100 {
            return Err(SettingError::OutOfRange);
        }
        self.mod1 = mod1;
        Ok(())
    }

    /// Sets the second modifier, a percentage that only the rainbow modes use.
    pub fn set_mod2(&mut self, mod2: u8) -> (r: Result<(), SettingError>)
        ensures
            r is Ok <==> old(self)@.mode.has_mod2() && mod2 <= 100,
            !old(self)@.mode.has_mod2() ==> r == Err::<(), SettingError>(
                SettingError::UnavailableInMode,
            ),
            old(self)@.mode.has_mod2() && mod2 > 100 ==> r == Err::<(), SettingError>(
                SettingError::OutOfRange,
            ),
            r is Ok ==> final(self)@ == (AnimationSettings { mod2, ..old(self)@ }),
            r is Err ==> final(self)@ == old(self)@,
            final(self).spec_element_name() == old(self).spec_element_name(),
    {
        if self.mode != AnimationMode::RainbowBright && self.mode != AnimationMode::RainbowDark {
            return Err(SettingError::UnavailableInMode);
        }
        if mod2 > 100 {
            return Err(SettingError::OutOfRange);
        }
        self.mod2 = mod2;
        Ok(())
    }

    /// Sets the waterfall direction, which the retro rainbow and disabled modes do not use.
    pub fn set_waterfall(&mut self, waterfall: WaterfallDirection) -> (r: Result<(), SettingError>)
        ensures
            r is Ok <==> old(self)@.mode.has_waterfall(),
            r is Ok ==> final(self)@ == (AnimationSettings { waterfall, ..old(self)@ }),
            r is Err ==> r == Err::<(), SettingError>(SettingError::UnavailableInMode),
            r is Err ==> final(self)@ == old(self)@,
            final(self).spec_element_name() == old(self).spec_element_name(),
    {
        if self.mode == AnimationMode::RetroRainbow || self.mode == AnimationMode::Disabled {
            return Err(SettingError::UnavailableInMode);
        }
        self.waterfall = waterfall;
        Ok(())
    }
}

} // verus!
