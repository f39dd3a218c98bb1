//! The megaphone voice effect: six preset slots, each a style plus the
//! transform parameters the style stands for.
use vstd::prelude::*;

use crate::attribute::{
    apply_attributes, attrs_view, lemma_apply_next, lemma_error_persists, AttrView, Attribute,
};
use crate::codec::{
    decimal_digits, format_signed, format_unsigned, lemma_byte_round_trip,
    lemma_signed_byte_round_trip, parse_byte, parse_signed_byte, signed_decimal, spec_parse_byte,
    spec_parse_signed_byte, str_eq, ParseError, SettingError,
};

verus! {

/// Effect styles. Documents store a style by its explicit UI index, which
/// need not follow the order of declaration.
#[derive(Debug, Clone, Copy, PartialEq, Eq, Structural)]
pub enum MegaphoneStyle {
    Megaphone,
    Radio,
    OnThePhone,
    Overdrive,
    BuzzCutt,
    Tweed,
}

impl MegaphoneStyle {
    /// The UI index a document stores for the style.
    pub open spec fn spec_ui_index(self) -> Seq<char> {
        match self {
            MegaphoneStyle::Megaphone => seq!['0'],
            MegaphoneStyle::Radio => seq!['1'],
            MegaphoneStyle::OnThePhone => seq!['2'],
            MegaphoneStyle::Overdrive => seq!['3'],
            MegaphoneStyle::BuzzCutt => seq!['4'],
            MegaphoneStyle::Tweed => seq!['5'],
        }
    }

    /// The style whose UI index is `text`, if any.
    pub open spec fn spec_from_ui_index(text: Seq<char>) -> Option<MegaphoneStyle> {
        if text == seq!['0'] {
            Some(MegaphoneStyle::Megaphone)
        } else if text == seq!['1'] {
            Some(MegaphoneStyle::Radio)
        } else if text == seq!['2'] {
            Some(MegaphoneStyle::OnThePhone)
        } else if text == seq!['3'] {
            Some(MegaphoneStyle::Overdrive)
        } else if text == seq!['4'] {
            Some(MegaphoneStyle::BuzzCutt)
        } else if text == seq!['5'] {
            Some(MegaphoneStyle::Tweed)
        } else {
            None
        }
    }

    pub fn ui_index(&self) -> (r: String)
        ensures
            r@ == self.spec_ui_index(),
    {
        proof {
            reveal_strlit("0");
            reveal_strlit("1");
            reveal_strlit("2");
            reveal_strlit("3");
            reveal_strlit("4");
            reveal_strlit("5");
        }
        match self {
            MegaphoneStyle::Megaphone => String::from_str("0"),
            MegaphoneStyle::Radio => String::from_str("1"),
            MegaphoneStyle::OnThePhone => String::from_str("2"),
            MegaphoneStyle::Overdrive => String::from_str("3"),
            MegaphoneStyle::BuzzCutt => String::from_str("4"),
            MegaphoneStyle::Tweed => String::from_str("5"),
        }
    }

    /// Finds the style whose UI index is `text`, trying the styles in order.
    pub fn from_ui_index(text: &str) -> (r: Option<MegaphoneStyle>)
        ensures
            r == Self::spec_from_ui_index(text@),
    {
        proof {
            reveal_strlit("0");
            reveal_strlit("1");
            reveal_strlit("2");
            reveal_strlit("3");
            reveal_strlit("4");
            reveal_strlit("5");
            assert("0"@ =~= seq!['0']);
            assert("1"@ =~= seq!['1']);
            assert("2"@ =~= seq!['2']);
            assert("3"@ =~= seq!['3']);
            assert("4"@ =~= seq!['4']);
            assert("5"@ =~= seq!['5']);
        }
        if str_eq(text, "0") {
            Some(MegaphoneStyle::Megaphone)
        } else if str_eq(text, "1") {
            Some(MegaphoneStyle::Radio)
        } else if str_eq(text, "2") {
            Some(MegaphoneStyle::OnThePhone)
        } else if str_eq(text, "3") {
            Some(MegaphoneStyle::Overdrive)
        } else if str_eq(text, "4") {
            Some(MegaphoneStyle::BuzzCutt)
        } else if str_eq(text, "5") {
            Some(MegaphoneStyle::Tweed)
        } else {
            None
        }
    }
}

impl Default for MegaphoneStyle {
    fn default() -> (r: MegaphoneStyle)
        ensures
            r == MegaphoneStyle::Megaphone,
    {
        MegaphoneStyle::Megaphone
    }
}

/// The transform parameters of an effect; one fixed bundle stands behind each style.
#[derive(Debug, Clone, Copy, PartialEq, Eq, Structural)]
pub struct MegaphonePreset {
    pub trans_dist_amt: u8,
    pub trans_hp: u8,
    pub trans_lp: u8,
    pub trans_pregain: u8,
    pub trans_postgain: i8,
    pub trans_dist_type: u8,
    pub trans_presence_gain: u8,
    pub trans_presence_fc: u8,
    pub trans_presence_bw: u8,
    pub trans_beatbox_enabled: bool,
    pub trans_filter_control: u8,
    pub trans_filter: u8,
    pub trans_drive_pot_gain_comp_mid: u8,
    pub trans_drive_pot_gain_comp_max: u8,
}

impl MegaphonePreset {
    /// The parameter bundle each style derives.
    pub open spec fn spec_get_preset(style: MegaphoneStyle) -> MegaphonePreset {
        match style {
            MegaphoneStyle::Megaphone => MegaphonePreset {
                trans_dist_amt: 0,
                trans_hp: 120,
                trans_lp: 200,
                trans_pregain: 0,
                trans_postgain: 2,
                trans_dist_type: 6,
                trans_presence_gain: 8,
                trans_presence_fc: 135,
                trans_presence_bw: 7,
                trans_beatbox_enabled: false,
                trans_filter_control: 2,
                trans_filter: 59,
                trans_drive_pot_gain_comp_mid: 0,
                trans_drive_pot_gain_comp_max: 0,
            },
            MegaphoneStyle::Radio => MegaphonePreset {
                trans_dist_amt: 30,
                trans_hp: 110,
                trans_lp: 190,
                trans_pregain: 0,
                trans_postgain: 2,
                trans_dist_type: 4,
                trans_presence_gain: 7,
                trans_presence_fc: 160,
                trans_presence_bw: 5,
                trans_beatbox_enabled: false,
                trans_filter_control: 1,
                trans_filter: 59,
                trans_drive_pot_gain_comp_mid: 0,
                trans_drive_pot_gain_comp_max: 5,
            },
            MegaphoneStyle::OnThePhone => MegaphonePreset {
                trans_dist_amt: 50,
                trans_hp: 50,
                trans_lp: 238,
                trans_pregain: 0,
                trans_postgain: 0,
                trans_dist_type: 12,
                trans_presence_gain: 10,
                trans_presence_fc: 160,
                trans_presence_bw: 5,
                trans_beatbox_enabled: false,
                trans_filter_control: 3,
                trans_filter: 0,
                trans_drive_pot_gain_comp_mid: 0,
                trans_drive_pot_gain_comp_max: 0,
            },
            MegaphoneStyle::Overdrive => MegaphonePreset {
                trans_dist_amt: 50,
                trans_hp: 50,
                trans_lp: 238,
                trans_pregain: 0,
                trans_postgain: 2,
                trans_dist_type: 1,
                trans_presence_gain: 0,
                trans_presence_fc: 168,
                trans_presence_bw: 8,
                trans_beatbox_enabled: false,
                trans_filter_control: 1,
                trans_filter: 100,
                trans_drive_pot_gain_comp_mid: 1,
                trans_drive_pot_gain_comp_max: 25,
            },
            MegaphoneStyle::BuzzCutt => MegaphonePreset {
                trans_dist_amt: 50,
                trans_hp: 50,
                trans_lp: 238,
                trans_pregain: 0,
                trans_postgain: 2,
                trans_dist_type: 9,
                trans_presence_gain: 5,
                trans_presence_fc: 174,
                trans_presence_bw: 4,
                trans_beatbox_enabled: false,
                trans_filter_control: 3,
                trans_filter: 100,
                trans_drive_pot_gain_comp_mid: 1,
                trans_drive_pot_gain_comp_max: 8,
            },
            MegaphoneStyle::Tweed => MegaphonePreset {
                trans_dist_amt: 20,
                trans_hp: 78,
                trans_lp: 192,
                trans_pregain: 10,
                trans_postgain: 2,
                trans_dist_type: 13,
                trans_presence_gain: 0,
                trans_presence_fc: 168,
                trans_presence_bw: 8,
                trans_beatbox_enabled: false,
                trans_filter_control: 3,
                trans_filter: 59,
                trans_drive_pot_gain_comp_mid: 3,
                trans_drive_pot_gain_comp_max: 4,
            },
        }
    }

    /// All parameters zero and the beatbox off.
    pub open spec fn spec_zero() -> MegaphonePreset {
        MegaphonePreset {
            trans_dist_amt: 0,
            trans_hp: 0,
            trans_lp: 0,
            trans_pregain: 0,
            trans_postgain: 0,
            trans_dist_type: 0,
            trans_presence_gain: 0,
            trans_presence_fc: 0,
            trans_presence_bw: 0,
            trans_beatbox_enabled: false,
            trans_filter_control: 0,
            trans_filter: 0,
            trans_drive_pot_gain_comp_mid: 0,
            trans_drive_pot_gain_comp_max: 0,
        }
    }

    /// Whether the amount is a percentage and the post gain lies in `-20..=20`.
    pub open spec fn in_range(self) -> bool {
        self.trans_dist_amt <= 100 && -20 <= self.trans_postgain <= 20
    }

    pub fn get_preset(style: MegaphoneStyle) -> (r: MegaphonePreset)
        ensures
            r == Self::spec_get_preset(style),
            r.in_range(),
    {
        match style {
            MegaphoneStyle::Megaphone => MegaphonePreset {
                trans_dist_amt: 0,
                trans_hp: 120,
                trans_lp: 200,
                trans_pregain: 0,
                trans_postgain: 2,
                trans_dist_type: 6,
                trans_presence_gain: 8,
                trans_presence_fc: 135,
                trans_presence_bw: 7,
                trans_beatbox_enabled: false,
                trans_filter_control: 2,
                trans_filter: 59,
                trans_drive_pot_gain_comp_mid: 0,
                trans_drive_pot_gain_comp_max: 0,
            },
            MegaphoneStyle::Radio => MegaphonePreset {
                trans_dist_amt: 30,
                trans_hp: 110,
                trans_lp: 190,
                trans_pregain: 0,
                trans_postgain: 2,
                trans_dist_type: 4,
                trans_presence_gain: 7,
                trans_presence_fc: 160,
                trans_presence_bw: 5,
                trans_beatbox_enabled: false,
                trans_filter_control: 1,
                trans_filter: 59,
                trans_drive_pot_gain_comp_mid: 0,
                trans_drive_pot_gain_comp_max: 5,
            },
            MegaphoneStyle::OnThePhone => MegaphonePreset {
                trans_dist_amt: 50,
                trans_hp: 50,
                trans_lp: 238,
                trans_pregain: 0,
                trans_postgain: 0,
                trans_dist_type: 12,
                trans_presence_gain: 10,
                trans_presence_fc: 160,
                trans_presence_bw: 5,
                trans_beatbox_enabled: false,
                trans_filter_control: 3,
                trans_filter: 0,
                trans_drive_pot_gain_comp_mid: 0,
                trans_drive_pot_gain_comp_max: 0,
            },
            MegaphoneStyle::Overdrive => MegaphonePreset {
                trans_dist_amt: 50,
                trans_hp: 50,
                trans_lp: 238,
                trans_pregain: 0,
                trans_postgain: 2,
                trans_dist_type: 1,
                trans_presence_gain: 0,
                trans_presence_fc: 168,
                trans_presence_bw: 8,
                trans_beatbox_enabled: false,
                trans_filter_control: 1,
                trans_filter: 100,
                trans_drive_pot_gain_comp_mid: 1,
                trans_drive_pot_gain_comp_max: 25,
            },
            MegaphoneStyle::BuzzCutt => MegaphonePreset {
                trans_dist_amt: 50,
                trans_hp: 50,
                trans_lp: 238,
                trans_pregain: 0,
                trans_postgain: 2,
                trans_dist_type: 9,
                trans_presence_gain: 5,
                trans_presence_fc: 174,
                trans_presence_bw: 4,
                trans_beatbox_enabled: false,
                trans_filter_control: 3,
                trans_filter: 100,
                trans_drive_pot_gain_comp_mid: 1,
                trans_drive_pot_gain_comp_max: 8,
            },
            MegaphoneStyle::Tweed => MegaphonePreset {
                trans_dist_amt: 20,
                trans_hp: 78,
                trans_lp: 192,
                trans_pregain: 10,
                trans_postgain: 2,
                trans_dist_type: 13,
                trans_presence_gain: 0,
                trans_presence_fc: 168,
                trans_presence_bw: 8,
                trans_beatbox_enabled: false,
                trans_filter_control: 3,
                trans_filter: 59,
                trans_drive_pot_gain_comp_mid: 3,
                trans_drive_pot_gain_comp_max: 4,
            },
        }
    }

    fn zero() -> (r: MegaphonePreset)
        ensures
            r == Self::spec_zero(),
    {
        MegaphonePreset {
            trans_dist_amt: 0,
            trans_hp: 0,
            trans_lp: 0,
            trans_pregain: 0,
            trans_postgain: 0,
            trans_dist_type: 0,
            trans_presence_gain: 0,
            trans_presence_fc: 0,
            trans_presence_bw: 0,
            trans_beatbox_enabled: false,
            trans_filter_control: 0,
            trans_filter: 0,
            trans_drive_pot_gain_comp_mid: 0,
            trans_drive_pot_gain_comp_max: 0,
        }
    }
}

/// What one preset slot of the effect holds.
#[derive(Debug, Clone, Copy, PartialEq, Eq, Structural)]
pub struct EffectSettings {
    /// Whether the effect is on when the slot is loaded.
    pub state: bool,
    pub style: MegaphoneStyle,
    pub params: MegaphonePreset,
}

/// A fresh slot: off, the megaphone style, every parameter zero.
pub open spec fn fresh_effect() -> EffectSettings {
    EffectSettings {
        state: false,
        style: MegaphoneStyle::Megaphone,
        params: MegaphonePreset::spec_zero(),
    }
}

/// The effect of one attribute on a slot.
pub open spec fn effect_step(e: EffectSettings, a: AttrView) -> Result<EffectSettings, ParseError> {
    let p = e.params;
    if a.0 == "megaphoneEffectstate"@ {
        Ok(EffectSettings { state: a.1 == "1"@, ..e })
    } else if a.0 == "MEGAPHONE_STYLE"@ {
        Ok(
            match MegaphoneStyle::spec_from_ui_index(a.1) {
                Some(s) => EffectSettings { style: s, ..e },
                None => e,
            },
        )
    } else if a.0 == "TRANS_DIST_AMT"@ {
        match spec_parse_byte(a.1) {
            Ok(b) => Ok(EffectSettings { params: MegaphonePreset { trans_dist_amt: b, ..p }, ..e }),
            Err(err) => Err(err),
        }
    } else if a.0 == "TRANS_HP"@ {
        match spec_parse_byte(a.1) {
            Ok(b) => Ok(EffectSettings { params: MegaphonePreset { trans_hp: b, ..p }, ..e }),
            Err(err) => Err(err),
        }
    } else if a.0 == "TRANS_LP"@ {
        match spec_parse_byte(a.1) {
            Ok(b) => Ok(EffectSettings { params: MegaphonePreset { trans_lp: b, ..p }, ..e }),
            Err(err) => Err(err),
        }
    } else if a.0 == "TRANS_PREGAIN"@ {
        match spec_parse_byte(a.1) {
            Ok(b) => Ok(EffectSettings { params: MegaphonePreset { trans_pregain: b, ..p }, ..e }),
            Err(err) => Err(err),
        }
    } else if a.0 == "TRANS_POSTGAIN"@ {
        match spec_parse_signed_byte(a.1) {
            Ok(b) => Ok(EffectSettings { params: MegaphonePreset { trans_postgain: b, ..p }, ..e }),
            Err(err) => Err(err),
        }
    } else if a.0 == "TRANS_DIST_TYPE"@ {
        match spec_parse_byte(a.1) {
            Ok(b) => Ok(EffectSettings { params: MegaphonePreset { trans_dist_type: b, ..p }, ..e }),
            Err(err) => Err(err),
        }
    } else if a.0 == "TRANS_PRESENCE_GAIN"@ {
        match spec_parse_byte(a.1) {
            Ok(b) => Ok(EffectSettings { params: MegaphonePreset { trans_presence_gain: b, ..p }, ..e }),
            Err(err) => Err(err),
        }
    } else if a.0 == "TRANS_PRESENCE_FC"@ {
        match spec_parse_byte(a.1) {
            Ok(b) => Ok(EffectSettings { params: MegaphonePreset { trans_presence_fc: b, ..p }, ..e }),
            Err(err) => Err(err),
        }
    } else if a.0 == "TRANS_PRESENCE_BW"@ {
        match spec_parse_byte(a.1) {
            Ok(b) => Ok(EffectSettings { params: MegaphonePreset { trans_presence_bw: b, ..p }, ..e }),
            Err(err) => Err(err),
        }
    } else if a.0 == "TRANS_BEATBOX_ENABLE"@ {
        Ok(EffectSettings { params: MegaphonePreset { trans_beatbox_enabled: a.1 != "0"@, ..p }, ..e })
    } else if a.0 == "TRANS_FILTER_CONTROL"@ {
        match spec_parse_byte(a.1) {
            Ok(b) => Ok(EffectSettings { params: MegaphonePreset { trans_filter_control: b, ..p }, ..e }),
            Err(err) => Err(err),
        }
    } else if a.0 == "TRANS_FILTER"@ {
        match spec_parse_byte(a.1) {
            Ok(b) => Ok(EffectSettings { params: MegaphonePreset { trans_filter: b, ..p }, ..e }),
            Err(err) => Err(err),
        }
    } else if a.0 == "TRANS_DRIVE_POT_GAIN_COMP_MID"@ {
        match spec_parse_byte(a.1) {
            Ok(b) => Ok(EffectSettings { params: MegaphonePreset { trans_drive_pot_gain_comp_mid: b, ..p }, ..e }),
            Err(err) => Err(err),
        }
    } else if a.0 == "TRANS_DRIVE_POT_GAIN_COMP_MAX"@ {
        match spec_parse_byte(a.1) {
            Ok(b) => Ok(EffectSettings { params: MegaphonePreset { trans_drive_pot_gain_comp_max: b, ..p }, ..e }),
            Err(err) => Err(err),
        }
    } else {
        Ok(e)
    }
}

/// The slot read from `attrs`, starting from a fresh slot.
pub open spec fn parse_effect_spec(attrs: Seq<AttrView>) -> Result<EffectSettings, ParseError> {
    apply_attributes(fresh_effect(), attrs, |s: EffectSettings, a: AttrView| effect_step(s, a))
}

pub open spec fn flag_text(b: bool) -> Seq<char> {
    if b {
        "1"@
    } else {
        "0"@
    }
}

/// The attributes a slot is written with.
pub open spec fn effect_attributes(e: EffectSettings) -> Seq<AttrView> {
    let p = e.params;
    seq![
        ("megaphoneEffectstate"@, flag_text(e.state)),
        ("MEGAPHONE_STYLE"@, e.style.spec_ui_index()),
        ("TRANS_DIST_AMT"@, decimal_digits(p.trans_dist_amt as nat)),
        ("TRANS_HP"@, decimal_digits(p.trans_hp as nat)),
        ("TRANS_LP"@, decimal_digits(p.trans_lp as nat)),
        ("TRANS_PREGAIN"@, decimal_digits(p.trans_pregain as nat)),
        ("TRANS_POSTGAIN"@, signed_decimal(p.trans_postgain as int)),
        ("TRANS_DIST_TYPE"@, decimal_digits(p.trans_dist_type as nat)),
        ("TRANS_PRESENCE_GAIN"@, decimal_digits(p.trans_presence_gain as nat)),
        ("TRANS_PRESENCE_FC"@, decimal_digits(p.trans_presence_fc as nat)),
        ("TRANS_PRESENCE_BW"@, decimal_digits(p.trans_presence_bw as nat)),
        ("TRANS_BEATBOX_ENABLE"@, flag_text(p.trans_beatbox_enabled)),
        ("TRANS_FILTER_CONTROL"@, decimal_digits(p.trans_filter_control as nat)),
        ("TRANS_FILTER"@, decimal_digits(p.trans_filter as nat)),
        ("TRANS_DRIVE_POT_GAIN_COMP_MID"@, decimal_digits(p.trans_drive_pot_gain_comp_mid as nat)),
        ("TRANS_DRIVE_POT_GAIN_COMP_MAX"@, decimal_digits(p.trans_drive_pot_gain_comp_max as nat)),
    ]
}

fn apply_effect_attribute(e: EffectSettings, a: &Attribute) -> (r: Result<EffectSettings, ParseError>)
    ensures
        r == effect_step(e, a.view()),
{
    let name = a.name.as_str();
    let value = a.value.as_str();
    let p = e.params;
    if str_eq(name, "megaphoneEffectstate") {
        Ok(EffectSettings { state: str_eq(value, "1"), ..e })
    } else if str_eq(name, "MEGAPHONE_STYLE") {
        match MegaphoneStyle::from_ui_index(value) {
            Some(s) => Ok(EffectSettings { style: s, ..e }),
            None => Ok(e),
        }
    } else if str_eq(name, "TRANS_DIST_AMT") {
        let b = parse_byte(value)?;
        Ok(EffectSettings { params: MegaphonePreset { trans_dist_amt: b, ..p }, ..e })
    } else if str_eq(name, "TRANS_HP") {
        let b = parse_byte(value)?;
        Ok(EffectSettings { params: MegaphonePreset { trans_hp: b, ..p }, ..e })
    } else if str_eq(name, "TRANS_LP") {
        let b = parse_byte(value)?;
        Ok(EffectSettings { params: MegaphonePreset { trans_lp: b, ..p }, ..e })
    } else if str_eq(name, "TRANS_PREGAIN") {
        let b = parse_byte(value)?;
        Ok(EffectSettings { params: MegaphonePreset { trans_pregain: b, ..p }, ..e })
    } else if str_eq(name, "TRANS_POSTGAIN") {
        let b = parse_signed_byte(value)?;
        Ok(EffectSettings { params: MegaphonePreset { trans_postgain: b, ..p }, ..e })
    } else if str_eq(name, "TRANS_DIST_TYPE") {
        let b = parse_byte(value)?;
        Ok(EffectSettings { params: MegaphonePreset { trans_dist_type: b, ..p }, ..e })
    } else if str_eq(name, "TRANS_PRESENCE_GAIN") {
        let b = parse_byte(value)?;
        Ok(EffectSettings { params: MegaphonePreset { trans_presence_gain: b, ..p }, ..e })
    } else if str_eq(name, "TRANS_PRESENCE_FC") {
        let b = parse_byte(value)?;
        Ok(EffectSettings { params: MegaphonePreset { trans_presence_fc: b, ..p }, ..e })
    } else if str_eq(name, "TRANS_PRESENCE_BW") {
        let b = parse_byte(value)?;
        Ok(EffectSettings { params: MegaphonePreset { trans_presence_bw: b, ..p }, ..e })
    } else if str_eq(name, "TRANS_BEATBOX_ENABLE") {
        Ok(EffectSettings { params: MegaphonePreset { trans_beatbox_enabled: !str_eq(value, "0"), ..p }, ..e })
    } else if str_eq(name, "TRANS_FILTER_CONTROL") {
        let b = parse_byte(value)?;
        Ok(EffectSettings { params: MegaphonePreset { trans_filter_control: b, ..p }, ..e })
    } else if str_eq(name, "TRANS_FILTER") {
        let b = parse_byte(value)?;
        Ok(EffectSettings { params: MegaphonePreset { trans_filter: b, ..p }, ..e })
    } else if str_eq(name, "TRANS_DRIVE_POT_GAIN_COMP_MID") {
        let b = parse_byte(value)?;
        Ok(EffectSettings { params: MegaphonePreset { trans_drive_pot_gain_comp_mid: b, ..p }, ..e })
    } else if str_eq(name, "TRANS_DRIVE_POT_GAIN_COMP_MAX") {
        let b = parse_byte(value)?;
        Ok(EffectSettings { params: MegaphonePreset { trans_drive_pot_gain_comp_max: b, ..p }, ..e })
    } else {
        Ok(e)
    }
}

fn flag_string(b: bool) -> (r: String)
    ensures
        r@ == flag_text(b),
{
    if b {
        String::from_str("1")
    } else {
        String::from_str("0")
    }
}

/// Writes a slot's attributes: flags as "1"/"0", the style by UI index, numbers in decimal.
pub fn write_effect(effect: &MegaphoneEffect) -> (r: Vec<Attribute>)
    ensures
        attrs_view(r@) == effect_attributes(effect@),
{
    let p = effect.params;
    let mut r: Vec<Attribute> = Vec::new();
    r.push(Attribute::new("megaphoneEffectstate", flag_string(effect.state)));
    r.push(Attribute::new("MEGAPHONE_STYLE", effect.style.ui_index()));
    r.push(Attribute::new("TRANS_DIST_AMT", format_unsigned(p.trans_dist_amt as u64)));
    r.push(Attribute::new("TRANS_HP", format_unsigned(p.trans_hp as u64)));
    r.push(Attribute::new("TRANS_LP", format_unsigned(p.trans_lp as u64)));
    r.push(Attribute::new("TRANS_PREGAIN", format_unsigned(p.trans_pregain as u64)));
    r.push(Attribute::new("TRANS_POSTGAIN", format_signed(p.trans_postgain as i64)));
    r.push(Attribute::new("TRANS_DIST_TYPE", format_unsigned(p.trans_dist_type as u64)));
    r.push(Attribute::new("TRANS_PRESENCE_GAIN", format_unsigned(p.trans_presence_gain as u64)));
    r.push(Attribute::new("TRANS_PRESENCE_FC", format_unsigned(p.trans_presence_fc as u64)));
    r.push(Attribute::new("TRANS_PRESENCE_BW", format_unsigned(p.trans_presence_bw as u64)));
    r.push(Attribute::new("TRANS_BEATBOX_ENABLE", flag_string(p.trans_beatbox_enabled)));
    r.push(Attribute::new("TRANS_FILTER_CONTROL", format_unsigned(p.trans_filter_control as u64)));
    r.push(Attribute::new("TRANS_FILTER", format_unsigned(p.trans_filter as u64)));
    r.push(Attribute::new("TRANS_DRIVE_POT_GAIN_COMP_MID", format_unsigned(p.trans_drive_pot_gain_comp_mid as u64)));
    r.push(Attribute::new("TRANS_DRIVE_POT_GAIN_COMP_MAX", format_unsigned(p.trans_drive_pot_gain_comp_max as u64)));
    proof {
        assert(attrs_view(r@) =~= effect_attributes(effect@));
    }
    r
}

/// One preset slot of the megaphone effect.
#[derive(Debug)]
pub struct MegaphoneEffect {
    state: bool,
    style: MegaphoneStyle,
    params: MegaphonePreset,
}

impl View for MegaphoneEffect {
    type V = EffectSettings;

    closed spec fn view(&self) -> EffectSettings {
        EffectSettings { state: self.state, style: self.style, params: self.params }
    }
}

impl MegaphoneEffect {
    pub fn new() -> (r: MegaphoneEffect)
        ensures
            r@ == fresh_effect(),
    {
        MegaphoneEffect { state: false, style: MegaphoneStyle::Megaphone, params: MegaphonePreset::zero() }
    }

    fn from_settings(e: EffectSettings) -> (r: MegaphoneEffect)
        ensures
            r@ == e,
    {
        MegaphoneEffect { state: e.state, style: e.style, params: e.params }
    }

    pub fn state(&self) -> (r: bool)
        ensures
            r == self@.state,
    {
        self.state
    }

    pub fn set_state(&mut self, state: bool)
        ensures
            final(self)@ == (EffectSettings { state, ..old(self)@ }),
    {
        self.state = state;
    }

    pub fn style(&self) -> (r: &MegaphoneStyle)
        ensures
            *r == self@.style,
    {
        &self.style
    }

    /// Selects a style and derives every transform parameter from its preset,
    /// all at once.
    pub fn set_style(&mut self, style: MegaphoneStyle) -> (r: Result<(), SettingError>)
        ensures
            r is Ok,
            final(self)@ == (EffectSettings {
                state: old(self)@.state,
                style,
                params: MegaphonePreset::spec_get_preset(style),
            }),
    {
        let preset = MegaphonePreset::get_preset(style);
        self.set_trans_dist_amt(preset.trans_dist_amt)?;
        self.set_trans_postgain(preset.trans_postgain)?;
        self.set_trans_hp(preset.trans_hp);
        self.set_trans_lp(preset.trans_lp);
        self.set_trans_pregain(preset.trans_pregain);
        self.set_trans_dist_type(preset.trans_dist_type);
        self.set_trans_presence_gain(preset.trans_presence_gain);
        self.set_trans_presence_fc(preset.trans_presence_fc);
        self.set_trans_presence_bw(preset.trans_presence_bw);
        self.set_trans_beatbox_enabled(preset.trans_beatbox_enabled);
        self.set_trans_filter_control(preset.trans_filter_control);
        self.set_trans_filter(preset.trans_filter);
        self.set_trans_drive_pot_gain_comp_mid(preset.trans_drive_pot_gain_comp_mid);
        self.set_trans_drive_pot_gain_comp_max(preset.trans_drive_pot_gain_comp_max);
        self.style = style;
        Ok(())
    }

    pub fn trans_dist_amt(&self) -> (r: u8)
        ensures
            r == self@.params.trans_dist_amt,
    {
        self.params.trans_dist_amt
    }

    /// Sets the distortion amount, a percentage.
    pub fn set_trans_dist_amt(&mut self, value: u8) -> (r: Result<(), SettingError>)
        ensures
            r is Ok <==> value <= 100,
            r is Ok ==> final(self)@ == (EffectSettings {
                params: MegaphonePreset { trans_dist_amt: value, ..old(self)@.params },
                ..old(self)@
            }),
            r is Err ==> r == Err::<(), SettingError>(SettingError::OutOfRange),
            r is Err ==> final(self)@ == old(self)@,
    {
        if value > 100 {
            return Err(SettingError::OutOfRange);
        }
        self.params.trans_dist_amt = value;
        Ok(())
    }

    pub fn trans_hp(&self) -> (r: u8)
        ensures
            r == self@.params.trans_hp,
    {
        self.params.trans_hp
    }

    fn set_trans_hp(&mut self, value: u8)
        ensures
            final(self)@ == (EffectSettings {
                params: MegaphonePreset { trans_hp: value, ..old(self)@.params },
                ..old(self)@
            }),
    {
        self.params.trans_hp = value;
    }

    pub fn trans_lp(&self) -> (r: u8)
        ensures
            r == self@.params.trans_lp,
    {
        self.params.trans_lp
    }

    fn set_trans_lp(&mut self, value: u8)
        ensures
            final(self)@ == (EffectSettings {
                params: MegaphonePreset { trans_lp: value, ..old(self)@.params },
                ..old(self)@
            }),
    {
        self.params.trans_lp = value;
    }

    pub fn trans_pregain(&self) -> (r: u8)
        ensures
            r == self@.params.trans_pregain,
    {
        self.params.trans_pregain
    }

    fn set_trans_pregain(&mut self, value: u8)
        ensures
            final(self)@ == (EffectSettings {
                params: MegaphonePreset { trans_pregain: value, ..old(self)@.params },
                ..old(self)@
            }),
    {
        self.params.trans_pregain = value;
    }

    pub fn trans_postgain(&self) -> (r: i8)
        ensures
            r == self@.params.trans_postgain,
    {
        self.params.trans_postgain
    }

    /// Sets the post gain, which lies in `-20..=20`.
    pub fn set_trans_postgain(&mut self, value: i8) -> (r: Result<(), SettingError>)
        ensures
            r is Ok <==> -20 <= value <= 20,
            r is Ok ==> final(self)@ == (EffectSettings {
                params: MegaphonePreset { trans_postgain: value, ..old(self)@.params },
                ..old(self)@
            }),
            r is Err ==> r == Err::<(), SettingError>(SettingError::OutOfRange),
            r is Err ==> final(self)@ == old(self)@,
    {
        if !(-20 <= value && value <= 20) {
            return Err(SettingError::OutOfRange);
        }
        self.params.trans_postgain = value;
        Ok(())
    }

    pub fn trans_dist_type(&self) -> (r: u8)
        ensures
            r == self@.params.trans_dist_type,
    {
        self.params.trans_dist_type
    }

    fn set_trans_dist_type(&mut self, value: u8)
        ensures
            final(self)@ == (EffectSettings {
                params: MegaphonePreset { trans_dist_type: value, ..old(self)@.params },
                ..old(self)@
            }),
    {
        self.params.trans_dist_type = value;
    }

    pub fn trans_presence_gain(&self) -> (r: u8)
        ensures
            r == self@.params.trans_presence_gain,
    {
        self.params.trans_presence_gain
    }

    fn set_trans_presence_gain(&mut self, value: u8)
        ensures
            final(self)@ == (EffectSettings {
                params: MegaphonePreset { trans_presence_gain: value, ..old(self)@.params },
                ..old(self)@
            }),
    {
        self.params.trans_presence_gain = value;
    }

    pub fn trans_presence_fc(&self) -> (r: u8)
        ensures
            r == self@.params.trans_presence_fc,
    {
        self.params.trans_presence_fc
    }

    fn set_trans_presence_fc(&mut self, value: u8)
        ensures
            final(self)@ == (EffectSettings {
                params: MegaphonePreset { trans_presence_fc: value, ..old(self)@.params },
                ..old(self)@
            }),
    {
        self.params.trans_presence_fc = value;
    }

    pub fn trans_presence_bw(&self) -> (r: u8)
        ensures
            r == self@.params.trans_presence_bw,
    {
        self.params.trans_presence_bw
    }

    fn set_trans_presence_bw(&mut self, value: u8)
        ensures
            final(self)@ == (EffectSettings {
                params: MegaphonePreset { trans_presence_bw: value, ..old(self)@.params },
                ..old(self)@
            }),
    {
        self.params.trans_presence_bw = value;
    }

    pub fn trans_beatbox_enabled(&self) -> (r: bool)
        ensures
            r == self@.params.trans_beatbox_enabled,
    {
        self.params.trans_beatbox_enabled
    }

    fn set_trans_beatbox_enabled(&mut self, value: bool)
        ensures
            final(self)@ == (EffectSettings {
                params: MegaphonePreset { trans_beatbox_enabled: value, ..old(self)@.params },
                ..old(self)@
            }),
    {
        self.params.trans_beatbox_enabled = value;
    }

    pub fn trans_filter_control(&self) -> (r: u8)
        ensures
            r == self@.params.trans_filter_control,
    {
        self.params.trans_filter_control
    }

    fn set_trans_filter_control(&mut self, value: u8)
        ensures
            final(self)@ == (EffectSettings {
                params: MegaphonePreset { trans_filter_control: value, ..old(self)@.params },
                ..old(self)@
            }),
    {
        self.params.trans_filter_control = value;
    }

    pub fn trans_filter(&self) -> (r: u8)
        ensures
            r == self@.params.trans_filter,
    {
        self.params.trans_filter
    }

    fn set_trans_filter(&mut self, value: u8)
        ensures
            final(self)@ == (EffectSettings {
                params: MegaphonePreset { trans_filter: value, ..old(self)@.params },
                ..old(self)@
            }),
    {
        self.params.trans_filter = value;
    }

    pub fn trans_drive_pot_gain_comp_mid(&self) -> (r: u8)
        ensures
            r == self@.params.trans_drive_pot_gain_comp_mid,
    {
        self.params.trans_drive_pot_gain_comp_mid
    }

    fn set_trans_drive_pot_gain_comp_mid(&mut self, value: u8)
        ensures
            final(self)@ == (EffectSettings {
                params: MegaphonePreset { trans_drive_pot_gain_comp_mid: value, ..old(self)@.params },
                ..old(self)@
            }),
    {
        self.params.trans_drive_pot_gain_comp_mid = value;
    }

    pub fn trans_drive_pot_gain_comp_max(&self) -> (r: u8)
        ensures
            r == self@.params.trans_drive_pot_gain_comp_max,
    {
        self.params.trans_drive_pot_gain_comp_max
    }

    fn set_trans_drive_pot_gain_comp_max(&mut self, value: u8)
        ensures
            final(self)@ == (EffectSettings {
                params: MegaphonePreset { trans_drive_pot_gain_comp_max: value, ..old(self)@.params },
                ..old(self)@
            }),
    {
        self.params.trans_drive_pot_gain_comp_max = value;
    }
}

/// Each style's UI index reads back as that style.
pub proof fn lemma_ui_index_round_trip(s: MegaphoneStyle)
    ensures
        MegaphoneStyle::spec_from_ui_index(s.spec_ui_index()) == Some(s),
{
    let t = s.spec_ui_index();
    assert(t.len() == 1);
    assert(t[0] == seq!['0'][0] ==> t == seq!['0']);
    assert(t[0] == seq!['1'][0] ==> t == seq!['1']);
    assert(t[0] == seq!['2'][0] ==> t == seq!['2']);
    assert(t[0] == seq!['3'][0] ==> t == seq!['3']);
    assert(t[0] == seq!['4'][0] ==> t == seq!['4']);
}

/// `s` with its `k`-th written field taken from `e`.
pub open spec fn take_field(s: EffectSettings, e: EffectSettings, k: int) -> EffectSettings {
    if k == 0 {
        EffectSettings { state: e.state, ..s }
    } else     if k == 1 {
        EffectSettings { style: e.style, ..s }
    } else     if k == 2 {
        EffectSettings { params: MegaphonePreset { trans_dist_amt: e.params.trans_dist_amt, ..s.params }, ..s }
    } else     if k == 3 {
        EffectSettings { params: MegaphonePreset { trans_hp: e.params.trans_hp, ..s.params }, ..s }
    } else     if k == 4 {
        EffectSettings { params: MegaphonePreset { trans_lp: e.params.trans_lp, ..s.params }, ..s }
    } else     if k == 5 {
        EffectSettings { params: MegaphonePreset { trans_pregain: e.params.trans_pregain, ..s.params }, ..s }
    } else     if k == 6 {
        EffectSettings { params: MegaphonePreset { trans_postgain: e.params.trans_postgain, ..s.params }, ..s }
    } else     if k == 7 {
        EffectSettings { params: MegaphonePreset { trans_dist_type: e.params.trans_dist_type, ..s.params }, ..s }
    } else     if k == 8 {
        EffectSettings { params: MegaphonePreset { trans_presence_gain: e.params.trans_presence_gain, ..s.params }, ..s }
    } else     if k == 9 {
        EffectSettings { params: MegaphonePreset { trans_presence_fc: e.params.trans_presence_fc, ..s.params }, ..s }
    } else     if k == 10 {
        EffectSettings { params: MegaphonePreset { trans_presence_bw: e.params.trans_presence_bw, ..s.params }, ..s }
    } else     if k == 11 {
        EffectSettings { params: MegaphonePreset { trans_beatbox_enabled: e.params.trans_beatbox_enabled, ..s.params }, ..s }
    } else     if k == 12 {
        EffectSettings { params: MegaphonePreset { trans_filter_control: e.params.trans_filter_control, ..s.params }, ..s }
    } else     if k == 13 {
        EffectSettings { params: MegaphonePreset { trans_filter: e.params.trans_filter, ..s.params }, ..s }
    } else     if k == 14 {
        EffectSettings { params: MegaphonePreset { trans_drive_pot_gain_comp_mid: e.params.trans_drive_pot_gain_comp_mid, ..s.params }, ..s }
    } else {
        EffectSettings { params: MegaphonePreset { trans_drive_pot_gain_comp_max: e.params.trans_drive_pot_gain_comp_max, ..s.params }, ..s }
    }
}

/// Reading the `k`-th written attribute of `e` onto any slot copies that one field of `e`.
proof fn lemma_effect_step(s: EffectSettings, e: EffectSettings, k: int)
    requires
        0 <= k < 16,
    ensures
        effect_step(s, effect_attributes(e)[k]) == Ok::<EffectSettings, ParseError>(
            take_field(s, e, k),
        ),
{
    let a = effect_attributes(e)[k];
    reveal_strlit("0");
    reveal_strlit("1");
    assert("0"@[0] != "1"@[0]);
    if k == 0 {
        reveal_strlit("megaphoneEffectstate");
        assert(a.0.len() == 20);
    }
    if k == 1 {
        reveal_strlit("MEGAPHONE_STYLE");
        assert(a.0.len() == 15);
        reveal_strlit("megaphoneEffectstate");
        assert("megaphoneEffectstate"@.len() == 20);
        lemma_ui_index_round_trip(e.style);
    }
    if k == 2 {
        reveal_strlit("TRANS_DIST_AMT");
        assert(a.0.len() == 14);
        reveal_strlit("megaphoneEffectstate");
        assert("megaphoneEffectstate"@.len() == 20);
        reveal_strlit("MEGAPHONE_STYLE");
        assert("MEGAPHONE_STYLE"@.len() == 15);
        lemma_byte_round_trip(e.params.trans_dist_amt);
    }
    if k == 3 {
        reveal_strlit("TRANS_HP");
        assert(a.0.len() == 8);
        reveal_strlit("megaphoneEffectstate");
        assert("megaphoneEffectstate"@.len() == 20);
        reveal_strlit("MEGAPHONE_STYLE");
        assert("MEGAPHONE_STYLE"@.len() == 15);
        reveal_strlit("TRANS_DIST_AMT");
        assert("TRANS_DIST_AMT"@.len() == 14);
        lemma_byte_round_trip(e.params.trans_hp);
    }
    if k == 4 {
        reveal_strlit("TRANS_LP");
        assert(a.0.len() == 8);
        reveal_strlit("megaphoneEffectstate");
        assert("megaphoneEffectstate"@.len() == 20);
        reveal_strlit("MEGAPHONE_STYLE");
        assert("MEGAPHONE_STYLE"@.len() == 15);
        reveal_strlit("TRANS_DIST_AMT");
        assert("TRANS_DIST_AMT"@.len() == 14);
        reveal_strlit("TRANS_HP");
        assert(a.0[6] != "TRANS_HP"@[6]);
        lemma_byte_round_trip(e.params.trans_lp);
    }
    if k == 5 {
        reveal_strlit("TRANS_PREGAIN");
        assert(a.0.len() == 13);
        reveal_strlit("megaphoneEffectstate");
        assert("megaphoneEffectstate"@.len() == 20);
        reveal_strlit("MEGAPHONE_STYLE");
        assert("MEGAPHONE_STYLE"@.len() == 15);
        reveal_strlit("TRANS_DIST_AMT");
        assert("TRANS_DIST_AMT"@.len() == 14);
        reveal_strlit("TRANS_HP");
        assert("TRANS_HP"@.len() == 8);
        reveal_strlit("TRANS_LP");
        assert("TRANS_LP"@.len() == 8);
        lemma_byte_round_trip(e.params.trans_pregain);
    }
    if k == 6 {
        reveal_strlit("TRANS_POSTGAIN");
        assert(a.0.len() == 14);
        reveal_strlit("megaphoneEffectstate");
        assert("megaphoneEffectstate"@.len() == 20);
        reveal_strlit("MEGAPHONE_STYLE");
        assert("MEGAPHONE_STYLE"@.len() == 15);
        reveal_strlit("TRANS_DIST_AMT");
        assert(a.0[6] != "TRANS_DIST_AMT"@[6]);
        reveal_strlit("TRANS_HP");
        assert("TRANS_HP"@.len() == 8);
        reveal_strlit("TRANS_LP");
        assert("TRANS_LP"@.len() == 8);
        reveal_strlit("TRANS_PREGAIN");
        assert("TRANS_PREGAIN"@.len() == 13);
        lemma_signed_byte_round_trip(e.params.trans_postgain);
    }
    if k == 7 {
        reveal_strlit("TRANS_DIST_TYPE");
        assert(a.0.len() == 15);
        reveal_strlit("megaphoneEffectstate");
        assert("megaphoneEffectstate"@.len() == 20);
        reveal_strlit("MEGAPHONE_STYLE");
        assert(a.0[0] != "MEGAPHONE_STYLE"@[0]);
        reveal_strlit("TRANS_DIST_AMT");
        assert("TRANS_DIST_AMT"@.len() == 14);
        reveal_strlit("TRANS_HP");
        assert("TRANS_HP"@.len() == 8);
        reveal_strlit("TRANS_LP");
        assert("TRANS_LP"@.len() == 8);
        reveal_strlit("TRANS_PREGAIN");
        assert("TRANS_PREGAIN"@.len() == 13);
        reveal_strlit("TRANS_POSTGAIN");
        assert("TRANS_POSTGAIN"@.len() == 14);
        lemma_byte_round_trip(e.params.trans_dist_type);
    }
    if k == 8 {
        reveal_strlit("TRANS_PRESENCE_GAIN");
        assert(a.0.len() == 19);
        reveal_strlit("megaphoneEffectstate");
        assert("megaphoneEffectstate"@.len() == 20);
        reveal_strlit("MEGAPHONE_STYLE");
        assert("MEGAPHONE_STYLE"@.len() == 15);
        reveal_strlit("TRANS_DIST_AMT");
        assert("TRANS_DIST_AMT"@.len() == 14);
        reveal_strlit("TRANS_HP");
        assert("TRANS_HP"@.len() == 8);
        reveal_strlit("TRANS_LP");
        assert("TRANS_LP"@.len() == 8);
        reveal_strlit("TRANS_PREGAIN");
        assert("TRANS_PREGAIN"@.len() == 13);
        reveal_strlit("TRANS_POSTGAIN");
        assert("TRANS_POSTGAIN"@.len() == 14);
        reveal_strlit("TRANS_DIST_TYPE");
        assert("TRANS_DIST_TYPE"@.len() == 15);
        lemma_byte_round_trip(e.params.trans_presence_gain);
    }
    if k == 9 {
        reveal_strlit("TRANS_PRESENCE_FC");
        assert(a.0.len() == 17);
        reveal_strlit("megaphoneEffectstate");
        assert("megaphoneEffectstate"@.len() == 20);
        reveal_strlit("MEGAPHONE_STYLE");
        assert("MEGAPHONE_STYLE"@.len() == 15);
        reveal_strlit("TRANS_DIST_AMT");
        assert("TRANS_DIST_AMT"@.len() == 14);
        reveal_strlit("TRANS_HP");
        assert("TRANS_HP"@.len() == 8);
        reveal_strlit("TRANS_LP");
        assert("TRANS_LP"@.len() == 8);
        reveal_strlit("TRANS_PREGAIN");
        assert("TRANS_PREGAIN"@.len() == 13);
        reveal_strlit("TRANS_POSTGAIN");
        assert("TRANS_POSTGAIN"@.len() == 14);
        reveal_strlit("TRANS_DIST_TYPE");
        assert("TRANS_DIST_TYPE"@.len() == 15);
        reveal_strlit("TRANS_PRESENCE_GAIN");
        assert("TRANS_PRESENCE_GAIN"@.len() == 19);
        lemma_byte_round_trip(e.params.trans_presence_fc);
    }
    if k == 10 {
        reveal_strlit("TRANS_PRESENCE_BW");
        assert(a.0.len() == 17);
        reveal_strlit("megaphoneEffectstate");
        assert("megaphoneEffectstate"@.len() == 20);
        reveal_strlit("MEGAPHONE_STYLE");
        assert("MEGAPHONE_STYLE"@.len() == 15);
        reveal_strlit("TRANS_DIST_AMT");
        assert("TRANS_DIST_AMT"@.len() == 14);
        reveal_strlit("TRANS_HP");
        assert("TRANS_HP"@.len() == 8);
        reveal_strlit("TRANS_LP");
        assert("TRANS_LP"@.len() == 8);
        reveal_strlit("TRANS_PREGAIN");
        assert("TRANS_PREGAIN"@.len() == 13);
        reveal_strlit("TRANS_POSTGAIN");
        assert("TRANS_POSTGAIN"@.len() == 14);
        reveal_strlit("TRANS_DIST_TYPE");
        assert("TRANS_DIST_TYPE"@.len() == 15);
        reveal_strlit("TRANS_PRESENCE_GAIN");
        assert("TRANS_PRESENCE_GAIN"@.len() == 19);
        reveal_strlit("TRANS_PRESENCE_FC");
        assert(a.0[15] != "TRANS_PRESENCE_FC"@[15]);
        lemma_byte_round_trip(e.params.trans_presence_bw);
    }
    if k == 11 {
        reveal_strlit("TRANS_BEATBOX_ENABLE");
        assert(a.0.len() == 20);
        reveal_strlit("megaphoneEffectstate");
        assert(a.0[0] != "megaphoneEffectstate"@[0]);
        reveal_strlit("MEGAPHONE_STYLE");
        assert("MEGAPHONE_STYLE"@.len() == 15);
        reveal_strlit("TRANS_DIST_AMT");
        assert("TRANS_DIST_AMT"@.len() == 14);
        reveal_strlit("TRANS_HP");
        assert("TRANS_HP"@.len() == 8);
        reveal_strlit("TRANS_LP");
        assert("TRANS_LP"@.len() == 8);
        reveal_strlit("TRANS_PREGAIN");
        assert("TRANS_PREGAIN"@.len() == 13);
        reveal_strlit("TRANS_POSTGAIN");
        assert("TRANS_POSTGAIN"@.len() == 14);
        reveal_strlit("TRANS_DIST_TYPE");
        assert("TRANS_DIST_TYPE"@.len() == 15);
        reveal_strlit("TRANS_PRESENCE_GAIN");
        assert("TRANS_PRESENCE_GAIN"@.len() == 19);
        reveal_strlit("TRANS_PRESENCE_FC");
        assert("TRANS_PRESENCE_FC"@.len() == 17);
        reveal_strlit("TRANS_PRESENCE_BW");
        assert("TRANS_PRESENCE_BW"@.len() == 17);
    }
    if k == 12 {
        reveal_strlit("TRANS_FILTER_CONTROL");
        assert(a.0.len() == 20);
        reveal_strlit("megaphoneEffectstate");
        assert(a.0[0] != "megaphoneEffectstate"@[0]);
        reveal_strlit("MEGAPHONE_STYLE");
        assert("MEGAPHONE_STYLE"@.len() == 15);
        reveal_strlit("TRANS_DIST_AMT");
        assert("TRANS_DIST_AMT"@.len() == 14);
        reveal_strlit("TRANS_HP");
        assert("TRANS_HP"@.len() == 8);
        reveal_strlit("TRANS_LP");
        assert("TRANS_LP"@.len() == 8);
        reveal_strlit("TRANS_PREGAIN");
        assert("TRANS_PREGAIN"@.len() == 13);
        reveal_strlit("TRANS_POSTGAIN");
        assert("TRANS_POSTGAIN"@.len() == 14);
        reveal_strlit("TRANS_DIST_TYPE");
        assert("TRANS_DIST_TYPE"@.len() == 15);
        reveal_strlit("TRANS_PRESENCE_GAIN");
        assert("TRANS_PRESENCE_GAIN"@.len() == 19);
        reveal_strlit("TRANS_PRESENCE_FC");
        assert("TRANS_PRESENCE_FC"@.len() == 17);
        reveal_strlit("TRANS_PRESENCE_BW");
        assert("TRANS_PRESENCE_BW"@.len() == 17);
        reveal_strlit("TRANS_BEATBOX_ENABLE");
        assert(a.0[6] != "TRANS_BEATBOX_ENABLE"@[6]);
        lemma_byte_round_trip(e.params.trans_filter_control);
    }
    if k == 13 {
        reveal_strlit("TRANS_FILTER");
        assert(a.0.len() == 12);
        reveal_strlit("megaphoneEffectstate");
        assert("megaphoneEffectstate"@.len() == 20);
        reveal_strlit("MEGAPHONE_STYLE");
        assert("MEGAPHONE_STYLE"@.len() == 15);
        reveal_strlit("TRANS_DIST_AMT");
        assert("TRANS_DIST_AMT"@.len() == 14);
        reveal_strlit("TRANS_HP");
        assert("TRANS_HP"@.len() == 8);
        reveal_strlit("TRANS_LP");
        assert("TRANS_LP"@.len() == 8);
        reveal_strlit("TRANS_PREGAIN");
        assert("TRANS_PREGAIN"@.len() == 13);
        reveal_strlit("TRANS_POSTGAIN");
        assert("TRANS_POSTGAIN"@.len() == 14);
        reveal_strlit("TRANS_DIST_TYPE");
        assert("TRANS_DIST_TYPE"@.len() == 15);
        reveal_strlit("TRANS_PRESENCE_GAIN");
        assert("TRANS_PRESENCE_GAIN"@.len() == 19);
        reveal_strlit("TRANS_PRESENCE_FC");
        assert("TRANS_PRESENCE_FC"@.len() == 17);
        reveal_strlit("TRANS_PRESENCE_BW");
        assert("TRANS_PRESENCE_BW"@.len() == 17);
        reveal_strlit("TRANS_BEATBOX_ENABLE");
        assert("TRANS_BEATBOX_ENABLE"@.len() == 20);
        reveal_strlit("TRANS_FILTER_CONTROL");
        assert("TRANS_FILTER_CONTROL"@.len() == 20);
        lemma_byte_round_trip(e.params.trans_filter);
    }
    if k == 14 {
        reveal_strlit("TRANS_DRIVE_POT_GAIN_COMP_MID");
        assert(a.0.len() == 29);
        reveal_strlit("megaphoneEffectstate");
        assert("megaphoneEffectstate"@.len() == 20);
        reveal_strlit("MEGAPHONE_STYLE");
        assert("MEGAPHONE_STYLE"@.len() == 15);
        reveal_strlit("TRANS_DIST_AMT");
        assert("TRANS_DIST_AMT"@.len() == 14);
        reveal_strlit("TRANS_HP");
        assert("TRANS_HP"@.len() == 8);
        reveal_strlit("TRANS_LP");
        assert("TRANS_LP"@.len() == 8);
        reveal_strlit("TRANS_PREGAIN");
        assert("TRANS_PREGAIN"@.len() == 13);
        reveal_strlit("TRANS_POSTGAIN");
        assert("TRANS_POSTGAIN"@.len() == 14);
        reveal_strlit("TRANS_DIST_TYPE");
        assert("TRANS_DIST_TYPE"@.len() == 15);
        reveal_strlit("TRANS_PRESENCE_GAIN");
        assert("TRANS_PRESENCE_GAIN"@.len() == 19);
        reveal_strlit("TRANS_PRESENCE_FC");
        assert("TRANS_PRESENCE_FC"@.len() == 17);
        reveal_strlit("TRANS_PRESENCE_BW");
        assert("TRANS_PRESENCE_BW"@.len() == 17);
        reveal_strlit("TRANS_BEATBOX_ENABLE");
        assert("TRANS_BEATBOX_ENABLE"@.len() == 20);
        reveal_strlit("TRANS_FILTER_CONTROL");
        assert("TRANS_FILTER_CONTROL"@.len() == 20);
        reveal_strlit("TRANS_FILTER");
        assert("TRANS_FILTER"@.len() == 12);
        lemma_byte_round_trip(e.params.trans_drive_pot_gain_comp_mid);
    }
    if k == 15 {
        reveal_strlit("TRANS_DRIVE_POT_GAIN_COMP_MAX");
        assert(a.0.len() == 29);
        reveal_strlit("megaphoneEffectstate");
        assert("megaphoneEffectstate"@.len() == 20);
        reveal_strlit("MEGAPHONE_STYLE");
        assert("MEGAPHONE_STYLE"@.len() == 15);
        reveal_strlit("TRANS_DIST_AMT");
        assert("TRANS_DIST_AMT"@.len() == 14);
        reveal_strlit("TRANS_HP");
        assert("TRANS_HP"@.len() == 8);
        reveal_strlit("TRANS_LP");
        assert("TRANS_LP"@.len() == 8);
        reveal_strlit("TRANS_PREGAIN");
        assert("TRANS_PREGAIN"@.len() == 13);
        reveal_strlit("TRANS_POSTGAIN");
        assert("TRANS_POSTGAIN"@.len() == 14);
        reveal_strlit("TRANS_DIST_TYPE");
        assert("TRANS_DIST_TYPE"@.len() == 15);
        reveal_strlit("TRANS_PRESENCE_GAIN");
        assert("TRANS_PRESENCE_GAIN"@.len() == 19);
        reveal_strlit("TRANS_PRESENCE_FC");
        assert("TRANS_PRESENCE_FC"@.len() == 17);
        reveal_strlit("TRANS_PRESENCE_BW");
        assert("TRANS_PRESENCE_BW"@.len() == 17);
        reveal_strlit("TRANS_BEATBOX_ENABLE");
        assert("TRANS_BEATBOX_ENABLE"@.len() == 20);
        reveal_strlit("TRANS_FILTER_CONTROL");
        assert("TRANS_FILTER_CONTROL"@.len() == 20);
        reveal_strlit("TRANS_FILTER");
        assert("TRANS_FILTER"@.len() == 12);
        reveal_strlit("TRANS_DRIVE_POT_GAIN_COMP_MID");
        assert(a.0[27] != "TRANS_DRIVE_POT_GAIN_COMP_MID"@[27]);
        lemma_byte_round_trip(e.params.trans_drive_pot_gain_comp_max);
    }
}

/// Writing a slot and reading its attributes back gives the slot again, so
/// parse, write and parse once more ends with what the first parse gave.
pub proof fn lemma_effect_round_trip(e: EffectSettings)
    ensures
        parse_effect_spec(effect_attributes(e)) == Ok::<EffectSettings, ParseError>(e),
{
    let attrs = effect_attributes(e);
    let step = |s: EffectSettings, a: AttrView| effect_step(s, a);
    let s0 = fresh_effect();
    assert(attrs.take(0) =~= Seq::<AttrView>::empty());
    lemma_apply_next(s0, attrs, step, 0);
    lemma_effect_step(s0, e, 0);
    let s1 = take_field(s0, e, 0);
    assert(apply_attributes(s0, attrs.take(1), step) == Ok::<EffectSettings, ParseError>(s1));
    lemma_apply_next(s0, attrs, step, 1);
    lemma_effect_step(s1, e, 1);
    let s2 = take_field(s1, e, 1);
    assert(apply_attributes(s0, attrs.take(2), step) == Ok::<EffectSettings, ParseError>(s2));
    lemma_apply_next(s0, attrs, step, 2);
    lemma_effect_step(s2, e, 2);
    let s3 = take_field(s2, e, 2);
    assert(apply_attributes(s0, attrs.take(3), step) == Ok::<EffectSettings, ParseError>(s3));
    lemma_apply_next(s0, attrs, step, 3);
    lemma_effect_step(s3, e, 3);
    let s4 = take_field(s3, e, 3);
    assert(apply_attributes(s0, attrs.take(4), step) == Ok::<EffectSettings, ParseError>(s4));
    lemma_apply_next(s0, attrs, step, 4);
    lemma_effect_step(s4, e, 4);
    let s5 = take_field(s4, e, 4);
    assert(apply_attributes(s0, attrs.take(5), step) == Ok::<EffectSettings, ParseError>(s5));
    lemma_apply_next(s0, attrs, step, 5);
    lemma_effect_step(s5, e, 5);
    let s6 = take_field(s5, e, 5);
    assert(apply_attributes(s0, attrs.take(6), step) == Ok::<EffectSettings, ParseError>(s6));
    lemma_apply_next(s0, attrs, step, 6);
    lemma_effect_step(s6, e, 6);
    let s7 = take_field(s6, e, 6);
    assert(apply_attributes(s0, attrs.take(7), step) == Ok::<EffectSettings, ParseError>(s7));
    lemma_apply_next(s0, attrs, step, 7);
    lemma_effect_step(s7, e, 7);
    let s8 = take_field(s7, e, 7);
    assert(apply_attributes(s0, attrs.take(8), step) == Ok::<EffectSettings, ParseError>(s8));
    lemma_apply_next(s0, attrs, step, 8);
    lemma_effect_step(s8, e, 8);
    let s9 = take_field(s8, e, 8);
    assert(apply_attributes(s0, attrs.take(9), step) == Ok::<EffectSettings, ParseError>(s9));
    lemma_apply_next(s0, attrs, step, 9);
    lemma_effect_step(s9, e, 9);
    let s10 = take_field(s9, e, 9);
    assert(apply_attributes(s0, attrs.take(10), step) == Ok::<EffectSettings, ParseError>(s10));
    lemma_apply_next(s0, attrs, step, 10);
    lemma_effect_step(s10, e, 10);
    let s11 = take_field(s10, e, 10);
    assert(apply_attributes(s0, attrs.take(11), step) == Ok::<EffectSettings, ParseError>(s11));
    lemma_apply_next(s0, attrs, step, 11);
    lemma_effect_step(s11, e, 11);
    let s12 = take_field(s11, e, 11);
    assert(apply_attributes(s0, attrs.take(12), step) == Ok::<EffectSettings, ParseError>(s12));
    lemma_apply_next(s0, attrs, step, 12);
    lemma_effect_step(s12, e, 12);
    let s13 = take_field(s12, e, 12);
    assert(apply_attributes(s0, attrs.take(13), step) == Ok::<EffectSettings, ParseError>(s13));
    lemma_apply_next(s0, attrs, step, 13);
    lemma_effect_step(s13, e, 13);
    let s14 = take_field(s13, e, 13);
    assert(apply_attributes(s0, attrs.take(14), step) == Ok::<EffectSettings, ParseError>(s14));
    lemma_apply_next(s0, attrs, step, 14);
    lemma_effect_step(s14, e, 14);
    let s15 = take_field(s14, e, 14);
    assert(apply_attributes(s0, attrs.take(15), step) == Ok::<EffectSettings, ParseError>(s15));
    lemma_apply_next(s0, attrs, step, 15);
    lemma_effect_step(s15, e, 15);
    let s16 = take_field(s15, e, 15);
    assert(apply_attributes(s0, attrs.take(16), step) == Ok::<EffectSettings, ParseError>(s16));
    assert(s16 == e);
    assert(attrs.take(16) =~= attrs);
}

/// Reads one slot from its attributes, starting from a fresh slot. Unknown
/// names and unknown style indices are skipped; a number that cannot be read
/// fails the call.
pub fn parse_effect(attributes: &Vec<Attribute>) -> (r: Result<MegaphoneEffect, ParseError>)
    ensures
        match parse_effect_spec(attrs_view(attributes@)) {
            Ok(e) => r is Ok && r.unwrap()@ == e,
            Err(err) => r is Err && r.unwrap_err() == err,
        },
{
    let ghost attrs = attrs_view(attributes@);
    let ghost step = |s: EffectSettings, a: AttrView| effect_step(s, a);
    let fresh = MegaphoneEffect::new();
    let mut e = EffectSettings { state: fresh.state, style: fresh.style, params: fresh.params };
    let mut i: usize = 0;
    proof {
        assert(attrs.take(0) =~= Seq::<AttrView>::empty());
    }
    while i < attributes.len()
        invariant
            i <= attributes.len(),
            attrs == attrs_view(attributes@),
            attrs.len() == attributes@.len(),
            step == (|s: EffectSettings, a: AttrView| effect_step(s, a)),
            apply_attributes(fresh_effect(), attrs.take(i as int), step) == Ok::<
                EffectSettings,
                ParseError,
            >(e),
        decreases attributes.len() - i,
    {
        let r = apply_effect_attribute(e, &attributes[i]);
        proof {
            lemma_apply_next(fresh_effect(), attrs, step, i as int);
            assert(attrs[i as int] == attributes@[i as int].view());
        }
        match r {
            Ok(w) => e = w,
            Err(err) => {
                proof {
                    lemma_error_persists(fresh_effect(), attrs, step, i + 1);
                }
                return Err(err);
            },
        }
        i = i + 1;
    }
    proof {
        assert(attrs.take(i as int) =~= attrs);
    }
    Ok(MegaphoneEffect::from_settings(e))
}

/// The six preset slots of an effect.
#[derive(Debug, Clone, Copy, PartialEq, Eq, Structural)]
pub enum Preset {
    Preset1,
    Preset2,
    Preset3,
    Preset4,
    Preset5,
    Preset6,
}

impl Preset {
    /// Position of the slot, from zero.
    pub open spec fn spec_index(self) -> nat {
        match self {
            Preset::Preset1 => 0,
            Preset::Preset2 => 1,
            Preset::Preset3 => 2,
            Preset::Preset4 => 3,
            Preset::Preset5 => 4,
            Preset::Preset6 => 5,
        }
    }

    /// The suffix that names the slot's element.
    pub open spec fn spec_tag_suffix(self) -> Seq<char> {
        match self {
            Preset::Preset1 => "preset1"@,
            Preset::Preset2 => "preset2"@,
            Preset::Preset3 => "preset3"@,
            Preset::Preset4 => "preset4"@,
            Preset::Preset5 => "preset5"@,
            Preset::Preset6 => "preset6"@,
        }
    }

    pub open spec fn spec_from_index(i: int) -> Preset {
        if i == 0 {
            Preset::Preset1
        } else if i == 1 {
            Preset::Preset2
        } else if i == 2 {
            Preset::Preset3
        } else if i == 3 {
            Preset::Preset4
        } else if i == 4 {
            Preset::Preset5
        } else {
            Preset::Preset6
        }
    }

    pub fn index(&self) -> (r: usize)
        ensures
            r == self.spec_index(),
    {
        match self {
            Preset::Preset1 => 0,
            Preset::Preset2 => 1,
            Preset::Preset3 => 2,
            Preset::Preset4 => 3,
            Preset::Preset5 => 4,
            Preset::Preset6 => 5,
        }
    }

    pub fn from_index(i: usize) -> (r: Preset)
        requires
            i < 6,
        ensures
            r == Self::spec_from_index(i as int),
            r.spec_index() == i,
    {
        if i == 0 {
            Preset::Preset1
        } else if i == 1 {
            Preset::Preset2
        } else if i == 2 {
            Preset::Preset3
        } else if i == 3 {
            Preset::Preset4
        } else if i == 4 {
            Preset::Preset5
        } else {
            Preset::Preset6
        }
    }

    pub fn tag_suffix(&self) -> (r: &'static str)
        ensures
            r@ == self.spec_tag_suffix(),
    {
        match self {
            Preset::Preset1 => "preset1",
            Preset::Preset2 => "preset2",
            Preset::Preset3 => "preset3",
            Preset::Preset4 => "preset4",
            Preset::Preset5 => "preset5",
            Preset::Preset6 => "preset6",
        }
    }
}

/// An element to be written: its tag and its attributes.
pub struct Element {
    pub name: String,
    pub attributes: Vec<Attribute>,
}

/// The tag of the element that holds slot `i`.
pub open spec fn slot_tag(i: int) -> Seq<char> {
    "megaphoneEffect"@ + Preset::spec_from_index(i).spec_tag_suffix()
}

/// The megaphone effect of a profile: its element name and its six slots.
#[derive(Debug)]
pub struct MegaphoneEffectBase {
    element_name: String,
    presets: Vec<MegaphoneEffect>,
}

impl MegaphoneEffectBase {
    /// The slots, in order.
    pub closed spec fn slots(&self) -> Seq<EffectSettings> {
        self.presets@.map_values(|e: MegaphoneEffect| e@)
    }

    pub closed spec fn spec_element_name(&self) -> Seq<char> {
        self.element_name@
    }

    /// Every slot is present.
    pub open spec fn wf(&self) -> bool {
        self.slots().len() == 6
    }

    /// Six fresh slots.
    pub fn new(element_name: String) -> (r: MegaphoneEffectBase)
        ensures
            r.wf(),
            forall|i: int| 0 <= i < 6 ==> r.slots()[i] == fresh_effect(),
            r.spec_element_name() == element_name@,
    {
        let mut presets: Vec<MegaphoneEffect> = Vec::new();
        let mut i: usize = 0;
        while i < 6
            invariant
                i <= 6,
                presets@.len() == i,
                forall|j: int| 0 <= j < i ==> presets@[j]@ == fresh_effect(),
            decreases 6 - i,
        {
            presets.push(MegaphoneEffect::new());
            i = i + 1;
        }
        MegaphoneEffectBase { element_name, presets }
    }

    pub fn element_name(&self) -> (r: &str)
        ensures
            r@ == self.spec_element_name(),
    {
        self.element_name.as_str()
    }

    /// Reads the slot numbered `id` (from one to six) afresh from its
    /// attributes. Other ids are read and then dropped. A failed read leaves
    /// every slot as it was.
    pub fn parse_megaphone_preset(&mut self, id: u8, attributes: &Vec<Attribute>) -> (r: Result<
        (),
        ParseError,
    >)
        requires
            old(self).wf(),
        ensures
            final(self).wf(),
            final(self).spec_element_name() == old(self).spec_element_name(),
            match parse_effect_spec(attrs_view(attributes@)) {
                Ok(e) => r is Ok && final(self).slots() == if 1 <= id <= 6 {
                    old(self).slots().update(id - 1, e)
                } else {
                    old(self).slots()
                },
                Err(err) => r == Err::<(), ParseError>(err) && final(self).slots() == old(
                    self,
                ).slots(),
            },
    {
        let effect = parse_effect(attributes)?;
        if 1 <= id && id <= 6 {
            let ghost e = effect@;
            self.presets.set((id - 1) as usize, effect);
            proof {
                assert(self.slots() =~= old(self).slots().update(id - 1, e));
            }
        }
        Ok(())
    }

    /// The six slot elements, in slot order, each with all of its slot's
    /// attributes, whether or not the slot was ever read.
    pub fn write_megaphone(&self) -> (r: Vec<Element>)
        requires
            self.wf(),
        ensures
            r@.len() == 6,
            forall|i: int|
                0 <= i < 6 ==> #[trigger] r@[i].name@ == slot_tag(i) && attrs_view(
                    r@[i].attributes@,
                ) == effect_attributes(self.slots()[i]),
    {
        let mut r: Vec<Element> = Vec::new();
        let mut i: usize = 0;
        while i < 6
            invariant
                i <= 6,
                self.wf(),
                r@.len() == i,
                forall|j: int|
                    0 <= j < i ==> #[trigger] r@[j].name@ == slot_tag(j) && attrs_view(
                        r@[j].attributes@,
                    ) == effect_attributes(self.slots()[j]),
            decreases 6 - i,
        {
            let preset = Preset::from_index(i);
            let mut name = String::from_str("megaphoneEffect");
            name.append(preset.tag_suffix());
            let attributes = write_effect(&self.presets[i]);
            proof {
                assert(self.slots()[i as int] == self.presets@[i as int]@);
            }
            r.push(Element { name, attributes });
            i = i + 1;
        }
        r
    }

    pub fn get_preset(&self, preset: Preset) -> (r: &MegaphoneEffect)
        requires
            self.wf(),
        ensures
            r@ == self.slots()[preset.spec_index() as int],
    {
        &self.presets[preset.index()]
    }

    /// The slot itself, for changing it in place.
    pub fn get_preset_mut(&mut self, preset: Preset) -> (r: &mut MegaphoneEffect)
        requires
            old(self).wf(),
        ensures
            r@ == old(self).slots()[preset.spec_index() as int],
            final(self).slots() == old(self).slots().update(preset.spec_index() as int, final(r)@),
            final(self).spec_element_name() == old(self).spec_element_name(),
    {
        &mut self.presets[preset.index()]
    }

    /// Replaces one slot.
    pub fn set_preset(&mut self, preset: Preset, effect: MegaphoneEffect)
        requires
            old(self).wf(),
        ensures
            final(self).wf(),
            final(self).slots() == old(self).slots().update(preset.spec_index() as int, effect@),
            final(self).spec_element_name() == old(self).spec_element_name(),
    {
        let ghost e = effect@;
        self.presets.set(preset.index(), effect);
        proof {
            assert(self.slots() =~= old(self).slots().update(preset.spec_index() as int, e));
        }
    }
}

} // verus!
