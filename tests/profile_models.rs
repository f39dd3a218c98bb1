use profile::animation::{AnimationMode, AnimationTree, WaterfallDirection};
use profile::attribute::Attribute;
use profile::codec::{
    format_milli, format_signed, format_unsigned, parse_byte, parse_index, parse_milli,
    parse_signed_byte, str_eq, ParseError, SettingError,
};
use profile::equalizer::Equalizer;
use profile::megaphone::{
    parse_effect, write_effect, MegaphoneEffect, MegaphoneEffectBase, MegaphonePreset,
    MegaphoneStyle, Preset,
};

fn attr(name: &str, value: &str) -> Attribute {
    Attribute {
        name: name.to_string(),
        value: value.to_string(),
    }
}

fn value_of<'a>(attrs: &'a [Attribute], name: &str) -> &'a str {
    attrs
        .iter()
        .find(|a| a.name == name)
        .map(|a| a.value.as_str())
        .unwrap()
}

#[test]
fn byte_reads_float_text() {
    assert_eq!(parse_byte("39.0"), Ok(39));
    assert_eq!(parse_byte("5.00000"), Ok(5));
    assert_eq!(parse_byte("7"), Ok(7));
    assert_eq!(parse_byte("+12.9"), Ok(12));
    assert_eq!(parse_byte(".5"), Ok(0));
    assert_eq!(parse_byte("3."), Ok(3));
}

#[test]
fn byte_saturates() {
    assert_eq!(parse_byte("300"), Ok(255));
    assert_eq!(parse_byte("-5"), Ok(0));
    assert_eq!(parse_byte("99999999999999999999999999"), Ok(255));
}

#[test]
fn byte_rejects_malformed_text() {
    assert_eq!(parse_byte(""), Err(ParseError::ExpectedFloat));
    assert_eq!(parse_byte("abc"), Err(ParseError::ExpectedFloat));
    assert_eq!(parse_byte("."), Err(ParseError::ExpectedFloat));
    assert_eq!(parse_byte("-"), Err(ParseError::ExpectedFloat));
    assert_eq!(parse_byte("1.2.3"), Err(ParseError::ExpectedFloat));
    assert_eq!(parse_byte("12a"), Err(ParseError::ExpectedFloat));
}

#[test]
fn signed_byte_truncates_toward_zero() {
    assert_eq!(parse_signed_byte("-5.7"), Ok(-5));
    assert_eq!(parse_signed_byte("-0.5"), Ok(0));
    assert_eq!(parse_signed_byte("2.0"), Ok(2));
    assert_eq!(parse_signed_byte("-200"), Ok(-128));
    assert_eq!(parse_signed_byte("200"), Ok(127));
    assert_eq!(parse_signed_byte("x"), Err(ParseError::ExpectedFloat));
}

#[test]
fn index_parse() {
    assert_eq!(parse_index("3"), Ok(3));
    assert_eq!(parse_index("+4"), Ok(4));
    assert_eq!(parse_index("99"), Ok(99));
    assert_eq!(parse_index("3.0"), Err(ParseError::ExpectedInt));
    assert_eq!(parse_index("-1"), Err(ParseError::ExpectedInt));
    assert_eq!(parse_index(""), Err(ParseError::ExpectedInt));
    assert_eq!(
        parse_index("99999999999999999999999"),
        Err(ParseError::ExpectedInt)
    );
}

#[test]
fn milli_parse_and_format() {
    assert_eq!(parse_milli("31.5"), Ok(31500));
    assert_eq!(parse_milli("1000"), Ok(1_000_000));
    assert_eq!(parse_milli("0.0015"), Ok(1));
    assert_eq!(parse_milli("-3"), Err(ParseError::ExpectedFloat));
    assert_eq!(parse_milli("5000000"), Err(ParseError::ExpectedFloat));
    assert_eq!(format_milli(31500), "31.5");
    assert_eq!(format_milli(1_000_000), "1000");
    assert_eq!(format_milli(1), "0.001");
    assert_eq!(format_milli(12340), "12.34");
}

#[test]
fn integer_formatting() {
    assert_eq!(format_unsigned(0), "0");
    assert_eq!(format_unsigned(255), "255");
    assert_eq!(format_unsigned(1234567890), "1234567890");
    assert_eq!(format_signed(-20), "-20");
    assert_eq!(format_signed(-128), "-128");
    assert_eq!(format_signed(7), "7");
}

#[test]
fn text_equality() {
    assert!(str_eq("mod1", "mod1"));
    assert!(!str_eq("mod1", "mod2"));
    assert!(!str_eq("mod", "mod1"));
}

#[test]
fn animation_defaults() {
    let tree = AnimationTree::new("animationTree".to_string());
    assert_eq!(tree.mode(), AnimationMode::Disabled);
    assert_eq!(tree.mod1(), 0);
    assert_eq!(tree.mod2(), 0);
    assert_eq!(tree.waterfall(), WaterfallDirection::Down);
    assert_eq!(tree.element_name(), "animationTree");
}

#[test]
fn animation_parse_reads_ordinals_and_floats() {
    let mut tree = AnimationTree::new("animationTree".to_string());
    let attrs = vec![
        attr("animationMode", "3"),
        attr("mod1", "39.0"),
        attr("mod2", "41.0"),
        attr("mod3", "1"),
        attr("somethingElse", "x"),
    ];
    assert_eq!(tree.parse_animation(&attrs), Ok(()));
    assert_eq!(tree.mode(), AnimationMode::Simple);
    assert_eq!(tree.mod1(), 39);
    assert_eq!(tree.mod2(), 41);
    assert_eq!(tree.waterfall(), WaterfallDirection::Up);
}

#[test]
fn animation_out_of_range_ordinal_keeps_mode() {
    let mut tree = AnimationTree::new("animationTree".to_string());
    tree.parse_animation(&vec![attr("animationMode", "1")]).unwrap();
    assert_eq!(tree.mode(), AnimationMode::RainbowDark);
    assert_eq!(tree.parse_animation(&vec![attr("animationMode", "99")]), Ok(()));
    assert_eq!(tree.mode(), AnimationMode::RainbowDark);
    assert_eq!(tree.parse_animation(&vec![attr("mod3", "7")]), Ok(()));
    assert_eq!(tree.waterfall(), WaterfallDirection::Down);
}

#[test]
fn animation_malformed_value_fails_and_keeps_state() {
    let mut tree = AnimationTree::new("animationTree".to_string());
    let attrs = vec![attr("mod1", "10"), attr("mod2", "ten")];
    assert_eq!(tree.parse_animation(&attrs), Err(ParseError::ExpectedFloat));
    assert_eq!(tree.mod1(), 0);
    let attrs = vec![attr("animationMode", "2.0")];
    assert_eq!(tree.parse_animation(&attrs), Err(ParseError::ExpectedInt));
    assert_eq!(tree.mode(), AnimationMode::Disabled);
}

#[test]
fn animation_write_then_parse() {
    let mut tree = AnimationTree::new("animationTree".to_string());
    tree.set_mode(AnimationMode::RainbowBright).unwrap();
    tree.set_mod1(39).unwrap();
    tree.set_mod2(77).unwrap();
    tree.set_waterfall(WaterfallDirection::Off).unwrap();
    let written = tree.write_animation();
    assert_eq!(written.len(), 4);
    assert_eq!(value_of(&written, "animationMode"), "2");
    assert_eq!(value_of(&written, "mod1"), "39");
    assert_eq!(value_of(&written, "mod2"), "77");
    assert_eq!(value_of(&written, "mod3"), "2");
    let mut again = AnimationTree::new("animationTree".to_string());
    again.parse_animation(&written).unwrap();
    assert_eq!(again.mode(), AnimationMode::RainbowBright);
    assert_eq!(again.mod1(), 39);
    assert_eq!(again.mod2(), 77);
    assert_eq!(again.waterfall(), WaterfallDirection::Off);
}

#[test]
fn set_mod1_range() {
    let mut tree = AnimationTree::new("a".to_string());
    assert_eq!(tree.set_mod1(100), Ok(()));
    assert_eq!(tree.mod1(), 100);
    assert_eq!(tree.set_mod1(0), Ok(()));
    assert_eq!(tree.set_mod1(101), Err(SettingError::OutOfRange));
    assert_eq!(tree.mod1(), 0);
}

#[test]
fn set_mod2_needs_rainbow_mode() {
    let mut tree = AnimationTree::new("a".to_string());
    for mode in [
        AnimationMode::RetroRainbow,
        AnimationMode::Simple,
        AnimationMode::Ripple,
        AnimationMode::Disabled,
    ] {
        tree.set_mode(mode).unwrap();
        assert_eq!(tree.set_mod2(50), Err(SettingError::UnavailableInMode));
        assert_eq!(tree.set_mod2(0), Err(SettingError::UnavailableInMode));
        assert_eq!(tree.mod2(), 0);
    }
    tree.set_mode(AnimationMode::RainbowDark).unwrap();
    assert_eq!(tree.set_mod2(50), Ok(()));
    assert_eq!(tree.set_mod2(101), Err(SettingError::OutOfRange));
    assert_eq!(tree.mod2(), 50);
}

#[test]
fn set_waterfall_unavailable_modes() {
    let mut tree = AnimationTree::new("a".to_string());
    for mode in [AnimationMode::RetroRainbow, AnimationMode::Disabled] {
        tree.set_mode(mode).unwrap();
        assert_eq!(
            tree.set_waterfall(WaterfallDirection::Up),
            Err(SettingError::UnavailableInMode)
        );
        assert_eq!(tree.waterfall(), WaterfallDirection::Down);
    }
    tree.set_mode(AnimationMode::Ripple).unwrap();
    assert_eq!(tree.set_waterfall(WaterfallDirection::Up), Ok(()));
    assert_eq!(tree.waterfall(), WaterfallDirection::Up);
}

#[test]
fn ordinals_match_declaration_order() {
    assert_eq!(AnimationMode::RetroRainbow.ordinal(), 0);
    assert_eq!(AnimationMode::Disabled.ordinal(), 5);
    assert_eq!(AnimationMode::from_ordinal(4), Some(AnimationMode::Ripple));
    assert_eq!(AnimationMode::from_ordinal(6), None);
    assert_eq!(WaterfallDirection::from_ordinal(2), Some(WaterfallDirection::Off));
    assert_eq!(WaterfallDirection::from_ordinal(3), None);
    assert_eq!(AnimationMode::default(), AnimationMode::Disabled);
    assert_eq!(WaterfallDirection::default(), WaterfallDirection::Down);
}

#[test]
fn set_style_radio_derives_preset() {
    let mut effect = MegaphoneEffect::new();
    assert_eq!(effect.set_style(MegaphoneStyle::Radio), Ok(()));
    assert_eq!(*effect.style(), MegaphoneStyle::Radio);
    assert_eq!(effect.trans_dist_amt(), 30);
    assert_eq!(effect.trans_hp(), 110);
    assert_eq!(effect.trans_lp(), 190);
    assert_eq!(effect.trans_pregain(), 0);
    assert_eq!(effect.trans_postgain(), 2);
    assert_eq!(effect.trans_dist_type(), 4);
    assert_eq!(effect.trans_presence_gain(), 7);
    assert_eq!(effect.trans_presence_fc(), 160);
    assert_eq!(effect.trans_presence_bw(), 5);
    assert!(!effect.trans_beatbox_enabled());
    assert_eq!(effect.trans_filter_control(), 1);
    assert_eq!(effect.trans_filter(), 59);
    assert_eq!(effect.trans_drive_pot_gain_comp_mid(), 0);
    assert_eq!(effect.trans_drive_pot_gain_comp_max(), 5);
    assert!(!effect.state());
}

#[test]
fn set_style_replaces_every_parameter() {
    let mut effect = MegaphoneEffect::new();
    effect.set_style(MegaphoneStyle::Overdrive).unwrap();
    assert_eq!(effect.trans_drive_pot_gain_comp_max(), 25);
    effect.set_style(MegaphoneStyle::Tweed).unwrap();
    let tweed = MegaphonePreset::get_preset(MegaphoneStyle::Tweed);
    assert_eq!(effect.trans_pregain(), 10);
    assert_eq!(effect.trans_hp(), tweed.trans_hp);
    assert_eq!(effect.trans_drive_pot_gain_comp_max(), 4);
    assert_eq!(effect.trans_drive_pot_gain_comp_mid(), 3);
}

#[test]
fn effect_range_setters() {
    let mut effect = MegaphoneEffect::new();
    assert_eq!(effect.set_trans_dist_amt(100), Ok(()));
    assert_eq!(effect.set_trans_dist_amt(101), Err(SettingError::OutOfRange));
    assert_eq!(effect.trans_dist_amt(), 100);
    assert_eq!(effect.set_trans_postgain(-20), Ok(()));
    assert_eq!(effect.set_trans_postgain(21), Err(SettingError::OutOfRange));
    assert_eq!(effect.set_trans_postgain(-21), Err(SettingError::OutOfRange));
    assert_eq!(effect.trans_postgain(), -20);
    effect.set_state(true);
    assert!(effect.state());
}

#[test]
fn style_ui_index() {
    assert_eq!(MegaphoneStyle::Tweed.ui_index(), "5");
    assert_eq!(MegaphoneStyle::from_ui_index("2"), Some(MegaphoneStyle::OnThePhone));
    assert_eq!(MegaphoneStyle::from_ui_index("9"), None);
    assert_eq!(MegaphoneStyle::default(), MegaphoneStyle::Megaphone);
}

#[test]
fn effect_parse_reads_every_field() {
    let attrs = vec![
        attr("megaphoneEffectstate", "1"),
        attr("MEGAPHONE_STYLE", "3"),
        attr("TRANS_DIST_AMT", "50.000000"),
        attr("TRANS_HP", "50"),
        attr("TRANS_LP", "238"),
        attr("TRANS_PREGAIN", "0"),
        attr("TRANS_POSTGAIN", "-4.0"),
        attr("TRANS_DIST_TYPE", "1"),
        attr("TRANS_PRESENCE_GAIN", "0"),
        attr("TRANS_PRESENCE_FC", "168"),
        attr("TRANS_PRESENCE_BW", "8"),
        attr("TRANS_BEATBOX_ENABLE", "2"),
        attr("TRANS_FILTER_CONTROL", "1"),
        attr("TRANS_FILTER", "100"),
        attr("TRANS_DRIVE_POT_GAIN_COMP_MID", "1"),
        attr("TRANS_DRIVE_POT_GAIN_COMP_MAX", "25"),
        attr("UNKNOWN", "1"),
    ];
    let effect = parse_effect(&attrs).unwrap();
    assert!(effect.state());
    assert_eq!(*effect.style(), MegaphoneStyle::Overdrive);
    assert_eq!(effect.trans_dist_amt(), 50);
    assert_eq!(effect.trans_lp(), 238);
    assert_eq!(effect.trans_postgain(), -4);
    assert!(effect.trans_beatbox_enabled());
    assert_eq!(effect.trans_drive_pot_gain_comp_max(), 25);
    let written = write_effect(&effect);
    assert_eq!(written.len(), 16);
    assert_eq!(value_of(&written, "megaphoneEffectstate"), "1");
    assert_eq!(value_of(&written, "MEGAPHONE_STYLE"), "3");
    assert_eq!(value_of(&written, "TRANS_POSTGAIN"), "-4");
    assert_eq!(value_of(&written, "TRANS_BEATBOX_ENABLE"), "1");
    assert_eq!(value_of(&written, "TRANS_FILTER"), "100");
}

#[test]
fn effect_parse_unknown_style_and_flags() {
    let attrs = vec![
        attr("megaphoneEffectstate", "true"),
        attr("MEGAPHONE_STYLE", "7"),
        attr("TRANS_BEATBOX_ENABLE", "0"),
    ];
    let effect = parse_effect(&attrs).unwrap();
    assert!(!effect.state());
    assert_eq!(*effect.style(), MegaphoneStyle::Megaphone);
    assert!(!effect.trans_beatbox_enabled());
    let bad = vec![attr("TRANS_HP", "high")];
    assert_eq!(parse_effect(&bad).err(), Some(ParseError::ExpectedFloat));
}

#[test]
fn megaphone_writes_six_slots_when_two_parsed() {
    let mut base = MegaphoneEffectBase::new("megaphoneEffect".to_string());
    base.parse_megaphone_preset(1, &vec![attr("TRANS_HP", "110"), attr("megaphoneEffectstate", "1")])
        .unwrap();
    base.parse_megaphone_preset(4, &vec![attr("MEGAPHONE_STYLE", "5")]).unwrap();
    let elements = base.write_megaphone();
    assert_eq!(elements.len(), 6);
    assert_eq!(elements[0].name, "megaphoneEffectpreset1");
    assert_eq!(elements[5].name, "megaphoneEffectpreset6");
    assert_eq!(value_of(&elements[0].attributes, "TRANS_HP"), "110");
    assert_eq!(value_of(&elements[0].attributes, "megaphoneEffectstate"), "1");
    assert_eq!(value_of(&elements[3].attributes, "MEGAPHONE_STYLE"), "5");
    for i in [1usize, 2, 4, 5] {
        let e = &elements[i];
        assert_eq!(e.attributes.len(), 16);
        assert_eq!(value_of(&e.attributes, "megaphoneEffectstate"), "0");
        assert_eq!(value_of(&e.attributes, "MEGAPHONE_STYLE"), "0");
        assert_eq!(value_of(&e.attributes, "TRANS_HP"), "0");
    }
}

#[test]
fn megaphone_slot_ids_outside_range_dropped() {
    let mut base = MegaphoneEffectBase::new("megaphoneEffect".to_string());
    assert_eq!(base.parse_megaphone_preset(7, &vec![attr("TRANS_HP", "9")]), Ok(()));
    assert_eq!(base.parse_megaphone_preset(0, &vec![attr("TRANS_HP", "9")]), Ok(()));
    for p in [
        Preset::Preset1,
        Preset::Preset2,
        Preset::Preset3,
        Preset::Preset4,
        Preset::Preset5,
        Preset::Preset6,
    ] {
        assert_eq!(base.get_preset(p).trans_hp(), 0);
    }
    assert_eq!(
        base.parse_megaphone_preset(2, &vec![attr("TRANS_HP", "nine")]),
        Err(ParseError::ExpectedFloat)
    );
    assert_eq!(base.get_preset(Preset::Preset2).trans_hp(), 0);
}

#[test]
fn megaphone_parse_replaces_slot_without_merge() {
    let mut base = MegaphoneEffectBase::new("megaphoneEffect".to_string());
    base.parse_megaphone_preset(3, &vec![attr("TRANS_HP", "10"), attr("TRANS_LP", "20")])
        .unwrap();
    base.parse_megaphone_preset(3, &vec![attr("TRANS_LP", "30")]).unwrap();
    assert_eq!(base.get_preset(Preset::Preset3).trans_hp(), 0);
    assert_eq!(base.get_preset(Preset::Preset3).trans_lp(), 30);
    let mut effect = MegaphoneEffect::new();
    effect.set_style(MegaphoneStyle::BuzzCutt).unwrap();
    base.set_preset(Preset::Preset6, effect);
    assert_eq!(base.get_preset(Preset::Preset6).trans_presence_fc(), 174);
    assert_eq!(base.element_name(), "megaphoneEffect");
}

#[test]
fn equalizer_defaults() {
    let eq = Equalizer::new();
    assert_eq!(eq.eq_31h_freq(), 31500);
    assert_eq!(eq.eq_63h_freq(), 63000);
    assert_eq!(eq.eq_1k_freq(), 1_000_000);
    assert_eq!(eq.eq_16k_freq(), 16_000_000);
    assert_eq!(eq.eq_8k_gain(), 0);
}

#[test]
fn equalizer_parse_and_write() {
    let mut eq = Equalizer::default();
    let attrs = vec![
        attr("MIC_EQ_31.5HZ_GAIN", "-3.0"),
        attr("MIC_EQ_16KHZ_GAIN", "9"),
        attr("MIC_EQ_500HZ_F", "480.25"),
        attr("MIC_EQ_8KHZ_F", "8200"),
        attr("IGNORED", "x"),
    ];
    assert_eq!(eq.parse_equaliser(&attrs), Ok(()));
    assert_eq!(eq.eq_31h_gain(), -3);
    assert_eq!(eq.eq_16k_gain(), 9);
    assert_eq!(eq.eq_500h_freq(), 480250);
    assert_eq!(eq.eq_8k_freq(), 8_200_000);
    let written = eq.write_equaliser();
    assert_eq!(written.len(), 20);
    assert_eq!(value_of(&written, "MIC_EQ_31.5HZ_GAIN"), "-3");
    assert_eq!(value_of(&written, "MIC_EQ_31.5HZ_F"), "31.5");
    assert_eq!(value_of(&written, "MIC_EQ_500HZ_F"), "480.25");
    let mut again = Equalizer::new();
    again.parse_equaliser(&written).unwrap();
    assert_eq!(again.eq_500h_freq(), 480250);
    assert_eq!(again.eq_31h_gain(), -3);
    assert_eq!(again.eq_31h_freq(), 31500);
}

#[test]
fn equalizer_setters_and_errors() {
    let mut eq = Equalizer::new();
    eq.set_eq_2k_gain(-9);
    eq.set_eq_4k_freq(4100000);
    assert_eq!(eq.eq_2k_gain(), -9);
    assert_eq!(eq.eq_4k_freq(), 4100000);
    assert_eq!(
        eq.parse_equaliser(&vec![attr("MIC_EQ_1KHZ_GAIN", "3"), attr("MIC_EQ_2KHZ_F", "fast")]),
        Err(ParseError::ExpectedFloat)
    );
    assert_eq!(eq.eq_1k_gain(), 0);
    assert_eq!(eq.eq_2k_freq(), 2_000_000);
}

#[test]
fn megaphone_slot_changed_in_place() {
    let mut base = MegaphoneEffectBase::new("megaphoneEffect".to_string());
    base.get_preset_mut(Preset::Preset2)
        .set_style(MegaphoneStyle::Radio)
        .unwrap();
    assert_eq!(base.get_preset(Preset::Preset2).trans_hp(), 110);
    assert_eq!(base.get_preset(Preset::Preset1).trans_hp(), 0);
    let elements = base.write_megaphone();
    assert_eq!(value_of(&elements[1].attributes, "MEGAPHONE_STYLE"), "1");
    assert_eq!(value_of(&elements[1].attributes, "TRANS_POSTGAIN"), "2");
}
