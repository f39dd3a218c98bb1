//! The microphone equaliser: a gain and a centre frequency for each of ten bands.
//!
//! Frequencies are held in millihertz, so that the text a document carries
//! ("31.5") is read and written exactly; the device's register value for a
//! frequency is a logarithm, which callers compute from this value.
use vstd::prelude::*;

use crate::attribute::{
    apply_attributes, attrs_view, lemma_apply_next, lemma_error_persists, AttrView, Attribute,
};
use crate::codec::{
    format_milli, format_signed, lemma_milli_round_trip, lemma_signed_byte_round_trip,
    milli_decimal, parse_milli, parse_signed_byte, signed_decimal, spec_parse_milli,
    spec_parse_signed_byte, str_eq, ParseError,
};

verus! {

/// Number of equaliser bands.
pub const BAND_COUNT: usize = 10;

/// The attribute name of band `b`'s gain.
pub open spec fn gain_key(b: int) -> Seq<char> {
    if b == 0 {
        "MIC_EQ_31.5HZ_GAIN"@
    } else if b == 1 {
        "MIC_EQ_63HZ_GAIN"@
    } else if b == 2 {
        "MIC_EQ_125HZ_GAIN"@
    } else if b == 3 {
        "MIC_EQ_250HZ_GAIN"@
    } else if b == 4 {
        "MIC_EQ_500HZ_GAIN"@
    } else if b == 5 {
        "MIC_EQ_1KHZ_GAIN"@
    } else if b == 6 {
        "MIC_EQ_2KHZ_GAIN"@
    } else if b == 7 {
        "MIC_EQ_4KHZ_GAIN"@
    } else if b == 8 {
        "MIC_EQ_8KHZ_GAIN"@
    } else {
        "MIC_EQ_16KHZ_GAIN"@
    }
}

/// The attribute name of band `b`'s frequency.
pub open spec fn freq_key(b: int) -> Seq<char> {
    if b == 0 {
        "MIC_EQ_31.5HZ_F"@
    } else if b == 1 {
        "MIC_EQ_63HZ_F"@
    } else if b == 2 {
        "MIC_EQ_125HZ_F"@
    } else if b == 3 {
        "MIC_EQ_250HZ_F"@
    } else if b == 4 {
        "MIC_EQ_500HZ_F"@
    } else if b == 5 {
        "MIC_EQ_1KHZ_F"@
    } else if b == 6 {
        "MIC_EQ_2KHZ_F"@
    } else if b == 7 {
        "MIC_EQ_4KHZ_F"@
    } else if b == 8 {
        "MIC_EQ_8KHZ_F"@
    } else {
        "MIC_EQ_16KHZ_F"@
    }
}

/// The first band from `b` on whose key (gain or frequency, as `gain` says) is `name`, or -1.
pub open spec fn find_band(name: Seq<char>, gain: bool, b: int) -> int
    decreases 10 - b,
{
    if b >= 10 || b < 0 {
        -1
    } else if (if gain {
        gain_key(b)
    } else {
        freq_key(b)
    }) == name {
        b
    } else {
        find_band(name, gain, b + 1)
    }
}

/// The default centre frequency of band `b`, in millihertz.
pub open spec fn default_freq(b: int) -> u32 {
    if b == 0 {
        31500
    } else if b == 1 {
        63000
    } else if b == 2 {
        125000
    } else if b == 3 {
        250000
    } else if b == 4 {
        500000
    } else if b == 5 {
        1000000
    } else if b == 6 {
        2000000
    } else if b == 7 {
        4000000
    } else if b == 8 {
        8000000
    } else {
        16000000
    }
}

/// Gains and frequencies (in millihertz) of the ten bands, lowest band first.
pub struct EqualizerSettings {
    pub gains: Seq<i8>,
    pub freqs: Seq<u32>,
}

/// The effect of one attribute on the equaliser.
pub open spec fn equalizer_step(v: EqualizerSettings, a: AttrView) -> Result<
    EqualizerSettings,
    ParseError,
> {
    let g = find_band(a.0, true, 0);
    let f = find_band(a.0, false, 0);
    if g >= 0 {
        match spec_parse_signed_byte(a.1) {
            Ok(x) => Ok(EqualizerSettings { gains: v.gains.update(g, x), ..v }),
            Err(e) => Err(e),
        }
    } else if f >= 0 {
        match spec_parse_milli(a.1) {
            Ok(m) => Ok(EqualizerSettings { freqs: v.freqs.update(f, m), ..v }),
            Err(e) => Err(e),
        }
    } else {
        Ok(v)
    }
}

/// The equaliser after reading `attrs` in order, starting from `v`.
pub open spec fn parse_equalizer_spec(v: EqualizerSettings, attrs: Seq<AttrView>) -> Result<
    EqualizerSettings,
    ParseError,
> {
    apply_attributes(v, attrs, |s: EqualizerSettings, a: AttrView| equalizer_step(s, a))
}

/// The attributes the equaliser is written with: the ten gains, then the ten frequencies.
pub open spec fn equalizer_attributes(v: EqualizerSettings) -> Seq<AttrView> {
    Seq::new(
        20,
        |i: int|
            if i < 10 {
                (gain_key(i), signed_decimal(v.gains[i] as int))
            } else {
                (freq_key(i - 10), milli_decimal(v.freqs[i - 10] as nat))
            },
    )
}

fn gain_key_str(b: usize) -> (r: &'static str)
    requires
        b < 10,
    ensures
        r@ == gain_key(b as int),
{
    if b == 0 {
        "MIC_EQ_31.5HZ_GAIN"
    } else if b == 1 {
        "MIC_EQ_63HZ_GAIN"
    } else if b == 2 {
        "MIC_EQ_125HZ_GAIN"
    } else if b == 3 {
        "MIC_EQ_250HZ_GAIN"
    } else if b == 4 {
        "MIC_EQ_500HZ_GAIN"
    } else if b == 5 {
        "MIC_EQ_1KHZ_GAIN"
    } else if b == 6 {
        "MIC_EQ_2KHZ_GAIN"
    } else if b == 7 {
        "MIC_EQ_4KHZ_GAIN"
    } else if b == 8 {
        "MIC_EQ_8KHZ_GAIN"
    } else {
        "MIC_EQ_16KHZ_GAIN"
    }
}

fn freq_key_str(b: usize) -> (r: &'static str)
    requires
        b < 10,
    ensures
        r@ == freq_key(b as int),
{
    if b == 0 {
        "MIC_EQ_31.5HZ_F"
    } else if b == 1 {
        "MIC_EQ_63HZ_F"
    } else if b == 2 {
        "MIC_EQ_125HZ_F"
    } else if b == 3 {
        "MIC_EQ_250HZ_F"
    } else if b == 4 {
        "MIC_EQ_500HZ_F"
    } else if b == 5 {
        "MIC_EQ_1KHZ_F"
    } else if b == 6 {
        "MIC_EQ_2KHZ_F"
    } else if b == 7 {
        "MIC_EQ_4KHZ_F"
    } else if b == 8 {
        "MIC_EQ_8KHZ_F"
    } else {
        "MIC_EQ_16KHZ_F"
    }
}

/// The band whose gain (or frequency) key is `name`, if any.
fn band_of(name: &str, gain: bool) -> (r: Option<usize>)
    ensures
        match r {
            Some(b) => b < 10 && find_band(name@, gain, 0) == b,
            None => find_band(name@, gain, 0) == -1,
        },
{
    let mut b: usize = 0;
    while b < BAND_COUNT
        invariant
            b <= 10,
            find_band(name@, gain, 0) == find_band(name@, gain, b as int),
        decreases 10 - b,
    {
        let key = if gain {
            gain_key_str(b)
        } else {
            freq_key_str(b)
        };
        if str_eq(name, key) {
            return Some(b);
        }
        b = b + 1;
    }
    None
}

/// The microphone equaliser of a profile.
#[derive(Debug)]
pub struct Equalizer {
    gains: Vec<i8>,
    freqs: Vec<u32>,
}

impl View for Equalizer {
    type V = EqualizerSettings;

    closed spec fn view(&self) -> EqualizerSettings {
        EqualizerSettings { gains: self.gains@, freqs: self.freqs@ }
    }
}

fn apply_equalizer_attribute(gains: &mut Vec<i8>, freqs: &mut Vec<u32>, a: &Attribute) -> (r:
    Result<(), ParseError>)
    requires
        old(gains)@.len() == 10,
        old(freqs)@.len() == 10,
    ensures
        final(gains)@.len() == 10,
        final(freqs)@.len() == 10,
        match equalizer_step(EqualizerSettings { gains: old(gains)@, freqs: old(freqs)@ }, a.view()) {
            Ok(v) => r is Ok && final(gains)@ == v.gains && final(freqs)@ == v.freqs,
            Err(e) => r == Err::<(), ParseError>(e),
        },
{
    let name = a.name.as_str();
    let value = a.value.as_str();
    match band_of(name, true) {
        Some(b) => {
            let x = parse_signed_byte(value)?;
            gains.set(b, x);
            Ok(())
        },
        None => match band_of(name, false) {
            Some(b) => {
                let m = parse_milli(value)?;
                freqs.set(b, m);
                Ok(())
            },
            None => Ok(()),
        },
    }
}

fn copy_vec<T: Copy>(v: &Vec<T>) -> (r: Vec<T>)
    ensures
        r@ == v@,
{
    let mut r: Vec<T> = Vec::new();
    let mut i: usize = 0;
    while i < v.len()
        invariant
            i <= v@.len(),
            r@ == v@.take(i as int),
        decreases v@.len() - i,
    {
        r.push(v[i]);
        proof {
            assert(r@ =~= v@.take(i + 1));
        }
        i = i + 1;
    }
    proof {
        assert(v@.take(i as int) =~= v@);
    }
    r
}

impl Equalizer {
    /// Every band present.
    pub open spec fn wf(&self) -> bool {
        self@.gains.len() == 10 && self@.freqs.len() == 10
    }

    /// Flat gains, each band at its nominal frequency.
    pub fn new() -> (r: Equalizer)
        ensures
            r.wf(),
            forall|b: int| 0 <= b < 10 ==> #[trigger] r@.gains[b] == 0,
            forall|b: int| 0 <= b < 10 ==> #[trigger] r@.freqs[b] == default_freq(b),
    {
        let mut gains: Vec<i8> = Vec::new();
        let mut freqs: Vec<u32> = Vec::new();
        let mut b: usize = 0;
        while b < BAND_COUNT
            invariant
                b <= 10,
                gains@.len() == b,
                freqs@.len() == b,
                forall|j: int| 0 <= j < b ==> #[trigger] gains@[j] == 0,
                forall|j: int| 0 <= j < b ==> #[trigger] freqs@[j] == default_freq(j),
            decreases 10 - b,
        {
            gains.push(0);
            freqs.push(Self::nominal_freq(b));
            b = b + 1;
        }
        Equalizer { gains, freqs }
    }

    fn nominal_freq(b: usize) -> (r: u32)
        requires
            b < 10,
        ensures
            r == default_freq(b as int),
    {
        if b == 0 {
            31500
        } else if b == 1 {
            63000
        } else if b == 2 {
            125000
        } else if b == 3 {
            250000
        } else if b == 4 {
            500000
        } else if b == 5 {
            1000000
        } else if b == 6 {
            2000000
        } else if b == 7 {
            4000000
        } else if b == 8 {
            8000000
        } else {
            16000000
        }
    }

    /// Reads the equaliser's attributes in order; unknown names are skipped. A
    /// value that cannot be read fails the whole call, which then changes nothing.
    pub fn parse_equaliser(&mut self, attributes: &Vec<Attribute>) -> (r: Result<(), ParseError>)
        requires
            old(self).wf(),
        ensures
            final(self).wf(),
            match parse_equalizer_spec(old(self)@, attrs_view(attributes@)) {
                Ok(v) => r is Ok && final(self)@ == v,
                Err(e) => r == Err::<(), ParseError>(e) && final(self)@ == old(self)@,
            },
    {
        let ghost attrs = attrs_view(attributes@);
        let ghost step = |s: EqualizerSettings, a: AttrView| equalizer_step(s, a);
        let mut gains = copy_vec(&self.gains);
        let mut freqs = copy_vec(&self.freqs);
        let mut i: usize = 0;
        proof {
            assert(attrs.take(0) =~= Seq::<AttrView>::empty());
        }
        while i < attributes.len()
            invariant
                i <= attributes.len(),
                self.wf(),
                gains@.len() == 10,
                freqs@.len() == 10,
                attrs == attrs_view(attributes@),
                attrs.len() == attributes@.len(),
                step == (|s: EqualizerSettings, a: AttrView| equalizer_step(s, a)),
                apply_attributes(self@, attrs.take(i as int), step) == Ok::<
                    EqualizerSettings,
                    ParseError,
                >(EqualizerSettings { gains: gains@, freqs: freqs@ }),
            decreases attributes.len() - i,
        {
            let ghost before = EqualizerSettings { gains: gains@, freqs: freqs@ };
            let r = apply_equalizer_attribute(&mut gains, &mut freqs, &attributes[i]);
            proof {
                lemma_apply_next(self@, attrs, step, i as int);
                assert(attrs[i as int] == attributes@[i as int].view());
            }
            match r {
                Ok(()) => {},
                Err(err) => {
                    proof {
                        lemma_error_persists(self@, attrs, step, i + 1);
                    }
                    return Err(err);
                },
            }
            i = i + 1;
        }
        proof {
            assert(attrs.take(i as int) =~= attrs);
        }
        self.gains = gains;
        self.freqs = freqs;
        Ok(())
    }

    /// The twenty attributes: each band's gain, then each band's frequency.
    pub fn write_equaliser(&self) -> (r: Vec<Attribute>)
        requires
            self.wf(),
        ensures
            attrs_view(r@) == equalizer_attributes(self@),
    {
        let mut r: Vec<Attribute> = Vec::new();
        let mut b: usize = 0;
        while b < BAND_COUNT
            invariant
                b <= 10,
                self.wf(),
                r@.len() == b,
                forall|j: int| 0 <= j < b ==> #[trigger] r@[j].view() == equalizer_attributes(self@)[j],
            decreases 10 - b,
        {
            r.push(Attribute::new(gain_key_str(b), format_signed(self.gains[b] as i64)));
            b = b + 1;
        }
        let mut b: usize = 0;
        while b < BAND_COUNT
            invariant
                b <= 10,
                self.wf(),
                r@.len() == 10 + b,
                forall|j: int| 0 <= j < 10 + b ==> #[trigger] r@[j].view() == equalizer_attributes(self@)[j],
            decreases 10 - b,
        {
            r.push(Attribute::new(freq_key_str(b), format_milli(self.freqs[b])));
            b = b + 1;
        }
        proof {
            assert(attrs_view(r@) =~= equalizer_attributes(self@));
        }
        r
    }

    pub fn eq_31h_gain(&self) -> (r: i8)
        requires
            self.wf(),
        ensures
            r == self@.gains[0],
    {
        self.gains[0]
    }

    pub fn eq_63h_gain(&self) -> (r: i8)
        requires
            self.wf(),
        ensures
            r == self@.gains[1],
    {
        self.gains[1]
    }

    pub fn eq_125h_gain(&self) -> (r: i8)
        requires
            self.wf(),
        ensures
            r == self@.gains[2],
    {
        self.gains[2]
    }

    pub fn eq_250h_gain(&self) -> (r: i8)
        requires
            self.wf(),
        ensures
            r == self@.gains[3],
    {
        self.gains[3]
    }

    pub fn eq_500h_gain(&self) -> (r: i8)
        requires
            self.wf(),
        ensures
            r == self@.gains[4],
    {
        self.gains[4]
    }

    pub fn eq_1k_gain(&self) -> (r: i8)
        requires
            self.wf(),
        ensures
            r == self@.gains[5],
    {
        self.gains[5]
    }

    pub fn eq_2k_gain(&self) -> (r: i8)
        requires
            self.wf(),
        ensures
            r == self@.gains[6],
    {
        self.gains[6]
    }

    pub fn eq_4k_gain(&self) -> (r: i8)
        requires
            self.wf(),
        ensures
            r == self@.gains[7],
    {
        self.gains[7]
    }

    pub fn eq_8k_gain(&self) -> (r: i8)
        requires
            self.wf(),
        ensures
            r == self@.gains[8],
    {
        self.gains[8]
    }

    pub fn eq_16k_gain(&self) -> (r: i8)
        requires
            self.wf(),
        ensures
            r == self@.gains[9],
    {
        self.gains[9]
    }

    /// The frequency in millihertz.
    pub fn eq_31h_freq(&self) -> (r: u32)
        requires
            self.wf(),
        ensures
            r == self@.freqs[0],
    {
        self.freqs[0]
    }

    /// The frequency in millihertz.
    pub fn eq_63h_freq(&self) -> (r: u32)
        requires
            self.wf(),
        ensures
            r == self@.freqs[1],
    {
        self.freqs[1]
    }

    /// The frequency in millihertz.
    pub fn eq_125h_freq(&self) -> (r: u32)
        requires
            self.wf(),
        ensures
            r == self@.freqs[2],
    {
        self.freqs[2]
    }

    /// The frequency in millihertz.
    pub fn eq_250h_freq(&self) -> (r: u32)
        requires
            self.wf(),
        ensures
            r == self@.freqs[3],
    {
        self.freqs[3]
    }

    /// The frequency in millihertz.
    pub fn eq_500h_freq(&self) -> (r: u32)
        requires
            self.wf(),
        ensures
            r == self@.freqs[4],
    {
        self.freqs[4]
    }

    /// The frequency in millihertz.
    pub fn eq_1k_freq(&self) -> (r: u32)
        requires
            self.wf(),
        ensures
            r == self@.freqs[5],
    {
        self.freqs[5]
    }

    /// The frequency in millihertz.
    pub fn eq_2k_freq(&self) -> (r: u32)
        requires
            self.wf(),
        ensures
            r == self@.freqs[6],
    {
        self.freqs[6]
    }

    /// The frequency in millihertz.
    pub fn eq_4k_freq(&self) -> (r: u32)
        requires
            self.wf(),
        ensures
            r == self@.freqs[7],
    {
        self.freqs[7]
    }

    /// The frequency in millihertz.
    pub fn eq_8k_freq(&self) -> (r: u32)
        requires
            self.wf(),
        ensures
            r == self@.freqs[8],
    {
        self.freqs[8]
    }

    /// The frequency in millihertz.
    pub fn eq_16k_freq(&self) -> (r: u32)
        requires
            self.wf(),
        ensures
            r == self@.freqs[9],
    {
        self.freqs[9]
    }

    pub fn set_eq_31h_gain(&mut self, value: i8)
        requires
            old(self).wf(),
        ensures
            final(self)@ == (EqualizerSettings { gains: old(self)@.gains.update(0, value), ..old(self)@ }),
            final(self).wf(),
    {
        self.gains.set(0, value);
    }

    pub fn set_eq_63h_gain(&mut self, value: i8)
        requires
            old(self).wf(),
        ensures
            final(self)@ == (EqualizerSettings { gains: old(self)@.gains.update(1, value), ..old(self)@ }),
            final(self).wf(),
    {
        self.gains.set(1, value);
    }

    pub fn set_eq_125h_gain(&mut self, value: i8)
        requires
            old(self).wf(),
        ensures
            final(self)@ == (EqualizerSettings { gains: old(self)@.gains.update(2, value), ..old(self)@ }),
            final(self).wf(),
    {
        self.gains.set(2, value);
    }

    pub fn set_eq_250h_gain(&mut self, value: i8)
        requires
            old(self).wf(),
        ensures
            final(self)@ == (EqualizerSettings { gains: old(self)@.gains.update(3, value), ..old(self)@ }),
            final(self).wf(),
    {
        self.gains.set(3, value);
    }

    pub fn set_eq_500h_gain(&mut self, value: i8)
        requires
            old(self).wf(),
        ensures
            final(self)@ == (EqualizerSettings { gains: old(self)@.gains.update(4, value), ..old(self)@ }),
            final(self).wf(),
    {
        self.gains.set(4, value);
    }

    pub fn set_eq_1k_gain(&mut self, value: i8)
        requires
            old(self).wf(),
        ensures
            final(self)@ == (EqualizerSettings { gains: old(self)@.gains.update(5, value), ..old(self)@ }),
            final(self).wf(),
    {
        self.gains.set(5, value);
    }

    pub fn set_eq_2k_gain(&mut self, value: i8)
        requires
            old(self).wf(),
        ensures
            final(self)@ == (EqualizerSettings { gains: old(self)@.gains.update(6, value), ..old(self)@ }),
            final(self).wf(),
    {
        self.gains.set(6, value);
    }

    pub fn set_eq_4k_gain(&mut self, value: i8)
        requires
            old(self).wf(),
        ensures
            final(self)@ == (EqualizerSettings { gains: old(self)@.gains.update(7, value), ..old(self)@ }),
            final(self).wf(),
    {
        self.gains.set(7, value);
    }

    pub fn set_eq_8k_gain(&mut self, value: i8)
        requires
            old(self).wf(),
        ensures
            final(self)@ == (EqualizerSettings { gains: old(self)@.gains.update(8, value), ..old(self)@ }),
            final(self).wf(),
    {
        self.gains.set(8, value);
    }

    pub fn set_eq_16k_gain(&mut self, value: i8)
        requires
            old(self).wf(),
        ensures
            final(self)@ == (EqualizerSettings { gains: old(self)@.gains.update(9, value), ..old(self)@ }),
            final(self).wf(),
    {
        self.gains.set(9, value);
    }

    /// Sets the frequency, in millihertz.
    pub fn set_eq_31h_freq(&mut self, value: u32)
        requires
            old(self).wf(),
        ensures
            final(self)@ == (EqualizerSettings { freqs: old(self)@.freqs.update(0, value), ..old(self)@ }),
            final(self).wf(),
    {
        self.freqs.set(0, value);
    }

    /// Sets the frequency, in millihertz.
    pub fn set_eq_63h_freq(&mut self, value: u32)
        requires
            old(self).wf(),
        ensures
            final(self)@ == (EqualizerSettings { freqs: old(self)@.freqs.update(1, value), ..old(self)@ }),
            final(self).wf(),
    {
        self.freqs.set(1, value);
    }

    /// Sets the frequency, in millihertz.
    pub fn set_eq_125h_freq(&mut self, value: u32)
        requires
            old(self).wf(),
        ensures
            final(self)@ == (EqualizerSettings { freqs: old(self)@.freqs.update(2, value), ..old(self)@ }),
            final(self).wf(),
    {
        self.freqs.set(2, value);
    }

    /// Sets the frequency, in millihertz.
    pub fn set_eq_250h_freq(&mut self, value: u32)
        requires
            old(self).wf(),
        ensures
            final(self)@ == (EqualizerSettings { freqs: old(self)@.freqs.update(3, value), ..old(self)@ }),
            final(self).wf(),
    {
        self.freqs.set(3, value);
    }

    /// Sets the frequency, in millihertz.
    pub fn set_eq_500h_freq(&mut self, value: u32)
        requires
            old(self).wf(),
        ensures
            final(self)@ == (EqualizerSettings { freqs: old(self)@.freqs.update(4, value), ..old(self)@ }),
            final(self).wf(),
    {
        self.freqs.set(4, value);
    }

    /// Sets the frequency, in millihertz.
    pub fn set_eq_1k_freq(&mut self, value: u32)
        requires
            old(self).wf(),
        ensures
            final(self)@ == (EqualizerSettings { freqs: old(self)@.freqs.update(5, value), ..old(self)@ }),
            final(self).wf(),
    {
        self.freqs.set(5, value);
    }

    /// Sets the frequency, in millihertz.
    pub fn set_eq_2k_freq(&mut self, value: u32)
        requires
            old(self).wf(),
        ensures
            final(self)@ == (EqualizerSettings { freqs: old(self)@.freqs.update(6, value), ..old(self)@ }),
            final(self).wf(),
    {
        self.freqs.set(6, value);
    }

    /// Sets the frequency, in millihertz.
    pub fn set_eq_4k_freq(&mut self, value: u32)
        requires
            old(self).wf(),
        ensures
            final(self)@ == (EqualizerSettings { freqs: old(self)@.freqs.update(7, value), ..old(self)@ }),
            final(self).wf(),
    {
        self.freqs.set(7, value);
    }

    /// Sets the frequency, in millihertz.
    pub fn set_eq_8k_freq(&mut self, value: u32)
        requires
            old(self).wf(),
        ensures
            final(self)@ == (EqualizerSettings { freqs: old(self)@.freqs.update(8, value), ..old(self)@ }),
            final(self).wf(),
    {
        self.freqs.set(8, value);
    }

    /// Sets the frequency, in millihertz.
    pub fn set_eq_16k_freq(&mut self, value: u32)
        requires
            old(self).wf(),
        ensures
            final(self)@ == (EqualizerSettings { freqs: old(self)@.freqs.update(9, value), ..old(self)@ }),
            final(self).wf(),
    {
        self.freqs.set(9, value);
    }
}

/// Band keys are pairwise distinct: two keys of a kind differ in their band,
/// and a gain key never equals a frequency key.
proof fn lemma_keys_distinct(i: int, j: int)
    requires
        0 <= i < 10,
        0 <= j < 10,
    ensures
        i != j ==> gain_key(i) != gain_key(j),
        i != j ==> freq_key(i) != freq_key(j),
        gain_key(i) != freq_key(j),
{
    reveal_strlit("MIC_EQ_31.5HZ_GAIN");
    assert("MIC_EQ_31.5HZ_GAIN"@.len() == 18);
    assert("MIC_EQ_31.5HZ_GAIN"@[7] == '3' && "MIC_EQ_31.5HZ_GAIN"@[8] == '1');
    reveal_strlit("MIC_EQ_31.5HZ_F");
    assert("MIC_EQ_31.5HZ_F"@.len() == 15);
    assert("MIC_EQ_31.5HZ_F"@[7] == '3' && "MIC_EQ_31.5HZ_F"@[8] == '1');
    reveal_strlit("MIC_EQ_63HZ_GAIN");
    assert("MIC_EQ_63HZ_GAIN"@.len() == 16);
    assert("MIC_EQ_63HZ_GAIN"@[7] == '6' && "MIC_EQ_63HZ_GAIN"@[8] == '3');
    reveal_strlit("MIC_EQ_63HZ_F");
    assert("MIC_EQ_63HZ_F"@.len() == 13);
    assert("MIC_EQ_63HZ_F"@[7] == '6' && "MIC_EQ_63HZ_F"@[8] == '3');
    reveal_strlit("MIC_EQ_125HZ_GAIN");
    assert("MIC_EQ_125HZ_GAIN"@.len() == 17);
    assert("MIC_EQ_125HZ_GAIN"@[7] == '1' && "MIC_EQ_125HZ_GAIN"@[8] == '2');
    reveal_strlit("MIC_EQ_125HZ_F");
    assert("MIC_EQ_125HZ_F"@.len() == 14);
    assert("MIC_EQ_125HZ_F"@[7] == '1' && "MIC_EQ_125HZ_F"@[8] == '2');
    reveal_strlit("MIC_EQ_250HZ_GAIN");
    assert("MIC_EQ_250HZ_GAIN"@.len() == 17);
    assert("MIC_EQ_250HZ_GAIN"@[7] == '2' && "MIC_EQ_250HZ_GAIN"@[8] == '5');
    reveal_strlit("MIC_EQ_250HZ_F");
    assert("MIC_EQ_250HZ_F"@.len() == 14);
    assert("MIC_EQ_250HZ_F"@[7] == '2' && "MIC_EQ_250HZ_F"@[8] == '5');
    reveal_strlit("MIC_EQ_500HZ_GAIN");
    assert("MIC_EQ_500HZ_GAIN"@.len() == 17);
    assert("MIC_EQ_500HZ_GAIN"@[7] == '5' && "MIC_EQ_500HZ_GAIN"@[8] == '0');
    reveal_strlit("MIC_EQ_500HZ_F");
    assert("MIC_EQ_500HZ_F"@.len() == 14);
    assert("MIC_EQ_500HZ_F"@[7] == '5' && "MIC_EQ_500HZ_F"@[8] == '0');
    reveal_strlit("MIC_EQ_1KHZ_GAIN");
    assert("MIC_EQ_1KHZ_GAIN"@.len() == 16);
    assert("MIC_EQ_1KHZ_GAIN"@[7] == '1' && "MIC_EQ_1KHZ_GAIN"@[8] == 'K');
    reveal_strlit("MIC_EQ_1KHZ_F");
    assert("MIC_EQ_1KHZ_F"@.len() == 13);
    assert("MIC_EQ_1KHZ_F"@[7] == '1' && "MIC_EQ_1KHZ_F"@[8] == 'K');
    reveal_strlit("MIC_EQ_2KHZ_GAIN");
    assert("MIC_EQ_2KHZ_GAIN"@.len() == 16);
    assert("MIC_EQ_2KHZ_GAIN"@[7] == '2' && "MIC_EQ_2KHZ_GAIN"@[8] == 'K');
    reveal_strlit("MIC_EQ_2KHZ_F");
    assert("MIC_EQ_2KHZ_F"@.len() == 13);
    assert("MIC_EQ_2KHZ_F"@[7] == '2' && "MIC_EQ_2KHZ_F"@[8] == 'K');
    reveal_strlit("MIC_EQ_4KHZ_GAIN");
    assert("MIC_EQ_4KHZ_GAIN"@.len() == 16);
    assert("MIC_EQ_4KHZ_GAIN"@[7] == '4' && "MIC_EQ_4KHZ_GAIN"@[8] == 'K');
    reveal_strlit("MIC_EQ_4KHZ_F");
    assert("MIC_EQ_4KHZ_F"@.len() == 13);
    assert("MIC_EQ_4KHZ_F"@[7] == '4' && "MIC_EQ_4KHZ_F"@[8] == 'K');
    reveal_strlit("MIC_EQ_8KHZ_GAIN");
    assert("MIC_EQ_8KHZ_GAIN"@.len() == 16);
    assert("MIC_EQ_8KHZ_GAIN"@[7] == '8' && "MIC_EQ_8KHZ_GAIN"@[8] == 'K');
    reveal_strlit("MIC_EQ_8KHZ_F");
    assert("MIC_EQ_8KHZ_F"@.len() == 13);
    assert("MIC_EQ_8KHZ_F"@[7] == '8' && "MIC_EQ_8KHZ_F"@[8] == 'K');
    reveal_strlit("MIC_EQ_16KHZ_GAIN");
    assert("MIC_EQ_16KHZ_GAIN"@.len() == 17);
    assert("MIC_EQ_16KHZ_GAIN"@[7] == '1' && "MIC_EQ_16KHZ_GAIN"@[8] == '6');
    reveal_strlit("MIC_EQ_16KHZ_F");
    assert("MIC_EQ_16KHZ_F"@.len() == 14);
    assert("MIC_EQ_16KHZ_F"@[7] == '1' && "MIC_EQ_16KHZ_F"@[8] == '6');
    if gain_key(i) == gain_key(j) {
        assert(gain_key(i)[7] == gain_key(j)[7] && gain_key(i)[8] == gain_key(j)[8]);
    }
    if freq_key(i) == freq_key(j) {
        assert(freq_key(i)[7] == freq_key(j)[7] && freq_key(i)[8] == freq_key(j)[8]);
    }
    if gain_key(i) == freq_key(j) {
        assert(gain_key(i)[7] == freq_key(j)[7] && gain_key(i)[8] == freq_key(j)[8]);
        assert(gain_key(i).len() == freq_key(j).len());
    }
}

/// A key of band `i` is found at band `i`, and not among keys of the other kind.
proof fn lemma_find_band(i: int, b: int)
    requires
        0 <= b <= i < 10,
    ensures
        find_band(gain_key(i), true, b) == i,
        find_band(freq_key(i), false, b) == i,
        find_band(freq_key(i), true, b) == -1,
        find_band(gain_key(i), false, b) == -1,
    decreases 10 - b,
{
    lemma_find_band_other(i, b);
    if b < i {
        lemma_keys_distinct(i, b);
        lemma_find_band(i, b + 1);
    }
}

proof fn lemma_find_band_other(i: int, b: int)
    requires
        0 <= i < 10,
        0 <= b <= 10,
    ensures
        find_band(freq_key(i), true, b) == -1,
        find_band(gain_key(i), false, b) == -1,
    decreases 10 - b,
{
    if b < 10 {
        lemma_keys_distinct(i, b);
        lemma_keys_distinct(b, i);
        lemma_find_band_other(i, b + 1);
    }
}

/// `s` with the `k`-th written value taken from `v`.
pub open spec fn take_band(s: EqualizerSettings, v: EqualizerSettings, k: int) -> EqualizerSettings {
    if k < 10 {
        EqualizerSettings { gains: s.gains.update(k, v.gains[k]), ..s }
    } else {
        EqualizerSettings { freqs: s.freqs.update(k - 10, v.freqs[k - 10]), ..s }
    }
}

proof fn lemma_equalizer_step(s: EqualizerSettings, v: EqualizerSettings, k: int)
    requires
        0 <= k < 20,
        v.gains.len() == 10,
        v.freqs.len() == 10,
    ensures
        equalizer_step(s, equalizer_attributes(v)[k]) == Ok::<EqualizerSettings, ParseError>(
            take_band(s, v, k),
        ),
{
    if k < 10 {
        lemma_find_band(k, 0);
        lemma_signed_byte_round_trip(v.gains[k]);
    } else {
        let m = v.freqs[k - 10];
        lemma_find_band(k - 10, 0);
        lemma_milli_round_trip(m as nat);
        assert((m as nat / 1000) * 1000 + m as nat % 1000 == m);
    }
}

/// `s` after the first `k` written values of `v` are read onto it.
pub open spec fn written_prefix(s: EqualizerSettings, v: EqualizerSettings, k: int) -> EqualizerSettings
    decreases k,
{
    if k <= 0 {
        s
    } else {
        take_band(written_prefix(s, v, k - 1), v, k - 1)
    }
}

proof fn lemma_prefix_values(s: EqualizerSettings, v: EqualizerSettings, k: int)
    requires
        0 <= k <= 20,
        s.gains.len() == 10,
        s.freqs.len() == 10,
        v.gains.len() == 10,
        v.freqs.len() == 10,
    ensures
        written_prefix(s, v, k).gains.len() == 10,
        written_prefix(s, v, k).freqs.len() == 10,
        forall|b: int|
            0 <= b < 10 ==> #[trigger] written_prefix(s, v, k).gains[b] == if b < k {
                v.gains[b]
            } else {
                s.gains[b]
            },
        forall|b: int|
            0 <= b < 10 ==> #[trigger] written_prefix(s, v, k).freqs[b] == if b + 10 < k {
                v.freqs[b]
            } else {
                s.freqs[b]
            },
    decreases k,
{
    if k > 0 {
        lemma_prefix_values(s, v, k - 1);
    }
}

proof fn lemma_prefix_parse(start: EqualizerSettings, v: EqualizerSettings, k: int)
    requires
        0 <= k <= 20,
        v.gains.len() == 10,
        v.freqs.len() == 10,
    ensures
        parse_equalizer_spec(start, equalizer_attributes(v).take(k)) == Ok::<
            EqualizerSettings,
            ParseError,
        >(written_prefix(start, v, k)),
    decreases k,
{
    let attrs = equalizer_attributes(v);
    let step = |s: EqualizerSettings, a: AttrView| equalizer_step(s, a);
    if k == 0 {
        assert(attrs.take(0) =~= Seq::<AttrView>::empty());
    } else {
        lemma_prefix_parse(start, v, k - 1);
        lemma_apply_next(start, attrs, step, k - 1);
        lemma_equalizer_step(written_prefix(start, v, k - 1), v, k - 1);
    }
}

/// Writing the equaliser and reading its attributes back, onto any complete
/// starting equaliser, gives the written one again. So parse, write and parse
/// once more ends with what the first parse gave.
pub proof fn lemma_equalizer_round_trip(start: EqualizerSettings, v: EqualizerSettings)
    requires
        start.gains.len() == 10,
        start.freqs.len() == 10,
        v.gains.len() == 10,
        v.freqs.len() == 10,
    ensures
        parse_equalizer_spec(start, equalizer_attributes(v)) == Ok::<EqualizerSettings, ParseError>(
            v,
        ),
{
    let attrs = equalizer_attributes(v);
    lemma_prefix_parse(start, v, 20);
    lemma_prefix_values(start, v, 20);
    let r = written_prefix(start, v, 20);
    assert(r.gains =~= v.gains);
    assert(r.freqs =~= v.freqs);
    assert(attrs.take(20) =~= attrs);
}

impl Default for Equalizer {
    fn default() -> (r: Equalizer)
        ensures
            r.wf(),
            forall|b: int| 0 <= b < 10 ==> #[trigger] r@.gains[b] == 0,
            forall|b: int| 0 <= b < 10 ==> #[trigger] r@.freqs[b] == default_freq(b),
    {
        Equalizer::new()
    }
}

} // verus!
