//! Pin configuration and the object controller's mapping from signal
//! aspects to physical output channels.  Reading and writing the channels
//! themselves happens outside the crate; this module computes which pin
//! gets which level and tracks the controller's mirror state.

use vstd::prelude::*;
use vstd::string::StringExecFns;
use crate::types::{seq_view, Brightness, MainAspect, SignalAspect, spec_status_aspect};

verus! {

/// Mapping of signal names to pin levels and of pin indices to the
/// physical output, backup-output and read-back input channels.
pub struct PinConfig {
    pub number_of_pins: usize,
    pub pins_output: Vec<String>,
    pub pins_output_backup: Vec<String>,
    pub pins_input: Vec<String>,
    pub signals: Vec<(String, Vec<u8>)>,
}

impl PinConfig {
    /// Configuration invariant: one output, backup and input pin per
    /// index, one level per pin in every signal row, and unique signal
    /// names.
    pub open spec fn wf(self) -> bool {
        &&& self.pins_output@.len() == self.number_of_pins
        &&& self.pins_output_backup@.len() == self.number_of_pins
        &&& self.pins_input@.len() == self.number_of_pins
        &&& (forall|i: int| 0 <= i < self.signals@.len() ==> (#[trigger] self.signals@[i]).1@.len()
            == self.number_of_pins)
        &&& (forall|i: int, j: int| 0 <= i < j < self.signals@.len() ==> (
        #[trigger] self.signals@[i]).0@ != (#[trigger] self.signals@[j]).0@)
    }

    /// The lenient pin-count test applied when a configuration file is
    /// loaded: at least one of the three pin lists has the declared
    /// length.
    pub fn pin_counts_match(&self) -> (r: bool)
        ensures
            r == (self.pins_output@.len() == self.number_of_pins || self.pins_input@.len()
                == self.number_of_pins || self.pins_output_backup@.len() == self.number_of_pins),
    {
        self.pins_output.len() == self.number_of_pins || self.pins_input.len()
            == self.number_of_pins || self.pins_output_backup.len() == self.number_of_pins
    }

    /// Runtime check of the full configuration invariant, for
    /// configurations read from outside.
    pub fn check_wf(&self) -> (r: bool)
        ensures
            r == self.wf(),
    {
        if self.pins_output.len() != self.number_of_pins {
            return false;
        }
        if self.pins_output_backup.len() != self.number_of_pins {
            return false;
        }
        if self.pins_input.len() != self.number_of_pins {
            return false;
        }
        let mut i: usize = 0;
        while i < self.signals.len()
            invariant
                i <= self.signals@.len(),
                forall|k: int| 0 <= k < i ==> (#[trigger] self.signals@[k]).1@.len()
                    == self.number_of_pins,
            decreases self.signals@.len() - i,
        {
            if self.signals[i].1.len() != self.number_of_pins {
                return false;
            }
            i = i + 1;
        }
        let mut a: usize = 0;
        while a < self.signals.len()
            invariant
                a <= self.signals@.len(),
                forall|k: int| 0 <= k < self.signals@.len() ==> (#[trigger] self.signals@[k]).1@.len()
                    == self.number_of_pins,
                forall|k: int, l: int| 0 <= k < l < self.signals@.len() && k < a ==> (
                #[trigger] self.signals@[k]).0@ != (#[trigger] self.signals@[l]).0@,
            decreases self.signals@.len() - a,
        {
            let mut b: usize = a + 1;
            while b < self.signals.len()
                invariant
                    a < b <= self.signals@.len() || (a + 1 == b && b > self.signals@.len()),
                    a < self.signals@.len(),
                    forall|l: int| a < l < b ==> (#[trigger] self.signals@[l]).0@
                        != self.signals@[a as int].0@,
                decreases self.signals@.len() - b,
            {
                if self.signals[a].0 == self.signals[b].0 {
                    return false;
                }
                b = b + 1;
            }
            a = a + 1;
        }
        true
    }
}

fn default_pin_names() -> (v: Vec<String>)
    ensures
        v@.len() == 4,
        v@[0]@ == "O_1"@,
        v@[1]@ == "O_2"@,
        v@[2]@ == "O_3"@,
        v@[3]@ == "O_4"@,
{
    let mut v: Vec<String> = Vec::new();
    v.push(String::from_str("O_1"));
    v.push(String::from_str("O_2"));
    v.push(String::from_str("O_3"));
    v.push(String::from_str("O_4"));
    v
}

fn levels4(a: u8, b: u8, c: u8, d: u8) -> (v: Vec<u8>)
    ensures
        v@ == seq![a, b, c, d],
{
    let mut v: Vec<u8> = Vec::new();
    v.push(a);
    v.push(b);
    v.push(c);
    v.push(d);
    proof {
        assert(v@ =~= seq![a, b, c, d]);
    }
    v
}

impl Default for PinConfig {
    /// The built-in configuration used when no file is given: four pins
    /// and the levels for the signals Off, Ks1 and Ks2.
    fn default() -> (c: Self)
        ensures
            c.wf(),
            c.number_of_pins == 4,
            c.pins_output@.len() == 4 && c.pins_output_backup@.len() == 4 && c.pins_input@.len()
                == 4,
            c.pins_output@[0]@ == "O_1"@ && c.pins_output@[1]@ == "O_2"@ && c.pins_output@[2]@
                == "O_3"@ && c.pins_output@[3]@ == "O_4"@,
            forall|i: int| 0 <= i < 4 ==> (#[trigger] c.pins_output_backup@[i])@
                == c.pins_output@[i]@ && (#[trigger] c.pins_input@[i])@ == c.pins_output@[i]@,
            c.signals@.len() == 3,
            c.signals@[0].0@ == "Off"@ && c.signals@[0].1@ == seq![0u8, 0u8, 0u8, 0u8],
            c.signals@[1].0@ == "Ks1"@ && c.signals@[1].1@ == seq![1u8, 1u8, 1u8, 1u8],
            c.signals@[2].0@ == "Ks2"@ && c.signals@[2].1@ == seq![0u8, 0u8, 1u8, 1u8],
    {
        let off_pins = levels4(0, 0, 0, 0);
        let ks1_pins = levels4(1, 1, 1, 1);
        let ks2_pins = levels4(0, 0, 1, 1);
        let mut signals: Vec<(String, Vec<u8>)> = Vec::new();
        signals.push((String::from_str("Off"), off_pins));
        signals.push((String::from_str("Ks1"), ks1_pins));
        signals.push((String::from_str("Ks2"), ks2_pins));
        let c = PinConfig {
            number_of_pins: 4,
            pins_output: default_pin_names(),
            pins_output_backup: default_pin_names(),
            pins_input: default_pin_names(),
            signals,
        };
        proof {
            reveal_strlit("Off");
            reveal_strlit("Ks1");
            reveal_strlit("Ks2");
            assert("Off"@[0] == 'O' && "Ks1"@[0] == 'K' && "Ks2"@[0] == 'K');
            assert("Ks1"@[2] == '1' && "Ks2"@[2] == '2');
            assert(c.wf());
        }
        c
    }
}

/// Name under which a main aspect's pin levels stand in the
/// configuration, if the controller displays it.
pub open spec fn spec_aspect_name(m: MainAspect) -> Option<Seq<char>> {
    match m {
        MainAspect::Hp0 => Some("Hp0"@),
        MainAspect::Hp0PlusSh1 => Some("Hp0PlusSh1"@),
        MainAspect::Hp0WithDrivingIndicator => None,
        MainAspect::Ks1 => Some("Ks1"@),
        MainAspect::Ks1Flashing => Some("Ks1Flashing"@),
        MainAspect::Ks1FlashingWithAdditionalLight => Some("Ks1Flashing"@),
        MainAspect::Ks2 => Some("Ks2"@),
        MainAspect::Ks2WithAdditionalLight => Some("Ks2WithAdditionalLight"@),
        MainAspect::Sh1 => Some("Sh1"@),
        MainAspect::IdLight => Some("IdLight"@),
        MainAspect::Hp0Hv => Some("Hp0Hv"@),
        MainAspect::Hp1 => Some("Hp1"@),
        MainAspect::Hp2 => Some("Hp2"@),
        MainAspect::Vr0 => Some("Vr0"@),
        MainAspect::Vr1 => Some("Vr1"@),
        MainAspect::Vr2 => Some("Vr2"@),
        MainAspect::Off => Some("Off"@),
    }
}

/// Configuration name of a main aspect.
pub fn aspect_config_name(m: MainAspect) -> (r: Option<String>)
    ensures
        (r is Some) == (spec_aspect_name(m) is Some),
        (r matches Some(s) ==> Some(s@) == spec_aspect_name(m)),
{
    match m {
        MainAspect::Hp0 => Some(String::from_str("Hp0")),
        MainAspect::Hp0PlusSh1 => Some(String::from_str("Hp0PlusSh1")),
        MainAspect::Hp0WithDrivingIndicator => None,
        MainAspect::Ks1 => Some(String::from_str("Ks1")),
        MainAspect::Ks1Flashing => Some(String::from_str("Ks1Flashing")),
        MainAspect::Ks1FlashingWithAdditionalLight => Some(String::from_str("Ks1Flashing")),
        MainAspect::Ks2 => Some(String::from_str("Ks2")),
        MainAspect::Ks2WithAdditionalLight => Some(String::from_str("Ks2WithAdditionalLight")),
        MainAspect::Sh1 => Some(String::from_str("Sh1")),
        MainAspect::IdLight => Some(String::from_str("IdLight")),
        MainAspect::Hp0Hv => Some(String::from_str("Hp0Hv")),
        MainAspect::Hp1 => Some(String::from_str("Hp1")),
        MainAspect::Hp2 => Some(String::from_str("Hp2")),
        MainAspect::Vr0 => Some(String::from_str("Vr0")),
        MainAspect::Vr1 => Some(String::from_str("Vr1")),
        MainAspect::Vr2 => Some(String::from_str("Vr2")),
        MainAspect::Off => Some(String::from_str("Off")),
    }
}

/// Pin levels the configuration assigns to a signal name, if any: the
/// value of the first row with that name.
pub open spec fn spec_lookup_signal(signals: Seq<(String, Vec<u8>)>, name: Seq<char>) -> Option<
    Seq<u8>,
>
    decreases signals.len(),
{
    if signals.len() == 0 {
        None
    } else if signals[0].0@ == name {
        Some(signals[0].1@)
    } else {
        spec_lookup_signal(signals.subrange(1, signals.len() as int), name)
    }
}

/// A found signal row stands in the sequence.
pub proof fn lemma_lookup_found(signals: Seq<(String, Vec<u8>)>, name: Seq<char>)
    ensures
        spec_lookup_signal(signals, name) matches Some(v) ==> exists|k: int|
            0 <= k < signals.len() && (#[trigger] signals[k]).0@ == name && signals[k].1@ == v,
    decreases signals.len(),
{
    if signals.len() > 0 && signals[0].0@ != name {
        let rest = signals.subrange(1, signals.len() as int);
        lemma_lookup_found(rest, name);
        if spec_lookup_signal(signals, name) is Some {
            let v = spec_lookup_signal(signals, name)->Some_0;
            let k = choose|k: int|
                0 <= k < rest.len() && (#[trigger] rest[k]).0@ == name && rest[k].1@ == v;
            assert(signals[k + 1].0@ == name && signals[k + 1].1@ == v);
        }
    }
}

/// Looks a signal name up in the configured rows.
pub fn lookup_signal(signals: &Vec<(String, Vec<u8>)>, name: &String) -> (r: Option<Vec<u8>>)
    ensures
        (r matches Some(v) ==> spec_lookup_signal(signals@, name@) == Some(v@)),
        (r is None ==> spec_lookup_signal(signals@, name@) is None),
{
    let mut i: usize = 0;
    proof {
        assert(signals@.subrange(0, signals@.len() as int) =~= signals@);
    }
    while i < signals.len()
        invariant
            i <= signals@.len(),
            spec_lookup_signal(signals@, name@) == spec_lookup_signal(
                signals@.subrange(i as int, signals@.len() as int),
                name@,
            ),
        decreases signals@.len() - i,
    {
        let ghost rest = signals@.subrange(i as int, signals@.len() as int);
        if signals[i].0 == *name {
            proof {
                assert(rest[0] == signals@[i as int]);
            }
            return Some(crate::types::copy_bytes(&signals[i].1));
        }
        proof {
            assert(rest[0] == signals@[i as int]);
            assert(rest.subrange(1, rest.len() as int) =~= signals@.subrange(
                i + 1,
                signals@.len() as int,
            ));
        }
        i = i + 1;
    }
    proof {
        assert(signals@.subrange(i as int, signals@.len() as int).len() == 0);
    }
    None
}

/// Zips the output pins with the levels of a signal row: pin `i` is to
/// be driven to level `values[i]`.
pub fn pin_writes(pins: &Vec<String>, values: &Vec<u8>) -> (w: Vec<(String, u8)>)
    requires
        pins@.len() == values@.len(),
    ensures
        w@.len() == pins@.len(),
        forall|i: int| 0 <= i < w@.len() ==> (#[trigger] w@[i]).0@ == pins@[i]@ && w@[i].1
            == values@[i],
{
    let mut w: Vec<(String, u8)> = Vec::new();
    let mut i: usize = 0;
    while i < pins.len()
        invariant
            i <= pins@.len(),
            pins@.len() == values@.len(),
            w@.len() == i,
            forall|j: int| 0 <= j < i ==> (#[trigger] w@[j]).0@ == pins@[j]@ && w@[j].1
                == values@[j],
        decreases pins@.len() - i,
    {
        w.push((pins[i].clone(), values[i]));
        i = i + 1;
    }
    w
}

/// View of a sequence of string pairs.
pub open spec fn pairs_view(m: Seq<(String, String)>) -> Seq<(Seq<char>, Seq<char>)> {
    m.map_values(|p: (String, String)| (p.0@, p.1@))
}

/// View of a sequence of pin writes.
pub open spec fn writes_view(w: Seq<(String, u8)>) -> Seq<(Seq<char>, u8)> {
    w.map_values(|p: (String, u8)| (p.0@, p.1))
}

/// Whether the backup map already holds an entry for this pin.
pub open spec fn spec_backup_contains(m: Seq<(Seq<char>, Seq<char>)>, pin: Seq<char>) -> bool {
    exists|i: int| 0 <= i < m.len() && (#[trigger] m[i]).0 == pin
}

fn backup_contains(m: &Vec<(String, String)>, pin: &String) -> (r: bool)
    ensures
        r == spec_backup_contains(pairs_view(m@), pin@),
{
    let mut i: usize = 0;
    while i < m.len()
        invariant
            i <= m@.len(),
            forall|k: int| 0 <= k < i ==> (#[trigger] pairs_view(m@)[k]).0 != pin@,
        decreases m@.len() - i,
    {
        if m[i].0 == *pin {
            proof {
                assert(pairs_view(m@)[i as int].0 == pin@);
            }
            return true;
        }
        proof {
            assert(pairs_view(m@)[i as int].0 == m@[i as int].0@);
        }
        i = i + 1;
    }
    false
}

/// The read-back check over the first `n` pin indices: for every index
/// whose configured level is on but whose input reads nothing, the
/// backup output of that index is to be driven — unless the input pin
/// already has an active backup entry — and an error is noted.
pub open spec fn spec_check_signal(
    bmap: Seq<(Seq<char>, Seq<char>)>,
    pins_input: Seq<Seq<char>>,
    pins_backup: Seq<Seq<char>>,
    values: Seq<u8>,
    inputs: Seq<bool>,
    n: int,
) -> (Seq<(Seq<char>, Seq<char>)>, Seq<(Seq<char>, u8)>, bool)
    decreases n,
{
    if n <= 0 {
        (bmap, Seq::<(Seq<char>, u8)>::empty(), false)
    } else {
        let (m0, w0, e0) = spec_check_signal(bmap, pins_input, pins_backup, values, inputs, n - 1);
        let i = n - 1;
        if values[i] == 1 && !inputs[i] {
            if spec_backup_contains(m0, pins_input[i]) {
                (m0, w0, true)
            } else {
                (
                    m0.push((pins_input[i], pins_backup[i])),
                    w0.push((pins_backup[i], values[i])),
                    true,
                )
            }
        } else {
            (m0, w0, e0)
        }
    }
}

/// Mirror state of one object controller: the aspect and brightness last
/// commanded, the configuration row it displays, and which pins run on
/// their backup line.
pub struct OC {
    pub main_aspect: MainAspect,
    pub main_aspect_string: String,
    pub backup_map: Vec<(String, String)>,
    pub brightness: Brightness,
}

/// Output-pin level that selects a brightness.
pub open spec fn spec_brightness_level(b: Brightness) -> u8 {
    if b == Brightness::Night {
        0
    } else {
        1
    }
}

impl OC {
    /// A controller showing the given aspect name, with no backup line
    /// active.
    pub fn new(main_aspect: MainAspect, main_aspect_string: String, brightness: Brightness) -> (r:
        OC)
        ensures
            r.main_aspect == main_aspect,
            r.main_aspect_string@ == main_aspect_string@,
            r.backup_map@.len() == 0,
            r.brightness == brightness,
    {
        OC { main_aspect, main_aspect_string, backup_map: Vec::new(), brightness }
    }

    /// Displays a signal aspect: remembers its main aspect, and computes
    /// the pin writes that the configuration assigns to its name.  An
    /// aspect without a configured name changes no output; a name without
    /// a configuration row writes nothing either.
    pub fn show_signal_aspect(&mut self, signal_aspect: &SignalAspect, cfg: &PinConfig) -> (writes:
        Vec<(String, u8)>)
        requires
            cfg.wf(),
        ensures
            final(self).main_aspect == signal_aspect.main,
            final(self).brightness == old(self).brightness,
            final(self).backup_map == old(self).backup_map,
            match spec_aspect_name(signal_aspect.main) {
                None => final(self).main_aspect_string@ == old(self).main_aspect_string@
                    && writes@.len() == 0,
                Some(nm) => final(self).main_aspect_string@ == nm && (match spec_lookup_signal(
                    cfg.signals@,
                    nm,
                ) {
                    Some(vals) => writes@.len() == cfg.number_of_pins && (forall|i: int|
                        0 <= i < writes@.len() ==> (#[trigger] writes@[i]).0@
                            == cfg.pins_output@[i]@ && writes@[i].1 == vals[i]),
                    None => writes@.len() == 0,
                }),
            },
    {
        let writes: Vec<(String, u8)> = match aspect_config_name(signal_aspect.main) {
            None => Vec::new(),
            Some(name) => {
                let w = match lookup_signal(&cfg.signals, &name) {
                    Some(vals) => {
                        proof {
                            lemma_lookup_found(cfg.signals@, name@);
                        }
                        pin_writes(&cfg.pins_output, &vals)
                    },
                    None => Vec::new(),
                };
                self.main_aspect_string = name;
                w
            },
        };
        self.main_aspect = signal_aspect.main;
        writes
    }

    /// The aspect reported in status telegrams: the current main aspect
    /// with zeroed reserved bytes.
    pub fn signal_aspect_status(&self) -> (r: SignalAspect)
        ensures
            r@ == spec_status_aspect(self.main_aspect),
            r.wf(),
    {
        SignalAspect::from_main(self.main_aspect)
    }

    /// Checks the read-back inputs of the displayed signal: `inputs[i]`
    /// says whether input pin `i` reads a live level.  Returns the backup
    /// writes to perform and whether any pin failed.
    pub fn check_signal(&mut self, cfg: &PinConfig, inputs: &Vec<bool>) -> (r: (
        Vec<(String, u8)>,
        bool,
    ))
        requires
            cfg.wf(),
            inputs@.len() == cfg.number_of_pins,
        ensures
            final(self).main_aspect == old(self).main_aspect,
            final(self).main_aspect_string@ == old(self).main_aspect_string@,
            final(self).brightness == old(self).brightness,
            match spec_lookup_signal(cfg.signals@, old(self).main_aspect_string@) {
                None => final(self).backup_map == old(self).backup_map && r.0@.len() == 0 && r.1
                    == false,
                Some(vals) => (
                    pairs_view(final(self).backup_map@),
                    writes_view(r.0@),
                    r.1,
                ) == spec_check_signal(
                    pairs_view(old(self).backup_map@),
                    seq_view(cfg.pins_input@),
                    seq_view(cfg.pins_output_backup@),
                    vals,
                    inputs@,
                    cfg.number_of_pins as int,
                ),
            },
    {
        let mut writes: Vec<(String, u8)> = Vec::new();
        match lookup_signal(&cfg.signals, &self.main_aspect_string) {
            None => (writes, false),
            Some(vals) => {
                proof {
                    lemma_lookup_found(cfg.signals@, self.main_aspect_string@);
                }
                let ghost pi = seq_view(cfg.pins_input@);
                let ghost pb = seq_view(cfg.pins_output_backup@);
                let ghost m0 = pairs_view(self.backup_map@);
                let mut error_found = false;
                let mut i: usize = 0;
                let n = cfg.number_of_pins;
                proof {
                    assert((pairs_view(self.backup_map@), writes_view(writes@), error_found)
                        =~= spec_check_signal(m0, pi, pb, vals@, inputs@, 0));
                }
                while i < n
                    invariant
                        i <= n,
                        n == cfg.number_of_pins,
                        cfg.wf(),
                        inputs@.len() == n,
                        vals@.len() == n,
                        pi == seq_view(cfg.pins_input@),
                        pb == seq_view(cfg.pins_output_backup@),
                        self.main_aspect == old(self).main_aspect,
                        self.main_aspect_string@ == old(self).main_aspect_string@,
                        self.brightness == old(self).brightness,
                        (pairs_view(self.backup_map@), writes_view(writes@), error_found)
                            == spec_check_signal(m0, pi, pb, vals@, inputs@, i as int),
                    decreases n - i,
                {
                    let ghost step = spec_check_signal(m0, pi, pb, vals@, inputs@, i + 1);
                    let ghost map_before = self.backup_map@;
                    let ghost writes_before = writes@;
                    proof {
                        assert(pi[i as int] == cfg.pins_input@[i as int]@);
                        assert(pb[i as int] == cfg.pins_output_backup@[i as int]@);
                    }
                    if vals[i] == 1 && !inputs[i] {
                        let pin = &cfg.pins_input[i];
                        if backup_contains(&self.backup_map, pin) {
                            error_found = true;
                        } else {
                            let backup_pin = &cfg.pins_output_backup[i];
                            writes.push((backup_pin.clone(), vals[i]));
                            self.backup_map.push((pin.clone(), backup_pin.clone()));
                            error_found = true;
                            proof {
                                assert(pairs_view(self.backup_map@) =~= pairs_view(
                                    map_before,
                                ).push((pin@, backup_pin@)));
                                assert(writes_view(writes@) =~= writes_view(writes_before).push(
                                    (backup_pin@, vals@[i as int]),
                                ));
                            }
                        }
                    }
                    proof {
                        assert(pairs_view(self.backup_map@) =~= step.0);
                        assert(writes_view(writes@) =~= step.1);
                        assert(error_found == step.2);
                    }
                    i = i + 1;
                }
                (writes, error_found)
            },
        }
    }

    /// Changes the brightness: remembers it and returns the level for
    /// the day-night output pin.
    pub fn change_brightness(&mut self, brightness: Brightness) -> (level: u8)
        ensures
            final(self).brightness == brightness,
            final(self).main_aspect == old(self).main_aspect,
            final(self).main_aspect_string@ == old(self).main_aspect_string@,
            final(self).backup_map == old(self).backup_map,
            level == spec_brightness_level(brightness),
    {
        self.brightness = brightness;
        if brightness == Brightness::Night {
            0
        } else {
            1
        }
    }

    /// The brightness reported in status telegrams.
    pub fn brightness_status(&self) -> (r: Brightness)
        ensures
            r == self.brightness,
    {
        self.brightness
    }
}

} // verus!
