//! Resolved configuration: update and rotation intervals, the enabled
//! screen list, run modes and the multiplexer settings, with their
//! validation rules. Environment text reaches this module only as
//! plain optional strings that the process edge has already read.

use vstd::prelude::*;
use vstd::string::*;
use crate::screen_factory::{is_known_screen, ScreenFactory};
use crate::text::{
    is_truthy, is_truthy_spec, parse_u64, parse_u64_spec, parse_u8, parse_u8_hex,
    parse_u8_hex_spec, parse_u8_spec, split_on_char, split_spec, str_eq, strip_all_prefix,
    strip_prefix_all, trim, trim_spec,
};

verus! {

/// The resolved settings of the process.
#[derive(Clone, Debug)]
pub struct AppConfig {
    pub interval_seconds: u64,
    pub screen_duration_secs: u64,
    pub enabled_screens: Vec<String>,
    pub daemon_mode: bool,
    pub clear_only: bool,
    pub multiplexer: MultiplexerConfig,
}

/// Whether and how the display sits behind the channel multiplexer.
#[derive(Clone, Copy, PartialEq, Eq, Structural, Debug)]
pub struct MultiplexerConfig {
    pub enabled: bool,
    pub channel: u8,
    pub address: u8,
}

/// A rejected configuration, by its first offending setting.
#[derive(Clone, Debug)]
pub enum ConfigError {
    InvalidInterval,
    InvalidScreenDuration,
    NoScreensEnabled,
    InvalidScreen(String),
    InvalidMultiplexerChannel(u8),
}

/// The mathematical image of a configuration.
pub struct AppConfigView {
    pub interval_seconds: u64,
    pub screen_duration_secs: u64,
    pub enabled_screens: Seq<Seq<char>>,
    pub daemon_mode: bool,
    pub clear_only: bool,
    pub mux_enabled: bool,
    pub mux_channel: u8,
    pub mux_address: u8,
}

impl View for AppConfig {
    type V = AppConfigView;

    open spec fn view(&self) -> AppConfigView {
        AppConfigView {
            interval_seconds: self.interval_seconds,
            screen_duration_secs: self.screen_duration_secs,
            enabled_screens: self.enabled_screens.deep_view(),
            daemon_mode: self.daemon_mode,
            clear_only: self.clear_only,
            mux_enabled: self.multiplexer.enabled,
            mux_channel: self.multiplexer.channel,
            mux_address: self.multiplexer.address,
        }
    }
}

/// A configuration the process accepts: positive intervals, at least
/// one screen, every screen known, and a channel in 0..=7.
pub open spec fn valid_config_view(v: AppConfigView) -> bool {
    &&& v.interval_seconds > 0
    &&& v.screen_duration_secs > 0
    &&& v.enabled_screens.len() > 0
    &&& (forall|i: int|
        0 <= i < v.enabled_screens.len() ==> is_known_screen(v.enabled_screens[i]))
    &&& v.mux_channel <= 7
}

/// How one identifier joins the enabled list: the first specific
/// screen replaces the lone default overview, a new identifier is
/// appended, a present one changes nothing.
pub open spec fn add_screen_spec(screens: Seq<Seq<char>>, name: Seq<char>) -> Seq<Seq<char>> {
    if screens == seq!["overview"@] && name != "overview"@ {
        seq![name]
    } else if screens.contains(name) {
        screens
    } else {
        screens.push(name)
    }
}

/// The optional raw texts of the recognized environment settings, as
/// the process edge found them.
#[derive(Clone, Debug, Default)]
pub struct EnvOverrides {
    pub interval: Option<String>,
    pub screen_duration: Option<String>,
    pub screens: Option<String>,
    pub daemon: Option<String>,
    pub mux_enabled: Option<String>,
    pub mux_channel: Option<String>,
    pub mux_address: Option<String>,
}

/// A positive number read from an optional override, else the current
/// value.
pub open spec fn override_positive_u64(cur: u64, o: Option<String>) -> u64 {
    match o {
        Some(s) => match parse_u64_spec(s@) {
            Some(v) => if v > 0 {
                v
            } else {
                cur
            },
            None => cur,
        },
        None => cur,
    }
}

/// A yes flag read from an optional override, else the current value.
pub open spec fn override_flag(cur: bool, o: Option<String>) -> bool {
    match o {
        Some(s) => is_truthy_spec(s@),
        None => cur,
    }
}

/// A channel in 0..=7 read from an optional override, else the current
/// value.
pub open spec fn override_channel(cur: u8, o: Option<String>) -> u8 {
    match o {
        Some(s) => match parse_u8_spec(s@) {
            Some(c) => if c <= 7 {
                c
            } else {
                cur
            },
            None => cur,
        },
        None => cur,
    }
}

/// An address read from an optional override — hexadecimal after any
/// `0x` prefixes, else decimal — or the current value.
pub open spec fn override_address(cur: u8, o: Option<String>) -> u8 {
    match o {
        Some(s) => match parse_u8_hex_spec(strip_all_prefix(s@, "0x"@)) {
            Some(a) => a,
            None => match parse_u8_spec(s@) {
                Some(a) => a,
                None => cur,
            },
        },
        None => cur,
    }
}

/// The identifiers kept from a comma-separated override: each piece
/// trimmed, empty and unknown ones dropped, order kept.
pub open spec fn picked_screens(pieces: Seq<Seq<char>>) -> Seq<Seq<char>>
    decreases pieces.len(),
{
    if pieces.len() == 0 {
        Seq::empty()
    } else {
        let rest = picked_screens(pieces.drop_last());
        let t = trim_spec(pieces.last());
        if t.len() > 0 && is_known_screen(t) {
            rest.push(t)
        } else {
            rest
        }
    }
}

/// The screen list after an optional override: the kept identifiers
/// when any survive, else the current list.
pub open spec fn override_screens(cur: Seq<Seq<char>>, o: Option<String>) -> Seq<Seq<char>> {
    match o {
        Some(s) => {
            let picked = picked_screens(split_spec(s@, ','));
            if picked.len() > 0 {
                picked
            } else {
                cur
            }
        },
        None => cur,
    }
}

/// The deep view of a string list is its lists of characters, index by
/// index.
pub(crate) proof fn lemma_deep_view_chars(v: Vec<String>)
    ensures
        v.deep_view().len() == v@.len(),
        forall|i: int| 0 <= i < v@.len() ==> v.deep_view()[i] == v@[i]@,
{
    assert forall|i: int| 0 <= i < v@.len() implies v.deep_view()[i] == v@[i]@ by {}
}

proof fn lemma_picked_push(pieces: Seq<Seq<char>>, x: Seq<char>)
    ensures
        picked_screens(pieces.push(x)) == (if trim_spec(x).len() > 0 && is_known_screen(
            trim_spec(x),
        ) {
            picked_screens(pieces).push(trim_spec(x))
        } else {
            picked_screens(pieces)
        }),
{
    assert(pieces.push(x).drop_last() =~~= pieces);
    assert(pieces.push(x).last() == x);
}

impl Default for AppConfig {
    /// Five-second updates, ten-second rotation, the overview screen
    /// alone, no daemon, no one-shot clear, multiplexer off on address
    /// `0x70` channel 0.
    fn default() -> (r: Self)
        ensures
            r.interval_seconds == 5,
            r.screen_duration_secs == 10,
            r.enabled_screens.deep_view() == seq!["overview"@],
            !r.daemon_mode,
            !r.clear_only,
            r.multiplexer == (MultiplexerConfig { enabled: false, channel: 0, address: 0x70 }),
    {
        let mut enabled_screens: Vec<String> = Vec::new();
        enabled_screens.push(String::from_str("overview"));
        proof {
            assert(enabled_screens.deep_view() =~~= seq!["overview"@]);
        }
        Self {
            interval_seconds: 5,
            screen_duration_secs: 10,
            enabled_screens,
            daemon_mode: false,
            clear_only: false,
            multiplexer: MultiplexerConfig::default(),
        }
    }
}

impl Default for MultiplexerConfig {
    /// Disabled, channel 0, the multiplexer's default address.
    fn default() -> (r: Self)
        ensures
            r == (MultiplexerConfig { enabled: false, channel: 0, address: 0x70 }),
    {
        Self { enabled: false, channel: 0, address: 0x70 }
    }
}

impl AppConfig {
    /// The enabled identifiers as borrowed strings, in order.
    pub fn enabled_screens_as_str_refs(&self) -> (r: Vec<&str>)
        ensures
            r@.len() == self.enabled_screens@.len(),
            forall|i: int| 0 <= i < r@.len() ==> r@[i]@ == self.enabled_screens@[i]@,
    {
        let mut refs: Vec<&str> = Vec::new();
        let mut i: usize = 0;
        while i < self.enabled_screens.len()
            invariant
                0 <= i <= self.enabled_screens@.len(),
                refs@.len() == i,
                forall|j: int| 0 <= j < i ==> refs@[j]@ == self.enabled_screens@[j]@,
            decreases self.enabled_screens@.len() - i,
        {
            refs.push(self.enabled_screens[i].as_str());
            i += 1;
        }
        refs
    }

    /// The defaults with the environment overrides applied.
    pub fn from_env(overrides: &EnvOverrides) -> (r: Self)
        ensures
            r.interval_seconds == override_positive_u64(5, overrides.interval),
            r.screen_duration_secs == override_positive_u64(10, overrides.screen_duration),
            r.enabled_screens.deep_view() == override_screens(
                seq!["overview"@],
                overrides.screens,
            ),
            r.daemon_mode == override_flag(false, overrides.daemon),
            !r.clear_only,
            r.multiplexer.enabled == override_flag(false, overrides.mux_enabled),
            r.multiplexer.channel == override_channel(0, overrides.mux_channel),
            r.multiplexer.address == override_address(0x70, overrides.mux_address),
    {
        let mut config = Self::default();
        config.apply_env_vars(overrides);
        config
    }

    /// Applies each environment override independently: a setting with
    /// no override, or one whose text does not parse to an acceptable
    /// value, keeps its current value.
    pub fn apply_env_vars(&mut self, overrides: &EnvOverrides)
        ensures
            final(self).interval_seconds == override_positive_u64(
                old(self).interval_seconds,
                overrides.interval,
            ),
            final(self).screen_duration_secs == override_positive_u64(
                old(self).screen_duration_secs,
                overrides.screen_duration,
            ),
            final(self).enabled_screens.deep_view() == override_screens(
                old(self).enabled_screens.deep_view(),
                overrides.screens,
            ),
            final(self).daemon_mode == override_flag(old(self).daemon_mode, overrides.daemon),
            final(self).clear_only == old(self).clear_only,
            final(self).multiplexer.enabled == override_flag(
                old(self).multiplexer.enabled,
                overrides.mux_enabled,
            ),
            final(self).multiplexer.channel == override_channel(
                old(self).multiplexer.channel,
                overrides.mux_channel,
            ),
            final(self).multiplexer.address == override_address(
                old(self).multiplexer.address,
                overrides.mux_address,
            ),
    {
        match &overrides.interval {
            Some(s) => {
                match parse_u64(s.as_str()) {
                    Some(v) => {
                        if v > 0 {
                            self.interval_seconds = v;
                        }
                    },
                    None => {},
                }
            },
            None => {},
        }
        match &overrides.screen_duration {
            Some(s) => {
                match parse_u64(s.as_str()) {
                    Some(v) => {
                        if v > 0 {
                            self.screen_duration_secs = v;
                        }
                    },
                    None => {},
                }
            },
            None => {},
        }
        match &overrides.screens {
            Some(s) => {
                let picked = Self::pick_screens(s.as_str());
                if picked.len() > 0 {
                    self.enabled_screens = picked;
                }
            },
            None => {},
        }
        match &overrides.daemon {
            Some(s) => {
                self.daemon_mode = is_truthy(s.as_str());
            },
            None => {},
        }
        match &overrides.mux_enabled {
            Some(s) => {
                self.multiplexer.enabled = is_truthy(s.as_str());
            },
            None => {},
        }
        match &overrides.mux_channel {
            Some(s) => {
                match parse_u8(s.as_str()) {
                    Some(c) => {
                        if c <= 7 {
                            self.multiplexer.channel = c;
                        }
                    },
                    None => {},
                }
            },
            None => {},
        }
        match &overrides.mux_address {
            Some(s) => {
                match parse_u8_hex(strip_prefix_all(s.as_str(), "0x")) {
                    Some(a) => {
                        self.multiplexer.address = a;
                    },
                    None => {
                        match parse_u8(s.as_str()) {
                            Some(a) => {
                                self.multiplexer.address = a;
                            },
                            None => {},
                        }
                    },
                }
            },
            None => {},
        }
    }

    /// Splits a comma-separated identifier list, trims each piece, and
    /// keeps the non-empty known ones in order.
    fn pick_screens(s: &str) -> (r: Vec<String>)
        ensures
            r.deep_view() == picked_screens(split_spec(s@, ',')),
    {
        let pieces = split_on_char(s, ',');
        let mut kept: Vec<String> = Vec::new();
        let mut i: usize = 0;
        proof {
            assert(split_spec(s@, ',').subrange(0, 0) =~~= Seq::<Seq<char>>::empty());
            assert(picked_screens(Seq::<Seq<char>>::empty()) =~~= Seq::<Seq<char>>::empty());
            assert(kept.deep_view() =~~= Seq::<Seq<char>>::empty());
        }
        while i < pieces.len()
            invariant
                0 <= i <= pieces@.len(),
                pieces@.len() == split_spec(s@, ',').len(),
                forall|j: int| 0 <= j < pieces@.len() ==> pieces@[j]@ == split_spec(s@, ',')[j],
                kept.deep_view() == picked_screens(split_spec(s@, ',').subrange(0, i as int)),
            decreases pieces@.len() - i,
        {
            let trimmed = trim(pieces[i].as_str());
            proof {
                let full = split_spec(s@, ',');
                assert(full.subrange(0, i + 1) =~~= full.subrange(0, i as int).push(full[i as int]));
                lemma_picked_push(full.subrange(0, i as int), full[i as int]);
            }
            if !trimmed.is_empty() && ScreenFactory::validate_screen_type(trimmed) {
                kept.push(trimmed.to_owned());
                proof {
                    let full = split_spec(s@, ',');
                    assert(kept.deep_view() =~~= picked_screens(full.subrange(0, i + 1)));
                }
            } else {
                proof {
                    let full = split_spec(s@, ',');
                    assert(kept.deep_view() =~~= picked_screens(full.subrange(0, i + 1)));
                }
            }
            i += 1;
        }
        proof {
            assert(split_spec(s@, ',').subrange(0, split_spec(s@, ',').len() as int) =~~= split_spec(
                s@,
                ',',
            ));
        }
        kept
    }

    /// Accepts the configuration or reports its first fault, in a
    /// fixed order: the update interval, the rotation interval, an
    /// empty screen list, the first unknown screen, the channel.
    pub fn validate(&self) -> (r: Result<(), ConfigError>)
        ensures
            (r is Ok) <==> valid_config_view(self@),
            self.interval_seconds == 0 ==> r matches Err(ConfigError::InvalidInterval),
            self.interval_seconds > 0 && self.screen_duration_secs == 0 ==> r matches Err(
                ConfigError::InvalidScreenDuration,
            ),
            self.interval_seconds > 0 && self.screen_duration_secs > 0
                && self.enabled_screens@.len() == 0 ==> r matches Err(ConfigError::NoScreensEnabled),
            r matches Err(ConfigError::InvalidScreen(s)) ==> exists|j: int|
                0 <= j < self.enabled_screens@.len() && s@ == self.enabled_screens@[j]@
                    && !is_known_screen(s@) && (forall|k: int|
                    0 <= k < j ==> is_known_screen(self.enabled_screens@[k]@)),
            self.interval_seconds > 0 && self.screen_duration_secs > 0
                && self.enabled_screens@.len() > 0 && (forall|i: int|
                0 <= i < self.enabled_screens@.len() ==> is_known_screen(
                    self.enabled_screens@[i]@,
                )) && self.multiplexer.channel > 7 ==> (r matches Err(
                ConfigError::InvalidMultiplexerChannel(c),
            ) && c == self.multiplexer.channel),
    {
        proof {
            lemma_deep_view_chars(self.enabled_screens);
        }
        if self.interval_seconds == 0 {
            return Err(ConfigError::InvalidInterval);
        }
        if self.screen_duration_secs == 0 {
            return Err(ConfigError::InvalidScreenDuration);
        }
        if self.enabled_screens.len() == 0 {
            return Err(ConfigError::NoScreensEnabled);
        }
        let mut i: usize = 0;
        while i < self.enabled_screens.len()
            invariant
                0 <= i <= self.enabled_screens@.len(),
                self.interval_seconds > 0,
                self.screen_duration_secs > 0,
                self.enabled_screens@.len() > 0,
                forall|k: int| 0 <= k < i ==> is_known_screen(self.enabled_screens@[k]@),
            decreases self.enabled_screens@.len() - i,
        {
            if !ScreenFactory::validate_screen_type(self.enabled_screens[i].as_str()) {
                proof {
                    lemma_deep_view_chars(self.enabled_screens);
                    assert(!is_known_screen(self@.enabled_screens[i as int]));
                }
                return Err(ConfigError::InvalidScreen(self.enabled_screens[i].clone()));
            }
            i += 1;
        }
        proof {
            lemma_deep_view_chars(self.enabled_screens);
        }
        if self.multiplexer.channel > 7 {
            return Err(ConfigError::InvalidMultiplexerChannel(self.multiplexer.channel));
        }
        Ok(())
    }

    /// Adds one identifier under the replacement rule for the default
    /// overview; everything else stays as it was.
    pub fn add_screen(&mut self, screen: &str)
        ensures
            final(self).enabled_screens.deep_view() == add_screen_spec(
                old(self).enabled_screens.deep_view(),
                screen@,
            ),
            final(self).interval_seconds == old(self).interval_seconds,
            final(self).screen_duration_secs == old(self).screen_duration_secs,
            final(self).daemon_mode == old(self).daemon_mode,
            final(self).clear_only == old(self).clear_only,
            final(self).multiplexer == old(self).multiplexer,
    {
        let is_lone_overview = self.enabled_screens.len() == 1 && str_eq(
            self.enabled_screens[0].as_str(),
            "overview",
        );
        proof {
            lemma_deep_view_chars(self.enabled_screens);
            if self.enabled_screens@.len() == 1 && self.enabled_screens@[0]@ == "overview"@ {
                assert(self.enabled_screens.deep_view() =~~= seq!["overview"@]);
            } else {
                assert(self.enabled_screens.deep_view() != seq!["overview"@]) by {
                    if self.enabled_screens.deep_view() == seq!["overview"@] {
                        assert(self.enabled_screens@.len() == 1);
                        assert(self.enabled_screens.deep_view()[0] == "overview"@);
                        assert(self.enabled_screens@[0]@ == "overview"@);
                    }
                }
            }
        }
        if is_lone_overview && !str_eq(screen, "overview") {
            let mut replaced: Vec<String> = Vec::new();
            replaced.push(screen.to_owned());
            proof {
                assert(replaced.deep_view() =~~= seq![screen@]);
            }
            self.enabled_screens = replaced;
        } else if !self.contains_screen(screen) {
            self.enabled_screens.push(screen.to_owned());
            proof {
                assert(self.enabled_screens.deep_view() =~~= old(self).enabled_screens.deep_view().push(screen@));
            }
        }
    }

    /// Is the identifier already enabled?
    fn contains_screen(&self, screen: &str) -> (r: bool)
        ensures
            r == self.enabled_screens.deep_view().contains(screen@),
    {
        let mut i: usize = 0;
        while i < self.enabled_screens.len()
            invariant
                0 <= i <= self.enabled_screens@.len(),
                forall|j: int| 0 <= j < i ==> self.enabled_screens@[j]@ != screen@,
            decreases self.enabled_screens@.len() - i,
        {
            if str_eq(self.enabled_screens[i].as_str(), screen) {
                proof {
                    assert(self.enabled_screens.deep_view()[i as int] == screen@);
                }
                return true;
            }
            i += 1;
        }
        proof {
            assert forall|j: int|
                0 <= j < self.enabled_screens.deep_view().len()
                    implies self.enabled_screens.deep_view()[j] != screen@ by {
                assert(self.enabled_screens@[j]@ != screen@);
            }
        }
        false
    }

    /// Turns the multiplexer on, leaving channel and address alone.
    pub fn enable_multiplexer(&mut self)
        ensures
            final(self).multiplexer.enabled,
            final(self).multiplexer.channel == old(self).multiplexer.channel,
            final(self).multiplexer.address == old(self).multiplexer.address,
            final(self).interval_seconds == old(self).interval_seconds,
            final(self).screen_duration_secs == old(self).screen_duration_secs,
            final(self).enabled_screens == old(self).enabled_screens,
            final(self).daemon_mode == old(self).daemon_mode,
            final(self).clear_only == old(self).clear_only,
    {
        self.multiplexer.enabled = true;
    }

    /// Sets the channel and turns the multiplexer on, or rejects a
    /// channel over 7 and changes nothing.
    pub fn set_multiplexer_channel(&mut self, channel: u8) -> (r: Result<(), ConfigError>)
        ensures
            channel > 7 ==> (r matches Err(ConfigError::InvalidMultiplexerChannel(c)) && c
                == channel && *final(self) == *old(self)),
            channel <= 7 ==> (r is Ok && final(self).multiplexer.channel == channel && final(self).multiplexer.enabled && final(self).multiplexer.address == old(self).multiplexer.address),
            final(self).interval_seconds == old(self).interval_seconds,
            final(self).screen_duration_secs == old(self).screen_duration_secs,
            final(self).enabled_screens == old(self).enabled_screens,
            final(self).daemon_mode == old(self).daemon_mode,
            final(self).clear_only == old(self).clear_only,
    {
        if channel > 7 {
            return Err(ConfigError::InvalidMultiplexerChannel(channel));
        }
        self.multiplexer.channel = channel;
        self.multiplexer.enabled = true;
        Ok(())
    }

    /// Sets the multiplexer address.
    pub fn set_multiplexer_address(&mut self, address: u8)
        ensures
            final(self).multiplexer.address == address,
            final(self).multiplexer.enabled == old(self).multiplexer.enabled,
            final(self).multiplexer.channel == old(self).multiplexer.channel,
            final(self).interval_seconds == old(self).interval_seconds,
            final(self).screen_duration_secs == old(self).screen_duration_secs,
            final(self).enabled_screens == old(self).enabled_screens,
            final(self).daemon_mode == old(self).daemon_mode,
            final(self).clear_only == old(self).clear_only,
    {
        self.multiplexer.address = address;
    }
}

} // verus!
