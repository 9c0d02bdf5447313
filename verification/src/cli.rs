//! The command-line reading of the configuration: a left-to-right fold
//! over the argument words, each flag editing one setting, a flag that
//! takes a value consuming the word after it, and unknown words
//! ignored. The process edge collects the argument words, answers the
//! help flags itself, and hands the rest here; the accepted
//! configuration is validated before it is returned.

use vstd::prelude::*;
use vstd::string::*;
use crate::config::{
    add_screen_spec, lemma_deep_view_chars, valid_config_view, AppConfig, AppConfigView,
    ConfigError,
};
use crate::screen_factory::is_known_screen;
use crate::text::{
    parse_u64, parse_u64_spec, parse_u8, parse_u8_hex, parse_u8_hex_spec, parse_u8_spec,
    split_on_char, split_spec, starts_with_str, str_eq, strip_all_prefix, strip_prefix_all,
};

verus! {

/// The configuration with the one-shot clear mode on.
pub open spec fn with_clear(c: AppConfigView) -> AppConfigView {
    AppConfigView { clear_only: true, ..c }
}

/// The configuration with daemon mode on.
pub open spec fn with_daemon(c: AppConfigView) -> AppConfigView {
    AppConfigView { daemon_mode: true, ..c }
}

/// The configuration with the update interval set.
pub open spec fn with_interval(c: AppConfigView, v: u64) -> AppConfigView {
    AppConfigView { interval_seconds: v, ..c }
}

/// The configuration with the rotation interval set.
pub open spec fn with_duration(c: AppConfigView, v: u64) -> AppConfigView {
    AppConfigView { screen_duration_secs: v, ..c }
}

/// The configuration with the screen list replaced.
pub open spec fn with_screens(c: AppConfigView, s: Seq<Seq<char>>) -> AppConfigView {
    AppConfigView { enabled_screens: s, ..c }
}

/// The configuration with one screen added under the overview
/// replacement rule.
pub open spec fn with_added_screen(c: AppConfigView, name: Seq<char>) -> AppConfigView {
    AppConfigView { enabled_screens: add_screen_spec(c.enabled_screens, name), ..c }
}

/// The configuration with the multiplexer on.
pub open spec fn with_mux(c: AppConfigView) -> AppConfigView {
    AppConfigView { mux_enabled: true, ..c }
}

/// The configuration with the channel set and the multiplexer on.
pub open spec fn with_channel(c: AppConfigView, ch: u8) -> AppConfigView {
    AppConfigView { mux_channel: ch, mux_enabled: true, ..c }
}

/// The configuration with the multiplexer address set.
pub open spec fn with_address(c: AppConfigView, a: u8) -> AppConfigView {
    AppConfigView { mux_address: a, ..c }
}

/// The fold of the argument words from position `i` on, before
/// validation: the edited configuration, or the channel of a rejected
/// `--mux-channel` value.
pub open spec fn cli_fold(cfg: AppConfigView, args: Seq<Seq<char>>, i: int) -> Result<
    AppConfigView,
    u8,
>
    decreases args.len() - i,
{
    if i < 0 || i >= args.len() {
        Ok(cfg)
    } else {
        let a = args[i];
        if a == "--clear"@ {
            cli_fold(with_clear(cfg), args, i + 1)
        } else if a == "--daemon"@ || a == "-d"@ {
            cli_fold(with_daemon(cfg), args, i + 1)
        } else if a == "--interval"@ || a == "-i"@ {
            if i + 1 < args.len() && parse_u64_spec(args[i + 1]) is Some {
                cli_fold(with_interval(cfg, parse_u64_spec(args[i + 1])->0), args, i + 2)
            } else {
                cli_fold(cfg, args, i + 1)
            }
        } else if a == "--screen-duration"@ || a == "-s"@ {
            if i + 1 < args.len() && parse_u64_spec(args[i + 1]) is Some {
                cli_fold(with_duration(cfg, parse_u64_spec(args[i + 1])->0), args, i + 2)
            } else {
                cli_fold(cfg, args, i + 1)
            }
        } else if a == "--screens"@ {
            if i + 1 < args.len() {
                cli_fold(with_screens(cfg, split_spec(args[i + 1], ',')), args, i + 2)
            } else {
                cli_fold(cfg, args, i + 1)
            }
        } else if a == "--network"@ {
            cli_fold(with_added_screen(cfg, "network"@), args, i + 1)
        } else if a == "--system"@ {
            cli_fold(with_added_screen(cfg, "system"@), args, i + 1)
        } else if a == "--storage"@ {
            cli_fold(with_added_screen(cfg, "storage"@), args, i + 1)
        } else if a == "--hardware"@ {
            cli_fold(with_added_screen(cfg, "hardware"@), args, i + 1)
        } else if a == "--temperature"@ {
            cli_fold(with_added_screen(cfg, "temperature"@), args, i + 1)
        } else if a == "--gpio"@ {
            cli_fold(with_added_screen(cfg, "gpio"@), args, i + 1)
        } else if a == "--overview"@ {
            cli_fold(with_added_screen(cfg, "overview"@), args, i + 1)
        } else if a == "--mux"@ {
            cli_fold(with_mux(cfg), args, i + 1)
        } else if a == "--mux-channel"@ {
            if i + 1 < args.len() && parse_u8_spec(args[i + 1]) is Some {
                let c = parse_u8_spec(args[i + 1])->0;
                if c > 7 {
                    Err(c)
                } else {
                    cli_fold(with_channel(cfg, c), args, i + 2)
                }
            } else {
                cli_fold(cfg, args, i + 1)
            }
        } else if a == "--mux-address"@ {
            if i + 1 < args.len() && parse_u8_hex_spec(strip_all_prefix(args[i + 1], "0x"@))
                is Some {
                cli_fold(
                    with_address(cfg, parse_u8_hex_spec(strip_all_prefix(args[i + 1], "0x"@))->0),
                    args,
                    i + 2,
                )
            } else {
                cli_fold(cfg, args, i + 1)
            }
        } else if ("--interval="@).is_prefix_of(a) {
            let val = a.skip("--interval="@.len() as int);
            if parse_u64_spec(val) is Some {
                cli_fold(with_interval(cfg, parse_u64_spec(val)->0), args, i + 1)
            } else {
                cli_fold(cfg, args, i + 1)
            }
        } else if ("--screen-duration="@).is_prefix_of(a) {
            let val = a.skip("--screen-duration="@.len() as int);
            if parse_u64_spec(val) is Some {
                cli_fold(with_duration(cfg, parse_u64_spec(val)->0), args, i + 1)
            } else {
                cli_fold(cfg, args, i + 1)
            }
        } else if ("--screens="@).is_prefix_of(a) {
            let val = a.skip("--screens="@.len() as int);
            cli_fold(with_screens(cfg, split_spec(val, ',')), args, i + 1)
        } else if ("--mux-channel="@).is_prefix_of(a) {
            let val = a.skip("--mux-channel="@.len() as int);
            if parse_u8_spec(val) is Some {
                let c = parse_u8_spec(val)->0;
                if c > 7 {
                    Err(c)
                } else {
                    cli_fold(with_channel(cfg, c), args, i + 1)
                }
            } else {
                cli_fold(cfg, args, i + 1)
            }
        } else if ("--mux-address="@).is_prefix_of(a) {
            let val = a.skip("--mux-address="@.len() as int);
            if parse_u8_hex_spec(strip_all_prefix(val, "0x"@)) is Some {
                cli_fold(
                    with_address(cfg, parse_u8_hex_spec(strip_all_prefix(val, "0x"@))->0),
                    args,
                    i + 1,
                )
            } else {
                cli_fold(cfg, args, i + 1)
            }
        } else {
            cli_fold(cfg, args, i + 1)
        }
    }
}

/// Reads the configuration from argument words.
pub struct CliParser;

impl CliParser {
    /// Folds the argument words after the program name over `base` and
    /// validates the outcome. The fold's own rejection — a
    /// `--mux-channel` over 7 — and each validation fault come back as
    /// the matching configuration error.
    #[verifier::rlimit(100)]
    #[verifier::spinoff_prover]
    pub fn parse(args: &Vec<String>, base: AppConfig) -> (r: Result<AppConfig, ConfigError>)
        ensures
            cli_fold(base@, args.deep_view(), 1) matches Err(c) ==> (r matches Err(
                ConfigError::InvalidMultiplexerChannel(cc),
            ) && cc == c),
            cli_fold(base@, args.deep_view(), 1) matches Ok(v) ==> {
                &&& ((r is Ok) <==> valid_config_view(v))
                &&& (r matches Ok(cfg) ==> cfg@ == v)
                &&& (v.interval_seconds == 0 ==> r matches Err(ConfigError::InvalidInterval))
                &&& (v.interval_seconds > 0 && v.screen_duration_secs == 0 ==> r matches Err(
                    ConfigError::InvalidScreenDuration,
                ))
                &&& (v.interval_seconds > 0 && v.screen_duration_secs > 0
                    && v.enabled_screens.len() == 0 ==> r matches Err(
                    ConfigError::NoScreensEnabled,
                ))
                &&& (r matches Err(ConfigError::InvalidScreen(s)) ==> exists|j: int|
                    0 <= j < v.enabled_screens.len() && s@ == v.enabled_screens[j]
                        && !is_known_screen(s@) && (forall|k: int|
                        0 <= k < j ==> is_known_screen(v.enabled_screens[k])))
                &&& (v.interval_seconds > 0 && v.screen_duration_secs > 0
                    && v.enabled_screens.len() > 0 && (forall|i: int|
                    0 <= i < v.enabled_screens.len() ==> is_known_screen(v.enabled_screens[i]))
                    && v.mux_channel > 7 ==> (r matches Err(
                    ConfigError::InvalidMultiplexerChannel(c),
                ) && c == v.mux_channel))
            },
    {
        let ghost argsv = args.deep_view();
        proof {
            lemma_deep_view_chars(*args);
        }
        let mut config = base;
        let mut i: usize = 1;
        while i < args.len()
            invariant
                1 <= i,
                args@.len() == 0 ==> i == 1,
                args@.len() > 0 ==> i <= args@.len(),
                argsv == args.deep_view(),
                argsv.len() == args@.len(),
                forall|k: int| 0 <= k < args@.len() ==> argsv[k] == args@[k]@,
                cli_fold(base@, argsv, 1) == cli_fold(config@, argsv, i as int),
            decreases args@.len() - i,
        {
            let a = args[i].as_str();
            proof {
                assert(argsv[i as int] == a@);
            }
            if str_eq(a, "--clear") {
                let ghost prev = config@;
                config.clear_only = true;
                proof {
                    assert(config@ == with_clear(prev));
                    assert(cli_fold(prev, argsv, i as int) == cli_fold(config@, argsv, i + 1));
                }
                i += 1;
            } else if str_eq(a, "--daemon") || str_eq(a, "-d") {
                let ghost prev = config@;
                config.daemon_mode = true;
                proof {
                    assert(config@ == with_daemon(prev));
                    assert(cli_fold(prev, argsv, i as int) == cli_fold(config@, argsv, i + 1));
                }
                i += 1;
            } else if str_eq(a, "--interval") || str_eq(a, "-i") {
                let mut consumed = false;
                match Self::get_next_arg(args, i) {
                    Some(value) => {
                        match parse_u64(value.as_str()) {
                            Some(v) => {
                                let ghost prev = config@;
                                config.interval_seconds = v;
                                proof {
                                    assert(config@ == with_interval(prev, v));
                                    assert(cli_fold(prev, argsv, i as int) == cli_fold(
                                        config@,
                                        argsv,
                                        i + 2,
                                    ));
                                }
                                consumed = true;
                            },
                            None => {
                                proof {
                                    assert(cli_fold(config@, argsv, i as int) == cli_fold(
                                        config@,
                                        argsv,
                                        i + 1,
                                    ));
                                }
                            },
                        }
                    },
                    None => {
                        proof {
                            assert(cli_fold(config@, argsv, i as int) == cli_fold(
                                config@,
                                argsv,
                                i + 1,
                            ));
                        }
                    },
                }
                if consumed {
                    i += 2;
                } else {
                    i += 1;
                }
            } else if str_eq(a, "--screen-duration") || str_eq(a, "-s") {
                let mut consumed = false;
                match Self::get_next_arg(args, i) {
                    Some(value) => {
                        match parse_u64(value.as_str()) {
                            Some(v) => {
                                let ghost prev = config@;
                                config.screen_duration_secs = v;
                                proof {
                                    assert(config@ == with_duration(prev, v));
                                    assert(cli_fold(prev, argsv, i as int) == cli_fold(
                                        config@,
                                        argsv,
                                        i + 2,
                                    ));
                                }
                                consumed = true;
                            },
                            None => {
                                proof {
                                    assert(cli_fold(config@, argsv, i as int) == cli_fold(
                                        config@,
                                        argsv,
                                        i + 1,
                                    ));
                                }
                            },
                        }
                    },
                    None => {
                        proof {
                            assert(cli_fold(config@, argsv, i as int) == cli_fold(
                                config@,
                                argsv,
                                i + 1,
                            ));
                        }
                    },
                }
                if consumed {
                    i += 2;
                } else {
                    i += 1;
                }
            } else if str_eq(a, "--screens") {
                let mut consumed = false;
                match Self::get_next_arg(args, i) {
                    Some(value) => {
                        let parts = split_on_char(value.as_str(), ',');
                        let ghost prev = config@;
                        config.enabled_screens = parts;
                        proof {
                            lemma_deep_view_chars(config.enabled_screens);
                            assert(config.enabled_screens.deep_view() =~~= split_spec(
                                argsv[i + 1],
                                ',',
                            ));
                            assert(config@ == with_screens(prev, split_spec(argsv[i + 1], ',')));
                            assert(cli_fold(prev, argsv, i as int) == cli_fold(
                                config@,
                                argsv,
                                i + 2,
                            ));
                        }
                        consumed = true;
                    },
                    None => {
                        proof {
                            assert(cli_fold(config@, argsv, i as int) == cli_fold(
                                config@,
                                argsv,
                                i + 1,
                            ));
                        }
                    },
                }
                if consumed {
                    i += 2;
                } else {
                    i += 1;
                }
            } else if str_eq(a, "--network") {
                let ghost prev = config@;
                config.add_screen("network");
                proof {
                    assert(config@ == with_added_screen(prev, "network"@));
                    assert(cli_fold(prev, argsv, i as int) == cli_fold(config@, argsv, i + 1));
                }
                i += 1;
            } else if str_eq(a, "--system") {
                let ghost prev = config@;
                config.add_screen("system");
                proof {
                    assert(config@ == with_added_screen(prev, "system"@));
                    assert(cli_fold(prev, argsv, i as int) == cli_fold(config@, argsv, i + 1));
                }
                i += 1;
            } else if str_eq(a, "--storage") {
                let ghost prev = config@;
                config.add_screen("storage");
                proof {
                    assert(config@ == with_added_screen(prev, "storage"@));
                    assert(cli_fold(prev, argsv, i as int) == cli_fold(config@, argsv, i + 1));
                }
                i += 1;
            } else if str_eq(a, "--hardware") {
                let ghost prev = config@;
                config.add_screen("hardware");
                proof {
                    assert(config@ == with_added_screen(prev, "hardware"@));
                    assert(cli_fold(prev, argsv, i as int) == cli_fold(config@, argsv, i + 1));
                }
                i += 1;
            } else if str_eq(a, "--temperature") {
                let ghost prev = config@;
                config.add_screen("temperature");
                proof {
                    assert(config@ == with_added_screen(prev, "temperature"@));
                    assert(cli_fold(prev, argsv, i as int) == cli_fold(config@, argsv, i + 1));
                }
                i += 1;
            } else if str_eq(a, "--gpio") {
                let ghost prev = config@;
                config.add_screen("gpio");
                proof {
                    assert(config@ == with_added_screen(prev, "gpio"@));
                    assert(cli_fold(prev, argsv, i as int) == cli_fold(config@, argsv, i + 1));
                }
                i += 1;
            } else if str_eq(a, "--overview") {
                let ghost prev = config@;
                config.add_screen("overview");
                proof {
                    assert(config@ == with_added_screen(prev, "overview"@));
                    assert(cli_fold(prev, argsv, i as int) == cli_fold(config@, argsv, i + 1));
                }
                i += 1;
            } else if str_eq(a, "--mux") {
                let ghost prev = config@;
                config.enable_multiplexer();
                proof {
                    assert(config@ == with_mux(prev));
                    assert(cli_fold(prev, argsv, i as int) == cli_fold(config@, argsv, i + 1));
                }
                i += 1;
            } else if str_eq(a, "--mux-channel") {
                let mut consumed = false;
                match Self::get_next_arg(args, i) {
                    Some(value) => {
                        match parse_u8(value.as_str()) {
                            Some(c) => {
                                let ghost prev = config@;
                                match config.set_multiplexer_channel(c) {
                                    Ok(_) => {
                                        proof {
                                            assert(config@ == with_channel(prev, c));
                                            assert(cli_fold(prev, argsv, i as int) == cli_fold(
                                                config@,
                                                argsv,
                                                i + 2,
                                            ));
                                        }
                                        consumed = true;
                                    },
                                    Err(e) => {
                                        proof {
                                            assert(cli_fold(prev, argsv, i as int) == Err::<
                                                AppConfigView,
                                                u8,
                                            >(c));
                                        }
                                        return Err(e);
                                    },
                                }
                            },
                            None => {
                                proof {
                                    assert(cli_fold(config@, argsv, i as int) == cli_fold(
                                        config@,
                                        argsv,
                                        i + 1,
                                    ));
                                }
                            },
                        }
                    },
                    None => {
                        proof {
                            assert(cli_fold(config@, argsv, i as int) == cli_fold(
                                config@,
                                argsv,
                                i + 1,
                            ));
                        }
                    },
                }
                if consumed {
                    i += 2;
                } else {
                    i += 1;
                }
            } else if str_eq(a, "--mux-address") {
                let mut consumed = false;
                match Self::get_next_arg(args, i) {
                    Some(value) => {
                        match parse_u8_hex(strip_prefix_all(value.as_str(), "0x")) {
                            Some(addr) => {
                                let ghost prev = config@;
                                config.set_multiplexer_address(addr);
                                proof {
                                    assert(config@ == with_address(prev, addr));
                                    assert(cli_fold(prev, argsv, i as int) == cli_fold(
                                        config@,
                                        argsv,
                                        i + 2,
                                    ));
                                }
                                consumed = true;
                            },
                            None => {
                                proof {
                                    assert(cli_fold(config@, argsv, i as int) == cli_fold(
                                        config@,
                                        argsv,
                                        i + 1,
                                    ));
                                }
                            },
                        }
                    },
                    None => {
                        proof {
                            assert(cli_fold(config@, argsv, i as int) == cli_fold(
                                config@,
                                argsv,
                                i + 1,
                            ));
                        }
                    },
                }
                if consumed {
                    i += 2;
                } else {
                    i += 1;
                }
            } else if starts_with_str(a, "--interval=") {
                let plen = "--interval=".unicode_len();
                let alen = a.unicode_len();
                let value = a.substring_char(plen, alen);
                proof {
                    assert(value@ =~= a@.skip("--interval="@.len() as int));
                }
                match parse_u64(value) {
                    Some(v) => {
                        let ghost prev = config@;
                        config.interval_seconds = v;
                        proof {
                            assert(config@ == with_interval(prev, v));
                            assert(cli_fold(prev, argsv, i as int) == cli_fold(
                                config@,
                                argsv,
                                i + 1,
                            ));
                        }
                    },
                    None => {
                        proof {
                            assert(cli_fold(config@, argsv, i as int) == cli_fold(
                                config@,
                                argsv,
                                i + 1,
                            ));
                        }
                    },
                }
                i += 1;
            } else if starts_with_str(a, "--screen-duration=") {
                let plen = "--screen-duration=".unicode_len();
                let alen = a.unicode_len();
                let value = a.substring_char(plen, alen);
                proof {
                    assert(value@ =~= a@.skip("--screen-duration="@.len() as int));
                }
                match parse_u64(value) {
                    Some(v) => {
                        let ghost prev = config@;
                        config.screen_duration_secs = v;
                        proof {
                            assert(config@ == with_duration(prev, v));
                            assert(cli_fold(prev, argsv, i as int) == cli_fold(
                                config@,
                                argsv,
                                i + 1,
                            ));
                        }
                    },
                    None => {
                        proof {
                            assert(cli_fold(config@, argsv, i as int) == cli_fold(
                                config@,
                                argsv,
                                i + 1,
                            ));
                        }
                    },
                }
                i += 1;
            } else if starts_with_str(a, "--screens=") {
                let plen = "--screens=".unicode_len();
                let alen = a.unicode_len();
                let value = a.substring_char(plen, alen);
                proof {
                    assert(value@ =~= a@.skip("--screens="@.len() as int));
                }
                let parts = split_on_char(value, ',');
                let ghost prev = config@;
                config.enabled_screens = parts;
                proof {
                    lemma_deep_view_chars(config.enabled_screens);
                    assert(config.enabled_screens.deep_view() =~~= split_spec(value@, ','));
                    assert(config@ == with_screens(prev, split_spec(value@, ',')));
                    assert(cli_fold(prev, argsv, i as int) == cli_fold(config@, argsv, i + 1));
                }
                i += 1;
            } else if starts_with_str(a, "--mux-channel=") {
                let plen = "--mux-channel=".unicode_len();
                let alen = a.unicode_len();
                let value = a.substring_char(plen, alen);
                proof {
                    assert(value@ =~= a@.skip("--mux-channel="@.len() as int));
                }
                match parse_u8(value) {
                    Some(c) => {
                        let ghost prev = config@;
                        match config.set_multiplexer_channel(c) {
                            Ok(_) => {
                                proof {
                                    assert(config@ == with_channel(prev, c));
                                    assert(cli_fold(prev, argsv, i as int) == cli_fold(
                                        config@,
                                        argsv,
                                        i + 1,
                                    ));
                                }
                            },
                            Err(e) => {
                                proof {
                                    assert(cli_fold(prev, argsv, i as int) == Err::<
                                        AppConfigView,
                                        u8,
                                    >(c));
                                }
                                return Err(e);
                            },
                        }
                    },
                    None => {
                        proof {
                            assert(cli_fold(config@, argsv, i as int) == cli_fold(
                                config@,
                                argsv,
                                i + 1,
                            ));
                        }
                    },
                }
                i += 1;
            } else if starts_with_str(a, "--mux-address=") {
                let plen = "--mux-address=".unicode_len();
                let alen = a.unicode_len();
                let value = a.substring_char(plen, alen);
                proof {
                    assert(value@ =~= a@.skip("--mux-address="@.len() as int));
                }
                match parse_u8_hex(strip_prefix_all(value, "0x")) {
                    Some(addr) => {
                        let ghost prev = config@;
                        config.set_multiplexer_address(addr);
                        proof {
                            assert(config@ == with_address(prev, addr));
                            assert(cli_fold(prev, argsv, i as int) == cli_fold(
                                config@,
                                argsv,
                                i + 1,
                            ));
                        }
                    },
                    None => {
                        proof {
                            assert(cli_fold(config@, argsv, i as int) == cli_fold(
                                config@,
                                argsv,
                                i + 1,
                            ));
                        }
                    },
                }
                i += 1;
            } else {
                proof {
                    assert(cli_fold(config@, argsv, i as int) == cli_fold(config@, argsv, i + 1));
                }
                i += 1;
            }
        }
        proof {
            assert(cli_fold(config@, argsv, i as int) == Ok::<AppConfigView, u8>(config@));
            lemma_deep_view_chars(config.enabled_screens);
            if forall|k: int|
                0 <= k < config@.enabled_screens.len() ==> is_known_screen(
                    config@.enabled_screens[k],
                ) {
                assert forall|k: int|
                    0 <= k < config.enabled_screens@.len() implies is_known_screen(
                    config.enabled_screens@[k]@,
                ) by {
                    assert(config@.enabled_screens[k] == config.enabled_screens@[k]@);
                    assert(is_known_screen(config@.enabled_screens[k]));
                }
            }
        }
        match config.validate() {
            Ok(_) => Ok(config),
            Err(e) => {
                proof {
                    match &e {
                        ConfigError::InvalidScreen(s) => {
                            let j = choose|j: int|
                                0 <= j < config.enabled_screens@.len() && s@
                                    == config.enabled_screens@[j]@ && !is_known_screen(s@) && (
                                forall|k: int|
                                    0 <= k < j ==> is_known_screen(config.enabled_screens@[k]@));
                            assert(config@.enabled_screens[j] == config.enabled_screens@[j]@);
                            assert forall|k: int|
                                0 <= k < j implies is_known_screen(
                                config@.enabled_screens[k],
                            ) by {
                                assert(config@.enabled_screens[k] == config.enabled_screens@[k]@);
                            }
                            assert(0 <= j < config@.enabled_screens.len() && s@
                                == config@.enabled_screens[j] && !is_known_screen(s@) && (forall|
                                k: int,
                            |
                                0 <= k < j ==> is_known_screen(config@.enabled_screens[k])));
                        },
                        _ => {},
                    }
                }
                Err(e)
            },
        }
    }

    /// The word after position `index`, when there is one.
    pub fn get_next_arg(args: &Vec<String>, index: usize) -> (r: Option<&String>)
        ensures
            index + 1 < args@.len() ==> (r matches Some(s) && s@ == args@[index + 1]@),
            index + 1 >= args@.len() ==> r is None,
    {
        let n = args.len();
        if index < n && index + 1 < n {
            Some(&args[index + 1])
        } else {
            None
        }
    }
}

} // verus!
