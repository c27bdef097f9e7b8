use keel::probe_args::{parse_args, usage, ParsedArgs};
use keel::probe::{Options, base_name, base_name_from, maybe_cancel_ms, maybe_cancel_ticks, parse_command, parse_u32, CancelInjector, Command, Rng};

fn args(v: &[&str]) -> Vec<String> {
    v.iter().map(|s| s.to_string()).collect()
}

#[test]
fn parse_u32_decimal_and_hex() {
    assert_eq!(parse_u32("65537"), Some(65537));
    assert_eq!(parse_u32("0x10001"), Some(65537));
    assert_eq!(parse_u32("0X1f"), Some(31));
    assert_eq!(parse_u32("4294967295"), Some(u32::MAX));
    assert_eq!(parse_u32("4294967296"), None);
    assert_eq!(parse_u32(""), None);
    assert_eq!(parse_u32("0x"), None);
    assert_eq!(parse_u32("12a"), None);
    assert_eq!(parse_u32("-1"), None);
}

#[test]
fn parse_command_subcommands() {
    assert_eq!(parse_command(&args(&["info"])), Ok(Command::Info));
    assert_eq!(
        parse_command(&args(&["up", "/l", "/r"])),
        Ok(Command::Up { local: "/l".to_string(), remote: "/r".to_string() })
    );
    assert_eq!(
        parse_command(&args(&["exists", "/a", "/b"])),
        Ok(Command::Exists { paths: args(&["/a", "/b"]) })
    );
    assert_eq!(parse_command(&args(&["walk"])), Err("walk needs a <path>".to_string()));
    assert_eq!(parse_command(&args(&[])), Err("no subcommand given".to_string()));
    assert_eq!(parse_command(&args(&["frob"])), Err("unknown subcommand frob".to_string()));
}

#[test]
fn rng_is_deterministic_from_its_seed() {
    let mut a = Rng::seeded(42);
    let mut b = Rng::seeded(43);
    // 42 | 1 == 43: the same state.
    for _ in 0..8 {
        assert_eq!(a.next_u64(), b.next_u64());
    }
    let mut c = Rng::seeded(1);
    let x: u64 = 1 ^ (1 << 13);
    let x = x ^ (x >> 7);
    let x = x ^ (x << 17);
    assert_eq!(c.next_u64(), x.wrapping_mul(0x2545_F491_4F6C_DD1D));
    assert_eq!(c.below(0), 0);
    for _ in 0..100 {
        assert!(c.below(7) < 7);
    }
}

#[test]
fn cancel_draws_stay_in_range() {
    let mut r = Rng::seeded(12345);
    for _ in 0..200 {
        if let Some(t) = maybe_cancel_ticks(&mut r) {
            assert!((1..=40).contains(&t));
        }
        if let Some(ms) = maybe_cancel_ms(&mut r) {
            assert!((20..420).contains(&ms));
        }
    }
}

#[test]
fn cancel_injector_fires_at_threshold() {
    let mut c = CancelInjector::new(Some(3));
    assert!(c.armed());
    assert!(!c.should());
    assert!(!c.should());
    assert!(c.should());
    assert!(c.should());
    let mut never = CancelInjector::new(None);
    assert!(!never.armed());
    for _ in 0..10 {
        assert!(!never.should());
    }
}

#[test]
fn base_name_prefers_the_component() {
    assert_eq!(base_name_from("/a/b.txt", Some("b.txt".to_string())), "b.txt");
    assert_eq!(base_name_from("/", None), "/");
}

#[test]
fn parse_args_flags_anywhere() {
    match parse_args(&args(&["walk", "-r", "/DCIM", "--storage", "0x10001", "-n", "+3", "--via-ffi"])) {
        ParsedArgs::Run { options, positional } => {
            assert_eq!(
                options,
                Options {
                    via_ffi: true,
                    dump_dir: None,
                    lib: None,
                    release: false,
                    storage: Some(65537),
                    debug_mode: false,
                    recursive: true,
                    iterations: 3,
                }
            );
            assert_eq!(positional, args(&["walk", "/DCIM"]));
        }
        other => panic!("{other:?}"),
    }
    match parse_args(&args(&[])) {
        ParsedArgs::Run { options, positional } => {
            assert_eq!(options.iterations, 10);
            assert!(positional.is_empty());
        }
        other => panic!("{other:?}"),
    }
}

#[test]
fn parse_args_help_and_errors() {
    assert_eq!(parse_args(&args(&["info", "-h", "--bogus"])), ParsedArgs::Help);
    assert_eq!(parse_args(&args(&["--bogus", "-h"])), ParsedArgs::Error("unknown flag --bogus".to_string()));
    assert_eq!(parse_args(&args(&["--lib"])), ParsedArgs::Error("--lib needs a value".to_string()));
    assert_eq!(
        parse_args(&args(&["--storage", "x"])),
        ParsedArgs::Error("--storage must be a number".to_string())
    );
    assert_eq!(
        parse_args(&args(&["-n", "0x10"])),
        ParsedArgs::Error("--iterations must be a number".to_string())
    );
    assert!(matches!(parse_args(&args(&["-x"])), ParsedArgs::Run { .. }));
    assert!(usage().contains("SUBCOMMANDS"));
}

#[test]
fn base_name_is_the_last_component_or_the_path() {
    assert_eq!(base_name("/data/photos/img.jpg"), "img.jpg");
    assert_eq!(base_name("tree/"), "tree");
    assert_eq!(base_name(""), "");
    assert_eq!(base_name("/"), "/");
}
