use colors::{init_auto, init_off, init_on, Attributes, Codes, Colors};

fn fields(c: &Codes) -> Vec<&str> {
    vec![
        c.attr.reset.as_str(),
        c.attr.bold.as_str(),
        c.attr.italic.as_str(),
        c.attr.underline.as_str(),
        c.attr.blink.as_str(),
        c.attr.reverse.as_str(),
        c.fg.black.as_str(),
        c.fg.red.as_str(),
        c.fg.green.as_str(),
        c.fg.yellow.as_str(),
        c.fg.blue.as_str(),
        c.fg.magenta.as_str(),
        c.fg.cyan.as_str(),
        c.fg.white.as_str(),
        c.fg.bright_black.as_str(),
        c.fg.bright_red.as_str(),
        c.fg.bright_green.as_str(),
        c.fg.bright_yellow.as_str(),
        c.fg.bright_blue.as_str(),
        c.fg.bright_magenta.as_str(),
        c.fg.bright_cyan.as_str(),
        c.fg.bright_white.as_str(),
        c.bg.black.as_str(),
        c.bg.red.as_str(),
        c.bg.green.as_str(),
        c.bg.yellow.as_str(),
        c.bg.blue.as_str(),
        c.bg.magenta.as_str(),
        c.bg.cyan.as_str(),
        c.bg.white.as_str(),
        c.bg.bright_black.as_str(),
        c.bg.bright_red.as_str(),
        c.bg.bright_green.as_str(),
        c.bg.bright_yellow.as_str(),
        c.bg.bright_blue.as_str(),
        c.bg.bright_magenta.as_str(),
        c.bg.bright_cyan.as_str(),
        c.bg.bright_white.as_str(),
    ]
}

fn is_well_formed(s: &str) -> bool {
    let b = s.as_bytes();
    b.len() >= 4
        && b[0] == 0x1B
        && b[1] == b'['
        && b[b.len() - 1] == b'm'
        && b[2..b.len() - 1].iter().all(|d| d.is_ascii_digit())
}

#[test]
fn enabled_table_holds_documented_sequences() {
    let c = init_on();
    assert_eq!(c.attr.reset, "\x1B[0m");
    assert_eq!(c.attr.bold, "\x1B[1m");
    assert_eq!(c.attr.italic, "\x1B[3m");
    assert_eq!(c.attr.underline, "\x1B[4m");
    assert_eq!(c.attr.blink, "\x1B[5m");
    assert_eq!(c.attr.reverse, "\x1B[7m");
    assert_eq!(c.fg.black, "\x1B[30m");
    assert_eq!(c.fg.red, "\x1B[31m");
    assert_eq!(c.fg.green, "\x1B[32m");
    assert_eq!(c.fg.yellow, "\x1B[33m");
    assert_eq!(c.fg.blue, "\x1B[34m");
    assert_eq!(c.fg.magenta, "\x1B[35m");
    assert_eq!(c.fg.cyan, "\x1B[36m");
    assert_eq!(c.fg.white, "\x1B[37m");
    assert_eq!(c.fg.bright_black, "\x1B[90m");
    assert_eq!(c.fg.bright_red, "\x1B[91m");
    assert_eq!(c.fg.bright_green, "\x1B[92m");
    assert_eq!(c.fg.bright_yellow, "\x1B[93m");
    assert_eq!(c.fg.bright_blue, "\x1B[94m");
    assert_eq!(c.fg.bright_magenta, "\x1B[95m");
    assert_eq!(c.fg.bright_cyan, "\x1B[96m");
    assert_eq!(c.fg.bright_white, "\x1B[97m");
    assert_eq!(c.bg.black, "\x1B[40m");
    assert_eq!(c.bg.red, "\x1B[41m");
    assert_eq!(c.bg.green, "\x1B[42m");
    assert_eq!(c.bg.yellow, "\x1B[43m");
    assert_eq!(c.bg.blue, "\x1B[44m");
    assert_eq!(c.bg.magenta, "\x1B[45m");
    assert_eq!(c.bg.cyan, "\x1B[46m");
    assert_eq!(c.bg.white, "\x1B[47m");
    assert_eq!(c.bg.bright_black, "\x1B[100m");
    assert_eq!(c.bg.bright_red, "\x1B[101m");
    assert_eq!(c.bg.bright_green, "\x1B[102m");
    assert_eq!(c.bg.bright_yellow, "\x1B[103m");
    assert_eq!(c.bg.bright_blue, "\x1B[104m");
    assert_eq!(c.bg.bright_magenta, "\x1B[105m");
    assert_eq!(c.bg.bright_cyan, "\x1B[106m");
    assert_eq!(c.bg.bright_white, "\x1B[107m");
}

#[test]
fn enabled_table_examples() {
    let c = init_on();
    assert_eq!(c.attr.reset, "\x1B[0m");
    assert_eq!(c.fg.red, "\x1B[31m");
    assert_eq!(c.bg.bright_cyan, "\x1B[106m");
    assert_eq!(c.bg.bright_cyan.as_bytes(), &[0x1B, b'[', b'1', b'0', b'6', b'm']);
}

#[test]
fn disabled_table_is_all_empty() {
    let c = init_off();
    let f = fields(&c);
    assert_eq!(f.len(), 38);
    for s in f {
        assert_eq!(s, "");
    }
}

#[test]
fn enabled_constructor_is_idempotent() {
    assert_eq!(init_on(), init_on());
}

#[test]
fn disabled_constructor_is_idempotent() {
    assert_eq!(init_off(), init_off());
}

#[test]
fn auto_on_terminal_without_no_color_is_enabled() {
    assert_eq!(init_auto(true, false), init_on());
}

#[test]
fn auto_with_no_color_is_disabled_on_terminal() {
    assert_eq!(init_auto(true, true), init_off());
}

#[test]
fn auto_with_no_color_is_disabled_off_terminal() {
    assert_eq!(init_auto(false, true), init_off());
}

#[test]
fn auto_off_terminal_is_disabled() {
    assert_eq!(init_auto(false, false), init_off());
}

#[test]
fn enabled_fields_are_well_formed() {
    let c = init_on();
    let f = fields(&c);
    assert_eq!(f.len(), 38);
    for s in f {
        assert!(is_well_formed(s), "malformed field {:?}", s);
    }
}

#[test]
fn auto_fields_never_mix_or_break() {
    for (tty, no_color) in [(true, false), (true, true), (false, true), (false, false)] {
        let c = init_auto(tty, no_color);
        let f = fields(&c);
        let all_good = f.iter().all(|s| is_well_formed(s));
        let all_empty = f.iter().all(|s| s.is_empty());
        assert!(all_good || all_empty);
        assert_eq!(all_good, tty && !no_color);
    }
}

#[test]
fn enabled_fields_are_distinct() {
    let c = init_on();
    let f = fields(&c);
    for i in 0..f.len() {
        for j in (i + 1)..f.len() {
            assert_ne!(f[i], f[j]);
        }
    }
}

#[test]
fn defaults_are_empty() {
    assert_eq!(Codes::default(), init_off());
    let a = Attributes::default();
    assert_eq!(a.reset, "");
    assert_eq!(a.blink, "");
    let k = Colors::default();
    assert_eq!(k.black, "");
    assert_eq!(k.bright_white, "");
}
