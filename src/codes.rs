//! The table of attribute and color sequences, and its three constructors.
use vstd::prelude::*;
use crate::sgr::{decimal, is_sgr, lemma_sgr_well_formed, sgr};

verus! {

/// True when every field in `fields` is the empty string.
pub open spec fn all_empty(fields: Seq<Seq<char>>) -> bool {
    forall|i: int| 0 <= i < fields.len() ==> (#[trigger] fields[i]).len() == 0
}

/// Terminal style attributes.
#[derive(Debug, PartialEq, Eq)]
pub struct Attributes {
    pub blink: String,
    pub bold: String,
    pub italic: String,
    pub reset: String,
    pub reverse: String,
    pub underline: String,
}

impl View for Attributes {
    type V = Seq<Seq<char>>;

    /// The six attributes in the order of their codes:
    /// reset, bold, italic, underline, blink, reverse.
    open spec fn view(&self) -> Seq<Seq<char>> {
        seq![self.reset@, self.bold@, self.italic@, self.underline@, self.blink@, self.reverse@]
    }
}

impl Attributes {
    /// Each attribute holds the sequence of its code.
    pub open spec fn is_enabled(&self) -> bool {
        &&& self.reset@ == sgr(0)
        &&& self.bold@ == sgr(1)
        &&& self.italic@ == sgr(3)
        &&& self.underline@ == sgr(4)
        &&& self.blink@ == sgr(5)
        &&& self.reverse@ == sgr(7)
    }
}

impl Default for Attributes {
    /// Every field empty.
    fn default() -> (r: Self)
        ensures
            all_empty(r@),
    {
        Attributes {
            blink: String::new(),
            bold: String::new(),
            italic: String::new(),
            reset: String::new(),
            reverse: String::new(),
            underline: String::new(),
        }
    }
}

/// Terminal background & foreground colors.
#[derive(Debug, PartialEq, Eq)]
pub struct Colors {
    pub black: String,
    pub blue: String,
    pub cyan: String,
    pub green: String,
    pub magenta: String,
    pub red: String,
    pub white: String,
    pub yellow: String,
    pub bright_black: String,
    pub bright_blue: String,
    pub bright_cyan: String,
    pub bright_green: String,
    pub bright_magenta: String,
    pub bright_red: String,
    pub bright_white: String,
    pub bright_yellow: String,
}

impl View for Colors {
    type V = Seq<Seq<char>>;

    /// The eight base colors by color index (black, red, green, yellow, blue,
    /// magenta, cyan, white), then their eight bright variants in the same order.
    open spec fn view(&self) -> Seq<Seq<char>> {
        seq![
            self.black@, self.red@, self.green@, self.yellow@,
            self.blue@, self.magenta@, self.cyan@, self.white@,
            self.bright_black@, self.bright_red@, self.bright_green@, self.bright_yellow@,
            self.bright_blue@, self.bright_magenta@, self.bright_cyan@, self.bright_white@,
        ]
    }
}

impl Colors {
    /// The color of index `n` holds the sequence of code `base + n`, and its
    /// bright variant that of code `base + 60 + n`.
    pub open spec fn is_enabled(&self, base: nat) -> bool {
        &&& self.black@ == sgr(base)
        &&& self.red@ == sgr(base + 1)
        &&& self.green@ == sgr(base + 2)
        &&& self.yellow@ == sgr(base + 3)
        &&& self.blue@ == sgr(base + 4)
        &&& self.magenta@ == sgr(base + 5)
        &&& self.cyan@ == sgr(base + 6)
        &&& self.white@ == sgr(base + 7)
        &&& self.bright_black@ == sgr(base + 60)
        &&& self.bright_red@ == sgr(base + 61)
        &&& self.bright_green@ == sgr(base + 62)
        &&& self.bright_yellow@ == sgr(base + 63)
        &&& self.bright_blue@ == sgr(base + 64)
        &&& self.bright_magenta@ == sgr(base + 65)
        &&& self.bright_cyan@ == sgr(base + 66)
        &&& self.bright_white@ == sgr(base + 67)
    }
}

impl Default for Colors {
    /// Every field empty.
    fn default() -> (r: Self)
        ensures
            all_empty(r@),
    {
        Colors {
            black: String::new(),
            blue: String::new(),
            cyan: String::new(),
            green: String::new(),
            magenta: String::new(),
            red: String::new(),
            white: String::new(),
            yellow: String::new(),
            bright_black: String::new(),
            bright_blue: String::new(),
            bright_cyan: String::new(),
            bright_green: String::new(),
            bright_magenta: String::new(),
            bright_red: String::new(),
            bright_white: String::new(),
            bright_yellow: String::new(),
        }
    }
}

/// Data structure containing all attributes and colors.
#[derive(Debug, PartialEq, Eq)]
pub struct Codes {
    pub attr: Attributes,
    pub bg: Colors,
    pub fg: Colors,
}

impl View for Codes {
    type V = Seq<Seq<char>>;

    /// All 38 fields: the attributes, then the foreground colors, then the
    /// background colors, each group in the order of its own view.
    open spec fn view(&self) -> Seq<Seq<char>> {
        self.attr@ + self.fg@ + self.bg@
    }
}

impl Codes {
    /// Every field holds its escape sequence: attributes by their codes,
    /// foreground colors from code 30 (bright from 90), background colors from
    /// code 40 (bright from 100).
    pub open spec fn is_enabled(&self) -> bool {
        &&& self.attr.is_enabled()
        &&& self.fg.is_enabled(30)
        &&& self.bg.is_enabled(40)
    }

    /// Every field is the empty string.
    pub open spec fn is_disabled(&self) -> bool {
        all_empty(self@)
    }

    /// The table's invariant: either every field is a well-formed escape
    /// sequence, or every field is empty; never a mix.
    pub open spec fn wf(&self) -> bool {
        ||| forall|i: int| 0 <= i < self@.len() ==> is_sgr(#[trigger] self@[i])
        ||| all_empty(self@)
    }
}

impl Default for Codes {
    /// Every field empty.
    fn default() -> (r: Self)
        ensures
            r.is_disabled(),
    {
        let attr = Attributes::default();
        let bg = Colors::default();
        let fg = Colors::default();
        let r = Codes { attr, bg, fg };
        assert forall|i: int| 0 <= i < r@.len() implies (#[trigger] r@[i]).len() == 0 by {
            if i < 6 {
                assert(r@[i] == attr@[i]);
            } else if i < 22 {
                assert(r@[i] == fg@[i - 6]);
            } else {
                assert(r@[i] == bg@[i - 22]);
            }
        }
        r
    }
}

/// No field of a table made by the constructors holds a partial sequence:
/// every field of an enabled table is `ESC`, `[`, decimal digits and `m`.
pub proof fn lemma_enabled_wf(c: &Codes)
    requires
        c.is_enabled(),
    ensures
        c.wf(),
        forall|i: int| 0 <= i < c@.len() ==> is_sgr(#[trigger] c@[i]),
{
    let codes: Seq<nat> = seq![
        0, 1, 3, 4, 5, 7,
        30, 31, 32, 33, 34, 35, 36, 37, 90, 91, 92, 93, 94, 95, 96, 97,
        40, 41, 42, 43, 44, 45, 46, 47, 100, 101, 102, 103, 104, 105, 106, 107,
    ];
    assert forall|i: int| 0 <= i < c@.len() implies is_sgr(#[trigger] c@[i]) by {
        assert(c@[i] == sgr(codes[i]));
        lemma_sgr_well_formed(codes[i]);
    }
}

/// Return data structure with preset attribute and color values.
pub fn init_on() -> (r: Codes)
    ensures
        r.is_enabled(),
        r.wf(),
{
    let attr = Attributes {
        reset: "\x1B[0m".to_string(),
        bold: "\x1B[1m".to_string(),
        italic: "\x1B[3m".to_string(),
        underline: "\x1B[4m".to_string(),
        blink: "\x1B[5m".to_string(),
        reverse: "\x1B[7m".to_string(),
    };
    let bg = Colors {
        black: "\x1B[40m".to_string(),
        red: "\x1B[41m".to_string(),
        green: "\x1B[42m".to_string(),
        yellow: "\x1B[43m".to_string(),
        blue: "\x1B[44m".to_string(),
        magenta: "\x1B[45m".to_string(),
        cyan: "\x1B[46m".to_string(),
        white: "\x1B[47m".to_string(),
        bright_black: "\x1B[100m".to_string(),
        bright_red: "\x1B[101m".to_string(),
        bright_green: "\x1B[102m".to_string(),
        bright_yellow: "\x1B[103m".to_string(),
        bright_blue: "\x1B[104m".to_string(),
        bright_magenta: "\x1B[105m".to_string(),
        bright_cyan: "\x1B[106m".to_string(),
        bright_white: "\x1B[107m".to_string(),
    };
    let fg = Colors {
        black: "\x1B[30m".to_string(),
        red: "\x1B[31m".to_string(),
        green: "\x1B[32m".to_string(),
        yellow: "\x1B[33m".to_string(),
        blue: "\x1B[34m".to_string(),
        magenta: "\x1B[35m".to_string(),
        cyan: "\x1B[36m".to_string(),
        white: "\x1B[37m".to_string(),
        bright_black: "\x1B[90m".to_string(),
        bright_red: "\x1B[91m".to_string(),
        bright_green: "\x1B[92m".to_string(),
        bright_yellow: "\x1B[93m".to_string(),
        bright_blue: "\x1B[94m".to_string(),
        bright_magenta: "\x1B[95m".to_string(),
        bright_cyan: "\x1B[96m".to_string(),
        bright_white: "\x1B[97m".to_string(),
    };
    proof {
        reveal_with_fuel(decimal, 3);
        reveal_strlit("\x1B[0m");
        assert(attr.reset@ =~= sgr(0));
        reveal_strlit("\x1B[1m");
        assert(attr.bold@ =~= sgr(1));
        reveal_strlit("\x1B[3m");
        assert(attr.italic@ =~= sgr(3));
        reveal_strlit("\x1B[4m");
        assert(attr.underline@ =~= sgr(4));
        reveal_strlit("\x1B[5m");
        assert(attr.blink@ =~= sgr(5));
        reveal_strlit("\x1B[7m");
        assert(attr.reverse@ =~= sgr(7));
        reveal_strlit("\x1B[40m");
        assert(bg.black@ =~= sgr(40));
        reveal_strlit("\x1B[41m");
        assert(bg.red@ =~= sgr(41));
        reveal_strlit("\x1B[42m");
        assert(bg.green@ =~= sgr(42));
        reveal_strlit("\x1B[43m");
        assert(bg.yellow@ =~= sgr(43));
        reveal_strlit("\x1B[44m");
        assert(bg.blue@ =~= sgr(44));
        reveal_strlit("\x1B[45m");
        assert(bg.magenta@ =~= sgr(45));
        reveal_strlit("\x1B[46m");
        assert(bg.cyan@ =~= sgr(46));
        reveal_strlit("\x1B[47m");
        assert(bg.white@ =~= sgr(47));
        reveal_strlit("\x1B[100m");
        assert(bg.bright_black@ =~= sgr(100));
        reveal_strlit("\x1B[101m");
        assert(bg.bright_red@ =~= sgr(101));
        reveal_strlit("\x1B[102m");
        assert(bg.bright_green@ =~= sgr(102));
        reveal_strlit("\x1B[103m");
        assert(bg.bright_yellow@ =~= sgr(103));
        reveal_strlit("\x1B[104m");
        assert(bg.bright_blue@ =~= sgr(104));
        reveal_strlit("\x1B[105m");
        assert(bg.bright_magenta@ =~= sgr(105));
        reveal_strlit("\x1B[106m");
        assert(bg.bright_cyan@ =~= sgr(106));
        reveal_strlit("\x1B[107m");
        assert(bg.bright_white@ =~= sgr(107));
        reveal_strlit("\x1B[30m");
        assert(fg.black@ =~= sgr(30));
        reveal_strlit("\x1B[31m");
        assert(fg.red@ =~= sgr(31));
        reveal_strlit("\x1B[32m");
        assert(fg.green@ =~= sgr(32));
        reveal_strlit("\x1B[33m");
        assert(fg.yellow@ =~= sgr(33));
        reveal_strlit("\x1B[34m");
        assert(fg.blue@ =~= sgr(34));
        reveal_strlit("\x1B[35m");
        assert(fg.magenta@ =~= sgr(35));
        reveal_strlit("\x1B[36m");
        assert(fg.cyan@ =~= sgr(36));
        reveal_strlit("\x1B[37m");
        assert(fg.white@ =~= sgr(37));
        reveal_strlit("\x1B[90m");
        assert(fg.bright_black@ =~= sgr(90));
        reveal_strlit("\x1B[91m");
        assert(fg.bright_red@ =~= sgr(91));
        reveal_strlit("\x1B[92m");
        assert(fg.bright_green@ =~= sgr(92));
        reveal_strlit("\x1B[93m");
        assert(fg.bright_yellow@ =~= sgr(93));
        reveal_strlit("\x1B[94m");
        assert(fg.bright_blue@ =~= sgr(94));
        reveal_strlit("\x1B[95m");
        assert(fg.bright_magenta@ =~= sgr(95));
        reveal_strlit("\x1B[96m");
        assert(fg.bright_cyan@ =~= sgr(96));
        reveal_strlit("\x1B[97m");
        assert(fg.bright_white@ =~= sgr(97));
    }
    let r = Codes { attr, bg, fg };
    proof {
        lemma_enabled_wf(&r);
    }
    r
}

/// Return data structure with empty attribute and color values.
pub fn init_off() -> (r: Codes)
    ensures
        r.is_disabled(),
        r.wf(),
{
    Codes::default()
}

/// Return [`init_on`] when standard output is an interactive terminal and the
/// `NO_COLOR` environment variable is absent, and [`init_off`] otherwise.
///
/// `is_tty` is whether standard output is a terminal (a failed check counts
/// as not a terminal); `no_color` is whether `NO_COLOR` is present, whatever
/// its value, the empty string included.
pub fn init_auto(is_tty: bool, no_color: bool) -> (r: Codes)
    ensures
        is_tty && !no_color ==> r.is_enabled(),
        !(is_tty && !no_color) ==> r.is_disabled(),
        r.wf(),
{
    if is_tty && !no_color {
        return init_on();
    }
    init_off()
}

/// The enabled table is unique: two tables that both hold every escape
/// sequence (two results of [`init_on`]) are equal field for field.
pub proof fn lemma_enabled_unique(a: &Codes, b: &Codes)
    requires
        a.is_enabled(),
        b.is_enabled(),
    ensures
        a@ == b@,
{
    assert(a@ =~= b@);
}

/// The disabled table is unique: two tables with every field empty (two
/// results of [`init_off`]) are equal field for field.
pub proof fn lemma_disabled_unique(a: &Codes, b: &Codes)
    requires
        a.is_disabled(),
        b.is_disabled(),
    ensures
        a@ == b@,
{
    assert forall|i: int| 0 <= i < a@.len() implies #[trigger] a@[i] == b@[i] by {
        assert(a@[i] =~= b@[i]);
    }
    assert(a@ =~= b@);
}

} // verus!
