//! A writer that styles text with ANSI escape sequences.
use crate::styling::{
    decimal_text, default_style, digit_str, digit_text, swapping_change, Change, Color,
    Style, StyleChange, StyledWrite, TextSink,
};
use vstd::prelude::*;

verus! {

/// The introducer of a Select Graphic Rendition sequence: `ESC [`.
pub open spec fn sgr_open() -> Seq<char> {
    "\x1B["@
}

/// The parameters for bold and dim, which are written together because parameter 22
/// turns both off.
pub open spec fn bold_dim_code(bold: bool, dim: bool) -> Seq<char> {
    if bold && dim {
        "1;2"@
    } else if bold {
        "22;1"@
    } else if dim {
        "22;2"@
    } else {
        "22"@
    }
}

/// The parameter for an attribute that is turned on or off.
pub open spec fn flag_code(on: bool, on_code: Seq<char>, off_code: Seq<char>) -> Seq<char> {
    if on {
        on_code
    } else {
        off_code
    }
}

/// The parameters that select `color`, as the foreground or as the background.
pub open spec fn color_code(color: Color, foreground: bool) -> Seq<char> {
    match color {
        Color::Unset => if foreground {
            "39"@
        } else {
            "49"@
        },
        Color::Color4Bit(c) => (if c.spec_is_bright() {
            if foreground {
                "9"@
            } else {
                "10"@
            }
        } else {
            if foreground {
                "3"@
            } else {
                "4"@
            }
        }) + digit_text(c.spec_number() as nat),
        Color::ANSI256(n) => (if foreground {
            "38;5;"@
        } else {
            "48;5;"@
        }) + decimal_text(n as nat),
        Color::RGB(r, g, b) => (if foreground {
            "38;2;"@
        } else {
            "48;2;"@
        }) + decimal_text(r as nat) + ";"@ + decimal_text(g as nat) + ";"@ + decimal_text(
            b as nat,
        ),
    }
}

/// `params` with `param` at its end when `present`.
#[verifier::opaque]
pub open spec fn push_if(params: Seq<Seq<char>>, present: bool, param: Seq<char>) -> Seq<
    Seq<char>,
> {
    if present {
        params.push(param)
    } else {
        params
    }
}

/// The parameters that `change` calls for from `style`, in the order in which they
/// are written: bold and dim, italic, underline, blink, strike, foreground, background.
/// A property that the change keeps has none.
pub open spec fn sgr_params(style: Style, change: StyleChange) -> Seq<Seq<char>> {
    let after = change.spec_apply_to(style);
    let p0 = push_if(
        Seq::empty(),
        !(change.bold is Keep && change.dim is Keep),
        bold_dim_code(after.bold, after.dim),
    );
    let p1 = push_if(p0, change.italic is SetTo, flag_code(after.italic, "3"@, "23"@));
    let p2 = push_if(p1, change.underline is SetTo, flag_code(after.underline, "4"@, "24"@));
    let p3 = push_if(p2, change.blink is SetTo, flag_code(after.blink, "5"@, "25"@));
    let p4 = push_if(p3, change.strike is SetTo, flag_code(after.strike, "9"@, "29"@));
    let p5 = push_if(p4, change.foreground is SetTo, color_code(after.foreground, true));
    push_if(p5, change.background is SetTo, color_code(after.background, false))
}

/// The introducer followed by `params`, separated by `;`.
#[verifier::opaque]
pub open spec fn sgr_prefix(params: Seq<Seq<char>>) -> Seq<char>
    decreases params.len(),
{
    if params.len() == 0 {
        Seq::empty()
    } else if params.len() == 1 {
        sgr_open() + params[0]
    } else {
        sgr_prefix(params.drop_last()) + ";"@ + params.last()
    }
}

/// The escape sequence that changes `style` by `change`: nothing when the change keeps
/// every property, else one sequence with a parameter for each property it sets.
pub open spec fn sgr_text(style: Style, change: StyleChange) -> Seq<char> {
    if !change.spec_any() {
        Seq::empty()
    } else {
        sgr_prefix(sgr_params(style, change)) + "m"@
    }
}

/// The sequence that resets every property: `ESC [ 0 m`.
pub open spec fn sgr_reset() -> Seq<char> {
    "\x1B[0m"@
}

fn bold_dim_str(bold: bool, dim: bool) -> (r: &'static str)
    ensures
        r@ == bold_dim_code(bold, dim),
{
    if bold && dim {
        "1;2"
    } else if bold {
        "22;1"
    } else if dim {
        "22;2"
    } else {
        "22"
    }
}

fn flag_str(on: bool, on_code: &'static str, off_code: &'static str) -> (r: &'static str)
    ensures
        r@ == flag_code(on, on_code@, off_code@),
{
    if on {
        on_code
    } else {
        off_code
    }
}

proof fn lemma_sgr_prefix_push(params: Seq<Seq<char>>, param: Seq<char>)
    ensures
        sgr_prefix(params.push(param)) == sgr_prefix(params) + (if params.len() == 0 {
            sgr_open()
        } else {
            ";"@
        }) + param,
{
    reveal(sgr_prefix);
    assert(params.push(param).drop_last() =~= params);
    if params.len() == 0 {
        assert(sgr_prefix(params) + sgr_open() + param =~= sgr_open() + param);
    }
}

/// A change that sets bold or dim, or both, and nothing else, is written as one
/// sequence whose parameters follow the table of `bold_dim_code`: "1;2" when both end
/// up on, "22;1" for bold alone, "22;2" for dim alone and "22" when both end up off.
pub proof fn lemma_bold_dim_table(style: Style, change: StyleChange)
    requires
        !(change.bold is Keep && change.dim is Keep),
        change.italic is Keep,
        change.underline is Keep,
        change.blink is Keep,
        change.strike is Keep,
        change.foreground is Keep,
        change.background is Keep,
    ensures
        sgr_text(style, change) == sgr_open() + bold_dim_code(
            change.bold.spec_apply_to(style.bold),
            change.dim.spec_apply_to(style.dim),
        ) + "m"@,
        bold_dim_code(true, true) == "1;2"@,
        bold_dim_code(true, false) == "22;1"@,
        bold_dim_code(false, true) == "22;2"@,
        bold_dim_code(false, false) == "22"@,
{
    reveal(push_if);
    reveal(sgr_prefix);
    let code = bold_dim_code(
        change.bold.spec_apply_to(style.bold),
        change.dim.spec_apply_to(style.dim),
    );
    assert(sgr_params(style, change) == seq![code]);
    assert(seq![code].drop_last() =~= Seq::<Seq<char>>::empty());
}

/// A [`StyledWrite`] that styles text with ANSI escape sequences.
pub struct ANSIStyledWriter<W: TextSink> {
    writer: W,
    style: Style,
    log: Ghost<Seq<char>>,
}

impl<W: TextSink> ANSIStyledWriter<W> {
    /// A writer in the default style, over `writer`.
    pub fn new(writer: W) -> (r: Self)
        ensures
            r.sink() == writer,
            r.current_style() == default_style(),
            r.emitted() == (if writer.keeps_text() {
                writer.accepted()
            } else {
                Seq::empty()
            }),
            r.sink_never_fails() == writer.never_fails(),
            r.style_never_fails() == writer.never_fails(),
    {
        ANSIStyledWriter { writer, style: Style::default(), log: Ghost(Seq::empty()) }
    }

    /// The text written so far: what the sink has accepted where it says so, else
    /// what it accepted from this writer.
    closed spec fn record(&self) -> Seq<char> {
        if self.writer.keeps_text() {
            self.writer.accepted()
        } else {
            self.log@
        }
    }

    /// The sink that this writer writes to.
    pub closed spec fn sink(&self) -> W {
        self.writer
    }

    /// The sink, with everything written to it.
    pub fn into_inner(self) -> (r: W)
        ensures
            r == self.sink(),
            r.keeps_text() ==> r.accepted() == self.emitted(),
    {
        self.writer
    }

    /// Hands `s` to the sink, and records it when the sink accepts it.
    fn emit(&mut self, s: &str) -> (r: Result<(), std::io::Error>)
        ensures
            final(self).style == old(self).style,
            final(self).writer.never_fails() == old(self).writer.never_fails(),
            final(self).writer.keeps_text() == old(self).writer.keeps_text(),
            old(self).writer.never_fails() ==> r is Ok,
            r is Ok ==> final(self).record() == old(self).record() + s@,
    {
        let r = self.writer.write_text(s);
        if r.is_ok() {
            self.log = Ghost(self.log@ + s@);
        }
        r
    }

    /// Writes `n` in decimal.
    fn emit_decimal(&mut self, n: u128) -> (r: Result<(), std::io::Error>)
        ensures
            final(self).style == old(self).style,
            final(self).writer.never_fails() == old(self).writer.never_fails(),
            final(self).writer.keeps_text() == old(self).writer.keeps_text(),
            old(self).writer.never_fails() ==> r is Ok,
            r is Ok ==> final(self).record() == old(self).record() + decimal_text(n as nat),
        decreases n,
    {
        let ghost start = self.record();
        if n >= 10 {
            self.emit_decimal(n / 10)?;
        }
        let r = self.emit(digit_str((n % 10) as u8));
        assert(r is Ok ==> self.record() =~= start + decimal_text(n as nat));
        r
    }

    /// Writes the introducer (for the first parameter) or the separator, then `code`.
    fn write_param(&mut self, is_first: bool, code: &str) -> (r: Result<(), std::io::Error>)
        ensures
            final(self).style == old(self).style,
            final(self).writer.never_fails() == old(self).writer.never_fails(),
            final(self).writer.keeps_text() == old(self).writer.keeps_text(),
            old(self).writer.never_fails() ==> r is Ok,
            r is Ok ==> final(self).record() == old(self).record() + (if is_first {
                sgr_open()
            } else {
                ";"@
            }) + code@,
    {
        let ghost start = self.record();
        if is_first {
            self.emit("\x1B[")?;
        } else {
            self.emit(";")?;
        }
        let r = self.emit(code);
        assert(r is Ok ==> self.record() =~= start + (if is_first {
            sgr_open()
        } else {
            ";"@
        }) + code@);
        r
    }

    /// Writes the parameters that select `color`.
    fn write_color(&mut self, color: Color, foreground: bool) -> (r: Result<(), std::io::Error>)
        ensures
            final(self).style == old(self).style,
            final(self).writer.never_fails() == old(self).writer.never_fails(),
            final(self).writer.keeps_text() == old(self).writer.keeps_text(),
            old(self).writer.never_fails() ==> r is Ok,
            r is Ok ==> final(self).record() == old(self).record() + color_code(color, foreground),
    {
        let ghost start = self.record();
        let r = match color {
            Color::Unset => {
                if foreground {
                    self.emit("39")
                } else {
                    self.emit("49")
                }
            },
            Color::Color4Bit(c) => {
                if c.bits() / 8 % 2 == 1 {
                    if foreground {
                        self.emit("9")?;
                    } else {
                        self.emit("10")?;
                    }
                } else {
                    if foreground {
                        self.emit("3")?;
                    } else {
                        self.emit("4")?;
                    }
                }
                self.emit_decimal((c.bits() % 8) as u128)
            },
            Color::ANSI256(n) => {
                if foreground {
                    self.emit("38;5;")?;
                } else {
                    self.emit("48;5;")?;
                }
                self.emit_decimal(n as u128)
            },
            Color::RGB(r, g, b) => {
                if foreground {
                    self.emit("38;2;")?;
                } else {
                    self.emit("48;2;")?;
                }
                self.emit_decimal(r as u128)?;
                self.emit(";")?;
                self.emit_decimal(g as u128)?;
                self.emit(";")?;
                self.emit_decimal(b as u128)
            },
        };
        assert(r is Ok ==> self.record() =~= start + color_code(color, foreground));
        r
    }

    /// Writes the separator or introducer, then the parameters that select `color`.
    fn write_color_param(&mut self, is_first: bool, color: Color, foreground: bool) -> (r: Result<
        (),
        std::io::Error,
    >)
        ensures
            final(self).style == old(self).style,
            final(self).writer.never_fails() == old(self).writer.never_fails(),
            final(self).writer.keeps_text() == old(self).writer.keeps_text(),
            old(self).writer.never_fails() ==> r is Ok,
            r is Ok ==> final(self).record() == old(self).record() + (if is_first {
                sgr_open()
            } else {
                ";"@
            }) + color_code(color, foreground),
    {
        let ghost start = self.record();
        if is_first {
            self.emit("\x1B[")?;
        } else {
            self.emit(";")?;
        }
        let r = self.write_color(color, foreground);
        assert(r is Ok ==> self.record() =~= start + (if is_first {
            sgr_open()
        } else {
            ";"@
        }) + color_code(color, foreground));
        r
    }

    /// Adds the parameter `code` to a sequence whose parameters so far are `params`.
    fn add_param(
        &mut self,
        is_first: bool,
        code: &str,
        Ghost(start): Ghost<Seq<char>>,
        Ghost(params): Ghost<Seq<Seq<char>>>,
    ) -> (r: Result<(), std::io::Error>)
        requires
            old(self).record() == start + sgr_prefix(params),
            is_first == (params.len() == 0),
        ensures
            final(self).style == old(self).style,
            final(self).writer.never_fails() == old(self).writer.never_fails(),
            final(self).writer.keeps_text() == old(self).writer.keeps_text(),
            old(self).writer.never_fails() ==> r is Ok,
            r is Ok ==> final(self).record() == start + sgr_prefix(params.push(code@)),
    {
        self.write_param(is_first, code)?;
        proof {
            lemma_sgr_prefix_push(params, code@);
            assert(self.record() =~= start + sgr_prefix(params.push(code@)));
        }
        Ok(())
    }

    /// Adds the parameters that select `color` to a sequence whose parameters so far
    /// are `params`.
    fn add_color_param(
        &mut self,
        is_first: bool,
        color: Color,
        foreground: bool,
        Ghost(start): Ghost<Seq<char>>,
        Ghost(params): Ghost<Seq<Seq<char>>>,
    ) -> (r: Result<(), std::io::Error>)
        requires
            old(self).record() == start + sgr_prefix(params),
            is_first == (params.len() == 0),
        ensures
            final(self).style == old(self).style,
            final(self).writer.never_fails() == old(self).writer.never_fails(),
            final(self).writer.keeps_text() == old(self).writer.keeps_text(),
            old(self).writer.never_fails() ==> r is Ok,
            r is Ok ==> final(self).record() == start + sgr_prefix(
                params.push(color_code(color, foreground)),
            ),
    {
        self.write_color_param(is_first, color, foreground)?;
        proof {
            lemma_sgr_prefix_push(params, color_code(color, foreground));
            assert(self.record() =~= start + sgr_prefix(params.push(color_code(color, foreground))));
        }
        Ok(())
    }

    /// Adds the parameter `code` when `present`; returns whether the sequence is still
    /// without parameters.
    fn add_param_if(
        &mut self,
        present: bool,
        is_first: bool,
        code: &str,
        Ghost(start): Ghost<Seq<char>>,
        Ghost(params): Ghost<Seq<Seq<char>>>,
    ) -> (r: Result<bool, std::io::Error>)
        requires
            old(self).record() == start + sgr_prefix(params),
            is_first == (params.len() == 0),
        ensures
            final(self).style == old(self).style,
            final(self).writer.never_fails() == old(self).writer.never_fails(),
            final(self).writer.keeps_text() == old(self).writer.keeps_text(),
            old(self).writer.never_fails() ==> r is Ok,
            r is Ok ==> final(self).record() == start + sgr_prefix(push_if(params, present, code@)),
            r is Ok ==> r->Ok_0 == (push_if(params, present, code@).len() == 0),
    {
        reveal(push_if);
        if present {
            self.add_param(is_first, code, Ghost(start), Ghost(params))?;
            Ok(false)
        } else {
            Ok(is_first)
        }
    }

    /// Adds the parameters that select `color` when `present`; returns whether the
    /// sequence is still without parameters.
    fn add_color_param_if(
        &mut self,
        present: bool,
        is_first: bool,
        color: Color,
        foreground: bool,
        Ghost(start): Ghost<Seq<char>>,
        Ghost(params): Ghost<Seq<Seq<char>>>,
    ) -> (r: Result<bool, std::io::Error>)
        requires
            old(self).record() == start + sgr_prefix(params),
            is_first == (params.len() == 0),
        ensures
            final(self).style == old(self).style,
            final(self).writer.never_fails() == old(self).writer.never_fails(),
            final(self).writer.keeps_text() == old(self).writer.keeps_text(),
            old(self).writer.never_fails() ==> r is Ok,
            r is Ok ==> final(self).record() == start + sgr_prefix(
                push_if(params, present, color_code(color, foreground)),
            ),
            r is Ok ==> r->Ok_0 == (push_if(params, present, color_code(color, foreground)).len()
                == 0),
    {
        reveal(push_if);
        if present {
            self.add_color_param(is_first, color, foreground, Ghost(start), Ghost(params))?;
            Ok(false)
        } else {
            Ok(is_first)
        }
    }
}

impl<W: TextSink> StyledWrite for ANSIStyledWriter<W> {
    closed spec fn current_style(&self) -> Style {
        self.style
    }

    closed spec fn emitted(&self) -> Seq<char> {
        self.record()
    }

    closed spec fn sink_never_fails(&self) -> bool {
        self.writer.never_fails()
    }

    closed spec fn style_never_fails(&self) -> bool {
        self.writer.never_fails()
    }

    open spec fn change_text(style: Style, change: StyleChange) -> Seq<char> {
        sgr_text(style, change)
    }

    open spec fn reset_text(style: Style) -> Seq<char> {
        sgr_reset()
    }

    fn style(&self) -> (r: &Style) {
        &self.style
    }

    fn write_str(&mut self, s: &str) -> (r: Result<(), std::io::Error>) {
        self.emit(s)
    }

    fn flush(&mut self) -> (r: Result<(), std::io::Error>) {
        self.writer.flush_text()
    }

    #[verifier::rlimit(80)]
    fn change_style(&mut self, change: StyleChange) -> (r: Result<(), std::io::Error>) {
        if !change.any() {
            assert(self.record() == self.record() + Seq::<char>::empty());
            return Ok(());
        }
        let ghost start = self.record();
        let ghost style = self.style;
        let after = change.apply_to(&self.style);
        assert(self.record() == start + sgr_prefix(Seq::empty())) by {
            reveal(sgr_prefix);
            assert(start + Seq::<char>::empty() =~= start);
        }
        let ghost p0 = push_if(
            Seq::empty(),
            !(change.bold is Keep && change.dim is Keep),
            bold_dim_code(after.bold, after.dim),
        );
        let is_first = self.add_param_if(
            !(matches!(change.bold, Change::Keep) && matches!(change.dim, Change::Keep)),
            true,
            bold_dim_str(after.bold, after.dim),
            Ghost(start),
            Ghost(Seq::empty()),
        )?;
        let ghost p1 = push_if(p0, change.italic is SetTo, flag_code(after.italic, "3"@, "23"@));
        let is_first = self.add_param_if(
            matches!(change.italic, Change::SetTo(_)),
            is_first,
            flag_str(after.italic, "3", "23"),
            Ghost(start),
            Ghost(p0),
        )?;
        let ghost p2 = push_if(p1, change.underline is SetTo, flag_code(after.underline, "4"@, "24"@));
        let is_first = self.add_param_if(
            matches!(change.underline, Change::SetTo(_)),
            is_first,
            flag_str(after.underline, "4", "24"),
            Ghost(start),
            Ghost(p1),
        )?;
        let ghost p3 = push_if(p2, change.blink is SetTo, flag_code(after.blink, "5"@, "25"@));
        let is_first = self.add_param_if(
            matches!(change.blink, Change::SetTo(_)),
            is_first,
            flag_str(after.blink, "5", "25"),
            Ghost(start),
            Ghost(p2),
        )?;
        let ghost p4 = push_if(p3, change.strike is SetTo, flag_code(after.strike, "9"@, "29"@));
        let is_first = self.add_param_if(
            matches!(change.strike, Change::SetTo(_)),
            is_first,
            flag_str(after.strike, "9", "29"),
            Ghost(start),
            Ghost(p3),
        )?;
        let ghost p5 = push_if(p4, change.foreground is SetTo, color_code(after.foreground, true));
        let is_first = self.add_color_param_if(
            matches!(change.foreground, Change::SetTo(_)),
            is_first,
            after.foreground,
            true,
            Ghost(start),
            Ghost(p4),
        )?;
        self.add_color_param_if(
            matches!(change.background, Change::SetTo(_)),
            is_first,
            after.background,
            false,
            Ghost(start),
            Ghost(p5),
        )?;
        assert(push_if(p5, change.background is SetTo, color_code(after.background, false))
            == sgr_params(style, change));
        self.emit("m")?;
        assert(self.record() =~= start + sgr_text(style, change));
        self.style = after;
        Ok(())
    }

    fn reset_style(&mut self) -> (r: Result<(), std::io::Error>) {
        self.emit("\x1B[0m")?;
        self.style = Style::default();
        Ok(())
    }

    fn swap_colors(&mut self) -> (r: Result<(), std::io::Error>) {
        if self.style.foreground == self.style.background {
            assert(self.record() == self.record() + Seq::<char>::empty());
            return Ok(());
        }
        let ghost start = self.record();
        let ghost style = self.style;
        let foreground = self.style.foreground;
        let background = self.style.background;
        let ghost first = seq![color_code(background, true)];
        assert(self.record() == start + sgr_prefix(Seq::empty())) by {
            reveal(sgr_prefix);
            assert(start + Seq::<char>::empty() =~= start);
        }
        self.add_color_param(true, background, true, Ghost(start), Ghost(Seq::empty()))?;
        assert(Seq::<Seq<char>>::empty().push(color_code(background, true)) == first);
        self.add_color_param(false, foreground, false, Ghost(start), Ghost(first))?;
        self.emit("m")?;
        proof {
            reveal(push_if);
            let params = sgr_params(style, swapping_change(style));
            assert(first.push(color_code(foreground, false)) == params);
            assert(swapping_change(style).spec_any());
            assert(self.record() =~= start + sgr_text(style, swapping_change(style)));
        }
        self.style.swap_colors();
        Ok(())
    }
}

} // verus!
