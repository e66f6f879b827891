//! Styles, style changes, and the contract of a writer capable of styling.
use vstd::prelude::*;

verus! {

/// The error of a text sink: an I/O failure, with the operating system's detail.
#[verifier::external_type_specification]
#[verifier::external_body]
pub struct ExIoError(std::io::Error);

/// A destination for text, such as a terminal, a file or an in-memory buffer.
///
/// Writers hand every piece of text (escape sequences included) to their sink,
/// which may fail with an I/O error. A sink may say, through `keeps_text` and
/// `accepted`, what it has accepted, and, through `never_fails`, that no write fails:
/// a `String` does both. By default a sink says neither.
pub trait TextSink {
    /// The text that the sink has accepted so far, where `keeps_text` holds.
    open spec fn accepted(&self) -> Seq<char> {
        Seq::empty()
    }

    /// Whether `accepted` is the text that the sink has accepted.
    open spec fn keeps_text(&self) -> bool {
        false
    }

    /// Whether every write to the sink succeeds.
    open spec fn never_fails(&self) -> bool {
        false
    }

    /// Writes the whole of `s`, or fails.
    fn write_text(&mut self, s: &str) -> (r: Result<(), std::io::Error>)
        ensures
            old(self).keeps_text() && r is Ok ==> final(self).accepted() == old(self).accepted()
                + s@,
            final(self).keeps_text() == old(self).keeps_text(),
            old(self).never_fails() ==> r is Ok,
            final(self).never_fails() == old(self).never_fails(),
    ;

    /// Flushes whatever the sink buffers.
    fn flush_text(&mut self) -> (r: Result<(), std::io::Error>)
        ensures
            old(self).keeps_text() ==> final(self).accepted() == old(self).accepted(),
            final(self).keeps_text() == old(self).keeps_text(),
            old(self).never_fails() ==> r is Ok,
            final(self).never_fails() == old(self).never_fails(),
    ;
}

/// 4-bit colors.
///
/// One bit each for the red, green and blue components
/// and one bit selecting between the bright and dark variants:
/// all 16 colors are combinations of these bits, and a value holds no other bit.
#[derive(Clone, Copy, Debug, PartialEq, Eq, Hash, Structural)]
pub struct Color4Bit {
    bits: u8,
}

impl Color4Bit {
    pub const BRIGHT_BIT: u8 = 0b1000;

    pub const RED_BIT: u8 = 0b0001;

    pub const GREEN_BIT: u8 = 0b0010;

    pub const BLUE_BIT: u8 = 0b0100;

    pub const COLOR_MASK: u8 = 0b0111;

    pub const BLACK: u8 = 0b0000;

    pub const DARK_RED: u8 = 0b0001;

    pub const DARK_YELLOW: u8 = 0b0011;

    pub const DARK_GREEN: u8 = 0b0010;

    pub const DARK_CYAN: u8 = 0b0110;

    pub const DARK_BLUE: u8 = 0b0100;

    pub const DARK_MAGENTA: u8 = 0b0101;

    pub const DARK_GRAY: u8 = 0b0111;

    pub const BRIGHT_GRAY: u8 = 0b1000;

    pub const BRIGHT_RED: u8 = 0b1001;

    pub const BRIGHT_YELLOW: u8 = 0b1011;

    pub const BRIGHT_GREEN: u8 = 0b1010;

    pub const BRIGHT_CYAN: u8 = 0b1110;

    pub const BRIGHT_BLUE: u8 = 0b1100;

    pub const BRIGHT_MAGENTA: u8 = 0b1101;

    pub const WHITE: u8 = 0b1111;

    #[verifier::type_invariant]
    spec fn holds_four_bits(self) -> bool {
        self.bits < 16
    }

    /// The bits of this color.
    pub closed spec fn spec_bits(self) -> u8 {
        self.bits
    }

    /// The color whose bits are the four lowest bits of `bits`.
    pub closed spec fn spec_from_bits(bits: u8) -> Color4Bit {
        Color4Bit { bits: bits % 16 }
    }

    /// The color whose bits are the four lowest bits of `bits`.
    pub fn from_bits_truncate(bits: u8) -> (r: Color4Bit)
        ensures
            r == Color4Bit::spec_from_bits(bits),
            r.spec_bits() == bits % 16,
    {
        Color4Bit { bits: bits % 16 }
    }

    /// The bits of this color, below 16.
    pub fn bits(&self) -> (r: u8)
        ensures
            r == self.spec_bits(),
            r < 16,
    {
        proof {
            use_type_invariant(self);
        }
        self.bits
    }

    /// The number (0 to 7) of the red, green and blue bits.
    pub open spec fn spec_number(self) -> u8 {
        self.spec_bits() % 8
    }

    /// Whether the bright bit is set.
    pub open spec fn spec_is_bright(self) -> bool {
        (self.spec_bits() / 8) % 2 == 1
    }

    /// The code of this color in the 256 colors ANSI escape sequences
    /// (`ESC[38;5;{code}m` and `ESC[48;5;{code}m`): its bits.
    pub fn to_ansi_256(&self) -> (r: u8)
        ensures
            r == self.spec_bits(),
            r < 16,
    {
        self.bits()
    }
}

/// Text background or foreground color.
#[derive(Clone, Copy, Debug, PartialEq, Eq, Hash, Structural)]
pub enum Color {
    Unset,
    Color4Bit(Color4Bit),
    ANSI256(u8),
    RGB(u8, u8, u8),
}

impl Default for Color {
    fn default() -> (r: Color)
        ensures
            r == Color::Unset,
    {
        Color::Unset
    }
}

/// A text style: two colors and six attributes.
#[derive(Clone, Copy, Debug, PartialEq, Eq, Hash, Structural)]
pub struct Style {
    pub foreground: Color,
    pub background: Color,
    pub bold: bool,
    pub dim: bool,
    pub underline: bool,
    pub italic: bool,
    pub blink: bool,
    pub strike: bool,
}

/// The default style: no colors set and every attribute off.
pub open spec fn default_style() -> Style {
    Style {
        foreground: Color::Unset,
        background: Color::Unset,
        bold: false,
        dim: false,
        underline: false,
        italic: false,
        blink: false,
        strike: false,
    }
}

impl Default for Style {
    fn default() -> (r: Style)
        ensures
            r == default_style(),
    {
        Style {
            foreground: Color::Unset,
            background: Color::Unset,
            bold: false,
            dim: false,
            underline: false,
            italic: false,
            blink: false,
            strike: false,
        }
    }
}

impl Style {
    /// This style with the foreground and background colors swapped.
    pub open spec fn spec_colors_swapped(self) -> Style {
        Style { foreground: self.background, background: self.foreground, ..self }
    }

    /// Swaps the foreground and background colors.
    pub fn swap_colors(&mut self)
        ensures
            *final(self) == old(self).spec_colors_swapped(),
    {
        let foreground = self.foreground;
        self.foreground = self.background;
        self.background = foreground;
    }

    /// A copy of this style with the foreground and background colors swapped.
    pub fn colors_swapped(self) -> (r: Self)
        ensures
            r == self.spec_colors_swapped(),
    {
        Style { foreground: self.background, background: self.foreground, ..self }
    }
}

/// A command for the change of some value.
#[derive(Clone, Copy, Debug, PartialEq, Eq, Hash, Structural)]
pub enum Change<T> {
    /// Keep the current value.
    Keep,
    /// Change the value.
    SetTo(T),
}

impl<T> Default for Change<T> {
    fn default() -> (r: Self)
        ensures
            r is Keep,
    {
        Change::Keep
    }
}

impl<T> Change<T> {
    /// The value that results from applying `self` to `value`.
    pub open spec fn spec_apply_to(self, value: T) -> T {
        match self {
            Change::Keep => value,
            Change::SetTo(v) => v,
        }
    }

    /// The change that brings a value changed by `self` back to `previous`:
    /// it keeps what `self` keeps, and sets back what `self` sets.
    pub open spec fn spec_reverting_to(self, previous: T) -> Change<T> {
        match self {
            Change::Keep => Change::Keep,
            Change::SetTo(_) => Change::SetTo(previous),
        }
    }

    /// The result of applying the change indicated by `self` to `value`.
    pub fn apply_to(self, value: T) -> (r: T)
        ensures
            r == self.spec_apply_to(value),
    {
        match self {
            Change::Keep => value,
            Change::SetTo(v) => v,
        }
    }

    /// The change that reverts `self`, assuming that `previous` was the value
    /// before `self` was applied.
    ///
    /// If another change is applied after `self` and before the result,
    /// the final value may not be `previous`.
    pub fn reverting_to(&self, previous: T) -> (r: Change<T>)
        ensures
            r == self.spec_reverting_to(previous),
    {
        match self {
            Change::Keep => Change::Keep,
            Change::SetTo(_) => Change::SetTo(previous),
        }
    }
}

/// A change of some (or all) of the properties of a text style.
#[derive(Clone, Copy, Debug, PartialEq, Eq, Hash, Structural)]
pub struct StyleChange {
    pub foreground: Change<Color>,
    pub background: Change<Color>,
    pub bold: Change<bool>,
    pub dim: Change<bool>,
    pub underline: Change<bool>,
    pub italic: Change<bool>,
    pub blink: Change<bool>,
    pub strike: Change<bool>,
}

/// The style change that keeps every property.
pub open spec fn keep_change() -> StyleChange {
    StyleChange {
        foreground: Change::Keep,
        background: Change::Keep,
        bold: Change::Keep,
        dim: Change::Keep,
        underline: Change::Keep,
        italic: Change::Keep,
        blink: Change::Keep,
        strike: Change::Keep,
    }
}

/// The style change that sets every property to its value in `style`.
pub open spec fn setting_change(style: Style) -> StyleChange {
    StyleChange {
        foreground: Change::SetTo(style.foreground),
        background: Change::SetTo(style.background),
        bold: Change::SetTo(style.bold),
        dim: Change::SetTo(style.dim),
        underline: Change::SetTo(style.underline),
        italic: Change::SetTo(style.italic),
        blink: Change::SetTo(style.blink),
        strike: Change::SetTo(style.strike),
    }
}

/// The style change that exchanges the two colors of `style`.
pub open spec fn swapping_change(style: Style) -> StyleChange {
    StyleChange {
        foreground: Change::SetTo(style.background),
        background: Change::SetTo(style.foreground),
        ..keep_change()
    }
}

impl Default for StyleChange {
    fn default() -> (r: StyleChange)
        ensures
            r == keep_change(),
    {
        StyleChange::keep()
    }
}

impl StyleChange {
    /// The style that results from applying `self` to `style`:
    /// kept properties pass through, set ones are replaced.
    pub open spec fn spec_apply_to(self, style: Style) -> Style {
        Style {
            foreground: self.foreground.spec_apply_to(style.foreground),
            background: self.background.spec_apply_to(style.background),
            bold: self.bold.spec_apply_to(style.bold),
            dim: self.dim.spec_apply_to(style.dim),
            underline: self.underline.spec_apply_to(style.underline),
            italic: self.italic.spec_apply_to(style.italic),
            blink: self.blink.spec_apply_to(style.blink),
            strike: self.strike.spec_apply_to(style.strike),
        }
    }

    /// The change that reverts `self` from a style that was `previous`:
    /// every property that `self` sets is set back, every other one is kept.
    pub open spec fn spec_reverting_to(self, previous: Style) -> StyleChange {
        StyleChange {
            foreground: self.foreground.spec_reverting_to(previous.foreground),
            background: self.background.spec_reverting_to(previous.background),
            bold: self.bold.spec_reverting_to(previous.bold),
            dim: self.dim.spec_reverting_to(previous.dim),
            underline: self.underline.spec_reverting_to(previous.underline),
            italic: self.italic.spec_reverting_to(previous.italic),
            blink: self.blink.spec_reverting_to(previous.blink),
            strike: self.strike.spec_reverting_to(previous.strike),
        }
    }

    /// Whether `self` sets any property.
    pub open spec fn spec_any(self) -> bool {
        self != keep_change()
    }

    /// The change that keeps every property.
    pub fn keep() -> (r: StyleChange)
        ensures
            r == keep_change(),
    {
        StyleChange {
            foreground: Change::Keep,
            background: Change::Keep,
            bold: Change::Keep,
            dim: Change::Keep,
            underline: Change::Keep,
            italic: Change::Keep,
            blink: Change::Keep,
            strike: Change::Keep,
        }
    }

    /// The change that resets every property to the default style.
    pub fn reset() -> (r: StyleChange)
        ensures
            r == setting_change(default_style()),
    {
        StyleChange {
            foreground: Change::SetTo(Color::Unset),
            background: Change::SetTo(Color::Unset),
            bold: Change::SetTo(false),
            dim: Change::SetTo(false),
            underline: Change::SetTo(false),
            italic: Change::SetTo(false),
            blink: Change::SetTo(false),
            strike: Change::SetTo(false),
        }
    }

    /// A change that sets the style to `style`.
    pub fn setting_to(style: &Style) -> (r: Self)
        ensures
            r == setting_change(*style),
    {
        StyleChange {
            foreground: Change::SetTo(style.foreground),
            background: Change::SetTo(style.background),
            bold: Change::SetTo(style.bold),
            dim: Change::SetTo(style.dim),
            underline: Change::SetTo(style.underline),
            italic: Change::SetTo(style.italic),
            blink: Change::SetTo(style.blink),
            strike: Change::SetTo(style.strike),
        }
    }

    /// The style resulting from applying the changes indicated by `self` to `style`.
    pub fn apply_to(&self, style: &Style) -> (r: Style)
        ensures
            r == self.spec_apply_to(*style),
    {
        Style {
            foreground: self.foreground.apply_to(style.foreground),
            background: self.background.apply_to(style.background),
            bold: self.bold.apply_to(style.bold),
            dim: self.dim.apply_to(style.dim),
            underline: self.underline.apply_to(style.underline),
            italic: self.italic.apply_to(style.italic),
            blink: self.blink.apply_to(style.blink),
            strike: self.strike.apply_to(style.strike),
        }
    }

    /// The change that reverts `self`, assuming that `previous` was the style
    /// before `self` was applied.
    ///
    /// If another style change is applied after `self` and before the result,
    /// the final style may not be `previous`.
    pub fn reverting_to(&self, previous: &Style) -> (r: Self)
        ensures
            r == self.spec_reverting_to(*previous),
    {
        StyleChange {
            foreground: self.foreground.reverting_to(previous.foreground),
            background: self.background.reverting_to(previous.background),
            bold: self.bold.reverting_to(previous.bold),
            dim: self.dim.reverting_to(previous.dim),
            underline: self.underline.reverting_to(previous.underline),
            italic: self.italic.reverting_to(previous.italic),
            blink: self.blink.reverting_to(previous.blink),
            strike: self.strike.reverting_to(previous.strike),
        }
    }

    /// Whether `self` encodes any change, i.e., whether any of its fields is not
    /// [`Change::Keep`].
    pub fn any(&self) -> (r: bool)
        ensures
            r == self.spec_any(),
    {
        !(matches!(self.foreground, Change::Keep) && matches!(self.background, Change::Keep)
            && matches!(self.bold, Change::Keep) && matches!(self.dim, Change::Keep)
            && matches!(self.underline, Change::Keep) && matches!(self.italic, Change::Keep)
            && matches!(self.blink, Change::Keep) && matches!(self.strike, Change::Keep))
    }
}

/// Applying a change and then its reversion gives back the style that the change
/// was applied to.
pub proof fn lemma_revert_restores(style: Style, change: StyleChange)
    ensures
        change.spec_reverting_to(style).spec_apply_to(change.spec_apply_to(style)) == style,
{
}

/// A change that keeps every property leaves every style as it is.
pub proof fn lemma_keep_is_identity(style: Style, change: StyleChange)
    requires
        !change.spec_any(),
    ensures
        change.spec_apply_to(style) == style,
{
}

/// The text of a decimal digit.
pub open spec fn digit_text(d: nat) -> Seq<char> {
    if d == 0 {
        "0"@
    } else if d == 1 {
        "1"@
    } else if d == 2 {
        "2"@
    } else if d == 3 {
        "3"@
    } else if d == 4 {
        "4"@
    } else if d == 5 {
        "5"@
    } else if d == 6 {
        "6"@
    } else if d == 7 {
        "7"@
    } else if d == 8 {
        "8"@
    } else {
        "9"@
    }
}

/// The decimal representation of `n`, without leading zeros.
pub open spec fn decimal_text(n: nat) -> Seq<char>
    decreases n,
{
    if n < 10 {
        digit_text(n)
    } else {
        decimal_text(n / 10) + digit_text(n % 10)
    }
}

/// The text of the decimal digit `d`.
pub(crate) fn digit_str(d: u8) -> (r: &'static str)
    requires
        d < 10,
    ensures
        r@ == digit_text(d as nat),
{
    match d {
        0 => "0",
        1 => "1",
        2 => "2",
        3 => "3",
        4 => "4",
        5 => "5",
        6 => "6",
        7 => "7",
        8 => "8",
        _ => "9",
    }
}

/// Writes `n` in decimal.
pub fn write_decimal<W: StyledWrite>(writer: &mut W, n: u128) -> (r: Result<(), std::io::Error>)
    ensures
        final(writer).current_style() == old(writer).current_style(),
        final(writer).sink_never_fails() == old(writer).sink_never_fails(),
        final(writer).style_never_fails() == old(writer).style_never_fails(),
        old(writer).sink_never_fails() ==> r is Ok,
        r is Ok ==> final(writer).emitted() == old(writer).emitted() + decimal_text(n as nat),
    decreases n,
{
    if n >= 10 {
        write_decimal(writer, n / 10)?;
    }
    writer.write_str(digit_str((n % 10) as u8))
}

/// A writer of text capable of styling.
///
/// A writer keeps the style that text written next appears in, and hands text
/// to a sink. Its contract speaks of `current_style`, the style in effect, and of
/// `emitted`, the whole text that the sink has accepted from it so far.
pub trait StyledWrite: Sized {
    /// The style in effect for the text written next.
    spec fn current_style(&self) -> Style;

    /// The text that the sink has accepted from this writer so far.
    spec fn emitted(&self) -> Seq<char>;

    /// The text that `change_style(change)` writes when the style is `style`.
    spec fn change_text(style: Style, change: StyleChange) -> Seq<char>;

    /// The text that `reset_style` writes when the style is `style`.
    spec fn reset_text(style: Style) -> Seq<char>;

    /// Whether the sink of this writer never fails, so that writing text never fails.
    spec fn sink_never_fails(&self) -> bool;

    /// Whether changing, resetting and swapping the style never fail.
    spec fn style_never_fails(&self) -> bool;

    /// Gets the current text style.
    fn style(&self) -> (r: &Style)
        ensures
            *r == self.current_style(),
    ;

    /// Writes `s` as it is, in the current style.
    fn write_str(&mut self, s: &str) -> (r: Result<(), std::io::Error>)
        ensures
            final(self).current_style() == old(self).current_style(),
            r is Ok ==> final(self).emitted() == old(self).emitted() + s@,
            final(self).sink_never_fails() == old(self).sink_never_fails(),
            old(self).sink_never_fails() ==> r is Ok,
            final(self).style_never_fails() == old(self).style_never_fails(),
    ;

    /// Flushes the sink.
    fn flush(&mut self) -> (r: Result<(), std::io::Error>)
        ensures
            final(self).current_style() == old(self).current_style(),
            final(self).emitted() == old(self).emitted(),
            final(self).sink_never_fails() == old(self).sink_never_fails(),
            old(self).sink_never_fails() ==> r is Ok,
            final(self).style_never_fails() == old(self).style_never_fails(),
    ;

    /// Changes some (or all) of the text style properties for future writes.
    ///
    /// A change that keeps every property writes nothing and always succeeds.
    /// On failure the style is unchanged, though part of the text may have been written.
    fn change_style(&mut self, change: StyleChange) -> (r: Result<(), std::io::Error>)
        ensures
            r is Ok ==> final(self).current_style() == change.spec_apply_to(
                old(self).current_style(),
            ),
            r is Ok ==> final(self).emitted() == old(self).emitted() + Self::change_text(
                old(self).current_style(),
                change,
            ),
            r is Err ==> final(self).current_style() == old(self).current_style(),
            !change.spec_any() ==> r is Ok && final(self).emitted() == old(self).emitted(),
            final(self).sink_never_fails() == old(self).sink_never_fails(),
            final(self).style_never_fails() == old(self).style_never_fails(),
            old(self).style_never_fails() ==> r is Ok,
    ;

    /// Resets the text style for future writes.
    fn reset_style(&mut self) -> (r: Result<(), std::io::Error>)
        ensures
            r is Ok ==> final(self).current_style() == default_style(),
            r is Ok ==> final(self).emitted() == old(self).emitted() + Self::reset_text(
                old(self).current_style(),
            ),
            r is Err ==> final(self).current_style() == old(self).current_style(),
            final(self).sink_never_fails() == old(self).sink_never_fails(),
            final(self).style_never_fails() == old(self).style_never_fails(),
            old(self).style_never_fails() ==> r is Ok,
    ;

    /// Swaps the foreground and background colors of the text style for future writes.
    ///
    /// When the two colors are equal nothing is written.
    fn swap_colors(&mut self) -> (r: Result<(), std::io::Error>)
        ensures
            r is Ok ==> final(self).current_style() == old(
                self,
            ).current_style().spec_colors_swapped(),
            r is Ok && old(self).current_style().foreground != old(self).current_style().background
                ==> final(self).emitted() == old(self).emitted() + Self::change_text(
                old(self).current_style(),
                swapping_change(old(self).current_style()),
            ),
            r is Err ==> final(self).current_style() == old(self).current_style(),
            old(self).current_style().foreground == old(self).current_style().background ==> r is Ok
                && final(self).emitted() == old(self).emitted(),
            final(self).sink_never_fails() == old(self).sink_never_fails(),
            final(self).style_never_fails() == old(self).style_never_fails(),
            old(self).style_never_fails() ==> r is Ok,
    {
        let style = *self.style();
        if style.foreground == style.background {
            return Ok(());
        }
        let change = StyleChange {
            foreground: Change::SetTo(style.background),
            background: Change::SetTo(style.foreground),
            ..StyleChange::keep()
        };
        assert(change == swapping_change(style));
        self.change_style(change)
    }
}

/// Swapping the colors twice gives the original colors back; and where the two
/// colors are equal they stay equal after a swap, so that neither of the two swaps
/// writes anything.
pub proof fn lemma_swap_twice(style: Style)
    ensures
        style.spec_colors_swapped().spec_colors_swapped() == style,
        style.foreground == style.background ==> style.spec_colors_swapped() == style,
{
}

/// Runs `work` with `change` applied to the style of `writer`, then reverts the change.
///
/// The reverting change is computed before `change` is applied. When applying `change`
/// fails, `work` is not run and the error is returned. When reverting fails, the error
/// is returned in place of the result of `work`: that result is dropped, so that a
/// failed write is never hidden. A success returns what `work` returned and, provided
/// that `work` leaves the style as it found it, leaves the style as it was before the
/// call.
pub fn with_style<W: StyledWrite, R>(
    writer: &mut W,
    change: StyleChange,
    work: impl FnOnce(&mut W) -> R,
) -> (r: Result<R, std::io::Error>)
    requires
        forall|w: &mut W| work.requires((w,)),
    ensures
        r is Ok ==> exists|w: &mut W| #[trigger] work.ensures((w,), r->Ok_0),
        !change.spec_any() ==> r is Ok,
        (old(writer).style_never_fails() && (forall|w: &mut W, v: R| work.ensures((w,), v)
            ==> final(w).style_never_fails() == w.style_never_fails())) ==> r is Ok,
        ((forall|w: &mut W, v: R| work.ensures((w,), v) ==> final(w).current_style()
            == w.current_style()) && r is Ok) ==> final(writer).current_style() == old(
            writer,
        ).current_style(),
{
    let revert = change.reverting_to(writer.style());
    let ghost before = writer.current_style();
    writer.change_style(change)?;
    let result = work(writer);
    writer.change_style(revert)?;
    proof {
        lemma_revert_restores(before, change);
    }
    let r: Result<R, std::io::Error> = Ok(result);
    assert(r->Ok_0 == result);
    r
}

/// Runs `work` with `change` applied to the style of `writer`, then resets the style.
///
/// When applying `change` fails, `work` is not run and the error is returned. When
/// resetting fails, the error is returned in place of the result of `work`.
/// A success returns what `work` returned and leaves the default style in effect.
pub fn with_style_then_reset<W: StyledWrite, R>(
    writer: &mut W,
    change: StyleChange,
    work: impl FnOnce(&mut W) -> R,
) -> (r: Result<R, std::io::Error>)
    requires
        forall|w: &mut W| work.requires((w,)),
    ensures
        r is Ok ==> exists|w: &mut W| #[trigger] work.ensures((w,), r->Ok_0),
        (old(writer).style_never_fails() && (forall|w: &mut W, v: R| work.ensures((w,), v)
            ==> final(w).style_never_fails() == w.style_never_fails())) ==> r is Ok,
        r is Ok ==> final(writer).current_style() == default_style(),
{
    writer.change_style(change)?;
    let result = work(writer);
    writer.reset_style()?;
    let r: Result<R, std::io::Error> = Ok(result);
    assert(r->Ok_0 == result);
    r
}

/// Runs `work` with the foreground and background colors of `writer` swapped,
/// then swaps them back.
///
/// When the first swap fails, `work` is not run and the error is returned. When the
/// second fails, the error is returned in place of the result of `work`. A success
/// returns what `work` returned and, provided that `work` leaves the style as it found
/// it, leaves the style as it was before the call.
pub fn with_swapped_colors<W: StyledWrite, R>(
    writer: &mut W,
    work: impl FnOnce(&mut W) -> R,
) -> (r: Result<R, std::io::Error>)
    requires
        forall|w: &mut W| work.requires((w,)),
    ensures
        r is Ok ==> exists|w: &mut W| #[trigger] work.ensures((w,), r->Ok_0),
        (old(writer).current_style().foreground == old(writer).current_style().background
            && (forall|w: &mut W, v: R| work.ensures((w,), v) ==> final(w).current_style()
            == w.current_style())) ==> r is Ok,
        (old(writer).style_never_fails() && (forall|w: &mut W, v: R| work.ensures((w,), v)
            ==> final(w).style_never_fails() == w.style_never_fails())) ==> r is Ok,
        ((forall|w: &mut W, v: R| work.ensures((w,), v) ==> final(w).current_style()
            == w.current_style()) && r is Ok) ==> final(writer).current_style() == old(
            writer,
        ).current_style(),
{
    writer.swap_colors()?;
    let result = work(writer);
    writer.swap_colors()?;
    let r: Result<R, std::io::Error> = Ok(result);
    assert(r->Ok_0 == result);
    r
}

} // verus!
