//! Formatting of results of commands or processes.
use crate::env::command_result::{CommandResult, ExitCode};
use crate::styling::{decimal_text, write_decimal, Change, Color, Color4Bit, StyleChange, StyledWrite};
use vstd::prelude::*;

verus! {

/// When to show the exit code in [`write_exit_code_symbol`].
#[derive(Debug, Clone, Copy, PartialEq, Eq, Hash)]
pub enum When {
    /// Never show the exit code.
    Never,
    /// Only show the exit code when it tells of failure.
    OnError,
    /// Always show the exit code.
    Always,
}

/// The symbol written for success by the functions `..._with_defaults`: a check mark.
pub const DEFAULT_SUCCESS_SYMBOL: &'static str = "\u{2714}";

/// The symbol written for failure by the functions `..._with_defaults`: a ballot x.
pub const DEFAULT_ERROR_SYMBOL: &'static str = "\u{2718}";

/// The style change for the success symbol by default: bright green foreground.
pub open spec fn spec_default_success_style_change() -> StyleChange {
    StyleChange {
        foreground: Change::SetTo(Color::Color4Bit(Color4Bit::spec_from_bits(Color4Bit::BRIGHT_GREEN))),
        ..crate::styling::keep_change()
    }
}

/// The style change for the failure symbol by default: bright red foreground.
pub open spec fn spec_default_error_style_change() -> StyleChange {
    StyleChange {
        foreground: Change::SetTo(Color::Color4Bit(Color4Bit::spec_from_bits(Color4Bit::BRIGHT_RED))),
        ..crate::styling::keep_change()
    }
}

/// The style change for the success symbol by default: bright green foreground.
pub fn default_success_style_change() -> (r: StyleChange)
    ensures
        r == spec_default_success_style_change(),
{
    StyleChange {
        foreground: Change::SetTo(
            Color::Color4Bit(Color4Bit::from_bits_truncate(Color4Bit::BRIGHT_GREEN)),
        ),
        ..StyleChange::keep()
    }
}

/// The style change for the failure symbol by default: bright red foreground.
pub fn default_error_style_change() -> (r: StyleChange)
    ensures
        r == spec_default_error_style_change(),
{
    StyleChange {
        foreground: Change::SetTo(
            Color::Color4Bit(Color4Bit::from_bits_truncate(Color4Bit::BRIGHT_RED)),
        ),
        ..StyleChange::keep()
    }
}

/// `n` in decimal, with a minus sign when negative.
pub open spec fn signed_decimal_text(n: int) -> Seq<char> {
    if n < 0 {
        "-"@ + decimal_text((-n) as nat)
    } else {
        decimal_text(n as nat)
    }
}

/// Whether the exit code is shown, for an exit code that tells of success or not.
pub open spec fn shows_code(success: bool, when: When) -> bool {
    match when {
        When::Never => false,
        When::OnError => !success,
        When::Always => true,
    }
}

/// The text written between the style changes for `exit_code`: the symbol, then,
/// when `when` asks for it, a space and the code.
pub open spec fn exit_code_text(
    exit_code: ExitCode,
    success_symbol: Seq<char>,
    error_symbol: Seq<char>,
    when: When,
) -> Seq<char> {
    (if exit_code.0 == 0 {
        success_symbol
    } else {
        error_symbol
    }) + (if shows_code(exit_code.0 == 0, when) {
        " "@ + signed_decimal_text(exit_code.0 as int)
    } else {
        Seq::empty()
    })
}

/// Writes `n` in decimal, with a minus sign when negative.
fn write_signed<W: StyledWrite>(writer: &mut W, n: i32) -> (r: Result<(), std::io::Error>)
    ensures
        final(writer).current_style() == old(writer).current_style(),
        final(writer).sink_never_fails() == old(writer).sink_never_fails(),
        final(writer).style_never_fails() == old(writer).style_never_fails(),
        old(writer).sink_never_fails() ==> r is Ok,
        r is Ok ==> final(writer).emitted() == old(writer).emitted() + signed_decimal_text(
            n as int,
        ),
{
    if n < 0 {
        let ghost start = writer.emitted();
        writer.write_str("-")?;
        let magnitude = (0i64 - n as i64) as u128;
        let r = write_decimal(writer, magnitude);
        assert(r is Ok ==> writer.emitted() =~= start + signed_decimal_text(n as int));
        r
    } else {
        write_decimal(writer, n as u128)
    }
}

/// Writes a symbol telling whether `exit_code` is a success, in the style that
/// `success_style_change` or `error_style_change` gives, followed by the code in the
/// same style when `show_code_when` asks for it.
///
/// The style change is reverted afterwards. When a step fails, its error is returned at
/// once and nothing more is written: a failed first change leaves the style as it was,
/// a failure after it leaves the style changed.
pub fn write_exit_code_symbol<W: StyledWrite>(
    writer: &mut W,
    exit_code: ExitCode,
    success_symbol: &str,
    success_style_change: StyleChange,
    error_symbol: &str,
    error_style_change: StyleChange,
    show_code_when: When,
) -> (r: Result<(), std::io::Error>)
    ensures
        ({
            let style = old(writer).current_style();
            let change = if exit_code.0 == 0 {
                success_style_change
            } else {
                error_style_change
            };
            (r is Ok ==> final(writer).current_style() == style && final(writer).emitted() == old(
                writer,
            ).emitted() + W::change_text(style, change) + exit_code_text(
                exit_code,
                success_symbol@,
                error_symbol@,
                show_code_when,
            ) + W::change_text(
                change.spec_apply_to(style),
                change.spec_reverting_to(style),
            )) && (r is Err ==> final(writer).current_style() == style
                || final(writer).current_style() == change.spec_apply_to(style))
        }),
        final(writer).sink_never_fails() == old(writer).sink_never_fails(),
        final(writer).style_never_fails() == old(writer).style_never_fails(),
        old(writer).sink_never_fails() && old(writer).style_never_fails() ==> r is Ok,
{
    let ghost style = writer.current_style();
    let success = exit_code.is_success();
    let change = if success {
        success_style_change
    } else {
        error_style_change
    };
    let revert = change.reverting_to(writer.style());
    writer.change_style(change)?;
    let ghost applied = writer.emitted();
    let show_code = if success {
        writer.write_str(success_symbol)?;
        matches!(show_code_when, When::Always)
    } else {
        writer.write_str(error_symbol)?;
        matches!(show_code_when, When::Always | When::OnError)
    };
    if show_code {
        writer.write_str(" ")?;
        write_signed(writer, exit_code.0)?;
    }
    let ghost written = writer.emitted();
    assert(written =~= applied + exit_code_text(
        exit_code,
        success_symbol@,
        error_symbol@,
        show_code_when,
    ));
    writer.change_style(revert)?;
    proof {
        crate::styling::lemma_revert_restores(style, change);
    }
    Ok(())
}

/// [`write_exit_code_symbol`] with the default symbols and style changes: a bright
/// green check mark for success, a bright red ballot x for failure.
pub fn write_exit_code_symbol_with_defaults<W: StyledWrite>(
    writer: &mut W,
    exit_code: ExitCode,
    show_code_when: When,
) -> (r: Result<(), std::io::Error>)
    ensures
        ({
            let style = old(writer).current_style();
            let change = if exit_code.0 == 0 {
                spec_default_success_style_change()
            } else {
                spec_default_error_style_change()
            };
            (r is Ok ==> final(writer).current_style() == style && final(writer).emitted() == old(
                writer,
            ).emitted() + W::change_text(style, change) + exit_code_text(
                exit_code,
                DEFAULT_SUCCESS_SYMBOL@,
                DEFAULT_ERROR_SYMBOL@,
                show_code_when,
            ) + W::change_text(
                change.spec_apply_to(style),
                change.spec_reverting_to(style),
            )) && (r is Err ==> final(writer).current_style() == style
                || final(writer).current_style() == change.spec_apply_to(style))
        }),
        final(writer).sink_never_fails() == old(writer).sink_never_fails(),
        final(writer).style_never_fails() == old(writer).style_never_fails(),
        old(writer).sink_never_fails() && old(writer).style_never_fails() ==> r is Ok,
{
    write_exit_code_symbol(
        writer,
        exit_code,
        DEFAULT_SUCCESS_SYMBOL,
        default_success_style_change(),
        DEFAULT_ERROR_SYMBOL,
        default_error_style_change(),
        show_code_when,
    )
}

/// Writes a symbol for `command_result`, in the style that `success_style_change` or
/// `error_style_change` gives; the style change is reverted afterwards.
pub fn write_command_result<W: StyledWrite>(
    writer: &mut W,
    command_result: CommandResult,
    success_symbol: &str,
    success_style_change: StyleChange,
    error_symbol: &str,
    error_style_change: StyleChange,
) -> (r: Result<(), std::io::Error>)
    ensures
        ({
            let style = old(writer).current_style();
            let (change, symbol) = if command_result is Success {
                (success_style_change, success_symbol@)
            } else {
                (error_style_change, error_symbol@)
            };
            (r is Ok ==> final(writer).current_style() == style && final(writer).emitted() == old(
                writer,
            ).emitted() + W::change_text(style, change) + symbol + W::change_text(
                change.spec_apply_to(style),
                change.spec_reverting_to(style),
            )) && (r is Err ==> final(writer).current_style() == style
                || final(writer).current_style() == change.spec_apply_to(style))
        }),
        final(writer).sink_never_fails() == old(writer).sink_never_fails(),
        final(writer).style_never_fails() == old(writer).style_never_fails(),
        old(writer).sink_never_fails() && old(writer).style_never_fails() ==> r is Ok,
{
    let ghost style = writer.current_style();
    let (change, symbol) = if command_result.is_success() {
        (success_style_change, success_symbol)
    } else {
        (error_style_change, error_symbol)
    };
    let revert = change.reverting_to(writer.style());
    writer.change_style(change)?;
    writer.write_str(symbol)?;
    writer.change_style(revert)?;
    proof {
        crate::styling::lemma_revert_restores(style, change);
    }
    Ok(())
}

/// [`write_command_result`] with the default symbols and style changes: a bright
/// green check mark for success, a bright red ballot x for failure.
pub fn write_command_result_with_defaults<W: StyledWrite>(
    writer: &mut W,
    command_result: CommandResult,
) -> (r: Result<(), std::io::Error>)
    ensures
        ({
            let style = old(writer).current_style();
            let (change, symbol) = if command_result is Success {
                (spec_default_success_style_change(), DEFAULT_SUCCESS_SYMBOL@)
            } else {
                (spec_default_error_style_change(), DEFAULT_ERROR_SYMBOL@)
            };
            (r is Ok ==> final(writer).current_style() == style && final(writer).emitted() == old(
                writer,
            ).emitted() + W::change_text(style, change) + symbol + W::change_text(
                change.spec_apply_to(style),
                change.spec_reverting_to(style),
            )) && (r is Err ==> final(writer).current_style() == style
                || final(writer).current_style() == change.spec_apply_to(style))
        }),
        final(writer).sink_never_fails() == old(writer).sink_never_fails(),
        final(writer).style_never_fails() == old(writer).style_never_fails(),
        old(writer).sink_never_fails() && old(writer).style_never_fails() ==> r is Ok,
{
    write_command_result(
        writer,
        command_result,
        DEFAULT_SUCCESS_SYMBOL,
        default_success_style_change(),
        DEFAULT_ERROR_SYMBOL,
        default_error_style_change(),
    )
}

} // verus!
