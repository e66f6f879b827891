use prompt_utils::styling::{
    with_style, with_style_then_reset, with_swapped_colors, Change, Color, Color4Bit, Style,
    StyleChange, StyledWrite, TextSink,
};
use prompt_utils::writers::ansi::ANSIStyledWriter;
use prompt_utils::writers::not_styled::NotStyledWriter;

/// A sink that accepts a fixed number of writes, then fails.
struct LimitedSink {
    text: String,
    writes_left: usize,
}

impl TextSink for LimitedSink {
    fn write_text(&mut self, s: &str) -> Result<(), std::io::Error> {
        if self.writes_left == 0 {
            return Err(std::io::Error::new(std::io::ErrorKind::Other, "sink is full"));
        }
        self.writes_left -= 1;
        self.text.push_str(s);
        Ok(())
    }

    fn flush_text(&mut self) -> Result<(), std::io::Error> {
        Ok(())
    }
}

fn color4(bits: u8) -> Color {
    Color::Color4Bit(Color4Bit::from_bits_truncate(bits))
}

fn ansi_output(changes: &[StyleChange]) -> String {
    let mut writer = ANSIStyledWriter::new(String::new());
    for change in changes {
        writer.change_style(*change).unwrap();
    }
    writer.into_inner()
}

#[test]
fn bright_red_foreground_is_code_91() {
    let change = StyleChange { foreground: Change::SetTo(color4(Color4Bit::BRIGHT_RED)), ..StyleChange::keep() };
    assert_eq!(ansi_output(&[change]), "\x1B[91m");
}

#[test]
fn background_256_color_200() {
    let change = StyleChange { background: Change::SetTo(Color::ANSI256(200)), ..StyleChange::keep() };
    assert_eq!(ansi_output(&[change]), "\x1B[48;5;200m");
}

#[test]
fn bold_with_dim_off_is_the_combined_pair() {
    let change = StyleChange { bold: Change::SetTo(true), ..StyleChange::keep() };
    assert_eq!(ansi_output(&[change]), "\x1B[22;1m");
}

#[test]
fn bold_dim_table_for_all_four_combinations() {
    let both = StyleChange { bold: Change::SetTo(true), dim: Change::SetTo(true), ..StyleChange::keep() };
    let bold = StyleChange { bold: Change::SetTo(true), dim: Change::SetTo(false), ..StyleChange::keep() };
    let dim = StyleChange { bold: Change::SetTo(false), dim: Change::SetTo(true), ..StyleChange::keep() };
    let none = StyleChange { bold: Change::SetTo(false), dim: Change::SetTo(false), ..StyleChange::keep() };
    assert_eq!(ansi_output(&[both]), "\x1B[1;2m");
    assert_eq!(ansi_output(&[bold]), "\x1B[22;1m");
    assert_eq!(ansi_output(&[dim]), "\x1B[22;2m");
    assert_eq!(ansi_output(&[none]), "\x1B[22m");
    let dim_only = StyleChange { dim: Change::SetTo(true), ..StyleChange::keep() };
    let then_bold = StyleChange { bold: Change::SetTo(true), ..StyleChange::keep() };
    assert_eq!(ansi_output(&[dim_only, then_bold]), "\x1B[22;2m\x1B[1;2m");
}

#[test]
fn every_field_in_order() {
    let change = StyleChange {
        foreground: Change::SetTo(color4(Color4Bit::DARK_GREEN)),
        background: Change::SetTo(Color::RGB(1, 22, 255)),
        bold: Change::SetTo(false),
        dim: Change::Keep,
        underline: Change::SetTo(true),
        italic: Change::SetTo(true),
        blink: Change::SetTo(false),
        strike: Change::SetTo(true),
    };
    assert_eq!(ansi_output(&[change]), "\x1B[22;3;4;25;9;32;48;2;1;22;255m");
    let change = StyleChange {
        foreground: Change::SetTo(Color::Unset),
        background: Change::SetTo(color4(Color4Bit::BRIGHT_BLUE)),
        underline: Change::SetTo(false),
        italic: Change::SetTo(false),
        blink: Change::SetTo(true),
        strike: Change::SetTo(false),
        ..StyleChange::keep()
    };
    assert_eq!(ansi_output(&[change]), "\x1B[23;24;5;29;39;104m");
    let change = StyleChange {
        foreground: Change::SetTo(Color::ANSI256(7)),
        background: Change::SetTo(Color::Unset),
        ..StyleChange::keep()
    };
    assert_eq!(ansi_output(&[change]), "\x1B[38;5;7;49m");
    let change = StyleChange {
        foreground: Change::SetTo(Color::RGB(0, 0, 0)),
        background: Change::SetTo(color4(Color4Bit::DARK_YELLOW)),
        ..StyleChange::keep()
    };
    assert_eq!(ansi_output(&[change]), "\x1B[38;2;0;0;0;43m");
}

#[test]
fn keep_change_writes_nothing() {
    let mut ansi = ANSIStyledWriter::new(String::new());
    ansi.change_style(StyleChange { italic: Change::SetTo(true), ..StyleChange::keep() }).unwrap();
    let before = *ansi.style();
    ansi.change_style(StyleChange::keep()).unwrap();
    assert_eq!(*ansi.style(), before);
    assert_eq!(ansi.into_inner(), "\x1B[3m");

    let mut plain = NotStyledWriter::new(String::new());
    plain.change_style(StyleChange::keep()).unwrap();
    assert_eq!(*plain.style(), Style::default());
    assert_eq!(plain.into_inner(), "");

    // A sink that fails on any write is never asked to write.
    let mut failing = ANSIStyledWriter::new(LimitedSink { text: String::new(), writes_left: 0 });
    assert!(failing.change_style(StyleChange::default()).is_ok());
}

#[test]
fn swap_twice_restores_colors() {
    let mut writer = ANSIStyledWriter::new(String::new());
    writer
        .change_style(StyleChange {
            foreground: Change::SetTo(color4(Color4Bit::DARK_RED)),
            background: Change::SetTo(Color::ANSI256(200)),
            ..StyleChange::keep()
        })
        .unwrap();
    let before = *writer.style();
    writer.swap_colors().unwrap();
    assert_eq!(*writer.style(), before.colors_swapped());
    writer.swap_colors().unwrap();
    assert_eq!(*writer.style(), before);
    assert_eq!(
        writer.into_inner(),
        "\x1B[31;48;5;200m\x1B[38;5;200;41m\x1B[31;48;5;200m"
    );
}

#[test]
fn swap_of_equal_colors_writes_nothing() {
    let mut writer = ANSIStyledWriter::new(String::new());
    writer.swap_colors().unwrap();
    writer.swap_colors().unwrap();
    assert_eq!(writer.into_inner(), "");

    let mut plain = NotStyledWriter::new(String::new());
    plain.change_style(StyleChange { foreground: Change::SetTo(Color::RGB(1, 2, 3)), ..StyleChange::keep() }).unwrap();
    plain.swap_colors().unwrap();
    assert_eq!(plain.style().background, Color::RGB(1, 2, 3));
    assert_eq!(plain.style().foreground, Color::Unset);
    plain.swap_colors().unwrap();
    assert_eq!(plain.style().foreground, Color::RGB(1, 2, 3));
    assert_eq!(plain.into_inner(), "");
}

#[test]
fn reset_writes_the_full_reset() {
    let mut writer = ANSIStyledWriter::new(String::new());
    writer.change_style(StyleChange { bold: Change::SetTo(true), ..StyleChange::keep() }).unwrap();
    writer.reset_style().unwrap();
    assert_eq!(*writer.style(), Style::default());
    assert_eq!(writer.into_inner(), "\x1B[22;1m\x1B[0m");
}

#[test]
fn revert_undoes_a_change() {
    let style = Style {
        foreground: color4(Color4Bit::WHITE),
        background: Color::Unset,
        bold: true,
        dim: false,
        underline: false,
        italic: true,
        blink: false,
        strike: false,
    };
    let change = StyleChange {
        foreground: Change::SetTo(Color::RGB(9, 9, 9)),
        italic: Change::SetTo(false),
        strike: Change::SetTo(true),
        ..StyleChange::keep()
    };
    let changed = change.apply_to(&style);
    assert_eq!(changed.foreground, Color::RGB(9, 9, 9));
    assert!(!changed.italic && changed.strike && changed.bold);
    let revert = change.reverting_to(&style);
    assert_eq!(revert.bold, Change::Keep);
    assert_eq!(revert.italic, Change::SetTo(true));
    assert_eq!(revert.apply_to(&changed), style);
    assert!(change.any());
    assert!(!StyleChange::keep().any());
    assert_eq!(StyleChange::setting_to(&style).apply_to(&Style::default()), style);
    assert_eq!(StyleChange::reset().apply_to(&style), Style::default());
    assert_eq!(Change::SetTo(3).apply_to(1), 3);
    assert_eq!(Change::<i32>::Keep.apply_to(1), 1);
    assert_eq!(Color4Bit::from_bits_truncate(0xF9).to_ansi_256(), 9);
    assert_eq!(Color4Bit::from_bits_truncate(0x19), Color4Bit::from_bits_truncate(Color4Bit::BRIGHT_RED));
    assert_eq!(Color4Bit::from_bits_truncate(0x1A).bits(), Color4Bit::BRIGHT_GREEN);
    let mut swapped = style;
    swapped.swap_colors();
    assert_eq!(swapped.background, color4(Color4Bit::WHITE));
    assert_eq!(swapped.foreground, Color::Unset);
}

#[test]
fn not_styled_tracks_the_ansi_style() {
    let changes = [
        StyleChange { bold: Change::SetTo(true), foreground: Change::SetTo(Color::ANSI256(3)), ..StyleChange::keep() },
        StyleChange { dim: Change::SetTo(true), ..StyleChange::keep() },
        StyleChange::keep(),
        StyleChange { background: Change::SetTo(Color::RGB(4, 5, 6)), underline: Change::SetTo(true), ..StyleChange::keep() },
        StyleChange { bold: Change::SetTo(false), blink: Change::SetTo(true), ..StyleChange::keep() },
        StyleChange::reset(),
        StyleChange { strike: Change::SetTo(true), italic: Change::SetTo(true), ..StyleChange::keep() },
    ];
    let mut ansi = ANSIStyledWriter::new(String::new());
    let mut plain = NotStyledWriter::new(String::new());
    for change in changes {
        ansi.change_style(change).unwrap();
        plain.change_style(change).unwrap();
        assert_eq!(plain.style(), ansi.style());
        plain.write_str("x").unwrap();
    }
    assert_eq!(plain.into_inner(), "xxxxxxx");
}

#[test]
fn scoped_change_returns_the_work_result_and_restores() {
    let mut writer = ANSIStyledWriter::new(String::new());
    let before = *writer.style();
    let change = StyleChange { underline: Change::SetTo(true), ..StyleChange::keep() };
    let result = with_style(&mut writer, change, |w: &mut ANSIStyledWriter<String>| {
        w.write_str("hi").unwrap();
        42
    });
    assert_eq!(result.unwrap(), 42);
    assert_eq!(*writer.style(), before);
    assert_eq!(writer.into_inner(), "\x1B[4mhi\x1B[24m");
}

#[test]
fn scoped_change_then_reset() {
    let mut writer = ANSIStyledWriter::new(String::new());
    writer.change_style(StyleChange { italic: Change::SetTo(true), ..StyleChange::keep() }).unwrap();
    let change = StyleChange { blink: Change::SetTo(true), ..StyleChange::keep() };
    let result = with_style_then_reset(&mut writer, change, |w: &mut ANSIStyledWriter<String>| {
        w.write_str("!").unwrap();
        "done"
    });
    assert_eq!(result.unwrap(), "done");
    assert_eq!(*writer.style(), Style::default());
    assert_eq!(writer.into_inner(), "\x1B[3m\x1B[5m!\x1B[0m");
}

#[test]
fn scoped_swap() {
    let mut writer = ANSIStyledWriter::new(String::new());
    writer.change_style(StyleChange { foreground: Change::SetTo(color4(Color4Bit::BRIGHT_GRAY)), ..StyleChange::keep() }).unwrap();
    let before = *writer.style();
    let result = with_swapped_colors(&mut writer, |w: &mut ANSIStyledWriter<String>| {
        w.write_str("v").unwrap();
    });
    assert!(result.is_ok());
    assert_eq!(*writer.style(), before);
    assert_eq!(writer.into_inner(), "\x1B[90m\x1B[39;100mv\x1B[90;49m");
}

#[test]
fn scoped_change_errors() {
    // The first change fails: the work is not run.
    let mut writer = ANSIStyledWriter::new(LimitedSink { text: String::new(), writes_left: 0 });
    let mut ran = false;
    let change = StyleChange { bold: Change::SetTo(true), ..StyleChange::keep() };
    let result = with_style(&mut writer, change, |_w: &mut ANSIStyledWriter<LimitedSink>| {
        ran = true;
    });
    assert!(result.is_err());
    assert!(!ran);
    assert_eq!(*writer.style(), Style::default());

    // The revert fails: its error replaces the result.
    let mut writer = ANSIStyledWriter::new(LimitedSink { text: String::new(), writes_left: 4 });
    let result = with_style(&mut writer, change, |w: &mut ANSIStyledWriter<LimitedSink>| {
        w.write_str("a").unwrap();
        7
    });
    assert!(result.is_err());
    assert_eq!(writer.into_inner().text, "\x1B[22;1ma");
}
