//! A writer that keeps track of the style but writes no escape sequences.
use crate::styling::{
    default_style, setting_change, Style, StyleChange, StyledWrite, TextSink,
};
use vstd::prelude::*;

verus! {

/// The text that a writer of kind `S` writes for `changes`, applied in order from `style`.
pub open spec fn text_for_changes<S: StyledWrite>(style: Style, changes: Seq<StyleChange>) -> Seq<
    char,
>
    decreases changes.len(),
{
    if changes.len() == 0 {
        Seq::empty()
    } else {
        S::change_text(style, changes[0]) + text_for_changes::<S>(
            changes[0].spec_apply_to(style),
            changes.drop_first(),
        )
    }
}

/// Whatever sequence of changes it is given, a writer that ignores style writes nothing
/// for them. The style it reports after each change is, as for every [`StyledWrite`],
/// the change applied to the style before it: the style that an ANSI writer keeps
/// after the same changes.
pub proof fn lemma_not_styled_writes_nothing<W: TextSink>(style: Style, changes: Seq<StyleChange>)
    ensures
        text_for_changes::<NotStyledWriter<W>>(style, changes) == Seq::<char>::empty(),
    decreases changes.len(),
{
    if changes.len() > 0 {
        lemma_not_styled_writes_nothing::<W>(changes[0].spec_apply_to(style), changes.drop_first());
        assert(Seq::<char>::empty() + Seq::<char>::empty() =~= Seq::<char>::empty());
    }
}

/// A [`StyledWrite`] that ignores style: it keeps track of the style it is asked
/// for, and writes only the text.
pub struct NotStyledWriter<W: TextSink> {
    pub writer: W,
    pub style: Style,
    log: Ghost<Seq<char>>,
}

impl<W: TextSink> NotStyledWriter<W> {
    /// A writer in the default style, over `writer`.
    pub fn new(writer: W) -> (r: Self)
        ensures
            r.sink() == writer,
            r.current_style() == default_style(),
            r.emitted() == (if writer.keeps_text() {
                writer.accepted()
            } else {
                Seq::empty()
            }),
            r.sink_never_fails() == writer.never_fails(),
    {
        NotStyledWriter { writer, style: Style::default(), log: Ghost(Seq::empty()) }
    }

    /// The sink that this writer writes to.
    pub closed spec fn sink(&self) -> W {
        self.writer
    }

    /// The text written so far: what the sink has accepted where it says so, else
    /// what it accepted from this writer.
    closed spec fn record(&self) -> Seq<char> {
        if self.writer.keeps_text() {
            self.writer.accepted()
        } else {
            self.log@
        }
    }

    /// The sink, with everything written to it.
    pub fn into_inner(self) -> (r: W)
        ensures
            r == self.sink(),
            r.keeps_text() ==> r.accepted() == self.emitted(),
    {
        self.writer
    }
}

impl<W: TextSink> StyledWrite for NotStyledWriter<W> {
    closed spec fn current_style(&self) -> Style {
        self.style
    }

    closed spec fn emitted(&self) -> Seq<char> {
        self.record()
    }

    closed spec fn sink_never_fails(&self) -> bool {
        self.writer.never_fails()
    }

    open spec fn style_never_fails(&self) -> bool {
        true
    }

    open spec fn change_text(style: Style, change: StyleChange) -> Seq<char> {
        Seq::empty()
    }

    open spec fn reset_text(style: Style) -> Seq<char> {
        Seq::empty()
    }

    fn style(&self) -> (r: &Style) {
        &self.style
    }

    fn write_str(&mut self, s: &str) -> (r: Result<(), std::io::Error>) {
        let r = self.writer.write_text(s);
        if r.is_ok() {
            self.log = Ghost(self.log@ + s@);
        }
        r
    }

    fn flush(&mut self) -> (r: Result<(), std::io::Error>) {
        self.writer.flush_text()
    }

    fn change_style(&mut self, change: StyleChange) -> (r: Result<(), std::io::Error>) {
        self.style = change.apply_to(&self.style);
        assert(self.record() == self.record() + Seq::<char>::empty());
        Ok(())
    }

    fn reset_style(&mut self) -> (r: Result<(), std::io::Error>) {
        let r = self.change_style(StyleChange::reset());
        assert(setting_change(default_style()).spec_apply_to(old(self).style) == default_style());
        r
    }
}

} // verus!
