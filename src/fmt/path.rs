//! Formatting of paths.
use crate::env::path::{Component, ComponentView, Path};
use crate::styling::StyledWrite;
use vstd::prelude::*;

verus! {

/// How a component is displayed.
pub open spec fn component_text(component: ComponentView) -> Seq<char> {
    match component {
        ComponentView::RootDir => "/"@,
        ComponentView::CurDir => "."@,
        ComponentView::ParentDir => ".."@,
        ComponentView::Normal(name) => name,
    }
}

/// How the root directory is displayed: `root_dir_override` where given, else `/`.
pub open spec fn root_text(root_dir_override: Option<Seq<char>>) -> Seq<char> {
    match root_dir_override {
        Some(text) => text,
        None => "/"@,
    }
}

/// The components of `path` at `from` up to `to` (excluded), each after `separator`.
pub open spec fn separated_text(path: Seq<ComponentView>, from: int, to: int, separator: Seq<char>) -> Seq<
    char,
>
    decreases to - from,
{
    if to <= from {
        Seq::empty()
    } else {
        separated_text(path, from, to - 1, separator) + separator + component_text(path[to - 1])
    }
}

/// `text`, `count` times over.
pub open spec fn repeated(text: Seq<char>, count: nat) -> Seq<char>
    decreases count,
{
    if count == 0 {
        Seq::empty()
    } else {
        repeated(text, (count - 1) as nat) + text
    }
}

/// The full form of `path`: its components separated by `separator`, but for the
/// root directory, which is displayed as `root_text` and followed by `root_separator`.
pub open spec fn full_text(
    path: Seq<ComponentView>,
    separator: Seq<char>,
    root_separator: Seq<char>,
    root_dir_override: Option<Seq<char>>,
) -> Seq<char> {
    if path.len() == 0 {
        Seq::empty()
    } else if path[0] is RootDir {
        root_text(root_dir_override) + if path.len() > 1 {
            root_separator + component_text(path[1]) + separated_text(
                path,
                2,
                path.len() as int,
                separator,
            )
        } else {
            Seq::empty()
        }
    } else {
        component_text(path[0]) + separated_text(path, 1, path.len() as int, separator)
    }
}

/// The first component of a path of two or more components, with what follows it.
pub open spec fn head_text(
    path: Seq<ComponentView>,
    separator: Seq<char>,
    root_separator: Seq<char>,
    root_dir_override: Option<Seq<char>>,
) -> Seq<char> {
    if path[0] is RootDir {
        root_text(root_dir_override) + root_separator
    } else {
        component_text(path[0]) + separator
    }
}

/// `path` with each intermediate component replaced by `replacement`.
pub open spec fn middle_hidden_text(
    path: Seq<ComponentView>,
    separator: Seq<char>,
    root_separator: Seq<char>,
    root_dir_override: Option<Seq<char>>,
    replacement: Seq<char>,
) -> Seq<char> {
    if path.len() == 0 {
        Seq::empty()
    } else if path.len() == 1 {
        component_text(path[0])
    } else {
        head_text(path, separator, root_separator, root_dir_override) + repeated(
            replacement + separator,
            (path.len() - 2) as nat,
        ) + component_text(path.last())
    }
}

/// `path` with all intermediate components replaced by one `replacement`.
pub open spec fn short_text(
    path: Seq<ComponentView>,
    separator: Seq<char>,
    root_separator: Seq<char>,
    root_dir_override: Option<Seq<char>>,
    replacement: Seq<char>,
) -> Seq<char> {
    if path.len() == 0 {
        Seq::empty()
    } else if path.len() == 1 {
        component_text(path[0])
    } else {
        head_text(path, separator, root_separator, root_dir_override) + (if path.len() > 2 {
            replacement + separator
        } else {
            Seq::empty()
        }) + component_text(path.last())
    }
}

/// The view of an optional text.
pub open spec fn text_option(text: Option<&str>) -> Option<Seq<char>> {
    match text {
        Some(t) => Some(t@),
        None => None,
    }
}

fn write_component<W: StyledWrite>(writer: &mut W, component: &Component) -> (r: Result<
    (),
    std::io::Error,
>)
    ensures
        final(writer).current_style() == old(writer).current_style(),
        final(writer).sink_never_fails() == old(writer).sink_never_fails(),
        final(writer).style_never_fails() == old(writer).style_never_fails(),
        old(writer).sink_never_fails() ==> r is Ok,
        r is Ok ==> final(writer).emitted() == old(writer).emitted() + component_text(component@),
{
    match component {
        Component::RootDir => writer.write_str("/"),
        Component::CurDir => writer.write_str("."),
        Component::ParentDir => writer.write_str(".."),
        Component::Normal(name) => writer.write_str(name.as_str()),
    }
}

fn write_root<W: StyledWrite>(writer: &mut W, root_dir_override: Option<&str>) -> (r: Result<
    (),
    std::io::Error,
>)
    ensures
        final(writer).current_style() == old(writer).current_style(),
        final(writer).sink_never_fails() == old(writer).sink_never_fails(),
        final(writer).style_never_fails() == old(writer).style_never_fails(),
        old(writer).sink_never_fails() ==> r is Ok,
        r is Ok ==> final(writer).emitted() == old(writer).emitted() + root_text(
            text_option(root_dir_override),
        ),
{
    match root_dir_override {
        Some(text) => writer.write_str(text),
        None => writer.write_str("/"),
    }
}

/// Writes the first component of a path of two or more components and what follows it.
fn write_head<W: StyledWrite>(
    writer: &mut W,
    path: &Path,
    separator: &str,
    root_separator: &str,
    root_dir_override: Option<&str>,
) -> (r: Result<(), std::io::Error>)
    requires
        path@.len() >= 2,
    ensures
        final(writer).current_style() == old(writer).current_style(),
        final(writer).sink_never_fails() == old(writer).sink_never_fails(),
        final(writer).style_never_fails() == old(writer).style_never_fails(),
        old(writer).sink_never_fails() ==> r is Ok,
        r is Ok ==> final(writer).emitted() == old(writer).emitted() + head_text(
            path@,
            separator@,
            root_separator@,
            text_option(root_dir_override),
        ),
{
    let ghost start = writer.emitted();
    if matches!(path.components[0], Component::RootDir) {
        write_root(writer, root_dir_override)?;
        writer.write_str(root_separator)?;
    } else {
        write_component(writer, &path.components[0])?;
        writer.write_str(separator)?;
    }
    assert(writer.emitted() =~= start + head_text(
        path@,
        separator@,
        root_separator@,
        text_option(root_dir_override),
    ));
    Ok(())
}

/// Writes the components of `path` from `from` on, each after `separator`.
fn write_separated<W: StyledWrite>(writer: &mut W, path: &Path, from: usize, separator: &str) -> (r:
    Result<(), std::io::Error>)
    requires
        from <= path@.len(),
    ensures
        final(writer).current_style() == old(writer).current_style(),
        final(writer).sink_never_fails() == old(writer).sink_never_fails(),
        final(writer).style_never_fails() == old(writer).style_never_fails(),
        old(writer).sink_never_fails() ==> r is Ok,
        r is Ok ==> final(writer).emitted() == old(writer).emitted() + separated_text(
            path@,
            from as int,
            path@.len() as int,
            separator@,
        ),
{
    let ghost start = writer.emitted();
    let mut i = from;
    while i < path.components.len()
        invariant
            from <= i <= path.components.len(),
            writer.current_style() == old(writer).current_style(),
            writer.sink_never_fails() == old(writer).sink_never_fails(),
            writer.style_never_fails() == old(writer).style_never_fails(),
            writer.emitted() == start + separated_text(path@, from as int, i as int, separator@),
        decreases path.components.len() - i,
    {
        writer.write_str(separator)?;
        write_component(writer, &path.components[i])?;
        assert(writer.emitted() =~= start + separated_text(
            path@,
            from as int,
            (i + 1) as int,
            separator@,
        ));
        i += 1;
    }
    Ok(())
}

/// Writes a path in its full form.
///
/// `separator` goes between components; `root_separator` goes after the root
/// directory, which is displayed as `root_dir_override` where given, else as `/`.
pub fn write_full<W: StyledWrite>(
    writer: &mut W,
    path: &Path,
    separator: &str,
    root_separator: &str,
    root_dir_override: Option<&str>,
) -> (r: Result<(), std::io::Error>)
    ensures
        final(writer).current_style() == old(writer).current_style(),
        final(writer).sink_never_fails() == old(writer).sink_never_fails(),
        final(writer).style_never_fails() == old(writer).style_never_fails(),
        old(writer).sink_never_fails() ==> r is Ok,
        r is Ok ==> final(writer).emitted() == old(writer).emitted() + full_text(
            path@,
            separator@,
            root_separator@,
            text_option(root_dir_override),
        ),
{
    let ghost start = writer.emitted();
    let n = path.components.len();
    if n == 0 {
        assert(writer.emitted() =~= start + full_text(
            path@,
            separator@,
            root_separator@,
            text_option(root_dir_override),
        ));
        return Ok(());
    }
    if matches!(path.components[0], Component::RootDir) {
        write_root(writer, root_dir_override)?;
        if n > 1 {
            writer.write_str(root_separator)?;
            write_component(writer, &path.components[1])?;
            write_separated(writer, path, 2, separator)?;
        }
    } else {
        write_component(writer, &path.components[0])?;
        write_separated(writer, path, 1, separator)?;
    }
    assert(writer.emitted() =~= start + full_text(
        path@,
        separator@,
        root_separator@,
        text_option(root_dir_override),
    ));
    Ok(())
}

/// Writes a path with each intermediate component replaced by `replacement`.
///
/// `separator`, `root_separator` and `root_dir_override` are as for [`write_full`].
pub fn write_with_middle_hidden<W: StyledWrite>(
    writer: &mut W,
    path: &Path,
    separator: &str,
    root_separator: &str,
    root_dir_override: Option<&str>,
    replacement: &str,
) -> (r: Result<(), std::io::Error>)
    ensures
        final(writer).current_style() == old(writer).current_style(),
        final(writer).sink_never_fails() == old(writer).sink_never_fails(),
        final(writer).style_never_fails() == old(writer).style_never_fails(),
        old(writer).sink_never_fails() ==> r is Ok,
        r is Ok ==> final(writer).emitted() == old(writer).emitted() + middle_hidden_text(
            path@,
            separator@,
            root_separator@,
            text_option(root_dir_override),
            replacement@,
        ),
{
    let ghost start = writer.emitted();
    let n = path.components.len();
    if n == 0 {
        assert(writer.emitted() =~= start + Seq::<char>::empty());
        return Ok(());
    }
    if n == 1 {
        return write_component(writer, &path.components[0]);
    }
    write_head(writer, path, separator, root_separator, root_dir_override)?;
    let ghost after_head = writer.emitted();
    let mut i: usize = 0;
    while i < n - 2
        invariant
            n == path.components.len(),
            n >= 2,
            0 <= i <= n - 2,
            writer.current_style() == old(writer).current_style(),
            writer.sink_never_fails() == old(writer).sink_never_fails(),
            writer.style_never_fails() == old(writer).style_never_fails(),
            writer.emitted() == after_head + repeated(replacement@ + separator@, i as nat),
        decreases n - 2 - i,
    {
        writer.write_str(replacement)?;
        writer.write_str(separator)?;
        assert(writer.emitted() =~= after_head + repeated(
            replacement@ + separator@,
            (i + 1) as nat,
        ));
        i += 1;
    }
    write_component(writer, &path.components[n - 1])?;
    assert(writer.emitted() =~= start + middle_hidden_text(
        path@,
        separator@,
        root_separator@,
        text_option(root_dir_override),
        replacement@,
    ));
    Ok(())
}

/// Writes a path with all intermediate components replaced by one `replacement`.
///
/// `separator`, `root_separator` and `root_dir_override` are as for [`write_full`].
pub fn write_short<W: StyledWrite>(
    writer: &mut W,
    path: &Path,
    separator: &str,
    root_separator: &str,
    root_dir_override: Option<&str>,
    replacement: &str,
) -> (r: Result<(), std::io::Error>)
    ensures
        final(writer).current_style() == old(writer).current_style(),
        final(writer).sink_never_fails() == old(writer).sink_never_fails(),
        final(writer).style_never_fails() == old(writer).style_never_fails(),
        old(writer).sink_never_fails() ==> r is Ok,
        r is Ok ==> final(writer).emitted() == old(writer).emitted() + short_text(
            path@,
            separator@,
            root_separator@,
            text_option(root_dir_override),
            replacement@,
        ),
{
    let ghost start = writer.emitted();
    let n = path.components.len();
    if n == 0 {
        assert(writer.emitted() =~= start + Seq::<char>::empty());
        return Ok(());
    }
    if n == 1 {
        return write_component(writer, &path.components[0]);
    }
    write_head(writer, path, separator, root_separator, root_dir_override)?;
    if n > 2 {
        writer.write_str(replacement)?;
        writer.write_str(separator)?;
    }
    write_component(writer, &path.components[n - 1])?;
    assert(writer.emitted() =~= start + short_text(
        path@,
        separator@,
        root_separator@,
        text_option(root_dir_override),
        replacement@,
    ));
    Ok(())
}

} // verus!
